//! Common value types of the session layer: actor addressing, spatial
//! transforms, unlock-bitmap addressing and the deterministic weather
//! window computation.

use vstd::prelude::*;

verus! {

/// Sentinel actor id meaning "no actor".
pub const INVALID_OBJECT_ID: u32 = 0xE000_0000;

/// A global actor id.
#[derive(Debug, Clone, Copy, PartialEq, Eq, Structural, Default)]
pub struct ObjectId(pub u32);

/// An actor reference as the wire protocol writes it: id plus a kind byte.
#[derive(Debug, Clone, Copy, PartialEq, Eq, Structural, Default)]
pub struct ObjectTypeId {
    pub object_id: ObjectId,
    pub object_type: u8,
}

/// A spatial position. Coordinates are carried as raw 32-bit words
/// (IEEE-754 bit patterns on the wire); the session logic only stores and
/// forwards them, so no arithmetic is ever done on them here. The zero word
/// is the origin.
#[derive(Debug, Clone, Copy, PartialEq, Eq, Structural, Default)]
pub struct Position {
    pub x: u32,
    pub y: u32,
    pub z: u32,
}

/// Racial base attributes resolved from reference data.
#[derive(Debug, Clone, Copy, PartialEq, Eq, Structural, Default)]
pub struct Attributes {
    pub strength: u32,
    pub dexterity: u32,
    pub vitality: u32,
    pub intelligence: u32,
    pub mind: u32,
}

// ---------------------------------------------------------------------------
// Unlock bitmap addressing
// ---------------------------------------------------------------------------

/// The bit value an unlock id selects within its byte.
pub open spec fn flag_value_of(id: u32) -> u8 {
    1u8 << (id % 8)
}

/// The byte index an unlock id selects within its bitmap.
pub open spec fn flag_index_of(id: u32) -> u16 {
    (id / 8) as u16
}

/// Splits an unlock id into the bit value and byte index addressing it in
/// a bitmap.
pub fn value_to_flag_byte_index_value(id: u32) -> (r: (u8, u16))
    requires
        id < 524288,
    ensures
        r.0 == flag_value_of(id),
        r.1 == flag_index_of(id),
{
    let bit = id % 8;
    let value: u8 = match bit {
        0 => 1,
        1 => 2,
        2 => 4,
        3 => 8,
        4 => 16,
        5 => 32,
        6 => 64,
        _ => 128,
    };
    proof {
        let b = id % 8;
        assert(b < 8);
        assert(b == 0 ==> 1u8 << b == 1) by (bit_vector);
        assert(b == 1 ==> 1u8 << b == 2) by (bit_vector);
        assert(b == 2 ==> 1u8 << b == 4) by (bit_vector);
        assert(b == 3 ==> 1u8 << b == 8) by (bit_vector);
        assert(b == 4 ==> 1u8 << b == 16) by (bit_vector);
        assert(b == 5 ==> 1u8 << b == 32) by (bit_vector);
        assert(b == 6 ==> 1u8 << b == 64) by (bit_vector);
        assert(b == 7 ==> 1u8 << b == 128) by (bit_vector);
    }
    (value, (id / 8) as u16)
}

/// Recombining the byte index with the bit position recovers the id: the
/// split loses nothing.
pub proof fn lemma_flag_split_combine(id: u32)
    requires
        id < 524288,
    ensures
        flag_index_of(id) as u32 * 8 + (id % 8) == id,
        flag_value_of(id) == 1u8 << (id % 8),
{
}

/// Distinct bit positions give distinct bit values, so the pair (value,
/// index) determines the id.
pub proof fn lemma_flag_value_injective(id1: u32, id2: u32)
    requires
        id1 < 524288,
        id2 < 524288,
        flag_value_of(id1) == flag_value_of(id2),
        flag_index_of(id1) == flag_index_of(id2),
    ensures
        id1 == id2,
{
    let b1 = id1 % 8;
    let b2 = id2 % 8;
    assert(b1 < 8 && b2 < 8 && 1u8 << b1 == 1u8 << b2 ==> b1 == b2) by (bit_vector);
    assert(id1 == flag_index_of(id1) as u32 * 8 + b1);
    assert(id2 == flag_index_of(id2) as u32 * 8 + b2);
}

/// Setting a bit that was clear and then toggling it off restores the
/// original byte.
pub proof fn lemma_set_then_toggle(byte: u8, mask: u8)
    requires
        byte & mask == 0,
    ensures
        ((byte | mask) ^ mask) == byte,
{
    assert(byte & mask == 0 ==> ((byte | mask) ^ mask) == byte) by (bit_vector);
}

// ---------------------------------------------------------------------------
// Weather window computation
// ---------------------------------------------------------------------------

/// The deterministic pseudo-random weather window for a wall-clock time in
/// seconds: real time is converted to Eorzean time by the fixed factor of
/// 1440 real minutes to 70, bucketed to an eight-hour increment and a day
/// count, then mixed by left-shift-11-xor and right-shift-8-xor, modulo 100.
pub open spec fn weather_target(now_secs: u64) -> u32
    recommends
        now_secs < 4294967296,
{
    let unix = now_secs * 70 / 1440;
    let bell = unix / 175;
    let increment = (((bell + 8 - bell % 8) % 4294967296) as u32) % 24;
    let total_days = ((unix / 4200) % 4294967296) as u32;
    let calc_base = ((total_days * 100 + increment) % 4294967296) as u32;
    let step1 = (calc_base << 11u32) ^ calc_base;
    let step2 = (step1 >> 8u32) ^ step1;
    step2 % 100
}

/// Computes the weather window for a wall-clock time. Pure: equal inputs
/// give equal results.
pub fn calculate_target(now_secs: u64) -> (r: u32)
    requires
        now_secs < 4294967296,
    ensures
        r == weather_target(now_secs),
        r < 100,
{
    let unix = now_secs * 70 / 1440;
    let bell = unix / 175;
    let increment = (((bell + 8 - bell % 8) % 4294967296) as u32) % 24;
    let total_days = ((unix / 4200) % 4294967296) as u32;
    proof {
        assert(unix <= 208783132);
        assert(unix / 4200 <= 49711);
        assert(total_days * 100 + increment < 4294967296);
    }
    let calc_base = total_days * 100 + increment;
    assert(calc_base == (((total_days * 100 + increment) % 4294967296) as u32));
    let step1 = (calc_base << 11u32) ^ calc_base;
    let step2 = (step1 >> 8u32) ^ step1;
    step2 % 100
}

/// The first weather entry whose cumulative probability threshold exceeds
/// the target window; entries are (weather id, threshold) pairs.
pub open spec fn first_weather(rates: Seq<(i32, i32)>, target: i32) -> Option<i32>
    decreases rates.len(),
{
    if rates.len() == 0 {
        None
    } else if target < rates[0].1 {
        Some(rates[0].0)
    } else {
        first_weather(rates.subrange(1, rates.len() as int), target)
    }
}

/// Selects the weather for a target window from a zone's weather table.
pub fn select_weather(rates: &Vec<(i32, i32)>, target: i32) -> (r: Option<i32>)
    ensures
        r == first_weather(rates@, target),
{
    let n = rates.len();
    let mut i: usize = 0;
    assert(rates@.subrange(0, n as int) =~= rates@);
    while i < n
        invariant
            i <= n,
            n == rates@.len(),
            first_weather(rates@.subrange(i as int, n as int), target) == first_weather(
                rates@,
                target,
            ),
        decreases n - i,
    {
        let ghost t = rates@.subrange(i as int, n as int);
        let entry = rates[i];
        proof {
            assert(t[0] == rates@[i as int]);
            assert(t.subrange(1, t.len() as int) =~= rates@.subrange(i as int + 1, n as int));
        }
        if target < entry.1 {
            return Some(entry.0);
        }
        i = i + 1;
    }
    proof {
        assert(rates@.subrange(n as int, n as int) =~= Seq::<(i32, i32)>::empty());
    }
    None
}

/// Weather resolution is deterministic: two results computed for the same
/// table and the same timestamp are equal.
pub proof fn lemma_weather_deterministic(
    rates: Seq<(i32, i32)>,
    now_secs: u64,
    r1: Option<i32>,
    r2: Option<i32>,
)
    requires
        r1 == first_weather(rates, weather_target(now_secs) as i32),
        r2 == first_weather(rates, weather_target(now_secs) as i32),
    ensures
        r1 == r2,
{
}

} // verus!
