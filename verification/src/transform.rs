//! Payload obfuscation: a deterministic key schedule derived from three
//! per-zone seed values, and the reversible byte-level scrambler keyed by it.
//! Scrambling is applied to framed segment bytes before compression on the
//! send path, and reversed after decompression on the receive path.

use vstd::prelude::*;

use crate::bytes::u32_le;

verus! {

/// Number of key bytes the schedule derives from the three seeds.
pub const SCRAMBLER_KEY_LENGTH: usize = 16;

/// Header value reported in an `InitZone` segment when obfuscation is on.
pub const OBFUSCATION_ENABLED_MODE: u8 = 1;

/// One key byte of the schedule: the seed bytes mixed so that every key byte
/// depends on all three seeds and on its own position.
pub open spec fn key_byte(seed1: u8, seed2: u8, seed3: u32, i: int) -> u8 {
    (seed1 ^ u32_le(seed3)[i % 4]) ^ (((seed2 as int + i + 1) % 256) as u8)
}

/// The whole key schedule for a seed triple.
pub open spec fn key_schedule(seed1: u8, seed2: u8, seed3: u32) -> Seq<u8> {
    Seq::new(SCRAMBLER_KEY_LENGTH as nat, |i: int| key_byte(seed1, seed2, seed3, i))
}

/// Scrambling key material for one zone's lifetime, derived from the three
/// session seeds at zone entry and invalid after the next zone transition.
#[derive(Debug, Clone, PartialEq, Eq)]
pub struct ScramblerKeys {
    pub keys: Vec<u8>,
}

impl ScramblerKeys {
    pub open spec fn wf(&self) -> bool {
        self.keys@.len() == SCRAMBLER_KEY_LENGTH
    }
}

/// Derives the scrambling key material from the three seed values.
pub fn generate_keys(seed1: u8, seed2: u8, seed3: u32) -> (r: ScramblerKeys)
    ensures
        r.keys@ == key_schedule(seed1, seed2, seed3),
        r.wf(),
{
    let mut keys: Vec<u8> = Vec::new();
    let mut i: usize = 0;
    while i < SCRAMBLER_KEY_LENGTH
        invariant
            i <= SCRAMBLER_KEY_LENGTH,
            keys@.len() == i,
            forall|j: int| 0 <= j < i ==> keys@[j] == key_byte(seed1, seed2, seed3, j),
        decreases SCRAMBLER_KEY_LENGTH - i,
    {
        let seed3_byte: u8 = match i % 4 {
            0 => (seed3 % 256) as u8,
            1 => ((seed3 / 256) % 256) as u8,
            2 => ((seed3 / 65536) % 256) as u8,
            _ => (seed3 / 16777216) as u8,
        };
        assert(seed3_byte == u32_le(seed3)[i as int % 4]);
        let pos_mix: u8 = ((seed2 as usize + i + 1) % 256) as u8;
        keys.push((seed1 ^ seed3_byte) ^ pos_mix);
        i = i + 1;
    }
    assert(keys@ =~= key_schedule(seed1, seed2, seed3));
    ScramblerKeys { keys }
}

/// The scrambled form of a byte sequence under the given key material:
/// each byte is combined with the key byte at its position modulo the key
/// length. Applying it twice with the same keys restores the input.
pub open spec fn scramble(s: Seq<u8>, k: Seq<u8>) -> Seq<u8>
    recommends
        k.len() == SCRAMBLER_KEY_LENGTH,
{
    Seq::new(s.len(), |i: int| s[i] ^ k[i % (SCRAMBLER_KEY_LENGTH as int)])
}

/// Applies (or reverses) the scrambler over a byte buffer.
pub fn apply_scramble(data: &Vec<u8>, keys: &ScramblerKeys) -> (r: Vec<u8>)
    requires
        keys.wf(),
    ensures
        r@ == scramble(data@, keys.keys@),
{
    let n = data.len();
    let mut r: Vec<u8> = Vec::new();
    let mut i: usize = 0;
    while i < n
        invariant
            i <= n,
            n == data@.len(),
            keys.wf(),
            r@.len() == i,
            forall|j: int|
                0 <= j < i ==> r@[j] == (data@[j] ^ keys.keys@[j % (
                SCRAMBLER_KEY_LENGTH as int)]),
        decreases n - i,
    {
        r.push(data[i] ^ keys.keys[i % SCRAMBLER_KEY_LENGTH]);
        i = i + 1;
    }
    assert(r@ =~= scramble(data@, keys.keys@));
    r
}

/// Scrambling is an involution: de-scrambling scrambled bytes with the same
/// key material returns the original bytes.
pub proof fn lemma_scramble_involutive(s: Seq<u8>, k: Seq<u8>)
    requires
        k.len() == SCRAMBLER_KEY_LENGTH,
    ensures
        scramble(scramble(s, k), k) == s,
{
    let t = scramble(scramble(s, k), k);
    assert forall|i: int| 0 <= i < s.len() implies t[i] == s[i] by {
        let kb = k[i % (SCRAMBLER_KEY_LENGTH as int)];
        let x = s[i];
        assert((x ^ kb) ^ kb == x) by (bit_vector);
    }
    assert(t =~= s);
}

/// The bitwise complement of an eight-bit seed, as transmitted on the wire.
pub open spec fn seed8_wire(s: u8) -> u8 {
    !s
}

/// The bitwise complement of a 32-bit seed, as transmitted on the wire.
pub open spec fn seed32_wire(s: u32) -> u32 {
    !s
}

/// Complementing a transmitted eight-bit seed recovers the local seed.
pub proof fn lemma_seed8_wire_involutive(s: u8)
    ensures
        seed8_wire(seed8_wire(s)) == s,
{
    assert(!(!s) == s) by (bit_vector);
}

/// Complementing a transmitted 32-bit seed recovers the local seed.
pub proof fn lemma_seed32_wire_involutive(s: u32)
    ensures
        seed32_wire(seed32_wire(s)) == s,
{
    assert(!(!s) == s) by (bit_vector);
}

} // verus!
