//! Little-endian byte-level primitives shared by the frame codec and the
//! typed command encoders: spec-level encodings, executable writers and
//! readers, and the round-trip lemmas the codec proofs build on.

use vstd::prelude::*;

verus! {

// ---------------------------------------------------------------------------
// Spec-level encodings
// ---------------------------------------------------------------------------

/// The two little-endian bytes of a 16-bit value.
pub open spec fn u16_le(x: u16) -> Seq<u8> {
    seq![(x % 256) as u8, (x / 256) as u8]
}

/// The four little-endian bytes of a 32-bit value.
pub open spec fn u32_le(x: u32) -> Seq<u8> {
    seq![
        (x % 256) as u8,
        ((x / 256) % 256) as u8,
        ((x / 65536) % 256) as u8,
        (x / 16777216) as u8,
    ]
}

/// The eight little-endian bytes of a 64-bit value.
pub open spec fn u64_le(x: u64) -> Seq<u8> {
    u32_le((x % 4294967296) as u32) + u32_le((x / 4294967296) as u32)
}

/// The 16-bit value read little-endian from a two-byte sequence.
pub open spec fn u16_from_le(b: Seq<u8>) -> u16
    recommends
        b.len() == 2,
{
    (b[0] as int + b[1] as int * 256) as u16
}

/// The 32-bit value read little-endian from a four-byte sequence.
pub open spec fn u32_from_le(b: Seq<u8>) -> u32
    recommends
        b.len() == 4,
{
    (b[0] as int + b[1] as int * 256 + b[2] as int * 65536 + b[3] as int * 16777216) as u32
}

/// The 64-bit value read little-endian from an eight-byte sequence.
pub open spec fn u64_from_le(b: Seq<u8>) -> u64
    recommends
        b.len() == 8,
{
    (u32_from_le(b.subrange(0, 4)) as int
        + u32_from_le(b.subrange(4, 8)) as int * 4294967296) as u64
}

// ---------------------------------------------------------------------------
// Round-trip lemmas
// ---------------------------------------------------------------------------

pub proof fn lemma_u16_round_trip(x: u16)
    ensures
        u16_from_le(u16_le(x)) == x,
{
}

pub proof fn lemma_u32_round_trip(x: u32)
    ensures
        u32_from_le(u32_le(x)) == x,
{
}

pub proof fn lemma_u64_round_trip(x: u64)
    ensures
        u64_from_le(u64_le(x)) == x,
{
    let lo = (x % 4294967296) as u32;
    let hi = (x / 4294967296) as u32;
    assert(u64_le(x).subrange(0, 4) =~= u32_le(lo));
    assert(u64_le(x).subrange(4, 8) =~= u32_le(hi));
    lemma_u32_round_trip(lo);
    lemma_u32_round_trip(hi);
}

// ---------------------------------------------------------------------------
// Executable writers
// ---------------------------------------------------------------------------

pub fn put_u8(out: &mut Vec<u8>, x: u8)
    ensures
        final(out)@ == old(out)@.push(x),
{
    out.push(x);
}

pub fn put_u16(out: &mut Vec<u8>, x: u16)
    ensures
        final(out)@ == old(out)@ + u16_le(x),
{
    out.push((x % 256) as u8);
    out.push((x / 256) as u8);
    assert(out@ =~= old(out)@ + u16_le(x));
}

pub fn put_u32(out: &mut Vec<u8>, x: u32)
    ensures
        final(out)@ == old(out)@ + u32_le(x),
{
    out.push((x % 256) as u8);
    out.push(((x / 256) % 256) as u8);
    out.push(((x / 65536) % 256) as u8);
    out.push((x / 16777216) as u8);
    assert(out@ =~= old(out)@ + u32_le(x));
}

pub fn put_u64(out: &mut Vec<u8>, x: u64)
    ensures
        final(out)@ == old(out)@ + u64_le(x),
{
    put_u32(out, (x % 4294967296) as u32);
    put_u32(out, (x / 4294967296) as u32);
    assert(out@ =~= old(out)@ + u64_le(x));
}

/// Appends `n` zero bytes, as layout padding.
pub fn put_zeros(out: &mut Vec<u8>, n: usize)
    ensures
        final(out)@ == old(out)@ + zeros(n as nat),
{
    let mut i: usize = 0;
    while i < n
        invariant
            i <= n,
            out@ == old(out)@ + zeros(i as nat),
        decreases n - i,
    {
        out.push(0);
        assert(out@ =~= old(out)@ + zeros((i + 1) as nat));
        i = i + 1;
    }
}

/// A sequence of `n` zero bytes.
pub open spec fn zeros(n: nat) -> Seq<u8> {
    Seq::new(n, |i: int| 0u8)
}

/// Appends a whole byte sequence.
pub fn put_bytes(out: &mut Vec<u8>, b: &Vec<u8>)
    ensures
        final(out)@ == old(out)@ + b@,
{
    let mut i: usize = 0;
    while i < b.len()
        invariant
            i <= b@.len(),
            out@ == old(out)@ + b@.subrange(0, i as int),
        decreases b@.len() - i,
    {
        out.push(b[i]);
        assert(out@ =~= old(out)@ + b@.subrange(0, i as int + 1));
        i = i + 1;
    }
    assert(out@ =~= old(out)@ + b@);
}

// ---------------------------------------------------------------------------
// Executable readers
// ---------------------------------------------------------------------------

pub fn get_u8(b: &Vec<u8>, i: usize) -> (r: u8)
    requires
        i < b@.len(),
    ensures
        r == b@[i as int],
{
    b[i]
}

pub fn get_u16(b: &Vec<u8>, i: usize) -> (r: u16)
    requires
        i + 2 <= b@.len(),
    ensures
        r == u16_from_le(b@.subrange(i as int, i as int + 2)),
{
    let n = b.len();
    let r = b[i] as u16 + b[i + 1] as u16 * 256;
    assert(b@.subrange(i as int, i as int + 2)[0] == b@[i as int]);
    assert(b@.subrange(i as int, i as int + 2)[1] == b@[i as int + 1]);
    r
}

pub fn get_u32(b: &Vec<u8>, i: usize) -> (r: u32)
    requires
        i + 4 <= b@.len(),
    ensures
        r == u32_from_le(b@.subrange(i as int, i as int + 4)),
{
    let n = b.len();
    let r = b[i] as u32 + b[i + 1] as u32 * 256 + b[i + 2] as u32 * 65536 + b[i + 3] as u32
        * 16777216;
    assert(b@.subrange(i as int, i as int + 4)[0] == b@[i as int]);
    assert(b@.subrange(i as int, i as int + 4)[1] == b@[i as int + 1]);
    assert(b@.subrange(i as int, i as int + 4)[2] == b@[i as int + 2]);
    assert(b@.subrange(i as int, i as int + 4)[3] == b@[i as int + 3]);
    r
}

pub fn get_u64(b: &Vec<u8>, i: usize) -> (r: u64)
    requires
        i + 8 <= b@.len(),
    ensures
        r == u64_from_le(b@.subrange(i as int, i as int + 8)),
{
    let n = b.len();
    let lo = get_u32(b, i);
    let hi = get_u32(b, i + 4);
    let r = lo as u64 + hi as u64 * 4294967296;
    assert(b@.subrange(i as int, i as int + 8).subrange(0, 4) =~= b@.subrange(
        i as int,
        i as int + 4,
    ));
    assert(b@.subrange(i as int, i as int + 8).subrange(4, 8) =~= b@.subrange(
        i as int + 4,
        i as int + 8,
    ));
    r
}

/// Copies `b[i .. i + n]` out as a fresh vector.
pub fn get_bytes(b: &Vec<u8>, i: usize, n: usize) -> (r: Vec<u8>)
    requires
        i + n <= b@.len(),
    ensures
        r@ == b@.subrange(i as int, i as int + n as int),
{
    let len = b.len();
    let mut r: Vec<u8> = Vec::new();
    let mut j: usize = 0;
    while j < n
        invariant
            j <= n,
            i + n <= b@.len(),
            b@.len() == len,
            r@ == b@.subrange(i as int, i as int + j as int),
        decreases n - j,
    {
        r.push(b[i + j]);
        assert(r@ =~= b@.subrange(i as int, i as int + j as int + 1));
        j = j + 1;
    }
    r
}

// ---------------------------------------------------------------------------
// Concatenation helpers used by the codec proofs
// ---------------------------------------------------------------------------

/// Splitting a concatenation at the boundary returns the parts.
pub proof fn lemma_concat_split(a: Seq<u8>, b: Seq<u8>)
    ensures
        (a + b).subrange(0, a.len() as int) == a,
        (a + b).subrange(a.len() as int, (a + b).len() as int) == b,
{
    assert((a + b).subrange(0, a.len() as int) =~= a);
    assert((a + b).subrange(a.len() as int, (a + b).len() as int) =~= b);
}

/// A subrange taken inside the left part of a concatenation reads the left part.
pub proof fn lemma_concat_subrange_left(a: Seq<u8>, b: Seq<u8>, lo: int, hi: int)
    requires
        0 <= lo <= hi <= a.len(),
    ensures
        (a + b).subrange(lo, hi) == a.subrange(lo, hi),
{
    assert((a + b).subrange(lo, hi) =~= a.subrange(lo, hi));
}

} // verus!
