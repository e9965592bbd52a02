//! The compression axis of the payload transform codec: either passthrough
//! or a run-length block compressor. Decompressing a compressed block is
//! proved to return exactly the original bytes; a malformed block is a
//! decode failure, which is fatal for the connection.

use vstd::prelude::*;

verus! {

/// Compression mode negotiated per outbound packet and reported in the
/// packet header so the peer can reverse it.
#[derive(Debug, Clone, Copy, PartialEq, Eq, Structural)]
pub enum CompressionType {
    Uncompressed,
    CompressedBlock,
}

/// Length of the run of `s[0]` at the head of `s`, uncapped.
pub open spec fn leading_run(s: Seq<u8>) -> nat
    decreases s.len(),
{
    if s.len() == 0 {
        0
    } else if s.len() >= 2 && s[1] == s[0] {
        1 + leading_run(s.subrange(1, s.len() as int))
    } else {
        1
    }
}

/// Length of the head run capped at the largest count one token can carry.
pub open spec fn capped_run(s: Seq<u8>) -> nat {
    if leading_run(s) > 255 {
        255
    } else {
        leading_run(s)
    }
}

/// The run-length encoding of a byte sequence: a list of (count, byte)
/// tokens, each count between 1 and 255.
pub open spec fn rle_encode(s: Seq<u8>) -> Seq<u8>
    decreases s.len(),
    via rle_encode_decreases
{
    if s.len() == 0 {
        Seq::empty()
    } else {
        seq![capped_run(s) as u8, s[0]] + rle_encode(s.subrange(capped_run(s) as int, s.len() as int))
    }
}

#[via_fn]
proof fn rle_encode_decreases(s: Seq<u8>) {
    if s.len() > 0 {
        lemma_leading_run_bounds(s);
    }
}

/// The decoding of a run-length token list; `None` on a malformed block
/// (a trailing half token or a zero count).
pub open spec fn rle_decode(s: Seq<u8>) -> Option<Seq<u8>>
    decreases s.len(),
{
    if s.len() == 0 {
        Some(Seq::empty())
    } else if s.len() == 1 || s[0] == 0 {
        None
    } else {
        match rle_decode(s.subrange(2, s.len() as int)) {
            Some(rest) => Some(Seq::new(s[0] as nat, |i: int| s[1]) + rest),
            None => None,
        }
    }
}

/// The head run is between 1 and the sequence length, and every byte in it
/// equals the first byte.
pub proof fn lemma_leading_run_bounds(s: Seq<u8>)
    requires
        s.len() > 0,
    ensures
        1 <= leading_run(s) <= s.len(),
        forall|k: int| 0 <= k < leading_run(s) ==> #[trigger] s[k] == s[0],
    decreases s.len(),
{
    if s.len() >= 2 && s[1] == s[0] {
        let t = s.subrange(1, s.len() as int);
        lemma_leading_run_bounds(t);
        assert forall|k: int| 0 <= k < leading_run(s) implies #[trigger] s[k] == s[0] by {
            if k > 0 {
                assert(t[k - 1] == t[0]);
                assert(s[k] == t[k - 1]);
            }
        }
    }
}

/// A prefix of equal bytes of length `m`, followed by a differing byte or
/// the end of the sequence, is exactly the head run.
pub proof fn lemma_leading_run_is(s: Seq<u8>, m: nat)
    requires
        1 <= m <= s.len(),
        forall|k: int| 0 <= k < m ==> #[trigger] s[k] == s[0],
        m < s.len() ==> s[m as int] != s[0],
    ensures
        leading_run(s) == m,
    decreases m,
{
    let t = s.subrange(1, s.len() as int);
    if m == 1 {
        if s.len() >= 2 {
            assert(s[1] != s[0]);
        }
    } else {
        assert(s[1] == s[0]);
        assert forall|k: int| 0 <= k < m - 1 implies #[trigger] t[k] == t[0] by {
            assert(t[k] == s[k + 1]);
        }
        if m < s.len() {
            assert(t[m - 1] == s[m as int]);
        }
        lemma_leading_run_is(t, (m - 1) as nat);
    }
}

/// A prefix of equal bytes of length `m` shows the head run is at least `m`.
pub proof fn lemma_leading_run_at_least(s: Seq<u8>, m: nat)
    requires
        m <= s.len(),
        forall|k: int| 0 <= k < m ==> #[trigger] s[k] == s[0],
    ensures
        leading_run(s) >= m,
    decreases m,
{
    if m >= 2 {
        let t = s.subrange(1, s.len() as int);
        assert forall|k: int| 0 <= k < m - 1 implies #[trigger] t[k] == t[0] by {
            assert(t[k] == s[k + 1]);
        }
        lemma_leading_run_at_least(t, (m - 1) as nat);
    }
}

/// Round trip: decoding an encoded sequence returns exactly that sequence.
pub proof fn lemma_rle_round_trip(s: Seq<u8>)
    ensures
        rle_decode(rle_encode(s)) == Some(s),
    decreases s.len(),
{
    if s.len() > 0 {
        lemma_leading_run_bounds(s);
        let r = capped_run(s) as int;
        let tail = s.subrange(r, s.len() as int);
        let enc = rle_encode(s);
        lemma_rle_round_trip(tail);
        assert(enc.subrange(2, enc.len() as int) =~= rle_encode(tail));
        assert(Seq::new(r as nat, |i: int| s[0]) + tail =~= s);
    }
}

/// An encoded block is at most twice as long as its input.
pub proof fn lemma_rle_len(s: Seq<u8>)
    ensures
        rle_encode(s).len() <= 2 * s.len(),
    decreases s.len(),
{
    if s.len() > 0 {
        lemma_leading_run_bounds(s);
        lemma_rle_len(s.subrange(capped_run(s) as int, s.len() as int));
    }
}

/// Compresses a byte buffer with the run-length scheme.
pub fn rle_compress(data: &Vec<u8>) -> (r: Vec<u8>)
    ensures
        r@ == rle_encode(data@),
{
    let n = data.len();
    let mut out: Vec<u8> = Vec::new();
    let mut i: usize = 0;
    assert(data@.subrange(0, n as int) =~= data@);
    while i < n
        invariant
            i <= n,
            n == data@.len(),
            out@ + rle_encode(data@.subrange(i as int, n as int)) == rle_encode(data@),
        decreases n - i,
    {
        let mut j: usize = i + 1;
        while j < n && j - i < 255 && data[j] == data[i]
            invariant
                i < j <= n,
                n == data@.len(),
                j - i <= 255,
                forall|k: int| i <= k < j ==> #[trigger] data@[k] == data@[i as int],
            decreases n - j,
        {
            j = j + 1;
        }
        let run = j - i;
        let ghost t = data@.subrange(i as int, n as int);
        proof {
            assert forall|k: int| 0 <= k < run implies #[trigger] t[k] == t[0] by {
                assert(t[k] == data@[i + k]);
            }
            if run < 255 {
                if j < n {
                    assert(t[run as int] == data@[j as int]);
                }
                lemma_leading_run_is(t, run as nat);
            } else {
                lemma_leading_run_at_least(t, 255);
            }
            assert(capped_run(t) == run);
            assert(rle_encode(t) == seq![run as u8, t[0]] + rle_encode(
                t.subrange(run as int, t.len() as int),
            ));
            assert(t.subrange(run as int, t.len() as int) =~= data@.subrange(j as int, n as int));
        }
        let ghost out_before = out@;
        out.push(run as u8);
        out.push(data[i]);
        proof {
            assert(out@ =~= out_before + seq![run as u8, t[0]]);
            assert(out@ + rle_encode(data@.subrange(j as int, n as int)) =~= out_before + (
            seq![run as u8, t[0]] + rle_encode(data@.subrange(j as int, n as int))));
            assert(out@ + rle_encode(data@.subrange(j as int, n as int)) == rle_encode(data@));
        }
        i = j;
    }
    assert(data@.subrange(n as int, n as int) =~= Seq::<u8>::empty());
    assert(out@ =~= rle_encode(data@));
    out
}

/// Decompresses a run-length block; `None` means the block is malformed
/// and the connection must be torn down.
pub fn rle_decompress(data: &Vec<u8>) -> (r: Option<Vec<u8>>)
    ensures
        match r {
            Some(v) => rle_decode(data@) == Some(v@),
            None => rle_decode(data@) is None,
        },
{
    let n = data.len();
    let mut out: Vec<u8> = Vec::new();
    let mut i: usize = 0;
    assert(data@.subrange(0, n as int) =~= data@);
    while i < n
        invariant
            i <= n,
            n == data@.len(),
            forall|rest: Seq<u8>|
                rle_decode(data@.subrange(i as int, n as int)) == Some(rest) ==> rle_decode(data@)
                    == Some(out@ + rest),
            rle_decode(data@.subrange(i as int, n as int)) is None ==> rle_decode(data@) is None,
        decreases n - i,
    {
        let ghost t = data@.subrange(i as int, n as int);
        if i + 1 >= n || data[i] == 0 {
            proof {
                assert(t.len() == 1 || t[0] == 0);
            }
            return None;
        }
        let count = data[i];
        let byte = data[i + 1];
        proof {
            assert(t[0] == count);
            assert(t[1] == byte);
            assert(t.subrange(2, t.len() as int) =~= data@.subrange(i as int + 2, n as int));
        }
        let ghost out0 = out@;
        let mut k: usize = 0;
        while k < count as usize
            invariant
                k <= count as usize,
                out@ == out0 + Seq::new(k as nat, |q: int| byte),
            decreases count as usize - k,
        {
            out.push(byte);
            assert(out@ =~= out0 + Seq::new((k + 1) as nat, |q: int| byte));
            k = k + 1;
        }
        proof {
            assert forall|rest: Seq<u8>|
                rle_decode(data@.subrange(i as int + 2, n as int)) == Some(rest) implies rle_decode(
                data@,
            ) == Some(out@ + rest) by {
                assert(rle_decode(t) == Some(Seq::new(count as nat, |q: int| byte) + rest));
                assert(out0 + (Seq::new(count as nat, |q: int| byte) + rest) =~= out@ + rest);
            }
        }
        i = i + 2;
    }
    proof {
        assert(data@.subrange(i as int, n as int) =~= Seq::<u8>::empty());
        assert(rle_decode(data@.subrange(i as int, n as int)) == Some(Seq::<u8>::empty()));
        assert(out@ + Seq::<u8>::empty() =~= out@);
    }
    Some(out)
}

} // verus!
