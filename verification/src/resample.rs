//! Rate conversion by nearest-lower-index selection. This is a documented,
//! deliberately low-fidelity strategy (no band-limited interpolation): it is
//! a placeholder quality tier whose exact behaviour is part of the contract,
//! so a higher-quality filter can replace it without changing callers.

use vstd::prelude::*;
use vstd::arithmetic::div_mod::{
    lemma_div_is_ordered, lemma_div_multiples_vanish, lemma_fundamental_div_mod,
    lemma_fundamental_div_mod_converse, lemma_mod_bound,
};

verus! {

/// The index of the source sample selected for output index `i` when
/// converting from rate `src` to rate `dst`: the nearest lower source
/// position, `floor(i * src / dst)`.
pub open spec fn source_index(i: int, src: int, dst: int) -> int {
    i * src / dst
}

/// The number of output samples produced for `len` input samples:
/// `floor(len * dst / src)`, the input length scaled by the rate ratio.
pub open spec fn target_len(len: int, src: int, dst: int) -> int {
    len * dst / src
}

/// The sample sequence produced by converting `s` from rate `src` to rate
/// `dst`. Equal rates return the input unchanged; otherwise each output
/// index selects its nearest lower source sample.
pub open spec fn resampled(s: Seq<i16>, src: int, dst: int) -> Seq<i16> {
    if src == dst {
        s
    } else {
        Seq::new(target_len(s.len() as int, src, dst) as nat, |i: int| s[source_index(i, src, dst)])
    }
}

/// A product of two nonnegative factors grows with each factor.
proof fn lemma_mul_le(a: int, b: int, am: int, bm: int)
    requires
        0 <= a <= am,
        0 <= b <= bm,
    ensures
        a * b <= am * bm,
{
    assert(a * b <= am * bm) by (nonlinear_arith)
        requires 0 <= a <= am && 0 <= b <= bm;
}

/// Every selected source index is in bounds: for `i` below the target
/// length, `floor(i * src / dst)` falls short of `len`. (The naive strategy
/// therefore never reads past the input's tail.)
proof fn lemma_source_index_in_bounds(len: int, src: int, dst: int, i: int)
    requires
        1 <= src,
        1 <= dst,
        0 <= len,
        0 <= i < target_len(len, src, dst),
    ensures
        0 <= source_index(i, src, dst) < len,
{
    assert(0 <= i * src) by (nonlinear_arith)
        requires 0 <= i && 1 <= src;
    assert(0 <= i * src / dst) by {
        lemma_div_is_ordered(0, i * src, dst);
    }
    let q = len * dst / src;
    let rm = len * dst % src;
    lemma_fundamental_div_mod(len * dst, src);
    lemma_mod_bound(len * dst, src);
    // From i < len * dst / src, multiplying out gives i * src < len * dst.
    assert(i * src < len * dst) by (nonlinear_arith)
        requires
            1 <= src,
            i < q,
            len * dst == src * q + rm,
            0 <= rm,
    {
    }
    // i * src <= len * dst - 1, so its quotient by dst is at most
    // (len * dst - 1) / dst == len - 1.
    assert(i * src / dst <= (len * dst - 1) / dst) by {
        lemma_div_is_ordered(i * src, len * dst - 1, dst);
    }
    assert(len * dst - 1 == (len - 1) * dst + (dst - 1)) by (nonlinear_arith);
    assert((len * dst - 1) / dst == len - 1) by {
        lemma_fundamental_div_mod_converse(len * dst - 1, dst, len - 1, dst - 1);
    }
}

/// Converts `input` from `src_rate` to `dst_rate` by nearest-lower-index
/// selection. Equal rates yield an equivalent copy of the input.
pub fn resample(input: &Vec<i16>, src_rate: u32, dst_rate: u32) -> (out: Vec<i16>)
    requires
        1 <= src_rate,
        1 <= dst_rate,
        target_len(input@.len() as int, src_rate as int, dst_rate as int) <= usize::MAX,
    ensures
        out@ == resampled(input@, src_rate as int, dst_rate as int),
{
    let ghost src: int = src_rate as int;
    let ghost dst: int = dst_rate as int;
    if src_rate == dst_rate {
        let out = input.clone();
        assert(out@ =~= resampled(input@, src, dst));
        return out;
    }
    let len: usize = input.len();
    // 128-bit arithmetic keeps every intermediate product exact: the largest
    // is len * dst_rate, well under 2^96.
    proof {
        lemma_mul_le(len as int, dst_rate as int, 0xFFFF_FFFF_FFFF_FFFF, 0xFFFF_FFFF);
    }
    let n_wide: u128 = len as u128 * dst_rate as u128 / src_rate as u128;
    assert(n_wide == target_len(len as int, src, dst)) by {
        assert(len as u128 * dst_rate as u128 == len * dst_rate) by (nonlinear_arith);
    }
    let n: usize = n_wide as usize;
    let mut out: Vec<i16> = Vec::new();
    let mut i: usize = 0;
    while i < n
        invariant
            n == target_len(input@.len() as int, src, dst),
            n <= usize::MAX,
            0 <= i <= n,
            src != dst,
            1 <= src_rate,
            1 <= dst_rate,
            src == src_rate as int,
            dst == dst_rate as int,
            len == input@.len(),
            out@ == resampled(input@, src, dst).take(i as int),
        decreases n - i,
    {
        proof {
            lemma_mul_le(i as int, src_rate as int, 0xFFFF_FFFF_FFFF_FFFF, 0xFFFF_FFFF);
        }
        let idx_wide: u128 = i as u128 * src_rate as u128 / dst_rate as u128;
        assert(idx_wide == source_index(i as int, src, dst)) by {
            assert(i as u128 * src_rate as u128 == i * src_rate) by (nonlinear_arith);
        }
        proof {
            lemma_source_index_in_bounds(len as int, src, dst, i as int);
        }
        let idx: usize = idx_wide as usize;
        out.push(input[idx]);
        proof {
            assert(out@ =~= resampled(input@, src, dst).take(i + 1));
        }
        i = i + 1;
    }
    assert(out@ =~= resampled(input@, src, dst));
    out
}

/// Resampling at equal rates is the identity: for every sample sequence `s`
/// and rate `r`, converting from `r` to `r` returns `s` itself.
pub proof fn lemma_resample_identity(s: Seq<i16>, r: int)
    ensures
        resampled(s, r, r) == s,
{
}

/// The output of resampling is never longer than the input length scaled by
/// the rate ratio, rounded up: `len(resampled(s, src, dst))` is at most
/// `ceil(len(s) * dst / src)` (and a length is never negative).
pub proof fn lemma_resample_len(s: Seq<i16>, src: int, dst: int)
    requires
        1 <= src,
        1 <= dst,
    ensures
        resampled(s, src, dst).len() <= (s.len() * dst + src - 1) / src,
{
    if src == dst {
        assert(s.len() * dst / src == s.len()) by {
            lemma_div_multiples_vanish(s.len() as int, src);
        }
        assert(s.len() <= (s.len() * src + src - 1) / src) by {
            lemma_div_is_ordered(s.len() * src, s.len() * src + src - 1, src);
            lemma_div_multiples_vanish(s.len() as int, src);
        }
    } else {
        assert(s.len() * dst / src <= (s.len() * dst + src - 1) / src) by {
            lemma_div_is_ordered(s.len() * dst, s.len() * dst + src - 1, src);
        }
    }
}

} // verus!
