//! Linear-interpolation resampling between integer sample rates.

use vstd::prelude::*;

verus! {

/// Number of samples produced when `n` samples at `from` Hz are resampled to `to` Hz:
/// `floor(n / (from / to))`, which is `floor(n * to / from)`.
pub open spec fn resampled_len(n: nat, from: nat, to: nat) -> nat {
    if from == to {
        n
    } else {
        (n * to / from) as nat
    }
}

/// A sample moved into the unsigned range `[0, 65535]`.
pub open spec fn biased(x: i16) -> int {
    x as int + 32768
}

/// Output sample `i` of resampling `s` from `from` Hz to `to` Hz (`from != to`).
///
/// The source position is `i * from / to`, split into the whole index `lo` and the
/// fraction `frac / to`. The value interpolates between `s[lo]` and `s[hi]`, where
/// `hi = min(lo + 1, len - 1)`, and is rounded down.
pub open spec fn interpolated(s: Seq<i16>, from: nat, to: nat, i: int) -> int {
    let pos = i * from;
    let lo = pos / (to as int);
    let frac = pos % (to as int);
    let hi = if lo + 1 < s.len() { lo + 1 } else { s.len() - 1 };
    (biased(s[lo]) * (to - frac) + biased(s[hi]) * frac) / (to as int) - 32768
}

/// The whole result of resampling `s` from `from` Hz to `to` Hz.
pub open spec fn resampled(s: Seq<i16>, from: nat, to: nat) -> Seq<int> {
    if from == to {
        s.map_values(|x: i16| x as int)
    } else {
        Seq::new(resampled_len(s.len(), from, to), |i: int| interpolated(s, from, to, i))
    }
}

proof fn lemma_interpolation_bounds(a: int, b: int, to: int, frac: int)
    requires
        0 <= a <= 65535,
        0 <= b <= 65535,
        0 <= frac < to,
    ensures
        0 <= a * (to - frac) + b * frac <= 65535 * to,
        0 <= (a * (to - frac) + b * frac) / to <= 65535,
{
    assert(0 <= a * (to - frac)) by (nonlinear_arith)
        requires 0 <= a, 0 <= to - frac;
    assert(0 <= b * frac) by (nonlinear_arith)
        requires 0 <= b, 0 <= frac;
    assert(a * (to - frac) <= 65535 * (to - frac)) by (nonlinear_arith)
        requires a <= 65535, 0 <= to - frac;
    assert(b * frac <= 65535 * frac) by (nonlinear_arith)
        requires b <= 65535, 0 <= frac;
    let t = a * (to - frac) + b * frac;
    assert(t / to <= 65535) by (nonlinear_arith)
        requires 0 <= t <= 65535 * to, to > 0;
    assert(0 <= t / to) by (nonlinear_arith)
        requires 0 <= t, to > 0;
}

/// Resamples `samples` from `from_rate` Hz to `to_rate` Hz by linear interpolation.
///
/// Equal rates give a copy. Otherwise the result has `floor(len * to / from)`
/// samples, each interpolated between the two nearest source samples, the upper
/// one clamped to the last sample. No anti-aliasing filter is applied.
pub fn resample(samples: &Vec<i16>, from_rate: u32, to_rate: u32) -> (r: Vec<i16>)
    requires
        from_rate == to_rate || (from_rate > 0 && to_rate > 0),
        samples.len() * to_rate / (from_rate as int) <= usize::MAX || from_rate == to_rate,
    ensures
        r@.len() == resampled_len(samples@.len(), from_rate as nat, to_rate as nat),
        forall|i: int| 0 <= i < r@.len() ==> r@[i] as int == resampled(samples@, from_rate as nat, to_rate as nat)[i],
        from_rate == to_rate ==> r@ == samples@,
{
    if from_rate == to_rate {
        let r = samples.clone();
        assert(r@ =~= samples@);
        return r;
    }
    let n: usize = samples.len();
    let from: u128 = from_rate as u128;
    let to: u128 = to_rate as u128;
    proof {
        assert(n as int * to_rate <= usize::MAX * 0x1_0000_0000) by (nonlinear_arith)
            requires n <= usize::MAX, to_rate < 0x1_0000_0000;
    }
    let new_len: usize = ((n as u128) * to / from) as usize;
    let mut out: Vec<i16> = Vec::with_capacity(new_len);
    let mut i: usize = 0;
    while i < new_len
        invariant
            0 <= i <= new_len,
            new_len == resampled_len(n as nat, from_rate as nat, to_rate as nat),
            n == samples@.len(),
            from == from_rate as u128,
            to == to_rate as u128,
            from_rate != to_rate,
            from_rate > 0,
            to_rate > 0,
            out@.len() == i,
            forall|k: int| 0 <= k < i ==> out@[k] as int == interpolated(samples@, from_rate as nat, to_rate as nat, k),
        decreases new_len - i,
    {
        proof {
            assert(i as int * from_rate < n as int * to_rate) by (nonlinear_arith)
                requires
                    i < new_len,
                    new_len == (n as int * to_rate) / (from_rate as int),
                    from_rate > 0;
            assert(i as int * from_rate <= usize::MAX * 0x1_0000_0000) by (nonlinear_arith)
                requires i <= usize::MAX, from_rate < 0x1_0000_0000;
        }
        let pos: u128 = (i as u128) * from;
        let lo_wide: u128 = pos / to;
        let frac: u128 = pos % to;
        proof {
            assert(lo_wide < n) by (nonlinear_arith)
                requires
                    pos < n as int * to,
                    lo_wide == pos / to,
                    to > 0;
        }
        let lo: usize = lo_wide as usize;
        let hi: usize = if lo + 1 < n { lo + 1 } else { n - 1 };
        let a: u128 = (samples[lo] as i32 + 32768) as u128;
        let b: u128 = (samples[hi] as i32 + 32768) as u128;
        proof {
            lemma_interpolation_bounds(a as int, b as int, to as int, frac as int);
        }
        let mixed: u128 = (a * (to - frac) + b * frac) / to;
        let value: i16 = (mixed as i32 - 32768) as i16;
        out.push(value);
        i = i + 1;
    }
    proof {
        assert forall|k: int| 0 <= k < out@.len() implies out@[k] as int == resampled(samples@, from_rate as nat, to_rate as nat)[k] by {}
    }
    out
}

} // verus!
