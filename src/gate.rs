//! Downmixing of interleaved frames to mono, and the RMS energy gate that tells
//! speech from near-silence.

use vstd::prelude::*;

verus! {

/// The PCM value that stands for a normalized amplitude of 1.0.
pub const FULL_SCALE: u64 = 32767;

/// The silence threshold as a fraction of full scale: RMS above `1 / 100` of
/// full scale (0.01 on a `[-1, 1]` signal) counts as speech.
pub const THRESHOLD_DIVISOR: u64 = 100;

/// Sum of the squares of the samples.
pub open spec fn sum_squares(s: Seq<i16>) -> nat
    decreases s.len(),
{
    if s.len() == 0 {
        0
    } else {
        sum_squares(s.drop_last()) + (s.last() as int * s.last() as int) as nat
    }
}

/// `sqrt(sum_squares(s) / len) / FULL_SCALE > 1 / THRESHOLD_DIVISOR`, with both sides
/// squared and multiplied out so that it is exact on integers. An empty segment has
/// no energy.
pub open spec fn exceeds_threshold(s: Seq<i16>) -> bool {
    sum_squares(s) * (THRESHOLD_DIVISOR * THRESHOLD_DIVISOR)
        > s.len() * (FULL_SCALE * FULL_SCALE)
}

proof fn lemma_sum_squares_bound(s: Seq<i16>)
    ensures
        sum_squares(s) <= s.len() * 0x4000_0000,
    decreases s.len(),
{
    if s.len() > 0 {
        lemma_sum_squares_bound(s.drop_last());
        let x = s.last() as int;
        assert(0 <= x * x <= 0x4000_0000) by (nonlinear_arith)
            requires -32768 <= x <= 32767;
        assert(sum_squares(s) == sum_squares(s.drop_last()) + x * x);
        assert(s.len() * 0x4000_0000 == (s.len() - 1) * 0x4000_0000 + 0x4000_0000) by (nonlinear_arith)
            requires s.len() > 0;
    }
}

/// Whether the RMS energy of `samples` is above the silence threshold.
pub fn is_speech(samples: &Vec<i16>) -> (r: bool)
    ensures
        r == exceeds_threshold(samples@),
{
    let mut total: u128 = 0;
    let mut i: usize = 0;
    while i < samples.len()
        invariant
            0 <= i <= samples@.len(),
            total == sum_squares(samples@.subrange(0, i as int)),
            total <= i * 0x4000_0000,
        decreases samples@.len() - i,
    {
        let x: i64 = samples[i] as i64;
        proof {
            assert(samples@.subrange(0, i + 1).drop_last() =~= samples@.subrange(0, i as int));
            assert(0 <= x * x <= 0x4000_0000) by (nonlinear_arith)
                requires -32768 <= x <= 32767;
            assert((i + 1) * 0x4000_0000 == i * 0x4000_0000 + 0x4000_0000) by (nonlinear_arith);
            assert(i * 0x4000_0000 <= usize::MAX * 0x4000_0000) by (nonlinear_arith)
                requires i <= usize::MAX;
        }
        total = total + (x * x) as u128;
        i = i + 1;
    }
    assert(samples@.subrange(0, samples@.len() as int) =~= samples@);
    proof {
        assert(total * 10000 <= usize::MAX * 0x4000_0000 * 10000) by (nonlinear_arith)
            requires total <= samples@.len() * 0x4000_0000, samples@.len() <= usize::MAX;
    }
    let n: u128 = samples.len() as u128;
    let threshold_sq: u128 = (THRESHOLD_DIVISOR * THRESHOLD_DIVISOR) as u128;
    let full_sq: u128 = (FULL_SCALE * FULL_SCALE) as u128;
    proof {
        assert(n * full_sq <= usize::MAX * 0x4000_0000) by (nonlinear_arith)
            requires n <= usize::MAX, full_sq <= 0x4000_0000;
    }
    total * threshold_sq > n * full_sq
}

/// The floor of the average of two samples.
pub open spec fn average(a: i16, b: i16) -> int {
    (a as int + b as int + 65536) / 2 - 32768
}

/// Interleaved frames of `channels` channels reduced to one channel: mono is kept,
/// stereo averages each complete pair (a trailing half frame is dropped), and more
/// than two channels keep the first channel of each frame, a trailing partial frame
/// included.
pub open spec fn downmixed(data: Seq<i16>, channels: nat) -> Seq<i16> {
    if channels == 1 {
        data
    } else if channels == 2 {
        Seq::new(data.len() / 2, |i: int| average(data[2 * i], data[2 * i + 1]) as i16)
    } else {
        Seq::new(((data.len() + channels - 1) / (channels as int)) as nat, |i: int| data[i * channels])
    }
}

/// Appends the mono downmix of the interleaved frames `data` to `out`.
pub fn downmix_into(out: &mut Vec<i16>, data: &Vec<i16>, channels: u16)
    requires
        channels > 0,
    ensures
        final(out)@ == old(out)@ + downmixed(data@, channels as nat),
{
    let ghost start = out@.len();
    let ghost want = downmixed(data@, channels as nat);
    let n: usize = data.len();
    let c: usize = channels as usize;
    proof {
        if n > 0 && c > 1 {
            assert(n / c < n) by (nonlinear_arith)
                requires c > 1, n > 0;
        }
    }
    let frames: usize = if c == 1 { n } else if c == 2 { n / 2 } else { n / c + if n % c == 0 { 0 } else { 1 } };
    proof {
        if c > 2 {
            let ni = n as int;
            let ci = c as int;
            assert((ni + ci - 1) / ci == ni / ci + if ni % ci == 0 { 0int } else { 1 }) by (nonlinear_arith)
                requires ci > 0, ni >= 0;
        }
    }
    proof {
        if c == 1 {
            assert(frames == n);
        } else if c == 2 {
            assert(frames == n / 2);
        } else {
            assert(frames as int == (n as int + c as int - 1) / (c as int));
        }
        assert(frames == want.len());
    }
    let mut f: usize = 0;
    while f < frames
        invariant
            0 <= f <= frames,
            frames == want.len(),
            c > 2 ==> frames as int == n as int / c as int + if n as int % c as int == 0 { 0int } else { 1 },
            want == downmixed(data@, channels as nat),
            n == data@.len(),
            c == channels,
            c > 0,
            out@.len() == start + f,
            start == old(out)@.len(),
            forall|k: int| 0 <= k < start ==> out@[k] == old(out)@[k],
            forall|k: int| 0 <= k < f ==> out@[start + k] == want[k],
        decreases frames - f,
    {
        let value: i16 = if c == 1 {
            data[f]
        } else if c == 2 {
            proof {
                assert(2 * f + 1 < n);
            }
            let a: i32 = data[2 * f] as i32;
            let b: i32 = data[2 * f + 1] as i32;
            ((a + b + 65536) / 2 - 32768) as i16
        } else {
            proof {
                let (fi, ni, ci) = (f as int, n as int, c as int);
                assert(ni == ci * (ni / ci) + ni % ci) by (nonlinear_arith)
                    requires ci > 0;
                if ni % ci == 0 {
                    assert(fi * ci < ni) by (nonlinear_arith)
                        requires fi < ni / ci, ni == ci * (ni / ci), ci > 0, fi >= 0;
                } else {
                    assert(fi * ci < ni) by (nonlinear_arith)
                        requires fi <= ni / ci, ni == ci * (ni / ci) + ni % ci, ni % ci > 0, ci > 0, fi >= 0;
                }
            }
            data[f * c]
        };
        out.push(value);
        f = f + 1;
    }
    assert(out@ =~= old(out)@ + want);
}

} // verus!
