//! Properties of the pipeline that relate several operations or hold for all
//! inputs, stated over the spec functions that the operations' contracts use.

use vstd::prelude::*;
use crate::device::StreamChoice;
use crate::error::VoiceError;
use crate::gate::{exceeds_threshold, sum_squares};
use crate::resample::{resampled, resampled_len};
use crate::router::{route_of, RemoteProvider, Route, WhisperConfig, MIN_PLACEHOLDER_SAMPLES};
use crate::session::{start_spec, stop_spec, SessionView, StartOutcome};
use crate::wav::{lemma_wav_file_len, wav_file, wav_header, WAV_HEADER_LEN};

verus! {

/// Resampling between equal rates returns the samples unchanged.
pub proof fn resample_same_rate_is_identity(s: Seq<i16>, rate: nat)
    ensures
        resampled_len(s.len(), rate, rate) == s.len(),
        resampled(s, rate, rate) == s.map_values(|x: i16| x as int),
{
}

/// Resampling from 48000 Hz to 16000 Hz keeps one sample in three, rounded down.
pub proof fn resample_48k_to_16k_len(n: nat)
    ensures
        resampled_len(n, 48000, 16000) == n / 3,
{
    assert(n * 16000 / 48000 == n / 3) by (nonlinear_arith);
}

/// A WAV file of `k` samples is the header plus two bytes per sample; with no
/// samples it is exactly the header.
pub proof fn wav_size(s: Seq<i16>, rate: nat)
    ensures
        wav_file(s, rate).len() == WAV_HEADER_LEN + 2 * s.len(),
        s.len() == 0 ==> wav_file(s, rate) == wav_header(rate, 0),
{
    lemma_wav_file_len(s, rate);
    if s.len() == 0 {
        assert(wav_file(s, rate) =~= wav_header(rate, 0));
    }
}

proof fn lemma_zero_sum_squares(s: Seq<i16>)
    requires
        forall|i: int| 0 <= i < s.len() ==> s[i] == 0,
    ensures
        sum_squares(s) == 0,
    decreases s.len(),
{
    if s.len() > 0 {
        lemma_zero_sum_squares(s.drop_last());
    }
}

/// A segment of zeros, of any length, is silence: it is never dispatched.
pub proof fn zero_segment_is_silence(s: Seq<i16>)
    requires
        forall|i: int| 0 <= i < s.len() ==> s[i] == 0,
    ensures
        !exceeds_threshold(s),
{
    lemma_zero_sum_squares(s);
}

/// A start request while capturing changes nothing and succeeds, and so does the
/// next one.
pub proof fn start_while_capturing_is_noop(
    v: SessionView,
    first: Result<StreamChoice, VoiceError>,
    second: Result<StreamChoice, VoiceError>,
)
    requires
        v.wf(),
        v.capturing,
    ensures
        start_spec(v, first) == (v, Ok::<StartOutcome, VoiceError>(StartOutcome::AlreadyCapturing)),
        start_spec(start_spec(v, first).0, second)
            == (v, Ok::<StartOutcome, VoiceError>(StartOutcome::AlreadyCapturing)),
{
}

/// Once a start has succeeded, a second start changes nothing and succeeds.
pub proof fn start_twice_is_start_once(
    v: SessionView,
    first: Result<StreamChoice, VoiceError>,
    second: Result<StreamChoice, VoiceError>,
)
    requires
        v.wf(),
        start_spec(v, first).1 is Ok,
    ensures
        start_spec(start_spec(v, first).0, second)
            == (start_spec(v, first).0, Ok::<StartOutcome, VoiceError>(StartOutcome::AlreadyCapturing)),
{
}

/// Stopping a stopped session changes nothing; stopping twice is stopping once.
pub proof fn stop_is_idempotent(v: SessionView)
    requires
        v.wf(),
    ensures
        !v.capturing ==> stop_spec(v) == v,
        stop_spec(stop_spec(v)) == stop_spec(v),
{
    if !v.capturing {
        assert(v.samples =~= Seq::<i16>::empty());
        assert(stop_spec(v) =~= v);
    }
}

/// With the fast provider selected but no credential for it, a credential of the
/// default provider routes the segment there (the local engine being off).
pub proof fn fast_provider_falls_back_to_default(c: WhisperConfig, n16: nat)
    requires
        !(c.use_local && c.model_path is Some),
        c.provider@ == "groq"@,
        c.groq_api_key is None,
        c.api_key is Some,
    ensures
        route_of(c, n16) == Route::Remote(RemoteProvider::OpenAi),
{
}

/// With no backend configured, a segment longer than half a second at 16000 Hz
/// yields a placeholder and a shorter one yields nothing.
pub proof fn placeholder_only_for_audible_segments(c: WhisperConfig, n16: nat)
    requires
        !(c.use_local && c.model_path is Some),
        c.api_key is None,
        c.groq_api_key is None,
    ensures
        n16 > MIN_PLACEHOLDER_SAMPLES ==> route_of(c, n16) == Route::Placeholder,
        n16 <= MIN_PLACEHOLDER_SAMPLES ==> route_of(c, n16) == Route::Nothing,
{
}

} // verus!
