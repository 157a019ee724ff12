//! Transcription routing: which backend a segment goes to, with the payload it
//! needs, and what the caller is told afterwards.

use vstd::prelude::*;
use vstd::string::StringExecFns;
use crate::error::VoiceError;
use crate::resample::{resample, resampled, resampled_len};
use crate::wav::{samples_to_wav, wav_encodable, wav_file};

verus! {

/// The rate the transcription engines take natively.
pub const ENGINE_RATE: u32 = 16000;

/// Segments up to this many samples at `ENGINE_RATE` (half a second) are too
/// short to be worth a placeholder.
pub const MIN_PLACEHOLDER_SAMPLES: usize = 8000;

/// Transcription settings.
pub struct WhisperConfig {
    /// Credential of the default remote provider.
    pub api_key: Option<String>,
    /// Whether the local engine should be used when a model path is set.
    pub use_local: bool,
    pub model_path: Option<String>,
    /// The selected remote provider: `"openai"` or `"groq"`.
    pub provider: String,
    /// The model identifier handed to the fast provider.
    pub model: String,
    /// Credential of the fast provider.
    pub groq_api_key: Option<String>,
}

impl WhisperConfig {
    /// Settings with no credential, no local engine, the default provider and its model.
    pub fn new() -> (r: WhisperConfig)
        ensures
            r.api_key is None,
            !r.use_local,
            r.model_path is None,
            r.provider@ == "openai"@,
            r.model@ == "whisper-1"@,
            r.groq_api_key is None,
    {
        WhisperConfig {
            api_key: None,
            use_local: false,
            model_path: None,
            provider: String::from_str("openai"),
            model: String::from_str("whisper-1"),
            groq_api_key: None,
        }
    }
}

/// The two remote providers.
#[derive(Clone, Copy, Debug, PartialEq, Eq)]
pub enum RemoteProvider {
    /// The default provider.
    OpenAi,
    /// The fast alternative, selected by the provider name `"groq"`.
    Groq,
}

impl RemoteProvider {
    /// The provider's transcription endpoint.
    pub fn endpoint(&self) -> (r: &'static str)
        ensures
            r@ == match self {
                RemoteProvider::OpenAi => "https://api.openai.com/v1/audio/transcriptions"@,
                RemoteProvider::Groq => "https://api.groq.com/openai/v1/audio/transcriptions"@,
            },
    {
        match self {
            RemoteProvider::OpenAi => "https://api.openai.com/v1/audio/transcriptions",
            RemoteProvider::Groq => "https://api.groq.com/openai/v1/audio/transcriptions",
        }
    }
}

/// Which path a transcription attempt takes.
pub enum Route {
    Local,
    Remote(RemoteProvider),
    Placeholder,
    Nothing,
}

/// The routing policy: the local engine first if enabled and a model path is set;
/// else the selected remote provider if its credential is present, with the fast
/// provider falling back to the default one; else a placeholder for segments
/// longer than half a second, and nothing for shorter ones.
pub open spec fn route_of(c: WhisperConfig, n16: nat) -> Route {
    if c.use_local && c.model_path is Some {
        Route::Local
    } else if c.provider@ == "groq"@ && c.groq_api_key is Some {
        Route::Remote(RemoteProvider::Groq)
    } else if c.api_key is Some {
        Route::Remote(RemoteProvider::OpenAi)
    } else if n16 > MIN_PLACEHOLDER_SAMPLES {
        Route::Placeholder
    } else {
        Route::Nothing
    }
}

/// The model the fast provider is asked for: its own default when the configured
/// model is empty or is the default provider's model.
pub open spec fn groq_model_of(model: Seq<char>) -> Seq<char> {
    if model.len() == 0 || model == "whisper-1"@ {
        "whisper-large-v3-turbo"@
    } else {
        model
    }
}

pub fn groq_model(model: &String) -> (r: String)
    ensures
        r@ == groq_model_of(model@),
{
    let default_model = String::from_str("whisper-1");
    if model.as_str().is_empty() || *model == default_model {
        String::from_str("whisper-large-v3-turbo")
    } else {
        model.clone()
    }
}

/// The ASCII digit for `d < 10`.
pub open spec fn digit_char(d: nat) -> char {
    (48 + d) as char
}

/// The decimal digits of `n`, without leading zeros.
pub open spec fn decimal(n: nat) -> Seq<char>
    decreases n,
{
    if n < 10 {
        seq![digit_char(n)]
    } else {
        decimal(n / 10) + seq![digit_char(n % 10)]
    }
}

fn digit_str(d: u64) -> (r: &'static str)
    requires
        d < 10,
    ensures
        r@ == seq![digit_char(d as nat)],
{
    proof {
        reveal_strlit("0");
        reveal_strlit("1");
        reveal_strlit("2");
        reveal_strlit("3");
        reveal_strlit("4");
        reveal_strlit("5");
        reveal_strlit("6");
        reveal_strlit("7");
        reveal_strlit("8");
        reveal_strlit("9");
    }
    let r = if d == 0 { "0" } else if d == 1 { "1" } else if d == 2 { "2" } else if d == 3 {
        "3"
    } else if d == 4 { "4" } else if d == 5 { "5" } else if d == 6 { "6" } else if d == 7 {
        "7"
    } else if d == 8 { "8" } else { "9" };
    assert(r@ =~= seq![digit_char(d as nat)]);
    r
}

/// Appends the decimal digits of `n` to `out`.
pub fn push_decimal(out: &mut String, n: u64)
    ensures
        final(out)@ == old(out)@ + decimal(n as nat),
    decreases n,
{
    if n >= 10 {
        push_decimal(out, n / 10);
    }
    out.append(digit_str(n % 10));
    proof {
        if n >= 10 {
            assert(decimal(n as nat) == decimal((n / 10) as nat) + seq![digit_char((n % 10) as nat)]);
        } else {
            assert(decimal(n as nat) == seq![digit_char((n % 10) as nat)]);
        }
        assert(final(out)@ =~= old(out)@ + decimal(n as nat));
    }
}

/// Tenths of a second in `n16` samples at `ENGINE_RATE`, rounded half up.
pub open spec fn duration_tenths(n16: nat) -> nat {
    (n16 + 800) / 1600
}

/// The placeholder that reports the length of an untranscribed segment, in
/// seconds with one decimal.
pub open spec fn placeholder_of(n16: nat) -> Seq<char> {
    "[Audio: "@ + decimal(duration_tenths(n16) / 10) + "."@ + seq![digit_char(duration_tenths(n16) % 10)]
        + "s - configure API key in Settings for transcription]"@
}

pub fn placeholder_text(n16: usize) -> (r: String)
    ensures
        r@ == placeholder_of(n16 as nat),
{
    let tenths: u64 = ((n16 as u128 + 800) / 1600) as u64;
    let mut text = String::from_str("[Audio: ");
    push_decimal(&mut text, tenths / 10);
    text.append(".");
    text.append(digit_str(tenths % 10));
    text.append("s - configure API key in Settings for transcription]");
    text
}

/// What to do with one segment.
pub enum TranscriptionRequest {
    /// Decode the samples (at `ENGINE_RATE`) with the local model at `model_path`.
    Local { model_path: String, samples: Vec<i16> },
    /// POST `wav` to `provider` as multipart form data, with `model`, language
    /// `"en"` and the bearer credential `api_key`.
    Remote { provider: RemoteProvider, api_key: String, model: String, wav: Vec<u8> },
    /// No backend is configured: this is the whole result.
    Finished(Option<String>),
}

/// The segment at `ENGINE_RATE`.
pub open spec fn at_engine_rate(s: Seq<i16>, rate: nat) -> Seq<int> {
    resampled(s, rate, ENGINE_RATE as nat)
}

/// Whether a segment of `n` samples at `rate` Hz can be transcribed on this machine.
pub open spec fn segment_fits(n: nat, rate: nat) -> bool {
    0 < rate && n * ENGINE_RATE / (rate as int) <= usize::MAX
}

/// Prepares the transcription of one segment of `samples` at `sample_rate` Hz.
///
/// The segment is first brought to `ENGINE_RATE`. Then `route_of` decides: the
/// local engine gets the samples, a remote provider gets them as a WAV file with
/// its credential and model, and otherwise the placeholder or no text is the
/// result. A segment too long for a WAV file is `EncodingFailed`.
pub fn transcribe_audio(config: &WhisperConfig, samples: &Vec<i16>, sample_rate: u32)
    -> (r: Result<TranscriptionRequest, VoiceError>)
    requires
        segment_fits(samples@.len(), sample_rate as nat),
    ensures
        ({
            let n16 = resampled_len(samples@.len(), sample_rate as nat, ENGINE_RATE as nat);
            let s16 = at_engine_rate(samples@, sample_rate as nat);
            match route_of(*config, n16) {
                Route::Local => match r {
                    Ok(TranscriptionRequest::Local { model_path, samples: out }) =>
                        model_path@ == config.model_path->Some_0@
                        && out@.len() == n16
                        && forall|i: int| 0 <= i < n16 ==> out@[i] as int == s16[i],
                    _ => false,
                },
                Route::Remote(p) => if wav_encodable(n16, ENGINE_RATE as nat) {
                    match r {
                        Ok(TranscriptionRequest::Remote { provider, api_key, model, wav }) =>
                            provider == p
                            && (p == RemoteProvider::Groq ==> api_key@ == config.groq_api_key->Some_0@
                                && model@ == groq_model_of(config.model@))
                            && (p == RemoteProvider::OpenAi ==> api_key@ == config.api_key->Some_0@
                                && model@ == "whisper-1"@)
                            && wav@.len() == 44 + 2 * n16
                            && exists|out: Seq<i16>| out.len() == n16
                                && (forall|i: int| 0 <= i < n16 ==> out[i] as int == s16[i])
                                && wav@ == wav_file(out, ENGINE_RATE as nat),
                        _ => false,
                    }
                } else {
                    r == Err::<TranscriptionRequest, VoiceError>(VoiceError::EncodingFailed)
                },
                Route::Placeholder => match r {
                    Ok(TranscriptionRequest::Finished(Some(text))) => text@ == placeholder_of(n16),
                    _ => false,
                },
                Route::Nothing => r matches Ok(TranscriptionRequest::Finished(None)),
            }
        }),
{
    let s16: Vec<i16> = if sample_rate != ENGINE_RATE {
        resample(samples, sample_rate, ENGINE_RATE)
    } else {
        samples.clone()
    };
    let ghost want = at_engine_rate(samples@, sample_rate as nat);
    let ghost n16 = resampled_len(samples@.len(), sample_rate as nat, ENGINE_RATE as nat);
    assert(s16@.len() == n16);
    assert(forall|i: int| 0 <= i < n16 ==> s16@[i] as int == want[i]);
    let n: usize = s16.len();
    if config.use_local && config.model_path.is_some() {
        let model_path: String = config.model_path.as_ref().unwrap().clone();
        return Ok(TranscriptionRequest::Local { model_path, samples: s16 });
    }
    let groq = String::from_str("groq");
    let provider: Option<RemoteProvider> = if config.provider == groq && config.groq_api_key.is_some() {
        Some(RemoteProvider::Groq)
    } else if config.api_key.is_some() {
        Some(RemoteProvider::OpenAi)
    } else {
        None
    };
    match provider {
        Some(p) => {
            if n > 2147483629 {
                return Err(VoiceError::EncodingFailed);
            }
            let wav = samples_to_wav(&s16, ENGINE_RATE);
            match wav {
                Ok(wav) => {
                    let (api_key, model) = match p {
                        RemoteProvider::Groq => (
                            config.groq_api_key.as_ref().unwrap().clone(),
                            groq_model(&config.model),
                        ),
                        RemoteProvider::OpenAi => (
                            config.api_key.as_ref().unwrap().clone(),
                            String::from_str("whisper-1"),
                        ),
                    };
                    Ok(TranscriptionRequest::Remote { provider: p, api_key, model, wav })
                },
                Err(e) => Err(e),
            }
        },
        None => {
            if n > MIN_PLACEHOLDER_SAMPLES {
                Ok(TranscriptionRequest::Finished(Some(placeholder_text(n))))
            } else {
                Ok(TranscriptionRequest::Finished(None))
            }
        },
    }
}

} // verus!
