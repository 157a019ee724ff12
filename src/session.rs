//! The capture session: lifecycle state, the shared sample buffer, the energy
//! gated segmentation done on each block of input, and the configuration store.

use vstd::prelude::*;
use crate::device::StreamChoice;
use crate::error::VoiceError;
use crate::events::VoiceEvent;
use crate::gate::{downmix_into, downmixed, exceeds_threshold, is_speech};
use crate::router::WhisperConfig;

verus! {

/// Samples buffered since the last drain, at the session's rate.
pub struct AudioBuffer {
    pub samples: Vec<i16>,
    pub sample_rate: u32,
}

/// The capture device chosen by name, if any.
pub struct DeviceConfig {
    pub selected_device: Option<String>,
}

/// A drained window of speech, handed to one transcription worker.
pub struct Segment {
    pub samples: Vec<i16>,
    pub sample_rate: u32,
}

/// What a start request did.
#[derive(Clone, Copy, Debug, PartialEq, Eq)]
pub enum StartOutcome {
    /// A session was already running; nothing changed.
    AlreadyCapturing,
    /// The session moved to capturing; the sink is told that listening began.
    Started,
}

/// The process-wide voice state, held by one owner.
pub struct VoiceState {
    /// Whether a capture session is running.
    pub capturing: bool,
    pub buffer: AudioBuffer,
    /// Channels per frame of the running stream.
    pub channels: u16,
    /// Length of the segmentation window, in seconds.
    pub segment_seconds: u32,
    pub whisper: WhisperConfig,
    pub device: DeviceConfig,
}

/// The session as the contracts see it.
pub struct SessionView {
    pub capturing: bool,
    pub samples: Seq<i16>,
    pub sample_rate: u32,
    pub channels: u16,
    pub segment_seconds: u32,
    pub whisper: WhisperConfig,
    pub selected_device: Option<String>,
}

impl View for VoiceState {
    type V = SessionView;

    open spec fn view(&self) -> SessionView {
        SessionView {
            capturing: self.capturing,
            samples: self.buffer.samples@,
            sample_rate: self.buffer.sample_rate,
            channels: self.channels,
            segment_seconds: self.segment_seconds,
            whisper: self.whisper,
            selected_device: self.device.selected_device,
        }
    }
}

impl SessionView {
    /// A stopped session holds no samples; rate, channel count and window are positive.
    pub open spec fn wf(self) -> bool {
        &&& !self.capturing ==> self.samples.len() == 0
        &&& self.sample_rate > 0
        &&& self.channels > 0
        &&& self.segment_seconds > 0
    }

    /// Samples per segmentation window.
    pub open spec fn window(self) -> nat {
        (self.sample_rate * self.segment_seconds) as nat
    }

    pub open spec fn with_samples(self, samples: Seq<i16>) -> SessionView {
        SessionView { samples, ..self }
    }
}

/// A start request, given the stream the caller set up (or why it could not).
pub open spec fn start_spec(v: SessionView, setup: Result<StreamChoice, VoiceError>)
    -> (SessionView, Result<StartOutcome, VoiceError>)
{
    if v.capturing {
        (v, Ok(StartOutcome::AlreadyCapturing))
    } else {
        match setup {
            Ok(c) => if c.sample_rate == 0 || c.channels == 0 {
                (v, Err(VoiceError::UnsupportedStreamConfig))
            } else {
                (
                    SessionView {
                        capturing: true,
                        samples: Seq::empty(),
                        sample_rate: c.sample_rate,
                        channels: c.channels,
                        ..v
                    },
                    Ok(StartOutcome::Started),
                )
            },
            Err(e) => (v, Err(e)),
        }
    }
}

/// A stop request: not capturing, nothing buffered.
pub open spec fn stop_spec(v: SessionView) -> SessionView {
    SessionView { capturing: false, samples: Seq::empty(), ..v }
}

/// One block of interleaved input frames. While capturing, its downmix is appended;
/// once a full window is buffered the whole buffer is drained, and it is a segment
/// to transcribe if its energy is above the threshold, silence otherwise.
pub open spec fn input_spec(v: SessionView, data: Seq<i16>) -> (SessionView, Option<Seq<i16>>) {
    if !v.capturing {
        (v, None)
    } else {
        let buffered = v.samples + downmixed(data, v.channels as nat);
        if buffered.len() >= v.window() {
            (
                v.with_samples(Seq::empty()),
                if exceeds_threshold(buffered) { Some(buffered) } else { None },
            )
        } else {
            (v.with_samples(buffered), None)
        }
    }
}

impl VoiceState {
    /// A stopped session at 16000 Hz, one channel, a one-second window, default
    /// transcription settings and no device selected.
    pub fn new() -> (r: VoiceState)
        ensures
            r@.wf(),
            !r@.capturing,
            r@.sample_rate == 16000,
            r@.channels == 1,
            r@.segment_seconds == 1,
            r@.selected_device is None,
            r@.whisper.api_key is None,
            !r@.whisper.use_local,
            r@.whisper.model_path is None,
            r@.whisper.provider@ == "openai"@,
            r@.whisper.model@ == "whisper-1"@,
            r@.whisper.groq_api_key is None,
    {
        VoiceState {
            capturing: false,
            buffer: AudioBuffer { samples: Vec::new(), sample_rate: 16000 },
            channels: 1,
            segment_seconds: 1,
            whisper: WhisperConfig::new(),
            device: DeviceConfig { selected_device: None },
        }
    }

    pub fn is_capturing(&self) -> (r: bool)
        ensures
            r == self@.capturing,
    {
        self.capturing
    }

    /// Sets the segmentation window; it takes effect from the next block of input.
    pub fn set_segment_seconds(&mut self, seconds: u32)
        requires
            old(self)@.wf(),
            seconds > 0,
        ensures
            final(self)@ == (SessionView { segment_seconds: seconds, ..old(self)@ }),
            final(self)@.wf(),
    {
        self.segment_seconds = seconds;
    }
}

/// Replaces the transcription settings. An absent provider or model keeps the
/// previous one; every other field takes the given value.
pub fn configure_whisper(
    state: &mut VoiceState,
    api_key: Option<String>,
    use_local: bool,
    model_path: Option<String>,
    provider: Option<String>,
    model: Option<String>,
    groq_api_key: Option<String>,
)
    ensures
        final(state)@.whisper.api_key == api_key,
        final(state)@.whisper.use_local == use_local,
        final(state)@.whisper.model_path == model_path,
        final(state)@.whisper.provider == match provider {
            Some(p) => p,
            None => old(state)@.whisper.provider,
        },
        final(state)@.whisper.model == match model {
            Some(m) => m,
            None => old(state)@.whisper.model,
        },
        final(state)@.whisper.groq_api_key == groq_api_key,
        final(state)@ == (SessionView { whisper: final(state)@.whisper, ..old(state)@ }),
{
    state.whisper.api_key = api_key;
    state.whisper.use_local = use_local;
    state.whisper.model_path = model_path;
    if let Some(p) = provider {
        state.whisper.provider = p;
    }
    if let Some(m) = model {
        state.whisper.model = m;
    }
    state.whisper.groq_api_key = groq_api_key;
}

/// The device selected by name, if any.
pub fn get_selected_device(state: &VoiceState) -> (r: Option<String>)
    ensures
        r == state@.selected_device,
{
    match &state.device.selected_device {
        Some(name) => Some(name.clone()),
        None => None,
    }
}

/// Selects the capture device by name (`None` for the system default). The name
/// is checked only when a stream is opened.
pub fn set_input_device(state: &mut VoiceState, device_name: Option<String>)
    ensures
        final(state)@ == (SessionView { selected_device: device_name, ..old(state)@ }),
{
    state.device.selected_device = device_name;
}

/// Handles a start request. `setup` is the stream the caller opened for it, or the
/// error that stopped it; it is not looked at while a session is running.
pub fn start_capture(state: &mut VoiceState, setup: Result<StreamChoice, VoiceError>)
    -> (r: Result<StartOutcome, VoiceError>)
    requires
        old(state)@.wf(),
    ensures
        (final(state)@, r) == start_spec(old(state)@, setup),
        final(state)@.wf(),
{
    if state.capturing {
        return Ok(StartOutcome::AlreadyCapturing);
    }
    match setup {
        Ok(c) => {
            if c.sample_rate == 0 || c.channels == 0 {
                return Err(VoiceError::UnsupportedStreamConfig);
            }
            state.buffer.sample_rate = c.sample_rate;
            state.buffer.samples.clear();
            state.channels = c.channels;
            state.capturing = true;
            Ok(StartOutcome::Started)
        },
        Err(e) => Err(e),
    }
}

/// Handles a stop request: capture ends and the buffer is emptied. Stopping a
/// stopped session changes nothing.
pub fn stop_capture(state: &mut VoiceState) -> (r: Result<(), VoiceError>)
    requires
        old(state)@.wf(),
    ensures
        final(state)@ == stop_spec(old(state)@),
        final(state)@.wf(),
        r is Ok,
{
    state.capturing = false;
    state.buffer.samples.clear();
    Ok(())
}

/// A device fault in the middle of capture: the session stops and the sink gets
/// one error event.
pub fn stream_failed(state: &mut VoiceState) -> (r: VoiceEvent)
    requires
        old(state)@.wf(),
    ensures
        final(state)@ == stop_spec(old(state)@),
        final(state)@.wf(),
        r == VoiceEvent::Error(VoiceError::StreamRuntimeError),
{
    state.capturing = false;
    state.buffer.samples.clear();
    VoiceEvent::Error(VoiceError::StreamRuntimeError)
}

/// Handles one block of interleaved input frames from the audio callback and
/// returns the segment to dispatch, if any (see `input_spec`).
pub fn process_input(state: &mut VoiceState, data: &Vec<i16>) -> (r: Option<Segment>)
    requires
        old(state)@.wf(),
    ensures
        final(state)@ == input_spec(old(state)@, data@).0,
        final(state)@.wf(),
        final(state)@.samples.len() < final(state)@.window(),
        match (r, input_spec(old(state)@, data@).1) {
            (Some(seg), Some(s)) => seg.samples@ == s && seg.sample_rate == old(state)@.sample_rate,
            (None, None) => true,
            _ => false,
        },
{
    proof {
        let (a, b) = (state.buffer.sample_rate as int, state.segment_seconds as int);
        assert(a * b > 0) by (nonlinear_arith)
            requires a > 0, b > 0;
    }
    if !state.capturing {
        return None;
    }
    downmix_into(&mut state.buffer.samples, data, state.channels);
    proof {
        let (a, b) = (state.buffer.sample_rate as int, state.segment_seconds as int);
        assert(a * b <= 0xffff_ffff * 0xffff_ffff) by (nonlinear_arith)
            requires 0 <= a <= 0xffff_ffff, 0 <= b <= 0xffff_ffff;
    }
    let window: u64 = state.buffer.sample_rate as u64 * state.segment_seconds as u64;
    if state.buffer.samples.len() as u64 >= window {
        let drained: Vec<i16> = state.buffer.samples.clone();
        state.buffer.samples.clear();
        assert(drained@ =~= old(state)@.samples + downmixed(data@, old(state)@.channels as nat));
        if is_speech(&drained) {
            Some(Segment { samples: drained, sample_rate: state.buffer.sample_rate })
        } else {
            None
        }
    } else {
        None
    }
}

} // verus!
