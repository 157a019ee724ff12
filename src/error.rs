//! Error kinds of the capture and transcription core.

use vstd::prelude::*;

verus! {

/// What went wrong, by kind. Remote API errors carry the HTTP status and body.
#[derive(Clone, Debug, PartialEq, Eq)]
pub enum VoiceError {
    NoInputDevice,
    DeviceEnumerationFailed,
    UnsupportedStreamConfig,
    StreamBuildFailed,
    StreamRuntimeError,
    LocalModelLoadFailed,
    LocalTranscriptionFailed,
    RemoteRequestFailed,
    RemoteApiError { status: u16, body: String },
    EncodingFailed,
}

} // verus!
