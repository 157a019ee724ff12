//! What the capture core hands to the notification sink.

use vstd::prelude::*;
use crate::error::VoiceError;

verus! {

/// A completed transcript.
pub struct TranscriptEvent {
    pub text: String,
    pub is_final: bool,
}

/// One notification: a transcript, an error, or the start of listening.
pub enum VoiceEvent {
    Transcript(TranscriptEvent),
    Error(VoiceError),
    Listening,
}

impl VoiceEvent {
    /// The event name the sink is called with.
    pub fn name(&self) -> (r: &'static str)
        ensures
            r@ == match self {
                VoiceEvent::Transcript(_) => "voice:transcript"@,
                VoiceEvent::Error(_) => "voice:error"@,
                VoiceEvent::Listening => "voice:state"@,
            },
    {
        match self {
            VoiceEvent::Transcript(_) => "voice:transcript",
            VoiceEvent::Error(_) => "voice:error",
            VoiceEvent::Listening => "voice:state",
        }
    }
}

/// `s` with leading and trailing whitespace removed, as `str::trim` does it.
pub uninterp spec fn trimmed(s: Seq<char>) -> Seq<char>;

/// Relies on `str::trim`: the text without leading and trailing Unicode
/// whitespace, a function of the text alone.
#[verifier::external_body]
fn trim(s: &str) -> (r: &str)
    ensures
        r@ == trimmed(s@),
{
    s.trim()
}

/// The notification owed for the outcome of one transcription attempt, given
/// whether its text is blank: a non-blank text is a final transcript, a blank or
/// missing one is nothing, and a failure is an error event.
pub open spec fn outcome_event(outcome: Result<Option<String>, VoiceError>, blank: bool) -> Option<VoiceEvent> {
    match outcome {
        Ok(Some(text)) => if blank {
            None
        } else {
            Some(VoiceEvent::Transcript(TranscriptEvent { text, is_final: true }))
        },
        Ok(None) => None,
        Err(e) => Some(VoiceEvent::Error(e)),
    }
}

/// The notification for `outcome`, where `blank` says whether its text is only
/// whitespace.
pub fn event_for_outcome(outcome: Result<Option<String>, VoiceError>, blank: bool) -> (r: Option<VoiceEvent>)
    ensures
        r == outcome_event(outcome, blank),
{
    match outcome {
        Ok(Some(text)) => if blank {
            None
        } else {
            Some(VoiceEvent::Transcript(TranscriptEvent { text, is_final: true }))
        },
        Ok(None) => None,
        Err(e) => Some(VoiceEvent::Error(e)),
    }
}

/// The notification for `outcome`: at most one per attempt, and none for a
/// transcript that is empty once trimmed.
pub fn transcript_event(outcome: Result<Option<String>, VoiceError>) -> (r: Option<VoiceEvent>)
    ensures
        r == outcome_event(
            outcome,
            match outcome {
                Ok(Some(text)) => trimmed(text@).len() == 0,
                _ => false,
            },
        ),
{
    let blank = match &outcome {
        Ok(Some(text)) => trim(text.as_str()).is_empty(),
        _ => false,
    };
    event_for_outcome(outcome, blank)
}

} // verus!
