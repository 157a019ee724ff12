//! Canonical WAV framing: single channel, 16-bit signed PCM.

use vstd::prelude::*;
use crate::error::VoiceError;

verus! {

/// Size in bytes of the fixed RIFF/WAVE header that precedes the sample data.
pub const WAV_HEADER_LEN: usize = 44;

/// The little-endian bytes of a 16-bit value.
pub open spec fn le16(v: int) -> Seq<u8> {
    let u = if v < 0 { v + 65536 } else { v };
    seq![(u % 256) as u8, (u / 256) as u8]
}

/// The little-endian bytes of a 32-bit unsigned value.
pub open spec fn le32(v: nat) -> Seq<u8> {
    seq![(v % 256) as u8, ((v / 256) % 256) as u8, ((v / 65536) % 256) as u8, ((v / 16777216) % 256) as u8]
}

/// The ASCII bytes of a four-letter chunk tag.
pub open spec fn tag(a: char, b: char, c: char, d: char) -> Seq<u8> {
    seq![a as u8, b as u8, c as u8, d as u8]
}

/// The header of a mono 16-bit PCM file at `rate` Hz holding `n` samples.
pub open spec fn wav_header(rate: nat, n: nat) -> Seq<u8> {
    tag('R', 'I', 'F', 'F') + le32(36 + 2 * n) + tag('W', 'A', 'V', 'E')
        + tag('f', 'm', 't', ' ') + le32(16) + le16(1) + le16(1) + le32(rate) + le32(2 * rate)
        + le16(2) + le16(16) + tag('d', 'a', 't', 'a') + le32(2 * n)
}

/// The sample data: each sample as two little-endian bytes, in order.
pub open spec fn pcm_data(s: Seq<i16>) -> Seq<u8>
    decreases s.len(),
{
    if s.len() == 0 {
        Seq::empty()
    } else {
        pcm_data(s.drop_last()) + le16(s.last() as int)
    }
}

/// The complete file for samples `s` at `rate` Hz.
pub open spec fn wav_file(s: Seq<i16>, rate: nat) -> Seq<u8> {
    wav_header(rate, s.len()) + pcm_data(s)
}

/// Inputs the 32-bit size fields of the format can describe.
pub open spec fn wav_encodable(n: nat, rate: nat) -> bool {
    0 < rate && 2 * rate <= u32::MAX && 36 + 2 * n <= u32::MAX
}

pub proof fn lemma_pcm_data_len(s: Seq<i16>)
    ensures
        pcm_data(s).len() == 2 * s.len(),
    decreases s.len(),
{
    if s.len() > 0 {
        lemma_pcm_data_len(s.drop_last());
    }
}

pub proof fn lemma_wav_file_len(s: Seq<i16>, rate: nat)
    ensures
        wav_file(s, rate).len() == WAV_HEADER_LEN + 2 * s.len(),
{
    lemma_pcm_data_len(s);
}

#[verifier::external_type_specification]
#[verifier::external_body]
pub struct ExHoundError(hound::Error);

/// Relies on hound's `WavWriter` (`new`, `write_sample::<i16>`, `finalize`) writing
/// into an in-memory cursor: for one channel, 16 bits and integer samples it writes
/// the 44-byte PCMWAVEFORMAT header, then each sample as two little-endian bytes,
/// and fills in the two size fields on `finalize`. Writes to a `Vec` do not fail;
/// a zero rate divides by zero and sizes past `u32` overflow, hence `requires`.
#[verifier::external_body]
fn hound_write_pcm16(samples: &Vec<i16>, sample_rate: u32) -> (r: Result<Vec<u8>, hound::Error>)
    requires
        wav_encodable(samples@.len(), sample_rate as nat),
    ensures
        match r {
            Ok(bytes) => bytes@ == wav_file(samples@, sample_rate as nat),
            Err(_) => false,
        },
{
    let spec = hound::WavSpec {
        channels: 1,
        sample_rate,
        bits_per_sample: 16,
        sample_format: hound::SampleFormat::Int,
    };
    let mut cursor = std::io::Cursor::new(Vec::new());
    let mut writer = hound::WavWriter::new(&mut cursor, spec)?;
    for s in samples.iter() {
        writer.write_sample(*s)?;
    }
    writer.finalize()?;
    Ok(cursor.into_inner())
}

/// Encodes `samples` at `sample_rate` Hz as a mono 16-bit PCM WAV file:
/// the 44-byte header followed by two bytes per sample.
pub fn samples_to_wav(samples: &Vec<i16>, sample_rate: u32) -> (r: Result<Vec<u8>, VoiceError>)
    requires
        wav_encodable(samples@.len(), sample_rate as nat),
    ensures
        match r {
            Ok(bytes) => bytes@ == wav_file(samples@, sample_rate as nat)
                && bytes@.len() == WAV_HEADER_LEN + 2 * samples@.len(),
            Err(_) => false,
        },
{
    proof {
        lemma_wav_file_len(samples@, sample_rate as nat);
    }
    match hound_write_pcm16(samples, sample_rate) {
        Ok(bytes) => Ok(bytes),
        Err(_) => Err(VoiceError::EncodingFailed),
    }
}

} // verus!
