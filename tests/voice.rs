use koe_voice::session::{configure_whisper, VoiceState};
use koe_voice::wav::samples_to_wav;

fn to_pcm(x: f32) -> i16 {
    (x * 32767.0).clamp(-32768.0, 32767.0) as i16
}

#[test]
fn test_samples_to_wav() {
    let samples: Vec<i16> = vec![0.0f32, 0.5, -0.5, 1.0, -1.0].into_iter().map(to_pcm).collect();
    let wav = samples_to_wav(&samples, 16000);
    assert!(wav.is_ok());
    let wav_data = wav.unwrap();
    // The header is 44 bytes, then 2 bytes per 16-bit sample.
    assert_eq!(wav_data.len(), 44 + samples.len() * 2);
}

#[test]
fn test_samples_to_wav_empty() {
    let samples: Vec<i16> = vec![];
    let wav = samples_to_wav(&samples, 16000);
    assert!(wav.is_ok());
}

#[test]
fn test_configure_whisper() {
    let mut state = VoiceState::new();
    configure_whisper(&mut state, Some("test-key".to_string()), false, None, None, None, None);
    assert_eq!(state.whisper.api_key, Some("test-key".to_string()));
    assert!(!state.whisper.use_local);
}

#[test]
fn test_configure_whisper_groq() {
    let mut state = VoiceState::new();
    configure_whisper(
        &mut state,
        None,
        false,
        None,
        Some("groq".to_string()),
        Some("whisper-large-v3-turbo".to_string()),
        Some("groq-key".to_string()),
    );
    assert_eq!(state.whisper.provider, "groq");
    assert_eq!(state.whisper.model, "whisper-large-v3-turbo");
    assert_eq!(state.whisper.groq_api_key, Some("groq-key".to_string()));
}

#[test]
fn configure_without_provider_keeps_previous() {
    let mut state = VoiceState::new();
    configure_whisper(&mut state, None, true, Some("/m.bin".to_string()), Some("groq".to_string()), None, None);
    configure_whisper(&mut state, Some("k".to_string()), false, None, None, None, None);
    assert_eq!(state.whisper.provider, "groq");
    assert_eq!(state.whisper.model, "whisper-1");
    assert_eq!(state.whisper.model_path, None);
    assert_eq!(state.whisper.api_key, Some("k".to_string()));
}

#[test]
fn wav_header_bytes_are_canonical() {
    let wav = samples_to_wav(&vec![1i16, -2], 16000).unwrap();
    assert_eq!(&wav[0..4], b"RIFF");
    assert_eq!(&wav[4..8], &(36u32 + 4).to_le_bytes());
    assert_eq!(&wav[8..16], b"WAVEfmt ");
    assert_eq!(&wav[16..20], &16u32.to_le_bytes());
    assert_eq!(&wav[20..24], &[1, 0, 1, 0]);
    assert_eq!(&wav[24..28], &16000u32.to_le_bytes());
    assert_eq!(&wav[28..32], &32000u32.to_le_bytes());
    assert_eq!(&wav[32..36], &[2, 0, 16, 0]);
    assert_eq!(&wav[36..40], b"data");
    assert_eq!(&wav[40..44], &4u32.to_le_bytes());
    assert_eq!(&wav[44..], &[1, 0, 0xfe, 0xff]);
}

#[test]
fn wav_of_no_samples_is_header_only() {
    let wav = samples_to_wav(&vec![], 44100).unwrap();
    assert_eq!(wav.len(), 44);
    assert_eq!(&wav[40..44], &[0, 0, 0, 0]);
}
