use koe_voice::device::{choose_stream_config, get_input_device, target_sample_rate, DeviceChoice, StreamChoice, SupportedConfig};
use koe_voice::error::VoiceError;
use koe_voice::events::VoiceEvent;
use koe_voice::session::{get_selected_device, process_input, set_input_device, start_capture, stop_capture, stream_failed, StartOutcome, VoiceState};

fn setup(rate: u32, channels: u16) -> Result<StreamChoice, VoiceError> {
    Ok(StreamChoice { index: 0, channels, sample_rate: rate })
}

fn sine(n: usize, rate: f32, freq: f32, amp: f32) -> Vec<i16> {
    (0..n)
        .map(|i| {
            let x = (2.0 * std::f32::consts::PI * freq * i as f32 / rate).sin() * amp;
            (x * 32767.0).clamp(-32768.0, 32767.0) as i16
        })
        .collect()
}

#[test]
fn device_selection_scenario() {
    let devices = vec!["Built-in Mic".to_string(), "USB Mic".to_string()];
    let mut state = VoiceState::new();
    set_input_device(&mut state, Some("USB Mic".to_string()));
    assert_eq!(get_selected_device(&state), Some("USB Mic".to_string()));
    let sel = get_selected_device(&state);
    assert_eq!(get_input_device(&sel, &devices, true), Ok(DeviceChoice::Named(1)));

    set_input_device(&mut state, Some("Missing Mic".to_string()));
    let sel = get_selected_device(&state);
    assert_eq!(get_input_device(&sel, &devices, true), Ok(DeviceChoice::Default { fell_back: true }));

    set_input_device(&mut state, None);
    assert_eq!(get_selected_device(&state), None);
    assert_eq!(get_input_device(&None, &devices, true), Ok(DeviceChoice::Default { fell_back: false }));
    assert_eq!(get_input_device(&None, &devices, false), Err(VoiceError::NoInputDevice));
}

#[test]
fn stream_config_prefers_mono_with_highest_rate() {
    let configs = vec![
        SupportedConfig { channels: 2, min_sample_rate: 8000, max_sample_rate: 96000 },
        SupportedConfig { channels: 1, min_sample_rate: 44100, max_sample_rate: 48000 },
        SupportedConfig { channels: 1, min_sample_rate: 8000, max_sample_rate: 48000 },
        SupportedConfig { channels: 1, min_sample_rate: 8000, max_sample_rate: 22050 },
    ];
    let c = choose_stream_config(&configs).unwrap();
    assert_eq!(c, StreamChoice { index: 2, channels: 1, sample_rate: 16000 });
}

#[test]
fn stream_config_without_mono_takes_first() {
    let configs = vec![
        SupportedConfig { channels: 2, min_sample_rate: 44100, max_sample_rate: 48000 },
        SupportedConfig { channels: 4, min_sample_rate: 8000, max_sample_rate: 96000 },
    ];
    let c = choose_stream_config(&configs).unwrap();
    assert_eq!(c, StreamChoice { index: 0, channels: 2, sample_rate: 44100 });
    assert_eq!(choose_stream_config(&vec![]), Err(VoiceError::UnsupportedStreamConfig));
}

#[test]
fn target_rate_order() {
    assert_eq!(target_sample_rate(8000, 48000), 16000);
    assert_eq!(target_sample_rate(22050, 48000), 44100);
    assert_eq!(target_sample_rate(48000, 96000), 48000);
    assert_eq!(target_sample_rate(88200, 96000), 96000);
}

#[test]
fn start_is_idempotent() {
    let mut state = VoiceState::new();
    assert_eq!(start_capture(&mut state, setup(48000, 2)), Ok(StartOutcome::Started));
    assert!(state.is_capturing());
    assert_eq!(start_capture(&mut state, setup(16000, 1)), Ok(StartOutcome::AlreadyCapturing));
    assert_eq!(start_capture(&mut state, Err(VoiceError::StreamBuildFailed)), Ok(StartOutcome::AlreadyCapturing));
    assert_eq!(state.buffer.sample_rate, 48000);
    assert_eq!(state.channels, 2);
}

#[test]
fn failed_start_stays_stopped() {
    let mut state = VoiceState::new();
    assert_eq!(start_capture(&mut state, Err(VoiceError::NoInputDevice)), Err(VoiceError::NoInputDevice));
    assert!(!state.is_capturing());
    assert_eq!(start_capture(&mut state, setup(0, 1)), Err(VoiceError::UnsupportedStreamConfig));
    assert!(!state.is_capturing());
}

#[test]
fn stop_is_idempotent() {
    let mut state = VoiceState::new();
    assert_eq!(stop_capture(&mut state), Ok(()));
    assert!(!state.is_capturing());
    start_capture(&mut state, setup(16000, 1)).unwrap();
    process_input(&mut state, &vec![1, 2, 3]);
    assert_eq!(stop_capture(&mut state), Ok(()));
    assert!(state.buffer.samples.is_empty());
    assert_eq!(stop_capture(&mut state), Ok(()));
    assert!(!state.is_capturing());
}

#[test]
fn input_is_ignored_while_stopped() {
    let mut state = VoiceState::new();
    assert!(process_input(&mut state, &sine(16000, 16000.0, 440.0, 1.0)).is_none());
    assert!(state.buffer.samples.is_empty());
}

#[test]
fn speech_window_is_dispatched_and_silence_discarded() {
    let mut state = VoiceState::new();
    start_capture(&mut state, setup(16000, 1)).unwrap();
    let tone = sine(16000, 16000.0, 440.0, 1.0);
    assert!(process_input(&mut state, &tone[..8000].to_vec()).is_none());
    assert_eq!(state.buffer.samples.len(), 8000);
    let seg = process_input(&mut state, &tone[8000..].to_vec()).unwrap();
    assert_eq!(seg.samples, tone);
    assert_eq!(seg.sample_rate, 16000);
    assert!(state.buffer.samples.is_empty());

    assert!(process_input(&mut state, &vec![0i16; 16000]).is_none());
    assert!(state.buffer.samples.is_empty());
}

#[test]
fn stereo_input_is_averaged_into_the_window() {
    let mut state = VoiceState::new();
    start_capture(&mut state, setup(4, 2)).unwrap();
    assert!(process_input(&mut state, &vec![1000, 3000, -1000, -3000]).is_none());
    assert_eq!(state.buffer.samples, vec![2000, -2000]);
    let seg = process_input(&mut state, &vec![100, 300, 5, 5]).unwrap();
    assert_eq!(seg.samples, vec![2000, -2000, 200, 5]);
    assert_eq!(seg.sample_rate, 4);
}

#[test]
fn two_second_window_holds_two_seconds() {
    let mut state = VoiceState::new();
    state.set_segment_seconds(2);
    start_capture(&mut state, setup(16000, 1)).unwrap();
    let tone = sine(32000, 16000.0, 440.0, 0.5);
    assert!(process_input(&mut state, &tone[..16000].to_vec()).is_none());
    let seg = process_input(&mut state, &tone[16000..].to_vec()).unwrap();
    assert_eq!(seg.samples.len(), 32000);
}

#[test]
fn stream_fault_stops_capture() {
    let mut state = VoiceState::new();
    start_capture(&mut state, setup(16000, 1)).unwrap();
    process_input(&mut state, &vec![5, 5]);
    let ev = stream_failed(&mut state);
    assert!(matches!(ev, VoiceEvent::Error(VoiceError::StreamRuntimeError)));
    assert_eq!(ev.name(), "voice:error");
    assert!(!state.is_capturing());
    assert!(state.buffer.samples.is_empty());
}
