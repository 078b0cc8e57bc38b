//! The capture lifecycle from the outside: state transitions, the sample
//! handoff, device selection and the fixed stream configuration.

use gwhisper::recording::{
    CaptureError, DeviceChoice, Recorder, SampleBuffer, StreamConfig, StreamStartOutcome,
    whisper_config, WHISPER_CHANNELS, WHISPER_SAMPLE_RATE,
};

fn fixed_config() -> StreamConfig {
    StreamConfig { channels: WHISPER_CHANNELS, sample_rate: WHISPER_SAMPLE_RATE }
}

#[test]
fn recorder_starts_stopped() {
    let r = Recorder::new("default".to_owned(), fixed_config());
    assert!(r.is_stopped());
}

#[test]
fn start_flips_state_and_stop_restores_it() {
    let mut r = Recorder::new("default".to_owned(), fixed_config());
    assert!(r.is_stopped());
    r.start(StreamStartOutcome::Playing).unwrap();
    assert!(!r.is_stopped());
    let _ = r.stop();
    assert!(r.is_stopped());
}

#[test]
fn stop_yields_fed_samples_in_order() {
    let mut r = Recorder::new("default".to_owned(), fixed_config());
    r.start(StreamStartOutcome::Playing).unwrap();
    r.feed(&vec![1u32, 2, 3]);
    r.feed(&vec![4u32, 5]);
    let audio = r.stop();
    assert_eq!(audio, vec![1u32, 2, 3, 4, 5]);
}

#[test]
fn next_round_starts_from_an_empty_buffer() {
    let mut r = Recorder::new("default".to_owned(), fixed_config());
    r.start(StreamStartOutcome::Playing).unwrap();
    r.feed(&vec![1u32, 2, 3]);
    let first = r.stop();
    assert_eq!(first.len(), 3);
    r.start(StreamStartOutcome::Playing).unwrap();
    r.feed(&vec![9u32]);
    let second = r.stop();
    assert_eq!(second, vec![9u32]);
}

#[test]
fn build_failure_reports_error_and_stays_stopped() {
    let mut r = Recorder::new("default".to_owned(), fixed_config());
    let res = r.start(StreamStartOutcome::BuildFailed);
    assert_eq!(res, Err(CaptureError::StreamBuildError));
    assert!(r.is_stopped());
}

#[test]
fn play_failure_reports_error_and_stays_stopped() {
    let mut r = Recorder::new("default".to_owned(), fixed_config());
    let res = r.start(StreamStartOutcome::PlayFailed);
    assert_eq!(res, Err(CaptureError::StreamPlayError));
    assert!(r.is_stopped());
}

#[test]
fn three_seconds_of_silence_yield_48000_samples() {
    // 3 seconds at the fixed 16 kHz rate, delivered by a simulated
    // device callback in bursts of zero-valued samples.
    let zero = 0f32.to_bits();
    let mut r = Recorder::new("default".to_owned(), fixed_config());
    r.start(StreamStartOutcome::Playing).unwrap();
    for _ in 0..100 {
        r.feed(&vec![zero; 480]);
    }
    let audio = r.stop();
    assert_eq!(audio.len(), 48000);
    assert!(audio.iter().all(|s| *s == zero));
}

#[test]
fn recorder_keeps_its_device_and_config() {
    let r = Recorder::new("pulse".to_owned(), fixed_config());
    assert_eq!(r.device(), "pulse");
    assert_eq!(r.config(), fixed_config());
}

#[test]
fn sample_buffer_appends_and_drains() {
    let mut b = SampleBuffer::new();
    assert_eq!(b.len(), 0);
    b.append(&vec![5u32, 6]);
    b.append(&vec![7u32]);
    assert_eq!(b.len(), 3);
    let out = b.take();
    assert_eq!(out, vec![5u32, 6, 7]);
    assert_eq!(b.len(), 0);
}

#[test]
fn default_device_is_chosen_when_present() {
    let names = vec!["alpha".to_owned(), "beta".to_owned()];
    let (choice, config) = whisper_config("default", &names, true).unwrap();
    assert_eq!(choice, DeviceChoice::DefaultInput);
    assert_eq!(config, fixed_config());
}

#[test]
fn missing_default_device_is_not_found() {
    let names = vec!["alpha".to_owned()];
    let res = whisper_config("default", &names, false);
    assert_eq!(res, Err(CaptureError::DeviceNotFound));
}

#[test]
fn named_device_resolves_to_first_match() {
    let names = vec!["alpha".to_owned(), "beta".to_owned(), "beta".to_owned()];
    let (choice, config) = whisper_config("beta", &names, true).unwrap();
    assert_eq!(choice, DeviceChoice::Named(1));
    assert_eq!(config.channels, 1);
    assert_eq!(config.sample_rate, 16000);
}

#[test]
fn unknown_device_is_not_found() {
    let names = vec!["alpha".to_owned(), "beta".to_owned()];
    let res = whisper_config("gamma", &names, true);
    assert_eq!(res, Err(CaptureError::DeviceNotFound));
}
