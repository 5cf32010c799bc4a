use duplex_audio::device::{DeviceCaps, DeviceModel, DirDevice, TransferReply};
use duplex_audio::manager::{AudioManager, ManagerConfig, SetupError};
use duplex_audio::recovery::PushError;
use duplex_audio::stream::{Direction, StreamState};

fn caps(rates: &[u32]) -> DeviceCaps {
    DeviceCaps {
        min_channels: 1,
        max_channels: 2,
        rates: rates.to_vec(),
        supports_s16: true,
        supports_interleaved: true,
        buffer_size: 1024,
        period_size: 256,
    }
}

fn dir_device(name: &str, rates: &[u32]) -> DirDevice {
    DirDevice {
        name: name.to_string(),
        busy: false,
        disconnected: false,
        caps: caps(rates),
        replies: Vec::new(),
        next_reply: 0,
        recover_ok: true,
        recover_calls: 0,
        capture_sample: 0,
    }
}

fn device() -> DeviceModel {
    DeviceModel {
        subsystem_ok: true,
        playback: dir_device("default", &[8000, 44100, 48000]),
        capture: dir_device("plughw:1,0", &[48000]),
    }
}

fn full_config() -> ManagerConfig {
    ManagerConfig {
        speaker: Some("default".to_string()),
        microphone: Some("plughw:1,0".to_string()),
    }
}

fn speaker_only() -> ManagerConfig {
    ManagerConfig { speaker: Some("default".to_string()), microphone: None }
}

fn microphone_only() -> ManagerConfig {
    ManagerConfig { speaker: None, microphone: Some("plughw:1,0".to_string()) }
}

#[test]
fn construct_full_manager() {
    let dev = device();
    let am = AudioManager::new(&dev, &full_config()).unwrap();
    let speaker = am.speaker.as_ref().unwrap();
    assert!(matches!(speaker.state, StreamState::Prepared));
    assert!(matches!(speaker.direction, Direction::Playback));
    let microphone = am.microphone.as_ref().unwrap();
    assert!(matches!(microphone.state, StreamState::Running));
    assert!(matches!(microphone.direction, Direction::Capture));
    let cfg = speaker.hw_params_current(&am.context).unwrap();
    assert_eq!(cfg.get_channels(), 1);
    assert_eq!(cfg.get_rate(), 48000);
    assert_eq!(cfg.get_buffer_size(), 1024);
    assert_eq!(cfg.get_period_size(), 256);
}

#[test]
fn nearest_rate_read_back() {
    // The device's nearest supported rate to the 48000 Hz request is
    // 44100 Hz: the read-back configuration must say 44100, not 48000.
    let mut dev = device();
    dev.playback.caps.rates = vec![8000, 44100];
    let am = AudioManager::new(&dev, &speaker_only()).unwrap();
    let speaker = am.speaker.as_ref().unwrap();
    let cfg = speaker.hw_params_current(&am.context).unwrap();
    assert_eq!(cfg.get_rate(), 44100);
}

#[test]
fn subsystem_failure_is_fatal() {
    let mut dev = device();
    dev.subsystem_ok = false;
    let r = AudioManager::new(&dev, &full_config());
    assert_eq!(r.unwrap_err(), SetupError::Context);
}

#[test]
fn unopenable_device_terminates_setup() {
    let dev = device();
    let cfg = ManagerConfig {
        speaker: Some("no-such-device".to_string()),
        microphone: Some("plughw:1,0".to_string()),
    };
    let r = AudioManager::new(&dev, &cfg);
    assert_eq!(r.unwrap_err(), SetupError::Open(Direction::Playback));
}

#[test]
fn busy_device_cannot_be_opened() {
    let mut dev = device();
    dev.capture.busy = true;
    let r = AudioManager::new(&dev, &full_config());
    assert_eq!(r.unwrap_err(), SetupError::Open(Direction::Capture));
}

#[test]
fn infeasible_envelope_fails_negotiation() {
    let mut dev = device();
    dev.playback.caps.min_channels = 2;
    let r = AudioManager::new(&dev, &full_config());
    assert_eq!(r.unwrap_err(), SetupError::Params(Direction::Playback));
}

#[test]
fn disconnected_device_fails_prepare() {
    let mut dev = device();
    dev.playback.disconnected = true;
    let r = AudioManager::new(&dev, &speaker_only());
    assert_eq!(r.unwrap_err(), SetupError::Prepare);
}

#[test]
fn playback_open_failure_reported_first() {
    // Setup runs playback-first: with both names wrong, the error names
    // the playback side, and nothing on the capture side was ever opened.
    let dev = device();
    let cfg = ManagerConfig {
        speaker: Some("wrong".to_string()),
        microphone: Some("also-wrong".to_string()),
    };
    let r = AudioManager::new(&dev, &cfg);
    assert_eq!(r.unwrap_err(), SetupError::Open(Direction::Playback));
}

#[test]
fn clean_push_makes_no_recovery() {
    let mut dev = device();
    let mut am = AudioManager::new(&dev, &speaker_only()).unwrap();
    let samples = vec![1i16, 2, 3, 4];
    let r = am.push(&mut dev, &samples);
    assert_eq!(r, Ok(false));
    assert_eq!(dev.playback.recover_calls, 0);
    assert!(matches!(am.speaker.as_ref().unwrap().state, StreamState::Running));
}

#[test]
fn single_short_write_recovers_once() {
    // The device accepts only half the requested frames once; the retry
    // completes. push returns normally and reports the one recovered
    // underrun; the native recover primitive ran exactly once.
    let mut dev = device();
    dev.playback.replies = vec![TransferReply::Accept(2)];
    let mut am = AudioManager::new(&dev, &speaker_only()).unwrap();
    let samples = vec![1i16, 2, 3, 4];
    let r = am.push(&mut dev, &samples);
    assert_eq!(r, Ok(true));
    assert_eq!(dev.playback.recover_calls, 1);
    assert!(matches!(am.speaker.as_ref().unwrap().state, StreamState::Running));
}

#[test]
fn double_short_write_is_fatal() {
    // Two consecutive short writes on the same push call: a double
    // underrun, with the recover primitive still invoked only once.
    let mut dev = device();
    dev.playback.replies = vec![TransferReply::Accept(2), TransferReply::Accept(3)];
    let mut am = AudioManager::new(&dev, &speaker_only()).unwrap();
    let samples = vec![1i16, 2, 3, 4];
    let r = am.push(&mut dev, &samples);
    assert_eq!(r, Err(PushError::DoubleUnderrun));
    assert_eq!(dev.playback.recover_calls, 1);
    assert!(matches!(am.speaker.as_ref().unwrap().state, StreamState::Failed));
}

#[test]
fn failed_recovery_is_fatal() {
    let mut dev = device();
    dev.playback.replies = vec![TransferReply::Accept(0)];
    dev.playback.recover_ok = false;
    let mut am = AudioManager::new(&dev, &speaker_only()).unwrap();
    let samples = vec![1i16, 2, 3, 4];
    let r = am.push(&mut dev, &samples);
    assert_eq!(r, Err(PushError::RecoverFailed));
    assert_eq!(dev.playback.recover_calls, 1);
    assert!(matches!(am.speaker.as_ref().unwrap().state, StreamState::Failed));
}

#[test]
fn write_error_recovers_like_an_xrun() {
    // An outright write error counts as zero frames moved: the recovery
    // protocol applies and a full retry ends the call normally.
    let mut dev = device();
    dev.playback.replies = vec![TransferReply::Error];
    let mut am = AudioManager::new(&dev, &speaker_only()).unwrap();
    let samples = vec![1i16, 2, 3, 4];
    let r = am.push(&mut dev, &samples);
    assert_eq!(r, Ok(true));
    assert_eq!(dev.playback.recover_calls, 1);
}

#[test]
fn pull_reads_full_buffer() {
    let mut dev = device();
    dev.capture.capture_sample = 7;
    let mut am = AudioManager::new(&dev, &microphone_only()).unwrap();
    let mut buffer = vec![0i16; 4];
    let n = am.pull(&mut dev, &mut buffer);
    assert_eq!(n, 4);
    assert_eq!(buffer, vec![7i16, 7, 7, 7]);
}

#[test]
fn pull_error_returns_zero() {
    // A read error is silently degraded to zero frames, never fatal: the
    // stream stays running and the buffer is untouched.
    let mut dev = device();
    dev.capture.replies = vec![TransferReply::Error];
    let mut am = AudioManager::new(&dev, &microphone_only()).unwrap();
    let mut buffer = vec![9i16; 4];
    let n = am.pull(&mut dev, &mut buffer);
    assert_eq!(n, 0);
    assert_eq!(buffer, vec![9i16, 9, 9, 9]);
    assert!(matches!(am.microphone.as_ref().unwrap().state, StreamState::Running));
    let n2 = am.pull(&mut dev, &mut buffer);
    assert_eq!(n2, 4);
}

#[test]
fn pull_partial_read_leaves_tail() {
    let mut dev = device();
    dev.capture.capture_sample = 5;
    dev.capture.replies = vec![TransferReply::Accept(2)];
    let mut am = AudioManager::new(&dev, &microphone_only()).unwrap();
    let mut buffer = vec![1i16; 4];
    let n = am.pull(&mut dev, &mut buffer);
    assert_eq!(n, 2);
    assert_eq!(buffer, vec![5i16, 5, 1, 1]);
}

#[test]
fn consecutive_pushes_consume_script_in_order() {
    let mut dev = device();
    dev.playback.replies = vec![TransferReply::Accept(4), TransferReply::Accept(1)];
    let mut am = AudioManager::new(&dev, &speaker_only()).unwrap();
    let samples = vec![1i16, 2, 3, 4];
    assert_eq!(am.push(&mut dev, &samples), Ok(false));
    assert_eq!(am.push(&mut dev, &samples), Ok(true));
    assert_eq!(dev.playback.recover_calls, 1);
}

#[test]
fn manager_with_no_streams() {
    let dev = device();
    let cfg = ManagerConfig { speaker: None, microphone: None };
    let am = AudioManager::new(&dev, &cfg).unwrap();
    assert!(am.speaker.is_none());
    assert!(am.microphone.is_none());
}

#[test]
fn empty_push_is_never_short() {
    let mut dev = device();
    let mut am = AudioManager::new(&dev, &speaker_only()).unwrap();
    let samples: Vec<i16> = Vec::new();
    assert_eq!(am.push(&mut dev, &samples), Ok(false));
    assert_eq!(dev.playback.recover_calls, 0);
}
