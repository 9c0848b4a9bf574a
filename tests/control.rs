use voice_capture::capture::{new_window_buffer, write_input_data, CaptureController, CaptureState};
use voice_capture::cli::{get_possible_formats, is_cli_detected};
use voice_capture::decode::{decode, sample_kind, NativeFormat, RawBlock, SampleKind};
use voice_capture::device::{list_devices, parse_ordinal, resolve};
use voice_capture::error::CaptureError;
use voice_capture::resample::needs_conversion;
use voice_capture::ring::SampleRing;

fn names(n: usize) -> Vec<String> {
    (0..n).map(|i| format!("mic {}", i)).collect()
}

#[test]
fn devices_get_positional_ids() {
    let devices = list_devices(&names(12));
    assert_eq!(devices.len(), 12);
    assert_eq!(devices[0].id, "0");
    assert_eq!(devices[2].id, "2");
    assert_eq!(devices[11].id, "11");
    assert_eq!(devices[11].name, "mic 11");
    for (i, d) in devices.iter().enumerate() {
        assert_eq!(resolve(&d.id, devices.len()), Ok(i));
    }
}

#[test]
fn resolve_out_of_range() {
    let devices = list_devices(&names(3));
    assert_eq!(resolve("99", devices.len()), Err(CaptureError::DeviceNotFound));
    assert_eq!(resolve("3", devices.len()), Err(CaptureError::DeviceNotFound));
    assert_eq!(resolve("0", 0), Err(CaptureError::DeviceNotFound));
}

#[test]
fn resolve_rejects_non_ordinals() {
    for id in ["", "abc", "-1", "1.0", " 1", "+", "1a", "99999999999999999999999"] {
        assert_eq!(resolve(id, 3), Err(CaptureError::InvalidDeviceId), "{}", id);
    }
    assert_eq!(resolve("+2", 3), Ok(2));
    assert_eq!(resolve("007", 8), Ok(7));
}

#[test]
fn parse_ordinal_matches_std() {
    for id in ["0", "42", "+9", "18446744073709551615", "18446744073709551616", "x", ""] {
        assert_eq!(parse_ordinal(id), id.parse::<usize>().ok(), "{}", id);
    }
}

#[test]
fn pause_when_idle_fails() {
    let mut ctl: CaptureController<u32> = CaptureController::new();
    assert_eq!(ctl.state(), CaptureState::Idle);
    assert_eq!(ctl.pause(), Err(CaptureError::NoActiveStream));
    assert_eq!(ctl.state(), CaptureState::Idle);
    assert!(!ctl.is_capturing());
}

#[test]
fn start_twice_keeps_one_stream() {
    let mut ctl: CaptureController<u32> = CaptureController::new();
    assert_eq!(ctl.start(1), None);
    assert_eq!(ctl.start(2), Some(1));
    assert_eq!(ctl.active_stream(), Some(&2));
    assert_eq!(ctl.state(), CaptureState::Capturing);
    assert!(ctl.is_capturing());
    assert_eq!(ctl.pause(), Ok(()));
    assert_eq!(ctl.state(), CaptureState::Paused);
    assert!(!ctl.is_capturing());
    assert_eq!(ctl.active_stream(), Some(&2));
    assert_eq!(ctl.start(3), Some(2));
    assert_eq!(ctl.teardown(), Some(3));
    assert_eq!(ctl.state(), CaptureState::Idle);
    assert_eq!(ctl.pause(), Err(CaptureError::NoActiveStream));
}

#[test]
fn key_held_flag() {
    let mut ctl: CaptureController<u32> = CaptureController::new();
    assert!(!ctl.is_key_held());
    ctl.set_key_held(true);
    assert!(ctl.is_key_held());
    assert_eq!(ctl.state(), CaptureState::Idle);
    ctl.start(5);
    ctl.set_key_held(false);
    assert!(!ctl.is_key_held());
    assert_eq!(ctl.state(), CaptureState::Capturing);
}

#[test]
fn sine_block_is_resampled_into_the_buffer() {
    let devices = list_devices(&names(3));
    let index = resolve(&devices[0].id, devices.len()).unwrap();
    assert_eq!(index, 0);
    assert_eq!(sample_kind(NativeFormat::I16), Ok(SampleKind::I16));
    let mut ctl: CaptureController<usize> = CaptureController::new();
    assert_eq!(ctl.start(index), None);

    let native: Vec<i16> = (0..4410)
        .map(|i| ((i as f64 * 2.0 * std::f64::consts::PI * 441.0 / 44100.0).sin() * 16000.0) as i16)
        .collect();
    let decoded = decode(&RawBlock::I16(native.clone()));
    assert_eq!(decoded.len(), 4410);
    assert!(needs_conversion(44100, 10000, 1));
    // A converter's output for 4410 frames at 44.1 kHz taken to 10 kHz: 1000 frames.
    let converted: Vec<i32> = (0..1000).map(|k| decoded[k * 4410 / 1000]).collect();
    let mut ring = new_window_buffer();
    write_input_data(&mut ring, decoded, 44100, 10000, 1, Some(converted.clone()));
    assert_eq!(ring.len(), 1000);
    assert_eq!(ring.drain_all(), converted);
}

#[test]
fn unsupported_device_format_leaves_everything() {
    let mut ring = SampleRing::new(16);
    ring.push_all(&vec![4, 5]);
    let ctl: CaptureController<u32> = CaptureController::new();
    assert_eq!(sample_kind(NativeFormat::U8), Err(CaptureError::UnsupportedFormat));
    assert_eq!(ctl.state(), CaptureState::Idle);
    assert_eq!(ring.drain_all(), vec![4, 5]);
}

#[test]
fn write_input_data_appends_after_older_audio() {
    let mut ring = SampleRing::new(4);
    ring.push_all(&vec![1, 2, 3]);
    write_input_data(&mut ring, vec![10, 20], 16000, 16000, 1, None);
    assert_eq!(ring.drain_all(), vec![2, 3, 10, 20]);
    write_input_data(&mut ring, vec![10, 20], 16000, 8000, 1, None);
    assert_eq!(ring.len(), 0);
}

#[test]
fn formats_listed() {
    assert_eq!(get_possible_formats(), vec!["txt".to_string(), "srt".to_string(), "vtt".to_string()]);
}

#[test]
fn cli_flags() {
    let args = |v: &[&str]| v.iter().map(|s| s.to_string()).collect::<Vec<String>>();
    assert!(is_cli_detected(&args(&["vibe", "--model", "m.bin"])));
    assert!(is_cli_detected(&args(&["vibe", "-h"])));
    assert!(!is_cli_detected(&args(&["vibe", "-m", "-hh", "h"])));
    assert!(!is_cli_detected(&args(&[])));
    assert!(is_cli_detected(&args(&["--"])));
}
