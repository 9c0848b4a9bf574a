use voice_capture::decode::{decode, sample_kind, NativeFormat, RawBlock, SampleKind};
use voice_capture::error::CaptureError;
use voice_capture::resample::{needs_conversion, resample_block, target_frames};

#[test]
fn decode_reaches_full_scale() {
    assert_eq!(decode(&RawBlock::I8(vec![i8::MIN, 0, i8::MAX])), vec![i32::MIN, 0, 127 << 24]);
    assert_eq!(decode(&RawBlock::I16(vec![i16::MIN, 1, i16::MAX])), vec![i32::MIN, 65536, 32767 << 16]);
    assert_eq!(decode(&RawBlock::I32(vec![i32::MIN, -5, i32::MAX])), vec![i32::MIN, -5, i32::MAX]);
    assert!(i32::MAX - (127 << 24) < (1 << 24));
    assert!(i32::MAX - (32767 << 16) < (1 << 16));
}

#[test]
fn decode_empty_block() {
    assert_eq!(decode(&RawBlock::I16(vec![])), Vec::<i32>::new());
}

#[test]
fn supported_formats() {
    assert_eq!(sample_kind(NativeFormat::I8), Ok(SampleKind::I8));
    assert_eq!(sample_kind(NativeFormat::I16), Ok(SampleKind::I16));
    assert_eq!(sample_kind(NativeFormat::I32), Ok(SampleKind::I32));
    assert_eq!(sample_kind(NativeFormat::F32), Ok(SampleKind::F32));
}

#[test]
fn unsupported_formats() {
    for f in [
        NativeFormat::U8,
        NativeFormat::U16,
        NativeFormat::U32,
        NativeFormat::U64,
        NativeFormat::I64,
        NativeFormat::F64,
    ] {
        assert_eq!(sample_kind(f), Err(CaptureError::UnsupportedFormat));
    }
}

#[test]
fn target_frames_rounds_to_nearest() {
    assert_eq!(target_frames(4410, 44100, 10000), 1000);
    assert_eq!(target_frames(441, 44100, 16000), 160);
    assert_eq!(target_frames(3, 2, 1), 2);
    assert_eq!(target_frames(1, 3, 1), 0);
    assert_eq!(target_frames(100, 48000, 48000), 100);
}

#[test]
fn equal_rates_are_identity() {
    let input = vec![1, -2, 3, -4];
    assert!(!needs_conversion(16000, 16000, 2));
    assert_eq!(resample_block(input.clone(), 16000, 16000, 2, None), input);
    assert_eq!(resample_block(input.clone(), 16000, 16000, 2, Some(vec![9])), input);
}

#[test]
fn invalid_rates_give_nothing() {
    assert!(!needs_conversion(0, 16000, 1));
    assert!(!needs_conversion(16000, 0, 1));
    assert!(!needs_conversion(16000, 8000, 0));
    assert_eq!(resample_block(vec![1, 2], 0, 16000, 1, Some(vec![1])), Vec::<i32>::new());
    assert_eq!(resample_block(vec![1, 2], 16000, 16000, 0, None), Vec::<i32>::new());
}

#[test]
fn failed_conversion_gives_nothing() {
    assert!(needs_conversion(48000, 16000, 1));
    assert_eq!(resample_block(vec![1, 2, 3], 48000, 16000, 1, None), Vec::<i32>::new());
}

#[test]
fn conversion_within_one_frame_is_kept() {
    let input: Vec<i32> = (0..6).collect();
    // 3 stereo frames at 48 kHz are 1 frame at 16 kHz.
    assert_eq!(resample_block(input.clone(), 48000, 16000, 2, Some(vec![7, 8])), vec![7, 8]);
    assert_eq!(resample_block(input.clone(), 48000, 16000, 2, Some(vec![7, 8, 9, 10])), vec![7, 8, 9, 10]);
    assert_eq!(resample_block(input.clone(), 48000, 16000, 2, Some(vec![])), Vec::<i32>::new());
}

#[test]
fn conversion_off_the_duration_is_dropped() {
    let input: Vec<i32> = (0..6).collect();
    assert_eq!(resample_block(input.clone(), 48000, 16000, 2, Some(vec![1, 2, 3, 4, 5, 6])), Vec::<i32>::new());
    assert_eq!(resample_block(input, 48000, 16000, 2, Some(vec![1, 2, 3])), Vec::<i32>::new());
}
