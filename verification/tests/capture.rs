use hear_one_device::capture::CaptureStream;
use hear_one_device::capture_android;
use hear_one_device::capture_linux::{capture_sound, frame_action, FrameAction, CHANNELS, SAMPLE_RATE};
use hear_one_device::capture_win::{output_device, sample_frame, samples_to_le_bytes};
use hear_one_device::AudioConfig;

#[test]
fn linux_plan_uses_monitor_of_default_sink() {
    let plan = capture_sound(b"alsa_output.pci-0000_00_1f.3.analog-stereo\n".to_vec()).unwrap();
    assert_eq!(
        plan.monitor_source,
        "alsa_output.pci-0000_00_1f.3.analog-stereo.monitor"
    );
    assert_eq!(plan.config, AudioConfig::new(48000, 2));
    assert_eq!(plan.config, AudioConfig { sample_rate: SAMPLE_RATE, channels: CHANNELS });
    assert_eq!(plan.read_buffer_len, 8192);
}

#[test]
fn linux_plan_trims_surrounding_white_space() {
    let plan = capture_sound("  \t sink one \r\n".as_bytes().to_vec()).unwrap();
    assert_eq!(plan.monitor_source, "sink one.monitor");
    let plan = capture_sound("\u{3000}싱크\u{a0}".as_bytes().to_vec()).unwrap();
    assert_eq!(plan.monitor_source, "싱크.monitor");
}

#[test]
fn linux_plan_of_empty_output() {
    let plan = capture_sound(Vec::new()).unwrap();
    assert_eq!(plan.monitor_source, ".monitor");
}

#[test]
fn linux_plan_refuses_invalid_utf8() {
    let bytes = vec![b's', 0xff, b'k'];
    let err = capture_sound(bytes.clone()).unwrap_err();
    assert_eq!(err, String::from_utf8(bytes).unwrap_err().to_string());
}

#[test]
fn failed_read_stops_the_capture() {
    assert!(matches!(frame_action(false, &[1, 2, 3], 5), FrameAction::Stop));
    assert!(matches!(frame_action(false, &[], 0), FrameAction::Stop));
}

#[test]
fn chunk_without_receivers_is_skipped() {
    assert!(matches!(frame_action(true, &[1, 2, 3], 0), FrameAction::Skip));
}

#[test]
fn chunk_with_receivers_is_copied() {
    let buf = [9u8, 8, 7, 6, 5];
    match frame_action(true, &buf, 2) {
        FrameAction::Forward(b) => assert_eq!(&b[..], &buf[..]),
        other => panic!("unexpected {:?}", other),
    }
}

#[test]
fn samples_are_little_endian() {
    let one = 1.0f32.to_bits();
    let minus_half = (-0.5f32).to_bits();
    let bytes = samples_to_le_bytes(&[one, minus_half, 0x0102_0304]);
    let mut expected = Vec::new();
    expected.extend_from_slice(&1.0f32.to_le_bytes());
    expected.extend_from_slice(&(-0.5f32).to_le_bytes());
    expected.extend_from_slice(&[4, 3, 2, 1]);
    assert_eq!(bytes, expected);
    assert_eq!(samples_to_le_bytes(&[]), Vec::<u8>::new());
}

#[test]
fn samples_read_back_from_their_bytes() {
    let samples = [0u32, 1, 0xdead_beef, u32::MAX, 0.25f32.to_bits()];
    let bytes = samples_to_le_bytes(&samples);
    assert_eq!(bytes.len(), 4 * samples.len());
    for (i, s) in samples.iter().enumerate() {
        let b = &bytes[4 * i..4 * i + 4];
        assert_eq!(u32::from_le_bytes([b[0], b[1], b[2], b[3]]), *s);
    }
}

#[test]
fn sample_frame_only_with_receivers() {
    assert!(sample_frame(&[1, 2], 0).is_none());
    let frame = sample_frame(&[0x0a0b_0c0d], 1).unwrap();
    assert_eq!(&frame[..], &[0x0d, 0x0c, 0x0b, 0x0a]);
}

#[test]
fn missing_output_device_is_refused() {
    assert_eq!(output_device::<u8>(None), Err("출력 장치를 찾을 수 없습니다".to_string()));
    assert_eq!(output_device(Some(3u8)), Ok(3));
}

#[test]
fn android_capture_is_unsupported() {
    assert_eq!(
        capture_android::capture_sound(),
        Err("Android에서는 오디오 캡처가 아직 지원되지 않습니다".to_string())
    );
}

#[test]
fn stop_capture_releases_the_stream() {
    let mut slot: CaptureStream<u32> = CaptureStream::new();
    assert!(!slot.is_capturing());
    assert_eq!(slot.install(7), None);
    assert!(slot.is_capturing());
    assert_eq!(slot.install(8), Some(7));
    assert_eq!(slot.stop_capture(), Some(8));
    assert!(!slot.is_capturing());
    assert_eq!(slot.stop_capture(), None);
    assert!(!slot.is_capturing());
}
