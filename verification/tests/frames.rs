use moq_bridge::error::{BridgeError, ErrorScope};
use moq_bridge::frame::{
    is_delta_unit, mark_keyframe, timestamp_from_parts, timestamp_parts, Frame, LocalBuffer,
    CLOCK_TIME_MAX, DELTA_UNIT, NANOS_PER_SECOND,
};
use moq_bridge::text::{copy_bytes, copy_optional_bytes, text_eq, text_starts_with};

#[test]
fn the_delta_unit_bit() {
    assert_eq!(DELTA_UNIT, 8192);
    assert_eq!(CLOCK_TIME_MAX, u64::MAX - 1);
    assert!(is_delta_unit(0x2000));
    assert!(is_delta_unit(0xffff_ffff));
    assert!(!is_delta_unit(0));
    assert!(!is_delta_unit(0x0200));
    assert!(!is_delta_unit(0xffff_dfff));
}

#[test]
fn keyframes_clear_the_bit_and_others_set_it() {
    assert_eq!(mark_keyframe(0, true), 0);
    assert_eq!(mark_keyframe(0, false), 0x2000);
    assert_eq!(mark_keyframe(0x2000, true), 0);
    assert_eq!(mark_keyframe(0x2000, false), 0x2000);
    assert_eq!(mark_keyframe(0x2240, true), 0x0240);
    assert_eq!(mark_keyframe(0x0240, false), 0x2240);
    assert_eq!(mark_keyframe(0xffff_ffff, true), 0xffff_dfff);
    assert_eq!(mark_keyframe(0xffff_dfff, false), 0xffff_ffff);
}

#[test]
fn a_keyframe_has_exactly_two_flag_states() {
    for flags in [0u32, 1, 0x200, 0x2000, 0x2200, 0x8000_0000, 0xffff_ffff] {
        for keyframe in [true, false] {
            let out = mark_keyframe(flags, keyframe);
            assert_eq!(is_delta_unit(out), !keyframe);
            assert_eq!(out & !DELTA_UNIT, flags & !DELTA_UNIT);
            assert!(out & DELTA_UNIT == 0 || out & DELTA_UNIT == DELTA_UNIT);
        }
        assert_ne!(mark_keyframe(flags, true), mark_keyframe(flags, false));
    }
}

#[test]
fn a_buffer_becomes_a_frame() {
    let buffer = LocalBuffer { pts: Some(40_000_000), flags: 0x2000, payload: vec![1, 2, 3] };
    assert_eq!(
        Frame::from_buffer(&buffer),
        Ok(Frame { timestamp: 40_000_000, keyframe: false, payload: vec![1, 2, 3] })
    );
    let key = LocalBuffer { pts: Some(0), flags: 0x0200, payload: vec![] };
    assert_eq!(Frame::from_buffer(&key), Ok(Frame { timestamp: 0, keyframe: true, payload: vec![] }));
    let late = LocalBuffer { pts: Some(u64::MAX), flags: 0, payload: vec![0; 4] };
    assert_eq!(
        Frame::from_buffer(&late),
        Ok(Frame { timestamp: u64::MAX, keyframe: true, payload: vec![0; 4] })
    );
}

#[test]
fn a_buffer_without_a_time_is_a_flow_error() {
    let buffer = LocalBuffer { pts: None, flags: 0, payload: vec![1] };
    assert_eq!(Frame::from_buffer(&buffer), Err(BridgeError::Flow));
}

#[test]
fn a_frame_becomes_a_buffer() {
    let frame = Frame { timestamp: 1_000, keyframe: true, payload: vec![7, 7] };
    assert_eq!(
        LocalBuffer::from_frame(frame, 33),
        LocalBuffer { pts: Some(33), flags: 0, payload: vec![7, 7] }
    );
    let delta = Frame { timestamp: 2_000, keyframe: false, payload: vec![] };
    assert_eq!(
        LocalBuffer::from_frame(delta, 0),
        LocalBuffer { pts: Some(0), flags: 0x2000, payload: vec![] }
    );
}

#[test]
fn a_buffer_survives_the_round_trip() {
    for flags in [0u32, 0x2000] {
        let buffer = LocalBuffer { pts: Some(123_456), flags, payload: vec![5, 4, 3, 2, 1] };
        let frame = Frame::from_buffer(&buffer).unwrap();
        let back = LocalBuffer::from_frame(frame, 123_456);
        assert_eq!(back, buffer);
    }
}

#[test]
fn errors_reach_as_far_as_they_should() {
    assert_eq!(BridgeError::Config.scope(), ErrorScope::Setup);
    assert_eq!(BridgeError::Connect.scope(), ErrorScope::Bridge);
    assert_eq!(BridgeError::NoCatalog.scope(), ErrorScope::Bridge);
    for e in [
        BridgeError::UnsupportedCodec,
        BridgeError::UnsupportedMediaKind,
        BridgeError::TrackIo,
        BridgeError::Flow,
        BridgeError::ProtocolViolation,
    ] {
        assert_eq!(e.scope(), ErrorScope::Track);
        assert!(e.is_track_local());
    }
    assert!(!BridgeError::Config.is_track_local());
    assert!(!BridgeError::Connect.is_track_local());
    assert!(!BridgeError::NoCatalog.is_track_local());
}

#[test]
fn texts_compare_character_for_character() {
    assert!(text_eq("", ""));
    assert!(text_eq("high", "high"));
    assert!(!text_eq("high", "High"));
    assert!(!text_eq("high", "hig"));
    assert!(!text_eq("3.1", "3.2"));
    assert!(text_eq("việt nam", "việt nam"));
    assert!(!text_eq("việt nam", "viet nam"));
}

#[test]
fn prefixes_are_found() {
    assert!(text_starts_with("video/x-h264", "video/"));
    assert!(text_starts_with("video/", "video/"));
    assert!(text_starts_with("anything", ""));
    assert!(!text_starts_with("video", "video/"));
    assert!(!text_starts_with("audio/x-opus", "video/"));
    assert!(!text_starts_with("", "a"));
    assert!(text_starts_with("việt nam", "việ"));
}

#[test]
fn bytes_are_copied() {
    assert_eq!(copy_bytes(&vec![]), Vec::<u8>::new());
    assert_eq!(copy_bytes(&vec![1, 2, 3]), vec![1, 2, 3]);
    assert_eq!(copy_optional_bytes(&None), None);
    assert_eq!(copy_optional_bytes(&Some(vec![0, 255])), Some(vec![0, 255]));
}

#[test]
fn spans_become_time_stamps() {
    assert_eq!(NANOS_PER_SECOND, 1_000_000_000);
    assert_eq!(timestamp_from_parts(0, 0), Some(0));
    assert_eq!(timestamp_from_parts(1, 500), Some(1_000_000_500));
    assert_eq!(timestamp_from_parts(0, 999_999_999), Some(999_999_999));
    assert_eq!(timestamp_from_parts(1, 33_000_000), Some(1_033_000_000));
    assert_eq!(timestamp_from_parts(18_446_744_073, 709_551_615), Some(u64::MAX));
    assert_eq!(timestamp_from_parts(18_446_744_073, 709_551_616), None);
    assert_eq!(timestamp_from_parts(18_446_744_074, 0), None);
    assert_eq!(timestamp_from_parts(u64::MAX, 0), None);
    assert_eq!(timestamp_from_parts(0, u32::MAX), Some(4_294_967_295));
}

#[test]
fn time_stamps_become_spans() {
    assert_eq!(timestamp_parts(0), (0, 0));
    assert_eq!(timestamp_parts(999_999_999), (0, 999_999_999));
    assert_eq!(timestamp_parts(1_000_000_000), (1, 0));
    assert_eq!(timestamp_parts(1_033_000_000), (1, 33_000_000));
    assert_eq!(timestamp_parts(u64::MAX), (18_446_744_073, 709_551_615));
    for stamp in [0u64, 1, 999_999_999, 1_000_000_000, 1_234_567_890_123, u64::MAX] {
        let (seconds, nanos) = timestamp_parts(stamp);
        assert!(nanos < 1_000_000_000);
        assert_eq!(timestamp_from_parts(seconds, nanos), Some(stamp));
    }
}

#[test]
fn every_error_has_its_cause_in_words() {
    let all = [
        BridgeError::Config,
        BridgeError::Connect,
        BridgeError::UnsupportedCodec,
        BridgeError::UnsupportedMediaKind,
        BridgeError::NoCatalog,
        BridgeError::TrackIo,
        BridgeError::Flow,
        BridgeError::ProtocolViolation,
    ];
    for (i, a) in all.iter().enumerate() {
        assert!(!a.message().is_empty());
        for b in all.iter().skip(i + 1) {
            assert_ne!(a.message(), b.message());
        }
    }
    assert_eq!(BridgeError::NoCatalog.message(), "the broadcast has no catalog");
}
