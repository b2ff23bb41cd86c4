use moq_bridge::catalog::{AudioCodec, Catalog, Media, TrackDescriptor, VideoCodec, H264};
use moq_bridge::error::BridgeError;
use moq_bridge::frame::{Frame, LocalBuffer, CLOCK_TIME_MAX};
use moq_bridge::h264::{level_id, profile_id};
use moq_bridge::negotiate::{describe, LocalCapability};
use moq_bridge::session::Settings;
use moq_bridge::subscribe::{
    lifecycle_action, plan_ports, LifecycleAction, PortPlan, PortTemplate, ReadAction,
    ReadOutcome, ReaderState, SubscribeBridge, SubscribeState, TrackReader, TrackSetup,
    Transition,
};

const MS: u64 = 1_000_000;

fn frame(timestamp: u64, keyframe: bool) -> Frame {
    Frame { timestamp, keyframe, payload: vec![timestamp as u8, 1, 2] }
}

fn pushed(timestamp: u64, keyframe: bool, pts: u64) -> ReadAction {
    ReadAction::Push(LocalBuffer {
        pts: Some(pts),
        flags: if keyframe { 0 } else { 0x2000 },
        payload: vec![timestamp as u8, 1, 2],
    })
}

fn video(name: &str, profile: u8, level: u8) -> TrackDescriptor {
    TrackDescriptor {
        name: name.to_string(),
        priority: 2,
        media: Media::Video {
            codec: VideoCodec::H264(H264 { profile, constraints: 0, level }),
            width: 1280,
            height: 720,
        },
        bitrate: None,
        description: None,
    }
}

fn audio(name: &str) -> TrackDescriptor {
    TrackDescriptor {
        name: name.to_string(),
        priority: 1,
        media: Media::Audio { codec: AudioCodec::Opus, sample_rate: 48_000, channel_count: 2 },
        bitrate: None,
        description: None,
    }
}

fn h264_caps(profile: &str, level: &str) -> LocalCapability {
    LocalCapability {
        media_type: "video/x-h264".to_string(),
        profile: Some(profile.to_string()),
        level: Some(level.to_string()),
        constraints: 0,
        width: 1280,
        height: 720,
        sample_rate: 0,
        channels: 0,
        codec_data: None,
    }
}

fn opus_caps() -> LocalCapability {
    LocalCapability {
        media_type: "audio/x-opus".to_string(),
        profile: None,
        level: None,
        constraints: 0,
        width: 0,
        height: 0,
        sample_rate: 48_000,
        channels: 2,
        codec_data: None,
    }
}

fn active(catalog: &Catalog) -> SubscribeBridge {
    let mut bridge = SubscribeBridge::new();
    let settings = Settings {
        url: Some("https://relay.example.com/demo".to_string()),
        broadcast: String::new(),
        tls_disable_verify: false,
    };
    bridge.start(&settings).unwrap();
    bridge.on_session_ready(Some(catalog)).unwrap();
    bridge
}

#[test]
fn the_first_frame_is_at_zero() {
    for first in [0u64, 1, 1_000 * MS, u64::MAX / 2, u64::MAX - 1, u64::MAX] {
        let mut reader = TrackReader::new();
        assert_eq!(reader.on_read(ReadOutcome::Frame(frame(first, true))), pushed(first, true, 0));
        assert_eq!(reader.reference, Some(first));
        assert_eq!(reader.state, ReaderState::Reading);
    }
}

#[test]
fn later_frames_are_relative_to_the_first() {
    let mut reader = TrackReader::new();
    let stamps = [1_000 * MS, 1_033 * MS, 1_066 * MS, 1_066 * MS, 2_000 * MS, 1_500 * MS];
    let expected = [0, 33 * MS, 66 * MS, 66 * MS, 1_000 * MS, 500 * MS];
    for (stamp, pts) in stamps.iter().zip(expected.iter()) {
        assert_eq!(
            reader.on_read(ReadOutcome::Frame(frame(*stamp, false))),
            pushed(*stamp, false, *pts)
        );
    }
    assert_eq!(reader.reference, Some(1_000 * MS));
}

#[test]
fn local_times() {
    let mut reader = TrackReader::new();
    assert_eq!(reader.local_time(5_000), Ok(0));
    assert_eq!(reader.local_time(5_000), Ok(0));
    assert_eq!(reader.local_time(5_001), Ok(1));
    assert_eq!(reader.local_time(u64::MAX), Ok(u64::MAX - 5_000));
    assert_eq!(reader.local_time(4_999), Err(BridgeError::TrackIo));
    assert_eq!(reader.local_time(0), Err(BridgeError::TrackIo));
    assert_eq!(reader.reference, Some(5_000));
    assert_eq!(reader.state, ReaderState::Reading);
}

#[test]
fn a_local_time_beyond_the_clock_is_refused() {
    let mut reader = TrackReader::new();
    assert_eq!(reader.local_time(0), Ok(0));
    assert_eq!(reader.local_time(CLOCK_TIME_MAX), Ok(CLOCK_TIME_MAX));
    assert_eq!(reader.local_time(u64::MAX), Err(BridgeError::TrackIo));
    let mut late = TrackReader::new();
    assert_eq!(late.local_time(1), Ok(0));
    assert_eq!(late.local_time(u64::MAX), Ok(CLOCK_TIME_MAX));
}

#[test]
fn a_frame_older_than_the_first_fails_the_track() {
    let mut reader = TrackReader::new();
    reader.on_read(ReadOutcome::Frame(frame(1_000, true)));
    assert_eq!(
        reader.on_read(ReadOutcome::Frame(frame(999, false))),
        ReadAction::Fail(BridgeError::TrackIo)
    );
    assert_eq!(reader.state, ReaderState::Failed);
    assert_eq!(reader.on_read(ReadOutcome::Frame(frame(2_000, true))), ReadAction::Stop);
}

#[test]
fn keyframes_map_to_the_flag() {
    let mut reader = TrackReader::new();
    assert_eq!(reader.on_read(ReadOutcome::Frame(frame(10, true))), pushed(10, true, 0));
    assert_eq!(reader.on_read(ReadOutcome::Frame(frame(20, false))), pushed(20, false, 10));
    assert_eq!(reader.on_read(ReadOutcome::Frame(frame(30, true))), pushed(30, true, 20));
}

#[test]
fn the_end_of_a_track_is_not_an_error() {
    let mut reader = TrackReader::new();
    reader.on_read(ReadOutcome::Frame(frame(10, true)));
    assert_eq!(reader.on_read(ReadOutcome::EndOfTrack), ReadAction::EndOfStream);
    assert_eq!(reader.state, ReaderState::Ended);
    assert_eq!(reader.on_read(ReadOutcome::Frame(frame(20, true))), ReadAction::Stop);
    assert_eq!(reader.on_read(ReadOutcome::EndOfTrack), ReadAction::Stop);
    assert_eq!(reader.on_read(ReadOutcome::Failed), ReadAction::Stop);
    assert_eq!(reader.state, ReaderState::Ended);

    let mut empty = TrackReader::new();
    assert_eq!(empty.on_read(ReadOutcome::EndOfTrack), ReadAction::EndOfStream);
    assert_eq!(empty.reference, None);
}

#[test]
fn a_failed_read_is_reported() {
    let mut reader = TrackReader::new();
    assert_eq!(reader.on_read(ReadOutcome::Failed), ReadAction::Fail(BridgeError::TrackIo));
    assert_eq!(reader.state, ReaderState::Failed);
    assert_eq!(reader.on_read(ReadOutcome::Failed), ReadAction::Stop);
}

#[test]
fn every_track_gets_a_port_in_catalog_order() {
    let catalog = Catalog {
        video: vec![video("v0", 100, 31), video("v1", 66, 9)],
        audio: vec![audio("a0")],
    };
    assert_eq!(
        plan_ports(&catalog),
        vec![
            TrackSetup::Port(PortPlan {
                name: "v0".to_string(),
                template: PortTemplate::Video,
                caps: h264_caps("high", "3.1"),
            }),
            TrackSetup::Port(PortPlan {
                name: "v1".to_string(),
                template: PortTemplate::Video,
                caps: h264_caps("baseline", "1b"),
            }),
            TrackSetup::Port(PortPlan {
                name: "a0".to_string(),
                template: PortTemplate::Audio,
                caps: opus_caps(),
            }),
        ]
    );
    assert_eq!(plan_ports(&Catalog::new()), vec![]);
}

#[test]
fn port_templates_have_names() {
    assert_eq!(PortTemplate::Video.name(), "video_%u");
    assert_eq!(PortTemplate::Audio.name(), "audio_%u");
}

#[test]
fn a_track_that_cannot_be_carried_does_not_stop_the_others() {
    let mut odd = video("v1", 100, 31);
    odd.media = Media::Video { codec: VideoCodec::Other, width: 1, height: 1 };
    let catalog = Catalog {
        video: vec![video("v0", 110, 31), odd, video("v2", 77, 40)],
        audio: vec![audio("v2"), audio("a0")],
    };
    let setups = plan_ports(&catalog);
    assert_eq!(setups.len(), 5);
    assert_eq!(
        setups[0],
        TrackSetup::Rejected { name: "v0".to_string(), error: BridgeError::UnsupportedCodec }
    );
    assert_eq!(
        setups[1],
        TrackSetup::Rejected { name: "v1".to_string(), error: BridgeError::UnsupportedCodec }
    );
    assert_eq!(
        setups[2],
        TrackSetup::Port(PortPlan {
            name: "v2".to_string(),
            template: PortTemplate::Video,
            caps: h264_caps("main", "4"),
        })
    );
    assert_eq!(
        setups[3],
        TrackSetup::Rejected { name: "v2".to_string(), error: BridgeError::ProtocolViolation }
    );
    assert_eq!(
        setups[4],
        TrackSetup::Port(PortPlan {
            name: "a0".to_string(),
            template: PortTemplate::Audio,
            caps: opus_caps(),
        })
    );
}

#[test]
fn without_a_catalog_there_is_nothing_to_subscribe_to() {
    let mut bridge = SubscribeBridge::new();
    let settings = Settings {
        url: Some("https://relay.example.com/demo".to_string()),
        broadcast: String::new(),
        tls_disable_verify: false,
    };
    assert!(bridge.start(&settings).is_ok());
    assert_eq!(bridge.state(), SubscribeState::Connecting);
    assert_eq!(bridge.on_session_ready(None), Err(BridgeError::NoCatalog));
    assert_eq!(bridge.state(), SubscribeState::Closed);
    assert_eq!(bridge.failure(), Some(BridgeError::NoCatalog));
    assert_eq!(bridge.track_count(), 0);
    assert_eq!(bridge.on_session_ready(Some(&Catalog::new())), Err(BridgeError::ProtocolViolation));
}

#[test]
fn a_subscriber_starts_once() {
    let mut bridge = SubscribeBridge::new();
    assert_eq!(bridge.state(), SubscribeState::Idle);
    assert_eq!(bridge.failure(), None);
    assert_eq!(
        bridge.on_session_ready(Some(&Catalog::new())),
        Err(BridgeError::ProtocolViolation)
    );
    assert_eq!(bridge.state(), SubscribeState::Idle);
    let settings = Settings {
        url: Some("https://relay.example.com/demo".to_string()),
        broadcast: String::new(),
        tls_disable_verify: true,
    };
    let plan = bridge.start(&settings).unwrap();
    assert_eq!(plan.path, "demo");
    assert!(!plan.tls_verify);
    assert_eq!(bridge.start(&settings), Err(BridgeError::ProtocolViolation));
    assert_eq!(bridge.state(), SubscribeState::Connecting);
}

#[test]
fn an_invalid_url_leaves_the_subscriber_idle() {
    let mut bridge = SubscribeBridge::new();
    let settings =
        Settings { url: Some("not a url".to_string()), broadcast: String::new(), tls_disable_verify: false };
    assert_eq!(bridge.start(&settings), Err(BridgeError::Config));
    assert_eq!(bridge.state(), SubscribeState::Idle);
    assert_eq!(bridge.failure(), None);
    assert_eq!(bridge.track_count(), 0);
}

#[test]
fn a_failed_connection_closes_the_subscriber() {
    let mut bridge = SubscribeBridge::new();
    bridge.on_session_failed();
    assert_eq!(bridge.state(), SubscribeState::Idle);
    let settings = Settings {
        url: Some("https://relay.example.com/demo".to_string()),
        broadcast: String::new(),
        tls_disable_verify: false,
    };
    bridge.start(&settings).unwrap();
    bridge.on_session_failed();
    assert_eq!(bridge.state(), SubscribeState::Closed);
    assert_eq!(bridge.failure(), Some(BridgeError::Connect));
    assert_eq!(
        bridge.on_session_ready(Some(&Catalog::new())),
        Err(BridgeError::ProtocolViolation)
    );
}

#[test]
fn one_port_named_v0_with_three_frames() {
    let caps = h264_caps("high", "3.1");
    let track = describe("v0", 0, &caps).unwrap();
    assert_eq!(
        track.media,
        Media::Video {
            codec: VideoCodec::H264(H264 { profile: 100, constraints: 0, level: 31 }),
            width: 1280,
            height: 720,
        }
    );
    let catalog = Catalog { video: vec![track], audio: vec![] };

    let mut bridge = SubscribeBridge::new();
    let settings = Settings {
        url: Some("https://relay.example.com/demo".to_string()),
        broadcast: String::new(),
        tls_disable_verify: false,
    };
    bridge.start(&settings).unwrap();
    let setups = bridge.on_session_ready(Some(&catalog)).unwrap();
    assert_eq!(
        setups,
        vec![TrackSetup::Port(PortPlan {
            name: "v0".to_string(),
            template: PortTemplate::Video,
            caps: h264_caps("high", "3.1"),
        })]
    );
    match &setups[0] {
        TrackSetup::Port(port) => {
            assert_eq!(port.name, "v0");
            assert_eq!(profile_id(port.caps.profile.as_deref().unwrap()), Some(100));
            assert_eq!(level_id(port.caps.level.as_deref().unwrap()), Some(31));
            assert_eq!((port.caps.width, port.caps.height), (1280, 720));
        }
        other => panic!("unexpected setup {:?}", other),
    }
    assert_eq!(bridge.state(), SubscribeState::Active);
    assert_eq!(bridge.track_count(), 1);

    assert_eq!(
        bridge.on_read(0, ReadOutcome::Frame(frame(1_000 * MS, true))),
        pushed(1_000 * MS, true, 0)
    );
    assert_eq!(
        bridge.on_read(0, ReadOutcome::Frame(frame(1_033 * MS, false))),
        pushed(1_033 * MS, false, 33 * MS)
    );
    assert_eq!(
        bridge.on_read(0, ReadOutcome::Frame(frame(1_066 * MS, false))),
        pushed(1_066 * MS, false, 66 * MS)
    );
}

#[test]
fn each_track_has_its_own_zero() {
    let catalog = Catalog { video: vec![video("v0", 100, 31)], audio: vec![audio("a0")] };
    let mut bridge = active(&catalog);
    assert_eq!(bridge.on_read(1, ReadOutcome::Frame(frame(700, true))), pushed(700, true, 0));
    assert_eq!(bridge.on_read(0, ReadOutcome::Frame(frame(90, true))), pushed(90, true, 0));
    assert_eq!(bridge.on_read(0, ReadOutcome::Frame(frame(100, false))), pushed(100, false, 10));
    assert_eq!(bridge.on_read(1, ReadOutcome::Frame(frame(705, true))), pushed(705, true, 5));
    assert_eq!(
        bridge.reader(0),
        Some(TrackReader { state: ReaderState::Reading, reference: Some(90) })
    );
    assert_eq!(
        bridge.reader(1),
        Some(TrackReader { state: ReaderState::Reading, reference: Some(700) })
    );
    assert_eq!(bridge.reader(2), None);
}

#[test]
fn a_failure_on_one_track_leaves_the_others_running() {
    let catalog = Catalog {
        video: vec![video("v0", 100, 31), video("v1", 77, 30)],
        audio: vec![audio("a0")],
    };
    let mut bridge = active(&catalog);
    for index in 0..3 {
        assert_eq!(bridge.on_read(index, ReadOutcome::Frame(frame(50, true))), pushed(50, true, 0));
    }
    assert_eq!(bridge.on_read(1, ReadOutcome::Failed), ReadAction::Fail(BridgeError::TrackIo));
    assert_eq!(bridge.state(), SubscribeState::Active);
    assert_eq!(bridge.failure(), None);
    assert_eq!(bridge.on_read(1, ReadOutcome::Frame(frame(60, true))), ReadAction::Stop);
    assert_eq!(bridge.on_read(0, ReadOutcome::Frame(frame(60, false))), pushed(60, false, 10));
    assert_eq!(bridge.on_read(2, ReadOutcome::Frame(frame(70, false))), pushed(70, false, 20));
    assert_eq!(bridge.on_read(0, ReadOutcome::EndOfTrack), ReadAction::EndOfStream);
    assert_eq!(bridge.on_read(2, ReadOutcome::Frame(frame(80, true))), pushed(80, true, 30));
}

#[test]
fn a_rejected_track_has_no_reader() {
    let catalog = Catalog { video: vec![video("v0", 1, 1), video("v1", 100, 31)], audio: vec![] };
    let mut bridge = active(&catalog);
    assert_eq!(bridge.track_count(), 2);
    assert_eq!(bridge.reader(0), Some(TrackReader { state: ReaderState::Failed, reference: None }));
    assert_eq!(bridge.on_read(0, ReadOutcome::Frame(frame(1, true))), ReadAction::Stop);
    assert_eq!(bridge.on_read(1, ReadOutcome::Frame(frame(1, true))), pushed(1, true, 0));
}

#[test]
fn reads_for_unknown_tracks_are_stopped() {
    let catalog = Catalog { video: vec![video("v0", 100, 31)], audio: vec![] };
    let mut bridge = active(&catalog);
    assert_eq!(bridge.on_read(1, ReadOutcome::Frame(frame(1, true))), ReadAction::Stop);
    assert_eq!(bridge.on_read(usize::MAX, ReadOutcome::EndOfTrack), ReadAction::Stop);
    let mut idle = SubscribeBridge::new();
    assert_eq!(idle.on_read(0, ReadOutcome::Frame(frame(1, true))), ReadAction::Stop);
}

#[test]
fn nothing_is_pushed_after_a_teardown() {
    let catalog = Catalog { video: vec![video("v0", 100, 31)], audio: vec![audio("a0")] };
    let mut bridge = active(&catalog);
    bridge.on_read(0, ReadOutcome::Frame(frame(10, true)));
    bridge.on_read(1, ReadOutcome::EndOfTrack);
    bridge.stop();
    assert_eq!(bridge.state(), SubscribeState::Closed);
    assert_eq!(bridge.failure(), None);
    assert_eq!(
        bridge.reader(0),
        Some(TrackReader { state: ReaderState::Cancelled, reference: Some(10) })
    );
    assert_eq!(bridge.reader(1), Some(TrackReader { state: ReaderState::Ended, reference: None }));
    assert_eq!(bridge.on_read(0, ReadOutcome::Frame(frame(20, true))), ReadAction::Stop);
    assert_eq!(bridge.on_read(1, ReadOutcome::Frame(frame(20, true))), ReadAction::Stop);
}

#[test]
fn a_lost_session_cancels_the_readers() {
    let catalog = Catalog { video: vec![video("v0", 100, 31)], audio: vec![] };
    let mut bridge = active(&catalog);
    bridge.on_session_failed();
    assert_eq!(bridge.state(), SubscribeState::Closed);
    assert_eq!(bridge.failure(), Some(BridgeError::Connect));
    assert_eq!(bridge.reader(0), Some(TrackReader { state: ReaderState::Cancelled, reference: None }));
    assert_eq!(bridge.on_read(0, ReadOutcome::Frame(frame(20, true))), ReadAction::Stop);
}

#[test]
fn state_changes_set_up_and_tear_down() {
    assert_eq!(lifecycle_action(Transition::ReadyToPaused), LifecycleAction::Setup);
    assert_eq!(lifecycle_action(Transition::PausedToReady), LifecycleAction::Cleanup);
    for other in [
        Transition::NullToReady,
        Transition::PausedToPlaying,
        Transition::PlayingToPaused,
        Transition::ReadyToNull,
    ] {
        assert_eq!(lifecycle_action(other), LifecycleAction::Nothing);
    }
}

#[test]
fn a_read_frame_takes_its_time_from_a_span() {
    assert_eq!(
        ReadOutcome::frame(1, 33_000_000, true, vec![9]),
        ReadOutcome::Frame(Frame { timestamp: 1_033 * MS, keyframe: true, payload: vec![9] })
    );
    assert_eq!(
        ReadOutcome::frame(0, 0, false, vec![]),
        ReadOutcome::Frame(Frame { timestamp: 0, keyframe: false, payload: vec![] })
    );
    assert_eq!(
        ReadOutcome::frame(18_446_744_073, 709_551_615, false, vec![1]),
        ReadOutcome::Frame(Frame { timestamp: u64::MAX, keyframe: false, payload: vec![1] })
    );
    assert_eq!(ReadOutcome::frame(18_446_744_073, 709_551_616, false, vec![1]), ReadOutcome::Failed);
    assert_eq!(ReadOutcome::frame(u64::MAX, 0, true, vec![1]), ReadOutcome::Failed);
    let mut reader = TrackReader::new();
    assert_eq!(
        reader.on_read(ReadOutcome::frame(u64::MAX, 999_999_999, true, vec![])),
        ReadAction::Fail(BridgeError::TrackIo)
    );
}

#[test]
fn a_fresh_source_stays_idle_until_it_has_a_url() {
    let mut bridge = SubscribeBridge::new();
    assert_eq!(bridge.start(&Settings::for_source()), Err(BridgeError::Config));
    assert_eq!(bridge.state(), SubscribeState::Idle);
    assert_eq!(bridge.track_count(), 0);
    assert_eq!(bridge.failure(), None);
}
