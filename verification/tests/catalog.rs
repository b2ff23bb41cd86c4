use moq_bridge::catalog::{AudioCodec, Catalog, Media, MediaKind, TrackDescriptor, VideoCodec, H264};

fn video(name: &str) -> TrackDescriptor {
    TrackDescriptor {
        name: name.to_string(),
        priority: 2,
        media: Media::Video {
            codec: VideoCodec::H264(H264 { profile: 100, constraints: 0, level: 31 }),
            width: 1280,
            height: 720,
        },
        bitrate: Some(6_000_000),
        description: Some(vec![1, 2, 3]),
    }
}

fn audio(name: &str) -> TrackDescriptor {
    TrackDescriptor {
        name: name.to_string(),
        priority: 1,
        media: Media::Audio { codec: AudioCodec::Opus, sample_rate: 48_000, channel_count: 2 },
        bitrate: Some(128_000),
        description: None,
    }
}

#[test]
fn a_new_catalog_is_empty() {
    let catalog = Catalog::new();
    assert!(catalog.is_empty());
    assert_eq!(catalog.track(0), None);
    assert_eq!(catalog.find("video"), None);
    assert!(!catalog.contains("video"));
}

#[test]
fn tracks_go_to_the_list_of_their_kind() {
    let mut catalog = Catalog::new();
    assert!(catalog.insert(audio("a0")));
    assert!(catalog.insert(video("v0")));
    assert!(catalog.insert(video("v1")));
    assert!(catalog.insert(audio("a1")));
    assert_eq!(catalog.video, vec![video("v0"), video("v1")]);
    assert_eq!(catalog.audio, vec![audio("a0"), audio("a1")]);
    assert!(!catalog.is_empty());
}

#[test]
fn a_name_is_used_once() {
    let mut catalog = Catalog::new();
    assert!(catalog.insert(video("cam")));
    assert!(!catalog.insert(video("cam")));
    assert!(!catalog.insert(audio("cam")));
    assert!(catalog.insert(audio("mic")));
    assert!(!catalog.insert(video("mic")));
    assert_eq!(catalog.video, vec![video("cam")]);
    assert_eq!(catalog.audio, vec![audio("mic")]);
}

#[test]
fn tracks_are_counted_video_first() {
    let catalog = Catalog { video: vec![video("v0"), video("v1")], audio: vec![audio("a0")] };
    assert_eq!(catalog.track(0), Some(&video("v0")));
    assert_eq!(catalog.track(1), Some(&video("v1")));
    assert_eq!(catalog.track(2), Some(&audio("a0")));
    assert_eq!(catalog.track(3), None);
    assert_eq!(catalog.track(usize::MAX), None);
}

#[test]
fn tracks_are_found_by_name() {
    let catalog = Catalog { video: vec![video("v0"), video("v1")], audio: vec![audio("a0")] };
    assert_eq!(catalog.find("v1"), Some(&video("v1")));
    assert_eq!(catalog.find("a0"), Some(&audio("a0")));
    assert_eq!(catalog.find("a1"), None);
    assert_eq!(catalog.find(""), None);
    assert!(catalog.contains("v0"));
    assert!(!catalog.contains("V0"));
}

#[test]
fn the_first_of_two_tracks_with_one_name_is_found() {
    let mut second = video("same");
    second.priority = 9;
    let catalog = Catalog { video: vec![video("same"), second], audio: vec![audio("same")] };
    assert_eq!(catalog.find("same").map(|t| t.priority), Some(2));
}

#[test]
fn a_copy_holds_the_same() {
    let track = video("v0");
    assert_eq!(track.duplicate(), track);
    assert_eq!(audio("a0").duplicate(), audio("a0"));
    assert_eq!(track.media.kind(), MediaKind::Video);
    assert_eq!(audio("a0").media.kind(), MediaKind::Audio);
}
