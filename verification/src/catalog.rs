//! The catalog of a broadcast: its tracks and what each one carries.

use vstd::prelude::*;
use crate::text::{copy_optional_bytes, optional_bytes, text_eq};

verus! {

/// The three bytes that identify an H.264 stream.
#[derive(Clone, Copy, Debug, PartialEq, Eq, Structural)]
pub struct H264 {
    /// The profile number, such as 100 for high.
    pub profile: u8,
    /// The constraint flags, carried as they are.
    pub constraints: u8,
    /// The level number, such as 31 for level 3.1.
    pub level: u8,
}

/// The codec of a video track.
#[derive(Clone, Copy, Debug, PartialEq, Eq, Structural)]
pub enum VideoCodec {
    H264(H264),
    /// A codec that has no local form here.
    Other,
}

/// The codec of an audio track.
#[derive(Clone, Copy, Debug, PartialEq, Eq, Structural)]
pub enum AudioCodec {
    Opus,
    /// A codec that has no local form here.
    Other,
}

/// Video or audio.
#[derive(Clone, Copy, Debug, PartialEq, Eq, Structural)]
pub enum MediaKind {
    Video,
    Audio,
}

/// What a track carries: its codec, and its size or its sampling.
#[derive(Clone, Copy, Debug, PartialEq, Eq, Structural)]
#[allow(inconsistent_fields)]
pub enum Media {
    Video { codec: VideoCodec, width: u32, height: u32 },
    Audio { codec: AudioCodec, sample_rate: u32, channel_count: u32 },
}

impl Media {
    /// The kind of this media.
    pub open spec fn spec_kind(self) -> MediaKind {
        match self {
            Media::Video { .. } => MediaKind::Video,
            Media::Audio { .. } => MediaKind::Audio,
        }
    }

    /// The kind of this media.
    pub fn kind(&self) -> (kind: MediaKind)
        ensures
            kind == self.spec_kind(),
    {
        match self {
            Media::Video { .. } => MediaKind::Video,
            Media::Audio { .. } => MediaKind::Audio,
        }
    }
}

/// The description of one track of a broadcast.
#[derive(Clone, Debug, PartialEq, Eq)]
pub struct TrackDescriptor {
    /// The track's name; no two tracks of a broadcast share one.
    pub name: String,
    /// The track's priority on the session.
    pub priority: i8,
    /// The codec and its parameters.
    pub media: Media,
    /// The bit rate, where it is known.
    pub bitrate: Option<u64>,
    /// Codec set-up bytes that travel outside the stream, where there are any.
    pub description: Option<Vec<u8>>,
}

/// What a track descriptor holds.
pub struct TrackView {
    pub name: Seq<char>,
    pub priority: i8,
    pub media: Media,
    pub bitrate: Option<u64>,
    pub description: Option<Seq<u8>>,
}

impl View for TrackDescriptor {
    type V = TrackView;

    open spec fn view(&self) -> TrackView {
        TrackView {
            name: self.name@,
            priority: self.priority,
            media: self.media,
            bitrate: self.bitrate,
            description: optional_bytes(self.description),
        }
    }
}

impl TrackDescriptor {
    /// A separate copy of this descriptor.
    pub fn duplicate(&self) -> (copy: TrackDescriptor)
        ensures
            copy@ == self@,
    {
        TrackDescriptor {
            name: self.name.clone(),
            priority: self.priority,
            media: self.media,
            bitrate: self.bitrate,
            description: copy_optional_bytes(&self.description),
        }
    }
}

/// What a list of descriptors holds, in order.
pub open spec fn views(tracks: Seq<TrackDescriptor>) -> Seq<TrackView> {
    Seq::new(tracks.len(), |i: int| tracks[i]@)
}

/// Whether some track of the list is named `name`.
pub open spec fn has_name(tracks: Seq<TrackView>, name: Seq<char>) -> bool {
    exists|i: int| 0 <= i < tracks.len() && (#[trigger] tracks[i]).name == name
}

/// The least index of a track named `name`; the length where there is none.
pub open spec fn first_named(tracks: Seq<TrackView>, name: Seq<char>) -> int
    decreases tracks.len(),
{
    if tracks.len() == 0 {
        0
    } else if tracks[0].name == name {
        0
    } else {
        1 + first_named(tracks.drop_first(), name)
    }
}

/// No two tracks of the list share a name.
pub open spec fn unique_names(tracks: Seq<TrackView>) -> bool {
    forall|i: int, j: int|
        0 <= i < tracks.len() && 0 <= j < tracks.len() && i != j ==> (#[trigger] tracks[i]).name
            != (#[trigger] tracks[j]).name
}

/// `first_named` is the least index whose track has the name, or the length.
pub proof fn lemma_first_named(tracks: Seq<TrackView>, name: Seq<char>)
    ensures
        0 <= first_named(tracks, name) <= tracks.len(),
        forall|i: int| 0 <= i < first_named(tracks, name) ==> (#[trigger] tracks[i]).name != name,
        first_named(tracks, name) < tracks.len() ==> tracks[first_named(tracks, name)].name
            == name,
    decreases tracks.len(),
{
    if tracks.len() != 0 && tracks[0].name != name {
        let rest = tracks.drop_first();
        lemma_first_named(rest, name);
        assert forall|i: int| 0 <= i < first_named(tracks, name) implies (#[trigger] tracks[i]).name
            != name by {
            if i > 0 {
                assert(tracks[i] == rest[i - 1]);
            }
        }
    }
}

/// The snapshot of a broadcast: its video tracks, then its audio tracks.
#[derive(Clone, Debug, PartialEq, Eq)]
pub struct Catalog {
    pub video: Vec<TrackDescriptor>,
    pub audio: Vec<TrackDescriptor>,
}

impl Catalog {
    /// All tracks in catalog order: the video tracks, then the audio tracks.
    pub open spec fn tracks(&self) -> Seq<TrackView> {
        views(self.video@) + views(self.audio@)
    }

    /// Every track sits in the list of its kind, and no name is used twice.
    pub open spec fn wf(&self) -> bool {
        &&& forall|i: int|
            0 <= i < self.video@.len() ==> (#[trigger] self.video@[i]).media.spec_kind()
                == MediaKind::Video
        &&& forall|i: int|
            0 <= i < self.audio@.len() ==> (#[trigger] self.audio@[i]).media.spec_kind()
                == MediaKind::Audio
        &&& unique_names(self.tracks())
    }

    /// A catalog without tracks.
    pub fn new() -> (catalog: Catalog)
        ensures
            catalog.tracks() == Seq::<TrackView>::empty(),
            catalog.wf(),
    {
        let catalog = Catalog { video: Vec::new(), audio: Vec::new() };
        catalog
    }

    /// Whether the catalog has no track.
    pub fn is_empty(&self) -> (empty: bool)
        ensures
            empty == (self.tracks().len() == 0),
    {
        self.video.len() == 0 && self.audio.len() == 0
    }

    /// The track at `index` of the catalog order.
    pub fn track(&self, index: usize) -> (found: Option<&TrackDescriptor>)
        ensures
            match found {
                Some(track) => index < self.tracks().len() && track@ == self.tracks()[index as int],
                None => index >= self.tracks().len(),
            },
    {
        if index < self.video.len() {
            Some(&self.video[index])
        } else if index - self.video.len() < self.audio.len() {
            Some(&self.audio[index - self.video.len()])
        } else {
            None
        }
    }

    /// The first track of the catalog order that is named `name`.
    pub fn find(&self, name: &str) -> (found: Option<&TrackDescriptor>)
        ensures
            match found {
                Some(track) => {
                    &&& has_name(self.tracks(), name@)
                    &&& track@ == self.tracks()[first_named(self.tracks(), name@)]
                },
                None => !has_name(self.tracks(), name@),
            },
    {
        proof {
            lemma_first_named(self.tracks(), name@);
        }
        let mut i: usize = 0;
        while i < self.video.len()
            invariant
                i <= self.video@.len(),
                forall|k: int| 0 <= k < i ==> (#[trigger] self.tracks()[k]).name != name@,
            decreases self.video@.len() - i,
        {
            if text_eq(self.video[i].name.as_str(), name) {
                proof {
                    lemma_first_named(self.tracks(), name@);
                    assert(self.tracks()[i as int].name == name@);
                }
                return Some(&self.video[i]);
            }
            i = i + 1;
        }
        let mut j: usize = 0;
        while j < self.audio.len()
            invariant
                j <= self.audio@.len(),
                forall|k: int|
                    0 <= k < self.video@.len() + j ==> (#[trigger] self.tracks()[k]).name != name@,
            decreases self.audio@.len() - j,
        {
            if text_eq(self.audio[j].name.as_str(), name) {
                proof {
                    lemma_first_named(self.tracks(), name@);
                    assert(self.tracks()[self.video@.len() + j].name == name@);
                }
                return Some(&self.audio[j]);
            }
            j = j + 1;
        }
        None
    }

    /// Whether a track of the catalog is named `name`.
    pub fn contains(&self, name: &str) -> (found: bool)
        ensures
            found == has_name(self.tracks(), name@),
    {
        self.find(name).is_some()
    }

    /// Adds a track at the end of the list of its kind, unless a track of that
    /// name is already there; says whether it was added.
    pub fn insert(&mut self, track: TrackDescriptor) -> (added: bool)
        ensures
            old(self).wf() ==> final(self).wf(),
            added == !has_name(old(self).tracks(), track@.name),
            added ==> match track.media {
                Media::Video { .. } => final(self).video@ == old(self).video@.push(track)
                    && final(self).audio@ == old(self).audio@,
                Media::Audio { .. } => final(self).audio@ == old(self).audio@.push(track)
                    && final(self).video@ == old(self).video@,
            },
            !added ==> *final(self) == *old(self),
    {
        if self.contains(track.name.as_str()) {
            return false;
        }
        let ghost before = self.tracks();
        let ghost added_view = track@;
        let ghost video_count = self.video@.len() as int;
        match track.media {
            Media::Video { .. } => {
                self.video.push(track);
                proof {
                    assert(self.tracks() =~= before.insert(video_count, added_view));
                    if unique_names(before) {
                        lemma_unique_after_insert(before, video_count, added_view);
                    }
                }
            },
            Media::Audio { .. } => {
                self.audio.push(track);
                proof {
                    assert(self.tracks() =~= before.insert(before.len() as int, added_view));
                    if unique_names(before) {
                        lemma_unique_after_insert(before, before.len() as int, added_view);
                    }
                }
            },
        }
        true
    }
}

/// Putting a track with a new name anywhere into a list of uniquely named
/// tracks leaves the names unique.
pub proof fn lemma_unique_after_insert(tracks: Seq<TrackView>, at: int, added: TrackView)
    requires
        unique_names(tracks),
        !has_name(tracks, added.name),
        0 <= at <= tracks.len(),
    ensures
        unique_names(tracks.insert(at, added)),
{
    let after = tracks.insert(at, added);
    assert forall|i: int, j: int|
        0 <= i < after.len() && 0 <= j < after.len() && i != j implies (#[trigger] after[i]).name
        != (#[trigger] after[j]).name by {
        let before_i = if i < at { i } else { i - 1 };
        let before_j = if j < at { j } else { j - 1 };
        if i == at {
            assert(tracks[before_j].name != added.name);
        } else if j == at {
            assert(tracks[before_i].name != added.name);
        } else {
            assert(tracks[before_i].name != tracks[before_j].name);
        }
    }
}

} // verus!
