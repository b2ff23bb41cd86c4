//! The subscribe bridge: from the catalog of a broadcast to local output
//! ports, and from the frames of each track to the buffers of its port.
//!
//! Each track has a reader of its own with a clock of its own. The first
//! frame a reader sees fixes the reference of its clock; every frame, the
//! first included, is shown at its own time less that reference. What one
//! reader meets (the end of its track, a failure) stays with that reader.

use vstd::prelude::*;
use crate::catalog::{
    first_named,
    lemma_first_named,
    Catalog,
    MediaKind,
    TrackDescriptor,
    TrackView,
};
use crate::error::BridgeError;
use crate::frame::{
    buffer_of,
    nanos_of,
    timestamp_from_parts,
    BufferView,
    Frame,
    FrameView,
    LocalBuffer,
    CLOCK_TIME_MAX,
};
use crate::negotiate::{capability_of, to_local_capability, CapabilityView, LocalCapability};
use crate::session::{
    parsed_url_of,
    plan,
    plan_result,
    planned,
    ConnectPlan,
    PlanView,
    Settings,
};
use crate::text::text_eq;

verus! {

/// The local time of a frame stamped `timestamp` on a clock with the given
/// reference. A clock without a reference takes the frame's own time as
/// reference. A frame older than the reference, or later than a buffer can
/// say, has no local time.
pub open spec fn local_time_of(reference: Option<u64>, timestamp: u64) -> Result<u64, BridgeError> {
    let origin = match reference {
        Some(r) => r,
        None => timestamp,
    };
    if origin <= timestamp && timestamp - origin <= CLOCK_TIME_MAX {
        Ok((timestamp - origin) as u64)
    } else {
        Err(BridgeError::TrackIo)
    }
}

/// The reference of a clock after it has seen a frame stamped `timestamp`.
pub open spec fn reference_after(reference: Option<u64>, timestamp: u64) -> Option<u64> {
    match reference {
        Some(r) => Some(r),
        None => Some(timestamp),
    }
}

/// Where a reader stands.
#[derive(Clone, Copy, Debug, PartialEq, Eq, Structural)]
pub enum ReaderState {
    /// The reader takes frames.
    Reading,
    /// The track came to its end.
    Ended,
    /// The track failed, or never had a port.
    Failed,
    /// The bridge was torn down.
    Cancelled,
}

/// The reader of one track: its state and the reference of its clock.
#[derive(Clone, Copy, Debug, PartialEq, Eq, Structural)]
pub struct TrackReader {
    pub state: ReaderState,
    pub reference: Option<u64>,
}

/// What reading a track once came back with.
#[derive(Clone, Debug, PartialEq, Eq)]
pub enum ReadOutcome {
    /// The next frame of the track.
    Frame(Frame),
    /// The track is over.
    EndOfTrack,
    /// The read failed.
    Failed,
}

/// What a read outcome holds.
pub enum OutcomeView {
    Frame(FrameView),
    EndOfTrack,
    Failed,
}

impl View for ReadOutcome {
    type V = OutcomeView;

    open spec fn view(&self) -> OutcomeView {
        match self {
            ReadOutcome::Frame(frame) => OutcomeView::Frame(frame@),
            ReadOutcome::EndOfTrack => OutcomeView::EndOfTrack,
            ReadOutcome::Failed => OutcomeView::Failed,
        }
    }
}

impl ReadOutcome {
    /// The outcome of a read that gave a frame whose time is a span of whole
    /// seconds and nanoseconds beyond them. A span longer than a time stamp
    /// can say makes the read a failed one.
    pub fn frame(seconds: u64, subsec_nanos: u32, keyframe: bool, payload: Vec<u8>) -> (out:
        ReadOutcome)
        ensures
            out@ == (if nanos_of(seconds, subsec_nanos) <= u64::MAX {
                OutcomeView::Frame(
                    FrameView {
                        timestamp: nanos_of(seconds, subsec_nanos) as u64,
                        keyframe,
                        payload: payload@,
                    },
                )
            } else {
                OutcomeView::Failed
            }),
    {
        match timestamp_from_parts(seconds, subsec_nanos) {
            Some(timestamp) => ReadOutcome::Frame(Frame { timestamp, keyframe, payload }),
            None => ReadOutcome::Failed,
        }
    }
}

/// What to do with a track's port after a read.
#[derive(Clone, Debug, PartialEq, Eq)]
pub enum ReadAction {
    /// Push the buffer and read on.
    Push(LocalBuffer),
    /// Close the port with end-of-stream: the track ended as it should.
    EndOfStream,
    /// Report the error, close the port with end-of-stream, and stop reading.
    Fail(BridgeError),
    /// Do nothing and stop reading: this reader is finished.
    Stop,
}

/// What a read action holds.
pub enum ActionView {
    Push(BufferView),
    EndOfStream,
    Fail(BridgeError),
    Stop,
}

impl View for ReadAction {
    type V = ActionView;

    open spec fn view(&self) -> ActionView {
        match self {
            ReadAction::Push(buffer) => ActionView::Push(buffer@),
            ReadAction::EndOfStream => ActionView::EndOfStream,
            ReadAction::Fail(e) => ActionView::Fail(*e),
            ReadAction::Stop => ActionView::Stop,
        }
    }
}

/// One step of a reader: the reader afterwards and what to do.
pub open spec fn read_step(reader: TrackReader, outcome: OutcomeView) -> (TrackReader, ActionView) {
    if reader.state != ReaderState::Reading {
        (reader, ActionView::Stop)
    } else {
        match outcome {
            OutcomeView::Frame(frame) => match local_time_of(reader.reference, frame.timestamp) {
                Ok(pts) => (
                    TrackReader {
                        state: ReaderState::Reading,
                        reference: reference_after(reader.reference, frame.timestamp),
                    },
                    ActionView::Push(buffer_of(frame, pts)),
                ),
                Err(e) => (
                    TrackReader { state: ReaderState::Failed, reference: reader.reference },
                    ActionView::Fail(e),
                ),
            },
            OutcomeView::EndOfTrack => (
                TrackReader { state: ReaderState::Ended, reference: reader.reference },
                ActionView::EndOfStream,
            ),
            OutcomeView::Failed => (
                TrackReader { state: ReaderState::Failed, reference: reader.reference },
                ActionView::Fail(BridgeError::TrackIo),
            ),
        }
    }
}

/// The reader after a run of outcomes.
pub open spec fn reader_after(reader: TrackReader, outcomes: Seq<OutcomeView>) -> TrackReader
    decreases outcomes.len(),
{
    if outcomes.len() == 0 {
        reader
    } else {
        read_step(reader_after(reader, outcomes.drop_last()), outcomes.last()).0
    }
}

/// What a reader does on each outcome of a run, in order.
pub open spec fn actions_of(reader: TrackReader, outcomes: Seq<OutcomeView>) -> Seq<ActionView> {
    Seq::new(
        outcomes.len(),
        |i: int| read_step(reader_after(reader, outcomes.subrange(0, i)), outcomes[i]).1,
    )
}

/// A reader that has seen nothing yet.
pub open spec fn fresh_reader() -> TrackReader {
    TrackReader { state: ReaderState::Reading, reference: None }
}

impl TrackReader {
    /// A reader at the start of its track.
    pub fn new() -> (reader: TrackReader)
        ensures
            reader == fresh_reader(),
    {
        TrackReader { state: ReaderState::Reading, reference: None }
    }

    /// The local time for a frame stamped `timestamp`. The first call fixes
    /// the reference and answers zero.
    pub fn local_time(&mut self, timestamp: u64) -> (out: Result<u64, BridgeError>)
        ensures
            out == local_time_of(old(self).reference, timestamp),
            final(self).state == old(self).state,
            final(self).reference == (if out is Ok {
                reference_after(old(self).reference, timestamp)
            } else {
                old(self).reference
            }),
            old(self).reference is None ==> out == Ok::<u64, BridgeError>(0),
    {
        let origin = match self.reference {
            Some(r) => r,
            None => timestamp,
        };
        if origin <= timestamp && timestamp - origin <= CLOCK_TIME_MAX {
            self.reference = Some(origin);
            Ok(timestamp - origin)
        } else {
            Err(BridgeError::TrackIo)
        }
    }

    /// Takes the outcome of one read and says what to do with the port. A
    /// buffer to push always has a time, and one that a buffer can carry.
    pub fn on_read(&mut self, outcome: ReadOutcome) -> (action: ReadAction)
        ensures
            (*final(self), action@) == read_step(*old(self), outcome@),
            action matches ReadAction::Push(buffer) ==> buffer.pts matches Some(pts) && pts
                <= CLOCK_TIME_MAX,
    {
        match self.state {
            ReaderState::Reading => {},
            _ => {
                return ReadAction::Stop;
            },
        }
        match outcome {
            ReadOutcome::Frame(frame) => match self.local_time(frame.timestamp) {
                Ok(pts) => ReadAction::Push(LocalBuffer::from_frame(frame, pts)),
                Err(e) => {
                    self.state = ReaderState::Failed;
                    ReadAction::Fail(e)
                },
            },
            ReadOutcome::EndOfTrack => {
                self.state = ReaderState::Ended;
                ReadAction::EndOfStream
            },
            ReadOutcome::Failed => {
                self.state = ReaderState::Failed;
                ReadAction::Fail(BridgeError::TrackIo)
            },
        }
    }
}

/// The outcomes of a run in which every read gave a frame.
pub open spec fn frames_read(frames: Seq<FrameView>) -> Seq<OutcomeView> {
    Seq::new(frames.len(), |i: int| OutcomeView::Frame(frames[i]))
}

/// No frame of the run is older than the first, and none is further from it
/// than a buffer can say.
pub open spec fn within_reach_of_first(frames: Seq<FrameView>) -> bool {
    forall|i: int|
        0 <= i < frames.len() ==> frames[0].timestamp <= (#[trigger] frames[i]).timestamp
            && frames[i].timestamp - frames[0].timestamp <= CLOCK_TIME_MAX
}

/// After any number of frames within reach of the first, a fresh reader is
/// still reading and its reference is the first frame's time.
pub proof fn lemma_reader_keeps_first_reference(frames: Seq<FrameView>, n: int)
    requires
        within_reach_of_first(frames),
        0 <= n <= frames.len(),
    ensures
        reader_after(fresh_reader(), frames_read(frames).subrange(0, n)) == (if n == 0 {
            fresh_reader()
        } else {
            TrackReader { state: ReaderState::Reading, reference: Some(frames[0].timestamp) }
        }),
    decreases n,
{
    let outcomes = frames_read(frames);
    let run = outcomes.subrange(0, n);
    if n > 0 {
        lemma_reader_keeps_first_reference(frames, n - 1);
        assert(run.drop_last() =~= outcomes.subrange(0, n - 1));
    }
}

/// Whatever frames a fresh reader is given, each is pushed at its own time
/// less the time of the first, and so the first at zero, however large the
/// first time is. This holds of every run in which no frame is older than
/// the first or further from it than a buffer can say.
pub proof fn lemma_frames_are_relative_to_first(frames: Seq<FrameView>)
    requires
        within_reach_of_first(frames),
    ensures
        actions_of(fresh_reader(), frames_read(frames)).len() == frames.len(),
        forall|i: int|
            0 <= i < frames.len() ==> #[trigger] actions_of(fresh_reader(), frames_read(frames))[i]
                == ActionView::Push(
                buffer_of(frames[i], (frames[i].timestamp - frames[0].timestamp) as u64),
            ),
        frames.len() > 0 ==> actions_of(fresh_reader(), frames_read(frames))[0]
            == ActionView::Push(buffer_of(frames[0], 0)),
{
    let outcomes = frames_read(frames);
    let actions = actions_of(fresh_reader(), outcomes);
    assert forall|i: int| 0 <= i < frames.len() implies #[trigger] actions[i] == ActionView::Push(
        buffer_of(frames[i], (frames[i].timestamp - frames[0].timestamp) as u64),
    ) by {
        lemma_reader_keeps_first_reference(frames, i);
    }
}

/// A reader that is no longer reading stays as it is and pushes nothing,
/// whatever it is given.
pub proof fn lemma_finished_reader_stays(reader: TrackReader, outcomes: Seq<OutcomeView>)
    requires
        reader.state != ReaderState::Reading,
    ensures
        reader_after(reader, outcomes) == reader,
        forall|i: int|
            0 <= i < outcomes.len() ==> #[trigger] actions_of(reader, outcomes)[i]
                == ActionView::Stop,
    decreases outcomes.len(),
{
    if outcomes.len() > 0 {
        lemma_finished_reader_stays(reader, outcomes.drop_last());
    }
    assert forall|i: int| 0 <= i < outcomes.len() implies #[trigger] actions_of(reader, outcomes)[i]
        == ActionView::Stop by {
        lemma_finished_reader_stays_prefix(reader, outcomes, i);
    }
}

/// A reader that is no longer reading is unchanged after any prefix of a run.
pub proof fn lemma_finished_reader_stays_prefix(
    reader: TrackReader,
    outcomes: Seq<OutcomeView>,
    n: int,
)
    requires
        reader.state != ReaderState::Reading,
        0 <= n <= outcomes.len(),
    ensures
        reader_after(reader, outcomes.subrange(0, n)) == reader,
    decreases n,
{
    if n > 0 {
        lemma_finished_reader_stays_prefix(reader, outcomes, n - 1);
        assert(outcomes.subrange(0, n).drop_last() =~= outcomes.subrange(0, n - 1));
    }
}

/// The kind of port a track gets.
#[derive(Clone, Copy, Debug, PartialEq, Eq, Structural)]
pub enum PortTemplate {
    Video,
    Audio,
}

impl PortTemplate {
    /// The name of the template that ports of this kind are made from.
    pub open spec fn spec_name(self) -> Seq<char> {
        match self {
            PortTemplate::Video => "video_%u"@,
            PortTemplate::Audio => "audio_%u"@,
        }
    }

    /// The name of the template that ports of this kind are made from.
    pub fn name(&self) -> (name: &'static str)
        ensures
            name@ == self.spec_name(),
    {
        match self {
            PortTemplate::Video => "video_%u",
            PortTemplate::Audio => "audio_%u",
        }
    }
}

/// The template for media of a kind.
pub open spec fn template_of(kind: MediaKind) -> PortTemplate {
    match kind {
        MediaKind::Video => PortTemplate::Video,
        MediaKind::Audio => PortTemplate::Audio,
    }
}

/// An output port to create for a track.
#[derive(Clone, Debug, PartialEq, Eq)]
pub struct PortPlan {
    /// The name of the port, which is the name of the track.
    pub name: String,
    /// The template to make the port from.
    pub template: PortTemplate,
    /// What the port carries.
    pub caps: LocalCapability,
}

/// What becomes of one track of the catalog.
#[derive(Clone, Debug, PartialEq, Eq)]
pub enum TrackSetup {
    /// The track gets a port and a reader.
    Port(PortPlan),
    /// The track gets neither, for the reason given; the others go on.
    Rejected { name: String, error: BridgeError },
}

/// What a track setup holds.
pub enum SetupView {
    Port { name: Seq<char>, template: PortTemplate, caps: CapabilityView },
    Rejected { name: Seq<char>, error: BridgeError },
}

impl View for TrackSetup {
    type V = SetupView;

    open spec fn view(&self) -> SetupView {
        match self {
            TrackSetup::Port(port) => SetupView::Port {
                name: port.name@,
                template: port.template,
                caps: port.caps@,
            },
            TrackSetup::Rejected { name, error } => SetupView::Rejected {
                name: name@,
                error: *error,
            },
        }
    }
}

/// What a list of setups holds, in order.
pub open spec fn setup_views(setups: Seq<TrackSetup>) -> Seq<SetupView> {
    Seq::new(setups.len(), |i: int| setups[i]@)
}

/// What becomes of track `i` of a catalog. A track whose name an earlier
/// track already has is rejected, for a port's name must be its own; a track
/// whose codec has no local form is rejected as the negotiator says; any
/// other track gets a port of its kind, named after it.
pub open spec fn setup_of(tracks: Seq<TrackView>, i: int) -> SetupView {
    let track = tracks[i];
    if first_named(tracks, track.name) < i {
        SetupView::Rejected { name: track.name, error: BridgeError::ProtocolViolation }
    } else {
        match capability_of(track) {
            Ok(caps) => SetupView::Port {
                name: track.name,
                template: template_of(track.media.spec_kind()),
                caps,
            },
            Err(error) => SetupView::Rejected { name: track.name, error },
        }
    }
}

/// What becomes of each track of a catalog, in catalog order.
pub open spec fn setups_of(tracks: Seq<TrackView>) -> Seq<SetupView> {
    Seq::new(tracks.len(), |i: int| setup_of(tracks, i))
}

/// The reader that a setup starts with: one that reads for a port, one that
/// has failed for a rejected track.
pub open spec fn reader_for(setup: SetupView) -> TrackReader {
    match setup {
        SetupView::Port { .. } => fresh_reader(),
        SetupView::Rejected { .. } => TrackReader { state: ReaderState::Failed, reference: None },
    }
}

/// The tracks of a catalog in catalog order.
fn ordered(catalog: &Catalog) -> (flat: Vec<&TrackDescriptor>)
    ensures
        flat@.len() == catalog.tracks().len(),
        forall|i: int| 0 <= i < flat@.len() ==> (#[trigger] flat@[i])@ == catalog.tracks()[i],
{
    let mut flat: Vec<&TrackDescriptor> = Vec::new();
    let mut i: usize = 0;
    while i < catalog.video.len()
        invariant
            i <= catalog.video@.len(),
            flat@.len() == i,
            forall|k: int| 0 <= k < i ==> (#[trigger] flat@[k])@ == catalog.tracks()[k],
        decreases catalog.video@.len() - i,
    {
        flat.push(&catalog.video[i]);
        i = i + 1;
    }
    let mut j: usize = 0;
    while j < catalog.audio.len()
        invariant
            j <= catalog.audio@.len(),
            flat@.len() == catalog.video@.len() + j,
            forall|k: int| 0 <= k < flat@.len() ==> (#[trigger] flat@[k])@ == catalog.tracks()[k],
        decreases catalog.audio@.len() - j,
    {
        flat.push(&catalog.audio[j]);
        j = j + 1;
    }
    flat
}

/// Whether one of the first `upto` tracks is named `name`.
fn named_before(flat: &Vec<&TrackDescriptor>, upto: usize, name: &str) -> (found: bool)
    requires
        upto <= flat@.len(),
    ensures
        found == exists|k: int| 0 <= k < upto && (#[trigger] flat@[k])@.name == name@,
{
    let mut k: usize = 0;
    while k < upto
        invariant
            k <= upto <= flat@.len(),
            forall|m: int| 0 <= m < k ==> (#[trigger] flat@[m])@.name != name@,
        decreases upto - k,
    {
        if text_eq(flat[k].name.as_str(), name) {
            return true;
        }
        k = k + 1;
    }
    false
}

/// Decides, for each track of a catalog in catalog order, whether it gets an
/// output port and with what capability.
pub fn plan_ports(catalog: &Catalog) -> (setups: Vec<TrackSetup>)
    ensures
        setup_views(setups@) == setups_of(catalog.tracks()),
{
    let flat = ordered(catalog);
    let ghost tracks = catalog.tracks();
    let mut setups: Vec<TrackSetup> = Vec::new();
    let mut i: usize = 0;
    while i < flat.len()
        invariant
            i <= flat@.len(),
            flat@.len() == tracks.len(),
            forall|k: int| 0 <= k < flat@.len() ==> (#[trigger] flat@[k])@ == tracks[k],
            setups@.len() == i,
            forall|k: int| 0 <= k < i ==> (#[trigger] setups@[k])@ == setup_of(tracks, k),
        decreases flat@.len() - i,
    {
        let track = flat[i];
        let repeated = named_before(&flat, i, track.name.as_str());
        proof {
            lemma_first_named(tracks, track@.name);
            let first = first_named(tracks, track@.name);
            if !repeated && first < i {
                assert(flat@[first]@.name == track@.name);
            }
        }
        let setup = if repeated {
            TrackSetup::Rejected { name: track.name.clone(), error: BridgeError::ProtocolViolation }
        } else {
            match to_local_capability(track) {
                Ok(caps) => TrackSetup::Port(
                    PortPlan {
                        name: track.name.clone(),
                        template: match track.media.kind() {
                            MediaKind::Video => PortTemplate::Video,
                            MediaKind::Audio => PortTemplate::Audio,
                        },
                        caps,
                    },
                ),
                Err(error) => TrackSetup::Rejected { name: track.name.clone(), error },
            }
        };
        setups.push(setup);
        i = i + 1;
    }
    setups
}

/// Ports keep the order of the catalog and the names of its tracks, and no
/// two ports have the same name.
pub proof fn lemma_ports_follow_catalog(tracks: Seq<TrackView>)
    ensures
        setups_of(tracks).len() == tracks.len(),
        forall|i: int|
            0 <= i < tracks.len() ==> match #[trigger] setups_of(tracks)[i] {
                SetupView::Port { name, .. } => name == tracks[i].name,
                SetupView::Rejected { name, .. } => name == tracks[i].name,
            },
        forall|i: int, j: int|
            0 <= i < j < tracks.len() && (#[trigger] setups_of(tracks)[i]) is Port && (
            #[trigger] setups_of(tracks)[j]) is Port ==> tracks[i].name != tracks[j].name,
{
    assert forall|i: int, j: int|
        0 <= i < j < tracks.len() && (#[trigger] setups_of(tracks)[i]) is Port && (
        #[trigger] setups_of(tracks)[j]) is Port implies tracks[i].name != tracks[j].name by {
        lemma_first_named(tracks, tracks[j].name);
    }
}

/// Where a subscribe bridge stands.
#[derive(Clone, Copy, Debug, PartialEq, Eq, Structural)]
pub enum SubscribeState {
    /// Nothing has been started.
    Idle,
    /// The session is being established.
    Connecting,
    /// The catalog is in and the ports are made; the readers run.
    Active,
    /// The bridge failed or was torn down.
    Closed,
}

/// A change of state that the host pipeline announces.
#[derive(Clone, Copy, Debug, PartialEq, Eq, Structural)]
pub enum Transition {
    NullToReady,
    ReadyToPaused,
    PausedToPlaying,
    PlayingToPaused,
    PausedToReady,
    ReadyToNull,
}

/// What a bridge has to do on a change of state.
#[derive(Clone, Copy, Debug, PartialEq, Eq, Structural)]
pub enum LifecycleAction {
    /// Connect and set the tracks up; a failure fails the change of state.
    Setup,
    /// Tear the tracks down.
    Cleanup,
    /// Nothing of the bridge's concern.
    Nothing,
}

/// What a change of state asks of the bridge: going from ready to paused
/// sets it up, coming back from paused to ready tears it down.
pub open spec fn lifecycle_action_of(transition: Transition) -> LifecycleAction {
    match transition {
        Transition::ReadyToPaused => LifecycleAction::Setup,
        Transition::PausedToReady => LifecycleAction::Cleanup,
        _ => LifecycleAction::Nothing,
    }
}

/// What a change of state asks of the bridge.
pub fn lifecycle_action(transition: Transition) -> (action: LifecycleAction)
    ensures
        action == lifecycle_action_of(transition),
{
    match transition {
        Transition::ReadyToPaused => LifecycleAction::Setup,
        Transition::PausedToReady => LifecycleAction::Cleanup,
        _ => LifecycleAction::Nothing,
    }
}

/// What a subscribe bridge holds.
pub struct SubscribeModel {
    pub state: SubscribeState,
    /// One reader for each track of the catalog, in catalog order.
    pub readers: Seq<TrackReader>,
    /// Why the bridge closed, where it closed on a failure.
    pub failure: Option<BridgeError>,
}

/// A bridge on which nothing has happened.
pub open spec fn idle_subscriber() -> SubscribeModel {
    SubscribeModel { state: SubscribeState::Idle, readers: Seq::empty(), failure: None }
}

/// Starting: an idle bridge with a plan begins to connect; without a plan it
/// stays idle and hands the error on. A bridge that is not idle refuses.
pub open spec fn after_start(m: SubscribeModel, plan: Result<PlanView, BridgeError>) -> (
    SubscribeModel,
    Result<PlanView, BridgeError>,
) {
    if m.state != SubscribeState::Idle {
        (m, Err(BridgeError::ProtocolViolation))
    } else {
        match plan {
            Ok(p) => (SubscribeModel { state: SubscribeState::Connecting, ..m }, Ok(p)),
            Err(e) => (m, Err(e)),
        }
    }
}

/// The session could not be established, or was lost: a bridge that was
/// connecting or active closes on a connection error.
pub open spec fn after_session_failed(m: SubscribeModel) -> SubscribeModel {
    match m.state {
        SubscribeState::Connecting | SubscribeState::Active => SubscribeModel {
            state: SubscribeState::Closed,
            readers: cancelled(m.readers),
            failure: Some(BridgeError::Connect),
        },
        _ => m,
    }
}

/// The session is there and the catalog was asked for. Without a catalog
/// there is nothing to subscribe to and the bridge closes. With one, every
/// track gets its setup and its reader, in catalog order. Only a connecting
/// bridge takes this.
pub open spec fn after_session_ready(m: SubscribeModel, catalog: Option<Seq<TrackView>>) -> (
    SubscribeModel,
    Result<Seq<SetupView>, BridgeError>,
) {
    if m.state != SubscribeState::Connecting {
        (m, Err(BridgeError::ProtocolViolation))
    } else {
        match catalog {
            None => (
                SubscribeModel {
                    state: SubscribeState::Closed,
                    failure: Some(BridgeError::NoCatalog),
                    ..m
                },
                Err(BridgeError::NoCatalog),
            ),
            Some(tracks) => (
                SubscribeModel {
                    state: SubscribeState::Active,
                    readers: Seq::new(tracks.len(), |i: int| reader_for(setup_of(tracks, i))),
                    ..m
                },
                Ok(setups_of(tracks)),
            ),
        }
    }
}

/// One read on track `i` came back. Only the reader of that track moves;
/// on a bridge that is not active, or for a track that is not there, nothing
/// moves and the answer is to stop.
pub open spec fn after_read(m: SubscribeModel, i: int, outcome: OutcomeView) -> (
    SubscribeModel,
    ActionView,
) {
    if m.state == SubscribeState::Active && 0 <= i < m.readers.len() {
        let (reader, action) = read_step(m.readers[i], outcome);
        (SubscribeModel { readers: m.readers.update(i, reader), ..m }, action)
    } else {
        (m, ActionView::Stop)
    }
}

/// The readers after a teardown: those that were reading are cancelled, the
/// others are as they were.
pub open spec fn cancelled(readers: Seq<TrackReader>) -> Seq<TrackReader> {
    Seq::new(
        readers.len(),
        |i: int|
            if readers[i].state == ReaderState::Reading {
                TrackReader { state: ReaderState::Cancelled, reference: readers[i].reference }
            } else {
                readers[i]
            },
    )
}

/// Teardown: the bridge is closed and no reader reads any more.
pub open spec fn after_stop(m: SubscribeModel) -> SubscribeModel {
    SubscribeModel { state: SubscribeState::Closed, readers: cancelled(m.readers), ..m }
}

/// What the result of setting the tracks up holds.
pub open spec fn setup_result(out: Result<Vec<TrackSetup>, BridgeError>) -> Result<
    Seq<SetupView>,
    BridgeError,
> {
    match out {
        Ok(setups) => Ok(setup_views(setups@)),
        Err(e) => Err(e),
    }
}

/// What an optional catalog holds.
pub open spec fn catalog_tracks(catalog: Option<&Catalog>) -> Option<Seq<TrackView>> {
    match catalog {
        Some(c) => Some(c.tracks()),
        None => None,
    }
}

/// The subscribe side of the bridge.
#[derive(Debug)]
pub struct SubscribeBridge {
    state: SubscribeState,
    readers: Vec<TrackReader>,
    failure: Option<BridgeError>,
}

impl View for SubscribeBridge {
    type V = SubscribeModel;

    closed spec fn view(&self) -> SubscribeModel {
        SubscribeModel { state: self.state, readers: self.readers@, failure: self.failure }
    }
}

impl SubscribeBridge {
    /// A bridge on which nothing has happened.
    pub fn new() -> (bridge: SubscribeBridge)
        ensures
            bridge@ == idle_subscriber(),
    {
        SubscribeBridge { state: SubscribeState::Idle, readers: Vec::new(), failure: None }
    }

    /// Where the bridge stands.
    pub fn state(&self) -> (state: SubscribeState)
        ensures
            state == self@.state,
    {
        self.state
    }

    /// Why the bridge closed, where it closed on a failure.
    pub fn failure(&self) -> (failure: Option<BridgeError>)
        ensures
            failure == self@.failure,
    {
        self.failure
    }

    /// The number of tracks that were set up.
    pub fn track_count(&self) -> (count: usize)
        ensures
            count == self@.readers.len(),
    {
        self.readers.len()
    }

    /// The reader of track `index`.
    pub fn reader(&self, index: usize) -> (reader: Option<TrackReader>)
        ensures
            reader == (if index < self@.readers.len() {
                Some(self@.readers[index as int])
            } else {
                None
            }),
    {
        if index < self.readers.len() {
            Some(self.readers[index])
        } else {
            None
        }
    }

    /// Begins the setup: checks the settings and says what to dial. On a
    /// configuration error the bridge stays idle, and nothing is to be
    /// dialled or spawned.
    pub fn start(&mut self, settings: &Settings) -> (out: Result<ConnectPlan, BridgeError>)
        ensures
            (final(self)@, plan_result(out)) == after_start(
                old(self)@,
                planned(settings@, parsed_url_of(settings@)),
            ),
    {
        match self.state {
            SubscribeState::Idle => {},
            _ => {
                return Err(BridgeError::ProtocolViolation);
            },
        }
        match plan(settings) {
            Ok(p) => {
                self.state = SubscribeState::Connecting;
                Ok(p)
            },
            Err(e) => Err(e),
        }
    }

    /// Takes note that the session could not be established or was lost.
    pub fn on_session_failed(&mut self)
        ensures
            final(self)@ == after_session_failed(old(self)@),
    {
        match self.state {
            SubscribeState::Connecting | SubscribeState::Active => {
                self.cancel_readers();
                self.state = SubscribeState::Closed;
                self.failure = Some(BridgeError::Connect);
            },
            _ => {},
        }
    }

    /// Takes the catalog of the session that has just become ready, and
    /// says which ports to make. `None` stands for a broadcast that gave no
    /// catalog.
    pub fn on_session_ready(&mut self, catalog: Option<&Catalog>) -> (out: Result<
        Vec<TrackSetup>,
        BridgeError,
    >)
        ensures
            (final(self)@, setup_result(out)) == after_session_ready(
                old(self)@,
                catalog_tracks(catalog),
            ),
    {
        match self.state {
            SubscribeState::Connecting => {},
            _ => {
                return Err(BridgeError::ProtocolViolation);
            },
        }
        match catalog {
            None => {
                self.state = SubscribeState::Closed;
                self.failure = Some(BridgeError::NoCatalog);
                Err(BridgeError::NoCatalog)
            },
            Some(c) => {
                let setups = plan_ports(c);
                let ghost tracks = c.tracks();
                let mut readers: Vec<TrackReader> = Vec::new();
                let mut i: usize = 0;
                assert(setup_views(setups@).len() == setups@.len());
                while i < setups.len()
                    invariant
                        i <= setups@.len(),
                        setups@.len() == tracks.len(),
                        setup_views(setups@) == setups_of(tracks),
                        readers@.len() == i,
                        forall|k: int|
                            0 <= k < i ==> #[trigger] readers@[k] == reader_for(
                                setup_of(tracks, k),
                            ),
                    decreases setups@.len() - i,
                {
                    assert(setup_views(setups@)[i as int] == setups@[i as int]@);
                    let reader = match &setups[i] {
                        TrackSetup::Port(_) => TrackReader::new(),
                        TrackSetup::Rejected { .. } => TrackReader {
                            state: ReaderState::Failed,
                            reference: None,
                        },
                    };
                    readers.push(reader);
                    i = i + 1;
                }
                assert(readers@ =~= Seq::new(
                    tracks.len(),
                    |i: int| reader_for(setup_of(tracks, i)),
                ));
                self.readers = readers;
                self.state = SubscribeState::Active;
                Ok(setups)
            },
        }
    }

    /// Takes the outcome of one read on track `index` and says what to do
    /// with that track's port. No other track is touched.
    pub fn on_read(&mut self, index: usize, outcome: ReadOutcome) -> (action: ReadAction)
        ensures
            (final(self)@, action@) == after_read(old(self)@, index as int, outcome@),
            action matches ReadAction::Push(buffer) ==> buffer.pts matches Some(pts) && pts
                <= CLOCK_TIME_MAX,
    {
        match self.state {
            SubscribeState::Active => {},
            _ => {
                return ReadAction::Stop;
            },
        }
        if index >= self.readers.len() {
            return ReadAction::Stop;
        }
        let mut reader = self.readers[index];
        let action = reader.on_read(outcome);
        self.readers.set(index, reader);
        action
    }

    /// Tears the bridge down: every reader that was reading is cancelled, so
    /// that nothing is pushed to a port that is gone.
    pub fn stop(&mut self)
        ensures
            final(self)@ == after_stop(old(self)@),
    {
        self.cancel_readers();
        self.state = SubscribeState::Closed;
    }

    /// Cancels every reader that is still reading.
    fn cancel_readers(&mut self)
        ensures
            final(self).state == old(self).state,
            final(self).failure == old(self).failure,
            final(self).readers@ == cancelled(old(self).readers@),
    {
        let ghost before = self.readers@;
        let mut i: usize = 0;
        while i < self.readers.len()
            invariant
                i <= self.readers@.len(),
                self.readers@.len() == before.len(),
                self.state == old(self).state,
                self.failure == old(self).failure,
                forall|k: int| 0 <= k < i ==> #[trigger] self.readers@[k] == cancelled(before)[k],
                forall|k: int| i <= k < before.len() ==> #[trigger] self.readers@[k] == before[k],
            decreases self.readers@.len() - i,
        {
            let reader = self.readers[i];
            match reader.state {
                ReaderState::Reading => {
                    self.readers.set(
                        i,
                        TrackReader { state: ReaderState::Cancelled, reference: reader.reference },
                    );
                },
                _ => {},
            }
            i = i + 1;
        }
    }
}

/// What happens on one track leaves every other track alone: its reader is
/// as it was, and what it does with its next read is what it would have done
/// anyway.
pub proof fn lemma_tracks_are_independent(
    m: SubscribeModel,
    i: int,
    first: OutcomeView,
    j: int,
    second: OutcomeView,
)
    requires
        i != j,
    ensures
        after_read(m, i, first).0.state == m.state,
        0 <= j < m.readers.len() ==> after_read(m, i, first).0.readers[j] == m.readers[j],
        after_read(after_read(m, i, first).0, j, second).1 == after_read(m, j, second).1,
{
}

/// A failure on one track does not keep the others from delivering: a frame
/// on another track is answered after the failure as it would have been
/// without it, pushed at the same local time if it would have been pushed.
pub proof fn lemma_failure_stays_on_its_track(m: SubscribeModel, i: int, j: int, frame: FrameView)
    requires
        i != j,
    ensures
        after_read(after_read(m, i, OutcomeView::Failed).0, j, OutcomeView::Frame(frame)).1
            == after_read(m, j, OutcomeView::Frame(frame)).1,
{
    lemma_tracks_are_independent(m, i, OutcomeView::Failed, j, OutcomeView::Frame(frame));
}

/// After a teardown no read pushes anything, on any track, whatever comes.
pub proof fn lemma_nothing_is_pushed_after_stop(m: SubscribeModel, i: int, outcome: OutcomeView)
    ensures
        after_read(after_stop(m), i, outcome) == (after_stop(m), ActionView::Stop),
{
}

/// One read of a run: the track it was made on and what it came back with.
pub struct Read {
    pub track: int,
    pub outcome: OutcomeView,
}

/// The bridge after a run of reads on any of its tracks.
pub open spec fn after_reads(m: SubscribeModel, reads: Seq<Read>) -> SubscribeModel
    decreases reads.len(),
{
    if reads.len() == 0 {
        m
    } else {
        after_read(after_reads(m, reads.drop_last()), reads.last().track, reads.last().outcome).0
    }
}

/// The outcomes of the reads of a run that were made on track `j`, in order.
pub open spec fn reads_on(reads: Seq<Read>, j: int) -> Seq<OutcomeView>
    decreases reads.len(),
{
    if reads.len() == 0 {
        Seq::empty()
    } else if reads.last().track == j {
        reads_on(reads.drop_last(), j).push(reads.last().outcome)
    } else {
        reads_on(reads.drop_last(), j)
    }
}

/// An active bridge is its tracks side by side: after any run of reads,
/// the reader of each track is where its own reads alone would have taken
/// it. What the other tracks met, failures included, has no part in it.
pub proof fn lemma_each_track_runs_alone(m: SubscribeModel, reads: Seq<Read>, j: int)
    requires
        m.state == SubscribeState::Active,
        0 <= j < m.readers.len(),
    ensures
        after_reads(m, reads).state == SubscribeState::Active,
        after_reads(m, reads).readers.len() == m.readers.len(),
        after_reads(m, reads).readers[j] == reader_after(m.readers[j], reads_on(reads, j)),
    decreases reads.len(),
{
    if reads.len() > 0 {
        let earlier = reads.drop_last();
        lemma_each_track_runs_alone(m, earlier, j);
        if reads.last().track == j {
            let mine = reads_on(reads, j);
            assert(mine.drop_last() =~= reads_on(earlier, j));
        }
    }
}

} // verus!
