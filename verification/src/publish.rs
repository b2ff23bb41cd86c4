//! The publish bridge: from the capabilities and buffers of local input
//! ports to the catalog and frames of a broadcast.
//!
//! A bridge goes from idle to connecting, to ready, to publishing, and ends
//! closed. Tracks are added while the catalog is open. A bridge that was
//! never started refuses buffers; while it connects it takes them and writes
//! nothing. The first buffer that arrives on a ready bridge publishes the
//! catalog, and from that moment the catalog is final: it is published once
//! and no track is added to it again.
//!
//! A write that fails closes the track it failed on, and buffers for that
//! track are refused from then on. The other tracks go on. The bridge itself
//! closes when the last open track has failed, or when the session is lost,
//! or when it is stopped.

use vstd::prelude::*;
use crate::catalog::{
    has_name,
    unique_names,
    views,
    Catalog,
    MediaKind,
    TrackDescriptor,
    TrackView,
};
use crate::error::BridgeError;
use crate::frame::{frame_of, BufferView, Frame, FrameView, LocalBuffer};
use crate::negotiate::{describe, described, CapabilityView, LocalCapability};
use crate::session::{
    parsed_url_of,
    plan,
    plan_result,
    planned,
    ConnectPlan,
    PlanView,
    Settings,
};
use crate::text::text_eq;

verus! {

/// Where a publish bridge stands.
#[derive(Clone, Copy, Debug, PartialEq, Eq, Structural)]
pub enum PublishState {
    /// Nothing has been started.
    Idle,
    /// The session is being established.
    Connecting,
    /// The session is there; the catalog is still open.
    Ready,
    /// The catalog is published; buffers are written through.
    Publishing,
    /// The bridge failed or was stopped.
    Closed,
}

/// What to do with a buffer that was taken.
#[derive(Clone, Debug, PartialEq, Eq)]
pub enum BufferStep {
    /// Nothing: the session is still being established.
    Accepted,
    /// Publish the catalog, then write the frame to the track.
    PublishThenWrite(Frame),
    /// Write the frame to the track.
    Write(Frame),
}

/// What a buffer step holds.
pub enum StepView {
    Accepted,
    PublishThenWrite(FrameView),
    Write(FrameView),
}

impl View for BufferStep {
    type V = StepView;

    open spec fn view(&self) -> StepView {
        match self {
            BufferStep::Accepted => StepView::Accepted,
            BufferStep::PublishThenWrite(frame) => StepView::PublishThenWrite(frame@),
            BufferStep::Write(frame) => StepView::Write(frame@),
        }
    }
}

/// What a publish bridge holds.
pub struct PublishModel {
    pub state: PublishState,
    /// The tracks in the order in which they were added.
    pub tracks: Seq<TrackView>,
    /// For each track, whether it still takes buffers.
    pub open: Seq<bool>,
    /// Why the bridge closed, where it closed on a failure.
    pub failure: Option<BridgeError>,
}

impl PublishModel {
    /// Every track has its flag, and no two tracks share a name.
    pub open spec fn wf(self) -> bool {
        self.tracks.len() == self.open.len() && unique_names(self.tracks)
    }

    /// The catalog is final: it has been published, or never will be.
    pub open spec fn finalized(self) -> bool {
        self.state == PublishState::Publishing || self.state == PublishState::Closed
    }
}

/// A bridge on which nothing has happened.
pub open spec fn idle_publisher() -> PublishModel {
    PublishModel {
        state: PublishState::Idle,
        tracks: Seq::empty(),
        open: Seq::empty(),
        failure: None,
    }
}

/// Whether no track is open any more.
pub open spec fn none_open(open: Seq<bool>) -> bool {
    forall|i: int| 0 <= i < open.len() ==> !(#[trigger] open[i])
}

/// Starting: an idle bridge with a plan begins to connect; without a plan it
/// stays idle and hands the error on. A bridge that is not idle refuses.
pub open spec fn after_start(m: PublishModel, plan: Result<PlanView, BridgeError>) -> (
    PublishModel,
    Result<PlanView, BridgeError>,
) {
    if m.state != PublishState::Idle {
        (m, Err(BridgeError::ProtocolViolation))
    } else {
        match plan {
            Ok(p) => (PublishModel { state: PublishState::Connecting, ..m }, Ok(p)),
            Err(e) => (m, Err(e)),
        }
    }
}

/// The session is there: a connecting bridge becomes ready.
pub open spec fn after_session_ready(m: PublishModel) -> PublishModel {
    if m.state == PublishState::Connecting {
        PublishModel { state: PublishState::Ready, ..m }
    } else {
        m
    }
}

/// The session could not be established, or was lost, or refused the
/// catalog: the bridge closes on a connection error, unless it was idle or
/// closed already.
pub open spec fn after_session_failed(m: PublishModel) -> PublishModel {
    match m.state {
        PublishState::Idle | PublishState::Closed => m,
        _ => PublishModel {
            state: PublishState::Closed,
            failure: Some(BridgeError::Connect),
            ..m
        },
    }
}

/// A port's capability is known. While the catalog is open, a capability
/// that can be described, under a name that is new, adds a track and
/// answers its index. Once the catalog is final every attempt is refused.
pub open spec fn after_capability(
    m: PublishModel,
    name: Seq<char>,
    priority: i8,
    caps: CapabilityView,
) -> (PublishModel, Result<int, BridgeError>) {
    if m.finalized() {
        (m, Err(BridgeError::ProtocolViolation))
    } else {
        match described(name, priority, caps) {
            Err(e) => (m, Err(e)),
            Ok(track) => if has_name(m.tracks, name) {
                (m, Err(BridgeError::ProtocolViolation))
            } else {
                (
                    PublishModel { tracks: m.tracks.push(track), open: m.open.push(true), ..m },
                    Ok(m.tracks.len() as int),
                )
            },
        }
    }
}

/// A buffer arrived for track `i`. A bridge that was never started or is
/// closed, an unknown or closed track, and a buffer that makes no frame are
/// flow errors. While the bridge connects the buffer is taken and nothing is
/// written. On a ready bridge the catalog is published with it, and the
/// bridge is publishing from then on.
pub open spec fn after_buffer(m: PublishModel, i: int, buffer: BufferView) -> (
    PublishModel,
    Result<StepView, BridgeError>,
) {
    if m.state == PublishState::Idle || m.state == PublishState::Closed || !(0 <= i
        < m.open.len()) || !m.open[i] {
        (m, Err(BridgeError::Flow))
    } else {
        match frame_of(buffer) {
            Err(e) => (m, Err(e)),
            Ok(frame) => match m.state {
                PublishState::Ready => (
                    PublishModel { state: PublishState::Publishing, ..m },
                    Ok(StepView::PublishThenWrite(frame)),
                ),
                PublishState::Publishing => (m, Ok(StepView::Write(frame))),
                _ => (m, Ok(StepView::Accepted)),
            },
        }
    }
}

/// A write on track `i` failed. The track is closed; the bridge closes with
/// it when no other track is open.
pub open spec fn after_write_failed(m: PublishModel, i: int) -> PublishModel {
    if m.state == PublishState::Publishing && 0 <= i < m.open.len() && m.open[i] {
        let open = m.open.update(i, false);
        if none_open(open) {
            PublishModel {
                state: PublishState::Closed,
                open,
                failure: Some(BridgeError::TrackIo),
                ..m
            }
        } else {
            PublishModel { open, ..m }
        }
    } else {
        m
    }
}

/// Stopping closes the bridge.
pub open spec fn after_stop(m: PublishModel) -> PublishModel {
    PublishModel { state: PublishState::Closed, ..m }
}

/// What the result of taking a buffer holds.
pub open spec fn step_result(out: Result<BufferStep, BridgeError>) -> Result<
    StepView,
    BridgeError,
> {
    match out {
        Ok(step) => Ok(step@),
        Err(e) => Err(e),
    }
}

/// What the result of adding a track holds.
pub open spec fn index_result(out: Result<usize, BridgeError>) -> Result<int, BridgeError> {
    match out {
        Ok(index) => Ok(index as int),
        Err(e) => Err(e),
    }
}

/// The tracks of a kind, in the order in which they stand.
pub open spec fn of_kind(tracks: Seq<TrackView>, kind: MediaKind) -> Seq<TrackView>
    decreases tracks.len(),
{
    if tracks.len() == 0 {
        Seq::empty()
    } else {
        let rest = of_kind(tracks.drop_last(), kind);
        if tracks.last().media.spec_kind() == kind {
            rest.push(tracks.last())
        } else {
            rest
        }
    }
}

/// Where in `tracks` each track of a kind stands, in order.
pub open spec fn places_of(tracks: Seq<TrackView>, kind: MediaKind) -> Seq<int>
    decreases tracks.len(),
{
    if tracks.len() == 0 {
        Seq::empty()
    } else {
        let rest = places_of(tracks.drop_last(), kind);
        if tracks.last().media.spec_kind() == kind {
            rest.push(tracks.len() - 1)
        } else {
            rest
        }
    }
}

/// The tracks of a kind are tracks of the list, each of that kind, taken
/// from places that go upwards.
pub proof fn lemma_of_kind_places(tracks: Seq<TrackView>, kind: MediaKind)
    ensures
        places_of(tracks, kind).len() == of_kind(tracks, kind).len(),
        forall|i: int|
            0 <= i < of_kind(tracks, kind).len() ==> {
                let place = #[trigger] places_of(tracks, kind)[i];
                &&& 0 <= place < tracks.len()
                &&& tracks[place] == of_kind(tracks, kind)[i]
                &&& tracks[place].media.spec_kind() == kind
            },
        forall|i: int, j: int|
            0 <= i < j < of_kind(tracks, kind).len() ==> #[trigger] places_of(tracks, kind)[i]
                < #[trigger] places_of(tracks, kind)[j],
    decreases tracks.len(),
{
    if tracks.len() > 0 {
        lemma_of_kind_places(tracks.drop_last(), kind);
    }
}

/// Sorting uniquely named tracks by kind, video first, leaves the names
/// unique.
pub proof fn lemma_sorted_by_kind_is_unique(tracks: Seq<TrackView>)
    requires
        unique_names(tracks),
    ensures
        unique_names(of_kind(tracks, MediaKind::Video) + of_kind(tracks, MediaKind::Audio)),
{
    let video = of_kind(tracks, MediaKind::Video);
    let audio = of_kind(tracks, MediaKind::Audio);
    let all = video + audio;
    lemma_of_kind_places(tracks, MediaKind::Video);
    lemma_of_kind_places(tracks, MediaKind::Audio);
    let place = |k: int|
        if k < video.len() {
            places_of(tracks, MediaKind::Video)[k]
        } else {
            places_of(tracks, MediaKind::Audio)[k - video.len()]
        };
    assert forall|i: int, j: int| 0 <= i < all.len() && 0 <= j < all.len() && i != j implies (
    #[trigger] all[i]).name != (#[trigger] all[j]).name by {
        assert(tracks[place(i)] == all[i]);
        assert(tracks[place(j)] == all[j]);
    }
}

/// The publish side of the bridge.
#[derive(Debug)]
pub struct PublishBridge {
    state: PublishState,
    tracks: Vec<TrackDescriptor>,
    open: Vec<bool>,
    failure: Option<BridgeError>,
}

impl View for PublishBridge {
    type V = PublishModel;

    closed spec fn view(&self) -> PublishModel {
        PublishModel {
            state: self.state,
            tracks: views(self.tracks@),
            open: self.open@,
            failure: self.failure,
        }
    }
}

impl PublishBridge {
    /// A bridge on which nothing has happened.
    pub fn new() -> (bridge: PublishBridge)
        ensures
            bridge@ == idle_publisher(),
            bridge@.wf(),
    {
        let bridge = PublishBridge {
            state: PublishState::Idle,
            tracks: Vec::new(),
            open: Vec::new(),
            failure: None,
        };
        assert(bridge@.tracks =~= Seq::<TrackView>::empty());
        bridge
    }

    /// Where the bridge stands.
    pub fn state(&self) -> (state: PublishState)
        ensures
            state == self@.state,
    {
        self.state
    }

    /// Why the bridge closed, where it closed on a failure.
    pub fn failure(&self) -> (failure: Option<BridgeError>)
        ensures
            failure == self@.failure,
    {
        self.failure
    }

    /// The number of tracks.
    pub fn track_count(&self) -> (count: usize)
        ensures
            count == self@.tracks.len(),
    {
        self.tracks.len()
    }

    /// Whether track `index` is there and still takes buffers.
    pub fn is_open(&self, index: usize) -> (open: bool)
        ensures
            open == (index < self@.open.len() && self@.open[index as int]),
    {
        index < self.open.len() && self.open[index]
    }

    /// Whether the catalog is final.
    pub fn is_finalized(&self) -> (finalized: bool)
        ensures
            finalized == self@.finalized(),
    {
        match self.state {
            PublishState::Publishing | PublishState::Closed => true,
            _ => false,
        }
    }

    /// The descriptor of track `index`.
    pub fn track(&self, index: usize) -> (found: Option<&TrackDescriptor>)
        ensures
            match found {
                Some(track) => index < self@.tracks.len() && track@ == self@.tracks[index as int],
                None => index >= self@.tracks.len(),
            },
    {
        if index < self.tracks.len() {
            Some(&self.tracks[index])
        } else {
            None
        }
    }

    /// The catalog as it stands: the video tracks, then the audio tracks,
    /// each kind in the order in which its tracks were added.
    pub fn catalog(&self) -> (catalog: Catalog)
        ensures
            views(catalog.video@) == of_kind(self@.tracks, MediaKind::Video),
            views(catalog.audio@) == of_kind(self@.tracks, MediaKind::Audio),
            self@.wf() ==> catalog.wf(),
    {
        let mut catalog = Catalog { video: Vec::new(), audio: Vec::new() };
        let ghost tracks = self@.tracks;
        let mut i: usize = 0;
        while i < self.tracks.len()
            invariant
                i <= self.tracks@.len(),
                tracks == self@.tracks,
                tracks.len() == self.tracks@.len(),
                views(catalog.video@) =~= of_kind(
                    tracks.subrange(0, i as int),
                    MediaKind::Video,
                ),
                views(catalog.audio@) =~= of_kind(
                    tracks.subrange(0, i as int),
                    MediaKind::Audio,
                ),
            decreases self.tracks@.len() - i,
        {
            let copy = self.tracks[i].duplicate();
            proof {
                let next = tracks.subrange(0, i + 1);
                assert(next.drop_last() =~= tracks.subrange(0, i as int));
            }
            match copy.media.kind() {
                MediaKind::Video => {
                    catalog.video.push(copy);
                },
                MediaKind::Audio => {
                    catalog.audio.push(copy);
                },
            }
            i = i + 1;
        }
        assert(tracks.subrange(0, i as int) =~= tracks);
        proof {
            lemma_of_kind_places(tracks, MediaKind::Video);
            lemma_of_kind_places(tracks, MediaKind::Audio);
            assert forall|k: int| 0 <= k < catalog.video@.len() implies (
            #[trigger] catalog.video@[k]).media.spec_kind() == MediaKind::Video by {
                assert(tracks[places_of(tracks, MediaKind::Video)[k]] == catalog.video@[k]@);
            }
            assert forall|k: int| 0 <= k < catalog.audio@.len() implies (
            #[trigger] catalog.audio@[k]).media.spec_kind() == MediaKind::Audio by {
                assert(tracks[places_of(tracks, MediaKind::Audio)[k]] == catalog.audio@[k]@);
            }
            if self@.wf() {
                lemma_sorted_by_kind_is_unique(tracks);
            }
        }
        catalog
    }

    /// Begins the setup: checks the settings and says what to dial. On a
    /// configuration error the bridge stays idle, and nothing is to be
    /// dialled or spawned.
    pub fn start(&mut self, settings: &Settings) -> (out: Result<ConnectPlan, BridgeError>)
        ensures
            (final(self)@, plan_result(out)) == after_start(
                old(self)@,
                planned(settings@, parsed_url_of(settings@)),
            ),
    {
        match self.state {
            PublishState::Idle => {},
            _ => {
                return Err(BridgeError::ProtocolViolation);
            },
        }
        match plan(settings) {
            Ok(p) => {
                self.state = PublishState::Connecting;
                Ok(p)
            },
            Err(e) => Err(e),
        }
    }

    /// Takes note that the session is established.
    pub fn on_session_ready(&mut self)
        ensures
            final(self)@ == after_session_ready(old(self)@),
    {
        match self.state {
            PublishState::Connecting => {
                self.state = PublishState::Ready;
            },
            _ => {},
        }
    }

    /// Takes note that the session could not be established, was lost, or
    /// refused the catalog.
    pub fn on_session_failed(&mut self)
        ensures
            final(self)@ == after_session_failed(old(self)@),
    {
        match self.state {
            PublishState::Idle | PublishState::Closed => {},
            _ => {
                self.state = PublishState::Closed;
                self.failure = Some(BridgeError::Connect);
            },
        }
    }

    /// Whether a track is named `name`.
    fn has_track(&self, name: &str) -> (found: bool)
        ensures
            found == has_name(self@.tracks, name@),
    {
        let mut i: usize = 0;
        while i < self.tracks.len()
            invariant
                i <= self.tracks@.len(),
                self@.tracks.len() == self.tracks@.len(),
                forall|k: int| 0 <= k < i ==> (#[trigger] self@.tracks[k]).name != name@,
            decreases self.tracks@.len() - i,
        {
            if text_eq(self.tracks[i].name.as_str(), name) {
                assert(self@.tracks[i as int].name == name@);
                return true;
            }
            i = i + 1;
        }
        false
    }

    /// Registers the capability of the port `name` as a track of the
    /// catalog and answers the track's index, by which its buffers are
    /// handed in. Refused once the catalog is final, for a capability the
    /// negotiator cannot describe, and for a name that is taken. A refusal
    /// changes nothing.
    pub fn on_capability(&mut self, name: &str, priority: i8, caps: &LocalCapability) -> (out:
        Result<usize, BridgeError>)
        ensures
            old(self)@.wf() ==> final(self)@.wf(),
            (final(self)@, index_result(out)) == after_capability(
                old(self)@,
                name@,
                priority,
                caps@,
            ),
    {
        if self.is_finalized() {
            return Err(BridgeError::ProtocolViolation);
        }
        match describe(name, priority, caps) {
            Err(e) => Err(e),
            Ok(track) => {
                if self.has_track(name) {
                    return Err(BridgeError::ProtocolViolation);
                }
                let index = self.tracks.len();
                let ghost before = self@;
                let ghost added = track@;
                self.tracks.push(track);
                self.open.push(true);
                proof {
                    assert(self@.tracks =~= before.tracks.push(added));
                    lemma_step_moves_forward(
                        before,
                        PublishEvent::Capability { name: name@, priority, caps: caps@ },
                    );
                }
                Ok(index)
            },
        }
    }

    /// Takes a buffer for track `index` and says what to do with it. A
    /// bridge that was never started takes none.
    pub fn on_buffer(&mut self, index: usize, buffer: &LocalBuffer) -> (out: Result<
        BufferStep,
        BridgeError,
    >)
        ensures
            (final(self)@, step_result(out)) == after_buffer(old(self)@, index as int, buffer@),
            old(self)@.state == PublishState::Idle ==> final(self)@ == old(self)@ && out == Err::<
                BufferStep,
                BridgeError,
            >(BridgeError::Flow),
            old(self)@.wf() ==> final(self)@.wf(),
    {
        match self.state {
            PublishState::Idle | PublishState::Closed => {
                return Err(BridgeError::Flow);
            },
            _ => {},
        }
        if !self.is_open(index) {
            return Err(BridgeError::Flow);
        }
        match Frame::from_buffer(buffer) {
            Err(e) => Err(e),
            Ok(frame) => match self.state {
                PublishState::Ready => {
                    self.state = PublishState::Publishing;
                    Ok(BufferStep::PublishThenWrite(frame))
                },
                PublishState::Publishing => Ok(BufferStep::Write(frame)),
                _ => Ok(BufferStep::Accepted),
            },
        }
    }

    /// Takes note that a write on track `index` failed. Answers whether the
    /// bridge is still publishing.
    pub fn on_write_failed(&mut self, index: usize) -> (publishing: bool)
        ensures
            final(self)@ == after_write_failed(old(self)@, index as int),
            publishing == (final(self)@.state == PublishState::Publishing),
            old(self)@.wf() ==> final(self)@.wf(),
    {
        match self.state {
            PublishState::Publishing => {},
            _ => {
                return false;
            },
        }
        if !self.is_open(index) {
            return true;
        }
        let ghost before = self@;
        self.open.set(index, false);
        let ghost closed = self@;
        let mut i: usize = 0;
        while i < self.open.len()
            invariant
                i <= self.open@.len(),
                self@ == closed,
                before == old(self)@,
                before.state == PublishState::Publishing,
                0 <= index < before.open.len() && before.open[index as int],
                closed == (PublishModel {
                    open: before.open.update(index as int, false),
                    ..before
                }),
                closed.open.len() == self.open@.len(),
                forall|k: int| 0 <= k < i ==> !(#[trigger] closed.open[k]),
            decreases self.open@.len() - i,
        {
            if self.open[i] {
                return true;
            }
            i = i + 1;
        }
        self.state = PublishState::Closed;
        self.failure = Some(BridgeError::TrackIo);
        false
    }

    /// Stops the bridge. Buffers are refused from now on.
    pub fn stop(&mut self)
        ensures
            final(self)@ == after_stop(old(self)@),
    {
        self.state = PublishState::Closed;
    }
}

/// Something that happens to a publish bridge.
pub enum PublishEvent {
    Start { plan: Result<PlanView, BridgeError> },
    SessionReady,
    SessionFailed,
    Capability { name: Seq<char>, priority: i8, caps: CapabilityView },
    Buffer { track: int, buffer: BufferView },
    WriteFailed { track: int },
    Stop,
}

/// The bridge after an event.
pub open spec fn after_event(m: PublishModel, event: PublishEvent) -> PublishModel {
    match event {
        PublishEvent::Start { plan } => after_start(m, plan).0,
        PublishEvent::SessionReady => after_session_ready(m),
        PublishEvent::SessionFailed => after_session_failed(m),
        PublishEvent::Capability { name, priority, caps } => after_capability(
            m,
            name,
            priority,
            caps,
        ).0,
        PublishEvent::Buffer { track, buffer } => after_buffer(m, track, buffer).0,
        PublishEvent::WriteFailed { track } => after_write_failed(m, track),
        PublishEvent::Stop => after_stop(m),
    }
}

/// Whether the event makes the bridge publish its catalog.
pub open spec fn publishes(m: PublishModel, event: PublishEvent) -> bool {
    match event {
        PublishEvent::Buffer { track, buffer } => after_buffer(m, track, buffer).1 matches Ok(
            StepView::PublishThenWrite(_),
        ),
        _ => false,
    }
}

/// The bridge after a run of events.
pub open spec fn after_events(m: PublishModel, events: Seq<PublishEvent>) -> PublishModel
    decreases events.len(),
{
    if events.len() == 0 {
        m
    } else {
        after_events(after_event(m, events[0]), events.drop_first())
    }
}

/// How often the bridge publishes its catalog over a run of events.
pub open spec fn publish_count(m: PublishModel, events: Seq<PublishEvent>) -> nat
    decreases events.len(),
{
    if events.len() == 0 {
        0
    } else {
        let now: nat = if publishes(m, events[0]) {
            1
        } else {
            0
        };
        now + publish_count(after_event(m, events[0]), events.drop_first())
    }
}

/// How far along a state is.
pub open spec fn rank(state: PublishState) -> int {
    match state {
        PublishState::Idle => 0,
        PublishState::Connecting => 1,
        PublishState::Ready => 2,
        PublishState::Publishing => 3,
        PublishState::Closed => 4,
    }
}

/// No event takes a bridge back: it stays where it is or moves on. An event
/// keeps a well-formed bridge well formed, and publishes only on the move
/// from ready to publishing.
pub proof fn lemma_step_moves_forward(m: PublishModel, event: PublishEvent)
    ensures
        rank(m.state) <= rank(after_event(m, event).state),
        m.wf() ==> after_event(m, event).wf(),
        publishes(m, event) ==> m.state == PublishState::Ready && after_event(m, event).state
            == PublishState::Publishing,
        m.finalized() ==> after_event(m, event).tracks == m.tracks,
{
}

/// Once the catalog is final it stays final and keeps its tracks, whatever
/// happens, and it is not published again.
pub proof fn lemma_final_catalog_is_kept(m: PublishModel, events: Seq<PublishEvent>)
    requires
        m.finalized(),
    ensures
        after_events(m, events).finalized(),
        after_events(m, events).tracks == m.tracks,
        publish_count(m, events) == 0,
    decreases events.len(),
{
    if events.len() > 0 {
        lemma_step_moves_forward(m, events[0]);
        lemma_final_catalog_is_kept(after_event(m, events[0]), events.drop_first());
    }
}

/// Over any run of events, from any bridge, the catalog is published at
/// most once.
pub proof fn lemma_catalog_is_published_at_most_once(m: PublishModel, events: Seq<PublishEvent>)
    ensures
        publish_count(m, events) <= 1,
    decreases events.len(),
{
    if events.len() > 0 {
        lemma_step_moves_forward(m, events[0]);
        if publishes(m, events[0]) {
            lemma_final_catalog_is_kept(after_event(m, events[0]), events.drop_first());
        } else {
            lemma_catalog_is_published_at_most_once(after_event(m, events[0]), events.drop_first());
        }
    }
}

/// Only a bridge that was started and is not closed takes a buffer, and a
/// buffer is taken without being written exactly while the bridge connects.
/// On an idle bridge every buffer is a flow error and nothing changes.
pub proof fn lemma_only_a_started_bridge_takes_buffers(m: PublishModel, i: int, buffer: BufferView)
    ensures
        m.state == PublishState::Idle ==> after_buffer(m, i, buffer) == (
            m,
            Err::<StepView, BridgeError>(BridgeError::Flow),
        ),
        after_buffer(m, i, buffer).1 is Ok ==> m.state != PublishState::Idle && m.state
            != PublishState::Closed,
        after_buffer(m, i, buffer).1 == Ok::<StepView, BridgeError>(StepView::Accepted) ==> m.state
            == PublishState::Connecting,
        m.state == PublishState::Connecting && after_buffer(m, i, buffer).1 is Ok ==> after_buffer(
            m,
            i,
            buffer,
        ) == (m, Ok::<StepView, BridgeError>(StepView::Accepted)),
{
}

/// Once the catalog is final, adding a track is refused and changes nothing,
/// whatever the capability and the name.
pub proof fn lemma_no_track_after_publish(
    m: PublishModel,
    name: Seq<char>,
    priority: i8,
    caps: CapabilityView,
)
    requires
        m.finalized(),
    ensures
        after_capability(m, name, priority, caps) == (
            m,
            Err::<int, BridgeError>(BridgeError::ProtocolViolation),
        ),
{
}

/// A write that fails on one track leaves every other track open, and a
/// buffer for another track is answered as it would have been, as long as
/// one track is still open.
pub proof fn lemma_write_failure_stays_on_its_track(
    m: PublishModel,
    i: int,
    j: int,
    buffer: BufferView,
)
    requires
        i != j,
        m.state == PublishState::Publishing,
        0 <= j < m.open.len() && m.open[j],
    ensures
        after_write_failed(m, i).state == PublishState::Publishing,
        after_write_failed(m, i).open[j],
        after_write_failed(m, i).tracks == m.tracks,
        after_buffer(after_write_failed(m, i), j, buffer).1 == after_buffer(m, j, buffer).1,
{
    if 0 <= i < m.open.len() && m.open[i] {
        let open = m.open.update(i, false);
        assert(open[j]);
    }
}

/// A bridge with a single track closes on that track's first write failure,
/// and refuses every buffer from then on.
pub proof fn lemma_last_write_failure_closes(m: PublishModel, i: int, j: int, buffer: BufferView)
    requires
        m.state == PublishState::Publishing,
        0 <= i < m.open.len() && m.open[i],
        forall|k: int| 0 <= k < m.open.len() && k != i ==> !(#[trigger] m.open[k]),
    ensures
        after_write_failed(m, i).state == PublishState::Closed,
        after_write_failed(m, i).failure == Some(BridgeError::TrackIo),
        after_buffer(after_write_failed(m, i), j, buffer).1 == Err::<StepView, BridgeError>(
            BridgeError::Flow,
        ),
{
}

/// Whether an event is a buffer, or a write failure on a track other than `j`.
pub open spec fn spares(event: PublishEvent, j: int) -> bool {
    match event {
        PublishEvent::Buffer { .. } => true,
        PublishEvent::WriteFailed { track } => track != j,
        _ => false,
    }
}

/// However many writes fail on other tracks, and whatever buffers arrive,
/// an open track of a publishing bridge stays open and the bridge goes on
/// publishing: a buffer for that track is still written.
pub proof fn lemma_open_track_outlives_other_failures(
    m: PublishModel,
    events: Seq<PublishEvent>,
    j: int,
    buffer: BufferView,
)
    requires
        m.state == PublishState::Publishing,
        0 <= j < m.open.len() && m.open[j],
        forall|k: int| 0 <= k < events.len() ==> spares(#[trigger] events[k], j),
    ensures
        after_events(m, events).state == PublishState::Publishing,
        after_events(m, events).open.len() == m.open.len(),
        after_events(m, events).open[j],
        after_events(m, events).tracks == m.tracks,
        frame_of(buffer) matches Ok(frame) ==> after_buffer(after_events(m, events), j, buffer).1
            == Ok::<StepView, BridgeError>(StepView::Write(frame)),
    decreases events.len(),
{
    if events.len() > 0 {
        let next = after_event(m, events[0]);
        if let PublishEvent::WriteFailed { track } = events[0] {
            if 0 <= track < m.open.len() && m.open[track] {
                assert(m.open.update(track, false)[j]);
            }
        }
        lemma_open_track_outlives_other_failures(next, events.drop_first(), j, buffer);
    }
}

} // verus!
