//! The capture session: the decisions of the loop that opens a device, pulls
//! raw frames, decodes them and hands the records to the session's channel.
//!
//! The session itself performs no capture and owns no channel. Its driver
//! carries out each action and reports what happened as the next event, so a
//! record is asked to be enqueued before the next frame is pulled: while the
//! channel is full the driver waits there, and frames pile up in the capture
//! buffer of the operating system, which may then drop some of them.

use vstd::prelude::*;

use crate::frame::{decode, decode_spec};
use crate::record::{Data, DataView, DecodeError};
use crate::registry::{names_of, InterfaceRegistry, UnknownInterfaceId};

verus! {

/// How many records the channel of one session holds at most.
pub const CHANNEL_CAPACITY: usize = 15;

/// Why a session ended.
#[derive(Debug, Clone, Copy, PartialEq, Eq, Structural)]
pub enum CloseReason {
    /// The consumer of the records is gone.
    SinkClosed,
    /// Listing, opening or reading the device failed.
    DeviceError,
    /// No device has the session's interface name.
    DeviceNotFound,
    /// The process shuts down.
    ProcessShutdown,
}

/// Where a session stands.
#[derive(Debug, Clone, Copy, PartialEq, Eq, Structural)]
pub enum SessionState {
    Starting,
    Running,
    Closed(CloseReason),
}

/// What the driver reports to the session.
#[derive(Debug, Clone, PartialEq, Eq)]
pub enum SessionEvent {
    /// The devices were listed; their names, in the order of the listing.
    DevicesListed(Vec<String>),
    /// The capture handle is open.
    DeviceOpened,
    /// Listing, opening or reading the device failed.
    DeviceFailed,
    /// The capture handle delivered one raw frame.
    FrameCaptured(Vec<u8>),
    /// The channel took the record.
    RecordEnqueued,
    /// The channel has no consumer any more.
    SinkClosed,
    /// The process shuts down.
    Shutdown,
}

/// A `SessionEvent` over mathematical values.
pub enum SessionEventView {
    DevicesListed(Seq<Seq<char>>),
    DeviceOpened,
    DeviceFailed,
    FrameCaptured(Seq<u8>),
    RecordEnqueued,
    SinkClosed,
    Shutdown,
}

impl View for SessionEvent {
    type V = SessionEventView;

    open spec fn view(&self) -> SessionEventView {
        match *self {
            SessionEvent::DevicesListed(names) => SessionEventView::DevicesListed(names_of(names@)),
            SessionEvent::DeviceOpened => SessionEventView::DeviceOpened,
            SessionEvent::DeviceFailed => SessionEventView::DeviceFailed,
            SessionEvent::FrameCaptured(raw) => SessionEventView::FrameCaptured(raw@),
            SessionEvent::RecordEnqueued => SessionEventView::RecordEnqueued,
            SessionEvent::SinkClosed => SessionEventView::SinkClosed,
            SessionEvent::Shutdown => SessionEventView::Shutdown,
        }
    }
}

/// What the session asks of its driver.
#[derive(Debug, Clone, PartialEq, Eq)]
pub enum SessionAction {
    /// Open the listed device at `index` for live capture, in promiscuous
    /// mode and with immediate delivery as the flags say.
    OpenDevice { index: usize, promiscuous: bool, immediate: bool },
    /// Pull the next raw frame from the capture handle.
    PullFrame,
    /// Enqueue the record on the channel, waiting while the channel is full.
    Enqueue(Data),
    /// Release the capture handle, if one is open, and report the reason.
    Close(CloseReason),
    /// Nothing: the event does not concern the session where it stands.
    Ignore,
}

/// A `SessionAction` over mathematical values.
pub enum SessionActionView {
    OpenDevice { index: usize, promiscuous: bool, immediate: bool },
    PullFrame,
    Enqueue(DataView),
    Close(CloseReason),
    Ignore,
}

impl View for SessionAction {
    type V = SessionActionView;

    open spec fn view(&self) -> SessionActionView {
        match *self {
            SessionAction::OpenDevice { index, promiscuous, immediate } => {
                SessionActionView::OpenDevice { index, promiscuous, immediate }
            },
            SessionAction::PullFrame => SessionActionView::PullFrame,
            SessionAction::Enqueue(record) => SessionActionView::Enqueue(record@),
            SessionAction::Close(reason) => SessionActionView::Close(reason),
            SessionAction::Ignore => SessionActionView::Ignore,
        }
    }
}

/// Whether `i` is the first position in `names` that holds `wanted`.
pub open spec fn is_first_match(names: Seq<Seq<char>>, wanted: Seq<char>, i: int) -> bool {
    &&& 0 <= i < names.len()
    &&& names[i] == wanted
    &&& forall|j: int| 0 <= j < i ==> names[j] != wanted
}

/// The first position in `names` that holds `wanted`, if there is one.
pub open spec fn device_index(names: Seq<Seq<char>>, wanted: Seq<char>) -> Option<int> {
    if exists|i: int| is_first_match(names, wanted, i) {
        Some(choose|i: int| is_first_match(names, wanted, i))
    } else {
        None
    }
}

/// At most one position is the first match.
pub proof fn first_match_is_unique(names: Seq<Seq<char>>, wanted: Seq<char>, i: int, k: int)
    requires
        is_first_match(names, wanted, i),
        is_first_match(names, wanted, k),
    ensures
        i == k,
{
}

/// Finds the first listed device with the wanted name.
pub fn find_device(names: &Vec<String>, wanted: &String) -> (found: Option<usize>)
    ensures
        match found {
            Some(index) => device_index(names_of(names@), wanted@) == Some(index as int),
            None => device_index(names_of(names@), wanted@) is None,
        },
{
    let ghost listed = names_of(names@);
    let mut i: usize = 0;
    while i < names.len()
        invariant
            i <= names.len(),
            listed == names_of(names@),
            forall|j: int| 0 <= j < i ==> listed[j] != wanted@,
        decreases names.len() - i,
    {
        if names[i] == *wanted {
            proof {
                assert(is_first_match(listed, wanted@, i as int));
                let chosen = choose|k: int| is_first_match(listed, wanted@, k);
                first_match_is_unique(listed, wanted@, i as int, chosen);
            }
            return Some(i);
        }
        i = i + 1;
    }
    None
}

/// The state that follows `state` on `event`, and the action that the
/// session then asks for, in a session for the interface `name`.
///
/// A closed session stays as it is. Otherwise a failed device, a closed sink
/// and a shutdown close the session with their reason. While starting, the
/// listing is searched for the interface and the open handle starts the
/// capture; while running, each frame is decoded: a record is enqueued, a
/// frame that does not decode is dropped and the next one pulled.
pub open spec fn next(name: Seq<char>, state: SessionState, event: SessionEventView) -> (
    SessionState,
    SessionActionView,
) {
    match state {
        SessionState::Closed(_) => (state, SessionActionView::Ignore),
        _ => match event {
            SessionEventView::DeviceFailed => closing(CloseReason::DeviceError),
            SessionEventView::SinkClosed => closing(CloseReason::SinkClosed),
            SessionEventView::Shutdown => closing(CloseReason::ProcessShutdown),
            SessionEventView::DevicesListed(names) => if state != SessionState::Starting {
                (state, SessionActionView::Ignore)
            } else {
                match device_index(names, name) {
                    Some(index) => (
                        SessionState::Starting,
                        SessionActionView::OpenDevice {
                            index: index as usize,
                            promiscuous: true,
                            immediate: true,
                        },
                    ),
                    None => closing(CloseReason::DeviceNotFound),
                }
            },
            SessionEventView::DeviceOpened => if state != SessionState::Starting {
                (state, SessionActionView::Ignore)
            } else {
                (SessionState::Running, SessionActionView::PullFrame)
            },
            SessionEventView::FrameCaptured(raw) => if state != SessionState::Running {
                (state, SessionActionView::Ignore)
            } else {
                match decode_spec(raw) {
                    Ok(record) => (SessionState::Running, SessionActionView::Enqueue(record)),
                    Err(_) => (SessionState::Running, SessionActionView::PullFrame),
                }
            },
            SessionEventView::RecordEnqueued => if state != SessionState::Running {
                (state, SessionActionView::Ignore)
            } else {
                (SessionState::Running, SessionActionView::PullFrame)
            },
        },
    }
}

/// The closed state for a reason, with the action that reports it.
pub open spec fn closing(reason: CloseReason) -> (SessionState, SessionActionView) {
    (SessionState::Closed(reason), SessionActionView::Close(reason))
}

/// What a `CaptureSession` holds, as mathematical values.
pub struct SessionView {
    pub interface_name: Seq<char>,
    pub state: SessionState,
}

/// One capture session, bound to one interface name for its whole life.
#[derive(Debug)]
pub struct CaptureSession {
    interface_name: String,
    state: SessionState,
}

impl View for CaptureSession {
    type V = SessionView;

    closed spec fn view(&self) -> SessionView {
        SessionView { interface_name: self.interface_name@, state: self.state }
    }
}

impl CaptureSession {
    /// A session for the named interface, in state `Starting`.
    pub fn new(interface_name: String) -> (session: CaptureSession)
        ensures
            session@ == (SessionView {
                interface_name: interface_name@,
                state: SessionState::Starting,
            }),
    {
        CaptureSession { interface_name, state: SessionState::Starting }
    }

    /// The name of the interface that the session captures on.
    pub fn interface_name(&self) -> (name: &String)
        ensures
            name@ == self@.interface_name,
    {
        &self.interface_name
    }

    /// Where the session stands.
    pub fn state(&self) -> (state: SessionState)
        ensures
            state == self@.state,
    {
        self.state
    }

    fn close(&mut self, reason: CloseReason) -> (action: SessionAction)
        ensures
            final(self)@.interface_name == old(self)@.interface_name,
            (final(self)@.state, action@) == closing(reason),
    {
        self.state = SessionState::Closed(reason);
        SessionAction::Close(reason)
    }

    /// Takes one event: moves the session to the state that follows and
    /// returns the action that the driver is to perform next.
    pub fn step(&mut self, event: SessionEvent) -> (action: SessionAction)
        ensures
            final(self)@.interface_name == old(self)@.interface_name,
            (final(self)@.state, action@) == next(
                old(self)@.interface_name,
                old(self)@.state,
                event@,
            ),
    {
        match self.state {
            SessionState::Closed(_) => SessionAction::Ignore,
            SessionState::Starting => match event {
                SessionEvent::DeviceFailed => self.close(CloseReason::DeviceError),
                SessionEvent::SinkClosed => self.close(CloseReason::SinkClosed),
                SessionEvent::Shutdown => self.close(CloseReason::ProcessShutdown),
                SessionEvent::DevicesListed(names) => match find_device(
                    &names,
                    &self.interface_name,
                ) {
                    Some(index) => SessionAction::OpenDevice {
                        index,
                        promiscuous: true,
                        immediate: true,
                    },
                    None => self.close(CloseReason::DeviceNotFound),
                },
                SessionEvent::DeviceOpened => {
                    self.state = SessionState::Running;
                    SessionAction::PullFrame
                },
                SessionEvent::FrameCaptured(_) => SessionAction::Ignore,
                SessionEvent::RecordEnqueued => SessionAction::Ignore,
            },
            SessionState::Running => match event {
                SessionEvent::DeviceFailed => self.close(CloseReason::DeviceError),
                SessionEvent::SinkClosed => self.close(CloseReason::SinkClosed),
                SessionEvent::Shutdown => self.close(CloseReason::ProcessShutdown),
                SessionEvent::DevicesListed(_) => SessionAction::Ignore,
                SessionEvent::DeviceOpened => SessionAction::Ignore,
                SessionEvent::FrameCaptured(raw) => match decode(raw.as_slice()) {
                    Ok(record) => SessionAction::Enqueue(record),
                    Err(_) => SessionAction::PullFrame,
                },
                SessionEvent::RecordEnqueued => SessionAction::PullFrame,
            },
        }
    }
}

/// Answers a request to stream from the device with this identifier: a new
/// session for its interface, or the refusal where the registry has no such
/// device, in which case no session exists.
pub fn request_stream(registry: &InterfaceRegistry, id: usize) -> (res: Result<
    CaptureSession,
    UnknownInterfaceId,
>)
    ensures
        match res {
            Ok(session) => id < registry@.len() && session@ == (SessionView {
                interface_name: registry@[id as int],
                state: SessionState::Starting,
            }),
            Err(refusal) => id >= registry@.len() && refusal == (UnknownInterfaceId { id }),
        },
{
    match registry.resolve(id) {
        Ok(name) => Ok(CaptureSession::new(name)),
        Err(refusal) => Err(refusal),
    }
}

/// Where a session for `name` stands after it took `events` one by one from
/// `state`, and the actions it asked for, in the order of the events.
pub open spec fn run(name: Seq<char>, state: SessionState, events: Seq<SessionEventView>) -> (
    SessionState,
    Seq<SessionActionView>,
)
    decreases events.len(),
{
    if events.len() == 0 {
        (state, Seq::empty())
    } else {
        let before = run(name, state, events.drop_last());
        let last = next(name, before.0, events.last());
        (last.0, before.1.push(last.1))
    }
}

/// The records among a sequence of actions: those that are to be enqueued,
/// in the order in which they were asked for.
pub open spec fn enqueued(actions: Seq<SessionActionView>) -> Seq<DataView>
    decreases actions.len(),
{
    if actions.len() == 0 {
        Seq::empty()
    } else {
        match actions.last() {
            SessionActionView::Enqueue(record) => enqueued(actions.drop_last()).push(record),
            _ => enqueued(actions.drop_last()),
        }
    }
}

/// The records of the frames that decode, in the order of the frames.
pub open spec fn records_of(frames: Seq<Seq<u8>>) -> Seq<DataView>
    decreases frames.len(),
{
    if frames.len() == 0 {
        Seq::empty()
    } else {
        match decode_spec(frames.last()) {
            Ok(record) => records_of(frames.drop_last()).push(record),
            Err(_) => records_of(frames.drop_last()),
        }
    }
}

/// What a driver reports while it captures `frames`: each frame as it comes,
/// and after each frame that decodes, that the channel took its record.
pub open spec fn capture_events(frames: Seq<Seq<u8>>) -> Seq<SessionEventView>
    decreases frames.len(),
{
    if frames.len() == 0 {
        Seq::empty()
    } else if decode_spec(frames.last()) is Ok {
        capture_events(frames.drop_last()).push(
            SessionEventView::FrameCaptured(frames.last()),
        ).push(SessionEventView::RecordEnqueued)
    } else {
        capture_events(frames.drop_last()).push(SessionEventView::FrameCaptured(frames.last()))
    }
}

/// The records of two runs of frames, one after the other, are the records
/// of the first run followed by those of the second.
pub proof fn records_of_concatenation(first: Seq<Seq<u8>>, second: Seq<Seq<u8>>)
    ensures
        records_of(first + second) == records_of(first) + records_of(second),
    decreases second.len(),
{
    if second.len() > 0 {
        assert((first + second).drop_last() =~= first + second.drop_last());
        records_of_concatenation(first, second.drop_last());
    }
}

/// A running session that captures `frames` stays running and asks to
/// enqueue exactly the records of the frames that decode, in the order in
/// which the frames were captured.
pub proof fn records_follow_capture_order(name: Seq<char>, frames: Seq<Seq<u8>>)
    ensures
        run(name, SessionState::Running, capture_events(frames)).0 == SessionState::Running,
        enqueued(run(name, SessionState::Running, capture_events(frames)).1) == records_of(
            frames,
        ),
    decreases frames.len(),
{
    if frames.len() > 0 {
        records_follow_capture_order(name, frames.drop_last());
        let frame = frames.last();
        let earlier = capture_events(frames.drop_last());
        let before = run(name, SessionState::Running, earlier);
        let captured = earlier.push(SessionEventView::FrameCaptured(frame));
        let after_frame = run(name, SessionState::Running, captured);
        assert(captured.drop_last() =~= earlier);
        assert(after_frame.1.drop_last() =~= before.1);
        if decode_spec(frame) is Ok {
            let confirmed = captured.push(SessionEventView::RecordEnqueued);
            let after_all = run(name, SessionState::Running, confirmed);
            assert(confirmed.drop_last() =~= captured);
            assert(after_all.1.drop_last() =~= after_frame.1);
            assert(enqueued(after_all.1) == enqueued(after_frame.1));
        }
    }
}

/// Where every frame decodes, as many records as frames are enqueued, and
/// the record at each position is that of the frame at that position.
pub proof fn decodable_frames_keep_their_places(frames: Seq<Seq<u8>>)
    ensures
        (forall|i: int| 0 <= i < frames.len() ==> decode_spec(#[trigger] frames[i]) is Ok) ==> {
            &&& records_of(frames).len() == frames.len()
            &&& forall|i: int|
                0 <= i < frames.len() ==> decode_spec(frames[i]) == Ok::<DataView, DecodeError>(
                    #[trigger] records_of(frames)[i],
                )
        },
    decreases frames.len(),
{
    if frames.len() > 0 {
        decodable_frames_keep_their_places(frames.drop_last());
        if forall|i: int| 0 <= i < frames.len() ==> decode_spec(#[trigger] frames[i]) is Ok {
            assert forall|i: int| 0 <= i < frames.len() implies decode_spec(frames[i]) == Ok::<
                DataView,
                DecodeError,
            >(#[trigger] records_of(frames)[i]) by {
                if i < frames.len() - 1 {
                    assert(frames.drop_last()[i] == frames[i]);
                }
            }
        }
    }
}

/// A frame that does not decode leaves no trace among the records: those of
/// the frames before it and of the frames after it come as if it had not
/// been captured.
pub proof fn undecodable_frame_is_skipped(
    before: Seq<Seq<u8>>,
    dropped: Seq<u8>,
    after: Seq<Seq<u8>>,
)
    ensures
        decode_spec(dropped) is Err ==> records_of(before.push(dropped) + after) == records_of(
            before,
        ) + records_of(after),
{
    records_of_concatenation(before.push(dropped), after);
    assert(before.push(dropped).drop_last() =~= before);
}

/// A session that is not closed closes on the loss of its sink, with that
/// reason, and asks its driver to release the capture handle.
pub proof fn sink_closure_closes_session(name: Seq<char>, state: SessionState)
    requires
        !(state is Closed),
    ensures
        next(name, state, SessionEventView::SinkClosed) == (
            SessionState::Closed(CloseReason::SinkClosed),
            SessionActionView::Close(CloseReason::SinkClosed),
        ),
{
}

/// A closed session stays closed for its reason and asks for nothing more,
/// whatever is reported to it.
pub proof fn closed_session_stays_closed(
    name: Seq<char>,
    reason: CloseReason,
    event: SessionEventView,
)
    ensures
        next(name, SessionState::Closed(reason), event) == (
            SessionState::Closed(reason),
            SessionActionView::Ignore,
        ),
{
}

/// The session asks for the next frame only once the device is open, once
/// the channel took the last record, or after a frame that gave no record:
/// never while a record waits for room in the channel.
pub proof fn frame_is_pulled_only_when_idle(
    name: Seq<char>,
    state: SessionState,
    event: SessionEventView,
)
    ensures
        next(name, state, event).1 == SessionActionView::PullFrame <==> {
            ||| state == SessionState::Starting && event == SessionEventView::DeviceOpened
            ||| state == SessionState::Running && event == SessionEventView::RecordEnqueued
            ||| state == SessionState::Running && (event matches SessionEventView::FrameCaptured(
                raw,
            ) && decode_spec(raw) is Err)
        },
{
}

/// A session runs only after its device was opened, and reports a missing
/// device without ever running.
pub proof fn missing_device_never_runs(name: Seq<char>, names: Seq<Seq<char>>)
    ensures
        device_index(names, name) is None ==> next(
            name,
            SessionState::Starting,
            SessionEventView::DevicesListed(names),
        ) == closing(CloseReason::DeviceNotFound),
        forall|state: SessionState, event: SessionEventView|
            #[trigger] next(name, state, event).0 == SessionState::Running ==> state
                == SessionState::Running || (state == SessionState::Starting && event
                == SessionEventView::DeviceOpened),
{
}

} // verus!
