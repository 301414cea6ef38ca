//! The capture session: the life of one exclusive grab of one device.
//!
//! The session itself touches no device.  Whoever drives it performs the
//! action that each step asks for (open and grab the device, read it, sleep,
//! release it) and reports what happened as the next event.  A session moves
//! from `Idle` through `Opening` and `Grabbed` to `Releasing` and back to
//! `Idle`; every way out of `Grabbed` passes through `Releasing`, where the
//! grab is given up.

use crate::events::{scan, ChordTracker, InputEvent};
use crate::registry::text_of;
use vstd::prelude::*;
use vstd::string::*;

verus! {

/// Milliseconds to sleep between two polls of the device.
pub const POLL_INTERVAL_MS: u64 = 10;

/// Where a session stands.
#[derive(Clone, Copy, Debug, PartialEq, Eq, Structural)]
pub enum Phase {
    /// No session is running.
    Idle,
    /// A lock was requested; the device is being opened and grabbed.
    Opening,
    /// The device is grabbed and is being polled.
    Grabbed,
    /// The session is ending; the grab is still held and is being released.
    Releasing,
}

/// What the driver of a session has to do next.
#[derive(Clone, Copy, Debug, PartialEq, Eq, Structural)]
pub enum SessionAction {
    /// The event did not concern the session in its phase; nothing changed.
    Nothing,
    /// Open the device and acquire exclusive capture.
    Open,
    /// Check for an unlock signal, then read the device without blocking.
    Poll,
    /// Sleep for the poll interval, then poll.
    SleepThenPoll,
    /// Release exclusive capture, ignoring any error.
    Release,
    /// The session is over.
    Finished,
}

/// Why a session failed.  Each kind carries the cause as reported by the
/// input subsystem.
#[derive(Debug)]
pub enum SessionError {
    /// The device could not be opened.
    DeviceOpenFailure(String),
    /// The device was opened but exclusive capture was refused.
    GrabAcquisitionFailure(String),
    /// Reading the grabbed device failed, as when it is unplugged.
    DeviceReadFailure(String),
}

/// A session error as plain values.
pub enum ErrorView {
    DeviceOpenFailure(Seq<char>),
    GrabAcquisitionFailure(Seq<char>),
    DeviceReadFailure(Seq<char>),
}

impl View for SessionError {
    type V = ErrorView;

    open spec fn view(&self) -> ErrorView {
        match *self {
            SessionError::DeviceOpenFailure(cause) => ErrorView::DeviceOpenFailure(cause@),
            SessionError::GrabAcquisitionFailure(cause) => ErrorView::GrabAcquisitionFailure(
                cause@,
            ),
            SessionError::DeviceReadFailure(cause) => ErrorView::DeviceReadFailure(cause@),
        }
    }
}

/// The message shown for an error: what failed, then the cause.
pub open spec fn message_of(error: ErrorView) -> Seq<char> {
    match error {
        ErrorView::DeviceOpenFailure(cause) => "Failed to open device: "@ + cause,
        ErrorView::GrabAcquisitionFailure(cause) => "Lock failed: "@ + cause,
        ErrorView::DeviceReadFailure(cause) => "Device disconnected: "@ + cause,
    }
}

/// An optional error as plain values.
pub open spec fn error_of(error: Option<SessionError>) -> Option<ErrorView> {
    match error {
        Some(e) => Some(e@),
        None => None,
    }
}

impl SessionError {
    /// The message shown for this error.
    pub fn message(&self) -> (text: String)
        ensures
            text@ == message_of(self@),
    {
        match self {
            SessionError::DeviceOpenFailure(cause) => {
                String::from_str("Failed to open device: ").concat(cause.as_str())
            },
            SessionError::GrabAcquisitionFailure(cause) => {
                String::from_str("Lock failed: ").concat(cause.as_str())
            },
            SessionError::DeviceReadFailure(cause) => {
                String::from_str("Device disconnected: ").concat(cause.as_str())
            },
        }
    }
}

/// What is reported to a session.
#[derive(Debug)]
pub enum SessionEvent {
    /// The controller asks to lock the device with this path.
    Lock(String),
    /// Opening the device failed, with this cause.
    OpenFailed(String),
    /// Acquiring exclusive capture failed, with this cause.
    GrabFailed(String),
    /// The device is open and exclusively captured.
    Grabbed,
    /// The controller's unlock signal was found.
    UnlockSignal,
    /// The device delivered this batch of events.
    Batch(Vec<InputEvent>),
    /// The device had nothing to deliver.
    WouldBlock,
    /// Reading the device failed, with this cause.
    ReadFailed(String),
    /// Exclusive capture has been released.
    Released,
}

/// An event as plain values.
pub enum EventView {
    Lock(Seq<char>),
    OpenFailed(Seq<char>),
    GrabFailed(Seq<char>),
    Grabbed,
    UnlockSignal,
    Batch(Seq<InputEvent>),
    WouldBlock,
    ReadFailed(Seq<char>),
    Released,
}

impl View for SessionEvent {
    type V = EventView;

    open spec fn view(&self) -> EventView {
        match *self {
            SessionEvent::Lock(path) => EventView::Lock(path@),
            SessionEvent::OpenFailed(cause) => EventView::OpenFailed(cause@),
            SessionEvent::GrabFailed(cause) => EventView::GrabFailed(cause@),
            SessionEvent::Grabbed => EventView::Grabbed,
            SessionEvent::UnlockSignal => EventView::UnlockSignal,
            SessionEvent::Batch(events) => EventView::Batch(events@),
            SessionEvent::WouldBlock => EventView::WouldBlock,
            SessionEvent::ReadFailed(cause) => EventView::ReadFailed(cause@),
            SessionEvent::Released => EventView::Released,
        }
    }
}

/// The state of a session as plain values.
pub struct SessionView {
    /// Where the session stands.
    pub phase: Phase,
    /// The path of the device that the session is bound to.
    pub device: Option<Seq<char>>,
    /// Whether a Control key is held, as far as the session has seen.
    pub control_held: bool,
    /// The error with which the current or the last session failed.
    pub failure: Option<ErrorView>,
}

impl SessionView {
    /// The session holds an exclusive grab on its device.
    pub open spec fn holds_grab(self) -> bool {
        self.phase == Phase::Grabbed || self.phase == Phase::Releasing
    }

    /// A session is bound to a device exactly while one is running, a
    /// session that is opening or polling has not failed, and no Control key
    /// counts as held before the device is grabbed.
    pub open spec fn wf(self) -> bool {
        &&& self.device is Some <==> self.phase != Phase::Idle
        &&& self.phase == Phase::Opening || self.phase == Phase::Grabbed ==> self.failure is None
        &&& self.phase == Phase::Idle || self.phase == Phase::Opening ==> !self.control_held
    }
}

/// The state before any session has run.
pub open spec fn initial() -> SessionView {
    SessionView { phase: Phase::Idle, device: None, control_held: false, failure: None }
}

/// The event ends a grabbed session: an unlock signal, a batch in which the
/// chord is completed, or a failed read.
pub open spec fn is_exit(s: SessionView, event: EventView, unlock_code: u16) -> bool {
    match event {
        EventView::UnlockSignal => true,
        EventView::Batch(events) => scan(events, unlock_code, s.control_held).unlock,
        EventView::ReadFailed(_) => true,
        _ => false,
    }
}

/// The state after an event.  An event that does not fit the phase changes
/// nothing.
pub open spec fn step_spec(s: SessionView, event: EventView, unlock_code: u16) -> SessionView {
    match (s.phase, event) {
        (Phase::Idle, EventView::Lock(path)) => SessionView {
            phase: Phase::Opening,
            device: Some(path),
            control_held: false,
            failure: None,
        },
        (Phase::Opening, EventView::OpenFailed(cause)) => SessionView {
            phase: Phase::Idle,
            device: None,
            control_held: false,
            failure: Some(ErrorView::DeviceOpenFailure(cause)),
        },
        (Phase::Opening, EventView::GrabFailed(cause)) => SessionView {
            phase: Phase::Idle,
            device: None,
            control_held: false,
            failure: Some(ErrorView::GrabAcquisitionFailure(cause)),
        },
        (Phase::Opening, EventView::Grabbed) => SessionView { phase: Phase::Grabbed, ..s },
        (Phase::Grabbed, EventView::UnlockSignal) => SessionView { phase: Phase::Releasing, ..s },
        (Phase::Grabbed, EventView::Batch(events)) => {
            let outcome = scan(events, unlock_code, s.control_held);
            SessionView {
                phase: if outcome.unlock {
                    Phase::Releasing
                } else {
                    Phase::Grabbed
                },
                control_held: outcome.held,
                ..s
            }
        },
        (Phase::Grabbed, EventView::WouldBlock) => s,
        (Phase::Grabbed, EventView::ReadFailed(cause)) => SessionView {
            phase: Phase::Releasing,
            failure: Some(ErrorView::DeviceReadFailure(cause)),
            ..s
        },
        (Phase::Releasing, EventView::Released) => SessionView {
            phase: Phase::Idle,
            device: None,
            control_held: false,
            ..s
        },
        _ => s,
    }
}

/// What the driver has to do after an event.
pub open spec fn action_spec(s: SessionView, event: EventView, unlock_code: u16) -> SessionAction {
    match (s.phase, event) {
        (Phase::Idle, EventView::Lock(_)) => SessionAction::Open,
        (Phase::Opening, EventView::OpenFailed(_)) => SessionAction::Finished,
        (Phase::Opening, EventView::GrabFailed(_)) => SessionAction::Finished,
        (Phase::Opening, EventView::Grabbed) => SessionAction::Poll,
        (Phase::Grabbed, EventView::UnlockSignal) => SessionAction::Release,
        (Phase::Grabbed, EventView::Batch(_)) => if is_exit(s, event, unlock_code) {
            SessionAction::Release
        } else {
            SessionAction::SleepThenPoll
        },
        (Phase::Grabbed, EventView::WouldBlock) => SessionAction::SleepThenPoll,
        (Phase::Grabbed, EventView::ReadFailed(_)) => SessionAction::Release,
        (Phase::Releasing, EventView::Released) => SessionAction::Finished,
        _ => SessionAction::Nothing,
    }
}

/// One capture session after the other, at most one at a time.
pub struct CaptureSession {
    phase: Phase,
    device: Option<String>,
    tracker: ChordTracker,
    failure: Option<SessionError>,
}

impl View for CaptureSession {
    type V = SessionView;

    closed spec fn view(&self) -> SessionView {
        SessionView {
            phase: self.phase,
            device: match self.device {
                Some(path) => Some(path@),
                None => None,
            },
            control_held: self.tracker.control_held,
            failure: error_of(self.failure),
        }
    }
}

impl CaptureSession {
    /// No session running, none has run.
    pub fn new() -> (session: CaptureSession)
        ensures
            session@ == initial(),
            session@.wf(),
    {
        CaptureSession {
            phase: Phase::Idle,
            device: None,
            tracker: ChordTracker::new(),
            failure: None,
        }
    }

    /// Where the session stands.
    pub fn phase(&self) -> (phase: Phase)
        ensures
            phase == self@.phase,
    {
        self.phase
    }

    /// Whether the session holds an exclusive grab on its device.
    pub fn holds_grab(&self) -> (held: bool)
        ensures
            held == self@.holds_grab(),
    {
        match self.phase {
            Phase::Grabbed => true,
            Phase::Releasing => true,
            _ => false,
        }
    }

    /// The path of the device that the running session is bound to.
    pub fn device(&self) -> (path: Option<String>)
        ensures
            text_of(path) == self@.device,
    {
        match &self.device {
            Some(path) => Some(path.clone()),
            None => None,
        }
    }

    /// Whether a Control key is held, as far as the session has seen.
    pub fn control_held(&self) -> (held: bool)
        ensures
            held == self@.control_held,
    {
        self.tracker.control_held
    }

    /// The message of the error with which the current or the last session
    /// failed.
    pub fn failure_message(&self) -> (text: Option<String>)
        ensures
            text_of(text) == (match self@.failure {
                Some(e) => Some(message_of(e)),
                None => None,
            }),
    {
        match &self.failure {
            Some(e) => Some(e.message()),
            None => None,
        }
    }

    /// Takes an event into account and says what to do next.
    /// `unlock_code` is the key code of the unlock key at this moment.
    pub fn step(&mut self, event: SessionEvent, unlock_code: u16) -> (action: SessionAction)
        ensures
            final(self)@ == step_spec(old(self)@, event@, unlock_code),
            action == action_spec(old(self)@, event@, unlock_code),
            old(self)@.wf() ==> final(self)@.wf(),
    {
        match (self.phase, event) {
            (Phase::Idle, SessionEvent::Lock(path)) => {
                self.phase = Phase::Opening;
                self.device = Some(path);
                self.tracker = ChordTracker::new();
                self.failure = None;
                SessionAction::Open
            },
            (Phase::Opening, SessionEvent::OpenFailed(cause)) => {
                self.phase = Phase::Idle;
                self.device = None;
                self.tracker = ChordTracker::new();
                self.failure = Some(SessionError::DeviceOpenFailure(cause));
                SessionAction::Finished
            },
            (Phase::Opening, SessionEvent::GrabFailed(cause)) => {
                self.phase = Phase::Idle;
                self.device = None;
                self.tracker = ChordTracker::new();
                self.failure = Some(SessionError::GrabAcquisitionFailure(cause));
                SessionAction::Finished
            },
            (Phase::Opening, SessionEvent::Grabbed) => {
                self.phase = Phase::Grabbed;
                SessionAction::Poll
            },
            (Phase::Grabbed, SessionEvent::UnlockSignal) => {
                self.phase = Phase::Releasing;
                SessionAction::Release
            },
            (Phase::Grabbed, SessionEvent::Batch(events)) => {
                if self.tracker.observe_batch(&events, unlock_code) {
                    self.phase = Phase::Releasing;
                    SessionAction::Release
                } else {
                    SessionAction::SleepThenPoll
                }
            },
            (Phase::Grabbed, SessionEvent::WouldBlock) => SessionAction::SleepThenPoll,
            (Phase::Grabbed, SessionEvent::ReadFailed(cause)) => {
                self.phase = Phase::Releasing;
                self.failure = Some(SessionError::DeviceReadFailure(cause));
                SessionAction::Release
            },
            (Phase::Releasing, SessionEvent::Released) => {
                self.phase = Phase::Idle;
                self.device = None;
                self.tracker = ChordTracker::new();
                SessionAction::Finished
            },
            _ => SessionAction::Nothing,
        }
    }
}

/// An event together with the unlock key code in force when it arrived.
pub struct Occurrence {
    pub event: EventView,
    pub unlock_code: u16,
}

/// The state after a sequence of events, taken in order.
pub open spec fn run(s: SessionView, trace: Seq<Occurrence>) -> SessionView
    decreases trace.len(),
{
    if trace.len() == 0 {
        s
    } else {
        run(step_spec(s, trace[0].event, trace[0].unlock_code), trace.drop_first())
    }
}

/// How often the driver is asked to release the grab along a sequence of
/// events.
pub open spec fn releases(s: SessionView, trace: Seq<Occurrence>) -> nat
    decreases trace.len(),
{
    if trace.len() == 0 {
        0
    } else {
        let asked: nat = if action_spec(s, trace[0].event, trace[0].unlock_code)
            == SessionAction::Release {
            1
        } else {
            0
        };
        asked + releases(
            step_spec(s, trace[0].event, trace[0].unlock_code),
            trace.drop_first(),
        )
    }
}

/// The session never reaches `Idle` before the end of the trace.
pub open spec fn busy_until_end(s: SessionView, trace: Seq<Occurrence>) -> bool {
    forall|k: int| 0 <= k < trace.len() ==> (#[trigger] run(s, trace.take(k))).phase != Phase::Idle
}

/// Every step keeps a well-formed session well-formed.
pub proof fn lemma_step_keeps_wf(s: SessionView, event: EventView, unlock_code: u16)
    requires
        s.wf(),
    ensures
        step_spec(s, event, unlock_code).wf(),
{
}

/// Every state that a well-formed session can reach is well-formed.
pub proof fn lemma_run_keeps_wf(s: SessionView, trace: Seq<Occurrence>)
    requires
        s.wf(),
    ensures
        run(s, trace).wf(),
    decreases trace.len(),
{
    if trace.len() > 0 {
        lemma_step_keeps_wf(s, trace[0].event, trace[0].unlock_code);
        lemma_run_keeps_wf(
            step_spec(s, trace[0].event, trace[0].unlock_code),
            trace.drop_first(),
        );
    }
}

/// The ways into and out of a grab.  A grab is acquired only by a session
/// that was opening and learns that the device is grabbed.  The driver is
/// asked to release exactly when a grabbed session meets an unlock signal, a
/// completed chord or a failed read, and the session is then releasing; any
/// other event leaves a grabbed session grabbed.  A grab ends only when a
/// releasing session learns that the release was made, and the session is
/// then idle.
pub proof fn lemma_grab_lifecycle(s: SessionView, event: EventView, unlock_code: u16)
    ensures
        !s.holds_grab() && step_spec(s, event, unlock_code).holds_grab() ==> s.phase
            == Phase::Opening && event is Grabbed && step_spec(s, event, unlock_code).phase
            == Phase::Grabbed,
        action_spec(s, event, unlock_code) == SessionAction::Release <==> s.phase == Phase::Grabbed
            && is_exit(s, event, unlock_code),
        action_spec(s, event, unlock_code) == SessionAction::Release ==> step_spec(
            s,
            event,
            unlock_code,
        ).phase == Phase::Releasing,
        s.phase == Phase::Grabbed && !is_exit(s, event, unlock_code) ==> step_spec(
            s,
            event,
            unlock_code,
        ).phase == Phase::Grabbed,
        s.holds_grab() && !step_spec(s, event, unlock_code).holds_grab() ==> s.phase
            == Phase::Releasing && event is Released && step_spec(s, event, unlock_code).phase
            == Phase::Idle,
        s.phase == Phase::Releasing ==> action_spec(s, event, unlock_code)
            != SessionAction::Release,
{
}

/// How a session ends and what it leaves behind.  An unlock signal or a
/// completed chord, followed by the release, ends the session without an
/// error.  A failed read, followed by the release, ends it with a read
/// failure that carries the cause.
pub proof fn lemma_exit_paths(s: SessionView, event: EventView, unlock_code: u16, later: u16)
    requires
        s.wf(),
        s.phase == Phase::Grabbed,
        is_exit(s, event, unlock_code),
    ensures
        ({
            let releasing = step_spec(s, event, unlock_code);
            let done = step_spec(releasing, EventView::Released, later);
            &&& action_spec(s, event, unlock_code) == SessionAction::Release
            &&& releasing.phase == Phase::Releasing
            &&& action_spec(releasing, EventView::Released, later) == SessionAction::Finished
            &&& done.phase == Phase::Idle
            &&& done.device is None
            &&& event is ReadFailed ==> done.failure == Some(
                ErrorView::DeviceReadFailure(event->ReadFailed_0),
            )
            &&& !(event is ReadFailed) ==> done.failure is None
        }),
{
}

/// Running a prefix of a trace is taking its first step and running the rest
/// of the prefix.
proof fn lemma_run_first(s: SessionView, trace: Seq<Occurrence>, k: int)
    requires
        0 < k <= trace.len(),
    ensures
        run(s, trace.take(k)) == run(
            step_spec(s, trace[0].event, trace[0].unlock_code),
            trace.drop_first().take(k - 1),
        ),
{
    assert(trace.take(k)[0] == trace[0]);
    assert(trace.take(k).drop_first() =~= trace.drop_first().take(k - 1));
}

/// Until a session that holds the grab is idle, the driver is asked to
/// release once if the session is still grabbed, and not again if it is
/// already releasing.
proof fn lemma_releases_until_idle(s: SessionView, trace: Seq<Occurrence>)
    requires
        s.holds_grab(),
        busy_until_end(s, trace),
        run(s, trace).phase == Phase::Idle,
    ensures
        releases(s, trace) == (if s.phase == Phase::Grabbed {
            1nat
        } else {
            0nat
        }),
    decreases trace.len(),
{
    if trace.len() == 0 {
    } else {
        let next = step_spec(s, trace[0].event, trace[0].unlock_code);
        let rest = trace.drop_first();
        lemma_grab_lifecycle(s, trace[0].event, trace[0].unlock_code);
        if next.phase == Phase::Idle {
            if trace.len() > 1 {
                lemma_run_first(s, trace, 1);
                assert(rest.take(0) =~= Seq::<Occurrence>::empty());
                assert(run(next, rest.take(0)) == next);
                assert(run(s, trace.take(1)).phase == Phase::Idle);
            }
            assert(rest.len() == 0);
            assert(releases(next, rest) == 0);
        } else {
            assert(trace.take(0) =~= Seq::<Occurrence>::empty());
            assert(run(s, trace.take(0)) == s);
            assert(next.holds_grab());
            assert(run(s, trace) == run(next, rest));
            assert forall|k: int| 0 <= k < rest.len() implies (#[trigger] run(
                next,
                rest.take(k),
            )).phase != Phase::Idle by {
                lemma_run_first(s, trace, k + 1);
                assert(run(s, trace.take(k + 1)).phase != Phase::Idle);
            }
            lemma_releases_until_idle(next, rest);
        }
    }
}

/// From the moment a session is grabbed until it is idle again, whichever way
/// it ends, the driver is asked to release the grab exactly once.
pub proof fn lemma_release_exactly_once(s: SessionView, trace: Seq<Occurrence>)
    requires
        s.phase == Phase::Grabbed,
        busy_until_end(s, trace),
        run(s, trace).phase == Phase::Idle,
    ensures
        releases(s, trace) == 1,
{
    lemma_releases_until_idle(s, trace);
}

} // verus!
