//! The coordinator: the one block of state that the controller, the registry
//! refresh and the capture session share, behind a narrow set of operations.
//!
//! The coordinator is meant to live behind a single lock.  The controller
//! issues commands and reads the status, the registry refresh hands in what it
//! found, and the driver of the capture session reports each event and is told
//! what to do next.  The published status is `Locked` exactly while the
//! session holds the grab, and at most one session exists at a time.

use crate::keymap::{
    code_of, letter_of, resolved_code, resolved_letter, ChordConfig, DEFAULT_UNLOCK_LETTER,
};
use crate::registry::{
    descriptor_views, found_views, next_selection, reconcile_selection, scan_devices, scan_spec,
    text_of, DescriptorView, DeviceDescriptor, FoundDevice, FoundDeviceView,
};
use crate::session::{
    action_spec, initial, message_of, step_spec, CaptureSession, EventView, Phase, SessionAction,
    SessionEvent, SessionView,
};
use crossbeam_channel::{Receiver, Sender};
use vstd::prelude::*;

verus! {

/// The sending end of a `crossbeam_channel` channel.  Nothing of its inside is
/// visible to the proofs.
#[verifier::external_type_specification]
#[verifier::external_body]
#[verifier::reject_recursive_types(T)]
pub struct ExSender<T>(Sender<T>);

/// The receiving end of a `crossbeam_channel` channel.  Nothing of its inside
/// is visible to the proofs.
#[verifier::external_type_specification]
#[verifier::external_body]
#[verifier::reject_recursive_types(T)]
pub struct ExReceiver<T>(Receiver<T>);

/// The sender belongs to a channel of unbounded capacity, on which sending
/// never waits.  This is fixed when the channel is made.
pub uninterp spec fn unbounded(tx: Sender<()>) -> bool;

/// Calls `crossbeam_channel::unbounded`, which makes a new channel of
/// unbounded capacity and returns its two ends.
#[verifier::external_body]
fn open_channel() -> (ends: (Sender<()>, Receiver<()>))
    ensures
        unbounded(ends.0),
{
    crossbeam_channel::unbounded()
}

/// Calls `Sender::send` with the unit message and says whether the channel
/// took it.  On an unbounded channel the call returns at once; it fails only
/// if the receiving end is gone, so nothing is promised of the result.
#[verifier::external_body]
fn send_signal(tx: &Sender<()>) -> (sent: bool)
    requires
        unbounded(*tx),
{
    tx.send(()).is_ok()
}

/// Calls `Receiver::try_recv`, which returns at once, and says whether a
/// message was waiting.  That depends on what the sending side has done, so
/// nothing is promised of the result.
#[verifier::external_body]
fn take_signal(rx: &Receiver<()>) -> (found: bool) {
    rx.try_recv().is_ok()
}

/// The published lock status.
#[derive(Clone, Copy, Debug, PartialEq, Eq, Structural)]
pub enum Status {
    /// No device is captured.
    Idle,
    /// A device is exclusively captured.
    Locked,
}

/// What the driver of a new session needs: the path of the device to capture
/// and the receiving end of the session's own unlock signal.
pub struct LockTicket {
    device: String,
    signal: Receiver<()>,
}

/// What became of a look for the unlock signal.
pub open spec fn signal_event(found: bool) -> Option<EventView> {
    if found {
        Some(EventView::UnlockSignal)
    } else {
        None
    }
}

/// The event to report for the outcome of a look for the unlock signal.
pub fn event_for_signal(found: bool) -> (event: Option<SessionEvent>)
    ensures
        event_view(event) == signal_event(found),
{
    if found {
        Some(SessionEvent::UnlockSignal)
    } else {
        None
    }
}

/// An optional event as plain values.
pub open spec fn event_view(event: Option<SessionEvent>) -> Option<EventView> {
    match event {
        Some(e) => Some(e@),
        None => None,
    }
}

impl LockTicket {
    /// The path of the device to capture.
    pub closed spec fn device_path(&self) -> Seq<char> {
        self.device@
    }

    /// The path of the device to capture.
    pub fn device(&self) -> (path: String)
        ensures
            path@ == self.device_path(),
    {
        self.device.clone()
    }

    /// Looks for the controller's unlock signal without waiting.  If one is
    /// there it is taken, and the event to report is returned.
    pub fn poll_signal(&self) -> (event: Option<SessionEvent>)
        ensures
            event is Some ==> event_view(event) == Some(EventView::UnlockSignal),
    {
        event_for_signal(take_signal(&self.signal))
    }
}

/// What the controller sees: the status, the last error, the listed devices
/// as pairs of display name and path, and the path of the selected device.
pub struct StatusReport {
    pub status: Status,
    pub error: Option<String>,
    pub devices: Vec<(String, String)>,
    pub selected: Option<String>,
}

/// The state of the coordinator as plain values.
pub struct CoordinatorView {
    /// The published status.
    pub status: Status,
    /// The unlock chord.
    pub chord: ChordConfig,
    /// The devices listed by the last scan.
    pub devices: Seq<DescriptorView>,
    /// The path of the selected device.
    pub selected: Option<Seq<char>>,
    /// The message of the last error.
    pub error: Option<Seq<char>>,
    /// The capture session.
    pub session: SessionView,
    /// The unlock signal channel of the running session is held.
    pub signal_open: bool,
}

impl CoordinatorView {
    /// The status is `Locked` exactly while the session holds the grab, the
    /// signal channel exists exactly while a session runs, no error is shown
    /// while a session runs, every listed device is a keyboard, and the parts
    /// are well-formed.
    pub open spec fn wf(self) -> bool {
        &&& self.chord.wf()
        &&& self.session.wf()
        &&& self.status == Status::Locked <==> self.session.holds_grab()
        &&& self.signal_open <==> self.session.phase != Phase::Idle
        &&& self.session.phase != Phase::Idle ==> self.error is None
        &&& forall|i: int| 0 <= i < self.devices.len() ==> (#[trigger] self.devices[i]).keyboard
    }
}

/// The state before anything has happened: idle, the default chord, no
/// devices, nothing selected, no error.
pub open spec fn init() -> CoordinatorView {
    CoordinatorView {
        status: Status::Idle,
        chord: ChordConfig::with_letter(DEFAULT_UNLOCK_LETTER),
        devices: Seq::empty(),
        selected: None,
        error: None,
        session: initial(),
        signal_open: false,
    }
}

/// The status that goes with a session.
pub open spec fn status_of(session: SessionView) -> Status {
    if session.holds_grab() {
        Status::Locked
    } else {
        Status::Idle
    }
}

/// The message of the error that a session failed with, if it did.
pub open spec fn failure_text(session: SessionView) -> Option<Seq<char>> {
    match session.failure {
        Some(e) => Some(message_of(e)),
        None => None,
    }
}

/// The state after the unlock letter was set.
pub open spec fn set_letter_spec(s: CoordinatorView, letter: char) -> CoordinatorView {
    CoordinatorView { chord: ChordConfig::with_letter(letter), ..s }
}

/// The state after the user selected a device, or none.
pub open spec fn select_spec(s: CoordinatorView, path: Option<Seq<char>>) -> CoordinatorView {
    CoordinatorView { selected: path, ..s }
}

/// The state after a scan found these devices: the keyboards among them are
/// listed, and the selection follows the new list.
pub open spec fn refresh_spec(s: CoordinatorView, found: Seq<FoundDeviceView>) -> CoordinatorView {
    CoordinatorView {
        devices: scan_spec(found),
        selected: next_selection(scan_spec(found), s.selected),
        ..s
    }
}

/// The state after a lock command.  With no session running a session starts
/// opening the device, the last error is cleared and a signal channel is
/// held.  While a session exists the command changes nothing.
pub open spec fn lock_spec(s: CoordinatorView, device: Seq<char>) -> CoordinatorView {
    if s.session.phase == Phase::Idle {
        CoordinatorView {
            session: step_spec(s.session, EventView::Lock(device), s.chord.spec_code()),
            error: None,
            signal_open: true,
            ..s
        }
    } else {
        s
    }
}

/// The state after a lock command for the selected device.  With nothing
/// selected the command changes nothing.
pub open spec fn lock_selected_spec(s: CoordinatorView) -> CoordinatorView {
    match s.selected {
        Some(device) => lock_spec(s, device),
        None => s,
    }
}

/// A lock command for the selected device would be accepted: no session
/// exists and a device is selected.
pub open spec fn lock_available_spec(s: CoordinatorView) -> bool {
    s.session.phase == Phase::Idle && s.selected is Some
}

/// What the driver is told after reporting an event.  A lock request is no
/// report and is answered with `Nothing`.
pub open spec fn report_action(s: CoordinatorView, event: EventView) -> SessionAction {
    if event is Lock {
        SessionAction::Nothing
    } else {
        action_spec(s.session, event, s.chord.spec_code())
    }
}

/// The state after the driver reported an event.  The session takes its
/// step with the unlock code now configured, and the status follows the
/// session.  When the session is over its error, if any, is published and the
/// signal channel is dropped.
pub open spec fn report_spec(s: CoordinatorView, event: EventView) -> CoordinatorView {
    if event is Lock {
        s
    } else {
        let session = step_spec(s.session, event, s.chord.spec_code());
        let finished = report_action(s, event) == SessionAction::Finished;
        CoordinatorView {
            status: status_of(session),
            error: if finished {
                failure_text(session)
            } else {
                s.error
            },
            session,
            signal_open: if finished {
                false
            } else {
                s.signal_open
            },
            ..s
        }
    }
}

/// The pairs of display name and path of the listed devices.
pub open spec fn listing(devices: Seq<DescriptorView>) -> Seq<(Seq<char>, Seq<char>)> {
    devices.map_values(|d: DescriptorView| (d.name, d.path))
}

/// The pairs of a report as plain values.
pub open spec fn pair_views(pairs: Seq<(String, String)>) -> Seq<(Seq<char>, Seq<char>)> {
    pairs.map_values(|p: (String, String)| (p.0@, p.1@))
}

/// The shared state of the lock engine.
pub struct Coordinator {
    status: Status,
    chord: ChordConfig,
    devices: Vec<DeviceDescriptor>,
    selected: Option<String>,
    error: Option<String>,
    session: CaptureSession,
    unlock_tx: Option<Sender<()>>,
}

impl View for Coordinator {
    type V = CoordinatorView;

    closed spec fn view(&self) -> CoordinatorView {
        CoordinatorView {
            status: self.status,
            chord: self.chord,
            devices: descriptor_views(self.devices@),
            selected: text_of(self.selected),
            error: text_of(self.error),
            session: self.session@,
            signal_open: self.unlock_tx is Some,
        }
    }
}

impl Coordinator {
    /// The state is well-formed, and the signal channel, if held, is one on
    /// which sending never waits.
    pub closed spec fn wf(&self) -> bool {
        &&& self@.wf()
        &&& self.unlock_tx matches Some(tx) ==> unbounded(tx)
    }

    /// What `wf` says of the state as plain values.
    pub proof fn lemma_wf_view(&self)
        requires
            self.wf(),
        ensures
            self@.wf(),
    {
    }

    /// A coordinator in its first state.
    pub fn new() -> (coordinator: Coordinator)
        ensures
            coordinator.wf(),
            coordinator@ == init(),
    {
        let chord = ChordConfig::new();
        let coordinator = Coordinator {
            status: Status::Idle,
            chord,
            devices: Vec::new(),
            selected: None,
            error: None,
            session: CaptureSession::new(),
            unlock_tx: None,
        };
        assert(descriptor_views(coordinator.devices@) =~= Seq::<DescriptorView>::empty());
        coordinator
    }

    /// The published status.
    pub fn status(&self) -> (status: Status)
        ensures
            status == self@.status,
    {
        self.status
    }

    /// The configured unlock chord.
    pub fn chord(&self) -> (chord: ChordConfig)
        ensures
            chord == self@.chord,
    {
        self.chord
    }

    /// Where the capture session stands.
    pub fn phase(&self) -> (phase: Phase)
        ensures
            phase == self@.session.phase,
    {
        self.session.phase()
    }

    /// The path of the selected device.
    pub fn selected(&self) -> (path: Option<String>)
        ensures
            text_of(path) == self@.selected,
    {
        match &self.selected {
            Some(path) => Some(path.clone()),
            None => None,
        }
    }

    /// The message of the last error.
    pub fn error(&self) -> (text: Option<String>)
        ensures
            text_of(text) == self@.error,
    {
        match &self.error {
            Some(text) => Some(text.clone()),
            None => None,
        }
    }

    /// What the controller sees, copied out in one piece.
    pub fn read_status(&self) -> (report: StatusReport)
        ensures
            report.status == self@.status,
            text_of(report.error) == self@.error,
            pair_views(report.devices@) == listing(self@.devices),
            text_of(report.selected) == self@.selected,
    {
        let mut devices: Vec<(String, String)> = Vec::new();
        let mut i: usize = 0;
        while i < self.devices.len()
            invariant
                i <= self.devices.len(),
                pair_views(devices@) =~= listing(descriptor_views(self.devices@)).take(i as int),
            decreases self.devices.len() - i,
        {
            let ghost before = pair_views(devices@);
            let pair = (self.devices[i].name.clone(), self.devices[i].path.clone());
            devices.push(pair);
            assert(pair_views(devices@) =~= before.push((pair.0@, pair.1@)));
            i += 1;
        }
        assert(listing(descriptor_views(self.devices@)).take(self.devices.len() as int)
            =~= listing(descriptor_views(self.devices@)));
        StatusReport { status: self.status, error: self.error(), devices, selected: self.selected() }
    }

    /// Sets the unlock letter from a typed character.
    pub fn set_unlock_char(&mut self, c: char)
        requires
            old(self).wf(),
        ensures
            final(self).wf(),
            final(self)@ == set_letter_spec(old(self)@, letter_of(c)),
            final(self)@.chord.spec_code() == code_of(letter_of(c)),
    {
        self.chord.set_unlock_char(c);
    }

    /// Sets the unlock letter from a text input; empty input and input that
    /// names no letter select the default letter.
    pub fn set_unlock_text(&mut self, input: &str)
        requires
            old(self).wf(),
        ensures
            final(self).wf(),
            final(self)@ == set_letter_spec(old(self)@, resolved_letter(input@)),
            final(self)@.chord.spec_code() == resolved_code(input@),
    {
        self.chord.set_unlock_text(input);
    }

    /// Selects a device, or none, at the user's word.
    pub fn select_device(&mut self, path: Option<String>)
        requires
            old(self).wf(),
        ensures
            final(self).wf(),
            final(self)@ == select_spec(old(self)@, text_of(path)),
    {
        self.selected = path;
    }

    /// Takes in what a scan found: lists the keyboards among the found
    /// devices and lets the selection follow the new list.
    pub fn refresh_devices(&mut self, found: &Vec<FoundDevice>)
        requires
            old(self).wf(),
        ensures
            final(self).wf(),
            final(self)@ == refresh_spec(old(self)@, found_views(found@)),
    {
        let devices = scan_devices(found);
        let selected = reconcile_selection(&devices, self.selected());
        proof {
            crate::registry::lemma_scan_keeps_keyboards(found_views(found@));
        }
        self.devices = devices;
        self.selected = selected;
    }

    /// The controller's lock command.  Accepted only while no session
    /// exists: a session then starts opening the device, the last error is
    /// cleared, and the ticket for the session's driver is returned.  While a
    /// session exists nothing changes and no ticket is returned.
    pub fn issue_lock(&mut self, device: String) -> (ticket: Option<LockTicket>)
        requires
            old(self).wf(),
        ensures
            final(self).wf(),
            final(self)@ == lock_spec(old(self)@, device@),
            ticket is Some <==> old(self)@.session.phase == Phase::Idle,
            ticket matches Some(t) ==> t.device_path() == device@,
    {
        match self.session.phase() {
            Phase::Idle => {
                let (tx, rx) = open_channel();
                let path = device.clone();
                let code = self.chord.code();
                let _ = self.session.step(SessionEvent::Lock(device), code);
                self.error = None;
                self.unlock_tx = Some(tx);
                Some(LockTicket { device: path, signal: rx })
            },
            _ => None,
        }
    }

    /// Whether a lock command for the selected device would be accepted.
    pub fn lock_available(&self) -> (yes: bool)
        ensures
            yes == lock_available_spec(self@),
    {
        match self.session.phase() {
            Phase::Idle => self.selected.is_some(),
            _ => false,
        }
    }

    /// The controller's lock command for the selected device.
    pub fn lock_selected(&mut self) -> (ticket: Option<LockTicket>)
        requires
            old(self).wf(),
        ensures
            final(self).wf(),
            final(self)@ == lock_selected_spec(old(self)@),
            ticket is Some <==> lock_available_spec(old(self)@),
            ticket matches Some(t) ==> Some(t.device_path()) == old(self)@.selected,
    {
        match self.selected() {
            Some(device) => self.issue_lock(device),
            None => None,
        }
    }

    /// The controller's unlock command.  While a session exists the unlock
    /// signal is sent to it; otherwise there is nobody to signal.  The state
    /// is not touched: the session ends by its own steps.
    pub fn issue_unlock(&self) -> (sent: bool)
        requires
            self.wf(),
        ensures
            sent ==> self@.signal_open,
    {
        match &self.unlock_tx {
            Some(tx) => send_signal(tx),
            None => false,
        }
    }

    /// A report from the driver of the session.  The session takes its step
    /// with the unlock code now configured, the status is published, and the
    /// driver is told what to do next.
    pub fn session_event(&mut self, event: SessionEvent) -> (action: SessionAction)
        requires
            old(self).wf(),
        ensures
            final(self).wf(),
            final(self)@ == report_spec(old(self)@, event@),
            action == report_action(old(self)@, event@),
    {
        if let SessionEvent::Lock(_) = event {
            return SessionAction::Nothing;
        }
        let code = self.chord.code();
        let action = self.session.step(event, code);
        self.status = if self.session.holds_grab() {
            Status::Locked
        } else {
            Status::Idle
        };
        match action {
            SessionAction::Finished => {
                self.error = self.session.failure_message();
                self.unlock_tx = None;
            },
            _ => {},
        }
        action
    }
}

/// Everything that can happen to the coordinator, as plain values.
pub enum Command {
    /// The unlock letter is set from a typed character.
    SetUnlockChar(char),
    /// The unlock letter is set from a text input.
    SetUnlockText(Seq<char>),
    /// The user selects a device, or none.
    Select(Option<Seq<char>>),
    /// A scan found these devices.
    Refresh(Seq<FoundDeviceView>),
    /// The controller asks to lock this device.
    Lock(Seq<char>),
    /// The controller asks to lock the selected device.
    LockSelected,
    /// The controller asks to unlock.
    Unlock,
    /// The driver of the session reports an event.
    Report(EventView),
}

/// The state after a command.
pub open spec fn apply(s: CoordinatorView, command: Command) -> CoordinatorView {
    match command {
        Command::SetUnlockChar(c) => set_letter_spec(s, letter_of(c)),
        Command::SetUnlockText(input) => set_letter_spec(s, resolved_letter(input)),
        Command::Select(path) => select_spec(s, path),
        Command::Refresh(found) => refresh_spec(s, found),
        Command::Lock(device) => lock_spec(s, device),
        Command::LockSelected => lock_selected_spec(s),
        Command::Unlock => s,
        Command::Report(event) => report_spec(s, event),
    }
}

/// The state after a sequence of commands, taken in order.
pub open spec fn run(s: CoordinatorView, commands: Seq<Command>) -> CoordinatorView
    decreases commands.len(),
{
    if commands.len() == 0 {
        s
    } else {
        apply(run(s, commands.drop_last()), commands.last())
    }
}

/// Every command keeps a well-formed state well-formed.
pub proof fn lemma_apply_keeps_wf(s: CoordinatorView, command: Command)
    requires
        s.wf(),
    ensures
        apply(s, command).wf(),
{
    match command {
        Command::SetUnlockChar(c) => {
            ChordConfig::lemma_with_letter(letter_of(c));
        },
        Command::SetUnlockText(input) => {
            ChordConfig::lemma_with_letter(resolved_letter(input));
        },
        Command::Select(_) => {},
        Command::Refresh(found) => {
            crate::registry::lemma_scan_keeps_keyboards(found);
        },
        Command::Lock(_) => {},
        Command::LockSelected => {},
        Command::Unlock => {},
        Command::Report(_) => {},
    }
}

/// In every state that can be reached from the first one, whatever commands
/// and reports arrive in whatever order, the status is `Locked` exactly if
/// the session holds the grab, and the state is well-formed.
pub proof fn lemma_status_tracks_grab(commands: Seq<Command>)
    ensures
        run(init(), commands).wf(),
        run(init(), commands).status == Status::Locked <==> run(
            init(),
            commands,
        ).session.holds_grab(),
    decreases commands.len(),
{
    if commands.len() == 0 {
        ChordConfig::lemma_with_letter(DEFAULT_UNLOCK_LETTER);
    } else {
        lemma_status_tracks_grab(commands.drop_last());
        lemma_apply_keeps_wf(run(init(), commands.drop_last()), commands.last());
    }
}

/// A lock command that arrives while a session exists, be it opening,
/// grabbed or releasing, changes nothing: no second session starts and the
/// running one is not disturbed.  In particular this holds while the status
/// is `Locked`.
pub proof fn lemma_lock_while_busy_is_ignored(s: CoordinatorView, device: Seq<char>)
    requires
        s.wf(),
        s.status == Status::Locked || s.session.phase != Phase::Idle,
    ensures
        lock_spec(s, device) == s,
        apply(s, Command::Lock(device)) == s,
        apply(s, Command::LockSelected) == s,
{
}

/// Neither a lock command nor anything but the session's own reports changes
/// the status, and a session starts only from a lock command that finds no
/// session.
pub proof fn lemma_status_follows_reports(s: CoordinatorView, command: Command)
    requires
        s.wf(),
    ensures
        !(command is Report) ==> apply(s, command).status == s.status,
        !(command is Report) && !(command is Lock) && !(command is LockSelected) ==> apply(
            s,
            command,
        ).session == s.session,
        s.session.phase == Phase::Idle && apply(s, command).session.phase != Phase::Idle ==> (
        command is Lock || command is LockSelected) && apply(s, command).session.phase
            == Phase::Opening && apply(s, command).status == Status::Idle,
{
}

/// An error message stays until a lock command is accepted, which clears it,
/// or a session ends, which publishes that session's error or none.
pub proof fn lemma_error_lifetime(s: CoordinatorView, command: Command)
    requires
        s.wf(),
    ensures
        command matches Command::Lock(_) ==> apply(s, command).error == (if s.session.phase
            == Phase::Idle {
            None
        } else {
            s.error
        }),
        command is LockSelected ==> apply(s, command).error == (if lock_available_spec(s) {
            None
        } else {
            s.error
        }),
        command matches Command::Report(event) ==> apply(s, command).error == (if report_action(
            s,
            event,
        ) == SessionAction::Finished {
            failure_text(apply(s, command).session)
        } else {
            s.error
        }),
        !(command is Lock) && !(command is LockSelected) && !(command is Report) ==> apply(
            s,
            command,
        ).error == s.error,
{
}

/// Every way out of a grab ends idle.  When a grabbed session meets an unlock
/// signal, a completed chord or a failed read, the driver is told to release;
/// once it reports the release the status is `Idle`, no session exists, and
/// the signal channel is gone.  After a failed read the error names the
/// cause; after a signal or a chord there is no error.
pub proof fn lemma_exit_ends_idle(s: CoordinatorView, event: EventView)
    requires
        s.wf(),
        s.session.phase == Phase::Grabbed,
        crate::session::is_exit(s.session, event, s.chord.spec_code()),
    ensures
        ({
            let releasing = report_spec(s, event);
            let done = report_spec(releasing, EventView::Released);
            &&& report_action(s, event) == SessionAction::Release
            &&& releasing.status == Status::Locked
            &&& releasing.session.phase == Phase::Releasing
            &&& report_action(releasing, EventView::Released) == SessionAction::Finished
            &&& done.status == Status::Idle
            &&& done.session.phase == Phase::Idle
            &&& !done.signal_open
            &&& event matches EventView::ReadFailed(cause) ==> done.error == Some(
                "Device disconnected: "@ + cause,
            )
            &&& !(event is ReadFailed) ==> done.error is None
        }),
{
}

/// A session that cannot get its grab never shows as locked.  When opening
/// the device or acquiring the grab fails, the session is over at once, the
/// status has been `Idle` throughout, and the error names what failed and
/// why.
pub proof fn lemma_failed_open_stays_idle(s: CoordinatorView, event: EventView)
    requires
        s.wf(),
        s.session.phase == Phase::Opening,
        event is OpenFailed || event is GrabFailed,
    ensures
        s.status == Status::Idle,
        report_action(s, event) == SessionAction::Finished,
        report_spec(s, event).status == Status::Idle,
        report_spec(s, event).session.phase == Phase::Idle,
        event matches EventView::OpenFailed(cause) ==> report_spec(s, event).error == Some(
            "Failed to open device: "@ + cause,
        ),
        event matches EventView::GrabFailed(cause) ==> report_spec(s, event).error == Some(
            "Lock failed: "@ + cause,
        ),
{
}

} // verus!
