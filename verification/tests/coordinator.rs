use keylock::coordinator::{event_for_signal, Coordinator, Status};
use keylock::events::InputEvent;
use keylock::registry::FoundDevice;
use keylock::session::{Phase, SessionAction, SessionEvent};

fn keyboard(path: &str, name: &str) -> FoundDevice {
    FoundDevice {
        path: path.to_string(),
        name: Some(name.to_string()),
        keys: Some(vec![16, 30, 37]),
    }
}

fn mouse(path: &str) -> FoundDevice {
    FoundDevice { path: path.to_string(), name: Some("Mouse".to_string()), keys: Some(vec![272]) }
}

fn locked_coordinator() -> (Coordinator, keylock::coordinator::LockTicket) {
    let mut coordinator = Coordinator::new();
    coordinator.refresh_devices(&vec![keyboard("/dev/input/event3", "Keyboard")]);
    let ticket = coordinator.lock_selected().expect("lock is available");
    assert_eq!(coordinator.session_event(SessionEvent::Grabbed), SessionAction::Poll);
    (coordinator, ticket)
}

#[test]
fn new_coordinator_is_idle() {
    let coordinator = Coordinator::new();
    let report = coordinator.read_status();
    assert_eq!(report.status, Status::Idle);
    assert_eq!(report.error, None);
    assert!(report.devices.is_empty());
    assert_eq!(report.selected, None);
    assert_eq!(coordinator.status(), Status::Idle);
    assert_eq!(coordinator.phase(), Phase::Idle);
    assert_eq!(coordinator.chord().letter(), 'Q');
    assert_eq!(coordinator.chord().code(), 16);
    assert!(!coordinator.lock_available());
}

#[test]
fn refresh_lists_keyboards_and_selects_the_first() {
    let mut coordinator = Coordinator::new();
    coordinator.refresh_devices(&vec![
        mouse("/dev/input/event1"),
        keyboard("/dev/input/event3", "Keyboard A"),
        keyboard("/dev/input/event5", "Keyboard B"),
    ]);
    let report = coordinator.read_status();
    assert_eq!(
        report.devices,
        vec![
            ("Keyboard A (/dev/input/event3)".to_string(), "/dev/input/event3".to_string()),
            ("Keyboard B (/dev/input/event5)".to_string(), "/dev/input/event5".to_string()),
        ]
    );
    assert_eq!(report.selected, Some("/dev/input/event3".to_string()));
    assert_eq!(coordinator.selected(), Some("/dev/input/event3".to_string()));
    assert!(coordinator.lock_available());
}

#[test]
fn refresh_with_no_devices_is_no_error() {
    let mut coordinator = Coordinator::new();
    coordinator.refresh_devices(&Vec::new());
    let report = coordinator.read_status();
    assert!(report.devices.is_empty());
    assert_eq!(report.selected, None);
    assert_eq!(report.error, None);
    assert_eq!(report.status, Status::Idle);
}

#[test]
fn refresh_follows_hot_plug() {
    let mut coordinator = Coordinator::new();
    coordinator.refresh_devices(&vec![
        keyboard("/dev/input/event3", "A"),
        keyboard("/dev/input/event5", "B"),
    ]);
    coordinator.select_device(Some("/dev/input/event5".to_string()));
    // Still there: the selection stays.
    coordinator.refresh_devices(&vec![
        keyboard("/dev/input/event5", "B"),
        keyboard("/dev/input/event3", "A"),
    ]);
    assert_eq!(coordinator.selected(), Some("/dev/input/event5".to_string()));
    // Unplugged: the selection is cleared.
    coordinator.refresh_devices(&vec![keyboard("/dev/input/event3", "A")]);
    assert_eq!(coordinator.selected(), None);
    // On the next scan the first device is selected.
    coordinator.refresh_devices(&vec![keyboard("/dev/input/event3", "A")]);
    assert_eq!(coordinator.selected(), Some("/dev/input/event3".to_string()));
}

#[test]
fn user_selection_overrides_auto_selection() {
    let mut coordinator = Coordinator::new();
    coordinator.refresh_devices(&vec![
        keyboard("/dev/input/event3", "A"),
        keyboard("/dev/input/event5", "B"),
    ]);
    assert_eq!(coordinator.selected(), Some("/dev/input/event3".to_string()));
    coordinator.select_device(Some("/dev/input/event5".to_string()));
    assert_eq!(coordinator.selected(), Some("/dev/input/event5".to_string()));
    coordinator.select_device(None);
    assert_eq!(coordinator.selected(), None);
    assert!(!coordinator.lock_available());
}

#[test]
fn unlock_letter_can_be_set() {
    let mut coordinator = Coordinator::new();
    coordinator.set_unlock_char('k');
    assert_eq!((coordinator.chord().letter(), coordinator.chord().code()), ('K', 37));
    coordinator.set_unlock_text("m");
    assert_eq!((coordinator.chord().letter(), coordinator.chord().code()), ('M', 50));
    coordinator.set_unlock_text("");
    assert_eq!((coordinator.chord().letter(), coordinator.chord().code()), ('Q', 16));
    coordinator.set_unlock_char('%');
    assert_eq!((coordinator.chord().letter(), coordinator.chord().code()), ('Q', 16));
}

#[test]
fn lock_opens_but_does_not_claim_locked() {
    let mut coordinator = Coordinator::new();
    let ticket = coordinator.issue_lock("/dev/input/event3".to_string());
    let ticket = ticket.expect("no session exists");
    assert_eq!(ticket.device(), "/dev/input/event3");
    assert_eq!(coordinator.phase(), Phase::Opening);
    assert_eq!(coordinator.status(), Status::Idle);
    assert!(!coordinator.lock_available());
}

#[test]
fn status_is_locked_exactly_while_grabbed() {
    let mut coordinator = Coordinator::new();
    assert_eq!(coordinator.status(), Status::Idle);
    let _ticket = coordinator.issue_lock("/dev/input/event3".to_string());
    assert_eq!(coordinator.status(), Status::Idle);
    coordinator.session_event(SessionEvent::Grabbed);
    assert_eq!(coordinator.status(), Status::Locked);
    coordinator.session_event(SessionEvent::WouldBlock);
    assert_eq!(coordinator.status(), Status::Locked);
    coordinator.session_event(SessionEvent::UnlockSignal);
    assert_eq!(coordinator.phase(), Phase::Releasing);
    assert_eq!(coordinator.status(), Status::Locked);
    coordinator.session_event(SessionEvent::Released);
    assert_eq!(coordinator.status(), Status::Idle);
    assert_eq!(coordinator.phase(), Phase::Idle);
}

#[test]
fn lock_while_locked_has_no_effect() {
    let (mut coordinator, _ticket) = locked_coordinator();
    coordinator.session_event(SessionEvent::Batch(vec![InputEvent::key(29, 1)]));
    let before = coordinator.read_status();
    assert!(coordinator.issue_lock("/dev/input/event9".to_string()).is_none());
    assert!(coordinator.lock_selected().is_none());
    let after = coordinator.read_status();
    assert_eq!(after.status, Status::Locked);
    assert_eq!(after.status, before.status);
    assert_eq!(after.error, before.error);
    assert_eq!(after.devices, before.devices);
    assert_eq!(after.selected, before.selected);
    assert_eq!(coordinator.phase(), Phase::Grabbed);
    // The running session was not disturbed: Control is still held.
    assert_eq!(
        coordinator.session_event(SessionEvent::Batch(vec![InputEvent::key(16, 1)])),
        SessionAction::Release
    );
}

#[test]
fn lock_while_opening_or_releasing_has_no_effect() {
    let mut coordinator = Coordinator::new();
    let _ticket = coordinator.issue_lock("/dev/input/event3".to_string()).unwrap();
    assert!(coordinator.issue_lock("/dev/input/event4".to_string()).is_none());
    assert_eq!(coordinator.phase(), Phase::Opening);
    coordinator.session_event(SessionEvent::Grabbed);
    coordinator.session_event(SessionEvent::UnlockSignal);
    assert!(coordinator.issue_lock("/dev/input/event4".to_string()).is_none());
    assert_eq!(coordinator.phase(), Phase::Releasing);
}

#[test]
fn lock_event_is_not_taken_as_a_report() {
    let mut coordinator = Coordinator::new();
    let action = coordinator.session_event(SessionEvent::Lock("/dev/input/event3".to_string()));
    assert_eq!(action, SessionAction::Nothing);
    assert_eq!(coordinator.phase(), Phase::Idle);
    assert!(!coordinator.issue_unlock());
}

#[test]
fn chord_in_one_batch_unlocks_without_error() {
    let mut coordinator = Coordinator::new();
    coordinator.set_unlock_char('K');
    assert_eq!(coordinator.chord().code(), 37);
    coordinator.refresh_devices(&vec![keyboard("/dev/input/event3", "Keyboard")]);
    let _ticket = coordinator.lock_selected().unwrap();
    assert_eq!(coordinator.session_event(SessionEvent::Grabbed), SessionAction::Poll);
    assert_eq!(coordinator.phase(), Phase::Grabbed);
    let batch = vec![InputEvent::key(29, 1), InputEvent::key(37, 1), InputEvent::key(29, 0)];
    assert_eq!(coordinator.session_event(SessionEvent::Batch(batch)), SessionAction::Release);
    assert_eq!(coordinator.phase(), Phase::Releasing);
    assert_eq!(coordinator.session_event(SessionEvent::Released), SessionAction::Finished);
    assert_eq!(coordinator.phase(), Phase::Idle);
    let report = coordinator.read_status();
    assert_eq!(report.status, Status::Idle);
    assert_eq!(report.error, None);
}

#[test]
fn read_failure_mid_session_ends_idle_with_error() {
    let (mut coordinator, _ticket) = locked_coordinator();
    assert_eq!(coordinator.session_event(SessionEvent::WouldBlock), SessionAction::SleepThenPoll);
    let action = coordinator.session_event(SessionEvent::ReadFailed("No such device".to_string()));
    // The grab is released although the session failed.
    assert_eq!(action, SessionAction::Release);
    assert_eq!(coordinator.session_event(SessionEvent::Released), SessionAction::Finished);
    let report = coordinator.read_status();
    assert_eq!(report.status, Status::Idle);
    assert_eq!(report.error, Some("Device disconnected: No such device".to_string()));
    assert!(!report.error.unwrap().is_empty());
    assert_eq!(coordinator.phase(), Phase::Idle);
}

#[test]
fn open_failure_is_published() {
    let mut coordinator = Coordinator::new();
    let _ticket = coordinator.issue_lock("/dev/input/event3".to_string()).unwrap();
    let action = coordinator.session_event(SessionEvent::OpenFailed("Permission denied".to_string()));
    assert_eq!(action, SessionAction::Finished);
    assert_eq!(coordinator.status(), Status::Idle);
    assert_eq!(coordinator.error(), Some("Failed to open device: Permission denied".to_string()));
}

#[test]
fn grab_failure_never_shows_locked() {
    let mut coordinator = Coordinator::new();
    let _ticket = coordinator.issue_lock("/dev/input/event3".to_string()).unwrap();
    assert_eq!(coordinator.status(), Status::Idle);
    let action = coordinator.session_event(SessionEvent::GrabFailed("Device or resource busy".to_string()));
    assert_eq!(action, SessionAction::Finished);
    assert_eq!(coordinator.status(), Status::Idle);
    assert_eq!(coordinator.error(), Some("Lock failed: Device or resource busy".to_string()));
}

#[test]
fn error_stays_until_the_next_lock() {
    let mut coordinator = Coordinator::new();
    let _ticket = coordinator.issue_lock("/dev/input/event3".to_string()).unwrap();
    coordinator.session_event(SessionEvent::OpenFailed("gone".to_string()));
    assert!(coordinator.error().is_some());
    coordinator.refresh_devices(&vec![keyboard("/dev/input/event3", "Keyboard")]);
    coordinator.set_unlock_char('z');
    coordinator.select_device(Some("/dev/input/event3".to_string()));
    assert!(!coordinator.issue_unlock());
    assert_eq!(coordinator.error(), Some("Failed to open device: gone".to_string()));
    let _ticket = coordinator.lock_selected().unwrap();
    assert_eq!(coordinator.error(), None);
}

#[test]
fn unlock_code_can_change_during_a_session() {
    let (mut coordinator, _ticket) = locked_coordinator();
    let chord_q = vec![InputEvent::key(97, 1), InputEvent::key(16, 1)];
    coordinator.set_unlock_char('k');
    assert_eq!(coordinator.session_event(SessionEvent::Batch(chord_q)), SessionAction::SleepThenPoll);
    assert_eq!(
        coordinator.session_event(SessionEvent::Batch(vec![InputEvent::key(37, 1)])),
        SessionAction::Release
    );
}

#[test]
fn unlock_signal_reaches_the_session() {
    let (mut coordinator, ticket) = locked_coordinator();
    assert!(ticket.poll_signal().is_none());
    assert!(coordinator.issue_unlock());
    let event = ticket.poll_signal().expect("the signal was sent");
    assert!(matches!(event, SessionEvent::UnlockSignal));
    // The signal was taken; none is left.
    assert!(ticket.poll_signal().is_none());
    assert_eq!(coordinator.session_event(event), SessionAction::Release);
    assert_eq!(coordinator.session_event(SessionEvent::Released), SessionAction::Finished);
    assert_eq!(coordinator.status(), Status::Idle);
    assert_eq!(coordinator.error(), None);
}

#[test]
fn unlock_without_session_signals_nobody() {
    let coordinator = Coordinator::new();
    assert!(!coordinator.issue_unlock());
    assert_eq!(coordinator.status(), Status::Idle);
}

#[test]
fn each_session_has_its_own_signal() {
    let (mut coordinator, first) = locked_coordinator();
    // A signal is sent, but the session ends by the chord before reading it.
    assert!(coordinator.issue_unlock());
    let chord = vec![InputEvent::key(29, 1), InputEvent::key(16, 1)];
    assert_eq!(coordinator.session_event(SessionEvent::Batch(chord)), SessionAction::Release);
    assert_eq!(coordinator.session_event(SessionEvent::Released), SessionAction::Finished);
    // With the session over there is nobody to signal.
    assert!(!coordinator.issue_unlock());
    // The next session does not see the stale signal.
    let second = coordinator.lock_selected().unwrap();
    assert!(second.poll_signal().is_none());
    assert!(first.poll_signal().is_some());
    coordinator.session_event(SessionEvent::Grabbed);
    assert_eq!(coordinator.status(), Status::Locked);
    assert!(second.poll_signal().is_none());
}

#[test]
fn signal_outcome_maps_to_event() {
    assert!(matches!(event_for_signal(true), Some(SessionEvent::UnlockSignal)));
    assert!(event_for_signal(false).is_none());
}

#[test]
fn status_matches_grab_along_a_long_run() {
    let mut coordinator = Coordinator::new();
    coordinator.refresh_devices(&vec![keyboard("/dev/input/event3", "Keyboard")]);
    let mut tickets = Vec::new();
    for round in 0..4 {
        let steps: Vec<SessionEvent> = vec![
            SessionEvent::Grabbed,
            SessionEvent::WouldBlock,
            SessionEvent::Batch(vec![InputEvent::key(29, 1)]),
            SessionEvent::Released,
            if round % 2 == 0 {
                SessionEvent::Batch(vec![InputEvent::key(16, 1)])
            } else {
                SessionEvent::ReadFailed("gone".to_string())
            },
            SessionEvent::Grabbed,
            SessionEvent::Released,
            SessionEvent::Released,
        ];
        if let Some(ticket) = coordinator.lock_selected() {
            tickets.push(ticket);
        }
        for event in steps {
            coordinator.session_event(event);
            coordinator.refresh_devices(&vec![keyboard("/dev/input/event3", "Keyboard")]);
            let grabbed = matches!(coordinator.phase(), Phase::Grabbed | Phase::Releasing);
            assert_eq!(coordinator.status() == Status::Locked, grabbed);
            assert_eq!(coordinator.read_status().status, coordinator.status());
        }
        assert_eq!(coordinator.status(), Status::Idle);
    }
    assert_eq!(tickets.len(), 4);
}
