//! Input events and detection of the unlock chord.
//!
//! A device delivers its events in batches.  While a batch is scanned the
//! tracker remembers whether a Control key is held.  The chord is complete at
//! the first key-down of the unlock key that happens while Control is held;
//! the rest of the batch is then left unread.

use vstd::prelude::*;

verus! {

/// Event type of key events.
pub const KEY_EVENT_TYPE: u16 = 1;

/// Key code of the left Control key.
pub const LEFT_CONTROL_CODE: u16 = 29;

/// Key code of the right Control key.
pub const RIGHT_CONTROL_CODE: u16 = 97;

/// One event read from an input device: its type, its code and its value.
/// For a key event the code names the key and the value is zero on release.
#[derive(Clone, Copy, Debug, PartialEq, Eq, Structural)]
pub struct InputEvent {
    pub event_type: u16,
    pub code: u16,
    pub value: i32,
}

impl InputEvent {
    /// The event reports a key.
    pub open spec fn is_key(self) -> bool {
        self.event_type == KEY_EVENT_TYPE
    }

    /// The event reports a press (or a repeat), not a release.
    pub open spec fn is_down(self) -> bool {
        self.value != 0
    }

    /// The event reports one of the two Control keys.
    pub open spec fn is_control(self) -> bool {
        self.is_key() && (self.code == LEFT_CONTROL_CODE || self.code == RIGHT_CONTROL_CODE)
    }

    /// A key event of the given key.
    pub fn key(code: u16, value: i32) -> (ev: InputEvent)
        ensures
            ev == (InputEvent { event_type: KEY_EVENT_TYPE, code, value }),
            ev.is_key(),
    {
        InputEvent { event_type: KEY_EVENT_TYPE, code, value }
    }
}

/// Calls `evdev::InputEvent::kind` on an event with the same type, code and
/// value, and hands out the key's code where the kind is `Key`.  The outside
/// function decides by the event type alone: type 1 is a key event, whose key
/// carries the event's code unchanged.
#[verifier::external_body]
fn key_of(ev: &InputEvent) -> (key: Option<u16>)
    ensures
        key == (if ev.event_type == 1 {
            Some(ev.code)
        } else {
            None
        }),
{
    match evdev::InputEvent::new(evdev::EventType(ev.event_type), ev.code, ev.value).kind() {
        evdev::InputEventKind::Key(k) => Some(k.code()),
        _ => None,
    }
}

/// Reads `evdev::Key::KEY_LEFTCTRL` and returns its code, which is 29.
#[verifier::external_body]
fn left_control_code() -> (code: u16)
    ensures
        code == 29,
{
    evdev::Key::KEY_LEFTCTRL.code()
}

/// Reads `evdev::Key::KEY_RIGHTCTRL` and returns its code, which is 97.
#[verifier::external_body]
fn right_control_code() -> (code: u16)
    ensures
        code == 97,
{
    evdev::Key::KEY_RIGHTCTRL.code()
}

/// Whether Control is held once `ev` has been seen: a Control key event sets
/// it by its direction, any other event leaves it as it was.
pub open spec fn held_after(held: bool, ev: InputEvent) -> bool {
    if ev.is_control() {
        ev.is_down()
    } else {
        held
    }
}

/// `ev` completes the chord: it is a key-down of the unlock key, and Control
/// is held once the event itself has been taken into account.
pub open spec fn completes_chord(held: bool, ev: InputEvent, target: u16) -> bool {
    ev.is_key() && ev.code == target && ev.is_down() && held_after(held, ev)
}

/// Whether Control is held once all of `events` have been seen.
pub open spec fn held_through(events: Seq<InputEvent>, held: bool) -> bool
    decreases events.len(),
{
    if events.len() == 0 {
        held
    } else {
        held_after(held_through(events.drop_last(), held), events.last())
    }
}

/// The outcome of scanning a batch.
pub struct ScanOutcome {
    /// The chord was completed within the batch.
    pub unlock: bool,
    /// Whether Control is held where the scan stopped.
    pub held: bool,
}

/// Scans a batch from its first event on and stops at the first event that
/// completes the chord.
pub open spec fn scan(events: Seq<InputEvent>, target: u16, held: bool) -> ScanOutcome
    decreases events.len(),
{
    if events.len() == 0 {
        ScanOutcome { unlock: false, held }
    } else if completes_chord(held, events[0], target) {
        ScanOutcome { unlock: true, held: held_after(held, events[0]) }
    } else {
        scan(events.drop_first(), target, held_after(held, events[0]))
    }
}

/// Remembers across events whether a Control key is held.
#[derive(Clone, Copy, Debug, PartialEq, Eq, Structural)]
pub struct ChordTracker {
    pub control_held: bool,
}

impl ChordTracker {
    /// A tracker that has seen no Control key yet.
    pub fn new() -> (tracker: ChordTracker)
        ensures
            !tracker.control_held,
    {
        ChordTracker { control_held: false }
    }

    /// Takes one event into account and says whether it completes the chord.
    pub fn observe(&mut self, ev: &InputEvent, target: u16) -> (unlock: bool)
        ensures
            final(self).control_held == held_after(old(self).control_held, *ev),
            unlock == completes_chord(old(self).control_held, *ev, target),
    {
        match key_of(ev) {
            Some(code) => {
                let is_down = ev.value != 0;
                if code == left_control_code() || code == right_control_code() {
                    self.control_held = is_down;
                }
                code == target && is_down && self.control_held
            },
            None => false,
        }
    }

    /// Scans one batch of events in order and says whether the chord was
    /// completed in it.  The scan stops at the first completing event.
    pub fn observe_batch(&mut self, events: &Vec<InputEvent>, target: u16) -> (unlock: bool)
        ensures
            unlock == scan(events@, target, old(self).control_held).unlock,
            final(self).control_held == scan(events@, target, old(self).control_held).held,
    {
        let mut i: usize = 0;
        assert(events@.skip(0) =~= events@);
        while i < events.len()
            invariant
                i <= events.len(),
                scan(events@, target, old(self).control_held) == scan(
                    events@.skip(i as int),
                    target,
                    self.control_held,
                ),
            decreases events.len() - i,
        {
            let ev = events[i];
            assert(events@.skip(i as int)[0] == ev);
            assert(events@.skip(i as int).drop_first() =~= events@.skip(i + 1));
            if self.observe(&ev, target) {
                return true;
            }
            i += 1;
        }
        false
    }
}

/// A batch completes the chord exactly if one of its events does, given what
/// the events before it did to the Control key.
pub proof fn lemma_scan_finds_chord(events: Seq<InputEvent>, target: u16, held: bool)
    ensures
        scan(events, target, held).unlock <==> exists|i: int|
            0 <= i < events.len() && #[trigger] completes_chord(
                held_through(events.take(i), held),
                events[i],
                target,
            ),
        !scan(events, target, held).unlock ==> scan(events, target, held).held == held_through(
            events,
            held,
        ),
    decreases events.len(),
{
    if events.len() == 0 {
    } else {
        let first = events[0];
        let rest = events.drop_first();
        let next = held_after(held, first);
        assert(events.take(0) =~= Seq::<InputEvent>::empty());
        assert(held_through(events.take(0), held) == held);
        lemma_held_through_first(events, held);
        assert forall|i: int| 0 <= i < rest.len() implies held_through(rest.take(i), next)
            == held_through(events.take(i + 1), held) by {
            assert(events.take(i + 1).drop_first() =~= rest.take(i));
            lemma_held_through_first(events.take(i + 1), held);
        }
        if completes_chord(held, first, target) {
            assert(completes_chord(held_through(events.take(0), held), events[0], target));
        } else {
            lemma_scan_finds_chord(rest, target, next);
            if scan(rest, target, next).unlock {
                let i = choose|i: int|
                    0 <= i < rest.len() && #[trigger] completes_chord(
                        held_through(rest.take(i), next),
                        rest[i],
                        target,
                    );
                assert(rest[i] == events[i + 1]);
                assert(held_through(rest.take(i), next) == held_through(
                    events.take(i + 1),
                    held,
                ));
                assert(completes_chord(
                    held_through(events.take(i + 1), held),
                    events[i + 1],
                    target,
                ));
            } else {
                assert forall|i: int| 0 <= i < events.len() implies !#[trigger] completes_chord(
                    held_through(events.take(i), held),
                    events[i],
                    target,
                ) by {
                    if i > 0 {
                        let j = i - 1;
                        assert(rest[j] == events[i]);
                        assert(held_through(rest.take(j), next) == held_through(
                            events.take(j + 1),
                            held,
                        ));
                        assert(!completes_chord(
                            held_through(rest.take(j), next),
                            rest[j],
                            target,
                        ));
                    }
                }
                assert(held_through(events, held) == held_through(rest, next));
            }
        }
    }
}

/// Folding the Control state from the back agrees with folding it from the
/// front.
proof fn lemma_held_through_first(events: Seq<InputEvent>, held: bool)
    requires
        events.len() > 0,
    ensures
        held_through(events, held) == held_through(
            events.drop_first(),
            held_after(held, events[0]),
        ),
    decreases events.len(),
{
    if events.len() == 1 {
        assert(events.drop_last() =~= Seq::<InputEvent>::empty());
        assert(events.drop_first() =~= Seq::<InputEvent>::empty());
        assert(held_through(events.drop_last(), held) == held);
    } else {
        lemma_held_through_first(events.drop_last(), held);
        assert(events.drop_last().drop_first() =~= events.drop_first().drop_last());
        assert(events.drop_last()[0] == events[0]);
        assert(events.drop_first().last() == events.last());
    }
}

/// Control pressed, then the unlock key pressed: the chord is complete.
pub proof fn lemma_control_then_key_unlocks(
    control: InputEvent,
    key: InputEvent,
    target: u16,
    held: bool,
)
    requires
        control.is_control() && control.is_down(),
        key.is_key() && key.code == target && key.is_down(),
    ensures
        scan(seq![control, key], target, held).unlock,
{
    let events = seq![control, key];
    assert(events[0] == control);
    assert(events.drop_first() =~= seq![key]);
    assert(seq![key][0] == key);
    reveal_with_fuel(scan, 3);
}

/// The unlock key pressed before Control is pressed: no chord, since Control
/// was not held when the key went down.
pub proof fn lemma_key_before_control_stays_locked(
    key: InputEvent,
    control: InputEvent,
    target: u16,
)
    requires
        key.is_key() && key.code == target && key.is_down(),
        control.is_control() && control.is_down(),
        target != LEFT_CONTROL_CODE && target != RIGHT_CONTROL_CODE,
    ensures
        !scan(seq![key, control], target, false).unlock,
        scan(seq![key, control], target, false).held,
{
    let events = seq![key, control];
    assert(events[0] == key);
    assert(events.drop_first() =~= seq![control]);
    assert(seq![control][0] == control);
    assert(seq![control].drop_first() =~= Seq::<InputEvent>::empty());
    reveal_with_fuel(scan, 4);
}

/// Control pressed and released again before the unlock key is pressed: no
/// chord, whatever was held before.
pub proof fn lemma_released_control_stays_locked(
    down: InputEvent,
    up: InputEvent,
    key: InputEvent,
    target: u16,
    held: bool,
)
    requires
        down.is_control() && down.is_down(),
        up.is_control() && !up.is_down(),
        key.is_key() && key.code == target && key.is_down(),
        target != LEFT_CONTROL_CODE && target != RIGHT_CONTROL_CODE,
    ensures
        !scan(seq![down, up, key], target, held).unlock,
        !scan(seq![down, up, key], target, held).held,
{
    let events = seq![down, up, key];
    assert(events[0] == down);
    assert(events.drop_first() =~= seq![up, key]);
    assert(seq![up, key][0] == up);
    assert(seq![up, key].drop_first() =~= seq![key]);
    assert(seq![key][0] == key);
    assert(seq![key].drop_first() =~= Seq::<InputEvent>::empty());
    reveal_with_fuel(scan, 5);
}

} // verus!
