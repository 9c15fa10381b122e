//! The hotkey event source: turns raw key events into one "recording
//! started" and one "recording stopped" signal per physical press and release
//! of the configured key.
//!
//! The source keeps a single boolean, whether the key is down, and signals
//! only when that boolean changes. Key repeat and events of other keys
//! therefore signal nothing.

use vstd::prelude::*;
use crate::keycodes::{modifier_pressed, modifier_pressed_spec};

verus! {

/// Raw event type of a key-down event.
pub const EVENT_KEY_DOWN: u64 = 10;

/// Raw event type of a key-up event.
pub const EVENT_KEY_UP: u64 = 11;

/// Raw event type of a flags-changed event, which modifier keys report in
/// place of key-down and key-up.
pub const EVENT_FLAGS_CHANGED: u64 = 12;

/// The shape of a key event.
#[derive(Clone, Copy, Debug, PartialEq, Eq, Structural)]
pub enum KeyEventKind {
    /// A key went down; repeated while the key is held.
    KeyDown,
    /// A key went up.
    KeyUp,
    /// The modifier flags changed; the flags say which modifiers are held.
    FlagsChanged,
    /// Any other event.
    Other,
}

/// One key event as the platform delivers it.
#[derive(Clone, Copy, Debug, PartialEq, Eq, Structural)]
pub struct KeyEvent {
    pub kind: KeyEventKind,
    pub keycode: u16,
    pub flags: u64,
}

/// What the event source signals on an edge.
#[derive(Clone, Copy, Debug, PartialEq, Eq, Structural)]
pub enum HotkeyEvent {
    RecordingStarted,
    RecordingStopped,
}

/// The kind of the event with raw type `event_type`.
pub open spec fn kind_of_raw(event_type: u64) -> KeyEventKind {
    if event_type == EVENT_KEY_DOWN {
        KeyEventKind::KeyDown
    } else if event_type == EVENT_KEY_UP {
        KeyEventKind::KeyUp
    } else if event_type == EVENT_FLAGS_CHANGED {
        KeyEventKind::FlagsChanged
    } else {
        KeyEventKind::Other
    }
}

impl KeyEventKind {
    /// Classifies a raw event type.
    pub fn from_raw(event_type: u64) -> (kind: KeyEventKind)
        ensures
            kind == kind_of_raw(event_type),
    {
        if event_type == EVENT_KEY_DOWN {
            KeyEventKind::KeyDown
        } else if event_type == EVENT_KEY_UP {
            KeyEventKind::KeyUp
        } else if event_type == EVENT_FLAGS_CHANGED {
            KeyEventKind::FlagsChanged
        } else {
            KeyEventKind::Other
        }
    }
}

impl KeyEvent {
    /// Builds an event from the raw values of the platform: the event type,
    /// the integer key-code field, of which the low 16 bits are the key
    /// code, and the modifier flags.
    pub fn from_raw(event_type: u64, keycode_field: i64, flags: u64) -> (event: KeyEvent)
        ensures
            event.kind == kind_of_raw(event_type),
            event.keycode == keycode_field as u16,
            event.flags == flags,
    {
        KeyEvent {
            kind: KeyEventKind::from_raw(event_type),
            keycode: #[verifier::truncate]
            (keycode_field as u16),
            flags,
        }
    }

    /// A discrete key-down event of the key `keycode`.
    pub fn key_down(keycode: u16) -> (event: KeyEvent)
        ensures
            event == (KeyEvent { kind: KeyEventKind::KeyDown, keycode, flags: 0 }),
    {
        KeyEvent { kind: KeyEventKind::KeyDown, keycode, flags: 0 }
    }

    /// A discrete key-up event of the key `keycode`.
    pub fn key_up(keycode: u16) -> (event: KeyEvent)
        ensures
            event == (KeyEvent { kind: KeyEventKind::KeyUp, keycode, flags: 0 }),
    {
        KeyEvent { kind: KeyEventKind::KeyUp, keycode, flags: 0 }
    }
}

/// Whether the target key is down after `event`, given whether it was down
/// before. Events of other keys, and events that are neither key-down, key-up
/// nor flags-changed, leave the state as it was.
pub open spec fn down_after(target: u16, down: bool, event: KeyEvent) -> bool {
    if event.keycode != target {
        down
    } else {
        match event.kind {
            KeyEventKind::FlagsChanged => modifier_pressed_spec(target, event.flags),
            KeyEventKind::KeyDown => true,
            KeyEventKind::KeyUp => false,
            KeyEventKind::Other => down,
        }
    }
}

/// The signal for a change of the key state from `before` to `after`.
pub open spec fn edge(before: bool, after: bool) -> Option<HotkeyEvent> {
    if !before && after {
        Some(HotkeyEvent::RecordingStarted)
    } else if before && !after {
        Some(HotkeyEvent::RecordingStopped)
    } else {
        None
    }
}

/// Whether `event` can take the target key from down to up.
pub open spec fn releases(target: u16, event: KeyEvent) -> bool {
    event.keycode == target && (event.kind == KeyEventKind::KeyUp || (event.kind
        == KeyEventKind::FlagsChanged && !modifier_pressed_spec(target, event.flags)))
}

/// Edge detector for one target key.
pub struct HotkeyEventSource {
    target_keycode: u16,
    key_down: bool,
}

impl HotkeyEventSource {
    /// The key this source watches.
    pub closed spec fn target(&self) -> u16 {
        self.target_keycode
    }

    /// Whether the source has the key as down.
    pub closed spec fn is_down(&self) -> bool {
        self.key_down
    }

    /// A source for the key `target_keycode`, which starts as released.
    pub fn new(target_keycode: u16) -> (source: HotkeyEventSource)
        ensures
            source.target() == target_keycode,
            !source.is_down(),
    {
        HotkeyEventSource { target_keycode, key_down: false }
    }

    /// The key this source watches.
    pub fn target_keycode(&self) -> (code: u16)
        ensures
            code == self.target(),
    {
        self.target_keycode
    }

    /// Whether the key is currently held, as far as the events told.
    pub fn is_key_down(&self) -> (down: bool)
        ensures
            down == self.is_down(),
    {
        self.key_down
    }

    /// Takes one key event and returns the signal it causes, if any.
    ///
    /// The key state follows `down_after`; a signal is returned exactly when
    /// the state changed. An event of another key changes nothing and
    /// signals nothing.
    pub fn handle(&mut self, event: &KeyEvent) -> (signal: Option<HotkeyEvent>)
        ensures
            final(self).target() == old(self).target(),
            final(self).is_down() == down_after(old(self).target(), old(self).is_down(), *event),
            signal == edge(old(self).is_down(), final(self).is_down()),
            event.keycode != old(self).target() ==> signal is None && final(self).is_down() == old(
                self,
            ).is_down(),
    {
        if event.keycode != self.target_keycode {
            return None;
        }
        let before = self.key_down;
        let after = match event.kind {
            KeyEventKind::FlagsChanged => modifier_pressed(self.target_keycode, event.flags),
            KeyEventKind::KeyDown => true,
            KeyEventKind::KeyUp => false,
            KeyEventKind::Other => before,
        };
        self.key_down = after;
        if !before && after {
            Some(HotkeyEvent::RecordingStarted)
        } else if before && !after {
            Some(HotkeyEvent::RecordingStopped)
        } else {
            None
        }
    }
}

/// The key state after all of `events`, taken in order from the state `down`.
pub open spec fn down_after_all(target: u16, down: bool, events: Seq<KeyEvent>) -> bool
    decreases events.len(),
{
    if events.len() == 0 {
        down
    } else {
        down_after(target, down_after_all(target, down, events.drop_last()), events.last())
    }
}

/// The signals that `events` cause, taken in order from the state `down`.
pub open spec fn signals(target: u16, down: bool, events: Seq<KeyEvent>) -> Seq<HotkeyEvent>
    decreases events.len(),
{
    if events.len() == 0 {
        Seq::empty()
    } else {
        let earlier = signals(target, down, events.drop_last());
        let before = down_after_all(target, down, events.drop_last());
        match edge(before, down_after(target, before, events.last())) {
            Some(signal) => earlier.push(signal),
            None => earlier,
        }
    }
}

/// How often `signal` occurs in `emitted`.
pub open spec fn occurrences(emitted: Seq<HotkeyEvent>, signal: HotkeyEvent) -> nat
    decreases emitted.len(),
{
    if emitted.len() == 0 {
        0
    } else {
        occurrences(emitted.drop_last(), signal) + if emitted.last() == signal {
            1nat
        } else {
            0nat
        }
    }
}

/// Whether `emitted` is started, stopped, started, stopped, and so on.
pub open spec fn alternates(emitted: Seq<HotkeyEvent>) -> bool {
    forall|i: int|
        0 <= i < emitted.len() ==> #[trigger] emitted[i] == if i % 2 == 0 {
            HotkeyEvent::RecordingStarted
        } else {
            HotkeyEvent::RecordingStopped
        }
}

proof fn lemma_occurrences_push(emitted: Seq<HotkeyEvent>, last: HotkeyEvent, signal: HotkeyEvent)
    ensures
        occurrences(emitted.push(last), signal) == occurrences(emitted, signal) + if last
            == signal {
            1nat
        } else {
            0nat
        },
{
    assert(emitted.push(last).drop_last() =~= emitted);
}

/// Whatever events arrive, a source that starts with the key released
/// signals starts and stops in strict alternation, beginning with a start.
/// There is one more start than stops while the key is down, and as many
/// starts as stops once it is up again.
pub proof fn lemma_signals_alternate(target: u16, events: Seq<KeyEvent>)
    ensures
        alternates(signals(target, false, events)),
        signals(target, false, events).len() % 2 == if down_after_all(target, false, events) {
            1int
        } else {
            0int
        },
        occurrences(signals(target, false, events), HotkeyEvent::RecordingStarted) == occurrences(
            signals(target, false, events),
            HotkeyEvent::RecordingStopped,
        ) + if down_after_all(target, false, events) {
            1nat
        } else {
            0nat
        },
    decreases events.len(),
{
    if events.len() > 0 {
        let earlier = signals(target, false, events.drop_last());
        lemma_signals_alternate(target, events.drop_last());
        let before = down_after_all(target, false, events.drop_last());
        let after = down_after(target, before, events.last());
        match edge(before, after) {
            Some(signal) => {
                lemma_occurrences_push(earlier, signal, HotkeyEvent::RecordingStarted);
                lemma_occurrences_push(earlier, signal, HotkeyEvent::RecordingStopped);
                assert(alternates(earlier.push(signal))) by {
                    assert forall|i: int| 0 <= i < earlier.push(signal).len() implies (
                    #[trigger] earlier.push(signal)[i]) == if i % 2 == 0 {
                        HotkeyEvent::RecordingStarted
                    } else {
                        HotkeyEvent::RecordingStopped
                    } by {
                        if i < earlier.len() {
                            assert(earlier.push(signal)[i] == earlier[i]);
                        }
                    }
                }
            },
            None => {},
        }
    }
}

/// Once every press has been followed by its release, so that the key ends
/// up released, the source has signalled exactly as many starts as stops.
pub proof fn lemma_starts_equal_stops(target: u16, events: Seq<KeyEvent>)
    requires
        !down_after_all(target, false, events),
    ensures
        occurrences(signals(target, false, events), HotkeyEvent::RecordingStarted) == occurrences(
            signals(target, false, events),
            HotkeyEvent::RecordingStopped,
        ),
{
    lemma_signals_alternate(target, events);
}

/// Key repeat: events among which none releases the key signal at most one
/// start and never a stop. From a key that is already down they signal
/// nothing at all.
pub proof fn lemma_key_repeat_signals_once(target: u16, down: bool, events: Seq<KeyEvent>)
    requires
        forall|i: int| 0 <= i < events.len() ==> !releases(target, #[trigger] events[i]),
    ensures
        down ==> signals(target, down, events).len() == 0 && down_after_all(target, down, events),
        !down ==> signals(target, down, events).len() == if down_after_all(target, down, events) {
            1int
        } else {
            0int
        },
        signals(target, down, events).len() == 1 ==> signals(target, down, events)[0]
            == HotkeyEvent::RecordingStarted,
        occurrences(signals(target, down, events), HotkeyEvent::RecordingStarted) <= 1,
        occurrences(signals(target, down, events), HotkeyEvent::RecordingStopped) == 0,
    decreases events.len(),
{
    if events.len() > 0 {
        let earlier_events = events.drop_last();
        assert forall|i: int| 0 <= i < earlier_events.len() implies !releases(
            target,
            #[trigger] earlier_events[i],
        ) by {
            assert(earlier_events[i] == events[i]);
        }
        lemma_key_repeat_signals_once(target, down, earlier_events);
        let earlier = signals(target, down, earlier_events);
        let before = down_after_all(target, down, earlier_events);
        let after = down_after(target, before, events.last());
        assert(!releases(target, events[events.len() - 1]));
        match edge(before, after) {
            Some(signal) => {
                lemma_occurrences_push(earlier, signal, HotkeyEvent::RecordingStarted);
                lemma_occurrences_push(earlier, signal, HotkeyEvent::RecordingStopped);
                assert(earlier.len() == 0);
                assert(occurrences(earlier, HotkeyEvent::RecordingStarted) == 0);
            },
            None => {},
        }
    }
}

/// Events of other keys never signal anything and leave the key state as it
/// was.
pub proof fn lemma_other_keys_signal_nothing(target: u16, down: bool, events: Seq<KeyEvent>)
    requires
        forall|i: int| 0 <= i < events.len() ==> (#[trigger] events[i]).keycode != target,
    ensures
        signals(target, down, events).len() == 0,
        down_after_all(target, down, events) == down,
    decreases events.len(),
{
    if events.len() > 0 {
        let earlier_events = events.drop_last();
        assert forall|i: int| 0 <= i < earlier_events.len() implies (
        #[trigger] earlier_events[i]).keycode != target by {
            assert(earlier_events[i] == events[i]);
        }
        lemma_other_keys_signal_nothing(target, down, earlier_events);
        assert(events[events.len() - 1].keycode != target);
    }
}

} // verus!
