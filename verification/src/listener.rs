//! Startup of the listener: what is reported and what is decided before the
//! input hook is set up, and what follows if setting it up fails.

use vstd::prelude::*;
use vstd::string::*;
use crate::events::{event_views, UiEvent, UiEventView};
use crate::keycodes::{hotkey_to_keycode, keycode_of_name};
use crate::lifecycle::ListenerLifecycleFlags;
use crate::permissions::{PermissionStatus, PermissionStatusView};
use crate::text::unicode_lowercase;

verus! {

/// How a start request ends before the input hook is set up.
#[derive(Clone, Copy, Debug, PartialEq, Eq, Structural)]
pub enum StartDecision {
    /// A listener is active already: nothing is to be done.
    AlreadyStarted,
    /// The configuration names no usable hotkey: startup has failed.
    Rejected,
    /// Set up audio capture and the input hook for the key `keycode`.
    Proceed { keycode: u16 },
}

/// What a start request leads to: the events to show, in order, and the
/// decision.
#[derive(Clone, Debug, PartialEq, Eq)]
pub struct StartupPlan {
    pub events: Vec<UiEvent>,
    pub decision: StartDecision,
}

/// Something that kept the listener from starting after the decision to
/// proceed.
#[derive(Clone, Debug, PartialEq, Eq)]
pub enum StartupFailure {
    /// Audio capture could not be set up; the message says why.
    Audio { message: String },
    /// The operating system did not create the input hook.
    InputHook,
    /// The input hook could not be attached to the event loop.
    EventLoopSource,
}

/// What a `StartupFailure` holds.
pub enum StartupFailureView {
    Audio { message: Seq<char> },
    InputHook,
    EventLoopSource,
}

impl View for StartupFailure {
    type V = StartupFailureView;

    open spec fn view(&self) -> StartupFailureView {
        match self {
            StartupFailure::Audio { message } => StartupFailureView::Audio { message: message@ },
            StartupFailure::InputHook => StartupFailureView::InputHook,
            StartupFailure::EventLoopSource => StartupFailureView::EventLoopSource,
        }
    }
}

/// The events that report missing permissions: accessibility first, then the
/// microphone.
pub open spec fn permission_events_spec(permissions: PermissionStatusView) -> Seq<UiEventView> {
    let accessibility = if !permissions.accessibility {
        seq![
            UiEventView::PermissionError {
                permission: "accessibility"@,
                message: "Accessibility permission is required for hotkey detection"@,
            },
        ]
    } else {
        Seq::empty()
    };
    let microphone = if !permissions.microphone {
        seq![
            UiEventView::PermissionError {
                permission: "microphone"@,
                message: "Microphone permission is required for audio recording"@,
            },
        ]
    } else {
        Seq::empty()
    };
    accessibility + microphone
}

/// The decision for a start request: `claimed` says whether this request
/// found no listener active, `hotkey` is the configured name and `keycode`
/// what the name resolved to.
pub open spec fn start_decision(claimed: bool, hotkey: Seq<char>, keycode: Option<u16>)
    -> StartDecision {
    if !claimed {
        StartDecision::AlreadyStarted
    } else if hotkey.len() == 0 {
        StartDecision::Rejected
    } else {
        match keycode {
            Some(keycode) => StartDecision::Proceed { keycode },
            None => StartDecision::Rejected,
        }
    }
}

/// The event that reports a rejected configuration, if the request is
/// rejected.
pub open spec fn rejection_event(claimed: bool, hotkey: Seq<char>, keycode: Option<u16>)
    -> Seq<UiEventView> {
    if !claimed {
        Seq::empty()
    } else if hotkey.len() == 0 {
        seq![UiEventView::ListenerError { message: "No hotkey configured"@ }]
    } else if keycode is None {
        seq![UiEventView::ListenerError { message: "Unknown hotkey: "@ + hotkey }]
    } else {
        Seq::empty()
    }
}

/// The event that reports a startup failure.
pub open spec fn failure_event(failure: StartupFailureView) -> UiEventView {
    match failure {
        StartupFailureView::Audio { message } => UiEventView::ListenerError {
            message: "Failed to initialize audio: "@ + message,
        },
        StartupFailureView::InputHook => UiEventView::ListenerError {
            message: "Failed to create event tap (check Accessibility permissions)"@,
        },
        StartupFailureView::EventLoopSource => UiEventView::ListenerError {
            message: "Failed to create run loop source"@,
        },
    }
}

/// Lists the events that report missing permissions. A missing permission
/// does not end the startup: what depends on it fails on its own.
pub fn permission_events(permissions: &PermissionStatus) -> (events: Vec<UiEvent>)
    ensures
        event_views(events@) == permission_events_spec(permissions@),
{
    let mut events: Vec<UiEvent> = Vec::new();
    if !permissions.accessibility {
        events.push(
            UiEvent::PermissionError {
                permission: "accessibility".to_owned(),
                message: "Accessibility permission is required for hotkey detection".to_owned(),
            },
        );
    }
    if !permissions.microphone {
        events.push(
            UiEvent::PermissionError {
                permission: "microphone".to_owned(),
                message: "Microphone permission is required for audio recording".to_owned(),
            },
        );
    }
    assert(event_views(events@) =~= permission_events_spec(permissions@));
    events
}

/// Decides a start request once the start is claimed or not and the hotkey
/// name is looked up. A rejected request gives its claim back, so that a
/// start with a corrected configuration is tried afresh.
pub fn decide_start(
    flags: &mut ListenerLifecycleFlags,
    claimed: bool,
    hotkey: &str,
    keycode: Option<u16>,
) -> (decided: (StartDecision, Vec<UiEvent>))
    ensures
        decided.0 == start_decision(claimed, hotkey@, keycode),
        event_views(decided.1@) == rejection_event(claimed, hotkey@, keycode),
        final(flags).started() == if decided.0 == StartDecision::Rejected {
            false
        } else {
            old(flags).started()
        },
        final(flags).stop_requested() == old(flags).stop_requested(),
{
    let mut events: Vec<UiEvent> = Vec::new();
    if !claimed {
        assert(event_views(events@) =~= rejection_event(claimed, hotkey@, keycode));
        return (StartDecision::AlreadyStarted, events);
    }
    if hotkey.unicode_len() == 0 {
        flags.abort_start();
        events.push(UiEvent::listener_error("No hotkey configured"));
        assert(event_views(events@) =~= rejection_event(claimed, hotkey@, keycode));
        return (StartDecision::Rejected, events);
    }
    match keycode {
        Some(keycode) => {
            assert(event_views(events@) =~= rejection_event(claimed, hotkey@, Some(keycode)));
            (StartDecision::Proceed { keycode }, events)
        },
        None => {
            flags.abort_start();
            let mut message = "Unknown hotkey: ".to_owned();
            message.append(hotkey);
            events.push(UiEvent::ListenerError { message });
            assert(event_views(events@) =~= rejection_event(claimed, hotkey@, keycode));
            (StartDecision::Rejected, events)
        },
    }
}

/// Takes a start request for the hotkey called `hotkey`.
///
/// Missing permissions are reported first, whatever follows. Then the start
/// is claimed: while a listener is active the request is a no-op. The name
/// of the hotkey is looked up in any letter case; an empty or unknown name
/// is reported, and the request fails before anything is set up.
pub fn start_listener(
    flags: &mut ListenerLifecycleFlags,
    permissions: &PermissionStatus,
    hotkey: &str,
) -> (plan: StartupPlan)
    ensures
        plan.decision == start_decision(
            !old(flags).started(),
            hotkey@,
            keycode_of_name(unicode_lowercase(hotkey@)),
        ),
        event_views(plan.events@) == permission_events_spec(permissions@) + rejection_event(
            !old(flags).started(),
            hotkey@,
            keycode_of_name(unicode_lowercase(hotkey@)),
        ),
        final(flags).started() == (plan.decision != StartDecision::Rejected),
        final(flags).stop_requested() == old(flags).stop_requested(),
{
    let mut events = permission_events(permissions);
    let claimed = flags.try_start();
    let keycode = hotkey_to_keycode(hotkey);
    let (decision, mut rejection) = decide_start(flags, claimed, hotkey, keycode);
    let ghost reported = events@;
    let ghost rejected = rejection@;
    events.append(&mut rejection);
    assert(event_views(events@) =~= event_views(reported) + event_views(rejected));
    StartupPlan { events, decision }
}

/// Takes a failure that came up after the decision to proceed: gives the
/// claimed start back, so that the listener is ready for a fresh start, and
/// returns the event that reports the failure.
pub fn startup_failed(flags: &mut ListenerLifecycleFlags, failure: &StartupFailure) -> (event:
    UiEvent)
    ensures
        !final(flags).started(),
        final(flags).stop_requested() == old(flags).stop_requested(),
        event@ == failure_event(failure@),
{
    flags.abort_start();
    match failure {
        StartupFailure::Audio { message } => {
            let mut text = "Failed to initialize audio: ".to_owned();
            text.append(message.as_str());
            UiEvent::ListenerError { message: text }
        },
        StartupFailure::InputHook => UiEvent::listener_error(
            "Failed to create event tap (check Accessibility permissions)",
        ),
        StartupFailure::EventLoopSource => UiEvent::listener_error(
            "Failed to create run loop source",
        ),
    }
}

/// The event that reports a listener that is set up for the key `keycode`,
/// which the hotkey called `hotkey` stands for.
pub fn listener_started(hotkey: &str, keycode: u16) -> (event: UiEvent)
    ensures
        event@ == (UiEventView::ListenerStarted { hotkey: hotkey@, code: keycode }),
{
    UiEvent::ListenerStarted { hotkey: hotkey.to_owned(), code: keycode }
}

} // verus!
