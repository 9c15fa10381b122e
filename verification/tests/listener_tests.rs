use transcribble::events::UiEvent;
use transcribble::lifecycle::{ListenerLifecycleFlags, STOP_GRACE_MS};
use transcribble::listener::{
    decide_start, listener_started, permission_events, start_listener, startup_failed,
    StartDecision, StartupFailure,
};
use transcribble::permissions::{
    check_microphone_permission, get_microphone_status, get_permission_status,
    open_system_settings, MicrophoneAuthorization, PermissionStatus,
};
use transcribble::watchdog::{
    HealthPlan, TickStart, WatchdogMonitor, STATUS_REPORT_EVERY, WATCHDOG_PERIOD_MS,
};

fn granted() -> PermissionStatus {
    get_permission_status(true, "authorized".to_string())
}

fn listener_error(message: &str) -> UiEvent {
    UiEvent::ListenerError { message: message.to_string() }
}

#[test]
fn start_is_idempotent() {
    let mut flags = ListenerLifecycleFlags::new();
    assert!(!flags.is_started());
    assert!(!flags.should_stop());
    assert!(flags.try_start());
    assert!(flags.is_started());
    assert!(!flags.try_start());
    assert!(!flags.try_start());
    assert!(flags.is_started());
    assert!(!flags.should_stop());
}

#[test]
fn stop_resets_both_flags() {
    let mut flags = ListenerLifecycleFlags::new();
    assert!(flags.try_start());
    assert_eq!(flags.begin_stop(), 100);
    assert_eq!(STOP_GRACE_MS, 100);
    assert!(flags.should_stop());
    assert!(flags.is_started());
    flags.finish_stop();
    assert!(!flags.should_stop());
    assert!(!flags.is_started());
    // Ready for a fresh start.
    assert!(flags.try_start());
}

#[test]
fn aborted_start_can_be_tried_again() {
    let mut flags = ListenerLifecycleFlags::new();
    assert!(flags.try_start());
    flags.abort_start();
    assert!(!flags.is_started());
    assert!(flags.try_start());
}

#[test]
fn start_proceeds_with_the_keycode() {
    let mut flags = ListenerLifecycleFlags::new();
    let plan = start_listener(&mut flags, &granted(), "RightAlt");
    assert_eq!(plan.decision, StartDecision::Proceed { keycode: 0x3D });
    assert_eq!(plan.events, Vec::<UiEvent>::new());
    assert!(flags.is_started());
    let event = listener_started("RightAlt", 0x3D);
    assert_eq!(event, UiEvent::ListenerStarted { hotkey: "RightAlt".to_string(), code: 0x3D });
    assert_eq!(event.name(), "listener-started");
}

#[test]
fn second_start_is_a_no_op() {
    let mut flags = ListenerLifecycleFlags::new();
    let plan = start_listener(&mut flags, &granted(), "f5");
    assert_eq!(plan.decision, StartDecision::Proceed { keycode: 0x60 });
    let plan = start_listener(&mut flags, &granted(), "f5");
    assert_eq!(plan.decision, StartDecision::AlreadyStarted);
    assert_eq!(plan.events, Vec::<UiEvent>::new());
    assert!(flags.is_started());
    // Not even a bad configuration is looked at while a listener is active.
    let plan = start_listener(&mut flags, &granted(), "");
    assert_eq!(plan.decision, StartDecision::AlreadyStarted);
    assert_eq!(plan.events, Vec::<UiEvent>::new());
}

#[test]
fn empty_hotkey_is_rejected() {
    let mut flags = ListenerLifecycleFlags::new();
    let plan = start_listener(&mut flags, &granted(), "");
    assert_eq!(plan.decision, StartDecision::Rejected);
    assert_eq!(plan.events, vec![listener_error("No hotkey configured")]);
    assert_eq!(plan.events[0].name(), "listener-error");
    assert!(!flags.is_started());
}

#[test]
fn unknown_hotkey_is_rejected_by_name() {
    let mut flags = ListenerLifecycleFlags::new();
    let plan = start_listener(&mut flags, &granted(), "Hyper");
    assert_eq!(plan.decision, StartDecision::Rejected);
    assert_eq!(plan.events, vec![listener_error("Unknown hotkey: Hyper")]);
    assert!(!flags.is_started());
    // A corrected configuration starts.
    let plan = start_listener(&mut flags, &granted(), "Space");
    assert_eq!(plan.decision, StartDecision::Proceed { keycode: 0x31 });
}

#[test]
fn missing_permissions_are_reported_and_do_not_end_the_startup() {
    let mut flags = ListenerLifecycleFlags::new();
    let permissions = get_permission_status(false, "denied".to_string());
    let plan = start_listener(&mut flags, &permissions, "F1");
    let accessibility = UiEvent::PermissionError {
        permission: "accessibility".to_string(),
        message: "Accessibility permission is required for hotkey detection".to_string(),
    };
    let microphone = UiEvent::PermissionError {
        permission: "microphone".to_string(),
        message: "Microphone permission is required for audio recording".to_string(),
    };
    assert_eq!(plan.events, vec![accessibility.clone(), microphone.clone()]);
    assert_eq!(accessibility.name(), "permission-error");
    assert_eq!(plan.decision, StartDecision::Proceed { keycode: 0x7A });
    assert_eq!(permission_events(&granted()), Vec::<UiEvent>::new());
    let only_mic = get_permission_status(true, "not_determined".to_string());
    assert_eq!(permission_events(&only_mic), vec![microphone.clone()]);
    let only_acc = get_permission_status(false, "authorized".to_string());
    assert_eq!(permission_events(&only_acc), vec![accessibility.clone()]);
    // They are reported before the configuration is.
    let mut flags = ListenerLifecycleFlags::new();
    let plan = start_listener(&mut flags, &only_mic, "nope");
    assert_eq!(plan.events, vec![microphone, listener_error("Unknown hotkey: nope")]);
}

#[test]
fn decide_start_for_each_lookup_result() {
    let mut flags = ListenerLifecycleFlags::new();
    assert!(flags.try_start());
    let (decision, events) = decide_start(&mut flags, false, "f1", Some(0x7A));
    assert_eq!(decision, StartDecision::AlreadyStarted);
    assert!(events.is_empty());
    assert!(flags.is_started());
    let (decision, events) = decide_start(&mut flags, true, "f1", Some(0x7A));
    assert_eq!(decision, StartDecision::Proceed { keycode: 0x7A });
    assert!(events.is_empty());
    assert!(flags.is_started());
    let (decision, events) = decide_start(&mut flags, true, "f1", None);
    assert_eq!(decision, StartDecision::Rejected);
    assert_eq!(events, vec![listener_error("Unknown hotkey: f1")]);
    assert!(!flags.is_started());
    assert!(flags.try_start());
    let (decision, events) = decide_start(&mut flags, true, "", Some(1));
    assert_eq!(decision, StartDecision::Rejected);
    assert_eq!(events, vec![listener_error("No hotkey configured")]);
    assert!(!flags.is_started());
}

#[test]
fn startup_failures_are_reported_and_allow_a_fresh_start() {
    let failures = [
        (
            StartupFailure::Audio { message: "No input device available".to_string() },
            "Failed to initialize audio: No input device available",
        ),
        (
            StartupFailure::InputHook,
            "Failed to create event tap (check Accessibility permissions)",
        ),
        (StartupFailure::EventLoopSource, "Failed to create run loop source"),
    ];
    for (failure, message) in failures {
        let mut flags = ListenerLifecycleFlags::new();
        assert!(flags.try_start());
        assert_eq!(startup_failed(&mut flags, &failure), listener_error(message));
        assert!(!flags.is_started());
        assert!(flags.try_start());
    }
}

#[test]
fn watchdog_tick_begins_by_the_flags() {
    let mut watchdog = WatchdogMonitor::new();
    assert_eq!(watchdog.check_count(), 0);
    assert_eq!(watchdog.begin_tick(true, true), TickStart::Exit);
    assert_eq!(watchdog.begin_tick(true, false), TickStart::Exit);
    assert_eq!(watchdog.begin_tick(false, false), TickStart::Skip);
    assert_eq!(watchdog.check_count(), 0);
    assert_eq!(watchdog.begin_tick(false, true), TickStart::Check);
    assert_eq!(watchdog.check_count(), 1);
    assert_eq!(WATCHDOG_PERIOD_MS, 2000);
}

#[test]
fn watchdog_tries_a_disabled_hook_once_per_tick() {
    let mut watchdog = WatchdogMonitor::new();
    let mut attempts = 0;
    let mut events = Vec::new();
    // The hook stays disabled for three ticks and recovers in the fourth.
    for recovers in [false, false, false, true] {
        assert_eq!(watchdog.begin_tick(false, true), TickStart::Check);
        let plan = watchdog.on_health(false);
        assert!(plan.reenable);
        attempts += 1;
        events.push(watchdog.on_reenabled(recovers));
    }
    assert_eq!(attempts, 4);
    let failed = UiEvent::ListenerError {
        message: "Event tap disabled by system (check Accessibility permissions)".to_string(),
    };
    let recovered =
        UiEvent::ListenerRecovered { message: "Hotkey listener recovered".to_string() };
    assert_eq!(events, vec![failed.clone(), failed.clone(), failed, recovered.clone()]);
    assert_eq!(recovered.name(), "listener-recovered");
    // An enabled hook is left alone.
    assert_eq!(watchdog.begin_tick(false, true), TickStart::Check);
    assert!(!watchdog.on_health(true).reenable);
}

#[test]
fn watchdog_reports_every_fifteenth_check() {
    let mut watchdog = WatchdogMonitor::new();
    let mut reported = Vec::new();
    for _ in 0..45 {
        assert_eq!(watchdog.begin_tick(false, true), TickStart::Check);
        let plan = watchdog.on_health(true);
        assert_eq!(
            plan,
            HealthPlan { report_status: watchdog.check_count() % 15 == 0, reenable: false }
        );
        if plan.report_status {
            reported.push(watchdog.check_count());
        }
    }
    assert_eq!(reported, vec![15, 30, 45]);
    assert_eq!(STATUS_REPORT_EVERY, 15);
}

#[test]
fn microphone_status_names() {
    assert_eq!(get_microphone_status(Some(MicrophoneAuthorization::NotDetermined)), "not_determined");
    assert_eq!(get_microphone_status(Some(MicrophoneAuthorization::Restricted)), "restricted");
    assert_eq!(get_microphone_status(Some(MicrophoneAuthorization::Denied)), "denied");
    assert_eq!(get_microphone_status(Some(MicrophoneAuthorization::Authorized)), "authorized");
    assert_eq!(get_microphone_status(None), "not_determined");
}

#[test]
fn only_authorized_grants_the_microphone() {
    assert!(check_microphone_permission("authorized"));
    assert!(!check_microphone_permission("denied"));
    assert!(!check_microphone_permission("restricted"));
    assert!(!check_microphone_permission("not_determined"));
    assert!(!check_microphone_permission("Authorized"));
    assert!(!check_microphone_permission(""));
}

#[test]
fn permission_status_is_put_together() {
    assert_eq!(
        get_permission_status(true, "authorized".to_string()),
        PermissionStatus {
            accessibility: true,
            microphone: true,
            microphone_status: "authorized".to_string(),
            all_granted: true,
        }
    );
    assert_eq!(
        get_permission_status(false, "authorized".to_string()),
        PermissionStatus {
            accessibility: false,
            microphone: true,
            microphone_status: "authorized".to_string(),
            all_granted: false,
        }
    );
    assert_eq!(
        get_permission_status(true, "denied".to_string()),
        PermissionStatus {
            accessibility: true,
            microphone: false,
            microphone_status: "denied".to_string(),
            all_granted: false,
        }
    );
}

#[test]
fn settings_panes_have_their_address() {
    assert_eq!(
        open_system_settings("accessibility"),
        Ok("x-apple.systempreferences:com.apple.preference.security?Privacy_Accessibility"
            .to_string())
    );
    assert_eq!(
        open_system_settings("microphone"),
        Ok("x-apple.systempreferences:com.apple.preference.security?Privacy_Microphone"
            .to_string())
    );
    assert_eq!(
        open_system_settings("input_monitoring"),
        Ok("x-apple.systempreferences:com.apple.preference.security?Privacy_ListenEvent"
            .to_string())
    );
    assert_eq!(
        open_system_settings("bluetooth"),
        Err("Unknown settings pane: bluetooth".to_string())
    );
    assert_eq!(open_system_settings(""), Err("Unknown settings pane: ".to_string()));
}
