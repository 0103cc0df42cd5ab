use key_overlay::held::HeldKeysState;
use key_overlay::host::Notification;
use key_overlay::lifecycle::{
    finish_capture, stop_capture, CaptureController, CaptureError, CaptureState, StartOutcome,
    StopAction,
};

#[test]
fn new_controller_is_stopped() {
    let c = CaptureController::new();
    assert_eq!(c.state(), CaptureState::Stopped);
    assert_eq!(c.loop_handle(), None);
}

#[test]
fn second_start_is_already_running() {
    let mut c = CaptureController::new();
    assert_eq!(c.start(true), StartOutcome::Started);
    assert_eq!(c.state(), CaptureState::Starting);
    assert_eq!(c.start(true), StartOutcome::AlreadyRunning);
    assert_eq!(c.state(), CaptureState::Starting);
    assert!(c.hook_installed(77));
    assert_eq!(c.start(true), StartOutcome::AlreadyRunning);
    assert_eq!(c.start(false), StartOutcome::AlreadyRunning);
    assert_eq!(c.state(), CaptureState::Running);
    assert_eq!(c.loop_handle(), Some(77));
}

#[test]
fn start_without_permission_is_denied_and_changes_nothing() {
    let mut c = CaptureController::new();
    assert_eq!(c.start(false), StartOutcome::PermissionDenied);
    assert_eq!(c.state(), CaptureState::Stopped);
    assert_eq!(c.loop_handle(), None);
    assert_eq!(c.start(true), StartOutcome::Started);
}

#[test]
fn start_outcomes_have_their_status() {
    assert_eq!(StartOutcome::Started.status(), Ok("started"));
    assert_eq!(StartOutcome::AlreadyRunning.status(), Ok("already_running"));
    assert_eq!(StartOutcome::PermissionDenied.status(), Err("accessibility_denied"));
}

#[test]
fn capture_errors_have_their_reason() {
    assert_eq!(CaptureError::NoPermission.reason(), "no_permission");
    assert_eq!(CaptureError::HookFailed.reason(), "hook_failed");
}

#[test]
fn full_cycle_returns_to_stopped() {
    let mut c = CaptureController::new();
    assert_eq!(c.start(true), StartOutcome::Started);
    assert!(c.hook_installed(5));
    assert_eq!(c.stop(), StopAction::RequestExit(5));
    assert_eq!(c.state(), CaptureState::Stopping);
    assert_eq!(c.start(true), StartOutcome::AlreadyRunning);
    c.loop_exited();
    assert_eq!(c.state(), CaptureState::Stopped);
    assert_eq!(c.loop_handle(), None);
    assert_eq!(c.start(true), StartOutcome::Started);
}

#[test]
fn stop_can_be_asked_twice() {
    let mut c = CaptureController::new();
    c.start(true);
    c.hook_installed(9);
    assert_eq!(c.stop(), StopAction::RequestExit(9));
    assert_eq!(c.stop(), StopAction::RequestExit(9));
    assert_eq!(c.state(), CaptureState::Stopping);
}

#[test]
fn stop_before_the_hook_is_installed_resets() {
    let mut c = CaptureController::new();
    c.start(true);
    assert_eq!(c.stop(), StopAction::Reset);
    assert_eq!(c.state(), CaptureState::Stopped);
    assert!(!c.hook_installed(3));
    assert_eq!(c.state(), CaptureState::Stopped);
    assert_eq!(c.loop_handle(), None);
}

#[test]
fn stop_when_stopped_is_harmless() {
    let mut c = CaptureController::new();
    assert_eq!(c.stop(), StopAction::Reset);
    assert_eq!(c.state(), CaptureState::Stopped);
    assert_eq!(c.start(true), StartOutcome::Started);
}

#[test]
fn failed_hook_leaves_capture_stopped() {
    let mut c = CaptureController::new();
    c.start(true);
    c.hook_failed();
    assert_eq!(c.state(), CaptureState::Stopped);
    assert_eq!(c.start(true), StartOutcome::Started);
}

#[test]
fn reports_out_of_turn_change_nothing() {
    let mut c = CaptureController::new();
    assert!(!c.hook_installed(1));
    c.hook_failed();
    assert_eq!(c.state(), CaptureState::Stopped);
    c.start(true);
    c.hook_installed(2);
    assert!(!c.hook_installed(3));
    c.hook_failed();
    assert_eq!(c.state(), CaptureState::Running);
    assert_eq!(c.loop_handle(), Some(2));
}

#[test]
fn handle_zero_is_a_handle_like_any_other() {
    let mut c = CaptureController::new();
    c.start(true);
    assert!(c.hook_installed(0));
    assert_eq!(c.stop(), StopAction::RequestExit(0));
}

#[test]
fn stop_capture_with_a_loop_leaves_held_keys_to_the_listener() {
    let mut c = CaptureController::new();
    let mut held = HeldKeysState::new(0);
    held.key_down("A", 1);
    c.start(true);
    c.hook_installed(4);
    assert_eq!(stop_capture(&mut c, &mut held), StopAction::RequestExit(4));
    assert!(held.keys().contains("A"));
    finish_capture(&mut c, &mut held);
    assert!(held.keys().is_empty());
    assert_eq!(held.last_event(), 1);
    assert_eq!(c.state(), CaptureState::Stopped);
}

#[test]
fn stop_capture_without_a_loop_clears_held_keys() {
    let mut c = CaptureController::new();
    let mut held = HeldKeysState::new(0);
    held.key_down("A", 1);
    c.start(true);
    assert_eq!(stop_capture(&mut c, &mut held), StopAction::Reset);
    assert!(held.keys().is_empty());
    assert_eq!(c.state(), CaptureState::Stopped);
}

#[test]
fn notifications_have_their_names() {
    assert_eq!(Notification::CaptureError(CaptureError::HookFailed).name(), "capture-error");
    assert_eq!(Notification::AccessibilityStatus(true).name(), "accessibility-status");
    assert_eq!(Notification::ClientCountChanged(3).name(), "client-count-changed");
    assert_eq!(Notification::KeyPressed("A".to_string()).name(), "key-pressed");
}

#[test]
fn stop_is_reported_as_stopped() {
    assert_eq!(StopAction::Reset.status(), "stopped");
    assert_eq!(StopAction::RequestExit(3).status(), "stopped");
}
