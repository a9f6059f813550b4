//! Killer behaviour: grace-period configuration, and the kill protocol
//! against a pid that is guaranteed not to exist.

use portkiller_core::Error;
use portkiller_core::ProcessKiller;
use portkiller_core::SignalKind;
use portkiller_core::SignalOutcome;
use portkiller_core::killer::classify_tool_outcome;
use portkiller_core::killer::probe_running;
use portkiller_core::killer::termination_kind;

#[test]
fn test_default_grace_period() {
    let killer = ProcessKiller::new();
    assert_eq!(killer.grace_period_ms, 500);
}

#[test]
fn test_custom_grace_period() {
    let killer = ProcessKiller::with_grace_period(2000);
    assert_eq!(killer.grace_period_ms, 2000);
}

#[test]
fn test_kill_nonexistent_process() {
    let killer = ProcessKiller::new();
    // Use a very high PID that shouldn't exist
    let result = killer.kill(999999999, false);
    assert!(result.is_ok());
    assert!(!result.unwrap()); // Process doesn't exist
}

#[test]
fn test_is_running_nonexistent() {
    let killer = ProcessKiller::new();
    assert!(!killer.is_running(999999999));
}

#[test]
fn test_kill_gracefully_nonexistent_process() {
    // Both protocol stages report absence: Ok(false), never an error.
    let killer = ProcessKiller::new();
    let result = killer.kill_gracefully(999999999);
    assert!(result.is_ok());
    assert!(!result.unwrap());
}

#[test]
fn test_force_kill_nonexistent_process() {
    let killer = ProcessKiller::new();
    let result = killer.kill(999999999, true);
    assert!(result.is_ok());
    assert!(!result.unwrap());
}

#[test]
fn test_termination_kind_selection() {
    // A forced kill selects the unconditional signal, an unforced one the
    // graceful request.
    assert_eq!(termination_kind(true), SignalKind::Kill);
    assert_eq!(termination_kind(false), SignalKind::Term);
}

#[test]
fn test_probe_running_classification() {
    // Only an accepted probe means the target exists.
    assert!(probe_running(&SignalOutcome::Delivered));
    assert!(!probe_running(&SignalOutcome::NoSuchProcess));
    assert!(!probe_running(&SignalOutcome::PermissionDenied));
    assert!(!probe_running(&SignalOutcome::Failed("busy".to_string())));
}

#[test]
fn test_tool_outcome_success() {
    let r = classify_tool_outcome(true, "", 42);
    assert!(matches!(r, Ok(true)));
}

#[test]
fn test_tool_outcome_absent() {
    let r = classify_tool_outcome(false, "ERROR: The process \"42\" not found.", 42);
    assert!(matches!(r, Ok(false)));
}

#[test]
fn test_tool_outcome_failure_keeps_reason() {
    let r = classify_tool_outcome(false, "Access is denied.", 42);
    match r {
        Err(Error::KillFailed { pid, reason }) => {
            assert_eq!(pid, 42);
            assert_eq!(reason, "Access is denied.");
        }
        _ => panic!("expected KillFailed"),
    }
}

#[test]
fn test_error_message_rendering() {
    let e = Error::KillFailed { pid: 7, reason: "busy".to_string() };
    assert_eq!(e.message(), "Failed to kill process 7: busy");
    let e = Error::PermissionDenied("Permission denied to kill process 7".to_string());
    assert_eq!(e.message(), "Permission denied to kill process 7");
    let e = Error::ConfigError("config file unreadable".to_string());
    assert_eq!(e.message(), "config file unreadable");
    let e = Error::CommandFailed("tool missing".to_string());
    assert_eq!(e.message(), "tool missing");
}
