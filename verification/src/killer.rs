//! Process termination with graceful shutdown support: a single-signal kill
//! and a two-stage graceful protocol (graceful request, bounded grace period,
//! unconditional termination).
//!
//! The OS interaction is confined to two small trusted wrappers over `nix`;
//! everything that classifies an outcome into a result is verified.

use vstd::prelude::*;

use crate::error::Error;
use crate::text::contains_chars;
use crate::text::dec_digits;
use crate::text::is_substring_of;
use crate::text::str_chars;
use crate::text::u64_to_string;
use vstd::string::*;

verus! {

/// The request handed to the OS: a graceful-request signal, an
/// unconditional-termination signal, or an existence probe that sends
/// nothing.
#[derive(Clone, Copy, PartialEq, Eq, Structural, Debug)]
pub enum SignalKind {
    Term,
    Kill,
    Probe,
}

/// How the OS answered one signal request.
pub enum SignalOutcome {
    /// The signal was accepted: the process existed.
    Delivered,
    /// The target process does not exist.
    NoSuchProcess,
    /// The caller lacks the rights to signal the target.
    PermissionDenied,
    /// Any other rejection, with the OS-reported reason.
    Failed(String),
}

/// The largest process identifier the platform's signed pid type can name.
/// A larger value would wrap negative in the signal call and address a
/// process group instead of one process, so the signal path excludes it.
pub const PLATFORM_PID_MAX: u32 = 0x7fff_ffff;

/// Relies on `nix::sys::signal::kill`: sends SIGTERM or SIGKILL (or, for a
/// probe, no signal at all, which only error-checks), and reports `ESRCH`,
/// `EPERM` and any other errno as distinct outcomes. The pid bound keeps the
/// conversion to the platform's signed pid type faithful: the call then
/// addresses exactly the one named process.
#[verifier::external_body]
fn signal_process(pid: u32, kind: SignalKind) -> (r: SignalOutcome)
    requires
        pid <= PLATFORM_PID_MAX,
{
    let sig: Option<nix::sys::signal::Signal> = match kind {
        SignalKind::Term => Some(nix::sys::signal::Signal::SIGTERM),
        SignalKind::Kill => Some(nix::sys::signal::Signal::SIGKILL),
        SignalKind::Probe => None,
    };
    match nix::sys::signal::kill(nix::unistd::Pid::from_raw(pid as i32), sig) {
        Ok(()) => SignalOutcome::Delivered,
        Err(nix::errno::Errno::ESRCH) => SignalOutcome::NoSuchProcess,
        Err(nix::errno::Errno::EPERM) => SignalOutcome::PermissionDenied,
        Err(e) => SignalOutcome::Failed(e.to_string()),
    }
}

/// Relies on `nix::poll::poll`: with no file descriptors it only waits out
/// the timeout, here given in milliseconds.
#[verifier::external_body]
fn wait_chunk_ms(ms: u16) {
    let _ = nix::poll::poll(&mut [], ms);
}

/// Suspends the calling thread for `total` milliseconds.
fn wait_ms(total: u64) {
    let mut remaining = total;
    while remaining > 0
        decreases remaining,
    {
        if remaining > 65535 {
            wait_chunk_ms(65535);
            remaining = remaining - 65535;
        } else {
            wait_chunk_ms(remaining as u16);
            remaining = 0;
        }
    }
}

/// The status text of a permission rejection for `pid`.
pub open spec fn permission_denied_text(pid: u32) -> Seq<char> {
    "Permission denied to kill process "@ + dec_digits(pid as nat)
}

/// How one signal outcome is classified into a kill result: acceptance means
/// the process existed and is terminating, absence is a successful no-op, a
/// privilege rejection and any other rejection are distinct errors.
pub open spec fn kill_result_matches(o: SignalOutcome, pid: u32, r: Result<bool, Error>) -> bool {
    match o {
        SignalOutcome::Delivered => r == Ok::<bool, Error>(true),
        SignalOutcome::NoSuchProcess => r == Ok::<bool, Error>(false),
        SignalOutcome::PermissionDenied => r matches Err(Error::PermissionDenied(m))
            && m@ == permission_denied_text(pid),
        SignalOutcome::Failed(reason) => r matches Err(Error::KillFailed { pid: p, reason: re })
            && p == pid && re@ == reason@,
    }
}

/// The two-stage protocol result: an error in the graceful stage aborts, any
/// other first-stage outcome hands the decision to the unconditional stage.
pub open spec fn graceful_result_matches(
    first: SignalOutcome,
    second: SignalOutcome,
    pid: u32,
    r: Result<bool, Error>,
) -> bool {
    match first {
        SignalOutcome::PermissionDenied => kill_result_matches(first, pid, r),
        SignalOutcome::Failed(_) => kill_result_matches(first, pid, r),
        _ => kill_result_matches(second, pid, r),
    }
}

/// A target guaranteed absent answers both stages with `NoSuchProcess`, and
/// then the graceful protocol returns `Ok(false)`: never `PermissionDenied`,
/// never `KillFailed`.
pub proof fn lemma_kill_gracefully_absent(pid: u32, r: Result<bool, Error>)
    requires
        graceful_result_matches(SignalOutcome::NoSuchProcess, SignalOutcome::NoSuchProcess, pid, r),
    ensures
        r == Ok::<bool, Error>(false),
{
}

/// The signal kind a kill request selects: the unconditional-termination
/// signal when `force` is set, the graceful-request signal otherwise.
pub fn termination_kind(force: bool) -> (k: SignalKind)
    ensures
        k == (if force {
            SignalKind::Kill
        } else {
            SignalKind::Term
        }),
{
    if force {
        SignalKind::Kill
    } else {
        SignalKind::Term
    }
}

/// Whether a probe outcome means the target exists: only an accepted probe
/// does; absence, a privilege rejection and any other failure all answer no.
pub fn probe_running(o: &SignalOutcome) -> (r: bool)
    ensures
        r == (*o is Delivered),
{
    match o {
        SignalOutcome::Delivered => true,
        _ => false,
    }
}

/// Classifies one signal outcome into the result of a kill request.
pub fn classify_outcome(o: SignalOutcome, pid: u32) -> (r: Result<bool, Error>)
    ensures
        kill_result_matches(o, pid, r),
{
    match o {
        SignalOutcome::Delivered => Ok(true),
        SignalOutcome::NoSuchProcess => Ok(false),
        SignalOutcome::PermissionDenied => {
            let mut m = String::from_str("Permission denied to kill process ");
            m.append(u64_to_string(pid as u64).as_str());
            Err(Error::PermissionDenied(m))
        },
        SignalOutcome::Failed(reason) => Err(Error::KillFailed { pid, reason }),
    }
}

/// The failure text of the platform kill tool mentions that the target
/// process did not exist.
pub open spec fn tool_indicates_absent(stderr: Seq<char>) -> bool {
    is_substring_of("not found"@, stderr) || is_substring_of("No such process"@, stderr)
}

/// On the platform whose only native primitive is an unconditional kill
/// tool, the outcome is inferred from the tool's output: a successful run
/// means the process was killed, a failure message mentioning absence means
/// it did not exist (a best-effort classification, not a guaranteed
/// contract), and any other failure keeps the reported text.
pub fn classify_tool_outcome(success: bool, stderr: &str, pid: u32) -> (r: Result<bool, Error>)
    ensures
        success ==> r == Ok::<bool, Error>(true),
        !success && tool_indicates_absent(stderr@) ==> r == Ok::<bool, Error>(false),
        (!success && !tool_indicates_absent(stderr@) ==> (r matches Err(
            Error::KillFailed { pid: p, reason },
        ) && p == pid && reason@ == stderr@)),
{
    if success {
        Ok(true)
    } else {
        let sc = str_chars(stderr);
        if contains_chars(&sc, &str_chars("not found")) || contains_chars(
            &sc,
            &str_chars("No such process"),
        ) {
            Ok(false)
        } else {
            Err(Error::KillFailed { pid, reason: stderr.to_owned() })
        }
    }
}

/// Process killer with support for graceful and forceful termination.
///
/// The graceful kill strategy sends the graceful-request signal first, waits
/// the configured grace period for the process to clean up, then sends the
/// unconditional-termination signal.
pub struct ProcessKiller {
    /// Grace period between the two stages, in milliseconds (default 500).
    pub grace_period_ms: u64,
}

impl ProcessKiller {
    /// Create a new process killer with the default grace period.
    pub fn new() -> (r: Self)
        ensures
            r.grace_period_ms == 500,
    {
        ProcessKiller { grace_period_ms: 500 }
    }

    /// Create a process killer with a custom grace period in milliseconds.
    pub fn with_grace_period(grace_period_ms: u64) -> (r: Self)
        ensures
            r.grace_period_ms == grace_period_ms,
    {
        ProcessKiller { grace_period_ms }
    }

    /// Kill a process by sending a termination signal: the
    /// unconditional-termination signal when `force` is set, the
    /// graceful-request signal otherwise.
    ///
    /// Which outcome the OS reports depends on the live process table, so the
    /// contract states what the result is for every possible outcome; the
    /// signal handed to the OS is pinned by [`termination_kind`].
    pub fn kill(&self, pid: u32, force: bool) -> (r: Result<bool, Error>)
        requires
            pid <= PLATFORM_PID_MAX,
        ensures
            exists|o: SignalOutcome| kill_result_matches(o, pid, r),
    {
        let o = signal_process(pid, termination_kind(force));
        let r = classify_outcome(o, pid);
        proof {
            assert(kill_result_matches(o, pid, r));
        }
        r
    }

    /// Attempt to kill a process gracefully, falling back to force kill.
    ///
    /// Stage 1 sends the graceful-request signal; if it was accepted the
    /// process gets the grace period to shut down in order. Stage 2 then
    /// unconditionally sends the termination signal and decides the result —
    /// it is issued even when stage 1 reported the process absent, so the
    /// call never silently no-ops when the pid was reused in between (an
    /// accepted, documented race).
    pub fn kill_gracefully(&self, pid: u32) -> (r: Result<bool, Error>)
        requires
            pid <= PLATFORM_PID_MAX,
        ensures
            exists|o1: SignalOutcome, o2: SignalOutcome|
                graceful_result_matches(o1, o2, pid, r),
    {
        let first = signal_process(pid, SignalKind::Term);
        let first_result = classify_outcome(first, pid);
        match first_result {
            Err(e) => {
                let r = Err(e);
                proof {
                    assert(graceful_result_matches(first, SignalOutcome::Delivered, pid, r));
                }
                r
            },
            Ok(delivered) => {
                if delivered {
                    wait_ms(self.grace_period_ms);
                }
                let second = signal_process(pid, SignalKind::Kill);
                let r = classify_outcome(second, pid);
                proof {
                    assert(graceful_result_matches(first, second, pid, r));
                }
                r
            },
        }
    }

    /// Check if a process is running: an existence probe that sends no
    /// signal. Which outcome the probe reports depends on the live process
    /// table at the moment of the call; [`probe_running`] pins how each
    /// outcome becomes the answer (only an accepted probe means the target
    /// exists). The kill protocol never gates on this probe.
    pub fn is_running(&self, pid: u32) -> bool
        requires
            pid <= PLATFORM_PID_MAX,
    {
        let o = signal_process(pid, SignalKind::Probe);
        probe_running(&o)
    }
}

impl Default for ProcessKiller {
    fn default() -> (r: Self)
        ensures
            r.grace_period_ms == 500,
    {
        ProcessKiller::new()
    }
}

} // verus!
