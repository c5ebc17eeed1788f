//! Termination outcomes: classifying what the wait operation reported and
//! mapping an outcome to the integer code that a run reports.

use vstd::prelude::*;
use crate::XError;

verus! {

/// A recognized terminal state of the child: a clean exit with a code, or
/// death by a signal, identified by its (positive, OS-bounded) number.
#[derive(Clone, Copy, Debug, PartialEq, Eq, Structural)]
pub enum XStatus {
    Exited(i32),
    Signaled(i32),
}

/// A plain encoding of what the wait operation reported: the two states the
/// launcher can produce, or anything else (stop, continue, ...), which the
/// design treats as an invariant violation.
#[derive(Clone, Copy, Debug, PartialEq, Eq, Structural)]
pub enum WaitInfo {
    Exited(i32),
    Signaled(i32),
    Other,
}

/// A well-formed status carries a signal number in the OS's range (Linux
/// signals are 1..=64); `classify_wait` establishes this.
pub open spec fn status_wf(s: XStatus) -> bool {
    match s {
        XStatus::Exited(_) => true,
        XStatus::Signaled(sig) => 1 <= sig <= 64,
    }
}

/// Turn the reaper's raw report into a recognized status.
///
/// Only exit and signal termination are recognized; any other reported
/// state (including a signal number outside the OS's range) is an
/// internal-invariant violation, since the launcher guarantees a single,
/// once-forked child.
pub fn classify_wait(w: &WaitInfo) -> (r: Result<XStatus, XError>)
    ensures
        match *w {
            WaitInfo::Exited(code) => r == Ok::<XStatus, XError>(XStatus::Exited(code)),
            WaitInfo::Signaled(sig) => {
                if 1 <= sig <= 64 {
                    r == Ok::<XStatus, XError>(XStatus::Signaled(sig))
                } else {
                    r == Err::<XStatus, XError>(XError::UnrecognizedChildState)
                }
            },
            WaitInfo::Other => r == Err::<XStatus, XError>(XError::UnrecognizedChildState),
        },
        r matches Ok(s) ==> status_wf(s),
{
    match *w {
        WaitInfo::Exited(code) => Ok(XStatus::Exited(code)),
        WaitInfo::Signaled(sig) => {
            if 1 <= sig && sig <= 64 {
                Ok(XStatus::Signaled(sig))
            } else {
                Err(XError::UnrecognizedChildState)
            }
        },
        WaitInfo::Other => Err(XError::UnrecognizedChildState),
    }
}

/// The integer outcome a run reports for a termination: the child's own
/// code for a clean exit, and 128 plus the signal number for a signal
/// death (the shell convention), which is always non-zero.
pub fn report_code(s: XStatus) -> (code: i32)
    requires
        status_wf(s),
    ensures
        s matches XStatus::Exited(c) ==> code == c,
        s matches XStatus::Signaled(sig) ==> code == 128 + sig,
        s matches XStatus::Signaled(sig) ==> code != 0,
{
    match s {
        XStatus::Exited(c) => c,
        XStatus::Signaled(sig) => 128 + sig,
    }
}

} // verus!
