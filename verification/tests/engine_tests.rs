use ttydo::mux::{biased_choice, Branch, Mux, MuxAction, MuxEvent};
use ttydo::status::{classify_wait, report_code, WaitInfo, XStatus};
use ttydo::XError;

/// `echo hello`: one stdout event carrying "hello", then a clean exit with
/// code 0 that the run reports unchanged.
#[test]
fn echo_hello_single_stdout_event() {
    let mut m = Mux::new();
    assert_eq!(m.step(&MuxEvent::StdoutLine(String::from("hello"))), MuxAction::Emit);
    assert_eq!(m.step(&MuxEvent::Exit(XStatus::Exited(0))), MuxAction::Skip);
    assert!(!m.is_done());
    assert_eq!(m.step(&MuxEvent::StdoutEof), MuxAction::Skip);
    assert_eq!(m.step(&MuxEvent::StderrEof), MuxAction::Close);
    assert!(m.is_done());
    assert_eq!(m.status(), Some(XStatus::Exited(0)));
    assert_eq!(report_code(XStatus::Exited(0)), 0);
}

/// A command that writes "out" to stdout and "err" to stderr and exits 0:
/// two delivered events, one per stream, then a clean exit.
#[test]
fn both_streams_two_events() {
    let mut m = Mux::new();
    assert_eq!(m.step(&MuxEvent::StdoutLine(String::from("out"))), MuxAction::Emit);
    assert_eq!(m.step(&MuxEvent::StderrLine(String::from("err"))), MuxAction::Emit);
    assert_eq!(m.step(&MuxEvent::Exit(XStatus::Exited(0))), MuxAction::Skip);
    assert_eq!(m.step(&MuxEvent::StdoutEof), MuxAction::Skip);
    assert_eq!(m.step(&MuxEvent::StderrEof), MuxAction::Close);
    assert_eq!(m.status(), Some(XStatus::Exited(0)));
}

/// Output buffered at exit time is not lost: lines that arrive after the
/// exit observation (the draining phase) are still delivered, and the run
/// finishes only after both streams end.
#[test]
fn drain_delivers_output_after_exit() {
    let mut m = Mux::new();
    assert_eq!(m.step(&MuxEvent::Exit(XStatus::Exited(0))), MuxAction::Skip);
    assert_eq!(m.step(&MuxEvent::StdoutLine(String::from("late out"))), MuxAction::Emit);
    assert_eq!(m.step(&MuxEvent::StderrLine(String::from("late err"))), MuxAction::Emit);
    assert_eq!(m.step(&MuxEvent::StdoutEof), MuxAction::Skip);
    assert!(!m.is_done());
    assert_eq!(m.step(&MuxEvent::StderrEof), MuxAction::Close);
    assert!(m.is_done());
}

/// A child that exits with status 7 and writes nothing: no delivered
/// events, and the run reports 7, not 0.
#[test]
fn exit_code_seven_no_output() {
    let mut m = Mux::new();
    assert_eq!(m.step(&MuxEvent::Exit(XStatus::Exited(7))), MuxAction::Skip);
    assert_eq!(m.step(&MuxEvent::StdoutEof), MuxAction::Skip);
    assert_eq!(m.step(&MuxEvent::StderrEof), MuxAction::Close);
    assert_eq!(m.status(), Some(XStatus::Exited(7)));
    assert_eq!(report_code(XStatus::Exited(7)), 7);
}

/// A child killed by a signal: the termination is `Signaled` and the
/// reported outcome is the non-zero shell convention, 128 plus the signal.
#[test]
fn signal_termination_reports_nonzero() {
    let mut m = Mux::new();
    assert_eq!(m.step(&MuxEvent::StdoutEof), MuxAction::Skip);
    assert_eq!(m.step(&MuxEvent::StderrEof), MuxAction::Skip);
    assert_eq!(m.step(&MuxEvent::Exit(XStatus::Signaled(15))), MuxAction::Close);
    assert_eq!(m.status(), Some(XStatus::Signaled(15)));
    let code = report_code(XStatus::Signaled(15));
    assert_eq!(code, 143);
    assert_ne!(code, 0);
}

/// The close order is issued exactly once on the normal path: everything
/// after it is ignored.
#[test]
fn close_once_normal_exit() {
    let mut m = Mux::new();
    m.step(&MuxEvent::Exit(XStatus::Exited(0)));
    m.step(&MuxEvent::StdoutEof);
    assert_eq!(m.step(&MuxEvent::StderrEof), MuxAction::Close);
    assert_eq!(m.step(&MuxEvent::StderrEof), MuxAction::Skip);
    assert_eq!(m.step(&MuxEvent::Exit(XStatus::Exited(0))), MuxAction::Skip);
    assert_eq!(m.step(&MuxEvent::Abort), MuxAction::Skip);
}

/// The close order is issued exactly once on the abort path (a failed
/// handler or a failed read): once aborted, a second abort or a late
/// event draws nothing.
#[test]
fn close_once_abort_path() {
    let mut m = Mux::new();
    assert_eq!(m.step(&MuxEvent::StdoutLine(String::from("partial"))), MuxAction::Emit);
    assert_eq!(m.step(&MuxEvent::Abort), MuxAction::Close);
    assert!(m.is_done());
    assert_eq!(m.step(&MuxEvent::Abort), MuxAction::Skip);
    assert_eq!(m.step(&MuxEvent::StdoutLine(String::from("late"))), MuxAction::Skip);
}

/// The merge bias: stdout before stderr before the exit check, and
/// nothing when nothing is ready.
#[test]
fn merge_bias_order() {
    assert_eq!(biased_choice(true, true, true), Some(Branch::ReadStdout));
    assert_eq!(biased_choice(false, true, true), Some(Branch::ReadStderr));
    assert_eq!(biased_choice(false, false, true), Some(Branch::CheckExit));
    assert_eq!(biased_choice(false, false, false), None);
}

/// Wait reports are classified: exits and in-range signals are
/// recognized, anything else is the invariant-violation error.
#[test]
fn classify_wait_reports() {
    assert_eq!(classify_wait(&WaitInfo::Exited(7)), Ok(XStatus::Exited(7)));
    assert_eq!(classify_wait(&WaitInfo::Signaled(9)), Ok(XStatus::Signaled(9)));
    assert_eq!(
        classify_wait(&WaitInfo::Signaled(999)),
        Err(XError::UnrecognizedChildState)
    );
    assert_eq!(classify_wait(&WaitInfo::Other), Err(XError::UnrecognizedChildState));
}
