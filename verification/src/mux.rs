//! The stream multiplexer's state machine. The host binary owns the
//! actual descriptor reads and the wait on the child; each thing it
//! observes (a line, an end of stream, the child's termination, an abort
//! request) is an event fed to [`Mux::step`], whose result tells the host
//! what to do: deliver the line just consumed, close both descriptors, or
//! nothing. Every transition is pinned by [`step_spec`], and the trace
//! lemmas at the end state the delivery and close-once guarantees.
//!
//! A run drains before it closes: observing the child's exit does not end
//! the stream, it only moves the machine to its draining phase, and the
//! close order is issued once both streams have reached their end, so no
//! output buffered before the exit notification is lost.

use vstd::prelude::*;
use crate::status::XStatus;

verus! {

/// Which standard stream of the child a line came from.
#[derive(Clone, Copy, Debug, PartialEq, Eq, Hash, Structural)]
pub enum StdioType {
    Stdout,
    Stderr,
}

/// Where a run stands: still streaming, draining buffered output after
/// the exit was observed, or finished with the descriptors closed.
#[derive(Clone, Copy, Debug, PartialEq, Eq, Structural)]
pub enum Phase {
    Streaming,
    Draining,
    Done,
}

/// One observation made by the host's read/wait loop.
#[derive(Debug)]
pub enum MuxEvent {
    /// A line read from the stdout channel, terminator stripped.
    StdoutLine(String),
    /// A line read from the stderr channel, terminator stripped.
    StderrLine(String),
    /// The stdout channel reached its end.
    StdoutEof,
    /// The stderr channel reached its end.
    StderrEof,
    /// The reaper reported the child's termination.
    Exit(XStatus),
    /// The caller aborts the run (a handler or a read failed).
    Abort,
}

/// Mathematical image of an event: lines as character sequences.
pub enum EvModel {
    OutLine(Seq<char>),
    ErrLine(Seq<char>),
    OutEof,
    ErrEof,
    Exit(XStatus),
    Abort,
}

impl View for MuxEvent {
    type V = EvModel;

    open spec fn view(&self) -> EvModel {
        match self {
            MuxEvent::StdoutLine(l) => EvModel::OutLine(l@),
            MuxEvent::StderrLine(l) => EvModel::ErrLine(l@),
            MuxEvent::StdoutEof => EvModel::OutEof,
            MuxEvent::StderrEof => EvModel::ErrEof,
            MuxEvent::Exit(s) => EvModel::Exit(*s),
            MuxEvent::Abort => EvModel::Abort,
        }
    }
}

/// What the host must do after a step.
#[derive(Clone, Copy, Debug, PartialEq, Eq, Structural)]
pub enum MuxAction {
    /// Deliver the line of the event just consumed to the handler of its
    /// stream.
    Emit,
    /// Close both read-side descriptors. Issued exactly once per run.
    Close,
    /// Nothing.
    Skip,
}

/// Mathematical image of the multiplexer: its phase, whether each stream
/// is still open, the termination observed so far, and the tagged lines
/// delivered so far, in delivery order.
pub struct MuxModel {
    pub phase: Phase,
    pub stdout_open: bool,
    pub stderr_open: bool,
    pub status: Option<XStatus>,
    pub delivered: Seq<(StdioType, Seq<char>)>,
}

/// The state a run starts in: streaming, both streams open, nothing
/// observed, nothing delivered.
pub open spec fn fresh_model() -> MuxModel {
    MuxModel {
        phase: Phase::Streaming,
        stdout_open: true,
        stderr_open: true,
        status: None,
        delivered: Seq::empty(),
    }
}

/// Both streams have reached their end.
pub open spec fn drained(m: MuxModel) -> bool {
    !m.stdout_open && !m.stderr_open
}

/// Once the machine is draining and both streams have ended, the run
/// finishes: the descriptors are to be closed, exactly now.
pub open spec fn finish_if_drained(m: MuxModel) -> (MuxModel, MuxAction) {
    if m.phase is Draining && drained(m) {
        (MuxModel { phase: Phase::Done, ..m }, MuxAction::Close)
    } else {
        (m, MuxAction::Skip)
    }
}

/// The transition relation of the multiplexer, total over events.
///
/// Lines are delivered while the machine is live (streaming or draining);
/// an end of stream marks its stream closed; the exit observation starts
/// the draining phase (never ends the run by itself); an abort ends the
/// run at once. The close order is issued exactly on the transition to
/// `Done`, and a finished machine ignores everything.
pub open spec fn step_spec(m: MuxModel, ev: EvModel) -> (MuxModel, MuxAction) {
    if m.phase is Done {
        (m, MuxAction::Skip)
    } else {
        match ev {
            EvModel::OutLine(l) => (
                MuxModel { delivered: m.delivered.push((StdioType::Stdout, l)), ..m },
                MuxAction::Emit,
            ),
            EvModel::ErrLine(l) => (
                MuxModel { delivered: m.delivered.push((StdioType::Stderr, l)), ..m },
                MuxAction::Emit,
            ),
            EvModel::OutEof => finish_if_drained(MuxModel { stdout_open: false, ..m }),
            EvModel::ErrEof => finish_if_drained(MuxModel { stderr_open: false, ..m }),
            EvModel::Exit(st) => {
                if m.status is None {
                    finish_if_drained(
                        MuxModel { phase: Phase::Draining, status: Some(st), ..m },
                    )
                } else {
                    (m, MuxAction::Skip)
                }
            },
            EvModel::Abort => (MuxModel { phase: Phase::Done, ..m }, MuxAction::Close),
        }
    }
}

/// The multiplexer as the host drives it. All its behaviour is stated by
/// [`step_spec`] over its mathematical image.
pub struct Mux {
    phase: Phase,
    stdout_open: bool,
    stderr_open: bool,
    status: Option<XStatus>,
    delivered: Ghost<Seq<(StdioType, Seq<char>)>>,
}

impl View for Mux {
    type V = MuxModel;

    closed spec fn view(&self) -> MuxModel {
        MuxModel {
            phase: self.phase,
            stdout_open: self.stdout_open,
            stderr_open: self.stderr_open,
            status: self.status,
            delivered: self.delivered@,
        }
    }
}

impl Mux {
    /// A multiplexer for a freshly launched child.
    pub fn new() -> (m: Mux)
        ensures
            m@ == fresh_model(),
    {
        let m = Mux {
            phase: Phase::Streaming,
            stdout_open: true,
            stderr_open: true,
            status: None,
            delivered: Ghost(Seq::empty()),
        };
        proof {
            assert(m@.delivered =~= fresh_model().delivered);
        }
        m
    }

    /// Consume one observation; the returned action is what the host must
    /// do next. The transition is exactly [`step_spec`].
    pub fn step(&mut self, ev: &MuxEvent) -> (a: MuxAction)
        ensures
            final(self)@ == step_spec(old(self)@, ev@).0,
            a == step_spec(old(self)@, ev@).1,
    {
        if matches!(self.phase, Phase::Done) {
            return MuxAction::Skip;
        }
        match ev {
            MuxEvent::StdoutLine(l) => {
                self.delivered = Ghost(self.delivered@.push((StdioType::Stdout, l@)));
                MuxAction::Emit
            },
            MuxEvent::StderrLine(l) => {
                self.delivered = Ghost(self.delivered@.push((StdioType::Stderr, l@)));
                MuxAction::Emit
            },
            MuxEvent::StdoutEof => {
                self.stdout_open = false;
                self.finish_if_drained()
            },
            MuxEvent::StderrEof => {
                self.stderr_open = false;
                self.finish_if_drained()
            },
            MuxEvent::Exit(st) => {
                if self.status.is_none() {
                    self.phase = Phase::Draining;
                    self.status = Some(*st);
                    self.finish_if_drained()
                } else {
                    MuxAction::Skip
                }
            },
            MuxEvent::Abort => {
                self.phase = Phase::Done;
                MuxAction::Close
            },
        }
    }

    /// The exec side of [`finish_if_drained`].
    fn finish_if_drained(&mut self) -> (a: MuxAction)
        ensures
            final(self)@ == finish_if_drained(old(self)@).0,
            a == finish_if_drained(old(self)@).1,
    {
        if matches!(self.phase, Phase::Draining) && !self.stdout_open && !self.stderr_open {
            self.phase = Phase::Done;
            MuxAction::Close
        } else {
            MuxAction::Skip
        }
    }

    /// The termination observed so far, if any.
    pub fn status(&self) -> (r: Option<XStatus>)
        ensures
            r == self@.status,
    {
        self.status
    }

    /// Whether the run has finished (descriptors ordered closed).
    pub fn is_done(&self) -> (r: bool)
        ensures
            r == (self@.phase is Done),
    {
        matches!(self.phase, Phase::Done)
    }
}

/// The state after a whole event sequence has been consumed.
pub open spec fn run_model(m: MuxModel, evs: Seq<EvModel>) -> MuxModel
    decreases evs.len(),
{
    if evs.len() == 0 {
        m
    } else {
        run_model(step_spec(m, evs[0]).0, evs.drop_first())
    }
}

/// The actions a whole event sequence draws, in order.
pub open spec fn run_actions(m: MuxModel, evs: Seq<EvModel>) -> Seq<MuxAction>
    decreases evs.len(),
{
    if evs.len() == 0 {
        Seq::empty()
    } else {
        seq![step_spec(m, evs[0]).1] + run_actions(step_spec(m, evs[0]).0, evs.drop_first())
    }
}

/// How many close orders a sequence of actions holds.
pub open spec fn count_closes(acts: Seq<MuxAction>) -> nat
    decreases acts.len(),
{
    if acts.len() == 0 {
        0nat
    } else {
        (if acts[0] is Close {
            1nat
        } else {
            0nat
        }) + count_closes(acts.drop_first())
    }
}

/// The lines of the events of one stream, in arrival order.
pub open spec fn lines_of(evs: Seq<EvModel>, t: StdioType) -> Seq<Seq<char>>
    decreases evs.len(),
{
    if evs.len() == 0 {
        Seq::empty()
    } else {
        (match evs[0] {
            EvModel::OutLine(l) => if t is Stdout {
                seq![l]
            } else {
                Seq::empty()
            },
            EvModel::ErrLine(l) => if t is Stderr {
                seq![l]
            } else {
                Seq::empty()
            },
            _ => Seq::empty(),
        }) + lines_of(evs.drop_first(), t)
    }
}

/// The delivered lines of one stream, in delivery order.
pub open spec fn delivered_of(d: Seq<(StdioType, Seq<char>)>, t: StdioType) -> Seq<Seq<char>>
    decreases d.len(),
{
    if d.len() == 0 {
        Seq::empty()
    } else {
        delivered_of(d.drop_last(), t) + (if d.last().0 == t {
            seq![d.last().1]
        } else {
            Seq::empty()
        })
    }
}

/// A trace during which every event finds the machine still live (not yet
/// `Done`): the shape of every normal run, where lines, ends of stream
/// and the exit observation all arrive before the close.
pub open spec fn live_trace(m: MuxModel, evs: Seq<EvModel>) -> bool
    decreases evs.len(),
{
    evs.len() == 0 || (!(m.phase is Done) && live_trace(step_spec(m, evs[0]).0, evs.drop_first()))
}

/// The descriptors are closed exactly once per run: over any event
/// sequence whatsoever — normal exit, signal death, or an abort after a
/// handler or read failure — a machine that is not yet finished issues
/// the close order exactly once if the trace finishes it and never
/// otherwise, and a finished machine never issues it again.
pub proof fn lemma_close_exactly_once(m: MuxModel, evs: Seq<EvModel>)
    ensures
        m.phase is Done ==> run_model(m, evs).phase is Done,
        count_closes(run_actions(m, evs)) == if !(m.phase is Done) && run_model(m, evs).phase is Done {
            1nat
        } else {
            0nat
        },
    decreases evs.len(),
{
    if evs.len() == 0 {
        assert(count_closes(Seq::<MuxAction>::empty()) == 0nat);
    } else {
        let m1 = step_spec(m, evs[0]).0;
        let a = step_spec(m, evs[0]).1;
        let rest = evs.drop_first();
        lemma_close_exactly_once(m1, rest);
        let acts = run_actions(m, evs);
        assert(acts.drop_first() =~= run_actions(m1, rest));
        assert(acts[0] == a);
        assert((a is Close) == (!(m.phase is Done) && m1.phase is Done));
        assert(!(m.phase is Done) && !(m1.phase is Done) ==> !(a is Close));
    }
}

/// Nothing is lost and nothing is reordered: over any trace of a live
/// run, the lines delivered for a stream are exactly the lines its events
/// carried, appended in arrival order to what had been delivered before —
/// so every line a command wrote to one stream is delivered once, content
/// intact, in original order. Because a live trace may carry line events
/// after the exit observation (the draining phase), output buffered
/// before the exit notification is covered too: it is delivered, not lost
/// to the exit race.
pub proof fn lemma_streams_delivered(m: MuxModel, evs: Seq<EvModel>, t: StdioType)
    requires
        live_trace(m, evs),
    ensures
        delivered_of(run_model(m, evs).delivered, t) == delivered_of(m.delivered, t) + lines_of(
            evs,
            t,
        ),
    decreases evs.len(),
{
    if evs.len() == 0 {
        assert(delivered_of(m.delivered, t) + lines_of(evs, t) =~= delivered_of(m.delivered, t));
    } else {
        let m1 = step_spec(m, evs[0]).0;
        let rest = evs.drop_first();
        lemma_streams_delivered(m1, rest, t);
        match evs[0] {
            EvModel::OutLine(l) => {
                assert(m1.delivered == m.delivered.push((StdioType::Stdout, l)));
                lemma_delivered_of_push(m.delivered, (StdioType::Stdout, l), t);
            },
            EvModel::ErrLine(l) => {
                assert(m1.delivered == m.delivered.push((StdioType::Stderr, l)));
                lemma_delivered_of_push(m.delivered, (StdioType::Stderr, l), t);
            },
            _ => {
                assert(m1.delivered == m.delivered);
            },
        }
        assert(delivered_of(run_model(m, evs).delivered, t) =~= delivered_of(m.delivered, t)
            + lines_of(evs, t));
    }
}

/// A run from the fresh state delivers, for each stream, exactly the
/// lines its events carried: for a command that writes N lines to one
/// stream, exactly N events of that stream are delivered, content
/// preserved, in original write order.
pub proof fn lemma_run_delivers_exactly(evs: Seq<EvModel>, t: StdioType)
    requires
        live_trace(fresh_model(), evs),
    ensures
        delivered_of(run_model(fresh_model(), evs).delivered, t) == lines_of(evs, t),
{
    lemma_streams_delivered(fresh_model(), evs, t);
    assert(delivered_of(fresh_model().delivered, t) + lines_of(evs, t) =~= lines_of(evs, t));
}

/// A termination outcome is recorded at most once: once observed, no
/// later event changes it.
pub proof fn lemma_status_stable(m: MuxModel, evs: Seq<EvModel>)
    requires
        m.status is Some,
    ensures
        run_model(m, evs).status == m.status,
    decreases evs.len(),
{
    if evs.len() > 0 {
        lemma_status_stable(step_spec(m, evs[0]).0, evs.drop_first());
    }
}

/// A finished machine is inert: after the close, no event changes
/// anything and nothing further is delivered.
pub proof fn lemma_done_is_final(m: MuxModel, evs: Seq<EvModel>)
    requires
        m.phase is Done,
    ensures
        run_model(m, evs) == m,
    decreases evs.len(),
{
    if evs.len() > 0 {
        lemma_done_is_final(step_spec(m, evs[0]).0, evs.drop_first());
    }
}

/// Appending one tagged line to the delivery record appends its line to
/// the projection of its stream and leaves the other stream's projection
/// unchanged.
proof fn lemma_delivered_of_push(
    d: Seq<(StdioType, Seq<char>)>,
    x: (StdioType, Seq<char>),
    t: StdioType,
)
    ensures
        delivered_of(d.push(x), t) == delivered_of(d, t) + (if x.0 == t {
            seq![x.1]
        } else {
            Seq::<Seq<char>>::empty()
        }),
{
    assert(d.push(x).drop_last() =~= d);
    assert(d.push(x).last() == x);
}

/// The documented scheduling bias of the merge: on each turn ready stdout
/// data is taken first, then ready stderr data, then an exit
/// notification, so stdout is never starved and equal readiness breaks
/// ties the same way every run.
#[derive(Clone, Copy, Debug, PartialEq, Eq, Structural)]
pub enum Branch {
    ReadStdout,
    ReadStderr,
    CheckExit,
}

/// Pick the branch the merge serves next, by the documented bias.
pub fn biased_choice(stdout_ready: bool, stderr_ready: bool, exit_ready: bool) -> (r: Option<
    Branch,
>)
    ensures
        r == if stdout_ready {
            Some(Branch::ReadStdout)
        } else if stderr_ready {
            Some(Branch::ReadStderr)
        } else if exit_ready {
            Some(Branch::CheckExit)
        } else {
            None::<Branch>
        },
{
    if stdout_ready {
        Some(Branch::ReadStdout)
    } else if stderr_ready {
        Some(Branch::ReadStderr)
    } else if exit_ready {
        Some(Branch::CheckExit)
    } else {
        None
    }
}

} // verus!
