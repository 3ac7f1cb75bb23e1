//! The process supervisor: sole owner of the lifecycle state and of the
//! handle of the supervised child process.
//!
//! Launching, signalling and killing the child are outside work; the caller
//! performs them and reports the outcome through `launch_completed`,
//! `stop_requested` and `stop_completed`. Every decision — whether to launch,
//! which handle to signal, which state follows — is taken here, against the
//! transition function `sup_next`.

use vstd::prelude::*;
use crate::state::SubState;

verus! {

/// An event that drives the lifecycle state machine.
#[derive(Debug, Clone, Copy, PartialEq, Eq, Structural)]
pub enum LifecycleEvent {
    /// A start command arrived.
    StartRequested,
    /// The launch attempt produced a live process.
    LaunchSucceeded,
    /// The launch attempt failed; the state stays at Starting.
    LaunchFailed,
    /// A stop command arrived.
    StopRequested,
    /// The process has been signalled (gracefully or by force).
    StopCompleted,
}

/// The mathematical model of a supervisor: its lifecycle state, and whether
/// it holds a handle to a live process.
#[derive(PartialEq, Eq, Structural)]
pub struct SupModel {
    pub state: SubState,
    pub has_child: bool,
}

/// A handle is held exactly while the process is Running.
pub open spec fn sup_wf(m: SupModel) -> bool {
    m.has_child <==> m.state == SubState::Running
}

/// One edge of the lifecycle cycle
/// Stopped -> Starting -> Running -> Stopping -> Stopped.
pub open spec fn lifecycle_edge(pre: SubState, post: SubState) -> bool {
    ||| (pre == SubState::Stopped && post == SubState::Starting)
    ||| (pre == SubState::Starting && post == SubState::Running)
    ||| (pre == SubState::Running && post == SubState::Stopping)
    ||| (pre == SubState::Stopping && post == SubState::Stopped)
}

/// What one step may do: stay put, or take one lifecycle edge.
pub open spec fn lifecycle_step(pre: SubState, post: SubState) -> bool {
    post == pre || lifecycle_edge(pre, post)
}

/// The transition function of the supervisor. An event that does not apply
/// in the current state leaves the model unchanged; a failed launch leaves
/// the state stuck at Starting.
pub open spec fn sup_next(m: SupModel, e: LifecycleEvent) -> SupModel {
    match e {
        LifecycleEvent::StartRequested => if m.state == SubState::Stopped {
            SupModel { state: SubState::Starting, has_child: false }
        } else {
            m
        },
        LifecycleEvent::LaunchSucceeded => if m.state == SubState::Starting {
            SupModel { state: SubState::Running, has_child: true }
        } else {
            m
        },
        LifecycleEvent::LaunchFailed => m,
        LifecycleEvent::StopRequested => if m.state == SubState::Running {
            SupModel { state: SubState::Stopping, has_child: false }
        } else {
            m
        },
        LifecycleEvent::StopCompleted => if m.state == SubState::Stopping {
            SupModel { state: SubState::Stopped, has_child: m.has_child }
        } else {
            m
        },
    }
}

/// Whether handling `e` in model `m` launches a new process.
pub open spec fn requests_launch(m: SupModel, e: LifecycleEvent) -> bool {
    e == LifecycleEvent::StartRequested && m.state == SubState::Stopped
}

/// The model after a whole sequence of events.
pub open spec fn sup_run(m: SupModel, es: Seq<LifecycleEvent>) -> SupModel
    decreases es.len(),
{
    if es.len() == 0 {
        m
    } else {
        sup_run(sup_next(m, es[0]), es.skip(1))
    }
}

/// How many launches a sequence of events requests.
pub open spec fn launch_count(m: SupModel, es: Seq<LifecycleEvent>) -> nat
    decreases es.len(),
{
    if es.len() == 0 {
        0
    } else {
        (if requests_launch(m, es[0]) { 1nat } else { 0nat })
            + launch_count(sup_next(m, es[0]), es.skip(1))
    }
}

/// Owns the lifecycle state and the handle of the supervised process.
/// `H` is the caller's handle type; the supervisor never looks inside it.
pub struct ProcessSupervisor<H> {
    state: SubState,
    child: Option<H>,
}

impl<H> ProcessSupervisor<H> {
    /// The model this supervisor denotes.
    pub closed spec fn model(&self) -> SupModel {
        SupModel { state: self.state, has_child: self.child is Some }
    }

    /// The supervisor holds a handle exactly while Running.
    pub open spec fn wf(&self) -> bool {
        sup_wf(self.model())
    }

    /// The current lifecycle state, at the specification level.
    pub open spec fn spec_state(&self) -> SubState {
        self.model().state
    }

    /// The handle held, at the specification level.
    pub closed spec fn spec_child(&self) -> Option<H> {
        self.child
    }

    /// A fresh supervisor: Stopped, holding no process.
    pub fn new() -> (r: Self)
        ensures
            r.wf(),
            r.model() == (SupModel { state: SubState::Stopped, has_child: false }),
    {
        ProcessSupervisor { state: SubState::Stopped, child: None }
    }

    /// A snapshot of the current lifecycle state.
    pub fn current_state(&self) -> (r: SubState)
        ensures
            r == self.spec_state(),
    {
        self.state
    }

    /// A start command: on Stopped, move to Starting and ask the caller to
    /// launch the process; in any other state, change nothing. The handle is
    /// never touched here.
    pub fn start_requested(&mut self) -> (launch: bool)
        requires
            old(self).wf(),
        ensures
            final(self).wf(),
            final(self).model() == sup_next(old(self).model(), LifecycleEvent::StartRequested),
            launch == requests_launch(old(self).model(), LifecycleEvent::StartRequested),
            final(self).spec_child() == old(self).spec_child(),
            lifecycle_step(old(self).spec_state(), final(self).spec_state()),
    {
        if self.state == SubState::Stopped {
            self.state = SubState::Starting;
            true
        } else {
            false
        }
    }

    /// The outcome of the launch the caller performed: on success store the
    /// handle and move to Running; on failure change nothing, so the state
    /// stays at Starting until reset from outside.
    pub fn launch_completed(&mut self, child: Option<H>)
        requires
            old(self).wf(),
            old(self).spec_state() == SubState::Starting,
        ensures
            final(self).wf(),
            final(self).model() == sup_next(
                old(self).model(),
                if child is Some { LifecycleEvent::LaunchSucceeded } else {
                    LifecycleEvent::LaunchFailed
                },
            ),
            child is Some ==> final(self).spec_child() == child && final(self).spec_state()
                == SubState::Running,
            child is None ==> *final(self) == *old(self),
            lifecycle_step(old(self).spec_state(), final(self).spec_state()),
    {
        match child {
            Some(c) => {
                self.child = Some(c);
                self.state = SubState::Running;
            },
            None => {},
        }
    }

    /// A stop command: on Running, move to Stopping and hand the caller the
    /// handle to signal — the stored handle is cleared, so no other call can
    /// reach it. In any other state, change nothing and touch no handle.
    pub fn stop_requested(&mut self) -> (h: Option<H>)
        requires
            old(self).wf(),
        ensures
            final(self).wf(),
            final(self).model() == sup_next(old(self).model(), LifecycleEvent::StopRequested),
            old(self).spec_state() == SubState::Running ==> h == old(self).spec_child()
                && h is Some && final(self).spec_state() == SubState::Stopping
                && final(self).spec_child() is None,
            old(self).spec_state() != SubState::Running ==> h is None && *final(self) == *old(self),
            lifecycle_step(old(self).spec_state(), final(self).spec_state()),
    {
        if self.state == SubState::Running {
            self.state = SubState::Stopping;
            self.child.take()
        } else {
            None
        }
    }

    /// The process has been signalled: the stop is complete, move to Stopped.
    pub fn stop_completed(&mut self)
        requires
            old(self).wf(),
            old(self).spec_state() == SubState::Stopping,
        ensures
            final(self).wf(),
            final(self).spec_state() == SubState::Stopped,
            final(self).spec_child() is None,
            final(self).model() == sup_next(old(self).model(), LifecycleEvent::StopCompleted),
            lifecycle_step(old(self).spec_state(), final(self).spec_state()),
    {
        self.state = SubState::Stopped;
    }
}

/// Every event takes the state along a lifecycle edge or leaves it in place,
/// and preserves well-formedness.
pub proof fn lemma_next_is_step(m: SupModel, e: LifecycleEvent)
    ensures
        lifecycle_step(m.state, sup_next(m, e).state),
        sup_wf(m) ==> sup_wf(sup_next(m, e)),
{
}

/// Running a sequence and then one more event is one step past the sequence.
pub proof fn lemma_run_snoc(m: SupModel, es: Seq<LifecycleEvent>, e: LifecycleEvent)
    ensures
        sup_run(m, es.push(e)) == sup_next(sup_run(m, es), e),
    decreases es.len(),
{
    reveal_with_fuel(sup_run, 3);
    if es.len() == 0 {
        assert(es.push(e)[0] == e);
        assert(es.push(e).skip(1) =~= Seq::<LifecycleEvent>::empty());
    } else {
        assert(es.push(e).skip(1) =~= es.skip(1).push(e));
        lemma_run_snoc(sup_next(m, es[0]), es.skip(1), e);
    }
}

/// Along any sequence of events, every adjacent pair of states the model
/// passes through is a lifecycle step: the state only ever moves along the
/// cycle Stopped -> Starting -> Running -> Stopping -> Stopped.
pub proof fn lemma_run_follows_edges(m: SupModel, es: Seq<LifecycleEvent>, i: int)
    requires
        0 <= i < es.len(),
    ensures
        lifecycle_step(
            sup_run(m, es.take(i)).state,
            sup_run(m, es.take(i + 1)).state,
        ),
{
    assert(es.take(i + 1) =~= es.take(i).push(es[i]));
    lemma_run_snoc(m, es.take(i), es[i]);
    lemma_next_is_step(sup_run(m, es.take(i)), es[i]);
}

/// Well-formedness holds along any sequence of events.
pub proof fn lemma_run_preserves_wf(m: SupModel, es: Seq<LifecycleEvent>)
    requires
        sup_wf(m),
    ensures
        sup_wf(sup_run(m, es)),
    decreases es.len(),
{
    if es.len() > 0 {
        lemma_next_is_step(m, es[0]);
        lemma_run_preserves_wf(sup_next(m, es[0]), es.skip(1));
    }
}

/// Start is idempotent off Stopped: while the supervisor is Starting,
/// Running or Stopping, a start request — and a second one right after —
/// changes nothing and launches nothing.
pub proof fn lemma_start_idempotent(m: SupModel)
    requires
        m.state != SubState::Stopped,
    ensures
        sup_next(m, LifecycleEvent::StartRequested) == m,
        launch_count(m, seq![LifecycleEvent::StartRequested, LifecycleEvent::StartRequested])
            == 0,
{
    reveal_with_fuel(launch_count, 3);
    let es = seq![LifecycleEvent::StartRequested, LifecycleEvent::StartRequested];
    assert(es[0] == LifecycleEvent::StartRequested);
    assert(es.skip(1) =~= seq![LifecycleEvent::StartRequested]);
    assert(es.skip(1)[0] == LifecycleEvent::StartRequested);
    assert(es.skip(1).skip(1) =~= Seq::<LifecycleEvent>::empty());
}

/// A stop request on a Stopped supervisor is a no-op.
pub proof fn lemma_stop_noop_when_stopped(m: SupModel)
    requires
        m.state == SubState::Stopped,
    ensures
        sup_next(m, LifecycleEvent::StopRequested) == m,
{
}

/// Restart on a Stopped supervisor is exactly one start: the stop phase
/// changes nothing, and the pair of requests asks for exactly one launch.
pub proof fn lemma_restart_from_stopped(m: SupModel)
    requires
        m.state == SubState::Stopped,
    ensures
        sup_run(m, seq![LifecycleEvent::StopRequested, LifecycleEvent::StartRequested])
            == sup_next(m, LifecycleEvent::StartRequested),
        launch_count(m, seq![LifecycleEvent::StopRequested, LifecycleEvent::StartRequested])
            == 1,
{
    reveal_with_fuel(sup_run, 3);
    reveal_with_fuel(launch_count, 3);
    let es = seq![LifecycleEvent::StopRequested, LifecycleEvent::StartRequested];
    assert(es[0] == LifecycleEvent::StopRequested);
    assert(es.skip(1) =~= seq![LifecycleEvent::StartRequested]);
    assert(es.skip(1)[0] == LifecycleEvent::StartRequested);
    assert(es.skip(1).skip(1) =~= Seq::<LifecycleEvent>::empty());
}

} // verus!
