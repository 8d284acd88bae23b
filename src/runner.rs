//! The recomputation worker's state machine.
//!
//! The worker thread itself lives outside the library: it keeps a
//! `SymbolicatorRunner` behind a lock, asks it for the next step each time it
//! wakes, and performs that step. Every decision is taken here.

use crate::external::uri_file_path;
use vstd::prelude::*;

verus! {

/// What the worker has been asked to do next.
#[derive(Debug, Clone, Copy, PartialEq, Eq, Structural)]
pub enum RunnerState {
    /// A recomputation pass is pending.
    Run,
    /// No pending work.
    Wait,
    /// The worker must stop.
    Quit,
}

/// What the worker loop does after consulting the state.
#[derive(Debug, Clone, Copy, PartialEq, Eq, Structural)]
pub enum WorkerStep {
    /// Leave the loop for good.
    Exit,
    /// Run one recomputation pass, then ask again.
    Recompute,
    /// Block until signalled, then ask again.
    Sleep,
}

/// State after a trigger: a pending pass, unless the worker has quit or
/// symbolication is disabled.
pub open spec fn triggered(s: RunnerState, active: bool) -> RunnerState {
    if s == RunnerState::Quit || !active {
        s
    } else {
        RunnerState::Run
    }
}

/// State after `n` triggers in a row.
pub open spec fn triggered_n(s: RunnerState, active: bool, n: nat) -> RunnerState
    decreases n,
{
    if n == 0 {
        s
    } else {
        triggered(triggered_n(s, active, (n - 1) as nat), active)
    }
}

/// The step the worker takes from a state, and the state it leaves behind.
/// A pending pass is claimed (the state goes back to `Wait`) before it starts.
pub open spec fn stepped(s: RunnerState) -> (RunnerState, WorkerStep) {
    match s {
        RunnerState::Quit => (RunnerState::Quit, WorkerStep::Exit),
        RunnerState::Run => (RunnerState::Wait, WorkerStep::Recompute),
        RunnerState::Wait => (RunnerState::Wait, WorkerStep::Sleep),
    }
}

/// Any burst of one or more triggers, arriving while the worker waits or
/// while a pass is running, leaves exactly one pass pending: the worker's next
/// step recomputes once, and the step after it sleeps.
pub proof fn lemma_triggers_coalesce(s: RunnerState, n: nat)
    requires
        s != RunnerState::Quit,
        n >= 1,
    ensures
        triggered_n(s, true, n) == RunnerState::Run,
        stepped(triggered_n(s, true, n)) == (RunnerState::Wait, WorkerStep::Recompute),
        stepped(stepped(triggered_n(s, true, n)).0).1 == WorkerStep::Sleep,
    decreases n,
{
    if n > 1 {
        lemma_triggers_coalesce(s, (n - 1) as nat);
    } else {
        assert(triggered_n(s, true, 0) == s);
    }
}

/// For every runner, a burst of one or more triggers amounts to a single
/// trigger: the pending pass is one slot, not a counter.
pub proof fn lemma_burst_is_one_trigger(s: RunnerState, active: bool, n: nat)
    requires
        n >= 1,
    ensures
        triggered_n(s, active, n) == triggered(s, active),
    decreases n,
{
    if n > 1 {
        lemma_burst_is_one_trigger(s, active, (n - 1) as nat);
    } else {
        assert(triggered_n(s, active, 0) == s);
    }
}

/// Once the worker has been told to quit, no number of triggers starts
/// another pass: its next step is to exit.
pub proof fn lemma_quit_is_final(active: bool, n: nat)
    ensures
        triggered_n(RunnerState::Quit, active, n) == RunnerState::Quit,
        stepped(triggered_n(RunnerState::Quit, active, n)) == (RunnerState::Quit, WorkerStep::Exit),
    decreases n,
{
    if n > 0 {
        lemma_quit_is_final(active, (n - 1) as nat);
    }
}

/// The idle runner never schedules a pass, however often it is triggered.
pub proof fn lemma_idle_never_runs(s: RunnerState, n: nat)
    ensures
        triggered_n(s, false, n) == s,
    decreases n,
{
    if n > 0 {
        lemma_idle_never_runs(s, (n - 1) as nat);
    }
}

/// Scheduling state of one project's recomputation worker.
pub struct SymbolicatorRunner {
    state: RunnerState,
    root: Option<String>,
}

impl SymbolicatorRunner {
    pub closed spec fn state_spec(&self) -> RunnerState {
        self.state
    }

    /// The project root this runner recomputes, `None` for the idle runner.
    pub closed spec fn root_spec(&self) -> Option<Seq<char>> {
        match self.root {
            Some(r) => Some(r@),
            None => None,
        }
    }

    pub open spec fn is_active(&self) -> bool {
        self.root_spec() is Some
    }

    /// A runner that never symbolicates: triggers leave it as it is.
    pub fn idle() -> (r: Self)
        ensures
            r.state_spec() == RunnerState::Wait,
            r.root_spec() is None,
    {
        SymbolicatorRunner { state: RunnerState::Wait, root: None }
    }

    /// A runner for the package whose root directory `uri` names, with no
    /// pending work; `None` if `uri` names no local directory.
    pub fn new(uri: &url::Url) -> (r: Option<Self>)
        ensures
            r matches Some(s) ==> s.state_spec() == RunnerState::Wait && s.is_active(),
    {
        match uri_file_path(uri) {
            Some(root) => Some(SymbolicatorRunner::for_root(root)),
            None => None,
        }
    }

    /// A runner for the project rooted at `root`, with no pending work.
    pub fn for_root(root: String) -> (r: Self)
        ensures
            r.state_spec() == RunnerState::Wait,
            r.root_spec() == Some(root@),
    {
        SymbolicatorRunner { state: RunnerState::Wait, root: Some(root) }
    }

    pub fn state(&self) -> (r: RunnerState)
        ensures
            r == self.state_spec(),
    {
        self.state
    }

    pub fn root(&self) -> (r: Option<&String>)
        ensures
            match r {
                Some(s) => self.root_spec() == Some(s@),
                None => self.root_spec() is None,
            },
    {
        match &self.root {
            Some(s) => Some(s),
            None => None,
        }
    }

    /// Schedules a recomputation pass. Any number of calls before the worker
    /// picks the work up amount to one pass.
    pub fn run(&mut self)
        ensures
            final(self).state_spec() == triggered(old(self).state_spec(), old(self).is_active()),
            final(self).root_spec() == old(self).root_spec(),
    {
        if self.state != RunnerState::Quit && self.root.is_some() {
            self.state = RunnerState::Run;
        }
    }

    /// Asks the worker to stop; no pass starts after this. Idempotent.
    pub fn quit(&mut self)
        ensures
            final(self).state_spec() == RunnerState::Quit,
            final(self).root_spec() == old(self).root_spec(),
    {
        self.state = RunnerState::Quit;
    }

    /// Decides the worker's next step, claiming a pending pass if there is one.
    pub fn next_step(&mut self) -> (r: WorkerStep)
        ensures
            (final(self).state_spec(), r) == stepped(old(self).state_spec()),
            final(self).root_spec() == old(self).root_spec(),
    {
        match self.state {
            RunnerState::Quit => WorkerStep::Exit,
            RunnerState::Run => {
                self.state = RunnerState::Wait;
                WorkerStep::Recompute
            },
            RunnerState::Wait => WorkerStep::Sleep,
        }
    }
}

} // verus!
