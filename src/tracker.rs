//! The one process-wide record of the running backend, and what a request to
//! close the window does with it.
use vstd::prelude::*;

verus! {

/// The status with which the shell exits after a close request.
pub const EXIT_CODE: i32 = 0;

/// The identity of the backend process that this run started, if any.
///
/// `None` means that the backend has not been started yet, or that it has
/// already been handed over for termination.
pub struct BackendState {
    pub pid: Option<u32>,
}

/// One step that the shell carries out when its window is asked to close.
#[derive(Clone, Copy, Debug, PartialEq, Eq, Structural)]
pub enum ShutdownAction {
    /// Forcefully terminate the process with this identifier.
    Terminate { pid: u32 },
    /// End the shell process with this status.
    Exit { code: i32 },
}

/// The steps that a close request takes when `pid` is the tracked process:
/// terminate it if there is one, then exit unconditionally.
pub open spec fn close_plan(pid: Option<u32>) -> Seq<ShutdownAction> {
    match pid {
        Some(p) => seq![ShutdownAction::Terminate { pid: p }, ShutdownAction::Exit { code: EXIT_CODE }],
        None => seq![ShutdownAction::Exit { code: EXIT_CODE }],
    }
}

/// How many of `actions` terminate a process.
pub open spec fn terminations(actions: Seq<ShutdownAction>) -> nat
    decreases actions.len(),
{
    if actions.len() == 0 {
        0
    } else {
        terminations(actions.drop_last()) + if actions.last() is Terminate {
            1nat
        } else {
            0nat
        }
    }
}

impl BackendState {
    /// A state that tracks no process.
    pub fn new() -> (r: Self)
        ensures
            r.pid is None,
    {
        BackendState { pid: None }
    }

    /// Records the backend process that has just been started.
    pub fn track(&mut self, pid: u32)
        ensures
            final(self).pid == Some(pid),
    {
        self.pid = Some(pid);
    }

    /// The tracked process, if any.
    pub fn tracked_pid(&self) -> (r: Option<u32>)
        ensures
            r == self.pid,
    {
        self.pid
    }

    /// Handles a request to close the window: hands the tracked process over
    /// for termination, once, and always ends with an exit.
    pub fn on_close_requested(&mut self) -> (r: Vec<ShutdownAction>)
        ensures
            r@ == close_plan(old(self).pid),
            final(self).pid is None,
    {
        let mut actions: Vec<ShutdownAction> = Vec::new();
        if let Some(pid) = self.pid {
            actions.push(ShutdownAction::Terminate { pid });
        }
        actions.push(ShutdownAction::Exit { code: EXIT_CODE });
        self.pid = None;
        proof {
            assert(actions@ =~= close_plan(old(self).pid));
        }
        actions
    }
}

/// A close request terminates exactly one process when one is tracked and
/// none when no process is tracked.
pub proof fn lemma_close_terminates_tracked_once(pid: Option<u32>)
    ensures
        terminations(close_plan(pid)) == if pid is Some {
            1nat
        } else {
            0nat
        },
{
    let plan = close_plan(pid);
    let exit_only = seq![ShutdownAction::Exit { code: EXIT_CODE }];
    assert(exit_only.drop_last() =~= Seq::<ShutdownAction>::empty());
    if let Some(p) = pid {
        assert(plan.drop_last() =~= seq![ShutdownAction::Terminate { pid: p }]);
        assert(plan.drop_last().drop_last() =~= Seq::<ShutdownAction>::empty());
    }
    reveal_with_fuel(terminations, 3);
}

/// Two close requests in a row on the same state terminate the tracked
/// process once in all: the second finds nothing left to terminate.
pub proof fn lemma_second_close_terminates_nothing(pid: Option<u32>)
    ensures
        terminations(close_plan(pid) + close_plan(None)) == terminations(close_plan(pid)),
{
    let first = close_plan(pid);
    let second = close_plan(None);
    let both = first + second;
    assert(both.drop_last() =~= first);
    reveal_with_fuel(terminations, 2);
}

} // verus!
