//! The run loop: submits the configured number of batches one after the
//! other, and stops early on a failure or on cancellation.
//!
//! The loop makes the decisions; the caller connects, generates and submits
//! each batch it is asked for, and reports how that went, or that the run
//! was cancelled.

use vstd::prelude::*;

use crate::generator::GeneratorError;

verus! {

/// Why a run failed.
#[derive(Clone, Debug, PartialEq, Eq)]
pub enum Error {
    /// The connection to the control plane could not be set up.
    CreateGenerator(GeneratorError),
    /// A batch could not be generated or submitted.
    Connect(GeneratorError),
}

/// What happened since the last action.
#[derive(Clone, Debug, PartialEq, Eq)]
pub enum RunEvent {
    /// The batch asked for was generated and submitted in full.
    BatchSubmitted,
    /// The batch asked for failed.
    BatchFailed(GeneratorError),
    /// The external cancellation signal arrived.
    Cancelled,
}

/// What the run loop asks of its caller next.
#[derive(Debug, PartialEq, Eq)]
pub enum RunAction {
    /// Generate and submit the batch with this index, counting from zero.
    SubmitBatch(u64),
    /// The run is over, with this outcome.
    Halt(Result<(), Error>),
}

/// The state of a run.
#[derive(Clone, Copy, Debug, PartialEq, Eq, Structural)]
pub struct RunLoop {
    planned: u64,
    completed: u64,
    halted: bool,
}

/// The action of a run that planned `planned` batches and completed
/// `completed` of them without failure.
pub open spec fn action_after(planned: u64, completed: u64) -> RunAction {
    if completed < planned {
        RunAction::SubmitBatch(completed)
    } else {
        RunAction::Halt(Ok(()))
    }
}

impl RunLoop {
    pub closed spec fn spec_planned(&self) -> u64 {
        self.planned
    }

    pub closed spec fn spec_completed(&self) -> u64 {
        self.completed
    }

    pub closed spec fn spec_halted(&self) -> bool {
        self.halted
    }

    /// No more batches completed than planned; a run that is not over has
    /// batches left to submit.
    pub open spec fn wf(&self) -> bool {
        &&& self.spec_completed() <= self.spec_planned()
        &&& !self.spec_halted() ==> self.spec_completed() < self.spec_planned()
    }

    /// The state after `k` batches submitted without failure from the start
    /// of a run of `planned` batches.
    pub open spec fn after_successes(planned: u64, k: nat) -> RunLoop
        decreases k,
    {
        if k == 0 {
            RunLoop::spec_start(planned)
        } else {
            RunLoop::after_successes(planned, (k - 1) as nat).spec_on_submitted()
        }
    }

    /// The state at the start of a run of `planned` batches.
    pub closed spec fn spec_start(planned: u64) -> RunLoop {
        RunLoop { planned, completed: 0, halted: planned == 0 }
    }

    /// The state after the batch asked for was submitted.
    pub closed spec fn spec_on_submitted(&self) -> RunLoop {
        let completed = (self.completed + 1) as u64;
        RunLoop { planned: self.planned, completed, halted: completed >= self.planned }
    }

    /// A run of `planned` batches, and what to do first: submit batch zero,
    /// or halt with success when nothing is planned.
    pub fn new(planned: u64) -> (r: (RunLoop, RunAction))
        ensures
            r.0 == RunLoop::spec_start(planned),
            r.0.wf(),
            r.0.spec_planned() == planned,
            r.0.spec_completed() == 0,
            r.0.spec_halted() == (planned == 0),
            r.1 == action_after(planned, 0),
    {
        let run = RunLoop { planned, completed: 0, halted: planned == 0 };
        let action = if planned > 0 {
            RunAction::SubmitBatch(0)
        } else {
            RunAction::Halt(Ok(()))
        };
        (run, action)
    }

    /// How many batches were submitted in full.
    pub fn completed(&self) -> (n: u64)
        ensures
            n == self.spec_completed(),
    {
        self.completed
    }

    /// Whether the run is over.
    pub fn halted(&self) -> (b: bool)
        ensures
            b == self.spec_halted(),
    {
        self.halted
    }

    /// Takes in what happened to the batch asked for, or a cancellation, and
    /// says what to do next. A submitted batch leads to the next one, or to
    /// success after the last; a failed batch ends the run with its error; a
    /// cancellation ends it with success, with no further batch.
    pub fn on_event(&mut self, event: RunEvent) -> (a: RunAction)
        requires
            old(self).wf(),
            !old(self).spec_halted(),
        ensures
            final(self).wf(),
            final(self).spec_planned() == old(self).spec_planned(),
            event is BatchSubmitted ==> {
                &&& *final(self) == old(self).spec_on_submitted()
                &&& final(self).spec_completed() == old(self).spec_completed() + 1
                &&& final(self).spec_halted() == (final(self).spec_completed() == final(self).spec_planned())
                &&& a == action_after(final(self).spec_planned(), final(self).spec_completed())
            },
            event matches RunEvent::BatchFailed(e) ==> {
                &&& final(self).spec_halted()
                &&& final(self).spec_completed() == old(self).spec_completed()
                &&& a == RunAction::Halt(Err(Error::Connect(e)))
            },
            event is Cancelled ==> {
                &&& final(self).spec_halted()
                &&& final(self).spec_completed() == old(self).spec_completed()
                &&& a == RunAction::Halt(Ok(()))
            },
    {
        match event {
            RunEvent::BatchSubmitted => {
                self.completed = self.completed + 1;
                self.halted = self.completed >= self.planned;
                if self.completed < self.planned {
                    RunAction::SubmitBatch(self.completed)
                } else {
                    RunAction::Halt(Ok(()))
                }
            },
            RunEvent::BatchFailed(e) => {
                self.halted = true;
                RunAction::Halt(Err(Error::Connect(e)))
            },
            RunEvent::Cancelled => {
                self.halted = true;
                RunAction::Halt(Ok(()))
            },
        }
    }
}

/// Without failures or cancellation, a run of `n` batches asks for the
/// batches `0, 1, ..., n - 1`, each only after the one before it was
/// submitted, and halts with success once `n` batches are submitted: exactly
/// `n` batches, one after the other.
pub proof fn lemma_run_without_failure(n: u64, k: nat)
    requires
        k <= n,
    ensures
        RunLoop::after_successes(n, k).wf(),
        RunLoop::after_successes(n, k).spec_planned() == n,
        RunLoop::after_successes(n, k).spec_completed() == k,
        RunLoop::after_successes(n, k).spec_halted() == (k == n),
        action_after(n, k as u64) == if k < n {
            RunAction::SubmitBatch(k as u64)
        } else {
            RunAction::Halt(Ok(()))
        },
    decreases k,
{
    if k > 0 {
        lemma_run_without_failure(n, (k - 1) as nat);
    }
}

} // verus!
