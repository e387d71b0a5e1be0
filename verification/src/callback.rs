//! The script of the worker that calls back asynchronously: it announces
//! itself, attaches to the host runtime, and then invokes the callback a
//! fixed number of times, pausing after each invocation.

use vstd::prelude::*;

verus! {

/// How often the worker invokes the callback.
pub const CALLBACK_ROUNDS: u32 = 6;

/// How long the worker pauses after each invocation, in milliseconds.
pub const CALLBACK_PAUSE_MS: u64 = 2000;

/// One step of the worker.
#[derive(Clone, Copy, Debug, PartialEq, Eq, Structural)]
pub enum WorkerAction {
    /// Tell the caller, who waits for this and for nothing else, that the
    /// worker has started.
    Announce,
    /// Attach the worker's thread to the host runtime.
    Attach,
    /// Invoke the callback.
    Invoke,
    /// Pause for so many milliseconds.
    Pause(u64),
    /// Nothing is left to do.
    Finish,
}

/// The number of steps before the worker finishes.
pub open spec fn script_len() -> nat {
    2 + 2 * (CALLBACK_ROUNDS as nat)
}

/// What the worker does at step `step`, counted from 0.
pub open spec fn script_action(step: nat) -> WorkerAction {
    if step == 0 {
        WorkerAction::Announce
    } else if step == 1 {
        WorkerAction::Attach
    } else if step >= script_len() {
        WorkerAction::Finish
    } else if step % 2 == 0 {
        WorkerAction::Invoke
    } else {
        WorkerAction::Pause(CALLBACK_PAUSE_MS)
    }
}

/// The number of invocations among the first `steps` steps.
pub open spec fn invocations_before(steps: nat) -> nat
    decreases steps,
{
    if steps == 0 {
        0
    } else if script_action((steps - 1) as nat) == WorkerAction::Invoke {
        invocations_before((steps - 1) as nat) + 1
    } else {
        invocations_before((steps - 1) as nat)
    }
}

/// The worker announces itself before anything else, attaches before it
/// invokes, pauses for the fixed time after each invocation, and finishes at
/// the end of the script and ever after.
pub proof fn lemma_script_order(step: nat)
    ensures
        script_action(0) == WorkerAction::Announce,
        script_action(1) == WorkerAction::Attach,
        script_action(step) == WorkerAction::Announce <==> step == 0,
        script_action(step) == WorkerAction::Attach <==> step == 1,
        script_action(step) == WorkerAction::Invoke ==> script_action(step + 1)
            == WorkerAction::Pause(CALLBACK_PAUSE_MS),
        script_action(step) == WorkerAction::Finish <==> step >= script_len(),
{
}

/// The number of invocations among the first `steps` steps: one for every
/// two steps after the first two, and no more than the fixed number.
pub proof fn lemma_invocations(steps: nat)
    ensures
        steps <= 2 ==> invocations_before(steps) == 0,
        2 <= steps <= script_len() ==> invocations_before(steps) == (steps - 1) / 2,
        steps >= script_len() ==> invocations_before(steps) == CALLBACK_ROUNDS,
    decreases steps,
{
    if steps > 0 {
        lemma_invocations((steps - 1) as nat);
    }
}

/// A worker, by the number of steps it has taken.
pub struct Worker {
    step: u32,
}

impl Worker {
    /// The number of steps taken, which stays at the length of the script
    /// once the worker has finished.
    pub closed spec fn steps(&self) -> nat {
        if self.step as nat <= script_len() {
            self.step as nat
        } else {
            script_len()
        }
    }

    /// A worker that has taken no step.
    pub fn new() -> (worker: Worker)
        ensures
            worker.steps() == 0,
    {
        Worker { step: 0 }
    }

    /// The number of invocations made so far.
    pub fn invocations(&self) -> (n: u32)
        ensures
            n == invocations_before(self.steps()),
            n <= CALLBACK_ROUNDS,
    {
        proof {
            lemma_invocations(self.steps());
        }
        if self.step < 2 {
            0
        } else if self.step >= 2 + 2 * CALLBACK_ROUNDS {
            CALLBACK_ROUNDS
        } else {
            (self.step - 1) / 2
        }
    }

    /// The next step of the worker. The worker moves on by one step, unless
    /// it has finished.
    pub fn next(&mut self) -> (action: WorkerAction)
        ensures
            action == script_action(old(self).steps()),
            final(self).steps() == if old(self).steps() < script_len() {
                old(self).steps() + 1
            } else {
                old(self).steps()
            },
    {
        let step = self.step;
        if step >= 2 + 2 * CALLBACK_ROUNDS {
            return WorkerAction::Finish;
        }
        self.step = step + 1;
        if step == 0 {
            WorkerAction::Announce
        } else if step == 1 {
            WorkerAction::Attach
        } else if step % 2 == 0 {
            WorkerAction::Invoke
        } else {
            WorkerAction::Pause(CALLBACK_PAUSE_MS)
        }
    }
}

} // verus!
