//! The trigger arbiter: the single serialization point between the two
//! trigger sources (debounced filesystem events, manual re-run requests) and
//! the supervisor. A new run is launched only once the previous run has been
//! fully drained: both of its capture workers must have reported
//! end-of-stream. Requests arriving earlier are deferred, so the output of
//! two runs can never interleave.

use vstd::prelude::*;

use crate::process_manager::EndType;
use crate::process_manager::Trigger;

verus! {

/// What the arbiter observes: an end-of-stream signal from one of the
/// current run's capture workers, or a request for a new run from either
/// trigger source.
#[derive(Debug, PartialEq, Eq)]
pub enum ArbiterEvent {
    End(EndType),
    Request(Trigger),
}

/// What the arbiter decides: launch a new run with the given trigger, keep
/// the request for later because the current run still owes end signals,
/// note an awaited end signal, or report a protocol fault (the same stream
/// signalled its end twice, an invariant violation the program must treat as
/// fatal).
#[derive(Debug, PartialEq, Eq)]
pub enum ArbiterAction {
    Launch(Trigger),
    Deferred,
    Noted,
    Fault,
}

/// The arbiter's whole state: which end signals the run launched last is
/// still expected to deliver.
#[derive(Debug, Clone, Copy, PartialEq, Eq)]
pub struct Arbiter {
    pub awaiting_stdout: bool,
    pub awaiting_stderr: bool,
}

impl Arbiter {
    /// The previous run is fully drained: both streams have reported their
    /// end.
    pub open spec fn drained(self) -> bool {
        !self.awaiting_stdout && !self.awaiting_stderr
    }

    /// The transition rule: the state after an event, and the action taken.
    pub open spec fn spec_step(self, ev: ArbiterEvent) -> (Arbiter, ArbiterAction) {
        match ev {
            ArbiterEvent::End(EndType::Stdout) => {
                if self.awaiting_stdout {
                    (Arbiter { awaiting_stdout: false, ..self }, ArbiterAction::Noted)
                } else {
                    (self, ArbiterAction::Fault)
                }
            },
            ArbiterEvent::End(EndType::Stderr) => {
                if self.awaiting_stderr {
                    (Arbiter { awaiting_stderr: false, ..self }, ArbiterAction::Noted)
                } else {
                    (self, ArbiterAction::Fault)
                }
            },
            ArbiterEvent::Request(tr) => {
                if self.drained() {
                    (Arbiter { awaiting_stdout: true, awaiting_stderr: true },
                    ArbiterAction::Launch(tr))
                } else {
                    (self, ArbiterAction::Deferred)
                }
            },
        }
    }

    /// The state just after a run has been launched: both of its end signals
    /// are still owed.
    pub fn new_run_started() -> (r: Arbiter)
        ensures
            r.awaiting_stdout && r.awaiting_stderr,
    {
        Arbiter { awaiting_stdout: true, awaiting_stderr: true }
    }

    /// Feeds one event to the arbiter. A `Launch` is returned only from a
    /// fully drained state, and launching starts owing both end signals
    /// again.
    pub fn step(&mut self, ev: ArbiterEvent) -> (act: ArbiterAction)
        ensures
            (*final(self), act) == old(self).spec_step(ev),
            act matches ArbiterAction::Launch(_) ==> old(self).drained(),
    {
        match ev {
            ArbiterEvent::End(EndType::Stdout) => {
                if self.awaiting_stdout {
                    self.awaiting_stdout = false;
                    ArbiterAction::Noted
                } else {
                    ArbiterAction::Fault
                }
            },
            ArbiterEvent::End(EndType::Stderr) => {
                if self.awaiting_stderr {
                    self.awaiting_stderr = false;
                    ArbiterAction::Noted
                } else {
                    ArbiterAction::Fault
                }
            },
            ArbiterEvent::Request(tr) => {
                if !self.awaiting_stdout && !self.awaiting_stderr {
                    self.awaiting_stdout = true;
                    self.awaiting_stderr = true;
                    ArbiterAction::Launch(tr)
                } else {
                    ArbiterAction::Deferred
                }
            },
        }
    }
}

/// The action taken at each event of a replayed run.
pub open spec fn run_actions(a: Arbiter, evs: Seq<ArbiterEvent>) -> Seq<ArbiterAction>
    decreases evs.len(),
{
    if evs.len() == 0 {
        Seq::empty()
    } else {
        seq![a.spec_step(evs[0]).1] + run_actions(a.spec_step(evs[0]).0, evs.drop_first())
    }
}

/// A replay takes one action per event.
pub proof fn lemma_run_actions_len(a: Arbiter, evs: Seq<ArbiterEvent>)
    ensures
        run_actions(a, evs).len() == evs.len(),
    decreases evs.len(),
{
    if evs.len() > 0 {
        lemma_run_actions_len(a.spec_step(evs[0]).0, evs.drop_first());
    }
}

/// While a standard-output end signal is still owed, no launch happens
/// before one arrives.
proof fn lemma_stdout_owed_blocks_launch(a: Arbiter, evs: Seq<ArbiterEvent>, p: int)
    requires
        0 <= p < evs.len(),
        run_actions(a, evs)[p] matches ArbiterAction::Launch(_),
        a.awaiting_stdout,
    ensures
        exists|k: int| 0 <= k < p && evs[k] == ArbiterEvent::End(EndType::Stdout),
    decreases evs.len(),
{
    let (a2, act) = a.spec_step(evs[0]);
    lemma_run_actions_len(a2, evs.drop_first());
    assert(run_actions(a, evs) == seq![act] + run_actions(a2, evs.drop_first()));
    if p == 0 {
        assert(false);
    } else {
        assert((seq![act] + run_actions(a2, evs.drop_first()))[p] == run_actions(a2,
            evs.drop_first())[p - 1]);
        assert(run_actions(a, evs)[p] == run_actions(a2, evs.drop_first())[p - 1]);
        if evs[0] == ArbiterEvent::End(EndType::Stdout) {
            assert(evs[0] == ArbiterEvent::End(EndType::Stdout));
        } else {
            assert(a2.awaiting_stdout);
            lemma_stdout_owed_blocks_launch(a2, evs.drop_first(), p - 1);
            let k0 = choose|k: int|
                0 <= k < p - 1 && evs.drop_first()[k] == ArbiterEvent::End(EndType::Stdout);
            assert(evs[k0 + 1] == ArbiterEvent::End(EndType::Stdout));
        }
    }
}

/// While a standard-error end signal is still owed, no launch happens before
/// one arrives.
proof fn lemma_stderr_owed_blocks_launch(a: Arbiter, evs: Seq<ArbiterEvent>, p: int)
    requires
        0 <= p < evs.len(),
        run_actions(a, evs)[p] matches ArbiterAction::Launch(_),
        a.awaiting_stderr,
    ensures
        exists|k: int| 0 <= k < p && evs[k] == ArbiterEvent::End(EndType::Stderr),
    decreases evs.len(),
{
    let (a2, act) = a.spec_step(evs[0]);
    lemma_run_actions_len(a2, evs.drop_first());
    assert(run_actions(a, evs) == seq![act] + run_actions(a2, evs.drop_first()));
    if p == 0 {
        assert(false);
    } else {
        assert((seq![act] + run_actions(a2, evs.drop_first()))[p] == run_actions(a2,
            evs.drop_first())[p - 1]);
        assert(run_actions(a, evs)[p] == run_actions(a2, evs.drop_first())[p - 1]);
        if evs[0] == ArbiterEvent::End(EndType::Stderr) {
            assert(evs[0] == ArbiterEvent::End(EndType::Stderr));
        } else {
            assert(a2.awaiting_stderr);
            lemma_stderr_owed_blocks_launch(a2, evs.drop_first(), p - 1);
            let k0 = choose|k: int|
                0 <= k < p - 1 && evs.drop_first()[k] == ArbiterEvent::End(EndType::Stderr);
            assert(evs[k0 + 1] == ArbiterEvent::End(EndType::Stderr));
        }
    }
}

/// Drain barrier law: between any two launches of a replayed run, both end
/// signals of the earlier launch's run are observed. The arbiter therefore
/// never starts a run until the previous one has fully drained.
pub proof fn lemma_drain_barrier(a: Arbiter, evs: Seq<ArbiterEvent>, i: int, j: int)
    requires
        0 <= i < j < evs.len(),
        run_actions(a, evs)[i] matches ArbiterAction::Launch(_),
        run_actions(a, evs)[j] matches ArbiterAction::Launch(_),
    ensures
        exists|k: int| i < k < j && evs[k] == ArbiterEvent::End(EndType::Stdout),
        exists|k: int| i < k < j && evs[k] == ArbiterEvent::End(EndType::Stderr),
    decreases evs.len(),
{
    let (a2, act) = a.spec_step(evs[0]);
    lemma_run_actions_len(a2, evs.drop_first());
    assert(run_actions(a, evs) == seq![act] + run_actions(a2, evs.drop_first()));
    assert((seq![act] + run_actions(a2, evs.drop_first()))[j] == run_actions(a2,
        evs.drop_first())[j - 1]);
    assert(run_actions(a, evs)[j] == run_actions(a2, evs.drop_first())[j - 1]);
    if i == 0 {
        assert(act == run_actions(a, evs)[0]);
        assert(a2.awaiting_stdout && a2.awaiting_stderr);
        lemma_stdout_owed_blocks_launch(a2, evs.drop_first(), j - 1);
        lemma_stderr_owed_blocks_launch(a2, evs.drop_first(), j - 1);
        let k1 = choose|k: int|
            0 <= k < j - 1 && evs.drop_first()[k] == ArbiterEvent::End(EndType::Stdout);
        let k2 = choose|k: int|
            0 <= k < j - 1 && evs.drop_first()[k] == ArbiterEvent::End(EndType::Stderr);
        assert(evs[k1 + 1] == ArbiterEvent::End(EndType::Stdout));
        assert(evs[k2 + 1] == ArbiterEvent::End(EndType::Stderr));
        assert(i < k1 + 1 < j && i < k2 + 1 < j);
    } else {
        assert((seq![act] + run_actions(a2, evs.drop_first()))[i] == run_actions(a2,
            evs.drop_first())[i - 1]);
        assert(run_actions(a, evs)[i] == run_actions(a2, evs.drop_first())[i - 1]);
        lemma_drain_barrier(a2, evs.drop_first(), i - 1, j - 1);
        let k1 = choose|k: int|
            i - 1 < k < j - 1 && evs.drop_first()[k] == ArbiterEvent::End(EndType::Stdout);
        let k2 = choose|k: int|
            i - 1 < k < j - 1 && evs.drop_first()[k] == ArbiterEvent::End(EndType::Stderr);
        assert(evs[k1 + 1] == ArbiterEvent::End(EndType::Stdout));
        assert(evs[k2 + 1] == ArbiterEvent::End(EndType::Stderr));
        assert(i < k1 + 1 < j && i < k2 + 1 < j);
    }
}

} // verus!
