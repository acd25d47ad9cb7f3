//! The execution coordinator: sole owner of the "currently active run"
//! slot. A newly started run is installed only together with a termination
//! request for the previous child, so at most one child is ever considered
//! active; user keys cancel the active run, request a re-run, or quit.

use vstd::prelude::*;

use crate::process_manager::ProcessExecution;

verus! {

/// What a key press asks of the program: quit (terminating the active child),
/// kill the active child and mark it cancelled, kill it and trigger a
/// re-run, or nothing.
#[derive(Debug, Clone, Copy, PartialEq, Eq)]
pub enum KeyCommand {
    Quit,
    Cancel,
    Rerun,
    Ignore,
}

/// Maps a pressed key to its command; only key presses count, never releases
/// or repeats.
pub fn decode_key(c: char, is_press: bool) -> (r: KeyCommand)
    ensures
        r == if !is_press {
            KeyCommand::Ignore
        } else if c == 'q' {
            KeyCommand::Quit
        } else if c == 'c' {
            KeyCommand::Cancel
        } else if c == 'r' {
            KeyCommand::Rerun
        } else {
            KeyCommand::Ignore
        },
{
    if !is_press {
        KeyCommand::Ignore
    } else if c == 'q' {
        KeyCommand::Quit
    } else if c == 'c' {
        KeyCommand::Cancel
    } else if c == 'r' {
        KeyCommand::Rerun
    } else {
        KeyCommand::Ignore
    }
}

/// The coordinator's whole state: the at most one run whose child has
/// neither been superseded nor discarded at shutdown.
pub struct Coordinator {
    pub active: Option<ProcessExecution>,
}

impl Coordinator {
    /// What installing a new run does: the new run takes the slot, and a
    /// termination request is issued for the previous child if there was
    /// one.
    pub open spec fn spec_install(self, e: ProcessExecution) -> (Coordinator, Option<u64>) {
        (Coordinator { active: Some(e) }, match self.active {
            Some(prev) => Some(prev.pid),
            None => None,
        })
    }

    /// Before the first run is installed, nothing is active.
    pub fn new() -> (r: Coordinator)
        ensures
            r.active is None,
    {
        Coordinator { active: None }
    }

    /// Installs a newly started run, returning the process id the caller
    /// must issue a termination request for before anything else: the
    /// previous child, if one was active. The request is returned together
    /// with the installation, so no moment exists at which two children
    /// occupy the slot.
    pub fn install(&mut self, e: ProcessExecution) -> (kill: Option<u64>)
        ensures
            (*final(self), kill) == old(self).spec_install(e),
    {
        let kill = match &self.active {
            Some(prev) => Some(prev.pid),
            None => None,
        };
        self.active = Some(e);
        kill
    }

    /// A user-initiated cancellation: if a child is active and still
    /// running, ask for its termination and mark the run cancelled; a run
    /// whose child already exited is left untouched, so a terminal status
    /// never changes.
    pub fn cancel_active(&mut self, still_running: bool) -> (kill: Option<u64>)
        ensures
            old(self).active is None ==> *final(self) == *old(self) && kill is None,
            old(self).active matches Some(prev) ==> if still_running {
                kill == Some(prev.pid) && (final(self).active matches Some(cur) && cur.pid
                    == prev.pid && cur.cancelled && cur.output@ == prev.output@ && cur.trigger
                    == prev.trigger)
            } else {
                kill is None && *final(self) == *old(self)
            },
    {
        match &mut self.active {
            None => None,
            Some(run) => {
                if still_running {
                    let pid = run.pid;
                    run.mark_cancelled();
                    Some(pid)
                } else {
                    None
                }
            },
        }
    }

    /// Shutdown: empties the slot and returns the termination request owed
    /// for a still-running child.
    pub fn shutdown(&mut self, still_running: bool) -> (kill: Option<u64>)
        ensures
            final(self).active is None,
            kill == match old(self).active {
                Some(prev) => if still_running {
                    Some(prev.pid)
                } else {
                    None::<u64>
                },
                None => None::<u64>,
            },
    {
        let kill = match &self.active {
            Some(prev) => if still_running {
                Some(prev.pid)
            } else {
                None
            },
            None => None,
        };
        self.active = None;
        kill
    }
}

/// Supersession law: installing a second run while a first is active issues
/// a termination request for the first's child in the very step that fills
/// the slot with the second, and the second enters the slot with whatever
/// its buffer held at installation; started fresh, that is nothing.
pub proof fn lemma_supersession(c: Coordinator, prev: ProcessExecution, e: ProcessExecution)
    requires
        c.active == Some(prev),
        e.output@ == Seq::<u8>::empty(),
    ensures
        c.spec_install(e).1 == Some(prev.pid),
        c.spec_install(e).0.active == Some(e),
        c.spec_install(e).0.active matches Some(cur) && cur.output@ == Seq::<u8>::empty(),
{
}

} // verus!
