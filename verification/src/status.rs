//! Status classification: what one poll of the child tells the display
//! layer. A run is `Running` until its child is seen to have exited; an exit
//! code of zero means `Succeeded` and any other code `Failed`; a run whose
//! cancelled flag is set is `Cancelled` whatever the exit code says; a run
//! that never had a child because the spawn failed is `SpawnFailed`; a poll
//! whose non-blocking wait itself failed is `Unknown` for that frame.

use vstd::prelude::*;

use crate::process_manager::SpawnError;
use crate::text::dec_int;
use crate::text::i32_to_string;

verus! {

/// One observation of the child process, as the runtime's non-blocking wait
/// reports it: still running, exited with an exit code (absent when the
/// child was ended by a signal), or the wait itself failed, leaving the
/// child's state undetermined for this poll.
#[derive(Debug, Clone, Copy, PartialEq, Eq)]
pub enum ChildPoll {
    StillRunning,
    Exited(Option<i32>),
    WaitFailed,
}

/// The states of one run as the display layer shows them. `Succeeded`,
/// `Failed`, `Cancelled` and `SpawnFailed` are terminal; `Running` and
/// `Unknown` (a poll whose wait failed, shown as an error frame) are not,
/// since a later poll can move past them.
#[derive(Debug, Clone, Copy, PartialEq, Eq)]
pub enum Status {
    Running,
    Succeeded,
    Failed(i32),
    Cancelled,
    SpawnFailed,
    Unknown,
}

/// The statuses that never change once observed.
pub open spec fn is_terminal(s: Status) -> bool {
    match s {
        Status::Running => false,
        Status::Unknown => false,
        _ => true,
    }
}

/// The classification rule. The cancelled flag overrides whatever the exit
/// code would say. A child that exited without an exit code and was not
/// cancelled keeps the `Running` classification, as there is no code to
/// report for it.
pub open spec fn spec_classify(cancelled: bool, poll: ChildPoll) -> Status {
    if cancelled {
        Status::Cancelled
    } else {
        match poll {
            ChildPoll::StillRunning => Status::Running,
            ChildPoll::Exited(code) => match code {
                Some(c) => if c == 0 {
                    Status::Succeeded
                } else {
                    Status::Failed(c)
                },
                None => Status::Running,
            },
            ChildPoll::WaitFailed => Status::Unknown,
        }
    }
}

/// Classifies one poll of a live run.
pub fn classify(cancelled: bool, poll: &ChildPoll) -> (s: Status)
    ensures
        s == spec_classify(cancelled, *poll),
{
    if cancelled {
        Status::Cancelled
    } else {
        match poll {
            ChildPoll::StillRunning => Status::Running,
            ChildPoll::Exited(code) => match code {
                Some(c) => if *c == 0 {
                    Status::Succeeded
                } else {
                    Status::Failed(*c)
                },
                None => Status::Running,
            },
            ChildPoll::WaitFailed => Status::Unknown,
        }
    }
}

/// The terminal status of a run attempt that never produced a child.
pub fn spawn_failure_status(e: &SpawnError) -> (s: Status)
    ensures
        s == Status::SpawnFailed,
{
    let _ = e;
    Status::SpawnFailed
}

/// Whether the very first run attempt failing must end the program: there is
/// nothing useful to display yet, while a failed re-run is shown as a
/// `SpawnFailed` status and the program stays responsive to new triggers.
pub fn spawn_failure_is_fatal(is_first_attempt: bool) -> (r: bool)
    ensures
        r == is_first_attempt,
{
    is_first_attempt
}

/// The colour of the output panel's border for a status.
#[derive(Debug, Clone, Copy, PartialEq, Eq)]
pub enum StatusColor {
    Green,
    LightRed,
    LightYellow,
    Red,
}

/// The border colour shown for each status: yellow while running or
/// cancelled, green on success, light red on a nonzero exit code, red when
/// the spawn itself failed or the child's state could not be determined.
pub fn status_color(s: &Status) -> (c: StatusColor)
    ensures
        c == match s {
            Status::Running => StatusColor::LightYellow,
            Status::Succeeded => StatusColor::Green,
            Status::Failed(_) => StatusColor::LightRed,
            Status::Cancelled => StatusColor::LightYellow,
            Status::SpawnFailed => StatusColor::Red,
            Status::Unknown => StatusColor::Red,
        },
{
    match s {
        Status::Running => StatusColor::LightYellow,
        Status::Succeeded => StatusColor::Green,
        Status::Failed(_) => StatusColor::LightRed,
        Status::Cancelled => StatusColor::LightYellow,
        Status::SpawnFailed => StatusColor::Red,
        Status::Unknown => StatusColor::Red,
    }
}

/// The spinner character cycle, advancing four times a second.
pub open spec fn spinner(phase: int) -> Seq<char> {
    if 0 <= phase <= 100 {
        "/"@
    } else if 101 <= phase <= 200 {
        "-"@
    } else {
        "\\"@
    }
}

/// The title of the output panel while the run is live: a spinner frame
/// picked from the current time, around the word `Running`.
pub open spec fn spec_running_string(now_ms: int) -> Seq<char> {
    " "@ + spinner(now_ms % 250) + " Running "@ + spinner(now_ms % 250) + " "@
}

/// The animated title shown while a run is live; callers redraw it often
/// enough for the spinner to turn.
pub fn running_string(now_ms: u64) -> (r: String)
    ensures
        r@ == spec_running_string(now_ms as int),
{
    let phase = now_ms % 250;
    let frame: &'static str = if phase <= 100 {
        "/"
    } else if phase <= 200 {
        "-"
    } else {
        "\\"
    };
    let mut s = String::from_str(" ");
    s.append(frame);
    s.append(" Running ");
    s.append(frame);
    s.append(" ");
    s
}

/// The panel title for each status.
pub open spec fn spec_status_title(s: Status, now_ms: int) -> Seq<char> {
    match s {
        Status::Running => spec_running_string(now_ms),
        Status::Succeeded => " Success "@,
        Status::Failed(c) => " Error: "@ + dec_int(c as int) + " "@,
        Status::Cancelled => " Cancelled "@,
        Status::SpawnFailed => " Spawn failed "@,
        Status::Unknown => " Error "@,
    }
}

/// Renders the output panel's title for a status, animated while running.
pub fn status_title(s: &Status, now_ms: u64) -> (r: String)
    ensures
        r@ == spec_status_title(*s, now_ms as int),
{
    match s {
        Status::Running => running_string(now_ms),
        Status::Succeeded => String::from_str(" Success "),
        Status::Failed(c) => {
            let mut t = String::from_str(" Error: ");
            let code = i32_to_string(*c);
            t.append(code.as_str());
            t.append(" ");
            t
        },
        Status::Cancelled => String::from_str(" Cancelled "),
        Status::SpawnFailed => String::from_str(" Spawn failed "),
        Status::Unknown => String::from_str(" Error "),
    }
}

/// A set cancelled flag classifies the run as `Cancelled`, whatever the
/// underlying exit code or signal was.
pub proof fn lemma_cancel_overrides(poll: ChildPoll)
    ensures
        spec_classify(true, poll) == Status::Cancelled,
{
}

/// Terminal states never transition. Between two observations of one run,
/// the cancelled flag is never cleared, the exit result does not change once
/// the child has exited, and the flag is only ever set while the child still
/// runs; under those rules a run observed in a terminal state keeps that
/// state.
pub proof fn lemma_terminal_states_stick(c1: bool, p1: ChildPoll, c2: bool, p2: ChildPoll)
    requires
        is_terminal(spec_classify(c1, p1)),
        c1 ==> c2,
        p1 matches ChildPoll::Exited(e) ==> p2 == ChildPoll::Exited(e),
        !c1 && c2 ==> p1 == ChildPoll::StillRunning,
    ensures
        spec_classify(c2, p2) == spec_classify(c1, p1),
{
}

} // verus!
