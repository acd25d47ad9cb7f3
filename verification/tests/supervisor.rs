use await_modify_do::coordinator::Coordinator;
use await_modify_do::coordinator::KeyCommand;
use await_modify_do::coordinator::decode_key;
use await_modify_do::process_manager::first_word;
use await_modify_do::process_manager::OsErrorKind;
use await_modify_do::process_manager::ProcessExecution;
use await_modify_do::process_manager::SpawnError;
use await_modify_do::process_manager::Trigger;
use await_modify_do::status::ChildPoll;
use await_modify_do::status::Status;
use await_modify_do::status::classify;
use await_modify_do::status::spawn_failure_is_fatal;
use await_modify_do::status::spawn_failure_status;

fn started(commandline: &str, trigger: Trigger, pid: u64) -> ProcessExecution {
    let req = ProcessExecution::start_new("/bin/sh", commandline, trigger, true).unwrap();
    req.launched(Ok(pid)).unwrap()
}

#[test]
fn start_new_returns_a_request_for_a_real_command() {
    let req = ProcessExecution::start_new("/bin/sh", "ls *Cargo*", Trigger::Start, true).unwrap();
    assert_eq!(req.launcher, "/bin/sh");
    assert_eq!(req.commandline, "ls *Cargo*");
    assert_eq!(req.trigger, Trigger::Start);
    assert_eq!(req.shell_flag(), "-c");
}

#[test]
fn start_new_rejects_empty_command() {
    let r = ProcessExecution::start_new("/bin/sh", "", Trigger::Start, true);
    assert!(matches!(r, Err(SpawnError::EmptyCommand)));
}

#[test]
fn start_new_rejects_whitespace_only_command() {
    let r = ProcessExecution::start_new("/bin/sh", " \t\r\n ", Trigger::Manual, true);
    assert!(matches!(r, Err(SpawnError::EmptyCommand)));
}

#[test]
fn start_new_rejects_unicode_whitespace_only_command() {
    // No-break space, em space, ideographic space: whitespace-only too.
    let r = ProcessExecution::start_new("/bin/sh", "\u{a0}\u{2003}\u{3000}", Trigger::Start, true);
    assert!(matches!(r, Err(SpawnError::EmptyCommand)));
}

#[test]
fn start_new_rejects_unresolved_command_as_not_found() {
    let r = ProcessExecution::start_new("/bin/sh", "somebscommand", Trigger::Manual, false);
    assert!(matches!(r, Err(SpawnError::Failed(OsErrorKind::NotFound))));
    // Emptiness wins over resolution for a blank command line.
    let r = ProcessExecution::start_new("/bin/sh", "   ", Trigger::Manual, false);
    assert!(matches!(r, Err(SpawnError::EmptyCommand)));
}

#[test]
fn first_word_is_the_executable_name() {
    assert_eq!(first_word("ls *Cargo*"), "ls");
    assert_eq!(first_word("  cargo  build "), "cargo");
    assert_eq!(first_word("\u{a0}make all"), "make");
    assert_eq!(first_word("solo"), "solo");
    assert_eq!(first_word(""), "");
    assert_eq!(first_word(" \t "), "");
}

#[test]
fn launched_execution_has_valid_pid_and_empty_buffer() {
    let exe = started("ls *Cargo*", Trigger::Start, 4242);
    assert_eq!(exe.pid, 4242);
    assert_eq!(exe.output.len(), 0);
    assert!(!exe.cancelled);
    assert_eq!(exe.trigger, Trigger::Start);
}

#[test]
fn launched_surfaces_not_found_as_spawn_error() {
    // The spawn itself can still fail even after the command resolved, for
    // example when the binary vanishes in between; the class is kept.
    let req = ProcessExecution::start_new("/bin/sh", "somebscommand", Trigger::Manual, true).unwrap();
    let r = req.launched(Err(OsErrorKind::NotFound));
    assert!(matches!(r, Err(SpawnError::Failed(OsErrorKind::NotFound))));
}

#[test]
fn launched_surfaces_other_platform_errors_too() {
    let req = ProcessExecution::start_new("/bin/sh", "ls", Trigger::Start, true).unwrap();
    let r = req.launched(Err(OsErrorKind::PermissionDenied));
    assert!(matches!(r, Err(SpawnError::Failed(OsErrorKind::PermissionDenied))));
    let req = ProcessExecution::start_new("/bin/sh", "ls", Trigger::Start, true).unwrap();
    let r = req.launched(Err(OsErrorKind::Other));
    assert!(matches!(r, Err(SpawnError::Failed(OsErrorKind::Other))));
}

#[test]
fn spawn_failure_yields_terminal_spawn_failed_status_and_no_buffer() {
    // A command naming a nonexistent binary never becomes an execution: no
    // request is produced, so no child and no buffer exist at all, and the
    // display shows the terminal SpawnFailed status.
    let r = ProcessExecution::start_new("/bin/sh", "somebscommand", Trigger::Manual, false);
    let err = r.err().unwrap();
    assert!(matches!(err, SpawnError::Failed(OsErrorKind::NotFound)));
    assert_eq!(spawn_failure_status(&err), Status::SpawnFailed);
}

#[test]
fn first_spawn_failure_is_fatal_reruns_are_not() {
    assert!(spawn_failure_is_fatal(true));
    assert!(!spawn_failure_is_fatal(false));
}

#[test]
fn append_output_keeps_read_order() {
    let mut exe = started("ls", Trigger::Manual, 7);
    exe.append_output(b"first ");
    exe.append_output(b"second");
    assert_eq!(exe.output.contents().as_slice(), b"first second");
    assert_eq!(exe.pid, 7);
}

#[test]
fn supersession_kills_previous_child_on_install() {
    let mut coord = Coordinator::new();
    let first = started("sleep 100", Trigger::Start, 11);
    assert_eq!(coord.install(first), None);
    let second = started("sleep 100", Trigger::Manual, 22);
    assert_eq!(second.output.len(), 0);
    let kill = coord.install(second);
    assert_eq!(kill, Some(11));
    let active = coord.active.as_ref().unwrap();
    assert_eq!(active.pid, 22);
    assert_eq!(active.output.len(), 0);
}

#[test]
fn cancel_key_marks_active_run_cancelled_not_failed() {
    let mut coord = Coordinator::new();
    let run = started("sleep 100", Trigger::Start, 33);
    coord.install(run);
    let kill = coord.cancel_active(true);
    assert_eq!(kill, Some(33));
    let active = coord.active.as_ref().unwrap();
    assert!(active.cancelled);
    // Even though the killed child reports a signal-based, nonzero-looking
    // exit, the classification is Cancelled.
    assert_eq!(classify(active.cancelled, &ChildPoll::Exited(None)), Status::Cancelled);
    assert_eq!(classify(active.cancelled, &ChildPoll::Exited(Some(137))), Status::Cancelled);
}

#[test]
fn cancel_leaves_exited_run_untouched() {
    let mut coord = Coordinator::new();
    let run = started("ls", Trigger::Start, 44);
    coord.install(run);
    let kill = coord.cancel_active(false);
    assert_eq!(kill, None);
    assert!(!coord.active.as_ref().unwrap().cancelled);
}

#[test]
fn cancel_with_empty_slot_does_nothing() {
    let mut coord = Coordinator::new();
    assert_eq!(coord.cancel_active(true), None);
    assert!(coord.active.is_none());
}

#[test]
fn shutdown_terminates_running_child_and_empties_slot() {
    let mut coord = Coordinator::new();
    let run = started("sleep 100", Trigger::Start, 55);
    coord.install(run);
    assert_eq!(coord.shutdown(true), Some(55));
    assert!(coord.active.is_none());
}

#[test]
fn shutdown_of_exited_child_issues_no_kill() {
    let mut coord = Coordinator::new();
    let run = started("ls", Trigger::Start, 66);
    coord.install(run);
    assert_eq!(coord.shutdown(false), None);
    assert!(coord.active.is_none());
}

#[test]
fn key_decoding() {
    assert_eq!(decode_key('q', true), KeyCommand::Quit);
    assert_eq!(decode_key('c', true), KeyCommand::Cancel);
    assert_eq!(decode_key('r', true), KeyCommand::Rerun);
    assert_eq!(decode_key('x', true), KeyCommand::Ignore);
    assert_eq!(decode_key('q', false), KeyCommand::Ignore);
}

#[test]
fn mark_cancelled_is_idempotent() {
    let mut exe = started("sleep 100", Trigger::Manual, 77);
    exe.mark_cancelled();
    assert!(exe.cancelled);
    exe.mark_cancelled();
    assert!(exe.cancelled);
}
