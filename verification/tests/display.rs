use await_modify_do::buffer::OutputBuffer;
use await_modify_do::header::ArgClass;
use await_modify_do::header::CommandClass;
use await_modify_do::header::classify_arg;
use await_modify_do::header::classify_command;
use await_modify_do::header::starts_with_dash;
use await_modify_do::stats::human_friendly_mem;
use await_modify_do::stats::should_refresh;
use await_modify_do::stats::usage_is_high;
use await_modify_do::status::ChildPoll;
use await_modify_do::status::Status;
use await_modify_do::status::StatusColor;
use await_modify_do::status::classify;
use await_modify_do::status::running_string;
use await_modify_do::status::status_color;
use await_modify_do::status::status_title;
use await_modify_do::text::i32_to_string;
use await_modify_do::text::u64_to_string;

fn buffer_with(bytes: &[u8]) -> OutputBuffer {
    let mut b = OutputBuffer::new();
    b.append(bytes);
    b
}

#[test]
fn glob_listing_scenario_shows_the_two_files_and_success() {
    // A run of `ls *Cargo*` in a directory holding exactly Cargo.lock and
    // Cargo.toml: the drained buffer lists them in lexicographic order.
    let b = buffer_with(b"Cargo.lock\nCargo.toml\n");
    let lines = b.tail_lines(10);
    assert_eq!(lines, vec![b"Cargo.lock".to_vec(), b"Cargo.toml".to_vec()]);
    assert_eq!(classify(false, &ChildPoll::Exited(Some(0))), Status::Succeeded);
}

#[test]
fn tail_lines_takes_only_the_trailing_lines() {
    let b = buffer_with(b"one\ntwo\nthree\nfour\n");
    assert_eq!(b.tail_lines(2), vec![b"three".to_vec(), b"four".to_vec()]);
}

#[test]
fn tail_lines_of_empty_buffer_is_empty() {
    let b = OutputBuffer::new();
    assert_eq!(b.tail_lines(10), Vec::<Vec<u8>>::new());
}

#[test]
fn tail_lines_keeps_an_unterminated_last_line() {
    let b = buffer_with(b"alpha\nbeta");
    assert_eq!(b.tail_lines(10), vec![b"alpha".to_vec(), b"beta".to_vec()]);
}

#[test]
fn tail_lines_drops_blank_lines() {
    let b = buffer_with(b"\n\nalpha\n\n\nbeta\n\n");
    assert_eq!(b.tail_lines(10), vec![b"alpha".to_vec(), b"beta".to_vec()]);
}

#[test]
fn tail_lines_with_zero_limit_is_empty() {
    let b = buffer_with(b"alpha\nbeta\n");
    assert_eq!(b.tail_lines(0), Vec::<Vec<u8>>::new());
}

#[test]
fn classification_of_each_poll() {
    assert_eq!(classify(false, &ChildPoll::StillRunning), Status::Running);
    assert_eq!(classify(false, &ChildPoll::Exited(Some(0))), Status::Succeeded);
    assert_eq!(classify(false, &ChildPoll::Exited(Some(3))), Status::Failed(3));
    assert_eq!(classify(false, &ChildPoll::Exited(None)), Status::Running);
    assert_eq!(classify(false, &ChildPoll::WaitFailed), Status::Unknown);
    assert_eq!(classify(true, &ChildPoll::StillRunning), Status::Cancelled);
    assert_eq!(classify(true, &ChildPoll::Exited(Some(0))), Status::Cancelled);
    assert_eq!(classify(true, &ChildPoll::WaitFailed), Status::Cancelled);
}

#[test]
fn colors_for_each_status() {
    assert_eq!(status_color(&Status::Running), StatusColor::LightYellow);
    assert_eq!(status_color(&Status::Succeeded), StatusColor::Green);
    assert_eq!(status_color(&Status::Failed(2)), StatusColor::LightRed);
    assert_eq!(status_color(&Status::Cancelled), StatusColor::LightYellow);
    assert_eq!(status_color(&Status::SpawnFailed), StatusColor::Red);
    assert_eq!(status_color(&Status::Unknown), StatusColor::Red);
}

#[test]
fn titles_for_each_status() {
    assert_eq!(status_title(&Status::Succeeded, 0), " Success ");
    assert_eq!(status_title(&Status::Failed(3), 0), " Error: 3 ");
    assert_eq!(status_title(&Status::Failed(-9), 0), " Error: -9 ");
    assert_eq!(status_title(&Status::Cancelled, 0), " Cancelled ");
    assert_eq!(status_title(&Status::SpawnFailed, 0), " Spawn failed ");
    assert_eq!(status_title(&Status::Running, 0), " / Running / ");
    assert_eq!(status_title(&Status::Unknown, 0), " Error ");
}

#[test]
fn spinner_phases() {
    assert_eq!(running_string(0), " / Running / ");
    assert_eq!(running_string(100), " / Running / ");
    assert_eq!(running_string(150), " - Running - ");
    assert_eq!(running_string(225), " \\ Running \\ ");
    assert_eq!(running_string(250), " / Running / ");
}

#[test]
fn memory_amounts_in_each_unit() {
    assert_eq!(human_friendly_mem(500), "500 B");
    assert_eq!(human_friendly_mem(1024), "1024 B");
    assert_eq!(human_friendly_mem(1536), "1.50 KB");
    assert_eq!(human_friendly_mem(2048), "2.00 KB");
    assert_eq!(human_friendly_mem(1029), "1.00 KB");
    assert_eq!(human_friendly_mem(1024 * 1024), "1024.00 KB");
    assert_eq!(human_friendly_mem(3 * 1024 * 1024 / 2), "1.50 MB");
    assert_eq!(human_friendly_mem(5 * 1024 * 1024 * 1024 / 2), "2.50 GB");
    assert_eq!(human_friendly_mem(2 * 1024 * 1024 * 1024 * 1024), "2.00 TB");
}

#[test]
fn memory_amount_pads_small_fractions() {
    // 1076 bytes is about 1.0508 KB; the fraction is zero-padded to 05.
    assert_eq!(human_friendly_mem(1076), "1.05 KB");
}

#[test]
fn decimal_rendering() {
    assert_eq!(u64_to_string(0), "0");
    assert_eq!(u64_to_string(10), "10");
    assert_eq!(u64_to_string(987654321), "987654321");
    assert_eq!(i32_to_string(0), "0");
    assert_eq!(i32_to_string(-7), "-7");
    assert_eq!(i32_to_string(i32::MIN), "-2147483648");
    assert_eq!(i32_to_string(i32::MAX), "2147483647");
}

#[test]
fn refresh_happens_at_the_start_of_each_second() {
    assert!(should_refresh(0));
    assert!(should_refresh(1039));
    assert!(!should_refresh(1040));
    assert!(!should_refresh(999));
}

#[test]
fn usage_gauge_turns_red_past_four_fifths() {
    assert!(usage_is_high(81, 100));
    assert!(!usage_is_high(80, 100));
    assert!(!usage_is_high(0, 0));
}

#[test]
fn command_word_classification() {
    assert_eq!(classify_command(true, false), CommandClass::Resolved);
    assert_eq!(classify_command(true, true), CommandClass::Resolved);
    assert_eq!(classify_command(false, true), CommandClass::LocalPath);
    assert_eq!(classify_command(false, false), CommandClass::Missing);
}

#[test]
fn argument_classification() {
    assert_eq!(classify_arg("-v", false, false), ArgClass::Flag);
    assert_eq!(classify_arg("-v", true, true), ArgClass::Flag);
    assert_eq!(classify_arg("src", true, false), ArgClass::Directory);
    assert_eq!(classify_arg("main.rs", false, true), ArgClass::File);
    assert_eq!(classify_arg("hello", false, false), ArgClass::Plain);
    assert!(starts_with_dash("-x"));
    assert!(!starts_with_dash(""));
    assert!(!starts_with_dash("x-"));
}
