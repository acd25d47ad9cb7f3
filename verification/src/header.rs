//! Decisions behind the header panel's command line display: how the command
//! word and each following argument are classified. The facts a decision
//! needs from the environment — whether the word resolves on the search
//! path, whether a path exists on disk — are gathered by the display layer
//! and handed in as plain values.

use vstd::prelude::*;

verus! {

/// How the command word itself is shown: found on the search path, an
/// existing local path run directly, or nothing that exists.
#[derive(Debug, Clone, Copy, PartialEq, Eq)]
pub enum CommandClass {
    Resolved,
    LocalPath,
    Missing,
}

/// How an argument after the command word is shown.
#[derive(Debug, Clone, Copy, PartialEq, Eq)]
pub enum ArgClass {
    Flag,
    Directory,
    File,
    Plain,
}

/// Classifies the command word: resolution on the search path wins, an
/// existing local path comes second, anything else is missing.
pub fn classify_command(resolves_in_path: bool, exists_locally: bool) -> (r: CommandClass)
    ensures
        r == if resolves_in_path {
            CommandClass::Resolved
        } else if exists_locally {
            CommandClass::LocalPath
        } else {
            CommandClass::Missing
        },
{
    if resolves_in_path {
        CommandClass::Resolved
    } else if exists_locally {
        CommandClass::LocalPath
    } else {
        CommandClass::Missing
    }
}

/// Whether an argument is written as a flag.
pub fn starts_with_dash(s: &str) -> (r: bool)
    ensures
        r == (s@.len() > 0 && s@[0] == '-'),
{
    if s.unicode_len() == 0 {
        false
    } else {
        s.get_char(0) == '-'
    }
}

/// Classifies one argument after the command word: a leading dash marks a
/// flag before anything on disk is considered; then an existing directory,
/// an existing file, and plain text last.
pub fn classify_arg(arg: &str, is_dir: bool, is_file: bool) -> (r: ArgClass)
    ensures
        r == if arg@.len() > 0 && arg@[0] == '-' {
            ArgClass::Flag
        } else if is_dir {
            ArgClass::Directory
        } else if is_file {
            ArgClass::File
        } else {
            ArgClass::Plain
        },
{
    if starts_with_dash(arg) {
        ArgClass::Flag
    } else if is_dir {
        ArgClass::Directory
    } else if is_file {
        ArgClass::File
    } else {
        ArgClass::Plain
    }
}

} // verus!
