//! The process supervisor: validating a command line, describing the launch
//! the runtime must perform, and the record kept of each run of the command.
//!
//! Spawning itself is operating-system work done by the surrounding binary;
//! it reports the outcome (a process id or the platform error class) back to
//! [`SpawnRequest::launched`], which builds the execution record.

use vstd::prelude::*;

use crate::buffer::OutputBuffer;

verus! {

/// What caused a run: the initial launch, a user-requested re-run, or a
/// debounced modification of the named path. Provenance is kept for display
/// purposes only and never changes supervisor behaviour.
#[derive(Debug, PartialEq, Eq)]
pub enum Trigger {
    Modify(String),
    Manual,
    Start,
}

/// Emitted exactly once per captured stream when its capture worker observes
/// end-of-stream. A run is fully drained once both have been observed.
#[derive(Debug, Clone, Copy, PartialEq, Eq)]
pub enum EndType {
    Stdout,
    Stderr,
}

/// The class of a platform error returned by a failed spawn attempt.
#[derive(Debug, Clone, Copy, PartialEq, Eq)]
pub enum OsErrorKind {
    NotFound,
    PermissionDenied,
    Other,
}

/// Why `start_new` refused or failed to start a run: either the command line
/// was empty or whitespace-only (the operating system is never touched), or
/// the spawn itself failed with the wrapped platform error class.
#[derive(Debug, Clone, Copy, PartialEq, Eq)]
pub enum SpawnError {
    EmptyCommand,
    Failed(OsErrorKind),
}

/// The whitespace characters recognised when deciding that a command line
/// holds no command at all: the Unicode White_Space code points.
pub open spec fn is_space(c: char) -> bool {
    ||| c == ' ' || c == '\t' || c == '\n' || c == '\r' || c == '\u{0b}' || c == '\u{0c}'
    ||| c == '\u{85}' || c == '\u{a0}' || c == '\u{1680}'
    ||| (0x2000 <= c as u32 && c as u32 <= 0x200a)
    ||| c == '\u{2028}' || c == '\u{2029}' || c == '\u{202f}' || c == '\u{205f}' || c == '\u{3000}'
}

/// A command line that no spawn may be attempted for: empty, or made of
/// whitespace only.
pub open spec fn is_blank(s: Seq<char>) -> bool {
    forall|i: int| 0 <= i < s.len() ==> is_space(s[i])
}

/// Decides whether one character is whitespace.
pub fn char_is_space(c: char) -> (r: bool)
    ensures
        r == is_space(c),
{
    if c == ' ' || c == '\t' || c == '\n' || c == '\r' || c == '\u{0b}' || c == '\u{0c}' {
        true
    } else if c == '\u{85}' || c == '\u{a0}' || c == '\u{1680}' {
        true
    } else if 0x2000 <= c as u32 && c as u32 <= 0x200a {
        true
    } else {
        c == '\u{2028}' || c == '\u{2029}' || c == '\u{202f}' || c == '\u{205f}' || c == '\u{3000}'
    }
}

/// Decides whether a command line is empty or whitespace-only.
pub fn command_is_blank(s: &str) -> (r: bool)
    ensures
        r == is_blank(s@),
{
    let n = s.unicode_len();
    let mut i: usize = 0;
    while i < n
        invariant
            i <= n,
            n == s@.len(),
            forall|j: int| 0 <= j < i ==> is_space(s@[j]),
        decreases n - i,
    {
        let c = s.get_char(i);
        if !char_is_space(c) {
            assert(!is_space(s@[i as int]));
            return false;
        }
        i = i + 1;
    }
    true
}

/// The first whitespace-delimited word of a command line: the executable
/// the shell will be asked to run. Empty when the command line is blank.
pub open spec fn spec_first_word(s: Seq<char>) -> Seq<char>
    decreases s.len(),
{
    if s.len() == 0 {
        Seq::empty()
    } else if is_space(s[0]) {
        spec_first_word(s.drop_first())
    } else {
        seq![s[0]] + spec_leading_word(s.drop_first())
    }
}

/// The leading run of non-whitespace characters.
pub open spec fn spec_leading_word(s: Seq<char>) -> Seq<char>
    decreases s.len(),
{
    if s.len() == 0 || is_space(s[0]) {
        Seq::empty()
    } else {
        seq![s[0]] + spec_leading_word(s.drop_first())
    }
}

/// A sequence whose leading run of non-whitespace characters ends exactly at
/// `j` has that run as its prefix up to `j`.
proof fn lemma_leading_word_is_prefix(s: Seq<char>, j: int)
    requires
        0 <= j <= s.len(),
        forall|k: int| 0 <= k < j ==> !is_space(s[k]),
        j == s.len() || is_space(s[j]),
    ensures
        spec_leading_word(s) == s.subrange(0, j),
    decreases j,
{
    if j == 0 {
        assert(s.subrange(0, 0) =~= Seq::<char>::empty());
    } else {
        assert(forall|k: int| 0 <= k < j - 1 ==> !is_space(#[trigger] s.drop_first()[k]));
        lemma_leading_word_is_prefix(s.drop_first(), j - 1);
        assert(s.subrange(0, j) =~= seq![s[0]] + s.drop_first().subrange(0, j - 1));
    }
}

/// Skipping a whitespace-only prefix does not change the first word.
proof fn lemma_spaces_do_not_shift_first_word(s: Seq<char>, i: int)
    requires
        0 <= i <= s.len(),
        forall|j: int| 0 <= j < i ==> is_space(s[j]),
    ensures
        spec_first_word(s) == spec_first_word(s.skip(i)),
    decreases i,
{
    if i == 0 {
        assert(s.skip(0) =~= s);
    } else {
        assert(forall|j: int| 0 <= j < i - 1 ==> is_space(#[trigger] s.drop_first()[j]));
        lemma_spaces_do_not_shift_first_word(s.drop_first(), i - 1);
        assert(s.drop_first().skip(i - 1) =~= s.skip(i));
    }
}

/// The index of the first non-whitespace character, or the length.
fn scan_word_start(s: &str) -> (i: usize)
    ensures
        i <= s@.len(),
        forall|j: int| 0 <= j < i ==> is_space(s@[j]),
        i < s@.len() ==> !is_space(s@[i as int]),
{
    let n = s.unicode_len();
    let mut i: usize = 0;
    while i < n
        invariant
            i <= n,
            n == s@.len(),
            forall|j: int| 0 <= j < i ==> is_space(s@[j]),
        decreases n - i,
    {
        let c = s.get_char(i);
        if !char_is_space(c) {
            return i;
        }
        i = i + 1;
    }
    i
}

/// The index just past the run of non-whitespace characters starting at
/// `start`.
fn scan_word_end(s: &str, start: usize) -> (j: usize)
    requires
        start <= s@.len(),
    ensures
        start <= j <= s@.len(),
        forall|k: int| start <= k < j ==> !is_space(s@[k]),
        j < s@.len() ==> is_space(s@[j as int]),
{
    let n = s.unicode_len();
    let mut j: usize = start;
    while j < n
        invariant
            start <= j <= n,
            n == s@.len(),
            forall|k: int| start <= k < j ==> !is_space(s@[k]),
        decreases n - j,
    {
        let c = s.get_char(j);
        if char_is_space(c) {
            return j;
        }
        j = j + 1;
    }
    j
}

/// Extracts the first whitespace-delimited word of a command line, so the
/// runtime can ask the environment whether that executable resolves.
pub fn first_word<'a>(s: &'a str) -> (r: &'a str)
    ensures
        r@ == spec_first_word(s@),
{
    let i = scan_word_start(s);
    let j = scan_word_end(s, i);
    proof {
        lemma_spaces_do_not_shift_first_word(s@, i as int);
        let t = s@.skip(i as int);
        assert(forall|k: int| 0 <= k < j - i ==> !is_space(#[trigger] t[k]));
        lemma_leading_word_is_prefix(t, j - i);
        if i < s@.len() {
            assert(spec_first_word(t) == spec_leading_word(t));
        } else {
            assert(t =~= Seq::<char>::empty());
        }
        assert(t.subrange(0, j - i) =~= s@.subrange(i as int, j as int));
    }
    s.substring_char(i, j)
}

/// A validated launch the runtime is asked to perform: invoke `launcher`
/// (the user's shell) with [`SpawnRequest::shell_flag`] and `commandline` as
/// a single argument, with both child output streams piped to the parent and
/// the child's standard input left unconnected.
pub struct SpawnRequest {
    pub launcher: String,
    pub commandline: String,
    pub trigger: Trigger,
}

/// One run of the user's command: the child's process id, the shared buffer
/// both capture workers append to, the flag set exactly once when the run is
/// killed by explicit user action, and the trigger that caused the run.
pub struct ProcessExecution {
    pub pid: u64,
    pub output: OutputBuffer,
    pub cancelled: bool,
    pub trigger: Trigger,
}

impl SpawnRequest {
    /// The flag that makes the launcher treat the next argument as a command
    /// line to interpret, so the full shell grammar is available to it.
    pub fn shell_flag(&self) -> (r: &'static str)
        ensures
            r@ == "-c"@,
    {
        "-c"
    }

    /// Turns the runtime's report of the spawn attempt into the execution
    /// record. On success the record starts with the reported process id, an
    /// empty output buffer, the cancelled flag clear, and the originating
    /// trigger; a platform failure is surfaced as the wrapped error class.
    pub fn launched(self, outcome: Result<u64, OsErrorKind>) -> (r: Result<
        ProcessExecution,
        SpawnError,
    >)
        ensures
            (r is Ok) <==> (outcome is Ok),
            outcome matches Ok(pid) ==> r matches Ok(e) && e.pid == pid && e.output@
                == Seq::<u8>::empty() && !e.cancelled && e.trigger == self.trigger,
            outcome matches Err(k) ==> r matches Err(err) && err == SpawnError::Failed(k),
    {
        match outcome {
            Ok(pid) => Ok(
                ProcessExecution {
                    pid,
                    output: OutputBuffer::new(),
                    cancelled: false,
                    trigger: self.trigger,
                },
            ),
            Err(k) => Err(SpawnError::Failed(k)),
        }
    }
}

impl ProcessExecution {
    /// Validates a command line and, when it holds a command that resolves,
    /// describes the launch to perform. An empty or whitespace-only command
    /// line is rejected as `EmptyCommand` before the operating system is
    /// touched; one whose executable does not resolve (`command_resolves`,
    /// gathered by the runtime from the search path for the command line's
    /// first word) is rejected as a not-found spawn failure, again without a
    /// spawn.
    pub fn start_new(
        launcher: &str,
        commandline: &str,
        trigger: Trigger,
        command_resolves: bool,
    ) -> (r: Result<SpawnRequest, SpawnError>)
        ensures
            (r is Ok) <==> (!is_blank(commandline@) && command_resolves),
            is_blank(commandline@) ==> r == Err::<SpawnRequest, SpawnError>(
                SpawnError::EmptyCommand,
            ),
            !is_blank(commandline@) && !command_resolves ==> r == Err::<SpawnRequest, SpawnError>(
                SpawnError::Failed(OsErrorKind::NotFound),
            ),
            r matches Ok(req) ==> req.launcher@ == launcher@ && req.commandline@
                == commandline@ && req.trigger == trigger,
    {
        if command_is_blank(commandline) {
            return Err(SpawnError::EmptyCommand);
        }
        if !command_resolves {
            return Err(SpawnError::Failed(OsErrorKind::NotFound));
        }
        Ok(
            SpawnRequest {
                launcher: String::from_str(launcher),
                commandline: String::from_str(commandline),
                trigger,
            },
        )
    }

    /// Appends one chunk a capture worker read from its stream; bytes already
    /// captured keep their order and the rest of the record is untouched.
    pub fn append_output(&mut self, chunk: &[u8])
        requires
            old(self).output@.len() + chunk@.len() <= usize::MAX,
        ensures
            final(self).output@ == old(self).output@ + chunk@,
            final(self).pid == old(self).pid,
            final(self).cancelled == old(self).cancelled,
            final(self).trigger == old(self).trigger,
    {
        self.output.append(chunk);
    }

    /// Marks the run as killed by explicit user action. Idempotent: the flag
    /// is set exactly once and never cleared.
    pub fn mark_cancelled(&mut self)
        ensures
            final(self).cancelled,
            final(self).pid == old(self).pid,
            final(self).output@ == old(self).output@,
            final(self).trigger == old(self).trigger,
    {
        self.cancelled = true;
    }
}

} // verus!
