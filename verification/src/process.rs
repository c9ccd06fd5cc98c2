//! Waiting for the editor's process: what the answers of the system's tools
//! say, and what to do after each attempt to wait. Calling the tools and the
//! system is the caller's part.

use vstd::prelude::*;

use crate::scan::{fields, parse_unsigned, split, to_chars, to_string, unsigned_of};
use crate::terminal::TerminalType;
use crate::text::{trim, trimmed};

verus! {

/// The process identifier that a line of text holds: a whole number within
/// `u32`, surrounded by whitespace at most.
pub open spec fn pid_of(line: Seq<char>) -> Option<nat> {
    unsigned_of(trimmed(line), u32::MAX as nat)
}

/// The first process identifier among `lines`.
pub open spec fn first_pid_among(lines: Seq<Seq<char>>) -> Option<nat>
    decreases lines.len(),
{
    if lines.len() == 0 {
        None
    } else {
        match pid_of(lines[0]) {
            Some(pid) => Some(pid),
            None => first_pid_among(lines.skip(1)),
        }
    }
}

/// The process that has a file open, from the answer of the tool that lists
/// such processes one to a line: the first line that is a process
/// identifier.
pub open spec fn first_pid_of(answer: Seq<char>) -> Option<nat> {
    first_pid_among(fields(answer, '\n'))
}

/// Reads a process identifier from a line of text.
pub fn parse_pid(line: &str) -> (pid: Option<u32>)
    ensures
        match pid {
            Some(p) => pid_of(line@) == Some(p as nat),
            None => pid_of(line@) is None,
        },
{
    let text = trim(line);
    let chars = to_chars(text.as_str());
    match parse_unsigned(&chars, u32::MAX as u64) {
        Some(pid) => Some(pid as u32),
        None => None,
    }
}

/// Reads the first process identifier from a list of them, one to a line.
pub fn first_pid(answer: &str) -> (pid: Option<u32>)
    ensures
        match pid {
            Some(p) => first_pid_of(answer@) == Some(p as nat),
            None => first_pid_of(answer@) is None,
        },
{
    let chars = to_chars(answer);
    let lines = split(&chars, '\n');
    let ghost all = fields(answer@, '\n');
    let mut at: usize = 0;
    assert(all.skip(0) =~= all);
    while at < lines.len()
        invariant
            at <= lines@.len(),
            all == fields(answer@, '\n'),
            lines@.map_values(|line: Vec<char>| line@) == all,
            first_pid_among(all) == first_pid_among(all.skip(at as int)),
        decreases lines@.len() - at,
    {
        let line = &lines[at];
        let text = to_string(line, 0, line.len());
        assert(line@.subrange(0, line@.len() as int) =~= line@);
        assert(all[at as int] == line@);
        assert(all.skip(at as int)[0] == line@);
        assert(all.skip(at as int).skip(1) =~= all.skip(at + 1));
        let ghost rest = all.skip(at as int);
        assert(rest.len() > 0 && rest[0] == text@);
        if let Some(pid) = parse_pid(text.as_str()) {
            assert(first_pid_among(rest) == Some(pid as nat));
            return Some(pid);
        }
        assert(first_pid_among(rest) == first_pid_among(rest.skip(1)));
        at += 1;
    }
    None
}

/// How to wait for the editor to leave.
#[derive(Debug, Clone, Copy, PartialEq, Eq, Structural)]
pub enum WaitPlan {
    /// Wait until the process with this identifier has left.
    Process(u32),
    /// There is no process to wait for: report the failure.
    Nothing,
    /// The process is unknown: pause for a fixed time instead.
    Pause,
}

/// How to wait for the editor in a terminal of the given type: for its
/// process where the process is known. Where it is not, the terminals that
/// are driven by scripts get a pause; for the others this is a failure.
pub fn wait_plan(terminal_type: &TerminalType, process_id: Option<u32>) -> (plan: WaitPlan)
    ensures
        plan == (match process_id {
            Some(pid) => WaitPlan::Process(pid),
            None => match *terminal_type {
                TerminalType::ITerm | TerminalType::Default => WaitPlan::Pause,
                _ => WaitPlan::Nothing,
            },
        }),
{
    match process_id {
        Some(pid) => WaitPlan::Process(pid),
        None => match terminal_type {
            TerminalType::Alacritty
            | TerminalType::Ghostty
            | TerminalType::Kitty
            | TerminalType::WezTerm => WaitPlan::Nothing,
            TerminalType::ITerm | TerminalType::Default => WaitPlan::Pause,
        },
    }
}

/// What follows an attempt to wait for a process without blocking.
#[derive(Debug, Clone, Copy, PartialEq, Eq, Structural)]
pub enum AfterWait {
    /// The process has left and was reaped: the wait is over.
    Reaped,
    /// The process is no child of this one: probe whether it still exists.
    Probe,
    /// The system refused for another reason: the wait is over.
    Failed,
    /// The process still runs: pause, then try again.
    Running,
}

/// The process identifier in the form in which the system takes it.
pub fn system_pid(pid: u32) -> (id: i32)
    ensures
        id == pid as i32,
{
    #[verifier::truncate]
    (pid as i32)
}

/// Decides what follows an attempt to wait. `wait_result` is what the
/// system answered: the identifier of the process once it has left, -1 for
/// a refusal, 0 while it runs. `not_a_child` tells whether a refusal was for
/// a process that is no child of this one.
pub fn after_wait(pid: u32, wait_result: i32, not_a_child: bool) -> (next: AfterWait)
    ensures
        next == (if wait_result == pid as i32 {
            AfterWait::Reaped
        } else if wait_result == -1 {
            if not_a_child {
                AfterWait::Probe
            } else {
                AfterWait::Failed
            }
        } else {
            AfterWait::Running
        }),
{
    if wait_result == system_pid(pid) {
        AfterWait::Reaped
    } else if wait_result == -1 {
        if not_a_child {
            AfterWait::Probe
        } else {
            AfterWait::Failed
        }
    } else {
        AfterWait::Running
    }
}

/// Whether the wait is over after a probe: so where the probe says that the
/// process does not exist, by any answer but 0.
pub fn gone_after_probe(probe_result: i32) -> (gone: bool)
    ensures
        gone == (probe_result != 0),
{
    probe_result != 0
}

} // verus!
