//! The log: every message is kept with its time and level symbol, and is
//! also shown on the console when it is at or above the current level and
//! the console is not taken over by a full-screen interface.
use vstd::prelude::*;
use crate::text::{owned, push_str, views};

verus! {

/// Severity of a message, least severe first.
#[derive(PartialEq, Eq, Structural, Clone, Copy, Debug)]
pub enum LogLevel {
    Debug,
    Info,
    Warning,
    Error,
}

/// Position of a level in the severity order.
pub open spec fn level_rank(l: LogLevel) -> nat {
    match l {
        LogLevel::Debug => 0,
        LogLevel::Info => 1,
        LogLevel::Warning => 2,
        LogLevel::Error => 3,
    }
}

/// The symbol of a level.
pub open spec fn level_prefix(l: LogLevel) -> Seq<char> {
    match l {
        LogLevel::Debug => seq!['\u{25E6}'],
        LogLevel::Info => seq!['\u{25CF}'],
        LogLevel::Warning => seq!['\u{26A0}'],
        LogLevel::Error => seq!['\u{2716}'],
    }
}

impl LogLevel {
    /// Position in the severity order.
    pub fn rank(&self) -> (r: u8)
        ensures
            r == level_rank(*self),
    {
        match self {
            LogLevel::Debug => 0,
            LogLevel::Info => 1,
            LogLevel::Warning => 2,
            LogLevel::Error => 3,
        }
    }

    /// The level's symbol.
    pub fn prefix(&self) -> (r: &'static str)
        ensures
            r@ == level_prefix(*self),
    {
        proof {
            reveal_strlit("\u{25E6}");
            reveal_strlit("\u{25CF}");
            reveal_strlit("\u{26A0}");
            reveal_strlit("\u{2716}");
        }
        match self {
            LogLevel::Debug => "\u{25E6}",
            LogLevel::Info => "\u{25CF}",
            LogLevel::Warning => "\u{26A0}",
            LogLevel::Error => "\u{2716}",
        }
    }
}

/// Where a logged message is shown.
pub enum Console {
    /// Not shown.
    Silent,
    /// On standard output.
    Stdout(String),
    /// On standard error.
    Stderr(String),
}

/// The stored log, the console level and whether the console is quiet.
pub struct LogState {
    pub logs: Vec<String>,
    pub level: LogLevel,
    pub quiet: bool,
}

impl LogState {
    /// An empty log at level `Info`, console not quiet.
    pub fn new() -> (s: LogState)
        ensures
            s.logs@.len() == 0,
            s.level == LogLevel::Info,
            !s.quiet,
    {
        LogState { logs: Vec::new(), level: LogLevel::Info, quiet: false }
    }
}

/// Sets the console level.
pub fn set_log_level(state: &mut LogState, level: LogLevel)
    ensures
        final(state).level == level,
        final(state).quiet == old(state).quiet,
        final(state).logs@ == old(state).logs@,
{
    state.level = level;
}

/// Turns console output off (`true`) or back on; messages are still stored.
pub fn set_quiet_mode(state: &mut LogState, quiet: bool)
    ensures
        final(state).quiet == quiet,
        final(state).level == old(state).level,
        final(state).logs@ == old(state).logs@,
{
    state.quiet = quiet;
}

/// The console level.
pub fn get_log_level(state: &LogState) -> (r: LogLevel)
    ensures
        r == state.level,
{
    state.level
}

/// A stored log line: `[time] symbol message`.
pub open spec fn log_line(level: LogLevel, timestamp: Seq<char>, message: Seq<char>) -> Seq<char> {
    "["@ + timestamp + "] "@ + level_prefix(level) + " "@ + message
}

/// Whether a message at `level` reaches the console.
pub open spec fn shown(state: LogState, level: LogLevel) -> bool {
    !state.quiet && level_rank(level) >= level_rank(state.level)
}

/// Stores a message (with the time it was logged, `HH:MM:SS`) and says
/// where it is shown: errors and warnings on standard error, the rest on
/// standard output, nothing when below the level or quiet.
pub fn log(state: &mut LogState, level: LogLevel, timestamp: &str, message: &str) -> (r: Console)
    ensures
        views(final(state).logs@) == views(old(state).logs@).push(log_line(level, timestamp@, message@)),
        final(state).level == old(state).level,
        final(state).quiet == old(state).quiet,
        match r {
            Console::Silent => !shown(*old(state), level),
            Console::Stdout(m) => shown(*old(state), level) && level_rank(level) < 2 && m@ == log_line(level, timestamp@, message@),
            Console::Stderr(m) => shown(*old(state), level) && level_rank(level) >= 2 && m@ == log_line(level, timestamp@, message@),
        },
{
    let mut line = owned("[");
    push_str(&mut line, timestamp);
    push_str(&mut line, "] ");
    push_str(&mut line, level.prefix());
    push_str(&mut line, " ");
    push_str(&mut line, message);
    let ghost before = state.logs@;
    state.logs.push(line.clone());
    assert(views(state.logs@) =~= views(before).push(line@));
    if !state.quiet && level.rank() >= state.level.rank() {
        if level.rank() >= 2 {
            Console::Stderr(line)
        } else {
            Console::Stdout(line)
        }
    } else {
        Console::Silent
    }
}

/// A copy of every stored message, oldest first.
pub fn get_logs(state: &LogState) -> (r: Vec<String>)
    ensures
        views(r@) == views(state.logs@),
{
    let mut r: Vec<String> = Vec::new();
    let mut i: usize = 0;
    while i < state.logs.len()
        invariant
            i <= state.logs@.len(),
            views(r@) == views(state.logs@).take(i as int),
        decreases state.logs.len() - i,
    {
        let ghost before = r@;
        r.push(state.logs[i].clone());
        assert(views(r@) =~= views(before).push(state.logs@[i as int]@));
        assert(views(state.logs@).take(i + 1) =~= views(state.logs@).take(i as int).push(state.logs@[i as int]@));
        i = i + 1;
    }
    assert(views(state.logs@).take(state.logs@.len() as int) =~= views(state.logs@));
    r
}

/// Forgets every stored message.
pub fn clear_logs(state: &mut LogState)
    ensures
        final(state).logs@.len() == 0,
        final(state).level == old(state).level,
        final(state).quiet == old(state).quiet,
{
    state.logs = Vec::new();
}

/// Logs at level `Debug`.
pub fn debug(state: &mut LogState, timestamp: &str, message: &str) -> (r: Console)
    ensures
        views(final(state).logs@) == views(old(state).logs@).push(log_line(LogLevel::Debug, timestamp@, message@)),
        final(state).level == old(state).level,
        final(state).quiet == old(state).quiet,
        match r {
            Console::Silent => !shown(*old(state), LogLevel::Debug),
            Console::Stdout(m) => shown(*old(state), LogLevel::Debug) && m@ == log_line(LogLevel::Debug, timestamp@, message@),
            Console::Stderr(_) => false,
        },
{
    log(state, LogLevel::Debug, timestamp, message)
}

/// Logs at level `Info`.
pub fn info(state: &mut LogState, timestamp: &str, message: &str) -> (r: Console)
    ensures
        views(final(state).logs@) == views(old(state).logs@).push(log_line(LogLevel::Info, timestamp@, message@)),
        final(state).level == old(state).level,
        final(state).quiet == old(state).quiet,
        match r {
            Console::Silent => !shown(*old(state), LogLevel::Info),
            Console::Stdout(m) => shown(*old(state), LogLevel::Info) && m@ == log_line(LogLevel::Info, timestamp@, message@),
            Console::Stderr(_) => false,
        },
{
    log(state, LogLevel::Info, timestamp, message)
}

/// Logs at level `Warning`.
pub fn warning(state: &mut LogState, timestamp: &str, message: &str) -> (r: Console)
    ensures
        views(final(state).logs@) == views(old(state).logs@).push(log_line(LogLevel::Warning, timestamp@, message@)),
        final(state).level == old(state).level,
        final(state).quiet == old(state).quiet,
        match r {
            Console::Silent => !shown(*old(state), LogLevel::Warning),
            Console::Stderr(m) => shown(*old(state), LogLevel::Warning) && m@ == log_line(LogLevel::Warning, timestamp@, message@),
            Console::Stdout(_) => false,
        },
{
    log(state, LogLevel::Warning, timestamp, message)
}

/// Logs at level `Error`.
pub fn error(state: &mut LogState, timestamp: &str, message: &str) -> (r: Console)
    ensures
        views(final(state).logs@) == views(old(state).logs@).push(log_line(LogLevel::Error, timestamp@, message@)),
        final(state).level == old(state).level,
        final(state).quiet == old(state).quiet,
        match r {
            Console::Silent => !shown(*old(state), LogLevel::Error),
            Console::Stderr(m) => shown(*old(state), LogLevel::Error) && m@ == log_line(LogLevel::Error, timestamp@, message@),
            Console::Stdout(_) => false,
        },
{
    log(state, LogLevel::Error, timestamp, message)
}

/// A more severe message is shown whenever a less severe one is.
pub proof fn lemma_shown_monotone(state: LogState, l1: LogLevel, l2: LogLevel)
    requires
        shown(state, l1),
        level_rank(l1) <= level_rank(l2),
    ensures
        shown(state, l2),
{
}

} // verus!
