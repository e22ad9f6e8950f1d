//! Severity model and the dispatcher configurator.
//!
//! A numeric level is mapped to a severity filter by a fixed table, a backend
//! is the installed (filter, sink) pair, and `setup` installs it into an
//! explicit process-state value exactly once.

use vstd::prelude::*;

use crate::textfmt::{
    format_colored_line, format_plain_line, now_timestamp, spec_colored_line, spec_plain_line,
};

verus! {

/// Severity of a single log record, from most verbose to most severe.
#[derive(Clone, Copy, Debug, PartialEq, Eq, Structural)]
pub enum Level {
    Trace,
    Debug,
    Info,
    Warn,
    Error,
}

/// Minimum-severity filter of the installed backend; `Off` drops everything,
/// `Trace` admits everything.
#[derive(Clone, Copy, Debug, PartialEq, Eq, Structural)]
pub enum LevelFilter {
    Off,
    Trace,
    Debug,
    Info,
    Warn,
    Error,
}

/// The write destination of formatted lines; exactly one concrete variant is
/// active for a given platform build, `NoSink` stands for builds with no
/// guaranteed output path.
#[derive(Clone, Copy, Debug, PartialEq, Eq, Structural)]
pub enum Sink {
    ColorTerminal,
    ConsoleBridge,
    NoSink,
}

/// The installed backend: a severity filter together with the platform sink.
#[derive(Clone, Copy, Debug, PartialEq, Eq)]
pub struct Backend {
    pub filter: LevelFilter,
    pub sink: Sink,
}

/// Explicit process-wide logging state: the one-time guard flag and the
/// at-most-one installed backend.
#[derive(Clone, Copy, Debug, PartialEq, Eq)]
pub struct LogState {
    pub initialized: bool,
    pub backend: Option<Backend>,
}

/// The only fallible step: installation is refused when a backend is already
/// in place.
#[derive(Clone, Copy, Debug, PartialEq, Eq, Structural)]
pub enum ConfigError {
    AlreadyInstalled,
}

/// ANSI terminal colors used by the colorized sink.
#[derive(Clone, Copy, Debug, PartialEq, Eq, Structural)]
pub enum Color {
    White,
    Red,
    Green,
    Yellow,
    Cyan,
}

impl Color {
    /// The ANSI escape parameter of the color.
    pub open spec fn spec_v(&self) -> u8 {
        match self {
            Color::White => 0,
            Color::Red => 31,
            Color::Green => 32,
            Color::Yellow => 33,
            Color::Cyan => 36,
        }
    }

    /// The ANSI escape parameter of the color.
    pub fn v(&self) -> (r: u8)
        ensures
            r == self.spec_v(),
    {
        match self {
            Color::White => 0,
            Color::Red => 31,
            Color::Green => 32,
            Color::Yellow => 33,
            Color::Cyan => 36,
        }
    }
}

/// The severity color of the colorized sink: Trace and Debug stay default,
/// Info is green, Warn yellow, Error red.
pub open spec fn spec_color_of(l: Level) -> Color {
    match l {
        Level::Trace => Color::White,
        Level::Debug => Color::White,
        Level::Info => Color::Green,
        Level::Warn => Color::Yellow,
        Level::Error => Color::Red,
    }
}

/// Picks the severity color of a record.
pub fn color_of(l: Level) -> (c: Color)
    ensures
        c == spec_color_of(l),
{
    match l {
        Level::Trace => Color::White,
        Level::Debug => Color::White,
        Level::Info => Color::Green,
        Level::Warn => Color::Yellow,
        Level::Error => Color::Red,
    }
}

/// One log record as handed over by the logging facade: severity, the
/// namespaced origin, the source line of the call site, and the message.
pub struct Record {
    pub level: Level,
    pub target: String,
    pub line: u32,
    pub message: String,
}

impl LogState {
    /// A fresh process state: guard untriggered, no backend installed.
    pub fn new() -> (s: LogState)
        ensures
            !s.initialized,
            s.backend is None,
    {
        LogState { initialized: false, backend: None }
    }
}

/// The fixed level-to-filter table: 1 Trace, 2 Debug, 3 Info, 4 Warn,
/// 5 Error, anything else Off.
pub open spec fn spec_filter_of(level: int) -> LevelFilter {
    if level == 1 {
        LevelFilter::Trace
    } else if level == 2 {
        LevelFilter::Debug
    } else if level == 3 {
        LevelFilter::Info
    } else if level == 4 {
        LevelFilter::Warn
    } else if level == 5 {
        LevelFilter::Error
    } else {
        LevelFilter::Off
    }
}

/// Numeric rank of a filter: 0 admits nothing, 5 admits everything.
pub open spec fn filter_num(f: LevelFilter) -> int {
    match f {
        LevelFilter::Off => 0,
        LevelFilter::Error => 1,
        LevelFilter::Warn => 2,
        LevelFilter::Info => 3,
        LevelFilter::Debug => 4,
        LevelFilter::Trace => 5,
    }
}

/// Numeric rank of a record severity: 1 most severe, 5 most verbose.
pub open spec fn level_num(l: Level) -> int {
    match l {
        Level::Error => 1,
        Level::Warn => 2,
        Level::Info => 3,
        Level::Debug => 4,
        Level::Trace => 5,
    }
}

/// A record passes a filter when its severity rank is at most the filter's.
pub open spec fn spec_passes(f: LevelFilter, l: Level) -> bool {
    level_num(l) <= filter_num(f)
}

/// Exec rank of a filter.
pub fn filter_rank(f: LevelFilter) -> (n: u8)
    ensures
        n == filter_num(f),
{
    match f {
        LevelFilter::Off => 0,
        LevelFilter::Error => 1,
        LevelFilter::Warn => 2,
        LevelFilter::Info => 3,
        LevelFilter::Debug => 4,
        LevelFilter::Trace => 5,
    }
}

/// Exec rank of a severity.
pub fn level_rank(l: Level) -> (n: u8)
    ensures
        n == level_num(l),
{
    match l {
        Level::Error => 1,
        Level::Warn => 2,
        Level::Info => 3,
        Level::Debug => 4,
        Level::Trace => 5,
    }
}

/// Decides whether the installed filter admits a record of the given severity.
pub fn passes(f: LevelFilter, l: Level) -> (r: bool)
    ensures
        r == spec_passes(f, l),
{
    level_rank(l) <= filter_rank(f)
}

/// Exec form of the level-to-filter table.
pub fn filter_of(level: i32) -> (f: LevelFilter)
    ensures
        f == spec_filter_of(level as int),
{
    match level {
        1 => LevelFilter::Trace,
        2 => LevelFilter::Debug,
        3 => LevelFilter::Info,
        4 => LevelFilter::Warn,
        5 => LevelFilter::Error,
        _ => LevelFilter::Off,
    }
}

/// Configures the dispatcher: maps the level through the fixed table and
/// installs the (filter, sink) backend, unless one is already installed.
pub fn setup(state: &mut LogState, level: i32, sink: Sink) -> (r: Result<(), ConfigError>)
    ensures
        old(state).backend is Some ==> r == Err::<(), ConfigError>(ConfigError::AlreadyInstalled)
            && *final(state) == *old(state),
        old(state).backend is None ==> r == Ok::<(), ConfigError>(())
            && final(state).backend == Some(Backend { filter: spec_filter_of(level as int), sink })
            && final(state).initialized == old(state).initialized,
{
    match state.backend {
        Some(_) => Err(ConfigError::AlreadyInstalled),
        None => {
            let filter = filter_of(level);
            state.backend = Some(Backend { filter, sink });
            Ok(())
        },
    }
}

/// Severity of a record on the same scale as the input level: 1 Trace up to
/// 5 Error.
pub open spec fn severity(l: Level) -> int {
    match l {
        Level::Trace => 1,
        Level::Debug => 2,
        Level::Info => 3,
        Level::Warn => 4,
        Level::Error => 5,
    }
}

/// What each sink writes for a record formatted at a given timestamp: the
/// colorized line on the terminal, the plain line through the console
/// bridge, nothing where no sink is attached.
pub open spec fn spec_rendered(sink: Sink, ts: Seq<char>, rec: Record) -> Option<Seq<char>> {
    match sink {
        Sink::ColorTerminal => Some(
            spec_colored_line(ts, rec.level, rec.target@, rec.line as nat, rec.message@),
        ),
        Sink::ConsoleBridge => Some(
            spec_plain_line(ts, rec.level, rec.target@, rec.line as nat, rec.message@),
        ),
        Sink::NoSink => None,
    }
}

/// Formats a record for the given sink at the current local time; yields
/// nothing where no sink is attached.
pub fn render(sink: Sink, rec: &Record) -> (r: Option<String>)
    ensures
        r is Some <==> sink != Sink::NoSink,
        r matches Some(line) ==> exists|ts: Seq<char>|
            #[trigger] spec_rendered(sink, ts, *rec) == Some(line@),
{
    match sink {
        Sink::NoSink => None,
        Sink::ConsoleBridge => {
            let ts = now_timestamp();
            let line = format_plain_line(ts.as_str(), rec);
            proof {
                assert(spec_rendered(sink, ts@, *rec) == Some(line@));
            }
            Some(line)
        },
        Sink::ColorTerminal => {
            let ts = now_timestamp();
            let line = format_colored_line(ts.as_str(), rec);
            proof {
                assert(spec_rendered(sink, ts@, *rec) == Some(line@));
            }
            Some(line)
        },
    }
}

/// A record reaches the sink exactly when a backend is installed, its filter
/// admits the record's severity, and a concrete sink is attached.
pub open spec fn spec_emits(s: LogState, rec: Record) -> bool {
    &&& s.backend matches Some(b)
    &&& spec_passes(b.filter, rec.level)
    &&& b.sink != Sink::NoSink
}

/// Routes one record through the installed backend: drops it when no backend
/// is installed or the filter refuses it, otherwise formats it for the
/// backend's sink.
pub fn emit(state: &LogState, rec: &Record) -> (r: Option<String>)
    ensures
        r is Some <==> spec_emits(*state, *rec),
        state.backend matches Some(b) ==> (r matches Some(line) ==> exists|ts: Seq<char>|
            #[trigger] spec_rendered(b.sink, ts, *rec) == Some(line@)),
{
    match state.backend {
        None => None,
        Some(b) => {
            if passes(b.filter, rec.level) {
                render(b.sink, rec)
            } else {
                None
            }
        },
    }
}

/// For a recognized level the mapped filter admits exactly the records at or
/// above that level: with level 3, Info, Warn and Error pass while Trace and
/// Debug are dropped.
pub proof fn lemma_recognized_level_admits(level: int, l: Level)
    requires
        1 <= level <= 5,
    ensures
        spec_passes(spec_filter_of(level), l) <==> severity(l) >= level,
{
    assert(filter_num(spec_filter_of(level)) == 6 - level) by {
        if level == 1 {
        } else if level == 2 {
        } else if level == 3 {
        } else if level == 4 {
        } else {
        }
    }
    assert(level_num(l) == 6 - severity(l));
}

/// For any unrecognized level the table yields `Off`, which admits nothing.
pub proof fn lemma_unrecognized_level_disables(level: int, l: Level)
    requires
        !(1 <= level <= 5),
    ensures
        spec_filter_of(level) == LevelFilter::Off,
        !spec_passes(spec_filter_of(level), l),
{
}

} // verus!
