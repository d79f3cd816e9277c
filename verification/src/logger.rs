//! Log-line composition: level filtering, timestamp formatting and
//! console coloring. The host owns the log files and the process-wide
//! logging hookup; it feeds records through these functions and writes
//! the returned lines out.

use vstd::prelude::*;
use vstd::string::StrSliceExecFns;
use vstd::string::StringExecFns;
use crate::text::push_padded;
use crate::text::spec_padded;
use chrono::Datelike;
use chrono::Timelike;

verus! {

/// Severity of a log record, most severe first.
#[derive(Clone, Copy, PartialEq, Eq, Structural, Debug)]
pub enum Level {
    Error,
    Warn,
    Info,
    Debug,
    Trace,
}

/// Numeric severity rank; smaller is more severe.
pub open spec fn level_rank(level: Level) -> int {
    match level {
        Level::Error => 1,
        Level::Warn => 2,
        Level::Info => 3,
        Level::Debug => 4,
        Level::Trace => 5,
    }
}

/// The level's display name.
pub open spec fn spec_level_name(level: Level) -> Seq<char> {
    match level {
        Level::Error => "ERROR"@,
        Level::Warn => "WARN"@,
        Level::Info => "INFO"@,
        Level::Debug => "DEBUG"@,
        Level::Trace => "TRACE"@,
    }
}

/// The level's display name, as printed in every log line.
pub fn level_name(level: Level) -> (name: &'static str)
    ensures
        name@ == spec_level_name(level),
{
    match level {
        Level::Error => "ERROR",
        Level::Warn => "WARN",
        Level::Info => "INFO",
        Level::Debug => "DEBUG",
        Level::Trace => "TRACE",
    }
}

/// The terminal color code a level is painted with on the console.
pub open spec fn spec_level_color(level: Level) -> Seq<char> {
    match level {
        Level::Error => "31"@,
        Level::Warn => "33"@,
        Level::Info => "32"@,
        Level::Debug => "35"@,
        Level::Trace => "36"@,
    }
}

/// The color code used for the timestamp on the console.
pub open spec fn spec_time_color() -> Seq<char> {
    "38;5;245"@
}

fn level_color(level: Level) -> (code: &'static str)
    ensures
        code@ == spec_level_color(level),
{
    match level {
        Level::Error => "31",
        Level::Warn => "33",
        Level::Info => "32",
        Level::Debug => "35",
        Level::Trace => "36",
    }
}

/// Text wrapped in a terminal select-graphic-rendition sequence: the
/// escape introducer, the code, the text, then the reset sequence.
pub open spec fn spec_paint(code: Seq<char>, text: Seq<char>) -> Seq<char> {
    "\u{1b}["@ + code + "m"@ + text + "\u{1b}[0m"@
}

/// Wraps text in the terminal color sequence for the given code and a
/// trailing reset.
pub fn sgr_paint(code: &str, text: &str) -> (painted: String)
    ensures
        painted@ == spec_paint(code@, text@),
{
    let mut out = String::new();
    out.append("\u{1b}[");
    out.append(code);
    out.append("m");
    out.append(text);
    out.append("\u{1b}[0m");
    out
}

/// Records at this level or more severe are written; less severe ones
/// are dropped.
pub open spec fn spec_enabled(level: Level) -> bool {
    level_rank(level) <= level_rank(Level::Info)
}

/// The composed log line: `[time] LEVEL: message`, with the time and
/// the level name painted when coloring is on.
pub open spec fn spec_output(
    time: Seq<char>,
    level: Level,
    message: Seq<char>,
    colored: bool,
) -> Seq<char> {
    if colored {
        "["@ + spec_paint(spec_time_color(), time) + "] "@ + spec_paint(
            spec_level_color(level),
            spec_level_name(level),
        ) + ": "@ + message
    } else {
        "["@ + time + "] "@ + spec_level_name(level) + ": "@ + message
    }
}

/// Composes one log line from a timestamp, a level and a message,
/// optionally painting the timestamp and the level name for a color
/// console.
pub fn output(time: &str, level: Level, message: &str, colored: bool) -> (line: String)
    ensures
        line@ == spec_output(time@, level, message@, colored),
{
    let mut line = String::new();
    line.append("[");
    if colored {
        let painted_time = sgr_paint("38;5;245", time);
        line.append(painted_time.as_str());
        line.append("] ");
        let painted_level = sgr_paint(level_color(level), level_name(level));
        line.append(painted_level.as_str());
    } else {
        line.append(time);
        line.append("] ");
        line.append(level_name(level));
    }
    line.append(": ");
    line.append(message);
    line
}

/// The console side of the logger; the host carries the files.
pub struct Logger {
    pub console_colored: bool,
}

impl Logger {
    /// A record is written exactly when its level is at least as
    /// severe as the informational level.
    pub fn enabled(&self, level: Level) -> (write_it: bool)
        ensures
            write_it == spec_enabled(level),
    {
        match level {
            Level::Error => true,
            Level::Warn => true,
            Level::Info => true,
            Level::Debug => false,
            Level::Trace => false,
        }
    }

    /// Composes the line written to the log files and the line printed
    /// on the console; the two differ only when coloring is on.
    pub fn render(&self, time: &str, level: Level, message: &str) -> (lines: (String, String))
        ensures
            lines.0@ == spec_output(time@, level, message@, false),
            lines.1@ == spec_output(time@, level, message@, self.console_colored),
    {
        let file_line = output(time, level, message, false);
        if self.console_colored {
            let console_line = output(time, level, message, true);
            (file_line, console_line)
        } else {
            let console_line = file_line.clone();
            (file_line, console_line)
        }
    }
}

/// A character sequence with every newline dropped and everything
/// else kept in order.
pub open spec fn spec_strip_newlines(s: Seq<char>) -> Seq<char> {
    s.filter(|c: char| c != '\n')
}

/// How the stripped sequence grows by one character.
proof fn lemma_strip_step(s: Seq<char>)
    requires
        s.len() > 0,
    ensures
        spec_strip_newlines(s) == (if s.last() != '\n' {
            spec_strip_newlines(s.drop_last()).push(s.last())
        } else {
            spec_strip_newlines(s.drop_last())
        }),
{
    reveal_with_fuel(Seq::<char>::filter, 2);
}

/// The message with every newline removed, keeping all other
/// characters in order.
pub fn strip_newlines(message: &str) -> (stripped: String)
    ensures
        stripped@ == spec_strip_newlines(message@),
{
    let n = message.unicode_len();
    let mut out = String::new();
    for i in 0..n
        invariant
            n == message@.len(),
            out@ == spec_strip_newlines(message@.subrange(0, i as int)),
    {
        let c = message.get_char(i);
        if c != '\n' {
            let piece = message.substring_char(i, i + 1);
            out.append(piece);
        }
        proof {
            let pre = message@.subrange(0, i as int);
            let cur = message@.subrange(0, i + 1);
            assert(cur.drop_last() =~= pre);
            assert(cur.last() == message@[i as int]);
            lemma_strip_step(cur);
            if message@[i as int] != '\n' {
                assert(message@.subrange(i as int, i + 1) =~= seq![message@[i as int]]);
                assert(spec_strip_newlines(pre) + seq![message@[i as int]]
                    =~= spec_strip_newlines(pre).push(message@[i as int]));
            }
        }
    }
    assert(message@.subrange(0, n as int) =~= message@);
    out
}

/// One reading of the machine's wall clock, split into calendar and
/// time-of-day components.
#[derive(Clone, Copy, PartialEq, Eq, Structural, Debug)]
pub struct ClockParts {
    pub year: i32,
    pub month: u32,
    pub day: u32,
    pub hour: u32,
    pub minute: u32,
    pub second: u32,
    pub nanosecond: u32,
}

/// What any wall-clock reading satisfies: calendar components in
/// range, and the nanosecond below two billion (values of a billion or
/// more stand for a leap second).
pub open spec fn wf_clock(p: ClockParts) -> bool {
    &&& 1 <= p.month <= 12
    &&& 1 <= p.day <= 31
    &&& p.hour < 24
    &&& p.minute < 60
    &&& p.second < 60
    &&& p.nanosecond < 2_000_000_000
}

/// Relies on chrono's `Local::now` and its `Datelike` / `Timelike`
/// accessors: month is 1 to 12, day of month 1 to 31, hour 0 to 23,
/// minute and second 0 to 59, and the nanosecond counts from the whole
/// non-leap second, so it stays below two billion. The reading itself
/// depends on the machine's clock, so nothing more is promised.
#[verifier::external_body]
fn read_local_clock() -> (parts: ClockParts)
    ensures
        wf_clock(parts),
{
    let now = chrono::Local::now();
    ClockParts {
        year: now.year(),
        month: now.month(),
        day: now.day(),
        hour: now.hour(),
        minute: now.minute(),
        second: now.second(),
        nanosecond: now.nanosecond(),
    }
}

/// The time line `hh:mm:ss.mmm`: two-digit hour, minute and second and
/// the zero-padded milliseconds of the reading.
pub open spec fn spec_time_line(p: ClockParts) -> Seq<char> {
    spec_padded(p.hour as nat, 2) + ":"@ + spec_padded(p.minute as nat, 2) + ":"@ + spec_padded(
        p.second as nat,
        2,
    ) + "."@ + spec_padded((p.nanosecond / 1_000_000) as nat, 3)
}

/// The date-and-time line `yyyy-mm-dd-hh.mm.ss` of the reading.
pub open spec fn spec_date_line(p: ClockParts) -> Seq<char> {
    spec_padded(p.year as nat, 4) + "-"@ + spec_padded(p.month as nat, 2) + "-"@ + spec_padded(
        p.day as nat,
        2,
    ) + "-"@ + spec_padded(p.hour as nat, 2) + "."@ + spec_padded(p.minute as nat, 2) + "."@
        + spec_padded(p.second as nat, 2)
}

/// Formats a clock reading as `hh:mm:ss.mmm`.
pub fn format_clock_time(p: ClockParts) -> (line: String)
    requires
        wf_clock(p),
    ensures
        line@ == spec_time_line(p),
{
    let mut line = String::new();
    push_padded(&mut line, p.hour, 2);
    line.append(":");
    push_padded(&mut line, p.minute, 2);
    line.append(":");
    push_padded(&mut line, p.second, 2);
    line.append(".");
    push_padded(&mut line, p.nanosecond / 1_000_000, 3);
    line
}

/// Formats a clock reading as `yyyy-mm-dd-hh.mm.ss`, for the archived
/// log's file name.
pub fn format_clock_date_time(p: ClockParts) -> (line: String)
    requires
        wf_clock(p),
        0 <= p.year < 10000,
    ensures
        line@ == spec_date_line(p),
{
    let mut line = String::new();
    push_padded(&mut line, p.year as u32, 4);
    line.append("-");
    push_padded(&mut line, p.month, 2);
    line.append("-");
    push_padded(&mut line, p.day, 2);
    line.append("-");
    push_padded(&mut line, p.hour, 2);
    line.append(".");
    push_padded(&mut line, p.minute, 2);
    line.append(".");
    push_padded(&mut line, p.second, 2);
    line
}

/// Reads the wall clock and formats it as `hh:mm:ss.mmm`. The reading
/// depends on the machine, so the line is only pinned down relative to
/// some well-formed reading.
pub fn format_hhmmssnnn() -> (line: String)
    ensures
        exists|p: ClockParts| wf_clock(p) && line@ == spec_time_line(p),
{
    let parts = read_local_clock();
    format_clock_time(parts)
}

/// Reads the wall clock and formats it as `yyyy-mm-dd-hh.mm.ss`, or
/// yields nothing when the clock reports a year outside four digits.
pub fn format_yyyymmdd_hhmmss() -> (line: Option<String>)
    ensures
        line matches Some(s) ==> exists|p: ClockParts|
            wf_clock(p) && 0 <= p.year < 10000 && s@ == spec_date_line(p),
{
    let parts = read_local_clock();
    if 0 <= parts.year && parts.year < 10000 {
        Some(format_clock_date_time(parts))
    } else {
        None
    }
}

} // verus!
