//! Formatting of messages for the Janus log.

use vstd::prelude::*;
use vstd::string::*;

verus! {

/// A Janus log level. Lower is more severe.
#[derive(Debug, Copy, Clone, PartialEq, Eq, Hash, PartialOrd, Ord, Structural)]
pub enum LogLevel {
    Fatal,
    Error,
    Warn,
    Info,
    Verb,
    Huge,
    Dbg,
}

/// The colors in which the label of a log level may be printed.
#[derive(Debug, Copy, Clone, PartialEq, Eq, Hash, Structural)]
pub enum LabelColor {
    Magenta,
    Red,
    Yellow,
}

/// The number by which Janus knows a log level: 1 for `Fatal` up to 7 for `Dbg`.
pub open spec fn level_code(level: LogLevel) -> int {
    match level {
        LogLevel::Fatal => 1,
        LogLevel::Error => 2,
        LogLevel::Warn => 3,
        LogLevel::Info => 4,
        LogLevel::Verb => 5,
        LogLevel::Huge => 6,
        LogLevel::Dbg => 7,
    }
}

/// The color of the label of a log level: the three most severe levels have one.
pub open spec fn level_color(level: LogLevel) -> Option<LabelColor> {
    match level {
        LogLevel::Fatal => Some(LabelColor::Magenta),
        LogLevel::Error => Some(LabelColor::Red),
        LogLevel::Warn => Some(LabelColor::Yellow),
        _ => None,
    }
}

/// The label of a log level: its name in capitals, in square brackets, and a space.
pub open spec fn level_label(level: LogLevel) -> Seq<char> {
    match level {
        LogLevel::Fatal => "[FATAL] "@,
        LogLevel::Error => "[ERR] "@,
        LogLevel::Warn => "[WARN] "@,
        LogLevel::Info => "[INFO] "@,
        LogLevel::Verb => "[VERB] "@,
        LogLevel::Huge => "[HUGE] "@,
        LogLevel::Dbg => "[DBG] "@,
    }
}

/// Whether messages of this level are printed with their label: those at
/// `Warn` and the more severe ones are.
pub open spec fn is_labelled(level: LogLevel) -> bool {
    level_code(level) <= level_code(LogLevel::Warn)
}

impl LogLevel {
    /// The number by which Janus knows this level.
    pub fn code(self) -> (code: i32)
        ensures
            code == level_code(self),
    {
        match self {
            LogLevel::Fatal => 1,
            LogLevel::Error => 2,
            LogLevel::Warn => 3,
            LogLevel::Info => 4,
            LogLevel::Verb => 5,
            LogLevel::Huge => 6,
            LogLevel::Dbg => 7,
        }
    }

    /// The level that Janus knows by `code`, if there is one.
    pub fn from_code(code: i32) -> (level: Option<LogLevel>)
        ensures
            level matches Some(l) ==> level_code(l) == code,
            level is Some <==> 1 <= code <= 7,
    {
        if code == 1 {
            Some(LogLevel::Fatal)
        } else if code == 2 {
            Some(LogLevel::Error)
        } else if code == 3 {
            Some(LogLevel::Warn)
        } else if code == 4 {
            Some(LogLevel::Info)
        } else if code == 5 {
            Some(LogLevel::Verb)
        } else if code == 6 {
            Some(LogLevel::Huge)
        } else if code == 7 {
            Some(LogLevel::Dbg)
        } else {
            None
        }
    }

    /// The color associated with each log level's label (if colors are enabled).
    pub fn color(self) -> (color: Option<LabelColor>)
        ensures
            color == level_color(self),
    {
        match self {
            LogLevel::Fatal => Some(LabelColor::Magenta),
            LogLevel::Error => Some(LabelColor::Red),
            LogLevel::Warn => Some(LabelColor::Yellow),
            _ => None,
        }
    }

    /// The label printed in front of a message of this level.
    pub fn label(self) -> (label: &'static str)
        ensures
            label@ == level_label(self),
    {
        match self {
            LogLevel::Fatal => "[FATAL] ",
            LogLevel::Error => "[ERR] ",
            LogLevel::Warn => "[WARN] ",
            LogLevel::Info => "[INFO] ",
            LogLevel::Verb => "[VERB] ",
            LogLevel::Huge => "[HUGE] ",
            LogLevel::Dbg => "[DBG] ",
        }
    }

    /// Whether a message of this level is logged when Janus logs up to
    /// level `threshold`.
    pub fn enabled(self, threshold: i32) -> (yes: bool)
        ensures
            yes == (level_code(self) <= threshold),
    {
        self.code() <= threshold
    }
}

/// The first year that a timestamp can hold.
pub const MIN_YEAR: i32 = -262143;

/// The last year that a timestamp can hold.
pub const MAX_YEAR: i32 = 262142;

/// Whether `year` has a 29th of February in the proleptic Gregorian calendar.
pub open spec fn is_leap_year(year: int) -> bool {
    year % 4 == 0 && (year % 100 != 0 || year % 400 == 0)
}

/// The number of days of a month.
pub open spec fn days_in_month(year: int, month: int) -> int {
    if month == 2 {
        if is_leap_year(year) {
            29
        } else {
            28
        }
    } else if month == 4 || month == 6 || month == 9 || month == 11 {
        30
    } else {
        31
    }
}

/// Whether the six numbers name a second of a day of the calendar.
pub open spec fn is_calendar_time(
    year: int,
    month: int,
    day: int,
    hour: int,
    minute: int,
    second: int,
) -> bool {
    &&& MIN_YEAR <= year <= MAX_YEAR
    &&& 1 <= month <= 12
    &&& 1 <= day <= days_in_month(year, month)
    &&& 0 <= hour < 24
    &&& 0 <= minute < 60
    &&& 0 <= second < 60
}

/// A local date and time of day, to the second.
#[derive(Debug, Copy, Clone, PartialEq, Eq, Hash)]
pub struct Timestamp {
    year: i32,
    month: u32,
    day: u32,
    hour: u32,
    minute: u32,
    second: u32,
}

/// What a timestamp holds.
pub ghost struct TimestampView {
    pub year: int,
    pub month: int,
    pub day: int,
    pub hour: int,
    pub minute: int,
    pub second: int,
}

impl View for Timestamp {
    type V = TimestampView;

    closed spec fn view(&self) -> TimestampView {
        TimestampView {
            year: self.year as int,
            month: self.month as int,
            day: self.day as int,
            hour: self.hour as int,
            minute: self.minute as int,
            second: self.second as int,
        }
    }
}

/// The number of days of a month of a year that a timestamp can hold.
fn month_length(year: i32, month: u32) -> (days: u32)
    requires
        MIN_YEAR <= year <= MAX_YEAR,
    ensures
        days == days_in_month(year as int, month as int),
{
    if month == 2 {
        // 262400 is a multiple of 400 and lifts every year above zero.
        let lifted: u32 = (year + 262400) as u32;
        if lifted % 4 == 0 && (lifted % 100 != 0 || lifted % 400 == 0) {
            29
        } else {
            28
        }
    } else if month == 4 || month == 6 || month == 9 || month == 11 {
        30
    } else {
        31
    }
}

impl Timestamp {
    #[verifier::type_invariant]
    spec fn well_formed(self) -> bool {
        is_calendar_time(
            self.year as int,
            self.month as int,
            self.day as int,
            self.hour as int,
            self.minute as int,
            self.second as int,
        )
    }

    /// The timestamp of the given second, if the six numbers name one.
    pub fn new(year: i32, month: u32, day: u32, hour: u32, minute: u32, second: u32) -> (stamp:
        Option<Timestamp>)
        ensures
            stamp is Some <==> is_calendar_time(
                year as int,
                month as int,
                day as int,
                hour as int,
                minute as int,
                second as int,
            ),
            stamp matches Some(t) ==> t@ == (TimestampView {
                year: year as int,
                month: month as int,
                day: day as int,
                hour: hour as int,
                minute: minute as int,
                second: second as int,
            }),
    {
        if year < MIN_YEAR || year > MAX_YEAR || month < 1 || month > 12 || day < 1 || hour >= 24
            || minute >= 60 || second >= 60 {
            return None;
        }
        if day > month_length(year, month) {
            return None;
        }
        Some(Timestamp { year, month, day, hour, minute, second })
    }

    /// The six numbers of this timestamp: year, month, day, hour, minute
    /// and second. They name a second of a day of the calendar.
    pub fn parts(&self) -> (parts: (i32, u32, u32, u32, u32, u32))
        ensures
            parts.0 == self@.year,
            parts.1 == self@.month,
            parts.2 == self@.day,
            parts.3 == self@.hour,
            parts.4 == self@.minute,
            parts.5 == self@.second,
            is_calendar_time(
                self@.year,
                self@.month,
                self@.day,
                self@.hour,
                self@.minute,
                self@.second,
            ),
    {
        proof {
            use_type_invariant(self);
        }
        (self.year, self.month, self.day, self.hour, self.minute, self.second)
    }
}

/// The pattern of the timestamps of the log: the day of the week, the
/// month, the day, the time of day and the year, in square brackets.
pub open spec fn stamp_pattern() -> Seq<char> {
    "[%a %b %e %T %Y]"@
}

/// What the chrono crate prints for the given second under `pattern`.
pub uninterp spec fn formatted_time(
    pattern: Seq<char>,
    year: int,
    month: int,
    day: int,
    hour: int,
    minute: int,
    second: int,
) -> Seq<char>;

/// The text of a timestamp in the log.
pub open spec fn timestamp_text(stamp: TimestampView) -> Seq<char> {
    formatted_time(
        stamp_pattern(),
        stamp.year,
        stamp.month,
        stamp.day,
        stamp.hour,
        stamp.minute,
        stamp.second,
    )
}

/// Calls `NaiveDate::from_ymd_opt`, `NaiveDate::and_hms_opt` and
/// `NaiveDateTime::format` of the chrono crate. The first two give a value
/// for every second of the calendar, which is what is asked of the six
/// numbers. The text is whatever chrono prints for that value under the
/// pattern, which depends on the pattern and the six numbers alone. It is
/// asked for the pattern of the log only, whose items chrono knows.
#[verifier::external_body]
fn format_time(
    pattern: &str,
    year: i32,
    month: u32,
    day: u32,
    hour: u32,
    minute: u32,
    second: u32,
) -> (text: String)
    requires
        pattern@ == stamp_pattern(),
        is_calendar_time(
            year as int,
            month as int,
            day as int,
            hour as int,
            minute as int,
            second as int,
        ),
    ensures
        text@ == formatted_time(
            pattern@,
            year as int,
            month as int,
            day as int,
            hour as int,
            minute as int,
            second as int,
        ),
{
    let date = chrono::NaiveDate::from_ymd_opt(year, month, day).unwrap();
    let time = date.and_hms_opt(hour, minute, second).unwrap();
    time.format(pattern).to_string()
}

impl Timestamp {
    /// The text of this timestamp in the log.
    pub fn format(&self) -> (text: String)
        ensures
            text@ == timestamp_text(self@),
    {
        let (year, month, day, hour, minute, second) = self.parts();
        format_time("[%a %b %e %T %Y]", year, month, day, hour, minute, second)
    }
}

/// The escape character that starts a terminal control sequence.
pub open spec fn escape() -> char {
    '\u{1b}'
}

/// The number of a color in a terminal control sequence.
pub open spec fn color_code(color: LabelColor) -> Seq<char> {
    match color {
        LabelColor::Magenta => seq!['3', '5'],
        LabelColor::Red => seq!['3', '1'],
        LabelColor::Yellow => seq!['3', '3'],
    }
}

/// `text` between the control sequence that switches to `color` and the one
/// that resets the terminal.
pub open spec fn painted(text: Seq<char>, color: LabelColor) -> Seq<char> {
    seq![escape(), '['] + color_code(color) + seq!['m'] + text + seq![escape(), '[', '0', 'm']
}

/// Calls `Colorize::color` of the colored crate and prints the result. The
/// crate decides from the environment of the process whether it colors at
/// all: a text without an escape character comes back either unchanged or
/// between the control sequences of the color. Of a text that holds an
/// escape character nothing is claimed.
#[verifier::external_body]
fn paint(text: &str, color: LabelColor) -> (out: String)
    ensures
        !text@.contains(escape()) ==> out@ == text@ || out@ == painted(text@, color),
{
    let tint = match color {
        LabelColor::Magenta => colored::Color::Magenta,
        LabelColor::Red => colored::Color::Red,
        LabelColor::Yellow => colored::Color::Yellow,
    };
    format!("{}", colored::Colorize::color(text, tint))
}

/// A line of the log: the timestamp and a space, if there is a timestamp;
/// the label, if there is one; the message; a line feed.
pub open spec fn log_line(
    stamp: Option<Seq<char>>,
    label: Option<Seq<char>>,
    message: Seq<char>,
) -> Seq<char> {
    (match stamp {
        Some(s) => s + seq![' '],
        None => Seq::<char>::empty(),
    }) + (match label {
        Some(l) => l,
        None => Seq::<char>::empty(),
    }) + message + seq!['\n']
}

/// Puts a line of the log together from its parts.
pub fn assemble_log(stamp: Option<&str>, label: Option<&str>, message: &str) -> (line: String)
    ensures
        line@ == log_line(
            match stamp {
                Some(s) => Some(s@),
                None => None,
            },
            match label {
                Some(l) => Some(l@),
                None => None,
            },
            message@,
        ),
{
    let mut line = String::new();
    proof {
        reveal_strlit(" ");
        reveal_strlit("\n");
    }
    if let Some(s) = stamp {
        line.append(s);
        line.append(" ");
    }
    if let Some(l) = label {
        line.append(l);
    }
    line.append(message);
    line.append("\n");
    line
}

/// How a message is laid out in the log: whether the line starts with the
/// time, whether the label of a severe message is colored, and the clock
/// that tells the time.
#[derive(Debug, Clone)]
pub struct LogParameters<C> {
    pub log_timestamps: bool,
    pub log_colors: bool,
    pub clock: C,
}

impl<C> LogParameters<C> {
    /// The parameters that Janus asks for by its two settings, each of
    /// which is switched on by the value 1.
    pub fn new(timestamps: i32, colors: i32, clock: C) -> (params: LogParameters<C>)
        ensures
            params.log_timestamps == (timestamps == 1),
            params.log_colors == (colors == 1),
            params.clock == clock,
    {
        LogParameters { log_timestamps: timestamps == 1, log_colors: colors == 1, clock }
    }
}

/// Whether `stamp` is a timestamp that a line printed under `params` may
/// start with: none where timestamps are off, else the text of a time that
/// the clock may tell.
pub open spec fn is_log_stamp<C: Fn() -> Timestamp>(
    params: LogParameters<C>,
    stamp: Option<Seq<char>>,
) -> bool {
    if params.log_timestamps {
        exists|t: Timestamp| #[trigger]
            call_ensures(params.clock, (), t) && stamp == Some(timestamp_text(t@))
    } else {
        stamp is None
    }
}

/// Whether `label` is a label that a message of `level` may be printed
/// with: none below `Warn`; else the label of the level, which may stand
/// between the control sequences of its color where colors are on.
pub open spec fn is_log_label(level: LogLevel, colors: bool, label: Option<Seq<char>>) -> bool {
    if is_labelled(level) {
        ||| label == Some(level_label(level))
        ||| (colors && level_color(level) is Some && label == Some(
            painted(level_label(level), level_color(level).unwrap()),
        ))
    } else {
        label is None
    }
}

/// No label holds an escape character.
proof fn lemma_labels_are_plain(level: LogLevel)
    ensures
        !level_label(level).contains(escape()),
{
    reveal_strlit("[FATAL] ");
    reveal_strlit("[ERR] ");
    reveal_strlit("[WARN] ");
    reveal_strlit("[INFO] ");
    reveal_strlit("[VERB] ");
    reveal_strlit("[HUGE] ");
    reveal_strlit("[DBG] ");
}

/// Prints a message at the given log level into an owned string, using the
/// provided parameters to control how the log message is formatted.
pub fn print_log<C: Fn() -> Timestamp>(level: LogLevel, message: &str, params: LogParameters<C>) -> (line:
    String)
    requires
        params.log_timestamps ==> call_requires(params.clock, ()),
    ensures
        exists|stamp: Option<Seq<char>>, label: Option<Seq<char>>|
            is_log_stamp(params, stamp) && is_log_label(level, params.log_colors, label) && line@
                == #[trigger] log_line(stamp, label, message@),
{
    let stamp: Option<String> = if params.log_timestamps {
        let now = (params.clock)();
        Some(now.format())
    } else {
        None
    };
    let label: Option<String> = if level.code() <= 3 {
        let plain = level.label();
        proof {
            lemma_labels_are_plain(level);
        }
        match level.color() {
            Some(color) => {
                if params.log_colors {
                    Some(paint(plain, color))
                } else {
                    Some(String::from_str(plain))
                }
            },
            None => Some(String::from_str(plain)),
        }
    } else {
        None
    };
    let stamp_text: Option<&str> = match &stamp {
        Some(s) => Some(s.as_str()),
        None => None,
    };
    let label_text: Option<&str> = match &label {
        Some(l) => Some(l.as_str()),
        None => None,
    };
    let line = assemble_log(stamp_text, label_text, message);
    proof {
        let stamp_view: Option<Seq<char>> = match stamp {
            Some(s) => Some(s@),
            None => None,
        };
        let label_view: Option<Seq<char>> = match label {
            Some(l) => Some(l@),
            None => None,
        };
        assert(is_log_stamp(params, stamp_view));
        assert(is_log_label(level, params.log_colors, label_view));
    }
    line
}

} // verus!
