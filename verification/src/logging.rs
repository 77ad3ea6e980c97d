//! Log levels and log entries.

use vstd::prelude::*;
use crate::clock::unix_millis_now;

verus! {

/// Log level, from the most verbose to the most severe.
#[derive(Debug, Clone, Copy, PartialEq, Eq, Structural, PartialOrd, Ord, Hash)]
pub enum LogLevel {
    Trace,
    Debug,
    Info,
    Warn,
    Error,
}

/// The code of `c` with ASCII capitals taken to lower case.
pub open spec fn lower_code(c: char) -> u32 {
    let u = c as u32;
    if 65 <= u <= 90 { (u + 32) as u32 } else { u }
}

/// `s` spells the lower-case ASCII word `w`, ignoring ASCII case.
pub open spec fn word_matches(s: Seq<char>, w: Seq<char>) -> bool {
    &&& s.len() == w.len()
    &&& forall|i: int| 0 <= i < s.len() ==> lower_code(#[trigger] s[i]) == w[i] as u32
}

/// The level a configuration string names; anything unknown is `Info`.
pub open spec fn spec_level_from(s: Seq<char>) -> LogLevel {
    if word_matches(s, seq!['t', 'r', 'a', 'c', 'e']) {
        LogLevel::Trace
    } else if word_matches(s, seq!['d', 'e', 'b', 'u', 'g']) {
        LogLevel::Debug
    } else if word_matches(s, seq!['i', 'n', 'f', 'o']) {
        LogLevel::Info
    } else if word_matches(s, seq!['w', 'a', 'r', 'n']) {
        LogLevel::Warn
    } else if word_matches(s, seq!['e', 'r', 'r', 'o', 'r']) {
        LogLevel::Error
    } else {
        LogLevel::Info
    }
}

/// Whether `s` spells `w` (a lower-case ASCII word), ignoring ASCII case.
fn matches_word(s: &str, w: &[char]) -> (r: bool)
    requires
        forall|i: int| 0 <= i < w@.len() ==> 97 <= (#[trigger] w@[i]) as u32 <= 122,
    ensures
        r == word_matches(s@, w@),
{
    let n = s.unicode_len();
    if n != w.len() {
        return false;
    }
    let mut i: usize = 0;
    while i < n
        invariant
            n == s@.len(),
            n == w@.len(),
            i <= n,
            forall|j: int| 0 <= j < w@.len() ==> 97 <= (#[trigger] w@[j]) as u32 <= 122,
            forall|j: int| 0 <= j < i ==> lower_code(#[trigger] s@[j]) == w@[j] as u32,
        decreases n - i,
    {
        let c = s.get_char(i) as u32;
        let t = w[i] as u32;
        let lc = if 65 <= c && c <= 90 { c + 32 } else { c };
        if lc != t {
            return false;
        }
        i = i + 1;
    }
    true
}

impl LogLevel {
    /// Parses a level name, ignoring case; unknown names give `Info`.
    pub fn from_str(s: &str) -> (l: Self)
        ensures
            l == spec_level_from(s@),
    {
        let trace = ['t', 'r', 'a', 'c', 'e'];
        let debug = ['d', 'e', 'b', 'u', 'g'];
        let info = ['i', 'n', 'f', 'o'];
        let warn = ['w', 'a', 'r', 'n'];
        let error = ['e', 'r', 'r', 'o', 'r'];
        assert(trace@ == seq!['t', 'r', 'a', 'c', 'e']);
        assert(debug@ == seq!['d', 'e', 'b', 'u', 'g']);
        assert(info@ == seq!['i', 'n', 'f', 'o']);
        assert(warn@ == seq!['w', 'a', 'r', 'n']);
        assert(error@ == seq!['e', 'r', 'r', 'o', 'r']);
        if matches_word(s, &trace) {
            LogLevel::Trace
        } else if matches_word(s, &debug) {
            LogLevel::Debug
        } else if matches_word(s, &info) {
            LogLevel::Info
        } else if matches_word(s, &warn) {
            LogLevel::Warn
        } else if matches_word(s, &error) {
            LogLevel::Error
        } else {
            LogLevel::Info
        }
    }

    /// The upper-case name the level is printed as.
    pub fn as_str(&self) -> (s: &'static str)
        ensures
            s@ == (match *self {
                LogLevel::Trace => "TRACE"@,
                LogLevel::Debug => "DEBUG"@,
                LogLevel::Info => "INFO"@,
                LogLevel::Warn => "WARN"@,
                LogLevel::Error => "ERROR"@,
            }),
    {
        match self {
            LogLevel::Trace => "TRACE",
            LogLevel::Debug => "DEBUG",
            LogLevel::Info => "INFO",
            LogLevel::Warn => "WARN",
            LogLevel::Error => "ERROR",
        }
    }
}

/// The text `YYYY-MM-DD HH:MM:SS.mmm` of the UTC time `ms` milliseconds
/// after the Unix epoch, as chrono formats it; empty when chrono cannot
/// represent that time.
pub uninterp spec fn utc_timestamp_text(ms: i64) -> Seq<char>;

/// `chrono::DateTime::from_timestamp_millis(ms)` formatted with
/// `"%Y-%m-%d %H:%M:%S%.3f"`, or an empty string when chrono gives no
/// date-time for `ms`. The text is named, not written out.
#[verifier::external_body]
fn format_utc_millis(ms: i64) -> (s: String)
    ensures
        s@ == utc_timestamp_text(ms),
{
    match chrono::DateTime::from_timestamp_millis(ms) {
        Some(t) => t.format("%Y-%m-%d %H:%M:%S%.3f").to_string(),
        None => String::new(),
    }
}

/// The current wall-clock time in UTC as `YYYY-MM-DD HH:MM:SS.mmm`. The
/// clock is read as milliseconds since the epoch, 0 when it reads earlier.
fn current_timestamp() -> (s: String)
    ensures
        exists|ms: i64| ms >= 0 && s@ == utc_timestamp_text(ms),
{
    let ms = unix_millis_now();
    let clamped: i64 = if ms <= 0x7fff_ffff_ffff_ffff { ms as i64 } else { 0x7fff_ffff_ffff_ffff };
    format_utc_millis(clamped)
}

/// One log line.
#[derive(Debug, Clone)]
pub struct LogEntry {
    pub timestamp: String,
    pub level: LogLevel,
    pub target: String,
    pub message: String,
}

impl LogEntry {
    /// An entry stamped with the current time.
    pub fn new(level: LogLevel, target: &str, message: String) -> (e: Self)
        ensures
            exists|ms: i64| ms >= 0 && e.timestamp@ == utc_timestamp_text(ms),
            e.level == level,
            e.target@ == target@,
            e.message@ == message@,
    {
        LogEntry::stamped(current_timestamp(), level, target, message)
    }

    /// An entry with the given timestamp.
    pub fn stamped(timestamp: String, level: LogLevel, target: &str, message: String) -> (e: Self)
        ensures
            e.timestamp@ == timestamp@,
            e.level == level,
            e.target@ == target@,
            e.message@ == message@,
    {
        LogEntry { timestamp, level, target: target.to_owned(), message }
    }
}

} // verus!
