//! Civil timestamps as plain fields, and the exact textual forms the log
//! writer uses: `YYYY-MM-DD HH:MM:SS` inside a log line, and the compact
//! `YYYYMMDD-HHMMSS` in an exported log's file name.

use vstd::prelude::*;
use vstd::string::StringExecFns;

verus! {

/// A civil date and time, held as plain fields so the formatting below can
/// be stated exactly.
pub struct Timestamp {
    pub year: u16,
    pub month: u8,
    pub day: u8,
    pub hour: u8,
    pub minute: u8,
    pub second: u8,
}

impl Timestamp {
    /// The ranges a civil timestamp keeps to; the year is bounded so that
    /// four digits always render it.
    pub open spec fn wf(&self) -> bool {
        &&& self.year <= 9999
        &&& 1 <= self.month <= 12
        &&& 1 <= self.day <= 31
        &&& self.hour <= 23
        &&& self.minute <= 59
        &&& self.second <= 59
    }
}

/// The decimal digit character for `d`.
pub open spec fn digit_char(d: int) -> char
    recommends
        0 <= d <= 9,
{
    if d == 0 {
        '0'
    } else if d == 1 {
        '1'
    } else if d == 2 {
        '2'
    } else if d == 3 {
        '3'
    } else if d == 4 {
        '4'
    } else if d == 5 {
        '5'
    } else if d == 6 {
        '6'
    } else if d == 7 {
        '7'
    } else if d == 8 {
        '8'
    } else {
        '9'
    }
}

/// `n` rendered as exactly two decimal digits, zero-padded.
pub open spec fn spec_two_digits(n: int) -> Seq<char> {
    seq![digit_char(n / 10), digit_char(n % 10)]
}

/// `n` rendered as exactly four decimal digits, zero-padded.
pub open spec fn spec_four_digits(n: int) -> Seq<char> {
    seq![
        digit_char(n / 1000),
        digit_char((n / 100) % 10),
        digit_char((n / 10) % 10),
        digit_char(n % 10),
    ]
}

/// The log line timestamp form, `YYYY-MM-DD HH:MM:SS`.
pub open spec fn spec_timestamp(ts: Timestamp) -> Seq<char> {
    spec_four_digits(ts.year as int) + "-"@ + spec_two_digits(ts.month as int) + "-"@
        + spec_two_digits(ts.day as int) + " "@ + spec_two_digits(ts.hour as int) + ":"@
        + spec_two_digits(ts.minute as int) + ":"@ + spec_two_digits(ts.second as int)
}

/// The compact timestamp form used in exported file names,
/// `YYYYMMDD-HHMMSS`.
pub open spec fn spec_timestamp_compact(ts: Timestamp) -> Seq<char> {
    spec_four_digits(ts.year as int) + spec_two_digits(ts.month as int) + spec_two_digits(
        ts.day as int,
    ) + "-"@ + spec_two_digits(ts.hour as int) + spec_two_digits(ts.minute as int)
        + spec_two_digits(ts.second as int)
}

/// One appended log line: the timestamp in brackets, a space, the message,
/// and the terminating newline.
pub open spec fn spec_log_line(ts: Timestamp, msg: Seq<char>) -> Seq<char> {
    "["@ + spec_timestamp(ts) + "] "@ + msg + "\n"@
}

/// The decimal digit character for `d`, as text.
fn digit_str(d: u8) -> (r: &'static str)
    requires
        d <= 9,
    ensures
        r@ =~= seq![digit_char(d as int)],
{
    proof {
        reveal_strlit("0");
        reveal_strlit("1");
        reveal_strlit("2");
        reveal_strlit("3");
        reveal_strlit("4");
        reveal_strlit("5");
        reveal_strlit("6");
        reveal_strlit("7");
        reveal_strlit("8");
        reveal_strlit("9");
    }
    match d {
        0 => "0",
        1 => "1",
        2 => "2",
        3 => "3",
        4 => "4",
        5 => "5",
        6 => "6",
        7 => "7",
        8 => "8",
        _ => "9",
    }
}

/// Renders `n` as two zero-padded decimal digits.
pub fn two_digits(n: u8) -> (r: String)
    requires
        n <= 99,
    ensures
        r@ == spec_two_digits(n as int),
{
    let mut s = String::from_str(digit_str(n / 10));
    s.append(digit_str(n % 10));
    assert(s@ =~= spec_two_digits(n as int));
    s
}

/// Renders `n` as four zero-padded decimal digits.
pub fn four_digits(n: u16) -> (r: String)
    requires
        n <= 9999,
    ensures
        r@ == spec_four_digits(n as int),
{
    let mut s = String::from_str(digit_str((n / 1000) as u8));
    s.append(digit_str(((n / 100) % 10) as u8));
    s.append(digit_str(((n / 10) % 10) as u8));
    s.append(digit_str((n % 10) as u8));
    assert(s@ =~= spec_four_digits(n as int));
    s
}

/// Renders a timestamp in the log line form.
pub fn format_timestamp(ts: &Timestamp) -> (r: String)
    requires
        ts.wf(),
    ensures
        r@ == spec_timestamp(*ts),
{
    let mut s = four_digits(ts.year);
    s.append("-");
    s.append(two_digits(ts.month).as_str());
    s.append("-");
    s.append(two_digits(ts.day).as_str());
    s.append(" ");
    s.append(two_digits(ts.hour).as_str());
    s.append(":");
    s.append(two_digits(ts.minute).as_str());
    s.append(":");
    s.append(two_digits(ts.second).as_str());
    assert(s@ =~= spec_timestamp(*ts));
    s
}

/// Renders a timestamp in the compact, file-name form.
pub fn format_timestamp_compact(ts: &Timestamp) -> (r: String)
    requires
        ts.wf(),
    ensures
        r@ == spec_timestamp_compact(*ts),
{
    let mut s = four_digits(ts.year);
    s.append(two_digits(ts.month).as_str());
    s.append(two_digits(ts.day).as_str());
    s.append("-");
    s.append(two_digits(ts.hour).as_str());
    s.append(two_digits(ts.minute).as_str());
    s.append(two_digits(ts.second).as_str());
    assert(s@ =~= spec_timestamp_compact(*ts));
    s
}

/// Builds the single line that appending `msg` at `ts` adds to the log.
pub fn log_entry(ts: &Timestamp, msg: &str) -> (r: String)
    requires
        ts.wf(),
    ensures
        r@ == spec_log_line(*ts, msg@),
{
    let mut s = String::from_str("[");
    s.append(format_timestamp(ts).as_str());
    s.append("] ");
    s.append(msg);
    s.append("\n");
    assert(s@ =~= spec_log_line(*ts, msg@));
    s
}

/// What the log file holds after appending `msg` at `ts` to `content`: all
/// prior text unchanged, then exactly the one new line.
pub fn appended_log(content: &str, ts: &Timestamp, msg: &str) -> (r: String)
    requires
        ts.wf(),
    ensures
        r@ == content@ + spec_log_line(*ts, msg@),
{
    let mut s = String::from_str(content);
    s.append(log_entry(ts, msg).as_str());
    s
}

} // verus!
