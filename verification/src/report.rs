use vstd::prelude::*;
use crate::constants::{GREEN_COLOR, ORANGE_COLOR, RED_COLOR};
use crate::text::{decimal, decimal_digits, push_char};
use vstd::string::StringExecFns;
use vstd::string::StrSliceExecFns;
use colored::Colorize;

verus! {

/// Outcome class of a report sent to a user or written to the log.
#[derive(Clone, Copy, Debug, PartialEq, Eq, Structural)]
pub enum ReportType {
    SUCCESS,
    WARNING,
    ERROR,
}

/// Embed color that belongs to a report type.
pub open spec fn report_color(report_type: ReportType) -> u64 {
    match report_type {
        ReportType::SUCCESS => GREEN_COLOR,
        ReportType::WARNING => ORANGE_COLOR,
        ReportType::ERROR => RED_COLOR,
    }
}

/// Embed color of a report: green for success, orange for warnings, red for errors.
pub fn get_report_color(report_type: &ReportType) -> (color: u64)
    ensures
        color == report_color(*report_type),
{
    match report_type {
        ReportType::SUCCESS => GREEN_COLOR,
        ReportType::WARNING => ORANGE_COLOR,
        ReportType::ERROR => RED_COLOR,
    }
}

/// Terminal color of a log label.
#[derive(Clone, Copy, Debug, PartialEq, Eq, Structural)]
pub enum LogColor {
    Green,
    /// The true color (255, 160, 0).
    Orange,
    Red,
}

/// Label that a log line shows for a report type.
pub open spec fn log_label_text(report_type: ReportType) -> Seq<char> {
    match report_type {
        ReportType::SUCCESS => seq!['S', 'U', 'C', 'C', 'E', 'S', 'S'],
        ReportType::WARNING => seq!['W', 'A', 'R', 'N', 'I', 'N', 'G'],
        ReportType::ERROR => seq!['E', 'R', 'R', 'O', 'R'],
    }
}

/// Color of the label of a report type in the log.
pub open spec fn log_color_of(report_type: ReportType) -> LogColor {
    match report_type {
        ReportType::SUCCESS => LogColor::Green,
        ReportType::WARNING => LogColor::Orange,
        ReportType::ERROR => LogColor::Red,
    }
}

/// The label of a report type in the log: `SUCCESS`, `WARNING` or `ERROR`.
pub fn log_label(report_type: ReportType) -> (label: &'static str)
    ensures
        label@ == log_label_text(report_type),
{
    let label = match report_type {
        ReportType::SUCCESS => "SUCCESS",
        ReportType::WARNING => "WARNING",
        ReportType::ERROR => "ERROR",
    };
    proof {
        reveal_strlit("SUCCESS");
        reveal_strlit("WARNING");
        reveal_strlit("ERROR");
        assert(label@ =~= log_label_text(report_type));
    }
    label
}

/// The color of a report type's label: green, orange or red.
pub fn log_color(report_type: ReportType) -> (color: LogColor)
    ensures
        color == log_color_of(report_type),
{
    match report_type {
        ReportType::SUCCESS => LogColor::Green,
        ReportType::WARNING => LogColor::Orange,
        ReportType::ERROR => LogColor::Red,
    }
}

/// A number written with at least two digits, zero-padded.
pub open spec fn two_digits(n: nat) -> Seq<char> {
    if n < 10 {
        seq!['0'] + decimal_digits(n)
    } else {
        decimal_digits(n)
    }
}

/// The date stamp of a log line: `d<day> m<month> <hour>:<minute>:<second>`,
/// each number with at least two digits.
pub open spec fn log_date_text(day: nat, month: nat, hour: nat, minute: nat, second: nat) -> Seq<
    char,
> {
    seq!['d'] + two_digits(day) + seq![' ', 'm'] + two_digits(month) + seq![' '] + two_digits(hour)
        + seq![':'] + two_digits(minute) + seq![':'] + two_digits(second)
}

fn pad2(s: &mut String, n: u32)
    ensures
        final(s)@ == old(s)@ + two_digits(n as nat),
{
    if n < 10 {
        push_char(s, '0');
    }
    let d = decimal(n as u64);
    s.append(d.as_str());
}

/// Formats the date stamp of a log line.
pub fn format_log_date(day: u32, month: u32, hour: u32, minute: u32, second: u32) -> (text: String)
    ensures
        text@ == log_date_text(day as nat, month as nat, hour as nat, minute as nat, second as nat),
{
    let mut s = String::new();
    push_char(&mut s, 'd');
    pad2(&mut s, day);
    push_char(&mut s, ' ');
    push_char(&mut s, 'm');
    pad2(&mut s, month);
    push_char(&mut s, ' ');
    pad2(&mut s, hour);
    push_char(&mut s, ':');
    pad2(&mut s, minute);
    push_char(&mut s, ':');
    pad2(&mut s, second);
    assert(s@ =~= log_date_text(day as nat, month as nat, hour as nat, minute as nat, second as nat));
    s
}

/// The escape character that starts a terminal color code.
pub open spec fn escape_char() -> char {
    '\x1b'
}

/// Width of a label in the log.
pub const LABEL_WIDTH: usize = 7;

/// A label padded with spaces on the right to at least `LABEL_WIDTH`
/// characters.
pub open spec fn padded_label(label: Seq<char>) -> Seq<char> {
    if label.len() >= LABEL_WIDTH {
        label
    } else {
        label + Seq::new((LABEL_WIDTH - label.len()) as nat, |i: int| ' ')
    }
}

/// Pads a label with spaces on the right to at least `LABEL_WIDTH`
/// characters.
pub fn pad_label(label: &str) -> (padded: String)
    ensures
        padded@ == padded_label(label@),
{
    let n = label.unicode_len();
    let mut padded = label.to_string();
    let mut i: usize = n;
    while i < LABEL_WIDTH
        invariant
            n == label@.len(),
            n <= i,
            n >= LABEL_WIDTH ==> i == n,
            n < LABEL_WIDTH ==> i <= LABEL_WIDTH,
            padded@ == label@ + Seq::new((i - n) as nat, |k: int| ' '),
        decreases LABEL_WIDTH - i,
    {
        push_char(&mut padded, ' ');
        proof {
            assert(padded@ =~= label@ + Seq::new((i + 1 - n) as nat, |k: int| ' '));
        }
        i += 1;
    }
    proof {
        if n >= LABEL_WIDTH {
            assert(Seq::new((i - n) as nat, |k: int| ' ') =~= Seq::<char>::empty());
            assert(padded@ =~= label@);
        } else {
            assert(padded@ =~= padded_label(label@));
        }
    }
    padded
}

/// The code that resets terminal colors: `ESC [ 0 m`.
pub open spec fn reset_code() -> Seq<char> {
    seq!['\x1b', '[', '0', 'm']
}

/// The code of the green foreground: `ESC [ 3 2 m`.
pub open spec fn green_code() -> Seq<char> {
    seq!['\x1b', '[', '3', '2', 'm']
}

/// The code of the red foreground: `ESC [ 3 1 m`.
pub open spec fn red_code() -> Seq<char> {
    seq!['\x1b', '[', '3', '1', 'm']
}

/// The code of the true color (255, 160, 0): `ESC [ 38;2;255;160;0 m`.
pub open spec fn orange_code() -> Seq<char> {
    seq!['\x1b', '[', '3', '8', ';', '2', ';', '2', '5', '5', ';', '1', '6', '0', ';', '0', 'm']
}

/// The code of the plain color nearest to (255, 160, 0), yellow, used where
/// the terminal has no true colors: `ESC [ 3 3 m`.
pub open spec fn orange_fallback_code() -> Seq<char> {
    seq!['\x1b', '[', '3', '3', 'm']
}

/// What painting a text in a log color writes: the text bare, or the text
/// between the color's code and the reset code.
pub open spec fn painted_as(painted: Seq<char>, text: Seq<char>, color: LogColor) -> bool {
    ||| painted == text
    ||| match color {
        LogColor::Green => painted == green_code() + text + reset_code(),
        LogColor::Red => painted == red_code() + text + reset_code(),
        LogColor::Orange => painted == orange_code() + text + reset_code() || painted
            == orange_fallback_code() + text + reset_code(),
    }
}

/// `colored`'s `Colorize::green`, written with `{}`.
///
/// Claimed, for a text without escape characters: the text bare, or the text
/// between the green code and the reset code. Which of the two is written
/// depends on the environment that the process runs in, and is left unsaid.
#[verifier::external_body]
fn paint_green(text: &str) -> (painted: String)
    ensures
        !text@.contains(escape_char()) ==> painted_as(painted@, text@, LogColor::Green),
{
    format!("{}", text.green())
}

/// `colored`'s `Colorize::truecolor`, here (255, 160, 0), written with `{}`.
///
/// Claimed, for a text without escape characters: the text bare, or the text
/// between a color code and the reset code, the code being that of the true
/// color or, where the terminal lacks true colors, that of yellow (the plain
/// color nearest to it). Which is written depends on the environment that
/// the process runs in, and is left unsaid.
#[verifier::external_body]
fn paint_orange(text: &str) -> (painted: String)
    ensures
        !text@.contains(escape_char()) ==> painted_as(painted@, text@, LogColor::Orange),
{
    format!("{}", text.truecolor(255, 160, 0))
}

/// `colored`'s `Colorize::red`, written with `{}`.
///
/// Claimed, for a text without escape characters: the text bare, or the text
/// between the red code and the reset code. Which of the two is written
/// depends on the environment that the process runs in, and is left unsaid.
#[verifier::external_body]
fn paint_red(text: &str) -> (painted: String)
    ensures
        !text@.contains(escape_char()) ==> painted_as(painted@, text@, LogColor::Red),
{
    format!("{}", text.red())
}

proof fn lemma_padding_plain(label: Seq<char>)
    requires
        !label.contains(escape_char()),
    ensures
        !padded_label(label).contains(escape_char()),
{
    let p = padded_label(label);
    assert forall|i: int| 0 <= i < p.len() implies p[i] != escape_char() by {
        if i < label.len() {
            assert(p[i] == label[i]);
        }
    }
}

/// A label padded to `LABEL_WIDTH` and painted in a log color: for a label
/// without escape characters, the padded label bare or between the color's
/// code and the reset code.
fn paint_label(label: &str, color: LogColor) -> (painted: String)
    ensures
        !label@.contains(escape_char()) ==> painted_as(painted@, padded_label(label@), color),
{
    let padded = pad_label(label);
    proof {
        if !label@.contains(escape_char()) {
            lemma_padding_plain(label@);
        }
    }
    match color {
        LogColor::Green => paint_green(padded.as_str()),
        LogColor::Orange => paint_orange(padded.as_str()),
        LogColor::Red => paint_red(padded.as_str()),
    }
}

proof fn lemma_label_plain(report_type: ReportType)
    ensures
        !log_label_text(report_type).contains(escape_char()),
{
    let t = log_label_text(report_type);
    assert forall|i: int| 0 <= i < t.len() implies t[i] != escape_char() by {
        assert('A' <= t[i] && t[i] <= 'Z');
    }
}

/// One line of the log: `[<date>] <label> : <message>`, where the label is
/// the report type's label padded to `LABEL_WIDTH` and painted in its color.
pub fn log_line(report_type: ReportType, date: &str, message: &str) -> (line: String)
    ensures
        exists|painted: Seq<char>|
            line@ == seq!['['] + date@ + seq![']', ' '] + painted + seq![' ', ':', ' '] + message@
                && painted_as(painted, padded_label(log_label_text(report_type)), log_color_of(
                report_type,
            )),
{
    let label = log_label(report_type);
    proof {
        lemma_label_plain(report_type);
    }
    let painted = paint_label(label, log_color(report_type));
    let mut line = String::new();
    push_char(&mut line, '[');
    line.append(date);
    push_char(&mut line, ']');
    push_char(&mut line, ' ');
    line.append(painted.as_str());
    push_char(&mut line, ' ');
    push_char(&mut line, ':');
    push_char(&mut line, ' ');
    line.append(message);
    assert(line@ =~= seq!['['] + date@ + seq![']', ' '] + painted@ + seq![' ', ':', ' '] + message@);
    line
}

} // verus!
