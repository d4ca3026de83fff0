//! The lines that the scheduler writes to its log, as texts.

use vstd::prelude::*;
use vstd::string::*;
use crate::config::texts;
use crate::evaluation::{Evaluation, EvaluationView, Upcoming, UpcomingView};

verus! {

/// The character for a decimal digit.
pub open spec fn digit(d: int) -> char
    recommends
        0 <= d < 10,
{
    seq!['0', '1', '2', '3', '4', '5', '6', '7', '8', '9'][d]
}

/// The decimal digits of a natural number, without leading zeros.
pub open spec fn decimal_nat(n: nat) -> Seq<char>
    decreases n,
{
    if n < 10 {
        seq![digit(n as int)]
    } else {
        decimal_nat(n / 10).push(digit((n % 10) as int))
    }
}

/// The decimal form of an integer: a minus sign where it is negative, then
/// the digits of its magnitude.
pub open spec fn decimal(n: int) -> Seq<char> {
    if n < 0 {
        seq!['-'] + decimal_nat((-n) as nat)
    } else {
        decimal_nat(n as nat)
    }
}

/// A log entry: the time of writing, a bar, and the message.
pub open spec fn entry_spec(stamp: Seq<char>, message: Seq<char>) -> Seq<char> {
    stamp + " | "@ + message
}

/// The rough distance in hours that is added to a summary, for an event more
/// than an hour away.
pub open spec fn hours_hint(hours: int) -> Seq<char> {
    if hours <= 1 {
        Seq::empty()
    } else {
        "(~"@ + decimal(hours) + " hrs)"@
    }
}

/// The line that reports the next event: its note, the minutes until it
/// starts and, where that is more than an hour, the hours.
pub open spec fn summary_spec(report: UpcomingView) -> Seq<char> {
    report.note + " in "@ + decimal(report.minutes) + " mins. "@ + hours_hint(report.hours)
}

/// The line that reports a crossed threshold.
pub open spec fn threshold_spec(threshold: int) -> Seq<char> {
    "threshold reached: "@ + decimal(threshold) + " mins"@
}

/// The line that reports a fetch from `url`.
pub open spec fn fetch_spec(url: Seq<char>) -> Seq<char> {
    "fetch: "@ + url
}

/// The line that reports that `command` is about to run.
pub open spec fn command_spec(command: Seq<char>) -> Seq<char> {
    "executing command: "@ + command
}

/// The lines that report an evaluation: that no event is upcoming, or the
/// summary of the next event, followed by the crossed threshold where
/// commands are due.
pub open spec fn report_spec(evaluation: EvaluationView, threshold: int) -> Seq<Seq<char>> {
    match evaluation {
        EvaluationView::NoUpcomingEvent => seq!["no upcoming events"@],
        EvaluationView::Upcoming(u) => if u.dispatch is Some {
            seq![summary_spec(u), threshold_spec(threshold)]
        } else {
            seq![summary_spec(u)]
        },
    }
}

/// The text of one decimal digit.
fn digit_text(d: u64) -> (r: &'static str)
    requires
        d < 10,
    ensures
        r@ == seq![digit(d as int)],
{
    proof {
        reveal_strlit("0");
        reveal_strlit("1");
        reveal_strlit("2");
        reveal_strlit("3");
        reveal_strlit("4");
        reveal_strlit("5");
        reveal_strlit("6");
        reveal_strlit("7");
        reveal_strlit("8");
        reveal_strlit("9");
    }
    let r = if d == 0 {
        "0"
    } else if d == 1 {
        "1"
    } else if d == 2 {
        "2"
    } else if d == 3 {
        "3"
    } else if d == 4 {
        "4"
    } else if d == 5 {
        "5"
    } else if d == 6 {
        "6"
    } else if d == 7 {
        "7"
    } else if d == 8 {
        "8"
    } else {
        "9"
    };
    assert(r@ =~= seq![digit(d as int)]);
    r
}

/// The decimal digits of `n`.
pub fn decimal_digits(n: u64) -> (r: String)
    ensures
        r@ == decimal_nat(n as nat),
    decreases n,
{
    if n < 10 {
        digit_text(n).to_string()
    } else {
        let mut text = decimal_digits(n / 10);
        text.append(digit_text(n % 10));
        assert(text@ =~= decimal_nat(n as nat));
        text
    }
}

/// The decimal form of `n`.
pub fn decimal_text(n: i64) -> (r: String)
    ensures
        r@ == decimal(n as int),
{
    if n < 0 {
        let magnitude: u64 = (-(n as i128)) as u64;
        let mut text = "-".to_string();
        proof {
            reveal_strlit("-");
        }
        text.append(decimal_digits(magnitude).as_str());
        assert(text@ =~= decimal(n as int));
        text
    } else {
        decimal_digits(n as u64)
    }
}

/// A log entry for `message`, written at the time that `stamp` shows.
pub fn entry(stamp: &str, message: &str) -> (r: String)
    ensures
        r@ == entry_spec(stamp@, message@),
{
    let mut line = stamp.to_string();
    line.append(" | ");
    line.append(message);
    line
}

/// The line that reports a crossed threshold.
pub fn threshold_message(threshold: u32) -> (r: String)
    ensures
        r@ == threshold_spec(threshold as int),
{
    let mut line = "threshold reached: ".to_string();
    line.append(decimal_text(threshold as i64).as_str());
    line.append(" mins");
    line
}

/// The line that reports a fetch from `url`.
pub fn fetch_message(url: &str) -> (r: String)
    ensures
        r@ == fetch_spec(url@),
{
    let mut line = "fetch: ".to_string();
    line.append(url);
    line
}

/// The line that reports that `command` is about to run.
pub fn command_message(command: &str) -> (r: String)
    ensures
        r@ == command_spec(command@),
{
    let mut line = "executing command: ".to_string();
    line.append(command);
    line
}

impl Evaluation {
    /// The lines that report this evaluation. The next event is reported
    /// whether or not it is within the threshold.
    pub fn report(&self, threshold: u32) -> (lines: Vec<String>)
        ensures
            texts(lines@) == report_spec(self@, threshold as int),
    {
        let mut lines: Vec<String> = Vec::new();
        match self {
            Evaluation::NoUpcomingEvent => {
                lines.push("no upcoming events".to_string());
            },
            Evaluation::Upcoming(u) => {
                lines.push(u.summary());
                if u.dispatch.is_some() {
                    lines.push(threshold_message(threshold));
                }
            },
        }
        assert(texts(lines@) =~= report_spec(self@, threshold as int));
        lines
    }
}

impl Upcoming {
    /// The line that reports this event, whether or not it is within the
    /// threshold.
    pub fn summary(&self) -> (r: String)
        ensures
            r@ == summary_spec(self@),
    {
        let mut line = self.note.clone();
        line.append(" in ");
        line.append(decimal_text(self.minutes).as_str());
        line.append(" mins. ");
        if self.hours > 1 {
            line.append("(~");
            line.append(decimal_text(self.hours).as_str());
            line.append(" hrs)");
            assert(line@ =~= summary_spec(self@));
        } else {
            assert(line@ =~= summary_spec(self@));
        }
        line
    }
}

} // verus!
