//! What a fatal failure reports, and the text that reaches the console.

use vstd::prelude::*;
use vstd::string::StringExecFns;
use crate::fatal::FatalAction;

verus! {

/// The source location of a failure.
#[derive(Clone, Debug, PartialEq, Eq)]
pub struct Location {
    pub file: String,
    pub line: u32,
    pub column: u32,
}

/// What is known of a fatal failure: where it happened and what it says,
/// as far as either is known.
#[derive(Clone, Debug, PartialEq, Eq)]
pub struct PanicReport {
    pub location: Option<Location>,
    pub message: Option<String>,
}

/// The character of a decimal digit.
pub open spec fn digit_char(digit: nat) -> char {
    if digit == 0 {
        '0'
    } else if digit == 1 {
        '1'
    } else if digit == 2 {
        '2'
    } else if digit == 3 {
        '3'
    } else if digit == 4 {
        '4'
    } else if digit == 5 {
        '5'
    } else if digit == 6 {
        '6'
    } else if digit == 7 {
        '7'
    } else if digit == 8 {
        '8'
    } else {
        '9'
    }
}

/// The decimal numeral of `n`: its digits, most significant first, without
/// leading zeros.
pub open spec fn decimal(n: nat) -> Seq<char>
    decreases n,
{
    if n < 10 {
        seq![digit_char(n)]
    } else {
        decimal(n / 10).push(digit_char(n % 10))
    }
}

/// The line that names where a failure happened.
pub open spec fn location_text(file: Seq<char>, line: nat, column: nat) -> Seq<char> {
    "Panic in "@ + file + " at ("@ + decimal(line) + ", "@ + decimal(column) + "):"@
}

/// The message of an allocation failure, naming the size and the alignment
/// of the request that could not be served.
pub open spec fn out_of_memory_text(size: nat, align: nat) -> Seq<char> {
    "Ran out of free memory while trying to allocate Layout { size: "@ + decimal(size)
        + ", align: "@ + decimal(align) + " }"@
}

/// The notice that the system could not be shut down.
pub open spec fn shutdown_failure_text() -> Seq<char> {
    "Could not shut down, please power off the system manually..."@
}

/// The text that a log action of the fatal-failure handler writes for the
/// given report, or `None` where the action logs nothing.
pub open spec fn log_text(action: FatalAction, report: PanicReport) -> Option<Seq<char>> {
    match action {
        FatalAction::LogLocation => match report.location {
            Some(location) => Some(
                location_text(location.file@, location.line as nat, location.column as nat),
            ),
            None => None,
        },
        FatalAction::LogMessage => match report.message {
            Some(message) => Some(message@),
            None => None,
        },
        FatalAction::LogShutdownFailure => Some(shutdown_failure_text()),
        _ => None,
    }
}

fn digit_str(digit: u64) -> (text: &'static str)
    requires
        digit < 10,
    ensures
        text@ == seq![digit_char(digit as nat)],
{
    proof {
        reveal_strlit("0");
        reveal_strlit("1");
        reveal_strlit("2");
        reveal_strlit("3");
        reveal_strlit("4");
        reveal_strlit("5");
        reveal_strlit("6");
        reveal_strlit("7");
        reveal_strlit("8");
        reveal_strlit("9");
    }
    let text = if digit == 0 {
        "0"
    } else if digit == 1 {
        "1"
    } else if digit == 2 {
        "2"
    } else if digit == 3 {
        "3"
    } else if digit == 4 {
        "4"
    } else if digit == 5 {
        "5"
    } else if digit == 6 {
        "6"
    } else if digit == 7 {
        "7"
    } else if digit == 8 {
        "8"
    } else {
        "9"
    };
    assert(text@ =~= seq![digit_char(digit as nat)]);
    text
}

/// Writes `n` as a decimal numeral.
pub fn render_decimal(n: u64) -> (text: String)
    ensures
        text@ == decimal(n as nat),
    decreases n,
{
    if n < 10 {
        String::from_str(digit_str(n))
    } else {
        let mut text = render_decimal(n / 10);
        text.append(digit_str(n % 10));
        assert(text@ =~= decimal(n as nat));
        text
    }
}

/// Writes the line that names where a failure happened.
pub fn location_line(location: &Location) -> (text: String)
    ensures
        text@ == location_text(
            location.file@,
            location.line as nat,
            location.column as nat,
        ),
{
    let line = render_decimal(location.line as u64);
    let column = render_decimal(location.column as u64);
    let mut text = String::from_str("Panic in ");
    text.append(location.file.as_str());
    text.append(" at (");
    text.append(line.as_str());
    text.append(", ");
    text.append(column.as_str());
    text.append("):");
    text
}

/// Writes the notice that the system could not be shut down.
pub fn shutdown_failure_notice() -> (text: String)
    ensures
        text@ == shutdown_failure_text(),
{
    String::from_str("Could not shut down, please power off the system manually...")
}

/// Turns an allocation failure into the report of a fatal failure.
///
/// The report carries no location, and a message that names the size and the
/// alignment of the request that could not be served. The host hands it to
/// the fatal-failure handler like any other report.
pub fn out_of_memory(size: usize, align: usize) -> (report: PanicReport)
    ensures
        report.location is None,
        report.message matches Some(message) && message@ == out_of_memory_text(
            size as nat,
            align as nat,
        ),
{
    let size_text = render_decimal(size as u64);
    let align_text = render_decimal(align as u64);
    let mut message = String::from_str(
        "Ran out of free memory while trying to allocate Layout { size: ",
    );
    message.append(size_text.as_str());
    message.append(", align: ");
    message.append(align_text.as_str());
    message.append(" }");
    PanicReport { location: None, message: Some(message) }
}

/// The text that the host logs, at error severity, for an action of the
/// fatal-failure handler. `None` for an action that logs nothing, and for a
/// log action whose part of the report is missing.
pub fn log_line(action: FatalAction, report: &PanicReport) -> (line: Option<String>)
    ensures
        match line {
            Some(text) => log_text(action, *report) == Some(text@),
            None => log_text(action, *report) is None,
        },
{
    match action {
        FatalAction::LogLocation => match &report.location {
            Some(location) => Some(location_line(location)),
            None => None,
        },
        FatalAction::LogMessage => match &report.message {
            Some(message) => Some(message.clone()),
            None => None,
        },
        FatalAction::LogShutdownFailure => Some(shutdown_failure_notice()),
        _ => None,
    }
}

} // verus!
