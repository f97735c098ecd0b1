//! The words in which a fleet run is told: the progress messages of a host,
//! its final status, and the lines for what failed.

use crate::connector::{ConnectError, ConnectErrorView};
use crate::fleet::{FleetSummary, FleetSummaryView};
use crate::outcome::{
    CommandError, CommandErrorView, CommandFailure, CommandFailureView, HostOutcome,
    HostOutcomeView,
};
use vstd::prelude::*;

verus! {

/// The numeral for a single digit.
pub open spec fn digit(d: nat) -> Seq<char> {
    if d == 0 {
        "0"@
    } else if d == 1 {
        "1"@
    } else if d == 2 {
        "2"@
    } else if d == 3 {
        "3"@
    } else if d == 4 {
        "4"@
    } else if d == 5 {
        "5"@
    } else if d == 6 {
        "6"@
    } else if d == 7 {
        "7"@
    } else if d == 8 {
        "8"@
    } else {
        "9"@
    }
}

/// The decimal numeral of `n`, without leading zeros.
pub open spec fn decimal(n: nat) -> Seq<char>
    decreases n,
{
    if n < 10 {
        digit(n)
    } else {
        decimal(n / 10) + digit(n % 10)
    }
}

/// The decimal numeral of `n`, with a minus sign where `n` is negative.
pub open spec fn signed_decimal(n: int) -> Seq<char> {
    if n < 0 {
        "-"@ + decimal((-n) as nat)
    } else {
        decimal(n as nat)
    }
}

/// The numeral for a single digit.
fn digit_text(d: u64) -> (text: &'static str)
    requires
        d < 10,
    ensures
        text@ == digit(d as nat),
{
    if d == 0 {
        "0"
    } else if d == 1 {
        "1"
    } else if d == 2 {
        "2"
    } else if d == 3 {
        "3"
    } else if d == 4 {
        "4"
    } else if d == 5 {
        "5"
    } else if d == 6 {
        "6"
    } else if d == 7 {
        "7"
    } else if d == 8 {
        "8"
    } else {
        "9"
    }
}

/// Writes `n` as a decimal numeral.
pub fn render_decimal(n: u64) -> (text: String)
    ensures
        text@ == decimal(n as nat),
    decreases n,
{
    if n < 10 {
        String::from_str(digit_text(n))
    } else {
        render_decimal(n / 10).concat(digit_text(n % 10))
    }
}

/// Writes an exit status as a decimal numeral.
pub fn render_exit_status(code: i32) -> (text: String)
    ensures
        text@ == signed_decimal(code as int),
{
    if code < 0 {
        let magnitude: u64 = (-(code as i64)) as u64;
        String::from_str("-").concat(render_decimal(magnitude).as_str())
    } else {
        render_decimal(code as u64)
    }
}

/// What a host's progress indicator says while its pipeline runs.
pub open spec fn start_text(name: Seq<char>) -> Seq<char> {
    "Pushing to "@ + name
}

/// What a host's progress indicator says once its pipeline has ended.
pub open spec fn done_text(name: Seq<char>) -> Seq<char> {
    "Done with "@ + name
}

/// What a host's progress indicator says while its pipeline runs.
pub fn start_message(name: &str) -> (text: String)
    ensures
        text@ == start_text(name@),
{
    String::from_str("Pushing to ").concat(name)
}

/// What a host's progress indicator says once its pipeline has ended.
pub fn done_message(name: &str) -> (text: String)
    ensures
        text@ == done_text(name@),
{
    String::from_str("Done with ").concat(name)
}

impl ConnectErrorView {
    /// The error in words: its kind, then the reason that came with it.
    pub open spec fn text(self) -> Seq<char> {
        match self {
            ConnectErrorView::Connection(reason) => "connection error: "@ + reason,
            ConnectErrorView::Authentication(reason) => "authentication error: "@ + reason,
        }
    }
}

impl CommandErrorView {
    /// The error in words: the reason of a step that failed, or the exit
    /// status that the command left.
    pub open spec fn text(self) -> Seq<char> {
        match self {
            CommandErrorView::Execution(e) => "execution error: "@ + e.reason,
            CommandErrorView::CommandFailed(done) => "exit status "@ + signed_decimal(
                done.exit_status as int,
            ),
        }
    }
}

/// Puts a connect error into words.
pub fn describe_connect_error(error: &ConnectError) -> (text: String)
    ensures
        text@ == error@.text(),
{
    match error {
        ConnectError::Connection(reason) => String::from_str("connection error: ").concat(
            reason.as_str(),
        ),
        ConnectError::Authentication(reason) => String::from_str("authentication error: ").concat(
            reason.as_str(),
        ),
    }
}

/// Puts a command error into words.
pub fn describe_command_error(error: &CommandError) -> (text: String)
    ensures
        text@ == error@.text(),
{
    match error {
        CommandError::Execution(e) => String::from_str("execution error: ").concat(
            e.reason.as_str(),
        ),
        CommandError::CommandFailed(done) => String::from_str("exit status ").concat(
            render_exit_status(done.exit_status).as_str(),
        ),
    }
}

/// The line that tells of a host that could not be reached.
pub open spec fn connect_failure_text(host: Seq<char>, error: ConnectErrorView) -> Seq<char> {
    "Error connecting to host "@ + host + ": "@ + error.text()
}

/// The line that tells of a command that failed.
pub open spec fn command_failure_text(failure: CommandFailureView) -> Seq<char> {
    "Error executing command '"@ + failure.command.text + "': "@ + failure.error.text()
}

/// The line that tells of a host that could not be reached.
pub fn connect_failure_line(host: &str, error: &ConnectError) -> (line: String)
    ensures
        line@ == connect_failure_text(host@, error@),
{
    String::from_str("Error connecting to host ").concat(host).concat(": ").concat(
        describe_connect_error(error).as_str(),
    )
}

/// The line that tells of a command that failed.
pub fn command_failure_line(failure: &CommandFailure) -> (line: String)
    ensures
        line@ == command_failure_text(failure@),
{
    String::from_str("Error executing command '").concat(failure.command.text.as_str()).concat(
        "': ",
    ).concat(describe_command_error(&failure.error).as_str())
}

/// The final status of a host in words.
pub open spec fn status_text(outcome: HostOutcomeView) -> Seq<char> {
    match outcome {
        HostOutcomeView::Completed => "connected successfully and ran to completion"@,
        HostOutcomeView::ConnectionFailed(_) => "failed to connect"@,
        HostOutcomeView::CompletedWithErrors(failures) => "completed with "@ + decimal(
            failures.len(),
        ) + " command errors"@,
    }
}

/// The final status of a host in words.
pub fn status_message(outcome: &HostOutcome) -> (text: String)
    ensures
        text@ == status_text(outcome@),
{
    match outcome {
        HostOutcome::Completed => String::from_str("connected successfully and ran to completion"),
        HostOutcome::ConnectionFailed(_) => String::from_str("failed to connect"),
        HostOutcome::CompletedWithErrors(failures) => String::from_str("completed with ").concat(
            render_decimal(failures.len() as u64).as_str(),
        ).concat(" command errors"),
    }
}

/// The closing line of a run: how many hosts there were and how they ended.
pub open spec fn summary_text(summary: FleetSummaryView) -> Seq<char> {
    "Done with all hosts! "@ + decimal(summary.completed) + " completed, "@ + decimal(
        summary.connection_failed,
    ) + " failed to connect, "@ + decimal(summary.with_command_errors)
        + " completed with command errors"@
}

/// The closing line of a run: how many hosts there were and how they ended.
pub fn summary_line(summary: &FleetSummary) -> (line: String)
    ensures
        line@ == summary_text(summary@),
{
    String::from_str("Done with all hosts! ").concat(
        render_decimal(summary.completed as u64).as_str(),
    ).concat(" completed, ").concat(
        render_decimal(summary.connection_failed as u64).as_str(),
    ).concat(" failed to connect, ").concat(
        render_decimal(summary.with_command_errors as u64).as_str(),
    ).concat(" completed with command errors")
}

} // verus!
