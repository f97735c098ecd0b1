//! How a command's result is judged, and what a host's pipeline amounts to
//! in the end.

use crate::command::{Command, CommandView};
use crate::connector::{ConnectError, ConnectErrorView};
use crate::executor::{CommandResult, CommandResultView, ExecutionError, ExecutionErrorView};
use vstd::prelude::*;

verus! {

/// Why a command counts as failed.
#[derive(Debug, PartialEq, Eq)]
pub enum CommandError {
    /// A step of the execution could not be carried out.
    Execution(ExecutionError),
    /// The command ran to its end and left a non-zero exit status.
    CommandFailed(CommandResult),
}

/// The mathematical value of a [`CommandError`].
pub enum CommandErrorView {
    Execution(ExecutionErrorView),
    CommandFailed(CommandResultView),
}

impl View for CommandError {
    type V = CommandErrorView;

    open spec fn view(&self) -> CommandErrorView {
        match self {
            CommandError::Execution(e) => CommandErrorView::Execution(e@),
            CommandError::CommandFailed(r) => CommandErrorView::CommandFailed(r@),
        }
    }
}

impl Clone for CommandError {
    fn clone(&self) -> (r: Self)
        ensures
            r@ == self@,
    {
        match self {
            CommandError::Execution(e) => CommandError::Execution(e.clone()),
            CommandError::CommandFailed(r) => CommandError::CommandFailed(r.clone()),
        }
    }
}

/// A command that failed, with the reason.
#[derive(Debug, PartialEq, Eq)]
pub struct CommandFailure {
    pub command: Command,
    pub error: CommandError,
}

/// The mathematical value of a [`CommandFailure`].
pub struct CommandFailureView {
    pub command: CommandView,
    pub error: CommandErrorView,
}

impl View for CommandFailure {
    type V = CommandFailureView;

    open spec fn view(&self) -> CommandFailureView {
        CommandFailureView { command: self.command@, error: self.error@ }
    }
}

impl DeepView for CommandFailure {
    type V = CommandFailureView;

    open spec fn deep_view(&self) -> CommandFailureView {
        self@
    }
}

impl Clone for CommandFailure {
    fn clone(&self) -> (r: Self)
        ensures
            r@ == self@,
    {
        CommandFailure { command: self.command.clone(), error: self.error.clone() }
    }
}

/// The verdict on one execution: a failed step and a non-zero exit status
/// both fail the command, and nothing else does.
pub open spec fn judged(result: Result<CommandResultView, ExecutionErrorView>) -> Option<
    CommandErrorView,
> {
    match result {
        Ok(done) => if done.exit_status == 0 {
            None
        } else {
            Some(CommandErrorView::CommandFailed(done))
        },
        Err(e) => Some(CommandErrorView::Execution(e)),
    }
}

/// What an execution of `command` adds to the failures of its host: the
/// command with its error where it failed, nothing where it did not.
pub open spec fn recorded(
    command: CommandView,
    result: Result<CommandResultView, ExecutionErrorView>,
) -> Seq<CommandFailureView> {
    match judged(result) {
        Some(error) => seq![CommandFailureView { command, error }],
        None => Seq::empty(),
    }
}

/// Judges one execution.
pub fn judge(result: Result<CommandResult, ExecutionError>) -> (verdict: Option<CommandError>)
    ensures
        judged(
            match result {
                Ok(done) => Ok(done@),
                Err(e) => Err(e@),
            },
        ) == match verdict {
            Some(error) => Some(error@),
            None => None,
        },
{
    match result {
        Ok(done) => {
            if done.exit_status == 0 {
                None
            } else {
                Some(CommandError::CommandFailed(done))
            }
        },
        Err(e) => Some(CommandError::Execution(e)),
    }
}

/// How the pipeline of one host ended.
#[derive(Debug, PartialEq, Eq)]
pub enum HostOutcome {
    /// The session was opened and every command succeeded.
    Completed,
    /// No session could be opened; no command was run.
    ConnectionFailed(ConnectError),
    /// The session was opened and every command was run; those listed
    /// failed.
    CompletedWithErrors(Vec<CommandFailure>),
}

/// The mathematical value of a [`HostOutcome`].
pub enum HostOutcomeView {
    Completed,
    ConnectionFailed(ConnectErrorView),
    CompletedWithErrors(Seq<CommandFailureView>),
}

impl View for HostOutcome {
    type V = HostOutcomeView;

    open spec fn view(&self) -> HostOutcomeView {
        match self {
            HostOutcome::Completed => HostOutcomeView::Completed,
            HostOutcome::ConnectionFailed(e) => HostOutcomeView::ConnectionFailed(e@),
            HostOutcome::CompletedWithErrors(failures) => HostOutcomeView::CompletedWithErrors(
                failures.deep_view(),
            ),
        }
    }
}

impl DeepView for HostOutcome {
    type V = HostOutcomeView;

    open spec fn deep_view(&self) -> HostOutcomeView {
        self@
    }
}

/// The outcome of a pipeline that ran over an open session and met the
/// given failures.
pub open spec fn outcome_of(failures: Seq<CommandFailureView>) -> HostOutcomeView {
    if failures.len() == 0 {
        HostOutcomeView::Completed
    } else {
        HostOutcomeView::CompletedWithErrors(failures)
    }
}

impl HostOutcomeView {
    /// The host was reached and nothing failed on it.
    pub open spec fn succeeded(self) -> bool {
        self is Completed
    }

    /// The number of commands that failed on the host.
    pub open spec fn failure_count(self) -> nat {
        match self {
            HostOutcomeView::CompletedWithErrors(failures) => failures.len(),
            _ => 0,
        }
    }
}

/// A copy of the failures, in their order.
pub fn clone_failures(failures: &Vec<CommandFailure>) -> (copy: Vec<CommandFailure>)
    ensures
        copy.deep_view() == failures.deep_view(),
{
    let mut copy: Vec<CommandFailure> = Vec::new();
    let mut i: usize = 0;
    while i < failures.len()
        invariant
            i <= failures.len(),
            copy.deep_view() =~= failures.deep_view().take(i as int),
        decreases failures.len() - i,
    {
        let ghost before = copy.deep_view();
        copy.push(failures[i].clone());
        proof {
            assert(copy.deep_view() =~= before.push(failures[i as int]@));
        }
        i += 1;
    }
    proof {
        assert(failures.deep_view().take(i as int) =~= failures.deep_view());
    }
    copy
}

impl Clone for HostOutcome {
    fn clone(&self) -> (r: Self)
        ensures
            r@ == self@,
    {
        match self {
            HostOutcome::Completed => HostOutcome::Completed,
            HostOutcome::ConnectionFailed(e) => HostOutcome::ConnectionFailed(e.clone()),
            HostOutcome::CompletedWithErrors(failures) => HostOutcome::CompletedWithErrors(
                clone_failures(failures),
            ),
        }
    }
}

impl HostOutcome {
    /// The outcome of a pipeline that ran over an open session and met the
    /// given failures.
    pub fn from_failures(failures: Vec<CommandFailure>) -> (outcome: HostOutcome)
        ensures
            outcome@ == outcome_of(failures.deep_view()),
    {
        if failures.len() == 0 {
            HostOutcome::Completed
        } else {
            HostOutcome::CompletedWithErrors(failures)
        }
    }

    /// Whether the host was reached and nothing failed on it.
    pub fn succeeded(&self) -> (r: bool)
        ensures
            r == self@.succeeded(),
    {
        match self {
            HostOutcome::Completed => true,
            _ => false,
        }
    }

    /// The number of commands that failed on the host.
    pub fn failure_count(&self) -> (n: usize)
        ensures
            n == self@.failure_count(),
    {
        match self {
            HostOutcome::CompletedWithErrors(failures) => failures.len(),
            _ => 0,
        }
    }
}

} // verus!
