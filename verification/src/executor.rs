//! The command executor: the steps that run one command over an open
//! session and bring back what it wrote and how it ended.
//!
//! One executor runs one command on one channel. It does not judge the exit
//! status: a command that ran to its end has a result, whatever its status.
//! Only a step that could not be carried out makes the execution fail.

use crate::reply::{Reply, ReplyView};
use vstd::prelude::*;

verus! {

/// The steps of one execution, in the order they are taken.
#[derive(Clone, Copy, Debug, PartialEq, Eq, Structural)]
pub enum ExecStage {
    OpenChannel,
    Submit,
    ReadOutput,
    AwaitClose,
    ReadExitStatus,
}

/// What a command that ran to its end has left behind.
#[derive(Debug, PartialEq, Eq)]
pub struct CommandResult {
    pub exit_status: i32,
    pub output: String,
}

/// The mathematical value of a [`CommandResult`].
pub struct CommandResultView {
    pub exit_status: i32,
    pub output: Seq<char>,
}

impl View for CommandResult {
    type V = CommandResultView;

    open spec fn view(&self) -> CommandResultView {
        CommandResultView { exit_status: self.exit_status, output: self.output@ }
    }
}

impl Clone for CommandResult {
    fn clone(&self) -> (r: Self)
        ensures
            r@ == self@,
    {
        CommandResult { exit_status: self.exit_status, output: self.output.clone() }
    }
}

/// A step of an execution that could not be carried out.
#[derive(Debug, PartialEq, Eq)]
pub struct ExecutionError {
    pub stage: ExecStage,
    pub reason: String,
}

/// The mathematical value of an [`ExecutionError`].
pub struct ExecutionErrorView {
    pub stage: ExecStage,
    pub reason: Seq<char>,
}

impl View for ExecutionError {
    type V = ExecutionErrorView;

    open spec fn view(&self) -> ExecutionErrorView {
        ExecutionErrorView { stage: self.stage, reason: self.reason@ }
    }
}

impl Clone for ExecutionError {
    fn clone(&self) -> (r: Self)
        ensures
            r@ == self@,
    {
        ExecutionError { stage: self.stage, reason: self.reason.clone() }
    }
}

/// One step of outside work on the way to a command's result.
#[derive(Debug, PartialEq, Eq)]
pub enum ExecRequest {
    /// Open a fresh channel on the session.
    OpenChannel,
    /// Hand the command line to the channel.
    Submit(String),
    /// Read what the command writes, up to the end of its output.
    ReadOutput,
    /// Wait for the remote side to close the channel.
    AwaitClose,
    /// Ask the channel for the command's exit status.
    ReadExitStatus,
}

/// The mathematical value of an [`ExecRequest`].
pub enum ExecRequestView {
    OpenChannel,
    Submit(Seq<char>),
    ReadOutput,
    AwaitClose,
    ReadExitStatus,
}

impl View for ExecRequest {
    type V = ExecRequestView;

    open spec fn view(&self) -> ExecRequestView {
        match self {
            ExecRequest::OpenChannel => ExecRequestView::OpenChannel,
            ExecRequest::Submit(text) => ExecRequestView::Submit(text@),
            ExecRequest::ReadOutput => ExecRequestView::ReadOutput,
            ExecRequest::AwaitClose => ExecRequestView::AwaitClose,
            ExecRequest::ReadExitStatus => ExecRequestView::ReadExitStatus,
        }
    }
}

impl Clone for ExecRequest {
    fn clone(&self) -> (r: Self)
        ensures
            r@ == self@,
    {
        match self {
            ExecRequest::OpenChannel => ExecRequest::OpenChannel,
            ExecRequest::Submit(text) => ExecRequest::Submit(text.clone()),
            ExecRequest::ReadOutput => ExecRequest::ReadOutput,
            ExecRequest::AwaitClose => ExecRequest::AwaitClose,
            ExecRequest::ReadExitStatus => ExecRequest::ReadExitStatus,
        }
    }
}

/// Where an execution stands.
pub enum ExecPhaseView {
    OpeningChannel,
    Submitting,
    Reading,
    Closing { output: Seq<char> },
    ReadingStatus { output: Seq<char> },
    Completed(CommandResultView),
    Failed(ExecutionErrorView),
}

impl ExecPhaseView {
    /// Nothing is left to do: the command has a result, or never will.
    pub open spec fn settled(self) -> bool {
        self is Completed || self is Failed
    }

    /// The step that is pending, for a phase that is not settled.
    pub open spec fn stage(self) -> ExecStage {
        match self {
            ExecPhaseView::OpeningChannel => ExecStage::OpenChannel,
            ExecPhaseView::Submitting => ExecStage::Submit,
            ExecPhaseView::Reading => ExecStage::ReadOutput,
            ExecPhaseView::Closing { .. } => ExecStage::AwaitClose,
            _ => ExecStage::ReadExitStatus,
        }
    }

    /// The number of steps that still lie ahead.
    pub open spec fn steps_left(self) -> nat {
        match self {
            ExecPhaseView::OpeningChannel => 5,
            ExecPhaseView::Submitting => 4,
            ExecPhaseView::Reading => 3,
            ExecPhaseView::Closing { .. } => 2,
            ExecPhaseView::ReadingStatus { .. } => 1,
            _ => 0,
        }
    }

    /// The phase that follows if `reply` is what the pending step awaits:
    /// the output for the read, the status for the last step, and a plain
    /// `Done` for the others.
    pub open spec fn advance(self, reply: ReplyView) -> Option<ExecPhaseView> {
        match (self, reply) {
            (ExecPhaseView::OpeningChannel, ReplyView::Done) => Some(ExecPhaseView::Submitting),
            (ExecPhaseView::Submitting, ReplyView::Done) => Some(ExecPhaseView::Reading),
            (ExecPhaseView::Reading, ReplyView::Output(output)) => Some(
                ExecPhaseView::Closing { output },
            ),
            (ExecPhaseView::Closing { output }, ReplyView::Done) => Some(
                ExecPhaseView::ReadingStatus { output },
            ),
            (ExecPhaseView::ReadingStatus { output }, ReplyView::ExitStatus(exit_status)) => Some(
                ExecPhaseView::Completed(CommandResultView { exit_status, output }),
            ),
            _ => None,
        }
    }

    /// The phase after `reply` has come in.
    pub open spec fn step(self, reply: ReplyView) -> ExecPhaseView {
        if self.settled() {
            self
        } else {
            match self.advance(reply) {
                Some(next) => next,
                None => ExecPhaseView::Failed(
                    ExecutionErrorView { stage: self.stage(), reason: reply.reason() },
                ),
            }
        }
    }

    /// The phase after the replies have come in, one after the other.
    pub open spec fn run(self, replies: Seq<ReplyView>) -> ExecPhaseView
        decreases replies.len(),
    {
        if replies.len() == 0 {
            self
        } else {
            self.step(replies[0]).run(replies.drop_first())
        }
    }

    /// What the execution has to say once it is settled.
    pub open spec fn result(self) -> Option<Result<CommandResultView, ExecutionErrorView>> {
        match self {
            ExecPhaseView::Completed(r) => Some(Ok(r)),
            ExecPhaseView::Failed(e) => Some(Err(e)),
            _ => None,
        }
    }
}

/// The mathematical value of an [`Executor`].
pub struct ExecutorView {
    pub command: Seq<char>,
    pub phase: ExecPhaseView,
}

impl ExecutorView {
    /// The executor for `command` before anything has happened.
    pub open spec fn start(command: Seq<char>) -> ExecutorView {
        ExecutorView { command, phase: ExecPhaseView::OpeningChannel }
    }

    /// The step that the caller is to perform now, if any is left.
    pub open spec fn request(self) -> Option<ExecRequestView> {
        match self.phase {
            ExecPhaseView::OpeningChannel => Some(ExecRequestView::OpenChannel),
            ExecPhaseView::Submitting => Some(ExecRequestView::Submit(self.command)),
            ExecPhaseView::Reading => Some(ExecRequestView::ReadOutput),
            ExecPhaseView::Closing { .. } => Some(ExecRequestView::AwaitClose),
            ExecPhaseView::ReadingStatus { .. } => Some(ExecRequestView::ReadExitStatus),
            _ => None,
        }
    }

    /// The executor after `reply` has come in.
    pub open spec fn step(self, reply: ReplyView) -> ExecutorView {
        ExecutorView { command: self.command, phase: self.phase.step(reply) }
    }
}

/// Every reply to an execution that is not settled brings it one step closer
/// to being settled.
pub proof fn lemma_exec_progress(phase: ExecPhaseView, reply: ReplyView)
    requires
        !phase.settled(),
    ensures
        phase.step(reply).steps_left() < phase.steps_left(),
{
}

/// A settled execution stays as it is, whatever is reported to it.
pub proof fn lemma_exec_settled_stays(phase: ExecPhaseView, replies: Seq<ReplyView>)
    requires
        phase.settled(),
    ensures
        phase.run(replies) == phase,
    decreases replies.len(),
{
    if replies.len() > 0 {
        lemma_exec_settled_stays(phase, replies.drop_first());
    }
}

/// An execution is settled once as many replies have come in as it had
/// steps left.
pub proof fn lemma_exec_settles(phase: ExecPhaseView, replies: Seq<ReplyView>)
    requires
        replies.len() >= phase.steps_left(),
    ensures
        phase.run(replies).settled(),
    decreases replies.len(),
{
    if phase.settled() {
        lemma_exec_settled_stays(phase, replies);
    } else {
        lemma_exec_progress(phase, replies[0]);
        lemma_exec_settles(phase.step(replies[0]), replies.drop_first());
    }
}

/// A command has a result exactly when its five steps were answered as
/// awaited, in order; the result then holds the output that was read and
/// the status that the channel gave.
pub proof fn lemma_exec_completes_iff(replies: Seq<ReplyView>, result: CommandResultView)
    ensures
        ExecPhaseView::OpeningChannel.run(replies) == ExecPhaseView::Completed(result) <==> {
            &&& replies.len() >= 5
            &&& replies[0] == ReplyView::Done
            &&& replies[1] == ReplyView::Done
            &&& replies[2] == ReplyView::Output(result.output)
            &&& replies[3] == ReplyView::Done
            &&& replies[4] == ReplyView::ExitStatus(result.exit_status)
        },
{
    let p0 = ExecPhaseView::OpeningChannel;
    if replies.len() >= 1 {
        let p1 = p0.step(replies[0]);
        let r1 = replies.drop_first();
        assert(p0.run(replies) == p1.run(r1));
        if p1.settled() {
            lemma_exec_settled_stays(p1, r1);
        } else if r1.len() >= 1 {
            let p2 = p1.step(r1[0]);
            let r2 = r1.drop_first();
            assert(p1.run(r1) == p2.run(r2));
            if p2.settled() {
                lemma_exec_settled_stays(p2, r2);
            } else if r2.len() >= 1 {
                let p3 = p2.step(r2[0]);
                let r3 = r2.drop_first();
                assert(p2.run(r2) == p3.run(r3));
                if p3.settled() {
                    lemma_exec_settled_stays(p3, r3);
                } else if r3.len() >= 1 {
                    let p4 = p3.step(r3[0]);
                    let r4 = r3.drop_first();
                    assert(p3.run(r3) == p4.run(r4));
                    if p4.settled() {
                        lemma_exec_settled_stays(p4, r4);
                    } else if r4.len() >= 1 {
                        let p5 = p4.step(r4[0]);
                        let r5 = r4.drop_first();
                        assert(p4.run(r4) == p5.run(r5));
                        lemma_exec_settled_stays(p5, r5);
                    }
                }
            }
        }
    }
}

/// Runs one command, step by step.
#[derive(Debug)]
pub struct Executor {
    command: String,
    stage: ExecStage,
    output: String,
    ending: Option<Result<i32, ExecutionError>>,
}

impl View for Executor {
    type V = ExecutorView;

    closed spec fn view(&self) -> ExecutorView {
        ExecutorView {
            command: self.command@,
            phase: match self.ending {
                Some(Ok(exit_status)) => ExecPhaseView::Completed(
                    CommandResultView { exit_status, output: self.output@ },
                ),
                Some(Err(e)) => ExecPhaseView::Failed(e@),
                None => match self.stage {
                    ExecStage::OpenChannel => ExecPhaseView::OpeningChannel,
                    ExecStage::Submit => ExecPhaseView::Submitting,
                    ExecStage::ReadOutput => ExecPhaseView::Reading,
                    ExecStage::AwaitClose => ExecPhaseView::Closing { output: self.output@ },
                    ExecStage::ReadExitStatus => ExecPhaseView::ReadingStatus {
                        output: self.output@,
                    },
                },
            },
        }
    }
}

impl Executor {
    /// An executor for `command`, about to open its channel.
    pub fn new(command: &str) -> (x: Executor)
        ensures
            x@ == ExecutorView::start(command@),
    {
        Executor {
            command: String::from_str(command),
            stage: ExecStage::OpenChannel,
            output: String::new(),
            ending: None,
        }
    }

    /// Whether nothing is left to do.
    pub fn is_settled(&self) -> (r: bool)
        ensures
            r == self@.phase.settled(),
    {
        self.ending.is_some()
    }

    /// The step to perform now, or `None` once the execution is settled.
    pub fn request(&self) -> (r: Option<ExecRequest>)
        ensures
            self@.request() == match r {
                Some(q) => Some(q@),
                None => None,
            },
    {
        if self.ending.is_some() {
            return None;
        }
        match self.stage {
            ExecStage::OpenChannel => Some(ExecRequest::OpenChannel),
            ExecStage::Submit => Some(ExecRequest::Submit(self.command.clone())),
            ExecStage::ReadOutput => Some(ExecRequest::ReadOutput),
            ExecStage::AwaitClose => Some(ExecRequest::AwaitClose),
            ExecStage::ReadExitStatus => Some(ExecRequest::ReadExitStatus),
        }
    }

    /// Takes in the report on the pending step. The step counts as done only
    /// on the reply that it awaits; every other reply fails it, and with it
    /// the execution. A settled execution stays as it is.
    pub fn handle(&mut self, reply: Reply)
        ensures
            final(self)@ == old(self)@.step(reply@),
    {
        if self.ending.is_some() {
            return ;
        }
        let stage = self.stage;
        match (stage, reply) {
            (ExecStage::OpenChannel, Reply::Done) => {
                self.stage = ExecStage::Submit;
            },
            (ExecStage::Submit, Reply::Done) => {
                self.stage = ExecStage::ReadOutput;
            },
            (ExecStage::ReadOutput, Reply::Output(text)) => {
                self.output = text;
                self.stage = ExecStage::AwaitClose;
            },
            (ExecStage::AwaitClose, Reply::Done) => {
                self.stage = ExecStage::ReadExitStatus;
            },
            (ExecStage::ReadExitStatus, Reply::ExitStatus(code)) => {
                self.ending = Some(Ok(code));
            },
            (_, other) => {
                self.ending = Some(Err(ExecutionError { stage, reason: other.into_reason() }));
            },
        }
    }

    /// The command's result once it ran to its end, the error once a step
    /// failed, and `None` while steps are left.
    pub fn result(&self) -> (r: Option<Result<CommandResult, ExecutionError>>)
        ensures
            self@.phase.result() == match r {
                Some(Ok(done)) => Some(Ok(done@)),
                Some(Err(e)) => Some(Err(e@)),
                None => None,
            },
    {
        match &self.ending {
            Some(Ok(code)) => Some(
                Ok(CommandResult { exit_status: *code, output: self.output.clone() }),
            ),
            Some(Err(e)) => Some(Err(e.clone())),
            None => None,
        }
    }
}

} // verus!
