//! The host pipeline runner: one host, one session, every command in order.
//!
//! A [`HostRunner`] first has the session opened. Where that fails, the
//! host is finished and no command is run. Where it succeeds, the commands
//! are run one after the other over that session; a command that fails is
//! written down and the next one is run all the same.

use crate::command::{build_pipeline, pipeline, Command, CommandView};
use crate::config::{Config, ConfigView, Host, HostView};
use crate::connector::{
    ConnectPhaseView, ConnectRequest, ConnectRequestView, Connector, ConnectorView,
};
use crate::executor::{ExecPhaseView, ExecRequest, ExecRequestView, Executor, ExecutorView};
use crate::outcome::{
    clone_failures, judge, outcome_of, recorded, CommandFailure, CommandFailureView, HostOutcome,
    HostOutcomeView,
};
use crate::reply::{Reply, ReplyView};
use vstd::prelude::*;

verus! {

/// The next piece of outside work for one host.
#[derive(Debug, PartialEq, Eq)]
pub enum RunnerRequest {
    /// A step towards the session.
    Connect(ConnectRequest),
    /// A step of the execution of the command at `position` of the pipeline.
    Execute { position: usize, step: ExecRequest },
}

/// The mathematical value of a [`RunnerRequest`].
pub enum RunnerRequestView {
    Connect(ConnectRequestView),
    Execute { position: int, step: ExecRequestView },
}

impl View for RunnerRequest {
    type V = RunnerRequestView;

    open spec fn view(&self) -> RunnerRequestView {
        match self {
            RunnerRequest::Connect(step) => RunnerRequestView::Connect(step@),
            RunnerRequest::Execute { position, step } => RunnerRequestView::Execute {
                position: *position as int,
                step: step@,
            },
        }
    }
}

impl Clone for RunnerRequest {
    fn clone(&self) -> (r: Self)
        ensures
            r@ == self@,
    {
        match self {
            RunnerRequest::Connect(step) => RunnerRequest::Connect(step.clone()),
            RunnerRequest::Execute { position, step } => RunnerRequest::Execute {
                position: *position,
                step: step.clone(),
            },
        }
    }
}

/// Where the pipeline of a host stands.
pub enum RunStageView {
    /// The session is being opened.
    Connecting(ConnectPhaseView),
    /// The command at `position` is being run; `failures` holds what failed
    /// before it.
    Running { position: int, execution: ExecPhaseView, failures: Seq<CommandFailureView> },
    /// Nothing is left to do.
    Finished(HostOutcomeView),
}

/// The mathematical value of a [`HostRunner`].
pub struct RunnerView {
    pub host: HostView,
    pub commands: Seq<CommandView>,
    pub stage: RunStageView,
}

impl RunnerView {
    /// The runner for `host` and `commands` before anything has happened.
    pub open spec fn start(host: HostView, commands: Seq<CommandView>) -> RunnerView {
        RunnerView { host, commands, stage: RunStageView::Connecting(ConnectPhaseView::OpeningSocket) }
    }

    /// A stage that a runner can be in: it connects only while the
    /// connector is not settled, and runs only a command that the pipeline
    /// holds and whose execution is not settled.
    pub open spec fn wf(self) -> bool {
        match self.stage {
            RunStageView::Connecting(phase) => !phase.settled(),
            RunStageView::Running { position, execution, .. } => 0 <= position < self.commands.len()
                && !execution.settled(),
            RunStageView::Finished(_) => true,
        }
    }

    /// The stage in which the command at `position` is taken up after
    /// `failures`: its execution where the pipeline holds such a command,
    /// the end of the pipeline where it does not.
    pub open spec fn take_up(self, position: int, failures: Seq<CommandFailureView>) -> RunStageView {
        if 0 <= position < self.commands.len() {
            RunStageView::Running { position, execution: ExecPhaseView::OpeningChannel, failures }
        } else {
            RunStageView::Finished(outcome_of(failures))
        }
    }

    /// The step that the caller is to perform now, if any is left.
    pub open spec fn request(self) -> Option<RunnerRequestView> {
        match self.stage {
            RunStageView::Connecting(phase) => match (ConnectorView {
                host: self.host,
                phase,
            }).request() {
                Some(step) => Some(RunnerRequestView::Connect(step)),
                None => None,
            },
            RunStageView::Running { position, execution, .. } => match (ExecutorView {
                command: self.commands[position].text,
                phase: execution,
            }).request() {
                Some(step) => Some(RunnerRequestView::Execute { position, step }),
                None => None,
            },
            RunStageView::Finished(_) => None,
        }
    }

    /// The stage after `reply` has come in.
    pub open spec fn next_stage(self, reply: ReplyView) -> RunStageView {
        match self.stage {
            RunStageView::Connecting(phase) => match phase.step(reply) {
                ConnectPhaseView::Established => self.take_up(0, Seq::empty()),
                ConnectPhaseView::Failed(e) => RunStageView::Finished(
                    HostOutcomeView::ConnectionFailed(e),
                ),
                unsettled => RunStageView::Connecting(unsettled),
            },
            RunStageView::Running { position, execution, failures } => match execution.step(reply).result() {
                Some(result) => self.take_up(
                    position + 1,
                    failures + recorded(self.commands[position], result),
                ),
                None => RunStageView::Running { position, execution: execution.step(reply), failures },
            },
            RunStageView::Finished(outcome) => RunStageView::Finished(outcome),
        }
    }

    /// The runner after `reply` has come in.
    pub open spec fn step(self, reply: ReplyView) -> RunnerView {
        RunnerView { host: self.host, commands: self.commands, stage: self.next_stage(reply) }
    }

    /// How the host ended, once it has.
    pub open spec fn outcome(self) -> Option<HostOutcomeView> {
        match self.stage {
            RunStageView::Finished(outcome) => Some(outcome),
            _ => None,
        }
    }
}

impl RunnerRequestView {
    /// The place in the pipeline of the command that the request works on;
    /// `None` for a step towards the session.
    pub open spec fn position(self) -> Option<int> {
        match self {
            RunnerRequestView::Execute { position, .. } => Some(position),
            RunnerRequestView::Connect(_) => None,
        }
    }
}

impl RunnerView {
    /// The runner after the replies have come in, one after the other.
    pub open spec fn run(self, replies: Seq<ReplyView>) -> RunnerView
        decreases replies.len(),
    {
        if replies.len() == 0 {
            self
        } else {
            self.step(replies[0]).run(replies.drop_first())
        }
    }

    /// What is asked of the caller once the first `k` of the replies have
    /// come in.
    pub open spec fn request_after(self, replies: Seq<ReplyView>, k: int) -> Option<
        RunnerRequestView,
    > {
        self.run(replies.take(k)).request()
    }

    /// How far the runner has come: -1 before the session is open, then the
    /// place of the command that is being run, and the length of the
    /// pipeline at the end.
    pub open spec fn progress(self) -> int {
        match self.stage {
            RunStageView::Connecting(_) => -1,
            RunStageView::Running { position, .. } => position,
            RunStageView::Finished(_) => self.commands.len() as int,
        }
    }

    /// The session was opened.
    pub open spec fn connected(self) -> bool {
        match self.stage {
            RunStageView::Connecting(_) => false,
            RunStageView::Running { .. } => true,
            RunStageView::Finished(outcome) => !(outcome is ConnectionFailed),
        }
    }

    /// The most replies that the runner can still take in before it is
    /// finished.
    pub open spec fn steps_left(self) -> int {
        match self.stage {
            RunStageView::Connecting(phase) => (phase.steps_left() + 5 * self.commands.len()) as int,
            RunStageView::Running { position, execution, .. } => execution.steps_left() + 5
                * (self.commands.len() - position - 1),
            RunStageView::Finished(_) => 0,
        }
    }
}

/// The commands that the failures name, in the order of the failures.
pub open spec fn failed_commands(failures: Seq<CommandFailureView>) -> Seq<CommandView> {
    Seq::new(failures.len(), |i: int| failures[i].command)
}

/// `part` can be had from `whole` by leaving commands out: it holds commands
/// of `whole` only, each once for its place, and in the order of `whole`.
pub open spec fn in_order_of(part: Seq<CommandView>, whole: Seq<CommandView>) -> bool
    decreases whole.len(),
{
    if part.len() == 0 {
        true
    } else if whole.len() == 0 {
        false
    } else {
        ||| part.last() == whole.last() && in_order_of(part.drop_last(), whole.drop_last())
        ||| in_order_of(part, whole.drop_last())
    }
}

impl RunnerView {
    /// The failures on the books are failures of commands that were run, in
    /// the order they were run in; and an outcome that lists failures lists
    /// at least one.
    pub open spec fn failures_in_order(self) -> bool {
        match self.stage {
            RunStageView::Connecting(_) => true,
            RunStageView::Running { position, failures, .. } => in_order_of(
                failed_commands(failures),
                self.commands.take(position),
            ),
            RunStageView::Finished(outcome) => outcome matches HostOutcomeView::CompletedWithErrors(
                failures,
            ) ==> failures.len() > 0 && in_order_of(failed_commands(failures), self.commands),
        }
    }
}

/// One reply keeps the failures on the books in the order of the pipeline.
pub proof fn lemma_step_keeps_failures_in_order(s: RunnerView, reply: ReplyView)
    requires
        s.wf(),
        s.failures_in_order(),
    ensures
        s.step(reply).failures_in_order(),
{
    match s.stage {
        RunStageView::Running { position, execution, failures } => {
            match execution.step(reply).result() {
                Some(result) => {
                    let added = recorded(s.commands[position], result);
                    let after = failures + added;
                    let run_before = s.commands.take(position);
                    let run_after = s.commands.take(position + 1);
                    assert(run_after.drop_last() =~= run_before);
                    assert(run_after.last() == s.commands[position]);
                    if added.len() == 0 {
                        assert(after =~= failures);
                    } else {
                        assert(failed_commands(after).drop_last() =~= failed_commands(failures));
                        assert(failed_commands(after).last() == s.commands[position]);
                    }
                    assert(in_order_of(failed_commands(after), run_after));
                    if position + 1 == s.commands.len() {
                        assert(run_after =~= s.commands);
                    }
                },
                None => {},
            }
        },
        _ => {},
    }
}

/// However a run goes, what its outcome lists as failed are commands of
/// the pipeline, in the order of the pipeline, and at least one of them.
pub proof fn lemma_failures_follow_pipeline(
    host: HostView,
    commands: Seq<CommandView>,
    replies: Seq<ReplyView>,
)
    ensures
        RunnerView::start(host, commands).run(replies).outcome() matches Some(
            HostOutcomeView::CompletedWithErrors(failures),
        ) ==> failures.len() > 0 && in_order_of(failed_commands(failures), commands),
{
    lemma_run_keeps_failures_in_order(RunnerView::start(host, commands), replies);
}

/// Any number of replies keep the failures on the books in the order of the
/// pipeline.
proof fn lemma_run_keeps_failures_in_order(s: RunnerView, replies: Seq<ReplyView>)
    requires
        s.wf(),
        s.failures_in_order(),
    ensures
        s.run(replies).failures_in_order(),
        s.run(replies).commands == s.commands,
    decreases replies.len(),
{
    if replies.len() > 0 {
        lemma_step(s, replies[0]);
        lemma_step_keeps_failures_in_order(s, replies[0]);
        lemma_run_keeps_failures_in_order(s.step(replies[0]), replies.drop_first());
    }
}

/// One reply takes a runner to a stage that a runner can be in, for the
/// same host and the same commands. It never takes the runner back, never
/// closes a session that was open, leaves a finished runner as it is, and
/// takes up each command at the opening of its channel, one command after
/// the other.
pub proof fn lemma_step(s: RunnerView, reply: ReplyView)
    requires
        s.wf(),
    ensures
        s.step(reply).wf(),
        s.step(reply).host == s.host,
        s.step(reply).commands == s.commands,
        s.progress() <= s.step(reply).progress(),
        s.connected() ==> s.step(reply).connected(),
        s.stage is Finished ==> s.step(reply) == s,
        !(s.stage is Finished) ==> s.step(reply).steps_left() < s.steps_left(),
        s.step(reply).progress() > s.progress() ==> {
            ||| s.step(reply).stage matches RunStageView::Finished(outcome)
                && outcome is ConnectionFailed
            ||| {
                &&& s.step(reply).progress() == s.progress() + 1
                &&& s.step(reply).connected()
                &&& s.step(reply).progress() < s.commands.len() ==> s.step(reply).request()
                    == Some(
                    RunnerRequestView::Execute {
                        position: s.progress() + 1,
                        step: ExecRequestView::OpenChannel,
                    },
                )
            }
        },
{
}

/// A run can be cut in two at any reply.
pub proof fn lemma_run_split(s: RunnerView, replies: Seq<ReplyView>, k: int)
    requires
        0 <= k <= replies.len(),
    ensures
        s.run(replies) == s.run(replies.take(k)).run(replies.skip(k)),
    decreases k,
{
    if k == 0 {
        assert(replies.skip(0) =~= replies);
    } else {
        let rest = replies.drop_first();
        lemma_run_split(s.step(replies[0]), rest, k - 1);
        assert(replies.take(k).drop_first() =~= rest.take(k - 1));
        assert(replies.skip(k) =~= rest.skip(k - 1));
        assert(replies.take(k)[0] == replies[0]);
    }
}

/// What one reply keeps, any number of replies keep.
pub proof fn lemma_run(s: RunnerView, replies: Seq<ReplyView>)
    requires
        s.wf(),
    ensures
        s.run(replies).wf(),
        s.run(replies).host == s.host,
        s.run(replies).commands == s.commands,
        s.progress() <= s.run(replies).progress(),
        s.connected() ==> s.run(replies).connected(),
        s.stage is Finished ==> s.run(replies) == s,
        replies.len() >= s.steps_left() ==> s.run(replies).stage is Finished,
        s.run(replies).steps_left() <= s.steps_left(),
        replies.len() > 0 && !(s.stage is Finished) ==> s.run(replies).steps_left()
            < s.steps_left(),
    decreases replies.len(),
{
    if replies.len() > 0 {
        lemma_step(s, replies[0]);
        lemma_run(s.step(replies[0]), replies.drop_first());
    }
}

/// Every host is finished after four replies for the session and five for
/// each command, at the latest: nothing that is reported can keep a
/// pipeline from coming to its end.
pub proof fn lemma_runner_finishes(
    host: HostView,
    commands: Seq<CommandView>,
    replies: Seq<ReplyView>,
)
    requires
        replies.len() >= 4 + 5 * commands.len(),
    ensures
        RunnerView::start(host, commands).run(replies).stage is Finished,
{
    lemma_run(RunnerView::start(host, commands), replies);
}

/// Where the session could not be opened, no step of any command was ever
/// asked for: at no point of the run was the pending request an execution.
pub proof fn lemma_failed_connection_runs_no_command(
    host: HostView,
    commands: Seq<CommandView>,
    replies: Seq<ReplyView>,
    k: int,
)
    requires
        RunnerView::start(host, commands).run(replies).outcome() matches Some(outcome)
            && outcome is ConnectionFailed,
        0 <= k <= replies.len(),
    ensures
        !(RunnerView::start(host, commands).request_after(replies, k) matches Some(request)
            && request is Execute),
{
    let start = RunnerView::start(host, commands);
    let mid = start.run(replies.take(k));
    lemma_run(start, replies.take(k));
    lemma_run_split(start, replies, k);
    lemma_run(mid, replies.skip(k));
}

/// A request to execute names a command of the pipeline, and what is
/// submitted for it is the text of that very command.
pub proof fn lemma_request_names_command(s: RunnerView)
    requires
        s.wf(),
    ensures
        s.request() matches Some(RunnerRequestView::Execute { position, step }) ==> {
            &&& 0 <= position < s.commands.len()
            &&& step matches ExecRequestView::Submit(text) ==> text == s.commands[position].text
        },
{
}

/// Commands are run in the order of the pipeline: of two requests of one
/// run, the later one never works on an earlier command.
pub proof fn lemma_commands_run_in_order(
    host: HostView,
    commands: Seq<CommandView>,
    replies: Seq<ReplyView>,
    i: int,
    j: int,
)
    requires
        0 <= i <= j <= replies.len(),
        RunnerView::start(host, commands).request_after(replies, i) matches Some(earlier)
            && earlier is Execute,
        RunnerView::start(host, commands).request_after(replies, j) matches Some(later)
            && later is Execute,
    ensures
        RunnerView::start(host, commands).request_after(replies, i).unwrap().position().unwrap()
            <= RunnerView::start(host, commands).request_after(
            replies,
            j,
        ).unwrap().position().unwrap(),
{
    let start = RunnerView::start(host, commands);
    let first = replies.take(j);
    lemma_run(start, first.take(i));
    lemma_run_split(start, first, i);
    assert(first.take(i) =~= replies.take(i));
    lemma_run(start.run(replies.take(i)), first.skip(i));
}

/// What a runner asks for tells how far it is from its end: two runners
/// over the same commands that ask for the same step have the same number of
/// steps left.
pub proof fn lemma_request_tells_steps_left(one: RunnerView, other: RunnerView)
    requires
        one.wf(),
        other.wf(),
        one.commands == other.commands,
        one.request() is Some,
        one.request() == other.request(),
    ensures
        one.steps_left() == other.steps_left(),
{
}

/// Nothing is asked for twice: no two points of a run have the same pending
/// request. So each command has its channel opened once and is submitted at
/// most once.
pub proof fn lemma_nothing_is_asked_twice(
    host: HostView,
    commands: Seq<CommandView>,
    replies: Seq<ReplyView>,
    i: int,
    j: int,
)
    requires
        0 <= i < j <= replies.len(),
        RunnerView::start(host, commands).request_after(replies, i) is Some,
    ensures
        RunnerView::start(host, commands).request_after(replies, i) != RunnerView::start(
            host,
            commands,
        ).request_after(replies, j),
{
    let start = RunnerView::start(host, commands);
    let first = replies.take(j);
    lemma_run(start, first.take(i));
    lemma_run_split(start, first, i);
    assert(first.take(i) =~= replies.take(i));
    let earlier = start.run(replies.take(i));
    let later = start.run(first);
    lemma_run(earlier, first.skip(i));
    if earlier.request() == later.request() {
        lemma_request_tells_steps_left(earlier, later);
    }
}

/// Between the taking up of a command and a later point of the run at which
/// the runner has come further, every command in between was taken up too.
proof fn lemma_taken_up(s: RunnerView, replies: Seq<ReplyView>, i: int) -> (k: int)
    requires
        s.wf(),
        s.progress() < i < s.commands.len(),
        s.run(replies).connected(),
        i <= s.run(replies).progress(),
    ensures
        0 <= k <= replies.len(),
        s.request_after(replies, k) == Some(
            RunnerRequestView::Execute { position: i, step: ExecRequestView::OpenChannel },
        ),
    decreases replies.len(),
{
    let next = s.step(replies[0]);
    let rest = replies.drop_first();
    lemma_step(s, replies[0]);
    lemma_run(next, rest);
    if next.progress() < i {
        let k = lemma_taken_up(next, rest, i);
        assert(replies.take(k + 1).drop_first() =~= rest.take(k));
        assert(replies.take(k + 1)[0] == replies[0]);
        k + 1
    } else {
        assert(replies.take(1).drop_first() =~= Seq::<ReplyView>::empty());
        assert(replies.take(1)[0] == replies[0]);
        assert(s.run(replies.take(1)) == next.run(Seq::empty()));
        1
    }
}

/// Once a session is open, no command is left out, whatever fails on the
/// way: a host that ends with any outcome but a failed connection was asked
/// to open a channel for each command of its pipeline.
pub proof fn lemma_every_command_is_run(
    host: HostView,
    commands: Seq<CommandView>,
    replies: Seq<ReplyView>,
    i: int,
)
    requires
        RunnerView::start(host, commands).run(replies).outcome() matches Some(outcome) && !(outcome
            is ConnectionFailed),
        0 <= i < commands.len(),
    ensures
        exists|k: int|
            0 <= k <= replies.len() && #[trigger] RunnerView::start(host, commands).request_after(
                replies,
                k,
            ) == Some(
                RunnerRequestView::Execute { position: i, step: ExecRequestView::OpenChannel },
            ),
{
    let start = RunnerView::start(host, commands);
    lemma_run(start, replies);
    let k = lemma_taken_up(start, replies, i);
    assert(0 <= k <= replies.len() && start.request_after(replies, k) == Some(
        RunnerRequestView::Execute { position: i, step: ExecRequestView::OpenChannel },
    ));
}

/// Drives the pipeline of one host.
#[derive(Debug)]
pub struct HostRunner {
    connector: Connector,
    commands: Vec<Command>,
    position: usize,
    executor: Option<Executor>,
    failures: Vec<CommandFailure>,
}

impl View for HostRunner {
    type V = RunnerView;

    closed spec fn view(&self) -> RunnerView {
        RunnerView {
            host: self.connector@.host,
            commands: self.commands.deep_view(),
            stage: match self.connector@.phase {
                ConnectPhaseView::Failed(e) => RunStageView::Finished(
                    HostOutcomeView::ConnectionFailed(e),
                ),
                ConnectPhaseView::Established => match self.executor {
                    Some(x) => RunStageView::Running {
                        position: self.position as int,
                        execution: x@.phase,
                        failures: self.failures.deep_view(),
                    },
                    None => RunStageView::Finished(outcome_of(self.failures.deep_view())),
                },
                unsettled => RunStageView::Connecting(unsettled),
            },
        }
    }
}

impl HostRunner {
    #[verifier::type_invariant]
    spec fn inv(self) -> bool {
        match self.executor {
            Some(x) => {
                &&& self.connector@.phase is Established
                &&& self.position < self.commands.len()
                &&& x@.command == self.commands[self.position as int]@.text
                &&& !x@.phase.settled()
            },
            None => self.connector@.phase is Established || (self.position == 0
                && self.failures.len() == 0),
        }
    }

    /// Puts together the runner that takes up the command at `position`
    /// over an open session.
    fn take_up(
        connector: Connector,
        commands: Vec<Command>,
        position: usize,
        failures: Vec<CommandFailure>,
    ) -> (runner: HostRunner)
        requires
            connector@.phase is Established,
            position <= commands.len(),
        ensures
            runner@.host == connector@.host,
            runner@.commands == commands.deep_view(),
            runner@.stage == runner@.take_up(position as int, failures.deep_view()),
    {
        let executor = if position < commands.len() {
            Some(Executor::new(commands[position].text.as_str()))
        } else {
            None
        };
        HostRunner { connector, commands, position, executor, failures }
    }

    /// A runner that opens a session to `host` and then runs `commands` in
    /// their order.
    pub fn new(host: &Host, commands: Vec<Command>) -> (runner: HostRunner)
        ensures
            runner@ == RunnerView::start(host@, commands.deep_view()),
            runner@.wf(),
    {
        HostRunner {
            connector: Connector::new(host),
            commands,
            position: 0,
            executor: None,
            failures: Vec::new(),
        }
    }

    /// A runner for `host` that runs the pipeline of `config`.
    pub fn for_host(host: &Host, config: &Config) -> (runner: HostRunner)
        ensures
            runner@ == RunnerView::start(host@, pipeline(config@)),
            runner@.wf(),
    {
        HostRunner::new(host, build_pipeline(config))
    }

    /// Whether nothing is left to do for this host.
    pub fn is_finished(&self) -> (r: bool)
        ensures
            r == (self@.stage is Finished),
            self@.wf(),
    {
        proof {
            use_type_invariant(self);
        }
        self.connector.is_settled() && self.executor.is_none()
    }

    /// The step to perform now, or `None` once the host is finished.
    pub fn request(&self) -> (r: Option<RunnerRequest>)
        ensures
            self@.wf(),
            self@.request() == match r {
                Some(q) => Some(q@),
                None => None,
            },
            r is None <==> self@.stage is Finished,
    {
        proof {
            use_type_invariant(self);
        }
        if !self.connector.is_settled() {
            match self.connector.request() {
                Some(step) => Some(RunnerRequest::Connect(step)),
                None => None,
            }
        } else {
            match &self.executor {
                Some(x) => match x.request() {
                    Some(step) => Some(RunnerRequest::Execute { position: self.position, step }),
                    None => None,
                },
                None => None,
            }
        }
    }

    /// Takes in the report on the pending step and moves on: to the next
    /// step of the session or of the command, to the next command once this
    /// one has its result or its error, and to the end after the last
    /// command or a failed connection. A finished runner stays as it is.
    pub fn handle(self, reply: Reply) -> (next: HostRunner)
        ensures
            self@.wf(),
            next@ == self@.step(reply@),
            next@.wf(),
    {
        proof {
            use_type_invariant(&self);
        }
        let HostRunner { connector, commands, position, executor, failures } = self;
        let mut connector = connector;
        if !connector.is_settled() {
            connector.handle(reply);
            if connector.is_established() {
                proof {
                    assert(failures.deep_view() =~= Seq::empty());
                }
                HostRunner::take_up(connector, commands, 0, failures)
            } else {
                HostRunner { connector, commands, position, executor: None, failures }
            }
        } else {
            match executor {
                Some(x) => {
                    let mut x = x;
                    let mut failures = failures;
                    x.handle(reply);
                    match x.result() {
                        Some(result) => {
                            let ghost before = failures.deep_view();
                            match judge(result) {
                                Some(error) => {
                                    let failure = CommandFailure {
                                        command: commands[position].clone(),
                                        error,
                                    };
                                    failures.push(failure);
                                    proof {
                                        assert(failures.deep_view() =~= before + seq![failure@]);
                                    }
                                },
                                None => {
                                    proof {
                                        assert(failures.deep_view() =~= before + Seq::empty());
                                    }
                                },
                            }
                            HostRunner::take_up(connector, commands, position + 1, failures)
                        },
                        None => HostRunner {
                            connector,
                            commands,
                            position,
                            executor: Some(x),
                            failures,
                        },
                    }
                },
                None => HostRunner { connector, commands, position, executor: None, failures },
            }
        }
    }

    /// How the host ended, or `None` while work is left.
    pub fn outcome(&self) -> (r: Option<HostOutcome>)
        ensures
            self@.outcome() == match r {
                Some(outcome) => Some(outcome@),
                None => None,
            },
    {
        proof {
            use_type_invariant(self);
        }
        match self.connector.result() {
            Some(Err(e)) => Some(HostOutcome::ConnectionFailed(e)),
            Some(Ok(_)) => {
                if self.executor.is_none() {
                    Some(HostOutcome::from_failures(clone_failures(&self.failures)))
                } else {
                    None
                }
            },
            None => None,
        }
    }
}

} // verus!
