//! The fleet orchestrator: one pipeline per host, each on its own, and the
//! books that are kept on them.
//!
//! A [`Fleet`] holds one slot per configured host. A host is started, then
//! finished with its outcome, and what happens to one slot never touches
//! another. The fleet has a report only once every host is finished,
//! however each of them ended.

use crate::command::{build_pipeline, pipeline};
use crate::config::{Config, ConfigView, Host, HostView};
use crate::outcome::{HostOutcome, HostOutcomeView};
use crate::connector::ConnectRequestView;
use crate::reply::ReplyView;
use crate::runner::{lemma_run, HostRunner, RunnerRequestView, RunnerView};
use vstd::prelude::*;

verus! {

/// How far one host has come.
#[derive(Debug, PartialEq, Eq)]
pub enum HostProgress {
    /// Its pipeline has not been started.
    Pending,
    /// Its pipeline has been started and has not ended.
    Running,
    /// Its pipeline has ended with this outcome.
    Finished(HostOutcome),
}

/// The mathematical value of a [`HostProgress`].
pub enum HostProgressView {
    Pending,
    Running,
    Finished(HostOutcomeView),
}

impl View for HostProgress {
    type V = HostProgressView;

    open spec fn view(&self) -> HostProgressView {
        match self {
            HostProgress::Pending => HostProgressView::Pending,
            HostProgress::Running => HostProgressView::Running,
            HostProgress::Finished(outcome) => HostProgressView::Finished(outcome@),
        }
    }
}

impl Clone for HostProgress {
    fn clone(&self) -> (r: Self)
        ensures
            r@ == self@,
    {
        match self {
            HostProgress::Pending => HostProgress::Pending,
            HostProgress::Running => HostProgress::Running,
            HostProgress::Finished(outcome) => HostProgress::Finished(outcome.clone()),
        }
    }
}

/// The books on one host: its name and how far it has come.
#[derive(Debug, PartialEq, Eq)]
pub struct HostSlot {
    pub name: String,
    pub progress: HostProgress,
}

/// The mathematical value of a [`HostSlot`].
pub struct HostSlotView {
    pub name: Seq<char>,
    pub progress: HostProgressView,
}

impl View for HostSlot {
    type V = HostSlotView;

    open spec fn view(&self) -> HostSlotView {
        HostSlotView { name: self.name@, progress: self.progress@ }
    }
}

impl DeepView for HostSlot {
    type V = HostSlotView;

    open spec fn deep_view(&self) -> HostSlotView {
        self@
    }
}

/// How many hosts ended in which way.
#[derive(Clone, Copy, Debug, PartialEq, Eq, Structural)]
pub struct FleetSummary {
    /// Hosts that were reached and on which nothing failed.
    pub completed: usize,
    /// Hosts to which no session could be opened.
    pub connection_failed: usize,
    /// Hosts that were reached and on which a command failed.
    pub with_command_errors: usize,
}

/// The mathematical value of a [`FleetSummary`].
pub struct FleetSummaryView {
    pub completed: nat,
    pub connection_failed: nat,
    pub with_command_errors: nat,
}

impl View for FleetSummary {
    type V = FleetSummaryView;

    open spec fn view(&self) -> FleetSummaryView {
        FleetSummaryView {
            completed: self.completed as nat,
            connection_failed: self.connection_failed as nat,
            with_command_errors: self.with_command_errors as nat,
        }
    }
}

/// The verdict on a whole fleet run.
#[derive(Clone, Copy, Debug, PartialEq, Eq, Structural)]
pub enum FleetVerdict {
    /// Every host was reached and nothing failed anywhere.
    Success,
    /// Some hosts succeeded and some did not.
    PartialFailure,
    /// No host succeeded.
    TotalFailure,
}

impl FleetSummaryView {
    /// The summary of no host at all.
    pub open spec fn zero() -> FleetSummaryView {
        FleetSummaryView { completed: 0, connection_failed: 0, with_command_errors: 0 }
    }

    /// This summary with one more host that ended as `outcome` says.
    pub open spec fn count(self, outcome: HostOutcomeView) -> FleetSummaryView {
        match outcome {
            HostOutcomeView::Completed => FleetSummaryView {
                completed: self.completed + 1,
                ..self
            },
            HostOutcomeView::ConnectionFailed(_) => FleetSummaryView {
                connection_failed: self.connection_failed + 1,
                ..self
            },
            HostOutcomeView::CompletedWithErrors(_) => FleetSummaryView {
                with_command_errors: self.with_command_errors + 1,
                ..self
            },
        }
    }

    /// The summary of two groups of hosts taken together.
    pub open spec fn plus(self, other: FleetSummaryView) -> FleetSummaryView {
        FleetSummaryView {
            completed: self.completed + other.completed,
            connection_failed: self.connection_failed + other.connection_failed,
            with_command_errors: self.with_command_errors + other.with_command_errors,
        }
    }

    /// The number of hosts that the summary counts.
    pub open spec fn hosts(self) -> nat {
        self.completed + self.connection_failed + self.with_command_errors
    }

    /// Success where no host failed in any way, total failure where hosts
    /// failed and none succeeded, partial failure in between.
    pub open spec fn verdict(self) -> FleetVerdict {
        if self.connection_failed + self.with_command_errors == 0 {
            FleetVerdict::Success
        } else if self.completed == 0 {
            FleetVerdict::TotalFailure
        } else {
            FleetVerdict::PartialFailure
        }
    }
}

/// The summary of the given outcomes.
pub open spec fn tally(outcomes: Seq<HostOutcomeView>) -> FleetSummaryView
    decreases outcomes.len(),
{
    if outcomes.len() == 0 {
        FleetSummaryView::zero()
    } else {
        tally(outcomes.drop_last()).count(outcomes.last())
    }
}

impl FleetVerdict {
    /// The exit status of a process whose run ended this way: zero for success
    /// only.
    pub open spec fn exit_status(self) -> i32 {
        match self {
            FleetVerdict::Success => 0,
            FleetVerdict::PartialFailure => 1,
            FleetVerdict::TotalFailure => 2,
        }
    }

    /// The exit status of a process whose run ended this way: zero for success
    /// only.
    pub fn exit_code(self) -> (code: i32)
        ensures
            code == self.exit_status(),
            code == 0 <==> self == FleetVerdict::Success,
    {
        match self {
            FleetVerdict::Success => 0,
            FleetVerdict::PartialFailure => 1,
            FleetVerdict::TotalFailure => 2,
        }
    }
}

impl FleetSummary {
    /// The verdict that the counts amount to.
    pub fn verdict(&self) -> (v: FleetVerdict)
        ensures
            v == self@.verdict(),
    {
        if self.connection_failed == 0 && self.with_command_errors == 0 {
            FleetVerdict::Success
        } else if self.completed == 0 {
            FleetVerdict::TotalFailure
        } else {
            FleetVerdict::PartialFailure
        }
    }
}

/// Counts how the hosts ended.
pub fn summarize(outcomes: &Vec<HostOutcome>) -> (summary: FleetSummary)
    ensures
        summary@ == tally(outcomes.deep_view()),
        summary@.hosts() == outcomes.len(),
{
    let mut summary = FleetSummary { completed: 0, connection_failed: 0, with_command_errors: 0 };
    let mut i: usize = 0;
    while i < outcomes.len()
        invariant
            i <= outcomes.len(),
            summary@ == tally(outcomes.deep_view().take(i as int)),
            summary@.hosts() == i,
        decreases outcomes.len() - i,
    {
        proof {
            let next = outcomes.deep_view().take(i + 1);
            assert(next.drop_last() =~= outcomes.deep_view().take(i as int));
            assert(next.last() == outcomes[i as int]@);
        }
        match &outcomes[i] {
            HostOutcome::Completed => {
                summary.completed = summary.completed + 1;
            },
            HostOutcome::ConnectionFailed(_) => {
                summary.connection_failed = summary.connection_failed + 1;
            },
            HostOutcome::CompletedWithErrors(_) => {
                summary.with_command_errors = summary.with_command_errors + 1;
            },
        }
        i += 1;
    }
    proof {
        assert(outcomes.deep_view().take(i as int) =~= outcomes.deep_view());
    }
    summary
}

/// How one host ended, under its name.
#[derive(Debug, PartialEq, Eq)]
pub struct HostReport {
    pub name: String,
    pub outcome: HostOutcome,
}

/// The mathematical value of a [`HostReport`].
pub struct HostReportView {
    pub name: Seq<char>,
    pub outcome: HostOutcomeView,
}

impl View for HostReport {
    type V = HostReportView;

    open spec fn view(&self) -> HostReportView {
        HostReportView { name: self.name@, outcome: self.outcome@ }
    }
}

impl DeepView for HostReport {
    type V = HostReportView;

    open spec fn deep_view(&self) -> HostReportView {
        self@
    }
}

/// The final result of a fleet run: how each host ended, how many ended in
/// which way, and the exit status that the run amounts to.
#[derive(Debug, PartialEq, Eq)]
pub struct FleetReport {
    pub hosts: Vec<HostReport>,
    pub summary: FleetSummary,
    pub exit_code: i32,
}

/// The mathematical value of a [`FleetReport`].
pub struct FleetReportView {
    pub hosts: Seq<HostReportView>,
    pub summary: FleetSummaryView,
    pub exit_code: i32,
}

impl View for FleetReport {
    type V = FleetReportView;

    open spec fn view(&self) -> FleetReportView {
        FleetReportView {
            hosts: self.hosts.deep_view(),
            summary: self.summary@,
            exit_code: self.exit_code,
        }
    }
}

/// The mathematical value of a [`Fleet`].
pub struct FleetView {
    pub slots: Seq<HostSlotView>,
}

impl FleetView {
    /// The books on `hosts` before any of them is started: one slot per
    /// host, in the order of the hosts.
    pub open spec fn start(hosts: Seq<HostView>) -> FleetView {
        FleetView {
            slots: Seq::new(
                hosts.len(),
                |i: int| HostSlotView { name: hosts[i].name, progress: HostProgressView::Pending },
            ),
        }
    }

    /// Whether the host at `index` can be started: it is there and pending.
    pub open spec fn can_begin(self, index: int) -> bool {
        0 <= index < self.slots.len() && self.slots[index].progress is Pending
    }

    /// Whether the host at `index` can be finished: it is there and running.
    pub open spec fn can_finish(self, index: int) -> bool {
        0 <= index < self.slots.len() && self.slots[index].progress is Running
    }

    /// The books with the host at `index` at the given progress.
    pub open spec fn with_progress(self, index: int, progress: HostProgressView) -> FleetView {
        FleetView {
            slots: self.slots.update(
                index,
                HostSlotView { name: self.slots[index].name, progress },
            ),
        }
    }

    /// The books after the host at `index` was started. Only a pending host
    /// is started; any other call leaves the books as they are.
    pub open spec fn begin(self, index: int) -> FleetView {
        if self.can_begin(index) {
            self.with_progress(index, HostProgressView::Running)
        } else {
            self
        }
    }

    /// The books after the host at `index` ended with `outcome`. Only a
    /// running host is finished; any other call leaves the books as they
    /// are, so that the first outcome of a host stands.
    pub open spec fn finish(self, index: int, outcome: HostOutcomeView) -> FleetView {
        if self.can_finish(index) {
            self.with_progress(index, HostProgressView::Finished(outcome))
        } else {
            self
        }
    }

    /// Every host is finished.
    pub open spec fn complete(self) -> bool {
        forall|i: int| 0 <= i < self.slots.len() ==> (#[trigger] self.slots[i]).progress is Finished
    }

    /// The outcomes of the hosts, in the order of the hosts, for books that
    /// are complete.
    pub open spec fn outcomes(self) -> Seq<HostOutcomeView> {
        Seq::new(self.slots.len(), |i: int| self.slots[i].progress->Finished_0)
    }

    /// The final result, for books that are complete: every host under its
    /// name with its outcome, in the order of the hosts, the summary of the
    /// outcomes, and the exit status of its verdict.
    pub open spec fn report(self) -> FleetReportView {
        FleetReportView {
            hosts: Seq::new(
                self.slots.len(),
                |i: int|
                    HostReportView {
                        name: self.slots[i].name,
                        outcome: self.slots[i].progress->Finished_0,
                    },
            ),
            summary: tally(self.outcomes()),
            exit_code: tally(self.outcomes()).verdict().exit_status(),
        }
    }
}

impl FleetView {
    /// The books after each of the records was entered in turn, a record
    /// being a host's place and the outcome reported for it.
    pub open spec fn absorb(self, records: Seq<(int, HostOutcomeView)>) -> FleetView
        decreases records.len(),
    {
        if records.len() == 0 {
            self
        } else {
            self.finish(records[0].0, records[0].1).absorb(records.drop_first())
        }
    }
}

/// Where every host of `config` stands after its own replies have come in:
/// one runner per host, and for each host nothing but its own replies.
pub open spec fn fleet_run(config: ConfigView, replies: Seq<Seq<ReplyView>>) -> Seq<RunnerView> {
    Seq::new(
        config.hosts.len(),
        |i: int| RunnerView::start(config.hosts[i], pipeline(config)).run(replies[i]),
    )
}

/// A fleet run holds exactly one pipeline per configured host. Each starts
/// by asking for a connection to its own host, and each comes to its end
/// once its own replies are in, however the others fare.
pub proof fn lemma_every_host_is_attempted(config: ConfigView, replies: Seq<Seq<ReplyView>>)
    ensures
        fleet_run(config, replies).len() == config.hosts.len(),
        forall|i: int|
            0 <= i < config.hosts.len() ==> {
                &&& (#[trigger] fleet_run(config, replies)[i]).host == config.hosts[i]
                &&& fleet_run(config, replies)[i].commands == pipeline(config)
                &&& RunnerView::start(config.hosts[i], pipeline(config)).request() == Some(
                    RunnerRequestView::Connect(
                        ConnectRequestView::OpenSocket {
                            address: config.hosts[i].address,
                            port: config.hosts[i].port,
                        },
                    ),
                )
                &&& replies[i].len() >= 4 + 5 * pipeline(config).len() ==> fleet_run(
                    config,
                    replies,
                )[i].stage is Finished
            },
{
    assert forall|i: int| 0 <= i < config.hosts.len() implies {
        &&& (#[trigger] fleet_run(config, replies)[i]).host == config.hosts[i]
        &&& fleet_run(config, replies)[i].commands == pipeline(config)
        &&& replies[i].len() >= 4 + 5 * pipeline(config).len() ==> fleet_run(
            config,
            replies,
        )[i].stage is Finished
    } by {
        lemma_run(RunnerView::start(config.hosts[i], pipeline(config)), replies[i]);
    }
}

/// What happens on one host never reaches another: where two fleet runs
/// bring a host the same replies, the host stands the same in both,
/// whatever the other hosts were told.
pub proof fn lemma_hosts_are_isolated(
    config: ConfigView,
    one: Seq<Seq<ReplyView>>,
    other: Seq<Seq<ReplyView>>,
    host: int,
)
    requires
        0 <= host < config.hosts.len(),
        one[host] == other[host],
    ensures
        fleet_run(config, one)[host] == fleet_run(config, other)[host],
{
}

/// Starting or finishing one host leaves the books on every other host as
/// they are.
pub proof fn lemma_books_are_isolated(
    fleet: FleetView,
    touched: int,
    outcome: HostOutcomeView,
    other: int,
)
    requires
        0 <= other < fleet.slots.len(),
        other != touched,
    ensures
        fleet.begin(touched).slots.len() == fleet.slots.len(),
        fleet.finish(touched, outcome).slots.len() == fleet.slots.len(),
        fleet.begin(touched).slots[other] == fleet.slots[other],
        fleet.finish(touched, outcome).slots[other] == fleet.slots[other],
{
}

/// Entering records never changes the number of hosts, nor the books on a
/// host that is not running.
proof fn lemma_absorb_keeps(fleet: FleetView, records: Seq<(int, HostOutcomeView)>, host: int)
    requires
        !fleet.can_finish(host),
    ensures
        fleet.absorb(records).slots.len() == fleet.slots.len(),
        !fleet.absorb(records).can_finish(host),
        0 <= host < fleet.slots.len() ==> fleet.absorb(records).slots[host] == fleet.slots[host],
    decreases records.len(),
{
    if records.len() > 0 {
        lemma_absorb_keeps(fleet.finish(records[0].0, records[0].1), records.drop_first(), host);
    }
}

/// Once records are entered, none of the hosts they name is still running.
proof fn lemma_absorb_settles(fleet: FleetView, records: Seq<(int, HostOutcomeView)>, k: int)
    requires
        0 <= k < records.len(),
    ensures
        !fleet.absorb(records).can_finish(records[k].0),
    decreases records.len(),
{
    let next = fleet.finish(records[0].0, records[0].1);
    let rest = records.drop_first();
    if k == 0 {
        lemma_absorb_keeps(next, rest, records[0].0);
    } else {
        lemma_absorb_settles(next, rest, k - 1);
    }
}

/// Records that name no running host change nothing.
proof fn lemma_absorb_nothing(fleet: FleetView, records: Seq<(int, HostOutcomeView)>)
    requires
        forall|k: int| 0 <= k < records.len() ==> !fleet.can_finish((#[trigger] records[k]).0),
    ensures
        fleet.absorb(records) == fleet,
    decreases records.len(),
{
    if records.len() > 0 {
        let rest = records.drop_first();
        assert(!fleet.can_finish(records[0].0));
        assert forall|k: int| 0 <= k < rest.len() implies !fleet.can_finish(
            (#[trigger] rest[k]).0,
        ) by {
            assert(rest[k] == records[k + 1]);
        }
        lemma_absorb_nothing(fleet, rest);
    }
}

/// The first outcome of a host stands: a second report for the same host
/// changes nothing.
pub proof fn lemma_first_outcome_stands(
    fleet: FleetView,
    host: int,
    first: HostOutcomeView,
    second: HostOutcomeView,
)
    ensures
        fleet.finish(host, first).finish(host, second) == fleet.finish(host, first),
{
}

/// Aggregation is idempotent: entering the same records a second time
/// leaves the books, and with them the outcomes and the summary, exactly as
/// the first time left them.
pub proof fn lemma_aggregation_idempotent(fleet: FleetView, records: Seq<(int, HostOutcomeView)>)
    ensures
        fleet.absorb(records).absorb(records) == fleet.absorb(records),
        tally(fleet.absorb(records).absorb(records).outcomes()) == tally(
            fleet.absorb(records).outcomes(),
        ),
{
    let once = fleet.absorb(records);
    assert forall|k: int| 0 <= k < records.len() implies !once.can_finish(
        (#[trigger] records[k]).0,
    ) by {
        lemma_absorb_settles(fleet, records, k);
    }
    lemma_absorb_nothing(once, records);
}

/// A summary counts every host once: its three counts add up to the number
/// of outcomes.
pub proof fn lemma_tally_counts_every_host(outcomes: Seq<HostOutcomeView>)
    ensures
        tally(outcomes).hosts() == outcomes.len(),
    decreases outcomes.len(),
{
    if outcomes.len() > 0 {
        lemma_tally_counts_every_host(outcomes.drop_last());
    }
}

/// The summary of two groups of hosts is the sum of their summaries, in
/// whichever order the groups are taken.
pub proof fn lemma_tally_plus(one: Seq<HostOutcomeView>, other: Seq<HostOutcomeView>)
    ensures
        tally(one + other) == tally(one).plus(tally(other)),
        tally(one + other) == tally(other + one),
{
    lemma_tally_concat(one, other);
    lemma_tally_concat(other, one);
}

/// The summary of two groups of hosts is the sum of their summaries.
proof fn lemma_tally_concat(one: Seq<HostOutcomeView>, other: Seq<HostOutcomeView>)
    ensures
        tally(one + other) == tally(one).plus(tally(other)),
    decreases other.len(),
{
    if other.len() == 0 {
        assert(one + other =~= one);
    } else {
        lemma_tally_concat(one, other.drop_last());
        assert((one + other).drop_last() =~= one + other.drop_last());
        assert((one + other).last() == other.last());
    }
}

/// The run is a success exactly when every host was reached and nothing
/// failed on any of them.
pub proof fn lemma_success_means_all_succeeded(outcomes: Seq<HostOutcomeView>)
    ensures
        tally(outcomes).verdict() == FleetVerdict::Success <==> forall|i: int|
            0 <= i < outcomes.len() ==> (#[trigger] outcomes[i]).succeeded(),
    decreases outcomes.len(),
{
    if outcomes.len() > 0 {
        let front = outcomes.drop_last();
        lemma_success_means_all_succeeded(front);
        if tally(outcomes).verdict() == FleetVerdict::Success {
            assert forall|i: int| 0 <= i < outcomes.len() implies (#[trigger] outcomes[i]).succeeded() by {
                if i < front.len() {
                    assert(front[i] == outcomes[i]);
                }
            }
        }
        if forall|i: int| 0 <= i < outcomes.len() ==> (#[trigger] outcomes[i]).succeeded() {
            assert forall|i: int| 0 <= i < front.len() implies (#[trigger] front[i]).succeeded() by {
                assert(front[i] == outcomes[i]);
            }
            assert(outcomes.last() == outcomes[outcomes.len() - 1]);
        }
    }
}

/// Keeps the books on the hosts of one fleet run.
#[derive(Debug)]
pub struct Fleet {
    slots: Vec<HostSlot>,
}

impl View for Fleet {
    type V = FleetView;

    closed spec fn view(&self) -> FleetView {
        FleetView { slots: self.slots.deep_view() }
    }
}

/// One runner per host of `config`, in the order of the hosts, each about
/// to open its own session and each with the whole pipeline before it.
pub fn launch(config: &Config) -> (runners: Vec<HostRunner>)
    ensures
        runners.len() == config.hosts.len(),
        forall|i: int|
            0 <= i < runners.len() ==> (#[trigger] runners[i])@ == RunnerView::start(
                config@.hosts[i],
                pipeline(config@),
            ),
{
    let mut runners: Vec<HostRunner> = Vec::new();
    let mut i: usize = 0;
    while i < config.hosts.len()
        invariant
            i <= config.hosts.len(),
            runners.len() == i,
            forall|j: int|
                0 <= j < i ==> (#[trigger] runners[j])@ == RunnerView::start(
                    config@.hosts[j],
                    pipeline(config@),
                ),
        decreases config.hosts.len() - i,
    {
        let runner = HostRunner::new(&config.hosts[i], build_pipeline(config));
        runners.push(runner);
        i += 1;
    }
    runners
}

impl Fleet {
    /// The books on `hosts`, none of them started.
    pub fn new(hosts: &Vec<Host>) -> (fleet: Fleet)
        ensures
            fleet@ == FleetView::start(hosts.deep_view()),
    {
        let mut slots: Vec<HostSlot> = Vec::new();
        let mut i: usize = 0;
        while i < hosts.len()
            invariant
                i <= hosts.len(),
                slots.deep_view() =~= FleetView::start(hosts.deep_view().take(i as int)).slots,
            decreases hosts.len() - i,
        {
            let ghost before = slots.deep_view();
            slots.push(HostSlot { name: hosts[i].name.clone(), progress: HostProgress::Pending });
            proof {
                assert(hosts.deep_view().take(i + 1)[i as int] == hosts[i as int]@);
                assert(slots.deep_view() =~= before.push(
                    HostSlotView { name: hosts[i as int]@.name, progress: HostProgressView::Pending },
                ));
            }
            i += 1;
        }
        proof {
            assert(hosts.deep_view().take(i as int) =~= hosts.deep_view());
        }
        Fleet { slots }
    }

    /// The number of hosts.
    pub fn len(&self) -> (n: usize)
        ensures
            n == self@.slots.len(),
    {
        self.slots.len()
    }

    /// How far the host at `index` has come; `None` where there is no such
    /// host.
    pub fn progress(&self, index: usize) -> (r: Option<HostProgress>)
        ensures
            match r {
                Some(p) => index < self@.slots.len() && p@ == self@.slots[index as int].progress,
                None => index >= self@.slots.len(),
            },
    {
        if index < self.slots.len() {
            Some(self.slots[index].progress.clone())
        } else {
            None
        }
    }

    /// Puts the host at `index` at the given progress.
    fn set_progress(&mut self, index: usize, progress: HostProgress)
        requires
            index < old(self)@.slots.len(),
        ensures
            final(self)@ == old(self)@.with_progress(index as int, progress@),
    {
        let ghost before = self.slots.deep_view();
        let slot = HostSlot { name: self.slots[index].name.clone(), progress };
        self.slots.set(index, slot);
        proof {
            assert(self.slots.deep_view() =~= before.update(index as int, slot@));
        }
    }

    /// Starts the host at `index`. Returns whether it was started: only a
    /// pending host is, and any other call changes nothing.
    pub fn begin(&mut self, index: usize) -> (started: bool)
        ensures
            started == old(self)@.can_begin(index as int),
            final(self)@ == old(self)@.begin(index as int),
    {
        if index >= self.slots.len() {
            return false;
        }
        match &self.slots[index].progress {
            HostProgress::Pending => {},
            _ => {
                return false;
            },
        }
        self.set_progress(index, HostProgress::Running);
        true
    }

    /// Finishes the host at `index` with `outcome`. Returns whether the
    /// outcome was taken: only a running host is finished, and any other
    /// call changes nothing.
    pub fn finish(&mut self, index: usize, outcome: HostOutcome) -> (taken: bool)
        ensures
            taken == old(self)@.can_finish(index as int),
            final(self)@ == old(self)@.finish(index as int, outcome@),
    {
        if index >= self.slots.len() {
            return false;
        }
        match &self.slots[index].progress {
            HostProgress::Running => {},
            _ => {
                return false;
            },
        }
        self.set_progress(index, HostProgress::Finished(outcome));
        true
    }

    /// Whether every host is finished.
    pub fn is_complete(&self) -> (r: bool)
        ensures
            r == self@.complete(),
    {
        let mut i: usize = 0;
        while i < self.slots.len()
            invariant
                i <= self.slots.len(),
                forall|j: int| 0 <= j < i ==> (#[trigger] self@.slots[j]).progress is Finished,
            decreases self.slots.len() - i,
        {
            match &self.slots[i].progress {
                HostProgress::Finished(_) => {},
                _ => {
                    assert(!(self@.slots[i as int].progress is Finished));
                    return false;
                },
            }
            i += 1;
        }
        true
    }

    /// The outcomes of all hosts, in the order of the hosts, once every
    /// host is finished; `None` as long as one is not.
    pub fn outcomes(&self) -> (r: Option<Vec<HostOutcome>>)
        ensures
            r is Some <==> self@.complete(),
            r matches Some(outcomes) ==> outcomes.deep_view() == self@.outcomes(),
    {
        let mut outcomes: Vec<HostOutcome> = Vec::new();
        let mut i: usize = 0;
        while i < self.slots.len()
            invariant
                i <= self.slots.len(),
                outcomes.len() == i,
                forall|j: int| 0 <= j < i ==> (#[trigger] self@.slots[j]).progress is Finished,
                forall|j: int|
                    0 <= j < i ==> (#[trigger] outcomes[j])@ == self@.slots[j].progress->Finished_0,
            decreases self.slots.len() - i,
        {
            match &self.slots[i].progress {
                HostProgress::Finished(outcome) => {
                    outcomes.push(outcome.clone());
                },
                _ => {
                    assert(!(self@.slots[i as int].progress is Finished));
                    return None;
                },
            }
            i += 1;
        }
        proof {
            assert(outcomes.deep_view() =~= self@.outcomes());
        }
        Some(outcomes)
    }

    /// The final result of the run once every host is finished, however
    /// each of them ended; `None` as long as one is not.
    pub fn report(&self) -> (r: Option<FleetReport>)
        ensures
            r is Some <==> self@.complete(),
            r matches Some(report) ==> report@ == self@.report(),
    {
        let summary = match self.outcomes() {
            Some(outcomes) => summarize(&outcomes),
            None => {
                return None;
            },
        };
        let mut hosts: Vec<HostReport> = Vec::new();
        let mut i: usize = 0;
        while i < self.slots.len()
            invariant
                self@.complete(),
                i <= self.slots.len(),
                hosts.len() == i,
                forall|j: int| 0 <= j < i ==> (#[trigger] hosts[j])@ == self@.report().hosts[j],
            decreases self.slots.len() - i,
        {
            assert(self@.slots[i as int].progress is Finished);
            match &self.slots[i].progress {
                HostProgress::Finished(outcome) => {
                    hosts.push(
                        HostReport { name: self.slots[i].name.clone(), outcome: outcome.clone() },
                    );
                },
                _ => {},
            }
            i += 1;
        }
        let report = FleetReport { hosts, summary, exit_code: summary.verdict().exit_code() };
        proof {
            assert(report@.hosts =~= self@.report().hosts);
        }
        Some(report)
    }

    /// The summary of the run once every host is finished; `None` as long
    /// as one is not.
    pub fn summary(&self) -> (r: Option<FleetSummary>)
        ensures
            r is Some <==> self@.complete(),
            r matches Some(summary) ==> summary@ == tally(self@.outcomes()) && summary@.hosts()
                == self@.slots.len(),
    {
        match self.outcomes() {
            Some(outcomes) => Some(summarize(&outcomes)),
            None => None,
        }
    }
}

} // verus!
