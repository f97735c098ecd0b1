use fleet_manager::command::{Command, CommandKind};
use fleet_manager::config::Host;
use fleet_manager::connector::ConnectError;
use fleet_manager::executor::{ExecStage, ExecutionError};
use fleet_manager::config::{clone_hosts, clone_words, Config, Packages, Repositories, Services, Users};
use fleet_manager::fleet::{
    summarize, Fleet, FleetReport, FleetSummary, FleetVerdict, HostProgress, HostReport,
};
use fleet_manager::outcome::{CommandError, CommandFailure, HostOutcome};

fn hosts(names: &[&str]) -> Vec<Host> {
    names
        .iter()
        .map(|name| Host {
            name: name.to_string(),
            address: format!("{}.example.org", name),
            port: 22,
            user: "root".to_string(),
            password: "secret".to_string(),
            key_path: None,
        })
        .collect()
}

fn unreachable() -> HostOutcome {
    HostOutcome::ConnectionFailed(ConnectError::Connection("network unreachable".to_string()))
}

fn with_errors() -> HostOutcome {
    HostOutcome::CompletedWithErrors(vec![CommandFailure {
        command: Command { kind: CommandKind::EnableService, text: "x".to_string() },
        error: CommandError::Execution(ExecutionError {
            stage: ExecStage::OpenChannel,
            reason: "refused".to_string(),
        }),
    }])
}

#[test]
fn new_fleet_has_one_pending_slot_per_host() {
    let fleet = Fleet::new(&hosts(&["a", "b", "c"]));
    assert_eq!(fleet.len(), 3);
    for i in 0..3 {
        assert_eq!(fleet.progress(i), Some(HostProgress::Pending));
    }
    assert_eq!(fleet.progress(3), None);
    assert!(!fleet.is_complete());
    assert_eq!(fleet.outcomes(), None);
    assert_eq!(fleet.summary(), None);
}

#[test]
fn only_a_pending_host_is_started() {
    let mut fleet = Fleet::new(&hosts(&["a", "b"]));
    assert!(fleet.begin(0));
    assert_eq!(fleet.progress(0), Some(HostProgress::Running));
    assert_eq!(fleet.progress(1), Some(HostProgress::Pending));
    assert!(!fleet.begin(0));
    assert!(!fleet.begin(2));
    assert_eq!(fleet.progress(0), Some(HostProgress::Running));
    assert!(fleet.finish(0, HostOutcome::Completed));
    assert!(!fleet.begin(0));
    assert_eq!(fleet.progress(0), Some(HostProgress::Finished(HostOutcome::Completed)));
}

#[test]
fn only_a_running_host_is_finished() {
    let mut fleet = Fleet::new(&hosts(&["a", "b"]));
    assert!(!fleet.finish(0, HostOutcome::Completed));
    assert_eq!(fleet.progress(0), Some(HostProgress::Pending));
    assert!(!fleet.finish(5, HostOutcome::Completed));
    assert!(fleet.begin(1));
    assert!(fleet.finish(1, unreachable()));
    assert_eq!(fleet.progress(1), Some(HostProgress::Finished(unreachable())));
    assert_eq!(fleet.progress(0), Some(HostProgress::Pending));
}

#[test]
fn first_outcome_of_a_host_stands() {
    let mut fleet = Fleet::new(&hosts(&["a"]));
    assert!(fleet.begin(0));
    assert!(fleet.finish(0, unreachable()));
    assert!(!fleet.finish(0, HostOutcome::Completed));
    assert_eq!(fleet.outcomes(), Some(vec![unreachable()]));
}

#[test]
fn fleet_is_complete_only_when_every_host_is_finished() {
    let mut fleet = Fleet::new(&hosts(&["a", "b", "c"]));
    for i in 0..3 {
        assert!(fleet.begin(i));
    }
    assert!(fleet.finish(0, unreachable()));
    assert!(fleet.finish(2, HostOutcome::Completed));
    assert!(!fleet.is_complete());
    assert_eq!(fleet.outcomes(), None);
    assert_eq!(fleet.summary(), None);
    assert!(fleet.finish(1, with_errors()));
    assert!(fleet.is_complete());
    assert_eq!(fleet.outcomes(), Some(vec![unreachable(), with_errors(), HostOutcome::Completed]));
    assert_eq!(
        fleet.summary(),
        Some(FleetSummary { completed: 1, connection_failed: 1, with_command_errors: 1 })
    );
}

#[test]
fn fleet_without_hosts_is_complete_and_a_success() {
    let fleet = Fleet::new(&hosts(&[]));
    assert_eq!(fleet.len(), 0);
    assert!(fleet.is_complete());
    assert_eq!(fleet.outcomes(), Some(vec![]));
    let summary = fleet.summary().unwrap();
    assert_eq!(summary, FleetSummary { completed: 0, connection_failed: 0, with_command_errors: 0 });
    assert_eq!(summary.verdict(), FleetVerdict::Success);
    assert_eq!(summary.verdict().exit_code(), 0);
}

#[test]
fn summary_counts_each_kind_of_outcome() {
    let outcomes = vec![
        HostOutcome::Completed,
        unreachable(),
        with_errors(),
        with_errors(),
        HostOutcome::Completed,
        HostOutcome::Completed,
    ];
    assert_eq!(
        summarize(&outcomes),
        FleetSummary { completed: 3, connection_failed: 1, with_command_errors: 2 }
    );
    assert_eq!(
        summarize(&vec![]),
        FleetSummary { completed: 0, connection_failed: 0, with_command_errors: 0 }
    );
}

#[test]
fn summary_does_not_depend_on_the_order_of_the_hosts() {
    let one = vec![HostOutcome::Completed, unreachable(), with_errors()];
    let other = vec![with_errors(), HostOutcome::Completed, unreachable()];
    assert_eq!(summarize(&one), summarize(&other));
}

#[test]
fn run_is_a_success_only_if_every_host_succeeded() {
    let all = summarize(&vec![HostOutcome::Completed, HostOutcome::Completed]);
    assert_eq!(all.verdict(), FleetVerdict::Success);
    assert_eq!(all.verdict().exit_code(), 0);
    let some = summarize(&vec![HostOutcome::Completed, with_errors()]);
    assert_eq!(some.verdict(), FleetVerdict::PartialFailure);
    assert_eq!(some.verdict().exit_code(), 1);
    let some = summarize(&vec![unreachable(), HostOutcome::Completed]);
    assert_eq!(some.verdict(), FleetVerdict::PartialFailure);
    let none = summarize(&vec![unreachable(), with_errors()]);
    assert_eq!(none.verdict(), FleetVerdict::TotalFailure);
    assert_eq!(none.verdict().exit_code(), 2);
}

#[test]
fn outcome_knows_whether_it_succeeded() {
    assert!(HostOutcome::Completed.succeeded());
    assert!(!unreachable().succeeded());
    assert!(!with_errors().succeeded());
    assert_eq!(HostOutcome::Completed.failure_count(), 0);
    assert_eq!(unreachable().failure_count(), 0);
    assert_eq!(with_errors().failure_count(), 1);
    assert_eq!(HostOutcome::from_failures(vec![]), HostOutcome::Completed);
    let failures = match with_errors() {
        HostOutcome::CompletedWithErrors(failures) => failures,
        _ => unreachable!(),
    };
    assert_eq!(HostOutcome::from_failures(failures), with_errors());
}

#[test]
fn cloned_outcome_equals_the_original() {
    assert_eq!(with_errors().clone(), with_errors());
    assert_eq!(unreachable().clone(), unreachable());
    assert_eq!(HostOutcome::Completed.clone(), HostOutcome::Completed);
}

#[test]
fn report_comes_only_when_every_host_is_finished() {
    let mut fleet = Fleet::new(&hosts(&["a", "b"]));
    assert_eq!(fleet.report(), None);
    assert!(fleet.begin(0));
    assert!(fleet.begin(1));
    assert!(fleet.finish(1, unreachable()));
    assert_eq!(fleet.report(), None);
    assert!(fleet.finish(0, HostOutcome::Completed));
    assert_eq!(
        fleet.report(),
        Some(FleetReport {
            hosts: vec![
                HostReport { name: "a".to_string(), outcome: HostOutcome::Completed },
                HostReport { name: "b".to_string(), outcome: unreachable() },
            ],
            summary: FleetSummary { completed: 1, connection_failed: 1, with_command_errors: 0 },
            exit_code: 1,
        })
    );
}

#[test]
fn report_of_a_clean_run_exits_with_zero() {
    let mut fleet = Fleet::new(&hosts(&["a", "b", "c"]));
    for i in 0..3 {
        assert!(fleet.begin(i));
        assert!(fleet.finish(i, HostOutcome::Completed));
    }
    let report = fleet.report().unwrap();
    assert_eq!(report.exit_code, 0);
    assert_eq!(report.hosts.len(), 3);
    assert_eq!(
        report.summary,
        FleetSummary { completed: 3, connection_failed: 0, with_command_errors: 0 }
    );
}

#[test]
fn report_of_a_run_without_success_exits_with_two() {
    let mut fleet = Fleet::new(&hosts(&["a", "b"]));
    for i in 0..2 {
        assert!(fleet.begin(i));
    }
    assert!(fleet.finish(0, with_errors()));
    assert!(fleet.finish(1, unreachable()));
    assert_eq!(fleet.report().unwrap().exit_code, 2);
}

#[test]
fn cloned_config_equals_the_original() {
    let config = Config {
        hosts: hosts(&["a", "b"]),
        packages: Packages { global: vec!["curl".to_string()] },
        users: Users { global: vec!["alice".to_string(), "bob".to_string()] },
        services: Services { enable: vec!["nginx".to_string()], restart: vec![] },
        repositories: Repositories { global: vec!["https://example.org/a.git".to_string()] },
    };
    assert_eq!(config.clone(), config);
    assert_eq!(clone_hosts(&config.hosts), config.hosts);
    assert_eq!(clone_words(&config.users.global), config.users.global);
}
