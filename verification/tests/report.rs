use fleet_manager::command::{Command, CommandKind};
use fleet_manager::connector::ConnectError;
use fleet_manager::executor::{CommandResult, ExecStage, ExecutionError};
use fleet_manager::fleet::FleetSummary;
use fleet_manager::outcome::{CommandError, CommandFailure, HostOutcome};
use fleet_manager::report::{
    command_failure_line, connect_failure_line, describe_command_error, describe_connect_error,
    done_message, render_decimal, render_exit_status, start_message, status_message, summary_line,
};

fn failure(code: i32) -> CommandFailure {
    CommandFailure {
        command: Command {
            kind: CommandKind::CloneRepository,
            text: "git clone https://example.org/a.git".to_string(),
        },
        error: CommandError::CommandFailed(CommandResult {
            exit_status: code,
            output: "fatal".to_string(),
        }),
    }
}

#[test]
fn decimal_of_small_numbers() {
    assert_eq!(render_decimal(0), "0");
    assert_eq!(render_decimal(7), "7");
    assert_eq!(render_decimal(9), "9");
    assert_eq!(render_decimal(10), "10");
    assert_eq!(render_decimal(42), "42");
    assert_eq!(render_decimal(100), "100");
}

#[test]
fn decimal_of_large_numbers() {
    assert_eq!(render_decimal(1234567890), "1234567890");
    assert_eq!(render_decimal(u64::MAX), "18446744073709551615");
}

#[test]
fn decimal_agrees_with_the_standard_rendering() {
    for n in (0..5000u64).chain([65535, 65536, 99999, 100000, 4294967295]) {
        assert_eq!(render_decimal(n), n.to_string());
    }
}

#[test]
fn exit_status_may_be_negative() {
    assert_eq!(render_exit_status(0), "0");
    assert_eq!(render_exit_status(127), "127");
    assert_eq!(render_exit_status(-1), "-1");
    assert_eq!(render_exit_status(i32::MAX), "2147483647");
    assert_eq!(render_exit_status(i32::MIN), "-2147483648");
}

#[test]
fn progress_messages_name_the_host() {
    assert_eq!(start_message("web1"), "Pushing to web1");
    assert_eq!(done_message("web1"), "Done with web1");
    assert_eq!(start_message(""), "Pushing to ");
}

#[test]
fn connect_errors_in_words() {
    assert_eq!(
        describe_connect_error(&ConnectError::Connection("timed out".to_string())),
        "connection error: timed out"
    );
    assert_eq!(
        describe_connect_error(&ConnectError::Authentication("denied".to_string())),
        "authentication error: denied"
    );
    assert_eq!(
        connect_failure_line("web1", &ConnectError::Connection("timed out".to_string())),
        "Error connecting to host web1: connection error: timed out"
    );
}

#[test]
fn command_errors_in_words() {
    assert_eq!(describe_command_error(&failure(128).error), "exit status 128");
    assert_eq!(describe_command_error(&failure(-2).error), "exit status -2");
    assert_eq!(
        describe_command_error(&CommandError::Execution(ExecutionError {
            stage: ExecStage::ReadOutput,
            reason: "connection reset".to_string(),
        })),
        "execution error: connection reset"
    );
    assert_eq!(
        command_failure_line(&failure(128)),
        "Error executing command 'git clone https://example.org/a.git': exit status 128"
    );
}

#[test]
fn status_of_each_kind_of_outcome() {
    assert_eq!(
        status_message(&HostOutcome::Completed),
        "connected successfully and ran to completion"
    );
    assert_eq!(
        status_message(&HostOutcome::ConnectionFailed(ConnectError::Connection(
            "down".to_string()
        ))),
        "failed to connect"
    );
    assert_eq!(
        status_message(&HostOutcome::CompletedWithErrors(vec![failure(1), failure(2)])),
        "completed with 2 command errors"
    );
    let many: Vec<CommandFailure> = (0..12).map(failure).collect();
    assert_eq!(
        status_message(&HostOutcome::CompletedWithErrors(many)),
        "completed with 12 command errors"
    );
}

#[test]
fn closing_line_counts_the_hosts() {
    let summary = FleetSummary { completed: 12, connection_failed: 0, with_command_errors: 3 };
    assert_eq!(
        summary_line(&summary),
        "Done with all hosts! 12 completed, 0 failed to connect, 3 completed with command errors"
    );
}
