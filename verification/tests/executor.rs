use fleet_manager::executor::{CommandResult, ExecRequest, ExecStage, ExecutionError, Executor};
use fleet_manager::outcome::{judge, CommandError};
use fleet_manager::reply::Reply;

fn executor_after(replies: Vec<Reply>) -> Executor {
    let mut executor = Executor::new("uptime");
    for reply in replies {
        executor.handle(reply);
    }
    executor
}

fn failed(stage: ExecStage, reason: &str) -> Option<Result<CommandResult, ExecutionError>> {
    Some(Err(ExecutionError { stage, reason: reason.to_string() }))
}

#[test]
fn executor_asks_for_the_five_steps_in_order() {
    let mut executor = Executor::new("uptime");
    assert_eq!(executor.request(), Some(ExecRequest::OpenChannel));
    executor.handle(Reply::Done);
    assert_eq!(executor.request(), Some(ExecRequest::Submit("uptime".to_string())));
    executor.handle(Reply::Done);
    assert_eq!(executor.request(), Some(ExecRequest::ReadOutput));
    executor.handle(Reply::Output("up 3 days\n".to_string()));
    assert_eq!(executor.request(), Some(ExecRequest::AwaitClose));
    executor.handle(Reply::Done);
    assert_eq!(executor.request(), Some(ExecRequest::ReadExitStatus));
    assert!(!executor.is_settled());
    assert_eq!(executor.result(), None);
    executor.handle(Reply::ExitStatus(0));
    assert!(executor.is_settled());
    assert_eq!(executor.request(), None);
    assert_eq!(
        executor.result(),
        Some(Ok(CommandResult { exit_status: 0, output: "up 3 days\n".to_string() }))
    );
}

#[test]
fn non_zero_exit_status_is_still_a_result() {
    let executor = executor_after(vec![
        Reply::Done,
        Reply::Done,
        Reply::Output("E: no such package\n".to_string()),
        Reply::Done,
        Reply::ExitStatus(100),
    ]);
    assert_eq!(
        executor.result(),
        Some(Ok(CommandResult { exit_status: 100, output: "E: no such package\n".to_string() }))
    );
}

#[test]
fn failed_channel_setup_is_an_execution_error() {
    let executor = executor_after(vec![Reply::Failed("channel refused".to_string())]);
    assert_eq!(executor.result(), failed(ExecStage::OpenChannel, "channel refused"));
    assert_eq!(executor.request(), None);
}

#[test]
fn failed_submit_is_an_execution_error() {
    let executor = executor_after(vec![Reply::Done, Reply::Failed("write failed".to_string())]);
    assert_eq!(executor.result(), failed(ExecStage::Submit, "write failed"));
}

#[test]
fn failed_read_is_an_execution_error() {
    let executor =
        executor_after(vec![Reply::Done, Reply::Done, Reply::Failed("read failed".to_string())]);
    assert_eq!(executor.result(), failed(ExecStage::ReadOutput, "read failed"));
}

#[test]
fn missing_close_is_an_execution_error() {
    let executor = executor_after(vec![
        Reply::Done,
        Reply::Done,
        Reply::Output(String::new()),
        Reply::Failed("no close".to_string()),
    ]);
    assert_eq!(executor.result(), failed(ExecStage::AwaitClose, "no close"));
}

#[test]
fn missing_exit_status_is_an_execution_error() {
    let executor = executor_after(vec![
        Reply::Done,
        Reply::Done,
        Reply::Output(String::new()),
        Reply::Done,
        Reply::Failed("no status".to_string()),
    ]);
    assert_eq!(executor.result(), failed(ExecStage::ReadExitStatus, "no status"));
}

#[test]
fn reply_that_the_step_does_not_await_fails_the_execution() {
    let executor = executor_after(vec![Reply::Output("early".to_string())]);
    assert_eq!(executor.result(), failed(ExecStage::OpenChannel, "unexpected reply"));
    let executor = executor_after(vec![Reply::Done, Reply::Done, Reply::Done]);
    assert_eq!(executor.result(), failed(ExecStage::ReadOutput, "unexpected reply"));
    let executor = executor_after(vec![
        Reply::Done,
        Reply::Done,
        Reply::Output(String::new()),
        Reply::ExitStatus(0),
    ]);
    assert_eq!(executor.result(), failed(ExecStage::AwaitClose, "unexpected reply"));
}

#[test]
fn settled_execution_stays_as_it_is() {
    let mut executor = executor_after(vec![Reply::Failed("down".to_string())]);
    executor.handle(Reply::Done);
    executor.handle(Reply::ExitStatus(0));
    assert_eq!(executor.result(), failed(ExecStage::OpenChannel, "down"));
    let mut executor = executor_after(vec![
        Reply::Done,
        Reply::Done,
        Reply::Output("a".to_string()),
        Reply::Done,
        Reply::ExitStatus(7),
    ]);
    executor.handle(Reply::Output("b".to_string()));
    executor.handle(Reply::ExitStatus(0));
    assert_eq!(
        executor.result(),
        Some(Ok(CommandResult { exit_status: 7, output: "a".to_string() }))
    );
}

#[test]
fn zero_exit_status_is_no_failure() {
    assert_eq!(judge(Ok(CommandResult { exit_status: 0, output: "fine".to_string() })), None);
}

#[test]
fn non_zero_exit_status_is_a_command_failure() {
    let done = CommandResult { exit_status: 2, output: "bad".to_string() };
    assert_eq!(judge(Ok(done.clone())), Some(CommandError::CommandFailed(done)));
    let done = CommandResult { exit_status: -1, output: String::new() };
    assert_eq!(judge(Ok(done.clone())), Some(CommandError::CommandFailed(done)));
}

#[test]
fn execution_error_is_a_command_failure() {
    let error = ExecutionError { stage: ExecStage::Submit, reason: "broken pipe".to_string() };
    assert_eq!(judge(Err(error.clone())), Some(CommandError::Execution(error)));
}
