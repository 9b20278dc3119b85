use code_judge::model::JudgeResult;
use code_judge::runner::{
    classify, classify_run, run_action, run_step, Observation, RunAction, RunEvent, RunState,
};

fn run(events: Vec<RunEvent>, expected: &str) -> RunState {
    let expected = expected.to_string();
    let mut state = RunState::Idle;
    for e in events.iter() {
        state = run_step(state, e, &expected);
    }
    state
}

#[test]
fn equal_output_is_okay() {
    assert_eq!(classify(&"7".to_string(), &"7".to_string()), JudgeResult::Okay);
    assert_eq!(classify(&"".to_string(), &"".to_string()), JudgeResult::Okay);
}

#[test]
fn any_difference_is_invalid() {
    assert_eq!(classify(&"7\n".to_string(), &"7".to_string()), JudgeResult::Invalid);
    assert_eq!(classify(&" 7".to_string(), &"7".to_string()), JudgeResult::Invalid);
    assert_eq!(classify(&"wrong\n".to_string(), &"7".to_string()), JudgeResult::Invalid);
    assert_eq!(classify(&"".to_string(), &"7".to_string()), JudgeResult::Invalid);
}

#[test]
fn failed_spawn_is_system_error() {
    assert_eq!(
        run(vec![RunEvent::SpawnFailed], "7"),
        RunState::Finished(JudgeResult::SystemError)
    );
}

#[test]
fn failed_write_is_illegal_exit() {
    assert_eq!(
        run(vec![RunEvent::SpawnOk, RunEvent::WriteFailed], "7"),
        RunState::Finished(JudgeResult::IllegalProcessExit)
    );
}

#[test]
fn timeout_needs_the_reap() {
    let before = run(vec![RunEvent::SpawnOk, RunEvent::WriteOk, RunEvent::TimedOut], "7");
    assert_eq!(before, RunState::Expired);
    assert_eq!(run_action(before), RunAction::KillAndReap);
    let after = run_step(before, &RunEvent::Reaped, &"7".to_string());
    assert_eq!(after, RunState::Finished(JudgeResult::Timeout));
}

#[test]
fn failed_read_is_illegal_exit() {
    assert_eq!(
        run(
            vec![RunEvent::SpawnOk, RunEvent::WriteOk, RunEvent::ExitedInTime, RunEvent::ReadFailed],
            "7"
        ),
        RunState::Finished(JudgeResult::IllegalProcessExit)
    );
}

#[test]
fn read_output_is_compared() {
    let head = || vec![RunEvent::SpawnOk, RunEvent::WriteOk, RunEvent::ExitedInTime];
    let mut ok = head();
    ok.push(RunEvent::ReadOk("7".to_string()));
    assert_eq!(run(ok, "7"), RunState::Finished(JudgeResult::Okay));
    let mut bad = head();
    bad.push(RunEvent::ReadOk("wrong\n".to_string()));
    assert_eq!(run(bad, "7"), RunState::Finished(JudgeResult::Invalid));
}

#[test]
fn actions_follow_the_states() {
    assert_eq!(run_action(RunState::Idle), RunAction::Spawn);
    assert_eq!(run_action(RunState::Spawned), RunAction::SendInput);
    assert_eq!(run_action(RunState::InputSent), RunAction::Wait);
    assert_eq!(run_action(RunState::Exited), RunAction::ReadOutput);
    assert_eq!(run_action(RunState::Expired), RunAction::KillAndReap);
    assert_eq!(
        run_action(RunState::Finished(JudgeResult::Timeout)),
        RunAction::Report(JudgeResult::Timeout)
    );
}

#[test]
fn unexpected_events_change_nothing() {
    let e = "7".to_string();
    assert_eq!(run_step(RunState::Idle, &RunEvent::Reaped, &e), RunState::Idle);
    assert_eq!(run_step(RunState::Idle, &RunEvent::ReadOk("7".to_string()), &e), RunState::Idle);
    assert_eq!(run_step(RunState::Spawned, &RunEvent::TimedOut, &e), RunState::Spawned);
    assert_eq!(run_step(RunState::InputSent, &RunEvent::SpawnFailed, &e), RunState::InputSent);
    assert_eq!(run_step(RunState::Exited, &RunEvent::TimedOut, &e), RunState::Exited);
    assert_eq!(run_step(RunState::Expired, &RunEvent::ExitedInTime, &e), RunState::Expired);
    let done = RunState::Finished(JudgeResult::Okay);
    assert_eq!(run_step(done, &RunEvent::SpawnFailed, &e), done);
}

fn seen(spawned: bool, input_delivered: bool, exited_in_time: bool, output: Option<&str>) -> Observation {
    Observation { spawned, input_delivered, exited_in_time, output: output.map(|s| s.to_string()) }
}

#[test]
fn first_failure_wins() {
    let e = "7".to_string();
    assert_eq!(classify_run(&seen(false, false, false, None), &e), JudgeResult::SystemError);
    assert_eq!(classify_run(&seen(false, true, true, Some("7")), &e), JudgeResult::SystemError);
    assert_eq!(classify_run(&seen(true, false, true, Some("7")), &e), JudgeResult::IllegalProcessExit);
    assert_eq!(classify_run(&seen(true, true, false, Some("7")), &e), JudgeResult::Timeout);
    assert_eq!(classify_run(&seen(true, true, false, None), &e), JudgeResult::Timeout);
    assert_eq!(classify_run(&seen(true, true, true, None), &e), JudgeResult::IllegalProcessExit);
    assert_eq!(classify_run(&seen(true, true, true, Some("7")), &e), JudgeResult::Okay);
    assert_eq!(classify_run(&seen(true, true, true, Some("7 ")), &e), JudgeResult::Invalid);
}
