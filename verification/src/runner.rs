//! One sandboxed run of an artifact on one test case, as a state machine:
//! the caller performs the pending action and reports what came of it.
//!
//! The timeout is counted from the moment the input has been delivered.
use vstd::prelude::*;
use crate::model::JudgeResult;

verus! {

/// Where a run stands.
#[derive(Clone, Copy, Debug, PartialEq, Eq, Structural)]
pub enum RunState {
    /// No process exists yet.
    Idle,
    /// The process runs and has not been given its input.
    Spawned,
    /// The input was delivered; the process runs against the timeout.
    InputSent,
    /// The process ended in time; its output has not been read.
    Exited,
    /// The timeout elapsed; the process is to be killed and reaped.
    Expired,
    /// The run is over, with this outcome.
    Finished(JudgeResult),
}

/// What the caller saw when it performed an action.
#[derive(Clone, Debug)]
pub enum RunEvent {
    /// The process was spawned.
    SpawnOk,
    /// The process could not be spawned.
    SpawnFailed,
    /// The whole input was written to the process.
    WriteOk,
    /// Writing the input failed.
    WriteFailed,
    /// The process ended before the timeout.
    ExitedInTime,
    /// The timeout elapsed and the process still runs.
    TimedOut,
    /// The process was killed and has fully exited.
    Reaped,
    /// The output was read to its end.
    ReadOk(String),
    /// Reading the output failed.
    ReadFailed,
}

/// What the caller is to do next.
#[derive(Clone, Copy, Debug, PartialEq, Eq, Structural)]
pub enum RunAction {
    /// Spawn the interpreter on the artifact under the restricted identity,
    /// with piped input and output and the error stream discarded.
    Spawn,
    /// Write the test case's input to the process.
    SendInput,
    /// Wait for the process to end, for the exercise's timeout at most.
    Wait,
    /// Kill the process and wait until it has fully exited.
    KillAndReap,
    /// Read the output of the process to its end.
    ReadOutput,
    /// Nothing is left to do: the run has this outcome.
    Report(JudgeResult),
}

/// The outcome of a run whose output was captured in full: `Okay` where the
/// output is the expected text exactly, `Invalid` on any difference.
pub open spec fn verdict(output: Seq<char>, expected: Seq<char>) -> JudgeResult {
    if output == expected {
        JudgeResult::Okay
    } else {
        JudgeResult::Invalid
    }
}

/// Whether `event` is an answer to the action that `state` is waiting on.
pub open spec fn expects(state: RunState, event: RunEvent) -> bool {
    match state {
        RunState::Idle => event is SpawnOk || event is SpawnFailed,
        RunState::Spawned => event is WriteOk || event is WriteFailed,
        RunState::InputSent => event is ExitedInTime || event is TimedOut,
        RunState::Exited => event is ReadOk || event is ReadFailed,
        RunState::Expired => event is Reaped,
        RunState::Finished(_) => false,
    }
}

/// The state after `event` in `state`, for a test case that expects
/// `expected`. An event that the state does not expect changes nothing.
pub open spec fn next_state(state: RunState, event: RunEvent, expected: Seq<char>) -> RunState {
    match (state, event) {
        (RunState::Idle, RunEvent::SpawnOk) => RunState::Spawned,
        (RunState::Idle, RunEvent::SpawnFailed) => RunState::Finished(JudgeResult::SystemError),
        (RunState::Spawned, RunEvent::WriteOk) => RunState::InputSent,
        (RunState::Spawned, RunEvent::WriteFailed) => RunState::Finished(
            JudgeResult::IllegalProcessExit,
        ),
        (RunState::InputSent, RunEvent::ExitedInTime) => RunState::Exited,
        (RunState::InputSent, RunEvent::TimedOut) => RunState::Expired,
        (RunState::Expired, RunEvent::Reaped) => RunState::Finished(JudgeResult::Timeout),
        (RunState::Exited, RunEvent::ReadOk(output)) => RunState::Finished(
            verdict(output@, expected),
        ),
        (RunState::Exited, RunEvent::ReadFailed) => RunState::Finished(
            JudgeResult::IllegalProcessExit,
        ),
        _ => state,
    }
}

/// The action that `state` is waiting on.
pub open spec fn pending(state: RunState) -> RunAction {
    match state {
        RunState::Idle => RunAction::Spawn,
        RunState::Spawned => RunAction::SendInput,
        RunState::InputSent => RunAction::Wait,
        RunState::Exited => RunAction::ReadOutput,
        RunState::Expired => RunAction::KillAndReap,
        RunState::Finished(outcome) => RunAction::Report(outcome),
    }
}

/// Classifies a run whose output was captured in full.
pub fn classify(output: &String, expected: &String) -> (r: JudgeResult)
    ensures
        r == verdict(output@, expected@),
{
    if *output == *expected {
        JudgeResult::Okay
    } else {
        JudgeResult::Invalid
    }
}

/// The state after `event`, for a test case that expects `expected`.
pub fn run_step(state: RunState, event: &RunEvent, expected: &String) -> (r: RunState)
    ensures
        r == next_state(state, *event, expected@),
{
    match state {
        RunState::Idle => match event {
            RunEvent::SpawnOk => RunState::Spawned,
            RunEvent::SpawnFailed => RunState::Finished(JudgeResult::SystemError),
            _ => state,
        },
        RunState::Spawned => match event {
            RunEvent::WriteOk => RunState::InputSent,
            RunEvent::WriteFailed => RunState::Finished(JudgeResult::IllegalProcessExit),
            _ => state,
        },
        RunState::InputSent => match event {
            RunEvent::ExitedInTime => RunState::Exited,
            RunEvent::TimedOut => RunState::Expired,
            _ => state,
        },
        RunState::Exited => match event {
            RunEvent::ReadOk(output) => RunState::Finished(classify(output, expected)),
            RunEvent::ReadFailed => RunState::Finished(JudgeResult::IllegalProcessExit),
            _ => state,
        },
        RunState::Expired => match event {
            RunEvent::Reaped => RunState::Finished(JudgeResult::Timeout),
            _ => state,
        },
        RunState::Finished(_) => state,
    }
}

/// The action that `state` is waiting on.
pub fn run_action(state: RunState) -> (r: RunAction)
    ensures
        r == pending(state),
{
    match state {
        RunState::Idle => RunAction::Spawn,
        RunState::Spawned => RunAction::SendInput,
        RunState::InputSent => RunAction::Wait,
        RunState::Exited => RunAction::ReadOutput,
        RunState::Expired => RunAction::KillAndReap,
        RunState::Finished(outcome) => RunAction::Report(outcome),
    }
}

/// What a whole run saw, from spawn to the last read. A later field counts
/// only where the earlier ones let the run get that far.
#[derive(Clone, Debug)]
pub struct Observation {
    /// Whether the process could be spawned.
    pub spawned: bool,
    /// Whether the whole input was written to it.
    pub input_delivered: bool,
    /// Whether it ended before the timeout.
    pub exited_in_time: bool,
    /// Its output, where that could be read to the end.
    pub output: Option<String>,
}

/// The outcome that an observation calls for: the first failure wins, in
/// the order spawn, input, timeout, read, and only then the comparison.
pub open spec fn outcome_of(seen: Observation, expected: Seq<char>) -> JudgeResult {
    if !seen.spawned {
        JudgeResult::SystemError
    } else if !seen.input_delivered {
        JudgeResult::IllegalProcessExit
    } else if !seen.exited_in_time {
        JudgeResult::Timeout
    } else {
        match seen.output {
            None => JudgeResult::IllegalProcessExit,
            Some(output) => verdict(output@, expected),
        }
    }
}

/// Classifies a whole run by what it saw.
pub fn classify_run(seen: &Observation, expected: &String) -> (r: JudgeResult)
    ensures
        r == outcome_of(*seen, expected@),
{
    if !seen.spawned {
        JudgeResult::SystemError
    } else if !seen.input_delivered {
        JudgeResult::IllegalProcessExit
    } else if !seen.exited_in_time {
        JudgeResult::Timeout
    } else {
        match &seen.output {
            None => JudgeResult::IllegalProcessExit,
            Some(output) => classify(output, expected),
        }
    }
}

/// The events that a run reports in turn when it sees `seen`.
pub open spec fn events_of(seen: Observation) -> Seq<RunEvent> {
    if !seen.spawned {
        seq![RunEvent::SpawnFailed]
    } else if !seen.input_delivered {
        seq![RunEvent::SpawnOk, RunEvent::WriteFailed]
    } else if !seen.exited_in_time {
        seq![RunEvent::SpawnOk, RunEvent::WriteOk, RunEvent::TimedOut, RunEvent::Reaped]
    } else {
        match seen.output {
            None => seq![
                RunEvent::SpawnOk,
                RunEvent::WriteOk,
                RunEvent::ExitedInTime,
                RunEvent::ReadFailed,
            ],
            Some(output) => seq![
                RunEvent::SpawnOk,
                RunEvent::WriteOk,
                RunEvent::ExitedInTime,
                RunEvent::ReadOk(output),
            ],
        }
    }
}

/// The state after all of `events` in turn, from `state`.
pub open spec fn run_all(state: RunState, events: Seq<RunEvent>, expected: Seq<char>) -> RunState
    decreases events.len(),
{
    if events.len() == 0 {
        state
    } else {
        run_all(next_state(state, events[0], expected), events.drop_first(), expected)
    }
}

/// A run from `Idle` ends with the outcome that its observation calls for:
/// a failed spawn is `SystemError` whatever else would have happened, then
/// a failed write, then the timeout, then a failed read, and the output is
/// compared only when none of them occurred.
pub proof fn lemma_run_follows_priority(seen: Observation, expected: Seq<char>)
    ensures
        run_all(RunState::Idle, events_of(seen), expected) == RunState::Finished(
            outcome_of(seen, expected),
        ),
{
    let events = events_of(seen);
    reveal_with_fuel(run_all, 6);
    let s1 = next_state(RunState::Idle, events[0], expected);
    let e1 = events.drop_first();
    assert(run_all(RunState::Idle, events, expected) == run_all(s1, e1, expected));
    if e1.len() > 0 {
        let s2 = next_state(s1, e1[0], expected);
        let e2 = e1.drop_first();
        assert(run_all(s1, e1, expected) == run_all(s2, e2, expected));
        if e2.len() > 0 {
            let s3 = next_state(s2, e2[0], expected);
            let e3 = e2.drop_first();
            assert(run_all(s2, e2, expected) == run_all(s3, e3, expected));
            if e3.len() > 0 {
                let s4 = next_state(s3, e3[0], expected);
                let e4 = e3.drop_first();
                assert(run_all(s3, e3, expected) == run_all(s4, e4, expected));
                assert(e4.len() == 0);
            }
        }
    }
}

/// A run ends in `Timeout` only by the report that the process was reaped,
/// which is expected only after the kill was asked for; and the kill is
/// asked for only when the timeout elapsed on a process that had its input.
pub proof fn lemma_timeout_means_reaped(state: RunState, event: RunEvent, expected: Seq<char>)
    ensures
        next_state(state, event, expected) == RunState::Finished(JudgeResult::Timeout)
            && state != RunState::Finished(JudgeResult::Timeout) ==> state == RunState::Expired
            && event is Reaped,
        next_state(state, event, expected) == RunState::Expired && state != RunState::Expired
            ==> state == RunState::InputSent && event is TimedOut,
        pending(RunState::Expired) == RunAction::KillAndReap,
{
}

/// A finished run stays finished with the same outcome, whatever is
/// reported afterwards.
pub proof fn lemma_finished_is_final(outcome: JudgeResult, event: RunEvent, expected: Seq<char>)
    ensures
        next_state(RunState::Finished(outcome), event, expected) == RunState::Finished(outcome),
{
}

} // verus!
