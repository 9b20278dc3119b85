//! The battery of one submission: every test case of its exercise run in
//! order, one at a time, between acquiring and releasing the admission permit.
//!
//! A battery is a state machine. The caller asks it for the action it is
//! waiting on, performs that action and reports the event that came of it.
//! The artifact stays where it was written: a battery never asks for its
//! removal.
use vstd::prelude::*;
use crate::artifact::{contents_of, file_name_of, is_token, materialize, Artifact};
use crate::model::{JudgeRequest, JudgeResult, Practice};
use crate::runner::{
    events_of, next_state, outcome_of, pending, run_action, run_step, Observation, RunAction,
    RunEvent, RunState,
};

verus! {

/// Where a battery stands.
#[derive(Clone, Copy, Debug, PartialEq, Eq, Structural)]
pub enum Phase {
    /// The artifact has not been written yet.
    Storing,
    /// The artifact is written; the permit has not been acquired.
    Waiting,
    /// The permit is held and a test case is being run.
    Running,
    /// Every test case has its outcome; the permit is still held.
    Releasing,
    /// Nothing is left to do but to answer.
    Finished,
}

/// What the caller saw when it performed an action.
#[derive(Clone, Debug)]
pub enum BatteryEvent {
    /// The artifact was created and written in full.
    Stored,
    /// The artifact could not be created or written.
    StoreFailed,
    /// The permit was acquired.
    Admitted,
    /// What came of the pending action of the current run.
    Run(RunEvent),
    /// The permit was released.
    Released,
}

/// What the caller is to do next.
#[derive(Clone, Copy, Debug, PartialEq, Eq, Structural)]
pub enum BatteryAction {
    /// Write the artifact to its file.
    Store,
    /// Acquire the permit, waiting for as long as another battery holds it.
    Acquire,
    /// Perform `action` for test case number `case` of the exercise; a wait
    /// lasts `timeout_ms` milliseconds at most.
    Run { case: usize, timeout_ms: u64, action: RunAction },
    /// Release the permit.
    Release,
    /// Take the response.
    Respond,
}

/// The answer to a submission.
#[derive(Clone, Debug)]
pub enum Response {
    /// No exercise has the submitted id.
    NotFound,
    /// The artifact could not be written, so nothing was run.
    SystemFailure,
    /// One outcome for each test case, in the order of the test cases.
    Outcomes(Vec<JudgeResult>),
}

/// The battery of one submission.
#[derive(Debug)]
pub struct Battery {
    practice: usize,
    timeout_ms: u64,
    expected: Vec<String>,
    phase: Phase,
    run: RunState,
    outcomes: Vec<JudgeResult>,
    failed: bool,
}

/// A battery as a mathematical value.
pub struct BatteryView {
    /// The place of the exercise in the catalog.
    pub practice: int,
    /// The timeout of each run.
    pub timeout_ms: u64,
    /// The expected output of each test case, in order.
    pub expected: Seq<Seq<char>>,
    pub phase: Phase,
    /// The state of the current run; `Idle` between runs.
    pub run: RunState,
    /// The outcomes of the test cases run so far, in order.
    pub outcomes: Seq<JudgeResult>,
    /// Whether writing the artifact failed.
    pub failed: bool,
}

/// The texts held by a sequence of strings.
pub open spec fn texts(strings: Seq<String>) -> Seq<Seq<char>> {
    Seq::new(strings.len(), |i: int| strings[i]@)
}

/// The expected outputs of an exercise's test cases, in order.
pub open spec fn expected_outputs(practice: Practice) -> Seq<Seq<char>> {
    Seq::new(practice.testcases@.len(), |i: int| practice.testcases@[i].output@)
}

/// Whether no exercise of the catalog has this id.
pub open spec fn unknown_id(catalog: Seq<Practice>, id: Seq<char>) -> bool {
    forall|j: int| 0 <= j < catalog.len() ==> (#[trigger] catalog[j]).id@ != id
}

/// Whether `i` is the place of the first exercise of the catalog with this id.
pub open spec fn first_with_id(catalog: Seq<Practice>, id: Seq<char>, i: int) -> bool {
    &&& 0 <= i < catalog.len()
    &&& catalog[i].id@ == id
    &&& forall|j: int| 0 <= j < i ==> (#[trigger] catalog[j]).id@ != id
}

/// The battery that a submission for exercise number `place` starts with.
pub open spec fn opening(place: int, practice: Practice) -> BatteryView {
    BatteryView {
        practice: place,
        timeout_ms: practice.timeout_ms,
        expected: expected_outputs(practice),
        phase: Phase::Storing,
        run: RunState::Idle,
        outcomes: Seq::empty(),
        failed: false,
    }
}

impl BatteryView {
    /// What holds of every battery that was begun and advanced.
    pub open spec fn wf(self) -> bool {
        &&& self.outcomes.len() <= self.expected.len() <= usize::MAX
        &&& self.phase != Phase::Running ==> self.run == RunState::Idle
        &&& self.phase == Phase::Running ==> self.outcomes.len() < self.expected.len()
            && !(self.run is Finished)
        &&& (self.phase == Phase::Storing || self.phase == Phase::Waiting)
            ==> self.outcomes.len() == 0
        &&& self.phase == Phase::Releasing ==> self.outcomes.len() == self.expected.len()
        &&& self.phase == Phase::Finished ==> self.failed || self.outcomes.len()
            == self.expected.len()
        &&& self.failed ==> self.phase == Phase::Finished && self.outcomes.len() == 0
    }

    /// Whether the battery holds the permit.
    pub open spec fn holds_permit(self) -> bool {
        self.phase == Phase::Running || self.phase == Phase::Releasing
    }

    /// The battery once the current run has ended with `outcome`: the
    /// outcome is recorded behind the earlier ones, and the next test case
    /// is up, or the release of the permit where there is none.
    pub open spec fn record(self, outcome: JudgeResult) -> BatteryView {
        BatteryView {
            outcomes: self.outcomes.push(outcome),
            run: RunState::Idle,
            phase: if self.outcomes.len() + 1 == self.expected.len() {
                Phase::Releasing
            } else {
                Phase::Running
            },
            ..self
        }
    }

    /// The battery after `event`. An event that is no answer to the awaited
    /// action changes nothing.
    pub open spec fn after(self, event: BatteryEvent) -> BatteryView {
        match (self.phase, event) {
            (Phase::Storing, BatteryEvent::Stored) => BatteryView { phase: Phase::Waiting, ..self },
            (Phase::Storing, BatteryEvent::StoreFailed) => BatteryView {
                phase: Phase::Finished,
                failed: true,
                ..self
            },
            (Phase::Waiting, BatteryEvent::Admitted) => BatteryView {
                phase: if self.expected.len() == 0 {
                    Phase::Releasing
                } else {
                    Phase::Running
                },
                ..self
            },
            (Phase::Running, BatteryEvent::Run(seen)) => {
                let current = self.expected[self.outcomes.len() as int];
                match next_state(self.run, seen, current) {
                    RunState::Finished(outcome) => self.record(outcome),
                    state => BatteryView { run: state, ..self },
                }
            },
            (Phase::Releasing, BatteryEvent::Released) => BatteryView {
                phase: Phase::Finished,
                ..self
            },
            _ => self,
        }
    }

    /// The action that the battery is waiting on.
    pub open spec fn awaited(self) -> BatteryAction {
        match self.phase {
            Phase::Storing => BatteryAction::Store,
            Phase::Waiting => BatteryAction::Acquire,
            Phase::Running => BatteryAction::Run {
                case: self.outcomes.len() as usize,
                timeout_ms: self.timeout_ms,
                action: pending(self.run),
            },
            Phase::Releasing => BatteryAction::Release,
            Phase::Finished => BatteryAction::Respond,
        }
    }
}

impl View for Battery {
    type V = BatteryView;

    closed spec fn view(&self) -> BatteryView {
        BatteryView {
            practice: self.practice as int,
            timeout_ms: self.timeout_ms,
            expected: texts(self.expected@),
            phase: self.phase,
            run: self.run,
            outcomes: self.outcomes@,
            failed: self.failed,
        }
    }
}

/// The place of the first exercise of the catalog with this id, if any.
pub fn find_practice(catalog: &Vec<Practice>, id: &String) -> (r: Option<usize>)
    ensures
        match r {
            Some(i) => first_with_id(catalog@, id@, i as int),
            None => unknown_id(catalog@, id@),
        },
{
    let mut i: usize = 0;
    while i < catalog.len()
        invariant
            i <= catalog.len(),
            forall|j: int| 0 <= j < i ==> (#[trigger] catalog@[j]).id@ != id@,
        decreases catalog.len() - i,
    {
        if catalog[i].id == *id {
            return Some(i);
        }
        i += 1;
    }
    None
}

/// Begins the battery of a submission: finds the exercise and renders the
/// artifact under a fresh token. Where no exercise has the submission's id
/// the answer is `NotFound` at once: nothing was made for it, and there is
/// nothing to write or to run.
pub fn begin(catalog: &Vec<Practice>, request: &JudgeRequest) -> (r: Result<
    (Battery, Artifact),
    Response,
>)
    ensures
        r is Err <==> unknown_id(catalog@, request.id@),
        match r {
            Ok((battery, artifact)) => {
                let place = battery@.practice;
                &&& first_with_id(catalog@, request.id@, place)
                &&& battery@ == opening(place, catalog@[place])
                &&& battery@.wf()
                &&& exists|token: Seq<char>|
                    is_token(token) && artifact.file_name@ == #[trigger] file_name_of(
                        request.id@,
                        token,
                    )
                &&& artifact.contents@ == contents_of(
                    catalog@[place].header@,
                    request.code@,
                    catalog@[place].footer@,
                )
            },
            Err(response) => response is NotFound,
        },
{
    match find_practice(catalog, &request.id) {
        None => Err(Response::NotFound),
        Some(place) => {
            let practice = &catalog[place];
            let cases = &practice.testcases;
            let mut expected: Vec<String> = Vec::new();
            let mut j: usize = 0;
            while j < cases.len()
                invariant
                    j <= cases.len(),
                    expected@.len() == j,
                    forall|k: int| 0 <= k < j ==> (#[trigger] expected@[k])@ == cases@[k].output@,
                decreases cases.len() - j,
            {
                expected.push(cases[j].output.clone());
                j += 1;
            }
            let artifact = materialize(practice, request.code.as_str());
            let battery = Battery {
                practice: place,
                timeout_ms: practice.timeout_ms,
                expected,
                phase: Phase::Storing,
                run: RunState::Idle,
                outcomes: Vec::new(),
                failed: false,
            };
            proof {
                assert(battery@.expected =~= expected_outputs(catalog@[place as int]));
                assert(battery@.outcomes =~= Seq::<JudgeResult>::empty());
            }
            Ok((battery, artifact))
        },
    }
}

impl Battery {
    /// What holds of every battery that was begun and advanced.
    pub open spec fn wf(&self) -> bool {
        self@.wf()
    }

    /// The place of the battery's exercise in the catalog.
    pub fn practice(&self) -> (r: usize)
        ensures
            r == self@.practice,
    {
        self.practice
    }

    /// Where the battery stands.
    pub fn phase(&self) -> (r: Phase)
        ensures
            r == self@.phase,
    {
        self.phase
    }

    /// The number of test cases that have their outcome.
    pub fn done(&self) -> (r: usize)
        ensures
            r == self@.outcomes.len(),
    {
        self.outcomes.len()
    }

    /// The action that the battery is waiting on.
    pub fn action(&self) -> (r: BatteryAction)
        ensures
            r == self@.awaited(),
    {
        match self.phase {
            Phase::Storing => BatteryAction::Store,
            Phase::Waiting => BatteryAction::Acquire,
            Phase::Running => BatteryAction::Run {
                case: self.outcomes.len(),
                timeout_ms: self.timeout_ms,
                action: run_action(self.run),
            },
            Phase::Releasing => BatteryAction::Release,
            Phase::Finished => BatteryAction::Respond,
        }
    }

    /// Takes the battery on by one event.
    pub fn advance(&mut self, event: &BatteryEvent)
        requires
            old(self).wf(),
        ensures
            final(self)@ == old(self)@.after(*event),
            final(self).wf(),
    {
        match self.phase {
            Phase::Storing => match event {
                BatteryEvent::Stored => {
                    self.phase = Phase::Waiting;
                },
                BatteryEvent::StoreFailed => {
                    self.phase = Phase::Finished;
                    self.failed = true;
                },
                _ => {},
            },
            Phase::Waiting => match event {
                BatteryEvent::Admitted => {
                    if self.expected.len() == 0 {
                        self.phase = Phase::Releasing;
                    } else {
                        self.phase = Phase::Running;
                    }
                },
                _ => {},
            },
            Phase::Running => match event {
                BatteryEvent::Run(seen) => {
                    let current: usize = self.outcomes.len();
                    let state = run_step(self.run, seen, &self.expected[current]);
                    match state {
                        RunState::Finished(outcome) => {
                            self.outcomes.push(outcome);
                            self.run = RunState::Idle;
                            if self.outcomes.len() == self.expected.len() {
                                self.phase = Phase::Releasing;
                            }
                        },
                        _ => {
                            self.run = state;
                        },
                    }
                },
                _ => {},
            },
            Phase::Releasing => match event {
                BatteryEvent::Released => {
                    self.phase = Phase::Finished;
                },
                _ => {},
            },
            Phase::Finished => {},
        }
    }

    /// The response of a finished battery: the failure where the artifact
    /// could not be written, else the outcomes, one for each test case in
    /// the order of the test cases. A battery that is not finished is
    /// handed back as it is.
    pub fn respond(self) -> (r: Result<Response, Battery>)
        requires
            self.wf(),
        ensures
            match r {
                Ok(Response::Outcomes(outcomes)) => {
                    &&& self@.phase == Phase::Finished
                    &&& !self@.failed
                    &&& outcomes@ == self@.outcomes
                    &&& outcomes@.len() == self@.expected.len()
                },
                Ok(Response::SystemFailure) => self@.phase == Phase::Finished && self@.failed,
                Ok(Response::NotFound) => false,
                Err(battery) => self@.phase != Phase::Finished && battery == self,
            },
    {
        if self.phase == Phase::Finished {
            if self.failed {
                Ok(Response::SystemFailure)
            } else {
                Ok(Response::Outcomes(self.outcomes))
            }
        } else {
            Err(self)
        }
    }
}

/// Every event keeps a battery well formed, keeps its exercise, timeout and
/// expected outputs, and keeps the outcomes it has: at most one outcome is
/// added, behind the others, and none is changed or dropped.
pub proof fn lemma_outcomes_only_grow(battery: BatteryView, event: BatteryEvent)
    requires
        battery.wf(),
    ensures
        battery.after(event).wf(),
        battery.after(event).practice == battery.practice,
        battery.after(event).timeout_ms == battery.timeout_ms,
        battery.after(event).expected == battery.expected,
        battery.after(event).outcomes == battery.outcomes || exists|outcome: JudgeResult|
            battery.after(event).outcomes == #[trigger] battery.outcomes.push(outcome),
{
    let later = battery.after(event);
    if later.outcomes != battery.outcomes {
        let outcome = later.outcomes.last();
        assert(later.outcomes == battery.outcomes.push(outcome));
    }
}

/// Outcome number `i` comes from test case number `i`: the run that a
/// battery asks for is that of the first test case without an outcome, and
/// when that run ends, its outcome is the one that the run's events give
/// against that test case's expected output, recorded at that place.
pub proof fn lemma_outcome_matches_case(battery: BatteryView, seen: RunEvent)
    requires
        battery.wf(),
        battery.phase == Phase::Running,
    ensures
        battery.awaited() matches BatteryAction::Run { case, .. } && case
            == battery.outcomes.len(),
        ({
            let i = battery.outcomes.len() as int;
            let later = battery.after(BatteryEvent::Run(seen));
            match next_state(battery.run, seen, battery.expected[i]) {
                RunState::Finished(outcome) => later.outcomes.len() == i + 1 && later.outcomes[i]
                    == outcome,
                _ => later.outcomes == battery.outcomes,
            }
        }),
{
}

/// The battery after the events of a run were reported to it in turn.
pub open spec fn feed(battery: BatteryView, events: Seq<RunEvent>) -> BatteryView
    decreases events.len(),
{
    if events.len() == 0 {
        battery
    } else {
        feed(battery.after(BatteryEvent::Run(events[0])), events.drop_first())
    }
}

/// A whole run inside a battery: from the start of a test case, the events
/// of a run that saw `seen` leave the battery with the outcome that `seen`
/// calls for against that test case's expected output, recorded behind the
/// earlier outcomes, and with the next test case or the release up.
pub proof fn lemma_case_outcome(battery: BatteryView, seen: Observation)
    requires
        battery.wf(),
        battery.phase == Phase::Running,
        battery.run == RunState::Idle,
    ensures
        feed(battery, events_of(seen)) == battery.record(
            outcome_of(seen, battery.expected[battery.outcomes.len() as int]),
        ),
        feed(battery, events_of(seen)).wf(),
{
    let events = events_of(seen);
    reveal_with_fuel(feed, 6);
    let b1 = battery.after(BatteryEvent::Run(events[0]));
    let e1 = events.drop_first();
    assert(feed(battery, events) == feed(b1, e1));
    if e1.len() > 0 {
        let b2 = b1.after(BatteryEvent::Run(e1[0]));
        let e2 = e1.drop_first();
        assert(feed(b1, e1) == feed(b2, e2));
        if e2.len() > 0 {
            let b3 = b2.after(BatteryEvent::Run(e2[0]));
            let e3 = e2.drop_first();
            assert(feed(b2, e2) == feed(b3, e3));
            if e3.len() > 0 {
                let b4 = b3.after(BatteryEvent::Run(e3[0]));
                let e4 = e3.drop_first();
                assert(feed(b3, e3) == feed(b4, e4));
                assert(e4.len() == 0);
            }
        }
    }
}

/// The battery after one whole run for each of `seen`, in turn.
pub open spec fn run_cases(battery: BatteryView, seen: Seq<Observation>) -> BatteryView
    decreases seen.len(),
{
    if seen.len() == 0 {
        battery
    } else {
        run_cases(feed(battery, events_of(seen[0])), seen.drop_first())
    }
}

/// The outcomes that `seen` call for from place `first` of `expected` on.
pub open spec fn outcomes_from(seen: Seq<Observation>, expected: Seq<Seq<char>>, first: int) -> Seq<
    JudgeResult,
> {
    Seq::new(seen.len(), |i: int| outcome_of(seen[i], expected[first + i]))
}

/// A battery from its first event to its last: the artifact is stored, the
/// permit acquired, each test case run with what `seen` holds for it, and
/// the permit released.
pub open spec fn whole(battery: BatteryView, seen: Seq<Observation>) -> BatteryView {
    run_cases(
        battery.after(BatteryEvent::Stored).after(BatteryEvent::Admitted),
        seen,
    ).after(BatteryEvent::Released)
}

/// The runs of the test cases that are left record their outcomes in the
/// order of the test cases, each against its own expected output, and leave
/// the battery at the release.
pub proof fn lemma_cases_in_order(battery: BatteryView, seen: Seq<Observation>)
    requires
        battery.wf(),
        battery.phase == Phase::Running,
        battery.run == RunState::Idle,
        seen.len() == battery.expected.len() - battery.outcomes.len(),
    ensures
        run_cases(battery, seen).wf(),
        run_cases(battery, seen).phase == Phase::Releasing,
        run_cases(battery, seen).outcomes == battery.outcomes + outcomes_from(
            seen,
            battery.expected,
            battery.outcomes.len() as int,
        ),
    decreases seen.len(),
{
    let first = battery.outcomes.len() as int;
    let rest = seen.drop_first();
    lemma_case_outcome(battery, seen[0]);
    let next = feed(battery, events_of(seen[0]));
    assert(run_cases(battery, seen) == run_cases(next, rest));
    let wanted = battery.outcomes + outcomes_from(seen, battery.expected, first);
    if rest.len() == 0 {
        assert(run_cases(next, rest) == next);
        assert(next.outcomes =~= wanted);
    } else {
        lemma_cases_in_order(next, rest);
        let tail = outcomes_from(rest, next.expected, first + 1);
        let all = outcomes_from(seen, battery.expected, first);
        assert forall|i: int| 0 <= i < rest.len() implies #[trigger] tail[i] == all[i + 1] by {
            assert(rest[i] == seen[i + 1]);
        }
        assert(run_cases(next, rest).outcomes =~= wanted);
    }
}

/// The whole of a battery: begun for an exercise and played to its end, it
/// is finished with exactly one outcome for each test case, and outcome
/// number `i` is the one that the run of test case number `i` calls for
/// against that test case's expected output.
pub proof fn lemma_battery_outcomes(place: int, practice: Practice, seen: Seq<Observation>)
    requires
        opening(place, practice).wf(),
        seen.len() == practice.testcases@.len(),
    ensures
        whole(opening(place, practice), seen).phase == Phase::Finished,
        !whole(opening(place, practice), seen).failed,
        whole(opening(place, practice), seen).outcomes == outcomes_from(
            seen,
            expected_outputs(practice),
            0,
        ),
{
    let start = opening(place, practice);
    let admitted = start.after(BatteryEvent::Stored).after(BatteryEvent::Admitted);
    if seen.len() == 0 {
        assert(run_cases(admitted, seen) == admitted);
        assert(whole(start, seen).outcomes =~= outcomes_from(seen, expected_outputs(practice), 0));
    } else {
        lemma_cases_in_order(admitted, seen);
        assert(whole(start, seen).outcomes =~= outcomes_from(seen, expected_outputs(practice), 0));
    }
}

/// A finished battery whose artifact was written has exactly one outcome
/// for each test case.
pub proof fn lemma_finished_is_complete(battery: BatteryView)
    requires
        battery.wf(),
        battery.phase == Phase::Finished,
        !battery.failed,
    ensures
        battery.outcomes.len() == battery.expected.len(),
{
}

/// A battery asks for a run only while it holds the permit. It comes to hold
/// the permit only by being admitted, before its first run, and gives it up
/// only by the release, which it asks for only when every test case has its
/// outcome.
pub proof fn lemma_runs_under_permit(battery: BatteryView, event: BatteryEvent)
    requires
        battery.wf(),
    ensures
        battery.awaited() is Run ==> battery.holds_permit(),
        battery.awaited() is Release ==> battery.outcomes.len() == battery.expected.len(),
        !battery.holds_permit() && battery.after(event).holds_permit() ==> battery.phase
            == Phase::Waiting && event is Admitted && battery.outcomes.len() == 0,
        battery.holds_permit() && !battery.after(event).holds_permit() ==> battery.phase
            == Phase::Releasing && event is Released,
{
}

/// A battery whose artifact could not be written never holds the permit and
/// never asks for a run: it is finished at once, with no outcome.
pub proof fn lemma_store_failure_ends(battery: BatteryView)
    requires
        battery.wf(),
        battery.phase == Phase::Storing,
    ensures
        battery.after(BatteryEvent::StoreFailed).phase == Phase::Finished,
        battery.after(BatteryEvent::StoreFailed).failed,
        battery.after(BatteryEvent::StoreFailed).awaited() == BatteryAction::Respond,
        battery.after(BatteryEvent::StoreFailed).outcomes.len() == 0,
{
}

} // verus!
