use vstd::prelude::*;
use crate::judge::{award, awarded_points, judge, outputs_agree, TestType};
use crate::model::{stored_exit_code, Runner, Test};
use crate::sandbox::{Instance, NSJailBlueprint, SandboxCommand};
use crate::text::{join_path, path_join, texts};
use crate::uid::{fresh_uid, uid_text, uid_to_text, Uid};

verus! {

/// Relies on chrono's `Utc::now` and `DateTime::timestamp_micros`: the
/// current time as microseconds since the Unix epoch.
#[verifier::external_body]
pub(crate) fn utc_now_micros() -> (r: i64) {
    chrono::Utc::now().timestamp_micros()
}

/// The path of a test's fixture file `name`: `<root>/<assignment>/<test>/<name>`.
pub open spec fn fixture_path(root: Seq<char>, assignment_id: Uid, test_id: Uid, name: Seq<char>) -> Seq<
    char,
> {
    path_join(
        path_join(path_join(root, uid_text(assignment_id.bytes@)), uid_text(test_id.bytes@)),
        name,
    )
}

/// The path of `test`'s fixture file `name` under the fixtures root `root`.
pub fn fixture_file(root: &str, test: &Test, name: &str) -> (r: String)
    ensures
        r@ == fixture_path(root@, test.assignment_id, test.id, name@),
{
    let a = uid_to_text(&test.assignment_id);
    let t = uid_to_text(&test.id);
    let p = join_path(root, a.as_str());
    let p = join_path(p.as_str(), t.as_str());
    join_path(p.as_str(), name)
}

/// What the sandboxed process left behind.
pub struct ProcessOutput {
    /// Absent where the process was ended by a signal.
    pub exit_code: Option<i32>,
    pub stdout: Vec<u8>,
    pub stderr: Vec<u8>,
}

/// Why a run was given up. Every one of these leaves the record without a
/// result for good.
#[derive(Clone, Copy, Debug, PartialEq, Eq, Structural)]
pub enum Failure {
    /// The record could not be created.
    Insert,
    /// The sandbox could not be started.
    Spawn,
    /// The test could not be looked up.
    TestLookup,
    /// The process's exit could not be awaited.
    Wait,
    /// The expected-output fixture could not be read.
    ExpectedOutput,
    /// The record could not be read back.
    RecordLookup,
    /// The result could not be stored.
    Update,
    /// An event came that the current stage does not wait for.
    OutOfOrder,
}

/// Where a run stands.
pub enum Stage {
    /// Waiting for the record to be created; the command runs next.
    Inserting { command: SandboxCommand },
    /// Waiting for the sandbox to start.
    Spawning,
    /// Waiting for the test's description.
    FetchingTest,
    /// Waiting for the stdin fixture.
    ReadingStdin { test: Test },
    /// Waiting for the input to be written to the process.
    WritingStdin { test: Test },
    /// Waiting for the process to exit.
    Waiting { test: Test },
    /// Waiting for the expected-output fixture.
    ReadingExpected { test: Test, output: ProcessOutput },
    /// Judged; waiting for the record to be read back.
    FetchingRecord { test: Test, output: ProcessOutput, expected: Vec<u8>, passed: bool },
    /// Waiting for the result to be stored.
    Updating,
    /// The record holds its result.
    Completed,
    /// Given up; the record keeps no result.
    Abandoned,
}

/// What the outside world reports back after an action.
pub enum Event {
    /// Whether the record was created.
    Inserted(bool),
    /// Whether the sandbox started.
    Spawned(bool),
    /// The test, where it could be looked up.
    TestFetched(Option<Test>),
    /// The stdin fixture, where it could be read.
    StdinRead(Option<Vec<u8>>),
    /// The input was handed to the process (whether or not it took all of it).
    StdinWritten,
    /// The process's output, where its exit could be awaited.
    Exited(Option<ProcessOutput>),
    /// The expected-output fixture, where it could be read.
    ExpectedRead(Option<Vec<u8>>),
    /// The record, where it could be read back.
    RecordFetched(Option<Runner>),
    /// Whether the result was stored.
    Updated(bool),
}

/// What the outside world is to do next.
pub enum Action {
    /// Create this record.
    Insert(Runner),
    /// Start this process.
    Spawn(SandboxCommand),
    /// Look up the test with this identity.
    FetchTest(Uid),
    /// Read the file at this path.
    ReadStdin(String),
    /// Write these bytes to the process's input, then close it.
    WriteStdin(Vec<u8>),
    /// Await the process's exit and collect its output.
    Wait,
    /// Read the file at this path.
    ReadExpected(String),
    /// Read back the record with this identity.
    FetchRecord(Uid),
    /// Store the result of this record, all columns in one update.
    Update(Runner),
    /// Give up, for this reason.
    Abandon(Failure),
    /// Nothing is left to do.
    Finish,
}

/// The decisions of one run of one test for one attempt.
pub struct Worker {
    pub id: Uid,
    pub test_id: Uid,
    pub attempt_id: Uid,
    /// Root of the fixtures.
    pub tests: String,
    pub write_stdin: bool,
    pub stage: Stage,
}

/// `r` is `record` with its result set from a judged run finished at `now`.
pub open spec fn completes(
    r: Runner,
    record: Runner,
    now: i64,
    output: ProcessOutput,
    expected: Vec<u8>,
    passed: bool,
    points: int,
) -> bool {
    &&& r.same_run(&record)
    &&& r.finished_at == Some(now)
    &&& r.exit_code == stored_exit_code(output.exit_code)
    &&& r.stdout == Some(output.stdout)
    &&& r.stderr == Some(output.stderr)
    &&& r.expected_stdout == Some(expected)
    &&& r.expected_stderr is None
    &&& r.passed == passed
    &&& r.points == points
}

/// The run is given up for `why`.
pub open spec fn abandons(w: Worker, a: Action, why: Failure) -> bool {
    w.stage is Abandoned && a == Action::Abandon(why)
}

/// The input fed to the process: the stdin fixture, or nothing where it
/// could not be read.
pub open spec fn stdin_bytes(content: Option<Vec<u8>>) -> Seq<u8> {
    match content {
        Some(c) => c@,
        None => seq![],
    }
}

/// One decision: from worker `o` and event `e`, at time `now`, to worker `f`
/// and action `a`.
pub open spec fn step_spec(o: Worker, e: Event, now: i64, f: Worker, a: Action) -> bool {
    &&& f.id == o.id
    &&& f.test_id == o.test_id
    &&& f.attempt_id == o.attempt_id
    &&& f.tests == o.tests
    &&& f.write_stdin == o.write_stdin
    &&& match o.stage {
        Stage::Inserting { command } => match e {
            Event::Inserted(ok) => if ok {
                f.stage is Spawning && a == Action::Spawn(command)
            } else {
                abandons(f, a, Failure::Insert)
            },
            _ => abandons(f, a, Failure::OutOfOrder),
        },
        Stage::Spawning => match e {
            Event::Spawned(ok) => if ok {
                f.stage is FetchingTest && a == Action::FetchTest(o.test_id)
            } else {
                abandons(f, a, Failure::Spawn)
            },
            _ => abandons(f, a, Failure::OutOfOrder),
        },
        Stage::FetchingTest => match e {
            Event::TestFetched(found) => match found {
                Some(test) => if o.write_stdin {
                    &&& f.stage == (Stage::ReadingStdin { test })
                    &&& a is ReadStdin
                    &&& a->ReadStdin_0@ == fixture_path(
                        o.tests@,
                        test.assignment_id,
                        test.id,
                        "test.in"@,
                    )
                } else {
                    f.stage == (Stage::Waiting { test }) && a is Wait
                },
                None => abandons(f, a, Failure::TestLookup),
            },
            _ => abandons(f, a, Failure::OutOfOrder),
        },
        Stage::ReadingStdin { test } => match e {
            Event::StdinRead(content) => {
                &&& f.stage == (Stage::WritingStdin { test })
                &&& a is WriteStdin
                &&& a->WriteStdin_0@ == stdin_bytes(content)
            },
            _ => abandons(f, a, Failure::OutOfOrder),
        },
        Stage::WritingStdin { test } => match e {
            Event::StdinWritten => f.stage == (Stage::Waiting { test }) && a is Wait,
            _ => abandons(f, a, Failure::OutOfOrder),
        },
        Stage::Waiting { test } => match e {
            Event::Exited(out) => match out {
                Some(output) => {
                    &&& f.stage == (Stage::ReadingExpected { test, output })
                    &&& a is ReadExpected
                    &&& a->ReadExpected_0@ == fixture_path(
                        o.tests@,
                        test.assignment_id,
                        test.id,
                        "test.out"@,
                    )
                },
                None => abandons(f, a, Failure::Wait),
            },
            _ => abandons(f, a, Failure::OutOfOrder),
        },
        Stage::ReadingExpected { test, output } => match e {
            Event::ExpectedRead(found) => match found {
                Some(expected) => {
                    &&& f.stage == (Stage::FetchingRecord {
                        test,
                        output,
                        expected,
                        passed: outputs_agree(expected@, output.stdout@),
                    })
                    &&& a == Action::FetchRecord(o.id)
                },
                None => abandons(f, a, Failure::ExpectedOutput),
            },
            _ => abandons(f, a, Failure::OutOfOrder),
        },
        Stage::FetchingRecord { test, output, expected, passed } => match e {
            Event::RecordFetched(found) => match found {
                Some(record) => {
                    &&& f.stage is Updating
                    &&& a is Update
                    &&& completes(
                        a->Update_0,
                        record,
                        now,
                        output,
                        expected,
                        passed,
                        award(passed, test.points as int),
                    )
                },
                None => abandons(f, a, Failure::RecordLookup),
            },
            _ => abandons(f, a, Failure::OutOfOrder),
        },
        Stage::Updating => match e {
            Event::Updated(ok) => if ok {
                f.stage is Completed && a == Action::Finish
            } else {
                abandons(f, a, Failure::Update)
            },
            _ => abandons(f, a, Failure::OutOfOrder),
        },
        Stage::Completed => f.stage is Completed && a == Action::Finish,
        Stage::Abandoned => f.stage is Abandoned && a == Action::Finish,
    }
}

impl Worker {
    /// A judged run's verdict agrees with the outputs it was drawn from.
    pub open spec fn wf(&self) -> bool {
        match self.stage {
            Stage::FetchingRecord { test, output, expected, passed } => passed == outputs_agree(
                expected@,
                output.stdout@,
            ),
            _ => true,
        }
    }

    /// `self` and `a` are how a run of `blueprint` starts: the record is to
    /// be created first, and the sandbox command waits its turn.
    pub open spec fn starts(
        &self,
        a: Action,
        blueprint: &NSJailBlueprint,
        test_id: Uid,
        attempt_id: Uid,
        id: Uid,
        now: i64,
    ) -> bool {
        &&& self.id == id
        &&& self.test_id == test_id
        &&& self.attempt_id == attempt_id
        &&& self.tests@ == blueprint.tests@
        &&& self.write_stdin == blueprint.write_stdin
        &&& self.stage is Inserting
        &&& self.stage->Inserting_command.program@ == "sudo"@
        &&& texts(self.stage->Inserting_command.args@) == blueprint.spec_args()
        &&& self.stage->Inserting_command.pipe_stdin == blueprint.write_stdin
        &&& a is Insert
        &&& a->Insert_0.is_fresh(id, test_id, attempt_id, blueprint, now)
    }

    /// The start of a run of `blueprint` with record identity `id`, created at `now`.
    pub fn start_with(
        blueprint: NSJailBlueprint,
        test_id: Uid,
        attempt_id: Uid,
        id: Uid,
        now: i64,
    ) -> (r: (Worker, Action))
        ensures
            r.0.starts(r.1, &blueprint, test_id, attempt_id, id, now),
            r.0.wf(),
    {
        let record = Runner::created(id, test_id, attempt_id, &blueprint, now);
        let tests = blueprint.tests.clone();
        let write_stdin = blueprint.write_stdin;
        let command = blueprint.into_command();
        let w = Worker { id, test_id, attempt_id, tests, write_stdin, stage: Stage::Inserting { command } };
        (w, Action::Insert(record))
    }

    /// The next decision, with `now` as the time a result is stamped with.
    pub fn step_at(self, event: Event, now: i64) -> (r: (Worker, Action))
        ensures
            step_spec(self, event, now, r.0, r.1),
            self.wf() ==> r.0.wf(),
    {
        let Worker { id, test_id, attempt_id, tests, write_stdin, stage } = self;
        let (stage, action) = match stage {
            Stage::Inserting { command } => match event {
                Event::Inserted(ok) => if ok {
                    (Stage::Spawning, Action::Spawn(command))
                } else {
                    (Stage::Abandoned, Action::Abandon(Failure::Insert))
                },
                _ => (Stage::Abandoned, Action::Abandon(Failure::OutOfOrder)),
            },
            Stage::Spawning => match event {
                Event::Spawned(ok) => if ok {
                    (Stage::FetchingTest, Action::FetchTest(test_id))
                } else {
                    (Stage::Abandoned, Action::Abandon(Failure::Spawn))
                },
                _ => (Stage::Abandoned, Action::Abandon(Failure::OutOfOrder)),
            },
            Stage::FetchingTest => match event {
                Event::TestFetched(found) => match found {
                    Some(test) => if write_stdin {
                        let path = fixture_file(tests.as_str(), &test, "test.in");
                        (Stage::ReadingStdin { test }, Action::ReadStdin(path))
                    } else {
                        (Stage::Waiting { test }, Action::Wait)
                    },
                    None => (Stage::Abandoned, Action::Abandon(Failure::TestLookup)),
                },
                _ => (Stage::Abandoned, Action::Abandon(Failure::OutOfOrder)),
            },
            Stage::ReadingStdin { test } => match event {
                Event::StdinRead(content) => {
                    let bytes = match content {
                        Some(c) => c,
                        None => Vec::new(),
                    };
                    (Stage::WritingStdin { test }, Action::WriteStdin(bytes))
                },
                _ => (Stage::Abandoned, Action::Abandon(Failure::OutOfOrder)),
            },
            Stage::WritingStdin { test } => match event {
                Event::StdinWritten => (Stage::Waiting { test }, Action::Wait),
                _ => (Stage::Abandoned, Action::Abandon(Failure::OutOfOrder)),
            },
            Stage::Waiting { test } => match event {
                Event::Exited(out) => match out {
                    Some(output) => {
                        let path = match test.type_ {
                            TestType::Compare => fixture_file(tests.as_str(), &test, "test.out"),
                        };
                        (Stage::ReadingExpected { test, output }, Action::ReadExpected(path))
                    },
                    None => (Stage::Abandoned, Action::Abandon(Failure::Wait)),
                },
                _ => (Stage::Abandoned, Action::Abandon(Failure::OutOfOrder)),
            },
            Stage::ReadingExpected { test, output } => match event {
                Event::ExpectedRead(found) => match judge(test.type_, output.stdout.as_slice(), found) {
                    Ok(verdict) => {
                        let passed = verdict.passed;
                        let expected = verdict.expected_stdout;
                        (
                            Stage::FetchingRecord { test, output, expected, passed },
                            Action::FetchRecord(id),
                        )
                    },
                    Err(_) => (Stage::Abandoned, Action::Abandon(Failure::ExpectedOutput)),
                },
                _ => (Stage::Abandoned, Action::Abandon(Failure::OutOfOrder)),
            },
            Stage::FetchingRecord { test, output, expected, passed } => match event {
                Event::RecordFetched(found) => match found {
                    Some(record) => {
                        let points = awarded_points(passed, test.points);
                        let done = record.update_completed(
                            now,
                            output.exit_code,
                            output.stdout,
                            output.stderr,
                            Some(expected),
                            None,
                            passed,
                            points,
                        );
                        (Stage::Updating, Action::Update(done))
                    },
                    None => (Stage::Abandoned, Action::Abandon(Failure::RecordLookup)),
                },
                _ => (Stage::Abandoned, Action::Abandon(Failure::OutOfOrder)),
            },
            Stage::Updating => match event {
                Event::Updated(ok) => if ok {
                    (Stage::Completed, Action::Finish)
                } else {
                    (Stage::Abandoned, Action::Abandon(Failure::Update))
                },
                _ => (Stage::Abandoned, Action::Abandon(Failure::OutOfOrder)),
            },
            Stage::Completed => (Stage::Completed, Action::Finish),
            Stage::Abandoned => (Stage::Abandoned, Action::Finish),
        };
        (Worker { id, test_id, attempt_id, tests, write_stdin, stage }, action)
    }

    /// The next decision, stamping a result with the current time.
    pub fn step(self, event: Event) -> (r: (Worker, Action))
        ensures
            exists|now: i64| step_spec(self, event, now, r.0, r.1),
            self.wf() ==> r.0.wf(),
    {
        let now = utc_now_micros();
        self.step_at(event, now)
    }
}

impl Instance {
    /// Starts this run for `test_id` and `attempt_id`: draws a fresh record
    /// identity and stamps the record with the current time.
    pub fn start(self, test_id: Uid, attempt_id: Uid) -> (r: (Worker, Action))
        ensures
            exists|id: Uid, now: i64|
                r.0.starts(r.1, self.spec_blueprint(), test_id, attempt_id, id, now),
            r.0.wf(),
    {
        let id = fresh_uid();
        let now = utc_now_micros();
        let blueprint = self.into_blueprint();
        Worker::start_with(blueprint, test_id, attempt_id, id, now)
    }
}

/// A run whose output matches the expected-output fixture once both are
/// trimmed is stored as passed, with the test's full points.
pub proof fn lemma_match_earns_full_points(
    o: Worker,
    expected: Vec<u8>,
    now1: i64,
    m: Worker,
    a1: Action,
    record: Runner,
    now2: i64,
    f: Worker,
    a2: Action,
)
    requires
        o.stage is ReadingExpected,
        outputs_agree(expected@, o.stage->ReadingExpected_output.stdout@),
        step_spec(o, Event::ExpectedRead(Some(expected)), now1, m, a1),
        step_spec(m, Event::RecordFetched(Some(record)), now2, f, a2),
    ensures
        a2 is Update,
        a2->Update_0.passed,
        a2->Update_0.points == o.stage->ReadingExpected_test.points,
{
}

/// A run whose output does not match is stored as failed with no points;
/// the points stored never fall below 0 nor exceed the test's maximum.
pub proof fn lemma_mismatch_earns_nothing(
    o: Worker,
    expected: Vec<u8>,
    now1: i64,
    m: Worker,
    a1: Action,
    record: Runner,
    now2: i64,
    f: Worker,
    a2: Action,
)
    requires
        o.stage is ReadingExpected,
        step_spec(o, Event::ExpectedRead(Some(expected)), now1, m, a1),
        step_spec(m, Event::RecordFetched(Some(record)), now2, f, a2),
    ensures
        a2 is Update,
        !outputs_agree(expected@, o.stage->ReadingExpected_output.stdout@) ==> !a2->Update_0.passed
            && a2->Update_0.points == 0,
        o.stage->ReadingExpected_test.points >= 0 ==> 0 <= a2->Update_0.points
            <= o.stage->ReadingExpected_test.points,
{
}

/// A started run's record carries no part of a result.
pub proof fn lemma_started_record_has_no_result(
    w: Worker,
    a: Action,
    blueprint: NSJailBlueprint,
    test_id: Uid,
    attempt_id: Uid,
    id: Uid,
    now: i64,
)
    requires
        w.starts(a, &blueprint, test_id, attempt_id, id, now),
    ensures
        a->Insert_0.well_formed(),
        !a->Insert_0.is_completed(),
{
}

/// A stored result is whole: the finish time, both captured streams and the
/// expected output all come together, and no step hands out any other
/// record.
pub proof fn lemma_stored_result_is_whole(o: Worker, e: Event, now: i64, f: Worker, a: Action)
    requires
        step_spec(o, e, now, f, a),
    ensures
        !(a is Insert),
        a is Update ==> a->Update_0.well_formed() && a->Update_0.is_completed()
            && a->Update_0.expected_stdout is Some,
{
}

/// A missing stdin fixture is read as empty input: the run goes on and
/// feeds the process nothing.
pub proof fn lemma_missing_stdin_is_empty(o: Worker, now: i64, f: Worker, a: Action)
    requires
        o.stage is ReadingStdin,
        step_spec(o, Event::StdinRead(None), now, f, a),
    ensures
        f.stage is WritingStdin,
        f.stage->WritingStdin_test == o.stage->ReadingStdin_test,
        a is WriteStdin,
        a->WriteStdin_0@.len() == 0,
{
}

/// A missing expected-output fixture gives the run up: the record is never
/// judged.
pub proof fn lemma_missing_expected_abandons(o: Worker, now: i64, f: Worker, a: Action)
    requires
        o.stage is ReadingExpected,
        step_spec(o, Event::ExpectedRead(None), now, f, a),
    ensures
        f.stage is Abandoned,
        a == Action::Abandon(Failure::ExpectedOutput),
{
}

/// A run that was given up stays given up, and never stores a result.
pub proof fn lemma_abandoned_stays(o: Worker, e: Event, now: i64, f: Worker, a: Action)
    requires
        o.stage is Abandoned,
        step_spec(o, e, now, f, a),
    ensures
        f.stage is Abandoned,
        a == Action::Finish,
{
}

} // verus!
