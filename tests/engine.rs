use evaltor::engine::{fixture_file, Action, Event, Failure, ProcessOutput, Stage, Worker};
use evaltor::uid::Uid;
use evaltor::{NSJailBlueprint, Runner, Test, TestType};

fn uid(first: u8) -> Uid {
    let mut bytes = [0u8; 16];
    for (i, b) in bytes.iter_mut().enumerate() {
        *b = first.wrapping_add(i as u8);
    }
    Uid { bytes }
}

fn blueprint(write_stdin: bool) -> NSJailBlueprint {
    NSJailBlueprint {
        tests: "/srv/tests".to_string(),
        memory_limit: 512,
        time_limit: 5,
        max_cpus: 1,
        disable_network: true,
        mountpoint: "/srv/sub".to_string(),
        command: "/usr/bin/python3 main.py".to_string(),
        write_stdin,
        quiet: true,
    }
}

fn test_case(points: i64) -> Test {
    Test {
        id: uid(0x10),
        name: "primes".to_string(),
        description: "checks primes".to_string(),
        points,
        type_: TestType::Compare,
        assignment_id: uid(0x00),
    }
}

fn started(write_stdin: bool) -> (Worker, Runner) {
    let (w, a) = Worker::start_with(blueprint(write_stdin), uid(0x10), uid(0x20), uid(0x30), 1000);
    match a {
        Action::Insert(r) => (w, r),
        _ => panic!("a run starts by creating its record"),
    }
}

fn output(stdout: &[u8]) -> ProcessOutput {
    ProcessOutput { exit_code: Some(0), stdout: stdout.to_vec(), stderr: b"warn".to_vec() }
}

/// Runs a worker that feeds stdin from start to the stored result.
fn run_to_update(points: i64, stdin: Option<Vec<u8>>, stdout: &[u8], expected: &[u8]) -> (Worker, Runner, Vec<u8>) {
    let (w, record) = started(true);
    let (w, a) = w.step_at(Event::Inserted(true), 1);
    assert!(matches!(a, Action::Spawn(_)));
    let (w, a) = w.step_at(Event::Spawned(true), 2);
    assert!(matches!(a, Action::FetchTest(id) if id == uid(0x10)));
    let (w, a) = w.step_at(Event::TestFetched(Some(test_case(points))), 3);
    assert!(matches!(a, Action::ReadStdin(_)));
    let (w, a) = w.step_at(Event::StdinRead(stdin), 4);
    let fed = match a {
        Action::WriteStdin(bytes) => bytes,
        _ => panic!("input is written next"),
    };
    let (w, a) = w.step_at(Event::StdinWritten, 5);
    assert!(matches!(a, Action::Wait));
    let (w, a) = w.step_at(Event::Exited(Some(output(stdout))), 6);
    assert!(matches!(a, Action::ReadExpected(_)));
    let (w, a) = w.step_at(Event::ExpectedRead(Some(expected.to_vec())), 7);
    assert!(matches!(a, Action::FetchRecord(id) if id == uid(0x30)));
    let (w, a) = w.step_at(Event::RecordFetched(Some(record)), 8);
    match a {
        Action::Update(r) => (w, r, fed),
        _ => panic!("the result is stored next"),
    }
}

#[test]
fn start_creates_a_pending_record() {
    let (w, r) = started(true);
    assert_eq!(r.id, uid(0x30));
    assert_eq!(r.test_id, uid(0x10));
    assert_eq!(r.attempt_id, uid(0x20));
    assert_eq!(r.created_at, 1000);
    assert_eq!(r.command_ran, "/usr/bin/python3 main.py");
    assert_eq!(r.memory_limit, 512);
    assert!(r.finished_at.is_none() && r.stdout.is_none() && r.stderr.is_none());
    assert!(r.expected_stdout.is_none() && r.exit_code.is_none());
    assert!(!r.passed);
    assert_eq!(r.points, 0);
    match w.stage {
        Stage::Inserting { command } => {
            assert_eq!(command.program, "sudo");
            assert!(command.pipe_stdin);
        }
        _ => panic!("the command waits for the record"),
    }
}

#[test]
fn matching_run_earns_full_points() {
    let (w, r, fed) = run_to_update(3, Some(b"7\n".to_vec()), b"YES\n", b"YES");
    assert_eq!(fed, b"7\n".to_vec());
    assert!(r.passed);
    assert_eq!(r.points, 3);
    assert_eq!(r.finished_at, Some(8));
    assert_eq!(r.exit_code, Some(0));
    assert_eq!(r.stdout, Some(b"YES\n".to_vec()));
    assert_eq!(r.stderr, Some(b"warn".to_vec()));
    assert_eq!(r.expected_stdout, Some(b"YES".to_vec()));
    assert!(r.expected_stderr.is_none());
    assert_eq!(r.id, uid(0x30));
    assert_eq!(r.created_at, 1000);
    let (w, a) = w.step_at(Event::Updated(true), 9);
    assert!(matches!(a, Action::Finish));
    assert!(matches!(w.stage, Stage::Completed));
}

#[test]
fn mismatching_run_earns_nothing() {
    let (_, r, _) = run_to_update(3, Some(Vec::new()), b"4 ", b"5");
    assert!(!r.passed);
    assert_eq!(r.points, 0);
    assert!(r.finished_at.is_some() && r.stdout.is_some() && r.stderr.is_some());
}

#[test]
fn empty_output_against_empty_fixture_passes() {
    let (_, r, _) = run_to_update(2, None, b"", b"");
    assert!(r.passed);
    assert_eq!(r.points, 2);
}

#[test]
fn missing_stdin_fixture_feeds_empty_input() {
    let (_, r, fed) = run_to_update(1, None, b"4\n", b"4");
    assert!(fed.is_empty());
    assert!(r.passed);
    assert_eq!(r.points, 1);
}

#[test]
fn missing_expected_fixture_abandons() {
    let (w, _) = started(false);
    let (w, _) = w.step_at(Event::Inserted(true), 1);
    let (w, _) = w.step_at(Event::Spawned(true), 2);
    let (w, a) = w.step_at(Event::TestFetched(Some(test_case(5))), 3);
    assert!(matches!(a, Action::Wait));
    let (w, _) = w.step_at(Event::Exited(Some(output(b"4"))), 4);
    let (w, a) = w.step_at(Event::ExpectedRead(None), 5);
    assert!(matches!(a, Action::Abandon(Failure::ExpectedOutput)));
    assert!(matches!(w.stage, Stage::Abandoned));
    let (w, a) = w.step_at(Event::RecordFetched(None), 6);
    assert!(matches!(a, Action::Finish));
    assert!(matches!(w.stage, Stage::Abandoned));
}

#[test]
fn failures_abandon_the_run() {
    let (w, _) = started(true);
    let (w, a) = w.step_at(Event::Inserted(false), 1);
    assert!(matches!(a, Action::Abandon(Failure::Insert)));
    assert!(matches!(w.stage, Stage::Abandoned));

    let (w, _) = started(true);
    let (w, _) = w.step_at(Event::Inserted(true), 1);
    let (_, a) = w.step_at(Event::Spawned(false), 2);
    assert!(matches!(a, Action::Abandon(Failure::Spawn)));

    let (w, _) = started(true);
    let (w, _) = w.step_at(Event::Inserted(true), 1);
    let (w, _) = w.step_at(Event::Spawned(true), 2);
    let (_, a) = w.step_at(Event::TestFetched(None), 3);
    assert!(matches!(a, Action::Abandon(Failure::TestLookup)));

    let (w, _) = started(false);
    let (w, _) = w.step_at(Event::Inserted(true), 1);
    let (w, _) = w.step_at(Event::Spawned(true), 2);
    let (w, _) = w.step_at(Event::TestFetched(Some(test_case(1))), 3);
    let (_, a) = w.step_at(Event::Exited(None), 4);
    assert!(matches!(a, Action::Abandon(Failure::Wait)));
}

#[test]
fn lost_record_or_failed_update_abandons() {
    let (w, _) = started(false);
    let (w, _) = w.step_at(Event::Inserted(true), 1);
    let (w, _) = w.step_at(Event::Spawned(true), 2);
    let (w, _) = w.step_at(Event::TestFetched(Some(test_case(1))), 3);
    let (w, _) = w.step_at(Event::Exited(Some(output(b"1"))), 4);
    let (w, _) = w.step_at(Event::ExpectedRead(Some(b"1".to_vec())), 5);
    let (_, a) = w.step_at(Event::RecordFetched(None), 6);
    assert!(matches!(a, Action::Abandon(Failure::RecordLookup)));

    let (w, _, _) = run_to_update(1, None, b"1", b"1");
    let (w, a) = w.step_at(Event::Updated(false), 9);
    assert!(matches!(a, Action::Abandon(Failure::Update)));
    assert!(matches!(w.stage, Stage::Abandoned));
}

#[test]
fn out_of_order_event_abandons() {
    let (w, _) = started(true);
    let (w, a) = w.step_at(Event::StdinWritten, 1);
    assert!(matches!(a, Action::Abandon(Failure::OutOfOrder)));
    assert!(matches!(w.stage, Stage::Abandoned));
}

#[test]
fn fixture_paths_use_hyphenated_ids() {
    let t = test_case(1);
    assert_eq!(
        fixture_file("/srv/tests", &t, "test.out"),
        "/srv/tests/00010203-0405-0607-0809-0a0b0c0d0e0f/10111213-1415-1617-1819-1a1b1c1d1e1f/test.out"
    );
    let (w, _) = started(true);
    let (w, _) = w.step_at(Event::Inserted(true), 1);
    let (w, _) = w.step_at(Event::Spawned(true), 2);
    let (_, a) = w.step_at(Event::TestFetched(Some(test_case(1))), 3);
    match a {
        Action::ReadStdin(p) => assert_eq!(
            p,
            "/srv/tests/00010203-0405-0607-0809-0a0b0c0d0e0f/10111213-1415-1617-1819-1a1b1c1d1e1f/test.in"
        ),
        _ => panic!("the stdin fixture is read next"),
    }
}

#[test]
fn step_with_clock_reaches_the_same_decision() {
    let (w, _) = started(true);
    let (w, a) = w.step(Event::Inserted(true));
    assert!(matches!(a, Action::Spawn(_)));
    assert!(matches!(w.stage, Stage::Spawning));
}
