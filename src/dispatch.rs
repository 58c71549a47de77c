use vstd::prelude::*;
use crate::engine::{Action, Worker, utc_now_micros};
use crate::model::{Attempt, Test};
use crate::sandbox::{NSJailBlueprint, sandbox_args};
use crate::text::{join_path, path_join, texts};
use crate::uid::{fresh_uid, lemma_hex_of_len, lemma_uid_text_injective, lemma_uid_text_len, hex_of, uid_text, uid_to_text, Uid};

verus! {

/// Address-space ceiling of every run.
pub const MEMORY_LIMIT: i64 = 512;

/// Wall-clock ceiling of every run, in seconds.
pub const TIME_LIMIT: i64 = 5;

/// CPU ceiling of every run.
pub const MAX_CPUS: i64 = 1;

/// The command every submission runs with.
pub open spec fn entry_command() -> Seq<char> {
    "/usr/bin/python3 main.py"@
}

/// The directory private to one attempt: `<root>/<assignment>/<user>/<attempt>`.
pub open spec fn submission_path(root: Seq<char>, attempt: Attempt) -> Seq<char> {
    path_join(
        path_join(path_join(root, uid_text(attempt.assignment_id.bytes@)), uid_text(attempt.user_id.bytes@)),
        uid_text(attempt.id.bytes@),
    )
}

/// The directory that holds `attempt`'s program, under the submissions root.
pub fn submission_dir(submissions: &str, attempt: &Attempt) -> (r: String)
    ensures
        r@ == submission_path(submissions@, *attempt),
{
    let a = uid_to_text(&attempt.assignment_id);
    let u = uid_to_text(&attempt.user_id);
    let t = uid_to_text(&attempt.id);
    let p = join_path(submissions, a.as_str());
    let p = join_path(p.as_str(), u.as_str());
    join_path(p.as_str(), t.as_str())
}

/// The file the submitted program is written to, in its directory.
pub fn entry_file(dir: &str) -> (r: String)
    ensures
        r@ == path_join(dir@, "main.py"@),
{
    join_path(dir, "main.py")
}

/// The blueprint every test of an attempt runs with: the fixed limits, no
/// network, the entry command fed its stdin fixture, a quiet sandbox.
pub fn default_blueprint(tests_root: &str, mountpoint: &str) -> (r: NSJailBlueprint)
    ensures
        r.tests@ == tests_root@,
        r.memory_limit == MEMORY_LIMIT,
        r.time_limit == TIME_LIMIT,
        r.max_cpus == MAX_CPUS,
        r.disable_network,
        r.mountpoint@ == mountpoint@,
        r.command@ == entry_command(),
        r.write_stdin,
        r.quiet,
{
    NSJailBlueprint {
        tests: String::from_str(tests_root),
        memory_limit: MEMORY_LIMIT,
        time_limit: TIME_LIMIT,
        max_cpus: MAX_CPUS,
        disable_network: true,
        mountpoint: String::from_str(mountpoint),
        command: String::from_str("/usr/bin/python3 main.py"),
        write_stdin: true,
        quiet: true,
    }
}

/// `w` and `a` start the run of the test `test_id` for `attempt_id` with
/// the default blueprint mounting `mount`, record identity `id`, created at `now`.
pub open spec fn launched(
    w: Worker,
    a: Action,
    tests_root: Seq<char>,
    mount: Seq<char>,
    test_id: Uid,
    attempt_id: Uid,
    id: Uid,
    now: i64,
) -> bool {
    &&& w.id == id
    &&& w.test_id == test_id
    &&& w.attempt_id == attempt_id
    &&& w.tests@ == tests_root
    &&& w.write_stdin
    &&& w.stage is Inserting
    &&& w.stage->Inserting_command.program@ == "sudo"@
    &&& texts(w.stage->Inserting_command.args@) == sandbox_args(
        MEMORY_LIMIT,
        TIME_LIMIT,
        MAX_CPUS,
        true,
        mount,
        entry_command(),
        true,
    )
    &&& w.stage->Inserting_command.pipe_stdin
    &&& w.wf()
    &&& a is Insert
    &&& a->Insert_0.id == id
    &&& a->Insert_0.test_id == test_id
    &&& a->Insert_0.attempt_id == attempt_id
    &&& a->Insert_0.command_ran@ == entry_command()
    &&& a->Insert_0.user_command_ran@ == entry_command()
    &&& a->Insert_0.created_at == now
    &&& a->Insert_0.memory_limit == MEMORY_LIMIT
    &&& a->Insert_0.time_limit == TIME_LIMIT
    &&& a->Insert_0.max_cpus == MAX_CPUS
    &&& a->Insert_0.disable_network
    &&& a->Insert_0.is_pending()
}

/// `r` starts one run per test of `tests`, in order, for `attempt`, mounting
/// the attempt's own directory, with the i-th record identity `ids[i]`.
pub open spec fn dispatched(
    r: Seq<(Worker, Action)>,
    attempt: Attempt,
    tests: Seq<Test>,
    submissions: Seq<char>,
    tests_root: Seq<char>,
    ids: Seq<Uid>,
    now: i64,
) -> bool {
    &&& r.len() == tests.len()
    &&& forall|i: int|
        0 <= i < r.len() ==> launched(
            #[trigger] r[i].0,
            r[i].1,
            tests_root,
            submission_path(submissions, attempt),
            tests[i].id,
            attempt.id,
            ids[i],
            now,
        )
}

/// Starts the runs of all `tests` for `attempt`, the i-th with record
/// identity `ids[i]`, all created at `now`.
pub fn dispatch_with(
    attempt: &Attempt,
    tests: &Vec<Test>,
    submissions: &str,
    tests_root: &str,
    ids: &Vec<Uid>,
    now: i64,
) -> (r: Vec<(Worker, Action)>)
    requires
        ids@.len() == tests@.len(),
    ensures
        dispatched(r@, *attempt, tests@, submissions@, tests_root@, ids@, now),
{
    let mount = submission_dir(submissions, attempt);
    let mut out: Vec<(Worker, Action)> = Vec::new();
    let mut i: usize = 0;
    while i < tests.len()
        invariant
            ids@.len() == tests@.len(),
            i <= tests@.len(),
            mount@ == submission_path(submissions@, *attempt),
            out@.len() == i,
            forall|k: int|
                0 <= k < i ==> launched(
                    #[trigger] out@[k].0,
                    out@[k].1,
                    tests_root@,
                    mount@,
                    tests@[k].id,
                    attempt.id,
                    ids@[k],
                    now,
                ),
        decreases tests@.len() - i,
    {
        let bp = default_blueprint(tests_root, mount.as_str());
        let ghost g = bp;
        let started = Worker::start_with(bp, tests[i].id, attempt.id, ids[i], now);
        assert(g.spec_args() == sandbox_args(
            MEMORY_LIMIT,
            TIME_LIMIT,
            MAX_CPUS,
            true,
            mount@,
            entry_command(),
            true,
        ));
        out.push(started);
        i = i + 1;
    }
    out
}

/// Starts the runs of all `tests` for `attempt`: each record gets a freshly
/// drawn identity, and all are stamped with the current time.
pub fn dispatch(attempt: &Attempt, tests: &Vec<Test>, submissions: &str, tests_root: &str) -> (r:
    Vec<(Worker, Action)>)
    ensures
        exists|ids: Seq<Uid>, now: i64|
            ids.len() == tests@.len() && dispatched(
                r@,
                *attempt,
                tests@,
                submissions@,
                tests_root@,
                ids,
                now,
            ),
{
    let mut ids: Vec<Uid> = Vec::new();
    let mut i: usize = 0;
    while i < tests.len()
        invariant
            i <= tests@.len(),
            ids@.len() == i,
        decreases tests@.len() - i,
    {
        ids.push(fresh_uid());
        i = i + 1;
    }
    let now = utc_now_micros();
    dispatch_with(attempt, tests, submissions, tests_root, &ids, now)
}

/// Dispatching an attempt with N tests starts N runs, one per test in
/// order, whose records all reference that attempt; where the drawn
/// identities are distinct, so are the records' identities.
pub proof fn lemma_one_record_per_test(
    r: Seq<(Worker, Action)>,
    attempt: Attempt,
    tests: Seq<Test>,
    submissions: Seq<char>,
    tests_root: Seq<char>,
    ids: Seq<Uid>,
    now: i64,
)
    requires
        ids.len() == tests.len(),
        dispatched(r, attempt, tests, submissions, tests_root, ids, now),
    ensures
        r.len() == tests.len(),
        forall|i: int|
            0 <= i < r.len() ==> (#[trigger] r[i]).1 is Insert && r[i].1->Insert_0.attempt_id
                == attempt.id && r[i].1->Insert_0.test_id == tests[i].id,
        (forall|i: int, j: int| 0 <= i < j < ids.len() ==> ids[i] != ids[j]) ==> forall|
            i: int,
            j: int,
        |
            0 <= i < j < r.len() ==> (#[trigger] r[i]).1->Insert_0.id != (#[trigger] r[j]).1->Insert_0.id,
{
    assert forall|i: int| 0 <= i < r.len() implies (#[trigger] r[i]).1 is Insert && r[i].1->Insert_0.attempt_id
        == attempt.id && r[i].1->Insert_0.test_id == tests[i].id by {
        assert(launched(r[i].0, r[i].1, tests_root, submission_path(submissions, attempt), tests[i].id, attempt.id, ids[i], now));
    }
    if forall|i: int, j: int| 0 <= i < j < ids.len() ==> ids[i] != ids[j] {
        assert forall|i: int, j: int| 0 <= i < j < r.len() implies (#[trigger] r[i]).1->Insert_0.id
            != (#[trigger] r[j]).1->Insert_0.id by {
            assert(launched(r[i].0, r[i].1, tests_root, submission_path(submissions, attempt), tests[i].id, attempt.id, ids[i], now));
            assert(launched(r[j].0, r[j].1, tests_root, submission_path(submissions, attempt), tests[j].id, attempt.id, ids[j], now));
        }
    }
}

/// The hexadecimal text of an identifier does not start with `/`.
proof fn lemma_uid_text_relative(b: Seq<u8>)
    requires
        b.len() == 16,
    ensures
        uid_text(b)[0] != '/',
{
    lemma_hex_of_len(b.subrange(0, 4));
    lemma_uid_text_len(b);
    let h = hex_of(b.subrange(0, 4));
    assert(h.drop_first().drop_first() =~= hex_of(b.subrange(0, 4).drop_first()));
    assert(uid_text(b)[0] == h[0]);
}

/// A relative part joined onto a path ends the result.
proof fn lemma_join_ends_with(base: Seq<char>, part: Seq<char>)
    requires
        part.len() > 0,
        part[0] != '/',
    ensures
        path_join(base, part).len() >= part.len(),
        path_join(base, part).subrange(
            path_join(base, part).len() - part.len(),
            path_join(base, part).len() as int,
        ) == part,
{
    let j = path_join(base, part);
    if base.len() == 0 || base.last() == '/' {
        assert(j.subrange(j.len() - part.len(), j.len() as int) =~= part);
    } else {
        assert(j.subrange(j.len() - part.len(), j.len() as int) =~= part);
    }
}

/// Different attempts have different submission directories.
pub proof fn lemma_submission_paths_differ(root: Seq<char>, a1: Attempt, a2: Attempt)
    requires
        a1.id != a2.id,
    ensures
        submission_path(root, a1) != submission_path(root, a2),
{
    let t1 = uid_text(a1.id.bytes@);
    let t2 = uid_text(a2.id.bytes@);
    lemma_uid_text_len(a1.id.bytes@);
    lemma_uid_text_len(a2.id.bytes@);
    lemma_uid_text_relative(a1.id.bytes@);
    lemma_uid_text_relative(a2.id.bytes@);
    let b1 = path_join(path_join(root, uid_text(a1.assignment_id.bytes@)), uid_text(a1.user_id.bytes@));
    let b2 = path_join(path_join(root, uid_text(a2.assignment_id.bytes@)), uid_text(a2.user_id.bytes@));
    lemma_join_ends_with(b1, t1);
    lemma_join_ends_with(b2, t2);
    if submission_path(root, a1) == submission_path(root, a2) {
        lemma_uid_text_injective(a1.id.bytes@, a2.id.bytes@);
        assert(a1.id.bytes =~= a2.id.bytes);
    }
}

/// The mount argument of the sandbox command names the mounted directory.
proof fn lemma_mount_argument(mount: Seq<char>, command: Seq<char>)
    ensures
        sandbox_args(MEMORY_LIMIT, TIME_LIMIT, MAX_CPUS, true, mount, command, true)[17] == mount
            + ":/workspace"@,
{
    let s = sandbox_args(MEMORY_LIMIT, TIME_LIMIT, MAX_CPUS, true, mount, command, true);
    assert(crate::sandbox::policy_args().len() == 10);
}

/// Dispatches of two different attempts share no record, and no run of one
/// mounts the directory of the other.
pub proof fn lemma_attempts_disjoint(
    r1: Seq<(Worker, Action)>,
    attempt1: Attempt,
    tests1: Seq<Test>,
    ids1: Seq<Uid>,
    now1: i64,
    r2: Seq<(Worker, Action)>,
    attempt2: Attempt,
    tests2: Seq<Test>,
    ids2: Seq<Uid>,
    now2: i64,
    submissions: Seq<char>,
    tests_root: Seq<char>,
)
    requires
        attempt1.id != attempt2.id,
        dispatched(r1, attempt1, tests1, submissions, tests_root, ids1, now1),
        dispatched(r2, attempt2, tests2, submissions, tests_root, ids2, now2),
    ensures
        forall|i: int, j: int|
            0 <= i < r1.len() && 0 <= j < r2.len() ==> (#[trigger] r1[i]).1->Insert_0
                != (#[trigger] r2[j]).1->Insert_0,
        forall|i: int, j: int|
            0 <= i < r1.len() && 0 <= j < r2.len() ==> texts(
                (#[trigger] r1[i]).0.stage->Inserting_command.args@,
            )[17] != texts((#[trigger] r2[j]).0.stage->Inserting_command.args@)[17],
{
    let m1 = submission_path(submissions, attempt1);
    let m2 = submission_path(submissions, attempt2);
    lemma_submission_paths_differ(submissions, attempt1, attempt2);
    lemma_mount_argument(m1, entry_command());
    lemma_mount_argument(m2, entry_command());
    assert forall|i: int, j: int| 0 <= i < r1.len() && 0 <= j < r2.len() implies (#[trigger] r1[i]).1->Insert_0
        != (#[trigger] r2[j]).1->Insert_0 && texts(r1[i].0.stage->Inserting_command.args@)[17]
        != texts(r2[j].0.stage->Inserting_command.args@)[17] by {
        assert(launched(r1[i].0, r1[i].1, tests_root, m1, tests1[i].id, attempt1.id, ids1[i], now1));
        assert(launched(r2[j].0, r2[j].1, tests_root, m2, tests2[j].id, attempt2.id, ids2[j], now2));
        let x = m1 + ":/workspace"@;
        let y = m2 + ":/workspace"@;
        if x == y {
            assert(m1 =~= x.subrange(0, m1.len() as int));
            assert(m2 =~= y.subrange(0, m2.len() as int));
        }
    }
}

} // verus!
