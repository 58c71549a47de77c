use vstd::prelude::*;
use crate::judge::TestType;
use crate::sandbox::NSJailBlueprint;
use crate::uid::Uid;

verus! {

/// One graded check of an assignment. Times across the crate are
/// microseconds since the Unix epoch, in UTC.
pub struct Test {
    pub id: Uid,
    pub name: String,
    pub description: String,
    /// The points a passing run earns; never negative in stored data.
    pub points: i64,
    pub type_: TestType,
    pub assignment_id: Uid,
}

/// One submission of a program for an assignment.
pub struct Attempt {
    pub id: Uid,
    pub assignment_id: Uid,
    pub user_id: Uid,
    pub submitted_at: i64,
}

/// The durable record of one run of one test for one attempt.
///
/// Besides its identity it keeps a snapshot of the limits it ran under and
/// the command, and a result (finish time, exit code, captured output, the
/// expected output used, verdict and points) that is absent until the run
/// completes and then present as a whole. The exit code stays absent where
/// the process was ended by a signal.
pub struct Runner {
    pub id: Uid,
    pub test_id: Uid,
    pub attempt_id: Uid,
    pub passed: bool,
    pub points: i64,
    pub command_ran: String,
    pub user_command_ran: String,
    pub created_at: i64,
    pub finished_at: Option<i64>,
    pub exit_code: Option<i64>,
    pub stdout: Option<Vec<u8>>,
    pub stderr: Option<Vec<u8>>,
    pub expected_stdout: Option<Vec<u8>>,
    pub expected_stderr: Option<Vec<u8>>,
    pub memory_limit: i64,
    pub time_limit: i64,
    pub max_cpus: i64,
    pub disable_network: bool,
}

/// An exit code as the record stores it.
pub open spec fn stored_exit_code(code: Option<i32>) -> Option<i64> {
    match code {
        Some(c) => Some(c as i64),
        None => None,
    }
}

impl Runner {
    /// No part of the result is there yet.
    pub open spec fn is_pending(&self) -> bool {
        &&& self.finished_at is None
        &&& self.exit_code is None
        &&& self.stdout is None
        &&& self.stderr is None
        &&& self.expected_stdout is None
        &&& self.expected_stderr is None
        &&& !self.passed
        &&& self.points == 0
    }

    /// The result is there: the finish time and both captured streams.
    pub open spec fn is_completed(&self) -> bool {
        &&& self.finished_at is Some
        &&& self.stdout is Some
        &&& self.stderr is Some
    }

    /// The result is either wholly absent or present.
    pub open spec fn well_formed(&self) -> bool {
        self.is_pending() || self.is_completed()
    }

    /// `self` and `other` are the same record before any result: identity,
    /// command and limits agree.
    pub open spec fn same_run(&self, other: &Runner) -> bool {
        &&& self.id == other.id
        &&& self.test_id == other.test_id
        &&& self.attempt_id == other.attempt_id
        &&& self.command_ran == other.command_ran
        &&& self.user_command_ran == other.user_command_ran
        &&& self.created_at == other.created_at
        &&& self.memory_limit == other.memory_limit
        &&& self.time_limit == other.time_limit
        &&& self.max_cpus == other.max_cpus
        &&& self.disable_network == other.disable_network
    }

    /// The record as a run of `blueprint` creates it: the given identity and
    /// creation time, the command and limits of the blueprint, no result.
    pub open spec fn is_fresh(
        &self,
        id: Uid,
        test_id: Uid,
        attempt_id: Uid,
        blueprint: &NSJailBlueprint,
        created_at: i64,
    ) -> bool {
        &&& self.id == id
        &&& self.test_id == test_id
        &&& self.attempt_id == attempt_id
        &&& self.command_ran@ == blueprint.command@
        &&& self.user_command_ran@ == blueprint.command@
        &&& self.created_at == created_at
        &&& self.memory_limit == blueprint.memory_limit
        &&& self.time_limit == blueprint.time_limit
        &&& self.max_cpus == blueprint.max_cpus
        &&& self.disable_network == blueprint.disable_network
        &&& self.is_pending()
    }

    /// A fresh record for a run of `blueprint`, with no result.
    pub fn created(
        id: Uid,
        test_id: Uid,
        attempt_id: Uid,
        blueprint: &NSJailBlueprint,
        created_at: i64,
    ) -> (r: Runner)
        ensures
            r.is_fresh(id, test_id, attempt_id, blueprint, created_at),
    {
        Runner {
            id,
            test_id,
            attempt_id,
            passed: false,
            points: 0,
            command_ran: blueprint.command.clone(),
            user_command_ran: blueprint.command.clone(),
            created_at,
            finished_at: None,
            exit_code: None,
            stdout: None,
            stderr: None,
            expected_stdout: None,
            expected_stderr: None,
            memory_limit: blueprint.memory_limit,
            time_limit: blueprint.time_limit,
            max_cpus: blueprint.max_cpus,
            disable_network: blueprint.disable_network,
        }
    }

    /// The record with its whole result set at once.
    pub fn update_completed(
        self,
        finished_at: i64,
        exit_code: Option<i32>,
        stdout: Vec<u8>,
        stderr: Vec<u8>,
        expected_stdout: Option<Vec<u8>>,
        expected_stderr: Option<Vec<u8>>,
        passed: bool,
        points: i64,
    ) -> (r: Runner)
        ensures
            r.same_run(&self),
            r.finished_at == Some(finished_at),
            r.exit_code == stored_exit_code(exit_code),
            r.stdout == Some(stdout),
            r.stderr == Some(stderr),
            r.expected_stdout == expected_stdout,
            r.expected_stderr == expected_stderr,
            r.passed == passed,
            r.points == points,
            r.is_completed(),
    {
        let code = match exit_code {
            Some(c) => Some(c as i64),
            None => None,
        };
        Runner {
            finished_at: Some(finished_at),
            exit_code: code,
            stdout: Some(stdout),
            stderr: Some(stderr),
            expected_stdout,
            expected_stderr,
            passed,
            points,
            ..self
        }
    }
}

} // verus!
