use vstd::prelude::*;

verus! {

/// How a test's output is graded.
#[derive(Clone, Copy, Debug, PartialEq, Eq, Structural)]
pub enum TestType {
    /// Exact comparison with the expected-output fixture, up to leading and
    /// trailing ASCII whitespace.
    Compare,
}

/// Whitespace bytes in the ASCII sense: tab, line feed, form feed, carriage
/// return and space.
pub open spec fn is_space_byte(b: u8) -> bool {
    b == 9 || b == 10 || b == 12 || b == 13 || b == 32
}

/// `s` without its leading whitespace bytes.
pub open spec fn trim_start(s: Seq<u8>) -> Seq<u8>
    decreases s.len(),
{
    if s.len() > 0 && is_space_byte(s[0]) {
        trim_start(s.drop_first())
    } else {
        s
    }
}

/// `s` without its trailing whitespace bytes.
pub open spec fn trim_end(s: Seq<u8>) -> Seq<u8>
    decreases s.len(),
{
    if s.len() > 0 && is_space_byte(s.last()) {
        trim_end(s.drop_last())
    } else {
        s
    }
}

/// `s` without leading and trailing whitespace bytes.
pub open spec fn trimmed(s: Seq<u8>) -> Seq<u8> {
    trim_end(trim_start(s))
}

/// Whether an actual output matches the expected one: equal bytes once both
/// are trimmed.
pub open spec fn outputs_agree(expected: Seq<u8>, actual: Seq<u8>) -> bool {
    trimmed(expected) == trimmed(actual)
}

/// The points a record earns: the test's maximum when it passed, else none.
pub open spec fn award(passed: bool, max_points: int) -> int {
    if passed {
        max_points
    } else {
        0
    }
}

fn is_space(b: u8) -> (r: bool)
    ensures
        r == is_space_byte(b),
{
    b == 9 || b == 10 || b == 12 || b == 13 || b == 32
}

/// The bounds of `s` once trimmed, as `trim_ascii` trims a byte slice.
pub fn trim_ascii_bounds(s: &[u8]) -> (r: (usize, usize))
    ensures
        r.0 <= r.1 <= s@.len(),
        r.0 + trim_start(s@).len() == s@.len(),
        s@.subrange(r.0 as int, r.1 as int) == trimmed(s@),
{
    let n = s.len();
    let mut i: usize = 0;
    assert(s@.subrange(0, n as int) =~= s@);
    while i < n && is_space(s[i])
        invariant
            n == s@.len(),
            i <= n,
            trim_start(s@) == trim_start(s@.subrange(i as int, n as int)),
        decreases n - i,
    {
        assert(s@.subrange(i as int, n as int).drop_first() =~= s@.subrange(i + 1, n as int));
        i = i + 1;
    }
    let mut j: usize = n;
    while j > i && is_space(s[j - 1])
        invariant
            n == s@.len(),
            i <= j <= n,
            trim_start(s@) == s@.subrange(i as int, n as int),
            trim_end(s@.subrange(i as int, n as int)) == trim_end(s@.subrange(i as int, j as int)),
        decreases j - i,
    {
        assert(s@.subrange(i as int, j as int).drop_last() =~= s@.subrange(i as int, j - 1));
        j = j - 1;
    }
    (i, j)
}

/// Whether `actual` matches `expected` byte for byte once both are trimmed.
pub fn outputs_match(expected: &[u8], actual: &[u8]) -> (r: bool)
    ensures
        r == outputs_agree(expected@, actual@),
{
    let (es, ee) = trim_ascii_bounds(expected);
    let (as_, ae) = trim_ascii_bounds(actual);
    let ghost te = expected@.subrange(es as int, ee as int);
    let ghost ta = actual@.subrange(as_ as int, ae as int);
    if ee - es != ae - as_ {
        assert(te.len() != ta.len());
        return false;
    }
    let len = ee - es;
    let mut k: usize = 0;
    while k < len
        invariant
            len == ee - es,
            len == ae - as_,
            es <= ee <= expected@.len(),
            as_ <= ae <= actual@.len(),
            te == expected@.subrange(es as int, ee as int),
            ta == actual@.subrange(as_ as int, ae as int),
            te == trimmed(expected@),
            ta == trimmed(actual@),
            k <= len,
            forall|m: int| 0 <= m < k ==> te[m] == ta[m],
        decreases len - k,
    {
        if expected[es + k] != actual[as_ + k] {
            assert(te[k as int] == expected@[es + k]);
            assert(ta[k as int] == actual@[as_ + k]);
            assert(te != ta);
            return false;
        }
        k = k + 1;
    }
    assert(te =~= ta);
    true
}

/// What the judge decided: whether the test passed, and the expected output
/// that the decision used.
pub struct Verdict {
    pub passed: bool,
    pub expected_stdout: Vec<u8>,
}

/// Why no verdict could be given.
#[derive(Clone, Copy, Debug, PartialEq, Eq, Structural)]
pub enum JudgeError {
    /// The expected-output fixture could not be read: the test has no
    /// defined correct answer.
    MissingExpectedOutput,
}

/// The verdict for `actual` under `type_`, where `expected` is the content of
/// the expected-output fixture, or `None` where it could not be read.
pub fn judge(type_: TestType, actual: &[u8], expected: Option<Vec<u8>>) -> (r: Result<
    Verdict,
    JudgeError,
>)
    ensures
        expected is None ==> r == Err::<Verdict, JudgeError>(JudgeError::MissingExpectedOutput),
        expected is Some ==> r is Ok && r->Ok_0.passed == outputs_agree(
            expected->Some_0@,
            actual@,
        ) && r->Ok_0.expected_stdout == expected->Some_0,
{
    match type_ {
        TestType::Compare => match expected {
            None => Err(JudgeError::MissingExpectedOutput),
            Some(e) => {
                let passed = outputs_match(e.as_slice(), actual);
                Ok(Verdict { passed, expected_stdout: e })
            },
        },
    }
}

/// The points earned: `max_points` when the test passed, else 0.
pub fn awarded_points(passed: bool, max_points: i64) -> (r: i64)
    ensures
        r == award(passed, max_points as int),
{
    if passed {
        max_points
    } else {
        0
    }
}

} // verus!
