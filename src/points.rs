use vstd::prelude::*;

verus! {

/// The sum of the first components of `rows`.
pub open spec fn sum_first(rows: Seq<(i64, i64)>) -> int
    decreases rows.len(),
{
    if rows.len() == 0 {
        0
    } else {
        sum_first(rows.drop_last()) + rows.last().0
    }
}

/// The sum of the second components of `rows`.
pub open spec fn sum_second(rows: Seq<(i64, i64)>) -> int
    decreases rows.len(),
{
    if rows.len() == 0 {
        0
    } else {
        sum_second(rows.drop_last()) + rows.last().1
    }
}

/// The points a student may earn and the points earned so far.
pub struct Points {
    maximum: i64,
    achieved: i64,
}

impl Points {
    pub closed spec fn spec_maximum(&self) -> i64 {
        self.maximum
    }

    pub closed spec fn spec_achieved(&self) -> i64 {
        self.achieved
    }

    #[must_use]
    pub fn new(maximum: i64, achieved: i64) -> (r: Points)
        ensures
            r.spec_maximum() == maximum,
            r.spec_achieved() == achieved,
    {
        Points { maximum, achieved }
    }

    /// The totals over `(test points, earned points)` rows: the maximum is
    /// the sum of the tests' points, the achieved the sum of the points
    /// earned. `None` where a running total leaves the range of `i64`.
    pub fn tally(rows: &Vec<(i64, i64)>) -> (r: Option<Points>)
        ensures
            r is Some <==> forall|k: int|
                0 <= k <= rows@.len() ==> i64::MIN <= #[trigger] sum_first(rows@.subrange(0, k))
                    <= i64::MAX && i64::MIN <= sum_second(rows@.subrange(0, k)) <= i64::MAX,
            r is Some ==> r->Some_0.spec_maximum() == sum_first(rows@) && r->Some_0.spec_achieved()
                == sum_second(rows@),
    {
        let mut maximum: i64 = 0;
        let mut achieved: i64 = 0;
        let mut i: usize = 0;
        assert(rows@.subrange(0, 0) =~= Seq::<(i64, i64)>::empty());
        while i < rows.len()
            invariant
                i <= rows@.len(),
                maximum == sum_first(rows@.subrange(0, i as int)),
                achieved == sum_second(rows@.subrange(0, i as int)),
                forall|k: int|
                    0 <= k <= i ==> i64::MIN <= #[trigger] sum_first(rows@.subrange(0, k)) <= i64::MAX
                        && i64::MIN <= sum_second(rows@.subrange(0, k)) <= i64::MAX,
            decreases rows@.len() - i,
        {
            let (t, e) = rows[i];
            assert(rows@.subrange(0, i + 1).drop_last() =~= rows@.subrange(0, i as int));
            let m = maximum.checked_add(t);
            let a = achieved.checked_add(e);
            match (m, a) {
                (Some(m), Some(a)) => {
                    maximum = m;
                    achieved = a;
                },
                _ => {
                    let ghost next = rows@.subrange(0, i + 1);
                    assert(sum_first(next) == maximum + t);
                    assert(sum_second(next) == achieved + e);
                    assert(!(i64::MIN <= sum_first(next) <= i64::MAX && i64::MIN <= sum_second(next)
                        <= i64::MAX));
                    return None;
                },
            }
            i = i + 1;
        }
        assert(rows@.subrange(0, rows@.len() as int) =~= rows@);
        Some(Points { maximum, achieved })
    }

    #[must_use]
    pub fn maximum(&self) -> (r: i64)
        ensures
            r == self.spec_maximum(),
    {
        self.maximum
    }

    #[must_use]
    pub fn achieved(&self) -> (r: i64)
        ensures
            r == self.spec_achieved(),
    {
        self.achieved
    }
}

} // verus!
