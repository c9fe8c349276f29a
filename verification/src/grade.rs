//! The grading session's aggregation: points possible, points earned, and
//! overall success, folded over the ordered test list.

use vstd::prelude::*;
use crate::config::TestCase;

verus! {

/// The point value one test contributes: its `points` field, or zero when
/// the field is absent.
pub open spec fn points_of(test: TestCase) -> int {
    match test.points {
        Some(p) => p as int,
        None => 0,
    }
}

/// The sum of every present `points` field: the score's denominator.
pub open spec fn sum_points(tests: Seq<TestCase>) -> int
    decreases tests.len(),
{
    if tests.len() == 0 {
        0
    } else {
        sum_points(tests.drop_last()) + points_of(tests.last())
    }
}

/// The points earned: the sum of the `points` fields of exactly the tests
/// that passed.
pub open spec fn earned_points(tests: Seq<TestCase>, passed: Seq<bool>) -> int
    recommends
        passed.len() == tests.len(),
    decreases tests.len(),
{
    if tests.len() == 0 {
        0
    } else {
        earned_points(tests.drop_last(), passed.drop_last()) + if passed.last() {
            points_of(tests.last())
        } else {
            0
        }
    }
}

/// Whether every test passed.
pub open spec fn all_of(passed: Seq<bool>) -> bool {
    forall|i: int| 0 <= i < passed.len() ==> passed[i]
}

/// The final report of one grading session.
#[derive(Clone, Copy, Debug)]
pub struct GradingReport {
    pub points_earned: u64,
    pub points_possible: u64,
    pub all_passed: bool,
}

proof fn lemma_sum_points_nonneg(tests: Seq<TestCase>)
    ensures
        sum_points(tests) >= 0,
    decreases tests.len(),
{
    if tests.len() > 0 {
        lemma_sum_points_nonneg(tests.drop_last());
    }
}

proof fn lemma_sum_points_prefix(tests: Seq<TestCase>, i: int)
    requires
        0 <= i <= tests.len(),
    ensures
        sum_points(tests.subrange(0, i)) <= sum_points(tests),
    decreases tests.len() - i,
{
    if i == tests.len() {
        assert(tests.subrange(0, i) =~= tests);
    } else {
        lemma_sum_points_prefix(tests, i + 1);
        assert(tests.subrange(0, i + 1).drop_last() =~= tests.subrange(0, i));
        assert(tests.subrange(0, i + 1).last() == tests[i]);
    }
}

/// The points earned never exceed the points possible, and neither is
/// negative.
pub proof fn lemma_earned_at_most_possible(tests: Seq<TestCase>, passed: Seq<bool>)
    requires
        passed.len() == tests.len(),
    ensures
        0 <= earned_points(tests, passed),
        earned_points(tests, passed) <= sum_points(tests),
    decreases tests.len(),
{
    if tests.len() > 0 {
        lemma_earned_at_most_possible(tests.drop_last(), passed.drop_last());
    }
}

/// Folds the outcomes of one session into the final report.
///
/// `passed[i]` says whether test `i` reached a passing terminal state; a
/// test with no `points` field still gates `all_passed` but contributes
/// nothing to either total. Later outcomes never reset `all_passed`.
pub fn grade(tests: &Vec<TestCase>, passed: &Vec<bool>) -> (r: GradingReport)
    requires
        passed@.len() == tests@.len(),
        sum_points(tests@) <= u64::MAX,
    ensures
        r.points_possible == sum_points(tests@),
        r.points_earned == earned_points(tests@, passed@),
        r.all_passed == all_of(passed@),
{
    let n: usize = tests.len();
    let mut points_possible: u64 = 0;
    let mut i: usize = 0;
    while i < n
        invariant
            n == tests@.len(),
            i <= n,
            sum_points(tests@) <= u64::MAX,
            points_possible == sum_points(tests@.subrange(0, i as int)),
        decreases n - i,
    {
        proof {
            lemma_sum_points_prefix(tests@, i + 1);
            lemma_sum_points_nonneg(tests@.subrange(0, i as int));
            assert(tests@.subrange(0, i + 1).drop_last() =~= tests@.subrange(0, i as int));
            assert(tests@.subrange(0, i + 1).last() == tests@[i as int]);
        }
        match tests[i].points {
            Some(p) => {
                points_possible = points_possible + p as u64;
            },
            None => {},
        }
        i = i + 1;
    }
    proof {
        assert(tests@.subrange(0, n as int) =~= tests@);
    }

    let mut points_earned: u64 = 0;
    let mut all_passed = true;
    let mut j: usize = 0;
    while j < n
        invariant
            n == tests@.len(),
            n == passed@.len(),
            j <= n,
            sum_points(tests@) <= u64::MAX,
            points_possible == sum_points(tests@),
            points_earned == earned_points(tests@.subrange(0, j as int), passed@.subrange(0, j as int)),
            all_passed == all_of(passed@.subrange(0, j as int)),
        decreases n - j,
    {
        proof {
            lemma_earned_at_most_possible(
                tests@.subrange(0, j + 1),
                passed@.subrange(0, j + 1),
            );
            lemma_sum_points_prefix(tests@, j + 1);
            assert(tests@.subrange(0, j + 1).drop_last() =~= tests@.subrange(0, j as int));
            assert(passed@.subrange(0, j + 1).drop_last() =~= passed@.subrange(0, j as int));
            assert(tests@.subrange(0, j + 1).last() == tests@[j as int]);
            assert(passed@.subrange(0, j + 1).last() == passed@[j as int]);
        }
        if passed[j] {
            match tests[j].points {
                Some(p) => {
                    points_earned = points_earned + p as u64;
                },
                None => {},
            }
        } else {
            all_passed = false;
        }
        proof {
            assert(all_of(passed@.subrange(0, j + 1)) == (all_of(passed@.subrange(0, j as int))
                && passed@[j as int])) by {
                if all_of(passed@.subrange(0, j as int)) && passed@[j as int] {
                    assert forall|k: int| 0 <= k < j + 1 implies #[trigger] passed@.subrange(
                        0,
                        j + 1,
                    )[k] by {
                        if k < j {
                            assert(passed@.subrange(0, j + 1)[k] == passed@.subrange(
                                0,
                                j as int,
                            )[k]);
                        }
                    }
                } else if !passed@[j as int] {
                    assert(!passed@.subrange(0, j + 1)[j as int]);
                } else {
                    let k = choose|k: int| 0 <= k < j && !passed@.subrange(0, j as int)[k];
                    assert(!passed@.subrange(0, j + 1)[k]);
                }
            }
        }
        j = j + 1;
    }
    proof {
        assert(tests@.subrange(0, n as int) =~= tests@);
        assert(passed@.subrange(0, n as int) =~= passed@);
    }
    GradingReport { points_earned, points_possible, all_passed }
}

} // verus!
