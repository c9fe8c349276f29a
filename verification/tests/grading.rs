use autograder::config::{Comparison, TestCase};
use autograder::grade::grade;

fn scored_test(points: Option<u16>) -> TestCase {
    TestCase {
        name: "scored".to_string(),
        setup: None,
        run: "./grader".to_string(),
        input: None,
        output: None,
        comparison: Some(Comparison::Exact),
        timeout: None,
        points,
    }
}

#[test]
fn scoring_sums_only_passing_tests() {
    let tests = vec![
        scored_test(Some(10)),
        scored_test(Some(5)),
        scored_test(None),
        scored_test(Some(20)),
    ];
    let passed = vec![true, false, true, true];
    let report = grade(&tests, &passed);
    assert_eq!(report.points_earned, 30);
    assert_eq!(report.points_possible, 35);
    assert!(!report.all_passed);
}

#[test]
fn all_passed_only_when_every_test_passes() {
    let tests = vec![scored_test(Some(1)), scored_test(None)];
    let report = grade(&tests, &vec![true, true]);
    assert_eq!(report.points_earned, 1);
    assert_eq!(report.points_possible, 1);
    assert!(report.all_passed);
}

#[test]
fn unscored_failure_still_clears_all_passed() {
    let tests = vec![scored_test(Some(3)), scored_test(None)];
    let report = grade(&tests, &vec![true, false]);
    assert_eq!(report.points_earned, 3);
    assert_eq!(report.points_possible, 3);
    assert!(!report.all_passed);
}

#[test]
fn empty_session_reports_zero_of_zero() {
    let report = grade(&Vec::new(), &Vec::new());
    assert_eq!(report.points_earned, 0);
    assert_eq!(report.points_possible, 0);
    assert!(report.all_passed);
}
