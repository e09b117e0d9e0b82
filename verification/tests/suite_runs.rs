use simuforge::error::SimuForgeError;
use simuforge::report::ReportStatus;
use simuforge::runner::join;
use simuforge::suite::{run_suite, SuiteSummary};
use std::cell::RefCell;

fn outcome(code: u8) -> Result<ReportStatus, SimuForgeError> {
    match code {
        0 => Ok(ReportStatus::Passed),
        1 => Ok(ReportStatus::Failed),
        2 => Err(SimuForgeError::Io("missing".to_string())),
        3 => Ok(ReportStatus::Pending),
        _ => Ok(ReportStatus::Error),
    }
}

fn suite(codes: &[u8], fail_fast: bool) -> (SuiteSummary, Vec<usize>) {
    let seen = RefCell::new(Vec::new());
    let summary = run_suite(codes.len(), fail_fast, &|i: usize| {
        seen.borrow_mut().push(i);
        outcome(codes[i])
    });
    (summary, seen.into_inner())
}

#[test]
fn a_suite_counts_what_its_experiments_come_to() {
    let (summary, seen) = suite(&[0, 1, 2, 0, 3, 4, 1, 0], false);
    assert_eq!(seen, vec![0, 1, 2, 3, 4, 5, 6, 7]);
    assert_eq!(summary, SuiteSummary { passed: 3, failed: 2, errors: 1, attempted: 8 });
    assert!(!summary.succeeded());
}

#[test]
fn a_suite_of_passes_succeeds() {
    let (summary, _) = suite(&[0, 0, 0], true);
    assert_eq!(summary, SuiteSummary { passed: 3, failed: 0, errors: 0, attempted: 3 });
    assert!(summary.succeeded());
    let (unknown, _) = suite(&[3, 4], true);
    assert_eq!(unknown, SuiteSummary { passed: 0, failed: 0, errors: 0, attempted: 2 });
    assert!(unknown.succeeded());
    let (empty, seen) = suite(&[], false);
    assert_eq!(empty, SuiteSummary::new());
    assert!(seen.is_empty());
    assert!(empty.succeeded());
}

#[test]
fn a_suite_that_fails_fast_stops_at_the_first_failure() {
    let (summary, seen) = suite(&[0, 0, 1, 0, 2], true);
    assert_eq!(seen, vec![0, 1, 2]);
    assert_eq!(summary, SuiteSummary { passed: 2, failed: 1, errors: 0, attempted: 3 });
    assert!(!summary.succeeded());

    let (summary, seen) = suite(&[2, 0, 0], true);
    assert_eq!(seen, vec![0]);
    assert_eq!(summary, SuiteSummary { passed: 0, failed: 0, errors: 1, attempted: 1 });
}

#[test]
fn an_error_does_not_keep_the_others_from_running() {
    let (summary, seen) = suite(&[2, 2, 0], false);
    assert_eq!(seen, vec![0, 1, 2]);
    assert_eq!(summary, SuiteSummary { passed: 1, failed: 0, errors: 2, attempted: 3 });
}

#[test]
fn one_outcome_is_counted_at_a_time() {
    let mut summary = SuiteSummary::new();
    assert!(!summary.record(&outcome(0)));
    assert!(summary.record(&outcome(1)));
    assert!(summary.record(&outcome(2)));
    assert!(!summary.record(&outcome(3)));
    assert_eq!(summary, SuiteSummary { passed: 1, failed: 1, errors: 1, attempted: 4 });
}

#[test]
fn texts_are_joined_with_the_separator_between_them() {
    let parts = vec!["a".to_string(), "".to_string(), "bc".to_string()];
    assert_eq!(join(&parts, ", "), "a, , bc");
    assert_eq!(join(&parts[..1].to_vec(), ", "), "a");
    assert_eq!(join(&Vec::new(), ", "), "");
    assert_eq!(join(&parts, ""), "abc");
}
