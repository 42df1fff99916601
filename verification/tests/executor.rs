use dir_purge::executor::{done_line, error_line, removed_line, DeletionOutcome, Elapsed};
use dir_purge::text::{push_decimal, push_padded_decimal};

#[test]
fn success_has_no_error_detail() {
    let outcome = DeletionOutcome::record(None, Elapsed::from_nanos(1_250_000_000));
    assert!(outcome.succeeded());
    assert_eq!(outcome.error_detail(), None);
    assert_eq!(outcome.elapsed().as_nanos(), 1_250_000_000);
}

#[test]
fn failure_keeps_its_detail_and_time() {
    let outcome = DeletionOutcome::record(
        Some("Permission denied (os error 13)".to_string()),
        Elapsed::from_nanos(42),
    );
    assert!(!outcome.succeeded());
    assert_eq!(outcome.error_detail(), Some("Permission denied (os error 13)"));
    assert_eq!(outcome.elapsed().as_nanos(), 42);
}

#[test]
fn failure_with_an_empty_detail_is_still_a_failure() {
    let outcome = DeletionOutcome::record(Some(String::new()), Elapsed::from_nanos(0));
    assert!(!outcome.succeeded());
    assert_eq!(outcome.error_detail(), Some(""));
}

#[test]
fn report_of_a_success() {
    let outcome = DeletionOutcome::record(None, Elapsed::from_nanos(1_500_000_000));
    assert_eq!(
        outcome.report("/srv/data"),
        vec![
            "Removed all files and folders from /srv/data".to_string(),
            "Done in 1.500000000s".to_string(),
        ]
    );
}

#[test]
fn report_of_a_failure() {
    let outcome = DeletionOutcome::record(
        Some("No such file or directory (os error 2)".to_string()),
        Elapsed::from_nanos(73_004),
    );
    assert_eq!(
        outcome.report("/srv/data"),
        vec![
            "Error: No such file or directory (os error 2)".to_string(),
            "Done in 0.000073004s".to_string(),
        ]
    );
}

#[test]
fn report_lines_one_by_one() {
    assert_eq!(removed_line("/a b/c"), "Removed all files and folders from /a b/c");
    assert_eq!(error_line("disk on fire"), "Error: disk on fire");
    assert_eq!(done_line(Elapsed::from_nanos(0)), "Done in 0.000000000s");
    assert_eq!(done_line(Elapsed::from_nanos(1)), "Done in 0.000000001s");
    assert_eq!(done_line(Elapsed::from_nanos(999_999_999)), "Done in 0.999999999s");
    assert_eq!(done_line(Elapsed::from_nanos(1_000_000_000)), "Done in 1.000000000s");
    assert_eq!(done_line(Elapsed::from_nanos(12_345_678_901_234)), "Done in 12345.678901234s");
    assert_eq!(
        done_line(Elapsed::from_nanos(u128::MAX)),
        "Done in 340282366920938463463374607431.768211455s"
    );
}

#[test]
fn elapsed_splits_into_seconds_and_nanoseconds() {
    let elapsed = Elapsed::from_nanos(3_000_000_007);
    assert_eq!(elapsed.as_nanos(), 3_000_000_007);
    assert_eq!(elapsed.whole_seconds(), 3);
    assert_eq!(elapsed.subsecond_nanos(), 7);
    let elapsed = Elapsed::from_nanos(999_999_999);
    assert_eq!(elapsed.whole_seconds(), 0);
    assert_eq!(elapsed.subsecond_nanos(), 999_999_999);
    assert_eq!(Elapsed::from_nanos(5), Elapsed::from_nanos(5));
    assert_ne!(Elapsed::from_nanos(5), Elapsed::from_nanos(6));
}

#[test]
fn decimal_has_no_leading_zeros() {
    let mut text = String::from("n=");
    push_decimal(&mut text, 0);
    assert_eq!(text, "n=0");
    push_decimal(&mut text, 7);
    assert_eq!(text, "n=07");
    let mut text = String::new();
    push_decimal(&mut text, 10);
    assert_eq!(text, "10");
    let mut text = String::new();
    push_decimal(&mut text, 9_076_543_210);
    assert_eq!(text, "9076543210");
    let mut text = String::new();
    push_decimal(&mut text, u128::MAX);
    assert_eq!(text, "340282366920938463463374607431768211455");
}

#[test]
fn padded_decimal_keeps_the_lowest_digits() {
    let mut text = String::new();
    push_padded_decimal(&mut text, 42, 9);
    assert_eq!(text, "000000042");
    let mut text = String::new();
    push_padded_decimal(&mut text, 0, 3);
    assert_eq!(text, "000");
    let mut text = String::new();
    push_padded_decimal(&mut text, 123_456, 3);
    assert_eq!(text, "456");
    let mut text = String::from("x");
    push_padded_decimal(&mut text, 99, 0);
    assert_eq!(text, "x");
}
