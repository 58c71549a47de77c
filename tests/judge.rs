use evaltor::judge::{awarded_points, judge, outputs_match, trim_ascii_bounds, JudgeError};
use evaltor::TestType;

#[test]
fn trailing_newline_is_ignored() {
    assert!(outputs_match(b"4", b"4\n"));
    assert!(outputs_match(b"4\n", b"4"));
}

#[test]
fn different_output_fails() {
    assert!(!outputs_match(b"5", b"4 "));
}

#[test]
fn empty_outputs_match() {
    assert!(outputs_match(b"", b""));
    assert!(outputs_match(b" \n\t", b""));
}

#[test]
fn inner_whitespace_counts() {
    assert!(!outputs_match(b"1 2", b"1  2"));
    assert!(outputs_match(b"\r\n 1 2 \x0c", b"1 2"));
}

#[test]
fn vertical_tab_is_not_trimmed() {
    assert!(!outputs_match(b"4", b"4\x0b"));
}

#[test]
fn comparison_is_over_raw_bytes() {
    assert!(outputs_match(&[0xff, 0x00, 0xfe], &[b' ', 0xff, 0x00, 0xfe, b'\n']));
    assert!(!outputs_match(&[0xff, 0x00], &[0xff, 0x01]));
}

#[test]
fn trim_bounds_exact() {
    assert_eq!(trim_ascii_bounds(b"  ab c\n"), (2, 6));
    assert_eq!(trim_ascii_bounds(b"   "), (3, 3));
    assert_eq!(trim_ascii_bounds(b""), (0, 0));
    assert_eq!(trim_ascii_bounds(b"x"), (0, 1));
}

#[test]
fn judge_passes_matching_output() {
    let v = judge(TestType::Compare, b"YES\n", Some(b"YES".to_vec())).ok().unwrap();
    assert!(v.passed);
    assert_eq!(v.expected_stdout, b"YES".to_vec());
}

#[test]
fn judge_fails_other_output() {
    let v = judge(TestType::Compare, b"NO\n", Some(b"YES\n".to_vec())).ok().unwrap();
    assert!(!v.passed);
    assert_eq!(v.expected_stdout, b"YES\n".to_vec());
}

#[test]
fn judge_without_fixture_is_an_error() {
    let r = judge(TestType::Compare, b"YES", None);
    assert_eq!(r.err(), Some(JudgeError::MissingExpectedOutput));
}

#[test]
fn points_follow_the_verdict() {
    assert_eq!(awarded_points(true, 7), 7);
    assert_eq!(awarded_points(false, 7), 0);
    assert_eq!(awarded_points(true, 0), 0);
}
