use evaltor::Points;

#[test]
fn points_keep_both_values() {
    let p = Points::new(10, 4);
    assert_eq!(p.maximum(), 10);
    assert_eq!(p.achieved(), 4);
}

#[test]
fn tally_sums_both_columns() {
    let p = Points::tally(&vec![(3, 3), (2, 0), (5, 5)]).unwrap();
    assert_eq!(p.maximum(), 10);
    assert_eq!(p.achieved(), 8);
}

#[test]
fn tally_of_nothing_is_zero() {
    let p = Points::tally(&Vec::new()).unwrap();
    assert_eq!(p.maximum(), 0);
    assert_eq!(p.achieved(), 0);
}

#[test]
fn tally_refuses_overflow() {
    assert!(Points::tally(&vec![(i64::MAX, 0), (1, 0)]).is_none());
    assert!(Points::tally(&vec![(0, i64::MIN), (0, -1)]).is_none());
    assert!(Points::tally(&vec![(i64::MAX, 0), (1, 0), (-1, 0)]).is_none());
}
