use pure_nodes::discount::compute;

#[test]
fn compute_of_five_is_five() {
    assert_eq!(compute(5), 5);
}

#[test]
fn compute_of_seven_is_seven() {
    assert_eq!(compute(7), 7);
}

#[test]
fn compute_of_minus_three_keeps_the_sign_of_the_remainder() {
    // -3 % 5 == -3 under truncating division, so the discount is 2.
    assert_eq!(compute(-3), 2);
}

#[test]
fn compute_at_the_edges_of_i32() {
    assert_eq!(compute(i32::MIN), 2);
    assert_eq!(compute(i32::MAX), 7);
    assert_eq!(compute(-1), 4);
    assert_eq!(compute(0), 5);
}

#[test]
fn compute_matches_the_native_remainder() {
    let samples = [
        i32::MIN,
        i32::MIN + 1,
        -1_000_001,
        -10,
        -9,
        -6,
        -5,
        -4,
        -2,
        -1,
        0,
        1,
        4,
        6,
        9,
        10,
        123_456_789,
        i32::MAX - 1,
        i32::MAX,
    ];
    for q in samples {
        assert_eq!(compute(q), q % 5 + 5, "quantity {}", q);
    }
    for q in -50..=50 {
        assert_eq!(compute(q), q % 5 + 5, "quantity {}", q);
    }
}

#[test]
fn compute_stays_between_one_and_nine() {
    for q in -1000..=1000 {
        let r = compute(q);
        assert!((1..=9).contains(&r), "quantity {} gave {}", q, r);
    }
}
