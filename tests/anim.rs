use sgui2::closerize;

#[test]
fn closerize_moves_a_quarter_when_far() {
    assert_eq!(closerize(0, 100), 25);
    assert_eq!(closerize(100, 0), 75);
    assert_eq!(closerize(-100, 0), -75);
}

#[test]
fn closerize_moves_half_when_near() {
    assert_eq!(closerize(3, 0), 2);
    assert_eq!(closerize(0, 4), 2);
    assert_eq!(closerize(-4, 0), -2);
}

#[test]
fn closerize_snaps_within_two() {
    assert_eq!(closerize(2, 0), 0);
    assert_eq!(closerize(-2, 0), 0);
    assert_eq!(closerize(9, 10), 10);
}

#[test]
fn closerize_rounds_toward_zero() {
    // distance 5: a quarter of it is 1
    assert_eq!(closerize(-5, 0), -4);
    assert_eq!(closerize(5, 0), 4);
    assert_eq!(closerize(0, 7), 1);
}

#[test]
fn closerize_at_target_is_noop() {
    assert_eq!(closerize(7, 7), 7);
    assert_eq!(closerize(i32::MIN, i32::MIN), i32::MIN);
}

#[test]
fn closerize_extremes_do_not_overflow() {
    let r = closerize(i32::MIN, i32::MAX);
    assert!(r > i32::MIN && r < i32::MAX);
    let r = closerize(i32::MAX, i32::MIN);
    assert!(r > i32::MIN && r < i32::MAX);
}

#[test]
fn closerize_converges_without_overshoot() {
    let target = -1000;
    let mut v = 1000;
    let mut steps = 0;
    while v != target {
        let next = closerize(v, target);
        assert!(next < v && next >= target);
        v = next;
        steps += 1;
        assert!(steps <= 2000);
    }
    assert!(steps < 40);
    assert_eq!(closerize(v, target), target);
}
