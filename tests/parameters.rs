use flight_computer::clk_out::Multiplier;
use flight_computer::parameters::Parameter;

#[test]
fn saturating_next_steps_and_stops_at_max() {
    let mut p = Parameter::new_saturating(0, 10, 3, 6);
    p.next();
    assert_eq!(p.value(), 9);
    p.next();
    assert_eq!(p.value(), 10);
    p.next();
    assert_eq!(p.value(), 10);
}

#[test]
fn saturating_prev_stops_at_min() {
    let mut p = Parameter::new_saturating(-5, 5, 2, -4);
    p.prev();
    assert_eq!(p.value(), -5);
    p.prev();
    assert_eq!(p.value(), -5);
}

#[test]
fn rollover_next_at_max_goes_to_min() {
    let mut p = Parameter::new_rollover(1, 8, 1, 8);
    p.next();
    assert_eq!(p.value(), 1);
}

#[test]
fn rollover_prev_at_min_goes_to_max() {
    let mut p = Parameter::new_rollover(1, 8, 1, 1);
    p.prev();
    assert_eq!(p.value(), 8);
}

#[test]
fn rollover_overshoot_goes_to_min() {
    let mut p = Parameter::new_rollover(0, 10, 4, 8);
    p.next();
    assert_eq!(p.value(), 0);
    assert!(p.rolls_over());
}

#[test]
fn mixed_steps_stay_in_range() {
    let mut p = Parameter::new_rollover(-3, 3, 2, 0);
    let moves = [true, true, true, false, false, false, false, true, false, false];
    for up in moves {
        if up {
            p.next();
        } else {
            p.prev();
        }
        assert!(p.min() <= p.value() && p.value() <= p.max());
    }
}

#[test]
fn extreme_bounds_do_not_overflow() {
    let mut p = Parameter::new_saturating(i32::MIN, i32::MAX, i32::MAX, i32::MAX - 1);
    p.next();
    assert_eq!(p.value(), i32::MAX);
    let mut q = Parameter::new_saturating(i32::MIN, i32::MAX, i32::MAX, i32::MIN + 1);
    q.prev();
    assert_eq!(q.value(), i32::MIN);
    assert_eq!(q.step(), i32::MAX);
}

#[test]
fn ratio_scale_next_from_x1() {
    let mut m = Multiplier::x1;
    let mut seen = Vec::new();
    for _ in 0..9 {
        m = m.next();
        seen.push(m.as_ratio());
    }
    assert_eq!(
        seen,
        vec![(2, 0), (3, 0), (4, 0), (8, 0), (16, 0), (32, 0), (64, 0), (64, 0), (64, 0)]
    );
}

#[test]
fn ratio_scale_prev_from_x1() {
    let mut m = Multiplier::x1;
    let mut seen = Vec::new();
    for _ in 0..10 {
        m = m.prev();
        seen.push(m.as_ratio());
    }
    assert_eq!(
        seen,
        vec![
            (0, 2),
            (0, 3),
            (0, 4),
            (0, 5),
            (0, 6),
            (0, 7),
            (0, 8),
            (0, 16),
            (0, 16),
            (0, 16)
        ]
    );
}
