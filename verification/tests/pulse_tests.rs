use robot_core::pulse::{direction_to_pulse, speed_to_pulse};

#[test]
fn dead_zone_maps_to_neutral() {
    for speed in -7..=7i64 {
        assert_eq!(speed_to_pulse(speed, false), 1450);
        assert_eq!(speed_to_pulse(speed, true), 1450);
    }
}

#[test]
fn out_of_range_speed_clamps_to_boundary() {
    for turbo in [false, true] {
        assert_eq!(speed_to_pulse(101, turbo), speed_to_pulse(100, turbo));
        assert_eq!(speed_to_pulse(1000, turbo), speed_to_pulse(100, turbo));
        assert_eq!(speed_to_pulse(i64::MAX, turbo), speed_to_pulse(100, turbo));
        assert_eq!(speed_to_pulse(-101, turbo), speed_to_pulse(-100, turbo));
        assert_eq!(speed_to_pulse(-1000, turbo), speed_to_pulse(-100, turbo));
        assert_eq!(speed_to_pulse(i64::MIN, turbo), speed_to_pulse(-100, turbo));
    }
}

#[test]
fn speed_formula_exact_values() {
    assert_eq!(speed_to_pulse(8, false), 1458);
    assert_eq!(speed_to_pulse(50, false), 1797);
    assert_eq!(speed_to_pulse(100, false), 2200);
    assert_eq!(speed_to_pulse(-8, false), 1448);
    assert_eq!(speed_to_pulse(-50, false), 1358);
    assert_eq!(speed_to_pulse(-100, false), 1250);
}

#[test]
fn turbo_adds_exact_offset_on_forward_branch() {
    for speed in 8..=100i64 {
        let plain = speed_to_pulse(speed, false);
        let boosted = speed_to_pulse(speed, true);
        assert_eq!(boosted, plain + 100);
    }
    assert_eq!(speed_to_pulse(100, true), 2300);
}

#[test]
fn turbo_widens_reverse_branch_by_offset() {
    for speed in -100..=-8i64 {
        let plain = speed_to_pulse(speed, false);
        let boosted = speed_to_pulse(speed, true);
        assert_eq!(boosted, plain - 100);
    }
    assert_eq!(speed_to_pulse(-100, true), 1150);
}

#[test]
fn speed_to_pulse_monotone_over_domain() {
    for turbo in [false, true] {
        for speed in -100..100i64 {
            assert!(speed_to_pulse(speed, turbo) <= speed_to_pulse(speed + 1, turbo));
        }
    }
}

#[test]
fn direction_calibration_points() {
    assert_eq!(direction_to_pulse(0), (728, 1780));
    assert_eq!(direction_to_pulse(-100), (1150, 1375));
    assert_eq!(direction_to_pulse(100), (305, 2185));
}

#[test]
fn direction_formula_exact_values() {
    assert_eq!(direction_to_pulse(50), (516, 1983));
    assert_eq!(direction_to_pulse(-50), (939, 1578));
}

#[test]
fn out_of_range_direction_clamps_to_boundary() {
    assert_eq!(direction_to_pulse(200), direction_to_pulse(100));
    assert_eq!(direction_to_pulse(i64::MAX), direction_to_pulse(100));
    assert_eq!(direction_to_pulse(-200), direction_to_pulse(-100));
    assert_eq!(direction_to_pulse(i64::MIN), direction_to_pulse(-100));
}

#[test]
fn pulses_stay_within_device_ranges() {
    for turbo in [false, true] {
        for speed in -100..=100i64 {
            let pulse = speed_to_pulse(speed, turbo);
            assert!((1150..=2300).contains(&pulse));
        }
    }
    for direction in -100..=100i64 {
        let (front, back) = direction_to_pulse(direction);
        assert!((305..=1150).contains(&front));
        assert!((1375..=2185).contains(&back));
    }
}

#[test]
fn direction_monotone_per_axle() {
    for direction in -100..100i64 {
        let (front_a, back_a) = direction_to_pulse(direction);
        let (front_b, back_b) = direction_to_pulse(direction + 1);
        assert!(front_b <= front_a);
        assert!(back_a <= back_b);
    }
}
