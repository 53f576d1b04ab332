//! The pulse mapper: pure, deterministic conversion from signed percentage
//! command values to PWM pulse widths for the motor and the two steering
//! axles. All arithmetic is exact integer arithmetic with round-to-nearest
//! division; the calibration constants are named so that a recalibrated
//! vehicle changes one table, not the formulas.

use vstd::prelude::*;

verus! {

use vstd::arithmetic::div_mod::lemma_div_is_ordered;
use vstd::arithmetic::mul::lemma_mul_inequality;

/// The pulse width that keeps the motor at rest.
pub const NEUTRAL_PULSE: u16 = 1450;

/// Speed inputs with `|speed| <= DEAD_ZONE` map to the neutral pulse.
pub const DEAD_ZONE: i64 = 7;

/// Command values are percentages clamped to `[-MAX_PERCENT, MAX_PERCENT]`.
pub const MAX_PERCENT: i64 = 100;

/// Width of the live speed band on either side: `MAX_PERCENT - DEAD_ZONE`.
pub const SPEED_SPAN: u64 = 93;

/// Full pulse swing below neutral, reached at speed `-MAX_PERCENT`.
pub const REVERSE_RANGE: u64 = 200;

/// Full pulse swing above neutral, reached at speed `MAX_PERCENT`.
pub const FORWARD_RANGE: u64 = 750;

/// Extra pulse width applied on either live branch while turbo is on.
pub const TURBO_OFFSET: u16 = 100;

/// Front-axle pulse at full-left steering (`direction = -MAX_PERCENT`).
pub const FRONT_LEFT_PULSE: u16 = 1150;

/// Front-axle pulse at full-right steering (`direction = MAX_PERCENT`).
pub const FRONT_RIGHT_PULSE: u16 = 305;

/// Back-axle pulse at full-left steering.
pub const BACK_LEFT_PULSE: u16 = 1375;

/// Back-axle pulse at full-right steering.
pub const BACK_RIGHT_PULSE: u16 = 2185;

/// Width of the direction domain: `2 * MAX_PERCENT`.
pub const BLEND_SPAN: u64 = 200;

/// A percentage clamped into `[-MAX_PERCENT, MAX_PERCENT]`.
pub open spec fn clamp_percent_spec(v: int) -> int {
    if v < -(MAX_PERCENT as int) {
        -(MAX_PERCENT as int)
    } else if v > MAX_PERCENT as int {
        MAX_PERCENT as int
    } else {
        v
    }
}

/// `num / den` rounded to the nearest integer, halves rounded up.
pub open spec fn round_div(num: int, den: int) -> int
    recommends
        0 <= num,
        0 < den,
{
    (2 * num + den) / (2 * den)
}

/// Pulse reduction below neutral for a clamped speed `x < -DEAD_ZONE`.
pub open spec fn reverse_drop(x: int) -> int {
    round_div((-(DEAD_ZONE as int) - x) * (REVERSE_RANGE as int), SPEED_SPAN as int)
}

/// Pulse increase above neutral for a clamped speed `x > DEAD_ZONE`.
pub open spec fn forward_rise(x: int) -> int {
    round_div((x - DEAD_ZONE as int) * (FORWARD_RANGE as int), SPEED_SPAN as int)
}

/// The motor pulse for a speed percentage and the session turbo flag:
/// neutral inside the dead zone, linear interpolation on either live
/// branch, and the turbo offset widening both live branches (saturating
/// at the pulse type's maximum, which the forward range never reaches).
pub open spec fn spec_speed_to_pulse(speed: int, turbo: bool) -> int {
    let x = clamp_percent_spec(speed);
    if -(DEAD_ZONE as int) <= x && x <= DEAD_ZONE as int {
        NEUTRAL_PULSE as int
    } else if x < -(DEAD_ZONE as int) {
        let base = NEUTRAL_PULSE as int - reverse_drop(x);
        if turbo {
            base - TURBO_OFFSET as int
        } else {
            base
        }
    } else {
        let base = NEUTRAL_PULSE as int + forward_rise(x);
        if turbo {
            if base + TURBO_OFFSET as int > u16::MAX as int {
                u16::MAX as int
            } else {
                base + TURBO_OFFSET as int
            }
        } else {
            base
        }
    }
}

fn clamp_percent(v: i64) -> (c: i64)
    ensures
        c == clamp_percent_spec(v as int),
{
    if v < -MAX_PERCENT {
        -MAX_PERCENT
    } else if v > MAX_PERCENT {
        MAX_PERCENT
    } else {
        v
    }
}

proof fn lemma_round_div_ordered(n1: int, n2: int, den: int)
    requires
        n1 <= n2,
        0 < den,
    ensures
        round_div(n1, den) <= round_div(n2, den),
{
    lemma_div_is_ordered(2 * n1 + den, 2 * n2 + den, 2 * den);
}

proof fn lemma_reverse_drop_bounds(x: int)
    requires
        -(MAX_PERCENT as int) <= x,
        x < -(DEAD_ZONE as int),
    ensures
        2 <= reverse_drop(x),
        reverse_drop(x) <= REVERSE_RANGE as int,
{
    lemma_round_div_ordered(REVERSE_RANGE as int, (-(DEAD_ZONE as int) - x) * (REVERSE_RANGE as int), SPEED_SPAN as int);
    lemma_round_div_ordered((-(DEAD_ZONE as int) - x) * (REVERSE_RANGE as int), (SPEED_SPAN * REVERSE_RANGE) as int, SPEED_SPAN as int);
    assert(round_div(REVERSE_RANGE as int, SPEED_SPAN as int) == 2);
    assert(round_div((SPEED_SPAN * REVERSE_RANGE) as int, SPEED_SPAN as int) == REVERSE_RANGE as int);
}

proof fn lemma_forward_rise_bounds(x: int)
    requires
        (DEAD_ZONE as int) < x,
        x <= MAX_PERCENT as int,
    ensures
        8 <= forward_rise(x),
        forward_rise(x) <= FORWARD_RANGE as int,
{
    lemma_round_div_ordered(FORWARD_RANGE as int, (x - DEAD_ZONE as int) * (FORWARD_RANGE as int), SPEED_SPAN as int);
    lemma_round_div_ordered((x - DEAD_ZONE as int) * (FORWARD_RANGE as int), (SPEED_SPAN * FORWARD_RANGE) as int, SPEED_SPAN as int);
    assert(round_div(FORWARD_RANGE as int, SPEED_SPAN as int) == 8);
    assert(round_div((SPEED_SPAN * FORWARD_RANGE) as int, SPEED_SPAN as int) == FORWARD_RANGE as int);
}

/// Maps a speed percentage and the turbo flag to the motor pulse width.
/// Total over all of `i64`: out-of-range inputs are clamped first.
pub fn speed_to_pulse(speed: i64, turbo: bool) -> (pulse: u16)
    ensures
        pulse == spec_speed_to_pulse(speed as int, turbo),
{
    let x = clamp_percent(speed);
    if -DEAD_ZONE <= x && x <= DEAD_ZONE {
        NEUTRAL_PULSE
    } else if x < -DEAD_ZONE {
        let mag = (-DEAD_ZONE - x) as u64;
        let drop = (2 * mag * REVERSE_RANGE + SPEED_SPAN) / (2 * SPEED_SPAN);
        proof {
            assert(drop == reverse_drop(x as int));
            lemma_reverse_drop_bounds(x as int);
        }
        let base = NEUTRAL_PULSE - drop as u16;
        if turbo {
            base - TURBO_OFFSET
        } else {
            base
        }
    } else {
        let mag = (x - DEAD_ZONE) as u64;
        let rise = (2 * mag * FORWARD_RANGE + SPEED_SPAN) / (2 * SPEED_SPAN);
        proof {
            assert(rise == forward_rise(x as int));
            lemma_forward_rise_bounds(x as int);
        }
        let base = NEUTRAL_PULSE + rise as u16;
        if turbo {
            if base <= u16::MAX - TURBO_OFFSET {
                base + TURBO_OFFSET
            } else {
                u16::MAX
            }
        } else {
            base
        }
    }
}

/// Weighted blend of one axle's left and right extreme pulses, the weight
/// given by the clamped direction: full left at `-MAX_PERCENT`, full right
/// at `MAX_PERCENT`, rounded to the nearest pulse unit.
pub open spec fn axle_pulse(left: int, right: int, direction: int) -> int {
    let x = clamp_percent_spec(direction);
    round_div(left * (MAX_PERCENT as int - x) + right * (MAX_PERCENT as int + x), BLEND_SPAN as int)
}

/// The front-axle steering pulse for a direction percentage.
pub open spec fn spec_front_pulse(direction: int) -> int {
    axle_pulse(FRONT_LEFT_PULSE as int, FRONT_RIGHT_PULSE as int, direction)
}

/// The back-axle steering pulse for a direction percentage. The back axle
/// is calibrated independently of the front one, not mirrored.
pub open spec fn spec_back_pulse(direction: int) -> int {
    axle_pulse(BACK_LEFT_PULSE as int, BACK_RIGHT_PULSE as int, direction)
}

proof fn lemma_axle_pulse_bounds(left: int, right: int, direction: int)
    requires
        0 <= left <= u16::MAX as int,
        0 <= right <= u16::MAX as int,
    ensures
        0 <= axle_pulse(left, right, direction),
        axle_pulse(left, right, direction) <= if left >= right { left } else { right },
{
    let x = clamp_percent_spec(direction);
    let num = left * (MAX_PERCENT as int - x) + right * (MAX_PERCENT as int + x);
    let hi = if left >= right { left } else { right };
    assert(num <= hi * (BLEND_SPAN as int)) by (nonlinear_arith)
        requires
            -(MAX_PERCENT as int) <= x <= MAX_PERCENT as int,
            0 <= left,
            0 <= right,
            hi == if left >= right { left } else { right },
            num == left * (MAX_PERCENT as int - x) + right * (MAX_PERCENT as int + x),
        ;
    assert(0 <= num) by (nonlinear_arith)
        requires
            -(MAX_PERCENT as int) <= x <= MAX_PERCENT as int,
            0 <= left,
            0 <= right,
            num == left * (MAX_PERCENT as int - x) + right * (MAX_PERCENT as int + x),
        ;
    lemma_round_div_ordered(0, num, BLEND_SPAN as int);
    lemma_round_div_ordered(num, hi * (BLEND_SPAN as int), BLEND_SPAN as int);
    assert(round_div(0, BLEND_SPAN as int) == 0) by {
        vstd::arithmetic::div_mod::lemma_fundamental_div_mod_converse(
            BLEND_SPAN as int,
            2 * (BLEND_SPAN as int),
            0,
            BLEND_SPAN as int,
        );
    };
    assert(round_div(hi * (BLEND_SPAN as int), BLEND_SPAN as int) == hi) by {
        vstd::arithmetic::div_mod::lemma_fundamental_div_mod_converse(
            2 * (hi * (BLEND_SPAN as int)) + BLEND_SPAN as int,
            2 * (BLEND_SPAN as int),
            hi,
            BLEND_SPAN as int,
        );
    };
}

proof fn lemma_scaled_weight_bounds(p: int, w: int)
    requires
        0 <= p <= u16::MAX as int,
        0 <= w <= BLEND_SPAN as int,
    ensures
        0 <= p * w <= (u16::MAX as int) * (BLEND_SPAN as int),
{
    assert(0 <= p * w <= (u16::MAX as int) * (BLEND_SPAN as int)) by (nonlinear_arith)
        requires
            0 <= p <= u16::MAX as int,
            0 <= w <= BLEND_SPAN as int,
        ;
}

/// Maps a direction percentage to the `(front, back)` steering pulse pair.
/// Total over all of `i64`: out-of-range inputs are clamped first.
pub fn direction_to_pulse(direction: i64) -> (pulses: (u16, u16))
    ensures
        pulses.0 == spec_front_pulse(direction as int),
        pulses.1 == spec_back_pulse(direction as int),
{
    let x = clamp_percent(direction);
    let left_weight = (MAX_PERCENT - x) as u64;
    let right_weight = (MAX_PERCENT + x) as u64;
    proof {
        assert(left_weight <= BLEND_SPAN);
        assert(right_weight <= BLEND_SPAN);
        lemma_scaled_weight_bounds(FRONT_LEFT_PULSE as int, left_weight as int);
        lemma_scaled_weight_bounds(FRONT_RIGHT_PULSE as int, right_weight as int);
        lemma_scaled_weight_bounds(BACK_LEFT_PULSE as int, left_weight as int);
        lemma_scaled_weight_bounds(BACK_RIGHT_PULSE as int, right_weight as int);
    }
    let front_num = (FRONT_LEFT_PULSE as u64) * left_weight + (FRONT_RIGHT_PULSE as u64) * right_weight;
    let back_num = (BACK_LEFT_PULSE as u64) * left_weight + (BACK_RIGHT_PULSE as u64) * right_weight;
    let front = (2 * front_num + BLEND_SPAN) / (2 * BLEND_SPAN);
    let back = (2 * back_num + BLEND_SPAN) / (2 * BLEND_SPAN);
    proof {
        assert(front == spec_front_pulse(direction as int));
        assert(back == spec_back_pulse(direction as int));
        lemma_axle_pulse_bounds(FRONT_LEFT_PULSE as int, FRONT_RIGHT_PULSE as int, direction as int);
        lemma_axle_pulse_bounds(BACK_LEFT_PULSE as int, BACK_RIGHT_PULSE as int, direction as int);
    }
    (front as u16, back as u16)
}

/// Law: `speed_to_pulse` saturates outside the percentage domain — any
/// speed beyond `[-MAX_PERCENT, MAX_PERCENT]` maps to the same pulse as
/// the nearer boundary, for either turbo setting.
pub proof fn lemma_speed_out_of_range_clamps(speed: int, turbo: bool)
    ensures
        speed < -(MAX_PERCENT as int) ==> spec_speed_to_pulse(speed, turbo) == spec_speed_to_pulse(
            -(MAX_PERCENT as int),
            turbo,
        ),
        speed > MAX_PERCENT as int ==> spec_speed_to_pulse(speed, turbo) == spec_speed_to_pulse(
            MAX_PERCENT as int,
            turbo,
        ),
{
}

/// Law: every speed inside the dead zone maps to the neutral pulse,
/// whatever the turbo flag says.
pub proof fn lemma_dead_zone_neutral(speed: int, turbo: bool)
    requires
        -(DEAD_ZONE as int) <= speed,
        speed <= DEAD_ZONE as int,
    ensures
        spec_speed_to_pulse(speed, turbo) == NEUTRAL_PULSE as int,
{
}

proof fn lemma_reverse_drop_monotone(x1: int, x2: int)
    requires
        x1 <= x2,
    ensures
        reverse_drop(x2) <= reverse_drop(x1),
{
    lemma_mul_inequality(-(DEAD_ZONE as int) - x2, -(DEAD_ZONE as int) - x1, REVERSE_RANGE as int);
    lemma_round_div_ordered(
        (-(DEAD_ZONE as int) - x2) * (REVERSE_RANGE as int),
        (-(DEAD_ZONE as int) - x1) * (REVERSE_RANGE as int),
        SPEED_SPAN as int,
    );
}

proof fn lemma_forward_rise_monotone(x1: int, x2: int)
    requires
        x1 <= x2,
    ensures
        forward_rise(x1) <= forward_rise(x2),
{
    lemma_mul_inequality(x1 - DEAD_ZONE as int, x2 - DEAD_ZONE as int, FORWARD_RANGE as int);
    lemma_round_div_ordered(
        (x1 - DEAD_ZONE as int) * (FORWARD_RANGE as int),
        (x2 - DEAD_ZONE as int) * (FORWARD_RANGE as int),
        SPEED_SPAN as int,
    );
}

/// Law: for a fixed turbo setting, `speed_to_pulse` is monotonic
/// non-decreasing in the speed, over the whole input domain.
pub proof fn lemma_speed_to_pulse_monotone(s1: int, s2: int, turbo: bool)
    requires
        s1 <= s2,
    ensures
        spec_speed_to_pulse(s1, turbo) <= spec_speed_to_pulse(s2, turbo),
{
    let x1 = clamp_percent_spec(s1);
    let x2 = clamp_percent_spec(s2);
    if x1 < -(DEAD_ZONE as int) {
        lemma_reverse_drop_bounds(x1);
        if x2 < -(DEAD_ZONE as int) {
            lemma_reverse_drop_monotone(x1, x2);
        } else if x2 > DEAD_ZONE as int {
            lemma_forward_rise_bounds(x2);
        }
    } else if x1 <= DEAD_ZONE as int {
        if x2 > DEAD_ZONE as int {
            lemma_forward_rise_bounds(x2);
        }
    } else {
        lemma_forward_rise_monotone(x1, x2);
        lemma_forward_rise_bounds(x1);
        lemma_forward_rise_bounds(x2);
    }
}

/// Law: above the dead zone, turbo adds exactly `TURBO_OFFSET` to the
/// pulse, and the widened pulse still fits the pulse type — the
/// saturation guard never truncates a reachable value.
pub proof fn lemma_turbo_widens_forward_branch(speed: int)
    requires
        clamp_percent_spec(speed) > DEAD_ZONE as int,
    ensures
        spec_speed_to_pulse(speed, true) == spec_speed_to_pulse(speed, false) + TURBO_OFFSET as int,
        spec_speed_to_pulse(speed, true) <= u16::MAX as int,
{
    lemma_forward_rise_bounds(clamp_percent_spec(speed));
}

/// Law: each steering axle responds monotonically to the direction —
/// the front pulse never increases and the back pulse never decreases
/// as the direction moves from full left toward full right.
pub proof fn lemma_direction_to_pulse_monotone(d1: int, d2: int)
    requires
        d1 <= d2,
    ensures
        spec_front_pulse(d2) <= spec_front_pulse(d1),
        spec_back_pulse(d1) <= spec_back_pulse(d2),
{
    let x1 = clamp_percent_spec(d1);
    let x2 = clamp_percent_spec(d2);
    lemma_blend_num_ordered(FRONT_LEFT_PULSE as int, FRONT_RIGHT_PULSE as int, MAX_PERCENT as int, x1, x2);
    lemma_blend_num_ordered(BACK_LEFT_PULSE as int, BACK_RIGHT_PULSE as int, MAX_PERCENT as int, x1, x2);
    lemma_round_div_ordered(
        FRONT_LEFT_PULSE * (MAX_PERCENT as int - x2) + FRONT_RIGHT_PULSE * (MAX_PERCENT as int + x2),
        FRONT_LEFT_PULSE * (MAX_PERCENT as int - x1) + FRONT_RIGHT_PULSE * (MAX_PERCENT as int + x1),
        BLEND_SPAN as int,
    );
    lemma_round_div_ordered(
        BACK_LEFT_PULSE * (MAX_PERCENT as int - x1) + BACK_RIGHT_PULSE * (MAX_PERCENT as int + x1),
        BACK_LEFT_PULSE * (MAX_PERCENT as int - x2) + BACK_RIGHT_PULSE * (MAX_PERCENT as int + x2),
        BLEND_SPAN as int,
    );
}

proof fn lemma_blend_num_ordered(left: int, right: int, m: int, x1: int, x2: int)
    requires
        x1 <= x2,
    ensures
        right <= left ==> left * (m - x2) + right * (m + x2) <= left * (m - x1) + right * (m + x1),
        left <= right ==> left * (m - x1) + right * (m + x1) <= left * (m - x2) + right * (m + x2),
{
    assert(right <= left ==> left * (m - x2) + right * (m + x2) <= left * (m - x1) + right * (m
        + x1)) by (nonlinear_arith)
        requires
            x1 <= x2,
        ;
    assert(left <= right ==> left * (m - x1) + right * (m + x1) <= left * (m - x2) + right * (m
        + x2)) by (nonlinear_arith)
        requires
            x1 <= x2,
        ;
}

/// Law: the motor pulse never leaves the device's working band — from
/// full reverse with turbo up to full forward with turbo — so no command
/// can ask the controller for a pulse outside it.
pub proof fn lemma_speed_pulse_within_device_range(speed: int, turbo: bool)
    ensures
        1150 <= spec_speed_to_pulse(speed, turbo),
        spec_speed_to_pulse(speed, turbo) <= 2300,
{
    let x = clamp_percent_spec(speed);
    if x < -(DEAD_ZONE as int) {
        lemma_reverse_drop_bounds(x);
    } else if x > DEAD_ZONE as int {
        lemma_forward_rise_bounds(x);
    }
}

/// Law: each axle's steering pulse stays between that axle's two
/// declared extremes, for every direction input.
pub proof fn lemma_direction_pulse_within_extremes(direction: int)
    ensures
        FRONT_RIGHT_PULSE as int <= spec_front_pulse(direction),
        spec_front_pulse(direction) <= FRONT_LEFT_PULSE as int,
        BACK_LEFT_PULSE as int <= spec_back_pulse(direction),
        spec_back_pulse(direction) <= BACK_RIGHT_PULSE as int,
{
    let x = clamp_percent_spec(direction);
    lemma_direction_calibration_points();
    lemma_direction_to_pulse_monotone(-(MAX_PERCENT as int), x);
    lemma_direction_to_pulse_monotone(x, MAX_PERCENT as int);
    assert(spec_front_pulse(direction) == spec_front_pulse(x));
    assert(spec_back_pulse(direction) == spec_back_pulse(x));
}

/// Law: steering dead center yields the calibration pulse pair, and the
/// two full deflections land exactly on the declared axle extremes.
pub proof fn lemma_direction_calibration_points()
    ensures
        spec_front_pulse(0) == 728,
        spec_back_pulse(0) == 1780,
        spec_front_pulse(-(MAX_PERCENT as int)) == FRONT_LEFT_PULSE as int,
        spec_front_pulse(MAX_PERCENT as int) == FRONT_RIGHT_PULSE as int,
        spec_back_pulse(-(MAX_PERCENT as int)) == BACK_LEFT_PULSE as int,
        spec_back_pulse(MAX_PERCENT as int) == BACK_RIGHT_PULSE as int,
{
    let fl = FRONT_LEFT_PULSE as int;
    let fr = FRONT_RIGHT_PULSE as int;
    let bl = BACK_LEFT_PULSE as int;
    let br = BACK_RIGHT_PULSE as int;
    let m = MAX_PERCENT as int;
    assert(fl * (m - 0) + fr * (m + 0) == 145500) by (nonlinear_arith)
        requires
            fl == 1150,
            fr == 305,
            m == 100,
        ;
    assert(bl * (m - 0) + br * (m + 0) == 356000) by (nonlinear_arith)
        requires
            bl == 1375,
            br == 2185,
            m == 100,
        ;
    assert(fl * (m - (-m)) + fr * (m + (-m)) == 230000) by (nonlinear_arith)
        requires
            fl == 1150,
            fr == 305,
            m == 100,
        ;
    assert(fl * (m - m) + fr * (m + m) == 61000) by (nonlinear_arith)
        requires
            fl == 1150,
            fr == 305,
            m == 100,
        ;
    assert(bl * (m - (-m)) + br * (m + (-m)) == 275000) by (nonlinear_arith)
        requires
            bl == 1375,
            br == 2185,
            m == 100,
        ;
    assert(bl * (m - m) + br * (m + m) == 437000) by (nonlinear_arith)
        requires
            bl == 1375,
            br == 2185,
            m == 100,
        ;
    assert(spec_front_pulse(0) == round_div(145500, BLEND_SPAN as int));
    assert(spec_back_pulse(0) == round_div(356000, BLEND_SPAN as int));
    assert(spec_front_pulse(-m) == round_div(230000, BLEND_SPAN as int));
    assert(spec_front_pulse(m) == round_div(61000, BLEND_SPAN as int));
    assert(spec_back_pulse(-m) == round_div(275000, BLEND_SPAN as int));
    assert(spec_back_pulse(m) == round_div(437000, BLEND_SPAN as int));
}

} // verus!
