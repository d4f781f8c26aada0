use fivier::math::{clip_hard, pan_constant_power, pan_linear, scale, sine, sine_value};

const ONE: i64 = 65536;
const HALF_PI: i64 = 102944;
const PI: i64 = 205888;
const TAU: i64 = 411776;

#[test]
fn scale_maps_endpoints_exactly() {
    assert_eq!(scale((-ONE, ONE), (6554, 32768), -ONE), 6554);
    assert_eq!(scale((-ONE, ONE), (6554, 32768), ONE), 32768);
    assert_eq!(scale((0, 10), (0, 100), 0), 0);
    assert_eq!(scale((0, 10), (0, 100), 10), 100);
}

#[test]
fn scale_is_affine_inside_and_outside_the_domain() {
    assert_eq!(scale((0, 10), (0, 100), 7), 70);
    assert_eq!(scale((0, 10), (0, 100), 5), 50);
    // not clamped: outside the domain it extrapolates linearly
    assert_eq!(scale((0, 10), (0, 100), 20), 200);
    assert_eq!(scale((0, 10), (0, 100), -10), -100);
    // moving the input by one domain width moves the output by one range width
    let base = scale((-ONE, ONE), (0, HALF_PI), 1234);
    let moved = scale((-ONE, ONE), (0, HALF_PI), 1234 + 2 * ONE);
    assert_eq!(moved, base + HALF_PI);
}

#[test]
fn scale_handles_descending_ranges() {
    assert_eq!(scale((0, 10), (100, 0), 0), 100);
    assert_eq!(scale((0, 10), (100, 0), 10), 0);
}

#[test]
fn clip_hard_limits_both_sides() {
    assert_eq!(clip_hard(32768, 40000), 32768);
    assert_eq!(clip_hard(32768, -40000), -32768);
    assert_eq!(clip_hard(32768, 123), 123);
    assert_eq!(clip_hard(32768, -123), -123);
    assert_eq!(clip_hard(0, 55), 0);
}

#[test]
fn pan_linear_gains_sum_to_one() {
    for balance in [-3 * ONE, -ONE, -12345, 0, 999, ONE, 2 * ONE] {
        let (l, r) = pan_linear(balance);
        assert_eq!(l + r, ONE);
        assert!(l >= 0 && r >= 0);
    }
    assert_eq!(pan_linear(-ONE), (ONE, 0));
    assert_eq!(pan_linear(ONE), (0, ONE));
    assert_eq!(pan_linear(0), (ONE / 2, ONE / 2));
}

#[test]
fn pan_constant_power_endpoints_are_exact() {
    assert_eq!(pan_constant_power(-ONE), (ONE, 0));
    assert_eq!(pan_constant_power(ONE), (0, ONE));
    let (l, r) = pan_constant_power(0);
    assert_eq!(l, r);
    // close to sqrt(2)/2 in Q16.16 (46341)
    assert!((l - 46341).abs() < 150, "centre gain {l}");
}

#[test]
fn pan_constant_power_clamps_out_of_range_input() {
    assert_eq!(pan_constant_power(2 * ONE), pan_constant_power(ONE));
    assert_eq!(pan_constant_power(-7 * ONE), pan_constant_power(-ONE));
    assert_eq!(pan_constant_power(i64::MAX), pan_constant_power(ONE));
    assert_eq!(pan_constant_power(i64::MIN), pan_constant_power(-ONE));
}

#[test]
fn pan_constant_power_keeps_summed_power_flat() {
    let square = ONE * ONE;
    let tolerance = square / 32;
    let mut balance = -ONE;
    while balance <= ONE {
        let (l, r) = pan_constant_power(balance);
        let power = l * l + r * r;
        assert!(
            (power - square).abs() <= tolerance,
            "balance {balance}: power {power}"
        );
        balance += 4096;
    }
}

#[test]
fn sine_value_is_exact_at_quarter_turns() {
    assert_eq!(sine_value(0), 0);
    assert_eq!(sine_value(HALF_PI), ONE);
    assert_eq!(sine_value(PI), 0);
    assert_eq!(sine_value(PI + HALF_PI), -ONE);
}

#[test]
fn sine_value_stays_within_unit_range() {
    let mut phase = 0i64;
    while phase < TAU {
        let s = sine_value(phase);
        assert!((-ONE..=ONE).contains(&s), "phase {phase}: {s}");
        phase += 1024;
    }
}

#[test]
fn sine_value_approximates_the_true_sine() {
    let mut phase = 0i64;
    while phase < TAU {
        let s = sine_value(phase) as f64 / ONE as f64;
        let angle = phase as f64 / ONE as f64;
        assert!((s - angle.sin()).abs() < 0.004, "phase {phase}");
        phase += 512;
    }
}

#[test]
fn sine_of_frequency_and_time() {
    // no elapsed time: the phase offset alone decides the sample
    assert_eq!(sine(0, HALF_PI, 0), ONE);
    assert_eq!(sine(ONE, 0, 0), 0);
    // a quarter period of a 1 Hz wave reaches the crest
    assert_eq!(sine(ONE, 0, ONE / 4), ONE);
    // a half period crosses zero again
    assert_eq!(sine(ONE, 0, ONE / 2), 0);
}
