//! Modulation utilities in Q16.16 fixed point.
//!
//! Amplitudes, gains and angles are `i64` values scaled by [`ONE`]: the
//! number `1.0` is `ONE`, a full turn is [`TAU`]. Every division in this
//! module is Euclidean, so each function is the exact integer image of its
//! specification function.

use vstd::prelude::*;
use vstd::arithmetic::div_mod::*;

verus! {

/// Scale factor of the Q16.16 fixed-point format: the number one.
pub const ONE: i64 = 65536;

/// Half turn (pi) in Q16.16, rounded to a multiple of four so that both
/// `HALF_PI` and the centre angle `HALF_PI / 2` are exact.
pub const PI: i64 = 205888;

/// Quarter turn (pi / 2) in Q16.16.
pub const HALF_PI: i64 = 102944;

/// Full turn (2 * pi) in Q16.16.
pub const TAU: i64 = 411776;

/// Output sample rate in frames per second.
pub const SAMPLE_RATE: i64 = 44100;

/// Magnitude cap (2^30) on the arguments of [`scale`] and on frequencies,
/// chosen so that every intermediate product stays within `i64`.
pub const SCALE_LIMIT: i64 = 1073741824;

/// Quotient and dividend magnitude cap (2^62) of [`div_euclid_i64`].
pub const DIV_LIMIT: i64 = 0x4000_0000_0000_0000;

/// For a positive divisor, the quotient lies between the dividend and zero.
pub proof fn lemma_div_bounds_pos(a: int, b: int)
    requires
        0 < b,
    ensures
        a >= 0 ==> 0 <= a / b <= a,
        a < 0 ==> a <= a / b <= 0,
{
    if a >= 0 {
        lemma_div_pos_is_pos(a, b);
        lemma_div_nonincreasing(a, b);
    } else {
        lemma_div_is_ordered(a, 0, b);
        lemma_div_of0(b);
        lemma_fundamental_div_mod(a, b);
        lemma_mod_bound(a, b);
        assert(a <= a / b) by (nonlinear_arith)
            requires
                a == b * (a / b) + (a % b),
                0 <= a % b < b,
                a < 0,
                0 < b,
        ;
    }
}

/// Euclidean division by a negative divisor is the negated quotient by the
/// negated divisor.
pub proof fn lemma_div_neg_divisor(a: int, b: int)
    requires
        b < 0,
    ensures
        a / b == -(a / (-b)),
{
    let nb = -b;
    lemma_fundamental_div_mod(a, nb);
    lemma_mod_bound(a, nb);
    lemma_fundamental_div_mod(a, b);
    assert(a / b == -(a / nb)) by (nonlinear_arith)
        requires
            b < 0,
            nb == -b,
            a == nb * (a / nb) + (a % nb),
            0 <= a % nb < nb,
            a == b * (a / b) + (a % b),
            0 <= a % b < nb,
    ;
}

/// Euclidean division on `i64`: the executable twin of the specification
/// `/` operator.
pub(crate) fn div_euclid_i64(a: i64, b: i64) -> (q: i64)
    requires
        b != 0,
        -DIV_LIMIT <= a <= DIV_LIMIT,
        -DIV_LIMIT <= b <= DIV_LIMIT,
    ensures
        q == a as int / b as int,
        -DIV_LIMIT <= q <= DIV_LIMIT,
{
    proof {
        if b > 0 {
            lemma_div_bounds_pos(a as int, b as int);
        } else {
            lemma_div_neg_divisor(a as int, b as int);
            lemma_div_bounds_pos(a as int, -(b as int));
        }
    }
    let opt: Option<i64> = a.checked_div_euclid(b);
    opt.unwrap()
}

/// Hard clip of `v` into `[-threshold, threshold]`.
pub open spec fn clip_spec(threshold: int, v: int) -> int {
    if v < -threshold {
        -threshold
    } else if v > threshold {
        threshold
    } else {
        v
    }
}

/// Hard limiter: clamps `input` into `[-threshold, threshold]`.
pub fn clip_hard(threshold: i64, input: i64) -> (r: i64)
    requires
        threshold > i64::MIN,
    ensures
        r == clip_spec(threshold as int, input as int),
{
    if input < -threshold {
        -threshold
    } else if input > threshold {
        threshold
    } else {
        input
    }
}

/// Clamp of `v` into `[lo, hi]`.
pub open spec fn clamp_spec(lo: int, hi: int, v: int) -> int {
    if v < lo {
        lo
    } else if v > hi {
        hi
    } else {
        v
    }
}

/// The affine remap computed by [`scale`].
pub open spec fn scale_spec(d0: int, d1: int, r0: int, r1: int, v: int) -> int {
    (v - d0) * (r1 - r0) / (d1 - d0) + r0
}

/// Affine remap of `value` from the interval `domain` onto `range`:
/// `((value - d0) / (d1 - d0)) * (r1 - r0) + r0`, computed with one exact
/// Euclidean division. Values outside `domain` extrapolate linearly;
/// nothing is clamped.
pub fn scale(domain: (i64, i64), range: (i64, i64), value: i64) -> (r: i64)
    requires
        domain.0 != domain.1,
        -SCALE_LIMIT <= domain.0 <= SCALE_LIMIT,
        -SCALE_LIMIT <= domain.1 <= SCALE_LIMIT,
        -SCALE_LIMIT <= range.0 <= SCALE_LIMIT,
        -SCALE_LIMIT <= range.1 <= SCALE_LIMIT,
        -SCALE_LIMIT <= value <= SCALE_LIMIT,
    ensures
        r == scale_spec(
            domain.0 as int,
            domain.1 as int,
            range.0 as int,
            range.1 as int,
            value as int,
        ),
{
    let (d0, d1) = domain;
    let (r0, r1) = range;
    proof {
        assert(-DIV_LIMIT <= (value - d0) * (r1 - r0) <= DIV_LIMIT) by (nonlinear_arith)
            requires
                -2 * SCALE_LIMIT <= value - d0 <= 2 * SCALE_LIMIT,
                -2 * SCALE_LIMIT <= r1 - r0 <= 2 * SCALE_LIMIT,
                SCALE_LIMIT == 1073741824,
                DIV_LIMIT == 0x4000_0000_0000_0000,
        ;
    }
    let num: i64 = (value - d0) * (r1 - r0);
    let den: i64 = d1 - d0;
    let q: i64 = div_euclid_i64(num, den);
    q + r0
}

/// Law: `scale` maps the domain endpoints exactly onto the range endpoints.
pub proof fn lemma_scale_endpoints(d0: int, d1: int, r0: int, r1: int)
    requires
        d0 != d1,
    ensures
        scale_spec(d0, d1, r0, r1, d0) == r0,
        scale_spec(d0, d1, r0, r1, d1) == r1,
{
    lemma_div_of0(d1 - d0);
    assert((d0 - d0) * (r1 - r0) == 0);
    if d1 - d0 > 0 {
        lemma_div_multiples_vanish(r1 - r0, d1 - d0);
        assert(((d1 - d0) * (r1 - r0)) / (d1 - d0) == r1 - r0);
    } else {
        lemma_div_neg_divisor((d1 - d0) * (r1 - r0), d1 - d0);
        lemma_div_multiples_vanish(-(r1 - r0), d0 - d1);
        assert((d1 - d0) * (r1 - r0) == (d0 - d1) * (-(r1 - r0))) by (nonlinear_arith);
        assert(((d1 - d0) * (r1 - r0)) / (d1 - d0) == r1 - r0);
    }
}

/// Law: `scale` is affine. Moving the input by `t` whole domain widths
/// moves the output by exactly `t` range widths.
pub proof fn lemma_scale_affine(d0: int, d1: int, r0: int, r1: int, v: int, t: int)
    requires
        d0 != d1,
    ensures
        scale_spec(d0, d1, r0, r1, v + (d1 - d0) * t) == scale_spec(d0, d1, r0, r1, v) + (r1
            - r0) * t,
{
    let den = d1 - d0;
    let dr = r1 - r0;
    let num = (v - d0) * dr;
    assert((v + den * t - d0) * dr == num + (t * dr) * den) by (nonlinear_arith)
        requires
            den == d1 - d0,
            dr == r1 - r0,
            num == (v - d0) * dr,
    ;
    if den > 0 {
        lemma_hoist_over_denominator(num, t * dr, den as nat);
        assert(num / den + t * dr == (num + (t * dr) * den) / den);
    } else {
        lemma_div_neg_divisor(num, den);
        lemma_div_neg_divisor(num + (t * dr) * den, den);
        lemma_hoist_over_denominator(num, -(t * dr), (-den) as nat);
        assert(num / (-den) + -(t * dr) == (num + -(t * dr) * (-den)) / (-den));
        assert(num + -(t * dr) * (-den) == num + (t * dr) * den) by (nonlinear_arith);
    }
}

/// `scale` stays within an ascending range when the input stays within an
/// ascending domain.
pub proof fn lemma_scale_bounds(d0: int, d1: int, r0: int, r1: int, v: int)
    requires
        d0 < d1,
        r0 <= r1,
        d0 <= v <= d1,
    ensures
        r0 <= scale_spec(d0, d1, r0, r1, v) <= r1,
{
    let den = d1 - d0;
    let num = (v - d0) * (r1 - r0);
    assert(0 <= num <= den * (r1 - r0)) by (nonlinear_arith)
        requires
            num == (v - d0) * (r1 - r0),
            0 <= v - d0 <= den,
            0 <= r1 - r0,
    ;
    lemma_div_pos_is_pos(num, den);
    lemma_div_is_ordered(num, den * (r1 - r0), den);
    lemma_div_multiples_vanish(r1 - r0, den);
}

/// Sine on the first half turn `[0, PI]`: the rational approximation
/// `16 u / (5 pi^2 - 4 u)` with `u = x (pi - x)`, scaled to Q16.16. It is
/// exact at `0`, `HALF_PI` and `PI` and stays within `[0, ONE]`.
pub open spec fn sin_half_spec(x: int) -> int {
    16 * (x * (PI - x)) * ONE / (5 * (PI * PI) - 4 * (x * (PI - x)))
}

/// Sine of an angle in `[0, TAU)` in Q16.16: the half-turn approximation,
/// mirrored with negated sign on the second half turn.
pub open spec fn sin_spec(x: int) -> int {
    if x <= PI {
        sin_half_spec(x)
    } else {
        -sin_half_spec(x - PI)
    }
}

/// The half-turn sine stays within `[0, ONE]`.
pub proof fn lemma_sin_half_bounds(x: int)
    requires
        0 <= x <= PI,
    ensures
        0 <= sin_half_spec(x) <= ONE,
{
    let u = x * (PI - x);
    assert(0 <= u && 4 * u <= PI * PI) by (nonlinear_arith)
        requires
            0 <= x <= PI,
            u == x * (PI - x),
    ;
    let den = 5 * (PI * PI) - 4 * u;
    let num = 16 * u * ONE;
    assert(num <= den * ONE);
    lemma_div_pos_is_pos(num, den);
    lemma_div_is_ordered(num, den * ONE, den);
    lemma_div_multiples_vanish(ONE as int, den);
}

/// The full-turn sine stays within `[-ONE, ONE]`.
pub proof fn lemma_sin_bounds(x: int)
    requires
        0 <= x < TAU,
    ensures
        -ONE <= sin_spec(x) <= ONE,
{
    if x <= PI {
        lemma_sin_half_bounds(x);
    } else {
        lemma_sin_half_bounds(x - PI);
    }
}

/// The sine is exact at the four quarter-turn points.
pub proof fn lemma_sin_quarter_points()
    ensures
        sin_spec(0) == 0,
        sin_spec(HALF_PI as int) == ONE,
        sin_spec(PI as int) == 0,
        sin_spec((PI + HALF_PI) as int) == -ONE,
{
    lemma_div_of0(5 * (PI * PI));
    assert(102944 * (205888 - 102944) == 10597467136);
    assert(16 * 10597467136 * 65536 == 169559474176 * 65536);
    assert(5 * (205888 * 205888) - 4 * 10597467136 == 169559474176);
    lemma_div_multiples_vanish(65536, 169559474176);
}

fn sin_half(x: i64) -> (r: i64)
    requires
        0 <= x <= PI,
    ensures
        r == sin_half_spec(x as int),
        0 <= r <= ONE,
{
    proof {
        assert(0 <= (x as int) * (PI - x as int) && 4 * ((x as int) * (PI - x as int)) <= PI * PI)
            by (nonlinear_arith)
            requires
                0 <= x as int <= PI,
                PI == 205888,
        ;
        lemma_sin_half_bounds(x as int);
    }
    let u: i64 = x * (PI - x);
    let num: i64 = 16 * u * ONE;
    let den: i64 = 5 * (PI * PI) - 4 * u;
    div_euclid_i64(num, den)
}

/// Sine of a phase in `[0, TAU)` in Q16.16. The result always lies in
/// `[-ONE, ONE]` and is nonnegative on the first half turn.
pub fn sine_value(phase: i64) -> (r: i64)
    requires
        0 <= phase < TAU,
    ensures
        r == sin_spec(phase as int),
        -ONE <= r <= ONE,
        phase <= PI ==> r >= 0,
{
    if phase <= PI {
        sin_half(phase)
    } else {
        let v = sin_half(phase - PI);
        -v
    }
}

/// The angle `frequency * time * TAU + phase` reduced to `[0, TAU)`,
/// with the two fixed-point normalisations written out.
pub open spec fn sine_angle_spec(frequency: int, phase: int, time: int) -> int {
    (frequency * time / (ONE as int) * (TAU as int) / (ONE as int) + phase) % (TAU as int)
}

/// Sample of a sine wave of `frequency` at `time`, offset by `phase`
/// (all Q16.16): the sine of `frequency * time * TAU + phase`, with the
/// angle reduced modulo one turn.
pub fn sine(frequency: i64, phase: i64, time: i64) -> (r: i64)
    requires
        -SCALE_LIMIT <= frequency <= SCALE_LIMIT,
        -SCALE_LIMIT <= phase <= SCALE_LIMIT,
        -16777216 <= time <= 16777216,
    ensures
        r == sin_spec(sine_angle_spec(frequency as int, phase as int, time as int)),
{
    proof {
        assert(-18014398509481984 <= (frequency as int) * (time as int) <= 18014398509481984)
            by (nonlinear_arith)
            requires
                -1073741824 <= frequency as int <= 1073741824,
                -16777216 <= time as int <= 16777216,
        ;
    }
    let product: i64 = frequency * time;
    let cycles: i64 = div_euclid_i64(product, ONE);
    proof {
        lemma_div_is_ordered(product as int, 18014398509481984, ONE as int);
        lemma_div_is_ordered(-18014398509481984, product as int, ONE as int);
        lemma_div_multiples_vanish(274877906944, ONE as int);
        lemma_div_multiples_vanish(-274877906944, ONE as int);
        assert(65536 * 274877906944 == 18014398509481984);
        assert(65536 * (-274877906944) == -18014398509481984);
    }
    let scaled: i64 = cycles * TAU;
    let turns: i64 = div_euclid_i64(scaled, ONE);
    let shifted: i64 = turns + phase;
    let opt: Option<i64> = shifted.checked_rem_euclid(TAU);
    proof {
        lemma_mod_bound(shifted as int, TAU as int);
    }
    let angle: i64 = opt.unwrap();
    sine_value(angle)
}

/// Gains computed by [`pan_linear`].
pub open spec fn pan_linear_spec(balance: int) -> (int, int) {
    let p = scale_spec(-ONE as int, ONE as int, 0, ONE as int, clamp_spec(-ONE as int, ONE as int, balance));
    (ONE - p, p)
}

/// Equal-gain stereo panning: clamps `balance` into `[-ONE, ONE]`, remaps
/// it onto `[0, ONE]` and returns `(ONE - p, p)`. The two gains always sum
/// to exactly `ONE`.
pub fn pan_linear(balance: i64) -> (lr: (i64, i64))
    ensures
        lr.0 == pan_linear_spec(balance as int).0,
        lr.1 == pan_linear_spec(balance as int).1,
        lr.0 + lr.1 == ONE,
        0 <= lr.0 <= ONE,
        0 <= lr.1 <= ONE,
{
    let b: i64 = if balance < -ONE {
        -ONE
    } else if balance > ONE {
        ONE
    } else {
        balance
    };
    let p: i64 = scale((-ONE, ONE), (0, ONE), b);
    proof {
        lemma_scale_bounds(-ONE as int, ONE as int, 0, ONE as int, b as int);
    }
    (ONE - p, p)
}

/// The pan angle in `[0, HALF_PI]` used by [`pan_constant_power`].
pub open spec fn pan_angle_spec(balance: int) -> int {
    scale_spec(-ONE as int, ONE as int, 0, HALF_PI as int, clamp_spec(-ONE as int, ONE as int, balance))
}

/// Gains computed by [`pan_constant_power`].
pub open spec fn pan_constant_power_spec(balance: int) -> (int, int) {
    let a = pan_angle_spec(balance);
    (sin_spec(HALF_PI - a), sin_spec(a))
}

/// Constant-power stereo panning: clamps `balance` into `[-ONE, ONE]`,
/// remaps it onto an angle in `[0, HALF_PI]` and returns the cosine and
/// sine of that angle, keeping the summed power of the two gains flat
/// across the sweep.
pub fn pan_constant_power(balance: i64) -> (lr: (i64, i64))
    ensures
        lr.0 == pan_constant_power_spec(balance as int).0,
        lr.1 == pan_constant_power_spec(balance as int).1,
        0 <= lr.0 <= ONE,
        0 <= lr.1 <= ONE,
{
    let b: i64 = if balance < -ONE {
        -ONE
    } else if balance > ONE {
        ONE
    } else {
        balance
    };
    let angle: i64 = scale((-ONE, ONE), (0, HALF_PI), b);
    proof {
        lemma_scale_bounds(-ONE as int, ONE as int, 0, HALF_PI as int, b as int);
    }
    let l: i64 = sine_value(HALF_PI - angle);
    let r: i64 = sine_value(angle);
    (l, r)
}

/// Law: `pan_constant_power` clamps out-of-range input: any balance left
/// of `-ONE` pans exactly like `-ONE`, right of `ONE` exactly like `ONE`.
pub proof fn lemma_pan_constant_power_clamps(balance: int)
    ensures
        balance < -ONE ==> pan_constant_power_spec(balance) == pan_constant_power_spec(-ONE as int),
        balance > ONE ==> pan_constant_power_spec(balance) == pan_constant_power_spec(ONE as int),
{
}

/// Law: the constant-power sweep is exact at its anchors: full left gives
/// `(ONE, 0)`, full right `(0, ONE)`, and the centre sends the same gain
/// to both sides.
pub proof fn lemma_pan_constant_power_endpoints()
    ensures
        pan_constant_power_spec(-ONE as int) == (ONE as int, 0int),
        pan_constant_power_spec(ONE as int) == (0int, ONE as int),
        pan_constant_power_spec(0).0 == pan_constant_power_spec(0).1,
{
    lemma_scale_endpoints(-ONE as int, ONE as int, 0, HALF_PI as int);
    lemma_sin_quarter_points();
    assert(65536 * 102944 == 131072 * 51472);
    lemma_div_multiples_vanish(51472, 131072);
    assert(pan_angle_spec(0) == 51472);
}

} // verus!
