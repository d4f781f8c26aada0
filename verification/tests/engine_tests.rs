use fivier::math::{pan_constant_power, scale};
use fivier::{Delay, Sine, Synth, VoiceConfig};

const ONE: i64 = 65536;
const TAU: i64 = 411776;
const SAMPLE_RATE: i64 = 44100;

#[test]
fn oscillator_phase_accumulates() {
    let frequency = 100 * ONE;
    let mut osc = Sine::new(frequency, 0);
    let inc = (TAU * frequency).div_euclid(SAMPLE_RATE * ONE);
    assert_eq!(osc.phase_increment(), inc);
    assert_eq!(osc.phase(), 0);
    for n in 1..=1000i64 {
        osc.advance();
        assert_eq!(osc.phase(), (n * inc).rem_euclid(TAU), "after {n} steps");
    }
}

#[test]
fn oscillator_initial_phase_is_wrapped() {
    let osc = Sine::new(ONE, TAU + 77);
    assert_eq!(osc.phase(), 77);
    let neg = Sine::new(ONE, -1);
    assert_eq!(neg.phase(), TAU - 1);
}

#[test]
fn oscillator_retune_keeps_the_phase() {
    let mut osc = Sine::new(100 * ONE, 12345);
    osc.advance();
    let phase = osc.phase();
    osc.set_frequency(250 * ONE);
    assert_eq!(osc.phase(), phase);
    assert_eq!(
        osc.phase_increment(),
        (TAU * 250 * ONE).div_euclid(SAMPLE_RATE * ONE)
    );
}

#[test]
fn oscillator_read_matches_quarter_points() {
    assert_eq!(Sine::new(ONE, 0).read(), 0);
    assert_eq!(Sine::new(ONE, 102944).read(), ONE);
    assert_eq!(Sine::new(ONE, 205888).read(), 0);
    assert_eq!(Sine::new(ONE, 308832).read(), -ONE);
}

#[test]
fn delay_starts_silent() {
    let d = Delay::new(3);
    assert_eq!(d.len(), 6);
    assert_eq!(d.index(), 0);
    assert_eq!(d.read(), 0);
}

#[test]
fn delay_full_cycle_returns_first_value() {
    let mut d = Delay::new(2);
    for v in [10, 20, 30, 40] {
        d.advance(v);
    }
    // the ring holds four slots; the next read is the first value written
    assert_eq!(d.read(), 10);
    d.advance(50);
    assert_eq!(d.read(), 20);
    d.advance(60);
    assert_eq!(d.read(), 30);
}

#[test]
fn engine_channel_cursor_alternates() {
    let mut synth = Synth::new();
    for k in 0..16u32 {
        assert_eq!(synth.channel(), k % 2);
        synth.generate();
    }
    assert_eq!(synth.channel(), 0);
}

#[test]
fn engine_advances_oscillators_once_per_frame() {
    let mut synth = Synth::new();
    let p0 = synth.voice1().freq_lfo().phase();
    let inc = synth.voice1().freq_lfo().phase_increment();
    let q0 = synth.voice2().pan_lfo().phase();
    let qinc = synth.voice2().pan_lfo().phase_increment();
    synth.generate();
    // left sample produced: no oscillator has moved yet
    assert_eq!(synth.voice1().freq_lfo().phase(), p0);
    assert_eq!(synth.voice2().pan_lfo().phase(), q0);
    synth.generate();
    // the frame completed: every oscillator moved exactly one step
    assert_eq!(synth.voice1().freq_lfo().phase(), (p0 + inc).rem_euclid(TAU));
    assert_eq!(synth.voice2().pan_lfo().phase(), (q0 + qinc).rem_euclid(TAU));
    synth.generate();
    assert_eq!(synth.voice1().freq_lfo().phase(), (p0 + inc).rem_euclid(TAU));
    synth.generate();
    assert_eq!(
        synth.voice1().freq_lfo().phase(),
        (p0 + 2 * inc).rem_euclid(TAU)
    );
}

#[test]
fn engine_is_deterministic() {
    let mut a = Synth::new();
    let mut b = Synth::new();
    let buf = a.generate_buffer(64);
    for (i, sample) in buf.iter().enumerate() {
        assert_eq!(*sample, b.generate(), "sample {i}");
        assert!(sample.abs() <= 2 * ONE);
    }
}

fn frozen_voice(base_frequency: i64, carrier_phase: i64, pan_scale: i64) -> VoiceConfig {
    VoiceConfig {
        base_frequency,
        depth_ratio: 70124,
        carrier_phase,
        freq_lfo_rate: 0,
        freq_lfo_phase: 0,
        amp_lfo_rate: 0,
        amp_lfo_phase: 0,
        amp_floor: 6554,
        amp_ceil: 32768,
        pan_lfo_rate: 0,
        pan_lfo_phase: 0,
        pan_scale,
    }
}

/// With every LFO frozen at phase zero the engine plays two fixed
/// sine tones; the wet path is silent for exactly one ring length and
/// then echoes the dry signal written one ring length earlier.
#[test]
fn frozen_lfos_give_pure_tones_with_a_silent_delay_tail() {
    let delay_frames = 4usize;
    let ring = 2 * delay_frames;
    let mut synth = Synth::with_config(
        frozen_voice(9175040, 0, 32768),
        frozen_voice(13762560, 205888, 39322),
        delay_frames,
    );
    let out = synth.generate_buffer(24);
    assert_eq!(out.len(), 24);

    // replicate the frozen signal path sample by sample
    let lo1 = (9175040i64 * ONE).div_euclid(70124);
    let hi1 = (9175040i64 * 70124).div_euclid(ONE);
    let lo2 = (13762560i64 * ONE).div_euclid(70124);
    let hi2 = (13762560i64 * 70124).div_euclid(ONE);
    let freq1 = scale((-ONE, ONE), (lo1, hi1), 0);
    let freq2 = scale((-ONE, ONE), (lo2, hi2), 0);
    let amp = scale((-ONE, ONE), (6554, 32768), 0);
    let (gain_left, gain_right) = pan_constant_power(0);
    let mut carrier1 = Sine::new(9175040, 0);
    carrier1.set_frequency(freq1);
    let mut carrier2 = Sine::new(13762560, 205888);
    carrier2.set_frequency(freq2);

    let mut dry_history: Vec<i64> = Vec::new();
    for i in 0..24usize {
        let gain = if i % 2 == 0 { gain_left } else { gain_right };
        let w1 = carrier1.read();
        let w2 = carrier2.read();
        let o1 = (gain * amp * w1).div_euclid(ONE * ONE);
        let o2 = (gain * amp * w2).div_euclid(ONE * ONE);
        let dry = o1 + o2;
        let wet = if i >= ring { dry_history[i - ring] } else { 0 };
        let expected = (39322 * dry + 26214 * wet).div_euclid(ONE);
        assert_eq!(out[i], expected, "sample {i}");
        dry_history.push(dry);
        if i % 2 == 1 {
            carrier1.advance();
            carrier2.advance();
        }
    }
}
