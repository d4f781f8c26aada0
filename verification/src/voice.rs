//! One synthesizer voice: a carrier oscillator modulated in frequency,
//! amplitude and stereo position by three low-frequency oscillators.
//!
//! A sample computation retunes the carrier from the frequency LFO and
//! scales the carrier's sine by the LFO-driven amplitude and by the
//! constant-power gain of the selected stereo channel. It never advances
//! a phase: the engine advances all oscillators once per completed
//! stereo frame, so both channels of one frame read identical modulator
//! values.

use vstd::prelude::*;
use vstd::arithmetic::div_mod::*;

use crate::math;
use crate::math::{ONE, TAU, SCALE_LIMIT};
use crate::osc::{Sine, SineModel, phase_inc_spec};

verus! {

/// Static configuration of a [`Voice`], all values Q16.16.
pub struct VoiceConfig {
    /// Centre frequency of the carrier; the modulation band is
    /// `[base / ratio, base * ratio]`.
    pub base_frequency: i64,
    /// Width `ratio > ONE` of the frequency modulation band.
    pub depth_ratio: i64,
    /// Initial carrier phase.
    pub carrier_phase: i64,
    pub freq_lfo_rate: i64,
    pub freq_lfo_phase: i64,
    pub amp_lfo_rate: i64,
    pub amp_lfo_phase: i64,
    /// Lower end of the amplitude sweep.
    pub amp_floor: i64,
    /// Upper end of the amplitude sweep.
    pub amp_ceil: i64,
    pub pan_lfo_rate: i64,
    pub pan_lfo_phase: i64,
    /// Gain applied to the pan LFO before the panning law.
    pub pan_scale: i64,
}

impl VoiceConfig {
    /// Acceptable configuration: a positive base frequency, a band ratio
    /// above one, and the bounds that keep every intermediate product of
    /// the per-sample computation within `i64` and the integer frequency
    /// band positive.
    pub open spec fn wf(self) -> bool {
        &&& 0 < self.base_frequency <= SCALE_LIMIT
        &&& ONE < self.depth_ratio <= self.base_frequency * ONE
        &&& self.base_frequency * self.depth_ratio <= SCALE_LIMIT * ONE
        &&& -SCALE_LIMIT <= self.freq_lfo_rate <= SCALE_LIMIT
        &&& -SCALE_LIMIT <= self.amp_lfo_rate <= SCALE_LIMIT
        &&& -SCALE_LIMIT <= self.pan_lfo_rate <= SCALE_LIMIT
        &&& 0 <= self.amp_floor <= self.amp_ceil <= ONE
        &&& 0 <= self.pan_scale <= ONE
    }
}

/// Mathematical state of a [`Voice`].
pub ghost struct VoiceModel {
    pub carrier: SineModel,
    pub freq_lfo: SineModel,
    pub amp_lfo: SineModel,
    pub pan_lfo: SineModel,
    pub freq_lo: int,
    pub freq_hi: int,
    pub amp_lo: int,
    pub amp_hi: int,
    pub pan_scale: int,
}

impl VoiceModel {
    /// Well-formedness: wrapped oscillators and in-range sweep bounds.
    pub open spec fn wf(self) -> bool {
        &&& self.carrier.wf()
        &&& self.freq_lfo.wf()
        &&& self.amp_lfo.wf()
        &&& self.pan_lfo.wf()
        &&& 0 < self.freq_lo <= self.freq_hi <= SCALE_LIMIT
        &&& 0 <= self.amp_lo <= self.amp_hi <= ONE
        &&& 0 <= self.pan_scale <= ONE
    }

    /// The modulated carrier frequency: the frequency LFO's sine mapped
    /// onto `[freq_lo, freq_hi]`.
    pub open spec fn freq_value(self) -> int {
        math::scale_spec(
            -ONE as int,
            ONE as int,
            self.freq_lo,
            self.freq_hi,
            math::sin_spec(self.freq_lfo.phase),
        )
    }

    /// The momentary amplitude: the amplitude LFO's sine mapped onto
    /// `[amp_lo, amp_hi]`.
    pub open spec fn amp_value(self) -> int {
        math::scale_spec(
            -ONE as int,
            ONE as int,
            self.amp_lo,
            self.amp_hi,
            math::sin_spec(self.amp_lfo.phase),
        )
    }

    /// The momentary pan balance: the pan LFO's sine scaled down by
    /// `pan_scale`.
    pub open spec fn balance_value(self) -> int {
        self.pan_scale * math::sin_spec(self.pan_lfo.phase) / (ONE as int)
    }

    /// The constant-power gain of the selected channel (0 = left).
    pub open spec fn gain_value(self, channel: int) -> int {
        let lr = math::pan_constant_power_spec(self.balance_value());
        if channel == 0 {
            lr.0
        } else {
            lr.1
        }
    }

    /// The voice output for the selected channel:
    /// `gain * amp * sin(carrier_phase)`, renormalised.
    pub open spec fn output_value(self, channel: int) -> int {
        self.gain_value(channel) * self.amp_value() * math::sin_spec(self.carrier.phase) / (
        ONE as int * ONE as int)
    }

    /// State after one sample computation: only the carrier increment
    /// moves (the modulated frequency is written back); no phase
    /// advances.
    pub open spec fn after_sample(self) -> VoiceModel {
        VoiceModel {
            carrier: SineModel {
                phase: self.carrier.phase,
                phase_inc: phase_inc_spec(self.freq_value()),
            },
            ..self
        }
    }

    /// All four oscillators advanced one step.
    pub open spec fn advanced(self) -> VoiceModel {
        VoiceModel {
            carrier: self.carrier.advanced(),
            freq_lfo: self.freq_lfo.advanced(),
            amp_lfo: self.amp_lfo.advanced(),
            pan_lfo: self.pan_lfo.advanced(),
            ..self
        }
    }
}

/// The model a [`Voice::new`] call assembles from its configuration.
pub open spec fn voice_built(cfg: VoiceConfig) -> VoiceModel {
    VoiceModel {
        carrier: SineModel {
            phase: cfg.carrier_phase as int % (TAU as int),
            phase_inc: phase_inc_spec(cfg.base_frequency as int),
        },
        freq_lfo: SineModel {
            phase: cfg.freq_lfo_phase as int % (TAU as int),
            phase_inc: phase_inc_spec(cfg.freq_lfo_rate as int),
        },
        amp_lfo: SineModel {
            phase: cfg.amp_lfo_phase as int % (TAU as int),
            phase_inc: phase_inc_spec(cfg.amp_lfo_rate as int),
        },
        pan_lfo: SineModel {
            phase: cfg.pan_lfo_phase as int % (TAU as int),
            phase_inc: phase_inc_spec(cfg.pan_lfo_rate as int),
        },
        freq_lo: cfg.base_frequency * ONE / (cfg.depth_ratio as int),
        freq_hi: cfg.base_frequency * cfg.depth_ratio / (ONE as int),
        amp_lo: cfg.amp_floor as int,
        amp_hi: cfg.amp_ceil as int,
        pan_scale: cfg.pan_scale as int,
    }
}

/// One frequency- amplitude- and pan-modulated sine voice.
pub struct Voice {
    carrier: Sine,
    freq_lfo: Sine,
    amp_lfo: Sine,
    pan_lfo: Sine,
    freq_lo: i64,
    freq_hi: i64,
    amp_lo: i64,
    amp_hi: i64,
    pan_scale: i64,
}

impl View for Voice {
    type V = VoiceModel;

    closed spec fn view(&self) -> VoiceModel {
        VoiceModel {
            carrier: self.carrier@,
            freq_lfo: self.freq_lfo@,
            amp_lfo: self.amp_lfo@,
            pan_lfo: self.pan_lfo@,
            freq_lo: self.freq_lo as int,
            freq_hi: self.freq_hi as int,
            amp_lo: self.amp_lo as int,
            amp_hi: self.amp_hi as int,
            pan_scale: self.pan_scale as int,
        }
    }
}

impl Voice {
    /// Builds a voice from `cfg`: the carrier starts at the base
    /// frequency with the configured phase, and the frequency sweep is
    /// `[base / ratio, base * ratio]`.
    pub fn new(cfg: VoiceConfig) -> (v: Voice)
        requires
            cfg.wf(),
        ensures
            v@.wf(),
            v@ == voice_built(cfg),
    {
        proof {
            let b = cfg.base_frequency as int;
            let k = cfg.depth_ratio as int;
            assert(0 < b * ONE <= SCALE_LIMIT * ONE) by (nonlinear_arith)
                requires
                    0 < b <= SCALE_LIMIT,
                    ONE == 65536,
                    SCALE_LIMIT == 1073741824,
            ;
            assert(0 < b * k) by (nonlinear_arith)
                requires
                    0 < b,
                    0 < k,
            ;
            lemma_div_is_ordered(k, b * ONE, k);
            lemma_div_basics(k);
            assert(b * ONE <= k * b) by (nonlinear_arith)
                requires
                    ONE <= k,
                    0 <= b,
            ;
            lemma_div_is_ordered(b * ONE, k * b, k);
            lemma_div_multiples_vanish(b, k);
            assert(ONE * b <= b * k) by (nonlinear_arith)
                requires
                    ONE <= k,
                    0 <= b,
            ;
            lemma_div_is_ordered(ONE * b, b * k, ONE as int);
            lemma_div_multiples_vanish(b, ONE as int);
            lemma_div_is_ordered(b * k, ONE * SCALE_LIMIT, ONE as int);
            lemma_div_multiples_vanish(SCALE_LIMIT as int, ONE as int);
        }
        let freq_lo: i64 = math::div_euclid_i64(cfg.base_frequency * ONE, cfg.depth_ratio);
        let freq_hi: i64 = math::div_euclid_i64(cfg.base_frequency * cfg.depth_ratio, ONE);
        Voice {
            carrier: Sine::new(cfg.base_frequency, cfg.carrier_phase),
            freq_lfo: Sine::new(cfg.freq_lfo_rate, cfg.freq_lfo_phase),
            amp_lfo: Sine::new(cfg.amp_lfo_rate, cfg.amp_lfo_phase),
            pan_lfo: Sine::new(cfg.pan_lfo_rate, cfg.pan_lfo_phase),
            freq_lo,
            freq_hi,
            amp_lo: cfg.amp_floor,
            amp_hi: cfg.amp_ceil,
            pan_scale: cfg.pan_scale,
        }
    }

    /// Computes this voice's contribution for `channel` (0 = left,
    /// 1 = right). The only mutation is retuning the carrier to the
    /// LFO-modulated frequency; no phase advances, so calling this for
    /// both channels of one frame reads identical modulator values.
    pub fn sample(&mut self, channel: u32) -> (out: i64)
        requires
            old(self)@.wf(),
            channel <= 1,
        ensures
            final(self)@ == old(self)@.after_sample(),
            final(self)@.wf(),
            out == old(self)@.output_value(channel as int),
            -ONE <= out <= ONE,
    {
        let lfo: i64 = self.freq_lfo.read();
        let freq: i64 = math::scale((-ONE, ONE), (self.freq_lo, self.freq_hi), lfo);
        proof {
            math::lemma_scale_bounds(
                -ONE as int,
                ONE as int,
                self.freq_lo as int,
                self.freq_hi as int,
                lfo as int,
            );
        }
        self.carrier.set_frequency(freq);
        let wave: i64 = self.carrier.read();
        let amp_lfo: i64 = self.amp_lfo.read();
        let amp: i64 = math::scale((-ONE, ONE), (self.amp_lo, self.amp_hi), amp_lfo);
        proof {
            math::lemma_scale_bounds(
                -ONE as int,
                ONE as int,
                self.amp_lo as int,
                self.amp_hi as int,
                amp_lfo as int,
            );
        }
        let pan_lfo: i64 = self.pan_lfo.read();
        proof {
            assert(-(ONE * ONE) <= self.pan_scale * pan_lfo <= ONE * ONE) by (nonlinear_arith)
                requires
                    0 <= self.pan_scale as int <= ONE,
                    -ONE <= pan_lfo as int <= ONE,
                    ONE == 65536,
            ;
        }
        let balance: i64 = math::div_euclid_i64(self.pan_scale * pan_lfo, ONE);
        let gains: (i64, i64) = math::pan_constant_power(balance);
        let gain: i64 = if channel == 0 {
            gains.0
        } else {
            gains.1
        };
        proof {
            assert(0 <= gain * amp <= ONE * ONE && -(ONE * ONE * ONE) <= gain * amp * wave <= ONE
                * ONE * ONE) by (nonlinear_arith)
                requires
                    0 <= gain as int <= ONE,
                    0 <= amp as int <= ONE,
                    -ONE <= wave as int <= ONE,
                    ONE == 65536,
            ;
            lemma_div_is_ordered(gain * amp * wave, ONE * ONE * ONE, ONE * ONE);
            lemma_div_is_ordered(-(ONE * ONE * ONE), gain * amp * wave, ONE * ONE);
            lemma_div_multiples_vanish(ONE as int, (ONE * ONE) as int);
            lemma_div_multiples_vanish(-ONE as int, (ONE * ONE) as int);
        }
        let prod: i64 = gain * amp * wave;
        math::div_euclid_i64(prod, ONE * ONE)
    }

    /// Advances all four oscillators one step; called by the engine once
    /// per completed stereo frame.
    pub fn advance_oscillators(&mut self)
        requires
            old(self)@.wf(),
        ensures
            final(self)@ == old(self)@.advanced(),
            final(self)@.wf(),
    {
        self.carrier.advance();
        self.freq_lfo.advance();
        self.amp_lfo.advance();
        self.pan_lfo.advance();
    }

    /// The carrier oscillator.
    pub fn carrier(&self) -> (o: &Sine)
        ensures
            o@ == self@.carrier,
    {
        &self.carrier
    }

    /// The frequency LFO.
    pub fn freq_lfo(&self) -> (o: &Sine)
        ensures
            o@ == self@.freq_lfo,
    {
        &self.freq_lfo
    }

    /// The amplitude LFO.
    pub fn amp_lfo(&self) -> (o: &Sine)
        ensures
            o@ == self@.amp_lfo,
    {
        &self.amp_lfo
    }

    /// The pan LFO.
    pub fn pan_lfo(&self) -> (o: &Sine)
        ensures
            o@ == self@.pan_lfo,
    {
        &self.pan_lfo
    }
}

} // verus!
