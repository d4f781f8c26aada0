//! The synthesis engine: two voices, one shared delay line, and the
//! stereo channel cursor.
//!
//! Each call of [`Synth::generate`] produces one interleaved sample. The
//! cursor alternates 0,1,0,1,... across calls; all eight oscillators
//! advance exactly once per completed frame, after the right channel of
//! the frame has been produced, so both channels of one frame read the
//! same modulator values. The dry voice sum is written into the delay
//! line every sample, and the output mixes six parts dry with four parts
//! of the line's oldest sample.

use vstd::prelude::*;
use vstd::arithmetic::div_mod::*;

use crate::delay::{Delay, DelayModel};
use crate::math;
use crate::math::ONE;
use crate::voice::{voice_built, Voice, VoiceConfig, VoiceModel};

verus! {

/// Dry share of the final mix: 0.6 in Q16.16 (`DRY_GAIN + WET_GAIN == ONE`).
pub const DRY_GAIN: i64 = 39322;

/// Wet (delayed) share of the final mix: 0.4 in Q16.16.
pub const WET_GAIN: i64 = 26214;

/// Frames of delay in the default configuration: 2.2 seconds at the
/// fixed sample rate.
pub const DELAY_FRAMES: usize = 97020;

/// Default configuration of the first voice: a 140 Hz carrier, its
/// frequency swept over `[140 / 1.07, 140 * 1.07]` at about 6.33 Hz, the
/// amplitude over `[0.1, 0.5]` at about 2.11 Hz, and the pan over half
/// the stereo field at about 0.21 Hz starting a quarter turn in.
pub open spec fn default_voice_one() -> VoiceConfig {
    VoiceConfig {
        base_frequency: 9175040,
        depth_ratio: 70124,
        carrier_phase: 0,
        freq_lfo_rate: 414843,
        freq_lfo_phase: 0,
        amp_lfo_rate: 138281,
        amp_lfo_phase: 0,
        amp_floor: 6554,
        amp_ceil: 32768,
        pan_lfo_rate: 13763,
        pan_lfo_phase: 102944,
        pan_scale: 32768,
    }
}

/// Default configuration of the second voice: a 210 Hz carrier (a fifth
/// above the first) starting half a turn out of phase, with independent
/// LFO rates and a slightly wider pan sweep.
pub open spec fn default_voice_two() -> VoiceConfig {
    VoiceConfig {
        base_frequency: 13762560,
        depth_ratio: 70124,
        carrier_phase: 205888,
        freq_lfo_rate: 401080,
        freq_lfo_phase: 137121,
        amp_lfo_rate: 150733,
        amp_lfo_phase: 205888,
        amp_floor: 6554,
        amp_ceil: 32768,
        pan_lfo_rate: 11141,
        pan_lfo_phase: 0,
        pan_scale: 39322,
    }
}

/// The default configuration of the first voice, as a value.
pub fn voice_one_config() -> (c: VoiceConfig)
    ensures
        c == default_voice_one(),
        c.wf(),
{
    VoiceConfig {
        base_frequency: 9175040,
        depth_ratio: 70124,
        carrier_phase: 0,
        freq_lfo_rate: 414843,
        freq_lfo_phase: 0,
        amp_lfo_rate: 138281,
        amp_lfo_phase: 0,
        amp_floor: 6554,
        amp_ceil: 32768,
        pan_lfo_rate: 13763,
        pan_lfo_phase: 102944,
        pan_scale: 32768,
    }
}

/// The default configuration of the second voice, as a value.
pub fn voice_two_config() -> (c: VoiceConfig)
    ensures
        c == default_voice_two(),
        c.wf(),
{
    VoiceConfig {
        base_frequency: 13762560,
        depth_ratio: 70124,
        carrier_phase: 205888,
        freq_lfo_rate: 401080,
        freq_lfo_phase: 137121,
        amp_lfo_rate: 150733,
        amp_lfo_phase: 205888,
        amp_floor: 6554,
        amp_ceil: 32768,
        pan_lfo_rate: 11141,
        pan_lfo_phase: 0,
        pan_scale: 39322,
    }
}

/// Mathematical state of the [`Synth`] engine.
pub ghost struct SynthModel {
    pub voice1: VoiceModel,
    pub voice2: VoiceModel,
    pub delay: DelayModel,
    pub channel: int,
}

impl SynthModel {
    /// Well-formedness: both voices and the ring are well formed, the
    /// cursor is a channel index, and every stored sample is a bounded
    /// dry sum.
    pub open spec fn wf(self) -> bool {
        &&& self.voice1.wf()
        &&& self.voice2.wf()
        &&& self.delay.wf()
        &&& 0 <= self.channel <= 1
        &&& forall|i: int|
            0 <= i < self.delay.buffer.len() ==> -2 * ONE <= #[trigger] self.delay.buffer[i]
                <= 2 * ONE
    }

    /// The undelayed signal: the two voice outputs for the current
    /// channel, summed.
    pub open spec fn dry_value(self) -> int {
        self.voice1.output_value(self.channel) + self.voice2.output_value(self.channel)
    }

    /// The delayed signal: the oldest sample in the ring.
    pub open spec fn wet_value(self) -> int {
        self.delay.reading() as int
    }

    /// The produced sample: `0.6 * dry + 0.4 * wet` in Q16.16.
    pub open spec fn sample_value(self) -> int {
        (DRY_GAIN * self.dry_value() + WET_GAIN * self.wet_value()) / (ONE as int)
    }

    /// The state after producing one sample: carriers retuned, cursor
    /// flipped, all oscillators advanced when a frame just completed,
    /// and the dry sum written into the ring.
    pub open spec fn stepped(self) -> SynthModel {
        let dry = self.dry_value();
        let v1 = self.voice1.after_sample();
        let v2 = self.voice2.after_sample();
        let ch = if self.channel == 0 {
            1int
        } else {
            0int
        };
        SynthModel {
            voice1: if ch == 0 {
                v1.advanced()
            } else {
                v1
            },
            voice2: if ch == 0 {
                v2.advanced()
            } else {
                v2
            },
            delay: self.delay.advanced(dry as i64),
            channel: ch,
        }
    }

    /// `n` produced samples in sequence.
    pub open spec fn stepped_times(self, n: nat) -> SynthModel
        decreases n,
    {
        if n == 0 {
            self
        } else {
            self.stepped_times((n - 1) as nat).stepped()
        }
    }
}

/// The synthesis engine.
pub struct Synth {
    voice1: Voice,
    voice2: Voice,
    delay: Delay,
    channel: u32,
}

impl View for Synth {
    type V = SynthModel;

    closed spec fn view(&self) -> SynthModel {
        SynthModel {
            voice1: self.voice1@,
            voice2: self.voice2@,
            delay: self.delay@,
            channel: self.channel as int,
        }
    }
}

impl Synth {
    /// Builds the engine in its default musical configuration: the two
    /// default voices, a zeroed 2.2-second delay line, and the cursor on
    /// the left channel.
    pub fn new() -> (s: Synth)
        ensures
            s@.wf(),
            s@.channel == 0,
            s@.voice1 == voice_built(default_voice_one()),
            s@.voice2 == voice_built(default_voice_two()),
            s@.delay.index == 0,
            s@.delay.buffer.len() == 2 * DELAY_FRAMES,
            forall|i: int| 0 <= i < s@.delay.buffer.len() ==> s@.delay.buffer[i] == 0i64,
    {
        Synth {
            voice1: Voice::new(voice_one_config()),
            voice2: Voice::new(voice_two_config()),
            delay: Delay::new(DELAY_FRAMES),
            channel: 0,
        }
    }

    /// Builds an engine from explicit voice configurations and a delay
    /// length in frames.
    pub fn with_config(cfg1: VoiceConfig, cfg2: VoiceConfig, delay_frames: usize) -> (s: Synth)
        requires
            cfg1.wf(),
            cfg2.wf(),
            1 <= delay_frames <= 0x7fff_ffff,
        ensures
            s@.wf(),
            s@.channel == 0,
            s@.voice1 == voice_built(cfg1),
            s@.voice2 == voice_built(cfg2),
            s@.delay.index == 0,
            s@.delay.buffer.len() == 2 * delay_frames,
            forall|i: int| 0 <= i < s@.delay.buffer.len() ==> s@.delay.buffer[i] == 0i64,
    {
        Synth {
            voice1: Voice::new(cfg1),
            voice2: Voice::new(cfg2),
            delay: Delay::new(delay_frames),
            channel: 0,
        }
    }

    /// Produces one sample for the current channel and steps the engine:
    /// compute both voices, read the ring's oldest sample, mix, flip the
    /// cursor, advance every oscillator when a frame just completed, and
    /// write the dry sum into the ring.
    pub fn generate(&mut self) -> (sample: i64)
        requires
            old(self)@.wf(),
        ensures
            sample == old(self)@.sample_value(),
            final(self)@ == old(self)@.stepped(),
            final(self)@.wf(),
            -2 * ONE <= sample <= 2 * ONE,
    {
        let ch: u32 = self.channel;
        let out1: i64 = self.voice1.sample(ch);
        let out2: i64 = self.voice2.sample(ch);
        let dry: i64 = out1 + out2;
        let wet: i64 = self.delay.read();
        proof {
            lemma_div_is_ordered(
                DRY_GAIN * dry + WET_GAIN * wet,
                65536int * 131072,
                ONE as int,
            );
            lemma_div_is_ordered(
                65536int * (-131072),
                DRY_GAIN * dry + WET_GAIN * wet,
                ONE as int,
            );
            lemma_div_multiples_vanish(131072int, ONE as int);
            lemma_div_multiples_vanish(-131072int, ONE as int);
        }
        let mix: i64 = DRY_GAIN * dry + WET_GAIN * wet;
        let sample: i64 = math::div_euclid_i64(mix, ONE);
        self.channel = if self.channel == 0 {
            1
        } else {
            0
        };
        if self.channel == 0 {
            self.voice1.advance_oscillators();
            self.voice2.advance_oscillators();
        }
        self.delay.advance(dry);
        sample
    }

    /// Fills a buffer with `count` successive samples.
    pub fn generate_buffer(&mut self, count: usize) -> (out: Vec<i64>)
        requires
            old(self)@.wf(),
        ensures
            out@.len() == count,
            forall|i: int|
                0 <= i < count ==> out@[i] == old(self)@.stepped_times(i as nat).sample_value(),
            final(self)@ == old(self)@.stepped_times(count as nat),
            final(self)@.wf(),
    {
        let ghost start: SynthModel = self@;
        let mut out: Vec<i64> = Vec::with_capacity(count);
        let mut i: usize = 0;
        while i < count
            invariant
                i <= count,
                out@.len() == i,
                self@ == start.stepped_times(i as nat),
                self@.wf(),
                forall|j: int| 0 <= j < i ==> out@[j] == start.stepped_times(j as nat).sample_value(),
            decreases count - i,
        {
            proof {
                assert(start.stepped_times((i + 1) as nat) == start.stepped_times(
                    i as nat,
                ).stepped());
            }
            let s: i64 = self.generate();
            out.push(s);
            i = i + 1;
        }
        out
    }

    /// The current channel cursor: 0 before a left sample, 1 before a
    /// right sample.
    pub fn channel(&self) -> (c: u32)
        ensures
            c == self@.channel,
    {
        self.channel
    }

    /// The first voice.
    pub fn voice1(&self) -> (v: &Voice)
        ensures
            v@ == self@.voice1,
    {
        &self.voice1
    }

    /// The second voice.
    pub fn voice2(&self) -> (v: &Voice)
        ensures
            v@ == self@.voice2,
    {
        &self.voice2
    }

    /// The delay line.
    pub fn delay(&self) -> (d: &Delay)
        ensures
            d@ == self@.delay,
    {
        &self.delay
    }
}

/// Law: starting from any state, the channel cursor alternates:
/// after `n` samples it sits on `(channel + n) mod 2`.
pub proof fn lemma_channel_alternation(m: SynthModel, n: nat)
    requires
        m.wf(),
    ensures
        m.stepped_times(n).channel == (m.channel + n) % 2,
    decreases n,
{
    if n == 0 {
        if m.channel == 0 {
            lemma_small_mod(0, 2);
        } else {
            lemma_small_mod(1, 2);
        }
    } else {
        lemma_channel_alternation(m, (n - 1) as nat);
        let prev = m.stepped_times((n - 1) as nat);
        lemma_add_mod_noop_right(1, m.channel + (n - 1), 2);
        lemma_mod_bound(m.channel + (n - 1), 2);
        if (m.channel + (n - 1)) % 2 == 0 {
            lemma_small_mod(1, 2);
        } else {
            lemma_mod_self_0(2);
            assert((1int + 1) % 2int == 0);
        }
    }
}

/// Law: every low-frequency oscillator advances exactly once per
/// completed stereo frame: starting on the left channel, after `2 * k`
/// samples each LFO's state is exactly `k` advance steps from where it
/// began.
pub proof fn lemma_lfo_frame_rate(m: SynthModel, k: nat)
    requires
        m.wf(),
        m.channel == 0,
    ensures
        m.stepped_times(2 * k).voice1.freq_lfo == m.voice1.freq_lfo.advanced_times(k),
        m.stepped_times(2 * k).voice1.amp_lfo == m.voice1.amp_lfo.advanced_times(k),
        m.stepped_times(2 * k).voice1.pan_lfo == m.voice1.pan_lfo.advanced_times(k),
        m.stepped_times(2 * k).voice2.freq_lfo == m.voice2.freq_lfo.advanced_times(k),
        m.stepped_times(2 * k).voice2.amp_lfo == m.voice2.amp_lfo.advanced_times(k),
        m.stepped_times(2 * k).voice2.pan_lfo == m.voice2.pan_lfo.advanced_times(k),
        m.stepped_times(2 * k).channel == 0,
    decreases k,
{
    lemma_channel_alternation(m, 2 * k);
    lemma_mod_multiples_basic(k as int, 2);
    assert(2 * (k as int) == (k as int) * 2);
    if k == 0 {
    } else {
        lemma_lfo_frame_rate(m, (k - 1) as nat);
        assert(2 * k == 2 * (k - 1) + 2);
        let even = m.stepped_times((2 * (k - 1)) as nat);
        assert(m.stepped_times((2 * (k - 1) + 1) as nat) == even.stepped());
        assert(m.stepped_times(2 * k) == even.stepped().stepped());
    }
}

/// Law: the wet path is silent until the ring has been filled once.
/// Starting from a zeroed delay line with its index at slot zero, each
/// of the first buffer-length samples reads a wet value of zero, so the
/// output mixes the dry signal alone.
pub proof fn lemma_delay_tail_silent(m: SynthModel, i: nat)
    requires
        m.wf(),
        m.delay.index == 0,
        forall|j: int| 0 <= j < m.delay.buffer.len() ==> m.delay.buffer[j] == 0i64,
        i < m.delay.buffer.len(),
    ensures
        m.stepped_times(i).wet_value() == 0,
        m.stepped_times(i).sample_value() == DRY_GAIN * m.stepped_times(i).dry_value() / (
        ONE as int),
{
    lemma_ring_prefix(m, i);
}

/// Running fewer samples than the ring holds leaves the index at the
/// sample count and every slot from there on still zero.
proof fn lemma_ring_prefix(m: SynthModel, i: nat)
    requires
        m.wf(),
        m.delay.index == 0,
        forall|j: int| 0 <= j < m.delay.buffer.len() ==> m.delay.buffer[j] == 0i64,
        i < m.delay.buffer.len(),
    ensures
        m.stepped_times(i).delay.buffer.len() == m.delay.buffer.len(),
        m.stepped_times(i).delay.index == i,
        forall|j: int|
            i <= j < m.delay.buffer.len() ==> #[trigger] m.stepped_times(i).delay.buffer[j]
                == 0i64,
    decreases i,
{
    if i == 0 {
    } else {
        lemma_ring_prefix(m, (i - 1) as nat);
        let prev = m.stepped_times((i - 1) as nat);
        lemma_small_mod(i, m.delay.buffer.len());
        assert(m.stepped_times(i) == prev.stepped());
    }
}

} // verus!
