//! Fixed-size circular delay line.
//!
//! The buffer length is fixed at construction (twice the requested frame
//! count, because both interleaved stereo channels share one physical
//! line). `read` returns the slot the write index points at, which is the
//! oldest sample in the ring; `advance` overwrites that slot and moves
//! the index forward, so a value written now comes back after exactly
//! buffer-length advances.

use vstd::prelude::*;
use vstd::arithmetic::div_mod::*;

verus! {

/// Mathematical state of a [`Delay`] line.
pub ghost struct DelayModel {
    pub buffer: Seq<i64>,
    pub index: int,
}

impl DelayModel {
    /// Well-formedness: the ring is nonempty and the write index is a
    /// valid slot.
    pub open spec fn wf(self) -> bool {
        &&& self.buffer.len() >= 1
        &&& 0 <= self.index < self.buffer.len()
    }

    /// The value a `read` returns: the oldest sample, about to be
    /// overwritten.
    pub open spec fn reading(self) -> i64 {
        self.buffer[self.index]
    }

    /// One `advance` step: store `input` at the write index, then move
    /// the index forward by one slot, wrapping.
    pub open spec fn advanced(self, input: i64) -> DelayModel {
        DelayModel {
            buffer: self.buffer.update(self.index, input),
            index: (self.index + 1) % (self.buffer.len() as int),
        }
    }

    /// Successive `advance` steps with each value of `inputs` in order.
    pub open spec fn advanced_seq(self, inputs: Seq<i64>) -> DelayModel
        decreases inputs.len(),
    {
        if inputs.len() == 0 {
            self
        } else {
            self.advanced_seq(inputs.drop_last()).advanced(inputs.last())
        }
    }
}

/// Two ring slots less than one lap apart are distinct.
proof fn lemma_wrapped_slots_distinct(a: int, b: int, len: int)
    requires
        0 < len,
        0 < b - a < len,
    ensures
        a % len != b % len,
{
    lemma_fundamental_div_mod(a, len);
    lemma_fundamental_div_mod(b, len);
    lemma_mod_bound(a, len);
    lemma_mod_bound(b, len);
    assert(a % len != b % len) by (nonlinear_arith)
        requires
            a == len * (a / len) + a % len,
            b == len * (b / len) + b % len,
            0 <= a % len < len,
            0 <= b % len < len,
            0 < b - a < len,
    ;
}

/// Running at most one lap of inputs through the ring writes them into
/// consecutive wrapped slots and moves the index past them.
proof fn lemma_run_ring(m: DelayModel, inputs: Seq<i64>)
    requires
        m.wf(),
        inputs.len() <= m.buffer.len(),
    ensures
        ({
            let r = m.advanced_seq(inputs);
            let len = m.buffer.len() as int;
            &&& r.wf()
            &&& r.buffer.len() == len
            &&& r.index == (m.index + inputs.len()) % len
            &&& forall|j: int|
                0 <= j < inputs.len() ==> #[trigger] r.buffer[(m.index + j) % len] == inputs[j]
        }),
    decreases inputs.len(),
{
    let len = m.buffer.len() as int;
    if inputs.len() == 0 {
        lemma_small_mod(m.index as nat, m.buffer.len() as nat);
    } else {
        let k = inputs.len() as int;
        let front = inputs.drop_last();
        lemma_run_ring(m, front);
        let prev = m.advanced_seq(front);
        let r = m.advanced_seq(inputs);
        lemma_mod_bound(m.index + k - 1, len);
        lemma_add_mod_noop_right(1, m.index + k - 1, len);
        assert(r.index == (m.index + k) % len);
        assert forall|j: int| 0 <= j < k implies #[trigger] r.buffer[(m.index + j) % len]
            == inputs[j] by {
            if j < k - 1 {
                lemma_wrapped_slots_distinct(m.index + j, m.index + k - 1, len);
                lemma_mod_bound(m.index + j, len);
            }
        }
    }
}

/// Law: the ring is a fixed-length delay. After writing exactly
/// capacity-many values, the next read returns the first value written.
pub proof fn lemma_full_cycle_reads_first(m: DelayModel, inputs: Seq<i64>)
    requires
        m.wf(),
        inputs.len() == m.buffer.len(),
    ensures
        m.advanced_seq(inputs).reading() == inputs[0],
{
    let len = m.buffer.len() as int;
    lemma_run_ring(m, inputs);
    lemma_mod_multiples_vanish(1, m.index, len);
    lemma_small_mod(m.index as nat, m.buffer.len() as nat);
    assert(len * 1 + m.index == m.index + len);
    assert(m.advanced_seq(inputs).index == m.index);
    assert(m.advanced_seq(inputs).buffer[(m.index + 0) % len] == inputs[0]);
}

/// Fixed-size circular buffer of Q16.16 samples.
pub struct Delay {
    buffer: Vec<i64>,
    index: usize,
}

impl View for Delay {
    type V = DelayModel;

    closed spec fn view(&self) -> DelayModel {
        DelayModel { buffer: self.buffer@, index: self.index as int }
    }
}

impl Delay {
    /// Allocates a zero-filled ring of `2 * size` slots (both stereo
    /// channels share the line, so the effective delay per channel is
    /// `size` frames) with the write index at slot zero.
    pub fn new(size: usize) -> (d: Delay)
        requires
            1 <= size <= 0x7fff_ffff,
        ensures
            d@.wf(),
            d@.index == 0,
            d@.buffer.len() == 2 * size,
            forall|i: int| 0 <= i < d@.buffer.len() ==> d@.buffer[i] == 0i64,
    {
        let stereo_size: usize = 2 * size;
        let mut buffer: Vec<i64> = Vec::with_capacity(stereo_size);
        let mut i: usize = 0;
        while i < stereo_size
            invariant
                i <= stereo_size,
                buffer@.len() == i,
                forall|j: int| 0 <= j < i ==> buffer@[j] == 0i64,
            decreases stereo_size - i,
        {
            buffer.push(0);
            i = i + 1;
        }
        Delay { buffer, index: 0 }
    }

    /// The oldest sample in the ring: the slot the write index points
    /// at, read before it is overwritten.
    pub fn read(&self) -> (s: i64)
        requires
            self@.wf(),
        ensures
            s == self@.reading(),
    {
        self.buffer[self.index]
    }

    /// Stores `input` at the write index, then advances the index by one
    /// slot, wrapping at the end of the ring.
    pub fn advance(&mut self, input: i64)
        requires
            old(self)@.wf(),
        ensures
            final(self)@ == old(self)@.advanced(input),
            final(self)@.wf(),
    {
        let len: usize = self.buffer.len();
        self.buffer[self.index] = input;
        self.index = (self.index + 1) % len;
    }

    /// Capacity of the ring, fixed at construction.
    pub fn len(&self) -> (n: usize)
        ensures
            n == self@.buffer.len(),
    {
        self.buffer.len()
    }

    /// The current write position.
    pub fn index(&self) -> (i: usize)
        ensures
            i == self@.index,
    {
        self.index
    }
}

} // verus!
