//! The circular buffer that collects one window of samples.
//!
//! A sample is the IEEE-754 single-precision bit pattern of the scalar
//! feature that was measured; the buffer never looks inside it.

use vstd::prelude::*;

verus! {

/// Number of samples in one spectral window.
pub const SAMPLE_COUNT: usize = 512;

/// A window's worth of zero samples.
pub open spec fn zero_samples() -> Seq<u32> {
    Seq::new(SAMPLE_COUNT as nat, |i: int| 0u32)
}

/// Fixed-capacity ring of samples with a write cursor.
pub struct SampleBuffer {
    slots: [u32; SAMPLE_COUNT],
    cursor: usize,
}

impl SampleBuffer {
    #[verifier::type_invariant]
    spec fn cursor_in_range(self) -> bool {
        self.cursor < SAMPLE_COUNT
    }

    /// The stored samples, slot by slot.
    pub closed spec fn contents(self) -> Seq<u32> {
        self.slots@
    }

    /// The slot that the next sample is written to.
    pub closed spec fn position(self) -> nat {
        self.cursor as nat
    }

    /// The buffer always holds exactly one window.
    pub proof fn lemma_contents_len(self)
        ensures
            self.contents().len() == SAMPLE_COUNT,
    {
    }

    /// An all-zero buffer with the cursor on the first slot.
    pub fn new() -> (buffer: Self)
        ensures
            buffer.contents() == zero_samples(),
            buffer.position() == 0,
    {
        let buffer = SampleBuffer { slots: [0u32; SAMPLE_COUNT], cursor: 0 };
        assert(buffer.slots@ =~= zero_samples());
        buffer
    }

    /// The write cursor; it never leaves the window.
    pub fn cursor(&self) -> (cursor: usize)
        ensures
            cursor == self.position(),
            cursor < SAMPLE_COUNT,
    {
        proof {
            use_type_invariant(self);
        }
        self.cursor
    }

    /// Whether the cursor stands on the last slot of the window.
    pub fn on_last_slot(&self) -> (last: bool)
        ensures
            last == (self.position() == SAMPLE_COUNT - 1),
    {
        self.cursor == SAMPLE_COUNT - 1
    }

    /// Writes `sample` to the slot under the cursor and leaves the cursor
    /// where it is.
    pub fn store(&mut self, sample: u32)
        ensures
            final(self).contents() == old(self).contents().update(
                old(self).position() as int,
                sample,
            ),
            final(self).position() == old(self).position(),
        no_unwind
    {
        proof {
            use_type_invariant(&*self);
        }
        let at: usize = self.cursor;
        self.slots[at] = sample;
    }

    /// Moves the cursor one slot on, back to the first slot after the last.
    /// Says whether it wrapped.
    pub fn advance(&mut self) -> (wrapped: bool)
        ensures
            final(self).contents() == old(self).contents(),
            final(self).position() == (old(self).position() + 1) % (SAMPLE_COUNT as nat),
            wrapped == (old(self).position() == SAMPLE_COUNT - 1),
        no_unwind
    {
        proof {
            use_type_invariant(&*self);
        }
        let next: usize = (self.cursor + 1) % SAMPLE_COUNT;
        self.cursor = next;
        next == 0
    }

    /// The whole window, slot by slot.
    pub fn samples(&self) -> (window: &[u32; SAMPLE_COUNT])
        ensures
            window@ == self.contents(),
    {
        &self.slots
    }
}

} // verus!
