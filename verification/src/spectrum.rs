//! Frequency-domain data: the coefficients that a real-input transform
//! hands back, and the frame of magnitudes derived from them.
//!
//! Coefficients are carried as IEEE-754 single-precision bit patterns, so
//! `0` is positive zero.

use vstd::prelude::*;
use crate::window::SAMPLE_COUNT;

verus! {

/// Number of frequency bins derived from one window: half the number of
/// samples.
pub const BIN_COUNT: usize = SAMPLE_COUNT / 2;

/// The frame slot that is reported while the write cursor is at `cursor`.
pub open spec fn reported_index(cursor: nat) -> nat {
    cursor % (BIN_COUNT as nat)
}

/// A frame's worth of zero magnitudes.
pub open spec fn zero_bins() -> Seq<u32> {
    Seq::new(BIN_COUNT as nat, |i: int| 0u32)
}

/// One complex coefficient, real and imaginary part as bit patterns.
#[derive(Clone, Copy, Debug, PartialEq, Eq)]
pub struct Coefficient {
    pub re: u32,
    pub im: u32,
}

/// What the packed coefficients look like once the Nyquist value has been
/// taken out of the DC bin.
pub open spec fn unpacked(packed: Seq<Coefficient>) -> Seq<Coefficient> {
    packed.update(0, Coefficient { re: packed[0].re, im: 0 })
}

/// Whether `values` holds, bin by bin, what `magnitude` gives for the
/// coefficient of that bin.
pub open spec fn magnitudes_of<F: Fn(Coefficient) -> u32>(
    magnitude: F,
    coefficients: Seq<Coefficient>,
    values: Seq<u32>,
) -> bool {
    &&& values.len() == coefficients.len()
    &&& forall|i: int|
        0 <= i < coefficients.len() ==> call_ensures(
            magnitude,
            (coefficients[i],),
            #[trigger] values[i],
        )
}

/// The coefficients of one window with the DC bin made purely real.
///
/// A real-input transform of `2 * BIN_COUNT` samples returns `BIN_COUNT`
/// coefficients and stores the real coefficient of the Nyquist frequency in
/// the imaginary part of the DC bin. A `Spectrum` holds the two apart, so
/// that a magnitude taken from bin 0 is that of the DC component alone.
pub struct Spectrum {
    bins: [Coefficient; BIN_COUNT],
    nyquist: u32,
}

impl Spectrum {
    #[verifier::type_invariant]
    spec fn dc_is_real(self) -> bool {
        self.bins@[0].im == 0
    }

    /// The coefficients, bin by bin.
    pub closed spec fn coefficients(self) -> Seq<Coefficient> {
        self.bins@
    }

    /// The real coefficient at the Nyquist frequency.
    pub closed spec fn nyquist_value(self) -> u32 {
        self.nyquist
    }

    /// Takes the packed output of a real-input transform apart: the
    /// imaginary part of bin 0 becomes the Nyquist value and is cleared in
    /// the bin; every other coefficient is kept as it is.
    pub fn from_packed(packed: [Coefficient; BIN_COUNT]) -> (spectrum: Self)
        ensures
            spectrum.coefficients() == unpacked(packed@),
            spectrum.nyquist_value() == packed@[0].im,
            spectrum.coefficients()[0].im == 0,
    {
        let nyquist: u32 = packed[0].im;
        let dc: u32 = packed[0].re;
        let mut bins = packed;
        bins[0] = Coefficient { re: dc, im: 0 };
        Spectrum { bins, nyquist }
    }

    /// All coefficients; the imaginary part of bin 0 is zero.
    pub fn bins(&self) -> (bins: &[Coefficient; BIN_COUNT])
        ensures
            bins@ == self.coefficients(),
            bins@[0].im == 0,
    {
        proof {
            use_type_invariant(self);
        }
        &self.bins
    }

    /// The coefficient of one bin, if there is such a bin.
    pub fn bin(&self, index: usize) -> (coefficient: Option<Coefficient>)
        ensures
            index < BIN_COUNT ==> coefficient == Some(self.coefficients()[index as int]),
            index >= BIN_COUNT ==> coefficient.is_none(),
            index == 0 ==> coefficient.unwrap().im == 0,
    {
        proof {
            use_type_invariant(self);
        }
        if index < BIN_COUNT {
            Some(self.bins[index])
        } else {
            None
        }
    }

    /// Derives one magnitude per bin by calling `magnitude` on each
    /// coefficient in turn. What it is called with for bin 0 has a zero
    /// imaginary part.
    pub fn magnitudes<F: Fn(Coefficient) -> u32>(&self, magnitude: F) -> (values: [u32; BIN_COUNT])
        requires
            forall|coefficient: Coefficient| call_requires(magnitude, (coefficient,)),
        ensures
            magnitudes_of(magnitude, self.coefficients(), values@),
            self.coefficients()[0].im == 0,
    {
        proof {
            use_type_invariant(self);
        }
        let mut values = [0u32; BIN_COUNT];
        let mut at: usize = 0;
        while at < BIN_COUNT
            invariant
                at <= BIN_COUNT,
                forall|coefficient: Coefficient| call_requires(magnitude, (coefficient,)),
                forall|i: int|
                    0 <= i < at ==> call_ensures(magnitude, (self.bins@[i],), #[trigger] values@[i]),
            decreases BIN_COUNT - at,
        {
            let value: u32 = magnitude(self.bins[at]);
            values[at] = value;
            at += 1;
        }
        values
    }

    /// The real coefficient at the Nyquist frequency.
    pub fn nyquist(&self) -> (value: u32)
        ensures
            value == self.nyquist_value(),
    {
        self.nyquist
    }
}

/// The squared magnitudes of one window, one per bin.
pub struct SpectralFrame {
    bins: [u32; BIN_COUNT],
}

impl SpectralFrame {
    /// The magnitudes, bin by bin.
    pub closed spec fn values(self) -> Seq<u32> {
        self.bins@
    }

    /// A frame always has one value per bin.
    pub proof fn lemma_values_len(self)
        ensures
            self.values().len() == BIN_COUNT,
    {
    }

    /// The frame before any window has been transformed: all zero.
    pub fn new() -> (frame: Self)
        ensures
            frame.values() == zero_bins(),
    {
        let frame = SpectralFrame { bins: [0u32; BIN_COUNT] };
        assert(frame.bins@ =~= zero_bins());
        frame
    }

    /// Replaces every bin at once.
    pub fn overwrite(&mut self, magnitudes: [u32; BIN_COUNT])
        ensures
            final(self).values() == magnitudes@,
        no_unwind
    {
        self.bins = magnitudes;
    }

    /// The magnitude of one bin, if there is such a bin.
    pub fn bin(&self, index: usize) -> (value: Option<u32>)
        ensures
            index < BIN_COUNT ==> value == Some(self.values()[index as int]),
            index >= BIN_COUNT ==> value.is_none(),
    {
        if index < BIN_COUNT {
            Some(self.bins[index])
        } else {
            None
        }
    }

    /// The magnitude that is reported while the write cursor is at `cursor`.
    pub fn reported(&self, cursor: usize) -> (value: u32)
        ensures
            value == self.values()[reported_index(cursor as nat) as int],
    {
        self.bins[cursor % BIN_COUNT]
    }
}

} // verus!
