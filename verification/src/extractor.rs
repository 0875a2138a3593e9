//! The spectral extractor: it collects samples into a window and, once per
//! full window, takes in the magnitudes that the frequency transform gave
//! for it.
//!
//! The transform itself is floating-point work and happens outside. The
//! extractor decides when it is due, hands out the window, accepts the
//! result only then, and says which magnitude is reported with each sample.

use vstd::prelude::*;
use crate::spectrum::{reported_index, zero_bins, SpectralFrame, BIN_COUNT};
use crate::window::{zero_samples, SampleBuffer, SAMPLE_COUNT};

verus! {

/// What became of a sample that was offered to the extractor.
#[derive(Clone, Copy, Debug, PartialEq, Eq)]
pub enum Recorded {
    /// The sample was stored and the cursor moved on. The value is the
    /// magnitude to report with it.
    Reported(u32),
    /// The sample was stored in the last slot: the window is full and its
    /// transform is due. The cursor stays until the magnitudes arrive.
    TransformDue,
    /// A transform is still due; the sample was not stored.
    Busy,
}

/// The extractor as a mathematical value.
pub struct ExtractorModel {
    pub samples: Seq<u32>,
    pub cursor: nat,
    pub frame: Seq<u32>,
    pub transform_due: bool,
}

impl ExtractorModel {
    /// The state at startup: everything zero, nothing due.
    pub open spec fn initial() -> Self {
        ExtractorModel {
            samples: zero_samples(),
            cursor: 0,
            frame: zero_bins(),
            transform_due: false,
        }
    }

    /// The shape every reachable state has.
    pub open spec fn wf(self) -> bool {
        &&& self.samples.len() == SAMPLE_COUNT
        &&& self.frame.len() == BIN_COUNT
        &&& self.cursor < SAMPLE_COUNT
        &&& self.transform_due ==> self.cursor == SAMPLE_COUNT - 1
    }

    /// The state after `sample` was offered.
    pub open spec fn record(self, sample: u32) -> Self {
        if self.transform_due {
            self
        } else if self.cursor == SAMPLE_COUNT - 1 {
            ExtractorModel {
                samples: self.samples.update(self.cursor as int, sample),
                transform_due: true,
                ..self
            }
        } else {
            ExtractorModel {
                samples: self.samples.update(self.cursor as int, sample),
                cursor: self.cursor + 1,
                ..self
            }
        }
    }

    /// The answer to offering a sample in this state.
    pub open spec fn recorded(self) -> Recorded {
        if self.transform_due {
            Recorded::Busy
        } else if self.cursor == SAMPLE_COUNT - 1 {
            Recorded::TransformDue
        } else {
            Recorded::Reported(self.frame[reported_index(self.cursor) as int])
        }
    }

    /// Whether magnitudes offered in this state are taken in.
    pub open spec fn accepts(self, magnitudes: Seq<u32>) -> bool {
        self.transform_due && magnitudes.len() == BIN_COUNT
    }

    /// The state after `magnitudes` were offered.
    pub open spec fn complete(self, magnitudes: Seq<u32>) -> Self {
        if self.accepts(magnitudes) {
            ExtractorModel { frame: magnitudes, cursor: 0, transform_due: false, ..self }
        } else {
            self
        }
    }

    /// The answer to offering `magnitudes` in this state.
    pub open spec fn completed(self, magnitudes: Seq<u32>) -> Option<u32> {
        if self.accepts(magnitudes) {
            Some(magnitudes[reported_index(self.cursor) as int])
        } else {
            None
        }
    }
}

/// Sample buffer and spectral frame, kept in step.
pub struct SpectralExtractor {
    buffer: SampleBuffer,
    frame: SpectralFrame,
    transform_due: bool,
}

impl SpectralExtractor {
    #[verifier::type_invariant]
    spec fn due_only_on_last_slot(self) -> bool {
        self.transform_due ==> self.buffer.position() == SAMPLE_COUNT - 1
    }

    /// The extractor's state as a mathematical value.
    pub closed spec fn model(self) -> ExtractorModel {
        ExtractorModel {
            samples: self.buffer.contents(),
            cursor: self.buffer.position(),
            frame: self.frame.values(),
            transform_due: self.transform_due,
        }
    }

    /// An extractor with a zeroed window and a zeroed frame.
    pub fn new() -> (extractor: Self)
        ensures
            extractor.model() == ExtractorModel::initial(),
    {
        SpectralExtractor {
            buffer: SampleBuffer::new(),
            frame: SpectralFrame::new(),
            transform_due: false,
        }
    }

    /// The write cursor.
    pub fn cursor(&self) -> (cursor: usize)
        ensures
            cursor == self.model().cursor,
            cursor < SAMPLE_COUNT,
            self.model().wf(),
    {
        proof {
            use_type_invariant(self);
            self.buffer.lemma_contents_len();
            self.frame.lemma_values_len();
        }
        self.buffer.cursor()
    }

    /// Whether a full window waits for its magnitudes.
    pub fn transform_due(&self) -> (due: bool)
        ensures
            due == self.model().transform_due,
    {
        self.transform_due
    }

    /// The window, slot by slot: what the transform runs over when it is
    /// due.
    pub fn window(&self) -> (window: &[u32; SAMPLE_COUNT])
        ensures
            window@ == self.model().samples,
    {
        self.buffer.samples()
    }

    /// The current frame of magnitudes. It is stale between transforms.
    pub fn frame(&self) -> (frame: &SpectralFrame)
        ensures
            frame.values() == self.model().frame,
    {
        &self.frame
    }

    /// Offers one sample.
    ///
    /// While no transform is due the sample is stored under the cursor. If
    /// that filled the window, the transform becomes due and the cursor
    /// waits on the last slot; otherwise the cursor moves on and the
    /// magnitude for the slot just written is returned.
    pub fn record(&mut self, sample: u32) -> (outcome: Recorded)
        ensures
            final(self).model() == old(self).model().record(sample),
            outcome == old(self).model().recorded(),
            final(self).model().wf(),
    {
        proof {
            use_type_invariant(&*self);
            self.buffer.lemma_contents_len();
            self.frame.lemma_values_len();
        }
        let at: usize = self.buffer.cursor();
        if self.transform_due {
            return Recorded::Busy;
        }
        self.buffer.store(sample);
        if at == SAMPLE_COUNT - 1 {
            self.transform_due = true;
            Recorded::TransformDue
        } else {
            let value: u32 = self.frame.reported(at);
            self.buffer.advance();
            Recorded::Reported(value)
        }
    }

    /// Offers the magnitudes of the full window.
    ///
    /// They are taken in only while a transform is due: the frame is then
    /// replaced as a whole, the cursor wraps to the first slot, and the
    /// magnitude for the last slot is returned. Otherwise nothing changes.
    pub fn complete(&mut self, magnitudes: [u32; BIN_COUNT]) -> (value: Option<u32>)
        ensures
            final(self).model() == old(self).model().complete(magnitudes@),
            value == old(self).model().completed(magnitudes@),
            final(self).model().wf(),
    {
        proof {
            use_type_invariant(&*self);
            self.buffer.lemma_contents_len();
            self.frame.lemma_values_len();
        }
        let at: usize = self.buffer.cursor();
        if !self.transform_due {
            return None;
        }
        self.frame.overwrite(magnitudes);
        let value: u32 = self.frame.reported(at);
        self.transform_due = false;
        self.buffer.advance();
        Some(value)
    }
}

/// One thing that can be offered to an extractor.
pub enum ExtractorInput {
    Sample(u32),
    Magnitudes(Seq<u32>),
}

impl ExtractorModel {
    /// The state after one input.
    pub open spec fn apply(self, input: ExtractorInput) -> Self {
        match input {
            ExtractorInput::Sample(sample) => self.record(sample),
            ExtractorInput::Magnitudes(magnitudes) => self.complete(magnitudes),
        }
    }

    /// Whether the input is a sample that this state stores.
    pub open spec fn stores(self, input: ExtractorInput) -> bool {
        input is Sample && !self.transform_due
    }

    /// Whether the input is a set of magnitudes that this state takes in.
    pub open spec fn recomputes(self, input: ExtractorInput) -> bool {
        input matches ExtractorInput::Magnitudes(magnitudes) && self.accepts(magnitudes)
    }
}

/// The state that a fresh extractor reaches through `inputs`.
pub open spec fn replay(inputs: Seq<ExtractorInput>) -> ExtractorModel
    decreases inputs.len(),
{
    if inputs.len() == 0 {
        ExtractorModel::initial()
    } else {
        replay(inputs.drop_last()).apply(inputs.last())
    }
}

/// How many samples a fresh extractor stores on the way through `inputs`.
pub open spec fn insertions(inputs: Seq<ExtractorInput>) -> nat
    decreases inputs.len(),
{
    if inputs.len() == 0 {
        0
    } else if replay(inputs.drop_last()).stores(inputs.last()) {
        insertions(inputs.drop_last()) + 1
    } else {
        insertions(inputs.drop_last())
    }
}

/// How often a fresh extractor replaces its frame on the way through
/// `inputs`.
pub open spec fn recomputations(inputs: Seq<ExtractorInput>) -> nat
    decreases inputs.len(),
{
    if inputs.len() == 0 {
        0
    } else if replay(inputs.drop_last()).recomputes(inputs.last()) {
        recomputations(inputs.drop_last()) + 1
    } else {
        recomputations(inputs.drop_last())
    }
}

/// The frame after `inputs`: the magnitudes taken in last, or zeros while
/// none were.
pub open spec fn latest_frame(inputs: Seq<ExtractorInput>) -> Seq<u32>
    decreases inputs.len(),
{
    if inputs.len() == 0 {
        zero_bins()
    } else if replay(inputs.drop_last()).recomputes(inputs.last()) {
        inputs.last()->Magnitudes_0
    } else {
        latest_frame(inputs.drop_last())
    }
}

/// Whatever is offered to an extractor, and in whatever order, the cursor
/// stays inside the window and the frame is replaced once for every
/// `SAMPLE_COUNT` samples stored: while a transform is due the count of
/// replacements is one behind, and the next sample is stored only after it
/// has caught up. The frame is always the whole of the magnitudes taken in
/// last.
pub proof fn lemma_one_recomputation_per_window(inputs: Seq<ExtractorInput>)
    ensures
        replay(inputs).wf(),
        replay(inputs).frame == latest_frame(inputs),
        !replay(inputs).transform_due ==> {
            &&& replay(inputs).cursor == insertions(inputs) % (SAMPLE_COUNT as nat)
            &&& recomputations(inputs) == insertions(inputs) / (SAMPLE_COUNT as nat)
        },
        replay(inputs).transform_due ==> {
            &&& insertions(inputs) > 0
            &&& insertions(inputs) % (SAMPLE_COUNT as nat) == 0
            &&& recomputations(inputs) + 1 == insertions(inputs) / (SAMPLE_COUNT as nat)
        },
    decreases inputs.len(),
{
    if inputs.len() > 0 {
        let before = inputs.drop_last();
        lemma_one_recomputation_per_window(before);
        let n = insertions(before);
        let size = SAMPLE_COUNT as nat;
        let state = replay(before);
        if state.stores(inputs.last()) {
            if state.cursor == SAMPLE_COUNT - 1 {
                assert((n + 1) % size == 0 && (n + 1) / size == n / size + 1) by {
                    assert(n % size == size - 1);
                }
            } else {
                assert((n + 1) % size == n % size + 1 && (n + 1) / size == n / size) by {
                    assert(n % size < size - 1);
                }
            }
        }
    }
}

} // verus!
