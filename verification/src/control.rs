//! The sampling loop's decisions.
//!
//! Reading the sensor, running the attitude filter and running the
//! frequency transform happen outside. Each of them ends in an event that
//! is handed to the loop, and the loop answers with what to do next. A
//! failure of the sensor or of the filter is final: the loop halts and
//! nothing is published in place of the missing reading.

use vstd::prelude::*;
use crate::extractor::{replay, ExtractorInput, ExtractorModel, Recorded, SpectralExtractor};
use crate::report::{EmitterEvent, ReportEmitter};
use crate::shared::TelemetryWriter;
use crate::spectrum::{magnitudes_of, reported_index, unpacked, Coefficient, Spectrum, BIN_COUNT};
use crate::telemetry::{Orientation, SlotAccess};
use crate::window::SAMPLE_COUNT;

verus! {

/// Why the loop halted.
#[derive(Clone, Copy, Debug, PartialEq, Eq)]
pub enum Fault {
    /// The sensor could not be read.
    SensorBus,
    /// The attitude filter could not take the reading in.
    Filter,
}

/// What happened outside since the loop's last answer.
pub enum LoopEvent {
    /// Reading the sensor failed.
    SensorFailed,
    /// The attitude filter reported a numerical fault.
    FilterFaulted,
    /// The filter gave a new orientation, and `feature` is the scalar taken
    /// from it for the spectrum.
    Estimate { orientation: Orientation, feature: u32 },
    /// The transform of the full window gave these magnitudes.
    Magnitudes([u32; BIN_COUNT]),
}

/// What the loop wants done next.
#[derive(Clone, Copy, Debug, PartialEq, Eq)]
pub enum LoopAction {
    /// Stop for good.
    Halt(Fault),
    /// Transform the window and come back with the magnitudes.
    Transform,
    /// Replace the shared telemetry with this pair, then read the sensor
    /// again.
    Publish { orientation: Orientation, bin: u32 },
    /// Nothing to publish; read the sensor again.
    Resume,
}

/// The loop as a mathematical value.
pub struct LoopModel {
    pub extractor: ExtractorModel,
    /// The orientation that waits for the magnitudes of the full window.
    pub pending: Option<Orientation>,
    pub fault: Option<Fault>,
}

impl LoopModel {
    /// The state at startup.
    pub open spec fn initial() -> Self {
        LoopModel { extractor: ExtractorModel::initial(), pending: None, fault: None }
    }

    /// The shape every reachable state has: an orientation is held back
    /// exactly while a transform is due.
    pub open spec fn wf(self) -> bool {
        &&& self.extractor.wf()
        &&& self.pending is Some <==> self.extractor.transform_due
    }

    /// The state after `event`.
    pub open spec fn next(self, event: LoopEvent) -> Self {
        if self.fault is Some {
            self
        } else {
            match event {
                LoopEvent::SensorFailed => LoopModel { fault: Some(Fault::SensorBus), ..self },
                LoopEvent::FilterFaulted => LoopModel { fault: Some(Fault::Filter), ..self },
                LoopEvent::Estimate { orientation, feature } => LoopModel {
                    extractor: self.extractor.record(feature),
                    pending: if self.extractor.recorded() is TransformDue {
                        Some(orientation)
                    } else {
                        self.pending
                    },
                    ..self
                },
                LoopEvent::Magnitudes(magnitudes) => LoopModel {
                    extractor: self.extractor.complete(magnitudes@),
                    pending: if self.extractor.accepts(magnitudes@) {
                        None
                    } else {
                        self.pending
                    },
                    ..self
                },
            }
        }
    }

    /// The answer to `event` in this state.
    pub open spec fn action(self, event: LoopEvent) -> LoopAction {
        if let Some(fault) = self.fault {
            LoopAction::Halt(fault)
        } else {
            match event {
                LoopEvent::SensorFailed => LoopAction::Halt(Fault::SensorBus),
                LoopEvent::FilterFaulted => LoopAction::Halt(Fault::Filter),
                LoopEvent::Estimate { orientation, feature } => match self.extractor.recorded() {
                    Recorded::Reported(bin) => LoopAction::Publish { orientation, bin },
                    Recorded::TransformDue => LoopAction::Transform,
                    Recorded::Busy => LoopAction::Transform,
                },
                LoopEvent::Magnitudes(magnitudes) => match (
                    self.extractor.completed(magnitudes@),
                    self.pending,
                ) {
                    (Some(bin), Some(orientation)) => LoopAction::Publish { orientation, bin },
                    _ => LoopAction::Resume,
                },
            }
        }
    }
}

/// What a writer has handed to the shared slot once `action` is carried
/// out: the pair of a `Publish` on top of what went before, and nothing new
/// for any other action.
pub open spec fn sent_after(sent: Seq<SlotAccess>, action: LoopAction) -> Seq<SlotAccess> {
    match action {
        LoopAction::Publish { orientation, bin } => sent.push(
            SlotAccess::Publish(orientation, bin),
        ),
        _ => sent,
    }
}

/// Whether `values` is what `transform` and `magnitude` make of the window
/// that `state` holds: the window is transformed, the Nyquist value is
/// taken out of the DC bin, and each bin's coefficient gives one magnitude.
pub open spec fn transformed<T, M>(
    state: LoopModel,
    transform: T,
    magnitude: M,
    values: [u32; BIN_COUNT],
) -> bool where
    T: Fn(&[u32; SAMPLE_COUNT]) -> [Coefficient; BIN_COUNT],
    M: Fn(Coefficient) -> u32,
{
    exists|window: [u32; SAMPLE_COUNT], packed: [Coefficient; BIN_COUNT]|
        {
            &&& window@ == state.extractor.samples
            &&& #[trigger] call_ensures(transform, (&window,), packed)
            &&& magnitudes_of(magnitude, unpacked(packed@), values@)
        }
}

/// The sampling loop's state: the spectral extractor, the orientation that
/// waits for a transform, and the fault that ended the loop, if any.
pub struct ControlLoop {
    extractor: SpectralExtractor,
    pending: Option<Orientation>,
    fault: Option<Fault>,
}

impl ControlLoop {
    /// The loop's state as a mathematical value.
    pub closed spec fn model(self) -> LoopModel {
        LoopModel { extractor: self.extractor.model(), pending: self.pending, fault: self.fault }
    }

    /// A loop at startup.
    pub fn new() -> (control: Self)
        ensures
            control.model() == LoopModel::initial(),
    {
        ControlLoop { extractor: SpectralExtractor::new(), pending: None, fault: None }
    }

    /// The fault that ended the loop, if one did.
    pub fn fault(&self) -> (fault: Option<Fault>)
        ensures
            fault == self.model().fault,
    {
        self.fault
    }

    /// The spectral extractor as the loop has it.
    pub fn extractor(&self) -> (extractor: &SpectralExtractor)
        ensures
            extractor.model() == self.model().extractor,
    {
        &self.extractor
    }

    /// The window to transform when the loop asks for it.
    pub fn window(&self) -> (window: &[u32; SAMPLE_COUNT])
        ensures
            window@ == self.model().extractor.samples,
    {
        self.extractor.window()
    }

    /// Takes one event in and answers with what to do next.
    pub fn step(&mut self, event: LoopEvent) -> (action: LoopAction)
        ensures
            final(self).model() == old(self).model().next(event),
            action == old(self).model().action(event),
    {
        if let Some(fault) = self.fault {
            return LoopAction::Halt(fault);
        }
        match event {
            LoopEvent::SensorFailed => {
                self.fault = Some(Fault::SensorBus);
                LoopAction::Halt(Fault::SensorBus)
            },
            LoopEvent::FilterFaulted => {
                self.fault = Some(Fault::Filter);
                LoopAction::Halt(Fault::Filter)
            },
            LoopEvent::Estimate { orientation, feature } => {
                match self.extractor.record(feature) {
                    Recorded::Reported(bin) => LoopAction::Publish { orientation, bin },
                    Recorded::TransformDue => {
                        self.pending = Some(orientation);
                        LoopAction::Transform
                    },
                    Recorded::Busy => LoopAction::Transform,
                }
            },
            LoopEvent::Magnitudes(magnitudes) => {
                match self.extractor.complete(magnitudes) {
                    Some(bin) => {
                        let held = self.pending;
                        self.pending = None;
                        match held {
                            Some(orientation) => LoopAction::Publish { orientation, bin },
                            None => LoopAction::Resume,
                        }
                    },
                    None => LoopAction::Resume,
                }
            },
        }
    }

    /// Takes one event in as `step` does and, where the answer is to
    /// publish, puts the pair into the shared slot before it returns.
    /// Nothing else goes into the slot.
    pub fn drive(&mut self, writer: &mut TelemetryWriter, event: LoopEvent) -> (action:
        LoopAction)
        ensures
            final(self).model() == old(self).model().next(event),
            action == old(self).model().action(event),
            final(writer).slot() == old(writer).slot(),
            final(writer).sent() == sent_after(old(writer).sent(), action),
    {
        let action = self.step(event);
        if let LoopAction::Publish { orientation, bin } = action {
            writer.publish(orientation, bin);
        }
        action
    }

    /// One full turn of the loop: takes the event in, and where that fills
    /// the window, has it transformed on the spot and takes the magnitudes
    /// in as well. Every pair to publish goes into the shared slot.
    ///
    /// `transform` is the frequency transform of a window, with the Nyquist
    /// value packed into the DC bin; `magnitude` gives the squared
    /// magnitude of one coefficient. The answer is never a request for a
    /// transform.
    pub fn iterate<T, M>(
        &mut self,
        writer: &mut TelemetryWriter,
        event: LoopEvent,
        transform: T,
        magnitude: M,
    ) -> (action: LoopAction) where
        T: Fn(&[u32; SAMPLE_COUNT]) -> [Coefficient; BIN_COUNT],
        M: Fn(Coefficient) -> u32,

        requires
            forall|window: &[u32; SAMPLE_COUNT]| call_requires(transform, (window,)),
            forall|coefficient: Coefficient| call_requires(magnitude, (coefficient,)),
        ensures
            action != LoopAction::Transform,
            final(writer).slot() == old(writer).slot(),
            final(writer).sent() == sent_after(old(writer).sent(), action),
            old(self).model().action(event) != LoopAction::Transform ==> {
                &&& final(self).model() == old(self).model().next(event)
                &&& action == old(self).model().action(event)
            },
            old(self).model().action(event) == LoopAction::Transform ==> exists|
                values: [u32; BIN_COUNT],
            |
                {
                    &&& #[trigger] transformed(
                        old(self).model().next(event),
                        transform,
                        magnitude,
                        values,
                    )
                    &&& final(self).model() == old(self).model().next(event).next(
                        LoopEvent::Magnitudes(values),
                    )
                    &&& action == old(self).model().next(event).action(
                        LoopEvent::Magnitudes(values),
                    )
                },
    {
        let first = self.drive(writer, event);
        match first {
            LoopAction::Transform => {
                let ghost due = self.model();
                let window = self.extractor.window();
                let packed = transform(window);
                let spectrum = Spectrum::from_packed(packed);
                let values = spectrum.magnitudes(magnitude);
                proof {
                    assert(call_ensures(transform, (window,), packed));
                    assert(transformed(due, transform, magnitude, values));
                }
                self.drive(writer, LoopEvent::Magnitudes(values))
            },
            _ => first,
        }
    }
}

/// Passes the loop's answer on to the report emitter: a halt of the loop
/// halts the emitter too, so that nothing is reported from what the slot
/// still holds; any other answer leaves the emitter as it is.
pub fn notify(action: LoopAction, emitter: &mut ReportEmitter)
    ensures
        action is Halt ==> final(emitter).state() == old(emitter).state().after(
            EmitterEvent::Halt,
        ),
        !(action is Halt) ==> final(emitter).state() == old(emitter).state(),
{
    if let LoopAction::Halt(_) = action {
        emitter.halt();
    }
}

/// The state that a loop reaches from startup through `events`.
pub open spec fn run(events: Seq<LoopEvent>) -> LoopModel
    decreases events.len(),
{
    if events.len() == 0 {
        LoopModel::initial()
    } else {
        run(events.drop_last()).next(events.last())
    }
}

/// Every state that the loop can reach is well formed.
pub proof fn lemma_reachable_is_wf(events: Seq<LoopEvent>)
    ensures
        run(events).wf(),
    decreases events.len(),
{
    if events.len() > 0 {
        lemma_reachable_is_wf(events.drop_last());
    }
}

/// What the loop offers to its extractor on the way through `events`: the
/// feature of every estimate and every set of magnitudes, as long as no
/// fault has occurred.
pub open spec fn offered(events: Seq<LoopEvent>) -> Seq<ExtractorInput>
    decreases events.len(),
{
    if events.len() == 0 {
        Seq::empty()
    } else if run(events.drop_last()).fault is Some {
        offered(events.drop_last())
    } else {
        match events.last() {
            LoopEvent::Estimate { orientation, feature } => offered(events.drop_last()).push(
                ExtractorInput::Sample(feature),
            ),
            LoopEvent::Magnitudes(magnitudes) => offered(events.drop_last()).push(
                ExtractorInput::Magnitudes(magnitudes@),
            ),
            _ => offered(events.drop_last()),
        }
    }
}

/// The loop's extractor is in the state that a fresh extractor reaches
/// through what the loop offered to it, and through nothing else. So what
/// holds of every extractor holds inside the loop: the cursor stays in the
/// window and the frame is replaced once per full window.
pub proof fn lemma_loop_feeds_extractor(events: Seq<LoopEvent>)
    ensures
        run(events).extractor == replay(offered(events)),
    decreases events.len(),
{
    if events.len() > 0 {
        let before = events.drop_last();
        lemma_loop_feeds_extractor(before);
        if run(before).fault is None {
            match events.last() {
                LoopEvent::Estimate { orientation, feature } => {
                    let input = ExtractorInput::Sample(feature);
                    assert(offered(events).drop_last() =~= offered(before));
                    assert(offered(events).last() == input);
                },
                LoopEvent::Magnitudes(magnitudes) => {
                    let input = ExtractorInput::Magnitudes(magnitudes@);
                    assert(offered(events).drop_last() =~= offered(before));
                    assert(offered(events).last() == input);
                },
                _ => {},
            }
        }
    }
}

/// A fault is final: whatever comes after it, the loop answers with the
/// same halt and its state stays as it is. In particular nothing is
/// recorded or published any more.
pub proof fn lemma_fault_is_final(state: LoopModel, event: LoopEvent)
    requires
        state.fault is Some,
    ensures
        state.next(event) == state,
        state.action(event) == LoopAction::Halt(state.fault.unwrap()),
{
}

/// A failed reading halts the loop on the spot. It leaves the window, the
/// frame and the cursor untouched and publishes nothing.
pub proof fn lemma_failure_halts(state: LoopModel, event: LoopEvent)
    requires
        event is SensorFailed || event is FilterFaulted,
    ensures
        state.action(event) is Halt,
        state.next(event).fault is Some,
        state.next(event).extractor == state.extractor,
        state.next(event).pending == state.pending,
{
}

/// In a reachable state every estimate is answered either with the pair to
/// publish, made of this very orientation, or with the request for a
/// transform; and the magnitudes that follow such a request are answered
/// with the pair made of the orientation that was held back.
pub proof fn lemma_estimate_is_published_whole(state: LoopModel, event: LoopEvent)
    requires
        state.wf(),
        state.fault is None,
    ensures
        event matches LoopEvent::Estimate { orientation, feature } ==> {
            ||| state.action(event) matches LoopAction::Publish { orientation: o, bin: _ } && o
                == orientation
            ||| state.action(event) == LoopAction::Transform
        },
        event is Magnitudes && state.extractor.transform_due ==> state.action(event) == (
        LoopAction::Publish {
            orientation: state.pending.unwrap(),
            bin: event->Magnitudes_0@[reported_index(state.extractor.cursor) as int],
        }),
{
}

} // verus!
