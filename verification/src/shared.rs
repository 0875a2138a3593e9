//! The slot through which the sampling loop hands its latest telemetry to
//! the report, guarded by a critical section.

use vstd::prelude::*;
use crate::telemetry::{slot_after, Orientation, SlotAccess, Telemetry};

verus! {

/// `critical_section::Mutex`, carried as a value that nothing here looks
/// into.
#[verifier::external_type_specification]
#[verifier::external_body]
#[verifier::reject_recursive_types(T)]
pub struct ExGuard<T>(critical_section::Mutex<T>);

/// `core::cell::RefCell`, carried as a value that nothing here looks into.
#[verifier::external_type_specification]
#[verifier::external_body]
#[verifier::reject_recursive_types(T)]
pub struct ExRefCell<T: ?Sized>(core::cell::RefCell<T>);

/// `critical_section::Mutex::new` around `RefCell::new`: a guarded slot
/// that is made holding `initial`. Nothing is claimed of it.
#[verifier::external_body]
fn guarded(initial: Option<(Orientation, u32)>) -> critical_section::Mutex<
    core::cell::RefCell<Option<(Orientation, u32)>>,
> {
    critical_section::Mutex::new(core::cell::RefCell::new(initial))
}

/// `critical_section::with` around `Mutex::replace`: puts `next` in the
/// slot in one critical section. The borrow that `replace` takes ends
/// inside that section, and no borrow of the slot outlives a section, so
/// the call does not panic. Nothing is returned and nothing is claimed.
#[verifier::external_body]
fn store(
    slot: &critical_section::Mutex<core::cell::RefCell<Option<(Orientation, u32)>>>,
    next: Option<(Orientation, u32)>,
) {
    critical_section::with(|cs| {
        slot.replace(cs, next);
    })
}

/// `critical_section::with` around `Mutex::borrow_ref`: a copy of what the
/// slot holds, taken in one critical section; the borrow ends inside it, so
/// the call does not panic. What the slot holds depends on the other
/// contexts that share it, so nothing is claimed of the copy.
#[verifier::external_body]
fn load(
    slot: &critical_section::Mutex<core::cell::RefCell<Option<(Orientation, u32)>>>,
) -> Option<(Orientation, u32)> {
    critical_section::with(|cs| *slot.borrow_ref(cs))
}

/// The telemetry slot shared between the sampling loop, which writes it,
/// and the report, which reads it.
///
/// The slot holds either nothing or one orientation together with one
/// magnitude, and every access is a single critical section over all of
/// it. The slot is reached through `&self` from several contexts at once,
/// so what it holds at a given moment is not a fact that a contract here
/// can state.
pub struct SharedTelemetry {
    slot: critical_section::Mutex<core::cell::RefCell<Option<(Orientation, u32)>>>,
}

impl SharedTelemetry {
    /// A slot that holds nothing yet.
    pub fn new() -> Self {
        SharedTelemetry { slot: guarded(None) }
    }

    /// A copy of what the slot holds, taken in one step. It holds an
    /// orientation exactly if it holds a magnitude.
    pub fn snapshot(&self) -> (pair: Telemetry)
        ensures
            pair.is_whole(),
    {
        match load(&self.slot) {
            Some((orientation, bin)) => Telemetry::latest(orientation, bin),
            None => Telemetry::empty(),
        }
    }

    /// Replaces both values in one step.
    pub fn publish(&self, orientation: Orientation, bin: u32) {
        store(&self.slot, Some((orientation, bin)))
    }

    /// The writing end of this slot, with nothing written through it yet.
    pub fn writer(&self) -> (writer: TelemetryWriter<'_>)
        ensures
            writer.slot() == self,
            writer.sent() == Seq::<SlotAccess>::empty(),
    {
        TelemetryWriter { shared: self, sent: Ghost(Seq::empty()) }
    }
}

/// The writing end of a shared slot. It keeps account of every pair that
/// it has handed to the slot.
pub struct TelemetryWriter<'a> {
    shared: &'a SharedTelemetry,
    sent: Ghost<Seq<SlotAccess>>,
}

impl<'a> TelemetryWriter<'a> {
    /// The slot that this writer writes to.
    pub closed spec fn slot(self) -> &'a SharedTelemetry {
        self.shared
    }

    /// The updates that this writer has handed to its slot, oldest first.
    pub closed spec fn sent(self) -> Seq<SlotAccess> {
        self.sent@
    }

    /// The pair that this writer handed to its slot last, or the empty
    /// pair while it has handed over none.
    pub open spec fn last(self) -> Telemetry {
        slot_after(self.sent())
    }

    /// Hands both values to the slot, which replaces what it holds in one
    /// step, and takes note of it. The writer stays with its slot.
    pub fn publish(&mut self, orientation: Orientation, bin: u32)
        ensures
            final(self).slot() == old(self).slot(),
            final(self).sent() == old(self).sent().push(SlotAccess::Publish(orientation, bin)),
            final(self).last() == Telemetry::populated(orientation, bin),
    {
        self.shared.publish(orientation, bin);
        self.sent = Ghost(self.sent@.push(SlotAccess::Publish(orientation, bin)));
    }
}

} // verus!
