//! The values that travel from the sampling loop to the report: the latest
//! orientation and the latest spectral magnitude, always as one pair.

use vstd::prelude::*;

verus! {

/// A unit quaternion, each component as an IEEE-754 double-precision bit
/// pattern. The attitude filter keeps its norm at one; nothing here looks
/// inside the components.
#[derive(Clone, Copy, Debug, PartialEq, Eq)]
pub struct Orientation {
    pub w: u64,
    pub i: u64,
    pub j: u64,
    pub k: u64,
}

/// What the shared slot holds: the latest orientation and the latest
/// spectral magnitude, or neither before the first update.
#[derive(Clone, Copy, Debug, PartialEq, Eq)]
pub struct Telemetry {
    pub orientation: Option<Orientation>,
    pub bin: Option<u32>,
}

impl Telemetry {
    /// The slot before the first update.
    pub open spec fn unpopulated() -> Self {
        Telemetry { orientation: None, bin: None }
    }

    /// The slot after an update with these two values.
    pub open spec fn populated(orientation: Orientation, bin: u32) -> Self {
        Telemetry { orientation: Some(orientation), bin: Some(bin) }
    }

    /// Whether the pair holds both values or neither.
    pub open spec fn is_whole(self) -> bool {
        self.orientation is Some <==> self.bin is Some
    }

    /// The magnitude to report: the one held, or zero while there is none.
    pub open spec fn reported_bin(self) -> u32 {
        match self.bin {
            Some(bin) => bin,
            None => 0,
        }
    }

    /// The slot before the first update.
    pub fn empty() -> (telemetry: Self)
        ensures
            telemetry == Self::unpopulated(),
    {
        Telemetry { orientation: None, bin: None }
    }

    /// One update: both values, taken together.
    pub fn latest(orientation: Orientation, bin: u32) -> (telemetry: Self)
        ensures
            telemetry == Self::populated(orientation, bin),
    {
        Telemetry { orientation: Some(orientation), bin: Some(bin) }
    }

    /// The magnitude to report: the one held, or zero while there is none.
    pub fn bin_or_default(&self) -> (bin: u32)
        ensures
            bin == self.reported_bin(),
    {
        match self.bin {
            Some(bin) => bin,
            None => 0,
        }
    }
}

/// One access to the shared slot. Each is carried out as a whole: nothing
/// else touches the slot while it runs.
pub enum SlotAccess {
    /// The writer replaces both values.
    Publish(Orientation, u32),
    /// The reader takes a copy of both values.
    Snapshot,
}

/// What the slot holds after the accesses in `history`, in that order.
pub open spec fn slot_after(history: Seq<SlotAccess>) -> Telemetry
    decreases history.len(),
{
    if history.len() == 0 {
        Telemetry::unpopulated()
    } else {
        match history.last() {
            SlotAccess::Publish(orientation, bin) => Telemetry::populated(orientation, bin),
            SlotAccess::Snapshot => slot_after(history.drop_last()),
        }
    }
}

/// Whether `history` holds no update at all.
pub open spec fn never_published(history: Seq<SlotAccess>) -> bool {
    forall|i: int| 0 <= i < history.len() ==> history[i] is Snapshot
}

/// Whether the update at `at` is the last one in `history`.
pub open spec fn is_latest_publish(history: Seq<SlotAccess>, at: int) -> bool {
    &&& 0 <= at < history.len()
    &&& history[at] is Publish
    &&& forall|i: int| at < i < history.len() ==> history[i] is Snapshot
}

/// However updates and snapshots interleave, what a snapshot sees is never
/// torn and never stale: it is the empty pair while nothing was published,
/// and otherwise both values of the most recent update, and of no other.
pub proof fn lemma_snapshot_is_latest_update(history: Seq<SlotAccess>)
    ensures
        never_published(history) ==> slot_after(history) == Telemetry::unpopulated(),
        forall|at: int| #[trigger]
            is_latest_publish(history, at) ==> slot_after(history) == Telemetry::populated(
                history[at]->Publish_0,
                history[at]->Publish_1,
            ),
        never_published(history) || exists|at: int| is_latest_publish(history, at),
    decreases history.len(),
{
    if history.len() > 0 {
        let before = history.drop_last();
        lemma_snapshot_is_latest_update(before);
        let end = history.len() - 1;
        match history.last() {
            SlotAccess::Publish(_, _) => {
                assert(is_latest_publish(history, end));
                assert forall|at: int| #[trigger]
                    is_latest_publish(history, at) implies at == end by {
                    if at < end {
                        assert(history[end] is Snapshot);
                    }
                }
            },
            SlotAccess::Snapshot => {
                assert forall|at: int| #[trigger]
                    is_latest_publish(history, at) implies is_latest_publish(before, at) by {
                    assert forall|i: int| at < i < before.len() implies before[i] is Snapshot by {
                        assert(before[i] == history[i]);
                    }
                }
                if never_published(before) {
                    assert forall|i: int| 0 <= i < history.len() implies history[i] is Snapshot by {
                        if i < end {
                            assert(before[i] == history[i]);
                        }
                    }
                } else {
                    let at = choose|at: int| is_latest_publish(before, at);
                    assert(before[at] == history[at]);
                    assert forall|i: int| at < i < history.len() implies history[i] is Snapshot by {
                        if i < end {
                            assert(before[i] == history[i]);
                        }
                    }
                    assert(is_latest_publish(history, at));
                }
                if never_published(history) {
                    assert forall|i: int| 0 <= i < before.len() implies before[i] is Snapshot by {
                        assert(before[i] == history[i]);
                    }
                }
            },
        }
    }
}

} // verus!
