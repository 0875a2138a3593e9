//! The periodic report: when one is emitted, what it shows, and its text.
//!
//! The emitter follows a one-shot timer. While the timer is armed the
//! emitter is idle; when it fires, the emitter takes a snapshot of the
//! shared telemetry, and the timer is armed again for the same period.
//! Once the sampling loop has halted, the emitter is told so and reports
//! nothing more.
//! Turning an orientation into angles is floating-point work and happens
//! outside, between the two.

use vstd::prelude::*;
use vstd::string::StringSliceAdditionalSpecFns;
use crate::shared::SharedTelemetry;
use crate::telemetry::{Orientation, Telemetry};
use crate::text::{decimal, lemma_decimal_width, Draft, Line, LINE_CAPACITY};

verus! {

/// The most bytes that the plain decimal text of one angle has: a sign,
/// `0.`, and the digits of the smallest double-precision number, with some
/// to spare.
pub const ANGLE_WIDTH: usize = 336;

/// The bytes that a report has besides the three angles when its
/// magnitude is of the greatest length: the opening and closing marks, the
/// three commas, the digits and the line feed.
pub const REPORT_FRAME: usize = 18;

/// The text of one report: `/*`, the three angles as the caller rendered
/// them with a comma after each, the magnitude in decimal, `*/` and a line
/// feed.
pub open spec fn report_text(roll: Seq<u8>, pitch: Seq<u8>, yaw: Seq<u8>, bin: u32) -> Seq<u8> {
    ((((seq![0x2fu8, 0x2au8] + roll).push(0x2c) + pitch).push(0x2c) + yaw).push(0x2c) + decimal(
        bin as nat,
    )).push(0x2a).push(0x2f).push(0x0a)
}

/// Whether a report with these three angles fits a line whatever its
/// magnitude is.
pub open spec fn report_fits(roll: Seq<u8>, pitch: Seq<u8>, yaw: Seq<u8>) -> bool {
    roll.len() + pitch.len() + yaw.len() + REPORT_FRAME <= LINE_CAPACITY
}

/// A line has room for a report of any three angles of at most
/// `ANGLE_WIDTH` bytes each, which is every angle there is.
pub proof fn lemma_angles_fit(roll: Seq<u8>, pitch: Seq<u8>, yaw: Seq<u8>)
    requires
        roll.len() <= ANGLE_WIDTH,
        pitch.len() <= ANGLE_WIDTH,
        yaw.len() <= ANGLE_WIDTH,
    ensures
        report_fits(roll, pitch, yaw),
{
}

/// Builds the line for one report, without allocating. There is a line for
/// all angles of at most `ANGLE_WIDTH` bytes each; only texts that together
/// leave no room for the rest of the report give none.
pub fn report_line(roll: &str, pitch: &str, yaw: &str, bin: u32) -> (line: Option<Line>)
    ensures
        report_fits(roll.spec_bytes(), pitch.spec_bytes(), yaw.spec_bytes()) ==> line is Some
            && line->Some_0.content() == report_text(
            roll.spec_bytes(),
            pitch.spec_bytes(),
            yaw.spec_bytes(),
            bin,
        ),
        !report_fits(roll.spec_bytes(), pitch.spec_bytes(), yaw.spec_bytes()) ==> line.is_none(),
{
    let roll = roll.as_bytes();
    let pitch = pitch.as_bytes();
    let yaw = yaw.as_bytes();
    let room: usize = LINE_CAPACITY - REPORT_FRAME;
    if roll.len() > room || pitch.len() > room || yaw.len() > room {
        return None;
    }
    if roll.len() + pitch.len() + yaw.len() > room {
        return None;
    }
    proof {
        lemma_decimal_width(bin);
    }
    let mut draft = Draft::new();
    draft.push(0x2f);
    draft.push(0x2a);
    draft.extend(roll);
    draft.push(0x2c);
    draft.extend(pitch);
    draft.push(0x2c);
    draft.extend(yaw);
    draft.push(0x2c);
    draft.decimal(bin);
    draft.push(0x2a);
    draft.push(0x2f);
    draft.push(0x0a);
    Some(draft.finish())
}

/// What one report shows.
#[derive(Clone, Copy, Debug, PartialEq, Eq)]
pub struct Report {
    pub orientation: Orientation,
    pub bin: u32,
}

/// The report that a snapshot calls for: none while there is no
/// orientation; otherwise the orientation with the magnitude, or with zero
/// where the snapshot holds no magnitude.
pub open spec fn report_for(snapshot: Telemetry) -> Option<Report> {
    match snapshot.orientation {
        Some(orientation) => Some(Report { orientation, bin: snapshot.reported_bin() }),
        None => None,
    }
}

/// The report timer: its period in milliseconds, and whether it is
/// counting down.
#[derive(Clone, Copy, Debug, PartialEq, Eq)]
pub struct TimerState {
    pub period: u64,
    pub armed: bool,
}

impl TimerState {
    /// The timer after it has fired: not armed, same period.
    pub open spec fn fired(self) -> Self {
        TimerState { period: self.period, armed: false }
    }

    /// The timer after it has been armed again: armed, same period.
    pub open spec fn rearmed(self) -> Self {
        TimerState { period: self.period, armed: true }
    }
}

/// Where the emitter stands.
#[derive(Clone, Copy, Debug, PartialEq, Eq)]
pub enum EmitterPhase {
    /// The timer is armed; nothing to do until it fires.
    Idle,
    /// The timer has fired and is not armed again yet.
    Fired,
    /// The sampling loop has halted: nothing is reported any more and the
    /// timer is left alone.
    Halted,
}

/// One thing that happens to the emitter.
pub enum EmitterEvent {
    /// The timer fired while the shared slot held this snapshot.
    Fire(Telemetry),
    /// The timer is to be armed again.
    Rearm,
    /// The sampling loop has halted.
    Halt,
}

/// The emitter as a mathematical value.
pub struct EmitterState {
    pub timer: TimerState,
    pub halted: bool,
}

impl EmitterState {
    /// An emitter that has just been started for `period` milliseconds.
    pub open spec fn started(period: u64) -> Self {
        EmitterState { timer: TimerState { period, armed: true }, halted: false }
    }

    /// The shape every reachable state has: the timer of a halted emitter
    /// is not armed.
    pub open spec fn wf(self) -> bool {
        self.halted ==> !self.timer.armed
    }

    /// The phase the emitter is in.
    pub open spec fn phase(self) -> EmitterPhase {
        if self.halted {
            EmitterPhase::Halted
        } else if self.timer.armed {
            EmitterPhase::Idle
        } else {
            EmitterPhase::Fired
        }
    }

    /// Whether a fire that comes now is served.
    pub open spec fn serves(self) -> bool {
        self.timer.armed && !self.halted
    }

    /// The state after a fire.
    pub open spec fn fired(self) -> Self {
        EmitterState { timer: self.timer.fired(), halted: self.halted }
    }

    /// The state after `event`.
    pub open spec fn after(self, event: EmitterEvent) -> Self {
        match event {
            EmitterEvent::Fire(_) => self.fired(),
            EmitterEvent::Rearm => if self.halted {
                self
            } else {
                EmitterState { timer: self.timer.rearmed(), halted: false }
            },
            EmitterEvent::Halt => EmitterState { timer: self.timer.fired(), halted: true },
        }
    }

    /// The report to emit when a fire comes now with `snapshot` in the
    /// slot.
    pub open spec fn report(self, snapshot: Telemetry) -> Option<Report> {
        if self.serves() {
            report_for(snapshot)
        } else {
            None
        }
    }

    /// The period to program when the timer is to be armed again now: the
    /// emitter's own after a fire, and none while the timer is armed or the
    /// emitter has halted.
    pub open spec fn rearm_period(self) -> Option<u64> {
        if !self.halted && !self.timer.armed {
            Some(self.timer.period)
        } else {
            None
        }
    }
}

/// The report emitter. It owns the timer state.
pub struct ReportEmitter {
    timer: TimerState,
    halted: bool,
}

impl ReportEmitter {
    /// The emitter's state as a mathematical value.
    pub closed spec fn state(self) -> EmitterState {
        EmitterState { timer: self.timer, halted: self.halted }
    }

    /// An idle emitter whose timer is armed for `period` milliseconds.
    pub fn start(period: u64) -> (emitter: Self)
        ensures
            emitter.state() == EmitterState::started(period),
    {
        ReportEmitter { timer: TimerState { period, armed: true }, halted: false }
    }

    /// The timer's state.
    pub fn timer_state(&self) -> (timer: TimerState)
        ensures
            timer == self.state().timer,
    {
        self.timer
    }

    /// The emitter's phase.
    pub fn current_phase(&self) -> (phase: EmitterPhase)
        ensures
            phase == self.state().phase(),
    {
        if self.halted {
            EmitterPhase::Halted
        } else if self.timer.armed {
            EmitterPhase::Idle
        } else {
            EmitterPhase::Fired
        }
    }

    /// The timer has fired, and `snapshot` is what the shared slot held.
    ///
    /// An idle emitter answers with the report to emit, if the snapshot
    /// calls for one, and waits to be armed again. An emitter that has
    /// fired already, or that has halted, answers with nothing.
    pub fn fire(&mut self, snapshot: Telemetry) -> (report: Option<Report>)
        ensures
            final(self).state() == old(self).state().after(EmitterEvent::Fire(snapshot)),
            report == old(self).state().report(snapshot),
    {
        let serves = self.timer.armed && !self.halted;
        self.timer.armed = false;
        if !serves {
            return None;
        }
        match snapshot.orientation {
            Some(orientation) => Some(Report { orientation, bin: snapshot.bin_or_default() }),
            None => None,
        }
    }

    /// The timer has fired: takes the snapshot from the shared slot and
    /// goes on as `fire` does. Nothing is known of the snapshot beforehand,
    /// so the contract says what holds for every one.
    pub fn service(&mut self, shared: &SharedTelemetry) -> (report: Option<Report>)
        ensures
            final(self).state() == old(self).state().fired(),
            !old(self).state().serves() ==> report.is_none(),
    {
        let snapshot = shared.snapshot();
        self.fire(snapshot)
    }

    /// Arms the timer again. After a fire the answer is the period to
    /// program, which is the one the emitter was started with. An emitter
    /// whose timer is armed, or that has halted, answers with nothing and
    /// stays as it is.
    pub fn rearm(&mut self) -> (period: Option<u64>)
        ensures
            final(self).state() == old(self).state().after(EmitterEvent::Rearm),
            period == old(self).state().rearm_period(),
    {
        if self.halted || self.timer.armed {
            None
        } else {
            self.timer.armed = true;
            Some(self.timer.period)
        }
    }

    /// The sampling loop has halted: from now on no fire is served and the
    /// timer is not armed again, so that nothing is reported from what the
    /// slot still holds.
    pub fn halt(&mut self)
        ensures
            final(self).state() == old(self).state().after(EmitterEvent::Halt),
    {
        self.timer.armed = false;
        self.halted = true;
    }
}

/// The state after `events`, starting from `start`.
pub open spec fn emitter_after(start: EmitterState, events: Seq<EmitterEvent>) -> EmitterState
    decreases events.len(),
{
    if events.len() == 0 {
        start
    } else {
        emitter_after(start, events.drop_last()).after(events.last())
    }
}

/// Whether the last of `events` is a fire that is served.
pub open spec fn serves_last(start: EmitterState, events: Seq<EmitterEvent>) -> bool {
    events.len() > 0 && events.last() is Fire && emitter_after(start, events.drop_last()).serves()
}

/// How many fires among `events` are served.
pub open spec fn fires_served(start: EmitterState, events: Seq<EmitterEvent>) -> nat
    decreases events.len(),
{
    if events.len() == 0 {
        0
    } else if serves_last(start, events) {
        fires_served(start, events.drop_last()) + 1
    } else {
        fires_served(start, events.drop_last())
    }
}

/// How many reports come out of `events`.
pub open spec fn reports_emitted(start: EmitterState, events: Seq<EmitterEvent>) -> nat
    decreases events.len(),
{
    if events.len() == 0 {
        0
    } else if serves_last(start, events) && report_for(events.last()->Fire_0) is Some {
        reports_emitted(start, events.drop_last()) + 1
    } else {
        reports_emitted(start, events.drop_last())
    }
}

/// How many of `events` arm a timer that has fired.
pub open spec fn rearms_due(start: EmitterState, events: Seq<EmitterEvent>) -> nat
    decreases events.len(),
{
    if events.len() == 0 {
        0
    } else if events.last() is Rearm && emitter_after(
        start,
        events.drop_last(),
    ).rearm_period() is Some {
        rearms_due(start, events.drop_last()) + 1
    } else {
        rearms_due(start, events.drop_last())
    }
}

/// Whether every snapshot among `events` holds an orientation.
pub open spec fn always_populated(events: Seq<EmitterEvent>) -> bool {
    forall|i: int|
        0 <= i < events.len() && events[i] is Fire ==> (#[trigger] events[i])->Fire_0.orientation
            is Some
}

/// Whatever happens to an emitter after its start, its period stays the
/// one it was started with and a halted emitter's timer is not armed; there
/// is never more than one report for a fire that was served, and exactly
/// one once every snapshot holds an orientation; and the fires served are
/// as many as the times the timer was armed again, plus the one still
/// waiting while the emitter is in its fired phase.
pub proof fn lemma_one_report_per_fire(period: u64, events: Seq<EmitterEvent>)
    ensures
        ({
            let start = EmitterState::started(period);
            let end = emitter_after(start, events);
            &&& end.wf()
            &&& end.timer.period == period
            &&& reports_emitted(start, events) <= fires_served(start, events)
            &&& always_populated(events) ==> reports_emitted(start, events) == fires_served(
                start,
                events,
            )
            &&& rearms_due(start, events) <= fires_served(start, events) <= rearms_due(
                start,
                events,
            ) + 1
            &&& end.timer.armed ==> fires_served(start, events) == rearms_due(start, events)
            &&& end.phase() is Fired ==> fires_served(start, events) == rearms_due(start, events)
                + 1
        }),
    decreases events.len(),
{
    if events.len() > 0 {
        let before = events.drop_last();
        lemma_one_report_per_fire(period, before);
        if always_populated(events) {
            assert forall|i: int| 0 <= i < before.len() && before[i] is Fire implies (
            #[trigger] before[i])->Fire_0.orientation is Some by {
                assert(before[i] == events[i]);
            }
            assert(events[events.len() - 1] == events.last());
        }
    }
}

/// A halt is final: whatever follows it, the emitter stays halted with its
/// timer not armed, no further fire is served and no further report comes
/// out.
pub proof fn lemma_no_report_after_halt(
    start: EmitterState,
    before: Seq<EmitterEvent>,
    after: Seq<EmitterEvent>,
)
    ensures
        ({
            let events = before.push(EmitterEvent::Halt) + after;
            &&& emitter_after(start, events).halted
            &&& !emitter_after(start, events).timer.armed
            &&& fires_served(start, events) == fires_served(start, before)
            &&& reports_emitted(start, events) == reports_emitted(start, before)
        }),
    decreases after.len(),
{
    let halted = before.push(EmitterEvent::Halt);
    let events = halted + after;
    if after.len() == 0 {
        assert(events =~= halted);
        assert(halted.drop_last() =~= before);
    } else {
        lemma_no_report_after_halt(start, before, after.drop_last());
        assert(events.drop_last() =~= halted + after.drop_last());
        assert(events.last() == after.last());
    }
}

/// The instant of the `count`-th fire of a timer that is armed at instant
/// zero and armed again for the same period at each fire.
pub open spec fn fire_instant(period: nat, count: nat) -> nat {
    count * period
}

/// The number of fires up to and including the instant `duration`.
pub open spec fn fires_within(period: nat, duration: nat) -> nat {
    duration / period
}

/// A timer that is armed again for the same period at each fire has fired
/// `duration / period` times by the instant `duration`, rounded down: the
/// fires that fall within the duration are the first so many, and no
/// others.
pub proof fn lemma_fires_within(period: nat, duration: nat)
    requires
        period > 0,
    ensures
        forall|count: nat|
            #![trigger fire_instant(period, count)]
            fire_instant(period, count) <= duration <==> count <= fires_within(period, duration),
        fire_instant(period, fires_within(period, duration)) <= duration < fire_instant(
            period,
            fires_within(period, duration) + 1,
        ),
{
    let within = duration / period;
    assert(within * period <= duration < (within + 1) * period) by (nonlinear_arith)
        requires
            period > 0,
            within == duration / period,
    ;
    assert forall|count: nat| #![trigger fire_instant(period, count)]
        fire_instant(period, count) <= duration <==> count <= within by {
        if count <= within {
            assert(count * period <= within * period) by (nonlinear_arith)
                requires
                    count <= within,
            ;
        } else {
            assert(count * period >= (within + 1) * period) by (nonlinear_arith)
                requires
                    count >= within + 1,
            ;
        }
    }
}

} // verus!
