//! The pulse validator: which transitions are watt-hour pulses.
//!
//! The validator remembers two instants, that of the last transition of any
//! kind and that of the last transition it accepted as a pulse. A transition
//! is accepted when it comes a pulse width after the transition before it,
//! where a pulse width is any span longer than 23 ms and shorter than 26 ms,
//! measured to the nanosecond. Spans of exactly 23 ms and of exactly 26 ms
//! are no pulse widths. Every transition, accepted or not, becomes the
//! reference for the next.
//!
//! Both edges of one physical pulse are held to the same rule, each against
//! its own predecessor. On a noisy line both may pass, and the pulse is then
//! counted twice.

use vstd::prelude::*;
use crate::clock::{elapsed_nanos, millis_in, whole_millis, ClockError};
use crate::edge::{Direction, Transition};
use crate::power::{power_between_pulses, power_for, PowerEstimate, WATT_MILLIS_PER_PULSE};

verus! {

/// A pulse is wider than this many nanoseconds (23 ms).
pub const PULSE_WIDTH_ABOVE_NS: u64 = 23_000_000;

/// A pulse is narrower than this many nanoseconds (26 ms).
pub const PULSE_WIDTH_BELOW_NS: u64 = 26_000_000;

/// Whether a spacing of `width_ns` nanoseconds between two consecutive
/// transitions is that of a watt-hour pulse: strictly between 23 ms and
/// 26 ms.
pub open spec fn is_pulse_width(width_ns: int) -> bool {
    PULSE_WIDTH_ABOVE_NS < width_ns < PULSE_WIDTH_BELOW_NS
}

/// The two instants that the validator remembers, in nanoseconds since the
/// Unix epoch.
pub struct TimingState {
    /// When the line last changed, whether or not that change was a pulse.
    pub previous_transition: nat,
    /// When the last accepted pulse was seen.
    pub previous_valid_pulse: nat,
}

impl TimingState {
    /// The state of a validator started at instant `start`.
    pub open spec fn starting_at(start: nat) -> TimingState {
        TimingState { previous_transition: start, previous_valid_pulse: start }
    }

    /// The last accepted pulse is never later than the last transition.
    pub open spec fn well_ordered(self) -> bool {
        self.previous_valid_pulse <= self.previous_transition
    }

    /// A transition at `at` would seem to come before the previous one.
    pub open spec fn runs_backwards(self, at: nat) -> bool {
        at < self.previous_transition
    }

    /// Nanoseconds from the previous transition to `at`; negative when time
    /// runs backwards.
    pub open spec fn since_last_edge(self, at: nat) -> int {
        at - self.previous_transition
    }

    /// Nanoseconds from the previous accepted pulse to `at`.
    pub open spec fn since_last_pulse(self, at: nat) -> int {
        at - self.previous_valid_pulse
    }

    /// A transition at `at` is a watt-hour pulse.
    pub open spec fn accepts(self, at: nat) -> bool {
        is_pulse_width(self.since_last_edge(at))
    }

    /// The state once a transition at `at` has been classified. A transition
    /// that runs backwards is an error and leaves the state as it was.
    pub open spec fn after(self, at: nat) -> TimingState {
        if self.runs_backwards(at) {
            self
        } else {
            TimingState {
                previous_transition: at,
                previous_valid_pulse: if self.accepts(at) {
                    at
                } else {
                    self.previous_valid_pulse
                },
            }
        }
    }

    /// The state once transitions at each of `instants` have been classified
    /// in turn.
    pub open spec fn after_all(self, instants: Seq<nat>) -> TimingState
        decreases instants.len(),
    {
        if instants.len() == 0 {
            self
        } else {
            self.after_all(instants.drop_last()).after(instants.last())
        }
    }

    /// The instants of the records owed while transitions at each of
    /// `instants` are classified in turn, in the order in which they are
    /// owed.
    pub open spec fn records_during(self, instants: Seq<nat>) -> Seq<nat>
        decreases instants.len(),
    {
        if instants.len() == 0 {
            Seq::empty()
        } else {
            let earlier = self.records_during(instants.drop_last());
            if self.after_all(instants.drop_last()).accepts(instants.last()) {
                earlier.push(instants.last())
            } else {
                earlier
            }
        }
    }
}

/// The instant that transition `i` of a run is measured against: `reference`
/// for the first transition, the transition before it for every other.
pub open spec fn predecessor(reference: nat, instants: Seq<nat>, i: int) -> nat {
    if i == 0 {
        reference
    } else {
        instants[i - 1]
    }
}

/// No transition of the run comes before the one it is measured against.
pub open spec fn in_time_order(reference: nat, instants: Seq<nat>) -> bool {
    forall|i: int|
        0 <= i < instants.len() ==> predecessor(reference, instants, i) <= #[trigger] instants[i]
}

/// Those of `instants`, in order, that come a pulse width after their
/// predecessor.
pub open spec fn pulses_among(reference: nat, instants: Seq<nat>) -> Seq<nat>
    decreases instants.len(),
{
    if instants.len() == 0 {
        Seq::empty()
    } else {
        let earlier = pulses_among(reference, instants.drop_last());
        let last = instants.len() - 1;
        if is_pulse_width(instants[last] - predecessor(reference, instants, last)) {
            earlier.push(instants[last])
        } else {
            earlier
        }
    }
}

/// What the store keeps of an accepted pulse. The store adds an identifier of
/// its own.
#[derive(Clone, Copy, Debug, PartialEq, Eq)]
pub struct PulseRecord {
    /// When the pulse was observed, in nanoseconds since the Unix epoch.
    pub timestamp_unix_ns: u64,
}

/// Everything known about an accepted pulse.
#[derive(Clone, Copy, Debug, PartialEq, Eq)]
pub struct PulseReport {
    /// The record to append to the store.
    pub record: PulseRecord,
    /// Nanoseconds between this transition and the one before it.
    pub width_ns: u64,
    /// Whole milliseconds since the previous accepted pulse.
    pub since_last_pulse_ms: u64,
    /// Power drawn since the previous accepted pulse.
    pub power: PowerEstimate,
    /// The pulse ended on a rising edge. A meter pulse is expected to end on
    /// a falling one; the pulse is accepted all the same.
    pub anomalous: bool,
}

/// The report owed for a transition `t` that a validator in state `s`
/// accepts.
pub open spec fn report_for(s: TimingState, t: Transition) -> PulseReport {
    PulseReport {
        record: PulseRecord { timestamp_unix_ns: t.observed_at },
        width_ns: s.since_last_edge(t.observed_at as nat) as u64,
        since_last_pulse_ms: whole_millis(s.since_last_pulse(t.observed_at as nat)) as u64,
        power: power_for(whole_millis(s.since_last_pulse(t.observed_at as nat))),
        anomalous: t.direction is Rising,
    }
}

/// What classifying transition `t` in state `s` yields: the error when time
/// runs backwards, the report when `t` is a pulse, and nothing otherwise.
pub open spec fn verdict_for(s: TimingState, t: Transition) -> Result<
    Option<PulseReport>,
    ClockError,
> {
    if s.runs_backwards(t.observed_at as nat) {
        Err(ClockError { reference: s.previous_transition as u64, observed: t.observed_at })
    } else if s.accepts(t.observed_at as nat) {
        Ok(Some(report_for(s, t)))
    } else {
        Ok(None)
    }
}

/// Classifies transitions one by one.
pub struct Validator {
    previous_transition: u64,
    previous_valid_pulse: u64,
}

impl View for Validator {
    type V = TimingState;

    closed spec fn view(&self) -> TimingState {
        TimingState {
            previous_transition: self.previous_transition as nat,
            previous_valid_pulse: self.previous_valid_pulse as nat,
        }
    }
}

impl Validator {
    /// Holds of every validator: the last accepted pulse is never later
    /// than the last transition.
    #[verifier::type_invariant]
    pub open spec fn ordered(self) -> bool {
        self@.well_ordered()
    }

    /// A validator that starts at instant `start`, given in nanoseconds since
    /// the Unix epoch. Nothing from before `start` is remembered: the first
    /// transition is measured against `start`.
    pub fn new(start: u64) -> (v: Validator)
        ensures
            v@ == TimingState::starting_at(start as nat),
    {
        Validator { previous_transition: start, previous_valid_pulse: start }
    }

    /// When the line last changed.
    pub fn time_of_previous_transition(&self) -> (t: u64)
        ensures
            t == self@.previous_transition,
    {
        self.previous_transition
    }

    /// When the last accepted pulse was seen; never later than the last
    /// transition.
    pub fn time_of_previous_valid_pulse(&self) -> (t: u64)
        ensures
            t == self@.previous_valid_pulse,
            self@.well_ordered(),
    {
        proof {
            use_type_invariant(self);
        }
        self.previous_valid_pulse
    }

    /// Classifies one transition.
    ///
    /// Fails, and changes nothing, when the transition seems to come before
    /// the previous one. Otherwise the transition becomes the new reference
    /// edge, and it is a pulse exactly when it comes a pulse width after the
    /// previous transition. A pulse yields its report, stamped with the
    /// instant of the transition, and becomes the last accepted pulse;
    /// anything else yields `None` and leaves the last accepted pulse alone.
    pub fn observe(&mut self, t: Transition) -> (r: Result<Option<PulseReport>, ClockError>)
        ensures
            r == verdict_for(old(self)@, t),
            final(self)@ == old(self)@.after(t.observed_at as nat),
            final(self)@.well_ordered(),
            r is Err <==> t.observed_at < old(self)@.previous_transition,
            r is Err ==> final(self)@ == old(self)@,
            r is Ok ==> final(self)@.previous_transition == t.observed_at,
            !is_pulse_width(t.observed_at - old(self)@.previous_transition) ==> !(r matches Ok(
                Some(_),
            )) && final(self)@.previous_valid_pulse == old(self)@.previous_valid_pulse,
            is_pulse_width(t.observed_at - old(self)@.previous_transition) ==> (r matches Ok(
                Some(report),
            ) && report.record.timestamp_unix_ns == t.observed_at)
                && final(self)@.previous_valid_pulse == t.observed_at,
    {
        proof {
            use_type_invariant(&*self);
        }
        let width_ns = match elapsed_nanos(self.previous_transition, t.observed_at) {
            Ok(ns) => ns,
            Err(e) => {
                return Err(e);
            },
        };
        self.previous_transition = t.observed_at;
        if PULSE_WIDTH_ABOVE_NS < width_ns && width_ns < PULSE_WIDTH_BELOW_NS {
            let since_last_pulse_ms = millis_in(t.observed_at - self.previous_valid_pulse);
            let anomalous = match t.direction {
                Direction::Rising => true,
                Direction::Falling => false,
            };
            self.previous_valid_pulse = t.observed_at;
            Ok(Some(PulseReport {
                record: PulseRecord { timestamp_unix_ns: t.observed_at },
                width_ns,
                since_last_pulse_ms,
                power: power_between_pulses(since_last_pulse_ms),
                anomalous,
            }))
        } else {
            Ok(None)
        }
    }
}

/// The pulse band is open at both ends: a transition is accepted exactly
/// when it comes more than 23 000 000 ns and less than 26 000 000 ns after
/// the one before it. Such a transition never runs backwards.
pub proof fn pulse_band_in_nanoseconds(s: TimingState, at: nat)
    ensures
        s.accepts(at) <==> 23_000_000 < at - s.previous_transition < 26_000_000,
        s.accepts(at) ==> !s.runs_backwards(at),
{
}

/// A validator started at `start` measures its first transition against
/// `start` and nothing else: the transition is accepted exactly when it comes
/// more than 23 ms and less than 26 ms after `start`.
pub proof fn first_transition_is_measured_from_start(start: nat, at: nat)
    ensures
        TimingState::starting_at(start).well_ordered(),
        TimingState::starting_at(start).since_last_edge(at) == at - start,
        TimingState::starting_at(start).since_last_pulse(at) == at - start,
        TimingState::starting_at(start).accepts(at) <==> 23_000_000 < at - start < 26_000_000,
        TimingState::starting_at(start).after(at).previous_valid_pulse == if 23_000_000 < at
            - start < 26_000_000 {
            at
        } else {
            start
        },
{
}

/// Classifying a transition that does not run backwards always moves the
/// last transition to it, and moves the last accepted pulse to it exactly
/// when it is accepted. Neither instant ever moves back, and the last
/// accepted pulse stays at or before the last transition.
pub proof fn classification_keeps_order(s: TimingState, at: nat)
    requires
        s.well_ordered(),
    ensures
        s.after(at).well_ordered(),
        s.previous_transition <= s.after(at).previous_transition,
        s.previous_valid_pulse <= s.after(at).previous_valid_pulse,
        !s.runs_backwards(at) ==> s.after(at).previous_transition == at,
        !s.runs_backwards(at) && s.accepts(at) ==> s.after(at).previous_valid_pulse == at,
        !s.accepts(at) ==> s.after(at).previous_valid_pulse == s.previous_valid_pulse,
        s.runs_backwards(at) ==> s.after(at) == s,
{
}

/// However many transitions are classified, the last accepted pulse stays at
/// or before the last transition, and neither instant ends up earlier than
/// it began.
pub proof fn order_holds_throughout(s: TimingState, instants: Seq<nat>)
    requires
        s.well_ordered(),
    ensures
        s.after_all(instants).well_ordered(),
        s.previous_transition <= s.after_all(instants).previous_transition,
        s.previous_valid_pulse <= s.after_all(instants).previous_valid_pulse,
    decreases instants.len(),
{
    if instants.len() > 0 {
        order_holds_throughout(s, instants.drop_last());
        classification_keeps_order(s.after_all(instants.drop_last()), instants.last());
    }
}

/// Over a run in which time never runs backwards, every transition becomes
/// the reference for the next, accepted or not, and the records owed are
/// exactly the transitions that come more than 23 ms and less than 26 ms
/// after their predecessor, in order and with nothing else among them.
pub proof fn run_records_are_the_pulses(s: TimingState, instants: Seq<nat>)
    requires
        s.well_ordered(),
        in_time_order(s.previous_transition, instants),
    ensures
        s.after_all(instants).previous_transition == if instants.len() == 0 {
            s.previous_transition
        } else {
            instants.last()
        },
        s.records_during(instants) == pulses_among(s.previous_transition, instants),
    decreases instants.len(),
{
    if instants.len() > 0 {
        let shorter = instants.drop_last();
        let last = instants.len() - 1;
        assert forall|i: int| 0 <= i < shorter.len() implies predecessor(
            s.previous_transition,
            shorter,
            i,
        ) <= #[trigger] shorter[i] by {
            assert(predecessor(s.previous_transition, instants, i) <= instants[i]);
        }
        run_records_are_the_pulses(s, shorter);
        assert(predecessor(s.previous_transition, instants, last) <= instants[last]);
        assert(s.after_all(shorter).previous_transition == predecessor(
            s.previous_transition,
            instants,
            last,
        ));
    }
}

/// An accepted pulse comes more than 23 ms after the one accepted before it,
/// so the power reported for it is finite and at most 156 521 watts.
pub proof fn accepted_pulses_are_spaced(s: TimingState, t: Transition)
    requires
        s.well_ordered(),
        s.accepts(t.observed_at as nat),
    ensures
        t.observed_at - s.previous_valid_pulse > 23_000_000,
        report_for(s, t).since_last_pulse_ms >= 23,
        report_for(s, t).since_last_pulse_ms * 1_000_000 <= t.observed_at - s.previous_valid_pulse,
        report_for(s, t).power.watts <= 156_521,
        23_000_000 < report_for(s, t).width_ns < 26_000_000,
{
    let spacing = whole_millis(s.since_last_pulse(t.observed_at as nat));
    assert(spacing >= 23);
    assert(WATT_MILLIS_PER_PULSE as int / spacing <= 156_521) by (nonlinear_arith)
        requires
            spacing >= 23,
            WATT_MILLIS_PER_PULSE == 3_600_000,
    ;
}

} // verus!
