//! One turn of the monitoring loop: from an event of the edge source to what
//! the caller has to do about it.
//!
//! The caller owns the line and the store. It waits on the line, hands each
//! event to [`Validator::handle`], and carries out the action that comes
//! back. An error, like a failure of the line or of the store, ends the loop.

use vstd::prelude::*;
use crate::clock::ClockError;
use crate::edge::EdgeEvent;
use crate::validator::{verdict_for, PulseReport, TimingState, Validator};

verus! {

/// What the caller does after an event.
#[derive(Clone, Copy, Debug, PartialEq, Eq)]
pub enum Action {
    /// The transition was noise. Store nothing and wait for the next event.
    Continue,
    /// The transition was a pulse. Append the report's record to the store,
    /// then wait for the next event.
    Persist(PulseReport),
    /// The line has gone quiet. Leave the loop; this is a normal end.
    Stop,
}

/// The response owed to `event` by a validator in state `s`.
pub open spec fn response_to(s: TimingState, event: EdgeEvent) -> Result<Action, ClockError> {
    match event {
        EdgeEvent::TimedOut => Ok(Action::Stop),
        EdgeEvent::Transition(t) => match verdict_for(s, t) {
            Err(e) => Err(e),
            Ok(None) => Ok(Action::Continue),
            Ok(Some(report)) => Ok(Action::Persist(report)),
        },
    }
}

impl TimingState {
    /// The state once `event` has been handled. Only a transition can change
    /// it.
    pub open spec fn after_event(self, event: EdgeEvent) -> TimingState {
        match event {
            EdgeEvent::TimedOut => self,
            EdgeEvent::Transition(t) => self.after(t.observed_at as nat),
        }
    }
}

impl Validator {
    /// Handles one event of the edge source.
    ///
    /// A timeout changes nothing and asks the caller to stop. A transition
    /// is classified: a pulse is to be persisted, noise is passed over, and a
    /// transition that seems to come before the previous one is an error.
    pub fn handle(&mut self, event: EdgeEvent) -> (r: Result<Action, ClockError>)
        ensures
            r == response_to(old(self)@, event),
            final(self)@ == old(self)@.after_event(event),
            final(self)@.well_ordered(),
            event is TimedOut ==> r == Ok::<Action, ClockError>(Action::Stop) && final(self)@
                == old(self)@,
            r matches Ok(Action::Persist(report)) ==> event matches EdgeEvent::Transition(t)
                && report.record.timestamp_unix_ns == t.observed_at,
    {
        match event {
            EdgeEvent::TimedOut => {
                proof {
                    use_type_invariant(&*self);
                }
                Ok(Action::Stop)
            },
            EdgeEvent::Transition(t) => match self.observe(t) {
                Err(e) => Err(e),
                Ok(None) => Ok(Action::Continue),
                Ok(Some(report)) => Ok(Action::Persist(report)),
            },
        }
    }
}

} // verus!
