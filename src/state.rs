use crate::door_state::DoorState;
use vstd::prelude::*;

verus! {

/// Where the door stands in its current open episode; `Idle` when no episode
/// is in progress.
///
/// Times are milliseconds on the process's monotonic clock, durations are
/// milliseconds.
#[derive(Copy, Clone, Debug, PartialEq, Eq, Structural)]
pub enum Timestamp {
    Idle,
    /// Holds the instant that the door was detected open
    OpenSince(u64),
    /// Holds the duration that the door remained open
    ClosedAfter(u64),
}

/// The record shared by the sampler, the aggregator, the notifier and the
/// status server.
///
/// On an `Open -> Closed` transition the aggregator clears the episode to
/// `Timestamp::Idle` at once; it never records `ClosedAfter` itself.
#[derive(Copy, Clone, Debug, PartialEq, Eq, Structural)]
pub struct State {
    pub door_state: DoorState,
    pub timestamp: Timestamp,
    /// When an alert was last sent for the current episode.
    pub notified_at: Option<u64>,
}

impl State {
    /// The door state and the episode agree: an open door is in an open
    /// episode, and a closed door is not.
    pub open spec fn wf(self) -> bool {
        &&& (self.door_state == DoorState::Open ==> self.timestamp is OpenSince)
        &&& (self.door_state == DoorState::Closed ==> !(self.timestamp is OpenSince))
    }

    /// The aggregator's transition on one sample taken at `now`.
    pub open spec fn next(self, sample: DoorState, now: u64) -> State {
        match (sample, self.timestamp) {
            (DoorState::Open, Timestamp::OpenSince(_)) => State { door_state: sample, ..self },
            (DoorState::Open, _) => State {
                door_state: sample,
                timestamp: Timestamp::OpenSince(now),
                notified_at: None,
            },
            (DoorState::Closed, Timestamp::OpenSince(_)) => State {
                door_state: sample,
                timestamp: Timestamp::Idle,
                notified_at: None,
            },
            _ => State { door_state: sample, ..self },
        }
    }

    /// The state at process start: nothing is known yet.
    pub open spec fn initial() -> State {
        State { door_state: DoorState::Unknown, timestamp: Timestamp::Idle, notified_at: None }
    }

    /// The state at process start: nothing is known yet.
    pub fn new() -> (r: State)
        ensures
            r == State::initial(),
            r.wf(),
    {
        State { door_state: DoorState::Unknown, timestamp: Timestamp::Idle, notified_at: None }
    }

    /// The state that the aggregator computes from the current one and a sample.
    pub fn next_state(&self, sample: DoorState, now: u64) -> (r: State)
        ensures
            r == self.next(sample, now),
            self.wf() ==> r.wf(),
            r.door_state == sample,
            !(self.timestamp is OpenSince) && r.timestamp is OpenSince ==> r.notified_at is None,
    {
        match (sample, self.timestamp) {
            (DoorState::Open, Timestamp::OpenSince(_)) => State { door_state: sample, ..*self },
            (DoorState::Open, _) => State {
                door_state: sample,
                timestamp: Timestamp::OpenSince(now),
                notified_at: None,
            },
            (DoorState::Closed, Timestamp::OpenSince(_)) => State {
                door_state: sample,
                timestamp: Timestamp::Idle,
                notified_at: None,
            },
            _ => State { door_state: sample, ..*self },
        }
    }

    /// The aggregator's candidate state, handed back only where it differs
    /// from the current one: `None` means no write is needed.
    pub fn changed_state(&self, sample: DoorState, now: u64) -> (r: Option<State>)
        ensures
            r == (if self.next(sample, now) != *self {
                Some(self.next(sample, now))
            } else {
                None
            }),
    {
        let new_state = self.next_state(sample, now);
        if new_state != *self {
            Some(new_state)
        } else {
            None
        }
    }

    /// Applies one sample with an equality-gated write: the record is written
    /// only where the new state differs from the stored one. Returns whether
    /// it was written.
    pub fn apply_sample(&mut self, sample: DoorState, now: u64) -> (written: bool)
        ensures
            *final(self) == old(self).next(sample, now),
            written == (old(self).next(sample, now) != *old(self)),
            old(self).wf() ==> final(self).wf(),
    {
        match self.changed_state(sample, now) {
            Some(new_state) => {
                *self = new_state;
                true
            },
            None => false,
        }
    }

    /// Records that an alert was delivered at `sent_at`. Only `notified_at`
    /// is written.
    pub fn record_notification(&mut self, sent_at: u64)
        ensures
            *final(self) == (State { notified_at: Some(sent_at), ..*old(self) }),
            old(self).wf() ==> final(self).wf(),
    {
        self.notified_at = Some(sent_at);
    }
}

} // verus!
