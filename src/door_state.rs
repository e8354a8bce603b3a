use std::sync::atomic::{AtomicU8, Ordering};
use std::sync::Arc;
use vstd::prelude::*;
use vstd::string::StringExecFns;

verus! {

/// The logical state of the door, as derived from the reed switch.
#[derive(Copy, Clone, Debug, PartialEq, Eq, Structural)]
pub enum DoorState {
    Open,
    Closed,
    Unknown,
}

impl DoorState {
    /// The one-byte code of each state, as kept by `AtomicDoorState`.
    pub open spec fn code(self) -> u8 {
        match self {
            DoorState::Open => 0,
            DoorState::Closed => 1,
            DoorState::Unknown => 2,
        }
    }

    /// The state a code stands for; a code that names no state reads as unknown.
    pub open spec fn of_code(v: u8) -> DoorState {
        if v == 0 {
            DoorState::Open
        } else if v == 1 {
            DoorState::Closed
        } else {
            DoorState::Unknown
        }
    }

    /// The state read from the switch's level: a low pin means the door is open.
    pub open spec fn of_level(high: bool) -> DoorState {
        if high {
            DoorState::Closed
        } else {
            DoorState::Open
        }
    }

    /// The name under which the state is displayed.
    pub open spec fn name(self) -> Seq<char> {
        match self {
            DoorState::Open => "Open"@,
            DoorState::Closed => "Closed"@,
            DoorState::Unknown => "Unknown"@,
        }
    }

    pub fn to_code(self) -> (r: u8)
        ensures
            r == self.code(),
    {
        match self {
            DoorState::Open => 0,
            DoorState::Closed => 1,
            DoorState::Unknown => 2,
        }
    }

    pub fn from_code(v: u8) -> (r: DoorState)
        ensures
            r == DoorState::of_code(v),
            v <= 2 ==> r.code() == v,
    {
        if v == 0 {
            DoorState::Open
        } else if v == 1 {
            DoorState::Closed
        } else {
            DoorState::Unknown
        }
    }

    /// Converts the level of the door pin into a state.
    pub fn from_level(high: bool) -> (r: DoorState)
        ensures
            r == DoorState::of_level(high),
    {
        if high {
            DoorState::Closed
        } else {
            DoorState::Open
        }
    }

    /// The debouncer's mapping: a readable level gives `Open` or `Closed`,
    /// an unreadable sensor gives `Unknown`.
    pub fn classify(level: Option<bool>) -> (r: DoorState)
        ensures
            r == (match level {
                Some(high) => DoorState::of_level(high),
                None => DoorState::Unknown,
            }),
    {
        match level {
            Some(high) => DoorState::from_level(high),
            None => DoorState::Unknown,
        }
    }

    /// The state's display name: `Open`, `Closed` or `Unknown`.
    pub fn to_string(&self) -> (r: String)
        ensures
            r@ == self.name(),
    {
        match self {
            DoorState::Open => String::from_str("Open"),
            DoorState::Closed => String::from_str("Closed"),
            DoorState::Unknown => String::from_str("Unknown"),
        }
    }
}

impl From<u8> for DoorState {
    fn from(v: u8) -> (r: DoorState) {
        DoorState::from_code(v)
    }
}

impl vstd::std_specs::convert::FromSpecImpl<u8> for DoorState {
    open spec fn obeys_from_spec() -> bool {
        true
    }

    open spec fn from_spec(v: u8) -> DoorState {
        DoorState::of_code(v)
    }
}

/// A door state that several threads share and update without a lock.
///
/// Every handle cloned from one `AtomicDoorState` sees the same cell; what a
/// read returns is whatever some handle stored last.
#[derive(Clone)]
pub struct AtomicDoorState {
    flag: Arc<AtomicU8>,
}

impl AtomicDoorState {
    pub fn new(state: DoorState) -> AtomicDoorState {
        AtomicDoorState { flag: Arc::new(AtomicU8::new(state.to_code())) }
    }

    pub fn open(&self) {
        self.set_state(DoorState::Open)
    }

    pub fn closed(&self) {
        self.set_state(DoorState::Closed)
    }

    pub fn unknown(&self) {
        self.set_state(DoorState::Unknown)
    }

    /// The state that was last stored through any handle of this cell. Other
    /// threads may store at any time, so nothing is promised of which one.
    pub fn get_state(&self) -> DoorState {
        let v = self.flag.load(Ordering::SeqCst);
        DoorState::from_code(v)
    }

    pub fn set_state(&self, state: DoorState) {
        self.flag.store(state.to_code(), Ordering::SeqCst)
    }
}

} // verus!
