//! Unit lifecycle states, their string codec, and the per-unit state machine.

use vstd::prelude::*;

use crate::error::Error;
use crate::strutil::str_eq;
use crate::timestamp::MonotonicTimestamp;

verus! {

/// The possible values of a unit's `ActiveState` property.
///
/// The service manager reports a unit's lifecycle state as a string; this
/// enum is the closed set of states the core works with.
#[derive(Clone, Copy, Debug, Eq, Hash, PartialEq, Structural)]
pub enum ActiveState {
    Activating,
    Active,
    Deactivating,
    Failed,
    Inactive,
}

/// The canonical string for each lifecycle state.
pub open spec fn encode_active_state(s: ActiveState) -> Seq<char> {
    match s {
        ActiveState::Activating => "activating"@,
        ActiveState::Active => "active"@,
        ActiveState::Deactivating => "deactivating"@,
        ActiveState::Failed => "failed"@,
        ActiveState::Inactive => "inactive"@,
    }
}

/// The lifecycle state a canonical string stands for; `None` for any other
/// string.
pub open spec fn decode_active_state(s: Seq<char>) -> Option<ActiveState> {
    if s == "activating"@ {
        Some(ActiveState::Activating)
    } else if s == "active"@ {
        Some(ActiveState::Active)
    } else if s == "deactivating"@ {
        Some(ActiveState::Deactivating)
    } else if s == "failed"@ {
        Some(ActiveState::Failed)
    } else if s == "inactive"@ {
        Some(ActiveState::Inactive)
    } else {
        None
    }
}

/// Decoding a state's canonical string yields that state back.
pub proof fn lemma_codec_round_trip(v: ActiveState)
    ensures
        decode_active_state(encode_active_state(v)) == Some(v),
{
    reveal_strlit("activating");
    reveal_strlit("active");
    reveal_strlit("deactivating");
    reveal_strlit("failed");
    reveal_strlit("inactive");
    assert("activating"@.len() == 10);
    assert("active"@.len() == 6);
    assert("deactivating"@.len() == 12);
    assert("failed"@.len() == 6);
    assert("inactive"@.len() == 8);
    assert("active"@[0] == 'a');
    assert("failed"@[0] == 'f');
}

/// Encoding the state a canonical string decodes to yields that string back.
pub proof fn lemma_codec_round_trip_str(s: Seq<char>)
    ensures
        decode_active_state(s) matches Some(v) ==> encode_active_state(v) == s,
{
    reveal_strlit("activating");
    reveal_strlit("active");
    reveal_strlit("deactivating");
    reveal_strlit("failed");
    reveal_strlit("inactive");
}

impl ActiveState {
    /// Decode a lifecycle state from its canonical string; any other string
    /// is an `InvalidActiveState` error carrying that string.
    pub fn decode(value: &str) -> (r: Result<ActiveState, Error>)
        ensures
            match decode_active_state(value@) {
                Some(st) => r == Ok::<ActiveState, Error>(st),
                None => r matches Err(Error::InvalidActiveState(s)) && s@ == value@,
            },
    {
        if str_eq(value, "activating") {
            Ok(ActiveState::Activating)
        } else if str_eq(value, "active") {
            Ok(ActiveState::Active)
        } else if str_eq(value, "deactivating") {
            Ok(ActiveState::Deactivating)
        } else if str_eq(value, "failed") {
            Ok(ActiveState::Failed)
        } else if str_eq(value, "inactive") {
            Ok(ActiveState::Inactive)
        } else {
            Err(Error::InvalidActiveState(value.to_owned()))
        }
    }

    /// Encode a lifecycle state as its canonical string.
    pub fn encode(&self) -> (r: String)
        ensures
            r@ == encode_active_state(*self),
    {
        match self {
            ActiveState::Activating => "activating".to_owned(),
            ActiveState::Active => "active".to_owned(),
            ActiveState::Deactivating => "deactivating".to_owned(),
            ActiveState::Failed => "failed".to_owned(),
            ActiveState::Inactive => "inactive".to_owned(),
        }
    }
}

/// A per-unit record of the last accepted observation: the unit's lifecycle
/// state and the monotonic timestamp at which it entered that state.
///
/// The timestamp only ever grows; an observation carrying an older or equal
/// timestamp is discarded in full.
#[derive(Debug)]
pub struct UnitStateMachine {
    active_state: ActiveState,
    mono_ts: MonotonicTimestamp,
}

impl View for UnitStateMachine {
    type V = (ActiveState, u64);

    closed spec fn view(&self) -> (ActiveState, u64) {
        (self.active_state, self.mono_ts.0)
    }
}

impl UnitStateMachine {
    /// The recorded lifecycle state.
    pub open spec fn spec_state(&self) -> ActiveState {
        self@.0
    }

    /// The recorded monotonic timestamp, in microseconds.
    pub open spec fn spec_timestamp(&self) -> u64 {
        self@.1
    }

    /// Record a first observation. The caller reports this creation as a
    /// transition out of "no state".
    pub fn new(active_state: ActiveState, mono_ts: MonotonicTimestamp) -> (r: Self)
        ensures
            r.spec_state() == active_state,
            r.spec_timestamp() == mono_ts.0,
    {
        UnitStateMachine { active_state, mono_ts }
    }

    /// Fold a new observation in. An observation is accepted only when its
    /// timestamp is strictly newer than the recorded one; an accepted
    /// observation that changes the state yields `Some` with the state it
    /// replaced, the caller's cue to notify.
    pub fn update(&mut self, active_state: ActiveState, mono_ts: MonotonicTimestamp) -> (fired:
        Option<ActiveState>)
        ensures
            final(self).spec_timestamp() >= old(self).spec_timestamp(),
            mono_ts.0 <= old(self).spec_timestamp() ==> *final(self) == *old(self),
            mono_ts.0 > old(self).spec_timestamp() ==> final(self).spec_timestamp() == mono_ts.0,
            mono_ts.0 > old(self).spec_timestamp() ==> final(self).spec_state() == active_state,
            fired is Some <==> (mono_ts.0 > old(self).spec_timestamp() && active_state != old(
                self,
            ).spec_state()),
            fired matches Some(prior) ==> prior == old(self).spec_state(),
    {
        if self.mono_ts.0 < mono_ts.0 {
            self.mono_ts = mono_ts;
            if self.active_state != active_state {
                let old_state = self.active_state;
                self.active_state = active_state;
                return Some(old_state);
            }
        }
        None
    }

    /// The recorded lifecycle state.
    pub fn active_state(&self) -> (r: ActiveState)
        ensures
            r == self.spec_state(),
    {
        self.active_state
    }

    /// The recorded monotonic timestamp, in microseconds.
    pub fn timestamp(&self) -> (r: u64)
        ensures
            r == self.spec_timestamp(),
    {
        self.mono_ts.0
    }
}

} // verus!
