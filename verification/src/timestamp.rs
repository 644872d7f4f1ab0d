//! Timestamps, and the property names under which the service manager
//! publishes the instant a unit entered its current lifecycle state.

use vstd::prelude::*;

use crate::error::Error;
use crate::props::{PropValue, PropView, UnitProps};
use crate::unit::ActiveState;

verus! {

/// Microseconds since an arbitrary, monotonically non-decreasing epoch
/// (`CLOCK_MONOTONIC`). Comparable only within one service-manager instance;
/// zero means "has never entered that state".
#[derive(Clone, Copy, Debug, Eq, PartialEq, Structural)]
pub struct MonotonicTimestamp(pub u64);

/// Microseconds since the epoch (`CLOCK_REALTIME`).
#[derive(Clone, Copy, Debug, Eq, PartialEq, Structural)]
pub struct RealtimeTimestamp(pub u64);

/// The monotonic-timestamp property recording when a unit most recently
/// entered the given state.
pub open spec fn monotonic_timestamp_key(active_state: ActiveState) -> Seq<char> {
    match active_state {
        ActiveState::Activating => "InactiveExitTimestampMonotonic"@,
        ActiveState::Active => "ActiveEnterTimestampMonotonic"@,
        ActiveState::Deactivating => "ActiveExitTimestampMonotonic"@,
        ActiveState::Failed => "InactiveEnterTimestampMonotonic"@,
        ActiveState::Inactive => "InactiveEnterTimestampMonotonic"@,
    }
}

/// The realtime-timestamp property recording when a unit most recently
/// entered the given state.
pub open spec fn realtime_timestamp_key(active_state: ActiveState) -> Seq<char> {
    match active_state {
        ActiveState::Activating => "InactiveExitTimestamp"@,
        ActiveState::Active => "ActiveEnterTimestamp"@,
        ActiveState::Deactivating => "ActiveExitTimestamp"@,
        ActiveState::Failed => "InactiveEnterTimestamp"@,
        ActiveState::Inactive => "InactiveEnterTimestamp"@,
    }
}

/// The timestamp-key lookup is total: every lifecycle state maps to one of
/// exactly five fixed property names.
pub proof fn lemma_monotonic_timestamp_key_total(active_state: ActiveState)
    ensures
        monotonic_timestamp_key(active_state) == "InactiveExitTimestampMonotonic"@
            || monotonic_timestamp_key(active_state) == "ActiveEnterTimestampMonotonic"@
            || monotonic_timestamp_key(active_state) == "ActiveExitTimestampMonotonic"@
            || monotonic_timestamp_key(active_state) == "InactiveEnterTimestampMonotonic"@,
{
}

/// Return the name of the monotonic timestamp property for the given state.
pub fn get_monotonic_timestamp_key(active_state: ActiveState) -> (r: &'static str)
    ensures
        r@ == monotonic_timestamp_key(active_state),
{
    match active_state {
        ActiveState::Activating => "InactiveExitTimestampMonotonic",
        ActiveState::Active => "ActiveEnterTimestampMonotonic",
        ActiveState::Deactivating => "ActiveExitTimestampMonotonic",
        ActiveState::Failed => "InactiveEnterTimestampMonotonic",
        ActiveState::Inactive => "InactiveEnterTimestampMonotonic",
    }
}

/// Return the name of the realtime timestamp property for the given state.
pub fn get_realtime_timestamp_key(active_state: ActiveState) -> (r: &'static str)
    ensures
        r@ == realtime_timestamp_key(active_state),
{
    match active_state {
        ActiveState::Activating => "InactiveExitTimestamp",
        ActiveState::Active => "ActiveEnterTimestamp",
        ActiveState::Deactivating => "ActiveExitTimestamp",
        ActiveState::Failed => "InactiveEnterTimestamp",
        ActiveState::Inactive => "InactiveEnterTimestamp",
    }
}

/// Return the monotonic timestamp at which the given state was most recently
/// entered, read from the unit's properties under the state's timestamp key.
pub fn get_monotonic_timestamp(active_state: ActiveState, unit_props: &UnitProps) -> (r: Result<
    MonotonicTimestamp,
    Error,
>)
    ensures
        ({
            let k = monotonic_timestamp_key(active_state);
            &&& !unit_props@.contains_key(k) ==> (r matches Err(
                Error::PropertiesLacksTimestamp(st, ks),
            ) && st == active_state && ks@ == k)
            &&& unit_props@.contains_key(k) ==> match unit_props@[k] {
                PropView::U64(t) => r == Ok::<MonotonicTimestamp, Error>(MonotonicTimestamp(t)),
                _ => r matches Err(Error::CastOrgFreedesktopSystemd1UnitTimestamp(ks)) && ks@ == k,
            }
        }),
{
    let timestamp_key = get_monotonic_timestamp_key(active_state);
    match unit_props.get(timestamp_key) {
        None => Err(Error::PropertiesLacksTimestamp(active_state, timestamp_key.to_owned())),
        Some(PropValue::U64(t)) => Ok(MonotonicTimestamp(*t)),
        Some(_) => Err(Error::CastOrgFreedesktopSystemd1UnitTimestamp(timestamp_key.to_owned())),
    }
}

/// Return the realtime timestamp at which the given state was most recently
/// entered, read from the unit's properties under the state's timestamp key.
pub fn get_realtime_timestamp(active_state: ActiveState, unit_props: &UnitProps) -> (r: Result<
    RealtimeTimestamp,
    Error,
>)
    ensures
        ({
            let k = realtime_timestamp_key(active_state);
            &&& !unit_props@.contains_key(k) ==> (r matches Err(
                Error::PropertiesLacksTimestamp(st, ks),
            ) && st == active_state && ks@ == k)
            &&& unit_props@.contains_key(k) ==> match unit_props@[k] {
                PropView::U64(t) => r == Ok::<RealtimeTimestamp, Error>(RealtimeTimestamp(t)),
                _ => r matches Err(Error::CastOrgFreedesktopSystemd1UnitTimestamp(ks)) && ks@ == k,
            }
        }),
{
    let timestamp_key = get_realtime_timestamp_key(active_state);
    match unit_props.get(timestamp_key) {
        None => Err(Error::PropertiesLacksTimestamp(active_state, timestamp_key.to_owned())),
        Some(PropValue::U64(t)) => Ok(RealtimeTimestamp(*t)),
        Some(_) => Err(Error::CastOrgFreedesktopSystemd1UnitTimestamp(timestamp_key.to_owned())),
    }
}

} // verus!
