// Tests for timestamp keys and timestamp extraction.

use killjoy::error::Error;
use killjoy::props::{PropValue, UnitProps};
use killjoy::timestamp::{
    get_monotonic_timestamp, get_monotonic_timestamp_key, get_realtime_timestamp,
    get_realtime_timestamp_key,
};
use killjoy::unit::ActiveState;

fn all_states() -> Vec<ActiveState> {
    vec![
        ActiveState::Activating,
        ActiveState::Active,
        ActiveState::Deactivating,
        ActiveState::Failed,
        ActiveState::Inactive,
    ]
}

// get_monotonic_timestamp_key()
#[test]
fn timestamp_test_get_monotonic_timestamp_key() {
    for act_st in all_states() {
        assert!(get_monotonic_timestamp_key(act_st).contains("Monotonic"));
    }
}

// get_realtime_timestamp_key()
#[test]
fn test_get_realtime_timestamp_key() {
    for act_st in all_states() {
        assert!(!get_realtime_timestamp_key(act_st).contains("Monotonic"));
    }
}

// Each state maps to its exact monotonic timestamp property name.
#[test]
fn test_monotonic_timestamp_key_values() {
    assert_eq!(
        get_monotonic_timestamp_key(ActiveState::Activating),
        "InactiveExitTimestampMonotonic"
    );
    assert_eq!(
        get_monotonic_timestamp_key(ActiveState::Active),
        "ActiveEnterTimestampMonotonic"
    );
    assert_eq!(
        get_monotonic_timestamp_key(ActiveState::Deactivating),
        "ActiveExitTimestampMonotonic"
    );
    assert_eq!(
        get_monotonic_timestamp_key(ActiveState::Failed),
        "InactiveEnterTimestampMonotonic"
    );
    assert_eq!(
        get_monotonic_timestamp_key(ActiveState::Inactive),
        "InactiveEnterTimestampMonotonic"
    );
}

// Each state maps to its exact realtime timestamp property name, and every
// returned value is one of the five fixed strings.
#[test]
fn test_realtime_timestamp_key_values() {
    assert_eq!(
        get_realtime_timestamp_key(ActiveState::Activating),
        "InactiveExitTimestamp"
    );
    assert_eq!(
        get_realtime_timestamp_key(ActiveState::Active),
        "ActiveEnterTimestamp"
    );
    assert_eq!(
        get_realtime_timestamp_key(ActiveState::Deactivating),
        "ActiveExitTimestamp"
    );
    assert_eq!(
        get_realtime_timestamp_key(ActiveState::Failed),
        "InactiveEnterTimestamp"
    );
    assert_eq!(
        get_realtime_timestamp_key(ActiveState::Inactive),
        "InactiveEnterTimestamp"
    );
}

// A present, integer-typed timestamp property is read back exactly.
#[test]
fn test_get_monotonic_timestamp_present() {
    let mut props = UnitProps::new();
    props.insert(
        "ActiveEnterTimestampMonotonic".to_string(),
        PropValue::U64(100),
    );
    let ts = get_monotonic_timestamp(ActiveState::Active, &props).expect("timestamp expected");
    assert_eq!(ts.0, 100);
}

// A missing timestamp property is a PropertiesLacksTimestamp error naming the
// state and the key.
#[test]
fn test_get_monotonic_timestamp_missing() {
    let props = UnitProps::new();
    let err = get_monotonic_timestamp(ActiveState::Failed, &props).expect_err("must fail");
    assert!(matches!(
        err,
        Error::PropertiesLacksTimestamp(ActiveState::Failed, k)
            if k == "InactiveEnterTimestampMonotonic"
    ));
}

// A timestamp property of the wrong type is a cast error naming the key.
#[test]
fn test_get_monotonic_timestamp_wrong_type() {
    let mut props = UnitProps::new();
    props.insert(
        "InactiveExitTimestampMonotonic".to_string(),
        PropValue::Str("not a number".to_string()),
    );
    let err = get_monotonic_timestamp(ActiveState::Activating, &props).expect_err("must fail");
    assert!(matches!(
        err,
        Error::CastOrgFreedesktopSystemd1UnitTimestamp(k)
            if k == "InactiveExitTimestampMonotonic"
    ));
}

// The realtime extraction reads its own key.
#[test]
fn test_get_realtime_timestamp_present() {
    let mut props = UnitProps::new();
    props.insert("InactiveEnterTimestamp".to_string(), PropValue::U64(7));
    let ts = get_realtime_timestamp(ActiveState::Inactive, &props).expect("timestamp expected");
    assert_eq!(ts.0, 7);
}

// A later insert under the same property name shadows the earlier value.
#[test]
fn test_unit_props_insert_shadows() {
    let mut props = UnitProps::new();
    props.insert("ActiveEnterTimestampMonotonic".to_string(), PropValue::U64(1));
    props.insert("ActiveEnterTimestampMonotonic".to_string(), PropValue::U64(2));
    let ts = get_monotonic_timestamp(ActiveState::Active, &props).expect("timestamp expected");
    assert_eq!(ts.0, 2);
}
