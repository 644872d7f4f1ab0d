// End-to-end tests of the watcher core: bootstrap, signals, and the
// notifications they give rise to.

use killjoy::bus::BusWatcher;
use killjoy::props::{PropValue, UnitProps};
use killjoy::settings::{BusType, Notifier, Rule, Settings};
use killjoy::unit::ActiveState;

// A configuration with one rule: watch `foo.service` for the failed state,
// notifying recipient "r" at name.test.R1 on the session bus.
fn foo_failed_settings() -> Settings {
    let notifiers = vec![(
        "r".to_string(),
        Notifier::new("name.test.R1", BusType::Session).unwrap(),
    )];
    let rule = Rule::try_from_parts(
        &vec!["failed".to_string()],
        "session",
        "foo.service",
        "unit name",
        &vec!["r".to_string()],
    )
    .unwrap();
    Settings::from_parts(notifiers, vec![rule]).unwrap()
}

fn foo_active_props() -> UnitProps {
    let mut props = UnitProps::new();
    props.insert("ActiveState".to_string(), PropValue::Str("active".to_string()));
    props.insert(
        "ActiveEnterTimestampMonotonic".to_string(),
        PropValue::U64(100),
    );
    props
}

// Bootstrap with one matching active unit: a state machine is created with
// (active, 100) and nothing is notified, since active is not interesting.
#[test]
fn test_bootstrap_one_matching_active_unit() {
    let mut watcher = BusWatcher::new(foo_failed_settings());
    assert!(watcher.should_watch("foo.service"));
    assert!(!watcher.should_watch("bar.service"));

    let msgs = watcher
        .upsert_unit_states("foo.service", &foo_active_props())
        .expect("bootstrap upsert failed");
    assert_eq!(msgs.len(), 0);

    let usm = watcher.get_unit_state("foo.service").expect("state machine expected");
    assert_eq!(usm.active_state(), ActiveState::Active);
    assert_eq!(usm.timestamp(), 100);
}

// Bootstrap, then a failure signal: the state machine moves to (failed, 200)
// and exactly one notification is owed, bit for bit.
#[test]
fn test_bootstrap_then_failure_signal() {
    let mut watcher = BusWatcher::new(foo_failed_settings());
    watcher
        .upsert_unit_states("foo.service", &foo_active_props())
        .expect("bootstrap upsert failed");

    let mut changed = UnitProps::new();
    changed.insert("ActiveState".to_string(), PropValue::Str("failed".to_string()));
    changed.insert(
        "InactiveEnterTimestampMonotonic".to_string(),
        PropValue::U64(200),
    );
    let msgs = watcher
        .handle_properties_changed("org.freedesktop.systemd1.Unit", &changed, "foo.service")
        .expect("signal handling failed");

    assert_eq!(msgs.len(), 1);
    let msg = &msgs[0];
    assert_eq!(msg.destination, "name.test.R1");
    assert_eq!(msg.path, "/name/test/R1");
    assert_eq!(msg.interface, "name.jerebear.KilljoyNotifier1");
    assert_eq!(msg.member, "Notify");
    assert_eq!(msg.timestamp, 200);
    assert_eq!(msg.unit_name, "foo.service");
    assert_eq!(msg.active_states, vec!["failed".to_string(), "active".to_string()]);
    assert_eq!(msg.bus_type, BusType::Session);

    let usm = watcher.get_unit_state("foo.service").expect("state machine expected");
    assert_eq!(usm.active_state(), ActiveState::Failed);
    assert_eq!(usm.timestamp(), 200);
}

// Out-of-order reply discarded: a late reply carrying (activating, 300) after
// a signal created (active, 500) changes nothing and fires nothing.
#[test]
fn test_out_of_order_reply_discarded() {
    let mut watcher = BusWatcher::new(foo_failed_settings());
    let mut signal_props = UnitProps::new();
    signal_props.insert("ActiveState".to_string(), PropValue::Str("active".to_string()));
    signal_props.insert(
        "ActiveEnterTimestampMonotonic".to_string(),
        PropValue::U64(500),
    );
    watcher
        .upsert_unit_states("foo.service", &signal_props)
        .expect("signal upsert failed");

    let mut late_reply = UnitProps::new();
    late_reply.insert(
        "ActiveState".to_string(),
        PropValue::Str("activating".to_string()),
    );
    late_reply.insert(
        "InactiveExitTimestampMonotonic".to_string(),
        PropValue::U64(300),
    );
    let msgs = watcher
        .upsert_unit_states("foo.service", &late_reply)
        .expect("late reply upsert failed");
    assert_eq!(msgs.len(), 0);

    let usm = watcher.get_unit_state("foo.service").expect("state machine expected");
    assert_eq!(usm.active_state(), ActiveState::Active);
    assert_eq!(usm.timestamp(), 500);
}

// Equal timestamp, different state: the update requires a strictly newer
// timestamp, so nothing changes and nothing fires.
#[test]
fn test_equal_timestamp_different_state() {
    let mut watcher = BusWatcher::new(foo_failed_settings());
    let mut props = UnitProps::new();
    props.insert("ActiveState".to_string(), PropValue::Str("active".to_string()));
    props.insert(
        "ActiveEnterTimestampMonotonic".to_string(),
        PropValue::U64(500),
    );
    watcher.upsert_unit_states("foo.service", &props).expect("upsert failed");

    let mut update = UnitProps::new();
    update.insert("ActiveState".to_string(), PropValue::Str("failed".to_string()));
    update.insert(
        "InactiveEnterTimestampMonotonic".to_string(),
        PropValue::U64(500),
    );
    let msgs = watcher.upsert_unit_states("foo.service", &update).expect("upsert failed");
    assert_eq!(msgs.len(), 0);

    let usm = watcher.get_unit_state("foo.service").expect("state machine expected");
    assert_eq!(usm.active_state(), ActiveState::Active);
    assert_eq!(usm.timestamp(), 500);
}

// UnitNew / UnitRemoved cycle: a matching unit gets a state machine on
// UnitNew and loses it on UnitRemoved; removing it again is a no-op.
#[test]
fn test_unit_new_unit_removed_cycle() {
    let notifiers = vec![(
        "r".to_string(),
        Notifier::new("name.test.R1", BusType::Session).unwrap(),
    )];
    let rule = Rule::try_from_parts(
        &vec!["failed".to_string()],
        "session",
        ".mount",
        "unit type",
        &vec!["r".to_string()],
    )
    .unwrap();
    let settings = Settings::from_parts(notifiers, vec![rule]).unwrap();
    let mut watcher = BusWatcher::new(settings);

    assert!(watcher.should_watch("bar.mount"));
    let mut props = UnitProps::new();
    props.insert("ActiveState".to_string(), PropValue::Str("active".to_string()));
    props.insert(
        "ActiveEnterTimestampMonotonic".to_string(),
        PropValue::U64(10),
    );
    watcher.handle_unit_new("bar.mount", &props).expect("unit-new handling failed");
    assert!(watcher.get_unit_state("bar.mount").is_some());

    let matched = watcher.handle_unit_removed("bar.mount");
    assert!(matched);
    assert!(watcher.get_unit_state("bar.mount").is_none());

    // Removing a state-machine entry that does not exist is a no-op.
    let matched = watcher.handle_unit_removed("bar.mount");
    assert!(matched);
    assert!(watcher.get_unit_state("bar.mount").is_none());
}

// A non-matching unit is ignored on UnitNew and UnitRemoved.
#[test]
fn test_unit_new_not_interesting() {
    let mut watcher = BusWatcher::new(foo_failed_settings());
    let msgs = watcher
        .handle_unit_new("bar.service", &foo_active_props())
        .expect("unit-new handling failed");
    assert_eq!(msgs.len(), 0);
    assert!(watcher.get_unit_state("bar.service").is_none());
    assert!(!watcher.handle_unit_removed("bar.service"));
}

// Missing ActiveState in PropertiesChanged: silently ignored, no state
// machine changes, no notifications.
#[test]
fn test_missing_active_state_in_properties_changed() {
    let mut watcher = BusWatcher::new(foo_failed_settings());
    watcher
        .upsert_unit_states("foo.service", &foo_active_props())
        .expect("bootstrap upsert failed");

    let mut changed = UnitProps::new();
    changed.insert(
        "InactiveEnterTimestampMonotonic".to_string(),
        PropValue::U64(999),
    );
    let msgs = watcher
        .handle_properties_changed("org.freedesktop.systemd1.Unit", &changed, "foo.service")
        .expect("signal handling failed");
    assert_eq!(msgs.len(), 0);

    let usm = watcher.get_unit_state("foo.service").expect("state machine expected");
    assert_eq!(usm.active_state(), ActiveState::Active);
    assert_eq!(usm.timestamp(), 100);
}

// A PropertiesChanged on some other interface is ignored outright.
#[test]
fn test_properties_changed_other_interface() {
    let mut watcher = BusWatcher::new(foo_failed_settings());
    let mut changed = UnitProps::new();
    changed.insert("ActiveState".to_string(), PropValue::Str("failed".to_string()));
    changed.insert(
        "InactiveEnterTimestampMonotonic".to_string(),
        PropValue::U64(200),
    );
    let msgs = watcher
        .handle_properties_changed("org.freedesktop.systemd1.Service", &changed, "foo.service")
        .expect("signal handling failed");
    assert_eq!(msgs.len(), 0);
    assert!(watcher.get_unit_state("foo.service").is_none());
}

// A state change whose matching timestamp is absent is fatal for the worker.
#[test]
fn test_properties_changed_missing_timestamp_is_fatal() {
    let mut watcher = BusWatcher::new(foo_failed_settings());
    let mut changed = UnitProps::new();
    changed.insert("ActiveState".to_string(), PropValue::Str("failed".to_string()));
    let err = watcher
        .handle_properties_changed("org.freedesktop.systemd1.Unit", &changed, "foo.service")
        .expect_err("must fail");
    assert_eq!(
        err.message(),
        "A unit has entered the failed state, but that unit's properties lack a timestamp \
         named 'InactiveEnterTimestampMonotonic'."
    );
}

// Creation fires once: a first observation in an interesting state yields
// one notification whose state sequence has no prior state appended.
#[test]
fn test_creation_fires_once_with_no_prior_state() {
    let notifiers = vec![(
        "r".to_string(),
        Notifier::new("name.test.R1", BusType::Session).unwrap(),
    )];
    let rule = Rule::try_from_parts(
        &vec!["active".to_string()],
        "session",
        "foo.service",
        "unit name",
        &vec!["r".to_string()],
    )
    .unwrap();
    let settings = Settings::from_parts(notifiers, vec![rule]).unwrap();
    let mut watcher = BusWatcher::new(settings);

    let msgs = watcher
        .upsert_unit_states("foo.service", &foo_active_props())
        .expect("bootstrap upsert failed");
    assert_eq!(msgs.len(), 1);
    assert_eq!(msgs[0].timestamp, 100);
    assert_eq!(msgs[0].active_states, vec!["active".to_string()]);
}

// A transition whose rule names an unknown recipient label is fatal.
#[test]
fn test_transition_with_unknown_label_is_fatal() {
    // Bypass Settings::from_parts' referential check by building the parts
    // directly: the runtime still reports the unresolved label.
    let settings = Settings {
        notifiers: Vec::new(),
        rules: vec![Rule {
            active_states: vec![ActiveState::Failed],
            bus_type: BusType::Session,
            expression: killjoy::settings::Expression::UnitName("foo.service".to_string()),
            notifiers: vec!["ghost".to_string()],
        }],
    };
    let mut watcher = BusWatcher::new(settings);
    let mut props = UnitProps::new();
    props.insert("ActiveState".to_string(), PropValue::Str("failed".to_string()));
    props.insert(
        "InactiveEnterTimestampMonotonic".to_string(),
        PropValue::U64(5),
    );
    let err = watcher.upsert_unit_states("foo.service", &props).expect_err("must fail");
    assert_eq!(err.message(), "Rule references non-existent notifier: ghost");
}
