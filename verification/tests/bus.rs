// Tests for the watcher core's helpers: rule matching, path derivation, and
// property decoding.

use killjoy::bus::{
    get_active_state, get_rules_matching_active_state, get_rules_matching_name,
    make_path_like_bus_name, rules_match_name,
};
use killjoy::error::Error;
use killjoy::props::{PropValue, UnitProps};
use killjoy::settings::{get_bus_types, BusType, Expression, Rule};
use killjoy::timestamp::get_monotonic_timestamp_key;
use killjoy::unit::ActiveState;

fn gen_session_rule() -> Rule {
    Rule {
        active_states: Vec::new(),
        bus_type: BusType::Session,
        expression: Expression::UnitName("".to_string()),
        notifiers: Vec::new(),
    }
}

fn gen_system_rule() -> Rule {
    Rule {
        active_states: Vec::new(),
        bus_type: BusType::System,
        expression: Expression::UnitName("".to_string()),
        notifiers: Vec::new(),
    }
}

// get_monotonic_timestamp_key()
#[test]
fn bus_test_get_monotonic_timestamp_key() {
    for act_st in vec![
        ActiveState::Activating,
        ActiveState::Active,
        ActiveState::Deactivating,
        ActiveState::Failed,
        ActiveState::Inactive,
    ] {
        assert!(get_monotonic_timestamp_key(act_st).contains("Monotonic"));
    }
}

#[test]
fn test_make_path_like_bus_name() {
    let path = make_path_like_bus_name("org.freedesktop.systemd1");
    assert_eq!(path, "/org/freedesktop/systemd1");
}

// Let the unit name match zero of two rules.
#[test]
fn test_match_rules_and_names_v1() {
    let mut rules = vec![gen_system_rule(), gen_system_rule()];
    rules[0].expression = Expression::UnitName("foo.mount".to_owned());
    rules[1].expression = Expression::UnitType(".mount".to_owned());

    let unit_name = "bar.service";

    let matching_rules = get_rules_matching_name(&rules, unit_name);
    assert_eq!(matching_rules.len(), 0);

    assert!(!rules_match_name(&rules, unit_name));
}

// Let the unit name match one of two rules.
#[test]
fn test_match_rules_and_names_v2() {
    let mut rules = vec![gen_system_rule(), gen_system_rule()];
    rules[0].expression = Expression::UnitName("foo.mount".to_owned());
    rules[1].expression = Expression::UnitType(".mount".to_owned());

    let unit_name = "bar.mount";

    let matching_rules = get_rules_matching_name(&rules, unit_name);
    assert_eq!(matching_rules.len(), 1);

    assert!(rules_match_name(&rules, unit_name));
}

// Let the unit name match two of two rules.
#[test]
fn test_match_rules_and_names_v3() {
    let mut rules = vec![gen_system_rule(), gen_system_rule()];
    rules[0].expression = Expression::UnitName("foo.mount".to_owned());
    rules[1].expression = Expression::UnitType(".mount".to_owned());

    let unit_name = "foo.mount";

    let matching_rules = get_rules_matching_name(&rules, unit_name);
    assert_eq!(matching_rules.len(), 2);

    assert!(rules_match_name(&rules, unit_name));
}

// Let the unit ActiveState match zero of two rules.
#[test]
fn test_match_rules_and_active_state_v1() {
    let mut rules = vec![gen_system_rule(), gen_system_rule()];
    rules[0].active_states.push(ActiveState::Activating);
    rules[0].active_states.push(ActiveState::Active);
    rules[1].active_states.push(ActiveState::Active);

    let active_state = ActiveState::Inactive;

    let matching_rules = get_rules_matching_active_state(&rules, active_state);
    assert_eq!(matching_rules.len(), 0);
}

// Let the unit ActiveState match one of two rules.
#[test]
fn test_match_rules_and_active_state_v2() {
    let mut rules = vec![gen_system_rule(), gen_system_rule()];
    rules[0].active_states.push(ActiveState::Activating);
    rules[0].active_states.push(ActiveState::Active);
    rules[1].active_states.push(ActiveState::Active);

    let active_state = ActiveState::Activating;

    let matching_rules = get_rules_matching_active_state(&rules, active_state);
    assert_eq!(matching_rules.len(), 1);
}

// Let the unit ActiveState match two of two rules.
#[test]
fn test_match_rules_and_active_state_v3() {
    let mut rules = vec![gen_system_rule(), gen_system_rule()];
    rules[0].active_states.push(ActiveState::Activating);
    rules[0].active_states.push(ActiveState::Active);
    rules[1].active_states.push(ActiveState::Active);

    let active_state = ActiveState::Active;

    let matching_rules = get_rules_matching_active_state(&rules, active_state);
    assert_eq!(matching_rules.len(), 2);
}

// get_bus_types()
#[test]
fn lib_test_get_bus_types_v1() {
    let rules: Vec<Rule> = Vec::new();
    let bus_types = get_bus_types(&rules);
    assert!(!bus_types.contains(&BusType::Session));
    assert!(!bus_types.contains(&BusType::System));
}

// get_bus_types()
#[test]
fn lib_test_get_bus_types_v2() {
    let rules = vec![gen_session_rule()];
    let bus_types: Vec<BusType> = get_bus_types(&rules);
    assert!(bus_types.contains(&BusType::Session));
    assert!(!bus_types.contains(&BusType::System));
}

// get_bus_types()
#[test]
fn lib_test_get_bus_types_v3() {
    let rules = vec![gen_system_rule()];
    let bus_types: Vec<BusType> = get_bus_types(&rules);
    assert!(!bus_types.contains(&BusType::Session));
    assert!(bus_types.contains(&BusType::System));
}

// get_bus_types()
#[test]
fn lib_test_get_bus_types_v4() {
    let rules = vec![gen_session_rule(), gen_system_rule()];
    let bus_types: Vec<BusType> = get_bus_types(&rules);
    assert!(bus_types.contains(&BusType::Session));
    assert!(bus_types.contains(&BusType::System));
}

// get_bus_types() lists each bus type once, however many rules name it.
#[test]
fn test_get_bus_types_deduplicates() {
    let rules = vec![gen_system_rule(), gen_system_rule(), gen_session_rule()];
    let bus_types = get_bus_types(&rules);
    assert_eq!(bus_types.len(), 2);
}

// get_active_state() reads and decodes the ActiveState property.
#[test]
fn test_get_active_state_present() {
    let mut props = UnitProps::new();
    props.insert("ActiveState".to_string(), PropValue::Str("active".to_string()));
    assert_eq!(get_active_state(&props).unwrap(), ActiveState::Active);
}

// get_active_state() reports a missing ActiveState property.
#[test]
fn test_get_active_state_missing() {
    let props = UnitProps::new();
    let err = get_active_state(&props).expect_err("must fail");
    assert!(matches!(err, Error::PropertiesLacksActiveState));
}

// get_active_state() reports an ActiveState property of the wrong type.
#[test]
fn test_get_active_state_wrong_type() {
    let mut props = UnitProps::new();
    props.insert("ActiveState".to_string(), PropValue::U64(1));
    let err = get_active_state(&props).expect_err("must fail");
    assert!(matches!(err, Error::CastOrgFreedesktopSystemd1UnitActiveState));
}

// get_active_state() reports a non-canonical ActiveState string.
#[test]
fn test_get_active_state_invalid() {
    let mut props = UnitProps::new();
    props.insert("ActiveState".to_string(), PropValue::Str("limbo".to_string()));
    let err = get_active_state(&props).expect_err("must fail");
    assert!(matches!(err, Error::InvalidActiveState(s) if s == "limbo"));
}

// The derived path rewrites every dot, keeps every other character, and adds
// exactly one leading slash.
#[test]
fn test_make_path_like_bus_name_shape() {
    let bus_name = "name.test.R1";
    let path = make_path_like_bus_name(bus_name);
    assert_eq!(path, "/name/test/R1");
    assert_eq!(path.len(), bus_name.len() + 1);
}
