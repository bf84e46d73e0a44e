use sigma_racer_vehicle::env::{flag, namespaced_name, resolve_var, var_or};

fn s(v: &str) -> Option<String> {
    Some(v.to_string())
}

#[test]
fn namespaced_name_prefixes_primary() {
    assert_eq!(namespaced_name("VEHICLE_SOURCE"), "SIGMA_RACER_WINGMAN_VEHICLE_SOURCE");
    assert_eq!(namespaced_name(""), "SIGMA_RACER_WINGMAN_");
}

#[test]
fn namespaced_value_wins_over_bare() {
    assert_eq!(resolve_var(s("can"), s("sim")), s("can"));
}

#[test]
fn bare_value_used_when_namespaced_missing() {
    assert_eq!(resolve_var(None, s("sim")), s("sim"));
}

#[test]
fn empty_namespaced_value_counts_as_unset() {
    assert_eq!(resolve_var(s(""), s("sim")), s("sim"));
    assert_eq!(resolve_var(s(""), None), None);
}

#[test]
fn empty_bare_value_counts_as_unset() {
    assert_eq!(resolve_var(None, s("")), None);
    assert_eq!(resolve_var(s(""), s("")), None);
    assert_eq!(resolve_var(None, None), None);
}

#[test]
fn var_or_falls_back_to_default() {
    assert_eq!(var_or(None, "sim"), "sim");
    assert_eq!(var_or(s("can"), "sim"), "can");
    assert_eq!(var_or(resolve_var(s(""), s("")), "can0"), "can0");
    assert_eq!(var_or(resolve_var(None, s("vcan0")), "can0"), "vcan0");
}

#[test]
fn flag_accepts_exactly_four_spellings() {
    for on in ["1", "true", "TRUE", "yes"] {
        assert!(flag(s(on)), "{on} should enable");
    }
    for off in ["0", "false", "True", "YES", "y", "on", "", " 1", "1 ", "truee"] {
        assert!(!flag(s(off)), "{off} should not enable");
    }
    assert!(!flag(None));
}

#[test]
fn flag_of_unset_variable_is_off() {
    assert!(!flag(resolve_var(s(""), None)));
    assert!(flag(resolve_var(s(""), s("yes"))));
}
