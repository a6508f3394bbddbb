use healthcheck::config::{env_bool, env_string, env_u16};
use healthcheck::text::{is_truthy, parse_u16, u64_to_string};

#[test]
fn bool_unset_yields_default_true() {
    assert_eq!(env_bool(None, true), true);
}

#[test]
fn bool_unset_yields_default_false() {
    assert_eq!(env_bool(None, false), false);
}

#[test]
fn bool_zero_is_false() {
    let v = String::from("0");
    assert_eq!(env_bool(Some(&v), true), false);
}

#[test]
fn bool_yes_is_true() {
    let v = String::from("yes");
    assert_eq!(env_bool(Some(&v), false), true);
}

#[test]
fn bool_unrecognized_present_is_false_not_default() {
    let v = String::from("maybe");
    assert_eq!(env_bool(Some(&v), true), false);
}

#[test]
fn bool_empty_present_is_false() {
    let v = String::new();
    assert_eq!(env_bool(Some(&v), true), false);
}

#[test]
fn bool_words_are_case_insensitive() {
    for w in ["1", "true", "TRUE", "True", "yes", "YES", "on", "ON", "oN"] {
        let v = String::from(w);
        assert_eq!(env_bool(Some(&v), false), true, "{}", w);
    }
    for w in ["false", "off", "no", "2", "truee", "tru", " true", "true "] {
        let v = String::from(w);
        assert_eq!(env_bool(Some(&v), true), false, "{}", w);
    }
}

#[test]
fn truthy_matches_bool_rule() {
    assert!(is_truthy("on"));
    assert!(!is_truthy("0"));
}

#[test]
fn port_notanumber_yields_default() {
    let v = String::from("notanumber");
    assert_eq!(env_u16(Some(&v), 5432), 5432);
}

#[test]
fn port_parses() {
    let v = String::from("3307");
    assert_eq!(env_u16(Some(&v), 5432), 3307);
}

#[test]
fn port_unset_yields_default() {
    assert_eq!(env_u16(None, 9000), 9000);
}

#[test]
fn parse_u16_matches_std() {
    for s in [
        "", "+", "0", "+0", "65535", "65536", "99999999999999999999", "1e3", " 5432", "5432 ",
        "-1", "-0", "007", "29092",
    ] {
        assert_eq!(parse_u16(s), s.parse::<u16>().ok(), "{:?}", s);
    }
}

#[test]
fn renders_decimal() {
    assert_eq!(u64_to_string(0), "0");
    assert_eq!(u64_to_string(7), "7");
    assert_eq!(u64_to_string(5432), "5432");
    assert_eq!(u64_to_string(65535), "65535");
    assert_eq!(u64_to_string(u64::MAX), u64::MAX.to_string());
}

#[test]
fn string_present_is_verbatim() {
    assert_eq!(env_string(Some(String::from("valkey")), "redis"), "valkey");
}

#[test]
fn string_missing_is_default() {
    assert_eq!(env_string(None, "redis"), "redis");
}
