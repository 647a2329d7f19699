use cfg_emit::guard::{env_key, env_value_matches, folded_value_matches};
use cfg_emit::RUSTC;

#[test]
fn env_key_is_upper_case() {
    assert_eq!(env_key("my_env"), "MY_ENV");
    assert_eq!(env_key("MY_ENV"), "MY_ENV");
    assert_eq!(env_key(""), "");
}

#[test]
fn folded_values_compare_exactly() {
    assert!(folded_value_matches(Some("debug"), "debug"));
    assert!(!folded_value_matches(Some("debug"), "release"));
    assert!(!folded_value_matches(Some("Debug"), "debug"));
    assert!(!folded_value_matches(None, "debug"));
    assert!(!folded_value_matches(None, ""));
}

#[test]
fn env_value_match_ignores_case() {
    assert!(env_value_matches(Some("DEBUG"), "debug"));
    assert!(env_value_matches(Some("debug"), "DeBuG"));
    assert!(!env_value_matches(Some("release"), "debug"));
    assert!(!env_value_matches(None, "debug"));
    assert!(env_value_matches(Some(""), ""));
}

#[test]
fn key_if_env_set_present() {
    assert_eq!(
        RUSTC.rustc_cfg_wrap_key_if_env_set("feature_x", true),
        Some("build-tool-namespace::compiler-cfg=feature_x".to_string())
    );
}

#[test]
fn key_if_env_set_absent() {
    assert_eq!(RUSTC.rustc_cfg_wrap_key_if_env_set("feature_x", false), None);
}

#[test]
fn key_if_env_set_empty_value_counts() {
    // an empty value is still a value: the variable is set
    let set = Some("").is_some();
    assert!(RUSTC.rustc_cfg_wrap_key_if_env_set("feature_x", set).is_some());
}

#[test]
fn key_if_env_has_value_matches_upper_case() {
    assert_eq!(
        RUSTC.rustc_cfg_wrap_key_if_env_has_value("feature_x", Some("DEBUG"), "debug"),
        Some("build-tool-namespace::compiler-cfg=feature_x".to_string())
    );
}

#[test]
fn key_if_env_has_value_mismatch() {
    assert_eq!(
        RUSTC.rustc_cfg_wrap_key_if_env_has_value("feature_x", Some("release"), "debug"),
        None
    );
}

#[test]
fn key_if_env_has_value_unset() {
    assert_eq!(
        RUSTC.rustc_cfg_wrap_key_if_env_has_value("feature_x", None, "debug"),
        None
    );
}

#[test]
fn key_value_if_env_set() {
    assert_eq!(
        RUSTC.rustc_cfg_wrap_key_value_if_env_set("feat", "a", true),
        Some("build-tool-namespace::compiler-cfg=feat=\"a\"".to_string())
    );
    assert_eq!(RUSTC.rustc_cfg_wrap_key_value_if_env_set("feat", "a", false), None);
}

#[test]
fn key_value_if_env_has_value() {
    assert_eq!(
        RUSTC.rustc_cfg_wrap_key_value_if_env_has_value("feat", "a", Some("On"), "ON"),
        Some("build-tool-namespace::compiler-cfg=feat=\"a\"".to_string())
    );
    assert_eq!(
        RUSTC.rustc_cfg_wrap_key_value_if_env_has_value("feat", "a", Some("off"), "on"),
        None
    );
}

#[test]
fn key_values_if_env_set() {
    let lines = RUSTC.rustc_cfg_wrap_key_values_if_env_set("feat", &["a", "b"], true);
    assert_eq!(
        lines,
        vec![
            "build-tool-namespace::compiler-cfg=feat=\"a\"".to_string(),
            "build-tool-namespace::compiler-cfg=feat=\"b\"".to_string(),
        ]
    );
    assert!(RUSTC
        .rustc_cfg_wrap_key_values_if_env_set("feat", &["a", "b"], false)
        .is_empty());
}

#[test]
fn key_values_if_env_has_value() {
    let lines =
        RUSTC.rustc_cfg_wrap_key_values_if_env_has_value("feat", &["a"], Some("Yes"), "yes");
    assert_eq!(
        lines,
        vec!["build-tool-namespace::compiler-cfg=feat=\"a\"".to_string()]
    );
    assert!(RUSTC
        .rustc_cfg_wrap_key_values_if_env_has_value("feat", &["a"], None, "yes")
        .is_empty());
}
