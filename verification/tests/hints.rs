use auto_mount::hint::AutoMountConfig;
use auto_mount::hint::ConfigError;
use auto_mount::hint::HintToken;
use auto_mount::AutoMountHint;

#[test]
fn path_only_form_is_enabled_at_path() {
    let h = AutoMountHint::from_path("/foo");
    assert_eq!(h.mount_point, "/foo");
    assert!(h.enabled);
}

#[test]
fn path_and_token_form_takes_both() {
    let h = AutoMountHint::from_path_and_token("/bar", "false").unwrap();
    assert_eq!(h.mount_point, "/bar");
    assert!(!h.enabled);
    let h = AutoMountHint::from_path_and_token("/bar", "true").unwrap();
    assert_eq!(h.mount_point, "/bar");
    assert!(h.enabled);
}

#[test]
fn token_only_form_defaults_to_root() {
    let h = AutoMountHint::from_token("false").unwrap();
    assert_eq!(h.mount_point, "/");
    assert!(!h.enabled);
    let h = AutoMountHint::from_token("true").unwrap();
    assert_eq!(h.mount_point, "/");
    assert!(h.enabled);
}

#[test]
fn default_hint_is_enabled_at_root() {
    let h = AutoMountHint::default();
    assert_eq!(h.mount_point, "/");
    assert!(h.enabled);
}

#[test]
fn bad_token_fails_naming_it() {
    let r = AutoMountHint::from_token("maybe");
    assert_eq!(r, Err(ConfigError::InvalidHintValue("maybe".to_string())));
    let r = AutoMountHint::from_path_and_token("/foo", "enabledish");
    assert_eq!(r, Err(ConfigError::InvalidHintValue("enabledish".to_string())));
    // the canonical spellings are exact: no case folding, no trimming
    let r = AutoMountHint::from_token("True");
    assert_eq!(r, Err(ConfigError::InvalidHintValue("True".to_string())));
}

#[test]
fn parse_literal_only() {
    let tokens = vec![HintToken::Literal("\"/foo\"".to_string())];
    let c = AutoMountConfig::parse(&tokens).unwrap();
    assert_eq!(c.mount_point, "/foo");
    assert!(c.enabled);
}

#[test]
fn parse_literal_and_ident() {
    let tokens = vec![
        HintToken::Literal("\"/foo\"".to_string()),
        HintToken::Ident("false".to_string()),
    ];
    let c = AutoMountConfig::parse(&tokens).unwrap();
    assert_eq!(c.mount_point, "/foo");
    assert!(!c.enabled);
}

#[test]
fn parse_ident_only() {
    let tokens = vec![HintToken::Ident("false".to_string())];
    let c = AutoMountConfig::parse(&tokens).unwrap();
    assert_eq!(c.mount_point, "/");
    assert!(!c.enabled);
}

#[test]
fn parse_rejects_bad_token() {
    let tokens = vec![
        HintToken::Literal("\"/foo\"".to_string()),
        HintToken::Ident("maybe".to_string()),
    ];
    let r = AutoMountConfig::parse(&tokens);
    assert_eq!(r, Err(ConfigError::InvalidHintValue("maybe".to_string())));
}

#[test]
fn parse_keeps_path_verbatim() {
    // not valid path syntax, still accepted unchanged
    let tokens = vec![HintToken::Literal("\"no slash here\"".to_string())];
    let c = AutoMountConfig::parse(&tokens).unwrap();
    assert_eq!(c.mount_point, "no slash here");
}

#[test]
fn set_enabled_reads_boolean_spellings() {
    let mut c = AutoMountConfig { mount_point: "/x".to_string(), enabled: true };
    assert_eq!(c.set_enabled("false"), Ok(()));
    assert!(!c.enabled);
    assert_eq!(c.set_enabled("true"), Ok(()));
    assert!(c.enabled);
}

#[test]
fn set_enabled_rejects_other_tokens_untouched() {
    let mut c = AutoMountConfig { mount_point: "/x".to_string(), enabled: true };
    let r = c.set_enabled("yes");
    assert_eq!(r, Err(ConfigError::InvalidHintValue("yes".to_string())));
    assert!(c.enabled);
    assert_eq!(c.mount_point, "/x");
}

#[test]
fn expand_renders_fields() {
    let c = AutoMountConfig { mount_point: "/foo".to_string(), enabled: true };
    assert_eq!(c.expand(), "mount_point: \"/foo\", enabled: true");
    let c = AutoMountConfig { mount_point: "/".to_string(), enabled: false };
    assert_eq!(c.expand(), "mount_point: \"/\", enabled: false");
}

#[test]
fn expand_escapes_quotes_and_backslashes() {
    let c = AutoMountConfig { mount_point: "a\"b\\c".to_string(), enabled: false };
    assert_eq!(c.expand(), "mount_point: \"a\\\"b\\\\c\", enabled: false");
}

#[test]
fn config_becomes_hint_unchanged() {
    let c = AutoMountConfig { mount_point: "/api".to_string(), enabled: false };
    let h = c.to_hint();
    assert_eq!(h.mount_point, "/api");
    assert!(!h.enabled);
}
