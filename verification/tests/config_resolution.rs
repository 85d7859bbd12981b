//! Tests of layered configuration resolution: defaults, precedence, the
//! legacy port override, typed-field failures, and the session policy.

use auth_example::config::{
    env_key_cookie_name, env_key_cookie_ttl_seconds, env_key_legacy_port, env_key_mode,
    env_key_port, env_key_secret_key, AppConfig, ConfigError, ConfigSource, RuntimeMode,
};
use auth_example::hex::hex_encode;
use auth_example::secret::KeyError;

fn source() -> ConfigSource {
    ConfigSource::empty()
}

#[test]
fn defaults_apply_when_nothing_is_set() {
    let cfg = AppConfig::load(&vec![], None).unwrap();
    assert_eq!(cfg.port, 1337);
    assert_eq!(cfg.cookie_name, "auth-example");
    assert_eq!(cfg.cookie_ttl_seconds, 300);
    assert_eq!(cfg.mode, RuntimeMode::Prod);
    assert!(cfg.secret_key.len() >= 64);
}

#[test]
fn default_accessors_match_resolution() {
    assert_eq!(AppConfig::default_port(), 1337);
    assert_eq!(AppConfig::default_cookie_name(), "auth-example");
    assert_eq!(AppConfig::default_cookie_ttl_seconds(), 300);
}

#[test]
fn legacy_port_wins_over_every_layer() {
    let mut base = source();
    base.port = Some("8000".to_string());
    let mut local = source();
    local.port = Some("9000".to_string());
    let mut env = source();
    env.port = Some("7000".to_string());
    let cfg = AppConfig::load(&vec![base, local, env], Some("6000")).unwrap();
    assert_eq!(cfg.port, 6000);
    assert_eq!(cfg.effective_port(), 6000);
}

#[test]
fn without_legacy_the_highest_layer_wins() {
    let mut base = source();
    base.port = Some("8000".to_string());
    let mut local = source();
    local.port = Some("9000".to_string());
    let mut env = source();
    env.port = Some("7000".to_string());
    let cfg = AppConfig::load(&vec![base, local, env], None).unwrap();
    assert_eq!(cfg.port, 7000);
}

#[test]
fn lower_layers_fill_what_higher_layers_leave() {
    let mut base = source();
    base.port = Some("8000".to_string());
    base.mode = Some("dev".to_string());
    let mut env = source();
    env.mode = Some("test".to_string());
    let cfg = AppConfig::load(&vec![base, env], None).unwrap();
    assert_eq!(cfg.port, 8000);
    assert_eq!(cfg.mode, RuntimeMode::Test);
}

#[test]
fn unparseable_legacy_port_is_ignored() {
    let mut env = source();
    env.port = Some("7000".to_string());
    let cfg = AppConfig::load(&vec![env], Some("not-a-port")).unwrap();
    assert_eq!(cfg.port, 7000);
    let mut env = source();
    env.port = Some("7000".to_string());
    let cfg = AppConfig::load(&vec![env], Some("70000")).unwrap();
    assert_eq!(cfg.port, 7000);
}

#[test]
fn unparseable_port_is_fatal() {
    let mut env = source();
    env.port = Some("eighty".to_string());
    let err = AppConfig::load(&vec![env], None).err().unwrap();
    assert_eq!(err, ConfigError::InvalidPort);
    let mut env = source();
    env.port = Some("65536".to_string());
    let err = AppConfig::load(&vec![env], None).err().unwrap();
    assert_eq!(err, ConfigError::InvalidPort);
}

#[test]
fn unparseable_ttl_is_fatal() {
    let mut env = source();
    env.cookie_ttl_seconds = Some("soon".to_string());
    let err = AppConfig::load(&vec![env], None).err().unwrap();
    assert_eq!(err, ConfigError::InvalidTtl);
}

#[test]
fn unknown_mode_is_fatal() {
    let mut env = source();
    env.mode = Some("staging".to_string());
    let err = AppConfig::load(&vec![env], None).err().unwrap();
    assert_eq!(err, ConfigError::InvalidMode);
}

#[test]
fn empty_cookie_name_is_fatal() {
    let mut env = source();
    env.cookie_name = Some(String::new());
    let err = AppConfig::load(&vec![env], None).err().unwrap();
    assert_eq!(err, ConfigError::EmptyCookieName);
}

#[test]
fn rejected_key_material_is_fatal() {
    let mut env = source();
    env.secret_key = Some("hex:abcd".to_string());
    let err = AppConfig::load(&vec![env], None).err().unwrap();
    assert_eq!(err, ConfigError::Key(KeyError::TooShort));
}

#[test]
fn supplied_key_material_is_used_exactly() {
    let material: Vec<u8> = (0..64u8).collect();
    let mut env = source();
    env.secret_key = Some(format!("hex:{}", String::from_utf8(hex_encode(&material)).unwrap()));
    let cfg = AppConfig::load(&vec![env], None).unwrap();
    assert_eq!(cfg.secret_key.clone_key(), material);
}

#[test]
fn mode_parsing_ignores_case() {
    for (text, mode) in [
        ("DEV", RuntimeMode::Dev),
        ("dev", RuntimeMode::Dev),
        ("Prod", RuntimeMode::Prod),
        ("TEST", RuntimeMode::Test),
    ] {
        let mut env = source();
        env.mode = Some(text.to_string());
        let cfg = AppConfig::load(&vec![env], None).unwrap();
        assert_eq!(cfg.mode, mode);
    }
}

#[test]
fn cookie_secure_only_in_prod() {
    for (text, secure) in [("prod", true), ("dev", false), ("test", false)] {
        let mut env = source();
        env.mode = Some(text.to_string());
        let cfg = AppConfig::load(&vec![env], None).unwrap();
        assert_eq!(cfg.cookie_secure(), secure);
    }
}

#[test]
fn ttl_clamps_at_signed_maximum() {
    let mut env = source();
    env.cookie_ttl_seconds = Some(u64::MAX.to_string());
    let cfg = AppConfig::load(&vec![env], None).unwrap();
    assert_eq!(cfg.cookie_ttl(), i64::MAX);
    assert!(cfg.cookie_ttl() >= 0);
}

#[test]
fn ordinary_ttl_is_kept_exactly() {
    let mut env = source();
    env.cookie_ttl_seconds = Some("600".to_string());
    let cfg = AppConfig::load(&vec![env], None).unwrap();
    assert_eq!(cfg.cookie_ttl(), 600);
}

#[test]
fn runtime_mode_labels() {
    assert_eq!(RuntimeMode::Dev.label(), "dev");
    assert_eq!(RuntimeMode::Prod.label(), "prod");
    assert_eq!(RuntimeMode::Test.label(), "test");
    assert_eq!(RuntimeMode::default(), RuntimeMode::Prod);
}

#[test]
fn error_messages_are_fixed() {
    assert_eq!(ConfigError::InvalidPort.message(), "port must be a decimal number between 0 and 65535");
    assert_eq!(ConfigError::EmptyCookieName.message(), "cookie name must not be empty");
    assert_eq!(ConfigError::InvalidTtl.message(), "cookie TTL must be a decimal number of seconds");
    assert_eq!(ConfigError::InvalidMode.message(), "mode must be one of dev, prod, test");
}

#[test]
fn environment_keys_are_canonical() {
    assert_eq!(env_key_port(), "APP__PORT");
    assert_eq!(env_key_cookie_name(), "APP__COOKIE_NAME");
    assert_eq!(env_key_cookie_ttl_seconds(), "APP__COOKIE_TTL_SECONDS");
    assert_eq!(env_key_mode(), "APP__MODE");
    assert_eq!(env_key_secret_key(), "APP__SECRET_KEY");
    assert_eq!(env_key_legacy_port(), "PORT");
}
