//! Tests of the subprocess supervisor: gating, the lifecycle, and the
//! single-run / single-termination guarantees, plus the bridge constants.

use auth_example::config::RuntimeMode;
use auth_example::ssr::{
    base_url, parse_override, ssr_artifact_path, ssr_enabled, ssr_host, SsrGates, SsrOverride,
    SsrState, Supervisor, SSR_PORT,
};

fn gates(mode: RuntimeMode, dev: bool, control: SsrOverride, artifact: bool) -> SsrGates {
    SsrGates { mode, dev_renderer_active: dev, control, artifact_present: artifact }
}

#[test]
fn prod_without_dev_renderer_and_artifact_launches() {
    let mut sup = Supervisor::new();
    assert_eq!(sup.state(), SsrState::NotStarted);
    let launch = sup.gate(gates(RuntimeMode::Prod, false, SsrOverride::Auto, true));
    assert!(launch);
    assert_eq!(sup.state(), SsrState::NotStarted);
    sup.launched();
    assert_eq!(sup.state(), SsrState::Running);
}

#[test]
fn dev_mode_stays_never_started_even_with_artifact() {
    let mut sup = Supervisor::new();
    let launch = sup.gate(gates(RuntimeMode::Dev, false, SsrOverride::Auto, true));
    assert!(!launch);
    assert_eq!(sup.state(), SsrState::NeverStarted);
}

#[test]
fn detected_dev_renderer_disables_launch() {
    assert!(!ssr_enabled(&gates(RuntimeMode::Prod, true, SsrOverride::Auto, true)));
}

#[test]
fn force_enable_never_bypasses_artifact_check() {
    let mut sup = Supervisor::new();
    let launch = sup.gate(gates(RuntimeMode::Prod, false, SsrOverride::ForceOn, false));
    assert!(!launch);
    assert_eq!(sup.state(), SsrState::NeverStarted);
}

#[test]
fn force_enable_bypasses_mode_and_detection() {
    assert!(ssr_enabled(&gates(RuntimeMode::Dev, true, SsrOverride::ForceOn, true)));
}

#[test]
fn force_disable_wins_in_production() {
    assert!(!ssr_enabled(&gates(RuntimeMode::Prod, false, SsrOverride::ForceOff, true)));
}

#[test]
fn test_mode_does_not_launch() {
    assert!(!ssr_enabled(&gates(RuntimeMode::Test, false, SsrOverride::Auto, true)));
}

#[test]
fn spawn_failure_settles_in_never_started() {
    let mut sup = Supervisor::new();
    assert!(sup.gate(gates(RuntimeMode::Prod, false, SsrOverride::Auto, true)));
    sup.launch_failed();
    assert_eq!(sup.state(), SsrState::NeverStarted);
    assert!(!sup.shutdown());
    assert_eq!(sup.state(), SsrState::NeverStarted);
}

#[test]
fn termination_happens_exactly_once() {
    let mut sup = Supervisor::new();
    assert!(sup.gate(gates(RuntimeMode::Prod, false, SsrOverride::Auto, true)));
    sup.launched();
    assert_eq!(sup.state(), SsrState::Running);
    assert!(sup.shutdown());
    assert_eq!(sup.state(), SsrState::Terminated);
    assert!(!sup.shutdown());
    assert_eq!(sup.state(), SsrState::Terminated);
}

#[test]
fn running_is_never_entered_twice() {
    let mut sup = Supervisor::new();
    assert!(sup.gate(gates(RuntimeMode::Prod, false, SsrOverride::Auto, true)));
    sup.launched();
    sup.launched();
    assert_eq!(sup.state(), SsrState::Running);
    assert!(sup.shutdown());
    sup.launched();
    assert_eq!(sup.state(), SsrState::Terminated);
    assert!(!sup.shutdown());
}

#[test]
fn error_path_shutdown_still_terminates() {
    // A shutdown driven by an error path, not a clean exit: the supervisor
    // sees the same event and must terminate the subprocess exactly once.
    let mut sup = Supervisor::new();
    assert!(sup.gate(gates(RuntimeMode::Prod, false, SsrOverride::Auto, true)));
    sup.launched();
    let result: Result<(), &str> = Err("listener failed");
    if result.is_err() {
        assert!(sup.shutdown());
    }
    assert_eq!(sup.state(), SsrState::Terminated);
    assert!(!sup.shutdown());
}

#[test]
fn never_started_lifecycle_has_nothing_to_kill() {
    let mut sup = Supervisor::new();
    assert!(!sup.gate(gates(RuntimeMode::Dev, false, SsrOverride::Auto, true)));
    assert!(!sup.shutdown());
    assert_eq!(sup.state(), SsrState::NeverStarted);
}

#[test]
fn override_parsing_ignores_case() {
    for text in ["off", "FALSE", "0", "Off"] {
        assert_eq!(parse_override(text.as_bytes()), SsrOverride::ForceOff);
    }
    for text in ["on", "True", "1", "ON"] {
        assert_eq!(parse_override(text.as_bytes()), SsrOverride::ForceOn);
    }
    for text in ["", "maybe", "2", "enabled"] {
        assert_eq!(parse_override(text.as_bytes()), SsrOverride::Auto);
    }
}

#[test]
fn bridge_constants_are_fixed() {
    assert_eq!(SSR_PORT, 5174);
    assert_eq!(ssr_artifact_path(), "dist/ssr/ssr.js");
    assert_eq!(ssr_host(), "127.0.0.1");
}

#[test]
fn base_url_renders_the_port() {
    assert_eq!(base_url(1337), "http://localhost:1337");
    assert_eq!(base_url(80), "http://localhost:80");
    assert_eq!(base_url(0), "http://localhost:0");
    assert_eq!(base_url(65535), "http://localhost:65535");
}
