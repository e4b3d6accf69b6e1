//! Configuration loading, defaults, overrides, and the error texts.

use netwatch_agent::config::{Config, ConfigError, EnvOverrides, ServerConfig};
use netwatch_agent::errors::{CaptureError, ConnectError};

fn no_env() -> EnvOverrides {
    EnvOverrides {
        server_url: None,
        auto_start: None,
        screenshot_interval: None,
        admin_password_hash: None,
    }
}

#[test]
fn test_default_config() {
    let config = Config::default();
    assert!(config.server_url.is_empty());
    assert!(config.auto_start);
    assert_eq!(config.screenshot_interval, 5000);
    assert_eq!(config.heartbeat_interval, 10000);
}

#[test]
fn load_prefers_the_file_outright() {
    let mut file_config = Config::default();
    file_config.server_url = String::from("wss://example.test/agent");
    file_config.screenshot_interval = 9000;
    let env = EnvOverrides {
        screenshot_interval: Some(String::from("1234")),
        ..no_env()
    };
    let loaded = Config::load(Some(file_config), &env).expect("loading never fails");
    assert_eq!(loaded.server_url, "wss://example.test/agent");
    // The environment does not override a configuration file.
    assert_eq!(loaded.screenshot_interval, 9000);
}

#[test]
fn load_without_a_file_applies_the_environment() {
    let env = EnvOverrides {
        server_url: Some(String::from("wss://example.test/agent")),
        auto_start: Some(String::from("false")),
        screenshot_interval: Some(String::from("2500")),
        admin_password_hash: Some(String::from("deadbeef")),
    };
    let loaded = Config::load(None, &env).expect("loading never fails");
    assert_eq!(loaded.server_url, "wss://example.test/agent");
    assert!(!loaded.auto_start);
    assert_eq!(loaded.screenshot_interval, 2500);
    assert_eq!(loaded.admin_password_hash.as_deref(), Some("deadbeef"));
    // Untouched fields keep their defaults.
    assert_eq!(loaded.activity_log_interval, 10000);
    assert_eq!(loaded.keystroke_buffer_size, 100);
    assert_eq!(loaded.clipboard_interval, 2000);
}

#[test]
fn unparsable_environment_values_fall_back() {
    let env = EnvOverrides {
        auto_start: Some(String::from("maybe")),
        screenshot_interval: Some(String::from("soon")),
        ..no_env()
    };
    let loaded = Config::load(None, &env).expect("loading never fails");
    // An unparsable auto-start flag means on; an unparsable interval is
    // ignored.
    assert!(loaded.auto_start);
    assert_eq!(loaded.screenshot_interval, 5000);
}

#[test]
fn server_overrides_replace_fields_one_by_one() {
    let mut config = Config::default();
    config.update_from_server(&ServerConfig {
        screenshot_interval: Some(1500),
        activity_log_interval: None,
        keystroke_buffer_size: Some(64),
    });
    assert_eq!(config.screenshot_interval, 1500);
    assert_eq!(config.activity_log_interval, 10000);
    assert_eq!(config.keystroke_buffer_size, 64);
}

#[test]
fn config_error_messages() {
    assert_eq!(
        ConfigError::Io(String::from("permission denied")).message(),
        "IO error: permission denied"
    );
    assert_eq!(
        ConfigError::Parse(String::from("bad json")).message(),
        "Parse error: bad json"
    );
}

#[test]
fn connect_error_message() {
    assert_eq!(
        ConnectError::NetworkError(String::from("connection refused")).message(),
        "Network error: connection refused"
    );
}

#[test]
fn capture_error_messages() {
    assert_eq!(
        CaptureError::ScreenList(String::from("x11 gone")).message(),
        "Failed to list screens: x11 gone"
    );
    assert_eq!(CaptureError::NoScreens.message(), "No screens available");
    assert_eq!(
        CaptureError::Capture(String::from("denied")).message(),
        "Screen capture failed: denied"
    );
    assert_eq!(
        CaptureError::Conversion(String::from("bad pixels")).message(),
        "Image conversion failed: bad pixels"
    );
    assert_eq!(
        CaptureError::Encoding(String::from("jpeg")).message(),
        "Image encoding failed: jpeg"
    );
    assert_eq!(
        CaptureError::Send(String::from("closed")).message(),
        "Failed to send: closed"
    );
}
