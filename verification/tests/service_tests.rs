use elgato_autolight::service::{
    classify_stop_result, config_path_in, generate_plist, log_dir_in, plist_path_in,
    service_label, StopOutcome,
};
use elgato_autolight::settings::{default_brightness, default_temperature, MonitorSettings};
use elgato_autolight::supervisor::{log_stream_args, log_stream_program};

#[test]
fn label_is_fixed() {
    assert_eq!(service_label(), "com.wassimk.elgato-autolight");
}

#[test]
fn paths_under_home() {
    assert_eq!(
        config_path_in("/Users/pat"),
        "/Users/pat/.config/elgato-autolight/config.toml"
    );
    assert_eq!(
        plist_path_in("/Users/pat"),
        "/Users/pat/Library/LaunchAgents/com.wassimk.elgato-autolight.plist"
    );
    assert_eq!(log_dir_in("/Users/pat"), "/Users/pat/Library/Logs/elgato-autolight");
}

#[test]
fn plist_has_expected_form() {
    let rendered = generate_plist("/usr/local/bin/autolight", "/Users/pat/Library/Logs/elgato-autolight");
    let expected = format!(
        r#"<?xml version="1.0" encoding="UTF-8"?>
<!DOCTYPE plist PUBLIC "-//Apple//DTD PLIST 1.0//EN" "http://www.apple.com/DTDs/PropertyList-1.0.dtd">
<plist version="1.0">
<dict>
    <key>Label</key>
    <string>com.wassimk.elgato-autolight</string>
    <key>ProgramArguments</key>
    <array>
        <string>{}</string>
        <string>start</string>
    </array>
    <key>KeepAlive</key>
    <true/>
    <key>StandardOutPath</key>
    <string>{}</string>
    <key>StandardErrorPath</key>
    <string>{}</string>
    <key>EnvironmentVariables</key>
    <dict>
        <key>PATH</key>
        <string>/opt/homebrew/bin:/usr/local/bin:/usr/bin:/bin</string>
    </dict>
</dict>
</plist>"#,
        "/usr/local/bin/autolight",
        "/Users/pat/Library/Logs/elgato-autolight/stdout.log",
        "/Users/pat/Library/Logs/elgato-autolight/stderr.log",
    );
    assert_eq!(rendered, expected);
}

#[test]
fn stop_outcome_success_is_stopped() {
    assert_eq!(classify_stop_result(true, ""), StopOutcome::Stopped);
    assert_eq!(classify_stop_result(true, "anything"), StopOutcome::Stopped);
}

#[test]
fn stop_outcome_missing_service_is_not_running() {
    assert_eq!(
        classify_stop_result(false, "Boot-out failed: 3: No such process"),
        StopOutcome::NotRunning
    );
    assert_eq!(
        classify_stop_result(false, "Could not find service \"x\" in domain"),
        StopOutcome::NotRunning
    );
}

#[test]
fn stop_outcome_other_failure_is_failed() {
    assert_eq!(classify_stop_result(false, "permission denied"), StopOutcome::Failed);
    assert_eq!(classify_stop_result(false, ""), StopOutcome::Failed);
}

#[test]
fn log_stream_spawn_is_fixed() {
    assert_eq!(log_stream_program(), "log");
    assert_eq!(
        log_stream_args(),
        vec![
            "stream",
            "--predicate",
            "subsystem == \"com.apple.UVCExtension\" and composedMessage contains \"Post PowerLog\"",
        ]
    );
}

#[test]
fn settings_defaults() {
    assert_eq!(default_brightness(), 10);
    assert_eq!(default_temperature(), 5000);
    let s = MonitorSettings::default();
    assert_eq!(s.brightness, 10);
    assert_eq!(s.temperature, 5000);
    assert!(s.light.is_none());
    assert!(s.ip_address.is_none());
}
