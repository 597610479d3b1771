use locaray::settings::{settings_failure, validate_timer, CloseBehavior, Settings, SettingsFailure};

#[test]
fn default_settings() {
    let settings = Settings::default();
    assert_eq!(settings.close_behavior, CloseBehavior::Ask);
    assert_eq!(settings.default_stop_after_minutes, None);
    assert!(!settings.launch_at_login);
    assert!(settings.diagnostic_logging);
    assert_eq!(settings.last_successful_port, None);
}

#[test]
fn only_offered_timers_are_accepted() {
    for minutes in [None, Some(30), Some(60), Some(120)] {
        assert_eq!(validate_timer(minutes), Ok(()));
    }
    for minutes in [Some(0), Some(15), Some(90), Some(121)] {
        let error = validate_timer(minutes).unwrap_err();
        assert_eq!(error.code, "INVALID_TIMER");
        assert_eq!(error.message, "Choose no timer, 30, 60, or 120 minutes.");
    }
}

#[test]
fn settings_failures() {
    assert_eq!(settings_failure(SettingsFailure::Autostart).code, "AUTOSTART_FAILED");
    assert_eq!(settings_failure(SettingsFailure::Open).message, "Settings could not be opened.");
    assert_eq!(settings_failure(SettingsFailure::Save).message, "Settings could not be saved.");
}
