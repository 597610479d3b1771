//! User preferences and the rules they must satisfy.
use vstd::prelude::*;

use crate::state::CommandError;

verus! {

/// What closing the window does while a tunnel is active.
#[derive(Debug, Clone, Copy, PartialEq, Eq, Structural)]
pub enum CloseBehavior {
    Ask,
    KeepRunningInTray,
    StopAndQuit,
}

/// The user's preferences.
#[derive(Debug, Clone, Copy, PartialEq, Eq, Structural)]
pub struct Settings {
    pub close_behavior: CloseBehavior,
    pub default_stop_after_minutes: Option<u16>,
    pub launch_at_login: bool,
    pub diagnostic_logging: bool,
    pub last_successful_port: Option<u16>,
}

/// The preferences of a first start.
pub open spec fn default_settings() -> Settings {
    Settings {
        close_behavior: CloseBehavior::Ask,
        default_stop_after_minutes: None,
        launch_at_login: false,
        diagnostic_logging: true,
        last_successful_port: None,
    }
}

impl Default for Settings {
    fn default() -> (r: Settings)
        ensures
            r == default_settings(),
    {
        Settings {
            close_behavior: CloseBehavior::Ask,
            default_stop_after_minutes: None,
            launch_at_login: false,
            diagnostic_logging: true,
            last_successful_port: None,
        }
    }
}

/// The stop timers offered: none, or 30, 60 or 120 minutes.
pub open spec fn is_offered_timer(minutes: Option<u16>) -> bool {
    match minutes {
        None => true,
        Some(m) => m == 30 || m == 60 || m == 120,
    }
}

/// Accepts only the offered stop timers.
pub fn validate_timer(minutes: Option<u16>) -> (r: Result<(), CommandError>)
    ensures
        r is Ok <==> is_offered_timer(minutes),
        r matches Err(e) ==> e.code@ == "INVALID_TIMER"@ && e.message@
            == "Choose no timer, 30, 60, or 120 minutes."@,
{
    match minutes {
        None => Ok(()),
        Some(m) => if m == 30 || m == 60 || m == 120 {
            Ok(())
        } else {
            Err(CommandError::new("INVALID_TIMER", "Choose no timer, 30, 60, or 120 minutes."))
        },
    }
}

/// What can go wrong while preferences are stored.
#[derive(Debug, Clone, Copy, PartialEq, Eq, Structural)]
pub enum SettingsFailure {
    /// The launch-at-login registration could not be changed.
    Autostart,
    /// The settings store could not be opened.
    Open,
    /// The settings could not be written.
    Save,
}

/// The answer to a failure while preferences are stored.
pub fn settings_failure(failure: SettingsFailure) -> (r: CommandError)
    ensures
        failure == SettingsFailure::Autostart ==> r.code@ == "AUTOSTART_FAILED"@ && r.message@
            == "The launch at login preference could not be updated."@,
        failure == SettingsFailure::Open ==> r.code@ == "SETTINGS_FAILED"@ && r.message@
            == "Settings could not be opened."@,
        failure == SettingsFailure::Save ==> r.code@ == "SETTINGS_FAILED"@ && r.message@
            == "Settings could not be saved."@,
{
    match failure {
        SettingsFailure::Autostart => CommandError::new(
            "AUTOSTART_FAILED",
            "The launch at login preference could not be updated.",
        ),
        SettingsFailure::Open => CommandError::new("SETTINGS_FAILED", "Settings could not be opened."),
        SettingsFailure::Save => CommandError::new("SETTINGS_FAILED", "Settings could not be saved."),
    }
}

} // verus!
