use mir00r::settings_window::{settings_window_next, SettingsNext, SettingsOutcome};

#[test]
fn built_window_ends_the_retries() {
    assert_eq!(settings_window_next(1, SettingsOutcome::Built), SettingsNext::Done);
}

#[test]
fn failed_build_waits_longer_each_time() {
    assert_eq!(
        settings_window_next(1, SettingsOutcome::Failed),
        SettingsNext::Wait { millis: 400, retry: true }
    );
    assert_eq!(
        settings_window_next(5, SettingsOutcome::Failed),
        SettingsNext::Wait { millis: 2000, retry: true }
    );
    assert_eq!(
        settings_window_next(6, SettingsOutcome::Failed),
        SettingsNext::Wait { millis: 2400, retry: false }
    );
}

#[test]
fn timeout_or_failed_hand_off_gives_up() {
    assert_eq!(settings_window_next(2, SettingsOutcome::TimedOut), SettingsNext::GiveUp);
    assert_eq!(settings_window_next(3, SettingsOutcome::NotHandedOff), SettingsNext::GiveUp);
}
