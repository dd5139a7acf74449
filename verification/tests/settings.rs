use hanyeongkey::settings::hides_instead_of_closing;
use hanyeongkey::settings::model::{HotkeyMode, ProviderPreference, Settings};
use hanyeongkey::settings::startup::{removal_outcome, startup_command};
use hanyeongkey::settings::store::{
    settings_after_startup_registration, settings_from_file, SettingsError, SettingsStore,
    StartupError, StoredSettings, UpdateAction, UpdateEvent, UpdateStep,
};

#[test]
fn defaults_match_product_requirements() {
    let settings = Settings::default();
    assert!(!settings.launch_at_startup);
    assert!(settings.enable_conversion);
    assert_eq!(settings.hotkey_mode, HotkeyMode::HangulEnglishKey);
    assert_eq!(settings.selection_provider, ProviderPreference::Automatic);
    assert_eq!(settings.replacement_provider, ProviderPreference::Automatic);
    assert!(!settings.debug_logging);
    assert!(settings.validate().is_ok());
}

#[test]
fn creates_default_configuration_when_missing() {
    let loaded = settings_from_file(StoredSettings::Missing);
    assert_eq!(loaded, Settings::default());
    assert_eq!(settings_after_startup_registration(loaded, true), Settings::default());
}

#[test]
fn loads_existing_configuration() {
    let expected = Settings {
        enable_conversion: false,
        selection_provider: ProviderPreference::ClipboardOnly,
        ..Settings::default()
    };
    assert_eq!(settings_from_file(StoredSettings::Decoded(expected)), expected);
}

#[test]
fn corrupted_configuration_recovers_to_defaults() {
    assert_eq!(settings_from_file(StoredSettings::Malformed), Settings::default());
}

#[test]
fn an_unreadable_file_recovers_to_defaults() {
    assert_eq!(settings_from_file(StoredSettings::Unreadable), Settings::default());
}

#[test]
fn failed_startup_registration_at_load_disables_launch_at_startup() {
    let wanted = Settings {
        launch_at_startup: true,
        ..Settings::default()
    };
    assert_eq!(settings_after_startup_registration(wanted, true), wanted);
    assert!(!settings_after_startup_registration(wanted, false).launch_at_startup);
}

fn perform(step: UpdateStep) -> UpdateAction {
    match step {
        UpdateStep::Perform(action) => action,
        UpdateStep::Finished(result) => panic!("finished early: {result:?}"),
    }
}

#[test]
fn startup_registration_enables_and_disables() {
    let mut store = SettingsStore::new(Settings::default());
    let mut registrations = Vec::new();
    for launch in [true, false] {
        let next = Settings {
            launch_at_startup: launch,
            ..Settings::default()
        };
        match perform(store.step(UpdateEvent::Requested(next))) {
            UpdateAction::RegisterStartup(enabled) => registrations.push(enabled),
            other => panic!("unexpected {other:?}"),
        }
        assert!(matches!(
            perform(store.step(UpdateEvent::StartupRegistered(Ok(())))),
            UpdateAction::Save(saved) if saved == next
        ));
        assert!(matches!(
            store.step(UpdateEvent::Saved(Ok(()))),
            UpdateStep::Finished(Ok(saved)) if saved == next
        ));
    }
    assert_eq!(registrations, vec![true, false]);
    assert_eq!(store.current(), Settings::default());
}

#[test]
fn startup_failure_keeps_settings_consistent() {
    let mut store = SettingsStore::new(Settings::default());
    perform(store.step(UpdateEvent::Requested(Settings {
        launch_at_startup: true,
        ..Settings::default()
    })));
    let result = store.step(UpdateEvent::StartupRegistered(Err(StartupError::Unavailable)));
    assert!(matches!(
        result,
        UpdateStep::Finished(Err(SettingsError::Startup(StartupError::Unavailable)))
    ));
    assert!(!store.current().launch_at_startup);
    assert!(!store.is_updating());
}

#[test]
fn a_failed_save_rolls_back_the_registration() {
    let mut store = SettingsStore::new(Settings::default());
    perform(store.step(UpdateEvent::Requested(Settings {
        launch_at_startup: true,
        ..Settings::default()
    })));
    perform(store.step(UpdateEvent::StartupRegistered(Ok(()))));
    assert!(matches!(
        perform(store.step(UpdateEvent::Saved(Err(SettingsError::Io("disk full".into()))))),
        UpdateAction::RollBackStartup(false)
    ));
    assert!(matches!(
        store.step(UpdateEvent::RolledBack(Ok(()))),
        UpdateStep::Finished(Err(SettingsError::Io(message))) if message == "disk full"
    ));
    assert_eq!(store.current(), Settings::default());
}

#[test]
fn reset_restores_defaults_and_runtime_update_is_published() {
    let changed = Settings {
        enable_conversion: false,
        replacement_provider: ProviderPreference::UiAutomationOnly,
        ..Settings::default()
    };
    let mut store = SettingsStore::new(Settings::default());
    assert!(matches!(
        perform(store.step(UpdateEvent::Requested(changed))),
        UpdateAction::Save(saved) if saved == changed
    ));
    assert!(matches!(
        store.step(UpdateEvent::Saved(Ok(()))),
        UpdateStep::Finished(Ok(saved)) if saved == changed
    ));
    assert_eq!(store.current(), changed);

    perform(store.step(UpdateEvent::Requested(Settings::default())));
    assert!(matches!(
        store.step(UpdateEvent::Saved(Ok(()))),
        UpdateStep::Finished(Ok(saved)) if saved == Settings::default()
    ));
    assert_eq!(store.current(), Settings::default());
}

#[test]
fn startup_command_quotes_the_executable() {
    assert_eq!(
        startup_command(r"C:\Program Files\HanYeongKey\hanyeongkey.exe"),
        "\"C:\\Program Files\\HanYeongKey\\hanyeongkey.exe\""
    );
    assert!(removal_outcome(0, String::new()).is_ok());
    assert!(removal_outcome(2, String::new()).is_ok());
    assert!(matches!(
        removal_outcome(5, "denied".into()),
        Err(StartupError::Registry(message)) if message == "denied"
    ));
}

#[test]
fn only_the_settings_window_hides_instead_of_closing() {
    assert!(hides_instead_of_closing("settings"));
    assert!(!hides_instead_of_closing("main"));
}
