//! The settings store: the single source of truth for the configuration.
//!
//! Loading recovers to defaults when the stored file is missing or unusable
//! and reconciles startup registration. An update registers startup (when
//! that setting changes), persists the settings, and only then changes the
//! in-memory snapshot; a failed registration rejects the update, and a failed
//! save rolls the registration back. The file system and the registry are
//! reached by the caller, which hands each result back as the next event.

use vstd::prelude::*;

use super::model::{default_settings, Settings, ValidationError};

verus! {

/// Why startup registration failed; platform errors are carried as their
/// messages.
#[derive(Debug)]
pub enum StartupError {
    Executable(String),
    Registry(String),
    Unavailable,
}

/// Why a settings operation failed; platform errors are carried as their
/// messages.
#[derive(Debug)]
pub enum SettingsError {
    Io(String),
    Serialize(String),
    Deserialize(String),
    Validation(ValidationError),
    Startup(StartupError),
    AtomicReplace(String),
}

/// What reading the settings file gave.
#[derive(Debug)]
pub enum StoredSettings {
    /// There is no settings file.
    Missing,
    /// The file could not be read.
    Unreadable,
    /// The file does not hold settings.
    Malformed,
    /// The file holds these settings.
    Decoded(Settings),
}

/// The settings to start from: the stored ones where they are usable and
/// valid, the defaults otherwise.
pub open spec fn spec_settings_from_file(stored: StoredSettings) -> Settings {
    match stored {
        StoredSettings::Decoded(settings) => if settings.spec_is_valid() {
            settings
        } else {
            default_settings()
        },
        _ => default_settings(),
    }
}

/// Executable form of [`spec_settings_from_file`].
pub fn settings_from_file(stored: StoredSettings) -> (r: Settings)
    ensures
        r == spec_settings_from_file(stored),
{
    match stored {
        StoredSettings::Decoded(settings) => match settings.validate() {
            Ok(()) => settings,
            Err(_) => Settings::default(),
        },
        _ => Settings::default(),
    }
}

/// The settings after reconciling startup registration at load: when the
/// registration failed, the application is not launched at startup.
pub fn settings_after_startup_registration(settings: Settings, registered: bool) -> (r: Settings)
    ensures
        r == (if registered {
            settings
        } else {
            Settings { launch_at_startup: false, ..settings }
        }),
{
    if registered {
        settings
    } else {
        Settings { launch_at_startup: false, ..settings }
    }
}

/// Where a running update stands.
#[derive(Debug)]
pub enum UpdateStage {
    /// Waiting for startup registration to follow the new setting.
    RegisteringStartup,
    /// Waiting for the new settings to be saved.
    Saving,
    /// Saving failed with this error; waiting for the registration to be
    /// rolled back.
    RollingBack(SettingsError),
}

/// A running update.
#[derive(Debug)]
pub struct PendingUpdate {
    pub previous: Settings,
    pub next: Settings,
    pub stage: UpdateStage,
}

/// What the store asks its caller to do.
#[derive(Debug)]
pub enum UpdateAction {
    /// Register (or unregister) the application to launch at startup.
    RegisterStartup(bool),
    /// Persist these settings.
    Save(Settings),
    /// Restore the previous startup registration.
    RollBackStartup(bool),
}

/// The result of the caller's last action, or a new update.
#[derive(Debug)]
pub enum UpdateEvent {
    Requested(Settings),
    StartupRegistered(Result<(), StartupError>),
    Saved(Result<(), SettingsError>),
    RolledBack(Result<(), StartupError>),
}

/// What the store answers to an event.
#[derive(Debug)]
pub enum UpdateStep {
    Perform(UpdateAction),
    /// The update ended; on success the new settings are to be published to
    /// the runtime and to subscribers.
    Finished(Result<Settings, SettingsError>),
}

/// The settings store.
#[derive(Debug)]
pub struct SettingsStore {
    pub current: Settings,
    pub pending: Option<PendingUpdate>,
}

/// Whether an event answers the stage the store is in.
pub open spec fn event_fits(pending: Option<PendingUpdate>, event: UpdateEvent) -> bool {
    match event {
        UpdateEvent::Requested(_) => pending is None,
        UpdateEvent::StartupRegistered(_) => pending matches Some(p) && p.stage
            is RegisteringStartup,
        UpdateEvent::Saved(_) => pending matches Some(p) && p.stage is Saving,
        UpdateEvent::RolledBack(_) => pending matches Some(p) && p.stage is RollingBack,
    }
}

impl SettingsStore {
    /// The store's answer to an event, and its state afterwards.
    pub open spec fn next(self, event: UpdateEvent) -> (SettingsStore, UpdateStep)
        recommends
            event_fits(self.pending, event),
    {
        let idle = SettingsStore { current: self.current, pending: None };
        match event {
            UpdateEvent::Requested(next) => if !next.spec_is_valid() {
                (idle, UpdateStep::Finished(Err(SettingsError::Validation(ValidationError))))
            } else if self.current.launch_at_startup != next.launch_at_startup {
                (
                    SettingsStore {
                        current: self.current,
                        pending: Some(
                            PendingUpdate {
                                previous: self.current,
                                next,
                                stage: UpdateStage::RegisteringStartup,
                            },
                        ),
                    },
                    UpdateStep::Perform(UpdateAction::RegisterStartup(next.launch_at_startup)),
                )
            } else {
                (
                    SettingsStore {
                        current: self.current,
                        pending: Some(
                            PendingUpdate { previous: self.current, next, stage: UpdateStage::Saving },
                        ),
                    },
                    UpdateStep::Perform(UpdateAction::Save(next)),
                )
            },
            UpdateEvent::StartupRegistered(result) => {
                let p = self.pending->0;
                match result {
                    Ok(()) => (
                        SettingsStore {
                            current: self.current,
                            pending: Some(PendingUpdate { stage: UpdateStage::Saving, ..p }),
                        },
                        UpdateStep::Perform(UpdateAction::Save(p.next)),
                    ),
                    Err(error) => (idle, UpdateStep::Finished(Err(SettingsError::Startup(error)))),
                }
            },
            UpdateEvent::Saved(result) => {
                let p = self.pending->0;
                match result {
                    Ok(()) => (
                        SettingsStore { current: p.next, pending: None },
                        UpdateStep::Finished(Ok(p.next)),
                    ),
                    Err(error) => if p.previous.launch_at_startup != p.next.launch_at_startup {
                        (
                            SettingsStore {
                                current: self.current,
                                pending: Some(
                                    PendingUpdate { stage: UpdateStage::RollingBack(error), ..p },
                                ),
                            },
                            UpdateStep::Perform(
                                UpdateAction::RollBackStartup(p.previous.launch_at_startup),
                            ),
                        )
                    } else {
                        (idle, UpdateStep::Finished(Err(error)))
                    },
                }
            },
            UpdateEvent::RolledBack(_) => match self.pending->0.stage {
                UpdateStage::RollingBack(error) => (idle, UpdateStep::Finished(Err(error))),
                _ => (idle, UpdateStep::Finished(Err(SettingsError::Validation(ValidationError)))),
            },
        }
    }

    /// A store that holds `settings` and runs no update.
    pub fn new(settings: Settings) -> (r: SettingsStore)
        ensures
            r.current == settings,
            r.pending is None,
    {
        SettingsStore { current: settings, pending: None }
    }

    /// The current settings.
    pub fn current(&self) -> (r: Settings)
        ensures
            r == self.current,
    {
        self.current
    }

    /// Whether an update is running.
    pub fn is_updating(&self) -> (r: bool)
        ensures
            r == self.pending is Some,
    {
        self.pending.is_some()
    }

    /// Whether `event` answers the stage the store is in.
    pub fn expects(&self, event: &UpdateEvent) -> (r: bool)
        ensures
            r == event_fits(self.pending, *event),
    {
        match event {
            UpdateEvent::Requested(_) => self.pending.is_none(),
            UpdateEvent::StartupRegistered(_) => match &self.pending {
                Some(p) => matches!(p.stage, UpdateStage::RegisteringStartup),
                None => false,
            },
            UpdateEvent::Saved(_) => match &self.pending {
                Some(p) => matches!(p.stage, UpdateStage::Saving),
                None => false,
            },
            UpdateEvent::RolledBack(_) => match &self.pending {
                Some(p) => matches!(p.stage, UpdateStage::RollingBack(_)),
                None => false,
            },
        }
    }

    /// Answers one event; see [`Self::next`].
    pub fn step(&mut self, event: UpdateEvent) -> (r: UpdateStep)
        requires
            event_fits(old(self).pending, event),
        ensures
            (*final(self), r) == old(self).next(event),
    {
        match event {
            UpdateEvent::Requested(next) => {
                if let Err(error) = next.validate() {
                    self.pending = None;
                    return UpdateStep::Finished(Err(SettingsError::Validation(error)));
                }
                if self.current.launch_at_startup != next.launch_at_startup {
                    self.pending = Some(
                        PendingUpdate {
                            previous: self.current,
                            next,
                            stage: UpdateStage::RegisteringStartup,
                        },
                    );
                    UpdateStep::Perform(UpdateAction::RegisterStartup(next.launch_at_startup))
                } else {
                    self.pending = Some(
                        PendingUpdate { previous: self.current, next, stage: UpdateStage::Saving },
                    );
                    UpdateStep::Perform(UpdateAction::Save(next))
                }
            },
            UpdateEvent::StartupRegistered(result) => {
                let pending = self.pending.take();
                match pending {
                    Some(p) => match result {
                        Ok(()) => {
                            let next = p.next;
                            self.pending = Some(
                                PendingUpdate {
                                    previous: p.previous,
                                    next: p.next,
                                    stage: UpdateStage::Saving,
                                },
                            );
                            UpdateStep::Perform(UpdateAction::Save(next))
                        },
                        Err(error) => UpdateStep::Finished(Err(SettingsError::Startup(error))),
                    },
                    None => vstd::pervasive::unreached(),
                }
            },
            UpdateEvent::Saved(result) => {
                let pending = self.pending.take();
                match pending {
                    Some(p) => match result {
                        Ok(()) => {
                            self.current = p.next;
                            UpdateStep::Finished(Ok(p.next))
                        },
                        Err(error) => {
                            if p.previous.launch_at_startup != p.next.launch_at_startup {
                                let previous_launch = p.previous.launch_at_startup;
                                self.pending = Some(
                                    PendingUpdate {
                                        previous: p.previous,
                                        next: p.next,
                                        stage: UpdateStage::RollingBack(error),
                                    },
                                );
                                UpdateStep::Perform(UpdateAction::RollBackStartup(previous_launch))
                            } else {
                                UpdateStep::Finished(Err(error))
                            }
                        },
                    },
                    None => vstd::pervasive::unreached(),
                }
            },
            UpdateEvent::RolledBack(_) => {
                let pending = self.pending.take();
                match pending {
                    Some(p) => match p.stage {
                        UpdateStage::RollingBack(error) => UpdateStep::Finished(Err(error)),
                        _ => vstd::pervasive::unreached(),
                    },
                    None => vstd::pervasive::unreached(),
                }
            },
        }
    }
}

} // verus!
