//! Properties of the settings store.

use vstd::prelude::*;

use super::model::{default_settings, Settings};
use super::store::{
    event_fits, SettingsError, SettingsStore, StartupError, UpdateAction, UpdateEvent,
    UpdateStep,
};

verus! {

/// The in-memory settings change only when a save succeeded, and then become
/// the settings of the update.
pub proof fn law_snapshot_changes_only_after_a_save(store: SettingsStore, event: UpdateEvent)
    requires
        event_fits(store.pending, event),
    ensures
        store.next(event).0.current != store.current ==> (event matches UpdateEvent::Saved(Ok(_))
            && store.next(event).0.current == store.pending->0.next),
{
}

/// A failed startup registration rejects the update: nothing is saved and the
/// settings stay as they were.
pub proof fn law_failed_registration_rejects_the_update(store: SettingsStore, error: StartupError)
    requires
        event_fits(store.pending, UpdateEvent::StartupRegistered(Err(error))),
    ensures
        store.next(UpdateEvent::StartupRegistered(Err(error))) == (
            SettingsStore { current: store.current, pending: None },
            UpdateStep::Finished(Err(SettingsError::Startup(error))),
        ),
{
}

/// A failed save restores the previous startup registration where the update
/// had changed it, and then reports the save's error; the settings stay as
/// they were.
pub proof fn law_failed_save_rolls_back(store: SettingsStore, error: SettingsError)
    requires
        event_fits(store.pending, UpdateEvent::Saved(Err(error))),
    ensures
        ({
            let p = store.pending->0;
            let (after, step) = store.next(UpdateEvent::Saved(Err(error)));
            &&& after.current == store.current
            &&& p.previous.launch_at_startup != p.next.launch_at_startup ==> {
                &&& step == UpdateStep::Perform(
                    UpdateAction::RollBackStartup(p.previous.launch_at_startup),
                )
                &&& forall|rollback: Result<(), StartupError>| #[trigger]
                    after.next(UpdateEvent::RolledBack(rollback)) == (
                        SettingsStore { current: store.current, pending: None },
                        UpdateStep::Finished(Err(error)),
                    )
            }
            &&& p.previous.launch_at_startup == p.next.launch_at_startup ==> step
                == UpdateStep::Finished(Err::<Settings, SettingsError>(error))
        }),
{
}

/// An update whose registration and save succeed makes its settings current
/// and reports them; startup registration is asked for exactly when the
/// launch-at-startup setting changes.
pub proof fn law_successful_update(current: Settings, next: Settings)
    requires
        next.spec_is_valid(),
    ensures
        ({
            let idle = SettingsStore { current, pending: None };
            let (requested, first) = idle.next(UpdateEvent::Requested(next));
            if current.launch_at_startup != next.launch_at_startup {
                let (registered, second) = requested.next(UpdateEvent::StartupRegistered(Ok(())));
                let (saved, last) = registered.next(UpdateEvent::Saved(Ok(())));
                &&& first == UpdateStep::Perform(UpdateAction::RegisterStartup(next.launch_at_startup))
                &&& second == UpdateStep::Perform(UpdateAction::Save(next))
                &&& last == UpdateStep::Finished(Ok::<Settings, SettingsError>(next))
                &&& saved == SettingsStore { current: next, pending: None }
            } else {
                let (saved, last) = requested.next(UpdateEvent::Saved(Ok(())));
                &&& first == UpdateStep::Perform(UpdateAction::Save(next))
                &&& last == UpdateStep::Finished(Ok::<Settings, SettingsError>(next))
                &&& saved == SettingsStore { current: next, pending: None }
            }
        }),
{
}

/// Resetting is an update to the defaults: once saved, the defaults are
/// current.
pub proof fn law_reset_restores_defaults(current: Settings)
    ensures
        ({
            let idle = SettingsStore { current, pending: None };
            let (requested, _) = idle.next(UpdateEvent::Requested(default_settings()));
            let (after, last) = if current.launch_at_startup {
                let (registered, _) = requested.next(UpdateEvent::StartupRegistered(Ok(())));
                registered.next(UpdateEvent::Saved(Ok(())))
            } else {
                requested.next(UpdateEvent::Saved(Ok(())))
            };
            &&& after.current == default_settings()
            &&& last == UpdateStep::Finished(Ok::<Settings, SettingsError>(default_settings()))
        }),
{
    law_successful_update(current, default_settings());
}

} // verus!
