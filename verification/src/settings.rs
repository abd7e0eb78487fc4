//! Durable user settings and the shared in-memory state.
//!
//! Every mutator updates the in-memory state first and hands back the
//! full settings snapshot that the caller must persist; persistence
//! failure is tolerated, so the snapshot, not a delta, is what goes to
//! the store.

use vstd::prelude::*;

use crate::status::SyncStatus;

verus! {

/// Durable, user-controlled preferences.
pub struct AppSettings {
    pub auto_enabled: bool,
    pub apply_all: bool,
    /// Resolution token: `"UHD"`, `"1920x1080"`, or anything else for
    /// the provider's native resolution.
    pub resolution: String,
}

impl Default for AppSettings {
    /// Out of the box the hourly sync is on, applies to all displays
    /// and asks for UHD images.
    fn default() -> (r: AppSettings)
        ensures
            r.auto_enabled,
            r.apply_all,
            r.resolution@ == "UHD"@,
    {
        AppSettings {
            auto_enabled: true,
            apply_all: true,
            resolution: String::from_str("UHD"),
        }
    }
}

/// The single shared state handle of the process: the runtime flags,
/// the resolution preference and the shared status record.  The
/// surrounding application guards it for concurrent access and reads
/// the flags on every scheduler tick.
pub struct AppState {
    pub auto_enabled: bool,
    pub apply_all: bool,
    pub resolution: String,
    pub last_status: SyncStatus,
}

impl AppState {
    /// The state a process starts from, given the settings loaded from
    /// the store (or the defaults): flags and resolution mirror the
    /// settings exactly and the status record is empty.
    pub fn startup(settings: AppSettings) -> (r: AppState)
        ensures
            r.auto_enabled == settings.auto_enabled,
            r.apply_all == settings.apply_all,
            r.resolution == settings.resolution,
            r.last_status.last_url is None,
            r.last_status.last_saved_path is None,
            r.last_status.last_result is None,
            r.last_status.last_error is None,
            r.last_status.last_run is None,
    {
        AppState {
            auto_enabled: settings.auto_enabled,
            apply_all: settings.apply_all,
            resolution: settings.resolution,
            last_status: SyncStatus::empty(),
        }
    }

    /// Set both runtime flags to exactly the requested values, leaving
    /// the resolution and the status record untouched, and return the
    /// full settings snapshot to persist.
    pub fn set_auto_sync(&mut self, enabled: bool, apply_all: bool) -> (snapshot: AppSettings)
        ensures
            final(self).auto_enabled == enabled,
            final(self).apply_all == apply_all,
            final(self).resolution == old(self).resolution,
            final(self).last_status == old(self).last_status,
            snapshot.auto_enabled == enabled,
            snapshot.apply_all == apply_all,
            snapshot.resolution@ == old(self).resolution@,
    {
        self.auto_enabled = enabled;
        self.apply_all = apply_all;
        AppSettings {
            auto_enabled: enabled,
            apply_all: apply_all,
            resolution: self.resolution.clone(),
        }
    }

    /// Replace the resolution preference, leaving both flags and the
    /// status record untouched, and return the full settings snapshot
    /// to persist.
    pub fn set_resolution(&mut self, resolution: String) -> (snapshot: AppSettings)
        ensures
            final(self).auto_enabled == old(self).auto_enabled,
            final(self).apply_all == old(self).apply_all,
            final(self).resolution == resolution,
            final(self).last_status == old(self).last_status,
            snapshot.auto_enabled == old(self).auto_enabled,
            snapshot.apply_all == old(self).apply_all,
            snapshot.resolution@ == resolution@,
    {
        let snapshot = AppSettings {
            auto_enabled: self.auto_enabled,
            apply_all: self.apply_all,
            resolution: resolution.clone(),
        };
        self.resolution = resolution;
        snapshot
    }

    /// Pure read of the current flags and resolution.
    pub fn get_settings(&self) -> (r: AppSettings)
        ensures
            r.auto_enabled == self.auto_enabled,
            r.apply_all == self.apply_all,
            r.resolution@ == self.resolution@,
    {
        AppSettings {
            auto_enabled: self.auto_enabled,
            apply_all: self.apply_all,
            resolution: self.resolution.clone(),
        }
    }

    /// Pure read of the shared status record.
    pub fn get_status(&self) -> (r: SyncStatus)
        ensures
            r@ == self.last_status@,
    {
        self.last_status.snapshot()
    }
}

} // verus!
