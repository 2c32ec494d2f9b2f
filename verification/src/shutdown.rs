//! The decision behind the configuration-change watcher: a poll reads the
//! configuration folder's last-modified time and stops the server exactly
//! when the folder changed after the applied configuration was loaded.
//! Reading the folder and stopping the server are the surrounding
//! application's concern.

use vstd::prelude::*;

verus! {

/// Whether an observed folder modification time calls for a shutdown: only
/// a successfully read time strictly newer than the applied
/// configuration's does. An unreadable time waits for the next poll.
pub open spec fn should_shutdown_spec(
    folder_last_modified: Option<u64>,
    applied_config_last_modified: u64,
) -> bool {
    folder_last_modified matches Some(t) && t > applied_config_last_modified
}

/// Decides one poll of the configuration folder, following
/// `should_shutdown_spec`.
pub fn should_shutdown(folder_last_modified: Option<u64>, applied_config_last_modified: u64) -> (
    stop: bool)
    ensures
        stop == should_shutdown_spec(folder_last_modified, applied_config_last_modified),
{
    match folder_last_modified {
        Some(t) => t > applied_config_last_modified,
        None => false,
    }
}

} // verus!
