//! Decoding the start of the next song ahead of time.
use vstd::prelude::*;

use crate::track::TrackInfo;

verus! {

/// A request to the preloader.
#[derive(Debug, Clone, PartialEq, Eq)]
pub enum PreloaderAction {
    /// Open the file at this path and decode its first packets.
    Load(String),
}

/// Why the preloader stopped.
#[derive(Debug, Clone, PartialEq, Eq)]
pub enum PreloaderError {
    Disconnected,
    Other(String),
}

/// How many whole seconds of a song the preloader decodes ahead.
pub const PRELOAD_SECONDS: u64 = 2;

/// Whether the preloader has decoded enough after decoding the packet at `timestamp`:
/// once more than two whole seconds have elapsed. Without timing information it fails
/// with "missing track info".
pub fn preload_done(track_info: &TrackInfo, timestamp: u64) -> (r: Result<bool, PreloaderError>)
    ensures
        match track_info.progress_at(timestamp) {
            Some(p) => r == Ok::<bool, PreloaderError>(p.elapsed > PRELOAD_SECONDS),
            None => r matches Err(PreloaderError::Other(msg)) && msg@ == "missing track info"@,
        },
{
    match track_info.progress_times(timestamp) {
        Some(progress) => Ok(progress.elapsed > PRELOAD_SECONDS),
        None => {
            let msg = String::from_str("missing track info");
            proof {
                reveal_strlit("missing track info");
            }
            Err(PreloaderError::Other(msg))
        },
    }
}

} // verus!
