//! The notification filter as a unit of its own, for callers that watch the
//! data directory themselves.
use vstd::prelude::*;
use crate::events::{is_relevant, is_relevant_spec, FsEvent};

verus! {

pub struct Watcher;

impl Watcher {
    /// Whether a notification names one of the player's state-storage files
    /// in any of its paths.
    pub fn is_target_event(event: FsEvent) -> (r: bool)
        ensures
            r == is_relevant_spec(event.paths@),
    {
        is_relevant(&event.paths)
    }
}

} // verus!
