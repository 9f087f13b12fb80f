//! The engine's state for one monitored player: where its track identifier
//! lives, the volume to restore after an advertisement, and the mute arbiter.
use vstd::prelude::*;
use crate::arbiter::{after_action, step_spec, MuteAction, MuteArbiter, MuteState};
use crate::events::{is_relevant, is_relevant_spec, FsEvent};
use crate::scanner::{first_match, pattern_at, scan, track_signature_spec, ScanError, TRACK_FIELD_OFFSET};
use crate::track::{is_ad_spec, is_ad_track, TrackError};

verus! {

/// Whether a reading denotes an advertisement; a failed read counts as none.
pub open spec fn reading_is_ad(current: Result<String, TrackError>) -> bool {
    match current {
        Ok(s) => is_ad_spec(s@),
        Err(_) => false,
    }
}

pub struct Spotify {
    target_address: Option<usize>,
    previous_volume: u8,
    arbiter: MuteArbiter,
}

impl Spotify {
    /// Address of the track identifier in the attached player, if any.
    pub closed spec fn target_spec(&self) -> Option<usize> {
        self.target_address
    }

    /// Volume level to restore when the advertisement is over.
    pub closed spec fn previous_volume_spec(&self) -> u8 {
        self.previous_volume
    }

    pub closed spec fn mute_spec(&self) -> MuteState {
        self.arbiter@
    }

    /// A player not yet attached, unmuted.
    pub fn new() -> (r: Spotify)
        ensures
            r.target_spec() is None,
            r.previous_volume_spec() == 0,
            r.mute_spec() == MuteState::Unmuted,
    {
        Spotify { target_address: None, previous_volume: 0, arbiter: MuteArbiter::new() }
    }

    /// Whether a file-system notification calls for a fresh reading.
    pub fn is_valid_event(event: &FsEvent) -> (r: bool)
        ensures
            r == is_relevant_spec(event.paths@),
    {
        is_relevant(&event.paths)
    }

    /// Whether the identifier read on this tick denotes an advertisement; a
    /// read that failed, or gave bytes that are not text, counts as none.
    pub fn is_playing_ad(current: &Result<String, TrackError>) -> (r: bool)
        ensures
            r == reading_is_ad(*current),
    {
        match current {
            Ok(s) => is_ad_track(s.as_str()),
            Err(_) => false,
        }
    }

    /// Locates the track identifier in a snapshot of the player's module
    /// loaded at `module_base`, and keeps its address on success.
    pub fn attach(&mut self, module_bytes: &[u8], module_base: usize) -> (r: Result<usize, ScanError>)
        requires
            module_base + module_bytes@.len() <= usize::MAX,
        ensures
            match r {
                Ok(addr) => final(self).target_spec() == Some(addr) && exists|k: int|
                    first_match(module_bytes@, track_signature_spec(), k) && addr == module_base + k
                        + TRACK_FIELD_OFFSET,
                Err(e) => e == ScanError::NotFound && final(self).target_spec() == old(self).target_spec() && forall|j: int|
                    !pattern_at(module_bytes@, track_signature_spec(), j),
            },
            final(self).previous_volume_spec() == old(self).previous_volume_spec(),
            final(self).mute_spec() == old(self).mute_spec(),
    {
        let r = scan(module_bytes, module_base);
        if let Ok(addr) = r {
            self.target_address = Some(addr);
        }
        r
    }

    /// Forgets the identifier's address once the player has gone away.
    pub fn detach(&mut self)
        ensures
            final(self).target_spec() is None,
            final(self).previous_volume_spec() == old(self).previous_volume_spec(),
            final(self).mute_spec() == old(self).mute_spec(),
    {
        self.target_address = None;
    }

    pub fn target_address(&self) -> (r: Option<usize>)
        ensures
            r == self.target_spec(),
    {
        self.target_address
    }

    pub fn mute_state(&self) -> (r: MuteState)
        ensures
            r == self.mute_spec(),
    {
        self.arbiter.state()
    }

    /// The action that this tick's reading calls for.
    pub fn on_reading(&self, current: &Result<String, TrackError>) -> (r: MuteAction)
        ensures
            r == step_spec(self.mute_spec(), reading_is_ad(*current)).1,
    {
        let is_ad = Self::is_playing_ad(current);
        self.arbiter.decide(is_ad)
    }

    /// Records whether the mute or unmute call for `action` succeeded; the mute
    /// state advances only on success.
    pub fn complete(&mut self, action: MuteAction, succeeded: bool)
        ensures
            final(self).mute_spec() == if succeeded {
                after_action(old(self).mute_spec(), action)
            } else {
                old(self).mute_spec()
            },
            final(self).target_spec() == old(self).target_spec(),
            final(self).previous_volume_spec() == old(self).previous_volume_spec(),
    {
        self.arbiter.complete(action, succeeded);
    }

    /// The volume level to set when muting (`value`) or unmuting. Muting keeps
    /// `current_volume`, the level before the advertisement, and sets 0;
    /// unmuting restores exactly the level that was kept.
    pub fn set_mute(&mut self, value: bool, current_volume: u8) -> (r: u8)
        ensures
            value ==> r == 0 && final(self).previous_volume_spec() == current_volume,
            !value ==> r == old(self).previous_volume_spec() && final(self).previous_volume_spec() == old(self).previous_volume_spec(),
            final(self).target_spec() == old(self).target_spec(),
            final(self).mute_spec() == old(self).mute_spec(),
    {
        if value {
            self.previous_volume = current_volume;
            0
        } else {
            self.previous_volume
        }
    }
}

} // verus!
