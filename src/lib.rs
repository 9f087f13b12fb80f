//! Detects when the monitored media player is playing an advertisement and
//! decides when its audio must be muted or restored.
mod arbiter;
mod discovery;
mod events;
mod scanner;
mod spotify;
mod text;
mod track;
mod volume;
mod watcher;

pub use text::{contains_bytes, contains_str, find_bytes, occurs_at};
pub use scanner::{
    byte_matches, find_pattern, first_match, pattern_at, scan, scan_with, track_signature,
    track_signature_spec, PatternByte, ScanError, TRACK_FIELD_OFFSET,
};
pub use track::{
    ad_sentinel, ad_sentinel_spec, decode_track, is_ad_spec, is_ad_track,
    law_holding_sentinel_is_ad, TrackError, TRACK_LEN,
};
pub use arbiter::{
    actions_for, after_action, count_action, falling_edges, law_actions_follow_edges,
    law_repeated_ad_mutes_once, rising_edges, state_after, step, step_spec, MuteAction,
    MuteArbiter, MuteState,
};
pub use events::{
    is_relevant, is_relevant_spec, is_state_file, is_state_file_name, is_state_file_path,
    path_file_name, FsEvent,
};
pub use discovery::{
    find_session, is_player_process, is_store_package, is_track_module, is_user_directory,
    lower_of, BindError,
};
pub use volume::{digits_value, is_digit, parse_u8, parse_u8_spec, parse_volume, trim_of, unsigned_digits};
pub use spotify::{reading_is_ad, Spotify};
pub use watcher::Watcher;
