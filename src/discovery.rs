//! Finding the player: its data directories, its process and module, and the
//! audio session that it owns.
use vstd::prelude::*;
use vstd::string::StringSliceAdditionalSpecFns;
use vstd::utf8::encode_utf8;
use crate::text::{contains_bytes, contains_str};

verus! {

/// Why the player's audio session could not be bound yet.
#[derive(Clone, Copy, Debug, PartialEq, Eq, Structural)]
pub enum BindError {
    /// No session is owned by the player: it has not produced sound yet.
    NotYetAvailable,
}

/// The lower-case form of a text.
pub uninterp spec fn lower_of(s: Seq<char>) -> Seq<char>;

/// Relies on str::to_lowercase: the result depends on the characters alone.
#[verifier::external_body]
fn lowercase(s: &str) -> (r: String)
    ensures
        r@ == lower_of(s@),
{
    s.to_lowercase()
}

/// A directory under the player's data directory that holds one account's data.
pub fn is_user_directory(path: &str) -> (r: bool)
    ensures
        r == contains_bytes(path.spec_bytes(), "-user".spec_bytes()),
{
    contains_str(path, "-user")
}

/// The package directory of a store installation of the player.
pub fn is_store_package(path: &str) -> (r: bool)
    ensures
        r == contains_bytes(path.spec_bytes(), "SpotifyAB.SpotifyMusic".spec_bytes()),
{
    contains_str(path, "SpotifyAB.SpotifyMusic")
}

/// Whether `name` holds `needle`, ignoring case in `name`.
fn contains_folded(name: &str, needle: &str) -> (r: bool)
    ensures
        r == contains_bytes(encode_utf8(lower_of(name@)), needle.spec_bytes()),
{
    let lower = lowercase(name);
    contains_str(lower.as_str(), needle)
}

/// The player's executable, named in any case.
pub fn is_player_process(exe_name: &str) -> (r: bool)
    ensures
        r == contains_bytes(encode_utf8(lower_of(exe_name@)), "spotify.exe".spec_bytes()),
{
    contains_folded(exe_name, "spotify.exe")
}

/// The module of the player that holds the track identifier, named in any case.
pub fn is_track_module(module_name: &str) -> (r: bool)
    ensures
        r == contains_bytes(encode_utf8(lower_of(module_name@)), "chrome_elf.dll".spec_bytes()),
{
    contains_folded(module_name, "chrome_elf.dll")
}

/// Index of the first audio session owned by process `pid`, given the owning
/// process id of each session in enumeration order.
pub fn find_session(session_pids: &Vec<u32>, pid: u32) -> (r: Result<usize, BindError>)
    ensures
        match r {
            Ok(i) => i < session_pids@.len() && session_pids@[i as int] == pid && forall|j: int|
                0 <= j < i ==> session_pids@[j] != pid,
            Err(e) => e == BindError::NotYetAvailable && forall|j: int|
                0 <= j < session_pids@.len() ==> session_pids@[j] != pid,
        },
{
    let mut i: usize = 0;
    while i < session_pids.len()
        invariant
            i <= session_pids@.len(),
            forall|j: int| 0 <= j < i ==> session_pids@[j] != pid,
        decreases session_pids@.len() - i,
    {
        if session_pids[i] == pid {
            return Ok(i);
        }
        i = i + 1;
    }
    Err(BindError::NotYetAvailable)
}

} // verus!
