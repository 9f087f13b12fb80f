//! The event filter: which file-system notifications call for a fresh reading.
use vstd::prelude::*;

verus! {

/// A file-system change notification: the paths it reports, in order.
pub struct FsEvent {
    pub paths: Vec<String>,
}

/// The file name of a path: its last component, when that is a name.
pub uninterp spec fn path_file_name(path: Seq<char>) -> Option<Seq<char>>;

/// Relies on std::path::Path::file_name: the final component of the path, none
/// when the path ends in `..` or is a root or empty. A name taken from a `&str`
/// is valid UTF-8, so converting it loses nothing.
#[verifier::external_body]
fn file_name(path: &str) -> (r: Option<String>)
    ensures
        match r {
            Some(n) => path_file_name(path@) == Some(n@),
            None => path_file_name(path@) is None,
        },
{
    std::path::Path::new(path).file_name().map(|n| n.to_string_lossy().into_owned())
}

/// The player's state-storage files, whose changes follow playback.
pub open spec fn is_state_file_name(name: Seq<char>) -> bool {
    name == "ad-state-storage.bnk"@ || name == "recently_played.bnk"@
}

pub open spec fn is_state_file_path(path: Seq<char>) -> bool {
    match path_file_name(path) {
        Some(name) => is_state_file_name(name),
        None => false,
    }
}

/// Some path of the notification names one of the state-storage files.
pub open spec fn is_relevant_spec(paths: Seq<String>) -> bool {
    exists|i: int| 0 <= i < paths.len() && is_state_file_path(#[trigger] paths[i]@)
}

/// Whether a path names one of the state-storage files.
pub fn is_state_file(path: &str) -> (r: bool)
    ensures
        r == is_state_file_path(path@),
{
    match file_name(path) {
        Some(name) => {
            let ad_state = String::from_str("ad-state-storage.bnk");
            let recently_played = String::from_str("recently_played.bnk");
            name == ad_state || name == recently_played
        },
        None => false,
    }
}

/// Whether a notification calls for a fresh reading: any of its paths, not
/// only the first, names one of the state-storage files.
pub fn is_relevant(paths: &Vec<String>) -> (r: bool)
    ensures
        r == is_relevant_spec(paths@),
{
    let mut i: usize = 0;
    while i < paths.len()
        invariant
            i <= paths@.len(),
            forall|j: int| 0 <= j < i ==> !is_state_file_path(#[trigger] paths@[j]@),
        decreases paths@.len() - i,
    {
        if is_state_file(paths[i].as_str()) {
            return true;
        }
        i = i + 1;
    }
    false
}

} // verus!
