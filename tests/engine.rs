use spotify_mute::{
    decode_track, find_session, is_ad_track, is_player_process, is_relevant, is_state_file,
    is_store_package, is_track_module, is_user_directory, parse_u8, parse_volume, scan,
    scan_with, step, BindError, FsEvent, MuteAction, MuteArbiter, MuteState, PatternByte,
    ScanError, Spotify, TrackError, Watcher, TRACK_FIELD_OFFSET, TRACK_LEN,
};

fn strings(items: &[&str]) -> Vec<String> {
    items.iter().map(|s| s.to_string()).collect()
}

fn signature_bytes() -> Vec<u8> {
    let mut v = vec![0x01, 0x00, 0x00, 0x00];
    v.extend_from_slice(b"spotify:");
    v
}

#[test]
fn sentinel_and_holders_are_ads() {
    assert!(is_ad_track("spotify:ad"));
    assert!(is_ad_track("xxspotify:adyy"));
    assert!(is_ad_track("spotify:ad:1234"));
    assert!(is_ad_track("prefix spotify:ad"));
}

#[test]
fn other_identifiers_are_not_ads() {
    assert!(!is_ad_track("spotify:track:abc"));
    assert!(!is_ad_track(""));
    assert!(!is_ad_track("spotify:a"));
    assert!(!is_ad_track("SPOTIFY:AD"));
    assert!(!is_ad_track("spotify:episode"));
}

#[test]
fn decode_valid_window() {
    let r = decode_track(b"spotify:ad");
    assert_eq!(r, Ok("spotify:ad".to_string()));
    assert_eq!(TRACK_LEN, 10);
    let zeros = [0u8; 10];
    let r = decode_track(&zeros);
    assert_eq!(r, Ok("\0".repeat(10)));
    assert!(!Spotify::is_playing_ad(&r));
}

#[test]
fn decode_malformed_window() {
    let r = decode_track(&[0x73, 0x70, 0xFF, 0xFE, 0x00, 0x00, 0x00, 0x00, 0x00, 0x00]);
    assert_eq!(r, Err(TrackError::Malformed));
    assert!(!Spotify::is_playing_ad(&r));
}

#[test]
fn unreadable_is_not_an_ad() {
    assert!(!Spotify::is_playing_ad(&Err(TrackError::Unreadable)));
    assert!(Spotify::is_playing_ad(&Ok("spotify:ad".to_string())));
}

#[test]
fn transition_table() {
    assert_eq!(step(MuteState::Unmuted, true), (MuteState::Muted, MuteAction::DoMute));
    assert_eq!(step(MuteState::Muted, false), (MuteState::Unmuted, MuteAction::DoUnmute));
    assert_eq!(step(MuteState::Muted, true), (MuteState::Muted, MuteAction::NoOp));
    assert_eq!(step(MuteState::Unmuted, false), (MuteState::Unmuted, MuteAction::NoOp));
}

#[test]
fn repeated_ad_mutes_once() {
    let mut a = MuteArbiter::new();
    let first = a.decide(true);
    assert_eq!(first, MuteAction::DoMute);
    a.complete(first, true);
    let second = a.decide(true);
    assert_eq!(second, MuteAction::NoOp);
    a.complete(second, true);
    assert_eq!(a.state(), MuteState::Muted);
}

#[test]
fn actions_follow_edges() {
    let readings = [false, true, true, false, false, true, false, true, true];
    let mut a = MuteArbiter::new();
    let mut prev = false;
    let (mut mutes, mut unmutes, mut rising, mut falling) = (0, 0, 0, 0);
    for (i, &r) in readings.iter().enumerate() {
        let act = a.decide(r);
        if i > 0 && r == readings[i - 1] {
            assert_eq!(act, MuteAction::NoOp);
        }
        match act {
            MuteAction::DoMute => mutes += 1,
            MuteAction::DoUnmute => unmutes += 1,
            MuteAction::NoOp => {}
        }
        if !prev && r {
            rising += 1;
        }
        if prev && !r {
            falling += 1;
        }
        a.complete(act, true);
        prev = r;
    }
    assert_eq!(mutes, 3);
    assert_eq!(unmutes, 2);
    assert_eq!(mutes, rising);
    assert_eq!(unmutes, falling);
}

#[test]
fn relevant_single_path() {
    assert!(is_relevant(&strings(&["/home/u/.config/spotify/Users/x-user/ad-state-storage.bnk"])));
    assert!(!is_relevant(&strings(&["/home/u/.config/spotify/Users/x-user/other-file.txt"])));
    assert!(is_relevant(&strings(&["Users/x-user/recently_played.bnk"])));
    assert!(!is_relevant(&strings(&[])));
    assert!(!is_state_file("ad-state-storage.bnk/.."));
    assert!(is_state_file("ad-state-storage.bnk"));
}

#[test]
fn relevant_any_path_of_batch() {
    let paths = strings(&["/a/other-file.txt", "/a/b.log", "/a/x-user/ad-state-storage.bnk"]);
    assert!(is_relevant(&paths));
    let event = FsEvent { paths: paths.clone() };
    assert!(Spotify::is_valid_event(&event));
    assert!(Watcher::is_target_event(FsEvent { paths }));
    let none = FsEvent { paths: strings(&["/a/other-file.txt", "/a/ad-state-storage.bnk.old"]) };
    assert!(!Spotify::is_valid_event(&none));
    assert!(!Watcher::is_target_event(none));
}

#[test]
fn scan_finds_signature_at_offset() {
    let k = 37usize;
    let mut buf = vec![0xCCu8; k];
    buf.extend_from_slice(&signature_bytes());
    buf.extend_from_slice(b"ad");
    buf.extend_from_slice(&[0u8; 16]);
    let base = 0x7FF0_0000usize;
    assert_eq!(scan(&buf, base), Ok(base + k + TRACK_FIELD_OFFSET));
    assert_eq!(TRACK_FIELD_OFFSET, 4);
}

#[test]
fn scan_takes_first_occurrence() {
    let mut buf = vec![0u8; 5];
    buf.extend_from_slice(&signature_bytes());
    buf.extend_from_slice(&[9u8; 3]);
    buf.extend_from_slice(&signature_bytes());
    assert_eq!(scan(&buf, 0x1000), Ok(0x1000 + 5 + 4));
}

#[test]
fn scan_without_signature() {
    let mut buf = vec![0u8; 64];
    buf.extend_from_slice(b"spotify:");
    assert_eq!(scan(&buf, 0x1000), Err(ScanError::NotFound));
    assert_eq!(scan(&[], 0x1000), Err(ScanError::NotFound));
    let sig = signature_bytes();
    assert_eq!(scan(&sig[..sig.len() - 1], 0), Err(ScanError::NotFound));
    assert_eq!(scan(&sig, 0), Ok(4));
}

#[test]
fn scan_with_wildcards() {
    let pattern = vec![PatternByte::Exact(0xAA), PatternByte::Any, PatternByte::Exact(0xBB)];
    let buf = [0x00, 0xAA, 0x11, 0xCC, 0xAA, 0x22, 0xBB, 0x00];
    assert_eq!(scan_with(&buf, 100, &pattern, 1), Ok(100 + 4 + 1));
    assert_eq!(scan_with(&buf[..6], 100, &pattern, 1), Err(ScanError::NotFound));
}

#[test]
fn engine_scenario() {
    let mut s = Spotify::new();
    assert_eq!(s.mute_state(), MuteState::Unmuted);
    let act = s.on_reading(&Ok("spotify:ad".to_string()));
    assert_eq!(act, MuteAction::DoMute);
    s.complete(act, true);
    assert_eq!(s.mute_state(), MuteState::Muted);
    let act = s.on_reading(&Ok("spotify:track:abc".to_string()));
    assert_eq!(act, MuteAction::DoUnmute);
    s.complete(act, true);
    assert_eq!(s.mute_state(), MuteState::Unmuted);
    let act = s.on_reading(&Ok(String::new()));
    assert_eq!(act, MuteAction::NoOp);
    s.complete(act, true);
    assert_eq!(s.mute_state(), MuteState::Unmuted);
}

#[test]
fn failed_mute_is_retried() {
    let mut s = Spotify::new();
    let act = s.on_reading(&Ok("spotify:ad".to_string()));
    assert_eq!(act, MuteAction::DoMute);
    s.complete(act, false);
    assert_eq!(s.mute_state(), MuteState::Unmuted);
    let again = s.on_reading(&Ok("spotify:ad".to_string()));
    assert_eq!(again, MuteAction::DoMute);
    s.complete(again, true);
    assert_eq!(s.mute_state(), MuteState::Muted);
}

#[test]
fn failed_unmute_is_retried() {
    let mut s = Spotify::new();
    s.complete(MuteAction::DoMute, true);
    let act = s.on_reading(&Err(TrackError::Malformed));
    assert_eq!(act, MuteAction::DoUnmute);
    s.complete(act, false);
    assert_eq!(s.mute_state(), MuteState::Muted);
    assert_eq!(s.on_reading(&Ok("spotify:track:x".to_string())), MuteAction::DoUnmute);
}

#[test]
fn attach_keeps_address() {
    let mut s = Spotify::new();
    assert_eq!(s.target_address(), None);
    assert_eq!(s.attach(&[0u8; 8], 0x4000), Err(ScanError::NotFound));
    assert_eq!(s.target_address(), None);
    let mut buf = vec![0u8; 3];
    buf.extend_from_slice(&signature_bytes());
    assert_eq!(s.attach(&buf, 0x4000), Ok(0x4000 + 3 + 4));
    assert_eq!(s.target_address(), Some(0x4007));
    s.detach();
    assert_eq!(s.target_address(), None);
}

#[test]
fn volume_is_kept_and_restored() {
    let mut s = Spotify::new();
    assert_eq!(s.set_mute(true, 65), 0);
    assert_eq!(s.set_mute(false, 0), 65);
    assert_eq!(s.set_mute(false, 10), 65);
    assert_eq!(s.set_mute(true, 100), 0);
    assert_eq!(s.set_mute(false, 0), 100);
}

#[test]
fn volume_text() {
    assert_eq!(parse_volume("42\n"), Some(42));
    assert_eq!(parse_volume("  100  "), Some(100));
    assert_eq!(parse_volume("+7"), Some(7));
    assert_eq!(parse_volume("0"), Some(0));
    assert_eq!(parse_volume("255"), Some(255));
    assert_eq!(parse_volume("256"), None);
    assert_eq!(parse_volume("1000"), None);
    assert_eq!(parse_volume(""), None);
    assert_eq!(parse_volume("+"), None);
    assert_eq!(parse_volume("-1"), None);
    assert_eq!(parse_volume("4 2"), None);
    assert_eq!(parse_volume("abc"), None);
    assert_eq!(parse_u8(b"007"), Some(7));
}

#[test]
fn player_process_and_module_names() {
    assert!(is_player_process("Spotify.exe"));
    assert!(is_player_process("SPOTIFY.EXE"));
    assert!(!is_player_process("chrome.exe"));
    assert!(is_track_module("Chrome_Elf.DLL"));
    assert!(!is_track_module("kernel32.dll"));
}

#[test]
fn data_directory_names() {
    assert!(is_user_directory("/home/u/.config/spotify/Users/abc-user"));
    assert!(!is_user_directory("/home/u/.config/spotify/Users/abc"));
    assert!(is_store_package("C:\\Packages\\SpotifyAB.SpotifyMusic_zpdnekdrzrea0"));
    assert!(!is_store_package("C:\\Packages\\Microsoft.Edge"));
}

#[test]
fn session_of_player() {
    assert_eq!(find_session(&vec![4, 7, 7], 7), Ok(1));
    assert_eq!(find_session(&vec![4, 5], 7), Err(BindError::NotYetAvailable));
    assert_eq!(find_session(&vec![], 7), Err(BindError::NotYetAvailable));
}
