use keeplisten::persist::{
    is_m3u_path, is_mp3_path, parse_playlist_text, playlist_file_path, render_playlist,
    title_from_path, trim_str,
};
use keeplisten::playlist::{Playlist, Track};

fn track(title: &str, path: &str) -> Track {
    Track {
        title: title.to_string(),
        file_path: path.to_string(),
        url: Some("https://example.invalid/x".to_string()),
        duration: Some("3:30".to_string()),
    }
}

#[test]
fn round_trip_keeps_paths_and_derives_titles() {
    // Only paths are persisted: the round trip reconstructs the same two
    // paths in the same order, and the reconstructed titles come from the
    // file names, whatever the titles were before saving.
    let mut pl = Playlist::new("mix");
    pl.add_track(track("Fancy Title One", "music/a.mp3"));
    pl.add_track(track("Fancy Title Two", "music/b.mp3"));

    let text = render_playlist(&pl);
    assert_eq!(text, "music/a.mp3\nmusic/b.mp3\n");

    let reloaded = parse_playlist_text("mix", &text);
    assert_eq!(reloaded.name, "mix");
    assert_eq!(reloaded.tracks.len(), 2);
    assert_eq!(reloaded.tracks[0].file_path, "music/a.mp3");
    assert_eq!(reloaded.tracks[1].file_path, "music/b.mp3");
    assert_eq!(reloaded.tracks[0].title, "a");
    assert_eq!(reloaded.tracks[1].title, "b");
    assert!(reloaded.tracks[0].url.is_none());
    assert!(reloaded.tracks[0].duration.is_none());
}

#[test]
fn parse_trims_and_skips_blank_lines() {
    let pl = parse_playlist_text("mix", "  music/a.mp3 \r\n\n\tmusic/b.mp3\n   \n");
    assert_eq!(pl.tracks.len(), 2);
    assert_eq!(pl.tracks[0].file_path, "music/a.mp3");
    assert_eq!(pl.tracks[1].file_path, "music/b.mp3");
}

#[test]
fn parse_of_empty_text_is_empty() {
    let pl = parse_playlist_text("mix", "");
    assert!(pl.tracks.is_empty());
}

#[test]
fn titles_come_from_file_names() {
    assert_eq!(title_from_path("music/a.mp3"), "a");
    assert_eq!(title_from_path("a.mp3"), "a");
    assert_eq!(title_from_path("noext"), "noext");
    assert_eq!(title_from_path(".hidden"), ".hidden");
    assert_eq!(title_from_path("a.tar.gz"), "a.tar");
    assert_eq!(title_from_path("dir.d/file"), "file");
    assert_eq!(title_from_path("mu/sic/"), "sic");
    assert_eq!(title_from_path(""), "");
}

#[test]
fn titles_ignore_bare_dot_components() {
    // A trailing current-directory component is skipped, as the standard
    // path reading does; a parent-directory ending yields no file name and
    // the whole path stands in.
    assert_eq!(title_from_path("music/."), "music");
    assert_eq!(title_from_path("music/./."), "music");
    assert_eq!(title_from_path("."), ".");
    assert_eq!(title_from_path("a/.."), "a/..");
    assert_eq!(title_from_path(".."), "..");
}

#[test]
fn trim_strips_both_ends_only() {
    assert_eq!(trim_str("  a b  "), "a b");
    assert_eq!(trim_str("\r\nx\t"), "x");
    assert_eq!(trim_str(""), "");
    assert_eq!(trim_str(" \t "), "");
    assert_eq!(trim_str("plain"), "plain");
    // The full Unicode white-space set is trimmed, as the standard trim
    // reads it.
    assert_eq!(trim_str("\u{a0}x\u{2003}"), "x");
    assert_eq!(trim_str("\u{3000}\u{2028}y\u{85}"), "y");
    assert_eq!(trim_str("  a b  "), "  a b  ".trim());
    assert_eq!(trim_str("\u{a0}x\u{2003}"), "\u{a0}x\u{2003}".trim());
}

#[test]
fn playlist_file_names() {
    assert_eq!(playlist_file_path("playlists", "rock"), "playlists/rock.m3u");
    assert!(is_m3u_path("playlists/rock.m3u"));
    assert!(!is_m3u_path("playlists/rock.M3U"));
    assert!(!is_m3u_path("rock.mp3"));
    assert!(!is_m3u_path(".m3u"));
    assert!(!is_m3u_path("m3u"));
}

#[test]
fn audio_extension_check_ignores_case() {
    assert!(is_mp3_path("music/a.mp3"));
    assert!(is_mp3_path("music/a.MP3"));
    assert!(is_mp3_path("a.Mp3"));
    assert!(!is_mp3_path("a.m4a"));
    assert!(!is_mp3_path(".mp3"));
    assert!(!is_mp3_path("amp3"));
}
