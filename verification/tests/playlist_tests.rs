use keeplisten::playlist::{Playlist, PlaylistManager, Track};

fn track(title: &str, path: &str) -> Track {
    Track {
        title: title.to_string(),
        file_path: path.to_string(),
        url: None,
        duration: None,
    }
}

#[test]
fn playlist_add_and_remove_by_index() {
    let mut pl = Playlist::new("mix");
    assert_eq!(pl.name, "mix");
    assert!(pl.tracks.is_empty());

    pl.add_track(track("a", "music/a.mp3"));
    pl.add_track(track("b", "music/b.mp3"));
    assert_eq!(pl.tracks.len(), 2);

    let removed = pl.remove_track_by_index(0).unwrap();
    assert_eq!(removed.title, "a");
    assert_eq!(pl.tracks.len(), 1);
    assert_eq!(pl.tracks[0].title, "b");

    assert!(pl.remove_track_by_index(5).is_none());
    assert_eq!(pl.tracks.len(), 1);
}

#[test]
fn playlist_remove_by_title_takes_first_match() {
    let mut pl = Playlist::new("mix");
    pl.add_track(track("a", "music/a1.mp3"));
    pl.add_track(track("dup", "music/d1.mp3"));
    pl.add_track(track("dup", "music/d2.mp3"));

    let removed = pl.remove_track_by_title("dup").unwrap();
    assert_eq!(removed.file_path, "music/d1.mp3");
    assert_eq!(pl.tracks.len(), 2);
    assert_eq!(pl.tracks[1].file_path, "music/d2.mp3");

    assert!(pl.remove_track_by_title("missing").is_none());
    assert_eq!(pl.tracks.len(), 2);
}

#[test]
fn create_twice_leaves_first_playlist_untouched() {
    let mut m = PlaylistManager::new();
    assert!(m.create_playlist("rock"));
    assert!(m.add_track_to_playlist("rock", track("a", "music/a.mp3")));

    // The second create with the same name refuses, and the tracks of the
    // first creation stay as they were.
    assert!(!m.create_playlist("rock"));
    let tracks = m.get_playlist_tracks("rock").unwrap();
    assert_eq!(tracks.len(), 1);
    assert_eq!(tracks[0].title, "a");
}

#[test]
fn delete_missing_playlist_changes_nothing() {
    let mut m = PlaylistManager::new();
    assert!(m.create_playlist("rock"));
    assert!(m.create_playlist("jazz"));

    let names_before = m.playlist_names();
    assert!(!m.delete_playlist("blues"));
    assert_eq!(m.playlist_names(), names_before);

    assert!(m.delete_playlist("rock"));
    assert_eq!(m.playlist_names(), vec!["jazz".to_string()]);
    assert!(!m.contains_playlist("rock"));
    assert!(m.contains_playlist("jazz"));
}

#[test]
fn manager_track_operations() {
    let mut m = PlaylistManager::new();
    assert!(!m.add_track_to_playlist("nope", track("a", "a.mp3")));

    assert!(m.create_playlist("mix"));
    assert!(m.add_track_to_playlist("mix", track("a", "a.mp3")));
    assert!(m.add_track_to_playlist("mix", track("b", "b.mp3")));

    assert!(!m.remove_track_from_playlist_by_title("mix", "zzz"));
    assert!(!m.remove_track_from_playlist_by_title("nope", "a"));
    assert!(m.remove_track_from_playlist_by_title("mix", "a"));
    assert_eq!(m.get_playlist_tracks("mix").unwrap().len(), 1);

    assert!(!m.remove_track_from_playlist_by_index("mix", 9));
    assert!(m.remove_track_from_playlist_by_index("mix", 0));
    assert!(m.get_playlist_tracks("mix").unwrap().is_empty());
}

#[test]
fn install_playlist_replaces_by_name() {
    let mut m = PlaylistManager::new();
    assert!(m.create_playlist("mix"));
    assert!(m.add_track_to_playlist("mix", track("old", "old.mp3")));

    let mut fresh = Playlist::new("mix");
    fresh.add_track(track("new", "new.mp3"));
    m.install_playlist(fresh);

    let tracks = m.get_playlist_tracks("mix").unwrap();
    assert_eq!(tracks.len(), 1);
    assert_eq!(tracks[0].title, "new");

    let mut other = Playlist::new("other");
    other.add_track(track("x", "x.mp3"));
    m.install_playlist(other);
    assert!(m.contains_playlist("other"));
    assert_eq!(m.playlist_names().len(), 2);

    m.clear();
    assert!(m.playlist_names().is_empty());
}

#[test]
fn track_lines_number_from_one() {
    let mut pl = Playlist::new("mix");
    pl.add_track(track("a", "music/a.mp3"));
    pl.add_track(track("b", "music/b.mp3"));
    assert_eq!(
        pl.track_lines(),
        vec!["1. a (music/a.mp3)".to_string(), "2. b (music/b.mp3)".to_string()]
    );
}

#[test]
fn missing_playlist_yields_no_tracks() {
    let m = PlaylistManager::new();
    assert!(m.get_playlist_tracks("anything").is_none());
}
