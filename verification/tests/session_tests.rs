use keeplisten::playback::PauseCapability;
use keeplisten::playlist::Track;
use keeplisten::session::{Session, SessionAction};

fn track(title: &str, path: &str) -> Track {
    Track {
        title: title.to_string(),
        file_path: path.to_string(),
        url: None,
        duration: None,
    }
}

fn session_with_three_tracks() -> Session {
    let mut s = Session::new(PauseCapability::SignalCapable);
    assert!(s.add_track_to_current(track("a", "music/a.mp3")));
    assert!(s.add_track_to_current(track("b", "music/b.mp3")));
    assert!(s.add_track_to_current(track("c", "music/c.mp3")));
    s
}

#[test]
fn fresh_session_defaults() {
    let s = Session::new(PauseCapability::SignalCapable);
    assert_eq!(s.current_playlist, "default");
    assert_eq!(s.current_track, 0);
    assert!(!s.is_playing);
    assert!(!s.is_paused);
    assert_eq!(s.volume, 70);
    assert_eq!(s.progress_milli, 0);
    assert!(s.current_tracks().is_empty());
}

#[test]
fn next_and_previous_wrap_around() {
    // For three tracks at index zero: previous lands on two, next on one.
    let mut s = session_with_three_tracks();
    assert_eq!(s.current_track, 0);
    let act = s.previous_track();
    assert_eq!(s.current_track, 2);
    assert_eq!(
        act,
        SessionAction::StartTrack { kill: None, file_path: "music/c.mp3".to_string() }
    );

    let mut s = session_with_three_tracks();
    let act = s.next_track();
    assert_eq!(s.current_track, 1);
    assert_eq!(
        act,
        SessionAction::StartTrack { kill: None, file_path: "music/b.mp3".to_string() }
    );
}

#[test]
fn transitions_on_empty_playlist_do_nothing() {
    let mut s = Session::new(PauseCapability::SignalCapable);
    assert_eq!(s.next_track(), SessionAction::Idle);
    assert_eq!(s.previous_track(), SessionAction::Idle);
    assert_eq!(s.toggle_play_pause(0), SessionAction::Idle);
    assert_eq!(s.current_track, 0);
}

#[test]
fn volume_adjustment_clamps() {
    let mut s = Session::new(PauseCapability::SignalCapable);
    let _ = s.adjust_volume(28);
    assert_eq!(s.volume, 98);
    let _ = s.adjust_volume(5);
    assert_eq!(s.volume, 100);

    let mut s = Session::new(PauseCapability::SignalCapable);
    let _ = s.adjust_volume(-67);
    assert_eq!(s.volume, 3);
    let _ = s.adjust_volume(-5);
    assert_eq!(s.volume, 0);
}

#[test]
fn volume_adjustment_reaches_the_controller() {
    // The clamped value is stored, forwarded to the controller, and
    // rendered as the control-channel command the caller must write.
    let mut s = Session::new(PauseCapability::SignalCapable);
    let cmd = s.adjust_volume(35);
    assert_eq!(s.volume, 100);
    assert_eq!(s.controller.get_playback_state().volume, 100);
    assert_eq!(cmd, "{ \"command\": [\"set_property\", \"volume\", 100] }\n");

    let cmd = s.adjust_volume(-128);
    assert_eq!(s.volume, 0);
    assert_eq!(s.controller.get_playback_state().volume, 0);
    assert_eq!(cmd, "{ \"command\": [\"set_property\", \"volume\", 0] }\n");
}

#[test]
fn previous_with_index_past_queue_only_stops() {
    let mut s = session_with_three_tracks();
    let act = s.toggle_play_pause(0);
    assert!(matches!(act, SessionAction::StartTrack { .. }));
    s.start_succeeded(9, 0);

    // With the index already past the queue, stepping back stops playback
    // and moves the index, but there is no track at the new index to
    // start.
    s.current_track = 5;
    let act = s.previous_track();
    assert_eq!(act, SessionAction::StopProcess(9));
    assert_eq!(s.current_track, 4);
    assert!(!s.is_playing);

    let act = s.previous_track();
    assert_eq!(act, SessionAction::Idle);
    assert_eq!(s.current_track, 3);
}

#[test]
fn toggle_starts_then_pauses_then_resumes() {
    let mut s = session_with_three_tracks();
    let act = s.toggle_play_pause(1_000);
    assert_eq!(
        act,
        SessionAction::StartTrack { kill: None, file_path: "music/a.mp3".to_string() }
    );
    s.start_succeeded(42, 1_000);
    assert!(s.is_playing);
    assert!(!s.is_paused);

    let act = s.toggle_play_pause(2_000);
    assert_eq!(act, SessionAction::SignalSuspend(42));
    assert!(s.is_paused);

    let act = s.toggle_play_pause(3_000);
    assert_eq!(act, SessionAction::SignalContinue(42));
    assert!(!s.is_paused);
}

#[test]
fn failed_start_leaves_index_changed_but_not_playing() {
    let mut s = session_with_three_tracks();
    let act = s.next_track();
    assert!(matches!(act, SessionAction::StartTrack { .. }));
    s.start_failed();
    assert_eq!(s.current_track, 1);
    assert!(!s.is_playing);
    assert!(!s.is_paused);
}

#[test]
fn progress_ticks_only_while_playing_unpaused() {
    let mut s = session_with_three_tracks();
    assert_eq!(s.update_progress(), SessionAction::Idle);
    assert_eq!(s.progress_milli, 0);

    let act = s.toggle_play_pause(0);
    assert!(matches!(act, SessionAction::StartTrack { .. }));
    s.start_succeeded(7, 0);
    assert_eq!(s.update_progress(), SessionAction::Idle);
    assert_eq!(s.progress_milli, 1);

    s.toggle_play_pause(10);
    assert!(s.is_paused);
    assert_eq!(s.update_progress(), SessionAction::Idle);
    assert_eq!(s.progress_milli, 1);
}

#[test]
fn full_progress_advances_to_next_track() {
    let mut s = session_with_three_tracks();
    let act = s.toggle_play_pause(0);
    assert!(matches!(act, SessionAction::StartTrack { .. }));
    s.start_succeeded(7, 0);

    s.progress_milli = 999;
    let act = s.update_progress();
    assert_eq!(
        act,
        SessionAction::StartTrack { kill: Some(7), file_path: "music/b.mp3".to_string() }
    );
    assert_eq!(s.current_track, 1);
    assert_eq!(s.progress_milli, 0);
    assert!(!s.is_playing);
}

#[test]
fn adding_to_a_deleted_playlist_fails() {
    let mut s = Session::new(PauseCapability::SignalCapable);
    assert!(s.playlist_manager.delete_playlist("default"));
    assert!(!s.add_track_to_current(track("a", "a.mp3")));
    assert!(s.current_tracks().is_empty());
}
