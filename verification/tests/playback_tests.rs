use keeplisten::playback::{PauseCapability, PlaybackController, PlaybackState};

#[test]
fn default_state_is_idle() {
    let state = PlaybackState::default();
    assert!(!state.is_playing);
    assert!(!state.is_paused);
    assert_eq!(state.position_ms, 0);
    assert_eq!(state.duration_ms, None);
    assert_eq!(state.volume, 0);
    assert_eq!(state.last_update_ms, None);
}

#[test]
fn start_owns_one_process_at_a_time() {
    let mut c = PlaybackController::new(PauseCapability::SignalCapable);
    assert!(!c.is_process_running());
    assert_eq!(c.stop_audio(), None);

    c.start_audio(101, 1_000);
    assert!(c.is_process_running());
    let state = c.get_playback_state();
    assert!(state.is_playing);
    assert!(!state.is_paused);
    assert_eq!(state.position_ms, 0);
    assert_eq!(state.last_update_ms, Some(1_000));

    // A restart goes through stop first: the old process is handed back
    // for termination before a new one is owned.
    let old = c.stop_audio();
    assert_eq!(old, Some(101));
    assert!(!c.is_process_running());
    c.start_audio(202, 2_000);
    assert!(c.is_process_running());
    assert_eq!(c.stop_audio(), Some(202));
}

#[test]
fn pause_then_resume_counts_only_playing_time() {
    let mut c = PlaybackController::new(PauseCapability::SignalCapable);
    c.start_audio(7, 1_000);

    c.update_position(2_000);
    assert_eq!(c.get_playback_state().position_ms, 1_000);

    assert_eq!(c.pause_audio(), Some(7));
    assert!(c.get_playback_state().is_paused);

    // Ticks taken while paused advance nothing.
    c.update_position(5_000);
    assert_eq!(c.get_playback_state().position_ms, 1_000);

    assert_eq!(c.resume_audio(6_000), Some(7));
    let state = c.get_playback_state();
    assert!(!state.is_paused);
    assert_eq!(state.last_update_ms, Some(6_000));

    // After the resume, only time since the resume point accrues: the
    // four seconds spent paused leave no trace.
    c.update_position(6_500);
    assert_eq!(c.get_playback_state().position_ms, 1_500);
}

#[test]
fn pause_without_process_is_noop_when_signal_capable() {
    let mut c = PlaybackController::new(PauseCapability::SignalCapable);
    assert_eq!(c.pause_audio(), None);
    assert!(!c.get_playback_state().is_paused);
    assert_eq!(c.resume_audio(10), None);
    assert_eq!(c.get_playback_state().last_update_ms, None);
}

#[test]
fn unsupported_platform_toggles_state_only() {
    let mut c = PlaybackController::new(PauseCapability::Unsupported);
    assert_eq!(c.pause_audio(), None);
    assert!(c.get_playback_state().is_paused);
    assert_eq!(c.resume_audio(42), None);
    let state = c.get_playback_state();
    assert!(!state.is_paused);
    assert_eq!(state.last_update_ms, Some(42));
}

#[test]
fn volume_command_text_is_exact() {
    let mut c = PlaybackController::new(PauseCapability::SignalCapable);
    let cmd = c.set_volume(70);
    assert_eq!(cmd, "{ \"command\": [\"set_property\", \"volume\", 70] }\n");
    assert_eq!(c.get_playback_state().volume, 70);
    let cmd = c.set_volume(0);
    assert_eq!(cmd, "{ \"command\": [\"set_property\", \"volume\", 0] }\n");
    let cmd = c.set_volume(100);
    assert_eq!(cmd, "{ \"command\": [\"set_property\", \"volume\", 100] }\n");
}

#[test]
fn seek_command_text_is_exact() {
    let mut c = PlaybackController::new(PauseCapability::SignalCapable);
    let cmd = c.seek_to(83_450);
    assert_eq!(cmd, "{ \"command\": [\"seek\", 83.45, \"absolute\"] }\n");
    assert_eq!(c.get_playback_state().position_ms, 83_450);
    assert_eq!(c.seek_to(9_000), "{ \"command\": [\"seek\", 9, \"absolute\"] }\n");
    assert_eq!(c.seek_to(500), "{ \"command\": [\"seek\", 0.5, \"absolute\"] }\n");
    assert_eq!(c.seek_to(12_040), "{ \"command\": [\"seek\", 12.04, \"absolute\"] }\n");
    assert_eq!(c.seek_to(3_007), "{ \"command\": [\"seek\", 3.007, \"absolute\"] }\n");
    assert_eq!(c.seek_to(0), "{ \"command\": [\"seek\", 0, \"absolute\"] }\n");
}

#[test]
fn update_position_needs_playing_and_unpaused() {
    let mut c = PlaybackController::new(PauseCapability::SignalCapable);
    // Not playing: the tick changes nothing.
    c.update_position(9_999);
    assert_eq!(c.get_playback_state().position_ms, 0);
    assert_eq!(c.get_playback_state().last_update_ms, None);
}

#[test]
fn process_exit_resets_to_idle() {
    let mut c = PlaybackController::new(PauseCapability::SignalCapable);
    c.start_audio(55, 0);
    c.mark_process_exited();
    assert!(!c.is_process_running());
    let state = c.get_playback_state();
    assert!(!state.is_playing);
    assert_eq!(state.position_ms, 0);
}

#[test]
fn player_spawn_arguments_are_fixed() {
    let args = keeplisten::playback::player_command_args("music/song.mp3");
    assert_eq!(
        args,
        vec![
            "--no-video".to_string(),
            "--quiet".to_string(),
            "--no-terminal".to_string(),
            "--input-ipc-server=/tmp/mpvsocket".to_string(),
            "--idle=yes".to_string(),
            "music/song.mp3".to_string(),
        ]
    );
    assert_eq!(keeplisten::playback::player_binary(), "mpv");
    assert_eq!(keeplisten::playback::control_socket_path(), "/tmp/mpvsocket");
}
