use keeplisten::config::Config;

#[test]
fn test_config_default() {
    let config = Config::default();
    assert_eq!(config.audio.default_volume, 70);
    assert_eq!(config.download.music_dir, "music");
    assert!(config.validate().is_ok());
}

#[test]
fn test_config_validation() {
    let mut config = Config::default();
    config.audio.default_volume = 150;
    assert!(config.validate().is_err());

    config.audio.default_volume = 50;
    config.download.max_concurrent_downloads = 0;
    assert!(config.validate().is_err());

    config.download.max_concurrent_downloads = 1;
    config.ui.update_interval_ms = 5;
    assert!(config.validate().is_err());

    config.ui.update_interval_ms = 100;
    assert!(config.validate().is_ok());
}

#[test]
fn default_config_details() {
    let config = Config::default();
    assert_eq!(config.audio.audio_format, "mp3");
    assert_eq!(config.audio.audio_quality, "0");
    assert_eq!(
        config.audio.mpv_args,
        vec![
            "--no-video".to_string(),
            "--quiet".to_string(),
            "--no-terminal".to_string(),
            "--input-ipc-server=/tmp/mpvsocket".to_string(),
        ]
    );
    assert_eq!(config.download.playlist_dir, "playlists");
    assert_eq!(config.download.max_concurrent_downloads, 3);
    assert!(config.download.auto_create_playlist);
    assert_eq!(config.download.filename_template, "%(title).100s.%(ext)s");
    assert_eq!(config.ui.default_playlist, "default");
    assert_eq!(config.ui.update_interval_ms, 100);
    assert_eq!(config.keybindings.play_pause, vec![" ".to_string(), "p".to_string()]);
    assert_eq!(config.keybindings.quit, vec!["q".to_string(), "Esc".to_string()]);
}

#[test]
fn validation_messages_are_exact() {
    let mut config = Config::default();
    config.audio.default_volume = 101;
    assert_eq!(
        config.validate().unwrap_err(),
        "Default volume must be between 0 and 100"
    );

    config.audio.default_volume = 100;
    config.download.max_concurrent_downloads = 0;
    assert_eq!(
        config.validate().unwrap_err(),
        "Max concurrent downloads must be at least 1"
    );

    config.download.max_concurrent_downloads = 2;
    config.ui.update_interval_ms = 9;
    assert_eq!(config.validate().unwrap_err(), "Update interval must be at least 10ms");
}
