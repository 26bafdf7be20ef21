use keeplisten::error::{
    user_friendly_error, AudioError, MusicPlayerError, PlaylistError, YoutubeError,
};

#[test]
fn audio_error_messages() {
    assert_eq!(
        AudioError::PlaybackFailed("boom".to_string()).message(),
        "Playback failed: boom"
    );
    assert_eq!(
        AudioError::MpvNotFound.message(),
        "MPV player not found. Please install mpv."
    );
    assert_eq!(AudioError::VolumeControlFailed.message(), "Failed to control volume");
    assert_eq!(AudioError::SeekFailed.message(), "Failed to seek in track");
    assert_eq!(AudioError::ProcessTerminated.message(), "Audio process was terminated");
}

#[test]
fn youtube_error_messages() {
    assert_eq!(
        YoutubeError::YtDlpNotFound.message(),
        "yt-dlp not found. Please install yt-dlp."
    );
    assert_eq!(
        YoutubeError::SearchFailed("abba".to_string()).message(),
        "Search failed for: abba"
    );
    assert_eq!(YoutubeError::NoResults.message(), "No search results found");
    assert_eq!(
        YoutubeError::InvalidUrl("x".to_string()).message(),
        "Invalid YouTube URL: x"
    );
}

#[test]
fn playlist_error_messages() {
    assert_eq!(
        PlaylistError::PlaylistNotFound("rock".to_string()).message(),
        "Playlist not found: rock"
    );
    assert_eq!(
        PlaylistError::TrackNotFound("a".to_string()).message(),
        "Track not found: a"
    );
    assert_eq!(
        PlaylistError::SaveFailed("disk".to_string()).message(),
        "Failed to save playlist: disk"
    );
    assert_eq!(
        PlaylistError::LoadFailed("disk".to_string()).message(),
        "Failed to load playlist: disk"
    );
    assert_eq!(
        PlaylistError::InvalidFormat("bad".to_string()).message(),
        "Invalid playlist format: bad"
    );
    assert_eq!(
        YoutubeError::DownloadFailed("u".to_string()).message(),
        "Download failed for: u"
    );
    assert_eq!(
        YoutubeError::ParseError("m".to_string()).message(),
        "Failed to parse response: m"
    );
}

#[test]
fn session_error_messages_carry_their_source() {
    assert_eq!(
        MusicPlayerError::Audio(AudioError::SeekFailed).message(),
        "Audio error: Failed to seek in track"
    );
    assert_eq!(
        MusicPlayerError::Youtube(YoutubeError::NoResults).message(),
        "YouTube error: No search results found"
    );
    assert_eq!(
        MusicPlayerError::Network("down".to_string()).message(),
        "Network error: down"
    );
    assert_eq!(
        MusicPlayerError::Config("bad".to_string()).message(),
        "Configuration error: bad"
    );

    let io = std::io::Error::new(std::io::ErrorKind::NotFound, "gone");
    let msg = MusicPlayerError::Io(io).message();
    assert!(msg.starts_with("IO error: "));
    assert!(msg.contains("gone"));
}

#[test]
fn friendly_messages_hint_at_missing_tools() {
    let mpv = user_friendly_error(&MusicPlayerError::Audio(AudioError::MpvNotFound));
    assert!(mpv.contains("Installez MPV"));

    let ytdlp = user_friendly_error(&MusicPlayerError::Youtube(YoutubeError::YtDlpNotFound));
    assert!(ytdlp.contains("pip install yt-dlp"));

    let net = user_friendly_error(&MusicPlayerError::Network("timeout".to_string()));
    assert_eq!(
        net,
        "🌐 Problème de connexion: timeout\nVérifiez votre connexion internet."
    );

    let other = user_friendly_error(&MusicPlayerError::Audio(AudioError::SeekFailed));
    assert_eq!(other, "❌ Audio error: Failed to seek in track");
}

#[test]
fn conversions_wrap_their_variant() {
    assert!(matches!(
        MusicPlayerError::from(AudioError::SeekFailed),
        MusicPlayerError::Audio(AudioError::SeekFailed)
    ));
    assert!(matches!(
        MusicPlayerError::from(YoutubeError::NoResults),
        MusicPlayerError::Youtube(YoutubeError::NoResults)
    ));
    assert!(matches!(
        MusicPlayerError::from(PlaylistError::TrackNotFound("a".to_string())),
        MusicPlayerError::Playlist(_)
    ));
    let io = std::io::Error::new(std::io::ErrorKind::Other, "x");
    assert!(matches!(MusicPlayerError::from(io), MusicPlayerError::Io(_)));
}
