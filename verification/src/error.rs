//! The error taxonomy: playback, retrieval, playlist and session-wide
//! failures, each with its display text and a user-facing rendering.

use vstd::prelude::*;
use vstd::string::StringExecFns;

verus! {

/// A failure of the audio playback layer.
#[derive(Debug)]
pub enum AudioError {
    PlaybackFailed(String),
    MpvNotFound,
    VolumeControlFailed,
    SeekFailed,
    ProcessTerminated,
}

/// A failure of the search and retrieval layer.
#[derive(Debug)]
pub enum YoutubeError {
    YtDlpNotFound,
    SearchFailed(String),
    DownloadFailed(String),
    InvalidUrl(String),
    NoResults,
    ParseError(String),
}

/// A failure of the playlist store or its persistence.
#[derive(Debug)]
pub enum PlaylistError {
    PlaylistNotFound(String),
    TrackNotFound(String),
    SaveFailed(String),
    LoadFailed(String),
    InvalidFormat(String),
}

/// The standard I/O error type, declared so that it can ride inside the
/// session-wide error.  Opaque to verification; only its display text is
/// read, through `ToString`.
#[verifier::external_type_specification]
#[verifier::external_body]
pub struct ExIoError(std::io::Error);

/// Any failure the session can surface.
#[derive(Debug)]
pub enum MusicPlayerError {
    Audio(AudioError),
    Youtube(YoutubeError),
    Playlist(PlaylistError),
    Io(std::io::Error),
    Network(String),
    Config(String),
}

/// The display text of an audio failure.
pub open spec fn audio_error_text(e: &AudioError) -> Seq<char> {
    match e {
        AudioError::PlaybackFailed(m) => "Playback failed: "@ + m@,
        AudioError::MpvNotFound => "MPV player not found. Please install mpv."@,
        AudioError::VolumeControlFailed => "Failed to control volume"@,
        AudioError::SeekFailed => "Failed to seek in track"@,
        AudioError::ProcessTerminated => "Audio process was terminated"@,
    }
}

/// The display text of a retrieval failure.
pub open spec fn youtube_error_text(e: &YoutubeError) -> Seq<char> {
    match e {
        YoutubeError::YtDlpNotFound => "yt-dlp not found. Please install yt-dlp."@,
        YoutubeError::SearchFailed(q) => "Search failed for: "@ + q@,
        YoutubeError::DownloadFailed(u) => "Download failed for: "@ + u@,
        YoutubeError::InvalidUrl(u) => "Invalid YouTube URL: "@ + u@,
        YoutubeError::NoResults => "No search results found"@,
        YoutubeError::ParseError(m) => "Failed to parse response: "@ + m@,
    }
}

/// The display text of a playlist failure.
pub open spec fn playlist_error_text(e: &PlaylistError) -> Seq<char> {
    match e {
        PlaylistError::PlaylistNotFound(n) => "Playlist not found: "@ + n@,
        PlaylistError::TrackNotFound(t) => "Track not found: "@ + t@,
        PlaylistError::SaveFailed(m) => "Failed to save playlist: "@ + m@,
        PlaylistError::LoadFailed(m) => "Failed to load playlist: "@ + m@,
        PlaylistError::InvalidFormat(m) => "Invalid playlist format: "@ + m@,
    }
}

/// The display text of a session-wide failure.  The text of the carried
/// I/O error is opaque here, so it is a parameter: the session text is
/// `player_error_text(e, t)` for whatever text `t` the I/O error displays
/// as (and for every `t` when the failure is not an I/O one).
pub open spec fn player_error_text(e: &MusicPlayerError, io_text: Seq<char>) -> Seq<char> {
    match e {
        MusicPlayerError::Audio(a) => "Audio error: "@ + audio_error_text(a),
        MusicPlayerError::Youtube(y) => "YouTube error: "@ + youtube_error_text(y),
        MusicPlayerError::Playlist(p) => "Playlist error: "@ + playlist_error_text(p),
        MusicPlayerError::Io(_) => "IO error: "@ + io_text,
        MusicPlayerError::Network(m) => "Network error: "@ + m@,
        MusicPlayerError::Config(m) => "Configuration error: "@ + m@,
    }
}

impl AudioError {
    /// The display text of this failure.
    pub fn message(&self) -> (r: String)
        ensures
            r@ == audio_error_text(self),
    {
        match self {
            AudioError::PlaybackFailed(m) => {
                let mut r = "Playback failed: ".to_owned();
                r.append(m.as_str());
                r
            },
            AudioError::MpvNotFound => "MPV player not found. Please install mpv.".to_owned(),
            AudioError::VolumeControlFailed => "Failed to control volume".to_owned(),
            AudioError::SeekFailed => "Failed to seek in track".to_owned(),
            AudioError::ProcessTerminated => "Audio process was terminated".to_owned(),
        }
    }
}

impl YoutubeError {
    /// The display text of this failure.
    pub fn message(&self) -> (r: String)
        ensures
            r@ == youtube_error_text(self),
    {
        match self {
            YoutubeError::YtDlpNotFound => "yt-dlp not found. Please install yt-dlp.".to_owned(),
            YoutubeError::SearchFailed(q) => {
                let mut r = "Search failed for: ".to_owned();
                r.append(q.as_str());
                r
            },
            YoutubeError::DownloadFailed(u) => {
                let mut r = "Download failed for: ".to_owned();
                r.append(u.as_str());
                r
            },
            YoutubeError::InvalidUrl(u) => {
                let mut r = "Invalid YouTube URL: ".to_owned();
                r.append(u.as_str());
                r
            },
            YoutubeError::NoResults => "No search results found".to_owned(),
            YoutubeError::ParseError(m) => {
                let mut r = "Failed to parse response: ".to_owned();
                r.append(m.as_str());
                r
            },
        }
    }
}

impl PlaylistError {
    /// The display text of this failure.
    pub fn message(&self) -> (r: String)
        ensures
            r@ == playlist_error_text(self),
    {
        match self {
            PlaylistError::PlaylistNotFound(n) => {
                let mut r = "Playlist not found: ".to_owned();
                r.append(n.as_str());
                r
            },
            PlaylistError::TrackNotFound(t) => {
                let mut r = "Track not found: ".to_owned();
                r.append(t.as_str());
                r
            },
            PlaylistError::SaveFailed(m) => {
                let mut r = "Failed to save playlist: ".to_owned();
                r.append(m.as_str());
                r
            },
            PlaylistError::LoadFailed(m) => {
                let mut r = "Failed to load playlist: ".to_owned();
                r.append(m.as_str());
                r
            },
            PlaylistError::InvalidFormat(m) => {
                let mut r = "Invalid playlist format: ".to_owned();
                r.append(m.as_str());
                r
            },
        }
    }
}

/// Relies on the standard `ToString` for `std::io::Error`: the error's
/// display text, used verbatim inside the session-wide message.
#[verifier::external_body]
fn io_error_message(e: &std::io::Error) -> (r: String) {
    e.to_string()
}

impl MusicPlayerError {
    /// The display text of this failure.  For an I/O failure the carried
    /// error's own text follows the fixed prefix.
    pub fn message(&self) -> (r: String)
        ensures
            exists|io_text: Seq<char>| r@ == player_error_text(self, io_text),
    {
        match self {
            MusicPlayerError::Audio(a) => {
                let mut r = "Audio error: ".to_owned();
                let m = a.message();
                r.append(m.as_str());
                proof {
                    assert(r@ == player_error_text(self, Seq::<char>::empty()));
                }
                r
            },
            MusicPlayerError::Youtube(y) => {
                let mut r = "YouTube error: ".to_owned();
                let m = y.message();
                r.append(m.as_str());
                proof {
                    assert(r@ == player_error_text(self, Seq::<char>::empty()));
                }
                r
            },
            MusicPlayerError::Playlist(p) => {
                let mut r = "Playlist error: ".to_owned();
                let m = p.message();
                r.append(m.as_str());
                proof {
                    assert(r@ == player_error_text(self, Seq::<char>::empty()));
                }
                r
            },
            MusicPlayerError::Io(e) => {
                let mut r = "IO error: ".to_owned();
                let m = io_error_message(e);
                r.append(m.as_str());
                proof {
                    assert(r@ == player_error_text(self, m@));
                }
                r
            },
            MusicPlayerError::Network(m) => {
                let mut r = "Network error: ".to_owned();
                r.append(m.as_str());
                proof {
                    assert(r@ == player_error_text(self, Seq::<char>::empty()));
                }
                r
            },
            MusicPlayerError::Config(m) => {
                let mut r = "Configuration error: ".to_owned();
                r.append(m.as_str());
                proof {
                    assert(r@ == player_error_text(self, Seq::<char>::empty()));
                }
                r
            },
        }
    }
}

impl From<AudioError> for MusicPlayerError {
    fn from(error: AudioError) -> (r: Self) {
        MusicPlayerError::Audio(error)
    }
}

impl vstd::std_specs::convert::FromSpecImpl<AudioError> for MusicPlayerError {
    open spec fn obeys_from_spec() -> bool {
        true
    }

    open spec fn from_spec(error: AudioError) -> Self {
        MusicPlayerError::Audio(error)
    }
}

impl From<YoutubeError> for MusicPlayerError {
    fn from(error: YoutubeError) -> (r: Self) {
        MusicPlayerError::Youtube(error)
    }
}

impl vstd::std_specs::convert::FromSpecImpl<YoutubeError> for MusicPlayerError {
    open spec fn obeys_from_spec() -> bool {
        true
    }

    open spec fn from_spec(error: YoutubeError) -> Self {
        MusicPlayerError::Youtube(error)
    }
}

impl From<PlaylistError> for MusicPlayerError {
    fn from(error: PlaylistError) -> (r: Self) {
        MusicPlayerError::Playlist(error)
    }
}

impl vstd::std_specs::convert::FromSpecImpl<PlaylistError> for MusicPlayerError {
    open spec fn obeys_from_spec() -> bool {
        true
    }

    open spec fn from_spec(error: PlaylistError) -> Self {
        MusicPlayerError::Playlist(error)
    }
}

impl From<std::io::Error> for MusicPlayerError {
    fn from(error: std::io::Error) -> (r: Self) {
        MusicPlayerError::Io(error)
    }
}

impl vstd::std_specs::convert::FromSpecImpl<std::io::Error> for MusicPlayerError {
    open spec fn obeys_from_spec() -> bool {
        true
    }

    open spec fn from_spec(error: std::io::Error) -> Self {
        MusicPlayerError::Io(error)
    }
}

/// The text of the user-facing hint shown when the player binary is
/// missing.
pub open spec fn mpv_hint_text() -> Seq<char> {
    "🎵 Lecteur audio manquant. Installez MPV avec:\n• Ubuntu/Debian: sudo apt install mpv\n• macOS: brew install mpv\n• Windows: téléchargez depuis mpv.io"@
}

/// The text of the user-facing hint shown when the retrieval tool is
/// missing.
pub open spec fn yt_dlp_hint_text() -> Seq<char> {
    "📺 Téléchargeur YouTube manquant. Installez yt-dlp avec:\n• pip install yt-dlp\n• ou visitez github.com/yt-dlp/yt-dlp"@
}

/// Renders a failure as the short user-facing message the interface shows:
/// a dedicated installation hint when a required external tool is missing,
/// a connectivity hint for network failures, and the plain display text,
/// flagged, otherwise.
pub fn user_friendly_error(error: &MusicPlayerError) -> (r: String)
    ensures
        error matches MusicPlayerError::Audio(AudioError::MpvNotFound) ==> r@
            == mpv_hint_text(),
        error matches MusicPlayerError::Youtube(YoutubeError::YtDlpNotFound) ==> r@
            == yt_dlp_hint_text(),
        error matches MusicPlayerError::Network(m) ==> r@ == "🌐 Problème de connexion: "@
            + m@ + "\nVérifiez votre connexion internet."@,
        !(error matches MusicPlayerError::Audio(AudioError::MpvNotFound)) && !(
        error matches MusicPlayerError::Youtube(YoutubeError::YtDlpNotFound)) && !(
        error matches MusicPlayerError::Network(_)) ==> exists|io_text: Seq<char>|
            r@ == "❌ "@ + player_error_text(error, io_text),
{
    match error {
        MusicPlayerError::Audio(AudioError::MpvNotFound) => {
            "🎵 Lecteur audio manquant. Installez MPV avec:\n• Ubuntu/Debian: sudo apt install mpv\n• macOS: brew install mpv\n• Windows: téléchargez depuis mpv.io".to_owned()
        },
        MusicPlayerError::Youtube(YoutubeError::YtDlpNotFound) => {
            "📺 Téléchargeur YouTube manquant. Installez yt-dlp avec:\n• pip install yt-dlp\n• ou visitez github.com/yt-dlp/yt-dlp".to_owned()
        },
        MusicPlayerError::Network(m) => {
            let mut r = "🌐 Problème de connexion: ".to_owned();
            r.append(m.as_str());
            r.append("\nVérifiez votre connexion internet.");
            r
        },
        _ => {
            let mut r = "❌ ".to_owned();
            let m = error.message();
            r.append(m.as_str());
            proof {
                let t = choose|io_text: Seq<char>| m@ == player_error_text(error, io_text);
                assert(r@ == "❌ "@ + player_error_text(error, t));
            }
            r
        },
    }
}

} // verus!
