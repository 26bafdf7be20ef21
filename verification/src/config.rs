//! Session configuration: audio, download, interface and key-binding
//! settings, with their defaults and validity rules.  Reading and writing
//! the configuration file is the caller's business; the values themselves,
//! their defaults and their validation live here.

use vstd::prelude::*;

verus! {

/// Settings of the external audio player.
#[derive(Debug, Clone)]
pub struct AudioConfig {
    pub default_volume: u8,
    pub audio_format: String,
    pub audio_quality: String,
    pub mpv_args: Vec<String>,
}

/// Settings of the track retrieval and storage layout.
#[derive(Debug, Clone)]
pub struct DownloadConfig {
    pub music_dir: String,
    pub playlist_dir: String,
    pub max_concurrent_downloads: usize,
    pub auto_create_playlist: bool,
    pub filename_template: String,
}

/// Settings of the interface loop.
#[derive(Debug, Clone)]
pub struct UiConfig {
    pub default_playlist: String,
    pub show_progress: bool,
    pub show_waveform: bool,
    pub theme: String,
    pub update_interval_ms: u64,
}

/// The keys bound to each user intent.
#[derive(Debug, Clone)]
pub struct KeyBindings {
    pub play_pause: Vec<String>,
    pub next_track: Vec<String>,
    pub previous_track: Vec<String>,
    pub volume_up: Vec<String>,
    pub volume_down: Vec<String>,
    pub search: Vec<String>,
    pub quit: Vec<String>,
    pub help: Vec<String>,
}

/// The whole session configuration.
#[derive(Debug, Clone)]
pub struct Config {
    pub audio: AudioConfig,
    pub download: DownloadConfig,
    pub ui: UiConfig,
    pub keybindings: KeyBindings,
}

impl Default for Config {
    /// The built-in configuration: volume 70, tracks under `music`,
    /// playlists under `playlists`, a 100 ms interface tick, and the
    /// standard key set.
    fn default() -> (r: Self)
        ensures
            r.audio.default_volume == 70,
            r.audio.audio_format@ == "mp3"@,
            r.audio.audio_quality@ == "0"@,
            r.audio.mpv_args@.map_values(|s: String| s@) == seq![
                "--no-video"@,
                "--quiet"@,
                "--no-terminal"@,
                "--input-ipc-server=/tmp/mpvsocket"@,
            ],
            r.download.music_dir@ == "music"@,
            r.download.playlist_dir@ == "playlists"@,
            r.download.max_concurrent_downloads == 3,
            r.download.auto_create_playlist,
            r.download.filename_template@ == "%(title).100s.%(ext)s"@,
            r.ui.default_playlist@ == "default"@,
            r.ui.show_progress,
            !r.ui.show_waveform,
            r.ui.theme@ == "default"@,
            r.ui.update_interval_ms == 100,
            r.keybindings.play_pause@.map_values(|s: String| s@) == seq![" "@, "p"@],
            r.keybindings.next_track@.map_values(|s: String| s@) == seq!["n"@, "Right"@],
            r.keybindings.previous_track@.map_values(|s: String| s@) == seq![
                "b"@,
                "Left"@,
            ],
            r.keybindings.volume_up@.map_values(|s: String| s@) == seq!["+"@, "Up"@],
            r.keybindings.volume_down@.map_values(|s: String| s@) == seq!["-"@, "Down"@],
            r.keybindings.search@.map_values(|s: String| s@) == seq!["s"@],
            r.keybindings.quit@.map_values(|s: String| s@) == seq!["q"@, "Esc"@],
            r.keybindings.help@.map_values(|s: String| s@) == seq!["h"@, "F1"@],
    {
        let mut mpv_args: Vec<String> = Vec::new();
        mpv_args.push("--no-video".to_owned());
        mpv_args.push("--quiet".to_owned());
        mpv_args.push("--no-terminal".to_owned());
        mpv_args.push("--input-ipc-server=/tmp/mpvsocket".to_owned());
        proof {
            assert(mpv_args@.map_values(|s: String| s@) =~= seq![
                "--no-video"@,
                "--quiet"@,
                "--no-terminal"@,
                "--input-ipc-server=/tmp/mpvsocket"@,
            ]);
        }
        let r = Config {
            audio: AudioConfig {
                default_volume: 70,
                audio_format: "mp3".to_owned(),
                audio_quality: "0".to_owned(),
                mpv_args,
            },
            download: DownloadConfig {
                music_dir: "music".to_owned(),
                playlist_dir: "playlists".to_owned(),
                max_concurrent_downloads: 3,
                auto_create_playlist: true,
                filename_template: "%(title).100s.%(ext)s".to_owned(),
            },
            ui: UiConfig {
                default_playlist: "default".to_owned(),
                show_progress: true,
                show_waveform: false,
                theme: "default".to_owned(),
                update_interval_ms: 100,
            },
            keybindings: KeyBindings {
                play_pause: two_keys(" ", "p"),
                next_track: two_keys("n", "Right"),
                previous_track: two_keys("b", "Left"),
                volume_up: two_keys("+", "Up"),
                volume_down: two_keys("-", "Down"),
                search: one_key("s"),
                quit: two_keys("q", "Esc"),
                help: two_keys("h", "F1"),
            },
        };
        r
    }
}

/// A binding list of a single key.
fn one_key(a: &str) -> (r: Vec<String>)
    ensures
        r@.map_values(|s: String| s@) == seq![a@],
{
    let mut r: Vec<String> = Vec::new();
    r.push(a.to_owned());
    proof {
        assert(r@.map_values(|s: String| s@) =~= seq![a@]);
    }
    r
}

/// A binding list of two alternative keys.
fn two_keys(a: &str, b: &str) -> (r: Vec<String>)
    ensures
        r@.map_values(|s: String| s@) == seq![a@, b@],
{
    let mut r: Vec<String> = Vec::new();
    r.push(a.to_owned());
    r.push(b.to_owned());
    proof {
        assert(r@.map_values(|s: String| s@) =~= seq![a@, b@]);
    }
    r
}

/// Whether a configuration passes validation: the default volume within
/// the volume scale, at least one download slot, and an interface tick of
/// at least ten milliseconds.
pub open spec fn config_valid(c: &Config) -> bool {
    &&& c.audio.default_volume <= 100
    &&& c.download.max_concurrent_downloads >= 1
    &&& c.ui.update_interval_ms >= 10
}

impl Config {
    /// Checks the configuration, reporting the first rule it breaks.
    pub fn validate(&self) -> (r: Result<(), String>)
        ensures
            r is Ok <==> config_valid(self),
            self.audio.default_volume > 100 ==> (r matches Err(m) && m@
                == "Default volume must be between 0 and 100"@),
            self.audio.default_volume <= 100 && self.download.max_concurrent_downloads == 0
                ==> (r matches Err(m) && m@
                == "Max concurrent downloads must be at least 1"@),
            self.audio.default_volume <= 100 && self.download.max_concurrent_downloads >= 1
                && self.ui.update_interval_ms < 10 ==> (r matches Err(m) && m@
                == "Update interval must be at least 10ms"@),
    {
        if self.audio.default_volume > 100 {
            return Err("Default volume must be between 0 and 100".to_owned());
        }
        if self.download.max_concurrent_downloads == 0 {
            return Err("Max concurrent downloads must be at least 1".to_owned());
        }
        if self.ui.update_interval_ms < 10 {
            return Err("Update interval must be at least 10ms".to_owned());
        }
        Ok(())
    }
}

} // verus!
