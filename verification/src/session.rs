//! The session layer: composes the playlist store and the playback
//! controller into user-facing transitions — next, previous, toggle
//! play/pause, and the heuristic auto-advance tick.
//!
//! Every method decides and updates the in-memory state; whatever must
//! happen outside (killing a process, spawning the player on a file,
//! delivering a suspend or continue signal) comes back to the caller as a
//! [`SessionAction`], and the outcome of a spawn is handed back in through
//! `start_succeeded` or `start_failed`.

use vstd::prelude::*;
use vstd::arithmetic::div_mod::{lemma_add_mod_noop, lemma_small_mod};
use crate::playback::{
    default_playback_state, pause_transition, resume_transition, start_transition,
    volume_command, PauseCapability, PlaybackController, PlaybackState,
};
use crate::playlist::{PlaylistManager, Track};

verus! {

/// The outside work a session transition asks its caller to perform.
#[derive(Debug, PartialEq)]
pub enum SessionAction {
    /// Nothing to perform.
    Idle,
    /// Deliver the suspend signal to this process.
    SignalSuspend(u32),
    /// Deliver the continue signal to this process.
    SignalContinue(u32),
    /// Terminate the old process, if any, then spawn the player on this
    /// file and report the outcome via `start_succeeded` / `start_failed`.
    StartTrack { kill: Option<u32>, file_path: String },
    /// Terminate this process; nothing new starts in its place.
    StopProcess(u32),
}

/// The index the queue advances to: one step forward, wrapping at the end.
pub open spec fn next_index(current: int, len: int) -> int
    recommends
        len > 0,
{
    (current + 1) % len
}

/// The index the queue steps back to: one step backward, wrapping at the
/// start.
pub open spec fn prev_index(current: int, len: int) -> int
    recommends
        len > 0,
{
    if current == 0 {
        len - 1
    } else {
        current - 1
    }
}

/// A tick's worth of the progress fraction, in thousandths.
pub const PROGRESS_TICK: u32 = 1;

/// The progress value that stands for a finished track, in thousandths.
pub const PROGRESS_FULL: u32 = 1000;

/// The runtime aggregate of playlist selection, queue position and playback
/// state, driving and driven by user intents.
pub struct Session {
    pub playlist_manager: PlaylistManager,
    pub controller: PlaybackController,
    pub current_playlist: String,
    pub current_track: usize,
    pub is_playing: bool,
    pub is_paused: bool,
    pub volume: u8,
    pub progress_milli: u32,
}

/// The track list of the session's current playlist, empty when the
/// playlist is gone.
pub open spec fn spec_current_tracks(s: &Session) -> Seq<Track> {
    if s.playlist_manager.has_playlist(s.current_playlist@) {
        s.playlist_manager.tracks_of(s.current_playlist@)
    } else {
        Seq::empty()
    }
}

/// The clamp a volume adjustment applies.
pub open spec fn clamped_volume(v: int) -> int {
    if v < 0 {
        0
    } else if v > 100 {
        100
    } else {
        v
    }
}

impl Session {
    /// Fields that no transition of the play queue touches, and the track
    /// list they determine.
    pub open spec fn same_store_and_selection(&self, other: &Self) -> bool {
        &&& self.playlist_manager == other.playlist_manager
        &&& self.current_playlist@ == other.current_playlist@
        &&& self.volume == other.volume
        &&& spec_current_tracks(self) == spec_current_tracks(other)
    }

    /// A fresh session: an empty store holding one default playlist, no
    /// owned process, nothing playing, volume at its starting level.
    pub fn new(capability: PauseCapability) -> (r: Self)
        ensures
            r.playlist_manager.wf(),
            r.playlist_manager.has_playlist("default"@),
            r.playlist_manager.tracks_of("default"@) == Seq::<Track>::empty(),
            r.current_playlist@ == "default"@,
            r.current_track == 0,
            !r.is_playing,
            !r.is_paused,
            r.volume == 70,
            r.progress_milli == 0,
            r.controller.spec_process() is None,
            r.controller.spec_state() == default_playback_state(),
            r.controller.spec_capability() == capability,
    {
        let mut playlist_manager = PlaylistManager::new();
        playlist_manager.create_playlist("default");
        Session {
            playlist_manager,
            controller: PlaybackController::new(capability),
            current_playlist: "default".to_owned(),
            current_track: 0,
            is_playing: false,
            is_paused: false,
            volume: 70,
            progress_milli: 0,
        }
    }

    /// A copy of the current playlist's track list, empty when the playlist
    /// is gone.
    pub fn current_tracks(&self) -> (r: Vec<Track>)
        requires
            self.playlist_manager.wf(),
        ensures
            r@ == spec_current_tracks(self),
    {
        match self.playlist_manager.get_playlist_tracks(self.current_playlist.as_str()) {
            Some(ts) => ts,
            None => Vec::new(),
        }
    }

    /// Adds a track at the end of the current playlist's queue; reports
    /// failure when the current playlist is gone.
    pub fn add_track_to_current(&mut self, track: Track) -> (r: bool)
        requires
            old(self).playlist_manager.wf(),
        ensures
            final(self).playlist_manager.wf(),
            r == old(self).playlist_manager.has_playlist(old(self).current_playlist@),
            r ==> final(self).playlist_manager.has_playlist(final(self).current_playlist@),
            r ==> spec_current_tracks(final(self)) == spec_current_tracks(old(self)).push(
                track,
            ),
            !r ==> final(self).playlist_manager == old(self).playlist_manager,
            final(self).current_playlist@ == old(self).current_playlist@,
            final(self).current_track == old(self).current_track,
            final(self).is_playing == old(self).is_playing,
            final(self).is_paused == old(self).is_paused,
            final(self).volume == old(self).volume,
            final(self).progress_milli == old(self).progress_milli,
            final(self).controller == old(self).controller,
    {
        let name = self.current_playlist.clone();
        self.playlist_manager.add_track_to_playlist(name.as_str(), track)
    }

    /// Advances to the next track: stops playback, moves the queue index
    /// one step forward (wrapping), resets progress, and asks the caller to
    /// start the new index's track.  A failure to start later will not undo
    /// the index change.  Does nothing when the current playlist is empty.
    pub fn next_track(&mut self) -> (act: SessionAction)
        requires
            old(self).playlist_manager.wf(),
        ensures
            final(self).playlist_manager.wf(),
            final(self).same_store_and_selection(old(self)),
            spec_current_tracks(old(self)).len() == 0 ==> {
                &&& *final(self) == *old(self)
                &&& act == SessionAction::Idle
            },
            spec_current_tracks(old(self)).len() > 0 ==> {
                let ts = spec_current_tracks(old(self));
                let ni = next_index(old(self).current_track as int, ts.len() as int);
                &&& final(self).current_track == ni
                &&& final(self).progress_milli == 0
                &&& !final(self).is_playing
                &&& !final(self).is_paused
                &&& final(self).controller.spec_process() is None
                &&& final(self).controller.spec_state() == default_playback_state()
                &&& final(self).controller.spec_capability() == old(
                    self,
                ).controller.spec_capability()
                &&& act == (SessionAction::StartTrack {
                    kill: old(self).controller.spec_process(),
                    file_path: ts[ni].file_path,
                })
            },
    {
        let tracks = self.current_tracks();
        if tracks.len() == 0 {
            return SessionAction::Idle;
        }
        let kill = self.controller.stop_audio();
        let len = tracks.len();
        let ghost c = self.current_track as int;
        let ni = ((self.current_track % len) + 1) % len;
        proof {
            lemma_add_mod_noop(c, 1, len as int);
            if len == 1 {
                lemma_small_mod(0, 1);
            } else {
                lemma_small_mod(1, len as nat);
            }
            assert(((c % (len as int)) + 1) % (len as int) == (c + 1) % (len as int));
        }
        self.current_track = ni;
        self.progress_milli = 0;
        self.is_playing = false;
        self.is_paused = false;
        let file_path = tracks[ni].file_path.clone();
        SessionAction::StartTrack { kill, file_path }
    }

    /// Steps back to the previous track: stops playback, moves the queue
    /// index one step backward (wrapping), resets progress, and asks the
    /// caller to start the new index's track.  Does nothing when the
    /// current playlist is empty.
    pub fn previous_track(&mut self) -> (act: SessionAction)
        requires
            old(self).playlist_manager.wf(),
        ensures
            final(self).playlist_manager.wf(),
            final(self).same_store_and_selection(old(self)),
            spec_current_tracks(old(self)).len() == 0 ==> {
                &&& *final(self) == *old(self)
                &&& act == SessionAction::Idle
            },
            spec_current_tracks(old(self)).len() > 0 ==> {
                let ts = spec_current_tracks(old(self));
                let ni = prev_index(old(self).current_track as int, ts.len() as int);
                &&& final(self).current_track == ni
                &&& final(self).progress_milli == 0
                &&& !final(self).is_playing
                &&& !final(self).is_paused
                &&& final(self).controller.spec_process() is None
                &&& final(self).controller.spec_state() == default_playback_state()
                &&& final(self).controller.spec_capability() == old(
                    self,
                ).controller.spec_capability()
                &&& (ni < ts.len() ==> act == (SessionAction::StartTrack {
                    kill: old(self).controller.spec_process(),
                    file_path: ts[ni].file_path,
                }))
                &&& (ni >= ts.len() ==> act == (match old(self).controller.spec_process() {
                    Some(pid) => SessionAction::StopProcess(pid),
                    None => SessionAction::Idle,
                }))
            },
    {
        let tracks = self.current_tracks();
        if tracks.len() == 0 {
            return SessionAction::Idle;
        }
        let kill = self.controller.stop_audio();
        let len = tracks.len();
        let ni = if self.current_track == 0 {
            len - 1
        } else {
            self.current_track - 1
        };
        self.current_track = ni;
        self.progress_milli = 0;
        self.is_playing = false;
        self.is_paused = false;
        if ni < len {
            let file_path = tracks[ni].file_path.clone();
            SessionAction::StartTrack { kill, file_path }
        } else {
            // The index was already past the queue: playback stops and the
            // new index stands, but there is no track there to start.
            match kill {
                Some(pid) => SessionAction::StopProcess(pid),
                None => SessionAction::Idle,
            }
        }
    }

    /// Asks the caller to start the track at the current queue index:
    /// playback is stopped first, and the spawn outcome comes back through
    /// `start_succeeded` or `start_failed`.  Does nothing when the index
    /// points past the queue.
    pub fn play_current_track(&mut self) -> (act: SessionAction)
        requires
            old(self).playlist_manager.wf(),
        ensures
            final(self).playlist_manager.wf(),
            final(self).same_store_and_selection(old(self)),
            old(self).current_track >= spec_current_tracks(old(self)).len() ==> {
                &&& *final(self) == *old(self)
                &&& act == SessionAction::Idle
            },
            old(self).current_track < spec_current_tracks(old(self)).len() ==> {
                &&& final(self).current_track == old(self).current_track
                &&& final(self).progress_milli == old(self).progress_milli
                &&& final(self).is_playing == old(self).is_playing
                &&& final(self).is_paused == old(self).is_paused
                &&& final(self).controller.spec_process() is None
                &&& final(self).controller.spec_state() == default_playback_state()
                &&& final(self).controller.spec_capability() == old(
                    self,
                ).controller.spec_capability()
                &&& act == (SessionAction::StartTrack {
                    kill: old(self).controller.spec_process(),
                    file_path: spec_current_tracks(old(self))[old(
                        self,
                    ).current_track as int].file_path,
                })
            },
    {
        let tracks = self.current_tracks();
        if self.current_track < tracks.len() {
            let kill = self.controller.stop_audio();
            let file_path = tracks[self.current_track].file_path.clone();
            SessionAction::StartTrack { kill, file_path }
        } else {
            SessionAction::Idle
        }
    }

    /// Records that the player process for the requested track is running:
    /// the controller takes ownership and the session marks itself playing.
    pub fn start_succeeded(&mut self, pid: u32, now_ms: u64)
        requires
            old(self).controller.spec_process() is None,
        ensures
            final(self).playlist_manager == old(self).playlist_manager,
            final(self).same_store_and_selection(old(self)),
            final(self).current_track == old(self).current_track,
            final(self).progress_milli == old(self).progress_milli,
            final(self).is_playing,
            !final(self).is_paused,
            final(self).controller.spec_process() == Some(pid),
            final(self).controller.spec_state() == start_transition(
                old(self).controller.spec_state(),
                now_ms,
            ),
            final(self).controller.spec_capability() == old(
                self,
            ).controller.spec_capability(),
    {
        self.controller.start_audio(pid, now_ms);
        self.is_playing = true;
        self.is_paused = false;
    }

    /// Records that the player could not be spawned: the session is not
    /// playing; the queue index keeps its new value.
    pub fn start_failed(&mut self)
        ensures
            final(self).playlist_manager == old(self).playlist_manager,
            final(self).same_store_and_selection(old(self)),
            final(self).current_track == old(self).current_track,
            final(self).progress_milli == old(self).progress_milli,
            !final(self).is_playing,
            !final(self).is_paused,
            final(self).controller == old(self).controller,
    {
        self.is_playing = false;
        self.is_paused = false;
    }

    /// Toggles between playing and paused.  With nothing playing it starts
    /// the track at the current index; while playing it flips the pause
    /// flag and asks the caller to deliver the matching signal.
    pub fn toggle_play_pause(&mut self, now_ms: u64) -> (act: SessionAction)
        requires
            old(self).playlist_manager.wf(),
        ensures
            final(self).playlist_manager.wf(),
            final(self).same_store_and_selection(old(self)),
            spec_current_tracks(old(self)).len() == 0 ==> {
                &&& *final(self) == *old(self)
                &&& act == SessionAction::Idle
            },
            spec_current_tracks(old(self)).len() > 0 && old(self).is_playing && !old(
                self,
            ).is_paused ==> {
                &&& final(self).is_paused
                &&& final(self).is_playing
                &&& final(self).current_track == old(self).current_track
                &&& final(self).progress_milli == old(self).progress_milli
                &&& final(self).controller.spec_process() == old(
                    self,
                ).controller.spec_process()
                &&& final(self).controller.spec_state() == pause_transition(
                    old(self).controller.spec_state(),
                    old(self).controller.spec_process() is Some,
                    old(self).controller.spec_capability(),
                )
                &&& act == (match old(self).controller.spec_process() {
                    Some(pid) if old(self).controller.spec_capability()
                        is SignalCapable => SessionAction::SignalSuspend(pid),
                    _ => SessionAction::Idle,
                })
            },
            spec_current_tracks(old(self)).len() > 0 && old(self).is_playing && old(
                self,
            ).is_paused ==> {
                &&& !final(self).is_paused
                &&& final(self).is_playing
                &&& final(self).current_track == old(self).current_track
                &&& final(self).progress_milli == old(self).progress_milli
                &&& final(self).controller.spec_process() == old(
                    self,
                ).controller.spec_process()
                &&& final(self).controller.spec_state() == resume_transition(
                    old(self).controller.spec_state(),
                    old(self).controller.spec_process() is Some,
                    old(self).controller.spec_capability(),
                    now_ms,
                )
                &&& act == (match old(self).controller.spec_process() {
                    Some(pid) if old(self).controller.spec_capability()
                        is SignalCapable => SessionAction::SignalContinue(pid),
                    _ => SessionAction::Idle,
                })
            },
            spec_current_tracks(old(self)).len() > 0 && !old(self).is_playing ==> {
                &&& final(self).is_playing == old(self).is_playing
                &&& final(self).is_paused == old(self).is_paused
                &&& final(self).current_track == old(self).current_track
                &&& final(self).progress_milli == old(self).progress_milli
                &&& (old(self).current_track < spec_current_tracks(old(self)).len() ==> {
                    &&& final(self).controller.spec_process() is None
                    &&& final(self).controller.spec_state() == default_playback_state()
                    &&& final(self).controller.spec_capability() == old(
                        self,
                    ).controller.spec_capability()
                    &&& act == (SessionAction::StartTrack {
                        kill: old(self).controller.spec_process(),
                        file_path: spec_current_tracks(old(self))[old(
                            self,
                        ).current_track as int].file_path,
                    })
                })
                &&& (old(self).current_track >= spec_current_tracks(old(self)).len() ==> {
                    &&& *final(self) == *old(self)
                    &&& act == SessionAction::Idle
                })
            },
    {
        let tracks = self.current_tracks();
        if tracks.len() == 0 {
            return SessionAction::Idle;
        }
        if self.is_playing {
            if !self.is_paused {
                self.is_paused = true;
                match self.controller.pause_audio() {
                    Some(pid) => SessionAction::SignalSuspend(pid),
                    None => SessionAction::Idle,
                }
            } else {
                self.is_paused = false;
                match self.controller.resume_audio(now_ms) {
                    Some(pid) => SessionAction::SignalContinue(pid),
                    None => SessionAction::Idle,
                }
            }
        } else {
            self.play_current_track()
        }
    }

    /// Clamps a volume adjustment into the allowed range — the stored
    /// volume moves by `delta` but never leaves `0..=100` — and forwards
    /// the clamped value to the controller.  The returned control-channel
    /// command line is what the caller should write to the live process;
    /// the state is updated whether or not that write will succeed.
    pub fn adjust_volume(&mut self, delta: i8) -> (cmd: String)
        ensures
            final(self).volume == clamped_volume(old(self).volume + delta),
            final(self).playlist_manager == old(self).playlist_manager,
            final(self).current_playlist@ == old(self).current_playlist@,
            final(self).current_track == old(self).current_track,
            final(self).is_playing == old(self).is_playing,
            final(self).is_paused == old(self).is_paused,
            final(self).progress_milli == old(self).progress_milli,
            final(self).controller.spec_process() == old(self).controller.spec_process(),
            final(self).controller.spec_capability() == old(
                self,
            ).controller.spec_capability(),
            final(self).controller.spec_state() == (PlaybackState {
                volume: clamped_volume(old(self).volume + delta) as u8,
                ..old(self).controller.spec_state()
            }),
            cmd@ == volume_command(clamped_volume(old(self).volume + delta) as nat),
    {
        let v: i32 = self.volume as i32 + delta as i32;
        let clamped: i32 = if v < 0 {
            0
        } else if v > 100 {
            100
        } else {
            v
        };
        let volume = clamped as u8;
        self.volume = volume;
        self.controller.set_volume(volume)
    }

    /// The auto-advance tick: while playing and unpaused the progress
    /// fraction grows by one thousandth; on reaching the full mark with a
    /// non-empty queue it resets and the session advances to the next
    /// track.  A heuristic proxy for the end of the track, not a reading of
    /// the player's true position.
    pub fn update_progress(&mut self) -> (act: SessionAction)
        requires
            old(self).playlist_manager.wf(),
        ensures
            final(self).playlist_manager.wf(),
            final(self).same_store_and_selection(old(self)),
            !(old(self).is_playing && !old(self).is_paused) ==> {
                &&& *final(self) == *old(self)
                &&& act == SessionAction::Idle
            },
            old(self).is_playing && !old(self).is_paused && old(self).progress_milli + 1
                < PROGRESS_FULL ==> {
                &&& final(self).progress_milli == old(self).progress_milli + 1
                &&& final(self).current_track == old(self).current_track
                &&& final(self).is_playing == old(self).is_playing
                &&& final(self).is_paused == old(self).is_paused
                &&& final(self).controller == old(self).controller
                &&& act == SessionAction::Idle
            },
            old(self).is_playing && !old(self).is_paused && old(self).progress_milli + 1
                >= PROGRESS_FULL && spec_current_tracks(old(self)).len() > 0 ==> {
                let ts = spec_current_tracks(old(self));
                let ni = next_index(old(self).current_track as int, ts.len() as int);
                &&& final(self).progress_milli == 0
                &&& final(self).current_track == ni
                &&& !final(self).is_playing
                &&& !final(self).is_paused
                &&& act == (SessionAction::StartTrack {
                    kill: old(self).controller.spec_process(),
                    file_path: ts[ni].file_path,
                })
            },
            old(self).is_playing && !old(self).is_paused && old(self).progress_milli + 1
                >= PROGRESS_FULL && spec_current_tracks(old(self)).len() == 0 ==> {
                &&& final(self).progress_milli == PROGRESS_FULL
                &&& final(self).current_track == old(self).current_track
                &&& final(self).is_playing == old(self).is_playing
                &&& final(self).is_paused == old(self).is_paused
                &&& final(self).controller == old(self).controller
                &&& act == SessionAction::Idle
            },
    {
        if self.is_playing && !self.is_paused {
            let bumped = if self.progress_milli >= PROGRESS_FULL - PROGRESS_TICK {
                PROGRESS_FULL
            } else {
                self.progress_milli + PROGRESS_TICK
            };
            self.progress_milli = bumped;
            if bumped >= PROGRESS_FULL {
                let tracks = self.current_tracks();
                if tracks.len() > 0 {
                    self.progress_milli = 0;
                    return self.next_track();
                }
            }
            SessionAction::Idle
        } else {
            SessionAction::Idle
        }
    }
}

} // verus!
