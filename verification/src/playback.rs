//! Playback control: the single authority over the external player process
//! and the locally estimated playback state.
//!
//! The controller owns at most one external process at a time, identified by
//! its process id.  Spawning, killing and signalling that process are OS side
//! effects that the caller performs; every method here makes the decision and
//! reports, as a plain value, what the caller must do (a process id to kill
//! or signal, a control-channel command line to write).  All time is passed
//! in as milliseconds read from a monotonic clock.

use vstd::prelude::*;
use vstd::string::StringExecFns;
use crate::text::{dec_digits, digit_char, u64_to_string};

verus! {

/// Snapshot of the locally estimated playback state.
/// Durations and instants are in milliseconds.
#[derive(Clone, Copy, Debug)]
pub struct PlaybackState {
    pub is_playing: bool,
    pub is_paused: bool,
    pub position_ms: u64,
    pub duration_ms: Option<u64>,
    pub volume: u8,
    pub last_update_ms: Option<u64>,
}

/// The not-playing state every session starts from and returns to on stop.
pub open spec fn default_playback_state() -> PlaybackState {
    PlaybackState {
        is_playing: false,
        is_paused: false,
        position_ms: 0,
        duration_ms: None,
        volume: 0,
        last_update_ms: None,
    }
}

impl Default for PlaybackState {
    fn default() -> (r: Self)
        ensures
            r == default_playback_state(),
    {
        PlaybackState {
            is_playing: false,
            is_paused: false,
            position_ms: 0,
            duration_ms: None,
            volume: 0,
            last_update_ms: None,
        }
    }
}

/// Whether this platform can suspend and continue the player process.
/// Selected once at startup; on `Unsupported` pause and resume degrade to
/// state-only toggles and the external process keeps producing audio.
#[derive(Clone, Copy, PartialEq, Eq, Structural, Debug)]
pub enum PauseCapability {
    SignalCapable,
    Unsupported,
}

/// What pausing does to the state: the paused flag is set whenever a process
/// is owned, and also, state-only, on platforms that cannot suspend one.
pub open spec fn pause_transition(
    s: PlaybackState,
    has_process: bool,
    cap: PauseCapability,
) -> PlaybackState {
    if has_process || cap is Unsupported {
        PlaybackState { is_paused: true, ..s }
    } else {
        s
    }
}

/// What resuming does to the state: the paused flag is cleared and the
/// last-update instant is refreshed, so that position accounting restarts
/// from the resume point rather than from before the pause.
pub open spec fn resume_transition(
    s: PlaybackState,
    has_process: bool,
    cap: PauseCapability,
    now_ms: u64,
) -> PlaybackState {
    if has_process || cap is Unsupported {
        PlaybackState { is_paused: false, last_update_ms: Some(now_ms), ..s }
    } else {
        s
    }
}

/// What a reconciliation tick does to the state: while playing and unpaused
/// the position advances by the wall-clock delta since the last update.
pub open spec fn update_transition(s: PlaybackState, now_ms: u64) -> PlaybackState {
    if s.is_playing && !s.is_paused && s.last_update_ms is Some {
        PlaybackState {
            position_ms: (s.position_ms + (now_ms - s.last_update_ms->0)) as u64,
            last_update_ms: Some(now_ms),
            ..s
        }
    } else {
        s
    }
}

/// What starting a freshly spawned process does to the state.
pub open spec fn start_transition(s: PlaybackState, now_ms: u64) -> PlaybackState {
    PlaybackState {
        is_playing: true,
        is_paused: false,
        position_ms: 0,
        last_update_ms: Some(now_ms),
        ..s
    }
}

/// The clock and overflow side conditions a reconciliation tick needs: the
/// clock has not gone backwards and the advanced position still fits.
pub open spec fn tick_admissible(s: PlaybackState, now_ms: u64) -> bool {
    (s.is_playing && !s.is_paused && s.last_update_ms is Some) ==> {
        &&& s.last_update_ms->0 <= now_ms
        &&& s.position_ms + (now_ms - s.last_update_ms->0) <= u64::MAX
    }
}

/// Owns the external player's process handle (as a process id) and the
/// playback state snapshot; at most one process is owned at any instant.
pub struct PlaybackController {
    process: Option<u32>,
    state: PlaybackState,
    capability: PauseCapability,
}

impl PlaybackController {
    /// The process id of the owned external process, if one is owned.
    pub closed spec fn spec_process(&self) -> Option<u32> {
        self.process
    }

    /// The current playback state snapshot.
    pub closed spec fn spec_state(&self) -> PlaybackState {
        self.state
    }

    /// The pause capability selected at construction.
    pub closed spec fn spec_capability(&self) -> PauseCapability {
        self.capability
    }

    /// The set of process ids this controller owns.
    pub open spec fn owned_pids(&self) -> Set<u32> {
        match self.spec_process() {
            Some(pid) => Set::empty().insert(pid),
            None => Set::empty(),
        }
    }

    pub fn new(capability: PauseCapability) -> (r: Self)
        ensures
            r.spec_process() is None,
            r.spec_state() == default_playback_state(),
            r.spec_capability() == capability,
    {
        PlaybackController { process: None, state: PlaybackState::default(), capability }
    }

    /// Stops playback: releases the owned process, if any, and resets the
    /// state to its default.  Idempotent.  The returned process id, if any,
    /// is the process the caller must terminate and wait on; termination
    /// errors there are discarded.
    pub fn stop_audio(&mut self) -> (kill: Option<u32>)
        ensures
            final(self).spec_process() is None,
            final(self).spec_state() == default_playback_state(),
            final(self).spec_capability() == old(self).spec_capability(),
            kill == old(self).spec_process(),
    {
        let kill = self.process;
        self.process = None;
        self.state = PlaybackState::default();
        kill
    }

    /// Takes ownership of a freshly spawned player process and resets the
    /// playing fields.  The caller must have stopped the previous process
    /// first (`stop_audio`), so that at most one process is ever owned.
    pub fn start_audio(&mut self, pid: u32, now_ms: u64)
        requires
            old(self).spec_process() is None,
        ensures
            final(self).spec_process() == Some(pid),
            final(self).spec_state() == start_transition(old(self).spec_state(), now_ms),
            final(self).spec_capability() == old(self).spec_capability(),
            final(self).owned_pids() =~= Set::empty().insert(pid),
    {
        self.process = Some(pid);
        self.state.is_playing = true;
        self.state.is_paused = false;
        self.state.position_ms = 0;
        self.state.last_update_ms = Some(now_ms);
    }

    /// Pauses playback.  The returned process id, if any, is the process the
    /// caller must deliver the suspend signal to.  On platforms without
    /// process-suspend support this is a state-only toggle.
    pub fn pause_audio(&mut self) -> (suspend: Option<u32>)
        ensures
            final(self).spec_process() == old(self).spec_process(),
            final(self).spec_capability() == old(self).spec_capability(),
            final(self).spec_state() == pause_transition(
                old(self).spec_state(),
                old(self).spec_process() is Some,
                old(self).spec_capability(),
            ),
            suspend == if old(self).spec_capability() is SignalCapable {
                old(self).spec_process()
            } else {
                None::<u32>
            },
    {
        match self.capability {
            PauseCapability::SignalCapable => {
                match self.process {
                    Some(pid) => {
                        self.state.is_paused = true;
                        Some(pid)
                    },
                    None => None,
                }
            },
            PauseCapability::Unsupported => {
                self.state.is_paused = true;
                None
            },
        }
    }

    /// Resumes playback and refreshes the last-update instant, so that
    /// subsequent position accounting starts from the resume point.  The
    /// returned process id, if any, is the process the caller must deliver
    /// the continue signal to.
    pub fn resume_audio(&mut self, now_ms: u64) -> (cont: Option<u32>)
        ensures
            final(self).spec_process() == old(self).spec_process(),
            final(self).spec_capability() == old(self).spec_capability(),
            final(self).spec_state() == resume_transition(
                old(self).spec_state(),
                old(self).spec_process() is Some,
                old(self).spec_capability(),
                now_ms,
            ),
            cont == if old(self).spec_capability() is SignalCapable {
                old(self).spec_process()
            } else {
                None::<u32>
            },
    {
        match self.capability {
            PauseCapability::SignalCapable => {
                match self.process {
                    Some(pid) => {
                        self.state.is_paused = false;
                        self.state.last_update_ms = Some(now_ms);
                        Some(pid)
                    },
                    None => None,
                }
            },
            PauseCapability::Unsupported => {
                self.state.is_paused = false;
                self.state.last_update_ms = Some(now_ms);
                None
            },
        }
    }

    /// Stores the volume and returns the control-channel command line the
    /// caller should write to the live process.  The local state is updated
    /// optimistically whether or not that write will succeed.
    pub fn set_volume(&mut self, volume: u8) -> (cmd: String)
        ensures
            final(self).spec_process() == old(self).spec_process(),
            final(self).spec_capability() == old(self).spec_capability(),
            final(self).spec_state() == (PlaybackState { volume, ..old(self).spec_state() }),
            cmd@ == volume_command(volume as nat),
    {
        self.state.volume = volume;
        volume_command_text(volume)
    }

    /// Stores the position and returns the control-channel seek command line
    /// the caller should write to the live process.  As with the volume, the
    /// local snapshot is updated unconditionally.
    pub fn seek_to(&mut self, position_ms: u64) -> (cmd: String)
        ensures
            final(self).spec_process() == old(self).spec_process(),
            final(self).spec_capability() == old(self).spec_capability(),
            final(self).spec_state() == (PlaybackState {
                position_ms,
                ..old(self).spec_state()
            }),
            cmd@ == seek_command(position_ms as nat),
    {
        self.state.position_ms = position_ms;
        seek_command_text(position_ms)
    }

    /// The periodic reconciliation tick: advances the position estimate by
    /// the wall-clock delta since the last update, while playing and
    /// unpaused.  This is the sole mechanism of position advancement.
    pub fn update_position(&mut self, now_ms: u64)
        requires
            tick_admissible(old(self).spec_state(), now_ms),
        ensures
            final(self).spec_process() == old(self).spec_process(),
            final(self).spec_capability() == old(self).spec_capability(),
            final(self).spec_state() == update_transition(old(self).spec_state(), now_ms),
    {
        if self.state.is_playing && !self.state.is_paused {
            match self.state.last_update_ms {
                Some(last) => {
                    self.state.position_ms = self.state.position_ms + (now_ms - last);
                    self.state.last_update_ms = Some(now_ms);
                },
                None => {},
            }
        }
    }

    /// Whether a process is currently owned.  The caller's non-blocking wait
    /// is the liveness probe proper; when it reports that the owned process
    /// has exited, the caller hands that fact back via `mark_process_exited`.
    pub fn is_process_running(&self) -> (r: bool)
        ensures
            r == (self.spec_process() is Some),
    {
        self.process.is_some()
    }

    /// Records that the owned process was found to have already exited:
    /// releases it and resets the state to its default, as a stop would.
    pub fn mark_process_exited(&mut self)
        ensures
            final(self).spec_process() is None,
            final(self).spec_state() == default_playback_state(),
            final(self).spec_capability() == old(self).spec_capability(),
    {
        self.process = None;
        self.state = PlaybackState::default();
    }

    /// A copy of the current playback state snapshot.
    pub fn get_playback_state(&self) -> (r: PlaybackState)
        ensures
            r == self.spec_state(),
    {
        self.state
    }
}

/// At most one owned external process exists after any sequence of calls:
/// the controller's set of owned process ids never has more than one element.
pub proof fn lemma_single_process_exclusive(c: &PlaybackController)
    ensures
        c.owned_pids().len() <= 1,
{
    match c.spec_process() {
        Some(pid) => {
            assert(c.owned_pids() =~= Set::empty().insert(pid));
        },
        None => {
            assert(c.owned_pids() =~= Set::<u32>::empty());
        },
    }
}

/// Pausing and then resuming leaves the paused flag clear, and the position
/// accumulated afterwards reflects only time spent playing and unpaused:
/// a tick taken at `t_tick` after a resume at `t_resume` advances the
/// position by exactly `t_tick - t_resume`, however long the pause lasted,
/// and ticks taken while paused advance it by nothing.
pub proof fn lemma_pause_resume_position(
    s: PlaybackState,
    has_process: bool,
    cap: PauseCapability,
    t_paused_tick: u64,
    t_resume: u64,
    t_tick: u64,
)
    requires
        s.is_playing,
        !s.is_paused,
        has_process || cap is Unsupported,
        t_resume <= t_tick,
        s.position_ms + (t_tick - t_resume) <= u64::MAX,
    ensures
        update_transition(pause_transition(s, has_process, cap), t_paused_tick)
            == pause_transition(s, has_process, cap),
        resume_transition(pause_transition(s, has_process, cap), has_process, cap, t_resume)
            .is_paused == false,
        update_transition(
            resume_transition(pause_transition(s, has_process, cap), has_process, cap, t_resume),
            t_tick,
        ).position_ms == s.position_ms + (t_tick - t_resume),
{
}

/// The control-channel command that sets the player volume.
pub open spec fn volume_command(v: nat) -> Seq<char> {
    "{ \"command\": [\"set_property\", \"volume\", "@ + dec_digits(v) + "] }\n"@
}

/// The decimal text of a millisecond count read as seconds: the whole
/// seconds, then, unless zero, the millisecond fraction with trailing zeros
/// stripped.
pub open spec fn seconds_text(ms: nat) -> Seq<char> {
    let whole = dec_digits(ms / 1000);
    let f = ms % 1000;
    if f == 0 {
        whole
    } else if f % 10 != 0 {
        whole + "."@ + seq![digit_char(f / 100), digit_char((f / 10) % 10), digit_char(f % 10)]
    } else if f % 100 != 0 {
        whole + "."@ + seq![digit_char(f / 100), digit_char((f / 10) % 10)]
    } else {
        whole + "."@ + seq![digit_char(f / 100)]
    }
}

/// The control-channel command that seeks to an absolute position.
pub open spec fn seek_command(ms: nat) -> Seq<char> {
    "{ \"command\": [\"seek\", "@ + seconds_text(ms) + ", \"absolute\"] }\n"@
}

/// Builds the volume command line sent over the control channel.
pub fn volume_command_text(volume: u8) -> (cmd: String)
    ensures
        cmd@ == volume_command(volume as nat),
{
    let mut cmd = "{ \"command\": [\"set_property\", \"volume\", ".to_owned();
    let digits = u64_to_string(volume as u64);
    cmd.append(digits.as_str());
    cmd.append("] }\n");
    proof {
        assert(cmd@ =~= volume_command(volume as nat));
    }
    cmd
}

/// Renders a millisecond count as seconds, fraction included when present.
pub fn seconds_string(ms: u64) -> (r: String)
    ensures
        r@ == seconds_text(ms as nat),
{
    let mut r = u64_to_string(ms / 1000);
    let f = ms % 1000;
    if f == 0 {
        proof {
            assert(r@ =~= seconds_text(ms as nat));
        }
        r
    } else {
        r.append(".");
        let d0 = crate::text::digit_string(f / 100);
        r.append(d0.as_str());
        if f % 10 != 0 {
            let d1 = crate::text::digit_string((f / 10) % 10);
            r.append(d1.as_str());
            let d2 = crate::text::digit_string(f % 10);
            r.append(d2.as_str());
            proof {
                assert(r@ =~= seconds_text(ms as nat));
            }
            r
        } else if f % 100 != 0 {
            let d1 = crate::text::digit_string((f / 10) % 10);
            r.append(d1.as_str());
            proof {
                assert(r@ =~= seconds_text(ms as nat));
            }
            r
        } else {
            proof {
                assert(r@ =~= seconds_text(ms as nat));
            }
            r
        }
    }
}

/// Builds the absolute-seek command line sent over the control channel.
pub fn seek_command_text(position_ms: u64) -> (cmd: String)
    ensures
        cmd@ == seek_command(position_ms as nat),
{
    let mut cmd = "{ \"command\": [\"seek\", ".to_owned();
    let secs = seconds_string(position_ms);
    cmd.append(secs.as_str());
    cmd.append(", \"absolute\"] }\n");
    proof {
        assert(cmd@ =~= seek_command(position_ms as nat));
    }
    cmd
}

/// The fixed local rendezvous path of the player's control channel.
pub fn control_socket_path() -> (r: &'static str)
    ensures
        r@ == "/tmp/mpvsocket"@,
{
    "/tmp/mpvsocket"
}

/// The external player binary this session drives.
pub fn player_binary() -> (r: &'static str)
    ensures
        r@ == "mpv"@,
{
    "mpv"
}

/// The fixed argument list the external player is spawned with: video
/// disabled, its own UI and logging suppressed, the control channel enabled
/// at the fixed local path, idle-after-finish mode, then the target file.
pub open spec fn player_args(path: Seq<char>) -> Seq<Seq<char>> {
    seq![
        "--no-video"@,
        "--quiet"@,
        "--no-terminal"@,
        "--input-ipc-server=/tmp/mpvsocket"@,
        "--idle=yes"@,
        path,
    ]
}

/// Builds the argument list the external player is spawned with.
pub fn player_command_args(file_path: &str) -> (r: Vec<String>)
    ensures
        r@.map_values(|s: String| s@) =~= player_args(file_path@),
{
    let mut r: Vec<String> = Vec::new();
    r.push("--no-video".to_owned());
    r.push("--quiet".to_owned());
    r.push("--no-terminal".to_owned());
    r.push("--input-ipc-server=/tmp/mpvsocket".to_owned());
    r.push("--idle=yes".to_owned());
    r.push(file_path.to_owned());
    r
}

} // verus!
