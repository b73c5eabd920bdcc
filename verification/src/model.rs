//! The player's state as a mathematical value, and how each control changes it.
use vstd::prelude::*;
use crate::song::SongModel;

verus! {

/// Nanoseconds in one second.
pub const NANOS_PER_SEC: u64 = 1_000_000_000;

/// The loudest volume level; levels count thousandths of full volume.
pub const FULL_VOLUME: u32 = 1000;

/// The volume a new player starts with.
pub const DEFAULT_VOLUME: u32 = 850;

/// The volume restored on unmute when the level saved at mute time was zero.
pub const UNMUTE_VOLUME: u32 = 800;

/// "Previous" restarts the current song once more than this many whole
/// seconds of it have played.
pub const RESTART_AFTER_SECS: u64 = 3;

/// How long the alert stays up before it dismisses itself, in nanoseconds.
pub const ALERT_LIFETIME: u64 = 7_000_000_000;

/// Whether the player is producing sound, holding its position, or at rest.
#[derive(Clone, Copy, Debug, PartialEq, Eq, Structural)]
pub enum PlaybackState {
    Playing,
    Paused,
    Stopped,
}

/// What the audio side has to do after a control changed the player.
#[derive(Clone, Copy, Debug, PartialEq, Eq, Structural)]
pub enum Command {
    /// Nothing.
    Idle,
    /// Ask the user for audio files and hand them to `upload_songs`.
    OpenUploadDialog,
    /// Decode the song at `index` into a new output, replace the old output
    /// with it, and report back through `finish_play_index`.
    Play { index: usize },
    /// Decode the song at `index` from `target` nanoseconds on into a new
    /// output, paused if `paused`, replace the old output with it, and report
    /// back through `finish_seek`.
    Seek { index: usize, target: u64, paused: bool },
    /// Resume the current output.
    ResumeSink,
    /// Pause the current output.
    PauseSink,
    /// Stop and drop the current output.
    StopSink,
    /// Set the volume of the current output to `level` thousandths.
    SetSinkVolume { level: u32 },
}

/// What one frame's tick did: how far the clock of the current song moved,
/// and what the audio side has to do.
#[derive(Clone, Copy, Debug, PartialEq, Eq, Structural)]
pub struct Tick {
    pub advanced: u64,
    pub command: Command,
}

/// The text of the alert raised by "next" when there is no other song.
pub open spec fn only_song_alert() -> Seq<char> {
    "This is the only song you have, upload more songs"@
}

/// `a - b`, or zero where `b` is later than `a`.
pub open spec fn elapsed_between(a: u64, b: u64) -> u64 {
    if a >= b {
        (a - b) as u64
    } else {
        0
    }
}

/// `a + b`, or the largest `u64` where the sum does not fit.
pub open spec fn add_capped(a: u64, b: u64) -> u64 {
    if a + b <= u64::MAX {
        (a + b) as u64
    } else {
        u64::MAX
    }
}

/// The whole state of the player. Times are in nanoseconds; `last_tick` and
/// `alert_time` are readings of the caller's monotonic clock.
pub struct PlayerModel {
    pub playlist: Seq<SongModel>,
    pub current_index: Option<usize>,
    pub state: PlaybackState,
    pub elapsed: u64,
    pub total_duration: Option<u64>,
    pub last_tick: Option<u64>,
    pub volume: u32,
    pub muted: bool,
    pub previous_volume: u32,
    pub alert_message: Option<Seq<char>>,
    pub alert_time: Option<u64>,
    pub show_playlist: bool,
}

impl PlayerModel {
    /// A new player: empty queue, stopped, volume 850, queue shown.
    pub open spec fn initial() -> PlayerModel {
        PlayerModel {
            playlist: Seq::empty(),
            current_index: None,
            state: PlaybackState::Stopped,
            elapsed: 0,
            total_duration: None,
            last_tick: None,
            volume: DEFAULT_VOLUME,
            muted: false,
            previous_volume: DEFAULT_VOLUME,
            alert_message: None,
            alert_time: None,
            show_playlist: true,
        }
    }

    /// What every reachable state satisfies. The current index may stand one
    /// past the end: removing the current song at the end of the queue leaves
    /// it there until the next song starts. A playing player has a frame time
    /// to count from, and a player that is not stopped has a current song.
    pub open spec fn wf(self) -> bool {
        &&& self.playlist.len() <= usize::MAX
        &&& (self.current_index matches Some(i) ==> i <= self.playlist.len())
        &&& self.volume <= FULL_VOLUME
        &&& self.previous_volume <= FULL_VOLUME
        &&& (self.alert_message matches Some(m) ==> m == only_song_alert())
        &&& (self.state == PlaybackState::Playing ==> self.last_tick is Some)
        &&& (self.state != PlaybackState::Stopped ==> self.current_index is Some)
    }

    /// The current index, or 0 when there is none.
    pub open spec fn current_or_first(self) -> usize {
        match self.current_index {
            Some(i) => i,
            None => 0,
        }
    }

    /// The song after the current one, wrapping round to the first.
    pub open spec fn next_index(self) -> usize {
        ((self.current_or_first() + 1) % (self.playlist.len() as int)) as usize
    }

    /// The song before the current one, wrapping round to the last.
    pub open spec fn prev_index(self) -> usize {
        if self.current_or_first() == 0 {
            (self.playlist.len() - 1) as usize
        } else {
            (self.current_or_first() - 1) as usize
        }
    }

    /// The volume the output plays at: none while muted.
    pub open spec fn effective_volume(self) -> u32 {
        if self.muted {
            0
        } else {
            self.volume
        }
    }

    /// Asking to play the song at `index`: only an index inside the queue is acted on.
    pub open spec fn play_request(self, index: usize) -> Command {
        if index < self.playlist.len() {
            Command::Play { index }
        } else {
            Command::Idle
        }
    }

    /// The song at `index` started: `decoded` is the length its decoder
    /// reported, where it could. The song becomes current and playing from its
    /// start; the length known for it is the decoded one, else the one the
    /// queue held, and the queue keeps a decoded length where it had none.
    pub open spec fn after_play(self, index: usize, decoded: Option<u64>, now: u64) -> PlayerModel {
        let song = self.playlist[index as int];
        let total = match decoded {
            Some(d) => Some(d),
            None => song.duration,
        };
        let cached = match song.duration {
            Some(d) => Some(d),
            None => decoded,
        };
        PlayerModel {
            playlist: self.playlist.update(index as int, SongModel { duration: cached, ..song }),
            current_index: Some(index),
            state: PlaybackState::Playing,
            elapsed: 0,
            total_duration: total,
            last_tick: Some(now),
            ..self
        }
    }

    /// "Start": with an empty queue, ask for files; when paused, resume; when
    /// stopped, play the current song (the first where there is none).
    pub open spec fn start(self, now: u64) -> (PlayerModel, Command) {
        if self.playlist.len() == 0 {
            (self, Command::OpenUploadDialog)
        } else {
            match self.state {
                PlaybackState::Playing => (self, Command::Idle),
                PlaybackState::Paused => (
                    PlayerModel { state: PlaybackState::Playing, last_tick: Some(now), ..self },
                    Command::ResumeSink,
                ),
                PlaybackState::Stopped => (self, self.play_request(self.current_or_first())),
            }
        }
    }

    /// "Pause": only a playing player pauses; its position is kept.
    pub open spec fn pause(self) -> (PlayerModel, Command) {
        if self.state == PlaybackState::Playing {
            (PlayerModel { state: PlaybackState::Paused, last_tick: None, ..self }, Command::PauseSink)
        } else {
            (self, Command::Idle)
        }
    }

    /// "Stop": back to the beginning of the song, at rest.
    pub open spec fn stop(self) -> (PlayerModel, Command) {
        (
            PlayerModel { state: PlaybackState::Stopped, elapsed: 0, last_tick: None, ..self },
            Command::StopSink,
        )
    }

    /// "Next": with more than one song, clear the alert and play the next one;
    /// otherwise raise the alert and change nothing else.
    pub open spec fn next(self, now: u64) -> (PlayerModel, Command) {
        if self.playlist.len() > 1 {
            (PlayerModel { alert_message: None, ..self }, self.play_request(self.next_index()))
        } else {
            (
                PlayerModel { alert_message: Some(only_song_alert()), alert_time: Some(now), ..self },
                Command::Idle,
            )
        }
    }

    /// Asking to move within the current song to `target`: only a current
    /// song inside the queue is acted on; a player that is not playing stays
    /// silent.
    pub open spec fn seek_request(self, target: u64) -> Command {
        match self.current_index {
            Some(i) => if i < self.playlist.len() {
                Command::Seek { index: i, target, paused: self.state != PlaybackState::Playing }
            } else {
                Command::Idle
            },
            None => Command::Idle,
        }
    }

    /// The seek took effect: the position is `target`, and a playing player
    /// counts time from `now`.
    pub open spec fn after_seek(self, target: u64, now: u64) -> PlayerModel {
        PlayerModel {
            elapsed: target,
            last_tick: if self.state == PlaybackState::Playing {
                Some(now)
            } else {
                self.last_tick
            },
            ..self
        }
    }

    /// "Previous": with more than one song, restart the current one once more
    /// than three whole seconds have played, else go to the one before it;
    /// with one song or none, restart.
    pub open spec fn prev_request(self) -> Command {
        if self.playlist.len() > 1 {
            if self.elapsed / NANOS_PER_SEC > RESTART_AFTER_SECS {
                self.seek_request(0)
            } else {
                self.play_request(self.prev_index())
            }
        } else {
            self.seek_request(0)
        }
    }

    /// Files were picked: they join the end of the queue; with more than one
    /// song the alert goes; if the queue was empty or nothing was current, the
    /// first new song plays.
    pub open spec fn upload(self, items: Seq<SongModel>) -> (PlayerModel, Command) {
        if items.len() == 0 {
            (self, Command::Idle)
        } else {
            let playlist = self.playlist + items;
            let next = PlayerModel {
                playlist,
                alert_message: if playlist.len() > 1 {
                    None
                } else {
                    self.alert_message
                },
                ..self
            };
            let cmd = if self.playlist.len() == 0 || self.current_index is None {
                next.play_request(self.playlist.len() as usize)
            } else {
                Command::Idle
            };
            (next, cmd)
        }
    }

    /// Removing the song at `index`: the queue shrinks; if it becomes empty
    /// the player stops and forgets the current song; if the current song was
    /// removed the one now at its place (or the last) plays; otherwise the
    /// current index follows its song.
    pub open spec fn remove(self, index: usize) -> (PlayerModel, Command) {
        if index >= self.playlist.len() {
            (self, Command::Idle)
        } else {
            let playlist = self.playlist.remove(index as int);
            let shrunk = PlayerModel { playlist, ..self };
            if playlist.len() == 0 {
                let stopped = shrunk.stop().0;
                (PlayerModel { current_index: None, total_duration: None, ..stopped }, Command::StopSink)
            } else if self.current_index == Some(index) {
                let target: usize = if index < playlist.len() {
                    index
                } else {
                    (playlist.len() - 1) as usize
                };
                (shrunk, shrunk.play_request(target))
            } else {
                let current = match self.current_index {
                    Some(c) => if c > index {
                        Some((c - 1) as usize)
                    } else {
                        Some(c)
                    },
                    None => None,
                };
                (PlayerModel { current_index: current, ..shrunk }, Command::Idle)
            }
        }
    }

    /// "Clear": stop, empty the queue, forget the current song.
    pub open spec fn clear(self) -> (PlayerModel, Command) {
        let stopped = self.stop().0;
        (
            PlayerModel {
                playlist: Seq::empty(),
                current_index: None,
                total_duration: None,
                ..stopped
            },
            Command::StopSink,
        )
    }

    /// Moving the volume slider to `level`: the volume is `level` capped at
    /// full; a volume above zero unmutes; the output follows.
    pub open spec fn set_volume(self, level: u32) -> (PlayerModel, Command) {
        let volume: u32 = if level <= FULL_VOLUME {
            level
        } else {
            FULL_VOLUME
        };
        let muted = self.muted && volume == 0;
        let next = PlayerModel { volume, muted, ..self };
        (next, Command::SetSinkVolume { level: next.effective_volume() })
    }

    /// The mute button: muting saves the volume and silences the output;
    /// unmuting restores the saved volume, or 800 if it was zero.
    pub open spec fn toggle_mute(self) -> (PlayerModel, Command) {
        if !self.muted {
            (
                PlayerModel { muted: true, previous_volume: self.volume, ..self },
                Command::SetSinkVolume { level: 0 },
            )
        } else {
            let volume: u32 = if self.previous_volume > 0 {
                self.previous_volume
            } else {
                UNMUTE_VOLUME
            };
            (PlayerModel { muted: false, volume, ..self }, Command::SetSinkVolume { level: volume })
        }
    }

    /// The current song ran out: with more than one song the next one plays,
    /// otherwise the player stops.
    pub open spec fn song_ended(self) -> (PlayerModel, Command) {
        if self.playlist.len() > 1 {
            (self, self.play_request(self.next_index()))
        } else {
            self.stop()
        }
    }

    /// The playing part of a frame at time `now`: the song's clock moves by
    /// the time since the last frame; a song that reached its known length, or
    /// whose output ran dry when its length is unknown, has ended; the frame
    /// time is remembered.
    pub open spec fn advance(self, now: u64, output_drained: bool) -> (PlayerModel, Tick) {
        if self.state != PlaybackState::Playing {
            (self, Tick { advanced: 0, command: Command::Idle })
        } else {
            let (moved, tick) = match self.last_tick {
                Some(last) => {
                    let dt: u64 = elapsed_between(now, last);
                    let counted = PlayerModel { elapsed: add_capped(self.elapsed, dt), ..self };
                    let ended = match self.total_duration {
                        Some(total) => counted.elapsed >= total,
                        None => output_drained,
                    };
                    if ended {
                        let (after, cmd) = counted.song_ended();
                        (after, Tick { advanced: dt, command: cmd })
                    } else {
                        (counted, Tick { advanced: dt, command: Command::Idle })
                    }
                },
                None => (self, Tick { advanced: 0, command: Command::Idle }),
            };
            (PlayerModel { last_tick: Some(now), ..moved }, tick)
        }
    }

    /// The alert part of a frame at time `now`: an alert raised more than
    /// seven seconds ago goes away.
    pub open spec fn expire_alert(self, now: u64) -> PlayerModel {
        match self.alert_time {
            Some(t) => if elapsed_between(now, t) > ALERT_LIFETIME {
                PlayerModel { alert_message: None, alert_time: None, ..self }
            } else {
                self
            },
            None => self,
        }
    }

    /// One frame at time `now`: playback time, then the alert.
    pub open spec fn tick(self, now: u64, output_drained: bool) -> (PlayerModel, Tick) {
        let (moved, tick) = self.advance(now, output_drained);
        (moved.expire_alert(now), tick)
    }
}

} // verus!
