//! The player: its queue and the controls that change it.
use vstd::prelude::*;
use crate::model::{
    ALERT_LIFETIME, Command, DEFAULT_VOLUME, FULL_VOLUME, NANOS_PER_SEC, PlaybackState,
    PlayerModel, RESTART_AFTER_SECS, Tick, UNMUTE_VOLUME, only_song_alert,
};
use crate::song::{SongItem, SongModel};

verus! {

/// The views of a list of songs.
pub open spec fn songs_view(songs: Seq<SongItem>) -> Seq<SongModel> {
    songs.map_values(|s: SongItem| s@)
}

/// The state of the music player. It makes no sound itself: each control
/// returns the `Command` that the audio side carries out, and the controls
/// that start or move a song complete once that side reports back.
pub struct CadenceApp {
    playlist: Vec<SongItem>,
    current_index: Option<usize>,
    state: PlaybackState,
    elapsed: u64,
    total_duration: Option<u64>,
    last_tick: Option<u64>,
    volume: u32,
    muted: bool,
    previous_volume: u32,
    alert_message: Option<String>,
    alert_time: Option<u64>,
    show_playlist: bool,
}

impl View for CadenceApp {
    type V = PlayerModel;

    closed spec fn view(&self) -> PlayerModel {
        PlayerModel {
            playlist: songs_view(self.playlist@),
            current_index: self.current_index,
            state: self.state,
            elapsed: self.elapsed,
            total_duration: self.total_duration,
            last_tick: self.last_tick,
            volume: self.volume,
            muted: self.muted,
            previous_volume: self.previous_volume,
            alert_message: match &self.alert_message {
                Some(m) => Some(m@),
                None => None,
            },
            alert_time: self.alert_time,
            show_playlist: self.show_playlist,
        }
    }
}

impl Default for CadenceApp {
    /// A new player: empty queue, stopped, volume 850, queue shown.
    fn default() -> (app: Self)
        ensures
            app@ == PlayerModel::initial(),
            app@.wf(),
    {
        let app = CadenceApp {
            playlist: Vec::new(),
            current_index: None,
            state: PlaybackState::Stopped,
            elapsed: 0,
            total_duration: None,
            last_tick: None,
            volume: DEFAULT_VOLUME,
            muted: false,
            previous_volume: DEFAULT_VOLUME,
            alert_message: None,
            alert_time: None,
            show_playlist: true,
        };
        assert(app@.playlist =~= Seq::<SongModel>::empty());
        app
    }
}

impl CadenceApp {
    /// Asks to play the song at `index`; an index outside the queue is ignored.
    pub fn play_index(&self, index: usize) -> (cmd: Command)
        ensures
            cmd == self@.play_request(index),
    {
        if index < self.playlist.len() {
            Command::Play { index }
        } else {
            Command::Idle
        }
    }

    /// The song at `index` has started on a new output; `decoded` is the
    /// length in nanoseconds that its decoder reported, and `now` the clock.
    pub fn finish_play_index(&mut self, index: usize, decoded: Option<u64>, now: u64)
        requires
            old(self)@.wf(),
            index < old(self)@.playlist.len(),
        ensures
            final(self)@ == old(self)@.after_play(index, decoded, now),
            final(self)@.wf(),
    {
        let ghost before = self@;
        let known = self.playlist[index].duration;
        let total = match decoded {
            Some(d) => Some(d),
            None => known,
        };
        if known.is_none() && decoded.is_some() {
            let song = &self.playlist[index];
            let updated = SongItem {
                path: song.path.clone(),
                title: song.title.clone(),
                format: song.format.clone(),
                duration: decoded,
            };
            self.playlist.set(index, updated);
        }
        self.current_index = Some(index);
        self.state = PlaybackState::Playing;
        self.elapsed = 0;
        self.total_duration = total;
        self.last_tick = Some(now);
        assert(self@.playlist =~= before.after_play(index, decoded, now).playlist);
    }

    /// "Start": with an empty queue, asks for files; when paused, resumes;
    /// when stopped, plays the current song (the first where there is none).
    pub fn start_playback(&mut self, now: u64) -> (cmd: Command)
        requires
            old(self)@.wf(),
        ensures
            (final(self)@, cmd) == old(self)@.start(now),
            final(self)@.wf(),
    {
        if self.playlist.len() == 0 {
            return Command::OpenUploadDialog;
        }
        match self.state {
            PlaybackState::Playing => Command::Idle,
            PlaybackState::Paused => {
                self.state = PlaybackState::Playing;
                self.last_tick = Some(now);
                Command::ResumeSink
            },
            PlaybackState::Stopped => {
                let index: usize = match self.current_index {
                    Some(i) => i,
                    None => 0,
                };
                self.play_index(index)
            },
        }
    }

    /// "Pause": a playing player pauses and keeps its position.
    pub fn pause_playback(&mut self) -> (cmd: Command)
        requires
            old(self)@.wf(),
        ensures
            (final(self)@, cmd) == old(self)@.pause(),
            final(self)@.wf(),
    {
        if self.state == PlaybackState::Playing {
            self.state = PlaybackState::Paused;
            self.last_tick = None;
            Command::PauseSink
        } else {
            Command::Idle
        }
    }

    /// "Stop": back to the beginning of the song, at rest.
    pub fn stop_playback(&mut self) -> (cmd: Command)
        requires
            old(self)@.wf(),
        ensures
            (final(self)@, cmd) == old(self)@.stop(),
            final(self)@.wf(),
    {
        self.state = PlaybackState::Stopped;
        self.elapsed = 0;
        self.last_tick = None;
        Command::StopSink
    }

    /// The index after the current one, wrapping round.
    fn next_index(&self) -> (next: usize)
        requires
            self.playlist.len() > 0,
        ensures
            next == self@.next_index(),
            next < self.playlist.len(),
    {
        let len: usize = self.playlist.len();
        let current: usize = match self.current_index {
            Some(i) => i,
            None => 0,
        };
        let next: usize = (current % len + 1) % len;
        proof {
            vstd::arithmetic::div_mod::lemma_add_mod_noop(current as int, 1, len as int);
            if len > 1 {
                vstd::arithmetic::div_mod::lemma_small_mod(1, len as nat);
            }
        }
        next
    }

    /// "Next": with more than one song, clears the alert and asks for the next
    /// song, wrapping round; otherwise raises the alert "This is the only song
    /// you have, upload more songs" at time `now` and changes nothing else.
    pub fn next_track(&mut self, now: u64) -> (cmd: Command)
        requires
            old(self)@.wf(),
        ensures
            (final(self)@, cmd) == old(self)@.next(now),
            final(self)@.wf(),
    {
        if self.playlist.len() > 1 {
            self.alert_message = None;
            let next: usize = self.next_index();
            self.play_index(next)
        } else {
            self.alert_message = Some(
                String::from_str("This is the only song you have, upload more songs"),
            );
            self.alert_time = Some(now);
            Command::Idle
        }
    }

    /// Asks to move within the current song to `target` nanoseconds.
    pub fn seek_to(&self, target: u64) -> (cmd: Command)
        ensures
            cmd == self@.seek_request(target),
    {
        match self.current_index {
            Some(i) => if i < self.playlist.len() {
                Command::Seek { index: i, target, paused: self.state != PlaybackState::Playing }
            } else {
                Command::Idle
            },
            None => Command::Idle,
        }
    }

    /// The seek to `target` took effect on a new output at time `now`.
    pub fn finish_seek(&mut self, target: u64, now: u64)
        requires
            old(self)@.wf(),
        ensures
            final(self)@ == old(self)@.after_seek(target, now),
            final(self)@.wf(),
    {
        if self.state == PlaybackState::Playing {
            self.last_tick = Some(now);
        }
        self.elapsed = target;
    }

    /// "Previous": with more than one song, restarts the current one once
    /// more than three whole seconds have played, else asks for the one before
    /// it, wrapping round; with one song or none, restarts.
    pub fn prev_track(&self) -> (cmd: Command)
        requires
            self@.wf(),
        ensures
            cmd == self@.prev_request(),
    {
        let len: usize = self.playlist.len();
        if len > 1 {
            if self.elapsed / NANOS_PER_SEC > RESTART_AFTER_SECS {
                self.seek_to(0)
            } else {
                let current: usize = match self.current_index {
                    Some(i) => i,
                    None => 0,
                };
                let prev: usize = if current == 0 {
                    len - 1
                } else {
                    current - 1
                };
                self.play_index(prev)
            }
        } else {
            self.seek_to(0)
        }
    }

    /// Adds picked files at the end of the queue. With more than one song the
    /// alert goes; if the queue was empty or nothing was current, asks for the
    /// first new song.
    pub fn upload_songs(&mut self, items: Vec<SongItem>) -> (cmd: Command)
        requires
            old(self)@.wf(),
        ensures
            (final(self)@, cmd) == old(self)@.upload(songs_view(items@)),
            final(self)@.wf(),
    {
        let ghost before = self@;
        if items.len() == 0 {
            return Command::Idle;
        }
        let was_empty = self.playlist.len() == 0;
        let start: usize = self.playlist.len();
        let mut items = items;
        let ghost added = items@;
        self.playlist.append(&mut items);
        assert(self@.playlist =~= before.playlist + songs_view(added));
        if self.playlist.len() > 1 {
            self.alert_message = None;
        }
        if was_empty || self.current_index.is_none() {
            self.play_index(start)
        } else {
            Command::Idle
        }
    }

    /// Appends a song at the end of the queue, starting nothing.
    pub fn push_song(&mut self, item: SongItem)
        requires
            old(self)@.wf(),
        ensures
            final(self)@ == (PlayerModel { playlist: old(self)@.playlist.push(item@), ..old(self)@ }),
            final(self)@.wf(),
    {
        let ghost before = self@;
        self.playlist.push(item);
        assert(self.playlist@.len() == self.playlist.len());
        assert(self@.playlist =~= before.playlist.push(item@));
    }

    /// Removes the song at `index`; see `PlayerModel::remove`.
    pub fn remove_song(&mut self, index: usize) -> (cmd: Command)
        requires
            old(self)@.wf(),
        ensures
            (final(self)@, cmd) == old(self)@.remove(index),
            final(self)@.wf(),
    {
        let ghost before = self@;
        if index >= self.playlist.len() {
            return Command::Idle;
        }
        let is_current = match self.current_index {
            Some(c) => c == index,
            None => false,
        };
        self.playlist.remove(index);
        assert(self@.playlist =~= before.playlist.remove(index as int));
        if self.playlist.len() == 0 {
            self.current_index = None;
            self.state = PlaybackState::Stopped;
            self.elapsed = 0;
            self.last_tick = None;
            self.total_duration = None;
            Command::StopSink
        } else if is_current {
            let last: usize = self.playlist.len() - 1;
            let target: usize = if index < self.playlist.len() {
                index
            } else {
                last
            };
            self.play_index(target)
        } else {
            match self.current_index {
                Some(c) => {
                    if c > index {
                        self.current_index = Some(c - 1);
                    }
                },
                None => {},
            }
            Command::Idle
        }
    }

    /// "Clear": stops, empties the queue and forgets the current song.
    pub fn clear_playlist(&mut self) -> (cmd: Command)
        requires
            old(self)@.wf(),
        ensures
            (final(self)@, cmd) == old(self)@.clear(),
            final(self)@.wf(),
    {
        let cmd = self.stop_playback();
        self.playlist.clear();
        self.current_index = None;
        self.total_duration = None;
        assert(self@.playlist =~= Seq::<SongModel>::empty());
        cmd
    }

    /// Moves the volume to `level` thousandths, capped at full; a volume above
    /// zero unmutes.
    pub fn set_volume(&mut self, level: u32) -> (cmd: Command)
        requires
            old(self)@.wf(),
        ensures
            (final(self)@, cmd) == old(self)@.set_volume(level),
            final(self)@.wf(),
    {
        self.volume = if level <= FULL_VOLUME {
            level
        } else {
            FULL_VOLUME
        };
        if self.muted && self.volume > 0 {
            self.muted = false;
        }
        Command::SetSinkVolume { level: self.effective_volume() }
    }

    /// The mute button: muting saves the volume and silences the output;
    /// unmuting restores the saved volume, or 800 if it was zero.
    pub fn toggle_mute(&mut self) -> (cmd: Command)
        requires
            old(self)@.wf(),
        ensures
            (final(self)@, cmd) == old(self)@.toggle_mute(),
            final(self)@.wf(),
    {
        self.muted = !self.muted;
        if self.muted {
            self.previous_volume = self.volume;
            Command::SetSinkVolume { level: 0 }
        } else {
            let volume: u32 = if self.previous_volume > 0 {
                self.previous_volume
            } else {
                UNMUTE_VOLUME
            };
            self.volume = volume;
            Command::SetSinkVolume { level: volume }
        }
    }

    /// One frame at time `now`; `output_drained` tells whether an output
    /// exists and has nothing left to play. While playing, the song's clock
    /// moves by the time since the last frame and a finished song is followed
    /// by the next one (or a stop); an alert older than seven seconds goes.
    pub fn update(&mut self, now: u64, output_drained: bool) -> (tick: Tick)
        requires
            old(self)@.wf(),
        ensures
            (final(self)@, tick) == old(self)@.tick(now, output_drained),
            final(self)@.wf(),
    {
        let mut tick = Tick { advanced: 0, command: Command::Idle };
        if self.state == PlaybackState::Playing {
            match self.last_tick {
                Some(last) => {
                    let dt: u64 = if now >= last {
                        now - last
                    } else {
                        0
                    };
                    self.elapsed = self.elapsed.saturating_add(dt);
                    tick.advanced = dt;
                    let ended = match self.total_duration {
                        Some(total) => self.elapsed >= total,
                        None => output_drained,
                    };
                    if ended {
                        tick.command = if self.playlist.len() > 1 {
                            let next: usize = self.next_index();
                            self.play_index(next)
                        } else {
                            self.stop_playback()
                        };
                    }
                },
                None => {},
            }
            self.last_tick = Some(now);
        }
        match self.alert_time {
            Some(t) => {
                let age: u64 = if now >= t {
                    now - t
                } else {
                    0
                };
                if age > ALERT_LIFETIME {
                    self.alert_message = None;
                    self.alert_time = None;
                }
            },
            None => {},
        }
        tick
    }

    /// The alert's close button.
    pub fn dismiss_alert(&mut self)
        requires
            old(self)@.wf(),
        ensures
            final(self)@ == (PlayerModel { alert_message: None, ..old(self)@ }),
            final(self)@.wf(),
    {
        self.alert_message = None;
    }

    /// The queue button: shows or hides the queue.
    pub fn toggle_playlist(&mut self)
        requires
            old(self)@.wf(),
        ensures
            final(self)@ == (PlayerModel { show_playlist: !old(self)@.show_playlist, ..old(self)@ }),
            final(self)@.wf(),
    {
        self.show_playlist = !self.show_playlist;
    }

    /// The volume the output plays at: none while muted.
    pub fn effective_volume(&self) -> (level: u32)
        ensures
            level == self@.effective_volume(),
    {
        if self.muted {
            0
        } else {
            self.volume
        }
    }

    /// The number of songs in the queue.
    pub fn playlist_len(&self) -> (len: usize)
        ensures
            len == self@.playlist.len(),
    {
        self.playlist.len()
    }

    /// The song at `index`.
    pub fn song(&self, index: usize) -> (song: &SongItem)
        requires
            index < self@.playlist.len(),
        ensures
            song@ == self@.playlist[index as int],
    {
        &self.playlist[index]
    }

    /// The current song, where the current index is inside the queue.
    pub fn current_song(&self) -> (song: Option<&SongItem>)
        ensures
            match song {
                Some(s) => self@.current_index matches Some(i) && i < self@.playlist.len()
                    && s@ == self@.playlist[i as int],
                None => !(self@.current_index matches Some(i) && i < self@.playlist.len()),
            },
    {
        match self.current_index {
            Some(i) => if i < self.playlist.len() {
                Some(&self.playlist[i])
            } else {
                None
            },
            None => None,
        }
    }

    /// The index of the current song, if any.
    pub fn current_index(&self) -> (index: Option<usize>)
        ensures
            index == self@.current_index,
    {
        self.current_index
    }

    /// Playing, paused or stopped.
    pub fn state(&self) -> (state: PlaybackState)
        ensures
            state == self@.state,
    {
        self.state
    }

    /// The position in the current song, in nanoseconds.
    pub fn elapsed(&self) -> (elapsed: u64)
        ensures
            elapsed == self@.elapsed,
    {
        self.elapsed
    }

    /// The length of the current song in nanoseconds, where known.
    pub fn total_duration(&self) -> (total: Option<u64>)
        ensures
            total == self@.total_duration,
    {
        self.total_duration
    }

    /// The volume level, in thousandths of full volume.
    pub fn volume(&self) -> (level: u32)
        ensures
            level == self@.volume,
    {
        self.volume
    }

    /// Whether the player is muted.
    pub fn is_muted(&self) -> (muted: bool)
        ensures
            muted == self@.muted,
    {
        self.muted
    }

    /// Whether the queue is shown.
    pub fn show_playlist(&self) -> (shown: bool)
        ensures
            shown == self@.show_playlist,
    {
        self.show_playlist
    }

    /// The alert on display, if any.
    pub fn alert_message(&self) -> (message: Option<&str>)
        ensures
            match message {
                Some(m) => self@.alert_message == Some(m@),
                None => self@.alert_message is None,
            },
    {
        match &self.alert_message {
            Some(m) => Some(m.as_str()),
            None => None,
        }
    }
}

} // verus!
