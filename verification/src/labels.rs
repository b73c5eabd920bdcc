//! The text of the player's labels, computed from its state.
use vstd::prelude::*;
use crate::model::{NANOS_PER_SEC, PlaybackState, PlayerModel};
use crate::player::CadenceApp;
use crate::song::{SongItem, SongModel, unknown_format};
use crate::text::{clock_text, decimal, format_time, push_decimal};

verus! {

/// The volume level below which the speaker shows one wave.
pub const QUIET_VOLUME: u32 = 500;

impl PlayerModel {
    /// The current song, where the current index is inside the queue.
    pub open spec fn current_song(self) -> Option<SongModel> {
        match self.current_index {
            Some(i) => if i < self.playlist.len() {
                Some(self.playlist[i as int])
            } else {
                None
            },
            None => None,
        }
    }

    /// The position shown on the progress bar: never past a known, non-zero length.
    pub open spec fn shown_elapsed(self) -> u64 {
        match self.total_duration {
            Some(t) => if t > 0 && t < self.elapsed {
                t
            } else {
                self.elapsed
            },
            None => self.elapsed,
        }
    }

    /// The title line: the current song's title, or "No Song Loaded".
    pub open spec fn title_text(self) -> Seq<char> {
        match self.current_song() {
            Some(song) => song.title,
            None => "No Song Loaded"@,
        }
    }

    /// The line under the title: "Track i of n • FORMAT" for a current index
    /// (the format "AUDIO" where the index is past the queue), else an invitation.
    pub open spec fn subtitle_text(self) -> Seq<char> {
        match self.current_index {
            Some(i) => {
                let format = match self.current_song() {
                    Some(song) => song.format,
                    None => unknown_format(),
                };
                "Track "@ + decimal((i + 1) as nat) + " of "@ + decimal(self.playlist.len()) + " • "@ + format
            },
            None => "Select or upload audio files to start"@,
        }
    }

    /// The status badge.
    pub open spec fn badge_text(self) -> Seq<char> {
        match self.state {
            PlaybackState::Playing => "● Playing"@,
            PlaybackState::Paused => "❚❚ Paused"@,
            PlaybackState::Stopped => "■ Stopped"@,
        }
    }

    /// The queue button: "Queue (n)".
    pub open spec fn queue_button_text(self) -> Seq<char> {
        "Queue ("@ + decimal(self.playlist.len()) + ")"@
    }

    /// The count beside the queue heading: "(n songs)".
    pub open spec fn queue_count_text(self) -> Seq<char> {
        "("@ + decimal(self.playlist.len()) + " songs)"@
    }

    /// The time played, as `mm:ss`.
    pub open spec fn elapsed_text(self) -> Seq<char> {
        clock_text((self.shown_elapsed() / NANOS_PER_SEC) as nat)
    }

    /// The length of the song as `mm:ss`; "--:--" when it is unknown (or
    /// zero) and time has passed, "00:00" before.
    pub open spec fn total_text(self) -> Seq<char> {
        match self.total_duration {
            Some(t) if t > 0 => clock_text((t / NANOS_PER_SEC) as nat),
            _ => if self.shown_elapsed() > 0 {
                "--:--"@
            } else {
                "00:00"@
            },
        }
    }

    /// The marker in front of queue row `index`: a play sign on the song that
    /// is playing, its number from 1 on the others.
    pub open spec fn row_marker(self, index: usize) -> Seq<char> {
        if self.current_index == Some(index) && self.state == PlaybackState::Playing {
            "▶"@
        } else {
            decimal((index + 1) as nat) + "."@
        }
    }

    /// The speaker button: crossed out when silent, one wave below half volume.
    pub open spec fn speaker_icon(self) -> Seq<char> {
        if self.muted || self.volume == 0 {
            "🔇"@
        } else if self.volume < QUIET_VOLUME {
            "🔉"@
        } else {
            "🔊"@
        }
    }

    /// The volume in percent, rounded to the nearest: 0 while muted.
    pub open spec fn volume_percent(self) -> nat {
        if self.muted {
            0
        } else {
            ((self.volume + 5) / 10) as nat
        }
    }

    /// The volume label: "p%".
    pub open spec fn volume_text(self) -> Seq<char> {
        decimal(self.volume_percent()) + "%"@
    }
}

/// The position shown is the position, held back to a known non-zero length:
/// it never exceeds either, and it is one of them.
pub proof fn shown_position_is_capped(s: PlayerModel)
    ensures
        s.shown_elapsed() <= s.elapsed,
        (s.total_duration matches Some(t) && t > 0) ==> s.shown_elapsed() <= s.total_duration.unwrap(),
        s.shown_elapsed() == s.elapsed || (s.total_duration matches Some(t) && t > 0 && s.shown_elapsed() == t
            && t < s.elapsed),
{
}

/// The volume in percent is 0 while muted, and otherwise the nearest whole
/// percent, halves rounded up: `10·p - 5 <= level < 10·p + 5`.
pub proof fn volume_percent_is_nearest(s: PlayerModel)
    requires
        s.wf(),
    ensures
        s.muted ==> s.volume_percent() == 0,
        !s.muted ==> s.volume_percent() * 10 <= s.volume + 5 < s.volume_percent() * 10 + 10,
        s.volume_percent() <= 100,
{
}

/// What the labels say, case by case.
pub proof fn labels_say_what_the_player_does(s: PlayerModel, index: usize)
    ensures
        (s.current_index matches Some(i) && i < s.playlist.len()) ==> s.title_text()
            == s.playlist[s.current_index.unwrap() as int].title,
        !(s.current_index matches Some(i) && i < s.playlist.len()) ==> s.title_text() == "No Song Loaded"@,
        (s.current_index matches Some(i) && i < s.playlist.len()) ==> s.subtitle_text() == "Track "@
            + decimal((s.current_index.unwrap() + 1) as nat) + " of "@ + decimal(s.playlist.len()) + " • "@
            + s.playlist[s.current_index.unwrap() as int].format,
        s.current_index is None ==> s.subtitle_text() == "Select or upload audio files to start"@,
        s.state == PlaybackState::Playing ==> s.badge_text() == "● Playing"@,
        s.state == PlaybackState::Paused ==> s.badge_text() == "❚❚ Paused"@,
        s.state == PlaybackState::Stopped ==> s.badge_text() == "■ Stopped"@,
        s.queue_button_text() == "Queue ("@ + decimal(s.playlist.len()) + ")"@,
        s.queue_count_text() == "("@ + decimal(s.playlist.len()) + " songs)"@,
        s.elapsed_text() == clock_text((s.shown_elapsed() / 1_000_000_000) as nat),
        (s.total_duration matches Some(t) && t > 0) ==> s.total_text() == clock_text(
            (s.total_duration.unwrap() / 1_000_000_000) as nat,
        ),
        !(s.total_duration matches Some(t) && t > 0) && s.elapsed > 0 ==> s.total_text() == "--:--"@,
        !(s.total_duration matches Some(t) && t > 0) && s.elapsed == 0 ==> s.total_text() == "00:00"@,
        (s.current_index == Some(index) && s.state == PlaybackState::Playing) ==> s.row_marker(index) == "▶"@,
        !(s.current_index == Some(index) && s.state == PlaybackState::Playing) ==> s.row_marker(index)
            == decimal((index + 1) as nat) + "."@,
        (s.muted || s.volume == 0) ==> s.speaker_icon() == "🔇"@,
        (!s.muted && 0 < s.volume < 500) ==> s.speaker_icon() == "🔉"@,
        (!s.muted && s.volume >= 500) ==> s.speaker_icon() == "🔊"@,
        s.volume_text() == decimal(s.volume_percent()) + "%"@,
{
}

/// The length label of a queue row: the song's length as `mm:ss`, where known.
pub open spec fn duration_text(song: SongModel) -> Option<Seq<char>> {
    match song.duration {
        Some(d) => Some(clock_text((d / NANOS_PER_SEC) as nat)),
        None => None,
    }
}

/// The length label of a queue row: the song's length as `mm:ss`, where known.
pub fn duration_label(song: &SongItem) -> (text: Option<String>)
    ensures
        match text {
            Some(t) => duration_text(song@) == Some(t@),
            None => duration_text(song@) is None,
        },
{
    match song.duration {
        Some(d) => Some(format_time(d / NANOS_PER_SEC)),
        None => None,
    }
}

impl CadenceApp {
    /// The position shown on the progress bar, in nanoseconds.
    pub fn shown_elapsed(&self) -> (shown: u64)
        ensures
            shown == self@.shown_elapsed(),
    {
        let elapsed: u64 = self.elapsed();
        match self.total_duration() {
            Some(t) => if t > 0 && t < elapsed {
                t
            } else {
                elapsed
            },
            None => elapsed,
        }
    }

    /// The title line.
    pub fn title_text(&self) -> (text: String)
        ensures
            text@ == self@.title_text(),
    {
        match self.current_song() {
            Some(song) => song.title.clone(),
            None => String::from_str("No Song Loaded"),
        }
    }

    /// The line under the title.
    pub fn subtitle_text(&self) -> (text: String)
        requires
            self@.wf(),
        ensures
            text@ == self@.subtitle_text(),
    {
        match self.current_index() {
            Some(i) => {
                let mut text = String::from_str("Track ");
                push_decimal(&mut text, (i as u128) + 1);
                text.append(" of ");
                push_decimal(&mut text, self.playlist_len() as u128);
                text.append(" • ");
                match self.current_song() {
                    Some(song) => text.append(song.format.as_str()),
                    None => text.append("AUDIO"),
                }
                assert(text@ =~= self@.subtitle_text());
                text
            },
            None => String::from_str("Select or upload audio files to start"),
        }
    }

    /// The status badge.
    pub fn badge_text(&self) -> (text: String)
        ensures
            text@ == self@.badge_text(),
    {
        match self.state() {
            PlaybackState::Playing => String::from_str("● Playing"),
            PlaybackState::Paused => String::from_str("❚❚ Paused"),
            PlaybackState::Stopped => String::from_str("■ Stopped"),
        }
    }

    /// The queue button: "Queue (n)".
    pub fn queue_button_text(&self) -> (text: String)
        ensures
            text@ == self@.queue_button_text(),
    {
        let mut text = String::from_str("Queue (");
        push_decimal(&mut text, self.playlist_len() as u128);
        text.append(")");
        text
    }

    /// The count beside the queue heading: "(n songs)".
    pub fn queue_count_text(&self) -> (text: String)
        ensures
            text@ == self@.queue_count_text(),
    {
        let mut text = String::from_str("(");
        push_decimal(&mut text, self.playlist_len() as u128);
        text.append(" songs)");
        text
    }

    /// The time played, as `mm:ss`.
    pub fn elapsed_text(&self) -> (text: String)
        ensures
            text@ == self@.elapsed_text(),
    {
        format_time(self.shown_elapsed() / NANOS_PER_SEC)
    }

    /// The length of the song as `mm:ss`, or "--:--", or "00:00".
    pub fn total_text(&self) -> (text: String)
        ensures
            text@ == self@.total_text(),
    {
        match self.total_duration() {
            Some(t) => if t > 0 {
                return format_time(t / NANOS_PER_SEC);
            },
            None => {},
        }
        if self.shown_elapsed() > 0 {
            String::from_str("--:--")
        } else {
            String::from_str("00:00")
        }
    }

    /// The marker in front of queue row `index`.
    pub fn row_marker(&self, index: usize) -> (text: String)
        ensures
            text@ == self@.row_marker(index),
    {
        if self.current_index() == Some(index) && self.state() == PlaybackState::Playing {
            String::from_str("▶")
        } else {
            let mut text = String::new();
            push_decimal(&mut text, (index as u128) + 1);
            text.append(".");
            assert(text@ =~= self@.row_marker(index));
            text
        }
    }

    /// The speaker button.
    pub fn speaker_icon(&self) -> (text: String)
        ensures
            text@ == self@.speaker_icon(),
    {
        if self.is_muted() || self.volume() == 0 {
            String::from_str("🔇")
        } else if self.volume() < QUIET_VOLUME {
            String::from_str("🔉")
        } else {
            String::from_str("🔊")
        }
    }

    /// The volume in percent, rounded to the nearest: 0 while muted.
    pub fn volume_percent(&self) -> (percent: u32)
        requires
            self@.wf(),
        ensures
            percent == self@.volume_percent(),
    {
        if self.is_muted() {
            0
        } else {
            (self.volume() + 5) / 10
        }
    }

    /// The volume label: "p%".
    pub fn volume_text(&self) -> (text: String)
        requires
            self@.wf(),
        ensures
            text@ == self@.volume_text(),
    {
        let mut text = String::new();
        push_decimal(&mut text, self.volume_percent() as u128);
        text.append("%");
        assert(text@ =~= self@.volume_text());
        text
    }
}

} // verus!
