//! Properties of the player that span several controls.
use vstd::prelude::*;
use crate::model::{
    ALERT_LIFETIME, Command, FULL_VOLUME, NANOS_PER_SEC, PlaybackState, PlayerModel,
    RESTART_AFTER_SECS, UNMUTE_VOLUME, only_song_alert,
};
use crate::song::SongModel;

verus! {

proof fn lemma_preceding(c: int, n: int)
    requires
        0 <= c < n,
    ensures
        (c + n - 1) % n == if c == 0 {
            n - 1
        } else {
            c - 1
        },
{
    if c == 0 {
        vstd::arithmetic::div_mod::lemma_small_mod((n - 1) as nat, n as nat);
    } else {
        vstd::arithmetic::div_mod::lemma_mod_add_multiples_vanish(c - 1, n);
        vstd::arithmetic::div_mod::lemma_small_mod((c - 1) as nat, n as nat);
    }
}

proof fn lemma_following(c: int, n: int)
    requires
        0 <= c < n,
    ensures
        (c + 1) % n == if c + 1 == n {
            0
        } else {
            c + 1
        },
{
    if c + 1 == n {
        vstd::arithmetic::div_mod::lemma_mod_self_0(n);
    } else {
        vstd::arithmetic::div_mod::lemma_small_mod((c + 1) as nat, n as nat);
    }
}

/// Asking to play a song: an index inside the queue is asked for as it is,
/// any other index is ignored.
pub proof fn play_request_takes_the_index(s: PlayerModel, index: usize)
    ensures
        (index as int) < s.playlist.len() ==> s.play_request(index) == (Command::Play { index }),
        (index as int) >= s.playlist.len() ==> s.play_request(index) == Command::Idle,
{
}

/// A song that starts becomes the current song and plays from its very
/// beginning, whatever was current before (the same song included), counting
/// time from `now`; its length is the decoded one, else the one the queue
/// knew; the queue keeps its songs, and records a decoded length only where
/// it knew none; volume, alert and the queue's visibility stay.
pub proof fn a_started_song_plays_from_its_start(s: PlayerModel, index: usize, decoded: Option<u64>, now: u64)
    requires
        (index as int) < s.playlist.len(),
    ensures
        s.after_play(index, decoded, now).current_index == Some(index),
        s.after_play(index, decoded, now).state == PlaybackState::Playing,
        s.after_play(index, decoded, now).elapsed == 0,
        s.after_play(index, decoded, now).last_tick == Some(now),
        s.after_play(index, decoded, now).total_duration == (if decoded is Some {
            decoded
        } else {
            s.playlist[index as int].duration
        }),
        s.after_play(index, decoded, now).playlist.len() == s.playlist.len(),
        forall|j: int|
            0 <= j < s.playlist.len() && j != index ==> #[trigger] s.after_play(index, decoded, now).playlist[j]
                == s.playlist[j],
        s.after_play(index, decoded, now).playlist[index as int].path == s.playlist[index as int].path,
        s.after_play(index, decoded, now).playlist[index as int].title == s.playlist[index as int].title,
        s.after_play(index, decoded, now).playlist[index as int].format == s.playlist[index as int].format,
        s.after_play(index, decoded, now).playlist[index as int].duration == (if s.playlist[index as int].duration is Some {
            s.playlist[index as int].duration
        } else {
            decoded
        }),
        s.after_play(index, decoded, now).volume == s.volume,
        s.after_play(index, decoded, now).muted == s.muted,
        s.after_play(index, decoded, now).previous_volume == s.previous_volume,
        s.after_play(index, decoded, now).alert_message == s.alert_message,
        s.after_play(index, decoded, now).alert_time == s.alert_time,
        s.after_play(index, decoded, now).show_playlist == s.show_playlist,
{
}

/// "Start": with an empty queue it asks for files and changes nothing; on a
/// playing player it does nothing at all; a paused player resumes at its
/// position, counting from `now`; a stopped player asks for its current song,
/// or the first where there is none.
pub proof fn start_does_what_the_state_needs(s: PlayerModel, now: u64)
    ensures
        s.playlist.len() == 0 ==> s.start(now) == (s, Command::OpenUploadDialog),
        s.playlist.len() > 0 && s.state == PlaybackState::Playing ==> s.start(now) == (s, Command::Idle),
        s.playlist.len() > 0 && s.state == PlaybackState::Paused ==> s.start(now) == (
            PlayerModel { state: PlaybackState::Playing, last_tick: Some(now), ..s },
            Command::ResumeSink,
        ),
        s.playlist.len() > 0 && s.state == PlaybackState::Stopped ==> s.start(now).0 == s,
        s.playlist.len() > 0 && s.state == PlaybackState::Stopped && s.current_index is None ==> s.start(now).1
            == (Command::Play { index: 0 }),
        s.playlist.len() > 0 && s.state == PlaybackState::Stopped && (s.current_index matches Some(c) && c
            < s.playlist.len()) ==> s.start(now).1 == (Command::Play { index: s.current_index.unwrap() }),
{
}

/// "Pause": a playing player pauses where it is and stops counting time; any
/// other player is left alone.
pub proof fn pause_holds_the_position(s: PlayerModel)
    ensures
        s.state == PlaybackState::Playing ==> s.pause() == (
            PlayerModel { state: PlaybackState::Paused, last_tick: None, ..s },
            Command::PauseSink,
        ),
        s.state != PlaybackState::Playing ==> s.pause() == (s, Command::Idle),
{
}

/// "Stop": back to the beginning of the song, at rest, with the same queue
/// and current song; the output is stopped.
pub proof fn stop_rewinds(s: PlayerModel)
    ensures
        s.stop() == (
            PlayerModel { state: PlaybackState::Stopped, elapsed: 0, last_tick: None, ..s },
            Command::StopSink,
        ),
{
}

/// "Next" with `n > 1` songs asks for the song after the current one,
/// `(c + 1) % n`, or song 1 where nothing is current, takes the alert down
/// and changes nothing else.
pub proof fn next_plays_the_following_song(s: PlayerModel, now: u64)
    requires
        s.playlist.len() > 1,
        s.current_index matches Some(c) ==> c < s.playlist.len(),
    ensures
        s.next(now).0 == (PlayerModel { alert_message: None, ..s }),
        s.current_index matches Some(c) ==> s.next(now).1 == (Command::Play {
            index: ((c + 1) % (s.playlist.len() as int)) as usize,
        }),
        s.current_index is None ==> s.next(now).1 == (Command::Play { index: 1 }),
{
    vstd::arithmetic::div_mod::lemma_small_mod(1, s.playlist.len() as nat);
}

/// "Previous" with `n > 1` songs, within the first three whole seconds, asks
/// for the song before the current one, `(c + n - 1) % n`, or the last song
/// where nothing is current; it changes nothing.
pub proof fn previous_plays_the_preceding_song(s: PlayerModel)
    requires
        s.playlist.len() > 1,
        s.current_index matches Some(c) ==> c < s.playlist.len(),
        s.elapsed / NANOS_PER_SEC <= RESTART_AFTER_SECS,
    ensures
        s.current_index matches Some(c) ==> s.prev_request() == (Command::Play {
            index: ((c + s.playlist.len() - 1) % (s.playlist.len() as int)) as usize,
        }),
        s.current_index is None ==> s.prev_request() == (Command::Play {
            index: (s.playlist.len() - 1) as usize,
        }),
{
    if s.current_index is Some {
        lemma_preceding(s.current_index.unwrap() as int, s.playlist.len() as int);
    }
}

/// "Next" and then "previous", once the next song has started, come back to
/// the song that was current: with `n` songs and current index `c`, next asks
/// for `(c + 1) % n` and previous, from there, for `c`.
pub proof fn next_then_previous_returns(s: PlayerModel, now: u64, decoded: Option<u64>, later: u64)
    requires
        s.wf(),
        s.playlist.len() > 1,
        s.current_index matches Some(c) && c < s.playlist.len(),
    ensures
        s.next(now).1 == (Command::Play {
            index: ((s.current_index.unwrap() + 1) % (s.playlist.len() as int)) as usize,
        }),
        s.next(now).0.after_play(
            ((s.current_index.unwrap() + 1) % (s.playlist.len() as int)) as usize,
            decoded,
            later,
        ).prev_request() == (Command::Play { index: s.current_index.unwrap() }),
{
    lemma_following(s.current_index.unwrap() as int, s.playlist.len() as int);
}

/// "Previous" early in a song and then "next", once the previous song has
/// started, come back to the song that was current: previous asks for
/// `(c + n - 1) % n` and next, from there, for `c`.
pub proof fn previous_then_next_returns(s: PlayerModel, decoded: Option<u64>, now: u64, later: u64)
    requires
        s.wf(),
        s.playlist.len() > 1,
        s.current_index matches Some(c) && c < s.playlist.len(),
        s.elapsed / NANOS_PER_SEC <= RESTART_AFTER_SECS,
    ensures
        s.prev_request() == (Command::Play {
            index: ((s.current_index.unwrap() + s.playlist.len() - 1) % (s.playlist.len() as int)) as usize,
        }),
        s.after_play(
            ((s.current_index.unwrap() + s.playlist.len() - 1) % (s.playlist.len() as int)) as usize,
            decoded,
            now,
        ).next(later).1 == (Command::Play { index: s.current_index.unwrap() }),
{
    let n: int = s.playlist.len() as int;
    let c: int = s.current_index.unwrap() as int;
    lemma_preceding(c, n);
    lemma_following((c + n - 1) % n, n);
}

/// "Previous" late in a song, or with one song, restarts it: the current
/// song is sought back to its beginning.
pub proof fn previous_late_restarts(s: PlayerModel)
    requires
        s.wf(),
        s.current_index matches Some(c) && c < s.playlist.len(),
        s.playlist.len() <= 1 || s.elapsed / NANOS_PER_SEC > RESTART_AFTER_SECS,
    ensures
        s.prev_request() == (Command::Seek {
            index: s.current_index.unwrap(),
            target: 0,
            paused: s.state != PlaybackState::Playing,
        }),
{
}

/// Seeking asks to move the current song to exactly the requested target,
/// for every target; with no current song inside the queue it is ignored.
/// Once the seek takes effect the position is the target and nothing else
/// but the frame time changes.
pub proof fn seek_goes_to_the_target(s: PlayerModel, target: u64, now: u64)
    ensures
        (s.current_index matches Some(c) && c < s.playlist.len()) ==> s.seek_request(target) == (Command::Seek {
            index: s.current_index.unwrap(),
            target,
            paused: s.state != PlaybackState::Playing,
        }),
        !(s.current_index matches Some(c) && c < s.playlist.len()) ==> s.seek_request(target) == Command::Idle,
        s.after_seek(target, now) == (PlayerModel {
            elapsed: target,
            last_tick: if s.state == PlaybackState::Playing {
                Some(now)
            } else {
                s.last_tick
            },
            ..s
        }),
{
}

/// Pausing and then starting again resumes the same song at the same position.
pub proof fn pause_then_start_resumes(s: PlayerModel, now: u64)
    requires
        s.state == PlaybackState::Playing,
        s.playlist.len() > 0,
    ensures
        s.pause().1 == Command::PauseSink,
        s.pause().0.start(now).1 == Command::ResumeSink,
        s.pause().0.start(now).0 == (PlayerModel { last_tick: Some(now), ..s }),
{
}

/// Stopping returns to the beginning, and starting afterwards plays the
/// current song (the first where there is none) from its start.
pub proof fn stop_then_start_replays(s: PlayerModel, now: u64)
    requires
        s.wf(),
        s.playlist.len() > 0,
        s.current_index matches Some(c) ==> c < s.playlist.len(),
    ensures
        s.stop().0.elapsed == 0,
        s.stop().0.state == PlaybackState::Stopped,
        s.current_index is Some ==> s.stop().0.start(now).1 == (Command::Play { index: s.current_index.unwrap() }),
        s.current_index is None ==> s.stop().0.start(now).1 == (Command::Play { index: 0 }),
{
}

/// Removing a song other than the current one leaves the same song current.
pub proof fn remove_keeps_current_song(s: PlayerModel, index: usize)
    requires
        s.wf(),
        (index as int) < s.playlist.len(),
        s.current_index matches Some(c) && c < s.playlist.len() && c != index,
    ensures
        s.remove(index).1 == Command::Idle,
        s.remove(index).0.current_index matches Some(d) && d < s.remove(index).0.playlist.len()
            && s.remove(index).0.playlist[d as int] == s.playlist[s.current_index.unwrap() as int],
{
}

/// Removing the current song asks for the song that took its place, or the
/// new last song when it was last; removing the only song stops and forgets
/// the current song; an index outside the queue changes nothing.
pub proof fn remove_current_plays_its_successor(s: PlayerModel, index: usize)
    ensures
        (index as int) >= s.playlist.len() ==> s.remove(index) == (s, Command::Idle),
        (index as int) < s.playlist.len() ==> s.remove(index).0.playlist.len() == s.playlist.len() - 1,
        (index as int) < s.playlist.len() - 1 && s.current_index == Some(index) ==> s.remove(index).1
            == (Command::Play { index }),
        s.playlist.len() > 1 && index as int == s.playlist.len() - 1 && s.current_index == Some(index)
            ==> s.remove(index).1 == (Command::Play { index: (index - 1) as usize }),
        s.playlist.len() == 1 && index == 0 ==> s.remove(index).1 == Command::StopSink
            && s.remove(index).0.current_index is None && s.remove(index).0.state == PlaybackState::Stopped
            && s.remove(index).0.elapsed == 0 && s.remove(index).0.total_duration is None,
{
}

/// Removing a song keeps the others in their order.
pub proof fn remove_keeps_order(s: PlayerModel, index: usize)
    requires
        (index as int) < s.playlist.len(),
    ensures
        s.remove(index).0.playlist == s.playlist.remove(index as int),
{
    if s.playlist.remove(index as int).len() == 0 {
        assert(s.playlist.remove(index as int) =~= Seq::<SongModel>::empty());
    }
}

/// Muting and unmuting an audible player gives back its volume.
pub proof fn mute_twice_restores_volume(s: PlayerModel)
    requires
        !s.muted,
        s.volume > 0,
    ensures
        s.toggle_mute().0.effective_volume() == 0,
        s.toggle_mute().0.toggle_mute().0 == (PlayerModel { previous_volume: s.volume, ..s }),
        s.toggle_mute().0.toggle_mute().1 == (Command::SetSinkVolume { level: s.volume }),
{
}

/// Unmuting after muting at volume zero turns the volume up to 800.
pub proof fn unmute_from_silence(s: PlayerModel)
    requires
        !s.muted,
        s.volume == 0,
    ensures
        s.toggle_mute().0.toggle_mute().0.volume == UNMUTE_VOLUME,
        !s.toggle_mute().0.toggle_mute().0.muted,
{
}

/// The output always plays at the volume the slider shows, which never
/// exceeds full volume; a volume above zero is never muted.
pub proof fn set_volume_is_heard(s: PlayerModel, level: u32)
    requires
        s.wf(),
    ensures
        s.set_volume(level).1 == (Command::SetSinkVolume { level: s.set_volume(level).0.effective_volume() }),
        s.set_volume(level).0.volume <= FULL_VOLUME,
        level > 0 ==> s.set_volume(level).0.effective_volume() == (if level <= FULL_VOLUME { level } else { FULL_VOLUME }),
{
}

/// With one song or none, "next" raises the alert and leaves playback alone.
pub proof fn next_alone_alerts(s: PlayerModel, now: u64)
    requires
        s.playlist.len() <= 1,
    ensures
        s.next(now).1 == Command::Idle,
        s.next(now).0 == (PlayerModel { alert_message: Some(only_song_alert()), alert_time: Some(now), ..s }),
{
}

/// With more than one song, "next" always plays a song of the queue and
/// takes the alert down.
pub proof fn next_with_company_plays(s: PlayerModel, now: u64)
    requires
        s.playlist.len() > 1,
    ensures
        s.next(now).0.alert_message is None,
        s.next(now).1 matches Command::Play { index } && index < s.playlist.len(),
{
}

/// Seeking keeps the song, the queue and the playback state; only the
/// position moves.
pub proof fn seek_moves_only_position(s: PlayerModel, target: u64, now: u64)
    ensures
        s.after_seek(target, now).elapsed == target,
        s.after_seek(target, now).current_index == s.current_index,
        s.after_seek(target, now).playlist == s.playlist,
        s.after_seek(target, now).state == s.state,
{
}

/// While a song plays and has not reached its end, each frame adds the time
/// since the previous frame to its position.
pub proof fn playing_counts_time(s: PlayerModel, now: u64, drained: bool)
    requires
        s.state == PlaybackState::Playing,
        s.last_tick matches Some(last) && last <= now && s.elapsed + (now - last) <= u64::MAX,
        match s.total_duration {
            Some(total) => s.elapsed + (now - s.last_tick.unwrap()) < total,
            None => !drained,
        },
    ensures
        s.tick(now, drained).0.elapsed == s.elapsed + (now - s.last_tick.unwrap()),
        s.tick(now, drained).1.advanced == now - s.last_tick.unwrap(),
        s.tick(now, drained).1.command == Command::Idle,
        s.tick(now, drained).0.state == PlaybackState::Playing,
        s.tick(now, drained).0.last_tick == Some(now),
{
}

/// A song that reaches its known length is followed by the song after it,
/// `(c + 1) % n`, when the queue has `n > 1` songs, and by a stop at the
/// beginning otherwise.
pub proof fn finished_song_moves_on(s: PlayerModel, now: u64, drained: bool)
    requires
        s.state == PlaybackState::Playing,
        s.last_tick is Some,
        s.total_duration matches Some(total) && s.elapsed >= total,
    ensures
        s.playlist.len() > 1 && s.current_index is Some ==> s.tick(now, drained).1.command == (Command::Play {
            index: ((s.current_index.unwrap() + 1) % (s.playlist.len() as int)) as usize,
        }),
        s.playlist.len() > 1 && s.current_index is None ==> s.tick(now, drained).1.command == (Command::Play {
            index: 1,
        }),
        s.playlist.len() <= 1 ==> s.tick(now, drained).1.command == Command::StopSink
            && s.tick(now, drained).0.state == PlaybackState::Stopped
            && s.tick(now, drained).0.elapsed == 0,
{
    if s.playlist.len() > 1 {
        vstd::arithmetic::div_mod::lemma_small_mod(1, s.playlist.len() as nat);
    }
}

/// A paused or stopped player does not move through its song.
pub proof fn idle_player_holds_position(s: PlayerModel, now: u64, drained: bool)
    requires
        s.state != PlaybackState::Playing,
    ensures
        s.tick(now, drained).0.elapsed == s.elapsed,
        s.tick(now, drained).0.state == s.state,
        s.tick(now, drained).1 == (crate::model::Tick { advanced: 0, command: Command::Idle }),
{
}

/// A frame never touches an alert raised at most seven seconds ago (or by a
/// clock reading later than the frame's), nor one with no time, whatever the
/// player is doing; the alert goes away on the first frame more than seven
/// seconds after it was raised.
pub proof fn alert_expires(s: PlayerModel, now: u64, drained: bool)
    ensures
        (s.alert_time matches Some(t) && (t > now || now - t <= ALERT_LIFETIME)) ==> s.tick(now, drained).0.alert_message
            == s.alert_message && s.tick(now, drained).0.alert_time == s.alert_time,
        s.alert_time is None ==> s.tick(now, drained).0.alert_message == s.alert_message
            && s.tick(now, drained).0.alert_time is None,
        (s.alert_time matches Some(t) && t <= now && now - t > ALERT_LIFETIME) ==> s.tick(now, drained).0.alert_message
            is None && s.tick(now, drained).0.alert_time is None,
{
}

/// Moving the volume slider sets the volume to the level capped at 1000,
/// unmutes unless the level is zero, and hands the output the level it now
/// plays at.
pub proof fn volume_slider_sets_the_level(s: PlayerModel, level: u32)
    ensures
        s.set_volume(level).0 == (PlayerModel {
            volume: if level <= 1000 { level } else { 1000 },
            muted: s.muted && level == 0,
            ..s
        }),
        s.set_volume(level).1 == (Command::SetSinkVolume {
            level: if s.muted && level == 0 { 0 } else if level <= 1000 { level } else { 1000 },
        }),
{
}

/// The mute button: muting keeps the volume, saves it and silences the
/// output; unmuting restores the saved volume (800 where it was zero) and
/// plays at it.
pub proof fn mute_button_toggles(s: PlayerModel)
    ensures
        !s.muted ==> s.toggle_mute() == (
            PlayerModel { muted: true, previous_volume: s.volume, ..s },
            Command::SetSinkVolume { level: 0 },
        ),
        s.muted && s.previous_volume > 0 ==> s.toggle_mute() == (
            PlayerModel { muted: false, volume: s.previous_volume, ..s },
            Command::SetSinkVolume { level: s.previous_volume },
        ),
        s.muted && s.previous_volume == 0 ==> s.toggle_mute() == (
            PlayerModel { muted: false, volume: 800, ..s },
            Command::SetSinkVolume { level: 800 },
        ),
{
}

/// "Clear" stops the output, empties the queue and forgets the current song
/// and its length, back at the beginning and at rest.
pub proof fn clear_empties(s: PlayerModel)
    ensures
        s.clear().1 == Command::StopSink,
        s.clear().0 == (PlayerModel {
            playlist: Seq::empty(),
            current_index: None,
            state: PlaybackState::Stopped,
            elapsed: 0,
            total_duration: None,
            last_tick: None,
            ..s
        }),
{
}

/// Uploading while a song is current only queues the new songs.
pub proof fn upload_with_current_only_queues(s: PlayerModel, items: Seq<SongModel>)
    requires
        s.playlist.len() > 0,
        s.current_index is Some,
    ensures
        s.upload(items).1 == Command::Idle,
        s.upload(items).0.current_index == s.current_index,
        s.upload(items).0.state == s.state,
        s.upload(items).0.elapsed == s.elapsed,
{
}

/// Uploading into an empty queue plays the first uploaded song.
pub proof fn upload_into_empty_plays_first(s: PlayerModel, items: Seq<SongModel>)
    requires
        s.playlist.len() == 0,
        items.len() > 0,
    ensures
        s.upload(items).1 == (Command::Play { index: 0 }),
        s.upload(items).0.playlist == items,
{
    assert(s.playlist + items =~= items);
}

/// Uploading keeps the queue and adds the new songs after it, in order.
pub proof fn upload_appends(s: PlayerModel, items: Seq<SongModel>)
    ensures
        s.upload(items).0.playlist == s.playlist + items,
{
    if items.len() == 0 {
        assert(s.playlist + items =~= s.playlist);
    }
}

/// Once an upload leaves more than one song in the queue, the alert is gone.
pub proof fn upload_clears_alert(s: PlayerModel, items: Seq<SongModel>)
    requires
        items.len() > 0,
        s.playlist.len() + items.len() > 1,
    ensures
        s.upload(items).0.alert_message is None,
{
}

/// Every step of the player keeps its invariant: in particular a playing
/// player always has a frame time to count from, and a player that is not
/// stopped always has a current song.
pub proof fn every_step_keeps_wf(
    s: PlayerModel,
    index: usize,
    decoded: Option<u64>,
    now: u64,
    target: u64,
    items: Seq<SongModel>,
    level: u32,
    drained: bool,
)
    requires
        s.wf(),
        s.playlist.len() + items.len() <= usize::MAX,
    ensures
        (index as int) < s.playlist.len() ==> s.after_play(index, decoded, now).wf(),
        s.start(now).0.wf(),
        s.pause().0.wf(),
        s.stop().0.wf(),
        s.next(now).0.wf(),
        s.after_seek(target, now).wf(),
        s.upload(items).0.wf(),
        s.remove(index).0.wf(),
        s.clear().0.wf(),
        s.set_volume(level).0.wf(),
        s.toggle_mute().0.wf(),
        s.tick(now, drained).0.wf(),
{
}

/// The output always plays at the player's effective volume: only the volume
/// slider and the mute button change that volume, and each of them hands the
/// new level to the output; every other step, including a song or a seek that
/// takes effect on a new output, leaves it as it was, so a new output opened
/// at the effective volume stays right.
pub proof fn output_plays_at_effective_volume(
    s: PlayerModel,
    index: usize,
    decoded: Option<u64>,
    now: u64,
    target: u64,
    items: Seq<SongModel>,
    level: u32,
    drained: bool,
)
    ensures
        s.set_volume(level).1 == (Command::SetSinkVolume { level: s.set_volume(level).0.effective_volume() }),
        s.toggle_mute().1 == (Command::SetSinkVolume { level: s.toggle_mute().0.effective_volume() }),
        s.after_play(index, decoded, now).effective_volume() == s.effective_volume(),
        s.after_seek(target, now).effective_volume() == s.effective_volume(),
        s.start(now).0.effective_volume() == s.effective_volume(),
        s.pause().0.effective_volume() == s.effective_volume(),
        s.stop().0.effective_volume() == s.effective_volume(),
        s.next(now).0.effective_volume() == s.effective_volume(),
        s.upload(items).0.effective_volume() == s.effective_volume(),
        s.remove(index).0.effective_volume() == s.effective_volume(),
        s.clear().0.effective_volume() == s.effective_volume(),
        s.tick(now, drained).0.effective_volume() == s.effective_volume(),
{
}

} // verus!
