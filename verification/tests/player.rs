use cadence::{CadenceApp, Command, PlaybackState, SongItem, Tick};
use std::time::Duration;

const SEC: u64 = 1_000_000_000;

fn song(name: &str, secs: u64) -> SongItem {
    SongItem {
        path: format!("/fake/{name}.mp3"),
        title: name.to_string(),
        format: "MP3".to_string(),
        duration: Some(secs * SEC),
    }
}

fn with_songs(n: usize) -> CadenceApp {
    let mut app = CadenceApp::default();
    for i in 0..n {
        app.push_song(song(&format!("Song {}", i + 1), 100 + i as u64));
    }
    app
}

#[test]
fn test_alert_when_single_or_empty_song() {
    let mut app = CadenceApp::default();
    // 0 songs
    app.next_track(0);
    assert_eq!(
        app.alert_message(),
        Some("This is the only song you have, upload more songs")
    );

    // 1 song
    app.dismiss_alert();
    app.push_song(SongItem {
        path: "/fake/song1.mp3".to_string(),
        title: "Song 1".to_string(),
        format: "MP3".to_string(),
        duration: Some(Duration::from_secs(120).as_nanos() as u64),
    });
    app.next_track(0);
    assert_eq!(
        app.alert_message(),
        Some("This is the only song you have, upload more songs")
    );

    // 2 songs
    app.push_song(SongItem {
        path: "/fake/song2.mp3".to_string(),
        title: "Song 2".to_string(),
        format: "MP3".to_string(),
        duration: Some(Duration::from_secs(180).as_nanos() as u64),
    });
    // Next with 2 songs should clear alert message
    app.next_track(0);
    assert_eq!(app.alert_message(), None);
}

#[test]
fn new_player_is_stopped_and_empty() {
    let app = CadenceApp::default();
    assert_eq!(app.playlist_len(), 0);
    assert_eq!(app.state(), PlaybackState::Stopped);
    assert_eq!(app.current_index(), None);
    assert_eq!(app.volume(), 850);
    assert!(!app.is_muted());
    assert!(app.show_playlist());
    assert_eq!(app.alert_message(), None);
}

#[test]
fn next_alone_changes_nothing_but_the_alert() {
    let mut app = with_songs(1);
    app.finish_play_index(0, None, 10);
    app.update(2 * SEC + 10, false);
    let cmd = app.next_track(2 * SEC + 10);
    assert_eq!(cmd, Command::Idle);
    assert_eq!(app.current_index(), Some(0));
    assert_eq!(app.state(), PlaybackState::Playing);
    assert_eq!(app.elapsed(), 2 * SEC);
}

#[test]
fn next_wraps_and_previous_comes_back() {
    let mut app = with_songs(3);
    app.finish_play_index(2, None, 0);
    let cmd = app.next_track(1);
    assert_eq!(cmd, Command::Play { index: 0 });
    app.finish_play_index(0, None, 2);
    assert_eq!(app.prev_track(), Command::Play { index: 2 });
}

#[test]
fn previous_wraps_and_next_comes_back() {
    let mut app = with_songs(3);
    app.finish_play_index(0, None, 0);
    assert_eq!(app.prev_track(), Command::Play { index: 2 });
    app.finish_play_index(2, None, 1);
    assert_eq!(app.next_track(2), Command::Play { index: 0 });
}

#[test]
fn previous_late_restarts_the_song() {
    let mut app = with_songs(3);
    app.finish_play_index(1, None, 0);
    app.update(3 * SEC + SEC / 2, false);
    // three and a half seconds: still "previous song"
    assert_eq!(app.prev_track(), Command::Play { index: 0 });
    app.update(4 * SEC, false);
    assert_eq!(
        app.prev_track(),
        Command::Seek { index: 1, target: 0, paused: false }
    );
    app.finish_seek(0, 4 * SEC);
    assert_eq!(app.elapsed(), 0);
    assert_eq!(app.current_index(), Some(1));
}

#[test]
fn previous_with_one_song_restarts() {
    let mut app = with_songs(1);
    app.finish_play_index(0, None, 0);
    app.pause_playback();
    assert_eq!(
        app.prev_track(),
        Command::Seek { index: 0, target: 0, paused: true }
    );
}

#[test]
fn seek_without_current_song_does_nothing() {
    let app = with_songs(2);
    assert_eq!(app.seek_to(5), Command::Idle);
}

#[test]
fn pause_then_start_resumes_where_it_was() {
    let mut app = with_songs(2);
    app.finish_play_index(1, None, 0);
    app.update(5 * SEC, false);
    assert_eq!(app.pause_playback(), Command::PauseSink);
    assert_eq!(app.state(), PlaybackState::Paused);
    app.update(50 * SEC, false);
    assert_eq!(app.elapsed(), 5 * SEC);
    assert_eq!(app.start_playback(60 * SEC), Command::ResumeSink);
    assert_eq!(app.state(), PlaybackState::Playing);
    assert_eq!(app.elapsed(), 5 * SEC);
    assert_eq!(app.current_index(), Some(1));
    app.update(61 * SEC, false);
    assert_eq!(app.elapsed(), 6 * SEC);
}

#[test]
fn pause_when_not_playing_does_nothing() {
    let mut app = with_songs(1);
    assert_eq!(app.pause_playback(), Command::Idle);
    assert_eq!(app.state(), PlaybackState::Stopped);
}

#[test]
fn start_on_empty_queue_asks_for_files() {
    let mut app = CadenceApp::default();
    assert_eq!(app.start_playback(0), Command::OpenUploadDialog);
}

#[test]
fn stop_resets_and_start_replays_the_current_song() {
    let mut app = with_songs(3);
    app.finish_play_index(2, None, 0);
    app.update(30 * SEC, false);
    assert_eq!(app.stop_playback(), Command::StopSink);
    assert_eq!(app.elapsed(), 0);
    assert_eq!(app.state(), PlaybackState::Stopped);
    assert_eq!(app.start_playback(31 * SEC), Command::Play { index: 2 });
}

#[test]
fn start_when_stopped_without_current_plays_the_first() {
    let mut app = with_songs(2);
    assert_eq!(app.start_playback(0), Command::Play { index: 0 });
}

#[test]
fn play_index_outside_the_queue_is_ignored() {
    let app = with_songs(2);
    assert_eq!(app.play_index(2), Command::Idle);
    assert_eq!(app.play_index(1), Command::Play { index: 1 });
}

#[test]
fn finish_play_records_the_decoded_length() {
    let mut app = CadenceApp::default();
    app.push_song(SongItem {
        path: "/a.ogg".to_string(),
        title: "a".to_string(),
        format: "OGG".to_string(),
        duration: None,
    });
    app.finish_play_index(0, Some(7 * SEC), 0);
    assert_eq!(app.total_duration(), Some(7 * SEC));
    assert_eq!(app.song(0).duration, Some(7 * SEC));
    // a length the queue already knows is kept there
    app.push_song(song("b", 9));
    app.finish_play_index(1, Some(8 * SEC), 0);
    assert_eq!(app.total_duration(), Some(8 * SEC));
    assert_eq!(app.song(1).duration, Some(9 * SEC));
    // with no decoded length the queue's is used
    app.finish_play_index(1, None, 0);
    assert_eq!(app.total_duration(), Some(9 * SEC));
}

#[test]
fn remove_keeps_the_current_song() {
    let mut app = with_songs(4);
    app.finish_play_index(2, None, 0);
    assert_eq!(app.remove_song(0), Command::Idle);
    assert_eq!(app.current_index(), Some(1));
    assert_eq!(app.current_song().unwrap().title, "Song 3");
    assert_eq!(app.remove_song(3), Command::Idle);
    assert_eq!(app.remove_song(2), Command::Idle);
    assert_eq!(app.current_song().unwrap().title, "Song 3");
}

#[test]
fn removing_the_current_song_plays_the_one_in_its_place() {
    let mut app = with_songs(3);
    app.finish_play_index(1, None, 0);
    assert_eq!(app.remove_song(1), Command::Play { index: 1 });
    assert_eq!(app.playlist_len(), 2);
    assert_eq!(app.song(1).title, "Song 3");
}

#[test]
fn removing_the_current_last_song_plays_the_new_last() {
    let mut app = with_songs(3);
    app.finish_play_index(2, None, 0);
    assert_eq!(app.remove_song(2), Command::Play { index: 1 });
    // until that song starts the current index stands past the end
    assert_eq!(app.current_index(), Some(2));
    assert!(app.current_song().is_none());
    assert_eq!(app.subtitle_text(), "Track 3 of 2 • AUDIO");
}

#[test]
fn removing_the_last_song_stops() {
    let mut app = with_songs(1);
    app.finish_play_index(0, None, 0);
    assert_eq!(app.remove_song(0), Command::StopSink);
    assert_eq!(app.playlist_len(), 0);
    assert_eq!(app.current_index(), None);
    assert_eq!(app.total_duration(), None);
    assert_eq!(app.state(), PlaybackState::Stopped);
}

#[test]
fn remove_outside_the_queue_does_nothing() {
    let mut app = with_songs(1);
    assert_eq!(app.remove_song(1), Command::Idle);
    assert_eq!(app.playlist_len(), 1);
}

#[test]
fn clear_empties_and_stops() {
    let mut app = with_songs(3);
    app.finish_play_index(1, None, 0);
    assert_eq!(app.clear_playlist(), Command::StopSink);
    assert_eq!(app.playlist_len(), 0);
    assert_eq!(app.current_index(), None);
    assert_eq!(app.state(), PlaybackState::Stopped);
    assert_eq!(app.total_duration(), None);
}

#[test]
fn upload_into_empty_queue_plays_the_first_new_song() {
    let mut app = CadenceApp::default();
    let cmd = app.upload_songs(vec![song("a", 1), song("b", 2)]);
    assert_eq!(cmd, Command::Play { index: 0 });
    assert_eq!(app.playlist_len(), 2);
    assert_eq!(app.song(1).title, "b");
}

#[test]
fn upload_while_a_song_is_current_only_queues() {
    let mut app = with_songs(1);
    app.finish_play_index(0, None, 0);
    assert_eq!(app.upload_songs(vec![song("c", 3)]), Command::Idle);
    assert_eq!(app.playlist_len(), 2);
    assert_eq!(app.song(1).title, "c");
}

#[test]
fn upload_without_current_plays_the_first_new_song() {
    let mut app = with_songs(2);
    assert_eq!(app.upload_songs(vec![song("c", 3)]), Command::Play { index: 2 });
}

#[test]
fn upload_clears_the_alert_once_there_are_two_songs() {
    let mut app = CadenceApp::default();
    app.next_track(0);
    app.upload_songs(vec![song("a", 1)]);
    assert!(app.alert_message().is_some());
    app.upload_songs(vec![song("b", 1)]);
    assert_eq!(app.alert_message(), None);
}

#[test]
fn upload_of_nothing_does_nothing() {
    let mut app = CadenceApp::default();
    assert_eq!(app.upload_songs(Vec::new()), Command::Idle);
    assert_eq!(app.playlist_len(), 0);
}

#[test]
fn volume_is_capped_and_unmutes() {
    let mut app = with_songs(1);
    assert_eq!(app.set_volume(1500), Command::SetSinkVolume { level: 1000 });
    assert_eq!(app.volume(), 1000);
    app.toggle_mute();
    assert!(app.is_muted());
    assert_eq!(app.set_volume(0), Command::SetSinkVolume { level: 0 });
    assert!(app.is_muted());
    assert_eq!(app.set_volume(300), Command::SetSinkVolume { level: 300 });
    assert!(!app.is_muted());
}

#[test]
fn mute_twice_restores_the_volume() {
    let mut app = CadenceApp::default();
    app.set_volume(420);
    assert_eq!(app.toggle_mute(), Command::SetSinkVolume { level: 0 });
    assert_eq!(app.effective_volume(), 0);
    assert_eq!(app.toggle_mute(), Command::SetSinkVolume { level: 420 });
    assert_eq!(app.volume(), 420);
    assert!(!app.is_muted());
}

#[test]
fn unmute_from_silence_turns_up_to_eight_tenths() {
    let mut app = CadenceApp::default();
    app.set_volume(0);
    app.toggle_mute();
    assert_eq!(app.toggle_mute(), Command::SetSinkVolume { level: 800 });
    assert_eq!(app.volume(), 800);
}

#[test]
fn playing_counts_time_between_frames() {
    let mut app = with_songs(2);
    app.finish_play_index(0, None, 1_000);
    let tick = app.update(1_000 + 2 * SEC, false);
    assert_eq!(tick, Tick { advanced: 2 * SEC, command: Command::Idle });
    assert_eq!(app.elapsed(), 2 * SEC);
    // a clock reading earlier than the last frame counts as no time
    let tick = app.update(500, false);
    assert_eq!(tick.advanced, 0);
    assert_eq!(app.elapsed(), 2 * SEC);
}

#[test]
fn finished_song_is_followed_by_the_next() {
    let mut app = with_songs(2);
    app.finish_play_index(1, None, 0);
    let tick = app.update(101 * SEC, false);
    assert_eq!(tick.command, Command::Play { index: 0 });
}

#[test]
fn finished_single_song_stops() {
    let mut app = with_songs(1);
    app.finish_play_index(0, None, 0);
    let tick = app.update(200 * SEC, false);
    assert_eq!(tick.command, Command::StopSink);
    assert_eq!(app.state(), PlaybackState::Stopped);
    assert_eq!(app.elapsed(), 0);
}

#[test]
fn song_of_unknown_length_ends_when_its_output_drains() {
    let mut app = CadenceApp::default();
    app.push_song(SongItem {
        path: "/a.mp3".to_string(),
        title: "a".to_string(),
        format: "MP3".to_string(),
        duration: None,
    });
    app.push_song(song("b", 1));
    app.finish_play_index(0, None, 0);
    assert_eq!(app.update(10 * SEC, false).command, Command::Idle);
    assert_eq!(app.update(11 * SEC, true).command, Command::Play { index: 1 });
}

#[test]
fn alert_goes_after_seven_seconds() {
    let mut app = CadenceApp::default();
    app.next_track(SEC);
    app.update(8 * SEC, false);
    assert!(app.alert_message().is_some());
    app.update(8 * SEC + 1, false);
    assert_eq!(app.alert_message(), None);
}

#[test]
fn dismiss_and_toggle_queue() {
    let mut app = CadenceApp::default();
    app.next_track(0);
    app.dismiss_alert();
    assert_eq!(app.alert_message(), None);
    app.toggle_playlist();
    assert!(!app.show_playlist());
    app.toggle_playlist();
    assert!(app.show_playlist());
}

#[test]
fn output_volume_stays_at_the_effective_volume() {
    let mut app = with_songs(2);
    assert_eq!(app.set_volume(600), Command::SetSinkVolume { level: 600 });
    app.finish_play_index(0, None, 0);
    assert_eq!(app.effective_volume(), 600);
    assert_eq!(app.toggle_mute(), Command::SetSinkVolume { level: 0 });
    let cmd = app.next_track(1);
    assert_eq!(cmd, Command::Play { index: 1 });
    app.finish_play_index(1, None, 2);
    app.update(3, false);
    assert_eq!(app.effective_volume(), 0);
    assert_eq!(app.toggle_mute(), Command::SetSinkVolume { level: 600 });
    assert_eq!(app.effective_volume(), 600);
}

#[test]
fn a_started_player_always_has_a_current_song_and_a_frame_time() {
    let mut app = with_songs(2);
    app.finish_play_index(1, None, 5);
    assert_eq!(app.current_index(), Some(1));
    app.pause_playback();
    assert_eq!(app.current_index(), Some(1));
    app.start_playback(10 * SEC);
    // the frame time restarts at the resume, so no paused time is counted
    app.update(11 * SEC, false);
    assert_eq!(app.elapsed(), SEC);
}
