use cadence::{duration_label, CadenceApp, SongItem};

const SEC: u64 = 1_000_000_000;

fn song(name: &str, format: &str, secs: Option<u64>) -> SongItem {
    SongItem {
        path: format!("/fake/{name}"),
        title: name.to_string(),
        format: format.to_string(),
        duration: secs.map(|s| s * SEC),
    }
}

#[test]
fn labels_of_an_empty_player() {
    let app = CadenceApp::default();
    assert_eq!(app.title_text(), "No Song Loaded");
    assert_eq!(app.subtitle_text(), "Select or upload audio files to start");
    assert_eq!(app.badge_text(), "■ Stopped");
    assert_eq!(app.queue_button_text(), "Queue (0)");
    assert_eq!(app.queue_count_text(), "(0 songs)");
    assert_eq!(app.elapsed_text(), "00:00");
    assert_eq!(app.total_text(), "00:00");
    assert_eq!(app.volume_text(), "85%");
    assert_eq!(app.speaker_icon(), "🔊");
}

#[test]
fn labels_of_a_playing_song() {
    let mut app = CadenceApp::default();
    app.push_song(song("Intro", "MP3", Some(185)));
    app.push_song(song("Outro", "FLAC", None));
    app.finish_play_index(0, None, 0);
    app.update(65 * SEC, false);
    assert_eq!(app.title_text(), "Intro");
    assert_eq!(app.subtitle_text(), "Track 1 of 2 • MP3");
    assert_eq!(app.badge_text(), "● Playing");
    assert_eq!(app.queue_button_text(), "Queue (2)");
    assert_eq!(app.queue_count_text(), "(2 songs)");
    assert_eq!(app.elapsed_text(), "01:05");
    assert_eq!(app.total_text(), "03:05");
    assert_eq!(app.row_marker(0), "▶");
    assert_eq!(app.row_marker(1), "2.");
    app.pause_playback();
    assert_eq!(app.badge_text(), "❚❚ Paused");
    assert_eq!(app.row_marker(0), "1.");
}

#[test]
fn unknown_length_shows_dashes_once_time_passed() {
    let mut app = CadenceApp::default();
    app.push_song(song("Live", "OGG", None));
    app.finish_play_index(0, None, 0);
    assert_eq!(app.total_text(), "00:00");
    app.update(3 * SEC, false);
    assert_eq!(app.total_text(), "--:--");
    assert_eq!(app.elapsed_text(), "00:03");
}

#[test]
fn elapsed_shown_never_passes_the_length() {
    let mut app = CadenceApp::default();
    app.push_song(song("a", "WAV", Some(10)));
    app.push_song(song("b", "WAV", Some(10)));
    app.finish_play_index(0, None, 0);
    app.update(12 * SEC, false);
    assert_eq!(app.elapsed_text(), "00:10");
}

#[test]
fn speaker_and_percent_follow_the_volume() {
    let mut app = CadenceApp::default();
    app.set_volume(499);
    assert_eq!(app.speaker_icon(), "🔉");
    assert_eq!(app.volume_text(), "50%");
    app.set_volume(4);
    assert_eq!(app.volume_text(), "0%");
    app.set_volume(5);
    assert_eq!(app.volume_text(), "1%");
    app.set_volume(0);
    assert_eq!(app.speaker_icon(), "🔇");
    app.set_volume(1000);
    app.toggle_mute();
    assert_eq!(app.speaker_icon(), "🔇");
    assert_eq!(app.volume_text(), "0%");
    assert_eq!(app.volume_percent(), 0);
}

#[test]
fn duration_label_of_rows() {
    assert_eq!(duration_label(&song("a", "MP3", Some(61))), Some("01:01".to_string()));
    assert_eq!(duration_label(&song("a", "MP3", None)), None);
}
