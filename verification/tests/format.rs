use cadence::{format_time, load_song_metadata};

#[test]
fn test_format_time() {
    assert_eq!(format_time(0), "00:00");
    assert_eq!(format_time(65), "01:05");
    assert_eq!(format_time(3600), "60:00");
}

#[test]
fn format_time_pads_single_digits() {
    assert_eq!(format_time(9), "00:09");
    assert_eq!(format_time(600), "10:00");
}

#[test]
fn format_time_keeps_counting_minutes_past_an_hour() {
    assert_eq!(format_time(599_999), "9999:59");
    assert_eq!(format_time(u64::MAX), "307445734561825860:15");
}

#[test]
fn metadata_uppercases_the_extension() {
    let song = load_song_metadata(
        String::from("/music/intro.mp3"),
        Some(String::from("intro")),
        Some(String::from("mp3")),
        Some(42),
    );
    assert_eq!(song.path, "/music/intro.mp3");
    assert_eq!(song.title, "intro");
    assert_eq!(song.format, "MP3");
    assert_eq!(song.duration, Some(42));
}

#[test]
fn metadata_falls_back_without_stem_or_extension() {
    let song = load_song_metadata(String::from("/"), None, None, None);
    assert_eq!(song.title, "Unknown Track");
    assert_eq!(song.format, "AUDIO");
    assert_eq!(song.duration, None);
}
