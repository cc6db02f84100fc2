use music_player::config::{AppConfig, AppConfigDir};
use music_player::db::{AudioData, AudioScanner};

fn config(dir: &str) -> AppConfig {
    AppConfig { dir: AppConfigDir { music_dir: dir.to_string() } }
}

#[test]
fn accepts_only_the_audio_extension() {
    assert!(AudioScanner::check_file_extension("song.opus"));
    assert!(AudioScanner::check_file_extension("a.b.opus"));
    assert!(!AudioScanner::check_file_extension("song.mp3"));
    assert!(!AudioScanner::check_file_extension("song.opus.bak"));
    assert!(!AudioScanner::check_file_extension("song"));
    assert!(!AudioScanner::check_file_extension("songopus"));
    assert!(!AudioScanner::check_file_extension("song."));
    assert!(!AudioScanner::check_file_extension(""));
    // Extension matching is exact, including case.
    assert!(!AudioScanner::check_file_extension("song.OPUS"));
    // A leading dot marks a hidden file, not an extension.
    assert!(!AudioScanner::check_file_extension(".opus"));
    assert!(AudioScanner::check_file_extension("..opus"));
}

#[test]
fn filters_a_listing_in_order() {
    let names = vec![
        "one.opus".to_string(),
        "two.flac".to_string(),
        "three.opus".to_string(),
        "notes.txt".to_string(),
    ];
    let filtered = AudioScanner::filter_audio_files(names);
    assert_eq!(filtered, vec!["one.opus".to_string(), "three.opus".to_string()]);
}

#[test]
fn scanner_holds_the_configured_directory() {
    let mut s = AudioScanner::new(config("/music"));
    assert_eq!(s.music_dir().as_str(), "/music");
    s.set_config(config("/other"));
    assert_eq!(s.music_dir().as_str(), "/other");
}

#[test]
fn audio_data_round_trips_its_fields() {
    let a = AudioData::new(
        "/music/song.opus".to_string(),
        "song".to_string(),
        "someone".to_string(),
        "album".to_string(),
    );
    let b = AudioData::new(
        "/music/song.opus".to_string(),
        "song".to_string(),
        "someone".to_string(),
        "album".to_string(),
    );
    assert_eq!(a, b);
}
