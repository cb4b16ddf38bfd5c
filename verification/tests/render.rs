use spotify_polybar::model::{Device, PlaybackState};
use spotify_polybar::render::{device_line, device_lines, error_line, play_button_label, render_artist, status_line};

fn state(is_playing: bool, track: &str, artists: &[&str]) -> PlaybackState {
    PlaybackState {
        is_playing,
        track_name: track.to_string(),
        artist_names: artists.iter().map(|a| a.to_string()).collect(),
    }
}

#[test]
fn render_artist_single_is_the_name_alone() {
    let artists = vec!["Single Artist".to_string()];
    assert_eq!(render_artist(&artists), "Single Artist");
}

#[test]
fn render_artist_joins_in_input_order() {
    let artists = vec!["A".to_string(), "B".to_string()];
    assert_eq!(render_artist(&artists), "A, B");
    let artists = vec!["B".to_string(), "A".to_string(), "C".to_string()];
    assert_eq!(render_artist(&artists), "B, A, C");
}

#[test]
fn render_artist_empty_list_is_empty() {
    let artists: Vec<String> = Vec::new();
    assert_eq!(render_artist(&artists), "");
}

#[test]
fn status_line_nothing_when_no_playback() {
    assert_eq!(status_line(&None), "Nothing.");
}

#[test]
fn status_line_joins_artists_and_track() {
    let playing = Some(state(false, "Song", &["A", "B"]));
    assert_eq!(status_line(&playing), "A, B: Song");
}

#[test]
fn play_button_label_picks_pause_while_playing() {
    assert_eq!(play_button_label(true, "play", "pause"), "pause");
    assert_eq!(play_button_label(false, "play", "pause"), "play");
}

#[test]
fn play_button_label_uses_configured_labels() {
    assert_eq!(play_button_label(true, "P", "Q"), "Q");
    assert_eq!(play_button_label(false, "P", "Q"), "P");
}

#[test]
fn device_line_shows_name_id_and_active_flag() {
    let d = Device { id: "abc123".to_string(), name: "Kitchen".to_string(), is_active: true };
    assert_eq!(device_line(&d), "Kitchen abc123 true");
    let d = Device { id: "xyz".to_string(), name: "Office".to_string(), is_active: false };
    assert_eq!(device_line(&d), "Office xyz false");
}

#[test]
fn device_lines_keeps_service_order() {
    let devices = vec![
        Device { id: "1".to_string(), name: "B".to_string(), is_active: false },
        Device { id: "2".to_string(), name: "A".to_string(), is_active: true },
    ];
    assert_eq!(device_lines(&devices), vec!["B 1 false".to_string(), "A 2 true".to_string()]);
}

#[test]
fn error_line_is_uniform() {
    assert_eq!(error_line(), "Error.");
}
