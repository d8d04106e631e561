use desk_hud::media::{
    is_spotify_session, media_action, thumbnail_data_url, thumbnail_read_len, MediaAction,
};
use desk_hud::messages::{count_user_messages, is_user_message_line};

const TODAY: &str = "2024-05-06";

fn lines(v: &[&str]) -> Vec<String> {
    v.iter().map(|s| s.to_string()).collect()
}

#[test]
fn user_message_lines() {
    assert!(is_user_message_line(r#"{"type":"user","timestamp":"2024-05-06T10:00:00Z"}"#, TODAY));
    assert!(!is_user_message_line(r#"{"type":"assistant","timestamp":"2024-05-06T10:00:00Z"}"#, TODAY));
    assert!(!is_user_message_line(r#"{"type":"user","timestamp":"2024-05-05T10:00:00Z"}"#, TODAY));
    assert!(!is_user_message_line(
        r#"{"isSidechain":true,"type":"user","timestamp":"2024-05-06T10:00:00Z"}"#,
        TODAY
    ));
    assert!(is_user_message_line(
        r#"{"isSidechain":false,"type":"user","timestamp":"2024-05-06T10:00:00Z"}"#,
        TODAY
    ));
    assert!(!is_user_message_line(r#"{"type": "user","timestamp":"2024-05-06"}"#, TODAY));
}

#[test]
fn counting_adds_to_the_running_total() {
    let a = lines(&[
        r#"{"type":"user","t":"2024-05-06"}"#,
        r#"{"type":"assistant","t":"2024-05-06"}"#,
        r#"{"type":"user","t":"2024-05-06"}"#,
    ]);
    let b = lines(&[r#"{"type":"user","t":"2024-05-06","isSidechain":true}"#, r#"{"type":"user","t":"2024-05-06"}"#]);
    assert_eq!(count_user_messages(0, &a, TODAY), 2);
    assert_eq!(count_user_messages(7, &b, TODAY), 8);
    let mut both = a.clone();
    both.extend(b.clone());
    assert_eq!(
        count_user_messages(0, &both, TODAY),
        count_user_messages(count_user_messages(0, &a, TODAY), &b, TODAY)
    );
    assert_eq!(count_user_messages(3, &Vec::new(), TODAY), 3);
}

#[test]
fn one_more_line_counts_once() {
    let user = r#"{"type":"user","timestamp":"2024-05-06T10:00:00Z"}"#;
    let other = r#"{"type":"assistant","timestamp":"2024-05-06T10:00:01Z"}"#;
    let mut log = lines(&[user, other]);
    let before = count_user_messages(0, &log, TODAY);
    log.push(other.to_string());
    assert_eq!(count_user_messages(0, &log, TODAY), before);
    log.push(user.to_string());
    assert_eq!(count_user_messages(0, &log, TODAY), before + 1);
}

#[test]
fn count_near_the_limit_with_no_matches() {
    let log = lines(&["not a message", r#"{"type":"assistant"}"#]);
    assert_eq!(count_user_messages(u32::MAX, &log, TODAY), u32::MAX);
    let one = lines(&[r#"{"type":"user","timestamp":"2024-05-06"}"#]);
    assert_eq!(count_user_messages(u32::MAX - 1, &one, TODAY), u32::MAX);
}

#[test]
fn media_actions() {
    assert_eq!(media_action("play"), Ok(MediaAction::Play));
    assert_eq!(media_action("pause"), Ok(MediaAction::Pause));
    assert_eq!(media_action("play_pause"), Ok(MediaAction::PlayPause));
    assert_eq!(media_action("next"), Ok(MediaAction::Next));
    assert_eq!(media_action("previous"), Ok(MediaAction::Previous));
    assert_eq!(media_action("Play"), Err("Unknown action".to_string()));
    assert_eq!(media_action("stop"), Err("Unknown action".to_string()));
}

#[test]
fn spotify_sessions() {
    assert!(is_spotify_session("Spotify.exe"));
    assert!(is_spotify_session("SpotifyAB.SpotifyMusic_zpdnekdrzrea0!Spotify"));
    assert!(is_spotify_session("SPOTIFY"));
    assert!(!is_spotify_session("Chrome"));
    assert!(!is_spotify_session("spot ify"));
}

#[test]
fn thumbnail_sizes() {
    assert_eq!(thumbnail_read_len(0), None);
    assert_eq!(thumbnail_read_len(1), Some(1));
    assert_eq!(thumbnail_read_len(2_000_000), Some(2_000_000));
    assert_eq!(thumbnail_read_len(2_000_001), None);
    assert_eq!(thumbnail_read_len(1 << 32), None);
    assert_eq!(thumbnail_read_len((1 << 32) + 5), Some(5));
}

#[test]
fn thumbnail_urls() {
    assert_eq!(thumbnail_data_url(b"hello"), "data:image/jpeg;base64,aGVsbG8=");
    assert_eq!(thumbnail_data_url(b""), "data:image/jpeg;base64,");
    assert_eq!(thumbnail_data_url(&[0xff, 0xd8]), "data:image/jpeg;base64,/9g=");
    assert_eq!(thumbnail_data_url(&[0xfb, 0xff, 0xbf]), "data:image/jpeg;base64,+/+/");
    let url = thumbnail_data_url(&[7u8; 10]);
    assert_eq!(url.len() - "data:image/jpeg;base64,".len(), 16);
}
