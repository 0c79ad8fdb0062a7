use soundboard::models::Sound;
use soundboard::playback::{PlayAudio, PlayError, PlaybackCoordinator};

fn request(id: &str, name: &str, path: &str) -> PlayAudio {
    PlayAudio {
        audio_path: path.to_string(),
        sound: Sound::with_identity(id.to_string(), name.to_string()),
    }
}

#[test]
fn not_connected_fails_before_any_lock() {
    let mut p = PlaybackCoordinator::new();
    let r = p.play_audio(request("1", "A", "a.mp3"), false, true);
    assert_eq!(r.unwrap_err(), PlayError::NotConnected);
    let r = p.play_audio(request("1", "A", "a.mp3"), false, false);
    assert_eq!(r.unwrap_err(), PlayError::NotConnected);
}

#[test]
fn decode_failure_fails_before_any_lock() {
    let mut p = PlaybackCoordinator::new();
    let r = p.play_audio(request("1", "A", "a.mp3"), true, false);
    assert_eq!(r.unwrap_err(), PlayError::DecodeError);
}

#[test]
fn successful_play_hands_back_the_lock_request() {
    let mut p = PlaybackCoordinator::new();
    let start = p.play_audio(request("1", "A", "a.mp3"), true, true).unwrap();
    assert_eq!(start.lock.sound.id, "1");
    assert_eq!(start.lock.sound.name, "A");
}

#[test]
fn each_track_unlocks_exactly_once() {
    let mut p = PlaybackCoordinator::new();
    let first = p.play_audio(request("1", "A", "a.mp3"), true, true).unwrap().track;
    let second = p.play_audio(request("2", "B", "b.mp3"), true, true).unwrap().track;
    assert_ne!(first, second);
    assert!(p.track_ended(first).is_some());
    assert!(p.track_ended(first).is_none());
    assert!(p.track_ended(second).is_some());
    assert!(p.track_ended(second).is_none());
}

#[test]
fn unknown_track_end_fires_nothing() {
    let mut p = PlaybackCoordinator::new();
    assert!(p.track_ended(42).is_none());
}
