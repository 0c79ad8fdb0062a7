use soundboard::broadcast::{LOCKED_FRAME, UNLOCKED_FRAME};
use soundboard::coordinator::Soundboard;
use soundboard::models::Sound;
use soundboard::playback::{PlayAudio, PlayError};

fn request(id: &str, name: &str, path: &str) -> PlayAudio {
    PlayAudio {
        audio_path: path.to_string(),
        sound: Sound::with_identity(id.to_string(), name.to_string()),
    }
}

#[test]
fn play_from_nothing_locks_and_tells_every_subscriber() {
    let mut board = Soundboard::new();
    let a = board.connect(0).unwrap().subscriber;
    let b = board.connect(0).unwrap().subscriber;
    let started = board.play_audio(request("1", "A", "a.mp3"), true, true).unwrap();
    let status = board.get_status();
    assert!(status.is_locked);
    assert_eq!(status.sound.unwrap().id, "1");
    assert_eq!(started.deliveries.len(), 2);
    assert_eq!(started.deliveries[0].subscriber, a);
    assert_eq!(started.deliveries[1].subscriber, b);
    assert!(started.deliveries.iter().all(|d| d.frame == "{\"isLocked\": true}"));
}

#[test]
fn track_end_unlocks_and_tells_every_subscriber() {
    let mut board = Soundboard::new();
    board.connect(0).unwrap();
    let started = board.play_audio(request("1", "A", "a.mp3"), true, true).unwrap();
    let out = board.track_ended(started.track);
    let status = board.get_status();
    assert!(!status.is_locked);
    assert!(status.sound.is_none());
    assert_eq!(out.len(), 1);
    assert_eq!(out[0].frame, "{\"isLocked\": false}");
    assert!(board.track_ended(started.track).is_empty());
}

#[test]
fn second_play_overwrites_with_a_single_lock_change() {
    let mut board = Soundboard::new();
    let a = board.connect(0).unwrap().subscriber;
    board.play_audio(request("1", "A", "a.mp3"), true, true).unwrap();
    let second = board.play_audio(request("2", "B", "b.mp3"), true, true).unwrap();
    let status = board.get_status();
    assert!(status.is_locked);
    assert_eq!(status.sound.unwrap().id, "2");
    assert_eq!(second.deliveries.len(), 1);
    assert_eq!(second.deliveries[0].subscriber, a);
    assert_eq!(second.deliveries[0].frame, LOCKED_FRAME);
}

#[test]
fn late_subscriber_sees_current_lock() {
    let mut board = Soundboard::new();
    board.play_audio(request("1", "A", "a.mp3"), true, true).unwrap();
    let d = board.connect(0).unwrap();
    assert_eq!(d.frame, "{\"isLocked\": true}");
    board.unlock();
    let d = board.connect(0).unwrap();
    assert_eq!(d.frame, UNLOCKED_FRAME);
}

#[test]
fn failed_play_changes_nothing_and_sends_nothing() {
    let mut board = Soundboard::new();
    board.connect(0).unwrap();
    assert_eq!(
        board.play_audio(request("1", "A", "a.mp3"), false, true).unwrap_err(),
        PlayError::NotConnected
    );
    assert_eq!(
        board.play_audio(request("1", "A", "a.mp3"), true, false).unwrap_err(),
        PlayError::DecodeError
    );
    assert!(!board.get_status().is_locked);
}

#[test]
fn silent_viewer_dropped_while_others_keep_receiving() {
    let mut board = Soundboard::new();
    let quiet = board.connect(0).unwrap().subscriber;
    let lively = board.connect(0).unwrap().subscriber;
    board.on_frame(lively, soundboard::broadcast::InboundFrame::Pong, 9000);
    let beat = board.heartbeat(10001);
    assert_eq!(beat.dropped, vec![quiet]);
    assert_eq!(beat.pinged, vec![lively]);
    let started = board.play_audio(request("1", "A", "a.mp3"), true, true).unwrap();
    assert_eq!(started.deliveries.len(), 1);
    assert_eq!(started.deliveries[0].subscriber, lively);
    assert_eq!(board.subscriber_list().len(), 1);
}

#[test]
fn get_status_repeatedly_changes_nothing() {
    let mut board = Soundboard::new();
    board.play_audio(request("5", "E", "e.mp3"), true, true).unwrap();
    let snaps: Vec<_> = (0..4).map(|_| board.get_status()).collect();
    for s in &snaps {
        assert!(s.is_locked);
        assert_eq!(s.sound.as_ref().unwrap().id, "5");
    }
}

#[test]
fn superseded_track_end_still_unlocks_once() {
    let mut board = Soundboard::new();
    board.connect(0).unwrap();
    let first = board.play_audio(request("1", "A", "a.mp3"), true, true).unwrap().track;
    let second = board.play_audio(request("2", "B", "b.mp3"), true, true).unwrap().track;
    assert_eq!(board.track_ended(first).len(), 1);
    assert!(!board.get_status().is_locked);
    assert!(board.track_ended(first).is_empty());
    assert_eq!(board.track_ended(second).len(), 1);
}
