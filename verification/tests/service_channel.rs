use samplemap::command::Msg;
use samplemap::service::{AudioHandle, ServiceError};
use std::sync::mpsc;

#[test]
fn play_is_enqueued_in_order() {
    let (tx, rx) = mpsc::channel::<Msg>();
    let handle = AudioHandle::from_sender(tx);
    assert!(handle.play_path("a.wav".to_owned()).is_ok());
    assert!(handle.play_path("b.wav".to_owned()).is_ok());
    handle.stop();
    match rx.recv().unwrap() {
        Msg::Play(p) => assert_eq!(p, "a.wav"),
        Msg::Stop => panic!("commands must arrive first-in-first-out"),
    }
    match rx.recv().unwrap() {
        Msg::Play(p) => assert_eq!(p, "b.wav"),
        Msg::Stop => panic!("commands must arrive first-in-first-out"),
    }
    assert!(matches!(rx.recv().unwrap(), Msg::Stop));
}

#[test]
fn play_fails_only_when_the_owner_thread_is_gone() {
    let (tx, rx) = mpsc::channel::<Msg>();
    let handle = AudioHandle::from_sender(tx);
    drop(rx);
    match handle.play_path("a.wav".to_owned()) {
        Err(ServiceError::ServiceUnavailable) => {}
        Ok(()) => panic!("the receiving end is closed; play must fail"),
    }
}

#[test]
fn stop_is_best_effort_after_shutdown() {
    let (tx, rx) = mpsc::channel::<Msg>();
    let handle = AudioHandle::from_sender(tx);
    drop(rx);
    // Must neither panic nor report anything.
    handle.stop();
}

#[test]
fn clones_feed_the_same_channel() {
    let (tx, rx) = mpsc::channel::<Msg>();
    let handle = AudioHandle::from_sender(tx);
    let other = handle.clone();
    assert!(other.play_path("c.wav".to_owned()).is_ok());
    match rx.recv().unwrap() {
        Msg::Play(p) => assert_eq!(p, "c.wav"),
        Msg::Stop => panic!("expected the play command"),
    }
}
