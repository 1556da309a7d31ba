use guess_note::bridge::{Capture, EventBridge};
use guess_note::midi::forwarded_note;
use guess_note::round::RoundEvent;

#[test]
fn capture_returns_the_last_pushed_note() {
    let mut bridge = EventBridge::new();
    bridge.push(60);
    bridge.push(62);
    bridge.push(64);
    assert_eq!(bridge.capture_latest(), Capture::Note(64));
}

#[test]
fn second_capture_without_a_push_has_to_wait() {
    let mut bridge = EventBridge::new();
    bridge.push(60);
    bridge.push(62);
    assert_eq!(bridge.capture_latest(), Capture::Note(62));
    assert_eq!(bridge.capture_latest(), Capture::Wait);
    assert_eq!(bridge.capture_latest(), Capture::Wait);
}

#[test]
fn capture_on_a_fresh_bridge_has_to_wait() {
    let mut bridge = EventBridge::new();
    assert_eq!(bridge.queued_len(), 0);
    assert_eq!(bridge.capture_latest(), Capture::Wait);
}

#[test]
fn capture_drops_the_older_notes() {
    let mut bridge = EventBridge::new();
    for note in 0..100u8 {
        bridge.push(note);
    }
    assert_eq!(bridge.queued_len(), 100);
    assert_eq!(bridge.capture_latest(), Capture::Note(99));
    assert_eq!(bridge.queued_len(), 0);
    bridge.push(7);
    assert_eq!(bridge.capture_latest(), Capture::Note(7));
    assert_eq!(bridge.capture_latest(), Capture::Wait);
}

#[test]
fn one_pushed_note_is_captured_once() {
    let mut bridge = EventBridge::new();
    bridge.push(60);
    assert_eq!(bridge.capture_latest(), Capture::Note(60));
    assert_ne!(bridge.capture_latest(), Capture::Note(60));
}

#[test]
fn the_same_note_pushed_again_is_captured_again() {
    let mut bridge = EventBridge::new();
    bridge.push(60);
    assert_eq!(bridge.capture_latest(), Capture::Note(60));
    bridge.push(60);
    assert_eq!(bridge.capture_latest(), Capture::Note(60));
}

#[test]
fn capture_after_the_producer_is_gone_reports_the_closure() {
    let mut bridge = EventBridge::new();
    bridge.disconnect();
    assert_eq!(bridge.capture_latest(), Capture::Closed);
    assert_eq!(bridge.capture_latest(), Capture::Closed);
}

#[test]
fn notes_queued_before_the_producer_left_are_still_captured() {
    let mut bridge = EventBridge::new();
    bridge.push(48);
    bridge.push(50);
    bridge.disconnect();
    assert_eq!(bridge.capture_latest(), Capture::Note(50));
    assert_eq!(bridge.capture_latest(), Capture::Closed);
}

#[test]
fn offered_messages_are_filtered() {
    let mut bridge = EventBridge::new();
    assert!(bridge.offer(&[0x90, 60, 100]));
    assert!(!bridge.offer(&[0xB0, 7, 127]));
    assert!(!bridge.offer(&[0xF8]));
    assert!(!bridge.offer(&[0x90, 61, 0]));
    assert_eq!(bridge.queued_len(), 1);
    assert_eq!(bridge.capture_latest(), Capture::Note(60));
}

#[test]
fn offered_notes_keep_their_order() {
    let mut bridge = EventBridge::new();
    assert!(bridge.offer(&[0x90, 60, 100]));
    assert!(bridge.offer(&[0x80, 60, 64]));
    assert!(bridge.offer(&[0x90, 67, 1]));
    assert!(!bridge.offer(&[0xE0, 0, 64]));
    assert_eq!(bridge.queued_len(), 3);
    assert_eq!(bridge.capture_latest(), Capture::Note(67));
}

#[test]
fn note_on_with_velocity_is_forwarded() {
    assert_eq!(forwarded_note(&[0x90, 60, 0x40]), Some(60));
    assert_eq!(forwarded_note(&[0x90, 0, 1]), Some(0));
    assert_eq!(forwarded_note(&[0x90, 127, 127]), Some(127));
}

#[test]
fn note_off_with_velocity_is_forwarded() {
    assert_eq!(forwarded_note(&[0x80, 60, 0x40]), Some(60));
    assert_eq!(forwarded_note(&[0x80, 72, 1]), Some(72));
}

#[test]
fn velocity_zero_is_dropped() {
    assert_eq!(forwarded_note(&[0x90, 60, 0]), None);
    assert_eq!(forwarded_note(&[0x80, 60, 0]), None);
}

#[test]
fn other_messages_are_dropped() {
    assert_eq!(forwarded_note(&[0xB0, 64, 127]), None);
    assert_eq!(forwarded_note(&[0xE0, 0, 64]), None);
    assert_eq!(forwarded_note(&[0xA0, 60, 64]), None);
    assert_eq!(forwarded_note(&[0x91, 60, 64]), None);
    assert_eq!(forwarded_note(&[0x81, 60, 64]), None);
    assert_eq!(forwarded_note(&[0xF8]), None);
    assert_eq!(forwarded_note(&[0xC0, 5]), None);
    assert_eq!(forwarded_note(&[]), None);
    assert_eq!(forwarded_note(&[0x90, 60]), None);
    assert_eq!(forwarded_note(&[0x90, 60, 64, 0]), None);
    assert_eq!(forwarded_note(&[0xF0, 1, 2, 3, 0xF7]), None);
}

#[test]
fn captures_become_round_events() {
    assert_eq!(Capture::Note(61).as_event(), Some(RoundEvent::NoteCaptured(61)));
    assert_eq!(Capture::Closed.as_event(), Some(RoundEvent::ChannelClosed));
    assert_eq!(Capture::Wait.as_event(), None);
}
