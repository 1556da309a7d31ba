use guess_note::error::GameError;
use guess_note::midi::{note_off_message, note_on_message, Message, NOTE_OFF, NOTE_ON, VELOCITY};
use guess_note::playback::{Phase, Playback, PlaybackAction, PlaybackEvent};
use guess_note::round::RoundEvent;

#[test]
fn status_bytes_and_velocity() {
    assert_eq!(NOTE_ON, 0x90);
    assert_eq!(NOTE_OFF, 0x80);
    assert_eq!(VELOCITY, 0x40);
}

#[test]
fn note_on_message_is_three_bytes() {
    assert_eq!(note_on_message(60), Message { status: 0x90, note: 60, velocity: 0x40 });
    assert_eq!(note_on_message(60).to_bytes(), [0x90, 60, 0x40]);
    assert_eq!(note_on_message(0).to_bytes(), [0x90, 0, 0x40]);
    assert_eq!(note_on_message(127).to_bytes(), [0x90, 127, 0x40]);
}

#[test]
fn note_off_message_matches_the_note() {
    assert_eq!(note_off_message(60), Message { status: 0x80, note: 60, velocity: 0x40 });
    assert_eq!(note_off_message(60).to_bytes(), [0x80, 60, 0x40]);
    assert_eq!(note_off_message(95).to_bytes(), [0x80, 95, 0x40]);
}

#[test]
fn playback_sends_on_holds_and_sends_off() {
    let playback = Playback::start(60, 150);
    assert_eq!(playback, Playback { note: 60, hold_ms: 150, phase: Phase::Striking });
    assert_eq!(playback.pending_action(), PlaybackAction::Send { message: Message { status: 0x90, note: 60, velocity: 0x40 } });
    assert_eq!(playback.as_event(), None);

    let playback = playback.advance(PlaybackEvent::Sent);
    assert_eq!(playback.phase, Phase::Holding);
    assert_eq!(playback.pending_action(), PlaybackAction::Hold { ms: 150 });
    assert_eq!(playback.as_event(), None);

    let playback = playback.advance(PlaybackEvent::Held);
    assert_eq!(playback.phase, Phase::Releasing);
    assert_eq!(playback.pending_action(), PlaybackAction::Send { message: Message { status: 0x80, note: 60, velocity: 0x40 } });
    assert_eq!(playback.as_event(), None);

    let playback = playback.advance(PlaybackEvent::Sent);
    assert_eq!(playback.phase, Phase::Finished);
    assert_eq!(playback.pending_action(), PlaybackAction::Finish);
    assert_eq!(playback.as_event(), Some(RoundEvent::PlaybackFinished));
}

#[test]
fn failed_note_on_ends_the_playback() {
    let playback = Playback::start(60, 150).advance(PlaybackEvent::SendFailed);
    assert_eq!(playback.phase, Phase::Failed);
    assert_eq!(
        playback.pending_action(),
        PlaybackAction::Fail { error: GameError::PlaybackError }
    );
    assert_eq!(playback.as_event(), Some(RoundEvent::PlaybackFailed));
}

#[test]
fn failed_note_off_ends_the_playback() {
    let playback = Playback::start(60, 150)
        .advance(PlaybackEvent::Sent)
        .advance(PlaybackEvent::Held)
        .advance(PlaybackEvent::SendFailed);
    assert_eq!(playback.phase, Phase::Failed);
    assert_eq!(playback.as_event(), Some(RoundEvent::PlaybackFailed));
}

#[test]
fn a_playback_that_is_over_stays_as_it_is() {
    let done = Playback::start(60, 150)
        .advance(PlaybackEvent::Sent)
        .advance(PlaybackEvent::Held)
        .advance(PlaybackEvent::Sent);
    assert_eq!(done.advance(PlaybackEvent::Sent), done);
    assert_eq!(done.advance(PlaybackEvent::SendFailed), done);
    assert_eq!(done.advance(PlaybackEvent::Held), done);
    let failed = Playback::start(60, 150).advance(PlaybackEvent::SendFailed);
    assert_eq!(failed.advance(PlaybackEvent::Sent), failed);
    assert_eq!(failed.advance(PlaybackEvent::SendFailed), failed);
    assert_eq!(failed.advance(PlaybackEvent::Held), failed);
}

#[test]
fn playback_reports_out_of_turn_change_nothing() {
    let begun = Playback::start(72, 10);
    assert_eq!(begun.advance(PlaybackEvent::Held), begun);
    let sounding = begun.advance(PlaybackEvent::Sent);
    assert_eq!(sounding.advance(PlaybackEvent::Sent), sounding);
    assert_eq!(sounding.advance(PlaybackEvent::SendFailed), sounding);
    let ending = sounding.advance(PlaybackEvent::Held);
    assert_eq!(ending.advance(PlaybackEvent::Held), ending);
}

#[test]
fn hold_duration_is_passed_through() {
    let playback = Playback::start(40, 0).advance(PlaybackEvent::Sent);
    assert_eq!(playback.pending_action(), PlaybackAction::Hold { ms: 0 });
    let playback = Playback::start(40, u64::MAX).advance(PlaybackEvent::Sent);
    assert_eq!(playback.pending_action(), PlaybackAction::Hold { ms: u64::MAX });
}

#[test]
fn a_message_is_sent_status_first() {
    let message = Message { status: 1, note: 2, velocity: 3 };
    assert_eq!(message.to_bytes(), [1, 2, 3]);
}

#[test]
fn what_the_game_sends_passes_the_input_filter() {
    assert_eq!(guess_note::midi::forwarded_note(&note_on_message(61).to_bytes()), Some(61));
    assert_eq!(guess_note::midi::forwarded_note(&note_off_message(61).to_bytes()), Some(61));
}
