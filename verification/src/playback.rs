//! The playback driver: sounding one note for a given time.
//!
//! A playback is three things in order: the message that starts the note, a
//! pause while it sounds, and the message that ends it. The driver sends
//! nothing itself. It says what is due, the caller sends or sleeps and reports
//! back, and a message that cannot be sent ends the playback there.

use vstd::prelude::*;
use crate::error::GameError;
use crate::midi::{note_off_message, note_on_message, Message};
use crate::round::RoundEvent;

verus! {

/// How far a playback has come.
#[derive(Clone, Copy, Debug, PartialEq, Eq, Structural)]
pub enum Phase {
    /// The note has yet to be started.
    Striking,
    /// The note is sounding.
    Holding,
    /// The note has yet to be ended.
    Releasing,
    /// The note was started, held and ended.
    Finished,
    /// A message could not be sent.
    Failed,
}

/// One playback of one note.
#[derive(Clone, Copy, Debug, PartialEq, Eq, Structural)]
pub struct Playback {
    /// The note that is played.
    pub note: u8,
    /// How long it sounds, in milliseconds.
    pub hold_ms: u64,
    /// How far the playback has come.
    pub phase: Phase,
}

/// What the caller reports back to the driver.
#[derive(Clone, Copy, Debug, PartialEq, Eq, Structural)]
pub enum PlaybackEvent {
    /// The output device took the message.
    Sent,
    /// The output device refused the message, or is gone.
    SendFailed,
    /// The pause is over.
    Held,
}

/// What the driver asks of its caller.
#[derive(Clone, Copy, Debug, PartialEq, Eq, Structural)]
pub enum PlaybackAction {
    /// Send this message to the output device.
    Send { message: Message },
    /// Let this many milliseconds pass.
    Hold { ms: u64 },
    /// Nothing more: the playback is complete.
    Finish,
    /// Nothing more: the playback failed with this error.
    Fail { error: GameError },
}

impl Playback {
    /// A playback that has not begun.
    pub open spec fn started(note: u8, hold_ms: u64) -> Playback {
        Playback { note, hold_ms, phase: Phase::Striking }
    }

    /// The playback after `event`. An event that the phase does not wait for
    /// changes nothing, and nothing leads out of `Finished` or `Failed`.
    pub open spec fn after(self, event: PlaybackEvent) -> Playback {
        let phase = match (self.phase, event) {
            (Phase::Striking, PlaybackEvent::Sent) => Phase::Holding,
            (Phase::Striking, PlaybackEvent::SendFailed) => Phase::Failed,
            (Phase::Holding, PlaybackEvent::Held) => Phase::Releasing,
            (Phase::Releasing, PlaybackEvent::Sent) => Phase::Finished,
            (Phase::Releasing, PlaybackEvent::SendFailed) => Phase::Failed,
            _ => self.phase,
        };
        Playback { note: self.note, hold_ms: self.hold_ms, phase }
    }

    /// What the caller has to do at this point of the playback.
    pub open spec fn action(self) -> PlaybackAction {
        match self.phase {
            Phase::Striking => PlaybackAction::Send { message: Message::note_on(self.note) },
            Phase::Holding => PlaybackAction::Hold { ms: self.hold_ms },
            Phase::Releasing => PlaybackAction::Send { message: Message::note_off(self.note) },
            Phase::Finished => PlaybackAction::Finish,
            Phase::Failed => PlaybackAction::Fail { error: GameError::PlaybackError },
        }
    }

    /// What the playback is to the round engine once it is over.
    pub open spec fn event(self) -> Option<RoundEvent> {
        match self.phase {
            Phase::Finished => Some(RoundEvent::PlaybackFinished),
            Phase::Failed => Some(RoundEvent::PlaybackFailed),
            _ => None,
        }
    }

    /// Begins the playback of `note`.
    pub fn start(note: u8, hold_ms: u64) -> (playback: Playback)
        ensures
            playback == Playback::started(note, hold_ms),
    {
        Playback { note, hold_ms, phase: Phase::Striking }
    }

    /// Moves the playback on by one event.
    pub fn advance(self, event: PlaybackEvent) -> (next: Playback)
        ensures
            next == self.after(event),
    {
        let phase = match self.phase {
            Phase::Striking => match event {
                PlaybackEvent::Sent => Phase::Holding,
                PlaybackEvent::SendFailed => Phase::Failed,
                PlaybackEvent::Held => Phase::Striking,
            },
            Phase::Holding => match event {
                PlaybackEvent::Held => Phase::Releasing,
                _ => Phase::Holding,
            },
            Phase::Releasing => match event {
                PlaybackEvent::Sent => Phase::Finished,
                PlaybackEvent::SendFailed => Phase::Failed,
                PlaybackEvent::Held => Phase::Releasing,
            },
            Phase::Finished => Phase::Finished,
            Phase::Failed => Phase::Failed,
        };
        Playback { note: self.note, hold_ms: self.hold_ms, phase }
    }

    /// Says what the caller has to do next.
    pub fn pending_action(&self) -> (action: PlaybackAction)
        ensures
            action == self.action(),
    {
        match self.phase {
            Phase::Striking => PlaybackAction::Send { message: note_on_message(self.note) },
            Phase::Holding => PlaybackAction::Hold { ms: self.hold_ms },
            Phase::Releasing => PlaybackAction::Send { message: note_off_message(self.note) },
            Phase::Finished => PlaybackAction::Finish,
            Phase::Failed => PlaybackAction::Fail { error: GameError::PlaybackError },
        }
    }

    /// Turns a playback that is over into the event for the round engine.
    pub fn as_event(&self) -> (event: Option<RoundEvent>)
        ensures
            event == self.event(),
    {
        match self.phase {
            Phase::Finished => Some(RoundEvent::PlaybackFinished),
            Phase::Failed => Some(RoundEvent::PlaybackFailed),
            _ => None,
        }
    }
}

/// A playback in which every message is sent starts the note, holds it for
/// the given time, ends the same note, and finishes. One in which a message is
/// refused fails at that message, so that a note that could not be started is
/// neither held nor ended.
pub proof fn lemma_playback_course(note: u8, hold_ms: u64)
    ensures
        ({
            let begun = Playback::started(note, hold_ms);
            let sounding = begun.after(PlaybackEvent::Sent);
            let ending = sounding.after(PlaybackEvent::Held);
            let done = ending.after(PlaybackEvent::Sent);
            &&& begun.action() == (PlaybackAction::Send { message: Message::note_on(note) })
            &&& sounding.action() == (PlaybackAction::Hold { ms: hold_ms })
            &&& ending.action() == (PlaybackAction::Send { message: Message::note_off(note) })
            &&& done.action() == PlaybackAction::Finish
            &&& done.event() == Some(RoundEvent::PlaybackFinished)
            &&& begun.after(PlaybackEvent::SendFailed).action() == (PlaybackAction::Fail {
                error: GameError::PlaybackError,
            })
            &&& begun.after(PlaybackEvent::SendFailed).event() == Some(RoundEvent::PlaybackFailed)
            &&& ending.after(PlaybackEvent::SendFailed).action() == (PlaybackAction::Fail {
                error: GameError::PlaybackError,
            })
            &&& ending.after(PlaybackEvent::SendFailed).event() == Some(RoundEvent::PlaybackFailed)
        }),
{
}

/// A playback that is over stays as it is, whatever is reported to it.
pub proof fn lemma_playback_settled(playback: Playback, event: PlaybackEvent)
    requires
        playback.event() is Some,
    ensures
        playback.after(event) == playback,
{
}

} // verus!
