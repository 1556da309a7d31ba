//! The MIDI messages that the game reads and writes. A message is three
//! bytes: the status, the number of the note, and the velocity.

use vstd::prelude::*;

verus! {

/// Status byte of a message that starts a note.
pub const NOTE_ON: u8 = 0x90;

/// Status byte of a message that ends a note.
pub const NOTE_OFF: u8 = 0x80;

/// The velocity with which the game plays every note.
pub const VELOCITY: u8 = 0x40;

/// The note that an incoming message brings to the game, if it brings one.
///
/// Only a message of three bytes that starts or ends a note, with a velocity
/// other than zero, is a note played; its second byte is the note. A message
/// with velocity zero is the release of a key on devices that send releases
/// that way, and everything else (controllers, clock) is of no interest.
pub open spec fn forwarded(message: Seq<u8>) -> Option<u8> {
    if message.len() == 3 && (message[0] == NOTE_ON || message[0] == NOTE_OFF) && message[2] != 0 {
        Some(message[1])
    } else {
        None
    }
}

/// A message of three bytes, as the game sends it.
#[derive(Clone, Copy, Debug, PartialEq, Eq, Structural)]
pub struct Message {
    /// What the message does: `NOTE_ON` or `NOTE_OFF`.
    pub status: u8,
    /// The number of the note.
    pub note: u8,
    /// How hard the key is struck or released.
    pub velocity: u8,
}

impl Message {
    /// The message that starts `note`, at the fixed velocity.
    pub open spec fn note_on(note: u8) -> Message {
        Message { status: NOTE_ON, note, velocity: VELOCITY }
    }

    /// The message that ends `note`.
    pub open spec fn note_off(note: u8) -> Message {
        Message { status: NOTE_OFF, note, velocity: VELOCITY }
    }

    /// The bytes of the message in the order in which they are sent.
    pub open spec fn wire(self) -> Seq<u8> {
        seq![self.status, self.note, self.velocity]
    }

    /// Lays the message out for sending.
    pub fn to_bytes(&self) -> (bytes: [u8; 3])
        ensures
            bytes@ == self.wire(),
    {
        let bytes = [self.status, self.note, self.velocity];
        assert(bytes@ =~= self.wire());
        bytes
    }
}

/// Filters one incoming message: hands back the note it brings, or nothing
/// where the message is to be dropped.
pub fn forwarded_note(message: &[u8]) -> (note: Option<u8>)
    ensures
        note == forwarded(message@),
{
    if message.len() == 3 && (message[0] == NOTE_ON || message[0] == NOTE_OFF) && message[2] != 0 {
        Some(message[1])
    } else {
        None
    }
}

/// Builds the message that starts `note`.
pub fn note_on_message(note: u8) -> (message: Message)
    ensures
        message == Message::note_on(note),
{
    Message { status: NOTE_ON, note, velocity: VELOCITY }
}

/// Builds the message that ends `note`.
pub fn note_off_message(note: u8) -> (message: Message)
    ensures
        message == Message::note_off(note),
{
    Message { status: NOTE_OFF, note, velocity: VELOCITY }
}

/// A message that the game sends is a note played to whoever receives it:
/// read back through the input filter, it brings the note it was built for.
pub proof fn lemma_sent_notes_are_forwarded(note: u8)
    ensures
        forwarded(Message::note_on(note).wire()) == Some(note),
        forwarded(Message::note_off(note).wire()) == Some(note),
{
}

} // verus!
