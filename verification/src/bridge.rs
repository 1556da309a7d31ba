//! The event bridge: the queue between the MIDI input and the game.
//!
//! The producer pushes the notes that the player plays, in the order in which
//! the device reports them. The game captures the latest of them: whatever was
//! played before it, while the player was reading or thinking, is dropped with
//! that capture and never answers a later one.

use vstd::prelude::*;
use crate::midi::{forwarded, forwarded_note};
use crate::round::RoundEvent;

verus! {

/// What a capture finds.
#[derive(Clone, Copy, Debug, PartialEq, Eq, Structural)]
pub enum Capture {
    /// The note played last.
    Note(u8),
    /// Nothing is queued: the game has to wait until the producer pushes.
    Wait,
    /// Nothing is queued and the producer is gone, so nothing will come.
    Closed,
}

/// The bridge as contracts see it.
pub struct BridgeModel {
    /// The notes that were pushed and not yet captured, oldest first.
    pub pending: Seq<u8>,
    /// Whether the producer is still there.
    pub connected: bool,
}

impl BridgeModel {
    /// A bridge with nothing queued, its producer in place.
    pub open spec fn fresh() -> BridgeModel {
        BridgeModel { pending: Seq::empty(), connected: true }
    }

    /// The bridge after the producer pushed `note`.
    pub open spec fn push(self, note: u8) -> BridgeModel {
        BridgeModel { pending: self.pending.push(note), connected: self.connected }
    }

    /// The bridge after the producer pushed `notes`, one after the other.
    pub open spec fn push_all(self, notes: Seq<u8>) -> BridgeModel
        decreases notes.len(),
    {
        if notes.len() == 0 {
            self
        } else {
            self.push(notes[0]).push_all(notes.drop_first())
        }
    }

    /// The bridge after the producer saw `message`: the note it brings is
    /// pushed, and a message that brings none leaves no trace.
    pub open spec fn offer(self, message: Seq<u8>) -> BridgeModel {
        match forwarded(message) {
            Some(note) => self.push(note),
            None => self,
        }
    }

    /// The bridge after the producer went away. What is queued stays.
    pub open spec fn disconnect(self) -> BridgeModel {
        BridgeModel { pending: self.pending, connected: false }
    }

    /// What a capture finds.
    pub open spec fn found(self) -> Capture {
        if self.pending.len() > 0 {
            Capture::Note(self.pending.last())
        } else if self.connected {
            Capture::Wait
        } else {
            Capture::Closed
        }
    }

    /// The bridge after a capture: nothing is queued any more.
    pub open spec fn drained(self) -> BridgeModel {
        BridgeModel { pending: Seq::empty(), connected: self.connected }
    }
}

/// The consumer's end of the bridge.
pub struct EventBridge {
    queued: Vec<u8>,
    connected: bool,
}

impl View for EventBridge {
    type V = BridgeModel;

    closed spec fn view(&self) -> BridgeModel {
        BridgeModel { pending: self.queued@, connected: self.connected }
    }
}

impl EventBridge {
    /// Makes a bridge with nothing queued.
    pub fn new() -> (bridge: EventBridge)
        ensures
            bridge@ == BridgeModel::fresh(),
    {
        EventBridge { queued: Vec::new(), connected: true }
    }

    /// Queues a note behind those already waiting.
    pub fn push(&mut self, note: u8)
        ensures
            final(self)@ == old(self)@.push(note),
    {
        self.queued.push(note);
    }

    /// Takes one raw message from the device and queues the note it brings,
    /// if it brings one. Says whether it did.
    pub fn offer(&mut self, message: &[u8]) -> (queued: bool)
        ensures
            final(self)@ == old(self)@.offer(message@),
            queued == forwarded(message@).is_some(),
    {
        match forwarded_note(message) {
            Some(note) => {
                self.queued.push(note);
                true
            },
            None => false,
        }
    }

    /// Records that the producer is gone.
    pub fn disconnect(&mut self)
        ensures
            final(self)@ == old(self)@.disconnect(),
    {
        self.connected = false;
    }

    /// Takes the latest note and drops the older ones. With nothing queued it
    /// says whether waiting can help: `Wait` while the producer is there,
    /// `Closed` once it is gone.
    pub fn capture_latest(&mut self) -> (capture: Capture)
        ensures
            capture == old(self)@.found(),
            final(self)@ == old(self)@.drained(),
    {
        let len = self.queued.len();
        if len > 0 {
            let note = self.queued[len - 1];
            self.queued.clear();
            Capture::Note(note)
        } else if self.connected {
            assert(self.queued@ =~= Seq::<u8>::empty());
            Capture::Wait
        } else {
            assert(self.queued@ =~= Seq::<u8>::empty());
            Capture::Closed
        }
    }

    /// How many notes are waiting.
    pub fn queued_len(&self) -> (len: usize)
        ensures
            len == self@.pending.len(),
    {
        self.queued.len()
    }
}

impl Capture {
    /// The event that a capture is to the round engine. A capture that has to
    /// wait is no event yet.
    pub open spec fn event(self) -> Option<RoundEvent> {
        match self {
            Capture::Note(note) => Some(RoundEvent::NoteCaptured(note)),
            Capture::Wait => None,
            Capture::Closed => Some(RoundEvent::ChannelClosed),
        }
    }

    /// Turns the capture into the event for the round engine.
    pub fn as_event(&self) -> (event: Option<RoundEvent>)
        ensures
            event == self.event(),
    {
        match self {
            Capture::Note(note) => Some(RoundEvent::NoteCaptured(*note)),
            Capture::Wait => None,
            Capture::Closed => Some(RoundEvent::ChannelClosed),
        }
    }
}

/// Pushing notes one after the other queues them in that order, behind what
/// was queued before.
pub proof fn lemma_push_all_appends(bridge: BridgeModel, notes: Seq<u8>)
    ensures
        bridge.push_all(notes).pending == bridge.pending + notes,
        bridge.push_all(notes).connected == bridge.connected,
    decreases notes.len(),
{
    if notes.len() == 0 {
        assert(bridge.pending + notes =~= bridge.pending);
    } else {
        lemma_push_all_appends(bridge.push(notes[0]), notes.drop_first());
        assert(bridge.pending.push(notes[0]) + notes.drop_first() =~= bridge.pending + notes);
    }
}

/// After any number of pushes, one capture finds exactly the note pushed
/// last, whatever was queued before. A second capture with no push in between
/// does not find that note again: it finds nothing, and has to wait for the
/// producer.
pub proof fn lemma_capture_finds_last_pushed(bridge: BridgeModel, notes: Seq<u8>)
    requires
        notes.len() > 0,
    ensures
        bridge.push_all(notes).found() == Capture::Note(notes.last()),
        bridge.push_all(notes).drained().pending.len() == 0,
        bridge.connected ==> bridge.push_all(notes).drained().found() == Capture::Wait,
        !bridge.connected ==> bridge.push_all(notes).drained().found() == Capture::Closed,
{
    lemma_push_all_appends(bridge, notes);
}

/// A capture that had to wait finds the note that ends the wait: after a
/// capture, the first note pushed is what the next capture finds.
pub proof fn lemma_capture_after_wait(bridge: BridgeModel, note: u8)
    ensures
        bridge.drained().push(note).found() == Capture::Note(note),
{
}

} // verus!
