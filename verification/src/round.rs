//! The round engine: one round of the game as a state machine.
//!
//! The engine owns no device and no console. It tells its caller what to do
//! next (`pending_action`), the caller does it and reports what came of it as
//! an event, and `step` moves the round on. An event that the current state
//! does not wait for changes nothing.

use vstd::prelude::*;
use vstd::string::*;
use crate::config::NoteRange;
use crate::console::{confirms, is_confirmation};
use crate::error::GameError;
use crate::note::{note_number_to_sign, note_sign};
use crate::target::{lemma_target_in_range, random_sample, target_for_sample, target_of};

verus! {

/// What a round needs to know of the configuration.
#[derive(Clone, Copy, Debug)]
pub struct RoundSettings {
    /// The notes from which targets are drawn.
    pub range: NoteRange,
    /// Whether the player is asked to confirm each captured note.
    pub interactive: bool,
    /// How long the target sounds, in milliseconds, each time it is played.
    pub hold_ms: u64,
}

/// How a round ended.
#[derive(Clone, Copy, Debug, PartialEq, Eq, Structural)]
pub enum Outcome {
    /// The player played the target.
    Correct { note: u8 },
    /// The player played another note.
    Incorrect { played: u8, expected: u8 },
}

/// Where a round stands.
#[derive(Clone, Copy, Debug, PartialEq, Eq, Structural)]
pub enum RoundState {
    /// A new round: the target has yet to be drawn.
    GeneratingTarget,
    /// The target is sounding for the first time.
    Playing { target: u8 },
    /// The player's next note is awaited.
    AwaitingGuess { target: u8 },
    /// The player is asked whether the captured note is the answer.
    Confirming { target: u8, captured: u8 },
    /// The player declined: the target is sounding again.
    Replaying { target: u8 },
    /// The answer is in and is being reported.
    Resolved { target: u8, captured: u8 },
    /// A fatal error ended the game. No event leads out of this state.
    Failed { error: GameError },
}

/// What the caller reports back to the engine.
#[derive(Clone, Copy, Debug, PartialEq, Eq, Structural)]
pub enum RoundEvent {
    /// Random bits for the target were drawn.
    Sample(u32),
    /// The playback driver played the note to its end.
    PlaybackFinished,
    /// The playback driver could not send to the output device.
    PlaybackFailed,
    /// The event bridge delivered the player's latest note.
    NoteCaptured(u8),
    /// The event bridge has lost its producer.
    ChannelClosed,
    /// The player confirmed the captured note.
    Confirmed,
    /// The player answered anything else.
    Declined,
    /// The outcome was shown to the player.
    OutcomeReported,
}

/// What the engine asks of its caller.
#[derive(Clone, Copy, Debug, PartialEq, Eq, Structural)]
pub enum RoundAction {
    /// Draw random bits and report them as `Sample`.
    DrawSample,
    /// Run the playback driver on `note`, holding it for `hold_ms` milliseconds.
    Play { note: u8, hold_ms: u64 },
    /// Take the latest note from the event bridge, waiting for one if none is queued.
    Capture,
    /// Show `note` to the player and ask for a yes or a no.
    AskConfirmation { note: u8 },
    /// Show the outcome to the player.
    Report { outcome: Outcome },
    /// Stop the game with this error.
    Abort { error: GameError },
}

/// The outcome of a round with the given target and accepted note: correct
/// exactly when the two are the same number.
pub open spec fn verdict(target: u8, captured: u8) -> Outcome {
    if captured == target {
        Outcome::Correct { note: captured }
    } else {
        Outcome::Incorrect { played: captured, expected: target }
    }
}

/// Compares the accepted note with the target.
pub fn judge(target: u8, captured: u8) -> (outcome: Outcome)
    ensures
        outcome == verdict(target, captured),
{
    if captured == target {
        Outcome::Correct { note: captured }
    } else {
        Outcome::Incorrect { played: captured, expected: target }
    }
}

impl Outcome {
    /// The line that reports the outcome.
    pub open spec fn text(self) -> Seq<char> {
        match self {
            Outcome::Correct { .. } => "Correct"@,
            Outcome::Incorrect { played, expected } => "Incorrect, you played "@ + note_sign(
                played as int,
            ) + " but the right one is "@ + note_sign(expected as int),
        }
    }

    /// Renders the outcome for the player, naming both notes where they differ.
    pub fn message(&self) -> (text: String)
        ensures
            text@ == self.text(),
    {
        match self {
            Outcome::Correct { .. } => String::from_str("Correct"),
            Outcome::Incorrect { played, expected } => {
                let mut text = String::from_str("Incorrect, you played ");
                let played_sign = note_number_to_sign(*played);
                text.append(played_sign.as_str());
                text.append(" but the right one is ");
                let expected_sign = note_number_to_sign(*expected);
                text.append(expected_sign.as_str());
                text
            },
        }
    }

    /// Whether the player found the target.
    pub fn is_correct(&self) -> (correct: bool)
        ensures
            correct == (self is Correct),
    {
        match self {
            Outcome::Correct { .. } => true,
            Outcome::Incorrect { .. } => false,
        }
    }
}

/// The question put to the player about a captured note.
pub open spec fn confirmation_text(note: u8) -> Seq<char> {
    "Last played note is "@ + note_sign(note as int) + ". Confirm your guess? y/n"@
}

/// Renders the question put to the player about a captured note.
pub fn confirmation_prompt(note: u8) -> (text: String)
    ensures
        text@ == confirmation_text(note),
{
    let mut text = String::from_str("Last played note is ");
    let sign = note_number_to_sign(note);
    text.append(sign.as_str());
    text.append(". Confirm your guess? y/n");
    text
}

impl RoundState {
    /// The target of the round in progress, once it is drawn.
    pub open spec fn target(self) -> Option<u8> {
        match self {
            RoundState::GeneratingTarget => None,
            RoundState::Playing { target } => Some(target),
            RoundState::AwaitingGuess { target } => Some(target),
            RoundState::Confirming { target, .. } => Some(target),
            RoundState::Replaying { target } => Some(target),
            RoundState::Resolved { target, .. } => Some(target),
            RoundState::Failed { .. } => None,
        }
    }

    /// The target of the round in progress, if there is one, is a note that
    /// the range can produce.
    pub open spec fn target_within(self, range: NoteRange) -> bool {
        self.target() matches Some(target) ==> range.holds(target as int)
    }
}

/// The state that follows `state` on `event`.
pub open spec fn next_state(settings: RoundSettings, state: RoundState, event: RoundEvent)
    -> RoundState {
    match (state, event) {
        (RoundState::GeneratingTarget, RoundEvent::Sample(sample)) => RoundState::Playing {
            target: target_of(settings.range, sample) as u8,
        },
        (RoundState::Playing { target }, RoundEvent::PlaybackFinished) => RoundState::AwaitingGuess {
            target,
        },
        (RoundState::Playing { .. }, RoundEvent::PlaybackFailed) => RoundState::Failed {
            error: GameError::PlaybackError,
        },
        (RoundState::AwaitingGuess { target }, RoundEvent::NoteCaptured(captured)) => {
            if settings.interactive {
                RoundState::Confirming { target, captured }
            } else {
                RoundState::Resolved { target, captured }
            }
        },
        (RoundState::AwaitingGuess { .. }, RoundEvent::ChannelClosed) => RoundState::Failed {
            error: GameError::ChannelClosed,
        },
        (RoundState::Confirming { target, captured }, RoundEvent::Confirmed) => RoundState::Resolved {
            target,
            captured,
        },
        (RoundState::Confirming { target, .. }, RoundEvent::Declined) => RoundState::Replaying {
            target,
        },
        (RoundState::Replaying { target }, RoundEvent::PlaybackFinished) => RoundState::AwaitingGuess {
            target,
        },
        (RoundState::Replaying { .. }, RoundEvent::PlaybackFailed) => RoundState::Failed {
            error: GameError::PlaybackError,
        },
        (RoundState::Resolved { .. }, RoundEvent::OutcomeReported) => RoundState::GeneratingTarget,
        _ => state,
    }
}

/// What the caller has to do while the round is in `state`.
pub open spec fn action_of(settings: RoundSettings, state: RoundState) -> RoundAction {
    match state {
        RoundState::GeneratingTarget => RoundAction::DrawSample,
        RoundState::Playing { target } => RoundAction::Play { note: target, hold_ms: settings.hold_ms },
        RoundState::AwaitingGuess { .. } => RoundAction::Capture,
        RoundState::Confirming { captured, .. } => RoundAction::AskConfirmation { note: captured },
        RoundState::Replaying { target } => RoundAction::Play {
            note: target,
            hold_ms: settings.hold_ms,
        },
        RoundState::Resolved { target, captured } => RoundAction::Report {
            outcome: verdict(target, captured),
        },
        RoundState::Failed { error } => RoundAction::Abort { error },
    }
}

/// The state in which every game starts.
pub fn first_state() -> (state: RoundState)
    ensures
        state == RoundState::GeneratingTarget,
{
    RoundState::GeneratingTarget
}

/// Moves the round on by one event.
pub fn step(settings: &RoundSettings, state: RoundState, event: RoundEvent) -> (next: RoundState)
    ensures
        next == next_state(*settings, state, event),
{
    match state {
        RoundState::GeneratingTarget => match event {
            RoundEvent::Sample(sample) => RoundState::Playing {
                target: target_for_sample(&settings.range, sample),
            },
            _ => state,
        },
        RoundState::Playing { target } => match event {
            RoundEvent::PlaybackFinished => RoundState::AwaitingGuess { target },
            RoundEvent::PlaybackFailed => RoundState::Failed { error: GameError::PlaybackError },
            _ => state,
        },
        RoundState::AwaitingGuess { target } => match event {
            RoundEvent::NoteCaptured(captured) => {
                if settings.interactive {
                    RoundState::Confirming { target, captured }
                } else {
                    RoundState::Resolved { target, captured }
                }
            },
            RoundEvent::ChannelClosed => RoundState::Failed { error: GameError::ChannelClosed },
            _ => state,
        },
        RoundState::Confirming { target, captured } => match event {
            RoundEvent::Confirmed => RoundState::Resolved { target, captured },
            RoundEvent::Declined => RoundState::Replaying { target },
            _ => state,
        },
        RoundState::Replaying { target } => match event {
            RoundEvent::PlaybackFinished => RoundState::AwaitingGuess { target },
            RoundEvent::PlaybackFailed => RoundState::Failed { error: GameError::PlaybackError },
            _ => state,
        },
        RoundState::Resolved { .. } => match event {
            RoundEvent::OutcomeReported => RoundState::GeneratingTarget,
            _ => state,
        },
        RoundState::Failed { .. } => state,
    }
}

/// Says what the caller has to do next.
pub fn pending_action(settings: &RoundSettings, state: &RoundState) -> (action: RoundAction)
    ensures
        action == action_of(*settings, *state),
{
    match state {
        RoundState::GeneratingTarget => RoundAction::DrawSample,
        RoundState::Playing { target } => RoundAction::Play {
            note: *target,
            hold_ms: settings.hold_ms,
        },
        RoundState::AwaitingGuess { .. } => RoundAction::Capture,
        RoundState::Confirming { captured, .. } => RoundAction::AskConfirmation { note: *captured },
        RoundState::Replaying { target } => RoundAction::Play {
            note: *target,
            hold_ms: settings.hold_ms,
        },
        RoundState::Resolved { target, captured } => RoundAction::Report {
            outcome: judge(*target, *captured),
        },
        RoundState::Failed { error } => RoundAction::Abort { error: *error },
    }
}

/// Carries out `DrawSample`: draws random bits for the next target. Which
/// bits come back is open; `step` is verified for every sample.
pub fn draw_sample() -> (event: RoundEvent)
    ensures
        event is Sample,
{
    RoundEvent::Sample(random_sample())
}

/// The event that the player's answer to `AskConfirmation` is.
pub open spec fn answered(line: Seq<char>) -> RoundEvent {
    if confirms(line) {
        RoundEvent::Confirmed
    } else {
        RoundEvent::Declined
    }
}

/// Reads the player's answer to `AskConfirmation`: `y` confirms, and every
/// other line declines.
pub fn answer_event(line: &str) -> (event: RoundEvent)
    ensures
        event == answered(line@),
{
    if is_confirmation(line) {
        RoundEvent::Confirmed
    } else {
        RoundEvent::Declined
    }
}

/// The state reached from `state` after the events in order.
pub open spec fn run(settings: RoundSettings, state: RoundState, events: Seq<RoundEvent>)
    -> RoundState
    decreases events.len(),
{
    if events.len() == 0 {
        state
    } else {
        run(settings, next_state(settings, state, events[0]), events.drop_first())
    }
}

/// How often the playback driver is invoked while the events come in. Each
/// event answers the action of the state it arrives in, so the driver runs
/// once for every event that arrives in a state whose action is `Play`.
pub open spec fn playbacks(settings: RoundSettings, state: RoundState, events: Seq<RoundEvent>)
    -> nat
    decreases events.len(),
{
    if events.len() == 0 {
        0
    } else {
        let here: nat = if action_of(settings, state) is Play {
            1
        } else {
            0
        };
        here + playbacks(settings, next_state(settings, state, events[0]), events.drop_first())
    }
}

/// The events of a player who declines: for each note in turn the player
/// says no, the target is replayed to its end, and that note is captured.
pub open spec fn declined_attempts(notes: Seq<u8>) -> Seq<RoundEvent>
    decreases notes.len(),
{
    if notes.len() == 0 {
        Seq::empty()
    } else {
        seq![RoundEvent::Declined, RoundEvent::PlaybackFinished, RoundEvent::NoteCaptured(notes[0])]
            + declined_attempts(notes.drop_first())
    }
}

/// A step never moves the target out of the range, and a round keeps the
/// target it was given until its outcome has been reported.
pub proof fn lemma_step_keeps_target(settings: RoundSettings, state: RoundState, event: RoundEvent)
    requires
        settings.range.wf(),
        state.target_within(settings.range),
    ensures
        next_state(settings, state, event).target_within(settings.range),
        state.target() is Some && !(state is Resolved) && !(next_state(settings, state, event)
            is Failed) ==> next_state(settings, state, event).target() == state.target(),
{
    if let RoundEvent::Sample(sample) = event {
        lemma_target_in_range(settings.range, sample);
    }
}

/// Whatever the events, the round in progress has a target that the range can
/// produce.
pub proof fn lemma_run_keeps_target(
    settings: RoundSettings,
    state: RoundState,
    events: Seq<RoundEvent>,
)
    requires
        settings.range.wf(),
        state.target_within(settings.range),
    ensures
        run(settings, state, events).target_within(settings.range),
    decreases events.len(),
{
    if events.len() > 0 {
        lemma_step_keeps_target(settings, state, events[0]);
        lemma_run_keeps_target(
            settings,
            next_state(settings, state, events[0]),
            events.drop_first(),
        );
    }
}

/// A game that has failed stays failed with the same error: no fatal error is
/// retried or forgotten, whatever is reported afterwards.
pub proof fn lemma_failure_is_final(
    settings: RoundSettings,
    error: GameError,
    events: Seq<RoundEvent>,
)
    ensures
        run(settings, RoundState::Failed { error }, events) == (RoundState::Failed { error }),
        playbacks(settings, RoundState::Failed { error }, events) == 0,
    decreases events.len(),
{
    if events.len() > 0 {
        lemma_failure_is_final(settings, error, events.drop_first());
    }
}

/// Running two runs of events one after the other is running them joined.
pub proof fn lemma_run_joined(
    settings: RoundSettings,
    state: RoundState,
    first: Seq<RoundEvent>,
    second: Seq<RoundEvent>,
)
    ensures
        run(settings, state, first + second) == run(settings, run(settings, state, first), second),
        playbacks(settings, state, first + second) == playbacks(settings, state, first)
            + playbacks(settings, run(settings, state, first), second),
    decreases first.len(),
{
    if first.len() == 0 {
        assert(first + second =~= second);
    } else {
        assert((first + second).drop_first() =~= first.drop_first() + second);
        lemma_run_joined(
            settings,
            next_state(settings, state, first[0]),
            first.drop_first(),
            second,
        );
    }
}

/// Without confirmation a round is decided by the first captured note: it
/// resolves at once, correct if and only if that note is the target, and
/// otherwise reports both notes by name.
pub proof fn lemma_direct_round(settings: RoundSettings, target: u8, captured: u8)
    requires
        !settings.interactive,
    ensures
        next_state(
            settings,
            RoundState::AwaitingGuess { target },
            RoundEvent::NoteCaptured(captured),
        ) == (RoundState::Resolved { target, captured }),
        action_of(settings, RoundState::Resolved { target, captured }) == (RoundAction::Report {
            outcome: verdict(target, captured),
        }),
        verdict(target, captured) is Correct <==> captured == target,
        captured != target ==> verdict(target, captured) == (Outcome::Incorrect {
            played: captured,
            expected: target,
        }),
        captured != target ==> verdict(target, captured).text() == "Incorrect, you played "@
            + note_sign(captured as int) + " but the right one is "@ + note_sign(target as int),
{
}

/// A whole round without confirmation: one sample, one playback, one captured
/// note, and the round is resolved on that note.
pub proof fn lemma_direct_round_run(settings: RoundSettings, sample: u32, captured: u8)
    requires
        settings.range.wf(),
        !settings.interactive,
    ensures
        run(
            settings,
            RoundState::GeneratingTarget,
            seq![
                RoundEvent::Sample(sample),
                RoundEvent::PlaybackFinished,
                RoundEvent::NoteCaptured(captured),
            ],
        ) == (RoundState::Resolved { target: target_of(settings.range, sample) as u8, captured }),
        playbacks(
            settings,
            RoundState::GeneratingTarget,
            seq![
                RoundEvent::Sample(sample),
                RoundEvent::PlaybackFinished,
                RoundEvent::NoteCaptured(captured),
            ],
        ) == 1,
{
    let events = seq![
        RoundEvent::Sample(sample),
        RoundEvent::PlaybackFinished,
        RoundEvent::NoteCaptured(captured),
    ];
    let after_sample = events.drop_first();
    let after_playback = after_sample.drop_first();
    assert(after_playback.drop_first().len() == 0);
    reveal_with_fuel(run, 4);
    reveal_with_fuel(playbacks, 4);
}

/// With confirmation, a player who declines any number of times and then
/// confirms has the target replayed exactly once for each refusal, and the
/// round resolves on the note captured last, whatever was captured before.
pub proof fn lemma_confirmation_retries(
    settings: RoundSettings,
    target: u8,
    first: u8,
    notes: Seq<u8>,
)
    requires
        settings.interactive,
    ensures
        run(
            settings,
            RoundState::Confirming { target, captured: first },
            declined_attempts(notes) + seq![RoundEvent::Confirmed],
        ) == (RoundState::Resolved {
            target,
            captured: if notes.len() == 0 {
                first
            } else {
                notes.last()
            },
        }),
        playbacks(
            settings,
            RoundState::Confirming { target, captured: first },
            declined_attempts(notes) + seq![RoundEvent::Confirmed],
        ) == notes.len(),
    decreases notes.len(),
{
    let asked = RoundState::Confirming { target, captured: first };
    let confirmed = seq![RoundEvent::Confirmed];
    if notes.len() == 0 {
        assert(declined_attempts(notes) + confirmed =~= confirmed);
        assert(confirmed.drop_first().len() == 0);
        reveal_with_fuel(run, 2);
        reveal_with_fuel(playbacks, 2);
    } else {
        let attempt = seq![
            RoundEvent::Declined,
            RoundEvent::PlaybackFinished,
            RoundEvent::NoteCaptured(notes[0]),
        ];
        let rest = notes.drop_first();
        let asked_again = RoundState::Confirming { target, captured: notes[0] };
        assert(declined_attempts(notes) + confirmed =~= attempt + (declined_attempts(rest)
            + confirmed));
        assert(run(settings, asked, attempt) == asked_again && playbacks(settings, asked, attempt)
            == 1) by {
            assert(attempt.drop_first().drop_first().drop_first().len() == 0);
            reveal_with_fuel(run, 4);
            reveal_with_fuel(playbacks, 4);
        }
        lemma_run_joined(settings, asked, attempt, declined_attempts(rest) + confirmed);
        lemma_confirmation_retries(settings, target, notes[0], rest);
        if rest.len() > 0 {
            assert(rest.last() == notes.last());
        }
    }
}

} // verus!
