//! Setting the game up: the options, and the choice of the MIDI port.
//!
//! The options are checked before anything else happens, so that a game with
//! an empty note range ends before a device is touched. Then the ports are
//! listed, and the port is either the configured one or the one that the
//! player types in.

use vstd::prelude::*;
use crate::config::{DEFAULT_MAX_NOTE, DEFAULT_MIN_NOTE, DEFAULT_PLAY_DURATION_MS, NoteRange};
use crate::console::{parse_port_number, port_selection};
use crate::error::{DeviceFault, GameError};
use crate::round::RoundSettings;

verus! {

/// The options of the game.
#[derive(Clone, Copy, Debug, PartialEq, Eq, Structural)]
pub struct Settings {
    /// Index of the MIDI port to use. Without it the player is asked.
    pub port_no: Option<usize>,
    /// Whether captured notes are taken as answers without asking.
    pub non_interactive: bool,
    /// Lowest note to draw.
    pub min_note: u8,
    /// Upper bound of the notes to draw.
    pub max_note: u8,
    /// How long the target sounds, in milliseconds.
    pub guess_play_duration_ms: u64,
}

impl Default for Settings {
    /// The options of a game started without any: the player is asked for the
    /// port and for confirmation, and targets are drawn from 36 up to 96 and
    /// sound for 150 milliseconds.
    fn default() -> (settings: Settings)
        ensures
            settings == (Settings {
                port_no: None,
                non_interactive: false,
                min_note: DEFAULT_MIN_NOTE,
                max_note: DEFAULT_MAX_NOTE,
                guess_play_duration_ms: DEFAULT_PLAY_DURATION_MS,
            }),
    {
        Settings {
            port_no: None,
            non_interactive: false,
            min_note: DEFAULT_MIN_NOTE,
            max_note: DEFAULT_MAX_NOTE,
            guess_play_duration_ms: DEFAULT_PLAY_DURATION_MS,
        }
    }
}

impl Settings {
    /// Whether the note range is in order.
    pub open spec fn valid(self) -> bool {
        self.min_note <= self.max_note
    }

    /// Checks the options and hands out what the round engine needs of them.
    /// Options with an empty note range are refused.
    pub fn round_settings(&self) -> (checked: Result<RoundSettings, GameError>)
        ensures
            self.valid() ==> checked is Ok && checked->Ok_0.range.min() == self.min_note
                && checked->Ok_0.range.max() == self.max_note && checked->Ok_0.interactive
                == !self.non_interactive && checked->Ok_0.hold_ms == self.guess_play_duration_ms,
            !self.valid() ==> checked == Err::<RoundSettings, GameError>(
                GameError::ConfigurationError,
            ),
    {
        match NoteRange::new(self.min_note, self.max_note) {
            Ok(range) => Ok(
                RoundSettings {
                    range,
                    interactive: !self.non_interactive,
                    hold_ms: self.guess_play_duration_ms,
                },
            ),
            Err(_) => Err(GameError::ConfigurationError),
        }
    }
}

/// Where the setup stands.
#[derive(Clone, Copy, Debug, PartialEq, Eq, Structural)]
pub enum StartupState {
    /// The options are in order; the ports have yet to be listed.
    Opening,
    /// The player is asked which of the listed ports to use.
    Selecting { outputs: usize, inputs: usize },
    /// The port is chosen: the game can connect to it and begin.
    Ready { port: usize },
    /// The setup failed. No event leads out of this state.
    Failed { error: GameError },
}

/// What the caller reports back during setup.
#[derive(Clone, Copy, Debug, PartialEq, Eq, Structural)]
pub enum StartupEvent {
    /// The MIDI system was opened; it lists this many output and input ports.
    PortsListed { outputs: usize, inputs: usize },
    /// The player typed this number.
    PortEntered { port: usize },
    /// The player typed something that is no number.
    PortUnreadable,
}

/// What the setup asks of its caller.
#[derive(Clone, Copy, Debug, PartialEq, Eq, Structural)]
pub enum StartupAction {
    /// Open the MIDI system and report how many ports it lists.
    ListPorts,
    /// Show the ports to the player and read the answer.
    AskPort,
    /// Connect the input and the output at this index and begin to play.
    Connect { port: usize },
    /// Stop with this error.
    Abort { error: GameError },
}

/// Whether `port` is the index of a port on both sides.
pub open spec fn port_exists(port: usize, outputs: usize, inputs: usize) -> bool {
    port < outputs && port < inputs
}

/// The state that follows from choosing `port` among the listed ports.
pub open spec fn chosen(port: usize, outputs: usize, inputs: usize) -> StartupState {
    if port_exists(port, outputs, inputs) {
        StartupState::Ready { port }
    } else {
        StartupState::Failed { error: GameError::DeviceError(DeviceFault::InvalidPort) }
    }
}

/// The state in which the setup begins: it has failed already where the
/// options are not in order.
pub open spec fn entry(settings: Settings) -> StartupState {
    if settings.valid() {
        StartupState::Opening
    } else {
        StartupState::Failed { error: GameError::ConfigurationError }
    }
}

/// The state that follows `state` on `event`.
pub open spec fn next_state(settings: Settings, state: StartupState, event: StartupEvent)
    -> StartupState {
    match (state, event) {
        (StartupState::Opening, StartupEvent::PortsListed { outputs, inputs }) => {
            match settings.port_no {
                Some(port) => chosen(port, outputs, inputs),
                None => if outputs == 0 {
                    StartupState::Failed { error: GameError::DeviceError(DeviceFault::NoPorts) }
                } else {
                    StartupState::Selecting { outputs, inputs }
                },
            }
        },
        (StartupState::Selecting { outputs, inputs }, StartupEvent::PortEntered { port }) => chosen(
            port,
            outputs,
            inputs,
        ),
        (StartupState::Selecting { .. }, StartupEvent::PortUnreadable) => StartupState::Failed {
            error: GameError::InputParseError,
        },
        _ => state,
    }
}

/// What the caller has to do while the setup is in `state`.
pub open spec fn action_of(state: StartupState) -> StartupAction {
    match state {
        StartupState::Opening => StartupAction::ListPorts,
        StartupState::Selecting { .. } => StartupAction::AskPort,
        StartupState::Ready { port } => StartupAction::Connect { port },
        StartupState::Failed { error } => StartupAction::Abort { error },
    }
}

/// The event that a line typed by the player is: the number it holds, or the
/// fact that it holds none that fits.
pub open spec fn typed(line: Seq<char>) -> StartupEvent {
    match port_selection(line) {
        Some(port) => if port <= usize::MAX {
            StartupEvent::PortEntered { port: port as usize }
        } else {
            StartupEvent::PortUnreadable
        },
        None => StartupEvent::PortUnreadable,
    }
}

/// The state reached from `state` after the events in order.
pub open spec fn run(settings: Settings, state: StartupState, events: Seq<StartupEvent>)
    -> StartupState
    decreases events.len(),
{
    if events.len() == 0 {
        state
    } else {
        run(settings, next_state(settings, state, events[0]), events.drop_first())
    }
}

/// Begins the setup by checking the options.
pub fn begin(settings: &Settings) -> (state: StartupState)
    ensures
        state == entry(*settings),
{
    if settings.min_note > settings.max_note {
        StartupState::Failed { error: GameError::ConfigurationError }
    } else {
        StartupState::Opening
    }
}

/// Decides on a port index against the lists of ports.
fn choose_port(port: usize, outputs: usize, inputs: usize) -> (state: StartupState)
    ensures
        state == chosen(port, outputs, inputs),
{
    if port < outputs && port < inputs {
        StartupState::Ready { port }
    } else {
        StartupState::Failed { error: GameError::DeviceError(DeviceFault::InvalidPort) }
    }
}

/// Moves the setup on by one event.
pub fn step(settings: &Settings, state: StartupState, event: StartupEvent) -> (next: StartupState)
    ensures
        next == next_state(*settings, state, event),
{
    match state {
        StartupState::Opening => match event {
            StartupEvent::PortsListed { outputs, inputs } => match settings.port_no {
                Some(port) => choose_port(port, outputs, inputs),
                None => if outputs == 0 {
                    StartupState::Failed { error: GameError::DeviceError(DeviceFault::NoPorts) }
                } else {
                    StartupState::Selecting { outputs, inputs }
                },
            },
            _ => state,
        },
        StartupState::Selecting { outputs, inputs } => match event {
            StartupEvent::PortEntered { port } => choose_port(port, outputs, inputs),
            StartupEvent::PortUnreadable => StartupState::Failed {
                error: GameError::InputParseError,
            },
            _ => state,
        },
        _ => state,
    }
}

/// Says what the caller has to do next.
pub fn pending_action(state: &StartupState) -> (action: StartupAction)
    ensures
        action == action_of(*state),
{
    match state {
        StartupState::Opening => StartupAction::ListPorts,
        StartupState::Selecting { .. } => StartupAction::AskPort,
        StartupState::Ready { port } => StartupAction::Connect { port: *port },
        StartupState::Failed { error } => StartupAction::Abort { error: *error },
    }
}

/// Reads the player's answer to `AskPort`.
pub fn port_event(line: &str) -> (event: StartupEvent)
    ensures
        event == typed(line@),
{
    match parse_port_number(line) {
        Ok(port) => StartupEvent::PortEntered { port },
        Err(_) => StartupEvent::PortUnreadable,
    }
}

/// Options with an empty note range end the setup at once with a
/// configuration error, and nothing that is reported afterwards changes that:
/// the setup never asks for the ports to be listed or for a connection.
pub proof fn lemma_empty_range_ends_setup(settings: Settings, events: Seq<StartupEvent>)
    requires
        settings.min_note > settings.max_note,
    ensures
        entry(settings) == (StartupState::Failed { error: GameError::ConfigurationError }),
        run(settings, entry(settings), events) == entry(settings),
        action_of(run(settings, entry(settings), events)) == (StartupAction::Abort {
            error: GameError::ConfigurationError,
        }),
{
    lemma_failure_is_final(settings, GameError::ConfigurationError, events);
}

/// A setup that has failed stays failed with the same error.
pub proof fn lemma_failure_is_final(settings: Settings, error: GameError, events: Seq<StartupEvent>)
    ensures
        run(settings, StartupState::Failed { error }, events) == (StartupState::Failed { error }),
    decreases events.len(),
{
    if events.len() > 0 {
        lemma_failure_is_final(settings, error, events.drop_first());
    }
}

} // verus!
