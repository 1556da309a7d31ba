//! What can end the game.

use vstd::prelude::*;
use vstd::string::*;

verus! {

/// Why no usable MIDI port was found.
#[derive(Clone, Copy, Debug, PartialEq, Eq, Structural)]
pub enum DeviceFault {
    /// The MIDI system lists no output port at all.
    NoPorts,
    /// The selected index names no port.
    InvalidPort,
}

/// A fatal error. None is retried: each ends the game where it arises.
#[derive(Clone, Copy, Debug, PartialEq, Eq, Structural)]
pub enum GameError {
    /// The configured note range is empty: its lowest note lies above its highest.
    ConfigurationError,
    /// No usable MIDI port.
    DeviceError(DeviceFault),
    /// The port selection typed at the console is not a number.
    InputParseError,
    /// A message could not be sent to the output device.
    PlaybackError,
    /// The producer side of the event bridge is gone.
    ChannelClosed,
}

impl GameError {
    /// The line shown to the user for this error.
    pub open spec fn message_text(self) -> Seq<char> {
        match self {
            GameError::ConfigurationError => "Note range cannot be empty"@,
            GameError::DeviceError(DeviceFault::NoPorts) => "No available MIDI ports found"@,
            GameError::DeviceError(DeviceFault::InvalidPort) => "No MIDI port with the selected number"@,
            GameError::InputParseError => "invalid input, must be a number"@,
            GameError::PlaybackError => "cannot play note"@,
            GameError::ChannelClosed => "MIDI input is closed"@,
        }
    }

    /// Renders the error for the user.
    pub fn message(&self) -> (text: String)
        ensures
            text@ == self.message_text(),
    {
        let text = match self {
            GameError::ConfigurationError => "Note range cannot be empty",
            GameError::DeviceError(DeviceFault::NoPorts) => "No available MIDI ports found",
            GameError::DeviceError(DeviceFault::InvalidPort) => "No MIDI port with the selected number",
            GameError::InputParseError => "invalid input, must be a number",
            GameError::PlaybackError => "cannot play note",
            GameError::ChannelClosed => "MIDI input is closed",
        };
        String::from_str(text)
    }
}

} // verus!
