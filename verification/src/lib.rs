//! Control the ETC Express lighting console with MIDI commands.
//!
//! The crate builds the exact bytes of every command and leaves the
//! transport to the caller: each operation returns the message that has to be
//! handed, in one piece, to a connected MIDI output.
//!
//! Two encodings are offered:
//! - [`ConsoleETCMidi`] speaks ETC's instrument commands (Program Change and
//!   Controller Change messages on one MIDI channel). Any MIDI adapter can
//!   carry them.
//! - [`ConsoleMSC`] speaks MIDI Show Control, which needs an adapter that
//!   passes SysEx messages.
//!
//! ```
//! use etc_express_midi::{ConsoleETCMidi, ConsoleMSC, FaderPair};
//!
//! let express = ConsoleETCMidi::new(1);
//! assert_eq!(express.go(FaderPair::CD), vec![0xB1, 0x4D, 0x00]);
//!
//! let express = ConsoleMSC::new(16);
//! assert_eq!(express.stop_all(), vec![0xF0, 0x7F, 16, 0x01, 0x02, 0xF7]);
//! ```

use vstd::prelude::*;

pub mod decimal;
pub mod etc_midi;
pub mod msc;

pub use etc_midi::ConsoleETCMidi;
pub use etc_midi::MessageType;
pub use msc::Command;
pub use msc::ConsoleMSC;

verus! {

/// Why a MIDI output refused a message: either the bytes were not a message
/// it can carry, or the port failed. Each kind holds the transport's own
/// description of the failure.
#[derive(Debug, Clone, Copy, PartialEq, Eq)]
pub enum SendError {
    InvalidData(&'static str),
    Other(&'static str),
}

/// The errors that the console operations report.
#[derive(Debug)]
pub enum Error {
    /// The transport refused the message.
    MidiSendError(SendError),
    /// The cue number cannot be addressed; `reason` says in which direction
    /// it is out of range.
    InvalidCue { number: u16, reason: String },
    /// A computed value did not fit the byte it was meant for.
    ParseIntError(std::num::TryFromIntError),
}

impl Error {
    /// True of an `InvalidCue` error that holds exactly this number and this
    /// reason.
    pub open spec fn is_invalid_cue(self, number: u16, reason: Seq<char>) -> bool {
        self matches Error::InvalidCue { number: n, reason: r } && n == number && r@ == reason
    }
}

impl From<SendError> for Error {
    fn from(err: SendError) -> (e: Error) {
        Error::MidiSendError(err)
    }
}

impl vstd::std_specs::convert::FromSpecImpl<SendError> for Error {
    open spec fn obeys_from_spec() -> bool {
        true
    }

    open spec fn from_spec(err: SendError) -> Error {
        Error::MidiSendError(err)
    }
}

impl From<std::num::TryFromIntError> for Error {
    fn from(err: std::num::TryFromIntError) -> (e: Error) {
        Error::ParseIntError(err)
    }
}

impl vstd::std_specs::convert::FromSpecImpl<std::num::TryFromIntError> for Error {
    open spec fn obeys_from_spec() -> bool {
        true
    }

    open spec fn from_spec(err: std::num::TryFromIntError) -> Error {
        Error::ParseIntError(err)
    }
}

/// Concludes an operation whose message has been handed to the transport.
/// What the transport answered is passed on unchanged: its success is the
/// operation's success, and its refusal comes back as `MidiSendError` around
/// the transport's own error. Nothing is sent again.
pub fn send_outcome(sent: Result<(), SendError>) -> (result: Result<(), Error>)
    ensures
        sent is Ok ==> result is Ok,
        sent is Err ==> result is Err && result->Err_0 == Error::MidiSendError(sent->Err_0),
{
    match sent {
        Ok(()) => Ok(()),
        Err(err) => Err(Error::from(err)),
    }
}

/// One of the two fader pairs of the console.
#[derive(Debug, Clone, Copy, PartialEq, Eq, Structural)]
pub enum FaderPair {
    AB,
    CD,
}

impl FaderPair {
    /// The byte that names this fader pair in a Show Control frame: the
    /// ASCII digit `1` for AB and `2` for CD.
    pub open spec fn spec_value(&self) -> u8 {
        match self {
            FaderPair::AB => 0x31,
            FaderPair::CD => 0x32,
        }
    }

    /// Maps the fader pair to the byte that names it on the wire.
    #[verifier::when_used_as_spec(spec_value)]
    pub fn value(&self) -> (v: u8)
        ensures
            v == self.spec_value(),
    {
        match self {
            FaderPair::AB => 0x31,
            FaderPair::CD => 0x32,
        }
    }
}

} // verus!
