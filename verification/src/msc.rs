//! MIDI Show Control: every command is one SysEx frame,
//! `F0 7F <device id> 01 <command> [<cue field>] [<fader pair> 00] F7`.

use crate::decimal::cue_digits;
use crate::decimal::decimal_digits;
use crate::decimal::decimal_value;
use crate::decimal::lemma_decimal_round_trip;
use crate::FaderPair;
use vstd::prelude::*;

verus! {

/// The commands that can be sent to the console.
#[derive(Debug, Clone, Copy, PartialEq, Eq, Structural)]
pub enum Command {
    Go,
    Stop,
    Resume,
    Fire,
}

impl Command {
    /// The command byte of a Show Control frame.
    pub open spec fn spec_value(&self) -> u8 {
        match self {
            Command::Go => 1,
            Command::Stop => 2,
            Command::Resume => 3,
            Command::Fire => 4,
        }
    }

    /// Maps the command to the byte that names it on the wire.
    #[verifier::when_used_as_spec(spec_value)]
    pub fn value(&self) -> (v: u8)
        ensures
            v == self.spec_value(),
    {
        match self {
            Command::Go => 1,
            Command::Stop => 2,
            Command::Resume => 3,
            Command::Fire => 4,
        }
    }
}

/// The fixed byte that fills the cue field of a frame that stops or resumes
/// one fader pair. It is no digit, and no terminator follows it.
pub const CUE_SENTINEL: u8 = 0x69;

/// The bytes that open every frame: SysEx start, the real-time marker, the
/// device, the Show Control marker and the command.
pub open spec fn frame_header(device_id: u8, command: Command) -> Seq<u8> {
    seq![0xF0u8, 0x7Fu8, device_id, 0x01u8, command.value()]
}

/// A whole frame: the header, the cue field if there is one, the fader pair
/// and a zero byte if there is one, and the SysEx end.
pub open spec fn msc_frame(
    device_id: u8,
    command: Command,
    fader_pair: Option<FaderPair>,
    cue: Option<Seq<u8>>,
) -> Seq<u8> {
    frame_header(device_id, command) + (match cue {
        Some(field) => field,
        None => Seq::empty(),
    }) + (match fader_pair {
        Some(pair) => seq![pair.value(), 0x00u8],
        None => Seq::empty(),
    }) + seq![0xF7u8]
}

/// The frame that executes cue `cue_number` in a fader pair.
pub open spec fn go_cue_frame(device_id: u8, fader_pair: FaderPair, cue_number: u16) -> Seq<u8> {
    seq![0xF0u8, 0x7Fu8, device_id, 0x01u8, 0x01u8] + decimal_digits(cue_number as nat) + seq![
        0x00u8,
        fader_pair.value(),
        0x00u8,
        0xF7u8,
    ]
}

/// The digits of the cue number in a frame that executes a cue: what stands
/// between the five bytes of the header and the four bytes that follow the
/// digits.
pub open spec fn go_cue_digits(frame: Seq<u8>) -> Seq<u8> {
    frame.subrange(5, frame.len() - 4)
}

/// Reading the digits in the frame that executes a cue gives the cue number
/// again, whatever the device, the fader pair and the number.
pub proof fn lemma_go_cue_round_trip(device_id: u8, fader_pair: FaderPair, cue_number: u16)
    ensures
        go_cue_digits(go_cue_frame(device_id, fader_pair, cue_number)) == decimal_digits(
            cue_number as nat,
        ),
        decimal_value(go_cue_digits(go_cue_frame(device_id, fader_pair, cue_number)))
            == cue_number,
{
    let digits = decimal_digits(cue_number as nat);
    let frame = go_cue_frame(device_id, fader_pair, cue_number);
    assert(frame.len() == digits.len() + 9);
    assert(go_cue_digits(frame) =~= digits);
    lemma_decimal_round_trip(cue_number as nat);
}

/// Control the ETC Express lighting console using MIDI Show Control
/// (requires a controller which passes SysEx messages).
pub struct ConsoleMSC {
    device_id: u8,
}

impl ConsoleMSC {
    /// The Show Control device id that the console answers to.
    pub closed spec fn device(self) -> u8 {
        self.device_id
    }

    /// Creates the encoder for the console with this device id.
    pub fn new(device_id: u8) -> (console: ConsoleMSC)
        ensures
            console.device() == device_id,
    {
        ConsoleMSC { device_id }
    }

    /// The frame that executes the next cue in a fader pair. It names cue 0.
    pub fn go(&self, fader_pair: FaderPair) -> (frame: Vec<u8>)
        ensures
            frame@ == seq![
                0xF0u8,
                0x7Fu8,
                self.device(),
                0x01u8,
                0x01u8,
                0x30u8,
                0x00u8,
                fader_pair.value(),
                0x00u8,
                0xF7u8,
            ],
            frame@ == go_cue_frame(self.device(), fader_pair, 0),
    {
        let mut cue = cue_digits(0);
        cue.push(0x00);
        self.frame(Command::Go, Some(fader_pair), Some(cue))
    }

    /// The frame that executes a specific cue in a fader pair. Every 16-bit
    /// number is taken; the console decides whether the cue exists.
    pub fn go_cue(&self, fader_pair: FaderPair, cue_number: u16) -> (frame: Vec<u8>)
        ensures
            frame@ == go_cue_frame(self.device(), fader_pair, cue_number),
    {
        let mut cue = cue_digits(cue_number);
        cue.push(0x00);
        self.frame(Command::Go, Some(fader_pair), Some(cue))
    }

    /// The frame that stops the cue that is running in a fader pair.
    pub fn stop(&self, fader_pair: FaderPair) -> (frame: Vec<u8>)
        ensures
            frame@ == seq![
                0xF0u8,
                0x7Fu8,
                self.device(),
                0x01u8,
                0x02u8,
                0x69u8,
                fader_pair.value(),
                0x00u8,
                0xF7u8,
            ],
    {
        self.frame(Command::Stop, Some(fader_pair), Some(vec![CUE_SENTINEL]))
    }

    /// The frame that stops all running cues.
    pub fn stop_all(&self) -> (frame: Vec<u8>)
        ensures
            frame@ == seq![0xF0u8, 0x7Fu8, self.device(), 0x01u8, 0x02u8, 0xF7u8],
    {
        self.frame(Command::Stop, None, None)
    }

    /// The frame that resumes the stopped cue of a fader pair.
    pub fn resume(&self, fader_pair: FaderPair) -> (frame: Vec<u8>)
        ensures
            frame@ == seq![
                0xF0u8,
                0x7Fu8,
                self.device(),
                0x01u8,
                0x03u8,
                0x69u8,
                fader_pair.value(),
                0x00u8,
                0xF7u8,
            ],
    {
        self.frame(Command::Resume, Some(fader_pair), Some(vec![CUE_SENTINEL]))
    }

    /// The frame that resumes all stopped cues.
    pub fn resume_all(&self) -> (frame: Vec<u8>)
        ensures
            frame@ == seq![0xF0u8, 0x7Fu8, self.device(), 0x01u8, 0x03u8, 0xF7u8],
    {
        self.frame(Command::Resume, None, None)
    }

    /// The frame that runs a macro.
    pub fn fire_macro(&self, macro_number: u8) -> (frame: Vec<u8>)
        ensures
            frame@ == seq![0xF0u8, 0x7Fu8, self.device(), 0x01u8, 0x04u8, macro_number, 0xF7u8],
    {
        vec![0xF0, 0x7F, self.device_id, 0x01, Command::Fire.value(), macro_number, 0xF7]
    }

    /// Assembles a frame from its parts. A part that is `None` is left out.
    fn frame(&self, command: Command, fader_pair: Option<FaderPair>, cue: Option<Vec<u8>>) -> (bytes:
        Vec<u8>)
        ensures
            bytes@ == msc_frame(
                self.device(),
                command,
                fader_pair,
                match cue {
                    Some(field) => Some(field@),
                    None => None,
                },
            ),
    {
        let mut frame: Vec<u8> = vec![0xF0, 0x7F, self.device_id, 0x01, command.value()];
        if let Some(mut field) = cue {
            frame.append(&mut field);
        }
        if let Some(pair) = fader_pair {
            frame.push(pair.value());
            frame.push(0x00);
        }
        frame.push(0xF7);
        frame
    }
}

} // verus!
