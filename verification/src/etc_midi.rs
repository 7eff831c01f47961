//! ETC's instrument commands: cues are fired with Program Change and
//! Controller Change messages on the console's MIDI channel.

use crate::Error;
use crate::FaderPair;
use vstd::prelude::*;

verus! {

/// The kind of channel message that carries a command.
#[derive(Debug, Clone, Copy, PartialEq, Eq, Structural)]
pub enum MessageType {
    ProgramChange,
    ControllerChange,
}

impl MessageType {
    /// The status byte of this kind of message on channel 0.
    pub open spec fn spec_value(&self) -> u8 {
        match self {
            MessageType::ProgramChange => 0xC0,
            MessageType::ControllerChange => 0xB0,
        }
    }

    /// Translates the message type into its status byte on channel 0; the
    /// channel number is added to it.
    #[verifier::when_used_as_spec(spec_value)]
    pub fn value(&self) -> (v: u8)
        ensures
            v == self.spec_value(),
    {
        match self {
            MessageType::ProgramChange => 0xC0,
            MessageType::ControllerChange => 0xB0,
        }
    }
}

/// The highest MIDI channel, counted from zero.
pub const MAX_CHANNEL: u8 = 15;

/// The highest cue number that the instrument commands can address.
pub const MAX_CUE: u16 = 999;

/// The cues are banked in groups of this size.
pub const BANK_SIZE: u16 = 128;

/// The controller that addresses the first bank; each following bank has the
/// next controller number.
pub const FIRST_BANK_CONTROLLER: u8 = 77;

/// The controller number that selects the bank of a cue: 77 for cues below
/// 128, 78 for 128 to 255, and so on up to 84 for 896 to 999.
pub open spec fn bank_controller(cue_number: u16) -> int {
    FIRST_BANK_CONTROLLER + cue_number / BANK_SIZE
}

/// The place of a cue within its bank, counted from the bank's lower bound.
pub open spec fn bank_offset(cue_number: u16) -> int {
    cue_number - (cue_number / BANK_SIZE) * BANK_SIZE
}

/// The message that executes the next cue of a fader pair on a channel.
pub open spec fn go_message(channel: u8, fader_pair: FaderPair) -> Seq<u8> {
    match fader_pair {
        FaderPair::AB => seq![(0xC0 + channel) as u8, 0u8],
        FaderPair::CD => seq![(0xB0 + channel) as u8, 77u8, 0u8],
    }
}

/// The message that executes cue `cue_number` of a fader pair on a channel,
/// for a cue number from 1 to 999. The AB pair takes the cues below 128 as a
/// Program Change; every other cue goes out as a Controller Change whose
/// controller selects the bank and whose value is the offset in the bank.
pub open spec fn cue_message(channel: u8, fader_pair: FaderPair, cue_number: u16) -> Seq<u8> {
    if fader_pair is AB && cue_number < BANK_SIZE {
        seq![(0xC0 + channel) as u8, cue_number as u8]
    } else {
        seq![
            (0xB0 + channel) as u8,
            bank_controller(cue_number) as u8,
            bank_offset(cue_number) as u8,
        ]
    }
}

/// Control the ETC Express lighting console using ETC's custom MIDI
/// instrument commands.
pub struct ConsoleETCMidi {
    midi_chan_num: u8,
}

impl ConsoleETCMidi {
    #[verifier::type_invariant]
    spec fn channel_in_range(self) -> bool {
        self.midi_chan_num <= MAX_CHANNEL
    }

    /// The MIDI channel that the console listens on, counted from zero.
    pub closed spec fn channel(self) -> u8 {
        self.midi_chan_num
    }

    /// Creates the encoder for a console.
    ///
    /// `midi_chan_num` is the MIDI channel configured in the Express's
    /// settings in zero-indexed form (subtract 1, so 12 becomes 11).
    pub fn new(midi_chan_num: u8) -> (console: ConsoleETCMidi)
        requires
            midi_chan_num <= MAX_CHANNEL,
        ensures
            console.channel() == midi_chan_num,
    {
        ConsoleETCMidi { midi_chan_num }
    }

    /// The message that executes the next cue in a fader pair.
    pub fn go(&self, fader_pair: FaderPair) -> (bytes: Vec<u8>)
        ensures
            self.channel() <= MAX_CHANNEL,
            bytes@ == go_message(self.channel(), fader_pair),
    {
        proof {
            use_type_invariant(self);
        }
        match fader_pair {
            FaderPair::AB => {
                let byte1 = MessageType::ProgramChange.value() + self.midi_chan_num;
                vec![byte1, 0]
            },
            FaderPair::CD => {
                let byte1 = MessageType::ControllerChange.value() + self.midi_chan_num;
                vec![byte1, FIRST_BANK_CONTROLLER, 0]
            },
        }
    }

    /// The message that executes a specific cue in a fader pair.
    ///
    /// Cue 0 and the cues above 999 do not exist on the console: they are
    /// reported as `InvalidCue`, and no message is built for them.
    pub fn go_cue(&self, fader_pair: FaderPair, cue_number: u16) -> (result: Result<Vec<u8>, Error>)
        ensures
            self.channel() <= MAX_CHANNEL,
            cue_number == 0 ==> result is Err && result->Err_0.is_invalid_cue(0, "too small"@),
            cue_number > MAX_CUE ==> result is Err && result->Err_0.is_invalid_cue(
                cue_number,
                "too large"@,
            ),
            1 <= cue_number <= MAX_CUE ==> result is Ok && result->Ok_0@ == cue_message(
                self.channel(),
                fader_pair,
                cue_number,
            ),
    {
        proof {
            use_type_invariant(self);
        }
        if cue_number == 0 {
            return Err(Error::InvalidCue { number: 0, reason: "too small".to_owned() });
        }
        if cue_number > MAX_CUE {
            return Err(Error::InvalidCue { number: cue_number, reason: "too large".to_owned() });
        }
        let bank: u16 = cue_number / BANK_SIZE;
        let parameter: u8 = match u8::try_from(cue_number - bank * BANK_SIZE) {
            Ok(parameter) => parameter,
            Err(err) => {
                return Err(Error::from(err));
            },
        };
        let message_type = match fader_pair {
            FaderPair::AB => if bank == 0 {
                MessageType::ProgramChange
            } else {
                MessageType::ControllerChange
            },
            FaderPair::CD => MessageType::ControllerChange,
        };
        let status: u8 = message_type.value() + self.midi_chan_num;
        match message_type {
            MessageType::ProgramChange => Ok(vec![status, parameter]),
            MessageType::ControllerChange => Ok(
                vec![status, FIRST_BANK_CONTROLLER + bank as u8, parameter],
            ),
        }
    }
}

/// On the AB pair a cue from 1 to 127 goes out as a Program Change on the
/// console's channel, and the data byte is the cue number itself.
pub proof fn lemma_low_cue_on_ab_is_program_change(channel: u8, cue_number: u16)
    requires
        channel <= MAX_CHANNEL,
        1 <= cue_number <= 127,
    ensures
        cue_message(channel, FaderPair::AB, cue_number).len() == 2,
        cue_message(channel, FaderPair::AB, cue_number)[0] & 0xF0 == 0xC0,
        cue_message(channel, FaderPair::AB, cue_number)[0] & 0x0F == channel,
        cue_message(channel, FaderPair::AB, cue_number)[1] == cue_number,
{
    let status = (0xC0 + channel) as u8;
    assert(status & 0xF0 == 0xC0 && status & 0x0F == channel) by (bit_vector)
        requires
            channel <= 15,
            status == 0xC0 + channel,
    ;
}

/// On the CD pair a cue from 1 to 127 goes out as a Controller Change on the
/// console's channel, with the controller of the first bank and the cue
/// number as its value.
pub proof fn lemma_low_cue_on_cd_is_controller_change(channel: u8, cue_number: u16)
    requires
        channel <= MAX_CHANNEL,
        1 <= cue_number <= 127,
    ensures
        cue_message(channel, FaderPair::CD, cue_number).len() == 3,
        cue_message(channel, FaderPair::CD, cue_number)[0] & 0xF0 == 0xB0,
        cue_message(channel, FaderPair::CD, cue_number)[0] & 0x0F == channel,
        cue_message(channel, FaderPair::CD, cue_number)[1] == 77,
        cue_message(channel, FaderPair::CD, cue_number)[2] == cue_number,
{
    let status = (0xB0 + channel) as u8;
    assert(status & 0xF0 == 0xB0 && status & 0x0F == channel) by (bit_vector)
        requires
            channel <= 15,
            status == 0xB0 + channel,
    ;
}

/// A cue from 128 to 999 goes out, on either fader pair, as a Controller
/// Change on the console's channel. The controller is one of 78 to 84 and
/// rises by one with every 128 cues; the value is the distance of the cue
/// from the lower bound of its bank, which is at most 127.
pub proof fn lemma_banked_cue(channel: u8, fader_pair: FaderPair, cue_number: u16)
    requires
        channel <= MAX_CHANNEL,
        128 <= cue_number <= MAX_CUE,
    ensures
        cue_message(channel, fader_pair, cue_number).len() == 3,
        cue_message(channel, fader_pair, cue_number)[0] & 0xF0 == 0xB0,
        cue_message(channel, fader_pair, cue_number)[0] & 0x0F == channel,
        cue_message(channel, fader_pair, cue_number)[1] == 77 + cue_number / 128,
        78 <= cue_message(channel, fader_pair, cue_number)[1] <= 84,
        cue_message(channel, fader_pair, cue_number)[2] == cue_number - 128 * (cue_number / 128),
        0 <= cue_message(channel, fader_pair, cue_number)[2] <= 127,
{
    let status = (0xB0 + channel) as u8;
    assert(status & 0xF0 == 0xB0 && status & 0x0F == channel) by (bit_vector)
        requires
            channel <= 15,
            status == 0xB0 + channel,
    ;
}

/// A cue from 128 to 999 that is no multiple of 128 lies in the bank of the
/// cue before it. With `bucket = (cue_number - 1) / 128` the controller is
/// then `77 + bucket`, one of 78 to 84, and the value is
/// `cue_number - bucket * 128`, which lies between 1 and 127. (A multiple of
/// 128 opens the next bank, with the value 0.)
pub proof fn lemma_banked_cue_by_predecessor(channel: u8, fader_pair: FaderPair, cue_number: u16)
    requires
        channel <= MAX_CHANNEL,
        128 <= cue_number <= MAX_CUE,
        cue_number % 128 != 0,
    ensures
        cue_message(channel, fader_pair, cue_number).len() == 3,
        cue_message(channel, fader_pair, cue_number)[1] == 77 + (cue_number - 1) / 128,
        78 <= cue_message(channel, fader_pair, cue_number)[1] <= 84,
        cue_message(channel, fader_pair, cue_number)[2] == cue_number - ((cue_number - 1) / 128)
            * 128,
        1 <= cue_message(channel, fader_pair, cue_number)[2] <= 127,
{
}

} // verus!
