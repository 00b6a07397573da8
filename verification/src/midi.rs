//! Messages bound to a MIDI channel.

use crate::error::{fails, invalid, plain, Error, ErrorKind, Fault};
use crate::input::Reading;
use crate::primitive::{group_narrow_ints, u14, u4, u7};
use vstd::prelude::*;

verus! {

/// Represents a MIDI message, not an event.
///
/// To read a MIDI message off some stream, use `EventKind::parse` and discard the events that are
/// of another kind. This is the correct way to handle running status.
#[derive(Clone, Copy, Debug, PartialEq, Eq, Structural)]
pub enum MidiMessage {
    /// Stop playing a note.
    NoteOff {
        /// The MIDI key to stop playing.
        key: u7,
        /// The velocity with which to stop playing it.
        vel: u7,
    },
    /// Start playing a note.
    NoteOn {
        /// The key to start playing.
        key: u7,
        /// The velocity (strength) with which to press it.
        vel: u7,
    },
    /// Modify the velocity of a note after it has been played.
    Aftertouch {
        /// The key for which to modify its velocity.
        key: u7,
        /// The new velocity for the key.
        vel: u7,
    },
    /// Modify the value of a MIDI controller.
    Controller {
        /// The controller to modify.
        ///
        /// See the MIDI standard for the meaning of each index.
        controller: u7,
        /// The value to set it to.
        value: u7,
    },
    /// Change the program (also known as instrument) for a channel.
    ProgramChange {
        /// The new program (instrument) to use for the channel.
        program: u7,
    },
    /// Change the note velocity of a whole channel at once, without starting new notes.
    ChannelAftertouch {
        /// The new velocity for the notes currently playing in the channel.
        vel: u7,
    },
    /// Set the pitch bend value.
    PitchBend {
        /// The new pitch-bend value.
        ///
        /// A value of `0x0000` indicates full bend downwards.
        /// A value of `0x2000` indicates no bend.
        /// A value of `0x3FFF` indicates full bend upwards.
        bend: u14,
    },
}

/// The status bytes of MIDI messages: `0x80` to `0xEF`.
pub open spec fn is_midi_status(status: u8) -> bool {
    0x80 <= status <= 0xEF
}

/// How many data bytes follow a status byte.
pub open spec fn midi_data_len(status: u8) -> int {
    if 0xC0 <= status < 0xE0 {
        1
    } else {
        2
    }
}

/// Reads the data bytes of the MIDI message that has the given status byte. Where the input ends
/// inside them, all of it is gone.
pub open spec fn reading_midi(raw: Seq<u8>, status: u8) -> Reading<MidiMessage> {
    if !is_midi_status(status) {
        Reading { rest: raw, outcome: fails(ErrorKind::Invalid(Fault::MidiStatus)) }
    } else if raw.len() < midi_data_len(status) {
        Reading { rest: seq![], outcome: fails(ErrorKind::Invalid(Fault::Integer)) }
    } else {
        Reading {
            rest: raw.skip(midi_data_len(status)),
            outcome: Ok(MidiMessage::decode(status, raw)),
        }
    }
}

impl MidiMessage {
    /// The message of a status byte and the data bytes after it.
    ///
    /// Of a data byte the low 7 bits count. A pitch bend has its low 7 bits first.
    pub open spec fn decode(status: u8, data: Seq<u8>) -> MidiMessage {
        let first = u7::of(data[0]);
        let second = u7::of(data[1]);
        if status < 0x90 {
            MidiMessage::NoteOff { key: first, vel: second }
        } else if status < 0xA0 {
            MidiMessage::NoteOn { key: first, vel: second }
        } else if status < 0xB0 {
            MidiMessage::Aftertouch { key: first, vel: second }
        } else if status < 0xC0 {
            MidiMessage::Controller { controller: first, value: second }
        } else if status < 0xD0 {
            MidiMessage::ProgramChange { program: first }
        } else if status < 0xE0 {
            MidiMessage::ChannelAftertouch { vel: first }
        } else {
            MidiMessage::PitchBend { bend: u14::of((second@ * 128 + first@) as u16) }
        }
    }

    /// The upper four bits of the status byte.
    pub open spec fn nibble(self) -> u8 {
        match self {
            MidiMessage::NoteOff { .. } => 0x8,
            MidiMessage::NoteOn { .. } => 0x9,
            MidiMessage::Aftertouch { .. } => 0xA,
            MidiMessage::Controller { .. } => 0xB,
            MidiMessage::ProgramChange { .. } => 0xC,
            MidiMessage::ChannelAftertouch { .. } => 0xD,
            MidiMessage::PitchBend { .. } => 0xE,
        }
    }

    /// The status byte of the message on a channel.
    pub open spec fn status(self, channel: u4) -> u8 {
        (self.nibble() * 16 + channel@) as u8
    }

    /// The data bytes.
    pub open spec fn data(self) -> Seq<u8> {
        match self {
            MidiMessage::NoteOff { key, vel } => seq![key@, vel@],
            MidiMessage::NoteOn { key, vel } => seq![key@, vel@],
            MidiMessage::Aftertouch { key, vel } => seq![key@, vel@],
            MidiMessage::Controller { controller, value } => seq![controller@, value@],
            MidiMessage::ProgramChange { program } => seq![program@],
            MidiMessage::ChannelAftertouch { vel } => seq![vel@],
            MidiMessage::PitchBend { bend } => seq![(bend@ % 128) as u8, (bend@ / 128) as u8],
        }
    }

    /// All numbers in the message are in the ranges of their types.
    pub open spec fn valid(self) -> bool {
        match self {
            MidiMessage::NoteOff { key, vel } => key@ < 128 && vel@ < 128,
            MidiMessage::NoteOn { key, vel } => key@ < 128 && vel@ < 128,
            MidiMessage::Aftertouch { key, vel } => key@ < 128 && vel@ < 128,
            MidiMessage::Controller { controller, value } => controller@ < 128 && value@ < 128,
            MidiMessage::ProgramChange { program } => program@ < 128,
            MidiMessage::ChannelAftertouch { vel } => vel@ < 128,
            MidiMessage::PitchBend { bend } => bend@ < 0x4000,
        }
    }

    /// Receives a slice pointing to midi args (not including status byte).
    /// Status byte is given separately to reuse running status.
    pub fn read(raw: &mut &[u8], status: u8) -> (r: Result<MidiMessage, Error>)
        ensures
            plain(r) == reading_midi(old(raw)@, status).outcome,
            final(raw)@ == reading_midi(old(raw)@, status).rest,
            0x80 <= status <= 0xEF ==> {
                &&& r is Ok <==> old(raw)@.len() >= 2 || (0xC0 <= status <= 0xDF && old(raw)@.len()
                    == 1)
                &&& r is Ok ==> match r->Ok_0 {
                    MidiMessage::NoteOff { key, vel } => {
                        &&& status <= 0x8F
                        &&& key@ == old(raw)@[0] % 128
                        &&& vel@ == old(raw)@[1] % 128
                    },
                    MidiMessage::NoteOn { key, vel } => {
                        &&& 0x90 <= status <= 0x9F
                        &&& key@ == old(raw)@[0] % 128
                        &&& vel@ == old(raw)@[1] % 128
                    },
                    MidiMessage::Aftertouch { key, vel } => {
                        &&& 0xA0 <= status <= 0xAF
                        &&& key@ == old(raw)@[0] % 128
                        &&& vel@ == old(raw)@[1] % 128
                    },
                    MidiMessage::Controller { controller, value } => {
                        &&& 0xB0 <= status <= 0xBF
                        &&& controller@ == old(raw)@[0] % 128
                        &&& value@ == old(raw)@[1] % 128
                    },
                    MidiMessage::ProgramChange { program } => {
                        &&& 0xC0 <= status <= 0xCF
                        &&& program@ == old(raw)@[0] % 128
                    },
                    MidiMessage::ChannelAftertouch { vel } => {
                        &&& 0xD0 <= status <= 0xDF
                        &&& vel@ == old(raw)@[0] % 128
                    },
                    MidiMessage::PitchBend { bend } => {
                        &&& 0xE0 <= status
                        &&& bend@ == old(raw)@[1] % 128 * 128 + old(raw)@[0] % 128
                    },
                }
            },
    {
        broadcast use group_narrow_ints;

        let nibble = status / 16;
        if nibble < 0x8 || nibble > 0xE {
            return Err(invalid(Fault::MidiStatus));
        }
        let first = match u7::read(raw) {
            Ok(first) => first,
            Err(error) => {
                return Err(error);
            },
        };
        if nibble == 0xC {
            return Ok(MidiMessage::ProgramChange { program: first });
        }
        if nibble == 0xD {
            return Ok(MidiMessage::ChannelAftertouch { vel: first });
        }
        let second = match u7::read(raw) {
            Ok(second) => second,
            Err(error) => {
                return Err(error);
            },
        };
        Ok(
            match nibble {
                0x8 => MidiMessage::NoteOff { key: first, vel: second },
                0x9 => MidiMessage::NoteOn { key: first, vel: second },
                0xA => MidiMessage::Aftertouch { key: first, vel: second },
                0xB => MidiMessage::Controller { controller: first, value: second },
                _ => {
                    // Note the little-endian order, contrasting with the default big-endian order
                    // of Standard Midi Files
                    let lsb = first.as_int() as u16;
                    let msb = second.as_int() as u16;
                    MidiMessage::PitchBend { bend: u14::from(msb * 128 + lsb) }
                },
            },
        )
    }

    /// Get the raw status nibble for this MIDI message type.
    pub fn status_nibble(&self) -> (r: u8)
        ensures
            r == self.nibble(),
            0x8 <= r <= 0xE,
            r == match *self {
                MidiMessage::NoteOff { .. } => 0x8int,
                MidiMessage::NoteOn { .. } => 0x9,
                MidiMessage::Aftertouch { .. } => 0xA,
                MidiMessage::Controller { .. } => 0xB,
                MidiMessage::ProgramChange { .. } => 0xC,
                MidiMessage::ChannelAftertouch { .. } => 0xD,
                MidiMessage::PitchBend { .. } => 0xE,
            },
    {
        match self {
            MidiMessage::NoteOff { .. } => 0x8,
            MidiMessage::NoteOn { .. } => 0x9,
            MidiMessage::Aftertouch { .. } => 0xA,
            MidiMessage::Controller { .. } => 0xB,
            MidiMessage::ProgramChange { .. } => 0xC,
            MidiMessage::ChannelAftertouch { .. } => 0xD,
            MidiMessage::PitchBend { .. } => 0xE,
        }
    }

    /// Writes the data bytes.
    pub fn write(&self, out: &mut Vec<u8>)
        ensures
            final(out)@ == old(out)@ + self.data(),
            self.valid(),
            final(out)@ == match *self {
                MidiMessage::NoteOff { key, vel } => old(out)@.push(key@).push(vel@),
                MidiMessage::NoteOn { key, vel } => old(out)@.push(key@).push(vel@),
                MidiMessage::Aftertouch { key, vel } => old(out)@.push(key@).push(vel@),
                MidiMessage::Controller { controller, value } => old(out)@.push(controller@).push(
                    value@,
                ),
                MidiMessage::ProgramChange { program } => old(out)@.push(program@),
                MidiMessage::ChannelAftertouch { vel } => old(out)@.push(vel@),
                MidiMessage::PitchBend { bend } => old(out)@.push((bend@ % 128) as u8).push(
                    (bend@ / 128) as u8,
                ),
            },
    {
        match self {
            MidiMessage::NoteOff { key, vel } => {
                out.push(key.as_int());
                out.push(vel.as_int());
            },
            MidiMessage::NoteOn { key, vel } => {
                out.push(key.as_int());
                out.push(vel.as_int());
            },
            MidiMessage::Aftertouch { key, vel } => {
                out.push(key.as_int());
                out.push(vel.as_int());
            },
            MidiMessage::Controller { controller, value } => {
                out.push(controller.as_int());
                out.push(value.as_int());
            },
            MidiMessage::ProgramChange { program } => {
                out.push(program.as_int());
            },
            MidiMessage::ChannelAftertouch { vel } => {
                out.push(vel.as_int());
            },
            MidiMessage::PitchBend { bend } => {
                out.push((bend.as_int() % 128) as u8);
                out.push((bend.as_int() / 128) as u8);
            },
        }
        assert(out@ == old(out)@ + self.data());
    }
}

/// A status byte tells the channel and the kind of message apart, and the data bytes of a message
/// are read back as that message. What follows them is left alone.
pub proof fn law_midi_round_trip(message: MidiMessage, channel: u4, tail: Seq<u8>)
    requires
        message.valid(),
        channel@ < 16,
    ensures
        is_midi_status(message.status(channel)),
        u4::of(message.status(channel)) == channel,
        message.data().len() == midi_data_len(message.status(channel)),
        forall|i: int| 0 <= i < message.data().len() ==> message.data()[i] < 0x80,
        reading_midi(message.data() + tail, message.status(channel)) == (Reading {
            rest: tail,
            outcome: Ok(message),
        }),
{
    broadcast use group_narrow_ints;

    let raw = message.data() + tail;
    assert(raw.skip(message.data().len() as int) == tail);
    let status = message.status(channel);
    assert(status % 16 == channel@);
}

/// Reading a MIDI message depends on its status and on the bytes that it takes alone, and gives
/// numbers in the ranges of their types.
pub proof fn law_midi_local(raw: Seq<u8>, status: u8, tail: Seq<u8>)
    requires
        reading_midi(raw, status).outcome is Ok,
    ensures
        reading_midi(raw, status).rest.len() < raw.len(),
        reading_midi(raw, status).rest == raw.skip(raw.len() - reading_midi(raw, status).rest.len()),
        reading_midi(raw, status).outcome->Ok_0.valid(),
        reading_midi(raw, status).outcome->Ok_0.status(u4::of(status)) == status,
        reading_midi(
            raw.take(raw.len() - reading_midi(raw, status).rest.len()) + tail,
            status,
        ) == (Reading { rest: tail, outcome: reading_midi(raw, status).outcome }),
{
    broadcast use group_narrow_ints;

    let len = midi_data_len(status);
    let other = raw.take(len) + tail;
    assert(other.skip(len) == tail);
}

} // verus!
