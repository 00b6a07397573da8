//! Meta messages: what a track says besides its music.

use crate::error::{
    context, fails, invalid, outcome, pedantic, within, Deviation, Error, ErrorKind, Fault, Mode,
    WriteError,
};
use crate::input::{big_endian_16, big_endian_24, read_u16, read_u8, Reading};
use crate::primitive::{group_narrow_ints, u24, u4, u7};
use crate::smpte::{group_smpte, law_smpte_round_trip, reading_smpte, SmpteTime};
use crate::varlen::{
    law_slice_local, law_slice_round_trip, read_varlen_slice, reading_slice, slice_bytes,
    varlen_bytes, write_varlen_slice, VARLEN_LIMIT,
};
use vstd::prelude::*;
use vstd::slice::slice_to_vec;

verus! {

/// A message that gives extra information for correct playback, such as a tempo or a song name.
#[derive(Clone, Debug, PartialEq, Eq)]
pub enum MetaMessage {
    /// For `Format::Sequential` MIDI file types, `TrackNumber` can be empty, and defaults to
    /// track index.
    TrackNumber(Option<u16>),
    Text(Vec<u8>),
    Copyright(Vec<u8>),
    TrackName(Vec<u8>),
    InstrumentName(Vec<u8>),
    Lyric(Vec<u8>),
    Marker(Vec<u8>),
    CuePoint(Vec<u8>),
    ProgramName(Vec<u8>),
    DeviceName(Vec<u8>),
    MidiChannel(u4),
    MidiPort(u7),
    /// Obligatory at track end.
    EndOfTrack,
    /// Amount of microseconds per beat (quarter note).
    ///
    /// Usually appears at the beginning of a track, before any midi events are sent, but there
    /// are no guarantees.
    Tempo(u24),
    SmpteOffset(SmpteTime),
    /// In order of the MIDI standard, numerator, denominator, midi clocks per click, 32nd
    /// notes per quarter
    TimeSignature(u8, u8, u8, u8),
    /// As in the MIDI standard, negative numbers indicate number of flats and positive
    /// numbers indicate number of sharps.
    /// `false` indicates a major scale, `true` indicates a minor scale.
    KeySignature(i8, bool),
    SequencerSpecific(Vec<u8>),
    /// An unknown meta-message, unconforming to the standard.
    ///
    /// Never read in strict mode.
    Unknown(u8, Vec<u8>),
}

/// A meta message as contracts speak of it.
pub enum MetaModel {
    TrackNumber(Option<u16>),
    Text(Seq<u8>),
    Copyright(Seq<u8>),
    TrackName(Seq<u8>),
    InstrumentName(Seq<u8>),
    Lyric(Seq<u8>),
    Marker(Seq<u8>),
    CuePoint(Seq<u8>),
    ProgramName(Seq<u8>),
    DeviceName(Seq<u8>),
    MidiChannel(u4),
    MidiPort(u7),
    EndOfTrack,
    Tempo(u24),
    SmpteOffset(SmpteTime),
    TimeSignature(u8, u8, u8, u8),
    KeySignature(i8, bool),
    SequencerSpecific(Seq<u8>),
    Unknown(u8, Seq<u8>),
}

impl View for MetaMessage {
    type V = MetaModel;

    open spec fn view(&self) -> MetaModel {
        match self {
            MetaMessage::TrackNumber(number) => MetaModel::TrackNumber(*number),
            MetaMessage::Text(data) => MetaModel::Text(data@),
            MetaMessage::Copyright(data) => MetaModel::Copyright(data@),
            MetaMessage::TrackName(data) => MetaModel::TrackName(data@),
            MetaMessage::InstrumentName(data) => MetaModel::InstrumentName(data@),
            MetaMessage::Lyric(data) => MetaModel::Lyric(data@),
            MetaMessage::Marker(data) => MetaModel::Marker(data@),
            MetaMessage::CuePoint(data) => MetaModel::CuePoint(data@),
            MetaMessage::ProgramName(data) => MetaModel::ProgramName(data@),
            MetaMessage::DeviceName(data) => MetaModel::DeviceName(data@),
            MetaMessage::MidiChannel(channel) => MetaModel::MidiChannel(*channel),
            MetaMessage::MidiPort(port) => MetaModel::MidiPort(*port),
            MetaMessage::EndOfTrack => MetaModel::EndOfTrack,
            MetaMessage::Tempo(tempo) => MetaModel::Tempo(*tempo),
            MetaMessage::SmpteOffset(time) => MetaModel::SmpteOffset(*time),
            MetaMessage::TimeSignature(num, den, clocks, notes) => MetaModel::TimeSignature(
                *num,
                *den,
                *clocks,
                *notes,
            ),
            MetaMessage::KeySignature(sharps, minor) => MetaModel::KeySignature(*sharps, *minor),
            MetaMessage::SequencerSpecific(data) => MetaModel::SequencerSpecific(data@),
            MetaMessage::Unknown(type_byte, data) => MetaModel::Unknown(*type_byte, data@),
        }
    }
}

/// No message of a known type has this type byte and this many bytes of data.
pub open spec fn is_unknown(type_byte: u8, len: nat) -> bool {
    &&& type_byte > 0x09
    &&& type_byte == 0x20 ==> len < 1
    &&& type_byte == 0x21 ==> len < 1
    &&& type_byte != 0x2F
    &&& type_byte == 0x51 ==> len < 3
    &&& type_byte == 0x54 ==> len < 5
    &&& type_byte == 0x58 ==> len < 4
    &&& type_byte != 0x59
    &&& type_byte != 0x7F
}

/// What comes of a message that strict mode refuses, with `deviation`, where there is `surplus`.
pub open spec fn tolerating(
    mode: Mode,
    surplus: bool,
    deviation: Deviation,
    message: Result<MetaModel, Seq<ErrorKind>>,
) -> Result<MetaModel, Seq<ErrorKind>> {
    if mode == Mode::Strict && surplus {
        fails(ErrorKind::Pedantic(deviation))
    } else {
        message
    }
}

impl MetaModel {
    /// The message of a type byte and its data.
    pub open spec fn decode(type_byte: u8, data: Seq<u8>, mode: Mode) -> Result<
        MetaModel,
        Seq<ErrorKind>,
    > {
        let len = data.len();
        if is_unknown(type_byte, len) {
            tolerating(
                mode,
                true,
                Deviation::UnknownMetaType,
                Ok(MetaModel::Unknown(type_byte, data)),
            )
        } else if type_byte == 0x00 {
            tolerating(
                mode,
                len != 0 && len != 2,
                Deviation::TrackNumberLength,
                Ok(
                    MetaModel::TrackNumber(
                        if len >= 2 {
                            Some(big_endian_16(data))
                        } else {
                            None
                        },
                    ),
                ),
            )
        } else if type_byte == 0x01 {
            Ok(MetaModel::Text(data))
        } else if type_byte == 0x02 {
            Ok(MetaModel::Copyright(data))
        } else if type_byte == 0x03 {
            Ok(MetaModel::TrackName(data))
        } else if type_byte == 0x04 {
            Ok(MetaModel::InstrumentName(data))
        } else if type_byte == 0x05 {
            Ok(MetaModel::Lyric(data))
        } else if type_byte == 0x06 {
            Ok(MetaModel::Marker(data))
        } else if type_byte == 0x07 {
            Ok(MetaModel::CuePoint(data))
        } else if type_byte == 0x08 {
            Ok(MetaModel::ProgramName(data))
        } else if type_byte == 0x09 {
            Ok(MetaModel::DeviceName(data))
        } else if type_byte == 0x20 {
            tolerating(
                mode,
                len != 1,
                Deviation::MidiChannelLength,
                Ok(MetaModel::MidiChannel(u4::of(data[0]))),
            )
        } else if type_byte == 0x21 {
            tolerating(
                mode,
                len != 1,
                Deviation::MidiPortLength,
                Ok(MetaModel::MidiPort(u7::of(data[0]))),
            )
        } else if type_byte == 0x2F {
            tolerating(
                mode,
                len != 0,
                Deviation::EndOfTrackLength,
                Ok(MetaModel::EndOfTrack),
            )
        } else if type_byte == 0x51 {
            tolerating(
                mode,
                len != 3,
                Deviation::TempoLength,
                Ok(MetaModel::Tempo(u24::of(big_endian_24(data)))),
            )
        } else if type_byte == 0x54 {
            tolerating(
                mode,
                len != 5,
                Deviation::SmpteOffsetLength,
                match within(reading_smpte(data).outcome, Fault::SmpteTime) {
                    Ok(time) => Ok(MetaModel::SmpteOffset(time)),
                    Err(chain) => Err(chain),
                },
            )
        } else if type_byte == 0x58 {
            tolerating(
                mode,
                len != 4,
                Deviation::TimeSignatureLength,
                Ok(MetaModel::TimeSignature(data[0], data[1], data[2], data[3])),
            )
        } else if type_byte == 0x59 {
            if len >= 2 {
                Ok(MetaModel::KeySignature(data[0] as i8, data[1] != 0))
            } else {
                fails(ErrorKind::Invalid(Fault::Integer))
            }
        } else {
            Ok(MetaModel::SequencerSpecific(data))
        }
    }

    /// The type byte.
    pub open spec fn type_byte(self) -> u8 {
        match self {
            MetaModel::TrackNumber(_) => 0x00,
            MetaModel::Text(_) => 0x01,
            MetaModel::Copyright(_) => 0x02,
            MetaModel::TrackName(_) => 0x03,
            MetaModel::InstrumentName(_) => 0x04,
            MetaModel::Lyric(_) => 0x05,
            MetaModel::Marker(_) => 0x06,
            MetaModel::CuePoint(_) => 0x07,
            MetaModel::ProgramName(_) => 0x08,
            MetaModel::DeviceName(_) => 0x09,
            MetaModel::MidiChannel(_) => 0x20,
            MetaModel::MidiPort(_) => 0x21,
            MetaModel::EndOfTrack => 0x2F,
            MetaModel::Tempo(_) => 0x51,
            MetaModel::SmpteOffset(_) => 0x54,
            MetaModel::TimeSignature(_, _, _, _) => 0x58,
            MetaModel::KeySignature(_, _) => 0x59,
            MetaModel::SequencerSpecific(_) => 0x7F,
            MetaModel::Unknown(type_byte, _) => type_byte,
        }
    }

    /// The data after the type byte.
    pub open spec fn data(self) -> Seq<u8> {
        match self {
            MetaModel::TrackNumber(None) => seq![],
            MetaModel::TrackNumber(Some(number)) => seq![
                (number / 0x100) as u8,
                (number % 0x100) as u8,
            ],
            MetaModel::Text(data) => data,
            MetaModel::Copyright(data) => data,
            MetaModel::TrackName(data) => data,
            MetaModel::InstrumentName(data) => data,
            MetaModel::Lyric(data) => data,
            MetaModel::Marker(data) => data,
            MetaModel::CuePoint(data) => data,
            MetaModel::ProgramName(data) => data,
            MetaModel::DeviceName(data) => data,
            MetaModel::MidiChannel(channel) => seq![channel@],
            MetaModel::MidiPort(port) => seq![port@],
            MetaModel::EndOfTrack => seq![],
            MetaModel::Tempo(tempo) => seq![
                (tempo@ / 0x1_0000) as u8,
                (tempo@ / 0x100 % 0x100) as u8,
                (tempo@ % 0x100) as u8,
            ],
            MetaModel::SmpteOffset(time) => time@.bytes(),
            MetaModel::TimeSignature(num, den, clocks, notes) => seq![num, den, clocks, notes],
            MetaModel::KeySignature(sharps, minor) => seq![
                sharps as u8,
                if minor {
                    1
                } else {
                    0
                },
            ],
            MetaModel::SequencerSpecific(data) => data,
            MetaModel::Unknown(_, data) => data,
        }
    }

    /// The bytes of the message, without the status byte that goes ahead of them.
    pub open spec fn bytes(self) -> Seq<u8> {
        seq![self.type_byte()] + slice_bytes(self.data())
    }

    /// The length of the data can be written.
    pub open spec fn writable(self) -> bool {
        self.data().len() < VARLEN_LIMIT
    }

    /// All numbers in the message are in the ranges of their types.
    pub open spec fn valid(self) -> bool {
        match self {
            MetaModel::MidiChannel(channel) => channel@ < 16,
            MetaModel::MidiPort(port) => port@ < 128,
            MetaModel::Tempo(tempo) => tempo@ < 0x100_0000,
            MetaModel::SmpteOffset(time) => time@.valid(),
            _ => true,
        }
    }

    /// The message is not one of a known type in the guise of an unknown one.
    pub open spec fn in_own_form(self) -> bool {
        self matches MetaModel::Unknown(type_byte, data) ==> is_unknown(type_byte, data.len())
    }
}

/// Reads a meta message: a type byte, then data with its length ahead of it.
///
/// Once the data is read it is gone, even where the message is refused.
pub open spec fn reading_meta(raw: Seq<u8>, mode: Mode) -> Reading<MetaModel> {
    if raw.len() == 0 {
        Reading {
            rest: raw,
            outcome: within(fails(ErrorKind::Invalid(Fault::Integer)), Fault::MetaType),
        }
    } else {
        let data = reading_slice(raw.skip(1));
        Reading {
            rest: data.rest,
            outcome: match within(data.outcome, Fault::MetaData) {
                Ok(data) => MetaModel::decode(raw[0], data, mode),
                Err(chain) => Err(chain),
            },
        }
    }
}

/// Writes a type byte and data with its length ahead of it. Where the length does not fit in 28
/// bits only the type byte is written.
fn write_msg(type_byte: u8, data: &[u8], out: &mut Vec<u8>) -> (r: Result<(), WriteError>)
    ensures
        r is Ok <==> data@.len() < VARLEN_LIMIT,
        r is Err ==> r == Err::<(), WriteError>(WriteError::SliceTooLong),
        final(out)@ == old(out)@ + (if data@.len() < VARLEN_LIMIT {
            seq![type_byte] + slice_bytes(data@)
        } else {
            seq![type_byte]
        }),
{
    out.push(type_byte);
    let r = write_varlen_slice(data, out);
    assert(data@.len() < VARLEN_LIMIT ==> out@ == old(out)@ + (seq![type_byte] + slice_bytes(
        data@,
    )));
    assert(data@.len() >= VARLEN_LIMIT ==> out@ == old(out)@ + seq![type_byte]);
    r
}

impl MetaMessage {
    /// Reads a meta message: a type byte, then data with its length ahead of it.
    pub fn read(raw: &mut &[u8], mode: Mode) -> (r: Result<MetaMessage, Error>)
        ensures
            outcome(r) == reading_meta(old(raw)@, mode).outcome,
            final(raw)@ == reading_meta(old(raw)@, mode).rest,
            old(raw)@.len() > 0 && reading_slice(old(raw)@.skip(1)).outcome is Ok ==> {
                let data = reading_slice(old(raw)@.skip(1)).outcome->Ok_0;
                let type_byte = old(raw)@[0];
                &&& type_byte == 0x01 ==> (r matches Ok(MetaMessage::Text(text))
                    && text@ == data)
                &&& type_byte == 0x02 ==> (r matches Ok(MetaMessage::Copyright(text))
                    && text@ == data)
                &&& type_byte == 0x03 ==> (r matches Ok(MetaMessage::TrackName(text))
                    && text@ == data)
                &&& type_byte == 0x04 ==> (r matches Ok(MetaMessage::InstrumentName(text))
                    && text@ == data)
                &&& type_byte == 0x05 ==> (r matches Ok(MetaMessage::Lyric(text))
                    && text@ == data)
                &&& type_byte == 0x06 ==> (r matches Ok(MetaMessage::Marker(text))
                    && text@ == data)
                &&& type_byte == 0x07 ==> (r matches Ok(MetaMessage::CuePoint(text))
                    && text@ == data)
                &&& type_byte == 0x08 ==> (r matches Ok(MetaMessage::ProgramName(text))
                    && text@ == data)
                &&& type_byte == 0x09 ==> (r matches Ok(MetaMessage::DeviceName(text))
                    && text@ == data)
                &&& type_byte == 0x7F ==> (r matches Ok(MetaMessage::SequencerSpecific(text))
                    && text@ == data)
            },
    {
        let type_byte = match context(read_u8(raw), Fault::MetaType) {
            Ok(type_byte) => type_byte,
            Err(error) => {
                return Err(error);
            },
        };
        let data = match context(read_varlen_slice(raw), Fault::MetaData) {
            Ok(data) => data,
            Err(error) => {
                return Err(error);
            },
        };
        MetaMessage::decode(type_byte, data, mode)
    }

    /// The message of a type byte and its data.
    fn decode(type_byte: u8, data: &[u8], mode: Mode) -> (r: Result<MetaMessage, Error>)
        ensures
            outcome(r) == MetaModel::decode(type_byte, data@, mode),
    {
        let strict = match mode {
            Mode::Strict => true,
            Mode::Lenient => false,
        };
        let len = data.len();
        let mut data = data;
        match type_byte {
            0x00 => {
                if strict && len != 0 && len != 2 {
                    return Err(pedantic(Deviation::TrackNumberLength));
                }
                if len >= 2 {
                    match read_u16(&mut data) {
                        Ok(number) => Ok(MetaMessage::TrackNumber(Some(number))),
                        Err(error) => Err(error),
                    }
                } else {
                    Ok(MetaMessage::TrackNumber(None))
                }
            },
            0x01 => Ok(MetaMessage::Text(slice_to_vec(data))),
            0x02 => Ok(MetaMessage::Copyright(slice_to_vec(data))),
            0x03 => Ok(MetaMessage::TrackName(slice_to_vec(data))),
            0x04 => Ok(MetaMessage::InstrumentName(slice_to_vec(data))),
            0x05 => Ok(MetaMessage::Lyric(slice_to_vec(data))),
            0x06 => Ok(MetaMessage::Marker(slice_to_vec(data))),
            0x07 => Ok(MetaMessage::CuePoint(slice_to_vec(data))),
            0x08 => Ok(MetaMessage::ProgramName(slice_to_vec(data))),
            0x09 => Ok(MetaMessage::DeviceName(slice_to_vec(data))),
            0x20 if len >= 1 => {
                if strict && len != 1 {
                    return Err(pedantic(Deviation::MidiChannelLength));
                }
                match u4::read(&mut data) {
                    Ok(channel) => Ok(MetaMessage::MidiChannel(channel)),
                    Err(error) => Err(error),
                }
            },
            0x21 if len >= 1 => {
                if strict && len != 1 {
                    return Err(pedantic(Deviation::MidiPortLength));
                }
                match u7::read(&mut data) {
                    Ok(port) => Ok(MetaMessage::MidiPort(port)),
                    Err(error) => Err(error),
                }
            },
            0x2F => {
                if strict && len != 0 {
                    return Err(pedantic(Deviation::EndOfTrackLength));
                }
                Ok(MetaMessage::EndOfTrack)
            },
            0x51 if len >= 3 => {
                if strict && len != 3 {
                    return Err(pedantic(Deviation::TempoLength));
                }
                match u24::read(&mut data) {
                    Ok(tempo) => Ok(MetaMessage::Tempo(tempo)),
                    Err(error) => Err(error),
                }
            },
            0x54 if len >= 5 => {
                if strict && len != 5 {
                    return Err(pedantic(Deviation::SmpteOffsetLength));
                }
                match context(SmpteTime::read(&mut data), Fault::SmpteTime) {
                    Ok(time) => Ok(MetaMessage::SmpteOffset(time)),
                    Err(error) => Err(error),
                }
            },
            0x58 if len >= 4 => {
                if strict && len != 4 {
                    return Err(pedantic(Deviation::TimeSignatureLength));
                }
                Ok(MetaMessage::TimeSignature(data[0], data[1], data[2], data[3]))
            },
            0x59 => {
                if len < 2 {
                    return Err(invalid(Fault::Integer));
                }
                Ok(MetaMessage::KeySignature(data[0] as i8, data[1] != 0))
            },
            0x7F => Ok(MetaMessage::SequencerSpecific(slice_to_vec(data))),
            _ => {
                if strict {
                    Err(pedantic(Deviation::UnknownMetaType))
                } else {
                    Ok(MetaMessage::Unknown(type_byte, slice_to_vec(data)))
                }
            },
        }
    }

    /// Writes the message, without the status byte that goes ahead of it.
    ///
    /// Where its data is too long only the type byte is written.
    pub fn write(&self, out: &mut Vec<u8>) -> (r: Result<(), WriteError>)
        ensures
            r is Ok <==> self@.writable(),
            r is Err ==> r == Err::<(), WriteError>(WriteError::SliceTooLong),
            final(out)@ == old(out)@ + (if self@.writable() {
                self@.bytes()
            } else {
                seq![self@.type_byte()]
            }),
            self@.valid(),
            match *self {
                MetaMessage::Text(data) => {
                    &&& r is Ok <==> data@.len() < 0x1000_0000
                    &&& r is Ok ==> final(out)@ == old(out)@ + (seq![0x01u8] + varlen_bytes(
                        data@.len(),
                    ) + data@)
                },
                MetaMessage::Copyright(data) => {
                    &&& r is Ok <==> data@.len() < 0x1000_0000
                    &&& r is Ok ==> final(out)@ == old(out)@ + (seq![0x02u8] + varlen_bytes(
                        data@.len(),
                    ) + data@)
                },
                MetaMessage::TrackName(data) => {
                    &&& r is Ok <==> data@.len() < 0x1000_0000
                    &&& r is Ok ==> final(out)@ == old(out)@ + (seq![0x03u8] + varlen_bytes(
                        data@.len(),
                    ) + data@)
                },
                MetaMessage::InstrumentName(data) => {
                    &&& r is Ok <==> data@.len() < 0x1000_0000
                    &&& r is Ok ==> final(out)@ == old(out)@ + (seq![0x04u8] + varlen_bytes(
                        data@.len(),
                    ) + data@)
                },
                MetaMessage::Lyric(data) => {
                    &&& r is Ok <==> data@.len() < 0x1000_0000
                    &&& r is Ok ==> final(out)@ == old(out)@ + (seq![0x05u8] + varlen_bytes(
                        data@.len(),
                    ) + data@)
                },
                MetaMessage::Marker(data) => {
                    &&& r is Ok <==> data@.len() < 0x1000_0000
                    &&& r is Ok ==> final(out)@ == old(out)@ + (seq![0x06u8] + varlen_bytes(
                        data@.len(),
                    ) + data@)
                },
                MetaMessage::CuePoint(data) => {
                    &&& r is Ok <==> data@.len() < 0x1000_0000
                    &&& r is Ok ==> final(out)@ == old(out)@ + (seq![0x07u8] + varlen_bytes(
                        data@.len(),
                    ) + data@)
                },
                MetaMessage::ProgramName(data) => {
                    &&& r is Ok <==> data@.len() < 0x1000_0000
                    &&& r is Ok ==> final(out)@ == old(out)@ + (seq![0x08u8] + varlen_bytes(
                        data@.len(),
                    ) + data@)
                },
                MetaMessage::DeviceName(data) => {
                    &&& r is Ok <==> data@.len() < 0x1000_0000
                    &&& r is Ok ==> final(out)@ == old(out)@ + (seq![0x09u8] + varlen_bytes(
                        data@.len(),
                    ) + data@)
                },
                MetaMessage::SequencerSpecific(data) => {
                    &&& r is Ok <==> data@.len() < 0x1000_0000
                    &&& r is Ok ==> final(out)@ == old(out)@ + (seq![0x7Fu8] + varlen_bytes(
                        data@.len(),
                    ) + data@)
                },
                MetaMessage::Unknown(type_byte, data) => {
                    &&& r is Ok <==> data@.len() < 0x1000_0000
                    &&& r is Ok ==> final(out)@ == old(out)@ + (seq![type_byte] + varlen_bytes(
                        data@.len(),
                    ) + data@)
                },
                _ => r is Ok,
            },
    {
        let ghost data = self@.data();
        proof {
            lemma_concat(seq![self@.type_byte()], varlen_bytes(data.len()), data);
        }
        match self {
            MetaMessage::TrackNumber(None) => {
                let bytes: [u8; 0] = [];
                assert(bytes@ == data);
                write_msg(0x00, &bytes, out)
            },
            MetaMessage::TrackNumber(Some(number)) => {
                let bytes = [(*number / 0x100) as u8, (*number % 0x100) as u8];
                assert(bytes@ == data);
                write_msg(0x00, &bytes, out)
            },
            MetaMessage::Text(data) => write_msg(0x01, data, out),
            MetaMessage::Copyright(data) => write_msg(0x02, data, out),
            MetaMessage::TrackName(data) => write_msg(0x03, data, out),
            MetaMessage::InstrumentName(data) => write_msg(0x04, data, out),
            MetaMessage::Lyric(data) => write_msg(0x05, data, out),
            MetaMessage::Marker(data) => write_msg(0x06, data, out),
            MetaMessage::CuePoint(data) => write_msg(0x07, data, out),
            MetaMessage::ProgramName(data) => write_msg(0x08, data, out),
            MetaMessage::DeviceName(data) => write_msg(0x09, data, out),
            MetaMessage::MidiChannel(channel) => {
                let bytes = [channel.as_int()];
                assert(bytes@ == data);
                write_msg(0x20, &bytes, out)
            },
            MetaMessage::MidiPort(port) => {
                let bytes = [port.as_int()];
                assert(bytes@ == data);
                write_msg(0x21, &bytes, out)
            },
            MetaMessage::EndOfTrack => {
                let bytes: [u8; 0] = [];
                assert(bytes@ == data);
                write_msg(0x2F, &bytes, out)
            },
            MetaMessage::Tempo(tempo) => {
                let micros = tempo.as_int();
                let bytes = [
                    (micros / 0x1_0000) as u8,
                    (micros / 0x100 % 0x100) as u8,
                    (micros % 0x100) as u8,
                ];
                assert(bytes@ == data);
                write_msg(0x51, &bytes, out)
            },
            MetaMessage::SmpteOffset(time) => {
                let bytes = time.encode();
                write_msg(0x54, &bytes, out)
            },
            MetaMessage::TimeSignature(num, den, clocks, notes) => {
                let bytes = [*num, *den, *clocks, *notes];
                assert(bytes@ == data);
                write_msg(0x58, &bytes, out)
            },
            MetaMessage::KeySignature(sharps, minor) => {
                let bytes = [
                    *sharps as u8,
                    if *minor {
                        1
                    } else {
                        0
                    },
                ];
                assert(bytes@ == data);
                write_msg(0x59, &bytes, out)
            },
            MetaMessage::SequencerSpecific(data) => write_msg(0x7F, data, out),
            MetaMessage::Unknown(type_byte, data) => write_msg(*type_byte, data, out),
        }
    }
}

proof fn lemma_concat(a: Seq<u8>, b: Seq<u8>, c: Seq<u8>)
    ensures
        a + b + c == a + (b + c),
{
    assert(a + b + c == a + (b + c));
}

proof fn lemma_decode_data(message: MetaModel, mode: Mode)
    requires
        message.valid(),
        message.in_own_form(),
        mode == Mode::Strict ==> !(message is Unknown),
    ensures
        MetaModel::decode(message.type_byte(), message.data(), mode) == Ok::<
            MetaModel,
            Seq<ErrorKind>,
        >(message),
{
    broadcast use group_narrow_ints;

    match message {
        MetaModel::SmpteOffset(time) => {
            law_smpte_round_trip(time, seq![]);
            assert(time@.bytes() + Seq::<u8>::empty() == time@.bytes());
        },
        MetaModel::KeySignature(sharps, minor) => {
            assert((sharps as u8) as i8 == sharps) by (bit_vector);
        },
        _ => {},
    }
}

/// A meta message that was written is read back, and what follows it is left alone.
///
/// This leaves out a known type in the guise of an unknown one, which is read as what it is, and in
/// strict mode the unknown types, which are refused.
pub proof fn law_meta_round_trip(message: MetaModel, mode: Mode, tail: Seq<u8>)
    requires
        message.valid(),
        message.writable(),
        message.in_own_form(),
        mode == Mode::Strict ==> !(message is Unknown),
    ensures
        reading_meta(message.bytes() + tail, mode) == (Reading {
            rest: tail,
            outcome: Ok(message),
        }),
{
    let raw = message.bytes() + tail;
    law_slice_round_trip(message.data(), tail);
    lemma_decode_data(message, mode);
    assert(raw.skip(1) == slice_bytes(message.data()) + tail);
}

/// A meta message that was read can be written, and is in the form in which it is read back.
pub proof fn law_meta_read_is_writable(raw: Seq<u8>, mode: Mode)
    requires
        reading_meta(raw, mode).outcome is Ok,
    ensures
        reading_meta(raw, mode).outcome->Ok_0.valid(),
        reading_meta(raw, mode).outcome->Ok_0.writable(),
        reading_meta(raw, mode).outcome->Ok_0.in_own_form(),
{
    broadcast use {group_narrow_ints, group_smpte};

    law_slice_local(raw.skip(1), seq![]);
}

/// Reading a meta message depends on the bytes that it takes alone.
pub proof fn law_meta_local(raw: Seq<u8>, mode: Mode, tail: Seq<u8>)
    requires
        reading_meta(raw, mode).outcome is Ok,
    ensures
        reading_meta(raw, mode).rest.len() < raw.len(),
        reading_meta(raw, mode).rest == raw.skip(raw.len() - reading_meta(raw, mode).rest.len()),
        reading_meta(raw.take(raw.len() - reading_meta(raw, mode).rest.len()) + tail, mode) == (
        Reading { rest: tail, outcome: reading_meta(raw, mode).outcome }),
{
    let body = raw.skip(1);
    let used = body.len() - reading_slice(body).rest.len();
    law_slice_local(body, tail);
    assert((raw.take(used + 1) + tail).skip(1) == body.take(used) + tail);
    assert(body.skip(used) == raw.skip(used + 1));
}

/// What strict mode accepts, lenient mode reads as the same message; and strict mode accepts no
/// message of unknown type. Both take the same bytes off the input.
pub proof fn law_meta_modes(raw: Seq<u8>)
    ensures
        reading_meta(raw, Mode::Strict).rest == reading_meta(raw, Mode::Lenient).rest,
        reading_meta(raw, Mode::Strict).outcome is Ok ==> {
            &&& reading_meta(raw, Mode::Lenient).outcome == reading_meta(raw, Mode::Strict).outcome
            &&& !(reading_meta(raw, Mode::Strict).outcome->Ok_0 is Unknown)
        },
{
}

} // verus!
