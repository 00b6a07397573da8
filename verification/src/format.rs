//! The format of events, byte by byte.
//!
//! The laws here say, for every input, what the bytes of an event mean and which bytes stand for it.

use crate::error::{outcome, plain, Deviation, Error, ErrorKind, Fault, Mode};
use crate::event::{
    event_body, reading_body, reading_event, reading_kind, Event, EventKind, EventModel, EventReading,
    KindModel,
};
use crate::input::Reading;
use crate::meta::{reading_meta, MetaMessage, MetaModel};
use crate::midi::{reading_midi, MidiMessage};
use crate::primitive::{group_narrow_ints, u14, u24, u28, u4, u7};
use crate::smpte::{group_smpte, reading_smpte, Fps, SmpteFields, SmpteTime};
use crate::varlen::{
    digits_value, law_varlen_local, law_varlen_round_trip, leading_digits, reading_slice,
    reading_varlen, varlen_bytes, varlen_width,
};
use vstd::prelude::*;

verus! {

/// An integer of variable length is written in base 128, in one to four bytes, of which all but the
/// last have their top bits set.
pub proof fn law_varlen_written(n: nat)
    requires
        n < 0x1000_0000,
    ensures
        n < 0x80 ==> varlen_bytes(n) == seq![n as u8],
        0x80 <= n < 0x4000 ==> varlen_bytes(n) == seq![
            (0x80 + n / 0x80) as u8,
            (n % 0x80) as u8,
        ],
        0x4000 <= n < 0x20_0000 ==> varlen_bytes(n) == seq![
            (0x80 + n / 0x4000) as u8,
            (0x80 + n / 0x80 % 0x80) as u8,
            (n % 0x80) as u8,
        ],
        0x20_0000 <= n ==> varlen_bytes(n) == seq![
            (0x80 + n / 0x20_0000) as u8,
            (0x80 + n / 0x4000 % 0x80) as u8,
            (0x80 + n / 0x80 % 0x80) as u8,
            (n % 0x80) as u8,
        ],
{
    reveal_with_fuel(leading_digits, 5);
}

/// One to four bytes, of which all but the last have their top bits set, are read as the number that
/// they make up in base 128. What follows them is left alone.
pub proof fn law_varlen_read(a: u8, b: u8, c: u8, d: u8, tail: Seq<u8>)
    requires
        a >= 0x80,
        b >= 0x80,
        c >= 0x80,
        d < 0x80,
    ensures
        reading_varlen(seq![d] + tail).rest == tail,
        reading_varlen(seq![d] + tail).outcome matches Ok(n) && n@ == d,
        reading_varlen(seq![c, d] + tail).rest == tail,
        reading_varlen(seq![c, d] + tail).outcome matches Ok(n) && n@ == (c - 0x80) * 0x80 + d,
        reading_varlen(seq![b, c, d] + tail).rest == tail,
        reading_varlen(seq![b, c, d] + tail).outcome matches Ok(n) && n@ == (b - 0x80) * 0x4000 + (c
            - 0x80) * 0x80 + d,
        reading_varlen(seq![a, b, c, d] + tail).rest == tail,
        reading_varlen(seq![a, b, c, d] + tail).outcome matches Ok(n) && n@ == (a - 0x80)
            * 0x20_0000 + (b - 0x80) * 0x4000 + (c - 0x80) * 0x80 + d,
{
    lemma_digits(a, b, c, d);
    lemma_varlen_read(seq![d], tail);
    lemma_varlen_read(seq![c, d], tail);
    lemma_varlen_read(seq![b, c, d], tail);
    lemma_varlen_read(seq![a, b, c, d], tail);
}

proof fn lemma_digits(a: u8, b: u8, c: u8, d: u8)
    requires
        a >= 0x80,
        b >= 0x80,
        c >= 0x80,
        d < 0x80,
    ensures
        digits_value(seq![d]) == d,
        digits_value(seq![c, d]) == (c - 0x80) * 0x80 + d,
        digits_value(seq![b, c, d]) == (b - 0x80) * 0x4000 + (c - 0x80) * 0x80 + d,
        digits_value(seq![a, b, c, d]) == (a - 0x80) * 0x20_0000 + (b - 0x80) * 0x4000 + (c - 0x80)
            * 0x80 + d,
{
    reveal_with_fuel(digits_value, 5);
    assert(seq![d].drop_last() == Seq::<u8>::empty());
    assert(seq![c, d].drop_last() == seq![c]);
    assert(seq![c].drop_last() == Seq::<u8>::empty());
    assert(seq![b, c, d].drop_last() == seq![b, c]);
    assert(seq![b, c].drop_last() == seq![b]);
    assert(seq![b].drop_last() == Seq::<u8>::empty());
    assert(seq![a, b, c, d].drop_last() == seq![a, b, c]);
    assert(seq![a, b, c].drop_last() == seq![a, b]);
    assert(seq![a, b].drop_last() == seq![a]);
    assert(seq![a].drop_last() == Seq::<u8>::empty());
}

proof fn lemma_varlen_read(form: Seq<u8>, tail: Seq<u8>)
    requires
        1 <= form.len() <= 4,
        forall|i: int| 0 <= i < form.len() - 1 ==> form[i] >= 0x80,
        form.last() < 0x80,
        digits_value(form) < 0x1000_0000,
    ensures
        reading_varlen(form + tail).rest == tail,
        reading_varlen(form + tail).outcome matches Ok(n) && n@ == digits_value(form),
{
    broadcast use group_narrow_ints;

    let raw = form + tail;
    crate::varlen::lemma_width(raw, form.len() - 1);
    assert(raw.take(form.len() as int) == form);
    assert(raw.skip(form.len() as int) == tail);
}

/// Where the input ends inside an integer of variable length, or the integer goes on after its
/// fourth byte, reading fails.
pub proof fn law_varlen_refused(raw: Seq<u8>)
    ensures
        raw.len() < 4 && (forall|i: int| 0 <= i < raw.len() ==> raw[i] >= 0x80) ==> reading_varlen(
            raw,
        ) == (Reading::<u28> {
            rest: seq![],
            outcome: Err(seq![ErrorKind::Invalid(Fault::Integer)]),
        }),
        raw.len() >= 4 && raw[0] >= 0x80 && raw[1] >= 0x80 && raw[2] >= 0x80 && raw[3] >= 0x80
            ==> reading_varlen(raw) == (Reading::<u28> {
            rest: raw.skip(4),
            outcome: Err(seq![ErrorKind::Invalid(Fault::VarlenLength)]),
        }),
{
    reveal_with_fuel(varlen_width, 6);
}

proof fn lemma_form(form: Seq<u8>, n: u28, tail: Seq<u8>)
    requires
        reading_varlen(form) == (Reading { rest: Seq::<u8>::empty(), outcome: Ok(n) }),
    ensures
        reading_varlen(form + tail) == (Reading { rest: tail, outcome: Ok(n) }),
{
    law_varlen_local(form, tail);
    assert(form.take(form.len() as int) == form);
}

/// A byte string is its length, in any form, and then its bytes in order. What follows them is left
/// alone.
pub proof fn law_slice_read(form: Seq<u8>, len: u28, data: Seq<u8>, tail: Seq<u8>)
    requires
        reading_varlen(form) == (Reading { rest: Seq::<u8>::empty(), outcome: Ok(len) }),
        len@ == data.len(),
    ensures
        reading_slice(form + data + tail) == (Reading { rest: tail, outcome: Ok(data) }),
{
    lemma_form(form, len, data + tail);
    assert(form + data + tail == form + (data + tail));
    assert((data + tail).take(data.len() as int) == data);
    assert((data + tail).skip(data.len() as int) == tail);
}

/// A byte string of which the length cannot be read, or that is shorter than its length says, is
/// refused.
pub proof fn law_slice_refused(form: Seq<u8>, len: u28, data: Seq<u8>, raw: Seq<u8>)
    ensures
        reading_varlen(form) == (Reading { rest: Seq::<u8>::empty(), outcome: Ok(len) })
            && data.len() < len@ ==> reading_slice(form + data) == (Reading::<Seq<u8>> {
            rest: data,
            outcome: Err(seq![ErrorKind::Invalid(Fault::SliceData)]),
        }),
        reading_varlen(raw).outcome matches Err(chain) ==> reading_slice(raw) == (Reading::<Seq<u8>> {
            rest: reading_varlen(raw).rest,
            outcome: Err(chain.push(ErrorKind::Invalid(Fault::SliceLength))),
        }),
{
    if reading_varlen(form) == (Reading { rest: Seq::<u8>::empty(), outcome: Ok(len) }) {
        lemma_form(form, len, data);
    }
}

/// A SMPTE time has the rate and the hour in its first byte, and minute, second, frame and hundredths
/// of a frame in one byte each. It is refused where one of them is out of its range.
pub proof fn law_smpte_read(
    first: u8,
    minute: u8,
    second: u8,
    frame: u8,
    subframe: u8,
    tail: Seq<u8>,
)
    ensures
        ({
            let r = reading_smpte(seq![first, minute, second, frame, subframe] + tail);
            let code = first / 32 % 4;
            let in_range = first % 32 < 24 && minute < 60 && second < 60 && frame < (if code == 0 {
                24int
            } else if code == 1 {
                25
            } else {
                30
            }) && subframe < 100;
            &&& r.rest == tail
            &&& in_range ==> {
                &&& r.outcome is Ok
                &&& r.outcome->Ok_0@.hour == first % 32
                &&& r.outcome->Ok_0@.minute == minute
                &&& r.outcome->Ok_0@.second == second
                &&& r.outcome->Ok_0@.frame == frame
                &&& r.outcome->Ok_0@.subframe == subframe
                &&& r.outcome->Ok_0@.fps == (if code == 0 {
                    Fps::Fps24
                } else if code == 1 {
                    Fps::Fps25
                } else if code == 2 {
                    Fps::Fps29
                } else {
                    Fps::Fps30
                })
            }
            &&& !in_range ==> r.outcome == Err::<SmpteTime, Seq<ErrorKind>>(
                seq![ErrorKind::Invalid(Fault::SmpteField)],
            )
        }),
{
    broadcast use group_smpte;

    let raw = seq![first, minute, second, frame, subframe] + tail;
    assert(raw.skip(5) == tail);
}

/// A SMPTE time needs five bytes.
pub proof fn law_smpte_cut(raw: Seq<u8>)
    requires
        raw.len() < 5,
    ensures
        reading_smpte(raw) == (Reading::<SmpteTime> {
            rest: raw,
            outcome: Err(seq![ErrorKind::Invalid(Fault::Integer)]),
        }),
{
}

/// How a SMPTE time is written, and which ones there are.
pub proof fn law_smpte_written(time: SmpteFields)
    ensures
        time.valid() <==> time.hour < 24 && time.minute < 60 && time.second < 60 && time.frame < (
        match time.fps {
            Fps::Fps24 => 24int,
            Fps::Fps25 => 25,
            Fps::Fps29 => 30,
            Fps::Fps30 => 30,
        }) && time.subframe < 100,
        time.valid() ==> time.bytes() == seq![
            (time.hour + match time.fps {
                Fps::Fps24 => 0int,
                Fps::Fps25 => 32,
                Fps::Fps29 => 64,
                Fps::Fps30 => 96,
            }) as u8,
            time.minute,
            time.second,
            time.frame,
            time.subframe,
        ],
{
}

/// What the data bytes of a MIDI message mean after each status. Of a data byte the low 7 bits count,
/// and of a pitch bend the less significant ones come first.
pub proof fn law_midi_read(status: u8, a: u8, b: u8, tail: Seq<u8>)
    ensures
        ({
            let one = reading_midi(seq![a] + tail, status);
            let two = reading_midi(seq![a, b] + tail, status);
            &&& 0x80 <= status <= 0x8F ==> two.rest == tail && (two.outcome matches Ok(
                MidiMessage::NoteOff { key, vel },
            ) && key@ == a % 128 && vel@ == b % 128)
            &&& 0x90 <= status <= 0x9F ==> two.rest == tail && (two.outcome matches Ok(
                MidiMessage::NoteOn { key, vel },
            ) && key@ == a % 128 && vel@ == b % 128)
            &&& 0xA0 <= status <= 0xAF ==> two.rest == tail && (two.outcome matches Ok(
                MidiMessage::Aftertouch { key, vel },
            ) && key@ == a % 128 && vel@ == b % 128)
            &&& 0xB0 <= status <= 0xBF ==> two.rest == tail && (two.outcome matches Ok(
                MidiMessage::Controller { controller, value },
            ) && controller@ == a % 128 && value@ == b % 128)
            &&& 0xC0 <= status <= 0xCF ==> one.rest == tail && (one.outcome matches Ok(
                MidiMessage::ProgramChange { program },
            ) && program@ == a % 128)
            &&& 0xD0 <= status <= 0xDF ==> one.rest == tail && (one.outcome matches Ok(
                MidiMessage::ChannelAftertouch { vel },
            ) && vel@ == a % 128)
            &&& 0xE0 <= status <= 0xEF ==> two.rest == tail && (two.outcome matches Ok(
                MidiMessage::PitchBend { bend },
            ) && bend@ == b % 128 * 128 + a % 128)
        }),
{
    broadcast use group_narrow_ints;

    assert((seq![a] + tail).skip(1) == tail);
    assert((seq![a, b] + tail).skip(2) == tail);
}

/// A MIDI message needs a status of its own and all of its data bytes.
pub proof fn law_midi_refused(raw: Seq<u8>, status: u8)
    ensures
        status < 0x80 || status > 0xEF ==> reading_midi(raw, status) == (Reading::<MidiMessage> {
            rest: raw,
            outcome: Err(seq![ErrorKind::Invalid(Fault::MidiStatus)]),
        }),
        0x80 <= status <= 0xEF && (raw.len() == 0 || raw.len() == 1 && !(0xC0 <= status <= 0xDF))
            ==> reading_midi(raw, status) == (Reading::<MidiMessage> {
            rest: seq![],
            outcome: Err(seq![ErrorKind::Invalid(Fault::Integer)]),
        }),
{
}

/// The status byte and the data bytes of each MIDI message.
pub proof fn law_midi_written(channel: u4, a: u7, b: u7, bend: u14)
    requires
        channel@ < 16,
        a@ < 128,
        b@ < 128,
        bend@ < 0x4000,
    ensures
        (MidiMessage::NoteOff { key: a, vel: b }).nibble() == 0x8,
        (MidiMessage::NoteOff { key: a, vel: b }).status(channel) == 0x80 + channel@,
        (MidiMessage::NoteOff { key: a, vel: b }).data() == seq![a@, b@],
        (MidiMessage::NoteOn { key: a, vel: b }).nibble() == 0x9,
        (MidiMessage::NoteOn { key: a, vel: b }).status(channel) == 0x90 + channel@,
        (MidiMessage::NoteOn { key: a, vel: b }).data() == seq![a@, b@],
        (MidiMessage::Aftertouch { key: a, vel: b }).nibble() == 0xA,
        (MidiMessage::Aftertouch { key: a, vel: b }).status(channel) == 0xA0 + channel@,
        (MidiMessage::Aftertouch { key: a, vel: b }).data() == seq![a@, b@],
        (MidiMessage::Controller { controller: a, value: b }).nibble() == 0xB,
        (MidiMessage::Controller { controller: a, value: b }).status(channel) == 0xB0 + channel@,
        (MidiMessage::Controller { controller: a, value: b }).data() == seq![a@, b@],
        (MidiMessage::ProgramChange { program: a }).nibble() == 0xC,
        (MidiMessage::ProgramChange { program: a }).status(channel) == 0xC0 + channel@,
        (MidiMessage::ProgramChange { program: a }).data() == seq![a@],
        (MidiMessage::ChannelAftertouch { vel: a }).nibble() == 0xD,
        (MidiMessage::ChannelAftertouch { vel: a }).status(channel) == 0xD0 + channel@,
        (MidiMessage::ChannelAftertouch { vel: a }).data() == seq![a@],
        (MidiMessage::PitchBend { bend }).nibble() == 0xE,
        (MidiMessage::PitchBend { bend }).status(channel) == 0xE0 + channel@,
        (MidiMessage::PitchBend { bend }).data() == seq![(bend@ % 128) as u8, (bend@ / 128) as u8],
{
}

/// Reading a meta message needs its type, its length and all of its data.
pub proof fn law_meta_refused(type_byte: u8, body: Seq<u8>, mode: Mode)
    ensures
        reading_meta(Seq::<u8>::empty(), mode) == (Reading::<MetaModel> {
            rest: seq![],
            outcome: Err(
                seq![ErrorKind::Invalid(Fault::Integer), ErrorKind::Invalid(Fault::MetaType)],
            ),
        }),
        reading_slice(body).outcome matches Err(chain) ==> reading_meta(seq![type_byte] + body, mode)
            == (Reading::<MetaModel> {
            rest: reading_slice(body).rest,
            outcome: Err(chain.push(ErrorKind::Invalid(Fault::MetaData))),
        }),
{
    assert((seq![type_byte] + body).skip(1) == body);
    assert(seq![ErrorKind::Invalid(Fault::Integer)].push(ErrorKind::Invalid(Fault::MetaType))
        == seq![ErrorKind::Invalid(Fault::Integer), ErrorKind::Invalid(Fault::MetaType)]);
}

proof fn lemma_meta_frame(
    type_byte: u8,
    form: Seq<u8>,
    len: u28,
    data: Seq<u8>,
    mode: Mode,
    tail: Seq<u8>,
)
    requires
        reading_varlen(form) == (Reading { rest: Seq::<u8>::empty(), outcome: Ok(len) }),
        len@ == data.len(),
    ensures
        reading_meta(seq![type_byte] + form + data + tail, mode) == (Reading {
            rest: tail,
            outcome: MetaModel::decode(type_byte, data, mode),
        }),
{
    let raw = seq![type_byte] + form + data + tail;
    law_slice_read(form, len, data, tail);
    assert(raw.skip(1) == form + data + tail);
    assert(raw[0] == type_byte);
}

/// The data of a text, or of what is meant for one sequencer, is the text itself: all of it, in
/// order.
#[verifier::rlimit(30)]
pub proof fn law_meta_text_read(
    form: Seq<u8>,
    len: u28,
    data: Seq<u8>,
    mode: Mode,
    tail: Seq<u8>,
)
    requires
        reading_varlen(form) == (Reading { rest: Seq::<u8>::empty(), outcome: Ok(len) }),
        len@ == data.len(),
    ensures
        reading_meta(seq![0x01u8] + form + data + tail, mode) == (Reading {
            rest: tail,
            outcome: Ok(MetaModel::Text(data)),
        }),
        reading_meta(seq![0x02u8] + form + data + tail, mode) == (Reading {
            rest: tail,
            outcome: Ok(MetaModel::Copyright(data)),
        }),
        reading_meta(seq![0x03u8] + form + data + tail, mode) == (Reading {
            rest: tail,
            outcome: Ok(MetaModel::TrackName(data)),
        }),
        reading_meta(seq![0x04u8] + form + data + tail, mode) == (Reading {
            rest: tail,
            outcome: Ok(MetaModel::InstrumentName(data)),
        }),
        reading_meta(seq![0x05u8] + form + data + tail, mode) == (Reading {
            rest: tail,
            outcome: Ok(MetaModel::Lyric(data)),
        }),
        reading_meta(seq![0x06u8] + form + data + tail, mode) == (Reading {
            rest: tail,
            outcome: Ok(MetaModel::Marker(data)),
        }),
        reading_meta(seq![0x07u8] + form + data + tail, mode) == (Reading {
            rest: tail,
            outcome: Ok(MetaModel::CuePoint(data)),
        }),
        reading_meta(seq![0x08u8] + form + data + tail, mode) == (Reading {
            rest: tail,
            outcome: Ok(MetaModel::ProgramName(data)),
        }),
        reading_meta(seq![0x09u8] + form + data + tail, mode) == (Reading {
            rest: tail,
            outcome: Ok(MetaModel::DeviceName(data)),
        }),
        reading_meta(seq![0x7Fu8] + form + data + tail, mode) == (Reading {
            rest: tail,
            outcome: Ok(MetaModel::SequencerSpecific(data)),
        }),
{
    lemma_meta_frame(0x01, form, len, data, mode, tail);
    lemma_meta_frame(0x02, form, len, data, mode, tail);
    lemma_meta_frame(0x03, form, len, data, mode, tail);
    lemma_meta_frame(0x04, form, len, data, mode, tail);
    lemma_meta_frame(0x05, form, len, data, mode, tail);
    lemma_meta_frame(0x06, form, len, data, mode, tail);
    lemma_meta_frame(0x07, form, len, data, mode, tail);
    lemma_meta_frame(0x08, form, len, data, mode, tail);
    lemma_meta_frame(0x09, form, len, data, mode, tail);
    lemma_meta_frame(0x7F, form, len, data, mode, tail);
}

/// The data of a track number is empty or holds the number, the more significant byte first. Strict
/// mode refuses other lengths; lenient mode ignores what is too much or too little.
pub proof fn law_meta_track_number_read(
    form: Seq<u8>,
    len: u28,
    data: Seq<u8>,
    mode: Mode,
    tail: Seq<u8>,
)
    requires
        reading_varlen(form) == (Reading { rest: Seq::<u8>::empty(), outcome: Ok(len) }),
        len@ == data.len(),
    ensures
        ({
            let r = reading_meta(seq![0x00u8] + form + data + tail, mode);
            &&& r.rest == tail
            &&& data.len() == 0 ==> r.outcome == Ok::<MetaModel, Seq<ErrorKind>>(
                MetaModel::TrackNumber(None),
            )
            &&& data.len() == 1 && mode == Mode::Lenient ==> r.outcome == Ok::<
                MetaModel,
                Seq<ErrorKind>,
            >(MetaModel::TrackNumber(None))
            &&& data.len() == 2 || data.len() > 2 && mode == Mode::Lenient ==> (r.outcome matches Ok(
                MetaModel::TrackNumber(Some(n)),
            ) && n == data[0] * 256 + data[1])
            &&& data.len() != 0 && data.len() != 2 && mode == Mode::Strict ==> r.outcome == Err::<MetaModel, Seq<ErrorKind>>(
                seq![ErrorKind::Pedantic(Deviation::TrackNumberLength)],
            )
        }),
{
    broadcast use {group_narrow_ints, group_smpte};

    lemma_meta_frame(0x00, form, len, data, mode, tail);
}

/// The data of a MIDI channel is one byte, of which the low 4 bits count. Strict mode refuses
/// other lengths; lenient mode ignores what is too much, and takes what is too short for unknown.
pub proof fn law_meta_midi_channel_read(
    form: Seq<u8>,
    len: u28,
    data: Seq<u8>,
    mode: Mode,
    tail: Seq<u8>,
)
    requires
        reading_varlen(form) == (Reading { rest: Seq::<u8>::empty(), outcome: Ok(len) }),
        len@ == data.len(),
    ensures
        ({
            let r = reading_meta(seq![0x20u8] + form + data + tail, mode);
            &&& r.rest == tail
            &&& data.len() == 1 || data.len() > 1 && mode == Mode::Lenient ==> (r.outcome matches Ok(
                MetaModel::MidiChannel(channel),
            ) && channel@ == data[0] % 16)
            &&& data.len() > 1 && mode == Mode::Strict ==> r.outcome == Err::<MetaModel, Seq<ErrorKind>>(
                seq![ErrorKind::Pedantic(Deviation::MidiChannelLength)],
            )
            &&& data.len() < 1 && mode == Mode::Lenient ==> r.outcome == Ok::<MetaModel, Seq<ErrorKind>>(
                MetaModel::Unknown(0x20, data),
            )
            &&& data.len() < 1 && mode == Mode::Strict ==> r.outcome == Err::<MetaModel, Seq<ErrorKind>>(
                seq![ErrorKind::Pedantic(Deviation::UnknownMetaType)],
            )
        }),
{
    broadcast use {group_narrow_ints, group_smpte};

    lemma_meta_frame(0x20, form, len, data, mode, tail);
}

/// The data of a MIDI port is one byte, of which the low 7 bits count. Strict mode refuses
/// other lengths; lenient mode ignores what is too much, and takes what is too short for unknown.
pub proof fn law_meta_midi_port_read(
    form: Seq<u8>,
    len: u28,
    data: Seq<u8>,
    mode: Mode,
    tail: Seq<u8>,
)
    requires
        reading_varlen(form) == (Reading { rest: Seq::<u8>::empty(), outcome: Ok(len) }),
        len@ == data.len(),
    ensures
        ({
            let r = reading_meta(seq![0x21u8] + form + data + tail, mode);
            &&& r.rest == tail
            &&& data.len() == 1 || data.len() > 1 && mode == Mode::Lenient ==> (r.outcome matches Ok(
                MetaModel::MidiPort(port),
            ) && port@ == data[0] % 128)
            &&& data.len() > 1 && mode == Mode::Strict ==> r.outcome == Err::<MetaModel, Seq<ErrorKind>>(
                seq![ErrorKind::Pedantic(Deviation::MidiPortLength)],
            )
            &&& data.len() < 1 && mode == Mode::Lenient ==> r.outcome == Ok::<MetaModel, Seq<ErrorKind>>(
                MetaModel::Unknown(0x21, data),
            )
            &&& data.len() < 1 && mode == Mode::Strict ==> r.outcome == Err::<MetaModel, Seq<ErrorKind>>(
                seq![ErrorKind::Pedantic(Deviation::UnknownMetaType)],
            )
        }),
{
    broadcast use {group_narrow_ints, group_smpte};

    lemma_meta_frame(0x21, form, len, data, mode, tail);
}

/// An end of track has no data. Strict mode refuses it where it does; lenient mode ignores the data.
pub proof fn law_meta_end_of_track_read(
    form: Seq<u8>,
    len: u28,
    data: Seq<u8>,
    mode: Mode,
    tail: Seq<u8>,
)
    requires
        reading_varlen(form) == (Reading { rest: Seq::<u8>::empty(), outcome: Ok(len) }),
        len@ == data.len(),
    ensures
        ({
            let r = reading_meta(seq![0x2Fu8] + form + data + tail, mode);
            &&& r.rest == tail
            &&& data.len() == 0 || mode == Mode::Lenient ==> r.outcome == Ok::<
                MetaModel,
                Seq<ErrorKind>,
            >(MetaModel::EndOfTrack)
            &&& data.len() > 0 && mode == Mode::Strict ==> r.outcome == Err::<MetaModel, Seq<ErrorKind>>(
                seq![ErrorKind::Pedantic(Deviation::EndOfTrackLength)],
            )
        }),
{
    broadcast use {group_narrow_ints, group_smpte};

    lemma_meta_frame(0x2F, form, len, data, mode, tail);
}

/// The data of a tempo is a number of three bytes, the more significant ones first. Strict mode refuses
/// other lengths; lenient mode ignores what is too much, and takes what is too short for unknown.
pub proof fn law_meta_tempo_read(
    form: Seq<u8>,
    len: u28,
    data: Seq<u8>,
    mode: Mode,
    tail: Seq<u8>,
)
    requires
        reading_varlen(form) == (Reading { rest: Seq::<u8>::empty(), outcome: Ok(len) }),
        len@ == data.len(),
    ensures
        ({
            let r = reading_meta(seq![0x51u8] + form + data + tail, mode);
            &&& r.rest == tail
            &&& data.len() == 3 || data.len() > 3 && mode == Mode::Lenient ==> (r.outcome matches Ok(
                MetaModel::Tempo(tempo),
            ) && tempo@ == data[0] * 0x1_0000 + data[1] * 0x100 + data[2])
            &&& data.len() > 3 && mode == Mode::Strict ==> r.outcome == Err::<MetaModel, Seq<ErrorKind>>(
                seq![ErrorKind::Pedantic(Deviation::TempoLength)],
            )
            &&& data.len() < 3 && mode == Mode::Lenient ==> r.outcome == Ok::<MetaModel, Seq<ErrorKind>>(
                MetaModel::Unknown(0x51, data),
            )
            &&& data.len() < 3 && mode == Mode::Strict ==> r.outcome == Err::<MetaModel, Seq<ErrorKind>>(
                seq![ErrorKind::Pedantic(Deviation::UnknownMetaType)],
            )
        }),
{
    broadcast use {group_narrow_ints, group_smpte};

    lemma_meta_frame(0x51, form, len, data, mode, tail);
}

/// The data of a time signature is four numbers of one byte each, in order. Strict mode refuses
/// other lengths; lenient mode ignores what is too much, and takes what is too short for unknown.
pub proof fn law_meta_time_signature_read(
    form: Seq<u8>,
    len: u28,
    data: Seq<u8>,
    mode: Mode,
    tail: Seq<u8>,
)
    requires
        reading_varlen(form) == (Reading { rest: Seq::<u8>::empty(), outcome: Ok(len) }),
        len@ == data.len(),
    ensures
        ({
            let r = reading_meta(seq![0x58u8] + form + data + tail, mode);
            &&& r.rest == tail
            &&& data.len() == 4 || data.len() > 4 && mode == Mode::Lenient ==> (r.outcome matches Ok(
                MetaModel::TimeSignature(num, den, clocks, notes),
            ) && num == data[0] && den == data[1] && clocks
                == data[2] && notes == data[3])
            &&& data.len() > 4 && mode == Mode::Strict ==> r.outcome == Err::<MetaModel, Seq<ErrorKind>>(
                seq![ErrorKind::Pedantic(Deviation::TimeSignatureLength)],
            )
            &&& data.len() < 4 && mode == Mode::Lenient ==> r.outcome == Ok::<MetaModel, Seq<ErrorKind>>(
                MetaModel::Unknown(0x58, data),
            )
            &&& data.len() < 4 && mode == Mode::Strict ==> r.outcome == Err::<MetaModel, Seq<ErrorKind>>(
                seq![ErrorKind::Pedantic(Deviation::UnknownMetaType)],
            )
        }),
{
    broadcast use {group_narrow_ints, group_smpte};

    lemma_meta_frame(0x58, form, len, data, mode, tail);
}

/// The data of a SMPTE offset is a SMPTE time. Strict mode refuses
/// other lengths; lenient mode ignores what is too much, and takes what is too short for unknown.
pub proof fn law_meta_smpte_offset_read(
    form: Seq<u8>,
    len: u28,
    data: Seq<u8>,
    mode: Mode,
    tail: Seq<u8>,
)
    requires
        reading_varlen(form) == (Reading { rest: Seq::<u8>::empty(), outcome: Ok(len) }),
        len@ == data.len(),
    ensures
        ({
            let r = reading_meta(seq![0x54u8] + form + data + tail, mode);
            &&& r.rest == tail
            &&& data.len() == 5 || data.len() > 5 && mode == Mode::Lenient ==> {
                &&& reading_smpte(data).outcome matches Ok(time) ==> r.outcome == Ok::<
                    MetaModel,
                    Seq<ErrorKind>,
                >(MetaModel::SmpteOffset(time))
                &&& reading_smpte(data).outcome matches Err(chain) ==> r.outcome == Err::<
                    MetaModel,
                    Seq<ErrorKind>,
                >(chain.push(ErrorKind::Invalid(Fault::SmpteTime)))
            }
            &&& data.len() > 5 && mode == Mode::Strict ==> r.outcome == Err::<MetaModel, Seq<ErrorKind>>(
                seq![ErrorKind::Pedantic(Deviation::SmpteOffsetLength)],
            )
            &&& data.len() < 5 && mode == Mode::Lenient ==> r.outcome == Ok::<MetaModel, Seq<ErrorKind>>(
                MetaModel::Unknown(0x54, data),
            )
            &&& data.len() < 5 && mode == Mode::Strict ==> r.outcome == Err::<MetaModel, Seq<ErrorKind>>(
                seq![ErrorKind::Pedantic(Deviation::UnknownMetaType)],
            )
        }),
{
    broadcast use {group_narrow_ints, group_smpte};

    lemma_meta_frame(0x54, form, len, data, mode, tail);
}

/// The data of a key signature is a signed byte, which counts sharps where it is positive and flats
/// where it is negative, and a byte that is not zero for a minor scale. More data is ignored, and
/// less is refused.
pub proof fn law_meta_key_signature_read(
    form: Seq<u8>,
    len: u28,
    data: Seq<u8>,
    mode: Mode,
    tail: Seq<u8>,
)
    requires
        reading_varlen(form) == (Reading { rest: Seq::<u8>::empty(), outcome: Ok(len) }),
        len@ == data.len(),
    ensures
        ({
            let r = reading_meta(seq![0x59u8] + form + data + tail, mode);
            &&& r.rest == tail
            &&& data.len() >= 2 ==> (r.outcome matches Ok(MetaModel::KeySignature(sharps, minor))
                && sharps == (if data[0] < 128 {
                data[0] as int
            } else {
                data[0] - 256
            }) && minor == (data[1] != 0))
            &&& data.len() < 2 ==> r.outcome == Err::<MetaModel, Seq<ErrorKind>>(
                seq![ErrorKind::Invalid(Fault::Integer)],
            )
        }),
{
    broadcast use {group_narrow_ints, group_smpte};

    lemma_meta_frame(0x59, form, len, data, mode, tail);
    if data.len() >= 2 {
        let byte = data[0];
        assert(byte < 128 ==> byte as i8 == byte) by (bit_vector);
        assert(byte >= 128 ==> byte as i8 == byte - 256) by (bit_vector);
    }
}

/// A type byte that is none of the known ones makes a message of unknown type, with its data as it
/// stands. Strict mode refuses it.
pub proof fn law_meta_unknown_read(
    type_byte: u8,
    form: Seq<u8>,
    len: u28,
    data: Seq<u8>,
    mode: Mode,
    tail: Seq<u8>,
)
    requires
        reading_varlen(form) == (Reading { rest: Seq::<u8>::empty(), outcome: Ok(len) }),
        len@ == data.len(),
        type_byte > 0x09,
        type_byte != 0x20 && type_byte != 0x21 && type_byte != 0x2F && type_byte != 0x51,
        type_byte != 0x54 && type_byte != 0x58 && type_byte != 0x59 && type_byte != 0x7F,
    ensures
        reading_meta(seq![type_byte] + form + data + tail, Mode::Lenient) == (Reading {
            rest: tail,
            outcome: Ok(MetaModel::Unknown(type_byte, data)),
        }),
        reading_meta(seq![type_byte] + form + data + tail, Mode::Strict) == (Reading::<MetaModel> {
            rest: tail,
            outcome: Err(seq![ErrorKind::Pedantic(Deviation::UnknownMetaType)]),
        }),
{
    lemma_meta_frame(type_byte, form, len, data, Mode::Lenient, tail);
    lemma_meta_frame(type_byte, form, len, data, Mode::Strict, tail);
}

/// A text, what is meant for one sequencer, and a message of unknown type are written as their type,
/// the length of their data, and the data itself, where the length fits in 28 bits.
pub proof fn law_meta_text_written(type_byte: u8, data: Seq<u8>)
    ensures
        MetaModel::Text(data).bytes() == seq![0x01u8] + varlen_bytes(data.len()) + data,
        MetaModel::Text(data).type_byte() == 0x01u8,
        MetaModel::Text(data).writable() <==> data.len() < 0x1000_0000,
        MetaModel::Copyright(data).bytes() == seq![0x02u8] + varlen_bytes(data.len()) + data,
        MetaModel::Copyright(data).type_byte() == 0x02u8,
        MetaModel::Copyright(data).writable() <==> data.len() < 0x1000_0000,
        MetaModel::TrackName(data).bytes() == seq![0x03u8] + varlen_bytes(data.len()) + data,
        MetaModel::TrackName(data).type_byte() == 0x03u8,
        MetaModel::TrackName(data).writable() <==> data.len() < 0x1000_0000,
        MetaModel::InstrumentName(data).bytes() == seq![0x04u8] + varlen_bytes(data.len()) + data,
        MetaModel::InstrumentName(data).type_byte() == 0x04u8,
        MetaModel::InstrumentName(data).writable() <==> data.len() < 0x1000_0000,
        MetaModel::Lyric(data).bytes() == seq![0x05u8] + varlen_bytes(data.len()) + data,
        MetaModel::Lyric(data).type_byte() == 0x05u8,
        MetaModel::Lyric(data).writable() <==> data.len() < 0x1000_0000,
        MetaModel::Marker(data).bytes() == seq![0x06u8] + varlen_bytes(data.len()) + data,
        MetaModel::Marker(data).type_byte() == 0x06u8,
        MetaModel::Marker(data).writable() <==> data.len() < 0x1000_0000,
        MetaModel::CuePoint(data).bytes() == seq![0x07u8] + varlen_bytes(data.len()) + data,
        MetaModel::CuePoint(data).type_byte() == 0x07u8,
        MetaModel::CuePoint(data).writable() <==> data.len() < 0x1000_0000,
        MetaModel::ProgramName(data).bytes() == seq![0x08u8] + varlen_bytes(data.len()) + data,
        MetaModel::ProgramName(data).type_byte() == 0x08u8,
        MetaModel::ProgramName(data).writable() <==> data.len() < 0x1000_0000,
        MetaModel::DeviceName(data).bytes() == seq![0x09u8] + varlen_bytes(data.len()) + data,
        MetaModel::DeviceName(data).type_byte() == 0x09u8,
        MetaModel::DeviceName(data).writable() <==> data.len() < 0x1000_0000,
        MetaModel::SequencerSpecific(data).bytes() == seq![0x7Fu8] + varlen_bytes(data.len()) + data,
        MetaModel::SequencerSpecific(data).type_byte() == 0x7Fu8,
        MetaModel::SequencerSpecific(data).writable() <==> data.len() < 0x1000_0000,
        MetaModel::Unknown(type_byte, data).bytes() == seq![type_byte] + varlen_bytes(data.len()) + data,
        MetaModel::Unknown(type_byte, data).type_byte() == type_byte,
        MetaModel::Unknown(type_byte, data).writable() <==> data.len() < 0x1000_0000,
{
    assert(seq![0x01u8] + (varlen_bytes(data.len()) + data) == seq![0x01u8] + varlen_bytes(data.len())
        + data);
    assert(seq![0x02u8] + (varlen_bytes(data.len()) + data) == seq![0x02u8] + varlen_bytes(data.len())
        + data);
    assert(seq![0x03u8] + (varlen_bytes(data.len()) + data) == seq![0x03u8] + varlen_bytes(data.len())
        + data);
    assert(seq![0x04u8] + (varlen_bytes(data.len()) + data) == seq![0x04u8] + varlen_bytes(data.len())
        + data);
    assert(seq![0x05u8] + (varlen_bytes(data.len()) + data) == seq![0x05u8] + varlen_bytes(data.len())
        + data);
    assert(seq![0x06u8] + (varlen_bytes(data.len()) + data) == seq![0x06u8] + varlen_bytes(data.len())
        + data);
    assert(seq![0x07u8] + (varlen_bytes(data.len()) + data) == seq![0x07u8] + varlen_bytes(data.len())
        + data);
    assert(seq![0x08u8] + (varlen_bytes(data.len()) + data) == seq![0x08u8] + varlen_bytes(data.len())
        + data);
    assert(seq![0x09u8] + (varlen_bytes(data.len()) + data) == seq![0x09u8] + varlen_bytes(data.len())
        + data);
    assert(seq![0x7Fu8] + (varlen_bytes(data.len()) + data) == seq![0x7Fu8] + varlen_bytes(data.len())
        + data);
    assert(seq![type_byte] + (varlen_bytes(data.len()) + data) == seq![type_byte] + varlen_bytes(data.len())
        + data);
}

proof fn lemma_fixed_written(message: MetaModel, len: u8)
    requires
        message.data().len() == len,
        len < 0x80,
    ensures
        message.bytes() == seq![message.type_byte(), len] + message.data(),
        message.writable(),
{
    law_varlen_written(len as nat);
    assert(message.bytes() == seq![message.type_byte(), len] + message.data());
}

/// How the meta messages with data of a fixed size are written.
pub proof fn law_meta_fixed_written(
    number: u16,
    channel: u4,
    port: u7,
    tempo: u24,
    time: SmpteTime,
    signature: (u8, u8, u8, u8),
    sharps: i8,
    minor: bool,
)
    requires
        tempo@ < 0x100_0000,
    ensures
        MetaModel::TrackNumber(None).bytes() == seq![0x00u8, 0],
        MetaModel::TrackNumber(None).writable(),
        MetaModel::TrackNumber(Some(number)).bytes() == seq![
            0x00u8,
            2,
            (number / 256) as u8,
            (number % 256) as u8,
        ],
        MetaModel::TrackNumber(Some(number)).writable(),
        MetaModel::MidiChannel(channel).bytes() == seq![0x20u8, 1, channel@],
        MetaModel::MidiChannel(channel).writable(),
        MetaModel::MidiPort(port).bytes() == seq![0x21u8, 1, port@],
        MetaModel::MidiPort(port).writable(),
        MetaModel::EndOfTrack.bytes() == seq![0x2Fu8, 0],
        MetaModel::EndOfTrack.writable(),
        MetaModel::Tempo(tempo).bytes() == seq![
            0x51u8,
            3,
            (tempo@ / 0x1_0000) as u8,
            (tempo@ / 0x100 % 0x100) as u8,
            (tempo@ % 0x100) as u8,
        ],
        MetaModel::Tempo(tempo).writable(),
        MetaModel::SmpteOffset(time).bytes() == seq![0x54u8, 5] + time@.bytes(),
        MetaModel::SmpteOffset(time).writable(),
        ({
            let (num, den, clocks, notes) = signature;
            &&& MetaModel::TimeSignature(num, den, clocks, notes).bytes() == seq![
                0x58u8,
                4,
                num,
                den,
                clocks,
                notes,
            ]
            &&& MetaModel::TimeSignature(num, den, clocks, notes).writable()
        }),
        MetaModel::KeySignature(sharps, minor).bytes() == seq![
            0x59u8,
            2,
            (if sharps >= 0 {
                sharps as int
            } else {
                sharps + 256
            }) as u8,
            if minor {
                1
            } else {
                0
            },
        ],
        MetaModel::KeySignature(sharps, minor).writable(),
{
    let (num, den, clocks, notes) = signature;
    assert(sharps >= 0 ==> sharps as u8 == sharps) by (bit_vector);
    assert(sharps < 0 ==> sharps as u8 == sharps + 256) by (bit_vector);
    lemma_fixed_written(MetaModel::TrackNumber(None), 0);
    lemma_fixed_written(MetaModel::TrackNumber(Some(number)), 2);
    lemma_fixed_written(MetaModel::MidiChannel(channel), 1);
    lemma_fixed_written(MetaModel::MidiPort(port), 1);
    lemma_fixed_written(MetaModel::EndOfTrack, 0);
    lemma_fixed_written(MetaModel::Tempo(tempo), 3);
    lemma_fixed_written(MetaModel::SmpteOffset(time), 5);
    lemma_fixed_written(MetaModel::TimeSignature(num, den, clocks, notes), 4);
    lemma_fixed_written(MetaModel::KeySignature(sharps, minor), 2);
}

/// An event needs a status: its own, or, ahead of a data byte, the running one.
pub proof fn law_status_refused(raw: Seq<u8>, running: Option<u8>, mode: Mode)
    ensures
        reading_kind(Seq::<u8>::empty(), running, mode) == (EventReading::<KindModel> {
            rest: Seq::<u8>::empty(),
            running,
            outcome: Err(seq![ErrorKind::Invalid(Fault::Status)]),
        }),
        raw.len() > 0 && raw[0] < 0x80 && running is None ==> reading_kind(raw, running, mode) == (
        EventReading::<KindModel> {
            rest: raw,
            running,
            outcome: Err(seq![ErrorKind::Invalid(Fault::MissingStatus)]),
        }),
        raw.len() > 0 && raw[0] < 0x80 && (running matches Some(status) && status < 0x80)
            ==> reading_kind(raw, running, mode) == (EventReading::<KindModel> {
            rest: raw,
            running,
            outcome: Err(seq![ErrorKind::Invalid(Fault::EventStatus)]),
        }),
        raw.len() > 0 && 0xF1 <= raw[0] <= 0xFE && raw[0] != 0xF7 ==> reading_kind(
            raw,
            running,
            mode,
        ) == (EventReading::<KindModel> {
            rest: raw.skip(1),
            running,
            outcome: Err(seq![ErrorKind::Invalid(Fault::EventStatus)]),
        }),
{
}

/// A data byte where a status byte is due is read as if the running status stood ahead of it. Where
/// that is the status of a MIDI message, it does not matter which status was running before.
pub proof fn law_running_status_stands_in(
    raw: Seq<u8>,
    status: u8,
    before: Option<u8>,
    mode: Mode,
)
    requires
        raw.len() > 0,
        raw[0] < 0x80,
        status >= 0x80,
    ensures
        reading_kind(raw, Some(status), mode) == reading_kind(
            seq![status] + raw,
            Some(status),
            mode,
        ),
        status <= 0xEF ==> reading_kind(raw, Some(status), mode) == reading_kind(
            seq![status] + raw,
            before,
            mode,
        ),
{
    lemma_own_status(status, raw, Some(status), mode);
    lemma_own_status(status, raw, before, mode);
}

proof fn lemma_own_status(status: u8, body: Seq<u8>, running: Option<u8>, mode: Mode)
    requires
        status >= 0x80,
    ensures
        reading_kind(seq![status] + body, running, mode) == reading_body(
            status,
            body,
            running,
            mode,
        ),
{
    assert(event_body(seq![status] + body) == body);
}

/// After the status of a MIDI message come its data bytes. The status holds the channel in its low 4
/// bits, and becomes the running one.
pub proof fn law_midi_event_read(status: u8, body: Seq<u8>, running: Option<u8>, mode: Mode)
    requires
        0x80 <= status <= 0xEF,
    ensures
        ({
            let r = reading_kind(seq![status] + body, running, mode);
            &&& r.rest == reading_midi(body, status).rest
            &&& r.running == Some(status)
            &&& reading_midi(body, status).outcome matches Ok(m) ==> (r.outcome matches Ok(
                KindModel::Midi { channel, message },
            ) && channel@ == status % 16 && message == m)
            &&& reading_midi(body, status).outcome matches Err(chain) ==> r.outcome == Err::<
                KindModel,
                Seq<ErrorKind>,
            >(chain.push(ErrorKind::Invalid(Fault::MidiMessage)))
        }),
{
    broadcast use group_narrow_ints;

    lemma_own_status(status, body, running, mode);
}

/// `0xF0` and a byte string make a System Exclusive message, and `0xF7` and a byte string an escape
/// sequence, whatever the length of the string and the form of that length. Both cancel the running
/// status.
#[verifier::rlimit(30)]
pub proof fn law_sysex_event_read(
    form: Seq<u8>,
    len: u28,
    data: Seq<u8>,
    tail: Seq<u8>,
    running: Option<u8>,
    mode: Mode,
)
    requires
        reading_varlen(form) == (Reading { rest: Seq::<u8>::empty(), outcome: Ok(len) }),
        len@ == data.len(),
    ensures
        reading_kind(seq![0xF0u8] + form + data + tail, running, mode) == (EventReading::<KindModel> {
            rest: tail,
            running: None,
            outcome: Ok(KindModel::SysEx(data)),
        }),
        reading_kind(seq![0xF7u8] + form + data + tail, running, mode) == (EventReading::<KindModel> {
            rest: tail,
            running: None,
            outcome: Ok(KindModel::Escape(data)),
        }),
{
    let body = form + data + tail;
    law_slice_read(form, len, data, tail);
    lemma_own_status(0xF0, body, running, mode);
    lemma_own_status(0xF7, body, running, mode);
    assert(seq![0xF0u8] + form + data + tail == seq![0xF0u8] + body);
    assert(seq![0xF7u8] + form + data + tail == seq![0xF7u8] + body);
}

/// Every byte string shorter than 2^28 can be read in a System Exclusive message and in an escape
/// sequence, with its length in its shortest form.
pub proof fn law_sysex_of_any_length(
    data: Seq<u8>,
    tail: Seq<u8>,
    running: Option<u8>,
    mode: Mode,
)
    requires
        data.len() < 0x1000_0000,
    ensures
        reading_kind(seq![0xF0u8] + varlen_bytes(data.len()) + data + tail, running, mode) == (
        EventReading::<KindModel> { rest: tail, running: None, outcome: Ok(KindModel::SysEx(data)) }),
        reading_kind(seq![0xF7u8] + varlen_bytes(data.len()) + data + tail, running, mode) == (
        EventReading::<KindModel> { rest: tail, running: None, outcome: Ok(KindModel::Escape(data)) }),
{
    lemma_shortest_form(data.len());
    law_sysex_event_read(
        varlen_bytes(data.len()),
        u28::of(data.len() as u32),
        data,
        tail,
        running,
        mode,
    );
}

proof fn lemma_shortest_form(n: nat)
    requires
        n < 0x1000_0000,
    ensures
        u28::of(n as u32)@ == n,
        reading_varlen(varlen_bytes(n)) == (Reading {
            rest: Seq::<u8>::empty(),
            outcome: Ok(u28::of(n as u32)),
        }),
{
    broadcast use group_narrow_ints;

    law_varlen_round_trip(u28::of(n as u32), seq![]);
    assert(varlen_bytes(n) + Seq::<u8>::empty() == varlen_bytes(n));
}

/// Every text shorter than 2^28 is read as it stands, with its length in its shortest form.
pub proof fn law_meta_text_of_any_length(data: Seq<u8>, mode: Mode, tail: Seq<u8>)
    requires
        data.len() < 0x1000_0000,
    ensures
        reading_meta(seq![0x01u8] + varlen_bytes(data.len()) + data + tail, mode) == (Reading {
            rest: tail,
            outcome: Ok(MetaModel::Text(data)),
        }),
        reading_meta(seq![0x02u8] + varlen_bytes(data.len()) + data + tail, mode) == (Reading {
            rest: tail,
            outcome: Ok(MetaModel::Copyright(data)),
        }),
        reading_meta(seq![0x03u8] + varlen_bytes(data.len()) + data + tail, mode) == (Reading {
            rest: tail,
            outcome: Ok(MetaModel::TrackName(data)),
        }),
        reading_meta(seq![0x04u8] + varlen_bytes(data.len()) + data + tail, mode) == (Reading {
            rest: tail,
            outcome: Ok(MetaModel::InstrumentName(data)),
        }),
        reading_meta(seq![0x05u8] + varlen_bytes(data.len()) + data + tail, mode) == (Reading {
            rest: tail,
            outcome: Ok(MetaModel::Lyric(data)),
        }),
        reading_meta(seq![0x06u8] + varlen_bytes(data.len()) + data + tail, mode) == (Reading {
            rest: tail,
            outcome: Ok(MetaModel::Marker(data)),
        }),
        reading_meta(seq![0x07u8] + varlen_bytes(data.len()) + data + tail, mode) == (Reading {
            rest: tail,
            outcome: Ok(MetaModel::CuePoint(data)),
        }),
        reading_meta(seq![0x08u8] + varlen_bytes(data.len()) + data + tail, mode) == (Reading {
            rest: tail,
            outcome: Ok(MetaModel::ProgramName(data)),
        }),
        reading_meta(seq![0x09u8] + varlen_bytes(data.len()) + data + tail, mode) == (Reading {
            rest: tail,
            outcome: Ok(MetaModel::DeviceName(data)),
        }),
        reading_meta(seq![0x7Fu8] + varlen_bytes(data.len()) + data + tail, mode) == (Reading {
            rest: tail,
            outcome: Ok(MetaModel::SequencerSpecific(data)),
        }),
{
    lemma_shortest_form(data.len());
    law_meta_text_read(varlen_bytes(data.len()), u28::of(data.len() as u32), data, mode, tail);
}

/// A System Exclusive message or an escape sequence of which the byte string cannot be read is
/// refused, and cancels the running status all the same.
pub proof fn law_sysex_event_refused(body: Seq<u8>, running: Option<u8>, mode: Mode)
    ensures
        reading_slice(body).outcome matches Err(chain) ==> {
            &&& reading_kind(seq![0xF0u8] + body, running, mode) == (EventReading::<KindModel> {
                rest: reading_slice(body).rest,
                running: None,
                outcome: Err(chain.push(ErrorKind::Invalid(Fault::SysEx))),
            })
            &&& reading_kind(seq![0xF7u8] + body, running, mode) == (EventReading::<KindModel> {
                rest: reading_slice(body).rest,
                running: None,
                outcome: Err(chain.push(ErrorKind::Invalid(Fault::Escape))),
            })
        },
{
    lemma_own_status(0xF0, body, running, mode);
    lemma_own_status(0xF7, body, running, mode);
}

/// After `0xFF` comes a meta message. It leaves the running status alone, whichever that is.
pub proof fn law_meta_event_read(body: Seq<u8>, running: Option<u8>, mode: Mode)
    ensures
        ({
            let r = reading_kind(seq![0xFFu8] + body, running, mode);
            &&& r.rest == reading_meta(body, mode).rest
            &&& r.running == running
            &&& reading_meta(body, mode).outcome matches Ok(meta) ==> r.outcome == Ok::<
                KindModel,
                Seq<ErrorKind>,
            >(KindModel::Meta(meta))
            &&& reading_meta(body, mode).outcome matches Err(chain) ==> r.outcome == Err::<
                KindModel,
                Seq<ErrorKind>,
            >(chain.push(ErrorKind::Invalid(Fault::Meta)))
        }),
{
    lemma_own_status(0xFF, body, running, mode);
}

/// A MIDI message is written as its status byte, unless that is the running status, and its data
/// bytes. Its status becomes the running one.
pub proof fn law_midi_event_written(channel: u4, message: MidiMessage, running: Option<u8>)
    ensures
        ({
            let kind = KindModel::Midi { channel, message };
            let status = message.status(channel);
            &&& kind.bytes(running) == (if running == Some(status) {
                message.data()
            } else {
                seq![status] + message.data()
            })
            &&& kind.running_after(running) == Some(status)
            &&& kind.writable()
        }),
{
    assert(Seq::<u8>::empty() + message.data() == message.data());
}

/// System Exclusive messages and escape sequences are written whole, with their length ahead of
/// them, wherever it fits in 28 bits; else only the status byte is. Both cancel the running status.
pub proof fn law_sysex_event_written(data: Seq<u8>, running: Option<u8>)
    ensures
        KindModel::SysEx(data).bytes(running) == seq![0xF0u8] + varlen_bytes(data.len()) + data,
        KindModel::SysEx(data).cut_short() == seq![0xF0u8],
        KindModel::SysEx(data).writable() <==> data.len() < 0x1000_0000,
        KindModel::SysEx(data).running_after(running) is None,
        KindModel::Escape(data).bytes(running) == seq![0xF7u8] + varlen_bytes(data.len()) + data,
        KindModel::Escape(data).cut_short() == seq![0xF7u8],
        KindModel::Escape(data).writable() <==> data.len() < 0x1000_0000,
        KindModel::Escape(data).running_after(running) is None,
{
    assert(seq![0xF0u8] + (varlen_bytes(data.len()) + data) == seq![0xF0u8] + varlen_bytes(
        data.len(),
    ) + data);
    assert(seq![0xF7u8] + (varlen_bytes(data.len()) + data) == seq![0xF7u8] + varlen_bytes(
        data.len(),
    ) + data);
}

/// A meta message is always written with its status byte, and leaves the running status alone.
pub proof fn law_meta_event_written(meta: MetaModel, running: Option<u8>)
    ensures
        KindModel::Meta(meta).bytes(running) == seq![0xFFu8] + meta.bytes(),
        KindModel::Meta(meta).cut_short() == seq![0xFFu8, meta.type_byte()],
        KindModel::Meta(meta).writable() <==> meta.writable(),
        KindModel::Meta(meta).running_after(running) == running,
{
}

/// A track event is its time, in any form, and then the event. The time is that of the event as it
/// stands, whatever kind of event it is.
pub proof fn law_event_read(
    form: Seq<u8>,
    time: u28,
    body: Seq<u8>,
    running: Option<u8>,
    mode: Mode,
)
    requires
        reading_varlen(form) == (Reading { rest: Seq::<u8>::empty(), outcome: Ok(time) }),
    ensures
        ({
            let r = reading_event(form + body, running, mode);
            let k = reading_kind(body, running, mode);
            &&& r.rest == k.rest
            &&& r.running == k.running
            &&& k.outcome matches Ok(kind) ==> (r.outcome matches Ok(event) && event.delta == time
                && event.kind == kind)
            &&& k.outcome matches Err(chain) ==> r.outcome == Err::<EventModel, Seq<ErrorKind>>(
                chain.push(ErrorKind::Invalid(Fault::Event)),
            )
        }),
{
    lemma_form(form, time, body);
}

/// A track event of which the time cannot be read is refused, and leaves the running status alone.
pub proof fn law_event_refused(raw: Seq<u8>, running: Option<u8>, mode: Mode)
    ensures
        reading_varlen(raw).outcome matches Err(chain) ==> reading_event(raw, running, mode) == (
        EventReading::<EventModel> {
            rest: reading_varlen(raw).rest,
            running,
            outcome: Err(chain.push(ErrorKind::Invalid(Fault::EventDelta))),
        }),
{
}

/// A track event is written as its time, as it stands, and then the event.
pub proof fn law_event_written(event: EventModel, running: Option<u8>)
    ensures
        event.bytes(running) == varlen_bytes(event.delta@ as nat) + event.kind.bytes(running),
{
}

/// A kind of event stands in contracts for what it holds.
pub proof fn law_kind_view(kind: EventKind)
    ensures
        match kind {
            EventKind::Midi { channel, message } => kind@ == (KindModel::Midi { channel, message }),
            EventKind::SysEx(data) => kind@ == KindModel::SysEx(data@),
            EventKind::Escape(data) => kind@ == KindModel::Escape(data@),
            EventKind::Meta(meta) => kind@ == KindModel::Meta(meta@),
        },
{
}

/// A track event stands in contracts for its time and its kind.
pub proof fn law_event_view(event: Event)
    ensures
        event@.delta == event.delta,
        event@.kind == event.kind@,
{
}

/// A meta message stands in contracts for what it holds.
pub proof fn law_meta_view(meta: MetaMessage)
    ensures
        match meta {
            MetaMessage::TrackNumber(number) => meta@ == MetaModel::TrackNumber(number),
            MetaMessage::Text(data) => meta@ == MetaModel::Text(data@),
            MetaMessage::Copyright(data) => meta@ == MetaModel::Copyright(data@),
            MetaMessage::TrackName(data) => meta@ == MetaModel::TrackName(data@),
            MetaMessage::InstrumentName(data) => meta@ == MetaModel::InstrumentName(data@),
            MetaMessage::Lyric(data) => meta@ == MetaModel::Lyric(data@),
            MetaMessage::Marker(data) => meta@ == MetaModel::Marker(data@),
            MetaMessage::CuePoint(data) => meta@ == MetaModel::CuePoint(data@),
            MetaMessage::ProgramName(data) => meta@ == MetaModel::ProgramName(data@),
            MetaMessage::DeviceName(data) => meta@ == MetaModel::DeviceName(data@),
            MetaMessage::MidiChannel(channel) => meta@ == MetaModel::MidiChannel(channel),
            MetaMessage::MidiPort(port) => meta@ == MetaModel::MidiPort(port),
            MetaMessage::EndOfTrack => meta@ == MetaModel::EndOfTrack,
            MetaMessage::Tempo(tempo) => meta@ == MetaModel::Tempo(tempo),
            MetaMessage::SmpteOffset(time) => meta@ == MetaModel::SmpteOffset(time),
            MetaMessage::TimeSignature(num, den, clocks, notes) => meta@
                == MetaModel::TimeSignature(num, den, clocks, notes),
            MetaMessage::KeySignature(sharps, minor) => meta@ == MetaModel::KeySignature(
                sharps,
                minor,
            ),
            MetaMessage::SequencerSpecific(data) => meta@ == MetaModel::SequencerSpecific(data@),
            MetaMessage::Unknown(type_byte, data) => meta@ == MetaModel::Unknown(type_byte, data@),
        },
{
}

/// A result stands in contracts for its value, and an error for all that went wrong.
pub proof fn law_result_view<T: View>(r: Result<T, Error>)
    ensures
        match r {
            Ok(value) => {
                &&& plain(r) == Ok::<T, Seq<ErrorKind>>(value)
                &&& outcome(r) == Ok::<T::V, Seq<ErrorKind>>(value@)
            },
            Err(error) => {
                &&& plain(r) == Err::<T, Seq<ErrorKind>>(error@)
                &&& outcome(r) == Err::<T::V, Seq<ErrorKind>>(error@)
            },
        },
{
}

/// The bytes that make up what was read are those that are gone from the input.
pub proof fn law_sourced<T>(reading: EventReading<T>, source: Seq<u8>)
    ensures
        match reading.outcome {
            Ok(value) => reading.sourced(source + reading.rest) == Ok::<(Seq<u8>, T), Seq<ErrorKind>>(
                (source, value),
            ),
            Err(chain) => reading.sourced(source + reading.rest) == Err::<
                (Seq<u8>, T),
                Seq<ErrorKind>,
            >(chain),
        },
{
    assert((source + reading.rest).take(source.len() as int) == source);
}

} // verus!
