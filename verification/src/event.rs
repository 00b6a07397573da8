//! Track events, and how they are read and written.

use crate::error::{
    context, fails, invalid, outcome, within, Error, ErrorKind, Fault, Mode, WriteError,
};
use crate::meta::{law_meta_local, reading_meta, MetaMessage, MetaModel};
use crate::midi::{is_midi_status, law_midi_local, reading_midi, MidiMessage};
use crate::primitive::{u28, u4};
use crate::varlen::{
    law_slice_local, law_varlen_local, read_varlen_slice, reading_slice, reading_varlen,
    slice_bytes, varlen_bytes, write_varlen_slice, VARLEN_LIMIT,
};
use vstd::prelude::*;
use vstd::slice::slice_subrange;

verus! {

/// Represents the different kinds of events.
#[derive(Clone, Debug, PartialEq, Eq)]
pub enum EventKind<'a> {
    /// A standard MIDI message bound to a channel.
    Midi { channel: u4, message: MidiMessage },
    /// A System Exclusive message, carrying arbitrary data.
    SysEx(&'a [u8]),
    /// An escape sequence, intended to send arbitrary data to the MIDI synthesizer.
    Escape(&'a [u8]),
    /// A meta-message, giving extra information for correct playback, like tempo, song name,
    /// lyrics, etc...
    Meta(MetaMessage),
}

/// A kind of event as contracts speak of it.
pub enum KindModel {
    Midi { channel: u4, message: MidiMessage },
    SysEx(Seq<u8>),
    Escape(Seq<u8>),
    Meta(MetaModel),
}

impl<'a> View for EventKind<'a> {
    type V = KindModel;

    open spec fn view(&self) -> KindModel {
        match self {
            EventKind::Midi { channel, message } => KindModel::Midi {
                channel: *channel,
                message: *message,
            },
            EventKind::SysEx(data) => KindModel::SysEx(data@),
            EventKind::Escape(data) => KindModel::Escape(data@),
            EventKind::Meta(meta) => KindModel::Meta(meta@),
        }
    }
}

/// What reading an event does to its input and to the running status, and what comes of it.
pub struct EventReading<T> {
    /// What is left of the input.
    pub rest: Seq<u8>,
    /// The running status afterwards.
    pub running: Option<u8>,
    /// What was read, or all that went wrong, from the cause outwards.
    pub outcome: Result<T, Seq<ErrorKind>>,
}

/// The bytes that reading took off `raw`.
pub open spec fn taken(raw: Seq<u8>, rest: Seq<u8>) -> Seq<u8> {
    raw.take(raw.len() - rest.len())
}

impl<T> EventReading<T> {
    /// What comes of reading `raw`, together with the bytes that make up what was read.
    pub open spec fn sourced(self, raw: Seq<u8>) -> Result<(Seq<u8>, T), Seq<ErrorKind>> {
        match self.outcome {
            Ok(value) => Ok((taken(raw, self.rest), value)),
            Err(chain) => Err(chain),
        }
    }
}

/// The status of the event at the front of `raw`: the first byte, or, where that is a data byte,
/// the running status.
pub open spec fn event_status(raw: Seq<u8>, running: Option<u8>) -> Result<u8, Seq<ErrorKind>> {
    if raw.len() == 0 {
        fails(ErrorKind::Invalid(Fault::Status))
    } else if raw[0] >= 0x80 {
        Ok(raw[0])
    } else {
        match running {
            Some(status) => Ok(status),
            None => fails(ErrorKind::Invalid(Fault::MissingStatus)),
        }
    }
}

/// What follows the status byte, if there is one.
pub open spec fn event_body(raw: Seq<u8>) -> Seq<u8> {
    if raw[0] >= 0x80 {
        raw.skip(1)
    } else {
        raw
    }
}

/// Reads what follows the status of an event.
///
/// MIDI messages set the running status, System Exclusive messages and escape sequences cancel it,
/// and meta messages leave it alone.
pub open spec fn reading_body(
    status: u8,
    body: Seq<u8>,
    running: Option<u8>,
    mode: Mode,
) -> EventReading<KindModel> {
    if is_midi_status(status) {
        let message = reading_midi(body, status);
        EventReading {
            rest: message.rest,
            running: Some(status),
            outcome: match within(message.outcome, Fault::MidiMessage) {
                Ok(message) => Ok(KindModel::Midi { channel: u4::of(status), message }),
                Err(chain) => Err(chain),
            },
        }
    } else if status == 0xF0 {
        let data = reading_slice(body);
        EventReading {
            rest: data.rest,
            running: None,
            outcome: match within(data.outcome, Fault::SysEx) {
                Ok(data) => Ok(KindModel::SysEx(data)),
                Err(chain) => Err(chain),
            },
        }
    } else if status == 0xF7 {
        let data = reading_slice(body);
        EventReading {
            rest: data.rest,
            running: None,
            outcome: match within(data.outcome, Fault::Escape) {
                Ok(data) => Ok(KindModel::Escape(data)),
                Err(chain) => Err(chain),
            },
        }
    } else if status == 0xFF {
        let meta = reading_meta(body, mode);
        EventReading {
            rest: meta.rest,
            running,
            outcome: match within(meta.outcome, Fault::Meta) {
                Ok(meta) => Ok(KindModel::Meta(meta)),
                Err(chain) => Err(chain),
            },
        }
    } else {
        EventReading {
            rest: body,
            running,
            outcome: fails(ErrorKind::Invalid(Fault::EventStatus)),
        }
    }
}

/// Reads an event without its time.
pub open spec fn reading_kind(raw: Seq<u8>, running: Option<u8>, mode: Mode) -> EventReading<
    KindModel,
> {
    match event_status(raw, running) {
        Ok(status) => reading_body(status, event_body(raw), running, mode),
        Err(chain) => EventReading { rest: raw, running, outcome: Err(chain) },
    }
}

/// Reads an event without its time, and undoes all changes where that fails.
pub open spec fn parsing_kind(raw: Seq<u8>, running: Option<u8>, mode: Mode) -> EventReading<
    KindModel,
> {
    let reading = reading_kind(raw, running, mode);
    match reading.outcome {
        Ok(_) => reading,
        Err(chain) => EventReading { rest: raw, running, outcome: Err(chain) },
    }
}

impl KindModel {
    /// The status byte.
    pub open spec fn status(self) -> u8 {
        match self {
            KindModel::Midi { channel, message } => message.status(channel),
            KindModel::SysEx(_) => 0xF0,
            KindModel::Escape(_) => 0xF7,
            KindModel::Meta(_) => 0xFF,
        }
    }

    /// What is written after the status byte.
    pub open spec fn body(self) -> Seq<u8> {
        match self {
            KindModel::Midi { channel, message } => message.data(),
            KindModel::SysEx(data) => slice_bytes(data),
            KindModel::Escape(data) => slice_bytes(data),
            KindModel::Meta(meta) => meta.bytes(),
        }
    }

    /// The status byte as it is written: left out where a MIDI message has the running status.
    pub open spec fn written_status(self, running: Option<u8>) -> Seq<u8> {
        if self is Midi && running == Some(self.status()) {
            seq![]
        } else {
            seq![self.status()]
        }
    }

    /// The bytes of the event.
    pub open spec fn bytes(self, running: Option<u8>) -> Seq<u8> {
        self.written_status(running) + self.body()
    }

    /// What is written of the event where its data is too long.
    pub open spec fn cut_short(self) -> Seq<u8> {
        match self {
            KindModel::Meta(meta) => seq![self.status(), meta.type_byte()],
            _ => seq![self.status()],
        }
    }

    /// The running status once the event has gone by.
    pub open spec fn running_after(self, running: Option<u8>) -> Option<u8> {
        match self {
            KindModel::Midi { .. } => Some(self.status()),
            KindModel::SysEx(_) => None,
            KindModel::Escape(_) => None,
            KindModel::Meta(_) => running,
        }
    }

    /// The length of the data, where the event has any, can be written.
    pub open spec fn writable(self) -> bool {
        match self {
            KindModel::Midi { .. } => true,
            KindModel::SysEx(data) => data.len() < VARLEN_LIMIT,
            KindModel::Escape(data) => data.len() < VARLEN_LIMIT,
            KindModel::Meta(meta) => meta.writable(),
        }
    }

    /// All numbers in the event are in the ranges of their types.
    pub open spec fn valid(self) -> bool {
        match self {
            KindModel::Midi { channel, message } => channel@ < 16 && message.valid(),
            KindModel::Meta(meta) => meta.valid(),
            _ => true,
        }
    }

    /// The event is no meta message of a known type in the guise of an unknown one.
    pub open spec fn in_own_form(self) -> bool {
        self matches KindModel::Meta(meta) ==> meta.in_own_form()
    }

    /// The event is a meta message of no known type.
    pub open spec fn is_unknown(self) -> bool {
        self matches KindModel::Meta(meta) && meta is Unknown
    }
}

/// Reading what follows a status depends on the bytes that it takes alone, and takes at least one.
#[verifier::rlimit(30)]
proof fn lemma_body_local(
    status: u8,
    body: Seq<u8>,
    running: Option<u8>,
    mode: Mode,
    tail: Seq<u8>,
)
    requires
        reading_body(status, body, running, mode).outcome is Ok,
    ensures
        reading_body(status, body, running, mode).rest.len() < body.len(),
        reading_body(status, body, running, mode).rest == body.skip(
            body.len() - reading_body(status, body, running, mode).rest.len(),
        ),
        reading_body(
            status,
            taken(body, reading_body(status, body, running, mode).rest) + tail,
            running,
            mode,
        ) == (EventReading {
            rest: tail,
            running: reading_body(status, body, running, mode).running,
            outcome: reading_body(status, body, running, mode).outcome,
        }),
{
    if is_midi_status(status) {
        law_midi_local(body, status, tail);
    } else if status == 0xFF {
        law_meta_local(body, mode, tail);
    } else {
        law_slice_local(body, tail);
    }
}

/// Reading an event without its time depends on the running status and on the bytes that it takes
/// alone, and takes at least one.
#[verifier::rlimit(30)]
pub proof fn law_kind_local(raw: Seq<u8>, running: Option<u8>, mode: Mode, tail: Seq<u8>)
    requires
        reading_kind(raw, running, mode).outcome is Ok,
    ensures
        reading_kind(raw, running, mode).rest.len() < raw.len(),
        reading_kind(raw, running, mode).rest == raw.skip(
            raw.len() - reading_kind(raw, running, mode).rest.len(),
        ),
        reading_kind(taken(raw, reading_kind(raw, running, mode).rest) + tail, running, mode) == (
        EventReading {
            rest: tail,
            running: reading_kind(raw, running, mode).running,
            outcome: reading_kind(raw, running, mode).outcome,
        }),
{
    let reading = reading_kind(raw, running, mode);
    let status = event_status(raw, running)->Ok_0;
    let body = event_body(raw);
    let other = taken(raw, reading.rest) + tail;
    lemma_body_local(status, body, running, mode, tail);
    assert(reading.rest == raw.skip(raw.len() - reading.rest.len()));
    assert(event_body(other) == taken(body, reading.rest) + tail);
}

/// An event that was read leaves the running status that it leaves when it is written: its own
/// status for a MIDI message, none for a System Exclusive message or an escape sequence, and the
/// one before for a meta message.
pub proof fn law_kind_running(raw: Seq<u8>, running: Option<u8>, mode: Mode)
    requires
        reading_kind(raw, running, mode).outcome is Ok,
    ensures
        reading_kind(raw, running, mode).running == reading_kind(
            raw,
            running,
            mode,
        ).outcome->Ok_0.running_after(running),
{
    let status = event_status(raw, running)->Ok_0;
    if is_midi_status(status) {
        law_midi_local(event_body(raw), status, seq![]);
    }
}

/// The bytes of `all` that are gone from `rest`, which is what is left of it.
fn source<'a>(all: &'a [u8], rest: &[u8]) -> (r: &'a [u8])
    requires
        rest@.len() <= all@.len(),
        rest@ == all@.skip(all@.len() - rest@.len()),
    ensures
        r@ == taken(all@, rest@),
        all@ == r@ + rest@,
{
    let bytes = slice_subrange(all, 0, all.len() - rest.len());
    assert(bytes@ == taken(all@, rest@));
    assert(all@ == bytes@ + rest@);
    bytes
}

impl<'a> EventKind<'a> {
    /// Reads a single event from the given stream.
    /// Use this method when reading raw MIDI messages from a stream.
    ///
    /// Returns the event read and the raw bytes that make up the event, taken directly from the
    /// source bytes.
    ///
    /// The running status byte is used to fill in any missing message status (a process known
    /// as "running status").
    /// This running status should be conserved across calls to `EventKind::parse`, and should be
    /// unique per-midi-stream.
    /// Initially it should be set to `None`.
    ///
    /// This method takes a *mutable reference* to a byteslice and a running status byte.
    /// In case of success the byteslice is advanced to the next event, and the running status
    /// might be changed to a new status.
    /// In case of error no changes are made to these values.
    ///
    /// Input is judged leniently; see `parse_in`.
    pub fn parse(raw: &mut &'a [u8], running_status: &mut Option<u8>) -> (r: Result<
        (&'a [u8], EventKind<'a>),
        Error,
    >)
        ensures
            outcome(r) == parsing_kind(old(raw)@, *old(running_status), Mode::Lenient).sourced(
                old(raw)@,
            ),
            final(raw)@ == parsing_kind(old(raw)@, *old(running_status), Mode::Lenient).rest,
            *final(running_status) == parsing_kind(
                old(raw)@,
                *old(running_status),
                Mode::Lenient,
            ).running,
            r is Ok ==> {
                &&& old(raw)@ == r->Ok_0.0@ + final(raw)@
                &&& r->Ok_0.0@.len() > 0
                &&& *final(running_status) == r->Ok_0.1@.running_after(*old(running_status))
                &&& match r->Ok_0.1 {
                    EventKind::Midi { .. } => *final(running_status) == (if old(raw)@[0] >= 0x80 {
                        Some(old(raw)@[0])
                    } else {
                        *old(running_status)
                    }),
                    EventKind::SysEx(_) => *final(running_status) is None,
                    EventKind::Escape(_) => *final(running_status) is None,
                    EventKind::Meta(_) => *final(running_status) == *old(running_status),
                }
            },
            r is Err ==> {
                &&& final(raw)@ == old(raw)@
                &&& *final(running_status) == *old(running_status)
            },
    {
        EventKind::parse_in(raw, running_status, Mode::Lenient)
    }

    /// Reads a single event as `parse` does, and judges it as strictly as `mode` says.
    pub fn parse_in(raw: &mut &'a [u8], running_status: &mut Option<u8>, mode: Mode) -> (r: Result<
        (&'a [u8], EventKind<'a>),
        Error,
    >)
        ensures
            outcome(r) == parsing_kind(old(raw)@, *old(running_status), mode).sourced(
                old(raw)@,
            ),
            final(raw)@ == parsing_kind(old(raw)@, *old(running_status), mode).rest,
            *final(running_status) == parsing_kind(
                old(raw)@,
                *old(running_status),
                mode,
            ).running,
            r is Ok ==> {
                &&& old(raw)@ == r->Ok_0.0@ + final(raw)@
                &&& r->Ok_0.0@.len() > 0
                &&& *final(running_status) == r->Ok_0.1@.running_after(*old(running_status))
                &&& match r->Ok_0.1 {
                    EventKind::Midi { .. } => *final(running_status) == (if old(raw)@[0] >= 0x80 {
                        Some(old(raw)@[0])
                    } else {
                        *old(running_status)
                    }),
                    EventKind::SysEx(_) => *final(running_status) is None,
                    EventKind::Escape(_) => *final(running_status) is None,
                    EventKind::Meta(_) => *final(running_status) == *old(running_status),
                }
            },
            r is Err ==> {
                &&& final(raw)@ == old(raw)@
                &&& *final(running_status) == *old(running_status)
            },
    {
        let old_raw: &'a [u8] = *raw;
        let old_status = *running_status;
        let r = EventKind::read_in(raw, running_status, mode);
        if r.is_err() {
            *raw = old_raw;
            *running_status = old_status;
        }
        r
    }

    /// Reads a single event as `parse` does, but in case of error leaves the byteslice and the
    /// running status as they are where reading stopped.
    ///
    /// Input is judged leniently; see `read_in`.
    pub fn read(raw: &mut &'a [u8], running_status: &mut Option<u8>) -> (r: Result<
        (&'a [u8], EventKind<'a>),
        Error,
    >)
        ensures
            outcome(r) == reading_kind(old(raw)@, *old(running_status), Mode::Lenient).sourced(
                old(raw)@,
            ),
            final(raw)@ == reading_kind(old(raw)@, *old(running_status), Mode::Lenient).rest,
            *final(running_status) == reading_kind(
                old(raw)@,
                *old(running_status),
                Mode::Lenient,
            ).running,
            r is Ok ==> {
                &&& old(raw)@ == r->Ok_0.0@ + final(raw)@
                &&& r->Ok_0.0@.len() > 0
                &&& *final(running_status) == r->Ok_0.1@.running_after(*old(running_status))
                &&& match r->Ok_0.1 {
                    EventKind::Midi { .. } => *final(running_status) == (if old(raw)@[0] >= 0x80 {
                        Some(old(raw)@[0])
                    } else {
                        *old(running_status)
                    }),
                    EventKind::SysEx(_) => *final(running_status) is None,
                    EventKind::Escape(_) => *final(running_status) is None,
                    EventKind::Meta(_) => *final(running_status) == *old(running_status),
                }
            },
    {
        EventKind::read_in(raw, running_status, Mode::Lenient)
    }

    /// Reads a single event as `read` does, and judges it as strictly as `mode` says.
    #[verifier::rlimit(30)]
    pub fn read_in(raw: &mut &'a [u8], running_status: &mut Option<u8>, mode: Mode) -> (r: Result<
        (&'a [u8], EventKind<'a>),
        Error,
    >)
        ensures
            outcome(r) == reading_kind(old(raw)@, *old(running_status), mode).sourced(
                old(raw)@,
            ),
            final(raw)@ == reading_kind(old(raw)@, *old(running_status), mode).rest,
            *final(running_status) == reading_kind(
                old(raw)@,
                *old(running_status),
                mode,
            ).running,
            r is Ok ==> {
                &&& old(raw)@ == r->Ok_0.0@ + final(raw)@
                &&& r->Ok_0.0@.len() > 0
                &&& *final(running_status) == r->Ok_0.1@.running_after(*old(running_status))
                &&& match r->Ok_0.1 {
                    EventKind::Midi { .. } => *final(running_status) == (if old(raw)@[0] >= 0x80 {
                        Some(old(raw)@[0])
                    } else {
                        *old(running_status)
                    }),
                    EventKind::SysEx(_) => *final(running_status) is None,
                    EventKind::Escape(_) => *final(running_status) is None,
                    EventKind::Meta(_) => *final(running_status) == *old(running_status),
                }
            },
    {
        // Keep the beginning of the old slice
        let old_slice: &'a [u8] = *raw;
        // Read status
        if old_slice.len() == 0 {
            return Err(invalid(Fault::Status));
        }
        let first = old_slice[0];
        let status = if first < 0x80 {
            // Running status!
            match *running_status {
                Some(status) => status,
                None => {
                    return Err(invalid(Fault::MissingStatus));
                },
            }
        } else {
            // Advance slice 1 byte to consume status
            *raw = slice_subrange(old_slice, 1, old_slice.len());
            assert(raw@ == old_slice@.skip(1));
            first
        };
        // Delegate further parsing depending on status
        let kind = match EventKind::read_body(status, raw, running_status, mode) {
            Ok(kind) => kind,
            Err(error) => {
                return Err(error);
            },
        };
        // The `raw` slice has moved forward by exactly the amount of bytes that form this midi
        // event
        proof {
            law_kind_local(old(raw)@, *old(running_status), mode, seq![]);
            law_kind_running(old(raw)@, *old(running_status), mode);
        }
        let source_bytes = source(old_slice, *raw);
        Ok((source_bytes, kind))
    }

    /// Reads what follows the status of an event.
    fn read_body(
        status: u8,
        raw: &mut &'a [u8],
        running_status: &mut Option<u8>,
        mode: Mode,
    ) -> (r: Result<EventKind<'a>, Error>)
        ensures
            outcome(r) == reading_body(
                status,
                old(raw)@,
                *old(running_status),
                mode,
            ).outcome,
            final(raw)@ == reading_body(status, old(raw)@, *old(running_status), mode).rest,
            *final(running_status) == reading_body(
                status,
                old(raw)@,
                *old(running_status),
                mode,
            ).running,
    {
        match status {
            0x80..=0xEF => {
                *running_status = Some(status);
                let channel = u4::from(status);
                match context(MidiMessage::read(raw, status), Fault::MidiMessage) {
                    Ok(message) => Ok(EventKind::Midi { channel, message }),
                    Err(error) => Err(error),
                }
            },
            0xF0 => {
                *running_status = None;
                match context(read_varlen_slice(raw), Fault::SysEx) {
                    Ok(data) => Ok(EventKind::SysEx(data)),
                    Err(error) => Err(error),
                }
            },
            0xF7 => {
                *running_status = None;
                match context(read_varlen_slice(raw), Fault::Escape) {
                    Ok(data) => Ok(EventKind::Escape(data)),
                    Err(error) => Err(error),
                }
            },
            0xFF => match context(MetaMessage::read(raw, mode), Fault::Meta) {
                Ok(meta) => Ok(EventKind::Meta(meta)),
                Err(error) => Err(error),
            },
            _ => Err(invalid(Fault::EventStatus)),
        }
    }

    /// Writes a single event to the given output.
    ///
    /// `running_status` keeps track of the last MIDI status, in order to make proper use of
    /// running status. It should be shared between sequential calls, and should initially be set
    /// to `None`. If you wish to disable running status, pass in `&mut None` to every call to
    /// this method.
    ///
    /// Where the data of the event is too long, the writing stops short of its length.
    pub fn write(&self, running_status: &mut Option<u8>, out: &mut Vec<u8>) -> (r: Result<
        (),
        WriteError,
    >)
        ensures
            r is Ok <==> self@.writable(),
            r is Err ==> r == Err::<(), WriteError>(WriteError::SliceTooLong),
            final(out)@ == old(out)@ + (if self@.writable() {
                self@.bytes(*old(running_status))
            } else {
                self@.cut_short()
            }),
            *final(running_status) == self@.running_after(*old(running_status)),
            self@.valid(),
            match *self {
                EventKind::Midi { channel, message } => {
                    &&& r is Ok
                    &&& *final(running_status) matches Some(status) && status == message.nibble()
                        * 16 + channel@
                    &&& final(out)@ == old(out)@ + (if *old(running_status)
                        == *final(running_status) {
                        message.data()
                    } else {
                        seq![(message.nibble() * 16 + channel@) as u8] + message.data()
                    })
                },
                EventKind::SysEx(data) => {
                    &&& r is Ok <==> data@.len() < 0x1000_0000
                    &&& r is Ok ==> final(out)@ == old(out)@ + (seq![0xF0u8] + varlen_bytes(
                        data@.len(),
                    ) + data@)
                    &&& r is Err ==> final(out)@ == old(out)@.push(0xF0)
                    &&& *final(running_status) is None
                },
                EventKind::Escape(data) => {
                    &&& r is Ok <==> data@.len() < 0x1000_0000
                    &&& r is Ok ==> final(out)@ == old(out)@ + (seq![0xF7u8] + varlen_bytes(
                        data@.len(),
                    ) + data@)
                    &&& r is Err ==> final(out)@ == old(out)@.push(0xF7)
                    &&& *final(running_status) is None
                },
                EventKind::Meta(meta) => {
                    &&& r is Ok <==> meta@.writable()
                    &&& r is Ok ==> final(out)@ == old(out)@ + (seq![0xFFu8] + meta@.bytes())
                    &&& *final(running_status) == *old(running_status)
                },
            },
    {
        // Running Status rules:
        // - MIDI Messages (0x80 ..= 0xEF) alter and use running status
        // - System Common (0xF0 ..= 0xF7) cancel and cannot use running status
        // - System Realtime (0xF8 ..= 0xFF), including Meta Messages, do not alter running status
        //      and cannot use it either
        let r = match self {
            EventKind::Midi { channel, message } => {
                let status = message.status_nibble() * 16 + channel.as_int();
                if *running_status != Some(status) {
                    // Explicitly write status
                    out.push(status);
                    *running_status = Some(status);
                }
                message.write(out);
                Ok(())
            },
            EventKind::SysEx(data) => {
                *running_status = None;
                out.push(0xF0);
                write_varlen_slice(data, out)
            },
            EventKind::Escape(data) => {
                *running_status = None;
                out.push(0xF7);
                write_varlen_slice(data, out)
            },
            EventKind::Meta(meta) => {
                out.push(0xFF);
                meta.write(out)
            },
        };
        assert(self@.writable() ==> out@ == old(out)@ + self@.bytes(*old(running_status)));
        assert(!self@.writable() ==> out@ == old(out)@ + self@.cut_short());
        r
    }

    /// The running status where not even the status byte of the event could be written.
    ///
    /// An event that cancels the running status does so before its status byte goes out; a MIDI
    /// message sets it afterwards.
    pub fn running_if_cut(&self, running_status: Option<u8>) -> (r: Option<u8>)
        ensures
            r == (if self@ is SysEx || self@ is Escape {
                None
            } else {
                running_status
            }),
    {
        match self {
            EventKind::SysEx(_) | EventKind::Escape(_) => None,
            _ => running_status,
        }
    }
}

/// Represents a fully parsed track event, with delta time.
#[derive(Clone, Debug, PartialEq, Eq)]
pub struct Event<'a> {
    pub delta: u28,
    pub kind: EventKind<'a>,
}

/// A track event as contracts speak of it.
pub struct EventModel {
    pub delta: u28,
    pub kind: KindModel,
}

impl<'a> View for Event<'a> {
    type V = EventModel;

    open spec fn view(&self) -> EventModel {
        EventModel { delta: self.delta, kind: self.kind@ }
    }
}

/// Reads an event: its time, then the rest of it.
pub open spec fn reading_event(raw: Seq<u8>, running: Option<u8>, mode: Mode) -> EventReading<
    EventModel,
> {
    let delta = reading_varlen(raw);
    match within(delta.outcome, Fault::EventDelta) {
        Err(chain) => EventReading { rest: delta.rest, running, outcome: Err(chain) },
        Ok(time) => {
            let kind = reading_kind(delta.rest, running, mode);
            EventReading {
                rest: kind.rest,
                running: kind.running,
                outcome: match within(kind.outcome, Fault::Event) {
                    Ok(kind) => Ok(EventModel { delta: time, kind }),
                    Err(chain) => Err(chain),
                },
            }
        },
    }
}

impl EventModel {
    /// The bytes of the event.
    pub open spec fn bytes(self, running: Option<u8>) -> Seq<u8> {
        varlen_bytes(self.delta@ as nat) + self.kind.bytes(running)
    }

    /// All numbers in the event are in the ranges of their types.
    pub open spec fn valid(self) -> bool {
        self.delta@ < VARLEN_LIMIT && self.kind.valid()
    }
}

proof fn lemma_taken_twice(raw: Seq<u8>, mid: Seq<u8>, rest: Seq<u8>, tail: Seq<u8>)
    requires
        rest.len() <= mid.len() <= raw.len(),
        mid == raw.skip(raw.len() - mid.len()),
        rest == mid.skip(mid.len() - rest.len()),
    ensures
        taken(raw, rest) + tail == taken(raw, mid) + (taken(mid, rest) + tail),
        rest == raw.skip(raw.len() - rest.len()),
{
    assert(taken(raw, rest) + tail == taken(raw, mid) + (taken(mid, rest) + tail));
    assert(rest == raw.skip(raw.len() - rest.len()));
}

/// Reading an event depends on the running status and on the bytes that it takes alone, and takes
/// at least two.
#[verifier::rlimit(30)]
pub proof fn law_event_local(raw: Seq<u8>, running: Option<u8>, mode: Mode, tail: Seq<u8>)
    requires
        reading_event(raw, running, mode).outcome is Ok,
    ensures
        reading_event(raw, running, mode).rest.len() + 2 <= raw.len(),
        reading_event(raw, running, mode).rest == raw.skip(
            raw.len() - reading_event(raw, running, mode).rest.len(),
        ),
        reading_event(taken(raw, reading_event(raw, running, mode).rest) + tail, running, mode) == (
        EventReading {
            rest: tail,
            running: reading_event(raw, running, mode).running,
            outcome: reading_event(raw, running, mode).outcome,
        }),
{
    let time = reading_varlen(raw);
    let reading = reading_event(raw, running, mode);
    law_kind_local(time.rest, running, mode, tail);
    law_varlen_local(raw, taken(time.rest, reading.rest) + tail);
    lemma_taken_twice(raw, time.rest, reading.rest, tail);
}

impl<'a> Event<'a> {
    /// Read an `Smf` track event from raw track data.
    ///
    /// The received raw slice should extend to the very end of the track.
    ///
    /// The first return value is a prefix of the input slice, containing the bytes that form
    /// the first event in the track.
    /// The second return value is this very same event, but parsed.
    ///
    /// The `raw` slice will be modified and have this prefix removed.
    ///
    /// In case of error the byteslice and the running status are left as they are where reading
    /// stopped. Input is judged leniently; see `read_in`.
    pub fn read(raw: &mut &'a [u8], running_status: &mut Option<u8>) -> (r: Result<
        (&'a [u8], Event<'a>),
        Error,
    >)
        ensures
            outcome(r) == reading_event(old(raw)@, *old(running_status), Mode::Lenient).sourced(
                old(raw)@,
            ),
            final(raw)@ == reading_event(old(raw)@, *old(running_status), Mode::Lenient).rest,
            *final(running_status) == reading_event(
                old(raw)@,
                *old(running_status),
                Mode::Lenient,
            ).running,
            r is Ok ==> {
                &&& old(raw)@ == r->Ok_0.0@ + final(raw)@
                &&& *final(running_status) == r->Ok_0.1@.kind.running_after(*old(running_status))
                &&& match r->Ok_0.1.kind {
                    EventKind::Midi { .. } => *final(running_status) == (if reading_varlen(old(raw)@).rest[0] >= 0x80 {
                        Some(reading_varlen(old(raw)@).rest[0])
                    } else {
                        *old(running_status)
                    }),
                    EventKind::SysEx(_) => *final(running_status) is None,
                    EventKind::Escape(_) => *final(running_status) is None,
                    EventKind::Meta(_) => *final(running_status) == *old(running_status),
                }
                &&& reading_varlen(old(raw)@).outcome == Ok::<u28, Seq<ErrorKind>>(r->Ok_0.1.delta)
                &&& reading_kind(
                    reading_varlen(old(raw)@).rest,
                    *old(running_status),
                    Mode::Lenient,
                ).outcome == Ok::<KindModel, Seq<ErrorKind>>(r->Ok_0.1.kind@)
            },
    {
        Event::read_in(raw, running_status, Mode::Lenient)
    }

    /// Reads a track event as `read` does, and judges it as strictly as `mode` says.
    #[verifier::rlimit(30)]
    pub fn read_in(raw: &mut &'a [u8], running_status: &mut Option<u8>, mode: Mode) -> (r: Result<
        (&'a [u8], Event<'a>),
        Error,
    >)
        ensures
            outcome(r) == reading_event(old(raw)@, *old(running_status), mode).sourced(old(raw)@),
            final(raw)@ == reading_event(old(raw)@, *old(running_status), mode).rest,
            *final(running_status) == reading_event(
                old(raw)@,
                *old(running_status),
                mode,
            ).running,
            r is Ok ==> {
                &&& old(raw)@ == r->Ok_0.0@ + final(raw)@
                &&& *final(running_status) == r->Ok_0.1@.kind.running_after(*old(running_status))
                &&& match r->Ok_0.1.kind {
                    EventKind::Midi { .. } => *final(running_status) == (if reading_varlen(old(raw)@).rest[0] >= 0x80 {
                        Some(reading_varlen(old(raw)@).rest[0])
                    } else {
                        *old(running_status)
                    }),
                    EventKind::SysEx(_) => *final(running_status) is None,
                    EventKind::Escape(_) => *final(running_status) is None,
                    EventKind::Meta(_) => *final(running_status) == *old(running_status),
                }
                &&& reading_varlen(old(raw)@).outcome == Ok::<u28, Seq<ErrorKind>>(r->Ok_0.1.delta)
                &&& reading_kind(
                    reading_varlen(old(raw)@).rest,
                    *old(running_status),
                    mode,
                ).outcome == Ok::<KindModel, Seq<ErrorKind>>(r->Ok_0.1.kind@)
            },
    {
        let old_slice: &'a [u8] = *raw;
        let delta = match context(u28::read_u7(raw), Fault::EventDelta) {
            Ok(delta) => delta,
            Err(error) => {
                return Err(error);
            },
        };
        let kind = match context(EventKind::read_in(raw, running_status, mode), Fault::Event) {
            Ok((_, kind)) => kind,
            Err(error) => {
                return Err(error);
            },
        };
        proof {
            law_event_local(old(raw)@, *old(running_status), mode, seq![]);
        }
        let source_bytes = source(old_slice, *raw);
        Ok((source_bytes, Event { delta, kind }))
    }

    /// Writes a track event to the given output: its time, then what `EventKind::write` writes.
    pub fn write(&self, running_status: &mut Option<u8>, out: &mut Vec<u8>) -> (r: Result<
        (),
        WriteError,
    >)
        ensures
            r is Ok <==> self@.kind.writable(),
            r is Err ==> r == Err::<(), WriteError>(WriteError::SliceTooLong),
            final(out)@ == old(out)@ + (if self@.kind.writable() {
                self@.bytes(*old(running_status))
            } else {
                varlen_bytes(self@.delta@ as nat) + self@.kind.cut_short()
            }),
            *final(running_status) == self@.kind.running_after(*old(running_status)),
            self@.valid(),
            final(out)@ == old(out)@ + varlen_bytes(self.delta@ as nat) + (
            if self.kind@.writable() {
                self.kind@.bytes(*old(running_status))
            } else {
                self.kind@.cut_short()
            }),
            match self.kind {
                EventKind::Midi { channel, message } => *final(running_status) matches Some(status)
                    && status == message.nibble() * 16 + channel@,
                EventKind::SysEx(_) => *final(running_status) is None,
                EventKind::Escape(_) => *final(running_status) is None,
                EventKind::Meta(_) => *final(running_status) == *old(running_status),
            },
    {
        self.delta.write_varlen(out);
        let r = self.kind.write(running_status, out);
        assert(self@.kind.writable() ==> out@ == old(out)@ + self@.bytes(*old(running_status)));
        assert(!self@.kind.writable() ==> out@ == old(out)@ + (varlen_bytes(self@.delta@ as nat)
            + self@.kind.cut_short()));
        r
    }
}

} // verus!
