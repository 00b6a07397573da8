//! What holds of reading and writing together.

use crate::error::{ErrorKind, Mode};
use crate::event::{
    event_body, event_status, law_kind_running, parsing_kind, reading_body, reading_event,
    reading_kind, EventModel, EventReading, KindModel,
};
use crate::meta::{law_meta_modes, law_meta_read_is_writable, law_meta_round_trip};
use crate::midi::{is_midi_status, law_midi_local, law_midi_round_trip};
use crate::primitive::group_narrow_ints;
use crate::varlen::{
    law_slice_local, law_slice_round_trip, law_varlen_round_trip, reading_varlen, varlen_bytes,
};
use vstd::prelude::*;

verus! {

/// A reader understands a writer that relies on this running status, or on none.
pub open spec fn in_step(writer: Option<u8>, reader: Option<u8>) -> bool {
    writer is None || writer == reader
}

/// A running status that a stream can have: none at first, and later that of a MIDI message.
pub open spec fn is_running(running: Option<u8>) -> bool {
    running matches Some(status) ==> is_midi_status(status)
}

proof fn lemma_body_round_trip(kind: KindModel, running: Option<u8>, mode: Mode, tail: Seq<u8>)
    requires
        kind.valid(),
        kind.writable(),
        kind.in_own_form(),
        mode == Mode::Strict ==> !kind.is_unknown(),
    ensures
        reading_body(kind.status(), kind.body() + tail, running, mode) == (EventReading {
            rest: tail,
            running: kind.running_after(running),
            outcome: Ok(kind),
        }),
{
    match kind {
        KindModel::Midi { channel, message } => {
            law_midi_round_trip(message, channel, tail);
        },
        KindModel::SysEx(data) => {
            law_slice_round_trip(data, tail);
        },
        KindModel::Escape(data) => {
            law_slice_round_trip(data, tail);
        },
        KindModel::Meta(meta) => {
            law_meta_round_trip(meta, mode, tail);
        },
    }
}

/// The status of an event that was written is read back, and so is what follows it.
proof fn lemma_status_round_trip(
    kind: KindModel,
    writer: Option<u8>,
    reader: Option<u8>,
    tail: Seq<u8>,
)
    requires
        kind.valid(),
        in_step(writer, reader),
    ensures
        event_status(kind.bytes(writer) + tail, reader) == Ok::<u8, Seq<ErrorKind>>(kind.status()),
        event_body(kind.bytes(writer) + tail) == kind.body() + tail,
{
    let raw = kind.bytes(writer) + tail;
    match kind {
        KindModel::Midi { channel, message } => {
            law_midi_round_trip(message, channel, tail);
            if writer == Some(kind.status()) {
                assert(kind.bytes(writer) == kind.body());
                assert(raw[0] == message.data()[0]);
            } else {
                assert(raw.skip(1) == kind.body() + tail);
            }
        },
        _ => {
            assert(raw.skip(1) == kind.body() + tail);
        },
    }
}

/// An event that was written is read back, by a reader in step with the writer, and what follows it
/// is left alone. Reader and writer are then in step again.
///
/// This leaves out what cannot be written, a meta message of a known type in the guise of an
/// unknown one, and in strict mode the meta messages of no known type.
pub proof fn law_kind_round_trip(
    kind: KindModel,
    writer: Option<u8>,
    reader: Option<u8>,
    mode: Mode,
    tail: Seq<u8>,
)
    requires
        kind.valid(),
        kind.writable(),
        kind.in_own_form(),
        mode == Mode::Strict ==> !kind.is_unknown(),
        in_step(writer, reader),
    ensures
        reading_kind(kind.bytes(writer) + tail, reader, mode) == (EventReading {
            rest: tail,
            running: kind.running_after(reader),
            outcome: Ok(kind),
        }),
        in_step(kind.running_after(writer), kind.running_after(reader)),
{
    lemma_status_round_trip(kind, writer, reader, tail);
    lemma_body_round_trip(kind, reader, mode, tail);
}

/// The event can be written, and what is written of it is read as that event.
///
/// Short of that fall events with too much data, a meta message of a known type in the guise of an
/// unknown one, and in strict mode the meta messages of no known type.
pub open spec fn reads_back(event: EventModel, mode: Mode) -> bool {
    &&& event.valid()
    &&& event.kind.writable()
    &&& event.kind.in_own_form()
    &&& mode == Mode::Strict ==> !event.kind.is_unknown()
}

/// A track event that was written is read back, time and all, by a reader in step with the writer,
/// and what follows it is left alone. Reader and writer are then in step again.
pub proof fn law_event_round_trip(
    event: EventModel,
    writer: Option<u8>,
    reader: Option<u8>,
    mode: Mode,
    tail: Seq<u8>,
)
    requires
        reads_back(event, mode),
        in_step(writer, reader),
    ensures
        reading_event(event.bytes(writer) + tail, reader, mode) == (EventReading {
            rest: tail,
            running: event.kind.running_after(reader),
            outcome: Ok(event),
        }),
        in_step(event.kind.running_after(writer), event.kind.running_after(reader)),
{
    let after = event.kind.bytes(writer) + tail;
    law_varlen_round_trip(event.delta, after);
    law_kind_round_trip(event.kind, writer, reader, mode, tail);
    assert(event.bytes(writer) + tail == varlen_bytes(event.delta@ as nat) + after);
}

proof fn lemma_concat(a: Seq<u8>, b: Seq<u8>, c: Seq<u8>)
    ensures
        (a + b) + c == a + (b + c),
{
    assert((a + b) + c == a + (b + c));
}

/// The bytes of some events, written one after the other.
pub open spec fn track_bytes(events: Seq<EventModel>, running: Option<u8>) -> Seq<u8>
    decreases events.len(),
{
    if events.len() == 0 {
        seq![]
    } else {
        events[0].bytes(running) + track_bytes(
            events.drop_first(),
            events[0].kind.running_after(running),
        )
    }
}

/// The first `count` events of a track, read one after the other, and what is left of the track;
/// or `None`, where one of them cannot be read.
pub open spec fn reading_track(
    raw: Seq<u8>,
    running: Option<u8>,
    mode: Mode,
    count: nat,
) -> Option<(Seq<EventModel>, Seq<u8>)>
    decreases count,
{
    if count == 0 {
        Some((seq![], raw))
    } else {
        let first = reading_event(raw, running, mode);
        match first.outcome {
            Err(_) => None,
            Ok(event) => match reading_track(
                first.rest,
                first.running,
                mode,
                (count - 1) as nat,
            ) {
                None => None,
                Some((events, rest)) => Some((seq![event] + events, rest)),
            },
        }
    }
}

/// Events that were written one after the other, with a running status shared between the calls,
/// are read back one after the other in the same way.
#[verifier::rlimit(30)]
pub proof fn law_track_round_trip(
    events: Seq<EventModel>,
    writer: Option<u8>,
    reader: Option<u8>,
    mode: Mode,
    tail: Seq<u8>,
)
    requires
        forall|i: int| 0 <= i < events.len() ==> reads_back(#[trigger] events[i], mode),
        in_step(writer, reader),
    ensures
        reading_track(track_bytes(events, writer) + tail, reader, mode, events.len()) == Some(
            (events, tail),
        ),
    decreases events.len(),
{
    if events.len() == 0 {
        assert(track_bytes(events, writer) + tail == tail);
        assert(events == Seq::<EventModel>::empty());
    } else {
        let event = events[0];
        let others = events.drop_first();
        let after = track_bytes(others, event.kind.running_after(writer)) + tail;
        law_event_round_trip(event, writer, reader, mode, after);
        assert forall|i: int| 0 <= i < others.len() implies reads_back(
            #[trigger] others[i],
            mode,
        ) by {
            assert(others[i] == events[i + 1]);
        }
        law_track_round_trip(
            others,
            event.kind.running_after(writer),
            event.kind.running_after(reader),
            mode,
            tail,
        );
        lemma_concat(
            event.bytes(writer),
            track_bytes(others, event.kind.running_after(writer)),
            tail,
        );
        assert(seq![event] + others == events);
    }
}

/// An event that was read can be written, and is in the form in which it is read back.
pub proof fn law_kind_read_is_writable(raw: Seq<u8>, running: Option<u8>, mode: Mode)
    requires
        reading_kind(raw, running, mode).outcome is Ok,
    ensures
        reading_kind(raw, running, mode).outcome->Ok_0.valid(),
        reading_kind(raw, running, mode).outcome->Ok_0.writable(),
        reading_kind(raw, running, mode).outcome->Ok_0.in_own_form(),
{
    broadcast use group_narrow_ints;

    let status = event_status(raw, running)->Ok_0;
    let body = event_body(raw);
    if is_midi_status(status) {
        law_midi_local(body, status, seq![]);
    } else if status == 0xFF {
        law_meta_read_is_writable(body, mode);
    } else {
        law_slice_local(body, seq![]);
    }
}

/// What strict mode accepts, lenient mode reads as the same event; and strict mode accepts no meta
/// message of unknown type.
pub proof fn law_kind_modes(raw: Seq<u8>, running: Option<u8>)
    ensures
        reading_kind(raw, running, Mode::Strict).outcome is Ok ==> {
            &&& reading_kind(raw, running, Mode::Lenient) == reading_kind(
                raw,
                running,
                Mode::Strict,
            )
            &&& !reading_kind(raw, running, Mode::Strict).outcome->Ok_0.is_unknown()
        },
{
    law_meta_modes(event_body(raw));
}

/// What strict mode accepts, lenient mode reads as the same track event; and strict mode accepts no
/// meta message of unknown type.
pub proof fn law_event_modes(raw: Seq<u8>, running: Option<u8>)
    ensures
        reading_event(raw, running, Mode::Strict).outcome is Ok ==> {
            &&& reading_event(raw, running, Mode::Lenient) == reading_event(
                raw,
                running,
                Mode::Strict,
            )
            &&& !reading_event(raw, running, Mode::Strict).outcome->Ok_0.kind.is_unknown()
        },
{
    law_kind_modes(reading_varlen(raw).rest, running);
}

/// A track event that was read, in whatever form, can be written, and what is written of it is read
/// as the same event, with what follows it left alone.
#[verifier::rlimit(30)]
pub proof fn law_event_rewrite(
    raw: Seq<u8>,
    running: Option<u8>,
    mode: Mode,
    writer: Option<u8>,
    reader: Option<u8>,
    tail: Seq<u8>,
)
    requires
        reading_event(raw, running, mode).outcome is Ok,
        in_step(writer, reader),
    ensures
        reading_event(raw, running, mode).outcome->Ok_0.kind.writable(),
        reading_event(
            reading_event(raw, running, mode).outcome->Ok_0.bytes(writer) + tail,
            reader,
            mode,
        ) == (EventReading {
            rest: tail,
            running: reading_event(raw, running, mode).outcome->Ok_0.kind.running_after(reader),
            outcome: reading_event(raw, running, mode).outcome,
        }),
{
    broadcast use group_narrow_ints;

    law_kind_read_is_writable(reading_varlen(raw).rest, running, mode);
    if mode == Mode::Strict {
        law_event_modes(raw, running);
    }
    law_event_round_trip(
        reading_event(raw, running, mode).outcome->Ok_0,
        writer,
        reader,
        mode,
        tail,
    );
}

/// A stream that starts without a running status never has one but that of a MIDI message: reading
/// keeps to that, whether it succeeds or fails, and so does writing.
pub proof fn law_running_status_kept(
    raw: Seq<u8>,
    running: Option<u8>,
    mode: Mode,
    kind: KindModel,
)
    requires
        kind.valid(),
        is_running(running),
    ensures
        is_running(None),
        is_running(reading_kind(raw, running, mode).running),
        is_running(reading_event(raw, running, mode).running),
        is_running(kind.running_after(running)),
{
    if let KindModel::Midi { channel, message } = kind {
        law_midi_round_trip(message, channel, seq![]);
    }
}

/// Only a MIDI message is ever written without its status byte, and only where it has the running
/// status. Without a running status none is.
pub proof fn law_written_status(kind: KindModel, running: Option<u8>)
    ensures
        kind is Midi && running == Some(kind.status()) ==> kind.bytes(running) == kind.body(),
        !(kind is Midi && running == Some(kind.status())) ==> kind.bytes(running) == seq![
            kind.status(),
        ] + kind.body(),
        running is None ==> kind.bytes(running) == seq![kind.status()] + kind.body(),
{
    assert(Seq::<u8>::empty() + kind.body() == kind.body());
}

/// `parse` comes to the same as `read`, down to the error, and differs from it only in that it
/// undoes all changes where it fails.
pub proof fn law_parse_is_read(raw: Seq<u8>, running: Option<u8>, mode: Mode)
    ensures
        parsing_kind(raw, running, mode).outcome == reading_kind(raw, running, mode).outcome,
        parsing_kind(raw, running, mode).sourced(raw) == reading_kind(raw, running, mode).sourced(
            raw,
        ),
        reading_kind(raw, running, mode).outcome is Ok ==> parsing_kind(raw, running, mode)
            == reading_kind(raw, running, mode),
        reading_kind(raw, running, mode).outcome is Err ==> {
            &&& parsing_kind(raw, running, mode).rest == raw
            &&& parsing_kind(raw, running, mode).running == running
        },
{
}

/// MIDI messages alter and use the running status. System Exclusive messages and escape sequences
/// cancel it, and meta messages do not alter it. In a stream none of these can use it: each has its
/// own status byte.
pub proof fn law_running_status_rules(raw: Seq<u8>, running: Option<u8>, mode: Mode)
    requires
        reading_kind(raw, running, mode).outcome is Ok,
    ensures
        reading_kind(raw, running, mode).running == reading_kind(
            raw,
            running,
            mode,
        ).outcome->Ok_0.running_after(running),
        is_running(running) && !(reading_kind(raw, running, mode).outcome->Ok_0 is Midi) ==> raw[0]
            == reading_kind(raw, running, mode).outcome->Ok_0.status(),
        reading_kind(raw, running, mode).outcome->Ok_0 is Midi && raw[0] < 0x80 ==> running
            == Some(reading_kind(raw, running, mode).outcome->Ok_0.status()),
{
    law_kind_running(raw, running, mode);
}

} // verus!
