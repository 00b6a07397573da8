use midi_event::{
    u14, u24, u28, u4, u7, Deviation, Error, ErrorKind, Event, EventKind, Fault, Fps, MetaMessage,
    MidiMessage, Mode, SmpteFields, SmpteTime, WriteError,
};

fn invalid(faults: &[Fault]) -> Vec<ErrorKind> {
    faults.iter().map(|fault| ErrorKind::Invalid(*fault)).collect()
}

fn parse_err(bytes: &[u8], mode: Mode) -> Error {
    let mut raw = bytes;
    let mut running = Some(0x95);
    let error = EventKind::parse_in(&mut raw, &mut running, mode).unwrap_err();
    assert_eq!(raw, bytes);
    assert_eq!(running, Some(0x95));
    error
}

fn note_on(channel: u8, key: u8, vel: u8) -> EventKind<'static> {
    EventKind::Midi {
        channel: u4::from(channel),
        message: MidiMessage::NoteOn {
            key: u7::from(key),
            vel: u7::from(vel),
        },
    }
}

fn midi_messages() -> Vec<(MidiMessage, Vec<u8>)> {
    let (a, b) = (u7::from(0x3C), u7::from(0x40));
    vec![
        (MidiMessage::NoteOff { key: a, vel: b }, vec![0x82, 0x3C, 0x40]),
        (MidiMessage::NoteOn { key: a, vel: b }, vec![0x92, 0x3C, 0x40]),
        (MidiMessage::Aftertouch { key: a, vel: b }, vec![0xA2, 0x3C, 0x40]),
        (
            MidiMessage::Controller { controller: a, value: b },
            vec![0xB2, 0x3C, 0x40],
        ),
        (MidiMessage::ProgramChange { program: a }, vec![0xC2, 0x3C]),
        (MidiMessage::ChannelAftertouch { vel: a }, vec![0xD2, 0x3C]),
        (
            MidiMessage::PitchBend { bend: u14::from(0x2005) },
            vec![0xE2, 0x05, 0x40],
        ),
    ]
}

fn meta_messages() -> Vec<(MetaMessage, Vec<u8>)> {
    let time = SmpteTime::new(SmpteFields {
        hour: 1,
        minute: 2,
        second: 3,
        frame: 4,
        subframe: 5,
        fps: Fps::Fps30,
    })
    .unwrap();
    vec![
        (MetaMessage::TrackNumber(None), vec![0x00, 0]),
        (MetaMessage::TrackNumber(Some(0x1234)), vec![0x00, 2, 0x12, 0x34]),
        (MetaMessage::Text(vec![7]), vec![0x01, 1, 7]),
        (MetaMessage::Copyright(vec![7]), vec![0x02, 1, 7]),
        (MetaMessage::TrackName(vec![7, 8]), vec![0x03, 2, 7, 8]),
        (MetaMessage::InstrumentName(vec![]), vec![0x04, 0]),
        (MetaMessage::Lyric(vec![7]), vec![0x05, 1, 7]),
        (MetaMessage::Marker(vec![7]), vec![0x06, 1, 7]),
        (MetaMessage::CuePoint(vec![7]), vec![0x07, 1, 7]),
        (MetaMessage::ProgramName(vec![7]), vec![0x08, 1, 7]),
        (MetaMessage::DeviceName(vec![7]), vec![0x09, 1, 7]),
        (MetaMessage::MidiChannel(u4::from(9)), vec![0x20, 1, 9]),
        (MetaMessage::MidiPort(u7::from(100)), vec![0x21, 1, 100]),
        (MetaMessage::EndOfTrack, vec![0x2F, 0]),
        (
            MetaMessage::Tempo(u24::from(500_000)),
            vec![0x51, 3, 0x07, 0xA1, 0x20],
        ),
        (
            MetaMessage::SmpteOffset(time),
            vec![0x54, 5, 0x61, 2, 3, 4, 5],
        ),
        (
            MetaMessage::TimeSignature(6, 3, 36, 8),
            vec![0x58, 4, 6, 3, 36, 8],
        ),
        (MetaMessage::KeySignature(-3, true), vec![0x59, 2, 0xFD, 1]),
        (MetaMessage::KeySignature(4, false), vec![0x59, 2, 4, 0]),
        (MetaMessage::SequencerSpecific(vec![1, 2]), vec![0x7F, 2, 1, 2]),
    ]
}

#[test]
fn midi_messages_are_written_and_read_back() {
    for (message, bytes) in midi_messages() {
        let kind = EventKind::Midi { channel: u4::from(2), message };
        let mut out = Vec::new();
        let mut running = None;
        assert_eq!(kind.write(&mut running, &mut out), Ok(()));
        assert_eq!(out, bytes);
        assert_eq!(running, Some(bytes[0]));
        assert_eq!(message.status_nibble(), bytes[0] >> 4);
        out.push(0x55);
        let mut raw: &[u8] = &out;
        let mut running = None;
        let (source, read) = EventKind::parse(&mut raw, &mut running).unwrap();
        assert_eq!(source, &bytes[..]);
        assert_eq!(read, kind);
        assert_eq!(raw, &[0x55]);
        assert_eq!(running, Some(bytes[0]));
    }
}

#[test]
fn data_bytes_lose_their_top_bits() {
    let mut raw: &[u8] = &[0x90, 0xBC, 0xC0];
    let (_, kind) = EventKind::parse(&mut raw, &mut None).unwrap();
    assert_eq!(kind, note_on(0, 0x3C, 0x40));
}

#[test]
fn meta_messages_are_written_and_read_back() {
    for (message, bytes) in meta_messages() {
        let kind = EventKind::Meta(message);
        let mut out = Vec::new();
        let mut running = Some(0x93);
        assert_eq!(kind.write(&mut running, &mut out), Ok(()));
        assert_eq!(out[0], 0xFF);
        assert_eq!(&out[1..], &bytes[..]);
        assert_eq!(running, Some(0x93));
        for mode in [Mode::Lenient, Mode::Strict] {
            let mut raw: &[u8] = &out;
            let mut running = Some(0x93);
            let (source, read) = EventKind::parse_in(&mut raw, &mut running, mode).unwrap();
            assert_eq!(source, &out[..]);
            assert_eq!(read, kind);
            assert!(raw.is_empty());
            assert_eq!(running, Some(0x93));
        }
    }
}

#[test]
fn unknown_meta_messages_are_kept_by_lenient_readers_only() {
    for bytes in [
        vec![0xFF, 0x0A, 2, 1, 2],
        vec![0xFF, 0x20, 0],
        vec![0xFF, 0x21, 0],
        vec![0xFF, 0x51, 2, 1, 2],
        vec![0xFF, 0x54, 4, 1, 2, 3, 4],
        vec![0xFF, 0x58, 3, 1, 2, 3],
        vec![0xFF, 0x7E, 0],
    ] {
        let mut raw: &[u8] = &bytes;
        let (_, kind) = EventKind::parse(&mut raw, &mut None).unwrap();
        assert_eq!(
            kind,
            EventKind::Meta(MetaMessage::Unknown(bytes[1], bytes[3..].to_vec()))
        );
        let mut out = Vec::new();
        assert_eq!(kind.write(&mut None, &mut out), Ok(()));
        assert_eq!(out, bytes);
        assert_eq!(
            parse_err(&bytes, Mode::Strict).chain(),
            [
                ErrorKind::Pedantic(Deviation::UnknownMetaType),
                ErrorKind::Invalid(Fault::Meta)
            ]
        );
    }
}

#[test]
fn known_types_in_the_guise_of_unknown_ones_are_read_as_what_they_are() {
    let kind = EventKind::Meta(MetaMessage::Unknown(0x01, vec![65]));
    let mut out = Vec::new();
    assert_eq!(kind.write(&mut None, &mut out), Ok(()));
    let mut raw: &[u8] = &out;
    let (_, read) = EventKind::parse(&mut raw, &mut None).unwrap();
    assert_eq!(read, EventKind::Meta(MetaMessage::Text(vec![65])));
}

#[test]
fn surplus_data_is_dropped_by_lenient_readers_and_refused_by_strict_ones() {
    let cases: Vec<(Vec<u8>, MetaMessage, Deviation)> = vec![
        (
            vec![0xFF, 0x00, 1, 9],
            MetaMessage::TrackNumber(None),
            Deviation::TrackNumberLength,
        ),
        (
            vec![0xFF, 0x00, 3, 1, 2, 3],
            MetaMessage::TrackNumber(Some(0x102)),
            Deviation::TrackNumberLength,
        ),
        (
            vec![0xFF, 0x20, 2, 0x1F, 2],
            MetaMessage::MidiChannel(u4::from(15)),
            Deviation::MidiChannelLength,
        ),
        (
            vec![0xFF, 0x21, 2, 0x81, 2],
            MetaMessage::MidiPort(u7::from(1)),
            Deviation::MidiPortLength,
        ),
        (
            vec![0xFF, 0x2F, 1, 1],
            MetaMessage::EndOfTrack,
            Deviation::EndOfTrackLength,
        ),
        (
            vec![0xFF, 0x51, 4, 0, 1, 2, 3],
            MetaMessage::Tempo(u24::from(0x102)),
            Deviation::TempoLength,
        ),
        (
            vec![0xFF, 0x58, 5, 1, 2, 3, 4, 5],
            MetaMessage::TimeSignature(1, 2, 3, 4),
            Deviation::TimeSignatureLength,
        ),
    ];
    for (bytes, message, deviation) in cases {
        let mut raw: &[u8] = &bytes;
        let (source, kind) = EventKind::parse(&mut raw, &mut None).unwrap();
        assert_eq!(source, &bytes[..]);
        assert_eq!(kind, EventKind::Meta(message));
        assert_eq!(
            parse_err(&bytes, Mode::Strict).cause(),
            ErrorKind::Pedantic(deviation)
        );
    }
    let bytes = [0xFF, 0x54, 6, 0, 0, 0, 0, 0, 0];
    assert_eq!(
        parse_err(&bytes, Mode::Strict).cause(),
        ErrorKind::Pedantic(Deviation::SmpteOffsetLength)
    );
    let mut raw: &[u8] = &bytes;
    assert!(EventKind::parse(&mut raw, &mut None).is_ok());
}

#[test]
fn sysex_and_escape_cancel_the_running_status() {
    for (kind, status) in [
        (EventKind::SysEx(&[1, 2, 0xF7]), 0xF0),
        (EventKind::Escape(&[1, 2, 0xF7]), 0xF7),
    ] {
        let mut out = Vec::new();
        let mut running = Some(0x90);
        assert_eq!(kind.write(&mut running, &mut out), Ok(()));
        assert_eq!(out, [status, 3, 1, 2, 0xF7]);
        assert_eq!(running, None);
        let mut raw: &[u8] = &out;
        let mut running = Some(0x90);
        let (source, read) = EventKind::parse(&mut raw, &mut running).unwrap();
        assert_eq!(source, &out[..]);
        assert_eq!(read, kind);
        assert_eq!(running, None);
    }
}

#[test]
fn running_status_leaves_out_repeated_status_bytes() {
    let mut out = Vec::new();
    let mut running = None;
    for kind in [
        note_on(1, 60, 100),
        note_on(1, 60, 0),
        EventKind::Meta(MetaMessage::EndOfTrack),
        note_on(1, 61, 0),
        note_on(2, 61, 0),
        EventKind::SysEx(&[]),
        note_on(2, 62, 0),
    ] {
        assert_eq!(kind.write(&mut running, &mut out), Ok(()));
    }
    assert_eq!(
        out,
        [
            0x91, 60, 100, 60, 0, 0xFF, 0x2F, 0, 61, 0, 0x92, 61, 0, 0xF0, 0, 0x92, 62, 0
        ]
    );
}

#[test]
fn running_status_can_be_disabled() {
    let mut out = Vec::new();
    for _ in 0..2 {
        assert_eq!(note_on(1, 60, 100).write(&mut None, &mut out), Ok(()));
    }
    assert_eq!(out, [0x91, 60, 100, 0x91, 60, 100]);
}

#[test]
fn failed_parses_change_nothing() {
    assert_eq!(
        parse_err(&[], Mode::Lenient).chain(),
        invalid(&[Fault::Status])
    );
    assert_eq!(
        parse_err(&[0x90, 60], Mode::Lenient).chain(),
        invalid(&[Fault::Integer, Fault::MidiMessage])
    );
    assert_eq!(
        parse_err(&[0xF0, 3, 1], Mode::Lenient).chain(),
        invalid(&[Fault::SliceData, Fault::SysEx])
    );
    assert_eq!(
        parse_err(&[0xF7, 0x80, 0x80, 0x80, 0x80, 0], Mode::Lenient).chain(),
        invalid(&[Fault::VarlenLength, Fault::SliceLength, Fault::Escape])
    );
    assert_eq!(
        parse_err(&[0xFF], Mode::Lenient).chain(),
        invalid(&[Fault::Integer, Fault::MetaType, Fault::Meta])
    );
    assert_eq!(
        parse_err(&[0xFF, 0x01, 2, 0], Mode::Lenient).chain(),
        invalid(&[Fault::SliceData, Fault::MetaData, Fault::Meta])
    );
    assert_eq!(
        parse_err(&[0xFF, 0x54, 5, 31, 0, 0, 0, 0], Mode::Lenient).chain(),
        invalid(&[Fault::SmpteField, Fault::SmpteTime, Fault::Meta])
    );
    assert_eq!(
        parse_err(&[0xFF, 0x59, 1, 0], Mode::Lenient).chain(),
        invalid(&[Fault::Integer, Fault::Meta])
    );
    for status in [0xF1, 0xF2, 0xF6, 0xF8, 0xFE] {
        assert_eq!(
            parse_err(&[status, 0, 0], Mode::Lenient).chain(),
            invalid(&[Fault::EventStatus])
        );
    }
}

#[test]
fn data_bytes_need_a_running_status() {
    let mut raw: &[u8] = &[60, 100];
    let mut running = None;
    let error = EventKind::parse(&mut raw, &mut running).unwrap_err();
    assert_eq!(error.kind(), ErrorKind::Invalid(Fault::MissingStatus));
    assert_eq!(
        error.kind().message(),
        "event missing status with no running status active"
    );
    running = Some(0x93);
    let (source, kind) = EventKind::parse(&mut raw, &mut running).unwrap();
    assert_eq!(source, &[60, 100]);
    assert_eq!(kind, note_on(3, 60, 100));
    assert_eq!(running, Some(0x93));
}

#[test]
fn midi_messages_need_a_midi_status() {
    for status in [0x00, 0x7F, 0xF0, 0xFF] {
        let mut raw: &[u8] = &[1, 2];
        assert_eq!(
            MidiMessage::read(&mut raw, status).unwrap_err().kind(),
            ErrorKind::Invalid(Fault::MidiStatus)
        );
        assert_eq!(raw, &[1, 2]);
    }
}

#[test]
fn messages_tell_what_went_wrong() {
    let error = parse_err(&[0xFF, 0x51, 4, 0, 1, 2, 3], Mode::Strict);
    assert_eq!(error.cause().message(), "invalid tempo event length");
    assert_eq!(error.kind().message(), "failed to read meta event");
}

#[test]
fn track_events_have_their_time_ahead_of_them() {
    let bytes = [0x81, 0x00, 0x90, 60, 100, 0x05, 60, 0];
    let mut raw: &[u8] = &bytes;
    let mut running = None;
    let (source, event) = Event::read(&mut raw, &mut running).unwrap();
    assert_eq!(source, &bytes[..5]);
    assert_eq!(
        event,
        Event {
            delta: u28::from(128),
            kind: note_on(0, 60, 100)
        }
    );
    assert_eq!(raw, &bytes[5..]);
    let (source, event) = Event::read(&mut raw, &mut running).unwrap();
    assert_eq!(source, &bytes[5..]);
    assert_eq!(
        event,
        Event {
            delta: u28::from(5),
            kind: note_on(0, 60, 0)
        }
    );
    assert!(raw.is_empty());
}

#[test]
fn failed_track_events_say_so() {
    let mut raw: &[u8] = &[0x81];
    assert_eq!(
        Event::read(&mut raw, &mut None).unwrap_err().chain(),
        invalid(&[Fault::Integer, Fault::EventDelta])
    );
    let mut raw: &[u8] = &[0x00, 0x90, 60];
    let mut running = None;
    assert_eq!(
        Event::read(&mut raw, &mut running).unwrap_err().chain(),
        invalid(&[Fault::Integer, Fault::MidiMessage, Fault::Event])
    );
    assert!(raw.is_empty());
    assert_eq!(running, Some(0x90));
    let mut raw: &[u8] = &[0x00, 0xFF, 0x0A, 0, 3];
    assert_eq!(
        Event::read_in(&mut raw, &mut None, Mode::Strict)
            .unwrap_err()
            .kind(),
        ErrorKind::Invalid(Fault::Event)
    );
    assert_eq!(raw, &[3]);
}

#[test]
fn tracks_are_written_and_read_back() {
    let mut events = Vec::new();
    for (i, (message, _)) in midi_messages().into_iter().enumerate() {
        for _ in 0..2 {
            events.push(Event {
                delta: u28::from(i as u32 * 1000),
                kind: EventKind::Midi { channel: u4::from(i as u8), message },
            });
        }
    }
    events.push(Event {
        delta: u28::from(0xFFF_FFFF),
        kind: EventKind::SysEx(&[9, 8, 7]),
    });
    events.push(Event {
        delta: u28::from(0),
        kind: EventKind::Escape(&[0xFF]),
    });
    for (message, _) in meta_messages() {
        events.push(Event {
            delta: u28::from(1),
            kind: EventKind::Meta(message),
        });
    }
    let mut out = Vec::new();
    let mut running = None;
    for event in &events {
        assert_eq!(event.write(&mut running, &mut out), Ok(()));
    }
    for mode in [Mode::Lenient, Mode::Strict] {
        let mut raw: &[u8] = &out;
        let mut running = None;
        for event in &events {
            let (_, read) = Event::read_in(&mut raw, &mut running, mode).unwrap();
            assert_eq!(&read, event);
        }
        assert!(raw.is_empty());
    }
}

#[test]
fn events_in_other_forms_are_rewritten_in_the_shortest() {
    let bytes = [0x80, 0x00, 0xFF, 0x2F, 0x80, 0x01, 0x33];
    let mut raw: &[u8] = &bytes;
    let (source, event) = Event::read(&mut raw, &mut None).unwrap();
    assert_eq!(source, &bytes[..]);
    let mut out = Vec::new();
    assert_eq!(event.write(&mut None, &mut out), Ok(()));
    assert_eq!(out, [0x00, 0xFF, 0x2F, 0x00]);
    let mut raw: &[u8] = &out;
    assert_eq!(Event::read(&mut raw, &mut None).unwrap().1, event);
}

#[test]
fn reading_looks_no_further_than_the_event() {
    let mut short: &[u8] = &[0x00, 0xF0, 1, 5];
    let mut long: &[u8] = &[0x00, 0xF0, 1, 5, 6, 7];
    let a = Event::read(&mut short, &mut None).unwrap();
    let b = Event::read(&mut long, &mut None).unwrap();
    assert_eq!(a, b);
    assert_eq!(long, &[6, 7]);
}

#[test]
fn writing_stops_where_the_data_is_too_long() {
    let data = vec![0u8; 0x1000_0000];
    let mut out = Vec::new();
    let mut running = Some(0x90);
    let event = Event {
        delta: u28::from(3),
        kind: EventKind::SysEx(&data),
    };
    assert_eq!(
        event.write(&mut running, &mut out),
        Err(WriteError::SliceTooLong)
    );
    assert_eq!(out, [3, 0xF0]);
    assert_eq!(running, None);
    let mut out = Vec::new();
    assert_eq!(
        EventKind::Meta(MetaMessage::Text(data)).write(&mut running, &mut out),
        Err(WriteError::SliceTooLong)
    );
    assert_eq!(out, [0xFF, 0x01]);
}

#[test]
fn the_running_status_is_none_or_that_of_a_midi_message() {
    let mut raw: &[u8] = &[0x91, 1, 2, 3, 4, 0xFF, 0x2F, 0, 0xF0, 0, 0x95, 1, 2, 0x9F, 1];
    let mut running = None;
    let mut seen = Vec::new();
    while EventKind::parse(&mut raw, &mut running).is_ok() {
        seen.push(running);
    }
    assert_eq!(
        seen,
        [Some(0x91), Some(0x91), Some(0x91), None, Some(0x95)]
    );
    assert_eq!(running, Some(0x95));
    assert_eq!(raw, &[0x9F, 1]);
}

#[test]
fn every_kind_of_error_has_its_message() {
    for (fault, message) in [
        (Fault::EventDelta, "failed to read event deltatime"),
        (Fault::Event, "failed to parse event"),
        (Fault::Status, "failed to read status"),
        (Fault::EventStatus, "invalid event status"),
        (Fault::MidiMessage, "failed to read midi message"),
        (Fault::SysEx, "failed to read sysex event"),
        (Fault::Escape, "failed to read escape event"),
        (Fault::Meta, "failed to read meta event"),
        (Fault::MidiStatus, "invalid midi message status"),
        (Fault::MetaType, "failed to read meta message type"),
        (Fault::MetaData, "failed to read meta message data"),
        (Fault::SmpteTime, "failed to read smpte time"),
    ] {
        assert_eq!(ErrorKind::Invalid(fault).message(), message);
    }
    for (deviation, message) in [
        (Deviation::TrackNumberLength, "invalid tracknumber event length"),
        (Deviation::MidiChannelLength, "invalid midichannel event length"),
        (Deviation::MidiPortLength, "invalid midiport event length"),
        (Deviation::EndOfTrackLength, "invalid endoftrack event length"),
        (Deviation::TempoLength, "invalid tempo event length"),
        (Deviation::SmpteOffsetLength, "invalid smpteoffset event length"),
        (Deviation::TimeSignatureLength, "invalid timesignature event length"),
        (Deviation::UnknownMetaType, "unknown meta event type"),
    ] {
        assert_eq!(ErrorKind::Pedantic(deviation).message(), message);
    }
}

#[test]
fn parse_is_read_with_failures_undone() {
    for bytes in [
        vec![0x91, 1, 2, 3],
        vec![5, 6, 7],
        vec![0xF0, 1, 9, 8],
        vec![0xFF, 0x2F, 0],
        vec![0x92, 1],
        vec![0xF7, 2, 1],
        vec![0xFF, 0x59, 0, 4],
        vec![0xF4, 1],
        vec![],
    ] {
        let mut raw: &[u8] = &bytes;
        let mut running = Some(0x83);
        let parsed = EventKind::parse(&mut raw, &mut running);
        let mut raw2: &[u8] = &bytes;
        let mut running2 = Some(0x83);
        let read = EventKind::read(&mut raw2, &mut running2);
        assert_eq!(parsed, read);
        if parsed.is_ok() {
            assert_eq!((raw, running), (raw2, running2));
        } else {
            assert_eq!((raw, running), (&bytes[..], Some(0x83)));
        }
    }
}

#[test]
fn failed_reads_stop_where_they_fail() {
    let mut raw: &[u8] = &[0x92, 1];
    let mut running = Some(0x83);
    assert!(EventKind::read(&mut raw, &mut running).is_err());
    assert_eq!((raw, running), (&[][..], Some(0x92)));
    let mut raw: &[u8] = &[0xF7, 2, 1];
    assert!(EventKind::read(&mut raw, &mut running).is_err());
    assert_eq!((raw, running), (&[1][..], None));
    let mut raw: &[u8] = &[0xFF, 0x0A, 0, 4];
    running = Some(0x83);
    assert!(EventKind::read_in(&mut raw, &mut running, Mode::Strict).is_err());
    assert_eq!((raw, running), (&[4][..], Some(0x83)));
}

#[test]
fn only_sysex_and_escape_cancel_the_running_status_unwritten() {
    let running = Some(0x83);
    assert_eq!(EventKind::SysEx(&[]).running_if_cut(running), None);
    assert_eq!(EventKind::Escape(&[]).running_if_cut(running), None);
    assert_eq!(note_on(1, 2, 3).running_if_cut(running), running);
    assert_eq!(
        EventKind::Meta(MetaMessage::EndOfTrack).running_if_cut(running),
        running
    );
}
