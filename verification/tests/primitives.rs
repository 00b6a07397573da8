use midi_event::input::{read_u16, read_u8};
use midi_event::varlen::{read_varlen_slice, write_varlen_slice};
use midi_event::{
    u14, u24, u28, u4, u7, ErrorKind, Fault, Fps, SmpteFields, SmpteTime, WriteError,
};

fn varlen(value: u32) -> Vec<u8> {
    let mut out = Vec::new();
    u28::from(value).write_varlen(&mut out);
    out
}

#[test]
fn narrow_integers_keep_their_low_bits() {
    assert_eq!(u4::from(0xAB).as_int(), 0x0B);
    assert_eq!(u7::from(0xFF).as_int(), 0x7F);
    assert_eq!(u14::from(0xFFFE).as_int(), 0x3FFE);
    assert_eq!(u24::from(0xFF12_3456).as_int(), 0x12_3456);
    assert_eq!(u28::from(0xF123_4567).as_int(), 0x123_4567);
}

#[test]
fn fixed_integers_are_big_endian() {
    let mut raw: &[u8] = &[0x12, 0x34, 0x56, 0x01, 0x02, 0x03, 0xFA, 0xFB];
    assert_eq!(read_u8(&mut raw), Ok(0x12));
    assert_eq!(read_u16(&mut raw), Ok(0x3456));
    assert_eq!(u24::read(&mut raw), Ok(u24::from(0x01_0203)));
    assert_eq!(u4::read(&mut raw), Ok(u4::from(0x0A)));
    assert_eq!(u7::read(&mut raw), Ok(u7::from(0x7B)));
    assert_eq!(
        read_u8(&mut raw).unwrap_err().kind(),
        ErrorKind::Invalid(Fault::Integer)
    );
}

#[test]
fn short_fixed_integers_leave_the_input_alone() {
    let mut raw: &[u8] = &[0x12];
    assert_eq!(
        read_u16(&mut raw).unwrap_err().cause(),
        ErrorKind::Invalid(Fault::Integer)
    );
    assert!(u24::read(&mut raw).is_err());
    assert_eq!(raw, &[0x12]);
}

#[test]
fn varlen_integers_are_written_in_their_shortest_form() {
    assert_eq!(varlen(0), [0x00]);
    assert_eq!(varlen(0x40), [0x40]);
    assert_eq!(varlen(0x7F), [0x7F]);
    assert_eq!(varlen(0x80), [0x81, 0x00]);
    assert_eq!(varlen(0x2000), [0xC0, 0x00]);
    assert_eq!(varlen(0x3FFF), [0xFF, 0x7F]);
    assert_eq!(varlen(0x4000), [0x81, 0x80, 0x00]);
    assert_eq!(varlen(0x1F_FFFF), [0xFF, 0xFF, 0x7F]);
    assert_eq!(varlen(0x20_0000), [0x81, 0x80, 0x80, 0x00]);
    assert_eq!(varlen(0xFFF_FFFF), [0xFF, 0xFF, 0xFF, 0x7F]);
}

#[test]
fn varlen_integers_are_read_back() {
    for value in [0, 1, 0x7F, 0x80, 0x3FFF, 0x4000, 0x1F_FFFF, 0x20_0000, 0xFFF_FFFF] {
        let mut bytes = varlen(value);
        bytes.push(0xAA);
        let mut raw: &[u8] = &bytes;
        assert_eq!(u28::read_u7(&mut raw), Ok(u28::from(value)));
        assert_eq!(raw, &[0xAA]);
    }
}

#[test]
fn varlen_integers_need_not_be_in_their_shortest_form() {
    let mut raw: &[u8] = &[0x80, 0x80, 0x05, 0x09];
    assert_eq!(u28::read_u7(&mut raw), Ok(u28::from(5)));
    assert_eq!(raw, &[0x09]);
}

#[test]
fn varlen_integers_must_end() {
    let mut raw: &[u8] = &[0x81, 0x80];
    assert_eq!(
        u28::read_u7(&mut raw).unwrap_err().chain(),
        [ErrorKind::Invalid(Fault::Integer)]
    );
    assert!(raw.is_empty());
    let mut raw: &[u8] = &[0x81, 0x80, 0x80, 0x80, 0x00];
    assert_eq!(
        u28::read_u7(&mut raw).unwrap_err().chain(),
        [ErrorKind::Invalid(Fault::VarlenLength)]
    );
    assert_eq!(raw, &[0x00]);
}

#[test]
fn slices_are_read_back() {
    let data: Vec<u8> = (0..300u32).map(|i| i as u8).collect();
    let mut out = vec![7];
    assert_eq!(write_varlen_slice(&data, &mut out), Ok(()));
    assert_eq!(&out[..4], &[7, 0x82, 0x2C, 0]);
    out.push(9);
    let mut raw: &[u8] = &out[1..];
    assert_eq!(read_varlen_slice(&mut raw), Ok(&data[..]));
    assert_eq!(raw, &[9]);
}

#[test]
fn slices_must_be_complete() {
    let mut raw: &[u8] = &[0x03, 1, 2];
    assert_eq!(
        read_varlen_slice(&mut raw).unwrap_err().chain(),
        [ErrorKind::Invalid(Fault::SliceData)]
    );
    assert_eq!(raw, &[1, 2]);
    let mut raw: &[u8] = &[0x83];
    assert_eq!(
        read_varlen_slice(&mut raw).unwrap_err().chain(),
        [
            ErrorKind::Invalid(Fault::Integer),
            ErrorKind::Invalid(Fault::SliceLength)
        ]
    );
}

#[test]
fn slices_of_more_than_28_bits_are_refused() {
    let data = vec![0u8; 0x1000_0000];
    let mut out = vec![1];
    assert_eq!(
        write_varlen_slice(&data, &mut out),
        Err(WriteError::SliceTooLong)
    );
    assert_eq!(out, [1]);
}

fn fields() -> SmpteFields {
    SmpteFields {
        hour: 23,
        minute: 59,
        second: 58,
        frame: 24,
        subframe: 99,
        fps: Fps::Fps25,
    }
}

#[test]
fn smpte_times_are_read_back() {
    let time = SmpteTime::new(fields()).unwrap();
    assert_eq!(time.fields(), fields());
    let mut bytes = time.encode().to_vec();
    assert_eq!(bytes, [0x37, 59, 58, 24, 99]);
    bytes.push(1);
    let mut raw: &[u8] = &bytes;
    assert_eq!(SmpteTime::read(&mut raw), Ok(time));
    assert_eq!(raw, &[1]);
}

#[test]
fn smpte_fields_must_be_in_range() {
    assert!(SmpteTime::new(SmpteFields { hour: 24, ..fields() }).is_none());
    assert!(SmpteTime::new(SmpteFields { minute: 60, ..fields() }).is_none());
    assert!(SmpteTime::new(SmpteFields { second: 60, ..fields() }).is_none());
    assert!(SmpteTime::new(SmpteFields { frame: 25, ..fields() }).is_none());
    assert!(SmpteTime::new(SmpteFields { fps: Fps::Fps24, ..fields() }).is_none());
    assert!(SmpteTime::new(SmpteFields { subframe: 100, ..fields() }).is_none());
    let mut raw: &[u8] = &[0x60, 60, 0, 0, 0];
    assert_eq!(
        SmpteTime::read(&mut raw).unwrap_err().kind(),
        ErrorKind::Invalid(Fault::SmpteField)
    );
    let mut raw: &[u8] = &[0x60, 0];
    assert_eq!(
        SmpteTime::read(&mut raw).unwrap_err().kind(),
        ErrorKind::Invalid(Fault::Integer)
    );
}

#[test]
fn frame_rates_have_their_numbers_of_frames() {
    assert_eq!(Fps::Fps24.as_int(), 24);
    assert_eq!(Fps::Fps25.as_int(), 25);
    assert_eq!(Fps::Fps29.as_int(), 30);
    assert_eq!(Fps::Fps30.as_int(), 30);
    for (code, fps) in [
        (0u8, Fps::Fps24),
        (1, Fps::Fps25),
        (2, Fps::Fps29),
        (3, Fps::Fps30),
    ] {
        let bytes = [code << 5 | 1, 2, 3, 4, 5];
        let mut raw: &[u8] = &bytes;
        let time = SmpteTime::read(&mut raw).unwrap();
        assert_eq!(time.fields().fps, fps);
        assert_eq!(time.fields().hour, 1);
        assert_eq!(time.encode(), bytes);
    }
}
