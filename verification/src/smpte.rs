//! SMPTE times: hours, minutes, seconds and frames.

use crate::error::{fails, invalid, plain, Error, ErrorKind, Fault};
use crate::input::{split_checked, Reading};
use vstd::prelude::*;

verus! {

/// The rate at which frames go by.
#[derive(Clone, Copy, Debug, PartialEq, Eq, Structural)]
pub enum Fps {
    /// 24 frames per second.
    Fps24,
    /// 25 frames per second.
    Fps25,
    /// 30 frames per second, with some frame numbers dropped to make up for 29.97.
    Fps29,
    /// 30 frames per second.
    Fps30,
}

impl Fps {
    /// The 2-bit code of the rate.
    pub open spec fn code(self) -> u8 {
        match self {
            Fps::Fps24 => 0,
            Fps::Fps25 => 1,
            Fps::Fps29 => 2,
            Fps::Fps30 => 3,
        }
    }

    /// The rate of a 2-bit code.
    pub open spec fn of_code(code: u8) -> Fps {
        if code == 0 {
            Fps::Fps24
        } else if code == 1 {
            Fps::Fps25
        } else if code == 2 {
            Fps::Fps29
        } else {
            Fps::Fps30
        }
    }

    /// How many numbers there are for the frames of a second.
    pub open spec fn frames(self) -> u8 {
        match self {
            Fps::Fps24 => 24,
            Fps::Fps25 => 25,
            Fps::Fps29 => 30,
            Fps::Fps30 => 30,
        }
    }

    fn as_code(self) -> (r: u8)
        ensures
            r == self.code(),
    {
        match self {
            Fps::Fps24 => 0,
            Fps::Fps25 => 1,
            Fps::Fps29 => 2,
            Fps::Fps30 => 3,
        }
    }

    fn from_code(code: u8) -> (r: Fps)
        ensures
            r == Fps::of_code(code),
    {
        match code {
            0 => Fps::Fps24,
            1 => Fps::Fps25,
            2 => Fps::Fps29,
            _ => Fps::Fps30,
        }
    }

    /// How many numbers there are for the frames of a second.
    pub fn as_int(self) -> (r: u8)
        ensures
            r == self.frames(),
            r == match self {
                Fps::Fps24 => 24int,
                Fps::Fps25 => 25,
                Fps::Fps29 => 30,
                Fps::Fps30 => 30,
            },
    {
        match self {
            Fps::Fps24 => 24,
            Fps::Fps25 => 25,
            Fps::Fps29 => 30,
            Fps::Fps30 => 30,
        }
    }
}

/// The fields of a SMPTE time, in or out of their ranges.
#[derive(Clone, Copy, Debug, PartialEq, Eq, Structural)]
pub struct SmpteFields {
    pub hour: u8,
    pub minute: u8,
    pub second: u8,
    pub frame: u8,
    /// Hundredths of a frame.
    pub subframe: u8,
    pub fps: Fps,
}

impl SmpteFields {
    /// All fields are in their ranges.
    pub open spec fn valid(self) -> bool {
        &&& self.hour < 24
        &&& self.minute < 60
        &&& self.second < 60
        &&& self.frame < self.fps.frames()
        &&& self.subframe < 100
    }

    /// The fields that 5 bytes hold. The first byte has the rate in its bits 5 and 6 and the hour
    /// in those below; the others hold one field each.
    pub open spec fn decode(data: Seq<u8>) -> SmpteFields {
        SmpteFields {
            hour: (data[0] % 32) as u8,
            minute: data[1],
            second: data[2],
            frame: data[3],
            subframe: data[4],
            fps: Fps::of_code((data[0] / 32 % 4) as u8),
        }
    }

    /// The 5 bytes of a SMPTE time.
    pub open spec fn bytes(self) -> Seq<u8> {
        seq![
            (self.fps.code() * 32 + self.hour) as u8,
            self.minute,
            self.second,
            self.frame,
            self.subframe,
        ]
    }
}

/// A SMPTE time whose fields are all in their ranges.
#[derive(Clone, Copy, Debug, PartialEq, Eq, Structural)]
pub struct SmpteTime {
    fields: SmpteFields,
}

impl View for SmpteTime {
    type V = SmpteFields;

    closed spec fn view(&self) -> SmpteFields {
        self.fields
    }
}

/// Reads a SMPTE time of 5 bytes.
pub open spec fn reading_smpte(raw: Seq<u8>) -> Reading<SmpteTime> {
    if raw.len() < 5 {
        Reading { rest: raw, outcome: fails(ErrorKind::Invalid(Fault::Integer)) }
    } else {
        Reading {
            rest: raw.skip(5),
            outcome: if SmpteFields::decode(raw).valid() {
                Ok(SmpteTime::of(SmpteFields::decode(raw)))
            } else {
                fails(ErrorKind::Invalid(Fault::SmpteField))
            },
        }
    }
}

impl SmpteTime {
    #[verifier::type_invariant]
    spec fn in_range(self) -> bool {
        self.fields.valid()
    }

    /// The time with the given fields.
    pub closed spec fn of(fields: SmpteFields) -> SmpteTime {
        SmpteTime { fields }
    }

    /// The time with the given fields, if they are all in their ranges.
    pub fn new(fields: SmpteFields) -> (r: Option<SmpteTime>)
        ensures
            r == (if fields.valid() {
                Some(SmpteTime::of(fields))
            } else {
                None
            }),
            r is Some <==> {
                &&& fields.hour < 24
                &&& fields.minute < 60
                &&& fields.second < 60
                &&& fields.frame < match fields.fps {
                    Fps::Fps24 => 24int,
                    Fps::Fps25 => 25,
                    Fps::Fps29 => 30,
                    Fps::Fps30 => 30,
                }
                &&& fields.subframe < 100
            },
            r matches Some(time) ==> time@ == fields,
    {
        if fields.hour < 24 && fields.minute < 60 && fields.second < 60 && fields.frame
            < fields.fps.as_int() && fields.subframe < 100 {
            Some(SmpteTime { fields })
        } else {
            None
        }
    }

    /// The fields, which are all in their ranges.
    pub fn fields(self) -> (r: SmpteFields)
        ensures
            r == self@,
            r.valid(),
    {
        proof {
            use_type_invariant(self);
        }
        self.fields
    }

    /// Reads a time of 5 bytes.
    pub fn read(raw: &mut &[u8]) -> (r: Result<SmpteTime, Error>)
        ensures
            plain(r) == reading_smpte(old(raw)@).outcome,
            final(raw)@ == reading_smpte(old(raw)@).rest,
    {
        match split_checked(raw, 5) {
            None => Err(invalid(Fault::Integer)),
            Some(data) => {
                let fields = SmpteFields {
                    hour: data[0] % 32,
                    minute: data[1],
                    second: data[2],
                    frame: data[3],
                    subframe: data[4],
                    fps: Fps::from_code(data[0] / 32 % 4),
                };
                match SmpteTime::new(fields) {
                    Some(time) => Ok(time),
                    None => Err(invalid(Fault::SmpteField)),
                }
            },
        }
    }

    /// The 5 bytes of the time.
    pub fn encode(self) -> (r: [u8; 5])
        ensures
            r@ == self@.bytes(),
            self@.valid(),
            r@[0] == self@.hour + match self@.fps {
                Fps::Fps24 => 0int,
                Fps::Fps25 => 32,
                Fps::Fps29 => 64,
                Fps::Fps30 => 96,
            },
            r@[1] == self@.minute,
            r@[2] == self@.second,
            r@[3] == self@.frame,
            r@[4] == self@.subframe,
    {
        let fields = self.fields();
        let bytes = [
            fields.fps.as_code() * 32 + fields.hour,
            fields.minute,
            fields.second,
            fields.frame,
            fields.subframe,
        ];
        assert(bytes@ == self@.bytes());
        bytes
    }
}

pub broadcast proof fn lemma_smpte_of(fields: SmpteFields)
    ensures
        (#[trigger] SmpteTime::of(fields))@ == fields,
{
}

pub broadcast proof fn lemma_smpte_of_view(time: SmpteTime)
    ensures
        SmpteTime::of(#[trigger] time@) == time,
{
}

/// How SMPTE times relate to their fields.
pub broadcast group group_smpte {
    lemma_smpte_of,
    lemma_smpte_of_view,
}

/// The bytes of a SMPTE time are read back as that time, and what follows them is left alone.
pub proof fn law_smpte_round_trip(time: SmpteTime, tail: Seq<u8>)
    requires
        time@.valid(),
    ensures
        time@.bytes().len() == 5,
        reading_smpte(time@.bytes() + tail) == (Reading { rest: tail, outcome: Ok(time) }),
{
    let raw = time@.bytes() + tail;
    assert(raw.skip(5) == tail);
    assert(SmpteFields::decode(raw) == time@);
}

} // verus!
