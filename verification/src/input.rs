//! Taking bytes and integers of fixed size off the front of a byte slice.

use crate::error::{fails, invalid, plain, Error, ErrorKind, Fault};
use crate::primitive::{group_narrow_ints, u24, u4, u7};
use vstd::prelude::*;

verus! {

/// What reading does to its input and what comes of it.
pub struct Reading<T> {
    /// What is left of the input.
    pub rest: Seq<u8>,
    /// What was read, or all that went wrong, from the cause outwards.
    pub outcome: Result<T, Seq<ErrorKind>>,
}

/// Reads an integer of `len` bytes, which make up `value`. Input that ends inside it is left alone.
pub open spec fn reading_fixed<T>(raw: Seq<u8>, len: int, value: T) -> Reading<T> {
    if raw.len() >= len {
        Reading { rest: raw.skip(len), outcome: Ok(value) }
    } else {
        Reading { rest: raw, outcome: fails(ErrorKind::Invalid(Fault::Integer)) }
    }
}

/// Two bytes, the more significant one first.
pub open spec fn big_endian_16(raw: Seq<u8>) -> u16 {
    (raw[0] * 0x100 + raw[1]) as u16
}

/// Three bytes, the more significant ones first.
pub open spec fn big_endian_24(raw: Seq<u8>) -> u32 {
    (raw[0] * 0x1_0000 + raw[1] * 0x100 + raw[2]) as u32
}

/// The first `len` bytes, taken off, or `None`, with the input left alone, where it is shorter.
pub(crate) fn split_checked<'a>(raw: &mut &'a [u8], len: usize) -> (r: Option<&'a [u8]>)
    ensures
        len <= old(raw)@.len() ==> {
            &&& r is Some
            &&& r->0@ == old(raw)@.take(len as int)
            &&& final(raw)@ == old(raw)@.skip(len as int)
        },
        len > old(raw)@.len() ==> r is None && final(raw)@ == old(raw)@,
{
    let all: &'a [u8] = *raw;
    if len <= all.len() {
        let (head, tail) = all.split_at(len);
        *raw = tail;
        Some(head)
    } else {
        None
    }
}

/// Reads one byte.
pub fn read_u8(raw: &mut &[u8]) -> (r: Result<u8, Error>)
    ensures
        plain(r) == reading_fixed(old(raw)@, 1, old(raw)@[0]).outcome,
        final(raw)@ == reading_fixed(old(raw)@, 1, old(raw)@[0]).rest,
        old(raw)@.len() >= 1 ==> {
            &&& r matches Ok(value) && value == old(raw)@[0]
            &&& final(raw)@ == old(raw)@.skip(1)
        },
        old(raw)@.len() < 1 ==> {
            &&& r matches Err(error) && error@ == seq![ErrorKind::Invalid(Fault::Integer)]
            &&& final(raw)@ == old(raw)@
        },
{
    match split_checked(raw, 1) {
        Some(bytes) => Ok(bytes[0]),
        None => Err(invalid(Fault::Integer)),
    }
}

/// Reads two bytes, the more significant one first.
pub fn read_u16(raw: &mut &[u8]) -> (r: Result<u16, Error>)
    ensures
        plain(r) == reading_fixed(old(raw)@, 2, big_endian_16(old(raw)@)).outcome,
        final(raw)@ == reading_fixed(old(raw)@, 2, big_endian_16(old(raw)@)).rest,
        old(raw)@.len() >= 2 ==> {
            &&& r matches Ok(value) && value == old(raw)@[0] * 256 + old(raw)@[1]
            &&& final(raw)@ == old(raw)@.skip(2)
        },
        old(raw)@.len() < 2 ==> {
            &&& r matches Err(error) && error@ == seq![ErrorKind::Invalid(Fault::Integer)]
            &&& final(raw)@ == old(raw)@
        },
{
    match split_checked(raw, 2) {
        Some(bytes) => Ok(bytes[0] as u16 * 0x100 + bytes[1] as u16),
        None => Err(invalid(Fault::Integer)),
    }
}

impl u4 {
    /// Reads one byte and keeps its low 4 bits.
    pub fn read(raw: &mut &[u8]) -> (r: Result<u4, Error>)
        ensures
            plain(r) == reading_fixed(old(raw)@, 1, u4::of(old(raw)@[0])).outcome,
            final(raw)@ == reading_fixed(old(raw)@, 1, u4::of(old(raw)@[0])).rest,
            old(raw)@.len() >= 1 ==> {
                &&& r matches Ok(value) && value@ == old(raw)@[0] % 16
                &&& final(raw)@ == old(raw)@.skip(1)
            },
            old(raw)@.len() < 1 ==> {
                &&& r matches Err(error) && error@ == seq![ErrorKind::Invalid(Fault::Integer)]
                &&& final(raw)@ == old(raw)@
            },
    {
        broadcast use group_narrow_ints;

        match read_u8(raw) {
            Ok(byte) => Ok(u4::from(byte)),
            Err(error) => Err(error),
        }
    }
}

impl u7 {
    /// Reads one byte and keeps its low 7 bits.
    pub fn read(raw: &mut &[u8]) -> (r: Result<u7, Error>)
        ensures
            plain(r) == reading_fixed(old(raw)@, 1, u7::of(old(raw)@[0])).outcome,
            final(raw)@ == reading_fixed(old(raw)@, 1, u7::of(old(raw)@[0])).rest,
            old(raw)@.len() >= 1 ==> {
                &&& r matches Ok(value) && value@ == old(raw)@[0] % 128
                &&& final(raw)@ == old(raw)@.skip(1)
            },
            old(raw)@.len() < 1 ==> {
                &&& r matches Err(error) && error@ == seq![ErrorKind::Invalid(Fault::Integer)]
                &&& final(raw)@ == old(raw)@
            },
    {
        broadcast use group_narrow_ints;

        match read_u8(raw) {
            Ok(byte) => Ok(u7::from(byte)),
            Err(error) => Err(error),
        }
    }
}

impl u24 {
    /// Reads three bytes, the more significant ones first.
    pub fn read(raw: &mut &[u8]) -> (r: Result<u24, Error>)
        ensures
            plain(r) == reading_fixed(old(raw)@, 3, u24::of(big_endian_24(old(raw)@))).outcome,
            final(raw)@ == reading_fixed(old(raw)@, 3, u24::of(big_endian_24(old(raw)@))).rest,
            old(raw)@.len() >= 3 ==> {
                &&& r matches Ok(value) && value@ == old(raw)@[0] * 0x1_0000 + old(raw)@[1] * 0x100
                    + old(raw)@[2]
                &&& final(raw)@ == old(raw)@.skip(3)
            },
            old(raw)@.len() < 3 ==> {
                &&& r matches Err(error) && error@ == seq![ErrorKind::Invalid(Fault::Integer)]
                &&& final(raw)@ == old(raw)@
            },
    {
        broadcast use group_narrow_ints;

        match split_checked(raw, 3) {
            Some(bytes) => {
                let value: u32 = bytes[0] as u32 * 0x1_0000 + bytes[1] as u32 * 0x100
                    + bytes[2] as u32;
                Ok(u24::from(value))
            },
            None => Err(invalid(Fault::Integer)),
        }
    }
}

} // verus!
