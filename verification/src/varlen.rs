//! Integers of variable length, and byte strings with their length ahead of them.
//!
//! An integer of variable length is written in base 128, the more significant digits first. The top
//! bit of a byte says that another one follows. There are at most four bytes, hence 28 bits.

use crate::error::{context, fails, invalid, outcome, plain, within, Error, ErrorKind, Fault, WriteError};
use crate::input::{read_u8, split_checked, Reading};
use crate::primitive::{group_narrow_ints, u28};
use vstd::prelude::*;

verus! {

/// The least number that does not fit in 28 bits.
pub const VARLEN_LIMIT: u32 = 0x1000_0000;

/// The number that base-128 digits make up, the more significant ones first. The top bit of a byte
/// is no part of its digit.
pub open spec fn digits_value(digits: Seq<u8>) -> nat
    decreases digits.len(),
{
    if digits.len() == 0 {
        0
    } else {
        digits_value(digits.drop_last()) * 128 + (digits.last() % 128) as nat
    }
}

/// How many bytes the integer at the front of `raw` takes: those in front that have their top bit
/// set, and one more.
pub open spec fn varlen_width(raw: Seq<u8>) -> nat
    decreases raw.len(),
{
    if raw.len() == 0 || raw[0] < 0x80 {
        1
    } else {
        1 + varlen_width(raw.drop_first())
    }
}

/// Reads an integer of variable length.
///
/// Where the input ends inside it all of the input is gone, and where it takes more than four bytes
/// the first four are.
pub open spec fn reading_varlen(raw: Seq<u8>) -> Reading<u28> {
    let width = varlen_width(raw) as int;
    if width <= 4 && width <= raw.len() {
        Reading {
            rest: raw.skip(width),
            outcome: Ok(u28::of(digits_value(raw.take(width)) as u32)),
        }
    } else if raw.len() < 4 {
        Reading { rest: seq![], outcome: fails(ErrorKind::Invalid(Fault::Integer)) }
    } else {
        Reading { rest: raw.skip(4), outcome: fails(ErrorKind::Invalid(Fault::VarlenLength)) }
    }
}

/// The base-128 digits of `n` that other digits follow: with their top bits set, and with no zero
/// ahead of them.
pub open spec fn leading_digits(n: nat) -> Seq<u8>
    decreases n,
{
    if n == 0 {
        seq![]
    } else {
        leading_digits(n / 128).push((0x80 + n % 128) as u8)
    }
}

/// The shortest form of `n` as an integer of variable length.
pub open spec fn varlen_bytes(n: nat) -> Seq<u8> {
    leading_digits(n / 128).push((n % 128) as u8)
}

impl u28 {
    /// Reads an integer of variable length.
    pub fn read_u7(raw: &mut &[u8]) -> (r: Result<u28, Error>)
        ensures
            plain(r) == reading_varlen(old(raw)@).outcome,
            final(raw)@ == reading_varlen(old(raw)@).rest,
    {
        let ghost all = raw@;
        let mut value: u32 = 0;
        let mut count: u32 = 0;
        assert(all.skip(0) == all);
        while count < 4
            invariant
                all == old(raw)@,
                count <= 4,
                count <= all.len(),
                raw@ == all.skip(count as int),
                value == digits_value(all.take(count as int)),
                count == 0 ==> value == 0,
                count == 1 ==> value < 0x80,
                count == 2 ==> value < 0x4000,
                count == 3 ==> value < 0x20_0000,
                varlen_width(all) == count + varlen_width(raw@),
            decreases 4 - count,
        {
            let byte = match read_u8(raw) {
                Ok(byte) => byte,
                Err(error) => {
                    return Err(error);
                },
            };
            value = value * 128 + (byte % 128) as u32;
            proof {
                let next = all.take(count + 1);
                assert(next.drop_last() == all.take(count as int));
                assert(all.skip(count as int).drop_first() == all.skip(count + 1));
            }
            count = count + 1;
            if byte < 0x80 {
                return Ok(u28::from(value));
            }
        }
        Err(invalid(Fault::VarlenLength))
    }

    /// Writes the integer in its shortest form of variable length.
    pub fn write_varlen(self, out: &mut Vec<u8>)
        ensures
            final(out)@ == old(out)@ + varlen_bytes(self@ as nat),
            self@ < VARLEN_LIMIT,
    {
        let value = self.as_int();
        if value >= 0x20_0000 {
            out.push(0x80 + (value / 0x20_0000) as u8);
        }
        if value >= 0x4000 {
            out.push(0x80 + (value / 0x4000 % 128) as u8);
        }
        if value >= 0x80 {
            out.push(0x80 + (value / 0x80 % 128) as u8);
        }
        out.push((value % 128) as u8);
        proof {
            reveal_with_fuel(leading_digits, 5);
        }
    }
}

/// Reads a byte string that has its length ahead of it.
///
/// Where the input ends inside the string, only the length is gone.
pub open spec fn reading_slice(raw: Seq<u8>) -> Reading<Seq<u8>> {
    let length = reading_varlen(raw);
    match length.outcome {
        Err(chain) => Reading {
            rest: length.rest,
            outcome: within(Err(chain), Fault::SliceLength),
        },
        Ok(len) => if len@ <= length.rest.len() {
            Reading {
                rest: length.rest.skip(len@ as int),
                outcome: Ok(length.rest.take(len@ as int)),
            }
        } else {
            Reading {
                rest: length.rest,
                outcome: fails(ErrorKind::Invalid(Fault::SliceData)),
            }
        },
    }
}

/// A byte string with its length ahead of it.
pub open spec fn slice_bytes(data: Seq<u8>) -> Seq<u8> {
    varlen_bytes(data.len()) + data
}

/// Reads a byte string that has its length ahead of it.
pub fn read_varlen_slice<'a>(raw: &mut &'a [u8]) -> (r: Result<&'a [u8], Error>)
    ensures
        outcome(r) == reading_slice(old(raw)@).outcome,
        final(raw)@ == reading_slice(old(raw)@).rest,
{
    match context(u28::read_u7(raw), Fault::SliceLength) {
        Err(error) => Err(error),
        Ok(len) => match split_checked(raw, len.as_int() as usize) {
            Some(data) => Ok(data),
            None => Err(invalid(Fault::SliceData)),
        },
    }
}

/// Writes a byte string with its length ahead of it, where the length fits in 28 bits, and nothing
/// where it does not.
pub fn write_varlen_slice(data: &[u8], out: &mut Vec<u8>) -> (r: Result<(), WriteError>)
    ensures
        r is Ok <==> data@.len() < VARLEN_LIMIT,
        r is Err ==> r == Err::<(), WriteError>(WriteError::SliceTooLong),
        final(out)@ == (if data@.len() < VARLEN_LIMIT {
            old(out)@ + slice_bytes(data@)
        } else {
            old(out)@
        }),
        r is Ok <==> data@.len() < 0x1000_0000,
        r is Ok ==> final(out)@ == old(out)@ + varlen_bytes(data@.len()) + data@,
{
    broadcast use group_narrow_ints;

    if data.len() >= VARLEN_LIMIT as usize {
        return Err(WriteError::SliceTooLong);
    }
    u28::from(data.len() as u32).write_varlen(out);
    out.extend_from_slice(data);
    assert(out@ == old(out)@ + slice_bytes(data@));
    Ok(())
}

pub(crate) proof fn lemma_width(raw: Seq<u8>, count: int)
    requires
        0 <= count < raw.len(),
        forall|i: int| 0 <= i < count ==> raw[i] >= 0x80,
        raw[count] < 0x80,
    ensures
        varlen_width(raw) == count + 1,
    decreases count,
{
    if count > 0 {
        lemma_width(raw.drop_first(), count - 1);
    }
}

proof fn lemma_width_bytes(raw: Seq<u8>)
    requires
        varlen_width(raw) <= raw.len(),
    ensures
        forall|i: int| 0 <= i < varlen_width(raw) - 1 ==> raw[i] >= 0x80,
        raw[varlen_width(raw) - 1] < 0x80,
    decreases raw.len(),
{
    if raw[0] >= 0x80 {
        let tail = raw.drop_first();
        lemma_width_bytes(tail);
        assert forall|i: int| 0 <= i < varlen_width(raw) - 1 implies raw[i] >= 0x80 by {
            if i > 0 {
                assert(raw[i] == tail[i - 1]);
            }
        }
        assert(raw[varlen_width(raw) - 1] == tail[varlen_width(tail) - 1]);
    }
}

proof fn lemma_leading_digits(n: nat)
    ensures
        digits_value(leading_digits(n)) == n,
        forall|i: int| 0 <= i < leading_digits(n).len() ==> leading_digits(n)[i] >= 0x80,
    decreases n,
{
    if n > 0 {
        lemma_leading_digits(n / 128);
        assert(leading_digits(n).drop_last() == leading_digits(n / 128));
    }
}

proof fn lemma_leading_digits_len(n: nat)
    ensures
        n < 0x80 ==> leading_digits(n).len() <= 1,
        n < 0x4000 ==> leading_digits(n).len() <= 2,
        n < 0x20_0000 ==> leading_digits(n).len() <= 3,
        n == 0 ==> leading_digits(n).len() == 0,
{
    reveal_with_fuel(leading_digits, 5);
}

proof fn lemma_digits_bound(digits: Seq<u8>)
    ensures
        digits.len() == 1 ==> digits_value(digits) < 0x80,
        digits.len() == 2 ==> digits_value(digits) < 0x4000,
        digits.len() == 3 ==> digits_value(digits) < 0x20_0000,
        digits.len() == 4 ==> digits_value(digits) < VARLEN_LIMIT,
{
    reveal_with_fuel(digits_value, 5);
}

/// An integer that was written is read back, and what follows it is left alone.
pub proof fn law_varlen_round_trip(n: u28, tail: Seq<u8>)
    requires
        n@ < VARLEN_LIMIT,
    ensures
        reading_varlen(varlen_bytes(n@ as nat) + tail) == (Reading { rest: tail, outcome: Ok(n) }),
        1 <= varlen_bytes(n@ as nat).len() <= 4,
{
    broadcast use group_narrow_ints;

    let bytes = varlen_bytes(n@ as nat);
    let raw = bytes + tail;
    let lead = leading_digits(n@ as nat / 128);
    lemma_leading_digits(n@ as nat / 128);
    lemma_leading_digits_len(n@ as nat / 128);
    assert forall|i: int| 0 <= i < lead.len() implies raw[i] >= 0x80 by {
        assert(raw[i] == lead[i]);
    }
    lemma_width(raw, lead.len() as int);
    assert(raw.take(bytes.len() as int) == bytes);
    assert(bytes.drop_last() == lead);
    assert(raw.skip(bytes.len() as int) == tail);
}

/// No form of an integer that can be read is shorter than the one that is written.
pub proof fn law_varlen_shortest(raw: Seq<u8>)
    requires
        reading_varlen(raw).outcome is Ok,
    ensures
        varlen_bytes(reading_varlen(raw).outcome->Ok_0@ as nat).len() <= raw.len()
            - reading_varlen(raw).rest.len(),
{
    broadcast use group_narrow_ints;

    let width = varlen_width(raw) as int;
    let n = digits_value(raw.take(width));
    lemma_digits_bound(raw.take(width));
    lemma_leading_digits_len(n / 128);
}

/// Reading an integer depends on the bytes that it takes alone.
pub proof fn law_varlen_local(raw: Seq<u8>, tail: Seq<u8>)
    requires
        reading_varlen(raw).outcome is Ok,
    ensures
        reading_varlen(raw).rest.len() < raw.len(),
        reading_varlen(raw).rest == raw.skip(raw.len() - reading_varlen(raw).rest.len()),
        reading_varlen(raw.take(raw.len() - reading_varlen(raw).rest.len()) + tail) == (Reading {
            rest: tail,
            outcome: reading_varlen(raw).outcome,
        }),
{
    let width = varlen_width(raw) as int;
    let other = raw.take(width) + tail;
    lemma_width_bytes(raw);
    lemma_width(other, width - 1);
    assert(other.take(width) == raw.take(width));
    assert(other.skip(width) == tail);
}

/// A byte string that was written is read back, and what follows it is left alone.
pub proof fn law_slice_round_trip(data: Seq<u8>, tail: Seq<u8>)
    requires
        data.len() < VARLEN_LIMIT,
    ensures
        reading_slice(slice_bytes(data) + tail) == (Reading { rest: tail, outcome: Ok(data) }),
{
    broadcast use group_narrow_ints;

    let len = u28::of(data.len() as u32);
    law_varlen_round_trip(len, data + tail);
    assert(slice_bytes(data) + tail == varlen_bytes(data.len()) + (data + tail));
    assert((data + tail).take(data.len() as int) == data);
    assert((data + tail).skip(data.len() as int) == tail);
}

/// Reading a byte string depends on the bytes that it and its length take alone.
pub proof fn law_slice_local(raw: Seq<u8>, tail: Seq<u8>)
    requires
        reading_slice(raw).outcome is Ok,
    ensures
        reading_slice(raw).rest.len() < raw.len(),
        reading_slice(raw).rest == raw.skip(raw.len() - reading_slice(raw).rest.len()),
        reading_slice(raw).outcome->Ok_0.len() < VARLEN_LIMIT,
        reading_slice(raw.take(raw.len() - reading_slice(raw).rest.len()) + tail) == (Reading {
            rest: tail,
            outcome: reading_slice(raw).outcome,
        }),
{
    broadcast use group_narrow_ints;

    let length = reading_varlen(raw);
    let len = length.outcome->Ok_0@ as int;
    let width = raw.len() - length.rest.len();
    let used = raw.len() - reading_slice(raw).rest.len();
    law_varlen_local(raw, length.rest.take(len) + tail);
    assert(raw.take(used) + tail == raw.take(width) + (length.rest.take(len) + tail));
    assert((length.rest.take(len) + tail).take(len) == length.rest.take(len));
    assert((length.rest.take(len) + tail).skip(len) == tail);
    assert(length.rest.skip(len) == raw.skip(used));
}

} // verus!
