//! Integers narrower than the machine types that hold them.
//!
//! MIDI packs its numbers into 4, 7, 14, 24 or 28 bits. Each type here holds one such number, and
//! its invariant is that the number fits.

use vstd::prelude::*;

verus! {

/// A 4-bit integer, such as the number of a MIDI channel.
#[allow(non_camel_case_types)]
#[derive(Clone, Copy, Debug, PartialEq, Eq, PartialOrd, Ord, Hash, Structural)]
pub struct u4(u8);

impl View for u4 {
    type V = u8;

    closed spec fn view(&self) -> u8 {
        self.0
    }
}

impl u4 {
    #[verifier::type_invariant]
    spec fn fits(self) -> bool {
        self.0 < 16
    }

    /// The number that the low 4 bits of `raw` make up.
    pub closed spec fn of(raw: u8) -> u4 {
        u4((raw % 16) as u8)
    }

    /// The number itself.
    pub fn as_int(self) -> (r: u8)
        ensures
            r == self@,
            r < 16,
    {
        proof {
            use_type_invariant(self);
        }
        self.0
    }
}

/// Keeps the low 4 bits and drops the others.
impl From<u8> for u4 {
    fn from(raw: u8) -> (r: u4)
        ensures
            r@ == raw % 16,
    {
        assert(raw & 0x0F == raw % 16) by (bit_vector);
        u4(raw & 0x0F)
    }
}

impl vstd::std_specs::convert::FromSpecImpl<u8> for u4 {
    open spec fn obeys_from_spec() -> bool {
        true
    }

    open spec fn from_spec(raw: u8) -> u4 {
        u4::of(raw)
    }
}

pub broadcast proof fn lemma_u4_of(raw: u8)
    ensures
        (#[trigger] u4::of(raw))@ == raw % 16,
{
}

pub broadcast proof fn lemma_u4_of_view(x: u4)
    requires
        x@ < 16,
    ensures
        u4::of(#[trigger] x@) == x,
{
}

/// A 7-bit integer: what a MIDI data byte carries, such as a key or a velocity.
#[allow(non_camel_case_types)]
#[derive(Clone, Copy, Debug, PartialEq, Eq, PartialOrd, Ord, Hash, Structural)]
pub struct u7(u8);

impl View for u7 {
    type V = u8;

    closed spec fn view(&self) -> u8 {
        self.0
    }
}

impl u7 {
    #[verifier::type_invariant]
    spec fn fits(self) -> bool {
        self.0 < 128
    }

    /// The number that the low 7 bits of `raw` make up.
    pub closed spec fn of(raw: u8) -> u7 {
        u7((raw % 128) as u8)
    }

    /// The number itself.
    pub fn as_int(self) -> (r: u8)
        ensures
            r == self@,
            r < 128,
    {
        proof {
            use_type_invariant(self);
        }
        self.0
    }
}

/// Keeps the low 7 bits and drops the others.
impl From<u8> for u7 {
    fn from(raw: u8) -> (r: u7)
        ensures
            r@ == raw % 128,
    {
        assert(raw & 0x7F == raw % 128) by (bit_vector);
        u7(raw & 0x7F)
    }
}

impl vstd::std_specs::convert::FromSpecImpl<u8> for u7 {
    open spec fn obeys_from_spec() -> bool {
        true
    }

    open spec fn from_spec(raw: u8) -> u7 {
        u7::of(raw)
    }
}

pub broadcast proof fn lemma_u7_of(raw: u8)
    ensures
        (#[trigger] u7::of(raw))@ == raw % 128,
{
}

pub broadcast proof fn lemma_u7_of_view(x: u7)
    requires
        x@ < 128,
    ensures
        u7::of(#[trigger] x@) == x,
{
}

/// A 14-bit integer: two MIDI data bytes together, such as a pitch bend.
#[allow(non_camel_case_types)]
#[derive(Clone, Copy, Debug, PartialEq, Eq, PartialOrd, Ord, Hash, Structural)]
pub struct u14(u16);

impl View for u14 {
    type V = u16;

    closed spec fn view(&self) -> u16 {
        self.0
    }
}

impl u14 {
    #[verifier::type_invariant]
    spec fn fits(self) -> bool {
        self.0 < 0x4000
    }

    /// The number that the low 14 bits of `raw` make up.
    pub closed spec fn of(raw: u16) -> u14 {
        u14((raw % 0x4000) as u16)
    }

    /// The number itself.
    pub fn as_int(self) -> (r: u16)
        ensures
            r == self@,
            r < 0x4000,
    {
        proof {
            use_type_invariant(self);
        }
        self.0
    }
}

/// Keeps the low 14 bits and drops the others.
impl From<u16> for u14 {
    fn from(raw: u16) -> (r: u14)
        ensures
            r@ == raw % 0x4000,
    {
        assert(raw & 0x3FFF == raw % 0x4000) by (bit_vector);
        u14(raw & 0x3FFF)
    }
}

impl vstd::std_specs::convert::FromSpecImpl<u16> for u14 {
    open spec fn obeys_from_spec() -> bool {
        true
    }

    open spec fn from_spec(raw: u16) -> u14 {
        u14::of(raw)
    }
}

pub broadcast proof fn lemma_u14_of(raw: u16)
    ensures
        (#[trigger] u14::of(raw))@ == raw % 0x4000,
{
}

pub broadcast proof fn lemma_u14_of_view(x: u14)
    requires
        x@ < 0x4000,
    ensures
        u14::of(#[trigger] x@) == x,
{
}

/// A 24-bit integer, such as a tempo in microseconds per beat.
#[allow(non_camel_case_types)]
#[derive(Clone, Copy, Debug, PartialEq, Eq, PartialOrd, Ord, Hash, Structural)]
pub struct u24(u32);

impl View for u24 {
    type V = u32;

    closed spec fn view(&self) -> u32 {
        self.0
    }
}

impl u24 {
    #[verifier::type_invariant]
    spec fn fits(self) -> bool {
        self.0 < 0x100_0000
    }

    /// The number that the low 24 bits of `raw` make up.
    pub closed spec fn of(raw: u32) -> u24 {
        u24((raw % 0x100_0000) as u32)
    }

    /// The number itself.
    pub fn as_int(self) -> (r: u32)
        ensures
            r == self@,
            r < 0x100_0000,
    {
        proof {
            use_type_invariant(self);
        }
        self.0
    }
}

/// Keeps the low 24 bits and drops the others.
impl From<u32> for u24 {
    fn from(raw: u32) -> (r: u24)
        ensures
            r@ == raw % 0x100_0000,
    {
        assert(raw & 0xFF_FFFF == raw % 0x100_0000) by (bit_vector);
        u24(raw & 0xFF_FFFF)
    }
}

impl vstd::std_specs::convert::FromSpecImpl<u32> for u24 {
    open spec fn obeys_from_spec() -> bool {
        true
    }

    open spec fn from_spec(raw: u32) -> u24 {
        u24::of(raw)
    }
}

pub broadcast proof fn lemma_u24_of(raw: u32)
    ensures
        (#[trigger] u24::of(raw))@ == raw % 0x100_0000,
{
}

pub broadcast proof fn lemma_u24_of_view(x: u24)
    requires
        x@ < 0x100_0000,
    ensures
        u24::of(#[trigger] x@) == x,
{
}

/// A 28-bit integer: the numbers of variable length, such as the time between two events.
#[allow(non_camel_case_types)]
#[derive(Clone, Copy, Debug, PartialEq, Eq, PartialOrd, Ord, Hash, Structural)]
pub struct u28(u32);

impl View for u28 {
    type V = u32;

    closed spec fn view(&self) -> u32 {
        self.0
    }
}

impl u28 {
    #[verifier::type_invariant]
    spec fn fits(self) -> bool {
        self.0 < 0x1000_0000
    }

    /// The number that the low 28 bits of `raw` make up.
    pub closed spec fn of(raw: u32) -> u28 {
        u28((raw % 0x1000_0000) as u32)
    }

    /// The number itself.
    pub fn as_int(self) -> (r: u32)
        ensures
            r == self@,
            r < 0x1000_0000,
    {
        proof {
            use_type_invariant(self);
        }
        self.0
    }
}

/// Keeps the low 28 bits and drops the others.
impl From<u32> for u28 {
    fn from(raw: u32) -> (r: u28)
        ensures
            r@ == raw % 0x1000_0000,
    {
        assert(raw & 0xFFF_FFFF == raw % 0x1000_0000) by (bit_vector);
        u28(raw & 0xFFF_FFFF)
    }
}

impl vstd::std_specs::convert::FromSpecImpl<u32> for u28 {
    open spec fn obeys_from_spec() -> bool {
        true
    }

    open spec fn from_spec(raw: u32) -> u28 {
        u28::of(raw)
    }
}

pub broadcast proof fn lemma_u28_of(raw: u32)
    ensures
        (#[trigger] u28::of(raw))@ == raw % 0x1000_0000,
{
}

pub broadcast proof fn lemma_u28_of_view(x: u28)
    requires
        x@ < 0x1000_0000,
    ensures
        u28::of(#[trigger] x@) == x,
{
}

/// How the narrow integers relate to the machine integers that they are made of.
pub broadcast group group_narrow_ints {
    lemma_u4_of,
    lemma_u4_of_view,
    lemma_u7_of,
    lemma_u7_of_view,
    lemma_u14_of,
    lemma_u14_of_view,
    lemma_u24_of,
    lemma_u24_of_view,
    lemma_u28_of,
    lemma_u28_of_view,
}

} // verus!
