//! Typed register access for the charging station: how each register
//! value is laid out in 16-bit words, and the register descriptors.
//!
//! Reading and writing the registers over the wire is the surrounding
//! runtime's work; the encoding between values and register words is
//! decided, and verified, here.
use vstd::prelude::*;

verus! {

use core::marker::PhantomData;

/// A big-endian pair of 16-bit words as one 32-bit value.
pub open spec fn word_join(hi: u16, lo: u16) -> u32 {
    (hi * 0x10000 + lo) as u32
}

/// A value that can be read from, and written to, a fixed number of
/// consecutive 16-bit registers.
pub trait Type: Sized {
    /// How many registers the value occupies.
    spec fn spec_len() -> u16;

    /// The value the given register words decode to, if they decode at
    /// all.
    spec fn spec_decode(data: Seq<u16>) -> Option<Self>;

    /// The register words the value encodes to.
    spec fn spec_encode(&self) -> Seq<u16>;

    /// How many registers to read or write for this type.
    fn word_len() -> (n: u16)
        ensures
            n == Self::spec_len(),
    ;

    fn decode(data: &[u16]) -> (r: Option<Self>)
        ensures
            r == Self::spec_decode(data@),
    ;

    fn encode(&self) -> (r: Vec<u16>)
        ensures
            r@ == self.spec_encode(),
            r@.len() == Self::spec_len(),
    ;
}

impl Type for u16 {
    open spec fn spec_len() -> u16 {
        1
    }

    open spec fn spec_decode(data: Seq<u16>) -> Option<u16> {
        if data.len() == 1 {
            Some(data[0])
        } else {
            None
        }
    }

    open spec fn spec_encode(&self) -> Seq<u16> {
        seq![*self]
    }

    fn word_len() -> u16 {
        1
    }

    fn decode(data: &[u16]) -> (r: Option<u16>)
        ensures
            r == Self::spec_decode(data@),
    {
        if data.len() == 1 {
            Some(data[0])
        } else {
            None
        }
    }

    fn encode(&self) -> (r: Vec<u16>)
        ensures
            r@ == self.spec_encode(),
            r@.len() == Self::spec_len(),
    {
        let r = vec![*self];
        proof {
            assert(r@ =~= seq![*self]);
        }
        r
    }
}

impl Type for u32 {
    open spec fn spec_len() -> u16 {
        2
    }

    /// The first register holds the high word, the second the low word.
    open spec fn spec_decode(data: Seq<u16>) -> Option<u32> {
        if data.len() == 2 {
            Some(word_join(data[0], data[1]))
        } else {
            None
        }
    }

    open spec fn spec_encode(&self) -> Seq<u16> {
        seq![(*self / 0x10000) as u16, *self as u16]
    }

    fn word_len() -> u16 {
        2
    }

    fn decode(data: &[u16]) -> (r: Option<u32>)
        ensures
            r == Self::spec_decode(data@),
    {
        if data.len() == 2 {
            let hi = data[0];
            let lo = data[1];
            Some((hi as u32) * 0x10000 + (lo as u32))
        } else {
            None
        }
    }

    fn encode(&self) -> (r: Vec<u16>)
        ensures
            r@ == self.spec_encode(),
            r@.len() == Self::spec_len(),
    {
        let r = vec![(*self / 0x10000) as u16, *self as u16];
        proof {
            assert(r@ =~= seq![(*self / 0x10000) as u16, *self as u16]);
        }
        r
    }
}

/// Encoding a 32-bit value and decoding the two words again gives the
/// value back.
pub proof fn lemma_u32_roundtrip(v: u32)
    ensures
        u32::spec_decode(v.spec_encode()) == Some(v),
{
    let hi = (v / 0x10000) as u16;
    let lo = v as u16;
    assert(v / 0x10000 <= 0xFFFF);
    assert(hi == v / 0x10000);
    assert(v as u16 == v % 0x10000) by (bit_vector);
    vstd::arithmetic::div_mod::lemma_fundamental_div_mod(v as int, 0x10000);
    assert(word_join(hi, lo) == v);
}

/// Relies on the std Clone for core::marker::PhantomData: cloning the
/// one value of the type gives it back; vstd leaves it unspecified.
pub assume_specification<T: core::marker::PointeeSized>[ <PhantomData<T> as Clone>::clone ](
    v: &PhantomData<T>,
) -> (r: PhantomData<T>)
    ensures
        r == *v,
;

/// A named register address, tagged with the type its words decode to.
#[derive(Debug, Copy, Clone)]
pub struct Register<T: Type> {
    pub name: &'static str,
    pub addr: u16,
    pub t: PhantomData<T>,
}

impl<T: Type> Register<T> {
    pub fn new(name: &'static str, addr: u16) -> (r: Self)
        ensures
            r.name == name,
            r.addr == addr,
    {
        Self { name, addr, t: PhantomData }
    }
}

} // verus!
