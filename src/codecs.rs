use vstd::prelude::*;

use crate::cp1252::{cp1252_bytes, cp1252_encodable, encode_str};
use crate::wire::{
    append_outcome, encoded, int_bytes, lemma_swap_bytes, lemma_u16_bytes, swap_bytes,
    twos_complement, ByteOrder,
    EncodingRangeError, Primitive,
};

verus! {

/// A field type that knows its own wire layout. A structural serializer
/// encodes a record by calling this on each field in order.
pub trait WireEncode {
    /// The bytes this value encodes to with the given byte order, or `None`
    /// where its value lies outside what the layout can represent.
    spec fn spec_encode(&self, order: ByteOrder) -> Option<Seq<u8>>;

    /// Appends the encoding of this value to `out`; on failure `out` is left
    /// unchanged.
    fn encode_into(&self, order: ByteOrder, out: &mut Vec<u8>) -> (r: Result<(), EncodingRangeError>)
        ensures
            append_outcome(self.spec_encode(order), old(out)@, final(out)@, r),
    ;
}

/// Encoding is pure: encoding one value twice into a sink with the same byte
/// order gives the same outcome both times and appends the same bytes both
/// times, whatever the sink held before.
pub proof fn lemma_encode_twice<T: WireEncode>(
    value: &T,
    order: ByteOrder,
    s0: Seq<u8>,
    s1: Seq<u8>,
    s2: Seq<u8>,
    r1: Result<(), EncodingRangeError>,
    r2: Result<(), EncodingRangeError>,
)
    requires
        append_outcome(value.spec_encode(order), s0, s1, r1),
        append_outcome(value.spec_encode(order), s1, s2, r2),
    ensures
        r1 == r2,
        s1.subrange(s0.len() as int, s1.len() as int) == s2.subrange(s1.len() as int, s2.len() as int),
{
    match value.spec_encode(order) {
        Some(b) => {
            assert(s1.subrange(s0.len() as int, s1.len() as int) =~= b);
            assert(s2.subrange(s1.len() as int, s2.len() as int) =~= b);
        },
        None => {
            assert(s1.subrange(s0.len() as int, s1.len() as int) =~= Seq::<u8>::empty());
            assert(s2.subrange(s1.len() as int, s2.len() as int) =~= Seq::<u8>::empty());
        },
    }
}

/// A self-delimiting unsigned integer of up to 15 bits. Values up to 127
/// take one byte; larger ones take two, with the top bit of the 16-bit
/// quantity set so that a reader can tell the widths apart.
#[derive(Debug, Clone, Copy, PartialEq, Eq, Structural)]
pub struct U16Smart(pub u16);

impl U16Smart {
    /// The serializer call this value stands for.
    pub fn to_primitive(&self) -> (r: Result<Primitive, EncodingRangeError>)
        ensures
            self.0 <= 127 ==> r == Ok::<Primitive, EncodingRangeError>(Primitive::U8(self.0 as u8)),
            128 <= self.0 <= 32767 ==> r == Ok::<Primitive, EncodingRangeError>(
                Primitive::U16((self.0 + 32768) as u16),
            ),
            self.0 > 32767 ==> r == Err::<Primitive, EncodingRangeError>(EncodingRangeError),
    {
        if self.0 <= 127 {
            Ok(Primitive::U8(self.0 as u8))
        } else if self.0 <= 32767 {
            Ok(Primitive::U16(self.0 + 32768))
        } else {
            Err(EncodingRangeError)
        }
    }

    /// The wire bytes of this value: one byte up to 127, the two bytes of
    /// the value plus 32768 in the given order up to 32767, and an error above.
    pub fn encode(&self, order: ByteOrder) -> (r: Result<Vec<u8>, EncodingRangeError>)
        ensures
            self.0 <= 127 ==> encoded(r) == Some(seq![self.0 as u8]),
            128 <= self.0 <= 32767 ==> encoded(r) == Some(
                int_bytes((self.0 + 32768) as nat, 2, order),
            ),
            128 <= self.0 <= 32767 && order == ByteOrder::Little ==> encoded(r) == Some(
                seq![(self.0 % 256) as u8, (self.0 / 256 + 128) as u8],
            ),
            self.0 > 32767 ==> r == Err::<Vec<u8>, EncodingRangeError>(EncodingRangeError),
    {
        proof {
            if 128 <= self.0 <= 32767 {
                lemma_u16_bytes((self.0 + 32768) as u16);
            }
        }
        let mut out: Vec<u8> = Vec::new();
        match self.encode_into(order, &mut out) {
            Ok(()) => Ok(out),
            Err(e) => Err(e),
        }
    }
}

impl WireEncode for U16Smart {
    open spec fn spec_encode(&self, order: ByteOrder) -> Option<Seq<u8>> {
        if self.0 <= 127 {
            Some(seq![self.0 as u8])
        } else if self.0 <= 32767 {
            Some(int_bytes((self.0 + 32768) as nat, 2, order))
        } else {
            None
        }
    }

    fn encode_into(&self, order: ByteOrder, out: &mut Vec<u8>) -> (r: Result<(), EncodingRangeError>) {
        match self.to_primitive() {
            Ok(p) => {
                p.write_to(order, out);
                Ok(())
            },
            Err(e) => Err(e),
        }
    }
}

/// A byte disguised by adding 128 to it, wrapping modulo 256.
#[derive(Debug, Clone, Copy, PartialEq, Eq, Structural)]
pub struct U8Add(pub u8);

impl U8Add {
    /// The serializer call this value stands for.
    pub fn to_primitive(&self) -> (r: Primitive)
        ensures
            r == Primitive::U8(((self.0 + 128) % 256) as u8),
    {
        Primitive::U8(self.0.wrapping_add(128))
    }

    /// The wire byte of this value: the value plus 128, modulo 256. The byte
    /// order plays no part.
    pub fn encode(&self, order: ByteOrder) -> (r: Vec<u8>)
        ensures
            r@ == seq![((self.0 + 128) % 256) as u8],
    {
        let mut out: Vec<u8> = Vec::new();
        let _ = self.encode_into(order, &mut out);
        out
    }
}

impl WireEncode for U8Add {
    open spec fn spec_encode(&self, order: ByteOrder) -> Option<Seq<u8>> {
        Some(seq![((self.0 + 128) % 256) as u8])
    }

    fn encode_into(&self, order: ByteOrder, out: &mut Vec<u8>) -> (r: Result<(), EncodingRangeError>) {
        self.to_primitive().write_to(order, out);
        Ok(())
    }
}

/// A 16-bit unsigned integer that always goes on the wire most significant
/// byte first, whatever byte order the rest of the record uses.
#[derive(Debug, Clone, Copy, PartialEq, Eq, Structural)]
pub struct U16Le(u16);

impl View for U16Le {
    type V = u16;

    closed spec fn view(&self) -> u16 {
        self.0
    }
}

impl U16Le {
    /// Wraps `value`.
    pub fn new(value: u16) -> (r: Self)
        ensures
            r@ == value,
    {
        U16Le(value)
    }

    /// The wrapped value.
    pub fn value(&self) -> (r: u16)
        ensures
            r == self@,
    {
        self.0
    }

    /// The serializer call this value stands for, given the byte order in
    /// which the serializer lays out a 16-bit integer: one 16-bit write of
    /// the value with its bytes swapped where that order is little-endian,
    /// and of the value as it is where it is big-endian, so that the high
    /// byte goes first either way.
    pub fn to_primitive(&self, order: ByteOrder) -> (r: Primitive)
        ensures
            order == ByteOrder::Little ==> r == Primitive::U16(swap_bytes(self@)),
            order == ByteOrder::Big ==> r == Primitive::U16(self@),
    {
        match order {
            ByteOrder::Little => {
                assert((self.0 % 256) * 256 + self.0 / 256 <= 65535) by (nonlinear_arith);
                Primitive::U16((self.0 % 256) * 256 + self.0 / 256)
            },
            ByteOrder::Big => Primitive::U16(self.0),
        }
    }

    /// The wire bytes of this value: high byte first, for either byte order.
    pub fn encode(&self, order: ByteOrder) -> (r: Vec<u8>)
        ensures
            r@ == seq![(self@ / 256) as u8, (self@ % 256) as u8],
    {
        let mut out: Vec<u8> = Vec::new();
        let _ = self.encode_into(order, &mut out);
        assert(out@ =~= seq![(self@ / 256) as u8, (self@ % 256) as u8]);
        out
    }
}

impl WireEncode for U16Le {
    open spec fn spec_encode(&self, order: ByteOrder) -> Option<Seq<u8>> {
        Some(seq![(self@ / 256) as u8, (self@ % 256) as u8])
    }

    fn encode_into(&self, order: ByteOrder, out: &mut Vec<u8>) -> (r: Result<(), EncodingRangeError>) {
        proof {
            lemma_u16_bytes(self@);
            lemma_swap_bytes(self@);
        }
        self.to_primitive(order).write_to(order, out);
        Ok(())
    }
}

/// A 32-bit signed integer written as its four two's complement bytes in
/// the byte order of the record.
///
/// This layout is provisional: for now the bytes follow whatever byte order
/// the record is encoded with, and the field is meant to move to a fixed
/// big-endian layout, as `U16Le` has.
#[derive(Debug, Clone, Copy, PartialEq, Eq, Structural)]
pub struct I32IME(i32);

impl View for I32IME {
    type V = i32;

    closed spec fn view(&self) -> i32 {
        self.0
    }
}

impl I32IME {
    /// Wraps `value`.
    pub fn new(value: i32) -> (r: Self)
        ensures
            r@ == value,
    {
        I32IME(value)
    }

    /// The wrapped value.
    pub fn value(&self) -> (r: i32)
        ensures
            r == self@,
    {
        self.0
    }

    /// The serializer call this value stands for.
    pub fn to_primitive(&self) -> (r: Primitive)
        ensures
            r == Primitive::I32(self@),
    {
        Primitive::I32(self.0)
    }

    /// The wire bytes of this value: its two's complement bit pattern as
    /// four bytes in the given order.
    pub fn encode(&self, order: ByteOrder) -> (r: Vec<u8>)
        ensures
            r@ == int_bytes(twos_complement(self@), 4, order),
    {
        let mut out: Vec<u8> = Vec::new();
        let _ = self.encode_into(order, &mut out);
        assert(out@ =~= int_bytes(twos_complement(self@), 4, order));
        out
    }
}

impl WireEncode for I32IME {
    open spec fn spec_encode(&self, order: ByteOrder) -> Option<Seq<u8>> {
        Some(int_bytes(twos_complement(self@), 4, order))
    }

    fn encode_into(&self, order: ByteOrder, out: &mut Vec<u8>) -> (r: Result<(), EncodingRangeError>) {
        self.to_primitive().write_to(order, out);
        Ok(())
    }
}

/// Text sent as a counted sequence of Windows-1252 bytes, one per character.
#[derive(Debug, Clone)]
pub struct StringCp1252(pub String);

impl StringCp1252 {
    /// The serializer call that text stands for: a byte sequence holding
    /// the code page byte of each character, or an error where some
    /// character has none.
    pub fn primitive_of(text: &str) -> (r: Result<Primitive, EncodingRangeError>)
        ensures
            cp1252_encodable(text@) ==> (r matches Ok(Primitive::ByteSeq(b)) && b@
                == cp1252_bytes(text@)),
            !cp1252_encodable(text@) ==> r == Err::<Primitive, EncodingRangeError>(
                EncodingRangeError,
            ),
    {
        match encode_str(text) {
            Some(b) => Ok(Primitive::ByteSeq(b)),
            None => Err(EncodingRangeError),
        }
    }

    /// The serializer call this value stands for, as `primitive_of` gives it
    /// for the wrapped text.
    pub fn to_primitive(&self) -> (r: Result<Primitive, EncodingRangeError>)
        ensures
            cp1252_encodable(self.0@) ==> (r matches Ok(Primitive::ByteSeq(b)) && b@
                == cp1252_bytes(self.0@)),
            !cp1252_encodable(self.0@) ==> r == Err::<Primitive, EncodingRangeError>(
                EncodingRangeError,
            ),
    {
        Self::primitive_of(self.0.as_str())
    }

    /// The wire bytes of this text: its character count as eight bytes in
    /// the given order, then the code page byte of each character; an error
    /// where some character has no such byte.
    pub fn encode(&self, order: ByteOrder) -> (r: Result<Vec<u8>, EncodingRangeError>)
        ensures
            cp1252_encodable(self.0@) ==> encoded(r) == Some(
                int_bytes(self.0@.len(), 8, order) + cp1252_bytes(self.0@),
            ),
            !cp1252_encodable(self.0@) ==> r == Err::<Vec<u8>, EncodingRangeError>(
                EncodingRangeError,
            ),
    {
        let mut out: Vec<u8> = Vec::new();
        match self.encode_into(order, &mut out) {
            Ok(()) => {
                assert(out@ =~= int_bytes(self.0@.len(), 8, order) + cp1252_bytes(self.0@));
                Ok(out)
            },
            Err(e) => Err(e),
        }
    }
}

impl WireEncode for StringCp1252 {
    open spec fn spec_encode(&self, order: ByteOrder) -> Option<Seq<u8>> {
        if cp1252_encodable(self.0@) {
            Some(int_bytes(self.0@.len(), 8, order) + cp1252_bytes(self.0@))
        } else {
            None
        }
    }

    fn encode_into(&self, order: ByteOrder, out: &mut Vec<u8>) -> (r: Result<(), EncodingRangeError>) {
        match self.to_primitive() {
            Ok(p) => {
                p.write_to(order, out);
                Ok(())
            },
            Err(e) => Err(e),
        }
    }
}

} // verus!
