use vstd::prelude::*;

verus! {

/// Byte order in which a multi-byte integer is laid out on the wire.
#[derive(Debug, Clone, Copy, PartialEq, Eq, Structural)]
pub enum ByteOrder {
    Little,
    Big,
}

/// The one failure a codec can report: the wrapped value lies outside what
/// its wire format can represent.
#[derive(Debug, Clone, Copy, PartialEq, Eq, Structural)]
pub struct EncodingRangeError;

impl EncodingRangeError {
    /// A short fixed description of the failure.
    pub fn message(&self) -> (r: &'static str)
        ensures
            r@ == "value out of the codec's representable range"@,
    {
        "value out of the codec's representable range"
    }
}

/// The bytes of an encoding outcome, or `None` for a failure.
pub open spec fn encoded(r: Result<Vec<u8>, EncodingRangeError>) -> Option<Seq<u8>> {
    match r {
        Ok(b) => Some(b@),
        Err(_) => None,
    }
}

/// What appending an encoding to a sink does: with `expected` bytes the call
/// succeeds and the sink grows by exactly those bytes; without, the call
/// fails and the sink is left as it was.
pub open spec fn append_outcome(
    expected: Option<Seq<u8>>,
    before: Seq<u8>,
    after: Seq<u8>,
    r: Result<(), EncodingRangeError>,
) -> bool {
    match expected {
        Some(b) => r == Ok::<(), EncodingRangeError>(()) && after == before + b,
        None => r == Err::<(), EncodingRangeError>(EncodingRangeError) && after == before,
    }
}

/// The lowest `width` bytes of `n`, least significant first.
pub open spec fn le_bytes(n: nat, width: nat) -> Seq<u8>
    decreases width,
{
    if width == 0 {
        Seq::empty()
    } else {
        seq![(n % 256) as u8] + le_bytes(n / 256, (width - 1) as nat)
    }
}

/// The lowest `width` bytes of `n` in the given order.
pub open spec fn int_bytes(n: nat, width: nat, order: ByteOrder) -> Seq<u8> {
    match order {
        ByteOrder::Little => le_bytes(n, width),
        ByteOrder::Big => le_bytes(n, width).reverse(),
    }
}

/// The value of a 32-bit signed integer read as its two's complement bit pattern.
pub open spec fn twos_complement(v: i32) -> nat {
    if v < 0 {
        (v + 0x1_0000_0000) as nat
    } else {
        v as nat
    }
}

/// The two bytes of a 16-bit integer, in order.
pub proof fn lemma_u16_bytes(v: u16)
    ensures
        int_bytes(v as nat, 2, ByteOrder::Little) == seq![(v % 256) as u8, (v / 256) as u8],
        int_bytes(v as nat, 2, ByteOrder::Big) == seq![(v / 256) as u8, (v % 256) as u8],
{
    reveal_with_fuel(le_bytes, 3);
    assert((v as nat / 256) % 256 == v / 256);
    assert(le_bytes(v as nat, 2) =~= seq![(v % 256) as u8, (v / 256) as u8]);
    assert(le_bytes(v as nat, 2).reverse() =~= seq![(v / 256) as u8, (v % 256) as u8]);
}

/// `v` with its two bytes exchanged.
pub open spec fn swap_bytes(v: u16) -> u16 {
    ((v % 256) * 256 + v / 256) as u16
}

/// Exchanging the bytes of a 16-bit integer and reading it least significant
/// byte first gives its bytes most significant first.
pub proof fn lemma_swap_bytes(v: u16)
    ensures
        int_bytes(swap_bytes(v) as nat, 2, ByteOrder::Little) == int_bytes(
            v as nat,
            2,
            ByteOrder::Big,
        ),
{
    let w = swap_bytes(v);
    assert((v % 256) * 256 + v / 256 <= 65535) by (nonlinear_arith);
    assert(w % 256 == v / 256 && w / 256 == v % 256) by (nonlinear_arith)
        requires
            w == (v % 256) * 256 + v / 256,
    ;
    lemma_u16_bytes(v);
    lemma_u16_bytes(w);
}

/// The lowest `width` bytes of `n`, least significant first.
fn le_vec(n: u64, width: usize) -> (r: Vec<u8>)
    ensures
        r@ == le_bytes(n as nat, width as nat),
{
    let mut r: Vec<u8> = Vec::new();
    let mut cur: u64 = n;
    let mut i: usize = 0;
    while i < width
        invariant
            i <= width,
            r@ + le_bytes(cur as nat, (width - i) as nat) == le_bytes(n as nat, width as nat),
        decreases width - i,
    {
        let ghost before = r@;
        r.push((cur % 256) as u8);
        assert(before + le_bytes(cur as nat, (width - i) as nat) =~= r@ + le_bytes(
            (cur / 256) as nat,
            (width - i - 1) as nat,
        ));
        cur = cur / 256;
        i = i + 1;
    }
    assert(r@ =~= le_bytes(n as nat, width as nat));
    r
}

/// Appends the lowest `width` bytes of `n` to `out` in the given order.
pub fn push_int(n: u64, width: usize, order: ByteOrder, out: &mut Vec<u8>)
    ensures
        final(out)@ == old(out)@ + int_bytes(n as nat, width as nat, order),
{
    let le = le_vec(n, width);
    match order {
        ByteOrder::Little => {
            let mut i: usize = 0;
            while i < le.len()
                invariant
                    i <= le@.len(),
                    out@ == old(out)@ + le@.subrange(0, i as int),
                decreases le@.len() - i,
            {
                out.push(le[i]);
                assert(le@.subrange(0, i + 1) =~= le@.subrange(0, i as int).push(le@[i as int]));
                i = i + 1;
            }
            assert(le@.subrange(0, le@.len() as int) =~= le@);
        },
        ByteOrder::Big => {
            let mut i: usize = le.len();
            while i > 0
                invariant
                    i <= le@.len(),
                    out@ == old(out)@ + le@.subrange(i as int, le@.len() as int).reverse(),
                decreases i,
            {
                i = i - 1;
                out.push(le[i]);
                assert(le@.subrange(i as int, le@.len() as int).reverse() =~= le@.subrange(
                    i + 1,
                    le@.len() as int,
                ).reverse().push(le@[i as int]));
            }
            assert(le@.subrange(0, le@.len() as int) =~= le@);
        },
    }
}

/// One call into a structural serializer: a value of a primitive kind that
/// the serializer lays out by its own conventions.
pub enum Primitive {
    /// A single byte.
    U8(u8),
    /// A 16-bit unsigned integer, in the serializer's byte order.
    U16(u16),
    /// A 32-bit signed integer, in the serializer's byte order.
    I32(i32),
    /// A sequence of single bytes, framed by a 64-bit element count in the
    /// serializer's byte order.
    ByteSeq(Vec<u8>),
}

impl Primitive {
    /// The bytes a serializer with the given byte order writes for this value.
    pub open spec fn wire_bytes(&self, order: ByteOrder) -> Seq<u8> {
        match self {
            Primitive::U8(b) => seq![*b],
            Primitive::U16(v) => int_bytes(*v as nat, 2, order),
            Primitive::I32(v) => int_bytes(twos_complement(*v), 4, order),
            Primitive::ByteSeq(b) => int_bytes(b@.len(), 8, order) + b@,
        }
    }

    /// Appends the bytes of this value to `out`, as a serializer with the
    /// given byte order writes them.
    pub fn write_to(&self, order: ByteOrder, out: &mut Vec<u8>)
        ensures
            final(out)@ == old(out)@ + self.wire_bytes(order),
    {
        match self {
            Primitive::U8(b) => {
                out.push(*b);
            },
            Primitive::U16(v) => {
                push_int(*v as u64, 2, order, out);
            },
            Primitive::I32(v) => {
                let bits: u32 = if *v < 0 {
                    (*v as i64 + 0x1_0000_0000) as u32
                } else {
                    *v as u32
                };
                push_int(bits as u64, 4, order, out);
            },
            Primitive::ByteSeq(b) => {
                push_int(b.len() as u64, 8, order, out);
                let ghost framed = out@;
                let mut i: usize = 0;
                while i < b.len()
                    invariant
                        i <= b@.len(),
                        out@ == framed + b@.subrange(0, i as int),
                    decreases b@.len() - i,
                {
                    out.push(b[i]);
                    assert(b@.subrange(0, i + 1) =~= b@.subrange(0, i as int).push(b@[i as int]));
                    i = i + 1;
                }
                assert(b@.subrange(0, b@.len() as int) =~= b@);
            },
        }
    }
}

} // verus!
