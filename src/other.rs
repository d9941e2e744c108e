//! Auxiliary payloads, the instructions that describe them, and the prefix code
//! that carries the size and type of each slot.
use vstd::prelude::*;
use crate::bits::{bit, byte_of, lemma_byte_of_bits, pack_flags, test_bit};
use crate::bits::{le16, read_le16};
use crate::packing::{append_bytes, array10, array24, copy_into, lemma_array10, lemma_array24, read_array, Pack, PackingError, Unpack};

verus! {

/// An auxiliary payload: 24 bytes, laid out as its decode instructions describe,
/// multi-byte values little-endian.
pub type OtherInput = [u8; 24];

/// Size of one slot of an auxiliary payload.
#[derive(Clone, Copy, Debug, PartialEq, Eq, Structural)]
pub enum DataSize {
    /// One byte (code `1`).
    One,
    /// Two bytes (code `01`).
    Two,
    /// Four bytes (code `001`).
    Four,
    /// Eight bytes (code `0001`).
    Eight,
}

/// Type of one slot of an auxiliary payload.
#[derive(Clone, Copy, Debug, PartialEq, Eq, Structural)]
pub enum DataType {
    /// Unsigned integer (code `1`).
    Unsigned,
    /// Signed integer, two's complement (code `01`).
    Signed,
    /// IEEE-754 floating point (code `001`).
    Floating,
}

impl DataSize {
    /// Number of bytes.
    pub open spec fn bytes(self) -> nat {
        match self {
            DataSize::One => 1,
            DataSize::Two => 2,
            DataSize::Four => 4,
            DataSize::Eight => 8,
        }
    }

    /// Position in the code's alphabet.
    pub open spec fn rank(self) -> nat {
        match self {
            DataSize::One => 0,
            DataSize::Two => 1,
            DataSize::Four => 2,
            DataSize::Eight => 3,
        }
    }

    /// Number of bytes.
    pub fn byte_len(&self) -> (r: usize)
        ensures
            r == self.bytes(),
            1 <= r <= 8,
    {
        match self {
            DataSize::One => 1,
            DataSize::Two => 2,
            DataSize::Four => 4,
            DataSize::Eight => 8,
        }
    }

    fn rank_of(&self) -> (r: usize)
        ensures
            r == self.rank(),
    {
        match self {
            DataSize::One => 0,
            DataSize::Two => 1,
            DataSize::Four => 2,
            DataSize::Eight => 3,
        }
    }
}

impl DataType {
    /// Position in the code's alphabet.
    pub open spec fn rank(self) -> nat {
        match self {
            DataType::Unsigned => 0,
            DataType::Signed => 1,
            DataType::Floating => 2,
        }
    }

    fn rank_of(&self) -> (r: usize)
        ensures
            r == self.rank(),
    {
        match self {
            DataType::Unsigned => 0,
            DataType::Signed => 1,
            DataType::Floating => 2,
        }
    }
}

/// The codeword of the symbol of rank `k`: `k` clear bits, then a set bit.
pub open spec fn codeword(k: nat) -> Seq<bool> {
    Seq::new(k + 1, |j: int| j == k)
}

/// Total number of bytes of a sequence of sizes.
pub open spec fn total_bytes(s: Seq<DataSize>) -> nat
    decreases s.len(),
{
    if s.len() == 0 {
        0
    } else {
        total_bytes(s.drop_last()) + s.last().bytes()
    }
}

/// The bit stream of a sequence of sizes, once `acc` payload bytes have been
/// described: it ends with the sequence or once 24 bytes are described.
pub open spec fn encode_sizes(s: Seq<DataSize>, acc: nat) -> Seq<bool>
    decreases s.len(),
{
    if s.len() == 0 || acc >= 24 {
        Seq::empty()
    } else {
        codeword(s[0].rank()) + encode_sizes(s.drop_first(), acc + s[0].bytes())
    }
}

/// The bit stream of a sequence of types, once `pos` bits have been written:
/// it ends with the sequence or once 24 bits are written.
pub open spec fn encode_types(s: Seq<DataType>, pos: nat) -> Seq<bool>
    decreases s.len(),
{
    if s.len() == 0 || pos >= 24 {
        Seq::empty()
    } else {
        codeword(s[0].rank()) + encode_types(s.drop_first(), pos + s[0].rank() + 1)
    }
}

/// Bit `i` of a stream; clear past its end.
pub open spec fn at(bits: Seq<bool>, i: int) -> bool {
    0 <= i < bits.len() && bits[i]
}

/// The three bytes holding the first 24 bits of a stream, bit 0 of the stream in
/// the lowest bit of the first byte.
pub open spec fn stream_bytes(bits: Seq<bool>) -> Seq<u8> {
    Seq::new(
        3,
        |j: int|
            byte_of(
                at(bits, 8 * j + 7),
                at(bits, 8 * j + 6),
                at(bits, 8 * j + 5),
                at(bits, 8 * j + 4),
                at(bits, 8 * j + 3),
                at(bits, 8 * j + 2),
                at(bits, 8 * j + 1),
                at(bits, 8 * j),
            ),
    )
}

/// The 24 bits held in three bytes.
pub open spec fn stream_bits(b: Seq<u8>) -> Seq<bool> {
    Seq::new(24, |i: int| bit(b[i / 8], i % 8))
}

/// The size whose codeword starts at bit `pos`, if any.
pub open spec fn next_size(bits: Seq<bool>, pos: int) -> Option<DataSize> {
    if at(bits, pos) {
        Some(DataSize::One)
    } else if at(bits, pos + 1) {
        Some(DataSize::Two)
    } else if at(bits, pos + 2) {
        Some(DataSize::Four)
    } else if at(bits, pos + 3) {
        Some(DataSize::Eight)
    } else {
        None
    }
}

/// The type whose codeword starts at bit `pos`, if any.
pub open spec fn next_type(bits: Seq<bool>, pos: int) -> Option<DataType> {
    if at(bits, pos) {
        Some(DataType::Unsigned)
    } else if at(bits, pos + 1) {
        Some(DataType::Signed)
    } else if at(bits, pos + 2) {
        Some(DataType::Floating)
    } else {
        None
    }
}

/// `pre` in front of a decoded sequence.
pub open spec fn prepend<A>(pre: Seq<A>, r: Option<Seq<A>>) -> Option<Seq<A>> {
    match r {
        Some(rest) => Some(pre + rest),
        None => None,
    }
}

/// Sizes read from bit `pos` on, `acc` payload bytes being described already: up to
/// 24 described bytes; `None` where a codeword is cut off.
pub open spec fn decode_sizes(bits: Seq<bool>, pos: int, acc: nat) -> Option<Seq<DataSize>>
    decreases 32 - acc,
{
    if acc >= 24 {
        Some(Seq::empty())
    } else {
        match next_size(bits, pos) {
            Some(d) => prepend(seq![d], decode_sizes(bits, pos + d.rank() + 1, acc + d.bytes())),
            None => None,
        }
    }
}

/// Types read from bit `pos` up to bit 24; `None` where a codeword is cut off.
pub open spec fn decode_types(bits: Seq<bool>, pos: int) -> Option<Seq<DataType>>
    decreases 32 - pos,
{
    if pos >= 24 {
        Some(Seq::empty())
    } else {
        match next_type(bits, pos) {
            Some(t) => prepend(seq![t], decode_types(bits, pos + t.rank() + 1)),
            None => None,
        }
    }
}

/// 24 sizes: `s`, then `One`.
pub open spec fn padded_sizes(s: Seq<DataSize>) -> Seq<DataSize> {
    Seq::new(24, |i: int| if i < s.len() { s[i] } else { DataSize::One })
}

/// 24 types: `s`, then `Unsigned`.
pub open spec fn padded_types(s: Seq<DataType>) -> Seq<DataType> {
    Seq::new(24, |i: int| if i < s.len() { s[i] } else { DataType::Unsigned })
}

/// Bit `i` of a stream.
fn bit_at(bits: &Vec<bool>, i: usize) -> (r: bool)
    ensures
        r == at(bits@, i as int),
{
    i < bits.len() && bits[i]
}

/// Append the codeword of rank `k`.
fn push_codeword(out: &mut Vec<bool>, k: usize)
    requires
        k < 4,
    ensures
        final(out)@ == old(out)@ + codeword(k as nat),
{
    let ghost start = out@;
    let mut j: usize = 0;
    while j < k
        invariant
            j <= k,
            out@ == start + Seq::new(j as nat, |x: int| false),
        decreases k - j,
    {
        out.push(false);
        j = j + 1;
        assert(out@ =~= start + Seq::new(j as nat, |x: int| false));
    }
    out.push(true);
    assert(out@ =~= start + codeword(k as nat));
}

/// Byte `j` of the packed stream.
fn stream_byte(bits: &Vec<bool>, j: usize) -> (r: u8)
    requires
        j < 3,
    ensures
        r == stream_bytes(bits@)[j as int],
{
    let o = 8 * j;
    pack_flags(
        bit_at(bits, o + 7), bit_at(bits, o + 6), bit_at(bits, o + 5), bit_at(bits, o + 4),
        bit_at(bits, o + 3), bit_at(bits, o + 2), bit_at(bits, o + 1), bit_at(bits, o),
    )
}

/// The three bytes holding the first 24 bits of a stream.
fn stream_to_bytes(bits: &Vec<bool>) -> (r: [u8; 3])
    ensures
        r@ == stream_bytes(bits@),
{
    let b0 = stream_byte(bits, 0);
    let b1 = stream_byte(bits, 1);
    let b2 = stream_byte(bits, 2);
    let r = [b0, b1, b2];
    assert(r@ =~= stream_bytes(bits@));
    r
}

/// The 24 bits held in the three bytes of `buffer` that start at `off`.
fn bytes_to_stream(buffer: &[u8], off: usize) -> (r: Vec<bool>)
    requires
        off + 3 <= buffer@.len(),
    ensures
        r@ == stream_bits(buffer@.subrange(off as int, off + 3)),
{
    let ghost b = buffer@.subrange(off as int, off + 3);
    let mut r: Vec<bool> = Vec::new();
    let len: usize = buffer.len();
    let mut i: usize = 0;
    while i < 24
        invariant
            i <= 24,
            len == buffer@.len(),
            off + 3 <= buffer@.len(),
            b == buffer@.subrange(off as int, off + 3),
            r@ =~= stream_bits(b).take(i as int),
        decreases 24 - i,
    {
        let x = test_bit(buffer[off + i / 8], (i % 8) as u8);
        r.push(x);
        i = i + 1;
        assert(r@ =~= stream_bits(b).take(i as int));
    }
    r
}

/// The bit stream of 24 sizes.
fn size_stream(sizes: &[DataSize; 24]) -> (r: (Vec<bool>, usize))
    ensures
        r.0@ == encode_sizes(sizes@, 0),
        r.1 == consumed(sizes@, 0),
{
    let mut out: Vec<bool> = Vec::new();
    assert(sizes@.skip(0) =~= sizes@);
    let mut acc: usize = 0;
    let mut i: usize = 0;
    while i < 24 && acc < 24
        invariant
            i <= 24,
            acc < 32,
            out@ + encode_sizes(sizes@.skip(i as int), acc as nat) == encode_sizes(sizes@, 0),
            consumed(sizes@, 0) == i + consumed(sizes@.skip(i as int), acc as nat),
        decreases 24 - i,
    {
        let d = sizes[i];
        push_codeword(&mut out, d.rank_of());
        assert(sizes@.skip(i as int).drop_first() =~= sizes@.skip(i + 1));
        acc = acc + d.byte_len();
        i = i + 1;
        assert(out@ + encode_sizes(sizes@.skip(i as int), acc as nat) =~= encode_sizes(sizes@, 0));
    }
    (out, i)
}

/// The bit stream of 24 types.
fn type_stream(types: &[DataType; 24]) -> (r: (Vec<bool>, usize))
    ensures
        r.0@ == encode_types(types@, 0),
        r.1 == consumed_types(types@, 0),
{
    let mut out: Vec<bool> = Vec::new();
    assert(types@.skip(0) =~= types@);
    let mut pos: usize = 0;
    let mut i: usize = 0;
    while i < 24 && pos < 24
        invariant
            i <= 24,
            pos < 32,
            out@ + encode_types(types@.skip(i as int), pos as nat) == encode_types(types@, 0),
            consumed_types(types@, 0) == i + consumed_types(types@.skip(i as int), pos as nat),
        decreases 24 - i,
    {
        let t = types[i];
        let k = t.rank_of();
        push_codeword(&mut out, k);
        assert(types@.skip(i as int).drop_first() =~= types@.skip(i + 1));
        pos = pos + k + 1;
        i = i + 1;
        assert(out@ + encode_types(types@.skip(i as int), pos as nat) =~= encode_types(types@, 0));
    }
    (out, i)
}

fn next_size_of(bits: &Vec<bool>, pos: usize) -> (r: Option<DataSize>)
    requires
        pos < 32,
    ensures
        r == next_size(bits@, pos as int),
{
    if bit_at(bits, pos) {
        Some(DataSize::One)
    } else if bit_at(bits, pos + 1) {
        Some(DataSize::Two)
    } else if bit_at(bits, pos + 2) {
        Some(DataSize::Four)
    } else if bit_at(bits, pos + 3) {
        Some(DataSize::Eight)
    } else {
        None
    }
}

fn next_type_of(bits: &Vec<bool>, pos: usize) -> (r: Option<DataType>)
    requires
        pos < 32,
    ensures
        r == next_type(bits@, pos as int),
{
    if bit_at(bits, pos) {
        Some(DataType::Unsigned)
    } else if bit_at(bits, pos + 1) {
        Some(DataType::Signed)
    } else if bit_at(bits, pos + 2) {
        Some(DataType::Floating)
    } else {
        None
    }
}

fn all_one() -> (r: [DataSize; 24])
    ensures
        r@ == Seq::new(24, |i: int| DataSize::One),
{
    let o = DataSize::One;
    let r = [o, o, o, o, o, o, o, o, o, o, o, o, o, o, o, o, o, o, o, o, o, o, o, o];
    assert(r@ =~= Seq::new(24, |i: int| DataSize::One));
    r
}

fn all_unsigned() -> (r: [DataType; 24])
    ensures
        r@ == Seq::new(24, |i: int| DataType::Unsigned),
{
    let u = DataType::Unsigned;
    let r = [u, u, u, u, u, u, u, u, u, u, u, u, u, u, u, u, u, u, u, u, u, u, u, u];
    assert(r@ =~= Seq::new(24, |i: int| DataType::Unsigned));
    r
}

/// Decode the sizes of a 24-bit stream.
fn decode_size_stream(bits: &Vec<bool>) -> (r: Option<([DataSize; 24], usize)>)
    ensures
        r == match decode_sizes(bits@, 0, 0) {
            Some(s) => Some((array24(padded_sizes(s)), s.len() as usize)),
            None => None::<([DataSize; 24], usize)>,
        },
        match decode_sizes(bits@, 0, 0) {
            Some(s) => s.len() <= 24,
            None => true,
        },
{
    let mut out = all_one();
    let mut n: usize = 0;
    let mut pos: usize = 0;
    let mut acc: usize = 0;
    while acc < 24
        invariant
            n <= acc,
            pos <= acc,
            acc < 32,
            n <= 24,
            out@.len() == 24,
            forall|i: int| n <= i < 24 ==> out@[i] == DataSize::One,
            decode_sizes(bits@, 0, 0) == prepend(out@.take(n as int), decode_sizes(bits@, pos as int, acc as nat)),
        decreases 32 - acc,
    {
        match next_size_of(bits, pos) {
            None => {
                return None;
            },
            Some(d) => {
                let ghost before = out@.take(n as int);
                let ghost rest = decode_sizes(bits@, pos + d.rank() + 1, (acc + d.bytes()) as nat);
                out[n] = d;
                n = n + 1;
                pos = pos + d.rank_of() + 1;
                acc = acc + d.byte_len();
                assert(out@.take(n as int) =~= before + seq![d]);
                proof {
                    match rest {
                        Some(t) => {
                            assert(before + (seq![d] + t) =~= out@.take(n as int) + t);
                        },
                        None => {},
                    }
                }
            },
        }
    }
    assert(out@.take(n as int) + Seq::<DataSize>::empty() =~= out@.take(n as int));
    assert(padded_sizes(out@.take(n as int)) =~= out@);
    proof {
        lemma_array24(out, padded_sizes(out@.take(n as int)));
    }
    Some((out, n))
}

/// Decode the types of a 24-bit stream.
fn decode_type_stream(bits: &Vec<bool>) -> (r: Option<([DataType; 24], usize)>)
    ensures
        r == match decode_types(bits@, 0) {
            Some(s) => Some((array24(padded_types(s)), s.len() as usize)),
            None => None::<([DataType; 24], usize)>,
        },
        match decode_types(bits@, 0) {
            Some(s) => s.len() <= 24,
            None => true,
        },
{
    let mut out = all_unsigned();
    let mut n: usize = 0;
    let mut pos: usize = 0;
    while pos < 24
        invariant
            n <= pos,
            pos < 32,
            n <= 24,
            out@.len() == 24,
            forall|i: int| n <= i < 24 ==> out@[i] == DataType::Unsigned,
            decode_types(bits@, 0) == prepend(out@.take(n as int), decode_types(bits@, pos as int)),
        decreases 32 - pos,
    {
        match next_type_of(bits, pos) {
            None => {
                return None;
            },
            Some(t) => {
                let ghost before = out@.take(n as int);
                let ghost rest = decode_types(bits@, pos + t.rank() + 1);
                out[n] = t;
                n = n + 1;
                pos = pos + t.rank_of() + 1;
                assert(out@.take(n as int) =~= before + seq![t]);
                proof {
                    match rest {
                        Some(u) => {
                            assert(before + (seq![t] + u) =~= out@.take(n as int) + u);
                        },
                        None => {},
                    }
                }
            },
        }
    }
    assert(out@.take(n as int) + Seq::<DataType>::empty() =~= out@.take(n as int));
    assert(padded_types(out@.take(n as int)) =~= out@);
    proof {
        lemma_array24(out, padded_types(out@.take(n as int)));
    }
    Some((out, n))
}

impl Pack for [DataSize; 24] {
    open spec fn packed_len() -> nat {
        3
    }

    open spec fn packed(&self) -> Seq<u8> {
        stream_bytes(encode_sizes(self@, 0))
    }

    fn pack(self, buffer: &mut [u8]) -> (r: Result<(), PackingError>) {
        if buffer.len() < 3 {
            return Err(PackingError::InvalidBufferSize);
        }
        let (bits, _) = size_stream(&self);
        let bytes = stream_to_bytes(&bits);
        copy_into(buffer, 0, &bytes);
        assert(final(buffer)@ =~= self.packed() + old(buffer)@.skip(3));
        Ok(())
    }
}

impl Unpack for [DataSize; 24] {
    open spec fn unpacked(bytes: Seq<u8>) -> Result<[DataSize; 24], PackingError> {
        if bytes.len() < 3 {
            Err(PackingError::InvalidBufferSize)
        } else {
            match decode_sizes(stream_bits(bytes.take(3)), 0, 0) {
                Some(s) => Ok(array24(padded_sizes(s))),
                None => Err(PackingError::InvalidEncoding),
            }
        }
    }

    fn unpack(buffer: &[u8]) -> (r: Result<[DataSize; 24], PackingError>) {
        if buffer.len() < 3 {
            return Err(PackingError::InvalidBufferSize);
        }
        let bits = bytes_to_stream(buffer, 0);
        assert(buffer@.subrange(0, 3) =~= buffer@.take(3));
        match decode_size_stream(&bits) {
            Some((a, _)) => Ok(a),
            None => Err(PackingError::InvalidEncoding),
        }
    }
}

impl Pack for [DataType; 24] {
    open spec fn packed_len() -> nat {
        3
    }

    open spec fn packed(&self) -> Seq<u8> {
        stream_bytes(encode_types(self@, 0))
    }

    fn pack(self, buffer: &mut [u8]) -> (r: Result<(), PackingError>) {
        if buffer.len() < 3 {
            return Err(PackingError::InvalidBufferSize);
        }
        let (bits, _) = type_stream(&self);
        let bytes = stream_to_bytes(&bits);
        copy_into(buffer, 0, &bytes);
        assert(final(buffer)@ =~= self.packed() + old(buffer)@.skip(3));
        Ok(())
    }
}

impl Unpack for [DataType; 24] {
    open spec fn unpacked(bytes: Seq<u8>) -> Result<[DataType; 24], PackingError> {
        if bytes.len() < 3 {
            Err(PackingError::InvalidBufferSize)
        } else {
            match decode_types(stream_bits(bytes.take(3)), 0) {
                Some(s) => Ok(array24(padded_types(s))),
                None => Err(PackingError::InvalidEncoding),
            }
        }
    }

    fn unpack(buffer: &[u8]) -> (r: Result<[DataType; 24], PackingError>) {
        if buffer.len() < 3 {
            return Err(PackingError::InvalidBufferSize);
        }
        let bits = bytes_to_stream(buffer, 0);
        assert(buffer@.subrange(0, 3) =~= buffer@.take(3));
        match decode_type_stream(&bits) {
            Some((a, _)) => Ok(a),
            None => Err(PackingError::InvalidEncoding),
        }
    }
}

/// What a module reports about its auxiliary payload: an identifier, the size and
/// type of each slot, and a ten-byte ASCII name for each slot. Packed into 248
/// bytes: identifier (2, little-endian), size stream (3), type stream (3), names (240).
#[derive(Clone, Copy, Debug, PartialEq, Eq)]
pub struct DecodeInstructions {
    /// Identifier of the module.
    pub module_id: u16,
    /// Size of each slot.
    pub data_sizes: [DataSize; 24],
    /// Type of each slot.
    pub data_types: [DataType; 24],
    /// Name of each slot (ASCII).
    pub fields: [[u8; 10]; 24],
}

/// The 240 bytes of 24 names, one after the other.
pub open spec fn names_bytes(fields: [[u8; 10]; 24]) -> Seq<u8> {
    Seq::new(240, |k: int| fields@[k / 10]@[k % 10])
}

/// The 24 names held in 240 bytes.
pub open spec fn names_of(b: Seq<u8>) -> [[u8; 10]; 24] {
    array24(Seq::new(24, |i: int| array10(b.subrange(10 * i, 10 * i + 10))))
}

impl DecodeInstructions {
    /// Identifier zero, every slot one unsigned byte, names zero.
    pub open spec fn spec_default() -> DecodeInstructions {
        DecodeInstructions {
            module_id: 0,
            data_sizes: array24(Seq::new(24, |i: int| DataSize::One)),
            data_types: array24(Seq::new(24, |i: int| DataType::Unsigned)),
            fields: array24(Seq::new(24, |i: int| array10(Seq::new(10, |j: int| 0u8)))),
        }
    }

    /// Whether the two tag streams describe the same number of slots: the sizes
    /// taken until 24 payload bytes are described, and the types taken until 24
    /// bits are written. Only such instructions unpack again.
    pub open spec fn consistent(self) -> bool {
        consumed(self.data_sizes@, 0) == consumed_types(self.data_types@, 0)
    }

    /// Whether the two tag streams describe the same number of slots.
    pub fn is_consistent(&self) -> (r: bool)
        ensures
            r == self.consistent(),
    {
        let (_, n_sizes) = size_stream(&self.data_sizes);
        let (_, n_types) = type_stream(&self.data_types);
        n_sizes == n_types
    }

    /// The 248 packed bytes.
    pub fn to_vec(&self) -> (r: Vec<u8>)
        ensures
            r@ == self.packed(),
    {
        let mut v: Vec<u8> = Vec::new();
        v.push((self.module_id % 256) as u8);
        v.push((self.module_id / 256) as u8);
        let (size_bits, _) = size_stream(&self.data_sizes);
        let (type_bits, _) = type_stream(&self.data_types);
        let sizes = stream_to_bytes(&size_bits);
        let types = stream_to_bytes(&type_bits);
        append_bytes(&mut v, &sizes);
        append_bytes(&mut v, &types);
        let ghost head = v@;
        let mut i: usize = 0;
        while i < 24
            invariant
                i <= 24,
                head.len() == 8,
                v@ =~= head + names_bytes(self.fields).take(10 * i),
            decreases 24 - i,
        {
            append_bytes(&mut v, &self.fields[i]);
            i = i + 1;
            assert(v@ =~= head + names_bytes(self.fields).take(10 * i));
        }
        assert(v@ =~= self.packed());
        v
    }

    /// Read the names from the 240 bytes of `buffer` that start at 8.
    fn read_names(buffer: &[u8]) -> (r: [[u8; 10]; 24])
        requires
            248 <= buffer@.len(),
        ensures
            r == names_of(buffer@.subrange(8, 248)),
    {
        let ghost b = buffer@.subrange(8, 248);
        let mut r = [[0u8; 10]; 24];
        let mut i: usize = 0;
        while i < 24
            invariant
                i <= 24,
                248 <= buffer@.len(),
                b == buffer@.subrange(8, 248),
                r@.len() == 24,
                forall|j: int| 0 <= j < i ==> r@[j] == array10(b.subrange(10 * j, 10 * j + 10)),
            decreases 24 - i,
        {
            let name: [u8; 10] = read_array(buffer, 8 + 10 * i);
            proof {
                assert(name@ =~= b.subrange(10 * i, 10 * i + 10));
                lemma_array10(name, b.subrange(10 * i, 10 * i + 10));
            }
            r[i] = name;
            i = i + 1;
        }
        proof {
            let s = Seq::new(24, |j: int| array10(b.subrange(10 * j, 10 * j + 10)));
            assert(r@ =~= s);
            lemma_array24(r, s);
        }
        r
    }
}

impl Default for DecodeInstructions {
    fn default() -> (r: DecodeInstructions)
        ensures
            r == DecodeInstructions::spec_default(),
    {
        let r = DecodeInstructions {
            module_id: 0,
            data_sizes: [DataSize::One; 24],
            data_types: [DataType::Unsigned; 24],
            fields: [[0u8; 10]; 24],
        };
        proof {
            assert(r.data_sizes@ =~= Seq::new(24, |i: int| DataSize::One));
            lemma_array24(r.data_sizes, Seq::new(24, |i: int| DataSize::One));
            assert(r.data_types@ =~= Seq::new(24, |i: int| DataType::Unsigned));
            lemma_array24(r.data_types, Seq::new(24, |i: int| DataType::Unsigned));
            let zero = r.fields[0];
            assert(zero@ =~= Seq::new(10, |j: int| 0u8));
            lemma_array10(zero, Seq::new(10, |j: int| 0u8));
            let s = Seq::new(24, |i: int| array10(Seq::new(10, |j: int| 0u8)));
            assert(r.fields@ =~= s);
            lemma_array24(r.fields, s);
        }
        r
    }
}

impl Pack for DecodeInstructions {
    open spec fn packed_len() -> nat {
        248
    }

    open spec fn packed(&self) -> Seq<u8> {
        seq![(self.module_id % 256) as u8, (self.module_id / 256) as u8] + self.data_sizes.packed()
            + self.data_types.packed() + names_bytes(self.fields)
    }

    fn pack(self, buffer: &mut [u8]) -> (r: Result<(), PackingError>) {
        if buffer.len() < 248 {
            return Err(PackingError::InvalidBufferSize);
        }
        let bytes = self.to_vec();
        copy_into(buffer, 0, bytes.as_slice());
        assert(final(buffer)@ =~= self.packed() + old(buffer)@.skip(248));
        Ok(())
    }
}

impl Unpack for DecodeInstructions {
    /// Both tag streams must decode, and describe the same number of slots.
    open spec fn unpacked(bytes: Seq<u8>) -> Result<DecodeInstructions, PackingError> {
        if bytes.len() < 248 {
            Err(PackingError::InvalidBufferSize)
        } else {
            match decode_sizes(stream_bits(bytes.subrange(2, 5)), 0, 0) {
                None => Err(PackingError::InvalidEncoding),
                Some(sizes) => match decode_types(stream_bits(bytes.subrange(5, 8)), 0) {
                    None => Err(PackingError::InvalidEncoding),
                    Some(types) => if sizes.len() != types.len() {
                        Err(PackingError::InvalidEncoding)
                    } else {
                        Ok(
                            DecodeInstructions {
                                module_id: le16(bytes[0], bytes[1]),
                                data_sizes: array24(padded_sizes(sizes)),
                                data_types: array24(padded_types(types)),
                                fields: names_of(bytes.subrange(8, 248)),
                            },
                        )
                    },
                },
            }
        }
    }

    fn unpack(buffer: &[u8]) -> (r: Result<DecodeInstructions, PackingError>) {
        if buffer.len() < 248 {
            return Err(PackingError::InvalidBufferSize);
        }
        let module_id = read_le16(buffer[0], buffer[1]);
        let size_bits = bytes_to_stream(buffer, 2);
        let (data_sizes, n_sizes) = match decode_size_stream(&size_bits) {
            None => {
                return Err(PackingError::InvalidEncoding);
            },
            Some(d) => d,
        };
        let type_bits = bytes_to_stream(buffer, 5);
        let (data_types, n_types) = match decode_type_stream(&type_bits) {
            None => {
                return Err(PackingError::InvalidEncoding);
            },
            Some(t) => t,
        };
        if n_sizes != n_types {
            return Err(PackingError::InvalidEncoding);
        }
        let fields = DecodeInstructions::read_names(buffer);
        Ok(DecodeInstructions { module_id, data_sizes, data_types, fields })
    }
}

/// A value read from one slot of an auxiliary payload, with the slot's name.
/// Floating-point values are handed out as their IEEE-754 bit patterns.
#[derive(Clone, Copy, Debug, PartialEq, Eq)]
#[allow(inconsistent_fields)]
pub enum DecodedInput {
    /// One unsigned byte.
    U8 { value: u8, name: [u8; 10] },
    /// Two bytes, unsigned.
    U16 { value: u16, name: [u8; 10] },
    /// Four bytes, unsigned.
    U32 { value: u32, name: [u8; 10] },
    /// Eight bytes, unsigned.
    U64 { value: u64, name: [u8; 10] },
    /// One byte, two's complement.
    I8 { value: i8, name: [u8; 10] },
    /// Two bytes, two's complement.
    I16 { value: i16, name: [u8; 10] },
    /// Four bytes, two's complement.
    I32 { value: i32, name: [u8; 10] },
    /// Eight bytes, two's complement.
    I64 { value: i64, name: [u8; 10] },
    /// Bit pattern of an IEEE-754 binary32 value.
    F32 { bits: u32, name: [u8; 10] },
    /// Bit pattern of an IEEE-754 binary64 value.
    F64 { bits: u64, name: [u8; 10] },
}

/// Error from reading a slot of an auxiliary payload.
#[derive(Clone, Copy, Debug, PartialEq, Eq, Structural)]
pub enum DecodeError {
    /// The slot does not lie within the 24 bytes of the payload.
    OutOfBounds,
    /// The size and type of the slot do not name a supported value (a float of one or two bytes).
    UnknownDataType,
}

/// Little-endian value of the `n` bytes of `p` that start at `off`.
pub open spec fn le_at(p: Seq<u8>, off: int, n: nat) -> nat
    decreases n,
{
    if n == 0 {
        0
    } else {
        p[off] as nat + 256 * le_at(p, off + 1, (n - 1) as nat)
    }
}

/// `v` read as a two's-complement number of modulus `m`.
pub open spec fn signed(v: int, m: int) -> int {
    if v >= m / 2 {
        v - m
    } else {
        v
    }
}

/// Byte offset of slot `idx`: the sizes of the slots before it, added up.
pub open spec fn slot_offset(instructions: DecodeInstructions, idx: int) -> nat {
    total_bytes(instructions.data_sizes@.take(idx))
}

/// What reading slot `idx` of payload `p` gives.
pub open spec fn decode_slot(p: Seq<u8>, idx: int, instructions: DecodeInstructions) -> Result<DecodedInput, DecodeError> {
    if idx < 0 || idx >= 24 {
        Err(DecodeError::OutOfBounds)
    } else {
        let off = slot_offset(instructions, idx);
        let size = instructions.data_sizes@[idx];
        let name = instructions.fields@[idx];
        if off + size.bytes() > 24 {
            Err(DecodeError::OutOfBounds)
        } else {
            match (size, instructions.data_types@[idx]) {
                (DataSize::One, DataType::Unsigned) => Ok(DecodedInput::U8 { value: p[off as int], name }),
                (DataSize::Two, DataType::Unsigned) => Ok(DecodedInput::U16 { value: le_at(p, off as int, 2) as u16, name }),
                (DataSize::Four, DataType::Unsigned) => Ok(DecodedInput::U32 { value: le_at(p, off as int, 4) as u32, name }),
                (DataSize::Eight, DataType::Unsigned) => Ok(DecodedInput::U64 { value: le_at(p, off as int, 8) as u64, name }),
                (DataSize::One, DataType::Signed) => Ok(DecodedInput::I8 { value: signed(p[off as int] as int, 0x100) as i8, name }),
                (DataSize::Two, DataType::Signed) => Ok(DecodedInput::I16 { value: signed(le_at(p, off as int, 2) as int, 0x1_0000) as i16, name }),
                (DataSize::Four, DataType::Signed) => Ok(DecodedInput::I32 { value: signed(le_at(p, off as int, 4) as int, 0x1_0000_0000) as i32, name }),
                (DataSize::Eight, DataType::Signed) => Ok(DecodedInput::I64 { value: signed(le_at(p, off as int, 8) as int, 0x1_0000_0000_0000_0000) as i64, name }),
                (DataSize::Four, DataType::Floating) => Ok(DecodedInput::F32 { bits: le_at(p, off as int, 4) as u32, name }),
                (DataSize::Eight, DataType::Floating) => Ok(DecodedInput::F64 { bits: le_at(p, off as int, 8) as u64, name }),
                _ => Err(DecodeError::UnknownDataType),
            }
        }
    }
}

/// Little-endian value of the `n` bytes of `p` that start at `off`.
fn read_le(p: &[u8; 24], off: usize, n: usize) -> (r: u64)
    requires
        n == 1 || n == 2 || n == 4 || n == 8,
        off + n <= 24,
    ensures
        r as nat == le_at(p@, off as int, n as nat),
        n == 1 ==> r < 0x100,
        n == 2 ==> r < 0x1_0000,
        n == 4 ==> r < 0x1_0000_0000,
{
    reveal_with_fuel(le_at, 9);
    let b0 = p[off] as u64;
    if n == 1 {
        return b0;
    }
    let v2 = b0 + 256 * (p[off + 1] as u64);
    if n == 2 {
        return v2;
    }
    let v4 = v2 + 0x1_0000 * (p[off + 2] as u64 + 256 * (p[off + 3] as u64));
    assert(le_at(p@, off + 2, 2) == p@[off + 2] + 256 * p@[off + 3]);
    if n == 4 {
        return v4;
    }
    let hi = p[off + 4] as u64 + 256 * (p[off + 5] as u64) + 0x1_0000 * (p[off + 6] as u64 + 256 * (p[off + 7] as u64));
    assert(le_at(p@, off + 4, 4) == hi);
    v4 + 0x1_0000_0000 * hi
}

/// Offset of slot `idx`.
fn offset_of(instructions: &DecodeInstructions, idx: usize) -> (r: usize)
    requires
        idx < 24,
    ensures
        r == slot_offset(*instructions, idx as int),
        r <= 8 * idx,
{
    let mut off: usize = 0;
    let mut i: usize = 0;
    while i < idx
        invariant
            i <= idx < 24,
            off <= 8 * i,
            off == total_bytes(instructions.data_sizes@.take(i as int)),
        decreases idx - i,
    {
        assert(instructions.data_sizes@.take(i + 1).drop_last() =~= instructions.data_sizes@.take(i as int));
        off = off + instructions.data_sizes[i].byte_len();
        i = i + 1;
    }
    off
}

/// Reading one slot of an auxiliary payload.
pub trait Decode {
    /// What reading slot `idx` gives.
    spec fn decoded(&self, idx: int, instructions: DecodeInstructions) -> Result<DecodedInput, DecodeError>;

    /// Read slot `idx` as `decode_instructions` describe it.
    fn decode(&self, idx: usize, decode_instructions: &DecodeInstructions) -> (r: Result<DecodedInput, DecodeError>)
        ensures
            r == self.decoded(idx as int, *decode_instructions),
    ;
}

impl Decode for OtherInput {
    open spec fn decoded(&self, idx: int, instructions: DecodeInstructions) -> Result<DecodedInput, DecodeError> {
        decode_slot(self@, idx, instructions)
    }

    fn decode(&self, idx: usize, decode_instructions: &DecodeInstructions) -> (r: Result<DecodedInput, DecodeError>) {
        if idx >= 24 {
            return Err(DecodeError::OutOfBounds);
        }
        let off = offset_of(decode_instructions, idx);
        let size = decode_instructions.data_sizes[idx];
        let n = size.byte_len();
        if off + n > 24 {
            return Err(DecodeError::OutOfBounds);
        }
        let name = decode_instructions.fields[idx];
        let v = read_le(self, off, n);
        match (size, decode_instructions.data_types[idx]) {
            (DataSize::One, DataType::Unsigned) => Ok(DecodedInput::U8 { value: self[off], name }),
            (DataSize::Two, DataType::Unsigned) => Ok(DecodedInput::U16 { value: v as u16, name }),
            (DataSize::Four, DataType::Unsigned) => Ok(DecodedInput::U32 { value: v as u32, name }),
            (DataSize::Eight, DataType::Unsigned) => Ok(DecodedInput::U64 { value: v, name }),
            (DataSize::One, DataType::Signed) => {
                let value: i8 = if v >= 0x80 { (v as i16 - 0x100) as i8 } else { v as i8 };
                Ok(DecodedInput::I8 { value, name })
            },
            (DataSize::Two, DataType::Signed) => {
                let value: i16 = if v >= 0x8000 { (v as i32 - 0x1_0000) as i16 } else { v as i16 };
                Ok(DecodedInput::I16 { value, name })
            },
            (DataSize::Four, DataType::Signed) => {
                let value: i32 = if v >= 0x8000_0000 { (v as i64 - 0x1_0000_0000) as i32 } else { v as i32 };
                Ok(DecodedInput::I32 { value, name })
            },
            (DataSize::Eight, DataType::Signed) => {
                let value: i64 = if v >= 0x8000_0000_0000_0000 {
                    (v - 0x8000_0000_0000_0000) as i64 + i64::MIN
                } else {
                    v as i64
                };
                Ok(DecodedInput::I64 { value, name })
            },
            (DataSize::Four, DataType::Floating) => Ok(DecodedInput::F32 { bits: v as u32, name }),
            (DataSize::Eight, DataType::Floating) => Ok(DecodedInput::F64 { bits: v, name }),
            _ => Err(DecodeError::UnknownDataType),
        }
    }
}

/// Whether encoding `u` from `acc` described bytes on ends exactly at 24 bytes.
pub open spec fn fills(u: Seq<DataSize>, acc: nat) -> bool
    decreases u.len(),
{
    if acc >= 24 {
        acc == 24
    } else if u.len() == 0 {
        false
    } else {
        fills(u.drop_first(), acc + u[0].bytes())
    }
}

/// How many sizes of `u` the encoder takes, from `acc` described bytes on.
pub open spec fn consumed(u: Seq<DataSize>, acc: nat) -> nat
    decreases u.len(),
{
    if u.len() == 0 || acc >= 24 {
        0
    } else {
        1 + consumed(u.drop_first(), acc + u[0].bytes())
    }
}

/// A stream that holds the encoding of `u` from bit `pos` on decodes to the sizes the
/// encoder took.
proof fn lemma_decode_encoded(u: Seq<DataSize>, acc: nat, bits: Seq<bool>, pos: int)
    requires
        fills(u, acc),
        forall|j: int| 0 <= j < encode_sizes(u, acc).len() ==> at(bits, pos + j) == encode_sizes(u, acc)[j],
    ensures
        consumed(u, acc) <= u.len(),
        decode_sizes(bits, pos, acc) == Some(u.take(consumed(u, acc) as int)),
    decreases u.len(),
{
    if acc >= 24 {
        assert(u.take(0) =~= Seq::<DataSize>::empty());
    } else {
        let d = u[0];
        let enc = encode_sizes(u, acc);
        let rest = encode_sizes(u.drop_first(), acc + d.bytes());
        assert(enc == codeword(d.rank()) + rest);
        assert(at(bits, pos) == enc[0]);
        if d.rank() >= 1 {
            assert(at(bits, pos + 1) == enc[1]);
        }
        if d.rank() >= 2 {
            assert(at(bits, pos + 2) == enc[2]);
        }
        if d.rank() >= 3 {
            assert(at(bits, pos + 3) == enc[3]);
        }
        assert(next_size(bits, pos) == Some(d));
        assert forall|j: int| 0 <= j < rest.len() implies at(bits, pos + d.rank() + 1 + j) == rest[j] by {
            assert(enc[d.rank() + 1 + j] == rest[j]);
        }
        lemma_decode_encoded(u.drop_first(), acc + d.bytes(), bits, pos + d.rank() + 1);
        assert(seq![d] + u.drop_first().take(consumed(u.drop_first(), acc + d.bytes()) as int)
            =~= u.take(consumed(u, acc) as int));
    }
}

/// An encoding that ends at 24 bytes has at most as many bits as bytes left.
proof fn lemma_encoded_len(u: Seq<DataSize>, acc: nat)
    requires
        fills(u, acc),
    ensures
        acc + encode_sizes(u, acc).len() <= 24,
    decreases u.len(),
{
    if acc < 24 {
        lemma_encoded_len(u.drop_first(), acc + u[0].bytes());
    }
}

/// Ones from `acc` described bytes on reach 24 exactly, given enough of them.
proof fn lemma_ones_fill(u: Seq<DataSize>, acc: nat)
    requires
        acc <= 24 <= acc + u.len(),
        forall|i: int| 0 <= i < u.len() ==> u[i] == DataSize::One,
    ensures
        fills(u, acc),
    decreases u.len(),
{
    if acc < 24 {
        lemma_ones_fill(u.drop_first(), acc + 1);
    }
}

/// Each size adds at least one byte.
proof fn lemma_total_at_least_len(s: Seq<DataSize>)
    ensures
        total_bytes(s) >= s.len(),
    decreases s.len(),
{
    if s.len() > 0 {
        lemma_total_at_least_len(s.drop_last());
    }
}

/// A prefix has no more bytes than the whole.
proof fn lemma_total_prefix(s: Seq<DataSize>, i: int)
    requires
        0 <= i <= s.len(),
    ensures
        total_bytes(s.take(i)) <= total_bytes(s),
    decreases s.len() - i,
{
    if i < s.len() {
        assert(s.take(i + 1).drop_last() =~= s.take(i));
        lemma_total_prefix(s, i + 1);
    } else {
        assert(s.take(i) =~= s);
    }
}

/// The padded form of `s` fills 24 bytes from position `i` on, and the encoder takes
/// all of `s`.
proof fn lemma_padded_fills(s: Seq<DataSize>, i: int)
    requires
        s.len() <= 24,
        total_bytes(s) <= 24,
        0 <= i <= s.len(),
    ensures
        fills(padded_sizes(s).skip(i), total_bytes(s.take(i))),
        i + consumed(padded_sizes(s).skip(i), total_bytes(s.take(i))) >= s.len(),
    decreases s.len() - i,
{
    let p = padded_sizes(s);
    let acc = total_bytes(s.take(i));
    if i == s.len() {
        assert(s.take(i) =~= s);
        lemma_total_at_least_len(s);
        lemma_ones_fill(p.skip(i), acc);
    } else {
        assert(s.take(i + 1).drop_last() =~= s.take(i));
        lemma_total_prefix(s, i + 1);
        assert(acc < 24);
        assert(p.skip(i).drop_first() =~= p.skip(i + 1));
        lemma_padded_fills(s, i + 1);
    }
}

/// Bit `8 * j + k` of the packed stream is bit `k` of byte `j`.
proof fn lemma_stream_byte(bits: Seq<bool>, j: int)
    requires
        0 <= j < 3,
    ensures
        forall|k: int| 0 <= k < 8 ==> #[trigger] bit(stream_bytes(bits)[j], k) == at(bits, 8 * j + k),
{
    lemma_byte_of_bits(
        at(bits, 8 * j + 7), at(bits, 8 * j + 6), at(bits, 8 * j + 5), at(bits, 8 * j + 4),
        at(bits, 8 * j + 3), at(bits, 8 * j + 2), at(bits, 8 * j + 1), at(bits, 8 * j),
    );
}

/// Reading the bits of the packed stream gives the first 24 bits of the stream.
proof fn lemma_stream_bits(bits: Seq<bool>)
    ensures
        forall|i: int| 0 <= i < 24 ==> #[trigger] stream_bits(stream_bytes(bits).take(3))[i] == at(bits, i),
{
    assert forall|i: int| 0 <= i < 24 implies #[trigger] stream_bits(stream_bytes(bits).take(3))[i] == at(bits, i) by {
        lemma_stream_byte(bits, i / 8);
        assert(bit(stream_bytes(bits)[i / 8], i % 8) == at(bits, 8 * (i / 8) + i % 8));
    }
}

/// Packing a padded sequence of sizes that describes at most 24 bytes and unpacking
/// the bytes gives the same sizes.
pub proof fn lemma_sizes_round_trip(s: Seq<DataSize>, a: [DataSize; 24])
    requires
        s.len() <= 24,
        total_bytes(s) <= 24,
        a@ == padded_sizes(s),
    ensures
        <[DataSize; 24]>::unpacked(a.packed()) == Ok::<[DataSize; 24], PackingError>(a),
{
    let p = padded_sizes(s);
    assert(s.take(0) =~= Seq::<DataSize>::empty());
    assert(p.skip(0) =~= p);
    lemma_padded_fills(s, 0);
    let enc = encode_sizes(p, 0);
    lemma_encoded_len(p, 0);
    let bits = stream_bits(a.packed().take(3));
    lemma_stream_bits(enc);
    assert forall|j: int| 0 <= j < enc.len() implies at(bits, 0 + j) == enc[j] by {
        assert(bits[j] == at(enc, j));
    }
    lemma_decode_encoded(p, 0, bits, 0);
    let c = consumed(p, 0);
    assert(padded_sizes(p.take(c as int)) =~= p);
    lemma_array24(a, p);
}

/// Whether encoding `u` from bit `pos` on ends exactly at bit 24.
pub open spec fn fills_bits(u: Seq<DataType>, pos: nat) -> bool
    decreases u.len(),
{
    if pos >= 24 {
        pos == 24
    } else if u.len() == 0 {
        false
    } else {
        fills_bits(u.drop_first(), pos + u[0].rank() + 1)
    }
}

/// How many types of `u` the encoder takes, from bit `pos` on.
pub open spec fn consumed_types(u: Seq<DataType>, pos: nat) -> nat
    decreases u.len(),
{
    if u.len() == 0 || pos >= 24 {
        0
    } else {
        1 + consumed_types(u.drop_first(), pos + u[0].rank() + 1)
    }
}

/// Number of bits of the codewords of `s`.
pub open spec fn total_bits(s: Seq<DataType>) -> nat
    decreases s.len(),
{
    if s.len() == 0 {
        0
    } else {
        total_bits(s.drop_last()) + s.last().rank() + 1
    }
}

/// A stream that holds the encoding of `u` from bit `pos` on decodes to the types the
/// encoder took.
proof fn lemma_decode_encoded_types(u: Seq<DataType>, pos: nat, bits: Seq<bool>)
    requires
        fills_bits(u, pos),
        forall|j: int| 0 <= j < encode_types(u, pos).len() ==> at(bits, pos + j) == encode_types(u, pos)[j],
    ensures
        consumed_types(u, pos) <= u.len(),
        decode_types(bits, pos as int) == Some(u.take(consumed_types(u, pos) as int)),
    decreases u.len(),
{
    if pos >= 24 {
        assert(u.take(0) =~= Seq::<DataType>::empty());
    } else {
        let t = u[0];
        let enc = encode_types(u, pos);
        let rest = encode_types(u.drop_first(), pos + t.rank() + 1);
        assert(enc == codeword(t.rank()) + rest);
        assert(at(bits, pos as int) == enc[0]);
        if t.rank() >= 1 {
            assert(at(bits, pos as int + 1) == enc[1]);
        }
        if t.rank() >= 2 {
            assert(at(bits, pos as int + 2) == enc[2]);
        }
        assert(next_type(bits, pos as int) == Some(t));
        assert forall|j: int| 0 <= j < rest.len() implies at(bits, pos + t.rank() + 1 + j) == rest[j] by {
            assert(enc[t.rank() + 1 + j] == rest[j]);
        }
        lemma_decode_encoded_types(u.drop_first(), pos + t.rank() + 1, bits);
        assert(seq![t] + u.drop_first().take(consumed_types(u.drop_first(), pos + t.rank() + 1) as int)
            =~= u.take(consumed_types(u, pos) as int));
    }
}

/// An encoding that ends at bit 24 has at most as many bits as are left.
proof fn lemma_encoded_types_len(u: Seq<DataType>, pos: nat)
    requires
        fills_bits(u, pos),
    ensures
        pos + encode_types(u, pos).len() <= 24,
    decreases u.len(),
{
    if pos < 24 {
        lemma_encoded_types_len(u.drop_first(), pos + u[0].rank() + 1);
    }
}

/// Unsigned types from bit `pos` on reach bit 24 exactly, given enough of them.
proof fn lemma_unsigned_fill(u: Seq<DataType>, pos: nat)
    requires
        pos <= 24 <= pos + u.len(),
        forall|i: int| 0 <= i < u.len() ==> u[i] == DataType::Unsigned,
    ensures
        fills_bits(u, pos),
    decreases u.len(),
{
    if pos < 24 {
        lemma_unsigned_fill(u.drop_first(), pos + 1);
    }
}

/// Each type takes at least one bit.
proof fn lemma_bits_at_least_len(s: Seq<DataType>)
    ensures
        total_bits(s) >= s.len(),
    decreases s.len(),
{
    if s.len() > 0 {
        lemma_bits_at_least_len(s.drop_last());
    }
}

/// A prefix takes no more bits than the whole.
proof fn lemma_bits_prefix(s: Seq<DataType>, i: int)
    requires
        0 <= i <= s.len(),
    ensures
        total_bits(s.take(i)) <= total_bits(s),
    decreases s.len() - i,
{
    if i < s.len() {
        assert(s.take(i + 1).drop_last() =~= s.take(i));
        lemma_bits_prefix(s, i + 1);
    } else {
        assert(s.take(i) =~= s);
    }
}

/// The padded form of `s` fills 24 bits from position `i` on, and the encoder takes
/// all of `s`.
proof fn lemma_padded_fills_bits(s: Seq<DataType>, i: int)
    requires
        s.len() <= 24,
        total_bits(s) <= 24,
        0 <= i <= s.len(),
    ensures
        fills_bits(padded_types(s).skip(i), total_bits(s.take(i))),
        i + consumed_types(padded_types(s).skip(i), total_bits(s.take(i))) >= s.len(),
    decreases s.len() - i,
{
    let p = padded_types(s);
    let pos = total_bits(s.take(i));
    if i == s.len() {
        assert(s.take(i) =~= s);
        lemma_bits_at_least_len(s);
        lemma_unsigned_fill(p.skip(i), pos);
    } else {
        assert(s.take(i + 1).drop_last() =~= s.take(i));
        lemma_bits_prefix(s, i + 1);
        assert(pos < 24);
        assert(p.skip(i).drop_first() =~= p.skip(i + 1));
        lemma_padded_fills_bits(s, i + 1);
    }
}

/// Packing a padded sequence of types whose codewords take at most 24 bits and
/// unpacking the bytes gives the same types.
pub proof fn lemma_types_round_trip(s: Seq<DataType>, a: [DataType; 24])
    requires
        s.len() <= 24,
        total_bits(s) <= 24,
        a@ == padded_types(s),
    ensures
        <[DataType; 24]>::unpacked(a.packed()) == Ok::<[DataType; 24], PackingError>(a),
{
    let p = padded_types(s);
    assert(s.take(0) =~= Seq::<DataType>::empty());
    assert(p.skip(0) =~= p);
    lemma_padded_fills_bits(s, 0);
    let enc = encode_types(p, 0);
    lemma_encoded_types_len(p, 0);
    let bits = stream_bits(a.packed().take(3));
    lemma_stream_bits(enc);
    assert forall|j: int| 0 <= j < enc.len() implies at(bits, 0 + j) == enc[j] by {
        assert(bits[j] == at(enc, j));
    }
    lemma_decode_encoded_types(p, 0, bits);
    let c = consumed_types(p, 0);
    assert(padded_types(p.take(c as int)) =~= p);
    lemma_array24(a, p);
}

} // verus!
