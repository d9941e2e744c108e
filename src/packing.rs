//! Packing and unpacking of values to and from byte buffers.
use vstd::prelude::*;

verus! {

/// Error from packing or unpacking data.
#[derive(Clone, Copy, Debug, PartialEq, Eq, Structural)]
pub enum PackingError {
    /// The buffer is shorter than the packed form.
    InvalidBufferSize,
    /// The bytes do not follow the encoding (a tag stream ends in the middle of a code).
    InvalidEncoding,
}

/// A value with a fixed-size packed form.
pub trait Pack: Sized {
    /// Number of bytes of the packed form.
    spec fn packed_len() -> nat;

    /// The packed form of this value.
    spec fn packed(&self) -> Seq<u8>;

    /// Pack the value into the front of `buffer`; the rest of the buffer is left
    /// as it was. A buffer that is too short is left untouched.
    fn pack(self, buffer: &mut [u8]) -> (r: Result<(), PackingError>)
        ensures
            old(buffer)@.len() < Self::packed_len() ==> r == Err::<(), PackingError>(
                PackingError::InvalidBufferSize,
            ) && final(buffer)@ == old(buffer)@,
            old(buffer)@.len() >= Self::packed_len() ==> r is Ok && final(buffer)@ == self.packed()
                + old(buffer)@.skip(Self::packed_len() as int),
    ;
}

/// A value that can be read back from bytes.
pub trait Unpack: Sized {
    /// What unpacking the given bytes yields.
    spec fn unpacked(bytes: Seq<u8>) -> Result<Self, PackingError>;

    /// Unpack a value from the front of `buffer`.
    fn unpack(buffer: &[u8]) -> (r: Result<Self, PackingError>)
        ensures
            r == Self::unpacked(buffer@),
    ;
}

/// Copy `src` into `buffer` starting at `off`.
pub fn copy_into(buffer: &mut [u8], off: usize, src: &[u8])
    requires
        off + src@.len() <= old(buffer)@.len(),
    ensures
        final(buffer)@ == old(buffer)@.take(off as int) + src@ + old(buffer)@.skip(
            off + src@.len(),
        ),
{
    let ghost start = buffer@;
    let n: usize = buffer.len();
    let mut i: usize = 0;
    while i < src.len()
        invariant
            i <= src@.len(),
            off + src@.len() <= start.len(),
            start.len() == n,
            buffer@.len() == start.len(),
            forall|j: int| 0 <= j < off ==> buffer@[j] == start[j],
            forall|j: int| 0 <= j < i ==> buffer@[off + j] == src@[j],
            forall|j: int| off + i <= j < start.len() ==> buffer@[j] == start[j],
        decreases src@.len() - i,
    {
        buffer[off + i] = src[i];
        i = i + 1;
    }
    assert(buffer@ =~= start.take(off as int) + src@ + start.skip(off + src@.len()));
}

} // verus!

verus! {

/// Append the bytes of `src` to `v`.
pub fn append_bytes(v: &mut Vec<u8>, src: &[u8])
    ensures
        final(v)@ == old(v)@ + src@,
{
    let ghost start = v@;
    let mut i: usize = 0;
    while i < src.len()
        invariant
            i <= src@.len(),
            v@ == start + src@.take(i as int),
        decreases src@.len() - i,
    {
        v.push(src[i]);
        i = i + 1;
        assert(src@.take(i as int) =~= src@.take(i - 1) + seq![src@[i - 1]]);
    }
    assert(src@.take(i as int) =~= src@);
}

/// Read `N` bytes of `buffer` starting at `off` into an array.
pub fn read_array<const N: usize>(buffer: &[u8], off: usize) -> (r: [u8; N])
    requires
        off + N <= buffer@.len(),
    ensures
        r@ == buffer@.subrange(off as int, off + N),
{
    let mut r = [0u8; N];
    let n: usize = buffer.len();
    let mut i: usize = 0;
    while i < N
        invariant
            i <= N,
            n == buffer@.len(),
            off + N <= buffer@.len(),
            r@.len() == N,
            forall|j: int| 0 <= j < i ==> r@[j] == buffer@[off + j],
        decreases N - i,
    {
        r[i] = buffer[off + i];
        i = i + 1;
    }
    assert(r@ =~= buffer@.subrange(off as int, off + N));
    r
}

/// The array of 24 items whose contents are the first 24 items of `s`.
pub open spec fn array24<T>(s: Seq<T>) -> [T; 24] {
    [s[0], s[1], s[2], s[3], s[4], s[5], s[6], s[7], s[8], s[9], s[10], s[11], s[12], s[13], s[14], s[15], s[16], s[17], s[18], s[19], s[20], s[21], s[22], s[23]]
}

/// The array of 10 items whose contents are the first 10 items of `s`.
pub open spec fn array10<T>(s: Seq<T>) -> [T; 10] {
    [s[0], s[1], s[2], s[3], s[4], s[5], s[6], s[7], s[8], s[9]]
}

/// `array24` holds the 24 items it was given.
pub proof fn lemma_array24_view<T>(s: Seq<T>)
    requires
        s.len() == 24,
    ensures
        array24(s)@ == s,
{
    assert(array24(s)@ =~= s);
}

/// An array of 24 items is `array24` of its items.
pub proof fn lemma_array24<T>(a: [T; 24], s: Seq<T>)
    requires
        a@ == s,
    ensures
        array24(s) == a,
{
    assert(array24(s)@ =~= s);
    assert(array24(s) =~= a);
}

/// An array of 10 items is `array10` of its items.
pub proof fn lemma_array10<T>(a: [T; 10], s: Seq<T>)
    requires
        a@ == s,
    ensures
        array10(s) == a,
{
    assert(array10(s)@ =~= s);
    assert(array10(s) =~= a);
}

} // verus!
