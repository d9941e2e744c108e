//! Letter keys with shift, enter and backspace.
use vstd::prelude::*;
use crate::bits::{bit, byte_of, lemma_bits_of_byte, lemma_byte_of_bits, lemma_low_bits_clear, pack_flags, test_bit};
use crate::packing::{Pack, PackingError, Unpack};

verus! {

/// The letter keys a to z with shift, enter and backspace; packed into four bytes, `shift` in the highest bit.
#[derive(Clone, Copy, Debug, PartialEq, Eq, Structural)]
pub struct Keypad {
    /// Shift.
    pub shift: bool,
    /// Enter.
    pub enter: bool,
    /// Backspace.
    pub backspace: bool,
    pub a: bool,
    pub b: bool,
    pub c: bool,
    pub d: bool,
    pub e: bool,
    pub f: bool,
    pub g: bool,
    pub h: bool,
    pub i: bool,
    pub j: bool,
    pub k: bool,
    pub l: bool,
    pub m: bool,
    pub n: bool,
    pub o: bool,
    pub p: bool,
    pub q: bool,
    pub r: bool,
    pub s: bool,
    pub t: bool,
    pub u: bool,
    pub v: bool,
    pub w: bool,
    pub x: bool,
    pub y: bool,
    pub z: bool,
}

impl Keypad {
    /// No key asserted.
    pub open spec fn none() -> Keypad {
        Keypad {
            shift: false,
            enter: false,
            backspace: false,
            a: false,
            b: false,
            c: false,
            d: false,
            e: false,
            f: false,
            g: false,
            h: false,
            i: false,
            j: false,
            k: false,
            l: false,
            m: false,
            n: false,
            o: false,
            p: false,
            q: false,
            r: false,
            s: false,
            t: false,
            u: false,
            v: false,
            w: false,
            x: false,
            y: false,
            z: false,
        }
    }

    /// Each key asserted in either operand.
    pub open spec fn or(self, rhs: Keypad) -> Keypad {
        Keypad {
            shift: self.shift || rhs.shift,
            enter: self.enter || rhs.enter,
            backspace: self.backspace || rhs.backspace,
            a: self.a || rhs.a,
            b: self.b || rhs.b,
            c: self.c || rhs.c,
            d: self.d || rhs.d,
            e: self.e || rhs.e,
            f: self.f || rhs.f,
            g: self.g || rhs.g,
            h: self.h || rhs.h,
            i: self.i || rhs.i,
            j: self.j || rhs.j,
            k: self.k || rhs.k,
            l: self.l || rhs.l,
            m: self.m || rhs.m,
            n: self.n || rhs.n,
            o: self.o || rhs.o,
            p: self.p || rhs.p,
            q: self.q || rhs.q,
            r: self.r || rhs.r,
            s: self.s || rhs.s,
            t: self.t || rhs.t,
            u: self.u || rhs.u,
            v: self.v || rhs.v,
            w: self.w || rhs.w,
            x: self.x || rhs.x,
            y: self.y || rhs.y,
            z: self.z || rhs.z,
        }
    }

    /// The keys held in 4 packed bytes.
    pub open spec fn from_bytes(b0: u8, b1: u8, b2: u8, b3: u8) -> Keypad {
        Keypad {
            shift: bit(b0, 7),
            enter: bit(b3, 4),
            backspace: bit(b3, 3),
            a: bit(b0, 6),
            b: bit(b0, 5),
            c: bit(b0, 4),
            d: bit(b0, 3),
            e: bit(b0, 2),
            f: bit(b0, 1),
            g: bit(b0, 0),
            h: bit(b1, 7),
            i: bit(b1, 6),
            j: bit(b1, 5),
            k: bit(b1, 4),
            l: bit(b1, 3),
            m: bit(b1, 2),
            n: bit(b1, 1),
            o: bit(b1, 0),
            p: bit(b2, 7),
            q: bit(b2, 6),
            r: bit(b2, 5),
            s: bit(b2, 4),
            t: bit(b2, 3),
            u: bit(b2, 2),
            v: bit(b2, 1),
            w: bit(b2, 0),
            x: bit(b3, 7),
            y: bit(b3, 6),
            z: bit(b3, 5),
        }
    }

    /// Packed byte `idx`.
    pub open spec fn packed_byte(&self, idx: int) -> u8 {
        if idx == 0 {
            byte_of(self.shift, self.a, self.b, self.c, self.d, self.e, self.f, self.g)
        } else if idx == 1 {
            byte_of(self.h, self.i, self.j, self.k, self.l, self.m, self.n, self.o)
        } else if idx == 2 {
            byte_of(self.p, self.q, self.r, self.s, self.t, self.u, self.v, self.w)
        } else {
            byte_of(self.x, self.y, self.z, self.enter, self.backspace, false, false, false)
        }
    }

    fn byte_0(&self) -> (r: u8)
        ensures
            r == self.packed_byte(0),
    {
        pack_flags(self.shift, self.a, self.b, self.c, self.d, self.e, self.f, self.g)
    }

    fn byte_1(&self) -> (r: u8)
        ensures
            r == self.packed_byte(1),
    {
        pack_flags(self.h, self.i, self.j, self.k, self.l, self.m, self.n, self.o)
    }

    fn byte_2(&self) -> (r: u8)
        ensures
            r == self.packed_byte(2),
    {
        pack_flags(self.p, self.q, self.r, self.s, self.t, self.u, self.v, self.w)
    }

    fn byte_3(&self) -> (r: u8)
        ensures
            r == self.packed_byte(3),
    {
        pack_flags(self.x, self.y, self.z, self.enter, self.backspace, false, false, false)
    }

    /// The 4 packed bytes.
    pub fn to_bytes(&self) -> (r: [u8; 4])
        ensures
            r@ == self.packed(),
    {
        let b0 = self.byte_0();
        let b1 = self.byte_1();
        let b2 = self.byte_2();
        let b3 = self.byte_3();
        let r = [b0, b1, b2, b3];
        assert(r@[0] == self.packed()[0]);
        assert(r@[1] == self.packed()[1]);
        assert(r@[2] == self.packed()[2]);
        assert(r@[3] == self.packed()[3]);
        assert(r@ =~= self.packed());
        r
    }

    /// Read the keys from the 4 bytes of `buffer` that start at `off`.
    pub fn read_from(buffer: &[u8], off: usize) -> (r: Keypad)
        requires
            off + 4 <= buffer@.len(),
        ensures
            r == Keypad::from_bytes(buffer@[off + 0], buffer@[off + 1], buffer@[off + 2], buffer@[off + 3]),
    {
        let b0 = buffer[off + 0];
        let b1 = buffer[off + 1];
        let b2 = buffer[off + 2];
        let b3 = buffer[off + 3];
        Keypad {
            shift: test_bit(b0, 7),
            enter: test_bit(b3, 4),
            backspace: test_bit(b3, 3),
            a: test_bit(b0, 6),
            b: test_bit(b0, 5),
            c: test_bit(b0, 4),
            d: test_bit(b0, 3),
            e: test_bit(b0, 2),
            f: test_bit(b0, 1),
            g: test_bit(b0, 0),
            h: test_bit(b1, 7),
            i: test_bit(b1, 6),
            j: test_bit(b1, 5),
            k: test_bit(b1, 4),
            l: test_bit(b1, 3),
            m: test_bit(b1, 2),
            n: test_bit(b1, 1),
            o: test_bit(b1, 0),
            p: test_bit(b2, 7),
            q: test_bit(b2, 6),
            r: test_bit(b2, 5),
            s: test_bit(b2, 4),
            t: test_bit(b2, 3),
            u: test_bit(b2, 2),
            v: test_bit(b2, 1),
            w: test_bit(b2, 0),
            x: test_bit(b3, 7),
            y: test_bit(b3, 6),
            z: test_bit(b3, 5),
        }
    }

    /// Each key asserted in either operand.
    pub fn merge(self, rhs: Keypad) -> (r: Keypad)
        ensures
            r == self.or(rhs),
    {
        Keypad {
            shift: self.shift || rhs.shift,
            enter: self.enter || rhs.enter,
            backspace: self.backspace || rhs.backspace,
            a: self.a || rhs.a,
            b: self.b || rhs.b,
            c: self.c || rhs.c,
            d: self.d || rhs.d,
            e: self.e || rhs.e,
            f: self.f || rhs.f,
            g: self.g || rhs.g,
            h: self.h || rhs.h,
            i: self.i || rhs.i,
            j: self.j || rhs.j,
            k: self.k || rhs.k,
            l: self.l || rhs.l,
            m: self.m || rhs.m,
            n: self.n || rhs.n,
            o: self.o || rhs.o,
            p: self.p || rhs.p,
            q: self.q || rhs.q,
            r: self.r || rhs.r,
            s: self.s || rhs.s,
            t: self.t || rhs.t,
            u: self.u || rhs.u,
            v: self.v || rhs.v,
            w: self.w || rhs.w,
            x: self.x || rhs.x,
            y: self.y || rhs.y,
            z: self.z || rhs.z,
        }
    }

    proof fn lemma_byte_0(self)
        ensures
            Keypad::from_bytes(self.packed_byte(0), self.packed_byte(1), self.packed_byte(2), self.packed_byte(3)).shift == self.shift,
            Keypad::from_bytes(self.packed_byte(0), self.packed_byte(1), self.packed_byte(2), self.packed_byte(3)).a == self.a,
            Keypad::from_bytes(self.packed_byte(0), self.packed_byte(1), self.packed_byte(2), self.packed_byte(3)).b == self.b,
            Keypad::from_bytes(self.packed_byte(0), self.packed_byte(1), self.packed_byte(2), self.packed_byte(3)).c == self.c,
            Keypad::from_bytes(self.packed_byte(0), self.packed_byte(1), self.packed_byte(2), self.packed_byte(3)).d == self.d,
            Keypad::from_bytes(self.packed_byte(0), self.packed_byte(1), self.packed_byte(2), self.packed_byte(3)).e == self.e,
            Keypad::from_bytes(self.packed_byte(0), self.packed_byte(1), self.packed_byte(2), self.packed_byte(3)).f == self.f,
            Keypad::from_bytes(self.packed_byte(0), self.packed_byte(1), self.packed_byte(2), self.packed_byte(3)).g == self.g,
    {
        lemma_byte_of_bits(self.shift, self.a, self.b, self.c, self.d, self.e, self.f, self.g);
    }

    proof fn lemma_byte_1(self)
        ensures
            Keypad::from_bytes(self.packed_byte(0), self.packed_byte(1), self.packed_byte(2), self.packed_byte(3)).h == self.h,
            Keypad::from_bytes(self.packed_byte(0), self.packed_byte(1), self.packed_byte(2), self.packed_byte(3)).i == self.i,
            Keypad::from_bytes(self.packed_byte(0), self.packed_byte(1), self.packed_byte(2), self.packed_byte(3)).j == self.j,
            Keypad::from_bytes(self.packed_byte(0), self.packed_byte(1), self.packed_byte(2), self.packed_byte(3)).k == self.k,
            Keypad::from_bytes(self.packed_byte(0), self.packed_byte(1), self.packed_byte(2), self.packed_byte(3)).l == self.l,
            Keypad::from_bytes(self.packed_byte(0), self.packed_byte(1), self.packed_byte(2), self.packed_byte(3)).m == self.m,
            Keypad::from_bytes(self.packed_byte(0), self.packed_byte(1), self.packed_byte(2), self.packed_byte(3)).n == self.n,
            Keypad::from_bytes(self.packed_byte(0), self.packed_byte(1), self.packed_byte(2), self.packed_byte(3)).o == self.o,
    {
        lemma_byte_of_bits(self.h, self.i, self.j, self.k, self.l, self.m, self.n, self.o);
    }

    proof fn lemma_byte_2(self)
        ensures
            Keypad::from_bytes(self.packed_byte(0), self.packed_byte(1), self.packed_byte(2), self.packed_byte(3)).p == self.p,
            Keypad::from_bytes(self.packed_byte(0), self.packed_byte(1), self.packed_byte(2), self.packed_byte(3)).q == self.q,
            Keypad::from_bytes(self.packed_byte(0), self.packed_byte(1), self.packed_byte(2), self.packed_byte(3)).r == self.r,
            Keypad::from_bytes(self.packed_byte(0), self.packed_byte(1), self.packed_byte(2), self.packed_byte(3)).s == self.s,
            Keypad::from_bytes(self.packed_byte(0), self.packed_byte(1), self.packed_byte(2), self.packed_byte(3)).t == self.t,
            Keypad::from_bytes(self.packed_byte(0), self.packed_byte(1), self.packed_byte(2), self.packed_byte(3)).u == self.u,
            Keypad::from_bytes(self.packed_byte(0), self.packed_byte(1), self.packed_byte(2), self.packed_byte(3)).v == self.v,
            Keypad::from_bytes(self.packed_byte(0), self.packed_byte(1), self.packed_byte(2), self.packed_byte(3)).w == self.w,
    {
        lemma_byte_of_bits(self.p, self.q, self.r, self.s, self.t, self.u, self.v, self.w);
    }

    proof fn lemma_byte_3(self)
        ensures
            Keypad::from_bytes(self.packed_byte(0), self.packed_byte(1), self.packed_byte(2), self.packed_byte(3)).x == self.x,
            Keypad::from_bytes(self.packed_byte(0), self.packed_byte(1), self.packed_byte(2), self.packed_byte(3)).y == self.y,
            Keypad::from_bytes(self.packed_byte(0), self.packed_byte(1), self.packed_byte(2), self.packed_byte(3)).z == self.z,
            Keypad::from_bytes(self.packed_byte(0), self.packed_byte(1), self.packed_byte(2), self.packed_byte(3)).enter == self.enter,
            Keypad::from_bytes(self.packed_byte(0), self.packed_byte(1), self.packed_byte(2), self.packed_byte(3)).backspace == self.backspace,
    {
        lemma_byte_of_bits(self.x, self.y, self.z, self.enter, self.backspace, false, false, false);
    }

    /// Unpacking the packed bytes gives the keys back.
    pub proof fn lemma_round_trip(self)
        ensures
            Keypad::from_bytes(self.packed_byte(0), self.packed_byte(1), self.packed_byte(2), self.packed_byte(3)) == self,
    {
        self.lemma_byte_0();
        self.lemma_byte_1();
        self.lemma_byte_2();
        self.lemma_byte_3();
    }

    proof fn lemma_repack_0(b0: u8, b1: u8, b2: u8, b3: u8)
        ensures
            Keypad::from_bytes(b0, b1, b2, b3).packed_byte(0) == b0,
    {
        lemma_bits_of_byte(b0);
    }

    proof fn lemma_repack_1(b0: u8, b1: u8, b2: u8, b3: u8)
        ensures
            Keypad::from_bytes(b0, b1, b2, b3).packed_byte(1) == b1,
    {
        lemma_bits_of_byte(b1);
    }

    proof fn lemma_repack_2(b0: u8, b1: u8, b2: u8, b3: u8)
        ensures
            Keypad::from_bytes(b0, b1, b2, b3).packed_byte(2) == b2,
    {
        lemma_bits_of_byte(b2);
    }

    proof fn lemma_repack_3(b0: u8, b1: u8, b2: u8, b3: u8)
        requires
            b3 % 8 == 0,
        ensures
            Keypad::from_bytes(b0, b1, b2, b3).packed_byte(3) == b3,
    {
        lemma_bits_of_byte(b3);
        lemma_low_bits_clear(b3);
    }

    /// Packing what unpacking bytes gives yields the bytes again, where the bits
    /// that hold no key are clear.
    pub proof fn lemma_unpack_round_trip(b0: u8, b1: u8, b2: u8, b3: u8)
        requires
            b3 % 8 == 0,
        ensures
            Keypad::from_bytes(b0, b1, b2, b3).packed_byte(0) == b0,
            Keypad::from_bytes(b0, b1, b2, b3).packed_byte(1) == b1,
            Keypad::from_bytes(b0, b1, b2, b3).packed_byte(2) == b2,
            Keypad::from_bytes(b0, b1, b2, b3).packed_byte(3) == b3,
    {
        Keypad::lemma_repack_0(b0, b1, b2, b3);
        Keypad::lemma_repack_1(b0, b1, b2, b3);
        Keypad::lemma_repack_2(b0, b1, b2, b3);
        Keypad::lemma_repack_3(b0, b1, b2, b3);
    }

    /// Merging into the empty state gives the keys back.
    pub proof fn lemma_none_or(self)
        ensures
            Keypad::none().or(self) == self,
    {
    }
}

impl Default for Keypad {
    fn default() -> (r: Keypad)
        ensures
            r == Keypad::none(),
    {
        Keypad {
            shift: false,
            enter: false,
            backspace: false,
            a: false,
            b: false,
            c: false,
            d: false,
            e: false,
            f: false,
            g: false,
            h: false,
            i: false,
            j: false,
            k: false,
            l: false,
            m: false,
            n: false,
            o: false,
            p: false,
            q: false,
            r: false,
            s: false,
            t: false,
            u: false,
            v: false,
            w: false,
            x: false,
            y: false,
            z: false,
        }
    }
}

impl core::ops::BitOr for Keypad {
    type Output = Keypad;

    fn bitor(self, rhs: Keypad) -> Keypad {
        self.merge(rhs)
    }
}

impl vstd::std_specs::ops::BitOrSpecImpl for Keypad {
    open spec fn obeys_bitor_spec() -> bool {
        true
    }

    open spec fn bitor_req(self, rhs: Keypad) -> bool {
        true
    }

    open spec fn bitor_spec(self, rhs: Keypad) -> Keypad {
        self.or(rhs)
    }
}

impl core::ops::BitOrAssign for Keypad {
    fn bitor_assign(&mut self, rhs: Keypad) {
        *self = self.merge(rhs);
    }
}

impl Pack for Keypad {
    open spec fn packed_len() -> nat {
        4
    }

    open spec fn packed(&self) -> Seq<u8> {
        Seq::new(4, |i: int| self.packed_byte(i))
    }

    fn pack(self, buffer: &mut [u8]) -> (r: Result<(), PackingError>) {
        if buffer.len() < 4 {
            return Err(PackingError::InvalidBufferSize);
        }
        let bytes = self.to_bytes();
        crate::packing::copy_into(buffer, 0, &bytes);
        assert(final(buffer)@ =~= self.packed() + old(buffer)@.skip(4));
        Ok(())
    }
}

impl Unpack for Keypad {
    open spec fn unpacked(bytes: Seq<u8>) -> Result<Keypad, PackingError> {
        if bytes.len() < 4 {
            Err(PackingError::InvalidBufferSize)
        } else {
            Ok(Keypad::from_bytes(bytes[0], bytes[1], bytes[2], bytes[3]))
        }
    }

    fn unpack(buffer: &[u8]) -> (r: Result<Keypad, PackingError>) {
        if buffer.len() < 4 {
            return Err(PackingError::InvalidBufferSize);
        }
        Ok(Keypad::read_from(buffer, 0))
    }
}

} // verus!
