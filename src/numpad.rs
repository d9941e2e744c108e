//! Numeric keys 0 to 9.
use vstd::prelude::*;
use crate::bits::{bit, byte_of, lemma_bits_of_byte, lemma_byte_of_bits, lemma_low_bits_clear, pack_flags, test_bit};
use crate::packing::{Pack, PackingError, Unpack};

verus! {

/// The numeric keys 0 to 9; packed into two bytes, `zero` in the highest bit.
#[derive(Clone, Copy, Debug, PartialEq, Eq, Structural)]
pub struct Numpad {
    pub zero: bool,
    pub one: bool,
    pub two: bool,
    pub three: bool,
    pub four: bool,
    pub five: bool,
    pub six: bool,
    pub seven: bool,
    pub eight: bool,
    pub nine: bool,
}

impl Numpad {
    /// No key asserted.
    pub open spec fn none() -> Numpad {
        Numpad {
            zero: false,
            one: false,
            two: false,
            three: false,
            four: false,
            five: false,
            six: false,
            seven: false,
            eight: false,
            nine: false,
        }
    }

    /// Each key asserted in either operand.
    pub open spec fn or(self, rhs: Numpad) -> Numpad {
        Numpad {
            zero: self.zero || rhs.zero,
            one: self.one || rhs.one,
            two: self.two || rhs.two,
            three: self.three || rhs.three,
            four: self.four || rhs.four,
            five: self.five || rhs.five,
            six: self.six || rhs.six,
            seven: self.seven || rhs.seven,
            eight: self.eight || rhs.eight,
            nine: self.nine || rhs.nine,
        }
    }

    /// The keys held in 2 packed bytes.
    pub open spec fn from_bytes(b0: u8, b1: u8) -> Numpad {
        Numpad {
            zero: bit(b0, 7),
            one: bit(b0, 6),
            two: bit(b0, 5),
            three: bit(b0, 4),
            four: bit(b0, 3),
            five: bit(b0, 2),
            six: bit(b0, 1),
            seven: bit(b0, 0),
            eight: bit(b1, 7),
            nine: bit(b1, 6),
        }
    }

    /// Packed byte `idx`.
    pub open spec fn packed_byte(&self, idx: int) -> u8 {
        if idx == 0 {
            byte_of(self.zero, self.one, self.two, self.three, self.four, self.five, self.six, self.seven)
        } else {
            byte_of(self.eight, self.nine, false, false, false, false, false, false)
        }
    }

    fn byte_0(&self) -> (r: u8)
        ensures
            r == self.packed_byte(0),
    {
        pack_flags(self.zero, self.one, self.two, self.three, self.four, self.five, self.six, self.seven)
    }

    fn byte_1(&self) -> (r: u8)
        ensures
            r == self.packed_byte(1),
    {
        pack_flags(self.eight, self.nine, false, false, false, false, false, false)
    }

    /// The 2 packed bytes.
    pub fn to_bytes(&self) -> (r: [u8; 2])
        ensures
            r@ == self.packed(),
    {
        let b0 = self.byte_0();
        let b1 = self.byte_1();
        let r = [b0, b1];
        assert(r@[0] == self.packed()[0]);
        assert(r@[1] == self.packed()[1]);
        assert(r@ =~= self.packed());
        r
    }

    /// Read the keys from the 2 bytes of `buffer` that start at `off`.
    pub fn read_from(buffer: &[u8], off: usize) -> (r: Numpad)
        requires
            off + 2 <= buffer@.len(),
        ensures
            r == Numpad::from_bytes(buffer@[off + 0], buffer@[off + 1]),
    {
        let b0 = buffer[off + 0];
        let b1 = buffer[off + 1];
        Numpad {
            zero: test_bit(b0, 7),
            one: test_bit(b0, 6),
            two: test_bit(b0, 5),
            three: test_bit(b0, 4),
            four: test_bit(b0, 3),
            five: test_bit(b0, 2),
            six: test_bit(b0, 1),
            seven: test_bit(b0, 0),
            eight: test_bit(b1, 7),
            nine: test_bit(b1, 6),
        }
    }

    /// Each key asserted in either operand.
    pub fn merge(self, rhs: Numpad) -> (r: Numpad)
        ensures
            r == self.or(rhs),
    {
        Numpad {
            zero: self.zero || rhs.zero,
            one: self.one || rhs.one,
            two: self.two || rhs.two,
            three: self.three || rhs.three,
            four: self.four || rhs.four,
            five: self.five || rhs.five,
            six: self.six || rhs.six,
            seven: self.seven || rhs.seven,
            eight: self.eight || rhs.eight,
            nine: self.nine || rhs.nine,
        }
    }

    proof fn lemma_byte_0(self)
        ensures
            Numpad::from_bytes(self.packed_byte(0), self.packed_byte(1)).zero == self.zero,
            Numpad::from_bytes(self.packed_byte(0), self.packed_byte(1)).one == self.one,
            Numpad::from_bytes(self.packed_byte(0), self.packed_byte(1)).two == self.two,
            Numpad::from_bytes(self.packed_byte(0), self.packed_byte(1)).three == self.three,
            Numpad::from_bytes(self.packed_byte(0), self.packed_byte(1)).four == self.four,
            Numpad::from_bytes(self.packed_byte(0), self.packed_byte(1)).five == self.five,
            Numpad::from_bytes(self.packed_byte(0), self.packed_byte(1)).six == self.six,
            Numpad::from_bytes(self.packed_byte(0), self.packed_byte(1)).seven == self.seven,
    {
        lemma_byte_of_bits(self.zero, self.one, self.two, self.three, self.four, self.five, self.six, self.seven);
    }

    proof fn lemma_byte_1(self)
        ensures
            Numpad::from_bytes(self.packed_byte(0), self.packed_byte(1)).eight == self.eight,
            Numpad::from_bytes(self.packed_byte(0), self.packed_byte(1)).nine == self.nine,
    {
        lemma_byte_of_bits(self.eight, self.nine, false, false, false, false, false, false);
    }

    /// Unpacking the packed bytes gives the keys back.
    pub proof fn lemma_round_trip(self)
        ensures
            Numpad::from_bytes(self.packed_byte(0), self.packed_byte(1)) == self,
    {
        self.lemma_byte_0();
        self.lemma_byte_1();
    }

    proof fn lemma_repack_0(b0: u8, b1: u8)
        ensures
            Numpad::from_bytes(b0, b1).packed_byte(0) == b0,
    {
        lemma_bits_of_byte(b0);
    }

    proof fn lemma_repack_1(b0: u8, b1: u8)
        requires
            b1 % 64 == 0,
        ensures
            Numpad::from_bytes(b0, b1).packed_byte(1) == b1,
    {
        lemma_bits_of_byte(b1);
        lemma_low_bits_clear(b1);
    }

    /// Packing what unpacking bytes gives yields the bytes again, where the bits
    /// that hold no key are clear.
    pub proof fn lemma_unpack_round_trip(b0: u8, b1: u8)
        requires
            b1 % 64 == 0,
        ensures
            Numpad::from_bytes(b0, b1).packed_byte(0) == b0,
            Numpad::from_bytes(b0, b1).packed_byte(1) == b1,
    {
        Numpad::lemma_repack_0(b0, b1);
        Numpad::lemma_repack_1(b0, b1);
    }

    /// Merging into the empty state gives the keys back.
    pub proof fn lemma_none_or(self)
        ensures
            Numpad::none().or(self) == self,
    {
    }
}

impl Default for Numpad {
    fn default() -> (r: Numpad)
        ensures
            r == Numpad::none(),
    {
        Numpad {
            zero: false,
            one: false,
            two: false,
            three: false,
            four: false,
            five: false,
            six: false,
            seven: false,
            eight: false,
            nine: false,
        }
    }
}

impl core::ops::BitOr for Numpad {
    type Output = Numpad;

    fn bitor(self, rhs: Numpad) -> Numpad {
        self.merge(rhs)
    }
}

impl vstd::std_specs::ops::BitOrSpecImpl for Numpad {
    open spec fn obeys_bitor_spec() -> bool {
        true
    }

    open spec fn bitor_req(self, rhs: Numpad) -> bool {
        true
    }

    open spec fn bitor_spec(self, rhs: Numpad) -> Numpad {
        self.or(rhs)
    }
}

impl core::ops::BitOrAssign for Numpad {
    fn bitor_assign(&mut self, rhs: Numpad) {
        *self = self.merge(rhs);
    }
}

impl Pack for Numpad {
    open spec fn packed_len() -> nat {
        2
    }

    open spec fn packed(&self) -> Seq<u8> {
        Seq::new(2, |i: int| self.packed_byte(i))
    }

    fn pack(self, buffer: &mut [u8]) -> (r: Result<(), PackingError>) {
        if buffer.len() < 2 {
            return Err(PackingError::InvalidBufferSize);
        }
        let bytes = self.to_bytes();
        crate::packing::copy_into(buffer, 0, &bytes);
        assert(final(buffer)@ =~= self.packed() + old(buffer)@.skip(2));
        Ok(())
    }
}

impl Unpack for Numpad {
    open spec fn unpacked(bytes: Seq<u8>) -> Result<Numpad, PackingError> {
        if bytes.len() < 2 {
            Err(PackingError::InvalidBufferSize)
        } else {
            Ok(Numpad::from_bytes(bytes[0], bytes[1]))
        }
    }

    fn unpack(buffer: &[u8]) -> (r: Result<Numpad, PackingError>) {
        if buffer.len() < 2 {
            return Err(PackingError::InvalidBufferSize);
        }
        Ok(Numpad::read_from(buffer, 0))
    }
}

} // verus!
