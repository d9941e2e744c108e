//! Symbol keys.
use vstd::prelude::*;
use crate::bits::{bit, byte_of, lemma_bits_of_byte, lemma_byte_of_bits, lemma_low_bits_clear, pack_flags, test_bit};
use crate::packing::{Pack, PackingError, Unpack};

verus! {

/// The symbol keys; packed into four bytes, `exclamation` in the highest bit.
#[derive(Clone, Copy, Debug, PartialEq, Eq, Structural)]
pub struct Auxiliary {
    /// `!`
    pub exclamation: bool,
    /// `@`
    pub at: bool,
    /// `#`
    pub hash: bool,
    /// `$`
    pub dollar: bool,
    /// `%`
    pub percent: bool,
    /// `^`
    pub caret: bool,
    /// `&`
    pub and: bool,
    /// `*`
    pub star: bool,
    /// `(`
    pub left_paren: bool,
    /// `)`
    pub right_paren: bool,
    /// `-`
    pub minus: bool,
    /// `_`
    pub underscore: bool,
    /// `+`
    pub plus: bool,
    /// `=`
    pub equal: bool,
    /// `` ` ``
    pub backtick: bool,
    /// `~`
    pub tilde: bool,
    /// `[`
    pub left_square: bool,
    /// `]`
    pub right_square: bool,
    /// `{`
    pub left_curly: bool,
    /// `}`
    pub right_curly: bool,
    /// `\`
    pub backslash: bool,
    /// `|`
    pub pipe: bool,
    /// `;`
    pub semicolon: bool,
    /// `:`
    pub colon: bool,
    /// `'`
    pub single_quote: bool,
    /// `"`
    pub double_quote: bool,
    /// `,`
    pub comma: bool,
    /// `.`
    pub period: bool,
    /// `<`
    pub less_than: bool,
    /// `>`
    pub greater_than: bool,
    /// `/`
    pub forwardslash: bool,
    /// `?`
    pub question: bool,
}

impl Auxiliary {
    /// No key asserted.
    pub open spec fn none() -> Auxiliary {
        Auxiliary {
            exclamation: false,
            at: false,
            hash: false,
            dollar: false,
            percent: false,
            caret: false,
            and: false,
            star: false,
            left_paren: false,
            right_paren: false,
            minus: false,
            underscore: false,
            plus: false,
            equal: false,
            backtick: false,
            tilde: false,
            left_square: false,
            right_square: false,
            left_curly: false,
            right_curly: false,
            backslash: false,
            pipe: false,
            semicolon: false,
            colon: false,
            single_quote: false,
            double_quote: false,
            comma: false,
            period: false,
            less_than: false,
            greater_than: false,
            forwardslash: false,
            question: false,
        }
    }

    /// Each key asserted in either operand.
    pub open spec fn or(self, rhs: Auxiliary) -> Auxiliary {
        Auxiliary {
            exclamation: self.exclamation || rhs.exclamation,
            at: self.at || rhs.at,
            hash: self.hash || rhs.hash,
            dollar: self.dollar || rhs.dollar,
            percent: self.percent || rhs.percent,
            caret: self.caret || rhs.caret,
            and: self.and || rhs.and,
            star: self.star || rhs.star,
            left_paren: self.left_paren || rhs.left_paren,
            right_paren: self.right_paren || rhs.right_paren,
            minus: self.minus || rhs.minus,
            underscore: self.underscore || rhs.underscore,
            plus: self.plus || rhs.plus,
            equal: self.equal || rhs.equal,
            backtick: self.backtick || rhs.backtick,
            tilde: self.tilde || rhs.tilde,
            left_square: self.left_square || rhs.left_square,
            right_square: self.right_square || rhs.right_square,
            left_curly: self.left_curly || rhs.left_curly,
            right_curly: self.right_curly || rhs.right_curly,
            backslash: self.backslash || rhs.backslash,
            pipe: self.pipe || rhs.pipe,
            semicolon: self.semicolon || rhs.semicolon,
            colon: self.colon || rhs.colon,
            single_quote: self.single_quote || rhs.single_quote,
            double_quote: self.double_quote || rhs.double_quote,
            comma: self.comma || rhs.comma,
            period: self.period || rhs.period,
            less_than: self.less_than || rhs.less_than,
            greater_than: self.greater_than || rhs.greater_than,
            forwardslash: self.forwardslash || rhs.forwardslash,
            question: self.question || rhs.question,
        }
    }

    /// The keys held in 4 packed bytes.
    pub open spec fn from_bytes(b0: u8, b1: u8, b2: u8, b3: u8) -> Auxiliary {
        Auxiliary {
            exclamation: bit(b0, 7),
            at: bit(b0, 6),
            hash: bit(b0, 5),
            dollar: bit(b0, 4),
            percent: bit(b0, 3),
            caret: bit(b0, 2),
            and: bit(b0, 1),
            star: bit(b0, 0),
            left_paren: bit(b1, 7),
            right_paren: bit(b1, 6),
            minus: bit(b1, 5),
            underscore: bit(b1, 4),
            plus: bit(b1, 3),
            equal: bit(b1, 2),
            backtick: bit(b1, 1),
            tilde: bit(b1, 0),
            left_square: bit(b2, 7),
            right_square: bit(b2, 6),
            left_curly: bit(b2, 5),
            right_curly: bit(b2, 4),
            backslash: bit(b2, 3),
            pipe: bit(b2, 2),
            semicolon: bit(b2, 1),
            colon: bit(b2, 0),
            single_quote: bit(b3, 7),
            double_quote: bit(b3, 6),
            comma: bit(b3, 5),
            period: bit(b3, 4),
            less_than: bit(b3, 3),
            greater_than: bit(b3, 2),
            forwardslash: bit(b3, 1),
            question: bit(b3, 0),
        }
    }

    /// Packed byte `idx`.
    pub open spec fn packed_byte(&self, idx: int) -> u8 {
        if idx == 0 {
            byte_of(self.exclamation, self.at, self.hash, self.dollar, self.percent, self.caret, self.and, self.star)
        } else if idx == 1 {
            byte_of(self.left_paren, self.right_paren, self.minus, self.underscore, self.plus, self.equal, self.backtick, self.tilde)
        } else if idx == 2 {
            byte_of(self.left_square, self.right_square, self.left_curly, self.right_curly, self.backslash, self.pipe, self.semicolon, self.colon)
        } else {
            byte_of(self.single_quote, self.double_quote, self.comma, self.period, self.less_than, self.greater_than, self.forwardslash, self.question)
        }
    }

    fn byte_0(&self) -> (r: u8)
        ensures
            r == self.packed_byte(0),
    {
        pack_flags(self.exclamation, self.at, self.hash, self.dollar, self.percent, self.caret, self.and, self.star)
    }

    fn byte_1(&self) -> (r: u8)
        ensures
            r == self.packed_byte(1),
    {
        pack_flags(self.left_paren, self.right_paren, self.minus, self.underscore, self.plus, self.equal, self.backtick, self.tilde)
    }

    fn byte_2(&self) -> (r: u8)
        ensures
            r == self.packed_byte(2),
    {
        pack_flags(self.left_square, self.right_square, self.left_curly, self.right_curly, self.backslash, self.pipe, self.semicolon, self.colon)
    }

    fn byte_3(&self) -> (r: u8)
        ensures
            r == self.packed_byte(3),
    {
        pack_flags(self.single_quote, self.double_quote, self.comma, self.period, self.less_than, self.greater_than, self.forwardslash, self.question)
    }

    /// The 4 packed bytes.
    pub fn to_bytes(&self) -> (r: [u8; 4])
        ensures
            r@ == self.packed(),
    {
        let b0 = self.byte_0();
        let b1 = self.byte_1();
        let b2 = self.byte_2();
        let b3 = self.byte_3();
        let r = [b0, b1, b2, b3];
        assert(r@[0] == self.packed()[0]);
        assert(r@[1] == self.packed()[1]);
        assert(r@[2] == self.packed()[2]);
        assert(r@[3] == self.packed()[3]);
        assert(r@ =~= self.packed());
        r
    }

    /// Read the keys from the 4 bytes of `buffer` that start at `off`.
    pub fn read_from(buffer: &[u8], off: usize) -> (r: Auxiliary)
        requires
            off + 4 <= buffer@.len(),
        ensures
            r == Auxiliary::from_bytes(buffer@[off + 0], buffer@[off + 1], buffer@[off + 2], buffer@[off + 3]),
    {
        let b0 = buffer[off + 0];
        let b1 = buffer[off + 1];
        let b2 = buffer[off + 2];
        let b3 = buffer[off + 3];
        Auxiliary {
            exclamation: test_bit(b0, 7),
            at: test_bit(b0, 6),
            hash: test_bit(b0, 5),
            dollar: test_bit(b0, 4),
            percent: test_bit(b0, 3),
            caret: test_bit(b0, 2),
            and: test_bit(b0, 1),
            star: test_bit(b0, 0),
            left_paren: test_bit(b1, 7),
            right_paren: test_bit(b1, 6),
            minus: test_bit(b1, 5),
            underscore: test_bit(b1, 4),
            plus: test_bit(b1, 3),
            equal: test_bit(b1, 2),
            backtick: test_bit(b1, 1),
            tilde: test_bit(b1, 0),
            left_square: test_bit(b2, 7),
            right_square: test_bit(b2, 6),
            left_curly: test_bit(b2, 5),
            right_curly: test_bit(b2, 4),
            backslash: test_bit(b2, 3),
            pipe: test_bit(b2, 2),
            semicolon: test_bit(b2, 1),
            colon: test_bit(b2, 0),
            single_quote: test_bit(b3, 7),
            double_quote: test_bit(b3, 6),
            comma: test_bit(b3, 5),
            period: test_bit(b3, 4),
            less_than: test_bit(b3, 3),
            greater_than: test_bit(b3, 2),
            forwardslash: test_bit(b3, 1),
            question: test_bit(b3, 0),
        }
    }

    /// Each key asserted in either operand.
    pub fn merge(self, rhs: Auxiliary) -> (r: Auxiliary)
        ensures
            r == self.or(rhs),
    {
        Auxiliary {
            exclamation: self.exclamation || rhs.exclamation,
            at: self.at || rhs.at,
            hash: self.hash || rhs.hash,
            dollar: self.dollar || rhs.dollar,
            percent: self.percent || rhs.percent,
            caret: self.caret || rhs.caret,
            and: self.and || rhs.and,
            star: self.star || rhs.star,
            left_paren: self.left_paren || rhs.left_paren,
            right_paren: self.right_paren || rhs.right_paren,
            minus: self.minus || rhs.minus,
            underscore: self.underscore || rhs.underscore,
            plus: self.plus || rhs.plus,
            equal: self.equal || rhs.equal,
            backtick: self.backtick || rhs.backtick,
            tilde: self.tilde || rhs.tilde,
            left_square: self.left_square || rhs.left_square,
            right_square: self.right_square || rhs.right_square,
            left_curly: self.left_curly || rhs.left_curly,
            right_curly: self.right_curly || rhs.right_curly,
            backslash: self.backslash || rhs.backslash,
            pipe: self.pipe || rhs.pipe,
            semicolon: self.semicolon || rhs.semicolon,
            colon: self.colon || rhs.colon,
            single_quote: self.single_quote || rhs.single_quote,
            double_quote: self.double_quote || rhs.double_quote,
            comma: self.comma || rhs.comma,
            period: self.period || rhs.period,
            less_than: self.less_than || rhs.less_than,
            greater_than: self.greater_than || rhs.greater_than,
            forwardslash: self.forwardslash || rhs.forwardslash,
            question: self.question || rhs.question,
        }
    }

    proof fn lemma_byte_0(self)
        ensures
            Auxiliary::from_bytes(self.packed_byte(0), self.packed_byte(1), self.packed_byte(2), self.packed_byte(3)).exclamation == self.exclamation,
            Auxiliary::from_bytes(self.packed_byte(0), self.packed_byte(1), self.packed_byte(2), self.packed_byte(3)).at == self.at,
            Auxiliary::from_bytes(self.packed_byte(0), self.packed_byte(1), self.packed_byte(2), self.packed_byte(3)).hash == self.hash,
            Auxiliary::from_bytes(self.packed_byte(0), self.packed_byte(1), self.packed_byte(2), self.packed_byte(3)).dollar == self.dollar,
            Auxiliary::from_bytes(self.packed_byte(0), self.packed_byte(1), self.packed_byte(2), self.packed_byte(3)).percent == self.percent,
            Auxiliary::from_bytes(self.packed_byte(0), self.packed_byte(1), self.packed_byte(2), self.packed_byte(3)).caret == self.caret,
            Auxiliary::from_bytes(self.packed_byte(0), self.packed_byte(1), self.packed_byte(2), self.packed_byte(3)).and == self.and,
            Auxiliary::from_bytes(self.packed_byte(0), self.packed_byte(1), self.packed_byte(2), self.packed_byte(3)).star == self.star,
    {
        lemma_byte_of_bits(self.exclamation, self.at, self.hash, self.dollar, self.percent, self.caret, self.and, self.star);
    }

    proof fn lemma_byte_1(self)
        ensures
            Auxiliary::from_bytes(self.packed_byte(0), self.packed_byte(1), self.packed_byte(2), self.packed_byte(3)).left_paren == self.left_paren,
            Auxiliary::from_bytes(self.packed_byte(0), self.packed_byte(1), self.packed_byte(2), self.packed_byte(3)).right_paren == self.right_paren,
            Auxiliary::from_bytes(self.packed_byte(0), self.packed_byte(1), self.packed_byte(2), self.packed_byte(3)).minus == self.minus,
            Auxiliary::from_bytes(self.packed_byte(0), self.packed_byte(1), self.packed_byte(2), self.packed_byte(3)).underscore == self.underscore,
            Auxiliary::from_bytes(self.packed_byte(0), self.packed_byte(1), self.packed_byte(2), self.packed_byte(3)).plus == self.plus,
            Auxiliary::from_bytes(self.packed_byte(0), self.packed_byte(1), self.packed_byte(2), self.packed_byte(3)).equal == self.equal,
            Auxiliary::from_bytes(self.packed_byte(0), self.packed_byte(1), self.packed_byte(2), self.packed_byte(3)).backtick == self.backtick,
            Auxiliary::from_bytes(self.packed_byte(0), self.packed_byte(1), self.packed_byte(2), self.packed_byte(3)).tilde == self.tilde,
    {
        lemma_byte_of_bits(self.left_paren, self.right_paren, self.minus, self.underscore, self.plus, self.equal, self.backtick, self.tilde);
    }

    proof fn lemma_byte_2(self)
        ensures
            Auxiliary::from_bytes(self.packed_byte(0), self.packed_byte(1), self.packed_byte(2), self.packed_byte(3)).left_square == self.left_square,
            Auxiliary::from_bytes(self.packed_byte(0), self.packed_byte(1), self.packed_byte(2), self.packed_byte(3)).right_square == self.right_square,
            Auxiliary::from_bytes(self.packed_byte(0), self.packed_byte(1), self.packed_byte(2), self.packed_byte(3)).left_curly == self.left_curly,
            Auxiliary::from_bytes(self.packed_byte(0), self.packed_byte(1), self.packed_byte(2), self.packed_byte(3)).right_curly == self.right_curly,
            Auxiliary::from_bytes(self.packed_byte(0), self.packed_byte(1), self.packed_byte(2), self.packed_byte(3)).backslash == self.backslash,
            Auxiliary::from_bytes(self.packed_byte(0), self.packed_byte(1), self.packed_byte(2), self.packed_byte(3)).pipe == self.pipe,
            Auxiliary::from_bytes(self.packed_byte(0), self.packed_byte(1), self.packed_byte(2), self.packed_byte(3)).semicolon == self.semicolon,
            Auxiliary::from_bytes(self.packed_byte(0), self.packed_byte(1), self.packed_byte(2), self.packed_byte(3)).colon == self.colon,
    {
        lemma_byte_of_bits(self.left_square, self.right_square, self.left_curly, self.right_curly, self.backslash, self.pipe, self.semicolon, self.colon);
    }

    proof fn lemma_byte_3(self)
        ensures
            Auxiliary::from_bytes(self.packed_byte(0), self.packed_byte(1), self.packed_byte(2), self.packed_byte(3)).single_quote == self.single_quote,
            Auxiliary::from_bytes(self.packed_byte(0), self.packed_byte(1), self.packed_byte(2), self.packed_byte(3)).double_quote == self.double_quote,
            Auxiliary::from_bytes(self.packed_byte(0), self.packed_byte(1), self.packed_byte(2), self.packed_byte(3)).comma == self.comma,
            Auxiliary::from_bytes(self.packed_byte(0), self.packed_byte(1), self.packed_byte(2), self.packed_byte(3)).period == self.period,
            Auxiliary::from_bytes(self.packed_byte(0), self.packed_byte(1), self.packed_byte(2), self.packed_byte(3)).less_than == self.less_than,
            Auxiliary::from_bytes(self.packed_byte(0), self.packed_byte(1), self.packed_byte(2), self.packed_byte(3)).greater_than == self.greater_than,
            Auxiliary::from_bytes(self.packed_byte(0), self.packed_byte(1), self.packed_byte(2), self.packed_byte(3)).forwardslash == self.forwardslash,
            Auxiliary::from_bytes(self.packed_byte(0), self.packed_byte(1), self.packed_byte(2), self.packed_byte(3)).question == self.question,
    {
        lemma_byte_of_bits(self.single_quote, self.double_quote, self.comma, self.period, self.less_than, self.greater_than, self.forwardslash, self.question);
    }

    /// Unpacking the packed bytes gives the keys back.
    pub proof fn lemma_round_trip(self)
        ensures
            Auxiliary::from_bytes(self.packed_byte(0), self.packed_byte(1), self.packed_byte(2), self.packed_byte(3)) == self,
    {
        self.lemma_byte_0();
        self.lemma_byte_1();
        self.lemma_byte_2();
        self.lemma_byte_3();
    }

    proof fn lemma_repack_0(b0: u8, b1: u8, b2: u8, b3: u8)
        ensures
            Auxiliary::from_bytes(b0, b1, b2, b3).packed_byte(0) == b0,
    {
        lemma_bits_of_byte(b0);
    }

    proof fn lemma_repack_1(b0: u8, b1: u8, b2: u8, b3: u8)
        ensures
            Auxiliary::from_bytes(b0, b1, b2, b3).packed_byte(1) == b1,
    {
        lemma_bits_of_byte(b1);
    }

    proof fn lemma_repack_2(b0: u8, b1: u8, b2: u8, b3: u8)
        ensures
            Auxiliary::from_bytes(b0, b1, b2, b3).packed_byte(2) == b2,
    {
        lemma_bits_of_byte(b2);
    }

    proof fn lemma_repack_3(b0: u8, b1: u8, b2: u8, b3: u8)
        ensures
            Auxiliary::from_bytes(b0, b1, b2, b3).packed_byte(3) == b3,
    {
        lemma_bits_of_byte(b3);
    }

    /// Packing what unpacking bytes gives yields the bytes again, where the bits
    /// that hold no key are clear.
    pub proof fn lemma_unpack_round_trip(b0: u8, b1: u8, b2: u8, b3: u8)
        ensures
            Auxiliary::from_bytes(b0, b1, b2, b3).packed_byte(0) == b0,
            Auxiliary::from_bytes(b0, b1, b2, b3).packed_byte(1) == b1,
            Auxiliary::from_bytes(b0, b1, b2, b3).packed_byte(2) == b2,
            Auxiliary::from_bytes(b0, b1, b2, b3).packed_byte(3) == b3,
    {
        Auxiliary::lemma_repack_0(b0, b1, b2, b3);
        Auxiliary::lemma_repack_1(b0, b1, b2, b3);
        Auxiliary::lemma_repack_2(b0, b1, b2, b3);
        Auxiliary::lemma_repack_3(b0, b1, b2, b3);
    }

    /// Merging into the empty state gives the keys back.
    pub proof fn lemma_none_or(self)
        ensures
            Auxiliary::none().or(self) == self,
    {
    }
}

impl Default for Auxiliary {
    fn default() -> (r: Auxiliary)
        ensures
            r == Auxiliary::none(),
    {
        Auxiliary {
            exclamation: false,
            at: false,
            hash: false,
            dollar: false,
            percent: false,
            caret: false,
            and: false,
            star: false,
            left_paren: false,
            right_paren: false,
            minus: false,
            underscore: false,
            plus: false,
            equal: false,
            backtick: false,
            tilde: false,
            left_square: false,
            right_square: false,
            left_curly: false,
            right_curly: false,
            backslash: false,
            pipe: false,
            semicolon: false,
            colon: false,
            single_quote: false,
            double_quote: false,
            comma: false,
            period: false,
            less_than: false,
            greater_than: false,
            forwardslash: false,
            question: false,
        }
    }
}

impl core::ops::BitOr for Auxiliary {
    type Output = Auxiliary;

    fn bitor(self, rhs: Auxiliary) -> Auxiliary {
        self.merge(rhs)
    }
}

impl vstd::std_specs::ops::BitOrSpecImpl for Auxiliary {
    open spec fn obeys_bitor_spec() -> bool {
        true
    }

    open spec fn bitor_req(self, rhs: Auxiliary) -> bool {
        true
    }

    open spec fn bitor_spec(self, rhs: Auxiliary) -> Auxiliary {
        self.or(rhs)
    }
}

impl core::ops::BitOrAssign for Auxiliary {
    fn bitor_assign(&mut self, rhs: Auxiliary) {
        *self = self.merge(rhs);
    }
}

impl Pack for Auxiliary {
    open spec fn packed_len() -> nat {
        4
    }

    open spec fn packed(&self) -> Seq<u8> {
        Seq::new(4, |i: int| self.packed_byte(i))
    }

    fn pack(self, buffer: &mut [u8]) -> (r: Result<(), PackingError>) {
        if buffer.len() < 4 {
            return Err(PackingError::InvalidBufferSize);
        }
        let bytes = self.to_bytes();
        crate::packing::copy_into(buffer, 0, &bytes);
        assert(final(buffer)@ =~= self.packed() + old(buffer)@.skip(4));
        Ok(())
    }
}

impl Unpack for Auxiliary {
    open spec fn unpacked(bytes: Seq<u8>) -> Result<Auxiliary, PackingError> {
        if bytes.len() < 4 {
            Err(PackingError::InvalidBufferSize)
        } else {
            Ok(Auxiliary::from_bytes(bytes[0], bytes[1], bytes[2], bytes[3]))
        }
    }

    fn unpack(buffer: &[u8]) -> (r: Result<Auxiliary, PackingError>) {
        if buffer.len() < 4 {
            return Err(PackingError::InvalidBufferSize);
        }
        Ok(Auxiliary::read_from(buffer, 0))
    }
}

} // verus!
