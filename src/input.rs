//! The combined input state and the requests that address views of it.
use vstd::prelude::*;
use crate::analog::AnalogInputs;
use crate::auxiliary::Auxiliary;
use crate::keypad::Keypad;
use crate::numpad::Numpad;
use crate::other::OtherInput;
use crate::packing::{append_bytes, array10, array24, copy_into, lemma_array10, lemma_array24, read_array, Pack, PackingError, Unpack};

verus! {

/// Request code sent as the first byte of a bus transaction.
#[derive(Clone, Copy, Debug, PartialEq, Eq, Structural)]
pub enum InputRequest {
    /// The whole state (71 bytes).
    FullInput,
    /// The numeric keys (2 bytes).
    Numpad,
    /// The letter keys (4 bytes).
    Keypad,
    /// The symbol keys (4 bytes).
    Auxiliary,
    /// The analog channels (12 bytes).
    Analog,
    /// Decode instructions of the first auxiliary payload (248 bytes).
    DecodeOne,
    /// The first auxiliary payload (24 bytes).
    OtherOne,
    /// Decode instructions of the second auxiliary payload (248 bytes).
    DecodeTwo,
    /// The second auxiliary payload (24 bytes).
    OtherTwo,
    /// Give the device a new bus address (one byte written by the host).
    SetAddress,
}

impl InputRequest {
    /// The request a code selects; every code above 8 selects `SetAddress`.
    pub open spec fn of_code(code: u8) -> InputRequest {
        if code == 0 {
            InputRequest::FullInput
        } else if code == 1 {
            InputRequest::Numpad
        } else if code == 2 {
            InputRequest::Keypad
        } else if code == 3 {
            InputRequest::Auxiliary
        } else if code == 4 {
            InputRequest::Analog
        } else if code == 5 {
            InputRequest::DecodeOne
        } else if code == 6 {
            InputRequest::OtherOne
        } else if code == 7 {
            InputRequest::DecodeTwo
        } else if code == 8 {
            InputRequest::OtherTwo
        } else {
            InputRequest::SetAddress
        }
    }

    /// The wire code of a request.
    pub open spec fn spec_code(self) -> u8 {
        match self {
            InputRequest::FullInput => 0,
            InputRequest::Numpad => 1,
            InputRequest::Keypad => 2,
            InputRequest::Auxiliary => 3,
            InputRequest::Analog => 4,
            InputRequest::DecodeOne => 5,
            InputRequest::OtherOne => 6,
            InputRequest::DecodeTwo => 7,
            InputRequest::OtherTwo => 8,
            InputRequest::SetAddress => 9,
        }
    }

    /// Decode a request code.
    pub fn from_code(code: u8) -> (r: InputRequest)
        ensures
            r == InputRequest::of_code(code),
    {
        match code {
            0 => InputRequest::FullInput,
            1 => InputRequest::Numpad,
            2 => InputRequest::Keypad,
            3 => InputRequest::Auxiliary,
            4 => InputRequest::Analog,
            5 => InputRequest::DecodeOne,
            6 => InputRequest::OtherOne,
            7 => InputRequest::DecodeTwo,
            8 => InputRequest::OtherTwo,
            _ => InputRequest::SetAddress,
        }
    }

    /// The wire code of this request.
    pub fn code(&self) -> (r: u8)
        ensures
            r == self.spec_code(),
    {
        match self {
            InputRequest::FullInput => 0,
            InputRequest::Numpad => 1,
            InputRequest::Keypad => 2,
            InputRequest::Auxiliary => 3,
            InputRequest::Analog => 4,
            InputRequest::DecodeOne => 5,
            InputRequest::OtherOne => 6,
            InputRequest::DecodeTwo => 7,
            InputRequest::OtherTwo => 8,
            InputRequest::SetAddress => 9,
        }
    }

    /// Decoding the code of a request gives the request back.
    pub proof fn lemma_code_round_trip(self)
        ensures
            InputRequest::of_code(self.spec_code()) == self,
    {
    }
}

impl From<u8> for InputRequest {
    fn from(value: u8) -> (r: InputRequest) {
        InputRequest::from_code(value)
    }
}

impl vstd::std_specs::convert::FromSpecImpl<u8> for InputRequest {
    open spec fn obeys_from_spec() -> bool {
        true
    }

    open spec fn from_spec(v: u8) -> InputRequest {
        InputRequest::of_code(v)
    }
}

/// The combined input state; packed into 71 bytes: numeric keys (2), letter keys (4),
/// symbol keys (4), analog channels (12), the two auxiliary payloads (24 each) and
/// one reserved byte, written as zero.
#[derive(Clone, Copy, Debug, PartialEq, Eq)]
pub struct Input {
    /// Numeric keys.
    pub numpad: Numpad,
    /// Letter keys.
    pub keypad: Keypad,
    /// Symbol keys.
    pub auxiliary: Auxiliary,
    /// Analog channels.
    pub analog: AnalogInputs,
    /// First auxiliary payload.
    pub other_input_one: OtherInput,
    /// Second auxiliary payload.
    pub other_input_two: OtherInput,
}

impl Input {
    /// No key asserted, analog channels and payloads zero.
    pub open spec fn empty() -> Input {
        Input {
            numpad: Numpad::none(),
            keypad: Keypad::none(),
            auxiliary: Auxiliary::none(),
            analog: AnalogInputs::zero(),
            other_input_one: array24(Seq::new(24, |i: int| 0u8)),
            other_input_two: array24(Seq::new(24, |i: int| 0u8)),
        }
    }

    /// The keys of both operands merged; analog channels and payloads of `self`.
    pub open spec fn or(self, rhs: Input) -> Input {
        Input {
            numpad: self.numpad.or(rhs.numpad),
            keypad: self.keypad.or(rhs.keypad),
            auxiliary: self.auxiliary.or(rhs.auxiliary),
            ..self
        }
    }

    /// The state held in 71 packed bytes.
    pub open spec fn from_bytes(b: Seq<u8>) -> Input {
        Input {
            numpad: Numpad::from_bytes(b[0], b[1]),
            keypad: Keypad::from_bytes(b[2], b[3], b[4], b[5]),
            auxiliary: Auxiliary::from_bytes(b[6], b[7], b[8], b[9]),
            analog: AnalogInputs::from_bytes(b.subrange(10, 22)),
            other_input_one: array24(b.subrange(22, 46)),
            other_input_two: array24(b.subrange(46, 70)),
        }
    }

    /// The 71 packed bytes.
    pub fn to_vec(&self) -> (r: Vec<u8>)
        ensures
            r@ == self.packed(),
    {
        let mut v: Vec<u8> = Vec::new();
        let n = self.numpad.to_bytes();
        let k = self.keypad.to_bytes();
        let a = self.auxiliary.to_bytes();
        let g = self.analog.to_bytes();
        append_bytes(&mut v, &n);
        append_bytes(&mut v, &k);
        append_bytes(&mut v, &a);
        append_bytes(&mut v, &g);
        append_bytes(&mut v, &self.other_input_one);
        append_bytes(&mut v, &self.other_input_two);
        v.push(0u8);
        v
    }

    /// Each key asserted in either operand; analog channels and payloads of `self`.
    pub fn merge(self, rhs: Input) -> (r: Input)
        ensures
            r == self.or(rhs),
    {
        Input {
            numpad: self.numpad.merge(rhs.numpad),
            keypad: self.keypad.merge(rhs.keypad),
            auxiliary: self.auxiliary.merge(rhs.auxiliary),
            analog: self.analog,
            other_input_one: self.other_input_one,
            other_input_two: self.other_input_two,
        }
    }

    /// Unpacking the packed bytes gives the state back.
    pub proof fn lemma_round_trip(self)
        ensures
            self.packed().len() == 71,
            Input::from_bytes(self.packed()) == self,
    {
        let p = self.packed();
        self.numpad.lemma_round_trip();
        self.keypad.lemma_round_trip();
        self.auxiliary.lemma_round_trip();
        self.analog.lemma_round_trip();
        assert(p[0] == self.numpad.packed_byte(0));
        assert(p[1] == self.numpad.packed_byte(1));
        assert(p[2] == self.keypad.packed_byte(0));
        assert(p[3] == self.keypad.packed_byte(1));
        assert(p[4] == self.keypad.packed_byte(2));
        assert(p[5] == self.keypad.packed_byte(3));
        assert(p[6] == self.auxiliary.packed_byte(0));
        assert(p[7] == self.auxiliary.packed_byte(1));
        assert(p[8] == self.auxiliary.packed_byte(2));
        assert(p[9] == self.auxiliary.packed_byte(3));
        assert(p.subrange(10, 22) =~= self.analog.packed());
        assert(p.subrange(22, 46) =~= self.other_input_one@);
        assert(p.subrange(46, 70) =~= self.other_input_two@);
        lemma_array24(self.other_input_one, p.subrange(22, 46));
        lemma_array24(self.other_input_two, p.subrange(46, 70));
    }
}

impl Default for Input {
    fn default() -> (r: Input)
        ensures
            r == Input::empty(),
    {
        let r = Input {
            numpad: Numpad::default(),
            keypad: Keypad::default(),
            auxiliary: Auxiliary::default(),
            analog: AnalogInputs::default(),
            other_input_one: [0u8; 24],
            other_input_two: [0u8; 24],
        };
        proof {
            assert(r.other_input_one@ =~= Seq::new(24, |i: int| 0u8));
            lemma_array24(r.other_input_one, Seq::new(24, |i: int| 0u8));
        }
        r
    }
}

impl core::ops::BitOr for Input {
    type Output = Input;

    fn bitor(self, rhs: Input) -> Input {
        self.merge(rhs)
    }
}

impl vstd::std_specs::ops::BitOrSpecImpl for Input {
    open spec fn obeys_bitor_spec() -> bool {
        true
    }

    open spec fn bitor_req(self, rhs: Input) -> bool {
        true
    }

    open spec fn bitor_spec(self, rhs: Input) -> Input {
        self.or(rhs)
    }
}

impl core::ops::BitOrAssign for Input {
    fn bitor_assign(&mut self, rhs: Input) {
        *self = self.merge(rhs);
    }
}

impl Pack for Input {
    open spec fn packed_len() -> nat {
        71
    }

    open spec fn packed(&self) -> Seq<u8> {
        self.numpad.packed() + self.keypad.packed() + self.auxiliary.packed() + self.analog.packed()
            + self.other_input_one@ + self.other_input_two@ + seq![0u8]
    }

    fn pack(self, buffer: &mut [u8]) -> (r: Result<(), PackingError>) {
        if buffer.len() < 71 {
            return Err(PackingError::InvalidBufferSize);
        }
        let bytes = self.to_vec();
        copy_into(buffer, 0, bytes.as_slice());
        assert(final(buffer)@ =~= self.packed() + old(buffer)@.skip(71));
        Ok(())
    }
}

impl Unpack for Input {
    open spec fn unpacked(bytes: Seq<u8>) -> Result<Input, PackingError> {
        if bytes.len() < 71 {
            Err(PackingError::InvalidBufferSize)
        } else {
            Ok(Input::from_bytes(bytes))
        }
    }

    fn unpack(buffer: &[u8]) -> (r: Result<Input, PackingError>) {
        if buffer.len() < 71 {
            return Err(PackingError::InvalidBufferSize);
        }
        let one: [u8; 24] = read_array(buffer, 22);
        let two: [u8; 24] = read_array(buffer, 46);
        proof {
            lemma_array24(one, buffer@.subrange(22, 46));
            lemma_array24(two, buffer@.subrange(46, 70));
        }
        Ok(Input {
            numpad: Numpad::read_from(buffer, 0),
            keypad: Keypad::read_from(buffer, 2),
            auxiliary: Auxiliary::read_from(buffer, 6),
            analog: AnalogInputs::read_from(buffer, 10),
            other_input_one: one,
            other_input_two: two,
        })
    }
}

} // verus!
