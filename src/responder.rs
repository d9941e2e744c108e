//! The bus responder: answers addressed requests for views of the input state, and
//! takes a new bus address while live on the bus.
use vstd::prelude::*;
use crate::input::{Input, InputRequest};
use crate::packing::{append_bytes, Pack};

verus! {

/// One event of the bus, as the bus hardware reports it.
#[derive(Clone, Copy, Debug, PartialEq, Eq, Structural)]
pub enum BusEvent {
    /// A transaction starts; the instruction byte that follows it.
    Start(u8),
    /// A repeated start; the instruction byte that follows it.
    Restart(u8),
    /// The controller reads one byte.
    Read,
    /// The controller writes one byte.
    Write(u8),
    /// The transaction ends.
    Stop,
}

/// What the device does in answer to an event.
#[derive(Clone, Copy, Debug, PartialEq, Eq, Structural)]
pub enum BusAction {
    /// Nothing.
    Nothing,
    /// Send this byte.
    Send(u8),
    /// Take this bus address from now on.
    Readdress(u8),
}

/// The bytes that answer a request.
pub open spec fn response_of(
    request: InputRequest,
    input: Input,
    decode_one: Seq<u8>,
    decode_two: Seq<u8>,
    address: u8,
) -> Seq<u8> {
    match request {
        InputRequest::FullInput => input.packed(),
        InputRequest::Numpad => input.numpad.packed(),
        InputRequest::Keypad => input.keypad.packed(),
        InputRequest::Auxiliary => input.auxiliary.packed(),
        InputRequest::Analog => input.analog.packed(),
        InputRequest::DecodeOne => decode_one,
        InputRequest::OtherOne => input.other_input_one@,
        InputRequest::DecodeTwo => decode_two,
        InputRequest::OtherTwo => input.other_input_two@,
        InputRequest::SetAddress => seq![address],
    }
}

/// The bytes that answer `request`: a view of `input`, the cached decode
/// instructions of an extension, or the current bus address.
pub fn response(request: InputRequest, input: &Input, decode_one: &[u8], decode_two: &[u8], address: u8) -> (r: Vec<u8>)
    ensures
        r@ == response_of(request, *input, decode_one@, decode_two@, address),
{
    let mut v: Vec<u8> = Vec::new();
    match request {
        InputRequest::FullInput => {
            v = input.to_vec();
        },
        InputRequest::Numpad => {
            append_bytes(&mut v, &input.numpad.to_bytes());
        },
        InputRequest::Keypad => {
            append_bytes(&mut v, &input.keypad.to_bytes());
        },
        InputRequest::Auxiliary => {
            append_bytes(&mut v, &input.auxiliary.to_bytes());
        },
        InputRequest::Analog => {
            append_bytes(&mut v, &input.analog.to_bytes());
        },
        InputRequest::DecodeOne => {
            append_bytes(&mut v, decode_one);
        },
        InputRequest::OtherOne => {
            append_bytes(&mut v, &input.other_input_one);
        },
        InputRequest::DecodeTwo => {
            append_bytes(&mut v, decode_two);
        },
        InputRequest::OtherTwo => {
            append_bytes(&mut v, &input.other_input_two);
        },
        InputRequest::SetAddress => {
            v.push(address);
        },
    }
    assert(v@ =~= response_of(request, *input, decode_one@, decode_two@, address));
    v
}

/// State of a bus responder.
#[derive(Clone, Copy, Debug, PartialEq, Eq, Structural)]
pub struct BusSession {
    /// The request of the current transaction; none between transactions.
    pub request: Option<InputRequest>,
    /// Bytes of the answer sent so far.
    pub sent: usize,
    /// The device's bus address.
    pub address: u8,
}

impl BusSession {
    /// A responder at `address`, between transactions.
    pub fn new(address: u8) -> (r: BusSession)
        ensures
            r.request is None,
            r.sent == 0,
            r.address == address,
    {
        BusSession { request: None, sent: 0, address }
    }

    /// Take one bus event. A start selects the request its instruction byte codes
    /// (every code above 8 means `SetAddress`); each read sends the next byte of the
    /// answer to that request, and nothing once the answer is exhausted; a write
    /// after `SetAddress` makes the written byte the bus address; a stop ends the
    /// transaction.
    pub fn on_event(&mut self, event: BusEvent, input: &Input, decode_one: &[u8], decode_two: &[u8]) -> (r: BusAction)
        requires
            decode_one@.len() <= 248,
            decode_two@.len() <= 248,
        ensures
            match event {
                BusEvent::Start(code) | BusEvent::Restart(code) => *final(self) == (BusSession {
                    request: Some(InputRequest::of_code(code)),
                    sent: 0,
                    address: old(self).address,
                }) && r == BusAction::Nothing,
                BusEvent::Read => match old(self).request {
                    None => *final(self) == *old(self) && r == BusAction::Nothing,
                    Some(q) => {
                        let answer = response_of(q, *input, decode_one@, decode_two@, old(self).address);
                        if old(self).sent < answer.len() {
                            *final(self) == (BusSession { sent: (old(self).sent + 1) as usize, ..*old(self) })
                                && r == BusAction::Send(answer[old(self).sent as int])
                        } else {
                            *final(self) == *old(self) && r == BusAction::Nothing
                        }
                    },
                },
                BusEvent::Write(byte) => if old(self).request == Some(InputRequest::SetAddress) {
                    *final(self) == (BusSession { address: byte, ..*old(self) }) && r == BusAction::Readdress(byte)
                } else {
                    *final(self) == *old(self) && r == BusAction::Nothing
                },
                BusEvent::Stop => *final(self) == (BusSession { request: None, sent: 0, address: old(self).address })
                    && r == BusAction::Nothing,
            },
    {
        match event {
            BusEvent::Start(code) | BusEvent::Restart(code) => {
                self.request = Some(InputRequest::from_code(code));
                self.sent = 0;
                BusAction::Nothing
            },
            BusEvent::Read => match self.request {
                None => BusAction::Nothing,
                Some(q) => {
                    let answer = response(q, input, decode_one, decode_two, self.address);
                    if self.sent < answer.len() {
                        let byte = answer[self.sent];
                        self.sent = self.sent + 1;
                        BusAction::Send(byte)
                    } else {
                        BusAction::Nothing
                    }
                },
            },
            BusEvent::Write(byte) => {
                if self.request == Some(InputRequest::SetAddress) {
                    self.address = byte;
                    BusAction::Readdress(byte)
                } else {
                    BusAction::Nothing
                }
            },
            BusEvent::Stop => {
                self.request = None;
                self.sent = 0;
                BusAction::Nothing
            },
        }
    }
}

} // verus!
