//! The controller board: two buttons and a two-axis stick.
use vstd::prelude::*;
use crate::analog::AnalogInputs;
use crate::input::{Input, InputRequest};
use crate::responder::{response, response_of};
use crate::keypad::Keypad;

verus! {

/// Store one sample of the controller's pins: button A and B as the letter keys
/// `a` and `b`, the stick's axes as analog channels 0 and 1.
pub fn read_pins(input: &mut Input, x: u16, y: u16, a: bool, b: bool)
    ensures
        *final(input) == (Input {
            keypad: Keypad { a, b, ..old(input).keypad },
            analog: AnalogInputs { a0: x, a1: y, ..old(input).analog },
            ..*old(input)
        }),
{
    let keypad = Keypad { a, b, ..input.keypad };
    let analog = AnalogInputs { a0: x, a1: y, ..input.analog };
    *input = Input { keypad, analog, ..*input };
}

/// The requests the controller board answers: the views of its state. It holds no
/// auxiliary payloads or decode instructions and cannot be readdressed.
pub open spec fn controller_answers(request: InputRequest) -> bool {
    match request {
        InputRequest::FullInput | InputRequest::Numpad | InputRequest::Keypad | InputRequest::Auxiliary
        | InputRequest::Analog => true,
        _ => false,
    }
}

/// The bytes the controller board sends in answer to request code `code`; nothing
/// for a request it does not answer.
pub fn controller_reply(code: u8, input: &Input) -> (r: Vec<u8>)
    ensures
        r@ == (if controller_answers(InputRequest::of_code(code)) {
            response_of(InputRequest::of_code(code), *input, Seq::empty(), Seq::empty(), 0)
        } else {
            Seq::empty()
        }),
{
    let request = InputRequest::from_code(code);
    match request {
        InputRequest::FullInput | InputRequest::Numpad | InputRequest::Keypad | InputRequest::Auxiliary
        | InputRequest::Analog => {
            let none: Vec<u8> = Vec::new();
            response(request, input, none.as_slice(), none.as_slice(), 0)
        },
        _ => Vec::new(),
    }
}

} // verus!
