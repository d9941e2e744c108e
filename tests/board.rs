use pipboy_input::board::{MainKeys, MainPins};
use pipboy_input::input::Input;
use pipboy_input::other::DecodeInstructions;
use pipboy_input::other::{DataSize, DataType};

fn released() -> MainPins {
    MainPins {
        switch: false,
        b0: false,
        b1: false,
        b2: false,
        b3: false,
        b4: false,
        b5: false,
        b6: false,
        b7: false,
        b8: false,
        b9: false,
        back: false,
        front: false,
    }
}

#[test]
fn main_board_digits_and_letters() {
    let mut keys = MainKeys::new();
    let pins = MainPins { b2: true, b7: true, switch: true, front: true, ..released() };
    let first = keys.sample(&pins, 0);
    assert!(first.numpad.two && first.numpad.seven && !first.numpad.three);
    assert!(first.keypad.a && !first.keypad.b && first.keypad.p);
    assert!(first.keypad.shift && first.keypad.enter && !first.keypad.backspace);
    assert_eq!(first.analog, Input::default().analog);

    let second = keys.sample(&pins, 10_000);
    assert!(second.keypad.b && !second.keypad.a && second.keypad.q);

    let third = keys.sample(&released(), 20_000);
    assert_eq!(third.keypad, Input::default().keypad);

    let fourth = keys.sample(&MainPins { b9: true, ..released() }, 30_000);
    assert!(fourth.keypad.w && fourth.numpad.nine);
    let fifth = keys.sample(&MainPins { b2: true, ..released() }, 40_000);
    assert!(fifth.keypad.c);
    let later = keys.sample(&MainPins { b2: true, ..released() }, 2_000_000);
    assert!(later.keypad.a);
}

#[test]
fn decode_instructions_default() {
    let d = DecodeInstructions::default();
    assert_eq!(d.module_id, 0);
    assert_eq!(d.data_sizes, [DataSize::One; 24]);
    assert_eq!(d.data_types, [DataType::Unsigned; 24]);
    assert_eq!(d.fields, [[0u8; 10]; 24]);
}
