use pipboy_input::auxiliary::Auxiliary;
use pipboy_input::keypad::Keypad;
use pipboy_input::numpad::Numpad;
use pipboy_input::packing::{Pack, PackingError, Unpack};

#[test]
fn test_pack_numpad() {
    let numpad = Numpad {
        zero: false,
        one: true,
        two: false,
        three: true,
        four: false,
        five: true,
        six: false,
        seven: true,
        eight: false,
        nine: true,
    };
    let mut buffer = [0u8; 2];
    numpad.pack(&mut buffer).unwrap();
    assert_eq!(buffer, [0b0101_0101, 0b0100_0000]);
}

#[test]
fn test_unpack_numpad() {
    let buffer = [0b1010_1010, 0b1000_0000];
    let numpad = Numpad::unpack(&buffer).unwrap();
    assert_eq!(
        numpad,
        Numpad {
            zero: true,
            one: false,
            two: true,
            three: false,
            four: true,
            five: false,
            six: true,
            seven: false,
            eight: true,
            nine: false
        }
    );
}

#[test]
fn test_pack_unpack_numpad() {
    let numpad = Numpad {
        zero: false,
        one: false,
        two: false,
        three: false,
        four: true,
        five: true,
        six: true,
        seven: true,
        eight: false,
        nine: false,
    };
    let mut buffer = [0u8; 2];
    numpad.clone().pack(&mut buffer).unwrap();
    assert_eq!(numpad, Numpad::unpack(&buffer).unwrap());
}

#[test]
fn test_bitor_numpad() {
    let numpad1 = Numpad { zero: true, two: true, three: true, eight: true, nine: true, ..Numpad::default() };
    let numpad2 = Numpad { zero: true, four: true, five: true, nine: true, ..Numpad::default() };
    let numpad = numpad1 | numpad2;
    assert!(numpad.zero);
    assert!(numpad.two);
    assert!(numpad.three);
    assert!(numpad.four);
    assert!(numpad.five);
    assert!(numpad.eight);
    assert!(numpad.nine);
}

#[test]
fn numpad_bitor_assign_and_untouched_keys() {
    let mut numpad = Numpad { one: true, ..Numpad::default() };
    numpad |= Numpad { seven: true, ..Numpad::default() };
    assert_eq!(numpad, Numpad { one: true, seven: true, ..Numpad::default() });
    assert!(!numpad.zero && !numpad.nine);
}

#[test]
fn numpad_short_buffers_fail_untouched() {
    let mut buffer = [0xAAu8; 1];
    assert_eq!(Numpad::default().pack(&mut buffer), Err(PackingError::InvalidBufferSize));
    assert_eq!(buffer, [0xAA]);
    assert_eq!(Numpad::unpack(&[0u8; 1]), Err(PackingError::InvalidBufferSize));
}

#[test]
fn numpad_pack_leaves_rest_of_buffer() {
    let mut buffer = [7u8; 5];
    Numpad { zero: true, nine: true, ..Numpad::default() }.pack(&mut buffer).unwrap();
    assert_eq!(buffer, [0b1000_0000, 0b0100_0000, 7, 7, 7]);
}

#[test]
fn test_pack_keypad() {
    let keypad = Keypad {
        a: true,
        c: true,
        e: true,
        g: true,
        i: true,
        k: true,
        m: true,
        o: true,
        q: true,
        s: true,
        u: true,
        w: true,
        y: true,
        ..Keypad::default()
    };
    let mut buffer = [0u8; 4];
    keypad.pack(&mut buffer).unwrap();
    assert_eq!(buffer, [0b0101_0101, 0b0101_0101, 0b0101_0101, 0b0100_0000]);
}

#[test]
fn test_unpack_keypad() {
    let buffer = [0b1010_1010, 0b1010_1010, 0b1010_1010, 0b1010_0000];
    let keypad = Keypad::unpack(&buffer).unwrap();
    assert_eq!(
        keypad,
        Keypad {
            shift: true,
            b: true,
            d: true,
            f: true,
            h: true,
            j: true,
            l: true,
            n: true,
            p: true,
            r: true,
            t: true,
            v: true,
            x: true,
            z: true,
            ..Keypad::default()
        }
    );
}

#[test]
fn test_pack_unpack_keypad() {
    let keypad = Keypad {
        a: true,
        c: true,
        e: true,
        g: true,
        i: true,
        k: true,
        m: true,
        o: true,
        p: true,
        r: true,
        t: true,
        v: true,
        x: true,
        z: true,
        ..Keypad::default()
    };
    let mut buffer = [0u8; 4];
    keypad.clone().pack(&mut buffer).unwrap();
    assert_eq!(keypad, Keypad::unpack(&buffer).unwrap());
}

#[test]
fn test_bitor_keybad() {
    let keypad1 = Keypad { a: true, c: true, d: true, ..Keypad::default() };
    let keypad2 = Keypad { a: true, f: true, z: true, ..Keypad::default() };
    let keypad = keypad1 | keypad2;
    assert!(keypad.a);
    assert!(keypad.c);
    assert!(keypad.d);
    assert!(keypad.f);
    assert!(keypad.z);
}

#[test]
fn keypad_bitor_is_per_letter() {
    // A set `a` on the left must not turn on the other letters.
    let keypad = Keypad { a: true, ..Keypad::default() } | Keypad::default();
    assert_eq!(keypad, Keypad { a: true, ..Keypad::default() });
}

#[test]
fn keypad_enter_and_backspace_bits() {
    let mut buffer = [0u8; 4];
    Keypad { enter: true, backspace: true, ..Keypad::default() }.pack(&mut buffer).unwrap();
    assert_eq!(buffer, [0, 0, 0, 0b0001_1000]);
    assert_eq!(Keypad::unpack(&[0u8; 3]), Err(PackingError::InvalidBufferSize));
}

#[test]
fn test_pack_auxiliary() {
    let auxiliary = Auxiliary {
        exclamation: true,
        hash: true,
        percent: true,
        and: true,
        left_paren: true,
        minus: true,
        plus: true,
        backtick: true,
        left_square: true,
        left_curly: true,
        backslash: true,
        semicolon: true,
        single_quote: true,
        comma: true,
        less_than: true,
        forwardslash: true,
        ..Auxiliary::default()
    };
    let mut buffer = [0u8; 4];
    auxiliary.pack(&mut buffer).unwrap();
    assert_eq!(buffer, [0b1010_1010, 0b1010_1010, 0b1010_1010, 0b1010_1010],);
}

#[test]
fn test_unpack_auxiliary() {
    let buffer = [0b0101_0101, 0b0101_0101, 0b0101_0101, 0b0101_0101];
    let auxiliary = Auxiliary::unpack(&buffer).unwrap();
    assert_eq!(
        auxiliary,
        Auxiliary {
            at: true,
            dollar: true,
            caret: true,
            star: true,
            right_paren: true,
            underscore: true,
            equal: true,
            tilde: true,
            right_square: true,
            right_curly: true,
            pipe: true,
            colon: true,
            double_quote: true,
            period: true,
            greater_than: true,
            question: true,
            ..Auxiliary::default()
        },
    );
}

#[test]
fn test_pack_unpack_auxiliary() {
    let auxiliary = Auxiliary {
        exclamation: true,
        hash: true,
        percent: true,
        and: true,
        left_paren: true,
        minus: true,
        plus: true,
        backtick: true,
        left_square: true,
        left_curly: true,
        backslash: true,
        semicolon: true,
        single_quote: true,
        comma: true,
        less_than: true,
        forwardslash: true,
        ..Auxiliary::default()
    };
    let mut buffer = [0u8; 4];
    auxiliary.clone().pack(&mut buffer).unwrap();
    assert_eq!(auxiliary, Auxiliary::unpack(&buffer).unwrap(),);
}

#[test]
fn test_bitor_auxiliary() {
    let auxiliary1 = Auxiliary { exclamation: true, plus: true, forwardslash: true, ..Auxiliary::default() };
    let auxiliary2 = Auxiliary { exclamation: true, forwardslash: true, comma: true, ..Auxiliary::default() };
    let auxiliary = auxiliary1 | auxiliary2;
    assert!(auxiliary.exclamation);
    assert!(auxiliary.plus);
    assert!(auxiliary.forwardslash);
    assert!(auxiliary.forwardslash);
    assert!(auxiliary.comma);
}
