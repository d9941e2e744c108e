use pipboy_input::aggregate::{aggregate, on_enable_edge};
use pipboy_input::analog::AnalogInputs;
use pipboy_input::auxiliary::Auxiliary;
use pipboy_input::controller::{controller_reply, read_pins};
use pipboy_input::input::{Input, InputRequest};
use pipboy_input::keypad::Keypad;
use pipboy_input::numpad::Numpad;
use pipboy_input::packing::{Pack, PackingError, Unpack};

fn sample_input() -> Input {
    let numpad = Numpad {
        zero: false,
        one: true,
        two: false,
        three: true,
        four: false,
        five: true,
        six: false,
        seven: true,
        eight: false,
        nine: true,
    };
    let keypad = Keypad {
        a: true,
        c: true,
        e: true,
        g: true,
        i: true,
        k: true,
        m: true,
        o: true,
        q: true,
        s: true,
        u: true,
        w: true,
        y: true,
        ..Keypad::default()
    };
    let auxiliary = Auxiliary {
        exclamation: true,
        hash: true,
        percent: true,
        and: true,
        left_paren: true,
        minus: true,
        plus: true,
        backtick: true,
        left_square: true,
        left_curly: true,
        backslash: true,
        semicolon: true,
        single_quote: true,
        comma: true,
        less_than: true,
        forwardslash: true,
        ..Auxiliary::default()
    };
    let analog = AnalogInputs { a0: 0x1234, a1: 0x2345, a2: 0x3456, a3: 0x4567, a4: 0x5678, a5: 0x6789 };
    Input { numpad, keypad, auxiliary, analog, other_input_one: [0u8; 24], other_input_two: [255u8; 24] }
}

#[test]
fn test_pack_unpack_inputs() {
    let inputs = sample_input();
    let mut buffer = [0u8; 71];
    inputs.clone().pack(&mut buffer).unwrap();
    let decoded_inputs = Input::unpack(&buffer).unwrap();
    assert_eq!(inputs, decoded_inputs)
}

#[test]
fn input_layout_offsets() {
    let mut buffer = [0xEEu8; 71];
    sample_input().pack(&mut buffer).unwrap();
    assert_eq!(&buffer[0..2], &[0b0101_0101, 0b0100_0000]);
    assert_eq!(&buffer[2..6], &[0b0101_0101, 0b0101_0101, 0b0101_0101, 0b0100_0000]);
    assert_eq!(&buffer[6..10], &[0b1010_1010; 4]);
    assert_eq!(&buffer[10..12], &[0x34, 0x12]);
    assert_eq!(&buffer[20..22], &[0x89, 0x67]);
    assert_eq!(&buffer[22..46], &[0u8; 24]);
    assert_eq!(&buffer[46..70], &[255u8; 24]);
    assert_eq!(buffer[70], 0);
}

#[test]
fn input_short_buffers() {
    let mut buffer = [3u8; 70];
    assert_eq!(sample_input().pack(&mut buffer), Err(PackingError::InvalidBufferSize));
    assert_eq!(buffer, [3u8; 70]);
    assert_eq!(Input::unpack(&buffer), Err(PackingError::InvalidBufferSize));
}

#[test]
fn test_pack_analog_inputs() {
    let analog_inputs = AnalogInputs { a0: 0x1234, a1: 0x2345, a2: 0x3456, a3: 0x4567, a4: 0x5678, a5: 0x6789 };
    let mut buffer = [0u8; 12];
    analog_inputs.pack(&mut buffer).unwrap();
    assert_eq!(buffer, [0x34, 0x12, 0x45, 0x23, 0x56, 0x34, 0x67, 0x45, 0x78, 0x56, 0x89, 0x67]);
}

#[test]
fn test_unpack_analog_inputs() {
    let buffer = [0x23, 0x12, 0x45, 0x34, 0x67, 0x56, 0x89, 0x78, 0x01, 0x90, 0x23, 0x12];
    let inputs = AnalogInputs::unpack(&buffer).unwrap();
    assert_eq!(inputs, AnalogInputs { a0: 0x1223, a1: 0x3445, a2: 0x5667, a3: 0x7889, a4: 0x9001, a5: 0x1223 })
}

#[test]
fn test_pack_unpack_analog_inputs() {
    let analog_inputs = AnalogInputs { a0: 0x1234, a1: 0x2345, a2: 0x3456, a3: 0x4567, a4: 0x5678, a5: 0x6789 };
    let mut buffer = [0u8; 12];
    analog_inputs.clone().pack(&mut buffer).unwrap();
    assert_eq!(analog_inputs, AnalogInputs::unpack(&buffer).unwrap(),);
}

#[test]
fn analog_channel_little_endian() {
    let mut buffer = [0u8; 12];
    buffer[0] = 0x34;
    buffer[1] = 0x12;
    assert_eq!(AnalogInputs::unpack(&buffer).unwrap().a0, 0x1234);
    assert_eq!(AnalogInputs::unpack(&buffer[..11]), Err(PackingError::InvalidBufferSize));
}

#[test]
fn request_codes() {
    let expected = [
        InputRequest::FullInput,
        InputRequest::Numpad,
        InputRequest::Keypad,
        InputRequest::Auxiliary,
        InputRequest::Analog,
        InputRequest::DecodeOne,
        InputRequest::OtherOne,
        InputRequest::DecodeTwo,
        InputRequest::OtherTwo,
        InputRequest::SetAddress,
    ];
    for (code, request) in expected.iter().enumerate() {
        assert_eq!(InputRequest::from(code as u8), *request);
        assert_eq!(request.code(), code as u8);
    }
    assert_eq!(InputRequest::from(10), InputRequest::SetAddress);
    assert_eq!(InputRequest::from(255), InputRequest::SetAddress);
}

#[test]
fn aggregate_without_extensions() {
    let mut local = sample_input();
    local.analog = AnalogInputs { a0: 9, a1: 9, a2: 9, a3: 9, a4: 9, a5: 9 };
    local.other_input_one = [1u8; 24];
    let combined = aggregate(local, None, None);
    assert_eq!(combined.numpad, local.numpad);
    assert_eq!(combined.keypad, local.keypad);
    assert_eq!(combined.auxiliary, local.auxiliary);
    assert_eq!(combined.analog, AnalogInputs::default());
    assert_eq!(combined.other_input_one, [0u8; 24]);
    assert_eq!(combined.other_input_two, [0u8; 24]);
}

#[test]
fn aggregate_extension_b_channels() {
    let local = Input::default();
    let mut b = Input::default();
    b.analog = AnalogInputs { a0: 10, a1: 20, a2: 30, a3: 40, a4: 50, a5: 60 };
    b.other_input_one = [5u8; 24];
    b.other_input_two = [6u8; 24];
    b.numpad.three = true;
    let mut a = Input::default();
    a.analog = AnalogInputs { a0: 1, a1: 2, a2: 3, a3: 4, a4: 5, a5: 6 };
    a.other_input_one = [7u8; 24];
    a.keypad.q = true;
    let combined = aggregate(local, Some(a), Some(b));
    assert_eq!(combined.analog, AnalogInputs { a0: 1, a1: 2, a2: 3, a3: 10, a4: 20, a5: 30 });
    assert_eq!(combined.other_input_one, [7u8; 24]);
    assert_eq!(combined.other_input_two, [5u8; 24]);
    assert!(combined.numpad.three);
    assert!(combined.keypad.q);
}

#[test]
fn aggregate_local_keys_never_override_analog() {
    let mut local = Input::default();
    local.keypad.shift = true;
    local.analog.a0 = 999;
    let mut a = Input::default();
    a.analog.a0 = 5;
    let combined = aggregate(local, Some(a), None);
    assert!(combined.keypad.shift);
    assert_eq!(combined.analog.a0, 5);
}

#[test]
fn controller_pins() {
    let mut input = Input::default();
    input.keypad.c = true;
    read_pins(&mut input, 100, 200, true, false);
    assert!(input.keypad.a && !input.keypad.b && input.keypad.c);
    assert_eq!(input.analog.a0, 100);
    assert_eq!(input.analog.a1, 200);
}

#[test]
fn enable_edges() {
    assert_eq!(on_enable_edge(false, true), (true, true));
    assert_eq!(on_enable_edge(true, true), (true, false));
    assert_eq!(on_enable_edge(true, false), (false, false));
    assert_eq!(on_enable_edge(false, false), (false, false));
}

#[test]
fn controller_replies() {
    let mut input = Input::default();
    read_pins(&mut input, 0x1234, 7, true, true);
    assert_eq!(controller_reply(2, &input), vec![0b0110_0000, 0, 0, 0]);
    assert_eq!(controller_reply(4, &input), vec![0x34, 0x12, 7, 0, 0, 0, 0, 0, 0, 0, 0, 0]);
    assert_eq!(controller_reply(0, &input).len(), 71);
    assert_eq!(controller_reply(5, &input), Vec::<u8>::new());
    assert_eq!(controller_reply(6, &input), Vec::<u8>::new());
    assert_eq!(controller_reply(9, &input), Vec::<u8>::new());
}
