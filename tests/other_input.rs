use pipboy_input::other::{DataSize, DataType, Decode, DecodeError, DecodeInstructions, DecodedInput};
use pipboy_input::packing::{Pack, PackingError, Unpack};

fn sample_sizes() -> [DataSize; 24] {
    let mut data_sizes = [DataSize::One; 24];
    data_sizes[1] = DataSize::Two;
    data_sizes[2] = DataSize::Four;
    data_sizes[3] = DataSize::Eight;
    data_sizes
}

fn sample_types() -> [DataType; 24] {
    let mut data_types = [DataType::Unsigned; 24];
    data_types[1] = DataType::Signed;
    data_types[2] = DataType::Floating;
    data_types
}

fn sample_fields() -> [[u8; 10]; 24] {
    let mut fields = [[0u8; 10]; 24];
    fields[0][0..5].copy_from_slice(b"test0");
    fields[1][0..5].copy_from_slice(b"test1");
    fields[2][0..5].copy_from_slice(b"test2");
    fields[3][0..5].copy_from_slice(b"test3");
    fields[4][0..5].copy_from_slice(b"test4");
    fields[5][0..5].copy_from_slice(b"test5");
    fields[6][0..5].copy_from_slice(b"test6");
    fields[7][0..5].copy_from_slice(b"test7");
    fields[8][0..5].copy_from_slice(b"test8");
    fields[9][0..5].copy_from_slice(b"test9");
    fields
}

fn sample_buffer() -> [u8; 248] {
    let mut buffer = [0u8; 248];
    buffer[0] = 0x12;
    buffer[1] = 0x12;
    buffer[2] = 0b00100101;
    buffer[3] = 0b11111110;
    buffer[4] = 0b00000111;
    buffer[5] = 0b1110_0101;
    buffer[6] = 0b1111_1111;
    buffer[7] = 0b1111_1111;
    buffer[8..13].copy_from_slice(b"test0");
    buffer[18..23].copy_from_slice(b"test1");
    buffer[28..33].copy_from_slice(b"test2");
    buffer[38..43].copy_from_slice(b"test3");
    buffer[48..53].copy_from_slice(b"test4");
    buffer[58..63].copy_from_slice(b"test5");
    buffer[68..73].copy_from_slice(b"test6");
    buffer[78..83].copy_from_slice(b"test7");
    buffer[88..93].copy_from_slice(b"test8");
    buffer[98..103].copy_from_slice(b"test9");
    buffer
}

#[test]
fn test_pack_data_sizes() {
    let mut buffer = [0u8; 3];
    let data_sizes = sample_sizes();
    data_sizes.pack(&mut buffer).unwrap();
    let expected_buffer = [0b00100101, 0b11111110, 0b00000111];
    assert_eq!(buffer, expected_buffer);
}

#[test]
fn test_unpack_data_sizes() {
    let buffer = [0b00100101, 0b11111110, 0b00000111];
    let data_sizes = <[DataSize; 24]>::unpack(&buffer).unwrap();
    assert_eq!(data_sizes, sample_sizes());
}

#[test]
fn test_pack_data_types() {
    let mut buffer = [0u8; 3];
    let data_types = sample_types();
    data_types.pack(&mut buffer).unwrap();
    let expected_buffer = [0b1110_0101, 0b1111_1111, 0b1111_1111];
    assert_eq!(buffer, expected_buffer);
}

#[test]
fn test_unpack_data_types() {
    let buffer = [0b1110_0101, 0b1111_1111, 0b1111_1111];
    let data_types = <[DataType; 24]>::unpack(&buffer).unwrap();
    assert_eq!(data_types, sample_types());
}

#[test]
fn test_pack_other_input_decode_instructions() {
    let decode_instruction = DecodeInstructions {
        module_id: 0x1212,
        data_sizes: sample_sizes(),
        data_types: sample_types(),
        fields: sample_fields(),
    };
    let mut buffer = [0u8; 248];
    decode_instruction.pack(&mut buffer).unwrap();
    let expected_buffer = sample_buffer();
    assert_eq!(expected_buffer, buffer);
}

#[test]
fn test_unpack_other_input_decode_instructions() {
    // The size stream describes 13 slots and the type stream 21: the streams
    // disagree, which is a decode error.
    let buffer = sample_buffer();
    let decode_instruction = DecodeInstructions::unpack(&buffer);
    assert_eq!(decode_instruction, Err(PackingError::InvalidEncoding));
}

#[test]
fn test_pack_unpack_other_input_decode_instructions() {
    let decode_instruction = DecodeInstructions {
        module_id: 0x1212,
        data_sizes: sample_sizes(),
        data_types: sample_types(),
        fields: sample_fields(),
    };
    assert!(!decode_instruction.is_consistent());
    let mut buffer = [0u8; 248];
    decode_instruction.clone().pack(&mut buffer).unwrap();
    let instruction = DecodeInstructions::unpack(&buffer);
    assert_eq!(instruction, Err(PackingError::InvalidEncoding));
}

#[test]
fn consistent_decode_instructions_round_trip() {
    // Thirteen slots in both streams: the sizes reach 24 bytes and the types 24 bits.
    let mut data_types = [DataType::Signed; 24];
    data_types[0] = DataType::Unsigned;
    data_types[2] = DataType::Floating;
    data_types[11] = DataType::Unsigned;
    data_types[12] = DataType::Unsigned;
    for t in data_types.iter_mut().skip(13) {
        *t = DataType::Unsigned;
    }
    let decode_instruction = DecodeInstructions {
        module_id: 0xBEEF,
        data_sizes: sample_sizes(),
        data_types,
        fields: sample_fields(),
    };
    assert!(decode_instruction.is_consistent());
    let mut buffer = [0u8; 248];
    decode_instruction.pack(&mut buffer).unwrap();
    assert_eq!(&buffer[0..5], &[0xEF, 0xBE, 0b00100101, 0b11111110, 0b00000111]);
    assert_eq!(DecodeInstructions::unpack(&buffer), Ok(decode_instruction));
}

#[test]
fn size_tags_round_trip_all_eights() {
    let mut sizes = [DataSize::One; 24];
    sizes[0] = DataSize::Eight;
    sizes[1] = DataSize::Eight;
    sizes[2] = DataSize::Eight;
    let mut buffer = [0u8; 3];
    sizes.pack(&mut buffer).unwrap();
    assert_eq!(buffer, [0b1000_1000, 0b0000_1000, 0]);
    assert_eq!(<[DataSize; 24]>::unpack(&buffer).unwrap(), sizes);
}

#[test]
fn size_tags_round_trip_mixed() {
    let mut sizes = [DataSize::One; 24];
    sizes[0] = DataSize::Four;
    sizes[1] = DataSize::Two;
    sizes[2] = DataSize::Eight;
    sizes[3] = DataSize::Four;
    sizes[4] = DataSize::Two;
    sizes[5] = DataSize::One;
    let mut buffer = [0u8; 3];
    sizes.pack(&mut buffer).unwrap();
    assert_eq!(<[DataSize; 24]>::unpack(&buffer).unwrap(), sizes);
}

#[test]
fn tag_streams_that_end_mid_code_are_rejected() {
    assert_eq!(<[DataSize; 24]>::unpack(&[0u8; 3]), Err(PackingError::InvalidEncoding));
    assert_eq!(<[DataType; 24]>::unpack(&[0u8; 3]), Err(PackingError::InvalidEncoding));
    assert_eq!(<[DataSize; 24]>::unpack(&[0u8; 2]), Err(PackingError::InvalidBufferSize));
    let mut short = sample_buffer();
    short[2] = 0;
    assert_eq!(DecodeInstructions::unpack(&short), Err(PackingError::InvalidEncoding));
    assert_eq!(DecodeInstructions::unpack(&[0u8; 247]), Err(PackingError::InvalidBufferSize));
}

#[test]
fn decode_out_of_bounds_eight_byte_slots() {
    let mut instructions = DecodeInstructions::default();
    instructions.data_sizes = [DataSize::Eight; 24];
    let mut input = [0u8; 24];
    input[16] = 7;
    assert_eq!(input.decode(23, &instructions), Err(DecodeError::OutOfBounds));
    assert_eq!(input.decode(3, &instructions), Err(DecodeError::OutOfBounds));
    assert_eq!(input.decode(2, &instructions), Ok(DecodedInput::U64 { value: 7, name: [0u8; 10] }));
    assert_eq!(input.decode(24, &instructions), Err(DecodeError::OutOfBounds));
}

#[test]
fn decode_small_floats_are_unknown() {
    let mut instructions = DecodeInstructions::default();
    instructions.data_types[0] = DataType::Floating;
    let input = [0u8; 24];
    assert_eq!(input.decode(0, &instructions), Err(DecodeError::UnknownDataType));
    instructions.data_sizes[0] = DataSize::Two;
    assert_eq!(input.decode(0, &instructions), Err(DecodeError::UnknownDataType));
}

#[test]
fn test_decode_u8() {
    let mut decode_instructions = DecodeInstructions::default();
    decode_instructions.fields[1] = *b"dinosaur__";
    let mut input = [0u8; 24];
    input[1] = 255;
    if let DecodedInput::U8 { value, name } = input.decode(1, &decode_instructions).unwrap() {
        assert_eq!(value, 255);
        assert_eq!(&name, b"dinosaur__");
    } else {
        assert!(false);
    }
}

#[test]
fn test_decode_u16() {
    let mut decode_instructions = DecodeInstructions::default();
    decode_instructions.data_sizes[1] = DataSize::Two;
    decode_instructions.fields[1] = *b"dinosaur__";
    let mut input = [0u8; 24];
    input[1..3].copy_from_slice(&0x1234u16.to_le_bytes());
    if let DecodedInput::U16 { value, name } = input.decode(1, &decode_instructions).unwrap() {
        assert_eq!(value, 0x1234);
        assert_eq!(&name, b"dinosaur__");
    } else {
        assert!(false);
    }
}

#[test]
fn test_decode_u32() {
    let mut decode_instructions = DecodeInstructions::default();
    decode_instructions.data_sizes[1] = DataSize::Four;
    decode_instructions.fields[1] = *b"dinosaur__";
    let mut input = [0u8; 24];
    input[1..5].copy_from_slice(&0x12345678u32.to_le_bytes());
    if let DecodedInput::U32 { value, name } = input.decode(1, &decode_instructions).unwrap() {
        assert_eq!(value, 0x12345678);
        assert_eq!(&name, b"dinosaur__");
    } else {
        assert!(false);
    }
}

#[test]
fn test_decode_u64() {
    let mut decode_instructions = DecodeInstructions::default();
    decode_instructions.data_sizes[1] = DataSize::Eight;
    decode_instructions.fields[1] = *b"dinosaur__";
    let mut input = [0u8; 24];
    input[1..9].copy_from_slice(&0x123456789012u64.to_le_bytes());
    if let DecodedInput::U64 { value, name } = input.decode(1, &decode_instructions).unwrap() {
        assert_eq!(value, 0x123456789012);
        assert_eq!(&name, b"dinosaur__");
    } else {
        assert!(false);
    }
}

#[test]
fn test_decode_i8() {
    let mut decode_instructions = DecodeInstructions::default();
    decode_instructions.data_types[1] = DataType::Signed;
    decode_instructions.fields[1] = *b"dinosaur__";
    let mut input = [0u8; 24];
    input[1] = (-24i8).to_le_bytes()[0];
    if let DecodedInput::I8 { value, name } = input.decode(1, &decode_instructions).unwrap() {
        assert_eq!(value, -24);
        assert_eq!(&name, b"dinosaur__");
    } else {
        assert!(false);
    }
}

#[test]
fn test_decode_i16() {
    let mut decode_instructions = DecodeInstructions::default();
    decode_instructions.data_sizes[1] = DataSize::Two;
    decode_instructions.data_types[1] = DataType::Signed;
    decode_instructions.fields[1] = *b"dinosaur__";
    let mut input = [0u8; 24];
    input[1..3].copy_from_slice(&(-0x1234i16).to_le_bytes());
    if let DecodedInput::I16 { value, name } = input.decode(1, &decode_instructions).unwrap() {
        assert_eq!(value, -0x1234);
        assert_eq!(&name, b"dinosaur__");
    } else {
        assert!(false);
    }
}

#[test]
fn test_decode_i32() {
    let mut decode_instructions = DecodeInstructions::default();
    decode_instructions.data_sizes[1] = DataSize::Four;
    decode_instructions.data_types[1] = DataType::Signed;
    decode_instructions.fields[1] = *b"dinosaur__";
    let mut input = [0u8; 24];
    input[1..5].copy_from_slice(&(-0x12345678i32).to_le_bytes());
    if let DecodedInput::I32 { value, name } = input.decode(1, &decode_instructions).unwrap() {
        assert_eq!(value, -0x12345678);
        assert_eq!(&name, b"dinosaur__");
    } else {
        assert!(false);
    }
}

#[test]
fn test_decode_i64() {
    let mut decode_instructions = DecodeInstructions::default();
    decode_instructions.data_sizes[1] = DataSize::Eight;
    decode_instructions.data_types[1] = DataType::Signed;
    decode_instructions.fields[1] = *b"dinosaur__";
    let mut input = [0u8; 24];
    input[1..9].copy_from_slice(&(-0x123456789012i64).to_le_bytes());
    if let DecodedInput::I64 { value, name } = input.decode(1, &decode_instructions).unwrap() {
        assert_eq!(value, -0x123456789012);
        assert_eq!(&name, b"dinosaur__");
    } else {
        assert!(false);
    }
}

#[test]
fn test_decode_f32() {
    let mut decode_instructions = DecodeInstructions::default();
    decode_instructions.data_sizes[1] = DataSize::Four;
    decode_instructions.data_types[1] = DataType::Floating;
    decode_instructions.fields[1] = *b"dinosaur__";
    let mut input = [0u8; 24];
    input[1..5].copy_from_slice(&(9.25f32).to_le_bytes());
    if let DecodedInput::F32 { bits, name } = input.decode(1, &decode_instructions).unwrap() {
        assert_eq!(f32::from_bits(bits), 9.25);
        assert_eq!(&name, b"dinosaur__");
    } else {
        assert!(false);
    }
}

#[test]
fn test_decode_f64() {
    let mut decode_instructions = DecodeInstructions::default();
    decode_instructions.data_sizes[1] = DataSize::Eight;
    decode_instructions.data_types[1] = DataType::Floating;
    decode_instructions.fields[1] = *b"dinosaur__";
    let mut input = [0u8; 24];
    input[1..9].copy_from_slice(&(125.75f64).to_le_bytes());
    if let DecodedInput::F64 { bits, name } = input.decode(1, &decode_instructions).unwrap() {
        assert_eq!(f64::from_bits(bits), 125.75);
        assert_eq!(&name, b"dinosaur__");
    } else {
        assert!(false);
    }
}
