//! Properties that relate several functions of the library.
use vstd::prelude::*;
use crate::aggregate::combined;
use crate::analog::AnalogInputs;
use crate::auxiliary::Auxiliary;
use crate::input::Input;
use crate::keypad::Keypad;
use crate::numpad::Numpad;
use crate::bits::lemma_le16_bytes;
use crate::packing::{lemma_array24_view, Pack, PackingError, Unpack};

verus! {

/// Unpacking what packing a state emits gives the state back, and the packed form
/// has exactly the declared length.
pub proof fn lemma_input_round_trip(x: Input)
    ensures
        x.packed().len() == Input::packed_len(),
        Input::unpacked(x.packed()) == Ok::<Input, PackingError>(x),
{
    x.lemma_round_trip();
}

/// Unpacking the packed numeric keys gives them back; the packed form is two bytes.
pub proof fn lemma_numpad_round_trip(x: Numpad)
    ensures
        x.packed().len() == Numpad::packed_len(),
        Numpad::unpacked(x.packed()) == Ok::<Numpad, PackingError>(x),
{
    x.lemma_round_trip();
    assert(x.packed()[0] == x.packed_byte(0));
    assert(x.packed()[1] == x.packed_byte(1));
}

/// Unpacking the packed letter keys gives them back; the packed form is four bytes.
pub proof fn lemma_keypad_round_trip(x: Keypad)
    ensures
        x.packed().len() == Keypad::packed_len(),
        Keypad::unpacked(x.packed()) == Ok::<Keypad, PackingError>(x),
{
    x.lemma_round_trip();
    assert(x.packed()[0] == x.packed_byte(0));
    assert(x.packed()[1] == x.packed_byte(1));
    assert(x.packed()[2] == x.packed_byte(2));
    assert(x.packed()[3] == x.packed_byte(3));
}

/// Unpacking the packed symbol keys gives them back; the packed form is four bytes.
pub proof fn lemma_auxiliary_round_trip(x: Auxiliary)
    ensures
        x.packed().len() == Auxiliary::packed_len(),
        Auxiliary::unpacked(x.packed()) == Ok::<Auxiliary, PackingError>(x),
{
    x.lemma_round_trip();
    assert(x.packed()[0] == x.packed_byte(0));
    assert(x.packed()[1] == x.packed_byte(1));
    assert(x.packed()[2] == x.packed_byte(2));
    assert(x.packed()[3] == x.packed_byte(3));
}

/// Unpacking the packed analog channels gives them back; the packed form is twelve bytes.
pub proof fn lemma_analog_round_trip(x: AnalogInputs)
    ensures
        x.packed().len() == AnalogInputs::packed_len(),
        AnalogInputs::unpacked(x.packed()) == Ok::<AnalogInputs, PackingError>(x),
{
    x.lemma_round_trip();
    assert(x.packed().take(12) =~= x.packed());
}

/// With no extension present, the combined state holds the local keys, zero analog
/// channels and zero payloads.
pub proof fn lemma_no_extensions(local: Input)
    ensures
        combined(local, None, None).numpad == local.numpad,
        combined(local, None, None).keypad == local.keypad,
        combined(local, None, None).auxiliary == local.auxiliary,
        combined(local, None, None).analog == AnalogInputs::zero(),
        combined(local, None, None).other_input_one == Input::empty().other_input_one,
        combined(local, None, None).other_input_two == Input::empty().other_input_two,
{
    local.numpad.lemma_none_or();
    local.keypad.lemma_none_or();
    local.auxiliary.lemma_none_or();
}

/// The second extension's first three analog channels become channels 3 to 5 of the
/// combined state; its own channels 3 to 5 are dropped, and channels 0 to 2 come
/// from the baseline.
pub proof fn lemma_extension_b_channels(local: Input, extension_a: Option<Input>, b: Input)
    ensures
        combined(local, extension_a, Some(b)).analog.a3 == b.analog.a0,
        combined(local, extension_a, Some(b)).analog.a4 == b.analog.a1,
        combined(local, extension_a, Some(b)).analog.a5 == b.analog.a2,
        combined(local, extension_a, Some(b)).analog.a0 == combined(local, extension_a, None).analog.a0,
        combined(local, extension_a, Some(b)).analog.a1 == combined(local, extension_a, None).analog.a1,
        combined(local, extension_a, Some(b)).analog.a2 == combined(local, extension_a, None).analog.a2,
        combined(local, extension_a, Some(b)).other_input_two == b.other_input_one,
{
}

proof fn lemma_numpad_repack(b0: u8, b1: u8)
    requires
        b1 & 0x3f == 0,
    ensures
        Numpad::from_bytes(b0, b1).packed() == seq![b0, b1],
{
    assert(b1 & 0x3f == 0 ==> b1 % 64 == 0) by (bit_vector);
    Numpad::lemma_unpack_round_trip(b0, b1);
    assert(Numpad::from_bytes(b0, b1).packed() =~= seq![b0, b1]);
}

proof fn lemma_keypad_repack(b0: u8, b1: u8, b2: u8, b3: u8)
    requires
        b3 & 0x07 == 0,
    ensures
        Keypad::from_bytes(b0, b1, b2, b3).packed() == seq![b0, b1, b2, b3],
{
    assert(b3 & 0x07 == 0 ==> b3 % 8 == 0) by (bit_vector);
    Keypad::lemma_unpack_round_trip(b0, b1, b2, b3);
    assert(Keypad::from_bytes(b0, b1, b2, b3).packed() =~= seq![b0, b1, b2, b3]);
}

proof fn lemma_auxiliary_repack(b0: u8, b1: u8, b2: u8, b3: u8)
    ensures
        Auxiliary::from_bytes(b0, b1, b2, b3).packed() == seq![b0, b1, b2, b3],
{
    Auxiliary::lemma_unpack_round_trip(b0, b1, b2, b3);
    assert(Auxiliary::from_bytes(b0, b1, b2, b3).packed() =~= seq![b0, b1, b2, b3]);
}

proof fn lemma_analog_repack(b: Seq<u8>)
    requires
        b.len() == 12,
    ensures
        AnalogInputs::from_bytes(b).packed() == b,
{
    lemma_le16_bytes(b[0], b[1]);
    lemma_le16_bytes(b[2], b[3]);
    lemma_le16_bytes(b[4], b[5]);
    lemma_le16_bytes(b[6], b[7]);
    lemma_le16_bytes(b[8], b[9]);
    lemma_le16_bytes(b[10], b[11]);
    assert(AnalogInputs::from_bytes(b).packed() =~= b);
}

proof fn lemma_input_keys_repack(b: Seq<u8>)
    requires
        b.len() >= 71,
        b[1] & 0x3f == 0,
        b[5] & 0x07 == 0,
    ensures
        Input::from_bytes(b).numpad.packed() == b.subrange(0, 2),
        Input::from_bytes(b).keypad.packed() == b.subrange(2, 6),
        Input::from_bytes(b).auxiliary.packed() == b.subrange(6, 10),
{
    lemma_numpad_repack(b[0], b[1]);
    lemma_keypad_repack(b[2], b[3], b[4], b[5]);
    lemma_auxiliary_repack(b[6], b[7], b[8], b[9]);
    assert(seq![b[0], b[1]] =~= b.subrange(0, 2));
    assert(seq![b[2], b[3], b[4], b[5]] =~= b.subrange(2, 6));
    assert(seq![b[6], b[7], b[8], b[9]] =~= b.subrange(6, 10));
}

proof fn lemma_input_values_repack(b: Seq<u8>)
    requires
        b.len() >= 71,
    ensures
        Input::from_bytes(b).analog.packed() == b.subrange(10, 22),
        Input::from_bytes(b).other_input_one@ == b.subrange(22, 46),
        Input::from_bytes(b).other_input_two@ == b.subrange(46, 70),
{
    lemma_analog_repack(b.subrange(10, 22));
    lemma_array24_view(b.subrange(22, 46));
    lemma_array24_view(b.subrange(46, 70));
}

/// Unpacking 71 bytes and packing the state again gives the first 70 bytes back, where
/// the bits that hold no key are clear (the low six bits of byte 1, the low three
/// bits of byte 5); the reserved byte 70 is packed as zero.
pub proof fn lemma_input_unpack_round_trip(b: Seq<u8>)
    requires
        b.len() >= 71,
        b[1] & 0x3f == 0,
        b[5] & 0x07 == 0,
    ensures
        Input::unpacked(b) == Ok::<Input, PackingError>(Input::from_bytes(b)),
        Input::from_bytes(b).packed().subrange(0, 70) == b.subrange(0, 70),
        Input::from_bytes(b).packed()[70] == 0,
{
    lemma_input_keys_repack(b);
    lemma_input_values_repack(b);
    let joined = b.subrange(0, 2) + b.subrange(2, 6) + b.subrange(6, 10) + b.subrange(10, 22) + b.subrange(22, 46)
        + b.subrange(46, 70);
    assert(joined =~= b.subrange(0, 70));
    assert(Input::from_bytes(b).packed() == joined + seq![0u8]);
    assert(Input::from_bytes(b).packed().subrange(0, 70) =~= joined);
}

} // verus!
