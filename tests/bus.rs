use pipboy_input::input::{Input, InputRequest};
use pipboy_input::multitap::{check_four_input, check_three_input, MultiTap};
use pipboy_input::packing::Pack;
use pipboy_input::responder::{response, BusAction, BusEvent, BusSession};

fn sample_state() -> Input {
    let mut input = Input::default();
    input.numpad.five = true;
    input.keypad.k = true;
    input.auxiliary.question = true;
    input.analog.a2 = 0xBEEF;
    input.other_input_one[3] = 9;
    input.other_input_two[23] = 4;
    input
}

#[test]
fn full_state_read_then_readdress() {
    let input = sample_state();
    let decode = [0u8; 248];
    let mut session = BusSession::new(0x10);
    assert_eq!(session.on_event(BusEvent::Start(0x00), &input, &decode, &decode), BusAction::Nothing);
    let mut got = Vec::new();
    for _ in 0..71 {
        match session.on_event(BusEvent::Read, &input, &decode, &decode) {
            BusAction::Send(b) => got.push(b),
            other => panic!("unexpected {:?}", other),
        }
    }
    let mut expected = [0u8; 71];
    input.pack(&mut expected).unwrap();
    assert_eq!(got, expected.to_vec());
    assert_eq!(session.on_event(BusEvent::Read, &input, &decode, &decode), BusAction::Nothing);
    assert_eq!(session.on_event(BusEvent::Stop, &input, &decode, &decode), BusAction::Nothing);
    assert_eq!(session.request, None);

    assert_eq!(session.on_event(BusEvent::Start(0x09), &input, &decode, &decode), BusAction::Nothing);
    assert_eq!(session.on_event(BusEvent::Write(0x42), &input, &decode, &decode), BusAction::Readdress(0x42));
    assert_eq!(session.on_event(BusEvent::Stop, &input, &decode, &decode), BusAction::Nothing);
    assert_eq!(session.address, 0x42);

    assert_eq!(session.on_event(BusEvent::Start(0x09), &input, &decode, &decode), BusAction::Nothing);
    assert_eq!(session.on_event(BusEvent::Read, &input, &decode, &decode), BusAction::Send(0x42));
}

#[test]
fn write_without_set_address_is_ignored() {
    let input = sample_state();
    let mut session = BusSession::new(7);
    session.on_event(BusEvent::Start(0x01), &input, &[], &[]);
    assert_eq!(session.on_event(BusEvent::Write(0x55), &input, &[], &[]), BusAction::Nothing);
    assert_eq!(session.address, 7);
    assert_eq!(session.on_event(BusEvent::Restart(0x04), &input, &[], &[]), BusAction::Nothing);
    assert_eq!(session.on_event(BusEvent::Read, &input, &[], &[]), BusAction::Send(0));
    session.on_event(BusEvent::Stop, &input, &[], &[]);
    assert_eq!(session.on_event(BusEvent::Read, &input, &[], &[]), BusAction::Nothing);
}

#[test]
fn unknown_instruction_means_set_address() {
    let input = sample_state();
    let mut session = BusSession::new(3);
    session.on_event(BusEvent::Start(0xF0), &input, &[], &[]);
    assert_eq!(session.request, Some(InputRequest::SetAddress));
    assert_eq!(session.on_event(BusEvent::Write(0x21), &input, &[], &[]), BusAction::Readdress(0x21));
}

#[test]
fn responses_per_request() {
    let input = sample_state();
    let one = [1u8; 248];
    let two = [2u8; 248];
    assert_eq!(response(InputRequest::Numpad, &input, &one, &two, 5), vec![0b0000_0100, 0]);
    assert_eq!(response(InputRequest::Keypad, &input, &one, &two, 5), vec![0, 0b0001_0000, 0, 0]);
    assert_eq!(response(InputRequest::Auxiliary, &input, &one, &two, 5), vec![0, 0, 0, 1]);
    assert_eq!(response(InputRequest::Analog, &input, &one, &two, 5), vec![0, 0, 0, 0, 0xEF, 0xBE, 0, 0, 0, 0, 0, 0]);
    assert_eq!(response(InputRequest::DecodeOne, &input, &one, &two, 5), one.to_vec());
    assert_eq!(response(InputRequest::DecodeTwo, &input, &one, &two, 5), two.to_vec());
    assert_eq!(response(InputRequest::OtherOne, &input, &one, &two, 5), input.other_input_one.to_vec());
    assert_eq!(response(InputRequest::OtherTwo, &input, &one, &two, 5), input.other_input_two.to_vec());
    assert_eq!(response(InputRequest::SetAddress, &input, &one, &two, 5), vec![5]);
    assert_eq!(response(InputRequest::FullInput, &input, &one, &two, 5).len(), 71);
}

#[test]
fn three_letter_cycle() {
    let mut click = 0u8;
    assert_eq!(check_three_input(1_000_000, None, &mut click), (true, false, false));
    assert_eq!(click, 0);
    assert_eq!(check_three_input(1_100_000, Some(1_000_000), &mut click), (false, true, false));
    assert_eq!(check_three_input(1_200_000, Some(1_100_000), &mut click), (false, false, true));
    assert_eq!(check_three_input(1_300_000, Some(1_200_000), &mut click), (true, false, false));
    assert_eq!(check_three_input(1_400_000, Some(1_300_000), &mut click), (false, true, false));
    assert_eq!(check_three_input(1_900_000, Some(1_400_000), &mut click), (true, false, false));
    assert_eq!(click, 0);
}

#[test]
fn four_letter_cycle() {
    let mut click = 2u8;
    assert_eq!(check_four_input(10, Some(5), &mut click), (false, false, false, true));
    assert_eq!(check_four_input(20, Some(10), &mut click), (true, false, false, false));
    assert_eq!(check_four_input(600_020, Some(20), &mut click), (true, false, false, false));
    let mut click = 7u8;
    assert_eq!(check_four_input(5, None, &mut click), (true, false, false, false));
    assert_eq!(click, 0);
}

#[test]
fn multitap_ticks() {
    let mut key = MultiTap::new();
    assert_eq!(key.tick(true, 0, 3), Some(0));
    assert_eq!(key.tick(true, 10_000, 3), Some(1));
    assert_eq!(key.tick(false, 20_000, 3), None);
    assert_eq!(key.last_time, Some(20_000));
    assert_eq!(key.tick(false, 30_000, 3), None);
    assert_eq!(key.last_time, Some(20_000));
    assert_eq!(key.tick(true, 400_000, 3), Some(2));
    assert_eq!(key.tick(false, 410_000, 3), None);
    assert_eq!(key.tick(true, 2_000_000, 3), Some(0));
}
