use nes_core::controller::Controller;

#[test]
fn latch_then_eight_reads_give_the_buttons_in_order() {
    let mut pad = Controller::new();
    pad.set_button(0, true);
    pad.set_button(3, true);
    pad.write(0x01);
    pad.write(0x00);
    let mut bits = Vec::new();
    for _ in 0..8 {
        bits.push(pad.read());
    }
    assert_eq!(bits, vec![1, 0, 0, 1, 0, 0, 0, 0]);
}

#[test]
fn strobe_high_keeps_returning_the_first_button() {
    let mut pad = Controller::new();
    pad.set_button(0, true);
    pad.set_button(1, true);
    pad.write(0x01);
    assert!(pad.strobe);
    for _ in 0..10 {
        assert_eq!(pad.read(), 1);
    }
    pad.set_button(0, false);
    assert_eq!(pad.read(), 0);
    // the latch takes what is held when the strobe falls
    pad.set_button(7, true);
    pad.write(0x00);
    let bits: Vec<u8> = (0..8).map(|_| pad.read()).collect();
    assert_eq!(bits, vec![0, 1, 0, 0, 0, 0, 0, 1]);
}

#[test]
fn reads_after_the_eighth_return_one() {
    let mut pad = Controller::new();
    pad.write(0x01);
    pad.write(0x00);
    for _ in 0..8 {
        assert_eq!(pad.read(), 0);
    }
    for _ in 0..8 {
        assert_eq!(pad.read(), 1);
    }
    assert_eq!(pad.shift_register, 0xFF);
}

#[test]
fn only_bit_zero_of_a_write_is_the_strobe() {
    let mut pad = Controller::new();
    pad.set_button(2, true);
    pad.write(0xFE);
    assert!(!pad.strobe);
    assert_eq!(pad.shift_register, 0);
    pad.write(0xFF);
    assert!(pad.strobe);
    assert_eq!(pad.shift_register, 0x04);
    // without a strobe the buttons do not reach the shift register
    pad.write(0x00);
    pad.set_button(3, true);
    pad.write(0x00);
    assert_eq!(pad.shift_register, 0x04);
}

#[test]
fn buttons_are_bits_zero_to_seven() {
    let mut pad = Controller::new();
    for button in 0..8 {
        pad.set_button(button, true);
        assert_eq!(pad.button_state, 1 << button);
        pad.set_button(button, false);
        assert_eq!(pad.button_state, 0);
    }
    pad.set_button(8, true);
    pad.set_button(255, true);
    assert_eq!(pad.button_state, 0);
    pad.set_button(1, true);
    pad.set_button(6, true);
    pad.set_button(1, true);
    assert_eq!(pad.button_state, 0x42);
    assert_eq!(
        [
            nes_core::controller::BTN_A,
            nes_core::controller::BTN_B,
            nes_core::controller::BTN_SELECT,
            nes_core::controller::BTN_START,
            nes_core::controller::BTN_UP,
            nes_core::controller::BTN_DOWN,
            nes_core::controller::BTN_LEFT,
            nes_core::controller::BTN_RIGHT
        ],
        [0, 1, 2, 3, 4, 5, 6, 7]
    );
}

#[test]
fn reset_releases_everything() {
    let mut pad = Controller::new();
    pad.set_button(4, true);
    pad.write(0x01);
    pad.reset();
    assert_eq!((pad.button_state, pad.shift_register, pad.strobe), (0, 0, false));
}
