use gameboy::buttons::{Btns, Button, DpadDirection, GbKeyEvent};

#[test]
fn input() {
    let mut btns = Btns::new();

    // All released
    btns.pick_row(0x30);
    assert_eq!(btns.data() & 0xF, 0xF);

    // A + read Btns
    btns.pick_row(!0x20);
    btns.press(GbKeyEvent::Button(Button::A));
    assert_eq!(btns.data(), 0b11011110);

    // Up + read DPad
    btns.pick_row(!0x10);
    btns.press(GbKeyEvent::Dpad(DpadDirection::Up));
    assert_eq!(btns.data(), 0b11101011);
}

#[test]
fn new_joypad_has_no_key_held() {
    let btns = Btns::new();
    assert_eq!(btns.row, 0xF0);
    assert_eq!(btns.btn_nib, 0x0F);
    assert_eq!(btns.dpad_nib, 0x0F);
    assert_eq!(btns.data(), 0xFF);
}

#[test]
fn each_key_has_its_own_bit() {
    let buttons = [
        (Button::A, 0x0E),
        (Button::B, 0x0D),
        (Button::Start, 0x0B),
        (Button::Select, 0x07),
    ];
    for (button, nibble) in buttons {
        let mut btns = Btns::new();
        btns.pick_row(0x10);
        btns.press(GbKeyEvent::Button(button));
        assert_eq!(btns.data(), 0xD0 | nibble);
    }
    let directions = [
        (DpadDirection::Right, 0x0E),
        (DpadDirection::Left, 0x0D),
        (DpadDirection::Up, 0x0B),
        (DpadDirection::Down, 0x07),
    ];
    for (direction, nibble) in directions {
        let mut btns = Btns::new();
        btns.pick_row(0x20);
        btns.press(GbKeyEvent::Dpad(direction));
        assert_eq!(btns.data(), 0xE0 | nibble);
    }
}

#[test]
fn release_undoes_press() {
    let mut btns = Btns::new();
    btns.pick_row(0x10);
    btns.press(GbKeyEvent::Button(Button::Start));
    btns.press(GbKeyEvent::Button(Button::A));
    assert_eq!(btns.data(), 0xDA);
    btns.release(GbKeyEvent::Button(Button::Start));
    assert_eq!(btns.data(), 0xDE);
    btns.release(GbKeyEvent::Button(Button::A));
    assert_eq!(btns.data(), 0xDF);
}

#[test]
fn a_key_of_the_other_column_is_not_seen() {
    let mut btns = Btns::new();
    btns.press(GbKeyEvent::Dpad(DpadDirection::Down));
    btns.pick_row(0x10);
    assert_eq!(btns.data(), 0xDF);
    btns.pick_row(0x20);
    assert_eq!(btns.data(), 0xE7);
}

#[test]
fn both_lines_low_join_the_two_columns() {
    let mut btns = Btns::new();
    btns.press(GbKeyEvent::Dpad(DpadDirection::Left));
    btns.press(GbKeyEvent::Button(Button::A));
    btns.pick_row(0x00);
    assert_eq!(btns.data(), 0xCF);
    btns.press(GbKeyEvent::Dpad(DpadDirection::Right));
    assert_eq!(btns.data(), 0xCE);
    btns.press(GbKeyEvent::Button(Button::B));
    assert_eq!(btns.data(), 0xCC);
}

#[test]
fn any_pressed_looks_at_both_columns() {
    let mut btns = Btns::new();
    assert!(!btns.any_pressed());
    btns.press(GbKeyEvent::Dpad(DpadDirection::Up));
    assert!(btns.any_pressed());
    btns.release(GbKeyEvent::Dpad(DpadDirection::Up));
    assert!(!btns.any_pressed());
    btns.press(GbKeyEvent::Button(Button::Select));
    assert!(btns.any_pressed());
    btns.pick_row(0x30);
    assert!(btns.any_pressed());
}

#[test]
fn both_lines_high_read_all_ones() {
    let mut btns = Btns::new();
    btns.press(GbKeyEvent::Dpad(DpadDirection::Left));
    btns.press(GbKeyEvent::Button(Button::A));
    btns.pick_row(0x30);
    assert_eq!(btns.data(), 0xFF);
}

#[test]
fn pick_row_takes_bits_four_and_five_only() {
    let mut btns = Btns::new();
    btns.pick_row(0x0F);
    assert_eq!(btns.row, 0xC0);
    btns.pick_row(0xFF);
    assert_eq!(btns.row, 0xF0);
    assert_eq!(btns.btn_nib, 0x0F);
    assert_eq!(btns.dpad_nib, 0x0F);
}
