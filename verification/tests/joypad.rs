use gb_emulator::joypad::{bit, Button, Joypad};

#[test]
fn nothing_pressed_reads_all_ones() {
    let p = Joypad::new();
    // Default both sets deselected, no buttons pressed.
    assert_eq!(p.read() & 0x0F, 0x0F);
}

#[test]
fn pressing_a_with_action_selected_shows_low_bit_clear() {
    let mut p = Joypad::new();
    // Action selection: bit 5 = 0, bit 4 = 1 → write 0xDF.
    p.write(0xDF);
    p.set_state(bit(Button::A));
    // A is bit 0 of the action nibble.
    assert_eq!(p.read() & 0x01, 0);
}

#[test]
fn pressing_right_with_dpad_selected_shows_low_bit_clear() {
    let mut p = Joypad::new();
    // D-pad selection: bit 4 = 0, bit 5 = 1 → write 0xEF.
    p.write(0xEF);
    p.set_state(bit(Button::Right));
    assert_eq!(p.read() & 0x01, 0);
}

#[test]
fn dpad_press_invisible_when_only_action_selected() {
    let mut p = Joypad::new();
    p.write(0xDF); // action selection
    p.set_state(bit(Button::Down));
    // Down (bit 3 of dpad nibble) shouldn't appear in the action read.
    assert_eq!(p.read() & 0x0F, 0x0F);
}

#[test]
fn interrupt_fires_on_selected_press() {
    let mut p = Joypad::new();
    p.write(0xDF); // select action
    p.interrupt_request = false;
    p.set_state(bit(Button::Start));
    assert!(p.interrupt_request);
}

#[test]
fn interrupt_does_not_fire_on_unselected_press() {
    let mut p = Joypad::new();
    p.write(0xDF); // action selected, dpad NOT
    p.interrupt_request = false;
    p.set_state(bit(Button::Left)); // a dpad press
    assert!(!p.interrupt_request);
}
