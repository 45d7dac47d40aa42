use nes_rust::button::Event;
use nes_rust::joypad::{Button, Joypad};

fn read_eight(joypad: &mut Joypad) -> Vec<u8> {
    let mut reads = Vec::new();
    for _ in 0..8 {
        reads.push(joypad.load_register());
    }
    reads
}

#[test]
fn joypad_reports_buttons_in_read_order() {
    let mut joypad = Joypad::new();
    joypad.press_button(Button::A);
    joypad.press_button(Button::Start);
    joypad.press_button(Button::Right);
    joypad.store_register(1);
    joypad.store_register(0);
    assert_eq!(vec![1, 0, 0, 1, 0, 0, 0, 1], read_eight(&mut joypad));
}

#[test]
fn joypad_returns_one_once_all_buttons_are_read() {
    let mut joypad = Joypad::new();
    joypad.store_register(1);
    joypad.store_register(0);
    assert_eq!(vec![0; 8], read_eight(&mut joypad));
    for _ in 0..600 {
        assert_eq!(1, joypad.load_register());
    }
}

#[test]
fn joypad_strobe_high_keeps_reading_a() {
    let mut joypad = Joypad::new();
    joypad.press_button(Button::B);
    joypad.store_register(1);
    assert_eq!(0, joypad.load_register());
    assert_eq!(0, joypad.load_register());
    joypad.press_button(Button::A);
    assert_eq!(1, joypad.load_register());
    assert_eq!(1, joypad.load_register());
    joypad.store_register(0);
    assert_eq!(vec![1, 1, 0, 0, 0, 0, 0, 0], read_eight(&mut joypad));
}

#[test]
fn joypad_strobe_is_bit_zero_of_the_value() {
    let mut joypad = Joypad::new();
    joypad.press_button(Button::B);
    joypad.store_register(0);
    assert_eq!(0, joypad.load_register());
    // an even value leaves the strobe low and the index where it is
    joypad.store_register(0xFE);
    assert_eq!(1, joypad.load_register());
    // an odd value takes the index back to A
    joypad.store_register(0x03);
    joypad.store_register(0x02);
    assert_eq!(0, joypad.load_register());
    assert_eq!(1, joypad.load_register());
}

#[test]
fn joypad_press_then_release_reads_all_zero() {
    let mut joypad = Joypad::new();
    joypad.handle_input(Button::A, Event::Press);
    joypad.handle_input(Button::A, Event::Release);
    joypad.store_register(1);
    joypad.store_register(0);
    assert_eq!(vec![0; 8], read_eight(&mut joypad));
}

#[test]
fn joypad_release_then_press_reads_one_first() {
    let mut joypad = Joypad::new();
    joypad.handle_input(Button::A, Event::Release);
    joypad.handle_input(Button::A, Event::Press);
    joypad.store_register(1);
    joypad.store_register(0);
    assert_eq!(vec![1, 0, 0, 0, 0, 0, 0, 0], read_eight(&mut joypad));
}
