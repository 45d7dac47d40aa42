use nes_rust::audio::{Audio, Sample};
use nes_rust::button::{Button, Event};
use nes_rust::default_audio::DefaultAudio;
use nes_rust::default_display::DefaultDisplay;
use nes_rust::default_input::DefaultInput;
use nes_rust::display::Display;
use nes_rust::input::Input;
use nes_rust::wasm_display::WasmDisplay;
use nes_rust::wasm_input::WasmInput;
use nes_rust::Nes;

#[test]
fn default_display_keeps_the_last_colour_of_a_pixel() {
    let mut d = DefaultDisplay::new();
    d.render_pixel(1, 0, 0x112233);
    d.render_pixel(1, 0, 0x445566);
    d.render_pixel(255, 239, 0xa0b0c0);
    d.vblank();
    let mut out = vec![9u8; 245760 + 1];
    d.copy_to_rgba_pixels(&mut out);
    assert_eq!(&out[0..4], &[0, 0, 0, 255]);
    assert_eq!(&out[4..8], &[0x66, 0x55, 0x44, 255]);
    let last = (239 * 256 + 255) * 4;
    assert_eq!(&out[last..last + 4], &[0xc0, 0xb0, 0xa0, 255]);
    assert_eq!(9, out[245760]);
}

#[test]
fn default_input_hands_events_out_in_order() {
    let mut input = DefaultInput::new();
    assert!(input.get_input().is_none());
    input.press(Button::Joypad1A);
    input.release(Button::Start);
    assert!(matches!(input.get_input(), Some((Button::Joypad1A, Event::Press))));
    assert!(matches!(input.get_input(), Some((Button::Start, Event::Release))));
    assert!(input.get_input().is_none());
}

fn level(n: u8) -> Sample {
    Sample { pulse1: n, pulse2: 0, triangle: 0, noise: 0, dmc: 0 }
}

#[test]
fn default_audio_pads_a_pull_with_the_last_sample() {
    let mut audio = DefaultAudio::new();
    audio.push(level(3));
    audio.push(level(5));
    let mut out = vec![level(9); 4097];
    audio.copy_sample_buffer(&mut out);
    assert_eq!(3, out[0].pulse1);
    assert_eq!(5, out[1].pulse1);
    assert_eq!(5, out[2].pulse1);
    assert_eq!(5, out[4095].pulse1);
    assert_eq!(9, out[4096].pulse1);
    let mut again = vec![level(9); 4096];
    audio.copy_sample_buffer(&mut again);
    assert_eq!(5, again[0].pulse1);
}

#[test]
fn default_audio_drops_what_does_not_fit() {
    let mut audio = DefaultAudio::new();
    for i in 0..8200u32 {
        audio.push(level((i % 251) as u8));
    }
    let mut out = vec![level(0); 4096];
    audio.copy_sample_buffer(&mut out);
    assert_eq!(1, out[1].pulse1);
    audio.copy_sample_buffer(&mut out);
    assert_eq!((4096 % 251) as u8, out[0].pulse1);
    assert_eq!((8191 % 251) as u8, out[4095].pulse1);
    audio.copy_sample_buffer(&mut out);
    assert_eq!((8191 % 251) as u8, out[0].pulse1);
}

#[test]
fn default_audio_counts_what_waits() {
    let mut audio = DefaultAudio::new();
    assert_eq!(0, audio.waiting());
    audio.push(level(1));
    audio.push(level(2));
    assert_eq!(2, audio.waiting());
    let mut out = vec![level(0); 4096];
    audio.copy_sample_buffer(&mut out);
    assert_eq!(0, audio.waiting());
}

#[test]
fn wasm_input_hands_events_out_in_order() {
    let mut input = WasmInput::new();
    assert!(input.get_input().is_none());
    input.press(Button::Joypad1B);
    input.release(Button::Joypad1B);
    input.press(Button::Reset);
    assert!(matches!(input.get_input(), Some((Button::Joypad1B, Event::Press))));
    assert!(matches!(input.get_input(), Some((Button::Joypad1B, Event::Release))));
    assert!(matches!(input.get_input(), Some((Button::Reset, Event::Press))));
    assert!(input.get_input().is_none());
}

#[test]
fn wasm_display_starts_black_and_keeps_what_is_drawn() {
    let mut d = WasmDisplay::new();
    let mut out = vec![9u8; 245760];
    d.copy_to_rgba_pixels(&mut out);
    assert_eq!(&out[0..4], &[0, 0, 0, 255]);
    assert_eq!(&out[245756..245760], &[0, 0, 0, 255]);
    d.render_pixel(2, 1, 0x102030);
    d.vblank();
    d.copy_to_rgba_pixels(&mut out);
    let at = (256 + 2) * 4;
    assert_eq!(&out[at..at + 4], &[0x30, 0x20, 0x10, 255]);
}

#[test]
fn a_console_runs_on_the_wasm_sinks() {
    let mut nes = Nes::new(WasmInput::new(), WasmDisplay::new(), DefaultAudio::new());
    assert!(!nes.is_power_on());
    nes.press_button(Button::Start);
    nes.release_button(Button::Start);
    nes.step_frame();
    assert!(!nes.is_power_on());
}

