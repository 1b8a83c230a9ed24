use chip8_core::cpu::Core;
use chip8_core::framebuffer::FrameBuffer;
use chip8_core::peripherals::{CurrentKeys, DownTimer, Keys, NullRandom};
use chip8_core::Chip8;

fn machine(words: &[u16], freq: u32) -> Chip8<CurrentKeys, FrameBuffer, NullRandom, DownTimer<'static>, DownTimer<'static>> {
    let mut mem = vec![0_u8; 4096];
    for (k, w) in words.iter().enumerate() {
        mem[0x200 + 2 * k] = (w >> 8) as u8;
        mem[0x200 + 2 * k + 1] = *w as u8;
    }
    let core = Core::new(mem, vec![0; 16], vec![0; 16]);
    Chip8::new(
        core,
        freq,
        CurrentKeys::new(),
        FrameBuffer::new(),
        NullRandom,
        DownTimer::new("delay"),
        DownTimer::new("sound"),
    )
}

#[test]
fn runs_a_program() {
    // LD V0, 2A; LD V1, 01; ADD V0, V1.
    let mut chip8 = machine(&[0x602A, 0x6101, 0x8014], 700);
    for _ in 0..3 {
        chip8.tick().expect("tick");
    }
    assert_eq!(chip8.cpu().reg(0), 0x2B);
    assert_eq!(chip8.cpu().pc(), 0x206);
}

#[test]
fn timers_tick_at_divided_rate() {
    // LD V0, 0A; LD DT, V0; LD V1, DT; JP 206. At 60 Hz the timers are
    // decremented after every step, so the third step reads back 9.
    let mut chip8 = machine(&[0x600A, 0xF015, 0xF107, 0x1206], 60);
    for _ in 0..3 {
        chip8.tick().expect("tick");
    }
    assert_eq!(chip8.cpu().reg(1), 9);

    // At 600 Hz the timers are decremented only every 10 steps, so the
    // same read still sees 10.
    let mut chip8 = machine(&[0x600A, 0xF015, 0xF107, 0x1206], 600);
    for _ in 0..3 {
        chip8.tick().expect("tick");
    }
    assert_eq!(chip8.cpu().reg(1), 10);
}

#[test]
fn draws_through_the_framebuffer() {
    // LD I, 0; DRW V0, V1, 5 draws the glyph for 0 at (0,0).
    let mut chip8 = machine(&[0xA000, 0xD015], 700);
    chip8.tick().expect("tick");
    chip8.tick().expect("tick");
    assert!(chip8.graphics().pixel(0, 0));
    assert!(chip8.graphics().pixel(1, 0));
    assert!(chip8.graphics().pixel(2, 0));
    assert!(chip8.graphics().pixel(3, 0));
    assert!(!chip8.graphics().pixel(4, 0));
    assert!(chip8.graphics().is_dirty());
}

#[test]
fn key_wait_through_sampled_keypad() {
    // LD V0, K: held until a key is released between two samples.
    let mut chip8 = machine(&[0xF00A], 700);
    chip8.tick().expect("tick");
    assert_eq!(chip8.cpu().pc(), 0x200);

    chip8.sample_keys(Keys(0x20));
    chip8.tick().expect("tick");
    assert_eq!(chip8.cpu().pc(), 0x200);

    chip8.sample_keys(Keys(0x00));
    chip8.tick().expect("tick");
    assert_eq!(chip8.cpu().pc(), 0x202);
    assert_eq!(chip8.cpu().reg(0), 5);
}

#[test]
fn error_stops_the_machine() {
    let mut chip8 = machine(&[0x0000], 700);
    assert!(chip8.tick().is_err());
    assert_eq!(chip8.cpu().pc(), 0x200);
}
