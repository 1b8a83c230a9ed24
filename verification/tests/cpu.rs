use chip8_core::cpu::Core;
use chip8_core::framebuffer::FrameBuffer;
use chip8_core::peripherals::{DownTimer, FallingEdges, Keys, NullGraphics, NullRandom, Timer};
use chip8_core::Error;

fn core_with_program(words: &[u16]) -> Core {
    let mut mem = vec![0_u8; 4096];
    for (k, w) in words.iter().enumerate() {
        mem[0x200 + 2 * k] = (w >> 8) as u8;
        mem[0x200 + 2 * k + 1] = *w as u8;
    }
    Core::new(mem, vec![0; 16], vec![0; 16])
}

fn step(core: &mut Core, keys: Keys, edges: FallingEdges) -> Result<(), Error> {
    let mut graphics = NullGraphics;
    let mut random = NullRandom;
    let mut delay = DownTimer::new("delay");
    let mut sound = DownTimer::new("sound");
    core.tick(keys, edges, &mut graphics, &mut random, &mut delay, &mut sound)
}

fn run(core: &mut Core, steps: usize) {
    for _ in 0..steps {
        step(core, Keys(0), FallingEdges(0)).expect("step failed");
    }
}

#[test]
fn bcd() {
    assert_eq!(chip8_core::cpu::bcd(123), (1, 2, 3));
    assert_eq!(chip8_core::cpu::bcd(023), (0, 2, 3));
    assert_eq!(chip8_core::cpu::bcd(003), (0, 0, 3));
}

#[test]
fn bcd_reconstructs_every_byte() {
    for v in 0..=255_u8 {
        let (h, t, o) = chip8_core::cpu::bcd(v);
        assert_eq!(h as u16 * 100 + t as u16 * 10 + o as u16, v as u16);
        assert!(h <= 2 && t <= 9 && o <= 9);
    }
}

#[test]
fn construction_state() {
    let core = core_with_program(&[]);
    assert_eq!(core.pc(), 0x200);
    assert_eq!(core.index(), 0);
    assert_eq!(core.sp(), 0);
    for r in 0..16 {
        assert_eq!(core.reg(r), 0);
    }
    // The font starts with the glyph for 0 and ends with the glyph for F.
    assert_eq!(core.mem_byte(0), 0xF0);
    assert_eq!(core.mem_byte(1), 0x90);
    assert_eq!(core.mem_byte(79), 0x80);
    assert_eq!(core.mem_len(), 4096);
}

#[test]
fn load_and_jump() {
    // LD V0, 12; JP 206; (skipped); LD V1, 34
    let mut core = core_with_program(&[0x6012, 0x1206, 0x0000, 0x6134]);
    run(&mut core, 3);
    assert_eq!(core.reg(0), 0x12);
    assert_eq!(core.reg(1), 0x34);
    assert_eq!(core.pc(), 0x208);
}

#[test]
fn add_with_carry() {
    // LD V0, FF; LD V1, 01; ADD V0, V1
    let mut core = core_with_program(&[0x60FF, 0x6101, 0x8014]);
    run(&mut core, 3);
    assert_eq!(core.reg(0), 0x00);
    assert_eq!(core.reg(0xF), 1);

    // LD V0, 70; LD V1, 01; ADD V0, V1 leaves no carry.
    let mut core = core_with_program(&[0x6070, 0x6101, 0x8014]);
    run(&mut core, 3);
    assert_eq!(core.reg(0), 0x71);
    assert_eq!(core.reg(0xF), 0);
}

#[test]
fn subtract_with_borrow() {
    // LD V0, 01; LD V1, 02; SUB V0, V1: borrow occurred, so VF = 0.
    let mut core = core_with_program(&[0x6001, 0x6102, 0x8015]);
    run(&mut core, 3);
    assert_eq!(core.reg(0), 0xFF);
    assert_eq!(core.reg(0xF), 0);

    // LD V0, 05; LD V1, 02; SUB V0, V1: no borrow, so VF = 1.
    let mut core = core_with_program(&[0x6005, 0x6102, 0x8015]);
    run(&mut core, 3);
    assert_eq!(core.reg(0), 0x03);
    assert_eq!(core.reg(0xF), 1);
}

#[test]
fn reverse_subtract() {
    // LD V0, 02; LD V1, 07; SUBN V0, V1: V0 = V1 - V0.
    let mut core = core_with_program(&[0x6002, 0x6107, 0x8017]);
    run(&mut core, 3);
    assert_eq!(core.reg(0), 0x05);
    assert_eq!(core.reg(0xF), 1);
}

#[test]
fn shift_right() {
    // LD V0, 03; SHR V0: V0 = 1 and VF = 1 (low bit was set).
    let mut core = core_with_program(&[0x6003, 0x8006]);
    run(&mut core, 2);
    assert_eq!(core.reg(0), 0x01);
    assert_eq!(core.reg(0xF), 1);

    // LD V0, 04; SHR V0: V0 = 2 and VF = 0.
    let mut core = core_with_program(&[0x6004, 0x8006]);
    run(&mut core, 2);
    assert_eq!(core.reg(0), 0x02);
    assert_eq!(core.reg(0xF), 0);
}

#[test]
fn shift_left() {
    // LD V0, 81; SHL V0: wraps and VF = 1.
    let mut core = core_with_program(&[0x6081, 0x800E]);
    run(&mut core, 2);
    assert_eq!(core.reg(0), 0x02);
    assert_eq!(core.reg(0xF), 1);
}

#[test]
fn bitwise_ops() {
    let mut core = core_with_program(&[0x60F0, 0x610F, 0x8011]);
    run(&mut core, 3);
    assert_eq!(core.reg(0), 0xFF);

    let mut core = core_with_program(&[0x60F0, 0x61F1, 0x8012]);
    run(&mut core, 3);
    assert_eq!(core.reg(0), 0xF0);

    let mut core = core_with_program(&[0x60FF, 0x610F, 0x8013]);
    run(&mut core, 3);
    assert_eq!(core.reg(0), 0xF0);
}

#[test]
fn skip_if_equal_advances_by_four() {
    // LD V0, 05; LD V1, 05; SE V0, V1: matching registers skip one
    // instruction, so the counter moves 4 bytes in that step.
    let mut core = core_with_program(&[0x6005, 0x6105, 0x5010]);
    run(&mut core, 2);
    assert_eq!(core.pc(), 0x204);
    run(&mut core, 1);
    assert_eq!(core.pc(), 0x208);

    // Non-matching registers advance by 2.
    let mut core = core_with_program(&[0x6005, 0x6106, 0x5010]);
    run(&mut core, 3);
    assert_eq!(core.pc(), 0x206);
}

#[test]
fn skip_immediates() {
    // SE V0, 00 skips; SNE V0, 00 does not.
    let mut core = core_with_program(&[0x3000]);
    run(&mut core, 1);
    assert_eq!(core.pc(), 0x204);

    let mut core = core_with_program(&[0x4000]);
    run(&mut core, 1);
    assert_eq!(core.pc(), 0x202);
}

#[test]
fn call_and_return() {
    // CALL 206; (landing pad); ...; subroutine at 0x206: RET.
    let mut core = core_with_program(&[0x2206, 0x0000, 0x0000, 0x00EE]);
    run(&mut core, 1);
    assert_eq!(core.pc(), 0x206);
    assert_eq!(core.sp(), 1);
    run(&mut core, 1);
    assert_eq!(core.pc(), 0x202);
    assert_eq!(core.sp(), 0);
}

#[test]
fn return_on_empty_stack_fails() {
    let mut core = core_with_program(&[0x00EE]);
    assert_eq!(step(&mut core, Keys(0), FallingEdges(0)), Err(Error::StackOverflow));
    assert_eq!(core.pc(), 0x200);
}

#[test]
fn call_overflow_fails() {
    // CALL 200 forever: each step pushes one return address.
    let mut core = core_with_program(&[0x2200]);
    for _ in 0..16 {
        step(&mut core, Keys(0), FallingEdges(0)).expect("push within capacity");
    }
    assert_eq!(core.sp(), 16);
    assert_eq!(step(&mut core, Keys(0), FallingEdges(0)), Err(Error::StackOverflow));
}

#[test]
fn invalid_instruction_reports_opcode() {
    let mut core = core_with_program(&[0x5121]);
    assert_eq!(
        step(&mut core, Keys(0), FallingEdges(0)),
        Err(Error::InvalidInstruction(0x5121))
    );
    assert_eq!(core.pc(), 0x200);
}

#[test]
fn jump_with_offset() {
    // LD V0, 10; JP V0, 300 jumps to 0x310.
    let mut core = core_with_program(&[0x6010, 0xB300]);
    run(&mut core, 2);
    assert_eq!(core.pc(), 0x310);
}

#[test]
fn index_register_ops() {
    // LD I, 345; then ADD I, V0 with V0 = 2.
    let mut core = core_with_program(&[0xA345, 0x6002, 0xF01E]);
    run(&mut core, 1);
    assert_eq!(core.index(), 0x345);
    run(&mut core, 2);
    assert_eq!(core.index(), 0x347);
}

#[test]
fn font_address() {
    // LD V0, 0C; LD F, V0: I points at the glyph for C, 5 bytes each.
    let mut core = core_with_program(&[0x600C, 0xF029]);
    run(&mut core, 2);
    assert_eq!(core.index(), 60);
    assert_eq!(core.mem_byte(60), 0xF0);
    assert_eq!(core.mem_byte(61), 0x80);
}

#[test]
fn store_bcd_digits() {
    // LD V0, 7B (123); LD I, 300; LD B, V0.
    let mut core = core_with_program(&[0x607B, 0xA300, 0xF033]);
    run(&mut core, 3);
    assert_eq!(core.mem_byte(0x300), 1);
    assert_eq!(core.mem_byte(0x301), 2);
    assert_eq!(core.mem_byte(0x302), 3);
}

#[test]
fn store_bcd_out_of_memory_fails() {
    // LD I, FFE puts I + 3 past the end of a 4096-byte memory.
    let mut core = core_with_program(&[0xAFFE, 0xF033]);
    run(&mut core, 1);
    assert_eq!(
        step(&mut core, Keys(0), FallingEdges(0)),
        Err(Error::InvalidAlignment)
    );
}

#[test]
fn bulk_store_and_load() {
    // Fill V0..V2, store them at I = 0x320, clear, load them back.
    let mut core = core_with_program(&[
        0x6011, 0x6122, 0x6233, // LD V0..V2
        0xA320, 0xF255, // LD I, 320; LD [I], V2
        0x6000, 0x6100, 0x6200, // zero them again
        0xF265, // LD V2, [I]
    ]);
    run(&mut core, 5);
    assert_eq!(core.mem_byte(0x320), 0x11);
    assert_eq!(core.mem_byte(0x321), 0x22);
    assert_eq!(core.mem_byte(0x322), 0x33);
    assert_eq!(core.mem_byte(0x323), 0x00);
    run(&mut core, 3);
    assert_eq!(core.reg(0), 0);
    run(&mut core, 1);
    assert_eq!(core.reg(0), 0x11);
    assert_eq!(core.reg(1), 0x22);
    assert_eq!(core.reg(2), 0x33);
    assert_eq!(core.reg(3), 0x00);
}

#[test]
fn skip_on_key() {
    // LD V0, 04; SKP V0 with key 4 held skips.
    let mut core = core_with_program(&[0x6004, 0xE09E]);
    run(&mut core, 1);
    step(&mut core, Keys(0x10), FallingEdges(0)).expect("step");
    assert_eq!(core.pc(), 0x206);

    // SKNP V0 with key 4 held does not skip.
    let mut core = core_with_program(&[0x6004, 0xE0A1]);
    run(&mut core, 1);
    step(&mut core, Keys(0x10), FallingEdges(0)).expect("step");
    assert_eq!(core.pc(), 0x204);
}

#[test]
fn key_wait_pops_lowest_edge_first() {
    // LD V0, K with only key 4 released takes 4.
    let mut core = core_with_program(&[0xF00A]);
    step(&mut core, Keys(0), FallingEdges(0x10)).expect("step");
    assert_eq!(core.reg(0), 4);
    assert_eq!(core.pc(), 0x202);

    // With keys 0 and 4 released, key 0 is taken first.
    let mut core = core_with_program(&[0xF00A]);
    step(&mut core, Keys(0), FallingEdges(0x11)).expect("step");
    assert_eq!(core.reg(0), 0);
    assert_eq!(core.pc(), 0x202);
}

#[test]
fn key_wait_holds_on_empty_set() {
    let mut core = core_with_program(&[0xF00A]);
    step(&mut core, Keys(0), FallingEdges(0)).expect("step");
    assert_eq!(core.pc(), 0x200);
    step(&mut core, Keys(0), FallingEdges(0)).expect("step");
    assert_eq!(core.pc(), 0x200);
    // Once a release arrives, the same instruction completes.
    step(&mut core, Keys(0), FallingEdges(0x80)).expect("step");
    assert_eq!(core.reg(0), 7);
    assert_eq!(core.pc(), 0x202);
}

#[test]
fn timers_read_and_write() {
    let mut graphics = NullGraphics;
    let mut random = NullRandom;
    let mut delay = DownTimer::new("delay");
    let mut sound = DownTimer::new("sound");

    // LD V0, 30; LD DT, V0; LD V1, DT; LD ST, V0
    let mut core = core_with_program(&[0x6030, 0xF015, 0xF107, 0xF018]);
    for _ in 0..4 {
        core.tick(
            Keys(0),
            FallingEdges(0),
            &mut graphics,
            &mut random,
            &mut delay,
            &mut sound,
        )
        .expect("step");
    }
    assert_eq!(delay.get(), 0x30);
    assert_eq!(sound.get(), 0x30);
    assert_eq!(core.reg(1), 0x30);
}

#[test]
fn random_with_null_source_masks_zero() {
    // RND V0, FF with the null source leaves zero.
    let mut core = core_with_program(&[0x60AA, 0xC0FF]);
    run(&mut core, 2);
    assert_eq!(core.reg(0), 0);
}

#[test]
fn draw_through_core_sets_collision_flag() {
    let mut graphics = FrameBuffer::new();
    let mut random = NullRandom;
    let mut delay = DownTimer::new("delay");
    let mut sound = DownTimer::new("sound");

    // LD I, 0 (the font glyph for 0); DRW V0, V1, 5 twice at (0, 0).
    let mut core = core_with_program(&[0xA000, 0xD015, 0xD015]);
    let mut tick = |core: &mut Core| {
        core.tick(
            Keys(0),
            FallingEdges(0),
            &mut graphics,
            &mut random,
            &mut delay,
            &mut sound,
        )
        .expect("step")
    };
    tick(&mut core);
    tick(&mut core);
    assert_eq!(core.reg(0xF), 0);
    tick(&mut core);
    // The second identical draw collides and clears every pixel again.
    assert_eq!(core.reg(0xF), 1);
    for x in 0..64 {
        for y in 0..32 {
            assert!(!graphics.pixel(x, y));
        }
    }
    assert!(graphics.is_dirty());
}

#[test]
fn clear_screen_through_core() {
    let mut graphics = FrameBuffer::new();
    let mut random = NullRandom;
    let mut delay = DownTimer::new("delay");
    let mut sound = DownTimer::new("sound");

    // LD I, 0; DRW V0, V1, 5; CLS.
    let mut core = core_with_program(&[0xA000, 0xD015, 0x00E0]);
    for _ in 0..2 {
        core.tick(
            Keys(0),
            FallingEdges(0),
            &mut graphics,
            &mut random,
            &mut delay,
            &mut sound,
        )
        .expect("step");
    }
    assert!(graphics.pixel(0, 0));
    core.tick(
        Keys(0),
        FallingEdges(0),
        &mut graphics,
        &mut random,
        &mut delay,
        &mut sound,
    )
    .expect("step");
    for x in 0..64 {
        for y in 0..32 {
            assert!(!graphics.pixel(x, y));
        }
    }
}

#[test]
fn sys_instruction_is_fatal() {
    let mut core = core_with_program(&[0x0300]);
    assert_eq!(
        step(&mut core, Keys(0), FallingEdges(0)),
        Err(Error::InvalidInstruction(0x0300))
    );
}
