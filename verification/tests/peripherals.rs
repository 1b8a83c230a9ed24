use chip8_core::framebuffer::FrameBuffer;
use chip8_core::peripherals::{
    map_keys, CurrentKeys, DownTimer, FallingEdges, Graphics, Keypad, Keys, NullGraphics,
    NullKeypad, NullRandom, Pos, Random, Sprite, Timer,
};

#[test]
fn falling_edges() {
    assert_eq!(Keys(0x01).falling_edges(&Keys(0x00)), FallingEdges(0x01));
    assert_eq!(Keys(0x10).falling_edges(&Keys(0x00)), FallingEdges(0x10));
    assert_eq!(Keys(0x11).falling_edges(&Keys(0x00)), FallingEdges(0x11));
    assert_eq!(Keys(0x11).falling_edges(&Keys(0x01)), FallingEdges(0x10));
    assert_eq!(Keys(0x11).falling_edges(&Keys(0x10)), FallingEdges(0x01));
    assert_eq!(Keys(0x11).falling_edges(&Keys(0x11)), FallingEdges(0x00));
}

#[test]
fn keys_update() {
    let mut keys = Keys(0x00);
    assert_eq!(keys, Keys(0x00));

    assert_eq!(keys.update(&Keys(0x01)), None);
    assert_eq!(keys, Keys(0x01));

    assert_eq!(keys.update(&Keys(0x11)), None);
    assert_eq!(keys, Keys(0x11));

    assert_eq!(keys.update(&Keys(0x01)), Some(FallingEdges(0x10)));
    assert_eq!(keys, Keys(0x01));

    assert_eq!(keys.update(&Keys(0x00)), Some(FallingEdges(0x01)));
    assert_eq!(keys, Keys(0x00));

    assert_eq!(keys.update(&Keys(0x11)), None);
    assert_eq!(keys, Keys(0x11));

    assert_eq!(keys.update(&Keys(0x00)), Some(FallingEdges(0x11)));
    assert_eq!(keys, Keys(0x00));
}

#[test]
fn push_pop_edges() {
    let mut edges = FallingEdges(0);

    assert_eq!(edges.pop_next_idx(), None);

    edges.push_edges(&FallingEdges(0x10));
    assert_eq!(edges, FallingEdges(0x10));
    assert_eq!(edges.pop_next_idx(), Some(4));

    edges.push_edges(&FallingEdges(0x10));
    edges.push_edges(&FallingEdges(0x01));

    assert_eq!(edges, FallingEdges(0x11));
    assert_eq!(edges.pop_next_idx(), Some(0));
    assert_eq!(edges.pop_next_idx(), Some(4));
    assert_eq!(edges.pop_next_idx(), None);
}

#[test]
fn keys_pressed() {
    let keys = Keys(0b0001_0010);
    assert!(keys.pressed(1));
    assert!(keys.pressed(4));
    assert!(!keys.pressed(0));
    assert!(!keys.pressed(15));
    assert!(!keys.pressed(16));
    assert!(!keys.pressed(255));
}

#[test]
fn null_keypad() {
    let mut pad = NullKeypad;
    assert_eq!(pad.pressed_keys(), Keys(0));
    assert_eq!(pad.last_released_key(), FallingEdges(0));
}

#[test]
fn current_keys_edges() {
    let mut pad = CurrentKeys::new();
    assert_eq!(pad.pressed_keys(), Keys(0));
    assert_eq!(pad.last_released_key(), FallingEdges(0));

    pad.sample(Keys(0x11));
    assert_eq!(pad.pressed_keys(), Keys(0x11));
    assert_eq!(pad.last_released_key(), FallingEdges(0x00));

    pad.sample(Keys(0x01));
    assert_eq!(pad.pressed_keys(), Keys(0x01));
    assert_eq!(pad.last_released_key(), FallingEdges(0x10));
}

#[test]
fn down_timer() {
    let mut t = DownTimer::new("delay");
    assert_eq!(t.get(), 0);
    assert!(t.tick());
    assert_eq!(t.get(), 255);
    assert!(!t.tick());
    assert_eq!(t.get(), 254);

    t.set(2);
    assert!(!t.tick());
    assert!(!t.tick());
    assert_eq!(t.get(), 0);
    assert!(t.tick());
    assert_eq!(t.get(), 255);
}

#[test]
fn null_random() {
    let mut r = NullRandom;
    assert_eq!(r.random(), 0);
    assert_eq!(r.random(), 0);
}

#[test]
fn null_graphics_never_collides() {
    let mut g = NullGraphics;
    g.clear();
    let rows = [0xFF_u8, 0xFF];
    assert!(!g.toggle_sprite(Pos(0, 0), Sprite(rows.as_ref())));
    assert!(!g.toggle_sprite(Pos(0, 0), Sprite(rows.as_ref())));
    g.refresh();
}

#[test]
fn framebuffer_draw_and_collision() {
    let mut fb = FrameBuffer::new();
    let rows = [0b1010_0000_u8, 0b0100_0000];

    // First draw on a cleared screen: pixels lit, no collision.
    assert!(!fb.toggle_sprite(Pos(3, 5), Sprite(rows.as_ref())));
    assert!(fb.pixel(3, 5));
    assert!(!fb.pixel(4, 5));
    assert!(fb.pixel(5, 5));
    assert!(fb.pixel(4, 6));
    assert!(!fb.pixel(3, 6));

    // The same sprite at the same position: every touched pixel toggles
    // back off, and the collision is reported.
    assert!(fb.toggle_sprite(Pos(3, 5), Sprite(rows.as_ref())));
    for x in 0..64 {
        for y in 0..32 {
            assert!(!fb.pixel(x, y));
        }
    }
}

#[test]
fn framebuffer_disjoint_draws_do_not_collide() {
    let mut fb = FrameBuffer::new();
    let rows = [0xFF_u8];
    assert!(!fb.toggle_sprite(Pos(0, 0), Sprite(rows.as_ref())));
    assert!(!fb.toggle_sprite(Pos(8, 0), Sprite(rows.as_ref())));
    assert!(!fb.toggle_sprite(Pos(0, 1), Sprite(rows.as_ref())));
    // Overlapping by a single pixel does collide.
    assert!(fb.toggle_sprite(Pos(15, 0), Sprite(rows.as_ref())));
}

#[test]
fn framebuffer_wraps_at_the_edges() {
    let mut fb = FrameBuffer::new();
    let rows = [0b1000_0001_u8];
    // Drawn at x=60, the row covers 60..64 and wraps to 0..4.
    assert!(!fb.toggle_sprite(Pos(60, 31), Sprite(rows.as_ref())));
    assert!(fb.pixel(60, 31));
    assert!(fb.pixel(3, 31));
    assert!(!fb.pixel(61, 31));
}

#[test]
fn framebuffer_clear_and_dirty() {
    let mut fb = FrameBuffer::new();
    assert!(!fb.is_dirty());
    let rows = [0x80_u8];
    fb.toggle_sprite(Pos(0, 0), Sprite(rows.as_ref()));
    assert!(fb.pixel(0, 0));
    fb.refresh();
    assert!(fb.is_dirty());
    fb.mark_clean();
    assert!(!fb.is_dirty());
    fb.clear();
    assert!(!fb.pixel(0, 0));
}

#[test]
fn map_keys_layout() {
    assert_eq!(map_keys(&[]), Keys(0));
    assert_eq!(map_keys(&['1']), Keys(1 << 0x1));
    assert_eq!(map_keys(&['4']), Keys(1 << 0xC));
    assert_eq!(map_keys(&['Q', 'V']), Keys((1 << 0x4) | (1 << 0xF)));
    assert_eq!(map_keys(&['X']), Keys(1 << 0x0));
    // Unmapped characters fall back to key 0.
    assert_eq!(map_keys(&['!']), Keys(1 << 0x0));
}
