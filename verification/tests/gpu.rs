use gameboy::gpu::GPU;
use gameboy::ram::RAM;

fn ram() -> RAM {
    RAM::new(vec![0u8; 0x8000])
}

fn pixel(fb: &[u8], x: usize, y: usize) -> u8 {
    fb[(y * 160 + x) * 3]
}

#[test]
fn gpu_starts_black() {
    let g = GPU::new();
    assert!(g.get_framebuffer().iter().all(|&b| b == 0));
    assert_eq!(g.get_framebuffer().len(), 69120);
}

#[test]
fn lcd_off_renders_white() {
    let r = ram();
    let mut g = GPU::new();
    g.render(&r);
    assert!(g.get_framebuffer().iter().all(|&b| b == 255));
}

#[test]
fn background_tile_colours() {
    let mut r = ram();
    // LCD on, unsigned tile data, map at 0x9800
    r.write(0xFF40, 0x91);
    // row 0 of tile 0: colour 1 on every pixel
    r.write(0x8000, 0xFF);
    r.write(0x8001, 0x00);
    // row 1 of tile 0: colour 3 on the leftmost pixel only
    r.write(0x8002, 0x80);
    r.write(0x8003, 0x80);
    let mut g = GPU::new();
    g.render(&r);
    let fb = g.get_framebuffer();
    assert_eq!(pixel(fb, 0, 0), 170);
    assert_eq!(pixel(fb, 7, 0), 170);
    assert_eq!(pixel(fb, 0, 1), 0);
    assert_eq!(pixel(fb, 1, 1), 255);
    // the map repeats tile 0 everywhere
    assert_eq!(pixel(fb, 8, 8), 170);
    assert_eq!(pixel(fb, 159, 143), 255);
    // all three channels carry the same grey
    assert_eq!(fb[1], 170);
    assert_eq!(fb[2], 170);
}

#[test]
fn background_scrolls() {
    let mut r = ram();
    r.write(0xFF40, 0x91);
    r.write(0x8000, 0x80);
    r.write(0x8001, 0x00);
    // scroll one pixel right: the set pixel moves off to the left
    r.write(0xFF43, 1);
    let mut g = GPU::new();
    g.render(&r);
    let fb = g.get_framebuffer();
    assert_eq!(pixel(fb, 0, 0), 255);
    assert_eq!(pixel(fb, 7, 0), 170);
}

#[test]
fn signed_tile_data() {
    let mut r = ram();
    // LCD on, signed tile data: tile 0 lives at 0x9000
    r.write(0xFF40, 0x81);
    r.write(0x9000, 0x00);
    r.write(0x9001, 0xFF);
    let mut g = GPU::new();
    g.render(&r);
    assert_eq!(pixel(g.get_framebuffer(), 3, 0), 85);
}

#[test]
fn window_covers_from_wy_and_wx() {
    let mut r = ram();
    // LCD on, window on with its map at 0x9C00, unsigned tiles
    r.write(0xFF40, 0xF1);
    r.write(0xFF4A, 8);
    r.write(0xFF4B, 7 + 16);
    // tile 2 is all colour 2; the window map shows it
    for row in 0..8u16 {
        r.write(0x8020 + row * 2, 0x00);
        r.write(0x8021 + row * 2, 0xFF);
    }
    r.write(0x9C00, 2);
    let mut g = GPU::new();
    g.render(&r);
    let fb = g.get_framebuffer();
    assert_eq!(pixel(fb, 16, 8), 85);
    assert_eq!(pixel(fb, 23, 15), 85);
    // left of and above the window: background
    assert_eq!(pixel(fb, 15, 8), 255);
    assert_eq!(pixel(fb, 16, 7), 255);
}

#[test]
fn sprites_draw_over_the_background() {
    let mut r = ram();
    // LCD on, objects on
    r.write(0xFF40, 0x93);
    // object 0 at screen (0, 0) with tile 1, colour 3 on row 0
    r.write(0xFE00, 16);
    r.write(0xFE01, 8);
    r.write(0xFE02, 1);
    r.write(0xFE03, 0);
    r.write(0x8010, 0xFF);
    r.write(0x8011, 0xFF);
    let mut g = GPU::new();
    g.render(&r);
    let fb = g.get_framebuffer();
    assert_eq!(pixel(fb, 0, 0), 85);
    assert_eq!(pixel(fb, 7, 0), 85);
    // colour 0 of the object is transparent
    assert_eq!(pixel(fb, 0, 1), 255);
}

#[test]
fn later_sprites_end_up_on_top() {
    let mut r = ram();
    r.write(0xFF40, 0x93);
    // objects 0 and 1 on the same spot, tiles 1 (colour 3) and 2 (colour 1)
    for (i, tile) in [(0u16, 1u8), (1, 2)] {
        r.write(0xFE00 + i * 4, 16);
        r.write(0xFE01 + i * 4, 8);
        r.write(0xFE02 + i * 4, tile);
        r.write(0xFE03 + i * 4, 0);
    }
    r.write(0x8010, 0xFF);
    r.write(0x8011, 0xFF);
    r.write(0x8020, 0xFF);
    r.write(0x8021, 0x00);
    let mut g = GPU::new();
    g.render(&r);
    assert_eq!(pixel(g.get_framebuffer(), 0, 0), 255);
}

#[test]
fn flipped_sprite() {
    let mut r = ram();
    r.write(0xFF40, 0x93);
    // x-flipped object at screen (0, 0): the leftmost tile pixel lands at x = 7
    r.write(0xFE00, 16);
    r.write(0xFE01, 8);
    r.write(0xFE02, 1);
    r.write(0xFE03, 0x20);
    r.write(0x8010, 0x80);
    r.write(0x8011, 0x80);
    let mut g = GPU::new();
    g.render(&r);
    let fb = g.get_framebuffer();
    assert_eq!(pixel(fb, 7, 0), 85);
    assert_eq!(pixel(fb, 0, 0), 255);
}
