//! A whole-frame renderer over the flat memory map (`ram`): background,
//! window and objects drawn into a 160x144 RGB framebuffer at once.
use vstd::prelude::*;
use crate::ram::{RAM, RAMView};

verus! {

/// Bytes in the framebuffer: 160x144 pixels, three bytes (R, G, B) each.
pub const FRAMEBUFFER_LEN: usize = 69120;

/// Offset in video RAM of the background map selected by a clear bit
/// (0x9800) and by a set bit (0x9C00).
pub const BG_MAP_UNSIGNED: usize = 0x1800;
pub const BG_MAP_SIGNED: usize = 0x1C00;

/// Offset in video RAM of the signed tile data (0x8800).
pub const TILE_DATA_SIGNED: usize = 0x0800;

/// Column of the pixel that byte `j` of the framebuffer belongs to.
pub open spec fn pixel_x(j: int) -> int {
    (j / 3) % 160
}

/// Line of the pixel that byte `j` of the framebuffer belongs to.
pub open spec fn pixel_y(j: int) -> int {
    (j / 3) / 160
}

/// The grey level of a background colour index: white, light grey, dark
/// grey, black.
pub open spec fn bg_shade(c: u8) -> u8 {
    if c == 0 { 255 } else if c == 1 { 170 } else if c == 2 { 85 } else { 0 }
}

/// The grey level of an object colour index; index 0 is transparent and
/// never drawn.
pub open spec fn sprite_shade(c: u8) -> u8 {
    if c == 1 { 255 } else if c == 2 { 170 } else if c == 3 { 85 } else { 0 }
}

/// Offset in video RAM of tile `tile_no`: unsigned numbering from 0x8000,
/// or signed numbering around 0x9000.
pub open spec fn tile_offset(tile_no: u8, unsigned: bool) -> int {
    if unsigned {
        tile_no * 16
    } else if tile_no < 128 {
        0x800 + (tile_no + 128) * 16
    } else {
        0x800 + (tile_no - 128) * 16
    }
}

/// Colour index of pixel (`px`, `py`) of the tile at offset `off`: bit
/// `7 - px` of the two bytes of row `py`, the second byte giving the high bit.
pub open spec fn tile_color(vram: Seq<u8>, off: int, px: int, py: int) -> u8 {
    let shift = (7 - px) as u8;
    let lo = (vram[off + py * 2] >> shift) & 1;
    let hi = (vram[off + py * 2 + 1] >> shift) & 1;
    (hi << 1) | lo
}

/// Colour index of the background at screen pixel (`x`, `y`): the 256x256
/// map scrolled by SCX (0xFF43) and SCY (0xFF42), with map and tile data
/// picked by bits 3 and 4 of LCDC (0xFF40).
pub open spec fn background_color(m: RAMView, x: int, y: int) -> u8 {
    let lcdc = m.io[0x40];
    let bx = (x + m.io[0x43]) % 256;
    let by = (y + m.io[0x42]) % 256;
    let map = if lcdc & 0x08 != 0 { 0x1C00int } else { 0x1800int };
    let tile_no = m.vram[map + (by / 8) * 32 + bx / 8];
    tile_color(m.vram, tile_offset(tile_no, lcdc & 0x10 != 0), bx % 8, by % 8)
}

/// Whether the window covers screen pixel (`x`, `y`): it is enabled (bit 5
/// of LCDC), starts on screen (WY, 0xFF4A, below 144) and the pixel lies
/// below WY and right of WX - 7 (WX at 0xFF4B).
pub open spec fn window_covers(m: RAMView, x: int, y: int) -> bool {
    &&& m.io[0x40] & 0x20 != 0
    &&& m.io[0x4A] < 144
    &&& y >= m.io[0x4A]
    &&& x + 7 >= m.io[0x4B]
}

/// Colour index of the window at screen pixel (`x`, `y`), with its map
/// picked by bit 6 of LCDC.
pub open spec fn window_color(m: RAMView, x: int, y: int) -> u8 {
    let lcdc = m.io[0x40];
    let ix = x + 7 - m.io[0x4B];
    let iy = y - m.io[0x4A];
    let map = if lcdc & 0x40 != 0 { 0x1C00int } else { 0x1800int };
    let tile_no = m.vram[map + (iy / 8) * 32 + ix / 8];
    tile_color(m.vram, tile_offset(tile_no, lcdc & 0x10 != 0), ix % 8, iy % 8)
}

/// Object height: 16 with bit 2 of LCDC, else 8.
pub open spec fn sprite_height(m: RAMView) -> int {
    if m.io[0x40] & 0x04 != 0 { 16 } else { 8 }
}

/// Screen line of the top of object `i`.
pub open spec fn sprite_top(m: RAMView, i: int) -> int {
    m.oam[4 * i] - 16
}

/// Screen column of the left edge of object `i`.
pub open spec fn sprite_left(m: RAMView, i: int) -> int {
    m.oam[4 * i + 1] - 8
}

/// Colour index of object `i` at screen pixel (`x`, `y`), 0 outside it:
/// its tile (unsigned numbering) flipped by bits 6 (vertical) and 5
/// (horizontal) of its attributes.
pub open spec fn sprite_color(m: RAMView, i: int, x: int, y: int) -> u8 {
    let h = sprite_height(m);
    let row = y - sprite_top(m, i);
    let col = x - sprite_left(m, i);
    let attrs = m.oam[4 * i + 3];
    if 0 <= row < h && 0 <= col < 8 {
        let ty = if attrs & 0x40 != 0 { h - 1 - row } else { row };
        let tx = if attrs & 0x20 != 0 { 7 - col } else { col };
        tile_color(m.vram, m.oam[4 * i + 2] * 16, tx, ty)
    } else {
        0
    }
}

/// `fb` with object `i` drawn over it where its colour is not transparent.
pub open spec fn draw_sprite(m: RAMView, i: int, fb: Seq<u8>) -> Seq<u8> {
    Seq::new(69120, |j: int| {
        let c = sprite_color(m, i, pixel_x(j), pixel_y(j));
        if c != 0 { sprite_shade(c) } else { fb[j] }
    })
}

/// `fb` with objects 0 to `n - 1` drawn over it in that order, so that
/// later objects end up on top.
pub open spec fn draw_sprites(m: RAMView, n: nat, fb: Seq<u8>) -> Seq<u8>
    decreases n,
{
    if n == 0 {
        fb
    } else {
        draw_sprite(m, n - 1, draw_sprites(m, (n - 1) as nat, fb))
    }
}

/// The background over the whole screen.
pub open spec fn background_frame(m: RAMView) -> Seq<u8> {
    Seq::new(69120, |j: int| bg_shade(background_color(m, pixel_x(j), pixel_y(j))))
}

/// `fb` with the window drawn over it.
pub open spec fn window_frame(m: RAMView, fb: Seq<u8>) -> Seq<u8> {
    Seq::new(69120, |j: int|
        if window_covers(m, pixel_x(j), pixel_y(j)) {
            bg_shade(window_color(m, pixel_x(j), pixel_y(j)))
        } else {
            fb[j]
        })
}

/// The rendered frame: all white with the LCD off (bit 7 of LCDC), else
/// background, window, and objects if enabled (bit 1 of LCDC).
pub open spec fn frame(m: RAMView) -> Seq<u8> {
    let lcdc = m.io[0x40];
    if lcdc & 0x80 == 0 {
        Seq::new(69120, |j: int| 255u8)
    } else {
        let f = window_frame(m, background_frame(m));
        if lcdc & 0x02 != 0 { draw_sprites(m, 40, f) } else { f }
    }
}

/// The memory map with both scroll registers (SCY 0xFF42, SCX 0xFF43) at 0.
pub open spec fn unscrolled(m: RAMView) -> RAMView {
    RAMView { io: m.io.update(0x42, 0).update(0x43, 0), ..m }
}

/// Scrolling moves the picture over the 256x256 background map: the
/// background at screen pixel (x, y) is what the unscrolled screen shows at
/// ((x + SCX) mod 256, (y + SCY) mod 256); so raising SCY by 8 moves the
/// picture up by one tile row, and raising SCX by 8 moves it left by one
/// tile column.
pub proof fn lemma_background_scroll(m: RAMView, x: int, y: int)
    requires
        m.io.len() == 0x80,
        0 <= x,
        0 <= y,
    ensures
        background_color(m, x, y)
            == background_color(unscrolled(m), (x + m.io[0x43]) % 256, (y + m.io[0x42]) % 256),
        background_color(RAMView { io: m.io.update(0x42, ((m.io[0x42] + 8) % 256) as u8), ..m }, x, y)
            == background_color(m, x, y + 8),
        background_color(RAMView { io: m.io.update(0x43, ((m.io[0x43] + 8) % 256) as u8), ..m }, x, y)
            == background_color(m, x + 8, y),
{
    let scx = m.io[0x43] as int;
    let scy = m.io[0x42] as int;
    vstd::arithmetic::div_mod::lemma_add_mod_noop(y, scy + 8, 256);
    vstd::arithmetic::div_mod::lemma_add_mod_noop(x, scx + 8, 256);
    vstd::arithmetic::div_mod::lemma_mod_twice(x + scx, 256);
    vstd::arithmetic::div_mod::lemma_mod_twice(y + scy, 256);
    vstd::arithmetic::div_mod::lemma_mod_twice(scy + 8, 256);
    vstd::arithmetic::div_mod::lemma_mod_twice(scx + 8, 256);
    assert(((scy + 8) % 256) % 256 == (scy + 8) % 256);
    assert((y + (scy + 8) % 256) % 256 == (y + 8 + scy) % 256);
    assert((x + (scx + 8) % 256) % 256 == (x + 8 + scx) % 256);
}

/// Moving an object moves its picture: with its X byte one higher the
/// object shows at (x + 1, y) what it showed at (x, y), and with its Y byte
/// one higher at (x, y + 1).
pub proof fn lemma_sprite_moves(m: RAMView, i: int, x: int, y: int)
    requires
        0 <= i < 40,
        m.oam.len() == 0xA0,
        m.oam[4 * i] < 255,
        m.oam[4 * i + 1] < 255,
    ensures
        sprite_color(RAMView { oam: m.oam.update(4 * i + 1, (m.oam[4 * i + 1] + 1) as u8), ..m }, i, x + 1, y)
            == sprite_color(m, i, x, y),
        sprite_color(RAMView { oam: m.oam.update(4 * i, (m.oam[4 * i] + 1) as u8), ..m }, i, x, y + 1)
            == sprite_color(m, i, x, y),
{
}

/// Moving the window moves its picture: with WX one higher the window
/// shows at (x + 1, y) what it showed at (x, y), and with WY one higher at
/// (x, y + 1).
pub proof fn lemma_window_moves(m: RAMView, x: int, y: int)
    requires
        m.io.len() == 0x80,
        m.io[0x4B] < 255,
        m.io[0x4A] < 255,
    ensures
        window_color(RAMView { io: m.io.update(0x4B, (m.io[0x4B] + 1) as u8), ..m }, x + 1, y) == window_color(m, x, y),
        window_covers(RAMView { io: m.io.update(0x4B, (m.io[0x4B] + 1) as u8), ..m }, x + 1, y) == window_covers(m, x, y),
        window_color(RAMView { io: m.io.update(0x4A, (m.io[0x4A] + 1) as u8), ..m }, x, y + 1) == window_color(m, x, y),
{
}

/// Byte `j` of the framebuffer belongs to pixel (`x`, `y`) exactly when it
/// is one of the three bytes from `(y * 160 + x) * 3` on.
pub proof fn lemma_pixel_bytes(x: int, y: int, j: int)
    requires
        0 <= x < 160,
        0 <= y < 144,
        0 <= j < 69120,
    ensures
        (pixel_x(j) == x && pixel_y(j) == y) <==> ((y * 160 + x) * 3 <= j < (y * 160 + x) * 3 + 3),
{
    let q = j / 3;
    vstd::arithmetic::div_mod::lemma_fundamental_div_mod(j, 3);
    vstd::arithmetic::div_mod::lemma_fundamental_div_mod(q, 160);
    assert(0 <= j % 3 < 3);
    assert(0 <= q % 160 < 160);
}

/// Every byte of the framebuffer belongs to a pixel on screen.
pub proof fn lemma_pixel_on_screen(j: int)
    requires
        0 <= j < 69120,
    ensures
        0 <= pixel_x(j) < 160,
        0 <= pixel_y(j) < 144,
{
    let q = j / 3;
    vstd::arithmetic::div_mod::lemma_fundamental_div_mod(j, 3);
    vstd::arithmetic::div_mod::lemma_fundamental_div_mod(q, 160);
}

/// The renderer: its framebuffer.
pub struct GPU {
    /// 160x144 RGB framebuffer
    pub framebuffer: [u8; 69120],
}

impl GPU {
    /// A black framebuffer.
    pub fn new() -> (r: Self)
        ensures
            r.framebuffer@ == Seq::new(69120, |j: int| 0u8),
    {
        let r = Self { framebuffer: [0; 69120] };
        assert(r.framebuffer@ =~= Seq::new(69120, |j: int| 0u8));
        r
    }

    /// Renders a whole frame from the state of `ram`.
    pub fn render(&mut self, ram: &RAM)
        ensures
            final(self).framebuffer@ == frame(ram@),
    {
        let lcdc = ram.read(0xFF40);
        // LCD off: white screen
        if lcdc & 0x80 == 0 {
            let mut k: usize = 0;
            while k < FRAMEBUFFER_LEN
                invariant
                    k <= 69120,
                    forall|j: int| 0 <= j < k ==> self.framebuffer@[j] == 255,
                decreases 69120 - k,
            {
                self.framebuffer[k] = 255;
                k += 1;
            }
            assert(self.framebuffer@ =~= Seq::new(69120, |j: int| 255u8));
            return;
        }
        self.render_background(ram);
        self.render_window(ram);
        if lcdc & 0x02 != 0 {
            self.render_sprites(ram);
        }
    }

    /// Sets the three bytes of pixel (`x`, `y`) to the grey level `shade`.
    fn put_pixel(&mut self, x: usize, y: usize, shade: u8)
        requires
            x < 160,
            y < 144,
        ensures
            final(self).framebuffer@ == Seq::new(69120, |j: int|
                if pixel_x(j) == x && pixel_y(j) == y { shade } else { old(self).framebuffer@[j] }),
    {
        let ghost fb0 = self.framebuffer@;
        let fb = (y * 160 + x) * 3;
        self.framebuffer[fb] = shade;
        self.framebuffer[fb + 1] = shade;
        self.framebuffer[fb + 2] = shade;
        assert forall|j: int| 0 <= j < 69120 implies #[trigger] self.framebuffer@[j]
            == (if pixel_x(j) == x && pixel_y(j) == y { shade } else { fb0[j] }) by {
            lemma_pixel_bytes(x as int, y as int, j);
        }
        assert(self.framebuffer@ =~= Seq::new(69120, |j: int|
            if pixel_x(j) == x && pixel_y(j) == y { shade } else { fb0[j] }));
    }

    /// The background over the whole screen.
    fn render_background(&mut self, ram: &RAM)
        ensures
            final(self).framebuffer@ == background_frame(ram@),
    {
        let lcdc = ram.read(0xFF40);
        let scy = ram.read(0xFF42) as usize;
        let scx = ram.read(0xFF43) as usize;
        // tile map and tile data select
        let bg_map_offset = if lcdc & 0x08 != 0 { BG_MAP_SIGNED } else { BG_MAP_UNSIGNED };
        let use_unsigned = lcdc & 0x10 != 0;
        let ghost m = ram@;
        let ghost fb0 = self.framebuffer@;
        let mut y: usize = 0;
        while y < 144
            invariant
                y <= 144,
                m == ram@,
                scy == m.io[0x42],
                scx == m.io[0x43],
                bg_map_offset == (if m.io[0x40] & 0x08 != 0 { 0x1C00int } else { 0x1800int }),
                use_unsigned == (m.io[0x40] & 0x10 != 0),
                self.framebuffer@ == Seq::new(69120, |j: int|
                    if pixel_y(j) < y { bg_shade(background_color(m, pixel_x(j), pixel_y(j))) } else { fb0[j] }),
            decreases 144 - y,
        {
            let mut x: usize = 0;
            while x < 160
                invariant
                    x <= 160,
                    y < 144,
                    m == ram@,
                    scy == m.io[0x42],
                    scx == m.io[0x43],
                    bg_map_offset == (if m.io[0x40] & 0x08 != 0 { 0x1C00int } else { 0x1800int }),
                    use_unsigned == (m.io[0x40] & 0x10 != 0),
                    self.framebuffer@ == Seq::new(69120, |j: int|
                        if pixel_y(j) < y || (pixel_y(j) == y && pixel_x(j) < x) {
                            bg_shade(background_color(m, pixel_x(j), pixel_y(j)))
                        } else {
                            fb0[j]
                        }),
                decreases 160 - x,
            {
                // the scrolled position in the 256x256 map
                let bx = (x + scx) % 256;
                let by = (y + scy) % 256;
                let tile_no = ram.vram[bg_map_offset + (by / 8) * 32 + bx / 8];
                let tile_off = tile_data_offset(tile_no, use_unsigned);
                let c = read_tile_color(&ram.vram, tile_off, bx % 8, by % 8);
                assert(c == background_color(m, x as int, y as int));
                self.put_pixel(x, y, background_shade(c));
                assert(self.framebuffer@ =~= Seq::new(69120, |j: int|
                    if pixel_y(j) < y || (pixel_y(j) == y && pixel_x(j) < x + 1) {
                        bg_shade(background_color(m, pixel_x(j), pixel_y(j)))
                    } else {
                        fb0[j]
                    }));
                x += 1;
            }
            y += 1;
        }
        assert forall|j: int| 0 <= j < 69120 implies #[trigger] self.framebuffer@[j] == background_frame(m)[j] by {
            lemma_pixel_on_screen(j);
        }
        assert(self.framebuffer@ =~= background_frame(m));
    }

    /// The window over the frame: from WY down and from WX - 7 right,
    /// clipped to the screen.
    fn render_window(&mut self, ram: &RAM)
        ensures
            final(self).framebuffer@ == window_frame(ram@, old(self).framebuffer@),
    {
        let ghost m = ram@;
        let ghost fb0 = self.framebuffer@;
        let lcdc = ram.read(0xFF40);
        let raw_wy = ram.read(0xFF4A) as usize;
        let raw_wx = ram.read(0xFF4B) as usize;
        // window disabled, or below the screen
        if lcdc & 0x20 == 0 || raw_wy >= 144 {
            assert(self.framebuffer@ =~= window_frame(m, fb0));
            return;
        }
        let map_off = if lcdc & 0x40 != 0 { BG_MAP_SIGNED } else { BG_MAP_UNSIGNED };
        let use_unsigned = lcdc & 0x10 != 0;
        // the first column on screen
        let x0 = if raw_wx >= 7 { raw_wx - 7 } else { 0 };
        let mut wy = raw_wy;
        while wy < 144
            invariant
                raw_wy <= wy <= 144,
                m == ram@,
                lcdc == m.io[0x40],
                lcdc & 0x20 != 0,
                raw_wy == m.io[0x4A],
                raw_wx == m.io[0x4B],
                raw_wy < 144,
                x0 == (if raw_wx >= 7 { raw_wx - 7 } else { 0 }),
                map_off == (if m.io[0x40] & 0x40 != 0 { 0x1C00int } else { 0x1800int }),
                use_unsigned == (m.io[0x40] & 0x10 != 0),
                self.framebuffer@ == Seq::new(69120, |j: int|
                    if window_covers(m, pixel_x(j), pixel_y(j)) && pixel_y(j) < wy {
                        bg_shade(window_color(m, pixel_x(j), pixel_y(j)))
                    } else {
                        fb0[j]
                    }),
            decreases 144 - wy,
        {
            let mut wx = x0;
            while wx < 160
                invariant
                    raw_wy <= wy < 144,
                    x0 <= wx,
                    m == ram@,
                    lcdc == m.io[0x40],
                    lcdc & 0x20 != 0,
                    raw_wy == m.io[0x4A],
                    raw_wx == m.io[0x4B],
                    raw_wy < 144,
                    x0 == (if raw_wx >= 7 { raw_wx - 7 } else { 0 }),
                    map_off == (if m.io[0x40] & 0x40 != 0 { 0x1C00int } else { 0x1800int }),
                    use_unsigned == (m.io[0x40] & 0x10 != 0),
                    self.framebuffer@ == Seq::new(69120, |j: int|
                        if window_covers(m, pixel_x(j), pixel_y(j))
                            && (pixel_y(j) < wy || (pixel_y(j) == wy && pixel_x(j) < wx)) {
                            bg_shade(window_color(m, pixel_x(j), pixel_y(j)))
                        } else {
                            fb0[j]
                        }),
                decreases 160 - wx,
            {
                // position inside the window
                let iy = wy - raw_wy;
                let ix = wx + 7 - raw_wx;
                let tn = ram.vram[map_off + (iy / 8) * 32 + ix / 8];
                let to = tile_data_offset(tn, use_unsigned);
                let c = read_tile_color(&ram.vram, to, ix % 8, iy % 8);
                assert(c == window_color(m, wx as int, wy as int));
                self.put_pixel(wx, wy, background_shade(c));
                assert(self.framebuffer@ =~= Seq::new(69120, |j: int|
                    if window_covers(m, pixel_x(j), pixel_y(j))
                        && (pixel_y(j) < wy || (pixel_y(j) == wy && pixel_x(j) < wx + 1)) {
                        bg_shade(window_color(m, pixel_x(j), pixel_y(j)))
                    } else {
                        fb0[j]
                    }));
                wx += 1;
            }
            assert forall|j: int| 0 <= j < 69120 implies #[trigger] self.framebuffer@[j]
                == (if window_covers(m, pixel_x(j), pixel_y(j)) && pixel_y(j) < wy + 1 {
                    bg_shade(window_color(m, pixel_x(j), pixel_y(j)))
                } else {
                    fb0[j]
                }) by {
                lemma_pixel_on_screen(j);
            }
            assert(self.framebuffer@ =~= Seq::new(69120, |j: int|
                if window_covers(m, pixel_x(j), pixel_y(j)) && pixel_y(j) < wy + 1 {
                    bg_shade(window_color(m, pixel_x(j), pixel_y(j)))
                } else {
                    fb0[j]
                }));
            wy += 1;
        }
        assert forall|j: int| 0 <= j < 69120 implies #[trigger] self.framebuffer@[j] == window_frame(m, fb0)[j] by {
            lemma_pixel_on_screen(j);
        }
        assert(self.framebuffer@ =~= window_frame(m, fb0));
    }

    /// The 40 objects over the frame, in OAM order.
    fn render_sprites(&mut self, ram: &RAM)
        ensures
            final(self).framebuffer@ == draw_sprites(ram@, 40, old(self).framebuffer@),
    {
        let ghost fb0 = self.framebuffer@;
        let lcdc = ram.read(0xFF40);
        let sprite_h: usize = if lcdc & 0x04 != 0 { 16 } else { 8 };
        let mut i: usize = 0;
        while i < 40
            invariant
                i <= 40,
                sprite_h == sprite_height(ram@),
                self.framebuffer@ == draw_sprites(ram@, i as nat, fb0),
            decreases 40 - i,
        {
            self.draw_sprite(ram, i, sprite_h);
            i += 1;
        }
    }

    /// Object `i` over the frame.
    fn draw_sprite(&mut self, ram: &RAM, i: usize, sprite_h: usize)
        requires
            i < 40,
            sprite_h == sprite_height(ram@),
        ensures
            final(self).framebuffer@ == draw_sprite(ram@, i as int, old(self).framebuffer@),
    {
        let ghost m = ram@;
        let ghost fb0 = self.framebuffer@;
        let base = i * 4;
        let sy = ram.oam[base] as i16 - 16;
        let sx = ram.oam[base + 1] as i16 - 8;
        let tile_no = ram.oam[base + 2];
        let attrs = ram.oam[base + 3];
        let x_flip = attrs & 0x20 != 0;
        let y_flip = attrs & 0x40 != 0;
        // objects use unsigned tile data
        let tile_off = (tile_no as usize) * 16;
        let mut row: usize = 0;
        while row < sprite_h
            invariant
                row <= sprite_h,
                i < 40,
                m == ram@,
                sprite_h == sprite_height(m),
                sy == sprite_top(m, i as int),
                sx == sprite_left(m, i as int),
                tile_off == m.oam[4 * i + 2] * 16,
                x_flip == (m.oam[4 * i + 3] & 0x20 != 0),
                y_flip == (m.oam[4 * i + 3] & 0x40 != 0),
                self.framebuffer@ == Seq::new(69120, |j: int| {
                    let c = sprite_color(m, i as int, pixel_x(j), pixel_y(j));
                    if c != 0 && pixel_y(j) - sy < row { sprite_shade(c) } else { fb0[j] }
                }),
            decreases sprite_h - row,
        {
            let ty = if y_flip { sprite_h - 1 - row } else { row };
            let mut col: usize = 0;
            while col < 8
                invariant
                    col <= 8,
                    row < sprite_h,
                    i < 40,
                    m == ram@,
                    sprite_h == sprite_height(m),
                    sy == sprite_top(m, i as int),
                    sx == sprite_left(m, i as int),
                    tile_off == m.oam[4 * i + 2] * 16,
                    x_flip == (m.oam[4 * i + 3] & 0x20 != 0),
                    y_flip == (m.oam[4 * i + 3] & 0x40 != 0),
                    ty == (if y_flip { sprite_h - 1 - row } else { row as int }),
                    self.framebuffer@ == Seq::new(69120, |j: int| {
                        let c = sprite_color(m, i as int, pixel_x(j), pixel_y(j));
                        if c != 0 && (pixel_y(j) - sy < row || (pixel_y(j) - sy == row && pixel_x(j) - sx < col)) {
                            sprite_shade(c)
                        } else {
                            fb0[j]
                        }
                    }),
                decreases 8 - col,
            {
                let tx = if x_flip { 7 - col } else { col };
                let c = read_tile_color(&ram.vram, tile_off, tx, ty);
                let px = sx + col as i16;
                let py = sy + row as i16;
                // colour 0 is transparent; pixels off screen are skipped
                if c != 0 && !(px < 0 || px >= 160 || py < 0 || py >= 144) {
                    assert(c == sprite_color(m, i as int, px as int, py as int));
                    self.put_pixel(px as usize, py as usize, object_shade(c));
                }
                assert forall|j: int| 0 <= j < 69120 implies #[trigger] self.framebuffer@[j] == ({
                    let cj = sprite_color(m, i as int, pixel_x(j), pixel_y(j));
                    if cj != 0 && (pixel_y(j) - sy < row || (pixel_y(j) - sy == row && pixel_x(j) - sx < col + 1)) {
                        sprite_shade(cj)
                    } else {
                        fb0[j]
                    }
                }) by {
                    lemma_pixel_on_screen(j);
                    if pixel_y(j) - sy == row && pixel_x(j) - sx == col {
                        assert(pixel_x(j) == px && pixel_y(j) == py);
                        assert(sprite_color(m, i as int, pixel_x(j), pixel_y(j)) == c);
                    }
                }
                assert(self.framebuffer@ =~= Seq::new(69120, |j: int| {
                    let cj = sprite_color(m, i as int, pixel_x(j), pixel_y(j));
                    if cj != 0 && (pixel_y(j) - sy < row || (pixel_y(j) - sy == row && pixel_x(j) - sx < col + 1)) {
                        sprite_shade(cj)
                    } else {
                        fb0[j]
                    }
                }));
                col += 1;
            }
            assert(self.framebuffer@ =~= Seq::new(69120, |j: int| {
                let c = sprite_color(m, i as int, pixel_x(j), pixel_y(j));
                if c != 0 && pixel_y(j) - sy < row + 1 { sprite_shade(c) } else { fb0[j] }
            }));
            row += 1;
        }
        assert(self.framebuffer@ =~= draw_sprite(m, i as int, fb0));
    }

    /// The framebuffer: 160x144 pixels, three bytes (R, G, B) each.
    pub fn get_framebuffer(&self) -> (r: &[u8])
        ensures
            r@ == self.framebuffer@,
    {
        self.framebuffer.as_slice()
    }
}

/// Offset in video RAM of tile `tile_no`.
fn tile_data_offset(tile_no: u8, use_unsigned: bool) -> (r: usize)
    ensures
        r == tile_offset(tile_no, use_unsigned),
        r + 16 <= 0x1800,
{
    if use_unsigned {
        tile_no as usize * 16
    } else if tile_no < 128 {
        TILE_DATA_SIGNED + (tile_no as usize + 128) * 16
    } else {
        TILE_DATA_SIGNED + (tile_no as usize - 128) * 16
    }
}

/// Colour index of pixel (`px`, `py`) of the tile at offset `off`.
fn read_tile_color(vram: &[u8; 0x2000], off: usize, px: usize, py: usize) -> (c: u8)
    requires
        off + py * 2 + 1 < 0x2000,
        px < 8,
    ensures
        c == tile_color(vram@, off as int, px as int, py as int),
{
    let shift = (7 - px) as u8;
    let lo = (vram[off + py * 2] >> shift) & 1;
    let hi = (vram[off + py * 2 + 1] >> shift) & 1;
    (hi << 1) | lo
}

/// The grey level of a background colour index.
fn background_shade(c: u8) -> (r: u8)
    ensures
        r == bg_shade(c),
{
    match c {
        0 => 255,  // white
        1 => 170,  // light grey
        2 => 85,  // dark grey
        _ => 0,  // black
    }
}

/// The grey level of an object colour index.
fn object_shade(c: u8) -> (r: u8)
    ensures
        r == sprite_shade(c),
{
    match c {
        1 => 255,
        2 => 170,
        3 => 85,
        _ => 0,
    }
}

} // verus!
