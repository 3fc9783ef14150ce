//! The picture processing unit: LCD status and control, the mode state
//! machine of each scanline, and the rendering of background, window and
//! objects into an RGB framebuffer.
use vstd::prelude::*;
use crate::mmu::{MMU, MMUView, same_ram, lemma_io_write_keeps_ram};

verus! {

/// Width of the screen in pixels.
pub const WIDTH: u32 = 160;

/// Height of the screen in pixels.
pub const HEIGHT: u32 = 144;

/// Number of tiles kept decoded: 256 addressed unsigned from 0x8000 and
/// 256 addressed signed around 0x9000.
pub const NUM_TILES: usize = 512;

/// Number of objects in OAM.
pub const NUM_OBJECTS: u16 = 40;

/// Bytes in the RGB framebuffer.
pub const FRAMEBUFFER_LEN: usize = 69120;

// background tile maps
pub const BG_MAP_UNSIGNED: u16 = 0x9800;
pub const BG_MAP_SIGNED: u16 = 0x9C00;

// tile data
pub const TILE_DATA_SIGNED: u16 = 0x8800;
pub const TILE_DATA_UNSIGNED: u16 = 0x8000;

// ppu modes
pub const MODE2_CYCLES: u32 = 80;
pub const MODE3_CYCLES: u32 = 172;
pub const MODE0_CYCLES: u32 = 204;
pub const SCANLINE_CYCLES: u32 = 456;

/// A decoded tile: 8x8 colour indices, row by row.
pub type Tile = [u8; 64];

/// `x - y` wrapped into a byte.
pub open spec fn sub8(x: u8, y: u8) -> u8 {
    if x >= y { (x - y) as u8 } else { (x + 256 - y) as u8 }
}

/// `x + y` wrapped into a byte.
pub open spec fn add8(x: u8, y: u8) -> u8 {
    if x + y < 256 { (x + y) as u8 } else { (x + y - 256) as u8 }
}

/// The grey level of one of the four shades of the monochrome Game Boy,
/// from white (0) to black (3).
pub open spec fn shade_gray(shade: u8) -> u8 {
    if shade == 0 { 255 } else if shade == 1 { 170 } else if shade == 2 { 85 } else { 0 }
}

/// The grey level of colour index `index` under `palette`: each index picks
/// a two-bit shade out of the palette byte; indices above 3 are white.
pub open spec fn palette_gray(index: u8, palette: u8) -> u8 {
    if index > 3 {
        255
    } else {
        shade_gray((palette >> (index * 2)) & 0x03)
    }
}

/// The state of the PPU.
pub struct PPUView {
    pub framebuffer: Seq<u8>,
    pub scanline: u8,
    pub scanline_cycle: u32,
    pub tile_cache: Seq<Seq<u8>>,
    pub lcd_on: bool,
    pub window_tile_map_area: u16,
    pub window_enable: bool,
    pub background_and_window_tile_area: u16,
    pub background_tilemap_area: u16,
    pub object_size: bool,
    pub object_enabled: bool,
    pub background_and_window_enable_priority: bool,
    pub mode: u8,
    pub window_line_counter: u8,
}

/// Colour index of pixel (`x`, `y`) of the tile whose 16 bytes start at
/// `base`: bit 7-x of the second byte of the row is the high bit, of the
/// first byte the low bit.
pub open spec fn tile_pixel(m: MMUView, base: u16, y: int, x: int) -> u8 {
    let lo_byte = m.read((base + y * 2) as u16);
    let hi_byte = m.read((base + y * 2 + 1) as u16);
    let lo = (lo_byte >> ((7 - x) as u8)) & 1;
    let hi = (hi_byte >> ((7 - x) as u8)) & 1;
    (hi << 1) | lo
}

/// The tile whose 16 bytes start at `base`, decoded.
pub open spec fn decode_tile(m: MMUView, base: u16) -> Seq<u8> {
    Seq::new(64, |i: int| tile_pixel(m, base, i / 8, i % 8))
}

/// Where tile `k` of the cache is decoded from: tiles 0-255 from 0x8000,
/// tiles 256-383 from 0x9000 and tiles 384-511 from 0x8800.
pub open spec fn tile_base(k: int) -> u16 {
    if k < 256 {
        (0x8000 + k * 16) as u16
    } else if k < 384 {
        (0x9000 + (k - 256) * 16) as u16
    } else {
        (0x8800 + (k - 384) * 16) as u16
    }
}

/// The tile cache rebuilt from video memory.
pub open spec fn regenerate_tiles(cache: Seq<Seq<u8>>, m: MMUView) -> Seq<Seq<u8>> {
    Seq::new(cache.len(), |k: int| if k < 512 { decode_tile(m, tile_base(k)) } else { cache[k] })
}

/// Index in the tile cache of the tile numbered `tile_index` in the map:
/// in signed addressing tile 0 sits at 0x9000 and tile 0x80 at 0x8800.
pub open spec fn cache_index(tile_index: u8, signed: bool) -> int {
    if signed { 256 + tile_index } else { tile_index as int }
}

impl PPUView {
    /// The shape every PPU has: a full framebuffer, 512 decoded tiles, and
    /// tile map and tile data areas among those the LCD control selects.
    pub open spec fn valid(self) -> bool {
        &&& self.framebuffer.len() == 69120
        &&& self.tile_cache.len() == 512
        &&& forall|k: int| 0 <= k < 512 ==> (#[trigger] self.tile_cache[k]).len() == 64
        &&& self.window_tile_map_area == 0 || self.window_tile_map_area == 0x9800 || self.window_tile_map_area == 0x9C00
        &&& self.background_tilemap_area == 0 || self.background_tilemap_area == 0x9800 || self.background_tilemap_area == 0x9C00
        &&& self.background_and_window_tile_area == 0 || self.background_and_window_tile_area == 0x8000
            || self.background_and_window_tile_area == 0x8800
    }

    /// A valid PPU partway through a scanline.
    pub open spec fn well_formed(self) -> bool {
        self.valid() && self.scanline_cycle < SCANLINE_CYCLES
    }

    // -------------------------------------------------------------------
    // LCD control
    // -------------------------------------------------------------------

    /// The PPU after reading LCDC (0xFF40): turning the LCD off resets the
    /// scanline, the mode and LY (0xFF44); with the LCD on, the bits select
    /// the window map, window enable, tile data, background map, object size,
    /// object enable and background enable.
    pub open spec fn check_status(self, m: MMUView) -> (PPUView, MMUView) {
        let lcd_control = m.read(0xFF40);
        let new_lcd_on = lcd_control & 0x80 != 0;
        let (p, m1) = if !new_lcd_on && self.lcd_on {
            (
                PPUView { scanline: 0, scanline_cycle: 0, mode: 0, window_line_counter: 0, ..self },
                m.write(0xFF44, 0),
            )
        } else {
            (self, m)
        };
        let p = PPUView { lcd_on: new_lcd_on, ..p };
        if !new_lcd_on {
            (p, m1)
        } else {
            (
                PPUView {
                    window_tile_map_area: if lcd_control & 0x40 != 0 { BG_MAP_SIGNED } else { BG_MAP_UNSIGNED },
                    window_enable: lcd_control & 0x20 != 0,
                    background_and_window_tile_area: if lcd_control & 0x10 != 0 { TILE_DATA_UNSIGNED } else { TILE_DATA_SIGNED },
                    background_tilemap_area: if lcd_control & 0x08 != 0 { BG_MAP_SIGNED } else { BG_MAP_UNSIGNED },
                    object_size: lcd_control & 0x04 != 0,
                    object_enabled: lcd_control & 0x02 != 0,
                    background_and_window_enable_priority: lcd_control & 0x01 != 0,
                    ..p
                },
                m1,
            )
        }
    }

    /// STAT (0xFF41) after a mode change: the mode in bits 0-1, and a STAT
    /// interrupt (bit 1 of IF) when the source bit of the new mode is set
    /// (bit 5 for mode 2, bit 4 for mode 1, bit 3 for mode 0).
    pub open spec fn on_mode_change(self, m: MMUView) -> MMUView {
        let stat = (m.read(0xFF41) & !0x03u8) | (self.mode & 0x03);
        let m1 = m.write(0xFF41, stat);
        let stat = m1.read(0xFF41);
        let request_stat = if self.mode == 2 {
            (stat & (1u8 << 5)) != 0
        } else if self.mode == 1 {
            (stat & (1u8 << 4)) != 0
        } else if self.mode == 0 {
            (stat & (1u8 << 3)) != 0
        } else {
            false
        };
        if request_stat {
            m1.write(0xFF0F, m1.read(0xFF0F) | 0x02)
        } else {
            m1
        }
    }

    // -------------------------------------------------------------------
    // Background and window
    // -------------------------------------------------------------------

    /// The window X origin: WX (0xFF4B) minus 7, or 0 below 7.
    pub open spec fn window_x(self, m: MMUView) -> u16 {
        let wx_raw = m.read(0xFF4B);
        if wx_raw >= 7 { (wx_raw - 7) as u16 } else { 0 }
    }

    /// Whether the window covers the current line: enabled, and
    /// WY (0xFF4A) at or above the line and on screen.
    pub open spec fn window_active(self, m: MMUView) -> bool {
        let wy = m.read(0xFF4A) as u16;
        self.window_enable && self.scanline as u16 >= wy && wy < 144
    }

    /// Colour index of pixel `x` of the current line: from the window where
    /// it covers the pixel (its own line counter for y), else from the
    /// background scrolled by SCX/SCY (0xFF43/0xFF42) with wrap-around.
    pub open spec fn background_color_index(self, m: MMUView, x: u16) -> u8 {
        let y = self.scanline as u16;
        let wx = self.window_x(m);
        let (area, tile_x, tile_y, pixel_x, pixel_y): (u16, int, int, int, int) =
            if self.window_active(m) && x >= wx {
                let window_x: int = x - wx;
                let window_y: int = self.window_line_counter as int;
                (self.window_tile_map_area, window_x / 8, window_y / 8, window_x % 8, window_y % 8)
            } else {
                let map_y: int = (m.read(0xFF42) as int + y) % 256;
                let map_x: int = (m.read(0xFF43) as int + x) % 256;
                (self.background_tilemap_area, map_x / 8, map_y / 8, map_x % 8, map_y % 8)
            };
        let tile_index = m.read((area + tile_y * 32 + tile_x) as u16);
        let signed = self.background_and_window_tile_area == TILE_DATA_SIGNED;
        self.tile_cache[cache_index(tile_index, signed)][pixel_y * 8 + pixel_x]
    }

    /// Grey level of pixel `x` of the current line under BGP (0xFF47).
    pub open spec fn background_gray(self, m: MMUView, x: u16) -> u8 {
        palette_gray(self.background_color_index(m, x), m.read(0xFF47))
    }

    /// The framebuffer with the background and window of the current line
    /// drawn in.
    pub open spec fn background_line(self, m: MMUView) -> Seq<u8> {
        let row = self.scanline as int * 480;
        Seq::new(self.framebuffer.len(), |j: int|
            if row <= j < row + 480 {
                self.background_gray(m, ((j - row) / 3) as u16)
            } else {
                self.framebuffer[j]
            })
    }

    // -------------------------------------------------------------------
    // Objects
    // -------------------------------------------------------------------

    pub open spec fn sprite_height(self) -> u8 {
        if self.object_size { 16 } else { 8 }
    }

    /// Whether object `i` has a valid Y and covers the current line.
    pub open spec fn sprite_on_line(self, m: MMUView, i: u16) -> bool {
        let y_pos = m.read((0xFE00 + i * 4) as u16);
        let top = sub8(y_pos, 16);
        let bottom = add8(top, self.sprite_height());
        y_pos != 0 && y_pos < 160 && self.scanline >= top && self.scanline < bottom
    }

    /// The objects among the first `n` of OAM that cover the current line,
    /// in OAM order, at most 10 of them.
    pub open spec fn sprites_on_line(self, m: MMUView, n: nat) -> Seq<u16>
        decreases n,
    {
        if n == 0 {
            Seq::empty()
        } else {
            let s = self.sprites_on_line(m, (n - 1) as nat);
            if s.len() < 10 && self.sprite_on_line(m, (n - 1) as u16) {
                s.push((n - 1) as u16)
            } else {
                s
            }
        }
    }

    /// The byte at `k` of the OAM entry of object `i`.
    pub open spec fn oam_byte(self, m: MMUView, i: u16, k: int) -> u8 {
        m.read((0xFE00 + i * 4 + k) as u16)
    }

    /// The row of the object's tile that the current line shows.
    pub open spec fn sprite_tile_row(self, m: MMUView, i: u16) -> u8 {
        let sprite_y = sub8(self.oam_byte(m, i, 0), 16);
        let sprite_row = sub8(self.scanline, sprite_y);
        if self.oam_byte(m, i, 3) & 0x40 != 0 {
            sub8((self.sprite_height() - 1) as u8, sprite_row)
        } else {
            sprite_row
        }
    }

    /// The tile that object `i` shows on the current line; 8x16 objects
    /// use the even tile for their upper half and the next for the lower.
    pub open spec fn sprite_tile(self, m: MMUView, i: u16) -> int {
        let tile_index = self.oam_byte(m, i, 2);
        if self.sprite_height() == 16 {
            (tile_index & 0xFE) + self.sprite_tile_row(m, i) / 8
        } else {
            tile_index as int
        }
    }

    /// Whether object `i` is drawn at all: X on screen and its tile among
    /// the 256 unsigned tiles.
    pub open spec fn sprite_drawn(self, m: MMUView, i: u16) -> bool {
        let x_pos = self.oam_byte(m, i, 1);
        x_pos != 0 && x_pos < 168 && self.sprite_tile(m, i) < 256
    }

    /// Colour index of column `tx` (0-7, left to right on screen) of object
    /// `i` on the current line, flipped horizontally when bit 5 is set.
    pub open spec fn sprite_color_index(self, m: MMUView, i: u16, tx: int) -> u8 {
        let col = if self.oam_byte(m, i, 3) & 0x20 != 0 { 7 - tx } else { tx };
        self.tile_cache[self.sprite_tile(m, i)][(self.sprite_tile_row(m, i) % 8) * 8 + col]
    }

    /// The framebuffer `fb` with object `i` drawn into the current line,
    /// column by column, if the object is drawn at all.
    pub open spec fn draw_sprite(self, m: MMUView, i: u16, fb: Seq<u8>) -> Seq<u8> {
        if self.sprite_drawn(m, i) {
            self.draw_sprite_columns(m, i, fb, 8)
        } else {
            fb
        }
    }

    /// Columns 0 to `ncols - 1` of object `i` drawn into `fb`.
    pub open spec fn draw_sprite_columns(self, m: MMUView, i: u16, fb: Seq<u8>, ncols: int) -> Seq<u8>
        decreases ncols,
    {
        if ncols <= 0 {
            fb
        } else {
            self.draw_sprite_pixel(m, i, self.draw_sprite_columns(m, i, fb, ncols - 1), ncols - 1)
        }
    }

    /// Column `tx` of object `i` drawn into `fb`: skipped off screen and
    /// for colour 0 (transparent); with the priority bit (bit 7) the object
    /// only shows over white; bit 4 picks OBP1 (0xFF49) over OBP0 (0xFF48).
    pub open spec fn draw_sprite_pixel(self, m: MMUView, i: u16, fb: Seq<u8>, tx: int) -> Seq<u8> {
        let screen_x = add8(sub8(self.oam_byte(m, i, 1), 8), tx as u8) as int;
        let attributes = self.oam_byte(m, i, 3);
        let palette = if attributes & 0x10 != 0 { m.read(0xFF49) } else { m.read(0xFF48) };
        let priority = attributes & 0x80 != 0;
        let ci = self.sprite_color_index(m, i, tx);
        let base = (self.scanline as int * 160 + screen_x) * 3;
        if screen_x < 160 && ci != 0 && base + 2 < fb.len() {
            let shown = !priority || (fb[base] == 255 && fb[base + 1] == 255 && fb[base + 2] == 255);
            if shown {
                let g = palette_gray(ci, palette);
                fb.update(base, g).update(base + 1, g).update(base + 2, g)
            } else {
                fb
            }
        } else {
            fb
        }
    }

    /// The framebuffer with objects `sprites[k-1]`, ..., `sprites[0]` drawn
    /// in that order, so that earlier objects in OAM end up on top.
    pub open spec fn draw_sprites(self, m: MMUView, sprites: Seq<u16>, k: nat, fb: Seq<u8>) -> Seq<u8>
        decreases k,
    {
        if k == 0 {
            fb
        } else {
            self.draw_sprites(m, sprites, (k - 1) as nat, self.draw_sprite(m, sprites[k - 1], fb))
        }
    }

    /// Once 10 objects are found, the search finds no more.
    pub proof fn lemma_sprites_saturate(self, m: MMUView, n: nat, k: nat)
        requires
            n <= k,
            n == 40 || self.sprites_on_line(m, n).len() >= 10,
            k <= 40,
        ensures
            self.sprites_on_line(m, k) == self.sprites_on_line(m, n),
        decreases k - n,
    {
        if n < k {
            self.lemma_sprites_saturate(m, n, (k - 1) as nat);
        }
    }

    /// The objects found lie among the first `n` of OAM.
    pub proof fn lemma_sprites_bounded(self, m: MMUView, n: nat)
        ensures
            forall|j: int| 0 <= j < self.sprites_on_line(m, n).len() ==> #[trigger] self.sprites_on_line(m, n)[j] < n,
        decreases n,
    {
        if n > 0 {
            self.lemma_sprites_bounded(m, (n - 1) as nat);
            let s = self.sprites_on_line(m, (n - 1) as nat);
            assert forall|j: int| 0 <= j < self.sprites_on_line(m, n).len() implies #[trigger] self.sprites_on_line(m, n)[j] < n by {
                if j < s.len() {
                    assert(s[j] < n - 1);
                }
            }
        }
    }

    /// Drawing object columns does not depend on the framebuffer kept in
    /// the PPU state, only on the one drawn into.
    pub proof fn lemma_columns_ignore_framebuffer(self, m: MMUView, i: u16, other: Seq<u8>, fb: Seq<u8>, ncols: int)
        ensures
            (PPUView { framebuffer: other, ..self }).draw_sprite_columns(m, i, fb, ncols)
                == self.draw_sprite_columns(m, i, fb, ncols),
        decreases ncols,
    {
        if ncols > 0 {
            self.lemma_columns_ignore_framebuffer(m, i, other, fb, ncols - 1);
            let prev = self.draw_sprite_columns(m, i, fb, ncols - 1);
            assert((PPUView { framebuffer: other, ..self }).draw_sprite_pixel(m, i, prev, ncols - 1)
                == self.draw_sprite_pixel(m, i, prev, ncols - 1));
        }
    }

    /// Drawing an object does not depend on the framebuffer kept in the PPU
    /// state, only on the one drawn into.
    pub proof fn lemma_draw_sprite_ignores_framebuffer(self, m: MMUView, i: u16, other: Seq<u8>, fb: Seq<u8>)
        ensures
            (PPUView { framebuffer: other, ..self }).draw_sprite(m, i, fb) == self.draw_sprite(m, i, fb),
    {
        self.lemma_columns_ignore_framebuffer(m, i, other, fb, 8);
    }

    /// The framebuffer after the objects of the current line were drawn.
    pub open spec fn object_line(self, m: MMUView) -> Seq<u8> {
        let sprites = self.sprites_on_line(m, 40);
        self.draw_sprites(m, sprites, sprites.len(), self.framebuffer)
    }

    // -------------------------------------------------------------------
    // Scanline and step
    // -------------------------------------------------------------------

    /// Rendering of the current line: the tile cache is rebuilt if video
    /// memory changed, then background and window are drawn, the window line
    /// counter advances if the window was shown, and objects are drawn on top
    /// if enabled.
    pub open spec fn render_scanline(self, m: MMUView) -> (PPUView, MMUView) {
        let (p, m) = if m.vram_changed {
            (
                PPUView { tile_cache: regenerate_tiles(self.tile_cache, m), ..self },
                MMUView { vram_changed: false, ..m },
            )
        } else {
            (self, m)
        };
        let window_active = p.window_active(m);
        let p = PPUView {
            framebuffer: p.background_line(m),
            window_line_counter: if window_active { ((p.window_line_counter + 1) % 256) as u8 } else { p.window_line_counter },
            ..p
        };
        if p.object_enabled {
            (PPUView { framebuffer: p.object_line(m), ..p }, m)
        } else {
            (p, m)
        }
    }

    /// The mode the PPU is in, from the line and the cycle within it:
    /// VBlank (1) below line 144, else OAM search (2), pixel transfer (3)
    /// and HBlank (0).
    pub open spec fn mode_for(scanline: u8, cycle: u32) -> u8 {
        if scanline >= 144 {
            1
        } else if cycle < MODE2_CYCLES {
            2
        } else if cycle < MODE2_CYCLES + MODE3_CYCLES {
            3
        } else {
            0
        }
    }

    /// One machine cycle (4 clock cycles) of the PPU.
    #[verifier::opaque]
    pub open spec fn step(self, m: MMUView) -> (PPUView, MMUView) {
        let (p, m) = self.check_status(m);
        if !p.lcd_on {
            (p, m)
        } else {
            let p = PPUView { scanline_cycle: (p.scanline_cycle + 4) as u32, ..p };
            let new_mode = Self::mode_for(p.scanline, p.scanline_cycle);
            let (p, m) = if new_mode != p.mode {
                let p = PPUView { mode: new_mode, ..p };
                let m = p.on_mode_change(m);
                if new_mode == 3 && p.scanline < 144 { p.render_scanline(m) } else { (p, m) }
            } else {
                (p, m)
            };
            if p.scanline_cycle >= SCANLINE_CYCLES {
                p.end_of_line(m)
            } else {
                (p, m)
            }
        }
    }

    /// The end of a line: LY advances (and is written to 0xFF44), a VBlank
    /// interrupt (bit 0 of IF) is requested on entering line 144, the frame
    /// wraps after line 153, and the mode moves to VBlank or OAM search.
    pub open spec fn end_of_line(self, m: MMUView) -> (PPUView, MMUView) {
        let scanline = ((self.scanline + 1) % 256) as u8;
        let p = PPUView {
            scanline,
            scanline_cycle: (self.scanline_cycle - SCANLINE_CYCLES) as u32,
            window_line_counter: if scanline == 0 { 0 } else { self.window_line_counter },
            ..self
        };
        let m = m.write(0xFF44, scanline);
        let (p, m) = if scanline == 144 {
            (p, m.write(0xFF0F, m.read(0xFF0F) | 0x01))
        } else if scanline > 153 {
            (PPUView { scanline: 0, window_line_counter: 0, ..p }, m)
        } else {
            (p, m)
        };
        let final_mode: u8 = if p.scanline >= 144 { 1 } else { 2 };
        if final_mode != p.mode {
            let p = PPUView { mode: final_mode, ..p };
            (p, p.on_mode_change(m))
        } else {
            (p, m)
        }
    }
}

/// The picture processing unit.
pub struct PPU {
    pub framebuffer: [u8; 69120],
    pub scanline: u8,
    pub scanline_cycle: u32,
    // every tile decoded once, so it does not have to be recalculated
    pub tile_cache: Vec<Tile>,
    // lcd status
    pub lcd_on: bool,
    pub window_tile_map_area: u16,
    pub window_enable: bool,
    pub background_and_window_tile_area: u16,
    pub background_tilemap_area: u16,
    pub object_size: bool,
    pub object_enabled: bool,
    pub background_and_window_enable_priority: bool,
    // current mode of the ppu
    pub mode: u8,
    // window line counter for window rendering
    pub window_line_counter: u8,
}

impl View for PPU {
    type V = PPUView;

    open spec fn view(&self) -> PPUView {
        PPUView {
            framebuffer: self.framebuffer@,
            scanline: self.scanline,
            scanline_cycle: self.scanline_cycle,
            tile_cache: tiles_view(self.tile_cache@),
            lcd_on: self.lcd_on,
            window_tile_map_area: self.window_tile_map_area,
            window_enable: self.window_enable,
            background_and_window_tile_area: self.background_and_window_tile_area,
            background_tilemap_area: self.background_tilemap_area,
            object_size: self.object_size,
            object_enabled: self.object_enabled,
            background_and_window_enable_priority: self.background_and_window_enable_priority,
            mode: self.mode,
            window_line_counter: self.window_line_counter,
        }
    }
}

/// The decoded tiles as sequences.
pub open spec fn tiles_view(tiles: Seq<Tile>) -> Seq<Seq<u8>> {
    Seq::new(tiles.len(), |k: int| tiles[k]@)
}

/// The PPU at power-on: a black framebuffer, blank tiles, LCD on, mode 2.
pub open spec fn initial_ppu() -> PPUView {
    PPUView {
        framebuffer: Seq::new(69120, |i: int| 0u8),
        scanline: 0,
        scanline_cycle: 0,
        tile_cache: Seq::new(512, |k: int| Seq::new(64, |i: int| 0u8)),
        lcd_on: true,
        window_tile_map_area: 0,
        window_enable: false,
        background_and_window_tile_area: 0,
        background_tilemap_area: 0,
        object_size: false,
        object_enabled: false,
        background_and_window_enable_priority: false,
        mode: 2,
        window_line_counter: 0,
    }
}

/// The RGB value of a shade.
fn shade_color(shade: u8) -> (r: [u8; 3])
    ensures
        r@ == seq![shade_gray(shade), shade_gray(shade), shade_gray(shade)],
{
    let g: u8 = if shade == 0 { 255 } else if shade == 1 { 170 } else if shade == 2 { 85 } else { 0 };
    let r = [g, g, g];
    assert(r@ =~= seq![g, g, g]);
    r
}

impl PPU {
    /// A fresh PPU; LY (0xFF44) is cleared.
    pub fn new(ram: &mut MMU) -> (r: Self)
        requires
            old(ram)@.well_formed(),
        ensures
            r@ == initial_ppu(),
            final(ram)@ == old(ram)@.write(0xFF44, 0),
            final(ram)@.well_formed(),
    {
        let empty_tile: Tile = [0u8; 64];
        let tile_cache = vec![empty_tile; NUM_TILES];
        ram.write(0xFF44, 0);
        let r = Self {
            framebuffer: [0; 69120],
            scanline: 0,
            scanline_cycle: 0,
            tile_cache,
            lcd_on: true,
            window_tile_map_area: 0,
            window_enable: false,
            background_and_window_tile_area: 0,
            background_tilemap_area: 0,
            object_size: false,
            object_enabled: false,
            background_and_window_enable_priority: false,
            mode: 2,
            window_line_counter: 0,
        };
        assert(r@.framebuffer =~= Seq::new(69120, |i: int| 0u8));
        assert forall|k: int| 0 <= k < 512 implies r@.tile_cache[k] =~= Seq::new(64, |i: int| 0u8) by {
            assert(r.tile_cache@[k] == empty_tile);
        }
        assert(r@.tile_cache =~= Seq::new(512, |k: int| Seq::new(64, |i: int| 0u8)));
        r
    }

    /// Reads LCDC (0xFF40) and applies it.
    pub fn check_status(&mut self, ram: &mut MMU)
        requires
            old(ram)@.well_formed(),
        ensures
            (final(self)@, final(ram)@) == old(self)@.check_status(old(ram)@),
            final(ram)@.well_formed(),
    {
        let lcd_control = ram.read(0xFF40);
        // bit 7: lcd on or off
        let new_lcd_on = lcd_control & 0x80 != 0;
        if !new_lcd_on && self.lcd_on {
            // LCD turned off: reset the line state
            self.scanline = 0;
            self.scanline_cycle = 0;
            self.mode = 0;
            self.window_line_counter = 0;
            ram.write(0xFF44, 0);
        }
        self.lcd_on = new_lcd_on;
        if !self.lcd_on {
            return;
        }
        // bit 6: window tile map area
        self.window_tile_map_area = if lcd_control & 0x40 != 0 { BG_MAP_SIGNED } else { BG_MAP_UNSIGNED };
        // bit 5: window enable
        self.window_enable = lcd_control & 0x20 != 0;
        // bit 4: tile data area
        self.background_and_window_tile_area = if lcd_control & 0x10 != 0 {
            TILE_DATA_UNSIGNED
        } else {
            TILE_DATA_SIGNED
        };
        // bit 3: background tile map area
        self.background_tilemap_area = if lcd_control & 0x08 != 0 { BG_MAP_SIGNED } else { BG_MAP_UNSIGNED };
        // bit 2: object size 8x8 or 8x16
        self.object_size = lcd_control & 0x04 != 0;
        // bit 1: objects enabled
        self.object_enabled = lcd_control & 0x02 != 0;
        // bit 0: background and window enable
        self.background_and_window_enable_priority = lcd_control & 0x01 != 0;
    }

    /// Publishes the new mode in STAT and requests a STAT interrupt if the
    /// mode's source is enabled.
    fn on_mode_change(&self, ram: &mut MMU)
        requires
            old(ram)@.well_formed(),
        ensures
            final(ram)@ == self@.on_mode_change(old(ram)@),
            final(ram)@.well_formed(),
    {
        // mode in stat bits 0-1
        let mut stat = ram.read(0xFF41) & !0x03u8;
        stat |= self.mode & 0x03;
        ram.write(0xFF41, stat);
        // stat interrupt sources: bits 5, 4, 3 for modes 2, 1, 0
        let stat = ram.read(0xFF41);
        let request_stat = if self.mode == 2 {
            (stat & (1u8 << 5)) != 0
        } else if self.mode == 1 {
            (stat & (1u8 << 4)) != 0
        } else if self.mode == 0 {
            (stat & (1u8 << 3)) != 0
        } else {
            false
        };
        if request_stat {
            let curr_if = ram.read(0xFF0F);
            ram.write(0xFF0F, curr_if | 0x02);
        }
    }

    /// One machine cycle (4 clock cycles) of the PPU.
    pub fn step(&mut self, ram: &mut MMU)
        requires
            old(self)@.valid(),
            old(self)@.scanline_cycle <= u32::MAX - 4,
            old(ram)@.well_formed(),
        ensures
            (final(self)@, final(ram)@) == old(self)@.step(old(ram)@),
            final(self)@.valid(),
            old(self)@.scanline_cycle < SCANLINE_CYCLES ==> final(self)@.scanline_cycle < SCANLINE_CYCLES,
            final(ram)@.well_formed(),
            // the line stays within the frame
            old(self)@.scanline <= 153 ==> final(self)@.scanline <= 153,
            // whole machine cycles; the LCD off rests on line 0, cycle 0
            old(self)@.scanline_cycle < SCANLINE_CYCLES && old(self)@.scanline_cycle % 4 == 0
                ==> final(self)@.scanline_cycle % 4 == 0,
            old(self)@.scanline_cycle < SCANLINE_CYCLES && old(self)@.scanline_cycle % 4 == 0
                && (!old(self)@.lcd_on ==> old(self)@.scanline == 0 && old(self)@.scanline_cycle == 0)
                ==> (!final(self)@.lcd_on ==> final(self)@.scanline == 0 && final(self)@.scanline_cycle == 0),
            old(ram)@.read(0xFF40) & 0x80 == 0 ==> !final(self)@.lcd_on,
            // with the LCD on: four cycles on, the next line at the end of one,
            // and VBlank requested on reaching line 144
            old(ram)@.read(0xFF40) & 0x80 != 0 && old(self)@.scanline <= 153
                && old(self)@.scanline_cycle < SCANLINE_CYCLES ==> if old(self)@.scanline_cycle + 4 < SCANLINE_CYCLES {
                final(self)@.scanline == old(self)@.scanline
                    && final(self)@.scanline_cycle == old(self)@.scanline_cycle + 4
            } else {
                final(self)@.scanline == (old(self)@.scanline + 1) % 154
                    && final(self)@.scanline_cycle == old(self)@.scanline_cycle + 4 - SCANLINE_CYCLES
            },
            old(ram)@.read(0xFF40) & 0x80 != 0 && old(self)@.scanline == 143 && old(self)@.scanline_cycle
                < SCANLINE_CYCLES && old(self)@.scanline_cycle + 4 >= SCANLINE_CYCLES
                ==> final(ram)@.read(0xFF0F) & 0x01 == 0x01,
    {
        proof {
            reveal(PPUView::step);
            lemma_step_facts(self@, ram@);
        }
        // the LCD control register first
        self.check_status(ram);
        // with the LCD off nothing happens
        if !self.lcd_on {
            return;
        }
        self.scanline_cycle += 4;
        // the mode from the position in the line
        let previous_mode = self.mode;
        let new_mode = if self.scanline >= 144 {
            1  // VBlank
        } else if self.scanline_cycle < MODE2_CYCLES {
            2  // OAM search
        } else if self.scanline_cycle < MODE2_CYCLES + MODE3_CYCLES {
            3  // pixel transfer
        } else {
            0  // HBlank
        };
        if new_mode != previous_mode {
            self.mode = new_mode;
            self.on_mode_change(ram);
            // render when entering mode 3
            if new_mode == 3 && self.scanline < 144 {
                self.render_scanline(ram);
            }
        }
        // end of the line
        if self.scanline_cycle >= SCANLINE_CYCLES {
            self.end_of_line(ram);
        }
    }

    fn end_of_line(&mut self, ram: &mut MMU)
        requires
            old(self)@.valid(),
            old(self)@.scanline_cycle >= SCANLINE_CYCLES,
            old(ram)@.well_formed(),
        ensures
            (final(self)@, final(ram)@) == old(self)@.end_of_line(old(ram)@),
            final(self)@.valid(),
            final(ram)@.well_formed(),
    {
        // advance to the next line
        self.scanline = self.scanline.wrapping_add(1);
        self.scanline_cycle -= SCANLINE_CYCLES;
        ram.write(0xFF44, self.scanline);
        // the window line counter restarts with the frame
        if self.scanline == 0 {
            self.window_line_counter = 0;
        }
        if self.scanline == 144 {
            // vblank interrupt
            let curr_if = ram.read(0xFF0F);
            ram.write(0xFF0F, curr_if | 0x01);
        } else if self.scanline > 153 {
            self.scanline = 0;
            self.window_line_counter = 0;
        }
        let final_mode = if self.scanline >= 144 { 1 } else { 2 };
        if final_mode != self.mode {
            self.mode = final_mode;
            self.on_mode_change(ram);
        }
    }

    /// Rebuilds the whole tile cache from video memory.
    fn generate_tiles(&mut self, ram: &mut MMU)
        requires
            old(self)@.valid(),
            old(ram)@.well_formed(),
        ensures
            final(self)@ == (PPUView { tile_cache: regenerate_tiles(old(self)@.tile_cache, old(ram)@), ..old(self)@ }),
            final(ram)@ == (MMUView { vram_changed: false, ..old(ram)@ }),
    {
        let ghost p0 = self@;
        let ghost m0 = ram@;
        for tile_index in 0..256usize
            invariant
                ram@ == m0,
                m0.well_formed(),
                self@.valid(),
                self@ == (PPUView { tile_cache: self@.tile_cache, ..p0 }),
                self@.tile_cache.len() == 512,
                forall|k: int| 0 <= k < 512 ==> #[trigger] self@.tile_cache[k] == if k < tile_index || (256 <= k < 256 + tile_index) {
                    decode_tile(m0, tile_base(k))
                } else {
                    p0.tile_cache[k]
                },
        {
            // unsigned addressing (0x8000-0x8FFF)
            let base_unsigned = 0x8000 + (tile_index * 16) as u16;
            self.generate_single_tile(ram, base_unsigned, tile_index);
            if tile_index < 128 {
                // tiles 0-127 of signed addressing sit at 0x9000-0x97FF
                let base_signed = 0x9000 + (tile_index * 16) as u16;
                self.generate_single_tile(ram, base_signed, 256 + tile_index);
            } else {
                // tiles 128-255 of signed addressing sit at 0x8800-0x8FFF
                let base_signed = 0x8800 + ((tile_index - 128) * 16) as u16;
                self.generate_single_tile(ram, base_signed, 256 + tile_index);
            }
        }
        assert(self@.tile_cache =~= regenerate_tiles(p0.tile_cache, m0));
        // video memory is decoded
        ram.vram_changed = false;
    }

    /// Decodes the tile whose 16 bytes start at `base_addr` into entry
    /// `cache_index` of the cache; an index past the cache is ignored.
    fn generate_single_tile(&mut self, ram: &MMU, base_addr: u16, cache_index: usize)
        requires
            old(self)@.valid(),
            ram@.well_formed(),
            base_addr <= 0xFFFF - 16,
        ensures
            final(self)@ == (PPUView {
                tile_cache: if cache_index < 512 {
                    old(self)@.tile_cache.update(cache_index as int, decode_tile(ram@, base_addr))
                } else {
                    old(self)@.tile_cache
                },
                ..old(self)@
            }),
            final(self)@.valid(),
    {
        if cache_index >= self.tile_cache.len() {
            return;
        }
        let mut tile: Tile = [0u8; 64];
        for y in 0..8u16
            invariant
                ram@.well_formed(),
                base_addr <= 0xFFFF - 16,
                forall|i: int| 0 <= i < y * 8 ==> #[trigger] tile@[i] == decode_tile(ram@, base_addr)[i],
        {
            let byte1 = ram.read(base_addr + y * 2);
            let byte2 = ram.read(base_addr + y * 2 + 1);
            for x in 0..8u8
                invariant
                    y < 8,
                    ram@.well_formed(),
                    base_addr <= 0xFFFF - 16,
                    byte1 == ram@.read((base_addr + y * 2) as u16),
                    byte2 == ram@.read((base_addr + y * 2 + 1) as u16),
                    forall|i: int| 0 <= i < y * 8 + x ==> #[trigger] tile@[i] == decode_tile(ram@, base_addr)[i],
            {
                let bit = 7 - x;
                let lo = (byte1 >> bit) & 1;
                let hi = (byte2 >> bit) & 1;
                let color_index = (hi << 1) | lo;
                let idx = y as usize * 8 + x as usize;
                assert(idx / 8 == y && idx % 8 == x);
                tile[idx] = color_index;
            }
        }
        let ghost before = self@;
        self.tile_cache.set(cache_index, tile);
        assert(tile@ =~= decode_tile(ram@, base_addr));
        assert(self@.tile_cache =~= before.tile_cache.update(cache_index as int, decode_tile(ram@, base_addr)));
    }

    /// The decoded tile for tile number `tile_index` of a map.
    fn get_tile_for_rendering(&self, tile_index: u8, use_signed_addressing: bool) -> (r: &Tile)
        requires
            self@.valid(),
        ensures
            r@ == self@.tile_cache[cache_index(tile_index, use_signed_addressing)],
    {
        if use_signed_addressing {
            // tile numbers 0-127 sit after 0x9000, 128-255 after 0x8800
            let cache_index = if tile_index < 128 {
                256 + tile_index as usize
            } else {
                256 + 128 + (tile_index - 128) as usize
            };
            let last = self.tile_cache.len() - 1;
            &self.tile_cache[if cache_index < last { cache_index } else { last }]
        } else {
            &self.tile_cache[tile_index as usize]
        }
    }

    /// The RGB colour of colour index `index` under `palette`.
    fn map_color_index(&self, index: u8, palette: u8) -> (r: [u8; 3])
        ensures
            r@ == seq![palette_gray(index, palette), palette_gray(index, palette), palette_gray(index, palette)],
    {
        if index > 3 {
            return shade_color(0);
        }
        let shift = index * 2;
        let shade = (palette >> shift) & 0x03;
        shade_color(shade)
    }

    /// Renders the current line: background, window, then objects.
    fn render_scanline(&mut self, ram: &mut MMU)
        requires
            old(self)@.valid(),
            old(self)@.scanline < 144,
            old(ram)@.well_formed(),
        ensures
            (final(self)@, final(ram)@) == old(self)@.render_scanline(old(ram)@),
            final(self)@.valid(),
            final(ram)@.well_formed(),
    {
        // the tiles are rebuilt if video memory changed
        if ram.vram_changed {
            self.generate_tiles(ram);
        }
        let ghost p0 = self@;
        let y = self.scanline as u16;
        let scy = ram.read(0xFF42) as u16;
        let scx = ram.read(0xFF43) as u16;
        let wy = ram.read(0xFF4A) as u16;
        let wx_raw = ram.read(0xFF4B);
        let wx = if wx_raw >= 7 { wx_raw - 7 } else { 0 } as u16;
        let bg_palette = ram.read(0xFF47);
        let use_signed_addressing = self.background_and_window_tile_area == TILE_DATA_SIGNED;
        // does the window cover this line
        let window_active = self.window_enable && y >= wy && wy < 144;
        for x in 0..160u16
            invariant
                p0.valid(),
                p0.scanline < 144,
                ram@.well_formed(),
                y == p0.scanline,
                scy == ram@.read(0xFF42),
                scx == ram@.read(0xFF43),
                wx == p0.window_x(ram@),
                window_active == p0.window_active(ram@),
                bg_palette == ram@.read(0xFF47),
                use_signed_addressing == (p0.background_and_window_tile_area == TILE_DATA_SIGNED),
                self@ == (PPUView { framebuffer: self@.framebuffer, ..p0 }),
                self@.framebuffer == Seq::new(69120, |j: int|
                    if y * 480 <= j < y * 480 + x * 3 {
                        p0.background_gray(ram@, ((j - y * 480) / 3) as u16)
                    } else {
                        p0.framebuffer[j]
                    }),
        {
            let color = self.background_pixel(ram, x, y, scx, scy, wx, window_active, use_signed_addressing, bg_palette);
            let i = ((y * 160) as usize + x as usize) * 3;
            if i + 2 < self.framebuffer.len() {
                self.framebuffer[i] = color[0];
                self.framebuffer[i + 1] = color[1];
                self.framebuffer[i + 2] = color[2];
            }
            assert(self@.framebuffer =~= Seq::new(69120, |j: int|
                if y * 480 <= j < y * 480 + (x + 1) * 3 {
                    p0.background_gray(ram@, ((j - y * 480) / 3) as u16)
                } else {
                    p0.framebuffer[j]
                }));
        }
        assert(self@.framebuffer =~= p0.background_line(ram@));
        // the window line counter advances on lines that show the window
        if window_active {
            self.window_line_counter = self.window_line_counter.wrapping_add(1);
        }
        // objects go over the background
        if self.object_enabled {
            self.render_objects(ram);
        }
    }

    /// The RGB colour of pixel `x` of line `y` of background or window.
    fn background_pixel(
        &self,
        ram: &MMU,
        x: u16,
        y: u16,
        scx: u16,
        scy: u16,
        wx: u16,
        window_active: bool,
        use_signed_addressing: bool,
        bg_palette: u8,
    ) -> (r: [u8; 3])
        requires
            self@.valid(),
            ram@.well_formed(),
            x < 160,
            y == self@.scanline,
            scy == ram@.read(0xFF42),
            scx == ram@.read(0xFF43),
            wx == self@.window_x(ram@),
            window_active == self@.window_active(ram@),
            bg_palette == ram@.read(0xFF47),
            use_signed_addressing == (self@.background_and_window_tile_area == TILE_DATA_SIGNED),
        ensures
            r@ == seq![self@.background_gray(ram@, x), self@.background_gray(ram@, x), self@.background_gray(ram@, x)],
    {
        let (tile_map_area, tile_x, tile_y, pixel_x, pixel_y) = if window_active && x >= wx {
            // the window
            let window_x = x - wx;
            let window_y = self.window_line_counter as u16;
            (self.window_tile_map_area, window_x / 8, window_y / 8, window_x % 8, window_y % 8)
        } else {
            // the background, wrapping around the 256x256 map
            let map_y = (scy.wrapping_add(y)) & 0xFF;
            let map_x = (scx.wrapping_add(x)) & 0xFF;
            let sy = scy.wrapping_add(y);
            let sx = scx.wrapping_add(x);
            assert(sy & 0xFF == sy % 256 && sx & 0xFF == sx % 256) by (bit_vector);
            (self.background_tilemap_area, map_x / 8, map_y / 8, map_x % 8, map_y % 8)
        };
        let tile_index_addr = tile_map_area + tile_y * 32 + tile_x;
        let tile_index = ram.read(tile_index_addr);
        let tile = self.get_tile_for_rendering(tile_index, use_signed_addressing);
        let color_index = tile[(pixel_y * 8 + pixel_x) as usize];
        self.map_color_index(color_index, bg_palette)
    }

    /// Draws the objects of the current line, at most 10, earlier objects
    /// in OAM on top.
    fn render_objects(&mut self, ram: &MMU)
        requires
            old(self)@.valid(),
            old(self)@.scanline < 144,
            ram@.well_formed(),
        ensures
            final(self)@ == (PPUView { framebuffer: old(self)@.object_line(ram@), ..old(self)@ }),
    {
        let ghost p0 = self@;
        let sprite_height: u8 = if self.object_size { 16 } else { 8 };
        let obj_palette0 = ram.read(0xFF48);
        let obj_palette1 = ram.read(0xFF49);
        let current_scanline = self.scanline;
        // the objects on this line, at most 10 of them
        let mut sprites_on_line: Vec<u16> = Vec::new();
        let mut i: u16 = 0;
        while i < NUM_OBJECTS && sprites_on_line.len() < 10
            invariant
                i <= 40,
                ram@.well_formed(),
                self@ == p0,
                sprite_height == p0.sprite_height(),
                current_scanline == p0.scanline,
                sprites_on_line@ == p0.sprites_on_line(ram@, i as nat),
            decreases 40 - i,
        {
            let offset = 0xFE00 + i * 4;
            let y_pos = ram.read(offset);
            // objects with an invalid Y are skipped
            if y_pos != 0 && y_pos < 160 {
                let sprite_top = y_pos.wrapping_sub(16);
                let sprite_bottom = sprite_top.wrapping_add(sprite_height);
                if current_scanline >= sprite_top && current_scanline < sprite_bottom {
                    sprites_on_line.push(i);
                }
            }
            i += 1;
        }
        proof {
            p0.lemma_sprites_saturate(ram@, i as nat, 40);
            p0.lemma_sprites_bounded(ram@, 40);
        }
        let ghost sprites = sprites_on_line@;
        let mut k = sprites_on_line.len();
        while k > 0
            invariant
                k <= sprites.len(),
                sprites_on_line@ == sprites,
                sprites == p0.sprites_on_line(ram@, 40),
                forall|j: int| 0 <= j < sprites.len() ==> #[trigger] sprites[j] < 40,
                ram@.well_formed(),
                p0.valid(),
                p0.scanline < 144,
                obj_palette0 == ram@.read(0xFF48),
                obj_palette1 == ram@.read(0xFF49),
                self@ == (PPUView { framebuffer: self@.framebuffer, ..p0 }),
                self@.framebuffer.len() == 69120,
                p0.draw_sprites(ram@, sprites, k as nat, self@.framebuffer) == p0.object_line(ram@),
            decreases k,
        {
            k -= 1;
            let sprite_index = sprites_on_line[k];
            let ghost fb = self@.framebuffer;
            self.draw_sprite(ram, sprite_index, obj_palette0, obj_palette1);
            assert((PPUView { framebuffer: fb, ..p0 }).draw_sprite(ram@, sprite_index, fb)
                == p0.draw_sprite(ram@, sprite_index, fb)) by {
                p0.lemma_draw_sprite_ignores_framebuffer(ram@, sprite_index, fb, fb);
            }
            assert(p0.draw_sprites(ram@, sprites, (k + 1) as nat, fb)
                == p0.draw_sprites(ram@, sprites, k as nat, p0.draw_sprite(ram@, sprites[k as int], fb)));
        }
    }

    /// Where and how object `sprite_index` shows on the current line:
    /// whether it is drawn, its left edge, its tile, the row of the tile,
    /// the flip and priority bits and its palette.
    #[verifier::rlimit(100)]
    fn sprite_layout(&self, ram: &MMU, sprite_index: u16, obj_palette0: u8, obj_palette1: u8)
        -> (r: (bool, u8, usize, u8, bool, bool, u8))
        requires
            self@.valid(),
            ram@.well_formed(),
            sprite_index < 40,
            obj_palette0 == ram@.read(0xFF48),
            obj_palette1 == ram@.read(0xFF49),
        ensures
            r.0 == self@.sprite_drawn(ram@, sprite_index),
            r.1 == sub8(self@.oam_byte(ram@, sprite_index, 1), 8),
            r.0 ==> r.2 == self@.sprite_tile(ram@, sprite_index),
            r.3 == self@.sprite_tile_row(ram@, sprite_index) % 8,
            r.4 == (self@.oam_byte(ram@, sprite_index, 3) & 0x20 != 0),
            r.5 == (self@.oam_byte(ram@, sprite_index, 3) & 0x80 != 0),
            r.6 == (if self@.oam_byte(ram@, sprite_index, 3) & 0x10 != 0 { ram@.read(0xFF49) } else { ram@.read(0xFF48) }),
    {
        let offset = 0xFE00 + sprite_index * 4;
        let y_pos = ram.read(offset);
        let x_pos = ram.read(offset + 1);
        let tile_index = ram.read(offset + 2);
        let attributes = ram.read(offset + 3);
        let sprite_height: u8 = if self.object_size { 16 } else { 8 };
        let sprite_y = y_pos.wrapping_sub(16);
        let sprite_x = x_pos.wrapping_sub(8);
        let y_flip = attributes & 0x40 != 0;
        let x_flip = attributes & 0x20 != 0;
        let use_palette1 = attributes & 0x10 != 0;
        let priority = attributes & 0x80 != 0;
        let palette = if use_palette1 { obj_palette1 } else { obj_palette0 };
        // the row of the object on this line
        let sprite_row = self.scanline.wrapping_sub(sprite_y);
        let tile_row = if y_flip { (sprite_height - 1).wrapping_sub(sprite_row) } else { sprite_row };
        // objects always use unsigned tile numbers; 8x16 objects ignore bit 0
        let actual_tile_index = if sprite_height == 16 {
            let base_tile = (tile_index & 0xFE) as usize;
            base_tile + (tile_row / 8) as usize
        } else {
            tile_index as usize
        };
        // objects completely off screen are skipped
        let drawn = !(x_pos == 0 || x_pos >= 168) && actual_tile_index < 256;
        (drawn, sprite_x, actual_tile_index, tile_row % 8, x_flip, priority, palette)
    }

    /// Draws object `sprite_index` into the current line.
    fn draw_sprite(&mut self, ram: &MMU, sprite_index: u16, obj_palette0: u8, obj_palette1: u8)
        requires
            old(self)@.valid(),
            old(self)@.scanline < 144,
            ram@.well_formed(),
            sprite_index < 40,
            obj_palette0 == ram@.read(0xFF48),
            obj_palette1 == ram@.read(0xFF49),
        ensures
            final(self)@ == (PPUView {
                framebuffer: old(self)@.draw_sprite(ram@, sprite_index, old(self)@.framebuffer),
                ..old(self)@
            }),
    {
        let ghost p0 = self@;
        let current_scanline = self.scanline;
        let (drawn, sprite_x, actual_tile_index, tile_y, x_flip, priority, palette) =
            self.sprite_layout(ram, sprite_index, obj_palette0, obj_palette1);
        if !drawn {
            return;
        }
        for tile_x in 0..8u8
            invariant
                p0.valid(),
                p0.scanline < 144,
                ram@.well_formed(),
                sprite_index < 40,
                p0.sprite_drawn(ram@, sprite_index),
                actual_tile_index == p0.sprite_tile(ram@, sprite_index),
                tile_y == p0.sprite_tile_row(ram@, sprite_index) % 8,
                sprite_x == sub8(p0.oam_byte(ram@, sprite_index, 1), 8),
                x_flip == (p0.oam_byte(ram@, sprite_index, 3) & 0x20 != 0),
                priority == (p0.oam_byte(ram@, sprite_index, 3) & 0x80 != 0),
                palette == (if p0.oam_byte(ram@, sprite_index, 3) & 0x10 != 0 { ram@.read(0xFF49) } else { ram@.read(0xFF48) }),
                current_scanline == p0.scanline,
                self@ == (PPUView { framebuffer: self@.framebuffer, ..p0 }),
                self@.framebuffer == p0.draw_sprite_columns(ram@, sprite_index, p0.framebuffer, tile_x as int),
        {
            let ghost fb = self@.framebuffer;
            self.draw_sprite_column(ram, sprite_index, tile_x, sprite_x, actual_tile_index, tile_y, x_flip, priority, palette);
            assert((PPUView { framebuffer: fb, ..p0 }).draw_sprite_pixel(ram@, sprite_index, fb, tile_x as int)
                == p0.draw_sprite_pixel(ram@, sprite_index, fb, tile_x as int));
        }
    }

    /// Draws column `tile_x` of object `sprite_index` into the current line.
    #[verifier::rlimit(100)]
    fn draw_sprite_column(
        &mut self,
        ram: &MMU,
        sprite_index: u16,
        tile_x: u8,
        sprite_x: u8,
        actual_tile_index: usize,
        tile_y: u8,
        x_flip: bool,
        priority: bool,
        palette: u8,
    )
        requires
            old(self)@.valid(),
            old(self)@.scanline < 144,
            ram@.well_formed(),
            tile_x < 8,
            actual_tile_index < 256,
            actual_tile_index == old(self)@.sprite_tile(ram@, sprite_index),
            tile_y == old(self)@.sprite_tile_row(ram@, sprite_index) % 8,
            sprite_x == sub8(old(self)@.oam_byte(ram@, sprite_index, 1), 8),
            x_flip == (old(self)@.oam_byte(ram@, sprite_index, 3) & 0x20 != 0),
            priority == (old(self)@.oam_byte(ram@, sprite_index, 3) & 0x80 != 0),
            palette == (if old(self)@.oam_byte(ram@, sprite_index, 3) & 0x10 != 0 { ram@.read(0xFF49) } else { ram@.read(0xFF48) }),
        ensures
            final(self)@ == (PPUView {
                framebuffer: old(self)@.draw_sprite_pixel(ram@, sprite_index, old(self)@.framebuffer, tile_x as int),
                ..old(self)@
            }),
    {
        let ghost p0 = self@;
        let screen_x = sprite_x.wrapping_add(tile_x);
        // pixels off screen are skipped
        if screen_x < 160 {
            let col = if x_flip { 7 - tile_x } else { tile_x };
            let color_index = self.tile_cache[actual_tile_index][(tile_y * 8 + col) as usize];
            assert(color_index == p0.sprite_color_index(ram@, sprite_index, tile_x as int));
            // colour 0 is transparent
            if color_index != 0 {
                let fb_index = (self.scanline as usize * 160 + screen_x as usize) * 3;
                if fb_index + 2 < self.framebuffer.len() {
                    // with priority, only over background colour 0
                    let shown = !priority || (self.framebuffer[fb_index] == 255
                        && self.framebuffer[fb_index + 1] == 255
                        && self.framebuffer[fb_index + 2] == 255);
                    if shown {
                        let color = self.map_color_index(color_index, palette);
                        self.framebuffer[fb_index] = color[0];
                        self.framebuffer[fb_index + 1] = color[1];
                        self.framebuffer[fb_index + 2] = color[2];
                    }
                }
            }
        }
    }

    /// The framebuffer: 160x144 pixels, three bytes (R, G, B) each.
    pub fn get_framebuffer(&self) -> (r: &[u8])
        ensures
            r@ == self.framebuffer@,
    {
        self.framebuffer.as_slice()
    }
}

/// The PPU only touches its I/O registers (LCDC, STAT, LY, IF) and the
/// flag that video RAM changed: work RAM, high RAM and DMA stay as they
/// were.
pub proof fn lemma_ppu_keeps_ram(p: PPUView, m: MMUView)
    ensures
        same_ram(m, p.step(m).1),
{
    reveal(PPUView::step);
    assert forall|m1: MMUView, address: u16, value: u8|
        0xFF01 <= address <= 0xFF7F && address != 0xFF46 implies same_ram(m1, #[trigger] m1.write(address, value)) by {
        lemma_io_write_keeps_ram(m1, address, value);
    }
}

/// The line counter never leaves the 154 lines of a frame (0-153).
pub proof fn lemma_scanline_bounded(p: PPUView, m: MMUView)
    requires
        p.scanline <= 153,
    ensures
        p.step(m).0.scanline <= 153,
{
    reveal(PPUView::step);
}

/// The PPU's clock only moves in whole machine cycles: a line cycle that
/// is a multiple of 4 stays one. With the LCD off the PPU rests on line 0,
/// cycle 0, and turning it off brings it there.
pub proof fn lemma_step_cycle_and_lcd_off(p: PPUView, m: MMUView)
    requires
        p.scanline_cycle < SCANLINE_CYCLES,
        p.scanline_cycle % 4 == 0,
    ensures
        p.step(m).0.scanline_cycle % 4 == 0,
        (!p.lcd_on ==> p.scanline == 0 && p.scanline_cycle == 0)
            ==> (!p.step(m).0.lcd_on ==> p.step(m).0.scanline == 0 && p.step(m).0.scanline_cycle == 0),
        m.read(0xFF40) & 0x80 == 0 ==> !p.step(m).0.lcd_on,
{
    reveal(PPUView::step);
}

/// What one step keeps and where it goes, gathered for the PPU's step.
proof fn lemma_step_facts(p: PPUView, m: MMUView)
    requires
        m.well_formed(),
    ensures
        p.scanline <= 153 ==> p.step(m).0.scanline <= 153,
        p.scanline_cycle < SCANLINE_CYCLES && p.scanline_cycle % 4 == 0 ==> p.step(m).0.scanline_cycle % 4 == 0,
        p.scanline_cycle < SCANLINE_CYCLES && p.scanline_cycle % 4 == 0
            && (!p.lcd_on ==> p.scanline == 0 && p.scanline_cycle == 0)
            ==> (!p.step(m).0.lcd_on ==> p.step(m).0.scanline == 0 && p.step(m).0.scanline_cycle == 0),
        m.read(0xFF40) & 0x80 == 0 ==> !p.step(m).0.lcd_on,
        m.read(0xFF40) & 0x80 != 0 && p.scanline <= 153 && p.scanline_cycle < SCANLINE_CYCLES
            ==> if p.scanline_cycle + 4 < SCANLINE_CYCLES {
            p.step(m).0.scanline == p.scanline && p.step(m).0.scanline_cycle == p.scanline_cycle + 4
        } else {
            p.step(m).0.scanline == (p.scanline + 1) % 154
                && p.step(m).0.scanline_cycle == p.scanline_cycle + 4 - SCANLINE_CYCLES
        },
        m.read(0xFF40) & 0x80 != 0 && p.scanline == 143 && p.scanline_cycle < SCANLINE_CYCLES
            && p.scanline_cycle + 4 >= SCANLINE_CYCLES ==> p.step(m).1.read(0xFF0F) & 0x01 == 0x01,
{
    if p.scanline <= 153 {
        lemma_scanline_bounded(p, m);
    }
    if p.scanline_cycle < SCANLINE_CYCLES && p.scanline_cycle % 4 == 0 {
        lemma_step_cycle_and_lcd_off(p, m);
    }
    lemma_lcd_off_step(p, m);
    if m.read(0xFF40) & 0x80 != 0 && p.scanline <= 153 && p.scanline_cycle < SCANLINE_CYCLES {
        lemma_step_lcd_on(p, m);
    }
    if m.read(0xFF40) & 0x80 != 0 && p.scanline == 143 && p.scanline_cycle < SCANLINE_CYCLES
        && p.scanline_cycle + 4 >= SCANLINE_CYCLES {
        lemma_vblank_request(p, m);
    }
}

proof fn lemma_lcd_off_step(p: PPUView, m: MMUView)
    ensures
        m.read(0xFF40) & 0x80 == 0 ==> !p.step(m).0.lcd_on,
{
    reveal(PPUView::step);
}

/// `n` steps of the PPU.
pub open spec fn ppu_steps(p: PPUView, m: MMUView, n: nat) -> (PPUView, MMUView)
    decreases n,
{
    if n == 0 {
        (p, m)
    } else {
        let (p1, m1) = ppu_steps(p, m, (n - 1) as nat);
        p1.step(m1)
    }
}

/// The PPU's writes (LY, STAT, IF and the video-RAM-changed flag) leave
/// LCDC and the size of the I/O area alone.
proof fn lemma_ppu_writes_keep_lcdc()
    ensures
        forall|m: MMUView, address: u16, value: u8|
            m.io.len() == 0x80 && 0xFF01 <= address <= 0xFF7F && address != 0xFF40 && address != 0xFF46
            ==> (#[trigger] m.write(address, value)).read(0xFF40) == m.read(0xFF40)
                && m.write(address, value).io.len() == 0x80,
        forall|m: MMUView| #[trigger] (MMUView { vram_changed: false, ..m }).read(0xFF40) == m.read(0xFF40),
{
    reveal(MMUView::write);
    reveal(MMUView::read);
}

/// One step with the LCD on: the line cycle advances by 4, and at the end
/// of the line the next line (after 153, line 0) starts; LCDC is kept.
pub proof fn lemma_step_lcd_on(p: PPUView, m: MMUView)
    requires
        m.io.len() == 0x80,
        m.read(0xFF40) & 0x80 != 0,
        p.scanline <= 153,
        p.scanline_cycle < SCANLINE_CYCLES,
    ensures
        ({
            let (p1, m1) = p.step(m);
            &&& m1.read(0xFF40) == m.read(0xFF40)
            &&& m1.io.len() == 0x80
            &&& if p.scanline_cycle + 4 < SCANLINE_CYCLES {
                p1.scanline == p.scanline && p1.scanline_cycle == p.scanline_cycle + 4
            } else {
                p1.scanline == (p.scanline + 1) % 154 && p1.scanline_cycle == p.scanline_cycle + 4 - SCANLINE_CYCLES
            }
        }),
{
    reveal(PPUView::step);
    lemma_ppu_writes_keep_lcdc();
}

/// With the LCD on throughout, 114 steps (456 clock cycles) advance exactly
/// one line, after line 153 to line 0, and end on the same line cycle.
pub proof fn lemma_line_takes_114_steps(p: PPUView, m: MMUView)
    requires
        m.io.len() == 0x80,
        m.read(0xFF40) & 0x80 != 0,
        p.scanline <= 153,
        p.scanline_cycle < SCANLINE_CYCLES,
        p.scanline_cycle % 4 == 0,
    ensures
        ppu_steps(p, m, 114).0.scanline == (p.scanline + 1) % 154,
        ppu_steps(p, m, 114).0.scanline_cycle == p.scanline_cycle,
{
    lemma_steps_progress(p, m, 114);
}

proof fn lemma_steps_progress(p: PPUView, m: MMUView, k: nat)
    requires
        m.io.len() == 0x80,
        m.read(0xFF40) & 0x80 != 0,
        p.scanline <= 153,
        p.scanline_cycle < SCANLINE_CYCLES,
        p.scanline_cycle % 4 == 0,
        k <= 114,
    ensures
        ({
            let (pk, mk) = ppu_steps(p, m, k);
            let total = p.scanline_cycle + 4 * k;
            &&& mk.read(0xFF40) == m.read(0xFF40)
            &&& mk.io.len() == 0x80
            &&& pk.scanline <= 153
            &&& if total < SCANLINE_CYCLES {
                pk.scanline == p.scanline && pk.scanline_cycle == total
            } else {
                pk.scanline == (p.scanline + 1) % 154 && pk.scanline_cycle == total - SCANLINE_CYCLES
            }
        }),
    decreases k,
{
    if k > 0 {
        lemma_steps_progress(p, m, (k - 1) as nat);
        let (pk, mk) = ppu_steps(p, m, (k - 1) as nat);
        lemma_step_lcd_on(pk, mk);
    }
}

/// The step that takes the PPU from line 143 to line 144 requests the
/// VBlank interrupt (bit 0 of IF).
pub proof fn lemma_vblank_request(p: PPUView, m: MMUView)
    requires
        m.io.len() == 0x80,
        m.read(0xFF40) & 0x80 != 0,
        p.scanline == 143,
        p.scanline_cycle < SCANLINE_CYCLES,
        p.scanline_cycle + 4 >= SCANLINE_CYCLES,
    ensures
        p.step(m).0.scanline == 144,
        p.step(m).1.read(0xFF0F) & 0x01 == 0x01,
{
    reveal(PPUView::step);
    reveal(MMUView::write);
    reveal(MMUView::read);
    assert(forall|x: u8| #![trigger x | 1u8] (x | 1u8) & 1u8 == 1u8 && ((x | 1u8) | 2u8) & 1u8 == 1u8) by (bit_vector);
    assert(0xFFu8 & 1u8 == 1u8) by (bit_vector);
}

} // verus!
