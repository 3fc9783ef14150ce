//! The memory map: cartridge, video RAM, work RAM, object attribute memory,
//! I/O registers, high RAM and the interrupt enable register, plus the
//! OAM DMA engine.
use vstd::prelude::*;
use crate::cartridge::{Cartridge, Mapper, MapperView};
use crate::input::{Joypad, JoypadView};

verus! {

/// The state of the memory map, as plain values.
pub struct MMUView {
    pub cartridge: MapperView,
    pub vram: Seq<u8>,
    pub wram: Seq<u8>,
    pub rom_bank: usize,
    pub hram: Seq<u8>,
    pub oma: Seq<u8>,
    pub io: Seq<u8>,
    pub interrupt_enable: u8,
    pub div_written: bool,
    pub vram_changed: bool,
    pub vram_blocked: bool,
    pub oma_blocked: bool,
    pub oma_dma: bool,
    pub oma_cycles: u16,
    pub oma_source: u16,
    pub joypad: JoypadView,
    pub serial_output: Seq<u8>,
}

/// Whether `address` lies in high RAM, the one region the CPU can use
/// while an OAM DMA transfer runs.
pub open spec fn in_hram(address: u16) -> bool {
    0xFF80 <= address <= 0xFFFE
}

impl MMUView {
    /// The memory map can be used: the cartridge is well formed and can be
    /// read at every address, the region sizes are those of the hardware, and a DMA transfer has not run past
    /// the end of OAM.
    pub open spec fn well_formed(self) -> bool {
        &&& self.cartridge.well_formed()
        &&& self.cartridge.readable()
        &&& self.vram.len() == 0x2000
        &&& self.wram.len() == 0x2000
        &&& self.hram.len() == 0x7F
        &&& self.oma.len() == 0xA0
        &&& self.io.len() == 0x80
        &&& self.oma_cycles <= 160
        &&& self.oma_source <= 0xFF00
        &&& self.oma_dma ==> self.oma_cycles < 160
    }

    /// What the CPU reads at `address`. During an OAM DMA transfer only high
    /// RAM can be read; everything else reads 0xFF.
    #[verifier::opaque]
    pub open spec fn read(self, address: u16) -> u8 {
        if self.oma_dma && !in_hram(address) {
            0xFF
        } else if address <= 0x7FFF || (0xA000 <= address <= 0xBFFF) {
            self.cartridge.read(address)
        } else if address <= 0x9FFF {
            if self.vram_blocked { 0xFF } else { self.vram[address - 0x8000] }
        } else if 0xC000 <= address <= 0xDFFF {
            self.wram[address - 0xC000]
        } else if 0xE000 <= address <= 0xFDFF {
            self.wram[address - 0xE000]
        } else if 0xFE00 <= address <= 0xFE9F {
            if self.oma_dma || self.oma_blocked { 0xFF } else { self.oma[address - 0xFE00] }
        } else if address == 0xFF00 {
            self.joypad.read()
        } else if 0xFF01 <= address <= 0xFF7F {
            self.io[address - 0xFF00]
        } else if in_hram(address) {
            self.hram[address - 0xFF80]
        } else if address == 0xFFFF {
            self.interrupt_enable
        } else {
            0xFF
        }
    }

    /// The memory map after the CPU wrote `value` at `address`. During an
    /// OAM DMA transfer only writes to high RAM take effect. A write of
    /// 0x81 to 0xFF02 sends the serial data byte (0xFF01) out.
    #[verifier::opaque]
    pub open spec fn write(self, address: u16, value: u8) -> MMUView {
        if self.oma_dma && !in_hram(address) {
            self
        } else {
            let s = if address == 0xFF02 && value == 0x81 {
                MMUView { serial_output: self.serial_output.push(self.io[1]), ..self }
            } else {
                self
            };
            s.store(address, value)
        }
    }

    /// The effect of a CPU write on the regions, once DMA and serial output
    /// are accounted for.
    pub open spec fn store(self, address: u16, value: u8) -> MMUView {
        if address <= 0x7FFF || (0xA000 <= address <= 0xBFFF) {
            MMUView { cartridge: self.cartridge.write(address, value), ..self }
        } else if address <= 0x9FFF {
            if !self.vram_blocked {
                MMUView {
                    vram: self.vram.update(address - 0x8000, value),
                    vram_changed: true,
                    ..self
                }
            } else {
                self
            }
        } else if 0xC000 <= address <= 0xDFFF {
            MMUView { wram: self.wram.update(address - 0xC000, value), ..self }
        } else if 0xFE00 <= address <= 0xFE9F {
            if !self.oma_blocked {
                MMUView { oma: self.oma.update(address - 0xFE00, value), ..self }
            } else {
                self
            }
        } else {
            self.store_high(address, value)
        }
    }

    /// Writes to 0xFF00-0xFFFF: writing DIV resets it, writing 0xFF46
    /// starts an OAM DMA transfer from `value * 0x100`.
    pub open spec fn store_high(self, address: u16, value: u8) -> MMUView {
        if address == 0xFF04 {
            MMUView { io: self.io.update(4, 0), div_written: true, ..self }
        } else if address == 0xFF46 {
            self.start_dma(value)
        } else if address == 0xFF00 {
            MMUView { joypad: self.joypad.write(value), ..self }
        } else if 0xFF01 <= address <= 0xFF7F {
            MMUView { io: self.io.update(address - 0xFF00, value), ..self }
        } else if in_hram(address) {
            MMUView { hram: self.hram.update(address - 0xFF80, value), ..self }
        } else if address == 0xFFFF {
            MMUView { interrupt_enable: value, ..self }
        } else {
            self
        }
    }

    pub open spec fn start_dma(self, value: u8) -> MMUView {
        MMUView {
            io: self.io.update(0x46, value),
            oma_cycles: 0,
            oma_dma: true,
            oma_source: (value as u16 * 256) as u16,
            ..self
        }
    }

    /// What the DMA engine reads at `address`.
    pub open spec fn read_during_dma(self, address: u16) -> u8 {
        if address <= 0x7FFF || (0xA000 <= address <= 0xBFFF) {
            self.cartridge.read(address)
        } else if address <= 0x9FFF {
            if self.vram_blocked { 0xFF } else { self.vram[address - 0x8000] }
        } else if 0xC000 <= address <= 0xDFFF {
            self.wram[address - 0xC000]
        } else if 0xFE00 <= address <= 0xFE9F {
            self.oma[address - 0xFE00]
        } else if 0xFF00 <= address <= 0xFF7F {
            self.io[address - 0xFF00]
        } else if in_hram(address) {
            self.hram[address - 0xFF80]
        } else if address == 0xFFFF {
            self.interrupt_enable
        } else {
            0xFF
        }
    }

    /// The memory map after the DMA engine wrote `value` at `address`.
    pub open spec fn write_during_dma(self, address: u16, value: u8) -> MMUView {
        if 0xA000 <= address <= 0xBFFF {
            MMUView { cartridge: self.cartridge.write(address, value), ..self }
        } else if 0x8000 <= address <= 0x9FFF {
            if !self.vram_blocked {
                MMUView {
                    vram: self.vram.update(address - 0x8000, value),
                    vram_changed: true,
                    ..self
                }
            } else {
                self
            }
        } else if 0xC000 <= address <= 0xDFFF {
            MMUView { wram: self.wram.update(address - 0xC000, value), ..self }
        } else if 0xFE00 <= address <= 0xFE9F {
            MMUView { oma: self.oma.update(address - 0xFE00, value), ..self }
        } else if address == 0xFF04 {
            MMUView { io: self.io.update(4, 0), div_written: true, ..self }
        } else if address == 0xFF46 {
            self.start_dma(value)
        } else if 0xFF00 <= address <= 0xFF7F {
            MMUView { io: self.io.update(address - 0xFF00, value), ..self }
        } else if in_hram(address) {
            MMUView { hram: self.hram.update(address - 0xFF80, value), ..self }
        } else if address == 0xFFFF {
            MMUView { interrupt_enable: value, ..self }
        } else {
            self
        }
    }

    /// One step of an OAM DMA transfer: copy one byte from the source page
    /// to OAM; the transfer ends after 160 bytes.
    #[verifier::opaque]
    pub open spec fn dma_step(self) -> MMUView {
        let byte = self.read_during_dma((self.oma_source + self.oma_cycles) as u16);
        let s = self.write_during_dma((0xFE00 + self.oma_cycles) as u16, byte);
        let cycles = ((s.oma_cycles + 1) % 0x10000) as u16;
        MMUView { oma_cycles: cycles, oma_dma: if cycles == 160 { false } else { s.oma_dma }, ..s }
    }

    /// DIV (0xFF04) set by the timer.
    pub open spec fn set_div(self, new: u8) -> MMUView {
        MMUView { io: self.io.update(4, new), ..self }
    }
}

/// Writes keep the memory map well formed.
pub proof fn lemma_write_well_formed(m: MMUView, address: u16, value: u8)
    requires
        m.well_formed(),
    ensures
        m.write(address, value).well_formed(),
{
    reveal(MMUView::write);
}

/// Whether `address` lies in work RAM or high RAM.
pub open spec fn in_ram(address: u16) -> bool {
    (0xC000 <= address <= 0xDFFF) || in_hram(address)
}

/// `a` and `b` agree on work RAM, high RAM and whether an OAM DMA
/// transfer runs.
pub open spec fn same_ram(a: MMUView, b: MMUView) -> bool {
    a.wram == b.wram && a.hram == b.hram && a.oma_dma == b.oma_dma
}

/// Memory maps that agree on work RAM, high RAM and DMA read the same
/// there.
pub proof fn lemma_same_ram_read(a: MMUView, b: MMUView, address: u16)
    requires
        same_ram(a, b),
        in_ram(address),
    ensures
        a.read(address) == b.read(address),
{
    reveal(MMUView::read);
}

/// Writes to the I/O registers other than DMA (0xFF46) leave work RAM,
/// high RAM and DMA alone.
pub proof fn lemma_io_write_keeps_ram(m: MMUView, address: u16, value: u8)
    requires
        0xFF01 <= address <= 0xFF7F,
        address != 0xFF46,
    ensures
        same_ram(m, m.write(address, value)),
{
    reveal(MMUView::write);
}

/// Work RAM, its echo and high RAM are plain memory: a byte written there
/// reads back unchanged, unless an OAM DMA transfer blocks the write and
/// read (high RAM is never blocked).
pub proof fn lemma_ram_write_read(m: MMUView, address: u16, value: u8)
    requires
        m.wram.len() == 0x2000,
        m.hram.len() == 0x7F,
        (0xC000 <= address <= 0xDFFF && !m.oma_dma) || in_hram(address),
    ensures
        m.write(address, value).read(address) == value,
        m.write(address, value).wram.len() == 0x2000,
        m.write(address, value).hram.len() == 0x7F,
        m.write(address, value).oma_dma == m.oma_dma,
{
    reveal(MMUView::write);
    reveal(MMUView::read);
}

/// A write leaves every other byte of work RAM and high RAM as it was.
pub proof fn lemma_ram_write_other(m: MMUView, address: u16, value: u8, other: u16)
    requires
        m.wram.len() == 0x2000,
        m.hram.len() == 0x7F,
        (0xC000 <= other <= 0xDFFF) || in_hram(other),
        other != address,
        address != 0xFF46,
    ensures
        m.write(address, value).read(other) == m.read(other),
{
    reveal(MMUView::write);
    reveal(MMUView::read);
}

/// 0xE000-0xFDFF mirrors work RAM at 0xC000-0xDDFF.
pub proof fn lemma_echo_ram(m: MMUView, address: u16)
    requires
        0xE000 <= address <= 0xFDFF,
    ensures
        m.read(address) == m.read((address - 0x2000) as u16),
{
    reveal(MMUView::read);
}

/// While an OAM DMA transfer runs, the CPU reads 0xFF outside high RAM
/// and its writes there change nothing.
pub proof fn lemma_dma_blocks(m: MMUView, address: u16, value: u8)
    requires
        m.oma_dma,
        !in_hram(address),
    ensures
        m.read(address) == 0xFF,
        m.write(address, value) == m,
{
    reveal(MMUView::write);
    reveal(MMUView::read);
}

/// `n` steps of an OAM DMA transfer.
pub open spec fn dma_steps(m: MMUView, n: nat) -> MMUView
    decreases n,
{
    if n == 0 {
        m
    } else {
        dma_steps(m, (n - 1) as nat).dma_step()
    }
}

/// A transfer from a whole page (as writing 0xFF46 starts one), or from
/// any source outside OAM, copies the 160 bytes at the source into OAM, one
/// per step, touches nothing else, and stops after the last. A transfer
/// from OAM's own page leaves OAM as it was.
pub proof fn lemma_dma_copies(m: MMUView)
    requires
        m.well_formed(),
        m.oma_dma,
        m.oma_cycles == 0,
        m.oma_source % 256 == 0 || m.oma_source + 160 <= 0xFE00 || m.oma_source >= 0xFEA0,
    ensures
        !dma_steps(m, 160).oma_dma,
        dma_steps(m, 160) == (MMUView { oma: dma_steps(m, 160).oma, oma_cycles: 160, oma_dma: false, ..m }),
        forall|i: int| 0 <= i < 160 ==> #[trigger] dma_steps(m, 160).oma[i] == m.read_during_dma((m.oma_source + i) as u16),
{
    lemma_dma_progress(m, 160);
}

/// Progress of such a transfer: after `k` steps (at most 160) the transfer
/// has counted `k` bytes and still runs unless all 160 are done; the first
/// `k` bytes of OAM hold the source bytes, the others are untouched, and
/// nothing else changed.
pub proof fn lemma_dma_progress(m: MMUView, k: nat)
    requires
        m.well_formed(),
        m.oma_dma,
        m.oma_cycles == 0,
        m.oma_source % 256 == 0 || m.oma_source + 160 <= 0xFE00 || m.oma_source >= 0xFEA0,
        k <= 160,
    ensures
        dma_steps(m, k) == (MMUView { oma: dma_steps(m, k).oma, oma_cycles: k as u16, oma_dma: k < 160, ..m }),
        dma_steps(m, k).oma.len() == 0xA0,
        forall|i: int| 0 <= i < k ==> #[trigger] dma_steps(m, k).oma[i] == m.read_during_dma((m.oma_source + i) as u16),
        forall|i: int| k <= i < 0xA0 ==> #[trigger] dma_steps(m, k).oma[i] == m.oma[i],
    decreases k,
{
    reveal(MMUView::dma_step);
    if k > 0 {
        lemma_dma_progress(m, (k - 1) as nat);
        let prev = dma_steps(m, (k - 1) as nat);
        let src = (m.oma_source + (k - 1)) as u16;
        assert(prev.read_during_dma(src) == m.read_during_dma(src));
    }
}

/// Writing 0xFF46 starts a transfer from the page `value`, which then
/// copies one byte per step into OAM and stops after 160 steps.
pub proof fn lemma_dma_start(m: MMUView, value: u8)
    requires
        m.well_formed(),
        !m.oma_dma,
    ensures
        m.write(0xFF46, value).oma_dma,
        m.write(0xFF46, value).oma_cycles == 0,
        m.write(0xFF46, value).oma_source == value as u16 * 256,
{
    reveal(MMUView::write);
}

/// The memory map.
pub struct MMU {
    pub cartridge: Mapper,
    pub vram: [u8; 0x2000],
    pub wram: [u8; 0x2000],
    pub rom_bank: usize,  // Active ROM Bank
    pub hram: [u8; 0x7F],
    pub oma: [u8; 0xA0],
    pub io: [u8; 0x80],
    pub interrupt_enable: u8,
    // to reset the timer counter to zero if div is written to
    pub div_written: bool,
    // to check if the tiles should be recalculated
    pub vram_changed: bool,
    // to check if the ppu is active
    pub vram_blocked: bool,
    pub oma_blocked: bool,
    // to check if oma dma transfer
    pub oma_dma: bool,
    pub oma_cycles: u16,
    pub oma_source: u16,
    pub joypad: Joypad,
    /// Bytes sent out of the serial port, oldest first.
    pub serial_output: Vec<u8>,
}

impl View for MMU {
    type V = MMUView;

    open spec fn view(&self) -> MMUView {
        MMUView {
            cartridge: self.cartridge@,
            vram: self.vram@,
            wram: self.wram@,
            rom_bank: self.rom_bank,
            hram: self.hram@,
            oma: self.oma@,
            io: self.io@,
            interrupt_enable: self.interrupt_enable,
            div_written: self.div_written,
            vram_changed: self.vram_changed,
            vram_blocked: self.vram_blocked,
            oma_blocked: self.oma_blocked,
            oma_dma: self.oma_dma,
            oma_cycles: self.oma_cycles,
            oma_source: self.oma_source,
            joypad: self.joypad@,
            serial_output: self.serial_output@,
        }
    }
}

/// The memory map at power-on, around the given joypad and cartridge.
pub open spec fn initial_mmu(joypad: JoypadView, cartridge: MapperView) -> MMUView {
    MMUView {
        cartridge,
        vram: Seq::new(0x2000, |i: int| 0u8),
        wram: Seq::new(0x2000, |i: int| 0u8),
        rom_bank: 1,
        hram: Seq::new(0x7F, |i: int| 0u8),
        oma: Seq::new(0xA0, |i: int| 0u8),
        io: Seq::new(0x80, |i: int| 0u8),
        interrupt_enable: 0,
        div_written: false,
        vram_changed: false,
        vram_blocked: false,
        oma_blocked: false,
        oma_dma: false,
        oma_cycles: 0,
        oma_source: 0,
        joypad,
        serial_output: Seq::empty(),
    }
}

impl MMU {
    pub fn new(joypad: Joypad, cartridge: Mapper) -> (r: Self)
        ensures
            r@ == initial_mmu(joypad@, cartridge@),
    {
        let r = Self {
            cartridge,
            vram: [0; 0x2000],
            wram: [0; 0x2000],
            rom_bank: 1,
            hram: [0; 0x7F],
            oma: [0; 0xA0],
            io: [0; 0x80],
            interrupt_enable: 0,
            div_written: false,
            vram_changed: false,
            vram_blocked: false,
            oma_dma: false,
            oma_blocked: false,
            oma_cycles: 0,
            oma_source: 0,
            joypad,
            serial_output: Vec::new(),
        };
        assert(r@.vram =~= Seq::new(0x2000, |i: int| 0u8));
        assert(r@.wram =~= Seq::new(0x2000, |i: int| 0u8));
        assert(r@.hram =~= Seq::new(0x7F, |i: int| 0u8));
        assert(r@.oma =~= Seq::new(0xA0, |i: int| 0u8));
        assert(r@.io =~= Seq::new(0x80, |i: int| 0u8));
        r
    }

    /// Reads the memory map.
    pub fn read(&self, address: u16) -> (r: u8)
        requires
            self@.well_formed(),
        ensures
            r == self@.read(address),
    {
        proof { reveal(MMUView::read); }
        if self.oma_dma && !(0xFF80 <= address && address <= 0xFFFE) {
            return 0xFF;
        }
        if address <= 0x7FFF || (0xA000 <= address && address <= 0xBFFF) {
            // cartridge ROM and RAM are handled by the cartridge
            self.cartridge.read(address)
        } else if address <= 0x9FFF {
            if self.vram_blocked { 0xFF } else { self.vram[(address - 0x8000) as usize] }
        } else if 0xC000 <= address && address <= 0xDFFF {
            self.wram[(address - 0xC000) as usize]
        } else if 0xE000 <= address && address <= 0xFDFF {
            self.wram[(address - 0xE000) as usize]
        } else if 0xFE00 <= address && address <= 0xFE9F {
            if self.oma_dma || self.oma_blocked { 0xFF } else { self.oma[(address - 0xFE00) as usize] }
        } else if address == 0xFF00 {
            self.joypad.read()
        } else if 0xFF01 <= address && address <= 0xFF7F {
            self.io[(address - 0xFF00) as usize]
        } else if 0xFF80 <= address && address <= 0xFFFE {
            self.hram[(address - 0xFF80) as usize]
        } else if address == 0xFFFF {
            self.interrupt_enable
        } else {
            0xFF
        }
    }

    /// Writes the memory map.
    pub fn write(&mut self, address: u16, value: u8)
        requires
            old(self)@.well_formed(),
        ensures
            final(self)@ == old(self)@.write(address, value),
            final(self)@.well_formed(),
    {
        proof { reveal(MMUView::write); }
        if self.oma_dma && !(0xFF80 <= address && address <= 0xFFFE) {
            return;
        }
        if address == 0xFF02 && value == 0x81 {
            self.handle_serial_output();
        }
        if address <= 0x7FFF || (0xA000 <= address && address <= 0xBFFF) {
            // cartridge ROM/RAM writes go to the cartridge (bank switching)
            self.cartridge.write(address, value);
        } else if address <= 0x9FFF {
            if !self.vram_blocked {
                self.vram[(address - 0x8000) as usize] = value;
                self.vram_changed = true;
            }
        } else if 0xC000 <= address && address <= 0xDFFF {
            self.wram[(address - 0xC000) as usize] = value;
        } else if 0xFE00 <= address && address <= 0xFE9F {
            if !self.oma_blocked {
                self.oma[(address - 0xFE00) as usize] = value;
            }
        } else {
            self.store_high(address, value);
        }
    }

    fn store_high(&mut self, address: u16, value: u8)
        requires
            old(self)@.well_formed(),
            address >= 0xE000,
        ensures
            final(self)@ == old(self)@.store_high(address, value),
    {
        if address == 0xFF04 {
            self.io[4] = 0x00;
            self.div_written = true;
        } else if address == 0xFF46 {
            self.start_dma(value);
        } else if address == 0xFF00 {
            self.joypad.write(value);
        } else if 0xFF01 <= address && address <= 0xFF7F {
            self.io[(address - 0xFF00) as usize] = value;
        } else if 0xFF80 <= address && address <= 0xFFFE {
            self.hram[(address - 0xFF80) as usize] = value;
        } else if address == 0xFFFF {
            self.interrupt_enable = value;
        }
    }

    fn start_dma(&mut self, value: u8)
        requires
            old(self)@.well_formed(),
        ensures
            final(self)@ == old(self)@.start_dma(value),
    {
        self.io[0x46] = value;
        self.oma_cycles = 0;
        self.oma_dma = true;
        assert((value as u16) << 8 == value as u16 * 256) by (bit_vector);
        self.oma_source = (value as u16) << 8;
    }

    // special functions for the dma to be processed
    fn read_during_dma(&self, address: u16) -> (r: u8)
        requires
            self@.well_formed(),
        ensures
            r == self@.read_during_dma(address),
    {
        if address <= 0x7FFF || (0xA000 <= address && address <= 0xBFFF) {
            self.cartridge.read(address)
        } else if address <= 0x9FFF {
            if self.vram_blocked { 0xFF } else { self.vram[(address - 0x8000) as usize] }
        } else if 0xC000 <= address && address <= 0xDFFF {
            self.wram[(address - 0xC000) as usize]
        } else if 0xFE00 <= address && address <= 0xFE9F {
            self.oma[(address - 0xFE00) as usize]
        } else if 0xFF00 <= address && address <= 0xFF7F {
            self.io[(address - 0xFF00) as usize]
        } else if 0xFF80 <= address && address <= 0xFFFE {
            self.hram[(address - 0xFF80) as usize]
        } else if address == 0xFFFF {
            self.interrupt_enable
        } else {
            0xFF
        }
    }

    /// Writes made by the DMA engine: OAM is written even while blocked.
    pub fn write_during_dma(&mut self, address: u16, value: u8)
        requires
            old(self)@.well_formed(),
        ensures
            final(self)@ == old(self)@.write_during_dma(address, value),
            final(self)@.cartridge.well_formed(),
    {
        if 0xA000 <= address && address <= 0xBFFF {
            self.cartridge.write(address, value);
        } else if 0x8000 <= address && address <= 0x9FFF {
            // when the ppu is active the vram is blocked
            if !self.vram_blocked {
                self.vram[(address - 0x8000) as usize] = value;
                // so the tiles can be recalculated
                self.vram_changed = true;
            }
        } else if 0xC000 <= address && address <= 0xDFFF {
            self.wram[(address - 0xC000) as usize] = value;
        } else if 0xFE00 <= address && address <= 0xFE9F {
            self.oma[(address - 0xFE00) as usize] = value;
        } else if address == 0xFF04 {
            self.io[4] = 0x00;
            self.div_written = true;
        } else if address == 0xFF46 {
            self.start_dma(value);
        } else if 0xFF00 <= address && address <= 0xFF7F {
            self.io[(address - 0xFF00) as usize] = value;
        } else if 0xFF80 <= address && address <= 0xFFFE {
            self.hram[(address - 0xFF80) as usize] = value;
        } else if address == 0xFFFF {
            self.interrupt_enable = value;
        }
    }

    /// Copies the next byte of an OAM DMA transfer.
    pub fn oam_dma_transfer(&mut self)
        requires
            old(self)@.well_formed(),
        ensures
            final(self)@ == old(self)@.dma_step(),
            old(self)@.oma_dma ==> final(self)@.well_formed(),
    {
        proof { reveal(MMUView::dma_step); }
        let byte = self.read_during_dma(self.oma_source + self.oma_cycles);
        self.write_during_dma(0xFE00 + self.oma_cycles, byte);
        self.oma_cycles = self.oma_cycles.wrapping_add(1);
        if self.oma_cycles == 160 {
            self.oma_dma = false;
        }
    }

    // mainly used for blargg's test roms
    fn handle_serial_output(&mut self)
        requires
            old(self)@.well_formed(),
        ensures
            final(self)@ == (MMUView { serial_output: old(self)@.serial_output.push(old(self)@.io[1]), ..old(self)@ }),
    {
        // the serial data register
        let data = self.io[0x01];
        self.serial_output.push(data);
    }

    /// Sets DIV; used by the timer, which owns the divider.
    pub fn update_div(&mut self, new: u8)
        requires
            old(self)@.well_formed(),
        ensures
            final(self)@ == old(self)@.set_div(new),
    {
        self.io[4] = new;
    }
}

} // verus!
