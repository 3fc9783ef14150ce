//! A flat memory map with a simple ROM bank register: the memory of the
//! standalone renderer (`gpu`) and timer (`timer`).
use vstd::prelude::*;

verus! {

/// The state of the flat memory map.
pub struct RAMView {
    pub rom: Seq<u8>,
    pub vram: Seq<u8>,
    pub wram: Seq<u8>,
    pub eram: Seq<u8>,
    pub rom_bank: usize,
    pub hram: Seq<u8>,
    pub oam: Seq<u8>,
    pub io: Seq<u8>,
    pub interrupt_enable: u8,
    pub serial_output: Seq<u8>,
}

impl RAMView {
    pub open spec fn well_formed(self) -> bool {
        &&& self.vram.len() == 0x2000
        &&& self.wram.len() == 0x2000
        &&& self.eram.len() == 0x8000
        &&& self.hram.len() == 0x7F
        &&& self.oam.len() == 0xA0
        &&& self.io.len() == 0x80
    }

    /// `address` can be read: the fixed ROM bank lies inside the ROM, and
    /// the switchable bank can be addressed.
    pub open spec fn can_read(self, address: u16) -> bool {
        &&& address <= 0x3FFF ==> address < self.rom.len()
        &&& 0x4000 <= address <= 0x7FFF ==> self.rom_bank * 0x4000 + 0x3FFF <= usize::MAX
    }

    /// The byte at `address`: fixed and switchable ROM bank (0xFF past the
    /// end of the ROM), video RAM, cartridge RAM, work RAM and its echo, OAM,
    /// I/O, high RAM and IE; unused addresses read 0.
    pub open spec fn read(self, address: u16) -> u8 {
        if address <= 0x3FFF {
            self.rom[address as int]
        } else if address <= 0x7FFF {
            let banked = self.rom_bank * 0x4000 + (address - 0x4000);
            if banked < self.rom.len() { self.rom[banked] } else { 0xFF }
        } else if address <= 0x9FFF {
            self.vram[address - 0x8000]
        } else if address <= 0xBFFF {
            self.eram[address - 0xA000]
        } else if address <= 0xDFFF {
            self.wram[address - 0xC000]
        } else if address <= 0xFDFF {
            self.wram[address - 0xE000]
        } else if address <= 0xFE9F {
            self.oam[address - 0xFE00]
        } else if 0xFF00 <= address <= 0xFF7F {
            self.io[address - 0xFF00]
        } else if 0xFF80 <= address <= 0xFFFE {
            self.hram[address - 0xFF80]
        } else if address == 0xFFFF {
            self.interrupt_enable
        } else {
            0x00
        }
    }

    /// The memory after writing `value` at `address`: 0x2000-0x3FFF selects
    /// the ROM bank (five bits), writing DIV clears it, ROM and the echo of
    /// work RAM ignore writes. A write of 0x81 to 0xFF02 sends the serial
    /// data byte out.
    pub open spec fn write(self, address: u16, value: u8) -> RAMView {
        let s = if address == 0xFF02 && value == 0x81 {
            RAMView { serial_output: self.serial_output.push(self.io[1]), ..self }
        } else {
            self
        };
        if 0x2000 <= address <= 0x3FFF {
            RAMView { rom_bank: (value & 0x1F) as usize, ..s }
        } else if 0xA000 <= address <= 0xBFFF {
            RAMView { eram: s.eram.update(address - 0xA000, value), ..s }
        } else if 0x8000 <= address <= 0x9FFF {
            RAMView { vram: s.vram.update(address - 0x8000, value), ..s }
        } else if 0xC000 <= address <= 0xDFFF {
            RAMView { wram: s.wram.update(address - 0xC000, value), ..s }
        } else if 0xFE00 <= address <= 0xFE9F {
            RAMView { oam: s.oam.update(address - 0xFE00, value), ..s }
        } else if address == 0xFF04 {
            RAMView { io: s.io.update(4, 0), ..s }
        } else if 0xFF00 <= address <= 0xFF7F {
            RAMView { io: s.io.update(address - 0xFF00, value), ..s }
        } else if 0xFF80 <= address <= 0xFFFE {
            RAMView { hram: s.hram.update(address - 0xFF80, value), ..s }
        } else if address == 0xFFFF {
            RAMView { interrupt_enable: value, ..s }
        } else {
            s
        }
    }
}

/// A flat memory map.
pub struct RAM {
    pub rom: Vec<u8>,
    pub vram: [u8; 0x2000],
    pub wram: [u8; 0x2000],
    pub eram: [u8; 0x8000],  // external cartridge RAM
    pub rom_bank: usize,  // active ROM bank
    pub hram: [u8; 0x7F],
    pub oam: [u8; 0xA0],
    pub io: [u8; 0x80],
    pub interrupt_enable: u8,
    /// Bytes sent out of the serial port, oldest first.
    pub serial_output: Vec<u8>,
}

impl View for RAM {
    type V = RAMView;

    open spec fn view(&self) -> RAMView {
        RAMView {
            rom: self.rom@,
            vram: self.vram@,
            wram: self.wram@,
            eram: self.eram@,
            rom_bank: self.rom_bank,
            hram: self.hram@,
            oam: self.oam@,
            io: self.io@,
            interrupt_enable: self.interrupt_enable,
            serial_output: self.serial_output@,
        }
    }
}

impl RAM {
    /// A zeroed memory map around the given ROM, with bank 1 selected.
    pub fn new(rom: Vec<u8>) -> (r: Self)
        ensures
            r@ == (RAMView {
                rom: rom@,
                vram: Seq::new(0x2000, |i: int| 0u8),
                wram: Seq::new(0x2000, |i: int| 0u8),
                eram: Seq::new(0x8000, |i: int| 0u8),
                rom_bank: 1,
                hram: Seq::new(0x7F, |i: int| 0u8),
                oam: Seq::new(0xA0, |i: int| 0u8),
                io: Seq::new(0x80, |i: int| 0u8),
                interrupt_enable: 0,
                serial_output: Seq::empty(),
            }),
    {
        let r = Self {
            rom,
            vram: [0; 0x2000],
            wram: [0; 0x2000],
            eram: [0; 0x8000],
            rom_bank: 1,
            hram: [0; 0x7F],
            oam: [0; 0xA0],
            io: [0; 0x80],
            interrupt_enable: 0,
            serial_output: Vec::new(),
        };
        assert(r@.vram =~= Seq::new(0x2000, |i: int| 0u8));
        assert(r@.wram =~= Seq::new(0x2000, |i: int| 0u8));
        assert(r@.eram =~= Seq::new(0x8000, |i: int| 0u8));
        assert(r@.hram =~= Seq::new(0x7F, |i: int| 0u8));
        assert(r@.oam =~= Seq::new(0xA0, |i: int| 0u8));
        assert(r@.io =~= Seq::new(0x80, |i: int| 0u8));
        r
    }

    pub fn read(&self, address: u16) -> (r: u8)
        requires
            self@.can_read(address),
        ensures
            r == self@.read(address),
    {
        if address <= 0x3FFF {
            self.rom[address as usize]
        } else if address <= 0x7FFF {
            let banked_addr = (self.rom_bank * 0x4000) + (address as usize - 0x4000);
            if banked_addr < self.rom.len() { self.rom[banked_addr] } else { 0xFF }
        } else if address <= 0x9FFF {
            self.vram[(address - 0x8000) as usize]
        } else if address <= 0xBFFF {
            self.eram[(address - 0xA000) as usize]
        } else if address <= 0xDFFF {
            self.wram[(address - 0xC000) as usize]
        } else if address <= 0xFDFF {
            self.wram[(address - 0xE000) as usize]
        } else if address <= 0xFE9F {
            self.oam[(address - 0xFE00) as usize]
        } else if 0xFF00 <= address && address <= 0xFF7F {
            self.io[(address - 0xFF00) as usize]
        } else if 0xFF80 <= address && address <= 0xFFFE {
            self.hram[(address - 0xFF80) as usize]
        } else if address == 0xFFFF {
            self.interrupt_enable
        } else {
            0x00
        }
    }

    pub fn write(&mut self, address: u16, value: u8)
        ensures
            final(self)@ == old(self)@.write(address, value),
    {
        // the output of blargg's test roms
        if address == 0xFF02 && value == 0x81 {
            self.handle_serial_output();
        }
        if 0x2000 <= address && address <= 0x3FFF {
            // ROM bank switching
            self.rom_bank = (value & 0x1F) as usize;
        } else if 0xA000 <= address && address <= 0xBFFF {
            // external cartridge RAM
            self.eram[(address - 0xA000) as usize] = value;
        } else if 0x8000 <= address && address <= 0x9FFF {
            self.vram[(address - 0x8000) as usize] = value;
        } else if 0xC000 <= address && address <= 0xDFFF {
            self.wram[(address - 0xC000) as usize] = value;
        } else if 0xFE00 <= address && address <= 0xFE9F {
            self.oam[(address - 0xFE00) as usize] = value;
        } else if address == 0xFF04 {
            self.io[4] = 0x00;
        } else if 0xFF00 <= address && address <= 0xFF7F {
            self.io[(address - 0xFF00) as usize] = value;
        } else if 0xFF80 <= address && address <= 0xFFFE {
            self.hram[(address - 0xFF80) as usize] = value;
        } else if address == 0xFFFF {
            self.interrupt_enable = value;
        }
    }

    fn handle_serial_output(&mut self)
        ensures
            final(self)@ == (RAMView { serial_output: old(self)@.serial_output.push(old(self)@.io[1]), ..old(self)@ }),
    {
        // the serial data register
        let data = self.io[0x01];
        self.serial_output.push(data);
    }

    pub fn update_div(&mut self, new: u8)
        ensures
            final(self)@ == (RAMView { io: old(self)@.io.update(4, new), ..old(self)@ }),
    {
        self.io[4] = new;
    }
}

/// A byte written to work RAM, high RAM or video RAM reads back unchanged.
pub proof fn lemma_ram_write_read(m: RAMView, address: u16, value: u8)
    requires
        m.well_formed(),
        (0x8000 <= address <= 0x9FFF) || (0xC000 <= address <= 0xDFFF) || (0xFF80 <= address <= 0xFFFE),
    ensures
        m.write(address, value).read(address) == value,
{
}

/// Work RAM shows again at 0xE000-0xFDFF.
pub proof fn lemma_ram_echo(m: RAMView, address: u16)
    requires
        0xE000 <= address <= 0xFDFF,
    ensures
        m.read(address) == m.read((address - 0x2000) as u16),
{
}

} // verus!
