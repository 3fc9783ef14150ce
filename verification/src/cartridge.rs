//! Cartridges: plain ROM, and the MBC1 and MBC3 memory bank controllers.
use vstd::prelude::*;

verus! {

/// The byte at `i` of `bytes`, or 0xFF where `i` lies outside.
pub open spec fn byte_or_ff(bytes: Seq<u8>, i: int) -> u8 {
    if 0 <= i < bytes.len() {
        bytes[i]
    } else {
        0xFF
    }
}

/// The number of 16 KiB ROM banks that `len` bytes take, rounded up.
pub open spec fn bank_count(len: nat) -> nat {
    (len + 0x3FFF) / 0x4000
}

/// A ROM no larger than this can be addressed without overflow.
pub open spec fn rom_len_ok(len: nat) -> bool {
    len + 0x8000 <= usize::MAX
}

/// What a cartridge does with the addresses 0x0000-0x7FFF and 0xA000-0xBFFF
/// of the memory map.
pub trait Cartridge {
    /// The states in which the cartridge can be read and written.
    spec fn well_formed(&self) -> bool;

    /// Whether `address` can be read in the current state.
    spec fn can_read(&self, address: u16) -> bool;

    fn read(&self, address: u16) -> u8
        requires
            self.well_formed(),
            self.can_read(address),
    ;

    fn write(&mut self, address: u16, value: u8)
        requires
            old(self).well_formed(),
        ensures
            final(self).well_formed(),
    ;
}

// ---------------------------------------------------------------------------
// ROM only
// ---------------------------------------------------------------------------

/// A cartridge without a memory bank controller.
pub struct MBC0 {
    rom: Vec<u8>,
}

/// The state of a ROM-only cartridge.
pub struct MBC0View {
    pub rom: Seq<u8>,
}

impl MBC0View {
    pub open spec fn read(self, address: u16) -> u8 {
        byte_or_ff(self.rom, address as int)
    }
}

impl View for MBC0 {
    type V = MBC0View;

    closed spec fn view(&self) -> MBC0View {
        MBC0View { rom: self.rom@ }
    }
}

impl MBC0 {
    pub fn new(rom: Vec<u8>) -> (r: Self)
        ensures
            r@.rom == rom@,
    {
        Self { rom }
    }
}

impl Cartridge for MBC0 {
    open spec fn can_read(&self, address: u16) -> bool {
        true
    }

    open spec fn well_formed(&self) -> bool {
        true
    }

    /// Reads the ROM; addresses past its end read 0xFF.
    fn read(&self, address: u16) -> (r: u8)
        ensures
            r == self@.read(address),
    {
        let i = address as usize;
        if i < self.rom.len() {
            self.rom[i]
        } else {
            0xFF
        }
    }

    /// Writes are ignored.
    fn write(&mut self, _address: u16, _value: u8)
        ensures
            final(self)@ == old(self)@,
    {
    }
}

// ---------------------------------------------------------------------------
// MBC1
// ---------------------------------------------------------------------------

/// An MBC1 cartridge: ROM bank 0 at 0x0000-0x3FFF, a switchable ROM bank at
/// 0x4000-0x7FFF and up to four switchable RAM banks at 0xA000-0xBFFF.
pub struct MBC1 {
    rom: Vec<u8>,
    eram: Vec<u8>,
    ram_enabled: bool,
    rom_bank_low: u8,
    rom_bank_high: u8,
    ram_bank: u8,
    banking_mode: u8,
}

/// The state of an MBC1 cartridge.
pub struct MBC1View {
    pub rom: Seq<u8>,
    pub eram: Seq<u8>,
    pub ram_enabled: bool,
    pub rom_bank_low: u8,
    pub rom_bank_high: u8,
    pub ram_bank: u8,
    pub banking_mode: u8,
}

impl MBC1View {
    pub open spec fn well_formed(self) -> bool {
        rom_len_ok(self.rom.len()) && self.eram.len() + 0x8000 <= usize::MAX
    }

    /// The bank mapped at 0x4000-0x7FFF: the five low bits, with the two
    /// high bits in ROM banking mode; bank 0 reads as bank 1, and a bank past
    /// the end of the ROM is replaced by the last bank (but never bank 0).
    pub open spec fn active_rom_bank(self) -> nat {
        let lower = (self.rom_bank_low & 0x1F) as nat;
        let upper = (self.rom_bank_high & 0x03) as nat;
        let bank = if self.banking_mode == 0 { upper * 32 + lower } else { lower };
        let bank = if bank == 0 { 1 } else { bank };
        let max_banks = bank_count(self.rom.len());
        if bank >= max_banks {
            if max_banks >= 2 { (max_banks - 1) as nat } else { 1 }
        } else {
            bank
        }
    }

    pub open spec fn read_rom(self, address: u16) -> u8 {
        if address <= 0x3FFF {
            byte_or_ff(self.rom, address as int)
        } else if address <= 0x7FFF {
            byte_or_ff(self.rom, self.active_rom_bank() * 0x4000 + (address - 0x4000))
        } else {
            0xFF
        }
    }

    /// The RAM bank in use: the selected one in RAM banking mode, else bank 0.
    pub open spec fn ram_bank_in_use(self) -> nat {
        if self.banking_mode == 1 { (self.ram_bank & 0x03) as nat } else { 0 }
    }

    pub open spec fn ram_offset(self, address: u16) -> int {
        self.ram_bank_in_use() * 0x2000 + (address - 0xA000)
    }

    pub open spec fn read(self, address: u16) -> u8 {
        if address <= 0x7FFF {
            self.read_rom(address)
        } else if 0xA000 <= address <= 0xBFFF {
            if !self.ram_enabled || self.eram.len() == 0 {
                0xFF
            } else {
                byte_or_ff(self.eram, self.ram_offset(address))
            }
        } else {
            0xFF
        }
    }

    pub open spec fn write(self, address: u16, value: u8) -> MBC1View {
        if address <= 0x1FFF {
            MBC1View { ram_enabled: (value & 0x0F) == 0x0A, ..self }
        } else if address <= 0x3FFF {
            let low = value & 0x1F;
            MBC1View { rom_bank_low: if low == 0 { 1 } else { low }, ..self }
        } else if address <= 0x5FFF {
            if self.banking_mode == 0 {
                MBC1View { rom_bank_high: value & 0x03, ..self }
            } else {
                MBC1View { ram_bank: value & 0x03, ..self }
            }
        } else if address <= 0x7FFF {
            MBC1View { banking_mode: value & 0x01, ..self }
        } else if 0xA000 <= address <= 0xBFFF {
            let off = self.ram_offset(address);
            if self.ram_enabled && self.eram.len() != 0 && off < self.eram.len() {
                MBC1View { eram: self.eram.update(off, value), ..self }
            } else {
                self
            }
        } else {
            self
        }
    }
}

impl View for MBC1 {
    type V = MBC1View;

    closed spec fn view(&self) -> MBC1View {
        MBC1View {
            rom: self.rom@,
            eram: self.eram@,
            ram_enabled: self.ram_enabled,
            rom_bank_low: self.rom_bank_low,
            rom_bank_high: self.rom_bank_high,
            ram_bank: self.ram_bank,
            banking_mode: self.banking_mode,
        }
    }
}

impl MBC1 {
    /// A fresh MBC1 with `eram_size` bytes of zeroed cartridge RAM.
    pub fn new(rom: Vec<u8>, eram_size: usize) -> (r: Self)
        ensures
            r@ == (MBC1View {
                rom: rom@,
                eram: Seq::new(eram_size as nat, |i: int| 0u8),
                ram_enabled: false,
                rom_bank_low: 1,
                rom_bank_high: 0,
                ram_bank: 0,
                banking_mode: 0,
            }),
    {
        let eram = vec![0u8; eram_size];
        let r = Self {
            rom,
            eram,
            ram_enabled: false,
            rom_bank_low: 1,
            rom_bank_high: 0,
            ram_bank: 0,
            banking_mode: 0,
        };
        assert(r@.eram =~= Seq::new(eram_size as nat, |i: int| 0u8));
        r
    }

    pub fn active_rom_bank(&self) -> (r: usize)
        requires
            self@.well_formed(),
        ensures
            r == self@.active_rom_bank(),
    {
        let low_reg = self.rom_bank_low;
        let high_reg = self.rom_bank_high;
        assert(low_reg & 0x1F < 32 && high_reg & 0x03 < 4) by (bit_vector);
        let lower = (low_reg & 0x1F) as usize;
        let upper = (high_reg & 0x03) as usize;
        let mut bank = if self.banking_mode == 0 {
            assert(upper < 4 && lower < 32 ==> (upper << 5) | lower == upper * 32 + lower)
                by (bit_vector);
            (upper << 5) | lower
        } else {
            lower
        };
        if bank == 0 {
            bank = 1;
        }
        let max_banks = (self.rom.len() + 0x3FFF) / 0x4000;
        if bank >= max_banks {
            bank = if max_banks >= 2 { max_banks - 1 } else { 1 };
        }
        bank
    }

    pub fn read_rom(&self, address: u16) -> (r: u8)
        requires
            self@.well_formed(),
        ensures
            r == self@.read_rom(address),
    {
        if address <= 0x3FFF {
            read_or_ff(&self.rom, address as usize)
        } else if address <= 0x7FFF {
            let bank = self.active_rom_bank();
            let bank_base = bank * 0x4000;
            let off = bank_base + (address as usize - 0x4000);
            read_or_ff(&self.rom, off)
        } else {
            0xFF
        }
    }

    fn ram_offset(&self, address: u16) -> (r: usize)
        requires
            0xA000 <= address <= 0xBFFF,
        ensures
            r == self@.ram_offset(address),
    {
        let bank = if self.banking_mode == 1 { (self.ram_bank & 0x03) as usize } else { 0 };
        bank * 0x2000 + (address as usize - 0xA000)
    }
}

/// The byte at `i`, or 0xFF past the end.
fn read_or_ff(bytes: &Vec<u8>, i: usize) -> (r: u8)
    ensures
        r == byte_or_ff(bytes@, i as int),
{
    if i < bytes.len() {
        bytes[i]
    } else {
        0xFF
    }
}

impl Cartridge for MBC1 {
    open spec fn can_read(&self, address: u16) -> bool {
        true
    }

    open spec fn well_formed(&self) -> bool {
        self@.well_formed()
    }

    fn read(&self, address: u16) -> (r: u8)
        ensures
            r == self@.read(address),
    {
        if address <= 0x7FFF {
            self.read_rom(address)
        } else if 0xA000 <= address && address <= 0xBFFF {
            if !self.ram_enabled || self.eram.len() == 0 {
                0xFF
            } else {
                read_or_ff(&self.eram, self.ram_offset(address))
            }
        } else {
            0xFF
        }
    }

    fn write(&mut self, address: u16, value: u8)
        ensures
            final(self)@ == old(self)@.write(address, value),
    {
        if address <= 0x1FFF {
            self.ram_enabled = (value & 0x0F) == 0x0A;
        } else if address <= 0x3FFF {
            let mut low = value & 0x1F;
            if low == 0 {
                low = 1;
            }
            self.rom_bank_low = low;
        } else if address <= 0x5FFF {
            if self.banking_mode == 0 {
                self.rom_bank_high = value & 0x03;
            } else {
                self.ram_bank = value & 0x03;
            }
        } else if address <= 0x7FFF {
            // banking mode select: 0 is ROM mode and 1 is RAM mode
            self.banking_mode = value & 0x01;
        } else if 0xA000 <= address && address <= 0xBFFF {
            if self.ram_enabled && self.eram.len() != 0 {
                let offset = self.ram_offset(address);
                if offset < self.eram.len() {
                    self.eram.set(offset, value);
                }
            }
        }
    }
}

// ---------------------------------------------------------------------------
// MBC3
// ---------------------------------------------------------------------------

/// An MBC3 cartridge: like MBC1, with up to 128 ROM banks and a real time
/// clock whose five registers can be mapped at 0xA000-0xBFFF.
pub struct MBC3 {
    rom: Vec<u8>,
    eram: Vec<u8>,
    ram_enabled: bool,
    rom_bank: u8,
    ram_bank: u8,
    rtc_selected: bool,
    rtc_reg: u8,
    rtc: [u8; 5],
    rtc_latched: [u8; 5],
    latch_flag: bool,
}

/// The state of an MBC3 cartridge.
pub struct MBC3View {
    pub rom: Seq<u8>,
    pub eram: Seq<u8>,
    pub ram_enabled: bool,
    pub rom_bank: u8,
    pub ram_bank: u8,
    pub rtc_selected: bool,
    pub rtc_reg: u8,
    pub rtc: Seq<u8>,
    pub rtc_latched: Seq<u8>,
    pub latch_flag: bool,
}

impl MBC3View {
    /// A selected clock register is one of 0x08-0x0C.
    pub open spec fn well_formed(self) -> bool {
        &&& rom_len_ok(self.rom.len())
        &&& self.eram.len() + 0x8000 <= usize::MAX
        &&& self.rtc.len() == 5
        &&& self.rtc_latched.len() == 5
        &&& self.rtc_selected ==> 0x08 <= self.rtc_reg <= 0x0C
    }

    /// The switchable bank at 0x4000-0x7FFF can only be read from a ROM that
    /// holds at least one byte.
    pub open spec fn can_read(self, address: u16) -> bool {
        0x4000 <= address <= 0x7FFF ==> 0 < self.rom.len()
    }

    /// The bank mapped at 0x4000-0x7FFF: bank 0 reads as bank 1, and the
    /// bank is capped at the last bank of the ROM.
    pub open spec fn active_rom_bank(self) -> nat {
        let bank = if self.rom_bank == 0 { 1 } else { self.rom_bank as nat };
        let last = (bank_count(self.rom.len()) - 1) as nat;
        if bank <= last { bank } else { last }
    }

    pub open spec fn read_rom(self, address: u16) -> u8 {
        if address <= 0x3FFF {
            byte_or_ff(self.rom, address as int)
        } else if address <= 0x7FFF {
            byte_or_ff(self.rom, self.active_rom_bank() * 0x4000 + (address - 0x4000))
        } else {
            0xFF
        }
    }

    pub open spec fn ram_offset(self, address: u16) -> int {
        self.ram_bank as int * 0x2000 + (address - 0xA000)
    }

    /// With RAM enabled, the latched clock register when one is selected,
    /// else the selected RAM bank.
    pub open spec fn read_ram_or_rtc(self, address: u16) -> u8 {
        if !self.ram_enabled {
            0xFF
        } else if self.rtc_selected {
            self.rtc_latched[self.rtc_reg - 0x08]
        } else {
            byte_or_ff(self.eram, self.ram_offset(address))
        }
    }

    pub open spec fn write_ram_or_rtc(self, address: u16, value: u8) -> MBC3View {
        if !self.ram_enabled {
            self
        } else if self.rtc_selected {
            MBC3View { rtc: self.rtc.update(self.rtc_reg - 0x08, value), ..self }
        } else {
            let off = self.ram_offset(address);
            if off < self.eram.len() {
                MBC3View { eram: self.eram.update(off, value), ..self }
            } else {
                self
            }
        }
    }

    pub open spec fn read(self, address: u16) -> u8 {
        if address <= 0x7FFF {
            self.read_rom(address)
        } else if 0xA000 <= address <= 0xBFFF {
            self.read_ram_or_rtc(address)
        } else {
            0xFF
        }
    }

    pub open spec fn write(self, address: u16, value: u8) -> MBC3View {
        if address <= 0x1FFF {
            MBC3View { ram_enabled: (value & 0x0F) == 0x0A, ..self }
        } else if address <= 0x3FFF {
            let bank = value & 0x7F;
            MBC3View { rom_bank: if bank == 0 { 1 } else { bank }, ..self }
        } else if address <= 0x5FFF {
            if value <= 0x03 {
                MBC3View { ram_bank: value, rtc_selected: false, ..self }
            } else if 0x08 <= value <= 0x0C {
                MBC3View { rtc_selected: true, rtc_reg: value, ..self }
            } else {
                self
            }
        } else if address <= 0x7FFF {
            MBC3View {
                rtc_latched: if !self.latch_flag && value == 0x01 { self.rtc } else { self.rtc_latched },
                latch_flag: value == 0x01,
                ..self
            }
        } else if 0xA000 <= address <= 0xBFFF {
            self.write_ram_or_rtc(address, value)
        } else {
            self
        }
    }
}

impl View for MBC3 {
    type V = MBC3View;

    closed spec fn view(&self) -> MBC3View {
        MBC3View {
            rom: self.rom@,
            eram: self.eram@,
            ram_enabled: self.ram_enabled,
            rom_bank: self.rom_bank,
            ram_bank: self.ram_bank,
            rtc_selected: self.rtc_selected,
            rtc_reg: self.rtc_reg,
            rtc: self.rtc@,
            rtc_latched: self.rtc_latched@,
            latch_flag: self.latch_flag,
        }
    }
}

impl MBC3 {
    /// A fresh MBC3 with `eram_size` bytes of zeroed cartridge RAM and a
    /// cleared clock.
    pub fn new(rom: Vec<u8>, eram_size: usize) -> (r: Self)
        ensures
            r@ == (MBC3View {
                rom: rom@,
                eram: Seq::new(eram_size as nat, |i: int| 0u8),
                ram_enabled: false,
                rom_bank: 1,
                ram_bank: 0,
                rtc_selected: false,
                rtc_reg: 0,
                rtc: Seq::new(5, |i: int| 0u8),
                rtc_latched: Seq::new(5, |i: int| 0u8),
                latch_flag: false,
            }),
    {
        let eram = vec![0u8; eram_size];
        let r = Self {
            rom,
            eram,
            ram_enabled: false,
            rom_bank: 1,
            ram_bank: 0,
            rtc_selected: false,
            rtc_reg: 0,
            rtc: [0; 5],
            rtc_latched: [0; 5],
            latch_flag: false,
        };
        assert(r@.eram =~= Seq::new(eram_size as nat, |i: int| 0u8));
        assert(r@.rtc =~= Seq::new(5, |i: int| 0u8));
        assert(r@.rtc_latched =~= Seq::new(5, |i: int| 0u8));
        r
    }

    fn active_rom_bank(&self) -> (r: usize)
        requires
            self@.well_formed(),
            0 < self@.rom.len(),
        ensures
            r == self@.active_rom_bank(),
    {
        let mut bank = self.rom_bank as usize;
        if bank == 0 {
            bank = 1;
        }
        let max_banks = (self.rom.len() + 0x3FFF) / 0x4000;
        if bank <= max_banks - 1 {
            bank
        } else {
            max_banks - 1
        }
    }

    fn read_rom(&self, addr: u16) -> (r: u8)
        requires
            self@.well_formed(),
            self@.can_read(addr),
        ensures
            r == self@.read_rom(addr),
    {
        if addr <= 0x3FFF {
            read_or_ff(&self.rom, addr as usize)
        } else if addr <= 0x7FFF {
            let bank_base = self.active_rom_bank() * 0x4000;
            let offset = bank_base + (addr as usize - 0x4000);
            read_or_ff(&self.rom, offset)
        } else {
            0xFF
        }
    }

    fn read_ram_or_rtc(&self, addr: u16) -> (r: u8)
        requires
            self@.well_formed(),
            0xA000 <= addr <= 0xBFFF,
        ensures
            r == self@.read_ram_or_rtc(addr),
    {
        if !self.ram_enabled {
            return 0xFF;
        }
        if self.rtc_selected {
            self.rtc_latched[(self.rtc_reg - 0x08) as usize]
        } else {
            let bank_base = self.ram_bank as usize * 0x2000;
            let offset = bank_base + (addr as usize - 0xA000);
            read_or_ff(&self.eram, offset)
        }
    }

    fn write_ram_or_rtc(&mut self, addr: u16, value: u8)
        requires
            old(self)@.well_formed(),
            0xA000 <= addr <= 0xBFFF,
        ensures
            final(self)@ == old(self)@.write_ram_or_rtc(addr, value),
    {
        if !self.ram_enabled {
            return;
        }
        if self.rtc_selected {
            self.rtc[(self.rtc_reg - 0x08) as usize] = value;
        } else {
            let bank_base = self.ram_bank as usize * 0x2000;
            let offset = bank_base + (addr as usize - 0xA000);
            if offset < self.eram.len() {
                self.eram.set(offset, value);
            }
        }
    }
}

impl Cartridge for MBC3 {
    open spec fn can_read(&self, address: u16) -> bool {
        self@.can_read(address)
    }

    open spec fn well_formed(&self) -> bool {
        self@.well_formed()
    }

    fn read(&self, addr: u16) -> (r: u8)
        ensures
            r == self@.read(addr),
    {
        if addr <= 0x7FFF {
            self.read_rom(addr)
        } else if 0xA000 <= addr && addr <= 0xBFFF {
            self.read_ram_or_rtc(addr)
        } else {
            0xFF
        }
    }

    fn write(&mut self, addr: u16, value: u8)
        ensures
            final(self)@ == old(self)@.write(addr, value),
    {
        if addr <= 0x1FFF {
            self.ram_enabled = (value & 0x0F) == 0x0A;
        } else if addr <= 0x3FFF {
            let mut bank = value & 0x7F;
            if bank == 0 {
                bank = 1;
            }
            self.rom_bank = bank;
        } else if addr <= 0x5FFF {
            if value <= 0x03 {
                self.ram_bank = value;
                self.rtc_selected = false;
            } else if value >= 0x08 && value <= 0x0C {
                self.rtc_selected = true;
                self.rtc_reg = value;
            }
        } else if addr <= 0x7FFF {
            if !self.latch_flag && value == 0x01 {
                self.rtc_latched = self.rtc;
            }
            self.latch_flag = value == 0x01;
        } else if 0xA000 <= addr && addr <= 0xBFFF {
            self.write_ram_or_rtc(addr, value);
        }
    }
}

} // verus!

verus! {

/// The cartridge plugged into the memory map: one of the supported kinds.
pub enum Mapper {
    RomOnly(MBC0),
    Mbc1(MBC1),
    Mbc3(MBC3),
}

/// The state of the plugged-in cartridge.
pub enum MapperView {
    RomOnly(MBC0View),
    Mbc1(MBC1View),
    Mbc3(MBC3View),
}

impl MapperView {
    /// Whether `address` can be read: an MBC3 needs a ROM of at least one
    /// byte for its switchable bank.
    pub open spec fn can_read(self, address: u16) -> bool {
        match self {
            MapperView::Mbc3(m) => m.can_read(address),
            _ => true,
        }
    }

    /// Every address can be read.
    pub open spec fn readable(self) -> bool {
        match self {
            MapperView::Mbc3(m) => 0 < m.rom.len(),
            _ => true,
        }
    }

    pub open spec fn well_formed(self) -> bool {
        match self {
            MapperView::RomOnly(_) => true,
            MapperView::Mbc1(m) => m.well_formed(),
            MapperView::Mbc3(m) => m.well_formed(),
        }
    }

    pub open spec fn read(self, address: u16) -> u8 {
        match self {
            MapperView::RomOnly(m) => m.read(address),
            MapperView::Mbc1(m) => m.read(address),
            MapperView::Mbc3(m) => m.read(address),
        }
    }

    pub open spec fn write(self, address: u16, value: u8) -> MapperView {
        match self {
            MapperView::RomOnly(m) => MapperView::RomOnly(m),
            MapperView::Mbc1(m) => MapperView::Mbc1(m.write(address, value)),
            MapperView::Mbc3(m) => MapperView::Mbc3(m.write(address, value)),
        }
    }
}

impl View for Mapper {
    type V = MapperView;

    open spec fn view(&self) -> MapperView {
        match self {
            Mapper::RomOnly(m) => MapperView::RomOnly(m@),
            Mapper::Mbc1(m) => MapperView::Mbc1(m@),
            Mapper::Mbc3(m) => MapperView::Mbc3(m@),
        }
    }
}

impl Cartridge for Mapper {
    open spec fn can_read(&self, address: u16) -> bool {
        self@.can_read(address)
    }

    open spec fn well_formed(&self) -> bool {
        self@.well_formed()
    }

    fn read(&self, address: u16) -> (r: u8)
        ensures
            r == self@.read(address),
    {
        match self {
            Mapper::RomOnly(m) => m.read(address),
            Mapper::Mbc1(m) => m.read(address),
            Mapper::Mbc3(m) => m.read(address),
        }
    }

    fn write(&mut self, address: u16, value: u8)
        ensures
            final(self)@ == old(self)@.write(address, value),
    {
        match self {
            Mapper::RomOnly(m) => m.write(address, value),
            Mapper::Mbc1(m) => m.write(address, value),
            Mapper::Mbc3(m) => m.write(address, value),
        }
    }
}

/// The MBC1 bank at 0x4000-0x7FFF is never bank 0, and lies inside the ROM
/// whenever the ROM holds at least two banks.
pub proof fn lemma_mbc1_bank_in_range(m: MBC1View)
    ensures
        m.active_rom_bank() >= 1,
        bank_count(m.rom.len()) >= 2 ==> m.active_rom_bank() < bank_count(m.rom.len()),
{
}

/// The MBC3 bank at 0x4000-0x7FFF always lies inside a non-empty ROM.
pub proof fn lemma_mbc3_bank_in_range(m: MBC3View)
    requires
        m.well_formed(),
        0 < m.rom.len(),
    ensures
        m.active_rom_bank() < bank_count(m.rom.len()),
        bank_count(m.rom.len()) >= 2 ==> m.active_rom_bank() >= 1,
{
}

/// Cartridge RAM written while enabled reads back the value written, for
/// MBC1 and MBC3 alike, as long as the offset lies inside the RAM.
pub proof fn lemma_cartridge_ram_roundtrip(m: MapperView, address: u16, value: u8)
    requires
        0xA000 <= address <= 0xBFFF,
        match m {
            MapperView::RomOnly(_) => false,
            MapperView::Mbc1(c) => c.ram_enabled && 0 <= c.ram_offset(address) < c.eram.len(),
            MapperView::Mbc3(c) => c.ram_enabled && !c.rtc_selected && 0 <= c.ram_offset(address)
                < c.eram.len(),
        },
    ensures
        m.write(address, value).read(address) == value,
{
}

/// Writes to the ROM-only cartridge change nothing.
pub proof fn lemma_rom_only_ignores_writes(m: MBC0View, address: u16, value: u8)
    ensures
        MapperView::RomOnly(m).write(address, value) == MapperView::RomOnly(m),
{
}

/// Writing 0x01 to 0x6000-0x7FFF of an MBC3 after a write of any other
/// value there (or none since it started) latches the clock: the latched
/// registers then hold the running ones.
pub proof fn lemma_mbc3_latch(m: MBC3View, a: u16, b: u16, first: u8)
    requires
        0x6000 <= a <= 0x7FFF,
        0x6000 <= b <= 0x7FFF,
        first != 0x01,
    ensures
        m.write(a, first).write(b, 0x01).rtc_latched == m.rtc,
        !m.latch_flag ==> m.write(b, 0x01).rtc_latched == m.rtc,
{
}

/// The MBC3 ROM bank register stays in 1-0x7F and the RAM bank register
/// at most 3, whatever is written.
pub proof fn lemma_mbc3_banks_in_range(m: MBC3View, address: u16, value: u8)
    requires
        1 <= m.rom_bank <= 0x7F,
        m.ram_bank <= 3,
    ensures
        1 <= m.write(address, value).rom_bank <= 0x7F,
        m.write(address, value).ram_bank <= 3,
{
    assert(value & 0x7F <= 0x7F) by (bit_vector);
}

/// MBC3 RAM banks are separate 8 KiB blocks of the cartridge RAM: with RAM
/// on and no clock register selected, address `a` of bank k is byte
/// k * 0x2000 + (a - 0xA000) of the RAM, so a write there changes that byte
/// alone and leaves every other bank as it was.
pub proof fn lemma_mbc3_ram_banks(m: MBC3View, a: u16, v: u8)
    requires
        m.ram_enabled,
        !m.rtc_selected,
        m.ram_bank <= 3,
        0xA000 <= a <= 0xBFFF,
        m.eram.len() >= (m.ram_bank + 1) * 0x2000,
    ensures
        m.read(a) == m.eram[m.ram_bank * 0x2000 + (a - 0xA000)],
        m.write(a, v).eram.len() == m.eram.len(),
        m.write(a, v).eram[m.ram_bank * 0x2000 + (a - 0xA000)] == v,
        forall|i: int| 0 <= i < m.eram.len() && i != m.ram_bank * 0x2000 + (a - 0xA000)
            ==> #[trigger] m.write(a, v).eram[i] == m.eram[i],
{
}

/// A byte written in one MBC3 RAM bank does not show in another: after
/// writing in bank k and switching to bank j != k, a read gives what bank j
/// held before.
pub proof fn lemma_mbc3_banks_separate(m: MBC3View, k: u8, j: u8, a: u16, b: u16, v: u8)
    requires
        m.ram_enabled,
        k <= 3,
        j <= 3,
        j != k,
        0xA000 <= a <= 0xBFFF,
        0xA000 <= b <= 0xBFFF,
        m.eram.len() >= 0x8000,
    ensures
        m.write(0x4000, k).write(a, v).write(0x4000, j).read(b) == m.write(0x4000, j).read(b),
{
}

/// MBC1 RAM banks are separate 8 KiB blocks too: with RAM on, address `a`
/// is byte k * 0x2000 + (a - 0xA000) of the RAM, k being the two low bits of
/// the bank register in RAM banking mode and 0 in ROM banking mode; a write
/// there changes that byte alone.
pub proof fn lemma_mbc1_ram_banks(m: MBC1View, a: u16, v: u8)
    requires
        m.ram_enabled,
        0xA000 <= a <= 0xBFFF,
        m.eram.len() >= 0x8000,
    ensures
        ({
            let k: int = if m.banking_mode == 1 { (m.ram_bank & 0x03) as int } else { 0 };
            let i = k * 0x2000 + (a - 0xA000);
            &&& m.read(a) == m.eram[i]
            &&& m.write(a, v).eram[i] == v
            &&& forall|j: int| 0 <= j < m.eram.len() && j != i ==> #[trigger] m.write(a, v).eram[j] == m.eram[j]
        }),
{
    let bank = m.ram_bank;
    assert(bank & 0x03 <= 3) by (bit_vector);
}

} // verus!
