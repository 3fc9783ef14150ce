//! The machine: a cartridge chosen from the ROM header, wired to the CPU,
//! picture and audio units, and the battery-backed save of cartridge RAM.
use vstd::prelude::*;
use crate::apu::{Audio, Channel};
use crate::cartridge::{Mapper, MapperView, MBC0, MBC0View, MBC1, MBC1View, MBC3, MBC3View};
use crate::cpu::{CPU, MachineView, cycles_ok};
use crate::cpu::spec::execute_spec;
use crate::cpu::registers::boot_regs;
use crate::cpu::timer::initial_timer;
use crate::input::{Joypad, Key, initial_joypad};
use crate::mmu::{MMU, MMUView, initial_mmu, lemma_write_well_formed};
use crate::ppu::{PPU, PPUView, initial_ppu};

verus! {

/// Offset of the cartridge type byte in the ROM header.
pub const CARTRIDGE_TYPE: usize = 0x0147;

/// Offset of the cartridge RAM size byte in the ROM header.
pub const RAM_SIZE: usize = 0x0149;

/// A ROM shorter than this has no complete header.
pub const MIN_ROM_LEN: usize = 0x0150;

/// Whether the header's RAM size code is one of the six known ones.
pub open spec fn supported_ram_code(code: u8) -> bool {
    code <= 5
}

/// Bytes of cartridge RAM for a RAM size code: none, 2, 8, 32, 128 or 64
/// KiB.
pub open spec fn eram_size(code: u8) -> nat {
    if code == 0 {
        0
    } else if code == 1 {
        2 * 1024
    } else if code == 2 {
        8 * 1024
    } else if code == 3 {
        32 * 1024
    } else if code == 4 {
        128 * 1024
    } else {
        64 * 1024
    }
}

/// MBC1, MBC1+RAM and MBC1+RAM+BATTERY.
pub open spec fn is_mbc1(kind: u8) -> bool {
    1 <= kind <= 3
}

/// MBC3+TIMER+BATTERY, MBC3+TIMER+RAM+BATTERY, MBC3, MBC3+RAM and
/// MBC3+RAM+BATTERY.
pub open spec fn is_mbc3(kind: u8) -> bool {
    0x0F <= kind <= 0x13
}

/// The cartridge types that can be emulated: ROM only, MBC1 and MBC3.
pub open spec fn supported_cartridge_type(kind: u8) -> bool {
    kind == 0 || is_mbc1(kind) || is_mbc3(kind)
}

/// Cartridge types whose RAM is kept by a battery.
pub open spec fn has_battery(kind: u8) -> bool {
    kind == 0x03 || kind == 0x0F || kind == 0x10 || kind == 0x13
}

/// Cartridge types with a real-time clock.
pub open spec fn has_rtc(kind: u8) -> bool {
    kind == 0x0F || kind == 0x10
}

/// The ROMs the machine can start: a full header, a known RAM size, a
/// supported cartridge type, and a size that can be addressed.
pub open spec fn rom_supported(rom: Seq<u8>) -> bool {
    &&& rom.len() >= 0x150
    &&& rom.len() + 0x8000 <= usize::MAX
    &&& supported_ram_code(rom[0x149])
    &&& supported_cartridge_type(rom[0x147])
}

/// The freshly plugged cartridge the header asks for, with zeroed RAM.
pub open spec fn cartridge_for(rom: Seq<u8>) -> MapperView {
    let kind = rom[0x147];
    let eram = Seq::new(eram_size(rom[0x149]), |i: int| 0u8);
    if kind == 0 {
        MapperView::RomOnly(MBC0View { rom })
    } else if is_mbc1(kind) {
        MapperView::Mbc1(MBC1View {
            rom,
            eram,
            ram_enabled: false,
            rom_bank_low: 1,
            rom_bank_high: 0,
            ram_bank: 0,
            banking_mode: 0,
        })
    } else {
        MapperView::Mbc3(MBC3View {
            rom,
            eram,
            ram_enabled: false,
            rom_bank: 1,
            ram_bank: 0,
            rtc_selected: false,
            rtc_reg: 0,
            rtc: Seq::new(5, |i: int| 0u8),
            rtc_latched: Seq::new(5, |i: int| 0u8),
            latch_flag: false,
        })
    }
}

/// The memory map after `n` bytes of `data` were written from 0xA000 on.
pub open spec fn load_bytes(m: MMUView, data: Seq<u8>, n: nat) -> MMUView
    decreases n,
{
    if n == 0 {
        m
    } else {
        load_bytes(m, data, (n - 1) as nat).write((0xA000 + n - 1) as u16, data[n - 1])
    }
}

/// How many bytes of a save fit into the cartridge RAM window
/// 0xA000-0xBFFF.
pub open spec fn save_len(data: Seq<u8>) -> nat {
    if data.len() < 0x2000 { data.len() } else { 0x2000 }
}

/// The save: the bytes read at 0xA000-0xBFFF.
pub open spec fn save_bytes(m: MMUView) -> Seq<u8> {
    Seq::new(0x2000, |i: int| m.read((0xA000 + i) as u16))
}

/// `load_bytes` keeps the memory map well formed.
proof fn lemma_load_well_formed(m: MMUView, data: Seq<u8>, n: nat)
    requires
        m.well_formed(),
    ensures
        load_bytes(m, data, n).well_formed(),
    decreases n,
{
    if n > 0 {
        lemma_load_well_formed(m, data, (n - 1) as nat);
        lemma_write_well_formed(load_bytes(m, data, (n - 1) as nat), (0xA000 + n - 1) as u16, data[n - 1]);
    }
}

/// Cartridge RAM that takes the whole 0xA000-0xBFFF window: enabled, not
/// showing a clock register, and the bank in use lying fully inside it.
pub open spec fn ram_window_open(c: MapperView) -> bool {
    match c {
        MapperView::RomOnly(_) => false,
        MapperView::Mbc1(x) => x.ram_enabled && x.ram_bank_in_use() * 0x2000 + 0x2000 <= x.eram.len(),
        MapperView::Mbc3(x) => x.ram_enabled && !x.rtc_selected && x.ram_bank * 0x2000 + 0x2000 <= x.eram.len(),
    }
}

/// A write into the open cartridge RAM window reads back, leaves the rest
/// of the window and the window itself as they were.
proof fn lemma_window_write(m: MMUView, a: u16, v: u8, b: u16)
    requires
        m.well_formed(),
        !m.oma_dma,
        ram_window_open(m.cartridge),
        0xA000 <= a <= 0xBFFF,
        0xA000 <= b <= 0xBFFF,
    ensures
        m.write(a, v).well_formed(),
        !m.write(a, v).oma_dma,
        ram_window_open(m.write(a, v).cartridge),
        m.write(a, v).read(a) == v,
        b != a ==> m.write(a, v).read(b) == m.read(b),
{
    reveal(MMUView::write);
    reveal(MMUView::read);
}

/// Loading a save into an open cartridge RAM window: every byte loaded
/// reads back from its address, 0xA000 on, and so comes back in the next
/// save, as long as no OAM DMA transfer runs.
pub proof fn lemma_load_then_read(m: MMUView, data: Seq<u8>, n: nat, i: int)
    requires
        m.well_formed(),
        !m.oma_dma,
        ram_window_open(m.cartridge),
        n <= data.len(),
        n <= 0x2000,
        0 <= i < n,
    ensures
        load_bytes(m, data, n).read((0xA000 + i) as u16) == data[i],
        save_bytes(load_bytes(m, data, n))[i] == data[i],
    decreases n,
{
    lemma_load_keeps_window(m, data, (n - 1) as nat);
    let prev = load_bytes(m, data, (n - 1) as nat);
    lemma_window_write(prev, (0xA000 + n - 1) as u16, data[n - 1], (0xA000 + i) as u16);
    if i < n - 1 {
        lemma_load_then_read(m, data, (n - 1) as nat, i);
    }
}

proof fn lemma_load_keeps_window(m: MMUView, data: Seq<u8>, n: nat)
    requires
        m.well_formed(),
        !m.oma_dma,
        ram_window_open(m.cartridge),
        n <= data.len(),
        n <= 0x2000,
    ensures
        load_bytes(m, data, n).well_formed(),
        !load_bytes(m, data, n).oma_dma,
        ram_window_open(load_bytes(m, data, n).cartridge),
    decreases n,
{
    if n > 0 {
        lemma_load_keeps_window(m, data, (n - 1) as nat);
        let prev = load_bytes(m, data, (n - 1) as nat);
        lemma_window_write(prev, (0xA000 + n - 1) as u16, data[n - 1], 0xA000);
    }
}

/// One step of the machine: an idle machine cycle while the CPU is halted
/// or an OAM DMA transfer runs, else the next instruction fetched and run.
pub open spec fn step_spec(s: MachineView) -> MachineView {
    if s.halted {
        s.nop()
    } else if !s.mmu.oma_dma {
        let (opcode, s1) = s.fetch();
        execute_spec(opcode, s1)
    } else {
        s.nop()
    }
}

/// The memory map after a key went down (`pressed`) or up: the joypad
/// follows, and a key going down requests the joypad interrupt (bit 4 of
/// IF).
pub open spec fn key_event_spec(m: MMUView, key: Key, pressed: bool) -> MMUView {
    let m1 = MMUView { joypad: m.joypad.set_key(key, pressed), ..m };
    if pressed {
        m1.write(0xFF0F, m1.read(0xFF0F) | 0x10)
    } else {
        m1
    }
}

/// The cartridge RAM made for the header's RAM size code is as large as the
/// code says: codes 3, 4 and 5 (32, 128 and 64 KiB) hold four whole 8 KiB
/// banks, code 2 (8 KiB) one, code 1 (2 KiB) the first 2 KiB of one. With
/// RAM enabled and bank k selected (an MBC1 in RAM banking mode), a byte
/// written at any such address reads back.
pub proof fn lemma_ram_size_holds_banks(rom: Seq<u8>, k: u8, a: u16, v: u8)
    requires
        rom_supported(rom),
        rom[0x147] != 0,
        0xA000 <= a <= 0xBFFF,
        (3 <= rom[0x149] <= 5 && k <= 3) || (rom[0x149] == 2 && k == 0) || (rom[0x149] == 1 && k == 0 && a < 0xA800),
    ensures
        ({
            let c = cartridge_for(rom);
            if is_mbc1(rom[0x147]) {
                c.write(0x0000, 0x0A).write(0x6000, 0x01).write(0x4000, k).write(a, v).read(a) == v
            } else {
                c.write(0x0000, 0x0A).write(0x4000, k).write(a, v).read(a) == v
            }
        }),
{
    assert(k <= 3 ==> (k & 0x03 == k && (k & 0x03) & 0x03 == k)) by (bit_vector);
    assert(0x0Au8 & 0x0F == 0x0A && 0x01u8 & 0x01 == 0x01) by (bit_vector);
}

/// The whole machine. The memory map, with the joypad, is owned by the CPU.
pub struct EMULATOR {
    pub cpu: CPU,
    pub ppu: PPU,
    pub apu: Audio,
    pub rtc_enabled: bool,
    pub battery: bool,
}

impl EMULATOR {
    /// The memory map can be used.
    pub open spec fn well_formed(&self) -> bool {
        self.cpu.ram@.well_formed()
    }

    /// Starts the machine on `rom`, with the cartridge its header asks for.
    pub fn new(rom: Vec<u8>) -> (r: Self)
        requires
            rom_supported(rom@),
        ensures
            r.well_formed(),
            r.cpu.state(&r.ppu).well_formed(),
            r.cpu.ram@ == initial_mmu(initial_joypad(), cartridge_for(rom@)).write(0xFF44, 0),
            r.cpu.registers@ == boot_regs(),
            r.cpu.ime && !r.cpu.ime_queued,
            r.cpu.cycles == 0,
            r.cpu.timer@ == initial_timer(),
            !r.cpu.halted && !r.cpu.stopped,
            r.ppu@ == initial_ppu(),
            !r.apu.audio_enabled,
            !r.apu.channel_1_enabled && !r.apu.channel_2_enabled,
            !r.apu.channel_3_enabled && !r.apu.channel_4_enabled,
            r.apu.channel_1 == Channel::silent() && r.apu.channel_2 == Channel::silent(),
            r.apu.channel_3 == Channel::silent() && r.apu.channel_4 == Channel::silent(),
            r.apu.counter == 0,
            r.battery == has_battery(rom@[0x147]),
            r.rtc_enabled == has_rtc(rom@[0x147]),
    {
        let ghost rom0 = rom@;
        // cartridge RAM size
        let eram: usize = match rom[RAM_SIZE] {
            0x00 => 0,
            0x01 => 2 * 1024,  // rare
            0x02 => 8 * 1024,  // common
            0x03 => 32 * 1024,  // common (Pokemon uses this)
            0x04 => 128 * 1024,  // rare
            _ => 64 * 1024,  // rare
        };
        let kind = rom[CARTRIDGE_TYPE];
        // MBC3+TIMER variants have a clock; some of each kind a battery
        let rtc_enabled = kind == 0x0F || kind == 0x10;
        let battery = kind == 0x03 || kind == 0x0F || kind == 0x10 || kind == 0x13;
        let cartridge = if kind == 0x00 {
            Mapper::RomOnly(MBC0::new(rom))
        } else if kind <= 0x03 {
            Mapper::Mbc1(MBC1::new(rom, eram))
        } else {
            Mapper::Mbc3(MBC3::new(rom, eram))
        };
        assert(cartridge@ == cartridge_for(rom0));
        let mut cpu = CPU::new(MMU::new(Joypad::new(), cartridge));
        let ppu = PPU::new(&mut cpu.ram);
        let apu = Audio::new();
        EMULATOR { cpu, ppu, apu, rtc_enabled, battery }
    }

    /// Runs the machine one step: the CPU idles while halted or while an OAM
    /// DMA transfer runs, else it fetches and executes an instruction.
    pub fn step(&mut self)
        requires
            old(self).cpu.state(&old(self).ppu).well_formed(),
            cycles_ok(old(self).cpu.cycles),
        ensures
            final(self).cpu.state(&final(self).ppu) == step_spec(old(self).cpu.state(&old(self).ppu)),
            final(self).cpu.state(&final(self).ppu).well_formed(),
            final(self).apu == old(self).apu,
            final(self).battery == old(self).battery,
            final(self).rtc_enabled == old(self).rtc_enabled,
    {
        if self.cpu.halted {
            self.cpu.nop(&mut self.ppu);
        } else if !self.cpu.ram.oma_dma {
            let opcode = self.cpu.fetch();
            self.cpu.execute(opcode, &mut self.ppu);
        } else {
            self.cpu.nop(&mut self.ppu);
        }
    }

    /// A key went down (`pressed`) or up: a key going down ends STOP and
    /// requests the joypad interrupt; the joypad follows the key.
    pub fn key_event(&mut self, key: Key, pressed: bool)
        requires
            old(self).well_formed(),
        ensures
            final(self).well_formed(),
            final(self).cpu.ram@ == key_event_spec(old(self).cpu.ram@, key, pressed),
            final(self).cpu.stopped == (old(self).cpu.stopped && !pressed),
            *final(self) == (EMULATOR {
                cpu: CPU { ram: final(self).cpu.ram, stopped: final(self).cpu.stopped, ..old(self).cpu },
                ..*old(self)
            }),
    {
        if pressed {
            if self.cpu.stopped {
                self.cpu.stopped = false;
            }
            self.cpu.ram.joypad.set_key(key, true);
            // the joypad interrupt
            let mut if_reg = self.cpu.ram.read(0xFF0F);
            if_reg |= 0x10;
            self.cpu.ram.write(0xFF0F, if_reg);
        } else {
            self.cpu.ram.joypad.set_key(key, false);
        }
    }

    /// Loads a save into cartridge RAM: the bytes of `file` from 0xA000 on,
    /// as many as fit below 0xC000. Fails when the cartridge keeps no
    /// battery-backed RAM, when the file could not be read (its error is
    /// handed on) or when it is empty.
    pub fn load_save(&mut self, file: Result<Vec<u8>, String>) -> (r: Result<(), String>)
        requires
            old(self).well_formed(),
        ensures
            final(self).well_formed(),
            if !old(self).battery {
                (r matches Err(e) && e@ == "Cartridge does not support battery saves"@)
            } else {
                match file {
                    Err(fe) => (r matches Err(e) && e@ == fe@),
                    Ok(d) => if d@.len() == 0 {
                        (r matches Err(e) && e@ == "Save file is empty"@)
                    } else {
                        r is Ok && final(self).cpu.ram@ == load_bytes(old(self).cpu.ram@, d@, save_len(d@))
                    },
                }
            },
            r is Err ==> final(self).cpu.ram@ == old(self).cpu.ram@,
            *final(self) == (EMULATOR { cpu: CPU { ram: final(self).cpu.ram, ..old(self).cpu }, ..*old(self) }),
    {
        if !self.battery {
            return Err("Cartridge does not support battery saves".to_owned());
        }
        let data = match file {
            Ok(d) => d,
            Err(e) => return Err(e),
        };
        if data.len() == 0 {
            return Err("Save file is empty".to_owned());
        }
        // into cartridge RAM, 0xA000-0xBFFF
        let ghost m0 = self.cpu.ram@;
        let ghost e0 = *self;
        let mut offset: usize = 0;
        while offset < data.len() && offset < 0x2000
            invariant
                offset <= data@.len(),
                offset <= 0x2000,
                m0.well_formed(),
                self.cpu.ram@ == load_bytes(m0, data@, offset as nat),
                self.cpu.ram@.well_formed(),
                *self == (EMULATOR { cpu: CPU { ram: self.cpu.ram, ..e0.cpu }, ..e0 }),
            decreases 0x2000 - offset,
        {
            self.cpu.ram.write(0xA000 + offset as u16, data[offset]);
            offset += 1;
            proof { lemma_load_well_formed(m0, data@, offset as nat); }
        }
        Ok(())
    }

    /// The save: the 8 KiB of cartridge RAM at 0xA000-0xBFFF. Fails when the
    /// cartridge keeps no battery-backed RAM.
    pub fn save_to_file(&self) -> (r: Result<Vec<u8>, String>)
        requires
            self.well_formed(),
        ensures
            if self.battery {
                (r matches Ok(v) && v@ == save_bytes(self.cpu.ram@))
            } else {
                (r matches Err(e) && e@ == "Cartridge does not support battery saves"@)
            },
    {
        if !self.battery {
            return Err("Cartridge does not support battery saves".to_owned());
        }
        let mut save_data: Vec<u8> = Vec::new();
        let mut addr: u32 = 0xA000;
        while addr < 0xC000
            invariant
                0xA000 <= addr <= 0xC000,
                self.well_formed(),
                save_data@ == Seq::new((addr - 0xA000) as nat, |i: int| self.cpu.ram@.read((0xA000 + i) as u16)),
            decreases 0xC000 - addr,
        {
            save_data.push(self.cpu.ram.read(addr as u16));
            addr += 1;
            assert(save_data@ =~= Seq::new((addr - 0xA000) as nat, |i: int| self.cpu.ram@.read((0xA000 + i) as u16)));
        }
        assert(save_data@ =~= save_bytes(self.cpu.ram@));
        Ok(save_data)
    }
}

} // verus!
