use vstd::prelude::*;

verus! {

/// The four flags kept in the upper nibble of register F.
#[derive(Copy, Clone, Debug, PartialEq, Eq)]
pub enum FLAGS {
    Z,
    N,
    H,
    C,
}

impl FLAGS {
    /// The bit mask of the flag inside register F.
    pub open spec fn spec_mask(self) -> u8 {
        match self {
            FLAGS::Z => 0x80,
            FLAGS::N => 0x40,
            FLAGS::H => 0x20,
            FLAGS::C => 0x10,
        }
    }

    /// The bit mask of the flag inside register F.
    #[verifier::when_used_as_spec(spec_mask)]
    pub fn mask(self) -> (r: u8)
        ensures
            r == self.spec_mask(),
    {
        match self {
            FLAGS::Z => 0x80,
            FLAGS::N => 0x40,
            FLAGS::H => 0x20,
            FLAGS::C => 0x10,
        }
    }
}

/// Mask of the zero flag in F.
pub const FLAG_Z: u8 = 0x80;

/// Mask of the subtract flag in F.
pub const FLAG_N: u8 = 0x40;

/// Mask of the half-carry flag in F.
pub const FLAG_H: u8 = 0x20;

/// Mask of the carry flag in F.
pub const FLAG_C: u8 = 0x10;

/// The contents of the register file, as plain values.
#[derive(Copy, Clone)]
pub struct RegFile {
    pub a: u8,
    pub b: u8,
    pub c: u8,
    pub d: u8,
    pub e: u8,
    pub f: u8,
    pub h: u8,
    pub l: u8,
    pub pc: u16,
    pub sp: u16,
}

/// The 16-bit value whose high byte is `hi` and whose low byte is `lo`.
pub open spec fn pair(hi: u8, lo: u8) -> u16 {
    (hi as nat * 256 + lo as nat) as u16
}

impl RegFile {
    pub open spec fn bc(self) -> u16 {
        pair(self.b, self.c)
    }

    pub open spec fn de(self) -> u16 {
        pair(self.d, self.e)
    }

    pub open spec fn hl(self) -> u16 {
        pair(self.h, self.l)
    }

    pub open spec fn af(self) -> u16 {
        pair(self.a, self.f)
    }

    /// The register file after the pair BC was set to `v`.
    pub open spec fn with_bc(self, v: u16) -> RegFile {
        RegFile { b: (v / 256) as u8, c: (v % 256) as u8, ..self }
    }

    pub open spec fn with_de(self, v: u16) -> RegFile {
        RegFile { d: (v / 256) as u8, e: (v % 256) as u8, ..self }
    }

    pub open spec fn with_hl(self, v: u16) -> RegFile {
        RegFile { h: (v / 256) as u8, l: (v % 256) as u8, ..self }
    }

    /// The register file after AF was set to `v`; the low nibble of F is dropped.
    pub open spec fn with_af(self, v: u16) -> RegFile {
        RegFile { a: (v / 256) as u8, f: ((v % 256) as u8 & 0xF0), ..self }
    }

    /// Whether the given flag is set in F.
    pub open spec fn flag(self, flag: FLAGS) -> bool {
        self.f & flag.spec_mask() != 0
    }
}

/// The CPU register file: A, F, B, C, D, E, H, L, the program counter and
/// the stack pointer. The low nibble of F always reads as zero.
pub struct REGISTERS {
    a: u8,
    b: u8,
    c: u8,
    d: u8,
    e: u8,
    f: u8,
    h: u8,
    l: u8,
    pc: u16,
    sp: u16,
}

impl View for REGISTERS {
    type V = RegFile;

    closed spec fn view(&self) -> RegFile {
        RegFile {
            a: self.a,
            b: self.b,
            c: self.c,
            d: self.d,
            e: self.e,
            f: self.f,
            h: self.h,
            l: self.l,
            pc: self.pc,
            sp: self.sp,
        }
    }
}

/// The register file right after the boot ROM hands over to the cartridge.
pub open spec fn boot_regs() -> RegFile {
    RegFile {
        a: 0x01,
        b: 0x00,
        c: 0x13,
        d: 0x00,
        e: 0xD8,
        f: 0xB0,
        h: 0x01,
        l: 0x4D,
        pc: 0x100,
        sp: 0xFFFE,
    }
}

impl REGISTERS {
    #[verifier::type_invariant]
    spec fn low_nibble_of_f_clear(self) -> bool {
        self.f & 0x0F == 0
    }

    pub fn new() -> (r: REGISTERS)
        ensures
            r@ == boot_regs(),
    {
        assert(0xB0u8 & 0x0F == 0) by (bit_vector);
        // the default values after the boot rom is loaded in
        REGISTERS {
            a: 0x01,
            b: 0x00,
            c: 0x13,
            d: 0x00,
            e: 0xD8,
            h: 0x01,
            l: 0x4D,
            f: 0xB0,
            pc: 0x100,
            sp: 0xFFFE,
        }
    }

    pub fn get_a(&self) -> (r: u8)
        ensures
            r == self@.a,
    {
        self.a
    }

    pub fn set_a(&mut self, value: u8)
        ensures
            final(self)@ == (RegFile { a: value, ..old(self)@ }),
    {
        proof { use_type_invariant(&*self); }
        self.a = value;
    }

    pub fn get_b(&self) -> (r: u8)
        ensures
            r == self@.b,
    {
        self.b
    }

    pub fn set_b(&mut self, value: u8)
        ensures
            final(self)@ == (RegFile { b: value, ..old(self)@ }),
    {
        proof { use_type_invariant(&*self); }
        self.b = value;
    }

    pub fn get_c(&self) -> (r: u8)
        ensures
            r == self@.c,
    {
        self.c
    }

    pub fn set_c(&mut self, value: u8)
        ensures
            final(self)@ == (RegFile { c: value, ..old(self)@ }),
    {
        proof { use_type_invariant(&*self); }
        self.c = value
    }

    pub fn get_d(&self) -> (r: u8)
        ensures
            r == self@.d,
    {
        self.d
    }

    pub fn set_d(&mut self, value: u8)
        ensures
            final(self)@ == (RegFile { d: value, ..old(self)@ }),
    {
        proof { use_type_invariant(&*self); }
        self.d = value;
    }

    pub fn get_e(&self) -> (r: u8)
        ensures
            r == self@.e,
    {
        self.e
    }

    pub fn set_e(&mut self, value: u8)
        ensures
            final(self)@ == (RegFile { e: value, ..old(self)@ }),
    {
        proof { use_type_invariant(&*self); }
        self.e = value;
    }

    /// Reads F; its low nibble is always zero.
    pub fn get_f(&self) -> (r: u8)
        ensures
            r == self@.f,
            r & 0x0F == 0,
    {
        proof { use_type_invariant(self); }
        self.f
    }

    /// Writes F; the low nibble of the value is dropped.
    pub fn set_f(&mut self, value: u8)
        ensures
            final(self)@ == (RegFile { f: value & 0xF0, ..old(self)@ }),
    {
        assert((value & 0xF0) & 0x0F == 0) by (bit_vector);
        self.f = value & 0xF0
    }

    pub fn get_h(&self) -> (r: u8)
        ensures
            r == self@.h,
    {
        self.h
    }

    pub fn set_h(&mut self, value: u8)
        ensures
            final(self)@ == (RegFile { h: value, ..old(self)@ }),
    {
        proof { use_type_invariant(&*self); }
        self.h = value
    }

    pub fn get_l(&self) -> (r: u8)
        ensures
            r == self@.l,
    {
        self.l
    }

    pub fn set_l(&mut self, value: u8)
        ensures
            final(self)@ == (RegFile { l: value, ..old(self)@ }),
    {
        proof { use_type_invariant(&*self); }
        self.l = value
    }

    /// The program counter.
    pub fn get_pc(&self) -> (r: u16)
        ensures
            r == self@.pc,
    {
        self.pc
    }

    pub fn set_pc(&mut self, value: u16)
        ensures
            final(self)@ == (RegFile { pc: value, ..old(self)@ }),
    {
        proof { use_type_invariant(&*self); }
        self.pc = value
    }

    /// The stack pointer.
    pub fn get_sp(&self) -> (r: u16)
        ensures
            r == self@.sp,
    {
        self.sp
    }

    pub fn set_sp(&mut self, value: u16)
        ensures
            final(self)@ == (RegFile { sp: value, ..old(self)@ }),
    {
        proof { use_type_invariant(&*self); }
        self.sp = value
    }

    /// B and C read as one 16-bit register, B being the high byte.
    pub fn get_bc(&self) -> (r: u16)
        ensures
            r == self@.bc(),
    {
        compute_16bit_reg(self.get_b(), self.get_c())
    }

    pub fn set_bc(&mut self, value: u16)
        ensures
            final(self)@ == old(self)@.with_bc(value),
    {
        proof { use_type_invariant(&*self); }
        let (hi, lo) = split_16bit(value);
        self.b = hi;
        self.c = lo;
    }

    pub fn get_de(&self) -> (r: u16)
        ensures
            r == self@.de(),
    {
        compute_16bit_reg(self.get_d(), self.get_e())
    }

    pub fn set_de(&mut self, value: u16)
        ensures
            final(self)@ == old(self)@.with_de(value),
    {
        proof { use_type_invariant(&*self); }
        let (hi, lo) = split_16bit(value);
        self.d = hi;
        self.e = lo;
    }

    pub fn get_hl(&self) -> (r: u16)
        ensures
            r == self@.hl(),
    {
        compute_16bit_reg(self.get_h(), self.get_l())
    }

    pub fn set_hl(&mut self, value: u16)
        ensures
            final(self)@ == old(self)@.with_hl(value),
    {
        proof { use_type_invariant(&*self); }
        let (hi, lo) = split_16bit(value);
        self.h = hi;
        self.l = lo;
    }

    pub fn get_af(&self) -> (r: u16)
        ensures
            r == self@.af(),
    {
        compute_16bit_reg(self.a, self.f)
    }

    /// Writes AF; the low nibble of F is dropped.
    pub fn set_af(&mut self, value: u16)
        ensures
            final(self)@ == old(self)@.with_af(value),
    {
        let (hi, lo) = split_16bit(value);
        assert((lo & 0xF0) & 0x0F == 0) by (bit_vector);
        self.f = lo & 0xF0;
        self.a = hi;
    }

    /// Returns the program counter and advances it by one, wrapping at 0xFFFF.
    pub fn get_and_inc_pc(&mut self) -> (r: u16)
        ensures
            r == old(self)@.pc,
            final(self)@ == (RegFile { pc: ((old(self)@.pc + 1) % 0x10000) as u16, ..old(self)@ }),
    {
        let ret_pc = self.get_pc();
        self.set_pc(ret_pc.wrapping_add(1));
        ret_pc
    }
}

/// Joins two bytes into a 16-bit value, `reg1` being the high byte.
fn compute_16bit_reg(reg1: u8, reg2: u8) -> (r: u16)
    ensures
        r == pair(reg1, reg2),
{
    let r = ((reg1 as u16) << 8) | (reg2 as u16);
    assert(((reg1 as u16) << 8) | (reg2 as u16) == reg1 as u16 * 256 + reg2 as u16) by (bit_vector);
    r
}

/// Splits a 16-bit value into its high and low byte.
fn split_16bit(value: u16) -> (r: (u8, u8))
    ensures
        r.0 == value / 256,
        r.1 == value % 256,
{
    assert((value >> 8) as u8 == value / 256 && value as u8 == value % 256) by (bit_vector);
    ((value >> 8) as u8, value as u8)
}

/// Writing a register pair and reading it back gives the value written.
pub proof fn lemma_pair_roundtrip(r: RegFile, v: u16)
    ensures
        r.with_bc(v).bc() == v,
        r.with_de(v).de() == v,
        r.with_hl(v).hl() == v,
        r.with_af(v).af() == v & 0xFFF0,
{
    assert(v & 0xFFF0 == (v / 256) * 256 + ((v % 256) as u8 & 0xF0)) by (bit_vector);
}

/// Writing the halves of a pair and reading the pair back joins them.
pub proof fn lemma_pair_of_halves(r: RegFile, hi: u8, lo: u8)
    ensures
        (RegFile { b: hi, c: lo, ..r }).bc() == pair(hi, lo),
        r.with_bc(pair(hi, lo)).b == hi,
        r.with_bc(pair(hi, lo)).c == lo,
{
}

} // verus!
