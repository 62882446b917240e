//! The ARM7TDMI register file: 31 physical general-purpose register slots
//! banked across the seven processor modes, plus the current program status
//! register (CPSR) and the per-mode saved program status registers (SPSR).

use vstd::prelude::*;

verus! {

/// The seven ARM processor modes, encoded in the low five bits of the CPSR.
#[derive(Clone, Copy, Debug, PartialEq, Eq, Structural)]
pub enum CpuMode {
    User,
    FIQ,
    IRQ,
    Supervisor,
    Abort,
    Undefined,
    System,
}

pub const MODE_BITS_USER: u32 = 0x10;
pub const MODE_BITS_FIQ: u32 = 0x11;
pub const MODE_BITS_IRQ: u32 = 0x12;
pub const MODE_BITS_SUPERVISOR: u32 = 0x13;
pub const MODE_BITS_ABORT: u32 = 0x17;
pub const MODE_BITS_UNDEFINED: u32 = 0x1B;
pub const MODE_BITS_SYSTEM: u32 = 0x1F;

pub open spec fn mode_bits_spec(mode: CpuMode) -> u32 {
    match mode {
        CpuMode::User => MODE_BITS_USER,
        CpuMode::FIQ => MODE_BITS_FIQ,
        CpuMode::IRQ => MODE_BITS_IRQ,
        CpuMode::Supervisor => MODE_BITS_SUPERVISOR,
        CpuMode::Abort => MODE_BITS_ABORT,
        CpuMode::Undefined => MODE_BITS_UNDEFINED,
        CpuMode::System => MODE_BITS_SYSTEM,
    }
}

/// The mode named by five CPSR mode bits, if they name one.
pub open spec fn mode_from_bits_spec(bits: u32) -> Option<CpuMode> {
    if bits == MODE_BITS_USER {
        Some(CpuMode::User)
    } else if bits == MODE_BITS_FIQ {
        Some(CpuMode::FIQ)
    } else if bits == MODE_BITS_IRQ {
        Some(CpuMode::IRQ)
    } else if bits == MODE_BITS_SUPERVISOR {
        Some(CpuMode::Supervisor)
    } else if bits == MODE_BITS_ABORT {
        Some(CpuMode::Abort)
    } else if bits == MODE_BITS_UNDEFINED {
        Some(CpuMode::Undefined)
    } else if bits == MODE_BITS_SYSTEM {
        Some(CpuMode::System)
    } else {
        None
    }
}

impl CpuMode {
    pub fn bits(self) -> (r: u32)
        ensures
            r == mode_bits_spec(self),
    {
        match self {
            CpuMode::User => MODE_BITS_USER,
            CpuMode::FIQ => MODE_BITS_FIQ,
            CpuMode::IRQ => MODE_BITS_IRQ,
            CpuMode::Supervisor => MODE_BITS_SUPERVISOR,
            CpuMode::Abort => MODE_BITS_ABORT,
            CpuMode::Undefined => MODE_BITS_UNDEFINED,
            CpuMode::System => MODE_BITS_SYSTEM,
        }
    }

    pub fn from_bits(bits: u32) -> (r: Option<CpuMode>)
        ensures
            r == mode_from_bits_spec(bits),
    {
        if bits == MODE_BITS_USER {
            Some(CpuMode::User)
        } else if bits == MODE_BITS_FIQ {
            Some(CpuMode::FIQ)
        } else if bits == MODE_BITS_IRQ {
            Some(CpuMode::IRQ)
        } else if bits == MODE_BITS_SUPERVISOR {
            Some(CpuMode::Supervisor)
        } else if bits == MODE_BITS_ABORT {
            Some(CpuMode::Abort)
        } else if bits == MODE_BITS_UNDEFINED {
            Some(CpuMode::Undefined)
        } else if bits == MODE_BITS_SYSTEM {
            Some(CpuMode::System)
        } else {
            None
        }
    }

    /// User and System share all banks and have no SPSR of their own.
    pub open spec fn has_spsr_spec(self) -> bool {
        self != CpuMode::User && self != CpuMode::System
    }

    pub fn has_spsr(self) -> (r: bool)
        ensures
            r == self.has_spsr_spec(),
    {
        !matches!(self, CpuMode::User | CpuMode::System)
    }
}

/// The decomposed contents of a program status register.
///
/// Bits 28-31 are the N/Z/C/V condition flags, bit 7 disables IRQs, bit 6
/// disables FIQs, bit 5 selects Thumb state, and bits 0-4 are the mode field.
/// Bits 8-27 have no architected meaning; they are kept in `reserved` so that
/// writing and reading the register back is lossless.
#[derive(Clone, Copy, Debug, PartialEq, Eq, Structural)]
pub struct Psr {
    pub n: bool,
    pub z: bool,
    pub c: bool,
    pub v: bool,
    pub irq_disable: bool,
    pub fiq_disable: bool,
    pub thumb: bool,
    pub mode: CpuMode,
    /// Bits 8-27 of the raw register value (already shifted into place).
    pub reserved: u32,
}

pub open spec fn psr_bits_spec(p: Psr) -> u32 {
    (if p.n { 0x8000_0000u32 } else { 0u32 })
    | (if p.z { 0x4000_0000u32 } else { 0u32 })
    | (if p.c { 0x2000_0000u32 } else { 0u32 })
    | (if p.v { 0x1000_0000u32 } else { 0u32 })
    | (p.reserved & 0x0FFF_FF00)
    | (if p.irq_disable { 0x80u32 } else { 0u32 })
    | (if p.fiq_disable { 0x40u32 } else { 0u32 })
    | (if p.thumb { 0x20u32 } else { 0u32 })
    | mode_bits_spec(p.mode)
}

/// Decomposes a raw PSR value. Mode bits that name no mode leave the mode
/// field at `fallback`, so a well-formed register file stays well formed on
/// every write.
pub open spec fn psr_decode_spec(value: u32, fallback: CpuMode) -> Psr {
    Psr {
        n: value & 0x8000_0000 != 0,
        z: value & 0x4000_0000 != 0,
        c: value & 0x2000_0000 != 0,
        v: value & 0x1000_0000 != 0,
        irq_disable: value & 0x80 != 0,
        fiq_disable: value & 0x40 != 0,
        thumb: value & 0x20 != 0,
        mode: match mode_from_bits_spec(value % 32) {
            Some(m) => m,
            None => fallback,
        },
        reserved: value & 0x0FFF_FF00,
    }
}

/// However the CPSR was written, its mode field holds one of the seven
/// processor modes: every reachable status register encodes one of the seven
/// architected mode values.
pub proof fn lemma_mode_field_valid(p: Psr)
    ensures
        mode_bits_spec(p.mode) == MODE_BITS_USER || mode_bits_spec(p.mode) == MODE_BITS_FIQ
            || mode_bits_spec(p.mode) == MODE_BITS_IRQ || mode_bits_spec(p.mode)
            == MODE_BITS_SUPERVISOR || mode_bits_spec(p.mode) == MODE_BITS_ABORT || mode_bits_spec(
            p.mode,
        ) == MODE_BITS_UNDEFINED || mode_bits_spec(p.mode) == MODE_BITS_SYSTEM,
{
}

/// Writing a PSR value with a valid mode field and reading it back yields the
/// original value.
pub proof fn lemma_psr_roundtrip(value: u32, fallback: CpuMode)
    requires
        mode_from_bits_spec(value % 32) is Some,
    ensures
        psr_bits_spec(psr_decode_spec(value, fallback)) == value,
{
    let p = psr_decode_spec(value, fallback);
    assert(mode_bits_spec(p.mode) == value % 32);
    assert((if value & 0x8000_0000 != 0 { 0x8000_0000u32 } else { 0u32 })
        | (if value & 0x4000_0000 != 0 { 0x4000_0000u32 } else { 0u32 })
        | (if value & 0x2000_0000 != 0 { 0x2000_0000u32 } else { 0u32 })
        | (if value & 0x1000_0000 != 0 { 0x1000_0000u32 } else { 0u32 })
        | ((value & 0x0FFF_FF00) & 0x0FFF_FF00)
        | (if value & 0x80 != 0 { 0x80u32 } else { 0u32 })
        | (if value & 0x40 != 0 { 0x40u32 } else { 0u32 })
        | (if value & 0x20 != 0 { 0x20u32 } else { 0u32 })
        | (value % 32) == value) by (bit_vector)
        requires
            value % 32 == 0x10 || value % 32 == 0x11 || value % 32 == 0x12
                || value % 32 == 0x13 || value % 32 == 0x17 || value % 32 == 0x1B
                || value % 32 == 0x1F,
    ;
}

impl Psr {
    pub fn to_bits(&self) -> (r: u32)
        ensures
            r == psr_bits_spec(*self),
    {
        (if self.n { 0x8000_0000u32 } else { 0u32 })
        | (if self.z { 0x4000_0000u32 } else { 0u32 })
        | (if self.c { 0x2000_0000u32 } else { 0u32 })
        | (if self.v { 0x1000_0000u32 } else { 0u32 })
        | (self.reserved & 0x0FFF_FF00)
        | (if self.irq_disable { 0x80u32 } else { 0u32 })
        | (if self.fiq_disable { 0x40u32 } else { 0u32 })
        | (if self.thumb { 0x20u32 } else { 0u32 })
        | self.mode.bits()
    }

    pub fn decode(value: u32, fallback: CpuMode) -> (r: Psr)
        ensures
            r == psr_decode_spec(value, fallback),
    {
        Psr {
            n: value & 0x8000_0000 != 0,
            z: value & 0x4000_0000 != 0,
            c: value & 0x2000_0000 != 0,
            v: value & 0x1000_0000 != 0,
            irq_disable: value & 0x80 != 0,
            fiq_disable: value & 0x40 != 0,
            thumb: value & 0x20 != 0,
            mode: match CpuMode::from_bits(value % 32) {
                Some(m) => m,
                None => fallback,
            },
            reserved: value & 0x0FFF_FF00,
        }
    }
}

/// The physical slot that holds logical register `r` in `mode`.
///
/// Slots 0-15 are the User/System bank (slot 15 is the program counter and is
/// never banked). FIQ banks R8-R14 in slots 16-22; IRQ, Supervisor, Abort and
/// Undefined each bank R13-R14 in slots 23-24, 25-26, 27-28 and 29-30.
pub open spec fn bank_index_spec(mode: CpuMode, r: int) -> int {
    if r < 8 {
        r
    } else if r < 13 {
        if mode == CpuMode::FIQ {
            r + 8
        } else {
            r
        }
    } else if r < 15 {
        match mode {
            CpuMode::User => r,
            CpuMode::System => r,
            CpuMode::FIQ => r + 8,
            CpuMode::IRQ => r + 10,
            CpuMode::Supervisor => r + 12,
            CpuMode::Abort => r + 14,
            CpuMode::Undefined => r + 16,
        }
    } else {
        15
    }
}

/// Every logical register of every mode lives in one of the 31 slots.
pub proof fn lemma_bank_index_bounds(mode: CpuMode, i: int)
    requires
        0 <= i < 16,
    ensures
        0 <= bank_index_spec(mode, i) < 31,
{
}

/// For one mode, distinct logical registers live in distinct physical slots.
pub proof fn lemma_bank_index_injective(mode: CpuMode, i: int, j: int)
    requires
        0 <= i < 16,
        0 <= j < 16,
        i != j,
    ensures
        bank_index_spec(mode, i) != bank_index_spec(mode, j),
{
}

/// The slot of the saved program status register of a banked mode.
pub open spec fn spsr_index_spec(mode: CpuMode) -> int {
    match mode {
        CpuMode::FIQ => 0,
        CpuMode::IRQ => 1,
        CpuMode::Supervisor => 2,
        CpuMode::Abort => 3,
        CpuMode::Undefined => 4,
        CpuMode::User => 0,
        CpuMode::System => 0,
    }
}

fn bank_index(mode: CpuMode, r: u32) -> (idx: usize)
    requires
        r < 16,
    ensures
        idx == bank_index_spec(mode, r as int),
        idx < 31,
{
    if r < 8 {
        r as usize
    } else if r < 13 {
        if matches!(mode, CpuMode::FIQ) {
            (r + 8) as usize
        } else {
            r as usize
        }
    } else if r < 15 {
        match mode {
            CpuMode::User => r as usize,
            CpuMode::System => r as usize,
            CpuMode::FIQ => (r + 8) as usize,
            CpuMode::IRQ => (r + 10) as usize,
            CpuMode::Supervisor => (r + 12) as usize,
            CpuMode::Abort => (r + 14) as usize,
            CpuMode::Undefined => (r + 16) as usize,
        }
    } else {
        15
    }
}

fn spsr_index(mode: CpuMode) -> (idx: usize)
    ensures
        idx == spsr_index_spec(mode),
        idx < 5,
{
    match mode {
        CpuMode::FIQ => 0,
        CpuMode::IRQ => 1,
        CpuMode::Supervisor => 2,
        CpuMode::Abort => 3,
        CpuMode::Undefined => 4,
        CpuMode::User => 0,
        CpuMode::System => 0,
    }
}

/// The ARM7TDMI register file.
pub struct ArmRegisters {
    /// The 31 physical general-purpose register slots, laid out as
    /// `bank_index_spec` describes.
    pub r: Vec<u32>,
    /// The current program status register.
    pub cpsr: Psr,
    /// The saved program status registers of FIQ, IRQ, Supervisor, Abort and
    /// Undefined mode, in that order, as raw register values.
    pub spsr: Vec<u32>,
}

impl ArmRegisters {
    pub open spec fn wf(&self) -> bool {
        self.r.len() == 31 && self.spsr.len() == 5
    }

    /// The value of logical register `r` as seen from `mode`.
    pub open spec fn reg_with_mode_spec(&self, mode: CpuMode, r: int) -> u32 {
        self.r@[bank_index_spec(mode, r)]
    }

    /// The value of logical register `r` in the current mode.
    pub open spec fn reg_spec(&self, r: int) -> u32 {
        self.reg_with_mode_spec(self.cpsr.mode, r)
    }

    pub open spec fn cpsr_spec(&self) -> Psr {
        self.cpsr
    }

    pub open spec fn mode_spec(&self) -> CpuMode {
        self.cpsr.mode
    }

    /// The raw saved program status register of `mode` (meaningful only for
    /// modes that have one).
    pub open spec fn spsr_with_mode_spec(&self, mode: CpuMode) -> u32 {
        self.spsr@[spsr_index_spec(mode)]
    }

    /// What a read of the SPSR returns in the current mode: User and System
    /// have no SPSR, so such a read falls back to the CPSR.
    pub open spec fn spsr_read_spec(&self) -> u32 {
        if self.cpsr.mode.has_spsr_spec() {
            self.spsr_with_mode_spec(self.cpsr.mode)
        } else {
            psr_bits_spec(self.cpsr)
        }
    }

    /// All physical general-purpose slots are unchanged.
    pub open spec fn same_gp(&self, other: &ArmRegisters) -> bool {
        self.r@ == other.r@
    }

    /// All saved program status registers are unchanged.
    pub open spec fn same_spsr(&self, other: &ArmRegisters) -> bool {
        self.spsr@ == other.spsr@
    }

    /// The CPSR is unchanged except possibly in the four condition flags.
    pub open spec fn same_cpsr_but_flags(&self, other: &ArmRegisters) -> bool {
        self.cpsr == Psr {
            n: self.cpsr.n,
            z: self.cpsr.z,
            c: self.cpsr.c,
            v: self.cpsr.v,
            ..other.cpsr
        }
    }

    pub fn new() -> (r: ArmRegisters)
        ensures
            r.wf(),
            forall|i: int| 0 <= i < 31 ==> r.r@[i] == 0u32,
            r.cpsr == (Psr {
                n: false,
                z: false,
                c: false,
                v: false,
                irq_disable: true,
                fiq_disable: true,
                thumb: false,
                mode: CpuMode::Supervisor,
                reserved: 0,
            }),
            forall|i: int| 0 <= i < 5 ==> r.spsr@[i] == 0u32,
    {
        let mut gp: Vec<u32> = Vec::new();
        let mut i: usize = 0;
        while i < 31
            invariant
                i <= 31,
                gp.len() == i,
                forall|j: int| 0 <= j < i ==> gp@[j] == 0u32,
            decreases 31 - i,
        {
            gp.push(0);
            i += 1;
        }
        let mut saved: Vec<u32> = Vec::new();
        let mut k: usize = 0;
        while k < 5
            invariant
                k <= 5,
                saved.len() == k,
                forall|j: int| 0 <= j < k ==> saved@[j] == 0u32,
            decreases 5 - k,
        {
            saved.push(0);
            k += 1;
        }
        ArmRegisters {
            r: gp,
            cpsr: Psr {
                n: false,
                z: false,
                c: false,
                v: false,
                irq_disable: true,
                fiq_disable: true,
                thumb: false,
                mode: CpuMode::Supervisor,
                reserved: 0,
            },
            spsr: saved,
        }
    }

    pub fn read(&self, r: u32) -> (value: u32)
        requires
            self.wf(),
            r < 16,
        ensures
            value == self.reg_spec(r as int),
    {
        let idx = bank_index(self.cpsr.mode, r);
        self.r[idx]
    }

    pub fn write(&mut self, r: u32, value: u32)
        requires
            old(self).wf(),
            r < 16,
        ensures
            final(self).wf(),
            final(self).r@ == old(self).r@.update(
                bank_index_spec(old(self).cpsr.mode, r as int),
                value,
            ),
            final(self).cpsr == old(self).cpsr,
            final(self).same_spsr(old(self)),
            final(self).reg_spec(r as int) == value,
    {
        let idx = bank_index(self.cpsr.mode, r);
        self.r.set(idx, value);
    }

    pub fn read_with_mode(&self, mode: CpuMode, r: u32) -> (value: u32)
        requires
            self.wf(),
            r < 16,
        ensures
            value == self.reg_with_mode_spec(mode, r as int),
    {
        let idx = bank_index(mode, r);
        self.r[idx]
    }

    pub fn write_with_mode(&mut self, mode: CpuMode, r: u32, value: u32)
        requires
            old(self).wf(),
            r < 16,
        ensures
            final(self).wf(),
            final(self).r@ == old(self).r@.update(bank_index_spec(mode, r as int), value),
            final(self).cpsr == old(self).cpsr,
            final(self).same_spsr(old(self)),
            final(self).reg_with_mode_spec(mode, r as int) == value,
    {
        let idx = bank_index(mode, r);
        self.r.set(idx, value);
    }

    pub fn read_cpsr(&self) -> (value: u32)
        ensures
            value == psr_bits_spec(self.cpsr),
    {
        self.cpsr.to_bits()
    }

    /// Writes the CPSR from a raw value. A mode field that names no mode
    /// leaves the current mode in place, so the mode field always holds one
    /// of the seven modes.
    pub fn write_cpsr(&mut self, value: u32)
        requires
            old(self).wf(),
        ensures
            final(self).wf(),
            final(self).cpsr == psr_decode_spec(value, old(self).cpsr.mode),
            final(self).same_gp(old(self)),
            final(self).same_spsr(old(self)),
    {
        let fallback = self.cpsr.mode;
        self.cpsr = Psr::decode(value, fallback);
    }

    pub fn read_spsr(&self) -> (value: u32)
        requires
            self.wf(),
        ensures
            value == self.spsr_read_spec(),
    {
        if self.cpsr.mode.has_spsr() {
            let idx = spsr_index(self.cpsr.mode);
            self.spsr[idx]
        } else {
            self.cpsr.to_bits()
        }
    }

    /// Writes the SPSR of the current mode; User and System have none, and
    /// the write is then dropped.
    pub fn write_spsr(&mut self, value: u32)
        requires
            old(self).wf(),
        ensures
            final(self).wf(),
            final(self).same_gp(old(self)),
            final(self).cpsr == old(self).cpsr,
            old(self).cpsr.mode.has_spsr_spec() ==> final(self).spsr@ == old(self).spsr@.update(
                spsr_index_spec(old(self).cpsr.mode),
                value,
            ),
            !old(self).cpsr.mode.has_spsr_spec() ==> final(self).same_spsr(old(self)),
    {
        if self.cpsr.mode.has_spsr() {
            let idx = spsr_index(self.cpsr.mode);
            self.spsr.set(idx, value);
        }
    }

    pub fn read_mode(&self) -> (mode: CpuMode)
        ensures
            mode == self.cpsr.mode,
    {
        self.cpsr.mode
    }

    pub fn getf_n(&self) -> (r: bool)
        ensures
            r == self.cpsr.n,
    {
        self.cpsr.n
    }

    pub fn getf_z(&self) -> (r: bool)
        ensures
            r == self.cpsr.z,
    {
        self.cpsr.z
    }

    pub fn getf_c(&self) -> (r: bool)
        ensures
            r == self.cpsr.c,
    {
        self.cpsr.c
    }

    pub fn getf_v(&self) -> (r: bool)
        ensures
            r == self.cpsr.v,
    {
        self.cpsr.v
    }

    pub fn getf_i(&self) -> (r: bool)
        ensures
            r == self.cpsr.irq_disable,
    {
        self.cpsr.irq_disable
    }

    pub fn getf_f(&self) -> (r: bool)
        ensures
            r == self.cpsr.fiq_disable,
    {
        self.cpsr.fiq_disable
    }

    pub fn getf_t(&self) -> (r: bool)
        ensures
            r == self.cpsr.thumb,
    {
        self.cpsr.thumb
    }

    /// Sets the four condition flags at once.
    pub fn put_flags(&mut self, n: bool, z: bool, c: bool, v: bool)
        requires
            old(self).wf(),
        ensures
            final(self).wf(),
            final(self).cpsr == (Psr { n, z, c, v, ..old(self).cpsr }),
            final(self).same_gp(old(self)),
            final(self).same_spsr(old(self)),
    {
        self.cpsr = Psr { n, z, c, v, ..self.cpsr };
    }

    pub fn putf_n(&mut self, b: bool)
        requires
            old(self).wf(),
        ensures
            final(self).wf(),
            final(self).cpsr == (Psr { n: b, ..old(self).cpsr }),
            final(self).same_gp(old(self)),
            final(self).same_spsr(old(self)),
    {
        self.cpsr = Psr { n: b, ..self.cpsr };
    }

    pub fn putf_z(&mut self, b: bool)
        requires
            old(self).wf(),
        ensures
            final(self).wf(),
            final(self).cpsr == (Psr { z: b, ..old(self).cpsr }),
            final(self).same_gp(old(self)),
            final(self).same_spsr(old(self)),
    {
        self.cpsr = Psr { z: b, ..self.cpsr };
    }

    pub fn putf_c(&mut self, b: bool)
        requires
            old(self).wf(),
        ensures
            final(self).wf(),
            final(self).cpsr == (Psr { c: b, ..old(self).cpsr }),
            final(self).same_gp(old(self)),
            final(self).same_spsr(old(self)),
    {
        self.cpsr = Psr { c: b, ..self.cpsr };
    }

    pub fn putf_v(&mut self, b: bool)
        requires
            old(self).wf(),
        ensures
            final(self).wf(),
            final(self).cpsr == (Psr { v: b, ..old(self).cpsr }),
            final(self).same_gp(old(self)),
            final(self).same_spsr(old(self)),
    {
        self.cpsr = Psr { v: b, ..self.cpsr };
    }

    pub fn setf_i(&mut self)
        requires
            old(self).wf(),
        ensures
            final(self).wf(),
            final(self).cpsr == (Psr { irq_disable: true, ..old(self).cpsr }),
            final(self).same_gp(old(self)),
            final(self).same_spsr(old(self)),
    {
        self.cpsr = Psr { irq_disable: true, ..self.cpsr };
    }

    pub fn clearf_i(&mut self)
        requires
            old(self).wf(),
        ensures
            final(self).wf(),
            final(self).cpsr == (Psr { irq_disable: false, ..old(self).cpsr }),
            final(self).same_gp(old(self)),
            final(self).same_spsr(old(self)),
    {
        self.cpsr = Psr { irq_disable: false, ..self.cpsr };
    }

    pub fn setf_f(&mut self)
        requires
            old(self).wf(),
        ensures
            final(self).wf(),
            final(self).cpsr == (Psr { fiq_disable: true, ..old(self).cpsr }),
            final(self).same_gp(old(self)),
            final(self).same_spsr(old(self)),
    {
        self.cpsr = Psr { fiq_disable: true, ..self.cpsr };
    }

    pub fn clearf_f(&mut self)
        requires
            old(self).wf(),
        ensures
            final(self).wf(),
            final(self).cpsr == (Psr { fiq_disable: false, ..old(self).cpsr }),
            final(self).same_gp(old(self)),
            final(self).same_spsr(old(self)),
    {
        self.cpsr = Psr { fiq_disable: false, ..self.cpsr };
    }

    pub fn setf_t(&mut self)
        requires
            old(self).wf(),
        ensures
            final(self).wf(),
            final(self).cpsr == (Psr { thumb: true, ..old(self).cpsr }),
            final(self).same_gp(old(self)),
            final(self).same_spsr(old(self)),
    {
        self.cpsr = Psr { thumb: true, ..self.cpsr };
    }

    pub fn clearf_t(&mut self)
        requires
            old(self).wf(),
        ensures
            final(self).wf(),
            final(self).cpsr == (Psr { thumb: false, ..old(self).cpsr }),
            final(self).same_gp(old(self)),
            final(self).same_spsr(old(self)),
    {
        self.cpsr = Psr { thumb: false, ..self.cpsr };
    }

    /// Switches the mode field alone; every other CPSR bit is kept.
    pub fn write_mode(&mut self, mode: CpuMode)
        requires
            old(self).wf(),
        ensures
            final(self).wf(),
            final(self).cpsr == (Psr { mode, ..old(self).cpsr }),
            final(self).same_gp(old(self)),
            final(self).same_spsr(old(self)),
    {
        self.cpsr = Psr { mode, ..self.cpsr };
    }
}

} // verus!
