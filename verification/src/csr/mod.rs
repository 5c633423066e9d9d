//! The machine-mode control and status registers, with the cycle and
//! retired-instruction counters.

use crate::utils::{LatchState, LatchValue};
use vstd::prelude::*;

verus! {

pub const CSR_OPERATION_RW: u8 = 0b001;

pub const CSR_OPERATION_RS: u8 = 0b010;

pub const CSR_OPERATION_RC: u8 = 0b011;

pub const CSR_OPERATION_RWI: u8 = 0b101;

pub const CSR_OPERATION_RSI: u8 = 0b110;

pub const CSR_OPERATION_RCI: u8 = 0b111;

pub const CSR_CYCLE: u32 = 0xC00;

pub const CSR_TIME: u32 = 0xC01;

pub const CSR_INSTRET: u32 = 0xC02;

pub const CSR_CYCLEH: u32 = 0xC80;

pub const CSR_TIMEH: u32 = 0xC81;

pub const CSR_INSTRETH: u32 = 0xC82;

pub const CSRM_MODE_MISA: u32 = 0x301;

pub const CSRM_MODE_MVENDORID: u32 = 0xF11;

pub const CSRM_MODE_MARCHID: u32 = 0xF12;

pub const CSRM_MODE_MIMPID: u32 = 0xF13;

pub const CSRM_MODE_MHARTID: u32 = 0xF14;

pub const CSRM_MODE_MSTATUS: u32 = 0x300;

pub const CSRM_MODE_MTVEC: u32 = 0x305;

pub const CSRM_MODE_MIE: u32 = 0x304;

pub const CSRM_MODE_MIP: u32 = 0x344;

pub const CSRM_MODE_MCAUSE: u32 = 0x342;

pub const CSRM_MODE_MEPC: u32 = 0x341;

pub const CSRM_MODE_MSCRATCH: u32 = 0x340;

pub const CSRM_MODE_MTVAL: u32 = 0x343;

/// The bits of `mstatus` that can be written: MIE (bit 3) and MPIE (bit 7).
pub const MSTATUS_MASK: u32 = 0x88;

/// What `misa` reads as: a 32-bit machine with the base integer set.
pub const MISA_RV32I: u32 = 0x4000_0100;

/// The trap vector base a fresh register file holds.
pub const MTVEC_RESET: u32 = 0x1000_0004;

/// The interrupt enables a fresh register file holds.
pub const MIE_RESET: u32 = 0x0000_0888;

/// The lower 32 bits of a 64-bit counter.
pub open spec fn low_half(counter: u64) -> u32 {
    (counter % 0x1_0000_0000) as u32
}

/// The upper 32 bits of a 64-bit counter.
pub open spec fn high_half(counter: u64) -> u32 {
    (counter / 0x1_0000_0000) as u32
}

/// A 64-bit counter one step on; it wraps to zero after its largest value.
pub open spec fn counter_succ(counter: u64) -> u64 {
    if counter == u64::MAX {
        0
    } else {
        (counter + 1) as u64
    }
}

/// Whether `address` names a register that can be read.
pub open spec fn csr_known(address: u32) -> bool {
    ||| address == CSR_CYCLE
    ||| address == CSR_TIME
    ||| address == CSR_INSTRET
    ||| address == CSR_CYCLEH
    ||| address == CSR_TIMEH
    ||| address == CSR_INSTRETH
    ||| address == CSRM_MODE_MISA
    ||| address == CSRM_MODE_MVENDORID
    ||| address == CSRM_MODE_MARCHID
    ||| address == CSRM_MODE_MIMPID
    ||| address == CSRM_MODE_MHARTID
    ||| address == CSRM_MODE_MSTATUS
    ||| address == CSRM_MODE_MTVEC
    ||| address == CSRM_MODE_MIE
    ||| address == CSRM_MODE_MIP
    ||| address == CSRM_MODE_MCAUSE
    ||| address == CSRM_MODE_MEPC
    ||| address == CSRM_MODE_MSCRATCH
    ||| address == CSRM_MODE_MTVAL
}

/// Whether `address` lies in a read-only block: bits 11 and 10 are both set.
pub open spec fn csr_read_only(address: u32) -> bool {
    (address >> 10) & 0b11 == 0b11
}

/// Whether `address` names a register that takes a written value as it is:
/// the trap vector, the interrupt enables, the pending interrupts, and the
/// four trap context registers.
pub open spec fn csr_takes_value(address: u32) -> bool {
    ||| address == CSRM_MODE_MTVEC
    ||| address == CSRM_MODE_MIE
    ||| address == CSRM_MODE_MIP
    ||| address == CSRM_MODE_MCAUSE
    ||| address == CSRM_MODE_MEPC
    ||| address == CSRM_MODE_MSCRATCH
    ||| address == CSRM_MODE_MTVAL
}

/// The registers as plain values.
pub struct CsrState {
    pub cycles: LatchState<u64>,
    pub instret: LatchState<u64>,
    pub misa: u32,
    pub mvendorid: u32,
    pub marchid: u32,
    pub mimpid: u32,
    pub mhartid: u32,
    pub mstatus: u32,
    pub mtvec: u32,
    pub mie: u32,
    pub mip: u32,
    pub mcause: u32,
    pub mepc: u32,
    pub mscratch: u32,
    pub mtval: u32,
    pub mtimecmp: LatchState<u64>,
}

impl CsrState {
    /// The registers of a machine that was just created.
    pub open spec fn initial() -> CsrState {
        CsrState {
            cycles: LatchState { current: 0, next: 0, default: 0 },
            instret: LatchState { current: 0, next: 0, default: 0 },
            misa: MISA_RV32I,
            mvendorid: 0,
            marchid: 0,
            mimpid: 0,
            mhartid: 0,
            mstatus: 0,
            mtvec: MTVEC_RESET,
            mie: MIE_RESET,
            mip: 0,
            mcause: 0,
            mepc: 0,
            mscratch: 0,
            mtval: 0,
            mtimecmp: LatchState { current: 0, next: 0, default: 0 },
        }
    }

    /// The value a read of `address` returns. The counters show their
    /// visible value, one half at a time; the time registers mirror the cycle
    /// counter. An address that names no register reads as zero here, and is
    /// ruled out where a read is made.
    pub open spec fn read(self, address: u32) -> u32 {
        if address == CSR_CYCLE || address == CSR_TIME {
            low_half(self.cycles.current)
        } else if address == CSR_INSTRET {
            low_half(self.instret.current)
        } else if address == CSR_CYCLEH || address == CSR_TIMEH {
            high_half(self.cycles.current)
        } else if address == CSR_INSTRETH {
            high_half(self.instret.current)
        } else if address == CSRM_MODE_MISA {
            self.misa
        } else if address == CSRM_MODE_MVENDORID {
            self.mvendorid
        } else if address == CSRM_MODE_MARCHID {
            self.marchid
        } else if address == CSRM_MODE_MIMPID {
            self.mimpid
        } else if address == CSRM_MODE_MHARTID {
            self.mhartid
        } else if address == CSRM_MODE_MSTATUS {
            self.mstatus
        } else if address == CSRM_MODE_MTVEC {
            self.mtvec
        } else if address == CSRM_MODE_MIE {
            self.mie
        } else if address == CSRM_MODE_MIP {
            self.mip
        } else if address == CSRM_MODE_MCAUSE {
            self.mcause
        } else if address == CSRM_MODE_MEPC {
            self.mepc
        } else if address == CSRM_MODE_MSCRATCH {
            self.mscratch
        } else if address == CSRM_MODE_MTVAL {
            self.mtval
        } else {
            0
        }
    }

    /// The registers after a write of `value` to `address`. A write to
    /// `mstatus` keeps only the MIE and MPIE bits of the value; the trap
    /// vector, the interrupt registers and the trap context registers take
    /// the value as it is; a write to any other address changes nothing.
    pub open spec fn write(self, address: u32, value: u32) -> CsrState {
        if address == CSRM_MODE_MSTATUS {
            CsrState { mstatus: value & MSTATUS_MASK, ..self }
        } else if address == CSRM_MODE_MTVEC {
            CsrState { mtvec: value, ..self }
        } else if address == CSRM_MODE_MIE {
            CsrState { mie: value, ..self }
        } else if address == CSRM_MODE_MIP {
            CsrState { mip: value, ..self }
        } else if address == CSRM_MODE_MCAUSE {
            CsrState { mcause: value, ..self }
        } else if address == CSRM_MODE_MEPC {
            CsrState { mepc: value, ..self }
        } else if address == CSRM_MODE_MSCRATCH {
            CsrState { mscratch: value, ..self }
        } else if address == CSRM_MODE_MTVAL {
            CsrState { mtval: value, ..self }
        } else {
            self
        }
    }

    /// The registers after one tick of combinational work: the cycle counter
    /// has its successor pending.
    pub open spec fn compute(self) -> CsrState {
        CsrState {
            cycles: LatchState { next: counter_succ(self.cycles.current), ..self.cycles },
            ..self
        }
    }

    /// The registers after the end-of-tick latch.
    pub open spec fn latch_next(self) -> CsrState {
        CsrState {
            cycles: self.cycles.latched(),
            instret: self.instret.latched(),
            mtimecmp: self.mtimecmp.latched(),
            ..self
        }
    }
}

/// The register file of control and status registers.
pub struct CSRInterface {
    pub cycles: LatchValue<u64>,
    pub instret: LatchValue<u64>,
    /// CPU capabilities: the top two bits give the width, the low 26 the
    /// extensions.
    pub misa: u32,
    /// JEDEC manufacturer ID.
    pub mvendorid: u32,
    /// Microarchitecture ID.
    pub marchid: u32,
    /// Processor version.
    pub mimpid: u32,
    /// Hart ID.
    pub mhartid: u32,
    /// Status word; only the global interrupt enable and its saved copy are
    /// kept.
    pub mstatus: u32,
    /// Base address of the trap vector, and its mode.
    pub mtvec: u32,
    /// Interrupt enables.
    pub mie: u32,
    /// Pending interrupts.
    pub mip: u32,
    /// Cause of the last trap. Top bit set: interrupt; clear: exception.
    pub mcause: u32,
    /// Program counter saved by the last trap.
    pub mepc: u32,
    /// Scratch register for the trap handler.
    pub mscratch: u32,
    /// Value that goes with the last trap.
    pub mtval: u32,
    /// Timer compare register (memory mapped, not a CSR).
    pub mtimecmp: LatchValue<u64>,
}

impl View for CSRInterface {
    type V = CsrState;

    open spec fn view(&self) -> CsrState {
        CsrState {
            cycles: self.cycles@,
            instret: self.instret@,
            misa: self.misa,
            mvendorid: self.mvendorid,
            marchid: self.marchid,
            mimpid: self.mimpid,
            mhartid: self.mhartid,
            mstatus: self.mstatus,
            mtvec: self.mtvec,
            mie: self.mie,
            mip: self.mip,
            mcause: self.mcause,
            mepc: self.mepc,
            mscratch: self.mscratch,
            mtval: self.mtval,
            mtimecmp: self.mtimecmp@,
        }
    }
}

proof fn lemma_counter_halves(counter: u64)
    by (bit_vector)
    ensures
        counter & 0xFFFF_FFFF == counter % 0x1_0000_0000,
        counter >> 32 == counter / 0x1_0000_0000,
        counter & 0xFFFF_FFFF <= 0xFFFF_FFFF,
        counter >> 32 <= 0xFFFF_FFFF,
{
}

fn lower(counter: u64) -> (half: u32)
    ensures
        half == low_half(counter),
{
    proof {
        lemma_counter_halves(counter);
    }
    (counter & 0xFFFF_FFFF) as u32
}

fn upper(counter: u64) -> (half: u32)
    ensures
        half == high_half(counter),
{
    proof {
        lemma_counter_halves(counter);
    }
    (counter >> 32) as u32
}

impl CSRInterface {
    pub fn new() -> (csr: Self)
        ensures
            csr@ == CsrState::initial(),
    {
        CSRInterface {
            cycles: LatchValue::new(0),
            instret: LatchValue::new(0),
            misa: MISA_RV32I,
            mvendorid: 0,
            marchid: 0,
            mimpid: 0,
            mhartid: 0,
            mstatus: 0,
            mtvec: MTVEC_RESET,
            mie: MIE_RESET,
            mip: 0,
            mcause: 0,
            mepc: 0,
            mscratch: 0,
            mtval: 0,
            mtimecmp: LatchValue::new(0),
        }
    }

    /// Whether `address` names a register that can be read.
    pub fn is_known(address: u32) -> (known: bool)
        ensures
            known == csr_known(address),
    {
        address == CSR_CYCLE || address == CSR_TIME || address == CSR_INSTRET || address
            == CSR_CYCLEH || address == CSR_TIMEH || address == CSR_INSTRETH || address
            == CSRM_MODE_MISA || address == CSRM_MODE_MVENDORID || address == CSRM_MODE_MARCHID
            || address == CSRM_MODE_MIMPID || address == CSRM_MODE_MHARTID || address
            == CSRM_MODE_MSTATUS || address == CSRM_MODE_MTVEC || address == CSRM_MODE_MIE
            || address == CSRM_MODE_MIP || address == CSRM_MODE_MCAUSE || address
            == CSRM_MODE_MEPC || address == CSRM_MODE_MSCRATCH || address == CSRM_MODE_MTVAL
    }

    /// Whether a write to `address` is refused.
    pub fn is_read_only(address: u32) -> (read_only: bool)
        ensures
            read_only == csr_read_only(address),
    {
        (address >> 10) & 0b11 == 0b11
    }

    /// Reads the register at `address`, which must name one.
    pub fn read(&self, address: u32) -> (value: u32)
        requires
            csr_known(address),
        ensures
            value == self@.read(address),
    {
        match address {
            // User level
            CSR_CYCLE => lower(*self.cycles.get()),
            CSR_TIME => lower(*self.cycles.get()),
            CSR_INSTRET => lower(*self.instret.get()),
            CSR_CYCLEH => upper(*self.cycles.get()),
            CSR_TIMEH => upper(*self.cycles.get()),
            CSR_INSTRETH => upper(*self.instret.get()),
            // Machine mode
            CSRM_MODE_MISA => self.misa,
            CSRM_MODE_MVENDORID => self.mvendorid,
            CSRM_MODE_MARCHID => self.marchid,
            CSRM_MODE_MIMPID => self.mimpid,
            CSRM_MODE_MHARTID => self.mhartid,
            CSRM_MODE_MSTATUS => self.mstatus,
            CSRM_MODE_MTVEC => self.mtvec,
            CSRM_MODE_MIE => self.mie,
            CSRM_MODE_MIP => self.mip,
            CSRM_MODE_MCAUSE => self.mcause,
            CSRM_MODE_MEPC => self.mepc,
            CSRM_MODE_MSCRATCH => self.mscratch,
            _ => self.mtval,
        }
    }

    /// Writes `value` to the register at `address`, which must not lie in a
    /// read-only block.
    pub fn write(&mut self, address: u32, value: u32)
        requires
            !csr_read_only(address),
        ensures
            final(self)@ == old(self)@.write(address, value),
    {
        match address {
            CSRM_MODE_MSTATUS => self.mstatus = value & MSTATUS_MASK,
            CSRM_MODE_MTVEC => self.mtvec = value,
            CSRM_MODE_MIE => self.mie = value,
            CSRM_MODE_MIP => self.mip = value,
            CSRM_MODE_MCAUSE => self.mcause = value,
            CSRM_MODE_MEPC => self.mepc = value,
            CSRM_MODE_MSCRATCH => self.mscratch = value,
            CSRM_MODE_MTVAL => self.mtval = value,
            _ => {},
        }
    }

    /// One tick of combinational work: the cycle counter moves on.
    pub fn compute(&mut self)
        ensures
            final(self)@ == old(self)@.compute(),
    {
        let cycles = *self.cycles.get();
        self.cycles.set(cycles.wrapping_add(1));
    }

    /// Makes every pending counter value visible.
    pub fn latch_next(&mut self)
        ensures
            final(self)@ == old(self)@.latch_next(),
    {
        self.cycles.latch_next();
        self.instret.latch_next();
        self.mtimecmp.latch_next();
    }
}

impl Default for CSRInterface {
    fn default() -> (csr: Self)
        ensures
            csr@ == CsrState::initial(),
    {
        Self::new()
    }
}

proof fn lemma_writable_blocks()
    by (bit_vector)
    ensures
        (0x300u32 >> 10) & 0b11 != 0b11,
        (0x304u32 >> 10) & 0b11 != 0b11,
        (0x305u32 >> 10) & 0b11 != 0b11,
        (0x340u32 >> 10) & 0b11 != 0b11,
        (0x341u32 >> 10) & 0b11 != 0b11,
        (0x342u32 >> 10) & 0b11 != 0b11,
        (0x343u32 >> 10) & 0b11 != 0b11,
        (0x344u32 >> 10) & 0b11 != 0b11,
{
}

/// A value written to a register is the value read back: as it is for the
/// trap vector, the interrupt registers and the trap context registers, and
/// cut to the MIE and MPIE bits for `mstatus`. None of these registers lies
/// in a read-only block. The write changes no other register: a read of any
/// other address returns what it returned before, and the counters are not
/// touched.
pub proof fn lemma_write_reads_back(csr: CsrState, address: u32, value: u32, other: u32)
    ensures
        csr_takes_value(address) ==> csr.write(address, value).read(address) == value,
        address == CSRM_MODE_MSTATUS ==> csr.write(address, value).read(address) == value
            & MSTATUS_MASK,
        csr_takes_value(address) || address == CSRM_MODE_MSTATUS ==> csr_known(address)
            && !csr_read_only(address),
        other != address ==> csr.write(address, value).read(other) == csr.read(other),
        !csr_takes_value(address) && address != CSRM_MODE_MSTATUS ==> csr.write(address, value)
            == csr,
        csr.write(address, value).cycles == csr.cycles,
        csr.write(address, value).instret == csr.instret,
        csr.write(address, value).mtimecmp == csr.mtimecmp,
{
    lemma_writable_blocks();
}

/// One tick of the register file. The combinational half leaves every
/// visible value as it is and only puts the successor of the cycle counter
/// in its pending slot; after the latch the cycle counter shows that
/// successor. Nothing else changes, before or after the latch, but that the
/// latch makes a pending count of retired instructions visible.
pub proof fn lemma_counter_tick(csr: CsrState, address: u32)
    ensures
        csr.compute().cycles.current == csr.cycles.current,
        csr.compute().cycles.next == counter_succ(csr.cycles.current),
        csr.cycles.current < u64::MAX ==> csr.compute().cycles.next == csr.cycles.current + 1,
        csr.compute().instret == csr.instret,
        csr.compute().read(address) == csr.read(address),
        csr.compute().latch_next().cycles.current == counter_succ(csr.cycles.current),
        csr.cycles.current < u64::MAX ==> csr.compute().latch_next().cycles.current
            == csr.cycles.current + 1,
        csr.compute().latch_next().instret.current == csr.instret.next,
        address != CSR_CYCLE && address != CSR_TIME && address != CSR_CYCLEH && address
            != CSR_TIMEH && address != CSR_INSTRET && address != CSR_INSTRETH
            ==> csr.compute().latch_next().read(address) == csr.read(address),
        csr.instret.next == csr.instret.current ==> csr.compute().latch_next().read(CSR_INSTRET)
            == csr.read(CSR_INSTRET) && csr.compute().latch_next().read(CSR_INSTRETH)
            == csr.read(CSR_INSTRETH),
{
}

} // verus!
