//! The memory stage: loads, stores and the control and status register
//! instructions, and the value that goes back to the register file.

use super::decode::DecodedInstruction;
use super::execute::{as_unsigned, unsigned, ExecutionValue};
use super::{Fault, PipelineStage};
use crate::csr::{
    csr_known, csr_read_only, csr_takes_value, lemma_write_reads_back, CSRInterface, CsrState,
    CSRM_MODE_MSTATUS, CSR_OPERATION_RC, CSR_OPERATION_RS, CSR_OPERATION_RW, MSTATUS_MASK,
};
use crate::system_interface::{
    write_half_word_result, write_word_result, BusState, MMIODevice, MMIOError, MMIOResult,
    SystemInterface,
};
use crate::trap::{
    PipelineTrapParams, MCAUSE_LOAD_ADDRESS_MISALIGNED, MCAUSE_STORE_AMO_ADDRESS_MISALIGNED,
};
use crate::utils::{sign_extend_32, sign_extend_32_spec, LatchState, LatchValue};
use vstd::prelude::*;

verus! {

/// What the memory stage hands to the write-back stage.
#[derive(Debug, PartialEq, Eq, Clone, Copy)]
pub struct MemoryAccessValue {
    pub write_back_value: u32,
    pub pc: u32,
    pub pc_plus_4: u32,
    pub instruction: DecodedInstruction,
    pub raw_instruction: u32,
    pub trap_params: PipelineTrapParams,
}

impl MemoryAccessValue {
    /// The output of a memory stage that has not handled anything yet.
    pub open spec fn initial() -> MemoryAccessValue {
        MemoryAccessValue {
            write_back_value: 0,
            pc: 0,
            pc_plus_4: 0,
            instruction: DecodedInstruction::Inert,
            raw_instruction: 0,
            trap_params: PipelineTrapParams::quiet(),
        }
    }
}

pub const WIDTH_BYTE: u8 = 0b000;

pub const WIDTH_HALF: u8 = 0b001;

pub const WIDTH_WORD: u8 = 0b010;

/// The address of a load or store: base plus signed offset, wrapping at 32
/// bits.
pub open spec fn effective_address(rs1: u32, imm32: i32) -> u32 {
    rs1.wrapping_add_signed(imm32)
}

/// A byte widened to a register value: sign-extended or zero-extended.
pub open spec fn widen_byte(value: u8, sign_extend: bool) -> u32 {
    if sign_extend {
        as_unsigned(sign_extend_32_spec(8, value as i32))
    } else {
        value as u32
    }
}

/// A half-word widened to a register value: sign-extended or zero-extended.
pub open spec fn widen_half(value: u16, sign_extend: bool) -> u32 {
    if sign_extend {
        as_unsigned(sign_extend_32_spec(16, value as i32))
    } else {
        value as u32
    }
}

/// What a load brings, or the refusal of the bus. The low two bits of
/// `funct3` give the width, and bit 2 is clear where the value is
/// sign-extended. A width field of three loads nothing; it is ruled out where
/// a load is made.
pub open spec fn load_result(bus: BusState, funct3: u8, address: u32) -> MMIOResult<u32> {
    let sign_extend = funct3 & 0b100 == 0;
    if funct3 & 0b011 == WIDTH_BYTE {
        match bus.read_byte(address) {
            Ok(value) => Ok(widen_byte(value, sign_extend)),
            Err(e) => Err(e),
        }
    } else if funct3 & 0b011 == WIDTH_HALF {
        match bus.read_half_word(address) {
            Ok(value) => Ok(widen_half(value, sign_extend)),
            Err(e) => Err(e),
        }
    } else if funct3 & 0b011 == WIDTH_WORD {
        bus.read_word(address)
    } else {
        Ok(0)
    }
}

/// What the bus answers to a store of the low bits of `value`.
pub open spec fn store_result(funct3: u8, address: u32, value: u32) -> MMIOResult<()> {
    if funct3 == WIDTH_HALF {
        write_half_word_result(address, (value & 0xFFFF) as u16)
    } else if funct3 == WIDTH_WORD {
        write_word_result(address, value)
    } else {
        Ok(())
    }
}

/// The devices behind the bus after a store of the low bits of `value`.
pub open spec fn store_effect(bus: BusState, funct3: u8, address: u32, value: u32) -> BusState {
    if funct3 == WIDTH_BYTE {
        bus.write_byte(address, (value & 0xFF) as u8)
    } else if funct3 == WIDTH_HALF {
        bus.write_half_word(address, (value & 0xFFFF) as u16)
    } else if funct3 == WIDTH_WORD {
        bus.write_word(address, value)
    } else {
        bus
    }
}

/// The value a control and status register instruction reads: the register,
/// or zero where the instruction does not read.
pub open spec fn csr_read_value(csr: CsrState, csr_address: u32, should_read: bool) -> u32 {
    if should_read {
        csr.read(csr_address)
    } else {
        0
    }
}

/// The registers after a control and status register instruction: written
/// with the source, with the source's bits set, or with the source's bits
/// cleared.
pub open spec fn csr_effect(
    csr: CsrState,
    funct3: u8,
    csr_address: u32,
    source: u32,
    should_write: bool,
    should_read: bool,
) -> CsrState {
    let value = csr_read_value(csr, csr_address, should_read);
    if !should_write {
        csr
    } else if funct3 & 0b11 == CSR_OPERATION_RW {
        csr.write(csr_address, source)
    } else if funct3 & 0b11 == CSR_OPERATION_RS {
        csr.write(csr_address, value | source)
    } else if funct3 & 0b11 == CSR_OPERATION_RC {
        csr.write(csr_address, value & !source)
    } else {
        csr
    }
}

/// The reason, if there is one, why the memory stage cannot handle an
/// instruction.
pub open spec fn memory_fault(instruction: DecodedInstruction) -> Option<Fault> {
    match instruction {
        DecodedInstruction::Load { funct3, .. } => {
            if funct3 & 0b011 == 0b011 {
                Some(Fault::InvalidLoadWidth(funct3))
            } else {
                None
            }
        },
        DecodedInstruction::Store { funct3, .. } => {
            if funct3 > WIDTH_WORD {
                Some(Fault::InvalidStoreWidth(funct3))
            } else {
                None
            }
        },
        DecodedInstruction::System { funct3, csr_address, should_write, should_read, .. } => {
            if should_read && !csr_known(csr_address) {
                Some(Fault::UnknownCsr(csr_address))
            } else if should_write && funct3 & 0b11 != 0 && csr_read_only(csr_address) {
                Some(Fault::ReadOnlyCsr(csr_address))
            } else {
                None
            }
        },
        _ => None,
    }
}

/// The trap request for a refused bus access by the instruction `input`.
pub open spec fn memory_trap(input: ExecutionValue, cause: u32) -> PipelineTrapParams {
    PipelineTrapParams {
        mepc: input.pc_plus_4,
        mcause: cause,
        mtval: input.raw_instruction,
        trap: true,
    }
}

/// The trap request the stage raises for `input`: a misaligned load or store
/// raises one, with the cause that names it; nothing else does.
pub open spec fn memory_trap_request(input: ExecutionValue, bus: BusState) -> PipelineTrapParams {
    match input.instruction {
        DecodedInstruction::Load { funct3, imm32, rs1, .. } => {
            if load_result(bus, funct3, effective_address(rs1, imm32)) is Err {
                memory_trap(input, MCAUSE_LOAD_ADDRESS_MISALIGNED)
            } else {
                PipelineTrapParams::quiet()
            }
        },
        DecodedInstruction::Store { funct3, imm32, rs1, rs2 } => {
            if store_result(funct3, effective_address(rs1, imm32), rs2) is Err {
                memory_trap(input, MCAUSE_STORE_AMO_ADDRESS_MISALIGNED)
            } else {
                PipelineTrapParams::quiet()
            }
        },
        _ => PipelineTrapParams::quiet(),
    }
}

/// The value the stage hands on for the register file. `pending` is the
/// value that was pending before: a store, and a load that the bus refuses,
/// leave it in place.
pub open spec fn memory_write_back_value(
    input: ExecutionValue,
    bus: BusState,
    csr: CsrState,
    pending: u32,
) -> u32 {
    match input.instruction {
        DecodedInstruction::Alu { .. } => input.write_back_value,
        DecodedInstruction::Load { funct3, imm32, rs1, .. } => {
            match load_result(bus, funct3, effective_address(rs1, imm32)) {
                Ok(value) => value,
                Err(_) => pending,
            }
        },
        DecodedInstruction::Store { .. } => pending,
        DecodedInstruction::Lui { imm32, .. } => imm32,
        DecodedInstruction::Jal { .. } => input.pc_plus_4,
        DecodedInstruction::Branch { .. } => 0,
        DecodedInstruction::System { csr_address, should_read, .. } => csr_read_value(
            csr,
            csr_address,
            should_read,
        ),
        DecodedInstruction::Auipc { imm32, .. } => input.pc.wrapping_add(imm32),
        DecodedInstruction::Inert => 0,
    }
}

/// Whether every instruction the stage holds is well formed.
pub open spec fn memory_well_formed(stage: LatchState<MemoryAccessValue>) -> bool {
    &&& stage.current.instruction.well_formed()
    &&& stage.next.instruction.well_formed()
    &&& stage.default.instruction.well_formed()
}

/// The stage after one tick of combinational work. A stalled stage keeps its
/// state; otherwise the input is pending with its write-back value and its
/// trap request.
pub open spec fn memory_compute(
    stage: LatchState<MemoryAccessValue>,
    should_stall: bool,
    execution_value_in: ExecutionValue,
    bus: BusState,
    csr: CsrState,
) -> LatchState<MemoryAccessValue> {
    if should_stall {
        stage
    } else {
        stage.written(
            MemoryAccessValue {
                write_back_value: memory_write_back_value(
                    execution_value_in,
                    bus,
                    csr,
                    stage.next.write_back_value,
                ),
                pc: execution_value_in.pc,
                pc_plus_4: execution_value_in.pc_plus_4,
                instruction: execution_value_in.instruction,
                raw_instruction: execution_value_in.raw_instruction,
                trap_params: memory_trap_request(execution_value_in, bus),
            },
        )
    }
}

/// The devices behind the bus after the same tick: only a store changes
/// them.
pub open spec fn memory_compute_bus(
    should_stall: bool,
    execution_value_in: ExecutionValue,
    bus: BusState,
) -> BusState {
    match execution_value_in.instruction {
        DecodedInstruction::Store { funct3, imm32, rs1, rs2 } if !should_stall => store_effect(
            bus,
            funct3,
            effective_address(rs1, imm32),
            rs2,
        ),
        _ => bus,
    }
}

/// The control and status registers after the same tick: only a control and
/// status register instruction changes them.
pub open spec fn memory_compute_csr(
    should_stall: bool,
    execution_value_in: ExecutionValue,
    csr: CsrState,
) -> CsrState {
    match execution_value_in.instruction {
        DecodedInstruction::System {
            funct3,
            csr_address,
            source,
            should_write,
            should_read,
            ..
        } if !should_stall => csr_effect(
            csr,
            funct3,
            csr_address,
            source,
            should_write,
            should_read,
        ),
        _ => csr,
    }
}

proof fn lemma_low_parts(value: u32, funct3: u8)
    by (bit_vector)
    ensures
        value & 0xFF <= 0xFF,
        value & 0xFFFF <= 0xFFFF,
        funct3 & 0b011 <= 0b011,
{
}

/// Reads from the bus what a load with the given `funct3` asks for.
pub fn load(bus: &SystemInterface, funct3: u8, address: u32) -> (result: MMIOResult<u32>)
    requires
        funct3 & 0b011 != 0b011,
    ensures
        result == load_result(bus@, funct3, address),
{
    proof {
        lemma_low_parts(0, funct3);
    }
    let should_sign_extend = funct3 & 0b100 == 0;
    match funct3 & 0b011 {
        WIDTH_BYTE => match bus.read_byte(address) {
            Ok(v) => Ok(
                if should_sign_extend {
                    unsigned(sign_extend_32(8, v as i32))
                } else {
                    v as u32
                },
            ),
            Err(e) => Err(e),
        },
        WIDTH_HALF => match bus.read_half_word(address) {
            Ok(v) => Ok(
                if should_sign_extend {
                    unsigned(sign_extend_32(16, v as i32))
                } else {
                    v as u32
                },
            ),
            Err(e) => Err(e),
        },
        _ => bus.read_word(address),
    }
}

/// Writes to the bus what a store with the given `funct3` asks for.
pub fn store(bus: &mut SystemInterface, funct3: u8, address: u32, value: u32) -> (result:
    MMIOResult<()>)
    requires
        funct3 <= WIDTH_WORD,
    ensures
        result == store_result(funct3, address, value),
        final(bus)@ == store_effect(old(bus)@, funct3, address, value),
{
    proof {
        lemma_low_parts(value, funct3);
    }
    match funct3 {
        WIDTH_BYTE => bus.write_byte(address, (value & 0xFF) as u8),
        WIDTH_HALF => bus.write_half_word(address, (value & 0xFFFF) as u16),
        _ => bus.write_word(address, value),
    }
}

/// Checks that the memory stage can handle `instruction`.
pub fn check_instruction(instruction: &DecodedInstruction) -> (result: Result<(), Fault>)
    ensures
        match memory_fault(*instruction) {
            Some(fault) => result == Err::<(), Fault>(fault),
            None => result == Ok::<(), Fault>(()),
        },
{
    match *instruction {
        DecodedInstruction::Load { funct3, .. } => {
            if funct3 & 0b011 == 0b011 {
                return Err(Fault::InvalidLoadWidth(funct3));
            }
        },
        DecodedInstruction::Store { funct3, .. } => {
            if funct3 > WIDTH_WORD {
                return Err(Fault::InvalidStoreWidth(funct3));
            }
        },
        DecodedInstruction::System { funct3, csr_address, should_write, should_read, .. } => {
            if should_read && !CSRInterface::is_known(csr_address) {
                return Err(Fault::UnknownCsr(csr_address));
            }
            if should_write && funct3 & 0b11 != 0 && CSRInterface::is_read_only(csr_address) {
                return Err(Fault::ReadOnlyCsr(csr_address));
            }
        },
        _ => {},
    }
    Ok(())
}

pub struct InstructionMemoryAccess {
    write_back_value: LatchValue<u32>,
    pc: LatchValue<u32>,
    pc_plus_4: LatchValue<u32>,
    instruction: LatchValue<DecodedInstruction>,
    raw_instruction: LatchValue<u32>,
    trap_params: LatchValue<PipelineTrapParams>,
}

pub struct InstructionMemoryAccessParams<'a> {
    pub should_stall: bool,
    pub execution_value_in: ExecutionValue,
    pub bus: &'a mut SystemInterface,
    pub csr: &'a mut CSRInterface,
}

impl View for InstructionMemoryAccess {
    type V = LatchState<MemoryAccessValue>;

    closed spec fn view(&self) -> LatchState<MemoryAccessValue> {
        LatchState {
            current: MemoryAccessValue {
                write_back_value: self.write_back_value@.current,
                pc: self.pc@.current,
                pc_plus_4: self.pc_plus_4@.current,
                instruction: self.instruction@.current,
                raw_instruction: self.raw_instruction@.current,
                trap_params: self.trap_params@.current,
            },
            next: MemoryAccessValue {
                write_back_value: self.write_back_value@.next,
                pc: self.pc@.next,
                pc_plus_4: self.pc_plus_4@.next,
                instruction: self.instruction@.next,
                raw_instruction: self.raw_instruction@.next,
                trap_params: self.trap_params@.next,
            },
            default: MemoryAccessValue {
                write_back_value: self.write_back_value@.default,
                pc: self.pc@.default,
                pc_plus_4: self.pc_plus_4@.default,
                instruction: self.instruction@.default,
                raw_instruction: self.raw_instruction@.default,
                trap_params: self.trap_params@.default,
            },
        }
    }
}

impl InstructionMemoryAccess {
    pub fn new() -> (stage: Self)
        ensures
            stage@ == LatchState::holding(MemoryAccessValue::initial()),
            memory_well_formed(stage@),
    {
        Self {
            write_back_value: LatchValue::new(0),
            pc: LatchValue::new(0),
            pc_plus_4: LatchValue::new(0),
            instruction: LatchValue::new(DecodedInstruction::Inert),
            raw_instruction: LatchValue::new(0),
            trap_params: LatchValue::new(PipelineTrapParams::none()),
        }
    }

    /// The visible output of the stage.
    pub fn get_memory_access_value_out(&self) -> (out: MemoryAccessValue)
        ensures
            out == self@.current,
    {
        MemoryAccessValue {
            write_back_value: *self.write_back_value.get(),
            instruction: *self.instruction.get(),
            pc: *self.pc.get(),
            pc_plus_4: *self.pc_plus_4.get(),
            raw_instruction: *self.raw_instruction.get(),
            trap_params: *self.trap_params.get(),
        }
    }

    /// Raises the trap request for a refused bus access.
    fn raise(&mut self, input: &ExecutionValue, cause: u32)
        ensures
            final(self)@ == old(self)@.written(
                MemoryAccessValue { trap_params: memory_trap(*input, cause), ..old(self)@.next },
            ),
    {
        self.trap_params.set(
            PipelineTrapParams {
                mepc: input.pc_plus_4,
                mcause: cause,
                mtval: input.raw_instruction,
                trap: true,
            },
        );
    }
}

impl<'a> PipelineStage<InstructionMemoryAccessParams<'a>> for InstructionMemoryAccess {
    /// The stage handles well-formed instructions that do not stop the
    /// simulator.
    open spec fn accepts(&self, params: InstructionMemoryAccessParams<'a>) -> bool {
        params.should_stall || (params.execution_value_in.instruction.well_formed()
            && memory_fault(params.execution_value_in.instruction) is None)
    }

    fn compute(&mut self, params: InstructionMemoryAccessParams<'a>)
        ensures
            final(self)@ == memory_compute(
                old(self)@,
                params.should_stall,
                params.execution_value_in,
                old(params.bus)@,
                old(params.csr)@,
            ),
            final(params.bus)@ == memory_compute_bus(
                params.should_stall,
                params.execution_value_in,
                old(params.bus)@,
            ),
            final(params.csr)@ == memory_compute_csr(
                params.should_stall,
                params.execution_value_in,
                old(params.csr)@,
            ),
            memory_well_formed(old(self)@) ==> memory_well_formed(final(self)@),
    {
        if params.should_stall {
            return ;
        }
        let execution_value = params.execution_value_in;
        self.instruction.set(execution_value.instruction);
        self.pc.set(execution_value.pc);
        self.pc_plus_4.set(execution_value.pc_plus_4);
        self.raw_instruction.set(execution_value.raw_instruction);
        self.trap_params.set(PipelineTrapParams::none());

        match execution_value.instruction {
            DecodedInstruction::Alu { .. } => {
                self.write_back_value.set(execution_value.write_back_value);
            },
            DecodedInstruction::Load { funct3, imm32, rs1, .. } => {
                let addr = rs1.wrapping_add_signed(imm32);
                match load(params.bus, funct3, addr) {
                    Ok(value) => self.write_back_value.set(value),
                    Err(_) => self.raise(&execution_value, MCAUSE_LOAD_ADDRESS_MISALIGNED),
                }
            },
            DecodedInstruction::Store { funct3, imm32, rs1, rs2 } => {
                let addr = rs1.wrapping_add_signed(imm32);
                match store(params.bus, funct3, addr, rs2) {
                    Ok(_) => {},
                    Err(_) => self.raise(&execution_value, MCAUSE_STORE_AMO_ADDRESS_MISALIGNED),
                }
            },
            DecodedInstruction::Lui { imm32, .. } => {
                self.write_back_value.set(imm32);
            },
            DecodedInstruction::Jal { .. } => {
                self.write_back_value.set(execution_value.pc_plus_4);
            },
            DecodedInstruction::Branch { .. } => {
                self.write_back_value.set(0);
            },
            DecodedInstruction::System {
                funct3,
                csr_address,
                source,
                should_write,
                should_read,
                ..
            } => {
                let csr_value = if should_read {
                    params.csr.read(csr_address)
                } else {
                    0
                };
                self.write_back_value.set(csr_value);

                if should_write {
                    match funct3 & 0b11 {
                        CSR_OPERATION_RW => {
                            params.csr.write(csr_address, source);
                        },
                        CSR_OPERATION_RS => {
                            params.csr.write(csr_address, csr_value | source);
                        },
                        CSR_OPERATION_RC => {
                            params.csr.write(csr_address, csr_value & !source);
                        },
                        _ => {},
                    }
                }
            },
            DecodedInstruction::Auipc { imm32, .. } => {
                self.write_back_value.set(execution_value.pc.wrapping_add(imm32));
            },
            DecodedInstruction::Inert => {
                self.write_back_value.set(0);
            },
        }
    }

    fn latch_next(&mut self)
        ensures
            final(self)@ == old(self)@.latched(),
    {
        self.write_back_value.latch_next();
        self.instruction.latch_next();
        self.pc.latch_next();
        self.pc_plus_4.latch_next();
        self.raw_instruction.latch_next();
        self.trap_params.latch_next();
    }

    fn reset(&mut self)
        ensures
            final(self)@ == old(self)@.cleared(),
    {
        self.write_back_value.reset();
        self.instruction.reset();
        self.pc.reset();
        self.pc_plus_4.reset();
        self.raw_instruction.reset();
        self.trap_params.reset();
    }
}

/// The value a control and status register instruction writes: the source,
/// the old value with the source's bits set, or the old value with the
/// source's bits cleared.
pub open spec fn csr_written_value(funct3: u8, old_value: u32, source: u32) -> u32 {
    if funct3 & 0b11 == CSR_OPERATION_RW {
        source
    } else if funct3 & 0b11 == CSR_OPERATION_RS {
        old_value | source
    } else {
        old_value & !source
    }
}

/// A control and status register instruction in the memory stage, on a
/// register that can be written. The stage hands on the old value of the
/// register where the instruction reads, and zero where it does not. Where
/// the instruction writes, the register then reads as the value the
/// instruction gives (cut to the MIE and MPIE bits for `mstatus`); where it
/// does not write, or has no operation, the registers stay as they are.
/// Every other register reads as before, the memory is not touched, no trap
/// is raised, and the instruction does not stop the machine.
pub proof fn lemma_csr_instruction(
    stage: LatchState<MemoryAccessValue>,
    input: ExecutionValue,
    bus: BusState,
    csr: CsrState,
    other: u32,
)
    requires
        input.instruction is System,
        csr_takes_value(input.instruction->csr_address) || input.instruction->csr_address
            == CSRM_MODE_MSTATUS,
    ensures
        ({
            let funct3 = input.instruction->System_funct3;
            let address = input.instruction->csr_address;
            let source = input.instruction->source;
            let should_write = input.instruction->should_write;
            let should_read = input.instruction->should_read;
            let old_value = csr.read(address);
            let handed = if should_read {
                old_value
            } else {
                0
            };
            let after = memory_compute_csr(false, input, csr);
            let written = csr_written_value(funct3, handed, source);
            &&& memory_fault(input.instruction) is None
            &&& memory_compute(stage, false, input, bus, csr).next.write_back_value == handed
            &&& memory_compute(stage, false, input, bus, csr).next.trap_params
                == PipelineTrapParams::quiet()
            &&& memory_compute_bus(false, input, bus) == bus
            &&& should_write && funct3 & 0b11 != 0 && csr_takes_value(address) ==> after.read(
                address,
            ) == written
            &&& should_write && funct3 & 0b11 != 0 && address == CSRM_MODE_MSTATUS
                ==> after.read(address) == written & MSTATUS_MASK
            &&& !should_write || funct3 & 0b11 == 0 ==> after == csr
            &&& other != address ==> after.read(other) == csr.read(other)
        }),
{
    let funct3 = input.instruction->System_funct3;
    let address = input.instruction->csr_address;
    let source = input.instruction->source;
    let handed = csr_read_value(csr, address, input.instruction->should_read);
    lemma_low_parts(0, funct3);
    lemma_write_reads_back(csr, address, source, other);
    lemma_write_reads_back(csr, address, handed | source, other);
    lemma_write_reads_back(csr, address, handed & !source, other);
}

} // verus!
