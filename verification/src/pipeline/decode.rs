//! The decode stage: it splits an instruction word into its fields, reads the
//! source registers and assembles the immediate.

use super::fetch::InstructionValue;
use super::PipelineStage;
use crate::trap::PipelineTrapParams;
use crate::utils::{bit, bit_spec, sign_extend_32, sign_extend_32_spec, slice_32, slice_32_spec};
use crate::utils::{LatchState, LatchValue};
use crate::RegisterFile;
use vstd::prelude::*;

verus! {

pub const OPCODE_ALU_IMMEDIATE: u8 = 0b001_0011;

pub const OPCODE_ALU_REGISTER: u8 = 0b011_0011;

pub const OPCODE_LOAD: u8 = 0b000_0011;

pub const OPCODE_STORE: u8 = 0b010_0011;

pub const OPCODE_LUI: u8 = 0b011_0111;

pub const OPCODE_AUIPC: u8 = 0b001_0111;

pub const OPCODE_JAL: u8 = 0b110_1111;

pub const OPCODE_JALR: u8 = 0b110_0111;

pub const OPCODE_BRANCH: u8 = 0b110_0011;

pub const OPCODE_SYSTEM: u8 = 0b111_0011;

/// The immediate field that marks a system instruction as a return from a
/// trap.
pub const MRET_IMMEDIATE: u32 = 0x302;

/// An instruction as the later stages see it: its class, and the fields of
/// that class with register values already read.
#[allow(inconsistent_fields)]
#[derive(Debug, PartialEq, Eq, Clone, Copy)]
pub enum DecodedInstruction {
    /// Nothing to do: an unknown opcode, or a return from a trap.
    Inert,
    Alu { opcode: u8, funct3: u8, shamt: u8, imm11_0: u16, rd: u8, rs1: u32, rs2: u32, imm32: i32 },
    Store { funct3: u8, rs1: u32, rs2: u32, imm32: i32 },
    Load { funct3: u8, rd: u8, rs1: u32, imm32: i32 },
    Lui { rd: u8, imm32: u32 },
    Jal { rd: u8, branch_address: u32 },
    Branch { funct3: u8, branch_address: u32, rs1: u32, rs2: u32 },
    System {
        funct3: u8,
        csr_address: u32,
        rd: u8,
        source: u32,
        should_write: bool,
        should_read: bool,
    },
    Auipc { rd: u8, imm32: u32 },
}

impl DecodedInstruction {
    /// The destination register, for the classes that have one.
    pub open spec fn destination(self) -> Option<u8> {
        match self {
            DecodedInstruction::Alu { rd, .. } => Some(rd),
            DecodedInstruction::Load { rd, .. } => Some(rd),
            DecodedInstruction::Lui { rd, .. } => Some(rd),
            DecodedInstruction::Auipc { rd, .. } => Some(rd),
            DecodedInstruction::Jal { rd, .. } => Some(rd),
            DecodedInstruction::System { rd, .. } => Some(rd),
            _ => None,
        }
    }

    /// Register numbers and shift amounts are five bits wide.
    pub open spec fn well_formed(self) -> bool {
        &&& self.destination() matches Some(rd) ==> rd < 32
        &&& self matches DecodedInstruction::Alu { shamt, .. } ==> shamt < 32
    }
}

/// What the decode stage hands to the execute stage.
#[derive(Debug, PartialEq, Eq, Clone, Copy)]
pub struct DecodedValue {
    pub instruction: DecodedInstruction,
    pub raw_instruction: u32,
    pub pc: u32,
    pub pc_plus_4: u32,
    /// Raised for one tick when the instruction is a return from a trap.
    pub return_from_trap: bool,
    pub trap_params: PipelineTrapParams,
}

impl DecodedValue {
    /// The output of a decode stage that has not decoded anything yet.
    pub open spec fn initial() -> DecodedValue {
        DecodedValue {
            instruction: DecodedInstruction::Inert,
            raw_instruction: 0,
            pc: 0,
            pc_plus_4: 0,
            return_from_trap: false,
            trap_params: PipelineTrapParams::quiet(),
        }
    }
}

/// Bits 6..0 of an instruction word.
pub open spec fn opcode_of(raw: u32) -> u8 {
    (raw & 0x7F) as u8
}

/// Bits 11..7: the destination register.
pub open spec fn rd_of(raw: u32) -> u8 {
    ((raw >> 7) & 0x1F) as u8
}

/// Bits 14..12.
pub open spec fn funct3_of(raw: u32) -> u8 {
    ((raw >> 12) & 0x07) as u8
}

/// Bits 19..15: the first source register.
pub open spec fn rs1_of(raw: u32) -> u8 {
    ((raw >> 15) & 0x1F) as u8
}

/// Bits 24..20: the second source register, or the shift amount.
pub open spec fn rs2_of(raw: u32) -> u8 {
    ((raw >> 20) & 0x1F) as u8
}

/// Bits 31..20: the immediate of the I format, not yet sign-extended.
pub open spec fn imm11_0_of(raw: u32) -> u16 {
    ((raw >> 20) & 0xFFF) as u16
}

/// The immediate of the I format.
pub open spec fn i_immediate(raw: u32) -> i32 {
    sign_extend_32_spec(12, imm11_0_of(raw) as i32)
}

/// The immediate of the S format: bits 31..25 above bits 11..7.
pub open spec fn s_immediate(raw: u32) -> i32 {
    sign_extend_32_spec(12, ((((raw >> 25) & 0x7F) << 5) | ((raw >> 7) & 0x1F)) as i32)
}

/// The immediate of the U format: bits 31..12, in place.
pub open spec fn u_immediate(raw: u32) -> u32 {
    (raw >> 12) << 12
}

/// The offset of the J format: instruction bits 31, 19..12, 20 and 30..21
/// are offset bits 20, 19..12, 11 and 10..1; bit 0 is zero.
pub open spec fn j_immediate(raw: u32) -> i32 {
    let bit_20 = ((raw >> 31) & 1) << 20;
    let bits_19_12 = ((raw >> 12) & 0xFF) << 12;
    let bit_11 = ((raw >> 20) & 1) << 11;
    let bits_10_1 = ((raw >> 21) & 0x3FF) << 1;
    sign_extend_32_spec(21, (bit_20 | bits_19_12 | bit_11 | bits_10_1) as i32)
}

/// The offset of the B format: instruction bits 31, 7, 30..25 and 11..8 are
/// offset bits 12, 11, 10..5 and 4..1; bit 0 is zero.
pub open spec fn b_immediate(raw: u32) -> i32 {
    let bit_12 = ((raw >> 31) & 1) << 12;
    let bit_11 = ((raw >> 7) & 1) << 11;
    let bits_10_5 = ((raw >> 25) & 0x3F) << 5;
    let bits_4_1 = ((raw >> 8) & 0xF) << 1;
    sign_extend_32_spec(13, (bit_12 | bit_11 | bits_10_5 | bits_4_1) as i32)
}

/// The value of register `index`. Register zero reads as zero whatever its
/// cell holds.
pub open spec fn read_register(registers: Seq<u32>, index: u8) -> u32 {
    if index == 0 {
        0
    } else {
        registers[index as int]
    }
}

/// `pc` moved by a signed offset; the result stays at the ends of the address
/// range instead of wrapping.
pub open spec fn offset_address(pc: u32, offset: i32) -> u32 {
    if pc + offset < 0 {
        0
    } else if pc + offset > u32::MAX {
        u32::MAX
    } else {
        (pc + offset) as u32
    }
}

/// Whether the word is a return from a trap: a system instruction with no
/// destination, no source and the immediate `0x302`.
pub open spec fn is_trap_return(raw: u32) -> bool {
    opcode_of(raw) == OPCODE_SYSTEM && rd_of(raw) == 0 && rs1_of(raw) == 0 && raw >> 20
        == MRET_IMMEDIATE
}

/// The decoded form of a system instruction.
pub open spec fn decode_system(raw: u32, registers: Seq<u32>) -> DecodedInstruction {
    let funct3 = funct3_of(raw);
    DecodedInstruction::System {
        funct3,
        csr_address: raw >> 20,
        rd: rd_of(raw),
        source: if funct3 & 0b100 == 0b100 {
            rs1_of(raw) as u32
        } else {
            read_register(registers, rs1_of(raw))
        },
        should_write: if funct3 & 0b11 == 0b01 {
            true
        } else {
            rs1_of(raw) != 0
        },
        should_read: if funct3 & 0b11 == 0b01 {
            rd_of(raw) != 0
        } else {
            true
        },
    }
}

/// The decoded form of the word `raw` fetched from `pc`, with source
/// registers read from `registers`. A word with an unknown opcode, and a
/// return from a trap, decode to `Inert`.
pub open spec fn decode(raw: u32, pc: u32, registers: Seq<u32>) -> DecodedInstruction {
    let opcode = opcode_of(raw);
    if opcode == OPCODE_ALU_IMMEDIATE || opcode == OPCODE_ALU_REGISTER {
        DecodedInstruction::Alu {
            opcode,
            funct3: funct3_of(raw),
            shamt: rs2_of(raw),
            imm11_0: imm11_0_of(raw),
            rd: rd_of(raw),
            rs1: read_register(registers, rs1_of(raw)),
            rs2: read_register(registers, rs2_of(raw)),
            imm32: i_immediate(raw),
        }
    } else if opcode == OPCODE_STORE {
        DecodedInstruction::Store {
            funct3: funct3_of(raw),
            rs1: read_register(registers, rs1_of(raw)),
            rs2: read_register(registers, rs2_of(raw)),
            imm32: s_immediate(raw),
        }
    } else if opcode == OPCODE_LOAD {
        DecodedInstruction::Load {
            funct3: funct3_of(raw),
            rd: rd_of(raw),
            rs1: read_register(registers, rs1_of(raw)),
            imm32: i_immediate(raw),
        }
    } else if opcode == OPCODE_LUI {
        DecodedInstruction::Lui { rd: rd_of(raw), imm32: u_immediate(raw) }
    } else if opcode == OPCODE_JAL {
        DecodedInstruction::Jal {
            rd: rd_of(raw),
            branch_address: offset_address(pc, j_immediate(raw)),
        }
    } else if opcode == OPCODE_JALR {
        DecodedInstruction::Jal {
            rd: rd_of(raw),
            branch_address: read_register(registers, rs1_of(raw)).wrapping_add_signed(
                i_immediate(raw),
            ) & 0xFFFF_FFFE,
        }
    } else if opcode == OPCODE_BRANCH {
        DecodedInstruction::Branch {
            funct3: funct3_of(raw),
            branch_address: offset_address(pc, b_immediate(raw)),
            rs1: read_register(registers, rs1_of(raw)),
            rs2: read_register(registers, rs2_of(raw)),
        }
    } else if opcode == OPCODE_SYSTEM {
        if is_trap_return(raw) {
            DecodedInstruction::Inert
        } else {
            decode_system(raw, registers)
        }
    } else if opcode == OPCODE_AUIPC {
        DecodedInstruction::Auipc { rd: rd_of(raw), imm32: u_immediate(raw) }
    } else {
        DecodedInstruction::Inert
    }
}

/// Whether every instruction the stage holds is well formed.
pub open spec fn decode_well_formed(stage: LatchState<DecodedValue>) -> bool {
    &&& stage.current.instruction.well_formed()
    &&& stage.next.instruction.well_formed()
    &&& stage.default.instruction.well_formed()
}

/// The stage after one tick of combinational work. The return strobe is
/// lowered on a stalled tick, so that it shows for one tick only. Otherwise
/// the decoded input is pending; the stage itself never raises a trap.
pub open spec fn decode_compute(
    stage: LatchState<DecodedValue>,
    should_stall: bool,
    instruction_in: InstructionValue,
    registers: Seq<u32>,
) -> LatchState<DecodedValue> {
    if should_stall {
        stage.written(DecodedValue { return_from_trap: false, ..stage.next })
    } else {
        stage.written(
            DecodedValue {
                instruction: decode(instruction_in.raw_instruction, instruction_in.pc, registers),
                raw_instruction: instruction_in.raw_instruction,
                pc: instruction_in.pc,
                pc_plus_4: instruction_in.pc_plus_4,
                return_from_trap: is_trap_return(instruction_in.raw_instruction),
                trap_params: PipelineTrapParams::quiet(),
            },
        )
    }
}

/// The register fields are five bits wide.
proof fn lemma_register_fields(raw: u32)
    by (bit_vector)
    ensures
        (raw >> 7) & 0x1F < 32,
        (raw >> 15) & 0x1F < 32,
        (raw >> 20) & 0x1F < 32,
{
}

/// Putting the pieces of the J and B offsets in place one by one gives the
/// offsets as the formats define them.
proof fn lemma_scrambled_offsets(raw: u32)
    by (bit_vector)
    ensures
        (bit_spec(31, raw, 20) | slice_32_spec(19, 12, raw, 19) | bit_spec(20, raw, 11)
            | slice_32_spec(30, 21, raw, 10)) << 1 == ((((raw >> 31) & 1) << 20) | (((raw >> 12)
            & 0xFF) << 12) | (((raw >> 20) & 1) << 11) | (((raw >> 21) & 0x3FF) << 1)),
        (bit_spec(31, raw, 12) | bit_spec(7, raw, 11) | slice_32_spec(30, 25, raw, 10)
            | slice_32_spec(11, 8, raw, 4)) << 1 == ((((raw >> 31) & 1) << 12) | (((raw >> 7) & 1)
            << 11) | (((raw >> 25) & 0x3F) << 5) | (((raw >> 8) & 0xF) << 1)),
{
}

/// Reads register `index`; register zero reads as zero.
pub fn read_reg(reg_file: &RegisterFile, index: u8) -> (value: u32)
    requires
        index < 32,
    ensures
        value == read_register(reg_file@, index),
{
    if index == 0 {
        0
    } else {
        reg_file[index as usize]
    }
}

/// Moves `pc` by a signed offset, stopping at the ends of the address range.
pub fn saturating_offset(pc: u32, offset: i32) -> (target: u32)
    ensures
        target == offset_address(pc, offset),
{
    let moved: i64 = pc as i64 + offset as i64;
    if moved < 0 {
        0
    } else if moved > 0xFFFF_FFFF {
        u32::MAX
    } else {
        moved as u32
    }
}

/// Decodes the word `instruction` fetched from `pc`.
pub fn decode_instruction(instruction: u32, pc: u32, reg_file: &RegisterFile) -> (decoded:
    DecodedInstruction)
    ensures
        decoded == decode(instruction, pc, reg_file@),
        decoded.well_formed(),
{
    proof {
        lemma_register_fields(instruction);
        lemma_scrambled_offsets(instruction);
    }
    let opcode = (instruction & 0x7F) as u8;
    let rd = ((instruction >> 7) & 0x1F) as u8;
    let funct3 = ((instruction >> 12) & 0x07) as u8;
    let rs1_address = ((instruction >> 15) & 0x1F) as u8;
    let rs2_address = ((instruction >> 20) & 0x1F) as u8;
    let imm11_0 = ((instruction >> 20) & 0xFFF) as u16;
    match opcode {
        0b001_0011 | 0b011_0011 => DecodedInstruction::Alu {
            opcode,
            funct3,
            shamt: rs2_address,
            imm11_0,
            rd,
            rs1: read_reg(reg_file, rs1_address),
            rs2: read_reg(reg_file, rs2_address),
            imm32: sign_extend_32(12, imm11_0 as i32),
        },
        0b010_0011 => DecodedInstruction::Store {
            funct3,
            rs1: read_reg(reg_file, rs1_address),
            rs2: read_reg(reg_file, rs2_address),
            imm32: sign_extend_32(
                12,
                ((((instruction >> 25) & 0x7F) << 5) | ((instruction >> 7) & 0x1F)) as i32,
            ),
        },
        0b000_0011 => DecodedInstruction::Load {
            funct3,
            rd,
            rs1: read_reg(reg_file, rs1_address),
            imm32: sign_extend_32(12, imm11_0 as i32),
        },
        0b011_0111 => DecodedInstruction::Lui { rd, imm32: (instruction >> 12) << 12 },
        0b110_1111 => {
            let restructured_imm = bit(31, instruction, 20) | slice_32(19, 12, instruction, 19)
                | bit(20, instruction, 11) | slice_32(30, 21, instruction, 10);
            let imm32 = sign_extend_32(21, (restructured_imm << 1) as i32);
            DecodedInstruction::Jal { rd, branch_address: saturating_offset(pc, imm32) }
        },
        0b110_0111 => {
            let imm32 = sign_extend_32(12, imm11_0 as i32);
            let rs1 = read_reg(reg_file, rs1_address);
            DecodedInstruction::Jal {
                rd,
                branch_address: rs1.wrapping_add_signed(imm32) & 0xFFFF_FFFE,
            }
        },
        0b110_0011 => {
            let restructured_imm = bit(31, instruction, 12) | bit(7, instruction, 11) | slice_32(
                30,
                25,
                instruction,
                10,
            ) | slice_32(11, 8, instruction, 4);
            let imm32 = sign_extend_32(13, (restructured_imm << 1) as i32);
            DecodedInstruction::Branch {
                funct3,
                branch_address: saturating_offset(pc, imm32),
                rs1: read_reg(reg_file, rs1_address),
                rs2: read_reg(reg_file, rs2_address),
            }
        },
        0b111_0011 => {
            let imm = instruction >> 20;
            if rd == 0 && rs1_address == 0 && imm == MRET_IMMEDIATE {
                return DecodedInstruction::Inert;
            }
            let source = if funct3 & 0b100 == 0b100 {
                rs1_address as u32
            } else {
                read_reg(reg_file, rs1_address)
            };
            let should_write = if funct3 & 0b11 == 0b01 {
                true
            } else {
                rs1_address != 0
            };
            let should_read = if funct3 & 0b11 == 0b01 {
                rd != 0
            } else {
                true
            };
            DecodedInstruction::System {
                funct3,
                csr_address: imm,
                rd,
                source,
                should_write,
                should_read,
            }
        },
        0b001_0111 => DecodedInstruction::Auipc { rd, imm32: (instruction >> 12) << 12 },
        _ => DecodedInstruction::Inert,
    }
}

/// Whether the word is a return from a trap.
pub fn is_mret(instruction: u32) -> (mret: bool)
    ensures
        mret == is_trap_return(instruction),
{
    (instruction & 0x7F) as u8 == OPCODE_SYSTEM && ((instruction >> 7) & 0x1F) as u8 == 0 && ((
    instruction >> 15) & 0x1F) as u8 == 0 && instruction >> 20 == MRET_IMMEDIATE
}

pub struct InstructionDecode {
    instruction: LatchValue<DecodedInstruction>,
    raw_instruction: LatchValue<u32>,
    pc: LatchValue<u32>,
    pc_plus_4: LatchValue<u32>,
    return_from_trap: LatchValue<bool>,
    trap_params: LatchValue<PipelineTrapParams>,
}

pub struct InstructionDecodeParams<'a> {
    pub should_stall: bool,
    pub instruction_in: InstructionValue,
    pub reg_file: &'a RegisterFile,
}

impl View for InstructionDecode {
    type V = LatchState<DecodedValue>;

    closed spec fn view(&self) -> LatchState<DecodedValue> {
        LatchState {
            current: DecodedValue {
                instruction: self.instruction@.current,
                raw_instruction: self.raw_instruction@.current,
                pc: self.pc@.current,
                pc_plus_4: self.pc_plus_4@.current,
                return_from_trap: self.return_from_trap@.current,
                trap_params: self.trap_params@.current,
            },
            next: DecodedValue {
                instruction: self.instruction@.next,
                raw_instruction: self.raw_instruction@.next,
                pc: self.pc@.next,
                pc_plus_4: self.pc_plus_4@.next,
                return_from_trap: self.return_from_trap@.next,
                trap_params: self.trap_params@.next,
            },
            default: DecodedValue {
                instruction: self.instruction@.default,
                raw_instruction: self.raw_instruction@.default,
                pc: self.pc@.default,
                pc_plus_4: self.pc_plus_4@.default,
                return_from_trap: self.return_from_trap@.default,
                trap_params: self.trap_params@.default,
            },
        }
    }
}

impl InstructionDecode {
    pub fn new() -> (stage: Self)
        ensures
            stage@ == LatchState::holding(DecodedValue::initial()),
            decode_well_formed(stage@),
    {
        Self {
            instruction: LatchValue::new(DecodedInstruction::Inert),
            raw_instruction: LatchValue::new(0),
            pc: LatchValue::new(0),
            pc_plus_4: LatchValue::new(0),
            return_from_trap: LatchValue::new(false),
            trap_params: LatchValue::new(PipelineTrapParams::none()),
        }
    }

    /// The visible output of the stage.
    pub fn get_decoded_instruction_out(&self) -> (out: DecodedValue)
        ensures
            out == self@.current,
    {
        DecodedValue {
            instruction: *self.instruction.get(),
            raw_instruction: *self.raw_instruction.get(),
            pc: *self.pc.get(),
            pc_plus_4: *self.pc_plus_4.get(),
            return_from_trap: *self.return_from_trap.get(),
            trap_params: *self.trap_params.get(),
        }
    }
}

impl<'a> PipelineStage<InstructionDecodeParams<'a>> for InstructionDecode {
    /// Every word can be decoded.
    open spec fn accepts(&self, params: InstructionDecodeParams<'a>) -> bool {
        true
    }

    fn compute(&mut self, params: InstructionDecodeParams<'a>)
        ensures
            final(self)@ == decode_compute(
                old(self)@,
                params.should_stall,
                params.instruction_in,
                params.reg_file@,
            ),
            decode_well_formed(old(self)@) ==> decode_well_formed(final(self)@),
    {
        if params.should_stall {
            self.return_from_trap.set(false);
            return ;
        }
        let instruction = params.instruction_in.raw_instruction;
        self.raw_instruction.set(instruction);
        self.pc.set(params.instruction_in.pc);
        self.pc_plus_4.set(params.instruction_in.pc_plus_4);
        self.trap_params.set(PipelineTrapParams::none());
        self.return_from_trap.set(is_mret(instruction));
        self.instruction.set(
            decode_instruction(instruction, params.instruction_in.pc, params.reg_file),
        );
    }

    fn latch_next(&mut self)
        ensures
            final(self)@ == old(self)@.latched(),
    {
        self.instruction.latch_next();
        self.raw_instruction.latch_next();
        self.pc.latch_next();
        self.pc_plus_4.latch_next();
        self.return_from_trap.latch_next();
        self.trap_params.latch_next();
    }

    fn reset(&mut self)
        ensures
            final(self)@ == old(self)@.cleared(),
    {
        self.instruction.reset();
        self.raw_instruction.reset();
        self.pc.reset();
        self.pc_plus_4.reset();
        self.return_from_trap.reset();
        self.trap_params.reset();
    }
}

/// The instruction word of `ADDI x0, x0, constant`: the low twelve bits of
/// the constant in bits 31..20, zeros in the register and function fields,
/// and the opcode of the register-immediate operations.
pub open spec fn addi_zero(constant: i32) -> u32 {
    (((constant as u32) & 0xFFF) << 20) | 0b001_0011
}

proof fn lemma_immediate_round_trip(constant: i32)
    by (bit_vector)
    requires
        -2048 <= constant < 2048,
    ensures
        i_immediate(addi_zero(constant)) == constant,
        opcode_of(addi_zero(constant)) == 0b001_0011,
        funct3_of(addi_zero(constant)) == 0,
        rd_of(addi_zero(constant)) == 0,
        rs1_of(addi_zero(constant)) == 0,
        (constant as u32) & 0x800 != 0 ==> (constant as u32) >> 12 == 0xF_FFFF,
        (constant as u32) & 0x800 == 0 ==> (constant as u32) >> 12 == 0,
{
}

/// A signed twelve-bit constant survives encoding and decoding: the
/// instruction `ADDI x0, x0, constant` decodes to an arithmetic instruction
/// whose immediate is the constant, and the upper twenty bits of that
/// immediate all repeat bit 11.
pub proof fn lemma_addi_immediate_round_trip(constant: i32, pc: u32, registers: Seq<u32>)
    requires
        -2048 <= constant < 2048,
    ensures
        decode(addi_zero(constant), pc, registers) matches DecodedInstruction::Alu {
            opcode,
            funct3,
            rd,
            rs1,
            imm32,
            ..
        } && opcode == OPCODE_ALU_IMMEDIATE && funct3 == 0 && rd == 0 && rs1 == 0 && imm32
            == constant,
        (i_immediate(addi_zero(constant)) as u32) >> 12 == if (i_immediate(addi_zero(constant))
            as u32) & 0x800 != 0 {
            0xF_FFFFu32
        } else {
            0u32
        },
{
    lemma_immediate_round_trip(constant);
}

/// Every word decodes to a well-formed instruction.
pub proof fn lemma_decode_well_formed(raw: u32, pc: u32, registers: Seq<u32>)
    ensures
        decode(raw, pc, registers).well_formed(),
{
    lemma_register_fields(raw);
}

/// Register zero reads as zero, whatever the register file holds.
pub proof fn lemma_register_zero_reads_zero(registers: Seq<u32>)
    ensures
        read_register(registers, 0) == 0,
{
}

} // verus!
