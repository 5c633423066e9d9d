//! The execute stage: the arithmetic unit and the branch decision.

use super::decode::{DecodedInstruction, DecodedValue};
use super::PipelineStage;
use crate::utils::{LatchState, LatchValue};
use vstd::prelude::*;

verus! {

/// What the execute stage hands to the memory stage.
#[derive(Debug, PartialEq, Eq, Clone, Copy)]
pub struct ExecutionValue {
    pub write_back_value: u32,
    pub instruction: DecodedInstruction,
    pub raw_instruction: u32,
    pub pc: u32,
    pub pc_plus_4: u32,
}

impl ExecutionValue {
    /// The output of an execute stage that has not executed anything yet.
    pub open spec fn initial() -> ExecutionValue {
        ExecutionValue {
            write_back_value: 0,
            instruction: DecodedInstruction::Inert,
            raw_instruction: 0,
            pc: 0,
            pc_plus_4: 0,
        }
    }
}

pub const ALU_OPERATION_ADD: u8 = 0b000;

pub const ALU_OPERATION_SLL: u8 = 0b001;

pub const ALU_OPERATION_SLT: u8 = 0b010;

pub const ALU_OPERATION_SLTU: u8 = 0b011;

pub const ALU_OPERATION_XOR: u8 = 0b100;

pub const ALU_OPERATION_SR: u8 = 0b101;

pub const ALU_OPERATION_OR: u8 = 0b110;

pub const ALU_OPERATION_AND: u8 = 0b111;

pub const BRANCH_OPERATION_EQ: u8 = 0b000;

pub const BRANCH_OPERATION_NE: u8 = 0b001;

pub const BRANCH_OPERATION_LT: u8 = 0b100;

pub const BRANCH_OPERATION_GE: u8 = 0b101;

pub const BRANCH_OPERATION_LTU: u8 = 0b110;

pub const BRANCH_OPERATION_GEU: u8 = 0b111;

/// The number a register value stands for when read as two's complement.
pub open spec fn as_signed(value: u32) -> int {
    if value >= 0x8000_0000 {
        value - 0x1_0000_0000
    } else {
        value as int
    }
}

/// The register value that stands for a signed number.
pub open spec fn as_unsigned(value: i32) -> u32 {
    if value < 0 {
        (value + 0x1_0000_0000) as u32
    } else {
        value as u32
    }
}

/// One or zero for true or false.
pub open spec fn flag(condition: bool) -> u32 {
    if condition {
        1
    } else {
        0
    }
}

/// `value` shifted right by `amount` with copies of its sign bit moving in.
pub open spec fn shift_right_arithmetic(value: u32, amount: u32) -> u32 {
    ((value as i32) >> amount) as u32
}

/// The result of the arithmetic unit.
///
/// Bit 5 of the opcode tells a register-register operation from a
/// register-immediate one; bit 10 of the immediate field selects the
/// alternate operation (subtract, arithmetic shift). Sums and differences
/// wrap; a shift by a register uses the low five bits of the register.
pub open spec fn alu_result(
    opcode: u8,
    funct3: u8,
    shamt: u8,
    imm11_0: u16,
    rs1: u32,
    rs2: u32,
    imm32: i32,
) -> u32 {
    let is_register_op = (opcode >> 5) & 1 == 1;
    let is_alternate = (imm11_0 >> 10) & 1 == 1;
    let operand = if is_register_op {
        rs2
    } else {
        as_unsigned(imm32)
    };
    let amount = if is_register_op {
        rs2 & 31
    } else {
        shamt as u32
    };
    if funct3 == ALU_OPERATION_ADD {
        if is_register_op && is_alternate {
            rs1.wrapping_sub(rs2)
        } else {
            rs1.wrapping_add(operand)
        }
    } else if funct3 == ALU_OPERATION_SLL {
        rs1 << amount
    } else if funct3 == ALU_OPERATION_SLT {
        flag(as_signed(rs1) < as_signed(operand))
    } else if funct3 == ALU_OPERATION_SLTU {
        flag(rs1 < operand)
    } else if funct3 == ALU_OPERATION_XOR {
        rs1 ^ operand
    } else if funct3 == ALU_OPERATION_SR {
        if is_alternate {
            shift_right_arithmetic(rs1, amount)
        } else {
            rs1 >> amount
        }
    } else if funct3 == ALU_OPERATION_OR {
        rs1 | operand
    } else if funct3 == ALU_OPERATION_AND {
        rs1 & operand
    } else {
        0
    }
}

/// Whether a branch with condition code `funct3` is taken.
pub open spec fn branch_taken(funct3: u8, rs1: u32, rs2: u32) -> bool {
    if funct3 == BRANCH_OPERATION_EQ {
        rs1 == rs2
    } else if funct3 == BRANCH_OPERATION_NE {
        rs1 != rs2
    } else if funct3 == BRANCH_OPERATION_LT {
        as_signed(rs1) < as_signed(rs2)
    } else if funct3 == BRANCH_OPERATION_GE {
        as_signed(rs1) >= as_signed(rs2)
    } else if funct3 == BRANCH_OPERATION_LTU {
        rs1 < rs2
    } else if funct3 == BRANCH_OPERATION_GEU {
        rs1 >= rs2
    } else {
        false
    }
}

/// The result of executing a decoded instruction. An arithmetic instruction
/// gets its result. A branch that is not taken gets the address of the next
/// instruction as its target, so that the fetch stage goes on in sequence.
/// Everything else passes through with a result of zero.
pub open spec fn execute(decoded: DecodedValue) -> ExecutionValue {
    ExecutionValue {
        write_back_value: match decoded.instruction {
            DecodedInstruction::Alu { opcode, funct3, shamt, imm11_0, rs1, rs2, imm32, .. } => {
                alu_result(opcode, funct3, shamt, imm11_0, rs1, rs2, imm32)
            },
            _ => 0,
        },
        instruction: match decoded.instruction {
            DecodedInstruction::Branch { funct3, branch_address, rs1, rs2 } => {
                DecodedInstruction::Branch {
                    funct3,
                    branch_address: if branch_taken(funct3, rs1, rs2) {
                        branch_address
                    } else {
                        decoded.pc_plus_4
                    },
                    rs1,
                    rs2,
                }
            },
            other => other,
        },
        raw_instruction: decoded.raw_instruction,
        pc: decoded.pc,
        pc_plus_4: decoded.pc_plus_4,
    }
}

/// The address the fetch stage is sent to by the instruction the execute
/// stage shows: the target of a jump or of a branch, if it is one.
pub open spec fn redirect_of(instruction: DecodedInstruction) -> Option<u32> {
    match instruction {
        DecodedInstruction::Jal { branch_address, .. } => Some(branch_address),
        DecodedInstruction::Branch { branch_address, .. } => Some(branch_address),
        _ => None,
    }
}

/// Whether every instruction the stage holds is well formed.
pub open spec fn execute_well_formed(stage: LatchState<ExecutionValue>) -> bool {
    &&& stage.current.instruction.well_formed()
    &&& stage.next.instruction.well_formed()
    &&& stage.default.instruction.well_formed()
}

/// The stage after one tick of combinational work. A stalled stage keeps its
/// state; otherwise the executed input is pending.
pub open spec fn execute_compute(
    stage: LatchState<ExecutionValue>,
    should_stall: bool,
    decoded_instruction_in: DecodedValue,
) -> LatchState<ExecutionValue> {
    if should_stall {
        stage
    } else {
        stage.written(execute(decoded_instruction_in))
    }
}

proof fn lemma_signed_views(value: u32, other: i32)
    by (bit_vector)
    ensures
        value >= 0x8000_0000 ==> (value as i32) as int == value - 0x1_0000_0000,
        value < 0x8000_0000 ==> (value as i32) as int == value as int,
        other < 0 ==> (other as u32) as int == other + 0x1_0000_0000,
        other >= 0 ==> (other as u32) as int == other as int,
        value & 31 < 32,
{
}

/// Reads a register value as a signed number.
pub fn signed(value: u32) -> (number: i32)
    ensures
        number == as_signed(value),
{
    proof {
        lemma_signed_views(value, 0);
    }
    value as i32
}

/// Reads a signed number as a register value.
pub fn unsigned(value: i32) -> (register: u32)
    ensures
        register == as_unsigned(value),
{
    proof {
        lemma_signed_views(0, value);
    }
    value as u32
}

/// Computes the result of the arithmetic unit.
pub fn alu(opcode: u8, funct3: u8, shamt: u8, imm11_0: u16, rs1: u32, rs2: u32, imm32: i32) -> (result:
    u32)
    requires
        shamt < 32,
    ensures
        result == alu_result(opcode, funct3, shamt, imm11_0, rs1, rs2, imm32),
{
    proof {
        lemma_signed_views(rs2, imm32);
    }
    let is_register_op = ((opcode >> 5) & 1) == 1;
    let is_alternate = ((imm11_0 >> 10) & 1) == 1;
    let operand = if is_register_op {
        rs2
    } else {
        unsigned(imm32)
    };
    let amount: u32 = if is_register_op {
        rs2 & 31
    } else {
        shamt as u32
    };
    match funct3 {
        ALU_OPERATION_ADD => {
            if is_register_op && is_alternate {
                rs1.wrapping_sub(rs2)
            } else {
                rs1.wrapping_add(operand)
            }
        },
        ALU_OPERATION_SLL => rs1 << amount,
        ALU_OPERATION_SLT => if signed(rs1) < signed(operand) {
            1
        } else {
            0
        },
        ALU_OPERATION_SLTU => if rs1 < operand {
            1
        } else {
            0
        },
        ALU_OPERATION_XOR => rs1 ^ operand,
        ALU_OPERATION_SR => {
            if is_alternate {
                ((rs1 as i32) >> amount) as u32
            } else {
                rs1 >> amount
            }
        },
        ALU_OPERATION_OR => rs1 | operand,
        ALU_OPERATION_AND => rs1 & operand,
        _ => 0,
    }
}

/// Decides whether a branch is taken.
pub fn is_branch_taken(funct3: u8, rs1: u32, rs2: u32) -> (taken: bool)
    ensures
        taken == branch_taken(funct3, rs1, rs2),
{
    match funct3 {
        BRANCH_OPERATION_EQ => rs1 == rs2,
        BRANCH_OPERATION_NE => rs1 != rs2,
        BRANCH_OPERATION_LT => signed(rs1) < signed(rs2),
        BRANCH_OPERATION_GE => signed(rs1) >= signed(rs2),
        BRANCH_OPERATION_LTU => rs1 < rs2,
        BRANCH_OPERATION_GEU => rs1 >= rs2,
        _ => false,
    }
}

pub struct InstructionExecute {
    write_back_value: LatchValue<u32>,
    instruction: LatchValue<DecodedInstruction>,
    raw_instruction: LatchValue<u32>,
    pc: LatchValue<u32>,
    pc_plus_4: LatchValue<u32>,
}

pub struct InstructionExecuteParams {
    pub should_stall: bool,
    pub decoded_instruction_in: DecodedValue,
}

impl View for InstructionExecute {
    type V = LatchState<ExecutionValue>;

    closed spec fn view(&self) -> LatchState<ExecutionValue> {
        LatchState {
            current: ExecutionValue {
                write_back_value: self.write_back_value@.current,
                instruction: self.instruction@.current,
                raw_instruction: self.raw_instruction@.current,
                pc: self.pc@.current,
                pc_plus_4: self.pc_plus_4@.current,
            },
            next: ExecutionValue {
                write_back_value: self.write_back_value@.next,
                instruction: self.instruction@.next,
                raw_instruction: self.raw_instruction@.next,
                pc: self.pc@.next,
                pc_plus_4: self.pc_plus_4@.next,
            },
            default: ExecutionValue {
                write_back_value: self.write_back_value@.default,
                instruction: self.instruction@.default,
                raw_instruction: self.raw_instruction@.default,
                pc: self.pc@.default,
                pc_plus_4: self.pc_plus_4@.default,
            },
        }
    }
}

impl InstructionExecute {
    pub fn new() -> (stage: Self)
        ensures
            stage@ == LatchState::holding(ExecutionValue::initial()),
            execute_well_formed(stage@),
    {
        Self {
            write_back_value: LatchValue::new(0),
            instruction: LatchValue::new(DecodedInstruction::Inert),
            raw_instruction: LatchValue::new(0),
            pc: LatchValue::new(0),
            pc_plus_4: LatchValue::new(0),
        }
    }

    /// The visible output of the stage.
    pub fn get_execution_value_out(&self) -> (out: ExecutionValue)
        ensures
            out == self@.current,
    {
        ExecutionValue {
            write_back_value: *self.write_back_value.get(),
            instruction: *self.instruction.get(),
            raw_instruction: *self.raw_instruction.get(),
            pc: *self.pc.get(),
            pc_plus_4: *self.pc_plus_4.get(),
        }
    }
}

impl PipelineStage<InstructionExecuteParams> for InstructionExecute {
    /// The stage executes well-formed instructions.
    open spec fn accepts(&self, params: InstructionExecuteParams) -> bool {
        params.should_stall || params.decoded_instruction_in.instruction.well_formed()
    }

    fn compute(&mut self, params: InstructionExecuteParams)
        ensures
            final(self)@ == execute_compute(
                old(self)@,
                params.should_stall,
                params.decoded_instruction_in,
            ),
            execute_well_formed(old(self)@) ==> execute_well_formed(final(self)@),
    {
        if params.should_stall {
            return ;
        }
        let decoded = params.decoded_instruction_in;
        self.instruction.set(decoded.instruction);
        self.raw_instruction.set(decoded.raw_instruction);
        self.pc.set(decoded.pc);
        self.pc_plus_4.set(decoded.pc_plus_4);

        match decoded.instruction {
            DecodedInstruction::Alu { opcode, funct3, shamt, imm11_0, rs1, rs2, imm32, .. } => {
                self.write_back_value.set(alu(opcode, funct3, shamt, imm11_0, rs1, rs2, imm32));
            },
            DecodedInstruction::Branch { funct3, rs1, rs2, .. } => {
                if !is_branch_taken(funct3, rs1, rs2) {
                    self.instruction.set(
                        DecodedInstruction::Branch {
                            funct3,
                            branch_address: decoded.pc_plus_4,
                            rs1,
                            rs2,
                        },
                    );
                }
                self.write_back_value.set(0);
            },
            _ => {
                self.write_back_value.set(0);
            },
        }
    }

    fn latch_next(&mut self)
        ensures
            final(self)@ == old(self)@.latched(),
    {
        self.write_back_value.latch_next();
        self.instruction.latch_next();
        self.raw_instruction.latch_next();
        self.pc.latch_next();
        self.pc_plus_4.latch_next();
    }

    fn reset(&mut self)
        ensures
            final(self)@ == old(self)@.cleared(),
    {
        self.write_back_value.reset();
        self.instruction.reset();
        self.raw_instruction.reset();
        self.pc.reset();
        self.pc_plus_4.reset();
    }
}

} // verus!
