//! The write-back stage: it stores the result of an instruction in its
//! destination register.

use super::decode::{read_register, DecodedInstruction};
use super::memory_access::MemoryAccessValue;
use super::PipelineStage;
use crate::RegisterFile;
use vstd::prelude::*;

verus! {

/// The register file after an instruction has written back. The classes
/// with a destination register write their result there, unless the
/// destination is register zero; stores, branches and inert instructions
/// write nothing.
pub open spec fn write_back(registers: Seq<u32>, value: MemoryAccessValue) -> Seq<u32> {
    match value.instruction.destination() {
        Some(rd) => if rd != 0 {
            registers.update(rd as int, value.write_back_value)
        } else {
            registers
        },
        None => registers,
    }
}

/// The register file after one tick of the stage. A stalled stage writes
/// nothing.
pub open spec fn write_back_compute(
    registers: Seq<u32>,
    should_stall: bool,
    memory_access_value_in: MemoryAccessValue,
) -> Seq<u32> {
    if should_stall {
        registers
    } else {
        write_back(registers, memory_access_value_in)
    }
}

pub struct InstructionWriteBack {}

pub struct InstructionWriteBackParams<'a> {
    pub should_stall: bool,
    pub memory_access_value_in: MemoryAccessValue,
    pub reg_file: &'a mut RegisterFile,
}

impl InstructionWriteBack {
    pub fn new() -> Self {
        Self {  }
    }
}

/// Stores `value` in register `rd`, unless that is register zero.
fn write_register(reg_file: &mut RegisterFile, rd: u8, value: u32)
    requires
        rd < 32,
    ensures
        final(reg_file)@ == if rd != 0 {
            old(reg_file)@.update(rd as int, value)
        } else {
            old(reg_file)@
        },
{
    if rd != 0 {
        reg_file[rd as usize] = value;
    }
}

impl<'a> PipelineStage<InstructionWriteBackParams<'a>> for InstructionWriteBack {
    /// The stage writes back well-formed instructions.
    open spec fn accepts(&self, params: InstructionWriteBackParams<'a>) -> bool {
        params.should_stall || params.memory_access_value_in.instruction.well_formed()
    }

    fn compute(&mut self, params: InstructionWriteBackParams<'a>)
        ensures
            final(params.reg_file)@ == write_back_compute(
                old(params.reg_file)@,
                params.should_stall,
                params.memory_access_value_in,
            ),
            final(params.reg_file)@[0] == old(params.reg_file)@[0],
    {
        if params.should_stall {
            return ;
        }
        let memory_access_value = params.memory_access_value_in;
        let value = memory_access_value.write_back_value;
        match memory_access_value.instruction {
            DecodedInstruction::Alu { rd, .. } => write_register(params.reg_file, rd, value),
            DecodedInstruction::Load { rd, .. } => write_register(params.reg_file, rd, value),
            DecodedInstruction::Lui { rd, .. } => write_register(params.reg_file, rd, value),
            DecodedInstruction::Auipc { rd, .. } => write_register(params.reg_file, rd, value),
            DecodedInstruction::Jal { rd, .. } => write_register(params.reg_file, rd, value),
            DecodedInstruction::System { rd, .. } => write_register(params.reg_file, rd, value),
            DecodedInstruction::Store { .. } => {
                // A store has no destination register.
            },
            DecodedInstruction::Branch { .. } => {},
            DecodedInstruction::Inert => {},
        }
    }

    /// The stage has no latches.
    fn latch_next(&mut self)
        ensures
            *final(self) == *old(self),
    {
    }

    /// The stage has no latches.
    fn reset(&mut self)
        ensures
            *final(self) == *old(self),
    {
    }
}

/// Write-back never changes the cell of register zero, and a read of
/// register zero after it returns zero.
pub proof fn lemma_register_zero_is_never_written(
    registers: Seq<u32>,
    should_stall: bool,
    value: MemoryAccessValue,
)
    requires
        registers.len() == 32,
        value.instruction.well_formed(),
    ensures
        write_back_compute(registers, should_stall, value).len() == 32,
        write_back_compute(registers, should_stall, value)[0] == registers[0],
        read_register(write_back_compute(registers, should_stall, value), 0) == 0,
{
}

} // verus!
