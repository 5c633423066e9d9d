//! The fetch stage: it keeps the program counter and reads the next
//! instruction word from the bus.

use super::PipelineStage;
use crate::system_interface::{BusState, MMIODevice, SystemInterface, PROGRAM_ROM_START};
use crate::utils::{LatchState, LatchValue};
use vstd::prelude::*;

verus! {

/// What the fetch stage hands to the decode stage.
#[derive(Debug, PartialEq, Eq, Clone, Copy)]
pub struct InstructionValue {
    pub pc: u32,
    pub pc_plus_4: u32,
    pub raw_instruction: u32,
}

impl InstructionValue {
    /// The output of a fetch stage that has not fetched anything yet: both
    /// counters at the start of the program store.
    pub open spec fn initial() -> InstructionValue {
        InstructionValue { pc: PROGRAM_ROM_START, pc_plus_4: PROGRAM_ROM_START, raw_instruction: 0 }
    }
}

/// The address the stage fetches from: the target of the control transfer
/// that the execute stage shows, if it shows one, else the address after the
/// instruction fetched last.
pub open spec fn fetch_address(stage: LatchState<InstructionValue>, branch_address: Option<u32>)
    -> u32 {
    match branch_address {
        Some(target) => target,
        None => stage.current.pc_plus_4,
    }
}

/// The stage after one tick of combinational work. A stalled stage keeps its
/// state. Otherwise the word at the fetch address, the address and its
/// successor are pending.
pub open spec fn fetch_compute(
    stage: LatchState<InstructionValue>,
    should_stall: bool,
    branch_address: Option<u32>,
    bus: BusState,
) -> LatchState<InstructionValue> {
    if should_stall {
        stage
    } else {
        let address = fetch_address(stage, branch_address);
        stage.written(
            InstructionValue {
                pc: address,
                pc_plus_4: address.wrapping_add(4),
                raw_instruction: bus.word_at(address),
            },
        )
    }
}

/// The stage after the trap controller has pointed it at `target`: both
/// counters have `target` pending, so that the next fetch reads from there.
pub open spec fn fetch_redirect(stage: LatchState<InstructionValue>, target: u32) -> LatchState<
    InstructionValue,
> {
    stage.written(InstructionValue { pc: target, pc_plus_4: target, ..stage.next })
}

pub struct InstructionFetch {
    pc: LatchValue<u32>,
    pc_plus_4: LatchValue<u32>,
    raw_instruction: LatchValue<u32>,
}

pub struct InstructionFetchParams<'a> {
    pub should_stall: bool,
    pub branch_address: Option<u32>,
    pub bus: &'a SystemInterface,
}

impl View for InstructionFetch {
    type V = LatchState<InstructionValue>;

    closed spec fn view(&self) -> LatchState<InstructionValue> {
        LatchState {
            current: InstructionValue {
                pc: self.pc@.current,
                pc_plus_4: self.pc_plus_4@.current,
                raw_instruction: self.raw_instruction@.current,
            },
            next: InstructionValue {
                pc: self.pc@.next,
                pc_plus_4: self.pc_plus_4@.next,
                raw_instruction: self.raw_instruction@.next,
            },
            default: InstructionValue {
                pc: self.pc@.default,
                pc_plus_4: self.pc_plus_4@.default,
                raw_instruction: self.raw_instruction@.default,
            },
        }
    }
}

impl InstructionFetch {
    pub fn new() -> (stage: Self)
        ensures
            stage@ == LatchState::holding(InstructionValue::initial()),
    {
        Self {
            pc: LatchValue::new(PROGRAM_ROM_START),
            pc_plus_4: LatchValue::new(PROGRAM_ROM_START),
            raw_instruction: LatchValue::new(0x0000_0000),
        }
    }

    /// The visible output of the stage.
    pub fn get_instruction_value_out(&self) -> (out: InstructionValue)
        ensures
            out == self@.current,
    {
        InstructionValue {
            pc: *self.pc.get(),
            pc_plus_4: *self.pc_plus_4.get(),
            raw_instruction: *self.raw_instruction.get(),
        }
    }

    /// Points the stage at `target`, for the trap controller.
    pub fn redirect(&mut self, target: u32)
        ensures
            final(self)@ == fetch_redirect(old(self)@, target),
    {
        self.pc.set(target);
        self.pc_plus_4.set(target);
    }
}

impl<'a> PipelineStage<InstructionFetchParams<'a>> for InstructionFetch {
    /// A fetch needs an address that is a multiple of four.
    open spec fn accepts(&self, params: InstructionFetchParams<'a>) -> bool {
        params.should_stall || fetch_address(self@, params.branch_address) & 0b11 == 0
    }

    fn compute(&mut self, params: InstructionFetchParams<'a>)
        ensures
            final(self)@ == fetch_compute(
                old(self)@,
                params.should_stall,
                params.branch_address,
                params.bus@,
            ),
    {
        if params.should_stall {
            return ;
        }
        let next_address = match params.branch_address {
            Some(branch_address) => branch_address,
            None => *self.pc_plus_4.get(),
        };
        let value = match params.bus.read_word(next_address) {
            Ok(instruction) => instruction,
            Err(_) => {
                return ;
            },
        };
        self.raw_instruction.set(value);
        self.pc.set(next_address);
        self.pc_plus_4.set(next_address.wrapping_add(4));
    }

    fn latch_next(&mut self)
        ensures
            final(self)@ == old(self)@.latched(),
    {
        self.raw_instruction.latch_next();
        self.pc.latch_next();
        self.pc_plus_4.latch_next();
    }

    fn reset(&mut self)
        ensures
            final(self)@ == old(self)@.cleared(),
    {
        self.raw_instruction.reset();
        self.pc.reset();
        self.pc_plus_4.reset();
    }
}

} // verus!
