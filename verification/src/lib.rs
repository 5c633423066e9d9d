//! A cycle-accurate model of a five-stage RV32I core: every tick runs the
//! combinational logic of each unit and then latches the results.
//!
//! The machine is described twice. [`RV32ISystem`] is the machine that runs;
//! [`MachineState`] is the same machine as plain values, with the tick as a
//! function on it. Every method of the running machine is proved to do what
//! the function says, and the laws at the end of this file are proved of the
//! function.
//!
//! # Choices
//!
//! - One pipeline phase runs per tick, so an instruction takes five ticks.
//! - A misaligned load or store raises a trap, each with its own cause
//!   (4 for loads, 6 for stores). The trap saves the address after the
//!   instruction in `mepc` and the instruction word in `mtval`.
//! - A word with an unknown opcode is inert: it goes through the pipeline
//!   without any effect, and it retires.
//! - Four things stop the machine instead of raising a trap: a fetch from an
//!   address that is not a multiple of four, a load or store with a width
//!   that does not exist, a read of a control and status register that does
//!   not exist, and a write to a read-only one. [`RV32ISystem::cycle`] leaves
//!   these out by its precondition; [`RV32ISystem::try_cycle`] reports them
//!   as a [`Fault`] and leaves the machine as it is.
//! - The return strobe of the decode stage lasts one tick. A return from a
//!   trap does not flush the pipeline: the fetch after it goes to the saved
//!   program counter unless the execute stage still shows a jump or branch.
//! - The bus decodes an address by single bits, not by ranges, so addresses
//!   outside the two documented windows alias the devices.

pub mod csr;
pub mod pipeline;
pub mod ram;
pub mod system_interface;
pub mod trap;
pub mod utils;

use csr::{counter_succ, CSRInterface, CsrState};
use pipeline::decode::{
    decode_compute, decode_well_formed, DecodedInstruction, DecodedValue, InstructionDecode,
    InstructionDecodeParams,
};
use pipeline::execute::{
    execute_compute, execute_well_formed, redirect_of, ExecutionValue, InstructionExecute,
    InstructionExecuteParams,
};
use pipeline::fetch::{
    fetch_address, fetch_compute, fetch_redirect, InstructionFetch, InstructionFetchParams,
    InstructionValue,
};
use pipeline::memory_access::{
    check_instruction, memory_compute, memory_compute_bus, memory_compute_csr, memory_fault,
    memory_well_formed, InstructionMemoryAccess, InstructionMemoryAccessParams,
    MemoryAccessValue,
};
use pipeline::write_back::{write_back_compute, InstructionWriteBack, InstructionWriteBackParams};
use pipeline::{Fault, PipelineStage};
use system_interface::{BusState, RamDevice, RomDevice, SystemInterface};
use trap::{
    pending_trap, select_trap, PipelineTrapParams, TrapInterface, TrapParams, TrapState,
    TrapUnitState,
};
use utils::{LatchState, LatchValue};
use vstd::prelude::*;

verus! {

/// What the machine is doing: running one of the pipeline phases, or
/// handling a trap.
#[derive(PartialEq, Eq, Structural, Debug, Clone, Copy)]
pub enum CPUState {
    Pipeline(PipelineState),
    Trap,
}

/// The pipeline phases. One phase runs per tick.
#[derive(PartialEq, Eq, Structural, Debug, Clone, Copy)]
pub enum PipelineState {
    Fetch,
    Decode,
    Execute,
    MemoryAccess,
    WriteBack,
}

/// The 32 general registers. Register zero reads as zero whatever its cell
/// holds.
pub type RegisterFile = [u32; 32];

/// The phase after `phase`; after write-back the pipeline starts over.
pub open spec fn next_phase(phase: PipelineState) -> PipelineState {
    match phase {
        PipelineState::Fetch => PipelineState::Decode,
        PipelineState::Decode => PipelineState::Execute,
        PipelineState::Execute => PipelineState::MemoryAccess,
        PipelineState::MemoryAccess => PipelineState::WriteBack,
        PipelineState::WriteBack => PipelineState::Fetch,
    }
}

/// The whole machine as plain values.
pub struct MachineState {
    pub bus: BusState,
    pub csr: CsrState,
    pub trap: TrapUnitState,
    pub state: LatchState<CPUState>,
    pub reg_file: Seq<u32>,
    pub trap_stall: bool,
    pub mret: bool,
    pub stage_if: LatchState<InstructionValue>,
    pub stage_de: LatchState<DecodedValue>,
    pub stage_ex: LatchState<ExecutionValue>,
    pub stage_ma: LatchState<MemoryAccessValue>,
}

impl MachineState {
    /// A machine that was just created, but for the contents of its memory.
    pub open spec fn initial(bus: BusState) -> MachineState {
        MachineState {
            bus,
            csr: CsrState::initial(),
            trap: TrapUnitState::initial(),
            state: LatchState::holding(CPUState::Pipeline(PipelineState::Fetch)),
            reg_file: Seq::new(32, |i: int| 0u32),
            trap_stall: false,
            mret: false,
            stage_if: LatchState::holding(InstructionValue::initial()),
            stage_de: LatchState::holding(DecodedValue::initial()),
            stage_ex: LatchState::holding(ExecutionValue::initial()),
            stage_ma: LatchState::holding(MemoryAccessValue::initial()),
        }
    }

    /// What holds of every machine: the memories have their full size, there
    /// are 32 registers, the stages reset to their initial outputs, and every
    /// instruction in flight has five-bit register numbers.
    pub open spec fn well_formed(self) -> bool {
        &&& self.bus.sized()
        &&& self.reg_file.len() == 32
        &&& self.stage_if.default == InstructionValue::initial()
        &&& self.stage_de.default == DecodedValue::initial()
        &&& self.stage_ex.default == ExecutionValue::initial()
        &&& self.stage_ma.default == MemoryAccessValue::initial()
        &&& decode_well_formed(self.stage_de)
        &&& execute_well_formed(self.stage_ex)
        &&& memory_well_formed(self.stage_ma)
    }

    /// The trap request the controller takes up this tick, if a stage shows
    /// one.
    pub open spec fn requested_trap(self) -> Option<PipelineTrapParams> {
        pending_trap(self.stage_de.current.trap_params, self.stage_ma.current.trap_params)
    }

    /// Whether the pipeline stands still this tick: the machine is handling
    /// a trap, a stage shows a trap request, or the decode stage shows a
    /// return from a trap.
    pub open spec fn stalls_for_trap(self) -> bool {
        ||| self.state.current == CPUState::Trap
        ||| self.requested_trap() is Some
        ||| self.stage_de.current.return_from_trap
    }

    /// The machine after the tick's control decisions. When the pipeline has
    /// to stop, the machine is set to go to trap handling and the trap
    /// parameters are handed to the controller. When the controller hands
    /// control back, the machine is set to go to the fetch phase and the
    /// fetch stage is pointed at the address the controller publishes.
    pub open spec fn arbitrate(self) -> MachineState {
        let signalled = MachineState {
            mret: self.stage_de.current.return_from_trap,
            trap_stall: self.stalls_for_trap(),
            ..self
        };
        if self.stalls_for_trap() && self.state.current is Pipeline {
            MachineState {
                state: self.state.written(CPUState::Trap),
                trap: match self.requested_trap() {
                    Some(request) => TrapUnitState {
                        mcause: self.trap.mcause.written(request.mcause),
                        mepc: self.trap.mepc.written(request.mepc),
                        mtval: self.trap.mtval.written(request.mtval),
                        ..self.trap
                    },
                    None => self.trap,
                },
                ..signalled
            }
        } else if self.state.current == CPUState::Trap
            && self.trap.return_to_pipeline_mode.current {
            MachineState {
                state: self.state.written(CPUState::Pipeline(PipelineState::Fetch)),
                stage_if: if self.trap.set_pc.current {
                    fetch_redirect(self.stage_if, self.trap.pc_to_set.current)
                } else {
                    self.stage_if
                },
                ..signalled
            }
        } else {
            signalled
        }
    }

    /// The machine after the flush line has been served: when it is raised,
    /// every stage is back at its reset state.
    pub open spec fn flush(self) -> MachineState {
        if self.trap.flush.current {
            MachineState {
                stage_if: self.stage_if.cleared(),
                stage_de: self.stage_de.cleared(),
                stage_ex: self.stage_ex.cleared(),
                stage_ma: self.stage_ma.cleared(),
                ..self
            }
        } else {
            self
        }
    }

    /// Whether the stage of `phase` stands still this tick.
    pub open spec fn stalled(self, phase: PipelineState) -> bool {
        self.trap_stall || self.state.current != CPUState::Pipeline(phase)
    }

    /// Whether a stage shows a trap request.
    pub open spec fn begin_trap(self) -> bool {
        self.stage_de.current.trap_params.trap || self.stage_ma.current.trap_params.trap
    }

    /// The machine after every unit has done its combinational work, each on
    /// the visible outputs of the others.
    pub open spec fn run_units(self) -> MachineState {
        let csr_after_memory = memory_compute_csr(
            self.stalled(PipelineState::MemoryAccess),
            self.stage_ex.current,
            self.csr,
        );
        let csr_after_count = csr_after_memory.compute();
        MachineState {
            stage_if: fetch_compute(
                self.stage_if,
                self.stalled(PipelineState::Fetch),
                redirect_of(self.stage_ex.current.instruction),
                self.bus,
            ),
            stage_de: decode_compute(
                self.stage_de,
                self.stalled(PipelineState::Decode),
                self.stage_if.current,
                self.reg_file,
            ),
            stage_ex: execute_compute(
                self.stage_ex,
                self.stalled(PipelineState::Execute),
                self.stage_de.current,
            ),
            stage_ma: memory_compute(
                self.stage_ma,
                self.stalled(PipelineState::MemoryAccess),
                self.stage_ex.current,
                self.bus,
                self.csr,
            ),
            bus: memory_compute_bus(
                self.stalled(PipelineState::MemoryAccess),
                self.stage_ex.current,
                self.bus,
            ),
            reg_file: write_back_compute(
                self.reg_file,
                self.stalled(PipelineState::WriteBack),
                self.stage_ma.current,
            ),
            trap: self.trap.compute(
                csr_after_count,
                self.begin_trap(),
                self.stage_de.current.return_from_trap,
            ),
            csr: self.trap.compute_csr(
                csr_after_count,
                self.begin_trap(),
                self.stage_de.current.return_from_trap,
            ),
            ..self
        }
    }

    /// The machine after the phase has moved on. The phase stands still
    /// while the pipeline is stopped for a trap. When write-back hands over
    /// to fetch an instruction has retired, and the counter of retired
    /// instructions moves on.
    pub open spec fn advance(self) -> MachineState {
        if self.trap_stall {
            self
        } else {
            match self.state.current {
                CPUState::Pipeline(PipelineState::WriteBack) => MachineState {
                    state: self.state.written(CPUState::Pipeline(PipelineState::Fetch)),
                    csr: CsrState {
                        instret: self.csr.instret.written(
                            counter_succ(self.csr.instret.current),
                        ),
                        ..self.csr
                    },
                    ..self
                },
                CPUState::Pipeline(phase) => MachineState {
                    state: self.state.written(CPUState::Pipeline(next_phase(phase))),
                    ..self
                },
                CPUState::Trap => MachineState {
                    state: self.state.written(CPUState::Trap),
                    ..self
                },
            }
        }
    }

    /// The machine after the combinational half of a tick.
    pub open spec fn compute(self) -> MachineState {
        self.arbitrate().flush().run_units().advance()
    }

    /// The machine after the latching half of a tick: every pending value is
    /// visible.
    pub open spec fn latch_next(self) -> MachineState {
        MachineState {
            stage_if: self.stage_if.latched(),
            stage_de: self.stage_de.latched(),
            stage_ex: self.stage_ex.latched(),
            stage_ma: self.stage_ma.latched(),
            csr: self.csr.latch_next(),
            trap: self.trap.latch_next(),
            state: self.state.latched(),
            ..self
        }
    }

    /// The machine one tick later.
    pub open spec fn step(self) -> MachineState {
        self.compute().latch_next()
    }

    /// The reason, if there is one, why the machine cannot run this tick:
    /// the fetch stage is due and its address is not a multiple of four, or
    /// the memory stage is due and cannot handle its instruction.
    pub open spec fn fault(self) -> Option<Fault> {
        let ready = self.arbitrate().flush();
        let address = fetch_address(ready.stage_if, redirect_of(ready.stage_ex.current.instruction));
        if !ready.stalled(PipelineState::Fetch) && address & 0b11 != 0 {
            Some(Fault::UnalignedFetch(address))
        } else if !ready.stalled(PipelineState::MemoryAccess) {
            memory_fault(ready.stage_ex.current.instruction)
        } else {
            None
        }
    }
}

/// Whether the machine runs the pipeline phase `phase`.
pub fn is_phase(state: CPUState, phase: PipelineState) -> (same: bool)
    ensures
        same == (state == CPUState::Pipeline(phase)),
{
    state == CPUState::Pipeline(phase)
}

/// The simulated machine: memory, registers, the five stages and the trap
/// controller.
pub struct RV32ISystem {
    pub bus: SystemInterface,
    pub csr: CSRInterface,
    pub trap: TrapInterface,
    pub state: LatchValue<CPUState>,
    pub reg_file: RegisterFile,
    /// A combinational signal, not a register: the pipeline stands still.
    pub trap_stall: bool,
    /// A combinational signal, not a register: the decode stage shows a
    /// return from a trap.
    pub mret: bool,
    pub stage_if: InstructionFetch,
    pub stage_de: InstructionDecode,
    pub stage_ex: InstructionExecute,
    pub stage_ma: InstructionMemoryAccess,
    pub stage_wb: InstructionWriteBack,
}

impl View for RV32ISystem {
    type V = MachineState;

    open spec fn view(&self) -> MachineState {
        MachineState {
            bus: self.bus@,
            csr: self.csr@,
            trap: self.trap@,
            state: self.state@,
            reg_file: self.reg_file@,
            trap_stall: self.trap_stall,
            mret: self.mret,
            stage_if: self.stage_if@,
            stage_de: self.stage_de@,
            stage_ex: self.stage_ex@,
            stage_ma: self.stage_ma@,
        }
    }
}

impl Default for RV32ISystem {
    fn default() -> (system: Self)
        ensures
            system@ == MachineState::initial(system.bus@),
            system.bus.rom@ == system_interface::rom::loaded_image(Seq::empty()),
            system.bus.ram@ == system_interface::ram::fresh_image(),
            system@.well_formed(),
    {
        Self::new()
    }
}

impl RV32ISystem {
    /// A machine with erased program memory, fresh data memory, cleared
    /// registers, and the pipeline about to fetch from the start of the
    /// program store.
    pub fn new() -> (system: Self)
        ensures
            system@ == MachineState::initial(system.bus@),
            system.bus.rom@ == system_interface::rom::loaded_image(Seq::empty()),
            system.bus.ram@ == system_interface::ram::fresh_image(),
            system@.well_formed(),
    {
        let rom = RomDevice::new();
        let ram = RamDevice::new();

        let system = Self {
            bus: SystemInterface::new(rom, ram),
            csr: CSRInterface::new(),
            trap: TrapInterface::new(),
            state: LatchValue::new(CPUState::Pipeline(PipelineState::Fetch)),
            reg_file: [0u32;32],
            trap_stall: false,
            mret: false,
            stage_if: InstructionFetch::new(),
            stage_de: InstructionDecode::new(),
            stage_ex: InstructionExecute::new(),
            stage_ma: InstructionMemoryAccess::new(),
            stage_wb: InstructionWriteBack::new(),
        };
        assert(system.reg_file@ =~= Seq::new(32, |i: int| 0u32));
        system
    }

    /// The combinational half of a tick: the control decisions, the flush,
    /// the work of every unit, and the move to the next phase.
    pub fn compute(&mut self)
        requires
            old(self)@.well_formed(),
            old(self)@.fault() is None,
        ensures
            final(self)@ == old(self)@.compute(),
            final(self)@.well_formed(),
    {
        let dec_values = self.stage_de.get_decoded_instruction_out();
        let mem_values = self.stage_ma.get_memory_access_value_out();

        self.mret = dec_values.return_from_trap;

        // prefer traps later in the pipeline
        let trap_params = select_trap(dec_values.trap_params, mem_values.trap_params);
        let state = *self.state.get();
        let in_trap = match state {
            CPUState::Trap => true,
            CPUState::Pipeline(_) => false,
        };
        self.trap_stall = in_trap || trap_params.is_some() || self.mret;

        if self.trap_stall && !in_trap {
            self.state.set(CPUState::Trap);

            if let Some(trap_params) = trap_params {
                self.trap.mcause.set(trap_params.mcause);
                self.trap.mepc.set(trap_params.mepc);
                self.trap.mtval.set(trap_params.mtval);
            }
        } else if in_trap && *self.trap.return_to_pipeline_mode.get() {
            self.state.set(CPUState::Pipeline(PipelineState::Fetch));
            if *self.trap.set_pc.get() {
                self.stage_if.redirect(*self.trap.pc_to_set.get());
            }
        }
        assert(self@ == old(self)@.arbitrate());

        if *self.trap.flush.get() {
            self.stage_if.reset();
            self.stage_de.reset();
            self.stage_ex.reset();
            self.stage_ma.reset();
            self.stage_wb.reset();
        }
        assert(self@ == old(self)@.arbitrate().flush());
        let ghost ready = self@;

        let stall_if = self.trap_stall || !is_phase(state, PipelineState::Fetch);
        let stall_de = self.trap_stall || !is_phase(state, PipelineState::Decode);
        let stall_ex = self.trap_stall || !is_phase(state, PipelineState::Execute);
        let stall_ma = self.trap_stall || !is_phase(state, PipelineState::MemoryAccess);
        let stall_wb = self.trap_stall || !is_phase(state, PipelineState::WriteBack);

        let executed = self.stage_ex.get_execution_value_out();
        self.stage_if.compute(
            InstructionFetchParams {
                should_stall: stall_if,
                branch_address: match executed.instruction {
                    DecodedInstruction::Jal { branch_address, .. } => Some(branch_address),
                    DecodedInstruction::Branch { branch_address, .. } => Some(branch_address),
                    _ => None,
                },
                bus: &self.bus,
            },
        );
        self.stage_de.compute(
            InstructionDecodeParams {
                should_stall: stall_de,
                instruction_in: self.stage_if.get_instruction_value_out(),
                reg_file: &self.reg_file,
            },
        );
        self.stage_ex.compute(
            InstructionExecuteParams {
                should_stall: stall_ex,
                decoded_instruction_in: self.stage_de.get_decoded_instruction_out(),
            },
        );
        self.stage_ma.compute(
            InstructionMemoryAccessParams {
                should_stall: stall_ma,
                execution_value_in: self.stage_ex.get_execution_value_out(),
                bus: &mut self.bus,
                csr: &mut self.csr,
            },
        );
        self.stage_wb.compute(
            InstructionWriteBackParams {
                should_stall: stall_wb,
                memory_access_value_in: self.stage_ma.get_memory_access_value_out(),
                reg_file: &mut self.reg_file,
            },
        );
        self.csr.compute();
        let begin_trap = self.stage_de.get_decoded_instruction_out().trap_params.trap
            || self.stage_ma.get_memory_access_value_out().trap_params.trap;
        let begin_trap_return = self.stage_de.get_decoded_instruction_out().return_from_trap;
        self.trap.compute(TrapParams { csr: &mut self.csr, begin_trap, begin_trap_return });
        assert(self@ == ready.run_units());
        proof {
            lemma_units_keep_sizes(ready);
        }

        if !self.trap_stall {
            let next = match state {
                CPUState::Pipeline(PipelineState::Fetch) => CPUState::Pipeline(
                    PipelineState::Decode,
                ),
                CPUState::Pipeline(PipelineState::Decode) => CPUState::Pipeline(
                    PipelineState::Execute,
                ),
                CPUState::Pipeline(PipelineState::Execute) => CPUState::Pipeline(
                    PipelineState::MemoryAccess,
                ),
                CPUState::Pipeline(PipelineState::MemoryAccess) => CPUState::Pipeline(
                    PipelineState::WriteBack,
                ),
                CPUState::Pipeline(PipelineState::WriteBack) => {
                    let retired = *self.csr.instret.get();
                    self.csr.instret.set(retired.wrapping_add(1));
                    CPUState::Pipeline(PipelineState::Fetch)
                },
                CPUState::Trap => state,
            };
            self.state.set(next);
        }
    }

    /// The latching half of a tick: every pending value becomes visible.
    pub fn latch_next(&mut self)
        ensures
            final(self)@ == old(self)@.latch_next(),
            old(self)@.well_formed() ==> final(self)@.well_formed(),
    {
        self.stage_if.latch_next();
        self.stage_de.latch_next();
        self.stage_ex.latch_next();
        self.stage_ma.latch_next();
        self.stage_wb.latch_next();
        self.csr.latch_next();
        self.trap.latch_next();
        self.state.latch_next();
    }

    /// One tick of the clock. The cycle counter moves on by one, whatever
    /// the machine is doing. While the pipeline does not stand still for a
    /// trap, the machine moves to the next phase, and the counter of retired
    /// instructions moves on exactly when write-back hands over to fetch.
    pub fn cycle(&mut self)
        requires
            old(self)@.well_formed(),
            old(self)@.fault() is None,
        ensures
            final(self)@ == old(self)@.step(),
            final(self)@.well_formed(),
            ({
                let before = old(self)@;
                let after = final(self)@;
                let free = before.state.current is Pipeline && !before.stalls_for_trap();
                &&& after.csr.cycles.current == counter_succ(before.csr.cycles.current)
                &&& before.csr.cycles.current < u64::MAX ==> after.csr.cycles.current
                    == before.csr.cycles.current + 1
                &&& free ==> after.state.current == CPUState::Pipeline(
                    next_phase(before.state.current->0),
                )
                &&& free && before.state.current == CPUState::Pipeline(PipelineState::WriteBack)
                    ==> after.csr.instret.current == counter_succ(before.csr.instret.current)
                &&& free && before.state.current != CPUState::Pipeline(PipelineState::WriteBack)
                    ==> after.csr.instret.current == before.csr.instret.next
            }),
            final(self)@.csr.instret.next == final(self)@.csr.instret.current,
    {
        proof {
            lemma_cycle_counter(old(self)@);
            if old(self)@.state.current is Pipeline && !old(self)@.stalls_for_trap() {
                lemma_free_tick(old(self)@, old(self)@.state.current->0);
            }
        }
        self.compute();
        self.latch_next();
    }

    /// Tells whether the machine can run this tick, and if not, why.
    pub fn check(&self) -> (result: Result<(), Fault>)
        requires
            self@.well_formed(),
        ensures
            match self@.fault() {
                Some(fault) => result == Err::<(), Fault>(fault),
                None => result == Ok::<(), Fault>(()),
            },
    {
        let dec_values = self.stage_de.get_decoded_instruction_out();
        let mem_values = self.stage_ma.get_memory_access_value_out();
        let trap_params = select_trap(dec_values.trap_params, mem_values.trap_params);
        if trap_params.is_some() || dec_values.return_from_trap || *self.trap.flush.get() {
            assert(system_interface::PROGRAM_ROM_START & 0b11 == 0) by (bit_vector);
            return Ok(());
        }
        let executed = self.stage_ex.get_execution_value_out();
        match *self.state.get() {
            CPUState::Pipeline(PipelineState::Fetch) => {
                let address = match executed.instruction {
                    DecodedInstruction::Jal { branch_address, .. } => branch_address,
                    DecodedInstruction::Branch { branch_address, .. } => branch_address,
                    _ => self.stage_if.get_instruction_value_out().pc_plus_4,
                };
                if address & 0b11 != 0 {
                    Err(Fault::UnalignedFetch(address))
                } else {
                    Ok(())
                }
            },
            CPUState::Pipeline(PipelineState::MemoryAccess) => check_instruction(
                &executed.instruction,
            ),
            _ => Ok(()),
        }
    }

    /// One tick of the clock, if the machine can run it. Where it cannot,
    /// the machine is left as it is and the reason is returned.
    pub fn try_cycle(&mut self) -> (result: Result<(), Fault>)
        requires
            old(self)@.well_formed(),
        ensures
            match old(self)@.fault() {
                Some(fault) => result == Err::<(), Fault>(fault) && final(self)@ == old(self)@,
                None => result == Ok::<(), Fault>(()) && final(self)@ == old(self)@.step(),
            },
            final(self)@.well_formed(),
    {
        match self.check() {
            Ok(_) => {
                self.cycle();
                Ok(())
            },
            Err(fault) => Err(fault),
        }
    }

    /// The address of the instruction the fetch stage shows.
    pub fn current_line(&self) -> (pc: u32)
        ensures
            pc == self@.stage_if.current.pc,
    {
        self.stage_if.get_instruction_value_out().pc
    }
}

impl MachineState {
    /// The machine `ticks` ticks later.
    pub open spec fn after(self, ticks: nat) -> MachineState
        decreases ticks,
    {
        if ticks == 0 {
            self
        } else {
            self.after((ticks - 1) as nat).step()
        }
    }
}

/// A tick on which the pipeline does not stand still moves the machine to
/// the next phase, and the counter of retired instructions moves on exactly
/// when write-back hands over to fetch.
pub proof fn lemma_free_tick(machine: MachineState, phase: PipelineState)
    requires
        machine.state.current == CPUState::Pipeline(phase),
        !machine.stalls_for_trap(),
    ensures
        machine.step().state.current == CPUState::Pipeline(next_phase(phase)),
        machine.step().csr.instret.current == if phase == PipelineState::WriteBack {
            counter_succ(machine.csr.instret.current)
        } else {
            machine.csr.instret.next
        },
        machine.step().csr.instret.next == machine.step().csr.instret.current,
{
}

/// While no trap is raised and no return from a trap is decoded, an
/// instruction takes exactly five ticks: from the fetch phase the machine
/// goes through decode, execute, memory access and write-back, one phase per
/// tick, and is back in the fetch phase after the fifth. The counter of
/// retired instructions moves on by one with the fifth tick and not before.
pub proof fn lemma_five_ticks_per_instruction(machine: MachineState)
    requires
        machine.state.current == CPUState::Pipeline(PipelineState::Fetch),
        !machine.after(0).stalls_for_trap(),
        !machine.after(1).stalls_for_trap(),
        !machine.after(2).stalls_for_trap(),
        !machine.after(3).stalls_for_trap(),
        !machine.after(4).stalls_for_trap(),
    ensures
        machine.after(1).state.current == CPUState::Pipeline(PipelineState::Decode),
        machine.after(2).state.current == CPUState::Pipeline(PipelineState::Execute),
        machine.after(3).state.current == CPUState::Pipeline(PipelineState::MemoryAccess),
        machine.after(4).state.current == CPUState::Pipeline(PipelineState::WriteBack),
        machine.after(5).state.current == CPUState::Pipeline(PipelineState::Fetch),
        machine.after(1).csr.instret.current == machine.csr.instret.next,
        machine.after(2).csr.instret.current == machine.csr.instret.next,
        machine.after(3).csr.instret.current == machine.csr.instret.next,
        machine.after(4).csr.instret.current == machine.csr.instret.next,
        machine.after(5).csr.instret.current == counter_succ(machine.csr.instret.next),
{
    reveal_with_fuel(MachineState::after, 6);
    lemma_free_tick(machine.after(0), PipelineState::Fetch);
    lemma_free_tick(machine.after(1), PipelineState::Decode);
    lemma_free_tick(machine.after(2), PipelineState::Execute);
    lemma_free_tick(machine.after(3), PipelineState::MemoryAccess);
    lemma_free_tick(machine.after(4), PipelineState::WriteBack);
}

/// Every tick moves the cycle counter on by one, trap or no trap.
pub proof fn lemma_cycle_counter(machine: MachineState)
    ensures
        machine.step().csr.cycles.current == counter_succ(machine.csr.cycles.current),
{
}

/// The cycle counter after any number of ticks, as long as it does not
/// wrap: it has moved on by that number.
pub proof fn lemma_cycle_counter_after(machine: MachineState, ticks: nat)
    requires
        machine.csr.cycles.current + ticks <= u64::MAX,
    ensures
        machine.after(ticks).csr.cycles.current == machine.csr.cycles.current + ticks,
    decreases ticks,
{
    if ticks > 0 {
        lemma_cycle_counter_after(machine, (ticks - 1) as nat);
        lemma_cycle_counter(machine.after((ticks - 1) as nat));
    }
}

/// While the pipeline stands still for a trap no phase makes progress and
/// nothing retires: a running machine goes to trap handling, a machine that
/// handles a trap goes back to the fetch phase once the controller hands
/// over, and the register file, the memory and the counter of retired
/// instructions stay as they are.
pub proof fn lemma_stalled_tick(machine: MachineState)
    requires
        machine.stalls_for_trap(),
    ensures
        machine.state.current is Pipeline ==> machine.step().state.current == CPUState::Trap,
        machine.state.current is Trap && machine.trap.return_to_pipeline_mode.current
            ==> machine.step().state.current == CPUState::Pipeline(PipelineState::Fetch),
        machine.step().reg_file == machine.reg_file,
        machine.step().bus == machine.bus,
        machine.step().csr.instret.current == machine.csr.instret.next,
        machine.step().csr.instret.next == machine.csr.instret.next,
{
}

/// On a tick on which the pipeline stands still and the flush line is low,
/// no stage does any work: after the tick each stage shows what it had
/// pending before, which is what it showed before in a machine that has
/// latched. There are two exceptions. The decode stage lowers its return
/// strobe, so that the strobe lasts one tick; and on the tick on which the
/// trap controller hands control back, the fetch stage is pointed at the
/// address the controller publishes.
pub proof fn lemma_stalled_tick_outputs(machine: MachineState)
    requires
        machine.stalls_for_trap(),
        !machine.trap.flush.current,
    ensures
        machine.step().stage_ex.current == machine.stage_ex.next,
        machine.step().stage_ma.current == machine.stage_ma.next,
        machine.step().stage_de.current == (DecodedValue {
            return_from_trap: false,
            ..machine.stage_de.next
        }),
        !(machine.state.current is Trap && machine.trap.return_to_pipeline_mode.current
            && machine.trap.set_pc.current) ==> machine.step().stage_if.current
            == machine.stage_if.next,
        machine.state.current is Trap && machine.trap.return_to_pipeline_mode.current
            && machine.trap.set_pc.current ==> machine.step().stage_if.current
            == fetch_redirect(machine.stage_if, machine.trap.pc_to_set.current).next,
{
}

/// When the decode stage and the memory stage both raise a trap while the
/// pipeline runs, the machine goes to trap handling and the controller has
/// the parameters of the memory stage after the tick.
pub proof fn lemma_trap_priority(machine: MachineState)
    requires
        machine.state.current is Pipeline,
        machine.stage_de.current.trap_params.trap,
        machine.stage_ma.current.trap_params.trap,
    ensures
        machine.step().state.current == CPUState::Trap,
        machine.step().trap.mcause.current == machine.stage_ma.current.trap_params.mcause,
        machine.step().trap.mepc.current == machine.stage_ma.current.trap_params.mepc,
        machine.step().trap.mtval.current == machine.stage_ma.current.trap_params.mtval,
{
}

/// A trap request of the memory stage alone is served as well, and one of
/// the decode stage where the memory stage raises none.
pub proof fn lemma_trap_is_taken(machine: MachineState)
    requires
        machine.state.current is Pipeline,
        machine.requested_trap() is Some,
    ensures
        machine.step().state.current == CPUState::Trap,
        machine.step().trap.mcause.current == machine.requested_trap()->0.mcause,
        machine.step().trap.mepc.current == machine.requested_trap()->0.mepc,
        machine.step().trap.mtval.current == machine.requested_trap()->0.mtval,
{
}

/// The work of the units changes neither the size of a memory nor the number
/// of registers.
pub proof fn lemma_units_keep_sizes(machine: MachineState)
    requires
        machine.bus.sized(),
        machine.reg_file.len() == 32,
        machine.stage_ma.current.instruction.well_formed(),
    ensures
        machine.run_units().bus.sized(),
        machine.run_units().reg_file.len() == 32,
{
    match machine.stage_ex.current.instruction {
        DecodedInstruction::Store { imm32, rs1, .. } => {
            system_interface::lemma_window_decoding(
                pipeline::memory_access::effective_address(rs1, imm32),
            );
        },
        _ => {},
    }
}

/// The combinational half of a tick changes no visible output of a latch:
/// unless the flush line is raised, every stage, the trap controller, the
/// phase and the counters show after it what they showed before it. What it
/// writes becomes visible with the latch.
pub proof fn lemma_compute_keeps_visible_outputs(machine: MachineState)
    requires
        !machine.trap.flush.current,
    ensures
        machine.compute().stage_if.current == machine.stage_if.current,
        machine.compute().stage_de.current == machine.stage_de.current,
        machine.compute().stage_ex.current == machine.stage_ex.current,
        machine.compute().stage_ma.current == machine.stage_ma.current,
        machine.compute().state.current == machine.state.current,
        machine.compute().csr.cycles.current == machine.csr.cycles.current,
        machine.compute().csr.instret.current == machine.csr.instret.current,
        machine.compute().trap.state.current == machine.trap.state.current,
        machine.compute().trap.mepc.current == machine.trap.mepc.current,
        machine.compute().trap.mcause.current == machine.trap.mcause.current,
        machine.compute().trap.mtval.current == machine.trap.mtval.current,
        machine.compute().trap.return_to_pipeline_mode.current
            == machine.trap.return_to_pipeline_mode.current,
        machine.compute().trap.set_pc.current == machine.trap.set_pc.current,
        machine.compute().trap.pc_to_set.current == machine.trap.pc_to_set.current,
        machine.compute().trap.flush.current == machine.trap.flush.current,
{
}

/// No tick changes the program store, and no tick changes the cell of
/// register zero.
pub proof fn lemma_step_keeps_rom_and_register_zero(machine: MachineState)
    requires
        machine.well_formed(),
    ensures
        machine.step().bus.rom == machine.bus.rom,
        machine.step().reg_file[0] == machine.reg_file[0],
        machine.step().well_formed(),
{
    let ready = machine.arbitrate().flush();
    lemma_units_keep_sizes(ready);
    pipeline::decode::lemma_decode_well_formed(
        ready.stage_if.current.raw_instruction,
        ready.stage_if.current.pc,
        ready.reg_file,
    );
}

/// What the fetch stage shows after a fetch from `address`.
pub open spec fn fetched(bus: BusState, address: u32) -> InstructionValue {
    InstructionValue {
        pc: address,
        pc_plus_4: address.wrapping_add(4),
        raw_instruction: bus.word_at(address),
    }
}

/// What the decode stage shows after decoding `input`.
pub open spec fn decoded(input: InstructionValue, registers: Seq<u32>) -> DecodedValue {
    DecodedValue {
        instruction: pipeline::decode::decode(input.raw_instruction, input.pc, registers),
        raw_instruction: input.raw_instruction,
        pc: input.pc,
        pc_plus_4: input.pc_plus_4,
        return_from_trap: pipeline::decode::is_trap_return(input.raw_instruction),
        trap_params: PipelineTrapParams::quiet(),
    }
}

/// What the memory stage shows after handling `input`, where `pending` is the
/// write-back value that was pending before.
pub open spec fn accessed(input: ExecutionValue, bus: BusState, csr: CsrState, pending: u32)
    -> MemoryAccessValue {
    MemoryAccessValue {
        write_back_value: pipeline::memory_access::memory_write_back_value(
            input,
            bus,
            csr,
            pending,
        ),
        pc: input.pc,
        pc_plus_4: input.pc_plus_4,
        instruction: input.instruction,
        raw_instruction: input.raw_instruction,
        trap_params: pipeline::memory_access::memory_trap_request(input, bus),
    }
}

/// One tick in a pipeline phase, with no trap in sight and the flush line
/// low: the stage of that phase takes the visible output of the stage before
/// it and shows the result after the tick. The other stages keep what they
/// show, the register file changes only in the write-back phase, and the
/// memory only in the memory phase. While the trap controller is idle, the
/// control and status registers change only by the instruction in the memory
/// phase and by the count of the cycle.
pub proof fn lemma_phase_tick(machine: MachineState)
    requires
        machine.state.current is Pipeline,
        !machine.stalls_for_trap(),
        !machine.trap.flush.current,
    ensures
        !machine.step().trap.flush.current,
        machine.state.current == CPUState::Pipeline(PipelineState::Fetch)
            ==> machine.step().stage_if.current == fetched(
            machine.bus,
            fetch_address(machine.stage_if, redirect_of(machine.stage_ex.current.instruction)),
        ),
        machine.state.current != CPUState::Pipeline(PipelineState::Fetch)
            ==> machine.step().stage_if.current == machine.stage_if.next,
        machine.state.current == CPUState::Pipeline(PipelineState::Decode)
            ==> machine.step().stage_de.current == decoded(
            machine.stage_if.current,
            machine.reg_file,
        ),
        machine.state.current == CPUState::Pipeline(PipelineState::Execute)
            ==> machine.step().stage_ex.current == pipeline::execute::execute(
            machine.stage_de.current,
        ),
        machine.state.current != CPUState::Pipeline(PipelineState::Execute)
            ==> machine.step().stage_ex.current == machine.stage_ex.next,
        machine.state.current == CPUState::Pipeline(PipelineState::MemoryAccess)
            ==> machine.step().stage_ma.current == accessed(
            machine.stage_ex.current,
            machine.bus,
            machine.csr,
            machine.stage_ma.next.write_back_value,
        ) && machine.step().bus == memory_compute_bus(
            false,
            machine.stage_ex.current,
            machine.bus,
        ),
        machine.state.current == CPUState::Pipeline(PipelineState::MemoryAccess)
            && machine.trap.state.current == TrapState::Idle ==> machine.step().csr
            == memory_compute_csr(
            false,
            machine.stage_ex.current,
            machine.csr,
        ).compute().latch_next(),
        machine.state.current != CPUState::Pipeline(PipelineState::MemoryAccess)
            ==> machine.step().stage_ma.current == machine.stage_ma.next && machine.step().bus
            == machine.bus,
        machine.state.current == CPUState::Pipeline(PipelineState::WriteBack)
            ==> machine.step().reg_file == pipeline::write_back::write_back(
            machine.reg_file,
            machine.stage_ma.current,
        ),
        machine.state.current != CPUState::Pipeline(PipelineState::WriteBack)
            ==> machine.step().reg_file == machine.reg_file,
        machine.step().stage_if.next == machine.step().stage_if.current,
        machine.step().stage_ex.next == machine.step().stage_ex.current,
        machine.step().stage_ma.next == machine.step().stage_ma.current,
{
}

/// An instruction on its way through the pipeline, while no trap is raised,
/// no return from a trap is decoded, and the flush line is low: the word
/// fetched in the first tick is decoded in the second, executed in the third,
/// gets its memory access in the fourth and is written back in the fifth.
/// Each stage works on what the stage before it showed, and nothing else
/// changes the register file or the memory on the way.
pub proof fn lemma_instruction_through_the_pipeline(machine: MachineState)
    requires
        machine.state.current == CPUState::Pipeline(PipelineState::Fetch),
        !machine.trap.flush.current,
        !machine.after(0).stalls_for_trap(),
        !machine.after(1).stalls_for_trap(),
        !machine.after(2).stalls_for_trap(),
        !machine.after(3).stalls_for_trap(),
        !machine.after(4).stalls_for_trap(),
    ensures
        machine.after(1).stage_if.current == fetched(
            machine.bus,
            fetch_address(machine.stage_if, redirect_of(machine.stage_ex.current.instruction)),
        ),
        machine.after(2).stage_de.current == decoded(
            machine.after(1).stage_if.current,
            machine.reg_file,
        ),
        machine.after(3).stage_ex.current == pipeline::execute::execute(
            machine.after(2).stage_de.current,
        ),
        machine.after(3).bus == machine.bus,
        machine.after(4).stage_ma.current == accessed(
            machine.after(3).stage_ex.current,
            machine.bus,
            machine.after(3).csr,
            machine.stage_ma.next.write_back_value,
        ),
        machine.after(5).bus == memory_compute_bus(
            false,
            machine.after(3).stage_ex.current,
            machine.bus,
        ),
        machine.after(4).reg_file == machine.reg_file,
        machine.after(5).reg_file == pipeline::write_back::write_back(
            machine.reg_file,
            machine.after(4).stage_ma.current,
        ),
        machine.after(5).stage_if.current == machine.after(1).stage_if.current,
        machine.after(5).stage_ex.current == machine.after(3).stage_ex.current,
{
    reveal_with_fuel(MachineState::after, 6);
    lemma_free_tick(machine.after(0), PipelineState::Fetch);
    lemma_free_tick(machine.after(1), PipelineState::Decode);
    lemma_free_tick(machine.after(2), PipelineState::Execute);
    lemma_free_tick(machine.after(3), PipelineState::MemoryAccess);
    lemma_free_tick(machine.after(4), PipelineState::WriteBack);
    lemma_phase_tick(machine.after(0));
    lemma_phase_tick(machine.after(1));
    lemma_phase_tick(machine.after(2));
    lemma_phase_tick(machine.after(3));
    lemma_phase_tick(machine.after(4));
}

/// Taking a trap. When a stage shows a trap request while the pipeline runs,
/// the flush line is low and the trap controller is not about to hand
/// control back, the machine needs three ticks: the first hands
/// the request to the trap controller and stops the pipeline, the second
/// flushes the stages, stores the trap parameters in `mepc`, `mcause` and
/// `mtval` and saves the interrupt enable, and the third points the fetch
/// stage at the handler and returns to the fetch phase. Nothing retires on
/// the way, and the register file and the memory stay as they are.
pub proof fn lemma_trap_entry(machine: MachineState)
    requires
        machine.well_formed(),
        machine.state.current is Pipeline,
        machine.requested_trap() is Some,
        !machine.trap.flush.current,
        !machine.trap.return_to_pipeline_mode.next,
    ensures
        machine.after(1).state.current == CPUState::Trap,
        machine.after(1).trap.state.current == TrapState::SetCSRJump,
        machine.after(1).trap.flush.current,
        machine.after(2).state.current == CPUState::Trap,
        machine.after(2).stage_if.current == InstructionValue::initial(),
        machine.after(2).stage_de.current == DecodedValue::initial(),
        machine.after(2).stage_ex.current == ExecutionValue::initial(),
        machine.after(2).stage_ma.current == MemoryAccessValue::initial(),
        machine.after(2).csr.mepc == machine.requested_trap()->0.mepc,
        machine.after(2).csr.mcause == machine.requested_trap()->0.mcause,
        machine.after(2).csr.mtval == machine.requested_trap()->0.mtval,
        machine.after(2).csr.mstatus == trap::mstatus_on_entry(machine.csr.mstatus),
        machine.after(3).state.current == CPUState::Pipeline(PipelineState::Fetch),
        machine.after(3).trap.state.current == TrapState::Idle,
        !machine.after(3).trap.flush.current,
        !machine.after(3).stalls_for_trap(),
        fetch_address(
            machine.after(3).stage_if,
            redirect_of(machine.after(3).stage_ex.current.instruction),
        ) == trap::handler_address(machine.csr.mtvec, machine.requested_trap()->0.mcause),
        machine.after(3).reg_file == machine.reg_file,
        machine.after(3).bus == machine.bus,
        machine.after(3).csr.instret.current == machine.csr.instret.next,
{
    reveal_with_fuel(MachineState::after, 4);
    let taken = machine.after(1);
    let entered = machine.after(2);
    assert(taken.state.current == CPUState::Trap);
    assert(taken.trap.flush.current);
    assert(taken.trap.state.current == TrapState::SetCSRJump);
    assert(taken.csr.mtvec == machine.csr.mtvec);
    assert(entered.trap.return_to_pipeline_mode.current);
    assert(entered.trap.set_pc.current);
    assert(entered.state.current == CPUState::Trap);
}

/// Returning from a trap. When the decode stage shows a return from a trap
/// while the pipeline runs, no stage raises a trap, the flush line is low and
/// the trap controller is not about to hand control back, the machine needs
/// four ticks: the first stops the pipeline and hands
/// the request to the trap controller, the second restores the interrupt
/// enable and publishes the saved program counter, the third hands control
/// back, and the fourth points the fetch stage at the saved program counter
/// and returns to the fetch phase. Nothing retires on the way, and the
/// register file and the memory stay as they are.
pub proof fn lemma_trap_return(machine: MachineState)
    requires
        machine.state.current is Pipeline,
        machine.stage_de.current.return_from_trap,
        machine.requested_trap() is None,
        !machine.stage_de.next.trap_params.trap,
        !machine.stage_ma.next.trap_params.trap,
        !machine.trap.flush.current,
        !machine.trap.return_to_pipeline_mode.next,
    ensures
        machine.after(1).state.current == CPUState::Trap,
        machine.after(1).trap.state.current == TrapState::ReturnFromTrap,
        !machine.after(1).stage_de.current.return_from_trap,
        machine.after(2).trap.state.current == TrapState::SetPc,
        machine.after(2).csr.mstatus == trap::mstatus_on_return(machine.csr.mstatus),
        machine.after(3).trap.state.current == TrapState::Idle,
        machine.after(3).state.current == CPUState::Trap,
        machine.after(4).state.current == CPUState::Pipeline(PipelineState::Fetch),
        !machine.after(4).stalls_for_trap(),
        machine.after(4).stage_if.current.pc_plus_4 == machine.csr.mepc,
        machine.after(4).csr.mepc == machine.csr.mepc,
        machine.after(4).stage_ex.current == machine.stage_ex.next,
        machine.after(4).reg_file == machine.reg_file,
        machine.after(4).bus == machine.bus,
        machine.after(4).csr.instret.current == machine.csr.instret.next,
{
    reveal_with_fuel(MachineState::after, 5);
    let stopped = machine.after(1);
    let restored = machine.after(2);
    let handed = machine.after(3);
    assert(stopped.state.current == CPUState::Trap);
    assert(stopped.trap.state.current == TrapState::ReturnFromTrap);
    assert(!stopped.stage_de.current.return_from_trap);
    assert(!stopped.begin_trap());
    assert(!stopped.trap.flush.current);
    assert(stopped.csr.mepc == machine.csr.mepc);
    assert(restored.trap.state.current == TrapState::SetPc);
    assert(restored.trap.pc_to_set.current == machine.csr.mepc);
    assert(restored.state.current == CPUState::Trap);
    assert(!restored.begin_trap());
    assert(!restored.stage_de.current.return_from_trap);
    assert(handed.trap.return_to_pipeline_mode.current);
    assert(handed.trap.set_pc.current);
    assert(handed.trap.pc_to_set.current == machine.csr.mepc);
    assert(handed.state.current == CPUState::Trap);
}

} // verus!
