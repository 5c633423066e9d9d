//! The trap controller: the state machine that enters a trap handler and
//! returns from it.

use crate::csr::{CSRInterface, CsrState};
use crate::utils::{LatchState, LatchValue};
use vstd::prelude::*;

verus! {

pub const MCAUSE_USER_SOFTWARE_INTERRUPT: u32 = 0x8000_0000;

pub const MCAUSE_SUPERVISOR_SOFTWARE_INTERRUPT: u32 = 0x8000_0001;

pub const MCAUSE_RESERVED_0: u32 = 0x8000_0002;

pub const MCAUSE_MACHINE_SOFTWARE_INTERRUPT: u32 = 0x8000_0003;

pub const MCAUSE_USER_TIMER_INTERRUPT: u32 = 0x8000_0004;

pub const MCAUSE_SUPERVISOR_TIMER_INTERRUPT: u32 = 0x8000_0005;

pub const MCAUSE_RESERVED_1: u32 = 0x8000_0006;

pub const MCAUSE_MACHINE_TIMER_INTERRUPT: u32 = 0x8000_0007;

pub const MCAUSE_USER_EXTERNAL_INTERRUPT: u32 = 0x8000_0008;

pub const MCAUSE_SUPERVISOR_EXTERNAL_INTERRUPT: u32 = 0x8000_0009;

pub const MCAUSE_RESERVED_2: u32 = 0x8000_000A;

pub const MCAUSE_MACHINE_EXTERNAL_INTERRUPT: u32 = 0x8000_000B;

pub const MCAUSE_INSTRUCTION_ADDRESS_MISALIGNED: u32 = 0x0000_0000;

pub const MCAUSE_INSTRUCTION_ACCESS_FAULT: u32 = 0x0000_0001;

pub const MCAUSE_ILLEGAL_INSTRUCTION: u32 = 0x0000_0002;

pub const MCAUSE_BREAKPOINT: u32 = 0x0000_0003;

pub const MCAUSE_LOAD_ADDRESS_MISALIGNED: u32 = 0x0000_0004;

pub const MCAUSE_LOAD_ACCESS_FAULT: u32 = 0x0000_0005;

pub const MCAUSE_STORE_AMO_ADDRESS_MISALIGNED: u32 = 0x0000_0006;

pub const MCAUSE_STORE_AMO_ACCESS_FAULT: u32 = 0x0000_0007;

pub const MCAUSE_ENVIRONMENT_CALL_FROM_UMODE: u32 = 0x0000_0008;

pub const MCAUSE_ENVIRONMENT_CALL_FROM_SMODE: u32 = 0x0000_0009;

pub const MCAUSE_RESERVED_3: u32 = 0x0000_000A;

pub const MCAUSE_ENVIRONMENT_CALL_FROM_MMODE: u32 = 0x0000_000B;

pub const MCAUSE_INSTRUCTION_PAGE_FAULT: u32 = 0x0000_000C;

pub const MCAUSE_LOAD_PAGE_FAULT: u32 = 0x0000_000D;

pub const MCAUSE_RESERVED_4: u32 = 0x0000_000E;

pub const MCAUSE_STORE_AMO_PAGE_FAULT: u32 = 0x0000_000F;

pub const MSTATUS_MIE_BIT: u32 = 3;

pub const MSTATUS_MIE_MASK: u32 = 0x08;

pub const MSTATUS_MPIE_BIT: u32 = 7;

pub const MSTATUS_MPIE_MASK: u32 = 0x80;

/// Where the controller stands in entering or leaving a trap.
#[derive(Debug, Clone, Copy, PartialEq, Eq, Default)]
pub enum TrapState {
    #[default]
    Idle,
    SetCSRJump,
    SetPc,
    ReturnFromTrap,
}

/// A trap request as a pipeline stage raises it: the values for `mepc`,
/// `mcause` and `mtval`, and whether there is a request at all.
#[derive(Debug, Clone, Copy, PartialEq, Eq, Default)]
pub struct PipelineTrapParams {
    pub mepc: u32,
    pub mcause: u32,
    pub mtval: u32,
    pub trap: bool,
}

impl PipelineTrapParams {
    /// The record of a stage that raises nothing.
    pub open spec fn quiet() -> PipelineTrapParams {
        PipelineTrapParams { mepc: 0, mcause: 0, mtval: 0, trap: false }
    }

    /// The record of a stage that raises nothing.
    pub fn none() -> (params: Self)
        ensures
            params == Self::quiet(),
    {
        PipelineTrapParams { mepc: 0, mcause: 0, mtval: 0, trap: false }
    }
}

/// The request the controller takes up when the decode stage and the memory
/// stage may both have raised one: that of the memory stage when it raised
/// one, else that of the decode stage when it raised one, else none.
pub open spec fn pending_trap(decode: PipelineTrapParams, memory: PipelineTrapParams) -> Option<
    PipelineTrapParams,
> {
    if memory.trap {
        Some(memory)
    } else if decode.trap {
        Some(decode)
    } else {
        None
    }
}

/// Picks the trap request to serve. The later stage wins: its instruction is
/// the older one.
pub fn select_trap(decode: PipelineTrapParams, memory: PipelineTrapParams) -> (selected: Option<
    PipelineTrapParams,
>)
    ensures
        selected == pending_trap(decode, memory),
        memory.trap ==> selected == Some(memory),
        selected is Some <==> decode.trap || memory.trap,
{
    if memory.trap {
        Some(memory)
    } else if decode.trap {
        Some(decode)
    } else {
        None
    }
}

/// `mstatus` after trap entry: MPIE takes the value of MIE, and MIE is
/// cleared.
pub open spec fn mstatus_on_entry(mstatus: u32) -> u32 {
    ((mstatus & !MSTATUS_MPIE_MASK) | (((mstatus & MSTATUS_MIE_MASK) >> MSTATUS_MIE_BIT)
        << MSTATUS_MPIE_BIT)) & !MSTATUS_MIE_MASK
}

/// `mstatus` after a return from a trap: MIE takes the value of MPIE, and
/// MPIE is cleared.
pub open spec fn mstatus_on_return(mstatus: u32) -> u32 {
    ((mstatus & !MSTATUS_MIE_MASK) | (((mstatus & MSTATUS_MPIE_MASK) >> MSTATUS_MPIE_BIT)
        << MSTATUS_MIE_BIT)) & !MSTATUS_MPIE_MASK
}

/// The address of the handler for `mcause` in the vector table at `mtvec`:
/// entry `n` of the table for interrupts, which starts at the base, or of the
/// table for exceptions, which starts 48 bytes further. Sums wrap at 32 bits.
pub open spec fn handler_address(mtvec: u32, mcause: u32) -> u32 {
    let index = mcause & 0x7FFF_FFFF;
    let offset: u32 = if mcause & 0x8000_0000 != 0 {
        0
    } else {
        48
    };
    (mtvec & 0xFFFF_FFFC).wrapping_add(offset).wrapping_add(index << 2)
}

/// The controller's latches as plain values.
pub struct TrapUnitState {
    pub state: LatchState<TrapState>,
    pub mepc: LatchState<u32>,
    pub mcause: LatchState<u32>,
    pub mtval: LatchState<u32>,
    pub return_to_pipeline_mode: LatchState<bool>,
    pub set_pc: LatchState<bool>,
    pub pc_to_set: LatchState<u32>,
    pub flush: LatchState<bool>,
}

impl TrapUnitState {
    /// The latches of a controller that was just created.
    pub open spec fn initial() -> TrapUnitState {
        TrapUnitState {
            state: LatchState::holding(TrapState::Idle),
            mepc: LatchState::holding(0),
            mcause: LatchState::holding(0),
            mtval: LatchState::holding(0),
            return_to_pipeline_mode: LatchState::holding(false),
            set_pc: LatchState::holding(false),
            pc_to_set: LatchState::holding(0),
            flush: LatchState::holding(false),
        }
    }

    /// The latches after one tick of combinational work.
    ///
    /// A trap request starts the entry sequence and raises the flush line; a
    /// return request starts the return sequence. Otherwise the visible state
    /// says what to do: nothing, publish the handler address, publish the
    /// saved program counter, or hand control back to the pipeline.
    pub open spec fn compute(self, csr: CsrState, begin_trap: bool, begin_trap_return: bool)
        -> TrapUnitState {
        if begin_trap {
            TrapUnitState {
                state: self.state.written(TrapState::SetCSRJump),
                flush: self.flush.written(true),
                ..self
            }
        } else if begin_trap_return {
            TrapUnitState {
                state: self.state.written(TrapState::ReturnFromTrap),
                flush: self.flush.written(false),
                ..self
            }
        } else {
            match self.state.current {
                TrapState::Idle => TrapUnitState {
                    return_to_pipeline_mode: self.return_to_pipeline_mode.written(false),
                    set_pc: self.set_pc.written(false),
                    flush: self.flush.written(false),
                    ..self
                },
                TrapState::SetCSRJump => TrapUnitState {
                    pc_to_set: self.pc_to_set.written(
                        handler_address(csr.mtvec, self.mcause.current),
                    ),
                    set_pc: self.set_pc.written(true),
                    return_to_pipeline_mode: self.return_to_pipeline_mode.written(true),
                    state: self.state.written(TrapState::Idle),
                    flush: self.flush.written(false),
                    ..self
                },
                TrapState::SetPc => TrapUnitState {
                    set_pc: self.set_pc.written(true),
                    return_to_pipeline_mode: self.return_to_pipeline_mode.written(true),
                    state: self.state.written(TrapState::Idle),
                    flush: self.flush.written(false),
                    ..self
                },
                TrapState::ReturnFromTrap => TrapUnitState {
                    pc_to_set: self.pc_to_set.written(csr.mepc),
                    state: self.state.written(TrapState::SetPc),
                    flush: self.flush.written(false),
                    ..self
                },
            }
        }
    }

    /// What the same tick does to the control and status registers: trap
    /// entry stores the latched trap parameters and saves the interrupt
    /// enable; the return restores it.
    pub open spec fn compute_csr(self, csr: CsrState, begin_trap: bool, begin_trap_return: bool)
        -> CsrState {
        if begin_trap || begin_trap_return {
            csr
        } else {
            match self.state.current {
                TrapState::SetCSRJump => CsrState {
                    mepc: self.mepc.current,
                    mcause: self.mcause.current,
                    mtval: self.mtval.current,
                    mstatus: mstatus_on_entry(csr.mstatus),
                    ..csr
                },
                TrapState::ReturnFromTrap => CsrState {
                    mstatus: mstatus_on_return(csr.mstatus),
                    ..csr
                },
                _ => csr,
            }
        }
    }

    /// The latches after the end-of-tick latch.
    pub open spec fn latch_next(self) -> TrapUnitState {
        TrapUnitState {
            state: self.state.latched(),
            mepc: self.mepc.latched(),
            mcause: self.mcause.latched(),
            mtval: self.mtval.latched(),
            return_to_pipeline_mode: self.return_to_pipeline_mode.latched(),
            set_pc: self.set_pc.latched(),
            pc_to_set: self.pc_to_set.latched(),
            flush: self.flush.latched(),
        }
    }
}

/// The inputs of one tick of the trap controller.
pub struct TrapParams<'a> {
    pub csr: &'a mut CSRInterface,
    pub begin_trap: bool,
    pub begin_trap_return: bool,
}

/// The trap controller.
#[derive(Default, Debug)]
pub struct TrapInterface {
    pub state: LatchValue<TrapState>,
    pub mepc: LatchValue<u32>,
    pub mcause: LatchValue<u32>,
    pub mtval: LatchValue<u32>,
    pub return_to_pipeline_mode: LatchValue<bool>,
    pub set_pc: LatchValue<bool>,
    pub pc_to_set: LatchValue<u32>,
    pub flush: LatchValue<bool>,
}

impl View for TrapInterface {
    type V = TrapUnitState;

    open spec fn view(&self) -> TrapUnitState {
        TrapUnitState {
            state: self.state@,
            mepc: self.mepc@,
            mcause: self.mcause@,
            mtval: self.mtval@,
            return_to_pipeline_mode: self.return_to_pipeline_mode@,
            set_pc: self.set_pc@,
            pc_to_set: self.pc_to_set@,
            flush: self.flush@,
        }
    }
}

impl TrapInterface {
    pub fn new() -> (trap: Self)
        ensures
            trap@ == TrapUnitState::initial(),
    {
        Self {
            state: LatchValue::new(TrapState::Idle),
            mepc: LatchValue::new(0),
            mcause: LatchValue::new(0),
            mtval: LatchValue::new(0),
            return_to_pipeline_mode: LatchValue::new(false),
            set_pc: LatchValue::new(false),
            pc_to_set: LatchValue::new(0),
            flush: LatchValue::new(false),
        }
    }

    /// One tick of combinational work, on the controller's own latches and on
    /// the control and status registers.
    pub fn compute(&mut self, params: TrapParams)
        ensures
            final(self)@ == old(self)@.compute(
                old(params.csr)@,
                params.begin_trap,
                params.begin_trap_return,
            ),
            final(params.csr)@ == old(self)@.compute_csr(
                old(params.csr)@,
                params.begin_trap,
                params.begin_trap_return,
            ),
    {
        if params.begin_trap {
            self.state.set(TrapState::SetCSRJump);
            self.flush.set(true);
        } else if params.begin_trap_return {
            self.state.set(TrapState::ReturnFromTrap);
            self.flush.set(false);
        } else {
            match *self.state.get() {
                TrapState::Idle => {
                    self.return_to_pipeline_mode.set(false);
                    self.set_pc.set(false);
                },
                TrapState::SetCSRJump => {
                    let mcause = *self.mcause.get();
                    params.csr.mepc = *self.mepc.get();
                    params.csr.mcause = mcause;
                    params.csr.mtval = *self.mtval.get();

                    // move the current MIE to MPIE
                    let mie = (params.csr.mstatus & MSTATUS_MIE_MASK) >> MSTATUS_MIE_BIT;
                    params.csr.mstatus = ((params.csr.mstatus & !MSTATUS_MPIE_MASK) | (mie
                        << MSTATUS_MPIE_BIT)) & !MSTATUS_MIE_MASK;

                    let index = mcause & 0x7FFF_FFFF;
                    let is_interrupt = (mcause & 0x8000_0000) != 0;
                    let offset: u32 = if is_interrupt {
                        0
                    } else {
                        48
                    };
                    self.pc_to_set.set(
                        (params.csr.mtvec & 0xFFFF_FFFC).wrapping_add(offset).wrapping_add(
                            index << 2,
                        ),
                    );
                    self.set_pc.set(true);
                    self.return_to_pipeline_mode.set(true);
                    self.state.set(TrapState::Idle);
                },
                TrapState::SetPc => {
                    self.set_pc.set(true);
                    self.return_to_pipeline_mode.set(true);
                    self.state.set(TrapState::Idle);
                },
                TrapState::ReturnFromTrap => {
                    self.pc_to_set.set(params.csr.mepc);
                    self.state.set(TrapState::SetPc);

                    // move the current MPIE to MIE
                    let mpie = (params.csr.mstatus & MSTATUS_MPIE_MASK) >> MSTATUS_MPIE_BIT;
                    params.csr.mstatus = ((params.csr.mstatus & !MSTATUS_MIE_MASK) | (mpie
                        << MSTATUS_MIE_BIT)) & !MSTATUS_MPIE_MASK;
                },
            }
            self.flush.set(false);
        }
    }

    /// Makes every pending value visible.
    pub fn latch_next(&mut self)
        ensures
            final(self)@ == old(self)@.latch_next(),
    {
        self.state.latch_next();
        self.mepc.latch_next();
        self.mcause.latch_next();
        self.mtval.latch_next();
        self.return_to_pipeline_mode.latch_next();
        self.set_pc.latch_next();
        self.pc_to_set.latch_next();
        self.flush.latch_next();
    }
}

impl TrapUnitState {
    /// The latches one whole tick later: combinational work, then the latch.
    pub open spec fn tick(self, csr: CsrState, begin_trap: bool, begin_trap_return: bool)
        -> TrapUnitState {
        self.compute(csr, begin_trap, begin_trap_return).latch_next()
    }
}

/// Trap entry saves the interrupt enable and clears it; the return puts the
/// saved bit back and clears the saved copy. So an entry followed by a
/// return leaves the interrupt enable as it was.
pub proof fn lemma_saved_interrupt_enable(mstatus: u32)
    by (bit_vector)
    ensures
        mstatus_on_entry(mstatus) & MSTATUS_MIE_MASK == 0,
        (mstatus_on_entry(mstatus) & MSTATUS_MPIE_MASK) >> MSTATUS_MPIE_BIT == (mstatus
            & MSTATUS_MIE_MASK) >> MSTATUS_MIE_BIT,
        mstatus_on_return(mstatus) & MSTATUS_MPIE_MASK == 0,
        (mstatus_on_return(mstatus) & MSTATUS_MIE_MASK) >> MSTATUS_MIE_BIT == (mstatus
            & MSTATUS_MPIE_MASK) >> MSTATUS_MPIE_BIT,
        mstatus_on_return(mstatus_on_entry(mstatus)) & MSTATUS_MIE_MASK == mstatus
            & MSTATUS_MIE_MASK,
{
}

/// A trap request followed by a return request brings the interrupt enable
/// back: after the tick that takes the trap request, the tick that enters
/// the trap, the tick that takes the return request and the tick that
/// performs the return, the MIE bit of `mstatus` is what it was before the
/// trap. The trap also leaves its parameters in `mepc`, `mcause` and
/// `mtval`, and the controller ends on its way back to the pipeline, with
/// the saved program counter as the address to go to.
pub proof fn lemma_trap_then_return_restores_interrupt_enable(trap: TrapUnitState, csr: CsrState)
    ensures
        ({
            let requested = trap.tick(csr, true, false);
            let csr_requested = trap.compute_csr(csr, true, false);
            let entered = requested.tick(csr_requested, false, false);
            let csr_entered = requested.compute_csr(csr_requested, false, false);
            let returning = entered.tick(csr_entered, false, true);
            let csr_returning = entered.compute_csr(csr_entered, false, true);
            let returned = returning.tick(csr_returning, false, false);
            let csr_returned = returning.compute_csr(csr_returning, false, false);
            &&& requested.state.current == TrapState::SetCSRJump
            &&& requested.flush.current
            &&& entered.state.current == TrapState::Idle
            &&& !entered.flush.current
            &&& entered.set_pc.current
            &&& entered.return_to_pipeline_mode.current
            &&& entered.pc_to_set.current == handler_address(csr.mtvec, trap.mcause.next)
            &&& csr_entered.mepc == trap.mepc.next
            &&& csr_entered.mcause == trap.mcause.next
            &&& csr_entered.mtval == trap.mtval.next
            &&& csr_entered.mstatus & MSTATUS_MIE_MASK == 0
            &&& returning.state.current == TrapState::ReturnFromTrap
            &&& returned.state.current == TrapState::SetPc
            &&& returned.pc_to_set.current == trap.mepc.next
            &&& csr_returned.mstatus & MSTATUS_MIE_MASK == csr.mstatus & MSTATUS_MIE_MASK
            &&& csr_returned.mstatus & MSTATUS_MPIE_MASK == 0
        }),
{
    lemma_saved_interrupt_enable(csr.mstatus);
    lemma_saved_interrupt_enable(mstatus_on_entry(csr.mstatus));
}

/// When the decode stage and the memory stage both raise a trap, the request
/// of the memory stage is the one that is served.
pub proof fn lemma_memory_stage_wins(decode: PipelineTrapParams, memory: PipelineTrapParams)
    requires
        decode.trap,
        memory.trap,
    ensures
        pending_trap(decode, memory) == Some(memory),
{
}

} // verus!
