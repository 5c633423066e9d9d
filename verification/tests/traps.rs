use riscv::csr::{CSRInterface, MTVEC_RESET};
use riscv::pipeline::Fault;
use riscv::trap::{
    select_trap, PipelineTrapParams, TrapInterface, TrapParams, TrapState,
    MCAUSE_LOAD_ADDRESS_MISALIGNED, MCAUSE_STORE_AMO_ADDRESS_MISALIGNED,
};
use riscv::{CPUState, PipelineState, RV32ISystem};

const MRET: u32 = 0x3020_0073;

fn i_type(imm: i32, rs1: u32, funct3: u32, rd: u32, opcode: u32) -> u32 {
    (((imm as u32) & 0xFFF) << 20) | (rs1 << 15) | (funct3 << 12) | (rd << 7) | opcode
}

fn s_type(imm: i32, rs2: u32, rs1: u32, funct3: u32) -> u32 {
    let imm = imm as u32;
    (((imm >> 5) & 0x7F) << 25) | (rs2 << 20) | (rs1 << 15) | (funct3 << 12) | ((imm & 0x1F) << 7)
        | 0b010_0011
}

fn addi(rd: u32, rs1: u32, imm: i32) -> u32 {
    i_type(imm, rs1, 0b000, rd, 0b001_0011)
}

fn cycles(rv: &mut RV32ISystem, n: usize) {
    for _ in 0..n {
        assert_eq!(rv.try_cycle(), Ok(()));
    }
}

#[test]
fn misaligned_load_enters_the_handler() {
    let mut rv = RV32ISystem::new();
    rv.reg_file[2] = 0x2000_0000;
    rv.csr.mstatus = 0x08;
    let raw = i_type(1, 2, 0b010, 14, 0b000_0011); // LW x14, 1(x2)
    rv.bus.rom.load(vec![raw]);

    cycles(&mut rv, 4);
    assert!(rv.stage_ma.get_memory_access_value_out().trap_params.trap);
    cycles(&mut rv, 1);
    assert_eq!(*rv.state.get(), CPUState::Trap);
    assert_eq!(*rv.trap.state.get(), TrapState::SetCSRJump);
    assert!(*rv.trap.flush.get());
    cycles(&mut rv, 1);
    assert_eq!(rv.csr.mcause, 4);
    assert_eq!(rv.csr.mcause, MCAUSE_LOAD_ADDRESS_MISALIGNED);
    assert_eq!(rv.csr.mepc, 0x1000_0004);
    assert_eq!(rv.csr.mtval, raw);
    assert_eq!(rv.csr.mstatus, 0x80);
    assert_eq!(*rv.trap.pc_to_set.get(), (MTVEC_RESET & !3) + 64);
    assert!(!rv.stage_ma.get_memory_access_value_out().trap_params.trap);
    cycles(&mut rv, 1);
    assert_eq!(*rv.state.get(), CPUState::Pipeline(PipelineState::Fetch));
    cycles(&mut rv, 1);
    assert_eq!(rv.current_line(), 0x1000_0044);
    // the load never wrote its destination
    assert_eq!(rv.reg_file[14], 0);
}

#[test]
fn misaligned_store_has_its_own_cause() {
    let mut rv = RV32ISystem::new();
    rv.reg_file[1] = 0x2000_0000;
    rv.reg_file[2] = 0xDEAD_BEEF;
    let raw = s_type(2, 2, 1, 0b010); // SW x2, 2(x1)
    rv.bus.rom.load(vec![raw]);
    cycles(&mut rv, 6);
    assert_eq!(rv.csr.mcause, 6);
    assert_eq!(rv.csr.mcause, MCAUSE_STORE_AMO_ADDRESS_MISALIGNED);
    assert_eq!(rv.csr.mepc, 0x1000_0004);
    assert_eq!(rv.csr.mtval, raw);
    cycles(&mut rv, 2);
    assert_eq!(rv.current_line(), 0x1000_0004 + 48 + (6 << 2));
    // nothing was stored
    assert_eq!(
        riscv::system_interface::MMIODevice::read_word(&rv.bus, 0x2000_0000),
        Ok(0xFFFF_FFFF)
    );
}

#[test]
fn misaligned_half_word_accesses_trap() {
    let mut rv = RV32ISystem::new();
    rv.reg_file[1] = 0x2000_0000;
    rv.bus.rom.load(vec![i_type(3, 1, 0b101, 5, 0b000_0011)]); // LHU x5, 3(x1)
    cycles(&mut rv, 6);
    assert_eq!(rv.csr.mcause, 4);

    let mut rv = RV32ISystem::new();
    rv.reg_file[1] = 0x2000_0000;
    rv.bus.rom.load(vec![s_type(1, 2, 1, 0b001)]); // SH x2, 1(x1)
    cycles(&mut rv, 6);
    assert_eq!(rv.csr.mcause, 6);

    // bytes are always aligned
    let mut rv = RV32ISystem::new();
    rv.reg_file[1] = 0x2000_0000;
    rv.bus.rom.load(vec![s_type(3, 2, 1, 0b000), i_type(3, 1, 0b100, 5, 0b000_0011)]);
    cycles(&mut rv, 10);
    assert_eq!(*rv.state.get(), CPUState::Pipeline(PipelineState::Fetch));
    assert_eq!(*rv.csr.instret.get(), 2);
}

#[test]
fn return_from_trap_goes_back_to_the_saved_address() {
    let mut rv = RV32ISystem::new();
    rv.reg_file[2] = 0x2000_0000;
    rv.csr.mstatus = 0x08;
    let mut program = vec![0u32; 32];
    program[0] = i_type(1, 2, 0b010, 14, 0b000_0011); // LW x14, 1(x2)
    program[1] = addi(6, 0, 3);
    program[17] = addi(5, 0, 9); // the handler
    program[18] = MRET;
    rv.bus.rom.load(program);

    cycles(&mut rv, 7);
    assert_eq!(rv.csr.mstatus, 0x80);
    // the handler's first instruction
    cycles(&mut rv, 5);
    assert_eq!(rv.reg_file[5], 9);
    // the return: fetch, decode, then four ticks of the controller
    cycles(&mut rv, 2);
    let decoded = rv.stage_de.get_decoded_instruction_out();
    assert!(decoded.return_from_trap);
    assert_eq!(decoded.raw_instruction, MRET);
    cycles(&mut rv, 1);
    assert_eq!(*rv.state.get(), CPUState::Trap);
    assert_eq!(*rv.trap.state.get(), TrapState::ReturnFromTrap);
    assert!(!*rv.trap.flush.get());
    // the strobe lasted one tick
    assert!(!rv.stage_de.get_decoded_instruction_out().return_from_trap);
    cycles(&mut rv, 1);
    assert_eq!(*rv.trap.state.get(), TrapState::SetPc);
    assert_eq!(*rv.trap.pc_to_set.get(), 0x1000_0004);
    assert_eq!(rv.csr.mstatus, 0x08);
    cycles(&mut rv, 1);
    assert_eq!(*rv.trap.state.get(), TrapState::Idle);
    assert_eq!(*rv.state.get(), CPUState::Trap);
    cycles(&mut rv, 1);
    assert_eq!(*rv.state.get(), CPUState::Pipeline(PipelineState::Fetch));
    cycles(&mut rv, 1);
    assert_eq!(rv.current_line(), 0x1000_0004);
    cycles(&mut rv, 4);
    assert_eq!(rv.reg_file[6], 3);
    // the load that trapped and the return are not counted; the handler's
    // instruction and the instruction after the return are
    assert_eq!(*rv.csr.instret.get(), 2);
}

#[test]
fn the_later_stage_wins() {
    let decode = PipelineTrapParams { mepc: 1, mcause: 2, mtval: 3, trap: true };
    let memory = PipelineTrapParams { mepc: 4, mcause: 5, mtval: 6, trap: true };
    let quiet = PipelineTrapParams::default();
    assert_eq!(select_trap(decode, memory), Some(memory));
    assert_eq!(select_trap(quiet, memory), Some(memory));
    assert_eq!(select_trap(decode, quiet), Some(decode));
    assert_eq!(select_trap(quiet, quiet), None);
    assert_eq!(PipelineTrapParams::none(), quiet);
}

fn trap_tick(trap: &mut TrapInterface, csr: &mut CSRInterface, begin: bool, ret: bool) {
    trap.compute(TrapParams { csr, begin_trap: begin, begin_trap_return: ret });
    trap.latch_next();
}

#[test]
fn interrupt_enable_survives_trap_and_return() {
    for before in [0x00u32, 0x08, 0x80, 0x88] {
        let mut trap = TrapInterface::new();
        let mut csr = CSRInterface::new();
        csr.mstatus = before;
        trap.mepc.set(0x1000_0123);
        trap.mcause.set(0x8000_0007);
        trap.mtval.set(55);
        trap_tick(&mut trap, &mut csr, true, false);
        assert_eq!(*trap.state.get(), TrapState::SetCSRJump);
        assert!(*trap.flush.get());
        trap_tick(&mut trap, &mut csr, false, false);
        assert_eq!(*trap.state.get(), TrapState::Idle);
        assert_eq!(csr.mstatus & 0x08, 0);
        assert_eq!((csr.mstatus & 0x80) >> 7, (before & 0x08) >> 3);
        assert_eq!(csr.mepc, 0x1000_0123);
        assert_eq!(csr.mcause, 0x8000_0007);
        assert_eq!(csr.mtval, 55);
        // an interrupt uses the table at the base
        assert_eq!(*trap.pc_to_set.get(), 0x1000_0004 + (7 << 2));
        assert!(*trap.set_pc.get());
        assert!(*trap.return_to_pipeline_mode.get());
        assert!(!*trap.flush.get());
        trap_tick(&mut trap, &mut csr, false, true);
        assert_eq!(*trap.state.get(), TrapState::ReturnFromTrap);
        trap_tick(&mut trap, &mut csr, false, false);
        assert_eq!(*trap.state.get(), TrapState::SetPc);
        assert_eq!(*trap.pc_to_set.get(), 0x1000_0123);
        assert_eq!(csr.mstatus & 0x08, before & 0x08);
        assert_eq!(csr.mstatus & 0x80, 0);
        trap_tick(&mut trap, &mut csr, false, false);
        assert_eq!(*trap.state.get(), TrapState::Idle);
        assert!(*trap.set_pc.get());
        assert!(*trap.return_to_pipeline_mode.get());
        trap_tick(&mut trap, &mut csr, false, false);
        assert!(!*trap.set_pc.get());
        assert!(!*trap.return_to_pipeline_mode.get());
    }
}

#[test]
fn a_trap_request_beats_a_return_request() {
    let mut trap = TrapInterface::new();
    let mut csr = CSRInterface::new();
    trap_tick(&mut trap, &mut csr, true, true);
    assert_eq!(*trap.state.get(), TrapState::SetCSRJump);
}

#[test]
fn handler_address_wraps() {
    let mut trap = TrapInterface::new();
    let mut csr = CSRInterface::new();
    csr.mtvec = 0xFFFF_FFFF;
    trap.mcause.set(0x7FFF_FFFF);
    trap_tick(&mut trap, &mut csr, true, false);
    trap_tick(&mut trap, &mut csr, false, false);
    let expected = 0xFFFF_FFFCu32.wrapping_add(48).wrapping_add(0x7FFF_FFFFu32 << 2);
    assert_eq!(*trap.pc_to_set.get(), expected);
    assert_eq!(expected, 0x28);
}

#[test]
fn unaligned_fetch_stops_the_machine() {
    let mut rv = RV32ISystem::new();
    rv.bus.rom.load(vec![i_type(2, 0, 0b000, 0, 0b110_0111)]); // JALR x0, 2(x0)
    cycles(&mut rv, 5);
    let pc = rv.current_line();
    let retired = *rv.csr.instret.get();
    assert_eq!(rv.check(), Err(Fault::UnalignedFetch(2)));
    assert_eq!(rv.try_cycle(), Err(Fault::UnalignedFetch(2)));
    // nothing moved
    assert_eq!(rv.current_line(), pc);
    assert_eq!(*rv.csr.instret.get(), retired);
    assert_eq!(*rv.csr.cycles.get(), 5);
    assert_eq!(*rv.state.get(), CPUState::Pipeline(PipelineState::Fetch));
}

fn fault_in_memory_stage(instruction: u32) -> Result<(), Fault> {
    let mut rv = RV32ISystem::new();
    rv.reg_file[1] = 0x2000_0000;
    rv.bus.rom.load(vec![instruction]);
    cycles(&mut rv, 3);
    let result = rv.try_cycle();
    if result.is_err() {
        assert_eq!(*rv.state.get(), CPUState::Pipeline(PipelineState::MemoryAccess));
        assert_eq!(*rv.csr.cycles.get(), 3);
        assert_eq!(rv.check(), result);
    }
    result
}

#[test]
fn instructions_that_stop_the_machine() {
    assert_eq!(
        fault_in_memory_stage(i_type(0, 1, 0b011, 5, 0b000_0011)),
        Err(Fault::InvalidLoadWidth(0b011))
    );
    assert_eq!(
        fault_in_memory_stage(i_type(0, 1, 0b111, 5, 0b000_0011)),
        Err(Fault::InvalidLoadWidth(0b111))
    );
    assert_eq!(fault_in_memory_stage(s_type(0, 2, 1, 0b011)), Err(Fault::InvalidStoreWidth(0b011)));
    assert_eq!(fault_in_memory_stage(s_type(0, 2, 1, 0b100)), Err(Fault::InvalidStoreWidth(0b100)));
    // ECALL reads register 0, which does not exist
    assert_eq!(fault_in_memory_stage(0x0000_0073), Err(Fault::UnknownCsr(0)));
    assert_eq!(
        fault_in_memory_stage(i_type(0x7C0, 0, 0b010, 5, 0b111_0011)),
        Err(Fault::UnknownCsr(0x7C0))
    );
    // CSRRW x0, cycle, x1
    assert_eq!(
        fault_in_memory_stage(i_type(0xC00, 1, 0b001, 0, 0b111_0011)),
        Err(Fault::ReadOnlyCsr(0xC00))
    );
    // CSRRSI x5, mvendorid, 1
    assert_eq!(
        fault_in_memory_stage(i_type(0xF11, 1, 0b110, 5, 0b111_0011)),
        Err(Fault::ReadOnlyCsr(0xF11))
    );
    // reading a read-only register is fine
    assert_eq!(fault_in_memory_stage(i_type(0xF11, 0, 0b110, 5, 0b111_0011)), Ok(()));
    assert_eq!(fault_in_memory_stage(i_type(0, 1, 0b010, 5, 0b000_0011)), Ok(()));
}

#[test]
fn a_written_trap_vector_is_used() {
    let mut rv = RV32ISystem::new();
    rv.reg_file[1] = 0x1000_0100;
    rv.reg_file[2] = 0x2000_0000;
    rv.bus.rom.load(vec![
        i_type(0x305, 1, 0b001, 3, 0b111_0011), // CSRRW x3, mtvec, x1
        i_type(1, 2, 0b010, 14, 0b000_0011),    // LW x14, 1(x2)
    ]);
    cycles(&mut rv, 5);
    assert_eq!(rv.reg_file[3], 0x1000_0004);
    assert_eq!(rv.csr.mtvec, 0x1000_0100);
    cycles(&mut rv, 7);
    assert_eq!(*rv.state.get(), CPUState::Pipeline(PipelineState::Fetch));
    cycles(&mut rv, 1);
    assert_eq!(rv.current_line(), 0x1000_0100 + 48 + (4 << 2));
    assert_eq!(rv.csr.mepc, 0x1000_0008);
}
