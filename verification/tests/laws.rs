use riscv::csr::{CSRInterface, CSRM_MODE_MSTATUS, CSRM_MODE_MTVEC};
use riscv::pipeline::decode::{decode_instruction, read_reg, DecodedInstruction};
use riscv::pipeline::memory_access::MemoryAccessValue;
use riscv::pipeline::write_back::{InstructionWriteBack, InstructionWriteBackParams};
use riscv::pipeline::PipelineStage;
use riscv::system_interface::rom::words_from_le_bytes;
use riscv::system_interface::{MMIODevice, MMIOError, RamDevice, RomDevice, SystemInterface};
use riscv::trap::PipelineTrapParams;
use riscv::utils::{bit, sign_extend_32, slice_32, LatchValue};
use riscv::{is_phase, CPUState, PipelineState, RV32ISystem};

fn i_type(imm: i32, rs1: u32, funct3: u32, rd: u32, opcode: u32) -> u32 {
    (((imm as u32) & 0xFFF) << 20) | (rs1 << 15) | (funct3 << 12) | (rd << 7) | opcode
}

fn addi(rd: u32, rs1: u32, imm: i32) -> u32 {
    i_type(imm, rs1, 0b000, rd, 0b001_0011)
}

#[test]
fn five_ticks_per_instruction() {
    let mut rv = RV32ISystem::new();
    rv.bus.rom.load(vec![addi(1, 1, 1); 16]);
    let phases = [
        PipelineState::Decode,
        PipelineState::Execute,
        PipelineState::MemoryAccess,
        PipelineState::WriteBack,
        PipelineState::Fetch,
    ];
    for n in 0..16u64 {
        for (k, phase) in phases.iter().enumerate() {
            assert_eq!(*rv.csr.instret.get(), n);
            rv.cycle();
            assert_eq!(*rv.state.get(), CPUState::Pipeline(*phase));
            assert!(is_phase(*rv.state.get(), *phase));
            assert_eq!(*rv.csr.cycles.get(), 5 * n + k as u64 + 1);
        }
        assert_eq!(*rv.csr.instret.get(), n + 1);
        assert_eq!(rv.reg_file[1], n as u32 + 1);
    }
}

#[test]
fn the_cycle_counter_counts_trap_ticks_too() {
    let mut rv = RV32ISystem::new();
    rv.reg_file[2] = 0x2000_0000;
    rv.bus.rom.load(vec![i_type(1, 2, 0b010, 14, 0b000_0011)]); // misaligned load
    for n in 1..=12u64 {
        rv.cycle();
        assert_eq!(*rv.csr.cycles.get(), n);
    }
    // the trapped load did not retire; the first instruction of the handler did
    assert_eq!(*rv.csr.instret.get(), 1);
}

#[test]
fn counters_read_through_their_registers() {
    let mut rv = RV32ISystem::new();
    let mut program = vec![addi(0, 0, 0); 7];
    program.push(i_type(0xC00, 0, 0b010, 15, 0b111_0011)); // CSRRS x15, cycle, x0
    program.push(i_type(0xC02, 0, 0b010, 14, 0b111_0011)); // CSRRS x14, instret, x0
    program.push(i_type(0xC01, 0, 0b010, 13, 0b111_0011)); // CSRRS x13, time, x0
    program.push(i_type(0xC80, 0, 0b010, 12, 0b111_0011)); // CSRRS x12, cycleh, x0
    rv.bus.rom.load(program);
    for _ in 0..35 {
        rv.cycle();
    }
    assert_eq!(*rv.csr.cycles.get(), 35);
    assert_eq!(*rv.csr.instret.get(), 7);
    assert_eq!(rv.reg_file[15], 0);
    for _ in 0..5 {
        rv.cycle();
    }
    // the register is read in the fourth tick of the instruction
    assert_eq!(rv.reg_file[15], 38);
    assert_eq!(*rv.csr.cycles.get(), 40);
    assert_eq!(*rv.csr.instret.get(), 8);
    for _ in 0..5 {
        rv.cycle();
    }
    assert_eq!(rv.reg_file[14], 8);
    for _ in 0..5 {
        rv.cycle();
    }
    assert_eq!(rv.reg_file[13], 48);
    for _ in 0..5 {
        rv.cycle();
    }
    assert_eq!(rv.reg_file[12], 0);
}

#[test]
fn counter_halves() {
    let mut csr = CSRInterface::new();
    csr.cycles.set(0x1234_5678_9ABC_DEF0);
    csr.instret.set(0xFFFF_FFFF_0000_0001);
    csr.latch_next();
    assert_eq!(csr.read(0xC00), 0x9ABC_DEF0);
    assert_eq!(csr.read(0xC01), 0x9ABC_DEF0);
    assert_eq!(csr.read(0xC80), 0x1234_5678);
    assert_eq!(csr.read(0xC81), 0x1234_5678);
    assert_eq!(csr.read(0xC02), 0x0000_0001);
    assert_eq!(csr.read(0xC82), 0xFFFF_FFFF);
    csr.cycles.set(u64::MAX);
    csr.latch_next();
    csr.compute();
    csr.latch_next();
    assert_eq!(*csr.cycles.get(), 0);
}

#[test]
fn control_and_status_register_file() {
    let mut csr = CSRInterface::new();
    assert_eq!(csr.read(0x301), 0x4000_0100);
    assert_eq!(csr.read(0x305), 0x1000_0004);
    assert_eq!(csr.read(0x304), 0x888);
    for address in [0xF11, 0xF12, 0xF13, 0xF14, 0x300, 0x344, 0x342, 0x341, 0x340, 0x343] {
        assert_eq!(csr.read(address), 0);
    }
    csr.write(CSRM_MODE_MSTATUS, 0xFFFF_FFFF);
    assert_eq!(csr.read(CSRM_MODE_MSTATUS), 0x88);
    let writable =
        [(0x304, 1u32), (0x344, 2), (0x342, 3), (0x341, 4), (0x340, 5), (0x343, 6), (0x305, 7)];
    for (address, value) in writable {
        let before: Vec<u32> = writable.iter().map(|(other, _)| csr.read(*other)).collect();
        csr.write(address, value);
        assert_eq!(csr.read(address), value);
        // no other register changed
        for (k, (other, _)) in writable.iter().enumerate() {
            if *other != address {
                assert_eq!(csr.read(*other), before[k]);
            }
        }
        assert_eq!(csr.read(CSRM_MODE_MSTATUS), 0x88);
    }
    csr.write(CSRM_MODE_MTVEC, 0x1000_0100);
    assert_eq!(csr.read(CSRM_MODE_MTVEC), 0x1000_0100);
    assert_eq!(csr.mtvec, 0x1000_0100);
    // the identity registers are not written
    csr.write(0x301, 0);
    assert_eq!(csr.read(0x301), 0x4000_0100);
    csr.write(0x123, 9);
    assert!(CSRInterface::is_known(0xC82));
    assert!(!CSRInterface::is_known(0x123));
    assert!(CSRInterface::is_read_only(0xC00));
    assert!(CSRInterface::is_read_only(0xF14));
    assert!(!CSRInterface::is_read_only(0x344));
    assert!(!CSRInterface::is_read_only(0x800));
    assert!(!CSRInterface::is_read_only(0x400));
}

#[test]
fn register_zero() {
    // a write to register zero is dropped
    let mut rv = RV32ISystem::new();
    rv.bus.rom.load(vec![addi(0, 0, 5), addi(1, 0, 1)]);
    for _ in 0..10 {
        rv.cycle();
    }
    assert_eq!(rv.reg_file[0], 0);
    assert_eq!(rv.reg_file[1], 1);

    // and whatever its cell holds, it reads as zero
    let mut rv = RV32ISystem::new();
    rv.reg_file[0] = 7;
    rv.bus.rom.load(vec![addi(1, 0, 1), 0x0000_0133]); // ADD x2, x0, x0
    for _ in 0..10 {
        rv.cycle();
    }
    assert_eq!(rv.reg_file[1], 1);
    assert_eq!(rv.reg_file[2], 0);
    assert_eq!(rv.reg_file[0], 7);

    let mut registers = [9u32; 32];
    assert_eq!(read_reg(&registers, 0), 0);
    assert_eq!(read_reg(&registers, 31), 9);
    let mut stage = InstructionWriteBack::new();
    let value = MemoryAccessValue {
        write_back_value: 1234,
        pc: 0,
        pc_plus_4: 4,
        instruction: DecodedInstruction::Lui { rd: 0, imm32: 1234 },
        raw_instruction: 0,
        trap_params: PipelineTrapParams::default(),
    };
    stage.compute(InstructionWriteBackParams {
        should_stall: false,
        memory_access_value_in: value,
        reg_file: &mut registers,
    });
    assert_eq!(registers, [9u32; 32]);
    let value = MemoryAccessValue { instruction: DecodedInstruction::Lui { rd: 31, imm32: 1234 }, ..value };
    stage.compute(InstructionWriteBackParams {
        should_stall: true,
        memory_access_value_in: value,
        reg_file: &mut registers,
    });
    assert_eq!(registers, [9u32; 32]);
    stage.compute(InstructionWriteBackParams {
        should_stall: false,
        memory_access_value_in: value,
        reg_file: &mut registers,
    });
    assert_eq!(registers[31], 1234);
    // stores and branches write nothing
    let value = MemoryAccessValue {
        instruction: DecodedInstruction::Store { funct3: 2, rs1: 1, rs2: 2, imm32: 0 },
        ..value
    };
    let mut registers = [0u32; 32];
    stage.compute(InstructionWriteBackParams {
        should_stall: false,
        memory_access_value_in: value,
        reg_file: &mut registers,
    });
    assert_eq!(registers, [0u32; 32]);
}

fn bus() -> SystemInterface {
    SystemInterface::new(RomDevice::new(), RamDevice::new())
}

#[test]
fn ram_reads_what_was_written() {
    let mut bus = bus();
    for address in [0x2000_0000u32, 0x2000_0004, 0x203F_FFFC, 0x2ABC_DEF0, 0x2FFF_FFFC] {
        bus.write_word(address, 0x1234_5678 ^ address).unwrap();
        assert_eq!(bus.read_word(address), Ok(0x1234_5678 ^ address));
    }
    for address in [0x2000_0010u32, 0x2000_0012, 0x2FFF_FFFE] {
        bus.write_half_word(address, 0xBEEF).unwrap();
        assert_eq!(bus.read_half_word(address), Ok(0xBEEF));
    }
    for address in [0x2000_0020u32, 0x2000_0021, 0x2000_0022, 0x2000_0023, 0x2FFF_FFFF] {
        bus.write_byte(address, 0x5A).unwrap();
        assert_eq!(bus.read_byte(address), Ok(0x5A));
    }
}

#[test]
fn a_byte_write_keeps_the_other_lanes() {
    for k in 0..4u32 {
        let mut bus = bus();
        bus.write_word(0x2000_0100, 0x1122_3344).unwrap();
        bus.write_byte(0x2000_0100 + k, 0xAB).unwrap();
        let expected = [0xAB22_3344u32, 0x11AB_3344, 0x1122_AB44, 0x1122_33AB][k as usize];
        assert_eq!(bus.read_word(0x2000_0100), Ok(expected));
        for j in 0..4u32 {
            let old = [0x11u8, 0x22, 0x33, 0x44][j as usize];
            assert_eq!(bus.read_byte(0x2000_0100 + j), Ok(if j == k { 0xAB } else { old }));
        }
        // and the neighbours
        assert_eq!(bus.read_word(0x2000_00FC), Ok(0xFFFF_FFFF));
        assert_eq!(bus.read_word(0x2000_0104), Ok(0xFFFF_FFFF));
    }
    let mut bus = bus();
    bus.write_word(0x2000_0100, 0x1122_3344).unwrap();
    bus.write_half_word(0x2000_0102, 0xAABB).unwrap();
    assert_eq!(bus.read_word(0x2000_0100), Ok(0x1122_AABB));
    bus.write_half_word(0x2000_0100, 0xCCDD).unwrap();
    assert_eq!(bus.read_word(0x2000_0100), Ok(0xCCDD_AABB));
}

#[test]
fn rom_reads_survive_writes() {
    let mut bus = bus();
    bus.rom.load(vec![0x0102_0304, 0x0506_0708]);
    for address in [0x1000_0000u32, 0x1000_0004, 0x1000_0008, 0x1FFF_FFFC, 0x1010_0000] {
        let word = bus.read_word(address);
        let half = bus.read_half_word(address + 2);
        let byte = bus.read_byte(address + 3);
        bus.write_word(address, 0xDEAD_BEEF).unwrap();
        bus.write_half_word(address + 2, 0xDEAD).unwrap();
        bus.write_byte(address + 3, 0xDE).unwrap();
        assert_eq!(bus.read_word(address), word);
        assert_eq!(bus.read_half_word(address + 2), half);
        assert_eq!(bus.read_byte(address + 3), byte);
    }
    assert_eq!(bus.read_word(0x1000_0000), Ok(0x0102_0304));
    assert_eq!(bus.read_word(0x1010_0004), Ok(0x0506_0708));
    assert_eq!(bus.read_word(0x1000_0008), Ok(0xFFFF_FFFF));
}

#[test]
fn the_decoder_tests_single_address_bits() {
    let mut bus = bus();
    bus.rom.load(vec![0x0102_0304]);
    // nothing is mapped below the program store
    assert_eq!(bus.read_word(0x0000_0000), Ok(0));
    assert_eq!(bus.read_half_word(0x0FFF_FFFE), Ok(0));
    assert_eq!(bus.read_byte(0x0000_0003), Ok(0));
    bus.write_word(0x0000_0000, 5).unwrap();
    assert_eq!(bus.read_word(0x0000_0000), Ok(0));
    // an address with both select bits set is read from the program store
    // and written to the data store
    bus.write_word(0x3000_0000, 0xCAFE_F00D).unwrap();
    assert_eq!(bus.read_word(0x3000_0000), Ok(0x0102_0304));
    assert_eq!(bus.read_word(0x2000_0000), Ok(0xCAFE_F00D));
    // addresses above the documented windows alias the devices
    assert_eq!(bus.read_word(0x9000_0000), Ok(0x0102_0304));
    assert_eq!(bus.read_word(0xA000_0000), Ok(0xCAFE_F00D));
    assert_eq!(bus.read_word(0x4000_0000), Ok(0));
}

#[test]
fn alignment() {
    let mut bus = bus();
    for base in [0x0000_0000u32, 0x1000_0000, 0x2000_0000, 0x4000_0000] {
        for k in 1..4u32 {
            let address = base + k;
            assert_eq!(bus.read_word(address), Err(MMIOError::UnalignedRead(address)));
            assert_eq!(
                bus.write_word(address, 0x1234_5678),
                Err(MMIOError::UnalignedWrite(address, 0x1234_5678))
            );
            assert!(bus.read_byte(address).is_ok());
            assert_eq!(bus.write_byte(address, 1), Ok(()));
        }
        for k in [1u32, 3] {
            let address = base + k;
            assert_eq!(bus.read_half_word(address), Err(MMIOError::UnalignedRead(address)));
            assert_eq!(
                bus.write_half_word(address, 0xABCD),
                Err(MMIOError::UnalignedWrite(address, 0xABCD))
            );
        }
        for k in [0u32, 2] {
            assert!(bus.read_half_word(base + k).is_ok());
            assert_eq!(bus.write_half_word(base + k, 7), Ok(()));
        }
        assert!(bus.read_word(base).is_ok());
        assert_eq!(bus.write_word(base, 7), Ok(()));
    }
    // a refused write changes nothing
    bus.write_word(0x2000_0000, 0x1111_1111).unwrap();
    assert!(bus.write_word(0x2000_0001, 0x2222_2222).is_err());
    assert!(bus.write_half_word(0x2000_0001, 0x3333).is_err());
    assert_eq!(bus.read_word(0x2000_0000), Ok(0x1111_1111));
}

#[test]
fn error_messages() {
    assert_eq!(MMIOError::UnalignedRead(0x1000_0005).to_string(), "Unaligned read from address 0x10000005");
    assert_eq!(MMIOError::UnalignedRead(5).to_string(), "Unaligned read from address 0x000005");
    assert_eq!(MMIOError::UnalignedRead(0).to_string(), "Unaligned read from address 0x000000");
    assert_eq!(MMIOError::UnalignedRead(0xABCDEF).to_string(), "Unaligned read from address 0xABCDEF");
    assert_eq!(MMIOError::UnalignedRead(0x123_4567).to_string(), "Unaligned read from address 0x1234567");
    assert_eq!(
        MMIOError::UnalignedWrite(0x2000_0001, 0x9A).to_string(),
        "Unaligned write to address 0x20000001 (value=0x00009A)"
    );
    assert_eq!(MMIOError::UnalignedRead(0x1000_0005).to_string(), format!("Unaligned read from address {:#08X}", 0x1000_0005u32));
    for value in [0u32, 9, 0xA, 0xFFFF, 0xF_FFFF, 0xFF_FFFF, 0x100_0000, 0xFFF_FFFF, 0x1000_0000, u32::MAX] {
        assert_eq!(
            MMIOError::UnalignedWrite(value, !value).to_string(),
            format!("Unaligned write to address {:#08X} (value={:#08X})", value, !value)
        );
    }
}

#[test]
fn twelve_bit_immediates_round_trip() {
    let registers = [0u32; 32];
    for c in [-2048i32, -2047, -1366, -1, 0, 1, 1365, 2046, 2047] {
        let raw = addi(0, 0, c);
        match decode_instruction(raw, 0x1000_0000, &registers) {
            DecodedInstruction::Alu { opcode, funct3, rd, rs1, imm32, imm11_0, .. } => {
                assert_eq!(imm32, c);
                assert_eq!(opcode, 0b001_0011);
                assert_eq!(funct3, 0);
                assert_eq!(rd, 0);
                assert_eq!(rs1, 0);
                assert_eq!(imm11_0 as u32, (c as u32) & 0xFFF);
                let upper = (imm32 as u32) >> 12;
                assert_eq!(upper, if (imm32 as u32) & 0x800 != 0 { 0xF_FFFF } else { 0 });
            }
            other => panic!("{:?}", other),
        }
    }
}

#[test]
fn bit_helpers_at_their_limits() {
    assert_eq!(sign_extend_32(1, 1), -1);
    assert_eq!(sign_extend_32(1, 0), 0);
    assert_eq!(sign_extend_32(1, 2), 0);
    assert_eq!(sign_extend_32(12, 0x800), -2048);
    assert_eq!(sign_extend_32(12, 0x7FF), 2047);
    assert_eq!(sign_extend_32(12, 0x1801), -2047);
    assert_eq!(sign_extend_32(13, 0x1000), -4096);
    assert_eq!(sign_extend_32(21, 0x10_0000), -1048576);
    assert_eq!(sign_extend_32(32, -5), -5);
    assert_eq!(sign_extend_32(32, i32::MIN), i32::MIN);
    assert_eq!(sign_extend_32(31, 0x4000_0000), -0x4000_0000);
    assert_eq!(slice_32(31, 0, 0xDEAD_BEEF, 0), 0xDEAD_BEEF);
    assert_eq!(slice_32(31, 0, 0xDEAD_BEEF, 32), 0xDEAD_BEEF);
    assert_eq!(slice_32(31, 31, 0x8000_0000, 32), 0x8000_0000);
    assert_eq!(slice_32(0, 0, 0x0000_0001, 1), 1);
    assert_eq!(slice_32(7, 4, 0x0000_00A5, 0), 0xA);
    assert_eq!(slice_32(7, 4, 0x0000_00A5, 4), 0xA);
    assert_eq!(slice_32(7, 4, 0x0000_00A5, 32), 0xA000_0000);
    assert_eq!(slice_32(30, 21, 0x7FE0_0000, 10), 0x3FF);
    assert_eq!(bit(31, 0x8000_0000, 32), 0x8000_0000);
    assert_eq!(bit(31, 0x8000_0000, 1), 1);
    assert_eq!(bit(31, 0x7FFF_FFFF, 1), 0);
    assert_eq!(bit(0, 1, 32), 0x8000_0000);
}

#[test]
fn a_latch_shows_writes_only_after_latching() {
    let mut latch = LatchValue::new(7u32);
    assert_eq!(*latch.get(), 7);
    latch.set(8);
    latch.set(9);
    assert_eq!(*latch.get(), 7);
    latch.latch_next();
    assert_eq!(*latch.get(), 9);
    latch.latch_next();
    assert_eq!(*latch.get(), 9);
    latch.set(10);
    latch.reset();
    assert_eq!(*latch.get(), 7);
    latch.latch_next();
    assert_eq!(*latch.get(), 7);
    let mut text = LatchValue::new(String::from("a"));
    text.set(String::from("b"));
    assert_eq!(text.get(), "a");
    text.latch_next();
    assert_eq!(text.get(), "b");
}

#[test]
fn a_fresh_machine() {
    let rv = RV32ISystem::new();
    assert_eq!(rv.current_line(), 0x1000_0000);
    assert_eq!(*rv.state.get(), CPUState::Pipeline(PipelineState::Fetch));
    assert_eq!(rv.reg_file, [0u32; 32]);
    assert!(!rv.trap_stall);
    assert!(!rv.mret);
    assert_eq!(rv.bus.read_word(0x1000_0000), Ok(0xFFFF_FFFF));
    assert_eq!(rv.bus.read_word(0x2000_0000), Ok(0xFFFF_FFFF));
    assert_eq!(rv.check(), Ok(()));
    let other = RV32ISystem::default();
    assert_eq!(other.current_line(), 0x1000_0000);
    assert_eq!(other.csr.mtvec, 0x1000_0004);
}

#[test]
fn loading_cuts_and_pads() {
    let mut rom = RomDevice::new();
    rom.load(vec![1; 262_144 + 10]);
    assert_eq!(rom.read_word(0), Ok(1));
    assert_eq!(rom.read_word(0x000F_FFFC), Ok(1));
    rom.load(vec![2, 3]);
    assert_eq!(rom.read_word(0), Ok(2));
    assert_eq!(rom.read_word(4), Ok(3));
    assert_eq!(rom.read_word(8), Ok(0xFFFF_FFFF));
    assert_eq!(rom.read_word(0x000F_FFFC), Ok(0xFFFF_FFFF));
    rom.load(vec![]);
    assert_eq!(rom.read_word(0), Ok(0xFFFF_FFFF));
}

#[test]
fn program_images_are_little_endian() {
    assert_eq!(words_from_le_bytes(&[]), Vec::<u32>::new());
    assert_eq!(words_from_le_bytes(&[0x37, 0x01, 0x40, 0x20]), vec![0x2040_0137]);
    assert_eq!(
        words_from_le_bytes(&[0xEF, 0xBE, 0xAD, 0xDE, 0xFF, 0x00, 0x00, 0x80]),
        vec![0xDEAD_BEEF, 0x8000_00FF]
    );
    let bytes = [0x13u8, 0x01, 0xC1, 0xFF];
    assert_eq!(words_from_le_bytes(&bytes), vec![u32::from_le_bytes(bytes)]);
}

#[test]
fn the_stores_have_fixed_sizes() {
    let bus = bus();
    assert_eq!(bus.sizes(), (262_144, 1_048_576));
    assert_eq!(bus.rom.words(), 262_144);
    assert_eq!(bus.ram.words(), 1_048_576);
    assert_eq!(riscv::ram::RamDevice::new().words(), 1_048_576);
}
