use lr35902_core::cpu::{Cpu, CpuError};
use lr35902_core::instruction::ArithmeticTarget::{B, D8, HL};
use lr35902_core::instruction::{ArithmeticTarget, Instruction};
use lr35902_core::register::FlagsRegister;
use lr35902_core::instruction::Instruction::{ADD, ADDC, SBC, SUB};

#[test]
fn test_add_registers() {
    let mut cpu = Cpu::new();
    cpu.registers.write_bc(0xAABB);
    cpu.execute(ADD(B)).unwrap();
    assert_eq!(cpu.registers.read_af(), 0xAA00);
}

#[test]
fn test_add_memory() {
    let mut cpu = Cpu::new();
    let address = 0x1234;
    let data = 0xAA;

    cpu.bus.write_byte(address, data);
    cpu.registers.write_hl(address);
    cpu.execute(ADD(HL)).unwrap();
    assert_eq!(cpu.registers.read_af(), 0xAA00);
}

#[test]
fn test_add_immediate() {
    let mut cpu = Cpu::new();
    let address = 0x0001;
    let data = 0x23;

    cpu.bus.write_byte(address, data);
    cpu.execute(ADD(D8)).unwrap();
    assert_eq!(cpu.registers.read_af(), 0x2300);
}

#[test]
fn test_addc_registers() {
    let mut cpu = Cpu::new();

    cpu.registers.write_af(0x0110);
    cpu.registers.write_bc(0xAABB);
    cpu.execute(ADDC(B)).unwrap();
    assert_eq!(cpu.registers.read_af(), 0xAC00);

    cpu.registers.write_af(0x0110);
    cpu.registers.write_bc(0xFF00);
    cpu.execute(ADDC(B)).unwrap();
    assert_eq!(cpu.registers.read_af(), 0x0110);
}

#[test]
fn test_addc_memory() {
    let mut cpu = Cpu::new();
    let address = 0x1234;
    let data = 0xAA;

    cpu.bus.write_byte(address, data);
    cpu.registers.write_hl(address);
    cpu.execute(ADDC(HL)).unwrap();
    assert_eq!(cpu.registers.read_af(), 0xAA00);
}

#[test]
fn test_addc_immediate() {
    let mut cpu = Cpu::new();
    let address = 0x0001;
    let data = 0x23;

    cpu.bus.write_byte(address, data);
    cpu.registers.write_af(0x0110);
    cpu.execute(ADDC(D8)).unwrap();
    assert_eq!(cpu.registers.read_af(), 0x2500);
}

#[test]
fn test_flags_round_trip_all_sixteen() {
    for bits in 0u8..16 {
        let flags = FlagsRegister {
            zero: bits & 8 != 0,
            subtraction: bits & 4 != 0,
            half_carry: bits & 2 != 0,
            carry: bits & 1 != 0,
        };
        let byte = flags.to_byte();
        assert_eq!(byte % 16, 0);
        assert_eq!(FlagsRegister::from_byte(byte), flags);
    }
}

#[test]
fn test_flags_byte_layout() {
    let zero_only = FlagsRegister { zero: true, subtraction: false, half_carry: false, carry: false };
    assert_eq!(zero_only.to_byte(), 0x80);
    let sub_only = FlagsRegister { zero: false, subtraction: true, half_carry: false, carry: false };
    assert_eq!(sub_only.to_byte(), 0x40);
    let half_only = FlagsRegister { zero: false, subtraction: false, half_carry: true, carry: false };
    assert_eq!(half_only.to_byte(), 0x20);
    let carry_only = FlagsRegister { zero: false, subtraction: false, half_carry: false, carry: true };
    assert_eq!(carry_only.to_byte(), 0x10);
}

#[test]
fn test_pair_round_trip() {
    let samples: [u16; 5] = [0x0000, 0x0001, 0xAB12, 0xFF00, 0xFFFF];
    for &v in samples.iter() {
        let mut cpu = Cpu::new();
        cpu.registers.write_bc(v);
        assert_eq!(cpu.registers.read_bc(), v);
        cpu.registers.write_de(v);
        assert_eq!(cpu.registers.read_de(), v);
        cpu.registers.write_hl(v);
        assert_eq!(cpu.registers.read_hl(), v);
        cpu.registers.write_af(v);
        assert_eq!(cpu.registers.read_af(), v & 0xFFF0);
    }
}

#[test]
fn test_add_wraps() {
    let mut cpu = Cpu::new();
    cpu.registers.a = 0xFF;
    let result = cpu.add(0x01);
    assert_eq!(result, 0x00);
    assert!(cpu.registers.f.carry);
    assert!(cpu.registers.f.zero);
    assert!(cpu.registers.f.half_carry);
    assert!(!cpu.registers.f.subtraction);
}

#[test]
fn test_add_half_carry_boundary() {
    let mut cpu = Cpu::new();
    cpu.registers.a = 0x0F;
    cpu.add(0x01);
    assert!(cpu.registers.f.half_carry);
    assert!(!cpu.registers.f.carry);

    cpu.registers.a = 0x0E;
    cpu.add(0x01);
    assert!(!cpu.registers.f.half_carry);
}

#[test]
fn test_addc_folds_incoming_carry() {
    let mut cpu = Cpu::new();
    cpu.registers.a = 0x01;
    cpu.registers.f.carry = true;
    let result = cpu.addc(0xFF);
    assert_eq!(result, 0x01);
    assert!(cpu.registers.f.carry);
    assert!(!cpu.registers.f.zero);
    assert!(!cpu.registers.f.subtraction);
}

#[test]
fn test_decode_totality() {
    let mut defined: u32 = 0;
    for opcode in 0u16..=0xFF {
        if Instruction::from_byte(opcode as u8).is_some() {
            defined += 1;
        }
    }
    assert_eq!(defined, 36);
}

#[test]
fn test_decode_table_entries() {
    assert_eq!(Instruction::from_byte(0x80), Some(ADD(ArithmeticTarget::B)));
    assert_eq!(Instruction::from_byte(0x86), Some(ADD(ArithmeticTarget::HL)));
    assert_eq!(Instruction::from_byte(0x87), Some(ADD(ArithmeticTarget::A)));
    assert_eq!(Instruction::from_byte(0x8E), Some(ADDC(ArithmeticTarget::HL)));
    assert_eq!(Instruction::from_byte(0x97), Some(SUB(ArithmeticTarget::A)));
    assert_eq!(Instruction::from_byte(0x9D), Some(SBC(ArithmeticTarget::L)));
    assert_eq!(Instruction::from_byte(0xC6), Some(ADD(ArithmeticTarget::D8)));
    assert_eq!(Instruction::from_byte(0xCE), Some(ADDC(ArithmeticTarget::D8)));
    assert_eq!(Instruction::from_byte(0xD6), Some(SUB(ArithmeticTarget::D8)));
    assert_eq!(Instruction::from_byte(0xDE), Some(SBC(ArithmeticTarget::D8)));
    assert_eq!(Instruction::from_byte(0x00), None);
    assert_eq!(Instruction::from_byte(0x7F), None);
    assert_eq!(Instruction::from_byte(0xA0), None);
    assert_eq!(Instruction::from_byte(0xFF), None);
}

#[test]
fn test_run_unknown_opcode() {
    let mut cpu = Cpu::new();
    cpu.pc = 0x0200;
    cpu.bus.write_byte(0x0200, 0xFF);
    let result = cpu.run();
    assert_eq!(result, Err(CpuError::UnknownOpcode { opcode: 0xFF, address: 0x0200 }));
    assert_eq!(cpu.pc, 0x0200);
}

#[test]
fn test_run_commits_pc() {
    let mut cpu = Cpu::new();
    cpu.bus.write_byte(0x0000, 0x80);
    cpu.registers.b = 0x05;
    cpu.run().unwrap();
    assert_eq!(cpu.registers.a, 0x05);
    assert_eq!(cpu.pc, 0x0001);
}

#[test]
fn test_run_immediate_advances_two() {
    let mut cpu = Cpu::new();
    cpu.bus.write_byte(0x0000, 0xC6);
    cpu.bus.write_byte(0x0001, 0x23);
    cpu.run().unwrap();
    assert_eq!(cpu.registers.a, 0x23);
    assert_eq!(cpu.pc, 0x0002);
}

#[test]
fn test_run_unimplemented_leaves_state() {
    let mut cpu = Cpu::new();
    cpu.bus.write_byte(0x0000, 0x90);
    cpu.registers.a = 0x33;
    let result = cpu.run();
    assert_eq!(result, Err(CpuError::Unimplemented { instruction: SUB(B) }));
    assert_eq!(cpu.registers.a, 0x33);
    assert_eq!(cpu.pc, 0x0000);
}

#[test]
fn test_execute_unimplemented() {
    let mut cpu = Cpu::new();
    cpu.registers.write_af(0x7720);
    let result = cpu.execute(SBC(B));
    assert_eq!(result, Err(CpuError::Unimplemented { instruction: SBC(B) }));
    assert_eq!(cpu.registers.read_af(), 0x7720);
    assert_eq!(cpu.pc, 0x0000);
}

#[test]
fn test_pc_wraps_at_address_space_end() {
    let mut cpu = Cpu::new();
    cpu.pc = 0xFFFF;
    let next = cpu.execute(ADD(B)).unwrap();
    assert_eq!(next, 0x0000);

    let mut cpu = Cpu::new();
    cpu.pc = 0xFFFF;
    cpu.bus.write_byte(0x0000, 0x42);
    let next = cpu.execute(ADD(D8)).unwrap();
    assert_eq!(next, 0x0001);
    assert_eq!(cpu.registers.a, 0x42);
}
