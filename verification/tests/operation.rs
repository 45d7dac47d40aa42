use nes_rust::cpu::CpuStatusRegister;
use nes_rust::operation::{instruction_name, operation, AddressingModes, InstructionTypes};

#[test]
fn every_documented_operation_code_has_its_instruction_mode_and_cycles() {
    let op = operation(0xA9);
    assert_eq!(InstructionTypes::LDA, op.instruction_type);
    assert_eq!(AddressingModes::Immediate, op.addressing_mode);
    assert_eq!(2, op.cycle);
    let op = operation(0x6C);
    assert_eq!(InstructionTypes::JMP, op.instruction_type);
    assert_eq!(AddressingModes::Indirect, op.addressing_mode);
    assert_eq!(5, op.cycle);
    let op = operation(0x00);
    assert_eq!(InstructionTypes::BRK, op.instruction_type);
    assert_eq!(7, op.cycle);
    let op = operation(0x91);
    assert_eq!(InstructionTypes::STA, op.instruction_type);
    assert_eq!(AddressingModes::IndexedIndirectY, op.addressing_mode);
    assert_eq!(6, op.cycle);
    let op = operation(0xFE);
    assert_eq!(InstructionTypes::INC, op.instruction_type);
    assert_eq!(AddressingModes::IndexedAbsoluteX, op.addressing_mode);
    assert_eq!(7, op.cycle);
    let op = operation(0x96);
    assert_eq!(InstructionTypes::STX, op.instruction_type);
    assert_eq!(AddressingModes::IndexedZeroPageY, op.addressing_mode);
    assert_eq!(4, op.cycle);
}

#[test]
fn there_are_151_operation_codes_for_56_instructions() {
    let mut valid = 0;
    let mut seen = Vec::new();
    for opc in 0..=255u8 {
        let op = operation(opc);
        if op.instruction_type == InstructionTypes::INV {
            assert_eq!(1, op.cycle);
        } else {
            valid += 1;
            assert!(2 <= op.cycle && op.cycle <= 7);
            if !seen.contains(&op.instruction_type) {
                seen.push(op.instruction_type);
            }
        }
    }
    assert_eq!(151, valid);
    assert_eq!(56, seen.len());
    for opc in [0x02u8, 0x03, 0x04, 0x80, 0xFF] {
        assert_eq!(InstructionTypes::INV, operation(opc).instruction_type);
    }
}

#[test]
fn instructions_have_their_names_in_lower_case() {
    assert_eq!("lda", instruction_name(InstructionTypes::LDA));
    assert_eq!("ora", instruction_name(InstructionTypes::ORA));
    assert_eq!("cmp", instruction_name(InstructionTypes::CMP));
    assert_eq!("inv", instruction_name(InstructionTypes::INV));
    assert_eq!("tya", instruction_name(InstructionTypes::TYA));
}

#[test]
fn the_status_register_sets_tests_and_clears_each_flag() {
    let mut p = CpuStatusRegister::new();
    assert_eq!(0, p.load());
    p.set_n();
    p.set_z();
    assert!(p.is_n() && p.is_z() && !p.is_c() && !p.is_v());
    assert_eq!(0x82, p.load());
    p.set_v();
    p.set_a();
    p.set_b();
    p.set_d();
    p.set_i();
    p.set_c();
    assert_eq!(0xFF, p.load());
    assert!(p.is_a() && p.is_b() && p.is_d() && p.is_i());
    p.clear_n();
    p.clear_d();
    p.clear_c();
    assert_eq!(0x76, p.load());
    p.clear_v();
    p.clear_a();
    p.clear_b();
    p.clear_i();
    p.clear_z();
    assert_eq!(0x00, p.load());
    p.store(0xA5);
    assert_eq!("0xa5(N-A--I-C)", p.dump());
    p.store(0x5A);
    assert_eq!("0x5a(-V-BD-Z-)", p.dump());
}
