use lc3_vm::instructions::{Instruction, Register, TrapCode, VMError};
use lc3_vm::terminal::KeyboardAddresses;

#[test]
fn encode_add() {
    let instruction = Instruction::Add {
        destination: Register::R0,
        source_1: Register::R0,
        source_2: Register::R1,
        mode: 0,
        value: Register::R1 as u16,
    };
    let encoded = instruction.encode();
    assert_eq!(0x1001, encoded);
}

#[test]
fn decode_add() {
    let decoded = Instruction::decode(0x1001);
    let instruction = Instruction::Add {
        destination: Register::R0,
        source_1: Register::R0,
        source_2: Register::R1,
        mode: 0,
        value: Register::R1 as u16,
    };
    assert_eq!(instruction, decoded.unwrap());
}

#[test]
fn decode_add_immediate_negative() {
    // ADD R2, R3, #-1
    let decoded = Instruction::decode(0x14FF).unwrap();
    assert_eq!(
        decoded,
        Instruction::Add {
            destination: Register::R2,
            source_1: Register::R3,
            source_2: Register::R7,
            mode: 1,
            value: 0xFFFF,
        }
    );
    assert_eq!(decoded.encode(), 0x14FF);
}

#[test]
fn decode_and_register() {
    let decoded = Instruction::decode(0x5A42).unwrap();
    assert_eq!(
        decoded,
        Instruction::And {
            destination: Register::R5,
            source_1: Register::R1,
            source_2: Register::R2,
            mode: 0,
            value: 2,
        }
    );
    assert_eq!(decoded.encode(), 0x5A42);
}

#[test]
fn decode_branch_negative_offset() {
    // BRn #-3
    let decoded = Instruction::decode(0x09FD).unwrap();
    assert_eq!(decoded, Instruction::Branch { flag: 4, offset: 0xFFFD });
    assert_eq!(decoded.encode(), 0x09FD);
}

#[test]
fn decode_load_family() {
    assert_eq!(
        Instruction::decode(0x2205).unwrap(),
        Instruction::Load { destination: Register::R1, offset: 5 }
    );
    assert_eq!(
        Instruction::decode(0x3400).unwrap(),
        Instruction::Store { source: Register::R2, offset: 0 }
    );
    assert_eq!(
        Instruction::decode(0xA7FF).unwrap(),
        Instruction::LoadIndirect { destination: Register::R3, offset: 0xFFFF }
    );
    assert_eq!(
        Instruction::decode(0xB900).unwrap(),
        Instruction::StoreIndirect { source: Register::R4, offset: 0xFF00 }
    );
    assert_eq!(
        Instruction::decode(0xE1FF).unwrap(),
        Instruction::LoadEffectiveAddress { destination: Register::R0, offset: 0xFFFF }
    );
    assert_eq!(
        Instruction::decode(0x6A7F).unwrap(),
        Instruction::LoadRegister { destination: Register::R5, source: Register::R1, offset: 0xFFFF }
    );
    assert_eq!(
        Instruction::decode(0x7C60).unwrap(),
        Instruction::StoreRegister { source_1: Register::R6, source_2: Register::R1, offset: 0xFFE0 }
    );
}

#[test]
fn decode_not_jump_and_subroutines() {
    assert_eq!(
        Instruction::decode(0x967F).unwrap(),
        Instruction::Not { destination: Register::R3, source: Register::R1 }
    );
    assert_eq!(
        Instruction::decode(0xC1C0).unwrap(),
        Instruction::Jump { source: Register::R7 }
    );
    // JSR with an offset of -1
    assert_eq!(
        Instruction::decode(0x4FFF).unwrap(),
        Instruction::JumpRegister { source: Register::R7, mode: 1, offset: 0xFFFF }
    );
    // JSRR R2
    assert_eq!(
        Instruction::decode(0x4080).unwrap(),
        Instruction::JumpRegister { source: Register::R2, mode: 0, offset: 0x0080 }
    );
}

#[test]
fn decode_traps() {
    assert_eq!(
        Instruction::decode(0xF025).unwrap(),
        Instruction::Trap { routine: TrapCode::Halt }
    );
    assert_eq!(
        Instruction::decode(0xF020).unwrap(),
        Instruction::Trap { routine: TrapCode::Getc }
    );
    assert_eq!(TrapCode::Putsp.code(), 0x24);
}

#[test]
fn decode_unknown_trap_fails() {
    match Instruction::decode(0xF0FF) {
        Err(VMError::TrapCodeDecode { repr }) => assert_eq!(repr, 0xFF),
        other => panic!("unexpected {:?}", other),
    }
    match Instruction::decode(0xF326) {
        Err(VMError::TrapCodeDecode { repr }) => assert_eq!(repr, 0x26),
        other => panic!("unexpected {:?}", other),
    }
}

#[test]
fn decode_reserved_fails() {
    match Instruction::decode(0x8000) {
        Err(VMError::ReservedInstruction { repr }) => assert_eq!(repr, 0x8000),
        other => panic!("unexpected {:?}", other),
    }
    match Instruction::decode(0xD123) {
        Err(VMError::ReservedInstruction { repr }) => assert_eq!(repr, 0xD123),
        other => panic!("unexpected {:?}", other),
    }
}

#[test]
fn encode_each_kind() {
    assert_eq!(Instruction::Not { destination: Register::R3, source: Register::R1 }.encode(), 0x9640);
    assert_eq!(Instruction::Jump { source: Register::R7 }.encode(), 0xC1C0);
    assert_eq!(Instruction::Trap { routine: TrapCode::Out }.encode(), 0xF021);
    assert_eq!(Instruction::Noop.encode(), 0);
    assert_eq!(Instruction::Branch { flag: 0xF, offset: 0x0203 }.encode(), 0x0E03);
    assert_eq!(
        Instruction::LoadRegister { destination: Register::R5, source: Register::R1, offset: 0xFFFF }
            .encode(),
        0x6A7F
    );
    assert_eq!(
        Instruction::JumpRegister { source: Register::R1, mode: 1, offset: 0x8FF }.encode(),
        0x48FF
    );
    // JSRR R2: the base register is bits 6 to 8 of the offset field
    assert_eq!(
        Instruction::JumpRegister { source: Register::R2, mode: 0, offset: 0x0080 }.encode(),
        0x4080
    );
}

#[test]
fn encode_decode_round_trip_all_canonical_words() {
    for word in 0u16..=0xFFFF {
        let opcode = word >> 12;
        let keeps_every_bit = opcode <= 7
            || opcode == 10
            || opcode == 11
            || opcode == 14;
        if keeps_every_bit {
            let decoded = Instruction::decode(word).unwrap();
            assert_eq!(decoded.encode(), word);
            assert_eq!(Instruction::decode(decoded.encode()).unwrap(), decoded);
        }
        if let Ok(decoded) = Instruction::decode(word) {
            assert_eq!(Instruction::decode(decoded.encode()).unwrap(), decoded);
        }
    }
}

#[test]
fn decode_encode_subroutine_words() {
    let decoded = Instruction::decode(0x48FF).unwrap();
    assert_eq!(decoded, Instruction::JumpRegister { source: Register::R3, mode: 1, offset: 0x00FF });
    assert_eq!(decoded.encode(), 0x48FF);
    // NOT keeps no low bits, JMP only its base register, TRAP its low byte
    assert_eq!(Instruction::decode(0x967F).unwrap().encode(), 0x9640);
    assert_eq!(Instruction::decode(0xCFFF).unwrap().encode(), 0xC1C0);
    assert_eq!(Instruction::decode(0xFA25).unwrap().encode(), 0xF025);
}

#[test]
fn keyboard_addresses() {
    assert_eq!(KeyboardAddresses::Status.address(), 0xFE00);
    assert_eq!(KeyboardAddresses::Data.address(), 0xFE02);
}
