use lc3_vm::instructions::{ConditionFlag, Instruction, Register};
use lc3_vm::vm::VirtualMachine;

#[test]
fn vm_add() {
    let instruction = Instruction::Add {
        destination: Register::R0,
        source_1: Register::R0,
        source_2: Register::R1,
        mode: 0,
        value: Register::R1 as u16,
    };
    let mut vm = VirtualMachine::new();
    vm.registers[Register::R1 as usize] = 2;
    vm.execute_instruction(instruction);
    assert_eq!(vm.registers[Register::R0 as usize], 2);
    assert_eq!(
        vm.registers[Register::Cond as usize],
        ConditionFlag::Positive.value()
    );
}

#[test]
fn vm_add_immediate() {
    let instruction = Instruction::Add {
        destination: Register::R0,
        source_1: Register::R0,
        source_2: Register::R1,
        mode: 1,
        value: 5,
    };
    let mut vm = VirtualMachine::new();
    vm.registers[Register::R1 as usize] = 2;
    vm.execute_instruction(instruction);
    assert_eq!(vm.registers[Register::R0 as usize], 5);
    assert_eq!(
        vm.registers[Register::Cond as usize],
        ConditionFlag::Positive.value()
    );
}

#[test]
fn vm_add_immediate_negative() {
    let instruction = Instruction::Add {
        destination: Register::R0,
        source_1: Register::R0,
        source_2: Register::R1,
        mode: 1,
        value: 0xFFFF, // -1
    };
    let mut vm = VirtualMachine::new();
    vm.registers[Register::R1 as usize] = 2;
    vm.execute_instruction(instruction);
    assert_eq!(vm.registers[Register::R0 as usize], 0xFFFF);
    assert_eq!(
        vm.registers[Register::Cond as usize],
        ConditionFlag::Negative.value()
    );
}

#[test]
fn vm_add_immediate_negative_2() {
    let instruction = Instruction::Add {
        destination: Register::R0,
        source_1: Register::R0,
        source_2: Register::R1,
        mode: 1,
        value: 0xFFF0, // -16
    };
    let mut vm = VirtualMachine::new();
    vm.registers[Register::R1 as usize] = 2;
    vm.execute_instruction(instruction);
    assert_eq!(vm.registers[Register::R0 as usize].wrapping_add(16), 0);
    assert_eq!(
        vm.registers[Register::Cond as usize],
        ConditionFlag::Negative.value()
    );
}

#[test]
fn vm_add_shouldnt_panic_overflow() {
    let instruction = Instruction::Add {
        destination: Register::R0,
        source_1: Register::R0,
        source_2: Register::R1,
        mode: 0,
        value: Register::R1 as u16, // 15
    };
    let mut vm = VirtualMachine::new();
    vm.registers[Register::R0 as usize] = u16::MAX;
    vm.registers[Register::R1 as usize] = 2;
    vm.execute_instruction(instruction);
    assert_eq!(vm.registers[Register::R0 as usize], 1);
    assert_eq!(
        vm.registers[Register::Cond as usize],
        ConditionFlag::Positive.value()
    );
}

#[test]
fn vm_add_immediate_shouldnt_panic_overflow() {
    let instruction = Instruction::Add {
        destination: Register::R0,
        source_1: Register::R0,
        source_2: Register::R1,
        mode: 1,
        value: 0x000F, // 15
    };
    let mut vm = VirtualMachine::new();
    vm.registers[Register::R0 as usize] = u16::MAX - 14;
    vm.execute_instruction(instruction);
    assert_eq!(vm.registers[Register::R0 as usize], 0);
    assert_eq!(
        vm.registers[Register::Cond as usize],
        ConditionFlag::Zero.value()
    );
}

#[test]
fn vm_and() {
    let instruction = Instruction::And {
        destination: Register::R0,
        source_1: Register::R0,
        source_2: Register::R1,
        mode: 0,
        value: Register::R1 as u16,
    };
    let mut vm = VirtualMachine::new();
    vm.registers[Register::R0 as usize] = 0xFFF0;
    vm.registers[Register::R1 as usize] = 0x0FFF;
    vm.execute_instruction(instruction);
    assert_eq!(vm.registers[Register::R0 as usize], 0x0FF0);
    assert_eq!(
        vm.registers[Register::Cond as usize],
        ConditionFlag::Positive.value()
    );
}

#[test]
fn vm_and_immediate() {
    let instruction = Instruction::And {
        destination: Register::R0,
        source_1: Register::R0,
        source_2: Register::R1,
        mode: 1,
        value: 0xFFFF,
    };
    let mut vm = VirtualMachine::new();
    vm.registers[Register::R0 as usize] = 0xFF00;
    vm.execute_instruction(instruction);
    assert_eq!(vm.registers[Register::R0 as usize], 0xFF00);
    assert_eq!(
        vm.registers[Register::Cond as usize],
        ConditionFlag::Negative.value()
    );
}

#[test]
fn vm_not() {
    let instruction = Instruction::Not {
        destination: Register::R0,
        source: Register::R0,
    };
    let mut vm = VirtualMachine::new();
    vm.registers[Register::R0 as usize] = 0xFF00;
    vm.execute_instruction(instruction);
    assert_eq!(vm.registers[Register::R0 as usize], 0x00FF);
    assert_eq!(
        vm.registers[Register::Cond as usize],
        ConditionFlag::Positive.value()
    );
}

#[test]
fn vm_load() {
    let instruction = Instruction::Load {
        destination: Register::R0,
        offset: 3,
    };
    let mut vm = VirtualMachine::new();
    vm.memory[3] = 45;
    vm.execute_instruction(instruction);
    assert_eq!(vm.registers[Register::R0 as usize], 45);
    assert_eq!(
        vm.registers[Register::Cond as usize],
        ConditionFlag::Positive.value()
    );
}

#[test]
fn vm_load_negative() {
    let instruction = Instruction::Load {
        destination: Register::R0,
        offset: 0xFFFD,
    };
    let mut vm = VirtualMachine::new();
    vm.memory[3] = 45;
    vm.registers[Register::PC as usize] = 6;
    vm.execute_instruction(instruction);
    assert_eq!(vm.registers[Register::R0 as usize], 45);
    assert_eq!(
        vm.registers[Register::Cond as usize],
        ConditionFlag::Positive.value()
    );
}

#[test]
fn vm_load_indirect() {
    let instruction = Instruction::LoadIndirect {
        destination: Register::R0,
        offset: 3,
    };
    let mut vm = VirtualMachine::new();
    vm.memory[3] = 45;
    vm.memory[45] = 42;
    vm.execute_instruction(instruction);
    assert_eq!(vm.registers[Register::R0 as usize], 42);
    assert_eq!(
        vm.registers[Register::Cond as usize],
        ConditionFlag::Positive.value()
    );
}

#[test]
fn vm_load_indirect_negative() {
    let instruction = Instruction::LoadIndirect {
        destination: Register::R0,
        offset: 0xFFFD,
    };
    let mut vm = VirtualMachine::new();
    vm.memory[3] = 45;
    vm.memory[45] = 42;
    vm.registers[Register::PC as usize] = 6;
    vm.execute_instruction(instruction);
    assert_eq!(vm.registers[Register::R0 as usize], 42);
    assert_eq!(
        vm.registers[Register::Cond as usize],
        ConditionFlag::Positive.value()
    );
}

#[test]
fn vm_load_register() {
    let instruction = Instruction::LoadRegister {
        destination: Register::R0,
        source: Register::R0,
        offset: 3,
    };
    let mut vm = VirtualMachine::new();
    vm.memory[3] = 45;
    vm.memory[45] = 42;
    vm.execute_instruction(instruction);
    assert_eq!(vm.registers[Register::R0 as usize], 45);
    assert_eq!(
        vm.registers[Register::Cond as usize],
        ConditionFlag::Positive.value()
    );
}

#[test]
fn vm_load_effective_address() {
    let instruction = Instruction::LoadEffectiveAddress {
        destination: Register::R0,
        offset: 3,
    };
    let mut vm = VirtualMachine::new();
    vm.memory[3] = 45;
    vm.memory[45] = 42;
    vm.execute_instruction(instruction);
    assert_eq!(vm.registers[Register::R0 as usize], 3);
    assert_eq!(
        vm.registers[Register::Cond as usize],
        ConditionFlag::Positive.value()
    );
}

#[test]
fn vm_branch() {
    let instruction = Instruction::Branch {
        flag: ConditionFlag::Negative.value(),
        offset: 16,
    };
    let mut vm = VirtualMachine::new();
    vm.registers[Register::Cond as usize] = ConditionFlag::Negative.value();
    vm.execute_instruction(instruction);
    assert_eq!(vm.registers[Register::PC as usize], 16);
}

#[test]
fn vm_branch_fail() {
    let instruction = Instruction::Branch {
        flag: ConditionFlag::Positive.value(),
        offset: 16,
    };
    let mut vm = VirtualMachine::new();
    vm.registers[Register::PC as usize] = 3;
    vm.registers[Register::Cond as usize] = ConditionFlag::Negative.value();
    vm.execute_instruction(instruction);
    assert_eq!(vm.registers[Register::PC as usize], 3);
}

#[test]
fn vm_jump() {
    let instruction = Instruction::Jump {
        source: Register::R1,
    };
    let mut vm = VirtualMachine::new();
    vm.registers[Register::PC as usize] = 3;
    vm.registers[Register::R1 as usize] = 6;
    vm.execute_instruction(instruction);
    assert_eq!(vm.registers[Register::PC as usize], 6);
}

#[test]
fn vm_jump_immediate() {
    let instruction = Instruction::JumpRegister {
        source: Register::R1,
        mode: 1,
        offset: 0x8FF,
    };
    let mut vm = VirtualMachine::new();
    vm.registers[Register::PC as usize] = 3;
    vm.registers[Register::R1 as usize] = 6;
    vm.execute_instruction(instruction);
    assert_eq!(vm.registers[Register::PC as usize], 0x8FF + 3);
}

#[test]
fn vm_jump_register() {
    let instruction = Instruction::JumpRegister {
        source: Register::R1,
        mode: 0,
        offset: 0x40,
    };
    let mut vm = VirtualMachine::new();
    vm.registers[Register::PC as usize] = 3;
    vm.registers[Register::R1 as usize] = 6;
    vm.execute_instruction(instruction);
    assert_eq!(vm.registers[Register::PC as usize], 6);
}

#[test]
fn vm_new_is_zeroed() {
    let vm = VirtualMachine::new();
    assert!(vm.registers.iter().all(|r| *r == 0));
    assert!(vm.memory.iter().all(|w| *w == 0));
    assert_eq!(vm.memory.len(), 65536);
}

#[test]
fn vm_flags_of_each_sign() {
    let mut vm = VirtualMachine::new();
    vm.registers[Register::R1 as usize] = 0x7FFF;
    vm.execute_instruction(Instruction::Add {
        destination: Register::R0,
        source_1: Register::R1,
        source_2: Register::R2,
        mode: 1,
        value: 0,
    });
    assert_eq!(vm.registers[Register::Cond as usize], ConditionFlag::Positive.value());
    vm.execute_instruction(Instruction::Add {
        destination: Register::R0,
        source_1: Register::R1,
        source_2: Register::R2,
        mode: 1,
        value: 1,
    });
    assert_eq!(vm.registers[Register::R0 as usize], 0x8000);
    assert_eq!(vm.registers[Register::Cond as usize], ConditionFlag::Negative.value());
    vm.execute_instruction(Instruction::And {
        destination: Register::R3,
        source_1: Register::R1,
        source_2: Register::R2,
        mode: 1,
        value: 0x8000,
    });
    assert_eq!(vm.registers[Register::R3 as usize], 0);
    assert_eq!(vm.registers[Register::Cond as usize], ConditionFlag::Zero.value());
}

#[test]
fn vm_result_into_condition_register_is_overwritten_by_flag() {
    let mut vm = VirtualMachine::new();
    vm.registers[Register::R1 as usize] = 5;
    vm.execute_instruction(Instruction::Add {
        destination: Register::Cond,
        source_1: Register::R1,
        source_2: Register::R1,
        mode: 0,
        value: 1,
    });
    assert_eq!(vm.registers[Register::Cond as usize], ConditionFlag::Positive.value());
}

#[test]
fn vm_not_of_zero_is_negative() {
    let mut vm = VirtualMachine::new();
    vm.execute_instruction(Instruction::Not { destination: Register::R2, source: Register::R5 });
    assert_eq!(vm.registers[Register::R2 as usize], 0xFFFF);
    assert_eq!(vm.registers[Register::Cond as usize], ConditionFlag::Negative.value());
}

#[test]
fn vm_load_register_wraps_address() {
    let instruction = Instruction::LoadRegister {
        destination: Register::R4,
        source: Register::R3,
        offset: 0xFFFE,
    };
    let mut vm = VirtualMachine::new();
    vm.registers[Register::R3 as usize] = 7;
    vm.memory[5] = 0x9000;
    vm.execute_instruction(instruction);
    assert_eq!(vm.registers[Register::R4 as usize], 0x9000);
    assert_eq!(vm.registers[Register::Cond as usize], ConditionFlag::Negative.value());
}

#[test]
fn vm_load_effective_address_wraps() {
    let mut vm = VirtualMachine::new();
    vm.registers[Register::PC as usize] = 2;
    vm.execute_instruction(Instruction::LoadEffectiveAddress {
        destination: Register::R1,
        offset: 0xFFFE,
    });
    assert_eq!(vm.registers[Register::R1 as usize], 0);
    assert_eq!(vm.registers[Register::Cond as usize], ConditionFlag::Zero.value());
}

#[test]
fn vm_jump_links_return_address() {
    let mut vm = VirtualMachine::new();
    vm.registers[Register::PC as usize] = 0x3000;
    vm.execute_instruction(Instruction::JumpRegister {
        source: Register::R1,
        mode: 1,
        offset: 0xFFFF,
    });
    assert_eq!(vm.registers[Register::R7 as usize], 0x3000);
    assert_eq!(vm.registers[Register::PC as usize], 0x2FFF);

    // JSRR R7 jumps to the return address it has just written
    let mut vm = VirtualMachine::new();
    vm.registers[Register::PC as usize] = 0x3000;
    vm.registers[Register::R7 as usize] = 0x4000;
    vm.execute_instruction(Instruction::JumpRegister {
        source: Register::R7,
        mode: 0,
        offset: 0,
    });
    assert_eq!(vm.registers[Register::R7 as usize], 0x3000);
    assert_eq!(vm.registers[Register::PC as usize], 0x3000);
}

#[test]
fn vm_branch_on_shared_condition_bit() {
    // BRnzp is always taken; BRnp is not taken on zero
    let mut vm = VirtualMachine::new();
    vm.registers[Register::Cond as usize] = ConditionFlag::Zero.value();
    vm.execute_instruction(Instruction::Branch { flag: 7, offset: 4 });
    assert_eq!(vm.registers[Register::PC as usize], 4);
    vm.execute_instruction(Instruction::Branch { flag: 5, offset: 4 });
    assert_eq!(vm.registers[Register::PC as usize], 4);
    vm.execute_instruction(Instruction::Branch { flag: 2, offset: 0xFFFF });
    assert_eq!(vm.registers[Register::PC as usize], 3);
}

#[test]
fn vm_stores_write_one_word() {
    let mut vm = VirtualMachine::new();
    vm.registers[Register::R1 as usize] = 9;
    vm.registers[Register::R2 as usize] = 0x4000;
    vm.registers[Register::PC as usize] = 0x3000;
    vm.execute_instruction(Instruction::Store { source: Register::R1, offset: 0xFFFF });
    assert_eq!(vm.memory[0x2FFF], 9);
    vm.memory[0x3001] = 0x5000;
    vm.execute_instruction(Instruction::StoreIndirect { source: Register::R2, offset: 1 });
    assert_eq!(vm.memory[0x5000], 0x4000);
    vm.execute_instruction(Instruction::StoreRegister {
        source_1: Register::R1,
        source_2: Register::R2,
        offset: 0xFFE0,
    });
    assert_eq!(vm.memory[0x3FE0], 9);
    assert_eq!(vm.registers[Register::Cond as usize], 0);
    assert_eq!(vm.memory.iter().filter(|w| **w != 0).count(), 4);
}

#[test]
fn vm_traps_and_noop_leave_machine_unchanged() {
    let mut vm = VirtualMachine::new();
    vm.registers[Register::R1 as usize] = 9;
    vm.registers[Register::PC as usize] = 0x3000;
    let before = vm;
    vm.execute_instruction(Instruction::Trap { routine: lc3_vm::instructions::TrapCode::Halt });
    vm.execute_instruction(Instruction::Noop);
    assert_eq!(vm.registers, before.registers);
    assert!(vm.memory == before.memory);
}

#[test]
fn vm_top_address_is_memory() {
    let mut vm = VirtualMachine::new();
    vm.memory[0xFFFF] = 0x1234;
    vm.memory[0x0005] = 0xFFFF;
    vm.registers[Register::PC as usize] = 1;
    vm.execute_instruction(Instruction::LoadIndirect { destination: Register::R0, offset: 4 });
    assert_eq!(vm.registers[Register::R0 as usize], 0x1234);
    vm.execute_instruction(Instruction::Load { destination: Register::R1, offset: 0xFFFE });
    assert_eq!(vm.registers[Register::R1 as usize], 0x1234);
}

#[test]
fn vm_decoded_program_runs() {
    // LEA R0, #2 ; ADD R1, R0, #-3 ; AND R2, R1, R0
    let mut vm = VirtualMachine::new();
    vm.registers[Register::PC as usize] = 0x10;
    for word in [0xE002u16, 0x123D, 0x5440] {
        let instruction = Instruction::decode(word).unwrap();
        vm.execute_instruction(instruction);
    }
    assert_eq!(vm.registers[Register::R0 as usize], 0x12);
    assert_eq!(vm.registers[Register::R1 as usize], 0x0F);
    assert_eq!(vm.registers[Register::R2 as usize], 0x02);
    assert_eq!(vm.registers[Register::Cond as usize], ConditionFlag::Positive.value());
}

#[test]
fn vm_other_registers_unchanged() {
    let mut vm = VirtualMachine::new();
    for i in 0..8 {
        vm.registers[i] = 100 + i as u16;
    }
    vm.registers[Register::PC as usize] = 0x3000;
    let before = vm;
    vm.execute_instruction(Instruction::Not { destination: Register::R4, source: Register::R2 });
    for i in 0..9 {
        if i != Register::R4 as usize {
            assert_eq!(vm.registers[i], before.registers[i]);
        }
    }
    assert_eq!(vm.registers[Register::R4 as usize], !102u16);
}
