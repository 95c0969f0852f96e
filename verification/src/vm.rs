use vstd::prelude::*;
use crate::instructions::{ConditionFlag, Instruction, Register, REGISTER_COUNTER};

verus! {

/// Number of memory words: one for every 16-bit address.
pub const MEMORY_SIZE: usize = 65536;

/// Sum of two words, modulo 2^16.
pub open spec fn add16(a: u16, b: u16) -> u16 {
    ((a + b) % 0x10000) as u16
}

/// A word read as a two's-complement number.
pub open spec fn signed(value: u16) -> int {
    if value < 0x8000 {
        value as int
    } else {
        value - 0x10000
    }
}

/// The condition code of a computed value: its sign.
pub open spec fn condition_of(value: u16) -> ConditionFlag {
    if signed(value) < 0 {
        ConditionFlag::Negative
    } else if signed(value) == 0 {
        ConditionFlag::Zero
    } else {
        ConditionFlag::Positive
    }
}

/// What a machine holds: its register file and its memory.
#[verifier::ext_equal]
pub struct MachineState {
    pub registers: Seq<u16>,
    pub memory: Seq<u16>,
}

impl MachineState {
    pub open spec fn reg(self, register: Register) -> u16 {
        self.registers[register.id() as int]
    }

    pub open spec fn at(self, address: u16) -> u16 {
        self.memory[address as int]
    }

    /// The state with `register` holding `value`.
    pub open spec fn set(self, register: Register, value: u16) -> MachineState {
        MachineState { registers: self.registers.update(register.id() as int, value), ..self }
    }

    /// The state after an instruction computed `value` into `destination`:
    /// the condition register then holds the condition code of `value`.
    pub open spec fn with_result(self, destination: Register, value: u16) -> MachineState {
        self.set(destination, value).set(Register::Cond, condition_of(value).bit())
    }

    /// The state with the memory word at `address` holding `value`.
    pub open spec fn store(self, address: u16, value: u16) -> MachineState {
        MachineState { memory: self.memory.update(address as int, value), ..self }
    }

    /// The state after executing `instruction`. A branch is taken when its
    /// condition field shares a bit with the condition register. Traps and
    /// `Noop` leave the machine as it is.
    pub open spec fn execute(self, instruction: Instruction) -> MachineState {
        let pc = self.reg(Register::PC);
        match instruction {
            Instruction::Add { destination, source_1, source_2, mode, value } => if mode == 0 {
                self.with_result(destination, add16(self.reg(source_1), self.reg(source_2)))
            } else {
                self.with_result(destination, add16(value, self.reg(source_1)))
            },
            Instruction::And { destination, source_1, source_2, mode, value } => if mode == 0 {
                self.with_result(destination, self.reg(source_1) & self.reg(source_2))
            } else {
                self.with_result(destination, value & self.reg(source_1))
            },
            Instruction::Not { destination, source } => self.with_result(
                destination,
                (0xFFFF - self.reg(source)) as u16,
            ),
            Instruction::Load { destination, offset } => self.with_result(
                destination,
                self.at(add16(pc, offset)),
            ),
            Instruction::LoadRegister { destination, source, offset } => self.with_result(
                destination,
                self.at(add16(self.reg(source), offset)),
            ),
            Instruction::LoadIndirect { destination, offset } => self.with_result(
                destination,
                self.at(self.at(add16(pc, offset))),
            ),
            Instruction::LoadEffectiveAddress { destination, offset } => self.with_result(
                destination,
                add16(pc, offset),
            ),
            Instruction::Branch { flag, offset } => if flag & self.reg(Register::Cond) != 0 {
                self.set(Register::PC, add16(pc, offset))
            } else {
                self
            },
            Instruction::Jump { source } => self.set(Register::PC, self.reg(source)),
            Instruction::JumpRegister { source, mode, offset } => {
                let linked = self.set(Register::R7, pc);
                if mode == 1 {
                    linked.set(Register::PC, add16(pc, offset))
                } else {
                    linked.set(Register::PC, linked.reg(source))
                }
            },
            Instruction::Store { source, offset } => self.store(add16(pc, offset), self.reg(source)),
            Instruction::StoreIndirect { source, offset } => self.store(
                self.at(add16(pc, offset)),
                self.reg(source),
            ),
            Instruction::StoreRegister { source_1, source_2, offset } => self.store(
                add16(self.reg(source_2), offset),
                self.reg(source_1),
            ),
            Instruction::Trap { .. } | Instruction::Noop => self,
        }
    }
}

/// An LC-3 machine: its memory and its register file.
#[derive(Debug, Clone, Copy)]
pub struct VirtualMachine {
    pub memory: [u16; MEMORY_SIZE],
    pub registers: [u16; REGISTER_COUNTER],
}

impl View for VirtualMachine {
    type V = MachineState;

    open spec fn view(&self) -> MachineState {
        MachineState { registers: self.registers@, memory: self.memory@ }
    }
}

impl VirtualMachine {
    /// A machine whose registers and memory words are all zero.
    pub fn new() -> (vm: Self)
        ensures
            vm@.registers == Seq::new(REGISTER_COUNTER as nat, |i: int| 0u16),
            vm@.memory == Seq::new(MEMORY_SIZE as nat, |i: int| 0u16),
    {
        let vm = VirtualMachine { memory: [0; MEMORY_SIZE], registers: [0; REGISTER_COUNTER] };
        assert(vm@.registers =~= Seq::new(REGISTER_COUNTER as nat, |i: int| 0u16));
        assert(vm@.memory =~= Seq::new(MEMORY_SIZE as nat, |i: int| 0u16));
        vm
    }

    /// Executes one decoded instruction.
    pub fn execute_instruction(&mut self, instruction: Instruction)
        ensures
            final(self)@ == old(self)@.execute(instruction),
    {
        match instruction {
            Instruction::Add { destination, source_1, source_2, mode, value } => {
                if mode == 0 {
                    self.add(destination, source_1, source_2);
                } else {
                    self.add_immediate(destination, source_1, value);
                }
            },
            Instruction::And { destination, source_1, source_2, mode, value } => {
                if mode == 0 {
                    self.and(destination, source_1, source_2);
                } else {
                    self.and_immediate(destination, source_1, value);
                }
            },
            Instruction::Not { destination, source } => self.not(destination, source),
            Instruction::Load { destination, offset } => self.load(destination, offset),
            Instruction::LoadRegister { destination, source, offset } => self.load_register(
                destination,
                source,
                offset,
            ),
            Instruction::LoadIndirect { destination, offset } => self.load_indirect(
                destination,
                offset,
            ),
            Instruction::LoadEffectiveAddress { destination, offset } => self.load_effective_address(
                destination,
                offset,
            ),
            Instruction::Branch { flag, offset } => self.branch(flag, offset),
            Instruction::Jump { source } => self.jump(source),
            Instruction::JumpRegister { source, mode, offset } => {
                if mode == 1 {
                    self.jump_immediate(offset);
                } else {
                    self.jump_register(source);
                }
            },
            Instruction::Store { source, offset } => self.store(source, offset),
            Instruction::StoreIndirect { source, offset } => self.store_indirect(source, offset),
            Instruction::StoreRegister { source_1, source_2, offset } => self.store_register(
                source_1,
                source_2,
                offset,
            ),
            Instruction::Trap { .. } | Instruction::Noop => (),
        }
    }

    fn update_flags(&mut self, value: u16)
        ensures
            final(self)@ == old(self)@.set(Register::Cond, condition_of(value).bit()),
    {
        // The wrapping add is necessary, because u16 doesn't know that a
        // leading 1 indicates a negative value
        let flag = match value.wrapping_add(0x8000).cmp(&0x8000) {
            std::cmp::Ordering::Less => ConditionFlag::Negative.value(),
            std::cmp::Ordering::Equal => ConditionFlag::Zero.value(),
            std::cmp::Ordering::Greater => ConditionFlag::Positive.value(),
        };
        self.registers[Register::Cond.index()] = flag;
    }

    fn add(&mut self, destination: Register, source_1: Register, source_2: Register)
        ensures
            final(self)@ == old(self)@.with_result(
                destination,
                add16(old(self)@.reg(source_1), old(self)@.reg(source_2)),
            ),
    {
        let value = self.registers[source_1.index()].wrapping_add(
            self.registers[source_2.index()],
        );
        self.registers[destination.index()] = value;
        self.update_flags(value);
    }

    fn add_immediate(&mut self, destination: Register, source: Register, value: u16)
        ensures
            final(self)@ == old(self)@.with_result(destination, add16(value, old(self)@.reg(source))),
    {
        let value = value.wrapping_add(self.registers[source.index()]);
        self.registers[destination.index()] = value;
        self.update_flags(value);
    }

    fn and(&mut self, destination: Register, source_1: Register, source_2: Register)
        ensures
            final(self)@ == old(self)@.with_result(
                destination,
                old(self)@.reg(source_1) & old(self)@.reg(source_2),
            ),
    {
        let value = self.registers[source_1.index()] & self.registers[source_2.index()];
        self.registers[destination.index()] = value;
        self.update_flags(value);
    }

    fn and_immediate(&mut self, destination: Register, source: Register, value: u16)
        ensures
            final(self)@ == old(self)@.with_result(destination, value & old(self)@.reg(source)),
    {
        let value = value & self.registers[source.index()];
        self.registers[destination.index()] = value;
        self.update_flags(value);
    }

    fn not(&mut self, destination: Register, source: Register)
        ensures
            final(self)@ == old(self)@.with_result(
                destination,
                (0xFFFF - old(self)@.reg(source)) as u16,
            ),
    {
        let source_value = self.registers[source.index()];
        let value = !source_value;
        assert(!source_value == 0xFFFF - source_value) by (bit_vector);
        self.registers[destination.index()] = value;
        self.update_flags(value);
    }

    fn load(&mut self, destination: Register, offset: u16)
        ensures
            final(self)@ == old(self)@.with_result(
                destination,
                old(self)@.at(add16(old(self)@.reg(Register::PC), offset)),
            ),
    {
        let address = self.registers[Register::PC.index()].wrapping_add(offset);
        let value = self.memory[address as usize];
        self.registers[destination.index()] = value;
        self.update_flags(value);
    }

    fn load_register(&mut self, destination: Register, source: Register, offset: u16)
        ensures
            final(self)@ == old(self)@.with_result(
                destination,
                old(self)@.at(add16(old(self)@.reg(source), offset)),
            ),
    {
        let address = self.registers[source.index()].wrapping_add(offset);
        let value = self.memory[address as usize];
        self.registers[destination.index()] = value;
        self.update_flags(value);
    }

    fn load_indirect(&mut self, destination: Register, offset: u16)
        ensures
            final(self)@ == old(self)@.with_result(
                destination,
                old(self)@.at(old(self)@.at(add16(old(self)@.reg(Register::PC), offset))),
            ),
    {
        let meta_address = self.registers[Register::PC.index()].wrapping_add(offset);
        let address = self.memory[meta_address as usize];
        let value = self.memory[address as usize];
        self.registers[destination.index()] = value;
        self.update_flags(value);
    }

    fn load_effective_address(&mut self, destination: Register, offset: u16)
        ensures
            final(self)@ == old(self)@.with_result(
                destination,
                add16(old(self)@.reg(Register::PC), offset),
            ),
    {
        let value = self.registers[Register::PC.index()].wrapping_add(offset);
        self.registers[destination.index()] = value;
        self.update_flags(value);
    }

    fn branch(&mut self, flag: u16, offset: u16)
        ensures
            final(self)@ == (if flag & old(self)@.reg(Register::Cond) != 0 {
                old(self)@.set(Register::PC, add16(old(self)@.reg(Register::PC), offset))
            } else {
                old(self)@
            }),
    {
        if flag & self.registers[Register::Cond.index()] != 0 {
            self.registers[Register::PC.index()] = self.registers[Register::PC.index()].wrapping_add(
                offset,
            );
        }
    }

    fn store(&mut self, source: Register, offset: u16)
        ensures
            final(self)@ == old(self)@.store(
                add16(old(self)@.reg(Register::PC), offset),
                old(self)@.reg(source),
            ),
    {
        let address = self.registers[Register::PC.index()].wrapping_add(offset);
        self.memory[address as usize] = self.registers[source.index()];
    }

    fn store_indirect(&mut self, source: Register, offset: u16)
        ensures
            final(self)@ == old(self)@.store(
                old(self)@.at(add16(old(self)@.reg(Register::PC), offset)),
                old(self)@.reg(source),
            ),
    {
        let meta_address = self.registers[Register::PC.index()].wrapping_add(offset);
        let address = self.memory[meta_address as usize];
        self.memory[address as usize] = self.registers[source.index()];
    }

    fn store_register(&mut self, source: Register, base: Register, offset: u16)
        ensures
            final(self)@ == old(self)@.store(
                add16(old(self)@.reg(base), offset),
                old(self)@.reg(source),
            ),
    {
        let address = self.registers[base.index()].wrapping_add(offset);
        self.memory[address as usize] = self.registers[source.index()];
    }

    fn jump(&mut self, source: Register)
        ensures
            final(self)@ == old(self)@.set(Register::PC, old(self)@.reg(source)),
    {
        self.registers[Register::PC.index()] = self.registers[source.index()];
    }

    fn jump_immediate(&mut self, offset: u16)
        ensures
            final(self)@ == old(self)@.set(Register::R7, old(self)@.reg(Register::PC)).set(
                Register::PC,
                add16(old(self)@.reg(Register::PC), offset),
            ),
    {
        self.registers[Register::R7.index()] = self.registers[Register::PC.index()];
        let address = self.registers[Register::PC.index()].wrapping_add(offset);
        self.registers[Register::PC.index()] = address;
    }

    fn jump_register(&mut self, source: Register)
        ensures
            ({
                let linked = old(self)@.set(Register::R7, old(self)@.reg(Register::PC));
                final(self)@ == linked.set(Register::PC, linked.reg(source))
            }),
    {
        self.registers[Register::R7.index()] = self.registers[Register::PC.index()];
        self.registers[Register::PC.index()] = self.registers[source.index()];
    }
}

} // verus!

verus! {

impl MachineState {
    /// The condition register holds exactly one of the condition codes.
    pub open spec fn holds_condition_code(self) -> bool {
        let cond = self.reg(Register::Cond);
        cond == ConditionFlag::Positive.bit() || cond == ConditionFlag::Zero.bit() || cond
            == ConditionFlag::Negative.bit()
    }
}

impl Instruction {
    /// The instruction computes a value into a register and sets the
    /// condition codes from it.
    pub open spec fn sets_condition_code(self) -> bool {
        match self {
            Instruction::Add { .. }
            | Instruction::And { .. }
            | Instruction::Not { .. }
            | Instruction::Load { .. }
            | Instruction::LoadRegister { .. }
            | Instruction::LoadIndirect { .. }
            | Instruction::LoadEffectiveAddress { .. } => true,
            _ => false,
        }
    }
}

impl Instruction {
    /// The instruction writes a word of memory.
    pub open spec fn is_store(self) -> bool {
        match self {
            Instruction::Store { .. }
            | Instruction::StoreIndirect { .. }
            | Instruction::StoreRegister { .. } => true,
            _ => false,
        }
    }
}

/// The condition codes: an instruction that computes a value leaves exactly
/// one condition code set, the one of the value's sign; an instruction that
/// computes none leaves the condition register as it was; and once the
/// condition register holds a condition code, no instruction makes it hold
/// anything else.
pub proof fn lemma_condition_code(state: MachineState, instruction: Instruction)
    requires
        state.registers.len() == REGISTER_COUNTER,
    ensures
        instruction.sets_condition_code() ==> state.execute(instruction).holds_condition_code(),
        !instruction.sets_condition_code() ==> state.execute(instruction).reg(Register::Cond)
            == state.reg(Register::Cond),
        state.holds_condition_code() ==> state.execute(instruction).holds_condition_code(),
{
}

/// Only the store instructions write memory, each a single word; they
/// change no register. No instruction changes the size of the register
/// file or of memory.
pub proof fn lemma_memory_writes(state: MachineState, instruction: Instruction)
    requires
        state.registers.len() == REGISTER_COUNTER,
        state.memory.len() == MEMORY_SIZE,
    ensures
        !instruction.is_store() ==> state.execute(instruction).memory == state.memory,
        instruction.is_store() ==> state.execute(instruction).registers == state.registers,
        instruction.is_store() ==> exists|address: u16, value: u16|
            state.execute(instruction).memory == state.memory.update(address as int, value),
        state.execute(instruction).registers.len() == REGISTER_COUNTER,
        state.execute(instruction).memory.len() == MEMORY_SIZE,
{
    match instruction {
        Instruction::Store { source, offset } => {
            let address = add16(state.reg(Register::PC), offset);
            assert(state.execute(instruction).memory == state.memory.update(
                address as int,
                state.reg(source),
            ));
        },
        Instruction::StoreIndirect { source, offset } => {
            let address = state.at(add16(state.reg(Register::PC), offset));
            assert(state.execute(instruction).memory == state.memory.update(
                address as int,
                state.reg(source),
            ));
        },
        Instruction::StoreRegister { source_1, source_2, offset } => {
            let address = add16(state.reg(source_2), offset);
            assert(state.execute(instruction).memory == state.memory.update(
                address as int,
                state.reg(source_1),
            ));
        },
        _ => {},
    }
}

/// Complementing a register into itself twice gives its value back, with
/// the condition codes of that value, and changes nothing else.
pub proof fn lemma_not_twice(state: MachineState, register: Register)
    requires
        state.registers.len() == REGISTER_COUNTER,
        register != Register::Cond,
    ensures
        ({
            let not = Instruction::Not { destination: register, source: register };
            let twice = state.execute(not).execute(not);
            &&& twice.reg(register) == state.reg(register)
            &&& twice.reg(Register::Cond) == condition_of(state.reg(register)).bit()
            &&& twice.memory == state.memory
            &&& forall|other: Register|
                other != register && other != Register::Cond ==> #[trigger] twice.reg(other)
                    == state.reg(other)
        }),
{
}

/// An instruction that computes a value changes no register but its
/// destination and the condition register.
pub proof fn lemma_other_registers_unchanged(
    state: MachineState,
    instruction: Instruction,
    register: Register,
)
    requires
        state.registers.len() == REGISTER_COUNTER,
        instruction.sets_condition_code(),
        register != Register::Cond,
        !(instruction matches Instruction::Add { destination, .. } && destination == register),
        !(instruction matches Instruction::And { destination, .. } && destination == register),
        !(instruction matches Instruction::Not { destination, .. } && destination == register),
        !(instruction matches Instruction::Load { destination, .. } && destination == register),
        !(instruction matches Instruction::LoadRegister { destination, .. } && destination
            == register),
        !(instruction matches Instruction::LoadIndirect { destination, .. } && destination
            == register),
        !(instruction matches Instruction::LoadEffectiveAddress { destination, .. }
            && destination == register),
    ensures
        state.execute(instruction).reg(register) == state.reg(register),
{
}


impl Instruction {
    /// The register that the instruction computes a value into, if any.
    pub open spec fn result_register(self) -> Option<Register> {
        match self {
            Instruction::Add { destination, .. }
            | Instruction::And { destination, .. }
            | Instruction::Not { destination, .. }
            | Instruction::Load { destination, .. }
            | Instruction::LoadRegister { destination, .. }
            | Instruction::LoadIndirect { destination, .. }
            | Instruction::LoadEffectiveAddress { destination, .. } => Some(destination),
            _ => None,
        }
    }
}

/// The LC-3 condition code of a word: 2 (zero) for 0, 4 (negative) when its
/// top bit is set, 1 (positive) otherwise.
pub open spec fn nzp(word: u16) -> u16 {
    if word == 0 {
        2
    } else if word >= 0x8000 {
        4
    } else {
        1
    }
}

/// After every instruction that computes a value into a register other
/// than the condition register, the condition register holds the condition
/// code of the value now in that register: 1 when positive, 2 when zero, 4
/// when negative.
pub proof fn lemma_condition_code_of_result(state: MachineState, instruction: Instruction)
    requires
        state.registers.len() == REGISTER_COUNTER,
        instruction.result_register() matches Some(destination) && destination != Register::Cond,
    ensures
        ({
            let after = state.execute(instruction);
            let value = after.reg(instruction.result_register()->Some_0);
            after.reg(Register::Cond) == nzp(value)
        }),
{
}

/// `ADD` and `AND` read both operands from the machine as it was before the
/// instruction, also when the destination is one of the sources: in
/// register mode (`mode == 0`) the destination receives the sum modulo
/// 2^16, or the bitwise and, of the two source registers; in immediate mode
/// it receives the sum, or the and, of the immediate and `source_1`.
pub proof fn lemma_arithmetic_results(
    state: MachineState,
    destination: Register,
    source_1: Register,
    source_2: Register,
    mode: u16,
    value: u16,
)
    requires
        state.registers.len() == REGISTER_COUNTER,
        destination != Register::Cond,
    ensures
        ({
            let after = state.execute(
                Instruction::Add { destination, source_1, source_2, mode, value },
            );
            &&& mode == 0 ==> after.reg(destination) == (state.reg(source_1) + state.reg(source_2))
                % 0x10000
            &&& mode != 0 ==> after.reg(destination) == (value + state.reg(source_1)) % 0x10000
        }),
        ({
            let after = state.execute(
                Instruction::And { destination, source_1, source_2, mode, value },
            );
            &&& mode == 0 ==> after.reg(destination) == state.reg(source_1) & state.reg(source_2)
            &&& mode != 0 ==> after.reg(destination) == value & state.reg(source_1)
        }),
        ({
            let after = state.execute(Instruction::Not { destination, source: source_1 });
            after.reg(destination) + state.reg(source_1) == 0xFFFF
        }),
{
}

/// The loads: `LD` reads the word at `PC + offset`, `LDR` the word at
/// `source + offset`, `LDI` the word whose address is stored at
/// `PC + offset`, all addresses modulo 2^16; `LEA` takes the address
/// `PC + offset` itself. Each reads the machine as it was before it.
pub proof fn lemma_load_results(
    state: MachineState,
    destination: Register,
    source: Register,
    offset: u16,
)
    requires
        state.registers.len() == REGISTER_COUNTER,
        destination != Register::Cond,
    ensures
        ({
            let pc = state.reg(Register::PC);
            &&& state.execute(Instruction::Load { destination, offset }).reg(destination)
                == state.memory[(pc + offset) % 0x10000]
            &&& state.execute(Instruction::LoadRegister { destination, source, offset }).reg(
                destination,
            ) == state.memory[(state.reg(source) + offset) % 0x10000]
            &&& state.execute(Instruction::LoadIndirect { destination, offset }).reg(destination)
                == state.memory[state.memory[(pc + offset) % 0x10000] as int]
            &&& state.execute(Instruction::LoadEffectiveAddress { destination, offset }).reg(
                destination,
            ) == (pc + offset) % 0x10000
        }),
{
}

/// A branch is taken exactly when its `nzp` field shares a bit with the
/// condition register: then only the program counter changes, to
/// `PC + offset` modulo 2^16; otherwise nothing changes.
pub proof fn lemma_branch(state: MachineState, flag: u16, offset: u16)
    requires
        state.registers.len() == REGISTER_COUNTER,
    ensures
        ({
            let after = state.execute(Instruction::Branch { flag, offset });
            let pc = state.reg(Register::PC);
            &&& flag & state.reg(Register::Cond) != 0 ==> {
                &&& after.reg(Register::PC) == (pc + offset) % 0x10000
                &&& after.memory == state.memory
                &&& forall|other: Register|
                    other != Register::PC ==> #[trigger] after.reg(other) == state.reg(other)
            }
            &&& flag & state.reg(Register::Cond) == 0 ==> after == state
        }),
{
}

/// `JMP` sets the program counter to its source register. `JSR` and `JSRR`
/// save the program counter in `R7` and set it to `PC + offset` modulo 2^16
/// (`mode == 1`) or to the source register, which for `R7` is the program
/// counter just saved. No other register and no memory changes.
pub proof fn lemma_jumps(state: MachineState, source: Register, mode: u16, offset: u16)
    requires
        state.registers.len() == REGISTER_COUNTER,
    ensures
        ({
            let after = state.execute(Instruction::Jump { source });
            &&& after.reg(Register::PC) == state.reg(source)
            &&& after.memory == state.memory
            &&& forall|other: Register|
                other != Register::PC ==> #[trigger] after.reg(other) == state.reg(other)
        }),
        ({
            let after = state.execute(Instruction::JumpRegister { source, mode, offset });
            let pc = state.reg(Register::PC);
            &&& after.reg(Register::R7) == pc
            &&& mode == 1 ==> after.reg(Register::PC) == (pc + offset) % 0x10000
            &&& mode != 1 ==> after.reg(Register::PC) == (if source == Register::R7 {
                pc
            } else {
                state.reg(source)
            })
            &&& after.memory == state.memory
            &&& forall|other: Register|
                other != Register::PC && other != Register::R7 ==> #[trigger] after.reg(other)
                    == state.reg(other)
        }),
{
}


/// The stores: `ST` writes `source` to the word at `PC + offset`, `STI` to
/// the word whose address is stored at `PC + offset`, and `STR` writes
/// `source_1` to the word at `source_2 + offset`, all addresses modulo 2^16
/// and all read from the machine as it was before; no other word and no
/// register changes.
pub proof fn lemma_store_results(
    state: MachineState,
    source: Register,
    base: Register,
    offset: u16,
    address: u16,
)
    requires
        state.registers.len() == REGISTER_COUNTER,
        state.memory.len() == MEMORY_SIZE,
    ensures
        ({
            let pc = state.reg(Register::PC);
            let after = state.execute(Instruction::Store { source, offset });
            &&& after.registers == state.registers
            &&& after.memory[address as int] == if address == (pc + offset) % 0x10000 {
                state.reg(source)
            } else {
                state.memory[address as int]
            }
        }),
        ({
            let pc = state.reg(Register::PC);
            let target = state.memory[(pc + offset) % 0x10000];
            let after = state.execute(Instruction::StoreIndirect { source, offset });
            &&& after.registers == state.registers
            &&& after.memory[address as int] == if address == target {
                state.reg(source)
            } else {
                state.memory[address as int]
            }
        }),
        ({
            let after = state.execute(
                Instruction::StoreRegister { source_1: source, source_2: base, offset },
            );
            &&& after.registers == state.registers
            &&& after.memory[address as int] == if address == (state.reg(base) + offset) % 0x10000 {
                state.reg(source)
            } else {
                state.memory[address as int]
            }
        }),
{
}

} // verus!
