# lc3_vm

An LC-3 virtual machine, verified with Verus.

- `src/instructions.rs`: registers, condition codes, trap routines, and the
  `Instruction` type with `encode` and `decode`. Their contracts state the
  word that `encode` builds (`Instruction::encoding`) and what `decode` reads
  from a word (`decoded`), field by field.
- `src/encoding_laws.rs`: the round trips between words and instructions,
  and exactly when decoding fails.
- `src/vm.rs`: `VirtualMachine`, its model `MachineState`, and
  `execute_instruction`, whose contract is `MachineState::execute`; with the
  laws on condition codes, memory writes and registers. Memory holds a
  word for each of the 65536 addresses.
- `src/terminal.rs`: the addresses of the memory-mapped keyboard registers.
- `app/`: the program: argument handling and the terminal's raw mode
  through `termios`.
