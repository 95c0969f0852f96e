use vstd::prelude::*;
use vstd::arithmetic::power2::pow2;

verus! {

/// The platform's I/O error, carried by `VMError::IO`.
#[verifier::external_type_specification]
#[verifier::external_body]
pub struct ExIoError(std::io::Error);

/// The ways in which decoding or running a program can fail.
#[derive(Debug)]
pub enum VMError {
    TrapCodeDecode { repr: u16 },
    RegisterDecode { repr: u16 },
    IO { err: std::io::Error },
    ReservedInstruction { repr: u16 },
}

/// The `size` bits of `value` that start at bit `offset`, as a number.
pub open spec fn field(value: u16, offset: nat, size: nat) -> nat {
    (value as nat / pow2(offset)) % pow2(size)
}

/// Grabs the `size` bits of `value` that start at bit `offset`.
fn from_bits(value: u16, size: u16, offset: u16) -> (r: u16)
    requires
        size < 16,
        offset < 16,
    ensures
        r as nat == field(value, offset as nat, size as nat),
{
    proof {
        vstd::bits::lemma_u16_shr_is_div(value, offset);
        vstd::bits::lemma_u16_pow2_no_overflow(size as nat);
        vstd::bits::lemma_u16_shl_is_mul(1u16, size);
        vstd::bits::lemma_u16_low_bits_mask_is_mod(value >> offset, size as nat);
    }
    (value >> offset) & ((1 << size) - 1)
}

/// Two's-complement sign extension of a `width`-bit pattern whose sign bit
/// is `sign` (`0` or `1`) to 16 bits.
pub open spec fn extend(low: nat, width: nat, sign: nat) -> nat {
    if sign == 1 {
        (low + 0x10000 - pow2((width - 1) as nat)) as nat
    } else {
        low
    }
}

/// Grabs the `size` bits of `value` that start at bit `offset` and extends
/// them as a two's-complement number: the top bit of the field is the sign.
fn from_bits_signed(value: u16, size: u16, offset: u16) -> (r: u16)
    requires
        1 <= size,
        offset + size <= 16,
    ensures
        r as nat == extend(
            field(value, offset as nat, (size - 1) as nat),
            size as nat,
            field(value, (offset + size - 1) as nat, 1),
        ),
{
    let s: u16 = size - 1;
    let sign_bit: u16 = offset + s;
    proof {
        vstd::bits::lemma_u16_shr_is_div(value, sign_bit);
        vstd::arithmetic::power2::lemma2_to64();
        vstd::bits::lemma_u16_pow2_no_overflow(s as nat);
        vstd::bits::lemma_u16_shl_is_mul(1u16, s);
        let v = value >> sign_bit;
        assert(v & 1 == v % 2) by (bit_vector);
    }
    if ((value >> sign_bit) & 1) == 1 {
        let mask: u16 = 0xFFFF << s;
        let low = from_bits(value, s, offset);
        proof {
            vstd::bits::lemma_u16_shl_is_mul(1u16, s);
            assert(low < (1u16 << s) ==> (low | mask) == low + mask) by (bit_vector)
                requires
                    s < 16,
                    mask == 0xFFFFu16 << s,
            ;
            assert(mask + (1u16 << s) == 0x10000) by (bit_vector)
                requires
                    s < 16,
                    mask == 0xFFFFu16 << s,
            ;
        }
        low | mask
    } else {
        from_bits(value, s, offset)
    }
}

/// The service routines that a `TRAP` instruction can call.
#[derive(Debug, Clone, Copy, PartialEq, Eq, Structural)]
pub enum TrapCode {
    /// get a character from the keyboard, not echoed onto the terminal
    Getc,
    /// output a character
    Out,
    /// output a word string
    Puts,
    /// get a character from the keyboard, echoed onto the terminal
    In,
    /// output a byte string
    Putsp,
    /// halt the program
    Halt,
}

impl TrapCode {
    /// The trap vector of the routine.
    pub open spec fn vector(self) -> nat {
        match self {
            TrapCode::Getc => 0x20,
            TrapCode::Out => 0x21,
            TrapCode::Puts => 0x22,
            TrapCode::In => 0x23,
            TrapCode::Putsp => 0x24,
            TrapCode::Halt => 0x25,
        }
    }

    /// The routine with trap vector `vector`, if there is one.
    pub open spec fn from_vector(vector: nat) -> Option<TrapCode> {
        if vector == 0x20 {
            Some(TrapCode::Getc)
        } else if vector == 0x21 {
            Some(TrapCode::Out)
        } else if vector == 0x22 {
            Some(TrapCode::Puts)
        } else if vector == 0x23 {
            Some(TrapCode::In)
        } else if vector == 0x24 {
            Some(TrapCode::Putsp)
        } else if vector == 0x25 {
            Some(TrapCode::Halt)
        } else {
            None
        }
    }

    /// The trap vector of the routine.
    pub fn code(self) -> (r: u16)
        ensures
            r == self.vector(),
    {
        match self {
            TrapCode::Getc => 0x20,
            TrapCode::Out => 0x21,
            TrapCode::Puts => 0x22,
            TrapCode::In => 0x23,
            TrapCode::Putsp => 0x24,
            TrapCode::Halt => 0x25,
        }
    }

    /// Reads the routine from the low byte of `value`.
    fn from_bits(value: u16) -> (r: Result<Self, VMError>)
        ensures
            r == (match TrapCode::from_vector(field(value, 0, 8)) {
                Some(t) => Ok(t),
                None => Err(VMError::TrapCodeDecode { repr: field(value, 0, 8) as u16 }),
            }),
    {
        match from_bits(value, 8, 0) {
            0x20 => Ok(TrapCode::Getc),
            0x21 => Ok(TrapCode::Out),
            0x22 => Ok(TrapCode::Puts),
            0x23 => Ok(TrapCode::In),
            0x24 => Ok(TrapCode::Putsp),
            0x25 => Ok(TrapCode::Halt),
            repr => Err(VMError::TrapCodeDecode { repr }),
        }
    }
}

/// The operation codes, the top four bits of an instruction word.
#[derive(Debug, Clone, Copy, PartialEq, Eq, Structural)]
enum OperationCode {
    Branch,
    Add,
    Load,
    Store,
    JumpRegister,
    And,
    LoadRegister,
    StoreRegister,
    /// Unused
    Rti,
    Not,
    LoadIndirect,
    StoreIndirect,
    Jump,
    /// Unused
    Reserved,
    LoadEffectiveAddress,
    ExecuteTrap,
}

impl OperationCode {
    /// The number of the operation code.
    spec fn number(self) -> nat {
        match self {
            OperationCode::Branch => 0,
            OperationCode::Add => 1,
            OperationCode::Load => 2,
            OperationCode::Store => 3,
            OperationCode::JumpRegister => 4,
            OperationCode::And => 5,
            OperationCode::LoadRegister => 6,
            OperationCode::StoreRegister => 7,
            OperationCode::Rti => 8,
            OperationCode::Not => 9,
            OperationCode::LoadIndirect => 10,
            OperationCode::StoreIndirect => 11,
            OperationCode::Jump => 12,
            OperationCode::Reserved => 13,
            OperationCode::LoadEffectiveAddress => 14,
            OperationCode::ExecuteTrap => 15,
        }
    }

    /// The number of the operation code.
    fn to_u16(self) -> (r: u16)
        ensures
            r == self.number(),
    {
        match self {
            OperationCode::Branch => 0,
            OperationCode::Add => 1,
            OperationCode::Load => 2,
            OperationCode::Store => 3,
            OperationCode::JumpRegister => 4,
            OperationCode::And => 5,
            OperationCode::LoadRegister => 6,
            OperationCode::StoreRegister => 7,
            OperationCode::Rti => 8,
            OperationCode::Not => 9,
            OperationCode::LoadIndirect => 10,
            OperationCode::StoreIndirect => 11,
            OperationCode::Jump => 12,
            OperationCode::Reserved => 13,
            OperationCode::LoadEffectiveAddress => 14,
            OperationCode::ExecuteTrap => 15,
        }
    }

    /// Every number outside `0..16`, and 13, reads as `Reserved`.
    fn from_u16(value: u16) -> (r: Self)
        ensures
            r == OperationCode::Reserved <==> (value == 13 || value > 15),
            r != OperationCode::Reserved ==> r.number() == value,
    {
        match value {
            0 => Self::Branch,
            1 => Self::Add,
            2 => Self::Load,
            3 => Self::Store,
            4 => Self::JumpRegister,
            5 => Self::And,
            6 => Self::LoadRegister,
            7 => Self::StoreRegister,
            8 => Self::Rti,
            9 => Self::Not,
            10 => Self::LoadIndirect,
            11 => Self::StoreIndirect,
            12 => Self::Jump,
            14 => Self::LoadEffectiveAddress,
            15 => Self::ExecuteTrap,
            _ => Self::Reserved,
        }
    }
}

/// The condition codes; the condition register holds exactly one of them
/// once a value has been computed.
#[derive(Debug, Clone, Copy, PartialEq, Eq, Structural)]
pub enum ConditionFlag {
    Positive,
    Zero,
    Negative,
}

impl ConditionFlag {
    /// The bit of the condition code in the condition register.
    pub open spec fn bit(self) -> u16 {
        match self {
            ConditionFlag::Positive => 1,
            ConditionFlag::Zero => 2,
            ConditionFlag::Negative => 4,
        }
    }

    /// The bit of the condition code in the condition register.
    pub fn value(self) -> (r: u16)
        ensures
            r == self.bit(),
    {
        match self {
            ConditionFlag::Positive => 1,
            ConditionFlag::Zero => 2,
            ConditionFlag::Negative => 4,
        }
    }
}

/// The registers: eight general purpose ones, the program counter and the
/// condition register.
#[derive(Debug, Clone, Copy, PartialEq, Eq, Structural)]
pub enum Register {
    R0,
    R1,
    R2,
    R3,
    R4,
    R5,
    R6,
    R7,
    /// program counter
    PC,
    Cond,
}

/// Number of available registers
pub const REGISTER_COUNTER: usize = 10;

impl Register {
    /// The register's number, its place in the register file.
    pub open spec fn id(self) -> nat {
        match self {
            Register::R0 => 0,
            Register::R1 => 1,
            Register::R2 => 2,
            Register::R3 => 3,
            Register::R4 => 4,
            Register::R5 => 5,
            Register::R6 => 6,
            Register::R7 => 7,
            Register::PC => 8,
            Register::Cond => 9,
        }
    }

    /// The register numbered `n`, for `n < 10`.
    pub open spec fn from_id(n: nat) -> Register {
        if n == 0 {
            Register::R0
        } else if n == 1 {
            Register::R1
        } else if n == 2 {
            Register::R2
        } else if n == 3 {
            Register::R3
        } else if n == 4 {
            Register::R4
        } else if n == 5 {
            Register::R5
        } else if n == 6 {
            Register::R6
        } else if n == 7 {
            Register::R7
        } else if n == 8 {
            Register::PC
        } else {
            Register::Cond
        }
    }

    /// A register is the one that its own number names.
    pub proof fn lemma_from_id(self)
        ensures
            Register::from_id(self.id()) == self,
    {
    }

    /// The register named by a number below ten has that number.
    pub proof fn lemma_id_from(n: nat)
        requires
            n < 10,
        ensures
            Register::from_id(n).id() == n,
    {
    }

    /// The register's number, its place in the register file.
    pub fn index(self) -> (r: usize)
        ensures
            r == self.id(),
            r < REGISTER_COUNTER,
    {
        match self {
            Register::R0 => 0,
            Register::R1 => 1,
            Register::R2 => 2,
            Register::R3 => 3,
            Register::R4 => 4,
            Register::R5 => 5,
            Register::R6 => 6,
            Register::R7 => 7,
            Register::PC => 8,
            Register::Cond => 9,
        }
    }

    fn from_u16(value: u16) -> (r: Result<Self, VMError>)
        ensures
            value < 10 ==> r == Ok::<Register, VMError>(Register::from_id(value as nat)),
            value >= 10 ==> r == Err::<Register, VMError>(VMError::RegisterDecode { repr: value }),
    {
        match value {
            0 => Ok(Self::R0),
            1 => Ok(Self::R1),
            2 => Ok(Self::R2),
            3 => Ok(Self::R3),
            4 => Ok(Self::R4),
            5 => Ok(Self::R5),
            6 => Ok(Self::R6),
            7 => Ok(Self::R7),
            8 => Ok(Self::PC),
            9 => Ok(Self::Cond),
            _ => Err(VMError::RegisterDecode { repr: value }),
        }
    }

    /// Reads the register named by the three bits of `value` at `offset`.
    fn from_bits(value: u16, offset: u16) -> (r: Result<Self, VMError>)
        requires
            offset < 16,
        ensures
            r == Ok::<Register, VMError>(Register::from_id(field(value, offset as nat, 3))),
    {
        proof {
            vstd::arithmetic::power2::lemma2_to64();
        }
        Self::from_u16(from_bits(value, 3, offset))
    }
}

/// The shifts and masks of `encode` as arithmetic on the field values.
proof fn shift_facts(op: u16, high: u16, low: u16, mode: u16, value: u16)
    requires
        op < 16,
        high < 16,
        low < 16,
    ensures
        op << 12 == op * 4096,
        high << 9 == high * 512,
        low << 6 == low * 64,
        mode << 5 == (mode * 32) % 0x10000,
        value & 0x1F == value % 32,
        value & 0x3F == value % 64,
        value & 0x1FF == value % 512,
{
    assert(op < 16 ==> op << 12 == op * 4096) by (bit_vector);
    assert(high < 16 ==> high << 9 == high * 512) by (bit_vector);
    assert(low < 16 ==> low << 6 == low * 64) by (bit_vector);
    assert(mode << 5 == (mode * 32) % 0x10000) by (bit_vector);
    assert(value & 0x1F == value % 32) by (bit_vector);
    assert(value & 0x3F == value % 64) by (bit_vector);
    assert(value & 0x1FF == value % 512) by (bit_vector);
}

/// A decoded instruction. Offsets and immediate values hold their sign
/// extended 16-bit patterns.
#[derive(Debug, Clone, Copy, PartialEq, Eq, Structural)]
pub enum Instruction {
    Add { destination: Register, source_1: Register, source_2: Register, mode: u16, value: u16 },
    And { destination: Register, source_1: Register, source_2: Register, mode: u16, value: u16 },
    Not { destination: Register, source: Register },
    Load { destination: Register, offset: u16 },
    LoadRegister { destination: Register, source: Register, offset: u16 },
    LoadIndirect { destination: Register, offset: u16 },
    LoadEffectiveAddress { destination: Register, offset: u16 },
    Branch { flag: u16, offset: u16 },
    Jump { source: Register },
    JumpRegister { source: Register, mode: u16, offset: u16 },
    Store { source: Register, offset: u16 },
    StoreIndirect { source: Register, offset: u16 },
    StoreRegister { source_1: Register, source_2: Register, offset: u16 },
    Trap { routine: TrapCode },
    Noop,
}

/// The register named by the three bits of `word` at `offset`.
pub open spec fn register_at(word: u16, offset: nat) -> Register {
    Register::from_id(field(word, offset, 3))
}

/// The low `width` bits of `word`, read as a two's-complement number and
/// sign extended to 16 bits.
pub open spec fn signed_low(word: u16, width: nat) -> u16 {
    extend(field(word, 0, (width - 1) as nat), width, field(word, (width - 1) as nat, 1)) as u16
}

/// What an instruction word means: the instruction it encodes, or the
/// reason it encodes none.
pub open spec fn decoded(repr: u16) -> Result<Instruction, VMError> {
    let opcode = field(repr, 12, 4);
    if opcode == 0 {
        Ok(Instruction::Branch { flag: field(repr, 9, 3) as u16, offset: signed_low(repr, 9) })
    } else if opcode == 1 {
        Ok(
            Instruction::Add {
                destination: register_at(repr, 9),
                source_1: register_at(repr, 6),
                source_2: register_at(repr, 0),
                mode: field(repr, 5, 1) as u16,
                value: signed_low(repr, 5),
            },
        )
    } else if opcode == 2 {
        Ok(Instruction::Load { destination: register_at(repr, 9), offset: signed_low(repr, 9) })
    } else if opcode == 3 {
        Ok(Instruction::Store { source: register_at(repr, 9), offset: signed_low(repr, 9) })
    } else if opcode == 4 {
        Ok(
            Instruction::JumpRegister {
                source: register_at(repr, 6),
                mode: field(repr, 11, 1) as u16,
                offset: signed_low(repr, 11),
            },
        )
    } else if opcode == 5 {
        Ok(
            Instruction::And {
                destination: register_at(repr, 9),
                source_1: register_at(repr, 6),
                source_2: register_at(repr, 0),
                mode: field(repr, 5, 1) as u16,
                value: signed_low(repr, 5),
            },
        )
    } else if opcode == 6 {
        Ok(
            Instruction::LoadRegister {
                destination: register_at(repr, 9),
                source: register_at(repr, 6),
                offset: signed_low(repr, 6),
            },
        )
    } else if opcode == 7 {
        Ok(
            Instruction::StoreRegister {
                source_1: register_at(repr, 9),
                source_2: register_at(repr, 6),
                offset: signed_low(repr, 6),
            },
        )
    } else if opcode == 9 {
        Ok(Instruction::Not { destination: register_at(repr, 9), source: register_at(repr, 6) })
    } else if opcode == 10 {
        Ok(Instruction::LoadIndirect { destination: register_at(repr, 9), offset: signed_low(repr, 9) })
    } else if opcode == 11 {
        Ok(Instruction::StoreIndirect { source: register_at(repr, 9), offset: signed_low(repr, 9) })
    } else if opcode == 12 {
        Ok(Instruction::Jump { source: register_at(repr, 6) })
    } else if opcode == 14 {
        Ok(
            Instruction::LoadEffectiveAddress {
                destination: register_at(repr, 9),
                offset: signed_low(repr, 9),
            },
        )
    } else if opcode == 15 {
        match TrapCode::from_vector(field(repr, 0, 8)) {
            Some(routine) => Ok(Instruction::Trap { routine }),
            None => Err(VMError::TrapCodeDecode { repr: field(repr, 0, 8) as u16 }),
        }
    } else {
        // operation codes 8 (RTI) and 13 are not executed
        Err(VMError::ReservedInstruction { repr })
    }
}

impl Instruction {
    /// The instruction word that `encode` builds, as a sum of its fields.
    /// Each register field holds the register's number, each offset and
    /// immediate field the low bits of its value. An `Add` or `And`
    /// carries `value` in its low five bits whatever `source_2` is, and a
    /// `JumpRegister` carries `offset` in its low eleven bits whatever
    /// `source` is.
    pub open spec fn encoding(self) -> int {
        match self {
            Instruction::Add { destination, source_1, mode, value, .. } => 0x1000int
                + destination.id() * 512 + source_1.id() * 64 + (mode * 32) % 0x10000 + value % 32,
            Instruction::And { destination, source_1, mode, value, .. } => 0x5000int
                + destination.id() * 512 + source_1.id() * 64 + (mode * 32) % 0x10000 + value % 32,
            Instruction::Not { destination, source } => 0x9000int + destination.id() * 512
                + source.id() * 64,
            Instruction::Load { destination, offset } => 0x2000int + destination.id() * 512 + offset
                % 512,
            Instruction::LoadRegister { destination, source, offset } => 0x6000int
                + destination.id() * 512 + source.id() * 64 + offset % 64,
            Instruction::LoadIndirect { destination, offset } => 0xA000int + destination.id() * 512
                + offset % 512,
            Instruction::LoadEffectiveAddress { destination, offset } => 0xE000int
                + destination.id() * 512 + offset % 512,
            Instruction::Branch { flag, offset } => (flag % 8) * 512 + offset % 512,
            Instruction::Jump { source } => 0xC000int + source.id() * 64,
            Instruction::JumpRegister { mode, offset, .. } => 0x4000int + (mode * 2048) % 0x10000
                + offset % 2048,
            Instruction::Store { source, offset } => 0x3000int + source.id() * 512 + offset % 512,
            Instruction::StoreIndirect { source, offset } => 0xB000int + source.id() * 512 + offset
                % 512,
            Instruction::StoreRegister { source_1, source_2, offset } => 0x7000int + source_1.id()
                * 512 + source_2.id() * 64 + offset % 64,
            Instruction::Trap { routine } => 0xF000int + routine.vector(),
            Instruction::Noop => 0,
        }
    }

    /// Encodes the instruction as a word. Only an `Add`, `And` or
    /// `JumpRegister` whose `mode` reaches past its one-bit field can make
    /// the fields overflow 16 bits; those are refused.
    pub fn encode(&self) -> (r: u16)
        requires
            self.encoding() <= 0xFFFF,
        ensures
            r == self.encoding(),
    {
        match *self {
            Instruction::Add { destination, source_1, source_2: _, mode, value } => {
                let op = OperationCode::Add.to_u16();
                let d = destination.index() as u16;
                let s1 = source_1.index() as u16;
                proof {
                    shift_facts(op, d, s1, mode, value);
                }
                (op << 12) + (d << 9) + (s1 << 6) + (mode << 5) + (value & 0x1F)
            },
            Instruction::And { destination, source_1, source_2: _, mode, value } => {
                let op = OperationCode::And.to_u16();
                let d = destination.index() as u16;
                let s1 = source_1.index() as u16;
                proof {
                    shift_facts(op, d, s1, mode, value);
                }
                (op << 12) + (d << 9) + (s1 << 6) + (mode << 5) + (value & 0x1F)
            },
            Instruction::Not { destination, source } => {
                let op = OperationCode::Not.to_u16();
                let d = destination.index() as u16;
                let s1 = source.index() as u16;
                proof {
                    shift_facts(op, d, s1, 0, 0);
                }
                (op << 12) + (d << 9) + (s1 << 6)
            },
            Instruction::Load { destination, offset } => {
                let op = OperationCode::Load.to_u16();
                let d = destination.index() as u16;
                proof {
                    shift_facts(op, d, 0, 0, offset);
                }
                (op << 12) + (d << 9) + (offset & 0x1FF)
            },
            Instruction::LoadRegister { destination, source, offset } => {
                let op = OperationCode::LoadRegister.to_u16();
                let d = destination.index() as u16;
                let s1 = source.index() as u16;
                proof {
                    shift_facts(op, d, s1, 0, offset);
                }
                (op << 12) + (d << 9) + (s1 << 6) + (offset & 0x3F)
            },
            Instruction::LoadIndirect { destination, offset } => {
                let op = OperationCode::LoadIndirect.to_u16();
                let d = destination.index() as u16;
                proof {
                    shift_facts(op, d, 0, 0, offset);
                }
                (op << 12) + (d << 9) + (offset & 0x1FF)
            },
            Instruction::LoadEffectiveAddress { destination, offset } => {
                let op = OperationCode::LoadEffectiveAddress.to_u16();
                let d = destination.index() as u16;
                proof {
                    shift_facts(op, d, 0, 0, offset);
                }
                (op << 12) + (d << 9) + (offset & 0x1FF)
            },
            Instruction::Branch { flag, offset } => {
                let op = OperationCode::Branch.to_u16();
                let f = flag & 0x7;
                proof {
                    assert(flag & 0x7 == flag % 8) by (bit_vector);
                    shift_facts(op, f, 0, 0, offset);
                }
                (op << 12) + (f << 9) + (offset & 0x1FF)
            },
            Instruction::Jump { source } => {
                let op = OperationCode::Jump.to_u16();
                let s1 = source.index() as u16;
                proof {
                    shift_facts(op, 0, s1, 0, 0);
                }
                (op << 12) + (s1 << 6)
            },
            Instruction::JumpRegister { source: _, mode, offset } => {
                let op = OperationCode::JumpRegister.to_u16();
                proof {
                    shift_facts(op, 0, 0, 0, 0);
                    assert(mode << 11 == (mode * 2048) % 0x10000) by (bit_vector);
                    assert(offset & 0x7FF == offset % 2048) by (bit_vector);
                }
                (op << 12) + (mode << 11) + (offset & 0x7FF)
            },
            Instruction::Store { source, offset } => {
                let op = OperationCode::Store.to_u16();
                let s1 = source.index() as u16;
                proof {
                    shift_facts(op, s1, 0, 0, offset);
                }
                (op << 12) + (s1 << 9) + (offset & 0x1FF)
            },
            Instruction::StoreIndirect { source, offset } => {
                let op = OperationCode::StoreIndirect.to_u16();
                let s1 = source.index() as u16;
                proof {
                    shift_facts(op, s1, 0, 0, offset);
                }
                (op << 12) + (s1 << 9) + (offset & 0x1FF)
            },
            Instruction::StoreRegister { source_1, source_2, offset } => {
                let op = OperationCode::StoreRegister.to_u16();
                let s1 = source_1.index() as u16;
                let s2 = source_2.index() as u16;
                proof {
                    shift_facts(op, s1, s2, 0, offset);
                }
                (op << 12) + (s1 << 9) + (s2 << 6) + (offset & 0x3F)
            },
            Instruction::Trap { routine } => {
                let op = OperationCode::ExecuteTrap.to_u16();
                proof {
                    shift_facts(op, 0, 0, 0, 0);
                }
                (op << 12) + routine.code()
            },
            Instruction::Noop => 0,
        }
    }

    /// Decodes an instruction word.
    pub fn decode(repr: u16) -> (r: Result<Self, VMError>)
        ensures
            r == decoded(repr),
    {
        proof {
            vstd::bits::lemma_u16_shr_is_div(repr, 12);
            vstd::arithmetic::power2::lemma2_to64();
        }
        let code = OperationCode::from_u16(repr >> 12);
        match code {
            OperationCode::Branch => Ok(Instruction::Branch {
                flag: from_bits(repr, 3, 9),
                offset: from_bits_signed(repr, 9, 0),
            }),
            OperationCode::Add => Ok(Instruction::Add {
                destination: Register::from_bits(repr, 9)?,
                source_1: Register::from_bits(repr, 6)?,
                source_2: Register::from_bits(repr, 0)?,
                mode: from_bits(repr, 1, 5),
                value: from_bits_signed(repr, 5, 0),
            }),
            OperationCode::Load => Ok(Instruction::Load {
                destination: Register::from_bits(repr, 9)?,
                offset: from_bits_signed(repr, 9, 0),
            }),
            OperationCode::Store => Ok(Instruction::Store {
                source: Register::from_bits(repr, 9)?,
                offset: from_bits_signed(repr, 9, 0),
            }),
            OperationCode::JumpRegister => Ok(Instruction::JumpRegister {
                source: Register::from_bits(repr, 6)?,
                mode: from_bits(repr, 1, 11),
                offset: from_bits_signed(repr, 11, 0),
            }),
            OperationCode::And => Ok(Instruction::And {
                destination: Register::from_bits(repr, 9)?,
                source_1: Register::from_bits(repr, 6)?,
                source_2: Register::from_bits(repr, 0)?,
                mode: from_bits(repr, 1, 5),
                value: from_bits_signed(repr, 5, 0),
            }),
            OperationCode::LoadRegister => Ok(Instruction::LoadRegister {
                destination: Register::from_bits(repr, 9)?,
                source: Register::from_bits(repr, 6)?,
                offset: from_bits_signed(repr, 6, 0),
            }),
            OperationCode::StoreRegister => Ok(Instruction::StoreRegister {
                source_1: Register::from_bits(repr, 9)?,
                source_2: Register::from_bits(repr, 6)?,
                offset: from_bits_signed(repr, 6, 0),
            }),
            OperationCode::Rti => Err(VMError::ReservedInstruction { repr }),
            OperationCode::Not => Ok(Instruction::Not {
                destination: Register::from_bits(repr, 9)?,
                source: Register::from_bits(repr, 6)?,
            }),
            OperationCode::LoadIndirect => Ok(Instruction::LoadIndirect {
                destination: Register::from_bits(repr, 9)?,
                offset: from_bits_signed(repr, 9, 0),
            }),
            OperationCode::StoreIndirect => Ok(Instruction::StoreIndirect {
                source: Register::from_bits(repr, 9)?,
                offset: from_bits_signed(repr, 9, 0),
            }),
            OperationCode::Jump => Ok(Instruction::Jump {
                source: Register::from_bits(repr, 6)?,
            }),
            OperationCode::Reserved => Err(VMError::ReservedInstruction { repr }),
            OperationCode::LoadEffectiveAddress => Ok(Instruction::LoadEffectiveAddress {
                destination: Register::from_bits(repr, 9)?,
                offset: from_bits_signed(repr, 9, 0),
            }),
            OperationCode::ExecuteTrap => Ok(Instruction::Trap {
                routine: TrapCode::from_bits(repr)?,
            }),
        }
    }
}

} // verus!

verus! {

/// `value` is the 16-bit sign extension of its own low `width` bits.
pub open spec fn fits_signed(value: u16, width: nat) -> bool {
    value < pow2((width - 1) as nat) || value >= 0x10000 - pow2((width - 1) as nat)
}

impl Instruction {
    /// The instruction is one that an instruction word spells out exactly:
    /// its registers fit the three-bit register fields, its mode the one-bit
    /// mode field, its offsets and immediates are sign extensions of what
    /// their fields hold, and the register that an `Add` or `And` names last
    /// is the one that the low bits of its immediate name, as the register
    /// of a `JumpRegister` is the one that bits 6 to 8 of its offset name.
    /// A `Noop` (written as the word 0, a `Branch`) is not.
    pub open spec fn is_canonical(self) -> bool {
        match self {
            Instruction::Add { destination, source_1, source_2, mode, value }
            | Instruction::And { destination, source_1, source_2, mode, value } => {
                &&& destination.id() < 8
                &&& source_1.id() < 8
                &&& mode <= 1
                &&& fits_signed(value, 5)
                &&& source_2.id() == value % 8
            },
            Instruction::Not { destination, source } => destination.id() < 8 && source.id() < 8,
            Instruction::Load { destination, offset }
            | Instruction::LoadIndirect { destination, offset }
            | Instruction::LoadEffectiveAddress { destination, offset } => destination.id() < 8
                && fits_signed(offset, 9),
            Instruction::LoadRegister { destination, source, offset } => destination.id() < 8
                && source.id() < 8 && fits_signed(offset, 6),
            Instruction::Branch { flag, offset } => flag < 8 && fits_signed(offset, 9),
            Instruction::Jump { source } => source.id() < 8,
            Instruction::JumpRegister { source, mode, offset } => {
                &&& mode <= 1
                &&& fits_signed(offset, 11)
                &&& source.id() == (offset / 64) % 8
            },
            Instruction::Store { source, offset }
            | Instruction::StoreIndirect { source, offset } => source.id() < 8 && fits_signed(
                offset,
                9,
            ),
            Instruction::StoreRegister { source_1, source_2, offset } => source_1.id() < 8
                && source_2.id() < 8 && fits_signed(offset, 6),
            Instruction::Trap { .. } => true,
            Instruction::Noop => false,
        }
    }
}

} // verus!
