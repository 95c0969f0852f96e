//! The round trips between instruction words and instructions.
use vstd::prelude::*;
use crate::instructions::{
    decoded,
    field,
    fits_signed,
    register_at,
    signed_low,
    Instruction,
    Register,
    TrapCode,
    VMError,
};

verus! {

/// The fields of a word laid out as operation code, two register fields,
/// a one-bit mode and a five-bit immediate.
proof fn lemma_fields_of_word(w: u16, op: u16, a: u16, b: u16, m: u16, v: u16)
    by (bit_vector)
    requires
        op < 16,
        a < 8,
        b < 8,
        m < 2,
        v < 32,
        w == op * 4096 + a * 512 + b * 64 + m * 32 + v,
    ensures
        w / 4096 == op,
        (w / 512) % 8 == a,
        (w / 64) % 8 == b,
        (w / 32) % 2 == m,
        w % 32 == v,
        w % 8 == v % 8,
{
}

/// Sign extension of the low bits of a word gives back a value whose own
/// low bits they are, when that value is a sign extension itself; `half`
/// is the weight of the sign bit.
proof fn lemma_sign_extension(w: u16, value: u16, half: u16, full: u16)
    by (bit_vector)
    requires
        half == 16 || half == 32 || half == 256 || half == 1024,
        full == 2 * half,
        w % full == value % full,
        value < half || value >= 0x10000 - half,
    ensures
        (if (w / half) % 2 == 1 {
            w % half + 0x10000 - half
        } else {
            (w % half) as int
        }) == value,
{
}

/// What it takes of a value to be a sign extension of each width that the
/// instruction fields use.
proof fn lemma_fits_signed(value: u16)
    ensures
        fits_signed(value, 5) <==> (value < 16 || value >= 0x10000 - 16),
        fits_signed(value, 6) <==> (value < 32 || value >= 0x10000 - 32),
        fits_signed(value, 9) <==> (value < 256 || value >= 0x10000 - 256),
        fits_signed(value, 11) <==> (value < 1024 || value >= 0x10000 - 1024),
{
    vstd::arithmetic::power2::lemma2_to64();
}

/// The fields that decoding reads, in the arithmetic of the word itself.
proof fn lemma_word_fields(word: u16)
    ensures
        field(word, 12, 4) == word / 4096,
        field(word, 11, 1) == (word / 2048) % 2,
        field(word, 9, 3) == (word / 512) % 8,
        field(word, 6, 3) == (word / 64) % 8,
        field(word, 5, 1) == (word / 32) % 2,
        field(word, 0, 3) == word % 8,
        field(word, 0, 8) == word % 256,
        signed_low(word, 5) == (if (word / 16) % 2 == 1 {
            word % 16 + 0x10000 - 16
        } else {
            (word % 16) as int
        }),
        signed_low(word, 6) == (if (word / 32) % 2 == 1 {
            word % 32 + 0x10000 - 32
        } else {
            (word % 32) as int
        }),
        signed_low(word, 9) == (if (word / 256) % 2 == 1 {
            word % 256 + 0x10000 - 256
        } else {
            (word % 256) as int
        }),
        signed_low(word, 11) == (if (word / 1024) % 2 == 1 {
            word % 1024 + 0x10000 - 1024
        } else {
            (word % 1024) as int
        }),
{
    vstd::arithmetic::power2::lemma2_to64();
}

/// A word of operation code, two register fields, a one-bit mode and a
/// five-bit immediate.
proof fn lemma_arith_word(
    op: u16,
    destination: Register,
    source_1: Register,
    source_2: Register,
    mode: u16,
    value: u16,
    word: u16,
)
    requires
        op < 16,
        destination.id() < 8,
        source_1.id() < 8,
        mode <= 1,
        fits_signed(value, 5),
        source_2.id() == value % 8,
        word == op * 4096 + destination.id() * 512 + source_1.id() * 64 + mode * 32 + value % 32,
    ensures
        field(word, 12, 4) == op,
        register_at(word, 9) == destination,
        register_at(word, 6) == source_1,
        register_at(word, 0) == source_2,
        field(word, 5, 1) == mode,
        signed_low(word, 5) == value,
{
    lemma_fits_signed(value);
    assert((value % 32) % 8 == value % 8) by (bit_vector);
    lemma_fields_of_word(word, op, destination.id() as u16, source_1.id() as u16, mode, value % 32);
    lemma_word_fields(word);
    lemma_sign_extension(word, value, 16, 32);
    destination.lemma_from_id();
    source_1.lemma_from_id();
    source_2.lemma_from_id();
}

/// The fields of a word laid out as operation code, a three-bit field and
/// a nine-bit offset.
proof fn lemma_fields_of_offset_word(w: u16, op: u16, a: u16, o: u16)
    by (bit_vector)
    requires
        op < 16,
        a < 8,
        o < 512,
        w == op * 4096 + a * 512 + o,
    ensures
        w / 4096 == op,
        (w / 512) % 8 == a,
        w % 512 == o,
        w % 256 == o % 256,
{
}

/// The fields of a word laid out as operation code, two register fields
/// and a six-bit offset.
proof fn lemma_fields_of_base_word(w: u16, op: u16, a: u16, b: u16, o: u16)
    by (bit_vector)
    requires
        op < 16,
        a < 8,
        b < 8,
        o < 64,
        w == op * 4096 + a * 512 + b * 64 + o,
    ensures
        w / 4096 == op,
        (w / 512) % 8 == a,
        (w / 64) % 8 == b,
        w % 64 == o,
{
}

/// The fields of a `JSR`/`JSRR` word: operation code 4, a one-bit mode and
/// an eleven-bit offset.
proof fn lemma_fields_of_subroutine_word(w: u16, m: u16, o: u16)
    by (bit_vector)
    requires
        m < 2,
        o < 2048,
        w == 0x4000 + m * 2048 + o,
    ensures
        w / 4096 == 4,
        (w / 2048) % 2 == m,
        w % 2048 == o,
        (w / 64) % 8 == (o / 64) % 8,
{
}

/// A `JSR`/`JSRR` word of a one-bit mode and an eleven-bit offset.
proof fn lemma_subroutine_word(source: Register, mode: u16, offset: u16, word: u16)
    requires
        mode <= 1,
        fits_signed(offset, 11),
        source.id() == (offset / 64) % 8,
        word == 0x4000 + mode * 2048 + offset % 2048,
    ensures
        field(word, 12, 4) == 4,
        register_at(word, 6) == source,
        field(word, 11, 1) == mode,
        signed_low(word, 11) == offset,
{
    lemma_fits_signed(offset);
    assert(((offset % 2048) / 64) % 8 == (offset / 64) % 8) by (bit_vector);
    lemma_fields_of_subroutine_word(word, mode, offset % 2048);
    lemma_word_fields(word);
    lemma_sign_extension(word, offset, 1024, 2048);
    source.lemma_from_id();
}

/// A word of operation code, a three-bit field `a` and a nine-bit offset.
proof fn lemma_offset_word(op: u16, a: u16, offset: u16, word: u16)
    requires
        op < 16,
        a < 8,
        fits_signed(offset, 9),
        word == op * 4096 + a * 512 + offset % 512,
    ensures
        field(word, 12, 4) == op,
        field(word, 9, 3) == a,
        signed_low(word, 9) == offset,
        field(word, 0, 8) == offset % 256,
{
    lemma_fits_signed(offset);
    lemma_fields_of_offset_word(word, op, a, offset % 512);
    lemma_word_fields(word);
    lemma_sign_extension(word, offset, 256, 512);
}

/// A word of operation code, two register fields and a six-bit offset.
proof fn lemma_base_word(op: u16, a: Register, b: Register, offset: u16, word: u16)
    requires
        op < 16,
        a.id() < 8,
        b.id() < 8,
        fits_signed(offset, 6),
        word == op * 4096 + a.id() * 512 + b.id() * 64 + offset % 64,
    ensures
        field(word, 12, 4) == op,
        register_at(word, 9) == a,
        register_at(word, 6) == b,
        signed_low(word, 6) == offset,
{
    lemma_fits_signed(offset);
    lemma_fields_of_base_word(word, op, a.id() as u16, b.id() as u16, offset % 64);
    lemma_word_fields(word);
    lemma_sign_extension(word, offset, 32, 64);
    a.lemma_from_id();
    b.lemma_from_id();
}

/// `lemma_decode_encode` for `Add` and `And`.
proof fn lemma_decode_encode_arith(instruction: Instruction)
    requires
        instruction.is_canonical(),
        instruction is Add || instruction is And,
    ensures
        instruction.encoding() <= 0xFFFF,
        decoded(instruction.encoding() as u16) == Ok::<Instruction, VMError>(instruction),
{
    let w = instruction.encoding();
    match instruction {
        Instruction::Add { destination, source_1, source_2, mode, value } => {
            lemma_fits_signed(value);
            lemma_arith_word(1, destination, source_1, source_2, mode, value, w as u16);
        },
        Instruction::And { destination, source_1, source_2, mode, value } => {
            lemma_fits_signed(value);
            lemma_arith_word(5, destination, source_1, source_2, mode, value, w as u16);
        },
        _ => {},
    }
}

/// Decoding what `encode` wrote gives back the instruction, for every
/// instruction that a word spells out exactly.
pub proof fn lemma_decode_encode(instruction: Instruction)
    requires
        instruction.is_canonical(),
    ensures
        instruction.encoding() <= 0xFFFF,
        decoded(instruction.encoding() as u16) == Ok::<Instruction, VMError>(instruction),
{
    let w = instruction.encoding();
    match instruction {
        Instruction::Add { .. } | Instruction::And { .. } => {
            lemma_decode_encode_arith(instruction);
        },
        Instruction::Not { destination, source } => {
            lemma_fits_signed(0);
            lemma_base_word(9, destination, source, 0, w as u16);
        },
        Instruction::Load { destination, offset } => {
            destination.lemma_from_id();
            lemma_offset_word(2, destination.id() as u16, offset, w as u16);
        },
        Instruction::LoadIndirect { destination, offset } => {
            destination.lemma_from_id();
            lemma_offset_word(10, destination.id() as u16, offset, w as u16);
        },
        Instruction::LoadEffectiveAddress { destination, offset } => {
            destination.lemma_from_id();
            lemma_offset_word(14, destination.id() as u16, offset, w as u16);
        },
        Instruction::Store { source, offset } => {
            source.lemma_from_id();
            lemma_offset_word(3, source.id() as u16, offset, w as u16);
        },
        Instruction::StoreIndirect { source, offset } => {
            source.lemma_from_id();
            lemma_offset_word(11, source.id() as u16, offset, w as u16);
        },
        Instruction::Branch { flag, offset } => {
            lemma_offset_word(0, flag, offset, w as u16);
        },
        Instruction::LoadRegister { destination, source, offset } => {
            lemma_base_word(6, destination, source, offset, w as u16);
        },
        Instruction::StoreRegister { source_1, source_2, offset } => {
            lemma_base_word(7, source_1, source_2, offset, w as u16);
        },
        Instruction::Jump { source } => {
            lemma_fits_signed(0);
            lemma_base_word(12, Register::R0, source, 0, w as u16);
        },
        Instruction::Trap { routine } => {
            lemma_fits_signed(routine.vector() as u16);
            lemma_offset_word(15, 0, routine.vector() as u16, w as u16);
        },
        Instruction::JumpRegister { source, mode, offset } => {
            lemma_subroutine_word(source, mode, offset, w as u16);
        },
        Instruction::Noop => {},
    }
}

/// A word is the sum of its fields, and the low bits of a field are the
/// low bits of that field's sign extension.
proof fn lemma_word_is_sum_of_fields(w: u16)
    by (bit_vector)
    ensures
        w == (w / 4096) * 4096 + ((w / 512) % 8) * 512 + ((w / 64) % 8) * 64 + ((w / 32) % 2)
            * 32 + w % 32,
        w == (w / 4096) * 4096 + ((w / 512) % 8) * 512 + ((w / 64) % 8) * 64 + w % 64,
        w == (w / 4096) * 4096 + ((w / 512) % 8) * 512 + w % 512,
        (w / 16) % 2 == 1 ==> w % 32 == w % 16 + 16,
        (w / 16) % 2 == 0 ==> w % 32 == w % 16,
        (w / 32) % 2 == 1 ==> w % 64 == w % 32 + 32,
        (w / 32) % 2 == 0 ==> w % 64 == w % 32,
        (w / 256) % 2 == 1 ==> w % 512 == w % 256 + 256,
        (w / 256) % 2 == 0 ==> w % 512 == w % 256,
        w == (w / 4096) * 4096 + ((w / 2048) % 2) * 2048 + w % 2048,
        (w / 1024) % 2 == 1 ==> w % 2048 == w % 1024 + 1024,
        (w / 1024) % 2 == 0 ==> w % 2048 == w % 1024,
        w / 4096 == 9 ==> w - w % 64 == 0x9000 + ((w / 512) % 8) * 512 + ((w / 64) % 8) * 64,
{
}

/// Encoding what `decode` read gives back the word, for every word whose
/// operation code is `BR`, `ADD`, `LD`, `ST`, `JSR`/`JSRR`, `AND`, `LDR`,
/// `STR`, `LDI`, `STI` or `LEA`: those instructions keep every bit of their
/// word.
pub proof fn lemma_encode_decode(word: u16)
    requires
        ({
            let opcode = field(word, 12, 4);
            opcode <= 7 || opcode == 10 || opcode == 11 || opcode == 14
        }),
    ensures
        decoded(word) is Ok,
        decoded(word)->Ok_0.encoding() == word,
{
    lemma_word_fields(word);
    lemma_word_is_sum_of_fields(word);
    Register::lemma_id_from(field(word, 9, 3));
    Register::lemma_id_from(field(word, 6, 3));
}

/// Decoding fails exactly on words whose operation code is 8 (`RTI`) or 13,
/// and on `TRAP` words whose low byte names no trap routine; it never fails
/// on a register field.
pub proof fn lemma_decode_fails(repr: u16)
    ensures
        decoded(repr) is Err <==> ({
            let opcode = field(repr, 12, 4);
            opcode == 8 || opcode == 13 || (opcode == 15 && TrapCode::from_vector(
                field(repr, 0, 8),
            ) is None)
        }),
        !(decoded(repr) matches Err(VMError::RegisterDecode { .. })),
{
    lemma_word_fields(repr);
}

/// Encoding what `decode` read from a `NOT`, `JMP` or `TRAP` word gives back
/// the word with the bits that those instructions ignore cleared: the low
/// six bits of `NOT`, all but the base register of `JMP`, and bits 8 to 11
/// of `TRAP`.
pub proof fn lemma_encode_decode_ignored_bits(word: u16)
    requires
        decoded(word) is Ok,
    ensures
        field(word, 12, 4) == 9 ==> decoded(word)->Ok_0.encoding() == word - word % 64,
        field(word, 12, 4) == 12 ==> decoded(word)->Ok_0.encoding() == 0xC000 + field(word, 6, 3)
            * 64,
        field(word, 12, 4) == 15 ==> decoded(word)->Ok_0.encoding() == 0xF000 + field(word, 0, 8),
{
    lemma_word_fields(word);
    lemma_word_is_sum_of_fields(word);
    Register::lemma_id_from(field(word, 9, 3));
    Register::lemma_id_from(field(word, 6, 3));
}


/// The low bits of a field that decoding sign extends are also the bits
/// that it reads as a register field.
proof fn lemma_register_bits_of_word(w: u16)
    by (bit_vector)
    ensures
        (w % 16) % 8 == w % 8,
        ((w % 1024) / 64) % 8 == (w / 64) % 8,
        (((w % 1024) | 0xFC00) / 64) % 8 == (w / 64) % 8,
        (w % 1024) | 0xFC00 == (w % 1024) + 0xFC00,
        ((w % 16) | 0xFFF0) % 8 == w % 8,
        (w % 16) | 0xFFF0 == (w % 16) + 0xFFF0,
{
}

/// `lemma_decoded_is_canonical` for `ADD` and `AND` words.
proof fn lemma_decoded_arith_is_canonical(word: u16)
    requires
        field(word, 12, 4) == 1 || field(word, 12, 4) == 5,
    ensures
        decoded(word)->Ok_0.is_canonical(),
{
    lemma_word_fields(word);
    lemma_register_bits_of_word(word);
    Register::lemma_id_from(field(word, 9, 3));
    Register::lemma_id_from(field(word, 6, 3));
    Register::lemma_id_from(field(word, 0, 3));
    let value = signed_low(word, 5);
    lemma_fits_signed(value);
    if (word / 16) % 2 == 1 {
        assert(value == (word % 16) | 0xFFF0);
    } else {
        assert(value == word % 16);
    }
    assert(value % 8 == word % 8);
}

/// `lemma_decoded_is_canonical` for `JSR`/`JSRR` words.
proof fn lemma_decoded_subroutine_is_canonical(word: u16)
    requires
        field(word, 12, 4) == 4,
    ensures
        decoded(word)->Ok_0.is_canonical(),
{
    lemma_word_fields(word);
    lemma_register_bits_of_word(word);
    Register::lemma_id_from(field(word, 6, 3));
    let offset = signed_low(word, 11);
    lemma_fits_signed(offset);
    if (word / 1024) % 2 == 1 {
        assert(offset == (word % 1024) | 0xFC00);
    } else {
        assert(offset == word % 1024);
    }
    assert((offset / 64) % 8 == (word / 64) % 8);
}

/// `lemma_decoded_is_canonical` for words with six-bit offsets, `LDR` and
/// `STR`.
proof fn lemma_decoded_base_is_canonical(word: u16)
    requires
        field(word, 12, 4) == 6 || field(word, 12, 4) == 7,
    ensures
        decoded(word)->Ok_0.is_canonical(),
{
    lemma_word_fields(word);
    Register::lemma_id_from(field(word, 9, 3));
    Register::lemma_id_from(field(word, 6, 3));
    lemma_fits_signed(signed_low(word, 6));
}

/// `lemma_decoded_is_canonical` for the other words that decode.
proof fn lemma_decoded_other_is_canonical(word: u16)
    requires
        decoded(word) is Ok,
        ({
            let opcode = field(word, 12, 4);
            opcode == 0 || opcode == 2 || opcode == 3 || opcode == 9 || opcode >= 10
        }),
    ensures
        decoded(word)->Ok_0.is_canonical(),
{
    lemma_word_fields(word);
    Register::lemma_id_from(field(word, 9, 3));
    Register::lemma_id_from(field(word, 6, 3));
    lemma_fits_signed(signed_low(word, 9));
}

/// Every instruction that `decode` reads from a word is one that a word
/// spells out exactly.
proof fn lemma_decoded_is_canonical(word: u16)
    requires
        decoded(word) is Ok,
    ensures
        decoded(word)->Ok_0.is_canonical(),
{
    lemma_word_fields(word);
    let opcode = field(word, 12, 4);
    if opcode == 1 || opcode == 5 {
        lemma_decoded_arith_is_canonical(word);
    } else if opcode == 4 {
        lemma_decoded_subroutine_is_canonical(word);
    } else if opcode == 6 || opcode == 7 {
        lemma_decoded_base_is_canonical(word);
    } else {
        lemma_decoded_other_is_canonical(word);
    }
}

/// Decoding, encoding and decoding again reads the same instruction: every
/// instruction that `decode` gives is one that `encode` writes back.
pub proof fn lemma_decode_encode_decoded(word: u16)
    requires
        decoded(word) is Ok,
    ensures
        decoded(word)->Ok_0.encoding() <= 0xFFFF,
        decoded(decoded(word)->Ok_0.encoding() as u16) == decoded(word),
{
    lemma_decoded_is_canonical(word);
    lemma_decode_encode(decoded(word)->Ok_0);
}


/// The LC-3 trap vectors: a `TRAP` word decodes by its low byte to `GETC`
/// (0x20), `OUT` (0x21), `PUTS` (0x22), `IN` (0x23), `PUTSP` (0x24) or
/// `HALT` (0x25), and to a `TrapCodeDecode` error carrying the low byte for
/// any other byte; each routine encodes as `0xF000` plus its vector.
pub proof fn lemma_trap_vectors(word: u16)
    requires
        field(word, 12, 4) == 15,
    ensures
        field(word, 0, 8) == 0x20 ==> decoded(word) == Ok::<Instruction, VMError>(
            (Instruction::Trap { routine: TrapCode::Getc }),
        ),
        field(word, 0, 8) == 0x21 ==> decoded(word) == Ok::<Instruction, VMError>(
            (Instruction::Trap { routine: TrapCode::Out }),
        ),
        field(word, 0, 8) == 0x22 ==> decoded(word) == Ok::<Instruction, VMError>(
            (Instruction::Trap { routine: TrapCode::Puts }),
        ),
        field(word, 0, 8) == 0x23 ==> decoded(word) == Ok::<Instruction, VMError>(
            (Instruction::Trap { routine: TrapCode::In }),
        ),
        field(word, 0, 8) == 0x24 ==> decoded(word) == Ok::<Instruction, VMError>(
            (Instruction::Trap { routine: TrapCode::Putsp }),
        ),
        field(word, 0, 8) == 0x25 ==> decoded(word) == Ok::<Instruction, VMError>(
            (Instruction::Trap { routine: TrapCode::Halt }),
        ),
        field(word, 0, 8) < 0x20 || field(word, 0, 8) > 0x25 ==> (decoded(word) is Err
            && decoded(word)->Err_0 == (VMError::TrapCodeDecode { repr: field(word, 0, 8) as u16 })),
        (Instruction::Trap { routine: TrapCode::Getc }).encoding() == 0xF020,
        (Instruction::Trap { routine: TrapCode::Out }).encoding() == 0xF021,
        (Instruction::Trap { routine: TrapCode::Puts }).encoding() == 0xF022,
        (Instruction::Trap { routine: TrapCode::In }).encoding() == 0xF023,
        (Instruction::Trap { routine: TrapCode::Putsp }).encoding() == 0xF024,
        (Instruction::Trap { routine: TrapCode::Halt }).encoding() == 0xF025,
{
}

/// The word that `encode` builds for an `ADD` with these fields.
pub open spec fn add_word(
    destination: Register,
    source_1: Register,
    source_2: Register,
    mode: u16,
    value: u16,
) -> int {
    (Instruction::Add { destination, source_1, source_2, mode, value }).encoding()
}

/// The word that `encode` builds for an `AND` with these fields.
pub open spec fn and_word(
    destination: Register,
    source_1: Register,
    source_2: Register,
    mode: u16,
    value: u16,
) -> int {
    (Instruction::And { destination, source_1, source_2, mode, value }).encoding()
}

/// The word of an `ADD` or `AND` does not depend on `source_2`: its low five
/// bits hold the immediate's low five bits whatever `source_2` is, above them
/// the mode bit, then `source_1` and `destination`, and the operation code 1
/// (`ADD`) or 5 (`AND`) on top.
pub proof fn lemma_arithmetic_encoding(
    destination: Register,
    source_1: Register,
    source_2: Register,
    other_source_2: Register,
    mode: u16,
    value: u16,
)
    ensures
        add_word(destination, source_1, source_2, mode, value) == add_word(
            destination,
            source_1,
            other_source_2,
            mode,
            value,
        ),
        and_word(destination, source_1, source_2, mode, value) == and_word(
            destination,
            source_1,
            other_source_2,
            mode,
            value,
        ),
        destination.id() < 8 && source_1.id() < 8 && mode <= 1 ==> ({
            let add = add_word(destination, source_1, source_2, mode, value);
            let and = and_word(destination, source_1, source_2, mode, value);
            &&& add <= 0xFFFF && and <= 0xFFFF
            &&& add as u16 % 32 == value % 32 && and as u16 % 32 == value % 32
            &&& (add as u16 / 32) % 2 == mode && (and as u16 / 32) % 2 == mode
            &&& (add as u16 / 64) % 8 == source_1.id() && (and as u16 / 64) % 8 == source_1.id()
            &&& (add as u16 / 512) % 8 == destination.id() && (and as u16 / 512) % 8
                == destination.id()
            &&& add as u16 / 4096 == 1 && and as u16 / 4096 == 5
        }),
{
    if destination.id() < 8 && source_1.id() < 8 && mode <= 1 {
        let d = destination.id() as u16;
        let s = source_1.id() as u16;
        let add = add_word(destination, source_1, source_2, mode, value);
        let and = and_word(destination, source_1, source_2, mode, value);
        lemma_fields_of_word(add as u16, 1, d, s, mode, value % 32);
        lemma_fields_of_word(and as u16, 5, d, s, mode, value % 32);
    }
}


/// What `decode` reads from a word, in the word's own arithmetic, for the
/// operation codes 0 to 7: the top four bits choose the instruction (0 `BR`,
/// 1 `ADD`, 2 `LD`, 3 `ST`, 4 `JSR`/`JSRR`, 5 `AND`, 6 `LDR`, 7 `STR`); a
/// destination or first register is bits 9 to 11, a base or second
/// register bits 6 to 8, the last register of `ADD`/`AND` bits 0 to 2, the
/// mode bit 5 (bit 11 for `JSR`), and every offset or immediate is the
/// two's-complement sign extension of its low bits.
pub proof fn lemma_decode_fields_low(w: u16)
    requires
        w / 4096 <= 7,
    ensures
        w / 4096 == 0 ==> (decoded(w) matches Ok(Instruction::Branch { flag, offset }) && flag == (
        w / 512) % 8 && offset % 512 == w % 512 && (offset < 256 || offset >= 0xFF00)),
        w / 4096 == 1 ==> (decoded(w) matches Ok(
            Instruction::Add { destination, source_1, source_2, mode, value },
        ) && destination.id() == (w / 512) % 8 && source_1.id() == (w / 64) % 8 && source_2.id()
            == w % 8 && mode == (w / 32) % 2 && value % 32 == w % 32 && (value < 16 || value
            >= 0xFFF0)),
        w / 4096 == 2 ==> (decoded(w) matches Ok(Instruction::Load { destination, offset })
            && destination.id() == (w / 512) % 8 && offset % 512 == w % 512 && (offset < 256
            || offset >= 0xFF00)),
        w / 4096 == 3 ==> (decoded(w) matches Ok(Instruction::Store { source, offset })
            && source.id() == (w / 512) % 8 && offset % 512 == w % 512 && (offset < 256 || offset
            >= 0xFF00)),
        w / 4096 == 4 ==> (decoded(w) matches Ok(Instruction::JumpRegister { source, mode, offset })
            && source.id() == (w / 64) % 8 && mode == (w / 2048) % 2 && offset % 2048 == w % 2048
            && (offset < 1024 || offset >= 0xFC00)),
        w / 4096 == 5 ==> (decoded(w) matches Ok(
            Instruction::And { destination, source_1, source_2, mode, value },
        ) && destination.id() == (w / 512) % 8 && source_1.id() == (w / 64) % 8 && source_2.id()
            == w % 8 && mode == (w / 32) % 2 && value % 32 == w % 32 && (value < 16 || value
            >= 0xFFF0)),
        w / 4096 == 6 ==> (decoded(w) matches Ok(
            Instruction::LoadRegister { destination, source, offset },
        ) && destination.id() == (w / 512) % 8 && source.id() == (w / 64) % 8 && offset % 64
            == w % 64 && (offset < 32 || offset >= 0xFFE0)),
        w / 4096 == 7 ==> (decoded(w) matches Ok(
            Instruction::StoreRegister { source_1, source_2, offset },
        ) && source_1.id() == (w / 512) % 8 && source_2.id() == (w / 64) % 8 && offset % 64 == w
            % 64 && (offset < 32 || offset >= 0xFFE0)),
{
    lemma_word_fields(w);
    lemma_word_is_sum_of_fields(w);
    Register::lemma_id_from(field(w, 9, 3));
    Register::lemma_id_from(field(w, 6, 3));
    Register::lemma_id_from(field(w, 0, 3));
}

/// What `decode` reads from a word, in the word's own arithmetic, for the
/// operation codes 8 to 14 (9 `NOT`, 10 `LDI`, 11 `STI`, 12 `JMP`, 14 `LEA`;
/// 8 and 13 are reserved). `lemma_trap_vectors` gives operation code 15.
pub proof fn lemma_decode_fields_high(w: u16)
    requires
        w / 4096 >= 8,
    ensures
        w / 4096 == 9 ==> (decoded(w) matches Ok(Instruction::Not { destination, source })
            && destination.id() == (w / 512) % 8 && source.id() == (w / 64) % 8),
        w / 4096 == 10 ==> (decoded(w) matches Ok(Instruction::LoadIndirect { destination, offset })
            && destination.id() == (w / 512) % 8 && offset % 512 == w % 512 && (offset < 256
            || offset >= 0xFF00)),
        w / 4096 == 11 ==> (decoded(w) matches Ok(Instruction::StoreIndirect { source, offset })
            && source.id() == (w / 512) % 8 && offset % 512 == w % 512 && (offset < 256 || offset
            >= 0xFF00)),
        w / 4096 == 12 ==> (decoded(w) matches Ok(Instruction::Jump { source }) && source.id() == (w
            / 64) % 8),
        w / 4096 == 14 ==> (decoded(w) matches Ok(
            Instruction::LoadEffectiveAddress { destination, offset },
        ) && destination.id() == (w / 512) % 8 && offset % 512 == w % 512 && (offset < 256
            || offset >= 0xFF00)),
        w / 4096 == 8 || w / 4096 == 13 ==> (decoded(w) matches Err(
            VMError::ReservedInstruction { repr },
        ) && repr == w),
{
    lemma_word_fields(w);
    lemma_word_is_sum_of_fields(w);
    Register::lemma_id_from(field(w, 9, 3));
    Register::lemma_id_from(field(w, 6, 3));
}

} // verus!
