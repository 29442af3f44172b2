use vstd::prelude::*;

use crate::bus::{
    spec_read, spec_read_word, wrap_add16, wrap_inc, wrapping_add16, wrapping_inc, Bus, BusFault,
    BusView, RESET_VECTOR,
};

verus! {

// Flag bits of the processor status register.  The bit at 0x20 is
// unused: no mask names it and the flag accessors never touch it.
pub const CARRY_MASK: u8 = 0x01;

pub const ZERO_RESULT_MASK: u8 = 0x02;

pub const INTERRUPT_DISABLE_MASK: u8 = 0x04;

pub const DECIMAL_MASK: u8 = 0x08;

pub const BREAK_COMMAND_MASK: u8 = 0x10;

pub const OVERFLOW_MASK: u8 = 0x40;

pub const NEGATIVE_MASK: u8 = 0x80;

/// The mask names exactly one of the seven architectural flags.
pub open spec fn is_flag_mask(mask: u8) -> bool {
    ||| mask == CARRY_MASK
    ||| mask == ZERO_RESULT_MASK
    ||| mask == INTERRUPT_DISABLE_MASK
    ||| mask == DECIMAL_MASK
    ||| mask == BREAK_COMMAND_MASK
    ||| mask == OVERFLOW_MASK
    ||| mask == NEGATIVE_MASK
}

/// The flag selected by `mask` is set in `flags`.
pub open spec fn flag_of(flags: u8, mask: u8) -> bool {
    flags & mask != 0
}

/// `flags` with the flag selected by `mask` forced to `value` and
/// every other bit untouched.
pub open spec fn set_mask(flags: u8, mask: u8, value: bool) -> u8 {
    if value {
        flags | mask
    } else {
        flags & !mask
    }
}

/// Setting a flag makes exactly that flag read back as the value
/// written.
pub proof fn lemma_flag_set_get(flags: u8, mask: u8, value: bool)
    by (bit_vector)
    requires
        is_flag_mask(mask),
    ensures
        flag_of(set_mask(flags, mask, value), mask) == value,
{
}

/// Setting one flag leaves every other flag unchanged.
pub proof fn lemma_flag_set_other(flags: u8, mask: u8, other: u8, value: bool)
    by (bit_vector)
    requires
        is_flag_mask(mask),
        is_flag_mask(other),
        mask != other,
    ensures
        flag_of(set_mask(flags, mask, value), other) == flag_of(flags, other),
{
}

/// Law: in the all-zero status register a processor powers up with,
/// every flag reads as clear.
pub proof fn lemma_flag_of_zero(mask: u8)
    by (bit_vector)
    ensures
        !flag_of(0u8, mask),
{
}

/// The carry flag as the 0-or-1 summand it contributes to additions.
pub open spec fn carry_in(flags: u8) -> int {
    if flag_of(flags, CARRY_MASK) {
        1
    } else {
        0
    }
}

/// Bit 7 of the byte: the sign bit of its two's-complement reading.
pub open spec fn is_negative(value: u8) -> bool {
    value >= 0x80
}

/// `flags` after the negative-then-zero update every arithmetic
/// operation performs on its result.
pub open spec fn set_nz(flags: u8, result: u8) -> u8 {
    set_mask(set_mask(flags, NEGATIVE_MASK, is_negative(result)), ZERO_RESULT_MASK, result == 0)
}

/// True signed overflow of `a + b (+ carry)`: both operands have the
/// same sign and the result's sign differs from it.
pub open spec fn signed_overflow(a: u8, b: u8, result: u8) -> bool {
    is_negative(a) == is_negative(b) && is_negative(result) != is_negative(a)
}

/// The addressing-mode class of an instruction, as recorded in the
/// opcode table.  Operand bytes are fetched and interpreted by the
/// address resolver alone.
#[derive(Clone, Copy, Debug, PartialEq, Eq)]
pub enum AddressMode {
    Immediate,
    ZeroPage,
    ZeroPageX,
    Absolute,
    AbsoluteX,
    AbsoluteY,
    IndirectX,
    IndirectY,
    Relative,
    Accumulator,
    Implied,
}

/// The register file of the 6507: the only mutable processor state.
/// `pc` is always interpreted modulo the 16-bit address space.
#[derive(Clone, Copy)]
pub struct Mos6507 {
    pub a: u8,
    pub x: u8,
    pub y: u8,
    pub sp: u8,
    pub pc: u16,
    pub flags: u8,
}

/// Register and flag effects of a binary-mode add-with-carry.
pub open spec fn s_adc_binary(cpu: Mos6507, operand: u8) -> Mos6507 {
    let sum = cpu.a + operand + carry_in(cpu.flags);
    let result = (sum % 256) as u8;
    let f1 = set_mask(cpu.flags, CARRY_MASK, sum > 255);
    let f2 = set_mask(f1, OVERFLOW_MASK, signed_overflow(cpu.a, operand, result));
    Mos6507 { a: result, flags: set_nz(f2, result), ..cpu }
}

/// Register and flag effects of a decimal-mode add-with-carry:
/// packed-BCD addition with per-nibble correction by six.  The
/// overflow flag is left untouched in decimal mode.
pub open spec fn s_adc_decimal(cpu: Mos6507, operand: u8) -> Mos6507 {
    let low = (cpu.a % 16) + (operand % 16) + carry_in(cpu.flags);
    let low_nibble = if low <= 9 {
        low
    } else {
        (low + 6) % 16
    };
    let low_carry: int = if low <= 9 {
        0
    } else {
        1
    };
    let high = (cpu.a / 16) + (operand / 16) + low_carry;
    let high_nibble = if high <= 9 {
        high
    } else {
        (high + 6) % 16
    };
    let result = (high_nibble * 16 + low_nibble) as u8;
    let f1 = set_mask(cpu.flags, CARRY_MASK, high > 9);
    Mos6507 { a: result, flags: set_nz(f1, result), ..cpu }
}

/// Register and flag effects of add-with-carry, in whichever mode the
/// decimal flag selects.
pub open spec fn s_adc(cpu: Mos6507, operand: u8) -> Mos6507 {
    if flag_of(cpu.flags, DECIMAL_MASK) {
        s_adc_decimal(cpu, operand)
    } else {
        s_adc_binary(cpu, operand)
    }
}

/// Register and flag effects of a bitwise AND into the accumulator.
pub open spec fn s_and(cpu: Mos6507, operand: u8) -> Mos6507 {
    let result = cpu.a & operand;
    Mos6507 { a: result, flags: set_nz(cpu.flags, result), ..cpu }
}

/// Flag effects of an arithmetic shift left; the shifted byte lands in
/// the accumulator exactly when the addressing mode is Accumulator
/// (memory operands are stored back by the execution loop).
pub open spec fn s_asl(cpu: Mos6507, operand: u8, accumulator: bool) -> Mos6507 {
    let shifted = shl_byte(operand);
    let f1 = set_mask(cpu.flags, CARRY_MASK, is_negative(operand));
    Mos6507 {
        a: if accumulator {
            shifted
        } else {
            cpu.a
        },
        flags: set_nz(f1, shifted),
        ..cpu
    }
}

/// The byte shifted left by one, dropping the old bit 7.
pub open spec fn shl_byte(value: u8) -> u8 {
    ((2 * value) % 256) as u8
}

/// Flag effects of a BIT test of the accumulator against the operand:
/// zero from the conjunction, overflow and negative from bits 6 and 7
/// of the operand itself.
pub open spec fn s_bit(cpu: Mos6507, operand: u8) -> Mos6507 {
    let f1 = set_mask(cpu.flags, ZERO_RESULT_MASK, cpu.a & operand == 0);
    let f2 = set_mask(f1, OVERFLOW_MASK, flag_of(operand, OVERFLOW_MASK));
    Mos6507 { flags: set_mask(f2, NEGATIVE_MASK, is_negative(operand)), ..cpu }
}

/// Flag effects of comparing a register against an operand: carry is
/// the unsigned no-borrow condition, zero is equality, negative is
/// bit 7 of the wrapped difference.
pub open spec fn s_compare_flags(flags: u8, register: u8, operand: u8) -> u8 {
    let diff = (((register - operand) % 256) as u8);
    let f1 = set_mask(flags, ZERO_RESULT_MASK, register == operand);
    let f2 = set_mask(f1, NEGATIVE_MASK, is_negative(diff));
    set_mask(f2, CARRY_MASK, register >= operand)
}

/// Law: what each flag reads after a comparison — carry exactly when
/// the register is at least the operand (unsigned, no borrow), zero
/// exactly on equality, negative as bit 7 of the wrapped difference;
/// the remaining flags keep their old values.
pub proof fn lemma_compare_flags(flags: u8, register: u8, operand: u8)
    ensures
        ({
            let f = s_compare_flags(flags, register, operand);
            &&& flag_of(f, CARRY_MASK) == (register >= operand)
            &&& flag_of(f, ZERO_RESULT_MASK) == (register == operand)
            &&& flag_of(f, NEGATIVE_MASK) == is_negative((((register - operand) % 256) as u8))
            &&& flag_of(f, DECIMAL_MASK) == flag_of(flags, DECIMAL_MASK)
            &&& flag_of(f, INTERRUPT_DISABLE_MASK) == flag_of(flags, INTERRUPT_DISABLE_MASK)
            &&& flag_of(f, BREAK_COMMAND_MASK) == flag_of(flags, BREAK_COMMAND_MASK)
            &&& flag_of(f, OVERFLOW_MASK) == flag_of(flags, OVERFLOW_MASK)
        }),
{
    let diff = (((register - operand) % 256) as u8);
    let zero = register == operand;
    let negative = is_negative(diff);
    let carry = register >= operand;
    let f1 = set_mask(flags, ZERO_RESULT_MASK, zero);
    let f2 = set_mask(f1, NEGATIVE_MASK, negative);
    lemma_flag_set_get(f2, CARRY_MASK, carry);
    lemma_flag_set_other(f2, CARRY_MASK, ZERO_RESULT_MASK, carry);
    lemma_flag_set_other(f1, NEGATIVE_MASK, ZERO_RESULT_MASK, negative);
    lemma_flag_set_get(flags, ZERO_RESULT_MASK, zero);
    lemma_flag_set_other(f2, CARRY_MASK, NEGATIVE_MASK, carry);
    lemma_flag_set_get(f1, NEGATIVE_MASK, negative);
    lemma_flag_set_other(f2, CARRY_MASK, DECIMAL_MASK, carry);
    lemma_flag_set_other(f1, NEGATIVE_MASK, DECIMAL_MASK, negative);
    lemma_flag_set_other(flags, ZERO_RESULT_MASK, DECIMAL_MASK, zero);
    lemma_flag_set_other(f2, CARRY_MASK, INTERRUPT_DISABLE_MASK, carry);
    lemma_flag_set_other(f1, NEGATIVE_MASK, INTERRUPT_DISABLE_MASK, negative);
    lemma_flag_set_other(flags, ZERO_RESULT_MASK, INTERRUPT_DISABLE_MASK, zero);
    lemma_flag_set_other(f2, CARRY_MASK, BREAK_COMMAND_MASK, carry);
    lemma_flag_set_other(f1, NEGATIVE_MASK, BREAK_COMMAND_MASK, negative);
    lemma_flag_set_other(flags, ZERO_RESULT_MASK, BREAK_COMMAND_MASK, zero);
    lemma_flag_set_other(f2, CARRY_MASK, OVERFLOW_MASK, carry);
    lemma_flag_set_other(f1, NEGATIVE_MASK, OVERFLOW_MASK, negative);
    lemma_flag_set_other(flags, ZERO_RESULT_MASK, OVERFLOW_MASK, zero);
}

/// Register and flag effects of comparing the accumulator.
pub open spec fn s_cmp(cpu: Mos6507, operand: u8) -> Mos6507 {
    Mos6507 { flags: s_compare_flags(cpu.flags, cpu.a, operand), ..cpu }
}

/// Register and flag effects of comparing the X index register.
pub open spec fn s_cpx(cpu: Mos6507, operand: u8) -> Mos6507 {
    Mos6507 { flags: s_compare_flags(cpu.flags, cpu.x, operand), ..cpu }
}

/// Register and flag effects of comparing the Y index register.
pub open spec fn s_cpy(cpu: Mos6507, operand: u8) -> Mos6507 {
    Mos6507 { flags: s_compare_flags(cpu.flags, cpu.y, operand), ..cpu }
}

/// Register and flag effects of clearing one flag.
pub open spec fn s_clear(cpu: Mos6507, mask: u8) -> Mos6507 {
    Mos6507 { flags: set_mask(cpu.flags, mask, false), ..cpu }
}

/// The byte one greater, with unsigned wraparound at 255.
pub open spec fn inc_byte(value: u8) -> u8 {
    ((value + 1) % 256) as u8
}

/// The byte one less, with unsigned wraparound at 0.
pub open spec fn dec_byte(value: u8) -> u8 {
    ((value + 255) % 256) as u8
}

/// `flags` after the zero-then-negative update of the increment and
/// decrement operations.
pub open spec fn set_zn(flags: u8, result: u8) -> u8 {
    set_mask(set_mask(flags, ZERO_RESULT_MASK, result == 0), NEGATIVE_MASK, is_negative(result))
}

/// Register and flag effects of incrementing X.
pub open spec fn s_inx(cpu: Mos6507) -> Mos6507 {
    let result = inc_byte(cpu.x);
    Mos6507 { x: result, flags: set_zn(cpu.flags, result), ..cpu }
}

/// Register and flag effects of decrementing X.
pub open spec fn s_dex(cpu: Mos6507) -> Mos6507 {
    let result = dec_byte(cpu.x);
    Mos6507 { x: result, flags: set_zn(cpu.flags, result), ..cpu }
}

/// Register and flag effects of incrementing Y.
pub open spec fn s_iny(cpu: Mos6507) -> Mos6507 {
    let result = inc_byte(cpu.y);
    Mos6507 { y: result, flags: set_zn(cpu.flags, result), ..cpu }
}

/// Register and flag effects of decrementing Y.
pub open spec fn s_dey(cpu: Mos6507) -> Mos6507 {
    let result = dec_byte(cpu.y);
    Mos6507 { y: result, flags: set_zn(cpu.flags, result), ..cpu }
}

/// The displacement byte read as a signed 8-bit value.
pub open spec fn sign_extend(displacement: u8) -> int {
    if displacement < 0x80 {
        displacement as int
    } else {
        displacement - 256
    }
}

/// Where a taken branch lands: the program counter plus the signed
/// displacement, wrapping at both ends of the 16-bit address space.
pub open spec fn branch_target(pc: u16, displacement: u8) -> u16 {
    ((pc + sign_extend(displacement)) % 0x10000) as u16
}

/// Register effects of a conditional branch: the program counter
/// moves to the branch target exactly when the selected flag equals
/// the predicate; no flag changes.
pub open spec fn s_branch_on(cpu: Mos6507, displacement: u8, predicate: bool, mask: u8) -> Mos6507 {
    if flag_of(cpu.flags, mask) == predicate {
        Mos6507 { pc: branch_target(cpu.pc, displacement), ..cpu }
    } else {
        cpu
    }
}

/// The flag condition under which each branch operation is taken.
/// Non-branch operations never are.
pub open spec fn branch_taken(op: Op, flags: u8) -> bool {
    match op {
        Op::Bcc => !flag_of(flags, CARRY_MASK),
        Op::Bcs => flag_of(flags, CARRY_MASK),
        Op::Beq => flag_of(flags, ZERO_RESULT_MASK),
        Op::Bne => !flag_of(flags, ZERO_RESULT_MASK),
        Op::Bmi => flag_of(flags, NEGATIVE_MASK),
        Op::Bpl => !flag_of(flags, NEGATIVE_MASK),
        Op::Bvc => !flag_of(flags, OVERFLOW_MASK),
        Op::Bvs => flag_of(flags, OVERFLOW_MASK),
        _ => false,
    }
}

/// The operation of an instruction, as recorded in the opcode table.
/// `Invalid` marks the opcodes absent from the supported set; their
/// invalidity is reported when execution is attempted, not at decode.
#[derive(Clone, Copy, Debug, PartialEq, Eq)]
pub enum Op {
    Adc,
    And,
    Asl,
    Bcc,
    Bcs,
    Beq,
    Bit,
    Bmi,
    Bne,
    Bpl,
    Bvc,
    Bvs,
    Clc,
    Cld,
    Cli,
    Clv,
    Cmp,
    Cpx,
    Cpy,
    Dex,
    Dey,
    Inx,
    Iny,
    Invalid,
}

/// One record of the opcode table: what the instruction does and how
/// its operand bytes are to be read.
#[derive(Clone, Copy, Debug, PartialEq, Eq)]
pub struct Instruction {
    pub op: Op,
    pub mode: AddressMode,
}

/// The operation half of the opcode table, as a total function over
/// all 256 byte values.
pub open spec fn spec_op_of(opcode: u8) -> Op {
    match opcode {
        0x69 | 0x65 | 0x75 | 0x6D | 0x7D | 0x79 | 0x61 | 0x71 => Op::Adc,
        0x29 | 0x25 | 0x35 | 0x2D | 0x3D | 0x39 | 0x21 | 0x31 => Op::And,
        0x0A | 0x06 | 0x16 | 0x0E | 0x1E => Op::Asl,
        0x90 => Op::Bcc,
        0xB0 => Op::Bcs,
        0xF0 => Op::Beq,
        0xD0 => Op::Bne,
        0x30 => Op::Bmi,
        0x10 => Op::Bpl,
        0x50 => Op::Bvc,
        0x70 => Op::Bvs,
        0x24 | 0x2C => Op::Bit,
        0x18 => Op::Clc,
        0xD8 => Op::Cld,
        0x58 => Op::Cli,
        0xB8 => Op::Clv,
        0xC9 | 0xC5 | 0xD5 | 0xCD | 0xDD | 0xD9 | 0xC1 | 0xD1 => Op::Cmp,
        0xE0 | 0xE4 | 0xEC => Op::Cpx,
        0xC0 | 0xC4 | 0xCC => Op::Cpy,
        0xCA => Op::Dex,
        0x88 => Op::Dey,
        0xE8 => Op::Inx,
        0xC8 => Op::Iny,
        _ => Op::Invalid,
    }
}

/// The addressing-mode half of the opcode table.
pub open spec fn spec_mode_of(opcode: u8) -> AddressMode {
    match opcode {
        0x69 | 0x29 | 0xC9 | 0xE0 | 0xC0 => AddressMode::Immediate,
        0x65 | 0x25 | 0x06 | 0x24 | 0xC5 | 0xE4 | 0xC4 => AddressMode::ZeroPage,
        0x75 | 0x35 | 0x16 | 0xD5 => AddressMode::ZeroPageX,
        0x6D | 0x2D | 0x0E | 0x2C | 0xCD | 0xEC | 0xCC => AddressMode::Absolute,
        0x7D | 0x3D | 0x1E | 0xDD => AddressMode::AbsoluteX,
        0x79 | 0x39 | 0xD9 => AddressMode::AbsoluteY,
        0x61 | 0x21 | 0xC1 => AddressMode::IndirectX,
        0x71 | 0x31 | 0xD1 => AddressMode::IndirectY,
        0x0A => AddressMode::Accumulator,
        0x90 | 0xB0 | 0xF0 | 0xD0 | 0x30 | 0x10 | 0x50 | 0x70 => AddressMode::Relative,
        _ => AddressMode::Implied,
    }
}

/// Total instruction length in bytes, opcode included, as a function
/// of the addressing mode alone.
pub open spec fn spec_instr_len(mode: AddressMode) -> u16 {
    match mode {
        AddressMode::Absolute | AddressMode::AbsoluteX | AddressMode::AbsoluteY => 3,
        AddressMode::Accumulator | AddressMode::Implied => 1,
        _ => 2,
    }
}

/// Map an opcode byte to its table record.  Total over all 256 byte
/// values; unsupported opcodes yield the `Invalid` operation.
pub fn decode(opcode: u8) -> (instruction: Instruction)
    ensures
        instruction.op == spec_op_of(opcode),
        instruction.mode == spec_mode_of(opcode),
{
    let op = match opcode {
        0x69 | 0x65 | 0x75 | 0x6D | 0x7D | 0x79 | 0x61 | 0x71 => Op::Adc,
        0x29 | 0x25 | 0x35 | 0x2D | 0x3D | 0x39 | 0x21 | 0x31 => Op::And,
        0x0A | 0x06 | 0x16 | 0x0E | 0x1E => Op::Asl,
        0x90 => Op::Bcc,
        0xB0 => Op::Bcs,
        0xF0 => Op::Beq,
        0xD0 => Op::Bne,
        0x30 => Op::Bmi,
        0x10 => Op::Bpl,
        0x50 => Op::Bvc,
        0x70 => Op::Bvs,
        0x24 | 0x2C => Op::Bit,
        0x18 => Op::Clc,
        0xD8 => Op::Cld,
        0x58 => Op::Cli,
        0xB8 => Op::Clv,
        0xC9 | 0xC5 | 0xD5 | 0xCD | 0xDD | 0xD9 | 0xC1 | 0xD1 => Op::Cmp,
        0xE0 | 0xE4 | 0xEC => Op::Cpx,
        0xC0 | 0xC4 | 0xCC => Op::Cpy,
        0xCA => Op::Dex,
        0x88 => Op::Dey,
        0xE8 => Op::Inx,
        0xC8 => Op::Iny,
        _ => Op::Invalid,
    };
    Instruction { op, mode: address_mode_of(opcode) }
}

/// Addressing-mode lookup shared by `decode` and `get_address_mode`.
fn address_mode_of(opcode: u8) -> (mode: AddressMode)
    ensures
        mode == spec_mode_of(opcode),
{
    match opcode {
        0x69 | 0x29 | 0xC9 | 0xE0 | 0xC0 => AddressMode::Immediate,
        0x65 | 0x25 | 0x06 | 0x24 | 0xC5 | 0xE4 | 0xC4 => AddressMode::ZeroPage,
        0x75 | 0x35 | 0x16 | 0xD5 => AddressMode::ZeroPageX,
        0x6D | 0x2D | 0x0E | 0x2C | 0xCD | 0xEC | 0xCC => AddressMode::Absolute,
        0x7D | 0x3D | 0x1E | 0xDD => AddressMode::AbsoluteX,
        0x79 | 0x39 | 0xD9 => AddressMode::AbsoluteY,
        0x61 | 0x21 | 0xC1 => AddressMode::IndirectX,
        0x71 | 0x31 | 0xD1 => AddressMode::IndirectY,
        0x0A => AddressMode::Accumulator,
        0x90 | 0xB0 | 0xF0 | 0xD0 | 0x30 | 0x10 | 0x50 | 0x70 => AddressMode::Relative,
        _ => AddressMode::Implied,
    }
}

/// A resolved operand: what the addressing mode designates once its
/// bytes have been fetched from the instruction stream.
#[derive(Clone, Copy, Debug, PartialEq, Eq)]
pub enum Operand {
    /// No operand bytes (implied operations).
    Implied,
    /// The operand is the accumulator itself.
    Accumulator,
    /// An immediate value from the instruction stream.
    Value(u8),
    /// The effective address of a memory operand.
    Address(u16),
    /// A branch displacement, applied by the branch operation itself.
    Displacement(u8),
}

/// What address resolution yields for one addressing mode: the
/// operand (or effective address) and the instruction's total byte
/// count, or the bus fault raised while fetching.
pub open spec fn s_resolve(cpu: Mos6507, mode: AddressMode, b: BusView) -> Result<
    (Operand, u16),
    BusFault,
> {
    match mode {
        AddressMode::Immediate => match spec_read(b, wrap_inc(cpu.pc)) {
            Ok(v) => Ok((Operand::Value(v), 2)),
            Err(f) => Err(f),
        },
        AddressMode::ZeroPage => match spec_read(b, wrap_inc(cpu.pc)) {
            Ok(v) => Ok((Operand::Address(v as u16), 2)),
            Err(f) => Err(f),
        },
        AddressMode::ZeroPageX => match spec_read(b, wrap_inc(cpu.pc)) {
            Ok(v) => Ok((Operand::Address((((v + cpu.x) % 256) as u16)), 2)),
            Err(f) => Err(f),
        },
        AddressMode::Absolute => match spec_read_word(b, wrap_inc(cpu.pc)) {
            Ok(w) => Ok((Operand::Address(w), 3)),
            Err(f) => Err(f),
        },
        AddressMode::AbsoluteX => match spec_read_word(b, wrap_inc(cpu.pc)) {
            Ok(w) => Ok((Operand::Address(wrap_add16(w, cpu.x as u16)), 3)),
            Err(f) => Err(f),
        },
        AddressMode::AbsoluteY => match spec_read_word(b, wrap_inc(cpu.pc)) {
            Ok(w) => Ok((Operand::Address(wrap_add16(w, cpu.y as u16)), 3)),
            Err(f) => Err(f),
        },
        AddressMode::IndirectX => match spec_read(b, wrap_inc(cpu.pc)) {
            Ok(v) => match spec_read_word(b, (((v + cpu.x) % 256) as u16)) {
                Ok(w) => Ok((Operand::Address(w), 2)),
                Err(f) => Err(f),
            },
            Err(f) => Err(f),
        },
        AddressMode::IndirectY => match spec_read(b, wrap_inc(cpu.pc)) {
            Ok(v) => match spec_read_word(b, v as u16) {
                Ok(w) => Ok((Operand::Address(wrap_add16(w, cpu.y as u16)), 2)),
                Err(f) => Err(f),
            },
            Err(f) => Err(f),
        },
        AddressMode::Relative => match spec_read(b, wrap_inc(cpu.pc)) {
            Ok(v) => Ok((Operand::Displacement(v), 2)),
            Err(f) => Err(f),
        },
        AddressMode::Accumulator => Ok((Operand::Accumulator, 1)),
        AddressMode::Implied => Ok((Operand::Implied, 1)),
    }
}

/// The byte value an operand stands for.  Operands without a value of
/// their own read as the accumulator, the displacement byte, or zero;
/// the opcode table never pairs those with a value-consuming
/// operation.
pub open spec fn s_load(cpu: Mos6507, operand: Operand, b: BusView) -> Result<u8, BusFault> {
    match operand {
        Operand::Value(v) => Ok(v),
        Operand::Address(addr) => spec_read(b, addr),
        Operand::Accumulator => Ok(cpu.a),
        Operand::Displacement(d) => Ok(d),
        Operand::Implied => Ok(0u8),
    }
}

/// Why one instruction could not be executed.  Both kinds are fatal
/// for the execution loop and are surfaced to the caller; neither is
/// ever silently skipped.
#[derive(Clone, Copy, Debug, PartialEq, Eq)]
pub enum CpuError {
    /// The byte at the program counter decodes to no supported
    /// instruction.
    InvalidOpcode(u8),
    /// The bus refused a read or write of this instruction.
    Fault(BusFault),
}

/// Effects of one decoded, resolved operation: the register file and
/// bus afterwards, or the fault that stopped it (leaving both
/// untouched).  `next_pc` is the address of the following
/// instruction; branches take their displacement relative to it.
#[verifier::opaque]
pub open spec fn spec_execute(
    cpu: Mos6507,
    b: BusView,
    op: Op,
    mode: AddressMode,
    operand: Operand,
    next_pc: u16,
) -> (Mos6507, BusView, Result<(), CpuError>) {
    match op {
        Op::Adc => match s_load(cpu, operand, b) {
            Err(f) => (cpu, b, Err(CpuError::Fault(f))),
            Ok(v) => (Mos6507 { pc: next_pc, ..s_adc(cpu, v) }, b, Ok(())),
        },
        Op::And => match s_load(cpu, operand, b) {
            Err(f) => (cpu, b, Err(CpuError::Fault(f))),
            Ok(v) => (Mos6507 { pc: next_pc, ..s_and(cpu, v) }, b, Ok(())),
        },
        Op::Bit => match s_load(cpu, operand, b) {
            Err(f) => (cpu, b, Err(CpuError::Fault(f))),
            Ok(v) => (Mos6507 { pc: next_pc, ..s_bit(cpu, v) }, b, Ok(())),
        },
        Op::Cmp => match s_load(cpu, operand, b) {
            Err(f) => (cpu, b, Err(CpuError::Fault(f))),
            Ok(v) => (Mos6507 { pc: next_pc, ..s_cmp(cpu, v) }, b, Ok(())),
        },
        Op::Cpx => match s_load(cpu, operand, b) {
            Err(f) => (cpu, b, Err(CpuError::Fault(f))),
            Ok(v) => (Mos6507 { pc: next_pc, ..s_cpx(cpu, v) }, b, Ok(())),
        },
        Op::Cpy => match s_load(cpu, operand, b) {
            Err(f) => (cpu, b, Err(CpuError::Fault(f))),
            Ok(v) => (Mos6507 { pc: next_pc, ..s_cpy(cpu, v) }, b, Ok(())),
        },
        Op::Asl => match operand {
            Operand::Address(addr) => match spec_read(b, addr) {
                Err(f) => (cpu, b, Err(CpuError::Fault(f))),
                Ok(v) => match crate::bus::spec_write(b, addr, shl_byte(v)) {
                    Err(f) => (cpu, b, Err(CpuError::Fault(f))),
                    Ok(b2) => (
                        Mos6507 { pc: next_pc, ..s_asl(cpu, v, mode is Accumulator) },
                        b2,
                        Ok(()),
                    ),
                },
            },
            _ => match s_load(cpu, operand, b) {
                Err(f) => (cpu, b, Err(CpuError::Fault(f))),
                Ok(v) => (
                    Mos6507 { pc: next_pc, ..s_asl(cpu, v, mode is Accumulator) },
                    b,
                    Ok(()),
                ),
            },
        },
        Op::Bcc => match s_load(cpu, operand, b) {
            Err(f) => (cpu, b, Err(CpuError::Fault(f))),
            Ok(d) => (
                s_branch_on(Mos6507 { pc: next_pc, ..cpu }, d, false, CARRY_MASK),
                b,
                Ok(()),
            ),
        },
        Op::Bcs => match s_load(cpu, operand, b) {
            Err(f) => (cpu, b, Err(CpuError::Fault(f))),
            Ok(d) => (
                s_branch_on(Mos6507 { pc: next_pc, ..cpu }, d, true, CARRY_MASK),
                b,
                Ok(()),
            ),
        },
        Op::Beq => match s_load(cpu, operand, b) {
            Err(f) => (cpu, b, Err(CpuError::Fault(f))),
            Ok(d) => (
                s_branch_on(Mos6507 { pc: next_pc, ..cpu }, d, true, ZERO_RESULT_MASK),
                b,
                Ok(()),
            ),
        },
        Op::Bne => match s_load(cpu, operand, b) {
            Err(f) => (cpu, b, Err(CpuError::Fault(f))),
            Ok(d) => (
                s_branch_on(Mos6507 { pc: next_pc, ..cpu }, d, false, ZERO_RESULT_MASK),
                b,
                Ok(()),
            ),
        },
        Op::Bmi => match s_load(cpu, operand, b) {
            Err(f) => (cpu, b, Err(CpuError::Fault(f))),
            Ok(d) => (
                s_branch_on(Mos6507 { pc: next_pc, ..cpu }, d, true, NEGATIVE_MASK),
                b,
                Ok(()),
            ),
        },
        Op::Bpl => match s_load(cpu, operand, b) {
            Err(f) => (cpu, b, Err(CpuError::Fault(f))),
            Ok(d) => (
                s_branch_on(Mos6507 { pc: next_pc, ..cpu }, d, false, NEGATIVE_MASK),
                b,
                Ok(()),
            ),
        },
        Op::Bvc => match s_load(cpu, operand, b) {
            Err(f) => (cpu, b, Err(CpuError::Fault(f))),
            Ok(d) => (
                s_branch_on(Mos6507 { pc: next_pc, ..cpu }, d, false, OVERFLOW_MASK),
                b,
                Ok(()),
            ),
        },
        Op::Bvs => match s_load(cpu, operand, b) {
            Err(f) => (cpu, b, Err(CpuError::Fault(f))),
            Ok(d) => (
                s_branch_on(Mos6507 { pc: next_pc, ..cpu }, d, true, OVERFLOW_MASK),
                b,
                Ok(()),
            ),
        },
        Op::Clc => (Mos6507 { pc: next_pc, ..s_clear(cpu, CARRY_MASK) }, b, Ok(())),
        Op::Cld => (Mos6507 { pc: next_pc, ..s_clear(cpu, DECIMAL_MASK) }, b, Ok(())),
        Op::Cli => (Mos6507 { pc: next_pc, ..s_clear(cpu, INTERRUPT_DISABLE_MASK) }, b, Ok(())),
        Op::Clv => (Mos6507 { pc: next_pc, ..s_clear(cpu, OVERFLOW_MASK) }, b, Ok(())),
        Op::Inx => (Mos6507 { pc: next_pc, ..s_inx(cpu) }, b, Ok(())),
        Op::Iny => (Mos6507 { pc: next_pc, ..s_iny(cpu) }, b, Ok(())),
        Op::Dex => (Mos6507 { pc: next_pc, ..s_dex(cpu) }, b, Ok(())),
        Op::Dey => (Mos6507 { pc: next_pc, ..s_dey(cpu) }, b, Ok(())),
        // Not reached: the execution loop reports invalid opcodes
        // before resolution and never executes them.
        Op::Invalid => (cpu, b, Err(CpuError::InvalidOpcode(0u8))),
    }
}

/// One whole fetch-decode-resolve-execute-advance cycle as a function
/// of the register file and the bus.  A fault anywhere leaves both
/// exactly as they were.
#[verifier::opaque]
pub open spec fn spec_step(cpu: Mos6507, b: BusView) -> (Mos6507, BusView, Result<(), CpuError>) {
    match spec_read(b, cpu.pc) {
        Err(f) => (cpu, b, Err(CpuError::Fault(f))),
        Ok(opcode) => {
            if spec_op_of(opcode) is Invalid {
                (cpu, b, Err(CpuError::InvalidOpcode(opcode)))
            } else {
                match s_resolve(cpu, spec_mode_of(opcode), b) {
                    Err(f) => (cpu, b, Err(CpuError::Fault(f))),
                    Ok((operand, len)) => spec_execute(
                        cpu,
                        b,
                        spec_op_of(opcode),
                        spec_mode_of(opcode),
                        operand,
                        wrap_add16(cpu.pc, len),
                    ),
                }
            }
        },
    }
}

/// Up to `fuel` consecutive instruction cycles from the given state.
/// Execution stops early at the first fault, which leaves the
/// machine unchanged from the state that raised it.
pub open spec fn spec_steps(cpu: Mos6507, b: BusView, fuel: nat) -> (
    Mos6507,
    BusView,
    Result<(), CpuError>,
)
    decreases fuel,
{
    if fuel == 0 {
        (cpu, b, Ok(()))
    } else {
        let (c2, b2, res) = spec_step(cpu, b);
        if res is Err {
            (c2, b2, res)
        } else {
            spec_steps(c2, b2, (fuel - 1) as nat)
        }
    }
}

/// Running no cycles at all leaves the machine untouched.
pub proof fn lemma_spec_steps_zero(cpu: Mos6507, b: BusView)
    ensures
        spec_steps(cpu, b, 0) == (cpu, b, Ok::<(), CpuError>(())),
{
    assert(spec_steps(cpu, b, 0) =~= (cpu, b, Ok::<(), CpuError>(())));
}

/// One unfolding of `spec_steps`: with fuel to spare, the machine
/// performs one cycle and, unless it faulted, goes on from there.
pub proof fn lemma_spec_steps_unfold(cpu: Mos6507, b: BusView, fuel: nat)
    requires
        fuel > 0,
    ensures
        spec_steps(cpu, b, fuel) == ({
            let (c2, b2, res) = spec_step(cpu, b);
            if res is Err {
                spec_step(cpu, b)
            } else {
                spec_steps(c2, b2, (fuel - 1) as nat)
            }
        }),
{
    let (c2, b2, res) = spec_step(cpu, b);
    assert(spec_step(cpu, b) =~= (c2, b2, res));
}

/// A successful step result carries no payload: it can only be the
/// one `Ok` value.
proof fn lemma_ok_unit(res: Result<(), CpuError>)
    requires
        res is Ok,
    ensures
        res == Ok::<(), CpuError>(()),
{
    match res {
        Ok(u) => {
            assert(res == Ok::<(), CpuError>(u));
            assert(u == ());
        },
        Err(_) => {},
    }
}

/// Running one cycle after `k` successful cycles is the same as
/// running `k + 1` cycles.
#[verifier::spinoff_prover]
pub proof fn lemma_spec_steps_extend(cpu: Mos6507, b: BusView, k: nat)
    requires
        spec_steps(cpu, b, k).2 == Ok::<(), CpuError>(()),
    ensures
        spec_steps(cpu, b, k + 1) == ({
            let (c2, b2, _) = spec_steps(cpu, b, k);
            spec_step(c2, b2)
        }),
    decreases k,
{
    lemma_spec_steps_unfold(cpu, b, k + 1);
    let (c2, b2, res) = spec_step(cpu, b);
    if k == 0 {
        lemma_spec_steps_zero(cpu, b);
        if res is Ok {
            lemma_spec_steps_zero(c2, b2);
            lemma_ok_unit(res);
            assert(spec_step(cpu, b) =~= (c2, b2, res));
            assert(spec_steps(cpu, b, k + 1) == spec_steps(c2, b2, 0nat));
        } else {
            assert(spec_steps(cpu, b, k + 1) == spec_step(cpu, b));
        }
        assert(spec_steps(cpu, b, k).0 == cpu && spec_steps(cpu, b, k).1 == b);
    } else {
        lemma_spec_steps_unfold(cpu, b, k);
        assert(res is Ok);
        lemma_spec_steps_extend(c2, b2, (k - 1) as nat);
        assert(spec_steps(cpu, b, k + 1) == spec_steps(c2, b2, k));
        assert(spec_steps(cpu, b, k) == spec_steps(c2, b2, (k - 1) as nat));
    }
}

/// Once a cycle faults, granting more fuel changes nothing.
pub proof fn lemma_spec_steps_absorb(cpu: Mos6507, b: BusView, k: nat, m: nat)
    requires
        spec_steps(cpu, b, k).2 is Err,
        k <= m,
    ensures
        spec_steps(cpu, b, m) == spec_steps(cpu, b, k),
    decreases k,
{
    if k == 0 {
        lemma_spec_steps_zero(cpu, b);
    } else {
        lemma_spec_steps_unfold(cpu, b, k);
        lemma_spec_steps_unfold(cpu, b, m);
        let (c2, b2, res) = spec_step(cpu, b);
        if res is Ok {
            lemma_spec_steps_absorb(c2, b2, (k - 1) as nat, (m - 1) as nat);
        }
    }
}

impl Mos6507 {
    /// A powered-up processor: all registers and flags zero; `reset`
    /// loads the real starting program counter.
    pub fn new() -> (cpu: Mos6507)
        ensures
            cpu == (Mos6507 { a: 0u8, x: 0u8, y: 0u8, sp: 0u8, pc: 0u16, flags: 0u8 }),
    {
        Mos6507 { a: 0u8, x: 0u8, y: 0u8, sp: 0u8, pc: 0u16, flags: 0u8 }
    }

    /// Read one flag.
    pub fn flag_set(&self, mask: u8) -> (value: bool)
        requires
            is_flag_mask(mask),
        ensures
            value == flag_of(self.flags, mask),
    {
        self.flags & mask > 0
    }

    /// Write one flag, disturbing no other bit.  Only the seven
    /// architectural flags are addressable; the unused bit is not.
    pub fn set_flag(&mut self, value: bool, mask: u8)
        requires
            is_flag_mask(mask),
        ensures
            *final(self) == (Mos6507 { flags: set_mask(old(self).flags, mask, value), ..*old(self) }),
    {
        if value {
            self.flags = self.flags | mask;
        } else {
            self.flags = self.flags & !mask;
        }
    }

    /// Add the operand and the carry flag into the accumulator, in
    /// binary or packed-decimal mode as the decimal flag selects.
    pub fn adc(&mut self, operand: u8)
        ensures
            *final(self) == s_adc(*old(self), operand),
            !flag_of(old(self).flags, DECIMAL_MASK) ==> {
                let sum = old(self).a + operand + carry_in(old(self).flags);
                &&& final(self).a == sum % 256
                &&& flag_of(final(self).flags, CARRY_MASK) == (sum > 255)
                &&& flag_of(final(self).flags, OVERFLOW_MASK) == signed_overflow(
                    old(self).a,
                    operand,
                    final(self).a,
                )
                &&& flag_of(final(self).flags, ZERO_RESULT_MASK) == (final(self).a == 0)
                &&& flag_of(final(self).flags, NEGATIVE_MASK) == is_negative(final(self).a)
            },
    {
        let carry: u8 = if self.flag_set(CARRY_MASK) {
            1
        } else {
            0
        };
        if self.flag_set(DECIMAL_MASK) {
            let low: u8 = (self.a % 16) + (operand % 16) + carry;
            let low_nibble: u8 = if low <= 9 {
                low
            } else {
                (low + 6) % 16
            };
            let low_carry: u8 = if low <= 9 {
                0
            } else {
                1
            };
            let high: u8 = (self.a / 16) + (operand / 16) + low_carry;
            let high_nibble: u8 = if high <= 9 {
                high
            } else {
                (high + 6) % 16
            };
            self.set_flag(high > 9, CARRY_MASK);
            self.a = high_nibble * 16 + low_nibble;
            let result = self.a;
            self.set_flag(result >= 0x80, NEGATIVE_MASK);
            self.set_flag(result == 0, ZERO_RESULT_MASK);
        } else {
            let wide: u16 = (self.a as u16) + (operand as u16) + (carry as u16);
            let result: u8 = (wide % 256) as u8;
            self.set_flag(wide > 255, CARRY_MASK);
            self.set_flag(
                (self.a >= 0x80) == (operand >= 0x80) && ((result >= 0x80) != (self.a >= 0x80)),
                OVERFLOW_MASK,
            );
            self.a = result;
            self.set_flag(result >= 0x80, NEGATIVE_MASK);
            self.set_flag(result == 0, ZERO_RESULT_MASK);
            proof {
                let f0 = old(self).flags;
                let c = wide > 255;
                let o = signed_overflow(old(self).a, operand, result);
                let n = is_negative(result);
                let z = result == 0;
                let f1 = set_mask(f0, CARRY_MASK, c);
                let f2 = set_mask(f1, OVERFLOW_MASK, o);
                let f3 = set_mask(f2, NEGATIVE_MASK, n);
                lemma_flag_set_get(f3, ZERO_RESULT_MASK, z);
                lemma_flag_set_other(f3, ZERO_RESULT_MASK, NEGATIVE_MASK, z);
                lemma_flag_set_get(f2, NEGATIVE_MASK, n);
                lemma_flag_set_other(f3, ZERO_RESULT_MASK, OVERFLOW_MASK, z);
                lemma_flag_set_other(f2, NEGATIVE_MASK, OVERFLOW_MASK, n);
                lemma_flag_set_get(f1, OVERFLOW_MASK, o);
                lemma_flag_set_other(f3, ZERO_RESULT_MASK, CARRY_MASK, z);
                lemma_flag_set_other(f2, NEGATIVE_MASK, CARRY_MASK, n);
                lemma_flag_set_other(f1, OVERFLOW_MASK, CARRY_MASK, o);
                lemma_flag_set_get(f0, CARRY_MASK, c);
            }
        }
    }

    /// AND the operand into the accumulator.
    pub fn and(&mut self, operand: u8)
        ensures
            *final(self) == s_and(*old(self), operand),
    {
        self.a = self.a & operand;
        let result = self.a;
        self.set_flag(result >= 0x80, NEGATIVE_MASK);
        self.set_flag(result == 0, ZERO_RESULT_MASK);
    }

    /// Shift the operand left by one and derive carry, negative and
    /// zero from it; the result lands in the accumulator only for the
    /// Accumulator addressing mode (the execution loop stores memory
    /// results back over the bus).
    pub fn asl(&mut self, operand: u8, address_mode: &AddressMode)
        ensures
            *final(self) == s_asl(*old(self), operand, *address_mode is Accumulator),
    {
        self.set_flag(operand >= 0x80, CARRY_MASK);
        let shifted: u8 = (((operand as u16) * 2) % 256) as u8;
        self.set_flag(shifted >= 0x80, NEGATIVE_MASK);
        self.set_flag(shifted == 0, ZERO_RESULT_MASK);
        if let AddressMode::Accumulator = address_mode {
            self.a = shifted;
        }
    }

    /// Test the accumulator against the operand without storing.
    pub fn bit(&mut self, operand: u8)
        ensures
            *final(self) == s_bit(*old(self), operand),
    {
        let result = self.a & operand;
        self.set_flag(result == 0, ZERO_RESULT_MASK);
        self.set_flag(operand & OVERFLOW_MASK > 0, OVERFLOW_MASK);
        self.set_flag(operand >= 0x80, NEGATIVE_MASK);
    }

    /// Compare a register against the operand, updating only flags.
    fn compare_register(&mut self, register: u8, operand: u8)
        ensures
            *final(self) == (Mos6507 {
                flags: s_compare_flags(old(self).flags, register, operand),
                ..*old(self)
            }),
    {
        let diff: u8 = ((((register as u16) + 256) - (operand as u16)) % 256) as u8;
        proof {
            vstd::arithmetic::div_mod::lemma_mod_multiples_vanish(
                1,
                register - operand,
                256,
            );
        }
        self.set_flag(register == operand, ZERO_RESULT_MASK);
        self.set_flag(diff >= 0x80, NEGATIVE_MASK);
        self.set_flag(register >= operand, CARRY_MASK);
    }

    /// Compare the accumulator against the operand.
    pub fn cmp(&mut self, operand: u8)
        ensures
            *final(self) == s_cmp(*old(self), operand),
    {
        let register = self.a;
        self.compare_register(register, operand);
    }

    /// Compare the X index register against the operand.
    pub fn cpx(&mut self, operand: u8)
        ensures
            *final(self) == s_cpx(*old(self), operand),
    {
        let register = self.x;
        self.compare_register(register, operand);
    }

    /// Compare the Y index register against the operand.
    pub fn cpy(&mut self, operand: u8)
        ensures
            *final(self) == s_cpy(*old(self), operand),
    {
        let register = self.y;
        self.compare_register(register, operand);
    }

    /// Clear the carry flag.
    pub fn clc(&mut self)
        ensures
            *final(self) == s_clear(*old(self), CARRY_MASK),
    {
        self.set_flag(false, CARRY_MASK);
    }

    /// Clear the decimal flag.
    pub fn cld(&mut self)
        ensures
            *final(self) == s_clear(*old(self), DECIMAL_MASK),
    {
        self.set_flag(false, DECIMAL_MASK);
    }

    /// Clear the interrupt-disable flag.
    pub fn cli(&mut self)
        ensures
            *final(self) == s_clear(*old(self), INTERRUPT_DISABLE_MASK),
    {
        self.set_flag(false, INTERRUPT_DISABLE_MASK);
    }

    /// Clear the overflow flag.
    pub fn clv(&mut self)
        ensures
            *final(self) == s_clear(*old(self), OVERFLOW_MASK),
    {
        self.set_flag(false, OVERFLOW_MASK);
    }

    /// Increment X with unsigned wraparound.
    pub fn inc(&mut self)
        ensures
            *final(self) == s_inx(*old(self)),
    {
        let result: u8 = if self.x == 255 {
            0
        } else {
            self.x + 1
        };
        self.set_flag(result == 0, ZERO_RESULT_MASK);
        self.set_flag(result >= 0x80, NEGATIVE_MASK);
        self.x = result;
    }

    /// Decrement X with unsigned wraparound.
    pub fn dex(&mut self)
        ensures
            *final(self) == s_dex(*old(self)),
    {
        let result: u8 = if self.x == 0 {
            255
        } else {
            self.x - 1
        };
        self.set_flag(result == 0, ZERO_RESULT_MASK);
        self.set_flag(result >= 0x80, NEGATIVE_MASK);
        self.x = result;
    }

    /// Increment Y with unsigned wraparound.
    pub fn iny(&mut self)
        ensures
            *final(self) == s_iny(*old(self)),
    {
        let result: u8 = if self.y == 255 {
            0
        } else {
            self.y + 1
        };
        self.set_flag(result == 0, ZERO_RESULT_MASK);
        self.set_flag(result >= 0x80, NEGATIVE_MASK);
        self.y = result;
    }

    /// Decrement Y with unsigned wraparound.
    pub fn dey(&mut self)
        ensures
            *final(self) == s_dey(*old(self)),
    {
        let result: u8 = if self.y == 0 {
            255
        } else {
            self.y - 1
        };
        self.set_flag(result == 0, ZERO_RESULT_MASK);
        self.set_flag(result >= 0x80, NEGATIVE_MASK);
        self.y = result;
    }

    /// Move the program counter by the signed displacement if the
    /// selected flag equals the predicate, wrapping at both ends of
    /// the address space.
    fn branch_on_flag(&mut self, operand: u8, predicate: bool, mask: u8)
        requires
            is_flag_mask(mask),
        ensures
            *final(self) == s_branch_on(*old(self), operand, predicate, mask),
    {
        if self.flag_set(mask) == predicate {
            let extended: u16 = if operand < 0x80 {
                operand as u16
            } else {
                0xFF00u16 + (operand as u16)
            };
            let target: u32 = (self.pc as u32) + (extended as u32);
            proof {
                if operand >= 0x80 {
                    vstd::arithmetic::div_mod::lemma_mod_multiples_vanish(
                        1,
                        self.pc + sign_extend(operand),
                        0x10000,
                    );
                }
            }
            self.pc = (target % 0x10000) as u16;
        }
    }

    /// Branch if the carry flag is clear.
    pub fn bcc(&mut self, operand: u8)
        ensures
            *final(self) == s_branch_on(*old(self), operand, false, CARRY_MASK),
    {
        self.branch_on_flag(operand, false, CARRY_MASK);
    }

    /// Branch if the carry flag is set.
    pub fn bcs(&mut self, operand: u8)
        ensures
            *final(self) == s_branch_on(*old(self), operand, true, CARRY_MASK),
    {
        self.branch_on_flag(operand, true, CARRY_MASK);
    }

    /// Branch if the zero flag is set.
    pub fn beq(&mut self, operand: u8)
        ensures
            *final(self) == s_branch_on(*old(self), operand, true, ZERO_RESULT_MASK),
    {
        self.branch_on_flag(operand, true, ZERO_RESULT_MASK);
    }

    /// Branch if the zero flag is clear.
    pub fn bne(&mut self, operand: u8)
        ensures
            *final(self) == s_branch_on(*old(self), operand, false, ZERO_RESULT_MASK),
    {
        self.branch_on_flag(operand, false, ZERO_RESULT_MASK);
    }

    /// Branch if the negative flag is set.
    pub fn bmi(&mut self, operand: u8)
        ensures
            *final(self) == s_branch_on(*old(self), operand, true, NEGATIVE_MASK),
    {
        self.branch_on_flag(operand, true, NEGATIVE_MASK);
    }

    /// Branch if the negative flag is clear.
    pub fn bpl(&mut self, operand: u8)
        ensures
            *final(self) == s_branch_on(*old(self), operand, false, NEGATIVE_MASK),
    {
        self.branch_on_flag(operand, false, NEGATIVE_MASK);
    }

    /// Branch if the overflow flag is clear.
    pub fn bvc(&mut self, operand: u8)
        ensures
            *final(self) == s_branch_on(*old(self), operand, false, OVERFLOW_MASK),
    {
        self.branch_on_flag(operand, false, OVERFLOW_MASK);
    }

    /// Branch if the overflow flag is set.
    pub fn bvs(&mut self, operand: u8)
        ensures
            *final(self) == s_branch_on(*old(self), operand, true, OVERFLOW_MASK),
    {
        self.branch_on_flag(operand, true, OVERFLOW_MASK);
    }

    /// Addressing-mode class of an opcode, straight from the table.
    pub fn get_address_mode(&self, opcode: u8) -> (mode: AddressMode)
        ensures
            mode == spec_mode_of(opcode),
    {
        address_mode_of(opcode)
    }

    /// Total byte count of an instruction with the given addressing
    /// mode; the program counter advances by exactly this much.
    pub fn get_pc_offset(&self, address_mode: AddressMode) -> (len: u16)
        ensures
            len == spec_instr_len(address_mode),
    {
        match address_mode {
            AddressMode::Absolute | AddressMode::AbsoluteX | AddressMode::AbsoluteY => 3,
            AddressMode::Accumulator | AddressMode::Implied => 1,
            _ => 2,
        }
    }

    /// Resolve one addressing mode: fetch its operand bytes from the
    /// instruction stream and compute the operand or effective
    /// address, together with the instruction's total byte count.
    pub fn resolve(&self, mode: &AddressMode, bus: &Bus) -> (r: Result<(Operand, u16), BusFault>)
        requires
            bus.wf(),
        ensures
            r == s_resolve(*self, *mode, bus@),
    {
        match mode {
            AddressMode::Immediate => {
                let v = match bus.read_byte(wrapping_inc(self.pc)) {
                    Ok(v) => v,
                    Err(f) => {
                        return Err(f);
                    },
                };
                Ok((Operand::Value(v), 2))
            },
            AddressMode::ZeroPage => {
                let v = match bus.read_byte(wrapping_inc(self.pc)) {
                    Ok(v) => v,
                    Err(f) => {
                        return Err(f);
                    },
                };
                Ok((Operand::Address(v as u16), 2))
            },
            AddressMode::ZeroPageX => {
                let v = match bus.read_byte(wrapping_inc(self.pc)) {
                    Ok(v) => v,
                    Err(f) => {
                        return Err(f);
                    },
                };
                Ok((Operand::Address(((v as u16) + (self.x as u16)) % 256), 2))
            },
            AddressMode::Absolute => {
                let w = match bus.read_word(wrapping_inc(self.pc)) {
                    Ok(w) => w,
                    Err(f) => {
                        return Err(f);
                    },
                };
                Ok((Operand::Address(w), 3))
            },
            AddressMode::AbsoluteX => {
                let w = match bus.read_word(wrapping_inc(self.pc)) {
                    Ok(w) => w,
                    Err(f) => {
                        return Err(f);
                    },
                };
                Ok((Operand::Address(wrapping_add16(w, self.x as u16)), 3))
            },
            AddressMode::AbsoluteY => {
                let w = match bus.read_word(wrapping_inc(self.pc)) {
                    Ok(w) => w,
                    Err(f) => {
                        return Err(f);
                    },
                };
                Ok((Operand::Address(wrapping_add16(w, self.y as u16)), 3))
            },
            AddressMode::IndirectX => {
                let v = match bus.read_byte(wrapping_inc(self.pc)) {
                    Ok(v) => v,
                    Err(f) => {
                        return Err(f);
                    },
                };
                let pointer: u16 = ((v as u16) + (self.x as u16)) % 256;
                let w = match bus.read_word(pointer) {
                    Ok(w) => w,
                    Err(f) => {
                        return Err(f);
                    },
                };
                Ok((Operand::Address(w), 2))
            },
            AddressMode::IndirectY => {
                let v = match bus.read_byte(wrapping_inc(self.pc)) {
                    Ok(v) => v,
                    Err(f) => {
                        return Err(f);
                    },
                };
                let w = match bus.read_word(v as u16) {
                    Ok(w) => w,
                    Err(f) => {
                        return Err(f);
                    },
                };
                Ok((Operand::Address(wrapping_add16(w, self.y as u16)), 2))
            },
            AddressMode::Relative => {
                let v = match bus.read_byte(wrapping_inc(self.pc)) {
                    Ok(v) => v,
                    Err(f) => {
                        return Err(f);
                    },
                };
                Ok((Operand::Displacement(v), 2))
            },
            AddressMode::Accumulator => Ok((Operand::Accumulator, 1)),
            AddressMode::Implied => Ok((Operand::Implied, 1)),
        }
    }

    /// The byte value a resolved operand stands for, reading memory
    /// operands over the bus.
    fn load_value(&self, operand: &Operand, bus: &Bus) -> (r: Result<u8, BusFault>)
        requires
            bus.wf(),
        ensures
            r == s_load(*self, *operand, bus@),
    {
        match operand {
            Operand::Value(v) => Ok(*v),
            Operand::Address(addr) => bus.read_byte(*addr),
            Operand::Accumulator => Ok(self.a),
            Operand::Displacement(d) => Ok(*d),
            Operand::Implied => Ok(0u8),
        }
    }

    /// Load the program counter from the little-endian word at the
    /// reset vector.  No other register changes; a bus fault there is
    /// surfaced and changes nothing.
    pub fn reset(&mut self, bus: &Bus) -> (r: Result<(), CpuError>)
        requires
            bus.wf(),
        ensures
            match spec_read_word(bus@, RESET_VECTOR) {
                Ok(w) => r is Ok && *final(self) == (Mos6507 { pc: w, ..*old(self) }),
                Err(f) => r == Err::<(), CpuError>(CpuError::Fault(f)) && *final(self) == *old(
                    self,
                ),
            },
    {
        match bus.read_word(RESET_VECTOR) {
            Ok(w) => {
                self.pc = w;
                Ok(())
            },
            Err(f) => Err(CpuError::Fault(f)),
        }
    }

    /// Execute exactly one instruction: fetch the opcode at the
    /// program counter, decode it, resolve its addressing mode,
    /// apply the operation and advance the program counter.  On any
    /// error the register file and the bus are left exactly as they
    /// were, with the program counter still addressing the failing
    /// opcode.
    pub fn step(&mut self, bus: &mut Bus) -> (r: Result<(), CpuError>)
        requires
            old(bus).wf(),
        ensures
            final(bus).wf(),
            ({
                let (cpu2, bus2, result) = spec_step(*old(self), old(bus)@);
                &&& *final(self) == cpu2
                &&& final(bus)@ == bus2
                &&& r == result
            }),
            r is Err ==> *final(self) == *old(self) && final(bus)@ == old(bus)@,
            spec_read(old(bus)@, old(self).pc) matches Ok(opcode) ==> (spec_op_of(opcode)
                is Invalid ==> r == Err::<(), CpuError>(CpuError::InvalidOpcode(opcode))),
    {
        proof {
            reveal(spec_step);
            reveal(spec_execute);
        }
        let opcode = match bus.read_byte(self.pc) {
            Ok(v) => v,
            Err(f) => {
                return Err(CpuError::Fault(f));
            },
        };
        let instruction = decode(opcode);
        if matches!(instruction.op, Op::Invalid) {
            return Err(CpuError::InvalidOpcode(opcode));
        }
        let (operand, len) = match self.resolve(&instruction.mode, bus) {
            Ok(p) => p,
            Err(f) => {
                return Err(CpuError::Fault(f));
            },
        };
        let next_pc = wrapping_add16(self.pc, len);
        match instruction.op {
            Op::Adc => {
                let v = match self.load_value(&operand, bus) {
                    Ok(v) => v,
                    Err(f) => {
                        return Err(CpuError::Fault(f));
                    },
                };
                self.adc(v);
                self.pc = next_pc;
            },
            Op::And => {
                let v = match self.load_value(&operand, bus) {
                    Ok(v) => v,
                    Err(f) => {
                        return Err(CpuError::Fault(f));
                    },
                };
                self.and(v);
                self.pc = next_pc;
            },
            Op::Bit => {
                let v = match self.load_value(&operand, bus) {
                    Ok(v) => v,
                    Err(f) => {
                        return Err(CpuError::Fault(f));
                    },
                };
                self.bit(v);
                self.pc = next_pc;
            },
            Op::Cmp => {
                let v = match self.load_value(&operand, bus) {
                    Ok(v) => v,
                    Err(f) => {
                        return Err(CpuError::Fault(f));
                    },
                };
                self.cmp(v);
                self.pc = next_pc;
            },
            Op::Cpx => {
                let v = match self.load_value(&operand, bus) {
                    Ok(v) => v,
                    Err(f) => {
                        return Err(CpuError::Fault(f));
                    },
                };
                self.cpx(v);
                self.pc = next_pc;
            },
            Op::Cpy => {
                let v = match self.load_value(&operand, bus) {
                    Ok(v) => v,
                    Err(f) => {
                        return Err(CpuError::Fault(f));
                    },
                };
                self.cpy(v);
                self.pc = next_pc;
            },
            Op::Asl => {
                match operand {
                    Operand::Address(addr) => {
                        let v = match bus.read_byte(addr) {
                            Ok(v) => v,
                            Err(f) => {
                                return Err(CpuError::Fault(f));
                            },
                        };
                        let shifted: u8 = (((v as u16) * 2) % 256) as u8;
                        match bus.write_byte(addr, shifted) {
                            Ok(_) => {},
                            Err(f) => {
                                return Err(CpuError::Fault(f));
                            },
                        }
                        self.asl(v, &instruction.mode);
                        self.pc = next_pc;
                    },
                    _ => {
                        let v = match self.load_value(&operand, bus) {
                            Ok(v) => v,
                            Err(f) => {
                                return Err(CpuError::Fault(f));
                            },
                        };
                        self.asl(v, &instruction.mode);
                        self.pc = next_pc;
                    },
                }
            },
            Op::Bcc => {
                let d = match self.load_value(&operand, bus) {
                    Ok(v) => v,
                    Err(f) => {
                        return Err(CpuError::Fault(f));
                    },
                };
                self.pc = next_pc;
                self.bcc(d);
            },
            Op::Bcs => {
                let d = match self.load_value(&operand, bus) {
                    Ok(v) => v,
                    Err(f) => {
                        return Err(CpuError::Fault(f));
                    },
                };
                self.pc = next_pc;
                self.bcs(d);
            },
            Op::Beq => {
                let d = match self.load_value(&operand, bus) {
                    Ok(v) => v,
                    Err(f) => {
                        return Err(CpuError::Fault(f));
                    },
                };
                self.pc = next_pc;
                self.beq(d);
            },
            Op::Bne => {
                let d = match self.load_value(&operand, bus) {
                    Ok(v) => v,
                    Err(f) => {
                        return Err(CpuError::Fault(f));
                    },
                };
                self.pc = next_pc;
                self.bne(d);
            },
            Op::Bmi => {
                let d = match self.load_value(&operand, bus) {
                    Ok(v) => v,
                    Err(f) => {
                        return Err(CpuError::Fault(f));
                    },
                };
                self.pc = next_pc;
                self.bmi(d);
            },
            Op::Bpl => {
                let d = match self.load_value(&operand, bus) {
                    Ok(v) => v,
                    Err(f) => {
                        return Err(CpuError::Fault(f));
                    },
                };
                self.pc = next_pc;
                self.bpl(d);
            },
            Op::Bvc => {
                let d = match self.load_value(&operand, bus) {
                    Ok(v) => v,
                    Err(f) => {
                        return Err(CpuError::Fault(f));
                    },
                };
                self.pc = next_pc;
                self.bvc(d);
            },
            Op::Bvs => {
                let d = match self.load_value(&operand, bus) {
                    Ok(v) => v,
                    Err(f) => {
                        return Err(CpuError::Fault(f));
                    },
                };
                self.pc = next_pc;
                self.bvs(d);
            },
            Op::Clc => {
                self.clc();
                self.pc = next_pc;
            },
            Op::Cld => {
                self.cld();
                self.pc = next_pc;
            },
            Op::Cli => {
                self.cli();
                self.pc = next_pc;
            },
            Op::Clv => {
                self.clv();
                self.pc = next_pc;
            },
            Op::Inx => {
                self.inc();
                self.pc = next_pc;
            },
            Op::Iny => {
                self.iny();
                self.pc = next_pc;
            },
            Op::Dex => {
                self.dex();
                self.pc = next_pc;
            },
            Op::Dey => {
                self.dey();
                self.pc = next_pc;
            },
            Op::Invalid => {
                proof {
                    assert(false);
                }
                return Err(CpuError::InvalidOpcode(opcode));
            },
        }
        Ok(())
    }

    /// Run from the reset vector, executing at most
    /// `max_instructions` instructions.  A fatal error is returned as
    /// soon as it occurs, with the machine left exactly in the state
    /// in which the failing step would fail again; `Ok` means the
    /// instruction budget ran out first.
    pub fn run(&mut self, bus: &mut Bus, max_instructions: u64) -> (r: Result<(), CpuError>)
        requires
            old(bus).wf(),
        ensures
            final(bus).wf(),
            match spec_read_word(old(bus)@, RESET_VECTOR) {
                Err(f) => r == Err::<(), CpuError>(CpuError::Fault(f)) && *final(self) == *old(
                    self,
                ) && final(bus)@ == old(bus)@,
                Ok(w) => ({
                    let (c2, b2, res) = spec_steps(
                        (Mos6507 { pc: w, ..*old(self) }),
                        old(bus)@,
                        max_instructions as nat,
                    );
                    &&& *final(self) == c2
                    &&& final(bus)@ == b2
                    &&& r == res
                }),
            },
    {
        match self.reset(bus) {
            Ok(_) => {},
            Err(err) => {
                return Err(err);
            },
        }
        let ghost start_cpu = *self;
        let ghost start_bus = bus@;
        proof {
            lemma_spec_steps_zero(start_cpu, start_bus);
        }
        let mut remaining = max_instructions;
        while remaining > 0
            invariant
                bus.wf(),
                remaining <= max_instructions,
                start_bus == old(bus)@,
                spec_read_word(old(bus)@, RESET_VECTOR) matches Ok(w) && start_cpu == (Mos6507 {
                    pc: w,
                    ..*old(self)
                }),
                spec_steps(start_cpu, start_bus, (max_instructions - remaining) as nat) == (
                    *self,
                    bus@,
                    Ok::<(), CpuError>(()),
                ),
            decreases remaining,
        {
            let ghost done = (max_instructions - remaining) as nat;
            match self.step(bus) {
                Ok(_) => {
                    proof {
                        lemma_spec_steps_extend(start_cpu, start_bus, done);
                        lemma_ok_unit(spec_steps(start_cpu, start_bus, done + 1).2);
                        assert(spec_steps(start_cpu, start_bus, done + 1) =~= (
                            *self,
                            bus@,
                            Ok::<(), CpuError>(()),
                        ));
                    }
                },
                Err(err) => {
                    proof {
                        lemma_spec_steps_extend(start_cpu, start_bus, done);
                        lemma_spec_steps_absorb(
                            start_cpu,
                            start_bus,
                            done + 1,
                            max_instructions as nat,
                        );
                    }
                    return Err(err);
                },
            }
            remaining = remaining - 1;
        }
        Ok(())
    }

    /// Run single instructions until the predicate accepts the
    /// register file (checked before every instruction, so also
    /// before the first), an instruction fails, or the budget of
    /// `max_instructions` runs out.  `Ok(true)` means the predicate
    /// held of the final register file; `Ok(false)` means the budget
    /// ran out first, after exactly `max_instructions` successful
    /// instructions.
    pub fn run_until<F: Fn(Mos6507) -> bool>(
        &mut self,
        bus: &mut Bus,
        predicate: F,
        max_instructions: u64,
    ) -> (r: Result<bool, CpuError>)
        requires
            old(bus).wf(),
            forall|cpu: Mos6507| #[trigger] call_requires(predicate, (cpu,)),
        ensures
            final(bus).wf(),
            r == Ok::<bool, CpuError>(true) ==> call_ensures(predicate, (*final(self),), true)
                && (exists|k: nat|
                k <= max_instructions && #[trigger] spec_steps(*old(self), old(bus)@, k) == (
                    *final(self),
                    final(bus)@,
                    Ok::<(), CpuError>(()),
                )),
            r == Ok::<bool, CpuError>(false) ==> spec_steps(
                *old(self),
                old(bus)@,
                max_instructions as nat,
            ) == (*final(self), final(bus)@, Ok::<(), CpuError>(())),
            r matches Err(e) ==> spec_steps(*old(self), old(bus)@, max_instructions as nat) == (
                *final(self),
                final(bus)@,
                Err::<(), CpuError>(e),
            ),
    {
        let ghost start_cpu = *old(self);
        let ghost start_bus = old(bus)@;
        proof {
            lemma_spec_steps_zero(start_cpu, start_bus);
        }
        let mut remaining = max_instructions;
        loop
            invariant
                bus.wf(),
                remaining <= max_instructions,
                start_cpu == *old(self),
                start_bus == old(bus)@,
                forall|cpu: Mos6507| #[trigger] call_requires(predicate, (cpu,)),
                spec_steps(start_cpu, start_bus, (max_instructions - remaining) as nat) == (
                    *self,
                    bus@,
                    Ok::<(), CpuError>(()),
                ),
            decreases remaining,
        {
            let ghost done = (max_instructions - remaining) as nat;
            let satisfied = predicate(*self);
            if satisfied {
                proof {
                    assert(spec_steps(*old(self), old(bus)@, done) == (
                        *self,
                        bus@,
                        Ok::<(), CpuError>(()),
                    ));
                }
                return Ok(true);
            }
            if remaining == 0 {
                proof {
                    assert(spec_steps(*old(self), old(bus)@, max_instructions as nat) == (
                        *self,
                        bus@,
                        Ok::<(), CpuError>(()),
                    ));
                }
                return Ok(false);
            }
            match self.step(bus) {
                Ok(_) => {
                    proof {
                        lemma_spec_steps_extend(start_cpu, start_bus, done);
                        lemma_ok_unit(spec_steps(start_cpu, start_bus, done + 1).2);
                        assert(spec_steps(start_cpu, start_bus, done + 1) =~= (
                            *self,
                            bus@,
                            Ok::<(), CpuError>(()),
                        ));
                    }
                },
                Err(err) => {
                    proof {
                        lemma_spec_steps_extend(start_cpu, start_bus, done);
                        lemma_spec_steps_absorb(
                            start_cpu,
                            start_bus,
                            done + 1,
                            max_instructions as nat,
                        );
                        assert(spec_steps(*old(self), old(bus)@, max_instructions as nat) =~= (
                            *self,
                            bus@,
                            Err::<(), CpuError>(err),
                        ));
                    }
                    return Err(err);
                },
            }
            remaining = remaining - 1;
        }
    }
}

/// Law: a taken branch always lands relative to the address
/// immediately following the two-byte branch instruction, wrapping at
/// either end of the 16-bit address space, and changes nothing else.
pub proof fn lemma_branch_displacement(cpu: Mos6507, b: BusView, opcode: u8, displacement: u8)
    requires
        spec_read(b, cpu.pc) == Ok::<u8, BusFault>(opcode),
        spec_read(b, wrap_inc(cpu.pc)) == Ok::<u8, BusFault>(displacement),
        spec_mode_of(opcode) is Relative,
        branch_taken(spec_op_of(opcode), cpu.flags),
    ensures
        spec_step(cpu, b).2 == Ok::<(), CpuError>(()),
        spec_step(cpu, b).0.pc == ((cpu.pc + 2 + sign_extend(displacement)) % 0x10000) as u16,
        spec_step(cpu, b).1 == b,
{
    reveal(spec_step);
    reveal(spec_execute);
    let d = sign_extend(displacement);
    let after = wrap_add16(cpu.pc, 2);
    if cpu.pc + 2 < 0x10000 {
        vstd::arithmetic::div_mod::lemma_small_mod((cpu.pc + 2) as nat, 0x10000 as nat);
        assert(after == cpu.pc + 2);
    } else {
        vstd::arithmetic::div_mod::lemma_mod_multiples_vanish(1, cpu.pc + 2 - 0x10000, 0x10000);
        vstd::arithmetic::div_mod::lemma_small_mod((cpu.pc + 2 - 0x10000) as nat, 0x10000 as nat);
        assert(after == cpu.pc + 2 - 0x10000);
        vstd::arithmetic::div_mod::lemma_mod_multiples_vanish(1, after + d, 0x10000);
    }
    assert(branch_target(after, displacement) == ((cpu.pc + 2 + d) % 0x10000) as u16);
}

} // verus!
