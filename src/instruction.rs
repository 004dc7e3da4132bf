use vstd::prelude::*;

verus! {

/// Register byte of the stack register.
pub const REG_STACK: u8 = 0;
pub const REG_A: u8 = 1;
pub const REG_B: u8 = 2;
pub const REG_C: u8 = 3;
pub const REG_D: u8 = 4;
/// The highest register byte that the machine accepts.
pub const REG_E: u8 = 5;

pub const INST_NOOP: u8 = 0;
pub const INST_LOAD_CONSTANT: u8 = 1;
pub const INST_ADD: u8 = 2;
pub const INST_SUBTRACT: u8 = 3;
pub const INST_COPY: u8 = 4;
pub const INST_COMPARE: u8 = 5;
pub const INST_JUMP: u8 = 6;
pub const INST_JUMP_IF_NON_ZERO: u8 = 7;
pub const INST_PRINT: u8 = 8;

/// Why a run stopped before reaching the end of its program.
#[derive(Debug, Clone, Copy, PartialEq, Eq)]
pub enum EmulatorError {
    /// The program ended in the middle of an instruction.
    FailedToRead,
    /// The opcode byte names no instruction.
    InvalidInstruction(u8),
    /// A register operand names no register.
    InvalidRegistry(u8),
}

/// One decoded instruction. Register operands are register bytes; jump
/// targets are byte offsets into the program.
#[derive(Debug, Clone, Copy, PartialEq, Eq)]
pub enum Instruction {
    NoOp,
    LoadConstant(u8, i32),
    Add(u8, u8, u8),
    Subtract(u8, u8, u8),
    Copy(u8, u8),
    Compare(u8, u8, u8),
    Jump(u32),
    JumpIfNonZero(u8, u32),
    Print(u8),
}

pub open spec fn is_register(b: u8) -> bool {
    b <= REG_E
}

/// The unsigned value of the first four bytes of `s`, most significant first.
pub open spec fn be_u32_value(s: Seq<u8>) -> int
    recommends
        s.len() >= 4,
{
    s[0] as int * 0x100_0000 + s[1] as int * 0x1_0000 + s[2] as int * 0x100 + s[3] as int
}

/// The two's-complement reading of the same four bytes.
pub open spec fn be_i32_value(s: Seq<u8>) -> int
    recommends
        s.len() >= 4,
{
    let u = be_u32_value(s);
    if u >= 0x8000_0000 {
        u - 0x1_0000_0000
    } else {
        u
    }
}

/// The register operand at offset `p`.
pub open spec fn register_at(b: Seq<u8>, p: int) -> Result<u8, EmulatorError> {
    if p < 0 || p >= b.len() {
        Err(EmulatorError::FailedToRead)
    } else if is_register(b[p]) {
        Ok(b[p])
    } else {
        Err(EmulatorError::InvalidRegistry(b[p]))
    }
}

/// The address operand (four bytes, big-endian, unsigned) at offset `p`.
pub open spec fn address_at(b: Seq<u8>, p: int) -> Result<u32, EmulatorError> {
    if 0 <= p && p + 4 <= b.len() {
        Ok(be_u32_value(b.subrange(p, p + 4)) as u32)
    } else {
        Err(EmulatorError::FailedToRead)
    }
}

/// The constant operand (four bytes, big-endian, signed) at offset `p`.
pub open spec fn constant_at(b: Seq<u8>, p: int) -> Result<i32, EmulatorError> {
    if 0 <= p && p + 4 <= b.len() {
        Ok(be_i32_value(b.subrange(p, p + 4)) as i32)
    } else {
        Err(EmulatorError::FailedToRead)
    }
}

/// Two register operands read in order from offset `p`.
pub open spec fn two_registers_at(b: Seq<u8>, p: int) -> Result<(u8, u8), EmulatorError> {
    match register_at(b, p) {
        Err(e) => Err(e),
        Ok(x) => match register_at(b, p + 1) {
            Err(e) => Err(e),
            Ok(y) => Ok((x, y)),
        },
    }
}

/// Three register operands read in order from offset `p`.
pub open spec fn three_registers_at(b: Seq<u8>, p: int) -> Result<(u8, u8, u8), EmulatorError> {
    match two_registers_at(b, p) {
        Err(e) => Err(e),
        Ok((x, y)) => match register_at(b, p + 2) {
            Err(e) => Err(e),
            Ok(z) => Ok((x, y, z)),
        },
    }
}

/// The instruction whose opcode stands at offset `p`, with the offset just
/// past its last operand; or the first error met while reading it.
pub open spec fn decode_at(b: Seq<u8>, p: int) -> Result<(Instruction, int), EmulatorError>
    recommends
        0 <= p < b.len(),
{
    let op = b[p];
    if op == INST_NOOP {
        Ok((Instruction::NoOp, p + 1))
    } else if op == INST_LOAD_CONSTANT {
        match register_at(b, p + 1) {
            Err(e) => Err(e),
            Ok(r) => match constant_at(b, p + 2) {
                Err(e) => Err(e),
                Ok(c) => Ok((Instruction::LoadConstant(r, c), p + 6)),
            },
        }
    } else if op == INST_ADD {
        match three_registers_at(b, p + 1) {
            Err(e) => Err(e),
            Ok((x, y, z)) => Ok((Instruction::Add(x, y, z), p + 4)),
        }
    } else if op == INST_SUBTRACT {
        match three_registers_at(b, p + 1) {
            Err(e) => Err(e),
            Ok((x, y, z)) => Ok((Instruction::Subtract(x, y, z), p + 4)),
        }
    } else if op == INST_COPY {
        match two_registers_at(b, p + 1) {
            Err(e) => Err(e),
            Ok((x, y)) => Ok((Instruction::Copy(x, y), p + 3)),
        }
    } else if op == INST_COMPARE {
        match three_registers_at(b, p + 1) {
            Err(e) => Err(e),
            Ok((x, y, z)) => Ok((Instruction::Compare(x, y, z), p + 4)),
        }
    } else if op == INST_JUMP {
        match address_at(b, p + 1) {
            Err(e) => Err(e),
            Ok(a) => Ok((Instruction::Jump(a), p + 5)),
        }
    } else if op == INST_JUMP_IF_NON_ZERO {
        match register_at(b, p + 1) {
            Err(e) => Err(e),
            Ok(r) => match address_at(b, p + 2) {
                Err(e) => Err(e),
                Ok(a) => Ok((Instruction::JumpIfNonZero(r, a), p + 6)),
            },
        }
    } else if op == INST_PRINT {
        match register_at(b, p + 1) {
            Err(e) => Err(e),
            Ok(r) => Ok((Instruction::Print(r), p + 2)),
        }
    } else {
        Err(EmulatorError::InvalidInstruction(op))
    }
}

} // verus!
