//! Properties of the machine stated over the specifications that the
//! executable functions are proved against.
use vstd::prelude::*;
use crate::instruction::{
    EmulatorError, Instruction, decode_at, is_register, INST_LOAD_CONSTANT, INST_ADD,
    INST_SUBTRACT, INST_COPY, INST_COMPARE, INST_JUMP, INST_JUMP_IF_NON_ZERO, INST_PRINT,
};
use crate::machine::{apply, compare_value, reg_value, trace, wrap_i32};

verus! {

/// The sign of an integer: -1, 0 or 1.
pub open spec fn sign(x: int) -> int {
    if x < 0 {
        -1
    } else if x == 0 {
        0
    } else {
        1
    }
}

/// The number of operand bytes that follow opcode `op`.
pub open spec fn operand_width(op: u8) -> int {
    if op == INST_LOAD_CONSTANT || op == INST_JUMP_IF_NON_ZERO {
        5
    } else if op == INST_ADD || op == INST_SUBTRACT || op == INST_COMPARE {
        3
    } else if op == INST_COPY {
        2
    } else if op == INST_JUMP {
        4
    } else if op == INST_PRINT {
        1
    } else {
        0
    }
}

/// The number of register operands, which always come first, of opcode `op`.
pub open spec fn register_operands(op: u8) -> int {
    if op == INST_ADD || op == INST_SUBTRACT || op == INST_COMPARE {
        3
    } else if op == INST_COPY {
        2
    } else if op == INST_LOAD_CONSTANT || op == INST_JUMP_IF_NON_ZERO || op == INST_PRINT {
        1
    } else {
        0
    }
}

/// A register that was never written reads as zero.
pub proof fn lemma_unwritten_register_reads_zero(m: Map<u8, i32>, r: u8)
    requires
        !m.contains_key(r),
    ensures
        reg_value(m, r) == 0,
{
}

/// The register that `inst` writes, if any.
pub open spec fn destination(inst: Instruction) -> Option<u8> {
    match inst {
        Instruction::LoadConstant(r, _) => Some(r),
        Instruction::Add(_, _, r) => Some(r),
        Instruction::Subtract(_, _, r) => Some(r),
        Instruction::Copy(_, to) => Some(to),
        Instruction::Compare(_, _, r) => Some(r),
        _ => None,
    }
}

/// Executing an instruction writes at most its destination register: any
/// other register keeps both its presence in the store and its value, so a
/// register that no executed instruction names as destination stays unwritten.
pub proof fn lemma_only_destination_written(m: Map<u8, i32>, inst: Instruction, r: u8)
    requires
        destination(inst) != Some(r),
    ensures
        apply(m, inst).contains_key(r) == m.contains_key(r),
        reg_value(apply(m, inst), r) == reg_value(m, r),
{
}

/// In the empty store of a new machine every register reads as zero.
pub proof fn lemma_fresh_store_reads_zero(r: u8)
    ensures
        reg_value(Map::<u8, i32>::empty(), r) == 0,
{
}

/// Reading a register right after writing it gives the value written.
pub proof fn lemma_read_after_write(m: Map<u8, i32>, r: u8, v: i32)
    ensures
        reg_value(m.insert(r, v), r) == v,
{
}

/// `Compare` yields -1, 0 or 1, with the sign of the difference of its
/// operands; equal operands give 0.
pub proof fn lemma_compare_sign(a: i32, b: i32)
    ensures
        -1 <= compare_value(a, b) <= 1,
        sign(compare_value(a, b) as int) == sign(a - b),
        compare_value(a, b) == 0 <==> a == b,
{
}

/// `Add` and `Subtract` compute the exact sum or difference when it fits in
/// an `i32`, and otherwise the one value of the `i32` range congruent to it
/// modulo 2^32.
pub proof fn lemma_wrapping_arithmetic(a: i32, b: i32)
    ensures
        i32::MIN <= wrap_i32(a + b) <= i32::MAX,
        i32::MIN <= wrap_i32(a - b) <= i32::MAX,
        (wrap_i32(a + b) - (a + b)) % 0x1_0000_0000 == 0,
        (wrap_i32(a - b) - (a - b)) % 0x1_0000_0000 == 0,
        i32::MIN <= a + b <= i32::MAX ==> wrap_i32(a + b) == a + b,
        i32::MIN <= a - b <= i32::MAX ==> wrap_i32(a - b) == a - b,
{
}

/// An instruction with a known opcode whose operands run past the end of the
/// program fails to decode with `FailedToRead`, and a run that meets it stops
/// there with the register store as it was. Register operands that are present
/// must name registers, else that error comes first.
pub proof fn lemma_truncated_instruction_fails(b: Seq<u8>, p: int, m: Map<u8, i32>, fuel: nat)
    requires
        0 <= p < b.len(),
        b[p] <= INST_PRINT,
        p + 1 + operand_width(b[p]) > b.len(),
        forall|i: int|
            p + 1 <= i < b.len() && i < p + 1 + register_operands(b[p]) ==> is_register(
                #[trigger] b[i],
            ),
        fuel >= 1,
    ensures
        decode_at(b, p) == Err::<(Instruction, int), EmulatorError>(EmulatorError::FailedToRead),
        trace(b, m, p, fuel) == (m, p, Seq::<i32>::empty(), Err::<bool, EmulatorError>(
            EmulatorError::FailedToRead,
        )),
{
    if p + 1 < b.len() {
        assert(is_register(b[p + 1]) || register_operands(b[p]) < 1);
    }
    if p + 2 < b.len() {
        assert(is_register(b[p + 2]) || register_operands(b[p]) < 2);
    }
}

/// An opcode byte outside the instruction table fails to decode with
/// `InvalidInstruction` of that byte, and a run that meets it stops there
/// with the register store as it was.
pub proof fn lemma_unknown_opcode_rejected(b: Seq<u8>, p: int, m: Map<u8, i32>, fuel: nat)
    requires
        0 <= p < b.len(),
        b[p] > INST_PRINT,
        fuel >= 1,
    ensures
        decode_at(b, p) == Err::<(Instruction, int), EmulatorError>(
            EmulatorError::InvalidInstruction(b[p]),
        ),
        trace(b, m, p, fuel) == (m, p, Seq::<i32>::empty(), Err::<bool, EmulatorError>(
            EmulatorError::InvalidInstruction(b[p]),
        )),
{
}

/// A position at or past the end of the program is a normal halt.
pub proof fn lemma_past_end_halts(b: Seq<u8>, m: Map<u8, i32>, p: int, fuel: nat)
    requires
        p >= b.len(),
    ensures
        trace(b, m, p, fuel) == (m, p, Seq::<i32>::empty(), Ok::<bool, EmulatorError>(true)),
{
}

/// A `Jump` to an address at or past the end of the program halts the run
/// normally right after the jump, with no error.
pub proof fn lemma_jump_past_end_halts(b: Seq<u8>, m: Map<u8, i32>, p: int, a: u32, fuel: nat)
    requires
        0 <= p < b.len(),
        decode_at(b, p) is Ok,
        decode_at(b, p)->Ok_0.0 == Instruction::Jump(a),
        a >= b.len(),
        fuel >= 1,
    ensures
        trace(b, m, p, fuel) == (m, a as int, Seq::<i32>::empty(), Ok::<bool, EmulatorError>(
            true,
        )),
{
    let next = decode_at(b, p)->Ok_0.1;
    assert(trace(b, m, a as int, (fuel - 1) as nat) == (
        m,
        a as int,
        Seq::<i32>::empty(),
        Ok::<bool, EmulatorError>(true),
    ));
    assert(Seq::<i32>::empty() + Seq::<i32>::empty() =~= Seq::<i32>::empty());
}

} // verus!
