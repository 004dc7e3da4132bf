use vstd::prelude::*;
use crate::instruction::{EmulatorError, Instruction, decode_at};

verus! {

/// The value a register holds in the store `m`: zero until it is written.
pub open spec fn reg_value(m: Map<u8, i32>, r: u8) -> i32 {
    if m.contains_key(r) {
        m[r]
    } else {
        0i32
    }
}

/// The value of the `i32` range congruent to `x` modulo 2^32, for `x` within
/// one 2^32 of that range (any sum or difference of two `i32`).
pub open spec fn wrap_i32(x: int) -> int {
    if x > i32::MAX {
        x - 0x1_0000_0000
    } else if x < i32::MIN {
        x + 0x1_0000_0000
    } else {
        x
    }
}

/// The result of `Compare`: the sign of `a - b`.
pub open spec fn compare_value(a: i32, b: i32) -> i32 {
    if a == b {
        0i32
    } else if a < b {
        -1i32
    } else {
        1
    }
}

/// The register store after executing `inst` on `m`.
pub open spec fn apply(m: Map<u8, i32>, inst: Instruction) -> Map<u8, i32> {
    match inst {
        Instruction::LoadConstant(r, c) => m.insert(r, c),
        Instruction::Add(a, b, r) => m.insert(
            r,
            wrap_i32(reg_value(m, a) + reg_value(m, b)) as i32,
        ),
        Instruction::Subtract(a, b, r) => m.insert(
            r,
            wrap_i32(reg_value(m, a) - reg_value(m, b)) as i32,
        ),
        Instruction::Copy(from, to) => m.insert(to, reg_value(m, from)),
        Instruction::Compare(a, b, r) => m.insert(
            r,
            compare_value(reg_value(m, a), reg_value(m, b)),
        ),
        _ => m,
    }
}

/// The position after executing `inst` on `m`, where `next` is the offset
/// just past `inst`. A jump sets the position to its target byte offset.
pub open spec fn successor(m: Map<u8, i32>, inst: Instruction, next: int) -> int {
    match inst {
        Instruction::Jump(a) => a as int,
        Instruction::JumpIfNonZero(r, a) => if reg_value(m, r) != 0 {
            a as int
        } else {
            next
        },
        _ => next,
    }
}

/// What executing `inst` on `m` prints.
pub open spec fn printed(m: Map<u8, i32>, inst: Instruction) -> Seq<i32> {
    match inst {
        Instruction::Print(r) => seq![reg_value(m, r)],
        _ => Seq::empty(),
    }
}

/// Running program `b` from store `m` and position `p` for at most `fuel`
/// instructions: the final store, the final position, what was printed, and
/// `Ok(true)` when the end of the program was reached, `Ok(false)` when the
/// fuel ran out first, or the error that stopped the run. A failing
/// instruction leaves the store and the position as they were before it.
pub open spec fn trace(b: Seq<u8>, m: Map<u8, i32>, p: int, fuel: nat) -> (
    Map<u8, i32>,
    int,
    Seq<i32>,
    Result<bool, EmulatorError>,
)
    decreases fuel,
{
    if p >= b.len() {
        (m, p, Seq::empty(), Ok(true))
    } else if fuel == 0 {
        (m, p, Seq::empty(), Ok(false))
    } else {
        match decode_at(b, p) {
            Err(e) => (m, p, Seq::empty(), Err(e)),
            Ok((inst, next)) => {
                let rest = trace(b, apply(m, inst), successor(m, inst, next), (fuel - 1) as nat);
                (rest.0, rest.1, printed(m, inst) + rest.2, rest.3)
            },
        }
    }
}

} // verus!
