use vstd::prelude::*;
use std::collections::HashMap;
use vstd::slice::slice_subrange;
use crate::instruction::{
    EmulatorError, Instruction, address_at, constant_at, decode_at, register_at,
    REG_E, INST_NOOP, INST_LOAD_CONSTANT, INST_ADD, INST_SUBTRACT, INST_COPY, INST_COMPARE,
    INST_JUMP, INST_JUMP_IF_NON_ZERO, INST_PRINT,
};
use crate::machine::{apply, printed, reg_value, successor, trace};
use crate::wire::{read_be_i32, read_be_u32};

verus! {

broadcast use vstd::std_specs::hash::group_hash_axioms;

/// A machine holding one program, its register store and its position.
pub struct Emulator {
    bytes: Vec<u8>,
    registries: HashMap<u8, i32>,
    instruction_pointer: usize,
    debug: bool,
}

impl Emulator {
    /// The program's bytes.
    pub closed spec fn program(&self) -> Seq<u8> {
        self.bytes@
    }

    /// The register store.
    pub closed spec fn registers(&self) -> Map<u8, i32> {
        self.registries@
    }

    /// The byte offset of the next instruction.
    pub closed spec fn position(&self) -> int {
        self.instruction_pointer as int
    }

    pub closed spec fn debug_mode(&self) -> bool {
        self.debug
    }

    /// The run is over once the position reaches the end of the program.
    pub open spec fn halted(&self) -> bool {
        self.position() >= self.program().len()
    }

    pub fn new(bytes: Vec<u8>, debug: bool) -> (r: Self)
        ensures
            r.program() == bytes@,
            r.registers() == Map::<u8, i32>::empty(),
            r.position() == 0,
            r.debug_mode() == debug,
    {
        Emulator { bytes, registries: HashMap::new(), instruction_pointer: 0, debug }
    }

    pub fn is_debug(&self) -> (r: bool)
        ensures
            r == self.debug_mode(),
    {
        self.debug
    }

    pub fn is_halted(&self) -> (r: bool)
        ensures
            r == self.halted(),
    {
        self.instruction_pointer >= self.bytes.len()
    }

    /// The value of a register; zero for a register never written.
    pub fn registry_get(&self, registry: u8) -> (r: i32)
        ensures
            r == reg_value(self.registers(), registry),
            !self.registers().contains_key(registry) ==> r == 0,
    {
        match self.registries.get(&registry) {
            Some(v) => *v,
            None => 0,
        }
    }

    /// Writes a register, inserting or overwriting its entry.
    pub fn registry_set(&mut self, registry: u8, val: i32)
        ensures
            final(self).registers() == old(self).registers().insert(registry, val),
            final(self).program() == old(self).program(),
            final(self).position() == old(self).position(),
            final(self).debug_mode() == old(self).debug_mode(),
    {
        self.registries.insert(registry, val);
    }

    /// Moves the position to the byte offset `to`.
    pub fn jump(&mut self, to: u32)
        ensures
            final(self).position() == to as int,
            final(self).registers() == old(self).registers(),
            final(self).program() == old(self).program(),
            final(self).debug_mode() == old(self).debug_mode(),
    {
        self.instruction_pointer = to as usize;
    }

    /// Reads one register operand. On success the position moves past it;
    /// on failure nothing changes.
    pub fn read_registry(&mut self) -> (r: Result<u8, EmulatorError>)
        ensures
            r == register_at(old(self).program(), old(self).position()),
            final(self).position() == if r is Ok {
                old(self).position() + 1
            } else {
                old(self).position()
            },
            final(self).registers() == old(self).registers(),
            final(self).program() == old(self).program(),
            final(self).debug_mode() == old(self).debug_mode(),
    {
        if self.instruction_pointer >= self.bytes.len() {
            return Err(EmulatorError::FailedToRead);
        }
        let b = self.bytes[self.instruction_pointer];
        if b > REG_E {
            return Err(EmulatorError::InvalidRegistry(b));
        }
        self.instruction_pointer = self.instruction_pointer + 1;
        Ok(b)
    }

    /// Reads one jump address. On success the position moves past it; on
    /// failure nothing changes.
    pub fn read_address(&mut self) -> (r: Result<u32, EmulatorError>)
        ensures
            r == address_at(old(self).program(), old(self).position()),
            final(self).position() == if r is Ok {
                old(self).position() + 4
            } else {
                old(self).position()
            },
            final(self).registers() == old(self).registers(),
            final(self).program() == old(self).program(),
            final(self).debug_mode() == old(self).debug_mode(),
    {
        let p = self.instruction_pointer;
        let len = self.bytes.len();
        if p > len {
            return Err(EmulatorError::FailedToRead);
        }
        let rest = slice_subrange(self.bytes.as_slice(), p, len);
        match read_be_u32(rest) {
            Ok(v) => {
                assert(rest@.subrange(0, 4) =~= self.bytes@.subrange(p as int, p + 4));
                self.instruction_pointer = p + 4;
                Ok(v)
            },
            Err(_) => Err(EmulatorError::FailedToRead),
        }
    }

    /// Reads one constant operand. On success the position moves past it;
    /// on failure nothing changes.
    fn read_constant(&mut self) -> (r: Result<i32, EmulatorError>)
        ensures
            r == constant_at(old(self).program(), old(self).position()),
            final(self).position() == if r is Ok {
                old(self).position() + 4
            } else {
                old(self).position()
            },
            final(self).registers() == old(self).registers(),
            final(self).program() == old(self).program(),
            final(self).debug_mode() == old(self).debug_mode(),
    {
        let p = self.instruction_pointer;
        let len = self.bytes.len();
        if p > len {
            return Err(EmulatorError::FailedToRead);
        }
        let rest = slice_subrange(self.bytes.as_slice(), p, len);
        match read_be_i32(rest) {
            Ok(v) => {
                assert(rest@.subrange(0, 4) =~= self.bytes@.subrange(p as int, p + 4));
                self.instruction_pointer = p + 4;
                Ok(v)
            },
            Err(_) => Err(EmulatorError::FailedToRead),
        }
    }

    /// Decodes the instruction at the current position, which must lie
    /// inside the program. On success the position moves past the whole
    /// instruction. The register store is never touched.
    pub fn read_instruction(&mut self) -> (r: Result<Instruction, EmulatorError>)
        requires
            !old(self).halted(),
        ensures
            match decode_at(old(self).program(), old(self).position()) {
                Ok((inst, next)) => r == Ok::<Instruction, EmulatorError>(inst)
                    && final(self).position() == next,
                Err(e) => r == Err::<Instruction, EmulatorError>(e),
            },
            final(self).registers() == old(self).registers(),
            final(self).program() == old(self).program(),
            final(self).debug_mode() == old(self).debug_mode(),
    {
        let p = self.instruction_pointer;
        let len = self.bytes.len();
        assert(p < len);
        let op = self.bytes[p];
        self.instruction_pointer = p + 1;
        if op == INST_NOOP {
            Ok(Instruction::NoOp)
        } else if op == INST_LOAD_CONSTANT {
            let reg = self.read_registry()?;
            let constant = self.read_constant()?;
            Ok(Instruction::LoadConstant(reg, constant))
        } else if op == INST_ADD || op == INST_SUBTRACT || op == INST_COMPARE {
            let a = self.read_registry()?;
            let b = self.read_registry()?;
            let result = self.read_registry()?;
            if op == INST_ADD {
                Ok(Instruction::Add(a, b, result))
            } else if op == INST_SUBTRACT {
                Ok(Instruction::Subtract(a, b, result))
            } else {
                Ok(Instruction::Compare(a, b, result))
            }
        } else if op == INST_COPY {
            let from = self.read_registry()?;
            let to = self.read_registry()?;
            Ok(Instruction::Copy(from, to))
        } else if op == INST_JUMP {
            let addr = self.read_address()?;
            Ok(Instruction::Jump(addr))
        } else if op == INST_JUMP_IF_NON_ZERO {
            let reg = self.read_registry()?;
            let addr = self.read_address()?;
            Ok(Instruction::JumpIfNonZero(reg, addr))
        } else if op == INST_PRINT {
            let reg = self.read_registry()?;
            Ok(Instruction::Print(reg))
        } else {
            Err(EmulatorError::InvalidInstruction(op))
        }
    }

    /// Executes a decoded instruction. `Add` and `Subtract` wrap around in
    /// 32-bit two's complement; a jump sets the position to its target.
    pub fn execute(&mut self, inst: Instruction)
        ensures
            final(self).registers() == apply(old(self).registers(), inst),
            final(self).position() == successor(
                old(self).registers(),
                inst,
                old(self).position(),
            ),
            final(self).program() == old(self).program(),
            final(self).debug_mode() == old(self).debug_mode(),
    {
        match inst {
            Instruction::NoOp => {},
            Instruction::LoadConstant(reg, constant) => {
                self.registry_set(reg, constant);
            },
            Instruction::Add(a, b, result) => {
                let a_val = self.registry_get(a);
                let b_val = self.registry_get(b);
                self.registry_set(result, a_val.wrapping_add(b_val));
            },
            Instruction::Subtract(a, b, result) => {
                let a_val = self.registry_get(a);
                let b_val = self.registry_get(b);
                self.registry_set(result, a_val.wrapping_sub(b_val));
            },
            Instruction::Copy(from, to) => {
                let val = self.registry_get(from);
                self.registry_set(to, val);
            },
            Instruction::Compare(a, b, result) => {
                let a_val = self.registry_get(a);
                let b_val = self.registry_get(b);
                let result_val: i32 = if a_val == b_val {
                    0
                } else if a_val < b_val {
                    -1
                } else {
                    1
                };
                self.registry_set(result, result_val);
            },
            Instruction::Jump(addr) => {
                self.jump(addr);
            },
            Instruction::JumpIfNonZero(reg, addr) => {
                let val = self.registry_get(reg);
                if val != 0 {
                    self.jump(addr);
                }
            },
            Instruction::Print(_) => {},
        }
    }

    /// Runs one instruction. At the end of the program it returns `Ok(None)`
    /// and changes nothing. Otherwise it returns the instruction it ran; on a
    /// decode error it returns the error and changes nothing, so an
    /// instruction that cannot be read in full writes no register.
    pub fn step(&mut self) -> (r: Result<Option<Instruction>, EmulatorError>)
        ensures
            final(self).program() == old(self).program(),
            final(self).debug_mode() == old(self).debug_mode(),
            old(self).halted() ==> r == Ok::<Option<Instruction>, EmulatorError>(None)
                && final(self).registers() == old(self).registers()
                && final(self).position() == old(self).position(),
            !old(self).halted() ==> match decode_at(old(self).program(), old(self).position()) {
                Ok((inst, next)) => r == Ok::<Option<Instruction>, EmulatorError>(Some(inst))
                    && final(self).registers() == apply(old(self).registers(), inst)
                    && final(self).position() == successor(old(self).registers(), inst, next),
                Err(e) => r == Err::<Option<Instruction>, EmulatorError>(e)
                    && final(self).registers() == old(self).registers()
                    && final(self).position() == old(self).position(),
            },
    {
        if self.instruction_pointer >= self.bytes.len() {
            return Ok(None);
        }
        let start = self.instruction_pointer;
        match self.read_instruction() {
            Ok(inst) => {
                self.execute(inst);
                Ok(Some(inst))
            },
            Err(e) => {
                self.instruction_pointer = start;
                Err(e)
            },
        }
    }

    /// Runs at most `max_steps` instructions, appending the value of every
    /// `Print` to `out`. Returns `Ok(true)` once the position reaches or
    /// passes the end of the program, `Ok(false)` when the budget runs out
    /// first, or the first decode error. What was printed before an error
    /// stays in `out`.
    pub fn run(&mut self, max_steps: u64, out: &mut Vec<i32>) -> (r: Result<bool, EmulatorError>)
        ensures
            ({
                let t = trace(
                    old(self).program(),
                    old(self).registers(),
                    old(self).position(),
                    max_steps as nat,
                );
                &&& final(self).registers() == t.0
                &&& final(self).position() == t.1
                &&& final(out)@ == old(out)@ + t.2
                &&& r == t.3
            }),
            final(self).program() == old(self).program(),
            final(self).debug_mode() == old(self).debug_mode(),
    {
        let ghost prog = self.program();
        let ghost whole = trace(prog, self.registers(), self.position(), max_steps as nat);
        let ghost out0 = out@;
        let ghost mut done: Seq<i32> = Seq::empty();
        let mut remaining: u64 = max_steps;
        loop
            invariant
                prog == old(self).program(),
                whole == trace(prog, old(self).registers(), old(self).position(), max_steps as nat),
                out0 == old(out)@,
                self.program() == prog,
                self.debug_mode() == old(self).debug_mode(),
                out@ == out0 + done,
                ({
                    let t = trace(prog, self.registers(), self.position(), remaining as nat);
                    &&& whole.0 == t.0
                    &&& whole.1 == t.1
                    &&& whole.2 == done + t.2
                    &&& whole.3 == t.3
                }),
            decreases remaining,
        {
            if self.is_halted() {
                assert(done + Seq::<i32>::empty() =~= done);
                return Ok(true);
            }
            if remaining == 0 {
                assert(done + Seq::<i32>::empty() =~= done);
                return Ok(false);
            }
            let ghost before = self.registers();
            let ghost rest = trace(prog, self.registers(), self.position(), remaining as nat);
            match self.step() {
                Err(e) => {
                    assert(done + Seq::<i32>::empty() =~= done);
                    return Err(e);
                },
                Ok(None) => {
                    return Ok(true);
                },
                Ok(Some(inst)) => {
                    let ghost shown = printed(before, inst);
                    match inst {
                        Instruction::Print(reg) => {
                            let val = self.registry_get(reg);
                            out.push(val);
                        },
                        _ => {},
                    }
                    proof {
                        assert(out@ =~= out0 + (done + shown));
                        assert(whole.2 =~= (done + shown) + trace(
                            prog,
                            self.registers(),
                            self.position(),
                            (remaining - 1) as nat,
                        ).2);
                        done = done + shown;
                    }
                    remaining = remaining - 1;
                },
            }
        }
    }
}

} // verus!
