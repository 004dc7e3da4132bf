use regvm::emulator::Emulator;
use regvm::instruction::{
    EmulatorError, Instruction, INST_ADD, INST_COMPARE, INST_COPY, INST_JUMP,
    INST_JUMP_IF_NON_ZERO, INST_LOAD_CONSTANT, INST_NOOP, INST_PRINT, INST_SUBTRACT, REG_A,
    REG_B, REG_C, REG_D, REG_E,
};

fn load(reg: u8, value: i32) -> Vec<u8> {
    let mut v = vec![INST_LOAD_CONSTANT, reg];
    v.extend_from_slice(&value.to_be_bytes());
    v
}

fn run_all(bytes: Vec<u8>, budget: u64) -> (Emulator, Vec<i32>, Result<bool, EmulatorError>) {
    let mut emu = Emulator::new(bytes, false);
    let mut out = Vec::new();
    let r = emu.run(budget, &mut out);
    (emu, out, r)
}

fn binary_op(op: u8, a: i32, b: i32) -> i32 {
    let mut bytes = load(REG_A, a);
    bytes.extend(load(REG_B, b));
    bytes.extend(vec![op, REG_A, REG_B, REG_C, INST_PRINT, REG_C]);
    let (_, out, r) = run_all(bytes, 100);
    assert_eq!(r, Ok(true));
    assert_eq!(out.len(), 1);
    out[0]
}

fn fibonacci_program(limit: i32) -> Vec<u8> {
    let mut bytes = load(REG_A, 0);
    bytes.extend(load(REG_B, 1));
    bytes.extend(vec![INST_ADD, REG_A, REG_B, REG_C]);
    bytes.extend(vec![INST_PRINT, REG_C]);
    bytes.extend(vec![INST_COPY, REG_B, REG_A]);
    bytes.extend(vec![INST_COPY, REG_C, REG_B]);
    bytes.extend(load(REG_D, limit));
    bytes.extend(vec![INST_COMPARE, REG_C, REG_D, REG_D]);
    bytes.extend(load(REG_E, 1));
    bytes.extend(vec![INST_COMPARE, REG_D, REG_E, REG_E]);
    bytes.extend(vec![INST_JUMP_IF_NON_ZERO, REG_E, 0, 0, 0, 12]);
    bytes
}

#[test]
fn unwritten_registers_read_zero() {
    let emu = Emulator::new(vec![], false);
    for r in 0..=255u8 {
        assert_eq!(emu.registry_get(r), 0);
    }
}

#[test]
fn set_then_get_returns_value() {
    let mut emu = Emulator::new(vec![], false);
    emu.registry_set(REG_B, -17);
    assert_eq!(emu.registry_get(REG_B), -17);
    emu.registry_set(REG_B, i32::MAX);
    assert_eq!(emu.registry_get(REG_B), i32::MAX);
    assert_eq!(emu.registry_get(REG_A), 0);
}

#[test]
fn compare_gives_sign_of_difference() {
    assert_eq!(binary_op(INST_COMPARE, 3, 3), 0);
    assert_eq!(binary_op(INST_COMPARE, 2, 3), -1);
    assert_eq!(binary_op(INST_COMPARE, 3, 2), 1);
    assert_eq!(binary_op(INST_COMPARE, i32::MIN, i32::MAX), -1);
    assert_eq!(binary_op(INST_COMPARE, i32::MAX, i32::MIN), 1);
    assert_eq!(binary_op(INST_COMPARE, i32::MIN, i32::MIN), 0);
    assert_eq!(binary_op(INST_COMPARE, -1, 0), -1);
}

#[test]
fn add_and_subtract_wrap() {
    assert_eq!(binary_op(INST_ADD, 2, 3), 5);
    assert_eq!(binary_op(INST_SUBTRACT, 2, 3), -1);
    assert_eq!(binary_op(INST_ADD, i32::MAX, 1), i32::MIN);
    assert_eq!(binary_op(INST_ADD, i32::MIN, -1), i32::MAX);
    assert_eq!(binary_op(INST_SUBTRACT, i32::MIN, 1), i32::MAX);
    assert_eq!(binary_op(INST_SUBTRACT, i32::MAX, -1), i32::MIN);
    assert_eq!(binary_op(INST_ADD, i32::MAX, i32::MAX), -2);
}

#[test]
fn truncated_instruction_fails_without_writing() {
    let mut bytes = load(REG_A, 7);
    bytes.extend(vec![INST_LOAD_CONSTANT, REG_A, 0, 0]);
    let (emu, out, r) = run_all(bytes, 100);
    assert_eq!(r, Err(EmulatorError::FailedToRead));
    assert!(out.is_empty());
    assert_eq!(emu.registry_get(REG_A), 7);

    let mut emu = Emulator::new(vec![INST_ADD, REG_A, REG_B], false);
    assert_eq!(emu.step(), Err(EmulatorError::FailedToRead));
    assert_eq!(emu.registry_get(REG_C), 0);

    let mut emu = Emulator::new(vec![INST_JUMP, 0, 0, 1], false);
    assert_eq!(emu.step(), Err(EmulatorError::FailedToRead));
}

#[test]
fn unknown_opcode_is_rejected() {
    let (_, out, r) = run_all(vec![255], 10);
    assert_eq!(r, Err(EmulatorError::InvalidInstruction(255)));
    assert!(out.is_empty());
    let (_, _, r) = run_all(vec![INST_NOOP, 9, INST_NOOP], 10);
    assert_eq!(r, Err(EmulatorError::InvalidInstruction(9)));
}

#[test]
fn unknown_register_is_rejected() {
    let (_, _, r) = run_all(vec![INST_PRINT, 6], 10);
    assert_eq!(r, Err(EmulatorError::InvalidRegistry(6)));
    let (_, _, r) = run_all(vec![INST_ADD, REG_A, 200], 10);
    assert_eq!(r, Err(EmulatorError::InvalidRegistry(200)));
}

#[test]
fn output_kept_before_error() {
    let mut bytes = load(REG_A, 42);
    bytes.extend(vec![INST_PRINT, REG_A, 255]);
    let (_, out, r) = run_all(bytes, 100);
    assert_eq!(out, vec![42]);
    assert_eq!(r, Err(EmulatorError::InvalidInstruction(255)));
}

#[test]
fn add_program_prints_one() {
    let mut bytes = load(REG_A, 0);
    bytes.extend(load(REG_B, 1));
    bytes.extend(vec![INST_ADD, REG_A, REG_B, REG_C, INST_PRINT, REG_C]);
    let (emu, out, r) = run_all(bytes, 100);
    assert_eq!(r, Ok(true));
    assert_eq!(out, vec![1]);
    assert!(emu.is_halted());
}

#[test]
fn load_constant_encoding() {
    let mut emu = Emulator::new(vec![0x01, 0x01, 0x00, 0x00, 0x00, 0x01], false);
    assert_eq!(emu.step(), Ok(Some(Instruction::LoadConstant(REG_A, 1))));
    assert_eq!(emu.registry_get(REG_A), 1);
    assert_eq!(emu.step(), Ok(None));

    let mut emu = Emulator::new(vec![0x01, 0x02, 0xff, 0xff, 0xff, 0xfe], false);
    assert_eq!(emu.step(), Ok(Some(Instruction::LoadConstant(REG_B, -2))));
    assert_eq!(emu.registry_get(REG_B), -2);

    let mut emu = Emulator::new(vec![0x01, 0x02, 0x12, 0x34, 0x56, 0x78], false);
    emu.step().unwrap();
    assert_eq!(emu.registry_get(REG_B), 0x12345678);
}

#[test]
fn fibonacci_up_to_one_hundred() {
    let (emu, out, r) = run_all(fibonacci_program(100), 1000);
    assert_eq!(r, Ok(true));
    assert_eq!(out, vec![1, 2, 3, 5, 8, 13, 21, 34, 55, 89, 144]);
    assert_eq!(emu.registry_get(REG_C), 144);
}

#[test]
fn fibonacci_up_to_65536() {
    let (_, out, r) = run_all(fibonacci_program(65536), 10000);
    assert_eq!(r, Ok(true));
    assert_eq!(out.first(), Some(&1));
    assert_eq!(out.last(), Some(&75025));
    assert_eq!(out.len(), 24);
}

#[test]
fn jump_past_end_halts() {
    let mut bytes = vec![INST_JUMP, 0, 0, 1, 0];
    bytes.extend(vec![INST_PRINT, REG_A]);
    let (emu, out, r) = run_all(bytes, 100);
    assert_eq!(r, Ok(true));
    assert!(out.is_empty());
    assert!(emu.is_halted());

    let mut bytes = load(REG_A, 1);
    bytes.extend(vec![INST_JUMP_IF_NON_ZERO, REG_A, 0xff, 0xff, 0xff, 0xff]);
    bytes.extend(vec![INST_PRINT, REG_A]);
    let (_, out, r) = run_all(bytes, 100);
    assert_eq!(r, Ok(true));
    assert!(out.is_empty());

    let (_, _, r) = run_all(vec![INST_JUMP, 0, 0, 0, 5], 100);
    assert_eq!(r, Ok(true));
}

#[test]
fn jump_if_zero_falls_through() {
    let mut bytes = vec![INST_JUMP_IF_NON_ZERO, REG_A, 0, 0, 0, 0];
    bytes.extend(vec![INST_PRINT, REG_A]);
    let (_, out, r) = run_all(bytes, 100);
    assert_eq!(r, Ok(true));
    assert_eq!(out, vec![0]);
}

#[test]
fn budget_stops_endless_loop() {
    let (emu, out, r) = run_all(vec![INST_JUMP, 0, 0, 0, 0], 50);
    assert_eq!(r, Ok(false));
    assert!(out.is_empty());
    assert!(!emu.is_halted());
}

#[test]
fn empty_program_halts_at_once() {
    let (_, out, r) = run_all(vec![], 0);
    assert_eq!(r, Ok(true));
    assert!(out.is_empty());
}

#[test]
fn copy_and_subtract() {
    let mut bytes = load(REG_A, 10);
    bytes.extend(vec![INST_COPY, REG_A, REG_B]);
    bytes.extend(vec![INST_SUBTRACT, REG_A, REG_B, REG_D, INST_NOOP]);
    bytes.extend(vec![INST_PRINT, REG_B, INST_PRINT, REG_D]);
    let (_, out, r) = run_all(bytes, 100);
    assert_eq!(r, Ok(true));
    assert_eq!(out, vec![10, 0]);
}

#[test]
fn operand_reads_advance() {
    let mut emu = Emulator::new(vec![REG_C, 0, 0, 1, 2, 9], false);
    assert_eq!(emu.read_registry(), Ok(REG_C));
    assert_eq!(emu.read_address(), Ok(258));
    assert_eq!(emu.read_registry(), Err(EmulatorError::InvalidRegistry(9)));
    assert_eq!(emu.read_address(), Err(EmulatorError::FailedToRead));
    emu.jump(0);
    assert_eq!(emu.read_registry(), Ok(REG_C));
}
