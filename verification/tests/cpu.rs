use std::ops::ControlFlow;

use softcpu::Cpu;
use softcpu::CpuStepError;
use softcpu::INSTRUCTION_ADD;
use softcpu::INSTRUCTION_AND;
use softcpu::INSTRUCTION_CALL;
use softcpu::INSTRUCTION_CATEGORY_ARITHMETIC;
use softcpu::INSTRUCTION_CATEGORY_CONTROL_FLOW;
use softcpu::INSTRUCTION_CATEGORY_INVALID;
use softcpu::INSTRUCTION_CATEGORY_MEMORY;
use softcpu::INSTRUCTION_COPY;
use softcpu::INSTRUCTION_DIVMOD;
use softcpu::INSTRUCTION_HALT;
use softcpu::INSTRUCTION_LOAD;
use softcpu::INSTRUCTION_MUL;
use softcpu::INSTRUCTION_NOT;
use softcpu::INSTRUCTION_OR;
use softcpu::INSTRUCTION_POP;
use softcpu::INSTRUCTION_PUSH;
use softcpu::INSTRUCTION_READ;
use softcpu::INSTRUCTION_SUB;
use softcpu::INSTRUCTION_WRITE;
use softcpu::INSTRUCTION_XOR;

fn opcode(category: u8, instruction: u8) -> u8 {
    category | (instruction << 4)
}

fn operands(low: u8, high: u8) -> u8 {
    low | (high << 4)
}

fn load_program(cpu: &mut Cpu, bytes: &[u8]) {
    for (i, byte) in bytes.iter().enumerate() {
        cpu.write_memory(i as u64, *byte);
    }
}

#[test]
fn fresh_cpu_state() {
    let cpu = Cpu::new(16, 5);
    assert_eq!(cpu.memory_size(), 16);
    for index in 0..13 {
        let expected = if index == 1 { 5 } else { 0 };
        assert_eq!(cpu.read_register(index), expected);
    }
    for address in 0..16 {
        assert_eq!(cpu.read_memory(address), 0);
    }
}

#[test]
fn add_computes_and_advances_pointer() {
    let mut cpu = Cpu::new(64, 0);
    load_program(
        &mut cpu,
        &[
            opcode(INSTRUCTION_CATEGORY_ARITHMETIC, INSTRUCTION_ADD),
            operands(4, 5),
            operands(6, 0),
        ],
    );
    cpu.write_register(4, 10);
    cpu.write_register(5, 7);
    assert_eq!(cpu.step(), ControlFlow::Continue(()));
    assert_eq!(cpu.read_register(6), 17);
    assert_eq!(cpu.read_register(1), 3);
}

#[test]
fn add_then_sub_restores_value() {
    let mut cpu = Cpu::new(64, 0);
    load_program(
        &mut cpu,
        &[
            opcode(INSTRUCTION_CATEGORY_ARITHMETIC, INSTRUCTION_ADD),
            operands(4, 5),
            operands(6, 0),
            opcode(INSTRUCTION_CATEGORY_ARITHMETIC, INSTRUCTION_SUB),
            operands(6, 5),
            operands(7, 0),
        ],
    );
    cpu.write_register(4, u64::MAX - 1);
    cpu.write_register(5, 7);
    assert_eq!(cpu.step(), ControlFlow::Continue(()));
    assert_eq!(cpu.read_register(6), (u64::MAX - 1).wrapping_add(7));
    assert_eq!(cpu.step(), ControlFlow::Continue(()));
    assert_eq!(cpu.read_register(7), u64::MAX - 1);
}

#[test]
fn divmod_by_zero_yields_zeros() {
    let mut cpu = Cpu::new(64, 0);
    load_program(
        &mut cpu,
        &[
            opcode(INSTRUCTION_CATEGORY_ARITHMETIC, INSTRUCTION_DIVMOD),
            operands(4, 5),
            operands(6, 7),
        ],
    );
    cpu.write_register(4, 12345);
    cpu.write_register(5, 0);
    cpu.write_register(6, 99);
    cpu.write_register(7, 99);
    assert_eq!(cpu.step(), ControlFlow::Continue(()));
    assert_eq!(cpu.read_register(6), 0);
    assert_eq!(cpu.read_register(7), 0);
}

#[test]
fn divmod_computes_quotient_and_remainder() {
    let mut cpu = Cpu::new(64, 0);
    load_program(
        &mut cpu,
        &[
            opcode(INSTRUCTION_CATEGORY_ARITHMETIC, INSTRUCTION_DIVMOD),
            operands(4, 5),
            operands(6, 7),
        ],
    );
    cpu.write_register(4, 17);
    cpu.write_register(5, 5);
    assert_eq!(cpu.step(), ControlFlow::Continue(()));
    assert_eq!(cpu.read_register(6), 3);
    assert_eq!(cpu.read_register(7), 2);
}

#[test]
fn mul_wraps_modulo_two_to_the_64() {
    let mut cpu = Cpu::new(64, 0);
    load_program(
        &mut cpu,
        &[
            opcode(INSTRUCTION_CATEGORY_ARITHMETIC, INSTRUCTION_MUL),
            operands(4, 5),
            operands(6, 0),
        ],
    );
    cpu.write_register(4, 1 << 63);
    cpu.write_register(5, 2);
    assert_eq!(cpu.step(), ControlFlow::Continue(()));
    assert_eq!(cpu.read_register(6), 0);
}

#[test]
fn bitwise_and_or_xor_not() {
    let mut cpu = Cpu::new(64, 0);
    load_program(
        &mut cpu,
        &[
            opcode(INSTRUCTION_CATEGORY_ARITHMETIC, INSTRUCTION_AND),
            operands(4, 5),
            operands(6, 0),
            opcode(INSTRUCTION_CATEGORY_ARITHMETIC, INSTRUCTION_OR),
            operands(4, 5),
            operands(7, 0),
            opcode(INSTRUCTION_CATEGORY_ARITHMETIC, INSTRUCTION_XOR),
            operands(4, 5),
            operands(8, 0),
            opcode(INSTRUCTION_CATEGORY_ARITHMETIC, INSTRUCTION_NOT),
            operands(4, 9),
        ],
    );
    cpu.write_register(4, 0xFF00_FF00_FF00_FF00);
    cpu.write_register(5, 0x0F0F_0F0F_0F0F_0F0F);
    for _ in 0..4 {
        assert_eq!(cpu.step(), ControlFlow::Continue(()));
    }
    assert_eq!(cpu.read_register(6), 0x0F00_0F00_0F00_0F00);
    assert_eq!(cpu.read_register(7), 0xFF0F_FF0F_FF0F_FF0F);
    assert_eq!(cpu.read_register(8), 0xF00F_F00F_F00F_F00F);
    assert_eq!(cpu.read_register(9), !0xFF00_FF00_FF00_FF00u64);
}

#[test]
fn copy_moves_a_register_value() {
    let mut cpu = Cpu::new(64, 0);
    load_program(
        &mut cpu,
        &[opcode(INSTRUCTION_CATEGORY_MEMORY, INSTRUCTION_COPY), operands(4, 9)],
    );
    cpu.write_register(4, 4242);
    assert_eq!(cpu.step(), ControlFlow::Continue(()));
    assert_eq!(cpu.read_register(9), 4242);
    assert_eq!(cpu.read_register(4), 4242);
}

#[test]
fn load_reads_a_little_endian_immediate() {
    let mut cpu = Cpu::new(64, 0);
    let value = 0xDEAD_BEEF_CAFE_BABEu64;
    let mut program = vec![
        opcode(INSTRUCTION_CATEGORY_MEMORY, INSTRUCTION_LOAD),
        operands(4, 0),
    ];
    program.extend_from_slice(&value.to_le_bytes());
    load_program(&mut cpu, &program);
    assert_eq!(cpu.step(), ControlFlow::Continue(()));
    assert_eq!(cpu.read_register(4), value);
    assert_eq!(cpu.read_register(1), 10);
}

#[test]
fn load_write_read_round_trips_through_memory() {
    let mut cpu = Cpu::new(64, 0);
    let value = 0x0123_4567_89AB_CDEFu64;
    let mut program = vec![
        opcode(INSTRUCTION_CATEGORY_MEMORY, INSTRUCTION_LOAD),
        operands(4, 0),
    ];
    program.extend_from_slice(&value.to_le_bytes());
    program.extend_from_slice(&[
        opcode(INSTRUCTION_CATEGORY_MEMORY, INSTRUCTION_LOAD),
        operands(5, 0),
    ]);
    program.extend_from_slice(&40u64.to_le_bytes());
    program.extend_from_slice(&[
        opcode(INSTRUCTION_CATEGORY_MEMORY, INSTRUCTION_WRITE),
        operands(4, 5),
        opcode(INSTRUCTION_CATEGORY_MEMORY, INSTRUCTION_READ),
        operands(5, 6),
    ]);
    load_program(&mut cpu, &program);
    for _ in 0..4 {
        assert_eq!(cpu.step(), ControlFlow::Continue(()));
    }
    assert_eq!(cpu.read_register(6), value);
    assert_eq!(cpu.read_memory(40), value.to_le_bytes()[0]);
}

#[test]
fn register_zero_reads_zero_after_a_write_to_it() {
    let mut cpu = Cpu::new(64, 0);
    let mut program = vec![
        opcode(INSTRUCTION_CATEGORY_MEMORY, INSTRUCTION_LOAD),
        operands(0, 0),
    ];
    program.extend_from_slice(&5u64.to_le_bytes());
    program.extend_from_slice(&[
        opcode(INSTRUCTION_CATEGORY_ARITHMETIC, INSTRUCTION_ADD),
        operands(0, 4),
        operands(5, 0),
    ]);
    load_program(&mut cpu, &program);
    cpu.write_register(4, 9);
    assert_eq!(cpu.step(), ControlFlow::Continue(()));
    // The write to register 0 is visible until the next step resets it.
    assert_eq!(cpu.read_register(0), 5);
    assert_eq!(cpu.step(), ControlFlow::Continue(()));
    assert_eq!(cpu.read_register(5), 9);
    assert_eq!(cpu.read_register(0), 0);
}

#[test]
fn push_then_pop_restores_value_and_stack_pointer() {
    let mut cpu = Cpu::new(64, 0);
    load_program(
        &mut cpu,
        &[
            opcode(INSTRUCTION_CATEGORY_MEMORY, INSTRUCTION_PUSH),
            operands(4, 0),
            opcode(INSTRUCTION_CATEGORY_MEMORY, INSTRUCTION_POP),
            operands(4, 0),
        ],
    );
    cpu.write_register(3, 64);
    cpu.write_register(4, 777);
    assert_eq!(cpu.step(), ControlFlow::Continue(()));
    assert_eq!(cpu.read_register(3), 56);
    assert_eq!(cpu.step(), ControlFlow::Continue(()));
    assert_eq!(cpu.read_register(4), 777);
    assert_eq!(cpu.read_register(3), 64);
}

#[test]
fn pop_into_another_register_reads_the_pushed_value() {
    let mut cpu = Cpu::new(64, 0);
    load_program(
        &mut cpu,
        &[
            opcode(INSTRUCTION_CATEGORY_MEMORY, INSTRUCTION_PUSH),
            operands(4, 0),
            opcode(INSTRUCTION_CATEGORY_MEMORY, INSTRUCTION_POP),
            operands(5, 0),
        ],
    );
    cpu.write_register(3, 64);
    cpu.write_register(4, 0xFEED_FACE);
    assert_eq!(cpu.step(), ControlFlow::Continue(()));
    assert_eq!(cpu.step(), ControlFlow::Continue(()));
    assert_eq!(cpu.read_register(5), 0xFEED_FACE);
    assert_eq!(cpu.read_register(3), 64);
}

#[test]
fn call_saves_return_address_and_jumps() {
    let mut cpu = Cpu::new(64, 0);
    load_program(
        &mut cpu,
        &[opcode(INSTRUCTION_CATEGORY_CONTROL_FLOW, INSTRUCTION_CALL), operands(4, 0)],
    );
    cpu.write_register(4, 42);
    assert_eq!(cpu.step(), ControlFlow::Continue(()));
    // The return address is the instruction pointer as it stood right after
    // the operand byte was fetched.
    assert_eq!(cpu.read_register(2), 2);
    assert_eq!(cpu.read_register(1), 42);
}

#[test]
fn halt_stops_and_changes_no_other_register() {
    let mut cpu = Cpu::new(8, 0);
    load_program(
        &mut cpu,
        &[opcode(INSTRUCTION_CATEGORY_CONTROL_FLOW, INSTRUCTION_HALT)],
    );
    assert_eq!(cpu.step(), ControlFlow::Break(CpuStepError::Halt));
    assert_eq!(cpu.read_register(1), 1);
    for index in 2..13 {
        assert_eq!(cpu.read_register(index), 0);
    }
    assert_eq!(cpu.read_register(0), 0);
}

#[test]
fn invalid_category_zero_opcode_stops() {
    let mut cpu = Cpu::new(8, 0);
    load_program(&mut cpu, &[opcode(INSTRUCTION_CATEGORY_INVALID, 0x0)]);
    assert_eq!(
        cpu.step(),
        ControlFlow::Break(CpuStepError::InvalidInstruction)
    );
}

#[test]
fn invalid_category_nonzero_instruction_stops() {
    let mut cpu = Cpu::new(8, 0);
    load_program(&mut cpu, &[opcode(INSTRUCTION_CATEGORY_INVALID, 0x1)]);
    assert_eq!(
        cpu.step(),
        ControlFlow::Break(CpuStepError::InvalidInvalidInstruction)
    );
}

#[test]
fn unassigned_arithmetic_instruction_stops() {
    let mut cpu = Cpu::new(8, 0);
    load_program(&mut cpu, &[opcode(INSTRUCTION_CATEGORY_ARITHMETIC, 0x8)]);
    assert_eq!(
        cpu.step(),
        ControlFlow::Break(CpuStepError::InvalidArithmeticInstruction)
    );
}

#[test]
fn unassigned_memory_instruction_stops() {
    let mut cpu = Cpu::new(8, 0);
    load_program(&mut cpu, &[opcode(INSTRUCTION_CATEGORY_MEMORY, 0x6)]);
    assert_eq!(
        cpu.step(),
        ControlFlow::Break(CpuStepError::InvalidMemoryInstruction)
    );
}

#[test]
fn unassigned_control_flow_instruction_stops() {
    let mut cpu = Cpu::new(8, 0);
    load_program(&mut cpu, &[opcode(INSTRUCTION_CATEGORY_CONTROL_FLOW, 0x2)]);
    assert_eq!(
        cpu.step(),
        ControlFlow::Break(CpuStepError::InvalidControlFlowInstruction)
    );
}

#[test]
fn unknown_category_stops() {
    let mut cpu = Cpu::new(8, 0);
    load_program(&mut cpu, &[opcode(0x4, 0x0)]);
    assert_eq!(
        cpu.step(),
        ControlFlow::Break(CpuStepError::InvalidInstructionCategory)
    );
}

#[test]
fn fetch_past_end_of_memory_stops() {
    let mut cpu = Cpu::new(0, 0);
    assert_eq!(
        cpu.step(),
        ControlFlow::Break(CpuStepError::OutOfBoundsAddress)
    );
}

#[test]
fn fetch_of_operands_past_end_of_memory_stops() {
    let mut cpu = Cpu::new(1, 0);
    load_program(
        &mut cpu,
        &[opcode(INSTRUCTION_CATEGORY_ARITHMETIC, INSTRUCTION_ADD)],
    );
    assert_eq!(
        cpu.step(),
        ControlFlow::Break(CpuStepError::OutOfBoundsAddress)
    );
}

#[test]
fn operand_naming_register_13_stops() {
    let mut cpu = Cpu::new(8, 0);
    load_program(
        &mut cpu,
        &[
            opcode(INSTRUCTION_CATEGORY_ARITHMETIC, INSTRUCTION_ADD),
            operands(13, 5),
            operands(6, 0),
        ],
    );
    assert_eq!(
        cpu.step(),
        ControlFlow::Break(CpuStepError::InvalidRegisterIndex)
    );
}

#[test]
fn read_from_out_of_range_address_stops() {
    let mut cpu = Cpu::new(64, 0);
    load_program(
        &mut cpu,
        &[opcode(INSTRUCTION_CATEGORY_MEMORY, INSTRUCTION_READ), operands(4, 5)],
    );
    cpu.write_register(4, 1000);
    assert_eq!(
        cpu.step(),
        ControlFlow::Break(CpuStepError::OutOfBoundsAddress)
    );
}

#[test]
fn push_with_no_stack_room_stops() {
    let mut cpu = Cpu::new(64, 0);
    load_program(
        &mut cpu,
        &[opcode(INSTRUCTION_CATEGORY_MEMORY, INSTRUCTION_PUSH), operands(4, 0)],
    );
    cpu.write_register(3, 0);
    assert_eq!(
        cpu.step(),
        ControlFlow::Break(CpuStepError::OutOfBoundsAddress)
    );
}
