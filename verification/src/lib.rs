//! A software CPU: an interpreter for a small byte-oriented instruction set
//! over a flat memory and a file of thirteen 64-bit registers.
//!
//! The caller constructs a [`Cpu`] with a memory size and a start address,
//! loads encoded instructions into memory through the memory accessors, and
//! then drives execution one instruction at a time with [`Cpu::step`] until
//! it reports a stop reason.
//!
//! An opcode byte holds the instruction category in its low nibble and the
//! instruction number within the category in its high nibble. Operand bytes
//! pack register indices as nibbles, low nibble first; the load instruction
//! is followed by a little-endian 64-bit immediate. The exact meaning of
//! every instruction is spelled out by [`semantics::spec_step`], which
//! [`Cpu::step`] is proved to implement.
use vstd::prelude::*;

use std::ops::ControlFlow;

pub mod memory;
pub mod semantics;

pub use memory::Memory;

use semantics::CpuView;
use semantics::spec_initial_regs;
use semantics::spec_step;
use semantics::valid_reg;

verus! {

/// How many registers the machine has.
pub const REGISTER_COUNT: usize = 13;

/// Register 0 reads as zero at the start of every step; a write to it is
/// discarded by the next step's reset.
pub const REGISTER_ZERO: u8 = 0b000;

/// Register 1 holds the address of the next byte to fetch.
pub const REGISTER_INSTRUCTION_POINTER: u8 = 0b001;

/// Register 2 receives the return address when a call executes.
pub const REGISTER_RETURN_ADDRESS: u8 = 0b010;

/// Register 3 is the stack pointer; the stack grows downward.
pub const REGISTER_STACK_POINTER: u8 = 0b011;

pub const INSTRUCTION_CATEGORY_INVALID: u8 = 0x0;

pub const INSTRUCTION_INVALID: u8 = 0x0;

pub const INSTRUCTION_CATEGORY_ARITHMETIC: u8 = 0x1;

pub const INSTRUCTION_ADD: u8 = 0x0;

pub const INSTRUCTION_SUB: u8 = 0x1;

pub const INSTRUCTION_MUL: u8 = 0x2;

pub const INSTRUCTION_DIVMOD: u8 = 0x3;

pub const INSTRUCTION_AND: u8 = 0x4;

pub const INSTRUCTION_OR: u8 = 0x5;

pub const INSTRUCTION_XOR: u8 = 0x6;

pub const INSTRUCTION_NOT: u8 = 0x7;

pub const INSTRUCTION_CATEGORY_MEMORY: u8 = 0x2;

pub const INSTRUCTION_COPY: u8 = 0x0;

pub const INSTRUCTION_LOAD: u8 = 0x1;

pub const INSTRUCTION_READ: u8 = 0x2;

pub const INSTRUCTION_WRITE: u8 = 0x3;

pub const INSTRUCTION_PUSH: u8 = 0x4;

pub const INSTRUCTION_POP: u8 = 0x5;

pub const INSTRUCTION_CATEGORY_CONTROL_FLOW: u8 = 0x3;

pub const INSTRUCTION_HALT: u8 = 0x0;

pub const INSTRUCTION_CALL: u8 = 0x1;

/// Why a step did not continue. Every reason is terminal for that step and
/// is returned to the caller, never retried internally.
#[derive(Clone, Copy, Debug, PartialEq, Eq, Structural)]
pub enum CpuStepError {
    /// The halt instruction executed.
    Halt,
    /// The opcode named the invalid category with instruction number 0.
    InvalidInstruction,
    /// The opcode's category nibble names no category.
    InvalidInstructionCategory,
    /// The opcode named the invalid category with a nonzero instruction
    /// number.
    InvalidInvalidInstruction,
    /// The opcode named the arithmetic category with an unassigned
    /// instruction number.
    InvalidArithmeticInstruction,
    /// The opcode named the memory category with an unassigned instruction
    /// number.
    InvalidMemoryInstruction,
    /// The opcode named the control-flow category with an unassigned
    /// instruction number.
    InvalidControlFlowInstruction,
    /// A fetch or a data access reached past the end of memory, or the stack
    /// pointer left no room for a push.
    OutOfBoundsAddress,
    /// A 4-bit operand field named a register that does not exist (13 to
    /// 15).
    InvalidRegisterIndex,
}

/// The machine: a register file and the memory it executes from.
pub struct Cpu {
    memory: Memory,
    registers: Vec<u64>,
}

impl View for Cpu {
    type V = CpuView;

    closed spec fn view(&self) -> CpuView {
        CpuView { regs: self.registers@, mem: self.memory@ }
    }
}

impl Cpu {
    /// The machine as built: thirteen registers, and a memory that host
    /// addresses can span. Construction establishes this and every method
    /// preserves it.
    pub open spec fn wf(&self) -> bool {
        self@.wf()
    }

    /// Builds a machine with `memory_size` zero-filled bytes of memory, the
    /// instruction pointer at `start_address`, and every other register
    /// zero.
    ///
    /// `memory_size` must fit the host's addressing width; the machine is
    /// meant for hosts whose addresses are at least 64 bits wide.
    pub fn new(memory_size: u64, start_address: u64) -> (cpu: Cpu)
        requires
            memory_size <= usize::MAX,
        ensures
            cpu.wf(),
            cpu@.regs == spec_initial_regs(start_address),
            cpu@.mem == Seq::new(memory_size as nat, |i: int| 0u8),
    {
        let memory = Memory::new(memory_size);
        let mut registers: Vec<u64> = Vec::new();
        while registers.len() < REGISTER_COUNT
            invariant
                registers@.len() <= REGISTER_COUNT,
                forall|i: int| 0 <= i < registers@.len() ==> registers@[i] == 0u64,
            decreases REGISTER_COUNT - registers@.len(),
        {
            registers.push(0);
        }
        registers.set(REGISTER_INSTRUCTION_POINTER as usize, start_address);
        proof {
            assert(registers@ =~= spec_initial_regs(start_address));
        }
        Cpu { memory, registers }
    }

    /// Fetches the byte at the instruction pointer and advances the pointer
    /// by one, or reports that the pointer is past the end of memory.
    fn fetch(&mut self) -> (fetched: Option<u8>)
        requires
            old(self).wf(),
        ensures
            final(self).wf(),
            final(self)@ == semantics::spec_fetch(old(self)@).0,
            fetched == semantics::spec_fetch(old(self)@).1,
    {
        let ip = self.registers[REGISTER_INSTRUCTION_POINTER as usize];
        let n = self.memory.len();
        if ip < n {
            let value = self.memory.read(ip);
            self.registers.set(REGISTER_INSTRUCTION_POINTER as usize, ip + 1);
            Some(value)
        } else {
            None
        }
    }

    /// Fetches the 8 bytes at the instruction pointer as one little-endian
    /// 64-bit immediate and advances the pointer past them, or reports that
    /// they do not all lie in memory.
    fn fetch_u64(&mut self) -> (fetched: Option<u64>)
        requires
            old(self).wf(),
        ensures
            final(self).wf(),
            final(self)@ == semantics::spec_fetch_u64(old(self)@).0,
            fetched == semantics::spec_fetch_u64(old(self)@).1,
    {
        let ip = self.registers[REGISTER_INSTRUCTION_POINTER as usize];
        let n = self.memory.len();
        if n >= 8 && ip <= n - 8 {
            let value = self.memory.read_u64(ip);
            self.registers.set(REGISTER_INSTRUCTION_POINTER as usize, ip + 8);
            Some(value)
        } else {
            None
        }
    }

    /// Runs one instruction of the arithmetic category, the opcode byte
    /// already consumed.
    fn step_arithmetic(&mut self, instruction: u8) -> (outcome: ControlFlow<CpuStepError>)
        requires
            old(self).wf(),
        ensures
            final(self).wf(),
            final(self)@ == semantics::spec_step_arithmetic(old(self)@, instruction).0,
            outcome == semantics::spec_step_arithmetic(old(self)@, instruction).1,
    {
        if instruction == INSTRUCTION_NOT {
            let operands = match self.fetch() {
                Some(byte) => byte,
                None => {
                    return ControlFlow::Break(CpuStepError::OutOfBoundsAddress);
                },
            };
            let a = operands & 0x0F;
            let o = (operands & 0xF0) >> 4;
            if !reg_index_ok(a) || !reg_index_ok(o) {
                return ControlFlow::Break(CpuStepError::InvalidRegisterIndex);
            }
            let value = !self.registers[a as usize];
            self.registers.set(o as usize, value);
            ControlFlow::Continue(())
        } else if instruction <= INSTRUCTION_XOR {
            let inputs = match self.fetch() {
                Some(byte) => byte,
                None => {
                    return ControlFlow::Break(CpuStepError::OutOfBoundsAddress);
                },
            };
            let outputs = match self.fetch() {
                Some(byte) => byte,
                None => {
                    return ControlFlow::Break(CpuStepError::OutOfBoundsAddress);
                },
            };
            let a = inputs & 0x0F;
            let b = (inputs & 0xF0) >> 4;
            let o = outputs & 0x0F;
            if instruction == INSTRUCTION_DIVMOD {
                let r = (outputs & 0xF0) >> 4;
                if !reg_index_ok(a) || !reg_index_ok(b) || !reg_index_ok(o) || !reg_index_ok(r) {
                    return ControlFlow::Break(CpuStepError::InvalidRegisterIndex);
                }
                let quotient = div_or_zero(self.registers[a as usize], self.registers[b as usize]);
                self.registers.set(o as usize, quotient);
                let remainder = rem_or_zero(self.registers[a as usize], self.registers[b as usize]);
                self.registers.set(r as usize, remainder);
                ControlFlow::Continue(())
            } else {
                if !reg_index_ok(a) || !reg_index_ok(b) || !reg_index_ok(o) {
                    return ControlFlow::Break(CpuStepError::InvalidRegisterIndex);
                }
                let value = binop(instruction, self.registers[a as usize], self.registers[b
                    as usize]);
                self.registers.set(o as usize, value);
                ControlFlow::Continue(())
            }
        } else {
            ControlFlow::Break(CpuStepError::InvalidArithmeticInstruction)
        }
    }

    /// Runs one instruction of the memory category, the opcode byte already
    /// consumed.
    fn step_memory(&mut self, instruction: u8) -> (outcome: ControlFlow<CpuStepError>)
        requires
            old(self).wf(),
        ensures
            final(self).wf(),
            final(self)@ == semantics::spec_step_memory(old(self)@, instruction).0,
            outcome == semantics::spec_step_memory(old(self)@, instruction).1,
    {
        if instruction == INSTRUCTION_COPY {
            let operands = match self.fetch() {
                Some(byte) => byte,
                None => {
                    return ControlFlow::Break(CpuStepError::OutOfBoundsAddress);
                },
            };
            let a = operands & 0x0F;
            let b = (operands & 0xF0) >> 4;
            if !reg_index_ok(a) || !reg_index_ok(b) {
                return ControlFlow::Break(CpuStepError::InvalidRegisterIndex);
            }
            let value = self.registers[a as usize];
            self.registers.set(b as usize, value);
            ControlFlow::Continue(())
        } else if instruction == INSTRUCTION_LOAD {
            let operand = match self.fetch() {
                Some(byte) => byte,
                None => {
                    return ControlFlow::Break(CpuStepError::OutOfBoundsAddress);
                },
            };
            let a = operand & 0x0F;
            let value = match self.fetch_u64() {
                Some(immediate) => immediate,
                None => {
                    return ControlFlow::Break(CpuStepError::OutOfBoundsAddress);
                },
            };
            if !reg_index_ok(a) {
                return ControlFlow::Break(CpuStepError::InvalidRegisterIndex);
            }
            self.registers.set(a as usize, value);
            ControlFlow::Continue(())
        } else if instruction == INSTRUCTION_READ {
            let operands = match self.fetch() {
                Some(byte) => byte,
                None => {
                    return ControlFlow::Break(CpuStepError::OutOfBoundsAddress);
                },
            };
            let a = operands & 0x0F;
            let b = (operands & 0xF0) >> 4;
            if !reg_index_ok(a) || !reg_index_ok(b) {
                return ControlFlow::Break(CpuStepError::InvalidRegisterIndex);
            }
            let address = self.registers[a as usize];
            let n = self.memory.len();
            if n >= 8 && address <= n - 8 {
                let value = self.memory.read_u64(address);
                self.registers.set(b as usize, value);
                ControlFlow::Continue(())
            } else {
                ControlFlow::Break(CpuStepError::OutOfBoundsAddress)
            }
        } else if instruction == INSTRUCTION_WRITE {
            let operands = match self.fetch() {
                Some(byte) => byte,
                None => {
                    return ControlFlow::Break(CpuStepError::OutOfBoundsAddress);
                },
            };
            let a = operands & 0x0F;
            let b = (operands & 0xF0) >> 4;
            if !reg_index_ok(a) || !reg_index_ok(b) {
                return ControlFlow::Break(CpuStepError::InvalidRegisterIndex);
            }
            let address = self.registers[b as usize];
            let n = self.memory.len();
            if n >= 8 && address <= n - 8 {
                let value = self.registers[a as usize];
                self.memory.write_u64(address, value);
                ControlFlow::Continue(())
            } else {
                ControlFlow::Break(CpuStepError::OutOfBoundsAddress)
            }
        } else if instruction == INSTRUCTION_PUSH {
            let operands = match self.fetch() {
                Some(byte) => byte,
                None => {
                    return ControlFlow::Break(CpuStepError::OutOfBoundsAddress);
                },
            };
            let a = operands & 0x0F;
            if !reg_index_ok(a) {
                return ControlFlow::Break(CpuStepError::InvalidRegisterIndex);
            }
            let sp = self.registers[REGISTER_STACK_POINTER as usize];
            let n = self.memory.len();
            if 8 <= sp && sp <= n {
                self.registers.set(REGISTER_STACK_POINTER as usize, sp - 8);
                let value = self.registers[a as usize];
                self.memory.write_u64(sp - 8, value);
                ControlFlow::Continue(())
            } else {
                ControlFlow::Break(CpuStepError::OutOfBoundsAddress)
            }
        } else if instruction == INSTRUCTION_POP {
            let operands = match self.fetch() {
                Some(byte) => byte,
                None => {
                    return ControlFlow::Break(CpuStepError::OutOfBoundsAddress);
                },
            };
            let a = operands & 0x0F;
            if !reg_index_ok(a) {
                return ControlFlow::Break(CpuStepError::InvalidRegisterIndex);
            }
            let sp = self.registers[REGISTER_STACK_POINTER as usize];
            let n = self.memory.len();
            if n >= 8 && sp <= n - 8 {
                let value = self.memory.read_u64(sp);
                self.registers.set(a as usize, value);
                let moved = self.registers[REGISTER_STACK_POINTER as usize];
                self.registers.set(REGISTER_STACK_POINTER as usize, moved.wrapping_add(8));
                ControlFlow::Continue(())
            } else {
                ControlFlow::Break(CpuStepError::OutOfBoundsAddress)
            }
        } else {
            ControlFlow::Break(CpuStepError::InvalidMemoryInstruction)
        }
    }

    /// Runs one instruction of the control-flow category, the opcode byte
    /// already consumed.
    fn step_control_flow(&mut self, instruction: u8) -> (outcome: ControlFlow<CpuStepError>)
        requires
            old(self).wf(),
        ensures
            final(self).wf(),
            final(self)@ == semantics::spec_step_control_flow(old(self)@, instruction).0,
            outcome == semantics::spec_step_control_flow(old(self)@, instruction).1,
    {
        if instruction == INSTRUCTION_HALT {
            ControlFlow::Break(CpuStepError::Halt)
        } else if instruction == INSTRUCTION_CALL {
            let operands = match self.fetch() {
                Some(byte) => byte,
                None => {
                    return ControlFlow::Break(CpuStepError::OutOfBoundsAddress);
                },
            };
            let a = operands & 0x0F;
            if !reg_index_ok(a) {
                return ControlFlow::Break(CpuStepError::InvalidRegisterIndex);
            }
            let ip = self.registers[REGISTER_INSTRUCTION_POINTER as usize];
            self.registers.set(REGISTER_RETURN_ADDRESS as usize, ip);
            let target = self.registers[a as usize];
            self.registers.set(REGISTER_INSTRUCTION_POINTER as usize, target);
            ControlFlow::Continue(())
        } else {
            ControlFlow::Break(CpuStepError::InvalidControlFlowInstruction)
        }
    }

    /// The memory's size in bytes, fixed at construction.
    pub fn memory_size(&self) -> (n: u64)
        ensures
            n == self@.mem.len(),
    {
        self.memory.len()
    }

    /// Reads the byte at `address`, for a host inspecting the machine.
    pub fn read_memory(&self, address: u64) -> (value: u8)
        requires
            address < self@.mem.len(),
        ensures
            value == self@.mem[address as int],
    {
        self.memory.read(address)
    }

    /// Stores `value` at `address`: how a host loads an encoded program into
    /// memory before the first step.
    pub fn write_memory(&mut self, address: u64, value: u8)
        requires
            old(self).wf(),
            address < old(self)@.mem.len(),
        ensures
            final(self).wf(),
            final(self)@.regs == old(self)@.regs,
            final(self)@.mem == old(self)@.mem.update(address as int, value),
    {
        self.memory.write(address, value);
    }

    /// Reads the value of register `index`.
    pub fn read_register(&self, index: u8) -> (value: u64)
        requires
            self.wf(),
            valid_reg(index),
        ensures
            value == self@.regs[index as int],
    {
        self.registers[index as usize]
    }

    /// Places `value` in register `index`, for a host preparing or
    /// inspecting the machine between steps.
    pub fn write_register(&mut self, index: u8, value: u64)
        requires
            old(self).wf(),
            valid_reg(index),
        ensures
            final(self).wf(),
            final(self)@.regs == old(self)@.regs.update(index as int, value),
            final(self)@.mem == old(self)@.mem,
    {
        self.registers.set(index as usize, value);
    }

    /// Performs one complete fetch/decode/execute cycle.
    ///
    /// The step resets register 0, fetches the opcode at the instruction
    /// pointer, decodes and runs the instruction, and reports whether
    /// execution can continue. The state afterwards, and the outcome, are
    /// exactly those of [`semantics::spec_step`] on the state before.
    pub fn step(&mut self) -> (outcome: ControlFlow<CpuStepError>)
        requires
            old(self).wf(),
        ensures
            final(self).wf(),
            final(self)@ == spec_step(old(self)@).0,
            outcome == spec_step(old(self)@).1,
    {
        self.registers.set(REGISTER_ZERO as usize, 0);
        let opcode = match self.fetch() {
            Some(byte) => byte,
            None => {
                return ControlFlow::Break(CpuStepError::OutOfBoundsAddress);
            },
        };
        let category = opcode & 0x0F;
        let instruction = (opcode & 0xF0) >> 4;
        if category == INSTRUCTION_CATEGORY_INVALID {
            if instruction == INSTRUCTION_INVALID {
                ControlFlow::Break(CpuStepError::InvalidInstruction)
            } else {
                ControlFlow::Break(CpuStepError::InvalidInvalidInstruction)
            }
        } else if category == INSTRUCTION_CATEGORY_ARITHMETIC {
            self.step_arithmetic(instruction)
        } else if category == INSTRUCTION_CATEGORY_MEMORY {
            self.step_memory(instruction)
        } else if category == INSTRUCTION_CATEGORY_CONTROL_FLOW {
            self.step_control_flow(instruction)
        } else {
            ControlFlow::Break(CpuStepError::InvalidInstructionCategory)
        }
    }
}

/// Whether a 4-bit operand field names one of the thirteen registers.
fn reg_index_ok(index: u8) -> (ok: bool)
    ensures
        ok == valid_reg(index),
{
    (index as usize) < REGISTER_COUNT
}

/// The quotient of `x` by `y`; division by zero never traps, it yields 0.
fn div_or_zero(x: u64, y: u64) -> (quotient: u64)
    ensures
        quotient == semantics::spec_div(x, y),
{
    if y == 0 {
        0
    } else {
        x / y
    }
}

/// The remainder of `x` by `y`; a zero divisor never traps, it yields 0.
fn rem_or_zero(x: u64, y: u64) -> (remainder: u64)
    ensures
        remainder == semantics::spec_rem(x, y),
{
    if y == 0 {
        0
    } else {
        x % y
    }
}

/// The value a two-input arithmetic or bitwise instruction computes.
/// Addition, subtraction and multiplication wrap modulo 2^64; overflow never
/// traps.
fn binop(instruction: u8, x: u64, y: u64) -> (value: u64)
    ensures
        value == semantics::spec_binop(instruction, x, y),
{
    if instruction == INSTRUCTION_ADD {
        x.wrapping_add(y)
    } else if instruction == INSTRUCTION_SUB {
        x.wrapping_sub(y)
    } else if instruction == INSTRUCTION_MUL {
        x.wrapping_mul(y)
    } else if instruction == INSTRUCTION_AND {
        x & y
    } else if instruction == INSTRUCTION_OR {
        x | y
    } else {
        x ^ y
    }
}

} // verus!
