//! The mathematical model of the machine and of one execution step.
//!
//! A machine state is a [`CpuView`]: the thirteen registers as a sequence of
//! 64-bit values and the memory as a sequence of bytes. [`spec_step`] is a
//! total function from a state to the next state together with the step's
//! outcome; the executable [`crate::Cpu::step`] is proved to return exactly
//! what this function says.
//!
//! One instruction is decoded as follows. The opcode byte splits into a
//! category (low nibble) and an instruction number (high nibble). The bytes
//! an instruction's encoding asks for are fetched first, each fetch advancing
//! the instruction pointer; then the decoded register indices are validated
//! (a 4-bit field can name registers 13 to 15, which do not exist); then any
//! memory access is bounds-checked; and only then does the instruction take
//! effect. A fetch past the end of memory, an out-of-range address, or an
//! invalid register index stops the step with a typed reason and leaves the
//! state exactly as the already-performed fetches left it.
use std::ops::ControlFlow;

use vstd::prelude::*;

use crate::CpuStepError;
use crate::INSTRUCTION_ADD;
use crate::INSTRUCTION_AND;
use crate::INSTRUCTION_CALL;
use crate::INSTRUCTION_CATEGORY_ARITHMETIC;
use crate::INSTRUCTION_CATEGORY_CONTROL_FLOW;
use crate::INSTRUCTION_CATEGORY_INVALID;
use crate::INSTRUCTION_CATEGORY_MEMORY;
use crate::INSTRUCTION_COPY;
use crate::INSTRUCTION_DIVMOD;
use crate::INSTRUCTION_HALT;
use crate::INSTRUCTION_INVALID;
use crate::INSTRUCTION_LOAD;
use crate::INSTRUCTION_MUL;
use crate::INSTRUCTION_NOT;
use crate::INSTRUCTION_OR;
use crate::INSTRUCTION_POP;
use crate::INSTRUCTION_PUSH;
use crate::INSTRUCTION_READ;
use crate::INSTRUCTION_SUB;
use crate::INSTRUCTION_WRITE;
use crate::INSTRUCTION_XOR;
use crate::REGISTER_COUNT;
use crate::REGISTER_INSTRUCTION_POINTER;
use crate::REGISTER_RETURN_ADDRESS;
use crate::REGISTER_STACK_POINTER;
use crate::REGISTER_ZERO;
use crate::memory::spec_write_u64_at;
use crate::memory::u64_from_le_at;

verus! {

/// The model of a machine state: the register file and the memory.
#[verifier::ext_equal]
pub ghost struct CpuView {
    pub regs: Seq<u64>,
    pub mem: Seq<u8>,
}

impl CpuView {
    /// A state of the machine as it can actually be built: thirteen
    /// registers, and a memory that host addresses can span.
    pub open spec fn wf(self) -> bool {
        &&& self.regs.len() == REGISTER_COUNT
        &&& self.mem.len() <= u64::MAX
    }
}

/// Whether a 4-bit operand field names one of the thirteen registers.
pub open spec fn valid_reg(index: u8) -> bool {
    (index as usize) < REGISTER_COUNT
}

/// The state with `value` placed in register `index`.
pub open spec fn with_reg(s: CpuView, index: u8, value: u64) -> CpuView {
    CpuView { regs: s.regs.update(index as int, value), mem: s.mem }
}

/// The register file of a fresh machine: all registers zero but for the
/// instruction pointer, which holds the start address.
pub open spec fn spec_initial_regs(start_address: u64) -> Seq<u64> {
    Seq::new(
        REGISTER_COUNT as nat,
        |i: int| if i == REGISTER_INSTRUCTION_POINTER as int { start_address } else { 0u64 },
    )
}

/// The state with register 0 reset to zero, as every step begins.
pub open spec fn spec_zero_reg(s: CpuView) -> CpuView {
    with_reg(s, REGISTER_ZERO, 0)
}

/// Fetches one byte at the instruction pointer and advances the pointer, or
/// reports that the pointer is past the end of memory and leaves the state
/// unchanged.
pub open spec fn spec_fetch(s: CpuView) -> (CpuView, Option<u8>) {
    let ip = s.regs[REGISTER_INSTRUCTION_POINTER as int];
    if ip < s.mem.len() {
        (with_reg(s, REGISTER_INSTRUCTION_POINTER, (ip + 1) as u64), Some(s.mem[ip as int]))
    } else {
        (s, None)
    }
}

/// Fetches the 8 bytes at the instruction pointer as one little-endian
/// 64-bit immediate and advances the pointer past them, or reports that they
/// do not all lie in memory and leaves the state unchanged.
pub open spec fn spec_fetch_u64(s: CpuView) -> (CpuView, Option<u64>) {
    let ip = s.regs[REGISTER_INSTRUCTION_POINTER as int];
    if ip + 8 <= s.mem.len() {
        (
            with_reg(s, REGISTER_INSTRUCTION_POINTER, (ip + 8) as u64),
            Some(u64_from_le_at(s.mem, ip as int)),
        )
    } else {
        (s, None)
    }
}

/// The quotient of `x` by `y`, with division by zero defined to yield 0.
pub open spec fn spec_div(x: u64, y: u64) -> u64 {
    if y == 0 {
        0
    } else {
        x / y
    }
}

/// The remainder of `x` by `y`, with a zero divisor defined to yield 0.
pub open spec fn spec_rem(x: u64, y: u64) -> u64 {
    if y == 0 {
        0
    } else {
        x % y
    }
}

/// The value a two-input arithmetic or bitwise instruction computes. Addition,
/// subtraction and multiplication wrap modulo 2^64.
pub open spec fn spec_binop(instruction: u8, x: u64, y: u64) -> u64 {
    if instruction == INSTRUCTION_ADD {
        vstd::wrapping::u64_specs::wrapping_add(x, y)
    } else if instruction == INSTRUCTION_SUB {
        vstd::wrapping::u64_specs::wrapping_sub(x, y)
    } else if instruction == INSTRUCTION_MUL {
        vstd::wrapping::u64_specs::wrapping_mul(x, y)
    } else if instruction == INSTRUCTION_AND {
        x & y
    } else if instruction == INSTRUCTION_OR {
        x | y
    } else {
        x ^ y
    }
}

/// One step within the arithmetic category, after the opcode byte.
pub open spec fn spec_step_arithmetic(s: CpuView, instruction: u8) -> (
    CpuView,
    ControlFlow<CpuStepError>,
) {
    if instruction == INSTRUCTION_NOT {
        let (s1, fetched) = spec_fetch(s);
        match fetched {
            Option::None => (s1, ControlFlow::Break(CpuStepError::OutOfBoundsAddress)),
            Option::Some(operands) => {
                let a = operands & 0x0F;
                let o = (operands & 0xF0) >> 4;
                if !valid_reg(a) || !valid_reg(o) {
                    (s1, ControlFlow::Break(CpuStepError::InvalidRegisterIndex))
                } else {
                    (with_reg(s1, o, !s1.regs[a as int]), ControlFlow::Continue(()))
                }
            },
        }
    } else if instruction <= INSTRUCTION_XOR {
        let (s1, first) = spec_fetch(s);
        match first {
            Option::None => (s1, ControlFlow::Break(CpuStepError::OutOfBoundsAddress)),
            Option::Some(inputs) => {
                let (s2, second) = spec_fetch(s1);
                match second {
                    Option::None => (s2, ControlFlow::Break(CpuStepError::OutOfBoundsAddress)),
                    Option::Some(outputs) => {
                        let a = inputs & 0x0F;
                        let b = (inputs & 0xF0) >> 4;
                        let o = outputs & 0x0F;
                        if instruction == INSTRUCTION_DIVMOD {
                            let r = (outputs & 0xF0) >> 4;
                            if !valid_reg(a) || !valid_reg(b) || !valid_reg(o) || !valid_reg(r) {
                                (s2, ControlFlow::Break(CpuStepError::InvalidRegisterIndex))
                            } else {
                                let s3 = with_reg(
                                    s2,
                                    o,
                                    spec_div(s2.regs[a as int], s2.regs[b as int]),
                                );
                                let s4 = with_reg(
                                    s3,
                                    r,
                                    spec_rem(s3.regs[a as int], s3.regs[b as int]),
                                );
                                (s4, ControlFlow::Continue(()))
                            }
                        } else {
                            if !valid_reg(a) || !valid_reg(b) || !valid_reg(o) {
                                (s2, ControlFlow::Break(CpuStepError::InvalidRegisterIndex))
                            } else {
                                let value = spec_binop(
                                    instruction,
                                    s2.regs[a as int],
                                    s2.regs[b as int],
                                );
                                (with_reg(s2, o, value), ControlFlow::Continue(()))
                            }
                        }
                    },
                }
            },
        }
    } else {
        (s, ControlFlow::Break(CpuStepError::InvalidArithmeticInstruction))
    }
}

/// One step within the memory category, after the opcode byte.
pub open spec fn spec_step_memory(s: CpuView, instruction: u8) -> (
    CpuView,
    ControlFlow<CpuStepError>,
) {
    if instruction == INSTRUCTION_COPY {
        let (s1, fetched) = spec_fetch(s);
        match fetched {
            Option::None => (s1, ControlFlow::Break(CpuStepError::OutOfBoundsAddress)),
            Option::Some(operands) => {
                let a = operands & 0x0F;
                let b = (operands & 0xF0) >> 4;
                if !valid_reg(a) || !valid_reg(b) {
                    (s1, ControlFlow::Break(CpuStepError::InvalidRegisterIndex))
                } else {
                    (with_reg(s1, b, s1.regs[a as int]), ControlFlow::Continue(()))
                }
            },
        }
    } else if instruction == INSTRUCTION_LOAD {
        let (s1, fetched) = spec_fetch(s);
        match fetched {
            Option::None => (s1, ControlFlow::Break(CpuStepError::OutOfBoundsAddress)),
            Option::Some(operand) => {
                let a = operand & 0x0F;
                let (s2, imm) = spec_fetch_u64(s1);
                match imm {
                    Option::None => (s2, ControlFlow::Break(CpuStepError::OutOfBoundsAddress)),
                    Option::Some(value) => {
                        if !valid_reg(a) {
                            (s2, ControlFlow::Break(CpuStepError::InvalidRegisterIndex))
                        } else {
                            (with_reg(s2, a, value), ControlFlow::Continue(()))
                        }
                    },
                }
            },
        }
    } else if instruction == INSTRUCTION_READ {
        let (s1, fetched) = spec_fetch(s);
        match fetched {
            Option::None => (s1, ControlFlow::Break(CpuStepError::OutOfBoundsAddress)),
            Option::Some(operands) => {
                let a = operands & 0x0F;
                let b = (operands & 0xF0) >> 4;
                if !valid_reg(a) || !valid_reg(b) {
                    (s1, ControlFlow::Break(CpuStepError::InvalidRegisterIndex))
                } else {
                    let address = s1.regs[a as int];
                    if address + 8 <= s1.mem.len() {
                        (
                            with_reg(s1, b, u64_from_le_at(s1.mem, address as int)),
                            ControlFlow::Continue(()),
                        )
                    } else {
                        (s1, ControlFlow::Break(CpuStepError::OutOfBoundsAddress))
                    }
                }
            },
        }
    } else if instruction == INSTRUCTION_WRITE {
        let (s1, fetched) = spec_fetch(s);
        match fetched {
            Option::None => (s1, ControlFlow::Break(CpuStepError::OutOfBoundsAddress)),
            Option::Some(operands) => {
                let a = operands & 0x0F;
                let b = (operands & 0xF0) >> 4;
                if !valid_reg(a) || !valid_reg(b) {
                    (s1, ControlFlow::Break(CpuStepError::InvalidRegisterIndex))
                } else {
                    let address = s1.regs[b as int];
                    if address + 8 <= s1.mem.len() {
                        (
                            CpuView {
                                regs: s1.regs,
                                mem: spec_write_u64_at(s1.mem, address as int, s1.regs[a as int]),
                            },
                            ControlFlow::Continue(()),
                        )
                    } else {
                        (s1, ControlFlow::Break(CpuStepError::OutOfBoundsAddress))
                    }
                }
            },
        }
    } else if instruction == INSTRUCTION_PUSH {
        let (s1, fetched) = spec_fetch(s);
        match fetched {
            Option::None => (s1, ControlFlow::Break(CpuStepError::OutOfBoundsAddress)),
            Option::Some(operands) => {
                let a = operands & 0x0F;
                if !valid_reg(a) {
                    (s1, ControlFlow::Break(CpuStepError::InvalidRegisterIndex))
                } else {
                    let sp = s1.regs[REGISTER_STACK_POINTER as int];
                    if 8 <= sp && sp <= s1.mem.len() {
                        let s2 = with_reg(s1, REGISTER_STACK_POINTER, (sp - 8) as u64);
                        (
                            CpuView {
                                regs: s2.regs,
                                mem: spec_write_u64_at(s2.mem, sp - 8, s2.regs[a as int]),
                            },
                            ControlFlow::Continue(()),
                        )
                    } else {
                        (s1, ControlFlow::Break(CpuStepError::OutOfBoundsAddress))
                    }
                }
            },
        }
    } else if instruction == INSTRUCTION_POP {
        let (s1, fetched) = spec_fetch(s);
        match fetched {
            Option::None => (s1, ControlFlow::Break(CpuStepError::OutOfBoundsAddress)),
            Option::Some(operands) => {
                let a = operands & 0x0F;
                if !valid_reg(a) {
                    (s1, ControlFlow::Break(CpuStepError::InvalidRegisterIndex))
                } else {
                    let sp = s1.regs[REGISTER_STACK_POINTER as int];
                    if sp + 8 <= s1.mem.len() {
                        let s2 = with_reg(s1, a, u64_from_le_at(s1.mem, sp as int));
                        let s3 = with_reg(
                            s2,
                            REGISTER_STACK_POINTER,
                            vstd::wrapping::u64_specs::wrapping_add(
                                s2.regs[REGISTER_STACK_POINTER as int],
                                8,
                            ),
                        );
                        (s3, ControlFlow::Continue(()))
                    } else {
                        (s1, ControlFlow::Break(CpuStepError::OutOfBoundsAddress))
                    }
                }
            },
        }
    } else {
        (s, ControlFlow::Break(CpuStepError::InvalidMemoryInstruction))
    }
}

/// One step within the control-flow category, after the opcode byte.
pub open spec fn spec_step_control_flow(s: CpuView, instruction: u8) -> (
    CpuView,
    ControlFlow<CpuStepError>,
) {
    if instruction == INSTRUCTION_HALT {
        (s, ControlFlow::Break(CpuStepError::Halt))
    } else if instruction == INSTRUCTION_CALL {
        let (s1, fetched) = spec_fetch(s);
        match fetched {
            Option::None => (s1, ControlFlow::Break(CpuStepError::OutOfBoundsAddress)),
            Option::Some(operands) => {
                let a = operands & 0x0F;
                if !valid_reg(a) {
                    (s1, ControlFlow::Break(CpuStepError::InvalidRegisterIndex))
                } else {
                    let s2 = with_reg(
                        s1,
                        REGISTER_RETURN_ADDRESS,
                        s1.regs[REGISTER_INSTRUCTION_POINTER as int],
                    );
                    let s3 = with_reg(s2, REGISTER_INSTRUCTION_POINTER, s2.regs[a as int]);
                    (s3, ControlFlow::Continue(()))
                }
            },
        }
    } else {
        (s, ControlFlow::Break(CpuStepError::InvalidControlFlowInstruction))
    }
}

/// One step from a state whose register 0 is already reset: fetch the opcode,
/// split it into its category and instruction nibbles, and dispatch.
pub open spec fn spec_dispatch(s: CpuView) -> (CpuView, ControlFlow<CpuStepError>) {
    let (s1, fetched) = spec_fetch(s);
    match fetched {
        Option::None => (s1, ControlFlow::Break(CpuStepError::OutOfBoundsAddress)),
        Option::Some(opcode) => {
            let category = opcode & 0x0F;
            let instruction = (opcode & 0xF0) >> 4;
            if category == INSTRUCTION_CATEGORY_INVALID {
                if instruction == INSTRUCTION_INVALID {
                    (s1, ControlFlow::Break(CpuStepError::InvalidInstruction))
                } else {
                    (s1, ControlFlow::Break(CpuStepError::InvalidInvalidInstruction))
                }
            } else if category == INSTRUCTION_CATEGORY_ARITHMETIC {
                spec_step_arithmetic(s1, instruction)
            } else if category == INSTRUCTION_CATEGORY_MEMORY {
                spec_step_memory(s1, instruction)
            } else if category == INSTRUCTION_CATEGORY_CONTROL_FLOW {
                spec_step_control_flow(s1, instruction)
            } else {
                (s1, ControlFlow::Break(CpuStepError::InvalidInstructionCategory))
            }
        },
    }
}

/// One complete fetch/decode/execute cycle: reset register 0, then dispatch
/// on the opcode at the instruction pointer.
pub open spec fn spec_step(pre: CpuView) -> (CpuView, ControlFlow<CpuStepError>) {
    spec_dispatch(spec_zero_reg(pre))
}

/// Add followed by Sub with the same second operand returns the first
/// operand: wrapping arithmetic round-trips under inverse operations modulo
/// 2^64.
pub proof fn lemma_add_sub_round_trip(x: u64, y: u64)
    ensures
        spec_binop(INSTRUCTION_SUB, spec_binop(INSTRUCTION_ADD, x, y), y) == x,
{
}

/// Division and remainder by zero never trap: for any dividend they yield a
/// quotient of 0 and a remainder of 0.
pub proof fn lemma_divmod_by_zero(x: u64)
    ensures
        spec_div(x, 0) == 0,
        spec_rem(x, 0) == 0,
{
}

/// Add followed by Sub through the register file: adding register `b` into
/// register `o` and then subtracting register `b` from it again hands the
/// original value of register `a` to register `t`, whatever the values,
/// because wrapping addition and subtraction are inverses modulo 2^64.
pub proof fn lemma_add_sub_step_round_trip(s: CpuView, a: u8, b: u8, o: u8, t: u8)
    requires
        s.wf(),
        4 <= a < 13,
        4 <= b < 13,
        4 <= o < 13,
        4 <= t < 13,
        o != b,
        s.regs[REGISTER_INSTRUCTION_POINTER as int] + 6 <= s.mem.len(),
        s.mem[s.regs[REGISTER_INSTRUCTION_POINTER as int] as int] == (
        INSTRUCTION_CATEGORY_ARITHMETIC | (INSTRUCTION_ADD << 4)),
        s.mem[s.regs[REGISTER_INSTRUCTION_POINTER as int] as int + 1] == (a | (b << 4)),
        s.mem[s.regs[REGISTER_INSTRUCTION_POINTER as int] as int + 2] == o,
        s.mem[s.regs[REGISTER_INSTRUCTION_POINTER as int] as int + 3] == (
        INSTRUCTION_CATEGORY_ARITHMETIC | (INSTRUCTION_SUB << 4)),
        s.mem[s.regs[REGISTER_INSTRUCTION_POINTER as int] as int + 4] == (o | (b << 4)),
        s.mem[s.regs[REGISTER_INSTRUCTION_POINTER as int] as int + 5] == t,
    ensures
        ({
            let (s1, first) = spec_step(s);
            let (s2, second) = spec_step(s1);
            &&& first == ControlFlow::<CpuStepError>::Continue(())
            &&& second == ControlFlow::<CpuStepError>::Continue(())
            &&& s2.regs[t as int] == s.regs[a as int]
        }),
{
    assert((INSTRUCTION_CATEGORY_ARITHMETIC | (INSTRUCTION_ADD << 4)) & 0x0F
        == INSTRUCTION_CATEGORY_ARITHMETIC) by (bit_vector);
    assert(((INSTRUCTION_CATEGORY_ARITHMETIC | (INSTRUCTION_ADD << 4)) & 0xF0) >> 4
        == INSTRUCTION_ADD) by (bit_vector);
    assert((INSTRUCTION_CATEGORY_ARITHMETIC | (INSTRUCTION_SUB << 4)) & 0x0F
        == INSTRUCTION_CATEGORY_ARITHMETIC) by (bit_vector);
    assert(((INSTRUCTION_CATEGORY_ARITHMETIC | (INSTRUCTION_SUB << 4)) & 0xF0) >> 4
        == INSTRUCTION_SUB) by (bit_vector);
    assert((a | (b << 4)) & 0x0F == a && ((a | (b << 4)) & 0xF0) >> 4 == b) by (bit_vector)
        requires
            a < 13 && b < 13,
    ;
    assert((o | (b << 4)) & 0x0F == o && ((o | (b << 4)) & 0xF0) >> 4 == b) by (bit_vector)
        requires
            o < 13 && b < 13,
    ;
    assert(o & 0x0F == o) by (bit_vector)
        requires
            o < 13,
    ;
    assert(t & 0x0F == t) by (bit_vector)
        requires
            t < 13,
    ;
    lemma_add_sub_round_trip(s.regs[a as int], s.regs[b as int]);
}

/// DivMod through the register file: when the divisor register holds 0, the
/// quotient and remainder registers both receive 0, for any dividend.
pub proof fn lemma_divmod_by_zero_step(s: CpuView, a: u8, b: u8, o: u8, r: u8)
    requires
        s.wf(),
        valid_reg(a),
        4 <= b < 13,
        valid_reg(o),
        valid_reg(r),
        s.regs[b as int] == 0,
        s.regs[REGISTER_INSTRUCTION_POINTER as int] + 3 <= s.mem.len(),
        s.mem[s.regs[REGISTER_INSTRUCTION_POINTER as int] as int] == (
        INSTRUCTION_CATEGORY_ARITHMETIC | (INSTRUCTION_DIVMOD << 4)),
        s.mem[s.regs[REGISTER_INSTRUCTION_POINTER as int] as int + 1] == (a | (b << 4)),
        s.mem[s.regs[REGISTER_INSTRUCTION_POINTER as int] as int + 2] == (o | (r << 4)),
    ensures
        spec_step(s).1 == ControlFlow::<CpuStepError>::Continue(()),
        spec_step(s).0.regs[o as int] == 0,
        spec_step(s).0.regs[r as int] == 0,
{
    assert((INSTRUCTION_CATEGORY_ARITHMETIC | (INSTRUCTION_DIVMOD << 4)) & 0x0F
        == INSTRUCTION_CATEGORY_ARITHMETIC) by (bit_vector);
    assert(((INSTRUCTION_CATEGORY_ARITHMETIC | (INSTRUCTION_DIVMOD << 4)) & 0xF0) >> 4
        == INSTRUCTION_DIVMOD) by (bit_vector);
    assert((a | (b << 4)) & 0x0F == a && ((a | (b << 4)) & 0xF0) >> 4 == b) by (bit_vector)
        requires
            a < 13 && b < 13,
    ;
    assert((o | (r << 4)) & 0x0F == o && ((o | (r << 4)) & 0xF0) >> 4 == r) by (bit_vector)
        requires
            o < 13 && r < 13,
    ;
}

/// A step's entire outcome is independent of what the previous instruction
/// left in register 0: the register is reset before decoding begins, so
/// register 0 always reads 0 at the start of decoding the instruction that
/// follows any write to it.
pub proof fn lemma_step_ignores_register_zero(s: CpuView, value: u64)
    requires
        s.wf(),
    ensures
        spec_step(CpuView { regs: s.regs.update(REGISTER_ZERO as int, value), mem: s.mem })
            == spec_step(s),
{
    assert(s.regs.update(REGISTER_ZERO as int, value).update(REGISTER_ZERO as int, 0u64)
        =~= s.regs.update(REGISTER_ZERO as int, 0u64));
    assert(spec_zero_reg(CpuView { regs: s.regs.update(REGISTER_ZERO as int, value), mem: s.mem })
        == spec_zero_reg(s));
}

/// A step that fetches the halt opcode stops with reason `Halt` and changes
/// nothing but the instruction pointer, which moves past the opcode, and
/// register 0, which every step resets.
pub proof fn lemma_halt_step(s: CpuView)
    requires
        s.wf(),
        s.regs[REGISTER_INSTRUCTION_POINTER as int] < s.mem.len(),
        s.mem[s.regs[REGISTER_INSTRUCTION_POINTER as int] as int] == (
        INSTRUCTION_CATEGORY_CONTROL_FLOW | (INSTRUCTION_HALT << 4)),
    ensures
        spec_step(s).1 == ControlFlow::<CpuStepError>::Break(CpuStepError::Halt),
        spec_step(s).0.mem == s.mem,
        spec_step(s).0.regs[REGISTER_ZERO as int] == 0,
        spec_step(s).0.regs[REGISTER_INSTRUCTION_POINTER as int] == s.regs[
            REGISTER_INSTRUCTION_POINTER as int
        ] + 1,
        forall|i: int|
            0 <= i < REGISTER_COUNT && i != REGISTER_ZERO as int && i
                != REGISTER_INSTRUCTION_POINTER as int ==> spec_step(s).0.regs[i] == s.regs[i],
{
    assert((INSTRUCTION_CATEGORY_CONTROL_FLOW | (INSTRUCTION_HALT << 4)) & 0x0F
        == INSTRUCTION_CATEGORY_CONTROL_FLOW) by (bit_vector);
    assert(((INSTRUCTION_CATEGORY_CONTROL_FLOW | (INSTRUCTION_HALT << 4)) & 0xF0) >> 4
        == INSTRUCTION_HALT) by (bit_vector);
}

/// A call saves the instruction pointer as it stands immediately after its
/// operand byte was fetched into the return-address register, then jumps to
/// the target register's value as the register file stands at that moment:
/// the original value for a general-purpose target, 0 for register 0, and
/// the freshly written addresses for the instruction-pointer and
/// return-address registers themselves.
pub proof fn lemma_call_step(s: CpuView, a: u8)
    requires
        s.wf(),
        valid_reg(a),
        s.regs[REGISTER_INSTRUCTION_POINTER as int] + 2 <= s.mem.len(),
        s.mem[s.regs[REGISTER_INSTRUCTION_POINTER as int] as int] == (
        INSTRUCTION_CATEGORY_CONTROL_FLOW | (INSTRUCTION_CALL << 4)),
        s.mem[s.regs[REGISTER_INSTRUCTION_POINTER as int] as int + 1] == a,
    ensures
        spec_step(s).1 == ControlFlow::<CpuStepError>::Continue(()),
        spec_step(s).0.mem == s.mem,
        spec_step(s).0.regs[REGISTER_RETURN_ADDRESS as int] == s.regs[
            REGISTER_INSTRUCTION_POINTER as int
        ] + 2,
        spec_step(s).0.regs[REGISTER_INSTRUCTION_POINTER as int] == (if a == REGISTER_ZERO {
            0u64
        } else if a == REGISTER_INSTRUCTION_POINTER || a == REGISTER_RETURN_ADDRESS {
            (s.regs[REGISTER_INSTRUCTION_POINTER as int] + 2) as u64
        } else {
            s.regs[a as int]
        }),
{
    assert((INSTRUCTION_CATEGORY_CONTROL_FLOW | (INSTRUCTION_CALL << 4)) & 0x0F
        == INSTRUCTION_CATEGORY_CONTROL_FLOW) by (bit_vector);
    assert(((INSTRUCTION_CATEGORY_CONTROL_FLOW | (INSTRUCTION_CALL << 4)) & 0xF0) >> 4
        == INSTRUCTION_CALL) by (bit_vector);
    assert(a & 0x0F == a) by (bit_vector)
        requires
            a < 13,
    ;
}

/// Pushing a general-purpose register and popping back into it restores the
/// register's value and leaves the stack pointer where it started, provided
/// the pushed bytes do not land on the pop instruction itself.
pub proof fn lemma_push_pop_round_trip(s: CpuView, a: u8)
    requires
        s.wf(),
        4 <= a < 13,
        s.regs[REGISTER_INSTRUCTION_POINTER as int] + 4 <= s.mem.len(),
        s.mem[s.regs[REGISTER_INSTRUCTION_POINTER as int] as int] == (INSTRUCTION_CATEGORY_MEMORY
            | (INSTRUCTION_PUSH << 4)),
        s.mem[s.regs[REGISTER_INSTRUCTION_POINTER as int] as int + 1] == a,
        s.mem[s.regs[REGISTER_INSTRUCTION_POINTER as int] as int + 2] == (
        INSTRUCTION_CATEGORY_MEMORY | (INSTRUCTION_POP << 4)),
        s.mem[s.regs[REGISTER_INSTRUCTION_POINTER as int] as int + 3] == a,
        8 <= s.regs[REGISTER_STACK_POINTER as int],
        s.regs[REGISTER_STACK_POINTER as int] <= s.mem.len(),
        s.regs[REGISTER_STACK_POINTER as int] <= s.regs[REGISTER_INSTRUCTION_POINTER as int] + 2
            || s.regs[REGISTER_INSTRUCTION_POINTER as int] + 4 <= s.regs[
            REGISTER_STACK_POINTER as int
        ] - 8,
    ensures
        ({
            let (s1, first) = spec_step(s);
            let (s2, second) = spec_step(s1);
            &&& first == ControlFlow::<CpuStepError>::Continue(())
            &&& second == ControlFlow::<CpuStepError>::Continue(())
            &&& s2.regs[a as int] == s.regs[a as int]
            &&& s2.regs[REGISTER_STACK_POINTER as int] == s.regs[REGISTER_STACK_POINTER as int]
        }),
{
    assert((INSTRUCTION_CATEGORY_MEMORY | (INSTRUCTION_PUSH << 4)) & 0x0F
        == INSTRUCTION_CATEGORY_MEMORY) by (bit_vector);
    assert(((INSTRUCTION_CATEGORY_MEMORY | (INSTRUCTION_PUSH << 4)) & 0xF0) >> 4
        == INSTRUCTION_PUSH) by (bit_vector);
    assert((INSTRUCTION_CATEGORY_MEMORY | (INSTRUCTION_POP << 4)) & 0x0F
        == INSTRUCTION_CATEGORY_MEMORY) by (bit_vector);
    assert(((INSTRUCTION_CATEGORY_MEMORY | (INSTRUCTION_POP << 4)) & 0xF0) >> 4
        == INSTRUCTION_POP) by (bit_vector);
    assert(a & 0x0F == a) by (bit_vector)
        requires
            a < 13,
    ;
    let sp = s.regs[REGISTER_STACK_POINTER as int];
    crate::memory::lemma_write_u64_read_u64(s.mem, sp as int - 8, s.regs[a as int]);
}

} // verus!
