//! The mathematical model of the machine: the ghost state, the per-opcode
//! transition functions, and the fetch-decode-dispatch function that the
//! executable machine is proved against.
//!
//! Policies that the model fixes:
//! - Arithmetic wraps: ADD, SUB, MUL and DIV produce the two's-complement
//!   32-bit result (so dividing `i32::MIN` by `-1` yields `i32::MIN`).
//! - NOP advances the instruction pointer by one, so the zero-filled tail
//!   of the instruction store never stalls the machine.
//! - An unknown opcode is a fatal `InvalidOpcode` fault; execution halts
//!   rather than stalling.
//! - A jump whose target lies at or beyond the loaded program is a fatal
//!   `InvalidJumpTarget` fault, checked at the jump itself.
//! - An instruction whose encoding would run past the end of the
//!   instruction store, or a fetch at its very end, faults with
//!   `InvalidJumpTarget`: the instruction pointer would leave the store.
//! - A faulting cycle leaves the state exactly as it was: every check
//!   precedes every mutation.

use vstd::prelude::*;
use vstd::wrapping::i32_specs;

use crate::opcode::OPCode;
use crate::opcode::opcode_of_byte;

verus! {

/// Number of general-purpose registers in the register file.
pub const REGISTER_COUNT: usize = 16;

/// Capacity of the operand stack, in values.
pub const STACK_CAPACITY: usize = 256;

/// Capacity of the instruction store, in bytes.
pub const INSTRUCTION_CAPACITY: usize = 65536;

/// The model of the whole machine state.
///
/// `sp` counts the live values on the operand stack: only `stack` indices
/// below `sp` are meaningful.  `prog_len` is the length of the loaded
/// program; the rest of `instrs` is zero-filled.
#[verifier::ext_equal]
pub ghost struct State {
    pub ip: nat,
    pub sp: nat,
    pub regs: Seq<i32>,
    pub stack: Seq<i32>,
    pub instrs: Seq<u8>,
    pub prog_len: nat,
    pub out: Seq<i32>,
}

impl State {
    /// Well-formedness: the buffers have their fixed capacities and the
    /// two pointers stay within bounds.  The instruction pointer may rest
    /// at the very end of the store; the next fetch then faults.
    pub open spec fn wf(self) -> bool {
        &&& self.regs.len() == REGISTER_COUNT
        &&& self.stack.len() == STACK_CAPACITY
        &&& self.instrs.len() == INSTRUCTION_CAPACITY
        &&& self.sp <= STACK_CAPACITY
        &&& self.ip <= INSTRUCTION_CAPACITY
        &&& self.prog_len <= INSTRUCTION_CAPACITY
    }
}

/// The fatal conditions.  Every one of them aborts the current run.
#[derive(Clone, Copy, Debug, PartialEq, Eq, Structural)]
pub enum Fault {
    /// The program does not fit into the instruction store.
    ProgramTooLarge,
    /// A push was attempted with the stack at or beyond its headroom bound.
    StackOverflow,
    /// A pop was attempted on an empty stack.
    StackUnderflow,
    /// A register index outside the register file.
    InvalidRegister,
    /// The instruction pointer would leave the loaded program or the store.
    InvalidJumpTarget,
    /// DIV with divisor zero.
    DivideByZero,
    /// The byte at the instruction pointer encodes no opcode.
    InvalidOpcode,
}

/// Outcome of one fetch-decode-dispatch cycle.
pub ghost enum StepOut {
    /// The cycle ran; execution continues from the new state.
    Next(State),
    /// The cycle fetched STOP; the state is unchanged.
    Halt,
    /// The cycle faulted; the state is unchanged.
    Fault(Fault),
}

/// Outcome of a bounded run.
pub ghost enum RunOut {
    /// STOP was reached; the final state.
    Halted(State),
    /// The step budget ran out; the state reached so far.
    OutOfSteps(State),
    /// A cycle faulted; the state at the fault, whose `ip` locates it.
    Faulted(State, Fault),
}

/// The unsigned value of four little-endian bytes.
pub open spec fn word_val(b0: u8, b1: u8, b2: u8, b3: u8) -> int {
    b0 + 0x100 * b1 + 0x1_0000 * b2 + 0x100_0000 * b3
}

/// Reinterpret an unsigned 32-bit value as two's-complement signed.
pub open spec fn as_signed_32(w: int) -> int {
    if w >= 0x8000_0000 {
        w - 0x1_0000_0000
    } else {
        w
    }
}

/// The signed 32-bit immediate stored little-endian at `i`.
pub open spec fn immediate_at(instrs: Seq<u8>, i: int) -> int {
    as_signed_32(word_val(instrs[i], instrs[i + 1], instrs[i + 2], instrs[i + 3]))
}

/// The absolute 16-bit jump target stored little-endian at `i`.
pub open spec fn target_at(instrs: Seq<u8>, i: int) -> int {
    instrs[i] + 0x100 * instrs[i + 1]
}

/// The wrapping 32-bit quotient, truncated toward zero.  The divisor must
/// be nonzero; the only wrapping case is `i32::MIN / -1`.
pub open spec fn div_wrap(a: i32, b: i32) -> i32 {
    match a.checked_div(b) {
        Some(q) => q,
        None => i32::MIN,
    }
}

/// The push primitive: fails once the stack pointer reaches the headroom
/// bound, two slots short of the full capacity.  Leaves `ip` alone.
pub open spec fn push_value_spec(s: State, v: i32) -> Result<State, Fault> {
    if s.sp >= STACK_CAPACITY - 2 {
        Err(Fault::StackOverflow)
    } else {
        Ok(State { sp: s.sp + 1, stack: s.stack.update(s.sp as int, v), ..s })
    }
}

/// The pop primitive: fails on an empty stack, otherwise removes and
/// returns the top value.  Leaves `ip` alone.
pub open spec fn pop_value_spec(s: State) -> Result<(State, i32), Fault> {
    if s.sp == 0 {
        Err(Fault::StackUnderflow)
    } else {
        Ok((State { sp: (s.sp - 1) as nat, ..s }, s.stack[s.sp - 1]))
    }
}

/// NOP: advance by one.
pub open spec fn nop_step(s: State) -> StepOut {
    if s.ip + 1 > INSTRUCTION_CAPACITY {
        StepOut::Fault(Fault::InvalidJumpTarget)
    } else {
        StepOut::Next(State { ip: s.ip + 1, ..s })
    }
}

/// PUSH: decode the 4-byte immediate after the opcode, push it, advance
/// by the instruction width of five.
pub open spec fn push_step(s: State) -> StepOut {
    if s.ip + 5 > INSTRUCTION_CAPACITY {
        StepOut::Fault(Fault::InvalidJumpTarget)
    } else {
        match push_value_spec(s, immediate_at(s.instrs, s.ip + 1 as int) as i32) {
            Err(f) => StepOut::Fault(f),
            Ok(s1) => StepOut::Next(State { ip: s.ip + 5, ..s1 }),
        }
    }
}

/// POP: discard the top of the stack, advance by one.
pub open spec fn pop_step(s: State) -> StepOut {
    if s.ip + 1 > INSTRUCTION_CAPACITY {
        StepOut::Fault(Fault::InvalidJumpTarget)
    } else {
        match pop_value_spec(s) {
            Err(f) => StepOut::Fault(f),
            Ok(p) => StepOut::Next(State { ip: s.ip + 1, ..p.0 }),
        }
    }
}

/// LOAD r: push the value of register `r`, advance by two.
pub open spec fn load_step(s: State) -> StepOut {
    if s.ip + 2 > INSTRUCTION_CAPACITY {
        StepOut::Fault(Fault::InvalidJumpTarget)
    } else {
        let r = s.instrs[s.ip + 1 as int];
        if r >= REGISTER_COUNT {
            StepOut::Fault(Fault::InvalidRegister)
        } else {
            match push_value_spec(s, s.regs[r as int]) {
                Err(f) => StepOut::Fault(f),
                Ok(s1) => StepOut::Next(State { ip: s.ip + 2, ..s1 }),
            }
        }
    }
}

/// STORE r: pop the top of the stack into register `r`, advance by two.
pub open spec fn store_step(s: State) -> StepOut {
    if s.ip + 2 > INSTRUCTION_CAPACITY {
        StepOut::Fault(Fault::InvalidJumpTarget)
    } else {
        let r = s.instrs[s.ip + 1 as int];
        if r >= REGISTER_COUNT {
            StepOut::Fault(Fault::InvalidRegister)
        } else {
            match pop_value_spec(s) {
                Err(f) => StepOut::Fault(f),
                Ok(p) => StepOut::Next(
                    State { ip: s.ip + 2, regs: p.0.regs.update(r as int, p.1), ..p.0 },
                ),
            }
        }
    }
}

/// JMP: set the instruction pointer to the absolute 16-bit target, which
/// must lie within the loaded program.
pub open spec fn jmp_step(s: State) -> StepOut {
    if s.ip + 3 > INSTRUCTION_CAPACITY {
        StepOut::Fault(Fault::InvalidJumpTarget)
    } else {
        let t = target_at(s.instrs, s.ip + 1 as int);
        if t >= s.prog_len {
            StepOut::Fault(Fault::InvalidJumpTarget)
        } else {
            StepOut::Next(State { ip: t as nat, ..s })
        }
    }
}

/// JZ: pop; jump if the popped value is zero, else advance by three.
pub open spec fn jz_step(s: State) -> StepOut {
    if s.ip + 3 > INSTRUCTION_CAPACITY {
        StepOut::Fault(Fault::InvalidJumpTarget)
    } else {
        match pop_value_spec(s) {
            Err(f) => StepOut::Fault(f),
            Ok(p) => if p.1 == 0 {
                let t = target_at(s.instrs, s.ip + 1 as int);
                if t >= s.prog_len {
                    StepOut::Fault(Fault::InvalidJumpTarget)
                } else {
                    StepOut::Next(State { ip: t as nat, ..p.0 })
                }
            } else {
                StepOut::Next(State { ip: s.ip + 3, ..p.0 })
            },
        }
    }
}

/// JNZ: pop; jump if the popped value is nonzero, else advance by three.
pub open spec fn jnz_step(s: State) -> StepOut {
    if s.ip + 3 > INSTRUCTION_CAPACITY {
        StepOut::Fault(Fault::InvalidJumpTarget)
    } else {
        match pop_value_spec(s) {
            Err(f) => StepOut::Fault(f),
            Ok(p) => if p.1 != 0 {
                let t = target_at(s.instrs, s.ip + 1 as int);
                if t >= s.prog_len {
                    StepOut::Fault(Fault::InvalidJumpTarget)
                } else {
                    StepOut::Next(State { ip: t as nat, ..p.0 })
                }
            } else {
                StepOut::Next(State { ip: s.ip + 3, ..p.0 })
            },
        }
    }
}

/// ADD: pop `s1` (most recently pushed) then `s2`, push the wrapping sum,
/// advance by one.
pub open spec fn add_step(s: State) -> StepOut {
    if s.ip + 1 > INSTRUCTION_CAPACITY {
        StepOut::Fault(Fault::InvalidJumpTarget)
    } else if s.sp < 2 {
        StepOut::Fault(Fault::StackUnderflow)
    } else {
        let s1 = s.stack[s.sp - 1];
        let s2 = s.stack[s.sp - 2];
        StepOut::Next(
            State {
                ip: s.ip + 1,
                sp: (s.sp - 1) as nat,
                stack: s.stack.update(s.sp - 2, i32_specs::wrapping_add(s1, s2)),
                ..s
            },
        )
    }
}

/// SUB: pop `s1` then `s2`, push the wrapping difference `s2 - s1`, so a
/// value pushed earlier is the minuend.
pub open spec fn sub_step(s: State) -> StepOut {
    if s.ip + 1 > INSTRUCTION_CAPACITY {
        StepOut::Fault(Fault::InvalidJumpTarget)
    } else if s.sp < 2 {
        StepOut::Fault(Fault::StackUnderflow)
    } else {
        let s1 = s.stack[s.sp - 1];
        let s2 = s.stack[s.sp - 2];
        StepOut::Next(
            State {
                ip: s.ip + 1,
                sp: (s.sp - 1) as nat,
                stack: s.stack.update(s.sp - 2, i32_specs::wrapping_sub(s2, s1)),
                ..s
            },
        )
    }
}

/// MUL: pop `s1` then `s2`, push the wrapping product, advance by one.
pub open spec fn mul_step(s: State) -> StepOut {
    if s.ip + 1 > INSTRUCTION_CAPACITY {
        StepOut::Fault(Fault::InvalidJumpTarget)
    } else if s.sp < 2 {
        StepOut::Fault(Fault::StackUnderflow)
    } else {
        let s1 = s.stack[s.sp - 1];
        let s2 = s.stack[s.sp - 2];
        StepOut::Next(
            State {
                ip: s.ip + 1,
                sp: (s.sp - 1) as nat,
                stack: s.stack.update(s.sp - 2, i32_specs::wrapping_mul(s2, s1)),
                ..s
            },
        )
    }
}

/// DIV: pop `s1` then `s2`, push the wrapping quotient `s2 / s1`, so a
/// value pushed earlier is the dividend.  A zero divisor faults.
pub open spec fn div_step(s: State) -> StepOut {
    if s.ip + 1 > INSTRUCTION_CAPACITY {
        StepOut::Fault(Fault::InvalidJumpTarget)
    } else if s.sp < 2 {
        StepOut::Fault(Fault::StackUnderflow)
    } else {
        let s1 = s.stack[s.sp - 1];
        let s2 = s.stack[s.sp - 2];
        if s1 == 0 {
            StepOut::Fault(Fault::DivideByZero)
        } else {
            StepOut::Next(
                State {
                    ip: s.ip + 1,
                    sp: (s.sp - 1) as nat,
                    stack: s.stack.update(s.sp - 2, div_wrap(s2, s1)),
                    ..s
                },
            )
        }
    }
}

/// PRINT: pop the top value and append it to the output, advance by one.
pub open spec fn print_step(s: State) -> StepOut {
    if s.ip + 1 > INSTRUCTION_CAPACITY {
        StepOut::Fault(Fault::InvalidJumpTarget)
    } else {
        match pop_value_spec(s) {
            Err(f) => StepOut::Fault(f),
            Ok(p) => StepOut::Next(State { ip: s.ip + 1, out: p.0.out.push(p.1), ..p.0 }),
        }
    }
}

/// One fetch-decode-dispatch cycle: fetch the byte at the instruction
/// pointer, decode it, and apply the opcode's transition.
pub open spec fn step_spec(s: State) -> StepOut {
    if s.ip >= INSTRUCTION_CAPACITY {
        StepOut::Fault(Fault::InvalidJumpTarget)
    } else {
        match opcode_of_byte(s.instrs[s.ip as int]) {
            None => StepOut::Fault(Fault::InvalidOpcode),
            Some(OPCode::NOP) => nop_step(s),
            Some(OPCode::PUSH) => push_step(s),
            Some(OPCode::POP) => pop_step(s),
            Some(OPCode::LOAD) => load_step(s),
            Some(OPCode::STORE) => store_step(s),
            Some(OPCode::JMP) => jmp_step(s),
            Some(OPCode::JZ) => jz_step(s),
            Some(OPCode::JNZ) => jnz_step(s),
            Some(OPCode::ADD) => add_step(s),
            Some(OPCode::SUB) => sub_step(s),
            Some(OPCode::MUL) => mul_step(s),
            Some(OPCode::DIV) => div_step(s),
            Some(OPCode::PRINT) => print_step(s),
            Some(OPCode::STOP) => StepOut::Halt,
        }
    }
}

/// Run at most `fuel` cycles from `s`.
pub open spec fn run_spec(s: State, fuel: nat) -> RunOut
    decreases fuel,
{
    if fuel == 0 {
        RunOut::OutOfSteps(s)
    } else {
        match step_spec(s) {
            StepOut::Halt => RunOut::Halted(s),
            StepOut::Fault(f) => RunOut::Faulted(s, f),
            StepOut::Next(s2) => run_spec(s2, (fuel - 1) as nat),
        }
    }
}

/// The state of a freshly constructed machine: everything zeroed.
pub open spec fn initial_state() -> State {
    State {
        ip: 0,
        sp: 0,
        regs: Seq::new(REGISTER_COUNT as nat, |i: int| 0i32),
        stack: Seq::new(STACK_CAPACITY as nat, |i: int| 0i32),
        instrs: Seq::new(INSTRUCTION_CAPACITY as nat, |i: int| 0u8),
        prog_len: 0,
        out: Seq::empty(),
    }
}

/// A program padded with zeroes to the full instruction store capacity.
pub open spec fn padded_program(p: Seq<u8>) -> Seq<u8> {
    Seq::new(INSTRUCTION_CAPACITY as nat, |i: int| if i < p.len() {
        p[i]
    } else {
        0u8
    })
}

} // verus!
