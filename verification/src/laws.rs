//! Properties that relate several operations of the machine, stated over
//! the model in [`crate::state`] and proved once for all inputs.

use vstd::prelude::*;
use vstd::wrapping::i32_specs;

use crate::opcode::opcode_of_byte;
use crate::state::Fault;
use crate::state::INSTRUCTION_CAPACITY;
use crate::state::REGISTER_COUNT;
use crate::state::STACK_CAPACITY;
use crate::state::RunOut;
use crate::state::State;
use crate::state::StepOut;
use crate::state::div_step;
use crate::state::div_wrap;
use crate::state::jmp_step;
use crate::state::jnz_step;
use crate::state::jz_step;
use crate::state::load_step;
use crate::state::pop_value_spec;
use crate::state::push_value_spec;
use crate::state::run_spec;
use crate::state::step_spec;
use crate::state::store_step;
use crate::state::sub_step;
use crate::state::target_at;

verus! {

/// Push/pop round-trip: whenever a push succeeds, popping right after it
/// returns the pushed value and restores the stack pointer, whatever the
/// 32-bit value was.
pub proof fn lemma_push_pop_round_trip(s: State, v: i32)
    requires
        s.wf(),
        s.sp < STACK_CAPACITY - 2,
    ensures
        push_value_spec(s, v) matches Ok(s1) && pop_value_spec(s1) matches Ok(p) && p.1 == v
            && p.0.sp == s.sp && p.0.stack == s.stack.update(s.sp as int, v),
{
}

/// Stack bounds: a push at or beyond the headroom bound is a
/// `StackOverflow`, and a pop on an empty stack is a `StackUnderflow`,
/// in either case with the state left as it was.
pub proof fn lemma_stack_bounds(s: State, v: i32)
    requires
        s.wf(),
    ensures
        s.sp >= STACK_CAPACITY - 2 ==> push_value_spec(s, v) == Err::<State, Fault>(
            Fault::StackOverflow,
        ),
        s.sp == 0 ==> pop_value_spec(s) == Err::<(State, i32), Fault>(Fault::StackUnderflow),
{
}

/// Register round-trip: a STORE of the stack top `v` into register `r`
/// followed by a LOAD of the same register leaves `v` on top of the
/// stack and in the register, for every register index in range.
pub proof fn lemma_store_load_round_trip(s: State, r: u8)
    requires
        s.wf(),
        s.sp >= 1,
        s.sp <= STACK_CAPACITY - 2,
        r < REGISTER_COUNT,
        s.ip + 4 <= INSTRUCTION_CAPACITY,
        s.instrs[s.ip + 1 as int] == r,
        s.instrs[s.ip + 3 as int] == r,
    ensures
        store_step(s) matches StepOut::Next(s1) && load_step(s1) matches StepOut::Next(s2)
            && s2.sp == s.sp && s2.stack[s.sp - 1] == s.stack[s.sp - 1] && s2.regs[r as int]
            == s.stack[s.sp - 1],
{
}

/// Jump determinism: whatever the instruction pointer was, a JMP whose
/// decoded target `t` lies within the loaded program sets it to exactly
/// `t`, and touches nothing else.
pub proof fn lemma_jump_determinism(s: State, t: int)
    requires
        s.wf(),
        s.ip + 3 <= INSTRUCTION_CAPACITY,
        target_at(s.instrs, s.ip + 1 as int) == t,
        t < s.prog_len,
    ensures
        jmp_step(s) matches StepOut::Next(s2) && s2.ip == t && s2.sp == s.sp && s2.stack
            == s.stack && s2.regs == s.regs && s2.out == s.out,
{
}

/// Conditional jumps: JZ jumps exactly when the popped value is zero and
/// JNZ exactly when it is nonzero; in the non-taken case the instruction
/// pointer advances by exactly three.
pub proof fn lemma_conditional_jump(s: State)
    requires
        s.wf(),
        s.sp >= 1,
        s.ip + 3 <= INSTRUCTION_CAPACITY,
    ensures
        s.stack[s.sp - 1] == 0 && target_at(s.instrs, s.ip + 1 as int) < s.prog_len ==> (
        jz_step(s) matches StepOut::Next(s2) && s2.ip == target_at(s.instrs, s.ip + 1 as int)
            && s2.sp == s.sp - 1),
        s.stack[s.sp - 1] != 0 ==> (jz_step(s) matches StepOut::Next(s2) && s2.ip == s.ip + 3
            && s2.sp == s.sp - 1),
        s.stack[s.sp - 1] != 0 && target_at(s.instrs, s.ip + 1 as int) < s.prog_len ==> (
        jnz_step(s) matches StepOut::Next(s2) && s2.ip == target_at(s.instrs, s.ip + 1 as int)
            && s2.sp == s.sp - 1),
        s.stack[s.sp - 1] == 0 ==> (jnz_step(s) matches StepOut::Next(s2) && s2.ip == s.ip + 3
            && s2.sp == s.sp - 1),
{
}

/// Arithmetic ordering: with `a` pushed before `b`, SUB leaves the
/// wrapping difference `a - b` on top (exactly `a - b` when that fits in
/// 32 bits), DIV leaves the wrapping quotient `a / b`, and DIV faults
/// with `DivideByZero` exactly when `b` is zero.
pub proof fn lemma_arith_ordering(s: State, a: i32, b: i32)
    requires
        s.wf(),
        s.sp >= 2,
        s.ip < INSTRUCTION_CAPACITY,
        s.stack[s.sp - 2] == a,
        s.stack[s.sp - 1] == b,
    ensures
        sub_step(s) matches StepOut::Next(s2) && s2.sp == s.sp - 1 && s2.stack[s.sp - 2]
            == i32_specs::wrapping_sub(a, b),
        i32::MIN <= a - b <= i32::MAX ==> (sub_step(s) matches StepOut::Next(s2)
            && s2.stack[s.sp - 2] == a - b),
        b != 0 ==> (div_step(s) matches StepOut::Next(s2) && s2.sp == s.sp - 1
            && s2.stack[s.sp - 2] == div_wrap(a, b)),
        b == 0 ==> div_step(s) == StepOut::Fault(Fault::DivideByZero),
{
}

/// Unknown opcode: a byte that encodes no opcode faults the very next
/// cycle with `InvalidOpcode`, and a run from such a state ends at once
/// instead of hanging, whatever the step budget.
pub proof fn lemma_unknown_opcode(s: State)
    requires
        s.wf(),
        s.ip < INSTRUCTION_CAPACITY,
        opcode_of_byte(s.instrs[s.ip as int]) is None,
    ensures
        step_spec(s) == StepOut::Fault(Fault::InvalidOpcode),
        forall|fuel: nat|
            fuel > 0 ==> run_spec(s, fuel) == RunOut::Faulted(s, Fault::InvalidOpcode),
{
    assert forall|fuel: nat| fuel > 0 implies run_spec(s, fuel) == RunOut::Faulted(
        s,
        Fault::InvalidOpcode,
    ) by {
        reveal_with_fuel(run_spec, 1);
    }
}

} // verus!
