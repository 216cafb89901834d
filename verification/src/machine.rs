//! The executable virtual machine, proved cycle for cycle against the
//! model in [`crate::state`].
//!
//! Every handler either completes its instruction or faults with the
//! state untouched; the fault report carries the fault kind and the
//! instruction pointer at the time of failure.  Output is collected in
//! the machine's own sink, `output`, so a caller or a test can inspect
//! what PRINT emitted.
//!
//! A caller that wants per-cycle observability drives [`VM::step`] itself
//! instead of [`VM::execute`]: the whole state is readable between
//! cycles, which replaces a hard-wired trace stream.

use vstd::prelude::*;

use crate::opcode::OPCode;
use crate::state::Fault;
use crate::state::INSTRUCTION_CAPACITY;
use crate::state::REGISTER_COUNT;
use crate::state::STACK_CAPACITY;
use crate::state::RunOut;
use crate::state::State;
use crate::state::StepOut;
use crate::state::add_step;
use crate::state::as_signed_32;
use crate::state::div_step;
use crate::state::div_wrap;
use crate::state::initial_state;
use crate::state::jmp_step;
use crate::state::jnz_step;
use crate::state::jz_step;
use crate::state::load_step;
use crate::state::mul_step;
use crate::state::nop_step;
use crate::state::padded_program;
use crate::state::pop_step;
use crate::state::pop_value_spec;
use crate::state::print_step;
use crate::state::push_step;
use crate::state::push_value_spec;
use crate::state::run_spec;
use crate::state::step_spec;
use crate::state::store_step;
use crate::state::sub_step;
use crate::state::word_val;

verus! {

/// A fault report: the fault kind and the instruction pointer at the
/// time of failure.
#[derive(Clone, Copy, Debug, PartialEq, Eq, Structural)]
pub struct VmError {
    pub kind: Fault,
    pub ip: usize,
}

/// What a successful dispatch cycle did.
#[derive(Clone, Copy, Debug, PartialEq, Eq, Structural)]
pub enum StepEvent {
    /// An instruction ran; execution may continue.
    Ran,
    /// STOP was fetched; the run is over.
    Halted,
}

/// How a successful bounded run ended.
#[derive(Clone, Copy, Debug, PartialEq, Eq, Structural)]
pub enum ExecEvent {
    /// STOP was reached.
    Halted,
    /// The step budget ran out first.
    OutOfSteps,
}

/// The virtual machine: a fixed instruction store, a register file, an
/// operand stack, and the two pointers.  All buffers are fixed at
/// construction and never grow.
pub struct VM {
    /// Count of live values on the operand stack.
    pub sp: usize,
    /// Offset of the next opcode to fetch.
    pub ip: usize,
    /// The register file, `REGISTER_COUNT` signed 32-bit values.
    pub registers: Vec<i32>,
    /// The operand stack, `STACK_CAPACITY` slots; only those below `sp`
    /// are live.
    pub stack: Vec<i32>,
    /// The instruction store, `INSTRUCTION_CAPACITY` bytes; the loaded
    /// program is a prefix, the tail is zero.
    pub instructions: Vec<u8>,
    /// Length of the loaded program.
    pub program_len: usize,
    /// The output sink: everything PRINT emitted, in order.
    pub output: Vec<i32>,
}

impl View for VM {
    type V = State;

    open spec fn view(&self) -> State {
        State {
            ip: self.ip as nat,
            sp: self.sp as nat,
            regs: self.registers@,
            stack: self.stack@,
            instrs: self.instructions@,
            prog_len: self.program_len as nat,
            out: self.output@,
        }
    }
}

/// A vector of `n` zero values.
fn zeroed_i32(n: usize) -> (v: Vec<i32>)
    ensures
        v@ == Seq::new(n as nat, |i: int| 0i32),
{
    let mut v: Vec<i32> = Vec::new();
    let mut i: usize = 0;
    while i < n
        invariant
            i <= n,
            v@.len() == i,
            forall|j: int| 0 <= j < i ==> v@[j] == 0i32,
        decreases n - i,
    {
        v.push(0);
        i = i + 1;
    }
    proof {
        assert(v@ =~= Seq::new(n as nat, |i: int| 0i32));
    }
    v
}

/// A vector of `n` zero bytes.
fn zeroed_u8(n: usize) -> (v: Vec<u8>)
    ensures
        v@ == Seq::new(n as nat, |i: int| 0u8),
{
    let mut v: Vec<u8> = Vec::new();
    let mut i: usize = 0;
    while i < n
        invariant
            i <= n,
            v@.len() == i,
            forall|j: int| 0 <= j < i ==> v@[j] == 0u8,
        decreases n - i,
    {
        v.push(0);
        i = i + 1;
    }
    proof {
        assert(v@ =~= Seq::new(n as nat, |i: int| 0u8));
    }
    v
}

/// Decode a signed 32-bit little-endian immediate from four bytes.
fn decode_i32(b0: u8, b1: u8, b2: u8, b3: u8) -> (v: i32)
    ensures
        v as int == as_signed_32(word_val(b0, b1, b2, b3)),
{
    let w: u32 = (b0 as u32) + (b1 as u32) * 0x100 + (b2 as u32) * 0x1_0000 + (b3 as u32)
        * 0x100_0000;
    if w < 0x8000_0000 {
        w as i32
    } else {
        ((w - 0x8000_0000) as i32) + i32::MIN
    }
}

impl VM {
    /// A freshly constructed machine: zeroed state, empty program.
    pub fn new() -> (vm: VM)
        ensures
            vm@.wf(),
            vm@ == initial_state(),
    {
        let vm = VM {
            sp: 0,
            ip: 0,
            registers: zeroed_i32(REGISTER_COUNT),
            stack: zeroed_i32(STACK_CAPACITY),
            instructions: zeroed_u8(INSTRUCTION_CAPACITY),
            program_len: 0,
            output: Vec::new(),
        };
        proof {
            assert(vm@ =~= initial_state());
        }
        vm
    }

    /// Load a program: copy it to the front of the instruction store and
    /// zero the rest.  Fails with `ProgramTooLarge` if it does not fit.
    /// Registers, stack and the two pointers are left untouched.
    pub fn program(&mut self, contents: &[u8]) -> (r: Result<(), VmError>)
        requires
            old(self)@.wf(),
        ensures
            final(self)@.wf(),
            contents@.len() > INSTRUCTION_CAPACITY ==> r == Err::<(), VmError>(
                VmError { kind: Fault::ProgramTooLarge, ip: old(self).ip },
            ) && final(self)@ == old(self)@,
            contents@.len() <= INSTRUCTION_CAPACITY ==> r == Ok::<(), VmError>(())
                && final(self)@ == (State {
                instrs: padded_program(contents@),
                prog_len: contents@.len(),
                ..old(self)@
            }),
    {
        let n = contents.len();
        if n > INSTRUCTION_CAPACITY {
            return Err(VmError { kind: Fault::ProgramTooLarge, ip: self.ip });
        }
        let mut i: usize = 0;
        while i < INSTRUCTION_CAPACITY
            invariant
                i <= INSTRUCTION_CAPACITY,
                n == contents@.len() <= INSTRUCTION_CAPACITY,
                self.instructions@.len() == INSTRUCTION_CAPACITY,
                forall|j: int|
                    0 <= j < i ==> self.instructions@[j] == (if j < n {
                        contents@[j]
                    } else {
                        0u8
                    }),
                self.sp == old(self).sp,
                self.ip == old(self).ip,
                self.program_len == old(self).program_len,
                self.registers@ == old(self).registers@,
                self.stack@ == old(self).stack@,
                self.output@ == old(self).output@,
            decreases INSTRUCTION_CAPACITY - i,
        {
            if i < n {
                self.instructions[i] = contents[i];
            } else {
                self.instructions[i] = 0;
            }
            i = i + 1;
        }
        self.program_len = n;
        proof {
            assert(self@ =~= (State {
                instrs: padded_program(contents@),
                prog_len: contents@.len(),
                ..old(self)@
            }));
        }
        Ok(())
    }

    /// The push primitive: fails with `StackOverflow` once the stack
    /// pointer reaches the headroom bound, two slots short of capacity.
    /// Does not move the instruction pointer.
    pub fn push_value(&mut self, v: i32) -> (r: Result<(), VmError>)
        requires
            old(self)@.wf(),
        ensures
            final(self)@.wf(),
            match push_value_spec(old(self)@, v) {
                Ok(s1) => r == Ok::<(), VmError>(()) && final(self)@ == s1,
                Err(f) => r == Err::<(), VmError>(VmError { kind: f, ip: old(self).ip })
                    && final(self)@ == old(self)@,
            },
    {
        if self.sp >= STACK_CAPACITY - 2 {
            return Err(VmError { kind: Fault::StackOverflow, ip: self.ip });
        }
        self.stack[self.sp] = v;
        self.sp = self.sp + 1;
        proof {
            assert(self@ =~= push_value_spec(old(self)@, v)->Ok_0);
        }
        Ok(())
    }

    /// The pop primitive: fails with `StackUnderflow` on an empty stack,
    /// otherwise removes and returns the top value.  Does not move the
    /// instruction pointer.
    pub fn pop(&mut self) -> (r: Result<i32, VmError>)
        requires
            old(self)@.wf(),
        ensures
            final(self)@.wf(),
            match pop_value_spec(old(self)@) {
                Ok(p) => r == Ok::<i32, VmError>(p.1) && final(self)@ == p.0,
                Err(f) => r == Err::<i32, VmError>(VmError { kind: f, ip: old(self).ip })
                    && final(self)@ == old(self)@,
            },
    {
        if self.sp == 0 {
            return Err(VmError { kind: Fault::StackUnderflow, ip: self.ip });
        }
        self.sp = self.sp - 1;
        let v = self.stack[self.sp];
        proof {
            assert(self@ =~= pop_value_spec(old(self)@)->Ok_0.0);
        }
        Ok(v)
    }

    /// The PUSH handler: decode the 4-byte immediate after the opcode,
    /// push it, advance by five.
    pub fn push(&mut self) -> (r: Result<(), VmError>)
        requires
            old(self)@.wf(),
        ensures
            final(self)@.wf(),
            match push_step(old(self)@) {
                StepOut::Next(s2) => r == Ok::<(), VmError>(()) && final(self)@ == s2,
                StepOut::Halt => false,
                StepOut::Fault(f) => r == Err::<(), VmError>(
                    VmError { kind: f, ip: old(self).ip },
                ) && final(self)@ == old(self)@,
            },
    {
        if self.ip + 5 > INSTRUCTION_CAPACITY {
            return Err(VmError { kind: Fault::InvalidJumpTarget, ip: self.ip });
        }
        let b0 = self.instructions[self.ip + 1];
        let b1 = self.instructions[self.ip + 2];
        let b2 = self.instructions[self.ip + 3];
        let b3 = self.instructions[self.ip + 4];
        let v = decode_i32(b0, b1, b2, b3);
        match self.push_value(v) {
            Err(e) => Err(e),
            Ok(_) => {
                self.ip = self.ip + 5;
                proof {
                    assert(self@ =~= push_step(old(self)@)->Next_0);
                }
                Ok(())
            },
        }
    }

    /// The POP handler: discard the top of the stack, advance by one.
    pub fn bare_pop(&mut self) -> (r: Result<(), VmError>)
        requires
            old(self)@.wf(),
        ensures
            final(self)@.wf(),
            match pop_step(old(self)@) {
                StepOut::Next(s2) => r == Ok::<(), VmError>(()) && final(self)@ == s2,
                StepOut::Halt => false,
                StepOut::Fault(f) => r == Err::<(), VmError>(
                    VmError { kind: f, ip: old(self).ip },
                ) && final(self)@ == old(self)@,
            },
    {
        if self.ip + 1 > INSTRUCTION_CAPACITY {
            return Err(VmError { kind: Fault::InvalidJumpTarget, ip: self.ip });
        }
        match self.pop() {
            Err(e) => Err(e),
            Ok(_) => {
                self.ip = self.ip + 1;
                proof {
                    assert(self@ =~= pop_step(old(self)@)->Next_0);
                }
                Ok(())
            },
        }
    }

    /// The LOAD handler: push the value of the register named by the byte
    /// after the opcode, advance by two.
    pub fn load(&mut self) -> (r: Result<(), VmError>)
        requires
            old(self)@.wf(),
        ensures
            final(self)@.wf(),
            match load_step(old(self)@) {
                StepOut::Next(s2) => r == Ok::<(), VmError>(()) && final(self)@ == s2,
                StepOut::Halt => false,
                StepOut::Fault(f) => r == Err::<(), VmError>(
                    VmError { kind: f, ip: old(self).ip },
                ) && final(self)@ == old(self)@,
            },
    {
        if self.ip + 2 > INSTRUCTION_CAPACITY {
            return Err(VmError { kind: Fault::InvalidJumpTarget, ip: self.ip });
        }
        let r = self.instructions[self.ip + 1];
        if r as usize >= REGISTER_COUNT {
            return Err(VmError { kind: Fault::InvalidRegister, ip: self.ip });
        }
        let val = self.registers[r as usize];
        match self.push_value(val) {
            Err(e) => Err(e),
            Ok(_) => {
                self.ip = self.ip + 2;
                proof {
                    assert(self@ =~= load_step(old(self)@)->Next_0);
                }
                Ok(())
            },
        }
    }

    /// The STORE handler: pop the top of the stack into the register named
    /// by the byte after the opcode, advance by two.
    pub fn store(&mut self) -> (r: Result<(), VmError>)
        requires
            old(self)@.wf(),
        ensures
            final(self)@.wf(),
            match store_step(old(self)@) {
                StepOut::Next(s2) => r == Ok::<(), VmError>(()) && final(self)@ == s2,
                StepOut::Halt => false,
                StepOut::Fault(f) => r == Err::<(), VmError>(
                    VmError { kind: f, ip: old(self).ip },
                ) && final(self)@ == old(self)@,
            },
    {
        if self.ip + 2 > INSTRUCTION_CAPACITY {
            return Err(VmError { kind: Fault::InvalidJumpTarget, ip: self.ip });
        }
        let r = self.instructions[self.ip + 1];
        if r as usize >= REGISTER_COUNT {
            return Err(VmError { kind: Fault::InvalidRegister, ip: self.ip });
        }
        match self.pop() {
            Err(e) => Err(e),
            Ok(v) => {
                self.registers[r as usize] = v;
                self.ip = self.ip + 2;
                proof {
                    assert(self@ =~= store_step(old(self)@)->Next_0);
                }
                Ok(())
            },
        }
    }

    /// The JMP handler: set the instruction pointer to the absolute 16-bit
    /// little-endian target after the opcode; the target must lie within
    /// the loaded program.
    pub fn jump(&mut self) -> (r: Result<(), VmError>)
        requires
            old(self)@.wf(),
        ensures
            final(self)@.wf(),
            match jmp_step(old(self)@) {
                StepOut::Next(s2) => r == Ok::<(), VmError>(()) && final(self)@ == s2,
                StepOut::Halt => false,
                StepOut::Fault(f) => r == Err::<(), VmError>(
                    VmError { kind: f, ip: old(self).ip },
                ) && final(self)@ == old(self)@,
            },
    {
        if self.ip + 3 > INSTRUCTION_CAPACITY {
            return Err(VmError { kind: Fault::InvalidJumpTarget, ip: self.ip });
        }
        let t = self.instructions[self.ip + 1] as usize + (self.instructions[self.ip + 2]
            as usize) * 0x100;
        if t >= self.program_len {
            return Err(VmError { kind: Fault::InvalidJumpTarget, ip: self.ip });
        }
        self.ip = t;
        proof {
            assert(self@ =~= jmp_step(old(self)@)->Next_0);
        }
        Ok(())
    }

    /// The JZ handler: pop; jump to the 16-bit target if the popped value
    /// is zero, else advance by three.
    pub fn jz(&mut self) -> (r: Result<(), VmError>)
        requires
            old(self)@.wf(),
        ensures
            final(self)@.wf(),
            match jz_step(old(self)@) {
                StepOut::Next(s2) => r == Ok::<(), VmError>(()) && final(self)@ == s2,
                StepOut::Halt => false,
                StepOut::Fault(f) => r == Err::<(), VmError>(
                    VmError { kind: f, ip: old(self).ip },
                ) && final(self)@ == old(self)@,
            },
    {
        if self.ip + 3 > INSTRUCTION_CAPACITY {
            return Err(VmError { kind: Fault::InvalidJumpTarget, ip: self.ip });
        }
        if self.sp == 0 {
            return Err(VmError { kind: Fault::StackUnderflow, ip: self.ip });
        }
        let tos = self.stack[self.sp - 1];
        if tos == 0 {
            let t = self.instructions[self.ip + 1] as usize + (self.instructions[self.ip + 2]
                as usize) * 0x100;
            if t >= self.program_len {
                return Err(VmError { kind: Fault::InvalidJumpTarget, ip: self.ip });
            }
            self.sp = self.sp - 1;
            self.ip = t;
        } else {
            self.sp = self.sp - 1;
            self.ip = self.ip + 3;
        }
        proof {
            assert(self@ =~= jz_step(old(self)@)->Next_0);
        }
        Ok(())
    }

    /// The JNZ handler: pop; jump to the 16-bit target if the popped value
    /// is nonzero, else advance by three.
    pub fn jnz(&mut self) -> (r: Result<(), VmError>)
        requires
            old(self)@.wf(),
        ensures
            final(self)@.wf(),
            match jnz_step(old(self)@) {
                StepOut::Next(s2) => r == Ok::<(), VmError>(()) && final(self)@ == s2,
                StepOut::Halt => false,
                StepOut::Fault(f) => r == Err::<(), VmError>(
                    VmError { kind: f, ip: old(self).ip },
                ) && final(self)@ == old(self)@,
            },
    {
        if self.ip + 3 > INSTRUCTION_CAPACITY {
            return Err(VmError { kind: Fault::InvalidJumpTarget, ip: self.ip });
        }
        if self.sp == 0 {
            return Err(VmError { kind: Fault::StackUnderflow, ip: self.ip });
        }
        let tos = self.stack[self.sp - 1];
        if tos != 0 {
            let t = self.instructions[self.ip + 1] as usize + (self.instructions[self.ip + 2]
                as usize) * 0x100;
            if t >= self.program_len {
                return Err(VmError { kind: Fault::InvalidJumpTarget, ip: self.ip });
            }
            self.sp = self.sp - 1;
            self.ip = t;
        } else {
            self.sp = self.sp - 1;
            self.ip = self.ip + 3;
        }
        proof {
            assert(self@ =~= jnz_step(old(self)@)->Next_0);
        }
        Ok(())
    }

    /// The ADD handler: pop two operands, push their wrapping sum,
    /// advance by one.
    pub fn add(&mut self) -> (r: Result<(), VmError>)
        requires
            old(self)@.wf(),
        ensures
            final(self)@.wf(),
            match add_step(old(self)@) {
                StepOut::Next(s2) => r == Ok::<(), VmError>(()) && final(self)@ == s2,
                StepOut::Halt => false,
                StepOut::Fault(f) => r == Err::<(), VmError>(
                    VmError { kind: f, ip: old(self).ip },
                ) && final(self)@ == old(self)@,
            },
    {
        if self.ip + 1 > INSTRUCTION_CAPACITY {
            return Err(VmError { kind: Fault::InvalidJumpTarget, ip: self.ip });
        }
        if self.sp < 2 {
            return Err(VmError { kind: Fault::StackUnderflow, ip: self.ip });
        }
        let s1 = self.stack[self.sp - 1];
        let s2 = self.stack[self.sp - 2];
        self.stack[self.sp - 2] = s1.wrapping_add(s2);
        self.sp = self.sp - 1;
        self.ip = self.ip + 1;
        proof {
            assert(self@ =~= add_step(old(self)@)->Next_0);
        }
        Ok(())
    }

    /// The SUB handler: pop `s1` then `s2`, push the wrapping difference
    /// `s2 - s1`, advance by one.
    pub fn sub(&mut self) -> (r: Result<(), VmError>)
        requires
            old(self)@.wf(),
        ensures
            final(self)@.wf(),
            match sub_step(old(self)@) {
                StepOut::Next(s2) => r == Ok::<(), VmError>(()) && final(self)@ == s2,
                StepOut::Halt => false,
                StepOut::Fault(f) => r == Err::<(), VmError>(
                    VmError { kind: f, ip: old(self).ip },
                ) && final(self)@ == old(self)@,
            },
    {
        if self.ip + 1 > INSTRUCTION_CAPACITY {
            return Err(VmError { kind: Fault::InvalidJumpTarget, ip: self.ip });
        }
        if self.sp < 2 {
            return Err(VmError { kind: Fault::StackUnderflow, ip: self.ip });
        }
        let s1 = self.stack[self.sp - 1];
        let s2 = self.stack[self.sp - 2];
        self.stack[self.sp - 2] = s2.wrapping_sub(s1);
        self.sp = self.sp - 1;
        self.ip = self.ip + 1;
        proof {
            assert(self@ =~= sub_step(old(self)@)->Next_0);
        }
        Ok(())
    }

    /// The MUL handler: pop two operands, push their wrapping product,
    /// advance by one.
    pub fn mul(&mut self) -> (r: Result<(), VmError>)
        requires
            old(self)@.wf(),
        ensures
            final(self)@.wf(),
            match mul_step(old(self)@) {
                StepOut::Next(s2) => r == Ok::<(), VmError>(()) && final(self)@ == s2,
                StepOut::Halt => false,
                StepOut::Fault(f) => r == Err::<(), VmError>(
                    VmError { kind: f, ip: old(self).ip },
                ) && final(self)@ == old(self)@,
            },
    {
        if self.ip + 1 > INSTRUCTION_CAPACITY {
            return Err(VmError { kind: Fault::InvalidJumpTarget, ip: self.ip });
        }
        if self.sp < 2 {
            return Err(VmError { kind: Fault::StackUnderflow, ip: self.ip });
        }
        let s1 = self.stack[self.sp - 1];
        let s2 = self.stack[self.sp - 2];
        self.stack[self.sp - 2] = s2.wrapping_mul(s1);
        self.sp = self.sp - 1;
        self.ip = self.ip + 1;
        proof {
            assert(self@ =~= mul_step(old(self)@)->Next_0);
        }
        Ok(())
    }

    /// The DIV handler: pop `s1` then `s2`, push the wrapping quotient
    /// `s2 / s1`, advance by one.  A zero divisor faults.
    pub fn div(&mut self) -> (r: Result<(), VmError>)
        requires
            old(self)@.wf(),
        ensures
            final(self)@.wf(),
            match div_step(old(self)@) {
                StepOut::Next(s2) => r == Ok::<(), VmError>(()) && final(self)@ == s2,
                StepOut::Halt => false,
                StepOut::Fault(f) => r == Err::<(), VmError>(
                    VmError { kind: f, ip: old(self).ip },
                ) && final(self)@ == old(self)@,
            },
    {
        if self.ip + 1 > INSTRUCTION_CAPACITY {
            return Err(VmError { kind: Fault::InvalidJumpTarget, ip: self.ip });
        }
        if self.sp < 2 {
            return Err(VmError { kind: Fault::StackUnderflow, ip: self.ip });
        }
        let s1 = self.stack[self.sp - 1];
        let s2 = self.stack[self.sp - 2];
        if s1 == 0 {
            return Err(VmError { kind: Fault::DivideByZero, ip: self.ip });
        }
        let q = match s2.checked_div(s1) {
            Some(q) => q,
            None => i32::MIN,
        };
        proof {
            assert(q == div_wrap(s2, s1));
        }
        self.stack[self.sp - 2] = q;
        self.sp = self.sp - 1;
        self.ip = self.ip + 1;
        proof {
            assert(self@ =~= div_step(old(self)@)->Next_0);
        }
        Ok(())
    }

    /// The PRINT handler: pop the top value and append it to the output
    /// sink, advance by one.
    pub fn print(&mut self) -> (r: Result<(), VmError>)
        requires
            old(self)@.wf(),
        ensures
            final(self)@.wf(),
            match print_step(old(self)@) {
                StepOut::Next(s2) => r == Ok::<(), VmError>(()) && final(self)@ == s2,
                StepOut::Halt => false,
                StepOut::Fault(f) => r == Err::<(), VmError>(
                    VmError { kind: f, ip: old(self).ip },
                ) && final(self)@ == old(self)@,
            },
    {
        if self.ip + 1 > INSTRUCTION_CAPACITY {
            return Err(VmError { kind: Fault::InvalidJumpTarget, ip: self.ip });
        }
        match self.pop() {
            Err(e) => Err(e),
            Ok(v) => {
                self.output.push(v);
                self.ip = self.ip + 1;
                proof {
                    assert(self@ =~= print_step(old(self)@)->Next_0);
                }
                Ok(())
            },
        }
    }

    /// One fetch-decode-dispatch cycle.
    pub fn step(&mut self) -> (r: Result<StepEvent, VmError>)
        requires
            old(self)@.wf(),
        ensures
            final(self)@.wf(),
            match step_spec(old(self)@) {
                StepOut::Next(s2) => r == Ok::<StepEvent, VmError>(StepEvent::Ran) && final(self)@ == s2,
                StepOut::Halt => r == Ok::<StepEvent, VmError>(StepEvent::Halted) && final(self)@ == old(self)@,
                StepOut::Fault(f) => r == Err::<StepEvent, VmError>(
                    VmError { kind: f, ip: old(self).ip },
                ) && final(self)@ == old(self)@,
            },
    {
        if self.ip >= INSTRUCTION_CAPACITY {
            return Err(VmError { kind: Fault::InvalidJumpTarget, ip: self.ip });
        }
        let b = self.instructions[self.ip];
        match OPCode::from_u8(b) {
            None => Err(VmError { kind: Fault::InvalidOpcode, ip: self.ip }),
            Some(op) => match op {
                OPCode::NOP => {
                    self.ip = self.ip + 1;
                    proof {
                        assert(self@ =~= nop_step(old(self)@)->Next_0);
                    }
                    Ok(StepEvent::Ran)
                },
                OPCode::PUSH => match self.push() {
                    Ok(_) => Ok(StepEvent::Ran),
                    Err(e) => Err(e),
                },
                OPCode::POP => match self.bare_pop() {
                    Ok(_) => Ok(StepEvent::Ran),
                    Err(e) => Err(e),
                },
                OPCode::LOAD => match self.load() {
                    Ok(_) => Ok(StepEvent::Ran),
                    Err(e) => Err(e),
                },
                OPCode::STORE => match self.store() {
                    Ok(_) => Ok(StepEvent::Ran),
                    Err(e) => Err(e),
                },
                OPCode::JMP => match self.jump() {
                    Ok(_) => Ok(StepEvent::Ran),
                    Err(e) => Err(e),
                },
                OPCode::JZ => match self.jz() {
                    Ok(_) => Ok(StepEvent::Ran),
                    Err(e) => Err(e),
                },
                OPCode::JNZ => match self.jnz() {
                    Ok(_) => Ok(StepEvent::Ran),
                    Err(e) => Err(e),
                },
                OPCode::ADD => match self.add() {
                    Ok(_) => Ok(StepEvent::Ran),
                    Err(e) => Err(e),
                },
                OPCode::SUB => match self.sub() {
                    Ok(_) => Ok(StepEvent::Ran),
                    Err(e) => Err(e),
                },
                OPCode::MUL => match self.mul() {
                    Ok(_) => Ok(StepEvent::Ran),
                    Err(e) => Err(e),
                },
                OPCode::DIV => match self.div() {
                    Ok(_) => Ok(StepEvent::Ran),
                    Err(e) => Err(e),
                },
                OPCode::PRINT => match self.print() {
                    Ok(_) => Ok(StepEvent::Ran),
                    Err(e) => Err(e),
                },
                OPCode::STOP => Ok(StepEvent::Halted),
            },
        }
    }

    /// Run the fetch-decode-dispatch loop for at most `max_steps` cycles.
    ///
    /// Ends cleanly on STOP, reports the first fault with the instruction
    /// pointer at the time of failure, and stops with `OutOfSteps` once
    /// the budget runs out, so a runaway program cannot hang the caller.
    pub fn execute(&mut self, max_steps: usize) -> (r: Result<ExecEvent, VmError>)
        requires
            old(self)@.wf(),
        ensures
            final(self)@.wf(),
            match run_spec(old(self)@, max_steps as nat) {
                RunOut::Halted(s2) => r == Ok::<ExecEvent, VmError>(ExecEvent::Halted) && final(self)@ == s2,
                RunOut::OutOfSteps(s2) => r == Ok::<ExecEvent, VmError>(ExecEvent::OutOfSteps)
                    && final(self)@ == s2,
                RunOut::Faulted(s2, f) => r == Err::<ExecEvent, VmError>(
                    VmError { kind: f, ip: s2.ip as usize },
                ) && final(self)@ == s2,
            },
    {
        let mut remaining: usize = max_steps;
        while remaining > 0
            invariant
                self@.wf(),
                remaining <= max_steps,
                run_spec(old(self)@, max_steps as nat) == run_spec(self@, remaining as nat),
            decreases remaining,
        {
            let ghost pre = self@;
            match self.step() {
                Ok(StepEvent::Ran) => {
                    proof {
                        assert(run_spec(pre, remaining as nat) == run_spec(
                            self@,
                            (remaining - 1) as nat,
                        ));
                    }
                    remaining = remaining - 1;
                },
                Ok(StepEvent::Halted) => {
                    return Ok(ExecEvent::Halted);
                },
                Err(e) => {
                    return Err(e);
                },
            }
        }
        Ok(ExecEvent::OutOfSteps)
    }
}

} // verus!
