//! The instruction set: one byte per opcode, and the mnemonic lookup table
//! that an external assembler can consume.

use vstd::prelude::*;
use vstd::string::StrSliceExecFns;

verus! {

/// The fourteen operations of the machine.  The numeric encoding is given
/// by [`byte_of_opcode`] and [`opcode_of_byte`].
#[derive(Clone, Copy, Debug, PartialEq, Eq, Structural)]
pub enum OPCode {
    NOP,
    PUSH,
    POP,
    LOAD,
    STORE,
    JMP,
    JZ,
    JNZ,
    ADD,
    SUB,
    MUL,
    DIV,
    PRINT,
    STOP,
}

/// The opcode encoded by a byte of the instruction store, if any.
pub open spec fn opcode_of_byte(b: u8) -> Option<OPCode> {
    if b == 0 {
        Some(OPCode::NOP)
    } else if b == 1 {
        Some(OPCode::PUSH)
    } else if b == 2 {
        Some(OPCode::POP)
    } else if b == 3 {
        Some(OPCode::LOAD)
    } else if b == 4 {
        Some(OPCode::STORE)
    } else if b == 5 {
        Some(OPCode::JMP)
    } else if b == 6 {
        Some(OPCode::JZ)
    } else if b == 7 {
        Some(OPCode::JNZ)
    } else if b == 8 {
        Some(OPCode::ADD)
    } else if b == 9 {
        Some(OPCode::SUB)
    } else if b == 10 {
        Some(OPCode::MUL)
    } else if b == 11 {
        Some(OPCode::DIV)
    } else if b == 12 {
        Some(OPCode::PRINT)
    } else if b == 13 {
        Some(OPCode::STOP)
    } else {
        None
    }
}

/// The byte that encodes an opcode.
pub open spec fn byte_of_opcode(op: OPCode) -> u8 {
    match op {
        OPCode::NOP => 0,
        OPCode::PUSH => 1,
        OPCode::POP => 2,
        OPCode::LOAD => 3,
        OPCode::STORE => 4,
        OPCode::JMP => 5,
        OPCode::JZ => 6,
        OPCode::JNZ => 7,
        OPCode::ADD => 8,
        OPCode::SUB => 9,
        OPCode::MUL => 10,
        OPCode::DIV => 11,
        OPCode::PRINT => 12,
        OPCode::STOP => 13,
    }
}

/// The opcode named by a textual mnemonic, if any.
pub open spec fn opcode_of_mnemonic(s: Seq<char>) -> Option<OPCode> {
    if s == "nop"@ {
        Some(OPCode::NOP)
    } else if s == "push"@ {
        Some(OPCode::PUSH)
    } else if s == "pop"@ {
        Some(OPCode::POP)
    } else if s == "load"@ {
        Some(OPCode::LOAD)
    } else if s == "store"@ {
        Some(OPCode::STORE)
    } else if s == "jmp"@ {
        Some(OPCode::JMP)
    } else if s == "jz"@ {
        Some(OPCode::JZ)
    } else if s == "jnz"@ {
        Some(OPCode::JNZ)
    } else if s == "add"@ {
        Some(OPCode::ADD)
    } else if s == "sub"@ {
        Some(OPCode::SUB)
    } else if s == "mul"@ {
        Some(OPCode::MUL)
    } else if s == "div"@ {
        Some(OPCode::DIV)
    } else if s == "print"@ {
        Some(OPCode::PRINT)
    } else if s == "stop"@ {
        Some(OPCode::STOP)
    } else {
        None
    }
}

/// Character-by-character string comparison.
fn str_eq(a: &str, b: &str) -> (r: bool)
    ensures
        r == (a@ == b@),
{
    let alen = a.unicode_len();
    let blen = b.unicode_len();
    if alen != blen {
        return false;
    }
    let mut i: usize = 0;
    while i < alen
        invariant
            i <= alen,
            alen == a@.len(),
            alen == b@.len(),
            forall|j: int| 0 <= j < i ==> a@[j] == b@[j],
        decreases alen - i,
    {
        if a.get_char(i) != b.get_char(i) {
            return false;
        }
        i = i + 1;
    }
    proof {
        assert(a@ =~= b@);
    }
    true
}

impl OPCode {
    /// Decode a byte of the instruction store.
    pub fn from_u8(b: u8) -> (r: Option<OPCode>)
        ensures
            r == opcode_of_byte(b),
    {
        match b {
            0 => Some(OPCode::NOP),
            1 => Some(OPCode::PUSH),
            2 => Some(OPCode::POP),
            3 => Some(OPCode::LOAD),
            4 => Some(OPCode::STORE),
            5 => Some(OPCode::JMP),
            6 => Some(OPCode::JZ),
            7 => Some(OPCode::JNZ),
            8 => Some(OPCode::ADD),
            9 => Some(OPCode::SUB),
            10 => Some(OPCode::MUL),
            11 => Some(OPCode::DIV),
            12 => Some(OPCode::PRINT),
            13 => Some(OPCode::STOP),
            _ => None,
        }
    }

    /// The numeric value of an opcode; the inverse of [`OPCode::from_u8`].
    pub fn to_u8(self) -> (b: u8)
        ensures
            b == byte_of_opcode(self),
            opcode_of_byte(b) == Some(self),
    {
        match self {
            OPCode::NOP => 0,
            OPCode::PUSH => 1,
            OPCode::POP => 2,
            OPCode::LOAD => 3,
            OPCode::STORE => 4,
            OPCode::JMP => 5,
            OPCode::JZ => 6,
            OPCode::JNZ => 7,
            OPCode::ADD => 8,
            OPCode::SUB => 9,
            OPCode::MUL => 10,
            OPCode::DIV => 11,
            OPCode::PRINT => 12,
            OPCode::STOP => 13,
        }
    }

    /// The mnemonic lookup table: maps a textual mnemonic such as `"push"`
    /// to its opcode.  Stateless; meant for an external assembler.
    pub fn from_str(s: &str) -> (r: Option<OPCode>)
        ensures
            r == opcode_of_mnemonic(s@),
    {
        if str_eq(s, "nop") {
            Some(OPCode::NOP)
        } else if str_eq(s, "push") {
            Some(OPCode::PUSH)
        } else if str_eq(s, "pop") {
            Some(OPCode::POP)
        } else if str_eq(s, "load") {
            Some(OPCode::LOAD)
        } else if str_eq(s, "store") {
            Some(OPCode::STORE)
        } else if str_eq(s, "jmp") {
            Some(OPCode::JMP)
        } else if str_eq(s, "jz") {
            Some(OPCode::JZ)
        } else if str_eq(s, "jnz") {
            Some(OPCode::JNZ)
        } else if str_eq(s, "add") {
            Some(OPCode::ADD)
        } else if str_eq(s, "sub") {
            Some(OPCode::SUB)
        } else if str_eq(s, "mul") {
            Some(OPCode::MUL)
        } else if str_eq(s, "div") {
            Some(OPCode::DIV)
        } else if str_eq(s, "print") {
            Some(OPCode::PRINT)
        } else if str_eq(s, "stop") {
            Some(OPCode::STOP)
        } else {
            None
        }
    }
}

} // verus!
