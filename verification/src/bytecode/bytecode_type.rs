//! The opcode classes of the second block reader, which also knows binary
//! opcodes, jumps and extensions.

use vstd::prelude::*;
use crate::text::{contains_seq, contains_str, lowercase, split, split_seq, str_eq, strings_view};
use super::binary::Binary;
use super::valuetype::ValueType;

verus! {

/// A class of opcodes.
#[derive(Debug, Clone, Copy, PartialEq, Eq, Hash, Structural)]
pub enum BytecodeType {
    Load,
    Store,
    Build(ValueType),
    Extend,
    Loop,
    Jump,
    Function,
    Binary(Binary),
    Call,
    Return,
    Push,
    Pop,
    Nop,
    Unknown,
}

/// The class of an opcode name; `None` where the reader fails (a `BUILD` or
/// `BINARY` name without a second part, or a `BINARY` part that names no
/// operation).
pub open spec fn classify(name: Seq<char>) -> Option<BytecodeType> {
    let parts = split_seq(name, "_"@);
    if contains_seq(name, "FUNCTION"@) {
        Some(BytecodeType::Function)
    } else if parts[0] == "LOAD"@ {
        Some(BytecodeType::Load)
    } else if parts[0] == "STORE"@ {
        Some(BytecodeType::Store)
    } else if parts[0] == "POP"@ {
        Some(BytecodeType::Pop)
    } else if parts[0] == "PUSH"@ {
        Some(BytecodeType::Push)
    } else if parts[0] == "BUILD"@ {
        if parts.len() > 1 {
            Some(BytecodeType::Build(ValueType::named(lowercase(parts[1]))))
        } else {
            None
        }
    } else if parts[0] == "BINARY"@ {
        if parts.len() > 1 && Binary::named(lowercase(parts[1])) is Some {
            Some(BytecodeType::Binary(Binary::named(lowercase(parts[1])).unwrap()))
        } else {
            None
        }
    } else if parts[0] == "CALL"@ {
        Some(BytecodeType::Call)
    } else if parts[0] == "RETURN"@ {
        Some(BytecodeType::Return)
    } else if parts[0] == "JUMP"@ {
        Some(BytecodeType::Jump)
    } else if parts[0] == "LOOP"@ {
        Some(BytecodeType::Loop)
    } else if parts[0] == "NOP"@ {
        Some(BytecodeType::Nop)
    } else if contains_seq(name, "EXTEND"@) {
        Some(BytecodeType::Extend)
    } else {
        Some(BytecodeType::Unknown)
    }
}

impl BytecodeType {
    /// The class of the opcode `name`.
    pub fn get(name: &str) -> (r: BytecodeType)
        requires
            classify(name@) is Some,
        ensures
            classify(name@) == Some(r),
    {
        if contains_str(name, "FUNCTION") {
            return BytecodeType::Function;
        }
        proof {
            reveal_strlit("_");
        }
        let parts = split(name, "_");
        let ghost sp = strings_view(parts@);
        assert(sp[0] == parts@[0]@);
        let first = parts[0].as_str();
        if str_eq(first, "LOAD") {
            return BytecodeType::Load;
        } else if str_eq(first, "STORE") {
            return BytecodeType::Store;
        } else if str_eq(first, "POP") {
            return BytecodeType::Pop;
        } else if str_eq(first, "PUSH") {
            return BytecodeType::Push;
        } else if str_eq(first, "BUILD") {
            assert(sp[1] == parts@[1]@);
            return BytecodeType::Build(ValueType::get(parts[1].as_str()));
        } else if str_eq(first, "BINARY") {
            assert(sp[1] == parts@[1]@);
            return BytecodeType::Binary(Binary::get(parts[1].as_str()).unwrap());
        } else if str_eq(first, "CALL") {
            return BytecodeType::Call;
        } else if str_eq(first, "RETURN") {
            return BytecodeType::Return;
        } else if str_eq(first, "JUMP") {
            return BytecodeType::Jump;
        } else if str_eq(first, "LOOP") {
            return BytecodeType::Loop;
        } else if str_eq(first, "NOP") {
            return BytecodeType::Nop;
        }
        if contains_str(name, "EXTEND") {
            return BytecodeType::Extend;
        }
        BytecodeType::Unknown
    }
}

} // verus!
