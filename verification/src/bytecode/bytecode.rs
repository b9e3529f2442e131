//! The coarse opcode classes of the first block reader.

use vstd::prelude::*;
use crate::text::{contains_seq, contains_str, lowercase, split, split_seq, str_eq, strings_view};
use super::valuetype::ValueType;

verus! {

/// A coarse class of opcodes.
#[derive(Debug, PartialEq, Eq, Structural)]
pub enum Bytecode {
    Load,
    Store,
    Build(ValueType),
    Loop,
    Jump,
    Function,
    Op,
    Call,
    Return,
    Push,
    Pop,
    Nop,
    Unknown,
}

/// The class of an opcode name; `None` where a `BUILD` name has no second
/// part, on which the reader fails.
pub open spec fn classify(name: Seq<char>) -> Option<Bytecode> {
    let parts = split_seq(name, "_"@);
    if contains_seq(name, "FUNCTION"@) {
        Some(Bytecode::Function)
    } else if parts[0] == "LOAD"@ {
        Some(Bytecode::Load)
    } else if parts[0] == "STORE"@ {
        Some(Bytecode::Store)
    } else if parts[0] == "POP"@ {
        Some(Bytecode::Pop)
    } else if parts[0] == "PUSH"@ {
        Some(Bytecode::Push)
    } else if parts[0] == "BUILD"@ {
        if parts.len() > 1 {
            Some(Bytecode::Build(ValueType::named(lowercase(parts[1]))))
        } else {
            None
        }
    } else if parts[0] == "CALL"@ {
        Some(Bytecode::Call)
    } else if parts[0] == "RETURN"@ {
        Some(Bytecode::Return)
    } else {
        Some(Bytecode::Unknown)
    }
}

/// The class of the opcode `name`, or `None` where reading it fails.
pub fn classify_bytecode(name: &str) -> (r: Option<Bytecode>)
    ensures
        r == classify(name@),
{
    if contains_str(name, "FUNCTION") {
        return Some(Bytecode::Function);
    }
    proof {
        reveal_strlit("_");
    }
    let parts = split(name, "_");
    let ghost sp = strings_view(parts@);
    assert(sp[0] == parts@[0]@);
    let first = parts[0].as_str();
    if str_eq(first, "LOAD") {
        Some(Bytecode::Load)
    } else if str_eq(first, "STORE") {
        Some(Bytecode::Store)
    } else if str_eq(first, "POP") {
        Some(Bytecode::Pop)
    } else if str_eq(first, "PUSH") {
        Some(Bytecode::Push)
    } else if str_eq(first, "BUILD") {
        if parts.len() < 2 {
            return None;
        }
        assert(sp[1] == parts@[1]@);
        Some(Bytecode::Build(ValueType::get(parts[1].as_str())))
    } else if str_eq(first, "CALL") {
        Some(Bytecode::Call)
    } else if str_eq(first, "RETURN") {
        Some(Bytecode::Return)
    } else {
        Some(Bytecode::Unknown)
    }
}

impl Bytecode {
    /// The class of the opcode `name`.
    pub fn get(name: &str) -> (r: Bytecode)
        requires
            classify(name@) is Some,
        ensures
            classify(name@) == Some(r),
    {
        match classify_bytecode(name) {
            Some(r) => r,
            None => {
                proof {
                    assert(false);
                }
                Bytecode::Unknown
            },
        }
    }
}

} // verus!
