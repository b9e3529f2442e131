//! The opcode classification of the line-based decompiler.

use vstd::prelude::*;
use crate::text::{
    concat2, concat3, contains_seq, contains_string, contains_str, lowercase, replace, replace_seq,
    split, split_seq, str_eq, strings_view, to_lowercase,
};
use crate::patterns::{find_paren_span, paren_span};
pub use super::binary::{Binary, OP};

verus! {

/// The broad kind of an opcode, read from its name.
#[derive(Debug, Clone, Copy, PartialEq, Eq, Hash, Structural)]
pub enum BytecodeType {
    Load,
    Store,
    Build(ValueType),
    Extend,
    Jump(Jump),
    Function,
    Unary(Unary),
    Binary(Binary),
    Call,
    Return,
    Push,
    Pop,
    Import(Import),
    Nop,
    Unknown,
    Other,
}

/// The kind of an opcode name, or `None` where the name makes the reader
/// fail (a missing second part, or a part that names no operation).
pub open spec fn classify(name: Seq<char>) -> Option<BytecodeType> {
    let parts = split_seq(name, "_"@);
    let has = |w: Seq<char>| parts.contains(w);
    if contains_seq(name, "FUNCTION"@) {
        Some(BytecodeType::Function)
    } else if contains_seq(name, "CALL_INTRINSIC"@) {
        Some(BytecodeType::Other)
    } else if name == "LIST_EXTEND"@ {
        Some(BytecodeType::Extend)
    } else if parts[0] == "LOAD"@ {
        Some(BytecodeType::Load)
    } else if parts[0] == "STORE"@ {
        Some(BytecodeType::Store)
    } else if parts[0] == "POP"@ {
        Some(BytecodeType::Pop)
    } else if parts[0] == "PUSH"@ {
        Some(BytecodeType::Push)
    } else if parts[0] == "BUILD"@ {
        if parts.len() > 1 {
            Some(BytecodeType::Build(ValueType::named(lowercase(parts[1]))))
        } else {
            None
        }
    } else if parts[0] == "BINARY"@ {
        if parts.len() > 1 && Binary::named(lowercase(parts[1])) is Some {
            Some(BytecodeType::Binary(Binary::named(lowercase(parts[1])).unwrap()))
        } else {
            None
        }
    } else if parts[0] == "UNARY"@ {
        if parts.len() > 1 && Unary::named(parts[1]) is Some {
            Some(BytecodeType::Unary(Unary::named(parts[1]).unwrap()))
        } else {
            None
        }
    } else if parts[0] == "CALL"@ {
        Some(BytecodeType::Call)
    } else if parts[0] == "COPY"@ {
        Some(BytecodeType::Other)
    } else if parts[0] == "RETURN"@ {
        Some(BytecodeType::Return)
    } else if parts[0] == "IMPORT"@ {
        if parts.len() > 1 && Import::named(parts[1]) is Some {
            Some(BytecodeType::Import(Import::named(parts[1]).unwrap()))
        } else {
            None
        }
    } else if parts[0] == "NOP"@ {
        Some(BytecodeType::Nop)
    } else if has("FOR"@) {
        Some(BytecodeType::Jump(Jump::For))
    } else if has("IF"@) {
        Some(BytecodeType::Jump(Jump::If))
    } else if has("ELSE"@) {
        Some(BytecodeType::Jump(Jump::Else))
    } else if has("WHILE"@) {
        Some(BytecodeType::Jump(Jump::While))
    } else if has("CONTINUE"@) {
        Some(BytecodeType::Jump(Jump::Continue))
    } else if has("BREAK"@) {
        Some(BytecodeType::Jump(Jump::Break))
    } else if has("END"@) {
        Some(BytecodeType::Jump(Jump::End))
    } else if parts.len() < 2 {
        None
    } else if parts[1] == "OP"@ {
        if Binary::named(lowercase(parts[0])) is Some {
            Some(BytecodeType::Binary(Binary::named(lowercase(parts[0])).unwrap()))
        } else {
            None
        }
    } else {
        Some(BytecodeType::Unknown)
    }
}

/// The kind of the opcode `name`, or `None` where reading it fails.
pub fn classify_name(name: &str) -> (r: Option<BytecodeType>)
    ensures
        r == classify(name@),
{
    if contains_str(name, "FUNCTION") {
        return Some(BytecodeType::Function);
    } else if contains_str(name, "CALL_INTRINSIC") {
        return Some(BytecodeType::Other);
    } else if str_eq(name, "LIST_EXTEND") {
        return Some(BytecodeType::Extend);
    }
    proof {
        reveal_strlit("_");
    }
    let parts = split(name, "_");
    let ghost sp = strings_view(parts@);
    assert(sp[0] == parts@[0]@);
    let first = parts[0].as_str();
    if str_eq(first, "LOAD") {
        return Some(BytecodeType::Load);
    } else if str_eq(first, "STORE") {
        return Some(BytecodeType::Store);
    } else if str_eq(first, "POP") {
        return Some(BytecodeType::Pop);
    } else if str_eq(first, "PUSH") {
        return Some(BytecodeType::Push);
    } else if str_eq(first, "BUILD") {
        if parts.len() < 2 {
            return None;
        }
        assert(sp[1] == parts@[1]@);
        return match ValueType::get(parts[1].as_str()) {
            Some(v) => Some(BytecodeType::Build(v)),
            None => None,
        };
    } else if str_eq(first, "BINARY") {
        if parts.len() < 2 {
            return None;
        }
        assert(sp[1] == parts@[1]@);
        return match Binary::get(parts[1].as_str()) {
            Some(b) => Some(BytecodeType::Binary(b)),
            None => None,
        };
    } else if str_eq(first, "UNARY") {
        if parts.len() < 2 {
            return None;
        }
        assert(sp[1] == parts@[1]@);
        return match Unary::get(parts[1].as_str()) {
            Some(u) => Some(BytecodeType::Unary(u)),
            None => None,
        };
    } else if str_eq(first, "CALL") {
        return Some(BytecodeType::Call);
    } else if str_eq(first, "COPY") {
        return Some(BytecodeType::Other);
    } else if str_eq(first, "RETURN") {
        return Some(BytecodeType::Return);
    } else if str_eq(first, "IMPORT") {
        if parts.len() < 2 {
            return None;
        }
        assert(sp[1] == parts@[1]@);
        return match Import::get(parts[1].as_str()) {
            Some(i) => Some(BytecodeType::Import(i)),
            None => None,
        };
    } else if str_eq(first, "NOP") {
        return Some(BytecodeType::Nop);
    }
    if contains_string(&parts, "FOR") {
        return Some(BytecodeType::Jump(Jump::For));
    } else if contains_string(&parts, "IF") {
        return Some(BytecodeType::Jump(Jump::If));
    } else if contains_string(&parts, "ELSE") {
        return Some(BytecodeType::Jump(Jump::Else));
    } else if contains_string(&parts, "WHILE") {
        return Some(BytecodeType::Jump(Jump::While));
    } else if contains_string(&parts, "CONTINUE") {
        return Some(BytecodeType::Jump(Jump::Continue));
    } else if contains_string(&parts, "BREAK") {
        return Some(BytecodeType::Jump(Jump::Break));
    } else if contains_string(&parts, "END") {
        return Some(BytecodeType::Jump(Jump::End));
    }
    if parts.len() < 2 {
        return None;
    }
    assert(sp[1] == parts@[1]@);
    if str_eq(parts[1].as_str(), "OP") {
        return match Binary::get(first) {
            Some(b) => Some(BytecodeType::Binary(b)),
            None => None,
        };
    }
    Some(BytecodeType::Unknown)
}

impl BytecodeType {
    /// The kind of the opcode `name` (such as `LOAD_CONST` or `BINARY_OP`).
    pub fn get(name: &str) -> (r: BytecodeType)
        requires
            classify(name@) is Some,
        ensures
            classify(name@) == Some(r),
    {
        match classify_name(name) {
            Some(r) => r,
            None => {
                proof {
                    assert(false);
                }
                BytecodeType::Unknown
            },
        }
    }
}

/// The two import opcodes.
#[derive(Debug, Clone, Copy, PartialEq, Eq, Hash, Structural)]
pub enum Import {
    ImportFrom,
    ImportName,
}

impl Import {
    /// The import opcode whose name ends in `name`.
    pub open spec fn named(name: Seq<char>) -> Option<Import> {
        if name == "FROM"@ {
            Some(Import::ImportFrom)
        } else if name == "NAME"@ {
            Some(Import::ImportName)
        } else {
            None
        }
    }

    /// The import opcode whose name ends in `name`.
    pub fn get(name: &str) -> (r: Option<Import>)
        ensures
            r == Import::named(name@),
    {
        if str_eq(name, "FROM") {
            Some(Import::ImportFrom)
        } else if str_eq(name, "NAME") {
            Some(Import::ImportName)
        } else {
            None
        }
    }
}

/// The stack of open `for` loops: their end offsets and whether each loop
/// header is still being read.
pub struct JumpState {
    pub for_states: Vec<usize>,
    pub for_flags: Vec<bool>,
}

impl JumpState {
    /// Both stacks have one entry per open loop.
    pub open spec fn wf(&self) -> bool {
        self.for_states@.len() == self.for_flags@.len()
    }

    /// No loop is open.
    pub fn new() -> (r: JumpState)
        ensures
            r.wf(),
            r.for_states@ == Seq::<usize>::empty(),
    {
        JumpState { for_states: Vec::new(), for_flags: Vec::new() }
    }

    /// Opens a loop that ends at `offset`; its header is being read.
    pub fn begin_for(&mut self, offset: usize)
        requires
            old(self).wf(),
        ensures
            final(self).wf(),
            final(self).for_states@ == old(self).for_states@.push(offset),
            final(self).for_flags@ == old(self).for_flags@.push(true),
    {
        self.for_states.push(offset);
        self.for_flags.push(true);
    }

    /// Closes the innermost loop if it ends at `offset`; says whether it did.
    pub fn try_end_for(&mut self, offset: usize) -> (r: bool)
        requires
            old(self).wf(),
        ensures
            final(self).wf(),
            r == (old(self).for_states@.len() > 0 && old(self).for_states@.last() == offset),
            r ==> final(self).for_states@ == old(self).for_states@.drop_last()
                && final(self).for_flags@ == old(self).for_flags@.drop_last(),
            !r ==> *final(self) == *old(self),
    {
        if self.for_states.len() == 0 || self.for_states[self.for_states.len() - 1] != offset {
            return false;
        }
        self.for_states.pop();
        self.for_flags.pop();
        true
    }

    /// Whether the innermost loop's header is still being read.
    pub fn is_forexpr_not_end(&self) -> (r: bool)
        requires
            self.wf(),
        ensures
            r == (self.for_flags@.len() > 0 && self.for_flags@.last()),
    {
        self.for_flags.len() > 0 && self.for_flags[self.for_flags.len() - 1]
    }

    /// Marks the innermost loop's header as read.
    pub fn end_forexpr(&mut self)
        requires
            old(self).wf(),
        ensures
            final(self).wf(),
            final(self).for_states@ == old(self).for_states@,
            old(self).for_flags@.len() > 0 ==> final(self).for_flags@ == old(self).for_flags@.update(
                old(self).for_flags@.len() - 1,
                false,
            ),
            old(self).for_flags@.len() == 0 ==> final(self).for_flags@ == old(self).for_flags@,
    {
        let n = self.for_flags.len();
        if n > 0 {
            self.for_flags.set(n - 1, false);
        }
    }
}

/// The kinds of jumps.
#[derive(Debug, Clone, Copy, PartialEq, Eq, Hash, Structural)]
pub enum Jump {
    For,
    If,
    Else,
    While,
    Continue,
    Break,
    End,
}

/// The Python value kinds that `BUILD_*` opcodes make.
#[derive(Debug, Clone, Copy, PartialEq, Eq, Hash, Structural)]
pub enum ValueType {
    Common,
    List,
    Slice,
    Tuple,
    SetValue,
    Dict,
}

/// `v` with every `, ` turned into `:` and every `None` removed.
pub open spec fn slice_text(v: Seq<char>) -> Seq<char> {
    replace_seq(replace_seq(v, ", "@, ":"@), "None"@, ""@)
}

/// The parenthesised part of `v`, or nothing.
pub open spec fn paren_text(v: Seq<char>) -> Seq<char> {
    match paren_span(v) {
        Some(m) => m,
        None => Seq::empty(),
    }
}

impl ValueType {
    /// The kind named by the lower-case text `l`; any other name is `Common`.
    pub open spec fn named(l: Seq<char>) -> ValueType {
        if l == "list"@ {
            ValueType::List
        } else if l == "slice"@ {
            ValueType::Slice
        } else if l == "tuple"@ {
            ValueType::Tuple
        } else if l == "set"@ {
            ValueType::SetValue
        } else if l == "dict"@ {
            ValueType::Dict
        } else {
            ValueType::Common
        }
    }

    /// What `build` writes for `value`.
    pub open spec fn spec_build(self, value: Option<Seq<char>>) -> Seq<char> {
        match (self, value) {
            (ValueType::List, None) => "[]"@,
            (ValueType::List, Some(v)) => "["@ + paren_text(v) + "]"@,
            (ValueType::Slice, Some(v)) => slice_text(v),
            (ValueType::SetValue, None) => "{}"@,
            (ValueType::SetValue, Some(v)) => "{"@ + paren_text(v) + "}"@,
            (ValueType::Dict, None) => "{}"@,
            (ValueType::Dict, Some(v)) => "{"@ + paren_text(v) + "}"@,
            (ValueType::Tuple, Some(v)) => v,
            (ValueType::Common, Some(v)) => v,
            (_, None) => Seq::empty(),
        }
    }

    /// Writes `value` in the Python syntax of this kind. Slices, tuples and
    /// plain values need a value.
    pub fn build(&self, value: Option<&str>) -> (r: String)
        requires
            value is None ==> (*self is List || *self is SetValue || *self is Dict),
        ensures
            r@ == self.spec_build(match value {
                Some(v) => Some(v@),
                None => None,
            }),
    {
        match self {
            ValueType::List => match value {
                None => String::from_str("[]"),
                Some(v) => concat3("[", Self::paren_or_empty(v).as_str(), "]"),
            },
            ValueType::Slice => {
                let v = value.unwrap();
                proof {
                    reveal_strlit(", ");
                    reveal_strlit("None");
                }
                let joined = replace(v, ", ", ":");
                replace(joined.as_str(), "None", "")
            },
            ValueType::SetValue => match value {
                None => String::from_str("{}"),
                Some(v) => concat3("{", Self::paren_or_empty(v).as_str(), "}"),
            },
            ValueType::Tuple => String::from_str(value.unwrap()),
            ValueType::Dict => match value {
                None => String::from_str("{}"),
                Some(v) => concat3("{", Self::paren_or_empty(v).as_str(), "}"),
            },
            ValueType::Common => String::from_str(value.unwrap()),
        }
    }

    fn paren_or_empty(v: &str) -> (r: String)
        ensures
            r@ == paren_text(v@),
    {
        match find_paren_span(v) {
            Some(m) => m,
            None => String::new(),
        }
    }

    /// The kind named by `s`, whatever its letter case; never `None`.
    pub fn get(s: &str) -> (r: Option<ValueType>)
        ensures
            r == Some(ValueType::named(lowercase(s@))),
    {
        let l = to_lowercase(s);
        Some(ValueType::from_lowercase(l.as_str()))
    }

    /// The kind named by the already lower-cased `l`.
    pub fn from_lowercase(l: &str) -> (r: ValueType)
        ensures
            r == ValueType::named(l@),
    {
        if str_eq(l, "list") {
            ValueType::List
        } else if str_eq(l, "slice") {
            ValueType::Slice
        } else if str_eq(l, "tuple") {
            ValueType::Tuple
        } else if str_eq(l, "set") {
            ValueType::SetValue
        } else if str_eq(l, "dict") {
            ValueType::Dict
        } else {
            ValueType::Common
        }
    }
}

/// The unary opcodes, named in upper case.
#[derive(Debug, Clone, Copy, PartialEq, Eq, Hash, Structural)]
pub enum Unary {
    Not,
    Neg,
    Invert,
}

impl Unary {
    /// The operation named by the upper-case opcode part `s`.
    pub open spec fn named(s: Seq<char>) -> Option<Unary> {
        if s == "NOT"@ {
            Some(Unary::Not)
        } else if s == "NEGATIVE"@ {
            Some(Unary::Neg)
        } else if s == "INVERT"@ {
            Some(Unary::Invert)
        } else {
            None
        }
    }

    /// The Python prefix that spells the operation.
    pub open spec fn prefix(self) -> Seq<char> {
        match self {
            Unary::Not => "not "@,
            Unary::Neg => "-"@,
            Unary::Invert => "~"@,
        }
    }

    /// The operation named by the upper-case opcode part `s`.
    pub fn get(s: &str) -> (r: Option<Unary>)
        ensures
            r == Unary::named(s@),
    {
        if str_eq(s, "NOT") {
            Some(Unary::Not)
        } else if str_eq(s, "NEGATIVE") {
            Some(Unary::Neg)
        } else if str_eq(s, "INVERT") {
            Some(Unary::Invert)
        } else {
            None
        }
    }

    /// The Python prefix that spells the operation.
    pub fn to_str(self) -> (r: &'static str)
        ensures
            r@ == self.prefix(),
    {
        match self {
            Unary::Not => "not ",
            Unary::Neg => "-",
            Unary::Invert => "~",
        }
    }

    /// `expr` with the operation's prefix in front.
    pub fn get_expr(&self, expr: &str) -> (r: String)
        ensures
            r@ == self.prefix() + expr@,
    {
        concat2(self.to_str(), expr)
    }
}

/// Each opcode-name word reads as the kind of the same name: `list`,
/// `slice`, `tuple`, `set`, `dict` as the value kinds a build makes (any
/// other word as a plain value); `NOT`, `NEGATIVE`, `INVERT` as the unary
/// kinds; `FROM` and `NAME` as the import kinds.
pub proof fn law_kind_names()
    ensures
        ValueType::named("list"@) == ValueType::List,
        ValueType::named("slice"@) == ValueType::Slice,
        ValueType::named("tuple"@) == ValueType::Tuple,
        ValueType::named("set"@) == ValueType::SetValue,
        ValueType::named("dict"@) == ValueType::Dict,
        Unary::named("NOT"@) == Some(Unary::Not),
        Unary::named("NEGATIVE"@) == Some(Unary::Neg),
        Unary::named("INVERT"@) == Some(Unary::Invert),
        Import::named("FROM"@) == Some(Import::ImportFrom),
        Import::named("NAME"@) == Some(Import::ImportName),
{
    reveal_strlit("list");
    reveal_strlit("slice");
    reveal_strlit("tuple");
    reveal_strlit("set");
    reveal_strlit("dict");
    reveal_strlit("NOT");
    reveal_strlit("NEGATIVE");
    reveal_strlit("INVERT");
    reveal_strlit("FROM");
    reveal_strlit("NAME");
    assert("slice"@.len() != "list"@.len());
    assert("tuple"@.len() != "list"@.len());
    assert("tuple"@[0] != "slice"@[0]);
    assert("set"@.len() != "list"@.len());
    assert("set"@.len() != "slice"@.len());
    assert("set"@.len() != "tuple"@.len());
    assert("dict"@[0] != "list"@[0]);
    assert("dict"@.len() != "slice"@.len());
    assert("dict"@.len() != "tuple"@.len());
    assert("dict"@.len() != "set"@.len());
    assert("NEGATIVE"@.len() != "NOT"@.len());
    assert("INVERT"@.len() != "NOT"@.len());
    assert("INVERT"@.len() != "NEGATIVE"@.len());
    assert("NAME"@[0] != "FROM"@[0]);
}

} // verus!
