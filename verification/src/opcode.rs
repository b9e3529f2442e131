//! Opcodes and the instructions of a disassembly.

use vstd::prelude::*;
use crate::text::str_eq;

verus! {

/// The opcodes the decompiler knows; any other name reads as `Unknown`.
#[derive(Debug, Clone, Copy, PartialEq, Eq, Structural)]
pub enum Opcode {
    LoadConst,
    LoadName,
    LoadGlobal,
    LoadFast,
    LoadAttr,
    LoadMethod,
    StoreName,
    StoreGlobal,
    StoreFast,
    StoreAttr,
    LoadBuildClass,
    FormatValue,
    BuildString,
    BuildTuple,
    BuildList,
    ListExtend,
    BuildSet,
    BuildMap,
    BuildConstKeyMap,
    BuildSlice,
    MakeFunction,
    BinaryOp,
    CompareOp,
    IsOp,
    ContainsOp,
    BinarySubscr,
    UnaryInvert,
    UnaryNegative,
    UnaryNot,
    Call,
    ReturnValue,
    YieldValue,
    ImportFrom,
    ImportName,
    PopJumpIfTrue,
    PopJumpIfFalse,
    JumpForward,
    JumpBackward,
    LoadAssertionError,
    RaiseVarargs,
    CheckExcMatch,
    BeforeWith,
    BeforeAsyncWith,
    ForIter,
    GetAiter,
    EndAsyncFor,
    GetAwaitable,
    UnpackSequence,
    Copy,
    Swap,
    Nop,
    Resume,
    PushNull,
    Precall,
    PopTop,
    Unknown,
}

/// The opcode that the name `name` of a disassembly denotes.
pub open spec fn opcode_named(name: Seq<char>) -> Opcode {
    if name == "LOAD_CONST"@ {
        Opcode::LoadConst
    } else if name == "LOAD_NAME"@ {
        Opcode::LoadName
    } else if name == "LOAD_GLOBAL"@ {
        Opcode::LoadGlobal
    } else if name == "LOAD_FAST"@ {
        Opcode::LoadFast
    } else if name == "LOAD_ATTR"@ {
        Opcode::LoadAttr
    } else if name == "LOAD_METHOD"@ {
        Opcode::LoadMethod
    } else if name == "STORE_NAME"@ {
        Opcode::StoreName
    } else if name == "STORE_GLOBAL"@ {
        Opcode::StoreGlobal
    } else if name == "STORE_FAST"@ {
        Opcode::StoreFast
    } else if name == "STORE_ATTR"@ {
        Opcode::StoreAttr
    } else if name == "LOAD_BUILD_CLASS"@ {
        Opcode::LoadBuildClass
    } else if name == "FORMAT_VALUE"@ {
        Opcode::FormatValue
    } else if name == "BUILD_STRING"@ {
        Opcode::BuildString
    } else if name == "BUILD_TUPLE"@ {
        Opcode::BuildTuple
    } else if name == "BUILD_LIST"@ {
        Opcode::BuildList
    } else if name == "LIST_EXTEND"@ {
        Opcode::ListExtend
    } else if name == "BUILD_SET"@ {
        Opcode::BuildSet
    } else if name == "BUILD_MAP"@ {
        Opcode::BuildMap
    } else if name == "BUILD_CONST_KEY_MAP"@ {
        Opcode::BuildConstKeyMap
    } else if name == "BUILD_SLICE"@ {
        Opcode::BuildSlice
    } else if name == "MAKE_FUNCTION"@ {
        Opcode::MakeFunction
    } else if name == "BINARY_OP"@ {
        Opcode::BinaryOp
    } else if name == "COMPARE_OP"@ {
        Opcode::CompareOp
    } else if name == "IS_OP"@ {
        Opcode::IsOp
    } else if name == "CONTAINS_OP"@ {
        Opcode::ContainsOp
    } else if name == "BINARY_SUBSCR"@ {
        Opcode::BinarySubscr
    } else if name == "UNARY_INVERT"@ {
        Opcode::UnaryInvert
    } else if name == "UNARY_NEGATIVE"@ {
        Opcode::UnaryNegative
    } else if name == "UNARY_NOT"@ {
        Opcode::UnaryNot
    } else if name == "CALL"@ {
        Opcode::Call
    } else if name == "RETURN_VALUE"@ {
        Opcode::ReturnValue
    } else if name == "YIELD_VALUE"@ {
        Opcode::YieldValue
    } else if name == "IMPORT_FROM"@ {
        Opcode::ImportFrom
    } else if name == "IMPORT_NAME"@ {
        Opcode::ImportName
    } else if name == "POP_JUMP_IF_TRUE"@ {
        Opcode::PopJumpIfTrue
    } else if name == "POP_JUMP_IF_FALSE"@ {
        Opcode::PopJumpIfFalse
    } else if name == "JUMP_FORWARD"@ {
        Opcode::JumpForward
    } else if name == "JUMP_BACKWARD"@ {
        Opcode::JumpBackward
    } else if name == "LOAD_ASSERTION_ERROR"@ {
        Opcode::LoadAssertionError
    } else if name == "RAISE_VARARGS"@ {
        Opcode::RaiseVarargs
    } else if name == "CHECK_EXC_MATCH"@ {
        Opcode::CheckExcMatch
    } else if name == "BEFORE_WITH"@ {
        Opcode::BeforeWith
    } else if name == "BEFORE_ASYNC_WITH"@ {
        Opcode::BeforeAsyncWith
    } else if name == "FOR_ITER"@ {
        Opcode::ForIter
    } else if name == "GET_AITER"@ {
        Opcode::GetAiter
    } else if name == "END_ASYNC_FOR"@ {
        Opcode::EndAsyncFor
    } else if name == "GET_AWAITABLE"@ {
        Opcode::GetAwaitable
    } else if name == "UNPACK_SEQUENCE"@ {
        Opcode::UnpackSequence
    } else if name == "COPY"@ {
        Opcode::Copy
    } else if name == "SWAP"@ {
        Opcode::Swap
    } else if name == "NOP"@ {
        Opcode::Nop
    } else if name == "RESUME"@ {
        Opcode::Resume
    } else if name == "PUSH_NULL"@ {
        Opcode::PushNull
    } else if name == "PRECALL"@ {
        Opcode::Precall
    } else if name == "POP_TOP"@ {
        Opcode::PopTop
    } else {
        Opcode::Unknown
    }
}

impl Opcode {
    /// The opcode that the name `name` of a disassembly denotes.
    pub fn from_opname(name: &str) -> (r: Opcode)
        ensures
            r == opcode_named(name@),
    {
        if str_eq(name, "LOAD_CONST") {
            Opcode::LoadConst
        } else if str_eq(name, "LOAD_NAME") {
            Opcode::LoadName
        } else if str_eq(name, "LOAD_GLOBAL") {
            Opcode::LoadGlobal
        } else if str_eq(name, "LOAD_FAST") {
            Opcode::LoadFast
        } else if str_eq(name, "LOAD_ATTR") {
            Opcode::LoadAttr
        } else if str_eq(name, "LOAD_METHOD") {
            Opcode::LoadMethod
        } else if str_eq(name, "STORE_NAME") {
            Opcode::StoreName
        } else if str_eq(name, "STORE_GLOBAL") {
            Opcode::StoreGlobal
        } else if str_eq(name, "STORE_FAST") {
            Opcode::StoreFast
        } else if str_eq(name, "STORE_ATTR") {
            Opcode::StoreAttr
        } else if str_eq(name, "LOAD_BUILD_CLASS") {
            Opcode::LoadBuildClass
        } else if str_eq(name, "FORMAT_VALUE") {
            Opcode::FormatValue
        } else if str_eq(name, "BUILD_STRING") {
            Opcode::BuildString
        } else if str_eq(name, "BUILD_TUPLE") {
            Opcode::BuildTuple
        } else if str_eq(name, "BUILD_LIST") {
            Opcode::BuildList
        } else if str_eq(name, "LIST_EXTEND") {
            Opcode::ListExtend
        } else if str_eq(name, "BUILD_SET") {
            Opcode::BuildSet
        } else if str_eq(name, "BUILD_MAP") {
            Opcode::BuildMap
        } else if str_eq(name, "BUILD_CONST_KEY_MAP") {
            Opcode::BuildConstKeyMap
        } else if str_eq(name, "BUILD_SLICE") {
            Opcode::BuildSlice
        } else if str_eq(name, "MAKE_FUNCTION") {
            Opcode::MakeFunction
        } else if str_eq(name, "BINARY_OP") {
            Opcode::BinaryOp
        } else if str_eq(name, "COMPARE_OP") {
            Opcode::CompareOp
        } else if str_eq(name, "IS_OP") {
            Opcode::IsOp
        } else if str_eq(name, "CONTAINS_OP") {
            Opcode::ContainsOp
        } else if str_eq(name, "BINARY_SUBSCR") {
            Opcode::BinarySubscr
        } else if str_eq(name, "UNARY_INVERT") {
            Opcode::UnaryInvert
        } else if str_eq(name, "UNARY_NEGATIVE") {
            Opcode::UnaryNegative
        } else if str_eq(name, "UNARY_NOT") {
            Opcode::UnaryNot
        } else if str_eq(name, "CALL") {
            Opcode::Call
        } else if str_eq(name, "RETURN_VALUE") {
            Opcode::ReturnValue
        } else if str_eq(name, "YIELD_VALUE") {
            Opcode::YieldValue
        } else if str_eq(name, "IMPORT_FROM") {
            Opcode::ImportFrom
        } else if str_eq(name, "IMPORT_NAME") {
            Opcode::ImportName
        } else if str_eq(name, "POP_JUMP_IF_TRUE") {
            Opcode::PopJumpIfTrue
        } else if str_eq(name, "POP_JUMP_IF_FALSE") {
            Opcode::PopJumpIfFalse
        } else if str_eq(name, "JUMP_FORWARD") {
            Opcode::JumpForward
        } else if str_eq(name, "JUMP_BACKWARD") {
            Opcode::JumpBackward
        } else if str_eq(name, "LOAD_ASSERTION_ERROR") {
            Opcode::LoadAssertionError
        } else if str_eq(name, "RAISE_VARARGS") {
            Opcode::RaiseVarargs
        } else if str_eq(name, "CHECK_EXC_MATCH") {
            Opcode::CheckExcMatch
        } else if str_eq(name, "BEFORE_WITH") {
            Opcode::BeforeWith
        } else if str_eq(name, "BEFORE_ASYNC_WITH") {
            Opcode::BeforeAsyncWith
        } else if str_eq(name, "FOR_ITER") {
            Opcode::ForIter
        } else if str_eq(name, "GET_AITER") {
            Opcode::GetAiter
        } else if str_eq(name, "END_ASYNC_FOR") {
            Opcode::EndAsyncFor
        } else if str_eq(name, "GET_AWAITABLE") {
            Opcode::GetAwaitable
        } else if str_eq(name, "UNPACK_SEQUENCE") {
            Opcode::UnpackSequence
        } else if str_eq(name, "COPY") {
            Opcode::Copy
        } else if str_eq(name, "SWAP") {
            Opcode::Swap
        } else if str_eq(name, "NOP") {
            Opcode::Nop
        } else if str_eq(name, "RESUME") {
            Opcode::Resume
        } else if str_eq(name, "PUSH_NULL") {
            Opcode::PushNull
        } else if str_eq(name, "PRECALL") {
            Opcode::Precall
        } else if str_eq(name, "POP_TOP") {
            Opcode::PopTop
        } else {
            Opcode::Unknown
        }
    }
}

/// One instruction of a disassembly.
#[derive(Debug, Clone, PartialEq, Eq)]
pub struct OpcodeInstruction {
    pub opcode: Opcode,
    pub opname: String,
    pub arg: Option<usize>,
    pub argval: Option<String>,
    pub offset: usize,
    pub starts_line: Option<usize>,
    pub is_jump_target: bool,
    pub positions: Vec<usize>,
}

impl OpcodeInstruction {
    /// The instruction named `opname` with its argument, the argument's
    /// value as shown, its offset and the line it starts, if any.
    pub fn new(
        opname: &str,
        arg: Option<usize>,
        argval: Option<String>,
        offset: usize,
        starts_line: Option<usize>,
    ) -> (r: OpcodeInstruction)
        ensures
            r.opcode == opcode_named(opname@),
            r.opname@ == opname@,
            r.arg == arg,
            r.argval == argval,
            r.offset == offset,
            r.starts_line == starts_line,
            !r.is_jump_target,
            r.positions@ == Seq::<usize>::empty(),
    {
        OpcodeInstruction {
            opcode: Opcode::from_opname(opname),
            opname: String::from_str(opname),
            arg,
            argval,
            offset,
            starts_line,
            is_jump_target: false,
            positions: Vec::new(),
        }
    }

    /// The opcode of the instruction.
    pub fn opcode(&self) -> (r: Opcode)
        ensures
            r == self.opcode,
    {
        self.opcode
    }
}

/// The name of an opcode in a disassembly.
pub open spec fn spelling(o: Opcode) -> Seq<char> {
    match o {
        Opcode::LoadConst => "LOAD_CONST"@,
        Opcode::LoadName => "LOAD_NAME"@,
        Opcode::LoadGlobal => "LOAD_GLOBAL"@,
        Opcode::LoadFast => "LOAD_FAST"@,
        Opcode::LoadAttr => "LOAD_ATTR"@,
        Opcode::LoadMethod => "LOAD_METHOD"@,
        Opcode::StoreName => "STORE_NAME"@,
        Opcode::StoreGlobal => "STORE_GLOBAL"@,
        Opcode::StoreFast => "STORE_FAST"@,
        Opcode::StoreAttr => "STORE_ATTR"@,
        Opcode::LoadBuildClass => "LOAD_BUILD_CLASS"@,
        Opcode::FormatValue => "FORMAT_VALUE"@,
        Opcode::BuildString => "BUILD_STRING"@,
        Opcode::BuildTuple => "BUILD_TUPLE"@,
        Opcode::BuildList => "BUILD_LIST"@,
        Opcode::ListExtend => "LIST_EXTEND"@,
        Opcode::BuildSet => "BUILD_SET"@,
        Opcode::BuildMap => "BUILD_MAP"@,
        Opcode::BuildConstKeyMap => "BUILD_CONST_KEY_MAP"@,
        Opcode::BuildSlice => "BUILD_SLICE"@,
        Opcode::MakeFunction => "MAKE_FUNCTION"@,
        Opcode::BinaryOp => "BINARY_OP"@,
        Opcode::CompareOp => "COMPARE_OP"@,
        Opcode::IsOp => "IS_OP"@,
        Opcode::ContainsOp => "CONTAINS_OP"@,
        Opcode::BinarySubscr => "BINARY_SUBSCR"@,
        Opcode::UnaryInvert => "UNARY_INVERT"@,
        Opcode::UnaryNegative => "UNARY_NEGATIVE"@,
        Opcode::UnaryNot => "UNARY_NOT"@,
        Opcode::Call => "CALL"@,
        Opcode::ReturnValue => "RETURN_VALUE"@,
        Opcode::YieldValue => "YIELD_VALUE"@,
        Opcode::ImportFrom => "IMPORT_FROM"@,
        Opcode::ImportName => "IMPORT_NAME"@,
        Opcode::PopJumpIfTrue => "POP_JUMP_IF_TRUE"@,
        Opcode::PopJumpIfFalse => "POP_JUMP_IF_FALSE"@,
        Opcode::JumpForward => "JUMP_FORWARD"@,
        Opcode::JumpBackward => "JUMP_BACKWARD"@,
        Opcode::LoadAssertionError => "LOAD_ASSERTION_ERROR"@,
        Opcode::RaiseVarargs => "RAISE_VARARGS"@,
        Opcode::CheckExcMatch => "CHECK_EXC_MATCH"@,
        Opcode::BeforeWith => "BEFORE_WITH"@,
        Opcode::BeforeAsyncWith => "BEFORE_ASYNC_WITH"@,
        Opcode::ForIter => "FOR_ITER"@,
        Opcode::GetAiter => "GET_AITER"@,
        Opcode::EndAsyncFor => "END_ASYNC_FOR"@,
        Opcode::GetAwaitable => "GET_AWAITABLE"@,
        Opcode::UnpackSequence => "UNPACK_SEQUENCE"@,
        Opcode::Copy => "COPY"@,
        Opcode::Swap => "SWAP"@,
        Opcode::Nop => "NOP"@,
        Opcode::Resume => "RESUME"@,
        Opcode::PushNull => "PUSH_NULL"@,
        Opcode::Precall => "PRECALL"@,
        Opcode::PopTop => "POP_TOP"@,
        Opcode::Unknown => Seq::empty(),
    }
}

/// Each opcode name of a disassembly reads as the opcode of the same name:
/// `UNARY_NEGATIVE` as `UnaryNegative`, `UNARY_INVERT` as `UnaryInvert`,
/// and so on for every opcode the decompiler knows.
pub proof fn law_names_read_as_their_opcode(o: Opcode)
    requires
        o != Opcode::Unknown,
    ensures
        opcode_named(spelling(o)) == o,
{
    reveal_strlit("LOAD_CONST");
    reveal_strlit("LOAD_NAME");
    reveal_strlit("LOAD_GLOBAL");
    reveal_strlit("LOAD_FAST");
    reveal_strlit("LOAD_ATTR");
    reveal_strlit("LOAD_METHOD");
    reveal_strlit("STORE_NAME");
    reveal_strlit("STORE_GLOBAL");
    reveal_strlit("STORE_FAST");
    reveal_strlit("STORE_ATTR");
    reveal_strlit("LOAD_BUILD_CLASS");
    reveal_strlit("FORMAT_VALUE");
    reveal_strlit("BUILD_STRING");
    reveal_strlit("BUILD_TUPLE");
    reveal_strlit("BUILD_LIST");
    reveal_strlit("LIST_EXTEND");
    reveal_strlit("BUILD_SET");
    reveal_strlit("BUILD_MAP");
    reveal_strlit("BUILD_CONST_KEY_MAP");
    reveal_strlit("BUILD_SLICE");
    reveal_strlit("MAKE_FUNCTION");
    reveal_strlit("BINARY_OP");
    reveal_strlit("COMPARE_OP");
    reveal_strlit("IS_OP");
    reveal_strlit("CONTAINS_OP");
    reveal_strlit("BINARY_SUBSCR");
    reveal_strlit("UNARY_INVERT");
    reveal_strlit("UNARY_NEGATIVE");
    reveal_strlit("UNARY_NOT");
    reveal_strlit("CALL");
    reveal_strlit("RETURN_VALUE");
    reveal_strlit("YIELD_VALUE");
    reveal_strlit("IMPORT_FROM");
    reveal_strlit("IMPORT_NAME");
    reveal_strlit("POP_JUMP_IF_TRUE");
    reveal_strlit("POP_JUMP_IF_FALSE");
    reveal_strlit("JUMP_FORWARD");
    reveal_strlit("JUMP_BACKWARD");
    reveal_strlit("LOAD_ASSERTION_ERROR");
    reveal_strlit("RAISE_VARARGS");
    reveal_strlit("CHECK_EXC_MATCH");
    reveal_strlit("BEFORE_WITH");
    reveal_strlit("BEFORE_ASYNC_WITH");
    reveal_strlit("FOR_ITER");
    reveal_strlit("GET_AITER");
    reveal_strlit("END_ASYNC_FOR");
    reveal_strlit("GET_AWAITABLE");
    reveal_strlit("UNPACK_SEQUENCE");
    reveal_strlit("COPY");
    reveal_strlit("SWAP");
    reveal_strlit("NOP");
    reveal_strlit("RESUME");
    reveal_strlit("PUSH_NULL");
    reveal_strlit("PRECALL");
    reveal_strlit("POP_TOP");
    match o {
        Opcode::LoadConst => {
            assert(spelling(o) == "LOAD_CONST"@);

        },
        Opcode::LoadName => {
            assert(spelling(o) == "LOAD_NAME"@);

        },
        Opcode::LoadGlobal => {
            assert(spelling(o) == "LOAD_GLOBAL"@);

        },
        Opcode::LoadFast => {
            assert(spelling(o) == "LOAD_FAST"@);
            assert("LOAD_FAST"@[5] != "LOAD_NAME"@[5]);
        },
        Opcode::LoadAttr => {
            assert(spelling(o) == "LOAD_ATTR"@);
            assert("LOAD_ATTR"@[5] != "LOAD_NAME"@[5]);
            assert("LOAD_ATTR"@[5] != "LOAD_FAST"@[5]);
        },
        Opcode::LoadMethod => {
            assert(spelling(o) == "LOAD_METHOD"@);
            assert("LOAD_METHOD"@[5] != "LOAD_GLOBAL"@[5]);
        },
        Opcode::StoreName => {
            assert(spelling(o) == "STORE_NAME"@);
            assert("STORE_NAME"@[0] != "LOAD_CONST"@[0]);
        },
        Opcode::StoreGlobal => {
            assert(spelling(o) == "STORE_GLOBAL"@);

        },
        Opcode::StoreFast => {
            assert(spelling(o) == "STORE_FAST"@);
            assert("STORE_FAST"@[0] != "LOAD_CONST"@[0]);
            assert("STORE_FAST"@[6] != "STORE_NAME"@[6]);
        },
        Opcode::StoreAttr => {
            assert(spelling(o) == "STORE_ATTR"@);
            assert("STORE_ATTR"@[0] != "LOAD_CONST"@[0]);
            assert("STORE_ATTR"@[6] != "STORE_NAME"@[6]);
            assert("STORE_ATTR"@[6] != "STORE_FAST"@[6]);
        },
        Opcode::LoadBuildClass => {
            assert(spelling(o) == "LOAD_BUILD_CLASS"@);

        },
        Opcode::FormatValue => {
            assert(spelling(o) == "FORMAT_VALUE"@);
            assert("FORMAT_VALUE"@[0] != "STORE_GLOBAL"@[0]);
        },
        Opcode::BuildString => {
            assert(spelling(o) == "BUILD_STRING"@);
            assert("BUILD_STRING"@[0] != "STORE_GLOBAL"@[0]);
            assert("BUILD_STRING"@[0] != "FORMAT_VALUE"@[0]);
        },
        Opcode::BuildTuple => {
            assert(spelling(o) == "BUILD_TUPLE"@);
            assert("BUILD_TUPLE"@[0] != "LOAD_GLOBAL"@[0]);
            assert("BUILD_TUPLE"@[0] != "LOAD_METHOD"@[0]);
        },
        Opcode::BuildList => {
            assert(spelling(o) == "BUILD_LIST"@);
            assert("BUILD_LIST"@[0] != "LOAD_CONST"@[0]);
            assert("BUILD_LIST"@[0] != "STORE_NAME"@[0]);
            assert("BUILD_LIST"@[0] != "STORE_FAST"@[0]);
            assert("BUILD_LIST"@[0] != "STORE_ATTR"@[0]);
        },
        Opcode::ListExtend => {
            assert(spelling(o) == "LIST_EXTEND"@);
            assert("LIST_EXTEND"@[1] != "LOAD_GLOBAL"@[1]);
            assert("LIST_EXTEND"@[1] != "LOAD_METHOD"@[1]);
            assert("LIST_EXTEND"@[0] != "BUILD_TUPLE"@[0]);
        },
        Opcode::BuildSet => {
            assert(spelling(o) == "BUILD_SET"@);
            assert("BUILD_SET"@[0] != "LOAD_NAME"@[0]);
            assert("BUILD_SET"@[0] != "LOAD_FAST"@[0]);
            assert("BUILD_SET"@[0] != "LOAD_ATTR"@[0]);
        },
        Opcode::BuildMap => {
            assert(spelling(o) == "BUILD_MAP"@);
            assert("BUILD_MAP"@[0] != "LOAD_NAME"@[0]);
            assert("BUILD_MAP"@[0] != "LOAD_FAST"@[0]);
            assert("BUILD_MAP"@[0] != "LOAD_ATTR"@[0]);
            assert("BUILD_MAP"@[6] != "BUILD_SET"@[6]);
        },
        Opcode::BuildConstKeyMap => {
            assert(spelling(o) == "BUILD_CONST_KEY_MAP"@);

        },
        Opcode::BuildSlice => {
            assert(spelling(o) == "BUILD_SLICE"@);
            assert("BUILD_SLICE"@[0] != "LOAD_GLOBAL"@[0]);
            assert("BUILD_SLICE"@[0] != "LOAD_METHOD"@[0]);
            assert("BUILD_SLICE"@[6] != "BUILD_TUPLE"@[6]);
            assert("BUILD_SLICE"@[0] != "LIST_EXTEND"@[0]);
        },
        Opcode::MakeFunction => {
            assert(spelling(o) == "MAKE_FUNCTION"@);

        },
        Opcode::BinaryOp => {
            assert(spelling(o) == "BINARY_OP"@);
            assert("BINARY_OP"@[0] != "LOAD_NAME"@[0]);
            assert("BINARY_OP"@[0] != "LOAD_FAST"@[0]);
            assert("BINARY_OP"@[0] != "LOAD_ATTR"@[0]);
            assert("BINARY_OP"@[1] != "BUILD_SET"@[1]);
            assert("BINARY_OP"@[1] != "BUILD_MAP"@[1]);
        },
        Opcode::CompareOp => {
            assert(spelling(o) == "COMPARE_OP"@);
            assert("COMPARE_OP"@[0] != "LOAD_CONST"@[0]);
            assert("COMPARE_OP"@[0] != "STORE_NAME"@[0]);
            assert("COMPARE_OP"@[0] != "STORE_FAST"@[0]);
            assert("COMPARE_OP"@[0] != "STORE_ATTR"@[0]);
            assert("COMPARE_OP"@[0] != "BUILD_LIST"@[0]);
        },
        Opcode::IsOp => {
            assert(spelling(o) == "IS_OP"@);

        },
        Opcode::ContainsOp => {
            assert(spelling(o) == "CONTAINS_OP"@);
            assert("CONTAINS_OP"@[0] != "LOAD_GLOBAL"@[0]);
            assert("CONTAINS_OP"@[0] != "LOAD_METHOD"@[0]);
            assert("CONTAINS_OP"@[0] != "BUILD_TUPLE"@[0]);
            assert("CONTAINS_OP"@[0] != "LIST_EXTEND"@[0]);
            assert("CONTAINS_OP"@[0] != "BUILD_SLICE"@[0]);
        },
        Opcode::BinarySubscr => {
            assert(spelling(o) == "BINARY_SUBSCR"@);
            assert("BINARY_SUBSCR"@[0] != "MAKE_FUNCTION"@[0]);
        },
        Opcode::UnaryInvert => {
            assert(spelling(o) == "UNARY_INVERT"@);
            assert("UNARY_INVERT"@[0] != "STORE_GLOBAL"@[0]);
            assert("UNARY_INVERT"@[0] != "FORMAT_VALUE"@[0]);
            assert("UNARY_INVERT"@[0] != "BUILD_STRING"@[0]);
        },
        Opcode::UnaryNegative => {
            assert(spelling(o) == "UNARY_NEGATIVE"@);

        },
        Opcode::UnaryNot => {
            assert(spelling(o) == "UNARY_NOT"@);
            assert("UNARY_NOT"@[0] != "LOAD_NAME"@[0]);
            assert("UNARY_NOT"@[0] != "LOAD_FAST"@[0]);
            assert("UNARY_NOT"@[0] != "LOAD_ATTR"@[0]);
            assert("UNARY_NOT"@[0] != "BUILD_SET"@[0]);
            assert("UNARY_NOT"@[0] != "BUILD_MAP"@[0]);
            assert("UNARY_NOT"@[0] != "BINARY_OP"@[0]);
        },
        Opcode::Call => {
            assert(spelling(o) == "CALL"@);

        },
        Opcode::ReturnValue => {
            assert(spelling(o) == "RETURN_VALUE"@);
            assert("RETURN_VALUE"@[0] != "STORE_GLOBAL"@[0]);
            assert("RETURN_VALUE"@[0] != "FORMAT_VALUE"@[0]);
            assert("RETURN_VALUE"@[0] != "BUILD_STRING"@[0]);
            assert("RETURN_VALUE"@[0] != "UNARY_INVERT"@[0]);
        },
        Opcode::YieldValue => {
            assert(spelling(o) == "YIELD_VALUE"@);
            assert("YIELD_VALUE"@[0] != "LOAD_GLOBAL"@[0]);
            assert("YIELD_VALUE"@[0] != "LOAD_METHOD"@[0]);
            assert("YIELD_VALUE"@[0] != "BUILD_TUPLE"@[0]);
            assert("YIELD_VALUE"@[0] != "LIST_EXTEND"@[0]);
            assert("YIELD_VALUE"@[0] != "BUILD_SLICE"@[0]);
            assert("YIELD_VALUE"@[0] != "CONTAINS_OP"@[0]);
        },
        Opcode::ImportFrom => {
            assert(spelling(o) == "IMPORT_FROM"@);
            assert("IMPORT_FROM"@[0] != "LOAD_GLOBAL"@[0]);
            assert("IMPORT_FROM"@[0] != "LOAD_METHOD"@[0]);
            assert("IMPORT_FROM"@[0] != "BUILD_TUPLE"@[0]);
            assert("IMPORT_FROM"@[0] != "LIST_EXTEND"@[0]);
            assert("IMPORT_FROM"@[0] != "BUILD_SLICE"@[0]);
            assert("IMPORT_FROM"@[0] != "CONTAINS_OP"@[0]);
            assert("IMPORT_FROM"@[0] != "YIELD_VALUE"@[0]);
        },
        Opcode::ImportName => {
            assert(spelling(o) == "IMPORT_NAME"@);
            assert("IMPORT_NAME"@[0] != "LOAD_GLOBAL"@[0]);
            assert("IMPORT_NAME"@[0] != "LOAD_METHOD"@[0]);
            assert("IMPORT_NAME"@[0] != "BUILD_TUPLE"@[0]);
            assert("IMPORT_NAME"@[0] != "LIST_EXTEND"@[0]);
            assert("IMPORT_NAME"@[0] != "BUILD_SLICE"@[0]);
            assert("IMPORT_NAME"@[0] != "CONTAINS_OP"@[0]);
            assert("IMPORT_NAME"@[0] != "YIELD_VALUE"@[0]);
            assert("IMPORT_NAME"@[7] != "IMPORT_FROM"@[7]);
        },
        Opcode::PopJumpIfTrue => {
            assert(spelling(o) == "POP_JUMP_IF_TRUE"@);
            assert("POP_JUMP_IF_TRUE"@[0] != "LOAD_BUILD_CLASS"@[0]);
        },
        Opcode::PopJumpIfFalse => {
            assert(spelling(o) == "POP_JUMP_IF_FALSE"@);

        },
        Opcode::JumpForward => {
            assert(spelling(o) == "JUMP_FORWARD"@);
            assert("JUMP_FORWARD"@[0] != "STORE_GLOBAL"@[0]);
            assert("JUMP_FORWARD"@[0] != "FORMAT_VALUE"@[0]);
            assert("JUMP_FORWARD"@[0] != "BUILD_STRING"@[0]);
            assert("JUMP_FORWARD"@[0] != "UNARY_INVERT"@[0]);
            assert("JUMP_FORWARD"@[0] != "RETURN_VALUE"@[0]);
        },
        Opcode::JumpBackward => {
            assert(spelling(o) == "JUMP_BACKWARD"@);
            assert("JUMP_BACKWARD"@[0] != "MAKE_FUNCTION"@[0]);
            assert("JUMP_BACKWARD"@[0] != "BINARY_SUBSCR"@[0]);
        },
        Opcode::LoadAssertionError => {
            assert(spelling(o) == "LOAD_ASSERTION_ERROR"@);

        },
        Opcode::RaiseVarargs => {
            assert(spelling(o) == "RAISE_VARARGS"@);
            assert("RAISE_VARARGS"@[0] != "MAKE_FUNCTION"@[0]);
            assert("RAISE_VARARGS"@[0] != "BINARY_SUBSCR"@[0]);
            assert("RAISE_VARARGS"@[0] != "JUMP_BACKWARD"@[0]);
        },
        Opcode::CheckExcMatch => {
            assert(spelling(o) == "CHECK_EXC_MATCH"@);

        },
        Opcode::BeforeWith => {
            assert(spelling(o) == "BEFORE_WITH"@);
            assert("BEFORE_WITH"@[0] != "LOAD_GLOBAL"@[0]);
            assert("BEFORE_WITH"@[0] != "LOAD_METHOD"@[0]);
            assert("BEFORE_WITH"@[1] != "BUILD_TUPLE"@[1]);
            assert("BEFORE_WITH"@[0] != "LIST_EXTEND"@[0]);
            assert("BEFORE_WITH"@[1] != "BUILD_SLICE"@[1]);
            assert("BEFORE_WITH"@[0] != "CONTAINS_OP"@[0]);
            assert("BEFORE_WITH"@[0] != "YIELD_VALUE"@[0]);
            assert("BEFORE_WITH"@[0] != "IMPORT_FROM"@[0]);
            assert("BEFORE_WITH"@[0] != "IMPORT_NAME"@[0]);
        },
        Opcode::BeforeAsyncWith => {
            assert(spelling(o) == "BEFORE_ASYNC_WITH"@);
            assert("BEFORE_ASYNC_WITH"@[0] != "POP_JUMP_IF_FALSE"@[0]);
        },
        Opcode::ForIter => {
            assert(spelling(o) == "FOR_ITER"@);

        },
        Opcode::GetAiter => {
            assert(spelling(o) == "GET_AITER"@);
            assert("GET_AITER"@[0] != "LOAD_NAME"@[0]);
            assert("GET_AITER"@[0] != "LOAD_FAST"@[0]);
            assert("GET_AITER"@[0] != "LOAD_ATTR"@[0]);
            assert("GET_AITER"@[0] != "BUILD_SET"@[0]);
            assert("GET_AITER"@[0] != "BUILD_MAP"@[0]);
            assert("GET_AITER"@[0] != "BINARY_OP"@[0]);
            assert("GET_AITER"@[0] != "UNARY_NOT"@[0]);
        },
        Opcode::EndAsyncFor => {
            assert(spelling(o) == "END_ASYNC_FOR"@);
            assert("END_ASYNC_FOR"@[0] != "MAKE_FUNCTION"@[0]);
            assert("END_ASYNC_FOR"@[0] != "BINARY_SUBSCR"@[0]);
            assert("END_ASYNC_FOR"@[0] != "JUMP_BACKWARD"@[0]);
            assert("END_ASYNC_FOR"@[0] != "RAISE_VARARGS"@[0]);
        },
        Opcode::GetAwaitable => {
            assert(spelling(o) == "GET_AWAITABLE"@);
            assert("GET_AWAITABLE"@[0] != "MAKE_FUNCTION"@[0]);
            assert("GET_AWAITABLE"@[0] != "BINARY_SUBSCR"@[0]);
            assert("GET_AWAITABLE"@[0] != "JUMP_BACKWARD"@[0]);
            assert("GET_AWAITABLE"@[0] != "RAISE_VARARGS"@[0]);
            assert("GET_AWAITABLE"@[0] != "END_ASYNC_FOR"@[0]);
        },
        Opcode::UnpackSequence => {
            assert(spelling(o) == "UNPACK_SEQUENCE"@);
            assert("UNPACK_SEQUENCE"@[0] != "CHECK_EXC_MATCH"@[0]);
        },
        Opcode::Copy => {
            assert(spelling(o) == "COPY"@);
            assert("COPY"@[1] != "CALL"@[1]);
        },
        Opcode::Swap => {
            assert(spelling(o) == "SWAP"@);
            assert("SWAP"@[0] != "CALL"@[0]);
            assert("SWAP"@[0] != "COPY"@[0]);
        },
        Opcode::Nop => {
            assert(spelling(o) == "NOP"@);

        },
        Opcode::Resume => {
            assert(spelling(o) == "RESUME"@);

        },
        Opcode::PushNull => {
            assert(spelling(o) == "PUSH_NULL"@);
            assert("PUSH_NULL"@[0] != "LOAD_NAME"@[0]);
            assert("PUSH_NULL"@[0] != "LOAD_FAST"@[0]);
            assert("PUSH_NULL"@[0] != "LOAD_ATTR"@[0]);
            assert("PUSH_NULL"@[0] != "BUILD_SET"@[0]);
            assert("PUSH_NULL"@[0] != "BUILD_MAP"@[0]);
            assert("PUSH_NULL"@[0] != "BINARY_OP"@[0]);
            assert("PUSH_NULL"@[0] != "UNARY_NOT"@[0]);
            assert("PUSH_NULL"@[0] != "GET_AITER"@[0]);
        },
        Opcode::Precall => {
            assert(spelling(o) == "PRECALL"@);

        },
        Opcode::PopTop => {
            assert(spelling(o) == "POP_TOP"@);
            assert("POP_TOP"@[1] != "PRECALL"@[1]);
        },
        Opcode::Unknown => {},
    }
}

} // verus!
