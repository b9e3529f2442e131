//! What parsing the instructions of a code object does, stated over the
//! contents of the stored expressions.
//!
//! Each stored expression is described by its [`Shape`]: its node type and
//! all its fields, with strings and vectors taken by their views. The state
//! of a parse is the description of every stored expression, the number of
//! ids handed out so far and the stack of pending expression ids. [`step`]
//! gives the effect of one instruction and [`run`] that of the instructions
//! from an index on. `None` stands for an input on which parsing does not
//! come back with a result.

use vstd::prelude::*;
use crate::ast::{ContainerType, ExpressionEnum, UnaryType};
use crate::mark::MarkError;
use crate::opcode::{Opcode, OpcodeInstruction};
use crate::patterns::{code_mark, paren_group};
use crate::query::QueryMap;
use crate::query_id::{ExprKind, QueryId};
use crate::text::{
    all_digits, contains_seq, ends_with_seq, parse_usize_spec, split_seq, strings_view,
    trim_end_seq, trim_start_seq,
};

verus! {

/// Why parsing stopped.
#[derive(Debug, PartialEq, Eq)]
pub enum ParseError {
    /// The index ran past the instructions.
    OffsetOutOfRange,
    /// No instruction at the index.
    NoInstruction,
    /// The instruction at `offset` has no argument value.
    ArgvalIsNone { offset: usize },
    /// Something named was missing.
    IsNone(String),
    /// Something named was of another kind.
    IsNot(String),
    /// The stack of pending expressions was empty.
    IdsStackEmpty,
    /// An argument was out of range.
    InvalidArg { target: String },
    /// An id was not filed.
    QueryFailed,
    /// An id was not filed, when changing it.
    QueryMutFailed,
    /// No id was left to hand out.
    AddMapFailed,
    /// Another error, with its message.
    Other(String),
}

/// A [`ParseError`] with its texts as character sequences.
pub enum PErr {
    OffsetOutOfRange,
    NoInstruction,
    ArgvalIsNone(usize),
    IsNone(Seq<char>),
    IsNot(Seq<char>),
    IdsStackEmpty,
    InvalidArg(Seq<char>),
    QueryFailed,
    QueryMutFailed,
    AddMapFailed,
    Other(Seq<char>),
}

/// The description of an error.
pub open spec fn perr(e: ParseError) -> PErr {
    match e {
        ParseError::OffsetOutOfRange => PErr::OffsetOutOfRange,
        ParseError::NoInstruction => PErr::NoInstruction,
        ParseError::ArgvalIsNone { offset } => PErr::ArgvalIsNone(offset),
        ParseError::IsNone(s) => PErr::IsNone(s@),
        ParseError::IsNot(s) => PErr::IsNot(s@),
        ParseError::IdsStackEmpty => PErr::IdsStackEmpty,
        ParseError::InvalidArg { target } => PErr::InvalidArg(target@),
        ParseError::QueryFailed => PErr::QueryFailed,
        ParseError::QueryMutFailed => PErr::QueryMutFailed,
        ParseError::AddMapFailed => PErr::AddMapFailed,
        ParseError::Other(s) => PErr::Other(s@),
    }
}

/// The line and offsets of an expression.
#[derive(Clone, Copy)]
pub struct Pos {
    pub line: usize,
    pub start: usize,
    pub end: usize,
}

/// The content of a stored expression: its node type and fields.
pub enum Shape {
    Base { value: Seq<char>, pos: Pos },
    Attr { parent: Option<QueryId>, attr: Option<QueryId>, pos: Pos },
    Assign { target: Option<QueryId>, value: Option<QueryId>, operator: Seq<char>, pos: Pos },
    Class { mark: Seq<char>, name: Seq<char>, members: Seq<QueryId>, pos: Pos },
    FormatValue { value: Option<QueryId>, pos: Pos },
    Format { values: Seq<QueryId>, pos: Pos },
    Container { values: Seq<QueryId>, container_type: ContainerType, pos: Pos },
    Slice { origin: Option<QueryId>, slice: Seq<QueryId>, pos: Pos },
    Function {
        mark: Seq<char>,
        name: Seq<char>,
        args: Seq<QueryId>,
        ret: Option<QueryId>,
        bodys: Seq<QueryId>,
        defaults: Seq<Seq<char>>,
        is_async: bool,
        end_line: usize,
        pos: Pos,
    },
    Variable { index: usize, name: Seq<char>, annotation: Option<Seq<char>>, pos: Pos },
    BinOp { left: Option<QueryId>, right: Option<QueryId>, operator: Seq<char>, pos: Pos },
    Subscr { index: Option<QueryId>, target: Option<QueryId>, pos: Pos },
    Unary { target: Option<QueryId>, unary_type: UnaryType, pos: Pos },
    Call { func: Option<QueryId>, args: Seq<QueryId>, pos: Pos },
    Return { value: Option<QueryId>, pos: Pos },
    Yield { value: Option<QueryId>, pos: Pos },
    Import {
        module: Seq<char>,
        bk_module: Option<Seq<char>>,
        fragment: Option<Seq<char>>,
        alias: Option<Seq<char>>,
        pos: Pos,
    },
    Other(ExprKind),
}

/// An optional string by its characters.
pub open spec fn opt_text(o: Option<String>) -> Option<Seq<char>> {
    match o {
        Some(s) => Some(s@),
        None => None,
    }
}

/// The content of a stored expression.
pub open spec fn shape_of(e: ExpressionEnum) -> Shape {
    match e {
        ExpressionEnum::BaseValue(b) => Shape::Base {
            value: b.value@,
            pos: Pos { line: b.start_line, start: b.start_offset, end: b.end_offset },
        },
        ExpressionEnum::Attribute(a) => Shape::Attr {
            parent: a.parent,
            attr: a.attr,
            pos: Pos { line: a.start_line, start: a.start_offset, end: a.end_offset },
        },
        ExpressionEnum::Assign(a) => Shape::Assign {
            target: a.target,
            value: a.value,
            operator: a.operator@,
            pos: Pos { line: a.start_line, start: a.start_offset, end: a.end_offset },
        },
        ExpressionEnum::Class(c) => Shape::Class {
            mark: c.mark@,
            name: c.name@,
            members: c.members@,
            pos: Pos { line: c.start_line, start: c.start_offset, end: c.end_offset },
        },
        ExpressionEnum::FormatValue(f) => Shape::FormatValue {
            value: f.value,
            pos: Pos { line: f.start_line, start: f.start_offset, end: f.end_offset },
        },
        ExpressionEnum::Format(f) => Shape::Format {
            values: f.format_values@,
            pos: Pos { line: f.start_line, start: f.start_offset, end: f.end_offset },
        },
        ExpressionEnum::Container(c) => Shape::Container {
            values: c.values@,
            container_type: c.container_type,
            pos: Pos { line: c.start_line, start: c.start_offset, end: c.end_offset },
        },
        ExpressionEnum::Slice(s) => Shape::Slice {
            origin: s.origin,
            slice: s.slice@,
            pos: Pos { line: s.start_line, start: s.start_offset, end: s.end_offset },
        },
        ExpressionEnum::Function(f) => Shape::Function {
            mark: f.mark@,
            name: f.name@,
            args: f.args@,
            ret: f.ret,
            bodys: f.bodys@,
            defaults: strings_view(f.defaults@),
            is_async: f.is_async,
            end_line: f.end_line,
            pos: Pos { line: f.start_line, start: f.start_offset, end: f.end_offset },
        },
        ExpressionEnum::FastVariable(v) => Shape::Variable {
            index: v.index,
            name: v.name@,
            annotation: opt_text(v.annotation),
            pos: Pos { line: v.start_line, start: v.start_offset, end: v.end_offset },
        },
        ExpressionEnum::BinaryOperation(b) => Shape::BinOp {
            left: b.left,
            right: b.right,
            operator: b.operator@,
            pos: Pos { line: b.start_line, start: b.start_offset, end: b.end_offset },
        },
        ExpressionEnum::Subscr(s) => Shape::Subscr {
            index: s.index,
            target: s.target,
            pos: Pos { line: s.start_line, start: s.start_offset, end: s.end_offset },
        },
        ExpressionEnum::UnaryOperation(u) => Shape::Unary {
            target: u.target,
            unary_type: u.unary_type,
            pos: Pos { line: u.start_line, start: u.start_offset, end: u.end_offset },
        },
        ExpressionEnum::Call(c) => Shape::Call {
            func: c.func,
            args: c.args@,
            pos: Pos { line: c.start_line, start: c.start_offset, end: c.end_offset },
        },
        ExpressionEnum::Return(r) => Shape::Return {
            value: r.value,
            pos: Pos { line: r.start_line, start: r.start_offset, end: r.end_offset },
        },
        ExpressionEnum::Yield(y) => Shape::Yield {
            value: y.value,
            pos: Pos { line: y.start_line, start: y.start_offset, end: y.end_offset },
        },
        ExpressionEnum::Import(i) => Shape::Import {
            module: i.module@,
            bk_module: opt_text(i.bk_module),
            fragment: opt_text(i.fragment),
            alias: opt_text(i.alias),
            pos: Pos { line: i.start_line, start: i.start_offset, end: i.end_offset },
        },
        _ => Shape::Other(e.spec_kind_of()),
    }
}

/// The contents of every stored expression.
pub open spec fn store_of(m: Map<QueryId, ExpressionEnum>) -> Map<QueryId, Shape> {
    Map::new(|q: QueryId| m.dom().contains(q), |q: QueryId| shape_of(m[q]))
}

/// Storing an expression stores its content.
pub proof fn lemma_store_insert(m: Map<QueryId, ExpressionEnum>, q: QueryId, e: ExpressionEnum)
    ensures
        store_of(m.insert(q, e)) == store_of(m).insert(q, shape_of(e)),
{
    assert(store_of(m.insert(q, e)) =~= store_of(m).insert(q, shape_of(e)));
}

/// The state of a parse.
pub struct PState {
    /// The content of each stored expression.
    pub store: Map<QueryId, Shape>,
    /// How many ids have been handed out.
    pub count: nat,
    /// The ids of the pending expressions, the last on top.
    pub stack: Seq<QueryId>,
}

/// The state that a holder and a stack of ids stand for.
pub open spec fn abs(map: QueryMap, stack: Seq<QueryId>) -> PState {
    PState { store: store_of(map@), count: map.count(), stack }
}

/// What one step gives: the next state and the index of the next
/// instruction, or an error; `None` where the step does not come back.
pub open spec fn ok(st: PState, next: nat) -> Option<Result<(PState, nat), PErr>> {
    Some(Ok((st, next)))
}

/// A step that stops with `e`.
pub open spec fn fail(e: PErr) -> Option<Result<(PState, nat), PErr>> {
    Some(Err(e))
}

/// The line and offsets given to an expression made at instruction `it`.
pub open spec fn at(it: OpcodeInstruction) -> Pos {
    Pos { line: 0, start: it.offset, end: (it.offset + 1) as usize }
}

/// The line that `it` starts, or 0.
pub open spec fn line_of(it: OpcodeInstruction) -> usize {
    match it.starts_line {
        Some(l) => l,
        None => 0,
    }
}

/// As `at`, with the line that `it` starts.
pub open spec fn at_line(it: OpcodeInstruction) -> Pos {
    Pos { line: line_of(it), start: it.offset, end: (it.offset + 1) as usize }
}

/// A position of all zeros.
pub open spec fn no_pos() -> Pos {
    Pos { line: 0, start: 0, end: 0 }
}

/// The argument value of `it`.
pub open spec fn argval(it: OpcodeInstruction) -> Option<Seq<char>> {
    opt_text(it.argval)
}

/// A base value made at `it`.
pub open spec fn base_at(value: Seq<char>, it: OpcodeInstruction) -> Shape {
    Shape::Base { value, pos: at(it) }
}

/// Stores `sh` under the next id, of node type `k`; `None` once no id is
/// left.
pub open spec fn add_node(st: PState, k: ExprKind, sh: Shape) -> Option<(PState, QueryId)> {
    if st.count >= usize::MAX {
        None
    } else {
        let q = QueryId::spec_new(st.count as usize, k);
        Some((PState { store: st.store.insert(q, sh), count: st.count + 1, stack: st.stack }, q))
    }
}

/// As `add_node`, keeping the state and giving no id once none is left.
pub open spec fn add_opt(st: PState, k: ExprKind, sh: Shape) -> (PState, Option<QueryId>) {
    match add_node(st, k, sh) {
        Some((s, q)) => (s, Some(q)),
        None => (st, None),
    }
}

/// `q` pushed on the stack.
pub open spec fn push(st: PState, q: QueryId) -> PState {
    PState { stack: st.stack.push(q), ..st }
}

/// The top of the stack taken off.
pub open spec fn pop(st: PState) -> Option<(PState, QueryId)> {
    if st.stack.len() == 0 {
        None
    } else {
        Some((PState { stack: st.stack.drop_last(), ..st }, st.stack.last()))
    }
}

/// The top `n` ids taken off, in stack order.
pub open spec fn pop_n(st: PState, n: nat) -> Option<(PState, Seq<QueryId>)> {
    if st.stack.len() < n {
        None
    } else {
        let k = st.stack.len() - n;
        Some((PState { stack: st.stack.take(k), ..st }, st.stack.skip(k)))
    }
}

/// The content stored under `q`.
pub open spec fn get(st: PState, q: QueryId) -> Option<Shape> {
    if st.store.dom().contains(q) {
        Some(st.store[q])
    } else {
        None
    }
}

/// The content stored under `q` replaced by `sh`.
pub open spec fn replace_node(st: PState, q: QueryId, sh: Shape) -> PState {
    PState { store: st.store.insert(q, sh), ..st }
}

/// Stores `sh` as a new expression of type `k` and pushes its id.
pub open spec fn add_push(st: PState, k: ExprKind, sh: Shape, next: nat) -> Option<
    Result<(PState, nat), PErr>,
> {
    match add_node(st, k, sh) {
        Some((s, q)) => ok(push(s, q), next),
        None => fail(PErr::AddMapFailed),
    }
}

/// `LOAD_CONST`, `LOAD_NAME`, `LOAD_GLOBAL` (with `trim`) and `LOAD_FAST`:
/// a base value with the argument value, less any leading `NULL + ` when
/// `trim` is set.
pub open spec fn step_load(st: PState, it: OpcodeInstruction, trim: bool, next: nat) -> Option<
    Result<(PState, nat), PErr>,
> {
    match argval(it) {
        None => fail(PErr::ArgvalIsNone(it.offset)),
        Some(v) => {
            let value = if trim {
                trim_start_seq(v, "NULL + "@)
            } else {
                v
            };
            add_push(st, ExprKind::BaseValue, base_at(value, it), next)
        },
    }
}

/// `LOAD_ATTR` and `LOAD_METHOD`: the top becomes the parent of an attribute
/// named by the argument value.
pub open spec fn step_load_attr(st: PState, it: OpcodeInstruction, next: nat) -> Option<
    Result<(PState, nat), PErr>,
> {
    match pop(st) {
        None => fail(PErr::IdsStackEmpty),
        Some((s1, parent)) => match argval(it) {
            None => fail(PErr::ArgvalIsNone(it.offset)),
            Some(v) => {
                let (s2, attr) = add_opt(s1, ExprKind::BaseValue, base_at(v, it));
                add_push(
                    s2,
                    ExprKind::Attribute,
                    Shape::Attr { parent: Some(parent), attr, pos: at(it) },
                    next,
                )
            },
        },
    }
}

/// Whether a function name is that of a lambda, generator expression or
/// list comprehension.
pub open spec fn is_anonymous(name: Seq<char>) -> bool {
    name == "<lambda>"@ || name == "<genexpr>"@ || name == "<listcomp>"@
}

/// `STORE_NAME` and `STORE_GLOBAL`.
pub open spec fn step_store_name(st: PState, it: OpcodeInstruction, next: nat) -> Option<
    Result<(PState, nat), PErr>,
> {
    match argval(it) {
        None => fail(PErr::ArgvalIsNone(it.offset)),
        Some(name) => match pop(st) {
            None => fail(PErr::IdsStackEmpty),
            Some((s1, vid)) => match get(s1, vid) {
                None => fail(PErr::QueryFailed),
                Some(Shape::Function { name: fname, .. }) => if is_anonymous(fname) {
                    let (s2, target) = add_opt(s1, ExprKind::BaseValue, base_at(name, it));
                    add_push(
                        s2,
                        ExprKind::Assign,
                        Shape::Assign {
                            target,
                            value: Some(vid),
                            operator: "="@,
                            pos: no_pos(),
                        },
                        next,
                    )
                } else {
                    ok(push(s1, vid), next)
                },
                Some(
                    Shape::Import { module, bk_module, fragment, alias, pos },
                ) => match bk_module {
                    None => if module == name {
                        ok(push(push(s1, vid), vid), next)
                    } else {
                        let s2 = replace_node(
                            s1,
                            vid,
                            Shape::Import { module, bk_module, fragment, alias: Some(name), pos },
                        );
                        ok(push(s2, vid), next)
                    },
                    Some(bk) => match fragment {
                        None => fail(PErr::IsNone("Import fragment"@)),
                        Some(frag) => {
                            let new_bk = if frag == name {
                                bk + name + ", "@
                            } else {
                                bk + frag + " as "@ + name + ", "@
                            };
                            let s2 = replace_node(
                                s1,
                                vid,
                                Shape::Import {
                                    module,
                                    bk_module: Some(new_bk),
                                    fragment,
                                    alias,
                                    pos,
                                },
                            );
                            ok(push(s2, vid), next)
                        },
                    },
                },
                Some(_) => {
                    let (s2, target) = add_opt(s1, ExprKind::BaseValue, base_at(name, it));
                    add_push(
                        s2,
                        ExprKind::Assign,
                        Shape::Assign { target, value: Some(vid), operator: "="@, pos: at(it) },
                        next,
                    )
                },
            },
        },
    }
}

/// `STORE_FAST`.
pub open spec fn step_store_fast(st: PState, it: OpcodeInstruction, next: nat) -> Option<
    Result<(PState, nat), PErr>,
> {
    match argval(it) {
        None => fail(PErr::ArgvalIsNone(it.offset)),
        Some(name) => match pop(st) {
            None => fail(PErr::IdsStackEmpty),
            Some((s1, vid)) => match get(s1, vid) {
                None => fail(PErr::QueryFailed),
                Some(Shape::Function { .. }) => ok(push(s1, vid), next),
                Some(_) => {
                    let (s2, target) = add_opt(s1, ExprKind::BaseValue, base_at(name, it));
                    add_push(
                        s2,
                        ExprKind::Assign,
                        Shape::Assign {
                            target,
                            value: Some(vid),
                            operator: "="@,
                            pos: at_line(it),
                        },
                        next,
                    )
                },
            },
        },
    }
}

/// Whether the value stored under `vid` is an augmented assignment to the
/// attribute `parent.attr`: an operation ending in `=` whose left operand is
/// that attribute.
pub open spec fn self_assign(st: PState, vid: QueryId, parent: QueryId, attr: QueryId) -> Option<
    Result<bool, PErr>,
> {
    match get(st, vid) {
        None => Some(Err(PErr::QueryFailed)),
        Some(Shape::BinOp { left, operator, .. }) => match left {
            None => Some(Err(PErr::IsNone("BinaryOperation left"@))),
            Some(l) => match get(st, l) {
                None => Some(Err(PErr::QueryFailed)),
                Some(Shape::Attr { parent: p, attr: a, .. }) => Some(
                    Ok(p == Some(parent) && a == Some(attr) && ends_with_seq(operator, "="@)),
                ),
                Some(_) => Some(Ok(false)),
            },
        },
        Some(_) => Some(Ok(false)),
    }
}

/// `STORE_ATTR`.
pub open spec fn step_store_attr(st: PState, it: OpcodeInstruction, next: nat) -> Option<
    Result<(PState, nat), PErr>,
> {
    match pop(st) {
        None => fail(PErr::IdsStackEmpty),
        Some((s1, parent)) => match argval(it) {
            None => fail(PErr::ArgvalIsNone(it.offset)),
            Some(a) => match add_node(s1, ExprKind::BaseValue, base_at(a, it)) {
                None => fail(PErr::AddMapFailed),
                Some((s2, attr_id)) => match pop(s2) {
                    None => fail(PErr::IdsStackEmpty),
                    Some((s3, vid)) => match add_node(
                        s3,
                        ExprKind::Attribute,
                        Shape::Attr { parent: Some(parent), attr: Some(attr_id), pos: at(it) },
                    ) {
                        None => fail(PErr::AddMapFailed),
                        Some((s4, target_id)) => match self_assign(s4, vid, parent, attr_id) {
                            None => None,
                            Some(Err(e)) => fail(e),
                            Some(Ok(true)) => ok(push(s4, vid), next),
                            Some(Ok(false)) => add_push(
                                s4,
                                ExprKind::Assign,
                                Shape::Assign {
                                    target: Some(target_id),
                                    value: Some(vid),
                                    operator: "="@,
                                    pos: at_line(it),
                                },
                                next,
                            ),
                        },
                    },
                },
            },
        },
    }
}

/// The first index at or after `j` whose instruction starts another line
/// than `line`; `None` where an instruction on the way starts no line or no
/// such index comes before the end.
pub open spec fn class_end(ins: Seq<OpcodeInstruction>, j: nat, line: usize) -> Option<nat>
    decreases ins.len() - j,
{
    if j >= ins.len() {
        None
    } else {
        match ins[j as int].starts_line {
            None => None,
            Some(l) => if l != line {
                Some(j)
            } else {
                class_end(ins, j + 1, line)
            },
        }
    }
}

/// The error of reading a mark, as a message.
pub open spec fn mark_message(e: MarkError) -> Seq<char> {
    match e {
        MarkError::Invalid(m) => "Invalid function mark: "@ + m@,
        MarkError::BadLine(l) => if all_digits(l@) {
            "number too large to fit in target type"@
        } else {
            "invalid digit found in string"@
        },
        MarkError::NotBaseValue => "Expect BaseValue"@,
    }
}

/// What reading a mark gives: name and line, or the error message.
pub open spec fn read_mark(mark: Seq<char>) -> Result<(Seq<char>, usize), Seq<char>> {
    match code_mark(mark) {
        None => Err("Invalid function mark: "@ + mark),
        Some((name, line)) => match parse_usize_spec(line) {
            Some(n) => Ok((name, n)),
            None => Err(
                if all_digits(line) {
                    "number too large to fit in target type"@
                } else {
                    "invalid digit found in string"@
                },
            ),
        },
    }
}

/// `LOAD_BUILD_CLASS`: a class named by the next instruction's argument
/// value; parsing goes on at the first instruction of another line.
pub open spec fn step_build_class(
    st: PState,
    ins: Seq<OpcodeInstruction>,
    i: nat,
) -> Option<Result<(PState, nat), PErr>> {
    let it = ins[i as int];
    if i + 1 >= ins.len() {
        fail(PErr::OffsetOutOfRange)
    } else {
        match argval(ins[i + 1int]) {
            None => fail(PErr::ArgvalIsNone(it.offset)),
            Some(mark) => match read_mark(mark) {
                Err(msg) => fail(PErr::Other(msg)),
                Ok((name, n)) => match add_node(
                    st,
                    ExprKind::Class,
                    Shape::Class {
                        mark,
                        name,
                        members: Seq::empty(),
                        pos: Pos { line: n, start: 0, end: 0 },
                    },
                ) {
                    None => fail(PErr::AddMapFailed),
                    Some((s1, q)) => match it.starts_line {
                        None => None,
                        Some(line) => match class_end(ins, i + 1, line) {
                            None => None,
                            Some(j) => ok(push(s1, q), j),
                        },
                    },
                },
            },
        }
    }
}

/// `FORMAT_VALUE`, `RETURN_VALUE`, `YIELD_VALUE`, the unary operations: the
/// top becomes the operand of a new expression.
pub open spec fn step_wrap(st: PState, k: ExprKind, it: OpcodeInstruction, next: nat) -> Option<
    Result<(PState, nat), PErr>,
> {
    match pop(st) {
        None => fail(PErr::IdsStackEmpty),
        Some((s1, v)) => {
            let sh = match k {
                ExprKind::FormatValue => Shape::FormatValue { value: Some(v), pos: at(it) },
                ExprKind::Return => Shape::Return { value: Some(v), pos: at_line(it) },
                ExprKind::Yield => Shape::Yield { value: Some(v), pos: at_line(it) },
                ExprKind::UnaryOperation => Shape::Unary {
                    target: Some(v),
                    unary_type: match it.opcode {
                        Opcode::UnaryInvert => UnaryType::Invert,
                        Opcode::UnaryNegative => UnaryType::Negative,
                        _ => UnaryType::Not,
                    },
                    pos: at(it),
                },
                _ => Shape::Other(k),
            };
            add_push(s1, k, sh, next)
        },
    }
}

/// `BUILD_STRING`, `BUILD_TUPLE`, `BUILD_LIST`, `BUILD_SET`: the top `arg`
/// ids become the elements of a new expression.
pub open spec fn step_build(st: PState, it: OpcodeInstruction, next: nat) -> Option<
    Result<(PState, nat), PErr>,
> {
    let what = match it.opcode {
        Opcode::BuildString => "BuildString size"@,
        Opcode::BuildTuple => "BuildTuple size"@,
        Opcode::BuildList => "BuildList size"@,
        _ => "BuildSet size"@,
    };
    match it.arg {
        None => fail(PErr::IsNone(what)),
        Some(size) => match pop_n(st, size as nat) {
            None => fail(PErr::IdsStackEmpty),
            Some((s1, vals)) => match it.opcode {
                Opcode::BuildString => add_push(
                    s1,
                    ExprKind::Format,
                    Shape::Format { values: vals, pos: at(it) },
                    next,
                ),
                _ => add_push(
                    s1,
                    ExprKind::Container,
                    Shape::Container {
                        values: vals,
                        container_type: match it.opcode {
                            Opcode::BuildTuple => ContainerType::Tuple,
                            Opcode::BuildList => ContainerType::List,
                            _ => ContainerType::SetContainer,
                        },
                        pos: at(it),
                    },
                    next,
                ),
            },
        },
    }
}

/// `BUILD_MAP`: the top `2 * arg` ids, keys and values in turn, become a
/// dictionary.
pub open spec fn step_build_map(st: PState, it: OpcodeInstruction, next: nat) -> Option<
    Result<(PState, nat), PErr>,
> {
    match it.arg {
        None => fail(PErr::IsNone("BuildMap size"@)),
        Some(size) => match pop_n(st, 2 * size as nat) {
            None => fail(PErr::IdsStackEmpty),
            Some((s1, vals)) => add_push(
                s1,
                ExprKind::Container,
                Shape::Container { values: vals, container_type: ContainerType::Dict, pos: at(it) },
                next,
            ),
        },
    }
}

/// The keys of a constant-key map: the text without its parentheses, split
/// at `, `.
pub open spec fn const_keys(text: Seq<char>) -> Seq<Seq<char>> {
    split_seq(trim_end_seq(trim_start_seq(text, "("@), ")"@), ", "@)
}

/// Stores a base value for each of the first `min(keys, vals)` keys and
/// gives the entries, each key id followed by its value id.
pub open spec fn add_keys(
    st: PState,
    keys: Seq<Seq<char>>,
    vals: Seq<QueryId>,
    it: OpcodeInstruction,
) -> Option<(PState, Seq<QueryId>)>
    decreases keys.len(),
{
    if keys.len() == 0 || vals.len() == 0 {
        Some((st, Seq::empty()))
    } else {
        match add_node(st, ExprKind::BaseValue, base_at(keys[0], it)) {
            None => None,
            Some((s1, k)) => match add_keys(s1, keys.drop_first(), vals.drop_first(), it) {
                None => None,
                Some((s2, rest)) => Some((s2, seq![k, vals[0]] + rest)),
            },
        }
    }
}

/// The dictionary of the entries made by `add_keys`.
pub open spec fn dict_of(
    made: Option<(PState, Seq<QueryId>)>,
    it: OpcodeInstruction,
    next: nat,
) -> Option<Result<(PState, nat), PErr>> {
    match made {
        None => fail(PErr::AddMapFailed),
        Some((s3, entries)) => add_push(
            s3,
            ExprKind::Container,
            Shape::Container { values: entries, container_type: ContainerType::Dict, pos: at(it) },
            next,
        ),
    }
}

/// `BUILD_CONST_KEY_MAP`.
pub open spec fn step_const_key_map(st: PState, it: OpcodeInstruction, next: nat) -> Option<
    Result<(PState, nat), PErr>,
> {
    match it.arg {
        None => fail(PErr::IsNone("BuildConstKeyMap size"@)),
        Some(size) => match pop(st) {
            None => fail(PErr::IdsStackEmpty),
            Some((s1, keys_id)) => match pop_n(s1, size as nat) {
                None => fail(PErr::IdsStackEmpty),
                Some((s2, vals)) => match get(s2, keys_id) {
                    None => fail(PErr::QueryFailed),
                    Some(Shape::Base { value, .. }) => dict_of(
                        add_keys(s2, const_keys(value), vals, it),
                        it,
                        next,
                    ),
                    Some(_) => add_push(
                        s2,
                        ExprKind::Container,
                        Shape::Container {
                            values: Seq::empty(),
                            container_type: ContainerType::Dict,
                            pos: at(it),
                        },
                        next,
                    ),
                },
            },
        },
    }
}

/// `BUILD_SLICE`.
pub open spec fn step_build_slice(st: PState, it: OpcodeInstruction, next: nat) -> Option<
    Result<(PState, nat), PErr>,
> {
    match it.arg {
        None => fail(PErr::IsNone("BuildSlice size"@)),
        Some(size) => match pop_n(st, size as nat) {
            None => fail(PErr::IdsStackEmpty),
            Some((s1, vals)) => match pop(s1) {
                None => fail(PErr::IdsStackEmpty),
                Some((s2, origin)) => add_push(
                    s2,
                    ExprKind::Slice,
                    Shape::Slice { origin: Some(origin), slice: vals, pos: at(it) },
                    next,
                ),
            },
        },
    }
}

/// The base values under `ids` replaced by group 1 of their first
/// parenthesised span, in order.
pub open spec fn unwrap_parens(st: PState, ids: Seq<QueryId>) -> Result<PState, PErr>
    decreases ids.len(),
{
    if ids.len() == 0 {
        Ok(st)
    } else {
        match get(st, ids[0]) {
            None => Err(PErr::QueryMutFailed),
            Some(Shape::Base { value, pos }) => match paren_group(value) {
                None => Err(PErr::Other("ListExtend value is not a tuple"@)),
                Some(None) => Err(PErr::OffsetOutOfRange),
                Some(Some(g)) => unwrap_parens(
                    replace_node(st, ids[0], Shape::Base { value: g, pos }),
                    ids.drop_first(),
                ),
            },
            Some(_) => unwrap_parens(st, ids.drop_first()),
        }
    }
}

/// The ids `ext` appended to the list stored under `list_id`.
pub open spec fn extend_list(s2: PState, list_id: QueryId, ext: Seq<QueryId>, next: nat) -> Option<
    Result<(PState, nat), PErr>,
> {
    match get(s2, list_id) {
        None => fail(PErr::QueryMutFailed),
        Some(Shape::Container { values, container_type, pos }) => ok(
            replace_node(s2, list_id, Shape::Container { values: values + ext, container_type, pos }),
            next,
        ),
        Some(_) => ok(s2, next),
    }
}

/// `LIST_EXTEND`: the top `arg` ids join the list below them.
pub open spec fn step_list_extend(st: PState, it: OpcodeInstruction, next: nat) -> Option<
    Result<(PState, nat), PErr>,
> {
    match it.arg {
        None => fail(PErr::IsNone("ListExtend size"@)),
        Some(size) => match pop_n(st, size as nat) {
            None => fail(PErr::IdsStackEmpty),
            Some((s1, ext)) => if s1.stack.len() == 0 {
                fail(PErr::IdsStackEmpty)
            } else {
                let list_id = s1.stack.last();
                match get(s1, list_id) {
                    None => fail(PErr::QueryFailed),
                    Some(Shape::Container { container_type: ContainerType::List, .. }) => match unwrap_parens(
                        s1,
                        ext,
                    ) {
                        Err(e) => fail(e),
                        Ok(s2) => extend_list(s2, list_id, ext, next),
                    },
                    Some(_) => fail(PErr::Other("ListExtend target is not a list"@)),
                }
            },
        },
    }
}

/// The parameter names and annotations of `MAKE_FUNCTION`: the ids are
/// taken two at a time (the `idx`-th pair first); for each pair whose ids
/// are all filed as base values, a variable with the name unquoted and the
/// annotation. `None` where a pair is incomplete
/// or an id filed as a base value holds something else.
pub open spec fn add_params(st: PState, vals: Seq<QueryId>, idx: nat) -> Option<
    Result<(PState, Seq<QueryId>), PErr>,
>
    decreases vals.len(),
{
    if vals.len() == 0 {
        Some(Ok((st, Seq::empty())))
    } else {
        let clen: int = if vals.len() < 2 {
            vals.len() as int
        } else {
            2
        };
        let chunk = vals.take(clen);
        let rest = vals.skip(clen);
        if chunk[0].spec_type_id() == ExprKind::BaseValue && (clen < 2 || chunk[1].spec_type_id()
            == ExprKind::BaseValue) {
            match get(st, chunk[0]) {
                None => Some(Err(PErr::QueryFailed)),
                Some(Shape::Base { value: n, .. }) => if chunk.len() < 2 {
                    None
                } else {
                    match get(st, chunk[1]) {
                        None => Some(Err(PErr::QueryFailed)),
                        Some(Shape::Base { value: a, .. }) => match add_node(
                            st,
                            ExprKind::FastVariable,
                            Shape::Variable {
                                index: idx as usize,
                                name: trim_end_seq(trim_start_seq(n, "'"@), "'"@),
                                annotation: Some(a),
                                pos: no_pos(),
                            },
                        ) {
                            None => Some(Err(PErr::AddMapFailed)),
                            Some((s1, q)) => match add_params(s1, rest, idx + 1) {
                                None => None,
                                Some(Err(e)) => Some(Err(e)),
                                Some(Ok((s2, qs))) => Some(Ok((s2, seq![q] + qs))),
                            },
                        },
                        Some(_) => None,
                    }
                },
                Some(_) => None,
            }
        } else {
            add_params(st, rest, idx + 1)
        }
    }
}

/// The default values of a function: the text without its parentheses and
/// a trailing comma, split at `, `.
pub open spec fn default_values(text: Seq<char>) -> Seq<Seq<char>> {
    split_seq(trim_end_seq(trim_end_seq(trim_start_seq(text, "("@), ")"@), ","@), ", "@)
}

/// The rest of `MAKE_FUNCTION` once the parameters are made: the default
/// values, then the function itself.
pub open spec fn finish_function(
    s3: PState,
    args: Seq<QueryId>,
    mark: Seq<char>,
    name: Seq<char>,
    n: usize,
    it: OpcodeInstruction,
    next: nat,
) -> Option<Result<(PState, nat), PErr>> {
    let defaulted = argval(it) matches Some(a) && contains_seq(a, "defaults"@);
    let defs: Result<(PState, Seq<Seq<char>>), PErr> = if defaulted {
        match pop(s3) {
            None => Err(PErr::IdsStackEmpty),
            Some((s4, did)) => match get(s4, did) {
                None => Err(PErr::QueryFailed),
                Some(Shape::Base { value, .. }) => Ok((s4, default_values(value))),
                Some(_) => Ok((s4, Seq::empty())),
            },
        }
    } else {
        Ok((s3, Seq::empty()))
    };
    match defs {
        Err(e) => fail(e),
        Ok((s5, defaults)) => add_push(
            s5,
            ExprKind::Function,
            Shape::Function {
                mark,
                name,
                args,
                ret: None,
                bodys: Seq::empty(),
                defaults,
                is_async: false,
                end_line: n,
                pos: Pos { line: n, start: it.offset, end: (it.offset + 1) as usize },
            },
            next,
        ),
    }
}

/// `MAKE_FUNCTION` once the parameters are made or have failed.
pub open spec fn after_params(
    params: Option<Result<(PState, Seq<QueryId>), PErr>>,
    mark: Seq<char>,
    name: Seq<char>,
    n: usize,
    it: OpcodeInstruction,
    next: nat,
) -> Option<Result<(PState, nat), PErr>> {
    match params {
        None => None,
        Some(Err(e)) => fail(e),
        Some(Ok((s3, args))) => finish_function(s3, args, mark, name, n, it, next),
    }
}

/// `MAKE_FUNCTION`.
pub open spec fn step_make_function(st: PState, it: OpcodeInstruction, next: nat) -> Option<
    Result<(PState, nat), PErr>,
> {
    match pop(st) {
        None => fail(PErr::IdsStackEmpty),
        Some((s1, mark_id)) => match get(s1, mark_id) {
            None => fail(PErr::QueryFailed),
            Some(Shape::Base { value: mark, .. }) => match read_mark(mark) {
                Err(msg) => fail(PErr::Other(msg)),
                Ok((name, n)) => {
                    let annotated = argval(it) matches Some(a) && contains_seq(a, "annotations"@);
                    let params: Option<Result<(PState, Seq<QueryId>), PErr>> = if annotated {
                        match pop(s1) {
                            None => Some(Err(PErr::IdsStackEmpty)),
                            Some((s2, values_id)) => match get(s2, values_id) {
                                None => Some(Err(PErr::QueryFailed)),
                                Some(Shape::Container { values, container_type, .. }) => if container_type
                                    != ContainerType::Tuple {
                                    None
                                } else {
                                    add_params(s2, values, 0)
                                },
                                Some(_) => Some(Ok((s2, Seq::empty()))),
                            },
                        }
                    } else {
                        Some(Ok((s1, Seq::empty())))
                    };
                    after_params(params, mark, name, n, it, next)
                },
            },
            Some(_) => fail(PErr::IsNot("BaseValue"@)),
        },
    }
}

/// The operator of `IS_OP` and `CONTAINS_OP`.
pub open spec fn test_operator(it: OpcodeInstruction) -> Option<Seq<char>> {
    match (it.opcode, it.arg) {
        (Opcode::IsOp, Some(0)) => Some("is"@),
        (Opcode::IsOp, Some(1)) => Some("is not"@),
        (Opcode::ContainsOp, Some(0)) => Some("in"@),
        (Opcode::ContainsOp, Some(1)) => Some("not in"@),
        _ => None,
    }
}

/// `BINARY_OP`, `COMPARE_OP`, `IS_OP`, `CONTAINS_OP`, `BINARY_SUBSCR`: the
/// top two ids become the operands.
pub open spec fn step_binary(st: PState, it: OpcodeInstruction, next: nat) -> Option<
    Result<(PState, nat), PErr>,
> {
    match pop(st) {
        None => fail(PErr::IdsStackEmpty),
        Some((s1, right)) => match pop(s1) {
            None => fail(PErr::IdsStackEmpty),
            Some((s2, left)) => match it.opcode {
                Opcode::BinarySubscr => add_push(
                    s2,
                    ExprKind::Subscr,
                    Shape::Subscr { index: Some(right), target: Some(left), pos: at(it) },
                    next,
                ),
                Opcode::IsOp | Opcode::ContainsOp => match test_operator(it) {
                    None => fail(
                        PErr::InvalidArg(
                            if it.opcode == Opcode::IsOp {
                                "IsOp operator"@
                            } else {
                                "ContainsOp operator"@
                            },
                        ),
                    ),
                    Some(op) => add_push(
                        s2,
                        ExprKind::BinaryOperation,
                        Shape::BinOp { left: Some(left), right: Some(right), operator: op, pos: at(it) },
                        next,
                    ),
                },
                _ => match argval(it) {
                    None => fail(PErr::ArgvalIsNone(it.offset)),
                    Some(op) => add_push(
                        s2,
                        ExprKind::BinaryOperation,
                        Shape::BinOp { left: Some(left), right: Some(right), operator: op, pos: at(it) },
                        next,
                    ),
                },
            },
        },
    }
}

/// `CALL`.
pub open spec fn step_call(st: PState, it: OpcodeInstruction, next: nat) -> Option<
    Result<(PState, nat), PErr>,
> {
    match it.arg {
        None => fail(PErr::IsNone("Call count"@)),
        Some(count) => if count == 0 {
            match pop(st) {
                None => fail(PErr::IdsStackEmpty),
                Some((s1, last)) => match get(s1, last) {
                    None => fail(PErr::QueryFailed),
                    Some(Shape::Base { value, .. }) => if contains_seq(value, " "@) {
                        ok(push(s1, last), next)
                    } else {
                        add_push(
                            s1,
                            ExprKind::Call,
                            Shape::Call { func: Some(last), args: Seq::empty(), pos: at(it) },
                            next,
                        )
                    },
                    Some(_) => add_push(
                        s1,
                        ExprKind::Call,
                        Shape::Call { func: Some(last), args: Seq::empty(), pos: at(it) },
                        next,
                    ),
                },
            }
        } else {
            match pop_n(st, count as nat) {
                None => fail(PErr::IdsStackEmpty),
                Some((s1, args)) => match pop(s1) {
                    None => fail(PErr::IdsStackEmpty),
                    Some((s2, last)) => match get(s2, last) {
                        None => fail(PErr::QueryFailed),
                        Some(Shape::Base { value, .. }) => {
                            let (s3, func) = add_opt(
                                s2,
                                ExprKind::BaseValue,
                                base_at(trim_start_seq(value, "NULL + "@), it),
                            );
                            add_push(
                                s3,
                                ExprKind::Call,
                                Shape::Call { func, args, pos: at_line(it) },
                                next,
                            )
                        },
                        Some(_) => add_push(
                            s2,
                            ExprKind::Call,
                            Shape::Call { func: Some(last), args, pos: at(it) },
                            next,
                        ),
                    },
                },
            }
        },
    }
}

/// `IMPORT_FROM`: the import on top gets its fragment.
pub open spec fn step_import_from(st: PState, it: OpcodeInstruction, next: nat) -> Option<
    Result<(PState, nat), PErr>,
> {
    if st.stack.len() == 0 {
        fail(PErr::IdsStackEmpty)
    } else {
        let vid = st.stack.last();
        match get(st, vid) {
            None => fail(PErr::QueryFailed),
            Some(Shape::Import { module, bk_module, fragment, alias, pos }) => match bk_module {
                None => ok(
                    replace_node(st, vid, Shape::Import { module, bk_module, fragment: None, alias, pos }),
                    next,
                ),
                Some(_) => match argval(it) {
                    None => fail(PErr::ArgvalIsNone(it.offset)),
                    Some(f) => ok(
                        replace_node(
                            st,
                            vid,
                            Shape::Import { module, bk_module, fragment: Some(f), alias, pos },
                        ),
                        next,
                    ),
                },
            },
            Some(_) => ok(st, next),
        }
    }
}

/// `IMPORT_NAME` is not supported: it stops on an empty stack and does not
/// come back otherwise.
pub open spec fn step_import_name(st: PState) -> Option<Result<(PState, nat), PErr>> {
    match pop(st) {
        None => fail(PErr::IdsStackEmpty),
        Some((s1, _)) => if s1.stack.len() == 0 {
            fail(PErr::IdsStackEmpty)
        } else {
            None
        },
    }
}

/// The effect of the instruction at index `i`.
pub open spec fn step(st: PState, ins: Seq<OpcodeInstruction>, i: nat) -> Option<
    Result<(PState, nat), PErr>,
> {
    let it = ins[i as int];
    let next = i + 1;
    match it.opcode {
        Opcode::LoadConst | Opcode::LoadName | Opcode::LoadGlobal => step_load(st, it, true, next),
        Opcode::LoadFast => step_load(st, it, false, next),
        Opcode::LoadAttr | Opcode::LoadMethod => step_load_attr(st, it, next),
        Opcode::StoreName | Opcode::StoreGlobal => step_store_name(st, it, next),
        Opcode::StoreFast => step_store_fast(st, it, next),
        Opcode::StoreAttr => step_store_attr(st, it, next),
        Opcode::LoadBuildClass => step_build_class(st, ins, i),
        Opcode::FormatValue => step_wrap(st, ExprKind::FormatValue, it, next),
        Opcode::BuildString | Opcode::BuildTuple | Opcode::BuildList | Opcode::BuildSet => step_build(
            st,
            it,
            next,
        ),
        Opcode::ListExtend => step_list_extend(st, it, next),
        Opcode::BuildMap => step_build_map(st, it, next),
        Opcode::BuildConstKeyMap => step_const_key_map(st, it, next),
        Opcode::BuildSlice => step_build_slice(st, it, next),
        Opcode::MakeFunction => step_make_function(st, it, next),
        Opcode::BinaryOp | Opcode::CompareOp | Opcode::IsOp | Opcode::ContainsOp
        | Opcode::BinarySubscr => step_binary(st, it, next),
        Opcode::UnaryInvert | Opcode::UnaryNegative | Opcode::UnaryNot => step_wrap(
            st,
            ExprKind::UnaryOperation,
            it,
            next,
        ),
        Opcode::Call => step_call(st, it, next),
        Opcode::ReturnValue => step_wrap(st, ExprKind::Return, it, next),
        Opcode::YieldValue => step_wrap(st, ExprKind::Yield, it, next),
        Opcode::ImportFrom => step_import_from(st, it, next),
        Opcode::ImportName => step_import_name(st),
        _ => ok(st, next),
    }
}

/// The effect of the instructions from index `i` on: the final state, or
/// the first error; `None` where parsing does not come back.
pub open spec fn run(st: PState, ins: Seq<OpcodeInstruction>, i: nat) -> Option<
    Result<PState, PErr>,
>
    decreases ins.len() - i,
{
    if i >= ins.len() {
        Some(Ok(st))
    } else {
        match step(st, ins, i) {
            None => None,
            Some(Err(e)) => Some(Err(e)),
            Some(Ok((s, j))) => if i < j && j <= ins.len() {
                run(s, ins, j)
            } else {
                None
            },
        }
    }
}

/// The largest argument for which the sizes the parser reserves fit.
pub open spec fn arg_limit() -> int {
    isize::MAX / 32
}

/// Every offset leaves room for the one after it and every argument is
/// within `arg_limit`.
pub open spec fn sane(ins: Seq<OpcodeInstruction>) -> bool {
    forall|i: int|
        0 <= i < ins.len() ==> (#[trigger] ins[i]).offset < usize::MAX && (ins[i].arg matches Some(
            a,
        ) ==> a <= arg_limit())
}

} // verus!
