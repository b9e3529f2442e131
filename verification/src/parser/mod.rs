//! Parsing the instructions of a code object into stored expressions.
//!
//! [`parse`] runs a stack machine over the instructions: loads push new
//! expressions, operations pop their operands and push the expression they
//! build, and every new expression is filed in the [`QueryMap`]. The ids
//! left on the stack are the statements of the code object.

pub mod spec;
pub mod laws;

use vstd::prelude::*;
use crate::ast::{
    Assign, Attribute, BaseValue, BinaryOperation, Call, Class, Container, ContainerType,
    ExpressionEnum, FastVariable, Format, FormatValue, Function, Return, Slice, Subscr,
    UnaryOperation, UnaryType, Yield,
};
use crate::mark::MarkError;
use crate::opcode::{Opcode, OpcodeInstruction};
use crate::patterns::{match_paren_group, paren_group};
use crate::query::QueryMap;
use crate::query_id::{ExprKind, QueryId};
use crate::text::{
    concat2, contains_seq, concat3, contains_str, ends_with, split, str_eq, trim_end_matches,
    trim_start_matches,
};
use spec::{
    PErr, PState, ParseError, Pos, Shape, abs, add_keys, add_node, add_params, after_params, arg_limit, argval, at, base_at, class_end, const_keys, dict_of, extend_list, fail, finish_function, get, is_anonymous, lemma_store_insert, line_of, ok, opt_text, perr, pop, push, replace_node, run, sane, shape_of, step, step_binary, step_build, step_build_class, step_build_map, step_build_slice, step_call, step_const_key_map, step_import_from, step_import_name, step_list_extend, step_load, step_load_attr, step_make_function, step_store_attr, step_store_fast, step_store_name, step_wrap, unwrap_parens,
};

verus! {

/// The content stored under `q`, read through `lookup`.
proof fn lemma_get(map: QueryMap, stack: Seq<QueryId>, q: QueryId)
    ensures
        get(abs(map, stack), q) == (match map.lookup(q) {
            Some(e) => Some(shape_of(e)),
            None => None,
        }),
{
    map.lemma_view(q);
}

/// What `QueryMap::add` does to the state.
proof fn lemma_add(
    m0: QueryMap,
    m1: QueryMap,
    stack: Seq<QueryId>,
    k: ExprKind,
    e: ExpressionEnum,
    r: Option<QueryId>,
)
    requires
        m0.count() <= usize::MAX,
        r is None <==> m0.count() == usize::MAX,
        r is None ==> m1@ == m0@ && m1.count() == m0.count(),
        r matches Some(q) ==> q == QueryId::spec_new(m0.count() as usize, k) && m1.count()
            == m0.count() + 1 && m1@ == m0@.insert(q, e),
    ensures
        match add_node(abs(m0, stack), k, shape_of(e)) {
            Some((s, q)) => r == Some(q) && abs(m1, stack) == s,
            None => r is None && abs(m1, stack) == abs(m0, stack),
        },
{
    if let Some(q) = r {
        lemma_store_insert(m0@, q, e);
    }
}

/// What changing one stored expression in place does to the state.
proof fn lemma_modify(m0: QueryMap, m1: QueryMap, stack: Seq<QueryId>, q: QueryId, e: ExpressionEnum)
    requires
        forall|k: QueryId| k != q ==> m1.lookup(k) == m0.lookup(k),
        m1.lookup(q) == Some(e),
        m1.count() == m0.count(),
    ensures
        abs(m1, stack) == replace_node(abs(m0, stack), q, shape_of(e)),
{
    assert forall|k: QueryId| #[trigger] m1@.dom().contains(k) == m0@.insert(q, e).dom().contains(k)
        by {
        m0.lemma_view(k);
        m1.lemma_view(k);
    }
    assert forall|k: QueryId| m1@.dom().contains(k) implies #[trigger] m1@[k] == m0@.insert(q, e)[k]
        by {
        m0.lemma_view(k);
        m1.lemma_view(k);
    }
    assert(m1@ =~= m0@.insert(q, e));
    lemma_store_insert(m0@, q, e);
}

/// Files `e` as a new expression of type `T`.
fn file<T: crate::ast::Expression>(
    map: &mut QueryMap,
    e: ExpressionEnum,
    Ghost(stack): Ghost<Seq<QueryId>>,
) -> (r: Option<QueryId>)
    requires
        old(map).wf(),
    ensures
        final(map).wf(),
        match add_node(abs(*old(map), stack), T::spec_kind(), shape_of(e)) {
            Some((s, q)) => r == Some(q) && abs(*final(map), stack) == s,
            None => r is None && abs(*final(map), stack) == abs(*old(map), stack),
        },
{
    let ghost m0 = *map;
    let ghost e0 = e;
    proof {
        map.lemma_count();
    }
    let r = map.add::<T>(e);
    proof {
        lemma_add(m0, *map, stack, T::spec_kind(), e0, r);
    }
    r
}

/// Whether a step result is what the code gave: the same error, or success
/// with the given final state.
pub open spec fn matches_step(
    out: Option<Result<(PState, nat), PErr>>,
    r: Result<(), ParseError>,
    fin: PState,
    next: nat,
) -> bool {
    match out {
        Some(Ok((s, n))) => r is Ok && fin == s && n == next,
        Some(Err(e)) => r matches Err(x) && perr(x) == e,
        None => false,
    }
}

/// The top `n` ids of the stack, taken off in stack order.
fn pop_ids(stack: &mut Vec<QueryId>, n: usize) -> (r: Option<Vec<QueryId>>)
    ensures
        old(stack)@.len() < n ==> r is None,
        old(stack)@.len() >= n ==> (r matches Some(v) && v@ == old(stack)@.skip(
            old(stack)@.len() - n,
        ) && final(stack)@ == old(stack)@.take(old(stack)@.len() - n)),
{
    if stack.len() < n {
        return None;
    }
    let at = stack.len() - n;
    let v = stack.split_off(at);
    assert(v@ =~= old(stack)@.skip(at as int));
    assert(stack@ =~= old(stack)@.take(at as int));
    Some(v)
}

/// A copy of the argument value of `it`.
fn argval_of(it: &OpcodeInstruction) -> (r: Option<String>)
    ensures
        opt_text(r) == argval(*it),
{
    match &it.argval {
        Some(s) => Some(s.clone()),
        None => None,
    }
}

/// A base value with the given text, made at `it`.
fn base_value(value: String, it: &OpcodeInstruction) -> (r: ExpressionEnum)
    requires
        it.offset < usize::MAX,
    ensures
        shape_of(r) == base_at(value@, *it),
        r.spec_kind_of() == ExprKind::BaseValue,
{
    ExpressionEnum::BaseValue(
        BaseValue { value, start_line: 0, start_offset: it.offset, end_offset: it.offset + 1 },
    )
}

/// `LOAD_CONST`, `LOAD_NAME`, `LOAD_GLOBAL`, `LOAD_FAST`.
fn op_load(
    map: &mut QueryMap,
    stack: &mut Vec<QueryId>,
    it: &OpcodeInstruction,
    trim: bool,
    Ghost(next): Ghost<nat>,
) -> (r: Result<(), ParseError>)
    requires
        old(map).wf(),
        it.offset < usize::MAX,
    ensures
        final(map).wf(),
        matches_step(
            step_load(abs(*old(map), old(stack)@), *it, trim, next),
            r,
            abs(*final(map), final(stack)@),
            next,
        ),
{
    let v = match argval_of(it) {
        Some(v) => v,
        None => {
            return Err(ParseError::ArgvalIsNone { offset: it.offset });
        },
    };
    let value = if trim {
        trim_start_matches(v.as_str(), "NULL + ")
    } else {
        v
    };
    let q = match file::<BaseValue>(map, base_value(value, it), Ghost(stack@)) {
        Some(q) => q,
        None => {
            return Err(ParseError::AddMapFailed);
        },
    };
    stack.push(q);
    Ok(())
}

/// The line that `it` starts, or 0.
fn line_or_zero(it: &OpcodeInstruction) -> (r: usize)
    ensures
        r == line_of(*it),
{
    match it.starts_line {
        Some(l) => l,
        None => 0,
    }
}

/// `LOAD_ATTR` and `LOAD_METHOD`.
fn op_load_attr(
    map: &mut QueryMap,
    stack: &mut Vec<QueryId>,
    it: &OpcodeInstruction,
    Ghost(next): Ghost<nat>,
) -> (r: Result<(), ParseError>)
    requires
        old(map).wf(),
        it.offset < usize::MAX,
    ensures
        final(map).wf(),
        matches_step(
            step_load_attr(abs(*old(map), old(stack)@), *it, next),
            r,
            abs(*final(map), final(stack)@),
            next,
        ),
{
    let parent = match stack.pop() {
        Some(p) => p,
        None => {
            return Err(ParseError::IdsStackEmpty);
        },
    };
    let v = match argval_of(it) {
        Some(v) => v,
        None => {
            return Err(ParseError::ArgvalIsNone { offset: it.offset });
        },
    };
    let attr = file::<BaseValue>(map, base_value(v, it), Ghost(stack@));
    let node = ExpressionEnum::Attribute(
        Attribute {
            parent: Some(parent),
            attr,
            start_line: 0,
            start_offset: it.offset,
            end_offset: it.offset + 1,
        },
    );
    let q = match file::<Attribute>(map, node, Ghost(stack@)) {
        Some(q) => q,
        None => {
            return Err(ParseError::AddMapFailed);
        },
    };
    stack.push(q);
    Ok(())
}

/// Whether `name` is that of a lambda, generator expression or list
/// comprehension.
fn anonymous(name: &str) -> (r: bool)
    ensures
        r == is_anonymous(name@),
{
    str_eq(name, "<lambda>") || str_eq(name, "<genexpr>") || str_eq(name, "<listcomp>")
}

/// An assignment of `value` to `target`, with the given position.
fn assign_node(
    target: Option<QueryId>,
    value: QueryId,
    line: usize,
    start: usize,
    end: usize,
) -> (r: ExpressionEnum)
    ensures
        shape_of(r) == (Shape::Assign {
            target,
            value: Some(value),
            operator: "="@,
            pos: Pos { line, start, end },
        }),
{
    ExpressionEnum::Assign(
        Assign {
            target,
            value: Some(value),
            operator: String::from_str("="),
            start_line: line,
            start_offset: start,
            end_offset: end,
        },
    )
}

/// `STORE_NAME` and `STORE_GLOBAL`.
#[verifier::rlimit(40)]
fn op_store_name(
    map: &mut QueryMap,
    stack: &mut Vec<QueryId>,
    it: &OpcodeInstruction,
    Ghost(next): Ghost<nat>,
) -> (r: Result<(), ParseError>)
    requires
        old(map).wf(),
        it.offset < usize::MAX,
    ensures
        final(map).wf(),
        matches_step(
            step_store_name(abs(*old(map), old(stack)@), *it, next),
            r,
            abs(*final(map), final(stack)@),
            next,
        ),
{
    let name = match argval_of(it) {
        Some(v) => v,
        None => {
            return Err(ParseError::ArgvalIsNone { offset: it.offset });
        },
    };
    let vid = match stack.pop() {
        Some(p) => p,
        None => {
            return Err(ParseError::IdsStackEmpty);
        },
    };
    proof {
        lemma_get(*map, stack@, vid);
    }
    let value = match map.get_single(vid) {
        Some(v) => v,
        None => {
            return Err(ParseError::QueryFailed);
        },
    };
    match value {
        ExpressionEnum::Function(function) => {
            if anonymous(function.name.as_str()) {
                let target = file::<BaseValue>(map, base_value(name, it), Ghost(stack@));
                let q = match file::<Assign>(map, assign_node(target, vid, 0, 0, 0), Ghost(stack@)) {
                    Some(q) => q,
                    None => {
                        return Err(ParseError::AddMapFailed);
                    },
                };
                stack.push(q);
            } else {
                stack.push(vid);
            }
            Ok(())
        },
        ExpressionEnum::Import(import) => {
            let module = import.module.clone();
            let bk = import.bk_module.clone();
            let frag = import.fragment.clone();
            let ghost m0 = *map;
            match bk {
                None => {
                    if str_eq(module.as_str(), name.as_str()) {
                        stack.push(vid);
                    } else {
                        match map.get_single_mut(vid) {
                            Some(e) => {
                                if let ExpressionEnum::Import(imp) = e {
                                    imp.alias = Some(name);
                                }
                            },
                            None => {
                                return Err(ParseError::QueryMutFailed);
                            },
                        }
                        proof {
                            lemma_modify(m0, *map, stack@, vid, map.lookup(vid).unwrap());
                        }
                    }
                },
                Some(bkv) => {
                    let f = match frag {
                        Some(f) => f,
                        None => {
                            return Err(ParseError::IsNone(String::from_str("Import fragment")));
                        },
                    };
                    let new_bk = if str_eq(f.as_str(), name.as_str()) {
                        concat3(bkv.as_str(), name.as_str(), ", ")
                    } else {
                        let a = concat3(bkv.as_str(), f.as_str(), " as ");
                        concat3(a.as_str(), name.as_str(), ", ")
                    };
                    match map.get_single_mut(vid) {
                        Some(e) => {
                            if let ExpressionEnum::Import(imp) = e {
                                imp.bk_module = Some(new_bk);
                            }
                        },
                        None => {
                            return Err(ParseError::QueryMutFailed);
                        },
                    }
                    proof {
                        lemma_modify(m0, *map, stack@, vid, map.lookup(vid).unwrap());
                    }
                },
            }
            stack.push(vid);
            Ok(())
        },
        _ => {
            let target = file::<BaseValue>(map, base_value(name, it), Ghost(stack@));
            let q = match file::<Assign>(
                map,
                assign_node(target, vid, 0, it.offset, it.offset + 1),
                Ghost(stack@),
            ) {
                Some(q) => q,
                None => {
                    return Err(ParseError::AddMapFailed);
                },
            };
            stack.push(q);
            Ok(())
        },
    }
}

/// `STORE_FAST`.
fn op_store_fast(
    map: &mut QueryMap,
    stack: &mut Vec<QueryId>,
    it: &OpcodeInstruction,
    Ghost(next): Ghost<nat>,
) -> (r: Result<(), ParseError>)
    requires
        old(map).wf(),
        it.offset < usize::MAX,
    ensures
        final(map).wf(),
        matches_step(
            step_store_fast(abs(*old(map), old(stack)@), *it, next),
            r,
            abs(*final(map), final(stack)@),
            next,
        ),
{
    let name = match argval_of(it) {
        Some(v) => v,
        None => {
            return Err(ParseError::ArgvalIsNone { offset: it.offset });
        },
    };
    let vid = match stack.pop() {
        Some(p) => p,
        None => {
            return Err(ParseError::IdsStackEmpty);
        },
    };
    proof {
        lemma_get(*map, stack@, vid);
    }
    let is_function = match map.get_single(vid) {
        Some(v) => v.is_function(),
        None => {
            return Err(ParseError::QueryFailed);
        },
    };
    if is_function {
        stack.push(vid);
    } else {
        let target = file::<BaseValue>(map, base_value(name, it), Ghost(stack@));
        let q = match file::<Assign>(
            map,
            assign_node(target, vid, line_or_zero(it), it.offset, it.offset + 1),
            Ghost(stack@),
        ) {
            Some(q) => q,
            None => {
                return Err(ParseError::AddMapFailed);
            },
        };
        stack.push(q);
    }
    Ok(())
}

/// `STORE_ATTR`.
#[verifier::rlimit(40)]
fn op_store_attr(
    map: &mut QueryMap,
    stack: &mut Vec<QueryId>,
    it: &OpcodeInstruction,
    Ghost(next): Ghost<nat>,
) -> (r: Result<(), ParseError>)
    requires
        old(map).wf(),
        it.offset < usize::MAX,
    ensures
        final(map).wf(),
        matches_step(
            step_store_attr(abs(*old(map), old(stack)@), *it, next),
            r,
            abs(*final(map), final(stack)@),
            next,
        ),
{
    let parent = match stack.pop() {
        Some(p) => p,
        None => {
            return Err(ParseError::IdsStackEmpty);
        },
    };
    let a = match argval_of(it) {
        Some(v) => v,
        None => {
            return Err(ParseError::ArgvalIsNone { offset: it.offset });
        },
    };
    let attr_id = match file::<BaseValue>(map, base_value(a, it), Ghost(stack@)) {
        Some(q) => q,
        None => {
            return Err(ParseError::AddMapFailed);
        },
    };
    let vid = match stack.pop() {
        Some(p) => p,
        None => {
            return Err(ParseError::IdsStackEmpty);
        },
    };
    let target = ExpressionEnum::Attribute(
        Attribute {
            parent: Some(parent),
            attr: Some(attr_id),
            start_line: 0,
            start_offset: it.offset,
            end_offset: it.offset + 1,
        },
    );
    let target_id = match file::<Attribute>(map, target, Ghost(stack@)) {
        Some(q) => q,
        None => {
            return Err(ParseError::AddMapFailed);
        },
    };
    proof {
        lemma_get(*map, stack@, vid);
    }
    let is_self = match map.get_single(vid) {
        None => {
            return Err(ParseError::QueryFailed);
        },
        Some(ExpressionEnum::BinaryOperation(b)) => {
            let l = match b.left {
                Some(l) => l,
                None => {
                    return Err(ParseError::IsNone(String::from_str("BinaryOperation left")));
                },
            };
            let op_ends = ends_with(b.operator.as_str(), "=");
            proof {
                lemma_get(*map, stack@, l);
            }
            match map.get_single(l) {
                None => {
                    return Err(ParseError::QueryFailed);
                },
                Some(ExpressionEnum::Attribute(at)) => {
                    let same_parent = match at.parent {
                        Some(p) => p == parent,
                        None => false,
                    };
                    let same_attr = match at.attr {
                        Some(x) => x == attr_id,
                        None => false,
                    };
                    same_parent && same_attr && op_ends
                },
                Some(_) => false,
            }
        },
        Some(_) => false,
    };
    if is_self {
        stack.push(vid);
        return Ok(());
    }
    let q = match file::<Assign>(
        map,
        assign_node(Some(target_id), vid, line_or_zero(it), it.offset, it.offset + 1),
        Ghost(stack@),
    ) {
        Some(q) => q,
        None => {
            return Err(ParseError::AddMapFailed);
        },
    };
    stack.push(q);
    Ok(())
}

/// `LOAD_BUILD_CLASS`: gives the index of the next instruction to parse.
fn op_build_class(
    map: &mut QueryMap,
    stack: &mut Vec<QueryId>,
    ins: &[OpcodeInstruction],
    i: usize,
) -> (r: Result<usize, ParseError>)
    requires
        old(map).wf(),
        i < ins@.len(),
        step_build_class(abs(*old(map), old(stack)@), ins@, i as nat) is Some,
    ensures
        final(map).wf(),
        match step_build_class(abs(*old(map), old(stack)@), ins@, i as nat).unwrap() {
            Ok((s, j)) => r == Ok::<usize, ParseError>(j as usize) && abs(*final(map), final(stack)@)
                == s,
            Err(e) => r matches Err(x) && perr(x) == e,
        },
{
    let it = &ins[i];
    if i + 1 >= ins.len() {
        return Err(ParseError::OffsetOutOfRange);
    }
    let mark = match argval_of(&ins[i + 1]) {
        Some(m) => m,
        None => {
            return Err(ParseError::ArgvalIsNone { offset: it.offset });
        },
    };
    let class = match Class::new(mark.as_str()) {
        Ok(c) => c,
        Err(e) => {
            return Err(ParseError::Other(e.message()));
        },
    };
    let q = match file::<Class>(map, ExpressionEnum::Class(class), Ghost(stack@)) {
        Some(q) => q,
        None => {
            return Err(ParseError::AddMapFailed);
        },
    };
    stack.push(q);
    let line = match it.starts_line {
        Some(l) => l,
        None => {
            return Err(ParseError::NoInstruction);
        },
    };
    let ghost goal = class_end(ins@, (i + 1) as nat, line);
    let ghost after = abs(*map, stack@);
    let ghost expected = step_build_class(abs(*old(map), old(stack)@), ins@, i as nat);
    assert(expected == match goal {
        Some(jj) => ok(after, jj),
        None => None,
    });
    let mut j: usize = i + 1;
    loop
        invariant
            i < j <= ins@.len(),
            goal is Some,
            goal == class_end(ins@, j as nat, line),
            map.wf(),
            abs(*map, stack@) == after,
            expected == step_build_class(abs(*old(map), old(stack)@), ins@, i as nat),
            expected == match goal {
                Some(jj) => ok(after, jj),
                None => None,
            },
        decreases ins@.len() - j,
    {
        if j >= ins.len() {
            return Err(ParseError::NoInstruction);
        }
        match ins[j].starts_line {
            None => {
                return Err(ParseError::NoInstruction);
            },
            Some(l) => {
                if l != line {
                    return Ok(j);
                }
            },
        }
        j = j + 1;
    }
}

/// The node type of the expression that wraps the top of the stack.
pub open spec fn wrap_kind(op: Opcode) -> ExprKind {
    match op {
        Opcode::FormatValue => ExprKind::FormatValue,
        Opcode::ReturnValue => ExprKind::Return,
        Opcode::YieldValue => ExprKind::Yield,
        _ => ExprKind::UnaryOperation,
    }
}

/// `FORMAT_VALUE`, `RETURN_VALUE`, `YIELD_VALUE` and the unary operations.
fn op_wrap(
    map: &mut QueryMap,
    stack: &mut Vec<QueryId>,
    it: &OpcodeInstruction,
    Ghost(next): Ghost<nat>,
) -> (r: Result<(), ParseError>)
    requires
        old(map).wf(),
        it.offset < usize::MAX,
    ensures
        final(map).wf(),
        matches_step(
            step_wrap(abs(*old(map), old(stack)@), wrap_kind(it.opcode), *it, next),
            r,
            abs(*final(map), final(stack)@),
            next,
        ),
{
    let v = match stack.pop() {
        Some(p) => p,
        None => {
            return Err(ParseError::IdsStackEmpty);
        },
    };
    let added = match it.opcode {
        Opcode::FormatValue => file::<FormatValue>(
            map,
            ExpressionEnum::FormatValue(
                FormatValue {
                    value: Some(v),
                    start_line: 0,
                    start_offset: it.offset,
                    end_offset: it.offset + 1,
                },
            ),
            Ghost(stack@),
        ),
        Opcode::ReturnValue => file::<Return>(
            map,
            ExpressionEnum::Return(
                Return {
                    value: Some(v),
                    start_line: line_or_zero(it),
                    start_offset: it.offset,
                    end_offset: it.offset + 1,
                },
            ),
            Ghost(stack@),
        ),
        Opcode::YieldValue => file::<Yield>(
            map,
            ExpressionEnum::Yield(
                Yield {
                    value: Some(v),
                    start_line: line_or_zero(it),
                    start_offset: it.offset,
                    end_offset: it.offset + 1,
                },
            ),
            Ghost(stack@),
        ),
        _ => {
            let t = match it.opcode {
                Opcode::UnaryInvert => UnaryType::Invert,
                Opcode::UnaryNegative => UnaryType::Negative,
                _ => UnaryType::Not,
            };
            file::<UnaryOperation>(
                map,
                ExpressionEnum::UnaryOperation(
                    UnaryOperation {
                        target: Some(v),
                        unary_type: t,
                        start_line: 0,
                        start_offset: it.offset,
                        end_offset: it.offset + 1,
                    },
                ),
                Ghost(stack@),
            )
        },
    };
    let q = match added {
        Some(q) => q,
        None => {
            return Err(ParseError::AddMapFailed);
        },
    };
    stack.push(q);
    Ok(())
}

/// `BUILD_STRING`, `BUILD_TUPLE`, `BUILD_LIST`, `BUILD_SET`.
fn op_build(
    map: &mut QueryMap,
    stack: &mut Vec<QueryId>,
    it: &OpcodeInstruction,
    Ghost(next): Ghost<nat>,
) -> (r: Result<(), ParseError>)
    requires
        old(map).wf(),
        it.offset < usize::MAX,
    ensures
        final(map).wf(),
        matches_step(
            step_build(abs(*old(map), old(stack)@), *it, next),
            r,
            abs(*final(map), final(stack)@),
            next,
        ),
{
    let size = match it.arg {
        Some(s) => s,
        None => {
            let what = match it.opcode {
                Opcode::BuildString => "BuildString size",
                Opcode::BuildTuple => "BuildTuple size",
                Opcode::BuildList => "BuildList size",
                _ => "BuildSet size",
            };
            return Err(ParseError::IsNone(String::from_str(what)));
        },
    };
    let vals = match pop_ids(stack, size) {
        Some(v) => v,
        None => {
            return Err(ParseError::IdsStackEmpty);
        },
    };
    let added = match it.opcode {
        Opcode::BuildString => file::<Format>(
            map,
            ExpressionEnum::Format(
                Format {
                    format_values: vals,
                    start_line: 0,
                    start_offset: it.offset,
                    end_offset: it.offset + 1,
                },
            ),
            Ghost(stack@),
        ),
        _ => {
            let t = match it.opcode {
                Opcode::BuildTuple => ContainerType::Tuple,
                Opcode::BuildList => ContainerType::List,
                _ => ContainerType::SetContainer,
            };
            file::<Container>(
                map,
                ExpressionEnum::Container(
                    Container {
                        values: vals,
                        container_type: t,
                        start_line: 0,
                        start_offset: it.offset,
                        end_offset: it.offset + 1,
                    },
                ),
                Ghost(stack@),
            )
        },
    };
    let q = match added {
        Some(q) => q,
        None => {
            return Err(ParseError::AddMapFailed);
        },
    };
    stack.push(q);
    Ok(())
}

/// A dictionary display of `values`, made at `it`.
fn dict_node(values: Vec<QueryId>, it: &OpcodeInstruction) -> (r: ExpressionEnum)
    requires
        it.offset < usize::MAX,
    ensures
        shape_of(r) == (Shape::Container {
            values: values@,
            container_type: ContainerType::Dict,
            pos: at(*it),
        }),
{
    ExpressionEnum::Container(
        Container {
            values,
            container_type: ContainerType::Dict,
            start_line: 0,
            start_offset: it.offset,
            end_offset: it.offset + 1,
        },
    )
}

/// `BUILD_MAP`.
fn op_build_map(
    map: &mut QueryMap,
    stack: &mut Vec<QueryId>,
    it: &OpcodeInstruction,
    Ghost(next): Ghost<nat>,
) -> (r: Result<(), ParseError>)
    requires
        old(map).wf(),
        it.offset < usize::MAX,
        it.arg matches Some(a) ==> a <= arg_limit(),
    ensures
        final(map).wf(),
        matches_step(
            step_build_map(abs(*old(map), old(stack)@), *it, next),
            r,
            abs(*final(map), final(stack)@),
            next,
        ),
{
    let size = match it.arg {
        Some(s) => s,
        None => {
            return Err(ParseError::IsNone(String::from_str("BuildMap size")));
        },
    };
    let vals = match pop_ids(stack, 2 * size) {
        Some(v) => v,
        None => {
            return Err(ParseError::IdsStackEmpty);
        },
    };
    let q = match file::<Container>(map, dict_node(vals, it), Ghost(stack@)) {
        Some(q) => q,
        None => {
            return Err(ParseError::AddMapFailed);
        },
    };
    stack.push(q);
    Ok(())
}

/// `BUILD_SLICE`.
fn op_build_slice(
    map: &mut QueryMap,
    stack: &mut Vec<QueryId>,
    it: &OpcodeInstruction,
    Ghost(next): Ghost<nat>,
) -> (r: Result<(), ParseError>)
    requires
        old(map).wf(),
        it.offset < usize::MAX,
    ensures
        final(map).wf(),
        matches_step(
            step_build_slice(abs(*old(map), old(stack)@), *it, next),
            r,
            abs(*final(map), final(stack)@),
            next,
        ),
{
    let size = match it.arg {
        Some(s) => s,
        None => {
            return Err(ParseError::IsNone(String::from_str("BuildSlice size")));
        },
    };
    let vals = match pop_ids(stack, size) {
        Some(v) => v,
        None => {
            return Err(ParseError::IdsStackEmpty);
        },
    };
    let origin = match stack.pop() {
        Some(p) => p,
        None => {
            return Err(ParseError::IdsStackEmpty);
        },
    };
    let node = ExpressionEnum::Slice(
        Slice {
            origin: Some(origin),
            slice: vals,
            start_line: 0,
            start_offset: it.offset,
            end_offset: it.offset + 1,
        },
    );
    let q = match file::<Slice>(map, node, Ghost(stack@)) {
        Some(q) => q,
        None => {
            return Err(ParseError::AddMapFailed);
        },
    };
    stack.push(q);
    Ok(())
}

/// A binary operation of `left` and `right` with `operator`, made at `it`.
fn binary_node(left: QueryId, right: QueryId, operator: String, it: &OpcodeInstruction) -> (r:
    ExpressionEnum)
    requires
        it.offset < usize::MAX,
    ensures
        shape_of(r) == (Shape::BinOp {
            left: Some(left),
            right: Some(right),
            operator: operator@,
            pos: at(*it),
        }),
{
    ExpressionEnum::BinaryOperation(
        BinaryOperation {
            left: Some(left),
            right: Some(right),
            operator,
            start_line: 0,
            start_offset: it.offset,
            end_offset: it.offset + 1,
        },
    )
}

/// `BINARY_OP`, `COMPARE_OP`, `IS_OP`, `CONTAINS_OP`, `BINARY_SUBSCR`.
fn op_binary(
    map: &mut QueryMap,
    stack: &mut Vec<QueryId>,
    it: &OpcodeInstruction,
    Ghost(next): Ghost<nat>,
) -> (r: Result<(), ParseError>)
    requires
        old(map).wf(),
        it.offset < usize::MAX,
    ensures
        final(map).wf(),
        matches_step(
            step_binary(abs(*old(map), old(stack)@), *it, next),
            r,
            abs(*final(map), final(stack)@),
            next,
        ),
{
    let right = match stack.pop() {
        Some(p) => p,
        None => {
            return Err(ParseError::IdsStackEmpty);
        },
    };
    let left = match stack.pop() {
        Some(p) => p,
        None => {
            return Err(ParseError::IdsStackEmpty);
        },
    };
    let added = match it.opcode {
        Opcode::BinarySubscr => file::<Subscr>(
            map,
            ExpressionEnum::Subscr(
                Subscr {
                    index: Some(right),
                    target: Some(left),
                    start_line: 0,
                    start_offset: it.offset,
                    end_offset: it.offset + 1,
                },
            ),
            Ghost(stack@),
        ),
        Opcode::IsOp | Opcode::ContainsOp => {
            let is = match it.opcode {
                Opcode::IsOp => true,
                _ => false,
            };
            let op = match it.arg {
                Some(0) => if is {
                    "is"
                } else {
                    "in"
                },
                Some(1) => if is {
                    "is not"
                } else {
                    "not in"
                },
                _ => {
                    let target = if is {
                        "IsOp operator"
                    } else {
                        "ContainsOp operator"
                    };
                    return Err(ParseError::InvalidArg { target: String::from_str(target) });
                },
            };
            file::<BinaryOperation>(
                map,
                binary_node(left, right, String::from_str(op), it),
                Ghost(stack@),
            )
        },
        _ => {
            let op = match argval_of(it) {
                Some(v) => v,
                None => {
                    return Err(ParseError::ArgvalIsNone { offset: it.offset });
                },
            };
            file::<BinaryOperation>(map, binary_node(left, right, op, it), Ghost(stack@))
        },
    };
    let q = match added {
        Some(q) => q,
        None => {
            return Err(ParseError::AddMapFailed);
        },
    };
    stack.push(q);
    Ok(())
}

/// A call of `func` with `args`, at the given position.
fn call_node(func: Option<QueryId>, args: Vec<QueryId>, line: usize, it: &OpcodeInstruction) -> (r:
    ExpressionEnum)
    requires
        it.offset < usize::MAX,
    ensures
        shape_of(r) == (Shape::Call {
            func,
            args: args@,
            pos: Pos { line, start: it.offset, end: (it.offset + 1) as usize },
        }),
{
    ExpressionEnum::Call(
        Call { func, args, start_line: line, start_offset: it.offset, end_offset: it.offset + 1 },
    )
}

/// `CALL`.
#[verifier::rlimit(40)]
fn op_call(
    map: &mut QueryMap,
    stack: &mut Vec<QueryId>,
    it: &OpcodeInstruction,
    Ghost(next): Ghost<nat>,
) -> (r: Result<(), ParseError>)
    requires
        old(map).wf(),
        it.offset < usize::MAX,
    ensures
        final(map).wf(),
        matches_step(
            step_call(abs(*old(map), old(stack)@), *it, next),
            r,
            abs(*final(map), final(stack)@),
            next,
        ),
{
    let count = match it.arg {
        Some(c) => c,
        None => {
            return Err(ParseError::IsNone(String::from_str("Call count")));
        },
    };
    if count == 0 {
        let last = match stack.pop() {
            Some(p) => p,
            None => {
                return Err(ParseError::IdsStackEmpty);
            },
        };
        proof {
            lemma_get(*map, stack@, last);
        }
        let spaced = match map.get_single(last) {
            None => {
                return Err(ParseError::QueryFailed);
            },
            Some(ExpressionEnum::BaseValue(b)) => contains_str(b.value.as_str(), " "),
            Some(_) => false,
        };
        if spaced {
            stack.push(last);
        } else {
            let q = match file::<Call>(
                map,
                call_node(Some(last), Vec::new(), 0, it),
                Ghost(stack@),
            ) {
                Some(q) => q,
                None => {
                    return Err(ParseError::AddMapFailed);
                },
            };
            stack.push(q);
        }
        return Ok(());
    }
    let args = match pop_ids(stack, count) {
        Some(v) => v,
        None => {
            return Err(ParseError::IdsStackEmpty);
        },
    };
    let last = match stack.pop() {
        Some(p) => p,
        None => {
            return Err(ParseError::IdsStackEmpty);
        },
    };
    proof {
        lemma_get(*map, stack@, last);
    }
    let name = match map.get_single(last) {
        None => {
            return Err(ParseError::QueryFailed);
        },
        Some(ExpressionEnum::BaseValue(b)) => Some(trim_start_matches(b.value.as_str(), "NULL + ")),
        Some(_) => None,
    };
    let added = match name {
        Some(n) => {
            let func = file::<BaseValue>(map, base_value(n, it), Ghost(stack@));
            file::<Call>(map, call_node(func, args, line_or_zero(it), it), Ghost(stack@))
        },
        None => file::<Call>(map, call_node(Some(last), args, 0, it), Ghost(stack@)),
    };
    let q = match added {
        Some(q) => q,
        None => {
            return Err(ParseError::AddMapFailed);
        },
    };
    stack.push(q);
    Ok(())
}

/// `IMPORT_FROM`.
fn op_import_from(
    map: &mut QueryMap,
    stack: &mut Vec<QueryId>,
    it: &OpcodeInstruction,
    Ghost(next): Ghost<nat>,
) -> (r: Result<(), ParseError>)
    requires
        old(map).wf(),
    ensures
        final(map).wf(),
        matches_step(
            step_import_from(abs(*old(map), old(stack)@), *it, next),
            r,
            abs(*final(map), final(stack)@),
            next,
        ),
{
    if stack.len() == 0 {
        return Err(ParseError::IdsStackEmpty);
    }
    let vid = stack[stack.len() - 1];
    proof {
        lemma_get(*map, stack@, vid);
    }
    let is_import = match map.get_single(vid) {
        None => {
            return Err(ParseError::QueryFailed);
        },
        Some(e) => e.is_import(),
    };
    if !is_import {
        return Ok(());
    }
    let ghost m0 = *map;
    match map.get_single_mut(vid) {
        None => {
            return Err(ParseError::QueryFailed);
        },
        Some(e) => {
            if let ExpressionEnum::Import(imp) = e {
                if imp.bk_module.is_none() {
                    imp.fragment = None;
                } else {
                    match argval_of(it) {
                        Some(f) => {
                            imp.fragment = Some(f);
                        },
                        None => {
                            return Err(ParseError::ArgvalIsNone { offset: it.offset });
                        },
                    }
                }
            }
        },
    }
    proof {
        lemma_modify(m0, *map, stack@, vid, map.lookup(vid).unwrap());
    }
    Ok(())
}

/// `BUILD_CONST_KEY_MAP`.
#[verifier::rlimit(40)]
fn op_const_key_map(
    map: &mut QueryMap,
    stack: &mut Vec<QueryId>,
    it: &OpcodeInstruction,
    Ghost(next): Ghost<nat>,
) -> (r: Result<(), ParseError>)
    requires
        old(map).wf(),
        it.offset < usize::MAX,
    ensures
        final(map).wf(),
        matches_step(
            step_const_key_map(abs(*old(map), old(stack)@), *it, next),
            r,
            abs(*final(map), final(stack)@),
            next,
        ),
{
    let ghost expected = step_const_key_map(abs(*map, stack@), *it, next);
    let size = match it.arg {
        Some(s) => s,
        None => {
            return Err(ParseError::IsNone(String::from_str("BuildConstKeyMap size")));
        },
    };
    let keys_id = match stack.pop() {
        Some(p) => p,
        None => {
            return Err(ParseError::IdsStackEmpty);
        },
    };
    let vals = match pop_ids(stack, size) {
        Some(v) => v,
        None => {
            return Err(ParseError::IdsStackEmpty);
        },
    };
    proof {
        lemma_get(*map, stack@, keys_id);
    }
    let key_text = match map.get_single(keys_id) {
        None => {
            return Err(ParseError::QueryFailed);
        },
        Some(ExpressionEnum::BaseValue(b)) => Some(b.value.clone()),
        Some(_) => None,
    };
    let mut entries: Vec<QueryId> = Vec::new();
    if let Some(key) = key_text {
        let t1 = trim_start_matches(key.as_str(), "(");
        let t2 = trim_end_matches(t1.as_str(), ")");
        proof {
            reveal_strlit(", ");
        }
        let pieces = split(t2.as_str(), ", ");
        let ghost keys = const_keys(key@);
        assert(keys == crate::text::strings_view(pieces@));
        let ghost s0 = abs(*map, stack@);
        let ghost goal = add_keys(s0, keys, vals@, *it);
        assert(expected == dict_of(goal, *it, next));
        assert(keys.skip(0) =~= keys);
        assert(vals@.skip(0) =~= vals@);
        let mut j: usize = 0;
        while j < pieces.len() && j < vals.len()
            invariant
                map.wf(),
                it.offset < usize::MAX,
                j <= pieces@.len(),
                j <= vals@.len(),
                keys == crate::text::strings_view(pieces@),
                stack@ == s0.stack,
                expected == dict_of(goal, *it, next),
                expected == step_const_key_map(abs(*old(map), old(stack)@), *it, next),
                match add_keys(abs(*map, stack@), keys.skip(j as int), vals@.skip(j as int), *it) {
                    None => goal is None,
                    Some((s, rest)) => goal == Some((s, entries@ + rest)),
                },
            decreases pieces@.len() - j,
        {
            let ghost cur = abs(*map, stack@);
            assert(keys.skip(j as int)[0] == pieces@[j as int]@);
            assert(keys.skip(j as int).drop_first() =~= keys.skip(j + 1));
            assert(vals@.skip(j as int).drop_first() =~= vals@.skip(j + 1));
            assert(vals@.skip(j as int)[0] == vals@[j as int]);
            assert(add_keys(cur, keys.skip(j as int), vals@.skip(j as int), *it) == match add_node(
                cur,
                ExprKind::BaseValue,
                base_at(pieces@[j as int]@, *it),
            ) {
                None => None,
                Some((s1, k)) => match add_keys(s1, keys.skip(j + 1), vals@.skip(j + 1), *it) {
                    None => None,
                    Some((s2, rest)) => Some((s2, seq![k, vals@[j as int]] + rest)),
                },
            });
            let k = match file::<BaseValue>(
                map,
                base_value(pieces[j].clone(), it),
                Ghost(stack@),
            ) {
                Some(q) => q,
                None => {
                    return Err(ParseError::AddMapFailed);
                },
            };
            let ghost before = entries@;
            entries.push(k);
            entries.push(vals[j]);
            proof {
                assert(entries@ == before + seq![k, vals@[j as int]]);
                assert forall|rest: Seq<QueryId>| #[trigger] (entries@ + rest) == before + (seq![
                    k,
                    vals@[j as int],
                ] + rest) by {
                    assert(entries@ + rest =~= before + (seq![k, vals@[j as int]] + rest));
                }
            }
            j = j + 1;
        }
        proof {
            assert(add_keys(abs(*map, stack@), keys.skip(j as int), vals@.skip(j as int), *it)
                == Some((abs(*map, stack@), Seq::<QueryId>::empty())));
            assert(entries@ + Seq::<QueryId>::empty() =~= entries@);
        }
    }
    let q = match file::<Container>(map, dict_node(entries, it), Ghost(stack@)) {
        Some(q) => q,
        None => {
            return Err(ParseError::AddMapFailed);
        },
    };
    stack.push(q);
    Ok(())
}

/// `LIST_EXTEND`.
#[verifier::rlimit(40)]
fn op_list_extend(
    map: &mut QueryMap,
    stack: &mut Vec<QueryId>,
    it: &OpcodeInstruction,
    Ghost(next): Ghost<nat>,
) -> (r: Result<(), ParseError>)
    requires
        old(map).wf(),
    ensures
        final(map).wf(),
        matches_step(
            step_list_extend(abs(*old(map), old(stack)@), *it, next),
            r,
            abs(*final(map), final(stack)@),
            next,
        ),
{
    let ghost expected = step_list_extend(abs(*map, stack@), *it, next);
    let size = match it.arg {
        Some(s) => s,
        None => {
            return Err(ParseError::IsNone(String::from_str("ListExtend size")));
        },
    };
    let ext = match pop_ids(stack, size) {
        Some(v) => v,
        None => {
            return Err(ParseError::IdsStackEmpty);
        },
    };
    if stack.len() == 0 {
        return Err(ParseError::IdsStackEmpty);
    }
    let list_id = stack[stack.len() - 1];
    proof {
        lemma_get(*map, stack@, list_id);
    }
    let is_list = match map.get_single(list_id) {
        None => {
            return Err(ParseError::QueryFailed);
        },
        Some(e) => match e.as_ref_container() {
            Some(c) => match c.container_type {
                ContainerType::List => true,
                _ => false,
            },
            None => false,
        },
    };
    if !is_list {
        return Err(ParseError::Other(String::from_str("ListExtend target is not a list")));
    }
    let ghost s1 = abs(*map, stack@);
    let ghost goal = unwrap_parens(s1, ext@);
    assert(expected == match goal {
        Err(e) => fail(e),
        Ok(s2) => extend_list(s2, list_id, ext@, next),
    });
    assert(ext@.skip(0) =~= ext@);
    let mut j: usize = 0;
    while j < ext.len()
        invariant
            map.wf(),
            j <= ext@.len(),
            unwrap_parens(abs(*map, stack@), ext@.skip(j as int)) == goal,
            stack@ == s1.stack,
            expected == step_list_extend(abs(*old(map), old(stack)@), *it, next),
            expected == match goal {
                Err(e) => fail(e),
                Ok(s2) => extend_list(s2, list_id, ext@, next),
            },
        decreases ext@.len() - j,
    {
        let e_id = ext[j];
        assert(ext@.skip(j as int)[0] == e_id);
        assert(ext@.skip(j as int).drop_first() =~= ext@.skip(j + 1));
        proof {
            lemma_get(*map, stack@, e_id);
        }
        let ghost m0 = *map;
        let ghost cur = abs(*map, stack@);
        assert(unwrap_parens(cur, ext@.skip(j as int)) == match get(cur, e_id) {
            None => Err(PErr::QueryMutFailed),
            Some(Shape::Base { value, pos }) => match paren_group(value) {
                None => Err(PErr::Other("ListExtend value is not a tuple"@)),
                Some(None) => Err(PErr::OffsetOutOfRange),
                Some(Some(g)) => unwrap_parens(
                    replace_node(cur, e_id, Shape::Base { value: g, pos }),
                    ext@.skip(j + 1),
                ),
            },
            Some(_) => unwrap_parens(cur, ext@.skip(j + 1)),
        });
        match map.get_single_mut(e_id) {
            None => {
                return Err(ParseError::QueryMutFailed);
            },
            Some(e) => {
                if let ExpressionEnum::BaseValue(b) = e {
                    match match_paren_group(b.value.as_str()) {
                        None => {
                            return Err(
                                ParseError::Other(
                                    String::from_str("ListExtend value is not a tuple"),
                                ),
                            );
                        },
                        Some(None) => {
                            return Err(ParseError::OffsetOutOfRange);
                        },
                        Some(Some(g)) => {
                            b.value = g;
                        },
                    }
                }
            },
        }
        proof {
            lemma_modify(m0, *map, stack@, e_id, map.lookup(e_id).unwrap());
            if !(m0.lookup(e_id).unwrap() is BaseValue) {
                assert(abs(*map, stack@).store =~= abs(m0, stack@).store);
            }
        }
        j = j + 1;
    }
    assert(ext@.skip(j as int) =~= Seq::<QueryId>::empty());
    proof {
        lemma_get(*map, stack@, list_id);
    }
    let ghost m1 = *map;
    let mut more = ext;
    match map.get_single_mut(list_id) {
        None => {
            return Err(ParseError::QueryMutFailed);
        },
        Some(e) => {
            if let ExpressionEnum::Container(c) = e {
                c.values.append(&mut more);
            }
        },
    }
    proof {
        lemma_modify(m1, *map, stack@, list_id, map.lookup(list_id).unwrap());
        if !(m1.lookup(list_id).unwrap() is Container) {
            assert(abs(*map, stack@).store =~= abs(m1, stack@).store);
        }
    }
    Ok(())
}

/// `IMPORT_NAME`: stops on an empty stack; otherwise not supported.
fn op_import_name(stack: &mut Vec<QueryId>, Ghost(st): Ghost<PState>) -> (r: Result<
    (),
    ParseError,
>)
    requires
        st.stack == old(stack)@,
        step_import_name(st) is Some,
    ensures
        matches_step(step_import_name(st), r, st, 0),
{
    match stack.pop() {
        Some(_) => {},
        None => {
            return Err(ParseError::IdsStackEmpty);
        },
    }
    if stack.len() == 0 {
        return Err(ParseError::IdsStackEmpty);
    }
    Err(ParseError::NoInstruction)
}

/// A copy of a list of ids.
fn copy_ids(v: &Vec<QueryId>) -> (r: Vec<QueryId>)
    ensures
        r@ == v@,
{
    let mut r: Vec<QueryId> = Vec::new();
    let mut i: usize = 0;
    while i < v.len()
        invariant
            i <= v@.len(),
            r@ == v@.take(i as int),
        decreases v@.len() - i,
    {
        r.push(v[i]);
        assert(r@ =~= v@.take(i + 1));
        i = i + 1;
    }
    assert(r@ =~= v@);
    r
}

/// The parameters made so far put before those still to come.
pub open spec fn with_prefix(
    r: Option<Result<(PState, Seq<QueryId>), PErr>>,
    pre: Seq<QueryId>,
) -> Option<Result<(PState, Seq<QueryId>), PErr>> {
    match r {
        None => None,
        Some(Err(e)) => Some(Err(e)),
        Some(Ok((s, qs))) => Some(Ok((s, pre + qs))),
    }
}

/// The text of the base value stored under `q`, which `get` shows to be a
/// base value.
fn base_text(map: &QueryMap, q: QueryId, Ghost(stack): Ghost<Seq<QueryId>>) -> (r: Option<String>)
    requires
        map.wf(),
    ensures
        match get(abs(*map, stack), q) {
            Some(Shape::Base { value, .. }) => r matches Some(t) && t@ == value,
            _ => r is None,
        },
{
    proof {
        lemma_get(*map, stack, q);
    }
    match map.get_single(q) {
        Some(ExpressionEnum::BaseValue(b)) => Some(b.value.clone()),
        _ => None,
    }
}

/// `MAKE_FUNCTION`.
#[verifier::rlimit(80)]
fn op_make_function(
    map: &mut QueryMap,
    stack: &mut Vec<QueryId>,
    it: &OpcodeInstruction,
    Ghost(next): Ghost<nat>,
) -> (r: Result<(), ParseError>)
    requires
        old(map).wf(),
        it.offset < usize::MAX,
        step_make_function(abs(*old(map), old(stack)@), *it, next) is Some,
    ensures
        final(map).wf(),
        matches_step(
            step_make_function(abs(*old(map), old(stack)@), *it, next),
            r,
            abs(*final(map), final(stack)@),
            next,
        ),
{
    let ghost expected = step_make_function(abs(*map, stack@), *it, next);
    let mark_id = match stack.pop() {
        Some(p) => p,
        None => {
            return Err(ParseError::IdsStackEmpty);
        },
    };
    proof {
        lemma_get(*map, stack@, mark_id);
    }
    let mark = match map.get_single(mark_id) {
        None => {
            return Err(ParseError::QueryFailed);
        },
        Some(e) => match e.as_ref_base_value() {
            Some(b) => b.value.clone(),
            None => {
                return Err(ParseError::IsNot(String::from_str("BaseValue")));
            },
        },
    };
    let mut function = match Function::new(mark.as_str()) {
        Ok(f) => f,
        Err(e) => {
            return Err(ParseError::Other(e.message()));
        },
    };
    let ghost name = function.name@;
    let ghost n = function.start_line;
    let flags = argval_of(it);
    let annotated = match &flags {
        Some(a) => contains_str(a.as_str(), "annotations"),
        None => false,
    };
    let defaulted = match &flags {
        Some(a) => contains_str(a.as_str(), "defaults"),
        None => false,
    };
    if annotated {
        let values_id = match stack.pop() {
            Some(p) => p,
            None => {
                return Err(ParseError::IdsStackEmpty);
            },
        };
        proof {
            lemma_get(*map, stack@, values_id);
        }
        let values_opt = match map.get_single(values_id) {
            None => {
                return Err(ParseError::QueryFailed);
            },
            Some(ExpressionEnum::Container(c)) => {
                let is_tuple = match c.container_type {
                    ContainerType::Tuple => true,
                    _ => false,
                };
                Some((copy_ids(&c.values), is_tuple))
            },
            Some(_) => None,
        };
        if let Some((values, is_tuple)) = values_opt {
            if !is_tuple {
                return Err(ParseError::NoInstruction);
            }
            let ghost s2 = abs(*map, stack@);
            let ghost goal = add_params(s2, values@, 0);
            assert(expected == after_params(goal, mark@, name, n, *it, next));
            assert(values@.skip(0) =~= values@);
            let mut p: usize = 0;
            let mut idx: usize = 0;
            while p < values.len()
                invariant
                    map.wf(),
                    it.offset < usize::MAX,
                    p <= values@.len(),
                    idx <= p,
                    stack@ == s2.stack,
                    expected is Some,
                    expected == after_params(goal, mark@, name, n, *it, next),
                    expected == step_make_function(abs(*old(map), old(stack)@), *it, next),
                    goal == with_prefix(
                        add_params(abs(*map, stack@), values@.skip(p as int), idx as nat),
                        function.args@,
                    ),
                    function.mark@ == mark@,
                    function.name@ == name,
                    function.start_line == n,
                    function.end_line == n,
                    function.ret is None,
                    function.bodys@ == Seq::<QueryId>::empty(),
                    function.defaults@ == Seq::<String>::empty(),
                    !function.is_async,
                    annotated,
                    defaulted == (argval(*it) matches Some(a) && contains_seq(a, "defaults"@)),
                decreases values@.len() - p,
            {
                let ghost cur = abs(*map, stack@);
                let ghost vs = values@.skip(p as int);
                let remaining = values.len() - p;
                let clen: usize = if remaining < 2 {
                    remaining
                } else {
                    2
                };
                let ghost chunk = vs.take(clen as int);
                assert(chunk.len() == clen);
                assert(chunk[0] == values@[p as int]);
                assert(clen == 2 ==> chunk[1] == values@[p + 1]);
                assert(vs.skip(clen as int) =~= values@.skip(p + clen));
                assert(vs.len() > 0);
                let all_base = values[p].is::<BaseValue>() && (clen < 2 || values[p
                    + 1].is::<BaseValue>());

                if all_base {
                    let nm = match base_text(map, values[p], Ghost(stack@)) {
                        Some(t) => t,
                        None => {
                            proof {
                                lemma_get(*map, stack@, values@[p as int]);
                            }
                            if map.get_single(values[p]).is_none() {
                                return Err(ParseError::QueryFailed);
                            }
                            return Err(ParseError::NoInstruction);
                        },
                    };
                    if clen < 2 {
                        return Err(ParseError::NoInstruction);
                    }
                    let anno = match base_text(map, values[p + 1], Ghost(stack@)) {
                        Some(t) => t,
                        None => {
                            proof {
                                lemma_get(*map, stack@, values@[p + 1]);
                            }
                            if map.get_single(values[p + 1]).is_none() {
                                return Err(ParseError::QueryFailed);
                            }
                            return Err(ParseError::NoInstruction);
                        },
                    };
                    let n1 = trim_start_matches(nm.as_str(), "'");
                    let n2 = trim_end_matches(n1.as_str(), "'");
                    let var = ExpressionEnum::FastVariable(
                        FastVariable {
                            index: idx,
                            name: n2,
                            annotation: Some(anno),
                            start_line: 0,
                            start_offset: 0,
                            end_offset: 0,
                        },
                    );
                    let arg_id = match file::<FastVariable>(map, var, Ghost(stack@)) {
                        Some(q) => q,
                        None => {
                            return Err(ParseError::AddMapFailed);
                        },
                    };
                    assert(add_params(cur, vs, idx as nat) == match add_params(
                        abs(*map, stack@),
                        values@.skip(p + clen),
                        (idx + 1) as nat,
                    ) {
                        None => None,
                        Some(Err(e)) => Some(Err(e)),
                        Some(Ok((s2, qs))) => Some(Ok((s2, seq![arg_id] + qs))),
                    });
                    let ghost before = function.args@;
                    function.args.push(arg_id);
                    proof {
                        assert forall|qs: Seq<QueryId>| #[trigger] (function.args@ + qs) == before
                            + (seq![arg_id] + qs) by {
                            assert(function.args@ + qs =~= before + (seq![arg_id] + qs));
                        }
                    }
                } else {
                    assert(add_params(cur, vs, idx as nat) == add_params(
                        cur,
                        values@.skip(p + clen),
                        (idx + 1) as nat,
                    ));
                }
                p = p + clen;
                idx = idx + 1;
            }
            proof {
                assert(values@.skip(p as int) =~= Seq::<QueryId>::empty());
                assert(function.args@ + Seq::<QueryId>::empty() =~= function.args@);
            }
        }
    }
    let ghost s3 = abs(*map, stack@);
    assert(expected == finish_function(s3, function.args@, mark@, name, n, *it, next));
    assert(crate::text::strings_view(Seq::<String>::empty()) =~= Seq::<Seq<char>>::empty());
    if defaulted {
        let did = match stack.pop() {
            Some(p) => p,
            None => {
                return Err(ParseError::IdsStackEmpty);
            },
        };
        proof {
            lemma_get(*map, stack@, did);
        }
        let dtext = match map.get_single(did) {
            None => {
                return Err(ParseError::QueryFailed);
            },
            Some(ExpressionEnum::BaseValue(b)) => Some(b.value.clone()),
            Some(_) => None,
        };
        if let Some(t) = dtext {
            let t1 = trim_start_matches(t.as_str(), "(");
            let t2 = trim_end_matches(t1.as_str(), ")");
            let t3 = trim_end_matches(t2.as_str(), ",");
            proof {
                reveal_strlit(", ");
            }
            function.defaults = split(t3.as_str(), ", ");
        }
    }
    function.start_offset = it.offset;
    function.end_offset = it.offset + 1;
    let q = match file::<Function>(map, ExpressionEnum::Function(function), Ghost(stack@)) {
        Some(q) => q,
        None => {
            return Err(ParseError::AddMapFailed);
        },
    };
    stack.push(q);
    Ok(())
}

/// The effect of the instruction at index `i`; gives the index of the next
/// instruction to parse.
#[verifier::rlimit(60)]
fn step_exec(
    map: &mut QueryMap,
    stack: &mut Vec<QueryId>,
    ins: &[OpcodeInstruction],
    i: usize,
) -> (r: Result<usize, ParseError>)
    requires
        old(map).wf(),
        i < ins@.len(),
        sane(ins@),
        step(abs(*old(map), old(stack)@), ins@, i as nat) is Some,
    ensures
        final(map).wf(),
        match step(abs(*old(map), old(stack)@), ins@, i as nat).unwrap() {
            Ok((s, j)) => r == Ok::<usize, ParseError>(j as usize) && abs(*final(map), final(stack)@)
                == s,
            Err(e) => r matches Err(x) && perr(x) == e,
        },
{
    let it = &ins[i];
    assert(ins@[i as int] == *it);
    assert(it.offset < usize::MAX);
    let ghost next = (i + 1) as nat;
    let done = match it.opcode {
        Opcode::LoadConst | Opcode::LoadName | Opcode::LoadGlobal => op_load(
            map,
            stack,
            it,
            true,
            Ghost(next),
        ),
        Opcode::LoadFast => op_load(map, stack, it, false, Ghost(next)),
        Opcode::LoadAttr | Opcode::LoadMethod => op_load_attr(map, stack, it, Ghost(next)),
        Opcode::StoreName | Opcode::StoreGlobal => op_store_name(map, stack, it, Ghost(next)),
        Opcode::StoreFast => op_store_fast(map, stack, it, Ghost(next)),
        Opcode::StoreAttr => op_store_attr(map, stack, it, Ghost(next)),
        Opcode::LoadBuildClass => {
            return op_build_class(map, stack, ins, i);
        },
        Opcode::FormatValue | Opcode::ReturnValue | Opcode::YieldValue | Opcode::UnaryInvert
        | Opcode::UnaryNegative | Opcode::UnaryNot => op_wrap(map, stack, it, Ghost(next)),
        Opcode::BuildString | Opcode::BuildTuple | Opcode::BuildList | Opcode::BuildSet => op_build(
            map,
            stack,
            it,
            Ghost(next),
        ),
        Opcode::ListExtend => op_list_extend(map, stack, it, Ghost(next)),
        Opcode::BuildMap => op_build_map(map, stack, it, Ghost(next)),
        Opcode::BuildConstKeyMap => op_const_key_map(map, stack, it, Ghost(next)),
        Opcode::BuildSlice => op_build_slice(map, stack, it, Ghost(next)),
        Opcode::MakeFunction => op_make_function(map, stack, it, Ghost(next)),
        Opcode::BinaryOp | Opcode::CompareOp | Opcode::IsOp | Opcode::ContainsOp
        | Opcode::BinarySubscr => op_binary(map, stack, it, Ghost(next)),
        Opcode::Call => op_call(map, stack, it, Ghost(next)),
        Opcode::ImportFrom => op_import_from(map, stack, it, Ghost(next)),
        Opcode::ImportName => op_import_name(stack, Ghost(abs(*map, stack@))),
        _ => Ok(()),
    };
    match done {
        Ok(()) => Ok(i + 1),
        Err(e) => Err(e),
    }
}

/// Parses the instructions of one code object: each expression built is
/// filed in `map`, and the ids of the statements left on the stack are
/// given back, in order.
pub fn parse(map: &mut QueryMap, opcode_instructions: &[OpcodeInstruction]) -> (r: Result<
    Vec<QueryId>,
    ParseError,
>)
    requires
        old(map).wf(),
        sane(opcode_instructions@),
        run(abs(*old(map), Seq::empty()), opcode_instructions@, 0) is Some,
    ensures
        final(map).wf(),
        match run(abs(*old(map), Seq::empty()), opcode_instructions@, 0).unwrap() {
            Ok(st) => r matches Ok(ids) && abs(*final(map), ids@) == st,
            Err(e) => r matches Err(x) && perr(x) == e,
        },
{
    let mut expr_ids: Vec<QueryId> = Vec::new();
    let ghost goal = run(abs(*map, expr_ids@), opcode_instructions@, 0);
    let mut index: usize = 0;
    loop
        invariant
            map.wf(),
            index <= opcode_instructions@.len(),
            sane(opcode_instructions@),
            goal is Some,
            goal == run(abs(*old(map), Seq::empty()), opcode_instructions@, 0),
            run(abs(*map, expr_ids@), opcode_instructions@, index as nat) == goal,
        ensures
            map.wf(),
            index == opcode_instructions@.len(),
            goal == run(abs(*old(map), Seq::empty()), opcode_instructions@, 0),
            run(abs(*map, expr_ids@), opcode_instructions@, index as nat) == goal,
        decreases opcode_instructions@.len() - index,
    {
        if index == opcode_instructions.len() {
            break;
        }
        match step_exec(map, &mut expr_ids, opcode_instructions, index) {
            Ok(j) => {
                index = j;
            },
            Err(e) => {
                return Err(e);
            },
        }
    }
    Ok(expr_ids)
}

} // verus!
