//! What every parse keeps: the ids on the stack are filed in the store.

use vstd::prelude::*;
use super::spec::{
    abs, add_keys, add_node, add_opt, add_params, add_push, argval, at, at_line, base_at, get, no_pos, pop,
    pop_n, push, replace_node, run, step, step_binary, step_build, step_build_class,
    step_build_map, step_build_slice, step_call, step_const_key_map, step_import_from,
    step_import_name, step_list_extend, step_load, step_load_attr, step_make_function,
    step_store_attr, step_store_fast, step_store_name, step_wrap, unwrap_parens, PErr, PState,
    Shape,
};
use crate::opcode::{Opcode, OpcodeInstruction};
use crate::query::QueryMap;
use crate::query_id::{ExprKind, QueryId};
use crate::ast::{ContainerType, UnaryType};

verus! {

/// Every id on the stack is filed in the store.
pub open spec fn filed(st: PState) -> bool {
    forall|k: int| 0 <= k < st.stack.len() ==> st.store.dom().contains(#[trigger] st.stack[k])
}

/// `b` has the stack of `a` and files everything `a` files.
pub open spec fn keeps(a: PState, b: PState) -> bool {
    &&& b.stack == a.stack
    &&& forall|q: QueryId| a.store.dom().contains(q) ==> #[trigger] b.store.dom().contains(q)
}

/// Pushing a filed id keeps the stack filed.
proof fn lemma_push(st: PState, q: QueryId)
    requires
        filed(st),
        st.store.dom().contains(q),
    ensures
        filed(push(st, q)),
{
    let s = push(st, q);
    assert forall|k: int| 0 <= k < s.stack.len() implies s.store.dom().contains(#[trigger] s.stack[k]) by {
        if k < st.stack.len() {
            assert(s.stack[k] == st.stack[k]);
        }
    }
}

/// Popping keeps the stack filed, and the id taken off is filed.
proof fn lemma_pop(st: PState)
    requires
        filed(st),
    ensures
        pop(st) matches Some((s, q)) ==> filed(s) && s.store == st.store && s.count == st.count
            && st.store.dom().contains(q),
{
    if st.stack.len() > 0 {
        let s = pop(st).unwrap().0;
        assert forall|k: int| 0 <= k < s.stack.len() implies s.store.dom().contains(#[trigger] s.stack[k]) by {
            assert(s.stack[k] == st.stack[k]);
        }
        assert(st.store.dom().contains(st.stack[st.stack.len() - 1]));
    }
}

/// Taking ids off keeps the stack filed, and the ids taken off are filed.
proof fn lemma_pop_n(st: PState, n: nat)
    requires
        filed(st),
    ensures
        pop_n(st, n) matches Some((s, qs)) ==> filed(s) && s.store == st.store && s.count == st.count
            && forall|k: int| 0 <= k < qs.len() ==> st.store.dom().contains(#[trigger] qs[k]),
{
    if st.stack.len() >= n {
        let k0 = st.stack.len() - n;
        let (s, qs) = pop_n(st, n)->0;
        assert forall|k: int| 0 <= k < s.stack.len() implies s.store.dom().contains(#[trigger] s.stack[k]) by {
            assert(s.stack[k] == st.stack[k]);
        }
        assert forall|k: int| 0 <= k < qs.len() implies st.store.dom().contains(#[trigger] qs[k]) by {
            assert(qs[k] == st.stack[k0 + k]);
        }
    }
}

/// Storing a new expression keeps the stack filed and files the new id.
proof fn lemma_add_node(st: PState, k: ExprKind, sh: Shape)
    requires
        filed(st),
    ensures
        add_node(st, k, sh) matches Some((s, q)) ==> filed(s) && keeps(st, s) && s.store.dom().contains(q),
{
}

/// Storing a new expression and pushing its id keeps the stack filed.
proof fn lemma_add_push(st: PState, k: ExprKind, sh: Shape, next: nat)
    requires
        filed(st),
    ensures
        add_push(st, k, sh, next) matches Some(Ok((s, _))) ==> filed(s),
{
    lemma_add_node(st, k, sh);
    if let Some((s1, q)) = add_node(st, k, sh) {
        lemma_push(s1, q);
    }
}

/// Making the parameters keeps the stack and files more.
proof fn lemma_add_params(st: PState, vals: Seq<QueryId>, idx: nat)
    ensures
        add_params(st, vals, idx) matches Some(Ok((s, _))) ==> keeps(st, s),
    decreases vals.len(),
{
    if vals.len() > 0 {
        let clen: int = if vals.len() < 2 { vals.len() as int } else { 2 };
        let rest = vals.skip(clen);
        lemma_add_params(st, rest, idx + 1);
        let chunk = vals.take(clen);
        if let Some((s1, q)) = add_node(
            st,
            ExprKind::FastVariable,
            Shape::Variable {
                index: idx as usize,
                name: crate::text::trim_end_seq(crate::text::trim_start_seq(
                    match get(st, chunk[0]) { Some(Shape::Base { value: n, .. }) => n, _ => Seq::empty() },
                    "'"@,
                ), "'"@),
                annotation: Some(match get(st, chunk[1]) { Some(Shape::Base { value: a, .. }) => a, _ => Seq::empty() }),
                pos: no_pos(),
            },
        ) {
            lemma_add_params(s1, rest, idx + 1);
        }
    }
}

/// Storing the keys keeps the stack and files more.
proof fn lemma_add_keys(st: PState, keys: Seq<Seq<char>>, vals: Seq<QueryId>, it: OpcodeInstruction)
    ensures
        add_keys(st, keys, vals, it) matches Some((s, _)) ==> keeps(st, s),
    decreases keys.len(),
{
    if keys.len() > 0 && vals.len() > 0 {
        if let Some((s1, k)) = add_node(st, ExprKind::BaseValue, base_at(keys[0], it)) {
            lemma_add_keys(s1, keys.drop_first(), vals.drop_first(), it);
        }
    }
}

/// Unwrapping the parenthesised values keeps the stack and files more.
proof fn lemma_unwrap_parens(st: PState, ids: Seq<QueryId>)
    ensures
        unwrap_parens(st, ids) matches Ok(s) ==> keeps(st, s),
    decreases ids.len(),
{
    if ids.len() > 0 {
        match get(st, ids[0]) {
            Some(Shape::Base { value, pos }) => match crate::patterns::paren_group(value) {
                Some(Some(g)) => {
                    let s1 = replace_node(st, ids[0], Shape::Base { value: g, pos });
                    lemma_unwrap_parens(s1, ids.drop_first());
                },
                _ => {},
            },
            Some(_) => {
                lemma_unwrap_parens(st, ids.drop_first());
            },
            None => {},
        }
    }
}

/// A state that keeps a filed one is filed.
proof fn lemma_keeps_filed(a: PState, b: PState)
    requires
        filed(a),
        keeps(a, b),
    ensures
        filed(b),
{
    assert forall|k: int| 0 <= k < b.stack.len() implies b.store.dom().contains(#[trigger] b.stack[k]) by {
        assert(a.store.dom().contains(a.stack[k]));
    }
}

/// What a step gives keeps the stack filed, where it gives a state.
pub open spec fn ok_filed(r: Option<Result<(PState, nat), PErr>>) -> bool {
    r matches Some(Ok((s, _))) ==> filed(s)
}

broadcast proof fn fact_pop(st: PState)
    requires
        filed(st),
    ensures
        #[trigger] pop(st) matches Some((s, q)) ==> filed(s) && s.store == st.store && s.count
            == st.count && st.store.dom().contains(q),
{
    lemma_pop(st);
}

broadcast proof fn fact_pop_n(st: PState, n: nat)
    requires
        filed(st),
    ensures
        #[trigger] pop_n(st, n) matches Some((s, qs)) ==> filed(s) && s.store == st.store && s.count
            == st.count,
{
    lemma_pop_n(st, n);
}

broadcast proof fn fact_add_node(st: PState, k: ExprKind, sh: Shape)
    requires
        filed(st),
    ensures
        #[trigger] add_node(st, k, sh) matches Some((s, q)) ==> filed(s) && keeps(st, s)
            && s.store.dom().contains(q),
{
}

broadcast proof fn fact_add_opt(st: PState, k: ExprKind, sh: Shape)
    requires
        filed(st),
    ensures
        filed((#[trigger] add_opt(st, k, sh)).0),
        keeps(st, add_opt(st, k, sh).0),
{
}

broadcast proof fn fact_add_push(st: PState, k: ExprKind, sh: Shape, next: nat)
    requires
        filed(st),
    ensures
        ok_filed(#[trigger] add_push(st, k, sh, next)),
{
    lemma_add_push(st, k, sh, next);
}

broadcast proof fn fact_push(st: PState, q: QueryId)
    requires
        filed(st),
        st.store.dom().contains(q),
    ensures
        filed(#[trigger] push(st, q)),
{
    lemma_push(st, q);
}

broadcast proof fn fact_replace(st: PState, q: QueryId, sh: Shape)
    requires
        filed(st),
    ensures
        filed(#[trigger] replace_node(st, q, sh)),
        keeps(st, replace_node(st, q, sh)),
{
}

/// The loads keep the stack filed.
proof fn lemma_load_steps(st: PState, it: OpcodeInstruction, trim: bool, next: nat)
    requires
        filed(st),
    ensures
        ok_filed(step_load(st, it, trim, next)),
        ok_filed(step_load_attr(st, it, next)),
{
    if let Some(v) = argval(it) {
        let value = if trim { crate::text::trim_start_seq(v, "NULL + "@) } else { v };
        fact_add_push(st, ExprKind::BaseValue, base_at(value, it), next);
    }
    fact_pop(st);
    if let Some((s1, parent)) = pop(st) {
        if let Some(v) = argval(it) {
            fact_add_opt(s1, ExprKind::BaseValue, base_at(v, it));
            let (s2, attr) = add_opt(s1, ExprKind::BaseValue, base_at(v, it));
            fact_add_push(s2, ExprKind::Attribute, Shape::Attr { parent: Some(parent), attr, pos: at(it) }, next);
        }
    }
}

broadcast group facts {
    fact_pop,
    fact_pop_n,
    fact_add_node,
    fact_add_opt,
    fact_add_push,
    fact_push,
    fact_replace,
    fact_add_keys,
    fact_add_params,
    fact_unwrap_parens,
}

broadcast proof fn fact_add_keys(st: PState, keys: Seq<Seq<char>>, vals: Seq<QueryId>, it: OpcodeInstruction)
    ensures
        #[trigger] add_keys(st, keys, vals, it) matches Some((s, _)) ==> keeps(st, s),
{
    lemma_add_keys(st, keys, vals, it);
}

broadcast proof fn fact_add_params(st: PState, vals: Seq<QueryId>, idx: nat)
    ensures
        #[trigger] add_params(st, vals, idx) matches Some(Ok((s, _))) ==> keeps(st, s),
{
    lemma_add_params(st, vals, idx);
}

broadcast proof fn fact_unwrap_parens(st: PState, ids: Seq<QueryId>)
    ensures
        #[trigger] unwrap_parens(st, ids) matches Ok(s) ==> keeps(st, s),
{
    lemma_unwrap_parens(st, ids);
}

broadcast proof fn fact_keeps_filed(a: PState, b: PState)
    requires
        filed(a),
        #[trigger] keeps(a, b),
    ensures
        filed(b),
{
    lemma_keeps_filed(a, b);
}

/// The stores keep the stack filed.
proof fn lemma_store_steps(st: PState, it: OpcodeInstruction, next: nat)
    requires
        filed(st),
    ensures
        ok_filed(step_store_name(st, it, next)),
        ok_filed(step_store_fast(st, it, next)),
        ok_filed(step_store_attr(st, it, next)),
{
    broadcast use facts;
}

/// The wrapping and building steps keep the stack filed.
proof fn lemma_wrap_build_steps(st: PState, k: ExprKind, it: OpcodeInstruction, next: nat)
    requires
        filed(st),
    ensures
        ok_filed(step_wrap(st, k, it, next)),
        ok_filed(step_build(st, it, next)),
        ok_filed(step_build_map(st, it, next)),
        ok_filed(step_build_slice(st, it, next)),
        ok_filed(step_binary(st, it, next)),
        ok_filed(step_import_from(st, it, next)),
        ok_filed(step_import_name(st)),
{
    broadcast use facts;
}

/// Calls keep the stack filed.
proof fn lemma_call_step(st: PState, it: OpcodeInstruction, next: nat)
    requires
        filed(st),
    ensures
        ok_filed(step_call(st, it, next)),
{
    broadcast use facts;
}

/// Classes, list extensions, constant-key maps and functions keep the stack
/// filed.
proof fn lemma_compound_steps(st: PState, ins: Seq<OpcodeInstruction>, i: nat, it: OpcodeInstruction, next: nat)
    requires
        filed(st),
        i < ins.len(),
    ensures
        ok_filed(step_build_class(st, ins, i)),
        ok_filed(step_list_extend(st, it, next)),
        ok_filed(step_const_key_map(st, it, next)),
        ok_filed(step_make_function(st, it, next)),
{
    broadcast use facts, fact_keeps_filed;
}

/// One instruction keeps the stack filed.
proof fn lemma_step_filed(st: PState, ins: Seq<OpcodeInstruction>, i: nat)
    requires
        filed(st),
        i < ins.len(),
    ensures
        ok_filed(step(st, ins, i)),
{
    let it = ins[i as int];
    let next = i + 1;
    lemma_load_steps(st, it, true, next);
    lemma_load_steps(st, it, false, next);
    lemma_store_steps(st, it, next);
    lemma_wrap_build_steps(st, ExprKind::FormatValue, it, next);
    lemma_wrap_build_steps(st, ExprKind::UnaryOperation, it, next);
    lemma_wrap_build_steps(st, ExprKind::Return, it, next);
    lemma_wrap_build_steps(st, ExprKind::Yield, it, next);
    lemma_call_step(st, it, next);
    lemma_compound_steps(st, ins, i, it, next);
}

/// Running instructions keeps the stack filed.
proof fn lemma_run_filed(st: PState, ins: Seq<OpcodeInstruction>, i: nat)
    requires
        filed(st),
    ensures
        run(st, ins, i) matches Some(Ok(s)) ==> filed(s),
    decreases ins.len() - i,
{
    if i < ins.len() {
        lemma_step_filed(st, ins, i);
        if let Some(Ok((s, j))) = step(st, ins, i) {
            if i < j && j <= ins.len() {
                lemma_run_filed(s, ins, j);
            }
        }
    }
}

/// Every id that parsing leaves on the stack names an expression filed in
/// the map: from any holder, the state that `parse` ends in, where it ends
/// without an error, files each id it gives back.
pub proof fn law_parsed_ids_filed(map: QueryMap, ins: Seq<OpcodeInstruction>)
    ensures
        run(abs(map, Seq::empty()), ins, 0) matches Some(Ok(s)) ==> filed(s),
{
    lemma_run_filed(abs(map, Seq::empty()), ins, 0);
}

/// The new state after an identity or membership test of the top two ids:
/// both taken off, and an operation of them with the operator text `op`
/// filed under the next id and pushed.
pub open spec fn tested(st: PState, it: OpcodeInstruction, op: Seq<char>) -> PState {
    let n = st.stack.len() as int;
    let q = QueryId::spec_new(st.count as usize, ExprKind::BinaryOperation);
    PState {
        store: st.store.insert(
            q,
            Shape::BinOp {
                left: Some(st.stack[n - 2]),
                right: Some(st.stack[n - 1]),
                operator: op,
                pos: at(it),
            },
        ),
        count: st.count + 1,
        stack: st.stack.drop_last().drop_last().push(q),
    }
}

/// `IS_OP` files `left is right` for argument 0 and `left is not right`
/// for argument 1; `CONTAINS_OP` files `left in right` and
/// `left not in right`. Parsing goes on at the next instruction.
pub proof fn law_test_ops_file_their_operator(st: PState, ins: Seq<OpcodeInstruction>, i: nat)
    requires
        i < ins.len(),
        st.stack.len() >= 2,
        st.count < usize::MAX,
    ensures
        ins[i as int].opcode == Opcode::IsOp && ins[i as int].arg == Some(0usize) ==> step(st, ins, i)
            == Some(Ok::<(PState, nat), PErr>((tested(st, ins[i as int], "is"@), i + 1))),
        ins[i as int].opcode == Opcode::IsOp && ins[i as int].arg == Some(1usize) ==> step(st, ins, i)
            == Some(Ok::<(PState, nat), PErr>((tested(st, ins[i as int], "is not"@), i + 1))),
        ins[i as int].opcode == Opcode::ContainsOp && ins[i as int].arg == Some(0usize) ==> step(
            st,
            ins,
            i,
        ) == Some(Ok::<(PState, nat), PErr>((tested(st, ins[i as int], "in"@), i + 1))),
        ins[i as int].opcode == Opcode::ContainsOp && ins[i as int].arg == Some(1usize) ==> step(
            st,
            ins,
            i,
        ) == Some(Ok::<(PState, nat), PErr>((tested(st, ins[i as int], "not in"@), i + 1))),
{
    let n = st.stack.len() as int;
    assert(st.stack.drop_last()[n - 2] == st.stack[n - 2]);
}

/// The new state after a unary operation of kind `t` on the top id: it is
/// taken off, and the operation is filed under the next id and pushed.
pub open spec fn negated(st: PState, it: OpcodeInstruction, t: UnaryType) -> PState {
    let n = st.stack.len() as int;
    let q = QueryId::spec_new(st.count as usize, ExprKind::UnaryOperation);
    PState {
        store: st.store.insert(q, Shape::Unary { target: Some(st.stack[n - 1]), unary_type: t, pos: at(it) }),
        count: st.count + 1,
        stack: st.stack.drop_last().push(q),
    }
}

/// `UNARY_NEGATIVE` files a negation of the top id, `UNARY_INVERT` an
/// inversion, `UNARY_NOT` a logical not; `BINARY_OP` and `COMPARE_OP` file
/// the second id from the top as the left operand, the top id as the right
/// one, and the argument's text as the operator.
pub proof fn law_operations_file_their_kind(st: PState, ins: Seq<OpcodeInstruction>, i: nat)
    requires
        i < ins.len(),
        st.stack.len() >= 2,
        st.count < usize::MAX,
    ensures
        ins[i as int].opcode == Opcode::UnaryNegative ==> step(st, ins, i) == Some(
            Ok::<(PState, nat), PErr>((negated(st, ins[i as int], UnaryType::Negative), i + 1)),
        ),
        ins[i as int].opcode == Opcode::UnaryInvert ==> step(st, ins, i) == Some(
            Ok::<(PState, nat), PErr>((negated(st, ins[i as int], UnaryType::Invert), i + 1)),
        ),
        ins[i as int].opcode == Opcode::UnaryNot ==> step(st, ins, i) == Some(
            Ok::<(PState, nat), PErr>((negated(st, ins[i as int], UnaryType::Not), i + 1)),
        ),
        (ins[i as int].opcode == Opcode::BinaryOp || ins[i as int].opcode == Opcode::CompareOp)
            && ins[i as int].argval is Some ==> step(st, ins, i) == Some(
            Ok::<(PState, nat), PErr>((tested(st, ins[i as int], ins[i as int].argval->0@), i + 1)),
        ),
{
    let n = st.stack.len() as int;
    assert(st.stack.drop_last()[n - 2] == st.stack[n - 2]);
}

/// The new state after the top `k` ids are taken off and a node of type
/// `kind` with content `sh` is filed under the next id and pushed.
pub open spec fn folded(st: PState, k: nat, kind: ExprKind, sh: Shape) -> PState {
    let q = QueryId::spec_new(st.count as usize, kind);
    PState {
        store: st.store.insert(q, sh),
        count: st.count + 1,
        stack: st.stack.take(st.stack.len() - k).push(q),
    }
}

/// `BINARY_SUBSCR` files the second id from the top as the subscripted
/// target and the top id as the index; `BUILD_LIST`, `BUILD_TUPLE` and
/// `BUILD_SET` with argument `k` file the top `k` ids, bottom first, as the
/// elements of a list, tuple or set; `RETURN_VALUE` and `YIELD_VALUE` file
/// the top id as the returned or yielded value.
pub proof fn law_structure_ops_file_their_node(st: PState, ins: Seq<OpcodeInstruction>, i: nat)
    requires
        i < ins.len(),
        st.stack.len() >= 2,
        st.count < usize::MAX,
    ensures
        ({
            let it = ins[i as int];
            let n = st.stack.len() as int;
            &&& it.opcode == Opcode::BinarySubscr ==> step(st, ins, i) == Some(
                Ok::<(PState, nat), PErr>((
                    folded(
                        st,
                        2,
                        ExprKind::Subscr,
                        Shape::Subscr {
                            index: Some(st.stack[n - 1]),
                            target: Some(st.stack[n - 2]),
                            pos: at(it),
                        },
                    ),
                    i + 1,
                )),
            )
            &&& it.opcode == Opcode::ReturnValue ==> step(st, ins, i) == Some(
                Ok::<(PState, nat), PErr>((
                    folded(
                        st,
                        1,
                        ExprKind::Return,
                        Shape::Return { value: Some(st.stack[n - 1]), pos: at_line(it) },
                    ),
                    i + 1,
                )),
            )
            &&& it.opcode == Opcode::YieldValue ==> step(st, ins, i) == Some(
                Ok::<(PState, nat), PErr>((
                    folded(
                        st,
                        1,
                        ExprKind::Yield,
                        Shape::Yield { value: Some(st.stack[n - 1]), pos: at_line(it) },
                    ),
                    i + 1,
                )),
            )
            &&& (it.arg matches Some(k) && k <= n) ==> {
                let vals = st.stack.skip(n - it.arg->0);
                &&& it.opcode == Opcode::BuildList ==> step(st, ins, i) == Some(
                    Ok::<(PState, nat), PErr>((
                        folded(
                            st,
                            it.arg->0 as nat,
                            ExprKind::Container,
                            Shape::Container {
                                values: vals,
                                container_type: ContainerType::List,
                                pos: at(it),
                            },
                        ),
                        i + 1,
                    )),
                )
                &&& it.opcode == Opcode::BuildTuple ==> step(st, ins, i) == Some(
                    Ok::<(PState, nat), PErr>((
                        folded(
                            st,
                            it.arg->0 as nat,
                            ExprKind::Container,
                            Shape::Container {
                                values: vals,
                                container_type: ContainerType::Tuple,
                                pos: at(it),
                            },
                        ),
                        i + 1,
                    )),
                )
                &&& it.opcode == Opcode::BuildSet ==> step(st, ins, i) == Some(
                    Ok::<(PState, nat), PErr>((
                        folded(
                            st,
                            it.arg->0 as nat,
                            ExprKind::Container,
                            Shape::Container {
                                values: vals,
                                container_type: ContainerType::SetContainer,
                                pos: at(it),
                            },
                        ),
                        i + 1,
                    )),
                )
            }
        }),
{
    let n = st.stack.len() as int;
    assert(st.stack.drop_last().drop_last() =~= st.stack.take(n - 2));
    assert(st.stack.drop_last() =~= st.stack.take(n - 1));
    assert(st.stack.drop_last()[n - 2] == st.stack[n - 2]);
}

/// The new state after the top id is taken off, a base value with text `v`
/// made at `it` is filed under the next id, and a node of type `kind` whose
/// content `mk` builds from that base value's id is filed after it and
/// pushed.
pub open spec fn named_over_top(
    st: PState,
    it: OpcodeInstruction,
    v: Seq<char>,
    kind: ExprKind,
    mk: spec_fn(QueryId) -> Shape,
) -> PState {
    let b = QueryId::spec_new(st.count as usize, ExprKind::BaseValue);
    let q = QueryId::spec_new((st.count + 1) as usize, kind);
    PState {
        store: st.store.insert(b, base_at(v, it)).insert(q, mk(b)),
        count: st.count + 2,
        stack: st.stack.drop_last().push(q),
    }
}

/// `LOAD_ATTR` and `LOAD_METHOD` file the attribute named by the argument
/// as a base value, then an attribute whose parent is the top id and whose
/// attribute is that base value. `STORE_NAME` and `STORE_GLOBAL` of a value
/// that is a base value or an operation file the stored name as a base
/// value, then the assignment `name = value` with the top id as its value.
pub proof fn law_attribute_and_store_file_in_order(
    st: PState,
    ins: Seq<OpcodeInstruction>,
    i: nat,
    v: Seq<char>,
)
    requires
        i < ins.len(),
        st.stack.len() >= 1,
        st.count + 1 < usize::MAX,
        argval(ins[i as int]) == Some(v),
    ensures
        ({
            let it = ins[i as int];
            let top = st.stack.last();
            &&& (it.opcode == Opcode::LoadAttr || it.opcode == Opcode::LoadMethod) ==> step(
                st,
                ins,
                i,
            ) == Some(
                Ok::<(PState, nat), PErr>((
                    named_over_top(
                        st,
                        it,
                        v,
                        ExprKind::Attribute,
                        |b: QueryId| Shape::Attr { parent: Some(top), attr: Some(b), pos: at(it) },
                    ),
                    i + 1,
                )),
            )
            &&& ((it.opcode == Opcode::StoreName || it.opcode == Opcode::StoreGlobal) && (get(
                st,
                top,
            ) matches Some(sh) && (sh is Base || sh is BinOp))) ==> step(st, ins, i) == Some(
                Ok::<(PState, nat), PErr>((
                    named_over_top(
                        st,
                        it,
                        v,
                        ExprKind::Assign,
                        |b: QueryId|
                            Shape::Assign {
                                target: Some(b),
                                value: Some(top),
                                operator: "="@,
                                pos: at(it),
                            },
                    ),
                    i + 1,
                )),
            )
        }),
{
}

} // verus!
