//! Finding the nodes of one kind in a tree: the node itself first, then its
//! fields in the order they are declared, each searched the same way.

use vstd::prelude::*;
use super::{Expr, ExpressionEnum, FastVariable};
use crate::query_id::ExprKind;

verus! {

/// The kind of node `e` is.
pub open spec fn kind_of(e: ExpressionEnum) -> ExprKind {
    match e {
        ExpressionEnum::Import(_) => ExprKind::Import,
        ExpressionEnum::Class(_) => ExprKind::Class,
        ExpressionEnum::FastVariable(_) => ExprKind::FastVariable,
        ExpressionEnum::Function(_) => ExprKind::Function,
        ExpressionEnum::Return(_) => ExprKind::Return,
        ExpressionEnum::Yield(_) => ExprKind::Yield,
        ExpressionEnum::Assign(_) => ExprKind::Assign,
        ExpressionEnum::Alias(_) => ExprKind::Alias,
        ExpressionEnum::Try(_) => ExprKind::Try,
        ExpressionEnum::Except(_) => ExprKind::Except,
        ExpressionEnum::Finally(_) => ExprKind::Finally,
        ExpressionEnum::Assert(_) => ExprKind::Assert,
        ExpressionEnum::Raise(_) => ExprKind::Raise,
        ExpressionEnum::BaseValue(_) => ExprKind::BaseValue,
        ExpressionEnum::FormatValue(_) => ExprKind::FormatValue,
        ExpressionEnum::Format(_) => ExprKind::Format,
        ExpressionEnum::BinaryOperation(_) => ExprKind::BinaryOperation,
        ExpressionEnum::Subscr(_) => ExprKind::Subscr,
        ExpressionEnum::UnaryOperation(_) => ExprKind::UnaryOperation,
        ExpressionEnum::Call(_) => ExprKind::Call,
        ExpressionEnum::With(_) => ExprKind::With,
        ExpressionEnum::For(_) => ExprKind::For,
        ExpressionEnum::If(_) => ExprKind::If,
        ExpressionEnum::Await(_) => ExprKind::Await,
        ExpressionEnum::Jump(_) => ExprKind::Jump,
        ExpressionEnum::Container(_) => ExprKind::Container,
        ExpressionEnum::Slice(_) => ExprKind::Slice,
        ExpressionEnum::Attribute(_) => ExprKind::Attribute,
    }
}

/// The kind of node `e` is.
pub fn node_kind(e: &ExpressionEnum) -> (r: ExprKind)
    ensures
        r == kind_of(*e),
{
    match e {
        ExpressionEnum::Import(_) => ExprKind::Import,
        ExpressionEnum::Class(_) => ExprKind::Class,
        ExpressionEnum::FastVariable(_) => ExprKind::FastVariable,
        ExpressionEnum::Function(_) => ExprKind::Function,
        ExpressionEnum::Return(_) => ExprKind::Return,
        ExpressionEnum::Yield(_) => ExprKind::Yield,
        ExpressionEnum::Assign(_) => ExprKind::Assign,
        ExpressionEnum::Alias(_) => ExprKind::Alias,
        ExpressionEnum::Try(_) => ExprKind::Try,
        ExpressionEnum::Except(_) => ExprKind::Except,
        ExpressionEnum::Finally(_) => ExprKind::Finally,
        ExpressionEnum::Assert(_) => ExprKind::Assert,
        ExpressionEnum::Raise(_) => ExprKind::Raise,
        ExpressionEnum::BaseValue(_) => ExprKind::BaseValue,
        ExpressionEnum::FormatValue(_) => ExprKind::FormatValue,
        ExpressionEnum::Format(_) => ExprKind::Format,
        ExpressionEnum::BinaryOperation(_) => ExprKind::BinaryOperation,
        ExpressionEnum::Subscr(_) => ExprKind::Subscr,
        ExpressionEnum::UnaryOperation(_) => ExprKind::UnaryOperation,
        ExpressionEnum::Call(_) => ExprKind::Call,
        ExpressionEnum::With(_) => ExprKind::With,
        ExpressionEnum::For(_) => ExprKind::For,
        ExpressionEnum::If(_) => ExprKind::If,
        ExpressionEnum::Await(_) => ExprKind::Await,
        ExpressionEnum::Jump(_) => ExprKind::Jump,
        ExpressionEnum::Container(_) => ExprKind::Container,
        ExpressionEnum::Slice(_) => ExprKind::Slice,
        ExpressionEnum::Attribute(_) => ExprKind::Attribute,
    }
}

/// A node found by a search: a node of the tree, or a parameter of a
/// function, which is a variable held outside any node.
pub enum Hit<'a> {
    Node(&'a ExpressionEnum),
    Param(&'a FastVariable),
}

/// The node a hit stands for; a parameter stands for a variable node.
pub open spec fn hit_node(h: Hit) -> ExpressionEnum {
    match h {
        Hit::Node(e) => *e,
        Hit::Param(p) => ExpressionEnum::FastVariable(*p),
    }
}

/// The nodes that hits stand for.
pub open spec fn hit_nodes(s: Seq<Hit>) -> Seq<ExpressionEnum> {
    s.map_values(|h: Hit| hit_node(h))
}

/// The parameters of a function that a search for `k` finds: all of them
/// when `k` is the kind of variables, none otherwise.
pub open spec fn params_hits(args: Seq<FastVariable>, k: ExprKind) -> Seq<ExpressionEnum> {
    if k == ExprKind::FastVariable {
        args.map_values(|v: FastVariable| ExpressionEnum::FastVariable(v))
    } else {
        Seq::empty()
    }
}

/// `e` itself where it is of kind `k`.
pub open spec fn own_hit(e: ExpressionEnum, k: ExprKind) -> Seq<ExpressionEnum> {
    if kind_of(e) == k {
        seq![e]
    } else {
        Seq::empty()
    }
}

/// The nodes of kind `k` in `e`, in the order of the search.
pub open spec fn query_spec(e: ExpressionEnum, k: ExprKind) -> Seq<ExpressionEnum>
    decreases e, 1nat,
{
    own_hit(e, k) + fields_spec(e, k)
}

/// The nodes of kind `k` below `e`, field after field.
pub open spec fn fields_spec(e: ExpressionEnum, k: ExprKind) -> Seq<ExpressionEnum>
    decreases e, 0nat,
{
    match e {
        ExpressionEnum::Import(_) => Seq::empty(),
        ExpressionEnum::Class(x) => query_seq(x.members@, k, 0),
        ExpressionEnum::FastVariable(_) => Seq::empty(),
        ExpressionEnum::Function(x) => params_hits(x.args@, k) + query_seq(x.bodys@, k, 0),
        ExpressionEnum::Return(x) => query_spec(*x.value, k),
        ExpressionEnum::Yield(x) => query_spec(*x.value, k),
        ExpressionEnum::Assign(x) => query_spec(*x.target, k) + query_spec(*x.values, k),
        ExpressionEnum::Alias(x) => query_spec(*x.target, k) + query_spec(*x.alias, k),
        ExpressionEnum::Try(x) => query_seq(x.body@, k, 0) + query_seq(x.except@, k, 0) + query_spec(*x.finally, k),
        ExpressionEnum::Except(x) => query_spec(*x.exception, k) + query_seq(x.body@, k, 0),
        ExpressionEnum::Finally(x) => query_seq(x.body@, k, 0),
        ExpressionEnum::Assert(x) => query_spec(*x.test, k) + (match x.msg { Some(b) => query_spec(*b, k), None => Seq::empty() }),
        ExpressionEnum::Raise(x) => query_spec(*x.exception, k),
        ExpressionEnum::BaseValue(_) => Seq::empty(),
        ExpressionEnum::FormatValue(x) => query_spec(*x.value, k),
        ExpressionEnum::Format(x) => query_seq(x.format_values@, k, 0),
        ExpressionEnum::BinaryOperation(x) => query_spec(*x.left, k) + query_spec(*x.right, k),
        ExpressionEnum::Subscr(x) => query_spec(*x.index, k) + query_spec(*x.target, k),
        ExpressionEnum::UnaryOperation(x) => query_spec(*x.target, k),
        ExpressionEnum::Call(x) => query_spec(*x.func, k) + query_seq(x.args@, k, 0),
        ExpressionEnum::With(x) => query_spec(*x.item, k) + query_seq(x.body@, k, 0),
        ExpressionEnum::For(x) => query_spec(*x.iterator, k) + query_spec(*x.items, k) + query_seq(x.body@, k, 0),
        ExpressionEnum::If(x) => (match x.test { Some(b) => query_spec(*b, k), None => Seq::empty() }) + query_seq(x.body@, k, 0) + (match x.or_else { Some(b) => query_spec(*b, k), None => Seq::empty() }),
        ExpressionEnum::Await(x) => query_spec(*x.awaitable_expr, k),
        ExpressionEnum::Jump(x) => query_seq(x.body@, k, 0),
        ExpressionEnum::Container(x) => query_seq(x.values@, k, 0),
        ExpressionEnum::Slice(x) => query_spec(*x.origin, k) + query_seq(x.slice@, k, 0),
        ExpressionEnum::Attribute(x) => query_spec(*x.parent, k) + query_spec(*x.attr, k),
    }
}

/// The nodes of kind `k` in `s[i..]`, one node after another.
pub open spec fn query_seq(s: Seq<ExpressionEnum>, k: ExprKind, i: nat) -> Seq<ExpressionEnum>
    decreases s, s.len() - i,
{
    if i >= s.len() {
        Seq::empty()
    } else {
        query_spec(s[i as int], k) + query_seq(s, k, i + 1)
    }
}

/// Appends the hits of kind `k` in `e`.
fn collect<'a>(e: &'a ExpressionEnum, k: ExprKind, out: &mut Vec<Hit<'a>>)
    ensures
        hit_nodes(final(out)@) == hit_nodes(old(out)@) + query_spec(*e, k),
    decreases e, 1nat,
{
    let ghost v0 = hit_nodes(out@);
    if node_kind(e) == k {
        out.push(Hit::Node(e));
        assert(hit_nodes(out@) =~= v0 + own_hit(*e, k));
    } else {
        assert(hit_nodes(out@) =~= v0 + own_hit(*e, k));
    }
    let ghost v1 = hit_nodes(out@);
    collect_fields(e, k, out);
    assert(hit_nodes(out@) =~= v0 + query_spec(*e, k));
}

/// Appends the hits of kind `k` below `e`.
fn collect_fields<'a>(e: &'a ExpressionEnum, k: ExprKind, out: &mut Vec<Hit<'a>>)
    ensures
        hit_nodes(final(out)@) == hit_nodes(old(out)@) + fields_spec(*e, k),
    decreases e, 0nat,
{
    match e {
        ExpressionEnum::Import(_) => {
            assert(hit_nodes(out@) =~= hit_nodes(old(out)@) + fields_spec(*e, k));
        },
        ExpressionEnum::Class(x) => fields_class(x, k, out),
        ExpressionEnum::FastVariable(_) => {
            assert(hit_nodes(out@) =~= hit_nodes(old(out)@) + fields_spec(*e, k));
        },
        ExpressionEnum::Function(x) => fields_function(x, k, out),
        ExpressionEnum::Return(x) => fields_return(x, k, out),
        ExpressionEnum::Yield(x) => fields_yield(x, k, out),
        ExpressionEnum::Assign(x) => fields_assign(x, k, out),
        ExpressionEnum::Alias(x) => fields_alias(x, k, out),
        ExpressionEnum::Try(x) => fields_try(x, k, out),
        ExpressionEnum::Except(x) => fields_except(x, k, out),
        ExpressionEnum::Finally(x) => fields_finally(x, k, out),
        ExpressionEnum::Assert(x) => fields_assert(x, k, out),
        ExpressionEnum::Raise(x) => fields_raise(x, k, out),
        ExpressionEnum::BaseValue(_) => {
            assert(hit_nodes(out@) =~= hit_nodes(old(out)@) + fields_spec(*e, k));
        },
        ExpressionEnum::FormatValue(x) => fields_format_value(x, k, out),
        ExpressionEnum::Format(x) => fields_format(x, k, out),
        ExpressionEnum::BinaryOperation(x) => fields_binary_operation(x, k, out),
        ExpressionEnum::Subscr(x) => fields_subscr(x, k, out),
        ExpressionEnum::UnaryOperation(x) => fields_unary_operation(x, k, out),
        ExpressionEnum::Call(x) => fields_call(x, k, out),
        ExpressionEnum::With(x) => fields_with(x, k, out),
        ExpressionEnum::For(x) => fields_for(x, k, out),
        ExpressionEnum::If(x) => fields_if(x, k, out),
        ExpressionEnum::Await(x) => fields_await(x, k, out),
        ExpressionEnum::Jump(x) => fields_jump(x, k, out),
        ExpressionEnum::Container(x) => fields_container(x, k, out),
        ExpressionEnum::Slice(x) => fields_slice(x, k, out),
        ExpressionEnum::Attribute(x) => fields_attribute(x, k, out),
    }
}

/// Appends the hits of kind `k` below a node of this kind.
fn fields_class<'a>(x: &'a super::Class, k: ExprKind, out: &mut Vec<Hit<'a>>)
    ensures
        hit_nodes(final(out)@) == hit_nodes(old(out)@) + fields_spec(ExpressionEnum::Class(*x), k),
    decreases x, 0nat,
{
    let ghost v0 = hit_nodes(out@);
    collect_seq(&x.members, k, out);
    assert(hit_nodes(out@) =~= v0 + fields_spec(ExpressionEnum::Class(*x), k));
}

/// Appends the hits of kind `k` below a node of this kind.
fn fields_function<'a>(x: &'a super::Function, k: ExprKind, out: &mut Vec<Hit<'a>>)
    ensures
        hit_nodes(final(out)@) == hit_nodes(old(out)@) + fields_spec(ExpressionEnum::Function(*x), k),
    decreases x, 0nat,
{
    let ghost v0 = hit_nodes(out@);
    collect_params(&x.args, k, out);
    collect_seq(&x.bodys, k, out);
    assert(hit_nodes(out@) =~= v0 + fields_spec(ExpressionEnum::Function(*x), k));
}

/// Appends the hits of kind `k` below a node of this kind.
fn fields_return<'a>(x: &'a super::Return, k: ExprKind, out: &mut Vec<Hit<'a>>)
    ensures
        hit_nodes(final(out)@) == hit_nodes(old(out)@) + fields_spec(ExpressionEnum::Return(*x), k),
    decreases x, 0nat,
{
    let ghost v0 = hit_nodes(out@);
    collect(&x.value, k, out);
    assert(hit_nodes(out@) =~= v0 + fields_spec(ExpressionEnum::Return(*x), k));
}

/// Appends the hits of kind `k` below a node of this kind.
fn fields_yield<'a>(x: &'a super::Yield, k: ExprKind, out: &mut Vec<Hit<'a>>)
    ensures
        hit_nodes(final(out)@) == hit_nodes(old(out)@) + fields_spec(ExpressionEnum::Yield(*x), k),
    decreases x, 0nat,
{
    let ghost v0 = hit_nodes(out@);
    collect(&x.value, k, out);
    assert(hit_nodes(out@) =~= v0 + fields_spec(ExpressionEnum::Yield(*x), k));
}

/// Appends the hits of kind `k` below a node of this kind.
fn fields_assign<'a>(x: &'a super::Assign, k: ExprKind, out: &mut Vec<Hit<'a>>)
    ensures
        hit_nodes(final(out)@) == hit_nodes(old(out)@) + fields_spec(ExpressionEnum::Assign(*x), k),
    decreases x, 0nat,
{
    let ghost v0 = hit_nodes(out@);
    collect(&x.target, k, out);
    collect(&x.values, k, out);
    assert(hit_nodes(out@) =~= v0 + fields_spec(ExpressionEnum::Assign(*x), k));
}

/// Appends the hits of kind `k` below a node of this kind.
fn fields_alias<'a>(x: &'a super::Alias, k: ExprKind, out: &mut Vec<Hit<'a>>)
    ensures
        hit_nodes(final(out)@) == hit_nodes(old(out)@) + fields_spec(ExpressionEnum::Alias(*x), k),
    decreases x, 0nat,
{
    let ghost v0 = hit_nodes(out@);
    collect(&x.target, k, out);
    collect(&x.alias, k, out);
    assert(hit_nodes(out@) =~= v0 + fields_spec(ExpressionEnum::Alias(*x), k));
}

/// Appends the hits of kind `k` below a node of this kind.
fn fields_try<'a>(x: &'a super::Try, k: ExprKind, out: &mut Vec<Hit<'a>>)
    ensures
        hit_nodes(final(out)@) == hit_nodes(old(out)@) + fields_spec(ExpressionEnum::Try(*x), k),
    decreases x, 0nat,
{
    let ghost v0 = hit_nodes(out@);
    collect_seq(&x.body, k, out);
    collect_seq(&x.except, k, out);
    collect(&x.finally, k, out);
    assert(hit_nodes(out@) =~= v0 + fields_spec(ExpressionEnum::Try(*x), k));
}

/// Appends the hits of kind `k` below a node of this kind.
fn fields_except<'a>(x: &'a super::Except, k: ExprKind, out: &mut Vec<Hit<'a>>)
    ensures
        hit_nodes(final(out)@) == hit_nodes(old(out)@) + fields_spec(ExpressionEnum::Except(*x), k),
    decreases x, 0nat,
{
    let ghost v0 = hit_nodes(out@);
    collect(&x.exception, k, out);
    collect_seq(&x.body, k, out);
    assert(hit_nodes(out@) =~= v0 + fields_spec(ExpressionEnum::Except(*x), k));
}

/// Appends the hits of kind `k` below a node of this kind.
fn fields_finally<'a>(x: &'a super::Finally, k: ExprKind, out: &mut Vec<Hit<'a>>)
    ensures
        hit_nodes(final(out)@) == hit_nodes(old(out)@) + fields_spec(ExpressionEnum::Finally(*x), k),
    decreases x, 0nat,
{
    let ghost v0 = hit_nodes(out@);
    collect_seq(&x.body, k, out);
    assert(hit_nodes(out@) =~= v0 + fields_spec(ExpressionEnum::Finally(*x), k));
}

/// Appends the hits of kind `k` below a node of this kind.
fn fields_assert<'a>(x: &'a super::Assert, k: ExprKind, out: &mut Vec<Hit<'a>>)
    ensures
        hit_nodes(final(out)@) == hit_nodes(old(out)@) + fields_spec(ExpressionEnum::Assert(*x), k),
    decreases x, 0nat,
{
    let ghost v0 = hit_nodes(out@);
    collect(&x.test, k, out);
    match &x.msg { Some(b) => collect(b, k, out), None => {} }
    assert(hit_nodes(out@) =~= v0 + fields_spec(ExpressionEnum::Assert(*x), k));
}

/// Appends the hits of kind `k` below a node of this kind.
fn fields_raise<'a>(x: &'a super::Raise, k: ExprKind, out: &mut Vec<Hit<'a>>)
    ensures
        hit_nodes(final(out)@) == hit_nodes(old(out)@) + fields_spec(ExpressionEnum::Raise(*x), k),
    decreases x, 0nat,
{
    let ghost v0 = hit_nodes(out@);
    collect(&x.exception, k, out);
    assert(hit_nodes(out@) =~= v0 + fields_spec(ExpressionEnum::Raise(*x), k));
}

/// Appends the hits of kind `k` below a node of this kind.
fn fields_format_value<'a>(x: &'a super::FormatValue, k: ExprKind, out: &mut Vec<Hit<'a>>)
    ensures
        hit_nodes(final(out)@) == hit_nodes(old(out)@) + fields_spec(ExpressionEnum::FormatValue(*x), k),
    decreases x, 0nat,
{
    let ghost v0 = hit_nodes(out@);
    collect(&x.value, k, out);
    assert(hit_nodes(out@) =~= v0 + fields_spec(ExpressionEnum::FormatValue(*x), k));
}

/// Appends the hits of kind `k` below a node of this kind.
fn fields_format<'a>(x: &'a super::Format, k: ExprKind, out: &mut Vec<Hit<'a>>)
    ensures
        hit_nodes(final(out)@) == hit_nodes(old(out)@) + fields_spec(ExpressionEnum::Format(*x), k),
    decreases x, 0nat,
{
    let ghost v0 = hit_nodes(out@);
    collect_seq(&x.format_values, k, out);
    assert(hit_nodes(out@) =~= v0 + fields_spec(ExpressionEnum::Format(*x), k));
}

/// Appends the hits of kind `k` below a node of this kind.
fn fields_binary_operation<'a>(x: &'a super::BinaryOperation, k: ExprKind, out: &mut Vec<Hit<'a>>)
    ensures
        hit_nodes(final(out)@) == hit_nodes(old(out)@) + fields_spec(ExpressionEnum::BinaryOperation(*x), k),
    decreases x, 0nat,
{
    let ghost v0 = hit_nodes(out@);
    collect(&x.left, k, out);
    collect(&x.right, k, out);
    assert(hit_nodes(out@) =~= v0 + fields_spec(ExpressionEnum::BinaryOperation(*x), k));
}

/// Appends the hits of kind `k` below a node of this kind.
fn fields_subscr<'a>(x: &'a super::Subscr, k: ExprKind, out: &mut Vec<Hit<'a>>)
    ensures
        hit_nodes(final(out)@) == hit_nodes(old(out)@) + fields_spec(ExpressionEnum::Subscr(*x), k),
    decreases x, 0nat,
{
    let ghost v0 = hit_nodes(out@);
    collect(&x.index, k, out);
    collect(&x.target, k, out);
    assert(hit_nodes(out@) =~= v0 + fields_spec(ExpressionEnum::Subscr(*x), k));
}

/// Appends the hits of kind `k` below a node of this kind.
fn fields_unary_operation<'a>(x: &'a super::UnaryOperation, k: ExprKind, out: &mut Vec<Hit<'a>>)
    ensures
        hit_nodes(final(out)@) == hit_nodes(old(out)@) + fields_spec(ExpressionEnum::UnaryOperation(*x), k),
    decreases x, 0nat,
{
    let ghost v0 = hit_nodes(out@);
    collect(&x.target, k, out);
    assert(hit_nodes(out@) =~= v0 + fields_spec(ExpressionEnum::UnaryOperation(*x), k));
}

/// Appends the hits of kind `k` below a node of this kind.
fn fields_call<'a>(x: &'a super::Call, k: ExprKind, out: &mut Vec<Hit<'a>>)
    ensures
        hit_nodes(final(out)@) == hit_nodes(old(out)@) + fields_spec(ExpressionEnum::Call(*x), k),
    decreases x, 0nat,
{
    let ghost v0 = hit_nodes(out@);
    collect(&x.func, k, out);
    collect_seq(&x.args, k, out);
    assert(hit_nodes(out@) =~= v0 + fields_spec(ExpressionEnum::Call(*x), k));
}

/// Appends the hits of kind `k` below a node of this kind.
fn fields_with<'a>(x: &'a super::With, k: ExprKind, out: &mut Vec<Hit<'a>>)
    ensures
        hit_nodes(final(out)@) == hit_nodes(old(out)@) + fields_spec(ExpressionEnum::With(*x), k),
    decreases x, 0nat,
{
    let ghost v0 = hit_nodes(out@);
    collect(&x.item, k, out);
    collect_seq(&x.body, k, out);
    assert(hit_nodes(out@) =~= v0 + fields_spec(ExpressionEnum::With(*x), k));
}

/// Appends the hits of kind `k` below a node of this kind.
fn fields_for<'a>(x: &'a super::For, k: ExprKind, out: &mut Vec<Hit<'a>>)
    ensures
        hit_nodes(final(out)@) == hit_nodes(old(out)@) + fields_spec(ExpressionEnum::For(*x), k),
    decreases x, 0nat,
{
    let ghost v0 = hit_nodes(out@);
    collect(&x.iterator, k, out);
    collect(&x.items, k, out);
    collect_seq(&x.body, k, out);
    assert(hit_nodes(out@) =~= v0 + fields_spec(ExpressionEnum::For(*x), k));
}

/// Appends the hits of kind `k` below a node of this kind.
fn fields_if<'a>(x: &'a super::If, k: ExprKind, out: &mut Vec<Hit<'a>>)
    ensures
        hit_nodes(final(out)@) == hit_nodes(old(out)@) + fields_spec(ExpressionEnum::If(*x), k),
    decreases x, 0nat,
{
    let ghost v0 = hit_nodes(out@);
    match &x.test { Some(b) => collect(b, k, out), None => {} }
    collect_seq(&x.body, k, out);
    match &x.or_else { Some(b) => collect(b, k, out), None => {} }
    assert(hit_nodes(out@) =~= v0 + fields_spec(ExpressionEnum::If(*x), k));
}

/// Appends the hits of kind `k` below a node of this kind.
fn fields_await<'a>(x: &'a super::Await, k: ExprKind, out: &mut Vec<Hit<'a>>)
    ensures
        hit_nodes(final(out)@) == hit_nodes(old(out)@) + fields_spec(ExpressionEnum::Await(*x), k),
    decreases x, 0nat,
{
    let ghost v0 = hit_nodes(out@);
    collect(&x.awaitable_expr, k, out);
    assert(hit_nodes(out@) =~= v0 + fields_spec(ExpressionEnum::Await(*x), k));
}

/// Appends the hits of kind `k` below a node of this kind.
fn fields_jump<'a>(x: &'a super::Jump, k: ExprKind, out: &mut Vec<Hit<'a>>)
    ensures
        hit_nodes(final(out)@) == hit_nodes(old(out)@) + fields_spec(ExpressionEnum::Jump(*x), k),
    decreases x, 0nat,
{
    let ghost v0 = hit_nodes(out@);
    collect_seq(&x.body, k, out);
    assert(hit_nodes(out@) =~= v0 + fields_spec(ExpressionEnum::Jump(*x), k));
}

/// Appends the hits of kind `k` below a node of this kind.
fn fields_container<'a>(x: &'a super::Container, k: ExprKind, out: &mut Vec<Hit<'a>>)
    ensures
        hit_nodes(final(out)@) == hit_nodes(old(out)@) + fields_spec(ExpressionEnum::Container(*x), k),
    decreases x, 0nat,
{
    let ghost v0 = hit_nodes(out@);
    collect_seq(&x.values, k, out);
    assert(hit_nodes(out@) =~= v0 + fields_spec(ExpressionEnum::Container(*x), k));
}

/// Appends the hits of kind `k` below a node of this kind.
fn fields_slice<'a>(x: &'a super::Slice, k: ExprKind, out: &mut Vec<Hit<'a>>)
    ensures
        hit_nodes(final(out)@) == hit_nodes(old(out)@) + fields_spec(ExpressionEnum::Slice(*x), k),
    decreases x, 0nat,
{
    let ghost v0 = hit_nodes(out@);
    collect(&x.origin, k, out);
    collect_seq(&x.slice, k, out);
    assert(hit_nodes(out@) =~= v0 + fields_spec(ExpressionEnum::Slice(*x), k));
}

/// Appends the hits of kind `k` below a node of this kind.
fn fields_attribute<'a>(x: &'a super::Attribute, k: ExprKind, out: &mut Vec<Hit<'a>>)
    ensures
        hit_nodes(final(out)@) == hit_nodes(old(out)@) + fields_spec(ExpressionEnum::Attribute(*x), k),
    decreases x, 0nat,
{
    let ghost v0 = hit_nodes(out@);
    collect(&x.parent, k, out);
    collect(&x.attr, k, out);
    assert(hit_nodes(out@) =~= v0 + fields_spec(ExpressionEnum::Attribute(*x), k));
}

/// Appends the hits of kind `k` in the nodes of `s`.
fn collect_seq<'a>(s: &'a Vec<ExpressionEnum>, k: ExprKind, out: &mut Vec<Hit<'a>>)
    ensures
        hit_nodes(final(out)@) == hit_nodes(old(out)@) + query_seq(s@, k, 0),
    decreases s, 2nat,
{
    let ghost v0 = hit_nodes(out@);
    let mut i: usize = 0;
    proof {
        assert(v0 =~= v0 + query_seq(s@, k, 0).take(0));
    }
    while i < s.len()
        invariant
            i <= s@.len(),
            hit_nodes(out@) + query_seq(s@, k, i as nat) =~= v0 + query_seq(s@, k, 0),
        decreases s@.len() - i,
    {
        let ghost before = hit_nodes(out@);
        collect(&s[i], k, out);
        proof {
            assert(hit_nodes(out@) + query_seq(s@, k, (i + 1) as nat) =~= before + query_seq(
                s@,
                k,
                i as nat,
            ));
        }
        i = i + 1;
    }
    assert(query_seq(s@, k, i as nat) =~= Seq::<ExpressionEnum>::empty());
}

/// Appends the parameters that a search for `k` finds.
fn collect_params<'a>(args: &'a Vec<FastVariable>, k: ExprKind, out: &mut Vec<Hit<'a>>)
    ensures
        hit_nodes(final(out)@) == hit_nodes(old(out)@) + params_hits(args@, k),
{
    let ghost v0 = hit_nodes(out@);
    if k == ExprKind::FastVariable {
        let mut i: usize = 0;
        while i < args.len()
            invariant
                k == ExprKind::FastVariable,
                i <= args@.len(),
                hit_nodes(out@) =~= v0 + params_hits(args@, k).take(i as int),
            decreases args@.len() - i,
        {
            let ghost before = hit_nodes(out@);
            out.push(Hit::Param(&args[i]));
            proof {
                assert(hit_nodes(out@) =~= before.push(ExpressionEnum::FastVariable(args@[i as int])));
                assert(params_hits(args@, k).take(i + 1) =~= params_hits(args@, k).take(i as int).push(
                    ExpressionEnum::FastVariable(args@[i as int]),
                ));
            }
            i = i + 1;
        }
        assert(params_hits(args@, k).take(i as int) =~= params_hits(args@, k));
    } else {
        assert(hit_nodes(out@) =~= v0 + params_hits(args@, k));
    }
}

/// Why a search found no single node.
#[derive(Debug, PartialEq, Eq, Structural)]
pub enum QueryError {
    NotSingleton,
}

impl QueryError {
    /// The message of the error.
    pub fn message(&self) -> (r: String)
        ensures
            r@ == "Query error: Not singleton"@,
    {
        String::from_str("Query error: Not singleton")
    }
}

/// The one hit of `hits`, or `NotSingleton` where there are none or more.
fn singleton<'a>(hits: Vec<Hit<'a>>) -> (r: Result<Hit<'a>, QueryError>)
    ensures
        match r {
            Ok(h) => hits@.len() == 1 && hit_node(h) == hit_node(hits@[0]),
            Err(e) => hits@.len() != 1 && e == QueryError::NotSingleton,
        },
{
    if hits.len() == 1 {
        let mut hits = hits;
        let h = hits.pop().unwrap();
        Ok(h)
    } else {
        Err(QueryError::NotSingleton)
    }
}

impl ExpressionEnum {
    /// This node, where it is of kind `k`.
    pub fn try_query(&self, k: ExprKind) -> (r: Option<&ExpressionEnum>)
        ensures
            match r {
                Some(e) => kind_of(*self) == k && *e == *self,
                None => kind_of(*self) != k,
            },
    {
        if node_kind(self) == k {
            Some(self)
        } else {
            None
        }
    }

    /// The nodes of kind `k` in this tree: a node before the nodes below
    /// it, fields in the order they are declared.
    pub fn query(&self, k: ExprKind) -> (r: Vec<Hit<'_>>)
        ensures
            hit_nodes(r@) == query_spec(*self, k),
    {
        let mut out: Vec<Hit> = Vec::new();
        proof {
            assert(hit_nodes(out@) =~= Seq::<ExpressionEnum>::empty());
        }
        collect(self, k, &mut out);
        assert(hit_nodes(out@) =~= query_spec(*self, k));
        out
    }

    /// The one node of kind `k` in this tree.
    pub fn query_singleton(&self, k: ExprKind) -> (r: Result<Hit<'_>, QueryError>)
        ensures
            match r {
                Ok(h) => query_spec(*self, k).len() == 1 && hit_node(h) == query_spec(*self, k)[0],
                Err(e) => query_spec(*self, k).len() != 1 && e == QueryError::NotSingleton,
            },
    {
        singleton(self.query(k))
    }
}

impl Expr {
    /// The nodes of kind `k` in the statements, in order.
    pub fn query(&self, k: ExprKind) -> (r: Vec<Hit<'_>>)
        ensures
            hit_nodes(r@) == query_seq(self.bodys@, k, 0),
    {
        let mut out: Vec<Hit> = Vec::new();
        proof {
            assert(hit_nodes(out@) =~= Seq::<ExpressionEnum>::empty());
        }
        collect_seq(&self.bodys, k, &mut out);
        assert(hit_nodes(out@) =~= query_seq(self.bodys@, k, 0));
        out
    }

    /// The one node of kind `k` in the statements.
    pub fn query_singleton(&self, k: ExprKind) -> (r: Result<Hit<'_>, QueryError>)
        ensures
            match r {
                Ok(h) => query_seq(self.bodys@, k, 0).len() == 1 && hit_node(h) == query_seq(
                    self.bodys@,
                    k,
                    0,
                )[0],
                Err(e) => query_seq(self.bodys@, k, 0).len() != 1 && e == QueryError::NotSingleton,
            },
    {
        singleton(self.query(k))
    }
}

} // verus!
