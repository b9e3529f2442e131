//! Writing a class stored in a [`QueryMap`] back out as Python source.
//!
//! Only classes are written; every other expression gives no line. A class
//! refers to its members by id, so writing one follows ids through the map;
//! `fuel` bounds how deep that goes, and running out of it counts as not
//! finishing.

use vstd::prelude::*;
use crate::ast::{Assign, Class, ExpressionEnum, QueryId};
use crate::query::QueryMap;
use crate::text::{join, join_seq};
use crate::tree::codegen::{doc_lines, doc_lines_exec, member_lines, member_lines_exec};
use crate::visit::{member_target, MAX_DEPTH};

verus! {

/// The outcome of writing: `None` where writing does not finish, else what
/// the writer returns: `None` where a referenced expression is missing.
pub type Written = Option<Option<Seq<Seq<char>>>>;

/// The expression filed under `id`, written with one level of `fuel`
/// fewer.
pub open spec fn written_id(map: QueryMap, id: QueryId, fuel: nat) -> Written
    decreases fuel, 0nat, 0nat,
{
    match map.lookup(id) {
        None => Some(None),
        Some(e) => if fuel == 0 {
            None
        } else {
            written(map, e, (fuel - 1) as nat)
        },
    }
}

/// What writing `e` gives: the lines of a class, no line for anything else.
pub open spec fn written(map: QueryMap, e: ExpressionEnum, fuel: nat) -> Written
    decreases fuel, 2nat, 0nat,
{
    match e {
        ExpressionEnum::Class(c) => written_class(map, c, fuel),
        _ => Some(Some(Seq::empty())),
    }
}

/// The index of the first member in `ids[i..]` that is not an assignment
/// to `__module__` or `__qualname__`; `None` where an assignment whose
/// target is not a filed name comes first, on which the scan never ends.
pub open spec fn skip_members(map: QueryMap, ids: Seq<QueryId>, i: nat) -> Option<nat>
    decreases ids.len() - i,
{
    if i >= ids.len() {
        Some(i)
    } else {
        match map.lookup(ids[i as int]) {
            Some(ExpressionEnum::Assign(a)) => match member_target(a, map) {
                Some(n) => if n == "__module__"@ || n == "__qualname__"@ {
                    skip_members(map, ids, i + 1)
                } else {
                    Some(i)
                },
                None => None,
            },
            _ => Some(i),
        }
    }
}

/// The docstring assignment filed under `id`, if it is one.
pub open spec fn doc_member(map: QueryMap, id: QueryId) -> Option<Assign> {
    match map.lookup(id) {
        Some(ExpressionEnum::Assign(a)) => if member_target(a, map) == Some("__doc__"@) {
            Some(a)
        } else {
            None
        },
        _ => None,
    }
}

/// The members `ids[i..]` written after `code`.
pub open spec fn written_members(
    code: Seq<Seq<char>>,
    map: QueryMap,
    ids: Seq<QueryId>,
    i: nat,
    fuel: nat,
) -> Written
    decreases fuel, 0nat, ids.len() + 1 - i,
{
    if i >= ids.len() {
        Some(Some(code))
    } else {
        match written_id(map, ids[i as int], fuel) {
            None => None,
            Some(None) => Some(None),
            Some(Some(ls)) => written_members(member_lines(code, ls), map, ids, i + 1, fuel),
        }
    }
}

/// A class: its header, its docstring, then its members; `pass` when it has
/// none. Assignments to `__module__` and `__qualname__` that come first are
/// left out.
pub open spec fn written_class(map: QueryMap, c: Class, fuel: nat) -> Written
    decreases fuel, 1nat, 0nat,
{
    let head = seq!["class "@ + c.name@ + ":"@];
    let ids = c.members@;
    match skip_members(map, ids, 0) {
        None => None,
        Some(i) => if i < ids.len() && doc_member(map, ids[i as int]) is Some {
            match doc_member(map, ids[i as int])->0.value {
                None => Some(None),
                Some(v) => match written_id(map, v, fuel) {
                    None => None,
                    Some(None) => Some(None),
                    Some(Some(ls)) => written_members(
                        doc_lines(head, join_seq(ls, ""@)),
                        map,
                        ids,
                        i + 1,
                        fuel,
                    ),
                },
            }
        } else if i < ids.len() {
            written_members(head, map, ids, i, fuel)
        } else {
            Some(Some(head.push("    pass"@)))
        },
    }
}

/// The outcome of an executable write.
pub open spec fn written_view(r: Option<Option<Vec<String>>>) -> Written {
    match r {
        None => None,
        Some(None) => Some(None),
        Some(Some(v)) => Some(Some(crate::text::strings_view(v@))),
    }
}

/// Writes the expression filed under `id`.
fn write_id(map: &QueryMap, id: QueryId, fuel: usize) -> (r: Option<Option<Vec<String>>>)
    requires
        map.wf(),
    ensures
        written_view(r) == written_id(*map, id, fuel as nat),
    decreases fuel, 0nat, 0nat,
{
    match map.get_single(id) {
        None => Some(None),
        Some(e) => if fuel == 0 {
            None
        } else {
            write_fuel(map, e, fuel - 1)
        },
    }
}

/// Writes `e`.
fn write_fuel(map: &QueryMap, e: &ExpressionEnum, fuel: usize) -> (r: Option<Option<Vec<String>>>)
    requires
        map.wf(),
    ensures
        written_view(r) == written(*map, *e, fuel as nat),
    decreases fuel, 2nat, 0nat,
{
    match e {
        ExpressionEnum::Class(c) => write_class(map, c, fuel),
        _ => {
            let v: Vec<String> = Vec::new();
            proof {
                assert(crate::text::strings_view(v@) =~= Seq::<Seq<char>>::empty());
            }
            Some(Some(v))
        },
    }
}

/// The index of the first member that is not an assignment to
/// `__module__` or `__qualname__`.
fn skip_exec(map: &QueryMap, ids: &Vec<QueryId>) -> (r: Option<usize>)
    requires
        map.wf(),
    ensures
        match r {
            None => skip_members(*map, ids@, 0) is None,
            Some(i) => skip_members(*map, ids@, 0) == Some(i as nat),
        },
{
    let mut i: usize = 0;
    while i < ids.len()
        invariant
            map.wf(),
            i <= ids@.len(),
            skip_members(*map, ids@, 0) == skip_members(*map, ids@, i as nat),
        decreases ids@.len() - i,
    {
        match map.get_single(ids[i]) {
            Some(ExpressionEnum::Assign(a)) => {
                let name = match a.target {
                    Some(t) => match map.get_single(t) {
                        Some(ExpressionEnum::BaseValue(b)) => &b.value,
                        _ => { return None; },
                    },
                    None => { return None; },
                };
                if crate::text::str_eq(name.as_str(), "__module__") || crate::text::str_eq(
                    name.as_str(),
                    "__qualname__",
                ) {
                    i = i + 1;
                } else {
                    return Some(i);
                }
            },
            _ => { return Some(i); },
        }
    }
    Some(i)
}

/// The docstring assignment filed under `id`, if it is one.
fn doc_exec<'a>(map: &'a QueryMap, id: QueryId) -> (r: Option<&'a Assign>)
    requires
        map.wf(),
    ensures
        match doc_member(*map, id) {
            None => r is None,
            Some(a) => r is Some && *r.unwrap() == a,
        },
{
    match map.get_single(id) {
        Some(ExpressionEnum::Assign(a)) => {
            let is_doc = match a.target {
                Some(t) => match map.get_single(t) {
                    Some(ExpressionEnum::BaseValue(b)) => crate::text::str_eq(b.value.as_str(), "__doc__"),
                    _ => false,
                },
                None => false,
            };
            if is_doc {
                Some(a)
            } else {
                None
            }
        },
        _ => None,
    }
}

/// Writes the members `ids[start..]` after `head`.
fn write_members(
    head: Vec<String>,
    map: &QueryMap,
    ids: &Vec<QueryId>,
    start: usize,
    fuel: usize,
) -> (r: Option<Option<Vec<String>>>)
    requires
        map.wf(),
        start <= ids@.len(),
    ensures
        written_view(r) == written_members(crate::text::strings_view(head@), *map, ids@, start as nat, fuel as nat),
    decreases fuel, 0nat, ids@.len() + 1 - start,
{
    if start >= ids.len() {
        return Some(Some(head));
    }
    let ls = match write_id(map, ids[start], fuel) {
        None => { return None; },
        Some(None) => { return Some(None); },
        Some(Some(ls)) => ls,
    };
    let mut code = head;
    member_lines_exec(&mut code, &ls);
    write_members(code, map, ids, start + 1, fuel)
}

/// Writes a class.
fn write_class(map: &QueryMap, c: &Class, fuel: usize) -> (r: Option<Option<Vec<String>>>)
    requires
        map.wf(),
    ensures
        written_view(r) == written_class(*map, *c, fuel as nat),
    decreases fuel, 1nat, 0nat,
{
    let h = crate::text::concat3("class ", c.name.as_str(), ":");
    let ghost hv = h@;
    let mut code: Vec<String> = Vec::new();
    code.push(h);
    proof {
        assert(crate::text::strings_view(code@) =~= seq![hv]);
    }
    let ids = &c.members;
    let i = match skip_exec(map, ids) {
        None => { return None; },
        Some(i) => i,
    };
    if i < ids.len() {
        match doc_exec(map, ids[i]) {
            Some(a) => {
                let v = match a.value {
                    None => { return Some(None); },
                    Some(v) => v,
                };
                let ls = match write_id(map, v, fuel) {
                    None => { return None; },
                    Some(None) => { return Some(None); },
                    Some(Some(ls)) => ls,
                };
                let d = join(&ls, "");
                doc_lines_exec(&mut code, d.as_str());
                write_members(code, map, ids, i + 1, fuel)
            },
            None => write_members(code, map, ids, i, fuel),
        }
    } else {
        let ghost cv = crate::text::strings_view(code@);
        code.push(String::from_str("    pass"));
        proof {
            assert(crate::text::strings_view(code@) =~= cv.push("    pass"@));
        }
        Some(Some(code))
    }
}

/// Writes `expression`: the lines of a class, no line for anything else;
/// `None` where an id that the class refers to has no expression.
pub fn build(map: &QueryMap, expression: &ExpressionEnum) -> (r: Option<Vec<String>>)
    requires
        map.wf(),
        written(*map, *expression, MAX_DEPTH as nat) is Some,
    ensures
        written_view(Some(r)) == written(*map, *expression, MAX_DEPTH as nat),
{
    match write_fuel(map, expression, MAX_DEPTH) {
        Some(r) => r,
        None => {
            proof {
                assert(false);
            }
            None
        },
    }
}

/// Writes the expression filed under `id`; `None` where there is none.
pub fn build_helper(map: &QueryMap, id: &QueryId) -> (r: Option<Vec<String>>)
    requires
        map.wf(),
        map.lookup(*id) matches Some(e) ==> written(*map, e, MAX_DEPTH as nat) is Some,
    ensures
        match map.lookup(*id) {
            None => r is None,
            Some(e) => written_view(Some(r)) == written(*map, e, MAX_DEPTH as nat),
        },
{
    let e = map.get_single(*id)?;
    build(map, e)
}

/// Writes the expression filed under `id`, if there is an id.
pub fn build_helper_some(map: &QueryMap, id: Option<QueryId>) -> (r: Option<Vec<String>>)
    requires
        map.wf(),
        id matches Some(q) ==> (map.lookup(q) matches Some(e) ==> written(*map, e, MAX_DEPTH as nat) is Some),
    ensures
        match id {
            None => r is None,
            Some(q) => match map.lookup(q) {
                None => r is None,
                Some(e) => written_view(Some(r)) == written(*map, e, MAX_DEPTH as nat),
            },
        },
{
    let q = id?;
    build_helper(map, &q)
}

/// Writes `expression`, or `None` where writing does not finish.
pub fn try_build(map: &QueryMap, expression: &ExpressionEnum) -> (r: Option<Option<Vec<String>>>)
    requires
        map.wf(),
    ensures
        written_view(r) == written(*map, *expression, MAX_DEPTH as nat),
{
    if write_fuel(map, expression, MAX_DEPTH).is_some() {
        Some(build(map, expression))
    } else {
        None
    }
}

} // verus!
