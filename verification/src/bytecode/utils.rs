//! The line-by-line decompiler of the first generation: the instructions of
//! one source line are run on a stack of texts, and what is left on top is
//! the line of Python.
//!
//! A result of `None` in the specifications stands for the inputs on which
//! the machine stops (a run that would panic): an empty stack or a missing operand where one is
//! taken, an instruction without the argument it needs, an unknown operator,
//! or a list extension whose operand does not begin and end with a plain
//! character.

use vstd::prelude::*;
use super::types::{Binary, BytecodeType, Import, OP, ValueType};
use crate::text::{
    contains_seq, join_seq, starts_with_seq, strings_view, str_eq, concat2, concat3,
    contains_str, starts_with, join,
};
use crate::visit::{white_space, blank};
use crate::text::{parse_usize_spec, parse_usize, split_seq, split, repeat, repeat_seq};
use crate::visit::is_blank;
use super::types::{classify, paren_text};
use regex::Regex;

verus! {

/// An instruction: its offset, opcode kind, argument and the text of its
/// resolved argument.
#[derive(Debug)]
pub struct BytecodeLine {
    pub offset: usize,
    pub bytecode: BytecodeType,
    pub arg: Option<usize>,
    pub real_arg: Option<String>,
    pub jump_offset: Option<usize>,
}

/// The instructions of one source line.
#[derive(Debug)]
pub struct PyObj {
    pub line: usize,
    pub retractions: usize,
    pub bytecode_lines: Vec<BytecodeLine>,
}

/// A written line of Python and its line number.
#[derive(Debug)]
pub struct PyScript {
    pub line: usize,
    pub script: Option<String>,
}

/// The stack of the machine: texts, and `None` for the value `None`.
pub type Stack = Seq<Option<Seq<char>>>;

/// The characters of an optional string.
pub open spec fn opt_chars(o: Option<String>) -> Option<Seq<char>> {
    match o {
        Some(s) => Some(s@),
        None => None,
    }
}

/// The stack of an executable stack.
pub open spec fn stack_view(v: Seq<Option<String>>) -> Stack {
    v.map_values(|o: Option<String>| opt_chars(o))
}

/// The top text and the rest of the stack; `None` when the stack is empty
/// or its top is `None`.
pub open spec fn pop1(st: Stack) -> Option<(Seq<char>, Stack)> {
    if st.len() > 0 && st.last() is Some {
        Some((st.last()->0, st.drop_last()))
    } else {
        None
    }
}

/// The top `n` texts, in stack order, and the rest of the stack.
pub open spec fn pop_n(st: Stack, n: nat) -> Option<(Seq<Seq<char>>, Stack)>
    decreases n,
{
    if n == 0 {
        Some((Seq::empty(), st))
    } else {
        match pop1(st) {
            None => None,
            Some((x, s1)) => match pop_n(s1, (n - 1) as nat) {
                None => None,
                Some((xs, s2)) => Some((xs.push(x), s2)),
            },
        }
    }
}

/// `s` without its trailing white space.
pub open spec fn trim_ws_end(s: Seq<char>) -> Seq<char>
    decreases s.len(),
{
    if s.len() > 0 && white_space(s.last()) {
        trim_ws_end(s.drop_last())
    } else {
        s
    }
}

/// The characters of `s` after its last white space.
pub open spec fn tail_word(s: Seq<char>) -> Seq<char>
    decreases s.len(),
{
    if s.len() == 0 || white_space(s.last()) {
        Seq::empty()
    } else {
        tail_word(s.drop_last()).push(s.last())
    }
}

/// The last white-space separated word of `s`, if it has one.
pub open spec fn last_word(s: Seq<char>) -> Option<Seq<char>> {
    let t = trim_ws_end(s);
    if t.len() == 0 {
        None
    } else {
        Some(tail_word(t))
    }
}

/// The characters of `s` after its last dot.
pub open spec fn after_last_dot(s: Seq<char>) -> Seq<char>
    decreases s.len(),
{
    if s.len() == 0 || s.last() == '.' {
        Seq::empty()
    } else {
        after_last_dot(s.drop_last()).push(s.last())
    }
}

/// A character of one byte in UTF-8.
pub open spec fn plain(c: char) -> bool {
    (c as u32) < 0x80
}

/// `s` without its first and last byte: defined when both are plain
/// characters of their own.
pub open spec fn inner(s: Seq<char>) -> Option<Seq<char>> {
    if s.len() >= 2 && plain(s[0]) && plain(s.last()) {
        Some(s.subrange(1, s.len() - 1))
    } else {
        None
    }
}

/// `t` pushed onto what `pop` left.
pub open spec fn push_text(rest: Stack, t: Seq<char>) -> Option<Stack> {
    Some(rest.push(Some(t)))
}

/// An infix operation of the top two texts.
pub open spec fn infix(st: Stack, op: Seq<char>) -> Option<Stack> {
    match pop1(st) {
        None => None,
        Some((right, s1)) => match pop1(s1) {
            None => None,
            Some((left, s2)) => push_text(s2, left + " "@ + op + " "@ + right),
        },
    }
}

/// The operator of a membership or identity test: `arg` 0 is the plain
/// test, any other value its negation.
pub open spec fn test_op(arg: usize, yes: Seq<char>, no: Seq<char>) -> Seq<char> {
    if arg == 0 {
        yes
    } else {
        no
    }
}

/// One instruction on the stack.
pub open spec fn py_step(st: Stack, b: BytecodeType, arg: Option<usize>, ra: Option<Seq<char>>) -> Option<Stack> {
    match b {
        BytecodeType::Load => Some(
            st.push(
                match ra {
                    Some(r) => if r == "None"@ {
                        None
                    } else {
                        Some(r)
                    },
                    None => None,
                },
            ),
        ),
        BytecodeType::Unary(u) => match pop1(st) {
            None => None,
            Some((e, s1)) => push_text(s1, u.prefix() + e),
        },
        BytecodeType::Binary(bin) => match bin {
            Binary::Op | Binary::Compare => match ra {
                None => None,
                Some(r) => match OP::spelled(r) {
                    None => None,
                    Some(op) => infix(st, op.symbol()),
                },
            },
            Binary::Subscr => match pop1(st) {
                None => None,
                Some((idx, s1)) => match pop1(s1) {
                    None => None,
                    Some((target, s2)) => push_text(s2, target + "["@ + idx + "]"@),
                },
            },
            Binary::Slice => match pop1(st) {
                None => None,
                Some((end, s1)) => match pop1(s1) {
                    None => None,
                    Some((start, s2)) => match pop1(s2) {
                        None => None,
                        Some((target, s3)) => push_text(
                            s3,
                            target + "["@ + start + ":"@ + end + "]"@,
                        ),
                    },
                },
            },
            Binary::In => match arg {
                None => None,
                Some(a) => infix(st, test_op(a, "in"@, "not in"@)),
            },
            Binary::Is => match arg {
                None => None,
                Some(a) => infix(st, test_op(a, "is"@, "is not"@)),
            },
        },
        BytecodeType::Call => match arg {
            None => None,
            Some(n) => match pop_n(st, n as nat) {
                None => None,
                Some((args, s1)) => match pop1(s1) {
                    None => None,
                    Some((func, s2)) => push_text(s2, func + "("@ + join_seq(args, ", "@) + ")"@),
                },
            },
        },
        BytecodeType::Build(vt) => match arg {
            None => None,
            Some(n) => if n == 0 {
                if vt is List || vt is SetValue || vt is Dict {
                    Some(st.push(Some(vt.spec_build(None))))
                } else {
                    None
                }
            } else {
                match pop_n(st, n as nat) {
                    None => None,
                    Some((args, s1)) => push_text(s1, vt.spec_build(Some(join_seq(args, ", "@)))),
                }
            },
        },
        BytecodeType::Import(t) => if st.len() == 0 {
            None
        } else {
            let s1 = st.drop_last();
            match ra {
                None => None,
                Some(r) => match st.last() {
                    None => push_text(s1, "import "@ + r),
                    Some(old) => match t {
                        Import::ImportName => push_text(s1, "import "@ + r),
                        Import::ImportFrom => if starts_with_seq(old, "import"@) {
                            match last_word(old) {
                                None => None,
                                Some(w) => if after_last_dot(w) != r {
                                    push_text(s1, "from "@ + w + " import "@ + r)
                                } else {
                                    push_text(s1, old)
                                },
                            }
                        } else {
                            push_text(s1, old + ", "@ + r)
                        },
                    },
                },
            }
        },
        BytecodeType::Extend => match pop1(st) {
            None => None,
            Some((etn, s1)) => match inner(etn) {
                None => None,
                Some(i) => push_text(
                    if s1.len() > 0 {
                        s1.drop_last()
                    } else {
                        s1
                    },
                    "["@ + i + "]"@,
                ),
            },
        },
        BytecodeType::Store => match pop1(st) {
            None => None,
            Some((value, s1)) => match ra {
                None => None,
                Some(name) => if contains_seq(value, "import"@) {
                    match last_word(value) {
                        None => None,
                        Some(w) => if w != name {
                            push_text(s1, value + " as "@ + name)
                        } else {
                            push_text(s1, value)
                        },
                    }
                } else {
                    push_text(s1, name + " = "@ + value)
                },
            },
        },
        BytecodeType::Other => if ra == Some("INTRINSIC_IMPORT_STAR"@) {
            match pop1(st) {
                None => None,
                Some((e, s1)) => if !starts_with_seq(e, "import"@) {
                    None
                } else {
                    match last_word(e) {
                        None => None,
                        Some(w) => push_text(s1, "from "@ + w + " import *"@),
                    }
                },
            }
        } else {
            Some(st)
        },
        _ => Some(st),
    }
}

/// An instruction as the machine reads it.
pub open spec fn line_op(l: BytecodeLine) -> (BytecodeType, Option<usize>, Option<Seq<char>>) {
    (l.bytecode, l.arg, opt_chars(l.real_arg))
}

/// The instructions `ls` run one after another on `st`.
pub open spec fn py_run(st: Stack, ls: Seq<BytecodeLine>) -> Option<Stack>
    decreases ls.len(),
{
    if ls.len() == 0 {
        Some(st)
    } else {
        let (b, a, r) = line_op(ls[0]);
        match py_step(st, b, a, r) {
            None => None,
            Some(s) => py_run(s, ls.drop_first()),
        }
    }
}

/// The line of Python that the instructions `ls` give: the text on top of
/// the stack at the end.
pub open spec fn python_of(ls: Seq<BytecodeLine>) -> Option<Seq<char>> {
    match py_run(Seq::empty(), ls) {
        None => None,
        Some(st) => match pop1(st) {
            None => None,
            Some((t, _)) => Some(t),
        },
    }
}

/// Takes the top text off the stack; `None` when the stack is empty or its
/// top is `None`.
fn pop_text(st: &mut Vec<Option<String>>) -> (r: Option<String>)
    ensures
        match pop1(stack_view(old(st)@)) {
            None => r is None,
            Some((x, s1)) => r matches Some(t) && t@ == x && stack_view(final(st)@) == s1,
        },
{
    let ghost before = st@;
    if st.len() == 0 {
        return None;
    }
    proof {
        assert(stack_view(before).last() == opt_chars(before.last()));
    }
    match st.pop() {
        Some(Some(t)) => {
            proof {
                assert(stack_view(st@) =~= stack_view(before).drop_last());
            }
            Some(t)
        },
        _ => None,
    }
}

/// Pushes a text.
fn push_str(st: &mut Vec<Option<String>>, t: String)
    ensures
        stack_view(final(st)@) == stack_view(old(st)@).push(Some(t@)),
{
    let ghost before = st@;
    let ghost tv = t@;
    st.push(Some(t));
    proof {
        assert(stack_view(st@) =~= stack_view(before).push(Some(tv)));
    }
}

/// Replaces the top two texts by `left op right`.
fn infix_exec(st: &mut Vec<Option<String>>, op: &str) -> (ok: bool)
    ensures
        ok == infix(stack_view(old(st)@), op@) is Some,
        ok ==> Some(stack_view(final(st)@)) == infix(stack_view(old(st)@), op@),
{
    let right = match pop_text(st) {
        None => { return false; },
        Some(t) => t,
    };
    let left = match pop_text(st) {
        None => { return false; },
        Some(t) => t,
    };
    let l = concat3(left.as_str(), " ", op);
    push_str(st, concat3(l.as_str(), " ", right.as_str()));
    true
}

/// Takes the top `n` texts off the stack, in stack order.
fn pop_n_exec(st: &mut Vec<Option<String>>, n: usize) -> (r: Option<Vec<String>>)
    ensures
        match pop_n(stack_view(old(st)@), n as nat) {
            None => r is None,
            Some((xs, s1)) => r matches Some(v) && strings_view(v@) == xs && stack_view(final(st)@)
                == s1,
        },
{
    let ghost s0 = stack_view(st@);
    let mut taken: Vec<String> = Vec::new();
    let mut k: usize = 0;
    proof {
        assert(strings_view(taken@) =~= Seq::<Seq<char>>::empty());
    }
    while k < n
        invariant
            k <= n,
            s0 == stack_view(old(st)@),
            match pop_n(s0, n as nat) {
                None => pop_n(stack_view(st@), (n - k) as nat) is None,
                Some((xs, s1)) => pop_n(stack_view(st@), (n - k) as nat) matches Some((ys, s2))
                    && s2 == s1 && xs == ys + strings_view(taken@).reverse(),
            },
        decreases n - k,
    {
        let ghost cur = stack_view(st@);
        let ghost tk = strings_view(taken@);
        let t = match pop_text(st) {
            None => {
                proof {
                    assert(pop_n(cur, (n - k) as nat) is None);
                }
                return None;
            },
            Some(t) => t,
        };
        let ghost tv = t@;
        taken.push(t);
        proof {
            assert(strings_view(taken@) =~= tk.push(tv));
            match pop_n(s0, n as nat) {
                Some((xs, s1)) => {
                    let (ys, s2) = pop_n(cur, (n - k) as nat)->0;
                    let (zs, s3) = pop_n(stack_view(st@), (n - k - 1) as nat)->0;
                    assert(ys == zs.push(tv));
                    assert(zs.push(tv) + tk.reverse() =~= zs + tk.push(tv).reverse());
                },
                None => {},
            }
        }
        k = k + 1;
    }
    let mut out: Vec<String> = Vec::new();
    let mut j: usize = taken.len();
    let ghost tk = strings_view(taken@);
    proof {
        assert(strings_view(out@) =~= tk.reverse().take(0));
    }
    while j > 0
        invariant
            j <= taken@.len(),
            tk == strings_view(taken@),
            strings_view(out@) == tk.reverse().take((taken@.len() - j) as int),
        decreases j,
    {
        j = j - 1;
        let ghost o = strings_view(out@);
        out.push(String::from_str(taken[j].as_str()));
        proof {
            assert(tk[j as int] == taken@[j as int]@);
            assert(tk.reverse()[(taken@.len() - j - 1) as int] == tk[j as int]);
            assert(strings_view(out@) =~= o.push(tk[j as int]));
            assert(strings_view(out@) =~= tk.reverse().take((taken@.len() - j) as int));
        }
    }
    proof {
        assert(tk.reverse().take(taken@.len() as int) =~= tk.reverse());
        match pop_n(s0, n as nat) {
            Some((xs, s1)) => {
                assert(xs =~= tk.reverse());
            },
            None => {},
        }
    }
    Some(out)
}

/// Whether `c` is white space.
pub(crate) fn is_ws(c: char) -> (r: bool)
    ensures
        r == white_space(c),
{
    (c == ' ') || ('\u{9}' <= c && c <= '\u{d}') || c == '\u{85}' || c == '\u{a0}' || c
        == '\u{1680}' || ('\u{2000}' <= c && c <= '\u{200a}') || c == '\u{2028}' || c
        == '\u{2029}' || c == '\u{202f}' || c == '\u{205f}' || c == '\u{3000}'
}

/// The last white-space separated word of `s`.
fn last_word_exec(s: &str) -> (r: Option<String>)
    ensures
        match last_word(s@) {
            None => r is None,
            Some(w) => r matches Some(t) && t@ == w,
        },
{
    let n = s.unicode_len();
    let mut e: usize = n;
    assert(s@.subrange(0, n as int) =~= s@);
    while e > 0 && is_ws(s.get_char(e - 1))
        invariant
            e <= n,
            n == s@.len(),
            trim_ws_end(s@) == trim_ws_end(s@.subrange(0, e as int)),
        decreases e,
    {
        assert(s@.subrange(0, e as int).drop_last() =~= s@.subrange(0, e - 1));
        e = e - 1;
    }
    let ghost t = s@.subrange(0, e as int);
    assert(trim_ws_end(t) == t);
    if e == 0 {
        return None;
    }
    let mut b: usize = e;
    assert(t.subrange(b as int, e as int) =~= Seq::<char>::empty());
    while b > 0 && !is_ws(s.get_char(b - 1))
        invariant
            b <= e <= n,
            n == s@.len(),
            t == s@.subrange(0, e as int),
            tail_word(t) == tail_word(s@.subrange(0, b as int)) + s@.subrange(b as int, e as int),
        decreases b,
    {
        let ghost u = s@.subrange(0, b as int);
        assert(u.drop_last() =~= s@.subrange(0, b - 1));
        assert(s@.subrange(b - 1, e as int) =~= seq![u.last()] + s@.subrange(b as int, e as int));
        assert(tail_word(u) == tail_word(u.drop_last()).push(u.last()));
        assert(tail_word(u.drop_last()).push(u.last()) + s@.subrange(b as int, e as int)
            =~= tail_word(u.drop_last()) + s@.subrange(b - 1, e as int));
        b = b - 1;
    }
    assert(tail_word(s@.subrange(0, b as int)) =~= Seq::<char>::empty());
    assert(tail_word(t) =~= s@.subrange(b as int, e as int));
    let w = s.substring_char(b, e);
    Some(String::from_str(w))
}

/// The characters of `s` after its last dot.
fn after_last_dot_exec(s: &str) -> (r: String)
    ensures
        r@ == after_last_dot(s@),
{
    let n = s.unicode_len();
    let mut b: usize = n;
    assert(s@.subrange(n as int, n as int) =~= Seq::<char>::empty());
    assert(s@.subrange(0, n as int) =~= s@);
    while b > 0 && s.get_char(b - 1) != '.'
        invariant
            b <= n,
            n == s@.len(),
            after_last_dot(s@) == after_last_dot(s@.subrange(0, b as int)) + s@.subrange(b as int, n as int),
        decreases b,
    {
        let ghost u = s@.subrange(0, b as int);
        assert(u.drop_last() =~= s@.subrange(0, b - 1));
        assert(after_last_dot(u.drop_last()).push(u.last()) + s@.subrange(b as int, n as int)
            =~= after_last_dot(u.drop_last()) + s@.subrange(b - 1, n as int));
        b = b - 1;
    }
    assert(after_last_dot(s@.subrange(0, b as int)) =~= Seq::<char>::empty());
    String::from_str(s.substring_char(b, n))
}

/// `s` without its first and last character, when both are plain.
fn inner_exec(s: &str) -> (r: Option<String>)
    ensures
        match inner(s@) {
            None => r is None,
            Some(i) => r matches Some(t) && t@ == i,
        },
{
    let n = s.unicode_len();
    if n >= 2 && (s.get_char(0) as u32) < 0x80 && (s.get_char(n - 1) as u32) < 0x80 {
        Some(String::from_str(s.substring_char(1, n - 1)))
    } else {
        None
    }
}

/// The result of one instruction on the stack: `false` where the machine
/// stops.
fn step_exec(st: &mut Vec<Option<String>>, l: &BytecodeLine) -> (ok: bool)
    ensures
        ok == py_step(stack_view(old(st)@), l.bytecode, l.arg, opt_chars(l.real_arg)) is Some,
        ok ==> Some(stack_view(final(st)@)) == py_step(
            stack_view(old(st)@),
            l.bytecode,
            l.arg,
            opt_chars(l.real_arg),
        ),
{
    let ghost s0 = stack_view(st@);
    match l.bytecode {
        BytecodeType::Load => {
            let ghost before = st@;
            let v = match &l.real_arg {
                Some(r) => if str_eq(r.as_str(), "None") {
                    None
                } else {
                    Some(String::from_str(r.as_str()))
                },
                None => None,
            };
            let ghost vv = opt_chars(v);
            st.push(v);
            proof {
                assert(stack_view(st@) =~= stack_view(before).push(vv));
            }
            true
        },
        BytecodeType::Unary(u) => {
            let e = match pop_text(st) {
                None => { return false; },
                Some(e) => e,
            };
            push_str(st, u.get_expr(e.as_str()));
            true
        },
        BytecodeType::Binary(bin) => binary_step(st, bin, l),
        BytecodeType::Call => {
            let n = match l.arg {
                None => { return false; },
                Some(n) => n,
            };
            let args = match pop_n_exec(st, n) {
                None => { return false; },
                Some(a) => a,
            };
            let func = match pop_text(st) {
                None => { return false; },
                Some(f) => f,
            };
            let j = join(&args, ", ");
            let f1 = concat2(func.as_str(), "(");
            push_str(st, concat3(f1.as_str(), j.as_str(), ")"));
            true
        },
        BytecodeType::Build(vt) => {
            let n = match l.arg {
                None => { return false; },
                Some(n) => n,
            };
            if n == 0 {
                match vt {
                    ValueType::List | ValueType::SetValue | ValueType::Dict => {
                        push_str(st, vt.build(None));
                        true
                    },
                    _ => false,
                }
            } else {
                let args = match pop_n_exec(st, n) {
                    None => { return false; },
                    Some(a) => a,
                };
                let j = join(&args, ", ");
                push_str(st, vt.build(Some(j.as_str())));
                true
            }
        },
        BytecodeType::Import(t) => import_step(st, t, l),
        BytecodeType::Extend => {
            let etn = match pop_text(st) {
                None => { return false; },
                Some(e) => e,
            };
            let i = match inner_exec(etn.as_str()) {
                None => { return false; },
                Some(i) => i,
            };
            let ghost s1 = stack_view(st@);
            let _ = st.pop();
            proof {
                if s1.len() > 0 {
                    assert(stack_view(st@) =~= s1.drop_last());
                }
            }
            push_str(st, concat3("[", i.as_str(), "]"));
            true
        },
        BytecodeType::Store => {
            let value = match pop_text(st) {
                None => { return false; },
                Some(v) => v,
            };
            let name = match &l.real_arg {
                None => { return false; },
                Some(n) => n,
            };
            if contains_str(value.as_str(), "import") {
                let w = match last_word_exec(value.as_str()) {
                    None => { return false; },
                    Some(w) => w,
                };
                if !str_eq(w.as_str(), name.as_str()) {
                    push_str(st, concat3(value.as_str(), " as ", name.as_str()));
                } else {
                    push_str(st, value);
                }
            } else {
                push_str(st, concat3(name.as_str(), " = ", value.as_str()));
            }
            true
        },
        BytecodeType::Other => {
            let star = match &l.real_arg {
                Some(r) => str_eq(r.as_str(), "INTRINSIC_IMPORT_STAR"),
                None => false,
            };
            if !star {
                return true;
            }
            let e = match pop_text(st) {
                None => { return false; },
                Some(e) => e,
            };
            if !starts_with(e.as_str(), "import") {
                return false;
            }
            let w = match last_word_exec(e.as_str()) {
                None => { return false; },
                Some(w) => w,
            };
            push_str(st, concat3("from ", w.as_str(), " import *"));
            true
        },
        _ => true,
    }
}

/// One operation with two or three operands.
fn binary_step(st: &mut Vec<Option<String>>, bin: Binary, l: &BytecodeLine) -> (ok: bool)
    requires
        l.bytecode == BytecodeType::Binary(bin),
    ensures
        ok == py_step(stack_view(old(st)@), l.bytecode, l.arg, opt_chars(l.real_arg)) is Some,
        ok ==> Some(stack_view(final(st)@)) == py_step(
            stack_view(old(st)@),
            l.bytecode,
            l.arg,
            opt_chars(l.real_arg),
        ),
{
    match bin {
        Binary::Op | Binary::Compare => {
            let r = match &l.real_arg {
                None => { return false; },
                Some(r) => r,
            };
            let op = match OP::get(r.as_str()) {
                None => { return false; },
                Some(op) => op,
            };
            infix_exec(st, op.to_str())
        },
        Binary::Subscr => {
            let idx = match pop_text(st) {
                None => { return false; },
                Some(t) => t,
            };
            let target = match pop_text(st) {
                None => { return false; },
                Some(t) => t,
            };
            let t1 = concat2(target.as_str(), "[");
            push_str(st, concat3(t1.as_str(), idx.as_str(), "]"));
            true
        },
        Binary::Slice => {
            let end = match pop_text(st) {
                None => { return false; },
                Some(t) => t,
            };
            let start = match pop_text(st) {
                None => { return false; },
                Some(t) => t,
            };
            let target = match pop_text(st) {
                None => { return false; },
                Some(t) => t,
            };
            let t1 = concat3(target.as_str(), "[", start.as_str());
            let t2 = concat3(t1.as_str(), ":", end.as_str());
            push_str(st, concat2(t2.as_str(), "]"));
            true
        },
        Binary::In => {
            let a = match l.arg {
                None => { return false; },
                Some(a) => a,
            };
            infix_exec(st, if a == 0 { "in" } else { "not in" })
        },
        Binary::Is => {
            let a = match l.arg {
                None => { return false; },
                Some(a) => a,
            };
            infix_exec(st, if a == 0 { "is" } else { "is not" })
        },
    }
}

/// An import instruction.
fn import_step(st: &mut Vec<Option<String>>, t: Import, l: &BytecodeLine) -> (ok: bool)
    requires
        l.bytecode == BytecodeType::Import(t),
    ensures
        ok == py_step(stack_view(old(st)@), l.bytecode, l.arg, opt_chars(l.real_arg)) is Some,
        ok ==> Some(stack_view(final(st)@)) == py_step(
            stack_view(old(st)@),
            l.bytecode,
            l.arg,
            opt_chars(l.real_arg),
        ),
{
    let ghost s0 = stack_view(st@);
    if st.len() == 0 {
        return false;
    }
    let ghost last = st@.last();
    let old_expr = st.pop();
    proof {
        assert(stack_view(st@) =~= s0.drop_last());
        assert(s0.last() == opt_chars(last));
    }
    let r = match &l.real_arg {
        None => { return false; },
        Some(r) => r,
    };
    match old_expr {
        None => {
            push_str(st, concat2("import ", r.as_str()));
            true
        },
        Some(None) => {
            push_str(st, concat2("import ", r.as_str()));
            true
        },
        Some(Some(old)) => match t {
            Import::ImportName => {
                push_str(st, concat2("import ", r.as_str()));
                true
            },
            Import::ImportFrom => {
                if starts_with(old.as_str(), "import") {
                    let w = match last_word_exec(old.as_str()) {
                        None => { return false; },
                        Some(w) => w,
                    };
                    let d = after_last_dot_exec(w.as_str());
                    if !str_eq(d.as_str(), r.as_str()) {
                        let f1 = concat3("from ", w.as_str(), " import ");
                        push_str(st, concat2(f1.as_str(), r.as_str()));
                    } else {
                        push_str(st, old);
                    }
                } else {
                    push_str(st, concat3(old.as_str(), ", ", r.as_str()));
                }
                true
            },
        },
    }
}

impl PyObj {
    /// The line of Python that the instructions give, or `None` where the
    /// machine stops.
    fn python_opt(&self) -> (r: Option<String>)
        ensures
            match python_of(self.bytecode_lines@) {
                None => r is None,
                Some(t) => r matches Some(x) && x@ == t,
            },
    {
        let ghost ls = self.bytecode_lines@;
        let mut st: Vec<Option<String>> = Vec::new();
        let mut i: usize = 0;
        proof {
            assert(stack_view(st@) =~= Seq::<Option<Seq<char>>>::empty());
            assert(ls.skip(0) =~= ls);
        }
        while i < self.bytecode_lines.len()
            invariant
                i <= ls.len(),
                ls == self.bytecode_lines@,
                py_run(Seq::empty(), ls) == py_run(stack_view(st@), ls.skip(i as int)),
            decreases ls.len() - i,
        {
            proof {
                assert(ls.skip(i as int)[0] == ls[i as int]);
                assert(ls.skip(i as int).drop_first() =~= ls.skip(i + 1));
            }
            if !step_exec(&mut st, &self.bytecode_lines[i]) {
                return None;
            }
            i = i + 1;
        }
        proof {
            assert(ls.skip(i as int) =~= Seq::<BytecodeLine>::empty());
        }
        pop_text(&mut st)
    }

    /// The line of Python that the instructions give.
    pub fn to_python(&self) -> (r: String)
        requires
            python_of(self.bytecode_lines@) is Some,
        ensures
            python_of(self.bytecode_lines@) == Some(r@),
    {
        match self.python_opt() {
            Some(t) => t,
            None => {
                proof {
                    assert(false);
                }
                String::new()
            },
        }
    }

    /// The line of Python that the instructions give, or `None` where the
    /// machine stops.
    pub fn try_to_python(&self) -> (r: Option<String>)
        ensures
            match python_of(self.bytecode_lines@) {
                None => r is None,
                Some(t) => r matches Some(x) && x@ == t,
            },
    {
        if self.python_opt().is_some() {
            Some(self.to_python())
        } else {
            None
        }
    }
}

/// One match of the instruction pattern of [`capture_line_rows`]: the texts
/// of its `line`, `off`, `bc`, `a` and `ra` groups, empty where a group did
/// not take part (each group matches at least one character when it does).
#[derive(Debug)]
pub struct LineRow {
    pub line: String,
    pub off: String,
    pub bc: String,
    pub a: String,
    pub ra: String,
}

/// The texts of a row.
pub type RowText = (Seq<char>, Seq<char>, Seq<char>, Seq<char>, Seq<char>);

/// A row by its texts.
pub open spec fn line_row_view(r: LineRow) -> RowText {
    (r.line@, r.off@, r.bc@, r.a@, r.ra@)
}

/// The rows of a list of rows.
pub open spec fn line_rows_view(v: Seq<LineRow>) -> Seq<RowText> {
    v.map_values(|r: LineRow| line_row_view(r))
}

/// The rows that `Regex::captures_iter` gives for the instruction pattern of
/// [`capture_line_rows`] on `text`, in order.
pub uninterp spec fn line_rows(text: Seq<char>) -> Seq<RowText>;

/// Runs `Regex::captures_iter` on `text` with the pattern (in free-spacing
/// mode) of an optional line `(?P<line>\d+)`, optional white space and `>`,
/// the offset `(?P<off>\d+)`, one white space or `+`, the opcode name
/// `(?P<bc>[A-Z0-9_]+)`, optional spaces, an optional argument
/// `(?P<a>\d+)`, an optional white space or `+`, and an optional
/// `\((?P<ra>.+)\)`. Each match gives the texts of its five groups. The
/// contract only names the result (`line_rows`).
#[verifier::external_body]
pub(crate) fn capture_line_rows(text: &str) -> (r: Vec<LineRow>)
    ensures
        line_rows_view(r@) == line_rows(text@),
{
    let reg = Regex::new(
        r#"(?x)
            (?P<line>\d+)?
            ([\s>]+)?
            (?P<off>\d+)
            [\s+]
            (?P<bc>[A-Z0-9_]+)
            ([\ ]+)?
            (?P<a>\d+)?
            [\s+]?
            (\((?P<ra>.+)\))?
            "#,
    ).unwrap();
    let group = |c: &regex::Captures, n: &str| c.name(n).map_or(String::new(), |m| m.as_str().to_string());
    reg.captures_iter(text).map(|c| LineRow {
        line: group(&c, "line"),
        off: group(&c, "off"),
        bc: group(&c, "bc"),
        a: group(&c, "a"),
        ra: group(&c, "ra"),
    }).collect()
}

/// Whether a row can be read: its offset and argument fit in `usize` and
/// its opcode name is known.
pub open spec fn row_fits(r: RowText) -> bool {
    &&& parse_usize_spec(r.1) is Some
    &&& classify(r.2) is Some
    &&& r.3.len() > 0 ==> parse_usize_spec(r.3) is Some
}

/// Whether every row can be read.
pub open spec fn rows_fit(rows: Seq<RowText>) -> bool {
    forall|i: int| 0 <= i < rows.len() ==> row_fits(#[trigger] rows[i])
}

/// An instruction by its parts.
pub type LineText = (usize, BytecodeType, Option<usize>, Option<Seq<char>>, Option<usize>);

/// An instruction by its parts.
pub open spec fn line_view(l: BytecodeLine) -> LineText {
    (l.offset, l.bytecode, l.arg, opt_chars(l.real_arg), l.jump_offset)
}

/// The instruction that a row reads as.
pub open spec fn row_line(r: RowText) -> LineText {
    (
        parse_usize_spec(r.1)->0,
        classify(r.2)->0,
        if r.3.len() > 0 { Some(parse_usize_spec(r.3)->0) } else { None },
        if r.4.len() > 0 { Some(r.4) } else { None },
        None,
    )
}

/// The line number of the rows: that of the last row that has one, `0`
/// where it does not parse or no row has one.
pub open spec fn rows_line(rows: Seq<RowText>) -> usize
    decreases rows.len(),
{
    if rows.len() == 0 {
        0
    } else if rows.last().0.len() > 0 {
        match parse_usize_spec(rows.last().0) {
            Some(n) => n,
            None => 0,
        }
    } else {
        rows_line(rows.drop_last())
    }
}

/// Whether `o` holds the instructions that `rows` read as.
pub open spec fn read_from(o: PyObj, rows: Seq<RowText>) -> bool {
    &&& o.line == rows_line(rows)
    &&& o.retractions == 0
    &&& o.bytecode_lines@.len() == rows.len()
    &&& forall|i: int| 0 <= i < rows.len() ==> line_view(#[trigger] o.bytecode_lines@[i]) == row_line(rows[i])
}

impl PyObj {
    /// The instructions that the rows read as.
    pub fn from_rows(rows: &Vec<LineRow>) -> (r: PyObj)
        requires
            rows_fit(line_rows_view(rows@)),
        ensures
            read_from(r, line_rows_view(rows@)),
    {
        let ghost rv = line_rows_view(rows@);
        let mut line: usize = 0;
        let mut lines: Vec<BytecodeLine> = Vec::new();
        let mut i: usize = 0;
        while i < rows.len()
            invariant
                i <= rows@.len(),
                rv == line_rows_view(rows@),
                rows_fit(rv),
                line == rows_line(rv.take(i as int)),
                lines@.len() == i,
                forall|j: int| 0 <= j < i ==> line_view(#[trigger] lines@[j]) == row_line(rv[j]),
            decreases rows@.len() - i,
        {
            let r = &rows[i];
            assert(rv[i as int] == line_row_view(*r));
            assert(row_fits(rv[i as int]));
            proof {
                assert(rv.take(i + 1).drop_last() =~= rv.take(i as int));
                assert(rv.take(i + 1).last() == rv[i as int]);
            }
            if r.line.as_str().unicode_len() > 0 {
                line = match parse_usize(r.line.as_str()) {
                    Some(n) => n,
                    None => 0,
                };
            }
            let offset = match parse_usize(r.off.as_str()) {
                Some(n) => n,
                None => 0,
            };
            let arg = if r.a.as_str().unicode_len() > 0 {
                match parse_usize(r.a.as_str()) {
                    Some(n) => Some(n),
                    None => Some(0),
                }
            } else {
                None
            };
            let real_arg = if r.ra.as_str().unicode_len() > 0 {
                Some(String::from_str(r.ra.as_str()))
            } else {
                None
            };
            lines.push(BytecodeLine {
                offset,
                bytecode: BytecodeType::get(r.bc.as_str()),
                arg,
                real_arg,
                jump_offset: None,
            });
            i = i + 1;
        }
        proof {
            assert(rv.take(rows@.len() as int) =~= rv);
        }
        PyObj { line, retractions: 0, bytecode_lines: lines }
    }

    /// The instructions of the disassembly text of one source line.
    pub fn from(py_line_str: &str) -> (r: PyObj)
        requires
            rows_fit(line_rows(py_line_str@)),
        ensures
            read_from(r, line_rows(py_line_str@)),
    {
        let rows = capture_line_rows(py_line_str);
        PyObj::from_rows(&rows)
    }

    /// The instructions of the disassembly text of one source line, or
    /// `None` where an offset or argument does not fit or an opcode name is
    /// unknown.
    pub fn try_from_text(py_line_str: &str) -> (r: Option<PyObj>)
        ensures
            match r {
                None => !rows_fit(line_rows(py_line_str@)),
                Some(o) => rows_fit(line_rows(py_line_str@)) && read_from(o, line_rows(py_line_str@)),
            },
    {
        let rows = capture_line_rows(py_line_str);
        if rows_ok(&rows) {
            Some(PyObj::from(py_line_str))
        } else {
            None
        }
    }
}

/// Whether every row can be read.
fn rows_ok(rows: &Vec<LineRow>) -> (r: bool)
    ensures
        r == rows_fit(line_rows_view(rows@)),
{
    let ghost rv = line_rows_view(rows@);
    let mut i: usize = 0;
    while i < rows.len()
        invariant
            i <= rows@.len(),
            rv == line_rows_view(rows@),
            forall|j: int| 0 <= j < i ==> row_fits(#[trigger] rv[j]),
        decreases rows@.len() - i,
    {
        let r = &rows[i];
        assert(rv[i as int] == line_row_view(*r));
        if parse_usize(r.off.as_str()).is_none() {
            return false;
        }
        if super::types::classify_name(r.bc.as_str()).is_none() {
            return false;
        }
        if r.a.as_str().unicode_len() > 0 && parse_usize(r.a.as_str()).is_none() {
            return false;
        }
        i = i + 1;
    }
    true
}

/// A line's instructions by their parts, with its line number.
pub type ObjText = (usize, Seq<LineText>);

/// The line number and instructions of `o`.
pub open spec fn obj_view(o: PyObj) -> ObjText {
    (o.line, o.bytecode_lines@.map_values(|l: BytecodeLine| line_view(l)))
}

/// Whether the line numbers of `g` strictly increase.
pub open spec fn ascending(g: Seq<ObjText>) -> bool {
    forall|i: int, j: int| 0 <= i < j < g.len() ==> g[i].0 < g[j].0
}

/// `o` merged into `acc`, whose line numbers strictly increase: its
/// instructions appended to those of the entry with its line number, or a
/// new entry in line order.
pub open spec fn group_insert(acc: Seq<ObjText>, o: ObjText) -> Seq<ObjText>
    decreases acc.len(),
{
    if acc.len() == 0 {
        seq![o]
    } else if acc.last().0 == o.0 {
        acc.drop_last().push((o.0, acc.last().1 + o.1))
    } else if acc.last().0 < o.0 {
        acc.push(o)
    } else {
        group_insert(acc.drop_last(), o).push(acc.last())
    }
}

/// The lines `os` merged by line number, in line order; the instructions
/// of one line number keep the order in which they came.
pub open spec fn group_all(os: Seq<ObjText>) -> Seq<ObjText>
    decreases os.len(),
{
    if os.len() == 0 {
        Seq::empty()
    } else {
        group_insert(group_all(os.drop_last()), os.last())
    }
}

/// Merging at position `p`: where the entries from `p` on have larger line
/// numbers and the one before does not.
proof fn lemma_group_insert_at(acc: Seq<ObjText>, o: ObjText, p: int)
    requires
        ascending(acc),
        0 <= p <= acc.len(),
        forall|j: int| p <= j < acc.len() ==> #[trigger] acc[j].0 > o.0,
        p == 0 || acc[p - 1].0 <= o.0,
    ensures
        p > 0 && acc[p - 1].0 == o.0 ==> group_insert(acc, o) == acc.update(
            p - 1,
            (o.0, acc[p - 1].1 + o.1),
        ),
        !(p > 0 && acc[p - 1].0 == o.0) ==> group_insert(acc, o) == acc.insert(p, o),
        ascending(group_insert(acc, o)),
    decreases acc.len(),
{
    if acc.len() == 0 {
        assert(acc.insert(p, o) =~= seq![o]);
    } else if acc.last().0 == o.0 {
        assert(p == acc.len());
        assert(acc.drop_last().push((o.0, acc.last().1 + o.1)) =~= acc.update(
            p - 1,
            (o.0, acc[p - 1].1 + o.1),
        ));
    } else if acc.last().0 < o.0 {
        assert(p == acc.len());
        assert(acc.insert(p, o) =~= acc.push(o));
    } else {
        let d = acc.drop_last();
        lemma_group_insert_at(d, o, p);
        if p > 0 && acc[p - 1].0 == o.0 {
            assert(d.update(p - 1, (o.0, acc[p - 1].1 + o.1)).push(acc.last()) =~= acc.update(
                p - 1,
                (o.0, acc[p - 1].1 + o.1),
            ));
        } else {
            assert(d.insert(p, o).push(acc.last()) =~= acc.insert(p, o));
        }
        let g = group_insert(acc, o);
        assert forall|i: int, j: int| 0 <= i < j < g.len() implies g[i].0 < g[j].0 by {
            if p > 0 && acc[p - 1].0 == o.0 {
            } else {
                if i < p && j > p {
                    assert(g[i] == acc[i]);
                    assert(g[j] == acc[j - 1]);
                }
            }
        }
    }
}

/// Merging keeps the line numbers strictly increasing.
proof fn lemma_group_all_ascending(os: Seq<ObjText>)
    ensures
        ascending(group_all(os)),
    decreases os.len(),
{
    if os.len() > 0 {
        lemma_group_all_ascending(os.drop_last());
        let acc = group_all(os.drop_last());
        let o = os.last();
        let p = choose_position(acc, o);
        lemma_choose_position(acc, o);
        lemma_group_insert_at(acc, o, p);
    }
}

/// The position where `o` goes in `acc`.
spec fn choose_position(acc: Seq<ObjText>, o: ObjText) -> int
    decreases acc.len(),
{
    if acc.len() == 0 {
        0
    } else if acc.last().0 <= o.0 {
        acc.len() as int
    } else {
        choose_position(acc.drop_last(), o)
    }
}

/// The position where `o` goes satisfies the conditions of merging there.
proof fn lemma_choose_position(acc: Seq<ObjText>, o: ObjText)
    requires
        ascending(acc),
    ensures
        0 <= choose_position(acc, o) <= acc.len(),
        forall|j: int| choose_position(acc, o) <= j < acc.len() ==> #[trigger] acc[j].0 > o.0,
        choose_position(acc, o) == 0 || acc[choose_position(acc, o) - 1].0 <= o.0,
    decreases acc.len(),
{
    if acc.len() > 0 && acc.last().0 > o.0 {
        lemma_choose_position(acc.drop_last(), o);
        assert forall|j: int| choose_position(acc, o) <= j < acc.len() implies #[trigger] acc[j].0
            > o.0 by {
            if j < acc.len() - 1 {
                assert(acc.drop_last()[j] == acc[j]);
            }
        }
    }
}

/// Merges `o` into `acc`.
fn group_insert_exec(acc: &mut Vec<PyObj>, o: PyObj)
    requires
        ascending(old(acc)@.map_values(|x: PyObj| obj_view(x))),
        forall|k: int| 0 <= k < old(acc)@.len() ==> (#[trigger] old(acc)@[k]).retractions == 0,
        o.retractions == 0,
    ensures
        final(acc)@.map_values(|x: PyObj| obj_view(x)) == group_insert(
            old(acc)@.map_values(|x: PyObj| obj_view(x)),
            obj_view(o),
        ),
        ascending(final(acc)@.map_values(|x: PyObj| obj_view(x))),
        forall|k: int| 0 <= k < final(acc)@.len() ==> (#[trigger] final(acc)@[k]).retractions == 0,
{
    let ghost a0 = acc@.map_values(|x: PyObj| obj_view(x));
    let ghost ov = obj_view(o);
    let mut p = acc.len();
    while p > 0 && acc[p - 1].line > o.line
        invariant
            p <= acc@.len(),
            a0 == acc@.map_values(|x: PyObj| obj_view(x)),
            forall|j: int| p <= j < a0.len() ==> #[trigger] a0[j].0 > ov.0,
            ov == obj_view(o),
        decreases p,
    {
        assert(a0[p - 1] == obj_view(acc@[p - 1]));
        p = p - 1;
    }
    if p > 0 {
        assert(a0[p - 1] == obj_view(acc@[p - 1]));
    }
    proof {
        lemma_group_insert_at(a0, ov, p as int);
    }
    let ghost before = acc@;
    if p > 0 && acc[p - 1].line == o.line {
        let mut e = acc.remove(p - 1);
        let ghost ev = obj_view(e);
        let mut more = o.bytecode_lines;
        let ghost mv = more@;
        let ghost el = e.bytecode_lines@;
        e.bytecode_lines.append(&mut more);
        proof {
            assert(e.bytecode_lines@.map_values(|l: BytecodeLine| line_view(l)) =~= ev.1 + mv.map_values(
                |l: BytecodeLine| line_view(l),
            ));
        }
        acc.insert(p - 1, e);
        proof {
            assert(acc@ =~= before.update(p - 1, e));
            assert(acc@.map_values(|x: PyObj| obj_view(x)) =~= a0.update(
                p - 1,
                (ov.0, a0[p - 1].1 + ov.1),
            ));
        }
    } else {
        acc.insert(p, o);
        proof {
            assert(acc@.map_values(|x: PyObj| obj_view(x)) =~= a0.insert(p as int, ov));
        }
    }
}

/// `s` without its leading white space.
pub open spec fn trim_ws_start(s: Seq<char>) -> Seq<char>
    decreases s.len(),
{
    if s.len() > 0 && white_space(s[0]) {
        trim_ws_start(s.drop_first())
    } else {
        s
    }
}

/// What `str::trim` gives: `s` without leading and trailing white space.
pub open spec fn trim_ws(s: Seq<char>) -> Seq<char> {
    trim_ws_start(trim_ws_end(s))
}

/// `s` without leading and trailing white space.
fn trim_ws_exec(s: &str) -> (r: String)
    ensures
        r@ == trim_ws(s@),
{
    let n = s.unicode_len();
    let mut e: usize = n;
    assert(s@.subrange(0, n as int) =~= s@);
    while e > 0 && is_ws(s.get_char(e - 1))
        invariant
            e <= n,
            n == s@.len(),
            trim_ws_end(s@) == trim_ws_end(s@.subrange(0, e as int)),
        decreases e,
    {
        assert(s@.subrange(0, e as int).drop_last() =~= s@.subrange(0, e - 1));
        e = e - 1;
    }
    let ghost t = s@.subrange(0, e as int);
    assert(trim_ws_end(t) == t);
    let mut b: usize = 0;
    assert(t.subrange(0, t.len() as int) =~= t);
    while b < e && is_ws(s.get_char(b))
        invariant
            b <= e <= n,
            n == s@.len(),
            t == s@.subrange(0, e as int),
            trim_ws_start(t) == trim_ws_start(s@.subrange(b as int, e as int)),
        decreases e - b,
    {
        assert(s@.subrange(b as int, e as int).drop_first() =~= s@.subrange(b + 1, e as int));
        b = b + 1;
    }
    assert(trim_ws_start(s@.subrange(b as int, e as int)) == s@.subrange(b as int, e as int));
    String::from_str(s.substring_char(b, e))
}

/// The lines `ls` in groups, a blank line ending each group; the blank
/// lines themselves are dropped. There is one group more than there are
/// blank lines.
pub open spec fn line_groups(ls: Seq<Seq<char>>) -> Seq<Seq<Seq<char>>>
    decreases ls.len(),
{
    if ls.len() == 0 {
        seq![Seq::empty()]
    } else {
        let g = line_groups(ls.drop_last());
        if blank(ls.last()) {
            g.push(Seq::empty())
        } else {
            g.update(g.len() - 1, g.last().push(ls.last()))
        }
    }
}

/// There is always a group.
proof fn lemma_line_groups_len(ls: Seq<Seq<char>>)
    ensures
        line_groups(ls).len() >= 1,
    decreases ls.len(),
{
    if ls.len() > 0 {
        lemma_line_groups_len(ls.drop_last());
    }
}

/// The texts of the code blocks: the trimmed code cut into lines, grouped
/// between blank lines, the first group left out, each group's lines joined.
pub open spec fn code_blocks(code: Seq<char>) -> Seq<Seq<char>> {
    let g = line_groups(split_seq(trim_ws(code), "\n"@));
    g.drop_first().map_values(|b: Seq<Seq<char>>| join_seq(b, "\n"@))
}

/// The line number and instructions of a block.
pub open spec fn block_obj(t: Seq<char>) -> ObjText {
    (rows_line(line_rows(t)), line_rows(t).map_values(|r: RowText| row_line(r)))
}

/// Whether every block of the code can be read.
pub open spec fn code_fits(code: Seq<char>) -> bool {
    forall|i: int| 0 <= i < code_blocks(code).len() ==> rows_fit(line_rows(#[trigger] code_blocks(code)[i]))
}

/// The lines of the code: the blocks merged by line number, in line order.
pub open spec fn code_objs(code: Seq<char>) -> Seq<ObjText> {
    group_all(code_blocks(code).map_values(|t: Seq<char>| block_obj(t)))
}

/// The groups of an executable list of groups.
pub open spec fn groups_view(v: Seq<Vec<String>>) -> Seq<Seq<Seq<char>>> {
    v.map_values(|g: Vec<String>| strings_view(g@))
}

/// The lines `lines` in groups between blank lines.
fn group_lines(lines: &Vec<String>) -> (r: Vec<Vec<String>>)
    ensures
        groups_view(r@) == line_groups(strings_view(lines@)),
{
    let ghost lv = strings_view(lines@);
    let mut groups: Vec<Vec<String>> = Vec::new();
    let e0: Vec<String> = Vec::new();
    assert(strings_view(e0@) =~= Seq::<Seq<char>>::empty());
    groups.push(e0);
    let mut i: usize = 0;
    proof {
        assert(lv.take(0) =~= Seq::<Seq<char>>::empty());
        assert(groups_view(groups@) =~= seq![Seq::<Seq<char>>::empty()]);
    }
    while i < lines.len()
        invariant
            i <= lines@.len(),
            lv == strings_view(lines@),
            groups@.len() >= 1,
            groups_view(groups@) == line_groups(lv.take(i as int)),
        decreases lines@.len() - i,
    {
        proof {
            assert(lv.take(i + 1).drop_last() =~= lv.take(i as int));
            assert(lv.take(i + 1).last() == lv[i as int]);
            assert(lv[i as int] == lines@[i as int]@);
        }
        let ghost g0 = groups@;
        if is_blank(lines[i].as_str()) {
            let e: Vec<String> = Vec::new();
            assert(strings_view(e@) =~= Seq::<Seq<char>>::empty());
            groups.push(e);
            proof {
                assert(groups_view(groups@) =~= groups_view(g0).push(Seq::empty()));
            }
        } else {
            let mut g = match groups.pop() {
                Some(g) => g,
                None => Vec::new(),
            };
            let ghost gv = strings_view(g@);
            g.push(String::from_str(lines[i].as_str()));
            let ghost gv2 = strings_view(g@);
            assert(gv2 =~= gv.push(lv[i as int]));
            groups.push(g);
            proof {
                assert(groups_view(groups@) =~= groups_view(g0).update(
                    g0.len() - 1,
                    groups_view(g0).last().push(lv[i as int]),
                ));
            }
        }
        i = i + 1;
    }
    proof {
        assert(lv.take(lines@.len() as int) =~= lv);
    }
    groups
}

/// Disassembly text, cut into blocks by blank lines.
#[derive(Debug)]
pub struct PyCodeString {
    pub code: String,
}

impl From<String> for PyCodeString {
    fn from(code: String) -> (r: PyCodeString) {
        PyCodeString { code }
    }
}

impl vstd::std_specs::convert::FromSpecImpl<String> for PyCodeString {
    open spec fn obeys_from_spec() -> bool {
        true
    }

    open spec fn from_spec(code: String) -> PyCodeString {
        PyCodeString { code }
    }
}

/// The written lines of a disassembly, one per source line.
#[derive(Debug)]
pub struct PyObjs {
    pub objs: Vec<PyObj>,
}

impl PyCodeString {
    /// The source lines of the disassembly: its blocks (all but the text
    /// before the first blank line) read as instructions and merged by line
    /// number, in line order.
    pub fn to_pyobjs(&self) -> (r: PyObjs)
        requires
            code_fits(self.code@),
        ensures
            r.objs@.map_values(|x: PyObj| obj_view(x)) == code_objs(self.code@),
            forall|k: int| 0 <= k < r.objs@.len() ==> (#[trigger] r.objs@[k]).retractions == 0,
    {
        let ghost code = self.code@;
        let t = trim_ws_exec(self.code.as_str());
        proof {
            reveal_strlit("\n");
        }
        let lines = split(t.as_str(), "\n");
        let groups = group_lines(&lines);
        let ghost blocks = code_blocks(code);
        let ghost os = blocks.map_values(|b: Seq<char>| block_obj(b));
        let ghost gv = groups_view(groups@);
        proof {
            lemma_line_groups_len(split_seq(trim_ws(code), "\n"@));
            assert(blocks.len() == groups@.len() - 1);
        }
        let mut objs: Vec<PyObj> = Vec::new();
        let mut k: usize = 1;
        proof {
            assert(os.take(0) =~= Seq::<ObjText>::empty());
            assert(objs@.map_values(|x: PyObj| obj_view(x)) =~= Seq::<ObjText>::empty());
        }
        while k < groups.len()
            invariant
                1 <= k <= groups@.len(),
                blocks == code_blocks(code),
                code == self.code@,
                code_fits(code),
                gv == groups_view(groups@),
                blocks.len() == groups@.len() - 1,
                blocks == gv.drop_first().map_values(|b: Seq<Seq<char>>| join_seq(b, "\n"@)),
                os == blocks.map_values(|b: Seq<char>| block_obj(b)),
                objs@.map_values(|x: PyObj| obj_view(x)) == group_all(os.take(k - 1)),
                ascending(objs@.map_values(|x: PyObj| obj_view(x))),
                forall|j: int| 0 <= j < objs@.len() ==> (#[trigger] objs@[j]).retractions == 0,
            decreases groups@.len() - k,
        {
            let text = join(&groups[k], "\n");
            proof {
                assert(gv[k as int] == strings_view(groups@[k as int]@));
                assert(text@ == blocks[k - 1]);
                assert(rows_fit(line_rows(blocks[k - 1])));
            }
            let o = PyObj::from(text.as_str());
            proof {
                let rows = line_rows(text@);
                assert(obj_view(o).1 =~= rows.map_values(|r: RowText| row_line(r)));
                assert(obj_view(o) == os[k - 1]);
                assert(os.take(k as int).drop_last() =~= os.take(k - 1));
                assert(os.take(k as int).last() == os[k - 1]);
            }
            group_insert_exec(&mut objs, o);
            k = k + 1;
        }
        proof {
            assert(os.take(groups@.len() - 1) =~= os);
        }
        PyObjs { objs }
    }
}

impl PyCodeString {
    /// Whether every block of the code can be read.
    fn fits(&self) -> (r: bool)
        ensures
            r == code_fits(self.code@),
    {
        let ghost code = self.code@;
        let t = trim_ws_exec(self.code.as_str());
        proof {
            reveal_strlit("\n");
        }
        let lines = split(t.as_str(), "\n");
        let groups = group_lines(&lines);
        let ghost blocks = code_blocks(code);
        let ghost gv = groups_view(groups@);
        proof {
            lemma_line_groups_len(split_seq(trim_ws(code), "\n"@));
        }
        let mut k: usize = 1;
        while k < groups.len()
            invariant
                1 <= k <= groups@.len(),
                blocks == code_blocks(code),
                code == self.code@,
                gv == groups_view(groups@),
                blocks.len() == groups@.len() - 1,
                blocks == gv.drop_first().map_values(|b: Seq<Seq<char>>| join_seq(b, "\n"@)),
                forall|j: int| 0 <= j < k - 1 ==> rows_fit(line_rows(#[trigger] blocks[j])),
            decreases groups@.len() - k,
        {
            let text = join(&groups[k], "\n");
            proof {
                assert(gv[k as int] == strings_view(groups@[k as int]@));
                assert(text@ == blocks[k - 1]);
            }
            let rows = capture_line_rows(text.as_str());
            if !rows_ok(&rows) {
                return false;
            }
            k = k + 1;
        }
        true
    }

    /// The source lines of the disassembly, or `None` where a block cannot
    /// be read.
    pub fn try_to_pyobjs(&self) -> (r: Option<PyObjs>)
        ensures
            match r {
                None => !code_fits(self.code@),
                Some(o) => code_fits(self.code@) && o.objs@.map_values(|x: PyObj| obj_view(x))
                    == code_objs(self.code@),
            },
    {
        if self.fits() {
            Some(self.to_pyobjs())
        } else {
            None
        }
    }
}

impl PyObjs {
    /// The written lines, or `None` where the machine stops on a line.
    pub fn try_to_pyscript(&self) -> (r: Option<Vec<PyScript>>)
        ensures
            r is Some <==> forall|k: int| 0 <= k < self.objs@.len() ==> python_of(
                (#[trigger] self.objs@[k]).bytecode_lines@,
            ) is Some,
            r matches Some(v) ==> v@.len() == self.objs@.len() && forall|k: int|
                0 <= k < v@.len() ==> (#[trigger] v@[k].line == self.objs@[k].line && (v@[k].script
                    matches Some(t) && t@ == repeat_seq("    "@, self.objs@[k].retractions as nat)
                    + python_of(self.objs@[k].bytecode_lines@)->0)),
    {
        let mut k: usize = 0;
        while k < self.objs.len()
            invariant
                k <= self.objs@.len(),
                forall|j: int| 0 <= j < k ==> python_of((#[trigger] self.objs@[j]).bytecode_lines@) is Some,
            decreases self.objs@.len() - k,
        {
            if self.objs[k].python_opt().is_none() {
                return None;
            }
            k = k + 1;
        }
        Some(self.to_pyscript())
    }

    /// The written line of each source line, indented by its retractions.
    pub fn to_pyscript(&self) -> (r: Vec<PyScript>)
        requires
            forall|k: int| 0 <= k < self.objs@.len() ==> python_of(
                (#[trigger] self.objs@[k]).bytecode_lines@,
            ) is Some,
        ensures
            r@.len() == self.objs@.len(),
            forall|k: int|
                0 <= k < r@.len() ==> (#[trigger] r@[k].line == self.objs@[k].line && (r@[k].script
                    matches Some(t) && t@ == repeat_seq("    "@, self.objs@[k].retractions as nat)
                    + python_of(self.objs@[k].bytecode_lines@)->0)),
    {
        let mut r: Vec<PyScript> = Vec::new();
        let mut k: usize = 0;
        while k < self.objs.len()
            invariant
                k <= self.objs@.len(),
                r@.len() == k,
                forall|j: int| 0 <= j < self.objs@.len() ==> python_of(
                    (#[trigger] self.objs@[j]).bytecode_lines@,
                ) is Some,
                forall|j: int|
                    0 <= j < k ==> (#[trigger] r@[j].line == self.objs@[j].line && (r@[j].script
                    matches Some(t) && t@ == repeat_seq("    "@, self.objs@[j].retractions as nat)
                    + python_of(self.objs@[j].bytecode_lines@)->0)),
            decreases self.objs@.len() - k,
        {
            let o = &self.objs[k];
            assert(python_of(o.bytecode_lines@) is Some);
            let script = o.to_python();
            let pad = repeat("    ", o.retractions);
            r.push(PyScript { line: o.line, script: Some(concat2(pad.as_str(), script.as_str())) });
            k = k + 1;
        }
        r
    }
}

/// The number of decimal digits of `n`.
pub open spec fn digits(n: nat) -> nat
    decreases n,
{
    if n < 10 {
        1
    } else {
        1 + digits(n / 10)
    }
}

/// A number has at most half its value and one digits.
proof fn lemma_digits_at_most(n: nat)
    ensures
        digits(n) <= n / 2 + 1,
    decreases n,
{
    if n >= 10 {
        lemma_digits_at_most(n / 10);
        assert(n / 10 / 2 + 2 <= n / 2 + 1) by (nonlinear_arith)
            requires
                n >= 10,
        ;
    }
}

/// The width of the line-number column when the written lines are shown:
/// one more than the digits of the last line number.
pub fn display_width(pyscripts: &[PyScript]) -> (r: usize)
    requires
        pyscripts@.len() > 0,
    ensures
        r == digits(pyscripts@.last().line as nat) + 1,
{
    let mut n = pyscripts[pyscripts.len() - 1].line;
    let ghost n0 = n as nat;
    let mut d: usize = 1;
    proof {
        lemma_digits_at_most(n0);
    }
    while n >= 10
        invariant
            1 <= d,
            n <= n0,
            n0 <= usize::MAX,
            digits(n0) <= n0 / 2 + 1,
            d + digits(n as nat) == digits(n0) + 1,
        decreases n,
    {
        n = n / 10;
        d = d + 1;
    }
    d + 1
}


/// The source lines of a disassembly come out in strictly increasing line
/// order: each line number once.
pub proof fn law_source_lines_ascending(code: Seq<char>)
    ensures
        ascending(code_objs(code)),
{
    lemma_group_all_ascending(code_blocks(code).map_values(|t: Seq<char>| block_obj(t)));
}

/// Loading a constant and storing it under a name writes the assignment
/// `name = value`, for a value other than `None` that does not mention an
/// import.
pub proof fn law_load_then_store(ls: Seq<BytecodeLine>, value: Seq<char>, name: Seq<char>)
    requires
        ls.len() == 2,
        ls[0].bytecode == BytecodeType::Load,
        opt_chars(ls[0].real_arg) == Some(value),
        value != "None"@,
        !contains_seq(value, "import"@),
        ls[1].bytecode == BytecodeType::Store,
        opt_chars(ls[1].real_arg) == Some(name),
    ensures
        python_of(ls) == Some(name + " = "@ + value),
{
    let s0: Stack = Seq::empty();
    let s1 = s0.push(Some(value));
    assert(py_step(s0, ls[0].bytecode, ls[0].arg, opt_chars(ls[0].real_arg)) == Some(s1));
    let s2 = Seq::<Option<Seq<char>>>::empty().push(Some(name + " = "@ + value));
    assert(pop1(s1) == Some((value, s0)));
    assert(s0.push(Some(name + " = "@ + value)) == s2);
    assert(py_step(s1, ls[1].bytecode, ls[1].arg, opt_chars(ls[1].real_arg)) == Some(s2));
    assert(ls.drop_first().drop_first() =~= Seq::<BytecodeLine>::empty());
    assert(ls.drop_first()[0] == ls[1]);
    assert(py_run(s2, ls.drop_first().drop_first()) == Some(s2));
    assert(py_run(s1, ls.drop_first()) == Some(s2));
    assert(pop1(s2) == Some((name + " = "@ + value, s0)));
}

/// A membership test of the top two texts `l` and `r` writes `l in r` for
/// argument 0 and `l not in r` for argument 1; an identity test writes
/// `l is r` and `l is not r`. The rest of the stack is kept.
pub proof fn law_membership_and_identity_tests(st: Stack, l: Seq<char>, r: Seq<char>, ra: Option<Seq<char>>)
    ensures
        py_step(st.push(Some(l)).push(Some(r)), BytecodeType::Binary(Binary::In), Some(0usize), ra)
            == Some(st.push(Some(l + " in "@ + r))),
        py_step(st.push(Some(l)).push(Some(r)), BytecodeType::Binary(Binary::In), Some(1usize), ra)
            == Some(st.push(Some(l + " not in "@ + r))),
        py_step(st.push(Some(l)).push(Some(r)), BytecodeType::Binary(Binary::Is), Some(0usize), ra)
            == Some(st.push(Some(l + " is "@ + r))),
        py_step(st.push(Some(l)).push(Some(r)), BytecodeType::Binary(Binary::Is), Some(1usize), ra)
            == Some(st.push(Some(l + " is not "@ + r))),
{
    reveal_strlit(" ");
    reveal_strlit("in");
    reveal_strlit("not in");
    reveal_strlit("is");
    reveal_strlit("is not");
    reveal_strlit(" in ");
    reveal_strlit(" not in ");
    reveal_strlit(" is ");
    reveal_strlit(" is not ");
    let s2 = st.push(Some(l)).push(Some(r));
    assert(s2.drop_last() =~= st.push(Some(l)));
    assert(st.push(Some(l)).drop_last() =~= st);
    assert(l + " "@ + "in"@ + " "@ + r =~= l + " in "@ + r);
    assert(l + " "@ + "not in"@ + " "@ + r =~= l + " not in "@ + r);
    assert(l + " "@ + "is"@ + " "@ + r =~= l + " is "@ + r);
    assert(l + " "@ + "is not"@ + " "@ + r =~= l + " is not "@ + r);
}

/// A load pushes its argument text (the value `None` for the text
/// `None`); a store of a value `v` to `n` writes `n = v` when `v` is no
/// import; a subscript of the top two texts `t` and `i` writes `t[i]`; a
/// binary operation writes `l op r` with the operator's own symbol; a
/// unary operation puts its prefix (`not `, `-`, `~`) before the top text.
pub proof fn law_stack_steps(
    st: Stack,
    x: Seq<char>,
    y: Seq<char>,
    a: Option<usize>,
    r: Seq<char>,
    o: OP,
)
    ensures
        r != "None"@ ==> py_step(st, BytecodeType::Load, a, Some(r)) == Some(st.push(Some(r))),
        py_step(st, BytecodeType::Load, a, Some("None"@)) == Some(st.push(None)),
        !contains_seq(x, "import"@) ==> py_step(st.push(Some(x)), BytecodeType::Store, a, Some(r))
            == Some(st.push(Some(r + " = "@ + x))),
        py_step(st.push(Some(x)).push(Some(y)), BytecodeType::Binary(Binary::Subscr), a, Some(r))
            == Some(st.push(Some(x + "["@ + y + "]"@))),
        py_step(st.push(Some(x)).push(Some(y)), BytecodeType::Binary(Binary::Op), a, Some(o.symbol()))
            == Some(st.push(Some(x + " "@ + o.symbol() + " "@ + y))),
        py_step(st.push(Some(x)), BytecodeType::Unary(super::types::Unary::Not), a, Some(r)) == Some(
            st.push(Some("not "@ + x)),
        ),
        py_step(st.push(Some(x)), BytecodeType::Unary(super::types::Unary::Neg), a, Some(r)) == Some(
            st.push(Some("-"@ + x)),
        ),
        py_step(st.push(Some(x)), BytecodeType::Unary(super::types::Unary::Invert), a, Some(r))
            == Some(st.push(Some("~"@ + x))),
{
    let s1 = st.push(Some(x));
    let s2 = s1.push(Some(y));
    assert(s1.drop_last() =~= st);
    assert(s2.drop_last() =~= s1);
    assert(OP::spelled(o.symbol()) is Some);
}

/// A slice of the top three texts `t`, `a`, `b` writes `t[a:b]`; a call
/// with two arguments of the texts `f`, `x`, `y` writes `f(x, y)`, the
/// arguments in order; a tuple of the two texts `x`, `y` writes `x, y`; an
/// empty list is `[]`, an empty set or dictionary `{}`.
pub proof fn law_slices_calls_and_builds(
    st: Stack,
    t: Seq<char>,
    x: Seq<char>,
    y: Seq<char>,
    ra: Option<Seq<char>>,
)
    ensures
        py_step(
            st.push(Some(t)).push(Some(x)).push(Some(y)),
            BytecodeType::Binary(Binary::Slice),
            None,
            ra,
        ) == Some(st.push(Some(t + "["@ + x + ":"@ + y + "]"@))),
        py_step(st.push(Some(t)).push(Some(x)).push(Some(y)), BytecodeType::Call, Some(2usize), ra)
            == Some(st.push(Some(t + "("@ + x + ", "@ + y + ")"@))),
        py_step(
            st.push(Some(x)).push(Some(y)),
            BytecodeType::Build(ValueType::Tuple),
            Some(2usize),
            ra,
        ) == Some(st.push(Some(x + ", "@ + y))),
        py_step(st, BytecodeType::Build(ValueType::List), Some(0usize), ra) == Some(
            st.push(Some("[]"@)),
        ),
        py_step(st, BytecodeType::Build(ValueType::SetValue), Some(0usize), ra) == Some(
            st.push(Some("{}"@)),
        ),
        py_step(st, BytecodeType::Build(ValueType::Dict), Some(0usize), ra) == Some(
            st.push(Some("{}"@)),
        ),
{
    let s1 = st.push(Some(t));
    let s2 = s1.push(Some(x));
    let s3 = s2.push(Some(y));
    assert(s1.drop_last() =~= st);
    assert(s2.drop_last() =~= s1);
    assert(s3.drop_last() =~= s2);
    let xy: Seq<Seq<char>> = seq![x, y];
    assert(pop_n(s1, 0) == Some((Seq::<Seq<char>>::empty(), s1)));
    assert(Seq::<Seq<char>>::empty().push(x) =~= seq![x]);
    assert(pop_n(s2, 1) == Some((seq![x], s1)));
    assert(seq![x].push(y) =~= xy);
    assert(pop_n(s3, 2) == Some((xy, s1)));
    assert(join_seq(xy.drop_last(), ", "@) == x) by {
        assert(xy.drop_last() =~= seq![x]);
    }
    assert(join_seq(xy, ", "@) == x + ", "@ + y);
    assert(t + "("@ + join_seq(xy, ", "@) + ")"@ =~= t + "("@ + x + ", "@ + y + ")"@);
    let s2b = st.push(Some(x)).push(Some(y));
    assert(s2b.drop_last() =~= st.push(Some(x)));
    assert(st.push(Some(x)).drop_last() =~= st);
    assert(pop_n(st, 0) == Some((Seq::<Seq<char>>::empty(), st)));
    assert(pop_n(st.push(Some(x)), 1) == Some((seq![x], st)));
    assert(pop_n(s2b, 2) == Some((xy, st)));
}

/// A list, set or dictionary build of the two texts `x` and `y` writes
/// the parenthesised part of `x, y` in its own brackets: square brackets
/// for a list, braces for a set or dictionary.
pub proof fn law_builds_bracket_their_kind(st: Stack, x: Seq<char>, y: Seq<char>, ra: Option<Seq<char>>)
    ensures
        py_step(st.push(Some(x)).push(Some(y)), BytecodeType::Build(ValueType::List), Some(2usize), ra)
            == Some(st.push(Some("["@ + paren_text(x + ", "@ + y) + "]"@))),
        py_step(
            st.push(Some(x)).push(Some(y)),
            BytecodeType::Build(ValueType::SetValue),
            Some(2usize),
            ra,
        ) == Some(st.push(Some("{"@ + paren_text(x + ", "@ + y) + "}"@))),
        py_step(st.push(Some(x)).push(Some(y)), BytecodeType::Build(ValueType::Dict), Some(2usize), ra)
            == Some(st.push(Some("{"@ + paren_text(x + ", "@ + y) + "}"@))),
{
    let s1 = st.push(Some(x));
    let s2 = s1.push(Some(y));
    let xy: Seq<Seq<char>> = seq![x, y];
    assert(s2.drop_last() =~= s1);
    assert(s1.drop_last() =~= st);
    assert(pop_n(st, 0) == Some((Seq::<Seq<char>>::empty(), st)));
    assert(Seq::<Seq<char>>::empty().push(x) =~= seq![x]);
    assert(pop_n(s1, 1) == Some((seq![x], st)));
    assert(seq![x].push(y) =~= xy);
    assert(pop_n(s2, 2) == Some((xy, st)));
    assert(join_seq(xy.drop_last(), ", "@) == x) by {
        assert(xy.drop_last() =~= seq![x]);
    }
    assert(join_seq(xy, ", "@) == x + ", "@ + y);
}

} // verus!
