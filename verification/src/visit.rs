//! Turning stored expressions back into Python source text.
//!
//! The text is a list of lines. Writing appends to the last line (or starts
//! the first one); a line break starts a new, empty line. The spec functions
//! below give the lines that visiting a node produces; child nodes are
//! followed through the [`QueryMap`] they are filed in.

use vstd::prelude::*;
use crate::ast::{
    Alias, Assign, Attribute, BaseValue, BinaryOperation, Call, Class, Container, ContainerType,
    ExpressionEnum, FastVariable, Function, UnaryOperation, UnaryType,
};
use crate::query::{QueryMap, get_helper};
use crate::query_id::QueryId;
use crate::text::{contains_seq, contains_str, repeat, repeat_seq, split, split_seq, str_eq,
    strings_view, trim_both_seq, trim_matches};

verus! {

/// `t` written at the end of the last line; the first line if there is none.
pub open spec fn put(out: Seq<Seq<char>>, t: Seq<char>) -> Seq<Seq<char>> {
    if out.len() == 0 {
        seq![t]
    } else {
        out.drop_last().push(out.last() + t)
    }
}

/// A new, empty line.
pub open spec fn newline(out: Seq<Seq<char>>) -> Seq<Seq<char>> {
    out.push(Seq::<char>::empty())
}

/// A new line that starts with `ind` spaces.
pub open spec fn indent_line(out: Seq<Seq<char>>, ind: nat) -> Seq<Seq<char>> {
    put(newline(out), repeat_seq(" "@, ind))
}

/// A new indented line holding `t`.
pub open spec fn indent_with(out: Seq<Seq<char>>, ind: nat, t: Seq<char>) -> Seq<Seq<char>> {
    put(indent_line(out, ind), t)
}

/// `t` written with `left` before and `right` after it; an empty `left` or
/// `right` is not written at all.
pub open spec fn padded(out: Seq<Seq<char>>, t: Seq<char>, left: Seq<char>, right: Seq<char>) -> Seq<
    Seq<char>,
> {
    let a = if left.len() > 0 {
        put(out, left)
    } else {
        out
    };
    let b = put(a, t);
    if right.len() > 0 {
        put(b, right)
    } else {
        b
    }
}

/// The characters with the Unicode `White_Space` property.
pub open spec fn white_space(c: char) -> bool {
    ||| '\u{9}' <= c <= '\u{d}'
    ||| c == ' '
    ||| c == '\u{85}'
    ||| c == '\u{a0}'
    ||| c == '\u{1680}'
    ||| '\u{2000}' <= c <= '\u{200a}'
    ||| c == '\u{2028}'
    ||| c == '\u{2029}'
    ||| c == '\u{202f}'
    ||| c == '\u{205f}'
    ||| c == '\u{3000}'
}

/// Nothing but white space.
pub open spec fn blank(s: Seq<char>) -> bool {
    forall|i: int| 0 <= i < s.len() ==> white_space(#[trigger] s[i])
}

/// `s` without one trailing carriage return.
pub open spec fn strip_cr(s: Seq<char>) -> Seq<char> {
    if s.len() > 0 && s.last() == '\r' {
        s.drop_last()
    } else {
        s
    }
}

/// The lines of `s`: split at each line feed, a carriage return before a
/// line feed dropped.
pub open spec fn text_lines(s: Seq<char>) -> Seq<Seq<char>> {
    let p = split_seq(s, "\n"@);
    Seq::new(p.len(), |i: int| if i < p.len() - 1 { strip_cr(p[i]) } else { p[i] })
}

/// Each line of `ls` that is not blank, on an indented line of its own.
pub open spec fn indent_lines(out: Seq<Seq<char>>, ls: Seq<Seq<char>>, ind: nat) -> Seq<Seq<char>>
    decreases ls.len(),
{
    if ls.len() == 0 {
        out
    } else {
        let o = if blank(ls[0]) {
            out
        } else {
            indent_with(out, ind, ls[0])
        };
        indent_lines(o, ls.drop_first(), ind)
    }
}

/// Three double quotes.
pub open spec fn triple_quote() -> Seq<char> {
    "\"\"\""@
}

/// A class docstring: the value without its enclosing single quotes, its
/// non-blank lines each on an indented line, between lines of three double
/// quotes.
pub open spec fn render_docstring(out: Seq<Seq<char>>, value: Seq<char>, ind: nat) -> Seq<
    Seq<char>,
> {
    let body = text_lines(trim_both_seq(value, "'"@));
    indent_with(indent_lines(indent_with(out, ind, triple_quote()), body, ind), ind, triple_quote())
}

/// The text of a unary operator.
pub open spec fn unary_text(t: UnaryType) -> Seq<char> {
    match t {
        UnaryType::Not => "not "@,
        UnaryType::Invert => "~"@,
        UnaryType::Positive => "+"@,
        UnaryType::Negative => "-"@,
    }
}

/// A function argument: its name, then `: ` and its annotation if it has one.
pub open spec fn render_arg(out: Seq<Seq<char>>, v: FastVariable) -> Seq<Seq<char>> {
    let o = put(out, v.name@);
    match v.annotation {
        Some(a) => padded(o, a@, ": "@, ""@),
        None => o,
    }
}

/// A return annotation: ` -> ` and the annotation, if there is one. Only a
/// variable named `return` is accepted.
pub open spec fn render_return(out: Seq<Seq<char>>, v: FastVariable) -> Option<Seq<Seq<char>>> {
    if v.name@ != "return"@ {
        None
    } else {
        match v.annotation {
            Some(a) => Some(padded(out, a@, " -> "@, ""@)),
            None => Some(out),
        }
    }
}

/// The arguments `ids` (the first at index `k` of `total`) that are filed
/// variables, separated by commas.
pub open spec fn render_args(
    out: Seq<Seq<char>>,
    ids: Seq<QueryId>,
    k: nat,
    total: nat,
    map: QueryMap,
) -> Seq<Seq<char>>
    decreases ids.len(),
{
    if ids.len() == 0 {
        out
    } else {
        let o = match map.lookup(ids[0]) {
            Some(ExpressionEnum::FastVariable(v)) => {
                let o1 = render_arg(out, v);
                if k < total - 1 {
                    put(o1, ", "@)
                } else {
                    o1
                }
            },
            _ => out,
        };
        render_args(o, ids.drop_first(), k + 1, total, map)
    }
}

/// The parameter list and return annotation of a function.
pub open spec fn render_signature(out: Seq<Seq<char>>, f: Function, map: QueryMap) -> Option<
    Seq<Seq<char>>,
> {
    let o = put(render_args(put(out, "("@), f.args@, 0, f.args@.len(), map), ")"@);
    match f.ret {
        Some(r) => match map.lookup(r) {
            Some(ExpressionEnum::FastVariable(v)) => render_return(o, v),
            _ => Some(o),
        },
        None => Some(o),
    }
}

/// The value of a member's target when the target is a filed base value.
pub open spec fn member_target(m: Assign, map: QueryMap) -> Option<Seq<char>> {
    match m.target {
        Some(t) => match map.lookup(t) {
            Some(ExpressionEnum::BaseValue(b)) => Some(b.value@),
            _ => None,
        },
        None => None,
    }
}

/// `item`, reached through an id, rendered with one unit of `fuel` fewer;
/// nothing once the fuel is spent.
pub open spec fn found(
    out: Seq<Seq<char>>,
    item: ExpressionEnum,
    map: QueryMap,
    ind: nat,
    fuel: nat,
) -> Option<Seq<Seq<char>>>
    decreases fuel, 0nat, 0nat,
{
    if fuel == 0 {
        Some(out)
    } else {
        render(out, item, map, ind, (fuel - 1) as nat)
    }
}

/// The expression filed under `id`, if there is one.
pub open spec fn render_id(
    out: Seq<Seq<char>>,
    id: QueryId,
    map: QueryMap,
    ind: nat,
    fuel: nat,
) -> Option<Seq<Seq<char>>>
    decreases fuel, 0nat, 1nat,
{
    match map.lookup(id) {
        Some(e) => found(out, e, map, ind, fuel),
        None => Some(out),
    }
}

/// The expression filed under `id`, if there is an id and an expression.
pub open spec fn render_opt(
    out: Seq<Seq<char>>,
    id: Option<QueryId>,
    map: QueryMap,
    ind: nat,
    fuel: nat,
) -> Option<Seq<Seq<char>>>
    decreases fuel, 0nat, 2nat,
{
    match id {
        Some(q) => render_id(out, q, map, ind, fuel),
        None => Some(out),
    }
}

/// The expressions filed under `ids`, one after another.
pub open spec fn render_elems(
    out: Seq<Seq<char>>,
    ids: Seq<QueryId>,
    map: QueryMap,
    ind: nat,
    fuel: nat,
) -> Option<Seq<Seq<char>>>
    decreases fuel, 1nat, ids.len(),
{
    if ids.len() == 0 {
        Some(out)
    } else {
        match render_id(out, ids[0], map, ind, fuel) {
            Some(o) => render_elems(o, ids.drop_first(), map, ind, fuel),
            None => None,
        }
    }
}

/// The entries of a dictionary: keys at even indices, each value after
/// `: `; `k` is the index of the first of `ids`.
pub open spec fn render_dict(
    out: Seq<Seq<char>>,
    ids: Seq<QueryId>,
    k: nat,
    map: QueryMap,
    ind: nat,
    fuel: nat,
) -> Option<Seq<Seq<char>>>
    decreases fuel, 1nat, ids.len(),
{
    if ids.len() == 0 {
        Some(out)
    } else {
        let o = if k % 2 == 0 {
            out
        } else {
            put(out, ": "@)
        };
        match render_id(o, ids[0], map, ind, fuel) {
            Some(o1) => render_dict(o1, ids.drop_first(), k + 1, map, ind, fuel),
            None => None,
        }
    }
}

/// The arguments of a call, a comma after each but the last; `k` is the
/// index of the first of `ids` among `total`.
pub open spec fn render_call_args(
    out: Seq<Seq<char>>,
    ids: Seq<QueryId>,
    k: nat,
    total: nat,
    map: QueryMap,
    ind: nat,
    fuel: nat,
) -> Option<Seq<Seq<char>>>
    decreases fuel, 1nat, ids.len(),
{
    if ids.len() == 0 {
        Some(out)
    } else {
        match render_id(out, ids[0], map, ind, fuel) {
            Some(o) => {
                let o1 = if k < total - 1 {
                    put(o, ", "@)
                } else {
                    o
                };
                render_call_args(o1, ids.drop_first(), k + 1, total, map, ind, fuel)
            },
            None => None,
        }
    }
}

/// The statements of a function body, each on an indented line; an empty
/// line for an id with nothing filed.
pub open spec fn render_body(
    out: Seq<Seq<char>>,
    ids: Seq<QueryId>,
    map: QueryMap,
    ind: nat,
    fuel: nat,
) -> Option<Seq<Seq<char>>>
    decreases fuel, 1nat, ids.len(),
{
    if ids.len() == 0 {
        Some(out)
    } else {
        let o = match map.lookup(ids[0]) {
            Some(item) => found(indent_line(out, ind), item, map, ind, fuel),
            None => Some(newline(out)),
        };
        match o {
            Some(o1) => render_body(o1, ids.drop_first(), map, ind, fuel),
            None => None,
        }
    }
}

/// One member of a class: the docstring for `__doc__`, nothing for
/// `__module__` and `__qualname__`, the assignment otherwise; members that
/// are not assignments are not written.
pub open spec fn render_member(
    out: Seq<Seq<char>>,
    item: ExpressionEnum,
    map: QueryMap,
    ind: nat,
    fuel: nat,
) -> Option<Seq<Seq<char>>>
    decreases fuel, 0nat, 3nat,
{
    match item {
        ExpressionEnum::Assign(m) => match member_target(m, map) {
            Some(tv) => if tv == "__doc__"@ {
                match m.value {
                    Some(d) => match map.lookup(d) {
                        Some(ExpressionEnum::BaseValue(bv)) => Some(
                            render_docstring(out, bv.value@, ind),
                        ),
                        _ => Some(out),
                    },
                    None => Some(out),
                }
            } else if tv == "__module__"@ || tv == "__qualname__"@ {
                Some(out)
            } else {
                found(out, item, map, ind, fuel)
            },
            None => found(out, item, map, ind, fuel),
        },
        _ => Some(out),
    }
}

/// The members of a class, each on an indented line followed by two line
/// breaks.
pub open spec fn render_members(
    out: Seq<Seq<char>>,
    ids: Seq<QueryId>,
    map: QueryMap,
    ind: nat,
    fuel: nat,
) -> Option<Seq<Seq<char>>>
    decreases fuel, 1nat, ids.len(),
{
    if ids.len() == 0 {
        Some(out)
    } else {
        let o = match map.lookup(ids[0]) {
            Some(item) => render_member(indent_line(out, ind), item, map, ind, fuel),
            None => Some(put(indent_line(out, ind), "# failed to get item"@)),
        };
        match o {
            Some(o1) => render_members(newline(newline(o1)), ids.drop_first(), map, ind, fuel),
            None => None,
        }
    }
}

/// A list, tuple, set or dictionary between its brackets.
pub open spec fn render_container(
    out: Seq<Seq<char>>,
    c: Container,
    map: QueryMap,
    ind: nat,
    fuel: nat,
) -> Option<Seq<Seq<char>>>
    decreases fuel, 2nat, 0nat,
{
    let (l, r) = match c.container_type {
        ContainerType::List => ("["@, "]"@),
        ContainerType::Tuple => ("("@, ")"@),
        ContainerType::SetContainer => ("{"@, "}"@),
        ContainerType::Dict => ("{"@, "}"@),
    };
    let inner = match c.container_type {
        ContainerType::Dict => render_dict(put(out, l), c.values@, 0, map, ind, fuel),
        _ => render_elems(put(out, l), c.values@, map, ind, fuel),
    };
    match inner {
        Some(o) => Some(put(o, r)),
        None => None,
    }
}

/// A function definition: `def`, the name and signature, the body indented
/// (`pass` if it is empty) and a final line break.
pub open spec fn render_function(
    out: Seq<Seq<char>>,
    f: Function,
    map: QueryMap,
    ind: nat,
    fuel: nat,
) -> Option<Seq<Seq<char>>>
    decreases fuel, 2nat, 0nat,
{
    match render_signature(put(put(out, "def "@), f.name@), f, map) {
        Some(o) => match render_body(put(o, ":"@), f.bodys@, map, ind, fuel) {
            Some(o1) => {
                let o2 = if f.bodys@.len() == 0 {
                    indent_with(o1, ind, "pass"@)
                } else {
                    o1
                };
                Some(newline(o2))
            },
            None => None,
        },
        None => None,
    }
}

/// Whether a function name is that of a comprehension or generator.
pub open spec fn is_generated_name(name: Seq<char>) -> bool {
    contains_seq(name, "<"@) || contains_seq(name, ">"@)
}

/// A call: the callee, then the arguments in parentheses.
pub open spec fn render_call(
    out: Seq<Seq<char>>,
    c: Call,
    map: QueryMap,
    ind: nat,
    fuel: nat,
) -> Option<Seq<Seq<char>>>
    decreases fuel, 2nat, 0nat,
{
    match render_opt(out, c.func, map, ind, fuel) {
        Some(o) => match render_call_args(put(o, "("@), c.args@, 0, c.args@.len(), map, ind, fuel) {
            Some(o1) => Some(put(o1, ")"@)),
            None => None,
        },
        None => None,
    }
}

/// Two operands with an operator between them, spaced on both sides.
pub open spec fn render_infix(
    out: Seq<Seq<char>>,
    left: Option<QueryId>,
    op: Seq<char>,
    right: Option<QueryId>,
    map: QueryMap,
    ind: nat,
    fuel: nat,
) -> Option<Seq<Seq<char>>>
    decreases fuel, 1nat, 0nat,
{
    match render_opt(out, left, map, ind, fuel) {
        Some(o) => render_opt(padded(o, op, " "@, " "@), right, map, ind, fuel),
        None => None,
    }
}

/// Two operands with a fixed text between them.
pub open spec fn render_joined(
    out: Seq<Seq<char>>,
    left: Option<QueryId>,
    sep: Seq<char>,
    right: Option<QueryId>,
    map: QueryMap,
    ind: nat,
    fuel: nat,
) -> Option<Seq<Seq<char>>>
    decreases fuel, 1nat, 0nat,
{
    match render_opt(out, left, map, ind, fuel) {
        Some(o) => render_opt(put(o, sep), right, map, ind, fuel),
        None => None,
    }
}

/// A class definition: `class`, the name, the members indented (`pass` if
/// there are none) and a final line break.
pub open spec fn render_class(
    out: Seq<Seq<char>>,
    c: Class,
    map: QueryMap,
    ind: nat,
    fuel: nat,
) -> Option<Seq<Seq<char>>>
    decreases fuel, 2nat, 0nat,
{
    let o = put(put(put(out, "class "@), c.name@), ":"@);
    match render_members(o, c.members@, map, ind, fuel) {
        Some(o1) => {
            let o2 = if c.members@.len() == 0 {
                indent_with(o1, ind, "pass"@)
            } else {
                o1
            };
            Some(newline(o2))
        },
        None => None,
    }
}

/// The text of `node`, with the expressions it refers to followed through
/// `map` at most `fuel` levels deep. `None` where the node cannot be
/// rendered: comprehensions and generators (function names holding `<` or
/// `>`) are not.
pub open spec fn render(
    out: Seq<Seq<char>>,
    node: ExpressionEnum,
    map: QueryMap,
    ind: nat,
    fuel: nat,
) -> Option<Seq<Seq<char>>>
    decreases fuel, 3nat, 0nat,
{
    match node {
        ExpressionEnum::BaseValue(b) => Some(put(out, b.value@)),
        ExpressionEnum::Container(c) => render_container(out, c, map, ind, fuel),
        ExpressionEnum::Function(f) => if is_generated_name(f.name@) {
            None
        } else {
            render_function(out, f, map, ind, fuel)
        },
        ExpressionEnum::Call(c) => render_call(out, c, map, ind, fuel),
        ExpressionEnum::BinaryOperation(b) => render_infix(
            out,
            b.left,
            b.operator@,
            b.right,
            map,
            ind,
            fuel,
        ),
        ExpressionEnum::UnaryOperation(u) => render_opt(
            put(out, unary_text(u.unary_type)),
            u.target,
            map,
            ind,
            fuel,
        ),
        ExpressionEnum::Assign(a) => render_infix(
            out,
            a.target,
            a.operator@,
            a.value,
            map,
            ind,
            fuel,
        ),
        ExpressionEnum::Alias(a) => render_joined(out, a.target, " as "@, a.alias, map, ind, fuel),
        ExpressionEnum::Class(c) => render_class(out, c, map, ind, fuel),
        ExpressionEnum::Attribute(a) => render_joined(out, a.parent, "."@, a.attr, map, ind, fuel),
        _ => Some(out),
    }
}

/// The largest nesting depth followed when visiting.
pub const MAX_DEPTH: usize = usize::MAX;

/// Whether `c` has the Unicode `White_Space` property.
fn is_white_space(c: char) -> (r: bool)
    ensures
        r == white_space(c),
{
    let n = c as u32;
    (0x9 <= n && n <= 0xd) || n == 0x20 || n == 0x85 || n == 0xa0 || n == 0x1680 || (0x2000 <= n
        && n <= 0x200a) || n == 0x2028 || n == 0x2029 || n == 0x202f || n == 0x205f || n == 0x3000
}

/// Whether `s` is nothing but white space.
pub fn is_blank(s: &str) -> (r: bool)
    ensures
        r == blank(s@),
{
    let n = s.unicode_len();
    let mut i: usize = 0;
    while i < n
        invariant
            n == s@.len(),
            i <= n,
            forall|j: int| 0 <= j < i ==> white_space(#[trigger] s@[j]),
        decreases n - i,
    {
        if !is_white_space(s.get_char(i)) {
            return false;
        }
        i = i + 1;
    }
    true
}

/// `s` without one trailing carriage return.
pub fn strip_cr_str(s: &str) -> (r: String)
    ensures
        r@ == strip_cr(s@),
{
    let n = s.unicode_len();
    if n > 0 && s.get_char(n - 1) == '\r' {
        let r = s.substring_char(0, n - 1);
        let t = String::from_str(r);
        assert(t@ =~= s@.drop_last());
        t
    } else {
        String::from_str(s)
    }
}

/// Walks stored expressions.
pub trait PyNodeVisitor {
    type Node;
    type Constant;
    type Container;
    type Function;
    type FunctionArg;
    type Callable;
    type UnaryOp;
    type BinaryOp;
    type Assign;
    type Alias;
    type Class;
    type Attribute;
    type Output;
    type Query;

    /// Whether `node` can be visited with `query`.
    spec fn accepts(&self, node: &Self::Node, query: &Self::Query) -> bool;

    /// Visit a node.
    fn visit(&mut self, node: &Self::Node, query: &Self::Query) -> Self::Output
        requires
            old(self).accepts(node, query),
    ;
}

/// Writes expressions back as Python source, one string per line.
pub struct Unparser {
    indent: usize,
    output: Vec<String>,
}

impl Unparser {
    /// The lines written so far.
    pub closed spec fn lines(&self) -> Seq<Seq<char>> {
        strings_view(self.output@)
    }

    /// The width of one level of indentation.
    pub closed spec fn spec_indent(&self) -> nat {
        self.indent as nat
    }

    /// An unparser with nothing written and an indentation of four spaces.
    pub fn new() -> (r: Self)
        ensures
            r.lines() == Seq::<Seq<char>>::empty(),
            r.spec_indent() == 4,
    {
        let r = Unparser { indent: 4, output: Vec::new() };
        assert(r.lines() =~= Seq::<Seq<char>>::empty());
        r
    }

    /// Write a newline with a indent.
    pub fn add_indent(&mut self)
        ensures
            final(self).lines() == indent_line(old(self).lines(), old(self).spec_indent()),
            final(self).spec_indent() == old(self).spec_indent(),
    {
        self.write_newline();
        let pad = repeat(" ", self.indent);
        self.write_back(pad.as_str());
    }

    /// Write a text to the last line of the output, starting the first line
    /// if there is none.
    pub fn write_back(&mut self, text: &str)
        ensures
            final(self).lines() == put(old(self).lines(), text@),
            final(self).spec_indent() == old(self).spec_indent(),
    {
        if self.output.len() == 0 {
            self.output.push(String::from_str(text));
            assert(self.lines() =~= seq![text@]);
        } else {
            let mut last = self.output.pop().unwrap();
            last.append(text);
            self.output.push(last);
            assert(self.lines() =~= put(old(self).lines(), text@));
        }
    }

    /// Add a new line.
    pub fn write_newline(&mut self)
        ensures
            final(self).lines() == newline(old(self).lines()),
            final(self).spec_indent() == old(self).spec_indent(),
    {
        self.output.push(String::new());
        assert(self.lines() =~= newline(old(self).lines()));
    }

    /// Add a new line and indent with the a given text.
    pub fn write_newline_indent_with(&mut self, text: &str)
        ensures
            final(self).lines() == indent_with(old(self).lines(), old(self).spec_indent(), text@),
            final(self).spec_indent() == old(self).spec_indent(),
    {
        self.add_indent();
        self.write_back(text);
    }

    /// Write `inner` between `left` and `right`.
    pub fn delimit(&mut self, left: &str, right: &str, inner: &str)
        ensures
            final(self).lines() == put(put(put(old(self).lines(), left@), inner@), right@),
            final(self).spec_indent() == old(self).spec_indent(),
    {
        self.write_back(left);
        self.write_back(inner);
        self.write_back(right);
    }

    /// Write a comma back
    pub fn add_comma(&mut self)
        ensures
            final(self).lines() == put(old(self).lines(), ", "@),
            final(self).spec_indent() == old(self).spec_indent(),
    {
        self.write_back(", ");
    }

    /// Add a text back with padding: `left` before it and `right` after it,
    /// each only if it is not empty.
    pub fn add_with_padding(&mut self, text: &str, left: &str, right: &str)
        ensures
            final(self).lines() == padded(old(self).lines(), text@, left@, right@),
            final(self).spec_indent() == old(self).spec_indent(),
    {
        if left.unicode_len() != 0 {
            self.write_back(left);
        }
        self.write_back(text);
        if right.unicode_len() != 0 {
            self.write_back(right);
        }
    }

    /// The lines written so far, as strings.
    pub fn output(&self) -> (r: Vec<String>)
        ensures
            strings_view(r@) == self.lines(),
    {
        let mut r: Vec<String> = Vec::new();
        let mut i: usize = 0;
        while i < self.output.len()
            invariant
                i <= self.output@.len(),
                r@.len() == i,
                forall|j: int| 0 <= j < i ==> (#[trigger] r@[j])@ == self.output@[j]@,
            decreases self.output@.len() - i,
        {
            r.push(String::from_str(self.output[i].as_str()));
            i = i + 1;
        }
        assert(strings_view(r@) =~= self.lines());
        r
    }

    fn visit_found(&mut self, item: &ExpressionEnum, query: &QueryMap, fuel: usize)
        requires
            query.wf(),
            found(old(self).lines(), *item, *query, old(self).spec_indent(), fuel as nat) is Some,
        ensures
            final(self).lines() == found(
                old(self).lines(),
                *item,
                *query,
                old(self).spec_indent(),
                fuel as nat,
            ).unwrap(),
            final(self).spec_indent() == old(self).spec_indent(),
        decreases fuel, 0nat, 0nat,
    {
        if fuel != 0 {
            self.visit_node(item, query, fuel - 1);
        }
    }

    fn visit_id(&mut self, id: QueryId, query: &QueryMap, fuel: usize)
        requires
            query.wf(),
            render_id(old(self).lines(), id, *query, old(self).spec_indent(), fuel as nat) is Some,
        ensures
            final(self).lines() == render_id(
                old(self).lines(),
                id,
                *query,
                old(self).spec_indent(),
                fuel as nat,
            ).unwrap(),
            final(self).spec_indent() == old(self).spec_indent(),
        decreases fuel, 0nat, 1nat,
    {
        match query.get_single(id) {
            Some(e) => self.visit_found(e, query, fuel),
            None => {},
        }
    }

    fn visit_opt(&mut self, id: Option<QueryId>, query: &QueryMap, fuel: usize)
        requires
            query.wf(),
            render_opt(old(self).lines(), id, *query, old(self).spec_indent(), fuel as nat) is Some,
        ensures
            final(self).lines() == render_opt(
                old(self).lines(),
                id,
                *query,
                old(self).spec_indent(),
                fuel as nat,
            ).unwrap(),
            final(self).spec_indent() == old(self).spec_indent(),
        decreases fuel, 0nat, 2nat,
    {
        match id {
            Some(q) => self.visit_id(q, query, fuel),
            None => {},
        }
    }

    fn visit_elems(&mut self, ids: &Vec<QueryId>, query: &QueryMap, fuel: usize)
        requires
            query.wf(),
            render_elems(old(self).lines(), ids@, *query, old(self).spec_indent(), fuel as nat) is Some,
        ensures
            final(self).lines() == render_elems(
                old(self).lines(),
                ids@,
                *query,
                old(self).spec_indent(),
                fuel as nat,
            ).unwrap(),
            final(self).spec_indent() == old(self).spec_indent(),
        decreases fuel, 1nat, ids@.len(),
    {
        let ghost ind = self.spec_indent();
        let ghost goal = render_elems(self.lines(), ids@, *query, ind, fuel as nat);
        assert(ids@.skip(0) =~= ids@);
        let mut i: usize = 0;
        while i < ids.len()
            invariant
                query.wf(),
                i <= ids@.len(),
                self.spec_indent() == ind,
                goal is Some,
                render_elems(self.lines(), ids@.skip(i as int), *query, ind, fuel as nat) == goal,
            decreases ids@.len() - i,
        {
            assert(ids@.skip(i as int).drop_first() =~= ids@.skip(i + 1));
            self.visit_id(ids[i], query, fuel);
            i = i + 1;
        }
        assert(ids@.skip(i as int) =~= Seq::<QueryId>::empty());
    }

    fn visit_dict_elems(&mut self, ids: &Vec<QueryId>, query: &QueryMap, fuel: usize)
        requires
            query.wf(),
            render_dict(old(self).lines(), ids@, 0, *query, old(self).spec_indent(), fuel as nat) is Some,
        ensures
            final(self).lines() == render_dict(
                old(self).lines(),
                ids@,
                0,
                *query,
                old(self).spec_indent(),
                fuel as nat,
            ).unwrap(),
            final(self).spec_indent() == old(self).spec_indent(),
        decreases fuel, 1nat, ids@.len(),
    {
        let ghost ind = self.spec_indent();
        let ghost goal = render_dict(self.lines(), ids@, 0, *query, ind, fuel as nat);
        assert(ids@.skip(0) =~= ids@);
        let mut i: usize = 0;
        while i < ids.len()
            invariant
                query.wf(),
                i <= ids@.len(),
                self.spec_indent() == ind,
                goal is Some,
                render_dict(self.lines(), ids@.skip(i as int), i as nat, *query, ind, fuel as nat)
                    == goal,
            decreases ids@.len() - i,
        {
            assert(ids@.skip(i as int).drop_first() =~= ids@.skip(i + 1));
            if i % 2 != 0 {
                self.write_back(": ");
            }
            self.visit_id(ids[i], query, fuel);
            i = i + 1;
        }
        assert(ids@.skip(i as int) =~= Seq::<QueryId>::empty());
    }

    fn visit_call_args(&mut self, ids: &Vec<QueryId>, query: &QueryMap, fuel: usize)
        requires
            query.wf(),
            render_call_args(
                old(self).lines(),
                ids@,
                0,
                ids@.len(),
                *query,
                old(self).spec_indent(),
                fuel as nat,
            ) is Some,
        ensures
            final(self).lines() == render_call_args(
                old(self).lines(),
                ids@,
                0,
                ids@.len(),
                *query,
                old(self).spec_indent(),
                fuel as nat,
            ).unwrap(),
            final(self).spec_indent() == old(self).spec_indent(),
        decreases fuel, 1nat, ids@.len(),
    {
        let ghost ind = self.spec_indent();
        let ghost total = ids@.len();
        let ghost goal = render_call_args(self.lines(), ids@, 0, total, *query, ind, fuel as nat);
        assert(ids@.skip(0) =~= ids@);
        let mut i: usize = 0;
        while i < ids.len()
            invariant
                query.wf(),
                i <= ids@.len(),
                total == ids@.len(),
                self.spec_indent() == ind,
                goal is Some,
                render_call_args(
                    self.lines(),
                    ids@.skip(i as int),
                    i as nat,
                    total,
                    *query,
                    ind,
                    fuel as nat,
                ) == goal,
            decreases ids@.len() - i,
        {
            assert(ids@.skip(i as int).drop_first() =~= ids@.skip(i + 1));
            self.visit_id(ids[i], query, fuel);
            if i < ids.len() - 1 {
                self.add_comma();
            }
            i = i + 1;
        }
        assert(ids@.skip(i as int) =~= Seq::<QueryId>::empty());
    }

    fn visit_body(&mut self, ids: &Vec<QueryId>, query: &QueryMap, fuel: usize)
        requires
            query.wf(),
            render_body(old(self).lines(), ids@, *query, old(self).spec_indent(), fuel as nat) is Some,
        ensures
            final(self).lines() == render_body(
                old(self).lines(),
                ids@,
                *query,
                old(self).spec_indent(),
                fuel as nat,
            ).unwrap(),
            final(self).spec_indent() == old(self).spec_indent(),
        decreases fuel, 1nat, ids@.len(),
    {
        let ghost ind = self.spec_indent();
        let ghost goal = render_body(self.lines(), ids@, *query, ind, fuel as nat);
        assert(ids@.skip(0) =~= ids@);
        let mut i: usize = 0;
        while i < ids.len()
            invariant
                query.wf(),
                i <= ids@.len(),
                self.spec_indent() == ind,
                goal is Some,
                render_body(self.lines(), ids@.skip(i as int), *query, ind, fuel as nat) == goal,
            decreases ids@.len() - i,
        {
            assert(ids@.skip(i as int).drop_first() =~= ids@.skip(i + 1));
            match query.get_single(ids[i]) {
                Some(item) => {
                    self.add_indent();
                    self.visit_found(item, query, fuel);
                },
                None => {
                    self.write_newline();
                },
            }
            i = i + 1;
        }
        assert(ids@.skip(i as int) =~= Seq::<QueryId>::empty());
    }

    fn visit_member(&mut self, item: &ExpressionEnum, query: &QueryMap, fuel: usize)
        requires
            query.wf(),
            render_member(old(self).lines(), *item, *query, old(self).spec_indent(), fuel as nat)
                is Some,
        ensures
            final(self).lines() == render_member(
                old(self).lines(),
                *item,
                *query,
                old(self).spec_indent(),
                fuel as nat,
            ).unwrap(),
            final(self).spec_indent() == old(self).spec_indent(),
        decreases fuel, 0nat, 3nat,
    {
        if let Some(member) = item.as_ref_assign() {
            let target = match get_helper(query, member.target.as_ref()) {
                Some(e) => e.as_ref_base_value(),
                None => None,
            };
            match target {
                Some(t) => {
                    if str_eq(t.value.as_str(), "__doc__") {
                        if let Some(d) = member.value {
                            if let Some(res) = query.get_single(d) {
                                if let Some(bv) = res.as_ref_base_value() {
                                    self.visit_class_docstring(bv, query);
                                }
                            }
                        }
                    } else if str_eq(t.value.as_str(), "__module__") || str_eq(
                        t.value.as_str(),
                        "__qualname__",
                    ) {
                    } else {
                        self.visit_found(item, query, fuel);
                    }
                },
                None => {
                    self.visit_found(item, query, fuel);
                },
            }
        }
    }

    fn visit_members(&mut self, ids: &Vec<QueryId>, query: &QueryMap, fuel: usize)
        requires
            query.wf(),
            render_members(old(self).lines(), ids@, *query, old(self).spec_indent(), fuel as nat)
                is Some,
        ensures
            final(self).lines() == render_members(
                old(self).lines(),
                ids@,
                *query,
                old(self).spec_indent(),
                fuel as nat,
            ).unwrap(),
            final(self).spec_indent() == old(self).spec_indent(),
        decreases fuel, 1nat, ids@.len(),
    {
        let ghost ind = self.spec_indent();
        let ghost goal = render_members(self.lines(), ids@, *query, ind, fuel as nat);
        assert(ids@.skip(0) =~= ids@);
        let mut i: usize = 0;
        while i < ids.len()
            invariant
                query.wf(),
                i <= ids@.len(),
                self.spec_indent() == ind,
                goal is Some,
                render_members(self.lines(), ids@.skip(i as int), *query, ind, fuel as nat)
                    == goal,
            decreases ids@.len() - i,
        {
            assert(ids@.skip(i as int).drop_first() =~= ids@.skip(i + 1));
            match query.get_single(ids[i]) {
                Some(item) => {
                    self.add_indent();
                    self.visit_member(item, query, fuel);
                },
                None => {
                    self.add_indent();
                    self.write_back("# failed to get item");
                },
            }
            self.write_newline();
            self.write_newline();
            i = i + 1;
        }
        assert(ids@.skip(i as int) =~= Seq::<QueryId>::empty());
    }

    fn visit_container_fuel(&mut self, node: &Container, query: &QueryMap, fuel: usize)
        requires
            query.wf(),
            render_container(old(self).lines(), *node, *query, old(self).spec_indent(), fuel as nat)
                is Some,
        ensures
            final(self).lines() == render_container(
                old(self).lines(),
                *node,
                *query,
                old(self).spec_indent(),
                fuel as nat,
            ).unwrap(),
            final(self).spec_indent() == old(self).spec_indent(),
        decreases fuel, 2nat, 0nat,
    {
        match node.container_type {
            ContainerType::List => {
                self.write_back("[");
                self.visit_elems(&node.values, query, fuel);
                self.write_back("]");
            },
            ContainerType::Tuple => {
                self.write_back("(");
                self.visit_elems(&node.values, query, fuel);
                self.write_back(")");
            },
            ContainerType::SetContainer => {
                self.write_back("{");
                self.visit_elems(&node.values, query, fuel);
                self.write_back("}");
            },
            ContainerType::Dict => {
                self.write_back("{");
                self.visit_dict_elems(&node.values, query, fuel);
                self.write_back("}");
            },
        }
    }

    fn visit_function_fuel(&mut self, node: &Function, query: &QueryMap, fuel: usize)
        requires
            query.wf(),
            render_function(old(self).lines(), *node, *query, old(self).spec_indent(), fuel as nat)
                is Some,
        ensures
            final(self).lines() == render_function(
                old(self).lines(),
                *node,
                *query,
                old(self).spec_indent(),
                fuel as nat,
            ).unwrap(),
            final(self).spec_indent() == old(self).spec_indent(),
        decreases fuel, 2nat, 0nat,
    {
        self.write_back("def ");
        self.write_back(node.name.as_str());
        self.visit_function_type(node, query);
        self.write_back(":");
        self.visit_body(&node.bodys, query, fuel);
        if node.bodys.len() == 0 {
            self.write_newline_indent_with("pass");
        }
        self.write_newline();
    }

    fn visit_call_fuel(&mut self, node: &Call, query: &QueryMap, fuel: usize)
        requires
            query.wf(),
            render_call(old(self).lines(), *node, *query, old(self).spec_indent(), fuel as nat)
                is Some,
        ensures
            final(self).lines() == render_call(
                old(self).lines(),
                *node,
                *query,
                old(self).spec_indent(),
                fuel as nat,
            ).unwrap(),
            final(self).spec_indent() == old(self).spec_indent(),
        decreases fuel, 2nat, 0nat,
    {
        self.visit_opt(node.func, query, fuel);
        self.write_back("(");
        self.visit_call_args(&node.args, query, fuel);
        self.write_back(")");
    }

    fn visit_infix(
        &mut self,
        left: Option<QueryId>,
        op: &str,
        right: Option<QueryId>,
        query: &QueryMap,
        fuel: usize,
    )
        requires
            query.wf(),
            render_infix(
                old(self).lines(),
                left,
                op@,
                right,
                *query,
                old(self).spec_indent(),
                fuel as nat,
            ) is Some,
        ensures
            final(self).lines() == render_infix(
                old(self).lines(),
                left,
                op@,
                right,
                *query,
                old(self).spec_indent(),
                fuel as nat,
            ).unwrap(),
            final(self).spec_indent() == old(self).spec_indent(),
        decreases fuel, 1nat, 0nat,
    {
        self.visit_opt(left, query, fuel);
        self.add_with_padding(op, " ", " ");
        self.visit_opt(right, query, fuel);
    }

    fn visit_joined(
        &mut self,
        left: Option<QueryId>,
        sep: &str,
        right: Option<QueryId>,
        query: &QueryMap,
        fuel: usize,
    )
        requires
            query.wf(),
            render_joined(
                old(self).lines(),
                left,
                sep@,
                right,
                *query,
                old(self).spec_indent(),
                fuel as nat,
            ) is Some,
        ensures
            final(self).lines() == render_joined(
                old(self).lines(),
                left,
                sep@,
                right,
                *query,
                old(self).spec_indent(),
                fuel as nat,
            ).unwrap(),
            final(self).spec_indent() == old(self).spec_indent(),
        decreases fuel, 1nat, 0nat,
    {
        self.visit_opt(left, query, fuel);
        self.write_back(sep);
        self.visit_opt(right, query, fuel);
    }

    fn visit_class_fuel(&mut self, node: &Class, query: &QueryMap, fuel: usize)
        requires
            query.wf(),
            render_class(old(self).lines(), *node, *query, old(self).spec_indent(), fuel as nat)
                is Some,
        ensures
            final(self).lines() == render_class(
                old(self).lines(),
                *node,
                *query,
                old(self).spec_indent(),
                fuel as nat,
            ).unwrap(),
            final(self).spec_indent() == old(self).spec_indent(),
        decreases fuel, 2nat, 0nat,
    {
        self.write_back("class ");
        self.write_back(node.name.as_str());
        self.write_back(":");
        self.visit_members(&node.members, query, fuel);
        if node.members.len() == 0 {
            self.write_newline_indent_with("pass");
        }
        self.write_newline();
    }

    fn unary_op_text(t: &UnaryType) -> (r: &'static str)
        ensures
            r@ == unary_text(*t),
    {
        match t {
            UnaryType::Not => "not ",
            UnaryType::Invert => "~",
            UnaryType::Positive => "+",
            UnaryType::Negative => "-",
        }
    }

    fn visit_node(&mut self, node: &ExpressionEnum, query: &QueryMap, fuel: usize)
        requires
            query.wf(),
            render(old(self).lines(), *node, *query, old(self).spec_indent(), fuel as nat) is Some,
        ensures
            final(self).lines() == render(
                old(self).lines(),
                *node,
                *query,
                old(self).spec_indent(),
                fuel as nat,
            ).unwrap(),
            final(self).spec_indent() == old(self).spec_indent(),
        decreases fuel, 3nat, 0nat,
    {
        match node {
            ExpressionEnum::BaseValue(b) => self.write_back(b.value.as_str()),
            ExpressionEnum::Container(c) => self.visit_container_fuel(c, query, fuel),
            ExpressionEnum::Function(f) => {
                if !contains_str(f.name.as_str(), "<") && !contains_str(f.name.as_str(), ">") {
                    self.visit_function_fuel(f, query, fuel);
                }
            },
            ExpressionEnum::Call(c) => self.visit_call_fuel(c, query, fuel),
            ExpressionEnum::BinaryOperation(b) => self.visit_infix(
                b.left,
                b.operator.as_str(),
                b.right,
                query,
                fuel,
            ),
            ExpressionEnum::UnaryOperation(u) => {
                self.write_back(Self::unary_op_text(&u.unary_type));
                self.visit_opt(u.target, query, fuel);
            },
            ExpressionEnum::Assign(a) => self.visit_infix(
                a.target,
                a.operator.as_str(),
                a.value,
                query,
                fuel,
            ),
            ExpressionEnum::Alias(a) => self.visit_joined(a.target, " as ", a.alias, query, fuel),
            ExpressionEnum::Class(c) => self.visit_class_fuel(c, query, fuel),
            ExpressionEnum::Attribute(a) => self.visit_joined(a.parent, ".", a.attr, query, fuel),
            _ => {},
        }
    }

    /// Write a base value: its text as it stands.
    pub fn visit_constant(&mut self, node: &BaseValue, query: &QueryMap)
        ensures
            final(self).lines() == put(old(self).lines(), node.value@),
            final(self).spec_indent() == old(self).spec_indent(),
    {
        self.write_back(node.value.as_str());
    }

    /// Write a list: its elements between square brackets.
    pub fn visit_list(&mut self, node: &Container, query: &QueryMap)
        requires
            node.container_type == ContainerType::List,
            query.wf(),
            render_container(
                old(self).lines(),
                *node,
                *query,
                old(self).spec_indent(),
                MAX_DEPTH as nat,
            ) is Some,
        ensures
            final(self).lines() == render_container(
                old(self).lines(),
                *node,
                *query,
                old(self).spec_indent(),
                MAX_DEPTH as nat,
            ).unwrap(),
            final(self).spec_indent() == old(self).spec_indent(),
    {
        self.visit_container_fuel(node, query, MAX_DEPTH);
    }

    /// Write a tuple: its elements between parentheses.
    pub fn visit_tuple(&mut self, node: &Container, query: &QueryMap)
        requires
            node.container_type == ContainerType::Tuple,
            query.wf(),
            render_container(
                old(self).lines(),
                *node,
                *query,
                old(self).spec_indent(),
                MAX_DEPTH as nat,
            ) is Some,
        ensures
            final(self).lines() == render_container(
                old(self).lines(),
                *node,
                *query,
                old(self).spec_indent(),
                MAX_DEPTH as nat,
            ).unwrap(),
            final(self).spec_indent() == old(self).spec_indent(),
    {
        self.visit_container_fuel(node, query, MAX_DEPTH);
    }

    /// Write a set: its elements between braces.
    pub fn visit_set(&mut self, node: &Container, query: &QueryMap)
        requires
            node.container_type == ContainerType::SetContainer,
            query.wf(),
            render_container(
                old(self).lines(),
                *node,
                *query,
                old(self).spec_indent(),
                MAX_DEPTH as nat,
            ) is Some,
        ensures
            final(self).lines() == render_container(
                old(self).lines(),
                *node,
                *query,
                old(self).spec_indent(),
                MAX_DEPTH as nat,
            ).unwrap(),
            final(self).spec_indent() == old(self).spec_indent(),
    {
        self.visit_container_fuel(node, query, MAX_DEPTH);
    }

    /// Write a dictionary: `key: value` entries between braces.
    pub fn visit_dict(&mut self, node: &Container, query: &QueryMap)
        requires
            node.container_type == ContainerType::Dict,
            query.wf(),
            render_container(
                old(self).lines(),
                *node,
                *query,
                old(self).spec_indent(),
                MAX_DEPTH as nat,
            ) is Some,
        ensures
            final(self).lines() == render_container(
                old(self).lines(),
                *node,
                *query,
                old(self).spec_indent(),
                MAX_DEPTH as nat,
            ).unwrap(),
            final(self).spec_indent() == old(self).spec_indent(),
    {
        self.visit_container_fuel(node, query, MAX_DEPTH);
    }

    /// Write a unary operation: the operator, then its operand.
    pub fn visit_unary_op(&mut self, node: &UnaryOperation, query: &QueryMap)
        requires
            query.wf(),
            render_opt(
                put(old(self).lines(), unary_text(node.unary_type)),
                node.target,
                *query,
                old(self).spec_indent(),
                MAX_DEPTH as nat,
            ) is Some,
        ensures
            final(self).lines() == render_opt(
                put(old(self).lines(), unary_text(node.unary_type)),
                node.target,
                *query,
                old(self).spec_indent(),
                MAX_DEPTH as nat,
            ).unwrap(),
            final(self).spec_indent() == old(self).spec_indent(),
    {
        self.write_back(Self::unary_op_text(&node.unary_type));
        self.visit_opt(node.target, query, MAX_DEPTH);
    }

    /// Write a binary operation: left operand, operator, right operand.
    pub fn visit_binary_op(&mut self, node: &BinaryOperation, query: &QueryMap)
        requires
            query.wf(),
            render_infix(
                old(self).lines(),
                node.left,
                node.operator@,
                node.right,
                *query,
                old(self).spec_indent(),
                MAX_DEPTH as nat,
            ) is Some,
        ensures
            final(self).lines() == render_infix(
                old(self).lines(),
                node.left,
                node.operator@,
                node.right,
                *query,
                old(self).spec_indent(),
                MAX_DEPTH as nat,
            ).unwrap(),
            final(self).spec_indent() == old(self).spec_indent(),
    {
        self.visit_infix(node.left, node.operator.as_str(), node.right, query, MAX_DEPTH);
    }

    /// Write a function definition.
    pub fn visit_function(&mut self, node: &Function, query: &QueryMap)
        requires
            query.wf(),
            render_function(
                old(self).lines(),
                *node,
                *query,
                old(self).spec_indent(),
                MAX_DEPTH as nat,
            ) is Some,
        ensures
            final(self).lines() == render_function(
                old(self).lines(),
                *node,
                *query,
                old(self).spec_indent(),
                MAX_DEPTH as nat,
            ).unwrap(),
            final(self).spec_indent() == old(self).spec_indent(),
    {
        self.visit_function_fuel(node, query, MAX_DEPTH);
    }

    /// Write the parameter list and the return annotation of a function.
    pub fn visit_function_type(&mut self, node: &Function, query: &QueryMap)
        requires
            query.wf(),
            render_signature(old(self).lines(), *node, *query) is Some,
        ensures
            final(self).lines() == render_signature(old(self).lines(), *node, *query).unwrap(),
            final(self).spec_indent() == old(self).spec_indent(),
    {
        self.write_back("(");
        let ghost o0 = self.lines();
        let ghost total = node.args@.len();
        let ghost goal = render_args(o0, node.args@, 0, total, *query);
        assert(node.args@.skip(0) =~= node.args@);
        let mut i: usize = 0;
        while i < node.args.len()
            invariant
                query.wf(),
                i <= node.args@.len(),
                total == node.args@.len(),
                self.spec_indent() == old(self).spec_indent(),
                render_args(self.lines(), node.args@.skip(i as int), i as nat, total, *query)
                    == goal,
            decreases node.args@.len() - i,
        {
            assert(node.args@.skip(i as int).drop_first() =~= node.args@.skip(i + 1));
            let arg_id = &node.args[i];
            let found = match get_helper(query, Some(arg_id)) {
                Some(e) => e.as_ref_fast_variable(),
                None => None,
            };
            if let Some(arg) = found {
                self.visit_function_arg(arg, query);
                if i < node.args.len() - 1 {
                    self.add_comma();
                }
            }
            i = i + 1;
        }
        assert(node.args@.skip(i as int) =~= Seq::<QueryId>::empty());
        self.write_back(")");
        let ret = match get_helper(query, node.ret.as_ref()) {
            Some(e) => e.as_ref_fast_variable(),
            None => None,
        };
        if let Some(r) = ret {
            self.visit_function_return(r, query);
        }
    }

    /// Write a function argument: its name and annotation.
    pub fn visit_function_arg(&mut self, node: &FastVariable, query: &QueryMap)
        ensures
            final(self).lines() == render_arg(old(self).lines(), *node),
            final(self).spec_indent() == old(self).spec_indent(),
    {
        self.write_back(node.name.as_str());
        if let Some(anno) = &node.annotation {
            self.add_with_padding(anno.as_str(), ": ", "");
        }
    }

    /// Write a return annotation; the variable must be named `return`.
    pub fn visit_function_return(&mut self, node: &FastVariable, query: &QueryMap)
        requires
            node.name@ == "return"@,
        ensures
            final(self).lines() == render_return(old(self).lines(), *node).unwrap(),
            final(self).spec_indent() == old(self).spec_indent(),
    {
        if let Some(anno) = &node.annotation {
            self.add_with_padding(anno.as_str(), " -> ", "");
        }
    }

    /// Write a call: the callee, then the arguments in parentheses.
    pub fn visit_call(&mut self, node: &Call, query: &QueryMap)
        requires
            query.wf(),
            render_call(old(self).lines(), *node, *query, old(self).spec_indent(), MAX_DEPTH as nat)
                is Some,
        ensures
            final(self).lines() == render_call(
                old(self).lines(),
                *node,
                *query,
                old(self).spec_indent(),
                MAX_DEPTH as nat,
            ).unwrap(),
            final(self).spec_indent() == old(self).spec_indent(),
    {
        self.visit_call_fuel(node, query, MAX_DEPTH);
    }

    /// Write an assignment: target, operator, value.
    pub fn visit_assign(&mut self, node: &Assign, query: &QueryMap)
        requires
            query.wf(),
            render_infix(
                old(self).lines(),
                node.target,
                node.operator@,
                node.value,
                *query,
                old(self).spec_indent(),
                MAX_DEPTH as nat,
            ) is Some,
        ensures
            final(self).lines() == render_infix(
                old(self).lines(),
                node.target,
                node.operator@,
                node.value,
                *query,
                old(self).spec_indent(),
                MAX_DEPTH as nat,
            ).unwrap(),
            final(self).spec_indent() == old(self).spec_indent(),
    {
        self.visit_infix(node.target, node.operator.as_str(), node.value, query, MAX_DEPTH);
    }

    /// Write an alias: `target as alias`.
    pub fn visit_alias(&mut self, node: &Alias, query: &QueryMap)
        requires
            query.wf(),
            render_joined(
                old(self).lines(),
                node.target,
                " as "@,
                node.alias,
                *query,
                old(self).spec_indent(),
                MAX_DEPTH as nat,
            ) is Some,
        ensures
            final(self).lines() == render_joined(
                old(self).lines(),
                node.target,
                " as "@,
                node.alias,
                *query,
                old(self).spec_indent(),
                MAX_DEPTH as nat,
            ).unwrap(),
            final(self).spec_indent() == old(self).spec_indent(),
    {
        self.visit_joined(node.target, " as ", node.alias, query, MAX_DEPTH);
    }

    /// Write a class definition.
    pub fn visit_class(&mut self, node: &Class, query: &QueryMap)
        requires
            query.wf(),
            render_class(old(self).lines(), *node, *query, old(self).spec_indent(), MAX_DEPTH as nat)
                is Some,
        ensures
            final(self).lines() == render_class(
                old(self).lines(),
                *node,
                *query,
                old(self).spec_indent(),
                MAX_DEPTH as nat,
            ).unwrap(),
            final(self).spec_indent() == old(self).spec_indent(),
    {
        self.visit_class_fuel(node, query, MAX_DEPTH);
    }

    /// Write a class docstring: its non-blank lines between lines of three
    /// double quotes.
    pub fn visit_class_docstring(&mut self, node: &BaseValue, query: &QueryMap)
        ensures
            final(self).lines() == render_docstring(
                old(self).lines(),
                node.value@,
                old(self).spec_indent(),
            ),
            final(self).spec_indent() == old(self).spec_indent(),
    {
        let ghost ind = self.spec_indent();
        let docstring = trim_matches(node.value.as_str(), "'");
        self.write_newline_indent_with("\"\"\"");
        proof {
            reveal_strlit("\n");
        }
        let pieces = split(docstring.as_str(), "\n");
        let ghost ls = text_lines(docstring@);
        let ghost goal = indent_lines(self.lines(), ls, ind);
        assert(ls.skip(0) =~= ls);
        let mut i: usize = 0;
        while i < pieces.len()
            invariant
                i <= pieces@.len(),
                ls.len() == pieces@.len(),
                forall|j: int|
                    0 <= j < ls.len() ==> #[trigger] ls[j] == (if j < ls.len() - 1 {
                        strip_cr(pieces@[j]@)
                    } else {
                        pieces@[j]@
                    }),
                self.spec_indent() == ind,
                indent_lines(self.lines(), ls.skip(i as int), ind) == goal,
            decreases pieces@.len() - i,
        {
            assert(ls.skip(i as int).drop_first() =~= ls.skip(i + 1));
            assert(ls.skip(i as int)[0] == ls[i as int]);
            let line = if i < pieces.len() - 1 {
                strip_cr_str(pieces[i].as_str())
            } else {
                String::from_str(pieces[i].as_str())
            };
            if !is_blank(line.as_str()) {
                self.write_newline_indent_with(line.as_str());
            }
            i = i + 1;
        }
        assert(ls.skip(i as int) =~= Seq::<Seq<char>>::empty());
        self.write_newline_indent_with("\"\"\"");
    }

    /// Write an attribute access: `parent.attr`.
    pub fn visit_attribute(&mut self, node: &Attribute, query: &QueryMap)
        requires
            query.wf(),
            render_joined(
                old(self).lines(),
                node.parent,
                "."@,
                node.attr,
                *query,
                old(self).spec_indent(),
                MAX_DEPTH as nat,
            ) is Some,
        ensures
            final(self).lines() == render_joined(
                old(self).lines(),
                node.parent,
                "."@,
                node.attr,
                *query,
                old(self).spec_indent(),
                MAX_DEPTH as nat,
            ).unwrap(),
            final(self).spec_indent() == old(self).spec_indent(),
    {
        self.visit_joined(node.parent, ".", node.attr, query, MAX_DEPTH);
    }
}

impl PyNodeVisitor for Unparser {
    type Node = ExpressionEnum;
    type Constant = BaseValue;
    type Container = Container;
    type Function = Function;
    type FunctionArg = FastVariable;
    type Callable = Call;
    type UnaryOp = UnaryOperation;
    type BinaryOp = BinaryOperation;
    type Assign = Assign;
    type Alias = Alias;
    type Class = Class;
    type Attribute = Attribute;
    type Output = Vec<String>;
    type Query = QueryMap;

    /// The node can be rendered from what is written so far.
    open spec fn accepts(&self, node: &ExpressionEnum, query: &QueryMap) -> bool {
        &&& query.wf()
        &&& render(self.lines(), *node, *query, self.spec_indent(), MAX_DEPTH as nat) is Some
    }

    /// Writes `node` and gives back all lines written so far.
    fn visit(&mut self, node: &ExpressionEnum, query: &QueryMap) -> (r: Vec<String>)
        ensures
            final(self).lines() == render(
                old(self).lines(),
                *node,
                *query,
                old(self).spec_indent(),
                MAX_DEPTH as nat,
            ).unwrap(),
            final(self).spec_indent() == old(self).spec_indent(),
            strings_view(r@) == final(self).lines(),
    {
        self.visit_node(node, query, MAX_DEPTH);
        self.output()
    }
}

/// The lines before a write: all but the last.
pub open spec fn lines_before(out: Seq<Seq<char>>) -> Seq<Seq<char>> {
    if out.len() == 0 {
        out
    } else {
        out.drop_last()
    }
}

/// The line a write goes on: the last one, empty where there is none.
pub open spec fn current_line(out: Seq<Seq<char>>) -> Seq<char> {
    if out.len() == 0 {
        Seq::empty()
    } else {
        out.last()
    }
}

/// Writing `t` puts it at the end of the current line.
proof fn lemma_put(o: Seq<Seq<char>>, t: Seq<char>)
    ensures
        put(o, t) == lines_before(o).push(current_line(o) + t),
        lines_before(put(o, t)) == lines_before(o),
        current_line(put(o, t)) == current_line(o) + t,
{
    if o.len() == 0 {
        assert(Seq::<char>::empty() + t =~= t);
        assert(seq![t] =~= o.push(t));
    }
}

/// An operator padded with single spaces on the current line.
proof fn lemma_padded(o: Seq<Seq<char>>, op: Seq<char>)
    ensures
        padded(o, op, " "@, " "@) == lines_before(o).push(current_line(o) + " "@ + op + " "@),
        lines_before(padded(o, op, " "@, " "@)) == lines_before(o),
        current_line(padded(o, op, " "@, " "@)) == current_line(o) + " "@ + op + " "@,
{
    reveal_strlit(" ");
    lemma_put(o, " "@);
    lemma_put(put(o, " "@), op);
    lemma_put(put(put(o, " "@), op), " "@);
}

/// An id filed as a base value of text `x` writes `x`.
proof fn lemma_base_operand(o: Seq<Seq<char>>, map: QueryMap, id: QueryId, x: Seq<char>, ind: nat, fuel: nat)
    requires
        fuel >= 1,
        map.lookup(id) matches Some(ExpressionEnum::BaseValue(b)) && b.value@ == x,
    ensures
        render_opt(o, Some(id), map, ind, fuel) == Some(put(o, x)),
{
    assert(render_id(o, id, map, ind, fuel) == found(o, map.lookup(id)->0, map, ind, fuel));
}

/// With two ids filed as base values of texts `x` and `y`, an operation
/// writes, on the current line, `x` then its operator then `y`: a binary
/// operation and an assignment `x op y`, an attribute `x.y`, an alias
/// `x as y`; a unary operation writes its operator before `x` (`not x`,
/// `~x`, `+x`, `-x`).
pub proof fn law_operators_between_operands(
    out: Seq<Seq<char>>,
    map: QueryMap,
    l: QueryId,
    r: QueryId,
    x: Seq<char>,
    y: Seq<char>,
    ind: nat,
    fuel: nat,
    bin: BinaryOperation,
    asg: Assign,
    att: Attribute,
    ali: Alias,
    un: UnaryOperation,
)
    requires
        fuel >= 1,
        map.lookup(l) matches Some(ExpressionEnum::BaseValue(b)) && b.value@ == x,
        map.lookup(r) matches Some(ExpressionEnum::BaseValue(b)) && b.value@ == y,
        bin.left == Some(l) && bin.right == Some(r),
        asg.target == Some(l) && asg.value == Some(r),
        att.parent == Some(l) && att.attr == Some(r),
        ali.target == Some(l) && ali.alias == Some(r),
        un.target == Some(l),
    ensures
        render(out, ExpressionEnum::BinaryOperation(bin), map, ind, fuel) == Some(
            lines_before(out).push(current_line(out) + x + " "@ + bin.operator@ + " "@ + y),
        ),
        render(out, ExpressionEnum::Assign(asg), map, ind, fuel) == Some(
            lines_before(out).push(current_line(out) + x + " "@ + asg.operator@ + " "@ + y),
        ),
        render(out, ExpressionEnum::Attribute(att), map, ind, fuel) == Some(
            lines_before(out).push(current_line(out) + x + "."@ + y),
        ),
        render(out, ExpressionEnum::Alias(ali), map, ind, fuel) == Some(
            lines_before(out).push(current_line(out) + x + " as "@ + y),
        ),
        un.unary_type == UnaryType::Not ==> render(out, ExpressionEnum::UnaryOperation(un), map, ind, fuel)
            == Some(lines_before(out).push(current_line(out) + "not "@ + x)),
        un.unary_type == UnaryType::Invert ==> render(out, ExpressionEnum::UnaryOperation(un), map, ind, fuel)
            == Some(lines_before(out).push(current_line(out) + "~"@ + x)),
        un.unary_type == UnaryType::Positive ==> render(out, ExpressionEnum::UnaryOperation(un), map, ind, fuel)
            == Some(lines_before(out).push(current_line(out) + "+"@ + x)),
        un.unary_type == UnaryType::Negative ==> render(out, ExpressionEnum::UnaryOperation(un), map, ind, fuel)
            == Some(lines_before(out).push(current_line(out) + "-"@ + x)),
{
    let w = current_line(out);
    let pre = lines_before(out);
    lemma_base_operand(out, map, l, x, ind, fuel);
    let o1 = put(out, x);
    lemma_put(out, x);
    assert(lines_before(o1) == pre && current_line(o1) == w + x);
    // binary operation and assignment
    lemma_padded(o1, bin.operator@);
    let ob = padded(o1, bin.operator@, " "@, " "@);
    lemma_base_operand(ob, map, r, y, ind, fuel);
    lemma_put(ob, y);
    assert(render(out, ExpressionEnum::BinaryOperation(bin), map, ind, fuel) == Some(put(ob, y)));
    lemma_padded(o1, asg.operator@);
    let oa = padded(o1, asg.operator@, " "@, " "@);
    lemma_base_operand(oa, map, r, y, ind, fuel);
    lemma_put(oa, y);
    assert(render(out, ExpressionEnum::Assign(asg), map, ind, fuel) == Some(put(oa, y)));
    // attribute and alias
    let od = put(o1, "."@);
    lemma_put(o1, "."@);
    lemma_base_operand(od, map, r, y, ind, fuel);
    lemma_put(od, y);
    assert(render(out, ExpressionEnum::Attribute(att), map, ind, fuel) == Some(put(od, y)));
    let os = put(o1, " as "@);
    lemma_put(o1, " as "@);
    lemma_base_operand(os, map, r, y, ind, fuel);
    lemma_put(os, y);
    assert(render(out, ExpressionEnum::Alias(ali), map, ind, fuel) == Some(put(os, y)));
    // unary operation
    let ou = put(out, unary_text(un.unary_type));
    lemma_put(out, unary_text(un.unary_type));
    lemma_base_operand(ou, map, l, x, ind, fuel);
    lemma_put(ou, x);
    assert(render(out, ExpressionEnum::UnaryOperation(un), map, ind, fuel) == Some(put(ou, x)));
}

/// With ids filed as base values of texts `x` and `y`, and `f` the text of
/// the callee, a call writes `f(x, y)` on the current line, the arguments in
/// order and a comma between them; a list, tuple or set of the two writes
/// them in order between its own brackets: `[xy]`, `(xy)`, `{xy}`.
pub proof fn law_calls_and_containers_delimit(
    out: Seq<Seq<char>>,
    map: QueryMap,
    g: QueryId,
    l: QueryId,
    r: QueryId,
    f: Seq<char>,
    x: Seq<char>,
    y: Seq<char>,
    ind: nat,
    fuel: nat,
    call: Call,
    c: Container,
)
    requires
        fuel >= 1,
        map.lookup(g) matches Some(ExpressionEnum::BaseValue(b)) && b.value@ == f,
        map.lookup(l) matches Some(ExpressionEnum::BaseValue(b)) && b.value@ == x,
        map.lookup(r) matches Some(ExpressionEnum::BaseValue(b)) && b.value@ == y,
        call.func == Some(g),
        call.args@ == seq![l, r],
        c.values@ == seq![l, r],
    ensures
        render(out, ExpressionEnum::Call(call), map, ind, fuel) == Some(
            lines_before(out).push(current_line(out) + f + "("@ + x + ", "@ + y + ")"@),
        ),
        c.container_type == ContainerType::List ==> render(out, ExpressionEnum::Container(c), map, ind, fuel)
            == Some(lines_before(out).push(current_line(out) + "["@ + x + y + "]"@)),
        c.container_type == ContainerType::Tuple ==> render(out, ExpressionEnum::Container(c), map, ind, fuel)
            == Some(lines_before(out).push(current_line(out) + "("@ + x + y + ")"@)),
        c.container_type == ContainerType::SetContainer ==> render(
            out,
            ExpressionEnum::Container(c),
            map,
            ind,
            fuel,
        ) == Some(lines_before(out).push(current_line(out) + "{"@ + x + y + "}"@)),
{
    let w = current_line(out);
    let pre = lines_before(out);
    let ids = seq![l, r];
    assert(ids.drop_first() =~= seq![r]);
    assert(seq![r].drop_first() =~= Seq::<QueryId>::empty());
    // call
    lemma_base_operand(out, map, g, f, ind, fuel);
    lemma_put(out, f);
    let o1 = put(out, f);
    let o2 = put(o1, "("@);
    lemma_put(o1, "("@);
    assert(render_id(o2, l, map, ind, fuel) == Some(put(o2, x))) by {
        lemma_base_operand(o2, map, l, x, ind, fuel);
    }
    let o3 = put(o2, x);
    lemma_put(o2, x);
    let o4 = put(o3, ", "@);
    lemma_put(o3, ", "@);
    assert(render_id(o4, r, map, ind, fuel) == Some(put(o4, y))) by {
        lemma_base_operand(o4, map, r, y, ind, fuel);
    }
    let o5 = put(o4, y);
    lemma_put(o4, y);
    assert(render_call_args(o5, Seq::<QueryId>::empty(), 2, 2, map, ind, fuel) == Some(o5));
    assert(render_call_args(o4, seq![r], 1, 2, map, ind, fuel) == Some(o5));
    assert(render_call_args(o2, ids, 0, 2, map, ind, fuel) == Some(o5));
    lemma_put(o5, ")"@);
    assert(w + f + "("@ + x + ", "@ + y + ")"@ =~= w + f + "("@ + x + ", "@ + y + ")"@);
    // containers
    let (lb, rb) = match c.container_type {
        ContainerType::List => ("["@, "]"@),
        ContainerType::Tuple => ("("@, ")"@),
        ContainerType::SetContainer => ("{"@, "}"@),
        ContainerType::Dict => ("{"@, "}"@),
    };
    let p1 = put(out, lb);
    lemma_put(out, lb);
    assert(render_id(p1, l, map, ind, fuel) == Some(put(p1, x))) by {
        lemma_base_operand(p1, map, l, x, ind, fuel);
    }
    let p2 = put(p1, x);
    lemma_put(p1, x);
    assert(render_id(p2, r, map, ind, fuel) == Some(put(p2, y))) by {
        lemma_base_operand(p2, map, r, y, ind, fuel);
    }
    let p3 = put(p2, y);
    lemma_put(p2, y);
    assert(render_elems(p3, Seq::<QueryId>::empty(), map, ind, fuel) == Some(p3));
    assert(render_elems(p2, seq![r], map, ind, fuel) == Some(p3));
    assert(render_elems(p1, ids, map, ind, fuel) == Some(p3));
    lemma_put(p3, rb);
}

/// An empty definition is written as its header on the current line, a
/// line of `pass` indented by the unparser's indent, and a final empty
/// line: `def name():` for a function with no parameters or annotation,
/// `class name:` for a class with no members.
pub proof fn law_empty_definitions(
    out: Seq<Seq<char>>,
    map: QueryMap,
    ind: nat,
    fuel: nat,
    f: Function,
    c: Class,
)
    requires
        !is_generated_name(f.name@),
        f.args@.len() == 0,
        f.ret is None,
        f.bodys@.len() == 0,
        c.members@.len() == 0,
    ensures
        render(out, ExpressionEnum::Function(f), map, ind, fuel) == Some(
            lines_before(out).push(current_line(out) + "def "@ + f.name@ + "():"@).push(
                repeat_seq(" "@, ind) + "pass"@,
            ).push(Seq::<char>::empty()),
        ),
        render(out, ExpressionEnum::Class(c), map, ind, fuel) == Some(
            lines_before(out).push(current_line(out) + "class "@ + c.name@ + ":"@).push(
                repeat_seq(" "@, ind) + "pass"@,
            ).push(Seq::<char>::empty()),
        ),
{
    let w = current_line(out);
    let pre = lines_before(out);
    let sp = repeat_seq(" "@, ind);
    // function
    let a1 = put(out, "def "@);
    lemma_put(out, "def "@);
    let a2 = put(a1, f.name@);
    lemma_put(a1, f.name@);
    let a3 = put(a2, "("@);
    lemma_put(a2, "("@);
    assert(render_args(a3, f.args@, 0, 0, map) == a3);
    let a4 = put(a3, ")"@);
    lemma_put(a3, ")"@);
    assert(render_signature(a2, f, map) == Some(a4));
    let a5 = put(a4, ":"@);
    lemma_put(a4, ":"@);
    assert(render_body(a5, f.bodys@, map, ind, fuel) == Some(a5));
    let hf = w + "def "@ + f.name@ + "():"@;
    reveal_strlit("(");
    reveal_strlit(")");
    reveal_strlit(":");
    reveal_strlit("():");
    assert(w + "def "@ + f.name@ + "("@ + ")"@ + ":"@ =~= hf);
    assert(a5 == pre.push(hf));
    let n5 = newline(a5);
    assert(lines_before(n5) =~= pre.push(hf));
    assert(current_line(n5) == Seq::<char>::empty());
    lemma_put(n5, sp);
    let i5 = put(n5, sp);
    lemma_put(i5, "pass"@);
    assert(Seq::<char>::empty() + sp =~= sp);
    // class
    let b1 = put(out, "class "@);
    lemma_put(out, "class "@);
    let b2 = put(b1, c.name@);
    lemma_put(b1, c.name@);
    let b3 = put(b2, ":"@);
    lemma_put(b2, ":"@);
    assert(render_members(b3, c.members@, map, ind, fuel) == Some(b3));
    let hc = w + "class "@ + c.name@ + ":"@;
    assert(b3 == pre.push(hc));
    let n3 = newline(b3);
    assert(lines_before(n3) =~= pre.push(hc));
    assert(current_line(n3) == Seq::<char>::empty());
    lemma_put(n3, sp);
    let i3 = put(n3, sp);
    lemma_put(i3, "pass"@);
}

} // verus!
