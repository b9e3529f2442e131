//! Writing an expression tree back out as lines of Python source.
//!
//! `build_spec` says what each node becomes. A result of `None` stands for
//! the inputs on which writing cannot finish: a list comprehension with
//! fewer than two body parts, a unary plus, a dictionary with an odd number
//! of value lines, an `elif` branch that writes no line, a function with more
//! defaults than parameters, and a class whose first member assigns to
//! something that is not a name.

use vstd::prelude::*;
use super::{
    Alias, Assert, Assign, Attribute, Await, BaseValue, BinaryOperation, Call, Class, Container,
    ContainerType, Except, ExpressionEnum, FastVariable, Finally, For, Format, FormatValue,
    Function, If, Import, Raise, Return, Slice, Subscr, Try, UnaryOperation, UnaryType, With,
    Yield,
};
use crate::patterns::{def_args, match_def_args};
use crate::text::{
    ends_with_seq, join_seq, strings_view, replace_seq, starts_with_seq, trim_both_seq, trim_end_seq,
    trim_start_seq,
};
use crate::visit::{blank, text_lines};

verus! {

/// What stops a tree from being written out.
#[derive(Debug, PartialEq, Eq, Clone, Copy)]
pub enum BuildError {
    /// A parameter that should take a default finds none left.
    NoDefault,
    /// A lambda without a body.
    NoLambdaBody,
}

impl BuildError {
    /// The error's text.
    pub fn message(&self) -> (r: &'static str)
        ensures
            r@ == build_error_text(*self),
    {
        match self {
            BuildError::NoDefault => {
                proof { reveal_strlit("No default! Iter error"); }
                "No default! Iter error"
            },
            BuildError::NoLambdaBody => {
                proof { reveal_strlit("No lambda body"); }
                "No lambda body"
            },
        }
    }
}

/// The text of each error.
pub open spec fn build_error_text(e: BuildError) -> Seq<char> {
    match e {
        BuildError::NoDefault => "No default! Iter error"@,
        BuildError::NoLambdaBody => "No lambda body"@,
    }
}

/// The outcome of writing a node: `None` where writing cannot finish, else
/// the lines or the error.
pub type Built = Option<Result<Seq<Seq<char>>, BuildError>>;

/// The outcome of writing a node as one text: its lines joined.
pub type BuiltText = Option<Result<Seq<char>, BuildError>>;

/// One line.
pub open spec fn one(t: Seq<char>) -> Built {
    Some(Ok(seq![t]))
}

/// Four spaces before `l`.
pub open spec fn indented(l: Seq<char>) -> Seq<char> {
    "    "@ + l
}

/// Each line of `ls` indented.
pub open spec fn indent_all(ls: Seq<Seq<char>>) -> Seq<Seq<char>> {
    Seq::new(ls.len(), |j: int| indented(ls[j]))
}

/// The lines of `r` joined into one text.
pub open spec fn joined(r: Built) -> BuiltText {
    match r {
        None => None,
        Some(Err(e)) => Some(Err(e)),
        Some(Ok(ls)) => Some(Ok(join_seq(ls, ""@))),
    }
}

/// `f` of the text of `a`, once `a` is written.
pub open spec fn then1(a: BuiltText, f: spec_fn(Seq<char>) -> Seq<Seq<char>>) -> Built {
    match a {
        None => None,
        Some(Err(e)) => Some(Err(e)),
        Some(Ok(x)) => Some(Ok(f(x))),
    }
}

/// `f` of the texts of `a` and then `b`: an error of `a` comes first.
pub open spec fn then2(
    a: BuiltText,
    b: BuiltText,
    f: spec_fn(Seq<char>, Seq<char>) -> Seq<Seq<char>>,
) -> Built {
    match a {
        None => None,
        Some(Err(e)) => Some(Err(e)),
        Some(Ok(x)) => match b {
            None => None,
            Some(Err(e)) => Some(Err(e)),
            Some(Ok(y)) => Some(Ok(f(x, y))),
        },
    }
}

/// `head` before the lines of `r`.
pub open spec fn after(head: Seq<Seq<char>>, r: Built) -> Built {
    match r {
        Some(Ok(ls)) => Some(Ok(head + ls)),
        other => other,
    }
}

/// The characters of an optional string.
pub open spec fn opt_str(o: Option<String>) -> Option<Seq<char>> {
    match o {
        Some(s) => Some(s@),
        None => None,
    }
}

/// The text of node `e`: its lines joined.
pub open spec fn text_of(e: ExpressionEnum) -> BuiltText
    decreases e, 1nat,
{
    joined(build_spec(e))
}

/// What writing `e` gives.
pub open spec fn build_spec(e: ExpressionEnum) -> Built
    decreases e, 0nat,
{
    match e {
        ExpressionEnum::Class(c) => class_spec(c),
        ExpressionEnum::Function(f) => function_spec(f),
        ExpressionEnum::FastVariable(v) => if v.name@ == "None"@ {
            one(""@)
        } else if v.name@ == "0"@ {
            Some(Ok(Seq::empty()))
        } else {
            one(v.name@)
        },
        ExpressionEnum::Return(r) => then1(
            text_of(*r.value),
            |x: Seq<char>| if x.len() == 0 { Seq::empty() } else { seq!["return "@ + x] },
        ),
        ExpressionEnum::Yield(y) => then1(
            text_of(*y.value),
            |x: Seq<char>| if x.len() == 0 { seq!["yield"@] } else { seq!["yield "@ + x] },
        ),
        ExpressionEnum::Assign(a) => then2(
            text_of(*a.target),
            text_of(*a.values),
            |x: Seq<char>, y: Seq<char>| seq![x + " "@ + a.operator@ + " "@ + y],
        ),
        ExpressionEnum::Alias(a) => then2(
            text_of(*a.target),
            text_of(*a.alias),
            |x: Seq<char>, y: Seq<char>| seq![x + " as "@ + y],
        ),
        ExpressionEnum::Try(t) => match lines_from(t.body@, 0, true) {
            None => None,
            Some(Err(x)) => Some(Err(x)),
            Some(Ok(b)) => match lines_from(t.except@, 0, false) {
                None => None,
                Some(Err(x)) => Some(Err(x)),
                Some(Ok(ex)) => after(b + ex, build_spec(*t.finally)),
            },
        },
        ExpressionEnum::Except(x) => match text_of(*x.exception) {
            None => None,
            Some(Err(err)) => Some(Err(err)),
            Some(Ok(t)) => after(
                seq![if t.len() == 0 { "except:"@ } else { "except "@ + t + ":"@ }],
                lines_from(x.body@, 0, true),
            ),
        },
        ExpressionEnum::Finally(f) => after(seq!["finally:"@], lines_from(f.body@, 0, true)),
        ExpressionEnum::Assert(a) => match a.msg {
            Some(m) => then2(
                text_of(*a.test),
                text_of(*m),
                |x: Seq<char>, y: Seq<char>| seq!["assert "@ + x + ", "@ + y],
            ),
            None => then1(text_of(*a.test), |x: Seq<char>| seq![x]),
        },
        ExpressionEnum::Raise(r) => then1(
            text_of(*r.exception),
            |x: Seq<char>| seq!["raise "@ + x],
        ),
        ExpressionEnum::Await(a) => then1(
            text_of(*a.awaitable_expr),
            |x: Seq<char>| seq!["await "@ + x],
        ),
        ExpressionEnum::BaseValue(b) => if b.value@ == "None"@ {
            one(""@)
        } else {
            one(b.value@)
        },
        ExpressionEnum::Call(c) => match text_of(*c.func) {
            None => None,
            Some(Err(x)) => Some(Err(x)),
            Some(Ok(f)) => match texts_from(c.args@, 0) {
                None => None,
                Some(Err(x)) => Some(Err(x)),
                Some(Ok(args)) => one(call_line(f, args)),
            },
        },
        ExpressionEnum::FormatValue(v) => then1(text_of(*v.value), |x: Seq<char>| seq![x]),
        ExpressionEnum::Format(f) => match format_from(f.format_values@, 0) {
            None => None,
            Some(Err(x)) => Some(Err(x)),
            Some(Ok(t)) => one("f\""@ + replace_seq(t, "\""@, "\\\""@) + "\""@),
        },
        ExpressionEnum::BinaryOperation(b) => then2(
            text_of(*b.left),
            text_of(*b.right),
            |x: Seq<char>, y: Seq<char>| seq![x + " "@ + b.operator@ + " "@ + y],
        ),
        ExpressionEnum::UnaryOperation(u) => match u.unary_type {
            UnaryType::Positive => None,
            t => then1(text_of(*u.target), |x: Seq<char>| seq![unary_prefix(t) + x]),
        },
        ExpressionEnum::Import(i) => one(import_line(i)),
        ExpressionEnum::Container(c) => match lines_from(c.values@, 0, false) {
            None => None,
            Some(Err(x)) => Some(Err(x)),
            Some(Ok(vs)) => container_line(c.container_type, none_for_empty(vs)),
        },
        ExpressionEnum::Subscr(s) => then2(
            text_of(*s.index),
            text_of(*s.target),
            |i: Seq<char>, t: Seq<char>| seq![t + "["@ + i + "]"@],
        ),
        ExpressionEnum::Slice(s) => match text_of(*s.origin) {
            None => None,
            Some(Err(x)) => Some(Err(x)),
            Some(Ok(o)) => match texts_from(s.slice@, 0) {
                None => None,
                Some(Err(x)) => Some(Err(x)),
                Some(Ok(parts)) => one(o + "["@ + join_seq(parts, ":"@) + "]"@),
            },
        },
        ExpressionEnum::Attribute(a) => then2(
            text_of(*a.parent),
            text_of(*a.attr),
            |x: Seq<char>, y: Seq<char>| seq![x + "."@ + y],
        ),
        ExpressionEnum::With(w) => match text_of(*w.item) {
            None => None,
            Some(Err(x)) => Some(Err(x)),
            Some(Ok(t)) => after(
                seq![(if w.is_async { "async with "@ } else { "with "@ }) + t + ":"@],
                block_or_pass(w.body@),
            ),
        },
        ExpressionEnum::If(i) => if_spec(i),
        ExpressionEnum::For(f) => match text_of(*f.iterator) {
            None => None,
            Some(Err(x)) => Some(Err(x)),
            Some(Ok(it)) => match text_of(*f.items) {
                None => None,
                Some(Err(x)) => Some(Err(x)),
                Some(Ok(items)) => after(
                    seq![
                        (if f.is_async { "async for "@ } else { "for "@ }) + items + " in "@ + it
                            + ":"@,
                    ],
                    block_or_pass(f.body@),
                ),
            },
        },
        ExpressionEnum::Jump(_) => Some(Ok(Seq::empty())),
    }
}

/// The lines of `s[i..]` one node after another, each line indented when
/// `ind` holds; the first node that fails decides.
pub open spec fn lines_from(s: Seq<ExpressionEnum>, i: nat, ind: bool) -> Built
    decreases s, s.len() - i,
{
    if i >= s.len() {
        Some(Ok(Seq::empty()))
    } else {
        match build_spec(s[i as int]) {
            None => None,
            Some(Err(x)) => Some(Err(x)),
            Some(Ok(ls)) => after(
                if ind { indent_all(ls) } else { ls },
                lines_from(s, i + 1, ind),
            ),
        }
    }
}

/// A body: `    pass` when it has no node, else its indented lines.
pub open spec fn block_or_pass(s: Seq<ExpressionEnum>) -> Built
    decreases s, s.len() + 1,
{
    if s.len() == 0 {
        one("    pass"@)
    } else {
        lines_from(s, 0, true)
    }
}

/// The texts of the nodes of `s[i..]`.
pub open spec fn texts_from(s: Seq<ExpressionEnum>, i: nat) -> Built
    decreases s, s.len() - i,
{
    if i >= s.len() {
        Some(Ok(Seq::empty()))
    } else {
        match text_of(s[i as int]) {
            None => None,
            Some(Err(x)) => Some(Err(x)),
            Some(Ok(t)) => after(seq![t], texts_from(s, i + 1)),
        }
    }
}

/// The piece of an f-string that a node with text `t` gives.
pub open spec fn format_piece(e: ExpressionEnum, t: Seq<char>) -> Seq<char> {
    if e is FormatValue {
        "{"@ + t + "}"@
    } else {
        trim_both_seq(t, "'"@)
    }
}

/// The f-string body that the nodes of `s[i..]` give.
pub open spec fn format_from(s: Seq<ExpressionEnum>, i: nat) -> BuiltText
    decreases s, s.len() - i,
{
    if i >= s.len() {
        Some(Ok(Seq::empty()))
    } else {
        match text_of(s[i as int]) {
            None => None,
            Some(Err(x)) => Some(Err(x)),
            Some(Ok(t)) => match format_from(s, i + 1) {
                Some(Ok(rest)) => Some(Ok(format_piece(s[i as int], t) + rest)),
                other => other,
            },
        }
    }
}

/// A call of `f` with the argument texts `args`; a lambda is called in
/// parentheses.
pub open spec fn call_line(f: Seq<char>, args: Seq<Seq<char>>) -> Seq<char> {
    let a = trim_end_seq(join_seq(args, ", "@), ", "@);
    if starts_with_seq(f, "lambda "@) {
        "("@ + f + ")("@ + a + ")"@
    } else {
        f + "("@ + a + ")"@
    }
}

/// The operator text of a unary operation other than a plus.
pub open spec fn unary_prefix(t: UnaryType) -> Seq<char> {
    match t {
        UnaryType::Negative => "-"@,
        UnaryType::Invert => "~"@,
        UnaryType::Not => "not "@,
        UnaryType::Positive => "+"@,
    }
}

/// An import statement.
pub open spec fn import_line(i: Import) -> Seq<char> {
    match i.bk_module {
        None => match i.alias {
            None => "import "@ + i.module@,
            Some(a) => "import "@ + i.module@ + " as "@ + trim_end_seq(a@, ", "@),
        },
        Some(b) => "from "@ + i.module@ + " import "@ + trim_end_seq(b@, ", "@),
    }
}

/// `None` in place of each empty line.
pub open spec fn none_for_empty(vs: Seq<Seq<char>>) -> Seq<Seq<char>> {
    Seq::new(vs.len(), |j: int| if vs[j].len() == 0 { "None"@ } else { vs[j] })
}

/// The `key: value` pairs of a dictionary whose keys and values alternate
/// in `vs`.
pub open spec fn dict_pairs(vs: Seq<Seq<char>>) -> Seq<Seq<char>> {
    Seq::new(vs.len() / 2, |k: int| vs[2 * k] + ": "@ + vs[2 * k + 1])
}

/// A container display of the value texts `vs`.
pub open spec fn container_line(t: ContainerType, vs: Seq<Seq<char>>) -> Built {
    match t {
        ContainerType::List => one("["@ + join_seq(vs, ", "@) + "]"@),
        ContainerType::Tuple => one("("@ + join_seq(vs, ", "@) + ")"@),
        ContainerType::SetContainer => one("{ "@ + join_seq(vs, ", "@) + " }"@),
        ContainerType::Dict => if vs.len() % 2 == 1 {
            None
        } else {
            one("{ "@ + join_seq(dict_pairs(vs), ", "@) + " }"@)
        },
    }
}

/// An `if` or `else` with its body, then its `elif` or `else` branch.
pub open spec fn if_spec(i: If) -> Built
    decreases i, 1nat,
{
    let head: BuiltText = match i.test {
        Some(t) => match text_of(*t) {
            Some(Ok(x)) => Some(Ok("if "@ + x + ":"@)),
            other => other,
        },
        None => Some(Ok("else:"@)),
    };
    match head {
        None => None,
        Some(Err(x)) => Some(Err(x)),
        Some(Ok(h)) => match lines_from(i.body@, 0, true) {
            None => None,
            Some(Err(x)) => Some(Err(x)),
            Some(Ok(b)) => match i.or_else {
                None => Some(Ok(seq![h] + b)),
                Some(o) => match build_spec(*o) {
                    None => None,
                    Some(Err(x)) => Some(Err(x)),
                    Some(Ok(ol)) => if ol.len() == 0 {
                        None
                    } else if starts_with_seq(ol[0], "if "@) {
                        Some(Ok(seq![h] + b + seq!["el"@ + ol[0]] + ol.drop_first()))
                    } else {
                        Some(Ok(seq![h] + b + ol))
                    },
                },
            },
        },
    }
}

/// `x` placed into `s`, whose parameters are in index order, after every
/// parameter whose index is not larger.
pub open spec fn insert_by_index(s: Seq<FastVariable>, x: FastVariable) -> Seq<FastVariable>
    decreases s.len(),
{
    if s.len() == 0 {
        seq![x]
    } else if s.last().index <= x.index {
        s.push(x)
    } else {
        insert_by_index(s.drop_last(), x).push(s.last())
    }
}

/// The parameters in index order; parameters of equal index keep their
/// order.
pub open spec fn sort_by_index(s: Seq<FastVariable>) -> Seq<FastVariable>
    decreases s.len(),
{
    if s.len() == 0 {
        s
    } else {
        insert_by_index(sort_by_index(s.drop_last()), s.last())
    }
}

/// A parameter, with its annotation if it has one.
pub open spec fn param_text(a: FastVariable) -> Seq<char> {
    match opt_str(a.annotation) {
        None => a.name@,
        Some(t) => a.name@ + ": "@ + t,
    }
}

/// The parameter list and the return annotation that the parameters
/// `ps[i..]` add to `args` and `ret`. `used` defaults are taken; `offset`
/// parameters remain before the first that takes a default. A parameter
/// named `return` gives the return annotation.
pub open spec fn signature_from(
    ps: Seq<FastVariable>,
    defaults: Seq<Seq<char>>,
    i: nat,
    used: nat,
    offset: nat,
    args: Seq<char>,
    ret: Seq<char>,
) -> Result<(Seq<char>, Seq<char>), BuildError>
    decreases ps.len() - i,
{
    if i >= ps.len() {
        Ok((args, ret))
    } else {
        let a = ps[i as int];
        if a.name@ == "return"@ {
            let anno = match opt_str(a.annotation) {
                Some(t) => t,
                None => "None"@,
            };
            signature_from(ps, defaults, i + 1, used, offset, args, ret + " -> "@ + anno)
        } else if offset == 0 {
            if used >= defaults.len() {
                Err(BuildError::NoDefault)
            } else {
                signature_from(
                    ps,
                    defaults,
                    i + 1,
                    used + 1,
                    0,
                    args + param_text(a) + " = "@ + defaults[used as int] + ", "@,
                    ret,
                )
            }
        } else {
            signature_from(
                ps,
                defaults,
                i + 1,
                used,
                (offset - 1) as nat,
                args + param_text(a) + ", "@,
                ret,
            )
        }
    }
}

/// The parameter list and return annotation of `f`.
pub open spec fn signature(f: Function) -> Result<(Seq<char>, Seq<char>), BuildError>
    recommends
        f.defaults@.len() <= f.args@.len(),
{
    signature_from(
        sort_by_index(f.args@),
        strings_view(f.defaults@),
        0,
        0,
        (f.args@.len() - f.defaults@.len()) as nat,
        Seq::empty(),
        Seq::empty(),
    )
}

/// A lambda whose body has text `b`: `return ` dropped, a yield in
/// parentheses.
pub open spec fn lambda_line(args: Seq<char>, b: Seq<char>) -> Seq<char> {
    let body = trim_start_seq(b, "return "@);
    if starts_with_seq(body, "yield"@) {
        "lambda "@ + args + ": ("@ + body + ")"@
    } else {
        "lambda "@ + args + ": "@ + body
    }
}

/// A lambda with parameter list `a`: its first body part, `NoLambdaBody`
/// without one.
pub open spec fn lambda_spec(f: Function, a: Seq<char>) -> Built
    decreases f, 2nat,
{
    if f.bodys@.len() == 0 {
        Some(Err(BuildError::NoLambdaBody))
    } else {
        then1(text_of(f.bodys@[0]), |b: Seq<char>| seq![lambda_line(a, b)])
    }
}

/// A list comprehension over the parameters `a`: the element, then the
/// iterable.
pub open spec fn listcomp_spec(f: Function, a: Seq<char>) -> Built
    decreases f, 2nat,
{
    if f.bodys@.len() < 2 {
        None
    } else {
        then2(
            text_of(f.bodys@[0]),
            text_of(f.bodys@[1]),
            |x: Seq<char>, y: Seq<char>| seq!["["@ + x + " for "@ + a + " in "@ + y + "]"@],
        )
    }
}

/// A definition with parameter list `a` and return annotation `rc`: its
/// header, its body or `pass`, then an empty line.
pub open spec fn def_spec(f: Function, a: Seq<char>, rc: Seq<char>) -> Built
    decreases f, 2nat,
{
    let first = (if f.is_async { "async def "@ } else { "def "@ }) + f.name@ + "("@ + a + ")"@
        + rc + ":"@;
    match lines_from(f.bodys@, 0, true) {
        None => None,
        Some(Err(x)) => Some(Err(x)),
        Some(Ok(b)) => Some(
            Ok(seq![first] + (if b.len() == 0 { seq!["    pass"@] } else { b }) + seq![""@]),
        ),
    }
}

/// A function: a lambda, a list comprehension, or a definition.
pub open spec fn function_spec(f: Function) -> Built
    decreases f, 3nat,
{
    if f.defaults@.len() > f.args@.len() {
        None
    } else {
        match signature(f) {
            Err(x) => Some(Err(x)),
            Ok((ac, rc)) => {
                let a = trim_end_seq(ac, ", "@);
                if f.name@ == "<lambda>"@ {
                    lambda_spec(f, a)
                } else if f.name@ == "<listcomp>"@ {
                    listcomp_spec(f, a)
                } else {
                    def_spec(f, a, rc)
                }
            },
        }
    }
}

/// Whether `m` assigns to a name, and to which.
pub open spec fn assigned_name(m: ExpressionEnum) -> Option<Option<Seq<char>>> {
    match m {
        ExpressionEnum::Assign(a) => match *a.target {
            ExpressionEnum::BaseValue(n) => Some(Some(n.value@)),
            _ => Some(None),
        },
        _ => None,
    }
}

/// The index of the first member of `s[i..]` that is not an assignment to
/// `__module__` or `__qualname__`; `None` where an assignment to something
/// other than a name comes first, on which the scan never ends.
pub open spec fn skip_filtered(s: Seq<ExpressionEnum>, i: nat) -> Option<nat>
    decreases s.len() - i,
{
    if i >= s.len() {
        Some(i)
    } else {
        match assigned_name(s[i as int]) {
            Some(Some(n)) => if n == "__module__"@ || n == "__qualname__"@ {
                skip_filtered(s, i + 1)
            } else {
                Some(i)
            },
            Some(None) => None,
            None => Some(i),
        }
    }
}

/// A method line with `self` or `*args` added to the parameters that the
/// pattern found, `args`: `()` becomes `(self, *args)`, other parameters
/// get `, *args` after them.
pub open spec fn with_self(line: Seq<char>, args: Option<Seq<char>>) -> Seq<char> {
    match args {
        None => line,
        Some(a) => if a.len() == 0 {
            replace_seq(line, "()"@, "(self, *args)"@)
        } else {
            replace_seq(line, a, a + ", *args"@)
        },
    }
}

/// The member lines `ls` after `code`, indented and given `self`, then an
/// empty line unless the last line is blank.
pub open spec fn member_lines(code: Seq<Seq<char>>, ls: Seq<Seq<char>>) -> Seq<Seq<char>> {
    let c = code + Seq::new(ls.len(), |j: int| indented(with_self(ls[j], def_args(ls[j]))));
    if c.len() > 0 && blank(c.last()) {
        c
    } else {
        c.push(Seq::empty())
    }
}

/// The members `s[i..]` written after `code`.
pub open spec fn class_members(code: Seq<Seq<char>>, s: Seq<ExpressionEnum>, i: nat) -> Built
    decreases s, s.len() - i,
{
    if i >= s.len() {
        Some(Ok(code))
    } else {
        match build_spec(s[i as int]) {
            None => None,
            Some(Err(x)) => Some(Err(x)),
            Some(Ok(ls)) => class_members(member_lines(code, ls), s, i + 1),
        }
    }
}

/// The lines of `ls` that are not blank.
pub open spec fn nonblank(ls: Seq<Seq<char>>) -> Seq<Seq<char>>
    decreases ls.len(),
{
    if ls.len() == 0 {
        ls
    } else if blank(ls.last()) {
        nonblank(ls.drop_last())
    } else {
        nonblank(ls.drop_last()).push(ls.last())
    }
}

/// A class docstring with text `d` after `code`: `\n` escapes made line
/// breaks, enclosing quotes dropped, non-blank lines between lines of three
/// double quotes, then an empty line.
pub open spec fn doc_lines(code: Seq<Seq<char>>, d: Seq<char>) -> Seq<Seq<char>> {
    let t = trim_both_seq(replace_seq(d, "\\n"@, "\n"@), "'"@);
    code + seq!["    \"\"\""@] + nonblank(text_lines(t)) + seq!["    \"\"\""@, ""@]
}

/// Whether `m` assigns the docstring.
pub open spec fn is_doc(m: ExpressionEnum) -> bool {
    assigned_name(m) == Some(Some("__doc__"@))
}

/// A class: its header, its docstring, then its members; `pass` when it has
/// none. Assignments to `__module__` and `__qualname__` that come first are
/// left out.
pub open spec fn class_spec(c: Class) -> Built
    decreases c, 1nat,
{
    let head = seq!["class "@ + c.name@ + ":"@];
    let s = c.members@;
    match skip_filtered(s, 0) {
        None => None,
        Some(i) => if i < s.len() && is_doc(s[i as int]) {
            match s[i as int] {
                ExpressionEnum::Assign(a) => match text_of(*a.values) {
                    None => None,
                    Some(Err(x)) => Some(Err(x)),
                    Some(Ok(d)) => class_members(doc_lines(head, d), s, i + 1),
                },
                _ => None,
            }
        } else if i < s.len() {
            class_members(head, s, i)
        } else {
            Some(Ok(head.push("    pass"@)))
        },
    }
}

/// The outcome of an executable write, as lines of characters.
pub open spec fn opt_lines(r: Option<Result<Vec<String>, BuildError>>) -> Built {
    match r {
        None => None,
        Some(Err(e)) => Some(Err(e)),
        Some(Ok(v)) => Some(Ok(strings_view(v@))),
    }
}

/// The outcome of an executable write of one text.
pub open spec fn opt_text(r: Option<Result<String, BuildError>>) -> BuiltText {
    match r {
        None => None,
        Some(Err(e)) => Some(Err(e)),
        Some(Ok(v)) => Some(Ok(v@)),
    }
}

/// The lines of a result.
pub open spec fn lines_view(r: Result<Vec<String>, BuildError>) -> Result<Seq<Seq<char>>, BuildError> {
    match r {
        Ok(v) => Ok(strings_view(v@)),
        Err(e) => Err(e),
    }
}

/// A copy of `t`.
fn own(t: &str) -> (r: String)
    ensures
        r@ == t@,
{
    String::from_str(t)
}

/// One line, `t`.
fn single(t: String) -> (r: Option<Result<Vec<String>, BuildError>>)
    ensures
        opt_lines(r) == one(t@),
{
    let ghost tv = t@;
    let mut v: Vec<String> = Vec::new();
    v.push(t);
    proof {
        assert(strings_view(v@) =~= seq![tv]);
    }
    Some(Ok(v))
}

/// No line.
fn no_lines() -> (r: Option<Result<Vec<String>, BuildError>>)
    ensures
        opt_lines(r) == Some(Ok::<Seq<Seq<char>>, BuildError>(Seq::empty())),
{
    let v: Vec<String> = Vec::new();
    proof {
        assert(strings_view(v@) =~= Seq::<Seq<char>>::empty());
    }
    Some(Ok(v))
}

/// Each line of `ls` indented.
fn indent_vec(ls: &Vec<String>) -> (r: Vec<String>)
    ensures
        strings_view(r@) == indent_all(strings_view(ls@)),
{
    let mut r: Vec<String> = Vec::new();
    let mut i: usize = 0;
    while i < ls.len()
        invariant
            i <= ls@.len(),
            r@.len() == i,
            forall|j: int| 0 <= j < i ==> #[trigger] r@[j]@ == indented(ls@[j]@),
        decreases ls@.len() - i,
    {
        r.push(crate::text::concat2("    ", ls[i].as_str()));
        i = i + 1;
    }
    proof {
        assert(strings_view(r@) =~= indent_all(strings_view(ls@)));
    }
    r
}

/// Appends the strings of `more` to `acc`.
fn append_all(acc: &mut Vec<String>, more: Vec<String>)
    ensures
        strings_view(final(acc)@) == strings_view(old(acc)@) + strings_view(more@),
{
    let mut m = more;
    let ghost a = acc@;
    let ghost b = m@;
    acc.append(&mut m);
    proof {
        assert(strings_view(acc@) =~= strings_view(a) + strings_view(b));
    }
}

/// The lines of the nodes of `s`, one after another, indented when `ind`
/// holds.
fn lines_exec(s: &Vec<ExpressionEnum>, ind: bool) -> (r: Option<Result<Vec<String>, BuildError>>)
    ensures
        opt_lines(r) == lines_from(s@, 0, ind),
    decreases s, 1nat,
{
    let mut acc: Vec<String> = Vec::new();
    let mut i: usize = 0;
    proof {
        assert(strings_view(acc@) =~= Seq::<Seq<char>>::empty());
        assert(after(Seq::empty(), lines_from(s@, 0, ind)) == lines_from(s@, 0, ind)) by {
            match lines_from(s@, 0, ind) {
                Some(Ok(x)) => { assert(Seq::<Seq<char>>::empty() + x =~= x); },
                _ => {},
            }
        }
    }
    while i < s.len()
        invariant
            i <= s@.len(),
            lines_from(s@, 0, ind) == after(strings_view(acc@), lines_from(s@, i as nat, ind)),
        decreases s@.len() - i,
    {
        let ls = match s[i].build_opt() {
            None => { return None; },
            Some(Err(e)) => { return Some(Err(e)); },
            Some(Ok(ls)) => ls,
        };
        let ghost before = strings_view(acc@);
        let ghost lv = strings_view(ls@);
        let more = if ind { indent_vec(&ls) } else { ls };
        let ghost mv = strings_view(more@);
        append_all(&mut acc, more);
        proof {
            match lines_from(s@, (i + 1) as nat, ind) {
                Some(Ok(rest)) => {
                    assert(before + (mv + rest) =~= strings_view(acc@) + rest);
                },
                _ => {},
            }
        }
        i = i + 1;
    }
    Some(Ok(acc))
}

/// `after` over a vector of strings.
fn after_exec(head: Vec<String>, r: Option<Result<Vec<String>, BuildError>>) -> (out: Option<
    Result<Vec<String>, BuildError>,
>)
    ensures
        opt_lines(out) == after(strings_view(head@), opt_lines(r)),
{
    match r {
        None => None,
        Some(Err(e)) => Some(Err(e)),
        Some(Ok(ls)) => {
            let mut h = head;
            append_all(&mut h, ls);
            Some(Ok(h))
        },
    }
}

/// The texts of the nodes of `s`.
fn texts_exec(s: &Vec<ExpressionEnum>) -> (r: Option<Result<Vec<String>, BuildError>>)
    ensures
        opt_lines(r) == texts_from(s@, 0),
    decreases s, 1nat,
{
    let mut acc: Vec<String> = Vec::new();
    let mut i: usize = 0;
    proof {
        assert(strings_view(acc@) =~= Seq::<Seq<char>>::empty());
        match texts_from(s@, 0) {
            Some(Ok(x)) => { assert(Seq::<Seq<char>>::empty() + x =~= x); },
            _ => {},
        }
    }
    while i < s.len()
        invariant
            i <= s@.len(),
            texts_from(s@, 0) == after(strings_view(acc@), texts_from(s@, i as nat)),
        decreases s@.len() - i,
    {
        let t = match s[i].text_opt() {
            None => { return None; },
            Some(Err(e)) => { return Some(Err(e)); },
            Some(Ok(t)) => t,
        };
        let ghost before = strings_view(acc@);
        let ghost tv = t@;
        acc.push(t);
        proof {
            assert(strings_view(acc@) =~= before.push(tv));
            match texts_from(s@, (i + 1) as nat) {
                Some(Ok(rest)) => {
                    assert(before + (seq![tv] + rest) =~= strings_view(acc@) + rest);
                },
                _ => {},
            }
        }
        i = i + 1;
    }
    Some(Ok(acc))
}

/// `acc` before the text of `r`.
pub open spec fn after_text(acc: Seq<char>, r: BuiltText) -> BuiltText {
    match r {
        Some(Ok(t)) => Some(Ok(acc + t)),
        other => other,
    }
}

/// The f-string body that the nodes of `s` give.
fn format_exec(s: &Vec<ExpressionEnum>) -> (r: Option<Result<String, BuildError>>)
    ensures
        opt_text(r) == format_from(s@, 0),
    decreases s, 1nat,
{
    let mut acc = String::new();
    let mut i: usize = 0;
    proof {
        match format_from(s@, 0) {
            Some(Ok(x)) => { assert(Seq::<char>::empty() + x =~= x); },
            _ => {},
        }
    }
    while i < s.len()
        invariant
            i <= s@.len(),
            format_from(s@, 0) == after_text(acc@, format_from(s@, i as nat)),
        decreases s@.len() - i,
    {
        let t = match s[i].text_opt() {
            None => { return None; },
            Some(Err(e)) => { return Some(Err(e)); },
            Some(Ok(t)) => t,
        };
        let ghost before = acc@;
        let piece = if let ExpressionEnum::FormatValue(_) = &s[i] {
            crate::text::concat3("{", t.as_str(), "}")
        } else {
            crate::text::trim_matches(t.as_str(), "'")
        };
        proof {
            reveal_strlit("{");
            reveal_strlit("}");
            assert(piece@ == format_piece(s@[i as int], t@));
        }
        acc.append(piece.as_str());
        proof {
            match format_from(s@, (i + 1) as nat) {
                Some(Ok(rest)) => {
                    assert(before + (piece@ + rest) =~= acc@ + rest);
                },
                _ => {},
            }
        }
        i = i + 1;
    }
    Some(Ok(acc))
}

/// Writes a node of this kind.
fn return_exec(node: &Return) -> (r: Option<Result<Vec<String>, BuildError>>)
    ensures
        opt_lines(r) == build_spec(ExpressionEnum::Return(*node)),
    decreases node, 1nat,
{
        let x = match node.value.text_opt() {
            None => { return None; },
            Some(Err(e)) => { return Some(Err(e)); },
            Some(Ok(t)) => t,
        };
        if x.as_str().unicode_len() == 0 {
            no_lines()
        } else {
            single(crate::text::concat2("return ", x.as_str()))
        }
}

/// Writes a node of this kind.
fn yield_exec(node: &Yield) -> (r: Option<Result<Vec<String>, BuildError>>)
    ensures
        opt_lines(r) == build_spec(ExpressionEnum::Yield(*node)),
    decreases node, 1nat,
{
        let x = match node.value.text_opt() {
            None => { return None; },
            Some(Err(e)) => { return Some(Err(e)); },
            Some(Ok(t)) => t,
        };
        if x.as_str().unicode_len() == 0 {
            single(own("yield"))
        } else {
            single(crate::text::concat2("yield ", x.as_str()))
        }
}

/// Writes a node of this kind.
fn assign_exec(node: &Assign) -> (r: Option<Result<Vec<String>, BuildError>>)
    ensures
        opt_lines(r) == build_spec(ExpressionEnum::Assign(*node)),
    decreases node, 1nat,
{
        let x = match node.target.text_opt() {
            None => { return None; },
            Some(Err(e)) => { return Some(Err(e)); },
            Some(Ok(t)) => t,
        };
        let y = match node.values.text_opt() {
            None => { return None; },
            Some(Err(e)) => { return Some(Err(e)); },
            Some(Ok(t)) => t,
        };
        let l = crate::text::concat3(x.as_str(), " ", node.operator.as_str());
        single(crate::text::concat3(l.as_str(), " ", y.as_str()))
}

/// Writes a node of this kind.
fn alias_exec(node: &Alias) -> (r: Option<Result<Vec<String>, BuildError>>)
    ensures
        opt_lines(r) == build_spec(ExpressionEnum::Alias(*node)),
    decreases node, 1nat,
{
        let x = match node.target.text_opt() {
            None => { return None; },
            Some(Err(e)) => { return Some(Err(e)); },
            Some(Ok(t)) => t,
        };
        let y = match node.alias.text_opt() {
            None => { return None; },
            Some(Err(e)) => { return Some(Err(e)); },
            Some(Ok(t)) => t,
        };
        single(crate::text::concat3(x.as_str(), " as ", y.as_str()))
}

/// Writes a node of this kind.
fn binary_exec(node: &BinaryOperation) -> (r: Option<Result<Vec<String>, BuildError>>)
    ensures
        opt_lines(r) == build_spec(ExpressionEnum::BinaryOperation(*node)),
    decreases node, 1nat,
{
        let x = match node.left.text_opt() {
            None => { return None; },
            Some(Err(e)) => { return Some(Err(e)); },
            Some(Ok(t)) => t,
        };
        let y = match node.right.text_opt() {
            None => { return None; },
            Some(Err(e)) => { return Some(Err(e)); },
            Some(Ok(t)) => t,
        };
        let l = crate::text::concat3(x.as_str(), " ", node.operator.as_str());
        single(crate::text::concat3(l.as_str(), " ", y.as_str()))
}

/// Writes a node of this kind.
fn attribute_exec(node: &Attribute) -> (r: Option<Result<Vec<String>, BuildError>>)
    ensures
        opt_lines(r) == build_spec(ExpressionEnum::Attribute(*node)),
    decreases node, 1nat,
{
        let x = match node.parent.text_opt() {
            None => { return None; },
            Some(Err(e)) => { return Some(Err(e)); },
            Some(Ok(t)) => t,
        };
        let y = match node.attr.text_opt() {
            None => { return None; },
            Some(Err(e)) => { return Some(Err(e)); },
            Some(Ok(t)) => t,
        };
        single(crate::text::concat3(x.as_str(), ".", y.as_str()))
}

/// Writes a node of this kind.
fn subscr_exec(node: &Subscr) -> (r: Option<Result<Vec<String>, BuildError>>)
    ensures
        opt_lines(r) == build_spec(ExpressionEnum::Subscr(*node)),
    decreases node, 1nat,
{
        let i = match node.index.text_opt() {
            None => { return None; },
            Some(Err(e)) => { return Some(Err(e)); },
            Some(Ok(t)) => t,
        };
        let t = match node.target.text_opt() {
            None => { return None; },
            Some(Err(e)) => { return Some(Err(e)); },
            Some(Ok(t)) => t,
        };
        let l = crate::text::concat2(t.as_str(), "[");
        single(crate::text::concat3(l.as_str(), i.as_str(), "]"))
}

/// Writes a node of this kind.
fn raise_exec(node: &Raise) -> (r: Option<Result<Vec<String>, BuildError>>)
    ensures
        opt_lines(r) == build_spec(ExpressionEnum::Raise(*node)),
    decreases node, 1nat,
{
        let x = match node.exception.text_opt() {
            None => { return None; },
            Some(Err(e)) => { return Some(Err(e)); },
            Some(Ok(t)) => t,
        };
        single(crate::text::concat2("raise ", x.as_str()))
}

/// Writes a node of this kind.
fn await_exec(node: &Await) -> (r: Option<Result<Vec<String>, BuildError>>)
    ensures
        opt_lines(r) == build_spec(ExpressionEnum::Await(*node)),
    decreases node, 1nat,
{
        let x = match node.awaitable_expr.text_opt() {
            None => { return None; },
            Some(Err(e)) => { return Some(Err(e)); },
            Some(Ok(t)) => t,
        };
        single(crate::text::concat2("await ", x.as_str()))
}

/// Writes a node of this kind.
fn format_value_exec(node: &FormatValue) -> (r: Option<Result<Vec<String>, BuildError>>)
    ensures
        opt_lines(r) == build_spec(ExpressionEnum::FormatValue(*node)),
    decreases node, 1nat,
{
        let x = match node.value.text_opt() {
            None => { return None; },
            Some(Err(e)) => { return Some(Err(e)); },
            Some(Ok(t)) => t,
        };
        single(x)
}

/// Writes a node of this kind.
fn assert_exec(node: &Assert) -> (r: Option<Result<Vec<String>, BuildError>>)
    ensures
        opt_lines(r) == build_spec(ExpressionEnum::Assert(*node)),
    decreases node, 1nat,
{
        let x = match node.test.text_opt() {
            None => { return None; },
            Some(Err(e)) => { return Some(Err(e)); },
            Some(Ok(t)) => t,
        };
        match &node.msg {
            Some(m) => {
                let y = match m.text_opt() {
                    None => { return None; },
                    Some(Err(e)) => { return Some(Err(e)); },
                    Some(Ok(t)) => t,
                };

                let l = crate::text::concat2("assert ", x.as_str());
                single(crate::text::concat3(l.as_str(), ", ", y.as_str()))
            },
            None => single(x),
        }
}

/// Writes a node of this kind.
fn unary_exec(node: &UnaryOperation) -> (r: Option<Result<Vec<String>, BuildError>>)
    ensures
        opt_lines(r) == build_spec(ExpressionEnum::UnaryOperation(*node)),
    decreases node, 1nat,
{
        let prefix = match node.unary_type {
            UnaryType::Negative => "-",
            UnaryType::Invert => "~",
            UnaryType::Not => "not ",
            UnaryType::Positive => { return None; },
        };
        let x = match node.target.text_opt() {
            None => { return None; },
            Some(Err(e)) => { return Some(Err(e)); },
            Some(Ok(t)) => t,
        };
        single(crate::text::concat2(prefix, x.as_str()))
}

/// Writes a node of this kind.
fn slice_exec(node: &Slice) -> (r: Option<Result<Vec<String>, BuildError>>)
    ensures
        opt_lines(r) == build_spec(ExpressionEnum::Slice(*node)),
    decreases node, 1nat,
{
        let o = match node.origin.text_opt() {
            None => { return None; },
            Some(Err(e)) => { return Some(Err(e)); },
            Some(Ok(t)) => t,
        };
        let parts = match texts_exec(&node.slice) {
            None => { return None; },
            Some(Err(e)) => { return Some(Err(e)); },
            Some(Ok(t)) => t,
        };
        let j = crate::text::join(&parts, ":");
        let l = crate::text::concat2(o.as_str(), "[");
        single(crate::text::concat3(l.as_str(), j.as_str(), "]"))
}

/// Writes a node of this kind.
fn call_exec(node: &Call) -> (r: Option<Result<Vec<String>, BuildError>>)
    ensures
        opt_lines(r) == build_spec(ExpressionEnum::Call(*node)),
    decreases node, 1nat,
{
        let f = match node.func.text_opt() {
            None => { return None; },
            Some(Err(e)) => { return Some(Err(e)); },
            Some(Ok(t)) => t,
        };
        let args = match texts_exec(&node.args) {
            None => { return None; },
            Some(Err(e)) => { return Some(Err(e)); },
            Some(Ok(t)) => t,
        };
        let j = crate::text::join(&args, ", ");
        let a = crate::text::trim_end_matches(j.as_str(), ", ");
        if crate::text::starts_with(f.as_str(), "lambda ") {
            let l = crate::text::concat3("(", f.as_str(), ")(");
            single(crate::text::concat3(l.as_str(), a.as_str(), ")"))
        } else {
            let l = crate::text::concat2(f.as_str(), "(");
            single(crate::text::concat3(l.as_str(), a.as_str(), ")"))
        }
}

/// Writes a node of this kind.
fn format_string_exec(node: &Format) -> (r: Option<Result<Vec<String>, BuildError>>)
    ensures
        opt_lines(r) == build_spec(ExpressionEnum::Format(*node)),
    decreases node, 1nat,
{
        let t = match format_exec(&node.format_values) {
            None => { return None; },
            Some(Err(e)) => { return Some(Err(e)); },
            Some(Ok(t)) => t,
        };
        proof {
            reveal_strlit("\"");
        }
        let q = crate::text::replace(t.as_str(), "\"", "\\\"");
        single(crate::text::concat3("f\"", q.as_str(), "\""))
}

/// Writes a node of this kind.
fn except_exec(node: &Except) -> (r: Option<Result<Vec<String>, BuildError>>)
    ensures
        opt_lines(r) == build_spec(ExpressionEnum::Except(*node)),
    decreases node, 1nat,
{
        let t = match node.exception.text_opt() {
            None => { return None; },
            Some(Err(e)) => { return Some(Err(e)); },
            Some(Ok(t)) => t,
        };
        let h = if t.as_str().unicode_len() == 0 {
            own("except:")
        } else {
            crate::text::concat3("except ", t.as_str(), ":")
        };
        let ghost hv = h@;
        let mut head: Vec<String> = Vec::new();
        head.push(h);
        proof {
            assert(strings_view(head@) =~= seq![hv]);
        }
        after_exec(head, lines_exec(&node.body, true))
}

/// Writes a node of this kind.
fn try_exec(node: &Try) -> (r: Option<Result<Vec<String>, BuildError>>)
    ensures
        opt_lines(r) == build_spec(ExpressionEnum::Try(*node)),
    decreases node, 1nat,
{
        let b = match lines_exec(&node.body, true) {
            None => { return None; },
            Some(Err(e)) => { return Some(Err(e)); },
            Some(Ok(t)) => t,
        };
        let ex = match lines_exec(&node.except, false) {
            None => { return None; },
            Some(Err(e)) => { return Some(Err(e)); },
            Some(Ok(t)) => t,
        };
        let mut head = b;
        append_all(&mut head, ex);
        after_exec(head, node.finally.build_opt())
}

/// Writes a node of this kind.
fn with_exec(node: &With) -> (r: Option<Result<Vec<String>, BuildError>>)
    ensures
        opt_lines(r) == build_spec(ExpressionEnum::With(*node)),
    decreases node, 1nat,
{
        let t = match node.item.text_opt() {
            None => { return None; },
            Some(Err(e)) => { return Some(Err(e)); },
            Some(Ok(t)) => t,
        };
        let pre = if node.is_async { "async with " } else { "with " };
        let h = crate::text::concat3(pre, t.as_str(), ":");
        let ghost hv = h@;
        let mut head: Vec<String> = Vec::new();
        head.push(h);
        proof {
            assert(strings_view(head@) =~= seq![hv]);
        }
        after_exec(head, block_or_pass_exec(&node.body))
}

/// Writes a node of this kind.
fn for_exec(node: &For) -> (r: Option<Result<Vec<String>, BuildError>>)
    ensures
        opt_lines(r) == build_spec(ExpressionEnum::For(*node)),
    decreases node, 1nat,
{
        let it = match node.iterator.text_opt() {
            None => { return None; },
            Some(Err(e)) => { return Some(Err(e)); },
            Some(Ok(t)) => t,
        };
        let items = match node.items.text_opt() {
            None => { return None; },
            Some(Err(e)) => { return Some(Err(e)); },
            Some(Ok(t)) => t,
        };
        let pre = if node.is_async { "async for " } else { "for " };
        let l = crate::text::concat3(pre, items.as_str(), " in ");
        let h = crate::text::concat3(l.as_str(), it.as_str(), ":");
        let ghost hv = h@;
        let mut head: Vec<String> = Vec::new();
        head.push(h);
        proof {
            assert(strings_view(head@) =~= seq![hv]);
        }
        after_exec(head, block_or_pass_exec(&node.body))
}

/// A body: `    pass` when it has no node, else its indented lines.
fn block_or_pass_exec(s: &Vec<ExpressionEnum>) -> (r: Option<Result<Vec<String>, BuildError>>)
    ensures
        opt_lines(r) == block_or_pass(s@),
    decreases s, 2nat,
{
    if s.len() == 0 {
        single(own("    pass"))
    } else {
        lines_exec(s, true)
    }
}

/// An import statement.
fn import_exec(i: &Import) -> (r: String)
    ensures
        r@ == import_line(*i),
{
    match &i.bk_module {
        None => match &i.alias {
            None => crate::text::concat2("import ", i.module.as_str()),
            Some(a) => {
                let l = crate::text::concat3("import ", i.module.as_str(), " as ");
                let t = crate::text::trim_end_matches(a.as_str(), ", ");
                crate::text::concat2(l.as_str(), t.as_str())
            },
        },
        Some(b) => {
            let l = crate::text::concat3("from ", i.module.as_str(), " import ");
            let t = crate::text::trim_end_matches(b.as_str(), ", ");
            crate::text::concat2(l.as_str(), t.as_str())
        },
    }
}

/// `None` in place of each empty line.
fn none_for_empty_exec(vs: &Vec<String>) -> (r: Vec<String>)
    ensures
        strings_view(r@) == none_for_empty(strings_view(vs@)),
{
    let mut r: Vec<String> = Vec::new();
    let mut i: usize = 0;
    while i < vs.len()
        invariant
            i <= vs@.len(),
            r@.len() == i,
            forall|j: int|
                0 <= j < i ==> #[trigger] r@[j]@ == (if vs@[j]@.len() == 0 {
                    "None"@
                } else {
                    vs@[j]@
                }),
        decreases vs@.len() - i,
    {
        if vs[i].as_str().unicode_len() == 0 {
            r.push(own("None"));
        } else {
            r.push(own(vs[i].as_str()));
        }
        i = i + 1;
    }
    proof {
        assert(strings_view(r@) =~= none_for_empty(strings_view(vs@)));
    }
    r
}

/// The `key: value` pairs of alternating keys and values.
fn dict_pairs_exec(vs: &Vec<String>) -> (r: Vec<String>)
    requires
        vs@.len() % 2 == 0,
    ensures
        strings_view(r@) == dict_pairs(strings_view(vs@)),
{
    let mut r: Vec<String> = Vec::new();
    let mut k: usize = 0;
    let len = vs.len();
    let n = len / 2;
    while k < n
        invariant
            len == vs@.len(),
            n == vs@.len() / 2,
            vs@.len() % 2 == 0,
            k <= n,
            r@.len() == k,
            forall|j: int|
                0 <= j < k ==> #[trigger] r@[j]@ == vs@[2 * j]@ + ": "@ + vs@[2 * j + 1]@,
        decreases n - k,
    {
        assert(2 * k + 1 < len) by (nonlinear_arith)
            requires
                k < n,
                n == len / 2,
                len == vs@.len(),
        ;
        r.push(crate::text::concat3(vs[2 * k].as_str(), ": ", vs[2 * k + 1].as_str()));
        k = k + 1;
    }
    proof {
        assert(strings_view(r@) =~= dict_pairs(strings_view(vs@)));
    }
    r
}

/// Writes a node of this kind.
fn container_exec(node: &Container) -> (r: Option<Result<Vec<String>, BuildError>>)
    ensures
        opt_lines(r) == build_spec(ExpressionEnum::Container(*node)),
    decreases node, 1nat,
{
        let vs0 = match lines_exec(&node.values, false) {
            None => { return None; },
            Some(Err(e)) => { return Some(Err(e)); },
            Some(Ok(t)) => t,
        };
        let vs = none_for_empty_exec(&vs0);
        match node.container_type {
            ContainerType::List => {
                let j = crate::text::join(&vs, ", ");
                single(crate::text::concat3("[", j.as_str(), "]"))
            },
            ContainerType::Tuple => {
                let j = crate::text::join(&vs, ", ");
                single(crate::text::concat3("(", j.as_str(), ")"))
            },
            ContainerType::SetContainer => {
                let j = crate::text::join(&vs, ", ");
                single(crate::text::concat3("{ ", j.as_str(), " }"))
            },
            ContainerType::Dict => {
                if vs.len() % 2 == 1 {
                    None
                } else {
                    let pairs = dict_pairs_exec(&vs);
                    let j = crate::text::join(&pairs, ", ");
                    single(crate::text::concat3("{ ", j.as_str(), " }"))
                }
            },
        }
}

/// Writes an `if` or `else` with its body and its other branch.
fn if_exec(node: &If) -> (r: Option<Result<Vec<String>, BuildError>>)
    ensures
        opt_lines(r) == build_spec(ExpressionEnum::If(*node)),
    decreases node, 1nat,
{
    proof {
        assert(build_spec(ExpressionEnum::If(*node)) == if_spec(*node));
    }
    let h = match &node.test {
        Some(t) => {
            let x = match t.text_opt() {
                None => { return None; },
                Some(Err(e)) => { return Some(Err(e)); },
                Some(Ok(x)) => x,
            };
            crate::text::concat3("if ", x.as_str(), ":")
        },
        None => own("else:"),
    };
        let b = match lines_exec(&node.body, true) {
            None => { return None; },
            Some(Err(e)) => { return Some(Err(e)); },
            Some(Ok(t)) => t,
        };
    let ghost hv = h@;
    let ghost bv = strings_view(b@);
    let mut code: Vec<String> = Vec::new();
    code.push(h);
    proof {
        assert(strings_view(code@) =~= seq![hv]);
    }
    append_all(&mut code, b);
    match &node.or_else {
        None => Some(Ok(code)),
        Some(o) => {
            let ol = match o.build_opt() {
                None => { return None; },
                Some(Err(e)) => { return Some(Err(e)); },
                Some(Ok(ol)) => ol,
            };
            if ol.len() == 0 {
                return None;
            }
            let ghost olv = strings_view(ol@);
            assert(olv[0] == ol@[0]@);
            if crate::text::starts_with(ol[0].as_str(), "if ") {
                let ghost before = strings_view(code@);
                code.push(crate::text::concat2("el", ol[0].as_str()));
                let mut k: usize = 1;
                while k < ol.len()
                    invariant
                        1 <= k <= ol@.len(),
                        olv == strings_view(ol@),
                        strings_view(code@) == before.push("el"@ + olv[0]) + olv.subrange(1, k as int),
                    decreases ol@.len() - k,
                {
                    let ghost c0 = strings_view(code@);
                    code.push(own(ol[k].as_str()));
                    proof {
                        assert(strings_view(code@) =~= c0.push(olv[k as int]));
                        assert(olv.subrange(1, k + 1) =~= olv.subrange(1, k as int).push(olv[k as int]));
                    }
                    k = k + 1;
                }
                proof {
                    assert(olv.subrange(1, olv.len() as int) =~= olv.drop_first());
                    assert(before == seq![hv] + bv);
                    assert(seq![hv] + bv + seq!["el"@ + olv[0]] + olv.drop_first() =~= before.push("el"@ + olv[0]) + olv.drop_first());
                }
                Some(Ok(code))
            } else {
                append_all(&mut code, ol);
                Some(Ok(code))
            }
        },
    }
}

/// Writes a local variable: `None` as an empty line, `0` as no line.
fn fast_variable_exec(node: &FastVariable) -> (r: Option<Result<Vec<String>, BuildError>>)
    ensures
        opt_lines(r) == build_spec(ExpressionEnum::FastVariable(*node)),
{
    let e = String::new();
    proof {
        reveal_strlit("");
        assert(e@ =~= ""@);
    }
    if crate::text::str_eq(node.name.as_str(), "None") {
        single(e)
    } else if crate::text::str_eq(node.name.as_str(), "0") {
        no_lines()
    } else {
        single(own(node.name.as_str()))
    }
}

/// Writes a name or literal: `None` as an empty line.
fn base_value_exec(node: &BaseValue) -> (r: Option<Result<Vec<String>, BuildError>>)
    ensures
        opt_lines(r) == build_spec(ExpressionEnum::BaseValue(*node)),
{
    let e = String::new();
    proof {
        reveal_strlit("");
        assert(e@ =~= ""@);
    }
    if crate::text::str_eq(node.value.as_str(), "None") {
        single(e)
    } else {
        single(own(node.value.as_str()))
    }
}

/// Writes a `finally` block.
fn finally_exec(node: &Finally) -> (r: Option<Result<Vec<String>, BuildError>>)
    ensures
        opt_lines(r) == build_spec(ExpressionEnum::Finally(*node)),
    decreases node, 1nat,
{
    let mut head: Vec<String> = Vec::new();
    head.push(own("finally:"));
    proof {
        assert(strings_view(head@) =~= seq!["finally:"@]);
    }
    after_exec(head, lines_exec(&node.body, true))
}

/// A method line with `self` or `*args` added to the parameters `args`
/// that the `def` pattern found in it: `()` becomes `(self, *args)`, other
/// parameters get `, *args` after them; without `args` the line is kept.
pub fn add_self_with(line: &str, args: Option<String>) -> (r: String)
    ensures
        r@ == with_self(line@, opt_str(args)),
{
    match args {
        None => own(line),
        Some(a) => {
            if a.as_str().unicode_len() == 0 {
                proof {
                    reveal_strlit("()");
                }
                crate::text::replace(line, "()", "(self, *args)")
            } else {
                let with = crate::text::concat2(a.as_str(), ", *args");
                crate::text::replace(line, a.as_str(), with.as_str())
            }
        },
    }
}

/// A member line with `self` or `*args` added where the `def` pattern
/// matches.
fn add_self(line: &str) -> (r: String)
    ensures
        r@ == with_self(line@, def_args(line@)),
{
    let args = match_def_args(line);
    add_self_with(line, args)
}

/// Appends the member lines `ls` to `code`, then an empty line unless the
/// last line is blank.
pub(crate) fn member_lines_exec(code: &mut Vec<String>, ls: &Vec<String>)
    ensures
        strings_view(final(code)@) == member_lines(strings_view(old(code)@), strings_view(ls@)),
{
    let ghost c0 = strings_view(code@);
    let ghost lv = strings_view(ls@);
    let mut i: usize = 0;
    while i < ls.len()
        invariant
            i <= ls@.len(),
            lv == strings_view(ls@),
            strings_view(code@) == c0 + Seq::new(
                i as nat,
                |j: int| indented(with_self(lv[j], def_args(lv[j]))),
            ),
        decreases ls@.len() - i,
    {
        let ghost before = strings_view(code@);
        assert(lv[i as int] == ls@[i as int]@);
        let l = add_self(ls[i].as_str());
        code.push(crate::text::concat2("    ", l.as_str()));
        proof {
            assert(strings_view(code@) =~= before.push(indented(with_self(lv[i as int], def_args(lv[i as int])))));
            assert(strings_view(code@) =~= c0 + Seq::new(
                (i + 1) as nat,
                |j: int| indented(with_self(lv[j], def_args(lv[j]))),
            ));
        }
        i = i + 1;
    }
    proof {
        assert(Seq::new(ls@.len(), |j: int| indented(with_self(lv[j], def_args(lv[j])))) =~= Seq::new(
            lv.len(),
            |j: int| indented(with_self(lv[j], def_args(lv[j]))),
        ));
    }
    let n = code.len();
    if n > 0 && crate::visit::is_blank(code[n - 1].as_str()) {
        assert(strings_view(code@).last() == code@[n - 1]@);
    } else {
        let ghost before = strings_view(code@);
        if n > 0 {
            assert(strings_view(code@).last() == code@[n - 1]@);
        }
        code.push(String::new());
        proof {
            assert(strings_view(code@) =~= before.push(Seq::empty()));
        }
    }
}

/// The index of the first member of `s` that is not an assignment to
/// `__module__` or `__qualname__`; `None` where an assignment to something
/// other than a name comes first.
fn skip_exec(s: &Vec<ExpressionEnum>) -> (r: Option<usize>)
    ensures
        match r {
            None => skip_filtered(s@, 0) is None,
            Some(i) => skip_filtered(s@, 0) == Some(i as nat),
        },
{
    let mut i: usize = 0;
    while i < s.len()
        invariant
            i <= s@.len(),
            skip_filtered(s@, 0) == skip_filtered(s@, i as nat),
        decreases s@.len() - i,
    {
        match &s[i] {
            ExpressionEnum::Assign(a) => match &*a.target {
                ExpressionEnum::BaseValue(n) => {
                    if crate::text::str_eq(n.value.as_str(), "__module__") || crate::text::str_eq(
                        n.value.as_str(),
                        "__qualname__",
                    ) {
                        i = i + 1;
                    } else {
                        return Some(i);
                    }
                },
                _ => { return None; },
            },
            _ => { return Some(i); },
        }
    }
    Some(i)
}

/// The lines of `ls` that are not blank, appended to `code`.
fn push_nonblank(code: &mut Vec<String>, t: &str)
    ensures
        strings_view(final(code)@) == strings_view(old(code)@) + nonblank(text_lines(t@)),
{
    proof {
        reveal_strlit("\n");
    }
    let pieces = crate::text::split(t, "\n");
    let ghost ls = text_lines(t@);
    let ghost c0 = strings_view(code@);
    let mut i: usize = 0;
    proof {
        assert(ls.take(0) =~= Seq::<Seq<char>>::empty());
        assert(c0 + nonblank(ls.take(0)) =~= c0);
    }
    while i < pieces.len()
        invariant
            i <= pieces@.len(),
            ls.len() == pieces@.len(),
            ls == text_lines(t@),
            forall|j: int|
                0 <= j < ls.len() ==> #[trigger] ls[j] == (if j < ls.len() - 1 {
                    crate::visit::strip_cr(pieces@[j]@)
                } else {
                    pieces@[j]@
                }),
            strings_view(code@) == c0 + nonblank(ls.take(i as int)),
        decreases pieces@.len() - i,
    {
        let line = if i < pieces.len() - 1 {
            crate::visit::strip_cr_str(pieces[i].as_str())
        } else {
            String::from_str(pieces[i].as_str())
        };
        assert(line@ == ls[i as int]);
        proof {
            assert(ls.take(i + 1).drop_last() =~= ls.take(i as int));
            assert(ls.take(i + 1).last() == ls[i as int]);
        }
        if !crate::visit::is_blank(line.as_str()) {
            let ghost before = strings_view(code@);
            let ghost lv = line@;
            code.push(line);
            proof {
                assert(strings_view(code@) =~= before.push(lv));
                assert(c0 + nonblank(ls.take(i as int)).push(lv) =~= (c0 + nonblank(ls.take(i as int))).push(lv));
            }
        }
        i = i + 1;
    }
    proof {
        assert(ls.take(ls.len() as int) =~= ls);
    }
}

/// Appends the docstring with text `d` to `code`.
pub(crate) fn doc_lines_exec(code: &mut Vec<String>, d: &str)
    ensures
        strings_view(final(code)@) == doc_lines(strings_view(old(code)@), d@),
{
    proof {
        reveal_strlit("\\n");
    }
    let r = crate::text::replace(d, "\\n", "\n");
    let t = crate::text::trim_matches(r.as_str(), "'");
    let ghost c0 = strings_view(code@);
    code.push(own("    \"\"\""));
    push_nonblank(code, t.as_str());
    let ghost c1 = strings_view(code@);
    code.push(own("    \"\"\""));
    let ghost c2 = strings_view(code@);
    let e = String::new();
    proof {
        reveal_strlit("");
        assert(e@ =~= ""@);
    }
    code.push(e);
    proof {
        assert(c1 == c0.push("    \"\"\""@) + nonblank(text_lines(t@)));
        assert(c2 =~= c1.push("    \"\"\""@));
        assert(strings_view(code@) =~= c2.push(""@));
        assert(strings_view(code@) =~= doc_lines(c0, d@));
    }
}

/// Writes the members `s[i..]` after `code`.
fn members_exec(head: Vec<String>, s: &Vec<ExpressionEnum>, start: usize) -> (r: Option<
    Result<Vec<String>, BuildError>,
>)
    requires
        start <= s@.len(),
    ensures
        opt_lines(r) == class_members(strings_view(head@), s@, start as nat),
    decreases s, 1nat,
{
    let ghost goal = class_members(strings_view(head@), s@, start as nat);
    let mut code = head;
    let mut i = start;
    while i < s.len()
        invariant
            start <= i <= s@.len(),
            goal == class_members(strings_view(head@), s@, start as nat),
            goal == class_members(strings_view(code@), s@, i as nat),
        decreases s@.len() - i,
    {
        let r = s[i].build_opt();
        proof {
            assert(goal == match build_spec(s@[i as int]) {
                None => None,
                Some(Err(x)) => Some(Err(x)),
                Some(Ok(ls)) => class_members(member_lines(strings_view(code@), ls), s@, (i + 1) as nat),
            });
        }
        let ls = match r {
            None => { return None; },
            Some(Err(e)) => { return Some(Err(e)); },
            Some(Ok(ls)) => ls,
        };
        member_lines_exec(&mut code, &ls);
        i = i + 1;
    }
    Some(Ok(code))
}

/// Writes a class: its header, its docstring, then its members.
fn class_exec(node: &Class) -> (r: Option<Result<Vec<String>, BuildError>>)
    ensures
        opt_lines(r) == build_spec(ExpressionEnum::Class(*node)),
    decreases node, 1nat,
{
    proof {
        assert(build_spec(ExpressionEnum::Class(*node)) == class_spec(*node));
    }
    let h = crate::text::concat3("class ", node.name.as_str(), ":");
    let ghost hv = h@;
    let mut code: Vec<String> = Vec::new();
    code.push(h);
    proof {
        assert(strings_view(code@) =~= seq![hv]);
    }
    let s = &node.members;
    let i = match skip_exec(s) {
        None => { return None; },
        Some(i) => i,
    };
    if i < s.len() {
        if let ExpressionEnum::Assign(a) = &s[i] {
            if let ExpressionEnum::BaseValue(n) = &*a.target {
                if crate::text::str_eq(n.value.as_str(), "__doc__") {
                    let d = match a.values.text_opt() {
                        None => { return None; },
                        Some(Err(e)) => { return Some(Err(e)); },
                        Some(Ok(d)) => d,
                    };
                    doc_lines_exec(&mut code, d.as_str());
                    return members_exec(code, s, i + 1);
                }
            }
        }
        members_exec(code, s, i)
    } else {
        let ghost c = strings_view(code@);
        code.push(own("    pass"));
        proof {
            assert(strings_view(code@) =~= c.push("    pass"@));
        }
        Some(Ok(code))
    }
}

/// Placing a parameter adds one to the length.
proof fn lemma_insert_len(s: Seq<FastVariable>, x: FastVariable)
    ensures
        insert_by_index(s, x).len() == s.len() + 1,
    decreases s.len(),
{
    if s.len() > 0 && s.last().index > x.index {
        lemma_insert_len(s.drop_last(), x);
    }
}

/// Sorting keeps the length.
proof fn lemma_sort_len(s: Seq<FastVariable>)
    ensures
        sort_by_index(s).len() == s.len(),
    decreases s.len(),
{
    if s.len() > 0 {
        lemma_sort_len(s.drop_last());
        lemma_insert_len(sort_by_index(s.drop_last()), s.last());
    }
}

/// The parameters that the references point to.
pub open spec fn deref_all(s: Seq<&FastVariable>) -> Seq<FastVariable> {
    s.map_values(|x: &FastVariable| *x)
}

/// `x` goes at position `p` of `s` when the parameters from `p` on have a
/// larger index and the one before `p`, if any, does not.
proof fn lemma_insert_at(s: Seq<FastVariable>, x: FastVariable, p: int)
    requires
        0 <= p <= s.len(),
        forall|j: int| p <= j < s.len() ==> #[trigger] s[j].index > x.index,
        p == 0 || s[p - 1].index <= x.index,
    ensures
        insert_by_index(s, x) == s.take(p) + seq![x] + s.skip(p),
    decreases s.len(),
{
    if s.len() == 0 {
        assert(s.take(p) + seq![x] + s.skip(p) =~= seq![x]);
    } else if s.last().index <= x.index {
        assert(p == s.len());
        assert(s.take(p) + seq![x] + s.skip(p) =~= s.push(x));
    } else {
        lemma_insert_at(s.drop_last(), x, p);
        assert(s.drop_last().take(p) + seq![x] + s.drop_last().skip(p) + seq![s.last()]
            =~= s.take(p) + seq![x] + s.skip(p));
    }
}

/// The parameters of `args` in index order; parameters of equal index keep
/// their order.
fn sorted_args(args: &Vec<FastVariable>) -> (r: Vec<&FastVariable>)
    ensures
        deref_all(r@) == sort_by_index(args@),
{
    let mut r: Vec<&FastVariable> = Vec::new();
    let mut i: usize = 0;
    proof {
        assert(args@.take(0) =~= Seq::<FastVariable>::empty());
        assert(deref_all(r@) =~= Seq::<FastVariable>::empty());
    }
    while i < args.len()
        invariant
            i <= args@.len(),
            deref_all(r@) == sort_by_index(args@.take(i as int)),
        decreases args@.len() - i,
    {
        let x = &args[i];
        let mut p = r.len();
        while p > 0 && r[p - 1].index > x.index
            invariant
                p <= r@.len(),
                forall|j: int| p <= j < r@.len() ==> #[trigger] r@[j].index > x.index,
            decreases p,
        {
            p = p - 1;
        }
        let ghost before = deref_all(r@);
        proof {
            lemma_insert_at(before, *x, p as int);
            assert(args@.take(i + 1).drop_last() =~= args@.take(i as int));
            assert(args@.take(i + 1).last() == args@[i as int]);
        }
        r.insert(p, x);
        proof {
            assert(deref_all(r@) =~= before.take(p as int) + seq![*x] + before.skip(p as int));
        }
        i = i + 1;
    }
    proof {
        assert(args@.take(args@.len() as int) =~= args@);
    }
    r
}

impl Function {
    /// The parameters' names and annotations in index order; parameters of
    /// equal index keep their order.
    pub fn args_iter(&self) -> (r: Vec<(&String, &Option<String>)>)
        ensures
            r@.len() == self.args@.len(),
            forall|j: int|
                0 <= j < r@.len() ==> {
                    let a = #[trigger] sort_by_index(self.args@)[j];
                    r@[j].0 == a.name && r@[j].1 == a.annotation
                },
    {
        let ps = sorted_args(&self.args);
        let mut r: Vec<(&String, &Option<String>)> = Vec::new();
        let mut i: usize = 0;
        while i < ps.len()
            invariant
                i <= ps@.len(),
                deref_all(ps@) == sort_by_index(self.args@),
                r@.len() == i,
                forall|j: int|
                    0 <= j < i ==> {
                        let a = #[trigger] deref_all(ps@)[j];
                        r@[j].0 == a.name && r@[j].1 == a.annotation
                    },
            decreases ps@.len() - i,
        {
            let a: &FastVariable = ps[i];
            r.push((&a.name, &a.annotation));
            i = i + 1;
        }
        proof {
            lemma_sort_len(self.args@);
        }
        r
    }
}

/// A parameter, with its annotation if it has one.
fn param_exec(a: &FastVariable) -> (r: String)
    ensures
        r@ == param_text(*a),
{
    match &a.annotation {
        None => own(a.name.as_str()),
        Some(t) => crate::text::concat3(a.name.as_str(), ": ", t.as_str()),
    }
}

/// The parameter list and return annotation that the parameters `ps`
/// give, with `offset` of them before the first that takes a default.
fn signature_exec(ps: &Vec<&FastVariable>, defaults: &Vec<String>, offset0: usize) -> (r: Result<
    (String, String),
    BuildError,
>)
    ensures
        match r {
            Ok((a, b)) => signature_from(
                deref_all(ps@),
                strings_view(defaults@),
                0,
                0,
                offset0 as nat,
                Seq::empty(),
                Seq::empty(),
            ) == Ok::<(Seq<char>, Seq<char>), BuildError>((a@, b@)),
            Err(e) => signature_from(
                deref_all(ps@),
                strings_view(defaults@),
                0,
                0,
                offset0 as nat,
                Seq::empty(),
                Seq::empty(),
            ) == Err::<(Seq<char>, Seq<char>), BuildError>(e),
        },
{
    let ghost pv = deref_all(ps@);
    let ghost dv = strings_view(defaults@);
    let ghost goal = signature_from(pv, dv, 0, 0, offset0 as nat, Seq::empty(), Seq::empty());
    let mut args = String::new();
    let mut ret = String::new();
    let mut used: usize = 0;
    let mut offset: usize = offset0;
    let mut i: usize = 0;
    while i < ps.len()
        invariant
            i <= ps@.len(),
            pv == deref_all(ps@),
            dv == strings_view(defaults@),
            used <= defaults@.len(),
            goal == signature_from(pv, dv, 0, 0, offset0 as nat, Seq::empty(), Seq::empty()),
            goal == signature_from(pv, dv, i as nat, used as nat, offset as nat, args@, ret@),
        decreases ps@.len() - i,
    {
        let a: &FastVariable = ps[i];
        assert(pv[i as int] == *a);
        if crate::text::str_eq(a.name.as_str(), "return") {
            ret.append(" -> ");
            match &a.annotation {
                Some(t) => ret.append(t.as_str()),
                None => ret.append("None"),
            }
        } else if offset == 0 {
            if used >= defaults.len() {
                return Err(BuildError::NoDefault);
            }
            let p = param_exec(a);
            args.append(p.as_str());
            args.append(" = ");
            args.append(defaults[used].as_str());
            args.append(", ");
            used = used + 1;
        } else {
            let p = param_exec(a);
            args.append(p.as_str());
            args.append(", ");
            offset = offset - 1;
        }
        i = i + 1;
    }
    Ok((args, ret))
}

/// Writes a lambda with parameter list `a`.
fn lambda_exec(node: &Function, a: &str) -> (r: Option<Result<Vec<String>, BuildError>>)
    ensures
        opt_lines(r) == lambda_spec(*node, a@),
    decreases node, 2nat,
{
    if node.bodys.len() == 0 {
        return Some(Err(BuildError::NoLambdaBody));
    }
    let b = match node.bodys[0].text_opt() {
        None => { return None; },
        Some(Err(e)) => { return Some(Err(e)); },
        Some(Ok(t)) => t,
    };
    let body = crate::text::trim_start_matches(b.as_str(), "return ");
    if crate::text::starts_with(body.as_str(), "yield") {
        let l = crate::text::concat3("lambda ", a, ": (");
        single(crate::text::concat3(l.as_str(), body.as_str(), ")"))
    } else {
        let l = crate::text::concat3("lambda ", a, ": ");
        single(crate::text::concat2(l.as_str(), body.as_str()))
    }
}

/// Writes a list comprehension over the parameters `a`.
fn listcomp_exec(node: &Function, a: &str) -> (r: Option<Result<Vec<String>, BuildError>>)
    ensures
        opt_lines(r) == listcomp_spec(*node, a@),
    decreases node, 2nat,
{
    if node.bodys.len() < 2 {
        return None;
    }
    let x = match node.bodys[0].text_opt() {
        None => { return None; },
        Some(Err(e)) => { return Some(Err(e)); },
        Some(Ok(t)) => t,
    };
    let y = match node.bodys[1].text_opt() {
        None => { return None; },
        Some(Err(e)) => { return Some(Err(e)); },
        Some(Ok(t)) => t,
    };
    let l1 = crate::text::concat3("[", x.as_str(), " for ");
    let l2 = crate::text::concat3(l1.as_str(), a, " in ");
    single(crate::text::concat3(l2.as_str(), y.as_str(), "]"))
}

/// Writes a definition with parameter list `a` and return annotation `rc`.
fn def_exec(node: &Function, a: &str, rc: &str) -> (r: Option<Result<Vec<String>, BuildError>>)
    ensures
        opt_lines(r) == def_spec(*node, a@, rc@),
    decreases node, 2nat,
{
    let pre = if node.is_async { "async def " } else { "def " };
    let l1 = crate::text::concat3(pre, node.name.as_str(), "(");
    let l2 = crate::text::concat3(l1.as_str(), a, ")");
    let first = crate::text::concat3(l2.as_str(), rc, ":");
    let b = match lines_exec(&node.bodys, true) {
        None => { return None; },
        Some(Err(e)) => { return Some(Err(e)); },
        Some(Ok(b)) => b,
    };
    let ghost fv = first@;
    let ghost bv = strings_view(b@);
    let mut code: Vec<String> = Vec::new();
    code.push(first);
    proof {
        assert(strings_view(code@) =~= seq![fv]);
    }
    if b.len() == 0 {
        let ghost c = strings_view(code@);
        code.push(own("    pass"));
        proof {
            assert(strings_view(code@) =~= c.push("    pass"@));
        }
    } else {
        append_all(&mut code, b);
    }
    let ghost c0 = strings_view(code@);
    let e = String::new();
    proof {
        reveal_strlit("");
        assert(e@ =~= ""@);
    }
    code.push(e);
    proof {
        assert(strings_view(code@) =~= c0.push(""@));
        assert(strings_view(code@) =~= seq![fv] + (if bv.len() == 0 {
            seq!["    pass"@]
        } else {
            bv
        }) + seq![""@]);
    }
    Some(Ok(code))
}

/// Writes a function: a lambda, a list comprehension, or a definition.
fn function_exec(node: &Function) -> (r: Option<Result<Vec<String>, BuildError>>)
    ensures
        opt_lines(r) == build_spec(ExpressionEnum::Function(*node)),
    decreases node, 3nat,
{
    proof {
        assert(build_spec(ExpressionEnum::Function(*node)) == function_spec(*node));
    }
    if node.defaults.len() > node.args.len() {
        return None;
    }
    let ps = sorted_args(&node.args);
    let (ac, rc) = match signature_exec(&ps, &node.defaults, node.args.len() - node.defaults.len()) {
        Err(e) => { return Some(Err(e)); },
        Ok(x) => x,
    };
    let a = crate::text::trim_end_matches(ac.as_str(), ", ");
    if crate::text::str_eq(node.name.as_str(), "<lambda>") {
        lambda_exec(node, a.as_str())
    } else if crate::text::str_eq(node.name.as_str(), "<listcomp>") {
        listcomp_exec(node, a.as_str())
    } else {
        def_exec(node, a.as_str(), rc.as_str())
    }
}

impl ExpressionEnum {
    /// The lines that this node is written as: `None` where writing cannot
    /// finish.
    fn build_opt(&self) -> (r: Option<Result<Vec<String>, BuildError>>)
        ensures
            opt_lines(r) == build_spec(*self),
        decreases self, 0nat,
    {
        match self {
            ExpressionEnum::Class(c) => class_exec(c),
            ExpressionEnum::Function(f) => function_exec(f),
            ExpressionEnum::FastVariable(v) => fast_variable_exec(v),
            ExpressionEnum::Return(r) => return_exec(r),
            ExpressionEnum::Yield(y) => yield_exec(y),
            ExpressionEnum::Assign(a) => assign_exec(a),
            ExpressionEnum::Alias(a) => alias_exec(a),
            ExpressionEnum::Try(t) => try_exec(t),
            ExpressionEnum::Except(x) => except_exec(x),
            ExpressionEnum::Finally(f) => finally_exec(f),
            ExpressionEnum::Assert(a) => assert_exec(a),
            ExpressionEnum::Raise(r) => raise_exec(r),
            ExpressionEnum::Await(a) => await_exec(a),
            ExpressionEnum::BaseValue(b) => base_value_exec(b),
            ExpressionEnum::Call(c) => call_exec(c),
            ExpressionEnum::FormatValue(v) => format_value_exec(v),
            ExpressionEnum::Format(f) => format_string_exec(f),
            ExpressionEnum::BinaryOperation(b) => binary_exec(b),
            ExpressionEnum::UnaryOperation(u) => unary_exec(u),
            ExpressionEnum::Import(i) => single(import_exec(i)),
            ExpressionEnum::Container(c) => container_exec(c),
            ExpressionEnum::Subscr(x) => subscr_exec(x),
            ExpressionEnum::Slice(x) => slice_exec(x),
            ExpressionEnum::Attribute(a) => attribute_exec(a),
            ExpressionEnum::With(w) => with_exec(w),
            ExpressionEnum::If(i) => if_exec(i),
            ExpressionEnum::For(f) => for_exec(f),
            ExpressionEnum::Jump(_) => no_lines(),
        }
    }

    /// The lines of Python source that this node is written as.
    pub fn build(&self) -> (r: Result<Vec<String>, BuildError>)
        requires
            build_spec(*self) is Some,
        ensures
            build_spec(*self) == Some(lines_view(r)),
    {
        match self.build_opt() {
            Some(r) => r,
            None => {
                proof {
                    assert(false);
                }
                Err(BuildError::NoDefault)
            },
        }
    }

    /// The lines of Python source that this node is written as, or `None`
    /// where writing it cannot finish.
    pub fn try_build(&self) -> (r: Option<Result<Vec<String>, BuildError>>)
        ensures
            opt_lines(r) == build_spec(*self),
    {
        if self.build_opt().is_some() {
            Some(self.build())
        } else {
            None
        }
    }

    /// The text of this node: its lines joined.
    fn text_opt(&self) -> (r: Option<Result<String, BuildError>>)
        ensures
            opt_text(r) == text_of(*self),
        decreases self, 1nat,
    {
        match self.build_opt() {
            None => None,
            Some(Err(e)) => Some(Err(e)),
            Some(Ok(ls)) => Some(Ok(crate::text::join(&ls, ""))),
        }
    }
}


/// Whether the parameters are in index order.
pub open spec fn index_sorted(s: Seq<FastVariable>) -> bool {
    forall|i: int, j: int| 0 <= i < j < s.len() ==> s[i].index <= s[j].index
}

/// Placing a parameter keeps index order and adds exactly that parameter.
proof fn lemma_insert_sorted(s: Seq<FastVariable>, x: FastVariable)
    requires
        index_sorted(s),
    ensures
        index_sorted(insert_by_index(s, x)),
        insert_by_index(s, x).to_multiset() == s.to_multiset().insert(x),
    decreases s.len(),
{
    broadcast use vstd::seq_lib::group_to_multiset_ensures;
    if s.len() == 0 {
        assert(seq![x] =~= Seq::<FastVariable>::empty().push(x));
    } else if s.last().index <= x.index {
    } else {
        let d = s.drop_last();
        assert(index_sorted(d));
        lemma_insert_sorted(d, x);
        let r = insert_by_index(d, x);
        lemma_insert_len(d, x);
        assert(s =~= d.push(s.last()));
        assert(r.to_multiset().contains(x));
        assert forall|i: int, j: int| 0 <= i < j < r.push(s.last()).len() implies r.push(
            s.last(),
        )[i].index <= r.push(s.last())[j].index by {
            if j == r.len() {
                let ri = r[i];
                assert(r.to_multiset().contains(ri));
                assert(r.to_multiset().count(ri) > 0);
                if ri == x {
                } else {
                    assert(d.to_multiset().count(ri) > 0);
                    assert(d.contains(ri));
                    let k = choose|k: int| 0 <= k < d.len() && d[k] == ri;
                    assert(s[k] == ri);
                }
            }
        }
    }
}

/// The parameters come out in index order, each exactly as often as it was
/// given.
pub proof fn law_params_in_index_order(s: Seq<FastVariable>)
    ensures
        index_sorted(sort_by_index(s)),
        sort_by_index(s).to_multiset() == s.to_multiset(),
    decreases s.len(),
{
    broadcast use vstd::seq_lib::group_to_multiset_ensures;
    if s.len() > 0 {
        law_params_in_index_order(s.drop_last());
        lemma_insert_sorted(sort_by_index(s.drop_last()), s.last());
        assert(s =~= s.drop_last().push(s.last()));
    }
}

/// Every line of an indented body starts with four spaces.
pub proof fn law_body_lines_indented(s: Seq<ExpressionEnum>, i: nat)
    ensures
        lines_from(s, i, true) matches Some(Ok(ls)) ==> forall|k: int|
            0 <= k < ls.len() ==> (#[trigger] ls[k]).take(4) == "    "@,
    decreases s.len() - i,
{
    if i < s.len() {
        law_body_lines_indented(s, i + 1);
        match build_spec(s[i as int]) {
            Some(Ok(first)) => {
                match lines_from(s, i + 1, true) {
                    Some(Ok(rest)) => {
                        let ls = indent_all(first) + rest;
                        assert forall|k: int| 0 <= k < ls.len() implies (#[trigger] ls[k]).take(4)
                            == "    "@ by {
                            reveal_strlit("    ");
                            if k < first.len() {
                                assert(ls[k] == indented(first[k]));
                                assert(ls[k].take(4) =~= "    "@);
                            } else {
                                assert(ls[k] == rest[k - first.len()]);
                            }
                        }
                    },
                    _ => {},
                }
            },
            _ => {},
        }
    }
}

/// A definition is its header, at least one body line, then an empty line.
pub proof fn law_definition_shape(f: Function, a: Seq<char>, rc: Seq<char>)
    ensures
        def_spec(f, a, rc) matches Some(Ok(ls)) ==> {
            &&& ls.len() >= 3
            &&& ls.last() == Seq::<char>::empty()
            &&& ls[0] == (if f.is_async { "async def "@ } else { "def "@ }) + f.name@ + "("@ + a + ")"@
                + rc + ":"@
        },
{
    reveal_strlit("");
}

/// A base value other than `None` is written as its own text.
pub proof fn law_base_value_is_its_text(b: BaseValue)
    requires
        b.value@ != "None"@,
    ensures
        text_of(ExpressionEnum::BaseValue(b)) == Some(Ok::<Seq<char>, BuildError>(b.value@)),
{
}

/// An attribute is written on one line as its parent's text, then a dot,
/// then its attribute's text, parent first.
pub proof fn law_attribute_is_parent_dot_attr(a: Attribute, p: Seq<char>, t: Seq<char>)
    requires
        text_of(*a.parent) == Some(Ok::<Seq<char>, BuildError>(p)),
        text_of(*a.attr) == Some(Ok::<Seq<char>, BuildError>(t)),
    ensures
        build_spec(ExpressionEnum::Attribute(a)) == Some(
            Ok::<Seq<Seq<char>>, BuildError>(seq![p + "."@ + t]),
        ),
        text_of(ExpressionEnum::Attribute(a)) == Some(Ok::<Seq<char>, BuildError>(p + "."@ + t)),
{
    assert(seq![p + "."@ + t].len() == 1);
}

/// Two-operand nodes are written left to right on one line: an assignment
/// as `target op value`, an alias as `target as alias`, a binary operation
/// as `left op right`, and a subscript as `target[index]`.
pub proof fn law_two_operand_nodes(
    asg: Assign,
    ali: Alias,
    bin: BinaryOperation,
    sub: Subscr,
    x: Seq<char>,
    y: Seq<char>,
)
    requires
        text_of(*asg.target) == Some(Ok::<Seq<char>, BuildError>(x)),
        text_of(*asg.values) == Some(Ok::<Seq<char>, BuildError>(y)),
        text_of(*ali.target) == Some(Ok::<Seq<char>, BuildError>(x)),
        text_of(*ali.alias) == Some(Ok::<Seq<char>, BuildError>(y)),
        text_of(*bin.left) == Some(Ok::<Seq<char>, BuildError>(x)),
        text_of(*bin.right) == Some(Ok::<Seq<char>, BuildError>(y)),
        text_of(*sub.target) == Some(Ok::<Seq<char>, BuildError>(x)),
        text_of(*sub.index) == Some(Ok::<Seq<char>, BuildError>(y)),
    ensures
        build_spec(ExpressionEnum::Assign(asg)) == Some(
            Ok::<Seq<Seq<char>>, BuildError>(seq![x + " "@ + asg.operator@ + " "@ + y]),
        ),
        build_spec(ExpressionEnum::Alias(ali)) == Some(
            Ok::<Seq<Seq<char>>, BuildError>(seq![x + " as "@ + y]),
        ),
        build_spec(ExpressionEnum::BinaryOperation(bin)) == Some(
            Ok::<Seq<Seq<char>>, BuildError>(seq![x + " "@ + bin.operator@ + " "@ + y]),
        ),
        build_spec(ExpressionEnum::Subscr(sub)) == Some(
            Ok::<Seq<Seq<char>>, BuildError>(seq![x + "["@ + y + "]"@]),
        ),
{
}

/// A unary operation is its operator before the operand: `-x` for a
/// negation, `~x` for an inversion, `not x` for a logical not; `raise x`,
/// `await x`, and `return x` for a non-empty `x`, likewise.
pub proof fn law_prefixed_nodes(u: UnaryOperation, r: Raise, a: Await, ret: Return, x: Seq<char>)
    requires
        text_of(*u.target) == Some(Ok::<Seq<char>, BuildError>(x)),
        text_of(*r.exception) == Some(Ok::<Seq<char>, BuildError>(x)),
        text_of(*a.awaitable_expr) == Some(Ok::<Seq<char>, BuildError>(x)),
        text_of(*ret.value) == Some(Ok::<Seq<char>, BuildError>(x)),
    ensures
        u.unary_type == UnaryType::Negative ==> build_spec(ExpressionEnum::UnaryOperation(u))
            == Some(Ok::<Seq<Seq<char>>, BuildError>(seq!["-"@ + x])),
        u.unary_type == UnaryType::Invert ==> build_spec(ExpressionEnum::UnaryOperation(u))
            == Some(Ok::<Seq<Seq<char>>, BuildError>(seq!["~"@ + x])),
        u.unary_type == UnaryType::Not ==> build_spec(ExpressionEnum::UnaryOperation(u))
            == Some(Ok::<Seq<Seq<char>>, BuildError>(seq!["not "@ + x])),
        build_spec(ExpressionEnum::Raise(r)) == Some(
            Ok::<Seq<Seq<char>>, BuildError>(seq!["raise "@ + x]),
        ),
        build_spec(ExpressionEnum::Await(a)) == Some(
            Ok::<Seq<Seq<char>>, BuildError>(seq!["await "@ + x]),
        ),
        x.len() > 0 ==> build_spec(ExpressionEnum::Return(ret)) == Some(
            Ok::<Seq<Seq<char>>, BuildError>(seq!["return "@ + x]),
        ),
{
}

/// A block opens with its header line: `with t:` (`async with t:` when
/// asynchronous), `for i in it:` with the items before the iterable
/// (`async for` likewise), `except e:` (a bare `except:` when the exception
/// writes nothing), and `finally:`. A `with` or `for` with no body gets the
/// single body line `    pass`.
pub proof fn law_block_headers(
    w: With,
    f: For,
    x: Except,
    fin: Finally,
    t: Seq<char>,
    i: Seq<char>,
    it: Seq<char>,
)
    requires
        text_of(*w.item) == Some(Ok::<Seq<char>, BuildError>(t)),
        text_of(*f.items) == Some(Ok::<Seq<char>, BuildError>(i)),
        text_of(*f.iterator) == Some(Ok::<Seq<char>, BuildError>(it)),
        text_of(*x.exception) == Some(Ok::<Seq<char>, BuildError>(t)),
    ensures
        w.body@.len() == 0 ==> build_spec(ExpressionEnum::With(w)) == Some(
            Ok::<Seq<Seq<char>>, BuildError>(
                seq![(if w.is_async { "async with "@ } else { "with "@ }) + t + ":"@, "    pass"@],
            ),
        ),
        build_spec(ExpressionEnum::With(w)) matches Some(Ok(ls)) ==> ls.len() > 0 && ls[0] == (
        if w.is_async {
            "async with "@
        } else {
            "with "@
        }) + t + ":"@,
        f.body@.len() == 0 ==> build_spec(ExpressionEnum::For(f)) == Some(
            Ok::<Seq<Seq<char>>, BuildError>(
                seq![
                    (if f.is_async { "async for "@ } else { "for "@ }) + i + " in "@ + it + ":"@,
                    "    pass"@,
                ],
            ),
        ),
        build_spec(ExpressionEnum::For(f)) matches Some(Ok(ls)) ==> ls.len() > 0 && ls[0] == (
        if f.is_async {
            "async for "@
        } else {
            "for "@
        }) + i + " in "@ + it + ":"@,
        build_spec(ExpressionEnum::Except(x)) matches Some(Ok(ls)) ==> ls.len() > 0 && ls[0] == (
        if t.len() == 0 {
            "except:"@
        } else {
            "except "@ + t + ":"@
        }),
        build_spec(ExpressionEnum::Finally(fin)) matches Some(Ok(ls)) ==> ls.len() > 0 && ls[0]
            == "finally:"@,
{
    let wh = (if w.is_async { "async with "@ } else { "with "@ }) + t + ":"@;
    assert(seq![wh] + seq!["    pass"@] =~= seq![wh, "    pass"@]);
    if w.body@.len() == 0 {
        assert(block_or_pass(w.body@) == one("    pass"@));
    }
    let fh = (if f.is_async { "async for "@ } else { "for "@ }) + i + " in "@ + it + ":"@;
    assert(seq![fh] + seq!["    pass"@] =~= seq![fh, "    pass"@]);
    if f.body@.len() == 0 {
        assert(block_or_pass(f.body@) == one("    pass"@));
    }
}

/// A `yield` is written `yield x` (a bare `yield` when the value writes
/// nothing); an assertion with a message `assert x, m`.
pub proof fn law_keyword_nodes(y: Yield, a: Assert, x: Seq<char>, m: Seq<char>)
    requires
        text_of(*y.value) == Some(Ok::<Seq<char>, BuildError>(x)),
        text_of(*a.test) == Some(Ok::<Seq<char>, BuildError>(x)),
    ensures
        x.len() > 0 ==> build_spec(ExpressionEnum::Yield(y)) == Some(
            Ok::<Seq<Seq<char>>, BuildError>(seq!["yield "@ + x]),
        ),
        x.len() == 0 ==> build_spec(ExpressionEnum::Yield(y)) == Some(
            Ok::<Seq<Seq<char>>, BuildError>(seq!["yield"@]),
        ),
        (a.msg matches Some(mm) && text_of(*mm) == Some(Ok::<Seq<char>, BuildError>(m)))
            ==> build_spec(ExpressionEnum::Assert(a)) == Some(
            Ok::<Seq<Seq<char>>, BuildError>(seq!["assert "@ + x + ", "@ + m]),
        ),
{
}

/// A slice of `o` with two bounds is written `o[a:b]`, the bounds in order.
pub proof fn law_slice_bounds_in_order(sl: Slice, o: Seq<char>, lo: Seq<char>, hi: Seq<char>)
    requires
        text_of(*sl.origin) == Some(Ok::<Seq<char>, BuildError>(o)),
        sl.slice@.len() == 2,
        text_of(sl.slice@[0]) == Some(Ok::<Seq<char>, BuildError>(lo)),
        text_of(sl.slice@[1]) == Some(Ok::<Seq<char>, BuildError>(hi)),
    ensures
        build_spec(ExpressionEnum::Slice(sl)) == Some(
            Ok::<Seq<Seq<char>>, BuildError>(seq![o + "["@ + lo + ":"@ + hi + "]"@]),
        ),
{
    let s = sl.slice@;
    assert(texts_from(s, 2) == Some(Ok::<Seq<Seq<char>>, BuildError>(Seq::<Seq<char>>::empty())));
    assert(texts_from(s, 1) == Some(Ok::<Seq<Seq<char>>, BuildError>(seq![hi])));
    let ps: Seq<Seq<char>> = seq![lo, hi];
    assert(seq![lo] + seq![hi] =~= ps);
    assert(texts_from(s, 0) == Some(Ok::<Seq<Seq<char>>, BuildError>(ps)));
    assert(ps.drop_last() =~= seq![lo]);
    assert(join_seq(ps.drop_last(), ":"@) == lo);
    assert(join_seq(ps, ":"@) == lo + ":"@ + hi);
    assert(o + "["@ + join_seq(ps, ":"@) + "]"@ =~= o + "["@ + lo + ":"@ + hi + "]"@);
}

/// A container of two values, each written as one non-empty line `x` then
/// `y`, is written in order between its own brackets: a list `[x, y]`, a
/// tuple `(x, y)`, a set `{ x, y }`, and a dictionary as the pair
/// `{ x: y }`.
pub proof fn law_container_brackets(c: Container, x: Seq<char>, y: Seq<char>)
    requires
        c.values@.len() == 2,
        build_spec(c.values@[0]) == Some(Ok::<Seq<Seq<char>>, BuildError>(seq![x])),
        build_spec(c.values@[1]) == Some(Ok::<Seq<Seq<char>>, BuildError>(seq![y])),
        x.len() > 0,
        y.len() > 0,
    ensures
        c.container_type == ContainerType::List ==> build_spec(ExpressionEnum::Container(c))
            == Some(Ok::<Seq<Seq<char>>, BuildError>(seq!["["@ + x + ", "@ + y + "]"@])),
        c.container_type == ContainerType::Tuple ==> build_spec(ExpressionEnum::Container(c))
            == Some(Ok::<Seq<Seq<char>>, BuildError>(seq!["("@ + x + ", "@ + y + ")"@])),
        c.container_type == ContainerType::SetContainer ==> build_spec(
            ExpressionEnum::Container(c),
        ) == Some(Ok::<Seq<Seq<char>>, BuildError>(seq!["{ "@ + x + ", "@ + y + " }"@])),
        c.container_type == ContainerType::Dict ==> build_spec(ExpressionEnum::Container(c))
            == Some(Ok::<Seq<Seq<char>>, BuildError>(seq!["{ "@ + x + ": "@ + y + " }"@])),
{
    let s = c.values@;
    let vs: Seq<Seq<char>> = seq![x, y];
    assert(lines_from(s, 2, false) == Some(Ok::<Seq<Seq<char>>, BuildError>(Seq::<Seq<char>>::empty())));
    assert(seq![y] + Seq::<Seq<char>>::empty() =~= seq![y]);
    assert(lines_from(s, 1, false) == Some(Ok::<Seq<Seq<char>>, BuildError>(seq![y])));
    assert(seq![x] + seq![y] =~= vs);
    assert(lines_from(s, 0, false) == Some(Ok::<Seq<Seq<char>>, BuildError>(vs)));
    assert(none_for_empty(vs) =~= vs);
    assert(vs.drop_last() =~= seq![x]);
    assert(join_seq(vs.drop_last(), ", "@) == x);
    assert(join_seq(vs, ", "@) == x + ", "@ + y);
    let pairs = dict_pairs(vs);
    assert(pairs =~= seq![x + ": "@ + y]);
    assert(join_seq(pairs, ", "@) == x + ": "@ + y);
    assert("["@ + join_seq(vs, ", "@) + "]"@ =~= "["@ + x + ", "@ + y + "]"@);
    assert("("@ + join_seq(vs, ", "@) + ")"@ =~= "("@ + x + ", "@ + y + ")"@);
    assert("{ "@ + join_seq(vs, ", "@) + " }"@ =~= "{ "@ + x + ", "@ + y + " }"@);
    assert("{ "@ + join_seq(pairs, ", "@) + " }"@ =~= "{ "@ + x + ": "@ + y + " }"@);
}

/// A call of `f` with two arguments `x` and `y` is written `f(x, y)`, the
/// arguments in order, when the last argument does not end in a space; a
/// callee that is a lambda is put in parentheses first: `(f)(x, y)`.
pub proof fn law_call_arguments_in_order(c: Call, f: Seq<char>, x: Seq<char>, y: Seq<char>)
    requires
        text_of(*c.func) == Some(Ok::<Seq<char>, BuildError>(f)),
        c.args@.len() == 2,
        text_of(c.args@[0]) == Some(Ok::<Seq<char>, BuildError>(x)),
        text_of(c.args@[1]) == Some(Ok::<Seq<char>, BuildError>(y)),
        y.len() > 0,
        y.last() != ' ',
    ensures
        !starts_with_seq(f, "lambda "@) ==> build_spec(ExpressionEnum::Call(c)) == Some(
            Ok::<Seq<Seq<char>>, BuildError>(seq![f + "("@ + x + ", "@ + y + ")"@]),
        ),
        starts_with_seq(f, "lambda "@) ==> build_spec(ExpressionEnum::Call(c)) == Some(
            Ok::<Seq<Seq<char>>, BuildError>(seq!["("@ + f + ")("@ + x + ", "@ + y + ")"@]),
        ),
{
    let s = c.args@;
    let ps: Seq<Seq<char>> = seq![x, y];
    assert(texts_from(s, 2) == Some(Ok::<Seq<Seq<char>>, BuildError>(Seq::<Seq<char>>::empty())));
    assert(seq![y] + Seq::<Seq<char>>::empty() =~= seq![y]);
    assert(texts_from(s, 1) == Some(Ok::<Seq<Seq<char>>, BuildError>(seq![y])));
    assert(seq![x] + seq![y] =~= ps);
    assert(texts_from(s, 0) == Some(Ok::<Seq<Seq<char>>, BuildError>(ps)));
    assert(ps.drop_last() =~= seq![x]);
    assert(join_seq(ps.drop_last(), ", "@) == x);
    let j = x + ", "@ + y;
    assert(join_seq(ps, ", "@) == j);
    reveal_strlit(", ");
    assert(j.last() == y.last());
    assert(!ends_with_seq(j, ", "@)) by {
        if ends_with_seq(j, ", "@) {
            assert(j.subrange(j.len() - 2, j.len() as int)[1] == j.last());
        }
    }
    assert(trim_end_seq(j, ", "@) == j);
    assert(f + "("@ + j + ")"@ =~= f + "("@ + x + ", "@ + y + ")"@);
    assert("("@ + f + ")("@ + j + ")"@ =~= "("@ + f + ")("@ + x + ", "@ + y + ")"@);
}

/// A conditional with test `t` opens with `if t:`; one without a test is
/// an `else:`. A following branch that is itself a conditional `if u:`
/// becomes `elif u:`; an `else:` branch stays as it is.
pub proof fn law_if_chains(i: If, e: If, t: Seq<char>, u: Seq<char>)
    requires
        i.test matches Some(b) && text_of(*b) == Some(Ok::<Seq<char>, BuildError>(t)),
        i.body@.len() == 0,
        e.test is None,
        e.body@.len() == 0,
        e.or_else is None,
    ensures
        build_spec(ExpressionEnum::If(e)) == Some(Ok::<Seq<Seq<char>>, BuildError>(seq!["else:"@])),
        i.or_else is None ==> build_spec(ExpressionEnum::If(i)) == Some(
            Ok::<Seq<Seq<char>>, BuildError>(seq!["if "@ + t + ":"@]),
        ),
        (i.or_else matches Some(o) && build_spec(*o) == Some(
            Ok::<Seq<Seq<char>>, BuildError>(seq!["if "@ + u + ":"@]),
        )) ==> build_spec(ExpressionEnum::If(i)) == Some(
            Ok::<Seq<Seq<char>>, BuildError>(seq!["if "@ + t + ":"@, "elif "@ + u + ":"@]),
        ),
        (i.or_else matches Some(o) && build_spec(*o) == Some(
            Ok::<Seq<Seq<char>>, BuildError>(seq!["else:"@]),
        )) ==> build_spec(ExpressionEnum::If(i)) == Some(
            Ok::<Seq<Seq<char>>, BuildError>(seq!["if "@ + t + ":"@, "else:"@]),
        ),
{
    let h = "if "@ + t + ":"@;
    let nil = Seq::<Seq<char>>::empty();
    assert(build_spec(ExpressionEnum::If(e)) == if_spec(e));
    assert(build_spec(ExpressionEnum::If(i)) == if_spec(i));
    assert(lines_from(i.body@, 0, true) == Some(Ok::<Seq<Seq<char>>, BuildError>(nil)));
    assert(lines_from(e.body@, 0, true) == Some(Ok::<Seq<Seq<char>>, BuildError>(nil)));
    assert(seq!["else:"@] + nil =~= seq!["else:"@]);
    assert(seq![h] + nil =~= seq![h]);
    let ol = seq!["if "@ + u + ":"@];
    reveal_strlit("if ");
    reveal_strlit("el");
    reveal_strlit("elif ");
    reveal_strlit("else:");
    assert(starts_with_seq(ol[0], "if "@)) by {
        assert(ol[0].subrange(0, 3) =~= "if "@);
    }
    assert(ol.drop_first() =~= nil);
    assert("el"@ + ("if "@ + u + ":"@) =~= "elif "@ + u + ":"@);
    assert(seq![h] + nil + seq!["el"@ + ol[0]] + ol.drop_first() =~= seq![h, "elif "@ + u + ":"@]);
    assert(!starts_with_seq("else:"@, "if "@)) by {
        assert("else:"@.subrange(0, 3)[0] != "if "@[0]);
    }
    assert(seq![h] + nil + seq!["else:"@] =~= seq![h, "else:"@]);
}

} // verus!
