//! Expression trees: each node owns its children.
//!
//! Trees are built by hand (or by a caller's own reader); the code
//! generator in `codegen` writes them out as Python source, and `query`
//! finds the nodes of one kind in them.

use vstd::prelude::*;
pub use crate::ast::{ContainerType, UnaryType};
use crate::mark::{MarkError, parse_code_mark};
use crate::patterns::code_mark;
use crate::text::parse_usize_spec;

pub mod codegen;
pub mod query;

verus! {

/// An import statement: `import m`, `from m import x`, with an optional alias.
#[derive(Debug, PartialEq, Eq, Default)]
pub struct Import {
    pub module: String,
    pub bk_module: Option<String>,
    pub fragment: Option<String>,
    pub alias: Option<String>,
    pub start_line: usize,
    pub start_offset: usize,
    pub end_offset: usize,
}

/// A class definition and its members.
#[derive(Debug, PartialEq, Eq, Default)]
pub struct Class {
    pub mark: String,
    pub name: String,
    pub members: Vec<ExpressionEnum>,
    pub start_line: usize,
    pub start_offset: usize,
    pub end_offset: usize,
}

/// A local variable or a function parameter.
#[derive(Debug, PartialEq, Eq, Default)]
pub struct FastVariable {
    pub index: usize,
    pub name: String,
    pub annotation: Option<String>,
    pub start_line: usize,
    pub start_offset: usize,
    pub end_offset: usize,
}

/// A function definition: its parameters, body and defaults.
#[derive(Debug, PartialEq, Eq, Default)]
pub struct Function {
    pub mark: String,
    pub name: String,
    pub args: Vec<FastVariable>,
    pub bodys: Vec<ExpressionEnum>,
    pub defaults: Vec<String>,
    pub is_async: bool,
    pub start_line: usize,
    pub end_line: usize,
    pub start_offset: usize,
    pub end_offset: usize,
}

/// A `return` statement.
#[derive(Debug, PartialEq, Eq, Default)]
pub struct Return {
    pub value: Box<ExpressionEnum>,
    pub start_line: usize,
    pub start_offset: usize,
    pub end_offset: usize,
}

/// A `yield` expression.
#[derive(Debug, PartialEq, Eq, Default)]
pub struct Yield {
    pub value: Box<ExpressionEnum>,
    pub start_line: usize,
    pub start_offset: usize,
    pub end_offset: usize,
}

/// An assignment, `target = value` (or another operator).
#[derive(Debug, PartialEq, Eq, Default)]
pub struct Assign {
    pub target: Box<ExpressionEnum>,
    pub values: Box<ExpressionEnum>,
    pub operator: String,
    pub start_line: usize,
    pub start_offset: usize,
    pub end_offset: usize,
}

/// An alias, `target as alias`.
#[derive(Debug, PartialEq, Eq, Default)]
pub struct Alias {
    pub target: Box<ExpressionEnum>,
    pub alias: Box<ExpressionEnum>,
    pub start_line: usize,
    pub start_offset: usize,
    pub end_offset: usize,
}

/// A `try` block with its handlers and `finally` part.
#[derive(Debug, PartialEq, Eq, Default)]
pub struct Try {
    pub body: Vec<ExpressionEnum>,
    pub except: Vec<ExpressionEnum>,
    pub finally: Box<ExpressionEnum>,
    pub start_line: usize,
    pub start_offset: usize,
    pub end_offset: usize,
}

/// An `except` handler.
#[derive(Debug, PartialEq, Eq, Default)]
pub struct Except {
    pub exception: Box<ExpressionEnum>,
    pub body: Vec<ExpressionEnum>,
    pub start_line: usize,
    pub start_offset: usize,
    pub end_offset: usize,
}

/// A `finally` block.
#[derive(Debug, PartialEq, Eq, Default)]
pub struct Finally {
    pub body: Vec<ExpressionEnum>,
    pub start_line: usize,
    pub start_offset: usize,
    pub end_offset: usize,
}

/// An `assert` statement.
#[derive(Debug, PartialEq, Eq, Default)]
pub struct Assert {
    pub test: Box<ExpressionEnum>,
    pub msg: Option<Box<ExpressionEnum>>,
    pub start_line: usize,
    pub start_offset: usize,
    pub end_offset: usize,
}

/// A `raise` statement.
#[derive(Debug, PartialEq, Eq, Default)]
pub struct Raise {
    pub exception: Box<ExpressionEnum>,
    pub start_line: usize,
    pub start_offset: usize,
    pub end_offset: usize,
}

/// A value placed inside a format string.
#[derive(Debug, PartialEq, Eq, Default)]
pub struct FormatValue {
    pub value: Box<ExpressionEnum>,
    pub start_line: usize,
    pub start_offset: usize,
    pub end_offset: usize,
}

/// A format string, `f"..."`.
#[derive(Debug, PartialEq, Eq, Default)]
pub struct Format {
    pub format_values: Vec<ExpressionEnum>,
    pub start_line: usize,
    pub start_offset: usize,
    pub end_offset: usize,
}

/// A binary operation: `+`, `-`, `==`, `is`, `in` and the like.
#[derive(Debug, PartialEq, Eq, Default)]
pub struct BinaryOperation {
    pub left: Box<ExpressionEnum>,
    pub right: Box<ExpressionEnum>,
    pub operator: String,
    pub start_line: usize,
    pub start_offset: usize,
    pub end_offset: usize,
}

/// A subscript, `target[index]`.
#[derive(Debug, PartialEq, Eq, Default)]
pub struct Subscr {
    pub index: Box<ExpressionEnum>,
    pub target: Box<ExpressionEnum>,
    pub start_line: usize,
    pub start_offset: usize,
    pub end_offset: usize,
}

/// A unary operation: `-a`, `~a`, `not a`.
#[derive(Debug, PartialEq, Eq, Default)]
pub struct UnaryOperation {
    pub target: Box<ExpressionEnum>,
    pub unary_type: UnaryType,
    pub start_line: usize,
    pub start_offset: usize,
    pub end_offset: usize,
}

/// A call, `func(args)`.
#[derive(Debug, PartialEq, Eq, Default)]
pub struct Call {
    pub func: Box<ExpressionEnum>,
    pub args: Vec<ExpressionEnum>,
    pub start_line: usize,
    pub start_offset: usize,
    pub end_offset: usize,
}

/// A `with` block.
#[derive(Debug, PartialEq, Eq, Default)]
pub struct With {
    pub item: Box<ExpressionEnum>,
    pub body: Vec<ExpressionEnum>,
    pub is_async: bool,
    pub start_line: usize,
    pub start_offset: usize,
    pub end_offset: usize,
}

/// A `for` loop.
#[derive(Debug, PartialEq, Eq, Default)]
pub struct For {
    pub iterator: Box<ExpressionEnum>,
    pub items: Box<ExpressionEnum>,
    pub body: Vec<ExpressionEnum>,
    pub from: usize,
    pub to: usize,
    pub is_async: bool,
    pub start_line: usize,
    pub start_offset: usize,
    pub end_offset: usize,
}

/// An `if` statement, possibly with an `else` branch.
#[derive(Debug, PartialEq, Eq, Default)]
pub struct If {
    pub test: Option<Box<ExpressionEnum>>,
    pub body: Vec<ExpressionEnum>,
    pub or_else: Option<Box<ExpressionEnum>>,
    pub start_line: usize,
    pub start_offset: usize,
    pub end_offset: usize,
}

/// A jump in the bytecode and the statements it covers.
#[derive(Debug, PartialEq, Eq, Default)]
pub struct Jump {
    pub target: usize,
    pub body: Vec<ExpressionEnum>,
    pub start_line: usize,
    pub start_offset: usize,
    pub end_offset: usize,
}

/// An `await` expression.
#[derive(Debug, PartialEq, Eq, Default)]
pub struct Await {
    pub awaitable_expr: Box<ExpressionEnum>,
    pub start_line: usize,
    pub start_offset: usize,
    pub end_offset: usize,
}

/// A list, tuple, set or dictionary display.
#[derive(Debug, PartialEq, Eq, Default)]
pub struct Container {
    pub values: Vec<ExpressionEnum>,
    pub container_type: ContainerType,
    pub start_line: usize,
    pub start_offset: usize,
    pub end_offset: usize,
}

/// An attribute access, `parent.attr`.
#[derive(Debug, PartialEq, Eq, Default)]
pub struct Attribute {
    pub parent: Box<ExpressionEnum>,
    pub attr: Box<ExpressionEnum>,
    pub start_line: usize,
    pub start_offset: usize,
    pub end_offset: usize,
}

/// A slice, `origin[a:b]`.
#[derive(Debug, PartialEq, Eq, Default)]
pub struct Slice {
    pub origin: Box<ExpressionEnum>,
    pub slice: Vec<ExpressionEnum>,
    pub start_line: usize,
    pub start_offset: usize,
    pub end_offset: usize,
}

/// A name or literal, kept as its text.
#[derive(Debug, PartialEq, Eq, Default)]
pub struct BaseValue {
    pub value: String,
    pub start_line: usize,
    pub start_offset: usize,
    pub end_offset: usize,
}

/// Any expression node.
#[derive(Debug, PartialEq, Eq)]
pub enum ExpressionEnum {
    Import(Import),
    Class(Class),
    FastVariable(FastVariable),
    Function(Function),
    Return(Return),
    Yield(Yield),
    Assign(Assign),
    Alias(Alias),
    Try(Try),
    Except(Except),
    Finally(Finally),
    Assert(Assert),
    Raise(Raise),
    BaseValue(BaseValue),
    FormatValue(FormatValue),
    Format(Format),
    BinaryOperation(BinaryOperation),
    Subscr(Subscr),
    UnaryOperation(UnaryOperation),
    Call(Call),
    With(With),
    For(For),
    If(If),
    Await(Await),
    Jump(Jump),
    Container(Container),
    Slice(Slice),
    Attribute(Attribute),
}

impl Default for ExpressionEnum {
    /// An empty base value.
    fn default() -> (r: ExpressionEnum)
        ensures
            r matches ExpressionEnum::BaseValue(b) && b.value@ == Seq::<char>::empty(),
    {
        ExpressionEnum::BaseValue(BaseValue {
            value: String::new(),
            start_line: 0,
            start_offset: 0,
            end_offset: 0,
        })
    }
}

/// A sequence of statements.
#[derive(Debug, PartialEq, Eq)]
pub struct Expr {
    pub bodys: Vec<ExpressionEnum>,
}

impl Expr {
    /// No statements.
    pub fn new() -> (r: Expr)
        ensures
            r.bodys@ == Seq::<ExpressionEnum>::empty(),
    {
        Expr { bodys: Vec::new() }
    }

    /// The statements `bodys`.
    pub fn from(bodys: Vec<ExpressionEnum>) -> (r: Expr)
        ensures
            r.bodys@ == bodys@,
    {
        Expr { bodys }
    }

    /// Appends one statement.
    pub fn add_expression(&mut self, expr: ExpressionEnum)
        ensures
            final(self).bodys@ == old(self).bodys@.push(expr),
    {
        self.bodys.push(expr);
    }

    /// Appends the statements of `expr`.
    pub fn extend(&mut self, expr: Expr)
        ensures
            final(self).bodys@ == old(self).bodys@ + expr.bodys@,
    {
        let mut other = expr.bodys;
        self.bodys.append(&mut other);
    }

    /// The statements, in order.
    pub fn iter(&self) -> (r: Vec<&ExpressionEnum>)
        ensures
            r@.len() == self.bodys@.len(),
            forall|i: int| 0 <= i < r@.len() ==> *(#[trigger] r@[i]) == self.bodys@[i],
    {
        let mut r: Vec<&ExpressionEnum> = Vec::new();
        let mut i: usize = 0;
        while i < self.bodys.len()
            invariant
                i <= self.bodys@.len(),
                r@.len() == i,
                forall|j: int| 0 <= j < i ==> *(#[trigger] r@[j]) == self.bodys@[j],
            decreases self.bodys@.len() - i,
        {
            r.push(&self.bodys[i]);
            i = i + 1;
        }
        r
    }
}

impl Default for Expr {
    /// No statements.
    fn default() -> (r: Expr)
        ensures
            r.bodys@ == Seq::<ExpressionEnum>::empty(),
    {
        Expr::new()
    }
}

impl Class {
    /// An empty class named by the code-object mark `object_mark`.
    pub fn new(object_mark: &str) -> (r: Result<Class, MarkError>)
        ensures
            match code_mark(object_mark@) {
                None => r matches Err(MarkError::Invalid(m)) && m@ == object_mark@,
                Some((name, line)) => match parse_usize_spec(line) {
                    Some(n) => r matches Ok(c) && c.mark@ == object_mark@ && c.name@ == name
                        && c.members@ == Seq::<ExpressionEnum>::empty() && c.start_line == n && c.start_offset == 0
                        && c.end_offset == 0,
                    None => r matches Err(MarkError::BadLine(l)) && l@ == line,
                },
            },
    {
        let (name, start_line) = parse_code_mark(object_mark)?;
        Ok(Class {
            mark: String::from_str(object_mark),
            name,
            members: Vec::new(),
            start_line,
            start_offset: 0,
            end_offset: 0,
        })
    }
}

impl Function {
    /// A function with no parameters and an empty body, named by the
    /// code-object mark `object_mark`.
    pub fn new(object_mark: &str) -> (r: Result<Function, MarkError>)
        ensures
            match code_mark(object_mark@) {
                None => r matches Err(MarkError::Invalid(m)) && m@ == object_mark@,
                Some((name, line)) => match parse_usize_spec(line) {
                    Some(n) => r matches Ok(f) && f.mark@ == object_mark@ && f.name@ == name
                        && f.args@.len() == 0 && f.bodys@.len() == 0 && f.defaults@.len() == 0
                        && !f.is_async && f.start_line == n && f.end_line == n && f.start_offset
                        == 0 && f.end_offset == 0,
                    None => r matches Err(MarkError::BadLine(l)) && l@ == line,
                },
            },
    {
        let (name, start_line) = parse_code_mark(object_mark)?;
        Ok(Function {
            mark: String::from_str(object_mark),
            name,
            args: Vec::new(),
            bodys: Vec::new(),
            defaults: Vec::new(),
            is_async: false,
            start_line,
            end_line: start_line,
            start_offset: 0,
            end_offset: 0,
        })
    }

    /// The function named by the mark that a base value holds.
    pub fn from(expr: ExpressionEnum) -> (r: Result<Function, MarkError>)
        ensures
            match expr {
                ExpressionEnum::BaseValue(v) => match code_mark(v.value@) {
                    None => r matches Err(MarkError::Invalid(m)) && m@ == v.value@,
                    Some((name, line)) => match parse_usize_spec(line) {
                        Some(n) => r matches Ok(f) && f.mark@ == v.value@ && f.name@ == name
                            && f.args@.len() == 0 && f.bodys@.len() == 0 && f.defaults@.len()
                            == 0 && !f.is_async && f.start_line == n && f.end_line == n,
                        None => r matches Err(MarkError::BadLine(l)) && l@ == line,
                    },
                },
                _ => r == Err::<Function, MarkError>(MarkError::NotBaseValue),
            },
    {
        match expr {
            ExpressionEnum::BaseValue(v) => Function::new(v.value.as_str()),
            _ => Err(MarkError::NotBaseValue),
        }
    }
}

} // verus!
