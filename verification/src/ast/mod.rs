//! The expression tree of the decompiler. Nodes refer to their children by
//! [`QueryId`], and live in a [`QueryMap`](crate::query::QueryMap).

use vstd::prelude::*;
use crate::mark::{MarkError, parse_code_mark};
use crate::patterns::code_mark;
use crate::text::parse_usize_spec;
pub use crate::query_id::QueryId;
use crate::query_id::ExprKind;

verus! {

/// A node type of the expression tree. Each names the kind under which its
/// nodes are filed.
pub trait Expression {
    /// The kind of this node type.
    spec fn spec_kind() -> ExprKind;

    /// The kind of this node type.
    fn kind() -> (r: ExprKind)
        ensures
            r == Self::spec_kind(),
    ;
}

/// ## Import module expression
/// 
/// In python, it is like this:
/// ```python
/// import os
/// from os import path, system
/// import os as o
/// from os import path as p
/// ```
#[derive(Clone, Debug, PartialEq, Eq, Default)]
pub struct Import {
    /// The imported module name
    pub module: String,
    /// The module name which is imported from
    pub bk_module: Option<String>,
    /// The fragment of the module
    pub fragment: Option<String>,
    /// The alias of the module
    pub alias: Option<String>,
    /// The start line of the import expression
    pub start_line: usize,
    /// The start offset of the import expression
    pub start_offset: usize,
    /// The end offset of the import expression
    pub end_offset: usize,
}

impl Expression for Import {
    open spec fn spec_kind() -> ExprKind {
        ExprKind::Import
    }

    fn kind() -> (r: ExprKind) {
        ExprKind::Import
    }
}

/// ## Python Class expression
/// 
/// In python, it is like this:
/// ```python
/// class A:
///     def __init__(self):
///         pass
/// ```
#[derive(Clone, Debug, PartialEq, Eq, Default)]
pub struct Class {
    /// The marker of the class object
    ///
    /// It is like `<code object A at 0x0000000000000000, file "path", line 1>`
    pub mark: String,
    /// The name of the class
    pub name: String,
    /// The members of the class
    ///
    /// Each method or variable in the class is a member
    pub members: Vec<QueryId>,
    /// The start line of the class expression
    pub start_line: usize,
    /// The start offset of the class expression
    pub start_offset: usize,
    /// The end offset of the class expression
    pub end_offset: usize,
}

impl Expression for Class {
    open spec fn spec_kind() -> ExprKind {
        ExprKind::Class
    }

    fn kind() -> (r: ExprKind) {
        ExprKind::Class
    }
}

/// ## Local variable or function parameter
#[derive(Clone, Debug, PartialEq, Eq, Default)]
pub struct FastVariable {
    /// The variable index in the local scope
    pub index: usize,
    /// The name of the variable
    pub name: String,
    /// The annotation of the variable
    ///
    /// It is the type hint of the variable
    pub annotation: Option<String>,
    /// The start line of the variable expression
    pub start_line: usize,
    /// The start offset of the variable expression
    pub start_offset: usize,
    /// The end offset of the variable expression
    pub end_offset: usize,
}

impl Expression for FastVariable {
    open spec fn spec_kind() -> ExprKind {
        ExprKind::FastVariable
    }

    fn kind() -> (r: ExprKind) {
        ExprKind::FastVariable
    }
}

/// ## Python function expression
/// 
/// It also contains the `<lambda>`, `<listcomp>` and other special functions or generators
/// 
/// In python, it is like this:
/// ```python
/// def func(a: int = 1) -> int:
///     return a
/// b = lambda x: x + 1
/// c = [i for i in range(10)]
/// d = {i: i for i in range(10)}
/// ```
#[derive(Clone, Debug, PartialEq, Eq, Default)]
pub struct Function {
    /// The marker of the function object
    ///
    /// It is like `<code object A at 0x0000000000000000, file "path", line 1>`
    pub mark: String,
    /// The name of the function
    pub name: String,
    /// The arguments of the function
    pub args: Vec<QueryId>,
    /// The default values of the arguments
    pub ret: Option<QueryId>,
    /// The body of the function
    pub bodys: Vec<QueryId>,
    /// The default values of the arguments
    pub defaults: Vec<String>,
    /// Mark whether the function is async
    pub is_async: bool,
    /// The start line of the function expression
    pub start_line: usize,
    /// The end line of the function expression
    pub end_line: usize,
    /// The start offset of the function expression
    pub start_offset: usize,
    /// The end offset of the function expression
    pub end_offset: usize,
}

impl Expression for Function {
    open spec fn spec_kind() -> ExprKind {
        ExprKind::Function
    }

    fn kind() -> (r: ExprKind) {
        ExprKind::Function
    }
}

/// ## Return expression
/// 
/// It is used in the function
/// 
/// In python, it is like this:
/// ```python
/// def func():
///     return 1
/// ```
#[derive(Clone, Debug, PartialEq, Eq, Default)]
pub struct Return {
    /// The value of the return expression
    pub value: Option<QueryId>,
    /// The start line of the return expression
    pub start_line: usize,
    /// The start offset of the return expression
    pub start_offset: usize,
    /// The end offset of the return expression
    pub end_offset: usize,
}

impl Expression for Return {
    open spec fn spec_kind() -> ExprKind {
        ExprKind::Return
    }

    fn kind() -> (r: ExprKind) {
        ExprKind::Return
    }
}

/// ## Yield expression
/// 
/// It is used in the generator function
/// 
/// In python, it is like this:
/// ```python
/// def gen():
///     yield 1
/// ```
#[derive(Clone, Debug, PartialEq, Eq, Default)]
pub struct Yield {
    /// The value of the yield expression
    pub value: Option<QueryId>,
    /// The start line of the yield expression
    pub start_line: usize,
    /// The start offset of the yield expression
    pub start_offset: usize,
    /// The end offset of the yield expression
    pub end_offset: usize,
}

impl Expression for Yield {
    open spec fn spec_kind() -> ExprKind {
        ExprKind::Yield
    }

    fn kind() -> (r: ExprKind) {
        ExprKind::Yield
    }
}

/// ## Assign expression
/// 
/// It is used to assign the value to the variable.
/// 
/// And it also contains some self-assign operators.
/// 
/// In python, it is like this:
/// ```python
/// a = 1
/// ```
#[derive(Clone, Debug, PartialEq, Eq, Default)]
pub struct Assign {
    /// The target variable name
    pub target: Option<QueryId>,
    /// The value of the assignment
    pub value: Option<QueryId>,
    /// The operator of the assignment
    ///
    /// It is like `=`, `+=`, `-=`, `*=`, `/=`, `%=`, `<<=`, `>>=`, `&=`, `|=`, `^=` and so on.
    pub operator: String,
    /// The start line of the assignment expression
    pub start_line: usize,
    /// The start offset of the assignment expression
    pub start_offset: usize,
    /// The end offset of the assignment expression
    pub end_offset: usize,
}

impl Expression for Assign {
    open spec fn spec_kind() -> ExprKind {
        ExprKind::Assign
    }

    fn kind() -> (r: ExprKind) {
        ExprKind::Assign
    }
}

/// ## Alias expression
/// 
/// It very like the [`Assign`], but is only used `as` operator.
#[derive(Clone, Debug, PartialEq, Eq, Default)]
pub struct Alias {
    /// The variable which will be aliased
    pub target: Option<QueryId>,
    /// The alias name
    pub alias: Option<QueryId>,
    /// The start line of the alias expression
    pub start_line: usize,
    /// The start offset of the alias expression
    pub start_offset: usize,
    /// The end offset of the alias expression
    pub end_offset: usize,
}

impl Expression for Alias {
    open spec fn spec_kind() -> ExprKind {
        ExprKind::Alias
    }

    fn kind() -> (r: ExprKind) {
        ExprKind::Alias
    }
}

/// ## Try expression
/// 
/// It is used to catch the exception in the block.
/// 
/// In python, it is like this:
/// ```python
/// try:
///     pass
/// except Exception as e:
///     pass
/// finally:
///     pass
/// ```
#[derive(Clone, Debug, PartialEq, Eq, Default)]
pub struct Try {
    /// The body of the try block
    pub body: Vec<QueryId>,
    /// The except block
    pub except: Vec<QueryId>,
    /// The finally block
    pub finally: Option<QueryId>,
    /// The start line of the try expression
    pub start_line: usize,
    /// The start offset of the try expression
    pub start_offset: usize,
    /// The end offset of the try expression
    pub end_offset: usize,
}

impl Expression for Try {
    open spec fn spec_kind() -> ExprKind {
        ExprKind::Try
    }

    fn kind() -> (r: ExprKind) {
        ExprKind::Try
    }
}

/// ## Except expression
/// 
/// It is used to catch the exception in the block.
/// 
/// Learn more from [`Try`]
#[derive(Clone, Debug, PartialEq, Eq, Default)]
pub struct Except {
    /// The exception type
    pub exception: Option<QueryId>,
    /// The body of the except block
    pub body: Vec<QueryId>,
    /// The start line of the except expression
    pub start_line: usize,
    /// The start offset of the except expression
    pub start_offset: usize,
    /// The end offset of the except expression
    pub end_offset: usize,
}

impl Expression for Except {
    open spec fn spec_kind() -> ExprKind {
        ExprKind::Except
    }

    fn kind() -> (r: ExprKind) {
        ExprKind::Except
    }
}

/// ## Finally expression
/// 
/// It is used to execute the block after the try block.
/// 
/// Learn more from [`Try`]
#[derive(Clone, Debug, PartialEq, Eq, Default)]
pub struct Finally {
    /// The body of the finally block
    pub body: Vec<QueryId>,
    /// The start line of the finally expression
    pub start_line: usize,
    /// The start offset of the finally expression
    pub start_offset: usize,
    /// The end offset of the finally expression
    pub end_offset: usize,
}

impl Expression for Finally {
    open spec fn spec_kind() -> ExprKind {
        ExprKind::Finally
    }

    fn kind() -> (r: ExprKind) {
        ExprKind::Finally
    }
}

/// ## Assertion expression
/// 
/// It is used to assert the expression is true.
/// 
/// In python, it is like this:
/// ```python
/// assert a == 1, "a should be 1"
/// assert a > 0
/// ```
#[derive(Clone, Debug, PartialEq, Eq, Default)]
pub struct Assert {
    /// The test expression. It should be true.
    pub test: Option<QueryId>,
    /// The message of the assertion
    ///
    /// If the assertion is failed, the message will be printed.
    ///
    /// Learn more from [`Raise`]
    pub msg: Option<QueryId>,
    /// The start line of the assertion expression
    pub start_line: usize,
    /// The start offset of the assertion expression
    pub start_offset: usize,
    /// The end offset of the assertion expression
    pub end_offset: usize,
}

impl Expression for Assert {
    open spec fn spec_kind() -> ExprKind {
        ExprKind::Assert
    }

    fn kind() -> (r: ExprKind) {
        ExprKind::Assert
    }
}

/// ## Raise expression
/// 
/// It will actively throw an exception.
/// 
/// In python, it is like this:
/// ```python
/// raise Exception("error")
/// ```
#[derive(Clone, Debug, PartialEq, Eq, Default)]
pub struct Raise {
    /// The exception expression
    pub exception: Option<QueryId>,
    /// The start line of the raise expression
    pub start_line: usize,
    /// The start offset of the raise expression
    pub start_offset: usize,
    /// The end offset of the raise expression
    pub end_offset: usize,
}

impl Expression for Raise {
    open spec fn spec_kind() -> ExprKind {
        ExprKind::Raise
    }

    fn kind() -> (r: ExprKind) {
        ExprKind::Raise
    }
}

/// ## Format value expression
/// 
/// It is used to format the value.
/// 
/// In python, it is like this:
/// ```python
/// f"{a}"
/// ```
/// 
/// It will format the value of `a` to the string.
/// 
/// Learn more from [`Format`]
#[derive(Clone, Debug, PartialEq, Eq, Default)]
pub struct FormatValue {
    /// The value of the format expression
    pub value: Option<QueryId>,
    /// The start line of the format value expression
    pub start_line: usize,
    /// The start offset of the format value expression
    pub start_offset: usize,
    /// The end offset of the format value expression
    pub end_offset: usize,
}

impl Expression for FormatValue {
    open spec fn spec_kind() -> ExprKind {
        ExprKind::FormatValue
    }

    fn kind() -> (r: ExprKind) {
        ExprKind::FormatValue
    }
}

/// ## Format expression
/// 
/// It contains the format, and some format values.
/// 
/// The first format value is the format string.
/// 
/// And the other format values are the values which will be formatted.
/// Learn more from [`FormatValue`]
#[derive(Clone, Debug, PartialEq, Eq, Default)]
pub struct Format {
    /// The format string and format values
    pub format_values: Vec<QueryId>,
    /// The start line of the format expression
    pub start_line: usize,
    /// The start offset of the format expression
    pub start_offset: usize,
    /// The end offset of the format expression
    pub end_offset: usize,
}

impl Expression for Format {
    open spec fn spec_kind() -> ExprKind {
        ExprKind::Format
    }

    fn kind() -> (r: ExprKind) {
        ExprKind::Format
    }
}

/// ## Binary operation expression
/// 
/// It is used to operate the two values.
/// 
/// It contains this operators:
/// - `+`, `-`, `*`, `/`, `//`, `%`, `**`, `<<`, etc.
/// 
/// In python, it is like this:
/// ```python
/// a + b
/// ```
#[derive(Clone, Debug, PartialEq, Eq, Default)]
pub struct BinaryOperation {
    /// The left value of the binary operation
    pub left: Option<QueryId>,
    /// The right value of the binary operation
    pub right: Option<QueryId>,
    /// The operator of the binary operation
    pub operator: String,
    /// The start line of the binary operation expression
    pub start_line: usize,
    /// The start offset of the binary operation expression
    pub start_offset: usize,
    /// The end offset of the binary operation expression
    pub end_offset: usize,
}

impl Expression for BinaryOperation {
    open spec fn spec_kind() -> ExprKind {
        ExprKind::BinaryOperation
    }

    fn kind() -> (r: ExprKind) {
        ExprKind::BinaryOperation
    }
}

/// ## Subscript expression
/// 
/// It is used to get the value from the container.
/// 
/// In python, it is like this:
/// ```python
/// a[0]
/// ```
#[derive(Clone, Debug, PartialEq, Eq, Default)]
pub struct Subscr {
    /// The index of the subscript
    pub index: Option<QueryId>,
    /// The container
    pub target: Option<QueryId>,
    /// The start line of the subscript expression
    pub start_line: usize,
    /// The start offset of the subscript expression
    pub start_offset: usize,
    /// The end offset of the subscript expression
    pub end_offset: usize,
}

impl Expression for Subscr {
    open spec fn spec_kind() -> ExprKind {
        ExprKind::Subscr
    }

    fn kind() -> (r: ExprKind) {
        ExprKind::Subscr
    }
}

/// ## Unary operation expression
/// 
/// It is used to operate the single value.
/// 
/// It contains this operators:
/// - `+`, `-`, `~`, `not`
/// 
/// In python, it is like this:
/// ```python
/// -a
/// +a
/// ~a
/// not a
/// ```
#[derive(Clone, Debug, PartialEq, Eq, Default)]
pub struct UnaryOperation {
    /// The target value of the unary operation
    pub target: Option<QueryId>,
    /// The type of the unary operation
    pub unary_type: UnaryType,
    /// The start line of the unary operation expression
    pub start_line: usize,
    /// The start offset of the unary operation expression
    pub start_offset: usize,
    /// The end offset of the unary operation expression
    pub end_offset: usize,
}

impl Expression for UnaryOperation {
    open spec fn spec_kind() -> ExprKind {
        ExprKind::UnaryOperation
    }

    fn kind() -> (r: ExprKind) {
        ExprKind::UnaryOperation
    }
}

/// ## Call expression
/// 
/// It is used to call the function.
/// 
/// In python, it is like this:
/// ```python
/// a()
/// print("hello")
/// ```
#[derive(Clone, Debug, PartialEq, Eq, Default)]
pub struct Call {
    /// The function name or expression
    ///
    /// It can be a variable, a function or a lambda.
    pub func: Option<QueryId>,
    /// The arguments of the call expression
    pub args: Vec<QueryId>,
    /// The start line of the call expression
    pub start_line: usize,
    /// The start offset of the call expression
    pub start_offset: usize,
    /// The end offset of the call expression
    pub end_offset: usize,
}

impl Expression for Call {
    open spec fn spec_kind() -> ExprKind {
        ExprKind::Call
    }

    fn kind() -> (r: ExprKind) {
        ExprKind::Call
    }
}

/// ## With expression
/// 
/// It is used to open the context manager.
/// 
/// In python, it is like this:
/// ```python
/// with open("file.txt") as f:
///     pass
/// ```
#[derive(Clone, Debug, PartialEq, Eq, Default)]
pub struct With {
    /// The item of the with expression
    ///
    /// It is the context manager.
    pub item: Option<QueryId>,
    /// The body of the with expression
    pub body: Vec<QueryId>,
    /// Mark whether the with expression is async
    pub is_async: bool,
    /// The start line of the with expression
    pub start_line: usize,
    /// The start offset of the with expression
    pub start_offset: usize,
    /// The end offset of the with expression
    pub end_offset: usize,
}

impl Expression for With {
    open spec fn spec_kind() -> ExprKind {
        ExprKind::With
    }

    fn kind() -> (r: ExprKind) {
        ExprKind::With
    }
}

/// ## For expression
/// 
/// It is used to iterate the container.
/// 
/// In python, it is like this:
/// ```python
/// for i in range(10):
///     pass
/// ```
#[derive(Clone, Debug, PartialEq, Eq, Default)]
pub struct For {
    /// The iterator of the for expression
    pub iterator: Option<QueryId>,
    /// The items of the for expression
    pub items: Option<QueryId>,
    /// The body of the for expression
    pub body: Vec<QueryId>,
    /// The start line of the for expression
    pub from: usize,
    /// The end line of the for expression
    pub to: usize,
    /// Mark whether the for expression is async
    pub is_async: bool,
    /// The start line of the for expression
    pub start_line: usize,
    /// The start offset of the for expression
    pub start_offset: usize,
    /// The end offset of the for expression
    pub end_offset: usize,
}

impl Expression for For {
    open spec fn spec_kind() -> ExprKind {
        ExprKind::For
    }

    fn kind() -> (r: ExprKind) {
        ExprKind::For
    }
}

/// ## If expression
/// 
/// It is used to judge the condition.
/// 
/// In python, it is like this:
/// ```python
/// if a == 1:
///     pass
/// elif a == 2:
///     pass
/// else:
///     pass
/// ```
#[derive(Clone, Debug, PartialEq, Eq, Default)]
pub struct If {
    /// The test condition expression of the if expression
    pub test: Option<QueryId>,
    /// The body of the if expression
    pub body: Vec<QueryId>,
    /// The elif / else expression
    ///
    /// It connects the next branch of the if expression.
    pub or_else: Option<QueryId>,
    /// The start line of the if expression
    pub start_line: usize,
    /// The start offset of the if expression
    pub start_offset: usize,
    /// The end offset of the if expression
    pub end_offset: usize,
}

impl Expression for If {
    open spec fn spec_kind() -> ExprKind {
        ExprKind::If
    }

    fn kind() -> (r: ExprKind) {
        ExprKind::If
    }
}

/// ## Jump expression
/// 
/// It records the jump target of the jump expression.
/// 
/// And it contains some jump operations likes `break`, `continue`, etc.
#[derive(Clone, Debug, PartialEq, Eq, Default)]
pub struct Jump {
    /// The target of the jump expression
    pub target: usize,
    /// Mark whether the jump expression is backward
    pub is_backward: bool,
    /// The start line of the jump expression
    pub start_line: usize,
    /// The start offset of the jump expression
    pub start_offset: usize,
    /// The end offset of the jump expression
    pub end_offset: usize,
}

impl Expression for Jump {
    open spec fn spec_kind() -> ExprKind {
        ExprKind::Jump
    }

    fn kind() -> (r: ExprKind) {
        ExprKind::Jump
    }
}

/// ## Await expression
/// 
/// It is used to wait the awaitable object.
#[derive(Clone, Debug, PartialEq, Eq, Default)]
pub struct Await {
    /// The awaitable expression
    pub awaitable_expr: Option<QueryId>,
    /// The start line of the await expression
    pub start_line: usize,
    /// The start offset of the await expression
    pub start_offset: usize,
    /// The end offset of the await expression
    pub end_offset: usize,
}

impl Expression for Await {
    open spec fn spec_kind() -> ExprKind {
        ExprKind::Await
    }

    fn kind() -> (r: ExprKind) {
        ExprKind::Await
    }
}

/// ## Container expression
/// 
/// It is used to contain the values.
/// 
/// It contains the list, tuple, set, dict, etc.
#[derive(Clone, Debug, PartialEq, Eq, Default)]
pub struct Container {
    /// The values of the container
    pub values: Vec<QueryId>,
    /// The type of the container
    pub container_type: ContainerType,
    /// The start line of the container expression
    pub start_line: usize,
    /// The start offset of the container expression
    pub start_offset: usize,
    /// The end offset of the container expression
    pub end_offset: usize,
}

impl Expression for Container {
    open spec fn spec_kind() -> ExprKind {
        ExprKind::Container
    }

    fn kind() -> (r: ExprKind) {
        ExprKind::Container
    }
}

/// ## Attribute expression
/// 
/// It is used to get the attribute of the object.
/// 
/// In python, it is like this:
/// ```python
/// a.b
/// ```
#[derive(Clone, Debug, PartialEq, Eq, Default)]
pub struct Attribute {
    /// The parent object
    pub parent: Option<QueryId>,
    /// The attribute name
    pub attr: Option<QueryId>,
    /// The start line of the attribute expression
    pub start_line: usize,
    /// The start offset of the attribute expression
    pub start_offset: usize,
    /// The end offset of the attribute expression
    pub end_offset: usize,
}

impl Expression for Attribute {
    open spec fn spec_kind() -> ExprKind {
        ExprKind::Attribute
    }

    fn kind() -> (r: ExprKind) {
        ExprKind::Attribute
    }
}

/// ## Slice expression
/// 
/// It is used to get the slice of the object.
/// 
/// In python, it is like this:
/// ```python
/// a[1:2]
/// arr[::-1]
/// bbb[1:10:2]
/// ```
#[derive(Clone, Debug, PartialEq, Eq, Default)]
pub struct Slice {
    /// The origin object
    pub origin: Option<QueryId>,
    /// The start, stop, step of the slice expression
    pub slice: Vec<QueryId>,
    /// The start line of the slice expression
    pub start_line: usize,
    /// The start offset of the slice expression
    pub start_offset: usize,
    /// The end offset of the slice expression
    pub end_offset: usize,
}

impl Expression for Slice {
    open spec fn spec_kind() -> ExprKind {
        ExprKind::Slice
    }

    fn kind() -> (r: ExprKind) {
        ExprKind::Slice
    }
}

/// ## Base value expression
/// 
/// It is the wrapper of the integer, float, string and other base type values.
/// 
/// It also contains the Identifier.
#[derive(Clone, Debug, PartialEq, Eq, Default)]
pub struct BaseValue {
    /// The value of the base value expression
    pub value: String,
    /// The start line of the base value expression
    pub start_line: usize,
    /// The start offset of the base value expression
    pub start_offset: usize,
    /// The end offset of the base value expression
    pub end_offset: usize,
}

impl Expression for BaseValue {
    open spec fn spec_kind() -> ExprKind {
        ExprKind::BaseValue
    }

    fn kind() -> (r: ExprKind) {
        ExprKind::BaseValue
    }
}

/// Any node of the expression tree.
#[derive(Clone, Debug, PartialEq, Eq)]
pub enum ExpressionEnum {
    Import(Import),
    Class(Class),
    FastVariable(FastVariable),
    Function(Function),
    Return(Return),
    Yield(Yield),
    Assign(Assign),
    Alias(Alias),
    Try(Try),
    Except(Except),
    Finally(Finally),
    Assert(Assert),
    Raise(Raise),
    BaseValue(BaseValue),
    FormatValue(FormatValue),
    Format(Format),
    BinaryOperation(BinaryOperation),
    Subscr(Subscr),
    UnaryOperation(UnaryOperation),
    Call(Call),
    With(With),
    For(For),
    If(If),
    Await(Await),
    Jump(Jump),
    Container(Container),
    Slice(Slice),
    Attribute(Attribute),
}

impl Default for ExpressionEnum {
    /// An empty base value.
    fn default() -> (r: ExpressionEnum)
        ensures
            r matches ExpressionEnum::BaseValue(b) && b.value@ == Seq::<char>::empty()
                && b.start_line == 0 && b.start_offset == 0 && b.end_offset == 0,
    {
        ExpressionEnum::BaseValue(BaseValue {
            value: String::new(),
            start_line: 0,
            start_offset: 0,
            end_offset: 0,
        })
    }
}

/// The id held by an optional child, as a sequence of zero or one ids.
pub open spec fn opt_ids(o: Option<QueryId>) -> Seq<QueryId> {
    match o {
        Some(id) => seq![id],
        None => Seq::empty(),
    }
}

impl ExpressionEnum {
    /// The kind of the node.
    pub open spec fn spec_kind_of(&self) -> ExprKind {
        match self {
            ExpressionEnum::Import(_) => ExprKind::Import,
            ExpressionEnum::Class(_) => ExprKind::Class,
            ExpressionEnum::FastVariable(_) => ExprKind::FastVariable,
            ExpressionEnum::Function(_) => ExprKind::Function,
            ExpressionEnum::Return(_) => ExprKind::Return,
            ExpressionEnum::Yield(_) => ExprKind::Yield,
            ExpressionEnum::Assign(_) => ExprKind::Assign,
            ExpressionEnum::Alias(_) => ExprKind::Alias,
            ExpressionEnum::Try(_) => ExprKind::Try,
            ExpressionEnum::Except(_) => ExprKind::Except,
            ExpressionEnum::Finally(_) => ExprKind::Finally,
            ExpressionEnum::Assert(_) => ExprKind::Assert,
            ExpressionEnum::Raise(_) => ExprKind::Raise,
            ExpressionEnum::BaseValue(_) => ExprKind::BaseValue,
            ExpressionEnum::FormatValue(_) => ExprKind::FormatValue,
            ExpressionEnum::Format(_) => ExprKind::Format,
            ExpressionEnum::BinaryOperation(_) => ExprKind::BinaryOperation,
            ExpressionEnum::Subscr(_) => ExprKind::Subscr,
            ExpressionEnum::UnaryOperation(_) => ExprKind::UnaryOperation,
            ExpressionEnum::Call(_) => ExprKind::Call,
            ExpressionEnum::With(_) => ExprKind::With,
            ExpressionEnum::For(_) => ExprKind::For,
            ExpressionEnum::If(_) => ExprKind::If,
            ExpressionEnum::Await(_) => ExprKind::Await,
            ExpressionEnum::Jump(_) => ExprKind::Jump,
            ExpressionEnum::Container(_) => ExprKind::Container,
            ExpressionEnum::Slice(_) => ExprKind::Slice,
            ExpressionEnum::Attribute(_) => ExprKind::Attribute,
        }
    }

    /// The ids of all children of the node, field by field.
    pub open spec fn children(&self) -> Seq<QueryId> {
        match self {
            ExpressionEnum::Import(e) => Seq::empty(),
            ExpressionEnum::Class(e) => e.members@,
            ExpressionEnum::FastVariable(e) => Seq::empty(),
            ExpressionEnum::Function(e) => e.args@ + opt_ids(e.ret) + e.bodys@,
            ExpressionEnum::Return(e) => opt_ids(e.value),
            ExpressionEnum::Yield(e) => opt_ids(e.value),
            ExpressionEnum::Assign(e) => opt_ids(e.target) + opt_ids(e.value),
            ExpressionEnum::Alias(e) => opt_ids(e.target) + opt_ids(e.alias),
            ExpressionEnum::Try(e) => e.body@ + e.except@ + opt_ids(e.finally),
            ExpressionEnum::Except(e) => opt_ids(e.exception) + e.body@,
            ExpressionEnum::Finally(e) => e.body@,
            ExpressionEnum::Assert(e) => opt_ids(e.test) + opt_ids(e.msg),
            ExpressionEnum::Raise(e) => opt_ids(e.exception),
            ExpressionEnum::BaseValue(e) => Seq::empty(),
            ExpressionEnum::FormatValue(e) => opt_ids(e.value),
            ExpressionEnum::Format(e) => e.format_values@,
            ExpressionEnum::BinaryOperation(e) => opt_ids(e.left) + opt_ids(e.right),
            ExpressionEnum::Subscr(e) => opt_ids(e.index) + opt_ids(e.target),
            ExpressionEnum::UnaryOperation(e) => opt_ids(e.target),
            ExpressionEnum::Call(e) => opt_ids(e.func) + e.args@,
            ExpressionEnum::With(e) => opt_ids(e.item) + e.body@,
            ExpressionEnum::For(e) => opt_ids(e.iterator) + opt_ids(e.items) + e.body@,
            ExpressionEnum::If(e) => opt_ids(e.test) + e.body@ + opt_ids(e.or_else),
            ExpressionEnum::Await(e) => opt_ids(e.awaitable_expr),
            ExpressionEnum::Jump(e) => Seq::empty(),
            ExpressionEnum::Container(e) => e.values@,
            ExpressionEnum::Slice(e) => opt_ids(e.origin) + e.slice@,
            ExpressionEnum::Attribute(e) => opt_ids(e.parent) + opt_ids(e.attr),
        }
    }

    /// The kind of the node.
    pub fn kind_of(&self) -> (r: ExprKind)
        ensures
            r == self.spec_kind_of(),
    {
        match self {
            ExpressionEnum::Import(_) => ExprKind::Import,
            ExpressionEnum::Class(_) => ExprKind::Class,
            ExpressionEnum::FastVariable(_) => ExprKind::FastVariable,
            ExpressionEnum::Function(_) => ExprKind::Function,
            ExpressionEnum::Return(_) => ExprKind::Return,
            ExpressionEnum::Yield(_) => ExprKind::Yield,
            ExpressionEnum::Assign(_) => ExprKind::Assign,
            ExpressionEnum::Alias(_) => ExprKind::Alias,
            ExpressionEnum::Try(_) => ExprKind::Try,
            ExpressionEnum::Except(_) => ExprKind::Except,
            ExpressionEnum::Finally(_) => ExprKind::Finally,
            ExpressionEnum::Assert(_) => ExprKind::Assert,
            ExpressionEnum::Raise(_) => ExprKind::Raise,
            ExpressionEnum::BaseValue(_) => ExprKind::BaseValue,
            ExpressionEnum::FormatValue(_) => ExprKind::FormatValue,
            ExpressionEnum::Format(_) => ExprKind::Format,
            ExpressionEnum::BinaryOperation(_) => ExprKind::BinaryOperation,
            ExpressionEnum::Subscr(_) => ExprKind::Subscr,
            ExpressionEnum::UnaryOperation(_) => ExprKind::UnaryOperation,
            ExpressionEnum::Call(_) => ExprKind::Call,
            ExpressionEnum::With(_) => ExprKind::With,
            ExpressionEnum::For(_) => ExprKind::For,
            ExpressionEnum::If(_) => ExprKind::If,
            ExpressionEnum::Await(_) => ExprKind::Await,
            ExpressionEnum::Jump(_) => ExprKind::Jump,
            ExpressionEnum::Container(_) => ExprKind::Container,
            ExpressionEnum::Slice(_) => ExprKind::Slice,
            ExpressionEnum::Attribute(_) => ExprKind::Attribute,
        }
    }

    /// The node as a [`Import`], if it is one.
    pub fn as_ref_import(&self) -> (r: Option<&Import>)
        ensures
            self matches ExpressionEnum::Import(e) ==> r == Some(e),
            !(self is Import) ==> r is None,
    {
        match self {
            ExpressionEnum::Import(e) => Some(e),
            _ => None,
        }
    }

    /// Whether the node is a [`Import`].
    pub fn is_import(&self) -> (r: bool)
        ensures
            r == self is Import,
    {
        match self {
            ExpressionEnum::Import(_) => true,
            _ => false,
        }
    }

    /// The node as a [`Class`], if it is one.
    pub fn as_ref_class(&self) -> (r: Option<&Class>)
        ensures
            self matches ExpressionEnum::Class(e) ==> r == Some(e),
            !(self is Class) ==> r is None,
    {
        match self {
            ExpressionEnum::Class(e) => Some(e),
            _ => None,
        }
    }

    /// Whether the node is a [`Class`].
    pub fn is_class(&self) -> (r: bool)
        ensures
            r == self is Class,
    {
        match self {
            ExpressionEnum::Class(_) => true,
            _ => false,
        }
    }

    /// The node as a [`FastVariable`], if it is one.
    pub fn as_ref_fast_variable(&self) -> (r: Option<&FastVariable>)
        ensures
            self matches ExpressionEnum::FastVariable(e) ==> r == Some(e),
            !(self is FastVariable) ==> r is None,
    {
        match self {
            ExpressionEnum::FastVariable(e) => Some(e),
            _ => None,
        }
    }

    /// Whether the node is a [`FastVariable`].
    pub fn is_fast_variable(&self) -> (r: bool)
        ensures
            r == self is FastVariable,
    {
        match self {
            ExpressionEnum::FastVariable(_) => true,
            _ => false,
        }
    }

    /// The node as a [`Function`], if it is one.
    pub fn as_ref_function(&self) -> (r: Option<&Function>)
        ensures
            self matches ExpressionEnum::Function(e) ==> r == Some(e),
            !(self is Function) ==> r is None,
    {
        match self {
            ExpressionEnum::Function(e) => Some(e),
            _ => None,
        }
    }

    /// Whether the node is a [`Function`].
    pub fn is_function(&self) -> (r: bool)
        ensures
            r == self is Function,
    {
        match self {
            ExpressionEnum::Function(_) => true,
            _ => false,
        }
    }

    /// The node as a [`Return`], if it is one.
    pub fn as_ref_return(&self) -> (r: Option<&Return>)
        ensures
            self matches ExpressionEnum::Return(e) ==> r == Some(e),
            !(self is Return) ==> r is None,
    {
        match self {
            ExpressionEnum::Return(e) => Some(e),
            _ => None,
        }
    }

    /// Whether the node is a [`Return`].
    pub fn is_return(&self) -> (r: bool)
        ensures
            r == self is Return,
    {
        match self {
            ExpressionEnum::Return(_) => true,
            _ => false,
        }
    }

    /// The node as a [`Yield`], if it is one.
    pub fn as_ref_yield(&self) -> (r: Option<&Yield>)
        ensures
            self matches ExpressionEnum::Yield(e) ==> r == Some(e),
            !(self is Yield) ==> r is None,
    {
        match self {
            ExpressionEnum::Yield(e) => Some(e),
            _ => None,
        }
    }

    /// Whether the node is a [`Yield`].
    pub fn is_yield(&self) -> (r: bool)
        ensures
            r == self is Yield,
    {
        match self {
            ExpressionEnum::Yield(_) => true,
            _ => false,
        }
    }

    /// The node as a [`Assign`], if it is one.
    pub fn as_ref_assign(&self) -> (r: Option<&Assign>)
        ensures
            self matches ExpressionEnum::Assign(e) ==> r == Some(e),
            !(self is Assign) ==> r is None,
    {
        match self {
            ExpressionEnum::Assign(e) => Some(e),
            _ => None,
        }
    }

    /// Whether the node is a [`Assign`].
    pub fn is_assign(&self) -> (r: bool)
        ensures
            r == self is Assign,
    {
        match self {
            ExpressionEnum::Assign(_) => true,
            _ => false,
        }
    }

    /// The node as a [`Alias`], if it is one.
    pub fn as_ref_alias(&self) -> (r: Option<&Alias>)
        ensures
            self matches ExpressionEnum::Alias(e) ==> r == Some(e),
            !(self is Alias) ==> r is None,
    {
        match self {
            ExpressionEnum::Alias(e) => Some(e),
            _ => None,
        }
    }

    /// Whether the node is a [`Alias`].
    pub fn is_alias(&self) -> (r: bool)
        ensures
            r == self is Alias,
    {
        match self {
            ExpressionEnum::Alias(_) => true,
            _ => false,
        }
    }

    /// The node as a [`Try`], if it is one.
    pub fn as_ref_try(&self) -> (r: Option<&Try>)
        ensures
            self matches ExpressionEnum::Try(e) ==> r == Some(e),
            !(self is Try) ==> r is None,
    {
        match self {
            ExpressionEnum::Try(e) => Some(e),
            _ => None,
        }
    }

    /// Whether the node is a [`Try`].
    pub fn is_try(&self) -> (r: bool)
        ensures
            r == self is Try,
    {
        match self {
            ExpressionEnum::Try(_) => true,
            _ => false,
        }
    }

    /// The node as a [`Except`], if it is one.
    pub fn as_ref_except(&self) -> (r: Option<&Except>)
        ensures
            self matches ExpressionEnum::Except(e) ==> r == Some(e),
            !(self is Except) ==> r is None,
    {
        match self {
            ExpressionEnum::Except(e) => Some(e),
            _ => None,
        }
    }

    /// Whether the node is a [`Except`].
    pub fn is_except(&self) -> (r: bool)
        ensures
            r == self is Except,
    {
        match self {
            ExpressionEnum::Except(_) => true,
            _ => false,
        }
    }

    /// The node as a [`Finally`], if it is one.
    pub fn as_ref_finally(&self) -> (r: Option<&Finally>)
        ensures
            self matches ExpressionEnum::Finally(e) ==> r == Some(e),
            !(self is Finally) ==> r is None,
    {
        match self {
            ExpressionEnum::Finally(e) => Some(e),
            _ => None,
        }
    }

    /// Whether the node is a [`Finally`].
    pub fn is_finally(&self) -> (r: bool)
        ensures
            r == self is Finally,
    {
        match self {
            ExpressionEnum::Finally(_) => true,
            _ => false,
        }
    }

    /// The node as a [`Assert`], if it is one.
    pub fn as_ref_assert(&self) -> (r: Option<&Assert>)
        ensures
            self matches ExpressionEnum::Assert(e) ==> r == Some(e),
            !(self is Assert) ==> r is None,
    {
        match self {
            ExpressionEnum::Assert(e) => Some(e),
            _ => None,
        }
    }

    /// Whether the node is a [`Assert`].
    pub fn is_assert(&self) -> (r: bool)
        ensures
            r == self is Assert,
    {
        match self {
            ExpressionEnum::Assert(_) => true,
            _ => false,
        }
    }

    /// The node as a [`Raise`], if it is one.
    pub fn as_ref_raise(&self) -> (r: Option<&Raise>)
        ensures
            self matches ExpressionEnum::Raise(e) ==> r == Some(e),
            !(self is Raise) ==> r is None,
    {
        match self {
            ExpressionEnum::Raise(e) => Some(e),
            _ => None,
        }
    }

    /// Whether the node is a [`Raise`].
    pub fn is_raise(&self) -> (r: bool)
        ensures
            r == self is Raise,
    {
        match self {
            ExpressionEnum::Raise(_) => true,
            _ => false,
        }
    }

    /// The node as a [`BaseValue`], if it is one.
    pub fn as_ref_base_value(&self) -> (r: Option<&BaseValue>)
        ensures
            self matches ExpressionEnum::BaseValue(e) ==> r == Some(e),
            !(self is BaseValue) ==> r is None,
    {
        match self {
            ExpressionEnum::BaseValue(e) => Some(e),
            _ => None,
        }
    }

    /// Whether the node is a [`BaseValue`].
    pub fn is_base_value(&self) -> (r: bool)
        ensures
            r == self is BaseValue,
    {
        match self {
            ExpressionEnum::BaseValue(_) => true,
            _ => false,
        }
    }

    /// The node as a [`FormatValue`], if it is one.
    pub fn as_ref_format_value(&self) -> (r: Option<&FormatValue>)
        ensures
            self matches ExpressionEnum::FormatValue(e) ==> r == Some(e),
            !(self is FormatValue) ==> r is None,
    {
        match self {
            ExpressionEnum::FormatValue(e) => Some(e),
            _ => None,
        }
    }

    /// Whether the node is a [`FormatValue`].
    pub fn is_format_value(&self) -> (r: bool)
        ensures
            r == self is FormatValue,
    {
        match self {
            ExpressionEnum::FormatValue(_) => true,
            _ => false,
        }
    }

    /// The node as a [`Format`], if it is one.
    pub fn as_ref_format(&self) -> (r: Option<&Format>)
        ensures
            self matches ExpressionEnum::Format(e) ==> r == Some(e),
            !(self is Format) ==> r is None,
    {
        match self {
            ExpressionEnum::Format(e) => Some(e),
            _ => None,
        }
    }

    /// Whether the node is a [`Format`].
    pub fn is_format(&self) -> (r: bool)
        ensures
            r == self is Format,
    {
        match self {
            ExpressionEnum::Format(_) => true,
            _ => false,
        }
    }

    /// The node as a [`BinaryOperation`], if it is one.
    pub fn as_ref_binary_operation(&self) -> (r: Option<&BinaryOperation>)
        ensures
            self matches ExpressionEnum::BinaryOperation(e) ==> r == Some(e),
            !(self is BinaryOperation) ==> r is None,
    {
        match self {
            ExpressionEnum::BinaryOperation(e) => Some(e),
            _ => None,
        }
    }

    /// Whether the node is a [`BinaryOperation`].
    pub fn is_binary_operation(&self) -> (r: bool)
        ensures
            r == self is BinaryOperation,
    {
        match self {
            ExpressionEnum::BinaryOperation(_) => true,
            _ => false,
        }
    }

    /// The node as a [`Subscr`], if it is one.
    pub fn as_ref_subscr(&self) -> (r: Option<&Subscr>)
        ensures
            self matches ExpressionEnum::Subscr(e) ==> r == Some(e),
            !(self is Subscr) ==> r is None,
    {
        match self {
            ExpressionEnum::Subscr(e) => Some(e),
            _ => None,
        }
    }

    /// Whether the node is a [`Subscr`].
    pub fn is_subscr(&self) -> (r: bool)
        ensures
            r == self is Subscr,
    {
        match self {
            ExpressionEnum::Subscr(_) => true,
            _ => false,
        }
    }

    /// The node as a [`UnaryOperation`], if it is one.
    pub fn as_ref_unary_operation(&self) -> (r: Option<&UnaryOperation>)
        ensures
            self matches ExpressionEnum::UnaryOperation(e) ==> r == Some(e),
            !(self is UnaryOperation) ==> r is None,
    {
        match self {
            ExpressionEnum::UnaryOperation(e) => Some(e),
            _ => None,
        }
    }

    /// Whether the node is a [`UnaryOperation`].
    pub fn is_unary_operation(&self) -> (r: bool)
        ensures
            r == self is UnaryOperation,
    {
        match self {
            ExpressionEnum::UnaryOperation(_) => true,
            _ => false,
        }
    }

    /// The node as a [`Call`], if it is one.
    pub fn as_ref_call(&self) -> (r: Option<&Call>)
        ensures
            self matches ExpressionEnum::Call(e) ==> r == Some(e),
            !(self is Call) ==> r is None,
    {
        match self {
            ExpressionEnum::Call(e) => Some(e),
            _ => None,
        }
    }

    /// Whether the node is a [`Call`].
    pub fn is_call(&self) -> (r: bool)
        ensures
            r == self is Call,
    {
        match self {
            ExpressionEnum::Call(_) => true,
            _ => false,
        }
    }

    /// The node as a [`With`], if it is one.
    pub fn as_ref_with(&self) -> (r: Option<&With>)
        ensures
            self matches ExpressionEnum::With(e) ==> r == Some(e),
            !(self is With) ==> r is None,
    {
        match self {
            ExpressionEnum::With(e) => Some(e),
            _ => None,
        }
    }

    /// Whether the node is a [`With`].
    pub fn is_with(&self) -> (r: bool)
        ensures
            r == self is With,
    {
        match self {
            ExpressionEnum::With(_) => true,
            _ => false,
        }
    }

    /// The node as a [`For`], if it is one.
    pub fn as_ref_for(&self) -> (r: Option<&For>)
        ensures
            self matches ExpressionEnum::For(e) ==> r == Some(e),
            !(self is For) ==> r is None,
    {
        match self {
            ExpressionEnum::For(e) => Some(e),
            _ => None,
        }
    }

    /// Whether the node is a [`For`].
    pub fn is_for(&self) -> (r: bool)
        ensures
            r == self is For,
    {
        match self {
            ExpressionEnum::For(_) => true,
            _ => false,
        }
    }

    /// The node as a [`If`], if it is one.
    pub fn as_ref_if(&self) -> (r: Option<&If>)
        ensures
            self matches ExpressionEnum::If(e) ==> r == Some(e),
            !(self is If) ==> r is None,
    {
        match self {
            ExpressionEnum::If(e) => Some(e),
            _ => None,
        }
    }

    /// Whether the node is a [`If`].
    pub fn is_if(&self) -> (r: bool)
        ensures
            r == self is If,
    {
        match self {
            ExpressionEnum::If(_) => true,
            _ => false,
        }
    }

    /// The node as a [`Await`], if it is one.
    pub fn as_ref_await(&self) -> (r: Option<&Await>)
        ensures
            self matches ExpressionEnum::Await(e) ==> r == Some(e),
            !(self is Await) ==> r is None,
    {
        match self {
            ExpressionEnum::Await(e) => Some(e),
            _ => None,
        }
    }

    /// Whether the node is a [`Await`].
    pub fn is_await(&self) -> (r: bool)
        ensures
            r == self is Await,
    {
        match self {
            ExpressionEnum::Await(_) => true,
            _ => false,
        }
    }

    /// The node as a [`Jump`], if it is one.
    pub fn as_ref_jump(&self) -> (r: Option<&Jump>)
        ensures
            self matches ExpressionEnum::Jump(e) ==> r == Some(e),
            !(self is Jump) ==> r is None,
    {
        match self {
            ExpressionEnum::Jump(e) => Some(e),
            _ => None,
        }
    }

    /// Whether the node is a [`Jump`].
    pub fn is_jump(&self) -> (r: bool)
        ensures
            r == self is Jump,
    {
        match self {
            ExpressionEnum::Jump(_) => true,
            _ => false,
        }
    }

    /// The node as a [`Container`], if it is one.
    pub fn as_ref_container(&self) -> (r: Option<&Container>)
        ensures
            self matches ExpressionEnum::Container(e) ==> r == Some(e),
            !(self is Container) ==> r is None,
    {
        match self {
            ExpressionEnum::Container(e) => Some(e),
            _ => None,
        }
    }

    /// Whether the node is a [`Container`].
    pub fn is_container(&self) -> (r: bool)
        ensures
            r == self is Container,
    {
        match self {
            ExpressionEnum::Container(_) => true,
            _ => false,
        }
    }

    /// The node as a [`Slice`], if it is one.
    pub fn as_ref_slice(&self) -> (r: Option<&Slice>)
        ensures
            self matches ExpressionEnum::Slice(e) ==> r == Some(e),
            !(self is Slice) ==> r is None,
    {
        match self {
            ExpressionEnum::Slice(e) => Some(e),
            _ => None,
        }
    }

    /// Whether the node is a [`Slice`].
    pub fn is_slice(&self) -> (r: bool)
        ensures
            r == self is Slice,
    {
        match self {
            ExpressionEnum::Slice(_) => true,
            _ => false,
        }
    }

    /// The node as a [`Attribute`], if it is one.
    pub fn as_ref_attribute(&self) -> (r: Option<&Attribute>)
        ensures
            self matches ExpressionEnum::Attribute(e) ==> r == Some(e),
            !(self is Attribute) ==> r is None,
    {
        match self {
            ExpressionEnum::Attribute(e) => Some(e),
            _ => None,
        }
    }

    /// Whether the node is a [`Attribute`].
    pub fn is_attribute(&self) -> (r: bool)
        ensures
            r == self is Attribute,
    {
        match self {
            ExpressionEnum::Attribute(_) => true,
            _ => false,
        }
    }

}

/// The kinds of unary operations.
#[derive(Clone, Debug, PartialEq, Eq, Default, Structural)]
pub enum UnaryType {
    /// The negative operation, like `-a`
    Negative,
    /// The invert operation, like `~a`
    Invert,
    /// The not operation, like `not a`
    Not,
    /// The positive operation, like `+a`
    #[default]
    Positive,
}

/// The kinds of containers.
#[derive(Clone, Debug, PartialEq, Eq, Default, Structural)]
pub enum ContainerType {
    /// A list, like `[1, 2, 3]`
    List,
    /// A tuple, like `(1, (), "a")`
    #[default]
    Tuple,
    /// A set, like `{1, 2, "a"}`
    SetContainer,
    /// A dictionary, like `{1: 2, "a": "b"}`
    Dict,
}

impl ExpressionEnum {
    /// The start and end offsets of the node.
    pub open spec fn spec_offset(&self) -> (usize, usize) {
        match self {
            ExpressionEnum::Import(e) => (e.start_offset, e.end_offset),
            ExpressionEnum::Class(e) => (e.start_offset, e.end_offset),
            ExpressionEnum::FastVariable(e) => (e.start_offset, e.end_offset),
            ExpressionEnum::Function(e) => (e.start_offset, e.end_offset),
            ExpressionEnum::Return(e) => (e.start_offset, e.end_offset),
            ExpressionEnum::Yield(e) => (e.start_offset, e.end_offset),
            ExpressionEnum::Assign(e) => (e.start_offset, e.end_offset),
            ExpressionEnum::Alias(e) => (e.start_offset, e.end_offset),
            ExpressionEnum::Try(e) => (e.start_offset, e.end_offset),
            ExpressionEnum::Except(e) => (e.start_offset, e.end_offset),
            ExpressionEnum::Finally(e) => (e.start_offset, e.end_offset),
            ExpressionEnum::Assert(e) => (e.start_offset, e.end_offset),
            ExpressionEnum::Raise(e) => (e.start_offset, e.end_offset),
            ExpressionEnum::BaseValue(e) => (e.start_offset, e.end_offset),
            ExpressionEnum::FormatValue(e) => (e.start_offset, e.end_offset),
            ExpressionEnum::Format(e) => (e.start_offset, e.end_offset),
            ExpressionEnum::BinaryOperation(e) => (e.start_offset, e.end_offset),
            ExpressionEnum::Subscr(e) => (e.start_offset, e.end_offset),
            ExpressionEnum::UnaryOperation(e) => (e.start_offset, e.end_offset),
            ExpressionEnum::Call(e) => (e.start_offset, e.end_offset),
            ExpressionEnum::With(e) => (e.start_offset, e.end_offset),
            ExpressionEnum::For(e) => (e.start_offset, e.end_offset),
            ExpressionEnum::If(e) => (e.start_offset, e.end_offset),
            ExpressionEnum::Await(e) => (e.start_offset, e.end_offset),
            ExpressionEnum::Jump(e) => (e.start_offset, e.end_offset),
            ExpressionEnum::Container(e) => (e.start_offset, e.end_offset),
            ExpressionEnum::Slice(e) => (e.start_offset, e.end_offset),
            ExpressionEnum::Attribute(e) => (e.start_offset, e.end_offset),
        }
    }

    /// The start and end offsets of the node.
    pub fn get_offset(&self) -> (r: (usize, usize))
        ensures
            r == self.spec_offset(),
    {
        match self {
            ExpressionEnum::Import(e) => (e.start_offset, e.end_offset),
            ExpressionEnum::Class(e) => (e.start_offset, e.end_offset),
            ExpressionEnum::FastVariable(e) => (e.start_offset, e.end_offset),
            ExpressionEnum::Function(e) => (e.start_offset, e.end_offset),
            ExpressionEnum::Return(e) => (e.start_offset, e.end_offset),
            ExpressionEnum::Yield(e) => (e.start_offset, e.end_offset),
            ExpressionEnum::Assign(e) => (e.start_offset, e.end_offset),
            ExpressionEnum::Alias(e) => (e.start_offset, e.end_offset),
            ExpressionEnum::Try(e) => (e.start_offset, e.end_offset),
            ExpressionEnum::Except(e) => (e.start_offset, e.end_offset),
            ExpressionEnum::Finally(e) => (e.start_offset, e.end_offset),
            ExpressionEnum::Assert(e) => (e.start_offset, e.end_offset),
            ExpressionEnum::Raise(e) => (e.start_offset, e.end_offset),
            ExpressionEnum::BaseValue(e) => (e.start_offset, e.end_offset),
            ExpressionEnum::FormatValue(e) => (e.start_offset, e.end_offset),
            ExpressionEnum::Format(e) => (e.start_offset, e.end_offset),
            ExpressionEnum::BinaryOperation(e) => (e.start_offset, e.end_offset),
            ExpressionEnum::Subscr(e) => (e.start_offset, e.end_offset),
            ExpressionEnum::UnaryOperation(e) => (e.start_offset, e.end_offset),
            ExpressionEnum::Call(e) => (e.start_offset, e.end_offset),
            ExpressionEnum::With(e) => (e.start_offset, e.end_offset),
            ExpressionEnum::For(e) => (e.start_offset, e.end_offset),
            ExpressionEnum::If(e) => (e.start_offset, e.end_offset),
            ExpressionEnum::Await(e) => (e.start_offset, e.end_offset),
            ExpressionEnum::Jump(e) => (e.start_offset, e.end_offset),
            ExpressionEnum::Container(e) => (e.start_offset, e.end_offset),
            ExpressionEnum::Slice(e) => (e.start_offset, e.end_offset),
            ExpressionEnum::Attribute(e) => (e.start_offset, e.end_offset),
        }
    }

    /// The node with its start and end offsets set.
    pub open spec fn with_offset(self, start_offset: usize, end_offset: usize) -> ExpressionEnum {
        match self {
            ExpressionEnum::Import(e) => ExpressionEnum::Import(Import { start_offset, end_offset, ..e }),
            ExpressionEnum::Class(e) => ExpressionEnum::Class(Class { start_offset, end_offset, ..e }),
            ExpressionEnum::FastVariable(e) => ExpressionEnum::FastVariable(FastVariable { start_offset, end_offset, ..e }),
            ExpressionEnum::Function(e) => ExpressionEnum::Function(Function { start_offset, end_offset, ..e }),
            ExpressionEnum::Return(e) => ExpressionEnum::Return(Return { start_offset, end_offset, ..e }),
            ExpressionEnum::Yield(e) => ExpressionEnum::Yield(Yield { start_offset, end_offset, ..e }),
            ExpressionEnum::Assign(e) => ExpressionEnum::Assign(Assign { start_offset, end_offset, ..e }),
            ExpressionEnum::Alias(e) => ExpressionEnum::Alias(Alias { start_offset, end_offset, ..e }),
            ExpressionEnum::Try(e) => ExpressionEnum::Try(Try { start_offset, end_offset, ..e }),
            ExpressionEnum::Except(e) => ExpressionEnum::Except(Except { start_offset, end_offset, ..e }),
            ExpressionEnum::Finally(e) => ExpressionEnum::Finally(Finally { start_offset, end_offset, ..e }),
            ExpressionEnum::Assert(e) => ExpressionEnum::Assert(Assert { start_offset, end_offset, ..e }),
            ExpressionEnum::Raise(e) => ExpressionEnum::Raise(Raise { start_offset, end_offset, ..e }),
            ExpressionEnum::BaseValue(e) => ExpressionEnum::BaseValue(BaseValue { start_offset, end_offset, ..e }),
            ExpressionEnum::FormatValue(e) => ExpressionEnum::FormatValue(FormatValue { start_offset, end_offset, ..e }),
            ExpressionEnum::Format(e) => ExpressionEnum::Format(Format { start_offset, end_offset, ..e }),
            ExpressionEnum::BinaryOperation(e) => ExpressionEnum::BinaryOperation(BinaryOperation { start_offset, end_offset, ..e }),
            ExpressionEnum::Subscr(e) => ExpressionEnum::Subscr(Subscr { start_offset, end_offset, ..e }),
            ExpressionEnum::UnaryOperation(e) => ExpressionEnum::UnaryOperation(UnaryOperation { start_offset, end_offset, ..e }),
            ExpressionEnum::Call(e) => ExpressionEnum::Call(Call { start_offset, end_offset, ..e }),
            ExpressionEnum::With(e) => ExpressionEnum::With(With { start_offset, end_offset, ..e }),
            ExpressionEnum::For(e) => ExpressionEnum::For(For { start_offset, end_offset, ..e }),
            ExpressionEnum::If(e) => ExpressionEnum::If(If { start_offset, end_offset, ..e }),
            ExpressionEnum::Await(e) => ExpressionEnum::Await(Await { start_offset, end_offset, ..e }),
            ExpressionEnum::Jump(e) => ExpressionEnum::Jump(Jump { start_offset, end_offset, ..e }),
            ExpressionEnum::Container(e) => ExpressionEnum::Container(Container { start_offset, end_offset, ..e }),
            ExpressionEnum::Slice(e) => ExpressionEnum::Slice(Slice { start_offset, end_offset, ..e }),
            ExpressionEnum::Attribute(e) => ExpressionEnum::Attribute(Attribute { start_offset, end_offset, ..e }),
        }
    }

    /// Sets the start and end offsets of the node; nothing else changes.
    pub fn set_offset(&mut self, start_offset: usize, end_offset: usize)
        ensures
            *final(self) == old(self).with_offset(start_offset, end_offset),
            final(self).spec_offset() == (start_offset, end_offset),
            final(self).spec_kind_of() == old(self).spec_kind_of(),
    {
        match self {
            ExpressionEnum::Import(e) => {
                e.start_offset = start_offset;
                e.end_offset = end_offset;
            },
            ExpressionEnum::Class(e) => {
                e.start_offset = start_offset;
                e.end_offset = end_offset;
            },
            ExpressionEnum::FastVariable(e) => {
                e.start_offset = start_offset;
                e.end_offset = end_offset;
            },
            ExpressionEnum::Function(e) => {
                e.start_offset = start_offset;
                e.end_offset = end_offset;
            },
            ExpressionEnum::Return(e) => {
                e.start_offset = start_offset;
                e.end_offset = end_offset;
            },
            ExpressionEnum::Yield(e) => {
                e.start_offset = start_offset;
                e.end_offset = end_offset;
            },
            ExpressionEnum::Assign(e) => {
                e.start_offset = start_offset;
                e.end_offset = end_offset;
            },
            ExpressionEnum::Alias(e) => {
                e.start_offset = start_offset;
                e.end_offset = end_offset;
            },
            ExpressionEnum::Try(e) => {
                e.start_offset = start_offset;
                e.end_offset = end_offset;
            },
            ExpressionEnum::Except(e) => {
                e.start_offset = start_offset;
                e.end_offset = end_offset;
            },
            ExpressionEnum::Finally(e) => {
                e.start_offset = start_offset;
                e.end_offset = end_offset;
            },
            ExpressionEnum::Assert(e) => {
                e.start_offset = start_offset;
                e.end_offset = end_offset;
            },
            ExpressionEnum::Raise(e) => {
                e.start_offset = start_offset;
                e.end_offset = end_offset;
            },
            ExpressionEnum::BaseValue(e) => {
                e.start_offset = start_offset;
                e.end_offset = end_offset;
            },
            ExpressionEnum::FormatValue(e) => {
                e.start_offset = start_offset;
                e.end_offset = end_offset;
            },
            ExpressionEnum::Format(e) => {
                e.start_offset = start_offset;
                e.end_offset = end_offset;
            },
            ExpressionEnum::BinaryOperation(e) => {
                e.start_offset = start_offset;
                e.end_offset = end_offset;
            },
            ExpressionEnum::Subscr(e) => {
                e.start_offset = start_offset;
                e.end_offset = end_offset;
            },
            ExpressionEnum::UnaryOperation(e) => {
                e.start_offset = start_offset;
                e.end_offset = end_offset;
            },
            ExpressionEnum::Call(e) => {
                e.start_offset = start_offset;
                e.end_offset = end_offset;
            },
            ExpressionEnum::With(e) => {
                e.start_offset = start_offset;
                e.end_offset = end_offset;
            },
            ExpressionEnum::For(e) => {
                e.start_offset = start_offset;
                e.end_offset = end_offset;
            },
            ExpressionEnum::If(e) => {
                e.start_offset = start_offset;
                e.end_offset = end_offset;
            },
            ExpressionEnum::Await(e) => {
                e.start_offset = start_offset;
                e.end_offset = end_offset;
            },
            ExpressionEnum::Jump(e) => {
                e.start_offset = start_offset;
                e.end_offset = end_offset;
            },
            ExpressionEnum::Container(e) => {
                e.start_offset = start_offset;
                e.end_offset = end_offset;
            },
            ExpressionEnum::Slice(e) => {
                e.start_offset = start_offset;
                e.end_offset = end_offset;
            },
            ExpressionEnum::Attribute(e) => {
                e.start_offset = start_offset;
                e.end_offset = end_offset;
            },
        }
    }

    /// The inner [`Import`]; the node must be one.
    pub fn unwrap_import(self) -> (r: Import)
        requires
            self is Import,
        ensures
            self == ExpressionEnum::Import(r),
    {
        match self {
            ExpressionEnum::Import(e) => e,
            _ => vstd::pervasive::unreached(),
        }
    }

    /// The inner [`Class`]; the node must be one.
    pub fn unwrap_class(self) -> (r: Class)
        requires
            self is Class,
        ensures
            self == ExpressionEnum::Class(r),
    {
        match self {
            ExpressionEnum::Class(e) => e,
            _ => vstd::pervasive::unreached(),
        }
    }

    /// The inner [`FastVariable`]; the node must be one.
    pub fn unwrap_fast_variable(self) -> (r: FastVariable)
        requires
            self is FastVariable,
        ensures
            self == ExpressionEnum::FastVariable(r),
    {
        match self {
            ExpressionEnum::FastVariable(e) => e,
            _ => vstd::pervasive::unreached(),
        }
    }

    /// The inner [`Function`]; the node must be one.
    pub fn unwrap_function(self) -> (r: Function)
        requires
            self is Function,
        ensures
            self == ExpressionEnum::Function(r),
    {
        match self {
            ExpressionEnum::Function(e) => e,
            _ => vstd::pervasive::unreached(),
        }
    }

    /// The inner [`Return`]; the node must be one.
    pub fn unwrap_return(self) -> (r: Return)
        requires
            self is Return,
        ensures
            self == ExpressionEnum::Return(r),
    {
        match self {
            ExpressionEnum::Return(e) => e,
            _ => vstd::pervasive::unreached(),
        }
    }

    /// The inner [`Yield`]; the node must be one.
    pub fn unwrap_yield(self) -> (r: Yield)
        requires
            self is Yield,
        ensures
            self == ExpressionEnum::Yield(r),
    {
        match self {
            ExpressionEnum::Yield(e) => e,
            _ => vstd::pervasive::unreached(),
        }
    }

    /// The inner [`Assign`]; the node must be one.
    pub fn unwrap_assign(self) -> (r: Assign)
        requires
            self is Assign,
        ensures
            self == ExpressionEnum::Assign(r),
    {
        match self {
            ExpressionEnum::Assign(e) => e,
            _ => vstd::pervasive::unreached(),
        }
    }

    /// The inner [`Alias`]; the node must be one.
    pub fn unwrap_alias(self) -> (r: Alias)
        requires
            self is Alias,
        ensures
            self == ExpressionEnum::Alias(r),
    {
        match self {
            ExpressionEnum::Alias(e) => e,
            _ => vstd::pervasive::unreached(),
        }
    }

    /// The inner [`Try`]; the node must be one.
    pub fn unwrap_try(self) -> (r: Try)
        requires
            self is Try,
        ensures
            self == ExpressionEnum::Try(r),
    {
        match self {
            ExpressionEnum::Try(e) => e,
            _ => vstd::pervasive::unreached(),
        }
    }

    /// The inner [`Except`]; the node must be one.
    pub fn unwrap_except(self) -> (r: Except)
        requires
            self is Except,
        ensures
            self == ExpressionEnum::Except(r),
    {
        match self {
            ExpressionEnum::Except(e) => e,
            _ => vstd::pervasive::unreached(),
        }
    }

    /// The inner [`Finally`]; the node must be one.
    pub fn unwrap_finally(self) -> (r: Finally)
        requires
            self is Finally,
        ensures
            self == ExpressionEnum::Finally(r),
    {
        match self {
            ExpressionEnum::Finally(e) => e,
            _ => vstd::pervasive::unreached(),
        }
    }

    /// The inner [`Assert`]; the node must be one.
    pub fn unwrap_assert(self) -> (r: Assert)
        requires
            self is Assert,
        ensures
            self == ExpressionEnum::Assert(r),
    {
        match self {
            ExpressionEnum::Assert(e) => e,
            _ => vstd::pervasive::unreached(),
        }
    }

    /// The inner [`Raise`]; the node must be one.
    pub fn unwrap_raise(self) -> (r: Raise)
        requires
            self is Raise,
        ensures
            self == ExpressionEnum::Raise(r),
    {
        match self {
            ExpressionEnum::Raise(e) => e,
            _ => vstd::pervasive::unreached(),
        }
    }

    /// The inner [`BaseValue`]; the node must be one.
    pub fn unwrap_base_value(self) -> (r: BaseValue)
        requires
            self is BaseValue,
        ensures
            self == ExpressionEnum::BaseValue(r),
    {
        match self {
            ExpressionEnum::BaseValue(e) => e,
            _ => vstd::pervasive::unreached(),
        }
    }

    /// The inner [`FormatValue`]; the node must be one.
    pub fn unwrap_format_value(self) -> (r: FormatValue)
        requires
            self is FormatValue,
        ensures
            self == ExpressionEnum::FormatValue(r),
    {
        match self {
            ExpressionEnum::FormatValue(e) => e,
            _ => vstd::pervasive::unreached(),
        }
    }

    /// The inner [`Format`]; the node must be one.
    pub fn unwrap_format(self) -> (r: Format)
        requires
            self is Format,
        ensures
            self == ExpressionEnum::Format(r),
    {
        match self {
            ExpressionEnum::Format(e) => e,
            _ => vstd::pervasive::unreached(),
        }
    }

    /// The inner [`BinaryOperation`]; the node must be one.
    pub fn unwrap_binary_operation(self) -> (r: BinaryOperation)
        requires
            self is BinaryOperation,
        ensures
            self == ExpressionEnum::BinaryOperation(r),
    {
        match self {
            ExpressionEnum::BinaryOperation(e) => e,
            _ => vstd::pervasive::unreached(),
        }
    }

    /// The inner [`Subscr`]; the node must be one.
    pub fn unwrap_subscr(self) -> (r: Subscr)
        requires
            self is Subscr,
        ensures
            self == ExpressionEnum::Subscr(r),
    {
        match self {
            ExpressionEnum::Subscr(e) => e,
            _ => vstd::pervasive::unreached(),
        }
    }

    /// The inner [`UnaryOperation`]; the node must be one.
    pub fn unwrap_unary_operation(self) -> (r: UnaryOperation)
        requires
            self is UnaryOperation,
        ensures
            self == ExpressionEnum::UnaryOperation(r),
    {
        match self {
            ExpressionEnum::UnaryOperation(e) => e,
            _ => vstd::pervasive::unreached(),
        }
    }

    /// The inner [`Call`]; the node must be one.
    pub fn unwrap_call(self) -> (r: Call)
        requires
            self is Call,
        ensures
            self == ExpressionEnum::Call(r),
    {
        match self {
            ExpressionEnum::Call(e) => e,
            _ => vstd::pervasive::unreached(),
        }
    }

    /// The inner [`With`]; the node must be one.
    pub fn unwrap_with(self) -> (r: With)
        requires
            self is With,
        ensures
            self == ExpressionEnum::With(r),
    {
        match self {
            ExpressionEnum::With(e) => e,
            _ => vstd::pervasive::unreached(),
        }
    }

    /// The inner [`For`]; the node must be one.
    pub fn unwrap_for(self) -> (r: For)
        requires
            self is For,
        ensures
            self == ExpressionEnum::For(r),
    {
        match self {
            ExpressionEnum::For(e) => e,
            _ => vstd::pervasive::unreached(),
        }
    }

    /// The inner [`If`]; the node must be one.
    pub fn unwrap_if(self) -> (r: If)
        requires
            self is If,
        ensures
            self == ExpressionEnum::If(r),
    {
        match self {
            ExpressionEnum::If(e) => e,
            _ => vstd::pervasive::unreached(),
        }
    }

    /// The inner [`Await`]; the node must be one.
    pub fn unwrap_await(self) -> (r: Await)
        requires
            self is Await,
        ensures
            self == ExpressionEnum::Await(r),
    {
        match self {
            ExpressionEnum::Await(e) => e,
            _ => vstd::pervasive::unreached(),
        }
    }

    /// The inner [`Jump`]; the node must be one.
    pub fn unwrap_jump(self) -> (r: Jump)
        requires
            self is Jump,
        ensures
            self == ExpressionEnum::Jump(r),
    {
        match self {
            ExpressionEnum::Jump(e) => e,
            _ => vstd::pervasive::unreached(),
        }
    }

    /// The inner [`Container`]; the node must be one.
    pub fn unwrap_container(self) -> (r: Container)
        requires
            self is Container,
        ensures
            self == ExpressionEnum::Container(r),
    {
        match self {
            ExpressionEnum::Container(e) => e,
            _ => vstd::pervasive::unreached(),
        }
    }

    /// The inner [`Slice`]; the node must be one.
    pub fn unwrap_slice(self) -> (r: Slice)
        requires
            self is Slice,
        ensures
            self == ExpressionEnum::Slice(r),
    {
        match self {
            ExpressionEnum::Slice(e) => e,
            _ => vstd::pervasive::unreached(),
        }
    }

    /// The inner [`Attribute`]; the node must be one.
    pub fn unwrap_attribute(self) -> (r: Attribute)
        requires
            self is Attribute,
        ensures
            self == ExpressionEnum::Attribute(r),
    {
        match self {
            ExpressionEnum::Attribute(e) => e,
            _ => vstd::pervasive::unreached(),
        }
    }
}

impl From<Import> for ExpressionEnum {
    fn from(inner: Import) -> (r: ExpressionEnum) {
        ExpressionEnum::Import(inner)
    }
}

impl vstd::std_specs::convert::FromSpecImpl<Import> for ExpressionEnum {
    open spec fn obeys_from_spec() -> bool {
        true
    }

    open spec fn from_spec(inner: Import) -> ExpressionEnum {
        ExpressionEnum::Import(inner)
    }
}

impl From<Class> for ExpressionEnum {
    fn from(inner: Class) -> (r: ExpressionEnum) {
        ExpressionEnum::Class(inner)
    }
}

impl vstd::std_specs::convert::FromSpecImpl<Class> for ExpressionEnum {
    open spec fn obeys_from_spec() -> bool {
        true
    }

    open spec fn from_spec(inner: Class) -> ExpressionEnum {
        ExpressionEnum::Class(inner)
    }
}

impl From<FastVariable> for ExpressionEnum {
    fn from(inner: FastVariable) -> (r: ExpressionEnum) {
        ExpressionEnum::FastVariable(inner)
    }
}

impl vstd::std_specs::convert::FromSpecImpl<FastVariable> for ExpressionEnum {
    open spec fn obeys_from_spec() -> bool {
        true
    }

    open spec fn from_spec(inner: FastVariable) -> ExpressionEnum {
        ExpressionEnum::FastVariable(inner)
    }
}

impl From<Function> for ExpressionEnum {
    fn from(inner: Function) -> (r: ExpressionEnum) {
        ExpressionEnum::Function(inner)
    }
}

impl vstd::std_specs::convert::FromSpecImpl<Function> for ExpressionEnum {
    open spec fn obeys_from_spec() -> bool {
        true
    }

    open spec fn from_spec(inner: Function) -> ExpressionEnum {
        ExpressionEnum::Function(inner)
    }
}

impl From<Return> for ExpressionEnum {
    fn from(inner: Return) -> (r: ExpressionEnum) {
        ExpressionEnum::Return(inner)
    }
}

impl vstd::std_specs::convert::FromSpecImpl<Return> for ExpressionEnum {
    open spec fn obeys_from_spec() -> bool {
        true
    }

    open spec fn from_spec(inner: Return) -> ExpressionEnum {
        ExpressionEnum::Return(inner)
    }
}

impl From<Yield> for ExpressionEnum {
    fn from(inner: Yield) -> (r: ExpressionEnum) {
        ExpressionEnum::Yield(inner)
    }
}

impl vstd::std_specs::convert::FromSpecImpl<Yield> for ExpressionEnum {
    open spec fn obeys_from_spec() -> bool {
        true
    }

    open spec fn from_spec(inner: Yield) -> ExpressionEnum {
        ExpressionEnum::Yield(inner)
    }
}

impl From<Assign> for ExpressionEnum {
    fn from(inner: Assign) -> (r: ExpressionEnum) {
        ExpressionEnum::Assign(inner)
    }
}

impl vstd::std_specs::convert::FromSpecImpl<Assign> for ExpressionEnum {
    open spec fn obeys_from_spec() -> bool {
        true
    }

    open spec fn from_spec(inner: Assign) -> ExpressionEnum {
        ExpressionEnum::Assign(inner)
    }
}

impl From<Alias> for ExpressionEnum {
    fn from(inner: Alias) -> (r: ExpressionEnum) {
        ExpressionEnum::Alias(inner)
    }
}

impl vstd::std_specs::convert::FromSpecImpl<Alias> for ExpressionEnum {
    open spec fn obeys_from_spec() -> bool {
        true
    }

    open spec fn from_spec(inner: Alias) -> ExpressionEnum {
        ExpressionEnum::Alias(inner)
    }
}

impl From<Try> for ExpressionEnum {
    fn from(inner: Try) -> (r: ExpressionEnum) {
        ExpressionEnum::Try(inner)
    }
}

impl vstd::std_specs::convert::FromSpecImpl<Try> for ExpressionEnum {
    open spec fn obeys_from_spec() -> bool {
        true
    }

    open spec fn from_spec(inner: Try) -> ExpressionEnum {
        ExpressionEnum::Try(inner)
    }
}

impl From<Except> for ExpressionEnum {
    fn from(inner: Except) -> (r: ExpressionEnum) {
        ExpressionEnum::Except(inner)
    }
}

impl vstd::std_specs::convert::FromSpecImpl<Except> for ExpressionEnum {
    open spec fn obeys_from_spec() -> bool {
        true
    }

    open spec fn from_spec(inner: Except) -> ExpressionEnum {
        ExpressionEnum::Except(inner)
    }
}

impl From<Finally> for ExpressionEnum {
    fn from(inner: Finally) -> (r: ExpressionEnum) {
        ExpressionEnum::Finally(inner)
    }
}

impl vstd::std_specs::convert::FromSpecImpl<Finally> for ExpressionEnum {
    open spec fn obeys_from_spec() -> bool {
        true
    }

    open spec fn from_spec(inner: Finally) -> ExpressionEnum {
        ExpressionEnum::Finally(inner)
    }
}

impl From<Assert> for ExpressionEnum {
    fn from(inner: Assert) -> (r: ExpressionEnum) {
        ExpressionEnum::Assert(inner)
    }
}

impl vstd::std_specs::convert::FromSpecImpl<Assert> for ExpressionEnum {
    open spec fn obeys_from_spec() -> bool {
        true
    }

    open spec fn from_spec(inner: Assert) -> ExpressionEnum {
        ExpressionEnum::Assert(inner)
    }
}

impl From<Raise> for ExpressionEnum {
    fn from(inner: Raise) -> (r: ExpressionEnum) {
        ExpressionEnum::Raise(inner)
    }
}

impl vstd::std_specs::convert::FromSpecImpl<Raise> for ExpressionEnum {
    open spec fn obeys_from_spec() -> bool {
        true
    }

    open spec fn from_spec(inner: Raise) -> ExpressionEnum {
        ExpressionEnum::Raise(inner)
    }
}

impl From<BaseValue> for ExpressionEnum {
    fn from(inner: BaseValue) -> (r: ExpressionEnum) {
        ExpressionEnum::BaseValue(inner)
    }
}

impl vstd::std_specs::convert::FromSpecImpl<BaseValue> for ExpressionEnum {
    open spec fn obeys_from_spec() -> bool {
        true
    }

    open spec fn from_spec(inner: BaseValue) -> ExpressionEnum {
        ExpressionEnum::BaseValue(inner)
    }
}

impl From<FormatValue> for ExpressionEnum {
    fn from(inner: FormatValue) -> (r: ExpressionEnum) {
        ExpressionEnum::FormatValue(inner)
    }
}

impl vstd::std_specs::convert::FromSpecImpl<FormatValue> for ExpressionEnum {
    open spec fn obeys_from_spec() -> bool {
        true
    }

    open spec fn from_spec(inner: FormatValue) -> ExpressionEnum {
        ExpressionEnum::FormatValue(inner)
    }
}

impl From<Format> for ExpressionEnum {
    fn from(inner: Format) -> (r: ExpressionEnum) {
        ExpressionEnum::Format(inner)
    }
}

impl vstd::std_specs::convert::FromSpecImpl<Format> for ExpressionEnum {
    open spec fn obeys_from_spec() -> bool {
        true
    }

    open spec fn from_spec(inner: Format) -> ExpressionEnum {
        ExpressionEnum::Format(inner)
    }
}

impl From<BinaryOperation> for ExpressionEnum {
    fn from(inner: BinaryOperation) -> (r: ExpressionEnum) {
        ExpressionEnum::BinaryOperation(inner)
    }
}

impl vstd::std_specs::convert::FromSpecImpl<BinaryOperation> for ExpressionEnum {
    open spec fn obeys_from_spec() -> bool {
        true
    }

    open spec fn from_spec(inner: BinaryOperation) -> ExpressionEnum {
        ExpressionEnum::BinaryOperation(inner)
    }
}

impl From<Subscr> for ExpressionEnum {
    fn from(inner: Subscr) -> (r: ExpressionEnum) {
        ExpressionEnum::Subscr(inner)
    }
}

impl vstd::std_specs::convert::FromSpecImpl<Subscr> for ExpressionEnum {
    open spec fn obeys_from_spec() -> bool {
        true
    }

    open spec fn from_spec(inner: Subscr) -> ExpressionEnum {
        ExpressionEnum::Subscr(inner)
    }
}

impl From<UnaryOperation> for ExpressionEnum {
    fn from(inner: UnaryOperation) -> (r: ExpressionEnum) {
        ExpressionEnum::UnaryOperation(inner)
    }
}

impl vstd::std_specs::convert::FromSpecImpl<UnaryOperation> for ExpressionEnum {
    open spec fn obeys_from_spec() -> bool {
        true
    }

    open spec fn from_spec(inner: UnaryOperation) -> ExpressionEnum {
        ExpressionEnum::UnaryOperation(inner)
    }
}

impl From<Call> for ExpressionEnum {
    fn from(inner: Call) -> (r: ExpressionEnum) {
        ExpressionEnum::Call(inner)
    }
}

impl vstd::std_specs::convert::FromSpecImpl<Call> for ExpressionEnum {
    open spec fn obeys_from_spec() -> bool {
        true
    }

    open spec fn from_spec(inner: Call) -> ExpressionEnum {
        ExpressionEnum::Call(inner)
    }
}

impl From<With> for ExpressionEnum {
    fn from(inner: With) -> (r: ExpressionEnum) {
        ExpressionEnum::With(inner)
    }
}

impl vstd::std_specs::convert::FromSpecImpl<With> for ExpressionEnum {
    open spec fn obeys_from_spec() -> bool {
        true
    }

    open spec fn from_spec(inner: With) -> ExpressionEnum {
        ExpressionEnum::With(inner)
    }
}

impl From<For> for ExpressionEnum {
    fn from(inner: For) -> (r: ExpressionEnum) {
        ExpressionEnum::For(inner)
    }
}

impl vstd::std_specs::convert::FromSpecImpl<For> for ExpressionEnum {
    open spec fn obeys_from_spec() -> bool {
        true
    }

    open spec fn from_spec(inner: For) -> ExpressionEnum {
        ExpressionEnum::For(inner)
    }
}

impl From<If> for ExpressionEnum {
    fn from(inner: If) -> (r: ExpressionEnum) {
        ExpressionEnum::If(inner)
    }
}

impl vstd::std_specs::convert::FromSpecImpl<If> for ExpressionEnum {
    open spec fn obeys_from_spec() -> bool {
        true
    }

    open spec fn from_spec(inner: If) -> ExpressionEnum {
        ExpressionEnum::If(inner)
    }
}

impl From<Await> for ExpressionEnum {
    fn from(inner: Await) -> (r: ExpressionEnum) {
        ExpressionEnum::Await(inner)
    }
}

impl vstd::std_specs::convert::FromSpecImpl<Await> for ExpressionEnum {
    open spec fn obeys_from_spec() -> bool {
        true
    }

    open spec fn from_spec(inner: Await) -> ExpressionEnum {
        ExpressionEnum::Await(inner)
    }
}

impl From<Jump> for ExpressionEnum {
    fn from(inner: Jump) -> (r: ExpressionEnum) {
        ExpressionEnum::Jump(inner)
    }
}

impl vstd::std_specs::convert::FromSpecImpl<Jump> for ExpressionEnum {
    open spec fn obeys_from_spec() -> bool {
        true
    }

    open spec fn from_spec(inner: Jump) -> ExpressionEnum {
        ExpressionEnum::Jump(inner)
    }
}

impl From<Container> for ExpressionEnum {
    fn from(inner: Container) -> (r: ExpressionEnum) {
        ExpressionEnum::Container(inner)
    }
}

impl vstd::std_specs::convert::FromSpecImpl<Container> for ExpressionEnum {
    open spec fn obeys_from_spec() -> bool {
        true
    }

    open spec fn from_spec(inner: Container) -> ExpressionEnum {
        ExpressionEnum::Container(inner)
    }
}

impl From<Slice> for ExpressionEnum {
    fn from(inner: Slice) -> (r: ExpressionEnum) {
        ExpressionEnum::Slice(inner)
    }
}

impl vstd::std_specs::convert::FromSpecImpl<Slice> for ExpressionEnum {
    open spec fn obeys_from_spec() -> bool {
        true
    }

    open spec fn from_spec(inner: Slice) -> ExpressionEnum {
        ExpressionEnum::Slice(inner)
    }
}

impl From<Attribute> for ExpressionEnum {
    fn from(inner: Attribute) -> (r: ExpressionEnum) {
        ExpressionEnum::Attribute(inner)
    }
}

impl vstd::std_specs::convert::FromSpecImpl<Attribute> for ExpressionEnum {
    open spec fn obeys_from_spec() -> bool {
        true
    }

    open spec fn from_spec(inner: Attribute) -> ExpressionEnum {
        ExpressionEnum::Attribute(inner)
    }
}

impl Class {
    /// An empty class named by the code-object mark `object_mark`.
    pub fn new(object_mark: &str) -> (r: Result<Class, MarkError>)
        ensures
            match code_mark(object_mark@) {
                None => r matches Err(MarkError::Invalid(m)) && m@ == object_mark@,
                Some((name, line)) => match parse_usize_spec(line) {
                    Some(n) => r matches Ok(c) && c.mark@ == object_mark@ && c.name@ == name
                        && c.members@ == Seq::<QueryId>::empty() && c.start_line == n && c.start_offset == 0
                        && c.end_offset == 0,
                    None => r matches Err(MarkError::BadLine(l)) && l@ == line,
                },
            },
    {
        let (name, start_line) = parse_code_mark(object_mark)?;
        Ok(Class {
            mark: String::from_str(object_mark),
            name,
            members: Vec::new(),
            start_line,
            start_offset: 0,
            end_offset: 0,
        })
    }
}

impl Function {
    /// A function with no parameters and an empty body, named by the
    /// code-object mark `object_mark`.
    pub fn new(object_mark: &str) -> (r: Result<Function, MarkError>)
        ensures
            match code_mark(object_mark@) {
                None => r matches Err(MarkError::Invalid(m)) && m@ == object_mark@,
                Some((name, line)) => match parse_usize_spec(line) {
                    Some(n) => r matches Ok(f) && f.mark@ == object_mark@ && f.name@ == name
                        && f.args@ == Seq::<QueryId>::empty() && f.ret is None
                        && f.bodys@ == Seq::<QueryId>::empty() && f.defaults@ == Seq::<String>::empty() && !f.is_async && f.start_line == n
                        && f.end_line == n && f.start_offset == 0 && f.end_offset == 0,
                    None => r matches Err(MarkError::BadLine(l)) && l@ == line,
                },
            },
    {
        let (name, start_line) = parse_code_mark(object_mark)?;
        Ok(Function {
            mark: String::from_str(object_mark),
            name,
            args: Vec::new(),
            ret: None,
            bodys: Vec::new(),
            defaults: Vec::new(),
            is_async: false,
            start_line,
            end_line: start_line,
            start_offset: 0,
            end_offset: 0,
        })
    }
}

} // verus!
