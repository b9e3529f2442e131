//! Python expression.
use vstd::prelude::*;
use super::expr_types::{Arguments, BinOpType, BoolOpType, Const, ExprContextType, UnaryOpType};
use super::seqs::{ComprehensionSeq, ExprSeq, IntSeq, KeywordSeq};
use super::{AstNode, Ident};


verus! {

/// The `Expr` node.
pub struct Expr {
    pub value: ExprType,
    pub lineno: usize,
    pub col_offset: usize,
    pub end_lineno: usize,
    pub end_col_offset: usize,
}

impl AstNode for Expr {}

/// The `ExprType` node.
pub enum ExprType {
    BoolOp(BoolOp),
    NamedExpr(NamedExpr),
    BinOp(BinOp),
    UnaryOp(UnaryOp),
    Lambda(Lambda),
    IfExp(IfExp),
    Dict(Dict),
    SetDisplay(SetDisplay),
    ListComp(ListComp),
    SetComp(SetComp),
    DictComp(DictComp),
    GeneratorExp(GeneratorExp),
    Await(Await),
    Yield(Yield),
    YieldFrom(YieldFrom),
    Compare(Compare),
    Call(Call),
    FormattedValue(FormattedValue),
    JoinedStr(JoinedStr),
    Constant(Constant),
    Attribute(Attribute),
    Subscript(Subscript),
    Starred(Starred),
    Name(Name),
    List(List),
    Tuple(Tuple),
    Slice(Slice),
}

/// The `BoolOp` node.
pub struct BoolOp {
    pub op: BoolOpType,
    pub values: Vec<ExprSeq>,
}

/// The `NamedExpr` node.
pub struct NamedExpr {
    pub target: Box<ExprType>,
    pub value: Box<ExprType>,
}

/// The `BinOp` node.
pub struct BinOp {
    pub left: Box<ExprType>,
    pub op: BinOpType,
    pub right: Box<ExprType>,
}

/// The `UnaryOp` node.
pub struct UnaryOp {
    pub op: UnaryOpType,
    pub operand: Box<ExprType>,
}

/// The `Lambda` node.
pub struct Lambda {
    pub args: Vec<Arguments>,
    pub body: Box<ExprType>,
}

/// The `IfExp` node.
pub struct IfExp {
    pub test: Box<ExprType>,
    pub body: Box<ExprType>,
    pub or_else: Box<ExprType>,
}

/// The `Dict` node.
pub struct Dict {
    pub keys: Vec<ExprSeq>,
    pub values: Vec<ExprSeq>,
}

/// The `SetDisplay` node.
pub struct SetDisplay {
    pub elts: Vec<ExprSeq>,
}

/// The `ListComp` node.
pub struct ListComp {
    pub elt: Box<ExprType>,
    pub generators: Vec<ComprehensionSeq>,
}

/// The `SetComp` node.
pub struct SetComp {
    pub elt: Box<ExprType>,
    pub generators: Vec<ComprehensionSeq>,
}

/// The `DictComp` node.
pub struct DictComp {
    pub key: Box<ExprType>,
    pub value: Box<ExprType>,
    pub generators: Vec<ComprehensionSeq>,
}

/// The `GeneratorExp` node.
pub struct GeneratorExp {
    pub elt: Box<ExprType>,
    pub generators: Vec<ComprehensionSeq>,
}

/// The `Await` node.
pub struct Await {
    pub value: Box<ExprType>,
}

/// The `Yield` node.
pub struct Yield {
    pub value: Option<Box<ExprType>>,
}

/// The `YieldFrom` node.
pub struct YieldFrom {
    pub value: Box<ExprType>,
}

/// The `Compare` node.
pub struct Compare {
    pub left: Box<ExprType>,
    pub ops: Vec<IntSeq>,
    pub comparators: Vec<ExprSeq>,
}

/// The `Call` node.
pub struct Call {
    pub func: Box<ExprType>,
    pub args: Vec<ExprSeq>,
    pub keywords: Vec<KeywordSeq>,
}

/// The `FormattedValue` node.
pub struct FormattedValue {
    pub value: Box<ExprType>,
    pub conversion: usize,
    pub format_spec: Option<Box<ExprType>>,
}

/// The `JoinedStr` node.
pub struct JoinedStr {
    pub values: Vec<ExprSeq>,
}

/// The `Constant` node.
pub struct Constant {
    pub value: Const,
    pub kind: String,
}

/// The `Attribute` node.
pub struct Attribute {
    pub value: Box<ExprType>,
    pub attr: Ident,
    pub ctx: ExprContextType,
}

/// The `Subscript` node.
pub struct Subscript {
    pub value: Box<ExprType>,
    pub slice: Box<ExprType>,
    pub ctx: ExprContextType,
}

/// The `Starred` node.
pub struct Starred {
    pub value: Box<ExprType>,
    pub ctx: ExprContextType,
}

/// The `Name` node.
pub struct Name {
    pub id: Ident,
    pub ctx: ExprContextType,
}

/// The `List` node.
pub struct List {
    pub elts: Vec<ExprSeq>,
    pub ctx: ExprContextType,
}

/// The `Tuple` node.
pub struct Tuple {
    pub elts: Vec<ExprSeq>,
    pub ctx: ExprContextType,
}

/// The `Slice` node.
pub struct Slice {
    pub lower: Option<Box<ExprType>>,
    pub upper: Option<Box<ExprType>>,
    pub step: Option<Box<ExprType>>,
}

} // verus!
