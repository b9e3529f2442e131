//! The node types of the Python abstract syntax tree.

use vstd::prelude::*;

pub mod expr;
pub mod expr_types;
pub mod seqs;
pub mod stmt;
pub mod pattern;
pub mod type_param;
pub mod module;

pub use expr::{
    Attribute, Await, BinOp, BoolOp, Call, Compare, Constant, Dict, DictComp, Expr, ExprType,
    FormattedValue, GeneratorExp, IfExp, JoinedStr, Lambda, List, ListComp, Name, NamedExpr,
    SetDisplay, SetComp, Slice, Starred, Subscript, Tuple, UnaryOp, Yield, YieldFrom,
};
pub use module::{Expression, FunctionType, Interactive, Mod, ModType, Module};
pub use seqs::{
    AliasSeq, ArgSeq, ArgumentsSeq, ComprehensionSeq, ExceptHandlerSeq, ExprSeq, IdentSeq, IntSeq,
    KeywordSeq, MatchCaseSeq, ModSeq, PatternSeq, StmtSeq, TypeIgnoreSeq, TypeParamSeq,
    WithItemSeq,
};
pub use stmt::{
    AnnAssign, Assert, Assign, AsyncFor, AsyncFunctionDef, AsyncWith, AugAssign, Break, ClassDef,
    Continue, Delete, For, FunctionDef, Global, If, Import, ImportFrom, Match, Nonlocal, Pass,
    Raise, Return, Stmt, StmtType, Try, TryStar, TypeAlias, While, With,
};

verus! {

/// A node of the tree.
pub trait AstNode {}

/// An identifier.
pub struct Ident {
    pub id: String,
}

/// Any node, or a list of nodes.
pub enum Node {
    Expr(expr::Expr),
    Stmt(stmt::Stmt),
    Mod(module::Mod),
    Nodes(Vec<Node>),
}

} // verus!
