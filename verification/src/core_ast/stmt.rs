//! Python statements.
use vstd::prelude::*;
use super::{
    expr::Expr,
    expr_types::{Arguments, BinOpType},
    seqs::{
        AliasSeq, ExceptHandlerSeq, ExprSeq, IdentSeq, KeywordSeq, MatchCaseSeq, StmtSeq,
        TypeParamSeq, WithItemSeq,
    },
    AstNode, Ident,
};


verus! {

/// The `Stmt` node.
pub struct Stmt {
    pub value: StmtType,
    pub lineno: usize,
    pub col_offset: usize,
    pub end_lineno: usize,
    pub end_col_offset: usize,
}

impl AstNode for Stmt {}

/// The `StmtType` node.
pub enum StmtType {
    FunctionDef(FunctionDef),
    AsyncFunctionDef(AsyncFunctionDef),
    ClassDef(ClassDef),
    Return(Return),
    Delete(Delete),
    Assign(Assign),
    TypeAlias(TypeAlias),
    AugAssign(AugAssign),
    AnnAssign(AnnAssign),
    For(For),
    AsyncFor(AsyncFor),
    While(While),
    If(If),
    With(With),
    AsyncWith(AsyncWith),
    Match(Match),
    Raise(Raise),
    Try(Try),
    TryStar(TryStar),
    Assert(Assert),
    Import(Import),
    ImportFrom(ImportFrom),
    Global(Global),
    Nonlocal(Nonlocal),
    Expr(Expr),
    Pass(Pass),
    Break(Break),
    Continue(Continue),
}

/// The `FunctionDef` node.
pub struct FunctionDef {
    pub name: Ident,
    pub args: Arguments,
    pub body: Vec<StmtSeq>,
    pub decorator_list: Vec<ExprSeq>,
    pub returns: Expr,
    pub type_comment: String,
    pub type_params: Vec<TypeParamSeq>,
}

/// The `AsyncFunctionDef` node.
pub struct AsyncFunctionDef {
    pub name: Ident,
    pub args: Arguments,
    pub body: Vec<StmtSeq>,
    pub decorator_list: Vec<ExprSeq>,
    pub returns: Expr,
    pub type_comment: String,
    pub type_params: Vec<TypeParamSeq>,
}

/// The `ClassDef` node.
pub struct ClassDef {
    pub name: Ident,
    pub bases: Vec<ExprSeq>,
    pub keywords: Vec<KeywordSeq>,
    pub body: Vec<StmtSeq>,
    pub decorator_list: Vec<ExprSeq>,
    pub type_params: Vec<TypeParamSeq>,
}

/// The `Return` node.
pub struct Return {
    pub value: Expr,
}

/// The `Delete` node.
pub struct Delete {
    pub targets: Vec<ExprSeq>,
}

/// The `Assign` node.
pub struct Assign {
    pub targets: Vec<ExprSeq>,
    pub value: Expr,
    pub type_comment: String,
}

/// The `TypeAlias` node.
pub struct TypeAlias {
    pub name: Expr,
    pub type_params: Vec<TypeParamSeq>,
    pub value: Expr,
}

/// The `AugAssign` node.
pub struct AugAssign {
    pub target: Expr,
    pub op: BinOpType,
    pub value: Expr,
}

/// The `AnnAssign` node.
pub struct AnnAssign {
    pub target: Expr,
    pub annotation: Expr,
    pub value: Expr,
    pub simple: usize,
}

/// The `For` node.
pub struct For {
    pub target: Expr,
    pub iter: Expr,
    pub body: Vec<StmtSeq>,
    pub or_else: Vec<StmtSeq>,
    pub type_comment: String,
}

/// The `AsyncFor` node.
pub struct AsyncFor {
    pub target: Expr,
    pub iter: Expr,
    pub body: Vec<StmtSeq>,
    pub or_else: Vec<StmtSeq>,
    pub type_comment: String,
}

/// The `While` node.
pub struct While {
    pub test: Expr,
    pub body: Vec<StmtSeq>,
    pub or_else: Vec<StmtSeq>,
}

/// The `If` node.
pub struct If {
    pub test: Expr,
    pub body: Vec<StmtSeq>,
    pub or_else: Vec<StmtSeq>,
}

/// The `With` node.
pub struct With {
    pub items: Vec<WithItemSeq>,
    pub body: Vec<StmtSeq>,
    pub type_comment: String,
}

/// The `AsyncWith` node.
pub struct AsyncWith {
    pub items: Vec<WithItemSeq>,
    pub body: Vec<StmtSeq>,
    pub type_comment: String,
}

/// The `Match` node.
pub struct Match {
    pub subject: Expr,
    pub cases: Vec<MatchCaseSeq>,
}

/// The `Raise` node.
pub struct Raise {
    pub except: Expr,
    pub cause: Expr,
}

/// The `Try` node.
pub struct Try {
    pub body: Vec<StmtSeq>,
    pub handlers: Vec<ExceptHandlerSeq>,
    pub or_else: Vec<StmtSeq>,
    pub final_body: Vec<StmtSeq>,
}

/// The `TryStar` node.
pub struct TryStar {
    pub body: Vec<StmtSeq>,
    pub handlers: Vec<ExceptHandlerSeq>,
    pub or_else: Vec<StmtSeq>,
    pub final_body: Vec<StmtSeq>,
}

/// The `Assert` node.
pub struct Assert {
    pub test: Expr,
    pub msg: Expr,
}

/// The `Import` node.
pub struct Import {
    pub names: Vec<AliasSeq>,
}

/// The `ImportFrom` node.
pub struct ImportFrom {
    pub module: Ident,
    pub names: Vec<AliasSeq>,
    pub level: usize,
}

/// The `Global` node.
pub struct Global {
    pub names: Vec<IdentSeq>,
}

/// The `Nonlocal` node.
pub struct Nonlocal {
    pub names: Vec<IdentSeq>,
}

// deprecated
// use expr::Expr instead
/* pub struct Expr {
    pub value: expr::Expr,
} */

/// The `Pass` node.
pub struct Pass {}

/// The `Break` node.
pub struct Break {}

/// The `Continue` node.
pub struct Continue {}

} // verus!
