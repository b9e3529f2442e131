//! Sequence nodes of the Python AST.
use vstd::prelude::*;
use super::{
    expr::Expr, expr_types::{
        Alias, Arg, Arguments, Comprehension, ExceptHandler, Keyword, MatchCase, TypeIgnore,
        WithItem,
    }, module::Mod, pattern::Pattern, stmt::Stmt, type_param::TypeParam, Ident
};

verus! {

/// A sequence node holding `Ident` elements.
pub struct IdentSeq {
    pub size: usize,
    pub elements: Vec<Vec<()>>,
    pub typed_elements: Ident,
}

/// A sequence node holding `i32` elements.
pub struct IntSeq {
    pub size: usize,
    pub elements: Vec<Vec<()>>,
    pub typed_elements: i32,
}

/// A sequence node holding `[Mod; 1]` elements.
pub struct ModSeq {
    pub size: usize,
    pub elements: Vec<Vec<()>>,
    pub typed_elements: [Mod; 1],
}

/// A sequence node holding `[Stmt; 1]` elements.
pub struct StmtSeq {
    pub size: usize,
    pub elements: Vec<Vec<()>>,
    pub typed_elements: [Stmt; 1],
}

/// A sequence node holding `[Expr; 1]` elements.
pub struct ExprSeq {
    pub size: usize,
    pub elements: Vec<Vec<()>>,
    pub typed_elements: [Expr; 1],
}

/// A sequence node holding `[Comprehension; 1]` elements.
pub struct ComprehensionSeq {
    pub size: usize,
    pub elements: Vec<Vec<()>>,
    pub typed_elements: [Comprehension; 1],
}

/// A sequence node holding `[ExceptHandler; 1]` elements.
pub struct ExceptHandlerSeq {
    pub size: usize,
    pub elements: Vec<Vec<()>>,
    pub typed_elements: [ExceptHandler; 1],
}

/// A sequence node holding `[Arguments; 1]` elements.
pub struct ArgumentsSeq {
    pub size: usize,
    pub elements: Vec<Vec<()>>,
    pub typed_elements: [Arguments; 1],
}

/// A sequence node holding `[Arg; 1]` elements.
pub struct ArgSeq {
    pub size: usize,
    pub elements: Vec<Vec<()>>,
    pub typed_elements: [Arg; 1],
}

/// A sequence node holding `[Keyword; 1]` elements.
pub struct KeywordSeq {
    pub size: usize,
    pub elements: Vec<Vec<()>>,
    pub typed_elements: [Keyword; 1],
}

/// A sequence node holding `[Alias; 1]` elements.
pub struct AliasSeq {
    pub size: usize,
    pub elements: Vec<Vec<()>>,
    pub typed_elements: [Alias; 1],
}

/// A sequence node holding `[WithItem; 1]` elements.
pub struct WithItemSeq {
    pub size: usize,
    pub elements: Vec<Vec<()>>,
    pub typed_elements: [WithItem; 1],
}

/// A sequence node holding `[MatchCase; 1]` elements.
pub struct MatchCaseSeq {
    pub size: usize,
    pub elements: Vec<Vec<()>>,
    pub typed_elements: [MatchCase; 1],
}

/// A sequence node holding `[Pattern; 1]` elements.
pub struct PatternSeq {
    pub size: usize,
    pub elements: Vec<Vec<()>>,
    pub typed_elements: [Pattern; 1],
}

/// A sequence node holding `[TypeIgnore; 1]` elements.
pub struct TypeIgnoreSeq {
    pub size: usize,
    pub elements: Vec<Vec<()>>,
    pub typed_elements: [TypeIgnore; 1],
}

/// A sequence node holding `[TypeParam; 1]` elements.
pub struct TypeParamSeq {
    pub size: usize,
    pub elements: Vec<Vec<()>>,
    pub typed_elements: [TypeParam; 1],
}

} // verus!
