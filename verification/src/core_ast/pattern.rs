//! Python match case patterns
use vstd::prelude::*;
use super::{
    expr::{Constant, Expr},
    seqs::{ExprSeq, IdentSeq, PatternSeq},
    Ident,
};


verus! {

/// The `Pattern` node.
pub struct Pattern {
    pub value: PatternType,
    pub lineno: usize,
    pub col_offset: usize,
    pub end_lineno: usize,
    pub end_col_offset: usize,
}

/// The `PatternType` node.
pub enum PatternType {
    MatchValue(MatchValue),
    MatchSingleton(MatchSingleton),
    MatchSequence(MatchSequence),
    MatchMapping(MatchMapping),
    MatchClass(MatchClass),
    MatchStar(MatchStar),
    MatchAs(MatchAs),
    MatchOr(MatchOr),
}

/// The `MatchValue` node.
pub struct MatchValue {
    pub value: Expr,
}

/// The `MatchSingleton` node.
pub struct MatchSingleton {
    pub value: Constant,
}

/// The `MatchSequence` node.
pub struct MatchSequence {
    pub patterns: Vec<PatternSeq>,
}

/// The `MatchMapping` node.
pub struct MatchMapping {
    pub keys: Vec<ExprSeq>,
    pub patterns: Vec<PatternSeq>,
    pub rest: Ident,
}

/// The `MatchClass` node.
pub struct MatchClass {
    pub class: Expr,
    pub patterns: Vec<PatternSeq>,
    pub kwd_attrs: Vec<IdentSeq>,
    pub kwd_patterns: Vec<PatternSeq>,
}

/// The `MatchStar` node.
pub struct MatchStar {
    pub name: Ident,
}

/// The `MatchAs` node.
pub struct MatchAs {
    pub pattern: Box<Pattern>,
    pub name: Ident,
}

/// The `MatchOr` node.
pub struct MatchOr {
    pub patterns: Vec<PatternSeq>,
}

} // verus!
