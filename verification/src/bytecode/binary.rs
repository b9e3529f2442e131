//! Operator kinds of the binary and unary opcodes, read from opcode names and
//! argument values.

use vstd::prelude::*;
use crate::text::{str_eq, to_lowercase, lowercase};

verus! {

/// The kinds of opcodes that take two operands.
#[derive(Debug, Clone, Copy, PartialEq, Eq, Hash, Structural)]
pub enum Binary {
    Op,
    Subscr,
    Slice,
    Compare,
    In,
    Is,
}

impl Binary {
    /// The kind named by the lower-case text `l`.
    pub open spec fn named(l: Seq<char>) -> Option<Binary> {
        if l == "op"@ {
            Some(Binary::Op)
        } else if l == "subscr"@ {
            Some(Binary::Subscr)
        } else if l == "slice"@ {
            Some(Binary::Slice)
        } else if l == "compare"@ {
            Some(Binary::Compare)
        } else if l == "contains"@ {
            Some(Binary::In)
        } else if l == "is"@ {
            Some(Binary::Is)
        } else {
            None
        }
    }

    /// The kind named by `s`, whatever its letter case.
    pub fn get(s: &str) -> (r: Option<Binary>)
        ensures
            r == Binary::named(lowercase(s@)),
    {
        let l = to_lowercase(s);
        Binary::from_lowercase(l.as_str())
    }

    /// The kind named by the already lower-cased `l`.
    pub fn from_lowercase(l: &str) -> (r: Option<Binary>)
        ensures
            r == Binary::named(l@),
    {
        if str_eq(l, "op") {
            Some(Binary::Op)
        } else if str_eq(l, "subscr") {
            Some(Binary::Subscr)
        } else if str_eq(l, "slice") {
            Some(Binary::Slice)
        } else if str_eq(l, "compare") {
            Some(Binary::Compare)
        } else if str_eq(l, "contains") {
            Some(Binary::In)
        } else if str_eq(l, "is") {
            Some(Binary::Is)
        } else {
            None
        }
    }
}

/// The kinds of opcodes that take one operand.
#[derive(Debug, Clone, Copy, PartialEq, Eq, Hash, Structural)]
pub enum Unary {
    Not,
    Neg,
    Invert,
}

impl Unary {
    /// The kind named by the lower-case text `l`.
    pub open spec fn named(l: Seq<char>) -> Option<Unary> {
        if l == "not"@ {
            Some(Unary::Not)
        } else if l == "negative"@ {
            Some(Unary::Neg)
        } else if l == "invert"@ {
            Some(Unary::Invert)
        } else {
            None
        }
    }

    /// The Python prefix that spells the operation.
    pub open spec fn prefix(self) -> Seq<char> {
        match self {
            Unary::Not => "not "@,
            Unary::Neg => "-"@,
            Unary::Invert => "~"@,
        }
    }

    /// The kind named by `s`, whatever its letter case.
    pub fn get(s: &str) -> (r: Option<Unary>)
        ensures
            r == Unary::named(lowercase(s@)),
    {
        let l = to_lowercase(s);
        Unary::from_lowercase(l.as_str())
    }

    /// The kind named by the already lower-cased `l`.
    pub fn from_lowercase(l: &str) -> (r: Option<Unary>)
        ensures
            r == Unary::named(l@),
    {
        if str_eq(l, "not") {
            Some(Unary::Not)
        } else if str_eq(l, "negative") {
            Some(Unary::Neg)
        } else if str_eq(l, "invert") {
            Some(Unary::Invert)
        } else {
            None
        }
    }

    /// The Python prefix that spells the operation.
    pub fn to_str(self) -> (r: &'static str)
        ensures
            r@ == self.prefix(),
    {
        match self {
            Unary::Not => "not ",
            Unary::Neg => "-",
            Unary::Invert => "~",
        }
    }

    /// `expr` with the operation's prefix in front.
    pub fn get_expr(&self, expr: &str) -> (r: String)
        ensures
            r@ == self.prefix() + expr@,
    {
        let mut r = String::from_str(self.to_str());
        r.append(expr);
        r
    }
}

/// An operator of a binary operation, and its spelling in Python source.
#[derive(Debug, Clone, Copy, PartialEq, Eq, Hash, Structural)]
pub enum OP {
    Add,
    Sub,
    Mul,
    Div,
    Mod,
    Xor,
    Or,
    And,
    FloorDiv,
    Pow,
    LShift,
    RShift,
    Eq,
    Ne,
    Gt,
    Lt,
    Ge,
    Le,
    AddEq,
    SubEq,
    MulEq,
    DivEq,
    ModEq,
    XorEq,
    OrEq,
    AndEq,
    InvEq,
    LShiftEq,
    RShiftEq,
}

impl OP {
    /// The Python spelling of the operator.
    pub open spec fn symbol(self) -> Seq<char> {
        match self {
            OP::Add => "+"@,
            OP::Sub => "-"@,
            OP::Mul => "*"@,
            OP::Div => "/"@,
            OP::Mod => "%"@,
            OP::Xor => "^"@,
            OP::Or => "|"@,
            OP::And => "&"@,
            OP::FloorDiv => "//"@,
            OP::Pow => "**"@,
            OP::LShift => "<<"@,
            OP::RShift => ">>"@,
            OP::Eq => "=="@,
            OP::Ne => "!="@,
            OP::Gt => ">"@,
            OP::Lt => "<"@,
            OP::Ge => ">="@,
            OP::Le => "<="@,
            OP::AddEq => "+="@,
            OP::SubEq => "-="@,
            OP::MulEq => "*="@,
            OP::DivEq => "/="@,
            OP::ModEq => "%="@,
            OP::XorEq => "^="@,
            OP::OrEq => "|="@,
            OP::AndEq => "&="@,
            OP::InvEq => "~="@,
            OP::LShiftEq => "<<="@,
            OP::RShiftEq => ">>="@,
        }
    }

    /// The operator spelled `s`, if there is one.
    pub open spec fn spelled(s: Seq<char>) -> Option<OP> {
        if exists|op: OP| op.symbol() == s {
            Some(choose|op: OP| op.symbol() == s)
        } else {
            None
        }
    }

    /// The operator spelled `s`, if any.
    pub fn get(s: &str) -> (r: Option<OP>)
        ensures
            r == OP::spelled(s@),
    {
        let r = Self::lookup(s);
        proof {
            if let Some(op) = r {
                let c = choose|x: OP| x.symbol() == s@;
                if c != op {
                    lemma_symbols_distinct(c, op);
                }
            }
        }
        r
    }

    fn lookup(s: &str) -> (r: Option<OP>)
        ensures
            r matches Some(op) ==> op.symbol() == s@,
            r is None ==> forall|op: OP| op.symbol() != s@,
    {
        if str_eq(s, "+") {
            return Some(OP::Add);
        }
        if str_eq(s, "-") {
            return Some(OP::Sub);
        }
        if str_eq(s, "*") {
            return Some(OP::Mul);
        }
        if str_eq(s, "/") {
            return Some(OP::Div);
        }
        if str_eq(s, "%") {
            return Some(OP::Mod);
        }
        if str_eq(s, "^") {
            return Some(OP::Xor);
        }
        if str_eq(s, "|") {
            return Some(OP::Or);
        }
        if str_eq(s, "&") {
            return Some(OP::And);
        }
        if str_eq(s, "//") {
            return Some(OP::FloorDiv);
        }
        if str_eq(s, "**") {
            return Some(OP::Pow);
        }
        if str_eq(s, "<<") {
            return Some(OP::LShift);
        }
        if str_eq(s, ">>") {
            return Some(OP::RShift);
        }
        if str_eq(s, "==") {
            return Some(OP::Eq);
        }
        if str_eq(s, "!=") {
            return Some(OP::Ne);
        }
        if str_eq(s, ">") {
            return Some(OP::Gt);
        }
        if str_eq(s, "<") {
            return Some(OP::Lt);
        }
        if str_eq(s, ">=") {
            return Some(OP::Ge);
        }
        if str_eq(s, "<=") {
            return Some(OP::Le);
        }
        if str_eq(s, "+=") {
            return Some(OP::AddEq);
        }
        if str_eq(s, "-=") {
            return Some(OP::SubEq);
        }
        if str_eq(s, "*=") {
            return Some(OP::MulEq);
        }
        if str_eq(s, "/=") {
            return Some(OP::DivEq);
        }
        if str_eq(s, "%=") {
            return Some(OP::ModEq);
        }
        if str_eq(s, "^=") {
            return Some(OP::XorEq);
        }
        if str_eq(s, "|=") {
            return Some(OP::OrEq);
        }
        if str_eq(s, "&=") {
            return Some(OP::AndEq);
        }
        if str_eq(s, "~=") {
            return Some(OP::InvEq);
        }
        if str_eq(s, "<<=") {
            return Some(OP::LShiftEq);
        }
        if str_eq(s, ">>=") {
            return Some(OP::RShiftEq);
        }
        proof {
            assert forall|op: OP| op.symbol() != s@ by {
                match op {
                    OP::Add => {},
                    OP::Sub => {},
                    OP::Mul => {},
                    OP::Div => {},
                    OP::Mod => {},
                    OP::Xor => {},
                    OP::Or => {},
                    OP::And => {},
                    OP::FloorDiv => {},
                    OP::Pow => {},
                    OP::LShift => {},
                    OP::RShift => {},
                    OP::Eq => {},
                    OP::Ne => {},
                    OP::Gt => {},
                    OP::Lt => {},
                    OP::Ge => {},
                    OP::Le => {},
                    OP::AddEq => {},
                    OP::SubEq => {},
                    OP::MulEq => {},
                    OP::DivEq => {},
                    OP::ModEq => {},
                    OP::XorEq => {},
                    OP::OrEq => {},
                    OP::AndEq => {},
                    OP::InvEq => {},
                    OP::LShiftEq => {},
                    OP::RShiftEq => {},
                }
            }
        }
        None
    }

    /// The Python spelling of the operator.
    pub fn to_str(self) -> (r: &'static str)
        ensures
            r@ == self.symbol(),
    {
        match self {
            OP::Add => "+",
            OP::Sub => "-",
            OP::Mul => "*",
            OP::Div => "/",
            OP::Mod => "%",
            OP::Xor => "^",
            OP::Or => "|",
            OP::And => "&",
            OP::FloorDiv => "//",
            OP::Pow => "**",
            OP::LShift => "<<",
            OP::RShift => ">>",
            OP::Eq => "==",
            OP::Ne => "!=",
            OP::Gt => ">",
            OP::Lt => "<",
            OP::Ge => ">=",
            OP::Le => "<=",
            OP::AddEq => "+=",
            OP::SubEq => "-=",
            OP::MulEq => "*=",
            OP::DivEq => "/=",
            OP::ModEq => "%=",
            OP::XorEq => "^=",
            OP::OrEq => "|=",
            OP::AndEq => "&=",
            OP::InvEq => "~=",
            OP::LShiftEq => "<<=",
            OP::RShiftEq => ">>=",
        }
    }

    /// `left`, the operator and `right`, separated by single spaces.
    pub fn get_expr(&self, left: &str, right: &str) -> (r: String)
        ensures
            r@ == left@ + " "@ + self.symbol() + " "@ + right@,
    {
        let mut r = String::from_str(left);
        r.append(" ");
        r.append(self.to_str());
        r.append(" ");
        r.append(right);
        r
    }
}

/// No two operators share a spelling.
pub proof fn lemma_symbols_distinct(a: OP, b: OP)
    requires
        a != b,
    ensures
        a.symbol() != b.symbol(),
{
    reveal_strlit("+");
    reveal_strlit("-");
    reveal_strlit("*");
    reveal_strlit("/");
    reveal_strlit("%");
    reveal_strlit("^");
    reveal_strlit("|");
    reveal_strlit("&");
    reveal_strlit("//");
    reveal_strlit("**");
    reveal_strlit("<<");
    reveal_strlit(">>");
    reveal_strlit("==");
    reveal_strlit("!=");
    reveal_strlit(">");
    reveal_strlit("<");
    reveal_strlit(">=");
    reveal_strlit("<=");
    reveal_strlit("+=");
    reveal_strlit("-=");
    reveal_strlit("*=");
    reveal_strlit("/=");
    reveal_strlit("%=");
    reveal_strlit("^=");
    reveal_strlit("|=");
    reveal_strlit("&=");
    reveal_strlit("~=");
    reveal_strlit("<<=");
    reveal_strlit(">>=");
    match a {
        OP::Add => match b {
            OP::Sub => assert(a.symbol()[0] != b.symbol()[0]),
            OP::Mul => assert(a.symbol()[0] != b.symbol()[0]),
            OP::Div => assert(a.symbol()[0] != b.symbol()[0]),
            OP::Mod => assert(a.symbol()[0] != b.symbol()[0]),
            OP::Xor => assert(a.symbol()[0] != b.symbol()[0]),
            OP::Or => assert(a.symbol()[0] != b.symbol()[0]),
            OP::And => assert(a.symbol()[0] != b.symbol()[0]),
            OP::FloorDiv => assert(a.symbol().len() != b.symbol().len()),
            OP::Pow => assert(a.symbol().len() != b.symbol().len()),
            OP::LShift => assert(a.symbol().len() != b.symbol().len()),
            OP::RShift => assert(a.symbol().len() != b.symbol().len()),
            OP::Eq => assert(a.symbol().len() != b.symbol().len()),
            OP::Ne => assert(a.symbol().len() != b.symbol().len()),
            OP::Gt => assert(a.symbol()[0] != b.symbol()[0]),
            OP::Lt => assert(a.symbol()[0] != b.symbol()[0]),
            OP::Ge => assert(a.symbol().len() != b.symbol().len()),
            OP::Le => assert(a.symbol().len() != b.symbol().len()),
            OP::AddEq => assert(a.symbol().len() != b.symbol().len()),
            OP::SubEq => assert(a.symbol().len() != b.symbol().len()),
            OP::MulEq => assert(a.symbol().len() != b.symbol().len()),
            OP::DivEq => assert(a.symbol().len() != b.symbol().len()),
            OP::ModEq => assert(a.symbol().len() != b.symbol().len()),
            OP::XorEq => assert(a.symbol().len() != b.symbol().len()),
            OP::OrEq => assert(a.symbol().len() != b.symbol().len()),
            OP::AndEq => assert(a.symbol().len() != b.symbol().len()),
            OP::InvEq => assert(a.symbol().len() != b.symbol().len()),
            OP::LShiftEq => assert(a.symbol().len() != b.symbol().len()),
            OP::RShiftEq => assert(a.symbol().len() != b.symbol().len()),
            OP::Add => {},
        },
        OP::Sub => match b {
            OP::Add => assert(a.symbol()[0] != b.symbol()[0]),
            OP::Mul => assert(a.symbol()[0] != b.symbol()[0]),
            OP::Div => assert(a.symbol()[0] != b.symbol()[0]),
            OP::Mod => assert(a.symbol()[0] != b.symbol()[0]),
            OP::Xor => assert(a.symbol()[0] != b.symbol()[0]),
            OP::Or => assert(a.symbol()[0] != b.symbol()[0]),
            OP::And => assert(a.symbol()[0] != b.symbol()[0]),
            OP::FloorDiv => assert(a.symbol().len() != b.symbol().len()),
            OP::Pow => assert(a.symbol().len() != b.symbol().len()),
            OP::LShift => assert(a.symbol().len() != b.symbol().len()),
            OP::RShift => assert(a.symbol().len() != b.symbol().len()),
            OP::Eq => assert(a.symbol().len() != b.symbol().len()),
            OP::Ne => assert(a.symbol().len() != b.symbol().len()),
            OP::Gt => assert(a.symbol()[0] != b.symbol()[0]),
            OP::Lt => assert(a.symbol()[0] != b.symbol()[0]),
            OP::Ge => assert(a.symbol().len() != b.symbol().len()),
            OP::Le => assert(a.symbol().len() != b.symbol().len()),
            OP::AddEq => assert(a.symbol().len() != b.symbol().len()),
            OP::SubEq => assert(a.symbol().len() != b.symbol().len()),
            OP::MulEq => assert(a.symbol().len() != b.symbol().len()),
            OP::DivEq => assert(a.symbol().len() != b.symbol().len()),
            OP::ModEq => assert(a.symbol().len() != b.symbol().len()),
            OP::XorEq => assert(a.symbol().len() != b.symbol().len()),
            OP::OrEq => assert(a.symbol().len() != b.symbol().len()),
            OP::AndEq => assert(a.symbol().len() != b.symbol().len()),
            OP::InvEq => assert(a.symbol().len() != b.symbol().len()),
            OP::LShiftEq => assert(a.symbol().len() != b.symbol().len()),
            OP::RShiftEq => assert(a.symbol().len() != b.symbol().len()),
            OP::Sub => {},
        },
        OP::Mul => match b {
            OP::Add => assert(a.symbol()[0] != b.symbol()[0]),
            OP::Sub => assert(a.symbol()[0] != b.symbol()[0]),
            OP::Div => assert(a.symbol()[0] != b.symbol()[0]),
            OP::Mod => assert(a.symbol()[0] != b.symbol()[0]),
            OP::Xor => assert(a.symbol()[0] != b.symbol()[0]),
            OP::Or => assert(a.symbol()[0] != b.symbol()[0]),
            OP::And => assert(a.symbol()[0] != b.symbol()[0]),
            OP::FloorDiv => assert(a.symbol().len() != b.symbol().len()),
            OP::Pow => assert(a.symbol().len() != b.symbol().len()),
            OP::LShift => assert(a.symbol().len() != b.symbol().len()),
            OP::RShift => assert(a.symbol().len() != b.symbol().len()),
            OP::Eq => assert(a.symbol().len() != b.symbol().len()),
            OP::Ne => assert(a.symbol().len() != b.symbol().len()),
            OP::Gt => assert(a.symbol()[0] != b.symbol()[0]),
            OP::Lt => assert(a.symbol()[0] != b.symbol()[0]),
            OP::Ge => assert(a.symbol().len() != b.symbol().len()),
            OP::Le => assert(a.symbol().len() != b.symbol().len()),
            OP::AddEq => assert(a.symbol().len() != b.symbol().len()),
            OP::SubEq => assert(a.symbol().len() != b.symbol().len()),
            OP::MulEq => assert(a.symbol().len() != b.symbol().len()),
            OP::DivEq => assert(a.symbol().len() != b.symbol().len()),
            OP::ModEq => assert(a.symbol().len() != b.symbol().len()),
            OP::XorEq => assert(a.symbol().len() != b.symbol().len()),
            OP::OrEq => assert(a.symbol().len() != b.symbol().len()),
            OP::AndEq => assert(a.symbol().len() != b.symbol().len()),
            OP::InvEq => assert(a.symbol().len() != b.symbol().len()),
            OP::LShiftEq => assert(a.symbol().len() != b.symbol().len()),
            OP::RShiftEq => assert(a.symbol().len() != b.symbol().len()),
            OP::Mul => {},
        },
        OP::Div => match b {
            OP::Add => assert(a.symbol()[0] != b.symbol()[0]),
            OP::Sub => assert(a.symbol()[0] != b.symbol()[0]),
            OP::Mul => assert(a.symbol()[0] != b.symbol()[0]),
            OP::Mod => assert(a.symbol()[0] != b.symbol()[0]),
            OP::Xor => assert(a.symbol()[0] != b.symbol()[0]),
            OP::Or => assert(a.symbol()[0] != b.symbol()[0]),
            OP::And => assert(a.symbol()[0] != b.symbol()[0]),
            OP::FloorDiv => assert(a.symbol().len() != b.symbol().len()),
            OP::Pow => assert(a.symbol().len() != b.symbol().len()),
            OP::LShift => assert(a.symbol().len() != b.symbol().len()),
            OP::RShift => assert(a.symbol().len() != b.symbol().len()),
            OP::Eq => assert(a.symbol().len() != b.symbol().len()),
            OP::Ne => assert(a.symbol().len() != b.symbol().len()),
            OP::Gt => assert(a.symbol()[0] != b.symbol()[0]),
            OP::Lt => assert(a.symbol()[0] != b.symbol()[0]),
            OP::Ge => assert(a.symbol().len() != b.symbol().len()),
            OP::Le => assert(a.symbol().len() != b.symbol().len()),
            OP::AddEq => assert(a.symbol().len() != b.symbol().len()),
            OP::SubEq => assert(a.symbol().len() != b.symbol().len()),
            OP::MulEq => assert(a.symbol().len() != b.symbol().len()),
            OP::DivEq => assert(a.symbol().len() != b.symbol().len()),
            OP::ModEq => assert(a.symbol().len() != b.symbol().len()),
            OP::XorEq => assert(a.symbol().len() != b.symbol().len()),
            OP::OrEq => assert(a.symbol().len() != b.symbol().len()),
            OP::AndEq => assert(a.symbol().len() != b.symbol().len()),
            OP::InvEq => assert(a.symbol().len() != b.symbol().len()),
            OP::LShiftEq => assert(a.symbol().len() != b.symbol().len()),
            OP::RShiftEq => assert(a.symbol().len() != b.symbol().len()),
            OP::Div => {},
        },
        OP::Mod => match b {
            OP::Add => assert(a.symbol()[0] != b.symbol()[0]),
            OP::Sub => assert(a.symbol()[0] != b.symbol()[0]),
            OP::Mul => assert(a.symbol()[0] != b.symbol()[0]),
            OP::Div => assert(a.symbol()[0] != b.symbol()[0]),
            OP::Xor => assert(a.symbol()[0] != b.symbol()[0]),
            OP::Or => assert(a.symbol()[0] != b.symbol()[0]),
            OP::And => assert(a.symbol()[0] != b.symbol()[0]),
            OP::FloorDiv => assert(a.symbol().len() != b.symbol().len()),
            OP::Pow => assert(a.symbol().len() != b.symbol().len()),
            OP::LShift => assert(a.symbol().len() != b.symbol().len()),
            OP::RShift => assert(a.symbol().len() != b.symbol().len()),
            OP::Eq => assert(a.symbol().len() != b.symbol().len()),
            OP::Ne => assert(a.symbol().len() != b.symbol().len()),
            OP::Gt => assert(a.symbol()[0] != b.symbol()[0]),
            OP::Lt => assert(a.symbol()[0] != b.symbol()[0]),
            OP::Ge => assert(a.symbol().len() != b.symbol().len()),
            OP::Le => assert(a.symbol().len() != b.symbol().len()),
            OP::AddEq => assert(a.symbol().len() != b.symbol().len()),
            OP::SubEq => assert(a.symbol().len() != b.symbol().len()),
            OP::MulEq => assert(a.symbol().len() != b.symbol().len()),
            OP::DivEq => assert(a.symbol().len() != b.symbol().len()),
            OP::ModEq => assert(a.symbol().len() != b.symbol().len()),
            OP::XorEq => assert(a.symbol().len() != b.symbol().len()),
            OP::OrEq => assert(a.symbol().len() != b.symbol().len()),
            OP::AndEq => assert(a.symbol().len() != b.symbol().len()),
            OP::InvEq => assert(a.symbol().len() != b.symbol().len()),
            OP::LShiftEq => assert(a.symbol().len() != b.symbol().len()),
            OP::RShiftEq => assert(a.symbol().len() != b.symbol().len()),
            OP::Mod => {},
        },
        OP::Xor => match b {
            OP::Add => assert(a.symbol()[0] != b.symbol()[0]),
            OP::Sub => assert(a.symbol()[0] != b.symbol()[0]),
            OP::Mul => assert(a.symbol()[0] != b.symbol()[0]),
            OP::Div => assert(a.symbol()[0] != b.symbol()[0]),
            OP::Mod => assert(a.symbol()[0] != b.symbol()[0]),
            OP::Or => assert(a.symbol()[0] != b.symbol()[0]),
            OP::And => assert(a.symbol()[0] != b.symbol()[0]),
            OP::FloorDiv => assert(a.symbol().len() != b.symbol().len()),
            OP::Pow => assert(a.symbol().len() != b.symbol().len()),
            OP::LShift => assert(a.symbol().len() != b.symbol().len()),
            OP::RShift => assert(a.symbol().len() != b.symbol().len()),
            OP::Eq => assert(a.symbol().len() != b.symbol().len()),
            OP::Ne => assert(a.symbol().len() != b.symbol().len()),
            OP::Gt => assert(a.symbol()[0] != b.symbol()[0]),
            OP::Lt => assert(a.symbol()[0] != b.symbol()[0]),
            OP::Ge => assert(a.symbol().len() != b.symbol().len()),
            OP::Le => assert(a.symbol().len() != b.symbol().len()),
            OP::AddEq => assert(a.symbol().len() != b.symbol().len()),
            OP::SubEq => assert(a.symbol().len() != b.symbol().len()),
            OP::MulEq => assert(a.symbol().len() != b.symbol().len()),
            OP::DivEq => assert(a.symbol().len() != b.symbol().len()),
            OP::ModEq => assert(a.symbol().len() != b.symbol().len()),
            OP::XorEq => assert(a.symbol().len() != b.symbol().len()),
            OP::OrEq => assert(a.symbol().len() != b.symbol().len()),
            OP::AndEq => assert(a.symbol().len() != b.symbol().len()),
            OP::InvEq => assert(a.symbol().len() != b.symbol().len()),
            OP::LShiftEq => assert(a.symbol().len() != b.symbol().len()),
            OP::RShiftEq => assert(a.symbol().len() != b.symbol().len()),
            OP::Xor => {},
        },
        OP::Or => match b {
            OP::Add => assert(a.symbol()[0] != b.symbol()[0]),
            OP::Sub => assert(a.symbol()[0] != b.symbol()[0]),
            OP::Mul => assert(a.symbol()[0] != b.symbol()[0]),
            OP::Div => assert(a.symbol()[0] != b.symbol()[0]),
            OP::Mod => assert(a.symbol()[0] != b.symbol()[0]),
            OP::Xor => assert(a.symbol()[0] != b.symbol()[0]),
            OP::And => assert(a.symbol()[0] != b.symbol()[0]),
            OP::FloorDiv => assert(a.symbol().len() != b.symbol().len()),
            OP::Pow => assert(a.symbol().len() != b.symbol().len()),
            OP::LShift => assert(a.symbol().len() != b.symbol().len()),
            OP::RShift => assert(a.symbol().len() != b.symbol().len()),
            OP::Eq => assert(a.symbol().len() != b.symbol().len()),
            OP::Ne => assert(a.symbol().len() != b.symbol().len()),
            OP::Gt => assert(a.symbol()[0] != b.symbol()[0]),
            OP::Lt => assert(a.symbol()[0] != b.symbol()[0]),
            OP::Ge => assert(a.symbol().len() != b.symbol().len()),
            OP::Le => assert(a.symbol().len() != b.symbol().len()),
            OP::AddEq => assert(a.symbol().len() != b.symbol().len()),
            OP::SubEq => assert(a.symbol().len() != b.symbol().len()),
            OP::MulEq => assert(a.symbol().len() != b.symbol().len()),
            OP::DivEq => assert(a.symbol().len() != b.symbol().len()),
            OP::ModEq => assert(a.symbol().len() != b.symbol().len()),
            OP::XorEq => assert(a.symbol().len() != b.symbol().len()),
            OP::OrEq => assert(a.symbol().len() != b.symbol().len()),
            OP::AndEq => assert(a.symbol().len() != b.symbol().len()),
            OP::InvEq => assert(a.symbol().len() != b.symbol().len()),
            OP::LShiftEq => assert(a.symbol().len() != b.symbol().len()),
            OP::RShiftEq => assert(a.symbol().len() != b.symbol().len()),
            OP::Or => {},
        },
        OP::And => match b {
            OP::Add => assert(a.symbol()[0] != b.symbol()[0]),
            OP::Sub => assert(a.symbol()[0] != b.symbol()[0]),
            OP::Mul => assert(a.symbol()[0] != b.symbol()[0]),
            OP::Div => assert(a.symbol()[0] != b.symbol()[0]),
            OP::Mod => assert(a.symbol()[0] != b.symbol()[0]),
            OP::Xor => assert(a.symbol()[0] != b.symbol()[0]),
            OP::Or => assert(a.symbol()[0] != b.symbol()[0]),
            OP::FloorDiv => assert(a.symbol().len() != b.symbol().len()),
            OP::Pow => assert(a.symbol().len() != b.symbol().len()),
            OP::LShift => assert(a.symbol().len() != b.symbol().len()),
            OP::RShift => assert(a.symbol().len() != b.symbol().len()),
            OP::Eq => assert(a.symbol().len() != b.symbol().len()),
            OP::Ne => assert(a.symbol().len() != b.symbol().len()),
            OP::Gt => assert(a.symbol()[0] != b.symbol()[0]),
            OP::Lt => assert(a.symbol()[0] != b.symbol()[0]),
            OP::Ge => assert(a.symbol().len() != b.symbol().len()),
            OP::Le => assert(a.symbol().len() != b.symbol().len()),
            OP::AddEq => assert(a.symbol().len() != b.symbol().len()),
            OP::SubEq => assert(a.symbol().len() != b.symbol().len()),
            OP::MulEq => assert(a.symbol().len() != b.symbol().len()),
            OP::DivEq => assert(a.symbol().len() != b.symbol().len()),
            OP::ModEq => assert(a.symbol().len() != b.symbol().len()),
            OP::XorEq => assert(a.symbol().len() != b.symbol().len()),
            OP::OrEq => assert(a.symbol().len() != b.symbol().len()),
            OP::AndEq => assert(a.symbol().len() != b.symbol().len()),
            OP::InvEq => assert(a.symbol().len() != b.symbol().len()),
            OP::LShiftEq => assert(a.symbol().len() != b.symbol().len()),
            OP::RShiftEq => assert(a.symbol().len() != b.symbol().len()),
            OP::And => {},
        },
        OP::FloorDiv => match b {
            OP::Add => assert(a.symbol().len() != b.symbol().len()),
            OP::Sub => assert(a.symbol().len() != b.symbol().len()),
            OP::Mul => assert(a.symbol().len() != b.symbol().len()),
            OP::Div => assert(a.symbol().len() != b.symbol().len()),
            OP::Mod => assert(a.symbol().len() != b.symbol().len()),
            OP::Xor => assert(a.symbol().len() != b.symbol().len()),
            OP::Or => assert(a.symbol().len() != b.symbol().len()),
            OP::And => assert(a.symbol().len() != b.symbol().len()),
            OP::Pow => assert(a.symbol()[0] != b.symbol()[0]),
            OP::LShift => assert(a.symbol()[0] != b.symbol()[0]),
            OP::RShift => assert(a.symbol()[0] != b.symbol()[0]),
            OP::Eq => assert(a.symbol()[0] != b.symbol()[0]),
            OP::Ne => assert(a.symbol()[0] != b.symbol()[0]),
            OP::Gt => assert(a.symbol().len() != b.symbol().len()),
            OP::Lt => assert(a.symbol().len() != b.symbol().len()),
            OP::Ge => assert(a.symbol()[0] != b.symbol()[0]),
            OP::Le => assert(a.symbol()[0] != b.symbol()[0]),
            OP::AddEq => assert(a.symbol()[0] != b.symbol()[0]),
            OP::SubEq => assert(a.symbol()[0] != b.symbol()[0]),
            OP::MulEq => assert(a.symbol()[0] != b.symbol()[0]),
            OP::DivEq => assert(a.symbol()[1] != b.symbol()[1]),
            OP::ModEq => assert(a.symbol()[0] != b.symbol()[0]),
            OP::XorEq => assert(a.symbol()[0] != b.symbol()[0]),
            OP::OrEq => assert(a.symbol()[0] != b.symbol()[0]),
            OP::AndEq => assert(a.symbol()[0] != b.symbol()[0]),
            OP::InvEq => assert(a.symbol()[0] != b.symbol()[0]),
            OP::LShiftEq => assert(a.symbol().len() != b.symbol().len()),
            OP::RShiftEq => assert(a.symbol().len() != b.symbol().len()),
            OP::FloorDiv => {},
        },
        OP::Pow => match b {
            OP::Add => assert(a.symbol().len() != b.symbol().len()),
            OP::Sub => assert(a.symbol().len() != b.symbol().len()),
            OP::Mul => assert(a.symbol().len() != b.symbol().len()),
            OP::Div => assert(a.symbol().len() != b.symbol().len()),
            OP::Mod => assert(a.symbol().len() != b.symbol().len()),
            OP::Xor => assert(a.symbol().len() != b.symbol().len()),
            OP::Or => assert(a.symbol().len() != b.symbol().len()),
            OP::And => assert(a.symbol().len() != b.symbol().len()),
            OP::FloorDiv => assert(a.symbol()[0] != b.symbol()[0]),
            OP::LShift => assert(a.symbol()[0] != b.symbol()[0]),
            OP::RShift => assert(a.symbol()[0] != b.symbol()[0]),
            OP::Eq => assert(a.symbol()[0] != b.symbol()[0]),
            OP::Ne => assert(a.symbol()[0] != b.symbol()[0]),
            OP::Gt => assert(a.symbol().len() != b.symbol().len()),
            OP::Lt => assert(a.symbol().len() != b.symbol().len()),
            OP::Ge => assert(a.symbol()[0] != b.symbol()[0]),
            OP::Le => assert(a.symbol()[0] != b.symbol()[0]),
            OP::AddEq => assert(a.symbol()[0] != b.symbol()[0]),
            OP::SubEq => assert(a.symbol()[0] != b.symbol()[0]),
            OP::MulEq => assert(a.symbol()[1] != b.symbol()[1]),
            OP::DivEq => assert(a.symbol()[0] != b.symbol()[0]),
            OP::ModEq => assert(a.symbol()[0] != b.symbol()[0]),
            OP::XorEq => assert(a.symbol()[0] != b.symbol()[0]),
            OP::OrEq => assert(a.symbol()[0] != b.symbol()[0]),
            OP::AndEq => assert(a.symbol()[0] != b.symbol()[0]),
            OP::InvEq => assert(a.symbol()[0] != b.symbol()[0]),
            OP::LShiftEq => assert(a.symbol().len() != b.symbol().len()),
            OP::RShiftEq => assert(a.symbol().len() != b.symbol().len()),
            OP::Pow => {},
        },
        OP::LShift => match b {
            OP::Add => assert(a.symbol().len() != b.symbol().len()),
            OP::Sub => assert(a.symbol().len() != b.symbol().len()),
            OP::Mul => assert(a.symbol().len() != b.symbol().len()),
            OP::Div => assert(a.symbol().len() != b.symbol().len()),
            OP::Mod => assert(a.symbol().len() != b.symbol().len()),
            OP::Xor => assert(a.symbol().len() != b.symbol().len()),
            OP::Or => assert(a.symbol().len() != b.symbol().len()),
            OP::And => assert(a.symbol().len() != b.symbol().len()),
            OP::FloorDiv => assert(a.symbol()[0] != b.symbol()[0]),
            OP::Pow => assert(a.symbol()[0] != b.symbol()[0]),
            OP::RShift => assert(a.symbol()[0] != b.symbol()[0]),
            OP::Eq => assert(a.symbol()[0] != b.symbol()[0]),
            OP::Ne => assert(a.symbol()[0] != b.symbol()[0]),
            OP::Gt => assert(a.symbol().len() != b.symbol().len()),
            OP::Lt => assert(a.symbol().len() != b.symbol().len()),
            OP::Ge => assert(a.symbol()[0] != b.symbol()[0]),
            OP::Le => assert(a.symbol()[1] != b.symbol()[1]),
            OP::AddEq => assert(a.symbol()[0] != b.symbol()[0]),
            OP::SubEq => assert(a.symbol()[0] != b.symbol()[0]),
            OP::MulEq => assert(a.symbol()[0] != b.symbol()[0]),
            OP::DivEq => assert(a.symbol()[0] != b.symbol()[0]),
            OP::ModEq => assert(a.symbol()[0] != b.symbol()[0]),
            OP::XorEq => assert(a.symbol()[0] != b.symbol()[0]),
            OP::OrEq => assert(a.symbol()[0] != b.symbol()[0]),
            OP::AndEq => assert(a.symbol()[0] != b.symbol()[0]),
            OP::InvEq => assert(a.symbol()[0] != b.symbol()[0]),
            OP::LShiftEq => assert(a.symbol().len() != b.symbol().len()),
            OP::RShiftEq => assert(a.symbol().len() != b.symbol().len()),
            OP::LShift => {},
        },
        OP::RShift => match b {
            OP::Add => assert(a.symbol().len() != b.symbol().len()),
            OP::Sub => assert(a.symbol().len() != b.symbol().len()),
            OP::Mul => assert(a.symbol().len() != b.symbol().len()),
            OP::Div => assert(a.symbol().len() != b.symbol().len()),
            OP::Mod => assert(a.symbol().len() != b.symbol().len()),
            OP::Xor => assert(a.symbol().len() != b.symbol().len()),
            OP::Or => assert(a.symbol().len() != b.symbol().len()),
            OP::And => assert(a.symbol().len() != b.symbol().len()),
            OP::FloorDiv => assert(a.symbol()[0] != b.symbol()[0]),
            OP::Pow => assert(a.symbol()[0] != b.symbol()[0]),
            OP::LShift => assert(a.symbol()[0] != b.symbol()[0]),
            OP::Eq => assert(a.symbol()[0] != b.symbol()[0]),
            OP::Ne => assert(a.symbol()[0] != b.symbol()[0]),
            OP::Gt => assert(a.symbol().len() != b.symbol().len()),
            OP::Lt => assert(a.symbol().len() != b.symbol().len()),
            OP::Ge => assert(a.symbol()[1] != b.symbol()[1]),
            OP::Le => assert(a.symbol()[0] != b.symbol()[0]),
            OP::AddEq => assert(a.symbol()[0] != b.symbol()[0]),
            OP::SubEq => assert(a.symbol()[0] != b.symbol()[0]),
            OP::MulEq => assert(a.symbol()[0] != b.symbol()[0]),
            OP::DivEq => assert(a.symbol()[0] != b.symbol()[0]),
            OP::ModEq => assert(a.symbol()[0] != b.symbol()[0]),
            OP::XorEq => assert(a.symbol()[0] != b.symbol()[0]),
            OP::OrEq => assert(a.symbol()[0] != b.symbol()[0]),
            OP::AndEq => assert(a.symbol()[0] != b.symbol()[0]),
            OP::InvEq => assert(a.symbol()[0] != b.symbol()[0]),
            OP::LShiftEq => assert(a.symbol().len() != b.symbol().len()),
            OP::RShiftEq => assert(a.symbol().len() != b.symbol().len()),
            OP::RShift => {},
        },
        OP::Eq => match b {
            OP::Add => assert(a.symbol().len() != b.symbol().len()),
            OP::Sub => assert(a.symbol().len() != b.symbol().len()),
            OP::Mul => assert(a.symbol().len() != b.symbol().len()),
            OP::Div => assert(a.symbol().len() != b.symbol().len()),
            OP::Mod => assert(a.symbol().len() != b.symbol().len()),
            OP::Xor => assert(a.symbol().len() != b.symbol().len()),
            OP::Or => assert(a.symbol().len() != b.symbol().len()),
            OP::And => assert(a.symbol().len() != b.symbol().len()),
            OP::FloorDiv => assert(a.symbol()[0] != b.symbol()[0]),
            OP::Pow => assert(a.symbol()[0] != b.symbol()[0]),
            OP::LShift => assert(a.symbol()[0] != b.symbol()[0]),
            OP::RShift => assert(a.symbol()[0] != b.symbol()[0]),
            OP::Ne => assert(a.symbol()[0] != b.symbol()[0]),
            OP::Gt => assert(a.symbol().len() != b.symbol().len()),
            OP::Lt => assert(a.symbol().len() != b.symbol().len()),
            OP::Ge => assert(a.symbol()[0] != b.symbol()[0]),
            OP::Le => assert(a.symbol()[0] != b.symbol()[0]),
            OP::AddEq => assert(a.symbol()[0] != b.symbol()[0]),
            OP::SubEq => assert(a.symbol()[0] != b.symbol()[0]),
            OP::MulEq => assert(a.symbol()[0] != b.symbol()[0]),
            OP::DivEq => assert(a.symbol()[0] != b.symbol()[0]),
            OP::ModEq => assert(a.symbol()[0] != b.symbol()[0]),
            OP::XorEq => assert(a.symbol()[0] != b.symbol()[0]),
            OP::OrEq => assert(a.symbol()[0] != b.symbol()[0]),
            OP::AndEq => assert(a.symbol()[0] != b.symbol()[0]),
            OP::InvEq => assert(a.symbol()[0] != b.symbol()[0]),
            OP::LShiftEq => assert(a.symbol().len() != b.symbol().len()),
            OP::RShiftEq => assert(a.symbol().len() != b.symbol().len()),
            OP::Eq => {},
        },
        OP::Ne => match b {
            OP::Add => assert(a.symbol().len() != b.symbol().len()),
            OP::Sub => assert(a.symbol().len() != b.symbol().len()),
            OP::Mul => assert(a.symbol().len() != b.symbol().len()),
            OP::Div => assert(a.symbol().len() != b.symbol().len()),
            OP::Mod => assert(a.symbol().len() != b.symbol().len()),
            OP::Xor => assert(a.symbol().len() != b.symbol().len()),
            OP::Or => assert(a.symbol().len() != b.symbol().len()),
            OP::And => assert(a.symbol().len() != b.symbol().len()),
            OP::FloorDiv => assert(a.symbol()[0] != b.symbol()[0]),
            OP::Pow => assert(a.symbol()[0] != b.symbol()[0]),
            OP::LShift => assert(a.symbol()[0] != b.symbol()[0]),
            OP::RShift => assert(a.symbol()[0] != b.symbol()[0]),
            OP::Eq => assert(a.symbol()[0] != b.symbol()[0]),
            OP::Gt => assert(a.symbol().len() != b.symbol().len()),
            OP::Lt => assert(a.symbol().len() != b.symbol().len()),
            OP::Ge => assert(a.symbol()[0] != b.symbol()[0]),
            OP::Le => assert(a.symbol()[0] != b.symbol()[0]),
            OP::AddEq => assert(a.symbol()[0] != b.symbol()[0]),
            OP::SubEq => assert(a.symbol()[0] != b.symbol()[0]),
            OP::MulEq => assert(a.symbol()[0] != b.symbol()[0]),
            OP::DivEq => assert(a.symbol()[0] != b.symbol()[0]),
            OP::ModEq => assert(a.symbol()[0] != b.symbol()[0]),
            OP::XorEq => assert(a.symbol()[0] != b.symbol()[0]),
            OP::OrEq => assert(a.symbol()[0] != b.symbol()[0]),
            OP::AndEq => assert(a.symbol()[0] != b.symbol()[0]),
            OP::InvEq => assert(a.symbol()[0] != b.symbol()[0]),
            OP::LShiftEq => assert(a.symbol().len() != b.symbol().len()),
            OP::RShiftEq => assert(a.symbol().len() != b.symbol().len()),
            OP::Ne => {},
        },
        OP::Gt => match b {
            OP::Add => assert(a.symbol()[0] != b.symbol()[0]),
            OP::Sub => assert(a.symbol()[0] != b.symbol()[0]),
            OP::Mul => assert(a.symbol()[0] != b.symbol()[0]),
            OP::Div => assert(a.symbol()[0] != b.symbol()[0]),
            OP::Mod => assert(a.symbol()[0] != b.symbol()[0]),
            OP::Xor => assert(a.symbol()[0] != b.symbol()[0]),
            OP::Or => assert(a.symbol()[0] != b.symbol()[0]),
            OP::And => assert(a.symbol()[0] != b.symbol()[0]),
            OP::FloorDiv => assert(a.symbol().len() != b.symbol().len()),
            OP::Pow => assert(a.symbol().len() != b.symbol().len()),
            OP::LShift => assert(a.symbol().len() != b.symbol().len()),
            OP::RShift => assert(a.symbol().len() != b.symbol().len()),
            OP::Eq => assert(a.symbol().len() != b.symbol().len()),
            OP::Ne => assert(a.symbol().len() != b.symbol().len()),
            OP::Lt => assert(a.symbol()[0] != b.symbol()[0]),
            OP::Ge => assert(a.symbol().len() != b.symbol().len()),
            OP::Le => assert(a.symbol().len() != b.symbol().len()),
            OP::AddEq => assert(a.symbol().len() != b.symbol().len()),
            OP::SubEq => assert(a.symbol().len() != b.symbol().len()),
            OP::MulEq => assert(a.symbol().len() != b.symbol().len()),
            OP::DivEq => assert(a.symbol().len() != b.symbol().len()),
            OP::ModEq => assert(a.symbol().len() != b.symbol().len()),
            OP::XorEq => assert(a.symbol().len() != b.symbol().len()),
            OP::OrEq => assert(a.symbol().len() != b.symbol().len()),
            OP::AndEq => assert(a.symbol().len() != b.symbol().len()),
            OP::InvEq => assert(a.symbol().len() != b.symbol().len()),
            OP::LShiftEq => assert(a.symbol().len() != b.symbol().len()),
            OP::RShiftEq => assert(a.symbol().len() != b.symbol().len()),
            OP::Gt => {},
        },
        OP::Lt => match b {
            OP::Add => assert(a.symbol()[0] != b.symbol()[0]),
            OP::Sub => assert(a.symbol()[0] != b.symbol()[0]),
            OP::Mul => assert(a.symbol()[0] != b.symbol()[0]),
            OP::Div => assert(a.symbol()[0] != b.symbol()[0]),
            OP::Mod => assert(a.symbol()[0] != b.symbol()[0]),
            OP::Xor => assert(a.symbol()[0] != b.symbol()[0]),
            OP::Or => assert(a.symbol()[0] != b.symbol()[0]),
            OP::And => assert(a.symbol()[0] != b.symbol()[0]),
            OP::FloorDiv => assert(a.symbol().len() != b.symbol().len()),
            OP::Pow => assert(a.symbol().len() != b.symbol().len()),
            OP::LShift => assert(a.symbol().len() != b.symbol().len()),
            OP::RShift => assert(a.symbol().len() != b.symbol().len()),
            OP::Eq => assert(a.symbol().len() != b.symbol().len()),
            OP::Ne => assert(a.symbol().len() != b.symbol().len()),
            OP::Gt => assert(a.symbol()[0] != b.symbol()[0]),
            OP::Ge => assert(a.symbol().len() != b.symbol().len()),
            OP::Le => assert(a.symbol().len() != b.symbol().len()),
            OP::AddEq => assert(a.symbol().len() != b.symbol().len()),
            OP::SubEq => assert(a.symbol().len() != b.symbol().len()),
            OP::MulEq => assert(a.symbol().len() != b.symbol().len()),
            OP::DivEq => assert(a.symbol().len() != b.symbol().len()),
            OP::ModEq => assert(a.symbol().len() != b.symbol().len()),
            OP::XorEq => assert(a.symbol().len() != b.symbol().len()),
            OP::OrEq => assert(a.symbol().len() != b.symbol().len()),
            OP::AndEq => assert(a.symbol().len() != b.symbol().len()),
            OP::InvEq => assert(a.symbol().len() != b.symbol().len()),
            OP::LShiftEq => assert(a.symbol().len() != b.symbol().len()),
            OP::RShiftEq => assert(a.symbol().len() != b.symbol().len()),
            OP::Lt => {},
        },
        OP::Ge => match b {
            OP::Add => assert(a.symbol().len() != b.symbol().len()),
            OP::Sub => assert(a.symbol().len() != b.symbol().len()),
            OP::Mul => assert(a.symbol().len() != b.symbol().len()),
            OP::Div => assert(a.symbol().len() != b.symbol().len()),
            OP::Mod => assert(a.symbol().len() != b.symbol().len()),
            OP::Xor => assert(a.symbol().len() != b.symbol().len()),
            OP::Or => assert(a.symbol().len() != b.symbol().len()),
            OP::And => assert(a.symbol().len() != b.symbol().len()),
            OP::FloorDiv => assert(a.symbol()[0] != b.symbol()[0]),
            OP::Pow => assert(a.symbol()[0] != b.symbol()[0]),
            OP::LShift => assert(a.symbol()[0] != b.symbol()[0]),
            OP::RShift => assert(a.symbol()[1] != b.symbol()[1]),
            OP::Eq => assert(a.symbol()[0] != b.symbol()[0]),
            OP::Ne => assert(a.symbol()[0] != b.symbol()[0]),
            OP::Gt => assert(a.symbol().len() != b.symbol().len()),
            OP::Lt => assert(a.symbol().len() != b.symbol().len()),
            OP::Le => assert(a.symbol()[0] != b.symbol()[0]),
            OP::AddEq => assert(a.symbol()[0] != b.symbol()[0]),
            OP::SubEq => assert(a.symbol()[0] != b.symbol()[0]),
            OP::MulEq => assert(a.symbol()[0] != b.symbol()[0]),
            OP::DivEq => assert(a.symbol()[0] != b.symbol()[0]),
            OP::ModEq => assert(a.symbol()[0] != b.symbol()[0]),
            OP::XorEq => assert(a.symbol()[0] != b.symbol()[0]),
            OP::OrEq => assert(a.symbol()[0] != b.symbol()[0]),
            OP::AndEq => assert(a.symbol()[0] != b.symbol()[0]),
            OP::InvEq => assert(a.symbol()[0] != b.symbol()[0]),
            OP::LShiftEq => assert(a.symbol().len() != b.symbol().len()),
            OP::RShiftEq => assert(a.symbol().len() != b.symbol().len()),
            OP::Ge => {},
        },
        OP::Le => match b {
            OP::Add => assert(a.symbol().len() != b.symbol().len()),
            OP::Sub => assert(a.symbol().len() != b.symbol().len()),
            OP::Mul => assert(a.symbol().len() != b.symbol().len()),
            OP::Div => assert(a.symbol().len() != b.symbol().len()),
            OP::Mod => assert(a.symbol().len() != b.symbol().len()),
            OP::Xor => assert(a.symbol().len() != b.symbol().len()),
            OP::Or => assert(a.symbol().len() != b.symbol().len()),
            OP::And => assert(a.symbol().len() != b.symbol().len()),
            OP::FloorDiv => assert(a.symbol()[0] != b.symbol()[0]),
            OP::Pow => assert(a.symbol()[0] != b.symbol()[0]),
            OP::LShift => assert(a.symbol()[1] != b.symbol()[1]),
            OP::RShift => assert(a.symbol()[0] != b.symbol()[0]),
            OP::Eq => assert(a.symbol()[0] != b.symbol()[0]),
            OP::Ne => assert(a.symbol()[0] != b.symbol()[0]),
            OP::Gt => assert(a.symbol().len() != b.symbol().len()),
            OP::Lt => assert(a.symbol().len() != b.symbol().len()),
            OP::Ge => assert(a.symbol()[0] != b.symbol()[0]),
            OP::AddEq => assert(a.symbol()[0] != b.symbol()[0]),
            OP::SubEq => assert(a.symbol()[0] != b.symbol()[0]),
            OP::MulEq => assert(a.symbol()[0] != b.symbol()[0]),
            OP::DivEq => assert(a.symbol()[0] != b.symbol()[0]),
            OP::ModEq => assert(a.symbol()[0] != b.symbol()[0]),
            OP::XorEq => assert(a.symbol()[0] != b.symbol()[0]),
            OP::OrEq => assert(a.symbol()[0] != b.symbol()[0]),
            OP::AndEq => assert(a.symbol()[0] != b.symbol()[0]),
            OP::InvEq => assert(a.symbol()[0] != b.symbol()[0]),
            OP::LShiftEq => assert(a.symbol().len() != b.symbol().len()),
            OP::RShiftEq => assert(a.symbol().len() != b.symbol().len()),
            OP::Le => {},
        },
        OP::AddEq => match b {
            OP::Add => assert(a.symbol().len() != b.symbol().len()),
            OP::Sub => assert(a.symbol().len() != b.symbol().len()),
            OP::Mul => assert(a.symbol().len() != b.symbol().len()),
            OP::Div => assert(a.symbol().len() != b.symbol().len()),
            OP::Mod => assert(a.symbol().len() != b.symbol().len()),
            OP::Xor => assert(a.symbol().len() != b.symbol().len()),
            OP::Or => assert(a.symbol().len() != b.symbol().len()),
            OP::And => assert(a.symbol().len() != b.symbol().len()),
            OP::FloorDiv => assert(a.symbol()[0] != b.symbol()[0]),
            OP::Pow => assert(a.symbol()[0] != b.symbol()[0]),
            OP::LShift => assert(a.symbol()[0] != b.symbol()[0]),
            OP::RShift => assert(a.symbol()[0] != b.symbol()[0]),
            OP::Eq => assert(a.symbol()[0] != b.symbol()[0]),
            OP::Ne => assert(a.symbol()[0] != b.symbol()[0]),
            OP::Gt => assert(a.symbol().len() != b.symbol().len()),
            OP::Lt => assert(a.symbol().len() != b.symbol().len()),
            OP::Ge => assert(a.symbol()[0] != b.symbol()[0]),
            OP::Le => assert(a.symbol()[0] != b.symbol()[0]),
            OP::SubEq => assert(a.symbol()[0] != b.symbol()[0]),
            OP::MulEq => assert(a.symbol()[0] != b.symbol()[0]),
            OP::DivEq => assert(a.symbol()[0] != b.symbol()[0]),
            OP::ModEq => assert(a.symbol()[0] != b.symbol()[0]),
            OP::XorEq => assert(a.symbol()[0] != b.symbol()[0]),
            OP::OrEq => assert(a.symbol()[0] != b.symbol()[0]),
            OP::AndEq => assert(a.symbol()[0] != b.symbol()[0]),
            OP::InvEq => assert(a.symbol()[0] != b.symbol()[0]),
            OP::LShiftEq => assert(a.symbol().len() != b.symbol().len()),
            OP::RShiftEq => assert(a.symbol().len() != b.symbol().len()),
            OP::AddEq => {},
        },
        OP::SubEq => match b {
            OP::Add => assert(a.symbol().len() != b.symbol().len()),
            OP::Sub => assert(a.symbol().len() != b.symbol().len()),
            OP::Mul => assert(a.symbol().len() != b.symbol().len()),
            OP::Div => assert(a.symbol().len() != b.symbol().len()),
            OP::Mod => assert(a.symbol().len() != b.symbol().len()),
            OP::Xor => assert(a.symbol().len() != b.symbol().len()),
            OP::Or => assert(a.symbol().len() != b.symbol().len()),
            OP::And => assert(a.symbol().len() != b.symbol().len()),
            OP::FloorDiv => assert(a.symbol()[0] != b.symbol()[0]),
            OP::Pow => assert(a.symbol()[0] != b.symbol()[0]),
            OP::LShift => assert(a.symbol()[0] != b.symbol()[0]),
            OP::RShift => assert(a.symbol()[0] != b.symbol()[0]),
            OP::Eq => assert(a.symbol()[0] != b.symbol()[0]),
            OP::Ne => assert(a.symbol()[0] != b.symbol()[0]),
            OP::Gt => assert(a.symbol().len() != b.symbol().len()),
            OP::Lt => assert(a.symbol().len() != b.symbol().len()),
            OP::Ge => assert(a.symbol()[0] != b.symbol()[0]),
            OP::Le => assert(a.symbol()[0] != b.symbol()[0]),
            OP::AddEq => assert(a.symbol()[0] != b.symbol()[0]),
            OP::MulEq => assert(a.symbol()[0] != b.symbol()[0]),
            OP::DivEq => assert(a.symbol()[0] != b.symbol()[0]),
            OP::ModEq => assert(a.symbol()[0] != b.symbol()[0]),
            OP::XorEq => assert(a.symbol()[0] != b.symbol()[0]),
            OP::OrEq => assert(a.symbol()[0] != b.symbol()[0]),
            OP::AndEq => assert(a.symbol()[0] != b.symbol()[0]),
            OP::InvEq => assert(a.symbol()[0] != b.symbol()[0]),
            OP::LShiftEq => assert(a.symbol().len() != b.symbol().len()),
            OP::RShiftEq => assert(a.symbol().len() != b.symbol().len()),
            OP::SubEq => {},
        },
        OP::MulEq => match b {
            OP::Add => assert(a.symbol().len() != b.symbol().len()),
            OP::Sub => assert(a.symbol().len() != b.symbol().len()),
            OP::Mul => assert(a.symbol().len() != b.symbol().len()),
            OP::Div => assert(a.symbol().len() != b.symbol().len()),
            OP::Mod => assert(a.symbol().len() != b.symbol().len()),
            OP::Xor => assert(a.symbol().len() != b.symbol().len()),
            OP::Or => assert(a.symbol().len() != b.symbol().len()),
            OP::And => assert(a.symbol().len() != b.symbol().len()),
            OP::FloorDiv => assert(a.symbol()[0] != b.symbol()[0]),
            OP::Pow => assert(a.symbol()[1] != b.symbol()[1]),
            OP::LShift => assert(a.symbol()[0] != b.symbol()[0]),
            OP::RShift => assert(a.symbol()[0] != b.symbol()[0]),
            OP::Eq => assert(a.symbol()[0] != b.symbol()[0]),
            OP::Ne => assert(a.symbol()[0] != b.symbol()[0]),
            OP::Gt => assert(a.symbol().len() != b.symbol().len()),
            OP::Lt => assert(a.symbol().len() != b.symbol().len()),
            OP::Ge => assert(a.symbol()[0] != b.symbol()[0]),
            OP::Le => assert(a.symbol()[0] != b.symbol()[0]),
            OP::AddEq => assert(a.symbol()[0] != b.symbol()[0]),
            OP::SubEq => assert(a.symbol()[0] != b.symbol()[0]),
            OP::DivEq => assert(a.symbol()[0] != b.symbol()[0]),
            OP::ModEq => assert(a.symbol()[0] != b.symbol()[0]),
            OP::XorEq => assert(a.symbol()[0] != b.symbol()[0]),
            OP::OrEq => assert(a.symbol()[0] != b.symbol()[0]),
            OP::AndEq => assert(a.symbol()[0] != b.symbol()[0]),
            OP::InvEq => assert(a.symbol()[0] != b.symbol()[0]),
            OP::LShiftEq => assert(a.symbol().len() != b.symbol().len()),
            OP::RShiftEq => assert(a.symbol().len() != b.symbol().len()),
            OP::MulEq => {},
        },
        OP::DivEq => match b {
            OP::Add => assert(a.symbol().len() != b.symbol().len()),
            OP::Sub => assert(a.symbol().len() != b.symbol().len()),
            OP::Mul => assert(a.symbol().len() != b.symbol().len()),
            OP::Div => assert(a.symbol().len() != b.symbol().len()),
            OP::Mod => assert(a.symbol().len() != b.symbol().len()),
            OP::Xor => assert(a.symbol().len() != b.symbol().len()),
            OP::Or => assert(a.symbol().len() != b.symbol().len()),
            OP::And => assert(a.symbol().len() != b.symbol().len()),
            OP::FloorDiv => assert(a.symbol()[1] != b.symbol()[1]),
            OP::Pow => assert(a.symbol()[0] != b.symbol()[0]),
            OP::LShift => assert(a.symbol()[0] != b.symbol()[0]),
            OP::RShift => assert(a.symbol()[0] != b.symbol()[0]),
            OP::Eq => assert(a.symbol()[0] != b.symbol()[0]),
            OP::Ne => assert(a.symbol()[0] != b.symbol()[0]),
            OP::Gt => assert(a.symbol().len() != b.symbol().len()),
            OP::Lt => assert(a.symbol().len() != b.symbol().len()),
            OP::Ge => assert(a.symbol()[0] != b.symbol()[0]),
            OP::Le => assert(a.symbol()[0] != b.symbol()[0]),
            OP::AddEq => assert(a.symbol()[0] != b.symbol()[0]),
            OP::SubEq => assert(a.symbol()[0] != b.symbol()[0]),
            OP::MulEq => assert(a.symbol()[0] != b.symbol()[0]),
            OP::ModEq => assert(a.symbol()[0] != b.symbol()[0]),
            OP::XorEq => assert(a.symbol()[0] != b.symbol()[0]),
            OP::OrEq => assert(a.symbol()[0] != b.symbol()[0]),
            OP::AndEq => assert(a.symbol()[0] != b.symbol()[0]),
            OP::InvEq => assert(a.symbol()[0] != b.symbol()[0]),
            OP::LShiftEq => assert(a.symbol().len() != b.symbol().len()),
            OP::RShiftEq => assert(a.symbol().len() != b.symbol().len()),
            OP::DivEq => {},
        },
        OP::ModEq => match b {
            OP::Add => assert(a.symbol().len() != b.symbol().len()),
            OP::Sub => assert(a.symbol().len() != b.symbol().len()),
            OP::Mul => assert(a.symbol().len() != b.symbol().len()),
            OP::Div => assert(a.symbol().len() != b.symbol().len()),
            OP::Mod => assert(a.symbol().len() != b.symbol().len()),
            OP::Xor => assert(a.symbol().len() != b.symbol().len()),
            OP::Or => assert(a.symbol().len() != b.symbol().len()),
            OP::And => assert(a.symbol().len() != b.symbol().len()),
            OP::FloorDiv => assert(a.symbol()[0] != b.symbol()[0]),
            OP::Pow => assert(a.symbol()[0] != b.symbol()[0]),
            OP::LShift => assert(a.symbol()[0] != b.symbol()[0]),
            OP::RShift => assert(a.symbol()[0] != b.symbol()[0]),
            OP::Eq => assert(a.symbol()[0] != b.symbol()[0]),
            OP::Ne => assert(a.symbol()[0] != b.symbol()[0]),
            OP::Gt => assert(a.symbol().len() != b.symbol().len()),
            OP::Lt => assert(a.symbol().len() != b.symbol().len()),
            OP::Ge => assert(a.symbol()[0] != b.symbol()[0]),
            OP::Le => assert(a.symbol()[0] != b.symbol()[0]),
            OP::AddEq => assert(a.symbol()[0] != b.symbol()[0]),
            OP::SubEq => assert(a.symbol()[0] != b.symbol()[0]),
            OP::MulEq => assert(a.symbol()[0] != b.symbol()[0]),
            OP::DivEq => assert(a.symbol()[0] != b.symbol()[0]),
            OP::XorEq => assert(a.symbol()[0] != b.symbol()[0]),
            OP::OrEq => assert(a.symbol()[0] != b.symbol()[0]),
            OP::AndEq => assert(a.symbol()[0] != b.symbol()[0]),
            OP::InvEq => assert(a.symbol()[0] != b.symbol()[0]),
            OP::LShiftEq => assert(a.symbol().len() != b.symbol().len()),
            OP::RShiftEq => assert(a.symbol().len() != b.symbol().len()),
            OP::ModEq => {},
        },
        OP::XorEq => match b {
            OP::Add => assert(a.symbol().len() != b.symbol().len()),
            OP::Sub => assert(a.symbol().len() != b.symbol().len()),
            OP::Mul => assert(a.symbol().len() != b.symbol().len()),
            OP::Div => assert(a.symbol().len() != b.symbol().len()),
            OP::Mod => assert(a.symbol().len() != b.symbol().len()),
            OP::Xor => assert(a.symbol().len() != b.symbol().len()),
            OP::Or => assert(a.symbol().len() != b.symbol().len()),
            OP::And => assert(a.symbol().len() != b.symbol().len()),
            OP::FloorDiv => assert(a.symbol()[0] != b.symbol()[0]),
            OP::Pow => assert(a.symbol()[0] != b.symbol()[0]),
            OP::LShift => assert(a.symbol()[0] != b.symbol()[0]),
            OP::RShift => assert(a.symbol()[0] != b.symbol()[0]),
            OP::Eq => assert(a.symbol()[0] != b.symbol()[0]),
            OP::Ne => assert(a.symbol()[0] != b.symbol()[0]),
            OP::Gt => assert(a.symbol().len() != b.symbol().len()),
            OP::Lt => assert(a.symbol().len() != b.symbol().len()),
            OP::Ge => assert(a.symbol()[0] != b.symbol()[0]),
            OP::Le => assert(a.symbol()[0] != b.symbol()[0]),
            OP::AddEq => assert(a.symbol()[0] != b.symbol()[0]),
            OP::SubEq => assert(a.symbol()[0] != b.symbol()[0]),
            OP::MulEq => assert(a.symbol()[0] != b.symbol()[0]),
            OP::DivEq => assert(a.symbol()[0] != b.symbol()[0]),
            OP::ModEq => assert(a.symbol()[0] != b.symbol()[0]),
            OP::OrEq => assert(a.symbol()[0] != b.symbol()[0]),
            OP::AndEq => assert(a.symbol()[0] != b.symbol()[0]),
            OP::InvEq => assert(a.symbol()[0] != b.symbol()[0]),
            OP::LShiftEq => assert(a.symbol().len() != b.symbol().len()),
            OP::RShiftEq => assert(a.symbol().len() != b.symbol().len()),
            OP::XorEq => {},
        },
        OP::OrEq => match b {
            OP::Add => assert(a.symbol().len() != b.symbol().len()),
            OP::Sub => assert(a.symbol().len() != b.symbol().len()),
            OP::Mul => assert(a.symbol().len() != b.symbol().len()),
            OP::Div => assert(a.symbol().len() != b.symbol().len()),
            OP::Mod => assert(a.symbol().len() != b.symbol().len()),
            OP::Xor => assert(a.symbol().len() != b.symbol().len()),
            OP::Or => assert(a.symbol().len() != b.symbol().len()),
            OP::And => assert(a.symbol().len() != b.symbol().len()),
            OP::FloorDiv => assert(a.symbol()[0] != b.symbol()[0]),
            OP::Pow => assert(a.symbol()[0] != b.symbol()[0]),
            OP::LShift => assert(a.symbol()[0] != b.symbol()[0]),
            OP::RShift => assert(a.symbol()[0] != b.symbol()[0]),
            OP::Eq => assert(a.symbol()[0] != b.symbol()[0]),
            OP::Ne => assert(a.symbol()[0] != b.symbol()[0]),
            OP::Gt => assert(a.symbol().len() != b.symbol().len()),
            OP::Lt => assert(a.symbol().len() != b.symbol().len()),
            OP::Ge => assert(a.symbol()[0] != b.symbol()[0]),
            OP::Le => assert(a.symbol()[0] != b.symbol()[0]),
            OP::AddEq => assert(a.symbol()[0] != b.symbol()[0]),
            OP::SubEq => assert(a.symbol()[0] != b.symbol()[0]),
            OP::MulEq => assert(a.symbol()[0] != b.symbol()[0]),
            OP::DivEq => assert(a.symbol()[0] != b.symbol()[0]),
            OP::ModEq => assert(a.symbol()[0] != b.symbol()[0]),
            OP::XorEq => assert(a.symbol()[0] != b.symbol()[0]),
            OP::AndEq => assert(a.symbol()[0] != b.symbol()[0]),
            OP::InvEq => assert(a.symbol()[0] != b.symbol()[0]),
            OP::LShiftEq => assert(a.symbol().len() != b.symbol().len()),
            OP::RShiftEq => assert(a.symbol().len() != b.symbol().len()),
            OP::OrEq => {},
        },
        OP::AndEq => match b {
            OP::Add => assert(a.symbol().len() != b.symbol().len()),
            OP::Sub => assert(a.symbol().len() != b.symbol().len()),
            OP::Mul => assert(a.symbol().len() != b.symbol().len()),
            OP::Div => assert(a.symbol().len() != b.symbol().len()),
            OP::Mod => assert(a.symbol().len() != b.symbol().len()),
            OP::Xor => assert(a.symbol().len() != b.symbol().len()),
            OP::Or => assert(a.symbol().len() != b.symbol().len()),
            OP::And => assert(a.symbol().len() != b.symbol().len()),
            OP::FloorDiv => assert(a.symbol()[0] != b.symbol()[0]),
            OP::Pow => assert(a.symbol()[0] != b.symbol()[0]),
            OP::LShift => assert(a.symbol()[0] != b.symbol()[0]),
            OP::RShift => assert(a.symbol()[0] != b.symbol()[0]),
            OP::Eq => assert(a.symbol()[0] != b.symbol()[0]),
            OP::Ne => assert(a.symbol()[0] != b.symbol()[0]),
            OP::Gt => assert(a.symbol().len() != b.symbol().len()),
            OP::Lt => assert(a.symbol().len() != b.symbol().len()),
            OP::Ge => assert(a.symbol()[0] != b.symbol()[0]),
            OP::Le => assert(a.symbol()[0] != b.symbol()[0]),
            OP::AddEq => assert(a.symbol()[0] != b.symbol()[0]),
            OP::SubEq => assert(a.symbol()[0] != b.symbol()[0]),
            OP::MulEq => assert(a.symbol()[0] != b.symbol()[0]),
            OP::DivEq => assert(a.symbol()[0] != b.symbol()[0]),
            OP::ModEq => assert(a.symbol()[0] != b.symbol()[0]),
            OP::XorEq => assert(a.symbol()[0] != b.symbol()[0]),
            OP::OrEq => assert(a.symbol()[0] != b.symbol()[0]),
            OP::InvEq => assert(a.symbol()[0] != b.symbol()[0]),
            OP::LShiftEq => assert(a.symbol().len() != b.symbol().len()),
            OP::RShiftEq => assert(a.symbol().len() != b.symbol().len()),
            OP::AndEq => {},
        },
        OP::InvEq => match b {
            OP::Add => assert(a.symbol().len() != b.symbol().len()),
            OP::Sub => assert(a.symbol().len() != b.symbol().len()),
            OP::Mul => assert(a.symbol().len() != b.symbol().len()),
            OP::Div => assert(a.symbol().len() != b.symbol().len()),
            OP::Mod => assert(a.symbol().len() != b.symbol().len()),
            OP::Xor => assert(a.symbol().len() != b.symbol().len()),
            OP::Or => assert(a.symbol().len() != b.symbol().len()),
            OP::And => assert(a.symbol().len() != b.symbol().len()),
            OP::FloorDiv => assert(a.symbol()[0] != b.symbol()[0]),
            OP::Pow => assert(a.symbol()[0] != b.symbol()[0]),
            OP::LShift => assert(a.symbol()[0] != b.symbol()[0]),
            OP::RShift => assert(a.symbol()[0] != b.symbol()[0]),
            OP::Eq => assert(a.symbol()[0] != b.symbol()[0]),
            OP::Ne => assert(a.symbol()[0] != b.symbol()[0]),
            OP::Gt => assert(a.symbol().len() != b.symbol().len()),
            OP::Lt => assert(a.symbol().len() != b.symbol().len()),
            OP::Ge => assert(a.symbol()[0] != b.symbol()[0]),
            OP::Le => assert(a.symbol()[0] != b.symbol()[0]),
            OP::AddEq => assert(a.symbol()[0] != b.symbol()[0]),
            OP::SubEq => assert(a.symbol()[0] != b.symbol()[0]),
            OP::MulEq => assert(a.symbol()[0] != b.symbol()[0]),
            OP::DivEq => assert(a.symbol()[0] != b.symbol()[0]),
            OP::ModEq => assert(a.symbol()[0] != b.symbol()[0]),
            OP::XorEq => assert(a.symbol()[0] != b.symbol()[0]),
            OP::OrEq => assert(a.symbol()[0] != b.symbol()[0]),
            OP::AndEq => assert(a.symbol()[0] != b.symbol()[0]),
            OP::LShiftEq => assert(a.symbol().len() != b.symbol().len()),
            OP::RShiftEq => assert(a.symbol().len() != b.symbol().len()),
            OP::InvEq => {},
        },
        OP::LShiftEq => match b {
            OP::Add => assert(a.symbol().len() != b.symbol().len()),
            OP::Sub => assert(a.symbol().len() != b.symbol().len()),
            OP::Mul => assert(a.symbol().len() != b.symbol().len()),
            OP::Div => assert(a.symbol().len() != b.symbol().len()),
            OP::Mod => assert(a.symbol().len() != b.symbol().len()),
            OP::Xor => assert(a.symbol().len() != b.symbol().len()),
            OP::Or => assert(a.symbol().len() != b.symbol().len()),
            OP::And => assert(a.symbol().len() != b.symbol().len()),
            OP::FloorDiv => assert(a.symbol().len() != b.symbol().len()),
            OP::Pow => assert(a.symbol().len() != b.symbol().len()),
            OP::LShift => assert(a.symbol().len() != b.symbol().len()),
            OP::RShift => assert(a.symbol().len() != b.symbol().len()),
            OP::Eq => assert(a.symbol().len() != b.symbol().len()),
            OP::Ne => assert(a.symbol().len() != b.symbol().len()),
            OP::Gt => assert(a.symbol().len() != b.symbol().len()),
            OP::Lt => assert(a.symbol().len() != b.symbol().len()),
            OP::Ge => assert(a.symbol().len() != b.symbol().len()),
            OP::Le => assert(a.symbol().len() != b.symbol().len()),
            OP::AddEq => assert(a.symbol().len() != b.symbol().len()),
            OP::SubEq => assert(a.symbol().len() != b.symbol().len()),
            OP::MulEq => assert(a.symbol().len() != b.symbol().len()),
            OP::DivEq => assert(a.symbol().len() != b.symbol().len()),
            OP::ModEq => assert(a.symbol().len() != b.symbol().len()),
            OP::XorEq => assert(a.symbol().len() != b.symbol().len()),
            OP::OrEq => assert(a.symbol().len() != b.symbol().len()),
            OP::AndEq => assert(a.symbol().len() != b.symbol().len()),
            OP::InvEq => assert(a.symbol().len() != b.symbol().len()),
            OP::RShiftEq => assert(a.symbol()[0] != b.symbol()[0]),
            OP::LShiftEq => {},
        },
        OP::RShiftEq => match b {
            OP::Add => assert(a.symbol().len() != b.symbol().len()),
            OP::Sub => assert(a.symbol().len() != b.symbol().len()),
            OP::Mul => assert(a.symbol().len() != b.symbol().len()),
            OP::Div => assert(a.symbol().len() != b.symbol().len()),
            OP::Mod => assert(a.symbol().len() != b.symbol().len()),
            OP::Xor => assert(a.symbol().len() != b.symbol().len()),
            OP::Or => assert(a.symbol().len() != b.symbol().len()),
            OP::And => assert(a.symbol().len() != b.symbol().len()),
            OP::FloorDiv => assert(a.symbol().len() != b.symbol().len()),
            OP::Pow => assert(a.symbol().len() != b.symbol().len()),
            OP::LShift => assert(a.symbol().len() != b.symbol().len()),
            OP::RShift => assert(a.symbol().len() != b.symbol().len()),
            OP::Eq => assert(a.symbol().len() != b.symbol().len()),
            OP::Ne => assert(a.symbol().len() != b.symbol().len()),
            OP::Gt => assert(a.symbol().len() != b.symbol().len()),
            OP::Lt => assert(a.symbol().len() != b.symbol().len()),
            OP::Ge => assert(a.symbol().len() != b.symbol().len()),
            OP::Le => assert(a.symbol().len() != b.symbol().len()),
            OP::AddEq => assert(a.symbol().len() != b.symbol().len()),
            OP::SubEq => assert(a.symbol().len() != b.symbol().len()),
            OP::MulEq => assert(a.symbol().len() != b.symbol().len()),
            OP::DivEq => assert(a.symbol().len() != b.symbol().len()),
            OP::ModEq => assert(a.symbol().len() != b.symbol().len()),
            OP::XorEq => assert(a.symbol().len() != b.symbol().len()),
            OP::OrEq => assert(a.symbol().len() != b.symbol().len()),
            OP::AndEq => assert(a.symbol().len() != b.symbol().len()),
            OP::InvEq => assert(a.symbol().len() != b.symbol().len()),
            OP::LShiftEq => assert(a.symbol()[0] != b.symbol()[0]),
            OP::RShiftEq => {},
        },
    }
}

/// Law: reading back the spelling of any operator gives that operator.
pub proof fn law_spelling_roundtrip(op: OP)
    ensures
        OP::spelled(op.symbol()) == Some(op),
{
    let c = choose|x: OP| x.symbol() == op.symbol();
    if c != op {
        lemma_symbols_distinct(c, op);
    }
}
/// Each Python operator text reads as the operator it names: `+` as
/// addition, `-` as subtraction, `==` as equality, `+=` as in-place
/// addition, and so on for every operator.
pub proof fn law_python_operator_texts()
    ensures
        OP::spelled("+"@) == Some(OP::Add),
        OP::spelled("-"@) == Some(OP::Sub),
        OP::spelled("*"@) == Some(OP::Mul),
        OP::spelled("/"@) == Some(OP::Div),
        OP::spelled("%"@) == Some(OP::Mod),
        OP::spelled("^"@) == Some(OP::Xor),
        OP::spelled("|"@) == Some(OP::Or),
        OP::spelled("&"@) == Some(OP::And),
        OP::spelled("//"@) == Some(OP::FloorDiv),
        OP::spelled("**"@) == Some(OP::Pow),
        OP::spelled("<<"@) == Some(OP::LShift),
        OP::spelled(">>"@) == Some(OP::RShift),
        OP::spelled("=="@) == Some(OP::Eq),
        OP::spelled("!="@) == Some(OP::Ne),
        OP::spelled(">"@) == Some(OP::Gt),
        OP::spelled("<"@) == Some(OP::Lt),
        OP::spelled(">="@) == Some(OP::Ge),
        OP::spelled("<="@) == Some(OP::Le),
        OP::spelled("+="@) == Some(OP::AddEq),
        OP::spelled("-="@) == Some(OP::SubEq),
        OP::spelled("*="@) == Some(OP::MulEq),
        OP::spelled("/="@) == Some(OP::DivEq),
        OP::spelled("%="@) == Some(OP::ModEq),
        OP::spelled("^="@) == Some(OP::XorEq),
        OP::spelled("|="@) == Some(OP::OrEq),
        OP::spelled("&="@) == Some(OP::AndEq),
        OP::spelled("~="@) == Some(OP::InvEq),
        OP::spelled("<<="@) == Some(OP::LShiftEq),
        OP::spelled(">>="@) == Some(OP::RShiftEq),
{
    law_spelling_roundtrip(OP::Add);
    law_spelling_roundtrip(OP::Sub);
    law_spelling_roundtrip(OP::Mul);
    law_spelling_roundtrip(OP::Div);
    law_spelling_roundtrip(OP::Mod);
    law_spelling_roundtrip(OP::Xor);
    law_spelling_roundtrip(OP::Or);
    law_spelling_roundtrip(OP::And);
    law_spelling_roundtrip(OP::FloorDiv);
    law_spelling_roundtrip(OP::Pow);
    law_spelling_roundtrip(OP::LShift);
    law_spelling_roundtrip(OP::RShift);
    law_spelling_roundtrip(OP::Eq);
    law_spelling_roundtrip(OP::Ne);
    law_spelling_roundtrip(OP::Gt);
    law_spelling_roundtrip(OP::Lt);
    law_spelling_roundtrip(OP::Ge);
    law_spelling_roundtrip(OP::Le);
    law_spelling_roundtrip(OP::AddEq);
    law_spelling_roundtrip(OP::SubEq);
    law_spelling_roundtrip(OP::MulEq);
    law_spelling_roundtrip(OP::DivEq);
    law_spelling_roundtrip(OP::ModEq);
    law_spelling_roundtrip(OP::XorEq);
    law_spelling_roundtrip(OP::OrEq);
    law_spelling_roundtrip(OP::AndEq);
    law_spelling_roundtrip(OP::InvEq);
    law_spelling_roundtrip(OP::LShiftEq);
    law_spelling_roundtrip(OP::RShiftEq);
}

/// Each opcode-name word reads as the kind of the same name, whatever else
/// is read: `contains` as a membership test, `is` as an identity test,
/// `op`, `subscr`, `slice`, `compare` as their kinds; `not`, `negative`,
/// `invert` as the unary kinds.
pub proof fn law_kind_words()
    ensures
        Binary::named("op"@) == Some(Binary::Op),
        Binary::named("subscr"@) == Some(Binary::Subscr),
        Binary::named("slice"@) == Some(Binary::Slice),
        Binary::named("compare"@) == Some(Binary::Compare),
        Binary::named("contains"@) == Some(Binary::In),
        Binary::named("is"@) == Some(Binary::Is),
        Unary::named("not"@) == Some(Unary::Not),
        Unary::named("negative"@) == Some(Unary::Neg),
        Unary::named("invert"@) == Some(Unary::Invert),
{
    reveal_strlit("op");
    reveal_strlit("subscr");
    reveal_strlit("slice");
    reveal_strlit("compare");
    reveal_strlit("contains");
    reveal_strlit("is");
    reveal_strlit("not");
    reveal_strlit("negative");
    reveal_strlit("invert");
    assert("subscr"@.len() != "op"@.len());
    assert("slice"@.len() != "op"@.len());
    assert("slice"@.len() != "subscr"@.len());
    assert("compare"@.len() != "op"@.len());
    assert("compare"@.len() != "subscr"@.len());
    assert("compare"@.len() != "slice"@.len());
    assert("contains"@.len() != "op"@.len());
    assert("contains"@.len() != "subscr"@.len());
    assert("contains"@.len() != "slice"@.len());
    assert("contains"@.len() != "compare"@.len());
    assert("is"@[0] != "op"@[0]);
    assert("is"@.len() != "subscr"@.len());
    assert("is"@.len() != "slice"@.len());
    assert("is"@.len() != "compare"@.len());
    assert("is"@.len() != "contains"@.len());
    assert("negative"@.len() != "not"@.len());
    assert("invert"@.len() != "not"@.len());
    assert("invert"@.len() != "negative"@.len());
}

} // verus!
