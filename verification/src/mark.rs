//! Code-object marks: the text `<code object NAME at ADDR, file "...", line N>`
//! by which a disassembly names each function and class body.

use vstd::prelude::*;
use crate::patterns::{code_mark, match_code_mark};
use crate::text::{all_digits, concat2, is_all_digits, parse_usize, parse_usize_spec};

verus! {

/// Why a mark could not be read.
#[derive(Debug, PartialEq, Eq)]
pub enum MarkError {
    /// The text is not a code-object mark.
    Invalid(String),
    /// The line number of the mark is not a `usize`: it holds a digit that
    /// is not an ASCII digit, or it is too large.
    BadLine(String),
    /// The expression that should hold a mark is not a base value.
    NotBaseValue,
}

impl MarkError {
    /// The message of the error.
    pub fn message(&self) -> (r: String)
        ensures
            self matches MarkError::Invalid(m) ==> r@ == "Invalid function mark: "@ + m@,
            self matches MarkError::BadLine(l) ==> r@ == (if all_digits(l@) {
                "number too large to fit in target type"@
            } else {
                "invalid digit found in string"@
            }),
            self is NotBaseValue ==> r@ == "Expect BaseValue"@,
    {
        match self {
            MarkError::Invalid(m) => concat2("Invalid function mark: ", m.as_str()),
            MarkError::BadLine(l) => if is_all_digits(l.as_str()) {
                String::from_str("number too large to fit in target type")
            } else {
                String::from_str("invalid digit found in string")
            },
            MarkError::NotBaseValue => String::from_str("Expect BaseValue"),
        }
    }
}

/// The name and line number of a code-object mark.
pub fn parse_code_mark(mark: &str) -> (r: Result<(String, usize), MarkError>)
    ensures
        match code_mark(mark@) {
            None => r matches Err(MarkError::Invalid(m)) && m@ == mark@,
            Some((name, line)) => match parse_usize_spec(line) {
                Some(n) => r matches Ok((nm, k)) && nm@ == name && k == n,
                None => r matches Err(MarkError::BadLine(l)) && l@ == line,
            },
        },
{
    match match_code_mark(mark) {
        None => Err(MarkError::Invalid(String::from_str(mark))),
        Some((name, line)) => match parse_usize(line.as_str()) {
            Some(n) => Ok((name, n)),
            None => Err(MarkError::BadLine(line)),
        },
    }
}

} // verus!
