//! The fixed-column block reader: each line of a source line's instructions
//! is cut at byte 42 into its columns and its argument text.
//!
//! A result of `None` in the specifications stands for the inputs on which
//! the reader stops: no line, an empty first line, a cut that falls inside
//! a character, a line number that is not a `u32`, a `>>` marker with
//! nothing after it, or an opcode name it cannot class.

use vstd::prelude::*;
use crate::bytecodemap::{parse_u32_spec, words};
use crate::text::{str_eq, strings_view, concat2, concat3};
use super::bytecode::{classify, classify_bytecode, Bytecode};
use super::valuetype::{ValueType, ValueTypeVec};
use crate::patterns::{strip_enclosing, strip_enclosing_brackets};

verus! {

/// The number of bytes of `c` in UTF-8.
pub open spec fn utf8_len(c: char) -> nat {
    let u = c as u32;
    if u < 0x80 {
        1
    } else if u < 0x800 {
        2
    } else if u < 0x10000 {
        3
    } else {
        4
    }
}

/// The number of bytes of `s` in UTF-8.
pub open spec fn byte_len(s: Seq<char>) -> nat
    decreases s.len(),
{
    if s.len() == 0 {
        0
    } else {
        utf8_len(s[0]) + byte_len(s.drop_first())
    }
}

/// The number of characters before byte `k` of `s`; `None` where byte `k`
/// is inside a character or past the end.
pub open spec fn char_at_byte(s: Seq<char>, k: nat) -> Option<nat>
    decreases s.len(),
{
    if k == 0 {
        Some(0)
    } else if s.len() == 0 {
        None
    } else if utf8_len(s[0]) <= k {
        match char_at_byte(s.drop_first(), (k - utf8_len(s[0])) as nat) {
            Some(j) => Some(j + 1),
            None => None,
        }
    } else {
        None
    }
}

/// What `str::split_at(k)` gives, or `None` where it stops.
pub open spec fn split_bytes(s: Seq<char>, k: nat) -> Option<(Seq<char>, Seq<char>)> {
    match char_at_byte(s, k) {
        Some(j) => Some((s.take(j as int), s.skip(j as int))),
        None => None,
    }
}

/// The number of bytes of `c` in UTF-8.
fn utf8_len_exec(c: char) -> (r: usize)
    ensures
        r == utf8_len(c),
{
    let u = c as u32;
    if u < 0x80 {
        1
    } else if u < 0x800 {
        2
    } else if u < 0x10000 {
        3
    } else {
        4
    }
}

/// `s` at most `limit` bytes long is counted; the count, capped at `limit`.
fn byte_len_capped(s: &str, limit: usize) -> (r: usize)
    ensures
        r == (if byte_len(s@) >= limit { limit as nat } else { byte_len(s@) }),
{
    let n = s.unicode_len();
    let mut i: usize = 0;
    let mut total: usize = 0;
    proof {
        assert(s@.skip(0) =~= s@);
    }
    if limit == 0 {
        return 0;
    }
    while i < n
        invariant
            i <= n,
            n == s@.len(),
            total < limit,
            total + byte_len(s@.skip(i as int)) == byte_len(s@),
        decreases n - i,
    {
        proof {
            assert(s@.skip(i as int).drop_first() =~= s@.skip(i + 1));
            assert(s@.skip(i as int)[0] == s@[i as int]);
        }
        let l = utf8_len_exec(s.get_char(i));
        if l >= limit - total {
            return limit;
        }
        total = total + l;
        i = i + 1;
    }
    proof {
        assert(s@.skip(i as int) =~= Seq::<char>::empty());
    }
    total
}

/// `s` cut at byte `k`.
fn split_bytes_exec(s: &str, k: usize) -> (r: Option<(String, String)>)
    ensures
        match split_bytes(s@, k as nat) {
            None => r is None,
            Some((a, b)) => r matches Some((x, y)) && x@ == a && y@ == b,
        },
{
    let n = s.unicode_len();
    let mut i: usize = 0;
    let mut rest: usize = k;
    proof {
        assert(s@.skip(0) =~= s@);
    }
    while rest > 0
        invariant
            i <= n,
            n == s@.len(),
            rest <= k,
            match char_at_byte(s@, k as nat) {
                None => char_at_byte(s@.skip(i as int), rest as nat) is None,
                Some(j) => char_at_byte(s@.skip(i as int), rest as nat) == Some((j - i) as nat) && i <= j,
            },
        decreases rest,
    {
        if i >= n {
            return None;
        }
        proof {
            assert(s@.skip(i as int).drop_first() =~= s@.skip(i + 1));
            assert(s@.skip(i as int)[0] == s@[i as int]);
        }
        let l = utf8_len_exec(s.get_char(i));
        if l > rest {
            return None;
        }
        rest = rest - l;
        i = i + 1;
    }
    proof {
        assert(char_at_byte(s@, k as nat) == Some(i as nat));
    }
    let a = String::from_str(s.substring_char(0, i));
    let b = String::from_str(s.substring_char(i, n));
    proof {
        assert(a@ =~= s@.take(i as int));
        assert(b@ =~= s@.skip(i as int));
    }
    Some((a, b))
}

/// What the reader holds: the line number, and per instruction its offset,
/// class, argument and argument text.
pub struct OpBlock {
    pub line: u32,
    pub offsets: Seq<u32>,
    pub codes: Seq<Bytecode>,
    pub args: Seq<u32>,
    pub reals: Seq<Seq<char>>,
}

/// A column read as a `u32`, `0` where it is not one.
pub open spec fn or_zero(t: Seq<char>) -> u32 {
    match parse_u32_spec(t) {
        Some(n) => n,
        None => 0,
    }
}

/// An argument text of more than three bytes without its first two bytes
/// and its last character; `None` where byte 2 is inside a character.
pub open spec fn trim_real(r: Seq<char>) -> Option<Seq<char>> {
    if byte_len(r) > 3 {
        match split_bytes(r, 2) {
            None => None,
            Some((_, rest)) => Some(if rest.len() > 0 { rest.drop_last() } else { rest }),
        }
    } else {
        Some(r)
    }
}

/// The columns `w[p..]` and argument text `rtext` of one line read into
/// `b`: an offset (a `>>` marker takes the next word with it and counts as
/// `0`), a class, an argument, then the argument text.
pub open spec fn op_line(w: Seq<Seq<char>>, p: nat, b: OpBlock, rtext: Seq<char>) -> Option<OpBlock> {
    let off: Option<(Seq<u32>, nat)> = if p < w.len() {
        if w[p as int] == ">>"@ {
            if p + 1 < w.len() {
                Some((b.offsets.push(0), p + 2))
            } else {
                None
            }
        } else {
            Some((b.offsets.push(or_zero(w[p as int])), p + 1))
        }
    } else {
        Some((b.offsets, p))
    };
    match off {
        None => None,
        Some((offsets, p1)) => {
            let code: Option<(Seq<Bytecode>, nat)> = if p1 < w.len() {
                match classify(w[p1 as int]) {
                    Some(c) => Some((b.codes.push(c), p1 + 1)),
                    None => None,
                }
            } else {
                Some((b.codes, p1))
            };
            match code {
                None => None,
                Some((codes, p2)) => {
                    let args = if p2 < w.len() {
                        b.args.push(or_zero(w[p2 as int]))
                    } else {
                        b.args
                    };
                    match trim_real(rtext) {
                        None => None,
                        Some(r) => Some(OpBlock { line: b.line, offsets, codes, args, reals: b.reals.push(r) }),
                    }
                },
            }
        },
    }
}

/// A line cut into its columns and its argument text at byte 42, or at
/// byte `short` when it is shorter.
pub open spec fn cut_line(l: Seq<char>, short: nat) -> Option<(Seq<char>, Seq<char>)> {
    split_bytes(l, if byte_len(l) >= 42 { 42 } else { short })
}

/// The lines `ls[i..]` read into `b`.
pub open spec fn op_lines(ls: Seq<Seq<char>>, i: nat, b: OpBlock) -> Option<OpBlock>
    decreases ls.len() - i,
{
    if i >= ls.len() {
        Some(b)
    } else {
        match cut_line(ls[i as int], byte_len(ls[i as int])) {
            None => None,
            Some((cols, rtext)) => match op_line(words(cols), 0, b, rtext) {
                None => None,
                Some(b1) => op_lines(ls, i + 1, b1),
            },
        }
    }
}

/// The lines `ls` read into `b`: the first line is cut one byte before its
/// end when it is short, and its first word is the line number.
pub open spec fn op_block(b: OpBlock, ls: Seq<Seq<char>>) -> Option<OpBlock> {
    if ls.len() == 0 || byte_len(ls[0]) == 0 {
        None
    } else {
        match cut_line(ls[0], (byte_len(ls[0]) - 1) as nat) {
            None => None,
            Some((cols, rtext)) => {
                let w = words(cols);
                if w.len() == 0 {
                    None
                } else {
                    match parse_u32_spec(w[0]) {
                        None => None,
                        Some(n) => match op_line(w, 1, OpBlock { line: n, ..b }, rtext) {
                            None => None,
                            Some(b1) => op_lines(ls, 1, b1),
                        },
                    }
                }
            },
        }
    }
}

/// What writing a block keeps: the line so far, the values loaded, the
/// kinds of value built, and whether a loop header or an augmented
/// assignment was written.
pub struct PyState {
    pub line: Seq<char>,
    pub buffer: Seq<Seq<char>>,
    pub kinds: Seq<ValueType>,
    pub is_for: bool,
    pub is_self: bool,
}

/// Nothing written, loaded or built.
pub open spec fn py_start() -> PyState {
    PyState { line: Seq::empty(), buffer: Seq::empty(), kinds: Seq::empty(), is_for: false, is_self: false }
}

/// The argument text of instruction `i`; empty where there is none.
pub open spec fn real_at(reals: Seq<Seq<char>>, i: nat) -> Seq<char> {
    if i < reals.len() {
        reals[i as int]
    } else {
        Seq::empty()
    }
}

/// The top kind and the rest; `NoType` when none was built.
pub open spec fn kind_popped(ks: Seq<ValueType>) -> (ValueType, Seq<ValueType>) {
    if ks.len() > 0 {
        (ks.last(), ks.drop_last())
    } else {
        (ValueType::NoType, ks)
    }
}

/// The value `v` written as a value of kind `k`: a list in square
/// brackets, a set or dict in braces (its own enclosing brackets dropped),
/// anything else as it is.
pub open spec fn built_value(k: ValueType, v: Seq<char>) -> Seq<char> {
    match k {
        ValueType::List => "["@ + strip_enclosing(v) + "]"@,
        ValueType::SetValue | ValueType::Dict => "{"@ + strip_enclosing(v) + "}"@,
        _ => v,
    }
}

/// The effect of one instruction of class `code` with argument text `rarg`:
/// a load keeps its argument, a build its kind; a store writes
/// `name = value` of the top value and kind (and only ends a loop header or
/// augmented assignment); `+=`, a call, a loop header and `NOP` are written
/// as Python; anything else changes nothing.
pub open spec fn py_step(st: PyState, code: Bytecode, rarg: Seq<char>) -> PyState {
    match code {
        Bytecode::Load => PyState { buffer: st.buffer.push(rarg), ..st },
        Bytecode::Build(k) => PyState { kinds: st.kinds.push(k), ..st },
        Bytecode::Store => if st.is_for || st.is_self {
            PyState { is_for: false, ..st }
        } else {
            let (k, ks) = kind_popped(st.kinds);
            let (v, rest) = popped(st.buffer);
            PyState { line: st.line + rarg + " = "@ + built_value(k, v), buffer: rest, kinds: ks, ..st }
        },
        Bytecode::Op => if rarg == "+="@ {
            let (r, b1) = popped(st.buffer);
            let (l, b2) = popped(b1);
            PyState { line: st.line + l + " += "@ + r, buffer: b2, is_self: true, ..st }
        } else {
            st
        },
        Bytecode::Call => {
            let (a, b1) = popped(st.buffer);
            let (f, b2) = popped(b1);
            PyState { line: st.line + f + "("@ + a + ")"@, buffer: b2, ..st }
        },
        Bytecode::Loop => {
            let (it, b1) = popped(st.buffer);
            PyState { line: st.line + "for i in "@ + it + ":"@, buffer: b1, is_for: true, ..st }
        },
        Bytecode::Nop => PyState { line: st.line + "True"@, ..st },
        _ => st,
    }
}

/// The instructions from index `i` on, applied to `st`.
pub open spec fn py_block(codes: Seq<Bytecode>, reals: Seq<Seq<char>>, st: PyState, i: nat) -> PyState
    decreases codes.len() - i,
{
    if i >= codes.len() {
        st
    } else {
        py_block(codes, reals, py_step(st, codes[i as int], real_at(reals, i)), i + 1)
    }
}

/// The line of Python that a block of instructions is written as.
pub open spec fn block_python(b: OpBlock) -> Seq<char> {
    py_block(b.codes, b.reals, py_start(), 0).line
}

/// The reader's columns.
struct BytecodeBlock {
    script_line_number: u32,
    cmd_offset: Vec<u32>,
    bytecode: Vec<Bytecode>,
    arg: Vec<u32>,
    real_arg: Vec<String>,
    jump_offset: Option<u32>,
}

impl BytecodeBlock {
    /// What the reader holds.
    spec fn view_spec(&self) -> OpBlock {
        OpBlock {
            line: self.script_line_number,
            offsets: self.cmd_offset@,
            codes: self.bytecode@,
            args: self.arg@,
            reals: strings_view(self.real_arg@),
        }
    }

    /// An empty reader.
    fn new() -> (r: BytecodeBlock)
        ensures
            r.view_spec() == (OpBlock {
                line: 0,
                offsets: Seq::empty(),
                codes: Seq::empty(),
                args: Seq::empty(),
                reals: Seq::empty(),
            }),
            r.jump_offset is None,
    {
        let r = BytecodeBlock {
            script_line_number: 0,
            cmd_offset: Vec::new(),
            bytecode: Vec::new(),
            arg: Vec::new(),
            real_arg: Vec::new(),
            jump_offset: None,
        };
        proof {
            assert(strings_view(r.real_arg@) =~= Seq::<Seq<char>>::empty());
        }
        r
    }

    /// Reads the columns `w[p..]` and argument text `rtext` of one line.
    fn op_line_exec(&mut self, w: &Vec<String>, p: usize, rtext: &str) -> (ok: bool)
        requires
            p <= w@.len(),
        ensures
            ok == op_line(strings_view(w@), p as nat, old(self).view_spec(), rtext@) is Some,
            ok ==> Some(final(self).view_spec()) == op_line(strings_view(w@), p as nat, old(self).view_spec(), rtext@),
            final(self).jump_offset == old(self).jump_offset,
    {
        let ghost wv = strings_view(w@);
        let mut p = p;
        if p < w.len() {
            assert(wv[p as int] == w@[p as int]@);
            if str_eq(w[p].as_str(), ">>") {
                if p + 1 >= w.len() {
                    return false;
                }
                self.cmd_offset.push(0);
                p = p + 2;
            } else {
                let o = match crate::bytecodemap::parse_u32_exec(w[p].as_str()) {
                    Some(o) => o,
                    None => 0,
                };
                self.cmd_offset.push(o);
                p = p + 1;
            }
        }
        if p < w.len() {
            assert(wv[p as int] == w@[p as int]@);
            match classify_bytecode(w[p].as_str()) {
                Some(c) => {
                    self.bytecode.push(c);
                    p = p + 1;
                },
                None => { return false; },
            }
        }
        if p < w.len() {
            assert(wv[p as int] == w@[p as int]@);
            let a = match crate::bytecodemap::parse_u32_exec(w[p].as_str()) {
                Some(a) => a,
                None => 0,
            };
            self.arg.push(a);
        }
        let r = match trim_real_exec(rtext) {
            Some(r) => r,
            None => { return false; },
        };
        let ghost rv = r@;
        let ghost before = self.real_arg@;
        self.real_arg.push(r);
        proof {
            assert(strings_view(self.real_arg@) =~= strings_view(before).push(rv));
        }
        true
    }

    /// Reads the lines of one source line's instructions.
    fn add(&mut self, bytecode_string: &Vec<String>) -> (ok: bool)
        ensures
            ok == op_block(old(self).view_spec(), strings_view(bytecode_string@)) is Some,
            ok ==> Some(final(self).view_spec()) == op_block(old(self).view_spec(), strings_view(bytecode_string@)),
            final(self).jump_offset == old(self).jump_offset,
    {
        let ghost ls = strings_view(bytecode_string@);
        if bytecode_string.len() == 0 {
            return false;
        }
        assert(ls[0] == bytecode_string@[0]@);
        let l = bytecode_string[0].as_str();
        let bl = byte_len_capped(l, 42);
        if bl == 0 {
            return false;
        }
        let k = if bl >= 42 { 42 } else { bl - 1 };
        let (cols, rtext) = match split_bytes_exec(l, k) {
            Some(x) => x,
            None => { return false; },
        };
        let w = crate::bytecodemap::words_exec(cols.as_str());
        if w.len() == 0 {
            return false;
        }
        assert(strings_view(w@)[0] == w@[0]@);
        let n = match crate::bytecodemap::parse_u32_exec(w[0].as_str()) {
            Some(n) => n,
            None => { return false; },
        };
        self.script_line_number = n;
        if !self.op_line_exec(&w, 1, rtext.as_str()) {
            return false;
        }
        let mut i: usize = 1;
        while i < bytecode_string.len()
            invariant
                1 <= i <= bytecode_string@.len(),
                ls == strings_view(bytecode_string@),
                op_block(old(self).view_spec(), ls) == op_lines(ls, i as nat, self.view_spec()),
                self.jump_offset == old(self).jump_offset,
            decreases bytecode_string@.len() - i,
        {
            assert(ls[i as int] == bytecode_string@[i as int]@);
            let l = bytecode_string[i].as_str();
            let bl = byte_len_capped(l, 42);
            let k = if bl >= 42 { 42 } else { bl };
            let (cols, rtext) = match split_bytes_exec(l, k) {
                Some(x) => x,
                None => { return false; },
            };
            let w = crate::bytecodemap::words_exec(cols.as_str());
            if !self.op_line_exec(&w, 0, rtext.as_str()) {
                return false;
            }
            i = i + 1;
        }
        true
    }

    /// The line of Python that the instructions read give (see
    /// `block_python`).
    fn to_python(&mut self) -> (r: String)
        ensures
            r@ == block_python(old(self).view_spec()),
            *final(self) == *old(self),
    {
        let ghost b = self.view_spec();
        let mut st_line = String::new();
        let mut buffer: Vec<String> = Vec::new();
        let mut kinds = ValueTypeVec::new();
        let mut is_for = false;
        let mut is_self = false;
        let mut i: usize = 0;
        proof {
            reveal_strlit("");
            assert(st_line@ =~= Seq::<char>::empty());
            assert(strings_view(buffer@) =~= Seq::<Seq<char>>::empty());
        }
        while i < self.bytecode.len()
            invariant
                b == self.view_spec(),
                i <= b.codes.len(),
                py_block(b.codes, b.reals, py_start(), 0) == py_block(
                    b.codes,
                    b.reals,
                    PyState {
                        line: st_line@,
                        buffer: strings_view(buffer@),
                        kinds: kinds.value_type@,
                        is_for,
                        is_self,
                    },
                    i as nat,
                ),
            decreases b.codes.len() - i,
        {
            let ghost st0 = PyState {
                line: st_line@,
                buffer: strings_view(buffer@),
                kinds: kinds.value_type@,
                is_for,
                is_self,
            };
            let rarg: &str = if i < self.real_arg.len() {
                self.real_arg[i].as_str()
            } else {
                ""
            };
            proof {
                reveal_strlit("");
                if i < self.real_arg.len() {
                    assert(strings_view(self.real_arg@)[i as int] == self.real_arg@[i as int]@);
                }
            }
            assert(rarg@ == real_at(b.reals, i as nat));
            match &self.bytecode[i] {
                Bytecode::Load => {
                    let ghost b0 = strings_view(buffer@);
                    buffer.push(String::from_str(rarg));
                    proof {
                        assert(strings_view(buffer@) =~= b0.push(rarg@));
                    }
                },
                Bytecode::Build(k) => {
                    kinds.push(*k);
                },
                Bytecode::Store => {
                    if is_for || is_self {
                        is_for = false;
                    } else {
                        let k = kinds.pop().unwrap();
                        let v = pop_or_empty(&mut buffer);
                        let value = match k {
                            ValueType::List => {
                                let inner = strip_enclosing_brackets(v.as_str());
                                concat3("[", inner.as_str(), "]")
                            },
                            ValueType::SetValue | ValueType::Dict => {
                                let inner = strip_enclosing_brackets(v.as_str());
                                concat3("{", inner.as_str(), "}")
                            },
                            _ => v,
                        };
                        assert(value@ == built_value(k, v@));
                        let t = concat3(rarg, " = ", value.as_str());
                        st_line.append(t.as_str());
                        assert(st_line@ =~= st0.line + rarg@ + " = "@ + built_value(k, v@));
                    }
                },
                Bytecode::Op => {
                    self.op(&mut st_line, &mut buffer, rarg, &mut is_self);
                },
                Bytecode::Call => {
                    self.call(&mut st_line, &mut buffer);
                },
                Bytecode::Loop => {
                    is_for = true;
                    self.for_iter(&mut st_line, &mut buffer);
                },
                Bytecode::Nop => {
                    st_line.append("True");
                },
                _ => {},
            }
            assert(PyState {
                line: st_line@,
                buffer: strings_view(buffer@),
                kinds: kinds.value_type@,
                is_for,
                is_self,
            } == py_step(st0, b.codes[i as int], rarg@));
            i = i + 1;
        }
        st_line
    }

    /// Replaces the top two loaded values by a subscript, `name[key]`; a
    /// missing value counts as empty.
    fn subscr(&self, pyscript: &mut String, buffer: &mut Vec<String>)
        ensures
            final(pyscript)@ == old(pyscript)@,
            strings_view(final(buffer)@) == popped(popped(strings_view(old(buffer)@)).1).1.push(
                popped(popped(strings_view(old(buffer)@)).1).0 + "["@ + popped(strings_view(old(buffer)@)).0 + "]"@,
            ),
    {
        let key = pop_or_empty(buffer);
        let name = pop_or_empty(buffer);
        let t = concat3(name.as_str(), "[", key.as_str());
        let ghost b0 = strings_view(buffer@);
        buffer.push(concat2(t.as_str(), "]"));
        proof {
            assert(strings_view(buffer@) =~= b0.push(name@ + "["@ + key@ + "]"@));
        }
    }

    /// An augmented addition `left += right` of the top two loaded values,
    /// written when `rarg` is `+=`.
    fn op(&self, pyscript: &mut String, buffer: &mut Vec<String>, rarg: &str, is_self_calculation: &mut bool)
        ensures
            rarg@ == "+="@ ==> *final(is_self_calculation) && strings_view(final(buffer)@) == popped(popped(strings_view(old(buffer)@)).1).1
                && final(pyscript)@ == old(pyscript)@ + popped(popped(strings_view(old(buffer)@)).1).0 + " += "@ + popped(strings_view(old(buffer)@)).0,
            rarg@ != "+="@ ==> *final(is_self_calculation) == *old(is_self_calculation) && final(buffer)@ == old(buffer)@
                && final(pyscript)@ == old(pyscript)@,
    {
        if str_eq(rarg, "+=") {
            *is_self_calculation = true;
            let right = pop_or_empty(buffer);
            let left = pop_or_empty(buffer);
            let t = concat3(left.as_str(), " += ", right.as_str());
            pyscript.append(t.as_str());
        }
    }

    /// A call `func(args)` of the top two loaded values.
    fn call(&self, pyscript: &mut String, buffer: &mut Vec<String>)
        ensures
            strings_view(final(buffer)@) == popped(popped(strings_view(old(buffer)@)).1).1,
            final(pyscript)@ == old(pyscript)@ + popped(popped(strings_view(old(buffer)@)).1).0 + "("@ + popped(strings_view(old(buffer)@)).0 + ")"@,
    {
        let args = pop_or_empty(buffer);
        let func = pop_or_empty(buffer);
        let t = concat3(func.as_str(), "(", args.as_str());
        pyscript.append(t.as_str());
        pyscript.append(")");
    }

    /// A loop header over the top loaded value.
    fn for_iter(&self, pyscript: &mut String, buffer: &mut Vec<String>)
        ensures
            strings_view(final(buffer)@) == popped(strings_view(old(buffer)@)).1,
            final(pyscript)@ == old(pyscript)@ + "for i in "@ + popped(strings_view(old(buffer)@)).0 + ":"@,
    {
        let iter = pop_or_empty(buffer);
        let t = concat3("for i in ", iter.as_str(), ":");
        pyscript.append(t.as_str());
    }
}

/// The top value and the rest; an empty value when there is none.
pub open spec fn popped(b: Seq<Seq<char>>) -> (Seq<char>, Seq<Seq<char>>) {
    if b.len() > 0 {
        (b.last(), b.drop_last())
    } else {
        (Seq::empty(), b)
    }
}

/// Takes the top value off; an empty value when there is none.
fn pop_or_empty(buffer: &mut Vec<String>) -> (r: String)
    ensures
        r@ == popped(strings_view(old(buffer)@)).0,
        strings_view(final(buffer)@) == popped(strings_view(old(buffer)@)).1,
{
    let ghost b0 = strings_view(buffer@);
    match buffer.pop() {
        Some(v) => {
            proof {
                assert(strings_view(buffer@) =~= b0.drop_last());
            }
            v
        },
        None => String::new(),
    }
}

/// An argument text of more than three bytes without its first two bytes
/// and its last character.
fn trim_real_exec(r: &str) -> (out: Option<String>)
    ensures
        match trim_real(r@) {
            None => out is None,
            Some(t) => out matches Some(x) && x@ == t,
        },
{
    if byte_len_capped(r, 4) >= 4 {
        let (_, rest) = match split_bytes_exec(r, 2) {
            Some(x) => x,
            None => { return None; },
        };
        let n = rest.as_str().unicode_len();
        if n > 0 {
            Some(String::from_str(rest.as_str().substring_char(0, n - 1)))
        } else {
            Some(rest)
        }
    } else {
        Some(String::from_str(r))
    }
}

/// A line of Python with its line number, first offset, jump target and
/// indentation.
#[derive(Debug, Clone)]
pub struct PyLine {
    pub line: u32,
    pub pyscript: String,
    pub start_offset: u32,
    pub jump_offset: Option<u32>,
    pub retractions: u32,
}

impl PyLine {
    /// A line with no indentation.
    pub fn new(line: u32, pyscript: String, start_offset: u32, jump_offset: Option<u32>) -> (r: PyLine)
        ensures
            r.line == line,
            r.pyscript == pyscript,
            r.start_offset == start_offset,
            r.jump_offset == jump_offset,
            r.retractions == 0,
    {
        PyLine { line, pyscript, start_offset, jump_offset, retractions: 0 }
    }
}

/// Whether the lines of one source line's instructions can be read and
/// give at least one offset.
pub open spec fn op_reads(bcs: Seq<Seq<char>>) -> bool {
    match op_block(
        OpBlock { line: 0, offsets: Seq::empty(), codes: Seq::empty(), args: Seq::empty(), reals: Seq::empty() },
        bcs,
    ) {
        Some(b) => b.offsets.len() > 0,
        None => false,
    }
}

/// What the lines of one source line's instructions read as.
pub open spec fn op_read(bcs: Seq<Seq<char>>) -> OpBlock {
    op_block(
        OpBlock { line: 0, offsets: Seq::empty(), codes: Seq::empty(), args: Seq::empty(), reals: Seq::empty() },
        bcs,
    )->0
}

/// The line that the lines of one source line's instructions give: its
/// number, its first offset and its Python text.
pub fn reverse_bytecode(bcs: &Vec<String>) -> (r: PyLine)
    requires
        op_reads(strings_view(bcs@)),
    ensures
        r.line == op_read(strings_view(bcs@)).line,
        r.start_offset == op_read(strings_view(bcs@)).offsets[0],
        r.pyscript@ == block_python(op_read(strings_view(bcs@))),
        r.jump_offset is None,
        r.retractions == 0,
{
    let mut block = BytecodeBlock::new();
    if !block.add(bcs) {
        proof {
            assert(false);
        }
    }
    let pyscript = block.to_python();
    let start_offset = if block.cmd_offset.len() > 0 {
        block.cmd_offset[0]
    } else {
        0
    };
    PyLine::new(block.script_line_number, pyscript, start_offset, block.jump_offset)
}

} // verus!
