//! Reading the text of a disassembly (the output of Python's `dis`) into
//! code objects: for each code object, its instructions grouped by the line
//! that starts them.

use vstd::prelude::*;
use regex::Regex;
use crate::common::order_map::{first_index, inserted, lemma_first_index, OrderMap};
use crate::opcode::{opcode_named, Opcode, OpcodeInstruction};
use crate::text::{all_digits, is_all_digits, parse_usize, parse_usize_spec};

verus! {

/// The name of a code object: the text between `Disassembly of ` and `:`.
pub type ObjectMark = String;

/// A line number of the source.
pub type LineNumber = usize;

/// The instructions of one code object, grouped by the line that starts
/// them.
pub type CodeObject = OrderMap<LineNumber, Vec<OpcodeInstruction>>;

/// The code objects of a disassembly, by name.
pub type CodeObjectMap = OrderMap<ObjectMark, CodeObject>;

/// One match of the instruction pattern: the texts of its `mark`, `line`,
/// `off`, `bc`, `a` and `ra` groups, empty where a group did not take part.
#[derive(Debug)]
pub struct CaptureRow {
    pub mark: String,
    pub line: String,
    pub off: String,
    pub bc: String,
    pub a: String,
    pub ra: String,
}

/// A capture row by its texts.
pub open spec fn row_view(r: CaptureRow) -> (Seq<char>, Seq<char>, Seq<char>, Seq<char>, Seq<char>, Seq<char>) {
    (r.mark@, r.line@, r.off@, r.bc@, r.a@, r.ra@)
}

/// The rows of a list of capture rows.
pub open spec fn rows_view(v: Seq<CaptureRow>) -> Seq<(Seq<char>, Seq<char>, Seq<char>, Seq<char>, Seq<char>, Seq<char>)> {
    v.map_values(|r: CaptureRow| row_view(r))
}

/// The rows that `Regex::captures_iter` gives for the instruction pattern
/// (see [`capture_rows`]) on `text`, in order.
pub uninterp spec fn instruction_rows(text: Seq<char>) -> Seq<(Seq<char>, Seq<char>, Seq<char>, Seq<char>, Seq<char>, Seq<char>)>;

/// Runs `Regex::captures_iter` on `text` with the instruction pattern
/// (in free-spacing, dot-matches-newline mode):
/// an optional `Disassembly of (?P<mark>[\S ]+):\s+`, an optional line
/// `(?P<line>\d+)`, optional spaces and `>`, the offset `(?P<off>\d+)`, a
/// space, the opcode name `(?P<bc>[A-Z0-9_]+)`, optional spaces, an
/// optional argument `(?P<a>\d+)`, an optional space and an optional
/// `\((?P<ra>[\S ]+)\)`. Each match gives the texts of its six groups. The
/// contract only names the result (`instruction_rows`).
#[verifier::external_body]
pub(crate) fn capture_rows(text: &str) -> (r: Vec<CaptureRow>)
    ensures
        rows_view(r@) == instruction_rows(text@),
{
    let reg = Regex::new(
        r#"(?s)(?x)
            (Disassembly\ of\ (?P<mark>[\S\ ]+):\s+)?
            (?P<line>\d+)?
            ([\ >]+)?
            (?P<off>\d+)
            [\ ]
            (?P<bc>[A-Z0-9_]+)
            ([\ ]+)?
            (?P<a>\d+)?
            [\ ]?
            (\((?P<ra>[\S\ ]+)\))?
            "#,
    ).unwrap();
    let group = |c: &regex::Captures, n: &str| c.name(n).map_or(String::new(), |m| m.as_str().to_string());
    reg.captures_iter(text).map(|c| CaptureRow {
        mark: group(&c, "mark"),
        line: group(&c, "line"),
        off: group(&c, "off"),
        bc: group(&c, "bc"),
        a: group(&c, "a"),
        ra: group(&c, "ra"),
    }).collect()
}

/// Why a disassembly could not be read.
#[derive(Debug, PartialEq, Eq)]
pub enum DisasmError {
    /// An offset that does not fit a `usize`; its text.
    Offset(String),
    /// An instruction that starts no line before any line was started.
    UnknownLine,
}

impl DisasmError {
    /// The message of the error.
    pub fn message(&self) -> (r: String)
        ensures
            self matches DisasmError::Offset(t) ==> r@ == (if t@.len() == 0 {
                "cannot parse integer from empty string"@
            } else if all_digits(t@) {
                "number too large to fit in target type"@
            } else {
                "invalid digit found in string"@
            }),
            self is UnknownLine ==> r@ == "Unknown Line"@,
    {
        match self {
            DisasmError::Offset(t) => if t.as_str().unicode_len() == 0 {
                String::from_str("cannot parse integer from empty string")
            } else if is_all_digits(t.as_str()) {
                String::from_str("number too large to fit in target type")
            } else {
                String::from_str("invalid digit found in string")
            },
            DisasmError::UnknownLine => String::from_str("Unknown Line"),
        }
    }
}

/// An instruction by its fields, with texts as character sequences.
pub struct InsV {
    pub opcode: Opcode,
    pub opname: Seq<char>,
    pub arg: Option<usize>,
    pub argval: Option<Seq<char>>,
    pub offset: usize,
    pub starts_line: Option<usize>,
    pub is_jump_target: bool,
    pub positions: Seq<usize>,
}

/// An instruction by its fields.
pub open spec fn ins_view(i: OpcodeInstruction) -> InsV {
    InsV {
        opcode: i.opcode,
        opname: i.opname@,
        arg: i.arg,
        argval: match i.argval {
            Some(s) => Some(s@),
            None => None,
        },
        offset: i.offset,
        starts_line: i.starts_line,
        is_jump_target: i.is_jump_target,
        positions: i.positions@,
    }
}

/// A code object: its lines in order and the instructions of each.
pub struct ObjV {
    pub lines: Seq<usize>,
    pub code: Seq<Seq<InsV>>,
}

/// The instructions of one line.
pub open spec fn code_view(v: Vec<OpcodeInstruction>) -> Seq<InsV> {
    v@.map_values(|i: OpcodeInstruction| ins_view(i))
}

/// A code object by its lines and instructions.
pub open spec fn obj_view(o: CodeObject) -> ObjV {
    ObjV {
        lines: o.spec_keys(),
        code: o.spec_values().map_values(|v: Vec<OpcodeInstruction>| code_view(v)),
    }
}

/// The code objects by their marks.
pub struct MapV {
    pub marks: Seq<Seq<char>>,
    pub objs: Seq<ObjV>,
}

/// A code-object map by its marks and code objects.
pub open spec fn map_view(m: CodeObjectMap) -> MapV {
    MapV {
        marks: m.spec_keys().map_values(|s: String| s@),
        objs: m.spec_values().map_values(|o: CodeObject| obj_view(o)),
    }
}

/// The state of the scan: the code objects finished, the mark and code of
/// the current one, and the last line started.
pub struct ScanV {
    pub done: MapV,
    pub mark: Seq<char>,
    pub cur: ObjV,
    pub last_line: usize,
}

/// A code object with no lines.
pub open spec fn empty_obj() -> ObjV {
    ObjV { lines: Seq::empty(), code: Seq::empty() }
}

/// The state before the first row.
pub open spec fn scan_start() -> ScanV {
    ScanV {
        done: MapV { marks: Seq::empty(), objs: Seq::empty() },
        mark: "<main>"@,
        cur: empty_obj(),
        last_line: 0,
    }
}

/// `ins` appended to the first entry of line `line`, if there is one.
pub open spec fn add_to_line(cur: ObjV, line: usize, ins: InsV) -> Option<ObjV> {
    match first_index(cur.lines, line) {
        Some(i) => Some(ObjV { lines: cur.lines, code: cur.code.update(i, cur.code[i].push(ins)) }),
        None => None,
    }
}

/// The code object `cur` filed under `mark`: it takes the place of an
/// object already filed under that mark, or goes last.
pub open spec fn put_obj(d: MapV, mark: Seq<char>, cur: ObjV) -> MapV {
    if d.marks.contains(mark) {
        MapV { marks: d.marks, objs: d.objs.update(d.marks.index_of(mark), cur) }
    } else {
        MapV { marks: d.marks.push(mark), objs: d.objs.push(cur) }
    }
}

/// Filing a code object in a map is `put_obj` on the map's view.
proof fn lemma_put_obj(before: CodeObjectMap, after: CodeObjectMap, m: String, o: CodeObject)
    requires
        before.wf(),
        (after.spec_keys(), after.spec_values()) == inserted(
            before.spec_keys(),
            before.spec_values(),
            m,
            o,
        ),
    ensures
        map_view(after) == put_obj(map_view(before), m@, obj_view(o)),
{
    let mark = m@;
    let cur = obj_view(o);
    let keys = before.spec_keys();
    let marks = map_view(before).marks;
    lemma_first_index(keys, mark);
    match first_index(keys, mark) {
        Some(i) => {
            assert(marks[i] == mark);
            assert(marks.contains(mark));
            let j = marks.index_of(mark);
            assert(marks[j] == mark);
            assert(keys[j]@ == mark);
            assert(j == i) by {
                if j < i {
                    assert(keys[j]@ != keys[i]@);
                } else if j > i {
                    assert(keys[i]@ != keys[j]@);
                }
            }
            assert(map_view(after).marks =~= marks);
            assert(map_view(after).objs =~= map_view(before).objs.update(i, cur));
        },
        None => {
            assert(!marks.contains(mark)) by {
                if marks.contains(mark) {
                    let j = choose|j: int| 0 <= j < marks.len() && marks[j] == mark;
                    assert(keys[j]@ == mark);
                }
            }
            assert(map_view(after).marks =~= marks.push(mark));
            assert(map_view(after).objs =~= map_view(before).objs.push(cur));
        },
    }
}

/// Why the scan stopped.
pub enum ScanErr {
    Offset(Seq<char>),
    UnknownLine,
}

/// The effect of one row: a new mark finishes the current code object; the
/// instruction joins the line it starts, or the last line started.
pub open spec fn scan_row(
    st: ScanV,
    row: (Seq<char>, Seq<char>, Seq<char>, Seq<char>, Seq<char>, Seq<char>),
) -> Result<ScanV, ScanErr> {
    let (mark, line, off, bc, a, ra) = row;
    let st1 = if mark.len() > 0 {
        ScanV {
            done: put_obj(st.done, st.mark, st.cur),
            mark,
            cur: empty_obj(),
            last_line: st.last_line,
        }
    } else {
        st
    };
    match parse_usize_spec(off) {
        None => Err(ScanErr::Offset(off)),
        Some(o) => {
            let ins = InsV {
                opcode: opcode_named(bc),
                opname: bc,
                arg: parse_usize_spec(a),
                argval: if ra.len() == 0 {
                    None
                } else {
                    Some(ra)
                },
                offset: o,
                starts_line: parse_usize_spec(line),
                is_jump_target: false,
                positions: Seq::empty(),
            };
            match parse_usize_spec(line) {
                Some(l) => {
                    let cur = match add_to_line(st1.cur, l, ins) {
                        Some(c) => c,
                        None => ObjV {
                            lines: st1.cur.lines.push(l),
                            code: st1.cur.code.push(seq![ins]),
                        },
                    };
                    Ok(ScanV { cur, last_line: l, ..st1 })
                },
                None => match add_to_line(st1.cur, st1.last_line, ins) {
                    Some(c) => Ok(ScanV { cur: c, ..st1 }),
                    None => Err(ScanErr::UnknownLine),
                },
            }
        },
    }
}

/// The effect of the rows, first to last.
pub open spec fn scan_rows(
    st: ScanV,
    rows: Seq<(Seq<char>, Seq<char>, Seq<char>, Seq<char>, Seq<char>, Seq<char>)>,
) -> Result<ScanV, ScanErr>
    decreases rows.len(),
{
    if rows.len() == 0 {
        Ok(st)
    } else {
        match scan_row(st, rows[0]) {
            Err(e) => Err(e),
            Ok(s) => scan_rows(s, rows.drop_first()),
        }
    }
}

/// The code objects once the rows are read: the current one joins the
/// finished ones unless its mark is already among them.
pub open spec fn scan_finish(st: ScanV) -> MapV {
    if st.done.marks.contains(st.mark) {
        st.done
    } else {
        MapV { marks: st.done.marks.push(st.mark), objs: st.done.objs.push(st.cur) }
    }
}

/// What reading the rows gives.
pub open spec fn disassembly(
    rows: Seq<(Seq<char>, Seq<char>, Seq<char>, Seq<char>, Seq<char>, Seq<char>)>,
) -> Result<MapV, ScanErr> {
    match scan_rows(scan_start(), rows) {
        Ok(st) => Ok(scan_finish(st)),
        Err(e) => Err(e),
    }
}

/// An error by its texts.
pub open spec fn err_view(e: DisasmError) -> ScanErr {
    match e {
        DisasmError::Offset(t) => ScanErr::Offset(t@),
        DisasmError::UnknownLine => ScanErr::UnknownLine,
    }
}

/// The state of the scan that the exec values stand for.
pub open spec fn scan_view(
    done: CodeObjectMap,
    mark: String,
    cur: CodeObject,
    last_line: usize,
) -> ScanV {
    ScanV { done: map_view(done), mark: mark@, cur: obj_view(cur), last_line }
}

/// Reads the capture rows of a disassembly into code objects.
#[verifier::rlimit(60)]
pub fn read_rows(rows: &Vec<CaptureRow>) -> (r: Result<CodeObjectMap, DisasmError>)
    ensures
        r matches Ok(x) ==> x.wf(),
        match disassembly(rows_view(rows@)) {
            Ok(m) => r matches Ok(x) && map_view(x) == m,
            Err(e) => r matches Err(x) && err_view(x) == e,
        },
{
    let ghost rv = rows_view(rows@);
    let mut last_line: usize = 0;
    let mut this_mark = String::from_str("<main>");
    let mut code_object: CodeObject = OrderMap::new();
    let mut code_object_map: CodeObjectMap = OrderMap::new();
    let ghost goal = scan_rows(scan_start(), rv);
    proof {
        assert(map_view(code_object_map).marks =~= Seq::<Seq<char>>::empty());
        assert(map_view(code_object_map).objs =~= Seq::<ObjV>::empty());
        assert(obj_view(code_object).code =~= Seq::<Seq<InsV>>::empty());
        assert(scan_view(code_object_map, this_mark, code_object, last_line) == scan_start());
        assert(rv.skip(0) =~= rv);
    }
    let mut i: usize = 0;
    while i < rows.len()
        invariant
            i <= rows@.len(),
            rv == rows_view(rows@),
            code_object.wf(),
            code_object_map.wf(),
            scan_rows(scan_view(code_object_map, this_mark, code_object, last_line), rv.skip(i as int))
                == goal,
            goal == scan_rows(scan_start(), rv),
        decreases rows@.len() - i,
    {
        let row = &rows[i];
        let ghost st0 = scan_view(code_object_map, this_mark, code_object, last_line);
        assert(rv.skip(i as int)[0] == row_view(*row));
        assert(rv.skip(i as int).drop_first() =~= rv.skip(i + 1));
        if row.mark.as_str().unicode_len() != 0 {
            let mut old_obj: CodeObject = OrderMap::new();
            std::mem::swap(&mut old_obj, &mut code_object);
            let ghost done0 = code_object_map;
            let ghost o0 = old_obj;
            let ghost m0 = this_mark;
            code_object_map.insert(this_mark.clone(), old_obj);
            this_mark = row.mark.clone();
            proof {
                lemma_put_obj(done0, code_object_map, m0, o0);
                assert(map_view(code_object_map) == put_obj(map_view(done0), st0.mark, st0.cur));
                assert(obj_view(code_object).lines =~= Seq::<usize>::empty());
                assert(obj_view(code_object).code =~= Seq::<Seq<InsV>>::empty());
            }
        }
        let ghost st1 = scan_view(code_object_map, this_mark, code_object, last_line);
        let off = match parse_usize(row.off.as_str()) {
            Some(o) => o,
            None => {
                return Err(DisasmError::Offset(row.off.clone()));
            },
        };
        let argval = if row.ra.as_str().unicode_len() == 0 {
            None
        } else {
            Some(row.ra.clone())
        };
        let ins = OpcodeInstruction::new(
            row.bc.as_str(),
            parse_usize(row.a.as_str()),
            argval,
            off,
            parse_usize(row.line.as_str()),
        );
        let ghost iv = ins_view(ins);
        match parse_usize(row.line.as_str()) {
            Some(line) => {
                last_line = line;
                proof {
                    lemma_first_index(code_object.spec_keys(), line);
                }
                if code_object.contains_key(&line) {
                    let ghost c0 = code_object;
                    match code_object.get_mut(&line) {
                        Some(v) => {
                            v.push(ins);
                        },
                        None => {
                            return Err(DisasmError::UnknownLine);
                        },
                    }
                    proof {
                        let k = first_index(c0.spec_keys(), line).unwrap();
                        assert(code_view(code_object.spec_values()[k]) =~= code_view(
                            c0.spec_values()[k],
                        ).push(iv));
                        assert(obj_view(code_object).code =~= obj_view(c0).code.update(
                            k,
                            obj_view(c0).code[k].push(iv),
                        ));
                    }
                } else {
                    let ghost c0 = code_object;
                    let mut v: Vec<OpcodeInstruction> = Vec::new();
                    v.push(ins);
                    code_object.insert(line, v);
                    proof {
                        assert(code_view(v) =~= seq![iv]);
                        assert(obj_view(code_object).code =~= obj_view(c0).code.push(seq![iv]));
                    }
                }
            },
            None => {
                proof {
                    lemma_first_index(code_object.spec_keys(), last_line);
                }
                let ghost c0 = code_object;
                match code_object.get_mut(&last_line) {
                    Some(v) => {
                        v.push(ins);
                    },
                    None => {
                        return Err(DisasmError::UnknownLine);
                    },
                }
                proof {
                    let k = first_index(c0.spec_keys(), last_line).unwrap();
                    assert(code_view(code_object.spec_values()[k]) =~= code_view(
                        c0.spec_values()[k],
                    ).push(iv));
                    assert(obj_view(code_object).code =~= obj_view(c0).code.update(
                        k,
                        obj_view(c0).code[k].push(iv),
                    ));
                }
            },
        }
        i = i + 1;
    }
    proof {
        assert(rv.skip(i as int) =~= Seq::<
            (Seq<char>, Seq<char>, Seq<char>, Seq<char>, Seq<char>, Seq<char>),
        >::empty());
        lemma_first_index(code_object_map.spec_keys(), this_mark@);
    }
    let ghost done1 = code_object_map;
    if !code_object_map.contains_key(&this_mark) {
        let ghost m = this_mark@;
        let ghost cur = obj_view(code_object);
        code_object_map.insert(this_mark, code_object);
        proof {
            assert(map_view(code_object_map).marks =~= map_view(done1).marks.push(m));
            assert(map_view(code_object_map).objs =~= map_view(done1).objs.push(cur));
            assert(!map_view(done1).marks.contains(m)) by {
                if map_view(done1).marks.contains(m) {
                    let j = choose|j: int|
                        0 <= j < map_view(done1).marks.len() && map_view(done1).marks[j] == m;
                    assert(done1.spec_keys()[j]@ == m);
                }
            }
        }
    } else {
        proof {
            let j = first_index(done1.spec_keys(), this_mark@).unwrap();
            assert(map_view(done1).marks[j] == this_mark@);
        }
    }
    Ok(code_object_map)
}

/// Reads a disassembly into code objects.
pub fn parse_opcodes(text: &str) -> (r: Result<CodeObjectMap, DisasmError>)
    ensures
        r matches Ok(x) ==> x.wf(),
        match disassembly(instruction_rows(text@)) {
            Ok(m) => r matches Ok(x) && map_view(x) == m,
            Err(e) => r matches Err(x) && err_view(x) == e,
        },
{
    let rows = capture_rows(text);
    read_rows(&rows)
}

/// Reading a disassembly into code objects.
pub trait OpcodeParser {
    /// The code objects of the disassembly.
    fn parse(&self) -> Result<CodeObjectMap, DisasmError>;
}

impl OpcodeParser for String {
    /// The code objects of the disassembly held by the string.
    fn parse(&self) -> (r: Result<CodeObjectMap, DisasmError>)
        ensures
            match disassembly(instruction_rows(self@)) {
                Ok(m) => r matches Ok(x) && map_view(x) == m,
                Err(e) => r matches Err(x) && err_view(x) == e,
            },
    {
        parse_opcodes(self.as_str())
    }
}

/// The instructions of a code object's lines, one line after another.
pub open spec fn flat_code(code: Seq<Seq<InsV>>) -> Seq<InsV>
    decreases code.len(),
{
    if code.len() == 0 {
        Seq::empty()
    } else {
        flat_code(code.drop_last()) + code.last()
    }
}

/// A copy of an instruction.
fn copy_instruction(i: &OpcodeInstruction) -> (r: OpcodeInstruction)
    ensures
        ins_view(r) == ins_view(*i),
{
    let mut positions: Vec<usize> = Vec::new();
    let mut k: usize = 0;
    while k < i.positions.len()
        invariant
            k <= i.positions@.len(),
            positions@ == i.positions@.take(k as int),
        decreases i.positions@.len() - k,
    {
        positions.push(i.positions[k]);
        k = k + 1;
        assert(positions@ =~= i.positions@.take(k as int));
    }
    assert(positions@ =~= i.positions@);
    let argval = match &i.argval {
        Some(a) => Some(a.clone()),
        None => None,
    };
    OpcodeInstruction {
        opcode: i.opcode,
        opname: i.opname.clone(),
        arg: i.arg,
        argval,
        offset: i.offset,
        starts_line: i.starts_line,
        is_jump_target: i.is_jump_target,
        positions,
    }
}

/// The code objects with each one's instructions in one sequence: its
/// lines one after another, each line's instructions in order.
pub fn code_objects(map: &CodeObjectMap) -> (r: OrderMap<String, Vec<OpcodeInstruction>>)
    requires
        map.wf(),
    ensures
        r.wf(),
        r.spec_keys().map_values(|s: String| s@) == map_view(*map).marks,
        r.spec_values().len() == map.spec_values().len(),
        forall|i: int|
            0 <= i < r.spec_values().len() ==> code_view(#[trigger] r.spec_values()[i]) == flat_code(
                map_view(*map).objs[i].code,
            ),
{
    let entries = map.iter();
    let mut r: OrderMap<String, Vec<OpcodeInstruction>> = OrderMap::new();
    let ghost marks = map_view(*map).marks;
    let ghost objs = map_view(*map).objs;
    let mut k: usize = 0;
    while k < entries.len()
        invariant
            map.wf(),
            marks == map_view(*map).marks,
            objs == map_view(*map).objs,
            entries@.len() == map.spec_keys().len(),
            forall|i: int|
                0 <= i < entries@.len() ==> *(#[trigger] entries@[i]).0 == map.spec_keys()[i]
                    && *entries@[i].1 == map.spec_values()[i],
            k <= entries@.len(),
            r.wf(),
            r.spec_keys().map_values(|s: String| s@) == marks.take(k as int),
            r.spec_values().len() == k,
            forall|i: int|
                0 <= i < k ==> code_view(#[trigger] r.spec_values()[i]) == flat_code(objs[i].code),
        decreases entries@.len() - k,
    {
        let (mark, obj) = entries[k];
        let lines = obj.values();
        let ghost code = obj_view(*obj).code;
        let mut all: Vec<OpcodeInstruction> = Vec::new();
        let mut j: usize = 0;
        proof {
            assert(code.take(0) =~= Seq::<Seq<InsV>>::empty());
            assert(code_view(all) =~= Seq::<InsV>::empty());
        }
        while j < lines.len()
            invariant
                lines@.len() == code.len(),
                code == obj_view(*obj).code,
                forall|a: int| 0 <= a < lines@.len() ==> *(#[trigger] lines@[a]) == obj.spec_values()[a],
                j <= lines@.len(),
                code_view(all) == flat_code(code.take(j as int)),
            decreases lines@.len() - j,
        {
            let line = lines[j];
            assert(code[j as int] == code_view(*line));
            let mut t: usize = 0;
            let ghost before = code_view(all);
            while t < line.len()
                invariant
                    t <= line@.len(),
                    code_view(all) == before + code_view(*line).take(t as int),
                decreases line@.len() - t,
            {
                let c = copy_instruction(&line[t]);
                let ghost v0 = code_view(all);
                all.push(c);
                proof {
                    assert(code_view(all) =~= v0.push(ins_view(line@[t as int])));
                    assert(code_view(*line).take(t + 1) =~= code_view(*line).take(t as int).push(
                        ins_view(line@[t as int]),
                    ));
                }
                t = t + 1;
            }
            proof {
                assert(code_view(*line).take(t as int) =~= code_view(*line));
                assert(code.take(j + 1).drop_last() =~= code.take(j as int));
                assert(code.take(j + 1).last() == code[j as int]);
            }
            j = j + 1;
        }
        proof {
            assert(code.take(j as int) =~= code);
            assert(marks[k as int] == mark@);
            lemma_first_index(r.spec_keys(), mark@);
            if first_index(r.spec_keys(), mark@) is Some {
                let a = first_index(r.spec_keys(), mark@).unwrap();
                assert(r.spec_keys().map_values(|s: String| s@)[a] == marks[a]);
                assert(map.spec_keys()[a]@ != map.spec_keys()[k as int]@);
            }
        }
        let ghost r0 = r;
        r.insert(mark.clone(), all);
        proof {
            assert(r.spec_keys().map_values(|s: String| s@) =~= marks.take(k + 1));
            assert forall|i: int| 0 <= i < k + 1 implies code_view(#[trigger] r.spec_values()[i])
                == flat_code(objs[i].code) by {
                if i < k {
                    assert(r.spec_values()[i] == r0.spec_values()[i]);
                }
            }
        }
        k = k + 1;
    }
    proof {
        assert(marks.take(k as int) =~= marks);
    }
    r
}

} // verus!
