//! Character-level helpers on strings, each specified over `Seq<char>`.
//!
//! The decompiler matches opcode names, strips quotes and brackets from
//! argument values, splits tuples and joins generated lines; these functions
//! give those operations exact contracts.

use vstd::prelude::*;

verus! {

/// `p` is a prefix of `s`.
pub open spec fn starts_with_seq(s: Seq<char>, p: Seq<char>) -> bool {
    p.len() <= s.len() && s.subrange(0, p.len() as int) == p
}

/// `p` is a suffix of `s`.
pub open spec fn ends_with_seq(s: Seq<char>, p: Seq<char>) -> bool {
    p.len() <= s.len() && s.subrange(s.len() - p.len(), s.len() as int) == p
}

/// `p` occurs in `s` starting at index `i`.
pub open spec fn occurs_at(s: Seq<char>, p: Seq<char>, i: int) -> bool {
    0 <= i && i + p.len() <= s.len() && s.subrange(i, i + p.len()) == p
}

/// `p` occurs somewhere in `s`.
pub open spec fn contains_seq(s: Seq<char>, p: Seq<char>) -> bool {
    exists|i: int| occurs_at(s, p, i)
}

/// The first index at or after `k` where `p` occurs in `s`.
pub open spec fn find_from(s: Seq<char>, p: Seq<char>, k: nat) -> Option<nat>
    decreases s.len() + 1 - k,
{
    if k + p.len() > s.len() {
        None
    } else if s.subrange(k as int, (k + p.len()) as int) == p {
        Some(k)
    } else {
        find_from(s, p, k + 1)
    }
}

/// `s` with every leading copy of the non-empty pattern `p` removed.
pub open spec fn trim_start_seq(s: Seq<char>, p: Seq<char>) -> Seq<char>
    decreases s.len(),
{
    if p.len() > 0 && starts_with_seq(s, p) {
        trim_start_seq(s.subrange(p.len() as int, s.len() as int), p)
    } else {
        s
    }
}

/// `s` with every trailing copy of the non-empty pattern `p` removed.
pub open spec fn trim_end_seq(s: Seq<char>, p: Seq<char>) -> Seq<char>
    decreases s.len(),
{
    if p.len() > 0 && ends_with_seq(s, p) {
        trim_end_seq(s.subrange(0, s.len() - p.len()), p)
    } else {
        s
    }
}

/// `s` with copies of `p` removed from both ends.
pub open spec fn trim_both_seq(s: Seq<char>, p: Seq<char>) -> Seq<char> {
    trim_end_seq(trim_start_seq(s, p), p)
}

/// The pieces of `s[start..]` between the occurrences of the non-empty
/// separator `sep`, scanned left to right.
pub open spec fn split_from(s: Seq<char>, sep: Seq<char>, start: nat) -> Seq<Seq<char>>
    decreases s.len() + 1 - start,
{
    if start > s.len() || sep.len() == 0 {
        Seq::empty()
    } else {
        match find_from(s, sep, start) {
            None => seq![s.subrange(start as int, s.len() as int)],
            Some(i) => if start <= i && i + sep.len() <= s.len() {
                seq![s.subrange(start as int, i as int)] + split_from(s, sep, i + sep.len())
            } else {
                Seq::empty()
            },
        }
    }
}

/// `s` split at every occurrence of the non-empty separator `sep`.
pub open spec fn split_seq(s: Seq<char>, sep: Seq<char>) -> Seq<Seq<char>> {
    split_from(s, sep, 0)
}

/// The strings of `list` placed one after another with `sep` between them.
pub open spec fn join_seq(list: Seq<Seq<char>>, sep: Seq<char>) -> Seq<char>
    decreases list.len(),
{
    if list.len() == 0 {
        Seq::empty()
    } else if list.len() == 1 {
        list[0]
    } else {
        join_seq(list.drop_last(), sep) + sep + list.last()
    }
}

/// `s` repeated `n` times.
pub open spec fn repeat_seq(s: Seq<char>, n: nat) -> Seq<char>
    decreases n,
{
    if n == 0 {
        Seq::empty()
    } else {
        repeat_seq(s, (n - 1) as nat) + s
    }
}

/// A decimal digit.
pub open spec fn is_digit(c: char) -> bool {
    '0' <= c && c <= '9'
}

/// The value of a string of decimal digits.
pub open spec fn digits_value(s: Seq<char>) -> nat
    decreases s.len(),
{
    if s.len() == 0 {
        0
    } else {
        digits_value(s.drop_last()) * 10 + ((s.last() as int - '0' as int) as nat)
    }
}

/// All characters of `s` are decimal digits.
pub open spec fn all_digits(s: Seq<char>) -> bool {
    forall|i: int| 0 <= i < s.len() ==> is_digit(#[trigger] s[i])
}

/// What parsing `s` as a `usize` gives: an optional `+` then at least one
/// digit, with a value that fits.
pub open spec fn parse_usize_spec(s: Seq<char>) -> Option<usize> {
    let d = if s.len() > 0 && s[0] == '+' {
        s.drop_first()
    } else {
        s
    };
    if d.len() > 0 && all_digits(d) && digits_value(d) <= usize::MAX {
        Some(digits_value(d) as usize)
    } else {
        None
    }
}

/// The strings of a vector of strings, as character sequences.
pub open spec fn strings_view(v: Seq<String>) -> Seq<Seq<char>> {
    v.map_values(|s: String| s@)
}

/// The characters that `str::to_lowercase` gives for `s`.
pub uninterp spec fn lowercase(s: Seq<char>) -> Seq<char>;

/// Every character of `s` is ASCII.
pub open spec fn all_ascii(s: Seq<char>) -> bool {
    forall|i: int| 0 <= i < s.len() ==> (#[trigger] s[i]) as u32 <= 0x7f
}

/// `c` with an ASCII capital turned into its small letter.
pub open spec fn ascii_lower_char(c: char) -> char {
    if 'A' <= c <= 'Z' {
        ((c as u32) + 32) as char
    } else {
        c
    }
}

/// `s` with each ASCII capital turned into its small letter.
pub open spec fn ascii_lower(s: Seq<char>) -> Seq<char> {
    s.map_values(|c: char| ascii_lower_char(c))
}

/// Calls `str::to_lowercase`. Its result is named `lowercase` of the
/// input's characters; on ASCII text it is stated: the lower-case mapping
/// takes `A`..`Z` to `a`..`z` and leaves every other ASCII character as it
/// is. The Unicode case mapping of other characters is not restated.
#[verifier::external_body]
pub(crate) fn to_lowercase(s: &str) -> (r: String)
    ensures
        r@ == lowercase(s@),
        all_ascii(s@) ==> r@ == ascii_lower(s@),
{
    s.to_lowercase()
}

/// Whether `a` and `b` hold the same characters.
pub fn str_eq(a: &str, b: &str) -> (r: bool)
    ensures
        r == (a@ == b@),
{
    let n = a.unicode_len();
    let m = b.unicode_len();
    if n != m {
        return false;
    }
    let mut i: usize = 0;
    while i < n
        invariant
            n == a@.len(),
            m == b@.len(),
            n == m,
            i <= n,
            forall|j: int| 0 <= j < i ==> a@[j] == b@[j],
        decreases n - i,
    {
        if a.get_char(i) != b.get_char(i) {
            return false;
        }
        i = i + 1;
    }
    assert(a@ =~= b@);
    true
}

/// Whether `p` occurs in `s` at character index `at`.
pub fn matches_at(s: &str, p: &str, at: usize) -> (r: bool)
    ensures
        r == occurs_at(s@, p@, at as int),
{
    let n = s.unicode_len();
    let m = p.unicode_len();
    if at > n || m > n - at {
        return false;
    }
    let mut i: usize = 0;
    while i < m
        invariant
            n == s@.len(),
            m == p@.len(),
            at + m <= n,
            i <= m,
            forall|j: int| 0 <= j < i ==> s@[at + j] == p@[j],
        decreases m - i,
    {
        if s.get_char(at + i) != p.get_char(i) {
            assert(s@.subrange(at as int, at + m)[i as int] != p@[i as int]);
            return false;
        }
        i = i + 1;
    }
    assert(s@.subrange(at as int, at + m) =~= p@);
    true
}

/// Whether `s` begins with `p`.
pub fn starts_with(s: &str, p: &str) -> (r: bool)
    ensures
        r == starts_with_seq(s@, p@),
{
    matches_at(s, p, 0)
}

/// Whether `s` ends with `p`.
pub fn ends_with(s: &str, p: &str) -> (r: bool)
    ensures
        r == ends_with_seq(s@, p@),
{
    let n = s.unicode_len();
    let m = p.unicode_len();
    if m > n {
        return false;
    }
    matches_at(s, p, n - m)
}

/// The first index at or after `from` where `p` occurs in `s`.
pub fn find_str(s: &str, p: &str, from: usize) -> (r: Option<usize>)
    ensures
        r == (match find_from(s@, p@, from as nat) {
            Some(i) => Some(i as usize),
            None => None::<usize>,
        }),
{
    let n = s.unicode_len();
    let m = p.unicode_len();
    let mut k = from;
    while k <= n && m <= n - k
        invariant
            n == s@.len(),
            m == p@.len(),
            from <= k,
            find_from(s@, p@, from as nat) == find_from(s@, p@, k as nat),
        decreases n + 1 - k,
    {
        if matches_at(s, p, k) {
            return Some(k);
        }
        if k == n {
            proof {
                if m == 0 {
                    assert(s@.subrange(k as int, k as int) =~= p@);
                }
            }
            return None;
        }
        k = k + 1;
    }
    None
}

/// Whether `p` occurs anywhere in `s`.
pub fn contains_str(s: &str, p: &str) -> (r: bool)
    ensures
        r == contains_seq(s@, p@),
{
    let r = find_str(s, p, 0);
    proof {
        lemma_find_from_contains(s@, p@, 0);
    }
    r.is_some()
}

/// `find_from` is some exactly when `p` occurs at or after `k`, and it
/// finds an occurrence.
pub proof fn lemma_find_from_contains(s: Seq<char>, p: Seq<char>, k: nat)
    ensures
        find_from(s, p, k) is Some <==> exists|i: int| k <= i && occurs_at(s, p, i),
        find_from(s, p, k) matches Some(i) ==> k <= i && occurs_at(s, p, i as int),
    decreases s.len() + 1 - k,
{
    if k + p.len() > s.len() {
    } else if s.subrange(k as int, (k + p.len()) as int) == p {
        assert(occurs_at(s, p, k as int));
    } else {
        lemma_find_from_contains(s, p, k + 1);
        if exists|i: int| k <= i && occurs_at(s, p, i) {
            let i = choose|i: int| k <= i && occurs_at(s, p, i);
            if i == k {
                assert(false);
            }
            assert(k + 1 <= i);
        }
    }
}

/// `s` with its characters from `from` up to `to`.
pub fn substring(s: &str, from: usize, to: usize) -> (r: String)
    requires
        from <= to <= s@.len(),
    ensures
        r@ == s@.subrange(from as int, to as int),
{
    String::from_str(s.substring_char(from, to))
}

/// `s` with every leading copy of `p` removed.
pub fn trim_start_matches(s: &str, p: &str) -> (r: String)
    ensures
        r@ == trim_start_seq(s@, p@),
{
    let n = s.unicode_len();
    let m = p.unicode_len();
    if m == 0 {
        return String::from_str(s);
    }
    let mut k: usize = 0;
    assert(s@.subrange(0, n as int) =~= s@);
    while k <= n && matches_at(s, p, k)
        invariant
            n == s@.len(),
            m == p@.len(),
            m > 0,
            k <= n,
            trim_start_seq(s@, p@) == trim_start_seq(s@.subrange(k as int, n as int), p@),
        decreases n - k,
    {
        proof {
            let t = s@.subrange(k as int, n as int);
            assert(t.subrange(0, m as int) =~= s@.subrange(k as int, k + m));
            assert(t.subrange(m as int, t.len() as int) =~= s@.subrange(k + m, n as int));
        }
        k = k + m;
    }
    proof {
        let t = s@.subrange(k as int, n as int);
        if starts_with_seq(t, p@) {
            assert(t.subrange(0, m as int) =~= s@.subrange(k as int, k + m));
        }
    }
    substring(s, k, n)
}

/// `s` with every trailing copy of `p` removed.
pub fn trim_end_matches(s: &str, p: &str) -> (r: String)
    ensures
        r@ == trim_end_seq(s@, p@),
{
    let n = s.unicode_len();
    let m = p.unicode_len();
    if m == 0 {
        return String::from_str(s);
    }
    let mut k: usize = n;
    assert(s@.subrange(0, n as int) =~= s@);
    while k >= m && matches_at(s, p, k - m)
        invariant
            n == s@.len(),
            m == p@.len(),
            m > 0,
            k <= n,
            trim_end_seq(s@, p@) == trim_end_seq(s@.subrange(0, k as int), p@),
        decreases k,
    {
        proof {
            let t = s@.subrange(0, k as int);
            assert(t.subrange(t.len() - m, t.len() as int) =~= s@.subrange(k - m, k as int));
            assert(t.subrange(0, t.len() - m) =~= s@.subrange(0, k - m));
        }
        k = k - m;
    }
    proof {
        let t = s@.subrange(0, k as int);
        if ends_with_seq(t, p@) {
            assert(t.subrange(t.len() - m, t.len() as int) =~= s@.subrange(k - m, k as int));
        }
    }
    substring(s, 0, k)
}

/// `s` with copies of `p` removed from both ends.
pub fn trim_matches(s: &str, p: &str) -> (r: String)
    ensures
        r@ == trim_both_seq(s@, p@),
{
    let t = trim_start_matches(s, p);
    trim_end_matches(t.as_str(), p)
}

/// A copy of `s`.
pub fn to_owned_string(s: &str) -> (r: String)
    ensures
        r@ == s@,
{
    String::from_str(s)
}

/// `a` followed by `b`.
pub fn concat2(a: &str, b: &str) -> (r: String)
    ensures
        r@ == a@ + b@,
{
    let mut r = String::from_str(a);
    r.append(b);
    r
}

/// `a`, `b` and `c` one after another.
pub fn concat3(a: &str, b: &str, c: &str) -> (r: String)
    ensures
        r@ == a@ + b@ + c@,
{
    let mut r = String::from_str(a);
    r.append(b);
    r.append(c);
    r
}

/// The strings of `parts` with `sep` between consecutive ones.
pub fn join(parts: &Vec<String>, sep: &str) -> (r: String)
    ensures
        r@ == join_seq(strings_view(parts@), sep@),
{
    let ghost list = strings_view(parts@);
    let mut r = String::new();
    let mut i: usize = 0;
    while i < parts.len()
        invariant
            list == strings_view(parts@),
            i <= parts.len(),
            r@ == join_seq(list.take(i as int), sep@),
        decreases parts.len() - i,
    {
        if i != 0 {
            r.append(sep);
        }
        r.append(parts[i].as_str());
        proof {
            assert(list.take(i + 1).drop_last() =~= list.take(i as int));
            assert(list.take(i + 1).last() == parts@[i as int]@);
            if i == 0 {
                assert(list.take(1) =~= seq![parts@[0]@]);
            }
        }
        i = i + 1;
    }
    assert(list.take(parts.len() as int) =~= list);
    r
}

/// Splitting always gives at least one piece.
pub proof fn lemma_split_nonempty(s: Seq<char>, sep: Seq<char>, start: nat)
    requires
        start <= s.len(),
        sep.len() > 0,
    ensures
        split_from(s, sep, start).len() >= 1,
{
    lemma_find_from_contains(s, sep, start);
}

/// The pieces of `s` between the occurrences of the non-empty separator
/// `sep`.
pub fn split(s: &str, sep: &str) -> (r: Vec<String>)
    requires
        sep@.len() > 0,
    ensures
        strings_view(r@) == split_seq(s@, sep@),
        r@.len() >= 1,
{
    proof {
        lemma_split_nonempty(s@, sep@, 0);
    }
    let n = s.unicode_len();
    let m = sep.unicode_len();
    let mut r: Vec<String> = Vec::new();
    let mut start: usize = 0;
    loop
        invariant
            n == s@.len(),
            m == sep@.len(),
            m > 0,
            start <= n,
            strings_view(r@) + split_from(s@, sep@, start as nat) == split_seq(s@, sep@),
        decreases n + 1 - start,
    {
        let found = find_str(s, sep, start);
        proof {
            lemma_find_from_contains(s@, sep@, start as nat);
        }
        match found {
            None => {
                let piece = substring(s, start, n);
                let ghost before = r@;
                r.push(piece);
                proof {
                    assert(strings_view(r@) =~= strings_view(before).push(piece@));
                    assert(split_from(s@, sep@, start as nat) =~= seq![piece@]);
                    assert(strings_view(before) + seq![piece@] =~= strings_view(r@));
                    assert(strings_view(r@).len() == r@.len());
                }
                return r;
            },
            Some(i) => {
                let piece = substring(s, start, i);
                let ghost before = r@;
                r.push(piece);
                proof {
                    assert(strings_view(r@) =~= strings_view(before).push(piece@));
                    let rest = split_from(s@, sep@, (i + m) as nat);
                    assert(split_from(s@, sep@, start as nat) =~= seq![piece@] + rest);
                    assert(strings_view(before) + (seq![piece@] + rest) =~= strings_view(r@)
                        + rest);
                }
                start = i + m;
            },
        }
    }
}

/// A longer digit string is worth at least as much as its prefixes.
pub proof fn lemma_digits_value_prefix(d: Seq<char>, k: int)
    requires
        0 <= k <= d.len(),
        all_digits(d),
    ensures
        digits_value(d.take(k)) <= digits_value(d),
    decreases d.len(),
{
    if k < d.len() {
        let e = d.drop_last();
        assert(all_digits(e)) by {
            assert forall|i: int| 0 <= i < e.len() implies is_digit(#[trigger] e[i]) by {
                assert(e[i] == d[i]);
            }
        }
        lemma_digits_value_prefix(e, k);
        assert(e.take(k) =~= d.take(k));
        let v = digits_value(e);
        assert(digits_value(d) == v * 10 + ((d.last() as int - '0' as int) as nat));
        assert(v <= v * 10) by (nonlinear_arith);
    } else {
        assert(d.take(k) =~= d);
    }
}

/// The value of the decimal digit `c`.
fn digit_value(c: char) -> (r: usize)
    requires
        is_digit(c),
    ensures
        r == c as int - '0' as int,
        r < 10,
{
    let x = c as u32;
    let z = '0' as u32;
    (x - z) as usize
}

/// `s` read as a decimal `usize`: an optional `+` then digits, `None` when
/// it is empty, holds another character, or does not fit.
pub fn parse_usize(s: &str) -> (r: Option<usize>)
    ensures
        r == parse_usize_spec(s@),
{
    let n = s.unicode_len();
    let start: usize = if n > 0 && s.get_char(0) == '+' {
        1
    } else {
        0
    };
    let ghost d = if s@.len() > 0 && s@[0] == '+' {
        s@.drop_first()
    } else {
        s@
    };
    assert(d =~= s@.subrange(start as int, n as int));
    if start == n {
        return None;
    }
    let mut v: usize = 0;
    let mut i: usize = start;
    while i < n
        invariant
            n == s@.len(),
            start <= i <= n,
            d == s@.subrange(start as int, n as int),
            d == (if s@.len() > 0 && s@[0] == '+' {
                s@.drop_first()
            } else {
                s@
            }),
            all_digits(d.take(i - start)),
            v == digits_value(d.take(i - start)),
        decreases n - i,
    {
        let c = s.get_char(i);
        assert(c == d[i - start]);
        if !(c >= '0' && c <= '9') {
            assert(!is_digit(d[i - start]));
            assert(!all_digits(d));
            return None;
        }
        let dv = digit_value(c);
        let ghost pre = d.take(i - start);
        let ghost next = d.take(i - start + 1);
        assert(next.drop_last() =~= pre);
        assert(next.last() == c);
        assert(digits_value(next) == digits_value(pre) * 10 + dv);
        if v > (usize::MAX - dv) / 10 {
            proof {
                assert(v * 10 + dv > usize::MAX) by (nonlinear_arith)
                    requires v > (usize::MAX - dv) / 10, dv < 10;
                if all_digits(d) {
                    lemma_digits_value_prefix(d, i - start + 1);
                }
            }
            return None;
        }
        assert(v * 10 + dv <= usize::MAX) by (nonlinear_arith)
            requires v <= (usize::MAX - dv) / 10, dv < 10;
        v = v * 10 + dv;
        proof {
            assert forall|j: int| 0 <= j < next.len() implies is_digit(#[trigger] next[j]) by {
                if j < pre.len() {
                    assert(next[j] == pre[j]);
                }
            }
        }
        i = i + 1;
    }
    assert(d.take(n - start) =~= d);
    Some(v)
}

/// What `str::replace` gives: `s` with every occurrence of the non-empty
/// `from` replaced by `to`.
pub open spec fn replace_seq(s: Seq<char>, from: Seq<char>, to: Seq<char>) -> Seq<char> {
    join_seq(split_seq(s, from), to)
}

/// `s` with every occurrence of the non-empty `from` replaced by `to`.
pub fn replace(s: &str, from: &str, to: &str) -> (r: String)
    requires
        from@.len() > 0,
    ensures
        r@ == replace_seq(s@, from@, to@),
{
    let pieces = split(s, from);
    join(&pieces, to)
}

/// Whether some string of `v` holds the characters of `x`.
pub fn contains_string(v: &Vec<String>, x: &str) -> (r: bool)
    ensures
        r == strings_view(v@).contains(x@),
{
    let mut i: usize = 0;
    while i < v.len()
        invariant
            i <= v.len(),
            forall|j: int| 0 <= j < i ==> v@[j]@ != x@,
        decreases v.len() - i,
    {
        if str_eq(v[i].as_str(), x) {
            assert(strings_view(v@)[i as int] == x@);
            return true;
        }
        i = i + 1;
    }
    proof {
        if strings_view(v@).contains(x@) {
            let k = choose|k: int| 0 <= k < strings_view(v@).len() && strings_view(v@)[k] == x@;
            assert(v@[k]@ == x@);
        }
    }
    false
}

/// `s` repeated `n` times.
pub fn repeat(s: &str, n: usize) -> (r: String)
    ensures
        r@ == repeat_seq(s@, n as nat),
{
    let mut r = String::new();
    let mut i: usize = 0;
    while i < n
        invariant
            i <= n,
            r@ == repeat_seq(s@, i as nat),
        decreases n - i,
    {
        r.append(s);
        i = i + 1;
    }
    r
}

/// Whether every character of `s` is a decimal digit.
pub fn is_all_digits(s: &str) -> (r: bool)
    ensures
        r == all_digits(s@),
{
    let n = s.unicode_len();
    let mut i: usize = 0;
    while i < n
        invariant
            n == s@.len(),
            i <= n,
            forall|j: int| 0 <= j < i ==> is_digit(#[trigger] s@[j]),
        decreases n - i,
    {
        let c = s.get_char(i);
        if !(c >= '0' && c <= '9') {
            assert(!is_digit(s@[i as int]));
            return false;
        }
        i = i + 1;
    }
    true
}


/// Where `find_from` finds `p`, it occurs there, at or after `k`.
proof fn lemma_find_from(s: Seq<char>, p: Seq<char>, k: nat)
    ensures
        find_from(s, p, k) matches Some(i) ==> k <= i && i + p.len() <= s.len() && s.subrange(
            i as int,
            (i + p.len()) as int,
        ) == p,
    decreases s.len() + 1 - k,
{
    if k + p.len() <= s.len() && s.subrange(k as int, (k + p.len()) as int) != p {
        lemma_find_from(s, p, k + 1);
    }
}

/// Joining a list with a first element in front.
proof fn lemma_join_prepend(a: Seq<char>, rest: Seq<Seq<char>>, sep: Seq<char>)
    requires
        rest.len() >= 1,
    ensures
        join_seq(seq![a] + rest, sep) == a + sep + join_seq(rest, sep),
    decreases rest.len(),
{
    let l = seq![a] + rest;
    if rest.len() == 1 {
        assert(l.drop_last() =~= seq![a]);
        assert(l.last() == rest[0]);
        assert(join_seq(l.drop_last(), sep) == a);
        assert(join_seq(rest, sep) == rest[0]);
        assert(join_seq(l, sep) == join_seq(l.drop_last(), sep) + sep + l.last());
    } else {
        lemma_join_prepend(a, rest.drop_last(), sep);
        assert(l.drop_last() =~= seq![a] + rest.drop_last());
        assert(l.last() == rest.last());
        assert(join_seq(l, sep) == join_seq(l.drop_last(), sep) + sep + l.last());
        assert(join_seq(rest, sep) == join_seq(rest.drop_last(), sep) + sep + rest.last());
        assert(a + sep + join_seq(rest.drop_last(), sep) + sep + rest.last() =~= a + sep + (join_seq(
            rest.drop_last(),
            sep,
        ) + sep + rest.last()));
    }
}

/// The pieces of `s[start..]` joined back with the separator give
/// `s[start..]`; there is at least one piece.
proof fn lemma_split_from_join(s: Seq<char>, sep: Seq<char>, start: nat)
    requires
        sep.len() > 0,
        start <= s.len(),
    ensures
        split_from(s, sep, start).len() >= 1,
        join_seq(split_from(s, sep, start), sep) == s.subrange(start as int, s.len() as int),
    decreases s.len() + 1 - start,
{
    lemma_find_from(s, sep, start);
    match find_from(s, sep, start) {
        None => {},
        Some(i) => {
            lemma_split_from_join(s, sep, i + sep.len());
            let rest = split_from(s, sep, i + sep.len());
            lemma_join_prepend(s.subrange(start as int, i as int), rest, sep);
            assert(s.subrange(start as int, i as int) + sep + s.subrange(
                (i + sep.len()) as int,
                s.len() as int,
            ) =~= s.subrange(start as int, s.len() as int));
        },
    }
}

/// Splitting at a non-empty separator and joining the pieces with it gives
/// the text back.
pub proof fn law_join_undoes_split(s: Seq<char>, sep: Seq<char>)
    requires
        sep.len() > 0,
    ensures
        join_seq(split_seq(s, sep), sep) == s,
{
    lemma_split_from_join(s, sep, 0);
    assert(s.subrange(0, s.len() as int) =~= s);
}

/// Replacing a non-empty text by itself changes nothing.
pub proof fn law_replace_by_itself(s: Seq<char>, p: Seq<char>)
    requires
        p.len() > 0,
    ensures
        replace_seq(s, p, p) == s,
{
    law_join_undoes_split(s, p);
}

} // verus!
