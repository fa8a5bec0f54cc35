//! Verified building blocks for character-level text processing.
//!
//! Every executable function here is proved equal to a small recursive
//! specification function over `Seq<char>`; the patcher's specification is
//! written in terms of those spec functions.

use vstd::prelude::*;
use vstd::string::StrSliceExecFns;
use vstd::string::StringExecFns;

verus! {

/// Characters that count as indentation at the start of a line.
pub open spec fn is_indent_char(c: char) -> bool {
    c == ' ' || c == '\t'
}

/// Characters trimmed around keys and values.
pub open spec fn is_space_char(c: char) -> bool {
    c == ' ' || c == '\t' || c == '\r' || c == '\n'
}

/// First position in `[i, end)` holding a non-indentation character, or `end`.
pub open spec fn skip_indent(s: Seq<char>, i: int, end: int) -> int
    recommends
        0 <= i <= end <= s.len(),
    decreases end - i,
    when i <= end
{
    if i >= end {
        end
    } else if is_indent_char(s[i]) {
        skip_indent(s, i + 1, end)
    } else {
        i
    }
}

/// First position in `[i, end)` holding a non-space character, or `end`.
pub open spec fn skip_spaces(s: Seq<char>, i: int, end: int) -> int
    recommends
        0 <= i <= end <= s.len(),
    decreases end - i,
    when i <= end
{
    if i >= end {
        end
    } else if is_space_char(s[i]) {
        skip_spaces(s, i + 1, end)
    } else {
        i
    }
}

/// Position one past the last non-space character of `[i, end)`, or `i`.
pub open spec fn rtrim_spaces(s: Seq<char>, i: int, end: int) -> int
    recommends
        0 <= i <= end <= s.len(),
    decreases end - i,
    when i <= end
{
    if end <= i {
        i
    } else if is_space_char(s[end - 1]) {
        rtrim_spaces(s, i, end - 1)
    } else {
        end
    }
}

/// First occurrence of `c` in `[i, end)`.
pub open spec fn find_char(s: Seq<char>, c: char, i: int, end: int) -> Option<int>
    recommends
        0 <= i <= end <= s.len(),
    decreases end - i,
    when i <= end
{
    if i >= end {
        None
    } else if s[i] == c {
        Some(i)
    } else {
        find_char(s, c, i + 1, end)
    }
}

/// The trimmed subrange of `[i, end)`: spaces removed on both sides.
pub open spec fn trimmed(s: Seq<char>, i: int, end: int) -> Seq<char>
    recommends
        0 <= i <= end <= s.len(),
{
    let lo = skip_spaces(s, i, end);
    let hi = rtrim_spaces(s, lo, end);
    s.subrange(lo, hi)
}

pub proof fn lemma_skip_indent_bounds(s: Seq<char>, i: int, end: int)
    requires
        0 <= i <= end <= s.len(),
    ensures
        i <= skip_indent(s, i, end) <= end,
    decreases end - i,
{
    if i < end && is_indent_char(s[i]) {
        lemma_skip_indent_bounds(s, i + 1, end);
    }
}

pub proof fn lemma_skip_spaces_bounds(s: Seq<char>, i: int, end: int)
    requires
        0 <= i <= end <= s.len(),
    ensures
        i <= skip_spaces(s, i, end) <= end,
    decreases end - i,
{
    if i < end && is_space_char(s[i]) {
        lemma_skip_spaces_bounds(s, i + 1, end);
    }
}

pub proof fn lemma_rtrim_spaces_bounds(s: Seq<char>, i: int, end: int)
    requires
        0 <= i <= end <= s.len(),
    ensures
        i <= rtrim_spaces(s, i, end) <= end,
    decreases end - i,
{
    if end > i && is_space_char(s[end - 1]) {
        lemma_rtrim_spaces_bounds(s, i, end - 1);
    }
}

pub proof fn lemma_find_char_bounds(s: Seq<char>, c: char, i: int, end: int)
    requires
        0 <= i <= end <= s.len(),
    ensures
        find_char(s, c, i, end) is Some ==> i <= find_char(s, c, i, end)->0 < end,
    decreases end - i,
{
    if i < end && s[i] != c {
        lemma_find_char_bounds(s, c, i + 1, end);
    }
}

/// Last occurrence of `c` in `[i, end)`.
pub open spec fn rfind_char(s: Seq<char>, c: char, i: int, end: int) -> Option<int>
    recommends
        0 <= i <= end <= s.len(),
    decreases end - i,
    when i <= end
{
    if i >= end {
        None
    } else if s[end - 1] == c {
        Some(end - 1)
    } else {
        rfind_char(s, c, i, end - 1)
    }
}

/// First position in `[i, end)` whose character is not `c`, or `end`.
pub open spec fn skip_char_run(s: Seq<char>, c: char, i: int, end: int) -> int
    recommends
        0 <= i <= end <= s.len(),
    decreases end - i,
    when i <= end
{
    if i >= end {
        end
    } else if s[i] == c {
        skip_char_run(s, c, i + 1, end)
    } else {
        i
    }
}

/// Position one past the last character of `[i, end)` that is not `c`, or `i`.
pub open spec fn rtrim_char_run(s: Seq<char>, c: char, i: int, end: int) -> int
    recommends
        0 <= i <= end <= s.len(),
    decreases end - i,
    when i <= end
{
    if end <= i {
        i
    } else if s[end - 1] == c {
        rtrim_char_run(s, c, i, end - 1)
    } else {
        end
    }
}

/// First position in `[i, end)` holding a space character, or `end`.
pub open spec fn until_space(s: Seq<char>, i: int, end: int) -> int
    recommends
        0 <= i <= end <= s.len(),
    decreases end - i,
    when i <= end
{
    if i >= end {
        end
    } else if is_space_char(s[i]) {
        i
    } else {
        until_space(s, i + 1, end)
    }
}

/// First occurrence of the substring `pat` in `s` at or after `i`.
pub open spec fn find_sub(s: Seq<char>, pat: Seq<char>, i: int) -> Option<int>
    recommends
        0 <= i <= s.len(),
    decreases s.len() - i,
    when 0 <= i <= s.len()
{
    if i + pat.len() > s.len() {
        None
    } else if pat.len() == 0 {
        Some(i)
    } else if s.subrange(i, i + pat.len() as int) == pat {
        Some(i)
    } else {
        find_sub(s, pat, i + 1)
    }
}

/// Does `s` contain the substring `pat`?
pub open spec fn contains_sub(s: Seq<char>, pat: Seq<char>) -> bool {
    find_sub(s, pat, 0) is Some
}

/// The pieces of `[i, end)` split on the separator `sep`, kept verbatim.
pub open spec fn split_raw(s: Seq<char>, sep: char, i: int, end: int) -> Seq<Seq<char>>
    decreases end - i,
    when 0 <= i <= end <= s.len()
    via split_raw_dec
{
    match find_char(s, sep, i, end) {
        None => seq![s.subrange(i, end)],
        Some(d) => seq![s.subrange(i, d)] + split_raw(s, sep, d + 1, end),
    }
}

#[via_fn]
proof fn split_raw_dec(s: Seq<char>, sep: char, i: int, end: int) {
    lemma_find_char_bounds(s, sep, i, end);
}

/// The view of an optional string.
pub open spec fn opt_str_view(o: Option<String>) -> Option<Seq<char>> {
    match o {
        Some(s) => Some(s@),
        None => None,
    }
}

/// Characters equal up to ASCII case.
pub open spec fn eq_ic_char(a: char, b: char) -> bool {
    a == b || ('A' <= a && a <= 'Z' && (a as u32) + 32 == (b as u32)) || ('A' <= b && b <= 'Z' && (
    b as u32) + 32 == (a as u32))
}

/// Strings equal up to ASCII case.
pub open spec fn eq_ignore_case(s: Seq<char>, t: Seq<char>) -> bool {
    s.len() == t.len() && (forall|i: int| 0 <= i < s.len() ==> eq_ic_char(s[i], #[trigger] t[i]))
}

/// The decimal digit character for `n < 10`.
pub open spec fn digit_char(n: int) -> char {
    if n == 0 {
        '0'
    } else if n == 1 {
        '1'
    } else if n == 2 {
        '2'
    } else if n == 3 {
        '3'
    } else if n == 4 {
        '4'
    } else if n == 5 {
        '5'
    } else if n == 6 {
        '6'
    } else if n == 7 {
        '7'
    } else if n == 8 {
        '8'
    } else {
        '9'
    }
}

/// The decimal numeral of `n`.
pub open spec fn dec_str(n: int) -> Seq<char>
    recommends
        n >= 0,
    decreases n,
    when n >= 0
{
    if n < 10 {
        seq![digit_char(n)]
    } else {
        dec_str(n / 10) + seq![digit_char(n % 10)]
    }
}

/// Number of characters in `s`.
pub fn char_len(s: &str) -> (n: usize)
    ensures
        n == s@.len(),
{
    s.unicode_len()
}

/// Executable counterpart of `skip_indent` over the whole prefix of `s`.
pub fn skip_indent_exec(s: &str, from: usize, end: usize) -> (r: usize)
    requires
        from <= end <= s@.len(),
    ensures
        r == skip_indent(s@, from as int, end as int),
        from <= r <= end,
{
    proof {
        lemma_skip_indent_bounds(s@, from as int, end as int);
    }
    let mut i: usize = from;
    while i < end
        invariant
            from <= i <= end <= s@.len(),
            skip_indent(s@, from as int, end as int) == skip_indent(s@, i as int, end as int),
            i <= skip_indent(s@, from as int, end as int) || skip_indent(
                s@,
                from as int,
                end as int,
            ) == skip_indent(s@, i as int, end as int),
        decreases end - i,
    {
        let c = s.get_char(i);
        if !(c == ' ' || c == '\t') {
            return i;
        }
        i = i + 1;
    }
    i
}

/// Executable counterpart of `skip_spaces`.
pub fn skip_spaces_exec(s: &str, from: usize, end: usize) -> (r: usize)
    requires
        from <= end <= s@.len(),
    ensures
        r == skip_spaces(s@, from as int, end as int),
        from <= r <= end,
{
    proof {
        lemma_skip_spaces_bounds(s@, from as int, end as int);
    }
    let mut i: usize = from;
    while i < end
        invariant
            from <= i <= end <= s@.len(),
            skip_spaces(s@, from as int, end as int) == skip_spaces(s@, i as int, end as int),
        decreases end - i,
    {
        let c = s.get_char(i);
        if !(c == ' ' || c == '\t' || c == '\r' || c == '\n') {
            return i;
        }
        i = i + 1;
    }
    i
}

/// Executable counterpart of `rtrim_spaces`.
pub fn rtrim_spaces_exec(s: &str, from: usize, end: usize) -> (r: usize)
    requires
        from <= end <= s@.len(),
    ensures
        r == rtrim_spaces(s@, from as int, end as int),
        from <= r <= end,
{
    proof {
        lemma_rtrim_spaces_bounds(s@, from as int, end as int);
    }
    let mut e: usize = end;
    while e > from
        invariant
            from <= e <= end <= s@.len(),
            rtrim_spaces(s@, from as int, end as int) == rtrim_spaces(s@, from as int, e as int),
        decreases e,
    {
        let c = s.get_char(e - 1);
        if !(c == ' ' || c == '\t' || c == '\r' || c == '\n') {
            return e;
        }
        e = e - 1;
    }
    e
}

/// Executable counterpart of `find_char`.
pub fn find_char_exec(s: &str, c: char, from: usize, end: usize) -> (r: Option<usize>)
    requires
        from <= end <= s@.len(),
    ensures
        match r {
            Some(j) => from <= j < end && find_char(s@, c, from as int, end as int) == Some(
                j as int,
            ),
            None => find_char(s@, c, from as int, end as int) is None,
        },
{
    let mut i: usize = from;
    while i < end
        invariant
            from <= i <= end <= s@.len(),
            find_char(s@, c, from as int, end as int) == find_char(s@, c, i as int, end as int),
        decreases end - i,
    {
        if s.get_char(i) == c {
            return Some(i);
        }
        i = i + 1;
    }
    None
}

/// An owned copy of the character range `[from, to)` of `s`.
pub fn substr_copy(s: &str, from: usize, to: usize) -> (r: String)
    requires
        from <= to <= s@.len(),
    ensures
        r@ == s@.subrange(from as int, to as int),
{
    String::from_str(s.substring_char(from, to))
}

/// The trimmed copy of the character range `[from, to)` of `s`.
pub fn trimmed_copy(s: &str, from: usize, to: usize) -> (r: String)
    requires
        from <= to <= s@.len(),
    ensures
        r@ == trimmed(s@, from as int, to as int),
{
    let lo = skip_spaces_exec(s, from, to);
    let hi = rtrim_spaces_exec(s, lo, to);
    proof {
        lemma_rtrim_spaces_bounds(s@, lo as int, to as int);
    }
    substr_copy(s, lo, hi)
}

/// Character-wise equality of two string slices.
pub fn str_eq(a: &str, b: &str) -> (r: bool)
    ensures
        r == (a@ == b@),
{
    let an = a.unicode_len();
    let bn = b.unicode_len();
    if an != bn {
        proof {
            assert(a@ != b@) by {
                assert(a@.len() != b@.len());
            }
        }
        return false;
    }
    let mut i: usize = 0;
    while i < an
        invariant
            i <= an,
            an == a@.len(),
            an == b@.len(),
            forall|j: int| 0 <= j < i ==> a@[j] == b@[j],
        decreases an - i,
    {
        if a.get_char(i) != b.get_char(i) {
            return false;
        }
        i = i + 1;
    }
    proof {
        assert(a@ =~= b@);
    }
    true
}

/// Does `s` start with prefix `p`?
pub fn starts_with(s: &str, p: &str) -> (r: bool)
    ensures
        r == p@.is_prefix_of(s@),
{
    let sn = s.unicode_len();
    let pn = p.unicode_len();
    if pn > sn {
        return false;
    }
    let mut i: usize = 0;
    while i < pn
        invariant
            i <= pn,
            pn <= sn,
            sn == s@.len(),
            pn == p@.len(),
            forall|j: int| 0 <= j < i ==> s@[j] == p@[j],
        decreases pn - i,
    {
        if s.get_char(i) != p.get_char(i) {
            assert(!p@.is_prefix_of(s@)) by {
                assert(s@[i as int] != p@[i as int]);
            }
            return false;
        }
        i = i + 1;
    }
    proof {
        assert(p@ =~= s@.subrange(0, pn as int));
    }
    true
}

/// Does `s` end with suffix `p`?
pub fn ends_with(s: &str, p: &str) -> (r: bool)
    ensures
        r == p@.is_suffix_of(s@),
{
    let sn = s.unicode_len();
    let pn = p.unicode_len();
    if pn > sn {
        return false;
    }
    let off: usize = sn - pn;
    let mut i: usize = 0;
    while i < pn
        invariant
            i <= pn,
            pn <= sn,
            sn == s@.len(),
            pn == p@.len(),
            off == sn - pn,
            forall|j: int| 0 <= j < i ==> s@[off + j] == p@[j],
        decreases pn - i,
    {
        if s.get_char(off + i) != p.get_char(i) {
            assert(!p@.is_suffix_of(s@)) by {
                assert(s@.subrange(off as int, sn as int)[i as int] == s@[off + i as int]);
            }
            return false;
        }
        i = i + 1;
    }
    proof {
        assert(p@ =~= s@.subrange(off as int, sn as int));
    }
    true
}

/// `a` followed by `b`.
pub fn concat2(a: &str, b: &str) -> (r: String)
    ensures
        r@ == a@ + b@,
{
    let mut r = String::from_str(a);
    r.append(b);
    r
}

/// `a`, `b`, then `c`.
pub fn concat3(a: &str, b: &str, c: &str) -> (r: String)
    ensures
        r@ == a@ + b@ + c@,
{
    let mut r = String::from_str(a);
    r.append(b);
    r.append(c);
    r
}

/// `a`, `b`, `c`, then `d`.
pub fn concat4(a: &str, b: &str, c: &str, d: &str) -> (r: String)
    ensures
        r@ == a@ + b@ + c@ + d@,
{
    let mut r = String::from_str(a);
    r.append(b);
    r.append(c);
    r.append(d);
    r
}

/// Concatenation of five parts, the shape of every rewritten line.
pub fn concat5(a: &str, b: &str, c: &str, d: &str, e: &str) -> (r: String)
    ensures
        r@ == a@ + b@ + c@ + d@ + e@,
{
    let mut r = String::from_str(a);
    r.append(b);
    r.append(c);
    r.append(d);
    r.append(e);
    r
}

/// Executable counterpart of `rfind_char`.
pub fn rfind_char_exec(s: &str, c: char, from: usize, end: usize) -> (r: Option<usize>)
    requires
        from <= end <= s@.len(),
    ensures
        match r {
            Some(j) => from <= j < end && rfind_char(s@, c, from as int, end as int) == Some(
                j as int,
            ),
            None => rfind_char(s@, c, from as int, end as int) is None,
        },
{
    let mut e: usize = end;
    while e > from
        invariant
            from <= e <= end <= s@.len(),
            rfind_char(s@, c, from as int, end as int) == rfind_char(s@, c, from as int, e as int),
        decreases e,
    {
        if s.get_char(e - 1) == c {
            return Some(e - 1);
        }
        e = e - 1;
    }
    None
}

/// Executable counterpart of `skip_char_run`.
pub fn skip_char_run_exec(s: &str, c: char, from: usize, end: usize) -> (r: usize)
    requires
        from <= end <= s@.len(),
    ensures
        r == skip_char_run(s@, c, from as int, end as int),
        from <= r <= end,
{
    let mut i: usize = from;
    while i < end
        invariant
            from <= i <= end <= s@.len(),
            skip_char_run(s@, c, from as int, end as int) == skip_char_run(
                s@,
                c,
                i as int,
                end as int,
            ),
        decreases end - i,
    {
        if s.get_char(i) != c {
            return i;
        }
        i = i + 1;
    }
    i
}

/// Executable counterpart of `rtrim_char_run`.
pub fn rtrim_char_run_exec(s: &str, c: char, from: usize, end: usize) -> (r: usize)
    requires
        from <= end <= s@.len(),
    ensures
        r == rtrim_char_run(s@, c, from as int, end as int),
        from <= r <= end,
{
    let mut e: usize = end;
    while e > from
        invariant
            from <= e <= end <= s@.len(),
            rtrim_char_run(s@, c, from as int, end as int) == rtrim_char_run(
                s@,
                c,
                from as int,
                e as int,
            ),
        decreases e,
    {
        if s.get_char(e - 1) != c {
            return e;
        }
        e = e - 1;
    }
    e
}

/// Executable counterpart of `until_space`.
pub fn until_space_exec(s: &str, from: usize, end: usize) -> (r: usize)
    requires
        from <= end <= s@.len(),
    ensures
        r == until_space(s@, from as int, end as int),
        from <= r <= end,
{
    let mut i: usize = from;
    while i < end
        invariant
            from <= i <= end <= s@.len(),
            until_space(s@, from as int, end as int) == until_space(s@, i as int, end as int),
        decreases end - i,
    {
        let c = s.get_char(i);
        if c == ' ' || c == '\t' || c == '\r' || c == '\n' {
            return i;
        }
        i = i + 1;
    }
    i
}

/// Does `pat` occur in `s` starting exactly at `at`?
fn matches_at(s: &str, pat: &str, at: usize) -> (b: bool)
    requires
        at + pat@.len() <= s@.len(),
        s@.len() <= usize::MAX,
    ensures
        b == (s@.subrange(at as int, at + pat@.len()) == pat@),
{
    let pn = pat.unicode_len();
    let mut k: usize = 0;
    while k < pn
        invariant
            k <= pn,
            pn == pat@.len(),
            at + pn <= s@.len(),
            s@.len() <= usize::MAX,
            forall|j: int| 0 <= j < k ==> s@[at + j] == pat@[j],
        decreases pn - k,
    {
        if s.get_char(at + k) != pat.get_char(k) {
            assert(s@.subrange(at as int, at + pat@.len())[k as int] == s@[at + k as int]);
            return false;
        }
        k = k + 1;
    }
    proof {
        assert(s@.subrange(at as int, at + pat@.len()) =~= pat@);
    }
    true
}

/// Executable counterpart of `find_sub`.
pub fn find_sub_exec(s: &str, pat: &str, from: usize) -> (r: Option<usize>)
    requires
        from <= s@.len(),
    ensures
        match r {
            Some(j) => from <= j && j + pat@.len() <= s@.len() && find_sub(s@, pat@, from as int)
                == Some(j as int),
            None => find_sub(s@, pat@, from as int) is None,
        },
{
    let n = s.unicode_len();
    let pn = pat.unicode_len();
    if pn > n {
        return None;
    }
    if pn == 0 {
        return Some(from);
    }
    if from > n - pn {
        return None;
    }
    let mut i: usize = from;
    while i <= n - pn
        invariant
            from <= i,
            i <= n - pn + 1,
            n == s@.len(),
            pn == pat@.len(),
            0 < pn <= n,
            find_sub(s@, pat@, from as int) == find_sub(s@, pat@, i as int),
        decreases n - i,
    {
        if matches_at(s, pat, i) {
            return Some(i);
        }
        i = i + 1;
    }
    None
}

/// Does `s` contain `pat`?
pub fn contains_sub_exec(s: &str, pat: &str) -> (b: bool)
    ensures
        b == contains_sub(s@, pat@),
{
    match find_sub_exec(s, pat, 0) {
        Some(_) => true,
        None => false,
    }
}

/// Executable counterpart of `split_raw`.
pub fn split_raw_exec(s: &str, sep: char, from: usize, end: usize) -> (r: Vec<String>)
    requires
        from <= end <= s@.len(),
    ensures
        r.deep_view() == split_raw(s@, sep, from as int, end as int),
    decreases end - from,
{
    let mut r: Vec<String> = Vec::new();
    match find_char_exec(s, sep, from, end) {
        None => {
            r.push(substr_copy(s, from, end));
            proof {
                assert(r.deep_view() =~= split_raw(s@, sep, from as int, end as int));
            }
        },
        Some(d) => {
            r.push(substr_copy(s, from, d));
            let mut rest = split_raw_exec(s, sep, d + 1, end);
            let ghost first = r.deep_view();
            let ghost restv = rest.deep_view();
            r.append(&mut rest);
            proof {
                assert(r.deep_view() =~= first + restv);
                assert(r.deep_view() =~= split_raw(s@, sep, from as int, end as int));
            }
        },
    }
    r
}

/// Character-wise equality of two strings up to ASCII case.
pub fn str_eq_ignore_case(a: &str, b: &str) -> (r: bool)
    ensures
        r == eq_ignore_case(a@, b@),
{
    let an = a.unicode_len();
    let bn = b.unicode_len();
    if an != bn {
        return false;
    }
    let mut i: usize = 0;
    while i < an
        invariant
            i <= an,
            an == a@.len(),
            an == b@.len(),
            forall|j: int| 0 <= j < i ==> eq_ic_char(a@[j], #[trigger] b@[j]),
        decreases an - i,
    {
        let x = a.get_char(i);
        let y = b.get_char(i);
        let same = x == y || ('A' <= x && x <= 'Z' && (x as u32) + 32 == (y as u32)) || ('A' <= y
            && y <= 'Z' && (y as u32) + 32 == (x as u32));
        if !same {
            assert(!eq_ic_char(a@[i as int], b@[i as int]));
            return false;
        }
        i = i + 1;
    }
    true
}

/// The single-character string for a decimal digit.
fn digit_str(n: u64) -> (r: &'static str)
    requires
        n < 10,
    ensures
        r@ == seq![digit_char(n as int)],
{
    proof {
        reveal_strlit("0");
        reveal_strlit("1");
        reveal_strlit("2");
        reveal_strlit("3");
        reveal_strlit("4");
        reveal_strlit("5");
        reveal_strlit("6");
        reveal_strlit("7");
        reveal_strlit("8");
        reveal_strlit("9");
    }
    if n == 0 {
        "0"
    } else if n == 1 {
        "1"
    } else if n == 2 {
        "2"
    } else if n == 3 {
        "3"
    } else if n == 4 {
        "4"
    } else if n == 5 {
        "5"
    } else if n == 6 {
        "6"
    } else if n == 7 {
        "7"
    } else if n == 8 {
        "8"
    } else {
        "9"
    }
}

/// The decimal numeral of `n`, as a string.
pub fn u64_to_dec_string(n: u64) -> (r: String)
    ensures
        r@ == dec_str(n as int),
    decreases n,
{
    if n < 10 {
        String::from_str(digit_str(n))
    } else {
        let mut r = u64_to_dec_string(n / 10);
        r.append(digit_str(n % 10));
        r
    }
}

/// Is `s` among the strings of `v`?
pub fn vec_contains_str(v: &Vec<String>, s: &str) -> (b: bool)
    ensures
        b == v.deep_view().contains(s@),
{
    let n = v.len();
    let mut i: usize = 0;
    while i < n
        invariant
            i <= n,
            n == v@.len(),
            forall|j: int| 0 <= j < i ==> v.deep_view()[j] != s@,
        decreases n - i,
    {
        proof {
            assert(v.deep_view()[i as int] == v@[i as int]@);
        }
        if str_eq(v[i].as_str(), s) {
            return true;
        }
        i = i + 1;
    }
    proof {
        assert forall|j: int| 0 <= j < v.deep_view().len() implies v.deep_view()[j] != s@ by {}
        assert(!v.deep_view().contains(s@));
    }
    false
}

/// An element-wise copy of a list of strings.
pub fn clone_strings(v: &Vec<String>) -> (r: Vec<String>)
    ensures
        r.deep_view() == v.deep_view(),
{
    let mut r: Vec<String> = Vec::new();
    let n = v.len();
    let mut i: usize = 0;
    while i < n
        invariant
            i <= n,
            n == v@.len(),
            r@.len() == i,
            forall|j: int| 0 <= j < i ==> r.deep_view()[j] == #[trigger] v.deep_view()[j],
        decreases n - i,
    {
        r.push(v[i].clone());
        i = i + 1;
    }
    proof {
        assert(r.deep_view() =~= v.deep_view());
    }
    r
}

/// Concatenation of six parts.
pub fn concat6(a: &str, b: &str, c: &str, d: &str, e: &str, f: &str) -> (r: String)
    ensures
        r@ == a@ + b@ + c@ + d@ + e@ + f@,
{
    let mut r = String::from_str(a);
    r.append(b);
    r.append(c);
    r.append(d);
    r.append(e);
    r.append(f);
    r
}

} // verus!
