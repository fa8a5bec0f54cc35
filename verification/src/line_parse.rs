//! The shared attribute tokenizer and the section-header parser.
//!
//! A content line of either format is split into four pieces:
//! `indent ++ key ++ separator ++ value ++ suffix`, where `suffix` carries
//! the text after the value (trailing blanks and an optional `#` comment)
//! verbatim, so that a rewrite can reproduce it byte for byte.  A line whose
//! shape does not match yields `None` and is never rewritten.

use vstd::prelude::*;
use vstd::string::StrSliceExecFns;
use crate::strutil::{
    char_len, find_char, find_char_exec, lemma_find_char_bounds, lemma_rtrim_spaces_bounds,
    lemma_skip_spaces_bounds, rtrim_spaces, rtrim_spaces_exec, skip_indent, skip_indent_exec,
    skip_spaces, skip_spaces_exec, substr_copy, trimmed, trimmed_copy,
};

verus! {

/// The pieces of a parsed `key = "value"` or `key: value` line.
#[verifier::ext_equal]
pub struct LinePartsV {
    pub indent: Seq<char>,
    pub key: Seq<char>,
    pub value: Seq<char>,
    pub suffix: Seq<char>,
}

/// Specification of the YAML-like tokenizer: `key: value  # comment`.
///
/// The value runs from the first non-blank after the colon to the last
/// non-blank before the comment marker; everything after it is the suffix.
pub open spec fn yaml_parse(s: Seq<char>) -> Option<LinePartsV> {
    let n = s.len() as int;
    let ie = skip_indent(s, 0, n);
    let body_end = match find_char(s, '#', ie, n) {
        Some(h) => h,
        None => n,
    };
    match find_char(s, ':', ie, body_end) {
        None => None,
        Some(colon) => {
            let vs = skip_spaces(s, colon + 1, body_end);
            if vs == body_end {
                Some(
                    LinePartsV {
                        indent: s.subrange(0, ie),
                        key: trimmed(s, ie, colon),
                        value: Seq::empty(),
                        suffix: s.subrange(colon + 1, n),
                    },
                )
            } else {
                let ve = rtrim_spaces(s, vs, body_end);
                Some(
                    LinePartsV {
                        indent: s.subrange(0, ie),
                        key: trimmed(s, ie, colon),
                        value: s.subrange(vs, ve),
                        suffix: s.subrange(ve, n),
                    },
                )
            }
        },
    }
}

/// Specification of the TOML-like tokenizer: `key = "value"  # comment`.
///
/// The value must be a double-quoted string and only blanks or a comment may
/// follow the closing quote; anything else fails the parse.
pub open spec fn toml_parse(s: Seq<char>) -> Option<LinePartsV> {
    let n = s.len() as int;
    let ie = skip_indent(s, 0, n);
    match find_char(s, '=', ie, n) {
        None => None,
        Some(eq) => {
            let key = trimmed(s, ie, eq);
            if key.len() == 0 {
                None
            } else {
                let q1 = skip_spaces(s, eq + 1, n);
                if q1 == n || s[q1] != '"' {
                    None
                } else {
                    match find_char(s, '"', q1 + 1, n) {
                        None => None,
                        Some(q2) => {
                            let rest = skip_spaces(s, q2 + 1, n);
                            if rest == n || s[rest] == '#' {
                                Some(
                                    LinePartsV {
                                        indent: s.subrange(0, ie),
                                        key: key,
                                        value: s.subrange(q1 + 1, q2),
                                        suffix: s.subrange(q2 + 1, n),
                                    },
                                )
                            } else {
                                None
                            }
                        },
                    }
                }
            }
        },
    }
}

/// The owned, executable form of a tokenized line.
pub struct ParsedLine {
    pub indent: String,
    pub key: String,
    pub value: String,
    pub suffix: String,
}

impl View for ParsedLine {
    type V = LinePartsV;

    open spec fn view(&self) -> LinePartsV {
        LinePartsV {
            indent: self.indent@,
            key: self.key@,
            value: self.value@,
            suffix: self.suffix@,
        }
    }
}

/// Relates an executable parse result to its specification.
pub open spec fn parse_matches(r: Option<ParsedLine>, m: Option<LinePartsV>) -> bool {
    match r {
        Some(p) => m == Some(p@),
        None => m is None,
    }
}

/// Tokenize a YAML-like `key: value` line; `None` when the shape is wrong.
pub fn parse_line(src: &str) -> (r: Option<ParsedLine>)
    ensures
        parse_matches(r, yaml_parse(src@)),
{
    let n = char_len(src);
    let ie = skip_indent_exec(src, 0, n);
    let body_end = match find_char_exec(src, '#', ie, n) {
        Some(h) => h,
        None => n,
    };
    match find_char_exec(src, ':', ie, body_end) {
        None => None,
        Some(colon) => {
            let vs = skip_spaces_exec(src, colon + 1, body_end);
            if vs == body_end {
                Some(
                    ParsedLine {
                        indent: substr_copy(src, 0, ie),
                        key: trimmed_copy(src, ie, colon),
                        value: String::new(),
                        suffix: substr_copy(src, colon + 1, n),
                    },
                )
            } else {
                let ve = rtrim_spaces_exec(src, vs, body_end);
                Some(
                    ParsedLine {
                        indent: substr_copy(src, 0, ie),
                        key: trimmed_copy(src, ie, colon),
                        value: substr_copy(src, vs, ve),
                        suffix: substr_copy(src, ve, n),
                    },
                )
            }
        },
    }
}

/// Tokenize a TOML-like `key = "value"` line; `None` when the shape is wrong.
pub fn parse_toml_line(src: &str) -> (r: Option<ParsedLine>)
    ensures
        parse_matches(r, toml_parse(src@)),
{
    let n = char_len(src);
    let ie = skip_indent_exec(src, 0, n);
    match find_char_exec(src, '=', ie, n) {
        None => None,
        Some(eq) => {
            let key = trimmed_copy(src, ie, eq);
            if key.unicode_len() == 0 {
                return None;
            }
            let q1 = skip_spaces_exec(src, eq + 1, n);
            if q1 == n || src.get_char(q1) != '"' {
                return None;
            }
            match find_char_exec(src, '"', q1 + 1, n) {
                None => None,
                Some(q2) => {
                    let rest = skip_spaces_exec(src, q2 + 1, n);
                    if rest == n || src.get_char(rest) == '#' {
                        Some(
                            ParsedLine {
                                indent: substr_copy(src, 0, ie),
                                key: key,
                                value: substr_copy(src, q1 + 1, q2),
                                suffix: substr_copy(src, q2 + 1, n),
                            },
                        )
                    } else {
                        None
                    }
                },
            }
        },
    }
}

/// A dotted-path component with surrounding quotes removed.
pub open spec fn unquote(c: Seq<char>) -> Seq<char> {
    if c.len() >= 2 && ((c[0] == '"' && c[c.len() - 1] == '"') || (c[0] == '\'' && c[c.len() - 1]
        == '\'')) {
        c.subrange(1, c.len() - 1)
    } else {
        c
    }
}

/// One component of a bracketed table path: trimmed, then unquoted.
pub open spec fn path_component(s: Seq<char>, i: int, end: int) -> Seq<char>
    recommends
        0 <= i <= end <= s.len(),
{
    unquote(trimmed(s, i, end))
}

/// The components of `[i, end)` split on `.`.
pub open spec fn split_dots(s: Seq<char>, i: int, end: int) -> Seq<Seq<char>>
    decreases end - i,
    when 0 <= i <= end <= s.len()
    via split_dots_dec
{
    match find_char(s, '.', i, end) {
        None => seq![path_component(s, i, end)],
        Some(d) => seq![path_component(s, i, d)] + split_dots(s, d + 1, end),
    }
}

#[via_fn]
proof fn split_dots_dec(s: Seq<char>, i: int, end: int) {
    lemma_find_char_bounds(s, '.', i, end);
}

/// Specification of the section-header parser: a line whose trimmed,
/// comment-stripped content is wrapped in brackets yields its dotted path.
pub open spec fn header_path(s: Seq<char>) -> Option<Seq<Seq<char>>> {
    let n = s.len() as int;
    let body_end = match find_char(s, '#', 0, n) {
        Some(h) => h,
        None => n,
    };
    let lo = skip_spaces(s, 0, body_end);
    let hi = rtrim_spaces(s, lo, body_end);
    if hi - lo >= 2 && s[lo] == '[' && s[hi - 1] == ']' {
        if hi - lo >= 4 && s[lo + 1] == '[' && s[hi - 2] == ']' {
            Some(split_dots(s, lo + 2, hi - 2))
        } else {
            Some(split_dots(s, lo + 1, hi - 1))
        }
    } else {
        None
    }
}

/// Executable counterpart of `path_component`.
fn path_component_exec(s: &str, from: usize, end: usize) -> (r: String)
    requires
        from <= end <= s@.len(),
    ensures
        r@ == path_component(s@, from as int, end as int),
{
    let lo = skip_spaces_exec(s, from, end);
    let hi = rtrim_spaces_exec(s, lo, end);
    proof {
        lemma_rtrim_spaces_bounds(s@, lo as int, end as int);
    }
    if hi - lo >= 2 {
        let c0 = s.get_char(lo);
        let c1 = s.get_char(hi - 1);
        if (c0 == '"' && c1 == '"') || (c0 == '\'' && c1 == '\'') {
            let r = substr_copy(s, lo + 1, hi - 1);
            proof {
                let t = trimmed(s@, from as int, end as int);
                assert(t == s@.subrange(lo as int, hi as int));
                assert(t[0] == s@[lo as int]);
                assert(t[t.len() - 1] == s@[hi - 1]);
                assert(r@ =~= unquote(t));
            }
            return r;
        }
    }
    let r = substr_copy(s, lo, hi);
    proof {
        let t = trimmed(s@, from as int, end as int);
        assert(t == s@.subrange(lo as int, hi as int));
        if t.len() >= 2 {
            assert(t[0] == s@[lo as int]);
            assert(t[t.len() - 1] == s@[hi - 1]);
        }
        assert(r@ =~= unquote(t));
    }
    r
}

/// Executable counterpart of `split_dots`.
fn split_dotted_path(s: &str, from: usize, end: usize) -> (r: Vec<String>)
    requires
        from <= end <= s@.len(),
    ensures
        r.deep_view() == split_dots(s@, from as int, end as int),
    decreases end - from,
{
    let mut r: Vec<String> = Vec::new();
    match find_char_exec(s, '.', from, end) {
        None => {
            r.push(path_component_exec(s, from, end));
            proof {
                assert(r.deep_view() =~= split_dots(s@, from as int, end as int));
            }
        },
        Some(d) => {
            r.push(path_component_exec(s, from, d));
            let mut rest = split_dotted_path(s, d + 1, end);
            let ghost first = r.deep_view();
            let ghost restv = rest.deep_view();
            r.append(&mut rest);
            proof {
                assert(r.deep_view() =~= first + restv);
                assert(r.deep_view() =~= split_dots(s@, from as int, end as int));
            }
        },
    }
    r
}

/// Parse a TOML-like section header; `None` when the line is not one.
pub fn parse_section_header(src: &str) -> (r: Option<Vec<String>>)
    ensures
        match r {
            Some(path) => header_path(src@) == Some(path.deep_view()),
            None => header_path(src@) is None,
        },
{
    let n = char_len(src);
    let body_end = match find_char_exec(src, '#', 0, n) {
        Some(h) => h,
        None => n,
    };
    let lo = skip_spaces_exec(src, 0, body_end);
    let hi = rtrim_spaces_exec(src, lo, body_end);
    proof {
        lemma_skip_spaces_bounds(src@, 0, body_end as int);
        lemma_rtrim_spaces_bounds(src@, lo as int, body_end as int);
    }
    if hi - lo >= 2 && src.get_char(lo) == '[' && src.get_char(hi - 1) == ']' {
        if hi - lo >= 4 && src.get_char(lo + 1) == '[' && src.get_char(hi - 2) == ']' {
            Some(split_dotted_path(src, lo + 2, hi - 2))
        } else {
            Some(split_dotted_path(src, lo + 1, hi - 1))
        }
    } else {
        None
    }
}

/// Split the leading indentation off a line, as slices of the input.
pub fn split_indentation<'a>(src: &'a str) -> (r: (&'a str, &'a str))
    ensures
        r.0@ == src@.subrange(0, skip_indent(src@, 0, src@.len() as int)),
        r.1@ == src@.subrange(skip_indent(src@, 0, src@.len() as int), src@.len() as int),
{
    let n = char_len(src);
    let ie = skip_indent_exec(src, 0, n);
    (src.substring_char(0, ie), src.substring_char(ie, n))
}

} // verus!
