//! Extracting the one identifier this tool reads from a manifest.
//!
//! A `Makefile` names its binary on a line of the shape
//! `TARGET := <word>`; a `Cargo.toml` names its package on a line of the
//! shape `name = "<word>"`. A line matches only from its start; any run of
//! whitespace may surround the separator; the identifier is the longest
//! run of word characters (ASCII letters, digits and `_`) at that spot,
//! and must not be empty. The first matching line wins; a file with no
//! matching line yields nothing.

use vstd::prelude::*;
use vstd::string::StrSliceExecFns;

use crate::strutil::prefix_of;

verus! {

/// ASCII whitespace, as a line-oriented manifest scan understands it.
pub open spec fn is_space_char(c: char) -> bool {
    c == ' ' || c == '\t' || c == '\n' || c == '\r' || c == '\u{b}' || c == '\u{c}'
}

/// ASCII word characters: letters, digits and underscore.
pub open spec fn is_word_char(c: char) -> bool {
    ||| 'a' as u32 <= c as u32 && c as u32 <= 'z' as u32
    ||| 'A' as u32 <= c as u32 && c as u32 <= 'Z' as u32
    ||| '0' as u32 <= c as u32 && c as u32 <= '9' as u32
    ||| c == '_'
}

/// End of the run of whitespace starting at `i`.
pub open spec fn ws_end(s: Seq<char>, i: int) -> int
    decreases s.len() - i,
{
    if 0 <= i < s.len() && is_space_char(s[i]) {
        ws_end(s, i + 1)
    } else {
        i
    }
}

/// End of the run of word characters starting at `i`.
pub open spec fn word_end(s: Seq<char>, i: int) -> int
    decreases s.len() - i,
{
    if 0 <= i < s.len() && is_word_char(s[i]) {
        word_end(s, i + 1)
    } else {
        i
    }
}

/// The identifier a `TARGET := <word>` line carries, if the line matches.
pub open spec fn spec_target_capture(line: Seq<char>) -> Option<Seq<char>> {
    if !prefix_of(seq!['T', 'A', 'R', 'G', 'E', 'T'], line) {
        None
    } else {
        let p1 = ws_end(line, 6);
        if p1 + 2 <= line.len() && line[p1] == ':' && line[p1 + 1] == '=' {
            let p2 = ws_end(line, p1 + 2);
            let e = word_end(line, p2);
            if e > p2 {
                Some(line.subrange(p2, e))
            } else {
                None
            }
        } else {
            None
        }
    }
}

/// The identifier a `name = "<word>"` line carries, if the line matches.
/// The quoted word must be closed by a second quote.
pub open spec fn spec_name_capture(line: Seq<char>) -> Option<Seq<char>> {
    if !prefix_of(seq!['n', 'a', 'm', 'e'], line) {
        None
    } else {
        let p1 = ws_end(line, 4);
        if p1 < line.len() && line[p1] == '=' {
            let p2 = ws_end(line, p1 + 1);
            if p2 < line.len() && line[p2] == '"' {
                let e = word_end(line, p2 + 1);
                if e > p2 + 1 && e < line.len() && line[e] == '"' {
                    Some(line.subrange(p2 + 1, e))
                } else {
                    None
                }
            } else {
                None
            }
        } else {
            None
        }
    }
}

/// The capture of the first matching `TARGET := <word>` line.
pub open spec fn spec_makefile_target(lines: Seq<Seq<char>>) -> Option<Seq<char>>
    decreases lines.len(),
{
    if lines.len() == 0 {
        None
    } else {
        match spec_target_capture(lines[0]) {
            Some(v) => Some(v),
            None => spec_makefile_target(lines.drop_first()),
        }
    }
}

/// The capture of the first matching `name = "<word>"` line.
pub open spec fn spec_cargo_name(lines: Seq<Seq<char>>) -> Option<Seq<char>>
    decreases lines.len(),
{
    if lines.len() == 0 {
        None
    } else {
        match spec_name_capture(lines[0]) {
            Some(v) => Some(v),
            None => spec_cargo_name(lines.drop_first()),
        }
    }
}

/// Whether `c` is an ASCII space character.
pub fn space_char(c: char) -> (r: bool)
    ensures
        r == is_space_char(c),
{
    c == ' ' || c == '\t' || c == '\n' || c == '\r' || c == '\u{b}' || c == '\u{c}'
}

/// Whether `c` is an ASCII word character.
pub fn word_char(c: char) -> (r: bool)
    ensures
        r == is_word_char(c),
{
    let v = c as u32;
    ('a' as u32 <= v && v <= 'z' as u32) || ('A' as u32 <= v && v <= 'Z' as u32)
        || ('0' as u32 <= v && v <= '9' as u32) || c == '_'
}

/// Index just past the whitespace run starting at `start`.
fn skip_spaces(line: &str, start: usize) -> (r: usize)
    requires
        start <= line@.len(),
    ensures
        r == ws_end(line@, start as int),
        start <= r <= line@.len(),
{
    let len: usize = line.unicode_len();
    let mut i: usize = start;
    while i < len
        invariant
            len == line@.len(),
            start <= i <= len,
            ws_end(line@, start as int) == ws_end(line@, i as int),
        decreases len - i,
    {
        let c = line.get_char(i);
        if !space_char(c) {
            return i;
        }
        i = i + 1;
    }
    i
}

/// Index just past the word-character run starting at `start`.
fn skip_word(line: &str, start: usize) -> (r: usize)
    requires
        start <= line@.len(),
    ensures
        r == word_end(line@, start as int),
        start <= r <= line@.len(),
{
    let len: usize = line.unicode_len();
    let mut i: usize = start;
    while i < len
        invariant
            len == line@.len(),
            start <= i <= len,
            word_end(line@, start as int) == word_end(line@, i as int),
        decreases len - i,
    {
        let c = line.get_char(i);
        if !word_char(c) {
            return i;
        }
        i = i + 1;
    }
    i
}

/// Parses one line against the `TARGET := <word>` shape.
pub fn parse_target_line(line: &str) -> (r: Option<String>)
    ensures
        r.deep_view() == spec_target_capture(line@),
{
    proof {
        reveal_strlit("TARGET");
        assert("TARGET"@ =~= seq!['T', 'A', 'R', 'G', 'E', 'T']);
    }
    if !crate::strutil::str_starts_with(line, "TARGET") {
        return None;
    }
    let p1 = skip_spaces(line, 6);
    let len: usize = line.unicode_len();
    if !(len >= 2 && p1 <= len - 2) {
        return None;
    }
    if !(line.get_char(p1) == ':' && line.get_char(p1 + 1) == '=') {
        return None;
    }
    let p2 = skip_spaces(line, p1 + 2);
    let e = skip_word(line, p2);
    if e > p2 {
        Some(line.substring_char(p2, e).to_owned())
    } else {
        None
    }
}

/// Parses one line against the `name = "<word>"` shape.
pub fn parse_name_line(line: &str) -> (r: Option<String>)
    ensures
        r.deep_view() == spec_name_capture(line@),
{
    proof {
        reveal_strlit("name");
        assert("name"@ =~= seq!['n', 'a', 'm', 'e']);
    }
    if !crate::strutil::str_starts_with(line, "name") {
        return None;
    }
    let p1 = skip_spaces(line, 4);
    let len: usize = line.unicode_len();
    if !(p1 < len && line.get_char(p1) == '=') {
        return None;
    }
    let p2 = skip_spaces(line, p1 + 1);
    if !(p2 < len && line.get_char(p2) == '"') {
        return None;
    }
    let e = skip_word(line, p2 + 1);
    if e > p2 + 1 && e < len && line.get_char(e) == '"' {
        Some(line.substring_char(p2 + 1, e).to_owned())
    } else {
        None
    }
}

/// The capture of the first `TARGET := <word>` line among `lines`.
pub fn makefile_target(lines: &Vec<String>) -> (r: Option<String>)
    ensures
        r.deep_view() == spec_makefile_target(lines.deep_view()),
{
    let ghost ls: Seq<Seq<char>> = lines.deep_view();
    let n: usize = lines.len();
    let mut i: usize = 0;
    proof {
        assert(ls.skip(0) =~= ls);
    }
    while i < n
        invariant
            n == lines@.len(),
            ls == lines.deep_view(),
            0 <= i <= n,
            spec_makefile_target(ls.skip(i as int)) == spec_makefile_target(ls),
        decreases n - i,
    {
        proof {
            assert(ls.skip(i as int)[0] == ls[i as int]);
            assert(ls.skip(i as int).drop_first() =~= ls.skip(i as int + 1));
        }
        let line: &String = &lines[i];
        proof {
            assert(ls[i as int] == line@);
        }
        let cap = parse_target_line(line.as_str());
        if cap.is_some() {
            return cap;
        }
        i = i + 1;
    }
    None
}

/// The capture of the first `name = "<word>"` line among `lines`.
pub fn cargo_name(lines: &Vec<String>) -> (r: Option<String>)
    ensures
        r.deep_view() == spec_cargo_name(lines.deep_view()),
{
    let ghost ls: Seq<Seq<char>> = lines.deep_view();
    let n: usize = lines.len();
    let mut i: usize = 0;
    proof {
        assert(ls.skip(0) =~= ls);
    }
    while i < n
        invariant
            n == lines@.len(),
            ls == lines.deep_view(),
            0 <= i <= n,
            spec_cargo_name(ls.skip(i as int)) == spec_cargo_name(ls),
        decreases n - i,
    {
        proof {
            assert(ls.skip(i as int)[0] == ls[i as int]);
            assert(ls.skip(i as int).drop_first() =~= ls.skip(i as int + 1));
        }
        let line: &String = &lines[i];
        proof {
            assert(ls[i as int] == line@);
        }
        let cap = parse_name_line(line.as_str());
        if cap.is_some() {
            return cap;
        }
        i = i + 1;
    }
    None
}

} // verus!
