//! The text format of the plugin configuration files: lines of `key=value`
//! under section headers in square brackets, `#` for comments.

use vstd::prelude::*;
use crate::find::{first_where, lemma_first_absent, lemma_first_found};
use crate::text::{chars_of, same_chars, slice_of, trim_chars, trimmed};

verus! {

/// The characters equal to `c`.
pub open spec fn is_char(c: char) -> spec_fn(char) -> bool {
    |x: char| x == c
}

/// The key and the value of a line: what stands before and behind its first
/// `=`, each without white space around it.
pub open spec fn entry_of(line: Seq<char>) -> Option<(Seq<char>, Seq<char>)> {
    match first_where(line, is_char('=')) {
        Some(at) => Some((trimmed(line.take(at)), trimmed(line.skip(at + 1)))),
        None => None,
    }
}

/// The view of an optional entry.
pub open spec fn entry_view(entry: Option<(Vec<char>, Vec<char>)>) -> Option<(Seq<char>, Seq<char>)> {
    match entry {
        Some((k, v)) => Some((k@, v@)),
        None => None,
    }
}

/// Reads the key and the value of a line.
pub fn read_entry(line: &Vec<char>) -> (r: Option<(Vec<char>, Vec<char>)>)
    ensures
        entry_view(r) == entry_of(line@),
{
    let ghost p = is_char('=');
    let mut i: usize = 0;
    while i < line.len()
        invariant
            i <= line.len(),
            p == is_char('='),
            forall|j: int| 0 <= j < i ==> !p(line@[j]),
        decreases line.len() - i,
    {
        if line[i] == '=' {
            proof {
                assert(p(line@[i as int]));
                lemma_first_found(line@, p, i as int);
                assert(line@.subrange(0, i as int) =~= line@.take(i as int));
                assert(line@.subrange(i + 1, line@.len() as int) =~= line@.skip(i + 1));
            }
            let key = trim_chars(&slice_of(line, 0, i));
            let value = trim_chars(&slice_of(line, i + 1, line.len()));
            return Some((key, value));
        }
        assert(!p(line@[i as int]));
        i += 1;
    }
    proof {
        lemma_first_absent(line@, p);
    }
    None
}

/// A line that says nothing: empty, or a comment.
pub open spec fn is_blank(line: Seq<char>) -> bool {
    line.len() == 0 || line[0] == '#'
}

/// A line that a file of one section passes over: nothing, a comment, or a
/// section header.
pub open spec fn is_passed_over(line: Seq<char>) -> bool {
    is_blank(line) || line[0] == '['
}

/// Whether a line says nothing.
pub fn blank_line(line: &Vec<char>) -> (r: bool)
    ensures
        r == is_blank(line@),
{
    line.len() == 0 || line[0] == '#'
}

/// Whether a file of one section passes over a line.
pub fn passed_over(line: &Vec<char>) -> (r: bool)
    ensures
        r == is_passed_over(line@),
{
    line.len() == 0 || line[0] == '#' || line[0] == '['
}

/// The name of the section that a header line opens: what stands between
/// the brackets of a line that begins with `[` and ends with `]`.
pub open spec fn section_of(line: Seq<char>) -> Option<Seq<char>> {
    if line.len() >= 2 && line[0] == '[' && line.last() == ']' {
        Some(line.subrange(1, line.len() - 1))
    } else {
        None
    }
}

/// The view of an optional vector of characters.
pub open spec fn chars_view(v: Option<Vec<char>>) -> Option<Seq<char>> {
    match v {
        Some(v) => Some(v@),
        None => None,
    }
}

/// Reads the name of the section that a header line opens.
pub fn read_section(line: &Vec<char>) -> (r: Option<Vec<char>>)
    ensures
        chars_view(r) == section_of(line@),
{
    let n = line.len();
    if n >= 2 && line[0] == '[' && line[n - 1] == ']' {
        Some(slice_of(line, 1, n - 1))
    } else {
        None
    }
}

/// A switch as the files write it: `true` or `false`; anything else stands
/// for the default.
pub open spec fn flag_or(value: Seq<char>, default: bool) -> bool {
    if value == "true"@ {
        true
    } else if value == "false"@ {
        false
    } else {
        default
    }
}

/// Reads a switch.
pub fn read_flag(value: &Vec<char>, default: bool) -> (r: bool)
    ensures
        r == flag_or(value@, default),
{
    if is_text(value, "true") {
        true
    } else if is_text(value, "false") {
        false
    } else {
        default
    }
}

/// Whether `v` holds exactly the characters of `text`.
pub fn is_text(v: &Vec<char>, text: &str) -> (r: bool)
    ensures
        r == (v@ == text@),
{
    let t = chars_of(text);
    same_chars(v, &t)
}

/// A switch in the files' writing.
pub open spec fn flag_text(flag: bool) -> Seq<char> {
    if flag {
        "true"@
    } else {
        "false"@
    }
}

/// Appends a switch in the files' writing.
pub fn push_flag(out: &mut String, flag: bool)
    ensures
        final(out)@ == old(out)@ + flag_text(flag),
{
    if flag {
        crate::text::push_text(out, "true");
    } else {
        crate::text::push_text(out, "false");
    }
}

/// The lines `key=value` with a line end behind each.
pub open spec fn entry_line(key: Seq<char>, value: Seq<char>) -> Seq<char> {
    key + seq!['='] + value + seq!['\n']
}

/// Appends a line `key=value`.
pub fn push_entry(out: &mut String, key: &str, value: &str)
    ensures
        final(out)@ == old(out)@ + entry_line(key@, value@),
{
    crate::text::push_text(out, key);
    out.push('=');
    crate::text::push_text(out, value);
    out.push('\n');
    proof {
        assert(final(out)@ =~= old(out)@ + entry_line(key@, value@));
    }
}

/// Appends a line `key=true` or `key=false`.
pub fn push_flag_entry(out: &mut String, key: &str, flag: bool)
    ensures
        final(out)@ == old(out)@ + entry_line(key@, flag_text(flag)),
{
    crate::text::push_text(out, key);
    out.push('=');
    push_flag(out, flag);
    out.push('\n');
    proof {
        assert(final(out)@ =~= old(out)@ + entry_line(key@, flag_text(flag)));
    }
}

} // verus!
