//! The line grammar of a record: `<name> ____ <completed>`.
use vstd::prelude::*;
use crate::text::{
    chars_of, decimal, pad_start, push_all, push_decimal, push_padded, slice_chars, trim_chars,
    trimmed,
};

verus! {

/// The text that separates a record's name from its completion flag.
pub const SEPARATOR: &'static str = "____";

/// Whether the separator starts at position `i` of `s`.
pub open spec fn sep_at(s: Seq<char>, i: int) -> bool {
    0 <= i && i + 4 <= s.len() && s[i] == '_' && s[i + 1] == '_' && s[i + 2] == '_' && s[i + 3]
        == '_'
}

/// Whether the separator occurs anywhere in `s`.
pub open spec fn has_sep(s: Seq<char>) -> bool {
    exists|i: int| sep_at(s, i)
}

/// The first position at or after `from` where the separator starts, or -1.
pub open spec fn sep_index(s: Seq<char>, from: int) -> int
    decreases s.len() - from,
{
    if from < 0 || from + 4 > s.len() {
        -1
    } else if sep_at(s, from) {
        from
    } else {
        sep_index(s, from + 1)
    }
}

/// The name field: everything before the first separator.
pub open spec fn first_field(line: Seq<char>) -> Seq<char> {
    let k = sep_index(line, 0);
    if k < 0 {
        line
    } else {
        line.subrange(0, k)
    }
}

/// The status field: what stands between the first separator and the next one (or the end).
pub open spec fn second_field(line: Seq<char>) -> Option<Seq<char>> {
    let k = sep_index(line, 0);
    if k < 0 {
        None
    } else {
        let j = sep_index(line, k + 4);
        if j < 0 {
            Some(line.subrange(k + 4, line.len() as int))
        } else {
            Some(line.subrange(k + 4, j))
        }
    }
}

/// Whether the record is completed: its status field reads `true`.
pub open spec fn is_done(line: Seq<char>) -> bool {
    match second_field(line) {
        Some(f) => trimmed(f) == "true"@,
        None => false,
    }
}

/// The name that a listing shows for the record.
pub open spec fn shown_name(line: Seq<char>) -> Seq<char> {
    trimmed(first_field(line))
}

/// The line of a new record, not yet completed.
pub open spec fn new_line(name: Seq<char>) -> Seq<char> {
    name + " ____ false"@
}

/// The text that encodes a completion flag.
pub open spec fn flag_text(done: bool) -> Seq<char> {
    if done {
        "true"@
    } else {
        "false"@
    }
}

/// The record `line` renamed to `name`, re-encoded with the completion flag it had.
pub open spec fn renamed_line(line: Seq<char>, name: Seq<char>) -> Seq<char> {
    name + " ____ "@ + flag_text(is_done(line))
}

pub open spec fn checkbox(done: bool) -> Seq<char> {
    if done {
        "    [x]     "@
    } else {
        "    [ ]     "@
    }
}

/// One row of a listing: the id right-aligned in four columns, the checkbox centred in
/// twelve, then the name.
pub open spec fn row_text(id: nat, done: bool, name: Seq<char>) -> Seq<char> {
    pad_start(decimal(id), 4) + " "@ + checkbox(done) + " "@ + name
}

/// The row that a listing shows for `line` under `id`.
pub open spec fn row_of(id: nat, line: Seq<char>) -> Seq<char> {
    row_text(id, is_done(line), shown_name(line))
}

/// The first position at or after `from` where the separator starts.
pub fn find_separator(s: &Vec<char>, from: usize) -> (r: Option<usize>)
    ensures
        match r {
            Some(k) => k as int == sep_index(s@, from as int),
            None => sep_index(s@, from as int) == -1,
        },
{
    let len = s.len();
    let mut i: usize = from;
    while i < len && len - i >= 4
        invariant
            len == s@.len(),
            from <= i,
            sep_index(s@, from as int) == sep_index(s@, i as int),
        decreases len - i,
    {
        if s[i] == '_' && s[i + 1] == '_' && s[i + 2] == '_' && s[i + 3] == '_' {
            return Some(i);
        }
        i += 1;
    }
    None
}

/// The name field and, where the line has one, the status field.
pub fn split_fields(line: &Vec<char>) -> (r: (Vec<char>, Option<Vec<char>>))
    ensures
        r.0@ == first_field(line@),
        match r.1 {
            Some(f) => second_field(line@) == Some(f@),
            None => second_field(line@) is None,
        },
{
    match find_separator(line, 0) {
        None => (slice_chars(line, 0, line.len()), None),
        Some(k) => {
            let len = line.len();
            proof {
                lemma_sep_index_bounds(line@, 0);
                assert(k + 4 <= len);
            }
            let name = slice_chars(line, 0, k);
            let status = match find_separator(line, k + 4) {
                None => slice_chars(line, k + 4, line.len()),
                Some(j) => {
                    proof {
                        lemma_sep_index_bounds(line@, k + 4);
                    }
                    slice_chars(line, k + 4, j)
                },
            };
            (name, Some(status))
        },
    }
}

pub proof fn lemma_sep_index_bounds(s: Seq<char>, from: int)
    requires
        0 <= from,
    ensures
        sep_index(s, from) == -1 || (from <= sep_index(s, from) && sep_index(s, from) + 4
            <= s.len() && sep_at(s, sep_index(s, from))),
        sep_index(s, from) != -1 ==> forall|p: int| from <= p < sep_index(s, from) ==> !sep_at(s, p),
        sep_index(s, from) == -1 ==> forall|p: int| from <= p ==> !sep_at(s, p),
    decreases s.len() - from,
{
    if from < 0 || from + 4 > s.len() {
    } else if sep_at(s, from) {
    } else {
        lemma_sep_index_bounds(s, from + 1);
    }
}

/// Whether the record is completed.
pub fn line_is_done(line: &Vec<char>) -> (r: bool)
    ensures
        r == is_done(line@),
{
    let (_name, status) = split_fields(line);
    match status {
        None => false,
        Some(f) => {
            let t = trim_chars(&f);
            let done = t.len() == 4 && t[0] == 't' && t[1] == 'r' && t[2] == 'u' && t[3] == 'e';
            proof {
                reveal_strlit("true");
                if done {
                    assert(t@ =~= "true"@);
                }
            }
            done
        },
    }
}

/// The characters of `row_text(id, done, name)`.
pub fn render_row(id: usize, done: bool, name: &Vec<char>) -> (r: Vec<char>)
    ensures
        r@ == row_text(id as nat, done, name@),
{
    let mut digits: Vec<char> = Vec::new();
    push_decimal(&mut digits, id);
    let mut out: Vec<char> = Vec::new();
    push_padded(&mut out, &digits, 4);
    let space = chars_of(" ");
    push_all(&mut out, &space);
    let boxed = if done {
        chars_of("    [x]     ")
    } else {
        chars_of("    [ ]     ")
    };
    push_all(&mut out, &boxed);
    push_all(&mut out, &space);
    push_all(&mut out, name);
    proof {
        assert(digits@ =~= decimal(id as nat));
        assert(out@ =~= row_text(id as nat, done, name@));
    }
    out
}

/// The row that a listing shows for `line` under `id`.
pub fn line_row(id: usize, line: &Vec<char>) -> (r: Vec<char>)
    ensures
        r@ == row_of(id as nat, line@),
{
    let (name, _status) = split_fields(line);
    let shown = trim_chars(&name);
    let done = line_is_done(line);
    render_row(id, done, &shown)
}

/// The line of `line` renamed to `name`, with the completion flag it had.
pub fn rename_line(line: &Vec<char>, name: &Vec<char>) -> (r: Vec<char>)
    ensures
        r@ == renamed_line(line@, name@),
{
    let done = line_is_done(line);
    let mut out: Vec<char> = Vec::new();
    push_all(&mut out, name);
    let sep = chars_of(" ____ ");
    push_all(&mut out, &sep);
    let flag = if done {
        chars_of("true")
    } else {
        chars_of("false")
    };
    push_all(&mut out, &flag);
    out
}

} // verus!
