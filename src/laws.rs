//! Laws of the store, stated over the record model and proved.
use vstd::prelude::*;
use crate::db::{deleted, edited, listing, valid_id};
use crate::record::{
    first_field, flag_text, has_sep, is_done, new_line, row_of, row_text, second_field, sep_at,
    sep_index, shown_name,
};
use crate::text::{is_white, strip_back, strip_front, trimmed};

verus! {

/// Where no separator starts in `from..to`, the search from `from` finds what the search from
/// `to` finds.
proof fn lemma_sep_index_skip(s: Seq<char>, from: int, to: int)
    requires
        0 <= from <= to,
        forall|p: int| from <= p < to ==> !sep_at(s, p),
    ensures
        sep_index(s, from) == sep_index(s, to),
    decreases to - from,
{
    if from < to {
        lemma_sep_index_skip(s, from + 1, to);
    }
}

/// A leading space does not change what trimming leaves.
proof fn lemma_trim_leading_space(f: Seq<char>)
    ensures
        trimmed(" "@ + f) == trimmed(f),
{
    reveal_strlit(" ");
    let s = " "@ + f;
    assert(is_white(s[0]));
    assert(s.drop_first() =~= f);
}

proof fn lemma_strip_front_append(a: Seq<char>, b: Seq<char>)
    ensures
        strip_front(a + b) == if strip_front(a).len() > 0 {
            strip_front(a) + b
        } else {
            strip_front(b)
        },
    decreases a.len(),
{
    if a.len() == 0 {
        assert(a + b =~= b);
    } else if is_white(a[0]) {
        assert((a + b).drop_first() =~= a.drop_first() + b);
        lemma_strip_front_append(a.drop_first(), b);
    }
}

/// A trailing space does not change what trimming leaves.
proof fn lemma_trim_trailing_space(name: Seq<char>)
    ensures
        trimmed(name + " "@) == trimmed(name),
{
    reveal_strlit(" ");
    lemma_strip_front_append(name, " "@);
    let front = strip_front(name);
    let sp = " "@;
    assert(sp[0] == ' ' && is_white(sp[0]));
    if front.len() > 0 {
        assert((front + sp).last() == ' ');
        assert((front + sp).drop_last() =~= front);
    } else {
        assert(sp.drop_first() =~= Seq::<char>::empty());
        assert(strip_front(sp) == strip_front(Seq::<char>::empty()));
        assert(strip_front(sp) == Seq::<char>::empty());
        assert(strip_back(front) == front);
    }
}

/// The fields of `name ____ f`, for a name and a status text without separator.
proof fn lemma_fields_of_encoded(name: Seq<char>, f: Seq<char>)
    requires
        !has_sep(name),
        !has_sep(f),
    ensures
        first_field(name + " ____ "@ + f) == name + " "@,
        second_field(name + " ____ "@ + f) == Some(" "@ + f),
{
    reveal_strlit(" ____ ");
    reveal_strlit(" ");
    let line = name + " ____ "@ + f;
    let n = name.len() as int;
    assert(line[n] == ' ');
    assert forall|p: int| 0 <= p < n + 1 implies !sep_at(line, p) by {
        if p + 4 <= n {
            assert(!sep_at(name, p));
            assert(line.subrange(p, p + 4) == name.subrange(p, p + 4));
        }
    }
    lemma_sep_index_skip(line, 0, n + 1);
    assert(sep_at(line, n + 1));
    assert(line.subrange(0, n + 1) =~= name + " "@);
    assert(line[n + 5] == ' ');
    assert(line.len() == n + 6 + f.len());
    let end = if line.len() - 3 > n + 5 { line.len() - 3 } else { n + 5 };
    assert forall|p: int| n + 5 <= p < end implies !sep_at(line, p) by {
        if p > n + 5 {
            assert(!sep_at(f, p - n - 6));
        }
    }
    lemma_sep_index_skip(line, n + 5, end);
    assert(sep_index(line, end) == -1);
    assert forall|i: int| 0 <= i < f.len() + 1 implies line.subrange(n + 5, line.len() as int)[i]
        == (" "@ + f)[i] by {
        if i > 0 {
            assert(line[n + 5 + i] == f[i - 1]);
        }
    }
    assert(line.subrange(n + 5, line.len() as int) =~= " "@ + f);
}

/// The text of a flag holds no separator and, trimmed, reads `true` exactly when the flag is
/// set.
proof fn lemma_flag_text_reads_back(done: bool)
    ensures
        !has_sep(flag_text(done)),
        (trimmed(flag_text(done)) == "true"@) == done,
{
    reveal_strlit("true");
    reveal_strlit("false");
    let f = flag_text(done);
    assert forall|q: int| !sep_at(f, q) by {}
    assert(strip_front(f) == f);
    assert(strip_back(f) == f);
    if !done {
        assert(f.len() != "true"@.len());
    }
}

/// Adding a record and then listing shows it last, under the next id, unchecked, with its name.
pub proof fn lemma_added_record_listed(records: Seq<Seq<char>>, name: Seq<char>)
    requires
        !has_sep(name),
    ensures
        ({
            let after = records.push(new_line(name));
            &&& listing(after).len() == after.len() + 3
            &&& listing(after)[(after.len() + 2) as int] == row_text(after.len(), false, trimmed(name))
            &&& !is_done(new_line(name))
        }),
{
    reveal_strlit(" ____ false");
    reveal_strlit(" ____ ");
    reveal_strlit("false");
    let f = flag_text(false);
    assert(name + " ____ false"@ =~= name + " ____ "@ + f);
    lemma_flag_text_reads_back(false);
    lemma_fields_of_encoded(name, f);
    lemma_trim_leading_space(f);
    lemma_trim_trailing_space(name);
}

/// Listing twice without a change in between shows the same lines.
pub proof fn lemma_list_is_stable(records: Seq<Seq<char>>, first: Seq<Seq<char>>, second: Seq<Seq<char>>)
    requires
        first == listing(records),
        second == listing(records),
    ensures
        first == second,
{
}

/// A listing of n records numbers them 1 to n, in file order.
pub proof fn lemma_ids_dense(records: Seq<Seq<char>>)
    requires
        records.len() > 0,
    ensures
        listing(records).len() == records.len() + 3,
        forall|i: int| 0 <= i < records.len() ==> listing(records)[i + 3] == row_of((i + 1) as nat, #[trigger] records[i]),
{
}

/// Renaming a record writes it in the standard form `<name> ____ <true|false>`, keeps its
/// completion flag, shows the new name, and leaves the other records as they were.
pub proof fn lemma_edit_keeps_flag(records: Seq<Seq<char>>, id: int, name: Seq<char>)
    requires
        valid_id(records, id),
        !has_sep(name),
    ensures
        edited(records, id, name).len() == records.len(),
        edited(records, id, name)[id - 1] == name + " ____ "@ + flag_text(is_done(records[id - 1])),
        is_done(edited(records, id, name)[id - 1]) == is_done(records[id - 1]),
        shown_name(edited(records, id, name)[id - 1]) == trimmed(name),
        forall|k: int| 0 <= k < records.len() && k != id - 1 ==> edited(records, id, name)[k] == records[k],
{
    let done = is_done(records[id - 1]);
    let f = flag_text(done);
    assert(edited(records, id, name)[id - 1] == name + " ____ "@ + f);
    lemma_flag_text_reads_back(done);
    lemma_fields_of_encoded(name, f);
    lemma_trim_leading_space(f);
    lemma_trim_trailing_space(name);
}

/// Deleting the record with id `id` moves every later record up by one id; earlier ones keep
/// theirs.
pub proof fn lemma_delete_renumbers(records: Seq<Seq<char>>, id: int)
    requires
        valid_id(records, id),
    ensures
        deleted(records, id).len() == records.len() - 1,
        forall|j: int| 0 <= j < id - 1 ==> #[trigger] deleted(records, id)[j] == records[j],
        forall|j: int| id - 1 <= j < records.len() - 1 ==> #[trigger] deleted(records, id)[j] == records[j + 1],
        records.len() > 1 ==> forall|j: int| id - 1 <= j < records.len() - 1 ==> #[trigger] listing(deleted(records, id))[j + 3] == row_of((j + 1) as nat, records[j + 1]),
{
}

} // verus!
