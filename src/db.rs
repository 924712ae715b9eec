//! The record store: the records of the database file, in file order, and the operations on
//! them. Each operation computes what is to be appended, written or shown; the file itself is
//! read and written by the caller.
use vstd::prelude::*;
use crate::record::{line_row, new_line, rename_line, renamed_line, row_of};
use crate::text::{chars_of, push_all, string_of};

verus! {

/// Why an edit or a delete did not take place.
#[derive(Debug, Clone, Copy, PartialEq, Eq, Structural)]
pub enum StoreError {
    /// The store holds no record.
    EmptyStore,
    /// No record has the given id.
    NotFound { id: usize },
}

/// The records of a database file, one line each, in file order. A record's id is its
/// position plus one.
pub struct Db {
    pub db_filename: String,
    pub lines: Vec<String>,
}

/// The lines of a listing of `records`.
pub open spec fn listing(records: Seq<Seq<char>>) -> Seq<Seq<char>> {
    if records.len() == 0 {
        seq![empty_notice()]
    } else {
        seq![list_title(), Seq::<char>::empty(), header_row()] + Seq::new(
            records.len(),
            |i: int| row_of((i + 1) as nat, records[i]),
        )
    }
}

pub open spec fn empty_notice() -> Seq<char> {
    "The database is empty. Add new todos using the `add` command."@
}

pub open spec fn list_title() -> Seq<char> {
    "The TODO List contains the following elements:"@
}

pub open spec fn header_row() -> Seq<char> {
    "  ID  Completed   Name"@
}

/// The lines joined by newlines, with none after the last.
pub open spec fn joined(lines: Seq<Seq<char>>) -> Seq<char>
    decreases lines.len(),
{
    if lines.len() == 0 {
        Seq::empty()
    } else if lines.len() == 1 {
        lines[0]
    } else {
        joined(lines.drop_last()) + "\n"@ + lines.last()
    }
}

/// The text that adding a record named `name` appends to the file.
pub open spec fn added_text(name: Seq<char>) -> Seq<char> {
    new_line(name) + "\n"@
}

/// Whether `id` names a record of `records`.
pub open spec fn valid_id(records: Seq<Seq<char>>, id: int) -> bool {
    1 <= id <= records.len()
}

/// The records after the one with id `id` is renamed to `name`.
pub open spec fn edited(records: Seq<Seq<char>>, id: int, name: Seq<char>) -> Seq<Seq<char>> {
    records.update(id - 1, renamed_line(records[id - 1], name))
}

/// The records after the one with id `id` is removed.
pub open spec fn deleted(records: Seq<Seq<char>>, id: int) -> Seq<Seq<char>> {
    records.remove(id - 1)
}

/// The file text that holds `lines`, joined by newlines.
pub fn join_lines(lines: &Vec<Vec<char>>) -> (r: String)
    ensures
        r@ == joined(lines@.map_values(|l: Vec<char>| l@)),
{
    let ghost ls = lines@.map_values(|l: Vec<char>| l@);
    let mut out: Vec<char> = Vec::new();
    let newline = chars_of("\n");
    let mut i: usize = 0;
    while i < lines.len()
        invariant
            i <= lines@.len(),
            ls == lines@.map_values(|l: Vec<char>| l@),
            newline@ == "\n"@,
            out@ == joined(ls.subrange(0, i as int)),
        decreases lines.len() - i,
    {
        if i > 0 {
            push_all(&mut out, &newline);
        }
        push_all(&mut out, &lines[i]);
        proof {
            let next = ls.subrange(0, i + 1);
            assert(next.drop_last() =~= ls.subrange(0, i as int));
            if i == 0 {
                assert(ls.subrange(0, 0) =~= Seq::<Seq<char>>::empty());
            }
        }
        i += 1;
    }
    proof {
        assert(ls.subrange(0, lines@.len() as int) =~= ls);
    }
    string_of(&out)
}

impl Db {
    /// The records as character sequences, in file order.
    pub open spec fn records(&self) -> Seq<Seq<char>> {
        self.lines@.map_values(|l: String| l@)
    }

    /// A store over the lines read from the file `db_filename`.
    pub fn new(db_filename: String, lines: Vec<String>) -> (r: Db)
        ensures
            r.db_filename@ == db_filename@,
            r.lines@ == lines@,
    {
        Db { db_filename, lines }
    }

    fn line_chars(&self, i: usize) -> (r: Vec<char>)
        requires
            i < self.lines@.len(),
        ensures
            r@ == self.records()[i as int],
    {
        chars_of(self.lines[i].as_str())
    }

    /// The text to append to the file for a new record named `todo`, not yet completed.
    pub fn add_todo(&self, todo: &str) -> (r: String)
        ensures
            r@ == added_text(todo@),
    {
        let mut out = chars_of(todo);
        let tail = chars_of(" ____ false\n");
        push_all(&mut out, &tail);
        proof {
            reveal_strlit(" ____ false\n");
            reveal_strlit(" ____ false");
            reveal_strlit("\n");
            assert(out@ =~= added_text(todo@));
        }
        string_of(&out)
    }

    /// The file text after the record with id `todo_id` is renamed to `name`; the record keeps
    /// its completion flag.
    pub fn edit_todo(&self, todo_id: usize, name: &str) -> (r: Result<String, StoreError>)
        ensures
            self.records().len() == 0 ==> r == Err::<String, StoreError>(StoreError::EmptyStore),
            self.records().len() > 0 && !valid_id(self.records(), todo_id as int) ==> r == Err::<
                String,
                StoreError,
            >(StoreError::NotFound { id: todo_id }),
            valid_id(self.records(), todo_id as int) ==> r is Ok && r->Ok_0@ == joined(
                edited(self.records(), todo_id as int, name@),
            ),
    {
        let len = self.lines.len();
        if len == 0 {
            return Err(StoreError::EmptyStore);
        }
        if todo_id == 0 || todo_id > len {
            return Err(StoreError::NotFound { id: todo_id });
        }
        let new_name = chars_of(name);
        let ghost target = edited(self.records(), todo_id as int, name@);
        let mut new_lines: Vec<Vec<char>> = Vec::new();
        let mut i: usize = 0;
        while i < len
            invariant
                len == self.lines@.len(),
                1 <= todo_id <= len,
                i <= len,
                new_name@ == name@,
                target == edited(self.records(), todo_id as int, name@),
                new_lines@.len() == i,
                forall|k: int| 0 <= k < i ==> #[trigger] new_lines@[k]@ == target[k],
            decreases len - i,
        {
            let current = self.line_chars(i);
            if i == todo_id - 1 {
                new_lines.push(rename_line(&current, &new_name));
            } else {
                new_lines.push(current);
            }
            i += 1;
        }
        proof {
            assert(new_lines@.map_values(|l: Vec<char>| l@) =~= target);
        }
        Ok(join_lines(&new_lines))
    }

    /// The file text after the record with id `todo_id` is removed; the records after it move
    /// up by one.
    pub fn delete_todo(&self, todo_id: usize) -> (r: Result<String, StoreError>)
        ensures
            !valid_id(self.records(), todo_id as int) ==> r == Err::<String, StoreError>(
                StoreError::NotFound { id: todo_id },
            ),
            valid_id(self.records(), todo_id as int) ==> r is Ok && r->Ok_0@ == joined(
                deleted(self.records(), todo_id as int),
            ),
    {
        let len = self.lines.len();
        if todo_id == 0 || todo_id > len {
            return Err(StoreError::NotFound { id: todo_id });
        }
        let ghost target = deleted(self.records(), todo_id as int);
        let mut new_lines: Vec<Vec<char>> = Vec::new();
        let mut i: usize = 0;
        while i < len
            invariant
                len == self.lines@.len(),
                1 <= todo_id <= len,
                i <= len,
                target == deleted(self.records(), todo_id as int),
                new_lines@.len() == if i < todo_id { i as int } else { i - 1 },
                forall|k: int| 0 <= k < new_lines@.len() ==> #[trigger] new_lines@[k]@ == target[k],
            decreases len - i,
        {
            if i + 1 != todo_id {
                new_lines.push(self.line_chars(i));
            }
            i += 1;
        }
        proof {
            assert(new_lines@.map_values(|l: Vec<char>| l@) =~= target);
        }
        Ok(join_lines(&new_lines))
    }

    /// The lines that list the records: a notice when there is none, else a title, a blank
    /// line, a header and one row per record, numbered from 1 in file order.
    pub fn list(&self) -> (r: Vec<String>)
        ensures
            r@.map_values(|l: String| l@) == listing(self.records()),
    {
        let len = self.lines.len();
        let mut out: Vec<String> = Vec::new();
        if len == 0 {
            out.push(string_of(&chars_of("The database is empty. Add new todos using the `add` command.")));
            proof {
                assert(out@.map_values(|l: String| l@) =~= listing(self.records()));
            }
            return out;
        }
        out.push(string_of(&chars_of("The TODO List contains the following elements:")));
        out.push(string_of(&Vec::new()));
        out.push(string_of(&chars_of("  ID  Completed   Name")));
        let ghost target = listing(self.records());
        let mut i: usize = 0;
        while i < len
            invariant
                len == self.lines@.len(),
                len > 0,
                i <= len,
                target == listing(self.records()),
                out@.len() == i + 3,
                forall|k: int| 0 <= k < i + 3 ==> #[trigger] out@[k]@ == target[k],
            decreases len - i,
        {
            let current = self.line_chars(i);
            out.push(string_of(&line_row(i + 1, &current)));
            i += 1;
        }
        proof {
            assert(out@.map_values(|l: String| l@) =~= target);
        }
        out
    }
}

/// A store over the lines read from the file `db_filename`.
pub fn create_db(db_filename: &String, lines: Vec<String>) -> (r: Db)
    ensures
        r.db_filename@ == db_filename@,
        r.lines@ == lines@,
{
    Db::new(db_filename.clone(), lines)
}

} // verus!
