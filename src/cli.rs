//! The commands of the command line and what each asks of the store.
use vstd::prelude::*;
use crate::db::{added_text, deleted, edited, joined, listing, valid_id, Db, StoreError};
use crate::text::{chars_of, decimal, push_all, push_decimal, string_of};

verus! {

/// The file that holds the records when no other is named.
pub const DB_NAME: &'static str = "db.txt";

/// A command, as given on the command line.
#[derive(Debug)]
pub enum Commands {
    /// Add a new todo.
    Add { name: String },
    /// Delete the todo with the given id.
    Delete { id: usize },
    /// Rename the todo with the given id.
    Edit { id: usize, name: String },
    /// List the todos.
    List,
}

/// The parsed command line: a command and the database file it works on.
#[derive(Debug)]
pub struct Cli {
    pub command: Commands,
    pub db_name: String,
}

/// What the caller is to do with the database file and the output.
#[derive(Debug)]
pub enum Action {
    /// Append `text` to the file; when that succeeds, print `notice` and list the records.
    Append { text: String, notice: String },
    /// Overwrite the file with `content`; when that succeeds, print `notice` and list the
    /// records. When it fails, report `failure` followed by the error, and stop.
    Rewrite { content: String, notice: String, failure: String },
    /// Report `message` as an error; the file stays as it is.
    Refuse { message: String },
    /// Print `lines`, one per line.
    Show { lines: Vec<String> },
}

pub open spec fn added_notice() -> Seq<char> {
    "> Success to add the new todo."@
}

pub open spec fn edited_notice(id: nat) -> Seq<char> {
    "The todo with id "@ + decimal(id) + " was edited."@
}

pub open spec fn edit_failure(id: nat) -> Seq<char> {
    "Error to update the todo with id "@ + decimal(id) + ": "@
}

pub open spec fn delete_failure() -> Seq<char> {
    "Error when trying to update the db after deleting a file: "@
}

pub open spec fn deleted_notice(id: nat) -> Seq<char> {
    "Todo with id "@ + decimal(id) + " deleted."@
}

/// The message that reports `e`.
pub open spec fn error_message(e: StoreError) -> Seq<char> {
    match e {
        StoreError::EmptyStore => "The database is empty. Use the `add` command to add a new todo."@,
        StoreError::NotFound { id } => "The given todo id ("@ + decimal(id as nat)
            + ") doesn't exists in the database. Please use the `list` command and check that the todo with id "@
            + decimal(id as nat) + " exists."@,
    }
}

impl StoreError {
    /// The message that reports this error.
    pub fn message(&self) -> (r: String)
        ensures
            r@ == error_message(*self),
    {
        match self {
            StoreError::EmptyStore => string_of(
                &chars_of("The database is empty. Use the `add` command to add a new todo."),
            ),
            StoreError::NotFound { id } => {
                let mut out = chars_of("The given todo id (");
                push_decimal(&mut out, *id);
                push_all(
                    &mut out,
                    &chars_of(
                        ") doesn't exists in the database. Please use the `list` command and check that the todo with id ",
                    ),
                );
                push_decimal(&mut out, *id);
                push_all(&mut out, &chars_of(" exists."));
                string_of(&out)
            },
        }
    }
}

fn id_notice(before: &str, id: usize, after: &str) -> (r: String)
    ensures
        r@ == before@ + decimal(id as nat) + after@,
{
    let mut out = chars_of(before);
    push_decimal(&mut out, id);
    push_all(&mut out, &chars_of(after));
    string_of(&out)
}

/// What the command of `cli` asks of the store `db`, whose records were read from the file
/// that `cli` names.
pub fn run(cli: &Cli, db: &Db) -> (r: Action)
    ensures
        match cli.command {
            Commands::Add { name } => r matches Action::Append { text, notice } && text@
                == added_text(name@) && notice@ == added_notice(),
            Commands::Edit { id, name } => if valid_id(db.records(), id as int) {
                r matches Action::Rewrite { content, notice, failure } && content@ == joined(
                    edited(db.records(), id as int, name@),
                ) && notice@ == edited_notice(id as nat) && failure@ == edit_failure(id as nat)
            } else if db.records().len() == 0 {
                r matches Action::Refuse { message } && message@ == error_message(
                    StoreError::EmptyStore,
                )
            } else {
                r matches Action::Refuse { message } && message@ == error_message(
                    StoreError::NotFound { id },
                )
            },
            Commands::Delete { id } => if valid_id(db.records(), id as int) {
                r matches Action::Rewrite { content, notice, failure } && content@ == joined(
                    deleted(db.records(), id as int),
                ) && notice@ == deleted_notice(id as nat) && failure@ == delete_failure()
            } else {
                r matches Action::Refuse { message } && message@ == error_message(
                    StoreError::NotFound { id },
                )
            },
            Commands::List => r matches Action::Show { lines } && lines@.map_values(
                |l: String| l@,
            ) == listing(db.records()),
        },
{
    match &cli.command {
        Commands::Add { name } => Action::Append {
            text: db.add_todo(name.as_str()),
            notice: string_of(&chars_of("> Success to add the new todo.")),
        },
        Commands::Edit { id, name } => match db.edit_todo(*id, name.as_str()) {
            Ok(content) => Action::Rewrite {
                content,
                notice: id_notice("The todo with id ", *id, " was edited."),
                failure: id_notice("Error to update the todo with id ", *id, ": "),
            },
            Err(e) => Action::Refuse { message: e.message() },
        },
        Commands::Delete { id } => match db.delete_todo(*id) {
            Ok(content) => Action::Rewrite {
                content,
                notice: id_notice("Todo with id ", *id, " deleted."),
                failure: string_of(
                    &chars_of("Error when trying to update the db after deleting a file: "),
                ),
            },
            Err(e) => Action::Refuse { message: e.message() },
        },
        Commands::List => Action::Show { lines: db.list() },
    }
}

} // verus!
