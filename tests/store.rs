use todo_cli::cli::{run, Action, Cli, Commands, DB_NAME};
use todo_cli::db::{create_db, Db, StoreError};

fn store(lines: &[&str]) -> Db {
    let name = String::from("test.db.txt");
    create_db(&name, lines.iter().map(|l| l.to_string()).collect())
}

/// The lines that reading a file holding `text` gives back.
fn read_back(text: &str) -> Vec<String> {
    text.lines().map(|l| l.to_string()).collect()
}

fn row(id: &str, completed: &str, name: &str) -> String {
    format!("{:>4} {:^12} {}", id, completed, name)
}

fn cli(command: Commands) -> Cli {
    Cli { command, db_name: DB_NAME.to_string() }
}

const EMPTY_NOTICE: &str = "The database is empty. Add new todos using the `add` command.";
const TITLE: &str = "The TODO List contains the following elements:";

#[test]
fn empty_list() {
    let db = store(&[]);
    assert_eq!(db.list(), vec![EMPTY_NOTICE.to_string()]);
    match run(&cli(Commands::List), &db) {
        Action::Show { lines } => assert_eq!(lines, vec![EMPTY_NOTICE.to_string()]),
        other => panic!("unexpected action {:?}", other),
    }
}

#[test]
fn add_cmd() {
    let db = store(&[]);
    match run(&cli(Commands::Add { name: "new todo".to_string() }), &db) {
        Action::Append { text, notice } => {
            assert_eq!(text, "new todo ____ false\n");
            assert_eq!(notice, "> Success to add the new todo.");
            let after = store(&["new todo ____ false"]);
            assert_eq!(
                after.list(),
                vec![
                    TITLE.to_string(),
                    String::new(),
                    row("ID", "Completed", "Name"),
                    row("1", "[ ]", "new todo"),
                ]
            );
        }
        other => panic!("unexpected action {:?}", other),
    }
}

#[test]
fn edit_cmd() {
    let db = store(&["new todo ____ false"]);
    let command = Commands::Edit { id: 1, name: "todo edited".to_string() };
    match run(&cli(command), &db) {
        Action::Rewrite { content, notice, failure } => {
            assert_eq!(content, "todo edited ____ false");
            assert_eq!(notice, "The todo with id 1 was edited.");
            assert_eq!(failure, "Error to update the todo with id 1: ");
            let after = store(&["todo edited ____ false"]);
            assert_eq!(after.list()[3], row("1", "[ ]", "todo edited"));
        }
        other => panic!("unexpected action {:?}", other),
    }
}

#[test]
fn edit_empty_list() {
    let db = store(&[]);
    let command = Commands::Edit { id: 123, name: "todo edited".to_string() };
    match run(&cli(command), &db) {
        Action::Refuse { message } => assert_eq!(
            message,
            "The database is empty. Use the `add` command to add a new todo."
        ),
        other => panic!("unexpected action {:?}", other),
    }
}

#[test]
fn invalid_edit() {
    let db = store(&["new todo ____ false"]);
    let command = Commands::Edit { id: 123, name: "todo edited".to_string() };
    match run(&cli(command), &db) {
        Action::Refuse { message } => assert_eq!(
            message,
            "The given todo id (123) doesn't exists in the database. Please use the `list` command and check that the todo with id 123 exists."
        ),
        other => panic!("unexpected action {:?}", other),
    }
}

#[test]
fn delete_cmd() {
    let db = store(&["new todo ____ false"]);
    match run(&cli(Commands::Delete { id: 1 }), &db) {
        Action::Rewrite { content, notice, failure } => {
            assert_eq!(content, "");
            assert_eq!(notice, "Todo with id 1 deleted.");
            assert_eq!(failure, "Error when trying to update the db after deleting a file: ");
            let after = store(&[]);
            assert_eq!(after.list(), vec![EMPTY_NOTICE.to_string()]);
        }
        other => panic!("unexpected action {:?}", other),
    }
}

#[test]
fn invalid_delete() {
    let db = store(&["new todo ____ false"]);
    match run(&cli(Commands::Delete { id: 123 }), &db) {
        Action::Refuse { message } => assert_eq!(
            message,
            "The given todo id (123) doesn't exists in the database. Please use the `list` command and check that the todo with id 123 exists."
        ),
        other => panic!("unexpected action {:?}", other),
    }
}

#[test]
fn scenario_add_edit_delete() {
    let mut file = String::new();
    let db = store(&[]);
    file.push_str(&db.add_todo("buy milk"));
    assert_eq!(file, "buy milk ____ false\n");
    let db = store(&read_back(&file).iter().map(|s| s.as_str()).collect::<Vec<_>>());
    assert_eq!(db.list()[3], row("1", "[ ]", "buy milk"));
    assert_eq!(db.list()[3], "   1     [ ]      buy milk");
    let file = db.edit_todo(1, "buy milk and eggs").unwrap();
    assert_eq!(file, "buy milk and eggs ____ false");
    let db = store(&read_back(&file).iter().map(|s| s.as_str()).collect::<Vec<_>>());
    assert_eq!(db.list()[3], row("1", "[ ]", "buy milk and eggs"));
    let file = db.delete_todo(1).unwrap();
    let db = store(&read_back(&file).iter().map(|s| s.as_str()).collect::<Vec<_>>());
    assert_eq!(db.list(), vec![EMPTY_NOTICE.to_string()]);
}

#[test]
fn list_twice_is_identical() {
    let db = store(&["a ____ false", "b ____ true"]);
    assert_eq!(db.list(), db.list());
}

#[test]
fn ids_stay_dense_after_delete() {
    let db = store(&["a ____ false", "b ____ false", "c ____ false", "d ____ false"]);
    let file = db.delete_todo(2).unwrap();
    assert_eq!(file, "a ____ false\nc ____ false\nd ____ false");
    let db = store(&read_back(&file).iter().map(|s| s.as_str()).collect::<Vec<_>>());
    let listed = db.list();
    assert_eq!(listed.len(), 6);
    assert_eq!(listed[3], row("1", "[ ]", "a"));
    assert_eq!(listed[4], row("2", "[ ]", "c"));
    assert_eq!(listed[5], row("3", "[ ]", "d"));
}

#[test]
fn delete_first_renumbers() {
    let db = store(&["A ____ false", "B ____ true", "C ____ false"]);
    let file = db.delete_todo(1).unwrap();
    let db = store(&read_back(&file).iter().map(|s| s.as_str()).collect::<Vec<_>>());
    let listed = db.list();
    assert_eq!(listed[3], row("1", "[x]", "B"));
    assert_eq!(listed[4], row("2", "[ ]", "C"));
}

#[test]
fn edit_keeps_completed_flag() {
    let db = store(&["a ____ false", "walk the dog ____ true", "c ____ false"]);
    assert_eq!(db.list()[4], row("2", "[x]", "walk the dog"));
    let file = db.edit_todo(2, "walk the cat").unwrap();
    assert_eq!(file, "a ____ false\nwalk the cat ____ true\nc ____ false");
    let db = store(&read_back(&file).iter().map(|s| s.as_str()).collect::<Vec<_>>());
    assert_eq!(db.list()[4], row("2", "[x]", "walk the cat"));
    assert_eq!(db.list()[3], row("1", "[ ]", "a"));
}

#[test]
fn edit_line_without_status_defaults_to_false() {
    let db = store(&["just a name"]);
    assert_eq!(db.list()[3], row("1", "[ ]", "just a name"));
    assert_eq!(db.edit_todo(1, "renamed").unwrap(), "renamed ____ false");
}

#[test]
fn edit_past_the_end_is_not_found() {
    let db = store(&["a ____ false", "b ____ false"]);
    assert_eq!(db.edit_todo(3, "x"), Err(StoreError::NotFound { id: 3 }));
    assert_eq!(db.edit_todo(0, "x"), Err(StoreError::NotFound { id: 0 }));
    assert_eq!(db.delete_todo(3), Err(StoreError::NotFound { id: 3 }));
    assert_eq!(db.delete_todo(0), Err(StoreError::NotFound { id: 0 }));
    assert!(db.edit_todo(2, "x").is_ok());
    assert!(db.delete_todo(2).is_ok());
}

#[test]
fn empty_store_errors_differ() {
    let db = store(&[]);
    assert_eq!(db.edit_todo(1, "x"), Err(StoreError::EmptyStore));
    assert_eq!(db.delete_todo(1), Err(StoreError::NotFound { id: 1 }));
    assert_ne!(StoreError::EmptyStore.message(), StoreError::NotFound { id: 1 }.message());
}

#[test]
fn ids_of_two_and_more_digits_align() {
    let lines: Vec<String> = (0..12).map(|i| format!("t{} ____ false", i)).collect();
    let db = create_db(&"x".to_string(), lines);
    let listed = db.list();
    assert_eq!(listed[3 + 11], row("12", "[ ]", "t11"));
    assert_eq!(listed[3 + 11], "  12     [ ]      t11");
    let many: Vec<String> = (0..10000).map(|_| "n ____ false".to_string()).collect();
    let db = create_db(&"x".to_string(), many);
    assert_eq!(db.list()[3 + 9999], row("10000", "[ ]", "n"));
}

#[test]
fn names_are_trimmed_and_status_read_exactly() {
    let db = store(&["\t  spaced out \u{3000} ____  true ", "x ____ TRUE", "y____true", "z ____ true ____ more"]);
    let listed = db.list();
    assert_eq!(listed[3], row("1", "[x]", "spaced out"));
    assert_eq!(listed[4], row("2", "[ ]", "x"));
    assert_eq!(listed[5], row("3", "[x]", "y"));
    assert_eq!(listed[6], row("4", "[x]", "z"));
}

#[test]
fn db_keeps_its_file_name() {
    let db = create_db(&"other.txt".to_string(), vec![]);
    assert_eq!(db.db_filename, "other.txt");
    let db = Db::new("db.txt".to_string(), vec!["a ____ false".to_string()]);
    assert_eq!(db.lines, vec!["a ____ false".to_string()]);
}

#[test]
fn edit_rewrites_line_in_standard_form() {
    let db = store(&["done ____ true", "open ____ false", "odd ____   true  ", "bare"]);
    assert_eq!(
        db.edit_todo(1, "renamed").unwrap(),
        "renamed ____ true\nopen ____ false\nodd ____   true  \nbare"
    );
    assert_eq!(db.edit_todo(3, "tidy").unwrap(), "done ____ true\nopen ____ false\ntidy ____ true\nbare");
    assert_eq!(db.edit_todo(4, "named").unwrap(), "done ____ true\nopen ____ false\nodd ____   true  \nnamed ____ false");
}
