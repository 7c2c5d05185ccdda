//! The reference scenario: table foo(child TEXT PRIMARY KEY) holding
//! {a, b}, table bar(parent, child) referencing foo with {(x,a), (y,b)},
//! exercised through the cursor's fetch modes over the result sets the
//! engine would produce.

use querylayer::BackendKind;
use querylayer::Error;
use querylayer::JsonValue;
use querylayer::ResultCursor;
use querylayer::Row;
use querylayer::StepOutcome;
use querylayer::WireValue;
use querylayer::str_equal;

fn bar_row(parent: &str, child: &str) -> Row {
    Row::new(
        BackendKind::Sqlite,
        vec![String::from("parent"), String::from("child")],
        vec![
            WireValue::Text(String::from(parent)),
            WireValue::Text(String::from(child)),
        ],
    )
    .unwrap()
}

/// The rows `SELECT * FROM bar WHERE child LIKE '%'` yields, in
/// insertion order.
fn bar_like_all() -> Vec<Row> {
    vec![bar_row("x", "a"), bar_row("y", "b")]
}

fn parent_of(row: &Row) -> String {
    let i = row.column_index("parent").unwrap();
    String::from(row.get_text(i).unwrap())
}

#[test]
fn streaming_bar_yields_parents_in_insertion_order() {
    let mut cursor = ResultCursor::from_rows(bar_like_all());
    let mut parents: Vec<String> = Vec::new();
    loop {
        match cursor.next() {
            StepOutcome::Row(row) => parents.push(parent_of(&row)),
            StepOutcome::End => break,
            StepOutcome::Failed(_) => panic!("clean stream must not fail"),
        }
    }
    assert_eq!(parents, vec![String::from("x"), String::from("y")]);
}

#[test]
fn fetch_optional_with_unmatched_child_is_absent() {
    // child = 'z' matches nothing: the engine hands back an empty result.
    let mut cursor = ResultCursor::from_rows(Vec::new());
    assert_eq!(cursor.fetch_optional().unwrap(), None);
}

#[test]
fn fetch_one_with_child_a_yields_parent_x() {
    // child = 'a' matches the first inserted pair.
    let mut cursor = ResultCursor::from_rows(vec![bar_row("x", "a")]);
    let row = cursor.fetch_one().unwrap();
    assert_eq!(parent_of(&row), "x");
}

#[test]
fn second_row_of_fetch_all_is_y() {
    let mut cursor = ResultCursor::from_rows(bar_like_all());
    let all = cursor.fetch_all().unwrap();
    assert_eq!(all.len(), 2);
    assert_eq!(parent_of(&all[1]), "y");
}

#[test]
fn after_update_child_a_yields_parent_z() {
    // UPDATE bar SET parent = 'z' WHERE parent = 'x' rewrites the first
    // pair; a later query for child = 'a' sees the new parent.
    let mut cursor = ResultCursor::from_rows(vec![bar_row("z", "a")]);
    let row = cursor.fetch_one().unwrap();
    assert_eq!(parent_of(&row), "z");
}

#[test]
fn row_lookup_by_name_and_index() {
    let row = bar_row("x", "a");
    assert_eq!(row.len(), 2);
    assert_eq!(row.backend(), BackendKind::Sqlite);
    assert_eq!(row.column_index("parent"), Some(0));
    assert_eq!(row.column_index("child"), Some(1));
    assert_eq!(row.column_index("cousin"), None);
    assert_eq!(row.get_text(1).unwrap(), "a");
    assert_eq!(row.wire(0), &WireValue::Text(String::from("x")));
    assert!(!row.is_null(0));
}

#[test]
fn row_access_reports_type_mismatch() {
    let row = Row::new(
        BackendKind::Postgres,
        vec![String::from("n"), String::from("flag")],
        vec![WireValue::Int(3), WireValue::Bool(true)],
    )
    .unwrap();
    assert_eq!(row.get_integer(0).unwrap(), 3);
    assert_eq!(row.get_boolean(1).unwrap(), true);
    assert_eq!(row.get_text(0), Err(Error::TypeMismatch));
    assert_eq!(row.get_boolean(0), Err(Error::TypeMismatch));
    assert_eq!(row.get_json(1), Err(Error::TypeMismatch));
    assert_eq!(row.get_integer(1), Err(Error::TypeMismatch));
}

#[test]
fn row_construction_requires_matching_lengths() {
    let r = Row::new(
        BackendKind::Sqlite,
        vec![String::from("a")],
        vec![WireValue::Int(1), WireValue::Int(2)],
    );
    assert!(r.is_none());
}

#[test]
fn sqlite_boolean_column_reads_back_from_integer_storage() {
    let row = Row::new(
        BackendKind::Sqlite,
        vec![String::from("flag")],
        vec![WireValue::Int(1)],
    )
    .unwrap();
    assert_eq!(row.get_boolean(0).unwrap(), true);
}

#[test]
fn json_cousin_column_reads_back_structurally() {
    let doc = JsonValue::Object(vec![
        (
            String::from("value"),
            JsonValue::Str(String::from("shugginses")),
        ),
        (String::from("valid"), JsonValue::Bool(true)),
        (String::from("messages"), JsonValue::Object(Vec::new())),
    ]);
    let row = Row::new(
        BackendKind::Postgres,
        vec![
            String::from("parent"),
            String::from("child"),
            String::from("cousin"),
        ],
        vec![
            WireValue::Text(String::from("x")),
            WireValue::Text(String::from("a")),
            WireValue::Json(doc),
        ],
    )
    .unwrap();
    let i = row.column_index("cousin").unwrap();
    let cousin = row.get_json(i).unwrap();
    match cousin {
        JsonValue::Object(members) => {
            assert_eq!(members.len(), 3);
            assert_eq!(members[0].0, "value");
            assert_eq!(
                members[0].1,
                JsonValue::Str(String::from("shugginses"))
            );
            assert_eq!(members[1].1, JsonValue::Bool(true));
        }
        _ => panic!("Programming error!"),
    }
    assert_eq!(row.get_text(i), Err(Error::TypeMismatch));
}

#[test]
fn string_comparison_is_exact() {
    assert!(str_equal("parent", "parent"));
    assert!(!str_equal("parent", "paren"));
    assert!(!str_equal("parent", "parenu"));
    assert!(str_equal("", ""));
}
