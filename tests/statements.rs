use seedling::fake::Generator;
use seedling::mock::{generate, Mock};
use seedling::statement::build_insert;
use seedling::table::{Column, ColumnDef, Schema, SchemaDef, Table, TableDef};
use seedling::value::Value;

fn text(s: &str) -> Generator {
    Generator::Constant(Value::Text(s.to_string()))
}

fn user_columns() -> Vec<ColumnDef> {
    vec![
        ColumnDef::new("id", Generator::Uuid),
        ColumnDef::new("username", Generator::FirstName),
        ColumnDef::new("email", Generator::Email),
    ]
}

fn tuples_of(statement: &str, head: &str) -> Vec<String> {
    assert!(statement.starts_with(head), "{statement}");
    statement[head.len()..].split(",\n").map(|t| t.to_string()).collect()
}

#[test]
fn schema_qualified_statement_with_five_rows() {
    let mock = generate("auth", "users", 5, user_columns()).unwrap();
    let sql = mock.insert_statement();
    let head = "INSERT INTO auth.users (id, username, email) VALUES ";
    let tuples = tuples_of(&sql, head);
    assert_eq!(tuples.len(), 5);
    for t in &tuples {
        assert!(t.starts_with("(\"") && t.ends_with("\")"), "{t}");
        assert_eq!(t.matches("\", \"").count(), 2, "{t}");
    }
    assert!(!sql.ends_with(','));
    assert!(!sql.ends_with(';'));
}

#[test]
fn unqualified_statement_with_one_row() {
    let mock = generate("", "users", 1, user_columns()).unwrap();
    let sql = mock.insert_statement();
    assert!(sql.starts_with("INSERT INTO users (id, username, email) VALUES ("), "{sql}");
    assert!(!sql.contains(".users"));
    assert_eq!(tuples_of(&sql, "INSERT INTO users (id, username, email) VALUES ").len(), 1);
}

#[test]
fn zero_repetitions_are_rejected() {
    assert!(generate("auth", "users", 0, user_columns()).is_none());
    assert!(generate("", "users", 0, user_columns()).is_none());
    let table = TableDef::new(None, "users", user_columns()).unwrap();
    assert!(Mock::new(table, 0).is_none());
    let table = TableDef::new(SchemaDef::new("auth"), "users", user_columns()).unwrap();
    assert!(Mock::new(table, 0).is_none());
}

#[test]
fn constant_columns_give_an_exact_statement() {
    let columns = vec![
        ColumnDef::new("id", Generator::Constant(Value::Integer(7))),
        ColumnDef::new("name", text("ann")),
        ColumnDef::new("active", Generator::Constant(Value::Boolean(true))),
    ];
    let mock = generate("auth", "users", 2, columns).unwrap();
    assert_eq!(
        mock.insert_statement(),
        "INSERT INTO auth.users (id, name, active) VALUES (7, \"ann\", true),\n(7, \"ann\", true)"
    );
}

#[test]
fn column_order_matches_literal_order() {
    let forward = vec![ColumnDef::new("a", text("A")), ColumnDef::new("b", text("B"))];
    let backward = vec![ColumnDef::new("b", text("B")), ColumnDef::new("a", text("A"))];
    let f = generate("", "t", 3, forward).unwrap().insert_statement();
    let b = generate("", "t", 3, backward).unwrap().insert_statement();
    assert_eq!(f, "INSERT INTO t (a, b) VALUES (\"A\", \"B\"),\n(\"A\", \"B\"),\n(\"A\", \"B\")");
    assert_eq!(b, "INSERT INTO t (b, a) VALUES (\"B\", \"A\"),\n(\"B\", \"A\"),\n(\"B\", \"A\")");
}

#[test]
fn two_builds_share_structure() {
    let mock = generate("auth", "users", 4, user_columns()).unwrap();
    let head = "INSERT INTO auth.users (id, username, email) VALUES ";
    let first = mock.insert_statement();
    let second = mock.insert_statement();
    assert_eq!(tuples_of(&first, head).len(), 4);
    assert_eq!(tuples_of(&second, head).len(), 4);
    assert_ne!(first, second);
}

#[test]
fn generated_rows_fit_the_columns() {
    let mock = generate("", "users", 3, user_columns()).unwrap();
    let rows = mock.generate_rows();
    assert_eq!(rows.len(), 3);
    for row in &rows {
        assert_eq!(row.len(), 3);
        match &row[0] {
            Value::Text(id) => assert_eq!(id.len(), 36),
            other => panic!("{other:?}"),
        }
        match &row[2] {
            Value::Text(email) => assert!(email.contains('@')),
            other => panic!("{other:?}"),
        }
    }
    let sql = mock.statement_for(&rows);
    assert_eq!(tuples_of(&sql, "INSERT INTO users (id, username, email) VALUES ").len(), 3);
}

#[test]
fn builder_renders_given_rows() {
    let names = vec!["x".to_string(), "y".to_string()];
    let rows = vec![
        vec![Value::Integer(-1), Value::Text("a\"b".to_string())],
        vec![Value::Integer(20), Value::Boolean(false)],
    ];
    assert_eq!(
        build_insert(Some("s"), "t", &names, &rows),
        "INSERT INTO s.t (x, y) VALUES (-1, \"a\"\"b\"),\n(20, false)"
    );
    assert_eq!(
        build_insert(None, "t", &names, &rows[..1].to_vec()),
        "INSERT INTO t (x, y) VALUES (-1, \"a\"\"b\")"
    );
}

#[test]
fn invalid_descriptions_are_rejected() {
    assert!(SchemaDef::new("").is_none());
    assert!(SchemaDef::new("9auth").is_none());
    assert_eq!(SchemaDef::new("auth").unwrap().schema_name(), Some("auth"));
    assert_eq!(().schema_name(), None);
    assert!(TableDef::new(None, "users", vec![]).is_none());
    assert!(TableDef::new(None, "bad name", user_columns()).is_none());
    let dup = vec![ColumnDef::new("id", Generator::Uuid), ColumnDef::new("id", Generator::Uuid)];
    assert!(TableDef::new(None, "users", dup).is_none());
    let bad = vec![ColumnDef::new("id;drop", Generator::Uuid)];
    assert!(TableDef::new(None, "users", bad).is_none());
    assert!(generate("a.b", "users", 1, user_columns()).is_none());
}

#[test]
fn table_accessors() {
    let table = TableDef::new(SchemaDef::new("auth"), "users", user_columns()).unwrap();
    assert_eq!(table.table_name(), "users");
    assert_eq!(table.schema_name(), Some("auth"));
    assert_eq!(table.column_names(), vec!["id", "username", "email"]);
    assert_eq!(table.columns().len(), 3);
    assert_eq!(table.columns()[1].name(), "username");
    assert!(matches!(table.columns()[1].value(), Value::Text(_)));
    let mock = Mock::new(table, 2).unwrap();
    assert_eq!(mock.count(), 2);
    assert_eq!(mock.table().table_name(), "users");
}
