use futures::executor::block_on;
use sqlx::migrate::MigrateDatabase;
use sqlx::sqlite::SqlitePoolOptions;
use sqlx::{Column, Row};
use sqltext::columns::Cell;
use sqltext::flow::{next_step, SetupStep};
use sqltext::outcome::{render_outcome, QueryOutcome};
use std::time::{SystemTime, UNIX_EPOCH};

fn fresh_location(tag: &str) -> String {
    let nanos = SystemTime::now().duration_since(UNIX_EPOCH).unwrap().as_nanos();
    format!("sqlite:///tmp/sqltext_{}_{}.db", tag, nanos)
}

fn execute(uri: &str, query: &str) -> String {
    block_on(async {
        let exists = sqlx::Sqlite::database_exists(uri).await.unwrap();
        let mut step = next_step(SetupStep::CheckExistence, exists);
        if step == SetupStep::CreateDatabase {
            sqlx::Sqlite::create_database(uri).await.unwrap();
            step = next_step(step, exists);
        }
        assert_eq!(step, SetupStep::OpenPool);
        let pool = SqlitePoolOptions::new()
            .max_connections(1)
            .connect(uri)
            .await
            .unwrap();
        step = next_step(step, exists);
        assert_eq!(step, SetupStep::RunQuery);
        let fetched = sqlx::query(query).fetch_all(&pool).await;
        let outcome = match fetched {
            Ok(rows) => {
                let mut all: Vec<Vec<Cell>> = Vec::new();
                for row in rows.iter() {
                    let mut cells: Vec<Cell> = Vec::new();
                    for (idx, column) in row.columns().iter().enumerate() {
                        let value: String = row.get_unchecked(idx);
                        cells.push(Cell { name: column.name().to_string(), value });
                    }
                    all.push(cells);
                }
                QueryOutcome::Rows(all)
            }
            Err(err) => QueryOutcome::Failure(format!("{}", err)),
        };
        render_outcome(&outcome)
    })
}

#[test]
fn creation_happens_once_across_two_calls() {
    let uri = fresh_location("create_once");
    assert!(!block_on(sqlx::Sqlite::database_exists(&uri)).unwrap());
    assert_eq!(execute(&uri, "CREATE TABLE t(a)"), "");
    assert!(block_on(sqlx::Sqlite::database_exists(&uri)).unwrap());
    // The second call finds the database already present; had it re-created
    // the file, the table would be gone and the query would fail.
    assert_eq!(execute(&uri, "SELECT * FROM t"), "");
}

#[test]
fn round_trip_rendering_matches_flat_format() {
    let uri = fresh_location("round_trip");
    execute(&uri, "CREATE TABLE t(a,b); INSERT INTO t VALUES(1,'x'),(2,'y');");
    assert_eq!(execute(&uri, "SELECT a,b FROM t"), "1 x \n2 y \n");
}

#[test]
fn empty_selection_renders_empty_string() {
    let uri = fresh_location("empty");
    execute(&uri, "CREATE TABLE t(a,b); INSERT INTO t VALUES(1,'x'),(2,'y');");
    assert_eq!(execute(&uri, "SELECT * FROM t WHERE a=999"), "");
}

#[test]
fn query_error_is_surfaced_not_fatal() {
    let uri = fresh_location("error");
    let out = execute(&uri, "SELECT * FROM nonexistent_table");
    assert!(out.starts_with("Query returned an error"));
    // The failure was rendered, not raised: the same location still answers.
    assert_eq!(execute(&uri, "SELECT 1 WHERE 0"), "");
}

#[test]
fn emitted_columns_follow_select_order() {
    let uri = fresh_location("column_order");
    execute(&uri, "CREATE TABLE t(a,b); INSERT INTO t VALUES(1,'x'),(2,'y');");
    assert_eq!(execute(&uri, "SELECT b,a FROM t ORDER BY a"), "x 1 \ny 2 \n");
}

#[test]
fn selection_without_order_by_is_compared_order_free() {
    let uri = fresh_location("order_free");
    execute(&uri, "CREATE TABLE t(a,b); INSERT INTO t VALUES(1,'x'),(2,'y');");
    let first = execute(&uri, "SELECT a,b FROM t");
    let second = execute(&uri, "SELECT a,b FROM t");
    let mut first_lines: Vec<&str> = first.lines().collect();
    let mut second_lines: Vec<&str> = second.lines().collect();
    first_lines.sort();
    second_lines.sort();
    let expected = vec!["1 x ", "2 y "];
    assert_eq!(first_lines, expected);
    assert_eq!(second_lines, expected);
}
