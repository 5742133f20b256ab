use sqlorm::query::{
    make_count_query, make_create_query, make_delete_query, make_insert_query,
    make_update_query, QueryConstraintError,
};
use sqlorm::schema::{Column, SqlType};
use sqlorm::{OptVec, Sql};

fn person_columns() -> Vec<Column> {
    vec![
        Column { name: "email".to_string(), sql_type: SqlType::Text },
        Column { name: "id".to_string(), sql_type: SqlType::Integer },
    ]
}

fn one_column() -> Vec<Column> {
    vec![Column { name: "weight".to_string(), sql_type: SqlType::Real }]
}

#[test]
fn create_lists_columns_in_order() {
    assert_eq!(
        make_create_query("persons", &person_columns()),
        "CREATE TABLE IF NOT EXISTS persons (email TEXT, id INTEGER)"
    );
}

#[test]
fn create_with_one_column_has_no_separator() {
    assert_eq!(
        make_create_query("scales", &one_column()),
        "CREATE TABLE IF NOT EXISTS scales (weight REAL)"
    );
}

#[test]
fn create_writes_every_type() {
    let columns = vec![
        Column { name: "a".to_string(), sql_type: SqlType::Integer },
        Column { name: "b".to_string(), sql_type: SqlType::Real },
        Column { name: "c".to_string(), sql_type: SqlType::Text },
        Column { name: "d".to_string(), sql_type: SqlType::Boolean },
        Column { name: "e".to_string(), sql_type: SqlType::Blob },
        Column { name: "f".to_string(), sql_type: SqlType::Unknown },
    ];
    assert_eq!(
        make_create_query("t", &columns),
        "CREATE TABLE IF NOT EXISTS t (a INTEGER, b REAL, c TEXT, d BOOLEAN, e BLOB, f UNKNOWN)"
    );
}

#[test]
fn insert_has_one_placeholder_per_column() {
    assert_eq!(
        make_insert_query("persons", &person_columns()),
        "INSERT INTO persons VALUES (:email, :id)"
    );
    assert_eq!(make_insert_query("scales", &one_column()), "INSERT INTO scales VALUES (:weight)");
}

#[test]
fn update_sets_every_column() {
    let sql = make_update_query(
        "persons",
        &person_columns(),
        OptVec::single(Sql::Where("id = 1")),
    );
    assert_eq!(sql, Ok("UPDATE persons SET email=:email,id=:id WHERE id = 1".to_string()));
}

#[test]
fn update_without_options_misses_where() {
    let sql = make_update_query("persons", &person_columns(), OptVec::new());
    assert_eq!(sql, Err(QueryConstraintError::MissingWhere));
}

#[test]
fn update_refuses_other_options() {
    let distinct = make_update_query("t", &one_column(), OptVec::single(Sql::Distinct));
    assert_eq!(distinct, Err(QueryConstraintError::NotPermitted { index: 0 }));
    let order = make_update_query("t", &one_column(), OptVec::single(Sql::OrderBy(true)));
    assert_eq!(order, Err(QueryConstraintError::NotPermitted { index: 0 }));
    let auto = make_update_query("t", &one_column(), OptVec::single(Sql::AutoIncrement));
    assert_eq!(auto, Err(QueryConstraintError::NotPermitted { index: 0 }));
    let after = make_update_query("t", &one_column(), Sql::Where("a = 1") + Sql::Distinct);
    assert_eq!(after, Err(QueryConstraintError::NotPermitted { index: 1 }));
}

#[test]
fn update_refuses_a_second_where() {
    let sql = make_update_query("t", &one_column(), Sql::Where("a = 1") + Sql::Where("b = 2"));
    assert_eq!(sql, Err(QueryConstraintError::DuplicateWhere { index: 1 }));
}

#[test]
fn delete_with_one_where() {
    let sql = make_delete_query("persons", OptVec::single(Sql::Where("id = 1")));
    assert_eq!(sql, Ok("DELETE FROM persons WHERE id = 1".to_string()));
}

#[test]
fn delete_without_options_misses_where() {
    assert_eq!(
        make_delete_query("persons", OptVec::new()),
        Err(QueryConstraintError::MissingWhere)
    );
}

#[test]
fn delete_refuses_other_options() {
    assert_eq!(
        make_delete_query("t", OptVec::single(Sql::OrderBy(false))),
        Err(QueryConstraintError::NotPermitted { index: 0 })
    );
    assert_eq!(
        make_delete_query("t", Sql::Distinct + Sql::Where("a = 1")),
        Err(QueryConstraintError::NotPermitted { index: 0 })
    );
    assert_eq!(
        make_delete_query("t", Sql::Where("a = 1") + Sql::Where("a = 2")),
        Err(QueryConstraintError::DuplicateWhere { index: 1 })
    );
}

#[test]
fn count_names_the_table() {
    assert_eq!(make_count_query("persons"), "SELECT COUNT(*) FROM persons");
    assert_eq!(make_count_query("table_name"), "SELECT COUNT(*) FROM table_name");
}
