use sqlorm::query::QueryConstraintError;
use sqlorm::schema::SchemaError;
use sqlorm::table::TableError;

#[test]
fn constraint_errors_say_what_is_wrong() {
    assert_eq!(
        QueryConstraintError::DuplicateDistinct { index: 3 }.message(),
        "Distinct can be used only once in a query"
    );
    assert_eq!(
        QueryConstraintError::DuplicateOrderBy { index: 1 }.message(),
        "OrderBy can be used only once in a query"
    );
    assert_eq!(
        QueryConstraintError::NotPermitted { index: 0 }.message(),
        "only Where is allowed in an update or a delete"
    );
    assert_eq!(
        QueryConstraintError::DuplicateWhere { index: 1 }.message(),
        "Where can be used only once in an update or a delete"
    );
    assert_eq!(
        QueryConstraintError::MissingWhere.message(),
        "an update or a delete needs a Where"
    );
}

#[test]
fn constraint_errors_name_the_offending_option() {
    assert_eq!(QueryConstraintError::DuplicateDistinct { index: 3 }.position(), Some(3));
    assert_eq!(QueryConstraintError::DuplicateOrderBy { index: 1 }.position(), Some(1));
    assert_eq!(QueryConstraintError::NotPermitted { index: 0 }.position(), Some(0));
    assert_eq!(QueryConstraintError::DuplicateWhere { index: 1 }.position(), Some(1));
    assert_eq!(QueryConstraintError::MissingWhere.position(), None);
}

#[test]
fn schema_errors_say_what_is_wrong() {
    assert_eq!(
        SchemaError::NotRecordShaped.message(),
        "the record type does not convert to a map of fields"
    );
    assert_eq!(SchemaError::NoFields.message(), "the record type has no fields");
}

#[test]
fn table_errors_pass_the_message_on() {
    assert_eq!(
        TableError::Schema(SchemaError::NoFields).message(),
        "the record type has no fields"
    );
    assert_eq!(
        TableError::Constraint(QueryConstraintError::MissingWhere).message(),
        "an update or a delete needs a Where"
    );
    assert_eq!(TableError::ReferenceExpired.message(), "the database of this table is gone");
    assert_eq!(
        TableError::Backend("no such table: persons".to_string()).message(),
        "no such table: persons"
    );
}
