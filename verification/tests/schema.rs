use sqlorm::schema::{
    column_type, columns_from_fields, infer_columns, reads_as_boolean, Column, Field, JsonKind,
    SchemaError, SqlType,
};

fn column(name: &str, sql_type: SqlType) -> Column {
    Column { name: name.to_string(), sql_type }
}

#[test]
fn infers_one_column_per_field() {
    let columns = infer_columns(r#"{"id":0,"name":"","email":"","favourite_animal":""}"#);
    assert_eq!(
        columns,
        Ok(vec![
            column("email", SqlType::Text),
            column("favourite_animal", SqlType::Text),
            column("id", SqlType::Integer),
            column("name", SqlType::Text),
        ])
    );
}

#[test]
fn infers_every_kind_of_value() {
    let sample = r#"{"a":1,"b":1.5,"c":"x","d":true,"e":[1,2],"f":{"g":1},"h":null}"#;
    assert_eq!(
        infer_columns(sample),
        Ok(vec![
            column("a", SqlType::Integer),
            column("b", SqlType::Real),
            column("c", SqlType::Text),
            column("d", SqlType::Boolean),
            column("e", SqlType::Blob),
            column("f", SqlType::Text),
            column("h", SqlType::Unknown),
        ])
    );
}

#[test]
fn integers_of_any_size_and_sign_are_integer() {
    let sample = r#"{"big":18446744073709551615,"neg":-7,"zero":0}"#;
    assert_eq!(
        infer_columns(sample),
        Ok(vec![
            column("big", SqlType::Integer),
            column("neg", SqlType::Integer),
            column("zero", SqlType::Integer),
        ])
    );
}

#[test]
fn a_number_with_a_fraction_or_exponent_is_real() {
    let sample = r#"{"a":0.0,"b":1e3,"c":-2.5}"#;
    assert_eq!(
        infer_columns(sample),
        Ok(vec![
            column("a", SqlType::Real),
            column("b", SqlType::Real),
            column("c", SqlType::Real),
        ])
    );
}

#[test]
fn inference_is_the_same_each_time() {
    let sample = r#"{"z":1,"y":"","x":false}"#;
    let first = infer_columns(sample);
    let second = infer_columns(sample);
    assert_eq!(first, second);
    assert_eq!(
        first,
        Ok(vec![
            column("x", SqlType::Boolean),
            column("y", SqlType::Text),
            column("z", SqlType::Integer),
        ])
    );
}

#[test]
fn a_sample_that_is_no_object_is_not_record_shaped() {
    assert_eq!(infer_columns("[1,2,3]"), Err(SchemaError::NotRecordShaped));
    assert_eq!(infer_columns("42"), Err(SchemaError::NotRecordShaped));
    assert_eq!(infer_columns("\"text\""), Err(SchemaError::NotRecordShaped));
    assert_eq!(infer_columns("null"), Err(SchemaError::NotRecordShaped));
    assert_eq!(infer_columns("true"), Err(SchemaError::NotRecordShaped));
}

#[test]
fn a_sample_that_is_no_json_is_not_record_shaped() {
    assert_eq!(infer_columns(""), Err(SchemaError::NotRecordShaped));
    assert_eq!(infer_columns("{\"id\":"), Err(SchemaError::NotRecordShaped));
    assert_eq!(infer_columns("{\"id\":0} trailing"), Err(SchemaError::NotRecordShaped));
    assert_eq!(infer_columns("not json"), Err(SchemaError::NotRecordShaped));
}

#[test]
fn an_object_without_fields_has_no_schema() {
    assert_eq!(infer_columns("{}"), Err(SchemaError::NoFields));
    assert_eq!(infer_columns("  { }  "), Err(SchemaError::NoFields));
}

#[test]
fn columns_follow_the_fields_given() {
    let fields = vec![
        Field { name: "weight".to_string(), kind: JsonKind::Number(true) },
        Field { name: "count".to_string(), kind: JsonKind::Number(false) },
        Field { name: "tags".to_string(), kind: JsonKind::Array },
    ];
    assert_eq!(
        columns_from_fields(&fields),
        vec![
            column("weight", SqlType::Real),
            column("count", SqlType::Integer),
            column("tags", SqlType::Blob),
        ]
    );
    assert_eq!(columns_from_fields(&Vec::new()), Vec::new());
}

#[test]
fn each_kind_has_its_type() {
    assert_eq!(column_type(JsonKind::Null), SqlType::Unknown);
    assert_eq!(column_type(JsonKind::Boolean), SqlType::Boolean);
    assert_eq!(column_type(JsonKind::Number(false)), SqlType::Integer);
    assert_eq!(column_type(JsonKind::Number(true)), SqlType::Real);
    assert_eq!(column_type(JsonKind::Text), SqlType::Text);
    assert_eq!(column_type(JsonKind::Array), SqlType::Blob);
    assert_eq!(column_type(JsonKind::Object), SqlType::Text);
}

#[test]
fn each_type_has_its_keyword() {
    assert_eq!(SqlType::Integer.as_str(), "INTEGER");
    assert_eq!(SqlType::Real.as_str(), "REAL");
    assert_eq!(SqlType::Text.as_str(), "TEXT");
    assert_eq!(SqlType::Boolean.as_str(), "BOOLEAN");
    assert_eq!(SqlType::Blob.as_str(), "BLOB");
    assert_eq!(SqlType::Unknown.as_str(), "UNKNOWN");
}

#[test]
fn a_stored_number_reads_as_boolean_where_the_default_is_one() {
    assert!(reads_as_boolean(Some(JsonKind::Boolean), JsonKind::Number(false)));
    assert!(reads_as_boolean(Some(JsonKind::Boolean), JsonKind::Number(true)));
    assert!(!reads_as_boolean(Some(JsonKind::Boolean), JsonKind::Boolean));
    assert!(!reads_as_boolean(Some(JsonKind::Boolean), JsonKind::Text));
    assert!(!reads_as_boolean(Some(JsonKind::Boolean), JsonKind::Null));
    assert!(!reads_as_boolean(Some(JsonKind::Number(false)), JsonKind::Number(false)));
    assert!(!reads_as_boolean(Some(JsonKind::Text), JsonKind::Number(false)));
    assert!(!reads_as_boolean(Some(JsonKind::Null), JsonKind::Number(true)));
    assert!(!reads_as_boolean(None, JsonKind::Number(false)));
    assert!(!reads_as_boolean(None, JsonKind::Boolean));
}

#[test]
fn a_repeated_field_gives_one_column() {
    assert_eq!(
        infer_columns(r#"{"a":1,"b":"x","a":"last"}"#),
        Ok(vec![column("a", SqlType::Text), column("b", SqlType::Text)])
    );
}

#[test]
fn inferred_columns_have_distinct_names_in_strict_order() {
    let columns = infer_columns(r#"{"b":0,"ab":0,"a":0,"c":0,"a":1,"abc":0}"#).unwrap();
    let names: Vec<&str> = columns.iter().map(|c| c.name.as_str()).collect();
    assert_eq!(names, vec!["a", "ab", "abc", "b", "c"]);
    for pair in names.windows(2) {
        assert!(pair[0] < pair[1]);
    }
}
