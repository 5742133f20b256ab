use crate::order::{
    ascending, distinct_names, lemma_sorted_by_name, lemma_sorted_distinct_names, sort_columns,
    sorted_by_name, strictly_ascending,
};
use serde_json::Value;
use vstd::prelude::*;

verus! {

/// The declared type of a column.
#[derive(Clone, Copy, Debug, PartialEq, Eq, Structural)]
pub enum SqlType {
    Integer,
    Real,
    Text,
    Boolean,
    Blob,
    /// The type of a field whose sample value is null and so shows no type.
    Unknown,
}

impl SqlType {
    /// The keyword that names this type in a statement.
    pub open spec fn keyword(self) -> Seq<char> {
        match self {
            SqlType::Integer => "INTEGER"@,
            SqlType::Real => "REAL"@,
            SqlType::Text => "TEXT"@,
            SqlType::Boolean => "BOOLEAN"@,
            SqlType::Blob => "BLOB"@,
            SqlType::Unknown => "UNKNOWN"@,
        }
    }

    /// The keyword as a string slice.
    pub fn as_str(self) -> (s: &'static str)
        ensures
            s@ == self.keyword(),
    {
        match self {
            SqlType::Integer => "INTEGER",
            SqlType::Real => "REAL",
            SqlType::Text => "TEXT",
            SqlType::Boolean => "BOOLEAN",
            SqlType::Blob => "BLOB",
            SqlType::Unknown => "UNKNOWN",
        }
    }
}

/// The kind of a JSON value, as far as a schema depends on it.
#[derive(Clone, Copy, Debug, PartialEq, Eq, Structural)]
pub enum JsonKind {
    Null,
    Boolean,
    /// A number; the flag is set if it is held as a floating point value
    /// and clear if it is held as an integer.
    Number(bool),
    Text,
    Array,
    Object,
}

/// Whether a cell that the engine hands out is to be read as a boolean. The
/// engine has no booleans and stores one as a number, so a number is read
/// as a boolean where the default value of the field it belongs to is a
/// boolean; `default_kind` is `None` for a cell that belongs to no field.
pub fn reads_as_boolean(default_kind: Option<JsonKind>, cell_kind: JsonKind) -> (yes: bool)
    ensures
        yes == (default_kind == Some(JsonKind::Boolean) && cell_kind is Number),
{
    match (default_kind, cell_kind) {
        (Some(JsonKind::Boolean), JsonKind::Number(_)) => true,
        _ => false,
    }
}

/// One entry of a record's shape: a field name and the kind of its value.
#[derive(Clone, Debug, PartialEq, Eq)]
pub struct Field {
    pub name: String,
    pub kind: JsonKind,
}

/// A field as specifications see it: its name as a sequence of characters.
pub ghost struct FieldSpec {
    pub name: Seq<char>,
    pub kind: JsonKind,
}

impl DeepView for Field {
    type V = FieldSpec;

    open spec fn deep_view(&self) -> FieldSpec {
        FieldSpec { name: self.name@, kind: self.kind }
    }
}

/// A column of a table: its name and declared type.
#[derive(Clone, Debug, PartialEq, Eq)]
pub struct Column {
    pub name: String,
    pub sql_type: SqlType,
}

/// A column as specifications see it: its name as a sequence of
/// characters.
pub ghost struct ColumnSpec {
    pub name: Seq<char>,
    pub sql_type: SqlType,
}

impl DeepView for Column {
    type V = ColumnSpec;

    open spec fn deep_view(&self) -> ColumnSpec {
        ColumnSpec { name: self.name@, sql_type: self.sql_type }
    }
}

/// Why no schema could be inferred.
#[derive(Clone, Copy, Debug, PartialEq, Eq, Structural)]
pub enum SchemaError {
    /// The sample is not a JSON object, so it maps no field to a value.
    NotRecordShaped,
    /// The sample is an object without fields; a table needs a column.
    NoFields,
}

impl SchemaError {
    /// What went wrong, in words.
    pub open spec fn text(self) -> Seq<char> {
        match self {
            SchemaError::NotRecordShaped => {
                "the record type does not convert to a map of fields"@
            },
            SchemaError::NoFields => "the record type has no fields"@,
        }
    }

    /// The words of `text` as a string slice.
    pub fn message(&self) -> (m: &'static str)
        ensures
            m@ == self.text(),
    {
        match self {
            SchemaError::NotRecordShaped => {
                "the record type does not convert to a map of fields"
            },
            SchemaError::NoFields => "the record type has no fields",
        }
    }
}

/// No two fields have the same name.
pub open spec fn distinct_field_names(fields: Seq<FieldSpec>) -> bool {
    forall|i: int, j: int|
        0 <= i < j < fields.len() ==> (#[trigger] fields[i]).name != (#[trigger] fields[j]).name
}

/// The fields of the JSON object that `text` spells, each with the kind of
/// its value, in the order in which `serde_json` holds the object's
/// entries; `None` where `text` is not one JSON object.
pub uninterp spec fn json_object_fields(text: Seq<char>) -> Option<Seq<FieldSpec>>;

/// Parses `text` with `serde_json::from_str::<serde_json::Value>` and hands
/// out the entries of the object it gives, each value reduced to its kind.
/// Nothing is proved of the parser. The contract gives its result the name
/// `json_object_fields`, which is sound because the parse depends on the
/// text alone, and claims one fact of it: no two fields have one name,
/// since `serde_json` collects an object into a map keyed by name and holds
/// a name that the text repeats once.
#[verifier::external_body]
fn parse_object(text: &str) -> (fields: Option<Vec<Field>>)
    ensures
        fields.deep_view() == json_object_fields(text@),
        fields matches Some(list) ==> distinct_field_names(list.deep_view()),
{
    match serde_json::from_str::<Value>(text) {
        Ok(Value::Object(entries)) => Some(entries.into_iter().map(|(name, value)| Field {
            name,
            kind: match value {
                Value::Null => JsonKind::Null,
                Value::Bool(_) => JsonKind::Boolean,
                Value::Number(n) => JsonKind::Number(n.is_f64()),
                Value::String(_) => JsonKind::Text,
                Value::Array(_) => JsonKind::Array,
                Value::Object(_) => JsonKind::Object,
            },
        }).collect()),
        _ => None,
    }
}

/// The column type that stands for a JSON kind: integers are INTEGER,
/// floating point numbers REAL, strings TEXT, booleans BOOLEAN, arrays
/// BLOB, and nested objects TEXT, since they are stored serialised.
pub open spec fn sql_type_for(kind: JsonKind) -> SqlType {
    match kind {
        JsonKind::Null => SqlType::Unknown,
        JsonKind::Boolean => SqlType::Boolean,
        JsonKind::Number(fractional) => if fractional {
            SqlType::Real
        } else {
            SqlType::Integer
        },
        JsonKind::Text => SqlType::Text,
        JsonKind::Array => SqlType::Blob,
        JsonKind::Object => SqlType::Text,
    }
}

/// One column per field, in the fields' order.
pub open spec fn columns_for(fields: Seq<FieldSpec>) -> Seq<ColumnSpec> {
    Seq::new(
        fields.len(),
        |i: int| ColumnSpec { name: fields[i].name, sql_type: sql_type_for(fields[i].kind) },
    )
}

/// What schema inference makes of a sample text: one column per field of
/// the object that the text spells, in ascending order of the names.
pub open spec fn inferred(text: Seq<char>) -> Result<Seq<ColumnSpec>, SchemaError> {
    match json_object_fields(text) {
        None => Err(SchemaError::NotRecordShaped),
        Some(fields) => if fields.len() == 0 {
            Err(SchemaError::NoFields)
        } else {
            Ok(sorted_by_name(columns_for(fields)))
        },
    }
}

/// `r` is what inference returns for `sample`.
pub open spec fn infers(sample: Seq<char>, r: Result<Vec<Column>, SchemaError>) -> bool {
    match r {
        Ok(columns) => inferred(sample) == Ok::<Seq<ColumnSpec>, SchemaError>(
            columns.deep_view(),
        ),
        Err(e) => inferred(sample) == Err::<Seq<ColumnSpec>, SchemaError>(e),
    }
}

/// The column type for a JSON kind.
pub fn column_type(kind: JsonKind) -> (t: SqlType)
    ensures
        t == sql_type_for(kind),
{
    match kind {
        JsonKind::Null => SqlType::Unknown,
        JsonKind::Boolean => SqlType::Boolean,
        JsonKind::Number(fractional) => if fractional {
            SqlType::Real
        } else {
            SqlType::Integer
        },
        JsonKind::Text => SqlType::Text,
        JsonKind::Array => SqlType::Blob,
        JsonKind::Object => SqlType::Text,
    }
}

/// Derives the columns of a record from the fields of its shape.
pub fn columns_from_fields(fields: &Vec<Field>) -> (columns: Vec<Column>)
    ensures
        columns.deep_view() == columns_for(fields.deep_view()),
{
    let mut columns: Vec<Column> = Vec::new();
    let mut i: usize = 0;
    while i < fields.len()
        invariant
            i <= fields.len(),
            columns.len() == i,
            forall|k: int|
                0 <= k < i ==> (#[trigger] columns[k]).deep_view() == columns_for(
                    fields.deep_view(),
                )[k],
        decreases fields.len() - i,
    {
        let field = &fields[i];
        columns.push(Column { name: field.name.clone(), sql_type: column_type(field.kind) });
        i += 1;
    }
    columns
}

/// Infers the columns of a record type from `sample`, the JSON text of one
/// value of the type (its default value serves).
///
/// There is one column per field, and no two columns have one name. The
/// columns are ordered by name, ascending, whatever the order of the fields
/// in the sample: a name comes before another if it is a proper prefix of
/// it, or holds the smaller character where the two first differ.
pub fn infer_columns(sample: &str) -> (r: Result<Vec<Column>, SchemaError>)
    ensures
        infers(sample@, r),
        r matches Ok(columns) ==> columns.len() > 0 && strictly_ascending(columns.deep_view()),
{
    match parse_object(sample) {
        None => Err(SchemaError::NotRecordShaped),
        Some(fields) => {
            if fields.len() == 0 {
                Err(SchemaError::NoFields)
            } else {
                let columns = sort_columns(&columns_from_fields(&fields));
                proof {
                    let unsorted = columns_for(fields.deep_view());
                    assert(distinct_names(unsorted)) by {
                        assert forall|i: int, j: int| 0 <= i < j < unsorted.len() implies (
                        #[trigger] unsorted[i]).name != (#[trigger] unsorted[j]).name by {
                            assert(fields.deep_view()[i].name != fields.deep_view()[j].name);
                        }
                    }
                    lemma_sorted_by_name(unsorted);
                    lemma_sorted_distinct_names(unsorted);
                }
                Ok(columns)
            }
        },
    }
}

/// What inference returns for a sample that has a schema: as many columns
/// as the sample has fields, in ascending order of their names, each
/// field's column once for each time the field occurs.
pub proof fn lemma_inferred_columns(sample: Seq<char>)
    ensures
        inferred(sample) matches Ok(columns) ==> {
            &&& json_object_fields(sample) matches Some(fields)
            &&& columns.len() == fields.len()
            &&& columns.len() > 0
            &&& ascending(columns)
            &&& columns.to_multiset() == columns_for(fields).to_multiset()
        },
{
    if inferred(sample) is Ok {
        lemma_sorted_by_name(columns_for(json_object_fields(sample)->0));
    }
}

/// Inference is a function of the sample: two runs on one sample either
/// fail with the same error or return the same columns in the same order.
pub proof fn lemma_inference_is_deterministic(
    sample: Seq<char>,
    first: Result<Vec<Column>, SchemaError>,
    second: Result<Vec<Column>, SchemaError>,
)
    requires
        infers(sample, first),
        infers(sample, second),
    ensures
        match (first, second) {
            (Ok(columns), Ok(again)) => columns.deep_view() == again.deep_view(),
            (Err(e), Err(f)) => e == f,
            _ => false,
        },
{
}

} // verus!
