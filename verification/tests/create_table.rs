use serde::ser::{Serialize, SerializeStruct, Serializer};
use sqlorm::query::make_create_query;
use sqlorm::schema::infer_columns;

#[derive(Default, PartialEq, Debug)]
struct Person {
    id: u32,
    name: String,
    email: String,
    favourite_animal: String,
}

impl Serialize for Person {
    fn serialize<S: Serializer>(&self, serializer: S) -> Result<S::Ok, S::Error> {
        let mut record = serializer.serialize_struct("Person", 4)?;
        record.serialize_field("id", &self.id)?;
        record.serialize_field("name", &self.name)?;
        record.serialize_field("email", &self.email)?;
        record.serialize_field("favourite_animal", &self.favourite_animal)?;
        record.end()
    }
}

#[test]
fn create_table_test() {
    let query =
        "CREATE TABLE IF NOT EXISTS persons (email TEXT, favourite_animal TEXT, id INTEGER, name TEXT)";
    let sample = serde_json::to_string(&Person::default()).unwrap();
    let columns = infer_columns(&sample).unwrap();
    assert_eq!(make_create_query("persons", &columns), query);
}
