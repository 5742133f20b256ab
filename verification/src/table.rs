use crate::order::strictly_ascending;
use crate::query::{
    count_sql, create_sql, delete_query, insert_sql, make_count_query, make_create_query,
    make_delete_query, make_insert_query, make_select_query, make_update_query, select_query,
    update_query, QueryConstraintError,
};
use crate::schema::{infer_columns, inferred, Column, ColumnSpec, SchemaError};
use crate::sql::{OptVec, Sql};
use crate::text::texts;
use vstd::prelude::*;

verus! {

/// Why an operation on a table failed.
#[derive(Clone, Debug, PartialEq, Eq)]
pub enum TableError {
    /// The record type has no usable shape. Only creating a table fails so.
    Schema(SchemaError),
    /// The options do not fit the operation.
    Constraint(QueryConstraintError),
    /// The database that the table belongs to is gone.
    ReferenceExpired,
    /// The storage engine refused or failed; the text is its message.
    Backend(String),
}

impl TableError {
    /// What went wrong, in words; for a failure of the engine, its own
    /// message.
    pub open spec fn text(self) -> Seq<char> {
        match self {
            TableError::Schema(e) => e.text(),
            TableError::Constraint(e) => e.text(),
            TableError::ReferenceExpired => "the database of this table is gone"@,
            TableError::Backend(message) => message@,
        }
    }

    /// The words of `text` as a string.
    pub fn message(&self) -> (m: String)
        ensures
            m@ == self.text(),
    {
        match self {
            TableError::Schema(e) => e.message().to_owned(),
            TableError::Constraint(e) => e.message().to_owned(),
            TableError::ReferenceExpired => "the database of this table is gone".to_owned(),
            TableError::Backend(message) => message.clone(),
        }
    }
}

/// A statement that is ready to run: the connection that was still there
/// when it was asked for, and its text.
pub struct Prepared<C> {
    pub connection: C,
    pub sql: String,
}

impl<C> Prepared<C> {
    /// The connection and the text as a pair of plain values.
    pub open spec fn parts(self) -> (C, Seq<char>) {
        (self.connection, self.sql@)
    }
}

/// What asking for a statement gives, with texts as sequences of characters.
pub open spec fn outcome<C>(r: Result<Prepared<C>, TableError>) -> Result<
    (C, Seq<char>),
    TableError,
> {
    match r {
        Ok(ready) => Ok(ready.parts()),
        Err(e) => Err(e),
    }
}

/// The rule that every operation on a table follows: without a connection
/// it fails with `ReferenceExpired`, whatever else is wrong; with one, it
/// fails if the statement cannot be built, and else hands out both.
pub open spec fn prepared<C>(
    connection: Option<C>,
    query: Result<Seq<char>, QueryConstraintError>,
) -> Result<(C, Seq<char>), TableError> {
    match connection {
        None => Err(TableError::ReferenceExpired),
        Some(live) => match query {
            Ok(sql) => Ok((live, sql)),
            Err(e) => Err(TableError::Constraint(e)),
        },
    }
}

/// Once the database is gone, an operation fails with `ReferenceExpired`,
/// whatever statement it would have built and whatever error building it
/// would have met.
pub proof fn lemma_expired_reference<C>(query: Result<Seq<char>, QueryConstraintError>)
    ensures
        prepared::<C>(None, query) == Err::<(C, Seq<char>), TableError>(
            TableError::ReferenceExpired,
        ),
{
}

/// A table: a name bound to the columns of a record type.
///
/// A table holds no connection. Each operation is given what resolving the
/// table's reference to its database gave, `None` if the database is gone,
/// and hands the connection back with the statement to run on it.
pub struct Table {
    table_name: String,
    columns: Vec<Column>,
}

impl Table {
    /// A table has at least one column, and its columns stand in strictly
    /// ascending order of their names, so that no two share a name.
    #[verifier::type_invariant]
    spec fn well_formed(self) -> bool {
        &&& self.columns.len() > 0
        &&& strictly_ascending(self.columns.deep_view())
    }

    /// The table's name.
    pub closed spec fn spec_name(self) -> Seq<char> {
        self.table_name@
    }

    /// The table's columns, in their order.
    pub closed spec fn spec_columns(self) -> Seq<ColumnSpec> {
        self.columns.deep_view()
    }

    /// Binds `table_name` to the record type of which `sample` is the JSON
    /// text of one value, and asks for the statement that creates the table
    /// unless it exists.
    ///
    /// Like every operation, creation is given what resolving the reference
    /// to the database gave. Without a connection it fails with
    /// `ReferenceExpired`, whatever the sample; with one, it fails with the
    /// schema error of a sample that is no JSON object or has no field, and
    /// else hands out the table and, with the connection, the statement.
    pub fn new<C>(connection: Option<C>, table_name: &str, sample: &str) -> (r: Result<
        (Table, Prepared<C>),
        TableError,
    >)
        ensures
            match connection {
                None => r matches Err(TableError::ReferenceExpired),
                Some(live) => match inferred(sample@) {
                    Err(e) => r matches Err(TableError::Schema(f)) && f == e,
                    Ok(columns) => {
                        &&& r matches Ok((table, ready))
                        &&& table.spec_name() == table_name@
                        &&& table.spec_columns() == columns
                        &&& ready.parts() == (live, create_sql(table_name@, columns))
                    },
                },
            },
    {
        let live = match connection {
            Some(live) => live,
            None => {
                return Err(TableError::ReferenceExpired);
            },
        };
        match infer_columns(sample) {
            Ok(columns) => {
                let sql = make_create_query(table_name, &columns);
                let table = Table { table_name: table_name.to_owned(), columns };
                Ok((table, Prepared { connection: live, sql }))
            },
            Err(e) => Err(TableError::Schema(e)),
        }
    }

    /// The table's name.
    pub fn name(&self) -> (name: &str)
        ensures
            name@ == self.spec_name(),
    {
        self.table_name.as_str()
    }

    /// The table's columns, in their order.
    pub fn columns(&self) -> (columns: &Vec<Column>)
        ensures
            columns.deep_view() == self.spec_columns(),
            columns.len() > 0,
            strictly_ascending(columns.deep_view()),
    {
        proof {
            use_type_invariant(self);
        }
        &self.columns
    }

    /// The names of the columns, in the columns' order.
    pub fn column_names(&self) -> (names: Vec<String>)
        ensures
            names.deep_view() == self.spec_columns().map_values(|c: ColumnSpec| c.name),
    {
        let mut names: Vec<String> = Vec::new();
        let mut i: usize = 0;
        while i < self.columns.len()
            invariant
                i <= self.columns.len(),
                names.len() == i,
                forall|k: int| 0 <= k < i ==> (#[trigger] names[k])@ == self.columns[k].name@,
            decreases self.columns.len() - i,
        {
            names.push(self.columns[i].name.clone());
            i += 1;
        }
        names
    }

    /// Asks for the SELECT over all columns.
    pub fn select<C>(&self, connection: Option<C>, options: OptVec<Sql>) -> (r: Result<
        Prepared<C>,
        TableError,
    >)
        ensures
            outcome(r) == prepared(
                connection,
                select_query(self.spec_name(), Seq::empty(), options@),
            ),
    {
        let none: [&str; 0] = [];
        self.partial_select(connection, &none, options)
    }

    /// Asks for the SELECT over the named columns; over all if none is
    /// named. A record read from such a row holds what the row gives for
    /// the named columns and its type's default in every other field: it
    /// need not equal the record that was stored.
    pub fn partial_select<C>(
        &self,
        connection: Option<C>,
        column_names: &[&str],
        options: OptVec<Sql>,
    ) -> (r: Result<Prepared<C>, TableError>)
        ensures
            outcome(r) == prepared(
                connection,
                select_query(self.spec_name(), texts(column_names@), options@),
            ),
    {
        let live = match connection {
            Some(live) => live,
            None => {
                return Err(TableError::ReferenceExpired);
            },
        };
        match make_select_query(self.table_name.as_str(), column_names, options) {
            Ok(sql) => Ok(Prepared { connection: live, sql }),
            Err(e) => Err(TableError::Constraint(e)),
        }
    }

    /// Asks for the INSERT of one record. Its placeholders are named after
    /// the columns, so a record's values are bound by field name.
    pub fn insert_one<C>(&self, connection: Option<C>) -> (r: Result<Prepared<C>, TableError>)
        ensures
            outcome(r) == prepared(
                connection,
                Ok(insert_sql(self.spec_name(), self.spec_columns())),
            ),
    {
        match connection {
            Some(live) => Ok(
                Prepared {
                    connection: live,
                    sql: make_insert_query(self.table_name.as_str(), &self.columns),
                },
            ),
            None => Err(TableError::ReferenceExpired),
        }
    }

    /// Asks for the UPDATE that overwrites the rows that meet `option`,
    /// which must be a `Where`, with the values of one record.
    pub fn update_one<C>(&self, connection: Option<C>, option: Sql) -> (r: Result<
        Prepared<C>,
        TableError,
    >)
        ensures
            outcome(r) == prepared(
                connection,
                update_query(self.spec_name(), self.spec_columns(), seq![option@]),
            ),
    {
        let live = match connection {
            Some(live) => live,
            None => {
                return Err(TableError::ReferenceExpired);
            },
        };
        match make_update_query(self.table_name.as_str(), &self.columns, OptVec::single(option)) {
            Ok(sql) => Ok(Prepared { connection: live, sql }),
            Err(e) => Err(TableError::Constraint(e)),
        }
    }

    /// Asks for the DELETE of the rows that meet `option`, which must be a
    /// `Where`.
    pub fn delete<C>(&self, connection: Option<C>, option: Sql) -> (r: Result<
        Prepared<C>,
        TableError,
    >)
        ensures
            outcome(r) == prepared(connection, delete_query(self.spec_name(), seq![option@])),
    {
        let live = match connection {
            Some(live) => live,
            None => {
                return Err(TableError::ReferenceExpired);
            },
        };
        match make_delete_query(self.table_name.as_str(), OptVec::single(option)) {
            Ok(sql) => Ok(Prepared { connection: live, sql }),
            Err(e) => Err(TableError::Constraint(e)),
        }
    }

    /// Asks for the statement that counts the table's rows.
    pub fn count_rows<C>(&self, connection: Option<C>) -> (r: Result<Prepared<C>, TableError>)
        ensures
            outcome(r) == prepared(connection, Ok(count_sql(self.spec_name()))),
    {
        match connection {
            Some(live) => Ok(
                Prepared { connection: live, sql: make_count_query(self.table_name.as_str()) },
            ),
            None => Err(TableError::ReferenceExpired),
        }
    }
}

} // verus!
