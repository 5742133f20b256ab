use crate::schema::{Column, ColumnSpec};
use crate::sql::{OptVec, QueryOption, Sql};
use crate::text::{join, joined, lemma_joined_step, texts};
use vstd::prelude::*;
use vstd::string::*;

verus! {

/// A list of options that the query at hand does not accept. Each variant
/// but the last names the position of the offending option in the list.
#[derive(Clone, Copy, Debug, PartialEq, Eq, Structural)]
pub enum QueryConstraintError {
    /// A second `Distinct` in a SELECT.
    DuplicateDistinct { index: usize },
    /// A second `OrderBy` in a SELECT.
    DuplicateOrderBy { index: usize },
    /// An option other than `Where` in an UPDATE or a DELETE.
    NotPermitted { index: usize },
    /// A second `Where` in an UPDATE or a DELETE.
    DuplicateWhere { index: usize },
    /// No `Where` in an UPDATE or a DELETE.
    MissingWhere,
}

impl QueryConstraintError {
    /// What went wrong, in words.
    pub open spec fn text(self) -> Seq<char> {
        match self {
            Self::DuplicateDistinct { .. } => {
                "Distinct can be used only once in a query"@
            },
            Self::DuplicateOrderBy { .. } => {
                "OrderBy can be used only once in a query"@
            },
            Self::NotPermitted { .. } => {
                "only Where is allowed in an update or a delete"@
            },
            Self::DuplicateWhere { .. } => {
                "Where can be used only once in an update or a delete"@
            },
            Self::MissingWhere => {
                "an update or a delete needs a Where"@
            },
        }
    }

    /// The words of `text` as a string slice.
    pub fn message(&self) -> (m: &'static str)
        ensures
            m@ == self.text(),
    {
        match self {
            Self::DuplicateDistinct { .. } => {
                "Distinct can be used only once in a query"
            },
            Self::DuplicateOrderBy { .. } => {
                "OrderBy can be used only once in a query"
            },
            Self::NotPermitted { .. } => {
                "only Where is allowed in an update or a delete"
            },
            Self::DuplicateWhere { .. } => {
                "Where can be used only once in an update or a delete"
            },
            Self::MissingWhere => {
                "an update or a delete needs a Where"
            },
        }
    }

    /// The position of the offending option in the list, where there is one.
    pub fn position(&self) -> (at: Option<usize>)
        ensures
            at == match *self {
                Self::DuplicateDistinct { index } => Some(index),
                Self::DuplicateOrderBy { index } => Some(index),
                Self::NotPermitted { index } => Some(index),
                Self::DuplicateWhere { index } => Some(index),
                Self::MissingWhere => None,
            },
    {
        match *self {
            Self::DuplicateDistinct { index } => Some(index),
            Self::DuplicateOrderBy { index } => Some(index),
            Self::NotPermitted { index } => Some(index),
            Self::DuplicateWhere { index } => Some(index),
            Self::MissingWhere => None,
        }
    }
}

/// A built text or its error, with the text as a sequence of characters.
pub open spec fn rendered<E>(r: Result<String, E>) -> Result<Seq<char>, E> {
    match r {
        Ok(text) => Ok(text@),
        Err(e) => Err(e),
    }
}

/// Whether `Distinct` stands among the options.
pub open spec fn has_distinct(options: Seq<QueryOption>) -> bool {
    exists|i: int| 0 <= i < options.len() && (#[trigger] options[i]) is Distinct
}

/// Whether an `OrderBy` stands among the options.
pub open spec fn has_order_by(options: Seq<QueryOption>) -> bool {
    exists|i: int| 0 <= i < options.len() && (#[trigger] options[i]) is OrderBy
}

/// The option at `k` is a `Distinct` or an `OrderBy` that follows another
/// of its kind.
pub open spec fn repeats_at(options: Seq<QueryOption>, k: int) -> bool {
    &&& 0 <= k < options.len()
    &&& {
        ||| options[k] is Distinct && has_distinct(options.take(k))
        ||| options[k] is OrderBy && has_order_by(options.take(k))
    }
}

/// A SELECT accepts the options: `Distinct` and `OrderBy` occur at most
/// once each. `Where` may occur any number of times, and `AutoIncrement`
/// has no effect.
pub open spec fn select_allowed(options: Seq<QueryOption>) -> bool {
    forall|k: int| !repeats_at(options, k)
}

/// `k` is the first position at which an option repeats.
pub open spec fn is_first_repeat(options: Seq<QueryOption>, k: int) -> bool {
    &&& repeats_at(options, k)
    &&& forall|j: int| 0 <= j < k ==> !repeats_at(options, j)
}

/// The error that a SELECT with these options fails with: it names the
/// first option that repeats. `None` if the options are accepted.
pub open spec fn select_violation(options: Seq<QueryOption>) -> Option<QueryConstraintError> {
    if select_allowed(options) {
        None
    } else {
        let k = choose|k: int| is_first_repeat(options, k);
        if options[k] is Distinct {
            Some(QueryConstraintError::DuplicateDistinct { index: k as usize })
        } else {
            Some(QueryConstraintError::DuplicateOrderBy { index: k as usize })
        }
    }
}

/// The direction of the first `OrderBy` among the options: `Some(true)`
/// for descending, `Some(false)` for ascending, `None` without `OrderBy`.
pub open spec fn ordering(options: Seq<QueryOption>) -> Option<bool>
    decreases options.len(),
{
    if options.len() == 0 {
        None
    } else {
        match ordering(options.drop_last()) {
            Some(descending) => Some(descending),
            None => match options.last() {
                QueryOption::OrderBy(descending) => Some(descending),
                _ => None,
            },
        }
    }
}

/// The predicates of the `Where` options, in the options' order.
pub open spec fn predicates(options: Seq<QueryOption>) -> Seq<Seq<char>>
    decreases options.len(),
{
    if options.len() == 0 {
        Seq::empty()
    } else {
        match options.last() {
            QueryOption::Where(predicate) => predicates(options.drop_last()).push(predicate),
            _ => predicates(options.drop_last()),
        }
    }
}

/// What an UPDATE or a DELETE makes of its options: the predicate of the
/// one `Where` they must consist of, or the error of the first offending
/// option. No other kind of option is accepted there, not even one that a
/// SELECT would pass over.
pub open spec fn sole_predicate(options: Seq<QueryOption>) -> Result<
    Seq<char>,
    QueryConstraintError,
> {
    if options.len() == 0 {
        Err(QueryConstraintError::MissingWhere)
    } else if !(options[0] is Where) {
        Err(QueryConstraintError::NotPermitted { index: 0 })
    } else if options.len() == 1 {
        Ok(options[0]->Where_0)
    } else if options[1] is Where {
        Err(QueryConstraintError::DuplicateWhere { index: 1 })
    } else {
        Err(QueryConstraintError::NotPermitted { index: 1 })
    }
}

/// Each predicate in parentheses.
pub open spec fn parenthesized(parts: Seq<Seq<char>>) -> Seq<Seq<char>> {
    Seq::new(parts.len(), |i: int| "("@ + parts[i] + ")"@)
}

/// The WHERE clause for the predicates: nothing without a predicate, one
/// predicate as it stands, and several as a conjunction of the
/// parenthesised predicates.
pub open spec fn where_clause(parts: Seq<Seq<char>>) -> Seq<char> {
    if parts.len() == 0 {
        Seq::empty()
    } else if parts.len() == 1 {
        " WHERE "@ + parts[0]
    } else {
        " WHERE "@ + joined(parenthesized(parts), " AND "@)
    }
}

/// The ORDER BY clause. An `OrderBy` names no column: rows are ordered by
/// the first column of the result, written by its position.
pub open spec fn order_clause(options: Seq<QueryOption>) -> Seq<char> {
    match ordering(options) {
        None => Seq::empty(),
        Some(descending) => if descending {
            " ORDER BY 1 DESC"@
        } else {
            " ORDER BY 1 ASC"@
        },
    }
}

/// The columns that a SELECT asks for: all, or those named.
pub open spec fn projection_list(projection: Seq<Seq<char>>) -> Seq<char> {
    if projection.len() == 0 {
        "*"@
    } else {
        joined(projection, ","@)
    }
}

/// The text of a SELECT whose options are accepted.
pub open spec fn select_sql(
    table: Seq<char>,
    projection: Seq<Seq<char>>,
    options: Seq<QueryOption>,
) -> Seq<char> {
    "SELECT "@ + (if has_distinct(options) {
        "DISTINCT "@
    } else {
        Seq::empty()
    }) + projection_list(projection) + " FROM "@ + table + where_clause(predicates(options))
        + order_clause(options)
}

/// What building a SELECT gives: its text, or the error of the first
/// option that repeats.
pub open spec fn select_query(
    table: Seq<char>,
    projection: Seq<Seq<char>>,
    options: Seq<QueryOption>,
) -> Result<Seq<char>, QueryConstraintError> {
    match select_violation(options) {
        Some(e) => Err(e),
        None => Ok(select_sql(table, projection, options)),
    }
}

/// How a column is declared when its table is created.
pub open spec fn definition(column: ColumnSpec) -> Seq<char> {
    column.name + " "@ + column.sql_type.keyword()
}

/// The named placeholder that a column's value is bound to.
pub open spec fn placeholder(column: ColumnSpec) -> Seq<char> {
    ":"@ + column.name
}

/// The assignment of a column's placeholder to the column.
pub open spec fn assignment(column: ColumnSpec) -> Seq<char> {
    column.name + "="@ + placeholder(column)
}

/// The text of the statement that creates a table, if it does not exist
/// yet, with the columns in their order.
pub open spec fn create_sql(table: Seq<char>, columns: Seq<ColumnSpec>) -> Seq<char> {
    "CREATE TABLE IF NOT EXISTS "@ + table + " ("@ + joined(
        columns.map_values(|c: ColumnSpec| definition(c)),
        ", "@,
    ) + ")"@
}

/// The text of the statement that inserts one row, with one placeholder
/// per column in the columns' order.
pub open spec fn insert_sql(table: Seq<char>, columns: Seq<ColumnSpec>) -> Seq<char> {
    "INSERT INTO "@ + table + " VALUES ("@ + joined(
        columns.map_values(|c: ColumnSpec| placeholder(c)),
        ", "@,
    ) + ")"@
}

/// The text of the statement that sets every column of the rows that meet
/// the predicate.
pub open spec fn update_sql(
    table: Seq<char>,
    columns: Seq<ColumnSpec>,
    predicate: Seq<char>,
) -> Seq<char> {
    "UPDATE "@ + table + " SET "@ + joined(columns.map_values(|c: ColumnSpec| assignment(c)), ","@)
        + " WHERE "@ + predicate
}

/// The text of the statement that deletes the rows that meet the predicate.
pub open spec fn delete_sql(table: Seq<char>, predicate: Seq<char>) -> Seq<char> {
    "DELETE FROM "@ + table + " WHERE "@ + predicate
}

/// The text of the statement that counts the rows of a table.
pub open spec fn count_sql(table: Seq<char>) -> Seq<char> {
    "SELECT COUNT(*) FROM "@ + table
}

/// What building an UPDATE gives.
pub open spec fn update_query(
    table: Seq<char>,
    columns: Seq<ColumnSpec>,
    options: Seq<QueryOption>,
) -> Result<Seq<char>, QueryConstraintError> {
    match sole_predicate(options) {
        Ok(predicate) => Ok(update_sql(table, columns, predicate)),
        Err(e) => Err(e),
    }
}

/// What building a DELETE gives.
pub open spec fn delete_query(table: Seq<char>, options: Seq<QueryOption>) -> Result<
    Seq<char>,
    QueryConstraintError,
> {
    match sole_predicate(options) {
        Ok(predicate) => Ok(delete_sql(table, predicate)),
        Err(e) => Err(e),
    }
}

/// The first repeat is the only position that `is_first_repeat` holds of,
/// so the error of `select_violation` is the one that names it.
pub proof fn lemma_first_repeat_unique(options: Seq<QueryOption>, k: int)
    requires
        is_first_repeat(options, k),
    ensures
        !select_allowed(options),
        (choose|j: int| is_first_repeat(options, j)) == k,
{
}

/// Appending an option that is no `Distinct` leaves `has_distinct` as it was.
proof fn lemma_distinct_extends(before: Seq<QueryOption>, upto: Seq<QueryOption>)
    requires
        upto.len() == before.len() + 1,
        upto.drop_last() == before,
        !(upto.last() is Distinct),
    ensures
        has_distinct(upto) == has_distinct(before),
{
    if has_distinct(upto) {
        let i = choose|i: int| 0 <= i < upto.len() && (#[trigger] upto[i]) is Distinct;
        assert(before[i] == upto[i]);
    }
}

/// Appending an option that is no `OrderBy` leaves `has_order_by` as it was.
proof fn lemma_order_by_extends(before: Seq<QueryOption>, upto: Seq<QueryOption>)
    requires
        upto.len() == before.len() + 1,
        upto.drop_last() == before,
        !(upto.last() is OrderBy),
    ensures
        has_order_by(upto) == has_order_by(before),
{
    if has_order_by(upto) {
        let i = choose|i: int| 0 <= i < upto.len() && (#[trigger] upto[i]) is OrderBy;
        assert(before[i] == upto[i]);
    }
}

/// Checks the options of a SELECT and reads off what decides its shape:
/// whether it is distinct, and its ordering.
pub fn check_select(options: &OptVec<Sql>) -> (r: Result<
    (bool, Option<bool>),
    QueryConstraintError,
>)
    ensures
        match r {
            Ok((distinct, order)) => {
                &&& select_violation(options@) is None
                &&& distinct == has_distinct(options@)
                &&& order == ordering(options@)
            },
            Err(e) => select_violation(options@) == Some(e),
        },
{
    let mut distinct = false;
    let mut order: Option<bool> = None;
    let mut i: usize = 0;
    while i < options.0.len()
        invariant
            i <= options.0.len(),
            options@.len() == options.0.len(),
            distinct == has_distinct(options@.take(i as int)),
            order == ordering(options@.take(i as int)),
            order is Some == has_order_by(options@.take(i as int)),
            forall|j: int| 0 <= j < i ==> !repeats_at(options@, j),
        decreases options.0.len() - i,
    {
        let ghost before = options@.take(i as int);
        let ghost upto = options@.take(i + 1);
        assert(upto.drop_last() =~= before);
        match options.0[i] {
            Sql::Distinct => {
                if distinct {
                    proof {
                        lemma_first_repeat_unique(options@, i as int);
                    }
                    return Err(QueryConstraintError::DuplicateDistinct { index: i });
                }
                distinct = true;
                proof {
                    lemma_order_by_extends(before, upto);
                }
            },
            Sql::OrderBy(descending) => {
                if order.is_some() {
                    proof {
                        lemma_first_repeat_unique(options@, i as int);
                    }
                    return Err(QueryConstraintError::DuplicateOrderBy { index: i });
                }
                order = Some(descending);
                proof {
                    lemma_distinct_extends(before, upto);
                }
            },
            _ => {
                proof {
                    lemma_distinct_extends(before, upto);
                    lemma_order_by_extends(before, upto);
                }
            },
        }
        i += 1;
    }
    assert(options@.take(i as int) =~= options@);
    Ok((distinct, order))
}

/// Checks the options of an UPDATE or a DELETE and hands out the predicate.
pub fn check_where_only<'a>(options: &OptVec<Sql<'a>>) -> (r: Result<
    &'a str,
    QueryConstraintError,
>)
    ensures
        match r {
            Ok(predicate) => sole_predicate(options@) == Ok::<Seq<char>, QueryConstraintError>(
                predicate@,
            ),
            Err(e) => sole_predicate(options@) == Err::<Seq<char>, QueryConstraintError>(e),
        },
{
    if options.0.len() == 0 {
        return Err(QueryConstraintError::MissingWhere);
    }
    let predicate = match options.0[0] {
        Sql::Where(predicate) => predicate,
        _ => {
            return Err(QueryConstraintError::NotPermitted { index: 0 });
        },
    };
    if options.0.len() == 1 {
        return Ok(predicate);
    }
    match options.0[1] {
        Sql::Where(_) => Err(QueryConstraintError::DuplicateWhere { index: 1 }),
        _ => Err(QueryConstraintError::NotPermitted { index: 1 }),
    }
}

/// The predicates of the `Where` options, in order.
fn where_predicates<'a>(options: &OptVec<Sql<'a>>) -> (found: Vec<&'a str>)
    ensures
        texts(found@) == predicates(options@),
{
    let mut found: Vec<&'a str> = Vec::new();
    let mut i: usize = 0;
    while i < options.0.len()
        invariant
            i <= options.0.len(),
            options@.len() == options.0.len(),
            texts(found@) == predicates(options@.take(i as int)),
        decreases options.0.len() - i,
    {
        assert(options@.take(i + 1).drop_last() =~= options@.take(i as int));
        match options.0[i] {
            Sql::Where(predicate) => {
                found.push(predicate);
            },
            _ => {},
        }
        i += 1;
    }
    assert(options@.take(i as int) =~= options@);
    found
}

/// Renders the WHERE clause for the predicates.
fn render_where(parts: &Vec<&str>) -> (out: String)
    ensures
        out@ == where_clause(texts(parts@)),
{
    let mut out = String::new();
    if parts.len() == 1 {
        out.append(" WHERE ");
        out.append(parts[0]);
    } else if parts.len() > 1 {
        out.append(" WHERE ");
        let ghost wrapped = parenthesized(texts(parts@));
        let mut i: usize = 0;
        while i < parts.len()
            invariant
                i <= parts.len(),
                wrapped == parenthesized(texts(parts@)),
                out@ == " WHERE "@ + joined(wrapped.take(i as int), " AND "@),
            decreases parts.len() - i,
        {
            if i > 0 {
                out.append(" AND ");
            }
            out.append("(");
            out.append(parts[i]);
            out.append(")");
            proof {
                lemma_joined_step(wrapped, " AND "@, i as int);
            }
            i += 1;
        }
        assert(wrapped.take(i as int) =~= wrapped);
    }
    out
}

/// Builds a SELECT on `table_name`.
///
/// With no column names it asks for every column, else for the named
/// columns. `Distinct` makes it `SELECT DISTINCT`; the `Where` predicates
/// are written as they are given, a single one bare and several as a
/// conjunction of parenthesised predicates in the order given; `OrderBy`
/// orders by the first column of the result. `AutoIncrement` is ignored.
/// A second `Distinct` or `OrderBy` is an error that names its position.
pub fn make_select_query(table_name: &str, column_names: &[&str], options: OptVec<Sql>) -> (r:
    Result<String, QueryConstraintError>)
    ensures
        rendered(r) == select_query(table_name@, texts(column_names@), options@),
{
    let (distinct, order) = match check_select(&options) {
        Ok(shape) => shape,
        Err(e) => {
            return Err(e);
        },
    };
    let mut out = String::new();
    out.append("SELECT ");
    if distinct {
        out.append("DISTINCT ");
    }
    if column_names.len() == 0 {
        out.append("*");
    } else {
        let list = join(column_names, ",");
        out.append(list.as_str());
    }
    out.append(" FROM ");
    out.append(table_name);
    let parts = where_predicates(&options);
    let clause = render_where(&parts);
    out.append(clause.as_str());
    match order {
        Some(true) => {
            out.append(" ORDER BY 1 DESC");
        },
        Some(false) => {
            out.append(" ORDER BY 1 ASC");
        },
        None => {},
    }
    Ok(out)
}

/// The three texts that a statement derives from a column.
enum Part {
    Definition,
    Placeholder,
    Assignment,
}

spec fn part_text(column: ColumnSpec, part: Part) -> Seq<char> {
    match part {
        Part::Definition => definition(column),
        Part::Placeholder => placeholder(column),
        Part::Assignment => assignment(column),
    }
}

spec fn parts_of(columns: Seq<ColumnSpec>, part: Part) -> Seq<Seq<char>> {
    columns.map_values(|c: ColumnSpec| part_text(c, part))
}

/// Writes one text per column, joined by the separator.
fn render_columns(columns: &Vec<Column>, part: Part, separator: &str) -> (out: String)
    ensures
        out@ == joined(parts_of(columns.deep_view(), part), separator@),
{
    let ghost parts = parts_of(columns.deep_view(), part);
    let mut out = String::new();
    let mut i: usize = 0;
    while i < columns.len()
        invariant
            i <= columns.len(),
            parts == parts_of(columns.deep_view(), part),
            out@ == joined(parts.take(i as int), separator@),
        decreases columns.len() - i,
    {
        if i > 0 {
            out.append(separator);
        }
        let name = columns[i].name.as_str();
        match part {
            Part::Definition => {
                out.append(name);
                out.append(" ");
                out.append(columns[i].sql_type.as_str());
            },
            Part::Placeholder => {
                out.append(":");
                out.append(name);
            },
            Part::Assignment => {
                out.append(name);
                out.append("=");
                out.append(":");
                out.append(name);
            },
        }
        proof {
            lemma_joined_step(parts, separator@, i as int);
        }
        i += 1;
    }
    assert(parts.take(i as int) =~= parts);
    out
}

/// Builds the statement that creates `table_name` with the given columns:
/// `CREATE TABLE IF NOT EXISTS`, the name, and in parentheses each column's
/// name and type, separated by a comma and a space.
pub fn make_create_query(table_name: &str, columns: &Vec<Column>) -> (out: String)
    ensures
        out@ == create_sql(table_name@, columns.deep_view()),
{
    let mut out = String::new();
    out.append("CREATE TABLE IF NOT EXISTS ");
    out.append(table_name);
    out.append(" (");
    let list = render_columns(columns, Part::Definition, ", ");
    out.append(list.as_str());
    out.append(")");
    proof {
        let c = columns.deep_view();
        assert(parts_of(c, Part::Definition) =~= c.map_values(|c: ColumnSpec| definition(c)));
    }
    out
}

/// Builds the statement that inserts one record into `table_name`. Each
/// column gets the placeholder of its own name, so the values of a record
/// are bound by field name, in the columns' order.
pub fn make_insert_query(table_name: &str, columns: &Vec<Column>) -> (out: String)
    ensures
        out@ == insert_sql(table_name@, columns.deep_view()),
{
    let mut out = String::new();
    out.append("INSERT INTO ");
    out.append(table_name);
    out.append(" VALUES (");
    let list = render_columns(columns, Part::Placeholder, ", ");
    out.append(list.as_str());
    out.append(")");
    proof {
        let c = columns.deep_view();
        assert(parts_of(c, Part::Placeholder) =~= c.map_values(|c: ColumnSpec| placeholder(c)));
    }
    out
}

/// Builds the statement that overwrites the rows of `table_name` that meet
/// a predicate with the values of a record. The options must be exactly one
/// `Where`.
pub fn make_update_query(table_name: &str, columns: &Vec<Column>, options: OptVec<Sql>) -> (r:
    Result<String, QueryConstraintError>)
    ensures
        rendered(r) == update_query(table_name@, columns.deep_view(), options@),
{
    let predicate = match check_where_only(&options) {
        Ok(predicate) => predicate,
        Err(e) => {
            return Err(e);
        },
    };
    let mut out = String::new();
    out.append("UPDATE ");
    out.append(table_name);
    out.append(" SET ");
    let list = render_columns(columns, Part::Assignment, ",");
    out.append(list.as_str());
    out.append(" WHERE ");
    out.append(predicate);
    proof {
        let c = columns.deep_view();
        assert(parts_of(c, Part::Assignment) =~= c.map_values(|c: ColumnSpec| assignment(c)));
    }
    Ok(out)
}

/// Builds the statement that deletes the rows of `table_name` that meet a
/// predicate. The options must be exactly one `Where`.
pub fn make_delete_query(table_name: &str, options: OptVec<Sql>) -> (r: Result<
    String,
    QueryConstraintError,
>)
    ensures
        rendered(r) == delete_query(table_name@, options@),
{
    let predicate = match check_where_only(&options) {
        Ok(predicate) => predicate,
        Err(e) => {
            return Err(e);
        },
    };
    let mut out = String::new();
    out.append("DELETE FROM ");
    out.append(table_name);
    out.append(" WHERE ");
    out.append(predicate);
    Ok(out)
}

/// Builds the statement that counts the rows of `table_name`.
pub fn make_count_query(table_name: &str) -> (out: String)
    ensures
        out@ == count_sql(table_name@),
{
    let mut out = String::new();
    out.append("SELECT COUNT(*) FROM ");
    out.append(table_name);
    out
}

} // verus!
