use crate::query::{
    assignment, create_sql, definition, delete_query, has_distinct, ordering, placeholder,
    predicates, repeats_at, select_allowed, select_query, select_sql, update_query,
    QueryConstraintError,
};
use crate::schema::ColumnSpec;
use crate::sql::{lemma_combine_associative, QueryOption};
use vstd::prelude::*;

verus! {

/// No two `Distinct` and no two `OrderBy` stand in the list.
pub open spec fn no_repeat(options: Seq<QueryOption>) -> bool {
    forall|i: int, j: int|
        0 <= i < j < options.len() ==> !(options[i] is Distinct && options[j] is Distinct) && !(
        options[i] is OrderBy && options[j] is OrderBy)
}

/// A SELECT with two `Distinct` options, or with two `OrderBy` options, is
/// refused, whatever else the options hold.
pub proof fn lemma_select_refuses_repeats(
    table: Seq<char>,
    projection: Seq<Seq<char>>,
    options: Seq<QueryOption>,
    i: int,
    j: int,
)
    requires
        0 <= i < j < options.len(),
        (options[i] is Distinct && options[j] is Distinct) || (options[i] is OrderBy && options[j]
            is OrderBy),
    ensures
        select_query(table, projection, options) is Err,
{
    assert(options.take(j)[i] == options[i]);
    assert(repeats_at(options, j));
}

/// A SELECT is refused only for a repeated `Distinct` or `OrderBy`: where
/// no two options of either kind stand in the list, the query is built.
pub proof fn lemma_select_accepts_the_rest(
    table: Seq<char>,
    projection: Seq<Seq<char>>,
    options: Seq<QueryOption>,
)
    requires
        no_repeat(options),
    ensures
        select_query(table, projection, options) == Ok::<Seq<char>, QueryConstraintError>(
            select_sql(table, projection, options),
        ),
{
}

/// A SELECT accepts exactly the lists without a repeat.
pub proof fn lemma_select_allowed(
    table: Seq<char>,
    projection: Seq<Seq<char>>,
    options: Seq<QueryOption>,
)
    ensures
        select_allowed(options) <==> no_repeat(options),
        select_query(table, projection, options) is Ok <==> no_repeat(options),
{
    if no_repeat(options) {
        lemma_select_accepts_the_rest(table, projection, options);
    }
    if select_allowed(options) {
        assert forall|i: int, j: int| 0 <= i < j < options.len() implies !(options[i] is Distinct
            && options[j] is Distinct) && !(options[i] is OrderBy && options[j] is OrderBy) by {
            if (options[i] is Distinct && options[j] is Distinct) || (options[i] is OrderBy
                && options[j] is OrderBy) {
                lemma_select_refuses_repeats(table, projection, options, i, j);
            }
        }
    }
}

/// An UPDATE and a DELETE are built for exactly one `Where` and nothing
/// else: without a `Where` among the options, or with an option of another
/// kind among them, both are refused.
pub proof fn lemma_where_is_required(
    table: Seq<char>,
    columns: Seq<ColumnSpec>,
    options: Seq<QueryOption>,
)
    ensures
        update_query(table, columns, options) is Ok <==> options.len() == 1 && options[0] is Where,
        delete_query(table, options) is Ok <==> options.len() == 1 && options[0] is Where,
        (forall|i: int| 0 <= i < options.len() ==> !(#[trigger] options[i] is Where))
            ==> update_query(table, columns, options) is Err && delete_query(table, options)
            is Err,
        (exists|i: int| 0 <= i < options.len() && !(#[trigger] options[i] is Where))
            ==> update_query(table, columns, options) is Err && delete_query(table, options)
            is Err,
{
}

/// The predicates of a combined list are those of its left part followed
/// by those of its right part.
pub proof fn lemma_predicates_of_combined(a: Seq<QueryOption>, b: Seq<QueryOption>)
    ensures
        predicates(a + b) == predicates(a) + predicates(b),
    decreases b.len(),
{
    if b.len() > 0 {
        lemma_predicates_of_combined(a, b.drop_last());
        assert((a + b).drop_last() =~= a + b.drop_last());
    }
}

/// The ordering of a combined list is that of its left part, and that of
/// its right part where the left part has none.
pub proof fn lemma_ordering_of_combined(a: Seq<QueryOption>, b: Seq<QueryOption>)
    ensures
        ordering(a + b) == match ordering(a) {
            Some(descending) => Some(descending),
            None => ordering(b),
        },
    decreases b.len(),
{
    if b.len() > 0 {
        lemma_ordering_of_combined(a, b.drop_last());
        assert((a + b).drop_last() =~= a + b.drop_last());
    }
}

/// A combined list holds a `Distinct` if one of its parts does.
pub proof fn lemma_distinct_of_combined(a: Seq<QueryOption>, b: Seq<QueryOption>)
    ensures
        has_distinct(a + b) == (has_distinct(a) || has_distinct(b)),
{
    let both = a + b;
    if has_distinct(a) {
        let i = choose|i: int| 0 <= i < a.len() && (#[trigger] a[i]) is Distinct;
        assert(both[i] == a[i]);
    }
    if has_distinct(b) {
        let i = choose|i: int| 0 <= i < b.len() && (#[trigger] b[i]) is Distinct;
        assert(both[a.len() + i] == b[i]);
    }
}

/// `AutoIncrement` has no effect on a SELECT: wherever it stands among the
/// options, the query is accepted or refused as without it, and an accepted
/// query has the same text.
pub proof fn lemma_auto_increment_is_ignored(
    table: Seq<char>,
    projection: Seq<Seq<char>>,
    a: Seq<QueryOption>,
    b: Seq<QueryOption>,
)
    ensures
        select_query(table, projection, a + seq![QueryOption::AutoIncrement] + b) is Ok
            <==> select_query(table, projection, a + b) is Ok,
        select_sql(table, projection, a + seq![QueryOption::AutoIncrement] + b) == select_sql(
            table,
            projection,
            a + b,
        ),
{
    let mark = seq![QueryOption::AutoIncrement];
    let with = a + mark + b;
    let without = a + b;
    assert(with =~= a + (mark + b));
    assert(predicates(mark) =~= Seq::<Seq<char>>::empty()) by {
        reveal_with_fuel(predicates, 2);
    }
    assert(ordering(mark) is None) by {
        reveal_with_fuel(ordering, 2);
    }
    lemma_predicates_of_combined(mark, b);
    lemma_predicates_of_combined(a, mark + b);
    lemma_predicates_of_combined(a, b);
    lemma_ordering_of_combined(mark, b);
    lemma_ordering_of_combined(a, mark + b);
    lemma_ordering_of_combined(a, b);
    lemma_distinct_of_combined(mark, b);
    lemma_distinct_of_combined(a, mark + b);
    lemma_distinct_of_combined(a, b);
    lemma_select_allowed(table, projection, with);
    lemma_select_allowed(table, projection, without);
    if no_repeat(with) {
        assert forall|i: int, j: int| 0 <= i < j < without.len() implies !(without[i] is Distinct
            && without[j] is Distinct) && !(without[i] is OrderBy && without[j] is OrderBy) by {
            let i2 = if i < a.len() {
                i
            } else {
                i + 1
            };
            let j2 = if j < a.len() {
                j
            } else {
                j + 1
            };
            assert(with[i2] == without[i]);
            assert(with[j2] == without[j]);
        }
    }
    if no_repeat(without) {
        assert forall|i: int, j: int| 0 <= i < j < with.len() implies !(with[i] is Distinct
            && with[j] is Distinct) && !(with[i] is OrderBy && with[j] is OrderBy) by {
            if i != a.len() && j != a.len() {
                let i2 = if i < a.len() {
                    i
                } else {
                    i - 1
                };
                let j2 = if j < a.len() {
                    j
                } else {
                    j - 1
                };
                assert(with[i] == without[i2]);
                assert(with[j] == without[j2]);
            }
        }
    }
}

/// However three lists of options are grouped when they are combined, the
/// query that is built from them is the same.
pub proof fn lemma_grouping_is_immaterial(
    table: Seq<char>,
    projection: Seq<Seq<char>>,
    a: Seq<QueryOption>,
    b: Seq<QueryOption>,
    c: Seq<QueryOption>,
)
    ensures
        select_query(table, projection, (a + b) + c) == select_query(
            table,
            projection,
            a + (b + c),
        ),
{
    lemma_combine_associative(a, b, c);
}

/// Creating a table is guarded: whatever the name and the columns, the
/// statement begins with `CREATE TABLE IF NOT EXISTS`, so it leaves a table
/// that exists alone.
pub proof fn lemma_create_is_guarded(table: Seq<char>, columns: Seq<ColumnSpec>)
    ensures
        "CREATE TABLE IF NOT EXISTS "@.is_prefix_of(create_sql(table, columns)),
{
}

/// An INSERT and an UPDATE bind what the CREATE declares: each has one
/// part per column, at the column's position, and the part names the
/// column that the CREATE declares there.
pub proof fn lemma_statements_agree_on_columns(columns: Seq<ColumnSpec>, i: int)
    requires
        0 <= i < columns.len(),
    ensures
        columns.map_values(|c: ColumnSpec| definition(c)).len() == columns.len(),
        columns.map_values(|c: ColumnSpec| placeholder(c)).len() == columns.len(),
        columns.map_values(|c: ColumnSpec| assignment(c)).len() == columns.len(),
        columns[i].name.is_prefix_of(columns.map_values(|c: ColumnSpec| definition(c))[i]),
        columns.map_values(|c: ColumnSpec| placeholder(c))[i] == ":"@ + columns[i].name,
        columns.map_values(|c: ColumnSpec| assignment(c))[i] == columns[i].name + "=:"@
            + columns[i].name,
{
    reveal_strlit("=");
    reveal_strlit(":");
    reveal_strlit("=:");
}

} // verus!
