use crate::schema::{Column, ColumnSpec};
use vstd::prelude::*;
use vstd::string::*;

verus! {

/// `a` comes before `b` in the order of names: at the first position where
/// the two differ `a` holds the smaller character, or `a` ends there and `b`
/// goes on. Characters compare by their code points, so this is the order
/// of Rust's strings.
pub open spec fn precedes(a: Seq<char>, b: Seq<char>) -> bool {
    exists|k: int| #[trigger] splits_before(a, b, k)
}

/// `a` and `b` agree below position `k`, and at `k` the text `a` ends
/// or holds the smaller character.
pub open spec fn splits_before(a: Seq<char>, b: Seq<char>, k: int) -> bool {
    &&& 0 <= k <= a.len()
    &&& k < b.len()
    &&& forall|j: int| 0 <= j < k ==> a[j] == b[j]
    &&& (k == a.len() || a[k] < b[k])
}

/// Whether `a` comes before `b`.
pub fn comes_before(a: &str, b: &str) -> (r: bool)
    ensures
        r == precedes(a@, b@),
{
    let a_len = a.unicode_len();
    let b_len = b.unicode_len();
    let mut i: usize = 0;
    while i < a_len && i < b_len
        invariant
            i <= a_len,
            i <= b_len,
            a_len == a@.len(),
            b_len == b@.len(),
            forall|j: int| 0 <= j < i ==> a@[j] == b@[j],
        decreases a_len - i,
    {
        let x = a.get_char(i);
        let y = b.get_char(i);
        if x != y {
            let r = x < y;
            proof {
                if r {
                    assert(splits_before(a@, b@, i as int));
                } else {
                    assert forall|k: int| !splits_before(a@, b@, k) by {
                        if splits_before(a@, b@, k) {
                            if k < i {
                            } else if k > i {
                            }
                        }
                    }
                }
            }
            return r;
        }
        i += 1;
    }
    let r = i < b_len;
    proof {
        if r {
            assert(splits_before(a@, b@, i as int));
        } else {
            assert forall|k: int| !splits_before(a@, b@, k) by {
                if splits_before(a@, b@, k) {
                }
            }
        }
    }
    r
}

/// Of two names at most one comes before the other.
pub proof fn lemma_precedes_asymmetric(a: Seq<char>, b: Seq<char>)
    requires
        precedes(a, b),
    ensures
        !precedes(b, a),
{
}

/// Two names that differ are ordered one way or the other.
pub proof fn lemma_precedes_total(a: Seq<char>, b: Seq<char>)
    ensures
        a == b || precedes(a, b) || precedes(b, a),
{
    lemma_total_from(a, b, 0);
}

proof fn lemma_total_from(a: Seq<char>, b: Seq<char>, i: int)
    requires
        0 <= i <= a.len(),
        i <= b.len(),
        forall|j: int| 0 <= j < i ==> a[j] == b[j],
    ensures
        a == b || precedes(a, b) || precedes(b, a),
    decreases a.len() - i,
{
    if i == a.len() {
        if i < b.len() {
            assert(splits_before(a, b, i));
        }
    } else if i == b.len() {
        assert(splits_before(b, a, i));
    } else if a[i] == b[i] {
        lemma_total_from(a, b, i + 1);
    } else if a[i] < b[i] {
        assert(splits_before(a, b, i));
    } else {
        assert(splits_before(b, a, i));
    }
}

/// What comes before a name comes before all that the name comes before.
pub proof fn lemma_precedes_transitive(a: Seq<char>, b: Seq<char>, c: Seq<char>)
    requires
        precedes(a, b),
        precedes(b, c),
    ensures
        precedes(a, c),
{
    let k1 = choose|k: int| splits_before(a, b, k);
    let k2 = choose|k: int| splits_before(b, c, k);
    let k = if k1 <= k2 {
        k1
    } else {
        k2
    };
    assert(splits_before(a, c, k));
}

/// No column comes before a column that stands earlier in the list.
pub open spec fn ascending(columns: Seq<ColumnSpec>) -> bool {
    forall|i: int, j: int|
        0 <= i < j < columns.len() ==> !precedes(
            (#[trigger] columns[j]).name,
            (#[trigger] columns[i]).name,
        )
}

/// Each column comes before every column that stands later in the list;
/// so no two columns have one name.
pub open spec fn strictly_ascending(columns: Seq<ColumnSpec>) -> bool {
    forall|i: int, j: int|
        0 <= i < j < columns.len() ==> precedes(
            (#[trigger] columns[i]).name,
            (#[trigger] columns[j]).name,
        )
}

/// No two columns have the same name.
pub open spec fn distinct_names(columns: Seq<ColumnSpec>) -> bool {
    forall|i: int, j: int|
        0 <= i < j < columns.len() ==> (#[trigger] columns[i]).name != (
        #[trigger] columns[j]).name
}

/// A strictly ascending list is ascending, and no two of its columns have
/// one name.
pub proof fn lemma_strictly_ascending(columns: Seq<ColumnSpec>)
    requires
        strictly_ascending(columns),
    ensures
        ascending(columns),
        distinct_names(columns),
{
    assert forall|i: int, j: int| 0 <= i < j < columns.len() implies !precedes(
        (#[trigger] columns[j]).name,
        (#[trigger] columns[i]).name,
    ) && columns[i].name != columns[j].name by {
        lemma_precedes_asymmetric(columns[i].name, columns[j].name);
    }
}

/// The list with `column` placed behind the last column that it does not
/// come before.
pub open spec fn inserted(sorted: Seq<ColumnSpec>, column: ColumnSpec) -> Seq<ColumnSpec>
    decreases sorted.len(),
{
    if sorted.len() > 0 && precedes(column.name, sorted.last().name) {
        inserted(sorted.drop_last(), column).push(sorted.last())
    } else {
        sorted.push(column)
    }
}

/// The columns in ascending order of their names. Columns of one name keep
/// their order.
pub open spec fn sorted_by_name(columns: Seq<ColumnSpec>) -> Seq<ColumnSpec>
    decreases columns.len(),
{
    if columns.len() == 0 {
        Seq::empty()
    } else {
        inserted(sorted_by_name(columns.drop_last()), columns.last())
    }
}

/// Where `inserted` puts a column: at the position that has only later
/// columns from it on, and no later column right before it.
proof fn lemma_inserted_at(sorted: Seq<ColumnSpec>, column: ColumnSpec, at: int)
    requires
        0 <= at <= sorted.len(),
        forall|j: int|
            at <= j < sorted.len() ==> precedes(column.name, (#[trigger] sorted[j]).name),
        at > 0 ==> !precedes(column.name, sorted[at - 1].name),
    ensures
        inserted(sorted, column) == sorted.insert(at, column),
    decreases sorted.len(),
{
    if at < sorted.len() {
        lemma_inserted_at(sorted.drop_last(), column, at);
    }
}

/// Placing a column into an ascending list leaves it ascending, and adds
/// the column and nothing else.
pub proof fn lemma_inserted(sorted: Seq<ColumnSpec>, column: ColumnSpec)
    requires
        ascending(sorted),
    ensures
        ascending(inserted(sorted, column)),
        inserted(sorted, column).to_multiset() == sorted.to_multiset().insert(column),
        inserted(sorted, column).len() == sorted.len() + 1,
    decreases sorted.len(),
{
    broadcast use vstd::seq_lib::group_to_multiset_ensures;

    if sorted.len() > 0 && precedes(column.name, sorted.last().name) {
        let rest = sorted.drop_last();
        let last = sorted.last();
        lemma_inserted(rest, column);
        let placed = inserted(rest, column);
        let all = placed.push(last);
        assert(sorted =~= rest.push(last));
        assert forall|i: int, j: int| 0 <= i < j < all.len() implies !precedes(
            (#[trigger] all[j]).name,
            (#[trigger] all[i]).name,
        ) by {
            if j == placed.len() {
                // `placed[i]` is the new column or one of `rest`, and `last`
                // comes before neither.
                assert(placed.to_multiset().count(placed[i]) > 0);
                if placed[i] == column {
                    lemma_precedes_asymmetric(column.name, last.name);
                }
            }
        }
    } else {
        let all = sorted.push(column);
        assert forall|i: int, j: int| 0 <= i < j < all.len() implies !precedes(
            (#[trigger] all[j]).name,
            (#[trigger] all[i]).name,
        ) by {
            // `column` does not come before the last of `sorted`, and so
            // before none of it.
            if j == sorted.len() && precedes(column.name, sorted[i].name) {
                let last = sorted.last();
                lemma_precedes_total(sorted[i].name, last.name);
                if precedes(sorted[i].name, last.name) {
                    lemma_precedes_transitive(column.name, sorted[i].name, last.name);
                }
            }
        }
    }
}

/// Sorting gives an ascending list that holds each column as often as the
/// list that was sorted.
pub proof fn lemma_sorted_by_name(columns: Seq<ColumnSpec>)
    ensures
        ascending(sorted_by_name(columns)),
        sorted_by_name(columns).to_multiset() == columns.to_multiset(),
        sorted_by_name(columns).len() == columns.len(),
    decreases columns.len(),
{
    broadcast use vstd::seq_lib::group_to_multiset_ensures;

    if columns.len() > 0 {
        let rest = columns.drop_last();
        lemma_sorted_by_name(rest);
        lemma_inserted(sorted_by_name(rest), columns.last());
        assert(columns =~= rest.push(columns.last()));
    }
}

/// `inserted` places the column somewhere in the list and moves nothing
/// else.
proof fn lemma_inserted_somewhere(sorted: Seq<ColumnSpec>, column: ColumnSpec) -> (at: int)
    ensures
        0 <= at <= sorted.len(),
        inserted(sorted, column) == sorted.insert(at, column),
    decreases sorted.len(),
{
    if sorted.len() > 0 && precedes(column.name, sorted.last().name) {
        let at = lemma_inserted_somewhere(sorted.drop_last(), column);
        assert(sorted.drop_last().insert(at, column).push(sorted.last()) =~= sorted.insert(
            at,
            column,
        ));
        at
    } else {
        assert(sorted.insert(sorted.len() as int, column) =~= sorted.push(column));
        sorted.len() as int
    }
}

/// Sorting columns of pairwise distinct names orders them strictly: each
/// name comes before every later one.
pub proof fn lemma_sorted_distinct_names(columns: Seq<ColumnSpec>)
    requires
        distinct_names(columns),
    ensures
        distinct_names(sorted_by_name(columns)),
        strictly_ascending(sorted_by_name(columns)),
    decreases columns.len(),
{
    broadcast use vstd::seq_lib::group_to_multiset_ensures;

    let all = sorted_by_name(columns);
    if columns.len() > 0 {
        let rest = columns.drop_last();
        let last = columns.last();
        let sorted = sorted_by_name(rest);
        lemma_sorted_distinct_names(rest);
        lemma_sorted_by_name(rest);
        let at = lemma_inserted_somewhere(sorted, last);
        assert forall|i: int| 0 <= i < sorted.len() implies (#[trigger] sorted[i]).name
            != last.name by {
            // `sorted[i]` is one of `rest`, and `last` shares no name with those.
            assert(sorted.to_multiset().count(sorted[i]) > 0);
            assert(rest.contains(sorted[i]));
            let m = choose|m: int| 0 <= m < rest.len() && rest[m] == sorted[i];
            assert(columns[m] == rest[m]);
        }
        assert forall|i: int, j: int| 0 <= i < j < all.len() implies (#[trigger] all[i]).name != (
        #[trigger] all[j]).name by {
            let i0 = if i < at {
                i
            } else {
                i - 1
            };
            let j0 = if j < at {
                j
            } else {
                j - 1
            };
            if i != at && j != at {
                assert(all[i] == sorted[i0] && all[j] == sorted[j0]);
            } else if i == at {
                assert(all[j] == sorted[j0]);
            } else {
                assert(all[i] == sorted[i0]);
            }
        }
    }
    lemma_sorted_by_name(columns);
    assert forall|i: int, j: int| 0 <= i < j < all.len() implies precedes(
        (#[trigger] all[i]).name,
        (#[trigger] all[j]).name,
    ) by {
        lemma_precedes_total(all[i].name, all[j].name);
    }
}

/// Sorts the columns by name, ascending. Columns of one name keep their
/// order.
pub fn sort_columns(columns: &Vec<Column>) -> (sorted: Vec<Column>)
    ensures
        sorted.deep_view() == sorted_by_name(columns.deep_view()),
{
    let mut sorted: Vec<Column> = Vec::new();
    let mut i: usize = 0;
    while i < columns.len()
        invariant
            i <= columns.len(),
            sorted.deep_view() == sorted_by_name(columns.deep_view().take(i as int)),
        decreases columns.len() - i,
    {
        let column = Column { name: columns[i].name.clone(), sql_type: columns[i].sql_type };
        let ghost before = sorted.deep_view();
        let mut at: usize = sorted.len();
        while at > 0 && comes_before(column.name.as_str(), sorted[at - 1].name.as_str())
            invariant
                at <= sorted.len(),
                sorted.deep_view() == before,
                forall|j: int|
                    at <= j < sorted.len() ==> precedes(
                        column.name@,
                        (#[trigger] sorted.deep_view()[j]).name,
                    ),
            decreases at,
        {
            at -= 1;
        }
        proof {
            lemma_inserted_at(before, column.deep_view(), at as int);
            assert(columns.deep_view().take(i + 1).drop_last() =~= columns.deep_view().take(
                i as int,
            ));
        }
        sorted.insert(at, column);
        i += 1;
    }
    assert(columns.deep_view().take(i as int) =~= columns.deep_view());
    sorted
}

} // verus!
