use core::ops::Add;
use vstd::prelude::*;
use vstd::std_specs::ops::AddSpecImpl;

verus! {

/// One optional modifier of a query.
#[derive(Clone, Copy, Debug, PartialEq, Eq)]
pub enum Sql<'a> {
    /// A column modifier for table creation; no query renders it.
    AutoIncrement,
    /// Drop duplicate rows from the result.
    Distinct,
    /// Keep only the rows for which the predicate holds. The text is handed
    /// to the engine as it is.
    Where(&'a str),
    /// Order the result, descending if the flag is set.
    OrderBy(bool),
}

/// What an option means, with its text as a sequence of characters.
pub ghost enum QueryOption {
    AutoIncrement,
    Distinct,
    Where(Seq<char>),
    OrderBy(bool),
}

impl<'a> View for Sql<'a> {
    type V = QueryOption;

    open spec fn view(&self) -> QueryOption {
        match *self {
            Sql::AutoIncrement => QueryOption::AutoIncrement,
            Sql::Distinct => QueryOption::Distinct,
            Sql::Where(predicate) => QueryOption::Where(predicate@),
            Sql::OrderBy(descending) => QueryOption::OrderBy(descending),
        }
    }
}

/// An ordered list of options. Combining never fails and never drops an
/// element; what a query accepts is decided when the query is built.
pub struct OptVec<T>(pub Vec<T>);

impl<T: View> View for OptVec<T> {
    type V = Seq<T::V>;

    open spec fn view(&self) -> Seq<T::V> {
        Seq::new(self.0@.len(), |i: int| self.0@[i]@)
    }
}

impl<T> OptVec<T> {
    /// The empty list.
    pub fn new() -> (r: Self)
        ensures
            r.0@ == Seq::<T>::empty(),
    {
        OptVec(Vec::new())
    }
}

impl<T> core::ops::Deref for OptVec<T> {
    type Target = Vec<T>;

    /// The list as a vector.
    fn deref(&self) -> (list: &Vec<T>)
        ensures
            *list == self.0,
    {
        &self.0
    }
}

impl<'a> OptVec<Sql<'a>> {
    /// The list that holds `option` alone.
    pub fn single(option: Sql<'a>) -> (r: Self)
        ensures
            r@ == seq![option@],
    {
        let mut list = Vec::new();
        list.push(option);
        OptVec(list)
    }

    /// `self` followed by `option`.
    pub fn with(self, option: Sql<'a>) -> (r: Self)
        ensures
            r@ == self@ + seq![option@],
    {
        let mut list = self.0;
        list.push(option);
        OptVec(list)
    }

    /// `self` followed by all of `rest`, in order.
    pub fn concat(self, rest: OptVec<Sql<'a>>) -> (r: Self)
        ensures
            r@ == self@ + rest@,
    {
        let mut list = self.0;
        let mut tail = rest.0;
        list.append(&mut tail);
        OptVec(list)
    }
}

impl<'a> Add<Sql<'a>> for Sql<'a> {
    type Output = OptVec<Sql<'a>>;

    /// `self`, then `rhs`.
    fn add(self, rhs: Sql<'a>) -> (r: OptVec<Sql<'a>>)
        ensures
            r@ == seq![self@] + seq![rhs@],
    {
        OptVec::single(self).with(rhs)
    }
}

// What `+` returns is stated by the postcondition of each `add`, over the
// views of its operands. The equation that the operator traits offer is
// left unclaimed: it would need the list itself as a value in a
// specification, and a vector has none but its view.
impl<'a> AddSpecImpl<Sql<'a>> for Sql<'a> {
    open spec fn obeys_add_spec() -> bool {
        false
    }

    open spec fn add_req(self, rhs: Sql<'a>) -> bool {
        true
    }

    open spec fn add_spec(self, rhs: Sql<'a>) -> OptVec<Sql<'a>> {
        arbitrary()
    }
}

impl<'a> Add<OptVec<Sql<'a>>> for Sql<'a> {
    type Output = OptVec<Sql<'a>>;

    /// `self`, then all of `rhs`.
    fn add(self, rhs: OptVec<Sql<'a>>) -> (r: OptVec<Sql<'a>>)
        ensures
            r@ == seq![self@] + rhs@,
    {
        OptVec::single(self).concat(rhs)
    }
}

impl<'a> AddSpecImpl<OptVec<Sql<'a>>> for Sql<'a> {
    open spec fn obeys_add_spec() -> bool {
        false
    }

    open spec fn add_req(self, rhs: OptVec<Sql<'a>>) -> bool {
        true
    }

    open spec fn add_spec(self, rhs: OptVec<Sql<'a>>) -> OptVec<Sql<'a>> {
        arbitrary()
    }
}

impl<'a> Add<Sql<'a>> for OptVec<Sql<'a>> {
    type Output = OptVec<Sql<'a>>;

    /// All of `self`, then `rhs`.
    fn add(self, rhs: Sql<'a>) -> (r: OptVec<Sql<'a>>)
        ensures
            r@ == self@ + seq![rhs@],
    {
        self.with(rhs)
    }
}

impl<'a> AddSpecImpl<Sql<'a>> for OptVec<Sql<'a>> {
    open spec fn obeys_add_spec() -> bool {
        false
    }

    open spec fn add_req(self, rhs: Sql<'a>) -> bool {
        true
    }

    open spec fn add_spec(self, rhs: Sql<'a>) -> OptVec<Sql<'a>> {
        arbitrary()
    }
}

impl<'a> Add<OptVec<Sql<'a>>> for OptVec<Sql<'a>> {
    type Output = OptVec<Sql<'a>>;

    /// All of `self`, then all of `rhs`.
    fn add(self, rhs: OptVec<Sql<'a>>) -> (r: OptVec<Sql<'a>>)
        ensures
            r@ == self@ + rhs@,
    {
        self.concat(rhs)
    }
}

impl<'a> AddSpecImpl<OptVec<Sql<'a>>> for OptVec<Sql<'a>> {
    open spec fn obeys_add_spec() -> bool {
        false
    }

    open spec fn add_req(self, rhs: OptVec<Sql<'a>>) -> bool {
        true
    }

    open spec fn add_spec(self, rhs: OptVec<Sql<'a>>) -> OptVec<Sql<'a>> {
        arbitrary()
    }
}

/// Combining is associative: however three lists of options are grouped,
/// the combined list holds the same options in the same order.
pub proof fn lemma_combine_associative(
    a: Seq<QueryOption>,
    b: Seq<QueryOption>,
    c: Seq<QueryOption>,
)
    ensures
        (a + b) + c == a + (b + c),
{
}

/// Combining keeps every element, in order: the left operand's options come
/// first and the right operand's follow.
pub proof fn lemma_combine_keeps_order(a: Seq<QueryOption>, b: Seq<QueryOption>)
    ensures
        (a + b).len() == a.len() + b.len(),
        forall|i: int| 0 <= i < a.len() ==> (a + b)[i] == a[i],
        forall|i: int| 0 <= i < b.len() ==> (a + b)[a.len() + i] == b[i],
{
}

} // verus!
