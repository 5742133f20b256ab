use sqlorm::{OptVec, Sql};

#[test]
fn two_options_combine_in_order() {
    let both = Sql::Distinct + Sql::Where("id = 1");
    assert_eq!(both.0, vec![Sql::Distinct, Sql::Where("id = 1")]);
}

#[test]
fn option_before_list_comes_first() {
    let tail = Sql::Where("id = 1") + Sql::OrderBy(true);
    let all = Sql::Distinct + tail;
    assert_eq!(all.0, vec![Sql::Distinct, Sql::Where("id = 1"), Sql::OrderBy(true)]);
}

#[test]
fn option_after_list_comes_last() {
    let head = Sql::Distinct + Sql::Where("id = 1");
    let all = head + Sql::OrderBy(false);
    assert_eq!(all.0, vec![Sql::Distinct, Sql::Where("id = 1"), Sql::OrderBy(false)]);
}

#[test]
fn two_lists_combine_in_order() {
    let left = Sql::Distinct + Sql::Where("a");
    let right = Sql::Where("b") + Sql::OrderBy(true);
    let all = left + right;
    assert_eq!(
        all.0,
        vec![Sql::Distinct, Sql::Where("a"), Sql::Where("b"), Sql::OrderBy(true)]
    );
}

#[test]
fn grouping_does_not_change_the_list() {
    let a = Sql::Where("a");
    let b = Sql::Distinct;
    let c = Sql::OrderBy(true);
    let left_first = (a + b) + c;
    let right_first = a + (b + c);
    assert_eq!(left_first.0, right_first.0);
    assert_eq!(left_first.0, vec![a, b, c]);
}

#[test]
fn combining_keeps_what_a_query_would_refuse() {
    let all = Sql::Distinct + Sql::Distinct + Sql::AutoIncrement + Sql::OrderBy(true)
        + Sql::OrderBy(false);
    assert_eq!(all.len(), 5);
    assert_eq!(all.0[1], Sql::Distinct);
    assert_eq!(all.0[2], Sql::AutoIncrement);
}

#[test]
fn named_combinators_agree_with_the_operator() {
    let by_name = OptVec::single(Sql::Distinct)
        .with(Sql::Where("a"))
        .concat(OptVec::single(Sql::OrderBy(true)));
    let by_operator = Sql::Distinct + Sql::Where("a") + Sql::OrderBy(true);
    assert_eq!(by_name.0, by_operator.0);
}

#[test]
fn empty_list_has_no_options() {
    let none: OptVec<Sql> = OptVec::new();
    assert_eq!(none.len(), 0);
    assert!(none.0.is_empty());
}
