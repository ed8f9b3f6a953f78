use cornucopia::query::{all, one, opt, positional_args, RowCountError, RowIter, Stmt};

#[test]
fn positional_reordering() {
    // declared (b, a); the SQL reads $1 = a, $2 = b
    let declared = ["b-value", "a-value"];
    let order = [1usize, 0];
    assert_eq!(positional_args(&declared, &order), vec!["a-value", "b-value"]);
}

#[test]
fn one_needs_exactly_one_row() {
    assert_eq!(one(vec![7]), Ok(7));
    assert_eq!(one::<i32>(vec![]), Err(RowCountError));
    assert_eq!(one(vec![7, 7]), Err(RowCountError));
}

#[test]
fn opt_allows_at_most_one_row() {
    assert_eq!(opt::<i32>(vec![]), Ok(None));
    assert_eq!(opt(vec![3]), Ok(Some(3)));
    assert_eq!(opt(vec![3, 3]), Err(RowCountError));
}

#[test]
fn all_keeps_server_order() {
    let rows: Vec<Result<i32, String>> = vec![Ok(3), Ok(1), Ok(2)];
    assert_eq!(all(rows), Ok(vec![3, 1, 2]));
    let rows: Vec<Result<i32, String>> = vec![Ok(3), Err("bad".to_string()), Err("worse".to_string())];
    assert_eq!(all(rows), Err("bad".to_string()));
}

#[test]
fn iter_is_single_pass() {
    let mut it: RowIter<i32, String> = RowIter::new(vec![Ok(1), Ok(2)]);
    assert_eq!(it.next(), Some(Ok(1)));
    assert_eq!(it.next(), Some(Ok(2)));
    assert_eq!(it.next(), None);
    assert_eq!(it.next(), None);
}

#[test]
fn iter_stops_after_failed_row() {
    let mut it: RowIter<i32, String> = RowIter::new(vec![Ok(1), Err("bad".to_string()), Ok(3)]);
    assert_eq!(it.next(), Some(Ok(1)));
    assert_eq!(it.next(), Some(Err("bad".to_string())));
    assert_eq!(it.next(), None);
}

#[test]
fn statement_cache_keeps_first_handle() {
    let mut s = Stmt::new("SELECT 1".to_string());
    assert_eq!(s.sql(), "SELECT 1");
    assert_eq!(s.prepared(), None);
    assert_eq!(s.store(5), 5);
    assert_eq!(s.store(9), 5);
    assert_eq!(s.prepared(), Some(5));
}
