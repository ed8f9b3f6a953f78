//! Decisions of the per-query result builder: positional arguments, the
//! statement cache, and what each terminal operation makes of the rows the
//! server returned.

use vstd::prelude::*;

verus! {

/// Wrong number of rows for `one` or `opt`.
#[derive(Clone, Copy, Debug, PartialEq, Eq, Structural)]
pub struct RowCountError;

/// Positional argument list: the argument at SQL position `k` (0-based) is
/// the declared field `order[k]`.
pub fn positional_args<T: Copy>(declared: &[T], order: &[usize]) -> (r: Vec<T>)
    requires
        forall|k: int| 0 <= k < order@.len() ==> order@[k] < declared@.len(),
    ensures
        r@.len() == order@.len(),
        forall|k: int| 0 <= k < order@.len() ==> r@[k] == declared@[order@[k] as int],
{
    let mut r: Vec<T> = Vec::new();
    let mut k: usize = 0;
    while k < order.len()
        invariant
            k <= order@.len(),
            r@.len() == k,
            forall|j: int| 0 <= j < order@.len() ==> order@[j] < declared@.len(),
            forall|j: int| 0 <= j < k ==> r@[j] == declared@[order@[j] as int],
        decreases order@.len() - k,
    {
        r.push(declared[order[k]]);
        k = k + 1;
    }
    r
}

/// Result of `one`: the row when there is exactly one.
pub fn one<T>(rows: Vec<T>) -> (r: Result<T, RowCountError>)
    ensures
        rows@.len() == 1 ==> r == Ok::<T, RowCountError>(rows@[0]),
        rows@.len() != 1 ==> r == Err::<T, RowCountError>(RowCountError),
        rows@.len() > 1 ==> r is Err,
{
    let mut rows = rows;
    if rows.len() == 1 {
        Ok(rows.remove(0))
    } else {
        Err(RowCountError)
    }
}

/// Result of `opt`: nothing for no row, the row for one, an error for more.
pub fn opt<T>(rows: Vec<T>) -> (r: Result<Option<T>, RowCountError>)
    ensures
        rows@.len() == 0 ==> r == Ok::<Option<T>, RowCountError>(None),
        rows@.len() == 1 ==> r == Ok::<Option<T>, RowCountError>(Some(rows@[0])),
        rows@.len() > 1 ==> r == Err::<Option<T>, RowCountError>(RowCountError),
{
    let mut rows = rows;
    if rows.len() == 0 {
        Ok(None)
    } else if rows.len() == 1 {
        Ok(Some(rows.remove(0)))
    } else {
        Err(RowCountError)
    }
}

/// Row `i` is the first failed row, and failed with `e`.
pub open spec fn is_first_err<T, E>(rows: Seq<Result<T, E>>, i: int, e: E) -> bool {
    &&& 0 <= i < rows.len()
    &&& rows[i] == Err::<T, E>(e)
    &&& forall|j: int| 0 <= j < i ==> rows[j] is Ok
}

/// Result of `all`: every row in server order, or the first failure.
pub fn all<T, E>(rows: Vec<Result<T, E>>) -> (r: Result<Vec<T>, E>)
    ensures
        match r {
            Ok(v) => (forall|i: int| 0 <= i < rows@.len() ==> rows@[i] is Ok)
                && v@.len() == rows@.len()
                && forall|i: int| 0 <= i < rows@.len() ==> rows@[i] == Ok::<T, E>(v@[i]),
            Err(e) => exists|i: int| #[trigger] is_first_err(rows@, i, e),
        },
{
    let ghost orig = rows@;
    let n = rows.len();
    let mut rest = rows;
    let mut out: Vec<T> = Vec::new();
    let mut k: usize = 0;
    while rest.len() > 0
        invariant
            rest@ == orig.skip(k as int),
            k <= orig.len(),
            orig.len() == rest@.len() + k,
            orig.len() == n,
            orig == rows@,
            out@.len() == k,
            forall|i: int| 0 <= i < k ==> orig[i] == Ok::<T, E>(out@[i]),
        decreases rest@.len(),
    {
        let row = rest.remove(0);
        assert(orig[k as int] == row);
        match row {
            Ok(v) => out.push(v),
            Err(e) => {
                assert(orig[k as int] == Err::<T, E>(e));
                assert(forall|j: int| 0 <= j < k ==> orig[j] is Ok);
                let r: Result<Vec<T>, E> = Err(e);
                assert(is_first_err(rows@, k as int, r->Err_0));
                return r;
            },
        }
        assert(rest@ =~= orig.skip(k as int + 1));
        k = k + 1;
    }
    assert(k == orig.len());
    Ok(out)
}

/// Lazy, single-pass sequence of decoded rows. A failed row is yielded and
/// ends the sequence.
pub struct RowIter<T, E> {
    rows: Vec<Result<T, E>>,
    done: bool,
}

/// One step of a row sequence: the row yielded and the rows still to come.
/// A failed row is yielded and ends the sequence.
pub open spec fn step<T, E>(rem: Seq<Result<T, E>>) -> (Option<Result<T, E>>, Seq<Result<T, E>>) {
    if rem.len() == 0 {
        (None, Seq::empty())
    } else if rem[0] is Err {
        (Some(rem[0]), Seq::empty())
    } else {
        (Some(rem[0]), rem.drop_first())
    }
}

/// Rows still to come after `k` steps.
pub open spec fn after_steps<T, E>(rem: Seq<Result<T, E>>, k: nat) -> Seq<Result<T, E>>
    decreases k,
{
    if k == 0 {
        rem
    } else {
        after_steps(step(rem).1, (k - 1) as nat)
    }
}

impl<T, E> RowIter<T, E> {
    /// Rows still to come.
    pub closed spec fn remaining(&self) -> Seq<Result<T, E>> {
        if self.done { Seq::empty() } else { self.rows@ }
    }

    pub fn new(rows: Vec<Result<T, E>>) -> (r: Self)
        ensures
            r.remaining() == rows@,
    {
        RowIter { rows, done: false }
    }

    /// The next row; after a failed row or the last one, nothing.
    pub fn next(&mut self) -> (r: Option<Result<T, E>>)
        ensures
            (r, final(self).remaining()) == step(old(self).remaining()),
    {
        if self.done || self.rows.len() == 0 {
            proof {
                assert(self.remaining() =~= Seq::<Result<T, E>>::empty());
            }
            return None;
        }
        let row = self.rows.remove(0);
        if row.is_err() {
            self.done = true;
        }
        Some(row)
    }
}

/// Single pass: a sequence of `n` rows is exhausted after `n` steps (sooner
/// when a row fails), and an exhausted sequence yields nothing and stays
/// exhausted, however often it is asked.
pub proof fn lemma_single_pass<T, E>(rows: Seq<Result<T, E>>, k: nat)
    requires
        k >= rows.len(),
    ensures
        after_steps(rows, k) == Seq::<Result<T, E>>::empty(),
        step(after_steps(rows, k)) == (None::<Result<T, E>>, Seq::<Result<T, E>>::empty()),
    decreases k,
{
    if k > 0 {
        lemma_single_pass(step(rows).1, (k - 1) as nat);
    } else {
        assert(rows =~= Seq::<Result<T, E>>::empty());
    }
}

/// Prepared-statement cache of one statement object: filled the first time
/// the statement is prepared and reused afterwards.
pub struct Stmt {
    sql: String,
    handle: Option<u64>,
}

impl Stmt {
    pub closed spec fn cached(&self) -> Option<u64> {
        self.handle
    }

    pub closed spec fn sql_text(&self) -> Seq<char> {
        self.sql@
    }

    /// The statement's SQL text.
    pub fn sql(&self) -> (r: &str)
        ensures
            r@ == self.sql_text(),
    {
        self.sql.as_str()
    }

    pub fn new(sql: String) -> (r: Stmt)
        ensures
            r.sql_text() == sql@,
            r.cached() is None,
    {
        Stmt { sql, handle: None }
    }

    /// The handle to use, when the statement was already prepared.
    pub fn prepared(&self) -> (r: Option<u64>)
        ensures
            r == self.cached(),
    {
        self.handle
    }

    /// Records the handle a prepare returned; the first one stays.
    pub fn store(&mut self, handle: u64) -> (r: u64)
        ensures
            final(self).sql_text() == old(self).sql_text(),
            old(self).cached() is None ==> final(self).cached() == Some(handle) && r == handle,
            old(self).cached() is Some ==> final(self).cached() == old(self).cached()
                && r == old(self).cached()->Some_0,
    {
        match self.handle {
            Some(h) => h,
            None => {
                self.handle = Some(handle);
                handle
            },
        }
    }
}

} // verus!
