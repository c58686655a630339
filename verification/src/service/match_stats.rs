//! Counting the tasks of the matching queue.
use vstd::prelude::*;
use crate::dto::match_stats::DbStats;

verus! {

/// The statuses that the stored tasks are counted under, in order.
pub open spec fn counted_statuses() -> Seq<Seq<char>> {
    seq!["pending"@, "processing"@, "completed"@, "failed"@, "retrying"@]
}

/// The statuses that the stored tasks are counted under, in order.
pub fn db_stat_statuses() -> (r: Vec<String>)
    ensures
        r@.len() == 5,
        forall|i: int| 0 <= i < 5 ==> #[trigger] r@[i]@ == counted_statuses()[i],
{
    let mut v: Vec<String> = Vec::new();
    v.push(String::from_str("pending"));
    v.push(String::from_str("processing"));
    v.push(String::from_str("completed"));
    v.push(String::from_str("failed"));
    v.push(String::from_str("retrying"));
    v
}

/// How many tasks of one status are read, at most, to count them.
pub fn db_stat_page() -> (r: i64)
    ensures
        r == 100_000,
{
    100_000
}

/// A count that could not be read counts as 0.
pub open spec fn count_or_zero(r: Result<usize, String>) -> usize {
    match r {
        Ok(n) => n,
        Err(_) => 0,
    }
}

/// The counts read for the statuses of [`db_stat_statuses`], in order;
/// a count that failed to be read is 0.
pub fn db_stats_from(counts: &Vec<Result<usize, String>>) -> (r: DbStats)
    requires
        counts@.len() == 5,
    ensures
        r.pending == count_or_zero(counts@[0]),
        r.processing == count_or_zero(counts@[1]),
        r.completed == count_or_zero(counts@[2]),
        r.failed == count_or_zero(counts@[3]),
        r.retrying == count_or_zero(counts@[4]),
{
    let mut n: Vec<usize> = Vec::new();
    let mut i: usize = 0;
    while i < 5
        invariant
            counts@.len() == 5,
            i <= 5,
            n@.len() == i,
            forall|k: int| 0 <= k < i ==> #[trigger] n@[k] == count_or_zero(counts@[k]),
        decreases 5 - i,
    {
        let c = match &counts[i] {
            Ok(x) => *x,
            Err(_) => 0,
        };
        n.push(c);
        i = i + 1;
    }
    DbStats { pending: n[0], processing: n[1], completed: n[2], failed: n[3], retrying: n[4] }
}

/// Each count that was read is reported as read, in the order of the
/// statuses; a count that could not be read is reported as 0.
pub proof fn lemma_db_stats_report_counts_as_read(counts: Vec<Result<usize, String>>, r: DbStats)
    requires
        counts@.len() == 5,
        call_ensures(db_stats_from, (&counts,), r),
    ensures
        counts@[0] matches Ok(n) ==> r.pending == n,
        counts@[1] matches Ok(n) ==> r.processing == n,
        counts@[2] matches Ok(n) ==> r.completed == n,
        counts@[3] matches Ok(n) ==> r.failed == n,
        counts@[4] matches Ok(n) ==> r.retrying == n,
        counts@[0] is Err ==> r.pending == 0,
        counts@[1] is Err ==> r.processing == 0,
        counts@[2] is Err ==> r.completed == 0,
        counts@[3] is Err ==> r.failed == 0,
        counts@[4] is Err ==> r.retrying == 0,
{
}

} // verus!
