use vstd::prelude::*;
use vstd::string::StringExecFns;

verus! {

/// The counter after `n` atomic increments applied to `initial`. The storage
/// layer serializes concurrent increments, so any interleaving of `n` calls
/// is, at the storage layer, some order of `n` applications of this step.
pub open spec fn counter_after(initial: int, n: nat) -> int
    decreases n,
{
    if n == 0 {
        initial
    } else {
        counter_after(initial, (n - 1) as nat) + 1
    }
}

/// No lost updates: for any `n` concurrent increment calls issued against an
/// initial count `initial`, once the storage layer has serialized all of
/// them the count is exactly `initial + n`, regardless of the interleaving
/// (each serialized call contributes exactly one `+ 1` step).
pub proof fn lemma_no_lost_updates(initial: int, n: nat)
    ensures
        counter_after(initial, n) == initial + n,
    decreases n,
{
    if n > 0 {
        lemma_no_lost_updates(initial, (n - 1) as nat);
    }
}

/// The persisted counter is monotonically non-decreasing under normal
/// operation: more increments never mean a smaller count.
pub proof fn lemma_counter_monotone(initial: int, m: nat, n: nat)
    requires
        m <= n,
    ensures
        counter_after(initial, m) <= counter_after(initial, n),
{
    lemma_no_lost_updates(initial, m);
    lemma_no_lost_updates(initial, n);
}

/// One atomic increment step, as the `UPDATE ... SET count = count + 1
/// RETURNING count` statement performs it: the new, already-incremented
/// value is what the caller sees.
pub fn increment(count: i64) -> (r: i64)
    requires
        count < i64::MAX,
    ensures
        r == count + 1,
{
    count + 1
}

/// The diagnostic text attached to a failed increment: `"DB Error: {e}"`.
pub open spec fn db_error_text(e: Seq<char>) -> Seq<char> {
    "DB Error: "@ + e
}

/// Maps the outcome of the database round-trip to the reply of
/// `IncrementCounter`. A returned row yields the new counter value
/// unchanged; any database error is surfaced to this caller alone as an
/// internal failure carrying the underlying error text. No retry happens at
/// this layer: a blindly retried increment after a successful but
/// unacknowledged reply would double-count.
pub fn increment_counter_reply(db_result: Result<i64, String>) -> (r: Result<i64, String>)
    ensures
        r is Ok <==> db_result is Ok,
        r is Ok ==> r->Ok_0 == db_result->Ok_0,
        r is Err ==> r->Err_0@ == db_error_text(db_result->Err_0@),
{
    match db_result {
        Result::Ok(value) => Result::Ok(value),
        Result::Err(e) => {
            let mut msg: String = String::from_str("DB Error: ");
            msg.append(e.as_str());
            Result::Err(msg)
        },
    }
}

} // verus!
