//! One fetch-and-persist cycle: takes what the fetch produced and drives the
//! batch through projection and the idempotent store.
//!
//! Policy on a record that fails projection or insertion: skip it and
//! continue with the rest of the batch. One malformed or duplicate row must
//! not discard the rest of a seven-day window's data; the record's own
//! verdict still reports the failure, and nothing is ever coerced to a
//! default to make it insertable.

use vstd::prelude::*;
use crate::fetch::FetchError;
use crate::record::{PerformanceData, ProjectionError, project, projectable, projected_values};
use crate::store::{InsertOutcome, SolarStore, insert_transition, preserves_rows};

verus! {

/// How one record of the batch fared.
#[derive(Debug, Clone, Copy, PartialEq, Eq, Structural)]
pub enum RecordOutcome {
    /// Projected, and stored as a new row.
    Inserted,
    /// Projected, but its timestamp was already stored; skipped silently.
    Duplicate,
    /// Not projectable: a required reading was absent; skipped.
    MissingField,
    /// Projected, but the database refused the row; skipped.
    StoreFailed,
}

/// How the whole run ended.
#[derive(Debug, Clone, Copy, PartialEq, Eq, Structural)]
pub enum RunOutcome {
    /// The fetch failed; no write was attempted.
    Aborted(FetchError),
    /// The `solar` table could not be put in place; nothing was persisted.
    SchemaFailed,
    /// The batch was processed, record by record.
    Completed,
}

/// What one run did: how it ended and, when the batch ran, one verdict per
/// record in the batch's order.
pub struct RunReport {
    pub outcome: RunOutcome,
    pub results: Vec<RecordOutcome>,
}

/// Every key of `post` that is not in `pre` is the timestamp of a
/// projectable record among the first `upto` of `recs`, stored with that
/// record's own readings: the batch is the only source of new rows, and no
/// reading is ever invented for one.
pub open spec fn new_rows_from_batch(
    pre: Map<Seq<char>, (Seq<char>, Seq<char>)>,
    post: Map<Seq<char>, (Seq<char>, Seq<char>)>,
    recs: Seq<PerformanceData>,
    upto: int,
) -> bool {
    forall|ts: Seq<char>|
        #[trigger] post.contains_key(ts) && !pre.contains_key(ts) ==> exists|i: int|
            0 <= i < upto && projectable(#[trigger] recs[i]) && recs[i].timestamp@ == ts
                && post[ts] == projected_values(recs[i])
}

/// One more record seen, none inserted: whatever rows the first `upto`
/// records account for, the first `upto + 1` account for as well.
proof fn lemma_new_rows_widen(
    rows0: Map<Seq<char>, (Seq<char>, Seq<char>)>,
    cur: Map<Seq<char>, (Seq<char>, Seq<char>)>,
    recs: Seq<PerformanceData>,
    upto: int,
)
    requires
        new_rows_from_batch(rows0, cur, recs, upto),
    ensures
        new_rows_from_batch(rows0, cur, recs, upto + 1),
{
    assert forall|ts: Seq<char>| #[trigger] cur.contains_key(ts) && !rows0.contains_key(ts)
        implies exists|i: int|
        0 <= i < upto + 1 && projectable(#[trigger] recs[i]) && recs[i].timestamp@ == ts
            && cur[ts] == projected_values(recs[i]) by {
        let i = choose|i: int|
            0 <= i < upto && projectable(#[trigger] recs[i]) && recs[i].timestamp@ == ts
                && cur[ts] == projected_values(recs[i]);
        assert(0 <= i < upto + 1 && projectable(recs[i]) && recs[i].timestamp@ == ts
            && cur[ts] == projected_values(recs[i]));
    }
}

/// One insert of the record at `idx` moves the table from `pre` to `post`:
/// all rows survive unchanged, and every row not present at the start of the
/// batch is still accounted for by a projectable record already seen.
proof fn lemma_insert_step(
    rows0: Map<Seq<char>, (Seq<char>, Seq<char>)>,
    pre: Map<Seq<char>, (Seq<char>, Seq<char>)>,
    post: Map<Seq<char>, (Seq<char>, Seq<char>)>,
    recs: Seq<PerformanceData>,
    idx: int,
    o: InsertOutcome,
)
    requires
        preserves_rows(rows0, pre),
        new_rows_from_batch(rows0, pre, recs, idx),
        0 <= idx < recs.len(),
        projectable(recs[idx]),
        insert_transition(pre, post, recs[idx].timestamp@, projected_values(recs[idx]), o),
    ensures
        preserves_rows(rows0, post),
        preserves_rows(pre, post),
        new_rows_from_batch(rows0, post, recs, idx + 1),
{
    assert forall|ts: Seq<char>| #[trigger] pre.contains_key(ts) implies post.contains_key(ts)
        && post[ts] == pre[ts] by {
        if o == InsertOutcome::Inserted {
            assert(ts != recs[idx].timestamp@);
            assert(post == pre.insert(recs[idx].timestamp@, projected_values(recs[idx])));
        }
    }
    assert forall|ts: Seq<char>| #[trigger] rows0.contains_key(ts) implies post.contains_key(ts)
        && post[ts] == rows0[ts] by {
        assert(pre.contains_key(ts));
    }
    assert forall|ts: Seq<char>| #[trigger] post.contains_key(ts) && !rows0.contains_key(ts)
        implies exists|i: int|
        0 <= i < idx + 1 && projectable(#[trigger] recs[i]) && recs[i].timestamp@ == ts
            && post[ts] == projected_values(recs[i]) by {
        if pre.contains_key(ts) {
            let i = choose|i: int|
                0 <= i < idx && projectable(#[trigger] recs[i]) && recs[i].timestamp@ == ts
                    && pre[ts] == projected_values(recs[i]);
            assert(post[ts] == pre[ts]);
            assert(0 <= i < idx + 1 && projectable(recs[i]) && recs[i].timestamp@ == ts
                && post[ts] == projected_values(recs[i]));
        } else {
            assert(o == InsertOutcome::Inserted);
            assert(post == pre.insert(recs[idx].timestamp@, projected_values(recs[idx])));
            assert(ts == recs[idx].timestamp@);
            assert(0 <= idx < idx + 1 && projectable(recs[idx]) && recs[idx].timestamp@ == ts
                && post[ts] == projected_values(recs[idx]));
        }
    }
}

/// Runs one cycle against an open store: a failed fetch ends the run with no
/// write attempted; otherwise the schema is ensured and every record of the
/// batch — independently of the others — is projected and inserted, with
/// duplicates and failures skipped.
///
/// Whatever happens, rows stored before the run are never changed or lost,
/// and the only rows ever added are projectable batch records stored under
/// their own timestamp with their own readings.
pub fn run_cycle(
    store: &mut SolarStore,
    fetched: Result<Vec<PerformanceData>, FetchError>,
) -> (report: RunReport)
    ensures
        fetched matches Err(e) ==> {
            &&& report.outcome == RunOutcome::Aborted(e)
            &&& report.results@.len() == 0
            &&& final(store).rows() == old(store).rows()
        },
        report.outcome == RunOutcome::SchemaFailed ==> {
            &&& report.results@.len() == 0
            &&& final(store).rows() == old(store).rows()
        },
        fetched matches Ok(recs) ==> report.outcome == RunOutcome::SchemaFailed || {
            &&& report.outcome == RunOutcome::Completed
            &&& report.results@.len() == recs@.len()
            &&& forall|i: int|
                0 <= i < recs@.len() ==> ((#[trigger] report.results@[i])
                    == RecordOutcome::MissingField <==> !projectable(recs@[i]))
            &&& forall|i: int|
                0 <= i < recs@.len() && (#[trigger] report.results@[i])
                    == RecordOutcome::Inserted ==> final(store).rows().contains_key(
                    recs@[i].timestamp@,
                ) && final(store).rows()[recs@[i].timestamp@] == projected_values(recs@[i])
            &&& forall|i: int|
                0 <= i < recs@.len() && (#[trigger] report.results@[i])
                    == RecordOutcome::Duplicate ==> final(store).rows().contains_key(
                    recs@[i].timestamp@,
                )
        },
        preserves_rows(old(store).rows(), final(store).rows()),
        fetched matches Ok(recs) ==> new_rows_from_batch(
            old(store).rows(),
            final(store).rows(),
            recs@,
            recs@.len() as int,
        ),
        fetched matches Ok(recs) && recs@.len() == 0 ==> final(store).rows() == old(store).rows(),
{
    match fetched {
        Err(e) => RunReport { outcome: RunOutcome::Aborted(e), results: Vec::new() },
        Ok(records) => {
            if !store.ensure_schema() {
                return RunReport { outcome: RunOutcome::SchemaFailed, results: Vec::new() };
            }
            let ghost rows0: Map<Seq<char>, (Seq<char>, Seq<char>)> = store.rows();
            let mut results: Vec<RecordOutcome> = Vec::new();
            let mut idx: usize = 0;
            while idx < records.len()
                invariant
                    idx <= records.len(),
                    results@.len() == idx,
                    preserves_rows(rows0, store.rows()),
                    new_rows_from_batch(rows0, store.rows(), records@, idx as int),
                    forall|i: int|
                        0 <= i < idx ==> ((#[trigger] results@[i]) == RecordOutcome::MissingField
                            <==> !projectable(records@[i])),
                    forall|i: int|
                        0 <= i < idx && (#[trigger] results@[i]) == RecordOutcome::Inserted
                            ==> store.rows().contains_key(records@[i].timestamp@)
                            && store.rows()[records@[i].timestamp@] == projected_values(
                            records@[i],
                        ),
                    forall|i: int|
                        0 <= i < idx && (#[trigger] results@[i]) == RecordOutcome::Duplicate
                            ==> store.rows().contains_key(records@[i].timestamp@),
                decreases records@.len() - idx,
            {
                match project(&records[idx]) {
                    Ok(sample) => {
                        let ghost pre = store.rows();
                        let outcome = store.insert(&sample);
                        proof {
                            lemma_insert_step(
                                rows0,
                                pre,
                                store.rows(),
                                records@,
                                idx as int,
                                outcome,
                            );
                        }
                        match outcome {
                            InsertOutcome::Inserted => results.push(RecordOutcome::Inserted),
                            InsertOutcome::Duplicate => results.push(RecordOutcome::Duplicate),
                            InsertOutcome::Failed => results.push(RecordOutcome::StoreFailed),
                        }
                    },
                    Err(ProjectionError::MissingField) => {
                        proof {
                            lemma_new_rows_widen(rows0, store.rows(), records@, idx as int);
                        }
                        results.push(RecordOutcome::MissingField);
                    },
                }
                idx += 1;
            }
            proof {
                if records@.len() == 0 {
                    assert forall|ts: Seq<char>| store.rows().contains_key(ts)
                        implies rows0.contains_key(ts) by {}
                    assert(store.rows() =~= rows0);
                }
            }
            RunReport { outcome: RunOutcome::Completed, results }
        },
    }
}

} // verus!
