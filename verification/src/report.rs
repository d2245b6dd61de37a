//! The aggregated outcome of one sync run: how many assets were written,
//! and one ordered failure record per item that failed, annotated with
//! shortcode, category and reason.

use vstd::prelude::*;
use crate::outcome::ItemResult;
use crate::outcome::ItemResultView;
use crate::outcome::ItemStatus;
use crate::outcome::failure_reason;
use crate::outcome::items_view;
use crate::writer::WriteError;

verus! {

/// Mathematical view of a [`FailureRecord`].
pub ghost struct FailureRecordView {
    pub shortcode: Seq<char>,
    pub category: Seq<char>,
    pub reason: Seq<char>,
}

/// One failed item of the run: which asset failed and why.
pub struct FailureRecord {
    pub shortcode: String,
    pub category: String,
    pub reason: String,
}

impl View for FailureRecord {
    type V = FailureRecordView;

    open spec fn view(&self) -> FailureRecordView {
        FailureRecordView {
            shortcode: self.shortcode@,
            category: self.category@,
            reason: self.reason@,
        }
    }
}

/// Whether an item ended with its payload written.
pub open spec fn is_written(r: ItemResultView) -> bool {
    r.status is Written
}

/// The failure record an unwritten item contributes to the report.
pub open spec fn record_of(r: ItemResultView) -> FailureRecordView {
    FailureRecordView {
        shortcode: r.descriptor.shortcode,
        category: r.descriptor.category,
        reason: failure_reason(r.status),
    }
}

/// How many of the items were written.
pub open spec fn success_count(rs: Seq<ItemResultView>) -> nat
    decreases rs.len(),
{
    if rs.len() == 0 {
        0
    } else {
        success_count(rs.drop_last()) + if is_written(rs.last()) {
            1nat
        } else {
            0nat
        }
    }
}

/// The failure records of the unwritten items, in item order.
pub open spec fn failure_records(rs: Seq<ItemResultView>) -> Seq<FailureRecordView>
    decreases rs.len(),
{
    if rs.len() == 0 {
        Seq::<FailureRecordView>::empty()
    } else if is_written(rs.last()) {
        failure_records(rs.drop_last())
    } else {
        failure_records(rs.drop_last()).push(record_of(rs.last()))
    }
}

/// At most every item can be written.
pub proof fn lemma_success_count_bounded(rs: Seq<ItemResultView>)
    ensures
        success_count(rs) <= rs.len(),
    decreases rs.len(),
{
    if rs.len() != 0 {
        lemma_success_count_bounded(rs.drop_last());
    }
}

/// Every item is accounted for exactly once: the written items and the
/// failure records together cover the whole result sequence, so a failed
/// item consumes one failure record and never displaces another item.
pub proof fn lemma_report_accounts_for_all(rs: Seq<ItemResultView>)
    ensures
        success_count(rs) + failure_records(rs).len() == rs.len(),
    decreases rs.len(),
{
    if rs.len() != 0 {
        lemma_report_accounts_for_all(rs.drop_last());
    }
}

/// Every unwritten item's record is in the report: one item's failure
/// never suppresses the record of another.
pub proof fn lemma_failures_complete(rs: Seq<ItemResultView>)
    ensures
        forall|i: int|
            0 <= i < rs.len() && !is_written(rs[i]) ==> #[trigger] failure_records(rs).contains(
                record_of(rs[i]),
            ),
    decreases rs.len(),
{
    if rs.len() != 0 {
        lemma_failures_complete(rs.drop_last());
        let fr = failure_records(rs);
        let frd = failure_records(rs.drop_last());
        assert forall|i: int|
            0 <= i < rs.len() && !is_written(rs[i]) implies #[trigger] fr.contains(
            record_of(rs[i]),
        ) by {
            if i < rs.len() - 1 {
                assert(rs.drop_last()[i] == rs[i]);
                assert(frd.contains(record_of(rs[i])));
                let j = choose|j: int| 0 <= j < frd.len() && frd[j] == record_of(rs[i]);
                if !is_written(rs.last()) {
                    assert(frd.push(record_of(rs.last()))[j] == record_of(rs[i]));
                }
            } else {
                assert(fr[fr.len() - 1] == record_of(rs[i]));
            }
        }
    }
}

/// Mathematical view of a [`SyncReport`].
pub ghost struct SyncReportView {
    pub downloaded_count: int,
    pub failures: Seq<FailureRecordView>,
}

/// What one sync run produced: the number of assets successfully written,
/// and an ordered record of every item that failed. Per-item failures are
/// data in this report, never a run-level error.
pub struct SyncReport {
    pub downloaded_count: usize,
    pub failures: Vec<FailureRecord>,
}

impl View for SyncReport {
    type V = SyncReportView;

    open spec fn view(&self) -> SyncReportView {
        SyncReportView {
            downloaded_count: self.downloaded_count as int,
            failures: self.failures@.map_values(|f: FailureRecord| f@),
        }
    }
}

impl SyncReport {
    /// An empty report: nothing downloaded, nothing failed.
    pub fn new() -> (rep: SyncReport)
        ensures
            rep@.downloaded_count == 0,
            rep@.failures == Seq::<FailureRecordView>::empty(),
    {
        let rep = SyncReport { downloaded_count: 0, failures: Vec::new() };
        proof {
            assert(rep@.failures =~= Seq::<FailureRecordView>::empty());
        }
        rep
    }

    /// Records one settled item: a written item raises the count by one,
    /// any other appends its failure record and leaves the count alone.
    pub fn record_item(&mut self, r: &ItemResult)
        requires
            r@.status is Written ==> old(self).downloaded_count < usize::MAX,
        ensures
            is_written(r@) ==> final(self)@.downloaded_count == old(self)@.downloaded_count + 1
                && final(self)@.failures == old(self)@.failures,
            !is_written(r@) ==> final(self)@.downloaded_count == old(self)@.downloaded_count
                && final(self)@.failures == old(self)@.failures.push(record_of(r@)),
    {
        match &r.status {
            ItemStatus::Written => {
                self.downloaded_count = self.downloaded_count + 1;
            },
            ItemStatus::DownloadFailed(reason) => {
                let ghost prev = self.failures@;
                self.failures.push(
                    FailureRecord {
                        shortcode: r.descriptor.shortcode.clone(),
                        category: r.descriptor.category.clone(),
                        reason: reason.clone(),
                    },
                );
                proof {
                    assert(self@.failures =~= prev.map_values(|f: FailureRecord| f@).push(
                        record_of(r@),
                    ));
                }
            },
            ItemStatus::WriteFailed(e) => {
                let ghost prev = self.failures@;
                let reason = match e {
                    WriteError::DirCreate(m) => m.clone(),
                    WriteError::FileWrite(m) => m.clone(),
                };
                self.failures.push(
                    FailureRecord {
                        shortcode: r.descriptor.shortcode.clone(),
                        category: r.descriptor.category.clone(),
                        reason,
                    },
                );
                proof {
                    assert(self@.failures =~= prev.map_values(|f: FailureRecord| f@).push(
                        record_of(r@),
                    ));
                }
            },
        }
    }
}

/// Aggregates the settled items into the final report: the count of
/// written items and one failure record per unwritten item, in item
/// order.
pub fn build_report(results: &Vec<ItemResult>) -> (rep: SyncReport)
    ensures
        rep@.downloaded_count == success_count(items_view(results@)),
        rep@.failures == failure_records(items_view(results@)),
{
    let mut rep = SyncReport::new();
    let mut i: usize = 0;
    proof {
        assert(items_view(results@.take(0)) =~= Seq::<ItemResultView>::empty());
    }
    while i < results.len()
        invariant
            i <= results.len(),
            rep@.downloaded_count == success_count(items_view(results@.take(i as int))),
            rep@.failures == failure_records(items_view(results@.take(i as int))),
        decreases results.len() - i,
    {
        proof {
            let t = items_view(results@.take(i + 1));
            assert(t.drop_last() =~= items_view(results@.take(i as int)));
            assert(t.last() == results@[i as int]@);
            lemma_success_count_bounded(items_view(results@.take(i as int)));
        }
        rep.record_item(&results[i]);
        i = i + 1;
    }
    proof {
        assert(results@.take(results@.len() as int) =~= results@);
    }
    rep
}

} // verus!
