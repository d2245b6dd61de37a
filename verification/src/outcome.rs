//! Per-item outcomes of the download/write phase. A download yields a
//! [`DownloadResult`]; settling it with the write outcome yields the
//! [`ItemResult`] the report is aggregated from. Failure of one item is
//! data, never control flow, so it cannot stop sibling items.

use vstd::prelude::*;
use crate::descriptor::AssetDescriptor;
use crate::descriptor::DescriptorView;
use crate::writer::WriteError;
use crate::writer::WriteErrorView;
use crate::writer::write_error_message;

verus! {

/// Mathematical view of a [`DownloadOutcome`].
pub ghost enum DownloadOutcomeView {
    Success(Seq<u8>),
    Failure(Seq<char>),
}

/// What retrieving one asset's payload produced: the payload bytes, or
/// the reason retrieval failed (network error or non-success status).
pub enum DownloadOutcome {
    Success(Vec<u8>),
    Failure(String),
}

impl View for DownloadOutcome {
    type V = DownloadOutcomeView;

    open spec fn view(&self) -> DownloadOutcomeView {
        match self {
            DownloadOutcome::Success(bytes) => DownloadOutcomeView::Success(bytes@),
            DownloadOutcome::Failure(reason) => DownloadOutcomeView::Failure(reason@),
        }
    }
}

/// The transient per-asset result handed from the downloader to the
/// writer: the descriptor together with its download outcome.
pub struct DownloadResult {
    pub descriptor: AssetDescriptor,
    pub outcome: DownloadOutcome,
}

/// Mathematical view of an [`ItemStatus`].
pub ghost enum ItemStatusView {
    Written,
    DownloadFailed(Seq<char>),
    WriteFailed(WriteErrorView),
}

/// The settled fate of one filtered descriptor: its payload was written,
/// its download failed, or its download succeeded and the write failed.
pub enum ItemStatus {
    Written,
    DownloadFailed(String),
    WriteFailed(WriteError),
}

impl View for ItemStatus {
    type V = ItemStatusView;

    open spec fn view(&self) -> ItemStatusView {
        match self {
            ItemStatus::Written => ItemStatusView::Written,
            ItemStatus::DownloadFailed(reason) => ItemStatusView::DownloadFailed(reason@),
            ItemStatus::WriteFailed(e) => ItemStatusView::WriteFailed(e@),
        }
    }
}

/// Mathematical view of an [`ItemResult`].
pub ghost struct ItemResultView {
    pub descriptor: DescriptorView,
    pub status: ItemStatusView,
}

/// One filtered descriptor together with its settled status.
pub struct ItemResult {
    pub descriptor: AssetDescriptor,
    pub status: ItemStatus,
}

impl View for ItemResult {
    type V = ItemResultView;

    open spec fn view(&self) -> ItemResultView {
        ItemResultView { descriptor: self.descriptor@, status: self.status@ }
    }
}

/// The views of a sequence of item results, in order.
pub open spec fn items_view(s: Seq<ItemResult>) -> Seq<ItemResultView> {
    s.map_values(|r: ItemResult| r@)
}

/// Mathematical view of a write attempt's outcome: absent when no write
/// was attempted.
pub open spec fn write_result_view(w: Option<Result<(), WriteError>>) -> Option<
    Result<(), WriteErrorView>,
> {
    match w {
        Some(Ok(())) => Some(Ok(())),
        Some(Err(e)) => Some(Err(e@)),
        None => None,
    }
}

/// The status that settling a download outcome and a write outcome gives:
/// a failed download is a download failure (no write happens), a failed
/// write is a write failure, and a successful write marks the item
/// written.
pub open spec fn settled_status(
    outcome: DownloadOutcomeView,
    write_result: Option<Result<(), WriteErrorView>>,
) -> ItemStatusView {
    match outcome {
        DownloadOutcomeView::Failure(reason) => ItemStatusView::DownloadFailed(reason),
        DownloadOutcomeView::Success(_) => match write_result {
            Some(Ok(())) => ItemStatusView::Written,
            Some(Err(e)) => ItemStatusView::WriteFailed(e),
            None => ItemStatusView::Written,
        },
    }
}

/// Settles one item: a write is attempted exactly when the download
/// succeeded, and the item's status records which stage failed, if any.
/// The payload bytes are consumed here and discarded.
pub fn settle(r: DownloadResult, write_result: Option<Result<(), WriteError>>) -> (it: ItemResult)
    requires
        (r.outcome is Success) <==> (write_result is Some),
    ensures
        it.descriptor == r.descriptor,
        it@.status == settled_status(r.outcome@, write_result_view(write_result)),
{
    let status = match r.outcome {
        DownloadOutcome::Failure(reason) => ItemStatus::DownloadFailed(reason),
        DownloadOutcome::Success(_bytes) => match write_result {
            Some(Ok(())) => ItemStatus::Written,
            Some(Err(e)) => ItemStatus::WriteFailed(e),
            None => ItemStatus::Written,
        },
    };
    ItemResult { descriptor: r.descriptor, status }
}

/// The reason text recorded for a failed status: the download failure
/// reason, or the write error's message.
pub open spec fn failure_reason(status: ItemStatusView) -> Seq<char> {
    match status {
        ItemStatusView::Written => Seq::<char>::empty(),
        ItemStatusView::DownloadFailed(reason) => reason,
        ItemStatusView::WriteFailed(e) => write_error_message(e),
    }
}

} // verus!
