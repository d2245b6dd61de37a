//! Run coordination: the manifest endpoint URL, the fatal-abort decision
//! on a failed manifest fetch, and the plan of descriptors to attempt.
//! The network calls themselves stay with the caller; their results come
//! in as plain values and the decisions here are verified.

use vstd::prelude::*;
use vstd::string::StringExecFns;
use crate::categories::Categories;
use crate::descriptor::AssetDescriptor;
use crate::descriptor::DescriptorView;
use crate::descriptor::descs_view;
use crate::filter::filter_by_category;
use crate::filter::filtered_spec;
use crate::outcome::ItemResultView;
use crate::report::failure_records;
use crate::report::lemma_report_accounts_for_all;
use crate::report::success_count;

verus! {

/// Mathematical view of a [`ManifestFetchError`].
pub ghost enum ManifestFetchErrorView {
    Network(Seq<char>),
    HttpStatus(u16),
    Decode(Seq<char>),
}

/// A fatal manifest-fetch failure: the network call failed, the endpoint
/// answered with a non-success status, or the body could not be decoded.
/// Any of these aborts the run before a single download is attempted.
#[derive(Debug)]
pub enum ManifestFetchError {
    Network(String),
    HttpStatus(u16),
    Decode(String),
}

impl View for ManifestFetchError {
    type V = ManifestFetchErrorView;

    open spec fn view(&self) -> ManifestFetchErrorView {
        match self {
            ManifestFetchError::Network(m) => ManifestFetchErrorView::Network(m@),
            ManifestFetchError::HttpStatus(s) => ManifestFetchErrorView::HttpStatus(*s),
            ManifestFetchError::Decode(m) => ManifestFetchErrorView::Decode(m@),
        }
    }
}

/// One sync invocation's input: the instance host (no scheme, no trailing
/// slash — the caller validates that) and the category set to keep.
pub struct SyncRequest {
    pub instance_host: String,
    pub categories: Categories,
}

/// The manifest endpoint for `host`:
/// `https://{host}/api/v1/custom_emojis`.
pub open spec fn manifest_url_spec(host: Seq<char>) -> Seq<char> {
    "https://"@ + host + "/api/v1/custom_emojis"@
}

impl SyncRequest {
    /// The URL of the instance's manifest endpoint.
    pub fn manifest_url(&self) -> (u: String)
        ensures
            u@ == manifest_url_spec(self.instance_host@),
    {
        let mut u = String::from_str("https://");
        u.append(self.instance_host.as_str());
        u.append("/api/v1/custom_emojis");
        u
    }
}

/// Decides how the run proceeds from the manifest fetch: a fetch failure
/// is fatal and is handed back unchanged, before any download is
/// attempted; a fetched manifest is filtered down to the plan of
/// descriptors to attempt, in manifest order.
pub fn plan_sync(
    fetch: Result<Vec<AssetDescriptor>, ManifestFetchError>,
    categories: &Categories,
) -> (r: Result<Vec<AssetDescriptor>, ManifestFetchError>)
    ensures
        fetch is Err ==> r == fetch,
        fetch is Ok ==> r is Ok && descs_view(r.unwrap()@) == filtered_spec(
            descs_view(fetch.unwrap()@),
            categories@,
        ),
{
    match fetch {
        Err(e) => Err(e),
        Ok(manifest) => Ok(filter_by_category(&manifest, categories)),
    }
}

/// Run-level accounting: when the settled items are exactly the planned
/// descriptors — one item per descriptor that passed the category filter,
/// in plan order — the report covers the whole plan: written items and
/// failure records together account for every planned descriptor exactly
/// once.
pub proof fn lemma_run_accounts_for_plan(
    m: Seq<DescriptorView>,
    cats: Seq<Seq<char>>,
    rs: Seq<ItemResultView>,
)
    requires
        rs.map_values(|r: ItemResultView| r.descriptor) == filtered_spec(m, cats),
    ensures
        success_count(rs) + failure_records(rs).len() == filtered_spec(m, cats).len(),
{
    lemma_report_accounts_for_all(rs);
    assert(rs.map_values(|r: ItemResultView| r.descriptor).len() == rs.len());
}

} // verus!
