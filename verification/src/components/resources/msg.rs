//! The browser's message type, generic over the row and detail projections.

use vstd::prelude::*;

use crate::components::resources::filter::FilterMsg;
use crate::components::table::TableMsg;
use crate::query::Query;

verus! {

/// Everything that can happen to a resource browser: a user action on its
/// table or query editor, a page or query change, or the completion of a
/// deferred fetch.
#[derive(Debug)]
pub enum ResourcesMsg<T, R> {
    /// A row was chosen; its detail fetch is to be issued.
    ResourceSelected(T),
    /// A detail fetch completed.
    ResourceFetched(R),
    /// Leave the detail view.
    Back,
    NextPage,
    PrevPage,
    RefreshPage,
    ShowFilters,
    HideFilters,
    /// Adopt a freshly confirmed query and fetch with it.
    ChangeQuery(Query),
    TableMsg(TableMsg<T>),
    FilterMsg(FilterMsg),
    /// A collection fetch completed.
    ResourcesFetched(Vec<T>),
    /// A fetch failed; the text describes the error.
    ResourcesFetchFailed(String),
}

} // verus!
