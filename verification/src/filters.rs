//! Filters that keep responses for things that do not exist out of the results.

use crate::response::FeroxResponseView;
use vstd::prelude::*;

verus! {

/// Filters out responses by method and status code together with those of their sizes that are
/// set here.
#[derive(Clone, Debug)]
pub struct WildcardFilter {
    /// number of bytes in the body of a response to be filtered out
    pub content_length: Option<u64>,

    /// number of lines in the body of a response to be filtered out
    pub line_count: Option<usize>,

    /// number of words in the body of a response to be filtered out
    pub word_count: Option<usize>,

    /// method of the requests that led to the filter
    pub method: String,

    /// status code of the responses that led to the filter
    pub status_code: u16,

    /// the user asked that nothing be filtered out
    pub dont_filter: bool,
}

/// A wildcard filter as a mathematical value.
pub struct WildcardFilterView {
    pub content_length: Option<u64>,
    pub line_count: Option<usize>,
    pub word_count: Option<usize>,
    pub method: Seq<char>,
    pub status_code: u16,
    pub dont_filter: bool,
}

impl WildcardFilterView {
    /// The response has every size that the filter sets.
    pub open spec fn agrees_with(self, response: FeroxResponseView) -> bool {
        &&& self.content_length matches Some(length) ==> response.content_length == length
        &&& self.word_count matches Some(words) ==> response.word_count == words
        &&& self.line_count matches Some(lines) ==> response.line_count == lines
    }
}

impl View for WildcardFilter {
    type V = WildcardFilterView;

    open spec fn view(&self) -> WildcardFilterView {
        WildcardFilterView {
            content_length: self.content_length,
            line_count: self.line_count,
            word_count: self.word_count,
            method: self.method@,
            status_code: self.status_code,
            dont_filter: self.dont_filter,
        }
    }
}

/// Two filters are equal when all their fields are.
impl PartialEq for WildcardFilter {
    fn eq(&self, other: &WildcardFilter) -> (equal: bool) {
        self.content_length == other.content_length && self.line_count == other.line_count
            && self.word_count == other.word_count && self.method == other.method
            && self.status_code == other.status_code && self.dont_filter == other.dont_filter
    }
}

impl vstd::std_specs::cmp::PartialEqSpecImpl for WildcardFilter {
    open spec fn obeys_eq_spec() -> bool {
        true
    }

    open spec fn eq_spec(&self, other: &WildcardFilter) -> bool {
        self@ == other@
    }
}

/// The views of a sequence of wildcard filters.
pub open spec fn views(filters: Seq<WildcardFilter>) -> Seq<WildcardFilterView> {
    filters.map_values(|filter: WildcardFilter| filter@)
}

/// Whether a filter equal to `filter` is among `filters`.
pub fn is_known(filter: &WildcardFilter, filters: &Vec<WildcardFilter>) -> (known: bool)
    ensures
        known == views(filters@).contains(filter@),
{
    let count: usize = filters.len();
    for i in 0..count
        invariant
            count == filters@.len(),
            forall|j: int| 0 <= j < i ==> views(filters@)[j] != filter@,
    {
        if *filter == filters[i] {
            assert(views(filters@)[i as int] == filter@);
            return true;
        }
    }
    false
}

/// Filters out responses whose text resembles that of one response.
#[derive(Clone, Debug)]
pub struct SimilarityFilter {
    /// signature of that response's text
    pub hash: u64,

    /// url of that response
    pub original_url: String,
}

/// A similarity filter as a mathematical value.
pub struct SimilarityFilterView {
    pub hash: u64,
    pub original_url: Seq<char>,
}

impl View for SimilarityFilter {
    type V = SimilarityFilterView;

    open spec fn view(&self) -> SimilarityFilterView {
        SimilarityFilterView { hash: self.hash, original_url: self.original_url@ }
    }
}

/// Two filters are seen as equal exactly when they agree in every field, and a sequence of filters
/// is seen one by one and in order.
pub proof fn filters_are_seen_as_they_are(
    filter: WildcardFilter,
    other: WildcardFilter,
    filters: Seq<WildcardFilter>,
)
    ensures
        filter@ == other@ <==> {
            &&& filter.content_length == other.content_length
            &&& filter.line_count == other.line_count
            &&& filter.word_count == other.word_count
            &&& filter.method@ == other.method@
            &&& filter.status_code == other.status_code
            &&& filter.dont_filter == other.dont_filter
        },
        filter@.content_length == filter.content_length,
        filter@.line_count == filter.line_count,
        filter@.word_count == filter.word_count,
        filter@.method == filter.method@,
        filter@.status_code == filter.status_code,
        filter@.dont_filter == filter.dont_filter,
        views(filters).len() == filters.len(),
        forall|i: int| 0 <= i < filters.len() ==> #[trigger] views(filters)[i] == filters[i]@,
{
}

/// A similarity filter is seen with its signature and its url.
pub proof fn similarity_filters_are_seen_as_they_are(filter: SimilarityFilter)
    ensures
        filter@.hash == filter.hash,
        filter@.original_url == filter.original_url@,
{
}

} // verus!
