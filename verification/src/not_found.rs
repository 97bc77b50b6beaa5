//! Finding out what a server sends for things that do not exist.
//!
//! Some servers answer every request with a page, so that a missing page cannot be told from a
//! page by its status code. Requests for names that nobody can have used show what the server
//! sends then, and filters keep the like of it out of the results.

use crate::filters::{WildcardFilter, WildcardFilterView};
use crate::heuristics::HeuristicTests;
use crate::response;
use crate::response::{FeroxResponse, FeroxResponseView};
use vstd::prelude::*;

verus! {

/// All responses have bodies of the same number of bytes.
pub open spec fn same_content_length(responses: Seq<FeroxResponseView>) -> bool {
    forall|i: int|
        0 <= i < responses.len() ==> (#[trigger] responses[i]).content_length
            == responses[0].content_length
}

/// All responses have bodies of the same number of words.
pub open spec fn same_word_count(responses: Seq<FeroxResponseView>) -> bool {
    forall|i: int|
        0 <= i < responses.len() ==> (#[trigger] responses[i]).word_count
            == responses[0].word_count
}

/// All responses have bodies of the same number of lines.
pub open spec fn same_line_count(responses: Seq<FeroxResponseView>) -> bool {
    forall|i: int|
        0 <= i < responses.len() ==> (#[trigger] responses[i]).line_count
            == responses[0].line_count
}

/// The filter that these responses lead to: every size in which all of them agree is set, and
/// there is no filter where they agree in none.
pub open spec fn common_filter(
    responses: Seq<FeroxResponseView>,
    dont_filter: bool,
) -> Option<WildcardFilterView> {
    let first = responses[0];
    let length = same_content_length(responses);
    let words = same_word_count(responses);
    let lines = same_line_count(responses);
    if length || words || lines {
        Some(
            WildcardFilterView {
                content_length: if length {
                    Some(first.content_length)
                } else {
                    None
                },
                word_count: if words {
                    Some(first.word_count)
                } else {
                    None
                },
                line_count: if lines {
                    Some(first.line_count)
                } else {
                    None
                },
                method: first.method,
                status_code: first.status,
                dont_filter,
            },
        )
    } else {
        None
    }
}

impl HeuristicTests {
    /// for all responses, examine chars/words/lines
    /// if all responses respective lengths match each other, we can assume
    /// that will remain true for subsequent non-existent urls
    ///
    /// values are examined from most to least specific (content length, word count, line count)
    pub fn examine_404_like_responses(&self, responses: &[FeroxResponse]) -> (filter: Option<
        Box<WildcardFilter>,
    >)
        requires
            responses@.len() > 0,
        ensures
            match (
                filter,
                common_filter(response::views(responses@), self.handles.config.dont_filter),
            ) {
                (Some(found), Some(expected)) => found@ == expected,
                (None, None) => true,
                _ => false,
            },
    {
        let mut size_sentry = true;
        let mut word_sentry = true;
        let mut line_sentry = true;

        let ghost views = response::views(responses@);
        let content_length: u64 = responses[0].content_length;
        let word_count: usize = responses[0].word_count;
        let line_count: usize = responses[0].line_count;

        let count: usize = responses.len();
        for i in 1..count
            invariant
                count == responses@.len(),
                views == response::views(responses@),
                content_length == views[0].content_length,
                word_count == views[0].word_count,
                line_count == views[0].line_count,
                size_sentry <==> forall|j: int|
                    0 <= j < i ==> (#[trigger] views[j]).content_length == content_length,
                word_sentry <==> forall|j: int|
                    0 <= j < i ==> (#[trigger] views[j]).word_count == word_count,
                line_sentry <==> forall|j: int|
                    0 <= j < i ==> (#[trigger] views[j]).line_count == line_count,
        {
            // if any of the responses differ in length, that particular
            // response length type is no longer a candidate for filtering
            let response = &responses[i];
            assert(views[i as int] == response@);
            if response.content_length != content_length {
                size_sentry = false;
            }
            if response.word_count != word_count {
                word_sentry = false;
            }
            if response.line_count != line_count {
                line_sentry = false;
            }
        }

        if !size_sentry && !word_sentry && !line_sentry {
            // none of the response lengths match, so we can't filter on any of them
            return None;
        }
        Some(
            Box::new(
                WildcardFilter {
                    content_length: if size_sentry {
                        Some(content_length)
                    } else {
                        None
                    },
                    line_count: if line_sentry {
                        Some(line_count)
                    } else {
                        None
                    },
                    word_count: if word_sentry {
                        Some(word_count)
                    } else {
                        None
                    },
                    method: responses[0].method.clone(),
                    status_code: responses[0].status,
                    dont_filter: self.handles.config.dont_filter,
                },
            ),
        )
    }
}

/// A filter made from responses sets at least one size and agrees with every one of them: no
/// response that led to the filter differs from it in a size that it sets.
pub proof fn filter_agrees_with_every_response(
    responses: Seq<FeroxResponseView>,
    dont_filter: bool,
)
    requires
        responses.len() > 0,
    ensures
        common_filter(responses, dont_filter) matches Some(filter) ==> {
            &&& filter.content_length is Some || filter.word_count is Some
                || filter.line_count is Some
            &&& forall|i: int|
                0 <= i < responses.len() ==> filter.agrees_with(#[trigger] responses[i])
        },
{
}

/// A size that a filter leaves out is one in which two of the responses differ.
pub proof fn filter_leaves_out_only_what_differs(
    responses: Seq<FeroxResponseView>,
    dont_filter: bool,
)
    requires
        responses.len() > 0,
    ensures
        common_filter(responses, dont_filter) matches Some(filter) ==> {
            &&& filter.content_length is None ==> exists|i: int|
                0 <= i < responses.len() && (#[trigger] responses[i]).content_length
                    != responses[0].content_length
            &&& filter.word_count is None ==> exists|i: int|
                0 <= i < responses.len() && (#[trigger] responses[i]).word_count
                    != responses[0].word_count
            &&& filter.line_count is None ==> exists|i: int|
                0 <= i < responses.len() && (#[trigger] responses[i]).line_count
                    != responses[0].line_count
        },
{
}

/// One more response never adds to a filter: what is filtered on with it was filtered on without
/// it, and by the same value.
pub proof fn another_response_only_narrows(
    responses: Seq<FeroxResponseView>,
    another: FeroxResponseView,
    dont_filter: bool,
)
    requires
        responses.len() > 0,
    ensures
        common_filter(responses.push(another), dont_filter) matches Some(after) ==> {
            &&& common_filter(responses, dont_filter) matches Some(before)
            &&& after.content_length is Some ==> before.content_length == after.content_length
            &&& after.word_count is Some ==> before.word_count == after.word_count
            &&& after.line_count is Some ==> before.line_count == after.line_count
            &&& before.method == after.method
            &&& before.status_code == after.status_code
        },
{
    let more = responses.push(another);
    assert(forall|i: int| 0 <= i < responses.len() ==> more[i] == responses[i]);
    if same_content_length(more) {
        assert forall|i: int| 0 <= i < responses.len() implies (
        #[trigger] responses[i]).content_length == responses[0].content_length by {
            assert(more[i] == responses[i]);
        }
    }
    if same_word_count(more) {
        assert forall|i: int| 0 <= i < responses.len() implies (#[trigger] responses[i]).word_count
            == responses[0].word_count by {
            assert(more[i] == responses[i]);
        }
    }
    if same_line_count(more) {
        assert forall|i: int| 0 <= i < responses.len() implies (#[trigger] responses[i]).line_count
            == responses[0].line_count by {
            assert(more[i] == responses[i]);
        }
    }
}

/// There is a filter if and only if all responses agree with one another in content length, or all
/// do in word count, or all do in line count, whatever else they are. The sizes in which they agree
/// are set, to what they agree on, and the others are not; the method and the status code are those
/// of the first response.
pub proof fn filter_iff_a_size_agrees(responses: Seq<FeroxResponseView>, dont_filter: bool)
    requires
        responses.len() > 0,
    ensures
        ({
            let lengths_agree = forall|i: int, j: int|
                0 <= i < j < responses.len() ==> (#[trigger] responses[i]).content_length == (
                #[trigger] responses[j]).content_length;
            let words_agree = forall|i: int, j: int|
                0 <= i < j < responses.len() ==> (#[trigger] responses[i]).word_count == (
                #[trigger] responses[j]).word_count;
            let lines_agree = forall|i: int, j: int|
                0 <= i < j < responses.len() ==> (#[trigger] responses[i]).line_count == (
                #[trigger] responses[j]).line_count;
            let derived = common_filter(responses, dont_filter);
            &&& derived is Some <==> lengths_agree || words_agree || lines_agree
            &&& derived matches Some(filter) ==> {
                &&& lengths_agree ==> filter.content_length == Some(responses[0].content_length)
                &&& !lengths_agree ==> filter.content_length is None
                &&& words_agree ==> filter.word_count == Some(responses[0].word_count)
                &&& !words_agree ==> filter.word_count is None
                &&& lines_agree ==> filter.line_count == Some(responses[0].line_count)
                &&& !lines_agree ==> filter.line_count is None
                &&& filter.method == responses[0].method
                &&& filter.status_code == responses[0].status
                &&& filter.dont_filter == dont_filter
            }
        }),
{
    let first = responses[0];
    assert(same_content_length(responses) <==> forall|i: int, j: int|
        0 <= i < j < responses.len() ==> (#[trigger] responses[i]).content_length == (
        #[trigger] responses[j]).content_length) by {
        if same_content_length(responses) {
            assert forall|i: int, j: int| 0 <= i < j < responses.len() implies (
            #[trigger] responses[i]).content_length == (
            #[trigger] responses[j]).content_length by {
                assert(responses[i].content_length == first.content_length);
            }
        }
    }
    assert(same_word_count(responses) <==> forall|i: int, j: int|
        0 <= i < j < responses.len() ==> (#[trigger] responses[i]).word_count == (
        #[trigger] responses[j]).word_count) by {
        if same_word_count(responses) {
            assert forall|i: int, j: int| 0 <= i < j < responses.len() implies (
            #[trigger] responses[i]).word_count == (#[trigger] responses[j]).word_count by {
                assert(responses[i].word_count == first.word_count);
            }
        }
    }
    assert(same_line_count(responses) <==> forall|i: int, j: int|
        0 <= i < j < responses.len() ==> (#[trigger] responses[i]).line_count == (
        #[trigger] responses[j]).line_count) by {
        if same_line_count(responses) {
            assert forall|i: int, j: int| 0 <= i < j < responses.len() implies (
            #[trigger] responses[i]).line_count == (#[trigger] responses[j]).line_count by {
                assert(responses[i].line_count == first.line_count);
            }
        }
    }
}

/// Neither status codes nor methods, urls, texts or marks decide whether there is a filter or which
/// sizes it sets: responses of the same sizes lead to the same sizes.
pub proof fn only_sizes_decide(
    responses: Seq<FeroxResponseView>,
    others: Seq<FeroxResponseView>,
    dont_filter: bool,
)
    requires
        responses.len() > 0,
        responses.len() == others.len(),
        forall|i: int|
            0 <= i < responses.len() ==> {
                &&& (#[trigger] responses[i]).content_length == others[i].content_length
                &&& responses[i].word_count == others[i].word_count
                &&& responses[i].line_count == others[i].line_count
            },
    ensures
        match (common_filter(responses, dont_filter), common_filter(others, dont_filter)) {
            (Some(filter), Some(other)) => {
                &&& filter.content_length == other.content_length
                &&& filter.word_count == other.word_count
                &&& filter.line_count == other.line_count
            },
            (None, None) => true,
            _ => false,
        },
{
    assert forall|i: int| 0 <= i < responses.len() implies (
    #[trigger] others[i]).content_length == responses[i].content_length && others[i].word_count
        == responses[i].word_count && others[i].line_count == responses[i].line_count by {
        assert(responses[i].content_length == others[i].content_length);
    }
    assert(responses[0].content_length == others[0].content_length);
    assert(same_content_length(responses) == same_content_length(others)) by {
        if same_content_length(responses) {
            assert forall|i: int| 0 <= i < others.len() implies (
            #[trigger] others[i]).content_length == others[0].content_length by {
                assert(responses[i].content_length == responses[0].content_length);
            }
        }
    }
    assert(same_word_count(responses) == same_word_count(others)) by {
        if same_word_count(responses) {
            assert forall|i: int| 0 <= i < others.len() implies (#[trigger] others[i]).word_count
                == others[0].word_count by {
                assert(responses[i].word_count == responses[0].word_count);
            }
        }
    }
    assert(same_line_count(responses) == same_line_count(others)) by {
        if same_line_count(responses) {
            assert forall|i: int| 0 <= i < others.len() implies (#[trigger] others[i]).line_count
                == others[0].line_count by {
                assert(responses[i].line_count == responses[0].line_count);
            }
        }
    }
}

} // verus!
