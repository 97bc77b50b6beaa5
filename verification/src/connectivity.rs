//! Finding out which targets can be reached at all.
//!
//! The caller tries one target at a time: it asks [`ConnectivityCheck::pending`] for the target,
//! sends a request there, and tells [`ConnectivityCheck::report`] what came of it.

use crate::config::OutputLevel;
use crate::heuristics::HeuristicTests;
use crate::text;
use vstd::prelude::*;

verus! {

/// What came of trying one target.
#[derive(Clone, Debug)]
pub enum Reachability {
    /// no request could be made: the target is not a url
    Malformed,

    /// the server answered
    Reached,

    /// the request failed, with this error
    Failed(String),
}

/// What came of trying one target, as a mathematical value.
pub enum ReachabilityView {
    Malformed,
    Reached,
    Failed(Seq<char>),
}

impl View for Reachability {
    type V = ReachabilityView;

    open spec fn view(&self) -> ReachabilityView {
        match self {
            Reachability::Malformed => ReachabilityView::Malformed,
            Reachability::Reached => ReachabilityView::Reached,
            Reachability::Failed(error) => ReachabilityView::Failed(error@),
        }
    }
}

/// No target could be reached.
#[derive(Copy, Clone, Debug, PartialEq, Eq, Structural)]
pub struct Unreachable;

impl Unreachable {
    /// The error as a sentence.
    pub fn message(self) -> (message: &'static str)
        ensures
            message@ == "Could not connect to any target provided"@,
    {
        "Could not connect to any target provided"
    }
}

/// A check of several targets that is under way.
pub struct ConnectivityCheck<'a> {
    target_urls: &'a [String],
    tried: usize,
    good_urls: Vec<String>,
    output_level: OutputLevel,
}

/// A check that is under way, as a mathematical value.
pub struct ConnectivityView {
    /// all targets
    pub target_urls: Seq<Seq<char>>,
    /// how many of them have been tried
    pub tried: nat,
    /// those that could be reached so far
    pub good_urls: Seq<Seq<char>>,
    pub output_level: OutputLevel,
}

/// The texts of a sequence of strings.
pub open spec fn texts(strings: Seq<String>) -> Seq<Seq<char>> {
    strings.map_values(|string: String| string@)
}

/// The line to show for a request to `target_url` that failed with this error.
pub open spec fn failure_line(target_url: Seq<char>, error: Seq<char>) -> Seq<char> {
    if text::occurs_in(":SSL"@, error) {
        "Could not connect to "@ + target_url
            + " due to SSL errors (run with -k to ignore), skipping..."@
    } else {
        "Could not connect to "@ + target_url + ", skipping..."@
    }
}

impl ConnectivityView {
    /// A check of which nothing is done yet.
    pub open spec fn start(
        target_urls: Seq<Seq<char>>,
        output_level: OutputLevel,
    ) -> ConnectivityView {
        ConnectivityView { target_urls, tried: 0, good_urls: Seq::empty(), output_level }
    }

    /// A target is left to be tried.
    pub open spec fn is_pending(self) -> bool {
        self.tried < self.target_urls.len()
    }

    /// The check after one more target has been tried.
    pub open spec fn after(self, outcome: ReachabilityView) -> ConnectivityView {
        ConnectivityView {
            tried: self.tried + 1,
            good_urls: if outcome is Reached {
                self.good_urls.push(self.target_urls[self.tried as int])
            } else {
                self.good_urls
            },
            ..self
        }
    }

    /// What is to be shown about the target just tried, if anything.
    pub open spec fn line(self, outcome: ReachabilityView) -> Option<Seq<char>> {
        match outcome {
            ReachabilityView::Failed(error) if self.output_level.shows_messages() => Some(
                failure_line(self.target_urls[self.tried as int], error),
            ),
            _ => None,
        }
    }

    /// The check after all of `outcomes`, the first first.
    pub open spec fn after_all(self, outcomes: Seq<ReachabilityView>) -> ConnectivityView
        decreases outcomes.len(),
    {
        if outcomes.len() == 0 {
            self
        } else {
            self.after_all(outcomes.drop_last()).after(outcomes.last())
        }
    }
}

impl View for ConnectivityCheck<'_> {
    type V = ConnectivityView;

    closed spec fn view(&self) -> ConnectivityView {
        ConnectivityView {
            target_urls: texts(self.target_urls@),
            tried: self.tried as nat,
            good_urls: texts(self.good_urls@),
            output_level: self.output_level,
        }
    }
}

impl HeuristicTests {
    /// Simply tries to connect to all given sites before starting to scan
    ///
    /// In the event that no sites can be reached, the check ends in an error.
    ///
    /// Any urls that are found to be alive are returned to the caller.
    pub fn connectivity<'a>(&self, target_urls: &'a [String]) -> (check: ConnectivityCheck<'a>)
        ensures
            check@ == ConnectivityView::start(
                texts(target_urls@),
                self.handles.config.output_level,
            ),
    {
        let check = ConnectivityCheck {
            target_urls,
            tried: 0,
            good_urls: Vec::new(),
            output_level: self.handles.config.output_level,
        };
        assert(check@.good_urls =~= Seq::<Seq<char>>::empty());
        check
    }
}

impl<'a> ConnectivityCheck<'a> {
    /// The target to try next, or nothing once all have been tried.
    pub fn pending(&self) -> (target_url: Option<&'a String>)
        ensures
            target_url is Some <==> self@.is_pending(),
            target_url matches Some(url) ==> url@ == self@.target_urls[self@.tried as int],
    {
        if self.tried < self.target_urls.len() {
            Some(&self.target_urls[self.tried])
        } else {
            None
        }
    }

    /// Takes down what came of trying the pending target, and says what to show about it.
    pub fn report(&mut self, outcome: &Reachability) -> (line: Option<String>)
        requires
            old(self)@.is_pending(),
        ensures
            final(self)@ == old(self)@.after(outcome@),
            match (line, old(self)@.line(outcome@)) {
                (Some(shown), Some(expected)) => shown@ == expected,
                (None, None) => true,
                _ => false,
            },
    {
        let target_url = &self.target_urls[self.tried];
        self.tried = self.tried + 1;
        match outcome {
            Reachability::Malformed => None,
            Reachability::Reached => {
                self.good_urls.push(target_url.clone());
                assert(self@.good_urls =~= old(self)@.after(outcome@).good_urls);
                None
            },
            Reachability::Failed(error) => {
                if self.output_level.prints_messages() {
                    let start = "Could not connect to ".to_owned().concat(target_url.as_str());
                    if text::contains(error.as_str(), ":SSL") {
                        Some(
                            start.concat(
                                " due to SSL errors (run with -k to ignore), skipping...",
                            ),
                        )
                    } else {
                        Some(start.concat(", skipping..."))
                    }
                } else {
                    None
                }
            },
        }
    }

    /// The targets that could be reached, or an error where none could.
    pub fn finish(self) -> (reached: Result<Vec<String>, Unreachable>)
        ensures
            reached is Err <==> self@.good_urls.len() == 0,
            reached matches Ok(urls) ==> texts(urls@) == self@.good_urls,
    {
        if self.good_urls.len() == 0 {
            Err(Unreachable)
        } else {
            Ok(self.good_urls)
        }
    }
}

/// The targets whose outcome says that they were reached, in the order of the targets.
pub open spec fn reached_targets(
    target_urls: Seq<Seq<char>>,
    outcomes: Seq<ReachabilityView>,
) -> Seq<Seq<char>>
    decreases outcomes.len(),
{
    if outcomes.len() == 0 {
        Seq::empty()
    } else {
        let before = reached_targets(target_urls, outcomes.drop_last());
        if outcomes.last() is Reached {
            before.push(target_urls[outcomes.len() - 1])
        } else {
            before
        }
    }
}

/// Once as many outcomes are in as there are targets, nothing is pending, and the targets handed
/// out are those whose outcome says that they were reached, in order: malformed and failed targets
/// are left out and nothing else is.
pub proof fn check_keeps_reached_targets(
    target_urls: Seq<Seq<char>>,
    output_level: OutputLevel,
    outcomes: Seq<ReachabilityView>,
)
    requires
        outcomes.len() <= target_urls.len(),
    ensures
        ({
            let end = ConnectivityView::start(target_urls, output_level).after_all(outcomes);
            &&& end.target_urls == target_urls
            &&& end.output_level == output_level
            &&& end.tried == outcomes.len()
            &&& end.is_pending() <==> outcomes.len() < target_urls.len()
            &&& end.good_urls == reached_targets(target_urls, outcomes)
        }),
    decreases outcomes.len(),
{
    if outcomes.len() > 0 {
        check_keeps_reached_targets(target_urls, output_level, outcomes.drop_last());
    }
}

/// The check of all targets ends in an error exactly when not one of them was reached.
pub proof fn check_fails_iff_nothing_was_reached(
    target_urls: Seq<Seq<char>>,
    output_level: OutputLevel,
    outcomes: Seq<ReachabilityView>,
)
    requires
        outcomes.len() <= target_urls.len(),
    ensures
        ConnectivityView::start(target_urls, output_level).after_all(outcomes).good_urls.len() == 0
            <==> forall|i: int| 0 <= i < outcomes.len() ==> !(#[trigger] outcomes[i] is Reached),
    decreases outcomes.len(),
{
    if outcomes.len() > 0 {
        let before = outcomes.drop_last();
        check_fails_iff_nothing_was_reached(target_urls, output_level, before);
        assert(outcomes.last() == outcomes[outcomes.len() - 1]);
        assert forall|i: int| 0 <= i < before.len() implies before[i] == #[trigger] outcomes[i] by {
        }
        if forall|i: int| 0 <= i < before.len() ==> !(#[trigger] before[i] is Reached) {
            assert forall|i: int| 0 <= i < outcomes.len() && !(outcomes.last() is Reached) implies
                !(#[trigger] outcomes[i] is Reached) by {
                if i < before.len() {
                    assert(before[i] == outcomes[i]);
                }
            }
        } else {
            let k = choose|i: int| 0 <= i < before.len() && #[trigger] before[i] is Reached;
            assert(outcomes[k] is Reached);
        }
    }
}

/// A target is handed out only if it was reached: each url handed out is a target whose outcome
/// says so.
pub proof fn only_reached_targets_are_kept(
    target_urls: Seq<Seq<char>>,
    outcomes: Seq<ReachabilityView>,
    url: Seq<char>,
)
    requires
        outcomes.len() <= target_urls.len(),
    ensures
        reached_targets(target_urls, outcomes).contains(url) <==> exists|i: int|
            0 <= i < outcomes.len() && #[trigger] outcomes[i] is Reached && target_urls[i] == url,
    decreases outcomes.len(),
{
    if outcomes.len() > 0 {
        let before = outcomes.drop_last();
        let kept = reached_targets(target_urls, before);
        let last = outcomes.len() - 1;
        only_reached_targets_are_kept(target_urls, before, url);
        assert(outcomes.last() == outcomes[last]);
        if kept.contains(url) {
            let i = choose|i: int|
                0 <= i < before.len() && #[trigger] before[i] is Reached && target_urls[i] == url;
            assert(outcomes[i] is Reached);
            let at = choose|at: int| 0 <= at < kept.len() && kept[at] == url;
            assert(reached_targets(target_urls, outcomes)[at] == url);
        } else if outcomes.last() is Reached && target_urls[last] == url {
            assert(reached_targets(target_urls, outcomes).last() == url);
        } else {
            assert forall|i: int| 0 <= i < outcomes.len() implies !(#[trigger] outcomes[i] is Reached
                && target_urls[i] == url) by {
                if i < last {
                    assert(before[i] == outcomes[i]);
                }
            }
        }
    }
}

/// Something is shown about a target exactly when the request to it failed and messages are wanted.
pub proof fn only_failures_are_shown(check: ConnectivityView, outcome: ReachabilityView)
    ensures
        check.line(outcome) is Some <==> outcome is Failed && check.output_level.shows_messages(),
{
}

/// What is shown about a target whose request failed: nothing where messages are not wanted, else
/// that it could not be connected to, with the reason and the remedy exactly where the error speaks
/// of `:SSL`.
pub proof fn failures_are_shown_with_their_reason(check: ConnectivityView, error: Seq<char>)
    requires
        check.tried < check.target_urls.len(),
    ensures
        ({
            let url = check.target_urls[check.tried as int];
            let line = check.line(ReachabilityView::Failed(error));
            let wanted = check.output_level is Default || check.output_level is Quiet;
            &&& !wanted ==> line is None
            &&& wanted && text::occurs_in(":SSL"@, error) ==> line == Some(
                "Could not connect to "@ + url
                    + " due to SSL errors (run with -k to ignore), skipping..."@,
            )
            &&& wanted && !text::occurs_in(":SSL"@, error) ==> line == Some(
                "Could not connect to "@ + url + ", skipping..."@,
            )
        }),
        check.line(ReachabilityView::Reached) is None,
        check.line(ReachabilityView::Malformed) is None,
{
}

/// One outcome adds the target that was pending to those reached, if it was reached, and nothing
/// else, and makes the next target the pending one.
pub proof fn each_outcome_settles_one_target(check: ConnectivityView, outcome: ReachabilityView)
    requires
        check.tried < check.target_urls.len(),
    ensures
        check.is_pending(),
        ({
            let after = check.after(outcome);
            &&& after.tried == check.tried + 1
            &&& after.target_urls == check.target_urls
            &&& after.output_level == check.output_level
            &&& after.is_pending() <==> check.tried + 1 < check.target_urls.len()
            &&& outcome is Reached ==> after.good_urls == check.good_urls
                + seq![check.target_urls[check.tried as int]]
            &&& !(outcome is Reached) ==> after.good_urls == check.good_urls
        }),
{
    assert(check.good_urls.push(check.target_urls[check.tried as int]) =~= check.good_urls
        + seq![check.target_urls[check.tried as int]]);
}

/// A check begins with nothing tried and nothing reached.
pub proof fn checks_begin_empty(target_urls: Seq<Seq<char>>, output_level: OutputLevel)
    ensures
        ({
            let start = ConnectivityView::start(target_urls, output_level);
            &&& start.tried == 0
            &&& start.good_urls.len() == 0
            &&& start.target_urls == target_urls
            &&& start.output_level == output_level
            &&& start.is_pending() <==> target_urls.len() > 0
        }),
{
}

/// Outcomes and strings are seen as they are.
pub proof fn outcomes_are_seen_as_they_are(outcome: Reachability, strings: Seq<String>)
    ensures
        outcome is Malformed <==> outcome@ is Malformed,
        outcome is Reached <==> outcome@ is Reached,
        outcome matches Reachability::Failed(error) ==> outcome@
            == ReachabilityView::Failed(error@),
        texts(strings).len() == strings.len(),
        forall|i: int| 0 <= i < strings.len() ==> #[trigger] texts(strings)[i] == strings[i]@,
{
}

} // verus!
