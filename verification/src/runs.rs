//! What holds of a detection as a whole, whatever the server does.

use crate::config::ConfigurationView;
use crate::detection;
use crate::detection::{ActionView, DetectionView, EventView, PhaseView};
use crate::filters::WildcardFilterView;
use crate::heuristics::WildcardResult;
use crate::not_found;
use crate::response;
use crate::response::FeroxResponseView;
use vstd::prelude::*;

verus! {

/// The detection after all of `events`, the first first, and what is to be done then.
pub open spec fn run(config: ConfigurationView, events: Seq<EventView>) -> (
    DetectionView,
    ActionView,
)
    decreases events.len(),
{
    if events.len() == 0 {
        DetectionView::start(config)
    } else {
        run(config, events.drop_last()).0.step(config, events.last())
    }
}

/// Each of `events` is what the detection waited for when it came.
pub open spec fn is_run(config: ConfigurationView, events: Seq<EventView>) -> bool
    decreases events.len(),
{
    events.len() > 0 ==> {
        &&& is_run(config, events.drop_last())
        &&& run(config, events.drop_last()).0.awaits(events.last())
    }
}

/// The number of requests that were made, whether answered or not.
pub open spec fn requests(events: Seq<EventView>) -> nat
    decreases events.len(),
{
    if events.len() == 0 {
        0
    } else if events.last() is RequestFailed || events.last() is Replied {
        requests(events.drop_last()) + 1
    } else {
        requests(events.drop_last())
    }
}

/// The number of wildcard directories that were put on the list.
pub open spec fn wildcard_directories(events: Seq<EventView>) -> nat
    decreases events.len(),
{
    if events.len() == 0 {
        0
    } else if events.last() is Stored {
        wildcard_directories(events.drop_last()) + 1
    } else {
        wildcard_directories(events.drop_last())
    }
}

/// The responses to the requests with the given method: those whose bodies were read after one of
/// its four requests and before the next method's first.
pub open spec fn bodies(events: Seq<EventView>, method: nat) -> Seq<FeroxResponseView>
    decreases events.len(),
{
    if events.len() == 0 {
        Seq::empty()
    } else {
        let before = events.drop_last();
        match events.last() {
            EventView::Body(response) if 4 * method < requests(before) <= 4 * method + 4 => bodies(
                before,
                method,
            ).push(response),
            _ => bodies(before, method),
        }
    }
}

/// These responses to one method's requests show a wildcard directory: they are enough to tell,
/// they lead to a filter, and the first of them is for a directory.
pub open spec fn show_wildcard_directory(
    config: ConfigurationView,
    responses: Seq<FeroxResponseView>,
) -> bool {
    &&& responses.len() >= 2
    &&& not_found::common_filter(responses, config.dont_filter) is Some
    &&& responses[0].is_directory()
}

/// The responses to the requests with the given method show a wildcard directory.
pub open spec fn is_wildcard_method(
    config: ConfigurationView,
    events: Seq<EventView>,
    method: nat,
) -> bool {
    show_wildcard_directory(config, bodies(events, method))
}

/// How many of the first so many methods have responses that show a wildcard directory.
pub open spec fn wildcard_methods(
    config: ConfigurationView,
    events: Seq<EventView>,
    methods: nat,
) -> nat
    decreases methods,
{
    if methods == 0 {
        0
    } else if is_wildcard_method(config, events, (methods - 1) as nat) {
        wildcard_methods(config, events, (methods - 1) as nat) + 1
    } else {
        wildcard_methods(config, events, (methods - 1) as nat)
    }
}

/// Something that a detection has the caller do with what it found.
pub enum Effect {
    /// put a wildcard filter in force
    Filter(WildcardFilterView),
    /// sign a text
    Sign(Seq<char>),
    /// put a similarity filter in force that names a url
    Similarity(Seq<char>),
    /// put a response on the list
    Store(FeroxResponseView),
}

/// What the action does with something that was found, if it does.
pub open spec fn effect_of(action: ActionView) -> Option<Effect> {
    match action {
        ActionView::AddWildcardFilter { filter, .. } => Some(Effect::Filter(filter)),
        ActionView::Sign(text) => Some(Effect::Sign(text)),
        ActionView::AddSimilarityFilter(filter) => Some(Effect::Similarity(filter.original_url)),
        ActionView::Store(response) => Some(Effect::Store(response)),
        _ => None,
    }
}

/// All that the caller was asked to do with what was found, in order.
pub open spec fn effects(config: ConfigurationView, events: Seq<EventView>) -> Seq<Effect>
    decreases events.len(),
{
    if events.len() == 0 {
        Seq::empty()
    } else {
        let before = effects(config, events.drop_last());
        match effect_of(run(config, events).1) {
            Some(effect) => before.push(effect),
            None => before,
        }
    }
}

/// What is due for the responses to one method's requests: nothing where they lead to no filter,
/// else that filter, a similarity filter for the first of them, and, where that one is for a
/// directory, its place on the list.
pub open spec fn due_for(config: ConfigurationView, responses: Seq<FeroxResponseView>) -> Seq<
    Effect,
> {
    if responses.len() < 2 {
        Seq::empty()
    } else {
        match not_found::common_filter(responses, config.dont_filter) {
            None => Seq::empty(),
            Some(filter) => {
                let filters = seq![
                    Effect::Filter(filter),
                    Effect::Sign(responses[0].text),
                    Effect::Similarity(responses[0].url),
                ];
                if responses[0].is_directory() {
                    filters.push(Effect::Store(responses[0].as_wildcard()))
                } else {
                    filters
                }
            },
        }
    }
}

/// What is due for the first so many methods, one after the other.
pub open spec fn all_due(
    config: ConfigurationView,
    events: Seq<EventView>,
    methods: nat,
) -> Seq<Effect>
    decreases methods,
{
    if methods == 0 {
        Seq::empty()
    } else {
        all_due(config, events, (methods - 1) as nat) + due_for(
            config,
            bodies(events, (methods - 1) as nat),
        )
    }
}

/// What is waited for is what was asked for, and the counts are those of the events.
spec fn keeps_books(config: ConfigurationView, events: Seq<EventView>) -> bool {
    let (detection, action) = run(config, events);
    let made = requests(events);
    &&& detection.req_counter == made + 100 * wildcard_directories(events)
    &&& detection.wildcard <==> wildcard_directories(events) > 0
    &&& detection.wildcard <==> exists|method: nat|
        method < detection.method && #[trigger] is_wildcard_method(config, events, method)
    &&& wildcard_directories(events) <= detection.method <= config.methods.len()
    &&& detection.phase is Finished || {
        &&& detection.method < config.methods.len()
        &&& detection.probe < 4
        &&& match detection.phase {
            PhaseView::Reply | PhaseView::Body => detection.responses.len() <= detection.probe,
            PhaseView::Stored => true,
            _ => 2 <= detection.responses.len() <= 4,
        }
        &&& detection.phase is Stored || detection.responses == bodies(events, detection.method)
        &&& detection.phase is Reply || detection.phase is Body || detection.probe == 3
    }
    &&& match detection.phase {
        PhaseView::Reply => {
            &&& made == 4 * detection.method + detection.probe
            &&& action == ActionView::Request(
                detection::probe_for(config, detection.method, detection.probe),
            )
            &&& events.len() <= 13 * detection.method + 2 * detection.probe
        },
        PhaseView::Body => {
            &&& made == 4 * detection.method + detection.probe + 1
            &&& action == ActionView::ReadBody
            &&& events.len() <= 13 * detection.method + 2 * detection.probe + 1
            &&& events.len() > 0
            &&& events.last() matches EventView::Replied(status)
            &&& config.status_codes.contains(status)
        },
        PhaseView::Filters(filter) => {
            &&& made == 4 * detection.method + 4
            &&& action == ActionView::ListFilters
            &&& events.len() <= 13 * detection.method + 8
            &&& not_found::common_filter(detection.responses, config.dont_filter) == Some(filter)
            &&& config.output_level.shows_messages()
        },
        PhaseView::WildcardAdded => {
            &&& made == 4 * detection.method + 4
            &&& events.len() <= 13 * detection.method + 9
            &&& action matches ActionView::AddWildcardFilter { filter, announce }
            &&& not_found::common_filter(detection.responses, config.dont_filter) == Some(filter)
            &&& announced(config, events, filter) == announce
        },
        PhaseView::Signature => {
            &&& made == 4 * detection.method + 4
            &&& not_found::common_filter(detection.responses, config.dont_filter) is Some
            &&& events.len() <= 13 * detection.method + 10
            &&& action == ActionView::Sign(detection.responses[0].text)
        },
        PhaseView::SimilarityAdded => {
            &&& made == 4 * detection.method + 4
            &&& not_found::common_filter(detection.responses, config.dont_filter) is Some
            &&& events.len() <= 13 * detection.method + 11
            &&& action matches ActionView::AddSimilarityFilter(filter)
            &&& events.len() > 0
            &&& events.last() == EventView::Signature(filter.hash)
            &&& filter.original_url == detection.responses[0].url
        },
        PhaseView::Stored => {
            &&& made == 4 * detection.method + 4
            &&& events.len() <= 13 * detection.method + 12
            &&& is_wildcard_method(config, events, detection.method)
            &&& action == ActionView::Store(bodies(events, detection.method)[0].as_wildcard())
        },
        PhaseView::Finished => {
            &&& events.len() <= 13 * config.methods.len()
            &&& match action {
                ActionView::Finish(result) => {
                    &&& made == 4 * config.methods.len()
                    &&& detection.method == config.methods.len()
                    &&& result == Some(
                        detection::verdict(detection.wildcard, detection.req_counter),
                    )
                },
                ActionView::Abort => events.len() > 0 && is_failure(events.last()),
                _ => false,
            }
        },
    }
}

/// The event is one that ends the detection.
pub open spec fn is_failure(event: EventView) -> bool {
    event is BadUrl || event is AddFailed
}

/// The user is to be shown a filter that the events led to: messages are wanted at all, and the
/// filters in force, which were read last, do not hold it yet.
pub open spec fn announced(
    config: ConfigurationView,
    events: Seq<EventView>,
    filter: WildcardFilterView,
) -> bool {
    &&& config.output_level.shows_messages()
    &&& events.len() > 0
    &&& events.last() matches EventView::Filters(known)
    &&& !known.contains(filter)
}

/// A method has no responses before its first request has been made.
proof fn no_bodies_before_requests(events: Seq<EventView>, method: nat)
    requires
        requests(events) <= 4 * method,
    ensures
        bodies(events, method) == Seq::<FeroxResponseView>::empty(),
    decreases events.len(),
{
    if events.len() > 0 {
        no_bodies_before_requests(events.drop_last(), method);
    }
}

/// The books are kept by every run.
proof fn run_keeps_books(config: ConfigurationView, events: Seq<EventView>)
    requires
        !config.dont_filter,
        is_run(config, events),
    ensures
        keeps_books(config, events),
    decreases events.len(),
{
    if events.len() > 0 {
        let before = events.drop_last();
        run_keeps_books(config, before);
        let was = run(config, before).0;
        let now = run(config, events).0;
        assert forall|method: nat|
            #![trigger is_wildcard_method(config, events, method)]
            #![trigger is_wildcard_method(config, before, method)]
            method < was.method implies is_wildcard_method(config, events, method)
            == is_wildcard_method(config, before, method) by {
            assert(bodies(events, method) == bodies(before, method));
        }
        // a method is left behind with a directory stored exactly when its responses show one
        assert(now.method == was.method || now.method == was.method + 1);
        assert(now.method == was.method + 1 ==> (is_wildcard_method(config, events, was.method)
            <==> events.last() is Stored));
        if requests(events) <= 4 * now.method {
            no_bodies_before_requests(events, now.method);
        }
    }
}

/// Where nothing is to be filtered out, a detection is over before anything is requested, without
/// a result.
pub proof fn nothing_is_requested_without_filtering(
    config: ConfigurationView,
    events: Seq<EventView>,
)
    requires
        config.dont_filter,
        is_run(config, events),
    ensures
        events.len() == 0,
        run(config, events).1 == ActionView::Finish(None),
    decreases events.len(),
{
    if events.len() > 0 {
        nothing_is_requested_without_filtering(config, events.drop_last());
    }
}

/// The requests follow one another method by method, four with each: when so many have been made,
/// the one to be made next is settled, and what came of the others has no part in it.
pub proof fn requests_come_in_order(config: ConfigurationView, events: Seq<EventView>)
    requires
        is_run(config, events),
    ensures
        run(config, events).1 matches ActionView::Request(probe) ==> {
            &&& requests(events) < 4 * config.methods.len()
            &&& probe == detection::probe_for(
                config,
                requests(events) / 4,
                requests(events) % 4,
            )
        },
{
    if config.dont_filter {
        nothing_is_requested_without_filtering(config, events);
    } else {
        run_keeps_books(config, events);
    }
}

/// A detection comes to an end after at most thirteen events for each method, and until then there
/// is always something to do.
pub proof fn detection_ends(config: ConfigurationView, events: Seq<EventView>)
    requires
        is_run(config, events),
    ensures
        events.len() <= 13 * config.methods.len(),
        run(config, events).0.phase is Finished <==> (run(config, events).1 is Finish || run(
            config,
            events,
        ).1 is Abort),
{
    if config.dont_filter {
        nothing_is_requested_without_filtering(config, events);
    } else {
        run_keeps_books(config, events);
    }
}

/// The event can come of the action.
pub open spec fn answers(action: ActionView, event: EventView) -> bool {
    match action {
        ActionView::Request(_) => event is BadUrl || event is RequestFailed || event is Replied,
        ActionView::ReadBody => event is Body,
        ActionView::ListFilters => event is Filters,
        ActionView::AddWildcardFilter { .. } | ActionView::AddSimilarityFilter(_) => event is Added
            || event is AddFailed,
        ActionView::Sign(_) => event is Signature,
        ActionView::Store(_) => event is Stored,
        ActionView::Finish(_) | ActionView::Abort => false,
    }
}

/// What a detection waits for is exactly what can come of the action it asked for: a caller who
/// does what it is told and reports what came of it is always in order.
pub proof fn outcome_of_the_action_is_awaited(
    config: ConfigurationView,
    events: Seq<EventView>,
    event: EventView,
)
    requires
        is_run(config, events),
    ensures
        run(config, events).0.awaits(event) <==> answers(run(config, events).1, event),
{
    if config.dont_filter {
        nothing_is_requested_without_filtering(config, events);
    } else {
        run_keeps_books(config, events);
    }
}

/// A detection that is not cut short makes four requests with each method, and its result counts
/// them together with a hundred for each method whose responses show a wildcard directory, which
/// are as many as were put on the list.
pub proof fn result_counts_requests_and_directories(
    config: ConfigurationView,
    events: Seq<EventView>,
)
    requires
        !config.dont_filter,
        is_run(config, events),
    ensures
        run(config, events).1 matches ActionView::Finish(result) ==> {
            let directories = wildcard_methods(config, events, config.methods.len());
            &&& requests(events) == 4 * config.methods.len()
            &&& wildcard_directories(events) == directories
            &&& directories <= config.methods.len()
            &&& result == Some(
                detection::verdict(directories > 0, 4 * config.methods.len() + 100 * directories),
            )
        },
{
    run_keeps_books(config, events);
    run_does_what_is_due(config, events);
}

/// The result is a wildcard directory exactly when one was put on the list, which is to say when
/// the responses to one of the methods show one.
pub proof fn result_tells_wildcard_directories(config: ConfigurationView, events: Seq<EventView>)
    requires
        is_run(config, events),
    ensures
        run(config, events).1 matches ActionView::Finish(Some(result)) ==> {
            &&& result is WildcardDirectory <==> wildcard_directories(events) > 0
            &&& result is WildcardDirectory <==> exists|method: nat|
                method < config.methods.len() && #[trigger] is_wildcard_method(
                    config,
                    events,
                    method,
                )
        },
{
    if config.dont_filter {
        nothing_is_requested_without_filtering(config, events);
    } else {
        run_keeps_books(config, events);
    }
}

/// A failed request, an unwanted status code or a response that does not match the others never
/// ends a detection early: it is cut short exactly when no url could be made or a filter could not
/// be put in force.
pub proof fn only_failures_cut_a_detection_short(
    config: ConfigurationView,
    events: Seq<EventView>,
)
    requires
        is_run(config, events),
    ensures
        run(config, events).1 is Abort <==> events.len() > 0 && (events.last() is BadUrl
            || events.last() is AddFailed),
{
    if config.dont_filter {
        nothing_is_requested_without_filtering(config, events);
    } else {
        run_keeps_books(config, events);
        if events.len() > 0 {
            run_keeps_books(config, events.drop_last());
        }
    }
}

/// A body is read only when the status code of its reply is one that the user counts as an
/// answer.
pub proof fn only_accepted_replies_are_read(config: ConfigurationView, events: Seq<EventView>)
    requires
        is_run(config, events),
    ensures
        run(config, events).1 is ReadBody <==> events.len() > 0 && (events.last() matches
            EventView::Replied(status) && config.status_codes.contains(status)),
{
    if config.dont_filter {
        nothing_is_requested_without_filtering(config, events);
    } else {
        run_keeps_books(config, events);
        if events.len() > 0 {
            run_keeps_books(config, events.drop_last());
        }
    }
}

/// A wildcard filter is made from the responses to one method's requests, two at least, and from
/// nothing else. It agrees with every one of them, and it is shown to the user only where messages
/// are wanted and no equal filter is in force.
pub proof fn filters_come_from_one_methods_responses(
    config: ConfigurationView,
    events: Seq<EventView>,
)
    requires
        is_run(config, events),
    ensures
        run(config, events).1 matches ActionView::AddWildcardFilter { filter, announce } ==> {
            let method = run(config, events).0.method;
            let responses = bodies(events, method);
            &&& method < config.methods.len()
            &&& requests(events) == 4 * method + 4
            &&& 2 <= responses.len() <= 4
            &&& not_found::common_filter(responses, config.dont_filter) == Some(filter)
            &&& forall|i: int|
                0 <= i < responses.len() ==> filter.agrees_with(#[trigger] responses[i])
            &&& announce == announced(config, events, filter)
        },
{
    if config.dont_filter {
        nothing_is_requested_without_filtering(config, events);
    } else {
        run_keeps_books(config, events);
        let responses = bodies(events, run(config, events).0.method);
        if responses.len() > 0 {
            not_found::filter_agrees_with_every_response(responses, config.dont_filter);
        }
    }
}

/// Every wildcard filter is followed by a similarity filter: once the first is in force, the text
/// of the first response is signed, and the signature goes into a filter that names its url.
pub proof fn similarity_filter_follows(
    config: ConfigurationView,
    events: Seq<EventView>,
    hash: u64,
)
    requires
        is_run(config, events),
        run(config, events).1 is AddWildcardFilter,
    ensures
        ({
            let first = bodies(events, run(config, events).0.method)[0];
            let added = events.push(EventView::Added);
            let signed = added.push(EventView::Signature(hash));
            &&& is_run(config, signed)
            &&& run(config, added).1 == ActionView::Sign(first.text)
            &&& run(config, signed).1 matches ActionView::AddSimilarityFilter(filter)
            &&& filter.hash == hash
            &&& filter.original_url == first.url
        }),
{
    let added = events.push(EventView::Added);
    let signed = added.push(EventView::Signature(hash));
    assert(added.drop_last() =~= events);
    assert(signed.drop_last() =~= added);
    reveal_with_fuel(run, 3);
    reveal_with_fuel(is_run, 3);
    if config.dont_filter {
        nothing_is_requested_without_filtering(config, events);
    } else {
        run_keeps_books(config, events);
    }
}

/// What is put on the list of responses is the first response to a method's requests, it is for a
/// directory, and it is marked as a wildcard.
pub proof fn stored_responses_are_wildcard_directories(
    config: ConfigurationView,
    events: Seq<EventView>,
)
    requires
        is_run(config, events),
    ensures
        run(config, events).1 matches ActionView::Store(response) ==> {
            &&& response == bodies(events, run(config, events).0.method)[0].as_wildcard()
            &&& response.is_directory()
            &&& response.wildcard
        },
{
    if config.dont_filter {
        nothing_is_requested_without_filtering(config, events);
    } else {
        run_keeps_books(config, events);
    }
}

/// How much of what is due for a method has been asked for when the detection is in this phase.
spec fn asked_for(phase: PhaseView) -> int {
    match phase {
        PhaseView::WildcardAdded => 1,
        PhaseView::Signature => 2,
        PhaseView::SimilarityAdded => 3,
        PhaseView::Stored => 4,
        _ => 0,
    }
}

/// What was asked for is what is due, for the methods that are done with and so far for the one
/// under way.
spec fn does_what_is_due(config: ConfigurationView, events: Seq<EventView>) -> bool {
    let (detection, action) = run(config, events);
    action is Abort || {
        &&& wildcard_directories(events) == wildcard_methods(config, events, detection.method)
        &&& wildcard_methods(config, events, detection.method) <= detection.method
        &&& effects(config, events) == all_due(config, events, detection.method) + due_for(
            config,
            bodies(events, detection.method),
        ).take(asked_for(detection.phase))
    }
}

/// What is due for methods whose responses do not change does not change.
proof fn due_rests_on_responses(
    config: ConfigurationView,
    before: Seq<EventView>,
    events: Seq<EventView>,
    methods: nat,
)
    requires
        forall|method: nat|
            method < methods ==> #[trigger] bodies(events, method) == bodies(before, method),
    ensures
        all_due(config, events, methods) == all_due(config, before, methods),
        wildcard_methods(config, events, methods) == wildcard_methods(config, before, methods),
    decreases methods,
{
    if methods > 0 {
        due_rests_on_responses(config, before, events, (methods - 1) as nat);
        assert(bodies(events, (methods - 1) as nat) == bodies(before, (methods - 1) as nat));
    }
}

/// Every run that is not cut short does what is due.
#[verifier::rlimit(60)]
proof fn run_does_what_is_due(config: ConfigurationView, events: Seq<EventView>)
    requires
        !config.dont_filter,
        is_run(config, events),
    ensures
        does_what_is_due(config, events),
    decreases events.len(),
{
    run_keeps_books(config, events);
    if events.len() > 0 {
        let before = events.drop_last();
        let was = run(config, before).0;
        let now = run(config, events).0;
        run_keeps_books(config, before);
        run_does_what_is_due(config, before);
        assert forall|method: nat| method < was.method implies #[trigger] bodies(events, method)
            == bodies(before, method) by {
        }
        due_rests_on_responses(config, before, events, was.method);
        if !(run(config, events).1 is Abort) {
            let due_before = due_for(config, bodies(before, was.method));
            let due = due_for(config, bodies(events, was.method));
            let done = all_due(config, before, was.method);
            let asked = asked_for(was.phase);
            assert(effects(config, before) == done + due_before.take(asked));
            assert(due_before.take(0) =~= due.take(0));
            assert(due_before.take(asked) == due.take(asked));
            if now.method == was.method {
                if asked_for(now.phase) == 0 {
                    assert(effect_of(run(config, events).1) is None);
                } else {
                    assert(asked_for(now.phase) == asked + 1);
                    assert(asked + 1 <= due.len());
                    assert(effect_of(run(config, events).1) == Some(due[asked]));
                    assert(due.take(asked + 1) =~= due.take(asked).push(due[asked]));
                    assert((done + due.take(asked)).push(due[asked]) =~= done + due.take(
                        asked + 1,
                    ));
                }
            } else {
                assert(now.method == was.method + 1);
                assert(effect_of(run(config, events).1) is None);
                no_bodies_before_requests(events, now.method);
                let next = due_for(config, bodies(events, now.method));
                assert(asked == due.len());
                assert(due.take(asked) =~= due);
                assert(all_due(config, events, now.method) == done + due);
                assert(done + due + next.take(0) =~= done + due);
            }
        }
    }
}

/// A detection that is not cut short has the caller do exactly what is due for each method's
/// responses, method by method and in order: every filter that is called for and no other, and
/// every wildcard directory and nothing else on the list of responses.
pub proof fn what_is_due_is_done(config: ConfigurationView, events: Seq<EventView>)
    requires
        !config.dont_filter,
        is_run(config, events),
    ensures
        run(config, events).1 is Finish ==> effects(config, events) == all_due(
            config,
            events,
            config.methods.len(),
        ),
{
    run_keeps_books(config, events);
    run_does_what_is_due(config, events);
    let (detection, action) = run(config, events);
    if action is Finish {
        let rest = due_for(config, bodies(events, detection.method));
        assert(rest.take(0) =~= Seq::empty());
    }
}

/// The second of two events is the first, or is a failed request where the first is a reply with a
/// status code that the user does not count as an answer.
pub open spec fn is_as_good_as(
    config: ConfigurationView,
    event: EventView,
    other: EventView,
) -> bool {
    event == other || {
        &&& event matches EventView::Replied(status)
        &&& !config.status_codes.contains(status)
        &&& other is RequestFailed
    }
}

/// An unwanted status code is as good as no reply: where replies with such codes are failed
/// requests instead, everything that is asked for at any time stays the same, and so does the
/// result.
pub proof fn unwanted_replies_are_as_good_as_none(
    config: ConfigurationView,
    events: Seq<EventView>,
    others: Seq<EventView>,
)
    requires
        events.len() == others.len(),
        forall|i: int|
            0 <= i < events.len() ==> is_as_good_as(config, #[trigger] events[i], others[i]),
    ensures
        is_run(config, events) == is_run(config, others),
        forall|k: int|
            0 <= k <= events.len() ==> #[trigger] run(config, events.take(k)) == run(
                config,
                others.take(k),
            ),
        run(config, events) == run(config, others),
        effects(config, events) == effects(config, others),
    decreases events.len(),
{
    if events.len() > 0 {
        let before = events.drop_last();
        let others_before = others.drop_last();
        assert forall|i: int| 0 <= i < before.len() implies is_as_good_as(
            config,
            #[trigger] before[i],
            others_before[i],
        ) by {
            assert(is_as_good_as(config, events[i], others[i]));
        }
        unwanted_replies_are_as_good_as_none(config, before, others_before);
        assert(is_as_good_as(config, events[events.len() - 1], others[events.len() - 1]));
        assert(run(config, events) == run(config, others));
        assert forall|k: int| 0 <= k <= events.len() implies #[trigger] run(config, events.take(k))
            == run(config, others.take(k)) by {
            if k < events.len() {
                assert(events.take(k) =~= before.take(k));
                assert(others.take(k) =~= others_before.take(k));
            } else {
                assert(events.take(k) =~= events);
                assert(others.take(k) =~= others);
            }
        }
    } else {
        assert(events =~= others);
    }
}

/// Every request of every run, part by part. When `n` requests have been made, the next is made
/// with the method at position `n / 4`. Its name starts with `.htaccess` where `n % 4` is 2, with
/// `admin` where it is 3 and with nothing before its UUIDs otherwise, of which there are three where
/// `n % 4` is 1 and else one. A slash follows exactly when the user asks for one, and the body is
/// the user's exactly when there is one.
pub proof fn requests_are_the_listed_ones(config: ConfigurationView, events: Seq<EventView>)
    requires
        is_run(config, events),
    ensures
        run(config, events).1 matches ActionView::Request(probe) ==> {
            let n = requests(events);
            &&& !config.dont_filter
            &&& n < 4 * config.methods.len()
            &&& probe.method == config.methods[n as int / 4]
            &&& n % 4 == 0 ==> probe.prefix == ""@ && probe.length == 1
            &&& n % 4 == 1 ==> probe.prefix == ""@ && probe.length == 3
            &&& n % 4 == 2 ==> probe.prefix == ".htaccess"@ && probe.length == 1
            &&& n % 4 == 3 ==> probe.prefix == "admin"@ && probe.length == 1
            &&& config.add_slash ==> probe.slash == Some("/"@)
            &&& !config.add_slash ==> probe.slash is None
            &&& config.data.len() > 0 ==> probe.data == Some(config.data)
            &&& config.data.len() == 0 ==> probe.data is None
        },
{
    if config.dont_filter {
        nothing_is_requested_without_filtering(config, events);
    } else {
        run_keeps_books(config, events);
    }
}

/// Which requests are still to be made never rests on what came of the others: after as many
/// requests, two runs under the same settings ask for the same request.
pub proof fn replies_do_not_change_the_requests(
    config: ConfigurationView,
    events: Seq<EventView>,
    others: Seq<EventView>,
)
    requires
        is_run(config, events),
        is_run(config, others),
        requests(events) == requests(others),
        run(config, events).1 is Request,
        run(config, others).1 is Request,
    ensures
        run(config, events).1 == run(config, others).1,
{
    requests_come_in_order(config, events);
    requests_come_in_order(config, others);
}

/// A detection that is not cut short ends in a result whose number is four for each method and a
/// hundred for each response that was put on the list, which is one for each method whose responses
/// show a wildcard directory. The variant is that for a wildcard directory exactly when there was
/// one.
pub proof fn result_holds_the_count(config: ConfigurationView, events: Seq<EventView>)
    requires
        !config.dont_filter,
        104 * config.methods.len() <= usize::MAX,
        is_run(config, events),
    ensures
        run(config, events).1 matches ActionView::Finish(result) ==> {
            let directories = wildcard_directories(events);
            &&& directories == wildcard_methods(config, events, config.methods.len())
            &&& result matches Some(verdict)
            &&& verdict matches WildcardResult::WildcardDirectory(count) ==> {
                &&& directories > 0
                &&& count as int == 4 * config.methods.len() + 100 * directories
            }
            &&& verdict matches WildcardResult::FourOhFourLike(count) ==> {
                &&& directories == 0
                &&& count as int == 4 * config.methods.len()
            }
        },
{
    run_keeps_books(config, events);
    run_does_what_is_due(config, events);
    if run(config, events).1 is Finish {
        detection::verdicts_hold_the_count(
            run(config, events).0.wildcard,
            run(config, events).0.req_counter,
        );
    }
}

/// When both filters for a method are in force, its first response is put on the list exactly when
/// it is for a directory: a redirection (300 to 399) whose Location is its url with a slash behind
/// it, or a success (200 to 299) or a 403 whose url ends in a slash. It is put there as it came but
/// for the mark, which it bears from then on.
pub proof fn first_responses_are_stored_iff_directories(
    config: ConfigurationView,
    events: Seq<EventView>,
)
    requires
        is_run(config, events),
        run(config, events).1 is AddSimilarityFilter,
    ensures
        ({
            let added = events.push(EventView::Added);
            let first = bodies(events, run(config, events).0.method)[0];
            let redirected = 300 <= first.status <= 399 && first.location == Some(
                first.url + seq!['/'],
            );
            let answered = (200 <= first.status <= 299 || first.status == 403) && first.url.len()
                > 0 && first.url[first.url.len() - 1] == '/';
            &&& is_run(config, added)
            &&& run(config, added).1 is Store <==> redirected || answered
            &&& run(config, added).1 matches ActionView::Store(response) ==> {
                &&& response.wildcard
                &&& response.url == first.url
                &&& response.method == first.method
                &&& response.status == first.status
                &&& response.location == first.location
                &&& response.text == first.text
                &&& response.content_length == first.content_length
                &&& response.word_count == first.word_count
                &&& response.line_count == first.line_count
            }
        }),
{
    let added = events.push(EventView::Added);
    assert(added.drop_last() =~= events);
    if config.dont_filter {
        nothing_is_requested_without_filtering(config, events);
    } else {
        run_keeps_books(config, events);
        let first = bodies(events, run(config, events).0.method)[0];
        response::directories_by_status(first);
        response::marking_changes_the_mark_only(first);
    }
}

/// A response is put on the list only when a similarity filter has just been put in force.
pub proof fn responses_are_stored_after_the_filters(
    config: ConfigurationView,
    events: Seq<EventView>,
)
    requires
        is_run(config, events),
        run(config, events).1 is Store,
    ensures
        events.len() > 0,
        events.last() is Added,
        run(config, events.drop_last()).1 is AddSimilarityFilter,
{
    if config.dont_filter {
        nothing_is_requested_without_filtering(config, events);
    } else {
        run_keeps_books(config, events);
        if events.len() > 0 {
            run_keeps_books(config, events.drop_last());
        }
    }
}

/// What is shown to the user: at the levels `Default` and `Quiet` the filters in force are read
/// right before a filter is put in force, and it is shown exactly when it is not among them. At the
/// other levels nothing is.
pub proof fn new_filters_are_shown_once(config: ConfigurationView, events: Seq<EventView>)
    requires
        is_run(config, events),
    ensures
        run(config, events).1 matches ActionView::AddWildcardFilter { filter, announce } ==> {
            let wanted = config.output_level is Default || config.output_level is Quiet;
            &&& wanted ==> {
                &&& events.len() > 0
                &&& events.last() matches EventView::Filters(known)
                &&& announce <==> !known.contains(filter)
            }
            &&& !wanted ==> !announce
        },
        run(config, events).1 is ListFilters ==> config.output_level is Default
            || config.output_level is Quiet,
{
    if config.dont_filter {
        nothing_is_requested_without_filtering(config, events);
    } else {
        run_keeps_books(config, events);
        if events.len() > 0 {
            run_keeps_books(config, events.drop_last());
        }
    }
}

/// What is due for the responses to one method's requests. Nothing is where there are fewer than
/// two of them or where they agree in no size. Else the first thing is the filter that they lead to,
/// then the first response's text is signed, then a similarity filter names its url, and that is
/// all, or the response comes on the list last, where it is for a directory.
pub proof fn two_responses_that_agree_are_enough(
    config: ConfigurationView,
    responses: Seq<FeroxResponseView>,
)
    ensures
        ({
            let due = due_for(config, responses);
            let lengths_agree = forall|i: int, j: int|
                0 <= i < j < responses.len() ==> (#[trigger] responses[i]).content_length == (
                #[trigger] responses[j]).content_length;
            let words_agree = forall|i: int, j: int|
                0 <= i < j < responses.len() ==> (#[trigger] responses[i]).word_count == (
                #[trigger] responses[j]).word_count;
            let lines_agree = forall|i: int, j: int|
                0 <= i < j < responses.len() ==> (#[trigger] responses[i]).line_count == (
                #[trigger] responses[j]).line_count;
            &&& due.len() > 0 <==> responses.len() >= 2 && (lengths_agree || words_agree
                || lines_agree)
            &&& due.len() > 0 ==> {
                &&& due[0] matches Effect::Filter(filter)
                &&& not_found::common_filter(responses, config.dont_filter) == Some(filter)
                &&& due[1] == Effect::Sign(responses[0].text)
                &&& due[2] == Effect::Similarity(responses[0].url)
                &&& responses[0].is_directory() ==> due.len() == 4 && due[3] == Effect::Store(
                    responses[0].as_wildcard(),
                )
                &&& !responses[0].is_directory() ==> due.len() == 3
            }
        }),
{
    if responses.len() >= 2 {
        not_found::filter_iff_a_size_agrees(responses, config.dont_filter);
    }
}

/// What may be reported in answer to what, event by event.
pub proof fn reports_answer_actions(
    config: ConfigurationView,
    events: Seq<EventView>,
    event: EventView,
)
    requires
        is_run(config, events),
    ensures
        ({
            let (detection, action) = run(config, events);
            match event {
                EventView::BadUrl | EventView::RequestFailed | EventView::Replied(_) => {
                    detection.awaits(event) <==> action is Request
                },
                EventView::Body(_) => detection.awaits(event) <==> action is ReadBody,
                EventView::Filters(_) => detection.awaits(event) <==> action is ListFilters,
                EventView::Added | EventView::AddFailed => {
                    detection.awaits(event) <==> (action is AddWildcardFilter
                        || action is AddSimilarityFilter)
                },
                EventView::Signature(_) => detection.awaits(event) <==> action is Sign,
                EventView::Stored => detection.awaits(event) <==> action is Store,
            }
        }),
{
    outcome_of_the_action_is_awaited(config, events, event);
}

/// A run can always be gone on with: as long as everything can be counted, the detection is in
/// order after every event.
pub proof fn runs_stay_in_order(config: ConfigurationView, events: Seq<EventView>)
    requires
        104 * config.methods.len() <= usize::MAX,
        is_run(config, events),
    ensures
        run(config, events).0.is_valid(config),
{
    if config.dont_filter {
        nothing_is_requested_without_filtering(config, events);
    } else {
        run_keeps_books(config, events);
    }
}

} // verus!
