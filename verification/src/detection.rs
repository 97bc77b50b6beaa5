//! The requests that show what a server sends for things that do not exist, one step at a time.
//!
//! [`HeuristicTests::detect_404_like_responses`] starts a detection and says what to do first.
//! From then on the caller does what it is told and reports what came of it, and
//! [`HeuristicTests::detection_step`] says what to do next, until the detection is finished.

use crate::config::{Configuration, ConfigurationView};
use crate::filters;
use crate::filters::{
    SimilarityFilter, SimilarityFilterView, WildcardFilter, WildcardFilterView,
};
use crate::heuristics::{HeuristicTests, WildcardResult};
use crate::not_found;
use crate::response;
use crate::response::{FeroxResponse, FeroxResponseView};
use crate::unique;
use vstd::prelude::*;

verus! {

/// How many requests are made with each method.
pub const PROBES_PER_METHOD: usize = 4;

/// How many responses it takes to tell anything from them.
pub const RESPONSES_NEEDED: usize = 2;

/// What a wildcard directory adds to the number of requests.
pub const WILDCARD_MARK: usize = 100;

/// A request to be made for a name that does not exist.
#[derive(Copy, Clone, Debug)]
pub struct Probe<'a> {
    /// HTTP method of the request
    pub method: &'a str,

    /// what the name starts with
    pub prefix: &'static str,

    /// how many UUIDs the name goes on with
    pub length: usize,

    /// what to put behind the name, if anything
    pub slash: Option<&'static str>,

    /// body of the request, if it has one
    pub data: Option<&'a [u8]>,
}

/// A request to be made, as a mathematical value.
pub struct ProbeView {
    pub method: Seq<char>,
    pub prefix: Seq<char>,
    pub length: nat,
    pub slash: Option<Seq<char>>,
    pub data: Option<Seq<u8>>,
}

impl View for Probe<'_> {
    type V = ProbeView;

    open spec fn view(&self) -> ProbeView {
        ProbeView {
            method: self.method@,
            prefix: self.prefix@,
            length: self.length as nat,
            slash: match self.slash {
                Some(slash) => Some(slash@),
                None => None,
            },
            data: match self.data {
                Some(data) => Some(data@),
                None => None,
            },
        }
    }
}

/// What the caller is to do.
#[derive(Debug)]
pub enum DetectionAction<'a> {
    /// request a page that does not exist
    Request(Probe<'a>),

    /// read the body of the reply that just came
    ReadBody,

    /// read the list of wildcard filters that are in force
    ListFilters,

    /// put a filter in force, after showing it to the user where `announce` says so
    AddWildcardFilter { filter: Box<WildcardFilter>, announce: bool },

    /// compute the signature of a text
    Sign(String),

    /// put a filter in force
    AddSimilarityFilter(SimilarityFilter),

    /// add a response to the list of all responses
    Store(FeroxResponse),

    /// nothing: the detection is over, with this result
    Finish(Option<WildcardResult>),

    /// nothing: the detection is over because of the failure just reported
    Abort,
}

/// What the caller is to do, as a mathematical value.
pub enum ActionView {
    Request(ProbeView),
    ReadBody,
    ListFilters,
    AddWildcardFilter { filter: WildcardFilterView, announce: bool },
    Sign(Seq<char>),
    AddSimilarityFilter(SimilarityFilterView),
    Store(FeroxResponseView),
    Finish(Option<WildcardResult>),
    Abort,
}

impl View for DetectionAction<'_> {
    type V = ActionView;

    open spec fn view(&self) -> ActionView {
        match self {
            DetectionAction::Request(probe) => ActionView::Request(probe@),
            DetectionAction::ReadBody => ActionView::ReadBody,
            DetectionAction::ListFilters => ActionView::ListFilters,
            DetectionAction::AddWildcardFilter { filter, announce } => {
                ActionView::AddWildcardFilter { filter: filter@, announce: *announce }
            },
            DetectionAction::Sign(text) => ActionView::Sign(text@),
            DetectionAction::AddSimilarityFilter(filter) => {
                ActionView::AddSimilarityFilter(filter@)
            },
            DetectionAction::Store(response) => ActionView::Store(response@),
            DetectionAction::Finish(result) => ActionView::Finish(*result),
            DetectionAction::Abort => ActionView::Abort,
        }
    }
}

/// What came of the last action.
#[derive(Debug)]
pub enum DetectionEvent {
    /// no url could be made for the request
    BadUrl,

    /// the request was made and failed
    RequestFailed,

    /// the request was answered with this status code
    Replied(u16),

    /// the body has been read
    Body(FeroxResponse),

    /// the wildcard filters that are in force
    Filters(Vec<WildcardFilter>),

    /// the filter is in force
    Added,

    /// the filter could not be put in force
    AddFailed,

    /// the signature of the text
    Signature(u64),

    /// the response is on the list
    Stored,
}

/// What came of the last action, as a mathematical value.
pub enum EventView {
    BadUrl,
    RequestFailed,
    Replied(u16),
    Body(FeroxResponseView),
    Filters(Seq<WildcardFilterView>),
    Added,
    AddFailed,
    Signature(u64),
    Stored,
}

impl View for DetectionEvent {
    type V = EventView;

    open spec fn view(&self) -> EventView {
        match self {
            DetectionEvent::BadUrl => EventView::BadUrl,
            DetectionEvent::RequestFailed => EventView::RequestFailed,
            DetectionEvent::Replied(status) => EventView::Replied(*status),
            DetectionEvent::Body(response) => EventView::Body(response@),
            DetectionEvent::Filters(known) => EventView::Filters(filters::views(known@)),
            DetectionEvent::Added => EventView::Added,
            DetectionEvent::AddFailed => EventView::AddFailed,
            DetectionEvent::Signature(hash) => EventView::Signature(*hash),
            DetectionEvent::Stored => EventView::Stored,
        }
    }
}

/// What a detection is waiting for.
enum Phase {
    Reply,
    Body,
    Filters(Box<WildcardFilter>),
    WildcardAdded,
    Signature,
    SimilarityAdded,
    Stored,
    Finished,
}

/// What a detection is waiting for, as a mathematical value.
pub enum PhaseView {
    /// the reply to a request
    Reply,
    /// the body of a reply
    Body,
    /// the filters in force, this one being about to join them
    Filters(WildcardFilterView),
    /// the wildcard filter to be put in force
    WildcardAdded,
    /// the signature of the first response
    Signature,
    /// the similarity filter to be put in force
    SimilarityAdded,
    /// the first response to be put on the list
    Stored,
    /// nothing any more
    Finished,
}

impl Phase {
    closed spec fn view(&self) -> PhaseView {
        match self {
            Phase::Reply => PhaseView::Reply,
            Phase::Body => PhaseView::Body,
            Phase::Filters(filter) => PhaseView::Filters(filter@),
            Phase::WildcardAdded => PhaseView::WildcardAdded,
            Phase::Signature => PhaseView::Signature,
            Phase::SimilarityAdded => PhaseView::SimilarityAdded,
            Phase::Stored => PhaseView::Stored,
            Phase::Finished => PhaseView::Finished,
        }
    }
}

/// A detection that is under way.
pub struct Detection {
    phase: Phase,
    method: usize,
    probe: usize,
    req_counter: usize,
    wildcard: bool,
    responses: Vec<FeroxResponse>,
}

/// A detection that is under way, as a mathematical value.
pub struct DetectionView {
    /// what it is waiting for
    pub phase: PhaseView,
    /// which of the methods it has come to
    pub method: nat,
    /// which of the requests with this method it has come to
    pub probe: nat,
    /// how many requests were made, and the marks of all wildcard directories
    pub req_counter: nat,
    /// a wildcard directory was found
    pub wildcard: bool,
    /// the responses to the requests with this method
    pub responses: Seq<FeroxResponseView>,
}

impl View for Detection {
    type V = DetectionView;

    closed spec fn view(&self) -> DetectionView {
        DetectionView {
            phase: self.phase.view(),
            method: self.method as nat,
            probe: self.probe as nat,
            req_counter: self.req_counter as nat,
            wildcard: self.wildcard,
            responses: response::views(self.responses@),
        }
    }
}

/// The start of the name that the given one of a method's requests is for.
pub open spec fn probe_prefix(probe: nat) -> Seq<char> {
    if probe == 2 {
        ".htaccess"@
    } else if probe == 3 {
        "admin"@
    } else {
        ""@
    }
}

/// How many UUIDs the name goes on with.
pub open spec fn probe_length(probe: nat) -> nat {
    if probe == 1 {
        3
    } else {
        1
    }
}

/// The given one of the requests with the given method.
pub open spec fn probe_for(config: ConfigurationView, method: nat, probe: nat) -> ProbeView {
    ProbeView {
        method: config.methods[method as int],
        prefix: probe_prefix(probe),
        length: probe_length(probe),
        slash: if config.add_slash {
            Some("/"@)
        } else {
            None
        },
        data: if config.data.len() == 0 {
            None
        } else {
            Some(config.data)
        },
    }
}

/// The result of a detection: whether it found a wildcard directory, and its count.
pub open spec fn verdict(wildcard: bool, req_counter: nat) -> WildcardResult {
    if wildcard {
        WildcardResult::WildcardDirectory(req_counter as usize)
    } else {
        WildcardResult::FourOhFourLike(req_counter as usize)
    }
}

/// The most that this many methods can count up to: four requests and one mark for each.
pub open spec fn most_counted(methods: nat) -> nat {
    104 * methods
}

/// The methods are few enough for everything to be counted.
pub open spec fn is_countable(config: ConfigurationView) -> bool {
    most_counted(config.methods.len()) <= usize::MAX
}

impl DetectionView {
    /// The detection once it is over.
    pub open spec fn finished(self) -> DetectionView {
        DetectionView { phase: PhaseView::Finished, responses: Seq::empty(), ..self }
    }

    /// Goes on with the given method, from its first request on, or ends where there is no such
    /// method.
    pub open spec fn at_method(
        config: ConfigurationView,
        method: nat,
        req_counter: nat,
        wildcard: bool,
    ) -> (DetectionView, ActionView) {
        let fresh = DetectionView {
            phase: PhaseView::Reply,
            method,
            probe: 0,
            req_counter,
            wildcard,
            responses: Seq::empty(),
        };
        if method < config.methods.len() {
            (fresh, ActionView::Request(probe_for(config, method, 0)))
        } else {
            (fresh.finished(), ActionView::Finish(Some(verdict(wildcard, req_counter))))
        }
    }

    /// Starts a detection.
    pub open spec fn start(config: ConfigurationView) -> (DetectionView, ActionView) {
        if config.dont_filter {
            (Self::at_method(config, 0, 0, false).0.finished(), ActionView::Finish(None))
        } else {
            Self::at_method(config, 0, 0, false)
        }
    }

    /// Goes on when one request has been dealt with: with the next, or with what all of them
    /// show.
    pub open spec fn after_probe(self, config: ConfigurationView) -> (DetectionView, ActionView) {
        if self.probe + 1 < PROBES_PER_METHOD {
            (
                DetectionView { phase: PhaseView::Reply, probe: self.probe + 1, ..self },
                ActionView::Request(probe_for(config, self.method, self.probe + 1)),
            )
        } else {
            self.judge(config)
        }
    }

    /// Goes on when all requests with a method have been dealt with: with the filter that the
    /// responses lead to, or with the next method where they lead to none or are too few.
    pub open spec fn judge(self, config: ConfigurationView) -> (DetectionView, ActionView) {
        if self.responses.len() < RESPONSES_NEEDED {
            self.next_method(config)
        } else {
            match not_found::common_filter(self.responses, config.dont_filter) {
                None => self.next_method(config),
                Some(filter) => if config.output_level.shows_messages() {
                    (
                        DetectionView { phase: PhaseView::Filters(filter), ..self },
                        ActionView::ListFilters,
                    )
                } else {
                    self.add_wildcard(filter, false)
                },
            }
        }
    }

    /// Goes on with putting a filter in force.
    pub open spec fn add_wildcard(self, filter: WildcardFilterView, announce: bool) -> (
        DetectionView,
        ActionView,
    ) {
        (
            DetectionView { phase: PhaseView::WildcardAdded, ..self },
            ActionView::AddWildcardFilter { filter, announce },
        )
    }

    /// Goes on with the next method.
    pub open spec fn next_method(self, config: ConfigurationView) -> (DetectionView, ActionView) {
        Self::at_method(config, self.method + 1, self.req_counter, self.wildcard)
    }

    /// The same detection with one more request counted.
    pub open spec fn counted(self) -> DetectionView {
        DetectionView { req_counter: self.req_counter + 1, ..self }
    }

    /// This is what the detection waits for.
    pub open spec fn awaits(self, event: EventView) -> bool {
        match self.phase {
            PhaseView::Reply => event is BadUrl || event is RequestFailed || event is Replied,
            PhaseView::Body => event is Body,
            PhaseView::Filters(_) => event is Filters,
            PhaseView::WildcardAdded | PhaseView::SimilarityAdded => event is Added
                || event is AddFailed,
            PhaseView::Signature => event is Signature,
            PhaseView::Stored => event is Stored,
            PhaseView::Finished => false,
        }
    }

    /// Goes on when what the detection waited for has come.
    pub open spec fn step(self, config: ConfigurationView, event: EventView) -> (
        DetectionView,
        ActionView,
    ) {
        match (self.phase, event) {
            (PhaseView::Reply, EventView::RequestFailed) => self.counted().after_probe(config),
            (PhaseView::Reply, EventView::Replied(status)) => if config.status_codes.contains(
                status,
            ) {
                (
                    DetectionView { phase: PhaseView::Body, ..self.counted() },
                    ActionView::ReadBody,
                )
            } else {
                self.counted().after_probe(config)
            },
            (PhaseView::Body, EventView::Body(response)) => DetectionView {
                responses: self.responses.push(response),
                ..self
            }.after_probe(config),
            (PhaseView::Filters(filter), EventView::Filters(known)) => self.add_wildcard(
                filter,
                !known.contains(filter),
            ),
            (PhaseView::WildcardAdded, EventView::Added) => (
                DetectionView { phase: PhaseView::Signature, ..self },
                ActionView::Sign(self.responses[0].text),
            ),
            (PhaseView::Signature, EventView::Signature(hash)) => (
                DetectionView { phase: PhaseView::SimilarityAdded, ..self },
                ActionView::AddSimilarityFilter(
                    SimilarityFilterView { hash, original_url: self.responses[0].url },
                ),
            ),
            (PhaseView::SimilarityAdded, EventView::Added) => if self.responses[0].is_directory() {
                (
                    DetectionView { phase: PhaseView::Stored, responses: Seq::empty(), ..self },
                    ActionView::Store(self.responses[0].as_wildcard()),
                )
            } else {
                self.next_method(config)
            },
            (PhaseView::Stored, EventView::Stored) => Self::at_method(
                config,
                self.method + 1,
                (self.req_counter + WILDCARD_MARK) as nat,
                true,
            ),
            _ => (self.finished(), ActionView::Abort),
        }
    }

    /// The detection is under way and in order.
    pub open spec fn is_valid(self, config: ConfigurationView) -> bool {
        self.phase is Finished || {
            &&& is_countable(config)
            &&& self.method < config.methods.len()
            &&& self.probe < PROBES_PER_METHOD
            &&& match self.phase {
                PhaseView::Reply => {
                    &&& self.responses.len() <= self.probe
                    &&& self.req_counter <= most_counted(self.method) + self.probe
                },
                PhaseView::Body => {
                    &&& self.responses.len() <= self.probe
                    &&& self.req_counter <= most_counted(self.method) + self.probe + 1
                },
                PhaseView::Stored => self.req_counter <= most_counted(self.method)
                    + PROBES_PER_METHOD,
                _ => {
                    &&& RESPONSES_NEEDED <= self.responses.len() <= PROBES_PER_METHOD
                    &&& self.req_counter <= most_counted(self.method) + PROBES_PER_METHOD
                },
            }
        }
    }
}

impl Configuration {
    /// Whether the methods are few enough for everything to be counted.
    pub fn can_be_counted(&self) -> (countable: bool)
        ensures
            countable == is_countable(self@),
    {
        self.methods.len() <= usize::MAX / 104
    }

    /// The given one of the requests with the given method.
    fn probe<'a>(&'a self, method: usize, probe: usize) -> (request: Probe<'a>)
        requires
            method < self.methods@.len(),
        ensures
            request@ == probe_for(self@, method as nat, probe as nat),
    {
        let prefix = if probe == 2 {
            ".htaccess"
        } else if probe == 3 {
            "admin"
        } else {
            ""
        };
        let length: usize = if probe == 1 {
            3
        } else {
            1
        };
        Probe {
            method: self.methods[method].as_str(),
            prefix,
            length,
            slash: self.slash(),
            data: self.request_body(),
        }
    }
}

impl HeuristicTests {
    /// A path for the given request: a name that starts as it says and goes on with random UUIDs,
    /// so that nothing of that name is to be expected on the server.
    pub fn probe_path(&self, probe: &Probe) -> (path: String)
        ensures
            path@.len() >= probe.prefix@.len(),
            path@.take(probe.prefix@.len() as int) == probe.prefix@,
            unique::is_unique_text(
                path@.skip(probe.prefix@.len() as int),
                probe.length as nat,
            ),
    {
        let unique_id = self.unique_string(probe.length);
        let path = probe.prefix.to_owned().concat(unique_id.as_str());
        assert(path@.take(probe.prefix@.len() as int) =~= probe.prefix@);
        assert(path@.skip(probe.prefix@.len() as int) =~= unique_id@);
        path
    }

    /// Goes on with the given method, or ends.
    fn at_method<'a>(&'a self, method: usize, req_counter: usize, wildcard: bool) -> (next: (
        Detection,
        DetectionAction<'a>,
    ))
        requires
            is_countable(self.handles.config@),
            method <= self.handles.config.methods@.len(),
            req_counter <= most_counted(method as nat),
        ensures
            (next.0@, next.1@) == DetectionView::at_method(
                self.handles.config@,
                method as nat,
                req_counter as nat,
                wildcard,
            ),
            next.0@.is_valid(self.handles.config@),
    {
        let config = &self.handles.config;
        let responses: Vec<FeroxResponse> = Vec::new();
        assert(response::views(responses@) =~= Seq::empty());
        if method < config.methods.len() {
            let request = config.probe(method, 0);
            (
                Detection {
                    phase: Phase::Reply,
                    method,
                    probe: 0,
                    req_counter,
                    wildcard,
                    responses,
                },
                DetectionAction::Request(request),
            )
        } else {
            let result = if wildcard {
                WildcardResult::WildcardDirectory(req_counter)
            } else {
                WildcardResult::FourOhFourLike(req_counter)
            };
            (
                Detection {
                    phase: Phase::Finished,
                    method,
                    probe: 0,
                    req_counter,
                    wildcard,
                    responses,
                },
                DetectionAction::Finish(Some(result)),
            )
        }
    }

    /// given a target's base url, attempt to automatically detect its 404 response
    /// pattern(s), and then set filters that will exclude those patterns from future
    /// responses
    ///
    /// What comes back is the detection and the first thing to be done for it.
    pub fn detect_404_like_responses<'a>(&'a self) -> (next: (Detection, DetectionAction<'a>))
        requires
            self.handles.config.dont_filter || is_countable(self.handles.config@),
        ensures
            (next.0@, next.1@) == DetectionView::start(self.handles.config@),
            next.0@.is_valid(self.handles.config@),
    {
        if self.handles.config.dont_filter {
            // early return, dont_filter scans don't need tested
            let responses: Vec<FeroxResponse> = Vec::new();
            assert(response::views(responses@) =~= Seq::empty());
            (
                Detection {
                    phase: Phase::Finished,
                    method: 0,
                    probe: 0,
                    req_counter: 0,
                    wildcard: false,
                    responses,
                },
                DetectionAction::Finish(None),
            )
        } else {
            self.at_method(0, 0, false)
        }
    }

    /// Goes on when one request has been dealt with.
    fn after_probe<'a>(&'a self, detection: Detection) -> (next: (Detection, DetectionAction<'a>))
        requires
            is_countable(self.handles.config@),
            detection.method < self.handles.config.methods@.len(),
            detection.probe < PROBES_PER_METHOD,
            detection.responses@.len() <= detection.probe + 1,
            detection.req_counter <= most_counted(detection.method as nat)
                + detection.probe + 1,
        ensures
            (next.0@, next.1@) == detection@.after_probe(self.handles.config@),
            next.0@.is_valid(self.handles.config@),
    {
        if detection.probe + 1 < PROBES_PER_METHOD {
            let request = self.handles.config.probe(detection.method, detection.probe + 1);
            (
                Detection { phase: Phase::Reply, probe: detection.probe + 1, ..detection },
                DetectionAction::Request(request),
            )
        } else {
            self.judge(detection)
        }
    }

    /// Goes on when all requests with a method have been dealt with.
    fn judge<'a>(&'a self, detection: Detection) -> (next: (Detection, DetectionAction<'a>))
        requires
            is_countable(self.handles.config@),
            detection.method < self.handles.config.methods@.len(),
            detection.probe < PROBES_PER_METHOD,
            detection.responses@.len() <= PROBES_PER_METHOD,
            detection.req_counter <= most_counted(detection.method as nat)
                + PROBES_PER_METHOD,
        ensures
            (next.0@, next.1@) == detection@.judge(self.handles.config@),
            next.0@.is_valid(self.handles.config@),
    {
        if detection.responses.len() < RESPONSES_NEEDED {
            // don't have enough responses to make a determination, continue to next method
            return self.at_method(detection.method + 1, detection.req_counter, detection.wildcard);
        }
        match self.examine_404_like_responses(detection.responses.as_slice()) {
            // no match was found during analysis of responses
            None => self.at_method(detection.method + 1, detection.req_counter, detection.wildcard),
            Some(filter) => {
                if self.handles.config.output_level.prints_messages() {
                    (
                        Detection { phase: Phase::Filters(filter), ..detection },
                        DetectionAction::ListFilters,
                    )
                } else {
                    (
                        Detection { phase: Phase::WildcardAdded, ..detection },
                        DetectionAction::AddWildcardFilter { filter, announce: false },
                    )
                }
            },
        }
    }

    /// Says what to do next when the last action has been carried out, or could not be.
    pub fn detection_step<'a>(&'a self, detection: Detection, event: DetectionEvent) -> (next: (
        Detection,
        DetectionAction<'a>,
    ))
        requires
            detection@.is_valid(self.handles.config@),
            detection@.awaits(event@),
        ensures
            (next.0@, next.1@) == detection@.step(self.handles.config@, event@),
            next.0@.is_valid(self.handles.config@),
    {
        let mut detection = detection;
        match event {
            // continue to next on error
            DetectionEvent::RequestFailed => {
                detection.req_counter = detection.req_counter + 1;
                self.after_probe(detection)
            },
            DetectionEvent::Replied(status) => {
                detection.req_counter = detection.req_counter + 1;
                if self.handles.config.accepts_status(status) {
                    (
                        Detection { phase: Phase::Body, ..detection },
                        DetectionAction::ReadBody,
                    )
                } else {
                    // if the response code isn't one that's accepted via -s values, then skip to
                    // the next
                    //
                    // the default value for -s is all status codes, so unless the user says
                    // otherwise this won't fire
                    self.after_probe(detection)
                }
            },
            DetectionEvent::Body(response) => {
                let ghost before = detection@.responses;
                detection.responses.push(response);
                assert(detection@.responses =~= before.push(response@));
                self.after_probe(detection)
            },
            DetectionEvent::Filters(known) => {
                match detection.phase {
                    Phase::Filters(filter) => {
                        // the same filter is shown once only
                        let announce = !filters::is_known(&filter, &known);
                        (
                            Detection { phase: Phase::WildcardAdded, ..detection },
                            DetectionAction::AddWildcardFilter { filter, announce },
                        )
                    },
                    // nothing else waits for the filters
                    _ => (detection, DetectionAction::Abort),
                }
            },
            DetectionEvent::Added => {
                match detection.phase {
                    Phase::WildcardAdded => {
                        // we're already filtering for size/word/line
                        //
                        // in addition, we'll create a similarity filter as a fallback
                        let text = detection.responses[0].text.clone();
                        (
                            Detection { phase: Phase::Signature, ..detection },
                            DetectionAction::Sign(text),
                        )
                    },
                    _ => self.after_filters(detection),
                }
            },
            DetectionEvent::Signature(hash) => {
                let filter = SimilarityFilter {
                    hash,
                    original_url: detection.responses[0].url.clone(),
                };
                (
                    Detection { phase: Phase::SimilarityAdded, ..detection },
                    DetectionAction::AddSimilarityFilter(filter),
                )
            },
            DetectionEvent::Stored => {
                // we've detected a wildcard directory
                self.at_method(detection.method + 1, detection.req_counter + WILDCARD_MARK, true)
            },
            DetectionEvent::BadUrl | DetectionEvent::AddFailed => {
                let responses: Vec<FeroxResponse> = Vec::new();
                assert(response::views(responses@) =~= Seq::empty());
                (
                    Detection { phase: Phase::Finished, responses, ..detection },
                    DetectionAction::Abort,
                )
            },
        }
    }

    /// Goes on when both filters are in force.
    fn after_filters<'a>(&'a self, detection: Detection) -> (next: (
        Detection,
        DetectionAction<'a>,
    ))
        requires
            detection@.is_valid(self.handles.config@),
            detection@.phase is SimilarityAdded,
        ensures
            (next.0@, next.1@) == detection@.step(self.handles.config@, EventView::Added),
            next.0@.is_valid(self.handles.config@),
    {
        let mut detection = detection;
        if detection.responses[0].is_directory() {
            // response is either a 3XX with a Location header that matches url + '/'
            // or it's a 2XX that ends with a '/'
            // or it's a 403 that ends with a '/'
            //
            // the wildcard flag is what keeps the scan from descending into the directory
            let mut first = detection.responses.remove(0);
            first.set_wildcard(true);
            let responses: Vec<FeroxResponse> = Vec::new();
            assert(response::views(responses@) =~= Seq::empty());
            (
                Detection { phase: Phase::Stored, responses, ..detection },
                DetectionAction::Store(first),
            )
        } else {
            self.at_method(detection.method + 1, detection.req_counter, detection.wildcard)
        }
    }
}

/// The result is the variant for a wildcard directory exactly when one was found, and the number in
/// it is the count.
pub proof fn verdicts_hold_the_count(wildcard: bool, req_counter: nat)
    requires
        req_counter <= usize::MAX,
    ensures
        match verdict(wildcard, req_counter) {
            WildcardResult::WildcardDirectory(count) => wildcard && count as int == req_counter,
            WildcardResult::FourOhFourLike(count) => !wildcard && count as int == req_counter,
        },
{
}

/// Everything can be counted as long as four requests and a hundred for each method fit the
/// counter.
pub proof fn counting_is_bounded_by_the_counter_only(config: ConfigurationView)
    ensures
        is_countable(config) <==> 104 * config.methods.len() <= usize::MAX,
{
}

/// Requests are seen with all their parts.
pub proof fn requests_are_seen_as_they_are(probe: Probe)
    ensures
        probe@.method == probe.method@,
        probe@.prefix == probe.prefix@,
        probe@.length == probe.length,
        probe.slash is None ==> probe@.slash is None,
        probe.slash matches Some(slash) ==> probe@.slash == Some(slash@),
        probe.data is None ==> probe@.data is None,
        probe.data matches Some(data) ==> probe@.data == Some(data@),
{
}

/// Actions are seen as what they are, with all that they carry.
pub proof fn actions_are_seen_as_they_are(action: DetectionAction)
    ensures
        match action {
            DetectionAction::Request(probe) => action@ == ActionView::Request(probe@),
            DetectionAction::ReadBody => action@ is ReadBody,
            DetectionAction::ListFilters => action@ is ListFilters,
            DetectionAction::AddWildcardFilter { filter, announce } => {
                &&& action@ matches ActionView::AddWildcardFilter { filter: seen, announce: shown }
                &&& seen == filter@
                &&& shown == announce
            },
            DetectionAction::Sign(text) => action@ == ActionView::Sign(text@),
            DetectionAction::AddSimilarityFilter(filter) => action@
                == ActionView::AddSimilarityFilter(filter@),
            DetectionAction::Store(response) => action@ == ActionView::Store(response@),
            DetectionAction::Finish(result) => action@ == ActionView::Finish(result),
            DetectionAction::Abort => action@ is Abort,
        },
{
}

/// Events are seen as what they are, with all that they carry.
pub proof fn events_are_seen_as_they_are(event: DetectionEvent)
    ensures
        match event {
            DetectionEvent::BadUrl => event@ is BadUrl,
            DetectionEvent::RequestFailed => event@ is RequestFailed,
            DetectionEvent::Replied(status) => event@ == EventView::Replied(status),
            DetectionEvent::Body(response) => event@ == EventView::Body(response@),
            DetectionEvent::Filters(known) => {
                &&& event@ matches EventView::Filters(seen)
                &&& seen.len() == known@.len()
                &&& forall|i: int| 0 <= i < known@.len() ==> #[trigger] seen[i] == known@[i]@
            },
            DetectionEvent::Added => event@ is Added,
            DetectionEvent::AddFailed => event@ is AddFailed,
            DetectionEvent::Signature(hash) => event@ == EventView::Signature(hash),
            DetectionEvent::Stored => event@ is Stored,
        },
{
}

} // verus!
