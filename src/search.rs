//! The search decisions. One `SearchSession` carries one search from the
//! cache lookup to its result: the caller performs each `Step` it is handed
//! (a fetch, a POST, a decode) and reports the outcome as an `Event`. A 404
//! from the search endpoint is read as a sign that the cached endpoint is
//! stale: the cache is cleared and the endpoint discovered once more, and the
//! request is retried once.
use vstd::prelude::*;
use vstd::string::StringSliceAdditionalSpecFns;
use vstd::utf8::*;
use crate::cache::EndpointCache;
use crate::discovery::{
    api_keys_from_bundle, bundle_path, bundle_path_of, bundle_url, bundle_url_of, discovered_keys,
    endpoint_url_of, DiscoveryError,
};
use crate::model::{Game, SearchRequest, is_default_options};
use crate::text::{snippet, snippet_of};

verus! {

/// Status of the response that marks the cached endpoint as stale.
pub const NOT_FOUND: u16 = 404;

/// Bytes of a response body kept in an error.
pub const ERROR_SNIPPET_MAX: usize = 200;

/// A status in the success range.
pub open spec fn is_success(status: u16) -> bool {
    200 <= status <= 299
}

/// Why a search failed.
#[derive(Debug, Clone, PartialEq, Eq)]
pub enum SearchError {
    /// The endpoint could not be discovered.
    Discovery(DiscoveryError),
    /// The search endpoint answered with a status outside the success range.
    Http { status: u16, body_snippet: String },
    /// The response body could not be decoded.
    Decode { cause: String, body_snippet: String },
    /// The search request could not be sent or its answer not read.
    Request { cause: String },
}

/// A search error as values.
pub enum SearchErrorView {
    Discovery(DiscoveryError),
    Http(u16, Seq<char>),
    Decode(Seq<char>, Seq<char>),
    Request(Seq<char>),
}

impl View for SearchError {
    type V = SearchErrorView;

    open spec fn view(&self) -> SearchErrorView {
        match self {
            SearchError::Discovery(d) => SearchErrorView::Discovery(*d),
            SearchError::Http { status, body_snippet } => SearchErrorView::Http(
                *status,
                body_snippet@,
            ),
            SearchError::Decode { cause, body_snippet } => SearchErrorView::Decode(
                cause@,
                body_snippet@,
            ),
            SearchError::Request { cause } => SearchErrorView::Request(cause@),
        }
    }
}

/// Where a search stands.
#[derive(Debug, Clone, Copy, PartialEq, Eq, Structural)]
pub enum Phase {
    AwaitingPage,
    AwaitingBundle,
    AwaitingResponse,
    AwaitingDecode,
    Finished,
}

/// What the caller must do next.
#[derive(Debug)]
pub enum Step {
    /// Fetch the host page and report `Event::PageFetched`.
    FetchPage,
    /// Fetch the bundle at `url` and report `Event::BundleFetched`.
    FetchBundle { url: String },
    /// POST the session's request to `url`, with the site's own address as
    /// Referer and Origin, and report `Event::Responded` or
    /// `Event::RequestFailed`.
    Post { url: String },
    /// Decode `body` as a search response and report `Event::Decoded`.
    Decode { body: String },
    /// The search is over.
    Done(Result<Vec<Game>, SearchError>),
}

/// A step as values.
pub enum StepView {
    FetchPage,
    FetchBundle(Seq<char>),
    Post(Seq<char>),
    Decode(Seq<char>),
    Done(Result<Seq<Game>, SearchErrorView>),
}

impl View for Step {
    type V = StepView;

    open spec fn view(&self) -> StepView {
        match self {
            Step::FetchPage => StepView::FetchPage,
            Step::FetchBundle { url } => StepView::FetchBundle(url@),
            Step::Post { url } => StepView::Post(url@),
            Step::Decode { body } => StepView::Decode(body@),
            Step::Done(Ok(games)) => StepView::Done(Ok(games@)),
            Step::Done(Err(e)) => StepView::Done(Err(e@)),
        }
    }
}

/// The outcome of a step, as the caller reports it.
pub enum Event {
    /// The host page's text, or `None` when it could not be fetched.
    PageFetched(Option<String>),
    /// The bundle's text, or `None` when it could not be fetched.
    BundleFetched(Option<String>),
    /// The search endpoint's status and body.
    Responded { status: u16, body: String },
    /// The search request failed before a status was read.
    RequestFailed { cause: String },
    /// The records of the decoded response, or why decoding failed.
    Decoded(Result<Vec<Game>, String>),
}

/// An event as values.
pub enum EventView {
    PageFetched(Option<Seq<char>>),
    BundleFetched(Option<Seq<char>>),
    Responded(u16, Seq<char>),
    RequestFailed(Seq<char>),
    Decoded(Result<Seq<Game>, Seq<char>>),
}

impl View for Event {
    type V = EventView;

    open spec fn view(&self) -> EventView {
        match self {
            Event::PageFetched(Some(t)) => EventView::PageFetched(Some(t@)),
            Event::PageFetched(None) => EventView::PageFetched(None),
            Event::BundleFetched(Some(t)) => EventView::BundleFetched(Some(t@)),
            Event::BundleFetched(None) => EventView::BundleFetched(None),
            Event::Responded { status, body } => EventView::Responded(*status, body@),
            Event::RequestFailed { cause } => EventView::RequestFailed(cause@),
            Event::Decoded(Ok(games)) => EventView::Decoded(Ok(games@)),
            Event::Decoded(Err(cause)) => EventView::Decoded(Err(cause@)),
        }
    }
}

/// One search in progress.
pub struct SearchSession {
    /// Where the search stands.
    pub phase: Phase,
    /// The endpoint has been discovered afresh after a 404.
    pub retried: bool,
    /// The endpoint the request goes to, once known.
    pub keys: Option<crate::discovery::ApiKeys>,
    /// The start of the last successful response body.
    pub snippet: String,
    /// The request that is sent.
    pub request: SearchRequest,
}

/// A session as values: the request aside, which never changes.
pub struct SessionView {
    pub phase: Phase,
    pub retried: bool,
    pub keys: Option<(Seq<char>, Seq<char>)>,
    pub snippet: Seq<char>,
}

impl View for SearchSession {
    type V = SessionView;

    open spec fn view(&self) -> SessionView {
        SessionView {
            phase: self.phase,
            retried: self.retried,
            keys: crate::cache::keys_view(self.keys),
            snippet: self.snippet@,
        }
    }
}

/// The event that a session in phase `p` waits for.
pub open spec fn awaits(p: Phase, e: EventView) -> bool {
    match e {
        EventView::PageFetched(_) => p == Phase::AwaitingPage,
        EventView::BundleFetched(_) => p == Phase::AwaitingBundle,
        EventView::Responded(_, _) => p == Phase::AwaitingResponse,
        EventView::RequestFailed(_) => p == Phase::AwaitingResponse,
        EventView::Decoded(_) => p == Phase::AwaitingDecode,
    }
}

/// A new search with the cache holding `c`: a cached endpoint is used at
/// once; without one, discovery starts with the host page.
pub open spec fn start_of(c: Option<(Seq<char>, Seq<char>)>) -> (SessionView, StepView) {
    match c {
        Some(k) => (
            SessionView {
                phase: Phase::AwaitingResponse,
                retried: false,
                keys: Some(k),
                snippet: Seq::empty(),
            },
            StepView::Post(endpoint_url_of(k)),
        ),
        None => (
            SessionView {
                phase: Phase::AwaitingPage,
                retried: false,
                keys: None,
                snippet: Seq::empty(),
            },
            StepView::FetchPage,
        ),
    }
}

/// The session `s`, ended.
pub open spec fn finished(s: SessionView) -> SessionView {
    SessionView { phase: Phase::Finished, ..s }
}

/// The last step of a search that failed with `e`.
pub open spec fn failure(e: SearchErrorView) -> StepView {
    StepView::Done(Err(e))
}

/// The session, cache and next step after event `e` reaches session `s`
/// with the cache holding `c`.
pub open spec fn transition(s: SessionView, c: Option<(Seq<char>, Seq<char>)>, e: EventView) -> (
    SessionView,
    Option<(Seq<char>, Seq<char>)>,
    StepView,
) {
    match e {
        EventView::PageFetched(None) => (
            finished(s),
            c,
            failure(SearchErrorView::Discovery(DiscoveryError::PageFetchFailed)),
        ),
        EventView::PageFetched(Some(html)) => match bundle_path_of(encode_utf8(html)) {
            Err(d) => (finished(s), c, failure(SearchErrorView::Discovery(d))),
            Ok(path) => (
                SessionView { phase: Phase::AwaitingBundle, ..s },
                c,
                StepView::FetchBundle(bundle_url_of(path)),
            ),
        },
        EventView::BundleFetched(None) => (
            finished(s),
            c,
            failure(SearchErrorView::Discovery(DiscoveryError::BundleFetchFailed)),
        ),
        EventView::BundleFetched(Some(text)) => match discovered_keys(encode_utf8(text)) {
            Err(d) => (finished(s), c, failure(SearchErrorView::Discovery(d))),
            Ok(k) => (
                SessionView { phase: Phase::AwaitingResponse, keys: Some(k), ..s },
                if s.retried {
                    c
                } else {
                    Some(k)
                },
                StepView::Post(endpoint_url_of(k)),
            ),
        },
        EventView::RequestFailed(cause) => (
            finished(s),
            c,
            failure(SearchErrorView::Request(cause)),
        ),
        EventView::Responded(status, body) => if status == NOT_FOUND && !s.retried {
            (
                SessionView { phase: Phase::AwaitingPage, retried: true, keys: None, ..s },
                None,
                StepView::FetchPage,
            )
        } else if !is_success(status) {
            (
                finished(s),
                c,
                failure(SearchErrorView::Http(status, snippet(body, ERROR_SNIPPET_MAX as int))),
            )
        } else {
            (
                SessionView {
                    phase: Phase::AwaitingDecode,
                    snippet: snippet(body, ERROR_SNIPPET_MAX as int),
                    ..s
                },
                c,
                StepView::Decode(body),
            )
        },
        EventView::Decoded(Ok(games)) => (
            finished(s),
            if s.retried && s.keys is Some {
                s.keys
            } else {
                c
            },
            StepView::Done(Ok(games)),
        ),
        EventView::Decoded(Err(cause)) => (
            finished(s),
            c,
            failure(SearchErrorView::Decode(cause, s.snippet)),
        ),
    }
}

/// A 404 on the first attempt clears the cache and starts one fresh
/// discovery: the next step fetches the host page.
pub proof fn lemma_not_found_starts_rediscovery(
    s: SessionView,
    c: Option<(Seq<char>, Seq<char>)>,
    body: Seq<char>,
)
    requires
        s.phase == Phase::AwaitingResponse,
        !s.retried,
    ensures
        ({
            let (s2, c2, t) = transition(s, c, EventView::Responded(NOT_FOUND, body));
            &&& t is FetchPage
            &&& c2 is None
            &&& s2.phase == Phase::AwaitingPage
            &&& s2.retried
        }),
{
}

/// A session that has rediscovered its endpoint never starts another
/// discovery, whatever it is told next: a second 404 ends the search.
pub proof fn lemma_rediscovery_happens_once(
    s: SessionView,
    c: Option<(Seq<char>, Seq<char>)>,
    e: EventView,
)
    requires
        s.retried,
        awaits(s.phase, e),
    ensures
        transition(s, c, e).0.retried,
        !(transition(s, c, e).2 is FetchPage),
{
}

/// A retried request that fails again, a second 404 included, ends the
/// search with that status and leaves the cache as it is.
pub proof fn lemma_failed_retry_reports_status(
    s: SessionView,
    c: Option<(Seq<char>, Seq<char>)>,
    status: u16,
    body: Seq<char>,
)
    requires
        s.retried,
        s.phase == Phase::AwaitingResponse,
        !is_success(status),
    ensures
        ({
            let (s2, c2, t) = transition(s, c, EventView::Responded(status, body));
            &&& t == failure(SearchErrorView::Http(status, snippet(body, ERROR_SNIPPET_MAX as int)))
            &&& c2 == c
            &&& s2.phase == Phase::Finished
        }),
{
}

/// During a retry the cache stays unresolved unless the retry succeeds: a
/// retry that ends in an error leaves it empty, and the next search then
/// discovers the endpoint from scratch.
pub proof fn lemma_failed_retry_leaves_cache_unresolved(s: SessionView, e: EventView)
    requires
        s.retried,
        awaits(s.phase, e),
    ensures
        ({
            let (s2, c2, t) = transition(s, None, e);
            &&& (c2 is Some ==> (t matches StepView::Done(Ok(_))))
            &&& ((t matches StepView::Done(Err(_))) ==> c2 is None && start_of(c2).1 is FetchPage)
        }),
{
}

impl SearchSession {
    /// Starts a search for `query`, reading the cache.
    pub fn start(query: &str, cache: &EndpointCache) -> (r: (SearchSession, Step))
        ensures
            (r.0@, r.1@) == start_of(cache@),
            r.0.request.search_type@ == "games"@,
            r.0.request.search_terms@.len() == 1,
            r.0.request.search_terms@[0]@ == query@,
            r.0.request.search_page == 1,
            r.0.request.size == 20,
            is_default_options(r.0.request.search_options),
    {
        let request = SearchRequest::for_query(query);
        match cache.lookup() {
            Some(keys) => {
                let url = keys.endpoint_url();
                let session = SearchSession {
                    phase: Phase::AwaitingResponse,
                    retried: false,
                    keys: Some(keys),
                    snippet: String::new(),
                    request,
                };
                (session, Step::Post { url })
            },
            None => {
                let session = SearchSession {
                    phase: Phase::AwaitingPage,
                    retried: false,
                    keys: None,
                    snippet: String::new(),
                    request,
                };
                (session, Step::FetchPage)
            },
        }
    }

    /// Whether the session waits for `event`.
    pub fn awaits(&self, event: &Event) -> (r: bool)
        ensures
            r == awaits(self.phase, event@),
    {
        match event {
            Event::PageFetched(_) => self.phase == Phase::AwaitingPage,
            Event::BundleFetched(_) => self.phase == Phase::AwaitingBundle,
            Event::Responded { .. } => self.phase == Phase::AwaitingResponse,
            Event::RequestFailed { .. } => self.phase == Phase::AwaitingResponse,
            Event::Decoded(_) => self.phase == Phase::AwaitingDecode,
        }
    }

    /// Takes in the outcome of the last step and decides the next one.
    pub fn advance(&mut self, cache: &mut EndpointCache, event: Event) -> (r: Step)
        requires
            awaits(old(self).phase, event@),
        ensures
            (final(self)@, final(cache)@, r@) == transition(old(self)@, old(cache)@, event@),
            final(self).request == old(self).request,
    {
        match event {
            Event::PageFetched(None) => {
                self.phase = Phase::Finished;
                Step::Done(Err(SearchError::Discovery(DiscoveryError::PageFetchFailed)))
            },
            Event::PageFetched(Some(html)) => match bundle_path(html.as_str()) {
                Err(d) => {
                    self.phase = Phase::Finished;
                    Step::Done(Err(SearchError::Discovery(d)))
                },
                Ok(path) => {
                    self.phase = Phase::AwaitingBundle;
                    Step::FetchBundle { url: bundle_url(path.as_str()) }
                },
            },
            Event::BundleFetched(None) => {
                self.phase = Phase::Finished;
                Step::Done(Err(SearchError::Discovery(DiscoveryError::BundleFetchFailed)))
            },
            Event::BundleFetched(Some(text)) => match api_keys_from_bundle(text.as_str()) {
                Err(d) => {
                    self.phase = Phase::Finished;
                    Step::Done(Err(SearchError::Discovery(d)))
                },
                Ok(keys) => {
                    if !self.retried {
                        cache.store(keys.duplicate());
                    }
                    let url = keys.endpoint_url();
                    self.keys = Some(keys);
                    self.phase = Phase::AwaitingResponse;
                    Step::Post { url }
                },
            },
            Event::RequestFailed { cause } => {
                self.phase = Phase::Finished;
                Step::Done(Err(SearchError::Request { cause }))
            },
            Event::Responded { status, body } => {
                if status == NOT_FOUND && !self.retried {
                    cache.clear();
                    self.retried = true;
                    self.keys = None;
                    self.phase = Phase::AwaitingPage;
                    Step::FetchPage
                } else if !(200 <= status && status <= 299) {
                    self.phase = Phase::Finished;
                    let body_snippet = snippet_of(body.as_str(), ERROR_SNIPPET_MAX);
                    Step::Done(Err(SearchError::Http { status, body_snippet }))
                } else {
                    self.snippet = snippet_of(body.as_str(), ERROR_SNIPPET_MAX);
                    self.phase = Phase::AwaitingDecode;
                    Step::Decode { body }
                }
            },
            Event::Decoded(Ok(games)) => {
                if self.retried {
                    match &self.keys {
                        Some(k) => cache.store(k.duplicate()),
                        None => {},
                    }
                }
                self.phase = Phase::Finished;
                Step::Done(Ok(games))
            },
            Event::Decoded(Err(cause)) => {
                self.phase = Phase::Finished;
                let body_snippet = self.snippet.clone();
                Step::Done(Err(SearchError::Decode { cause, body_snippet }))
            },
        }
    }
}

} // verus!
