use howlongtobeat::cache::EndpointCache;
use howlongtobeat::discovery::{ApiKeys, DiscoveryError};
use howlongtobeat::model::Game;
use howlongtobeat::search::{Event, Phase, SearchError, SearchSession, Step};

const PAGE: &str = r#"<script src="/_next/static/chunks/pages/_app-1.js"></script>"#;
const BUNDLE: &str = r#"fetch("/api/locate/".concat("ab").concat("cd"))"#;
const FRESH_BUNDLE: &str = r#"fetch("/api/locate/".concat("ef"))"#;

fn cached(sub: &str, key: &str) -> EndpointCache {
    let mut c = EndpointCache::new();
    c.store(ApiKeys {
        sub_page: sub.to_string(),
        search_key: key.to_string(),
    });
    c
}

fn game(id: u64) -> Game {
    Game {
        game_id: id,
        ..Default::default()
    }
}

fn url_of(step: &Step) -> String {
    match step {
        Step::FetchBundle { url } | Step::Post { url } => url.clone(),
        other => panic!("no address in {:?}", other),
    }
}

#[test]
fn cache_store_lookup_clear() {
    let mut c = EndpointCache::new();
    assert!(c.lookup().is_none());
    c.store(ApiKeys {
        sub_page: "s".to_string(),
        search_key: "k".to_string(),
    });
    assert_eq!(c.lookup().unwrap().search_key, "k");
    c.clear();
    assert!(c.lookup().is_none());
}

#[test]
fn cached_endpoint_is_posted_at_once() {
    let cache = cached("search", "k1");
    let (s, step) = SearchSession::start("zelda", &cache);
    assert_eq!(url_of(&step), "https://howlongtobeat.com/api/search/k1");
    assert_eq!(s.phase, Phase::AwaitingResponse);
    assert_eq!(s.request.search_terms, vec!["zelda".to_string()]);
}

#[test]
fn discovery_then_search() {
    let mut cache = EndpointCache::new();
    let (mut s, step) = SearchSession::start("mario", &cache);
    assert!(matches!(step, Step::FetchPage));
    let step = s.advance(&mut cache, Event::PageFetched(Some(PAGE.to_string())));
    assert_eq!(
        url_of(&step),
        "https://howlongtobeat.com/_next/static/chunks/pages/_app-1.js"
    );
    let step = s.advance(&mut cache, Event::BundleFetched(Some(BUNDLE.to_string())));
    assert_eq!(url_of(&step), "https://howlongtobeat.com/api/locate/abcd");
    assert_eq!(cache.lookup().unwrap().search_key, "abcd");
    let step = s.advance(
        &mut cache,
        Event::Responded {
            status: 200,
            body: "{\"data\":[]}".to_string(),
        },
    );
    match step {
        Step::Decode { body } => assert_eq!(body, "{\"data\":[]}"),
        other => panic!("expected a decode, got {:?}", other),
    }
    let step = s.advance(&mut cache, Event::Decoded(Ok(vec![game(1), game(2)])));
    match step {
        Step::Done(Ok(games)) => assert_eq!(games.len(), 2),
        other => panic!("expected results, got {:?}", other),
    }
    assert_eq!(s.phase, Phase::Finished);
}

#[test]
fn empty_data_is_an_empty_list_not_an_error() {
    let mut cache = cached("search", "k");
    let (mut s, _) = SearchSession::start("nothing", &cache);
    s.advance(
        &mut cache,
        Event::Responded {
            status: 200,
            body: "{\"data\": []}".to_string(),
        },
    );
    match s.advance(&mut cache, Event::Decoded(Ok(Vec::new()))) {
        Step::Done(Ok(games)) => assert!(games.is_empty()),
        other => panic!("expected an empty list, got {:?}", other),
    }
}

#[test]
fn not_found_rediscovers_once_and_retries() {
    let mut cache = cached("locate", "old");
    let (mut s, _) = SearchSession::start("zelda", &cache);
    let step = s.advance(
        &mut cache,
        Event::Responded {
            status: 404,
            body: String::new(),
        },
    );
    assert!(matches!(step, Step::FetchPage));
    assert!(cache.lookup().is_none());
    s.advance(&mut cache, Event::PageFetched(Some(PAGE.to_string())));
    let step = s.advance(&mut cache, Event::BundleFetched(Some(FRESH_BUNDLE.to_string())));
    assert_eq!(url_of(&step), "https://howlongtobeat.com/api/locate/ef");
    assert!(cache.lookup().is_none());
    s.advance(
        &mut cache,
        Event::Responded {
            status: 200,
            body: "{}".to_string(),
        },
    );
    match s.advance(&mut cache, Event::Decoded(Ok(vec![game(3)]))) {
        Step::Done(Ok(games)) => assert_eq!(games[0].game_id, 3),
        other => panic!("expected results, got {:?}", other),
    }
    assert_eq!(cache.lookup().unwrap().search_key, "ef");
}

#[test]
fn failed_retry_reports_error_and_leaves_cache_unresolved() {
    let mut cache = cached("locate", "old");
    let (mut s, _) = SearchSession::start("zelda", &cache);
    s.advance(
        &mut cache,
        Event::Responded {
            status: 404,
            body: String::new(),
        },
    );
    s.advance(&mut cache, Event::PageFetched(Some(PAGE.to_string())));
    s.advance(&mut cache, Event::BundleFetched(Some(FRESH_BUNDLE.to_string())));
    let step = s.advance(
        &mut cache,
        Event::Responded {
            status: 404,
            body: "gone".to_string(),
        },
    );
    match step {
        Step::Done(Err(SearchError::Http {
            status,
            body_snippet,
        })) => {
            assert_eq!(status, 404);
            assert_eq!(body_snippet, "gone");
        }
        other => panic!("expected an HTTP error, got {:?}", other),
    }
    assert!(cache.lookup().is_none());
    let (_, next) = SearchSession::start("zelda", &cache);
    assert!(matches!(next, Step::FetchPage));
}

#[test]
fn other_status_fails_without_retry() {
    let mut cache = cached("locate", "k");
    let (mut s, _) = SearchSession::start("zelda", &cache);
    let body = "x".repeat(500);
    match s.advance(&mut cache, Event::Responded { status: 500, body }) {
        Step::Done(Err(SearchError::Http {
            status,
            body_snippet,
        })) => {
            assert_eq!(status, 500);
            assert_eq!(body_snippet.len(), 200);
        }
        other => panic!("expected an HTTP error, got {:?}", other),
    }
    assert_eq!(cache.lookup().unwrap().search_key, "k");
}

#[test]
fn decode_failure_carries_body_snippet() {
    let mut cache = cached("locate", "k");
    let (mut s, _) = SearchSession::start("zelda", &cache);
    s.advance(
        &mut cache,
        Event::Responded {
            status: 200,
            body: "not json".to_string(),
        },
    );
    match s.advance(&mut cache, Event::Decoded(Err("expected value".to_string()))) {
        Step::Done(Err(SearchError::Decode { cause, body_snippet })) => {
            assert_eq!(cause, "expected value");
            assert_eq!(body_snippet, "not json");
        }
        other => panic!("expected a decode error, got {:?}", other),
    }
}

#[test]
fn transport_failures_are_reported() {
    let mut cache = EndpointCache::new();
    let (mut s, _) = SearchSession::start("q", &cache);
    match s.advance(&mut cache, Event::PageFetched(None)) {
        Step::Done(Err(e)) => assert_eq!(e, SearchError::Discovery(DiscoveryError::PageFetchFailed)),
        other => panic!("expected an error, got {:?}", other),
    }

    let (mut s, _) = SearchSession::start("q", &cache);
    s.advance(&mut cache, Event::PageFetched(Some(PAGE.to_string())));
    match s.advance(&mut cache, Event::BundleFetched(None)) {
        Step::Done(Err(e)) => {
            assert_eq!(e, SearchError::Discovery(DiscoveryError::BundleFetchFailed))
        }
        other => panic!("expected an error, got {:?}", other),
    }

    let mut cache = cached("locate", "k");
    let (mut s, _) = SearchSession::start("q", &cache);
    match s.advance(
        &mut cache,
        Event::RequestFailed {
            cause: "timed out".to_string(),
        },
    ) {
        Step::Done(Err(e)) => assert_eq!(
            e,
            SearchError::Request {
                cause: "timed out".to_string()
            }
        ),
        other => panic!("expected an error, got {:?}", other),
    }
}

#[test]
fn discovery_failures_are_reported() {
    let mut cache = EndpointCache::new();
    let (mut s, _) = SearchSession::start("q", &cache);
    match s.advance(&mut cache, Event::PageFetched(Some("<html/>".to_string()))) {
        Step::Done(Err(e)) => {
            assert_eq!(e, SearchError::Discovery(DiscoveryError::BundlePathNotFound))
        }
        other => panic!("expected an error, got {:?}", other),
    }
    let (mut s, _) = SearchSession::start("q", &cache);
    s.advance(&mut cache, Event::PageFetched(Some(PAGE.to_string())));
    match s.advance(&mut cache, Event::BundleFetched(Some("no calls".to_string()))) {
        Step::Done(Err(e)) => assert_eq!(
            e,
            SearchError::Discovery(DiscoveryError::EndpointPatternNotFound)
        ),
        other => panic!("expected an error, got {:?}", other),
    }
    assert!(cache.lookup().is_none());
}

#[test]
fn session_waits_for_matching_event() {
    let cache = EndpointCache::new();
    let (s, _) = SearchSession::start("q", &cache);
    assert!(s.awaits(&Event::PageFetched(None)));
    assert!(!s.awaits(&Event::BundleFetched(None)));
    assert!(!s.awaits(&Event::Decoded(Ok(Vec::new()))));
}
