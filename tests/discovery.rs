use howlongtobeat::discovery::{
    api_keys_from_bundle, bundle_path, bundle_url, ApiKeys, DiscoveryError,
};

fn keys(bundle: &str) -> Result<(String, String), DiscoveryError> {
    api_keys_from_bundle(bundle).map(|k| (k.sub_page, k.search_key))
}

#[test]
fn search_endpoint_with_two_literals() {
    let bundle = r#"var a=1;fetch("/api/search/").concat("ab").concat("cd");"#;
    assert_eq!(keys(bundle), Ok(("search".to_string(), "abcd".to_string())));
}

#[test]
fn known_endpoints_keep_their_priority() {
    let bundle = r#"x fetch("/api/search/".concat("s1")) y fetch("/api/locate/".concat("l1").concat("l2"))"#;
    assert_eq!(keys(bundle), Ok(("locate".to_string(), "l1l2".to_string())));
}

#[test]
fn find_endpoint_is_known() {
    let bundle = r#"fetch("/api/find/".concat("f").concat("9"),{method:"POST"})"#;
    assert_eq!(keys(bundle), Ok(("find".to_string(), "f9".to_string())));
}

#[test]
fn known_endpoint_without_concat_is_skipped() {
    let far = " ".repeat(120);
    let bundle = format!(
        r#"fetch("/api/locate/"){} fetch("/api/search/".concat("k"))"#,
        far
    );
    assert_eq!(keys(&bundle), Ok(("search".to_string(), "k".to_string())));
}

#[test]
fn generic_scan_finds_other_endpoints() {
    let bundle = r#"aaaaaaaaaaaaaaaaaaaaaaaaaaaaaaaaaaaaaaaaaaaaaaaaaaaaaaaa fetch("/api/lookup/".concat("x1").concat("y2")) and more text to keep the scan going on for a while"#;
    assert_eq!(keys(bundle), Ok(("lookup".to_string(), "x1y2".to_string())));
}

#[test]
fn generic_scan_skips_game_and_user() {
    let tail = "z".repeat(80);
    let bundle = format!(
        r#"fetch("/api/game/".concat("g")) fetch("/api/user/".concat("u")) fetch("/api/seek/".concat("q")){}"#,
        tail
    );
    assert_eq!(keys(&bundle), Ok(("seek".to_string(), "q".to_string())));
}

#[test]
fn only_excluded_endpoints_is_not_found() {
    let tail = "z".repeat(80);
    let bundle = format!(r#"fetch("/api/game/".concat("g")){}"#, tail);
    assert_eq!(keys(&bundle), Err(DiscoveryError::EndpointPatternNotFound));
}

#[test]
fn no_endpoint_call_is_not_found() {
    assert_eq!(keys(""), Err(DiscoveryError::EndpointPatternNotFound));
    assert_eq!(
        keys("function f(){return 1}"),
        Err(DiscoveryError::EndpointPatternNotFound)
    );
}

#[test]
fn concat_without_literal_gives_no_key() {
    let bundle = r#"fetch("/api/search/".concat(e).concat(t))"#;
    assert_eq!(keys(bundle), Err(DiscoveryError::KeyExtractionFailed));
}

#[test]
fn key_literals_stop_at_first_gap() {
    let bundle = r#"fetch("/api/search/".concat("ab").concat(x).concat("cd"))"#;
    assert_eq!(keys(bundle), Ok(("search".to_string(), "ab".to_string())));
}

#[test]
fn key_scan_is_bounded() {
    let mut bundle = String::from(r#"fetch("/api/search/""#);
    for _ in 0..200 {
        bundle.push_str(r#".concat("abcdefgh")"#);
    }
    // Each call takes 19 bytes after a 20-byte prefix; the scan stops once
    // it has passed 600 bytes, after the 31st literal.
    let (_, key) = keys(&bundle).unwrap();
    assert_eq!(key, "abcdefgh".repeat(31));
}

#[test]
fn non_ascii_key_is_kept() {
    let bundle = r#"fetch("/api/search/".concat("ké").concat("ü"))"#;
    assert_eq!(keys(bundle), Ok(("search".to_string(), "kéü".to_string())));
}

#[test]
fn bundle_path_in_host_page() {
    let html = r#"<html><script src="/_next/static/chunks/pages/_app-abc123.js" defer></script></html>"#;
    assert_eq!(
        bundle_path(html),
        Ok("/_next/static/chunks/pages/_app-abc123.js".to_string())
    );
}

#[test]
fn bundle_path_skips_escaped_quote() {
    let html = r#"<a x="y">\"/_next/static/chunks/pages/_app-9.js"</a>"#;
    assert_eq!(
        bundle_path(html),
        Ok(r#">\"/_next/static/chunks/pages/_app-9.js"#.to_string())
    );
}

#[test]
fn bundle_path_missing() {
    assert_eq!(bundle_path("<html></html>"), Err(DiscoveryError::BundlePathNotFound));
    assert_eq!(
        bundle_path("/pages/_app-1.js\""),
        Err(DiscoveryError::BundlePathNotFound)
    );
    assert_eq!(
        bundle_path("\"/pages/_app-1.js"),
        Err(DiscoveryError::BundlePathNotFound)
    );
}

#[test]
fn addresses_of_bundle_and_endpoint() {
    assert_eq!(
        bundle_url("/_next/app.js"),
        "https://howlongtobeat.com/_next/app.js"
    );
    let k = ApiKeys {
        sub_page: "locate".to_string(),
        search_key: "abcd".to_string(),
    };
    assert_eq!(k.endpoint_url(), "https://howlongtobeat.com/api/locate/abcd");
    assert_eq!(k.duplicate(), k);
}
