//! Discovery of the search endpoint. The host page names the application
//! bundle; the bundle text holds the call that builds the search endpoint
//! from a sub-page name and a chain of concatenated key literals. Both are
//! found by a bounded scan over the bytes of the text.
use vstd::prelude::*;
use vstd::slice::{slice_subrange, slice_to_vec};
use vstd::string::StringSliceAdditionalSpecFns;
use vstd::utf8::*;
use crate::text::{
    bytes_equal, bytes_match_at, concat_all, find_bytes, find_in, lemma_delimited_valid,
    lemma_find_in_found, matches_at, opt_int, string_from_utf8,
};
use crate::model::BASE_URL;

verus! {

/// How far past the end of a known endpoint's call pattern a concatenation
/// call may reach and still count as building that endpoint.
pub const CONCAT_LOOKAHEAD: usize = 100;

/// The window, from the start of any other endpoint call, in which a
/// concatenation call must lie.
pub const FALLBACK_CONCAT_LOOKAHEAD: usize = 150;

/// After rejecting a call, the generic scan gives up once no more than this
/// many bytes remain from the next position.
pub const MIN_REMAINING_FOR_FALLBACK: usize = 50;

/// Size of the region after the endpoint call that is scanned for key
/// literals.
pub const KEY_REGION_SIZE: usize = 800;

/// The key scan stops once its position in the region passes this offset.
pub const KEY_SCAN_LIMIT: usize = 600;

/// Why the endpoint could not be discovered.
#[derive(Debug, Clone, Copy, PartialEq, Eq, Structural)]
pub enum DiscoveryError {
    /// The host page could not be fetched.
    PageFetchFailed,
    /// The host page names no application bundle.
    BundlePathNotFound,
    /// The application bundle could not be fetched.
    BundleFetchFailed,
    /// The bundle holds no endpoint call that builds a key.
    EndpointPatternNotFound,
    /// The endpoint call is followed by no key literal.
    KeyExtractionFailed,
}

/// The discovered endpoint: the sub-page that serves searches and the
/// access key appended to it.
#[derive(Debug, Clone, PartialEq, Eq)]
pub struct ApiKeys {
    pub sub_page: String,
    pub search_key: String,
}

impl View for ApiKeys {
    type V = (Seq<char>, Seq<char>);

    /// The sub-page name and the key, as characters.
    open spec fn view(&self) -> (Seq<char>, Seq<char>) {
        (self.sub_page@, self.search_key@)
    }
}

impl ApiKeys {
    /// A copy of these keys.
    pub fn duplicate(&self) -> (r: ApiKeys)
        ensures
            r@ == self@,
    {
        ApiKeys { sub_page: self.sub_page.clone(), search_key: self.search_key.clone() }
    }

    /// The search endpoint's address: `<base>/api/<sub_page>/<search_key>`.
    pub fn endpoint_url(&self) -> (r: String)
        ensures
            r@ == endpoint_url_of(self@),
    {
        let mut s = String::from_str(BASE_URL);
        s.append("/api/");
        s.append(self.sub_page.as_str());
        s.append("/");
        s.append(self.search_key.as_str());
        s
    }
}

/// The search endpoint's address for the keys `k`.
pub open spec fn endpoint_url_of(k: (Seq<char>, Seq<char>)) -> Seq<char> {
    BASE_URL@ + "/api/"@ + k.0 + "/"@ + k.1
}

/// The address of the bundle at `path` on the site.
pub open spec fn bundle_url_of(path: Seq<char>) -> Seq<char> {
    BASE_URL@ + path
}

/// The address of the bundle at `path` on the site.
pub fn bundle_url(path: &str) -> (r: String)
    ensures
        r@ == bundle_url_of(path@),
{
    let mut s = String::from_str(BASE_URL);
    s.append(path);
    s
}

/// `fetch("/api/`
pub open spec fn fetch_api_marker() -> Seq<u8> {
    seq![0x66u8, 0x65u8, 0x74u8, 0x63u8, 0x68u8, 0x28u8, 0x22u8, 0x2fu8, 0x61u8, 0x70u8, 0x69u8, 0x2fu8]
}

/// `.concat(`
pub open spec fn concat_marker() -> Seq<u8> {
    seq![0x2eu8, 0x63u8, 0x6fu8, 0x6eu8, 0x63u8, 0x61u8, 0x74u8, 0x28u8]
}

/// `/pages/_app-`, the mark of the host framework's application bundle.
pub open spec fn app_bundle_marker() -> Seq<u8> {
    seq![0x2fu8, 0x70u8, 0x61u8, 0x67u8, 0x65u8, 0x73u8, 0x2fu8, 0x5fu8, 0x61u8, 0x70u8, 0x70u8, 0x2du8]
}

/// `"`
pub open spec fn quote() -> Seq<u8> {
    seq![0x22u8]
}

/// `/`
pub open spec fn slash() -> Seq<u8> {
    seq![0x2fu8]
}

/// The search-like endpoint names, in the order in which they are tried:
/// `locate`, `search`, `find`.
pub open spec fn known_endpoints() -> Seq<Seq<u8>> {
    seq![
        seq![0x6cu8, 0x6fu8, 0x63u8, 0x61u8, 0x74u8, 0x65u8],
        seq![0x73u8, 0x65u8, 0x61u8, 0x72u8, 0x63u8, 0x68u8],
        seq![0x66u8, 0x69u8, 0x6eu8, 0x64u8],
    ]
}

/// Endpoint names that the generic scan never accepts: `game` and `user`.
pub open spec fn is_excluded_endpoint(name: Seq<u8>) -> bool {
    ||| name == seq![0x67u8, 0x61u8, 0x6du8, 0x65u8]
    ||| name == seq![0x75u8, 0x73u8, 0x65u8, 0x72u8]
}

pub open spec fn min(a: int, b: int) -> int {
    if a <= b {
        a
    } else {
        b
    }
}

/// A concatenation call lies wholly inside `b[from..end]`.
pub open spec fn has_concat(b: Seq<u8>, from: int, end: int) -> bool {
    find_in(b, concat_marker(), from, end) is Some
}

/// `fetch("/api/<name>/`
pub open spec fn endpoint_pattern(name: Seq<u8>) -> Seq<u8> {
    fetch_api_marker() + name + slash()
}

/// The first call of the known endpoint `name`, if a concatenation call
/// follows it closely enough.
pub open spec fn known_candidate(b: Seq<u8>, name: Seq<u8>) -> Option<int> {
    let pat = endpoint_pattern(name);
    match find_in(b, pat, 0, b.len() as int) {
        Some(pos) => if has_concat(b, pos, min(b.len() as int, pos + pat.len() + CONCAT_LOOKAHEAD)) {
            Some(pos)
        } else {
            None
        },
        None => None,
    }
}

/// For an endpoint call at `i`, the end of its sub-page name when the
/// generic scan accepts it: the name runs to the next slash, is not empty
/// and not excluded, and a concatenation call follows the call closely.
pub open spec fn fallback_accepts(b: Seq<u8>, i: int) -> Option<int> {
    let after = i + fetch_api_marker().len();
    match find_in(b, slash(), after, b.len() as int) {
        Some(s) => if has_concat(b, i, min(b.len() as int, i + FALLBACK_CONCAT_LOOKAHEAD)) && s
            > after && !is_excluded_endpoint(b.subrange(after, s)) {
            Some(s)
        } else {
            None
        },
        None => None,
    }
}

/// The generic scan from position `i`: the first accepted endpoint call,
/// as its position and the end of its sub-page name.
pub open spec fn fallback_from(b: Seq<u8>, i: int) -> Option<(int, int)>
    decreases b.len() - i,
{
    if i < 0 || i + fetch_api_marker().len() > b.len() {
        None
    } else if !matches_at(b, fetch_api_marker(), i) {
        fallback_from(b, i + 1)
    } else {
        match fallback_accepts(b, i) {
            Some(s) => Some((i, s)),
            None => if i + 1 + MIN_REMAINING_FOR_FALLBACK >= b.len() {
                None
            } else {
                fallback_from(b, i + 1)
            },
        }
    }
}

/// Where the endpoint call stands in the bundle `b`: its position, and the
/// start and end of its sub-page name. Known endpoints are tried first, in
/// order; then the generic scan.
pub open spec fn endpoint_location(b: Seq<u8>) -> Option<(int, int, int)> {
    let m = fetch_api_marker().len();
    let names = known_endpoints();
    if let Some(p) = known_candidate(b, names[0]) {
        Some((p, p + m, p + m + names[0].len()))
    } else if let Some(p) = known_candidate(b, names[1]) {
        Some((p, p + m, p + m + names[1].len()))
    } else if let Some(p) = known_candidate(b, names[2]) {
        Some((p, p + m, p + m + names[2].len()))
    } else if let Some((p, s)) = fallback_from(b, 0) {
        Some((p, p + m, s))
    } else {
        None
    }
}

/// The key literals found from position `q` on, within `b[..end]`, for an
/// endpoint call at `base`: each is a concatenation call whose opening
/// parenthesis is immediately followed by a quoted literal.
pub open spec fn key_literals_from(b: Seq<u8>, base: int, end: int, q: int) -> Seq<Seq<u8>>
    decreases end - q,
{
    match find_in(b, concat_marker(), q, end) {
        None => seq![],
        Some(c) => {
            let o = c + concat_marker().len();
            if o < end && b[o] == 0x22u8 {
                match find_in(b, quote(), o + 1, end) {
                    None => seq![],
                    Some(e) => {
                        proof {
                            lemma_find_in_found(b, concat_marker(), q, end);
                            lemma_find_in_found(b, quote(), o + 1, end);
                        }
                        let lit = b.subrange(o + 1, e);
                        if e + 1 - base > KEY_SCAN_LIMIT {
                            seq![lit]
                        } else {
                            seq![lit] + key_literals_from(b, base, end, e + 1)
                        }
                    },
                }
            } else {
                seq![]
            }
        },
    }
}

/// The key literals that follow an endpoint call at `pos`.
pub open spec fn key_literals(b: Seq<u8>, pos: int) -> Seq<Seq<u8>> {
    key_literals_from(b, pos, min(b.len() as int, pos + KEY_REGION_SIZE), pos)
}

/// What discovery finds in the bundle text `b`: the sub-page name and the
/// concatenated key literals of the located endpoint call, or why not.
pub open spec fn discovered_keys(b: Seq<u8>) -> Result<(Seq<char>, Seq<char>), DiscoveryError> {
    match endpoint_location(b) {
        None => Err(DiscoveryError::EndpointPatternNotFound),
        Some((pos, s, e)) => if key_literals(b, pos).len() == 0 {
            Err(DiscoveryError::KeyExtractionFailed)
        } else {
            Ok((decode_utf8(b.subrange(s, e)), decode_utf8(concat_all(key_literals(b, pos)))))
        },
    }
}

/// The bundle path named in the host page `h`, or why there is none.
pub open spec fn bundle_path_of(h: Seq<u8>) -> Result<Seq<char>, DiscoveryError> {
    match bundle_path_span(h) {
        None => Err(DiscoveryError::BundlePathNotFound),
        Some((a, c)) => Ok(decode_utf8(h.subrange(a, c))),
    }
}

/// The result of a discovery step as values.
pub open spec fn result_view<T: View>(r: Result<T, DiscoveryError>) -> Result<T::V, DiscoveryError> {
    match r {
        Ok(v) => Ok(v@),
        Err(e) => Err(e),
    }
}

/// The last quote before `end` that no backslash escapes.
pub open spec fn last_unescaped_quote(h: Seq<u8>, end: int) -> Option<int>
    decreases end,
{
    if end <= 0 || end > h.len() {
        None
    } else if h[end - 1] == 0x22u8 && !(end >= 2 && h[end - 2] == 0x5cu8) {
        Some(end - 1)
    } else {
        last_unescaped_quote(h, end - 1)
    }
}

/// Where the bundle path stands in the host page `h`: from just after the
/// last unescaped quote before the bundle mark to the next quote after it.
pub open spec fn bundle_path_span(h: Seq<u8>) -> Option<(int, int)> {
    match find_in(h, app_bundle_marker(), 0, h.len() as int) {
        None => None,
        Some(m) => match last_unescaped_quote(h, m) {
            None => None,
            Some(o) => match find_in(h, quote(), m, h.len() as int) {
                None => None,
                Some(c) => Some((o + 1, c)),
            },
        },
    }
}

pub open spec fn opt_pair(o: Option<(usize, usize)>) -> Option<(int, int)> {
    match o {
        Some((a, b)) => Some((a as int, b as int)),
        None => None,
    }
}

pub open spec fn opt_triple(o: Option<(usize, usize, usize)>) -> Option<(int, int, int)> {
    match o {
        Some((a, b, c)) => Some((a as int, b as int, c as int)),
        None => None,
    }
}

proof fn lemma_last_unescaped_quote(h: Seq<u8>, end: int)
    requires
        last_unescaped_quote(h, end) is Some,
    ensures
        0 <= last_unescaped_quote(h, end)->0 < end <= h.len(),
        h[last_unescaped_quote(h, end)->0] == 0x22u8,
    decreases end,
{
    if end <= 0 || end > h.len() {
    } else if h[end - 1] == 0x22u8 && !(end >= 2 && h[end - 2] == 0x5cu8) {
    } else {
        lemma_last_unescaped_quote(h, end - 1);
    }
}

/// An accepted generic candidate is an endpoint call followed by a
/// non-empty name that ends at a slash.
proof fn lemma_fallback_shape(b: Seq<u8>, i: int)
    requires
        fallback_from(b, i) is Some,
    ensures
        ({
            let (p, s) = fallback_from(b, i)->0;
            &&& 0 <= p
            &&& p + fetch_api_marker().len() < s < b.len()
            &&& matches_at(b, fetch_api_marker(), p)
            &&& b[s] == 0x2fu8
        }),
    decreases b.len() - i,
{
    if i < 0 || i + fetch_api_marker().len() > b.len() {
    } else if !matches_at(b, fetch_api_marker(), i) {
        lemma_fallback_shape(b, i + 1);
    } else {
        match fallback_accepts(b, i) {
            Some(s) => {
                lemma_find_in_found(b, slash(), i + fetch_api_marker().len(), b.len() as int);
                assert(b.subrange(s, s + 1)[0] == slash()[0]);
            },
            None => {
                if i + 1 + MIN_REMAINING_FOR_FALLBACK < b.len() {
                    lemma_fallback_shape(b, i + 1);
                }
            },
        }
    }
}

/// The sub-page name of a located endpoint sits between two slashes.
proof fn lemma_location_shape(b: Seq<u8>)
    requires
        endpoint_location(b) is Some,
    ensures
        ({
            let (p, s, e) = endpoint_location(b)->0;
            &&& 0 <= p && s == p + fetch_api_marker().len()
            &&& s <= e < b.len()
            &&& b[s - 1] == 0x2fu8
            &&& b[e] == 0x2fu8
        }),
{
    let names = known_endpoints();
    let m = fetch_api_marker();
    if known_candidate(b, names[0]) is Some || known_candidate(b, names[1]) is Some
        || known_candidate(b, names[2]) is Some {
        let k: int = if known_candidate(b, names[0]) is Some {
            0
        } else if known_candidate(b, names[1]) is Some {
            1
        } else {
            2
        };
        let pat = endpoint_pattern(names[k]);
        lemma_find_in_found(b, pat, 0, b.len() as int);
        let p = known_candidate(b, names[k])->0;
        assert(b.subrange(p, p + pat.len())[m.len() - 1] == pat[m.len() - 1]);
        let t: int = (m.len() + names[k].len()) as int;
        assert(b.subrange(p, p + pat.len())[t] == pat[t]);
    } else {
        lemma_fallback_shape(b, 0);
        let (p, s) = fallback_from(b, 0)->0;
        assert(b.subrange(p, p + m.len())[m.len() - 1] == m[m.len() - 1]);
    }
}

fn fetch_api_marker_bytes() -> (r: Vec<u8>)
    ensures
        r@ == fetch_api_marker(),
{
    let r = vec![0x66u8, 0x65u8, 0x74u8, 0x63u8, 0x68u8, 0x28u8, 0x22u8, 0x2fu8, 0x61u8, 0x70u8, 0x69u8, 0x2fu8];
    assert(r@ =~= fetch_api_marker());
    r
}

fn concat_marker_bytes() -> (r: Vec<u8>)
    ensures
        r@ == concat_marker(),
{
    let r = vec![0x2eu8, 0x63u8, 0x6fu8, 0x6eu8, 0x63u8, 0x61u8, 0x74u8, 0x28u8];
    assert(r@ =~= concat_marker());
    r
}

fn app_bundle_marker_bytes() -> (r: Vec<u8>)
    ensures
        r@ == app_bundle_marker(),
{
    let r = vec![0x2fu8, 0x70u8, 0x61u8, 0x67u8, 0x65u8, 0x73u8, 0x2fu8, 0x5fu8, 0x61u8, 0x70u8, 0x70u8, 0x2du8];
    assert(r@ =~= app_bundle_marker());
    r
}

fn quote_bytes() -> (r: Vec<u8>)
    ensures
        r@ == quote(),
{
    let r = vec![0x22u8];
    assert(r@ =~= quote());
    r
}

fn slash_bytes() -> (r: Vec<u8>)
    ensures
        r@ == slash(),
{
    let r = vec![0x2fu8];
    assert(r@ =~= slash());
    r
}

fn known_endpoint_bytes(k: usize) -> (r: Vec<u8>)
    requires
        k < 3,
    ensures
        r@ == known_endpoints()[k as int],
{
    let r = if k == 0 {
        vec![0x6cu8, 0x6fu8, 0x63u8, 0x61u8, 0x74u8, 0x65u8]
    } else if k == 1 {
        vec![0x73u8, 0x65u8, 0x61u8, 0x72u8, 0x63u8, 0x68u8]
    } else {
        vec![0x66u8, 0x69u8, 0x6eu8, 0x64u8]
    };
    assert(r@ =~= known_endpoints()[k as int]);
    r
}

fn is_excluded(name: &[u8]) -> (r: bool)
    ensures
        r == is_excluded_endpoint(name@),
{
    let game = vec![0x67u8, 0x61u8, 0x6du8, 0x65u8];
    let user = vec![0x75u8, 0x73u8, 0x65u8, 0x72u8];
    assert(game@ =~= seq![0x67u8, 0x61u8, 0x6du8, 0x65u8]);
    assert(user@ =~= seq![0x75u8, 0x73u8, 0x65u8, 0x72u8]);
    bytes_equal(name, game.as_slice()) || bytes_equal(name, user.as_slice())
}

/// The end of a window of `len` bytes at `start`, cut at `n`.
fn window_end(start: usize, len: usize, n: usize) -> (r: usize)
    requires
        start <= n,
    ensures
        r == min(n as int, start + len),
{
    if n - start > len {
        start + len
    } else {
        n
    }
}

fn find_known(b: &[u8], name: &[u8]) -> (r: Option<usize>)
    ensures
        opt_int(r) == known_candidate(b@, name@),
{
    let mut pat = fetch_api_marker_bytes();
    let mut rest = slice_to_vec(name);
    pat.append(&mut rest);
    pat.push(0x2fu8);
    assert(pat@ =~= endpoint_pattern(name@));
    let concat = concat_marker_bytes();
    match find_bytes(b, pat.as_slice(), 0, b.len()) {
        Some(pos) => {
            proof {
                lemma_find_in_found(b@, pat@, 0, b@.len() as int);
            }
            let end = window_end(pos + pat.len(), CONCAT_LOOKAHEAD, b.len());
            if find_bytes(b, concat.as_slice(), pos, end).is_some() {
                Some(pos)
            } else {
                None
            }
        },
        None => None,
    }
}

fn fallback_accepts_at(b: &[u8], i: usize) -> (r: Option<usize>)
    requires
        matches_at(b@, fetch_api_marker(), i as int),
    ensures
        opt_int(r) == fallback_accepts(b@, i as int),
{
    let after = i + 12;
    let sl = slash_bytes();
    match find_bytes(b, sl.as_slice(), after, b.len()) {
        Some(s) => {
            proof {
                lemma_find_in_found(b@, slash(), after as int, b@.len() as int);
            }
            let concat = concat_marker_bytes();
            let end = window_end(i, FALLBACK_CONCAT_LOOKAHEAD, b.len());
            let has = find_bytes(b, concat.as_slice(), i, end).is_some();
            if has && s > after && !is_excluded(slice_subrange(b, after, s)) {
                Some(s)
            } else {
                None
            }
        },
        None => None,
    }
}

fn find_fallback(b: &[u8]) -> (r: Option<(usize, usize)>)
    ensures
        opt_pair(r) == fallback_from(b@, 0),
{
    let marker = fetch_api_marker_bytes();
    let n = b.len();
    let mut i: usize = 0;
    while marker.len() <= n - i
        invariant
            i <= n == b@.len(),
            marker@ == fetch_api_marker(),
            fallback_from(b@, 0) == fallback_from(b@, i as int),
        decreases n - i,
    {
        if bytes_match_at(b, marker.as_slice(), i) {
            match fallback_accepts_at(b, i) {
                Some(s) => {
                    return Some((i, s));
                },
                None => {
                    if n - i <= 1 + MIN_REMAINING_FOR_FALLBACK {
                        return None;
                    }
                },
            }
        }
        i = i + 1;
    }
    None
}

fn locate_endpoint(b: &[u8]) -> (r: Option<(usize, usize, usize)>)
    ensures
        opt_triple(r) == endpoint_location(b@),
{
    let n = b.len();
    let mut k: usize = 0;
    while k < 3
        invariant
            k <= 3,
            n == b@.len(),
            forall|j: int| 0 <= j < k ==> known_candidate(b@, #[trigger] known_endpoints()[j]) is None,
        decreases 3 - k,
    {
        let name = known_endpoint_bytes(k);
        if let Some(p) = find_known(b, name.as_slice()) {
            proof {
                lemma_find_in_found(b@, endpoint_pattern(name@), 0, b@.len() as int);
                assert(k == 0 || k == 1 || k == 2);
            }
            return Some((p, p + 12, p + 12 + name.len()));
        }
        k = k + 1;
    }
    match find_fallback(b) {
        Some((p, s)) => {
            proof {
                lemma_fallback_shape(b@, 0);
            }
            Some((p, p + 12, s))
        },
        None => None,
    }
}

fn key_bytes(b: &[u8], pos: usize) -> (r: Option<Vec<u8>>)
    requires
        pos <= b@.len(),
        valid_utf8(b@),
    ensures
        r is Some <==> key_literals(b@, pos as int).len() > 0,
        r matches Some(k) ==> k@ == concat_all(key_literals(b@, pos as int)) && valid_utf8(k@),
{
    let n = b.len();
    let end = window_end(pos, KEY_REGION_SIZE, n);
    let concat = concat_marker_bytes();
    let qt = quote_bytes();
    let mut key: Vec<u8> = Vec::new();
    let mut found = false;
    let mut q = pos;
    let ghost mut parts: Seq<Seq<u8>> = seq![];
    proof {
        assert(parts + key_literals(b@, pos as int) =~= key_literals(b@, pos as int));
        assert(key@ =~= concat_all(parts));
    }
    loop
        invariant_except_break
            parts + key_literals_from(b@, pos as int, end as int, q as int) == key_literals(
                b@,
                pos as int,
            ),
            key@ == concat_all(parts),
            valid_utf8(key@),
            found == (parts.len() > 0),
        invariant
            pos <= q <= end <= n == b@.len(),
            end == min(n as int, pos + KEY_REGION_SIZE),
            concat@ == concat_marker(),
            qt@ == quote(),
            valid_utf8(b@),
        ensures
            parts == key_literals(b@, pos as int),
            key@ == concat_all(parts),
            valid_utf8(key@),
            found == (parts.len() > 0),
        decreases end - q,
    {
        let ghost rest = key_literals_from(b@, pos as int, end as int, q as int);
        match find_bytes(b, concat.as_slice(), q, end) {
            None => {
                assert(parts + rest =~= parts);
                break ;
            },
            Some(c) => {
                proof {
                    lemma_find_in_found(b@, concat_marker(), q as int, end as int);
                }
                let o = c + 8;
                if o < end && b[o] == 0x22u8 {
                    match find_bytes(b, qt.as_slice(), o + 1, end) {
                        None => {
                            assert(parts + rest =~= parts);
                            break ;
                        },
                        Some(e) => {
                            proof {
                                lemma_find_in_found(b@, quote(), o + 1, end as int);
                                assert(b@.subrange(e as int, e + 1)[0] == quote()[0]);
                                lemma_delimited_valid(b@, o as int, e as int);
                            }
                            let mut lit = slice_to_vec(slice_subrange(b, o + 1, e));
                            proof {
                                valid_utf8_concat(key@, lit@);
                                assert(parts.push(lit@).drop_last() =~= parts);
                                let tail = key_literals_from(b@, pos as int, end as int, e + 1);
                                if e + 1 - pos > KEY_SCAN_LIMIT {
                                    assert(parts.push(lit@) =~= parts + rest);
                                } else {
                                    assert(parts.push(lit@) + tail =~= parts + rest);
                                }
                                parts = parts.push(lit@);
                            }
                            key.append(&mut lit);
                            found = true;
                            q = e + 1;
                            if q - pos > KEY_SCAN_LIMIT {
                                break ;
                            }
                        },
                    }
                } else {
                    assert(parts + rest =~= parts);
                    break ;
                }
            },
        }
    }
    if found {
        Some(key)
    } else {
        None
    }
}

/// Finds the endpoint in the bundle text: its sub-page name and the access
/// key spelled out by the concatenated literals that follow the call.
pub fn api_keys_from_bundle(bundle: &str) -> (r: Result<ApiKeys, DiscoveryError>)
    ensures
        result_view(r) == discovered_keys(bundle.spec_bytes()),
{
    let b = bundle.as_bytes();
    proof {
        encode_utf8_valid_utf8(bundle@);
    }
    match locate_endpoint(b) {
        None => Err(DiscoveryError::EndpointPatternNotFound),
        Some((pos, s, e)) => {
            proof {
                lemma_location_shape(b@);
            }
            match key_bytes(b, pos) {
                None => Err(DiscoveryError::KeyExtractionFailed),
                Some(key) => {
                    proof {
                        lemma_delimited_valid(b@, s - 1, e as int);
                        assert(b@.subrange(s as int, e as int) =~= b@.subrange(s - 1 + 1, e as int));
                    }
                    let sub = slice_to_vec(slice_subrange(b, s, e));
                    match (string_from_utf8(sub), string_from_utf8(key)) {
                        (Some(sub_page), Some(search_key)) => Ok(ApiKeys { sub_page, search_key }),
                        _ => Err(DiscoveryError::KeyExtractionFailed),
                    }
                },
            }
        },
    }
}

fn last_unescaped_quote_before(h: &[u8], end: usize) -> (r: Option<usize>)
    requires
        end <= h@.len(),
    ensures
        opt_int(r) == last_unescaped_quote(h@, end as int),
{
    let mut k = end;
    while k > 0
        invariant
            k <= end <= h@.len(),
            last_unescaped_quote(h@, end as int) == last_unescaped_quote(h@, k as int),
        decreases k,
    {
        if h[k - 1] == 0x22u8 && !(k >= 2 && h[k - 2] == 0x5cu8) {
            return Some(k - 1);
        }
        k = k - 1;
    }
    None
}

/// Finds the path of the application bundle named in the host page.
pub fn bundle_path(html: &str) -> (r: Result<String, DiscoveryError>)
    ensures
        result_view(r) == bundle_path_of(html.spec_bytes()),
{
    let h = html.as_bytes();
    proof {
        encode_utf8_valid_utf8(html@);
    }
    let marker = app_bundle_marker_bytes();
    let qt = quote_bytes();
    match find_bytes(h, marker.as_slice(), 0, h.len()) {
        None => Err(DiscoveryError::BundlePathNotFound),
        Some(m) => {
            proof {
                lemma_find_in_found(h@, app_bundle_marker(), 0, h@.len() as int);
            }
            match last_unescaped_quote_before(h, m) {
                None => Err(DiscoveryError::BundlePathNotFound),
                Some(o) => {
                    proof {
                        lemma_last_unescaped_quote(h@, m as int);
                    }
                    match find_bytes(h, qt.as_slice(), m, h.len()) {
                        None => Err(DiscoveryError::BundlePathNotFound),
                        Some(c) => {
                            proof {
                                lemma_find_in_found(h@, quote(), m as int, h@.len() as int);
                                assert(h@.subrange(c as int, c + 1)[0] == quote()[0]);
                                lemma_delimited_valid(h@, o as int, c as int);
                            }
                            let path = slice_to_vec(slice_subrange(h, o + 1, c));
                            match string_from_utf8(path) {
                                Some(p) => Ok(p),
                                None => Err(DiscoveryError::BundlePathNotFound),
                            }
                        },
                    }
                },
            }
        },
    }
}

} // verus!
