//! Byte-level text scanning: pattern matching, forward and bounded search,
//! and the UTF-8 facts that let scanned slices become strings again.
use vstd::prelude::*;
use vstd::string::StringSliceAdditionalSpecFns;
use vstd::utf8::*;

verus! {

/// An optional offset as a mathematical integer.
pub open spec fn opt_int(o: Option<usize>) -> Option<int> {
    match o {
        Some(i) => Some(i as int),
        None => None,
    }
}

/// The pieces of `parts` joined end to end, in order.
pub open spec fn concat_all(parts: Seq<Seq<u8>>) -> Seq<u8>
    decreases parts.len(),
{
    if parts.len() == 0 {
        Seq::empty()
    } else {
        concat_all(parts.drop_last()) + parts.last()
    }
}

/// `p` occurs in `b` starting at offset `i`.
pub open spec fn matches_at(b: Seq<u8>, p: Seq<u8>, i: int) -> bool {
    0 <= i && i + p.len() <= b.len() && b.subrange(i, i + p.len()) == p
}

/// The first offset `i` in `from..` at which `p` occurs wholly inside
/// `b[..end]`, if there is one.
pub open spec fn find_in(b: Seq<u8>, p: Seq<u8>, from: int, end: int) -> Option<int>
    decreases end + 1 - from,
{
    if from < 0 || from + p.len() > end || end > b.len() {
        None
    } else if matches_at(b, p, from) {
        Some(from)
    } else {
        find_in(b, p, from + 1, end)
    }
}

/// A found offset lies in the searched range and holds a match.
pub proof fn lemma_find_in_found(b: Seq<u8>, p: Seq<u8>, from: int, end: int)
    requires
        find_in(b, p, from, end) is Some,
    ensures
        from <= find_in(b, p, from, end)->0,
        find_in(b, p, from, end)->0 + p.len() <= end <= b.len(),
        matches_at(b, p, find_in(b, p, from, end)->0),
    decreases end + 1 - from,
{
    if from < 0 || from + p.len() > end || end > b.len() {
    } else if matches_at(b, p, from) {
    } else {
        lemma_find_in_found(b, p, from + 1, end);
    }
}

/// Whether `p` occurs in `b` at offset `i`.
pub fn bytes_match_at(b: &[u8], p: &[u8], i: usize) -> (r: bool)
    ensures
        r == matches_at(b@, p@, i as int),
{
    if i > b.len() || p.len() > b.len() - i {
        return false;
    }
    let mut k: usize = 0;
    while k < p.len()
        invariant
            i + p@.len() <= b@.len(),
            b@.len() <= usize::MAX,
            k <= p@.len(),
            forall|j: int| 0 <= j < k ==> b@[i + j] == p@[j],
        decreases p@.len() - k,
    {
        if b[i + k] != p[k] {
            assert(b@.subrange(i as int, i + p@.len())[k as int] != p@[k as int]);
            return false;
        }
        k = k + 1;
    }
    assert(b@.subrange(i as int, i + p@.len()) =~= p@);
    true
}

/// The first offset at or after `from` where `p` occurs wholly inside
/// `b[..end]`.
pub fn find_bytes(b: &[u8], p: &[u8], from: usize, end: usize) -> (r: Option<usize>)
    requires
        end <= b@.len(),
    ensures
        opt_int(r) == find_in(b@, p@, from as int, end as int),
{
    if from > end {
        return None;
    }
    if p.len() == 0 {
        assert(b@.subrange(from as int, from as int) =~= p@);
        return Some(from);
    }
    let mut i = from;
    while p.len() <= end - i
        invariant
            end <= b@.len(),
            p@.len() > 0,
            from <= i <= end,
            find_in(b@, p@, from as int, end as int) == find_in(b@, p@, i as int, end as int),
        decreases end - i,
    {
        if bytes_match_at(b, p, i) {
            return Some(i);
        }
        i = i + 1;
    }
    None
}

/// The bytes strictly between an ASCII byte at `o` and either an ASCII byte
/// at `c` or the end of `b` are valid UTF-8 when `b` is.
pub proof fn lemma_delimited_valid(b: Seq<u8>, o: int, c: int)
    requires
        valid_utf8(b),
        0 <= o < c <= b.len(),
        b[o] < 0x80,
        c == b.len() || b[c] < 0x80,
    ensures
        valid_utf8(b.subrange(o + 1, c)),
{
    if c == b.len() {
        is_char_boundary_start_end_of_seq(b);
    } else {
        is_char_boundary_iff_not_is_continuation_byte(b, c);
    }
    valid_utf8_split(b, c);
    let pre = b.subrange(0, c);
    assert(pre[o] == b[o]);
    is_char_boundary_iff_not_is_continuation_byte(pre, o);
    valid_utf8_split(pre, o);
    let x = pre.subrange(o, c);
    assert(x =~= b.subrange(o, c));
    assert(is_leading_byte_width_1(x[0]));
    assert(pop_first_scalar(x) =~= b.subrange(o + 1, c));
}

/// Whether two byte strings are equal.
pub fn bytes_equal(a: &[u8], b: &[u8]) -> (r: bool)
    ensures
        r == (a@ == b@),
{
    if a.len() != b.len() {
        return false;
    }
    let r = bytes_match_at(a, b, 0);
    assert(a@.subrange(0, b@.len() as int) =~= a@);
    r
}

/// Relies on `String::from_utf8`: it accepts exactly the byte strings that
/// are valid UTF-8, and the `String` it returns holds the characters that
/// those bytes encode.
#[verifier::external_body]
pub(crate) fn string_from_utf8(bytes: Vec<u8>) -> (r: Option<String>)
    ensures
        r is Some <==> valid_utf8(bytes@),
        r matches Some(s) ==> s@ == decode_utf8(bytes@),
{
    String::from_utf8(bytes).ok()
}

/// The last character boundary of `b` at or before `k`.
pub open spec fn boundary_at_most(b: Seq<u8>, k: int) -> int
    decreases k,
{
    if k <= 0 || is_char_boundary(b, k) {
        if k <= 0 {
            0
        } else {
            k
        }
    } else {
        boundary_at_most(b, k - 1)
    }
}

/// The length in bytes of the text `b` cut to at most `max` bytes at a
/// character boundary.
pub open spec fn snippet_len(b: Seq<u8>, max: int) -> int {
    if b.len() <= max {
        b.len() as int
    } else {
        boundary_at_most(b, max)
    }
}

/// The characters of `text` that remain when it is cut to at most `max`
/// bytes at a character boundary.
pub open spec fn snippet(text: Seq<char>, max: int) -> Seq<char> {
    decode_utf8(encode_utf8(text).subrange(0, snippet_len(encode_utf8(text), max)))
}

/// `s` cut to at most `max_len` bytes, at the last character boundary that
/// fits: the whole of `s` when it is short enough.
pub fn truncate_str(s: &str, max_len: usize) -> (r: &str)
    ensures
        r.spec_bytes() == s.spec_bytes().subrange(0, snippet_len(s.spec_bytes(), max_len as int)),
        r@ == snippet(s@, max_len as int),
{
    proof {
        encode_utf8_valid_utf8(s@);
        is_char_boundary_start_end_of_seq(s.spec_bytes());
    }
    let bytes = s.as_bytes();
    if bytes.len() <= max_len {
        assert(s.spec_bytes().subrange(0, s.spec_bytes().len() as int) =~= s.spec_bytes());
        proof {
            encode_utf8_decode_utf8(s@);
        }
        return s;
    }
    let mut k = max_len;
    while !s.is_char_boundary(k)
        invariant
            k <= max_len < s.spec_bytes().len(),
            valid_utf8(s.spec_bytes()),
            is_char_boundary(s.spec_bytes(), 0),
            boundary_at_most(s.spec_bytes(), k as int) == boundary_at_most(
                s.spec_bytes(),
                max_len as int,
            ),
        decreases k,
    {
        k = k - 1;
    }
    let (head, _) = s.split_at(k);
    proof {
        encode_utf8_decode_utf8(head@);
    }
    head
}

/// `text` cut to at most `max_len` bytes at a character boundary, as an
/// owned string.
pub fn snippet_of(text: &str, max_len: usize) -> (r: String)
    ensures
        r@ == snippet(text@, max_len as int),
{
    truncate_str(text, max_len).to_owned()
}

} // verus!
