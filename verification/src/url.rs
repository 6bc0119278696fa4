//! URL text handling: percent-encoding of path segments, percent-decoding
//! of query values, and reading one parameter out of a redirect URL.

use vstd::prelude::*;
use vstd::utf8::*;
use crate::text::{
    after_first, before_first, chars_eq, chars_of, find_char, hex_value, lemma_find_char,
    lemma_find_char_at, split_on, string_of_range, find_from, lemma_find_in_range,
};
use crate::json::opt_string;

verus! {

// ---------------------------------------------------------------------------
// Percent-encoding (urlencoding::encode)
// ---------------------------------------------------------------------------

/// Bytes that `urlencoding::encode` leaves as they are: ASCII
/// alphanumerics and `-`, `.`, `_`, `~`.
pub open spec fn is_unreserved(b: u8) -> bool {
    ||| (0x30 <= b && b <= 0x39)
    ||| (0x41 <= b && b <= 0x5a)
    ||| (0x61 <= b && b <= 0x7a)
    ||| b == 0x2d
    ||| b == 0x2e
    ||| b == 0x5f
    ||| b == 0x7e
}

/// Upper-case hex digit for `d < 16`.
pub open spec fn hex_upper(d: nat) -> char {
    if d < 10 {
        (('0' as nat) + d) as char
    } else {
        (('A' as nat) + d - 10) as char
    }
}

/// Percent-encoding of a byte string: unreserved bytes as themselves, every
/// other byte as `%` and two upper-case hex digits.
pub open spec fn url_encode_bytes(b: Seq<u8>) -> Seq<char>
    decreases b.len(),
{
    if b.len() == 0 {
        Seq::empty()
    } else {
        let head = if is_unreserved(b[0]) {
            seq![b[0] as char]
        } else {
            seq!['%', hex_upper(b[0] as nat / 16), hex_upper(b[0] as nat % 16)]
        };
        head + url_encode_bytes(b.drop_first())
    }
}

/// Percent-encoding of the UTF-8 bytes of a text.
pub open spec fn url_encoded(s: Seq<char>) -> Seq<char> {
    url_encode_bytes(encode_utf8(s))
}

/// `urlencoding::encode`: percent-encodes every UTF-8 byte of `s` except
/// ASCII alphanumerics and `-`, `.`, `_`, `~`.
#[verifier::external_body]
pub(crate) fn url_encode(s: &str) -> (r: String)
    ensures
        r@ == url_encoded(s@),
{
    urlencoding::encode(s).into_owned()
}

/// Characters an encoded segment can hold: ASCII alphanumerics, `-`, `.`,
/// `_`, `~` and the `%` of an escape.
pub open spec fn is_segment_char(c: char) -> bool {
    ||| ('0' <= c && c <= '9')
    ||| ('A' <= c && c <= 'Z')
    ||| ('a' <= c && c <= 'z')
    ||| c == '-'
    ||| c == '.'
    ||| c == '_'
    ||| c == '~'
    ||| c == '%'
}

proof fn lemma_encode_bytes_segment_chars(b: Seq<u8>)
    ensures
        forall|i: int| 0 <= i < url_encode_bytes(b).len() ==> is_segment_char(#[trigger] url_encode_bytes(b)[i]),
    decreases b.len(),
{
    if b.len() > 0 {
        lemma_encode_bytes_segment_chars(b.drop_first());
        let head = if is_unreserved(b[0]) {
            seq![b[0] as char]
        } else {
            seq!['%', hex_upper(b[0] as nat / 16), hex_upper(b[0] as nat % 16)]
        };
        let rest = url_encode_bytes(b.drop_first());
        assert(url_encode_bytes(b) == head + rest);
        assert forall|i: int| 0 <= i < head.len() implies is_segment_char(#[trigger] head[i]) by {
            if !is_unreserved(b[0]) && i > 0 {
                let d = if i == 1 { b[0] as nat / 16 } else { b[0] as nat % 16 };
                assert(d < 16);
                assert(head[i] == hex_upper(d));
            }
        }
        assert forall|i: int| 0 <= i < url_encode_bytes(b).len() implies is_segment_char(
            #[trigger] url_encode_bytes(b)[i],
        ) by {
            if i < head.len() {
                assert(url_encode_bytes(b)[i] == head[i]);
            } else {
                assert(url_encode_bytes(b)[i] == rest[i - head.len()]);
            }
        }
    }
}

/// An identifier placed in a path through `urlencoding::encode` stays in
/// its segment: the encoding holds no `/`, `?`, `#`, `&`, `=` or `+`,
/// only characters of [`is_segment_char`].
pub proof fn lemma_encoded_segment_is_confined(s: Seq<char>)
    ensures
        forall|i: int| 0 <= i < url_encoded(s).len() ==> is_segment_char(#[trigger] url_encoded(s)[i]),
        !url_encoded(s).contains('/'),
        !url_encoded(s).contains('?'),
        !url_encoded(s).contains('#'),
        !url_encoded(s).contains('&'),
        !url_encoded(s).contains('='),
        !url_encoded(s).contains('+'),
{
    lemma_encode_bytes_segment_chars(encode_utf8(s));
}

// ---------------------------------------------------------------------------
// Percent-decoding
// ---------------------------------------------------------------------------

/// The byte that the escape `%` `b1` `b2` stands for, where both are hex
/// digits.
pub open spec fn hex_pair(b1: u8, b2: u8) -> Option<u8> {
    match (hex_value(b1), hex_value(b2)) {
        (Some(h), Some(l)) => Some((h * 16 + l) as u8),
        _ => None,
    }
}

/// Decoding of a byte string: `+` becomes a space, `%XY` becomes the byte
/// `0xXY`, and anything else (a malformed escape included) stays.
pub open spec fn pct_decode_bytes(b: Seq<u8>) -> Seq<u8>
    decreases b.len(),
{
    if b.len() == 0 {
        Seq::empty()
    } else if b[0] == 0x2b {
        seq![0x20u8] + pct_decode_bytes(b.drop_first())
    } else if b[0] == 0x25 && b.len() > 2 && hex_pair(b[1], b[2]) is Some {
        seq![hex_pair(b[1], b[2])->0] + pct_decode_bytes(b.subrange(3, b.len() as int))
    } else {
        seq![b[0]] + pct_decode_bytes(b.drop_first())
    }
}

/// The decoded text, or the input unchanged when the decoded bytes are not
/// UTF-8.
pub open spec fn percent_decoded(s: Seq<char>) -> Seq<char> {
    let d = pct_decode_bytes(encode_utf8(s));
    if valid_utf8(d) {
        decode_utf8(d)
    } else {
        s
    }
}

/// `String::from_utf8`: the text the bytes encode, or `None` when they are
/// not UTF-8.
#[verifier::external_body]
pub(crate) fn string_from_utf8(bytes: Vec<u8>) -> (r: Option<String>)
    ensures
        r is Some <==> valid_utf8(bytes@),
        r matches Some(s) ==> s@ == decode_utf8(bytes@),
{
    String::from_utf8(bytes).ok()
}

fn hex_digit(b: u8) -> (r: Option<u8>)
    ensures
        r == hex_value(b),
{
    if 0x30 <= b && b <= 0x39 {
        Some(b - 0x30)
    } else if 0x41 <= b && b <= 0x46 {
        Some(b - 0x41 + 10)
    } else if 0x61 <= b && b <= 0x66 {
        Some(b - 0x61 + 10)
    } else {
        None
    }
}

fn hex_pair_exec(b1: u8, b2: u8) -> (r: Option<u8>)
    ensures
        r == hex_pair(b1, b2),
{
    match (hex_digit(b1), hex_digit(b2)) {
        (Some(h), Some(l)) => Some(h * 16 + l),
        _ => None,
    }
}

/// Minimal percent-decoder for query-string values: `+` becomes a space
/// and `%XX` a byte; a malformed escape is kept as it is. When the decoded
/// bytes are not UTF-8 the input comes back unchanged.
pub fn percent_decode(input: &str) -> (r: String)
    ensures
        r@ == percent_decoded(input@),
{
    let bytes = input.as_bytes();
    let ghost all = bytes@;
    assert(all == encode_utf8(input@));
    let mut out: Vec<u8> = Vec::new();
    let mut i: usize = 0;
    assert(all.subrange(0, all.len() as int) =~= all);
    while i < bytes.len()
        invariant
            i <= bytes.len(),
            all == bytes@,
            out@ + pct_decode_bytes(all.subrange(i as int, all.len() as int)) == pct_decode_bytes(all),
        decreases bytes.len() - i,
    {
        let ghost rest = all.subrange(i as int, all.len() as int);
        let b = bytes[i];
        assert(rest[0] == b);
        if b == 0x2b {
            out.push(0x20);
            assert(rest.drop_first() =~= all.subrange(i + 1, all.len() as int));
            i = i + 1;
        } else if b == 0x25 && bytes.len() - i > 2 {
            assert(rest[1] == bytes@[i + 1]);
            assert(rest[2] == bytes@[i + 2]);
            match hex_pair_exec(bytes[i + 1], bytes[i + 2]) {
                Some(v) => {
                    out.push(v);
                    assert(rest.subrange(3, rest.len() as int) =~= all.subrange(i + 3, all.len() as int));
                    i = i + 3;
                },
                None => {
                    out.push(b);
                    assert(rest.drop_first() =~= all.subrange(i + 1, all.len() as int));
                    i = i + 1;
                },
            }
        } else {
            out.push(b);
            assert(rest.drop_first() =~= all.subrange(i + 1, all.len() as int));
            i = i + 1;
        }
    }
    assert(all.subrange(i as int, all.len() as int) =~= Seq::<u8>::empty());
    assert(out@ =~= pct_decode_bytes(all));
    match string_from_utf8(out) {
        Some(s) => s,
        None => input.to_owned(),
    }
}

// ---------------------------------------------------------------------------
// Query parameters
// ---------------------------------------------------------------------------

/// Key of a `k=v` pair (the whole pair when it has no `=`).
pub open spec fn pair_key(p: Seq<char>) -> Seq<char> {
    before_first(p, '=')
}

/// Value of a `k=v` pair (empty when it has no `=`).
pub open spec fn pair_value(p: Seq<char>) -> Seq<char> {
    match after_first(p, '=') {
        Some(v) => v,
        None => Seq::empty(),
    }
}

/// Raw value of the first pair whose key is `key`.
pub open spec fn first_value(pairs: Seq<Seq<char>>, key: Seq<char>) -> Option<Seq<char>>
    decreases pairs.len(),
{
    if pairs.len() == 0 {
        None
    } else if pair_key(pairs[0]) == key {
        Some(pair_value(pairs[0]))
    } else {
        first_value(pairs.drop_first(), key)
    }
}

/// The query part of a URL: after the first `?`, up to the first `#`.
pub open spec fn query_of(url: Seq<char>) -> Option<Seq<char>> {
    match after_first(url, '?') {
        Some(q) => Some(before_first(q, '#')),
        None => None,
    }
}

/// Raw (still percent-encoded) value of parameter `key` in `url`.
pub open spec fn query_param_raw(url: Seq<char>, key: Seq<char>) -> Option<Seq<char>> {
    match query_of(url) {
        Some(q) => first_value(split_on(q, '&'), key),
        None => None,
    }
}

/// Decoded value of parameter `key` in `url`.
pub open spec fn query_param(url: Seq<char>, key: Seq<char>) -> Option<Seq<char>> {
    match query_param_raw(url, key) {
        Some(v) => Some(percent_decoded(v)),
        None => None,
    }
}

/// The raw (still percent-encoded) value of a query-string parameter:
/// `None` when the URL has no query or the key is missing; the first match
/// otherwise.
pub fn query_param_raw_of(url: &str, key: &str) -> (r: Option<String>)
    ensures
        opt_string(r) == query_param_raw(url@, key@),
{
    let cs = chars_of(url);
    let kc = chars_of(key);
    let n = cs.len();
    let qmark = find_from(&cs, '?', 0, n);
    proof {
        lemma_find_in_range(cs@, '?', 0, n as int, qmark as int);
        assert(cs@.subrange(0, n as int) =~= cs@);
    }
    if qmark == n {
        return None;
    }
    let start = qmark + 1;
    let end = find_from(&cs, '#', start, n);
    let ghost q = cs@.subrange(start as int, n as int);
    proof {
        lemma_find_in_range(cs@, '#', start as int, n as int, end as int);
        assert(q.subrange(0, end - start) =~= cs@.subrange(start as int, end as int));
    }
    assert(query_of(url@) == Some(cs@.subrange(start as int, end as int)));
    let mut a = start;
    loop
        invariant
            start <= a <= end <= n == cs.len(),
            cs@ == url@,
            kc@ == key@,
            query_param_raw(url@, key@) == first_value(
                split_on(cs@.subrange(a as int, end as int), '&'),
                key@,
            ),
        decreases end - a,
    {
        let b = find_from(&cs, '&', a, end);
        let ghost region = cs@.subrange(a as int, end as int);
        let ghost piece = cs@.subrange(a as int, b as int);
        proof {
            lemma_find_in_range(cs@, '&', a as int, end as int, b as int);
            assert(region.subrange(0, b - a) =~= piece);
            if b < end {
                assert(region.subrange(b - a + 1, region.len() as int) =~= cs@.subrange(b + 1, end as int));
            }
        }
        assert(split_on(region, '&')[0] == piece);
        let eq = find_from(&cs, '=', a, b);
        proof {
            lemma_find_in_range(cs@, '=', a as int, b as int, eq as int);
            assert(piece.subrange(0, eq - a) =~= cs@.subrange(a as int, eq as int));
            if eq < b {
                assert(piece.subrange(eq - a + 1, piece.len() as int) =~= cs@.subrange(eq + 1, b as int));
            }
        }
        let k = string_of_range(&cs, a, eq);
        let kv = chars_of(k.as_str());
        if chars_eq(&kv, &kc) {
            let v = if eq < b {
                string_of_range(&cs, eq + 1, b)
            } else {
                String::new()
            };
            assert(v@ == pair_value(piece));
            assert(query_param_raw(url@, key@) == Some(v@));
            return Some(v);
        }
        assert(pair_key(piece) != key@);
        if b == end {
            assert(split_on(region, '&') == seq![piece]);
            assert(split_on(region, '&').drop_first() =~= Seq::<Seq<char>>::empty());
            assert(first_value(Seq::<Seq<char>>::empty(), key@) is None);
            assert(first_value(split_on(region, '&'), key@) is None);
            return None;
        }
        assert(split_on(region, '&').drop_first() == split_on(cs@.subrange(b + 1, end as int), '&'));
        a = b + 1;
    }
}

/// Pull a query-string parameter value out of a URL: `None` when the URL
/// has no query or the key is missing; the first match otherwise,
/// percent-decoded.
pub fn extract_query_param(url: &str, key: &str) -> (r: Option<String>)
    ensures
        opt_string(r) == query_param(url@, key@),
{
    match query_param_raw_of(url, key) {
        Some(v) => Some(percent_decode(v.as_str())),
        None => None,
    }
}

} // verus!
