//! Encoding helpers: base64, URL encoding, HTML entities, number extraction
//! and URL normalization.

use vstd::prelude::*;
use base64::Engine;
use crate::error::Error;
use crate::numeric::{parse_digits, parsed_digits};
use crate::pattern::{regex_find_all, regex_matches};
use crate::text::{chars_of, has_prefix, push_all, starts_with, string_from_chars};
use crate::types::texts;

verus! {

/// The error of `base64`'s decoder, carried through as it is.
#[verifier::external_type_specification]
#[verifier::external_body]
pub struct ExDecodeError(base64::DecodeError);

/// The standard base64 encoding, with padding, of a byte sequence: what
/// `Engine::encode` of `base64::engine::general_purpose::STANDARD` returns.
pub uninterp spec fn base64_text(bytes: Seq<u8>) -> Seq<char>;

/// The bytes that `text` is the standard base64 encoding of, if any.
pub open spec fn base64_bytes(text: Seq<char>) -> Option<Seq<u8>> {
    if exists|bytes: Seq<u8>| base64_text(bytes) == text {
        Some(choose|bytes: Seq<u8>| base64_text(bytes) == text)
    } else {
        None
    }
}

/// Calls `Engine::encode` of the `STANDARD` engine. The contract names the
/// result and claims that no other byte sequence has the same encoding.
/// The length bound keeps the crate's size computation from overflowing.
#[verifier::external_body]
fn standard_encode(bytes: &[u8]) -> (r: String)
    requires
        bytes@.len() <= usize::MAX / 2,
    ensures
        r@ == base64_text(bytes@),
        forall|other: Seq<u8>| #[trigger] base64_text(other) == r@ ==> other == bytes@,
{
    base64::engine::general_purpose::STANDARD.encode(bytes)
}

/// Calls `Engine::decode` of the `STANDARD` engine, which requires
/// canonical padding and rejects trailing bits: it accepts exactly the
/// texts that `encode` produces, and returns the bytes that were encoded.
#[verifier::external_body]
fn standard_decode(text: &str) -> (r: Result<Vec<u8>, base64::DecodeError>)
    ensures
        match r {
            Ok(bytes) => base64_text(bytes@) == text@ && forall|other: Seq<u8>| #[trigger]
                base64_text(other) == text@ ==> other == bytes@,
            Err(_) => forall|other: Seq<u8>| #[trigger] base64_text(other) != text@,
        },
{
    base64::engine::general_purpose::STANDARD.decode(text)
}

/// Calls `to_string` on a `base64::DecodeError`: its message.
#[verifier::external_body]
fn decode_error_text(e: &base64::DecodeError) -> (r: String) {
    e.to_string()
}

/// The standard base64 encoding of `bytes`. Decoding the result gives
/// `bytes` back.
pub fn bytes_to_base64(bytes: &[u8]) -> (r: String)
    requires
        bytes@.len() <= usize::MAX / 2,
    ensures
        r@ == base64_text(bytes@),
        base64_bytes(r@) == Some(bytes@),
{
    standard_encode(bytes)
}

/// The bytes that `base64` encodes; `Error::Decode` where it is no
/// standard base64 text.
pub fn base64_to_bytes(base64: &str) -> (r: Result<Vec<u8>, Error>)
    ensures
        match r {
            Ok(bytes) => base64_bytes(base64@) == Some(bytes@) && base64_text(bytes@) == base64@,
            Err(e) => base64_bytes(base64@) is None && e is Decode,
        },
{
    match standard_decode(base64) {
        Ok(bytes) => Ok(bytes),
        Err(e) => Err(Error::Decode(decode_error_text(&e))),
    }
}

/// The upper-case hexadecimal digit of `n`.
pub open spec fn hex_char(n: nat) -> char {
    if n == 0 {
        '0'
    } else if n == 1 {
        '1'
    } else if n == 2 {
        '2'
    } else if n == 3 {
        '3'
    } else if n == 4 {
        '4'
    } else if n == 5 {
        '5'
    } else if n == 6 {
        '6'
    } else if n == 7 {
        '7'
    } else if n == 8 {
        '8'
    } else if n == 9 {
        '9'
    } else if n == 10 {
        'A'
    } else if n == 11 {
        'B'
    } else if n == 12 {
        'C'
    } else if n == 13 {
        'D'
    } else if n == 14 {
        'E'
    } else {
        'F'
    }
}

/// The bytes that form encoding leaves as they are: ASCII letters and
/// digits and `*`, `-`, `.`, `_`.
pub open spec fn form_unchanged(b: u8) -> bool {
    b == 0x2a || b == 0x2d || b == 0x2e || (0x30 <= b && b <= 0x39) || (0x41 <= b && b <= 0x5a) || b
        == 0x5f || (0x61 <= b && b <= 0x7a)
}

/// How `application/x-www-form-urlencoded` writes one byte.
pub open spec fn form_byte(b: u8) -> Seq<char> {
    if form_unchanged(b) {
        seq![b as char]
    } else if b == 0x20 {
        seq!['+']
    } else {
        seq!['%', hex_char((b / 16) as nat), hex_char((b % 16) as nat)]
    }
}

/// The `application/x-www-form-urlencoded` serialization of a byte string.
pub open spec fn form_encoded(bytes: Seq<u8>) -> Seq<char>
    decreases bytes.len(),
{
    if bytes.len() == 0 {
        Seq::empty()
    } else {
        form_encoded(bytes.drop_last()) + form_byte(bytes.last())
    }
}

/// `s` with every `+` written as `%20`.
pub open spec fn plus_as_percent(s: Seq<char>) -> Seq<char>
    decreases s.len(),
{
    if s.len() == 0 {
        Seq::empty()
    } else if s.last() == '+' {
        plus_as_percent(s.drop_last()) + seq!['%', '2', '0']
    } else {
        plus_as_percent(s.drop_last()).push(s.last())
    }
}

/// Calls `url::form_urlencoded::byte_serialize` and joins the pieces: each
/// byte is kept, written as `+` (a space) or percent-encoded with
/// upper-case hexadecimal digits.
#[verifier::external_body]
pub(crate) fn form_urlencode(bytes: &[u8]) -> (r: String)
    ensures
        r@ == form_encoded(bytes@),
{
    url::form_urlencoded::byte_serialize(bytes).collect()
}

/// Percent-encodes `s` for use in a URL: form encoding of its UTF-8 bytes,
/// with a space written as `%20`.
pub fn url_encode(s: &str) -> (r: String)
    ensures
        r@ == plus_as_percent(form_encoded(vstd::utf8::encode_utf8(s@))),
{
    let form = form_urlencode(s.as_bytes());
    let chars = chars_of(form.as_str());
    let mut out: Vec<char> = Vec::new();
    let mut i: usize = 0;
    while i < chars.len()
        invariant
            i <= chars.len(),
            out@ == plus_as_percent(chars@.take(i as int)),
        decreases chars.len() - i,
    {
        proof {
            assert(chars@.take(i + 1).drop_last() =~= chars@.take(i as int));
        }
        if chars[i] == '+' {
            out.push('%');
            out.push('2');
            out.push('0');
        } else {
            out.push(chars[i]);
        }
        i += 1;
    }
    assert(chars@.take(chars.len() as int) =~= chars@);
    string_from_chars(&out)
}

/// `text` with its HTML character references decoded, as
/// `html_escape::decode_html_entities` does it.
pub uninterp spec fn html_entities_decoded(text: Seq<char>) -> Seq<char>;

/// Calls `html_escape::decode_html_entities`. The contract claims only that
/// the decoded text is a function of the text.
#[verifier::external_body]
fn decode_entities(text: &str) -> (r: String)
    ensures
        r@ == html_entities_decoded(text@),
{
    html_escape::decode_html_entities(text).into_owned()
}

/// `s` with its HTML character references decoded.
pub fn html_unescape(s: &str) -> (r: String)
    ensures
        r@ == html_entities_decoded(s@),
{
    decode_entities(s)
}

/// The numbers that a list of digit runs denotes, leaving out the runs
/// that denote no `i64`.
pub open spec fn numbers_of(runs: Seq<Seq<char>>) -> Seq<i64>
    decreases runs.len(),
{
    if runs.len() == 0 {
        Seq::empty()
    } else {
        match parsed_digits(runs.last()) {
            Some(n) => numbers_of(runs.drop_last()).push(n),
            None => numbers_of(runs.drop_last()),
        }
    }
}

/// The numbers that the digit runs `runs` denote, in order; a run that
/// holds anything but ASCII digits, or does not fit an `i64`, is left out.
pub fn numbers_from_runs(runs: &Vec<String>) -> (r: Vec<i64>)
    ensures
        r@ == numbers_of(texts(*runs)),
{
    let mut out: Vec<i64> = Vec::new();
    let mut i: usize = 0;
    while i < runs.len()
        invariant
            i <= runs.len(),
            out@ == numbers_of(texts(*runs).take(i as int)),
        decreases runs.len() - i,
    {
        proof {
            assert(texts(*runs).take(i + 1).drop_last() =~= texts(*runs).take(i as int));
        }
        let chars = chars_of(runs[i].as_str());
        match parse_digits(&chars) {
            Some(n) => {
                out.push(n);
            },
            None => {},
        }
        i += 1;
    }
    assert(texts(*runs).take(runs.len() as int) =~= texts(*runs));
    out
}

/// What `extract_numbers` returns for the matches of the digit pattern.
pub open spec fn extracted_numbers(matches: Option<Seq<Seq<char>>>) -> Seq<i64> {
    match matches {
        Some(runs) => numbers_of(runs),
        None => Seq::empty(),
    }
}

/// The numbers written in `s`: each maximal run of digits, read as an
/// `i64`, in order of appearance.
pub fn extract_numbers(s: &str) -> (r: Vec<i64>)
    ensures
        r@ == extracted_numbers(regex_matches("\\d+"@, s@)),
{
    match regex_find_all("\\d+", s) {
        Some(runs) => numbers_from_runs(&runs),
        None => Vec::new(),
    }
}

/// A URL with its scheme: a text that begins with `http` is kept, any
/// other (a protocol-relative `//host/path`) gets `https:` in front.
pub open spec fn normalized_url(url: Seq<char>) -> Seq<char> {
    if has_prefix(url, "http"@) {
        url
    } else {
        "https:"@ + url
    }
}

/// Brings a protocol-relative URL to an absolute one.
pub fn normalize_url(url: &str) -> (r: Result<String, Error>)
    ensures
        r is Ok,
        r->Ok_0@ == normalized_url(url@),
{
    let chars = chars_of(url);
    let prefix = chars_of("http");
    if starts_with(&chars, &prefix) {
        Ok(string_from_chars(&chars))
    } else {
        let mut out = chars_of("https:");
        push_all(&mut out, &chars);
        Ok(string_from_chars(&out))
    }
}

/// Normalizing a URL twice gives what normalizing it once gives.
pub proof fn lemma_normalize_url_idempotent(url: Seq<char>)
    ensures
        normalized_url(normalized_url(url)) == normalized_url(url),
{
    reveal_strlit("http");
    reveal_strlit("https:");
    if !has_prefix(url, "http"@) {
        let once = "https:"@ + url;
        assert(once.subrange(0, 4) =~= "http"@);
    }
}

/// A URL is protocol-relative: it begins with `//`.
pub open spec fn is_relative(url: Seq<char>) -> bool {
    has_prefix(url, "//"@)
}

/// A URL with its scheme: `https:` goes in front of a protocol-relative
/// one, any other is kept.
pub open spec fn with_scheme(url: Seq<char>) -> Seq<char> {
    if is_relative(url) {
        "https:"@ + url
    } else {
        url
    }
}

/// Gives a protocol-relative URL its scheme.
pub fn add_scheme(url: String) -> (r: String)
    ensures
        r@ == with_scheme(url@),
{
    if crate::text::text_starts_with(url.as_str(), "//") {
        crate::text::concat("https:", url.as_str())
    } else {
        url
    }
}

/// A URL that was given its scheme is not protocol-relative.
pub proof fn lemma_with_scheme_absolute(url: Seq<char>)
    ensures
        !is_relative(with_scheme(url)),
{
    reveal_strlit("//");
    reveal_strlit("https:");
    if is_relative(url) {
        let full = "https:"@ + url;
        assert(full.subrange(0, 2)[0] == 'h');
    }
}

/// A normalized URL is not protocol-relative.
pub proof fn lemma_normalized_absolute(url: Seq<char>)
    ensures
        !is_relative(normalized_url(url)),
{
    reveal_strlit("//");
    reveal_strlit("http");
    reveal_strlit("https:");
    let full = normalized_url(url);
    if has_prefix(url, "http"@) {
        assert(url.subrange(0, 4)[0] == 'h');
        if is_relative(url) {
        }
    } else {
        if is_relative(full) {
            assert(full.subrange(0, 2)[0] == 'h');
        }
    }
}

} // verus!
