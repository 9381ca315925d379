//! The calls into other crates, and the one function of the standard
//! library that is used without a specification of its own. Each item here
//! states what its documentation says; none of these statements is proved.

use vstd::prelude::*;

verus! {

/// `String::push` appends one character.
pub assume_specification[ String::push ](s: &mut String, ch: char)
    ensures
        final(s)@ == old(s)@.push(ch),
;

/// The hexadecimal digit for a value below sixteen, in lower case.
pub open spec fn hex_char(n: u128) -> char {
    if n < 10 {
        ((48 + n) as u8) as char
    } else {
        ((87 + n) as u8) as char
    }
}

/// The `i`-th of the 32 hexadecimal digits of `v`, most significant first.
pub open spec fn uuid_nibble(v: u128, i: int) -> u128 {
    (v >> ((4 * (31 - i)) as u128)) & 0xf
}

/// Which hexadecimal digit stands at position `p` of the hyphenated form.
pub open spec fn uuid_digit_index(p: int) -> int {
    if p < 8 {
        p
    } else if p < 13 {
        p - 1
    } else if p < 18 {
        p - 2
    } else if p < 23 {
        p - 3
    } else {
        p - 4
    }
}

/// The hyphenated lower-case form of a 128-bit identifier: 32 hexadecimal
/// digits in groups of 8, 4, 4, 4 and 12.
pub open spec fn uuid_text(v: u128) -> Seq<char> {
    Seq::new(
        36,
        |p: int|
            if p == 8 || p == 13 || p == 18 || p == 23 {
                '-'
            } else {
                hex_char(uuid_nibble(v, uuid_digit_index(p)))
            },
    )
}

/// `uuid::Uuid::from_u128` followed by the identifier's `Display`: the
/// big-endian hexadecimal digits of the value, hyphenated, in lower case.
#[verifier::external_body]
pub(crate) fn uuid_to_text(id: u128) -> (r: String)
    ensures
        r@ == uuid_text(id),
{
    uuid::Uuid::from_u128(id).to_string()
}

/// The identifier that `uuid::Uuid::parse_str` reads from a text, if it
/// reads one.
pub uninterp spec fn uuid_parse(text: Seq<char>) -> Option<u128>;

/// `uuid::Uuid::parse_str`: the 128-bit value of the identifier written in
/// `text`, or nothing where the crate rejects the text.
#[verifier::external_body]
pub(crate) fn parse_uuid(text: &str) -> (r: Option<u128>)
    ensures
        r == uuid_parse(text@),
{
    match uuid::Uuid::parse_str(text) {
        Ok(id) => Some(id.as_u128()),
        Err(_) => None,
    }
}

/// Whether the regular expression `pattern` matches somewhere in `text`, as
/// the `regex` crate decides it; nothing where the crate rejects the pattern.
pub uninterp spec fn regex_match(pattern: Seq<char>, text: Seq<char>) -> Option<bool>;

/// `regex::Regex::new` and then `Regex::is_match`: whether the compiled
/// pattern matches anywhere in the text, or nothing where it does not compile.
#[verifier::external_body]
pub(crate) fn regex_is_match(pattern: &str, text: &str) -> (r: Option<bool>)
    ensures
        r == regex_match(pattern@, text@),
{
    match regex::Regex::new(pattern) {
        Ok(re) => Some(re.is_match(text)),
        Err(_) => None,
    }
}

/// The error with which the `url` crate rejects a text.
#[verifier::external_type_specification]
#[verifier::external_body]
pub struct ExUrlParseError(url::ParseError);

/// The host of an absolute URL as the `url` crate reads it: nothing where
/// the crate rejects the text, an inner nothing where the URL has no host.
pub uninterp spec fn url_host(url: Seq<char>) -> Option<Option<Seq<char>>>;

/// `url::Url::parse` and then `Url::host_str`: the host part of the parsed
/// URL, if it has one, or the crate's error.
#[verifier::external_body]
pub(crate) fn parse_url_host(url: &str) -> (r: Result<Option<String>, url::ParseError>)
    ensures
        match r {
            Ok(Some(host)) => url_host(url@) == Some(Some(host@)),
            Ok(None) => url_host(url@) == Some(None::<Seq<char>>),
            Err(_) => url_host(url@) is None,
        },
{
    match url::Url::parse(url) {
        Ok(parsed) => Ok(parsed.host_str().map(|host| host.to_string())),
        Err(e) => Err(e),
    }
}

/// The text in which the `url` crate writes a URL that it has parsed;
/// nothing where the crate rejects the text.
pub uninterp spec fn url_normal_form(url: Seq<char>) -> Option<Seq<char>>;

/// `url::Url::parse` and then `Url::as_str`: the serialised form of the
/// parsed URL, or the crate's error.
#[verifier::external_body]
pub(crate) fn parse_url_text(url: &str) -> (r: Result<String, url::ParseError>)
    ensures
        match r {
            Ok(text) => url_normal_form(url@) == Some(text@),
            Err(_) => url_normal_form(url@) is None,
        },
{
    match url::Url::parse(url) {
        Ok(parsed) => Ok(parsed.as_str().to_string()),
        Err(e) => Err(e),
    }
}

/// The `Display` text of a `url::ParseError`. Nothing is claimed of it.
#[verifier::external_body]
pub(crate) fn url_error_text(e: &url::ParseError) -> (r: String) {
    e.to_string()
}

/// The SHA-1 digest of `data` in lower-case hexadecimal digits.
pub uninterp spec fn sha1_hex(data: Seq<u8>) -> Seq<char>;

/// `sha1_smol::Sha1::from`, `digest` and the digest's `Display`: the SHA-1
/// digest of the bytes, written as hexadecimal digits in lower case.
#[verifier::external_body]
pub(crate) fn sha1_hex_digest(data: &[u8]) -> (r: String)
    ensures
        r@ == sha1_hex(data@),
{
    sha1_smol::Sha1::from(data).digest().to_string()
}

/// The SHA-256 digest of `data` in lower-case hexadecimal digits.
pub uninterp spec fn sha256_hex(data: Seq<u8>) -> Seq<char>;

/// `sha2::Sha256::digest` and the output's `LowerHex`: the SHA-256 digest
/// of the bytes, written as hexadecimal digits in lower case.
#[verifier::external_body]
pub(crate) fn sha256_hex_digest(data: &[u8]) -> (r: String)
    ensures
        r@ == sha256_hex(data@),
{
    format!("{:x}", <sha2::Sha256 as sha2::Digest>::digest(data))
}

/// The base64 text of `data` in the standard alphabet, without padding.
pub uninterp spec fn base64_no_pad(data: Seq<u8>) -> Seq<char>;

/// `Engine::encode` of `base64::engine::general_purpose::STANDARD_NO_PAD`.
/// The crate panics where the length of the text does not fit in `usize`;
/// an input of at most half that range is far from it.
#[verifier::external_body]
pub(crate) fn base64_encode(data: &[u8]) -> (r: String)
    requires
        data@.len() <= usize::MAX / 2,
    ensures
        r@ == base64_no_pad(data@),
{
    base64::Engine::encode(&base64::engine::general_purpose::STANDARD_NO_PAD, data)
}

/// `num_cpus::get_physical`: the number of physical processor cores of this
/// machine. It differs from machine to machine; the crate documents that it
/// is always at least one, and no more is claimed of it.
#[verifier::external_body]
pub(crate) fn physical_cores() -> (r: usize)
    ensures
        r >= 1,
{
    num_cpus::get_physical()
}

} // verus!
