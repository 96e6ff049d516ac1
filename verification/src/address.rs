//! Addresses, read and written by the URL parser.

use vstd::prelude::*;

verus! {

/// The most characters that an address and what is added to it may have together.
pub const MAX_ADDRESS_CHARS: usize = 0x0400_0000;

/// The serialization of the URL that an address parses to; `None` where it
/// does not parse as an absolute URL.
pub uninterp spec fn url_serialization(address: Seq<char>) -> Option<Seq<char>>;

/// The serialization of the URL that an address parses to, after the pair
/// `key=value` was appended to its query string; `None` where the address
/// does not parse.
pub uninterp spec fn url_with_query_pair(
    address: Seq<char>,
    key: Seq<char>,
    value: Seq<char>,
) -> Option<Seq<char>>;

/// The serialization of the URL that `reference` resolves to against the
/// URL that `base` parses to; `None` where either does not parse.
pub uninterp spec fn url_joined(base: Seq<char>, reference: Seq<char>) -> Option<Seq<char>>;

/// Parses an address with `url::Url::parse` and writes the URL back as text.
/// The contract names what comes back, and says that an error comes back
/// exactly where the address does not parse.
#[verifier::external_body]
pub(crate) fn parse_url(address: &str) -> (r: Result<String, String>)
    ensures
        match url_serialization(address@) {
            Some(text) => r matches Ok(found) && found@ == text,
            None => r is Err,
        },
{
    match url::Url::parse(address) {
        Ok(parsed) => Ok(String::from(parsed)),
        Err(e) => Err(e.to_string()),
    }
}

/// Parses an address with `url::Url::parse`, appends one pair to its query
/// string with `query_pairs_mut().append_pair`, and writes the URL back as
/// text. Appending cannot fail, so the call fails exactly where parsing
/// does. The lengths are bounded because the URL's offsets are 32 bits wide.
#[verifier::external_body]
pub(crate) fn parse_url_with_pair(address: &str, key: &str, value: &str) -> (r: Result<String, String>)
    requires
        address@.len() + key@.len() + value@.len() <= MAX_ADDRESS_CHARS,
    ensures
        r is Ok <==> url_serialization(address@) is Some,
        match url_with_query_pair(address@, key@, value@) {
            Some(text) => r matches Ok(found) && found@ == text,
            None => r is Err,
        },
{
    match url::Url::parse(address) {
        Ok(mut parsed) => {
            parsed.query_pairs_mut().append_pair(key, value);
            Ok(String::from(parsed))
        },
        Err(e) => Err(e.to_string()),
    }
}

/// Parses `base` with `url::Url::parse`, resolves `reference` against it
/// with `Url::join`, and writes the URL back as text. The contract names what
/// comes back, and says that an error comes back exactly where there is none.
#[verifier::external_body]
pub(crate) fn join_url(base: &str, reference: &str) -> (r: Result<String, String>)
    ensures
        match url_joined(base@, reference@) {
            Some(text) => r matches Ok(found) && found@ == text,
            None => r is Err,
        },
{
    match url::Url::parse(base) {
        Ok(parsed) => match parsed.join(reference) {
            Ok(joined) => Ok(String::from(joined)),
            Err(e) => Err(e.to_string()),
        },
        Err(e) => Err(e.to_string()),
    }
}

} // verus!
