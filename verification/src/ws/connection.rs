//! What a connection is made with: the address, the authorization header and
//! the trust anchor, built once from the configuration; and the reading of a
//! failed handshake.

use vstd::prelude::*;
use crate::address::{
    parse_url,
    parse_url_with_pair,
    url_serialization,
    url_with_query_pair,
    MAX_ADDRESS_CHARS,
};
use crate::config::WebSocketConfig;
use crate::ws::error::{UrlError, WebsocketError, WebsocketResult};
use crate::ws::tls::{
    create_connector,
    spec_trust_anchor,
    CertificateFile,
};

verus! {

/// The HTTP status with which a server refuses the token.
pub const STATUS_UNAUTHORIZED: u16 = 401;

/// What a connection is made with.
#[derive(Debug, Clone, PartialEq)]
pub struct ConnectionParams {
    /// The address to connect to, with the event filter in its query string.
    pub url: String,
    /// The value of the authorization header, if a token is configured.
    pub authorization: Option<String>,
    /// The certificate to trust, in DER form, if one is configured.
    pub trust_anchor: Option<Vec<u8>>,
}

/// A handshake that failed, as far as the worker reads it.
#[derive(Debug, Clone, PartialEq)]
pub struct HandshakeFailure {
    /// The status of the server's answer, where it answered with an HTTP response.
    pub http_status: Option<u16>,
    /// The transport's description of the failure.
    pub message: String,
}

/// Whether a character may stand in a header value: a tab, or anything from
/// the space on but the delete character.
pub open spec fn is_header_char(c: char) -> bool {
    c == '\t' || (c as u32 >= 32 && c as u32 != 127)
}

/// Whether a text can be sent as a header value.
pub open spec fn is_header_text(text: Seq<char>) -> bool {
    forall|i: int| 0 <= i < text.len() ==> is_header_char(#[trigger] text[i])
}

/// The items joined by commas.
pub open spec fn join_with_commas(items: Seq<Seq<char>>) -> Seq<char>
    decreases items.len(),
{
    if items.len() == 0 {
        Seq::empty()
    } else if items.len() == 1 {
        items[0]
    } else {
        join_with_commas(items.drop_last()) + seq![','] + items.last()
    }
}

/// The views of a list of strings.
pub open spec fn views_of(items: Seq<String>) -> Seq<Seq<char>> {
    Seq::new(items.len(), |i: int| items[i]@)
}

/// The value of the `events` parameter for a filter, if there is one.
pub open spec fn events_parameter(filter: Option<Vec<String>>) -> Option<Seq<char>> {
    match filter {
        Some(events) => Some(join_with_commas(views_of(events@))),
        None => None,
    }
}

/// The address to connect to: the configured one as the URL parser writes it
/// back, with `events=` and the filter appended where a filter is set.
pub open spec fn connection_address(address: Seq<char>, events: Option<Seq<char>>) -> Option<
    Seq<char>,
> {
    match events {
        Some(list) => url_with_query_pair(address, "events"@, list),
        None => url_serialization(address),
    }
}

/// Whether an event filter can be appended to the address: together with
/// the parameter's name they stay within the limit. An address without a
/// filter always fits.
pub open spec fn address_fits(address: Seq<char>, events: Option<Seq<char>>) -> bool {
    events matches Some(list) ==> address.len() + 6 + list.len() <= MAX_ADDRESS_CHARS
}

/// The message of the error for an address that does not fit.
pub open spec fn address_too_long() -> Seq<char> {
    "address and event filter are too long"@
}

/// Asks `http::HeaderValue::from_str` whether a text is accepted as a header
/// value. It accepts a text whose bytes are all a tab or at least 32 and not
/// 127; of the bytes of a character beyond ASCII every one is above 127.
#[verifier::external_body]
fn header_value_accepts(text: &str) -> (accepted: bool)
    ensures
        accepted == is_header_text(text@),
{
    ::http::HeaderValue::from_str(text).is_ok()
}

/// Joins the items with commas.
pub fn join_events(items: &Vec<String>) -> (joined: String)
    ensures
        joined@ == join_with_commas(views_of(items@)),
{
    let mut joined = String::new();
    let mut i: usize = 0;
    while i < items.len()
        invariant
            i <= items.len(),
            joined@ == join_with_commas(views_of(items@).take(i as int)),
        decreases items.len() - i,
    {
        proof {
            let all = views_of(items@);
            let next = all.take(i + 1);
            assert(next.drop_last() =~= all.take(i as int));
            assert(next.last() == items@[i as int]@);
            if i == 0 {
                assert(all.take(0).len() == 0);
            } else {
                assert(next.len() > 1);
            }
        }
        if i > 0 {
            joined.append(",");
            proof {
                reveal_strlit(",");
                assert(","@ =~= seq![',']);
            }
        }
        joined.append(items[i].as_str());
        proof {
            if i == 0 {
                assert(joined@ =~= items@[0]@);
            }
        }
        i += 1;
    }
    proof {
        assert(views_of(items@).take(items.len() as int) =~= views_of(items@));
    }
    joined
}

/// Whether `r` is what the parts of a connection come to.
///
/// The address is looked at first, then the token, then the trust anchor: an
/// address that is too long for its filter gives a URL error with the message
/// of `address_too_long`, an address that does not parse gives a URL error
/// with the parser's message, a token that cannot be a header value gives
/// `InvalidHeader`, and a certificate that cannot be loaded gives its TLS
/// error. Where all are in order the parameters hold the address as it was
/// written back, the token unchanged, and the certificate.
pub open spec fn is_assembled(
    r: WebsocketResult<ConnectionParams>,
    fits: bool,
    address: Option<Seq<char>>,
    token: Option<Seq<char>>,
    anchor: Result<Option<Seq<u8>>, Seq<char>>,
) -> bool {
    if !fits {
        r matches Err(WebsocketError::UrlError(UrlError::Url(message))) && message@
            == address_too_long()
    } else {
        is_assembled_from(r, address, token, anchor)
    }
}

/// Whether `r` is what the parts of a connection come to, for an address that fits.
pub open spec fn is_assembled_from(
    r: WebsocketResult<ConnectionParams>,
    address: Option<Seq<char>>,
    token: Option<Seq<char>>,
    anchor: Result<Option<Seq<u8>>, Seq<char>>,
) -> bool {
    match address {
        None => r matches Err(WebsocketError::UrlError(UrlError::Url(_))),
        Some(text) => if token matches Some(t) && !is_header_text(t) {
            r == Err::<ConnectionParams, WebsocketError>(WebsocketError::InvalidHeader)
        } else {
            match anchor {
                Err(reason) => r matches Err(WebsocketError::TLSError(message)) && message@
                    == reason,
                Ok(certificate) => {
                    &&& r matches Ok(params)
                    &&& params.url@ == text
                    &&& match token {
                        Some(t) => params.authorization matches Some(a) && a@ == t,
                        None => params.authorization is None,
                    }
                    &&& match certificate {
                        Some(c) => params.trust_anchor matches Some(a) && a@ == c,
                        None => params.trust_anchor is None,
                    }
                },
            }
        },
    }
}

/// The view of a token.
pub open spec fn token_view(token: Option<String>) -> Option<Seq<char>> {
    match token {
        Some(t) => Some(t@),
        None => None,
    }
}

impl ConnectionParams {
    /// Puts the parts of a connection together: the address as the URL parser
    /// wrote it back or its error, the token and whether it is accepted as a
    /// header value, and the trust anchor or the error of loading it. The
    /// address is looked at first, then the token, then the trust anchor.
    pub fn assemble(
        address: Result<String, String>,
        token: Option<String>,
        token_accepted: bool,
        anchor: WebsocketResult<Option<Vec<u8>>>,
    ) -> (r: WebsocketResult<Self>)
        ensures
            r == match address {
                Err(message) => Err::<Self, WebsocketError>(
                    WebsocketError::UrlError(UrlError::Url(message)),
                ),
                Ok(url) => if token is Some && !token_accepted {
                    Err(WebsocketError::InvalidHeader)
                } else {
                    match anchor {
                        Err(e) => Err(e),
                        Ok(trust_anchor) => Ok(
                            ConnectionParams { url, authorization: token, trust_anchor },
                        ),
                    }
                },
            },
    {
        let url = match address {
            Ok(url) => url,
            Err(message) => {
                return Err(WebsocketError::UrlError(UrlError::Url(message)));
            },
        };
        if token.is_some() && !token_accepted {
            return Err(WebsocketError::InvalidHeader);
        }
        match anchor {
            Ok(trust_anchor) => Ok(ConnectionParams { url, authorization: token, trust_anchor }),
            Err(e) => Err(e),
        }
    }

    /// Whether the event filter of a configuration can be appended to its address.
    pub fn fits(config: &WebSocketConfig) -> (r: bool)
        ensures
            r == address_fits(config.url@, events_parameter(config.filtered_events)),
    {
        match &config.filtered_events {
            Some(events) => {
                let address_len = config.url.as_str().unicode_len();
                let events_len = join_events(events).as_str().unicode_len();
                address_len <= MAX_ADDRESS_CHARS && events_len <= MAX_ADDRESS_CHARS && address_len
                    + 6 + events_len <= MAX_ADDRESS_CHARS
            },
            None => true,
        }
    }

    /// The parameters of the connections of a worker, from its configuration
    /// and the certificate file that the TLS configuration names.
    pub fn from_config(config: &WebSocketConfig, certificate: Option<CertificateFile>) -> (r:
        WebsocketResult<Self>)
        ensures
            is_assembled(
                r,
                address_fits(config.url@, events_parameter(config.filtered_events)),
                connection_address(config.url@, events_parameter(config.filtered_events)),
                token_view(config.authorization),
                spec_trust_anchor(certificate),
            ),
    {
        if !Self::fits(config) {
            return Err(
                WebsocketError::UrlError(
                    UrlError::Url("address and event filter are too long".to_owned()),
                ),
            );
        }
        let address = match &config.filtered_events {
            Some(events) => {
                let joined = join_events(events);
                proof {
                    reveal_strlit("events");
                }
                parse_url_with_pair(config.url.as_str(), "events", joined.as_str())
            },
            None => parse_url(config.url.as_str()),
        };
        let (token, token_accepted) = match &config.authorization {
            Some(t) => (Some(t.clone()), header_value_accepts(t.as_str())),
            None => (None, true),
        };
        if address.is_err() || (token.is_some() && !token_accepted) {
            return Self::assemble(address, token, token_accepted, Ok(None));
        }
        let anchor = create_connector(certificate);
        Self::assemble(address, token, token_accepted, anchor)
    }

    /// Whether a failed handshake means that the token was refused: the
    /// server answered with status 401.
    pub open spec fn is_refusal(failure: HandshakeFailure) -> bool {
        failure.http_status == Some(STATUS_UNAUTHORIZED)
    }

    /// The error of a failed handshake: `Unauthorized` where the server
    /// answered with status 401, and a connection error with the transport's
    /// message in every other case.
    pub fn handle_connection_error(failure: HandshakeFailure) -> (error: WebsocketError)
        ensures
            Self::is_refusal(failure) ==> error == WebsocketError::Unauthorized,
            !Self::is_refusal(failure) ==> error == WebsocketError::ConnectionError(
                failure.message,
            ),
    {
        match failure.http_status {
            Some(status) => {
                if status == STATUS_UNAUTHORIZED {
                    return WebsocketError::Unauthorized;
                }
            },
            None => {},
        }
        WebsocketError::ConnectionError(failure.message)
    }
}

} // verus!
