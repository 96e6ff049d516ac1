//! Loading the trust anchor of a TLS connection.
//!
//! The caller reads the certificate file; this module decides from the file's
//! extension and first bytes how to read its contents, and hands back the
//! certificate in DER form, from which the caller builds its TLS connector.

use vstd::prelude::*;
use crate::text::{concatenated, str_equals};
use crate::ws::error::{WebsocketError, WebsocketResult};

verus! {

/// How the contents of a certificate file are read.
#[derive(Debug, Clone, Copy, PartialEq, Eq, Structural)]
pub enum CertificateFormat {
    /// As PEM; the first certificate in it counts.
    Pem,
    /// As DER, taken as they are.
    Der,
    /// As PEM first and, where that gives no certificate, as DER.
    PemThenDer,
}

/// A certificate file as the caller found it.
#[derive(Debug)]
pub struct CertificateFile {
    /// The bytes of the file, or why it could not be read.
    pub contents: Result<Vec<u8>, String>,
    /// The extension of the file name, without the dot.
    pub extension: Option<String>,
}

/// The bytes `-----BEGIN`, with which a PEM file starts.
pub open spec fn pem_header() -> Seq<u8> {
    seq![45u8, 45u8, 45u8, 45u8, 45u8, 66u8, 69u8, 71u8, 73u8, 78u8]
}

/// Whether the data start with `-----BEGIN`.
pub open spec fn has_pem_header(data: Seq<u8>) -> bool {
    data.len() >= 10 && data.subrange(0, 10) == pem_header()
}

/// The format by extension: `pem` and `der` say it themselves, a `crt` file
/// is PEM if it starts with the PEM header and DER if not, and anything else
/// is tried both ways.
pub open spec fn spec_certificate_format(
    data: Seq<u8>,
    extension: Option<Seq<char>>,
) -> CertificateFormat {
    match extension {
        Some(e) => if e == "pem"@ {
            CertificateFormat::Pem
        } else if e == "der"@ {
            CertificateFormat::Der
        } else if e == "crt"@ {
            if has_pem_header(data) {
                CertificateFormat::Pem
            } else {
                CertificateFormat::Der
            }
        } else {
            CertificateFormat::PemThenDer
        },
        None => CertificateFormat::PemThenDer,
    }
}

/// What reading data as PEM gives: the certificates in them in DER form, in
/// order, or the message of the error that stopped the reading.
pub uninterp spec fn pem_certificates(data: Seq<u8>) -> Result<Seq<Seq<u8>>, Seq<char>>;

/// The view of the result of reading PEM data.
pub open spec fn pem_view(pem: Result<Vec<Vec<u8>>, String>) -> Result<Seq<Seq<u8>>, Seq<char>> {
    match pem {
        Ok(list) => Ok(Seq::new(list@.len(), |i: int| list@[i]@)),
        Err(message) => Err(message@),
    }
}

/// The first certificate of PEM data that were read, or the reason for
/// which there is none.
pub open spec fn spec_first_certificate(pem: Result<Seq<Seq<u8>>, Seq<char>>) -> Result<
    Seq<u8>,
    Seq<char>,
> {
    match pem {
        Ok(list) => if list.len() > 0 {
            Ok(list[0])
        } else {
            Err("No certificate found in PEM file"@)
        },
        Err(message) => Err("Failed to parse PEM certificate: "@ + message),
    }
}

/// The certificate in `data` read as `format` says, given what reading them
/// as PEM gives.
pub open spec fn spec_select_certificate(
    format: CertificateFormat,
    data: Seq<u8>,
    pem: Result<Seq<Seq<u8>>, Seq<char>>,
) -> Result<Seq<u8>, Seq<char>> {
    match format {
        CertificateFormat::Pem => spec_first_certificate(pem),
        CertificateFormat::Der => Ok(data),
        CertificateFormat::PemThenDer => match spec_first_certificate(pem) {
            Ok(certificate) => Ok(certificate),
            Err(_) => Ok(data),
        },
    }
}

/// Whether `r` is the certificate or the TLS error that `expected` describes.
pub open spec fn is_certificate_result(
    r: WebsocketResult<Vec<u8>>,
    expected: Result<Seq<u8>, Seq<char>>,
) -> bool {
    match expected {
        Ok(certificate) => r matches Ok(found) && found@ == certificate,
        Err(reason) => r matches Err(WebsocketError::TLSError(message)) && message@ == reason,
    }
}

/// The trust anchor that a certificate file gives: none without a file, an
/// error where the file could not be read, and else its certificate.
pub open spec fn spec_trust_anchor(file: Option<CertificateFile>) -> Result<
    Option<Seq<u8>>,
    Seq<char>,
> {
    match file {
        None => Ok(None),
        Some(f) => match f.contents {
            Err(reason) => Err("Failed to read certificate file: "@ + reason@),
            Ok(data) => match spec_select_certificate(
                spec_certificate_format(
                    data@,
                    match f.extension {
                        Some(e) => Some(e@),
                        None => None,
                    },
                ),
                data@,
                pem_certificates(data@),
            ) {
                Ok(certificate) => Ok(Some(certificate)),
                Err(reason) => Err(reason),
            },
        },
    }
}

/// Whether `r` is the trust anchor or the TLS error that `expected` describes.
pub open spec fn is_trust_anchor_result(
    r: WebsocketResult<Option<Vec<u8>>>,
    expected: Result<Option<Seq<u8>>, Seq<char>>,
) -> bool {
    match expected {
        Ok(Some(certificate)) => r matches Ok(Some(found)) && found@ == certificate,
        Ok(None) => r matches Ok(None),
        Err(reason) => r matches Err(WebsocketError::TLSError(message)) && message@ == reason,
    }
}

/// Reads PEM data with `rustls_pemfile::certs`, which goes through the
/// sections of the data, keeps the certificates and stops at the first
/// section it cannot read. The contract names the outcome: the certificates
/// as byte strings in the order found, or the text of the error.
#[verifier::external_body]
fn read_pem_certificates(data: &[u8]) -> (r: Result<Vec<Vec<u8>>, String>)
    ensures
        pem_view(r) == pem_certificates(data@),
{
    let mut reader = data;
    match rustls_pemfile::certs(&mut reader).collect::<Result<Vec<_>, _>>() {
        Ok(list) => Ok(list.into_iter().map(|c| c.as_ref().to_vec()).collect()),
        Err(e) => Err(e.to_string()),
    }
}

/// Whether the data start with `-----BEGIN`.
pub fn starts_with_pem_header(data: &Vec<u8>) -> (r: bool)
    ensures
        r == has_pem_header(data@),
{
    if data.len() < 10 {
        return false;
    }
    let matches = data[0] == 45 && data[1] == 45 && data[2] == 45 && data[3] == 45 && data[4]
        == 45 && data[5] == 66 && data[6] == 69 && data[7] == 71 && data[8] == 73 && data[9]
        == 78;
    proof {
        let head = data@.subrange(0, 10);
        if matches {
            assert(head =~= pem_header());
        } else {
            assert(head[0] == data@[0] && head[1] == data@[1] && head[2] == data@[2] && head[3]
                == data@[3] && head[4] == data@[4] && head[5] == data@[5] && head[6] == data@[6]
                && head[7] == data@[7] && head[8] == data@[8] && head[9] == data@[9]);
        }
    }
    matches
}

/// How to read the contents of a certificate file with this extension.
pub fn certificate_format(data: &Vec<u8>, extension: Option<&str>) -> (format: CertificateFormat)
    ensures
        format == spec_certificate_format(
            data@,
            match extension {
                Some(e) => Some(e@),
                None => None,
            },
        ),
{
    match extension {
        Some(e) => {
            if str_equals(e, "pem") {
                CertificateFormat::Pem
            } else if str_equals(e, "der") {
                CertificateFormat::Der
            } else if str_equals(e, "crt") {
                if starts_with_pem_header(data) {
                    CertificateFormat::Pem
                } else {
                    CertificateFormat::Der
                }
            } else {
                CertificateFormat::PemThenDer
            }
        },
        None => CertificateFormat::PemThenDer,
    }
}

/// The first certificate of PEM data that were read.
pub fn first_certificate(pem: Result<Vec<Vec<u8>>, String>) -> (r: WebsocketResult<Vec<u8>>)
    ensures
        is_certificate_result(r, spec_first_certificate(pem_view(pem))),
{
    match pem {
        Ok(list) => {
            let mut list = list;
            if list.len() > 0 {
                Ok(list.swap_remove(0))
            } else {
                Err(WebsocketError::TLSError("No certificate found in PEM file".to_owned()))
            }
        },
        Err(message) => Err(
            WebsocketError::TLSError(concatenated("Failed to parse PEM certificate: ", message.as_str())),
        ),
    }
}

/// The certificate in `data`, read as `format` says, where `pem` is what
/// reading `data` as PEM gave.
pub fn select_certificate(
    format: CertificateFormat,
    data: Vec<u8>,
    pem: Result<Vec<Vec<u8>>, String>,
) -> (r: WebsocketResult<Vec<u8>>)
    ensures
        is_certificate_result(r, spec_select_certificate(format, data@, pem_view(pem))),
{
    match format {
        CertificateFormat::Pem => first_certificate(pem),
        CertificateFormat::Der => Ok(data),
        CertificateFormat::PemThenDer => match first_certificate(pem) {
            Ok(certificate) => Ok(certificate),
            Err(_) => Ok(data),
        },
    }
}

/// The certificate in the contents of a file with this extension, in DER form.
pub fn parse_certificate(data: Vec<u8>, extension: Option<&str>) -> (r: WebsocketResult<Vec<u8>>)
    ensures
        is_certificate_result(
            r,
            spec_select_certificate(
                spec_certificate_format(
                    data@,
                    match extension {
                        Some(e) => Some(e@),
                        None => None,
                    },
                ),
                data@,
                pem_certificates(data@),
            ),
        ),
{
    let format = certificate_format(&data, extension);
    match format {
        CertificateFormat::Der => Ok(data),
        _ => {
            let pem = read_pem_certificates(data.as_slice());
            select_certificate(format, data, pem)
        },
    }
}

/// The trust anchor for a connection: `None` where no certificate is
/// configured, and else the certificate of the configured file.
pub fn create_connector(file: Option<CertificateFile>) -> (r: WebsocketResult<Option<Vec<u8>>>)
    ensures
        is_trust_anchor_result(r, spec_trust_anchor(file)),
{
    let file = match file {
        Some(file) => file,
        None => {
            return Ok(None);
        },
    };
    let data = match file.contents {
        Ok(data) => data,
        Err(reason) => {
            return Err(
                WebsocketError::TLSError(
                    concatenated("Failed to read certificate file: ", reason.as_str()),
                ),
            );
        },
    };
    let extension = match &file.extension {
        Some(e) => Some(e.as_str()),
        None => None,
    };
    match parse_certificate(data, extension) {
        Ok(certificate) => Ok(Some(certificate)),
        Err(e) => Err(e),
    }
}

} // verus!
