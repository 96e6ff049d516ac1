use sms_client::ws::error::WebsocketError;
use sms_client::ws::tls::{
    certificate_format, create_connector, first_certificate, parse_certificate, select_certificate,
    starts_with_pem_header, CertificateFile, CertificateFormat,
};

fn pem() -> Vec<u8> {
    b"-----BEGIN CERTIFICATE-----\nAQIDBA==\n-----END CERTIFICATE-----\n".to_vec()
}

fn two_pems() -> Vec<u8> {
    b"-----BEGIN CERTIFICATE-----\nBQYH\n-----END CERTIFICATE-----\n-----BEGIN CERTIFICATE-----\nAQIDBA==\n-----END CERTIFICATE-----\n"
        .to_vec()
}

#[test]
fn pem_header_is_recognised() {
    assert!(starts_with_pem_header(&pem()));
    assert!(starts_with_pem_header(&b"-----BEGIN".to_vec()));
    assert!(!starts_with_pem_header(&b"-----BEGI".to_vec()));
    assert!(!starts_with_pem_header(&b"----- BEGIN CERTIFICATE".to_vec()));
    assert!(!starts_with_pem_header(&Vec::new()));
    assert!(!starts_with_pem_header(&vec![0x30, 0x82, 0x01, 0x0a, 0, 0, 0, 0, 0, 0, 0]));
}

#[test]
fn format_follows_the_extension() {
    let der = vec![0x30u8, 0x82];
    assert_eq!(certificate_format(&pem(), Some("pem")), CertificateFormat::Pem);
    assert_eq!(certificate_format(&der, Some("pem")), CertificateFormat::Pem);
    assert_eq!(certificate_format(&pem(), Some("der")), CertificateFormat::Der);
    assert_eq!(certificate_format(&pem(), Some("crt")), CertificateFormat::Pem);
    assert_eq!(certificate_format(&der, Some("crt")), CertificateFormat::Der);
    assert_eq!(certificate_format(&pem(), Some("cer")), CertificateFormat::PemThenDer);
    assert_eq!(certificate_format(&pem(), Some("PEM")), CertificateFormat::PemThenDer);
    assert_eq!(certificate_format(&pem(), None), CertificateFormat::PemThenDer);
}

#[test]
fn pem_file_gives_its_first_certificate() {
    assert_eq!(parse_certificate(pem(), Some("pem")), Ok(vec![1, 2, 3, 4]));
    assert_eq!(parse_certificate(two_pems(), Some("pem")), Ok(vec![5, 6, 7]));
}

#[test]
fn der_file_is_taken_as_it_is() {
    assert_eq!(parse_certificate(pem(), Some("der")), Ok(pem()));
    assert_eq!(parse_certificate(vec![0x30, 0x82], Some("der")), Ok(vec![0x30, 0x82]));
}

#[test]
fn crt_file_is_sniffed() {
    assert_eq!(parse_certificate(pem(), Some("crt")), Ok(vec![1, 2, 3, 4]));
    assert_eq!(parse_certificate(vec![0x30, 0x82], Some("crt")), Ok(vec![0x30, 0x82]));
}

#[test]
fn unknown_extension_tries_pem_then_der() {
    assert_eq!(parse_certificate(pem(), None), Ok(vec![1, 2, 3, 4]));
    assert_eq!(parse_certificate(vec![0x30, 0x82], None), Ok(vec![0x30, 0x82]));
    assert_eq!(parse_certificate(vec![0x30, 0x82], Some("bin")), Ok(vec![0x30, 0x82]));
}

#[test]
fn pem_file_without_certificate_is_an_error() {
    assert_eq!(
        parse_certificate(vec![0x30, 0x82], Some("pem")),
        Err(WebsocketError::TLSError("No certificate found in PEM file".to_string()))
    );
    assert_eq!(
        parse_certificate(Vec::new(), Some("pem")),
        Err(WebsocketError::TLSError("No certificate found in PEM file".to_string()))
    );
}

#[test]
fn broken_pem_is_an_error() {
    let broken = b"-----BEGIN CERTIFICATE-----\n!!!!\n-----END CERTIFICATE-----\n".to_vec();
    match parse_certificate(broken, Some("pem")) {
        Err(WebsocketError::TLSError(message)) => {
            assert!(message.starts_with("Failed to parse PEM certificate: "), "{}", message)
        }
        other => panic!("expected a TLS error, got {:?}", other),
    }
}

#[test]
fn first_certificate_of_a_reading() {
    assert_eq!(first_certificate(Ok(vec![vec![9], vec![8]])), Ok(vec![9]));
    assert_eq!(
        first_certificate(Ok(Vec::new())),
        Err(WebsocketError::TLSError("No certificate found in PEM file".to_string()))
    );
    assert_eq!(
        first_certificate(Err("bad base64".to_string())),
        Err(WebsocketError::TLSError("Failed to parse PEM certificate: bad base64".to_string()))
    );
}

#[test]
fn select_certificate_by_format() {
    let data = vec![7u8, 7, 7];
    assert_eq!(
        select_certificate(CertificateFormat::Pem, data.clone(), Ok(vec![vec![1]])),
        Ok(vec![1])
    );
    assert_eq!(
        select_certificate(CertificateFormat::Der, data.clone(), Ok(vec![vec![1]])),
        Ok(data.clone())
    );
    assert_eq!(
        select_certificate(CertificateFormat::PemThenDer, data.clone(), Ok(vec![vec![1]])),
        Ok(vec![1])
    );
    assert_eq!(
        select_certificate(CertificateFormat::PemThenDer, data.clone(), Ok(Vec::new())),
        Ok(data.clone())
    );
    assert_eq!(
        select_certificate(CertificateFormat::PemThenDer, data.clone(), Err("x".to_string())),
        Ok(data.clone())
    );
    assert_eq!(
        select_certificate(CertificateFormat::Pem, data, Err("x".to_string())),
        Err(WebsocketError::TLSError("Failed to parse PEM certificate: x".to_string()))
    );
}

#[test]
fn no_certificate_file_gives_no_trust_anchor() {
    assert_eq!(create_connector(None), Ok(None));
}

#[test]
fn certificate_file_gives_its_trust_anchor() {
    let file = CertificateFile { contents: Ok(pem()), extension: Some("pem".to_string()) };
    assert_eq!(create_connector(Some(file)), Ok(Some(vec![1, 2, 3, 4])));
}

#[test]
fn unreadable_file_gives_a_tls_error() {
    let file = CertificateFile { contents: Err("no such file".to_string()), extension: None };
    assert_eq!(
        create_connector(Some(file)),
        Err(WebsocketError::TLSError("Failed to read certificate file: no such file".to_string()))
    );
}
