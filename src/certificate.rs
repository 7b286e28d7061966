//! Decoding of the certificate a TLS endpoint presents into readable fields.
//! No trust decision is made: any certificate that decodes is reported,
//! self-signed or expired ones included.
use vstd::prelude::*;
use vstd::string::*;
use crate::error::NetworkError;
use crate::text::{upper_hex, upper_hex_text};
use x509_parser::prelude::FromDer;

verus! {

/// Port on which the TLS endpoint is inspected.
pub const TLS_PORT: u16 = 443;

/// Earliest Unix time, in seconds, that a UTC calendar time can hold
/// (the first second of the year -262143).
pub const UTC_MIN_SECONDS: i64 = -8334601228800;

/// Latest Unix time, in seconds, that a UTC calendar time can hold
/// (the last second of the year 262142).
pub const UTC_MAX_SECONDS: i64 = 8210266876799;

/// The fields read from a DER certificate, before they are checked and shaped.
#[derive(Debug, Clone)]
pub struct DecodedCertificate {
    pub subject: String,
    pub issuer: String,
    /// Start of validity, in whole seconds since the Unix epoch.
    pub not_before: i64,
    /// End of validity, in whole seconds since the Unix epoch.
    pub not_after: i64,
    /// The serial number's content octets, big-endian.
    pub serial: Vec<u8>,
    /// The version field as encoded: 0 for v1, 1 for v2, 2 for v3.
    pub version: u32,
}

/// A certificate as reported: names, validity window in UTC seconds, serial in
/// uppercase hexadecimal and the version as people count it (3 for v3).
#[derive(Debug, Clone)]
pub struct CertificateInfo {
    pub subject: String,
    pub issuer: String,
    pub valid_from: i64,
    pub valid_until: i64,
    pub serial_number: String,
    pub version: u32,
}

/// The address dialled for `domain`: the domain, a colon and the TLS port.
pub fn tls_address(domain: &str) -> (r: String)
    ensures
        r@ == domain@ + ":443"@,
{
    let s = String::from_str(domain);
    s.concat(":443")
}

/// What x509-parser reads from a DER certificate; `None` where it rejects it.
pub uninterp spec fn x509_decoded(der: Seq<u8>) -> Option<DecodedCertificate>;

/// Relies on `x509_parser`'s `X509Certificate::from_der` and, on its result,
/// on the `Display` of the subject and issuer names, `ASN1Time::timestamp`,
/// `raw_serial` and the version number: a decoding of the bytes alone.
#[verifier::external_body]
fn decode_der(der: &[u8]) -> (r: Result<DecodedCertificate, String>)
    ensures
        r is Ok <==> x509_decoded(der@) is Some,
        r is Ok ==> x509_decoded(der@) == Some(r->Ok_0),
{
    match x509_parser::certificate::X509Certificate::from_der(der) {
        Ok((_, cert)) => Ok(DecodedCertificate {
            subject: cert.tbs_certificate.subject.to_string(),
            issuer: cert.tbs_certificate.issuer.to_string(),
            not_before: cert.tbs_certificate.validity.not_before.timestamp(),
            not_after: cert.tbs_certificate.validity.not_after.timestamp(),
            serial: cert.tbs_certificate.raw_serial().to_vec(),
            version: cert.tbs_certificate.version.0,
        }),
        Err(e) => Err(e.to_string()),
    }
}

/// Whether `secs` lies in the range of UTC calendar time.
pub open spec fn utc_representable(secs: int) -> bool {
    UTC_MIN_SECONDS <= secs <= UTC_MAX_SECONDS
}

/// Relies on chrono's `DateTime::from_timestamp(secs, 0)`, which gives a time
/// exactly for the seconds from `DateTime::<Utc>::MIN_UTC` to `MAX_UTC`.
#[verifier::external_body]
fn utc_time_exists(secs: i64) -> (r: bool)
    ensures
        r == utc_representable(secs as int),
{
    chrono::DateTime::from_timestamp(secs, 0).is_some()
}

/// `info` reports the decoded fields `d`.
pub open spec fn reports(info: CertificateInfo, d: DecodedCertificate) -> bool {
    &&& info.subject@ == d.subject@
    &&& info.issuer@ == d.issuer@
    &&& info.valid_from == d.not_before
    &&& info.valid_until == d.not_after
    &&& info.serial_number@ == upper_hex(d.serial@)
    &&& info.version == d.version + 1
}

/// `r` is a certificate error whose detail is `m`.
pub open spec fn is_certificate_error(r: Result<CertificateInfo, NetworkError>, m: Seq<char>) -> bool {
    r matches Err(NetworkError::CertificateError(e)) && e@ == m
}

/// The outcome owed for decoded fields `d`: each check in turn, the first
/// that fails giving its error, else the report of `d`.
pub open spec fn fields_outcome(d: DecodedCertificate, r: Result<CertificateInfo, NetworkError>) -> bool {
    if !utc_representable(d.not_before as int) {
        is_certificate_error(r, "invalid start time"@)
    } else if !utc_representable(d.not_after as int) {
        is_certificate_error(r, "invalid end time"@)
    } else if d.version == u32::MAX {
        is_certificate_error(r, "unsupported version"@)
    } else {
        r matches Ok(info) && reports(info, d)
    }
}

/// The outcome owed for the DER bytes `der`.
pub open spec fn der_outcome(der: Seq<u8>, r: Result<CertificateInfo, NetworkError>) -> bool {
    match x509_decoded(der) {
        None => r matches Err(NetworkError::CertificateError(_)),
        Some(d) => fields_outcome(d, r),
    }
}

/// Checks and shapes decoded fields: both validity bounds must be UTC times,
/// the serial is rendered in hexadecimal and the version counted from one.
pub fn certificate_info_from_fields(d: DecodedCertificate) -> (r: Result<CertificateInfo, NetworkError>)
    ensures
        fields_outcome(d, r),
{
    if !utc_time_exists(d.not_before) {
        return Err(NetworkError::CertificateError(String::from_str("invalid start time")));
    }
    if !utc_time_exists(d.not_after) {
        return Err(NetworkError::CertificateError(String::from_str("invalid end time")));
    }
    if d.version == u32::MAX {
        return Err(NetworkError::CertificateError(String::from_str("unsupported version")));
    }
    let serial_number = upper_hex_text(d.serial.as_slice());
    Ok(
        CertificateInfo {
            subject: d.subject,
            issuer: d.issuer,
            valid_from: d.not_before,
            valid_until: d.not_after,
            serial_number,
            version: d.version + 1,
        },
    )
}

/// Decodes one DER certificate into its report.
pub fn certificate_info_from_der(der: &[u8]) -> (r: Result<CertificateInfo, NetworkError>)
    ensures
        der_outcome(der@, r),
{
    match decode_der(der) {
        Ok(d) => certificate_info_from_fields(d),
        Err(e) => Err(NetworkError::CertificateError(e)),
    }
}

/// Reports the leaf, the first certificate of the chain the peer presented;
/// an empty chain is an error.
pub fn certificate_info_from_chain(chain: &Vec<Vec<u8>>) -> (r: Result<CertificateInfo, NetworkError>)
    ensures
        chain@.len() == 0 ==> is_certificate_error(r, "certificate not available"@),
        chain@.len() > 0 ==> der_outcome(chain@[0]@, r),
{
    if chain.len() == 0 {
        Err(NetworkError::CertificateError(String::from_str("certificate not available")))
    } else {
        certificate_info_from_der(chain[0].as_slice())
    }
}

/// Inspecting the same certificate twice gives the same outcome: both
/// succeed or both fail, and on success they report the same subject,
/// issuer, serial number, version and validity window.
pub proof fn lemma_inspection_repeatable(
    der: Seq<u8>,
    r1: Result<CertificateInfo, NetworkError>,
    r2: Result<CertificateInfo, NetworkError>,
)
    requires
        der_outcome(der, r1),
        der_outcome(der, r2),
    ensures
        r1 is Ok <==> r2 is Ok,
        r1 is Ok ==> {
            &&& r1->Ok_0.subject@ == r2->Ok_0.subject@
            &&& r1->Ok_0.issuer@ == r2->Ok_0.issuer@
            &&& r1->Ok_0.serial_number@ == r2->Ok_0.serial_number@
            &&& r1->Ok_0.version == r2->Ok_0.version
            &&& r1->Ok_0.valid_from == r2->Ok_0.valid_from
            &&& r1->Ok_0.valid_until == r2->Ok_0.valid_until
        },
{
}

} // verus!
