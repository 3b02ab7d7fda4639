//! An owned certificate and the trusted boundary to the X.509 parser.
//!
//! A [`Certificate`] owns the DER encoding of one X.509 certificate that the
//! `x509-signature` crate has accepted. What that crate computes from the
//! bytes — the issuer and subject names, the validity window, the subject
//! public key info, and the outcome of a signature verification — is given a
//! name by an uninterpreted spec function over the DER bytes, and each such
//! name is tied to the real call by a trusted accessor below. All checks that
//! are plain comparisons (name equality, the validity window) are done in
//! verified code on top of these accessors.

use vstd::prelude::*;

verus! {

/// Whether `x509_signature::parse_certificate` accepts these bytes as a DER
/// X.509 version-3 certificate.
pub uninterp spec fn cert_well_formed(der: Seq<u8>) -> bool;

/// The issuer name of the certificate: the bytes that
/// `X509Certificate::issuer` returns for this DER encoding.
pub uninterp spec fn cert_issuer(der: Seq<u8>) -> Seq<u8>;

/// The subject name of the certificate: the bytes that
/// `X509Certificate::subject` returns for this DER encoding.
pub uninterp spec fn cert_subject(der: Seq<u8>) -> Seq<u8>;

/// The notBefore bound, in seconds since the Unix epoch, that
/// `X509Certificate::not_before` returns for this DER encoding.
pub uninterp spec fn cert_not_before(der: Seq<u8>) -> i64;

/// The notAfter bound, in seconds since the Unix epoch, that
/// `X509Certificate::not_after` returns for this DER encoding.
pub uninterp spec fn cert_not_after(der: Seq<u8>) -> i64;

/// The DER encoding of the subjectPublicKeyInfo field: the bytes that
/// `SubjectPublicKeyInfo::spki` returns for this DER encoding.
pub uninterp spec fn cert_spki(der: Seq<u8>) -> Seq<u8>;

/// The outcome of `X509Certificate::check_signature_from`: whether the
/// certificate encoded by `der` carries a signature that verifies under the
/// public key of the certificate encoded by `signer_der`, with its failure
/// mapped onto this library's [`X509Failure`] labels.
pub uninterp spec fn signature_from_result(der: Seq<u8>, signer_der: Seq<u8>) -> Result<
    (),
    X509Failure,
>;

/// The reasons the underlying X.509 library can reject a certificate or a
/// signature, under this library's own labels.
#[derive(Clone, Copy, Debug, PartialEq, Eq, Structural)]
pub enum X509Failure {
    /// The certificate version is not 3.
    UnsupportedCertVersion,
    /// The signature algorithm is not supported.
    UnsupportedSignatureAlgorithm,
    /// The signature algorithm is not valid for the public key.
    UnsupportedSignatureAlgorithmForPublicKey,
    /// The signature does not verify under the public key.
    InvalidSignatureForPublicKey,
    /// The inner and outer signature algorithms differ.
    SignatureAlgorithmMismatch,
    /// The DER encoding is invalid.
    BadDER,
    /// A DER-encoded time is invalid.
    BadDERTime,
    /// The certificate is not valid yet.
    CertNotValidYet,
    /// The certificate has expired.
    CertExpired,
    /// The certificate expired before beginning to be valid.
    InvalidCertValidity,
    /// The issuer is not known.
    UnknownIssuer,
    /// A failure this library does not otherwise classify.
    Other,
}

/// The error type of the `x509-signature` crate, declared so that the
/// conversion below may take it as an argument.
#[verifier::external_type_specification]
#[verifier::external_body]
pub struct ExX509Error(x509_signature::Error);

/// Maps each variant of `x509_signature::Error` onto the [`X509Failure`]
/// label of the same name; variants added to that non-exhaustive enum after
/// the version this crate was written against fall into `Other`.
#[verifier::external_body]
fn failure_of(e: x509_signature::Error) -> X509Failure {
    match e {
        x509_signature::Error::UnsupportedCertVersion => X509Failure::UnsupportedCertVersion,
        x509_signature::Error::UnsupportedSignatureAlgorithm => X509Failure::UnsupportedSignatureAlgorithm,
        x509_signature::Error::UnsupportedSignatureAlgorithmForPublicKey => X509Failure::UnsupportedSignatureAlgorithmForPublicKey,
        x509_signature::Error::InvalidSignatureForPublicKey => X509Failure::InvalidSignatureForPublicKey,
        x509_signature::Error::SignatureAlgorithmMismatch => X509Failure::SignatureAlgorithmMismatch,
        x509_signature::Error::BadDER => X509Failure::BadDER,
        x509_signature::Error::BadDERTime => X509Failure::BadDERTime,
        x509_signature::Error::CertNotValidYet => X509Failure::CertNotValidYet,
        x509_signature::Error::CertExpired => X509Failure::CertExpired,
        x509_signature::Error::InvalidCertValidity => X509Failure::InvalidCertValidity,
        x509_signature::Error::UnknownIssuer => X509Failure::UnknownIssuer,
        _ => X509Failure::Other,
    }
}

/// One X.509 certificate, holding the DER bytes that the underlying parser
/// has accepted. Its mathematical view is the sequence of those bytes.
pub struct Certificate {
    der: Vec<u8>,
}

impl View for Certificate {
    type V = Seq<u8>;

    closed spec fn view(&self) -> Seq<u8> {
        self.der@
    }
}

impl Certificate {
    /// Whether the held bytes are a certificate the underlying parser
    /// accepts. Every constructor establishes this.
    pub open spec fn wf(&self) -> bool {
        cert_well_formed(self@)
    }

    /// Relies on `x509_signature::parse_certificate`: it accepts or rejects
    /// the given DER bytes, deterministically in the bytes alone.
    #[verifier::external_body]
    pub fn try_from_der(der: Vec<u8>) -> (r: Option<Certificate>)
        ensures
            r matches Some(c) ==> c@ == der@ && cert_well_formed(der@),
            r is None ==> !cert_well_formed(der@),
    {
        match x509_signature::parse_certificate(&der) {
            Ok(_) => Some(Certificate { der }),
            Err(_) => None,
        }
    }

    /// The DER bytes this certificate holds.
    pub fn der_bytes(&self) -> (r: &Vec<u8>)
        ensures
            r@ == self@,
    {
        &self.der
    }

    /// Relies on `X509Certificate::issuer`: the issuer name is a function of
    /// the DER bytes.
    #[verifier::external_body]
    pub fn issuer_bytes(&self) -> (r: Vec<u8>)
        requires
            self.wf(),
        ensures
            r@ == cert_issuer(self@),
    {
        let cert = x509_signature::parse_certificate(&self.der).unwrap();
        cert.issuer().to_vec()
    }

    /// Relies on `X509Certificate::subject`: the subject name is a function
    /// of the DER bytes.
    #[verifier::external_body]
    pub fn subject_bytes(&self) -> (r: Vec<u8>)
        requires
            self.wf(),
        ensures
            r@ == cert_subject(self@),
    {
        let cert = x509_signature::parse_certificate(&self.der).unwrap();
        cert.subject().to_vec()
    }

    /// Relies on `X509Certificate::not_before`, a function of the DER bytes.
    /// The bound `cert_not_before <= cert_not_after` holds because
    /// `parse_certificate` rejects a certificate whose notBefore exceeds its
    /// notAfter (`Error::InvalidCertValidity`).
    #[verifier::external_body]
    pub fn not_before(&self) -> (r: i64)
        requires
            self.wf(),
        ensures
            r == cert_not_before(self@),
            r <= cert_not_after(self@),
    {
        let cert = x509_signature::parse_certificate(&self.der).unwrap();
        i64::from(cert.not_before())
    }

    /// Relies on `X509Certificate::not_after`, a function of the DER bytes.
    #[verifier::external_body]
    pub fn not_after(&self) -> (r: i64)
        requires
            self.wf(),
        ensures
            r == cert_not_after(self@),
    {
        let cert = x509_signature::parse_certificate(&self.der).unwrap();
        i64::from(cert.not_after())
    }

    /// Relies on `SubjectPublicKeyInfo::spki`: the subjectPublicKeyInfo
    /// bytes are a function of the DER bytes.
    #[verifier::external_body]
    pub fn spki_bytes(&self) -> (r: Vec<u8>)
        requires
            self.wf(),
        ensures
            r@ == cert_spki(self@),
    {
        let cert = x509_signature::parse_certificate(&self.der).unwrap();
        cert.subject_public_key_info().spki().to_vec()
    }

    /// Relies on `X509Certificate::check_signature_from`: whether this
    /// certificate's signature verifies under `signer`'s public key is a
    /// function of the two DER encodings alone.
    #[verifier::external_body]
    pub fn check_signature_from(&self, signer: &Certificate) -> (r: Result<(), X509Failure>)
        requires
            self.wf(),
            signer.wf(),
        ensures
            r == signature_from_result(self@, signer@),
    {
        let cert = x509_signature::parse_certificate(&self.der).unwrap();
        let signer_cert = x509_signature::parse_certificate(&signer.der).unwrap();
        match cert.check_signature_from(&signer_cert) {
            Ok(()) => Ok(()),
            Err(e) => Err(failure_of(e)),
        }
    }
}

/// What the issued-by check returns: `UnknownIssuer` when the issuer name
/// does not match the candidate issuer's subject name, and the outcome of the
/// cryptographic signature check otherwise. This mirrors
/// `X509Certificate::check_issued_by`, whose name comparison is re-done here
/// in verified code.
pub open spec fn issued_by_result(der: Seq<u8>, issuer_der: Seq<u8>) -> Result<(), X509Failure> {
    if cert_issuer(der) != cert_subject(issuer_der) {
        Err(X509Failure::UnknownIssuer)
    } else {
        signature_from_result(der, issuer_der)
    }
}

/// What the temporal check returns at instant `now`.
pub open spec fn validity_result(der: Seq<u8>, now: i64) -> Result<(), X509Failure> {
    if now < cert_not_before(der) {
        Err(X509Failure::CertNotValidYet)
    } else if now > cert_not_after(der) {
        Err(X509Failure::CertExpired)
    } else {
        Ok(())
    }
}

/// Byte-for-byte equality of two byte vectors.
fn bytes_eq(a: &Vec<u8>, b: &Vec<u8>) -> (r: bool)
    ensures
        r == (a@ == b@),
{
    if a.len() != b.len() {
        return false;
    }
    let mut i: usize = 0;
    while i < a.len()
        invariant
            i <= a@.len(),
            a@.len() == b@.len(),
            forall|j: int| 0 <= j < i ==> a@[j] == b@[j],
        decreases a@.len() - i,
    {
        if a[i] != b[i] {
            return false;
        }
        i = i + 1;
    }
    proof {
        assert(a@ =~= b@);
    }
    true
}

impl Certificate {
    /// Whether this certificate was issued by `issuer`: its issuer name must
    /// equal `issuer`'s subject name, and its signature must verify under
    /// `issuer`'s public key.
    pub fn check_issued_by(&self, issuer: &Certificate) -> (r: Result<(), X509Failure>)
        requires
            self.wf(),
            issuer.wf(),
        ensures
            r == issued_by_result(self@, issuer@),
    {
        let my_issuer = self.issuer_bytes();
        let their_subject = issuer.subject_bytes();
        if !bytes_eq(&my_issuer, &their_subject) {
            Err(X509Failure::UnknownIssuer)
        } else {
            self.check_signature_from(issuer)
        }
    }

    /// Whether this certificate is self-issued: issued by itself.
    pub fn check_self_issued(&self) -> (r: Result<(), X509Failure>)
        requires
            self.wf(),
        ensures
            r == issued_by_result(self@, self@),
    {
        self.check_issued_by(self)
    }

    /// Whether the instant `now` lies inside this certificate's validity
    /// window.
    pub fn valid_at_timestamp(&self, now: i64) -> (r: Result<(), X509Failure>)
        requires
            self.wf(),
        ensures
            r == validity_result(self@, now),
    {
        let nb = self.not_before();
        let na = self.not_after();
        if now < nb {
            Err(X509Failure::CertNotValidYet)
        } else if now > na {
            Err(X509Failure::CertExpired)
        } else {
            Ok(())
        }
    }
}

} // verus!
