//! End-to-end tests of the sequencer, the chain verifier and the key
//! extractor, over hand-built Ed25519 certificate chains.

use ed25519_dalek::Signer;
use ed25519_dalek::SigningKey;

use x509_chain::cert::Certificate;
use x509_chain::cert::X509Failure;
use x509_chain::chain::ChainError;
use x509_chain::chain::verify_chain;
use x509_chain::chain::verify_chain_at;
use x509_chain::chain::verify_pem_chain;
use x509_chain::chain::verify_pem_chain_at;
use x509_chain::key::KeyError;
use x509_chain::key::PublicKeyType;
use x509_chain::key::public_key_from_der;
use x509_chain::sequencer::PemEntry;
use x509_chain::sequencer::X509CertificateIter;
use x509_chain::sequencer::certificates_from;
use x509_chain::sequencer::iter_x509;

const TYPICAL_CHAIN_LEN: usize = 3;
const DEPTH10_CHAIN_LEN: usize = 10;

/// A validity window that comfortably covers the present.
const NOT_BEFORE_NOW: &str = "200101000000Z";
const NOT_AFTER_NOW: &str = "491231235959Z";

fn der_len(len: usize) -> Vec<u8> {
    if len < 128 {
        vec![len as u8]
    } else if len < 256 {
        vec![0x81, len as u8]
    } else {
        vec![0x82, (len >> 8) as u8, (len & 0xff) as u8]
    }
}

fn der_wrap(tag: u8, contents: &[u8]) -> Vec<u8> {
    let mut out = vec![tag];
    out.extend(der_len(contents.len()));
    out.extend_from_slice(contents);
    out
}

/// An X.501 name: a SEQUENCE wrapping one UTF8String.
fn name(label: &str) -> Vec<u8> {
    der_wrap(0x30, &der_wrap(0x0c, label.as_bytes()))
}

/// A UTCTime value such as `200101000000Z`.
fn utc_time(stamp: &str) -> Vec<u8> {
    der_wrap(0x17, stamp.as_bytes())
}

/// The Ed25519 subjectPublicKeyInfo of the given raw key bytes.
fn ed25519_spki(key: &[u8; 32]) -> Vec<u8> {
    let mut out = vec![0x30, 0x2a, 0x30, 0x05, 0x06, 0x03, 0x2b, 0x65, 0x70, 0x03, 0x21, 0x00];
    out.extend_from_slice(key);
    out
}

const ED25519_ALG_ID: [u8; 7] = [0x30, 0x05, 0x06, 0x03, 0x2b, 0x65, 0x70];

/// A version-3 X.509 certificate with the given names, validity window and
/// subjectPublicKeyInfo, signed over its tbsCertificate by `signer`.
fn make_cert_with_spki(
    issuer: &str,
    subject: &str,
    not_before: &str,
    not_after: &str,
    spki: &[u8],
    signer: &SigningKey,
) -> Vec<u8> {
    let mut tbs_inner: Vec<u8> = Vec::new();
    // version [0] EXPLICIT INTEGER 2
    tbs_inner.extend_from_slice(&[0xa0, 0x03, 0x02, 0x01, 0x02]);
    // serialNumber INTEGER 1
    tbs_inner.extend_from_slice(&[0x02, 0x01, 0x01]);
    // signature AlgorithmIdentifier (must match the outer one)
    tbs_inner.extend_from_slice(&ED25519_ALG_ID);
    tbs_inner.extend(name(issuer));
    let mut validity: Vec<u8> = Vec::new();
    validity.extend(utc_time(not_before));
    validity.extend(utc_time(not_after));
    tbs_inner.extend(der_wrap(0x30, &validity));
    tbs_inner.extend(name(subject));
    tbs_inner.extend_from_slice(spki);
    let tbs = der_wrap(0x30, &tbs_inner);

    let signature = signer.sign(&tbs);
    let mut sig_bits = vec![0x00];
    sig_bits.extend_from_slice(&signature.to_bytes());

    let mut cert_inner = tbs;
    cert_inner.extend_from_slice(&ED25519_ALG_ID);
    cert_inner.extend(der_wrap(0x03, &sig_bits));
    der_wrap(0x30, &cert_inner)
}

fn make_cert(
    issuer: &str,
    subject: &str,
    not_before: &str,
    not_after: &str,
    key: &SigningKey,
    signer: &SigningKey,
) -> Vec<u8> {
    make_cert_with_spki(
        issuer,
        subject,
        not_before,
        not_after,
        &ed25519_spki(&key.verifying_key().to_bytes()),
        signer,
    )
}

fn key_from_seed(seed: u8) -> SigningKey {
    SigningKey::from_bytes(&[seed; 32])
}

/// A root-to-leaf chain of the given subject names, each certificate signed
/// by its predecessor's key and the first by its own, all currently valid.
fn make_chain(labels: &[&str]) -> (Vec<Vec<u8>>, Vec<SigningKey>) {
    let keys: Vec<SigningKey> = (0..labels.len()).map(|i| key_from_seed(i as u8 + 1)).collect();
    let mut certs = Vec::new();
    for i in 0..labels.len() {
        let issuer = if i == 0 { labels[0] } else { labels[i - 1] };
        let signer = if i == 0 { &keys[0] } else { &keys[i - 1] };
        certs.push(make_cert(
            issuer,
            labels[i],
            NOT_BEFORE_NOW,
            NOT_AFTER_NOW,
            &keys[i],
            signer,
        ));
    }
    (certs, keys)
}

/// Encode DER certificates as one PEM bundle string.
fn to_pem_string(ders: &[Vec<u8>]) -> String {
    let mut out = String::new();
    for der in ders {
        let block = pem::Pem {
            tag: "CERTIFICATE".to_string(),
            contents: der.clone(),
        };
        out.push_str(&pem::encode(&block));
    }
    out
}

fn to_entries(pems: Vec<pem::Pem>) -> Vec<PemEntry> {
    pems.into_iter()
        .map(|p| PemEntry {
            tag: p.tag,
            contents: p.contents,
        })
        .collect()
}

fn parse_chain(ders: &[Vec<u8>]) -> Vec<Certificate> {
    let pem_string = to_pem_string(ders);
    let cert_ders = to_entries(pem::parse_many(&pem_string));
    certificates_from(&cert_ders)
}

/// Ensure a valid three-certificate Ed25519 chain is validated correctly and
/// that the leaf's public key is recognized as the key that signed for it.
#[test]
fn valid_chain() {
    let (ders, keys) = make_chain(&["root", "intermediate", "leaf"]);
    let certs = parse_chain(&ders);

    assert_eq!(
        TYPICAL_CHAIN_LEN,
        verify_chain(&certs).expect("Could not verify valid chain")
    );

    let pubkey = certs
        .last()
        .expect("Could not get last cert")
        .mc_public_key()
        .expect("Could not parse last cert's pubkey");

    match pubkey {
        PublicKeyType::Ed25519(key) => {
            assert_eq!(keys.last().unwrap().verifying_key().to_bytes().to_vec(), key)
        }
    }
}

/// Ensure a longer (but still valid) chain is validated correctly.
#[test]
fn depth10_chain() {
    let labels: Vec<String> = (0..DEPTH10_CHAIN_LEN).map(|i| format!("node{}", i)).collect();
    let label_refs: Vec<&str> = labels.iter().map(|s| s.as_str()).collect();
    let (ders, keys) = make_chain(&label_refs);
    let certs = parse_chain(&ders);

    assert_eq!(
        DEPTH10_CHAIN_LEN,
        verify_chain(&certs).expect("Could not verify valid chain")
    );

    let pubkey = certs
        .last()
        .expect("Could not get last cert")
        .mc_public_key()
        .expect("Could not parse last cert's pubkey");

    match pubkey {
        PublicKeyType::Ed25519(key) => {
            assert_eq!(keys.last().unwrap().verifying_key().to_bytes().to_vec(), key)
        }
    }
}

/// Ensure a (valid) tree of certs is not verified as a chain: two siblings
/// issued by the same root, presented as if one issued the other.
#[test]
fn tree_not_chain() {
    let root_key = key_from_seed(1);
    let left_key = key_from_seed(2);
    let right_key = key_from_seed(3);
    let root = make_cert("ca", "ca", NOT_BEFORE_NOW, NOT_AFTER_NOW, &root_key, &root_key);
    let left = make_cert("ca", "left", NOT_BEFORE_NOW, NOT_AFTER_NOW, &left_key, &root_key);
    let right = make_cert("ca", "right", NOT_BEFORE_NOW, NOT_AFTER_NOW, &right_key, &root_key);
    let certs = parse_chain(&[root, left, right]);

    let err = verify_chain(&certs).expect_err("Verification of tree-not-chain did not fail");
    assert_eq!(err, ChainError::X509(X509Failure::UnknownIssuer));
}

/// Ensure a certificate chain missing its root (no root, intermediate,
/// leaf) is not verified.
#[test]
fn missing_head() {
    let (ders, _keys) = make_chain(&["root", "intermediate", "leaf"]);
    let certs = parse_chain(&ders[1..]);

    let err = verify_chain(&certs).expect_err("Verification of missing head chain did not fail");
    assert_eq!(err, ChainError::X509(X509Failure::UnknownIssuer));
}

/// Ensure a broken chain (root, no intermediate, leaf) is not verified.
#[test]
fn missing_link() {
    let (ders, _keys) = make_chain(&["root", "intermediate", "leaf"]);
    let certs = parse_chain(&[ders[0].clone(), ders[2].clone()]);

    let err = verify_chain(&certs).expect_err("Verification of missing-link chain did not fail");
    assert_eq!(err, ChainError::X509(X509Failure::UnknownIssuer));
}

/// Ensure a chain containing a not-yet-valid cert is not verified.
#[test]
fn too_soon() {
    let root_key = key_from_seed(1);
    let leaf_key = key_from_seed(2);
    let root = make_cert("ca", "ca", NOT_BEFORE_NOW, NOT_AFTER_NOW, &root_key, &root_key);
    let leaf = make_cert("ca", "leaf", "470101000000Z", NOT_AFTER_NOW, &leaf_key, &root_key);
    let certs = parse_chain(&[root, leaf]);

    let err = verify_chain(&certs).expect_err("Verification of not-yet-valid chain did not fail");
    assert_eq!(err, ChainError::X509(X509Failure::CertNotValidYet));
}

/// Ensure a chain containing an expired cert is not verified.
#[test]
fn expired() {
    let root_key = key_from_seed(1);
    let leaf_key = key_from_seed(2);
    let root = make_cert("ca", "ca", NOT_BEFORE_NOW, NOT_AFTER_NOW, &root_key, &root_key);
    let leaf = make_cert("ca", "leaf", NOT_BEFORE_NOW, "210101000000Z", &leaf_key, &root_key);
    let certs = parse_chain(&[root, leaf]);

    let err = verify_chain(&certs).expect_err("Verification of expired chain did not fail");
    assert_eq!(err, ChainError::X509(X509Failure::CertExpired));
}

/// An empty sequence of certificates is rejected outright.
#[test]
fn empty_chain() {
    let certs: Vec<Certificate> = Vec::new();
    assert_eq!(verify_chain(&certs), Err(ChainError::Empty));
    assert_eq!(verify_chain_at(&certs, 1_600_000_000), Err(ChainError::Empty));
}

/// A certificate whose signature bytes are corrupted is rejected as forged.
#[test]
fn corrupted_signature() {
    let root_key = key_from_seed(1);
    let mut root = make_cert("ca", "ca", NOT_BEFORE_NOW, NOT_AFTER_NOW, &root_key, &root_key);
    let last = root.len() - 1;
    root[last] ^= 0x01;
    let certs = parse_chain(&[root]);
    assert_eq!(certs.len(), 1);

    let err = verify_chain(&certs).expect_err("Verification of a forged root did not fail");
    assert_eq!(err, ChainError::X509(X509Failure::InvalidSignatureForPublicKey));
}

/// Verifying the same chain twice against the same instant gives the same
/// verdict.
#[test]
fn repeat_verification_same_instant() {
    let (ders, _keys) = make_chain(&["root", "intermediate", "leaf"]);
    let certs = parse_chain(&ders);
    let now: i64 = 1_700_000_000;
    let first = verify_chain_at(&certs, now);
    let second = verify_chain_at(&certs, now);
    assert_eq!(first, Ok(TYPICAL_CHAIN_LEN));
    assert_eq!(first, second);
}

/// The verdict at an instant before the window is not-yet-valid, inside the
/// window success, and past the window expired.
#[test]
fn verdicts_across_the_window() {
    let root_key = key_from_seed(1);
    // Window 2020-01-01T00:00:00Z ..= 2049-12-31T23:59:59Z.
    let root = make_cert("ca", "ca", NOT_BEFORE_NOW, NOT_AFTER_NOW, &root_key, &root_key);
    let certs = parse_chain(&[root]);

    let before: i64 = 1_577_836_799;
    let inside: i64 = 1_577_836_800;
    let last: i64 = 2_524_607_999;
    let after: i64 = 2_524_608_000;
    assert_eq!(certs[0].not_before(), inside);
    assert_eq!(certs[0].not_after(), last);
    assert_eq!(
        verify_chain_at(&certs, before),
        Err(ChainError::X509(X509Failure::CertNotValidYet))
    );
    assert_eq!(verify_chain_at(&certs, inside), Ok(1));
    assert_eq!(verify_chain_at(&certs, last), Ok(1));
    assert_eq!(
        verify_chain_at(&certs, after),
        Err(ChainError::X509(X509Failure::CertExpired))
    );
}

/// Entries that do not parse as certificates are skipped, not fatal.
#[test]
fn sequencer_skips_unparseable_entries() {
    let (ders, _keys) = make_chain(&["root", "leaf"]);
    let entries = vec![
        PemEntry {
            tag: "GARBAGE".to_string(),
            contents: vec![0x01, 0x02, 0x03],
        },
        PemEntry {
            tag: "CERTIFICATE".to_string(),
            contents: ders[0].clone(),
        },
        PemEntry {
            tag: "JUNK".to_string(),
            contents: vec![],
        },
        PemEntry {
            tag: "CERTIFICATE".to_string(),
            contents: ders[1].clone(),
        },
    ];

    let certs = certificates_from(&entries);
    assert_eq!(certs.len(), 2);
    assert_eq!(certs[0].der_bytes(), &ders[0]);
    assert_eq!(certs[1].der_bytes(), &ders[1]);
    assert_eq!(verify_chain(&certs), Ok(2));
}

/// The lazy iterator yields the same certificates, in order, and can be
/// restarted for a fresh traversal.
#[test]
fn iterator_is_lazy_and_restartable() {
    let (ders, _keys) = make_chain(&["root", "leaf"]);
    let entries = vec![
        PemEntry {
            tag: "JUNK".to_string(),
            contents: vec![0xff],
        },
        PemEntry {
            tag: "CERTIFICATE".to_string(),
            contents: ders[0].clone(),
        },
        PemEntry {
            tag: "CERTIFICATE".to_string(),
            contents: ders[1].clone(),
        },
    ];

    let mut iter = iter_x509(&entries);
    assert_eq!(iter.next().unwrap().der_bytes(), &ders[0]);
    assert_eq!(iter.next().unwrap().der_bytes(), &ders[1]);
    assert!(iter.next().is_none());

    let mut again = X509CertificateIter::new(&entries);
    assert_eq!(again.next().unwrap().der_bytes(), &ders[0]);
    assert_eq!(again.next().unwrap().der_bytes(), &ders[1]);
    assert!(again.next().is_none());
}

/// The one-call wrappers behave as sequencing followed by verification.
#[test]
fn pem_chain_convenience() {
    let (ders, _keys) = make_chain(&["root", "intermediate", "leaf"]);
    let pem_string = to_pem_string(&ders);
    let entries = to_entries(pem::parse_many(&pem_string));

    assert_eq!(verify_pem_chain(&entries), Ok(3));
    assert_eq!(verify_pem_chain_at(&entries, 1_700_000_000), Ok(3));

    let empty: Vec<PemEntry> = Vec::new();
    assert_eq!(verify_pem_chain(&empty), Err(ChainError::Empty));

    // A bundle holding no certificate at all is as empty as no bundle.
    let garbage_only = vec![PemEntry {
        tag: "GARBAGE".to_string(),
        contents: vec![0x00, 0x01],
    }];
    assert_eq!(verify_pem_chain(&garbage_only), Err(ChainError::Empty));
}

/// A certificate naming a signature algorithm the underlying library does
/// not know is rejected as unsupported.
#[test]
fn unsupported_signature_algorithm() {
    let root_key = key_from_seed(1);
    // An AlgorithmIdentifier holding an OID the verifier does not know,
    // used consistently inside and outside the tbsCertificate so that the
    // certificate still parses.
    let bogus_alg: [u8; 7] = [0x30, 0x05, 0x06, 0x03, 0x2b, 0x65, 0x6e];

    let mut tbs_inner: Vec<u8> = Vec::new();
    tbs_inner.extend_from_slice(&[0xa0, 0x03, 0x02, 0x01, 0x02]);
    tbs_inner.extend_from_slice(&[0x02, 0x01, 0x01]);
    tbs_inner.extend_from_slice(&bogus_alg);
    tbs_inner.extend(name("ca"));
    let mut validity: Vec<u8> = Vec::new();
    validity.extend(utc_time(NOT_BEFORE_NOW));
    validity.extend(utc_time(NOT_AFTER_NOW));
    tbs_inner.extend(der_wrap(0x30, &validity));
    tbs_inner.extend(name("ca"));
    tbs_inner.extend(ed25519_spki(&root_key.verifying_key().to_bytes()));
    let tbs = der_wrap(0x30, &tbs_inner);
    let signature = root_key.sign(&tbs);
    let mut sig_bits = vec![0x00];
    sig_bits.extend_from_slice(&signature.to_bytes());
    let mut cert_inner = tbs;
    cert_inner.extend_from_slice(&bogus_alg);
    cert_inner.extend(der_wrap(0x03, &sig_bits));
    let der = der_wrap(0x30, &cert_inner);

    let certs = parse_chain(&[der]);
    assert_eq!(certs.len(), 1);
    let err = verify_chain(&certs).expect_err("Verification with a bogus algorithm did not fail");
    assert_eq!(
        err,
        ChainError::X509(X509Failure::UnsupportedSignatureAlgorithm)
    );
}

/// A certificate whose subjectPublicKeyInfo is not the Ed25519 shape is
/// rejected by key extraction with an algorithm mismatch.
#[test]
fn key_extraction_mismatch() {
    let root_key = key_from_seed(1);
    // A syntactically fine subjectPublicKeyInfo naming a different OID.
    let mut odd_spki = vec![0x30, 0x2a, 0x30, 0x05, 0x06, 0x03, 0x2b, 0x65, 0x6e, 0x03, 0x21, 0x00];
    odd_spki.extend_from_slice(&[0x11; 32]);
    let der = make_cert_with_spki("ca", "ca", NOT_BEFORE_NOW, NOT_AFTER_NOW, &odd_spki, &root_key);

    let cert = Certificate::try_from_der(der).expect("Could not parse certificate");
    assert_eq!(cert.mc_public_key(), Err(KeyError::AlgorithmMismatch));
}

/// Key extraction from raw DER bytes: garbage gives nothing, a certificate
/// with an Ed25519 key gives the raw key bytes.
#[test]
fn key_extraction_from_der() {
    assert!(public_key_from_der(vec![0xde, 0xad, 0xbe, 0xef]).is_none());

    let root_key = key_from_seed(7);
    let der = make_cert("ca", "ca", NOT_BEFORE_NOW, NOT_AFTER_NOW, &root_key, &root_key);
    let extracted = public_key_from_der(der)
        .expect("Could not parse certificate")
        .expect("Could not parse pubkey");
    match extracted {
        PublicKeyType::Ed25519(key) => {
            assert_eq!(root_key.verifying_key().to_bytes().to_vec(), key)
        }
    }
}
