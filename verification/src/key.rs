//! The key extractor.
//!
//! Given one certificate — in practice the verified chain's leaf — interpret
//! its subjectPublicKeyInfo as each supported key algorithm, in a fixed
//! order, and return the first that matches. The supported set currently
//! holds Ed25519 alone, whose subjectPublicKeyInfo is a fixed 44-byte DER
//! shape: a twelve-byte header naming the algorithm, then the 32 raw key
//! bytes. Extraction is pure and does not itself verify the chain.

use vstd::prelude::*;

use crate::cert::Certificate;
use crate::cert::cert_spki;

verus! {

/// A public key recognized from a certificate, as one of the supported
/// algorithms, carrying the raw key bytes.
#[derive(Clone, Debug, PartialEq, Eq)]
pub enum PublicKeyType {
    /// An Ed25519 public key: its 32 raw bytes.
    Ed25519(Vec<u8>),
}

/// Why key extraction failed.
#[derive(Clone, Copy, Debug, PartialEq, Eq, Structural)]
pub enum KeyError {
    /// The subjectPublicKeyInfo matches no supported key algorithm.
    AlgorithmMismatch,
}

/// Whether `spki` is the DER subjectPublicKeyInfo of an Ed25519 key: a
/// SEQUENCE of 42 bytes holding the Ed25519 algorithm identifier and a
/// 33-byte BIT STRING with no unused bits, whose contents are the key.
pub open spec fn is_ed25519_spki(spki: Seq<u8>) -> bool {
    &&& spki.len() == 44
    &&& spki[0] == 0x30u8
    &&& spki[1] == 0x2au8
    &&& spki[2] == 0x30u8
    &&& spki[3] == 0x05u8
    &&& spki[4] == 0x06u8
    &&& spki[5] == 0x03u8
    &&& spki[6] == 0x2bu8
    &&& spki[7] == 0x65u8
    &&& spki[8] == 0x70u8
    &&& spki[9] == 0x03u8
    &&& spki[10] == 0x21u8
    &&& spki[11] == 0x00u8
}

/// The Ed25519 key bytes held by a subjectPublicKeyInfo of that shape.
pub open spec fn ed25519_key_of_spki(spki: Seq<u8>) -> Seq<u8> {
    spki.subrange(12, 44)
}

impl Certificate {
    /// Recognize this certificate's public key as one of the supported
    /// algorithms: the 32 Ed25519 key bytes when the subjectPublicKeyInfo
    /// has the Ed25519 shape, and an algorithm mismatch otherwise.
    pub fn mc_public_key(&self) -> (r: Result<PublicKeyType, KeyError>)
        requires
            self.wf(),
        ensures
            is_ed25519_spki(cert_spki(self@)) ==> (r matches Ok(PublicKeyType::Ed25519(k))
                && k@ == ed25519_key_of_spki(cert_spki(self@))),
            !is_ed25519_spki(cert_spki(self@)) ==> r == Err::<PublicKeyType, KeyError>(
                KeyError::AlgorithmMismatch,
            ),
    {
        let spki = self.spki_bytes();
        if spki.len() != 44 {
            return Err(KeyError::AlgorithmMismatch);
        }
        if !(spki[0] == 0x30 && spki[1] == 0x2a && spki[2] == 0x30 && spki[3] == 0x05
            && spki[4] == 0x06 && spki[5] == 0x03 && spki[6] == 0x2b && spki[7] == 0x65
            && spki[8] == 0x70 && spki[9] == 0x03 && spki[10] == 0x21 && spki[11] == 0x00) {
            return Err(KeyError::AlgorithmMismatch);
        }
        let mut key: Vec<u8> = Vec::new();
        let mut i: usize = 12;
        while i < 44
            invariant
                12 <= i <= 44,
                spki@.len() == 44,
                spki@ == cert_spki(self@),
                key@ == spki@.subrange(12, i as int),
            decreases 44 - i,
        {
            key.push(spki[i]);
            proof {
                assert(key@ =~= spki@.subrange(12, i + 1));
            }
            i = i + 1;
        }
        proof {
            assert(key@ =~= ed25519_key_of_spki(cert_spki(self@)));
        }
        Ok(PublicKeyType::Ed25519(key))
    }
}

/// Recognize the public key of a certificate given as raw DER bytes:
/// nothing when the bytes do not parse as a certificate, and the outcome of
/// [`Certificate::mc_public_key`] on the parsed certificate otherwise.
pub fn public_key_from_der(der: Vec<u8>) -> (r: Option<Result<PublicKeyType, KeyError>>)
    ensures
        r is None ==> !crate::cert::cert_well_formed(der@),
        r matches Some(k) ==> crate::cert::cert_well_formed(der@) && (if is_ed25519_spki(
            cert_spki(der@),
        ) {
            k matches Ok(PublicKeyType::Ed25519(b)) && b@ == ed25519_key_of_spki(cert_spki(der@))
        } else {
            k == Err::<PublicKeyType, KeyError>(KeyError::AlgorithmMismatch)
        }),
{
    match Certificate::try_from_der(der) {
        Some(c) => Some(c.mc_public_key()),
        None => None,
    }
}

} // verus!
