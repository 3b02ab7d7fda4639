//! The certificate sequencer.
//!
//! Given a slice of PEM entries, yield one parsed certificate per entry that
//! the underlying parser accepts, in input order; entries that fail to parse
//! are silently skipped, so the output may be shorter than the input. The
//! traversal is lazy, mutates nothing, and can be restarted any number of
//! times by building a fresh iterator over the same entries.

use vstd::prelude::*;

use crate::cert::Certificate;
use crate::cert::cert_well_formed;
use crate::chain::chain_wf;
use crate::chain::der_seq;

verus! {

/// One entry of a PEM bundle: its tag and the raw bytes it carries, which
/// are understood to be DER-encoded X.509 data.
#[derive(Clone, Debug)]
pub struct PemEntry {
    /// The tag of the PEM block, such as `CERTIFICATE`.
    pub tag: String,
    /// The decoded contents of the PEM block.
    pub contents: Vec<u8>,
}

/// The byte contents of each entry of a PEM bundle.
pub open spec fn entry_ders(entries: Seq<PemEntry>) -> Seq<Seq<u8>> {
    entries.map_values(|p: PemEntry| p.contents@)
}

/// The position of the first entry at or after `from` whose bytes parse as
/// a certificate, if any.
pub open spec fn next_cert_index(entries: Seq<Seq<u8>>, from: int) -> Option<int>
    decreases entries.len() - from when from <= entries.len()
{
    if from < 0 || from >= entries.len() {
        None
    } else if cert_well_formed(entries[from]) {
        Some(from)
    } else {
        next_cert_index(entries, from + 1)
    }
}

/// The subsequence of entries that parse as certificates, in input order.
pub open spec fn parsed_ders(entries: Seq<Seq<u8>>) -> Seq<Seq<u8>>
    decreases entries.len(),
{
    if entries.len() == 0 {
        Seq::empty()
    } else if cert_well_formed(entries.last()) {
        parsed_ders(entries.drop_last()).push(entries.last())
    } else {
        parsed_ders(entries.drop_last())
    }
}

/// A lazy iterator of certificates over a slice of PEM entries.
pub struct X509CertificateIter<'a> {
    /// The PEM entries walked over.
    pub pems: &'a Vec<PemEntry>,
    /// The position of the next entry to try.
    pub offset: usize,
}

/// A byte-for-byte copy of a byte vector.
fn copy_bytes(src: &Vec<u8>) -> (r: Vec<u8>)
    ensures
        r@ == src@,
{
    let mut out: Vec<u8> = Vec::new();
    let mut i: usize = 0;
    while i < src.len()
        invariant
            i <= src@.len(),
            out@ == src@.subrange(0, i as int),
        decreases src@.len() - i,
    {
        out.push(src[i]);
        proof {
            assert(out@ =~= src@.subrange(0, i + 1));
        }
        i = i + 1;
    }
    proof {
        assert(out@ =~= src@);
    }
    out
}

impl<'a> X509CertificateIter<'a> {
    /// A fresh traversal starting at the first entry.
    pub fn new(pems: &'a Vec<PemEntry>) -> (r: Self)
        ensures
            r.pems == pems,
            r.offset == 0,
    {
        X509CertificateIter { pems, offset: 0 }
    }

    /// The next entry at or after the current position that parses as a
    /// certificate, advancing just past it; nothing once no entry is left
    /// that parses.
    pub fn next(&mut self) -> (r: Option<Certificate>)
        requires
            old(self).offset <= old(self).pems@.len(),
        ensures
            final(self).pems == old(self).pems,
            final(self).offset <= old(self).pems@.len(),
            match next_cert_index(entry_ders(old(self).pems@), old(self).offset as int) {
                Some(j) => {
                    &&& r matches Some(c) && c@ == entry_ders(old(self).pems@)[j] && c.wf()
                    &&& final(self).offset == j + 1
                },
                None => r is None && final(self).offset == old(self).pems@.len(),
            },
    {
        let ghost entries = entry_ders(self.pems@);
        let ghost start = self.offset as int;
        while self.offset < self.pems.len()
            invariant
                self.pems == old(self).pems,
                entries == entry_ders(self.pems@),
                start == old(self).offset as int,
                start <= self.offset as int <= entries.len(),
                entries.len() == self.pems@.len(),
                forall|j: int|
                    start <= j < self.offset as int ==> !cert_well_formed(#[trigger] entries[j]),
                next_cert_index(entries, start) == next_cert_index(entries, self.offset as int),
            decreases entries.len() - self.offset,
        {
            let der = copy_bytes(&self.pems[self.offset].contents);
            let parsed = Certificate::try_from_der(der);
            self.offset = self.offset + 1;
            match parsed {
                Some(cert) => {
                    return Some(cert);
                },
                None => {},
            }
        }
        None
    }
}

/// A fresh certificate traversal over the given PEM entries.
pub fn iter_x509<'a>(pems: &'a Vec<PemEntry>) -> (r: X509CertificateIter<'a>)
    ensures
        r.pems == pems,
        r.offset == 0,
{
    X509CertificateIter::new(pems)
}

/// All certificates of the bundle, in input order: one per entry that
/// parses, each accepted by the underlying parser.
pub fn certificates_from(pems: &Vec<PemEntry>) -> (r: Vec<Certificate>)
    ensures
        der_seq(r@) == parsed_ders(entry_ders(pems@)),
        chain_wf(r@),
{
    let ghost entries = entry_ders(pems@);
    let mut out: Vec<Certificate> = Vec::new();
    let mut i: usize = 0;
    while i < pems.len()
        invariant
            i <= pems@.len(),
            entries == entry_ders(pems@),
            entries.len() == pems@.len(),
            der_seq(out@) == parsed_ders(entries.subrange(0, i as int)),
            chain_wf(out@),
        decreases pems@.len() - i,
    {
        let ghost prefix = entries.subrange(0, i as int);
        let ghost next_prefix = entries.subrange(0, i + 1);
        proof {
            assert(next_prefix.drop_last() =~= prefix);
            assert(next_prefix.last() == entries[i as int]);
        }
        let der = copy_bytes(&pems[i].contents);
        match Certificate::try_from_der(der) {
            Some(cert) => {
                let ghost old_out = out@;
                out.push(cert);
                proof {
                    assert(der_seq(out@) =~= der_seq(old_out).push(cert@));
                    assert(forall|j: int|
                        0 <= j < out@.len() ==> (#[trigger] out@[j]).wf());
                }
            },
            None => {},
        }
        i = i + 1;
    }
    proof {
        assert(entries.subrange(0, entries.len() as int) =~= entries);
    }
    out
}

} // verus!
