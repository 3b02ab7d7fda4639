//! The chain verifier.
//!
//! A chain is an ordered sequence of certificates, index 0 being the
//! root-most and the last index the leaf. [`verify_chain`] walks the sequence
//! in order and checks, for each certificate, that it is issued by its
//! immediate predecessor (by itself, for the first one) and that the current
//! instant lies inside its validity window. Verification is strictly
//! sequential and short-circuits on the first failure; no reordering or
//! path-building is attempted.
//!
//! [`verify_chain`] samples the wall clock once per certificate, as one
//! nondeterministic input per step; [`verify_chain_at`] is the deterministic
//! core that takes a single instant and is pinned exactly to
//! [`spec_verify_chain`].

use vstd::prelude::*;

use crate::cert::Certificate;
use crate::cert::X509Failure;
use crate::cert::cert_issuer;
use crate::cert::cert_subject;
use crate::cert::issued_by_result;
use crate::cert::validity_result;

verus! {

/// Why a chain failed to verify.
#[derive(Clone, Copy, Debug, PartialEq, Eq, Structural)]
pub enum ChainError {
    /// The chain holds no certificates.
    Empty,
    /// The current time could not be read relative to the Unix epoch.
    SystemTime,
    /// The underlying X.509 check of one certificate failed.
    X509(X509Failure),
}

/// The DER bytes of each certificate in a chain.
pub open spec fn der_seq(certs: Seq<Certificate>) -> Seq<Seq<u8>> {
    certs.map_values(|c: Certificate| c@)
}

/// Every certificate in the chain is one the underlying parser accepted.
pub open spec fn chain_wf(certs: Seq<Certificate>) -> bool {
    forall|i: int| 0 <= i < certs.len() ==> (#[trigger] certs[i]).wf()
}

/// The linkage check at position `i`: the first certificate must be issued
/// by itself, every later one by its immediate predecessor.
pub open spec fn link_result(ders: Seq<Seq<u8>>, i: int) -> Result<(), X509Failure> {
    if i == 0 {
        issued_by_result(ders[0], ders[0])
    } else {
        issued_by_result(ders[i], ders[i - 1])
    }
}

/// The full check of the certificate at position `i` when the clock read
/// `now` there: linkage first, then temporal validity.
pub open spec fn step_result(ders: Seq<Seq<u8>>, i: int, now: i64) -> Result<(), X509Failure> {
    match link_result(ders, i) {
        Err(e) => Err(e),
        Ok(()) => validity_result(ders[i], now),
    }
}

/// The verdict on the suffix of the chain from position `i` on, given the
/// clock sample taken at each position.
pub open spec fn spec_verify_from(ders: Seq<Seq<u8>>, times: Seq<i64>, i: int) -> Result<
    int,
    ChainError,
>
    decreases ders.len() - i when i <= ders.len()
{
    if i >= ders.len() {
        Ok(ders.len() as int)
    } else {
        match step_result(ders, i, times[i]) {
            Err(e) => Err(ChainError::X509(e)),
            Ok(()) => spec_verify_from(ders, times, i + 1),
        }
    }
}

/// The verdict on a whole chain, given the clock sample taken at each
/// position: `Empty` for no certificates, the first failing certificate's
/// error otherwise, and the chain length on full success.
pub open spec fn spec_verify_chain(ders: Seq<Seq<u8>>, times: Seq<i64>) -> Result<
    int,
    ChainError,
> {
    if ders.len() == 0 {
        Err(ChainError::Empty)
    } else {
        spec_verify_from(ders, times, 0)
    }
}

/// The verdict on a whole chain when every position sees the same instant.
pub open spec fn spec_verify_chain_at(ders: Seq<Seq<u8>>, now: i64) -> Result<int, ChainError> {
    spec_verify_chain(ders, Seq::new(ders.len(), |i: int| now))
}

/// How an executable verdict corresponds to the specification's.
pub open spec fn verdict_corresponds(r: Result<usize, ChainError>, s: Result<int, ChainError>) -> bool {
    match r {
        Ok(n) => s == Ok::<int, ChainError>(n as int),
        Err(e) => s == Err::<int, ChainError>(e),
    }
}

proof fn lemma_verify_from_ok(ders: Seq<Seq<u8>>, times: Seq<i64>, i: int)
    requires
        0 <= i <= ders.len(),
        forall|j: int| i <= j < ders.len() ==> #[trigger] step_result(ders, j, times[j]) is Ok,
    ensures
        spec_verify_from(ders, times, i) == Ok::<int, ChainError>(ders.len() as int),
    decreases ders.len() - i,
{
    if i < ders.len() {
        lemma_verify_from_ok(ders, times, i + 1);
    }
}

proof fn lemma_verify_from_err(ders: Seq<Seq<u8>>, times: Seq<i64>, i: int, k: int, e: X509Failure)
    requires
        0 <= i <= k < ders.len(),
        forall|j: int| i <= j < k ==> #[trigger] step_result(ders, j, times[j]) is Ok,
        step_result(ders, k, times[k]) == Err::<(), X509Failure>(e),
    ensures
        spec_verify_from(ders, times, i) == Err::<int, ChainError>(ChainError::X509(e)),
    decreases k - i,
{
    if i < k {
        lemma_verify_from_err(ders, times, i + 1, k, e);
    }
}

/// A non-empty chain whose every linkage check and every temporal check
/// passes verifies in full, with a count equal to its length — and
/// conversely, a chain that verifies in full passes every check.
pub proof fn lemma_verify_chain_ok_iff(ders: Seq<Seq<u8>>, times: Seq<i64>)
    requires
        ders.len() > 0,
        times.len() == ders.len(),
    ensures
        spec_verify_chain(ders, times) == Ok::<int, ChainError>(ders.len() as int) <==> (forall|
            i: int,
        |
            0 <= i < ders.len() ==> #[trigger] step_result(ders, i, times[i]) is Ok),
{
    if forall|i: int| 0 <= i < ders.len() ==> #[trigger] step_result(ders, i, times[i]) is Ok {
        lemma_verify_from_ok(ders, times, 0);
    }
    if spec_verify_chain(ders, times) == Ok::<int, ChainError>(ders.len() as int) {
        assert forall|i: int|
            0 <= i < ders.len() implies #[trigger] step_result(ders, i, times[i]) is Ok by {
            if step_result(ders, i, times[i]) is Err {
                let k = first_failure_before(ders, times, i);
                lemma_first_failure_before(ders, times, i);
                match step_result(ders, k, times[k]) {
                    Err(e2) => lemma_verify_from_err(ders, times, 0, k, e2),
                    Ok(()) => {},
                }
            }
        }
    }
}

/// The least position `<= i` whose check fails, given that the check at `i`
/// fails.
spec fn first_failure_before(ders: Seq<Seq<u8>>, times: Seq<i64>, i: int) -> int
    decreases i when 0 <= i
{
    if exists|j: int| 0 <= j < i && #[trigger] step_result(ders, j, times[j]) is Err {
        first_failure_before(ders, times, choose|j: int|
            0 <= j < i && #[trigger] step_result(ders, j, times[j]) is Err)
    } else {
        i
    }
}

proof fn lemma_first_failure_before(ders: Seq<Seq<u8>>, times: Seq<i64>, i: int)
    requires
        0 <= i,
        step_result(ders, i, times[i]) is Err,
    ensures
        0 <= first_failure_before(ders, times, i) <= i,
        step_result(ders, first_failure_before(ders, times, i), times[first_failure_before(ders, times, i)]) is Err,
        forall|j: int|
            0 <= j < first_failure_before(ders, times, i) ==> #[trigger] step_result(
                ders,
                j,
                times[j],
            ) is Ok,
    decreases i,
{
    if exists|j: int| 0 <= j < i && #[trigger] step_result(ders, j, times[j]) is Err {
        let j = choose|j: int| 0 <= j < i && #[trigger] step_result(ders, j, times[j]) is Err;
        lemma_first_failure_before(ders, times, j);
    }
}

/// A chain that passes every check up to position `k`, where the check
/// fails with `e`, is rejected with exactly that error.
pub proof fn lemma_first_failure(ders: Seq<Seq<u8>>, times: Seq<i64>, k: int, e: X509Failure)
    requires
        0 <= k < ders.len(),
        forall|j: int| 0 <= j < k ==> #[trigger] step_result(ders, j, times[j]) is Ok,
        step_result(ders, k, times[k]) == Err::<(), X509Failure>(e),
    ensures
        spec_verify_chain(ders, times) == Err::<int, ChainError>(ChainError::X509(e)),
{
    lemma_verify_from_err(ders, times, 0, k, e);
}

/// A chain whose first certificate is not self-issued — its issuer name
/// differs from its own subject name — is rejected as having an unknown
/// issuer, whatever the clock reads.
pub proof fn lemma_missing_root(ders: Seq<Seq<u8>>, times: Seq<i64>)
    requires
        ders.len() > 0,
        cert_issuer(ders[0]) != cert_subject(ders[0]),
    ensures
        spec_verify_chain(ders, times) == Err::<int, ChainError>(
            ChainError::X509(X509Failure::UnknownIssuer),
        ),
{
    lemma_verify_from_err(ders, times, 0, 0, X509Failure::UnknownIssuer);
}

/// A sequence that is not a linear root-to-leaf path — at some position the
/// certificate's issuer name differs from its predecessor's subject name,
/// every earlier check passing — is rejected as having an unknown issuer,
/// even if a valid path exists among its members.
pub proof fn lemma_broken_link(ders: Seq<Seq<u8>>, times: Seq<i64>, k: int)
    requires
        1 <= k < ders.len(),
        forall|j: int| 0 <= j < k ==> #[trigger] step_result(ders, j, times[j]) is Ok,
        cert_issuer(ders[k]) != cert_subject(ders[k - 1]),
    ensures
        spec_verify_chain(ders, times) == Err::<int, ChainError>(
            ChainError::X509(X509Failure::UnknownIssuer),
        ),
{
    lemma_verify_from_err(ders, times, 0, k, X509Failure::UnknownIssuer);
}

/// A chain whose links all hold but whose certificate at position `k` is not
/// yet valid at the sampled instant — every earlier check passing — is
/// rejected as not valid yet; one already expired there is rejected as
/// expired.
pub proof fn lemma_outside_validity_window(ders: Seq<Seq<u8>>, times: Seq<i64>, k: int)
    requires
        0 <= k < ders.len(),
        forall|j: int| 0 <= j < k ==> #[trigger] step_result(ders, j, times[j]) is Ok,
        link_result(ders, k) is Ok,
        validity_result(ders[k], times[k]) is Err,
    ensures
        times[k] < crate::cert::cert_not_before(ders[k]) ==> spec_verify_chain(ders, times)
            == Err::<int, ChainError>(ChainError::X509(X509Failure::CertNotValidYet)),
        times[k] >= crate::cert::cert_not_before(ders[k]) && times[k] > crate::cert::cert_not_after(
            ders[k],
        ) ==> spec_verify_chain(ders, times) == Err::<int, ChainError>(
            ChainError::X509(X509Failure::CertExpired),
        ),
{
    if times[k] < crate::cert::cert_not_before(ders[k]) {
        lemma_verify_from_err(ders, times, 0, k, X509Failure::CertNotValidYet);
    } else if times[k] > crate::cert::cert_not_after(ders[k]) {
        lemma_verify_from_err(ders, times, 0, k, X509Failure::CertExpired);
    }
}

/// The verdict is a pure function of the chain and the clock samples:
/// verifying the same chain again under an unchanged clock yields the same
/// result.
pub proof fn lemma_verify_deterministic(
    ders: Seq<Seq<u8>>,
    times: Seq<i64>,
    r1: Result<int, ChainError>,
    r2: Result<int, ChainError>,
)
    requires
        r1 == spec_verify_chain(ders, times),
        r2 == spec_verify_chain(ders, times),
    ensures
        r1 == r2,
{
}

/// Relies on `std::time::SystemTime::now`, `SystemTime::duration_since` and
/// `Duration::as_secs`: reads the wall clock as whole seconds since the Unix
/// epoch, or nothing if the clock stands before the epoch. The result
/// depends on the moment of the call, so nothing is stated of it.
#[verifier::external_body]
fn now_unix_seconds() -> Option<i64> {
    match std::time::SystemTime::now().duration_since(std::time::SystemTime::UNIX_EPOCH) {
        Ok(d) => Some(d.as_secs() as i64),
        Err(_) => None,
    }
}

/// Verify a chain against one given instant.
///
/// The verdict is exactly [`spec_verify_chain_at`]: `Empty` for an empty
/// chain; otherwise the error of the first certificate, in order, whose
/// linkage or temporal check fails; otherwise the chain's length.
pub fn verify_chain_at(certs: &Vec<Certificate>, now: i64) -> (r: Result<usize, ChainError>)
    requires
        chain_wf(certs@),
    ensures
        verdict_corresponds(r, spec_verify_chain_at(der_seq(certs@), now)),
{
    let ghost ders = der_seq(certs@);
    let ghost times = Seq::new(ders.len(), |i: int| now);
    let n = certs.len();
    if n == 0 {
        return Err(ChainError::Empty);
    }
    let mut idx: usize = 0;
    while idx < n
        invariant
            chain_wf(certs@),
            n == certs@.len(),
            idx <= n,
            0 < n,
            ders == der_seq(certs@),
            times == Seq::new(ders.len(), |i: int| now),
            forall|j: int| 0 <= j < idx ==> #[trigger] step_result(ders, j, now) is Ok,
        decreases n - idx,
    {
        let cert = &certs[idx];
        let link = if idx == 0 {
            cert.check_self_issued()
        } else {
            cert.check_issued_by(&certs[idx - 1])
        };
        match link {
            Err(e) => {
                proof {
                    lemma_first_failure(ders, times, idx as int, e);
                }
                return Err(ChainError::X509(e));
            },
            Ok(()) => {},
        }
        match cert.valid_at_timestamp(now) {
            Err(e) => {
                proof {
                    lemma_first_failure(ders, times, idx as int, e);
                }
                return Err(ChainError::X509(e));
            },
            Ok(()) => {},
        }
        idx = idx + 1;
    }
    proof {
        lemma_verify_from_ok(ders, times, 0);
    }
    Ok(n)
}

/// Verify a chain against the wall clock, sampling it once per certificate.
///
/// An empty chain is rejected as `Empty`, and `Empty` is returned only for
/// an empty chain. Each certificate's linkage is checked before the clock is
/// read there, so a linkage failure at the root is always surfaced as its
/// own error, never masked by a broken clock; `SystemTime` is returned only
/// when a clock read failed at a position whose every predecessor passed in
/// full and whose own linkage passed. Any other verdict — success or a
/// certificate's failure — is the one that [`spec_verify_chain`] gives for
/// the very clock samples the walk read, one per certificate reached.
pub fn verify_chain(certs: &Vec<Certificate>) -> (r: Result<usize, ChainError>)
    requires
        chain_wf(certs@),
    ensures
        certs@.len() == 0 <==> r == Err::<usize, ChainError>(ChainError::Empty),
        r != Err::<usize, ChainError>(ChainError::Empty) && r != Err::<usize, ChainError>(
            ChainError::SystemTime,
        ) ==> exists|times: Seq<i64>|
            times.len() == certs@.len() && verdict_corresponds(
                r,
                spec_verify_chain(der_seq(certs@), times),
            ),
        r matches Ok(n) ==> n == certs@.len(),
        certs@.len() > 0 ==> (link_result(der_seq(certs@), 0) matches Err(e) ==> r == Err::<
            usize,
            ChainError,
        >(ChainError::X509(e))),
        r == Err::<usize, ChainError>(ChainError::SystemTime) ==> exists|ts: Seq<i64>|
            ts.len() < certs@.len() && (forall|j: int|
                0 <= j < ts.len() ==> #[trigger] step_result(der_seq(certs@), j, ts[j]) is Ok)
                && link_result(der_seq(certs@), ts.len() as int) is Ok,
{
    let ghost ders = der_seq(certs@);
    let n = certs.len();
    if n == 0 {
        return Err(ChainError::Empty);
    }
    let ghost mut sampled: Seq<i64> = Seq::empty();
    let mut idx: usize = 0;
    while idx < n
        invariant
            chain_wf(certs@),
            n == certs@.len(),
            idx <= n,
            0 < n,
            ders == der_seq(certs@),
            sampled.len() == idx,
            forall|j: int| 0 <= j < idx ==> #[trigger] step_result(ders, j, sampled[j]) is Ok,
        decreases n - idx,
    {
        let cert = &certs[idx];
        let link = if idx == 0 {
            cert.check_self_issued()
        } else {
            cert.check_issued_by(&certs[idx - 1])
        };
        match link {
            Err(e) => {
                // A linkage failure is surfaced before the clock is read, so
                // a broken clock cannot mask it.
                let ghost times = sampled + Seq::new((n - idx) as nat, |i: int| 0i64);
                proof {
                    assert(times.len() == n);
                    assert(forall|j: int| 0 <= j < idx ==> times[j] == sampled[j]);
                    lemma_first_failure(ders, times, idx as int, e);
                }
                return Err(ChainError::X509(e));
            },
            Ok(()) => {},
        }
        let now = match now_unix_seconds() {
            Some(t) => t,
            None => {
                proof {
                    assert(forall|j: int|
                        0 <= j < sampled.len() ==> #[trigger] step_result(
                            der_seq(certs@),
                            j,
                            sampled[j],
                        ) is Ok);
                    assert(link_result(der_seq(certs@), sampled.len() as int) is Ok);
                    if idx > 0 {
                        assert(step_result(der_seq(certs@), 0, sampled[0]) is Ok);
                    }
                    assert(link_result(der_seq(certs@), 0) is Ok);
                }
                return Err(ChainError::SystemTime);
            },
        };
        let ghost times = sampled.push(now) + Seq::new((n - idx - 1) as nat, |i: int| now);
        proof {
            assert(times.len() == n);
            assert(forall|j: int| 0 <= j < idx ==> times[j] == sampled[j]);
            assert(times[idx as int] == now);
        }
        match cert.valid_at_timestamp(now) {
            Err(e) => {
                proof {
                    lemma_first_failure(ders, times, idx as int, e);
                }
                return Err(ChainError::X509(e));
            },
            Ok(()) => {},
        }
        proof {
            sampled = sampled.push(now);
        }
        idx = idx + 1;
    }
    proof {
        lemma_verify_from_ok(ders, sampled, 0);
        assert(spec_verify_chain(der_seq(certs@), sampled) == Ok::<int, ChainError>(n as int));
    }
    Ok(n)
}

/// Sequence the certificates out of a PEM bundle and verify them as a chain
/// against the wall clock, in one call. Entries that do not parse as
/// certificates are skipped before verification, so `Empty` means the bundle
/// held no certificate at all.
pub fn verify_pem_chain(pems: &Vec<crate::sequencer::PemEntry>) -> (r: Result<usize, ChainError>)
    ensures
        ({
            let ders = crate::sequencer::parsed_ders(crate::sequencer::entry_ders(pems@));
            &&& ders.len() == 0 <==> r == Err::<usize, ChainError>(ChainError::Empty)
            &&& r != Err::<usize, ChainError>(ChainError::Empty) && r != Err::<
                usize,
                ChainError,
            >(ChainError::SystemTime) ==> exists|times: Seq<i64>|
                times.len() == ders.len() && verdict_corresponds(r, spec_verify_chain(ders, times))
            &&& r matches Ok(n) ==> n == ders.len()
            &&& ders.len() > 0 ==> (link_result(ders, 0) matches Err(e) ==> r == Err::<
                usize,
                ChainError,
            >(ChainError::X509(e)))
            &&& r == Err::<usize, ChainError>(ChainError::SystemTime) ==> exists|ts: Seq<i64>|
                ts.len() < ders.len() && (forall|j: int|
                    0 <= j < ts.len() ==> #[trigger] step_result(ders, j, ts[j]) is Ok)
                    && link_result(ders, ts.len() as int) is Ok
        }),
{
    let certs = crate::sequencer::certificates_from(pems);
    verify_chain(&certs)
}

/// Sequence the certificates out of a PEM bundle and verify them as a chain
/// against one given instant, in one call.
pub fn verify_pem_chain_at(pems: &Vec<crate::sequencer::PemEntry>, now: i64) -> (r: Result<
    usize,
    ChainError,
>)
    ensures
        verdict_corresponds(
            r,
            spec_verify_chain_at(
                crate::sequencer::parsed_ders(crate::sequencer::entry_ders(pems@)),
                now,
            ),
        ),
{
    let certs = crate::sequencer::certificates_from(pems);
    verify_chain_at(&certs, now)
}

} // verus!
