//! Parsing and verification of the offline license artifact.
//!
//! An artifact is a byte blob of the form `<base64(payload)>:<base64(signature)>`
//! with exactly one `:` separator. Verification decodes both segments,
//! digests the payload with SHA-256 and checks the detached signature
//! against a trust anchor.

use vstd::prelude::*;
use vstd::string::StrSliceExecFns;
use vstd::string::StringSliceAdditionalSpecFns;

use crate::crypto::b64_decode_of;
use crate::crypto::base64_decode;
use crate::crypto::rsa_pkcs1v15_ok;
use crate::crypto::rsa_pkcs1v15_verify;
use crate::crypto::sha256;
use crate::crypto::sha256_of;

verus! {

/// The delimiter byte `:` between the payload and signature segments.
pub const DELIMITER: u8 = 58;

/// The line-feed byte that ends a PEM line.
pub const NEWLINE: u8 = 10;

/// The byte `-` that opens a PEM armor line.
pub const DASH: u8 = 45;

/// Why an artifact was rejected. Gating never surfaces the distinction
/// to users, so that a forger learns nothing from the failure mode.
#[derive(Clone, Copy, Debug, PartialEq, Eq, Structural)]
pub enum RejectReason {
    /// The artifact does not match the two-segment base64 format.
    MalformedArtifact,
    /// The artifact parsed, but the signature check failed.
    InvalidSignature,
}

/// The three-valued result of attempting verification. There is no
/// partial-success state.
#[derive(Clone, Copy, Debug, PartialEq, Eq, Structural)]
pub enum VerificationOutcome {
    /// The signature over the payload digest checks out under the anchor.
    Verified,
    /// The artifact is malformed or carries an invalid signature.
    Rejected(RejectReason),
    /// No artifact path was supplied, so nothing was verified.
    NotAttempted,
}

/// How many delimiter bytes a sequence holds.
pub open spec fn delim_count(s: Seq<u8>) -> nat
    decreases s.len(),
{
    if s.len() == 0 {
        0
    } else {
        delim_count(s.drop_last()) + (if s.last() == DELIMITER { 1nat } else { 0nat })
    }
}

/// The index of the first delimiter byte (the length when there is none).
pub open spec fn first_delim(s: Seq<u8>) -> int
    decreases s.len(),
{
    if s.len() == 0 {
        0
    } else if s.first() == DELIMITER {
        0
    } else {
        1 + first_delim(s.drop_first())
    }
}

/// A well-formed artifact holds exactly one delimiter.
pub open spec fn wf_artifact(s: Seq<u8>) -> bool {
    delim_count(s) == 1
}

/// The payload segment: everything before the first delimiter.
pub open spec fn payload_seg(s: Seq<u8>) -> Seq<u8> {
    s.take(first_delim(s))
}

/// The signature segment: everything after the first delimiter.
pub open spec fn sig_seg(s: Seq<u8>) -> Seq<u8> {
    s.skip(first_delim(s) + 1)
}

/// A sequence has no delimiter exactly when its count is zero.
proof fn lemma_delim_count_zero(s: Seq<u8>)
    ensures
        delim_count(s) == 0 <==> (forall|j: int| 0 <= j < s.len() ==> s[j] != DELIMITER),
    decreases s.len(),
{
    if s.len() > 0 {
        lemma_delim_count_zero(s.drop_last());
        assert(forall|j: int| 0 <= j < s.len() - 1 ==> s.drop_last()[j] == s[j]);
        if delim_count(s) == 0 {
            assert(forall|j: int| 0 <= j < s.len() ==> s[j] != DELIMITER) by {
                assert(s.last() != DELIMITER);
                assert(forall|j: int| 0 <= j < s.len() - 1 ==> s[j] == s.drop_last()[j]);
            }
        }
    }
}

/// The first delimiter is exactly the position of a delimiter byte that no
/// delimiter precedes.
proof fn lemma_first_delim_at(s: Seq<u8>, i: int)
    requires
        0 <= i < s.len(),
        s[i] == DELIMITER,
        forall|j: int| 0 <= j < i ==> s[j] != DELIMITER,
    ensures
        first_delim(s) == i,
    decreases s.len(),
{
    if i == 0 {
    } else {
        assert(s.first() != DELIMITER);
        let t = s.drop_first();
        assert(t[i - 1] == s[i]);
        assert(forall|j: int| 0 <= j < i - 1 ==> t[j] == s[j + 1]);
        lemma_first_delim_at(t, i - 1);
    }
}

/// Split an artifact at its single delimiter. Returns `None` exactly when
/// the artifact does not hold exactly one delimiter byte.
pub fn split_artifact(data: &Vec<u8>) -> (r: Option<(Vec<u8>, Vec<u8>)>)
    ensures
        r is Some <==> wf_artifact(data@),
        (match r {
            Some(parts) => parts.0@ == payload_seg(data@) && parts.1@ == sig_seg(data@),
            None => true,
        }),
{
    let n = data.len();
    let mut count: usize = 0;
    let mut first: usize = n;
    let mut i: usize = 0;
    while i < n
        invariant
            n == data@.len(),
            i <= n,
            count == delim_count(data@.take(i as int)),
            count <= i,
            count == 0 ==> first == n,
            count > 0 ==> first < i && data@[first as int] == DELIMITER
                && (forall|j: int| 0 <= j < first ==> data@[j] != DELIMITER),
        decreases n - i,
    {
        proof {
            assert(data@.take(i + 1).drop_last() =~= data@.take(i as int));
            assert(data@.take(i + 1).last() == data@[i as int]);
        }
        if data[i] == DELIMITER {
            if count == 0 {
                first = i;
                proof {
                    lemma_delim_count_zero(data@.take(i as int));
                    assert(forall|j: int| 0 <= j < i ==> data@.take(i as int)[j] == data@[j]);
                }
            }
            count = count + 1;
        }
        i = i + 1;
    }
    proof {
        assert(data@.take(n as int) =~= data@);
    }
    if count != 1 {
        return None;
    }
    proof {
        lemma_first_delim_at(data@, first as int);
    }
    let mut payload: Vec<u8> = Vec::new();
    let mut j: usize = 0;
    while j < first
        invariant
            first < n,
            n == data@.len(),
            j <= first,
            payload@ == data@.subrange(0, j as int),
        decreases first - j,
    {
        payload.push(data[j]);
        j = j + 1;
    }
    let mut signature: Vec<u8> = Vec::new();
    let mut k: usize = first + 1;
    while k < n
        invariant
            first < n,
            n == data@.len(),
            first + 1 <= k <= n,
            signature@ == data@.subrange(first + 1, k as int),
        decreases n - k,
    {
        signature.push(data[k]);
        k = k + 1;
    }
    proof {
        assert(payload@ =~= payload_seg(data@));
        assert(signature@ =~= sig_seg(data@));
    }
    Some((payload, signature))
}

/// One step of armor stripping. The state is (kept bytes, at a line start,
/// inside an armor line): a line feed starts a new line, a `-` at a line
/// start opens an armor line whose bytes are all dropped, and every byte of
/// an ordinary line is kept.
pub open spec fn strip_step(st: (Seq<u8>, bool, bool), b: u8) -> (Seq<u8>, bool, bool) {
    if b == NEWLINE {
        (st.0, true, false)
    } else if st.1 && b == DASH {
        (st.0, false, true)
    } else if st.2 {
        (st.0, false, true)
    } else {
        (st.0.push(b), false, false)
    }
}

/// Armor stripping folded over a whole byte sequence.
pub open spec fn strip_fold(s: Seq<u8>) -> (Seq<u8>, bool, bool)
    decreases s.len(),
{
    if s.len() == 0 {
        (Seq::empty(), true, false)
    } else {
        strip_step(strip_fold(s.drop_last()), s.last())
    }
}

/// The base64 body of a PEM block: the bytes outside armor lines, with
/// line breaks dropped.
pub open spec fn strip_armor(s: Seq<u8>) -> Seq<u8> {
    strip_fold(s).0
}

/// Drop the armor lines and line breaks of a PEM block, keeping its body.
pub fn strip_pem_armor(pem: &Vec<u8>) -> (r: Vec<u8>)
    ensures
        r@ == strip_armor(pem@),
{
    let mut out: Vec<u8> = Vec::new();
    let mut at_start: bool = true;
    let mut armor: bool = false;
    let mut i: usize = 0;
    while i < pem.len()
        invariant
            i <= pem@.len(),
            strip_fold(pem@.take(i as int)) == (out@, at_start, armor),
        decreases pem@.len() - i,
    {
        proof {
            assert(pem@.take(i + 1).drop_last() =~= pem@.take(i as int));
            assert(pem@.take(i + 1).last() == pem@[i as int]);
        }
        let b = pem[i];
        if b == NEWLINE {
            at_start = true;
            armor = false;
        } else if at_start && b == DASH {
            at_start = false;
            armor = true;
        } else if armor {
            at_start = false;
        } else {
            out.push(b);
            at_start = false;
            armor = false;
        }
        i = i + 1;
    }
    proof {
        assert(pem@.take(pem@.len() as int) =~= pem@);
    }
    out
}

/// The compiled-in trust anchor: a single RSA public key in PKCS#1 DER
/// form, PEM-wrapped. It is never loaded from user input.
pub open spec fn anchor_pem_bytes() -> Seq<u8> {
    ("-----BEGIN RSA PUBLIC KEY-----\nMIIBCgKCAQEAq+JphywG8wCe6cX+bx4xKH8xphMhaI5BgYefQHUXwp8xavoor6Fy\nB54yZba/pkfTnao+P9BvPT0PlSJ1L9aGzq45lcQCcaT+ZdPC5qUogTrKu4eB2qSj\nyTt5pGnPsna+/7yh2sDhC/SHMvTPKt4oHgobWYkH3/039Rj7z5X2WGq69gJzSknX\n/lraNlVUqCWi3yCnMP9QOV5Tou5gQi4nxlfEJO3razrif5jHw1NufQ+xpx1GCpN9\nWhFBU2R4GFZsxlEXV9g1Os1ZpyVuoOe9BnenuS57TixU9SC8kFUHAyAWRSiuLjoP\nxAmGGm4wQ4FlMAt+Bj/K6rvdG3FJUu5ttQIDAQAB\n-----END RSA PUBLIC KEY-----\n").spec_bytes()
}

/// The PEM text of the trust anchor, as bytes.
fn anchor_pem() -> (r: Vec<u8>)
    ensures
        r@ == anchor_pem_bytes(),
{
    let s: &str = "-----BEGIN RSA PUBLIC KEY-----\nMIIBCgKCAQEAq+JphywG8wCe6cX+bx4xKH8xphMhaI5BgYefQHUXwp8xavoor6Fy\nB54yZba/pkfTnao+P9BvPT0PlSJ1L9aGzq45lcQCcaT+ZdPC5qUogTrKu4eB2qSj\nyTt5pGnPsna+/7yh2sDhC/SHMvTPKt4oHgobWYkH3/039Rj7z5X2WGq69gJzSknX\n/lraNlVUqCWi3yCnMP9QOV5Tou5gQi4nxlfEJO3razrif5jHw1NufQ+xpx1GCpN9\nWhFBU2R4GFZsxlEXV9g1Os1ZpyVuoOe9BnenuS57TixU9SC8kFUHAyAWRSiuLjoP\nxAmGGm4wQ4FlMAt+Bj/K6rvdG3FJUu5ttQIDAQAB\n-----END RSA PUBLIC KEY-----\n";
    s.as_bytes_vec()
}

/// The DER bytes of the trust anchor, as base64 decoding leaves them.
pub open spec fn anchor_der() -> Option<Seq<u8>> {
    b64_decode_of(strip_armor(anchor_pem_bytes()))
}

/// Decode the embedded trust anchor to its PKCS#1 DER bytes.
pub fn trust_anchor_der() -> (r: Option<Vec<u8>>)
    ensures
        (match r {
            Some(v) => anchor_der() == Some(v@),
            None => anchor_der() is None,
        }),
{
    let pem = anchor_pem();
    let body = strip_pem_armor(&pem);
    base64_decode(&body)
}

/// The decoded payload and detached signature of an artifact.
pub struct ParsedLicense {
    pub payload: Vec<u8>,
    pub signature: Vec<u8>,
}

/// What parsing an artifact yields: both segments decoded, or nothing when
/// the delimiter arity or either base64 decode fails.
pub open spec fn spec_parse(data: Seq<u8>) -> Option<(Seq<u8>, Seq<u8>)> {
    if !wf_artifact(data) {
        None
    } else {
        match (b64_decode_of(payload_seg(data)), b64_decode_of(sig_seg(data))) {
            (Some(payload), Some(signature)) => Some((payload, signature)),
            _ => None,
        }
    }
}

/// Split an artifact at its single delimiter and base64-decode both
/// segments independently. Any failure invalidates the whole artifact.
pub fn parse_artifact(data: &Vec<u8>) -> (r: Option<ParsedLicense>)
    ensures
        (match r {
            Some(pl) => spec_parse(data@) == Some((pl.payload@, pl.signature@)),
            None => spec_parse(data@) is None,
        }),
{
    match split_artifact(data) {
        None => None,
        Some((payload_b64, signature_b64)) => match base64_decode(&payload_b64) {
            None => None,
            Some(payload) => match base64_decode(&signature_b64) {
                None => None,
                Some(signature) => Some(ParsedLicense { payload, signature }),
            },
        },
    }
}

/// The outcome of checking an artifact against an optional anchor: a
/// missing or undecodable anchor verifies nothing, and the reject reason
/// tells a parse failure from a failed signature check.
pub open spec fn spec_outcome_against(anchor: Option<Seq<u8>>, data: Seq<u8>) -> VerificationOutcome {
    match spec_parse(data) {
        None => VerificationOutcome::Rejected(RejectReason::MalformedArtifact),
        Some(segments) => {
            let accepted = match anchor {
                Some(der) => rsa_pkcs1v15_ok(der, sha256_of(segments.0), segments.1),
                None => false,
            };
            if accepted {
                VerificationOutcome::Verified
            } else {
                VerificationOutcome::Rejected(RejectReason::InvalidSignature)
            }
        }
    }
}

/// The outcome of checking an artifact against the compiled-in anchor.
pub open spec fn spec_verify(data: Seq<u8>) -> VerificationOutcome {
    spec_outcome_against(anchor_der(), data)
}

/// Verify an artifact against a caller-supplied trust anchor (PKCS#1 DER):
/// parse, digest the payload with SHA-256, and check the detached
/// signature under the anchor.
pub fn verify_license_with(anchor_der_bytes: &Vec<u8>, data: &Vec<u8>) -> (r: VerificationOutcome)
    ensures
        r == spec_outcome_against(Some(anchor_der_bytes@), data@),
{
    match parse_artifact(data) {
        None => VerificationOutcome::Rejected(RejectReason::MalformedArtifact),
        Some(parsed) => {
            let digest = sha256(&parsed.payload);
            if rsa_pkcs1v15_verify(anchor_der_bytes, &digest, &parsed.signature) {
                VerificationOutcome::Verified
            } else {
                VerificationOutcome::Rejected(RejectReason::InvalidSignature)
            }
        }
    }
}

/// Verify an artifact against the compiled-in trust anchor. The outcome is
/// definitive: never `NotAttempted`, and never a panic, whatever the bytes.
pub fn verify_license(data: &Vec<u8>) -> (r: VerificationOutcome)
    ensures
        r == spec_verify(data@),
        r != VerificationOutcome::NotAttempted,
{
    match trust_anchor_der() {
        Some(der) => verify_license_with(&der, data),
        None => match parse_artifact(data) {
            None => VerificationOutcome::Rejected(RejectReason::MalformedArtifact),
            Some(_) => VerificationOutcome::Rejected(RejectReason::InvalidSignature),
        },
    }
}

/// The outcome over an optional artifact: `NotAttempted` exactly when no
/// artifact was supplied at all.
pub fn verification_outcome(license_data: &Option<Vec<u8>>) -> (r: VerificationOutcome)
    ensures
        r == (match license_data {
            Some(d) => spec_verify(d@),
            None => VerificationOutcome::NotAttempted,
        }),
{
    match license_data {
        Some(d) => verify_license(d),
        None => VerificationOutcome::NotAttempted,
    }
}

/// Law: an artifact that does not hold exactly one delimiter byte is
/// rejected as malformed, whatever the anchor; it is never verified.
pub proof fn lemma_unbalanced_delimiter_rejected(anchor: Option<Seq<u8>>, data: Seq<u8>)
    requires
        delim_count(data) != 1,
    ensures
        spec_outcome_against(anchor, data)
            == VerificationOutcome::Rejected(RejectReason::MalformedArtifact),
{
}

/// Law: an artifact either of whose segments is not valid base64 is
/// rejected, whatever the anchor; it is never verified.
pub proof fn lemma_undecodable_segment_rejected(anchor: Option<Seq<u8>>, data: Seq<u8>)
    requires
        wf_artifact(data),
        b64_decode_of(payload_seg(data)) is None || b64_decode_of(sig_seg(data)) is None,
    ensures
        spec_outcome_against(anchor, data)
            == VerificationOutcome::Rejected(RejectReason::MalformedArtifact),
{
}

/// Law: verification is deterministic and stateless, so any two attempts
/// on the same artifact with the same anchor end in the same outcome.
pub proof fn lemma_verification_idempotent(
    anchor: Option<Seq<u8>>,
    data: Seq<u8>,
    r1: VerificationOutcome,
    r2: VerificationOutcome,
)
    requires
        r1 == spec_outcome_against(anchor, data),
        r2 == spec_outcome_against(anchor, data),
    ensures
        r1 == r2,
{
}

} // verus!
