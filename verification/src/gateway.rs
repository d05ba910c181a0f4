//! Bearer-token verification and the path-ownership rule.
//!
//! A request is allowed only when its token verifies against the provider's
//! keys and the subject claim of the token equals the first segment of the
//! request path. This is a capability check: a valid token for one user never
//! opens another user's path.

use jwks_client::keyset::KeyStore;
use vstd::prelude::*;
use vstd::std_specs::iter::IteratorSpec;
use vstd::string::*;

verus! {

/// The claim that names the subject of a token.
pub const SUBJECT_CLAIM: &'static str = "preferred_username";

/// The latest second since the epoch that a token may claim for its expiry or
/// its not-before time: the last second of the year 9999.
pub const LATEST_CLAIMED_TIME: u64 = 253_402_300_799;

/// Why a request was turned away.
#[derive(Clone, Copy, Debug, PartialEq, Eq, Structural)]
pub enum DenyReason {
    /// The token did not verify: bad signature, malformed, expired, or no key.
    VerificationFailed,
    /// The token is valid for another subject than the path belongs to.
    PathMismatch,
    /// The token is valid but carries no subject claim.
    ClaimMissing,
}

/// The outcome of the authorization check for one request.
#[derive(Debug, PartialEq, Eq)]
pub enum AuthorizationDecision {
    Allow { subject: String },
    Deny { reason: DenyReason },
}

/// What verifying a bearer token gave.
#[derive(Debug, PartialEq, Eq)]
pub enum Verification {
    /// The token did not verify.
    Failed,
    /// The token verified; `claim` is its subject claim, if it has one.
    Verified { claim: Option<String> },
}

/// The mathematical content of an [`AuthorizationDecision`].
pub enum DecisionView {
    Allow { subject: Seq<char> },
    Deny { reason: DenyReason },
}

/// The mathematical content of a [`Verification`].
pub enum VerificationView {
    Failed,
    Verified { claim: Option<Seq<char>> },
}

impl View for AuthorizationDecision {
    type V = DecisionView;

    open spec fn view(&self) -> DecisionView {
        match self {
            AuthorizationDecision::Allow { subject } => DecisionView::Allow { subject: subject@ },
            AuthorizationDecision::Deny { reason } => DecisionView::Deny { reason: *reason },
        }
    }
}

impl View for Verification {
    type V = VerificationView;

    open spec fn view(&self) -> VerificationView {
        match self {
            Verification::Failed => VerificationView::Failed,
            Verification::Verified { claim } => VerificationView::Verified {
                claim: text_of(*claim),
            },
        }
    }
}

/// The characters of an optional string.
pub open spec fn text_of(value: Option<String>) -> Option<Seq<char>> {
    match value {
        Some(s) => Some(s@),
        None => None,
    }
}

/// `segment` is the first segment of `path`: the text right after the leading
/// `/`, up to the next `/` or the end, and not empty.
pub open spec fn is_first_segment(path: Seq<char>, segment: Seq<char>) -> bool {
    &&& segment.len() >= 1
    &&& path.len() >= segment.len() as int + 1
    &&& path[0] == '/'
    &&& path.subrange(1, segment.len() as int + 1) == segment
    &&& forall|i: int| 0 <= i < segment.len() ==> segment[i] != '/'
    &&& (path.len() == segment.len() as int + 1 || path[segment.len() as int + 1] == '/')
}

/// The decision for a verification outcome and a request path.
pub open spec fn decision_for(outcome: VerificationView, path: Seq<char>) -> DecisionView {
    match outcome {
        VerificationView::Failed => DecisionView::Deny { reason: DenyReason::VerificationFailed },
        VerificationView::Verified { claim: None } => DecisionView::Deny {
            reason: DenyReason::ClaimMissing,
        },
        VerificationView::Verified { claim: Some(subject) } => if is_first_segment(path, subject) {
            DecisionView::Allow { subject }
        } else {
            DecisionView::Deny { reason: DenyReason::PathMismatch }
        },
    }
}

/// A claimed time that the verification can compare with the clock.
pub open spec fn time_fits(claimed: Option<u64>) -> bool {
    match claimed {
        Some(t) => t <= LATEST_CLAIMED_TIME,
        None => true,
    }
}

/// A path has at most one first segment.
pub proof fn lemma_first_segment_unique(path: Seq<char>, a: Seq<char>, b: Seq<char>)
    requires
        is_first_segment(path, a),
        is_first_segment(path, b),
    ensures
        a == b,
{
    if a.len() < b.len() {
        assert(b[a.len() as int] == path.subrange(1, b.len() as int + 1)[a.len() as int]);
    } else if b.len() < a.len() {
        assert(a[b.len() as int] == path.subrange(1, a.len() as int + 1)[b.len() as int]);
    }
}

/// A token that is valid for one subject never opens a path whose first
/// segment names another.
pub proof fn lemma_other_path_is_denied(path: Seq<char>, owner: Seq<char>, subject: Seq<char>)
    requires
        is_first_segment(path, owner),
        subject != owner,
    ensures
        decision_for(VerificationView::Verified { claim: Some(subject) }, path) == (
        DecisionView::Deny { reason: DenyReason::PathMismatch }),
{
    if is_first_segment(path, subject) {
        lemma_first_segment_unique(path, owner, subject);
    }
}

/// A path without a first segment, such as the root `/`, is denied whatever
/// the token.
pub proof fn lemma_path_without_segment_is_denied(outcome: VerificationView, path: Seq<char>)
    requires
        path.len() <= 1 || path[0] != '/' || path[1] == '/',
    ensures
        decision_for(outcome, path) is Deny,
{
    if let VerificationView::Verified { claim: Some(subject) } = outcome {
        if is_first_segment(path, subject) {
            assert(subject[0] == path.subrange(1, subject.len() as int + 1)[0]);
        }
    }
}

/// The first segment of a request path, or `None` where the path does not
/// start with `/` or nothing stands between that `/` and the next.
pub fn first_segment(path: &str) -> (r: Option<String>)
    ensures
        match r {
            Some(segment) => is_first_segment(path@, segment@),
            None => forall|segment: Seq<char>| !is_first_segment(path@, segment),
        },
{
    broadcast use vstd::string::group_string_axioms;

    let length = path.unicode_len();
    let mut chars = path.chars();
    match chars.next() {
        Some('/') => {},
        _ => {
            return None;
        },
    }
    let mut end: usize = 1;
    loop
        invariant_except_break
            chars.remaining() == path@.skip(end as int),
        invariant
            length == path@.len(),
            1 <= end <= length,
            path@[0] == '/',
            forall|i: int| 1 <= i < end ==> path@[i] != '/',
        ensures
            end == length || path@[end as int] == '/',
        decreases length - end,
    {
        match chars.next() {
            Some(c) => {
                if c == '/' {
                    break;
                }
                end += 1;
            },
            None => {
                break;
            },
        }
    }
    if end == 1 {
        assert forall|segment: Seq<char>| !is_first_segment(path@, segment) by {
            if is_first_segment(path@, segment) {
                assert(segment[0] == path@.subrange(1, segment.len() as int + 1)[0]);
            }
        }
        return None;
    }
    let segment = path.substring_char(1, end).to_owned();
    Some(segment)
}

/// Decides a request from the outcome of verifying its token: the path-
/// ownership rule itself.
pub fn decide(outcome: Verification, request_path: &str) -> (d: AuthorizationDecision)
    ensures
        d@ == decision_for(outcome@, request_path@),
{
    match outcome {
        Verification::Failed => AuthorizationDecision::Deny {
            reason: DenyReason::VerificationFailed,
        },
        Verification::Verified { claim: None } => AuthorizationDecision::Deny {
            reason: DenyReason::ClaimMissing,
        },
        Verification::Verified { claim: Some(subject) } => {
            match first_segment(request_path) {
                Some(segment) => {
                    if segment == subject {
                        AuthorizationDecision::Allow { subject }
                    } else {
                        proof {
                            if is_first_segment(request_path@, subject@) {
                                lemma_first_segment_unique(request_path@, segment@, subject@);
                            }
                        }
                        AuthorizationDecision::Deny { reason: DenyReason::PathMismatch }
                    }
                },
                None => AuthorizationDecision::Deny { reason: DenyReason::PathMismatch },
            }
        },
    }
}

/// The key store of `jwks_client`: the provider's public signing keys. It is
/// handed to the verification and never looked into.
#[verifier::external_type_specification]
#[verifier::external_body]
pub struct ExKeyStore(KeyStore);

/// The error type of `jwks_client`, carried through and never looked into.
#[verifier::external_type_specification]
#[verifier::external_body]
pub struct ExTokenError(jwks_client::error::Error);

/// The expiry time that a token claims, in seconds since the epoch: what
/// `Payload::exp` gives on the payload that `KeyStore::decode` reads from the
/// token, or `None` where the token does not decode or claims none.
pub uninterp spec fn token_expiry(token: Seq<char>) -> Option<u64>;

/// The not-before time that a token claims, read like [`token_expiry`] with
/// `Payload::nbf`.
pub uninterp spec fn token_not_before(token: Seq<char>) -> Option<u64>;

/// The string that a token's payload holds under `claim`: what
/// `Payload::get_str` gives on the payload read from the token, or `None`
/// where there is no such string.
pub uninterp spec fn token_claim(token: Seq<char>, claim: Seq<char>) -> Option<Seq<char>>;

/// Calls `KeyStore::decode` and then `Payload::exp`. Trusted: decoding reads
/// the token alone, not the keys, so the result is the one that
/// [`token_expiry`] names.
#[verifier::external_body]
fn claimed_expiry(key_store: &KeyStore, token: &str) -> (r: Option<u64>)
    ensures
        r == token_expiry(token@),
{
    key_store.decode(token).ok().and_then(|jwt| jwt.payload().exp())
}

/// Calls `KeyStore::decode` and then `Payload::nbf`. Trusted: the result is
/// the one that [`token_not_before`] names.
#[verifier::external_body]
fn claimed_not_before(key_store: &KeyStore, token: &str) -> (r: Option<u64>)
    ensures
        r == token_not_before(token@),
{
    key_store.decode(token).ok().and_then(|jwt| jwt.payload().nbf())
}

/// Calls `KeyStore::verify`, which checks the token's form, key, signature,
/// expiry and not-before time against the clock, and then reads `claim` from
/// the verified payload with `Payload::get_str`. Trusted: whether the token
/// verifies is left open; where it does, the payload is the one decoded from
/// the token, so the claim is the one that [`token_claim`] names. The call
/// adds the claimed times to the epoch, hence the bound on them.
#[verifier::external_body]
fn verify_claim(key_store: &KeyStore, token: &str, claim: &str) -> (r: Result<
    Option<String>,
    jwks_client::error::Error,
>)
    requires
        time_fits(token_expiry(token@)),
        time_fits(token_not_before(token@)),
    ensures
        r matches Ok(found) ==> text_of(found) == token_claim(token@, claim@),
{
    key_store.verify(token).map(|jwt| jwt.payload().get_str(claim).map(str::to_owned))
}

/// Verifies a bearer token against the key store and reads its subject claim.
/// A token that claims a time past [`LATEST_CLAIMED_TIME`] counts as malformed.
pub fn verify(key_store: &KeyStore, bearer_token: &str) -> (outcome: Verification)
    ensures
        outcome@ == VerificationView::Failed || outcome@ == (VerificationView::Verified {
            claim: token_claim(bearer_token@, SUBJECT_CLAIM@),
        }),
        !time_fits(token_expiry(bearer_token@)) || !time_fits(token_not_before(bearer_token@))
            ==> outcome@ == VerificationView::Failed,
{
    let fits = match claimed_expiry(key_store, bearer_token) {
        Some(t) => t <= LATEST_CLAIMED_TIME,
        None => true,
    } && match claimed_not_before(key_store, bearer_token) {
        Some(t) => t <= LATEST_CLAIMED_TIME,
        None => true,
    };
    if !fits {
        return Verification::Failed;
    }
    // Whether the token verifies is the key store's to say, against its keys
    // and the clock.
    let verified = verify_claim(key_store, bearer_token, SUBJECT_CLAIM);
    outcome_of(verified)
}

/// The authorization check for one request: verifies the bearer token, then
/// compares its subject claim with the first segment of the request path.
pub fn authorize(key_store: &KeyStore, bearer_token: &str, request_path: &str) -> (d:
    AuthorizationDecision)
    ensures
        d@ == decision_for(VerificationView::Failed, request_path@) || d@ == decision_for(
            VerificationView::Verified { claim: token_claim(bearer_token@, SUBJECT_CLAIM@) },
            request_path@,
        ),
        !time_fits(token_expiry(bearer_token@)) || !time_fits(token_not_before(bearer_token@))
            ==> d@ == decision_for(VerificationView::Failed, request_path@),
{
    decide(verify(key_store, bearer_token), request_path)
}

/// What a finished verification stands for: the claim read from a token that
/// verified, a failure otherwise, whatever the key store's reason.
pub fn outcome_of(verified: Result<Option<String>, jwks_client::error::Error>) -> (outcome:
    Verification)
    ensures
        outcome@ == match verified {
            Ok(claim) => VerificationView::Verified { claim: text_of(claim) },
            Err(_) => VerificationView::Failed,
        },
{
    match verified {
        Ok(claim) => Verification::Verified { claim },
        Err(_) => Verification::Failed,
    }
}

} // verus!
