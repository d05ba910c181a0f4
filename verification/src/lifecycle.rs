//! The self-refreshing service-account credential.
//!
//! [`AdminToken`] owns the credential and decides; it performs no I/O. The
//! caller asks it for the request to send, sends it, and hands back what came
//! of it together with the time. One refresh is in flight at most, a failed
//! refresh leaves the last good credential in place, and a credential is only
//! ever replaced as a whole.

use crate::encoding::{encode, EncodedRequest, RequestView, TokenRequest, FORM_CONTENT_TYPE};
use vstd::prelude::*;

verus! {

/// What the identity provider answers to a credential request.
#[derive(Debug, PartialEq, Eq)]
pub struct TokenResponse {
    pub access_token: String,
    pub refresh_token: String,
    pub expires_in: i64,
    pub refresh_expires_in: i64,
}

/// The mathematical content of a [`TokenResponse`].
pub struct TokenResponseView {
    pub access_token: Seq<char>,
    pub refresh_token: Seq<char>,
    pub expires_in: int,
    pub refresh_expires_in: int,
}

impl View for TokenResponse {
    type V = TokenResponseView;

    open spec fn view(&self) -> TokenResponseView {
        TokenResponseView {
            access_token: self.access_token@,
            refresh_token: self.refresh_token@,
            expires_in: self.expires_in as int,
            refresh_expires_in: self.refresh_expires_in as int,
        }
    }
}

impl Clone for TokenResponse {
    fn clone(&self) -> (r: Self)
        ensures
            r == *self,
    {
        TokenResponse {
            access_token: self.access_token.clone(),
            refresh_token: self.refresh_token.clone(),
            expires_in: self.expires_in,
            refresh_expires_in: self.refresh_expires_in,
        }
    }
}

/// The credential as the manager holds it: the provider's last answer, whole,
/// and the time it was obtained.
#[derive(Debug, PartialEq, Eq)]
pub struct ServiceCredential {
    pub current: Option<TokenResponse>,
    pub issued_at: u64,
}

/// The mathematical content of a [`ServiceCredential`].
pub struct CredentialView {
    pub current: Option<TokenResponseView>,
    pub issued_at: int,
}

/// The content of an optional response.
pub open spec fn response_of(response: Option<TokenResponse>) -> Option<TokenResponseView> {
    match response {
        Some(r) => Some(r@),
        None => None,
    }
}

impl View for ServiceCredential {
    type V = CredentialView;

    open spec fn view(&self) -> CredentialView {
        CredentialView { current: response_of(self.current), issued_at: self.issued_at as int }
    }
}

impl Clone for ServiceCredential {
    fn clone(&self) -> (r: Self)
        ensures
            r == *self,
    {
        let current = match &self.current {
            Some(response) => Some(response.clone()),
            None => None,
        };
        ServiceCredential { current, issued_at: self.issued_at }
    }
}

/// The initial fetch failed, or a fetch came back unusable.
#[derive(Clone, Copy, Debug, PartialEq, Eq, Structural)]
pub struct CredentialFetchFailed;

/// Where the manager stands.
#[derive(Clone, Copy, Debug, PartialEq, Eq, Structural)]
pub enum LifecycleState {
    /// No credential was ever obtained.
    Uninitialized,
    /// A credential is held and no refresh is in flight.
    Valid,
    /// A credential is held and a refresh is in flight or waits for a retry.
    Refreshing,
}

/// The refresh delay of a credential that lives `expires_in` seconds, in
/// milliseconds: `share_per_mille` thousandths of its lifetime.
pub open spec fn nominal_delay_millis(expires_in: int, share_per_mille: int) -> int {
    if expires_in > 0 {
        expires_in * share_per_mille
    } else {
        0
    }
}

/// The delay before a failed refresh is tried again, in milliseconds: half the
/// nominal delay, and `retry_cap_millis` at most.
pub open spec fn retry_delay_millis(
    expires_in: int,
    share_per_mille: int,
    retry_cap_millis: int,
) -> int {
    let half = nominal_delay_millis(expires_in, share_per_mille) / 2;
    if half < retry_cap_millis {
        half
    } else {
        retry_cap_millis
    }
}

/// The default share of a credential's lifetime after which it is refreshed:
/// 98%, which leaves a margin of 2% against clock drift and latency.
pub const DEFAULT_SHARE_PER_MILLE: u16 = 980;

/// The default cap on the wait before a retry: five seconds.
pub const DEFAULT_RETRY_CAP_MILLIS: u64 = 5000;

/// When to refresh and when to retry.
#[derive(Clone, Copy, Debug, PartialEq, Eq)]
pub struct RefreshPolicy {
    share_per_mille: u16,
    retry_cap_millis: u64,
}

impl RefreshPolicy {
    #[verifier::type_invariant]
    spec fn share_in_range(self) -> bool {
        0 < self.share_per_mille < 1000
    }

    /// The thousandths of a credential's lifetime after which it is refreshed.
    pub closed spec fn share(self) -> int {
        self.share_per_mille as int
    }

    /// The longest wait before a retry, in milliseconds.
    pub closed spec fn retry_cap(self) -> int {
        self.retry_cap_millis as int
    }

    /// A policy that refreshes after `share_per_mille` thousandths of the
    /// lifetime and retries after `retry_cap_millis` at most. The share must
    /// lie strictly between 0 and 1000, so that a refresh is never scheduled
    /// at or after the expiry.
    pub fn new(share_per_mille: u16, retry_cap_millis: u64) -> (r: Option<RefreshPolicy>)
        ensures
            r is Some <==> 0 < share_per_mille < 1000,
            r matches Some(p) ==> p.share() == share_per_mille && p.retry_cap()
                == retry_cap_millis,
    {
        if 0 < share_per_mille && share_per_mille < 1000 {
            Some(RefreshPolicy { share_per_mille, retry_cap_millis })
        } else {
            None
        }
    }

    /// The thousandths of a credential's lifetime after which it is refreshed.
    pub fn share_per_mille(&self) -> (r: u16)
        ensures
            r == self.share(),
            0 < r < 1000,
    {
        proof {
            use_type_invariant(self);
        }
        self.share_per_mille
    }

    /// The longest wait before a retry, in milliseconds.
    pub fn retry_cap_millis(&self) -> (r: u64)
        ensures
            r == self.retry_cap(),
    {
        self.retry_cap_millis
    }

    /// The delay until the refresh of a credential that lives `expires_in`
    /// seconds, in milliseconds.
    pub fn refresh_delay_millis(&self, expires_in: i64) -> (d: u128)
        ensures
            d == nominal_delay_millis(expires_in as int, self.share()),
            0 < self.share() < 1000,
    {
        proof {
            use_type_invariant(self);
        }
        if expires_in <= 0 {
            0
        } else {
            let lifetime = expires_in as u128;
            let share = self.share_per_mille as u128;
            assert(lifetime * share <= 0x7fff_ffff_ffff_ffff * 1000) by (nonlinear_arith)
                requires
                    0 <= lifetime <= 0x7fff_ffff_ffff_ffff,
                    0 <= share <= 1000,
            ;
            lifetime * share
        }
    }

    /// The delay before a failed refresh of a credential that lives
    /// `expires_in` seconds is tried again, in milliseconds.
    pub fn retry_delay_millis(&self, expires_in: i64) -> (d: u128)
        ensures
            d == retry_delay_millis(expires_in as int, self.share(), self.retry_cap()),
            0 < self.share() < 1000,
    {
        let half = self.refresh_delay_millis(expires_in) / 2;
        let cap = self.retry_cap_millis as u128;
        if half < cap {
            half
        } else {
            cap
        }
    }
}

impl Default for RefreshPolicy {
    /// Refresh after 98% of the lifetime; retry after five seconds at most.
    fn default() -> (r: RefreshPolicy)
        ensures
            r.share() == DEFAULT_SHARE_PER_MILLE,
            r.retry_cap() == DEFAULT_RETRY_CAP_MILLIS,
    {
        RefreshPolicy {
            share_per_mille: DEFAULT_SHARE_PER_MILLE,
            retry_cap_millis: DEFAULT_RETRY_CAP_MILLIS,
        }
    }
}

/// A credential request to send: where to post it, and what.
#[derive(Debug, PartialEq, Eq)]
pub struct CredentialFetch {
    pub endpoint: String,
    pub request: EncodedRequest,
}

/// The manager of the service-account credential.
#[derive(Debug, PartialEq, Eq)]
pub struct AdminToken {
    credential: ServiceCredential,
    in_flight: bool,
    endpoint: String,
    token_request: TokenRequest,
    policy: RefreshPolicy,
}

/// The mathematical content of an [`AdminToken`].
pub struct AdminTokenView {
    pub credential: CredentialView,
    pub in_flight: bool,
    pub endpoint: Seq<char>,
    pub request: RequestView,
    pub share_per_mille: int,
    pub retry_cap_millis: int,
}

impl AdminTokenView {
    /// The policy is one that [`RefreshPolicy::new`] accepts and the time stamp
    /// is one that the manager can hold.
    pub open spec fn wf(self) -> bool {
        &&& 0 < self.share_per_mille < 1000
        &&& 0 <= self.retry_cap_millis <= u64::MAX
        &&& 0 <= self.credential.issued_at <= u64::MAX
    }

    /// Where the manager stands.
    pub open spec fn state(self) -> LifecycleState {
        if self.credential.current is None {
            LifecycleState::Uninitialized
        } else if self.in_flight {
            LifecycleState::Refreshing
        } else {
            LifecycleState::Valid
        }
    }

    /// The time stamp that a credential obtained at `now` gets: `now`, or the
    /// next stamp after the previous credential's where the clock did not move
    /// past it.
    pub open spec fn stamp(self, now: int) -> int {
        if self.credential.current is Some && now <= self.credential.issued_at {
            if self.credential.issued_at < u64::MAX {
                self.credential.issued_at + 1
            } else {
                self.credential.issued_at
            }
        } else {
            now
        }
    }

    /// The manager after a refresh was begun.
    pub open spec fn begun(self) -> AdminTokenView {
        AdminTokenView { in_flight: true, ..self }
    }

    /// The manager after a fetch succeeded with `response` at time `now`.
    pub open spec fn completed(self, response: TokenResponseView, now: int) -> AdminTokenView {
        AdminTokenView {
            credential: CredentialView { current: Some(response), issued_at: self.stamp(now) },
            in_flight: false,
            ..self
        }
    }

    /// The manager after a fetch failed: unchanged where it holds a credential
    /// (the refresh stays in flight for its retry), idle where it holds none.
    pub open spec fn failed(self) -> AdminTokenView {
        if self.credential.current is None {
            AdminTokenView { in_flight: false, ..self }
        } else {
            self
        }
    }

    /// The nominal refresh delay of the credential held, in milliseconds.
    pub open spec fn refresh_delay(self) -> Option<int> {
        match self.credential.current {
            Some(response) => Some(
                nominal_delay_millis(response.expires_in, self.share_per_mille),
            ),
            None => None,
        }
    }

    /// The retry delay for the credential held, in milliseconds.
    pub open spec fn retry_delay(self) -> Option<int> {
        match self.credential.current {
            Some(response) => Some(
                retry_delay_millis(
                    response.expires_in,
                    self.share_per_mille,
                    self.retry_cap_millis,
                ),
            ),
            None => None,
        }
    }
}

/// One thing that happens to the manager.
pub enum LifecycleEvent {
    /// A caller asked to begin a fetch.
    Begin,
    /// A fetch succeeded with `response` at time `now`.
    Complete { response: TokenResponseView, now: int },
    /// A fetch failed.
    Fail,
}

impl AdminTokenView {
    /// The manager after one event.
    pub open spec fn step(self, event: LifecycleEvent) -> AdminTokenView {
        match event {
            LifecycleEvent::Begin => if self.in_flight {
                self
            } else {
                self.begun()
            },
            LifecycleEvent::Complete { response, now } => self.completed(response, now),
            LifecycleEvent::Fail => self.failed(),
        }
    }

    /// The manager after a sequence of events, first to last.
    pub open spec fn run(self, events: Seq<LifecycleEvent>) -> AdminTokenView
        decreases events.len(),
    {
        if events.len() == 0 {
            self
        } else {
            self.run(events.drop_last()).step(events.last())
        }
    }
}

impl View for AdminToken {
    type V = AdminTokenView;

    closed spec fn view(&self) -> AdminTokenView {
        AdminTokenView {
            credential: self.credential@,
            in_flight: self.in_flight,
            endpoint: self.endpoint@,
            request: self.token_request@,
            share_per_mille: self.policy.share(),
            retry_cap_millis: self.policy.retry_cap(),
        }
    }
}

impl AdminToken {
    /// A manager that holds no credential yet and will ask `endpoint` for one
    /// with `token_request`, under the default policy.
    pub fn new(endpoint: String, token_request: TokenRequest) -> (r: AdminToken)
        ensures
            r@ == (AdminTokenView {
                credential: CredentialView { current: None, issued_at: 0 },
                in_flight: false,
                endpoint: endpoint@,
                request: token_request@,
                share_per_mille: DEFAULT_SHARE_PER_MILLE as int,
                retry_cap_millis: DEFAULT_RETRY_CAP_MILLIS as int,
            }),
            r@.state() == LifecycleState::Uninitialized,
            r@.wf(),
    {
        AdminToken {
            credential: ServiceCredential { current: None, issued_at: 0 },
            in_flight: false,
            endpoint,
            token_request,
            policy: RefreshPolicy::default(),
        }
    }

    /// The same manager under another policy.
    pub fn with_policy(self, policy: RefreshPolicy) -> (r: AdminToken)
        ensures
            r@ == (AdminTokenView {
                share_per_mille: policy.share(),
                retry_cap_millis: policy.retry_cap(),
                ..self@
            }),
            r@.wf(),
    {
        proof {
            use_type_invariant(policy);
        }
        AdminToken {
            credential: self.credential,
            in_flight: self.in_flight,
            endpoint: self.endpoint,
            token_request: self.token_request,
            policy,
        }
    }

    /// Where the manager stands.
    pub fn state(&self) -> (r: LifecycleState)
        ensures
            r == self@.state(),
    {
        if self.credential.current.is_none() {
            LifecycleState::Uninitialized
        } else if self.in_flight {
            LifecycleState::Refreshing
        } else {
            LifecycleState::Valid
        }
    }

    /// The lifetime in seconds that the provider gave the credential held.
    pub fn expires_in(&self) -> (r: Option<i64>)
        ensures
            match r {
                Some(seconds) => self@.credential.current matches Some(response)
                    && response.expires_in == seconds,
                None => self@.credential.current is None,
            },
    {
        match &self.credential.current {
            Some(token_response) => Some(token_response.expires_in),
            None => None,
        }
    }

    /// The access token last fetched, however old, or `None` before the first
    /// fetch succeeded. Never waits and never fetches.
    pub fn access_token(&self) -> (r: Option<String>)
        ensures
            match r {
                Some(token) => self@.credential.current matches Some(response)
                    && response.access_token == token@,
                None => self@.credential.current is None,
            },
    {
        match &self.credential.current {
            Some(token_response) => Some(token_response.access_token.clone()),
            None => None,
        }
    }

    /// The access token last fetched, for callers that waited for the first
    /// fetch.
    pub fn current_access_token(&self) -> (r: String)
        requires
            self@.state() != LifecycleState::Uninitialized,
        ensures
            self@.credential.current matches Some(response) && response.access_token == r@,
    {
        match &self.credential.current {
            Some(token_response) => token_response.access_token.clone(),
            None => String::new(),
        }
    }

    /// When the credential held was obtained.
    pub fn issued_at(&self) -> (r: Option<u64>)
        ensures
            match r {
                Some(at) => self@.credential.current is Some && self@.credential.issued_at == at,
                None => self@.credential.current is None,
            },
    {
        if self.credential.current.is_some() {
            Some(self.credential.issued_at)
        } else {
            None
        }
    }

    /// A copy of the credential as it stands: all of one answer, or none.
    pub fn snapshot(&self) -> (r: ServiceCredential)
        ensures
            r@ == self@.credential,
    {
        self.credential.clone()
    }

    /// The policy in force.
    pub fn policy(&self) -> (r: RefreshPolicy)
        ensures
            r.share() == self@.share_per_mille,
            r.retry_cap() == self@.retry_cap_millis,
            self@.wf(),
    {
        proof {
            use_type_invariant(&self.policy);
        }
        self.policy
    }

    /// The credential request to send.
    pub fn fetch_request(&self) -> (r: CredentialFetch)
        ensures
            r.endpoint@ == self@.endpoint,
            r.request.body@ == self@.request.form(),
            r.request.content_type@ == FORM_CONTENT_TYPE@,
            self@.request.derived(),
    {
        CredentialFetch { endpoint: self.endpoint.clone(), request: encode(&self.token_request) }
    }

    /// The delay until the next refresh of the credential held, in
    /// milliseconds.
    pub fn next_refresh_delay(&self) -> (r: Option<u128>)
        ensures
            match r {
                Some(d) => self@.refresh_delay() == Some(d as int),
                None => self@.refresh_delay() is None,
            },
            self@.wf(),
    {
        proof {
            use_type_invariant(&self.policy);
        }
        match &self.credential.current {
            Some(token_response) => Some(
                self.policy.refresh_delay_millis(token_response.expires_in),
            ),
            None => None,
        }
    }

    /// Begins a fetch unless one is in flight. With `Some`, the caller owns
    /// the fetch: it sends the request and reports with `complete_refresh` or
    /// `fail_refresh`. Readers go on seeing the credential held.
    pub fn begin_refresh(&mut self) -> (r: Option<CredentialFetch>)
        ensures
            final(self)@ == old(self)@.step(LifecycleEvent::Begin),
            r is Some <==> !old(self)@.in_flight,
            r matches Some(fetch) ==> {
                &&& fetch.endpoint@ == old(self)@.endpoint
                &&& fetch.request.body@ == old(self)@.request.form()
                &&& fetch.request.content_type@ == FORM_CONTENT_TYPE@
            },
            final(self)@.credential == old(self)@.credential,
    {
        if self.in_flight {
            None
        } else {
            self.in_flight = true;
            Some(self.fetch_request())
        }
    }

    /// Begins a refresh out of turn. Refused before the first fetch succeeded
    /// and while a refresh is in flight, so that no two refreshes run at once.
    pub fn force_refresh(&mut self) -> (r: Option<CredentialFetch>)
        ensures
            old(self)@.state() == LifecycleState::Valid ==> r is Some && final(self)@ == old(
                self,
            )@.begun() && final(self)@.state() == LifecycleState::Refreshing,
            old(self)@.state() != LifecycleState::Valid ==> r is None && final(self)@ == old(
                self,
            )@,
            r matches Some(fetch) ==> {
                &&& fetch.endpoint@ == old(self)@.endpoint
                &&& fetch.request.body@ == old(self)@.request.form()
                &&& fetch.request.content_type@ == FORM_CONTENT_TYPE@
            },
            final(self)@.credential == old(self)@.credential,
    {
        if self.credential.current.is_none() {
            None
        } else {
            self.begin_refresh()
        }
    }

    /// Installs a freshly fetched credential, whole, stamped with `now`, and
    /// returns the delay until its refresh in milliseconds. The manager is
    /// `Valid` afterwards.
    pub fn complete_refresh(&mut self, response: TokenResponse, now: u64) -> (delay: u128)
        ensures
            final(self)@ == old(self)@.step(
                LifecycleEvent::Complete { response: response@, now: now as int },
            ),
            final(self)@.credential.current == Some(response@),
            final(self)@.state() == LifecycleState::Valid,
            delay == nominal_delay_millis(response.expires_in as int, old(self)@.share_per_mille),
            final(self)@.wf(),
    {
        proof {
            use_type_invariant(&self.policy);
        }
        let delay = self.policy.refresh_delay_millis(response.expires_in);
        let stamp = if self.credential.current.is_some() && now <= self.credential.issued_at {
            if self.credential.issued_at < u64::MAX {
                self.credential.issued_at + 1
            } else {
                self.credential.issued_at
            }
        } else {
            now
        };
        self.credential = ServiceCredential { current: Some(response), issued_at: stamp };
        self.in_flight = false;
        delay
    }

    /// Records a failed fetch. Before the first credential this is fatal: the
    /// manager goes idle and the error comes back. Afterwards nothing changes:
    /// the credential held stays in place, a refresh in flight stays so for its
    /// retry, and the delay before the retry comes back in milliseconds.
    pub fn fail_refresh(&mut self) -> (r: Result<u128, CredentialFetchFailed>)
        ensures
            final(self)@ == old(self)@.step(LifecycleEvent::Fail),
            final(self)@.credential == old(self)@.credential,
            match r {
                Ok(delay) => old(self)@.retry_delay() == Some(delay as int),
                Err(_) => old(self)@.credential.current is None,
            },
            final(self)@.wf(),
    {
        proof {
            use_type_invariant(&self.policy);
        }
        match &self.credential.current {
            Some(token_response) => Ok(self.policy.retry_delay_millis(token_response.expires_in)),
            None => {
                self.in_flight = false;
                Err(CredentialFetchFailed)
            },
        }
    }
}

/// A successful refresh is stamped strictly later than the credential it
/// replaces, holds the new answer whole, and is due for its own refresh after
/// the policy's share of the new lifetime.
pub proof fn lemma_refresh_is_later(before: AdminTokenView, response: TokenResponseView, now: int)
    requires
        before.credential.current is Some,
        before.credential.issued_at < u64::MAX,
    ensures
        before.completed(response, now).credential.issued_at > before.credential.issued_at,
        before.completed(response, now).credential.current == Some(response),
        before.completed(response, now).refresh_delay() == Some(
            nominal_delay_millis(response.expires_in, before.share_per_mille),
        ),
{
}

/// Under the default share the refresh delay is 98% of the lifetime: 980
/// milliseconds for each second.
pub proof fn lemma_default_delay(expires_in: int)
    requires
        expires_in > 0,
    ensures
        nominal_delay_millis(expires_in, 980) == expires_in * 980,
        nominal_delay_millis(expires_in, 980) * 100 == expires_in * 1000 * 98,
{
}

/// A refresh is never scheduled at or after the expiry of the credential.
pub proof fn lemma_refresh_before_expiry(expires_in: int, share_per_mille: int)
    requires
        expires_in > 0,
        0 < share_per_mille < 1000,
    ensures
        0 < nominal_delay_millis(expires_in, share_per_mille) < expires_in * 1000,
{
    assert(0 < expires_in * share_per_mille < expires_in * 1000) by (nonlinear_arith)
        requires
            expires_in > 0,
            0 < share_per_mille < 1000,
    ;
}

/// The delay before a retry is shorter than the nominal refresh delay, and
/// no longer than the policy's cap.
pub proof fn lemma_retry_is_shorter(expires_in: int, share_per_mille: int, retry_cap_millis: int)
    requires
        expires_in > 0,
        0 < share_per_mille < 1000,
    ensures
        retry_delay_millis(expires_in, share_per_mille, retry_cap_millis) < nominal_delay_millis(
            expires_in,
            share_per_mille,
        ),
        retry_delay_millis(expires_in, share_per_mille, retry_cap_millis) <= retry_cap_millis,
{
    lemma_refresh_before_expiry(expires_in, share_per_mille);
}

/// Whatever happens to the manager, the credential it shows is never torn: it
/// is the one it started with, or the whole answer of one successful fetch.
pub proof fn lemma_credential_is_whole(start: AdminTokenView, events: Seq<LifecycleEvent>)
    ensures
        start.run(events).credential.current == start.credential.current || exists|i: int|
            0 <= i < events.len() && (#[trigger] events[i] matches LifecycleEvent::Complete {
                response,
                ..
            } && start.run(events).credential.current == Some(response)),
    decreases events.len(),
{
    if events.len() > 0 {
        lemma_credential_is_whole(start, events.drop_last());
    }
}

/// Once the manager holds a credential it always holds one, and the time
/// stamp of the credential never goes back, whatever happens.
pub proof fn lemma_stamp_never_goes_back(start: AdminTokenView, events: Seq<LifecycleEvent>)
    requires
        start.credential.current is Some,
    ensures
        start.run(events).credential.current is Some,
        start.run(events).credential.issued_at >= start.credential.issued_at,
    decreases events.len(),
{
    if events.len() > 0 {
        lemma_stamp_never_goes_back(start, events.drop_last());
    }
}

/// While a refresh of a held credential is in flight, nothing short of a
/// completed fetch ends it or touches the credential: every further request to
/// begin is refused, and readers go on seeing the credential held.
pub proof fn lemma_refresh_stays_in_flight(start: AdminTokenView, events: Seq<LifecycleEvent>)
    requires
        start.in_flight,
        start.credential.current is Some,
        forall|i: int| 0 <= i < events.len() ==> !(#[trigger] events[i] is Complete),
    ensures
        start.run(events) == start,
    decreases events.len(),
{
    if events.len() > 0 {
        lemma_refresh_stays_in_flight(start, events.drop_last());
    }
}

/// What a fetch gave: the decoded answer where the provider answered with a
/// success status and the body decoded, a failure otherwise.
pub fn fetch_outcome(status: u16, decoded: Option<TokenResponse>) -> (r: Result<
    TokenResponse,
    CredentialFetchFailed,
>)
    ensures
        r is Ok <==> 200 <= status < 300 && decoded is Some,
        r matches Ok(response) ==> decoded == Some(response),
{
    if 200 <= status && status < 300 {
        match decoded {
            Some(response) => Ok(response),
            None => Err(CredentialFetchFailed),
        }
    } else {
        Err(CredentialFetchFailed)
    }
}

} // verus!
