//! The token manager: it signs a token, caches it, and signs a new one as
//! soon as the cached one comes within a safety margin of its expiry.

use crate::clock::{Clock, SystemClock};
use crate::signer::{
    lemma_signed_token_injective, sign, sign_result, signed_token, token_view, AuthError, Claims,
};
use std::sync::Arc;
use vstd::prelude::*;
use vstd::rwlock::{RwLock, RwLockPredicate};

verus! {

/// What a manager is made from. Durations are whole seconds.
pub struct Config {
    /// The key that tokens are signed with.
    pub secret_key: String,
    /// How long a token is valid, counted from the moment it was issued.
    pub refresh_interval: u64,
    /// How long before its expiry a token stops being handed out. Where this
    /// is `None`, it is a tenth of `refresh_interval`, rounded down.
    pub safety_margin: Option<u64>,
}

/// The safety margin of a configuration that names none.
pub open spec fn default_safety_margin(refresh_interval: u64) -> u64 {
    refresh_interval / 10
}

/// The signing key and the two durations that decide when a token is
/// replaced.
pub struct RefreshPolicy {
    pub secret_key: String,
    pub refresh_interval: u64,
    pub safety_margin: u64,
}

/// A policy with its key taken as text.
pub struct PolicyView {
    pub secret_key: Seq<char>,
    pub refresh_interval: u64,
    pub safety_margin: u64,
}

impl View for RefreshPolicy {
    type V = PolicyView;

    open spec fn view(&self) -> PolicyView {
        PolicyView {
            secret_key: self.secret_key@,
            refresh_interval: self.refresh_interval,
            safety_margin: self.safety_margin,
        }
    }
}

/// The token that was issued last.
pub struct CachedToken {
    pub value: String,
    pub issued_at: i64,
}

/// A cached token with its value taken as text.
pub struct TokenView {
    pub value: Seq<char>,
    pub issued_at: i64,
}

impl View for CachedToken {
    type V = TokenView;

    open spec fn view(&self) -> TokenView {
        TokenView { value: self.value@, issued_at: self.issued_at }
    }
}

/// The view of a cache: of the token in it, if there is one.
pub open spec fn cache_view(cached: Option<CachedToken>) -> Option<TokenView> {
    match cached {
        Some(token) => Some(token@),
        None => None,
    }
}

impl Config {
    /// The policy that this configuration stands for.
    pub open spec fn policy(&self) -> PolicyView {
        PolicyView {
            secret_key: self.secret_key@,
            refresh_interval: self.refresh_interval,
            safety_margin: match self.safety_margin {
                Some(margin) => margin,
                None => default_safety_margin(self.refresh_interval),
            },
        }
    }
}

impl PolicyView {
    /// The claims of a token issued at `now`.
    pub open spec fn claims_at(self, now: i64) -> Claims {
        Claims { issued_at: now, expires_at: (now + self.refresh_interval) as i128 }
    }

    /// When a token issued at `issued_at` expires.
    pub open spec fn expires_at(self, issued_at: i64) -> int {
        issued_at + self.refresh_interval
    }

    /// Whether the cache holds a token that is still handed out at `now`.
    pub open spec fn is_fresh(self, cached: Option<TokenView>, now: i64) -> bool {
        cached matches Some(token) && now < self.expires_at(token.issued_at) - self.safety_margin
    }

    /// Whether what the cache holds is the token that this policy signs for
    /// the moment recorded with it.
    pub open spec fn is_valid(self, cached: Option<TokenView>) -> bool {
        cached matches Some(token) ==> signed_token(
            self.claims_at(token.issued_at),
            self.secret_key,
        ) == Some(token.value)
    }

    /// One request for a token at `now`: the cache afterwards and the answer.
    /// A fresh token is handed out again and the cache stays as it is.
    /// Otherwise a token is signed for `now`, stored and handed out; where
    /// signing fails the cache stays as it is.
    pub open spec fn serve(self, cached: Option<TokenView>, now: i64) -> (
        Option<TokenView>,
        Result<Seq<char>, AuthError>,
    ) {
        if self.is_fresh(cached, now) {
            (cached, Ok(cached->0.value))
        } else {
            match sign_result(self.claims_at(now), self.secret_key) {
                Ok(token) => (Some(TokenView { value: token, issued_at: now }), Ok(token)),
                Err(e) => (cached, Err(e)),
            }
        }
    }

    /// The cache after requests at `times`, served one after the other.
    pub open spec fn cache_after(self, cached: Option<TokenView>, times: Seq<i64>) -> Option<
        TokenView,
    >
        decreases times.len(),
    {
        if times.len() == 0 {
            cached
        } else {
            self.serve(self.cache_after(cached, times.drop_last()), times.last()).0
        }
    }

    /// Whether request number `i` of `times` finds no fresh token, so that a
    /// token is signed for it.
    pub open spec fn signs_at(self, cached: Option<TokenView>, times: Seq<i64>, i: int) -> bool {
        !self.is_fresh(self.cache_after(cached, times.take(i)), times[i])
    }

    /// The answer to request number `i` of `times`.
    pub open spec fn answer_at(self, cached: Option<TokenView>, times: Seq<i64>, i: int) -> Result<
        Seq<char>,
        AuthError,
    > {
        self.serve(self.cache_after(cached, times.take(i)), times[i]).1
    }

    /// Whether `answer` is what a request at `now` gets from some cache that
    /// is valid under this policy.
    pub open spec fn can_answer_at(self, answer: Result<Seq<char>, AuthError>, now: i64) -> bool {
        exists|cached: Option<TokenView>|
            self.is_valid(cached) && answer == (#[trigger] self.serve(cached, now)).1
    }

    /// Whether `answer` is what a request at some time gets from some cache
    /// that is valid under this policy.
    pub open spec fn can_answer(self, answer: Result<Seq<char>, AuthError>) -> bool {
        exists|now: i64| #[trigger] self.can_answer_at(answer, now)
    }
}

impl RefreshPolicy {
    /// Resolves a configuration: the safety margin is the one it names, or
    /// the default.
    pub fn from_config(config: Config) -> (policy: RefreshPolicy)
        ensures
            policy@ == config.policy(),
    {
        let safety_margin: u64 = match config.safety_margin {
            Some(margin) => margin,
            None => config.refresh_interval / 10,
        };
        RefreshPolicy {
            secret_key: config.secret_key,
            refresh_interval: config.refresh_interval,
            safety_margin,
        }
    }

    /// Whether `token` is still handed out at `now`.
    pub fn is_fresh(&self, token: &CachedToken, now: i64) -> (fresh: bool)
        ensures
            fresh == self@.is_fresh(Some(token@), now),
    {
        (now as i128) < (token.issued_at as i128) + (self.refresh_interval as i128) - (
        self.safety_margin as i128)
    }

    /// The claims of a token issued at `now`.
    pub fn claims_at(&self, now: i64) -> (claims: Claims)
        ensures
            claims == self@.claims_at(now),
    {
        Claims { issued_at: now, expires_at: (now as i128) + (self.refresh_interval as i128) }
    }
}

/// The token manager in the hands of one owner: a policy and the token that
/// was issued last under it.
pub struct TokenManager {
    policy: RefreshPolicy,
    cached: Option<CachedToken>,
}

impl TokenManager {
    #[verifier::type_invariant]
    spec fn well_formed(self) -> bool {
        self.policy@.is_valid(cache_view(self.cached))
    }

    /// The policy that this manager serves by.
    pub closed spec fn policy(&self) -> PolicyView {
        self.policy@
    }

    /// The token that was issued last, if any.
    pub closed spec fn cache(&self) -> Option<TokenView> {
        cache_view(self.cached)
    }

    /// A manager with an empty cache.
    pub fn new(config: Config) -> (manager: TokenManager)
        ensures
            manager.policy() == config.policy(),
            manager.cache() is None,
    {
        TokenManager { policy: RefreshPolicy::from_config(config), cached: None }
    }

    /// The token that was issued last, if any. It is the one that the policy
    /// signs for the moment recorded with it.
    pub fn cached_token(&self) -> (cached: &Option<CachedToken>)
        ensures
            cache_view(*cached) == self.cache(),
            self.policy().is_valid(self.cache()),
    {
        proof {
            use_type_invariant(self);
        }
        &self.cached
    }

    /// The token in the cache, where it is still handed out at `now`.
    pub fn fresh_token(&self, now: i64) -> (hit: Option<String>)
        ensures
            match hit {
                Some(value) => self.policy().is_fresh(self.cache(), now) && value@
                    == self.cache()->0.value,
                None => !self.policy().is_fresh(self.cache(), now),
            },
    {
        match &self.cached {
            Some(token) => {
                if self.policy.is_fresh(token, now) {
                    Some(token.value.clone())
                } else {
                    None
                }
            },
            None => None,
        }
    }

    /// A token that is valid at `now`: the cached one where it is fresh, else
    /// one that is signed for `now` and cached. The cache afterwards and the
    /// answer are those of `PolicyView::serve`, and the cache is valid before
    /// and after.
    pub fn get_token_at(&mut self, now: i64) -> (result: Result<String, AuthError>)
        ensures
            final(self).policy() == old(self).policy(),
            (final(self).cache(), token_view(result)) == old(self).policy().serve(
                old(self).cache(),
                now,
            ),
            old(self).policy().is_valid(old(self).cache()),
            final(self).policy().is_valid(final(self).cache()),
    {
        proof {
            use_type_invariant(&*self);
        }
        match self.fresh_token(now) {
            Some(value) => Ok(value),
            None => {
                let claims = self.policy.claims_at(now);
                match sign(&claims, self.policy.secret_key.as_str()) {
                    Ok(value) => {
                        self.cached = Some(CachedToken { value: value.clone(), issued_at: now });
                        Ok(value)
                    },
                    Err(e) => Err(e),
                }
            },
        }
    }

    /// A token that is valid at the time that `clock` gives.
    pub fn get_token_with<C: Clock>(&mut self, clock: &C) -> (result: Result<String, AuthError>)
        ensures
            final(self).policy() == old(self).policy(),
            exists|now: i64|
                (final(self).cache(), token_view(result)) == #[trigger] old(self).policy().serve(
                    old(self).cache(),
                    now,
                ),
            final(self).policy().is_valid(final(self).cache()),
    {
        let now: i64 = clock.now();
        self.get_token_at(now)
    }

    /// A token that is valid now, by the machine's clock.
    pub fn get_token(&mut self) -> (result: Result<String, AuthError>)
        ensures
            final(self).policy() == old(self).policy(),
            exists|now: i64|
                (final(self).cache(), token_view(result)) == #[trigger] old(self).policy().serve(
                    old(self).cache(),
                    now,
                ),
            final(self).policy().is_valid(final(self).cache()),
    {
        let clock = SystemClock;
        self.get_token_with(&clock)
    }
}

/// What the lock of a shared manager admits: a manager with the policy that
/// the shared manager was made with.
struct SamePolicy {
    policy: PolicyView,
}

impl RwLockPredicate<TokenManager> for SamePolicy {
    closed spec fn inv(self, manager: TokenManager) -> bool {
        manager.policy() == self.policy
    }
}

/// The token manager for many callers. It may be shared and cloned: all
/// clones serve from one cache, which only one caller refreshes at a time.
#[derive(Clone)]
pub struct JWTManager {
    shared: Arc<RwLock<TokenManager, SamePolicy>>,
}

impl JWTManager {
    /// The policy that this manager serves by.
    pub closed spec fn policy(&self) -> PolicyView {
        self.shared.pred().policy
    }

    /// A manager with an empty cache.
    pub fn new(config: Config) -> (manager: JWTManager)
        ensures
            manager.policy() == config.policy(),
    {
        let owned: TokenManager = TokenManager::new(config);
        let ghost admitted = SamePolicy { policy: owned.policy() };
        JWTManager {
            shared: Arc::new(RwLock::<TokenManager, SamePolicy>::new(owned, Ghost(admitted))),
        }
    }

    /// A token that is valid at `now`. The answer is that of
    /// `PolicyView::serve` on the cache as this call found it, which is valid
    /// under the policy whatever other calls ran at the same time. A caller
    /// that finds a fresh token only reads; one that does not waits for its
    /// turn to write, looks again, and signs only if the cache is still
    /// stale.
    pub fn get_token_at(&self, now: i64) -> (result: Result<String, AuthError>)
        ensures
            self.policy().can_answer_at(token_view(result), now),
    {
        let reader = self.shared.acquire_read();
        let found: &TokenManager = reader.borrow();
        let hit: Option<String> = found.fresh_token(now);
        proof {
            use_type_invariant(found);
        }
        let ghost seen = found.cache();
        reader.release_read();
        match hit {
            Some(value) => {
                assert(token_view(Ok(value)) == self.policy().serve(seen, now).1);
                Ok(value)
            },
            None => {
                let (taken, writer) = self.shared.acquire_write();
                let mut owned: TokenManager = taken;
                let result = owned.get_token_at(now);
                writer.release_write(owned);
                result
            },
        }
    }

    /// A token that is valid at the time that `clock` gives.
    pub fn get_token_with<C: Clock>(&self, clock: &C) -> (result: Result<String, AuthError>)
        ensures
            self.policy().can_answer(token_view(result)),
    {
        let now: i64 = clock.now();
        self.get_token_at(now)
    }

    /// A token that is valid now, by the machine's clock.
    pub fn get_token(&self) -> (result: Result<String, AuthError>)
        ensures
            self.policy().can_answer(token_view(result)),
    {
        let clock = SystemClock;
        self.get_token_with(&clock)
    }
}

/// A second request inside the validity window of the token that the first
/// one returned gets the same token, and the cache stays as the first request
/// left it.
pub proof fn lemma_request_within_window_repeats(
    policy: PolicyView,
    cached: Option<TokenView>,
    first: i64,
    second: i64,
)
    requires
        policy.serve(cached, first).1 is Ok,
        policy.is_fresh(policy.serve(cached, first).0, second),
    ensures
        policy.serve(policy.serve(cached, first).0, second) == policy.serve(cached, first),
{
}

/// A request after the validity window of the cached token, under a policy
/// whose margin is shorter than its interval, gets a token that differs from
/// the cached one, is issued at the time of the request and expires one
/// refresh interval later.
pub proof fn lemma_request_after_window_renews(policy: PolicyView, previous: TokenView, now: i64)
    requires
        policy.is_valid(Some(previous)),
        policy.safety_margin < policy.refresh_interval,
        !policy.is_fresh(Some(previous), now),
        policy.serve(Some(previous), now).1 is Ok,
    ensures
        policy.serve(Some(previous), now).1 != Ok::<Seq<char>, AuthError>(previous.value),
        policy.serve(Some(previous), now).0 matches Some(token) && token.issued_at == now
            && policy.expires_at(token.issued_at) == now + policy.refresh_interval
            && policy.serve(Some(previous), now).1 == Ok::<Seq<char>, AuthError>(token.value),
{
    if policy.serve(Some(previous), now).1 == Ok::<Seq<char>, AuthError>(previous.value) {
        lemma_signed_token_injective(
            policy.claims_at(now),
            policy.secret_key,
            policy.claims_at(previous.issued_at),
            policy.secret_key,
        );
    }
}

/// Under a policy whose margin is no longer than its interval, a token that
/// is handed out at `now` is the one in the cache afterwards, and it expires
/// no sooner than the safety margin after `now`.
pub proof fn lemma_served_token_outlives_margin(
    policy: PolicyView,
    cached: Option<TokenView>,
    now: i64,
)
    requires
        policy.safety_margin <= policy.refresh_interval,
        policy.serve(cached, now).1 is Ok,
    ensures
        policy.serve(cached, now).0 matches Some(token) && policy.serve(cached, now).1 == Ok::<
            Seq<char>,
            AuthError,
        >(token.value) && policy.expires_at(token.issued_at) - now >= policy.safety_margin,
{
}

/// A configuration that names no safety margin gets the default, and every
/// token handed out under it expires no sooner than that default after the
/// request.
pub proof fn lemma_default_margin_is_kept(config: Config, cached: Option<TokenView>, now: i64)
    requires
        config.safety_margin is None,
        config.policy().serve(cached, now).1 is Ok,
    ensures
        config.policy().safety_margin == default_safety_margin(config.refresh_interval),
        config.policy().serve(cached, now).0 matches Some(token) && config.policy().expires_at(
            token.issued_at,
        ) - now >= default_safety_margin(config.refresh_interval),
{
    lemma_served_token_outlives_margin(config.policy(), cached, now);
}

/// Two managers with the same configuration that both issue at `now` hand out
/// the same token, whatever stale token each of them held.
pub proof fn lemma_same_configuration_same_token(
    first: Config,
    second: Config,
    first_cache: Option<TokenView>,
    second_cache: Option<TokenView>,
    now: i64,
)
    requires
        first.policy() == second.policy(),
        !first.policy().is_fresh(first_cache, now),
        !second.policy().is_fresh(second_cache, now),
    ensures
        first.policy().serve(first_cache, now).1 == second.policy().serve(second_cache, now).1,
        first.policy().serve(first_cache, now).1 == sign_result(
            first.policy().claims_at(now),
            first.secret_key@,
        ),
{
}

/// Whatever token a manager hands out at `now`, under a policy whose margin
/// is no longer than its interval: the policy signed it for some moment, and
/// it expires no sooner than the safety margin after `now`.
pub proof fn lemma_answer_is_signed_and_outlives_margin(
    policy: PolicyView,
    token: Seq<char>,
    now: i64,
)
    requires
        policy.safety_margin <= policy.refresh_interval,
        policy.can_answer_at(Ok(token), now),
    ensures
        exists|issued_at: i64|
            #![trigger policy.claims_at(issued_at)]
            signed_token(policy.claims_at(issued_at), policy.secret_key) == Some(token)
                && policy.expires_at(issued_at) - now >= policy.safety_margin,
{
    let cached = choose|cached: Option<TokenView>|
        policy.is_valid(cached) && Ok::<Seq<char>, AuthError>(token) == (#[trigger] policy.serve(
            cached,
            now,
        )).1;
    if policy.is_fresh(cached, now) {
        assert(signed_token(policy.claims_at(cached->0.issued_at), policy.secret_key) == Some(
            token,
        ));
    } else {
        assert(signed_token(policy.claims_at(now), policy.secret_key) == Some(token));
    }
}

proof fn lemma_cache_stays_after_refresh(
    policy: PolicyView,
    cached: Option<TokenView>,
    times: Seq<i64>,
    served: int,
)
    requires
        1 <= served <= times.len(),
        policy.serve(cached, times[0]).1 is Ok,
        !policy.is_fresh(cached, times[0]),
        forall|i: int|
            1 <= i < times.len() ==> (#[trigger] times[i]) < policy.expires_at(times[0])
                - policy.safety_margin,
    ensures
        policy.cache_after(cached, times.take(served)) == policy.serve(cached, times[0]).0,
    decreases served,
{
    assert(times.take(served).drop_last() =~= times.take(served - 1));
    if served > 1 {
        lemma_cache_stays_after_refresh(policy, cached, times, served - 1);
    }
}

/// Of two or more requests that find an expired cache, served in whatever
/// order the lock admits them, only the first signs a token, and all get that
/// token: as long as each later one comes inside the validity window of the
/// token that was signed for the first.
pub proof fn lemma_one_refresh_serves_all(
    policy: PolicyView,
    cached: Option<TokenView>,
    times: Seq<i64>,
)
    requires
        times.len() >= 2,
        !policy.is_fresh(cached, times[0]),
        policy.serve(cached, times[0]).1 is Ok,
        forall|i: int|
            1 <= i < times.len() ==> (#[trigger] times[i]) < policy.expires_at(times[0])
                - policy.safety_margin,
    ensures
        policy.signs_at(cached, times, 0),
        forall|i: int| 1 <= i < times.len() ==> !policy.signs_at(cached, times, i),
        forall|i: int|
            0 <= i < times.len() ==> policy.answer_at(cached, times, i) == policy.serve(
                cached,
                times[0],
            ).1,
{
    assert forall|i: int| 1 <= i < times.len() implies !policy.signs_at(cached, times, i)
        && policy.answer_at(cached, times, i) == policy.serve(cached, times[0]).1 by {
        lemma_cache_stays_after_refresh(policy, cached, times, i);
    }
}

} // verus!
