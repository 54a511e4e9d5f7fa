//! The auth gate in front of every protected route. It decides, from the
//! `Authorization` header and the cached key set, whether a request is
//! rejected, forwarded with the caller's identity, or has to wait for the
//! issuer's key set to be fetched first.

use vstd::prelude::*;
use crate::auth::{agrees, key_id, verification, verify, verify_opened, AuthError, OpenedToken};
use crate::config::{Config, ConfigView};
use crate::keys::{jwk_views, Jwk, JwkView, KeyCache, KeyCacheView, KeySet};
use crate::model::{CurrentUser, CurrentUserView};
use crate::response::UNAUTHORIZED;

verus! {

/// What is decided about a request.
#[derive(Debug, Clone, PartialEq, Eq)]
pub enum Gate {
    /// Answer with this status and stop; the handler does not run.
    Reject { code: u16 },
    /// Fetch the issuer's key set from this URL, then call `mw_keys_fetched`.
    FetchKeys { url: String },
    /// Attach this identity to the request and pass it on.
    Forward { user: CurrentUser },
}

/// What a `Gate` is, mathematically.
pub enum GateView {
    Reject { code: int },
    FetchKeys { url: Seq<char> },
    Forward { user: CurrentUserView },
}

impl View for Gate {
    type V = GateView;

    open spec fn view(&self) -> GateView {
        match *self {
            Gate::Reject { code } => GateView::Reject { code: code as int },
            Gate::FetchKeys { url } => GateView::FetchKeys { url: url@ },
            Gate::Forward { user } => GateView::Forward { user: user@ },
        }
    }
}

/// The rejection every failed authentication gets, whatever failed.
pub open spec fn rejected() -> GateView {
    GateView::Reject { code: UNAUTHORIZED as int }
}

/// The decision that follows from what verification yields: forward with the
/// subject as the identity, or reject.
pub open spec fn settled(outcome: Result<Seq<char>, AuthError>) -> GateView {
    match outcome {
        Ok(username) => GateView::Forward { user: CurrentUserView { username } },
        Err(_) => rejected(),
    }
}

/// The decision about a request with this `Authorization` header at
/// time `now`. Without a header, or with one that names no key, the request is
/// rejected. Otherwise it is verified against the cached key set if that is
/// current, and the set has to be fetched if it is not.
pub open spec fn gate(
    auth_header: Option<Seq<char>>,
    config: ConfigView,
    cache: KeyCacheView,
    now: nat,
) -> GateView {
    match auth_header {
        None => rejected(),
        Some(token) => if key_id(token) is None {
            rejected()
        } else {
            match cache.current(now) {
                Some(keys) => settled(verification(token, Some(keys), config, now)),
                None => GateView::FetchKeys { url: config.jwks_url() },
            }
        },
    }
}

/// The view of a header value that may be missing.
pub open spec fn header_view(auth_header: Option<&str>) -> Option<Seq<char>> {
    match auth_header {
        Some(token) => Some(token@),
        None => None,
    }
}

/// The views of fetched keys that may be missing.
pub open spec fn fetched_view(fetched: Option<Vec<Jwk>>) -> Option<Seq<JwkView>> {
    match fetched {
        Some(keys) => Some(jwk_views(keys@)),
        None => None,
    }
}

fn settle(outcome: Result<CurrentUser, AuthError>) -> (decision: Gate)
    ensures
        forall|expected: Result<Seq<char>, AuthError>| #[trigger]
            agrees(outcome, expected) ==> decision@ == settled(expected),
{
    match outcome {
        Ok(user) => Gate::Forward { user },
        Err(_) => Gate::Reject { code: UNAUTHORIZED },
    }
}

/// Decides about a request from its `Authorization` header, if it has one.
pub fn mw_require_auth(
    auth_header: Option<&str>,
    config: &Config,
    cache: &KeyCache,
    now: u64,
) -> (decision: Gate)
    ensures
        decision@ == gate(header_view(auth_header), config@, cache@, now as nat),
        auth_header is None ==> decision@ == rejected(),
{
    let token = match auth_header {
        Some(token) => token,
        None => { return Gate::Reject { code: UNAUTHORIZED }; },
    };
    let opened = match OpenedToken::open(token) {
        Some(opened) => opened,
        None => { return Gate::Reject { code: UNAUTHORIZED }; },
    };
    if opened.key_id().is_none() {
        return Gate::Reject { code: UNAUTHORIZED };
    }
    match cache.current(now) {
        Some(keys) => {
            let outcome = verify_opened(&opened, Some(keys), config, now);
            assert(agrees(outcome, verification(token@, Some(keys@), config@, now as nat)));
            settle(outcome)
        },
        None => Gate::FetchKeys { url: config.jwks_url() },
    }
}

/// Decides about a request that waited for the key set. `fetched` holds the
/// issuer's keys, or `None` when they could not be fetched or read. Keys that
/// arrived replace the cached set whole; a failed fetch leaves the cache as it
/// was, and the request is rejected.
pub fn mw_keys_fetched(
    token: &str,
    fetched: Option<Vec<Jwk>>,
    config: &Config,
    cache: &mut KeyCache,
    now: u64,
) -> (decision: Gate)
    ensures
        decision@ == settled(verification(token@, fetched_view(fetched), config@, now as nat)),
        decision@ !is FetchKeys,
        match fetched {
            Some(keys) => final(cache)@ == (KeyCacheView {
                keys: Some(jwk_views(keys@)),
                fetched_at: now as nat,
                ..old(cache)@
            }),
            None => final(cache)@ == old(cache)@,
        },
{
    match fetched {
        Some(keys) => {
            let set = KeySet::new(keys);
            let outcome = verify(token, Some(&set), config, now);
            assert(agrees(outcome, verification(token@, Some(set@), config@, now as nat)));
            cache.install(set, now);
            settle(outcome)
        },
        None => {
            let outcome = verify(token, None, config, now);
            assert(agrees(outcome, verification(token@, None, config@, now as nat)));
            settle(outcome)
        },
    }
}

/// A request without an `Authorization` header is rejected with 401 whatever
/// the configuration and the cache hold, and no key set is asked for.
pub proof fn law_missing_header_rejected(config: ConfigView, cache: KeyCacheView, now: nat)
    ensures
        gate(None, config, cache, now) == rejected(),
{
}

/// A request is forwarded only with the identity that verification against
/// the current key set yields. A forwarded request had a header, the cache
/// held a current set, and verification against that set accepted the token
/// with the forwarded subject.
pub proof fn law_forward_only_verified(
    auth_header: Option<Seq<char>>,
    config: ConfigView,
    cache: KeyCacheView,
    now: nat,
)
    requires
        gate(auth_header, config, cache, now) is Forward,
    ensures
        auth_header is Some,
        cache.current(now) is Some,
        verification(auth_header->0, cache.current(now), config, now) == Ok::<
            Seq<char>,
            AuthError,
        >(gate(auth_header, config, cache, now)->user.username),
{
}

/// Every failure of verification is answered alike. Whatever check a token
/// fails against the current key set, the request is rejected with 401.
pub proof fn law_failures_rejected_alike(
    token: Seq<char>,
    config: ConfigView,
    cache: KeyCacheView,
    now: nat,
)
    requires
        cache.current(now) is Some,
        verification(token, cache.current(now), config, now) is Err,
    ensures
        gate(Some(token), config, cache, now) == rejected(),
{
}

} // verus!
