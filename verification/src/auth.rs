//! The token verifier: decides whether a bearer token is currently valid and,
//! if it is, whose it is.

use vstd::prelude::*;
use crate::config::{Config, ConfigView};
use crate::keys::{
    find_key, lemma_find_key_none, lemma_find_key_some, usable, JwkView, KeySet,
};
use crate::model::CurrentUser;
use crate::text::text_eq;
use crate::token::{
    decode_part, json_members, member_views, rs256_valid, rs256_verify, split_token, text_member,
    text_of, time_member, time_of, token_parts, Member, MemberView, TimeClaim, TokenParts,
};

verus! {

/// The claim that a rejected token failed on.
#[derive(Debug, Clone, Copy, PartialEq, Eq, Structural)]
pub enum ClaimReason {
    /// `exp` is not a time, or has passed.
    Expiry,
    /// `nbf` is not a time, or lies ahead.
    NotBefore,
    /// `iat` is not a time, or lies ahead.
    IssuedAt,
    /// `iss` is not the configured issuer.
    Issuer,
    /// `client_id` is not the configured client.
    Audience,
    /// `token_use` is not `access`.
    TokenUse,
    /// `username` is missing or not a string.
    Subject,
}

/// Why a token was not accepted.
#[derive(Debug, Clone, Copy, PartialEq, Eq, Structural)]
pub enum AuthError {
    /// The token does not have three parts, a part does not decode, or the
    /// header names no key.
    MalformedToken,
    /// The issuer's key set could not be had.
    KeyFetchError,
    /// The key set holds no key of the id the header names.
    UnknownKey,
    /// The header declares another algorithm than the key's, or the signature
    /// is not the key's.
    BadSignature,
    /// A claim does not hold.
    ClaimRejected { reason: ClaimReason },
}

/// Whether an expiry claim has passed at `now`, `leeway` seconds of clock
/// skew allowed. A token without the claim does not expire.
pub open spec fn has_expired(exp: TimeClaim, now: nat, leeway: nat) -> bool {
    match exp {
        TimeClaim::Absent => false,
        TimeClaim::Invalid => true,
        TimeClaim::At(seconds) => seconds + leeway <= now,
    }
}

/// Whether a time claim lies ahead of `now`, `leeway` seconds of clock skew
/// allowed. A token without the claim is never early.
pub open spec fn lies_ahead(time: TimeClaim, now: nat, leeway: nat) -> bool {
    match time {
        TimeClaim::Absent => false,
        TimeClaim::Invalid => true,
        TimeClaim::At(seconds) => seconds > now + leeway,
    }
}

/// What the claims of a token amount to at time `now`: the subject, or the
/// first claim that does not hold.
pub open spec fn claims_outcome(claims: Seq<MemberView>, config: ConfigView, now: nat) -> Result<
    Seq<char>,
    ClaimReason,
> {
    if has_expired(time_of(claims, "exp"@), now, config.leeway) {
        Err(ClaimReason::Expiry)
    } else if lies_ahead(time_of(claims, "nbf"@), now, config.leeway) {
        Err(ClaimReason::NotBefore)
    } else if lies_ahead(time_of(claims, "iat"@), now, config.leeway) {
        Err(ClaimReason::IssuedAt)
    } else if text_of(claims, "iss"@) != Some(config.issuer()) {
        Err(ClaimReason::Issuer)
    } else if text_of(claims, "client_id"@) != Some(config.client_id) {
        Err(ClaimReason::Audience)
    } else if text_of(claims, "token_use"@) != Some("access"@) {
        Err(ClaimReason::TokenUse)
    } else {
        match text_of(claims, "username"@) {
            Some(username) => Ok(username),
            None => Err(ClaimReason::Subject),
        }
    }
}

/// The members of a token's header, if the token has three parts and its
/// header decodes.
pub open spec fn token_header(token: Seq<char>) -> Option<Seq<MemberView>> {
    match token_parts(token) {
        Some(parts) => json_members(parts.header),
        None => None,
    }
}

/// The id of the key that a token says it was signed with.
pub open spec fn key_id(token: Seq<char>) -> Option<Seq<char>> {
    match token_header(token) {
        Some(header) => text_of(header, "kid"@),
        None => None,
    }
}

/// Whether a token declares the algorithm of `key` and carries a signature
/// that `key` confirms.
pub open spec fn signature_ok(token: Seq<char>, key: JwkView) -> bool
    recommends
        token_header(token) is Some,
{
    let parts = token_parts(token)->0;
    &&& text_of(token_header(token)->0, "alg"@) == Some(key.alg)
    &&& rs256_valid(key.n, key.e, parts.message, parts.signature)
}

/// The members of a token's claim set, if it decodes.
pub open spec fn token_claims(token: Seq<char>) -> Option<Seq<MemberView>>
    recommends
        token_parts(token) is Some,
{
    json_members(token_parts(token)->0.claims)
}

/// What verification of `token` yields at time `now` against the resolved key
/// set (`None` when the set could not be had): the subject, or the first check
/// that failed, in this order: the header and its key id, the key set, the
/// key, the signature, the claim set, the claims.
pub open spec fn verification(
    token: Seq<char>,
    keys: Option<Seq<JwkView>>,
    config: ConfigView,
    now: nat,
) -> Result<Seq<char>, AuthError> {
    match key_id(token) {
        None => Err(AuthError::MalformedToken),
        Some(kid) => match keys {
            None => Err(AuthError::KeyFetchError),
            Some(keys) => match find_key(keys, kid) {
                None => Err(AuthError::UnknownKey),
                Some(key) => if !signature_ok(token, key) {
                    Err(AuthError::BadSignature)
                } else {
                    match token_claims(token) {
                        None => Err(AuthError::MalformedToken),
                        Some(claims) => match claims_outcome(claims, config, now) {
                            Ok(username) => Ok(username),
                            Err(reason) => Err(AuthError::ClaimRejected { reason }),
                        },
                    }
                },
            },
        },
    }
}

/// Whether an outcome of verification is what `expected` says.
pub open spec fn agrees(
    outcome: Result<CurrentUser, AuthError>,
    expected: Result<Seq<char>, AuthError>,
) -> bool {
    match outcome {
        Ok(user) => expected == Ok::<Seq<char>, AuthError>(user.username@),
        Err(error) => expected == Err::<Seq<char>, AuthError>(error),
    }
}

/// A token split into its parts, with its header decoded.
#[derive(Debug, Clone, PartialEq, Eq)]
pub struct OpenedToken {
    parts: TokenParts,
    header: Vec<Member>,
}

impl OpenedToken {
    /// The token that was opened.
    pub closed spec fn opens(&self, token: Seq<char>) -> bool {
        &&& token_parts(token) == Some(self.parts@)
        &&& token_header(token) == Some(member_views(self.header@))
    }

    /// Splits a token and decodes its header.
    pub fn open(token: &str) -> (opened: Option<OpenedToken>)
        ensures
            opened is Some <==> token_header(token@) is Some,
            opened matches Some(opened) ==> opened.opens(token@),
    {
        match split_token(token) {
            Some(parts) => match decode_part(parts.header.as_str()) {
                Some(header) => Some(OpenedToken { parts, header }),
                None => None,
            },
            None => None,
        }
    }

    /// The id of the key the header names.
    pub fn key_id(&self) -> (kid: Option<&String>)
        ensures
            forall|token: Seq<char>| #[trigger]
                self.opens(token) ==> match kid {
                    Some(kid) => key_id(token) == Some(kid@),
                    None => key_id(token) is None,
                },
    {
        text_member(&self.header, "kid")
    }
}

fn has_passed(exp: TimeClaim, now: u64, leeway: u64) -> (passed: bool)
    ensures
        passed == has_expired(exp, now as nat, leeway as nat),
{
    match exp {
        TimeClaim::Absent => false,
        TimeClaim::Invalid => true,
        TimeClaim::At(seconds) => seconds as u128 + leeway as u128 <= now as u128,
    }
}

fn is_ahead(time: TimeClaim, now: u64, leeway: u64) -> (ahead: bool)
    ensures
        ahead == lies_ahead(time, now as nat, leeway as nat),
{
    match time {
        TimeClaim::Absent => false,
        TimeClaim::Invalid => true,
        TimeClaim::At(seconds) => seconds as u128 > now as u128 + leeway as u128,
    }
}

fn holds_text(members: &Vec<Member>, name: &str, expected: &str) -> (holds: bool)
    ensures
        holds == (text_of(member_views(members@), name@) == Some(expected@)),
{
    match text_member(members, name) {
        Some(text) => text_eq(text.as_str(), expected),
        None => false,
    }
}

/// Checks a decoded claim set at time `now`: expiry, not-before and issue
/// time, then issuer, audience and use, and yields the subject.
pub fn validate_claims(claims: &Vec<Member>, config: &Config, now: u64) -> (outcome: Result<
    CurrentUser,
    ClaimReason,
>)
    ensures
        match outcome {
            Ok(user) => claims_outcome(member_views(claims@), config@, now as nat) == Ok::<
                Seq<char>,
                ClaimReason,
            >(user.username@),
            Err(reason) => claims_outcome(member_views(claims@), config@, now as nat) == Err::<
                Seq<char>,
                ClaimReason,
            >(reason),
        },
{
    if has_passed(time_member(claims, "exp"), now, config.leeway) {
        return Err(ClaimReason::Expiry);
    }
    if is_ahead(time_member(claims, "nbf"), now, config.leeway) {
        return Err(ClaimReason::NotBefore);
    }
    if is_ahead(time_member(claims, "iat"), now, config.leeway) {
        return Err(ClaimReason::IssuedAt);
    }
    let issuer = config.issuer();
    if !holds_text(claims, "iss", issuer.as_str()) {
        return Err(ClaimReason::Issuer);
    }
    if !holds_text(claims, "client_id", config.client_id.as_str()) {
        return Err(ClaimReason::Audience);
    }
    if !holds_text(claims, "token_use", "access") {
        return Err(ClaimReason::TokenUse);
    }
    match text_member(claims, "username") {
        Some(username) => Ok(CurrentUser { username: username.clone() }),
        None => Err(ClaimReason::Subject),
    }
}

/// Verifies an opened token against the resolved key set.
pub fn verify_opened(
    opened: &OpenedToken,
    keys: Option<&KeySet>,
    config: &Config,
    now: u64,
) -> (outcome: Result<CurrentUser, AuthError>)
    ensures
        forall|token: Seq<char>| #[trigger]
            opened.opens(token) ==> agrees(
                outcome,
                verification(
                    token,
                    match keys {
                        Some(keys) => Some(keys@),
                        None => None,
                    },
                    config@,
                    now as nat,
                ),
            ),
{
    let kid = match opened.key_id() {
        Some(kid) => kid,
        None => { return Err(AuthError::MalformedToken); },
    };
    let keys = match keys {
        Some(keys) => keys,
        None => { return Err(AuthError::KeyFetchError); },
    };
    let key = match keys.find(kid.as_str()) {
        Some(key) => key,
        None => { return Err(AuthError::UnknownKey); },
    };
    let parts = &opened.parts;
    if !holds_text(&opened.header, "alg", key.alg.as_str()) || !rs256_verify(
        key.n.as_str(),
        key.e.as_str(),
        parts.message.as_str(),
        parts.signature.as_str(),
    ) {
        return Err(AuthError::BadSignature);
    }
    let claims = match decode_part(parts.claims.as_str()) {
        Some(claims) => claims,
        None => { return Err(AuthError::MalformedToken); },
    };
    match validate_claims(&claims, config, now) {
        Ok(user) => Ok(user),
        Err(reason) => Err(AuthError::ClaimRejected { reason }),
    }
}

/// Verifies a bearer token at time `now` against the key set that was
/// resolved for the configured issuer; `keys` is `None` when the set could not
/// be had. Yields the token's subject, or the first check that failed.
pub fn verify(token: &str, keys: Option<&KeySet>, config: &Config, now: u64) -> (outcome: Result<
    CurrentUser,
    AuthError,
>)
    ensures
        agrees(
            outcome,
            verification(
                token@,
                match keys {
                    Some(keys) => Some(keys@),
                    None => None,
                },
                config@,
                now as nat,
            ),
        ),
{
    match OpenedToken::open(token) {
        Some(opened) => verify_opened(&opened, keys, config, now),
        None => Err(AuthError::MalformedToken),
    }
}

/// A valid token is accepted. If the header of a token names a key of the
/// current set, that key confirms the signature, the time claims hold at
/// `now`, and issuer, audience and use are the configured ones, then
/// verification succeeds and yields the token's subject.
pub proof fn law_valid_token_accepted(
    token: Seq<char>,
    keys: Seq<JwkView>,
    config: ConfigView,
    now: nat,
    key: JwkView,
    claims: Seq<MemberView>,
    subject: Seq<char>,
)
    requires
        key_id(token) is Some,
        find_key(keys, key_id(token)->0) == Some(key),
        signature_ok(token, key),
        token_claims(token) == Some(claims),
        !has_expired(time_of(claims, "exp"@), now, config.leeway),
        !lies_ahead(time_of(claims, "nbf"@), now, config.leeway),
        !lies_ahead(time_of(claims, "iat"@), now, config.leeway),
        text_of(claims, "iss"@) == Some(config.issuer()),
        text_of(claims, "client_id"@) == Some(config.client_id),
        text_of(claims, "token_use"@) == Some("access"@),
        text_of(claims, "username"@) == Some(subject),
    ensures
        verification(token, Some(keys), config, now) == Ok::<Seq<char>, AuthError>(subject),
{
}

/// A token whose key is not in the set is turned away as such. If the header
/// of a token names a key id that no key of the current set has, verification
/// fails with `UnknownKey`.
pub proof fn law_unknown_key_rejected(
    token: Seq<char>,
    keys: Seq<JwkView>,
    config: ConfigView,
    now: nat,
)
    requires
        key_id(token) is Some,
        forall|i: int| 0 <= i < keys.len() ==> (#[trigger] keys[i]).kid != key_id(token)->0,
    ensures
        verification(token, Some(keys), config, now) == Err::<Seq<char>, AuthError>(
            AuthError::UnknownKey,
        ),
{
    lemma_find_key_none(keys, key_id(token)->0);
}

/// An expired token is turned away for its expiry. If a token passes every
/// check that comes before the claims and its `exp` lies `leeway` seconds or
/// more behind `now`, verification fails with `ClaimRejected`.
pub proof fn law_expired_token_rejected(
    token: Seq<char>,
    keys: Seq<JwkView>,
    config: ConfigView,
    now: nat,
    exp: u64,
)
    requires
        key_id(token) is Some,
        find_key(keys, key_id(token)->0) is Some,
        signature_ok(token, find_key(keys, key_id(token)->0)->0),
        token_claims(token) is Some,
        time_of(token_claims(token)->0, "exp"@) == TimeClaim::At(exp),
        exp + config.leeway <= now,
    ensures
        verification(token, Some(keys), config, now) == Err::<Seq<char>, AuthError>(
            AuthError::ClaimRejected { reason: ClaimReason::Expiry },
        ),
{
}

/// No signature makes up for a wrong issuer. A token whose claim set does not
/// name the configured issuer is never accepted, whatever the key set holds
/// and whether or not the signature is valid.
pub proof fn law_wrong_issuer_rejected(
    token: Seq<char>,
    keys: Option<Seq<JwkView>>,
    config: ConfigView,
    now: nat,
)
    requires
        token_claims(token) matches Some(claims) ==> text_of(claims, "iss"@) != Some(
            config.issuer(),
        ),
    ensures
        verification(token, keys, config, now) is Err,
{
}

/// Nothing is accepted unchecked. A token that verification accepts names a
/// key of the resolved set, which is an RS256 key of that id and confirms the
/// signature, and the subject is the one its claims yield after every claim
/// held.
pub proof fn law_accepted_means_checked(
    token: Seq<char>,
    keys: Option<Seq<JwkView>>,
    config: ConfigView,
    now: nat,
)
    requires
        verification(token, keys, config, now) is Ok,
    ensures
        key_id(token) is Some,
        keys is Some,
        find_key(keys->0, key_id(token)->0) is Some,
        keys->0.contains(find_key(keys->0, key_id(token)->0)->0),
        find_key(keys->0, key_id(token)->0)->0.kid == key_id(token)->0,
        usable(find_key(keys->0, key_id(token)->0)->0),
        signature_ok(token, find_key(keys->0, key_id(token)->0)->0),
        token_claims(token) is Some,
        claims_outcome(token_claims(token)->0, config, now) == Ok::<Seq<char>, ClaimReason>(
            verification(token, keys, config, now)->Ok_0,
        ),
{
    lemma_find_key_some(keys->0, key_id(token)->0);
}

} // verus!
