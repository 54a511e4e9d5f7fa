//! The compact form of a signed token: its three parts, the members of its
//! header and claim set, and the check of its signature.
//!
//! Decoding and the signature check are done by the `jsonwebtokens` crate.
//! The functions that call it state what they rely on; everything else in this
//! module is proved.

use vstd::prelude::*;
use crate::text::text_eq;

verus! {

/// The parts of a token of the form `header.claims.signature`.
#[derive(Debug, Clone, PartialEq, Eq)]
pub struct TokenParts {
    /// The encoded header, without dots.
    pub header: String,
    /// The encoded claim set, between the first and the last dot.
    pub claims: String,
    /// Everything before the last dot: what the signature covers.
    pub message: String,
    /// The encoded signature, without dots.
    pub signature: String,
}

/// What `TokenParts` are, mathematically.
pub struct TokenPartsView {
    pub header: Seq<char>,
    pub claims: Seq<char>,
    pub message: Seq<char>,
    pub signature: Seq<char>,
}

impl View for TokenParts {
    type V = TokenPartsView;

    open spec fn view(&self) -> TokenPartsView {
        TokenPartsView {
            header: self.header@,
            claims: self.claims@,
            message: self.message@,
            signature: self.signature@,
        }
    }
}

/// The value of a member of a decoded JSON object, as far as tokens need it.
#[derive(Debug, Clone, PartialEq, Eq)]
pub enum JsonValue {
    /// A string.
    Text(String),
    /// A number that is a non-negative integer below 2^64.
    Unsigned(u64),
    /// Anything else.
    Other,
}

/// What a `JsonValue` is, mathematically.
pub enum JsonValueView {
    Text(Seq<char>),
    Unsigned(u64),
    Other,
}

impl View for JsonValue {
    type V = JsonValueView;

    open spec fn view(&self) -> JsonValueView {
        match *self {
            JsonValue::Text(text) => JsonValueView::Text(text@),
            JsonValue::Unsigned(number) => JsonValueView::Unsigned(number),
            JsonValue::Other => JsonValueView::Other,
        }
    }
}

/// A named member of a decoded JSON object.
#[derive(Debug, Clone, PartialEq, Eq)]
pub struct Member {
    pub name: String,
    pub value: JsonValue,
}

/// What a `Member` is, mathematically.
pub struct MemberView {
    pub name: Seq<char>,
    pub value: JsonValueView,
}

impl View for Member {
    type V = MemberView;

    open spec fn view(&self) -> MemberView {
        MemberView { name: self.name@, value: self.value@ }
    }
}

/// The views of a list of members, in order.
pub open spec fn member_views(members: Seq<Member>) -> Seq<MemberView> {
    members.map_values(|member: Member| member@)
}

/// A time claim: absent, present but not a whole number of seconds, or a
/// number of seconds since the epoch.
#[derive(Debug, Clone, Copy, PartialEq, Eq, Structural)]
pub enum TimeClaim {
    Absent,
    Invalid,
    At(u64),
}

/// Index of the first dot in `text`, or its length when it has none.
pub open spec fn first_dot(text: Seq<char>) -> int
    decreases text.len(),
{
    if text.len() == 0 {
        0
    } else if text[0] == '.' {
        0
    } else {
        1 + first_dot(text.drop_first())
    }
}

/// Index of the last dot in `text`, or -1 when it has none.
pub open spec fn last_dot(text: Seq<char>) -> int
    decreases text.len(),
{
    if text.len() == 0 {
        -1
    } else if text.last() == '.' {
        text.len() - 1
    } else {
        last_dot(text.drop_last())
    }
}

/// The parts of a token: split at its last dot into message and signature,
/// and the message at its first dot into header and claims. A token with
/// fewer than two dots has no parts.
pub open spec fn token_parts(token: Seq<char>) -> Option<TokenPartsView> {
    let first = first_dot(token);
    let last = last_dot(token);
    if first < last {
        Some(
            TokenPartsView {
                header: token.subrange(0, first),
                claims: token.subrange(first + 1, last),
                message: token.subrange(0, last),
                signature: token.subrange(last + 1, token.len() as int),
            },
        )
    } else {
        None
    }
}

/// The members of the JSON object that an encoded token part holds, in the
/// order `serde_json` keeps them, or `None` when the part is not the unpadded
/// URL-safe base64 of a JSON object.
pub uninterp spec fn json_members(part: Seq<char>) -> Option<Seq<MemberView>>;

/// Whether `jsonwebtokens` accepts `signature` as the RS256 signature of
/// `message` under the RSA public key with modulus `n` and exponent `e`. The
/// modulus, the exponent and the signature are in unpadded URL-safe base64.
pub uninterp spec fn rs256_valid(
    n: Seq<char>,
    e: Seq<char>,
    message: Seq<char>,
    signature: Seq<char>,
) -> bool;

/// The view of parts that may be missing.
pub open spec fn parts_view(parts: Option<TokenParts>) -> Option<TokenPartsView> {
    match parts {
        Some(parts) => Some(parts@),
        None => None,
    }
}

/// The view of members that may be missing.
pub open spec fn members_view(members: Option<Vec<Member>>) -> Option<Seq<MemberView>> {
    match members {
        Some(members) => Some(member_views(members@)),
        None => None,
    }
}

/// Calls `jsonwebtokens::raw::split_token`. Trusted: it splits at the last
/// dot, then splits what precedes that dot at its first dot, and fails when
/// either dot is missing.
#[verifier::external_body]
pub(crate) fn split_token(token: &str) -> (parts: Option<TokenParts>)
    ensures
        parts_view(parts) == token_parts(token@),
{
    match jsonwebtokens::raw::split_token(token) {
        Ok(slices) => Some(
            TokenParts {
                header: slices.header.to_owned(),
                claims: slices.claims.to_owned(),
                message: slices.message.to_owned(),
                signature: slices.signature.to_owned(),
            },
        ),
        Err(_) => None,
    }
}

/// Calls `jsonwebtokens::raw::decode_json_token_slice` and hands out the
/// members of the object it decoded, each string as `Text`, each number that
/// `serde_json` reads as a `u64` as `Unsigned`, every other value as `Other`.
/// Trusted: the outcome depends on `part` alone.
#[verifier::external_body]
pub(crate) fn decode_part(part: &str) -> (members: Option<Vec<Member>>)
    ensures
        members_view(members) == json_members(part@),
{
    let decoded = jsonwebtokens::raw::decode_json_token_slice(part).ok()?;
    let mut members = Vec::new();
    for (name, value) in decoded.as_object()? {
        let value = match value {
            serde_json::Value::String(text) => JsonValue::Text(text.clone()),
            serde_json::Value::Number(number) => match number.as_u64() {
                Some(unsigned) => JsonValue::Unsigned(unsigned),
                None => JsonValue::Other,
            },
            _ => JsonValue::Other,
        };
        members.push(Member { name: name.clone(), value });
    }
    Some(members)
}

/// Calls `jsonwebtokens::Algorithm::verify` on an RS256 verifier built by
/// `Algorithm::new_rsa_n_e_b64_verifier`. Trusted: the outcome depends on the
/// four arguments alone; key material that cannot be decoded counts as an
/// invalid signature.
#[verifier::external_body]
pub(crate) fn rs256_verify(n: &str, e: &str, message: &str, signature: &str) -> (valid: bool)
    ensures
        valid == rs256_valid(n@, e@, message@, signature@),
{
    let id = jsonwebtokens::AlgorithmID::RS256;
    match jsonwebtokens::Algorithm::new_rsa_n_e_b64_verifier(id, n, e) {
        Ok(algorithm) => algorithm.verify(None, message, signature).is_ok(),
        Err(_) => false,
    }
}

/// The value of the first member called `name`.
pub open spec fn find_member(members: Seq<MemberView>, name: Seq<char>) -> Option<JsonValueView>
    decreases members.len(),
{
    if members.len() == 0 {
        None
    } else if members[0].name == name {
        Some(members[0].value)
    } else {
        find_member(members.drop_first(), name)
    }
}

/// The string that the member called `name` holds, if there is such a member
/// and it holds a string.
pub open spec fn text_of(members: Seq<MemberView>, name: Seq<char>) -> Option<Seq<char>> {
    match find_member(members, name) {
        Some(JsonValueView::Text(text)) => Some(text),
        _ => None,
    }
}

/// The time that the member called `name` holds.
pub open spec fn time_of(members: Seq<MemberView>, name: Seq<char>) -> TimeClaim {
    match find_member(members, name) {
        None => TimeClaim::Absent,
        Some(JsonValueView::Unsigned(seconds)) => TimeClaim::At(seconds),
        Some(_) => TimeClaim::Invalid,
    }
}

/// Finds the first member called `name`.
pub fn member<'a>(members: &'a Vec<Member>, name: &str) -> (found: Option<&'a JsonValue>)
    ensures
        match found {
            Some(value) => find_member(member_views(members@), name@) == Some(value@),
            None => find_member(member_views(members@), name@) is None,
        },
{
    let ghost all = member_views(members@);
    assert(all.subrange(0, all.len() as int) == all);
    let mut i: usize = 0;
    while i < members.len()
        invariant
            i <= members@.len(),
            all == member_views(members@),
            find_member(all, name@) == find_member(all.subrange(i as int, all.len() as int), name@),
        decreases members@.len() - i,
    {
        let ghost rest = all.subrange(i as int, all.len() as int);
        assert(rest[0] == members@[i as int]@);
        assert(rest.drop_first() == all.subrange(i + 1, all.len() as int));
        if text_eq(members[i].name.as_str(), name) {
            return Some(&members[i].value);
        }
        i = i + 1;
    }
    None
}

/// The string that the member called `name` holds.
pub fn text_member<'a>(members: &'a Vec<Member>, name: &str) -> (text: Option<&'a String>)
    ensures
        match text {
            Some(text) => text_of(member_views(members@), name@) == Some(text@),
            None => text_of(member_views(members@), name@) is None,
        },
{
    match member(members, name) {
        Some(JsonValue::Text(text)) => Some(text),
        _ => None,
    }
}

/// The time that the member called `name` holds.
pub fn time_member(members: &Vec<Member>, name: &str) -> (time: TimeClaim)
    ensures
        time == time_of(member_views(members@), name@),
{
    match member(members, name) {
        None => TimeClaim::Absent,
        Some(JsonValue::Unsigned(seconds)) => TimeClaim::At(*seconds),
        Some(_) => TimeClaim::Invalid,
    }
}

} // verus!
