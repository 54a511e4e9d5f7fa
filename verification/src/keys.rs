//! The issuer's published signing keys, and the cache that holds the set most
//! recently fetched.

use vstd::prelude::*;
use crate::text::text_eq;

verus! {

/// One public signing key as the issuer publishes it. The modulus `n` and the
/// exponent `e` are in unpadded URL-safe base64.
#[derive(Debug, Clone, PartialEq, Eq)]
pub struct Jwk {
    pub kid: String,
    pub alg: String,
    pub kty: String,
    pub n: String,
    pub e: String,
}

/// What a `Jwk` is, mathematically.
pub struct JwkView {
    pub kid: Seq<char>,
    pub alg: Seq<char>,
    pub kty: Seq<char>,
    pub n: Seq<char>,
    pub e: Seq<char>,
}

impl View for Jwk {
    type V = JwkView;

    open spec fn view(&self) -> JwkView {
        JwkView { kid: self.kid@, alg: self.alg@, kty: self.kty@, n: self.n@, e: self.e@ }
    }
}

/// The views of a list of keys, in order.
pub open spec fn jwk_views(keys: Seq<Jwk>) -> Seq<JwkView> {
    keys.map_values(|key: Jwk| key@)
}

/// Whether tokens are checked against this key: only RS256 keys are.
pub open spec fn usable(key: JwkView) -> bool {
    key.alg == "RS256"@
}

/// The key that tokens naming `kid` are checked against: the last usable key
/// of that id in the set.
pub open spec fn find_key(keys: Seq<JwkView>, kid: Seq<char>) -> Option<JwkView>
    decreases keys.len(),
{
    if keys.len() == 0 {
        None
    } else if keys.last().kid == kid && usable(keys.last()) {
        Some(keys.last())
    } else {
        find_key(keys.drop_last(), kid)
    }
}

/// A key that `find_key` returns is a usable key of the set with the id that
/// was asked for.
pub proof fn lemma_find_key_some(keys: Seq<JwkView>, kid: Seq<char>)
    requires
        find_key(keys, kid) is Some,
    ensures
        keys.contains(find_key(keys, kid)->0),
        find_key(keys, kid)->0.kid == kid,
        usable(find_key(keys, kid)->0),
    decreases keys.len(),
{
    if keys.last().kid == kid && usable(keys.last()) {
        assert(keys[keys.len() - 1] == keys.last());
    } else {
        lemma_find_key_some(keys.drop_last(), kid);
        let found = find_key(keys.drop_last(), kid)->0;
        let i = choose|i: int| 0 <= i < keys.drop_last().len() && keys.drop_last()[i] == found;
        assert(keys[i] == found);
    }
}

/// `find_key` returns nothing exactly when the set holds no usable key of
/// that id.
pub proof fn lemma_find_key_none(keys: Seq<JwkView>, kid: Seq<char>)
    ensures
        find_key(keys, kid) is None <==> forall|i: int|
            0 <= i < keys.len() ==> !(#[trigger] keys[i].kid == kid && usable(keys[i])),
    decreases keys.len(),
{
    if keys.len() > 0 {
        lemma_find_key_none(keys.drop_last(), kid);
        if keys.last().kid == kid && usable(keys.last()) {
            assert(keys[keys.len() - 1].kid == kid);
        } else if find_key(keys.drop_last(), kid) is None {
            assert forall|i: int| 0 <= i < keys.len() implies !(#[trigger] keys[i].kid == kid
                && usable(keys[i])) by {
                if i < keys.len() - 1 {
                    assert(keys.drop_last()[i] == keys[i]);
                }
            }
        } else {
            let i = choose|i: int|
                0 <= i < keys.drop_last().len() && #[trigger] keys.drop_last()[i].kid == kid
                    && usable(keys.drop_last()[i]);
            assert(keys[i] == keys.drop_last()[i]);
        }
    }
}

/// An issuer's keys, in the order they were published.
#[derive(Debug, Clone, PartialEq, Eq)]
pub struct KeySet {
    keys: Vec<Jwk>,
}

impl View for KeySet {
    type V = Seq<JwkView>;

    closed spec fn view(&self) -> Seq<JwkView> {
        jwk_views(self.keys@)
    }
}

impl KeySet {
    /// The set of the given keys.
    pub fn new(keys: Vec<Jwk>) -> (set: KeySet)
        ensures
            set@ == jwk_views(keys@),
    {
        KeySet { keys }
    }

    /// How many keys the set holds.
    pub fn len(&self) -> (count: usize)
        ensures
            count == self@.len(),
    {
        self.keys.len()
    }

    /// The key that tokens naming `kid` are checked against.
    pub fn find(&self, kid: &str) -> (found: Option<&Jwk>)
        ensures
            match found {
                Some(key) => find_key(self@, kid@) == Some(key@),
                None => find_key(self@, kid@) is None,
            },
    {
        let ghost all = self@;
        assert(all.subrange(0, all.len() as int) == all);
        let mut i: usize = self.keys.len();
        while i > 0
            invariant
                i <= self.keys@.len(),
                all == jwk_views(self.keys@),
                find_key(all, kid@) == find_key(all.subrange(0, i as int), kid@),
            decreases i,
        {
            let ghost head = all.subrange(0, i as int);
            assert(head.last() == self.keys@[i - 1]@);
            assert(head.drop_last() == all.subrange(0, i - 1));
            i = i - 1;
            let key = &self.keys[i];
            if text_eq(key.kid.as_str(), kid) && text_eq(key.alg.as_str(), "RS256") {
                return Some(key);
            }
        }
        None
    }
}

/// The key set most recently fetched, when it was fetched, and for how long a
/// fetched set is used. Without a time to live a set is used for as long as
/// the cache exists.
#[derive(Debug, Clone, PartialEq, Eq)]
pub struct KeyCache {
    keys: Option<KeySet>,
    fetched_at: u64,
    ttl: Option<u64>,
}

/// What a `KeyCache` is, mathematically.
pub struct KeyCacheView {
    pub keys: Option<Seq<JwkView>>,
    pub fetched_at: nat,
    pub ttl: Option<nat>,
}

impl KeyCacheView {
    /// Whether a set fetched at `fetched_at` has outlived the time to live.
    pub open spec fn expired(self, now: nat) -> bool {
        match self.ttl {
            Some(ttl) => now >= self.fetched_at + ttl,
            None => false,
        }
    }

    /// The set that verification uses at time `now`: the cached one if there
    /// is one and it has not expired.
    pub open spec fn current(self, now: nat) -> Option<Seq<JwkView>> {
        if self.expired(now) {
            None
        } else {
            self.keys
        }
    }
}

impl View for KeyCache {
    type V = KeyCacheView;

    closed spec fn view(&self) -> KeyCacheView {
        KeyCacheView {
            keys: match self.keys {
                Some(keys) => Some(keys@),
                None => None,
            },
            fetched_at: self.fetched_at as nat,
            ttl: match self.ttl {
                Some(ttl) => Some(ttl as nat),
                None => None,
            },
        }
    }
}

impl KeyCache {
    /// An empty cache. `ttl` is the number of seconds a fetched set is used
    /// for; `None` keeps it for good.
    pub fn new(ttl: Option<u64>) -> (cache: KeyCache)
        ensures
            cache@ == (KeyCacheView {
                keys: None,
                fetched_at: 0,
                ttl: match ttl {
                    Some(ttl) => Some(ttl as nat),
                    None => None,
                },
            }),
    {
        KeyCache { keys: None, fetched_at: 0, ttl }
    }

    /// The set to verify against at time `now`, if the cache holds one that
    /// has not expired.
    pub fn current(&self, now: u64) -> (keys: Option<&KeySet>)
        ensures
            match keys {
                Some(keys) => self@.current(now as nat) == Some(keys@),
                None => self@.current(now as nat) is None,
            },
    {
        let expired = match self.ttl {
            Some(ttl) => now as u128 >= self.fetched_at as u128 + ttl as u128,
            None => false,
        };
        if expired {
            None
        } else {
            self.keys.as_ref()
        }
    }

    /// Replaces whatever the cache held by a set fetched at time `now`. The
    /// set is installed whole.
    pub fn install(&mut self, keys: KeySet, now: u64)
        ensures
            final(self)@ == (KeyCacheView {
                keys: Some(keys@),
                fetched_at: now as nat,
                ..old(self)@
            }),
    {
        self.keys = Some(keys);
        self.fetched_at = now;
    }
}

} // verus!
