//! Cache of access tokens (as for WeCom's corporate application API), keyed by
//! `corp_id:corp_secret`, each valid until a monotonic time in seconds.
use vstd::prelude::*;
use crate::text::{append_str, chars_of, string_of};
use crate::text_map::TextMap;

verus! {

/// A cached token.
#[derive(Debug, Clone)]
pub struct TokenCacheEntry {
    pub access_token: String,
    /// Monotonic time (seconds) from which the token is no longer used.
    pub expires_at: u64,
}

/// Tokens by credential key.
pub struct TokenCache {
    entries: TextMap<TokenCacheEntry>,
}

/// Key of a credential pair: `corp_id:corp_secret`.
pub open spec fn cache_key(corp_id: Seq<char>, corp_secret: Seq<char>) -> Seq<char> {
    corp_id.push(':') + corp_secret
}

/// Builds `cache_key`.
pub fn token_cache_key(corp_id: &str, corp_secret: &str) -> (r: String)
    ensures r@ == cache_key(corp_id@, corp_secret@),
{
    let mut v = chars_of(corp_id);
    v.push(':');
    append_str(&mut v, corp_secret);
    string_of(v.as_slice())
}

/// Seconds a fetched token is used: its lifetime (7200 where unknown) less a 300-second
/// margin, and at least 60.
pub open spec fn token_lifetime(expires_in: Option<u64>) -> nat {
    let base: int = match expires_in { Some(v) => v as int, None => 7200 };
    let less: int = if base >= 300 { base - 300 } else { 0 };
    if less >= 60 { less as nat } else { 60 }
}

/// Computes `token_lifetime`.
pub fn token_lifetime_secs(expires_in: Option<u64>) -> (r: u64)
    ensures r == token_lifetime(expires_in),
{
    let base = match expires_in { Some(v) => v, None => 7200 };
    let less = if base >= 300 { base - 300 } else { 0 };
    if less >= 60 { less } else { 60 }
}

impl TokenCache {
    /// The map is well formed.
    pub closed spec fn wf(&self) -> bool {
        self.entries.wf()
    }

    /// Tokens by key.
    pub closed spec fn tokens(&self) -> Map<Seq<char>, TokenCacheEntry> {
        self.entries@
    }

    /// The token cached under `key` that is still valid at `now`.
    pub open spec fn valid_token(&self, key: Seq<char>, now: u64) -> Option<Seq<char>> {
        if self.tokens().contains_key(key) && self.tokens()[key].expires_at > now {
            Some(self.tokens()[key].access_token@)
        } else {
            None
        }
    }

    /// An empty cache.
    pub fn new() -> (r: Self)
        ensures r.wf(), r.tokens() == Map::<Seq<char>, TokenCacheEntry>::empty(),
    {
        TokenCache { entries: TextMap::new() }
    }

    /// The token cached under `key`, where it is still valid at `now`.
    pub fn get_valid(&self, key: &str, now: u64) -> (r: Option<String>)
        requires self.wf(),
        ensures
            match r {
                Some(t) => self.valid_token(key@, now) == Some(t@),
                None => self.valid_token(key@, now) is None,
            },
    {
        match self.entries.get(key) {
            Some(e) => if e.expires_at > now { Some(e.access_token.clone()) } else { None },
            None => None,
        }
    }

    /// The entry cached under `key`, whatever its age.
    pub fn get_entry(&self, key: &str) -> (r: Option<&TokenCacheEntry>)
        requires self.wf(),
        ensures
            match r {
                Some(e) => self.tokens().contains_key(key@) && *e == self.tokens()[key@],
                None => !self.tokens().contains_key(key@),
            },
    {
        self.entries.get(key)
    }

    /// Caches `token` under `key` until `expires_at`.
    pub fn insert(&mut self, key: String, token: String, expires_at: u64)
        requires old(self).wf(),
        ensures
            final(self).wf(),
            final(self).tokens() == old(self).tokens().insert(key@, TokenCacheEntry { access_token: token, expires_at }),
    {
        self.entries.insert(key, TokenCacheEntry { access_token: token, expires_at });
    }

    /// Caches a freshly fetched token under `key`, valid for its lifetime from `now`.
    pub fn store_fetched(&mut self, key: String, token: String, expires_in: Option<u64>, now: u64) -> (expires_at: u64)
        requires
            old(self).wf(),
            now + token_lifetime(expires_in) <= u64::MAX,
        ensures
            final(self).wf(),
            expires_at == now + token_lifetime(expires_in),
            final(self).tokens() == old(self).tokens().insert(key@, TokenCacheEntry { access_token: token, expires_at }),
    {
        let exp = now + token_lifetime_secs(expires_in);
        self.insert(key, token, exp);
        exp
    }
}

/// What is cached is read back: after `key` was given `token` until `expires_at`, a
/// read of `key` at `now` gives that token exactly while `now` is before `expires_at`,
/// and reads of other keys are as before.
pub proof fn law_token_read_after_write(
    before: TokenCache,
    after: TokenCache,
    key: Seq<char>,
    token: String,
    expires_at: u64,
    now: u64,
)
    requires
        after.tokens() == before.tokens().insert(key, TokenCacheEntry { access_token: token, expires_at }),
    ensures
        after.valid_token(key, now) == if now < expires_at { Some(token@) } else { None::<Seq<char>> },
        forall|k: Seq<char>| k != key ==> #[trigger] after.valid_token(k, now) == before.valid_token(k, now),
{
}

} // verus!
