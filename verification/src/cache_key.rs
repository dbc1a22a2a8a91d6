//! Names of the cache entries that hold short links.
use vstd::prelude::*;
use vstd::string::*;

verus! {

/// Prefix of every cache key that belongs to a short link, so that these
/// keys do not collide with other entries of the cache.
pub const URL_KEY_PREFIX: &'static str = "url:";

/// How long a cached short link lives, in seconds (one hour).
pub const URL_CACHE_TTL: u64 = 3600;

/// The characters of the key prefix.
pub open spec fn url_key_prefix() -> Seq<char> {
    seq!['u', 'r', 'l', ':']
}

/// The cache key of a short code: the prefix followed by the code.
pub open spec fn url_key(short_code: Seq<char>) -> Seq<char> {
    url_key_prefix() + short_code
}

/// Builds the complete key `url:{short_code}`.
pub fn format_url_key(short_code: &str) -> (key: String)
    ensures
        key@ == url_key(short_code@),
{
    proof {
        reveal_strlit("url:");
    }
    assert(URL_KEY_PREFIX@ =~= url_key_prefix());
    String::from_str(URL_KEY_PREFIX).concat(short_code)
}

/// Two short codes share a cache key only when they are the same code, so
/// the cache never serves one link's entry for another.
pub proof fn lemma_url_key_injective(a: Seq<char>, b: Seq<char>)
    ensures
        url_key(a) == url_key(b) <==> a == b,
{
    if url_key(a) == url_key(b) {
        let n = url_key_prefix().len() as int;
        assert(url_key(a).subrange(n, url_key(a).len() as int) =~= a);
        assert(url_key(b).subrange(n, url_key(b).len() as int) =~= b);
    }
}

/// Every key starts with the prefix and then holds the code unchanged.
pub proof fn lemma_url_key_shape(short_code: Seq<char>)
    ensures
        url_key(short_code).len() == short_code.len() + 4,
        url_key(short_code).take(4) == url_key_prefix(),
        url_key(short_code).skip(4) == short_code,
{
    assert(url_key(short_code).take(4) =~= url_key_prefix());
    assert(url_key(short_code).skip(4) =~= short_code);
}

/// The expiry, in seconds, that reading an entry sets on it: a hit lives
/// for another `ttl_seconds` (as the signed count that the cache takes), a
/// miss sets none.
pub fn expiry_after_read(hit: bool, ttl_seconds: u64) -> (expire: Option<i64>)
    ensures
        hit ==> expire == Some(ttl_seconds as i64),
        !hit ==> expire is None,
{
    if hit {
        Some(ttl_seconds as i64)
    } else {
        None
    }
}

} // verus!
