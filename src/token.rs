//! The cache of the signed authentication token.
//!
//! A token is reused while it is younger than [`VALIDITY_MARGIN`] seconds,
//! sixty seconds under the gateway's one-hour token lifetime; past that a
//! new token is signed and replaces the cached one as a whole.
use vstd::prelude::*;

verus! {

/// How long, in seconds, a signed token is reused after it was issued.
pub const VALIDITY_MARGIN: i64 = 3540;

/// A signed token together with the unix time at which it was issued.
pub struct CachedToken {
    pub token: String,
    pub cached_at: i64,
}

/// A token issued at `issued_at` may still be reused at time `now`.
pub open spec fn is_fresh(issued_at: int, now: int) -> bool {
    now - issued_at < VALIDITY_MARGIN
}

/// The contents of a cache slot, as issue time and token text.
pub open spec fn slot_view(cached: Option<CachedToken>) -> Option<(int, Seq<char>)> {
    match cached {
        Some(c) => Some((c.cached_at as int, c.token@)),
        None => None,
    }
}

/// A call at time `now` must sign a new token: nothing is cached, or the
/// cached token is too old.
pub open spec fn needs_signing(slot: Option<(int, Seq<char>)>, now: int) -> bool {
    match slot {
        None => true,
        Some((issued_at, _)) => !is_fresh(issued_at, now),
    }
}

/// The token that a call at time `now` hands out, where `signed` is what the
/// signer produces at that moment.
pub open spec fn token_after(slot: Option<(int, Seq<char>)>, now: int, signed: Seq<char>) -> Seq<char> {
    match slot {
        Some((_, token)) if !needs_signing(slot, now) => token,
        _ => signed,
    }
}

/// What the cache holds after a call at time `now`, where `signed` is what
/// the signer produces at that moment.
pub open spec fn cache_after(slot: Option<(int, Seq<char>)>, now: int, signed: Seq<char>) -> Option<(int, Seq<char>)> {
    if needs_signing(slot, now) {
        Some((now, signed))
    } else {
        slot
    }
}

/// The cached token, where it may still be reused at time `now`.
pub fn reusable_token(cached: &Option<CachedToken>, now: i64) -> (r: Option<String>)
    ensures
        r is None <==> needs_signing(slot_view(*cached), now as int),
        r matches Some(t) ==> t@ == cached->0.token@,
{
    match cached {
        Some(c) => {
            let age: i128 = now as i128 - c.cached_at as i128;
            if age < VALIDITY_MARGIN as i128 {
                Some(c.token.clone())
            } else {
                None
            }
        },
        None => None,
    }
}

/// Two calls less than [`VALIDITY_MARGIN`] seconds apart sign at most once
/// between them, and where the second does not sign it hands out the very
/// token that the first handed out.
pub proof fn lemma_token_reuse(
    slot: Option<(int, Seq<char>)>,
    first: int,
    second: int,
    signed_first: Seq<char>,
    signed_second: Seq<char>,
)
    requires
        second - first < VALIDITY_MARGIN,
    ensures
        !(needs_signing(slot, first) && needs_signing(cache_after(slot, first, signed_first), second)),
        !needs_signing(cache_after(slot, first, signed_first), second) ==> token_after(
            cache_after(slot, first, signed_first),
            second,
            signed_second,
        ) == token_after(slot, first, signed_first),
{
}

/// Once the cached token is older than [`VALIDITY_MARGIN`] seconds, the next
/// call signs a new token and caches it with a strictly later issue time.
pub proof fn lemma_token_regeneration(issued_at: int, token: Seq<char>, now: int, signed: Seq<char>)
    requires
        now - issued_at > VALIDITY_MARGIN,
    ensures
        needs_signing(Some((issued_at, token)), now),
        cache_after(Some((issued_at, token)), now, signed) == Some((now, signed)),
        cache_after(Some((issued_at, token)), now, signed) matches Some((later, _)) && later > issued_at,
{
}

} // verus!
