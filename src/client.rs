//! The push client: one signing identity, one endpoint choice and one token
//! cache, and the steps of a delivery up to and after the transport.
use vstd::prelude::*;

use crate::error::SendError;
use crate::request::{
    body_of, encodable, encode_notification, device_url, header_pairs, request_headers, url_of,
    Notification, PushRequest,
};
use crate::response::classify;
use crate::signer::{p256_pkcs8_ok, sign_token, signed_token_for, signing_key, MAX_ISSUE_TIME};
use crate::token::{
    cache_after, needs_signing, reusable_token, slot_view, token_after, CachedToken,
};

verus! {

/// A reading of the system clock.
#[verifier::external_type_specification]
#[verifier::external_body]
pub struct ExSystemTime(std::time::SystemTime);

/// Relies on std's `SystemTime::now`: the clock's reading, which depends on
/// the moment, so nothing is stated of it.
pub assume_specification[ std::time::SystemTime::now ]() -> std::time::SystemTime;

/// Relies on std's `Duration::as_secs`: the whole seconds of a duration,
/// which is opaque here, so nothing is stated of them.
pub assume_specification[ std::time::Duration::as_secs ](d: &std::time::Duration) -> u64;

/// Relies on std's `SystemTime::duration_since` against `UNIX_EPOCH`: the
/// time since the epoch, or nothing where `t` stands before it.
#[verifier::external_body]
fn since_epoch(t: &std::time::SystemTime) -> (r: Option<std::time::Duration>) {
    t.duration_since(std::time::UNIX_EPOCH).ok()
}

/// Relies on uuid's `Uuid::new_v4`: a random identifier, of which nothing is
/// stated.
#[verifier::external_body]
fn random_id() -> (r: u128) {
    uuid::Uuid::new_v4().as_u128()
}

/// Seconds since the epoch from a clock reading, or a clock error where
/// there is none or it does not fit an `i64`.
pub fn clock_seconds(reading: Option<u64>) -> (r: Result<i64, SendError>)
    ensures
        match reading {
            Some(s) if s <= i64::MAX => r == Ok::<i64, SendError>(s as i64),
            _ => r matches Err(e) && e is Clock,
        },
{
    match reading {
        Some(s) => {
            if s <= i64::MAX as u64 {
                Ok(s as i64)
            } else {
                Err(SendError::Clock)
            }
        },
        None => Err(SendError::Clock),
    }
}

/// The current unix time in seconds, or a clock error.
pub fn current_time() -> (r: Result<i64, SendError>)
    ensures
        r matches Err(e) ==> e is Clock,
        r matches Ok(t) ==> t >= 0,
{
    let reading = match since_epoch(&std::time::SystemTime::now()) {
        Some(d) => Some(d.as_secs()),
        None => None,
    };
    clock_seconds(reading)
}

/// A freshly generated random notification identifier.
pub fn new_notification_id() -> u128 {
    random_id()
}

/// The identifier a notification goes out under: its own, else `generated`.
pub open spec fn resolved_id(id: Option<u128>, generated: u128) -> u128 {
    match id {
        Some(x) => x,
        None => generated,
    }
}

/// The identifier a notification goes out under: its own, else `generated`.
pub fn resolve_id(id: Option<u128>, generated: u128) -> (r: u128)
    ensures
        r == resolved_id(id, generated),
{
    match id {
        Some(x) => x,
        None => generated,
    }
}

/// `req` is the request for `n` signed with `token` under `id` and sent to
/// the gateway that `production` selects.
pub open spec fn request_for(
    req: PushRequest,
    n: Notification,
    token: Seq<char>,
    id: u128,
    production: bool,
) -> bool {
    &&& req.url@ == url_of(production, n.device_token@)
    &&& header_pairs(req.headers@) == request_headers(n, token, id)
    &&& req.body@ == body_of(n.payload@)
}

/// `token` is what a call at `now` hands out and leaves cached, taking the
/// cache from `before` to `after`.
pub open spec fn token_used(
    token: Seq<char>,
    before: Option<(int, Seq<char>)>,
    after: Option<(int, Seq<char>)>,
    now: int,
) -> bool {
    &&& token == token_after(before, now, token)
    &&& after == cache_after(before, now, token)
}

/// `req` is the request for `n` signed with `token` under `id`, which can be
/// encoded, where `token` is what a call at `now` hands out and leaves
/// cached, taking the cache from `before` to `after`.
pub open spec fn prepared(
    req: PushRequest,
    n: Notification,
    token: Seq<char>,
    id: u128,
    production: bool,
    before: Option<(int, Seq<char>)>,
    after: Option<(int, Seq<char>)>,
    now: int,
) -> bool {
    &&& request_for(req, n, token, id, production)
    &&& encodable(n, token, id)
    &&& token_used(token, before, after, now)
}

/// A client for the push gateway.
pub struct ApplePushClient {
    /// Whether requests go to the production gateway or the sandbox.
    pub production: bool,
    /// The team identifier, the issuer of every token.
    pub team_id: String,
    /// The identifier of the signing key.
    pub jwt_kid: String,
    /// The key every token is signed with.
    pub jwt_key: biscuit::jws::Secret,
    /// The most recently signed token, if any.
    pub jwt: Option<CachedToken>,
}

impl ApplePushClient {
    /// A client for the production gateway that signs with the PKCS#8 P-256
    /// key `jwt_key`; a configuration error where the key is not one.
    pub fn new(team_id: &str, jwt_kid: &str, jwt_key: &[u8]) -> (r: Result<Self, SendError>)
        ensures
            r matches Ok(c) ==> {
                &&& c.production
                &&& c.team_id@ == team_id@
                &&& c.jwt_kid@ == jwt_kid@
                &&& c.jwt is None
            },
            r matches Err(e) ==> e is Configuration,
            !p256_pkcs8_ok(jwt_key@) ==> (r matches Err(e) && e is Configuration),
    {
        let key = signing_key(jwt_key)?;
        Ok(ApplePushClient {
            production: true,
            team_id: String::from_str(team_id),
            jwt_kid: String::from_str(jwt_kid),
            jwt_key: key,
            jwt: None,
        })
    }

    /// Selects the production gateway or the development sandbox for the
    /// next request. The cached token stays.
    pub fn set_production(&mut self, production: bool)
        ensures
            final(self).production == production,
            final(self).team_id == old(self).team_id,
            final(self).jwt_kid == old(self).jwt_kid,
            final(self).jwt_key == old(self).jwt_key,
            final(self).jwt == old(self).jwt,
    {
        self.production = production;
    }

    /// The URL that a notification for `device_token` goes to.
    pub fn build_url(&self, device_token: &str) -> (r: String)
        ensures
            r@ == url_of(self.production, device_token@),
    {
        device_url(self.production, device_token)
    }

    /// The cached token, where it may still be used at time `now`.
    pub fn cached_token_at(&self, now: i64) -> (r: Option<String>)
        ensures
            r is None <==> needs_signing(slot_view(self.jwt), now as int),
            r matches Some(t) ==> t@ == self.jwt->0.token@,
    {
        reusable_token(&self.jwt, now)
    }

    /// A new token signed with this client's key and identity, issued at
    /// `now`. The cache is left as it is.
    pub fn sign_token_at(&self, now: i64) -> (r: Result<String, SendError>)
        ensures
            !(0 <= now <= MAX_ISSUE_TIME) ==> (r matches Err(e) && e is Clock),
            r matches Err(e) ==> (e is Clock || e is Configuration),
            r matches Ok(t) ==> signed_token_for(t@, self.jwt_kid@, self.team_id@, now as int),
    {
        sign_token(&self.jwt_key, self.team_id.as_str(), self.jwt_kid.as_str(), now)
    }

    /// Replaces the cached token, as a whole, by `token` issued at `now`.
    pub fn store_token(&mut self, token: String, now: i64)
        ensures
            slot_view(final(self).jwt) == Some((now as int, token@)),
            final(self).production == old(self).production,
            final(self).team_id == old(self).team_id,
            final(self).jwt_kid == old(self).jwt_kid,
            final(self).jwt_key == old(self).jwt_key,
    {
        self.jwt = Some(CachedToken { token, cached_at: now });
    }

    /// The token for a request at time `now`: the cached one while it is
    /// fresh, else a newly signed one, which then replaces it in the cache.
    /// Where signing fails, nothing changes.
    pub fn generate_jwt_at(&mut self, now: i64) -> (r: Result<String, SendError>)
        ensures
            !needs_signing(slot_view(old(self).jwt), now as int) ==> {
                &&& r matches Ok(t) && t@ == old(self).jwt->0.token@
                &&& *final(self) == *old(self)
            },
            r matches Ok(t) ==> {
                &&& t@ == token_after(slot_view(old(self).jwt), now as int, t@)
                &&& slot_view(final(self).jwt) == cache_after(
                    slot_view(old(self).jwt),
                    now as int,
                    t@,
                )
            },
            r matches Err(e) ==> {
                &&& *final(self) == *old(self)
                &&& (e is Clock || e is Configuration)
                &&& needs_signing(slot_view(old(self).jwt), now as int)
            },
            needs_signing(slot_view(old(self).jwt), now as int) && !(0 <= now <= MAX_ISSUE_TIME)
                ==> (r matches Err(e) && e is Clock),
            needs_signing(slot_view(old(self).jwt), now as int) ==> (r matches Ok(t)
                ==> signed_token_for(t@, old(self).jwt_kid@, old(self).team_id@, now as int)),
            final(self).production == old(self).production,
            final(self).team_id == old(self).team_id,
            final(self).jwt_kid == old(self).jwt_kid,
            final(self).jwt_key == old(self).jwt_key,
    {
        match self.cached_token_at(now) {
            Some(t) => Ok(t),
            None => {
                let t = self.sign_token_at(now)?;
                self.store_token(t.clone(), now);
                Ok(t)
            },
        }
    }

    /// The token for a request now, as [`Self::generate_jwt_at`] gives it
    /// for the clock's reading.
    pub fn generate_jwt(&mut self) -> (r: Result<String, SendError>)
        ensures
            r matches Err(e) ==> (e is Clock || e is Configuration),
            r matches Err(e) ==> *final(self) == *old(self),
            r matches Ok(t) ==> exists|now: int|
                {
                    &&& now >= 0
                    &&& t@ == token_after(slot_view(old(self).jwt), now, t@)
                    &&& #[trigger] cache_after(slot_view(old(self).jwt), now, t@) == slot_view(
                        final(self).jwt,
                    )
                },
            final(self).production == old(self).production,
            final(self).team_id == old(self).team_id,
            final(self).jwt_kid == old(self).jwt_kid,
            final(self).jwt_key == old(self).jwt_key,
    {
        let now = current_time()?;
        let r = self.generate_jwt_at(now);
        assert(r matches Ok(t) ==> cache_after(slot_view(old(self).jwt), now as int, t@) == slot_view(self.jwt));
        r
    }

    /// The request that delivers `n` at time `now`, and the identifier it
    /// goes out under: the notification's own, else `generated_id`. The
    /// token comes from [`Self::generate_jwt_at`]; where that fails, nothing
    /// is encoded.
    pub fn prepare_at(&mut self, n: &Notification, now: i64, generated_id: u128) -> (r: Result<
        (u128, PushRequest),
        SendError,
    >)
        ensures
            r matches Ok((id, req)) ==> id == resolved_id(n.id, generated_id),
            r matches Ok((id, req)) ==> header_pairs(req.headers@)[1] == (
                "apns-id"@,
                crate::request::uuid_text(id),
            ),
            r matches Ok((id, req)) ==> {
                exists|t: Seq<char>|
                    #[trigger] prepared(
                        req,
                        *n,
                        t,
                        id,
                        old(self).production,
                        slot_view(old(self).jwt),
                        slot_view(final(self).jwt),
                        now as int,
                    )
            },
            !needs_signing(slot_view(old(self).jwt), now as int) ==> (r is Ok <==> encodable(
                *n,
                old(self).jwt->0.token@,
                resolved_id(n.id, generated_id),
            )),
            r matches Err(e) ==> (e is Clock || e is Configuration || e is Encoding),
            r matches Err(e) && e is Encoding ==> exists|t: Seq<char>|
                {
                    &&& #[trigger] token_used(
                        t,
                        slot_view(old(self).jwt),
                        slot_view(final(self).jwt),
                        now as int,
                    )
                    &&& !encodable(*n, t, resolved_id(n.id, generated_id))
                },
            final(self).production == old(self).production,
            final(self).team_id == old(self).team_id,
            final(self).jwt_kid == old(self).jwt_kid,
            final(self).jwt_key == old(self).jwt_key,
    {
        let id = resolve_id(n.id, generated_id);
        let token = self.generate_jwt_at(now)?;
        let ghost before = slot_view(old(self).jwt);
        let ghost after = slot_view(self.jwt);
        assert(token_used(token@, before, after, now as int));
        let req = match encode_notification(n, token.as_str(), id, self.production) {
            Ok(req) => req,
            Err(e) => {
                return Err(e);
            },
        };
        assert(request_headers(*n, token@, id)[1] == ("apns-id"@, crate::request::uuid_text(id)));
        let r: Result<(u128, PushRequest), SendError> = Ok((id, req));
        assert(r matches Ok((i, q)) && prepared(q, *n, token@, i, self.production, before, after, now as int));
        r
    }

    /// The request that delivers `n` now, under its own identifier or a
    /// freshly generated one, as [`Self::prepare_at`] gives it.
    pub fn prepare(&mut self, n: &Notification) -> (r: Result<(u128, PushRequest), SendError>)
        ensures
            r matches Ok((id, _)) ==> (n.id matches Some(x) ==> id == x),
            r matches Ok((id, req)) ==> header_pairs(req.headers@)[1] == (
                "apns-id"@,
                crate::request::uuid_text(id),
            ),
            r matches Ok((id, req)) ==> exists|now: int, t: Seq<char>|
                #[trigger] prepared(
                    req,
                    *n,
                    t,
                    id,
                    old(self).production,
                    slot_view(old(self).jwt),
                    slot_view(final(self).jwt),
                    now,
                ),
            r matches Err(e) ==> (e is Clock || e is Configuration || e is Encoding),
            final(self).production == old(self).production,
            final(self).team_id == old(self).team_id,
            final(self).jwt_kid == old(self).jwt_kid,
            final(self).jwt_key == old(self).jwt_key,
    {
        let now = current_time()?;
        let r = self.prepare_at(n, now, new_notification_id());
        proof {
            if r is Ok {
                let (id, req) = r->Ok_0;
                let t = choose|t: Seq<char>|
                    #[trigger] prepared(
                        req,
                        *n,
                        t,
                        id,
                        old(self).production,
                        slot_view(old(self).jwt),
                        slot_view(self.jwt),
                        now as int,
                    );
                assert(prepared(
                    req,
                    *n,
                    t,
                    id,
                    old(self).production,
                    slot_view(old(self).jwt),
                    slot_view(self.jwt),
                    now as int,
                ));
            }
        }
        r
    }

    /// The outcome of a delivery of the notification `id` from the gateway's
    /// status and answer body.
    pub fn finish(status: u16, body: &[u8], id: u128) -> (r: Result<u128, SendError>)
        ensures
            crate::response::is_success(status) ==> r == Ok::<u128, SendError>(id),
            !crate::response::is_success(status) ==> (r matches Err(e) && e matches SendError::Api(
                a,
            ) && a.status == status as u32 && a.reason@ == crate::response::reason_text(
                crate::response::json_reason(body@),
            )),
    {
        match classify(status, body, id) {
            Ok(x) => Ok(x),
            Err(a) => Err(SendError::Api(a)),
        }
    }
}

} // verus!
