//! SSO access tokens: their expiry, where they are cached, and the decisions
//! of the device-authorization flow that obtains them.
use crate::text::{concat2, hex_lower, owned, to_hex_lower};
use chrono::{DateTime, TimeDelta, TimeZone, Utc};
use sha1::{Digest, Sha1};
use vstd::prelude::*;
use vstd::utf8::encode_utf8;

verus! {

/// The name under which the tool registers its device clients.
pub const CLIENT_NAME: &'static str = "zana-rs";

/// The OAuth grant type of the device-code flow.
pub const DEVICE_GRANT_TYPE: &'static str = "urn:ietf:params:oauth:grant-type:device_code";

/// The OAuth grant type of a token refresh.
pub const REFRESH_GRANT_TYPE: &'static str = "refresh_token";

/// The error reported when the user rejects the authorization request.
pub const ACCESS_REJECTED: &'static str = "Access request rejected";

/// A UTC instant: seconds since the Unix epoch and the nanoseconds past them,
/// as `timestamp()` and `timestamp_subsec_nanos()` of a `DateTime<Utc>` give
/// them.
#[derive(Clone, Copy, Debug, PartialEq, Eq, Structural)]
pub struct Timestamp {
    pub secs: i64,
    pub nanos: u32,
}

/// `a` lies before `b`, in the order of `DateTime<Utc>`: seconds first, then
/// nanoseconds.
pub open spec fn timestamp_before(a: Timestamp, b: Timestamp) -> bool {
    a.secs < b.secs || (a.secs == b.secs && a.nanos < b.nanos)
}

impl Timestamp {
    /// Whether this instant lies before `other`.
    pub fn is_before(&self, other: &Timestamp) -> (b: bool)
        ensures
            b == timestamp_before(*self, *other),
    {
        self.secs < other.secs || (self.secs == other.secs && self.nanos < other.nanos)
    }
}

/// `Utc::now()`: the current instant, which depends on the clock alone. It
/// is built from the system time since the epoch, so it lies after the epoch
/// and its nanoseconds, those of a `Duration`, are under one second.
#[verifier::external_body]
pub(crate) fn utc_now() -> (t: Timestamp)
    ensures
        t.secs >= 0,
        t.nanos < 1_000_000_000,
{
    let now = Utc::now();
    Timestamp { secs: now.timestamp(), nanos: now.timestamp_subsec_nanos() }
}

/// Seconds from the epoch that chrono represents for certain: about 253,000
/// years either way, well inside its range of years -262143 to 262142.
pub open spec fn within_chrono_range(secs: int) -> bool {
    -8_000_000_000_000 <= secs <= 8_000_000_000_000
}

/// `DateTime::from_timestamp` then `DateTime::checked_add_signed` with whole
/// seconds: where the sum lies in range it is `delta` seconds later with the
/// same nanoseconds (for an instant that is not a leap second). Both calls
/// succeed where the nanoseconds are under a second and both instants lie
/// within `within_chrono_range`; nearer chrono's own limits the contract
/// leaves success open.
#[verifier::external_body]
fn utc_checked_add_seconds(t: Timestamp, delta: i32) -> (r: Option<Timestamp>)
    ensures
        r matches Some(u) ==> t.nanos < 1_000_000_000 ==> (u.secs == t.secs + delta && u.nanos
            == t.nanos),
        t.nanos < 1_000_000_000 && within_chrono_range(t.secs as int) && within_chrono_range(
            t.secs + delta,
        ) ==> r is Some,
{
    match DateTime::from_timestamp(t.secs, t.nanos) {
        Some(d) => match d.checked_add_signed(TimeDelta::seconds(delta as i64)) {
            Some(e) => Some(Timestamp { secs: e.timestamp(), nanos: e.timestamp_subsec_nanos() }),
            None => None,
        },
        None => None,
    }
}

/// `Utc.timestamp_opt(secs, 0)`: the instant `secs` seconds after the epoch,
/// where it lies in range; it does within `within_chrono_range`, and nearer
/// chrono's own limits the contract leaves success open.
#[verifier::external_body]
fn utc_timestamp_opt(secs: i64) -> (r: Option<Timestamp>)
    ensures
        r matches Some(u) ==> u.secs == secs && u.nanos == 0,
        within_chrono_range(secs as int) ==> r is Some,
{
    match Utc.timestamp_opt(secs, 0).single() {
        Some(d) => Some(Timestamp { secs: d.timestamp(), nanos: d.timestamp_subsec_nanos() }),
        None => None,
    }
}

/// When a token issued at `now` and valid for `expires_in` seconds expires;
/// `None` where that instant lies out of range. An instant that is not a leap
/// second and lies within `within_chrono_range`, as does its expiry, always
/// has one.
pub fn expires_after(now: Timestamp, expires_in: i32) -> (r: Option<Timestamp>)
    ensures
        r matches Some(u) ==> now.nanos < 1_000_000_000 ==> (u.secs == now.secs + expires_in
            && u.nanos == now.nanos),
        now.nanos < 1_000_000_000 && within_chrono_range(now.secs as int) && within_chrono_range(
            now.secs + expires_in,
        ) ==> (r matches Some(u) && u.secs == now.secs + expires_in && u.nanos == now.nanos),
{
    utc_checked_add_seconds(now, expires_in)
}

/// The instant a device client's registration expires, `secs` seconds after
/// the epoch; `None` where that lies out of range, which it never is within
/// `within_chrono_range`.
pub fn registration_expiry(secs: i64) -> (r: Option<Timestamp>)
    ensures
        r matches Some(u) ==> u.secs == secs && u.nanos == 0,
        within_chrono_range(secs as int) ==> (r matches Some(u) && u.secs == secs && u.nanos
            == 0),
{
    utc_timestamp_opt(secs)
}

/// A device client registered with SSO OIDC.
#[derive(Debug)]
pub struct DeviceClient {
    pub client_id: String,
    pub client_secret: String,
    pub registration_expires_at: Timestamp,
}

impl DeviceClient {
    /// Whether the registration has expired at `now`.
    pub fn is_expired_at(&self, now: &Timestamp) -> (b: bool)
        ensures
            b == timestamp_before(self.registration_expires_at, *now),
    {
        self.registration_expires_at.is_before(now)
    }

    /// Whether the registration has expired by the clock's current reading.
    pub fn is_expired(&self) -> (b: bool)
        ensures
            exists|now: Timestamp|
                now.secs >= 0 && now.nanos < 1_000_000_000 && b == timestamp_before(
                    self.registration_expires_at,
                    now,
                ),
    {
        let now = utc_now();
        self.is_expired_at(&now)
    }
}

/// The name a device client registers under: `zana-rs-{session name}`.
pub fn device_client_name(sso_session_name: &str) -> (name: String)
    ensures
        name@ == "zana-rs-"@ + sso_session_name@,
{
    concat2("zana-rs-", sso_session_name)
}

/// An SSO access token, as cached on disk.
#[derive(Debug)]
pub struct AccessToken {
    pub start_url: String,
    pub region: String,
    pub access_token: String,
    pub expires_at: Timestamp,
    pub device_client: DeviceClient,
    pub refresh_token: String,
}

impl AccessToken {
    /// Whether the token has expired at `now`.
    pub fn is_expired_at(&self, now: &Timestamp) -> (b: bool)
        ensures
            b == timestamp_before(self.expires_at, *now),
    {
        self.expires_at.is_before(now)
    }

    /// Whether the token has expired by the clock's current reading.
    pub fn is_expired(&self) -> (b: bool)
        ensures
            exists|now: Timestamp|
                now.secs >= 0 && now.nanos < 1_000_000_000 && b == timestamp_before(
                    self.expires_at,
                    now,
                ),
    {
        let now = utc_now();
        self.is_expired_at(&now)
    }

    /// The token that a refresh of `cached` yields: the start URL and device
    /// client stay, the region, access token, refresh token and expiry are
    /// the new ones.
    pub fn refreshed(
        cached: AccessToken,
        region: String,
        access_token: String,
        refresh_token: String,
        expires_at: Timestamp,
    ) -> (t: AccessToken)
        ensures
            t.start_url@ == cached.start_url@,
            t.device_client == cached.device_client,
            t.region == region,
            t.access_token == access_token,
            t.refresh_token == refresh_token,
            t.expires_at == expires_at,
    {
        AccessToken {
            region,
            start_url: cached.start_url,
            access_token,
            expires_at,
            device_client: cached.device_client,
            refresh_token,
        }
    }
}

/// How an access token is obtained.
#[derive(Debug, Clone, Copy, PartialEq, Eq, Structural)]
pub enum TokenSource {
    /// Refresh the cached token.
    RefreshCached,
    /// Register a device client and authorize anew.
    RequestNew,
}

/// The source of a token given what the cache holds at `now`: an expired
/// token, or none, leads to a new authorization; a token still valid is
/// refreshed.
pub open spec fn token_source_spec(cached: Option<Timestamp>, now: Timestamp) -> TokenSource {
    match cached {
        Some(expires_at) => if timestamp_before(expires_at, now) {
            TokenSource::RequestNew
        } else {
            TokenSource::RefreshCached
        },
        None => TokenSource::RequestNew,
    }
}

/// How to obtain the access token, given the cached one (if any was read).
pub fn token_source(cached: Option<&AccessToken>, now: &Timestamp) -> (s: TokenSource)
    ensures
        s == token_source_spec(
            match cached {
                Some(t) => Some(t.expires_at),
                None => None,
            },
            *now,
        ),
{
    match cached {
        Some(t) => if t.is_expired_at(now) {
            TokenSource::RequestNew
        } else {
            TokenSource::RefreshCached
        },
        None => TokenSource::RequestNew,
    }
}

/// What the device-authorization loop does after one token request.
#[derive(Debug, Clone, Copy, PartialEq, Eq, Structural)]
pub enum PollStep {
    /// The token was issued: cache it and stop.
    Issued,
    /// The user rejected the request: stop with an error.
    Rejected,
    /// Authorization is pending: sleep this many seconds and ask again.
    Wait(i64),
}

/// The loop's step after a token request: an issued token ends it, an
/// access-denied error ends it in failure, any other error waits `interval`
/// seconds.
pub fn poll_step(issued: bool, access_denied: bool, interval: i32) -> (s: PollStep)
    ensures
        s == if issued {
            PollStep::Issued
        } else if access_denied {
            PollStep::Rejected
        } else {
            PollStep::Wait(interval as i64)
        },
{
    if issued {
        PollStep::Issued
    } else if access_denied {
        PollStep::Rejected
    } else {
        PollStep::Wait(interval as i64)
    }
}

// ---------------------------------------------------------------------------
// The token cache
// ---------------------------------------------------------------------------

/// What SHA-1 yields for `data`.
pub uninterp spec fn sha1_digest(data: Seq<u8>) -> Seq<u8>;

/// `Sha1::digest`: the 20-byte SHA-1 digest of `data`.
#[verifier::external_body]
fn sha1_of(data: &[u8]) -> (r: Vec<u8>)
    ensures
        r@ == sha1_digest(data@),
        r@.len() == 20,
{
    Sha1::digest(data).to_vec()
}

/// The cache key of a session: the lowercase hex SHA-1 of its name's UTF-8
/// bytes.
pub open spec fn hash_key_spec(sso_session_name: Seq<char>) -> Seq<char> {
    hex_lower(sha1_digest(encode_utf8(sso_session_name)))
}

/// Where a session's access token is cached.
pub struct AccessTokenCache {
    pub cache_dir: String,
    pub sso_session_name: String,
}

impl AccessTokenCache {
    pub fn new(sso_session_name: &str, cache_dir: &str) -> (c: AccessTokenCache)
        ensures
            c.cache_dir@ == cache_dir@,
            c.sso_session_name@ == sso_session_name@,
    {
        AccessTokenCache { cache_dir: owned(cache_dir), sso_session_name: owned(sso_session_name) }
    }

    /// The session's cache key.
    pub fn hash_key(&self) -> (k: String)
        ensures
            k@ == hash_key_spec(self.sso_session_name@),
    {
        let bytes = self.sso_session_name.as_str().as_bytes();
        let digest = sha1_of(bytes);
        to_hex_lower(digest.as_slice())
    }

    /// The name of the cache file within the cache directory:
    /// `{hash key}.json`.
    pub fn cache_file_name(&self) -> (n: String)
        ensures
            n@ == hash_key_spec(self.sso_session_name@) + ".json"@,
    {
        let key = self.hash_key();
        concat2(key.as_str(), ".json")
    }
}

/// The cache key has two lowercase hex digits for each byte of the digest.
pub proof fn lemma_hash_key_length(sso_session_name: Seq<char>)
    ensures
        hash_key_spec(sso_session_name).len() == 2 * sha1_digest(encode_utf8(sso_session_name)).len(),
{
    lemma_hex_lower_len(sha1_digest(encode_utf8(sso_session_name)));
}

proof fn lemma_hex_lower_len(data: Seq<u8>)
    ensures
        hex_lower(data).len() == 2 * data.len(),
    decreases data.len(),
{
    if data.len() > 0 {
        lemma_hex_lower_len(data.drop_last());
    }
}

} // verus!
