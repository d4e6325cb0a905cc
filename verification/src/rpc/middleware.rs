//! What stands before the endpoints: API keys, rate limits, quotas, allowed
//! origins and the audit record.

use vstd::prelude::*;
use vstd::string::*;
use vstd::utf8::*;

use crate::primitives::text::{decimal, decimal_text, has_prefix, join3, lemma_utf8_injective, text_eq};
use crate::rpc::buckets::{
    after_check, check_outcome, whole_seconds, whole_secs, Bucket, TokenBuckets,
};
use crate::rpc::json::{JsonNumber, JsonValue};
use crate::rpc::mcp::handler::{is_number_member, is_text_member};

verus! {

/// Largest request body that is read, in bytes.
pub const MAX_BODY_SIZE: usize = 524_288;

/// For how long a browser may remember what origins are allowed, in seconds.
pub const CORS_MAX_AGE_SECS: u64 = 3600;

/// Number of addresses that [`FaucetAddressLimiter`] keeps track of.
pub const FAUCET_LIMITER_MAX_ENTRIES: usize = 100_000;

/// Number of addresses that [`RateLimiter`] keeps track of.
pub const RATE_LIMITER_MAX_ENTRIES: usize = 200_000;

/// Number of combinations of class, tier and address that [`QuotaManager`]
/// keeps track of.
pub const QUOTA_MAX_ENTRIES: usize = 200_000;

/// Whether two byte strings are equal. How long the comparison takes does not
/// depend on where they differ.
pub fn constant_time_eq(a: &[u8], b: &[u8]) -> (r: bool)
    ensures
        r == (a@ == b@),
{
    if a.len() != b.len() {
        return false;
    }
    let mut diff: u8 = 0;
    let mut i: usize = 0;
    while i < a.len()
        invariant
            a@.len() == b@.len(),
            0 <= i <= a@.len(),
            diff == 0 <==> forall|j: int| 0 <= j < i ==> a@[j] == b@[j],
        decreases a@.len() - i,
    {
        let x: u8 = a[i];
        let y: u8 = b[i];
        let ghost before = diff;
        diff = diff | (x ^ y);
        assert((before | (x ^ y)) == 0 <==> before == 0 && x == y) by (bit_vector);
        i = i + 1;
        proof {
            if diff == 0 {
                assert forall|j: int| 0 <= j < i implies a@[j] == b@[j] by {
                    if j == i - 1 {
                        assert(x == y);
                    }
                }
            } else if before == 0 {
                assert(a@[i - 1] != b@[i - 1]);
            }
        }
    }
    proof {
        if diff == 0 {
            assert(a@ =~= b@);
        }
    }
    diff == 0
}

/// Whether one of `keys` is `key`.
pub open spec fn is_among(keys: Seq<String>, key: Seq<char>) -> bool {
    exists|i: int| 0 <= i < keys.len() && (#[trigger] keys[i])@ == key
}

fn matches_any(keys: &Vec<String>, key: &str) -> (r: bool)
    ensures
        r == is_among(keys@, key@),
{
    let mut i: usize = 0;
    while i < keys.len()
        invariant
            0 <= i <= keys@.len(),
            forall|j: int| 0 <= j < i ==> (#[trigger] keys@[j])@ != key@,
        decreases keys@.len() - i,
    {
        proof {
            lemma_utf8_injective(keys@[i as int]@, key@);
        }
        if constant_time_eq(keys[i].as_str().as_bytes(), key.as_bytes()) {
            return true;
        }
        i = i + 1;
    }
    false
}

/// A reply that refuses a request before it reaches its endpoint.
#[derive(Debug)]
pub struct Refusal {
    /// The HTTP status.
    pub status: u16,
    /// Seconds after which to retry, for the `retry-after` header.
    pub retry_after_secs: Option<u64>,
    /// The body.
    pub body: JsonValue,
}

fn text_member(key: &str, text: &str) -> (r: (String, JsonValue))
    ensures
        is_text_member(r, key@, text@),
{
    (key.to_owned(), JsonValue::Text(text.to_owned()))
}

fn number_member(key: &str, n: u64) -> (r: (String, JsonValue))
    ensures
        is_number_member(r, key@, n),
{
    (key.to_owned(), JsonValue::Number(JsonNumber::Unsigned(n)))
}

/// Whether a request with the method `method` only reads.
pub open spec fn is_reading(method: Seq<char>) -> bool {
    method == "GET"@ || method == "OPTIONS"@ || method == "HEAD"@
}

/// Whether a request is let through where `keys` are the keys that are
/// accepted: any request where there are none, any that only reads, and any
/// that bears one of them.
pub open spec fn key_suffices(keys: Seq<String>, method: Seq<char>, provided: Option<Seq<char>>) -> bool {
    ||| keys.len() == 0
    ||| is_reading(method)
    ||| provided is Some && is_among(keys, provided->Some_0)
}

/// Whether `body` is that of the refusal of a request without an accepted key.
pub open spec fn is_unauthorized(refusal: Refusal) -> bool {
    &&& refusal.status == 401
    &&& refusal.retry_after_secs is None
    &&& refusal.body is Object
    &&& refusal.body->Object_0@.len() == 2
    &&& is_text_member(refusal.body->Object_0@[0], "error"@, "UNAUTHORIZED"@)
    &&& is_text_member(
        refusal.body->Object_0@[1],
        "message"@,
        "missing or invalid x-api-key header"@,
    )
}

/// Decides whether a request is let through by its API key, and what it is
/// refused with if not. `keys` are the accepted keys and `provided` is the
/// `x-api-key` header.
pub fn api_key_decision(keys: &Vec<String>, method: &str, provided: Option<&str>) -> (r: Option<
    Refusal,
>)
    ensures
        r is None <==> key_suffices(
            keys@,
            method@,
            match provided {
                Some(key) => Some(key@),
                None => None,
            },
        ),
        r is Some ==> is_unauthorized(r->Some_0),
{
    if keys.len() == 0 || text_eq(method, "GET") || text_eq(method, "OPTIONS") || text_eq(
        method,
        "HEAD",
    ) {
        return None;
    }
    if let Some(key) = provided {
        if matches_any(keys, key) {
            return None;
        }
    }
    let mut members: Vec<(String, JsonValue)> = Vec::new();
    members.push(text_member("error", "UNAUTHORIZED"));
    members.push(text_member("message", "missing or invalid x-api-key header"));
    Some(Refusal { status: 401, retry_after_secs: None, body: JsonValue::Object(members) })
}

/// The origins from which browsers may make requests.
#[derive(Debug)]
pub enum CorsOrigins {
    /// None: no `Access-Control-Allow-Origin` header is sent.
    Closed,
    /// Any.
    Any,
    /// Those listed.
    Listed(Vec<String>),
}

/// Whether the bytes of a text can stand in a header value: visible ones and
/// tabs, but not the delete character.
pub open spec fn is_header_text(bytes: Seq<u8>) -> bool {
    forall|i: int|
        0 <= i < bytes.len() ==> ((#[trigger] bytes[i]) >= 32 && bytes[i] != 127) || bytes[i] == 9
}

/// `http::HeaderValue::from_str`: succeeds exactly where every byte of the
/// text is at least 32 and not 127, or is a tab.
#[verifier::external_body]
fn parses_as_header_value(text: &str) -> (r: bool)
    ensures
        r == is_header_text(text.spec_bytes()),
{
    http::HeaderValue::from_str(text).is_ok()
}

/// The texts among `origins` that can stand in a header, in order.
pub open spec fn header_texts(origins: Seq<String>) -> Seq<Seq<char>>
    decreases origins.len(),
{
    if origins.len() == 0 {
        Seq::empty()
    } else {
        let earlier = header_texts(origins.drop_last());
        if is_header_text(encode_utf8(origins.last()@)) {
            earlier.push(origins.last()@)
        } else {
            earlier
        }
    }
}

/// Whether `r` is what the configured `origins` allow: nobody where there are
/// none, everybody where there is only a star, else those that can stand in a
/// header.
pub open spec fn allows_origins(r: CorsOrigins, origins: Seq<String>) -> bool {
    if origins.len() == 0 {
        r is Closed
    } else if origins.len() == 1 && origins[0]@ == "*"@ {
        r is Any
    } else {
        r is Listed && r->Listed_0@.map_values(|s: String| s@) == header_texts(origins)
    }
}

/// Decides from which origins browsers may make requests.
pub fn cors_origins(origins: &Vec<String>) -> (r: CorsOrigins)
    ensures
        allows_origins(r, origins@),
{
    if origins.len() == 0 {
        return CorsOrigins::Closed;
    }
    if origins.len() == 1 && text_eq(origins[0].as_str(), "*") {
        return CorsOrigins::Any;
    }
    let mut listed: Vec<String> = Vec::new();
    let mut i: usize = 0;
    assert(listed@.map_values(|s: String| s@) =~= header_texts(origins@.take(0)));
    while i < origins.len()
        invariant
            0 <= i <= origins@.len(),
            listed@.map_values(|s: String| s@) == header_texts(origins@.take(i as int)),
        decreases origins@.len() - i,
    {
        let ghost before = listed@;
        let ghost head = origins@.take(i + 1);
        assert(head.drop_last() =~= origins@.take(i as int));
        if parses_as_header_value(origins[i].as_str()) {
            listed.push(origins[i].clone());
            assert(listed@.map_values(|s: String| s@) =~= before.map_values(|s: String| s@).push(
                origins@[i as int]@,
            ));
        }
        i = i + 1;
    }
    assert(origins@.take(i as int) =~= origins@);
    CorsOrigins::Listed(listed)
}

/// Limits how often the faucet pays an account: a number of times within an
/// hour.
pub struct FaucetAddressLimiter {
    max_per_hour: u32,
    buckets: TokenBuckets,
}

/// An hour in nanoseconds.
pub const HOUR_NS: u128 = 3_600_000_000_000;

/// A minute in nanoseconds.
pub const MINUTE_NS: u128 = 60_000_000_000;

impl View for FaucetAddressLimiter {
    type V = Map<Seq<u8>, Bucket>;

    closed spec fn view(&self) -> Map<Seq<u8>, Bucket> {
        self.buckets@
    }
}

impl FaucetAddressLimiter {
    /// The buckets are in order.
    pub closed spec fn wf(&self) -> bool {
        self.buckets.wf()
    }

    /// How often an account is paid within an hour.
    pub closed spec fn limit(&self) -> u32 {
        self.max_per_hour
    }

    /// The number of accounts that are kept track of.
    pub closed spec fn capacity(&self) -> int {
        self.buckets.capacity()
    }

    /// The table is finite and never holds more than its capacity.
    pub proof fn law_table_is_bounded(&self)
        requires
            self.wf(),
        ensures
            self@.dom().finite(),
            self@.dom().len() <= self.capacity(),
    {
        self.buckets.law_buckets_are_bounded();
    }

    /// A limiter that lets an account be paid `max_per_hour` times.
    pub fn new(max_per_hour: u32) -> (r: Self)
        ensures
            r.wf(),
            r@ == Map::<Seq<u8>, Bucket>::empty(),
            r.limit() == max_per_hour,
            r.capacity() == FAUCET_LIMITER_MAX_ENTRIES,
    {
        FaucetAddressLimiter::with_max_entries(max_per_hour, FAUCET_LIMITER_MAX_ENTRIES)
    }

    /// A limiter that keeps track of at most `max_entries` accounts.
    pub fn with_max_entries(max_per_hour: u32, max_entries: usize) -> (r: Self)
        ensures
            r.wf(),
            r@ == Map::<Seq<u8>, Bucket>::empty(),
            r.limit() == max_per_hour,
            r.capacity() == max_entries,
    {
        FaucetAddressLimiter { max_per_hour, buckets: TokenBuckets::new(max_entries) }
    }

    /// Asks for a payment to `address` at the time `now_ns`. Returns how many
    /// more there may be, or how many nanoseconds to wait.
    pub fn check(&mut self, address: &[u8; 32], now_ns: u128) -> (r: Result<u32, u128>)
        requires
            old(self).wf(),
        ensures
            final(self).wf(),
            final(self).limit() == old(self).limit(),
            final(self).capacity() == old(self).capacity(),
            r == check_outcome(
                old(self)@,
                old(self).capacity(),
                address@,
                old(self).limit(),
                HOUR_NS,
                now_ns,
            ),
            final(self)@ == after_check(
                old(self)@,
                old(self).capacity(),
                address@,
                old(self).limit(),
                HOUR_NS,
                now_ns,
            ),
    {
        self.buckets.check(address, self.max_per_hour, HOUR_NS, now_ns)
    }
}

/// The address of a peer.
#[derive(Debug, Clone, Copy, PartialEq, Eq, Hash)]
pub enum IpAddress {
    /// An address of version four.
    V4([u8; 4]),
    /// An address of version six.
    V6([u8; 16]),
}

impl IpAddress {
    /// The version of the address.
    pub open spec fn version(&self) -> u8 {
        match self {
            IpAddress::V4(_) => 4,
            IpAddress::V6(_) => 6,
        }
    }

    /// The bytes of the address.
    pub open spec fn octets(&self) -> Seq<u8> {
        match self {
            IpAddress::V4(o) => o@,
            IpAddress::V6(o) => o@,
        }
    }

    /// The address of this machine, under which requests of unknown origin
    /// are counted.
    pub fn localhost() -> (r: IpAddress)
        ensures
            r is V4,
            r.octets() == seq![127u8, 0, 0, 1],
    {
        let octets: [u8; 4] = [127, 0, 0, 1];
        assert(octets@ =~= seq![127u8, 0, 0, 1]);
        IpAddress::V4(octets)
    }
}

/// The key of the bucket of `ip` in the group `group`: the group, the version
/// and the bytes of the address.
pub open spec fn ip_key(group: u8, ip: IpAddress) -> Seq<u8> {
    Seq::new(
        32,
        |i: int|
            if i == 0 {
                group
            } else if i == 1 {
                ip.version()
            } else if i - 2 < ip.octets().len() {
                ip.octets()[i - 2]
            } else {
                0
            },
    )
}

/// Different groups and different addresses have different buckets.
pub proof fn law_addresses_have_own_buckets(g: u8, a: IpAddress, h: u8, b: IpAddress)
    requires
        ip_key(g, a) == ip_key(h, b),
    ensures
        g == h,
        a == b,
{
    let x = ip_key(g, a);
    let y = ip_key(h, b);
    assert(x[0] == g && y[0] == h);
    assert(x[1] == a.version() && y[1] == b.version());
    match (a, b) {
        (IpAddress::V4(p), IpAddress::V4(q)) => {
            assert forall|i: int| 0 <= i < 4 implies p@[i] == q@[i] by {
                assert(x[i + 2] == p@[i]);
                assert(y[i + 2] == q@[i]);
            }
            assert(p =~= q);
        },
        (IpAddress::V6(p), IpAddress::V6(q)) => {
            assert forall|i: int| 0 <= i < 16 implies p@[i] == q@[i] by {
                assert(x[i + 2] == p@[i]);
                assert(y[i + 2] == q@[i]);
            }
            assert(p =~= q);
        },
        _ => {},
    }
}

fn key_of_ip(group: u8, ip: &IpAddress) -> (r: [u8; 32])
    ensures
        r@ == ip_key(group, *ip),
{
    let mut out: [u8; 32] = [0u8; 32];
    out[0] = group;
    let octets: &[u8] = match ip {
        IpAddress::V4(o) => {
            out[1] = 4;
            o.as_slice()
        },
        IpAddress::V6(o) => {
            out[1] = 6;
            o.as_slice()
        },
    };
    let mut i: usize = 0;
    while i < octets.len()
        invariant
            0 <= i <= octets@.len() <= 16,
            octets@ == ip.octets(),
            out@.len() == 32,
            out@[0] == group,
            out@[1] == ip.version(),
            forall|j: int| 0 <= j < i ==> out@[j + 2] == #[trigger] octets@[j],
            forall|j: int| i + 2 <= j < 32 ==> #[trigger] out@[j] == 0,
        decreases octets@.len() - i,
    {
        out[i + 2] = octets[i];
        i = i + 1;
    }
    proof {
        assert forall|j: int| 0 <= j < 32 implies #[trigger] out@[j] == ip_key(group, *ip)[j] by {
            if 2 <= j < i + 2 {
                assert(out@[(j - 2) + 2] == octets@[j - 2]);
            }
        }
        assert(out@ =~= ip_key(group, *ip));
    }
    out
}

/// Limits how often a peer makes requests.
///
/// When the table of peers is full and no window is over, every request is
/// refused.
pub struct RateLimiter {
    max_requests: u32,
    window_ns: u128,
    buckets: TokenBuckets,
}

impl View for RateLimiter {
    type V = Map<Seq<u8>, Bucket>;

    closed spec fn view(&self) -> Map<Seq<u8>, Bucket> {
        self.buckets@
    }
}

impl RateLimiter {
    /// The buckets are in order.
    pub closed spec fn wf(&self) -> bool {
        self.buckets.wf()
    }

    /// How many requests a peer may make within a window.
    pub closed spec fn limit(&self) -> u32 {
        self.max_requests
    }

    /// The length of a window in nanoseconds.
    pub closed spec fn window(&self) -> u128 {
        self.window_ns
    }

    /// The number of peers that are kept track of.
    pub closed spec fn capacity(&self) -> int {
        self.buckets.capacity()
    }

    /// The table is finite and never holds more than its capacity.
    pub proof fn law_table_is_bounded(&self)
        requires
            self.wf(),
        ensures
            self@.dom().finite(),
            self@.dom().len() <= self.capacity(),
    {
        self.buckets.law_buckets_are_bounded();
    }

    /// A limiter that lets a peer make `max_requests` requests within
    /// `window_ns` nanoseconds.
    pub fn new(max_requests: u32, window_ns: u128) -> (r: Self)
        ensures
            r.wf(),
            r@ == Map::<Seq<u8>, Bucket>::empty(),
            r.limit() == max_requests,
            r.window() == window_ns,
            r.capacity() == RATE_LIMITER_MAX_ENTRIES,
    {
        RateLimiter::with_max_entries(max_requests, window_ns, RATE_LIMITER_MAX_ENTRIES)
    }

    /// A limiter that keeps track of at most `max_entries` peers.
    pub fn with_max_entries(max_requests: u32, window_ns: u128, max_entries: usize) -> (r: Self)
        ensures
            r.wf(),
            r@ == Map::<Seq<u8>, Bucket>::empty(),
            r.limit() == max_requests,
            r.window() == window_ns,
            r.capacity() == max_entries,
    {
        RateLimiter { max_requests, window_ns, buckets: TokenBuckets::new(max_entries) }
    }

    /// What a request of `ip` at the time `now_ns` is answered.
    pub open spec fn outcome(&self, ip: IpAddress, now_ns: u128) -> Result<u32, u128> {
        check_outcome(self@, self.capacity(), ip_key(0, ip), self.limit(), self.window(), now_ns)
    }

    /// Asks for a request of `ip` at the time `now_ns`. Returns how many more
    /// there may be, or how many nanoseconds to wait.
    pub fn check(&mut self, ip: IpAddress, now_ns: u128) -> (r: Result<u32, u128>)
        requires
            old(self).wf(),
        ensures
            final(self).wf(),
            final(self).limit() == old(self).limit(),
            final(self).window() == old(self).window(),
            final(self).capacity() == old(self).capacity(),
            r == old(self).outcome(ip, now_ns),
            final(self)@ == after_check(
                old(self)@,
                old(self).capacity(),
                ip_key(0, ip),
                old(self).limit(),
                old(self).window(),
                now_ns,
            ),
    {
        let key = key_of_ip(0, &ip);
        self.buckets.check(&key, self.max_requests, self.window_ns, now_ns)
    }
}

/// What a limiter decides of a request.
#[derive(Debug)]
pub enum LimitDecision {
    /// The request goes on and its reply gets no further headers.
    Pass,
    /// The request goes on and its reply gets these headers.
    PassWithHeaders(Vec<(String, String)>),
    /// The request is refused.
    Refuse(Refusal),
}

/// Whether `headers` is the one header `name` with the value `value`, at
/// position `i`.
pub open spec fn is_header(
    headers: Seq<(String, String)>,
    i: int,
    name: Seq<char>,
    value: Seq<char>,
) -> bool {
    headers[i].0@ == name && headers[i].1@ == value
}

/// Whether `d` is what is decided of a request where the limiter answered
/// `outcome`.
pub open spec fn rate_decided(d: LimitDecision, outcome: Result<u32, u128>) -> bool {
    match outcome {
        Ok(remaining) => {
            &&& d is PassWithHeaders
            &&& d->PassWithHeaders_0@.len() == 1
            &&& is_header(
                d->PassWithHeaders_0@,
                0,
                "x-ratelimit-remaining"@,
                decimal(remaining as nat),
            )
        },
        Err(wait_ns) => {
            let wait = whole_secs(wait_ns);
            &&& d is Refuse
            &&& d->Refuse_0.status == 429
            &&& d->Refuse_0.retry_after_secs == Some(wait)
            &&& d->Refuse_0.body is Object
            &&& d->Refuse_0.body->Object_0@.len() == 3
            &&& is_text_member(d->Refuse_0.body->Object_0@[0], "error"@, "TOO_MANY_REQUESTS"@)
            &&& is_text_member(d->Refuse_0.body->Object_0@[1], "message"@, "rate limit exceeded"@)
            &&& is_number_member(d->Refuse_0.body->Object_0@[2], "retry_after_secs"@, wait)
        },
    }
}

/// What is decided of a request where the limiter answered `outcome`.
pub fn rate_limit_reply(outcome: Result<u32, u128>) -> (r: LimitDecision)
    ensures
        rate_decided(r, outcome),
{
    match outcome {
        Ok(remaining) => {
            let mut headers: Vec<(String, String)> = Vec::new();
            headers.push(("x-ratelimit-remaining".to_owned(), decimal_text(remaining as u64)));
            LimitDecision::PassWithHeaders(headers)
        },
        Err(wait_ns) => {
            let wait: u64 = whole_seconds(wait_ns);
            let mut members: Vec<(String, JsonValue)> = Vec::new();
            members.push(text_member("error", "TOO_MANY_REQUESTS"));
            members.push(text_member("message", "rate limit exceeded"));
            members.push(number_member("retry_after_secs", wait));
            LimitDecision::Refuse(
                Refusal {
                    status: 429,
                    retry_after_secs: Some(wait),
                    body: JsonValue::Object(members),
                },
            )
        },
    }
}

/// The address under which a request is counted: this machine's where the
/// peer's is not known.
pub open spec fn counted_ip(peer: Option<IpAddress>, ip: IpAddress) -> bool {
    match peer {
        Some(known) => ip == known,
        None => ip is V4 && ip.octets() == seq![127u8, 0, 0, 1],
    }
}

fn counted(peer: Option<IpAddress>) -> (ip: IpAddress)
    ensures
        counted_ip(peer, ip),
{
    match peer {
        Some(known) => known,
        None => IpAddress::localhost(),
    }
}

/// Decides whether a request of `peer` at the time `now_ns` goes on, and
/// counts it. Without a limiter every request goes on.
pub fn rate_limit_decision(
    limiter: &mut Option<RateLimiter>,
    peer: Option<IpAddress>,
    now_ns: u128,
) -> (r: LimitDecision)
    requires
        match *old(limiter) {
            Some(l) => l.wf(),
            None => true,
        },
    ensures
        match (*old(limiter), *final(limiter)) {
            (None, None) => r is Pass,
            (Some(before), Some(after)) => {
                &&& after.wf()
                &&& after.limit() == before.limit()
                &&& after.window() == before.window()
                &&& after.capacity() == before.capacity()
                &&& exists|ip: IpAddress|
                    {
                        &&& #[trigger] counted_ip(peer, ip)
                        &&& rate_decided(r, before.outcome(ip, now_ns))
                        &&& after@ == after_check(
                            before@,
                            before.capacity(),
                            ip_key(0, ip),
                            before.limit(),
                            before.window(),
                            now_ns,
                        )
                    }
            },
            _ => false,
        },
{
    match limiter {
        None => LimitDecision::Pass,
        Some(l) => {
            let ip = counted(peer);
            let outcome = l.check(ip, now_ns);
            rate_limit_reply(outcome)
        },
    }
}

/// The tier of a caller. Higher tiers may make more requests.
#[derive(Debug, Clone, Copy, PartialEq, Eq, Structural)]
pub enum QuotaTier {
    /// No API key.
    Anonymous,
    /// An API key that is not whitelisted.
    Authenticated,
    /// A whitelisted API key.
    Whitelisted,
}

impl QuotaTier {
    /// The position of this tier in a row of limits.
    pub open spec fn rank(self) -> int {
        match self {
            QuotaTier::Anonymous => 0,
            QuotaTier::Authenticated => 1,
            QuotaTier::Whitelisted => 2,
        }
    }

    /// The name of this tier.
    pub open spec fn name(self) -> Seq<char> {
        match self {
            QuotaTier::Anonymous => "anonymous"@,
            QuotaTier::Authenticated => "authenticated"@,
            QuotaTier::Whitelisted => "whitelisted"@,
        }
    }

    fn index(self) -> (r: usize)
        ensures
            r == self.rank(),
    {
        match self {
            QuotaTier::Anonymous => 0,
            QuotaTier::Authenticated => 1,
            QuotaTier::Whitelisted => 2,
        }
    }

    /// The name of this tier.
    pub fn to_string(self) -> (r: String)
        ensures
            r@ == self.name(),
    {
        match self {
            QuotaTier::Anonymous => "anonymous".to_owned(),
            QuotaTier::Authenticated => "authenticated".to_owned(),
            QuotaTier::Whitelisted => "whitelisted".to_owned(),
        }
    }
}

/// The class of an endpoint. Each class has its own limits.
#[derive(Debug, Clone, Copy, PartialEq, Eq, Structural)]
pub enum EndpointClass {
    /// Read-only view calls.
    Query,
    /// Intent compilation.
    Intent,
    /// Tool calls.
    Mcp,
}

impl EndpointClass {
    /// The position of this class among the rows of limits.
    pub open spec fn rank(self) -> int {
        match self {
            EndpointClass::Query => 0,
            EndpointClass::Intent => 1,
            EndpointClass::Mcp => 2,
        }
    }

    /// The name of this class.
    pub open spec fn name(self) -> Seq<char> {
        match self {
            EndpointClass::Query => "query"@,
            EndpointClass::Intent => "intent"@,
            EndpointClass::Mcp => "mcp"@,
        }
    }

    fn index(self) -> (r: usize)
        ensures
            r == self.rank(),
    {
        match self {
            EndpointClass::Query => 0,
            EndpointClass::Intent => 1,
            EndpointClass::Mcp => 2,
        }
    }

    /// The name of this class.
    pub fn to_string(self) -> (r: String)
        ensures
            r@ == self.name(),
    {
        match self {
            EndpointClass::Query => "query".to_owned(),
            EndpointClass::Intent => "intent".to_owned(),
            EndpointClass::Mcp => "mcp".to_owned(),
        }
    }
}

/// Limits how often a peer makes requests of a class, by the caller's tier.
pub struct QuotaManager {
    limits: [[u32; 3]; 3],
    whitelisted_keys: Vec<String>,
    window_ns: u128,
    buckets: TokenBuckets,
}

/// The group of buckets of a class and a tier.
pub open spec fn quota_group(class: EndpointClass, tier: QuotaTier) -> u8 {
    (class.rank() * 4 + tier.rank()) as u8
}

/// Different combinations of class, tier and address have different buckets.
pub proof fn law_quotas_have_own_buckets(
    class_a: EndpointClass,
    tier_a: QuotaTier,
    a: IpAddress,
    class_b: EndpointClass,
    tier_b: QuotaTier,
    b: IpAddress,
)
    requires
        ip_key(quota_group(class_a, tier_a), a) == ip_key(quota_group(class_b, tier_b), b),
    ensures
        class_a == class_b,
        tier_a == tier_b,
        a == b,
{
    law_addresses_have_own_buckets(quota_group(class_a, tier_a), a, quota_group(class_b, tier_b), b);
}

/// The tier of a caller who shows `api_key`.
pub open spec fn tier_of(whitelisted: Seq<String>, api_key: Option<Seq<char>>) -> QuotaTier {
    match api_key {
        None => QuotaTier::Anonymous,
        Some(key) => if is_among(whitelisted, key) {
            QuotaTier::Whitelisted
        } else {
            QuotaTier::Authenticated
        },
    }
}

/// The class of the endpoint at `path`, if its use is limited.
pub open spec fn class_of_path(path: Seq<char>) -> Option<EndpointClass> {
    if "/v2/contract/query"@.is_prefix_of(path) {
        Some(EndpointClass::Query)
    } else if "/v2/intent/"@.is_prefix_of(path) {
        Some(EndpointClass::Intent)
    } else if "/v2/mcp"@.is_prefix_of(path) {
        Some(EndpointClass::Mcp)
    } else {
        None
    }
}

/// The answer `outcome` with the tier of the caller, where the request goes on.
pub open spec fn with_tier(outcome: Result<u32, u128>, tier: QuotaTier) -> Result<
    (u32, QuotaTier),
    u128,
> {
    match outcome {
        Ok(remaining) => Ok((remaining, tier)),
        Err(wait_ns) => Err(wait_ns),
    }
}

impl View for QuotaManager {
    type V = Map<Seq<u8>, Bucket>;

    closed spec fn view(&self) -> Map<Seq<u8>, Bucket> {
        self.buckets@
    }
}

impl QuotaManager {
    /// The buckets are in order.
    pub closed spec fn wf(&self) -> bool {
        self.buckets.wf()
    }

    /// How many requests of a class a caller of a tier may make in a window.
    pub closed spec fn limit(&self, class: EndpointClass, tier: QuotaTier) -> u32 {
        self.limits@[class.rank()]@[tier.rank()]
    }

    /// The whitelisted API keys.
    pub closed spec fn whitelist(&self) -> Seq<String> {
        self.whitelisted_keys@
    }

    /// The length of a window in nanoseconds.
    pub closed spec fn window(&self) -> u128 {
        self.window_ns
    }

    /// The number of buckets that are kept.
    pub closed spec fn capacity(&self) -> int {
        self.buckets.capacity()
    }

    /// The table is finite and never holds more than its capacity.
    pub proof fn law_table_is_bounded(&self)
        requires
            self.wf(),
        ensures
            self@.dom().finite(),
            self@.dom().len() <= self.capacity(),
    {
        self.buckets.law_buckets_are_bounded();
    }

    /// Whether nothing but the buckets differs from `other`.
    pub open spec fn same_rules(&self, other: &Self) -> bool {
        &&& forall|c: EndpointClass, t: QuotaTier| #[trigger] self.limit(c, t) == other.limit(c, t)
        &&& self.whitelist() == other.whitelist()
        &&& self.window() == other.window()
        &&& self.capacity() == other.capacity()
    }

    /// A manager with limits per class and tier, each row for the tiers from
    /// the lowest to the highest, in requests per minute.
    pub fn new_per_class(
        query_rpms: [u32; 3],
        intent_rpms: [u32; 3],
        mcp_rpms: [u32; 3],
        whitelisted_keys: Vec<String>,
    ) -> (r: Self)
        ensures
            r.wf(),
            r@ == Map::<Seq<u8>, Bucket>::empty(),
            forall|t: QuotaTier| #[trigger]
                r.limit(EndpointClass::Query, t) == query_rpms@[t.rank()],
            forall|t: QuotaTier| #[trigger]
                r.limit(EndpointClass::Intent, t) == intent_rpms@[t.rank()],
            forall|t: QuotaTier| #[trigger] r.limit(EndpointClass::Mcp, t) == mcp_rpms@[t.rank()],
            r.whitelist() == whitelisted_keys@,
            r.window() == MINUTE_NS,
            r.capacity() == QUOTA_MAX_ENTRIES,
    {
        QuotaManager::with_max_entries(
            query_rpms,
            intent_rpms,
            mcp_rpms,
            whitelisted_keys,
            MINUTE_NS,
            QUOTA_MAX_ENTRIES,
        )
    }

    /// A manager with windows of `window_ns` nanoseconds that keeps at most
    /// `max_entries` buckets.
    pub fn with_max_entries(
        query_limits: [u32; 3],
        intent_limits: [u32; 3],
        mcp_limits: [u32; 3],
        whitelisted_keys: Vec<String>,
        window_ns: u128,
        max_entries: usize,
    ) -> (r: Self)
        ensures
            r.wf(),
            r@ == Map::<Seq<u8>, Bucket>::empty(),
            forall|t: QuotaTier| #[trigger]
                r.limit(EndpointClass::Query, t) == query_limits@[t.rank()],
            forall|t: QuotaTier| #[trigger]
                r.limit(EndpointClass::Intent, t) == intent_limits@[t.rank()],
            forall|t: QuotaTier| #[trigger]
                r.limit(EndpointClass::Mcp, t) == mcp_limits@[t.rank()],
            r.whitelist() == whitelisted_keys@,
            r.window() == window_ns,
            r.capacity() == max_entries,
    {
        let limits: [[u32; 3]; 3] = [query_limits, intent_limits, mcp_limits];
        assert(limits@[0] == query_limits);
        assert(limits@[1] == intent_limits);
        assert(limits@[2] == mcp_limits);
        QuotaManager {
            limits,
            whitelisted_keys,
            window_ns,
            buckets: TokenBuckets::new(max_entries),
        }
    }

    /// A manager with the same limits for all classes.
    pub fn new(
        anonymous_rpm: u32,
        authenticated_rpm: u32,
        whitelisted_rpm: u32,
        whitelisted_keys: Vec<String>,
    ) -> (r: Self)
        ensures
            r.wf(),
            r@ == Map::<Seq<u8>, Bucket>::empty(),
            forall|c: EndpointClass| #[trigger]
                r.limit(c, QuotaTier::Anonymous) == anonymous_rpm,
            forall|c: EndpointClass| #[trigger]
                r.limit(c, QuotaTier::Authenticated) == authenticated_rpm,
            forall|c: EndpointClass| #[trigger]
                r.limit(c, QuotaTier::Whitelisted) == whitelisted_rpm,
            r.whitelist() == whitelisted_keys@,
            r.window() == MINUTE_NS,
            r.capacity() == QUOTA_MAX_ENTRIES,
    {
        let rpms: [u32; 3] = [anonymous_rpm, authenticated_rpm, whitelisted_rpm];
        let r = QuotaManager::new_per_class(rpms, rpms, rpms, whitelisted_keys);
        proof {
            assert(rpms@[0] == anonymous_rpm);
            assert(rpms@[1] == authenticated_rpm);
            assert(rpms@[2] == whitelisted_rpm);
            assert forall|c: EndpointClass, t: QuotaTier| #[trigger]
                r.limit(c, t) == rpms@[t.rank()] by {
                match c {
                    EndpointClass::Query => {
                        assert(r.limit(EndpointClass::Query, t) == rpms@[t.rank()]);
                    },
                    EndpointClass::Intent => {
                        assert(r.limit(EndpointClass::Intent, t) == rpms@[t.rank()]);
                    },
                    EndpointClass::Mcp => {
                        assert(r.limit(EndpointClass::Mcp, t) == rpms@[t.rank()]);
                    },
                }
            }
        }
        r
    }

    /// The tier of a caller who shows `api_key`.
    pub fn resolve_tier(&self, api_key: Option<&str>) -> (r: QuotaTier)
        ensures
            r == tier_of(
                self.whitelist(),
                match api_key {
                    Some(key) => Some(key@),
                    None => None,
                },
            ),
    {
        match api_key {
            None => QuotaTier::Anonymous,
            Some(key) => {
                if matches_any(&self.whitelisted_keys, key) {
                    QuotaTier::Whitelisted
                } else {
                    QuotaTier::Authenticated
                }
            },
        }
    }

    /// The class of the endpoint at `path`, if its use is limited.
    pub fn resolve_class(path: &str) -> (r: Option<EndpointClass>)
        ensures
            r == class_of_path(path@),
    {
        if has_prefix(path, "/v2/contract/query") {
            Some(EndpointClass::Query)
        } else if has_prefix(path, "/v2/intent/") {
            Some(EndpointClass::Intent)
        } else if has_prefix(path, "/v2/mcp") {
            Some(EndpointClass::Mcp)
        } else {
            None
        }
    }

    /// What a request of `ip` at the time `now_ns` is answered.
    pub open spec fn outcome(
        &self,
        ip: IpAddress,
        tier: QuotaTier,
        class: EndpointClass,
        now_ns: u128,
    ) -> Result<u32, u128> {
        check_outcome(
            self@,
            self.capacity(),
            ip_key(quota_group(class, tier), ip),
            self.limit(class, tier),
            self.window(),
            now_ns,
        )
    }

    /// The buckets after a request of `ip` at the time `now_ns`.
    pub open spec fn buckets_after(
        &self,
        ip: IpAddress,
        tier: QuotaTier,
        class: EndpointClass,
        now_ns: u128,
    ) -> Map<Seq<u8>, Bucket> {
        after_check(
            self@,
            self.capacity(),
            ip_key(quota_group(class, tier), ip),
            self.limit(class, tier),
            self.window(),
            now_ns,
        )
    }

    /// Asks for a request of class `class` by a caller of tier `tier` at `ip`.
    /// Returns how many more there may be, with the tier, or how many
    /// nanoseconds to wait.
    pub fn check(
        &mut self,
        ip: IpAddress,
        tier: QuotaTier,
        class: EndpointClass,
        now_ns: u128,
    ) -> (r: Result<(u32, QuotaTier), u128>)
        requires
            old(self).wf(),
        ensures
            final(self).wf(),
            final(self).same_rules(old(self)),
            r == with_tier(old(self).outcome(ip, tier, class, now_ns), tier),
            final(self)@ == old(self).buckets_after(ip, tier, class, now_ns),
    {
        let row: usize = class.index();
        let column: usize = tier.index();
        let limit: u32 = self.limits[row][column];
        let group: u8 = (row * 4 + column) as u8;
        let key = key_of_ip(group, &ip);
        match self.buckets.check(&key, limit, self.window_ns, now_ns) {
            Ok(remaining) => Ok((remaining, tier)),
            Err(wait_ns) => Err(wait_ns),
        }
    }
}

/// Whether `d` is what is decided of a request of class `class` by a caller of
/// tier `tier` where the manager answered `outcome`. A request that goes on is
/// told the tier of the answer.
pub open spec fn quota_decided(
    d: LimitDecision,
    class: EndpointClass,
    tier: QuotaTier,
    outcome: Result<(u32, QuotaTier), u128>,
) -> bool {
    match outcome {
        Ok((remaining, resolved)) => {
            &&& d is PassWithHeaders
            &&& d->PassWithHeaders_0@.len() == 3
            &&& is_header(d->PassWithHeaders_0@, 0, "x-quota-tier"@, resolved.name())
            &&& is_header(d->PassWithHeaders_0@, 1, "x-quota-class"@, class.name())
            &&& is_header(
                d->PassWithHeaders_0@,
                2,
                "x-quota-remaining"@,
                decimal(remaining as nat),
            )
        },
        Err(wait_ns) => {
            let wait = whole_secs(wait_ns);
            &&& d is Refuse
            &&& d->Refuse_0.status == 429
            &&& d->Refuse_0.retry_after_secs == Some(wait)
            &&& d->Refuse_0.body is Object
            &&& d->Refuse_0.body->Object_0@.len() == 5
            &&& is_text_member(d->Refuse_0.body->Object_0@[0], "error"@, "QUOTA_EXCEEDED"@)
            &&& is_text_member(
                d->Refuse_0.body->Object_0@[1],
                "message"@,
                "quota exceeded for "@ + class.name() + "/"@ + tier.name(),
            )
            &&& is_text_member(d->Refuse_0.body->Object_0@[2], "tier"@, tier.name())
            &&& is_text_member(d->Refuse_0.body->Object_0@[3], "endpoint_class"@, class.name())
            &&& is_number_member(d->Refuse_0.body->Object_0@[4], "retry_after_secs"@, wait)
        },
    }
}

/// What is decided of a request of class `class` by a caller of tier `tier`
/// where the manager answered `outcome`.
pub fn quota_reply(
    class: EndpointClass,
    tier: QuotaTier,
    outcome: Result<(u32, QuotaTier), u128>,
) -> (r: LimitDecision)
    ensures
        quota_decided(r, class, tier, outcome),
{
    match outcome {
        Ok((remaining, resolved)) => {
            let mut headers: Vec<(String, String)> = Vec::new();
            headers.push(("x-quota-tier".to_owned(), resolved.to_string()));
            headers.push(("x-quota-class".to_owned(), class.to_string()));
            headers.push(("x-quota-remaining".to_owned(), decimal_text(remaining as u64)));
            LimitDecision::PassWithHeaders(headers)
        },
        Err(wait_ns) => {
            let wait: u64 = whole_seconds(wait_ns);
            let mut message = join3("quota exceeded for ", class.to_string().as_str(), "/");
            message.append(tier.to_string().as_str());
            let mut members: Vec<(String, JsonValue)> = Vec::new();
            members.push(text_member("error", "QUOTA_EXCEEDED"));
            members.push(("message".to_owned(), JsonValue::Text(message)));
            members.push(text_member("tier", tier.to_string().as_str()));
            members.push(text_member("endpoint_class", class.to_string().as_str()));
            members.push(number_member("retry_after_secs", wait));
            LimitDecision::Refuse(
                Refusal {
                    status: 429,
                    retry_after_secs: Some(wait),
                    body: JsonValue::Object(members),
                },
            )
        },
    }
}

/// Decides whether a request goes on under the quotas, and counts it. Without
/// a manager every request goes on, and so do `GET` requests and requests to
/// endpoints of no class; they are not counted.
pub fn quota_decision(
    manager: &mut Option<QuotaManager>,
    method: &str,
    path: &str,
    peer: Option<IpAddress>,
    api_key: Option<&str>,
    now_ns: u128,
) -> (r: LimitDecision)
    requires
        match *old(manager) {
            Some(m) => m.wf(),
            None => true,
        },
    ensures
        match (*old(manager), *final(manager)) {
            (None, None) => r is Pass,
            (Some(before), Some(after)) => {
                &&& after.wf()
                &&& after.same_rules(&before)
                &&& match class_of_path(path@) {
                    Some(class) if method@ != "GET"@ => {
                        let tier = tier_of(
                            before.whitelist(),
                            match api_key {
                                Some(key) => Some(key@),
                                None => None,
                            },
                        );
                        exists|ip: IpAddress|
                            {
                                &&& #[trigger] counted_ip(peer, ip)
                                &&& quota_decided(
                                    r,
                                    class,
                                    tier,
                                    with_tier(before.outcome(ip, tier, class, now_ns), tier),
                                )
                                &&& after@ == before.buckets_after(ip, tier, class, now_ns)
                            }
                    },
                    _ => r is Pass && after@ == before@,
                }
            },
            _ => false,
        },
{
    match manager {
        None => LimitDecision::Pass,
        Some(m) => {
            if text_eq(method, "GET") {
                return LimitDecision::Pass;
            }
            let class = match QuotaManager::resolve_class(path) {
                Some(class) => class,
                None => {
                    return LimitDecision::Pass;
                },
            };
            let ip = counted(peer);
            let tier = m.resolve_tier(api_key);
            let outcome = m.check(ip, tier, class, now_ns);
            assert(counted_ip(peer, ip));
            quota_reply(class, tier, outcome)
        },
    }
}

/// What the audit log records of a request.
#[derive(Debug)]
pub struct AuditRecord {
    /// Method of the request.
    pub method: String,
    /// Path of the request.
    pub path: String,
    /// Status of the reply.
    pub status: u16,
    /// How long the reply took, in milliseconds.
    pub latency_ms: u64,
    /// Address of the peer.
    pub ip: IpAddress,
    /// Identifies the request.
    pub request_id: String,
    /// Tier of the caller.
    pub tier: String,
    /// Class of the endpoint.
    pub endpoint_class: String,
}

/// A header's text, or a dash where there is none.
pub open spec fn or_dash(header: Option<Seq<char>>) -> Seq<char> {
    match header {
        Some(text) => text,
        None => "-"@,
    }
}

fn text_or_dash(header: Option<&str>) -> (r: String)
    ensures
        r@ == or_dash(
            match header {
                Some(text) => Some(text@),
                None => None,
            },
        ),
{
    match header {
        Some(text) => text.to_owned(),
        None => "-".to_owned(),
    }
}

/// The audit record of a request. `request_id` is a header of the request,
/// `tier` and `endpoint_class` are headers of the reply.
pub fn audit_record(
    method: &str,
    path: &str,
    status: u16,
    latency_ms: u64,
    peer: Option<IpAddress>,
    request_id: Option<&str>,
    tier: Option<&str>,
    endpoint_class: Option<&str>,
) -> (r: AuditRecord)
    ensures
        r.method@ == method@,
        r.path@ == path@,
        r.status == status,
        r.latency_ms == latency_ms,
        counted_ip(peer, r.ip),
        r.request_id@ == or_dash(
            match request_id {
                Some(text) => Some(text@),
                None => None,
            },
        ),
        r.tier@ == or_dash(
            match tier {
                Some(text) => Some(text@),
                None => None,
            },
        ),
        r.endpoint_class@ == or_dash(
            match endpoint_class {
                Some(text) => Some(text@),
                None => None,
            },
        ),
{
    AuditRecord {
        method: method.to_owned(),
        path: path.to_owned(),
        status,
        latency_ms,
        ip: counted(peer),
        request_id: text_or_dash(request_id),
        tier: text_or_dash(tier),
        endpoint_class: text_or_dash(endpoint_class),
    }
}

} // verus!
