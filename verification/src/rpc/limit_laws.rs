//! What is let through and what is refused, in terms of the requests.

use vstd::prelude::*;
use vstd::string::*;
use vstd::utf8::*;

use crate::primitives::text::decimal;
use crate::rpc::buckets::{
    after_check, check_outcome, whole_seconds, with_room_made, Bucket, TokenBuckets,
};
use crate::rpc::json::{JsonNumber, JsonValue};
use crate::rpc::middleware::{
    api_key_decision, audit_record, constant_time_eq, cors_origins, counted_ip, header_texts,
    ip_key, is_header_text, quota_decided, quota_decision, quota_group, quota_reply, rate_decided,
    rate_limit_decision, rate_limit_reply, with_tier, AuditRecord, CorsOrigins, EndpointClass,
    FaucetAddressLimiter, IpAddress, LimitDecision, QuotaManager, QuotaTier, RateLimiter, Refusal,
};

verus! {

/// Whether the window of a bucket has run out.
pub open spec fn ran_out(b: Bucket, window_ns: u128, now_ns: u128) -> bool {
    b.start_ns + window_ns <= now_ns || window_ns == 0
}

/// Whether `kept` are the buckets of `before` that still have a window.
pub open spec fn only_live(
    before: Map<Seq<u8>, Bucket>,
    window_ns: u128,
    now_ns: u128,
    kept: Map<Seq<u8>, Bucket>,
) -> bool {
    forall|k: Seq<u8>|
        {
            &&& #[trigger] kept.dom().contains(k) <==> before.dom().contains(k) && !ran_out(
                before[k],
                window_ns,
                now_ns,
            )
            &&& kept.dom().contains(k) ==> kept[k] == before[k]
        }
}

/// Whether `key` asked for one of `limit` requests in `window_ns` nanoseconds
/// and `r` is the answer. While the table is full, even of live buckets only,
/// everyone is told to wait a minute. Else a key that has requests left spends
/// one, a key without a live bucket gets a new one, and a key that has none
/// left has to wait until its window is over. Nobody else's bucket changes.
pub open spec fn draws(
    before: Map<Seq<u8>, Bucket>,
    capacity: int,
    key: Seq<u8>,
    limit: u32,
    window_ns: u128,
    now_ns: u128,
    after: Map<Seq<u8>, Bucket>,
    r: Result<u32, u128>,
) -> bool {
    exists|kept: Map<Seq<u8>, Bucket>|
        {
            &&& #[trigger] made_room(before, capacity, window_ns, now_ns, kept)
            &&& if kept.dom().len() >= capacity {
                r == Err::<u32, u128>(60_000_000_000) && after == kept
            } else {
                &&& forall|other: Seq<u8>| #[trigger]
                    after.dom().contains(other) && other != key ==> kept.dom().contains(other)
                        && after[other] == kept[other]
                &&& forall|other: Seq<u8>| #[trigger] kept.dom().contains(other) ==> after.dom().contains(other)
                &&& after.dom().contains(key)
                &&& if kept.dom().contains(key) && !ran_out(kept[key], window_ns, now_ns) {
                    &&& after[key].start_ns == kept[key].start_ns
                    &&& kept[key].tokens > 0 ==> r is Ok && r->Ok_0 + 1 == kept[key].tokens
                        && after[key].tokens == r->Ok_0
                    &&& kept[key].tokens == 0 ==> r is Err && after[key].tokens == 0 && (now_ns
                        >= kept[key].start_ns ==> now_ns + r->Err_0 == kept[key].start_ns + window_ns)
                } else {
                    &&& after[key].start_ns == now_ns
                    &&& limit > 0 ==> r is Ok && r->Ok_0 + 1 == limit && after[key].tokens == r->Ok_0
                    &&& limit == 0 ==> r == Err::<u32, u128>(window_ns) && after[key].tokens == 0
                }
            }
        }
}

/// Whether `kept` is what is left of the buckets where room is made, which is
/// only where the table is full.
pub open spec fn made_room(
    before: Map<Seq<u8>, Bucket>,
    capacity: int,
    window_ns: u128,
    now_ns: u128,
    kept: Map<Seq<u8>, Bucket>,
) -> bool {
    if before.dom().len() >= capacity {
        only_live(before, window_ns, now_ns, kept)
    } else {
        kept == before
    }
}

/// What is answered to a request is a draw from its bucket.
pub proof fn lemma_check_draws(
    before: Map<Seq<u8>, Bucket>,
    capacity: int,
    key: Seq<u8>,
    limit: u32,
    window_ns: u128,
    now_ns: u128,
)
    ensures
        draws(
            before,
            capacity,
            key,
            limit,
            window_ns,
            now_ns,
            after_check(before, capacity, key, limit, window_ns, now_ns),
            check_outcome(before, capacity, key, limit, window_ns, now_ns),
        ),
{
    let kept = with_room_made(before, capacity, window_ns, now_ns);
    assert(made_room(before, capacity, window_ns, now_ns, kept));
}

/// A request takes one from what its key has left.
pub proof fn law_requests_draw_from_their_bucket(
    buckets: &mut TokenBuckets,
    key: [u8; 32],
    limit: u32,
    window_ns: u128,
    now_ns: u128,
    r: Result<u32, u128>,
)
    requires
        call_ensures(TokenBuckets::check, (buckets, &key, limit, window_ns, now_ns), r),
    ensures
        draws(old(buckets)@, old(buckets).capacity(), key@, limit, window_ns, now_ns, final(buckets)@, r),
{
    lemma_check_draws(old(buckets)@, old(buckets).capacity(), key@, limit, window_ns, now_ns);
}

/// Every receiver has an allowance of its own for an hour.
pub proof fn law_receivers_draw_from_their_hour(
    limiter: &mut FaucetAddressLimiter,
    address: [u8; 32],
    now_ns: u128,
    r: Result<u32, u128>,
)
    requires
        call_ensures(FaucetAddressLimiter::check, (limiter, &address, now_ns), r),
    ensures
        draws(
            old(limiter)@,
            old(limiter).capacity(),
            address@,
            old(limiter).limit(),
            3_600_000_000_000,
            now_ns,
            final(limiter)@,
            r,
        ),
        final(limiter).limit() == old(limiter).limit(),
        final(limiter).capacity() == old(limiter).capacity(),
{
    lemma_check_draws(
        old(limiter)@,
        old(limiter).capacity(),
        address@,
        old(limiter).limit(),
        3_600_000_000_000,
        now_ns,
    );
}

/// Every peer has an allowance of its own for a window.
pub proof fn law_peers_draw_from_their_window(
    limiter: &mut RateLimiter,
    ip: IpAddress,
    now_ns: u128,
    r: Result<u32, u128>,
)
    requires
        call_ensures(RateLimiter::check, (limiter, ip, now_ns), r),
    ensures
        draws(
            old(limiter)@,
            old(limiter).capacity(),
            ip_key(0, ip),
            old(limiter).limit(),
            old(limiter).window(),
            now_ns,
            final(limiter)@,
            r,
        ),
        final(limiter).limit() == old(limiter).limit(),
        final(limiter).window() == old(limiter).window(),
        final(limiter).capacity() == old(limiter).capacity(),
{
    lemma_check_draws(
        old(limiter)@,
        old(limiter).capacity(),
        ip_key(0, ip),
        old(limiter).limit(),
        old(limiter).window(),
        now_ns,
    );
}

/// Every peer has an allowance of its own for each class of endpoints and each
/// tier.
pub proof fn law_callers_draw_from_their_quota(
    manager: &mut QuotaManager,
    ip: IpAddress,
    tier: QuotaTier,
    class: EndpointClass,
    now_ns: u128,
    r: Result<(u32, QuotaTier), u128>,
)
    requires
        call_ensures(QuotaManager::check, (manager, ip, tier, class, now_ns), r),
    ensures
        draws(
            old(manager)@,
            old(manager).capacity(),
            ip_key(quota_group(class, tier), ip),
            old(manager).limit(class, tier),
            old(manager).window(),
            now_ns,
            final(manager)@,
            match r {
                Ok((left, _)) => Ok(left),
                Err(wait) => Err(wait),
            },
        ),
        r is Ok ==> r->Ok_0.1 == tier,
{
    lemma_check_draws(
        old(manager)@,
        old(manager).capacity(),
        ip_key(quota_group(class, tier), ip),
        old(manager).limit(class, tier),
        old(manager).window(),
        now_ns,
    );
}

/// The limit of a class of endpoints for a tier, as three times three numbers
/// give it.
pub open spec fn limit_given(
    query: [u32; 3],
    intent: [u32; 3],
    mcp: [u32; 3],
    class: EndpointClass,
    tier: QuotaTier,
) -> u32 {
    let of_class = match class {
        EndpointClass::Query => query@,
        EndpointClass::Intent => intent@,
        EndpointClass::Mcp => mcp@,
    };
    match tier {
        QuotaTier::Anonymous => of_class[0],
        QuotaTier::Authenticated => of_class[1],
        QuotaTier::Whitelisted => of_class[2],
    }
}

/// A new manager lets the first request of anyone pass where the limit of
/// their tier and class is not zero, and tells how many more there may be.
pub proof fn law_new_managers_apply_each_limit(
    query: [u32; 3],
    intent: [u32; 3],
    mcp: [u32; 3],
    keys: Vec<String>,
    manager: &mut QuotaManager,
    ip: IpAddress,
    tier: QuotaTier,
    class: EndpointClass,
    now_ns: u128,
    r: Result<(u32, QuotaTier), u128>,
)
    requires
        call_ensures(QuotaManager::new_per_class, (query, intent, mcp, keys), *old(manager)),
        call_ensures(QuotaManager::check, (manager, ip, tier, class, now_ns), r),
    ensures
        ({
            let limit = limit_given(query, intent, mcp, class, tier);
            &&& limit > 0 ==> r is Ok && r->Ok_0.0 + 1 == limit
            &&& limit == 0 ==> r == Err::<(u32, QuotaTier), u128>(60_000_000_000)
        }),
{
}

/// A manager with one limit for each tier applies it to every class.
pub proof fn law_new_managers_apply_each_tier(
    anonymous: u32,
    authenticated: u32,
    whitelisted: u32,
    keys: Vec<String>,
    manager: &mut QuotaManager,
    ip: IpAddress,
    tier: QuotaTier,
    class: EndpointClass,
    now_ns: u128,
    r: Result<(u32, QuotaTier), u128>,
)
    requires
        call_ensures(QuotaManager::new, (anonymous, authenticated, whitelisted, keys), *old(manager)),
        call_ensures(QuotaManager::check, (manager, ip, tier, class, now_ns), r),
    ensures
        ({
            let limit = match tier {
                QuotaTier::Anonymous => anonymous,
                QuotaTier::Authenticated => authenticated,
                QuotaTier::Whitelisted => whitelisted,
            };
            &&& limit > 0 ==> r is Ok && r->Ok_0.0 + 1 == limit
            &&& limit == 0 ==> r == Err::<(u32, QuotaTier), u128>(60_000_000_000)
        }),
{
    assert(old(manager).limit(class, tier) == match tier {
        QuotaTier::Anonymous => anonymous,
        QuotaTier::Authenticated => authenticated,
        QuotaTier::Whitelisted => whitelisted,
    });
}

/// A new limiter lets the first request of anyone pass, and tells how many
/// more there may be.
pub proof fn law_new_limiters_apply_their_limit(
    max_requests: u32,
    window_ns: u128,
    limiter: &mut RateLimiter,
    ip: IpAddress,
    max_per_hour: u32,
    faucet: &mut FaucetAddressLimiter,
    address: [u8; 32],
    now_ns: u128,
    r: Result<u32, u128>,
    f: Result<u32, u128>,
)
    requires
        call_ensures(RateLimiter::new, (max_requests, window_ns), *old(limiter)),
        call_ensures(RateLimiter::check, (limiter, ip, now_ns), r),
        call_ensures(FaucetAddressLimiter::new, (max_per_hour,), *old(faucet)),
        call_ensures(FaucetAddressLimiter::check, (faucet, &address, now_ns), f),
    ensures
        max_requests > 0 ==> r is Ok && r->Ok_0 + 1 == max_requests,
        max_requests == 0 ==> r == Err::<u32, u128>(window_ns),
        max_per_hour > 0 ==> f is Ok && f->Ok_0 + 1 == max_per_hour,
        max_per_hour == 0 ==> f == Err::<u32, u128>(3_600_000_000_000),
{
}

/// A caller without a key is anonymous, one with a key of the list is
/// whitelisted, and any other is authenticated.
pub proof fn law_keys_decide_on_the_tier(
    query: [u32; 3],
    intent: [u32; 3],
    mcp: [u32; 3],
    keys: Vec<String>,
    manager: QuotaManager,
    api_key: Option<&str>,
    tier: QuotaTier,
)
    requires
        call_ensures(QuotaManager::new_per_class, (query, intent, mcp, keys), manager),
        call_ensures(QuotaManager::resolve_tier, (&manager, api_key), tier),
    ensures
        tier is Anonymous <==> api_key is None,
        tier is Whitelisted <==> api_key is Some && exists|i: int|
            0 <= i < keys@.len() && (#[trigger] keys@[i])@ == api_key->Some_0@,
{
}

/// The class of an endpoint is told by the beginning of its path.
pub proof fn law_paths_decide_on_the_class(path: &str, class: Option<EndpointClass>)
    requires
        call_ensures(QuotaManager::resolve_class, (path,), class),
    ensures
        class == Some(EndpointClass::Query) ==> "/v2/contract/query"@.is_prefix_of(path@),
        class == Some(EndpointClass::Intent) ==> "/v2/intent/"@.is_prefix_of(path@),
        class == Some(EndpointClass::Mcp) ==> "/v2/mcp"@.is_prefix_of(path@),
        "/v2/contract/query"@.is_prefix_of(path@) ==> class == Some(EndpointClass::Query),
        "/v2/intent/"@.is_prefix_of(path@) && !"/v2/contract/query"@.is_prefix_of(path@) ==> class
            == Some(EndpointClass::Intent),
        class is None <==> !"/v2/contract/query"@.is_prefix_of(path@) && !"/v2/intent/"@.is_prefix_of(
            path@,
        ) && !"/v2/mcp"@.is_prefix_of(path@),
{
}

/// Whether a member holds a text under a name.
pub open spec fn says(m: (String, JsonValue), key: Seq<char>, text: Seq<char>) -> bool {
    m.0@ == key && m.1 is Text && m.1->Text_0@ == text
}

/// Whether a member holds a number under a name.
pub open spec fn counts(m: (String, JsonValue), key: Seq<char>, n: u64) -> bool {
    m.0@ == key && m.1 is Number && m.1->Number_0 == JsonNumber::Unsigned(n)
}

/// Where keys are configured, whoever wants more than to read has to show one
/// of them; everyone else passes.
pub proof fn law_writing_takes_a_key(
    keys: Vec<String>,
    method: &str,
    provided: Option<&str>,
    r: Option<Refusal>,
)
    requires
        call_ensures(api_key_decision, (&keys, method, provided), r),
    ensures
        keys@.len() == 0 ==> r is None,
        method@ == "GET"@ || method@ == "HEAD"@ || method@ == "OPTIONS"@ ==> r is None,
        provided is Some && (exists|i: int|
            0 <= i < keys@.len() && (#[trigger] keys@[i])@ == provided->Some_0@) ==> r is None,
        keys@.len() > 0 && method@ != "GET"@ && method@ != "HEAD"@ && method@ != "OPTIONS"@ && (
        provided is None || forall|i: int|
            0 <= i < keys@.len() ==> (#[trigger] keys@[i])@ != provided->Some_0@) ==> {
            &&& r is Some
            &&& r->Some_0.status == 401
            &&& r->Some_0.retry_after_secs is None
            &&& r->Some_0.body is Object
            &&& r->Some_0.body->Object_0@.len() == 2
            &&& says(r->Some_0.body->Object_0@[0], "error"@, "UNAUTHORIZED"@)
            &&& says(
                r->Some_0.body->Object_0@[1],
                "message"@,
                "missing or invalid x-api-key header"@,
            )
        },
{
}

/// Two texts are told to be equal exactly where they are.
pub proof fn law_keys_are_compared_whole(a: &[u8], b: &[u8], r: bool)
    requires
        call_ensures(constant_time_eq, (a, b), r),
    ensures
        r ==> a@.len() == b@.len(),
        r <==> a@.len() == b@.len() && forall|i: int| 0 <= i < a@.len() ==> a@[i] == b@[i],
{
    if a@.len() == b@.len() && forall|i: int| 0 <= i < a@.len() ==> a@[i] == b@[i] {
        assert(a@ =~= b@);
    }
}

proof fn lemma_header_texts(origins: Seq<String>)
    ensures
        header_texts(origins) == origins.filter(
            |s: String| is_header_text(encode_utf8(s@)),
        ).map_values(|s: String| s@),
    decreases origins.len(),
{
    reveal(Seq::filter);
    let pred = |s: String| is_header_text(encode_utf8(s@));
    let text = |s: String| s@;
    if origins.len() > 0 {
        let rest = origins.drop_last();
        lemma_header_texts(rest);
        if pred(origins.last()) {
            assert(rest.filter(pred).push(origins.last()).map_values(text) =~= rest.filter(
                pred,
            ).map_values(text).push(origins.last()@));
        }
    } else {
        assert(origins.filter(pred) =~= Seq::<String>::empty());
        assert(origins.filter(pred).map_values(text) =~= Seq::<Seq<char>>::empty());
    }
}

/// Whether a text can be the value of a header: no control characters but the
/// tabulator.
pub open spec fn fits_header(text: Seq<char>) -> bool {
    let bytes = encode_utf8(text);
    forall|i: int| 0 <= i < bytes.len() ==> #[trigger] bytes[i] == 9 || (bytes[i] >= 32 && bytes[i] != 127)
}

/// No origin is allowed where none is configured, every one where the only one
/// is a star, and else those that are configured and can stand in a header.
pub proof fn law_configured_origins_are_allowed(origins: Vec<String>, r: CorsOrigins)
    requires
        call_ensures(cors_origins, (&origins,), r),
    ensures
        r is Closed <==> origins@.len() == 0,
        r is Any <==> origins@.len() == 1 && origins@[0]@ == "*"@,
        r is Listed ==> r->Listed_0@.map_values(|s: String| s@) == origins@.filter(
            |s: String| fits_header(s@),
        ).map_values(|s: String| s@),
{
    lemma_header_texts(origins@);
    assert forall|s: String| is_header_text(encode_utf8(s@)) <==> fits_header(s@) by {
        let bytes = encode_utf8(s@);
        if is_header_text(bytes) {
            assert forall|i: int| 0 <= i < bytes.len() implies #[trigger] bytes[i] == 9 || (bytes[i]
                >= 32 && bytes[i] != 127) by {}
        }
    }
    assert((|s: String| is_header_text(encode_utf8(s@))) =~= (|s: String| fits_header(s@)));
}

/// The whole seconds of a time are the largest number of them that fits in.
pub proof fn law_whole_seconds_fit(ns: u128, r: u64)
    requires
        call_ensures(whole_seconds, (ns,), r),
    ensures
        r * 1_000_000_000 <= ns,
        r < 0xffff_ffff_ffff_ffff ==> ns < (r + 1) * 1_000_000_000,
{
}

/// Whether a decision refuses with the time to wait in whole seconds.
pub open spec fn told_to_wait(d: LimitDecision, wait_ns: u128) -> bool {
    &&& d is Refuse
    &&& d->Refuse_0.status == 429
    &&& d->Refuse_0.retry_after_secs is Some
    &&& d->Refuse_0.retry_after_secs->Some_0 * 1_000_000_000 <= wait_ns
    &&& d->Refuse_0.retry_after_secs->Some_0 < 0xffff_ffff_ffff_ffff ==> wait_ns < (
    d->Refuse_0.retry_after_secs->Some_0 + 1) * 1_000_000_000
    &&& d->Refuse_0.body is Object
}

/// Whoever passes is told how many requests are left, and whoever does not how
/// long to wait.
pub proof fn law_peers_are_told_their_allowance(outcome: Result<u32, u128>, d: LimitDecision)
    requires
        call_ensures(rate_limit_reply, (outcome,), d),
    ensures
        outcome is Ok ==> {
            &&& d is PassWithHeaders
            &&& d->PassWithHeaders_0@.len() == 1
            &&& d->PassWithHeaders_0@[0].0@ == "x-ratelimit-remaining"@
            &&& d->PassWithHeaders_0@[0].1@ == decimal(outcome->Ok_0 as nat)
        },
        outcome is Err ==> {
            &&& told_to_wait(d, outcome->Err_0)
            &&& d->Refuse_0.body->Object_0@.len() == 3
            &&& says(d->Refuse_0.body->Object_0@[0], "error"@, "TOO_MANY_REQUESTS"@)
            &&& says(d->Refuse_0.body->Object_0@[1], "message"@, "rate limit exceeded"@)
            &&& counts(
                d->Refuse_0.body->Object_0@[2],
                "retry_after_secs"@,
                d->Refuse_0.retry_after_secs->Some_0,
            )
        },
{
}

/// What a tier and a class of endpoints are called.
pub open spec fn tier_called(tier: QuotaTier) -> Seq<char> {
    match tier {
        QuotaTier::Anonymous => "anonymous"@,
        QuotaTier::Authenticated => "authenticated"@,
        QuotaTier::Whitelisted => "whitelisted"@,
    }
}

/// What a class of endpoints is called.
pub open spec fn class_called(class: EndpointClass) -> Seq<char> {
    match class {
        EndpointClass::Query => "query"@,
        EndpointClass::Intent => "intent"@,
        EndpointClass::Mcp => "mcp"@,
    }
}

/// Whoever passes is told their tier, the class and how many requests are
/// left, and whoever does not how long to wait.
pub proof fn law_callers_are_told_their_quota(
    class: EndpointClass,
    tier: QuotaTier,
    outcome: Result<(u32, QuotaTier), u128>,
    d: LimitDecision,
)
    requires
        call_ensures(quota_reply, (class, tier, outcome), d),
    ensures
        outcome is Ok ==> {
            &&& d is PassWithHeaders
            &&& d->PassWithHeaders_0@.len() == 3
            &&& d->PassWithHeaders_0@[0].0@ == "x-quota-tier"@
            &&& d->PassWithHeaders_0@[0].1@ == tier_called(outcome->Ok_0.1)
            &&& d->PassWithHeaders_0@[1].0@ == "x-quota-class"@
            &&& d->PassWithHeaders_0@[1].1@ == class_called(class)
            &&& d->PassWithHeaders_0@[2].0@ == "x-quota-remaining"@
            &&& d->PassWithHeaders_0@[2].1@ == decimal(outcome->Ok_0.0 as nat)
        },
        outcome is Err ==> {
            &&& told_to_wait(d, outcome->Err_0)
            &&& d->Refuse_0.body->Object_0@.len() == 5
            &&& says(d->Refuse_0.body->Object_0@[0], "error"@, "QUOTA_EXCEEDED"@)
            &&& says(
                d->Refuse_0.body->Object_0@[1],
                "message"@,
                "quota exceeded for "@ + class_called(class) + "/"@ + tier_called(tier),
            )
            &&& says(d->Refuse_0.body->Object_0@[2], "tier"@, tier_called(tier))
            &&& says(d->Refuse_0.body->Object_0@[3], "endpoint_class"@, class_called(class))
            &&& counts(
                d->Refuse_0.body->Object_0@[4],
                "retry_after_secs"@,
                d->Refuse_0.retry_after_secs->Some_0,
            )
        },
{
}

/// Whether a request counts for an address: that of the peer, or the local one
/// where the peer is not known.
pub open spec fn counts_for(peer: Option<IpAddress>, ip: IpAddress) -> bool {
    match peer {
        Some(known) => ip == known,
        None => ip is V4 && ip->V4_0@ == seq![127u8, 0, 0, 1],
    }
}

/// Without a limiter everything passes; with one, a request passes exactly
/// where its peer has requests left, and takes one of them.
pub proof fn law_requests_are_limited_by_peer(
    limiter: &mut Option<RateLimiter>,
    peer: Option<IpAddress>,
    now_ns: u128,
    d: LimitDecision,
)
    requires
        call_ensures(rate_limit_decision, (limiter, peer, now_ns), d),
    ensures
        *old(limiter) is None ==> d is Pass && *final(limiter) is None,
        *old(limiter) is Some ==> *final(limiter) is Some && exists|
            ip: IpAddress,
            r: Result<u32, u128>,
        |
            {
                &&& counts_for(peer, ip)
                &&& #[trigger] draws(
                    (*old(limiter))->Some_0@,
                    (*old(limiter))->Some_0.capacity(),
                    ip_key(0, ip),
                    (*old(limiter))->Some_0.limit(),
                    (*old(limiter))->Some_0.window(),
                    now_ns,
                    (*final(limiter))->Some_0@,
                    r,
                )
                &&& r is Ok ==> d is PassWithHeaders
                &&& r is Err ==> told_to_wait(d, r->Err_0)
            },
{
    if *old(limiter) is Some {
        let before = (*old(limiter))->Some_0;
        let after = (*final(limiter))->Some_0;
        let ip = choose|ip: IpAddress|
            {
                &&& #[trigger] counted_ip(peer, ip)
                &&& rate_decided(d, before.outcome(ip, now_ns))
                &&& after@ == after_check(
                    before@,
                    before.capacity(),
                    ip_key(0, ip),
                    before.limit(),
                    before.window(),
                    now_ns,
                )
            };
        lemma_check_draws(
            before@,
            before.capacity(),
            ip_key(0, ip),
            before.limit(),
            before.window(),
            now_ns,
        );
        assert(draws(
            before@,
            before.capacity(),
            ip_key(0, ip),
            before.limit(),
            before.window(),
            now_ns,
            after@,
            before.outcome(ip, now_ns),
        ));
    }
}

/// Without a manager everything passes, and so does reading and whatever is of
/// no class; everything else passes exactly where the caller has requests left
/// for the class in their tier, and takes one of them.
pub proof fn law_requests_are_limited_by_quota(
    manager: &mut Option<QuotaManager>,
    method: &str,
    path: &str,
    peer: Option<IpAddress>,
    api_key: Option<&str>,
    now_ns: u128,
    d: LimitDecision,
    class: Option<EndpointClass>,
    tier: QuotaTier,
)
    requires
        call_ensures(quota_decision, (manager, method, path, peer, api_key, now_ns), d),
        call_ensures(QuotaManager::resolve_class, (path,), class),
        *old(manager) is Some ==> call_ensures(
            QuotaManager::resolve_tier,
            (&(*old(manager))->Some_0, api_key),
            tier,
        ),
    ensures
        *old(manager) is None ==> d is Pass && *final(manager) is None,
        *old(manager) is Some && (method@ == "GET"@ || class is None) ==> d is Pass
            && *final(manager) is Some && (*final(manager))->Some_0@ == (*old(manager))->Some_0@,
        *old(manager) is Some && method@ != "GET"@ && class is Some ==> *final(manager) is Some
            && exists|ip: IpAddress, r: Result<u32, u128>|
            {
                &&& counts_for(peer, ip)
                &&& #[trigger] draws(
                    (*old(manager))->Some_0@,
                    (*old(manager))->Some_0.capacity(),
                    ip_key(quota_group(class->Some_0, tier), ip),
                    (*old(manager))->Some_0.limit(class->Some_0, tier),
                    (*old(manager))->Some_0.window(),
                    now_ns,
                    (*final(manager))->Some_0@,
                    r,
                )
                &&& r is Ok ==> d is PassWithHeaders
                &&& r is Err ==> told_to_wait(d, r->Err_0)
            },
{
    if *old(manager) is Some && method@ != "GET"@ && class is Some {
        let before = (*old(manager))->Some_0;
        let after = (*final(manager))->Some_0;
        let c = class->Some_0;
        let ip = choose|ip: IpAddress|
            {
                &&& #[trigger] counted_ip(peer, ip)
                &&& quota_decided(
                    d,
                    c,
                    tier,
                    with_tier(before.outcome(ip, tier, c, now_ns), tier),
                )
                &&& after@ == before.buckets_after(ip, tier, c, now_ns)
            };
        lemma_check_draws(
            before@,
            before.capacity(),
            ip_key(quota_group(c, tier), ip),
            before.limit(c, tier),
            before.window(),
            now_ns,
        );
        assert(draws(
            before@,
            before.capacity(),
            ip_key(quota_group(c, tier), ip),
            before.limit(c, tier),
            before.window(),
            now_ns,
            after@,
            before.outcome(ip, tier, c, now_ns),
        ));
    }
}

/// Whether a text is what is known, or a dash where nothing is.
pub open spec fn text_or_nothing(text: Seq<char>, known: Option<&str>) -> bool {
    match known {
        Some(t) => text == t@,
        None => text == "-"@,
    }
}

/// An audit record says what was asked and answered, each under its own name.
pub proof fn law_audit_records_say_what_was_asked(
    method: &str,
    path: &str,
    status: u16,
    latency_ms: u64,
    peer: Option<IpAddress>,
    request_id: Option<&str>,
    tier: Option<&str>,
    class: Option<&str>,
    r: AuditRecord,
)
    requires
        call_ensures(
            audit_record,
            (method, path, status, latency_ms, peer, request_id, tier, class),
            r,
        ),
    ensures
        r.method@ == method@ && r.path@ == path@ && r.status == status && r.latency_ms == latency_ms,
        counts_for(peer, r.ip),
        text_or_nothing(r.request_id@, request_id),
        text_or_nothing(r.tier@, tier),
        text_or_nothing(r.endpoint_class@, class),
{
}

/// What is made with a size of its own has that size, and the limits it was
/// given.
pub proof fn law_sized_limiters_keep_their_size(
    limit: u32,
    window_ns: u128,
    n: usize,
    faucet: FaucetAddressLimiter,
    peers: RateLimiter,
    query: [u32; 3],
    intent: [u32; 3],
    mcp: [u32; 3],
    keys: Vec<String>,
    quotas: QuotaManager,
    buckets: TokenBuckets,
)
    requires
        call_ensures(FaucetAddressLimiter::with_max_entries, (limit, n), faucet),
        call_ensures(RateLimiter::with_max_entries, (limit, window_ns, n), peers),
        call_ensures(
            QuotaManager::with_max_entries,
            (query, intent, mcp, keys, window_ns, n),
            quotas,
        ),
        call_ensures(TokenBuckets::new, (n,), buckets),
    ensures
        faucet.limit() == limit && faucet.capacity() == n,
        peers.limit() == limit && peers.window() == window_ns && peers.capacity() == n,
        quotas.limit(EndpointClass::Query, QuotaTier::Anonymous) == query@[0],
        quotas.limit(EndpointClass::Query, QuotaTier::Authenticated) == query@[1],
        quotas.limit(EndpointClass::Query, QuotaTier::Whitelisted) == query@[2],
        quotas.limit(EndpointClass::Intent, QuotaTier::Anonymous) == intent@[0],
        quotas.limit(EndpointClass::Intent, QuotaTier::Authenticated) == intent@[1],
        quotas.limit(EndpointClass::Intent, QuotaTier::Whitelisted) == intent@[2],
        quotas.limit(EndpointClass::Mcp, QuotaTier::Anonymous) == mcp@[0],
        quotas.limit(EndpointClass::Mcp, QuotaTier::Authenticated) == mcp@[1],
        quotas.limit(EndpointClass::Mcp, QuotaTier::Whitelisted) == mcp@[2],
        quotas.whitelist() == keys@ && quotas.window() == window_ns && quotas.capacity() == n,
        buckets.capacity() == n,
        faucet@.dom().is_empty() && peers@.dom().is_empty() && quotas@.dom().is_empty()
            && buckets@.dom().is_empty(),
{
    assert(QuotaTier::Anonymous.rank() == 0 && QuotaTier::Authenticated.rank() == 1
        && QuotaTier::Whitelisted.rank() == 2);
}

/// Tiers and classes are called by their names.
pub proof fn law_tiers_and_classes_are_named(
    tier: QuotaTier,
    tier_name: String,
    class: EndpointClass,
    class_name: String,
    local: IpAddress,
)
    requires
        call_ensures(QuotaTier::to_string, (tier,), tier_name),
        call_ensures(EndpointClass::to_string, (class,), class_name),
        call_ensures(IpAddress::localhost, (), local),
    ensures
        tier is Anonymous ==> tier_name@ == "anonymous"@,
        tier is Authenticated ==> tier_name@ == "authenticated"@,
        tier is Whitelisted ==> tier_name@ == "whitelisted"@,
        class is Query ==> class_name@ == "query"@,
        class is Intent ==> class_name@ == "intent"@,
        class is Mcp ==> class_name@ == "mcp"@,
        local is V4 && local->V4_0@ == seq![127u8, 0, 0, 1],
{
}

} // verus!
