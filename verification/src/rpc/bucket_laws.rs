//! What holds of token buckets over many requests.

use vstd::prelude::*;

use crate::rpc::buckets::{
    after_check, check_outcome, current_bucket, expired, live_buckets, with_room_made, Bucket,
    FULL_TABLE_RETRY_NS,
};

verus! {

/// The buckets after the requests `checks`, each by a key at a time, of a
/// table that was empty. The key `k` may make `limits(k)` requests within a
/// window.
pub open spec fn buckets_after(
    max_entries: int,
    limits: spec_fn(Seq<u8>) -> u32,
    window_ns: u128,
    checks: Seq<(Seq<u8>, u128)>,
) -> Map<Seq<u8>, Bucket>
    decreases checks.len(),
{
    if checks.len() == 0 {
        Map::empty()
    } else {
        let (key, now_ns) = checks.last();
        after_check(
            buckets_after(max_entries, limits, window_ns, checks.drop_last()),
            max_entries,
            key,
            limits(key),
            window_ns,
            now_ns,
        )
    }
}

/// How many of the requests `checks` are by `key`.
pub open spec fn requests_by(key: Seq<u8>, checks: Seq<(Seq<u8>, u128)>) -> nat
    decreases checks.len(),
{
    if checks.len() == 0 {
        0
    } else {
        requests_by(key, checks.drop_last()) + if checks.last().0 == key {
            1nat
        } else {
            0nat
        }
    }
}

/// How many of the requests `checks` are by `key` and admitted.
pub open spec fn admissions_of(
    key: Seq<u8>,
    max_entries: int,
    limits: spec_fn(Seq<u8>) -> u32,
    window_ns: u128,
    checks: Seq<(Seq<u8>, u128)>,
) -> nat
    decreases checks.len(),
{
    if checks.len() == 0 {
        0
    } else {
        let (by, now_ns) = checks.last();
        let before = buckets_after(max_entries, limits, window_ns, checks.drop_last());
        admissions_of(key, max_entries, limits, window_ns, checks.drop_last()) + if by == key
            && check_outcome(before, max_entries, by, limits(by), window_ns, now_ns) is Ok {
            1nat
        } else {
            0nat
        }
    }
}

/// Whether every request is made at or after `from_ns` and less than a window
/// later.
pub open spec fn within_window(checks: Seq<(Seq<u8>, u128)>, from_ns: u128, window_ns: u128) -> bool {
    forall|i: int|
        0 <= i < checks.len() ==> from_ns <= (#[trigger] checks[i]).1 < from_ns + window_ns
}

/// Whether the table has room whenever `key` makes one of the requests
/// `checks`: there are fewer buckets than there may be.
pub open spec fn room_for(
    key: Seq<u8>,
    max_entries: int,
    limits: spec_fn(Seq<u8>) -> u32,
    window_ns: u128,
    checks: Seq<(Seq<u8>, u128)>,
) -> bool {
    forall|n: int|
        0 <= n < checks.len() && (#[trigger] checks[n]).0 == key ==> buckets_after(
            max_entries,
            limits,
            window_ns,
            checks.take(n),
        ).dom().len() < max_entries
}

/// What the request with the number `n` is answered.
pub open spec fn outcome_at(
    max_entries: int,
    limits: spec_fn(Seq<u8>) -> u32,
    window_ns: u128,
    checks: Seq<(Seq<u8>, u128)>,
    n: int,
) -> Result<u32, u128> {
    check_outcome(
        buckets_after(max_entries, limits, window_ns, checks.take(n)),
        max_entries,
        checks[n].0,
        limits(checks[n].0),
        window_ns,
        checks[n].1,
    )
}

proof fn lemma_run(
    key: Seq<u8>,
    max_entries: int,
    limits: spec_fn(Seq<u8>) -> u32,
    window_ns: u128,
    from_ns: u128,
    checks: Seq<(Seq<u8>, u128)>,
)
    requires
        within_window(checks, from_ns, window_ns),
    ensures
        ({
            let buckets = buckets_after(max_entries, limits, window_ns, checks);
            let admitted = admissions_of(key, max_entries, limits, window_ns, checks);
            let asked = requests_by(key, checks);
            &&& buckets.dom().finite()
            &&& forall|k: Seq<u8>| #[trigger]
                buckets.dom().contains(k) ==> from_ns <= buckets[k].start_ns
            &&& buckets.dom().contains(key) ==> buckets[key].tokens + admitted == limits(key)
            &&& !buckets.dom().contains(key) ==> admitted == 0
            &&& room_for(key, max_entries, limits, window_ns, checks) ==> {
                &&& admitted <= asked
                &&& admitted == asked || admitted == limits(key)
                &&& !buckets.dom().contains(key) ==> asked == 0
            }
        }),
    decreases checks.len(),
{
    if checks.len() > 0 {
        let earlier = checks.drop_last();
        let (by, now_ns) = checks.last();
        assert(within_window(earlier, from_ns, window_ns)) by {
            assert forall|i: int| 0 <= i < earlier.len() implies from_ns <= (#[trigger] earlier[i]).1
                < from_ns + window_ns by {
                assert(earlier[i] == checks[i]);
            }
        }
        lemma_run(key, max_entries, limits, window_ns, from_ns, earlier);
        let before = buckets_after(max_entries, limits, window_ns, earlier);
        let after = buckets_after(max_entries, limits, window_ns, checks);
        assert(checks[checks.len() - 1] == checks.last());
        assert(checks.take(checks.len() - 1) =~= earlier);
        if room_for(key, max_entries, limits, window_ns, checks) {
            assert forall|n: int|
                0 <= n < earlier.len() && (#[trigger] earlier[n]).0 == key implies buckets_after(
                max_entries,
                limits,
                window_ns,
                earlier.take(n),
            ).dom().len() < max_entries by {
                assert(earlier[n] == checks[n]);
                assert(earlier.take(n) =~= checks.take(n));
            }
        }
        assert forall|k: Seq<u8>| #[trigger] before.dom().contains(k) implies !expired(
            before[k],
            window_ns,
            now_ns,
        ) by {
            assert(from_ns <= before[k].start_ns);
        }
        assert(live_buckets(before, window_ns, now_ns) =~= before);
        let kept = with_room_made(before, max_entries, window_ns, now_ns);
        assert(kept == before);
        let bucket = current_bucket(before, by, limits(by), window_ns, now_ns);
        if before.dom().len() < max_entries {
            assert(after.dom() =~= before.dom().insert(by));
        }
    }
}

/// Within one window no key is admitted more often than its limit, however
/// many keys make requests and whether or not the table is full.
pub proof fn law_limit_is_never_exceeded(
    key: Seq<u8>,
    max_entries: int,
    limits: spec_fn(Seq<u8>) -> u32,
    window_ns: u128,
    from_ns: u128,
    checks: Seq<(Seq<u8>, u128)>,
)
    requires
        within_window(checks, from_ns, window_ns),
    ensures
        admissions_of(key, max_entries, limits, window_ns, checks) <= limits(key),
{
    lemma_run(key, max_entries, limits, window_ns, from_ns, checks);
}

/// While the table has room for a key, exactly its first requests up to its
/// limit are admitted within one window, whatever other keys do. Each that is
/// admitted is told how many are left, and each that is refused to wait no
/// longer than a window.
pub proof fn law_limit_is_exact(
    key: Seq<u8>,
    max_entries: int,
    limits: spec_fn(Seq<u8>) -> u32,
    window_ns: u128,
    from_ns: u128,
    checks: Seq<(Seq<u8>, u128)>,
)
    requires
        within_window(checks, from_ns, window_ns),
        room_for(key, max_entries, limits, window_ns, checks),
    ensures
        admissions_of(key, max_entries, limits, window_ns, checks) == if requests_by(key, checks)
            <= limits(key) {
            requests_by(key, checks)
        } else {
            limits(key) as nat
        },
        forall|n: int|
            0 <= n < checks.len() && (#[trigger] checks[n]).0 == key ==> match outcome_at(
                max_entries,
                limits,
                window_ns,
                checks,
                n,
            ) {
                Ok(left) => requests_by(key, checks.take(n)) + 1 + left == limits(key),
                Err(wait_ns) => {
                    &&& requests_by(key, checks.take(n)) >= limits(key)
                    &&& 0 < wait_ns <= window_ns
                },
            },
{
    lemma_run(key, max_entries, limits, window_ns, from_ns, checks);
    assert forall|n: int|
        0 <= n < checks.len() && (#[trigger] checks[n]).0 == key implies match outcome_at(
        max_entries,
        limits,
        window_ns,
        checks,
        n,
    ) {
        Ok(left) => requests_by(key, checks.take(n)) + 1 + left == limits(key),
        Err(wait_ns) => {
            &&& requests_by(key, checks.take(n)) >= limits(key)
            &&& 0 < wait_ns <= window_ns
        },
    } by {
        let earlier = checks.take(n);
        assert forall|i: int| 0 <= i < earlier.len() implies from_ns <= (#[trigger] earlier[i]).1
            < from_ns + window_ns by {
            assert(earlier[i] == checks[i]);
        }
        assert forall|i: int|
            0 <= i < earlier.len() && (#[trigger] earlier[i]).0 == key implies buckets_after(
            max_entries,
            limits,
            window_ns,
            earlier.take(i),
        ).dom().len() < max_entries by {
            assert(earlier[i] == checks[i]);
            assert(earlier.take(i) =~= checks.take(i));
        }
        lemma_run(key, max_entries, limits, window_ns, from_ns, earlier);
        let before = buckets_after(max_entries, limits, window_ns, earlier);
        assert(with_room_made(before, max_entries, window_ns, checks[n].1) == before);
    }
}

/// A request by one key takes nothing from another: the other's bucket stays
/// as it is, or is dropped because its window is over.
pub proof fn law_buckets_are_independent(
    buckets: Map<Seq<u8>, Bucket>,
    max_entries: int,
    key: Seq<u8>,
    other: Seq<u8>,
    limit: u32,
    window_ns: u128,
    now_ns: u128,
)
    requires
        key != other,
        buckets.dom().contains(other),
    ensures
        ({
            let after = after_check(buckets, max_entries, key, limit, window_ns, now_ns);
            ||| after.dom().contains(other) && after[other] == buckets[other]
            ||| !after.dom().contains(other) && expired(buckets[other], window_ns, now_ns)
        }),
{
}

/// A key whose window is over starts anew with its full limit, as long as the
/// table has room.
pub proof fn law_window_resets(
    buckets: Map<Seq<u8>, Bucket>,
    max_entries: int,
    key: Seq<u8>,
    limit: u32,
    window_ns: u128,
    now_ns: u128,
)
    requires
        buckets.dom().len() < max_entries,
        buckets.dom().contains(key),
        expired(buckets[key], window_ns, now_ns),
        limit > 0,
    ensures
        check_outcome(buckets, max_entries, key, limit, window_ns, now_ns) == Ok::<u32, u128>(
            (limit - 1) as u32,
        ),
{
}

/// A full table none of whose windows is over refuses every request, and stays
/// as it is.
pub proof fn law_full_table_refuses(
    buckets: Map<Seq<u8>, Bucket>,
    max_entries: int,
    key: Seq<u8>,
    limit: u32,
    window_ns: u128,
    now_ns: u128,
)
    requires
        buckets.dom().len() >= max_entries,
        forall|k: Seq<u8>| #[trigger]
            buckets.dom().contains(k) ==> !expired(buckets[k], window_ns, now_ns),
    ensures
        check_outcome(buckets, max_entries, key, limit, window_ns, now_ns) == Err::<u32, u128>(
            FULL_TABLE_RETRY_NS,
        ),
        after_check(buckets, max_entries, key, limit, window_ns, now_ns) == buckets,
{
    assert(live_buckets(buckets, window_ns, now_ns) =~= buckets);
}

/// A key that is refused for want of tokens and waits as long as it is told is
/// then admitted, as long as the table has room.
pub proof fn law_waiting_helps(
    buckets: Map<Seq<u8>, Bucket>,
    max_entries: int,
    key: Seq<u8>,
    limit: u32,
    window_ns: u128,
    now_ns: u128,
    later_ns: u128,
)
    requires
        buckets.dom().finite(),
        buckets.dom().len() < max_entries,
        buckets.dom().contains(key),
        buckets[key].start_ns <= now_ns,
        limit > 0,
        check_outcome(buckets, max_entries, key, limit, window_ns, now_ns) is Err,
        later_ns >= now_ns + check_outcome(
            buckets,
            max_entries,
            key,
            limit,
            window_ns,
            now_ns,
        )->Err_0,
    ensures
        check_outcome(
            after_check(buckets, max_entries, key, limit, window_ns, now_ns),
            max_entries,
            key,
            limit,
            window_ns,
            later_ns,
        ) is Ok,
{
    let after = after_check(buckets, max_entries, key, limit, window_ns, now_ns);
    assert(after.dom() =~= buckets.dom());
}

} // verus!
