//! Token buckets: how many requests a key may make within a window of time.
//!
//! The number of buckets is bounded. When there is no room for another one,
//! expired buckets are dropped, and while there still is none every request is
//! refused.

use vstd::prelude::*;

use crate::primitives::lex::{lemma_lex_irreflexive, lex_lt};
use crate::primitives::table::KeyTable;

verus! {

/// How long a request that finds no room is told to wait.
pub const FULL_TABLE_RETRY_NS: u128 = 60_000_000_000;

/// The whole seconds in a time of `ns` nanoseconds, as far as they can be
/// counted.
pub open spec fn whole_secs(ns: u128) -> u64 {
    if ns / 1_000_000_000 <= u64::MAX {
        (ns / 1_000_000_000) as u64
    } else {
        u64::MAX
    }
}

/// The whole seconds in a time of `ns` nanoseconds, as far as they can be
/// counted.
pub fn whole_seconds(ns: u128) -> (r: u64)
    ensures
        r == whole_secs(ns),
{
    let secs: u128 = ns / 1_000_000_000;
    if secs <= u64::MAX as u128 {
        secs as u64
    } else {
        u64::MAX
    }
}

/// What is left of a key's allowance.
#[derive(Debug, Clone, Copy, PartialEq, Eq, Structural)]
pub struct Bucket {
    /// Requests that may still be made in the window.
    pub tokens: u32,
    /// When the window began, in nanoseconds.
    pub start_ns: u128,
}

/// The time from `start_ns` to `now_ns`, which is nothing where the clock ran
/// backwards.
pub open spec fn elapsed(start_ns: u128, now_ns: u128) -> int {
    if now_ns > start_ns {
        now_ns - start_ns
    } else {
        0
    }
}

/// Whether the window of a bucket is over.
pub open spec fn expired(bucket: Bucket, window_ns: u128, now_ns: u128) -> bool {
    elapsed(bucket.start_ns, now_ns) >= window_ns
}

/// The buckets whose window is not over.
pub open spec fn live_buckets(
    buckets: Map<Seq<u8>, Bucket>,
    window_ns: u128,
    now_ns: u128,
) -> Map<Seq<u8>, Bucket> {
    Map::new(
        |k: Seq<u8>| buckets.dom().contains(k) && !expired(buckets[k], window_ns, now_ns),
        |k: Seq<u8>| buckets[k],
    )
}

/// The buckets that are left when room is made, which is only where the table
/// is full.
pub open spec fn with_room_made(
    buckets: Map<Seq<u8>, Bucket>,
    max_entries: int,
    window_ns: u128,
    now_ns: u128,
) -> Map<Seq<u8>, Bucket> {
    if buckets.dom().len() >= max_entries {
        live_buckets(buckets, window_ns, now_ns)
    } else {
        buckets
    }
}

/// The bucket that a request by `key` draws from: a full one where the key has
/// none or its window is over.
pub open spec fn current_bucket(
    buckets: Map<Seq<u8>, Bucket>,
    key: Seq<u8>,
    limit: u32,
    window_ns: u128,
    now_ns: u128,
) -> Bucket {
    if buckets.dom().contains(key) && !expired(buckets[key], window_ns, now_ns) {
        buckets[key]
    } else {
        Bucket { tokens: limit, start_ns: now_ns }
    }
}

/// What a request by `key` is answered, with the requests that the key may
/// still make or the time that it has to wait.
pub open spec fn check_outcome(
    buckets: Map<Seq<u8>, Bucket>,
    max_entries: int,
    key: Seq<u8>,
    limit: u32,
    window_ns: u128,
    now_ns: u128,
) -> Result<u32, u128> {
    let kept = with_room_made(buckets, max_entries, window_ns, now_ns);
    let bucket = current_bucket(kept, key, limit, window_ns, now_ns);
    if kept.dom().len() >= max_entries {
        Err(FULL_TABLE_RETRY_NS)
    } else if bucket.tokens > 0 {
        Ok((bucket.tokens - 1) as u32)
    } else if window_ns >= elapsed(bucket.start_ns, now_ns) {
        Err((window_ns - elapsed(bucket.start_ns, now_ns)) as u128)
    } else {
        Err(0)
    }
}

/// The buckets after a request by `key`.
pub open spec fn after_check(
    buckets: Map<Seq<u8>, Bucket>,
    max_entries: int,
    key: Seq<u8>,
    limit: u32,
    window_ns: u128,
    now_ns: u128,
) -> Map<Seq<u8>, Bucket> {
    let kept = with_room_made(buckets, max_entries, window_ns, now_ns);
    let bucket = current_bucket(kept, key, limit, window_ns, now_ns);
    if kept.dom().len() >= max_entries {
        kept
    } else if bucket.tokens > 0 {
        kept.insert(key, Bucket { tokens: (bucket.tokens - 1) as u32, start_ns: bucket.start_ns })
    } else {
        kept.insert(key, bucket)
    }
}

/// A bounded number of token buckets, by 32-byte keys.
pub struct TokenBuckets {
    table: KeyTable<Bucket>,
    max_entries: usize,
}

fn elapsed_since(start_ns: u128, now_ns: u128) -> (r: u128)
    ensures
        r == elapsed(start_ns, now_ns),
{
    if now_ns > start_ns {
        now_ns - start_ns
    } else {
        0
    }
}

impl View for TokenBuckets {
    type V = Map<Seq<u8>, Bucket>;

    closed spec fn view(&self) -> Map<Seq<u8>, Bucket> {
        self.table@
    }
}

impl TokenBuckets {
    /// The table is in order and holds no more buckets than it may.
    pub closed spec fn wf(&self) -> bool {
        &&& self.table.wf()
        &&& self.table.size() <= self.max_entries
    }

    /// The number of buckets that there may be.
    pub closed spec fn capacity(&self) -> int {
        self.max_entries as int
    }

    /// There are finitely many buckets, no more than there may be.
    pub proof fn law_buckets_are_bounded(&self)
        requires
            self.wf(),
        ensures
            self@.dom().finite(),
            self@.dom().len() <= self.capacity(),
    {
        self.table.lemma_size();
    }

    /// A table without buckets.
    pub fn new(max_entries: usize) -> (r: Self)
        ensures
            r.wf(),
            r@ == Map::<Seq<u8>, Bucket>::empty(),
            r.capacity() == max_entries,
    {
        TokenBuckets { table: KeyTable::new(), max_entries }
    }

    /// Drops the buckets whose window is over.
    fn purge(&mut self, window_ns: u128, now_ns: u128)
        requires
            old(self).wf(),
        ensures
            final(self).wf(),
            final(self)@ == live_buckets(old(self)@, window_ns, now_ns),
            final(self).capacity() == old(self).capacity(),
    {
        let ghost all = self@;
        let n: usize = self.table.len();
        let mut kept: KeyTable<Bucket> = KeyTable::new();
        let mut i: usize = 0;
        proof {
            self.table.lemma_positions();
            assert(kept@.dom() =~= Set::empty());
        }
        while i < n
            invariant
                0 <= i <= n,
                n == self.table.size(),
                *self == *old(self),
                self.table.wf(),
                self.table@ == all,
                kept.wf(),
                kept.size() <= i,
                forall|k: int|
                    0 <= k < n ==> all.dom().contains(#[trigger] self.table.key_in_order(k)),
                forall|a: int, b: int|
                    0 <= a < b < n ==> lex_lt(
                        #[trigger] self.table.key_in_order(a),
                        #[trigger] self.table.key_in_order(b),
                    ),
                forall|k: Seq<u8>| #[trigger]
                    kept@.dom().contains(k) ==> exists|a: int|
                        0 <= a < i && #[trigger] self.table.key_in_order(a) == k,
                forall|a: int|
                    #![trigger self.table.key_in_order(a)]
                    0 <= a < i ==> (kept@.dom().contains(self.table.key_in_order(a)) <==> !expired(
                        all[self.table.key_in_order(a)],
                        window_ns,
                        now_ns,
                    )),
                forall|k: Seq<u8>| #[trigger] kept@.dom().contains(k) ==> kept@[k] == all[k],
            decreases n - i,
        {
            let key = self.table.key_at(i);
            let bucket: Bucket = *self.table.value_at(i);
            if elapsed_since(bucket.start_ns, now_ns) < window_ns {
                let ghost before = kept@;
                proof {
                    assert forall|k: Seq<u8>| #[trigger] kept@.dom().contains(k) implies lex_lt(
                        k,
                        key@,
                    ) by {
                        let a = choose|a: int| 0 <= a < i && #[trigger] self.table.key_in_order(a) == k;
                        assert(lex_lt(self.table.key_in_order(a), self.table.key_in_order(i as int)));
                    }
                }
                kept.push_last(&key, bucket);
                proof {
                    assert forall|a: int|
                        #![trigger self.table.key_in_order(a)]
                        0 <= a < i + 1 implies (kept@.dom().contains(self.table.key_in_order(a))
                        <==> !expired(all[self.table.key_in_order(a)], window_ns, now_ns)) by {
                        if a < i {
                            assert(lex_lt(self.table.key_in_order(a), key@));
                            lemma_lex_irreflexive(key@);
                        }
                    }
                    assert forall|k: Seq<u8>| #[trigger] kept@.dom().contains(k) implies exists|
                        a: int,
                    |
                        0 <= a < i + 1 && #[trigger] self.table.key_in_order(a) == k by {
                        if k == key@ {
                            assert(self.table.key_in_order(i as int) == k);
                        } else {
                            assert(before.dom().contains(k));
                        }
                    }
                }
            } else {
                proof {
                    assert(!kept@.dom().contains(key@)) by {
                        if kept@.dom().contains(key@) {
                            let a = choose|a: int|
                                0 <= a < i && #[trigger] self.table.key_in_order(a) == key@;
                            assert(lex_lt(
                                self.table.key_in_order(a),
                                self.table.key_in_order(i as int),
                            ));
                            lemma_lex_irreflexive(key@);
                        }
                    }
                }
            }
            i = i + 1;
        }
        proof {
            let live = live_buckets(all, window_ns, now_ns);
            assert forall|k: Seq<u8>| kept@.dom().contains(k) == live.dom().contains(k) by {
                if all.dom().contains(k) {
                    self.table.lemma_positions();
                    let a = choose|a: int| 0 <= a < n && self.table.key_in_order(a) == k;
                    assert(self.table.key_in_order(a) == k);
                }
                if kept@.dom().contains(k) {
                    let a = choose|a: int| 0 <= a < n && #[trigger] self.table.key_in_order(a) == k;
                    assert(all.dom().contains(self.table.key_in_order(a)));
                }
            }
            assert(kept@ =~= live);
        }
        self.table = kept;
    }

    /// Answers a request by `key` at the time `now_ns`, where a key may make
    /// `limit` requests within `window_ns` nanoseconds.
    pub fn check(&mut self, key: &[u8; 32], limit: u32, window_ns: u128, now_ns: u128) -> (r: Result<
        u32,
        u128,
    >)
        requires
            old(self).wf(),
        ensures
            final(self).wf(),
            final(self).capacity() == old(self).capacity(),
            r == check_outcome(old(self)@, old(self).capacity(), key@, limit, window_ns, now_ns),
            final(self)@ == after_check(
                old(self)@,
                old(self).capacity(),
                key@,
                limit,
                window_ns,
                now_ns,
            ),
    {
        let ghost max = self.capacity();
        if self.table.len() >= self.max_entries {
            self.purge(window_ns, now_ns);
            if self.table.len() >= self.max_entries {
                return Err(FULL_TABLE_RETRY_NS);
            }
        }
        let ghost kept = self@;
        assert(kept == with_room_made(old(self)@, max, window_ns, now_ns));
        proof {
            self.table.lemma_size();
        }
        let mut bucket: Bucket = match self.table.get(key) {
            Some(b) => *b,
            None => Bucket { tokens: limit, start_ns: now_ns },
        };
        if elapsed_since(bucket.start_ns, now_ns) >= window_ns {
            bucket = Bucket { tokens: limit, start_ns: now_ns };
        }
        assert(bucket == current_bucket(kept, key@, limit, window_ns, now_ns));
        let r: Result<u32, u128> = if bucket.tokens > 0 {
            bucket = Bucket { tokens: bucket.tokens - 1, start_ns: bucket.start_ns };
            Ok(bucket.tokens)
        } else {
            let waited: u128 = elapsed_since(bucket.start_ns, now_ns);
            if window_ns >= waited {
                Err(window_ns - waited)
            } else {
                Err(0)
            }
        };
        self.table.insert(key, bucket);
        proof {
            self.table.lemma_size();
            assert(self@.dom() =~= kept.dom().insert(key@));
        }
        r
    }
}

} // verus!
