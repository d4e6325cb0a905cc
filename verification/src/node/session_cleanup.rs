//! When sessions and provenance records are old enough to be deleted.

use vstd::prelude::*;

verus! {

/// Configuration of the cleanup.
#[derive(Debug, Clone, Copy)]
pub struct CleanupConfig {
    /// Milliseconds between two cleanups.
    pub interval_ms: u64,
    /// Milliseconds after which sessions that have ended are deleted; zero to
    /// keep them.
    pub session_ttl_ms: u64,
    /// Milliseconds after which provenance records are deleted; zero to keep
    /// them.
    pub provenance_retention_ms: u64,
}

impl Default for CleanupConfig {
    fn default() -> (r: Self)
        ensures
            r.interval_ms == 3_600_000,
            r.session_ttl_ms == 24 * 3_600_000,
            r.provenance_retention_ms == 30 * 24 * 3_600_000,
    {
        CleanupConfig {
            interval_ms: 3_600_000,
            session_ttl_ms: 86_400_000,
            provenance_retention_ms: 2_592_000_000,
        }
    }
}

/// The time before which entries with the lifetime `ttl_ms` are deleted at
/// `now_ms`; none where they are kept.
pub open spec fn cutoff(now_ms: u64, ttl_ms: u64) -> Option<u64> {
    if ttl_ms == 0 {
        None
    } else if now_ms >= ttl_ms {
        Some((now_ms - ttl_ms) as u64)
    } else {
        Some(0)
    }
}

fn cutoff_at(now_ms: u64, ttl_ms: u64) -> (r: Option<u64>)
    ensures
        r == cutoff(now_ms, ttl_ms),
{
    if ttl_ms == 0 {
        None
    } else if now_ms >= ttl_ms {
        Some(now_ms - ttl_ms)
    } else {
        Some(0)
    }
}

impl CleanupConfig {
    /// The time before which ended sessions are deleted at `now_ms`.
    pub fn session_cutoff(&self, now_ms: u64) -> (r: Option<u64>)
        ensures
            r == cutoff(now_ms, self.session_ttl_ms),
    {
        cutoff_at(now_ms, self.session_ttl_ms)
    }

    /// The time before which provenance records are deleted at `now_ms`.
    pub fn provenance_cutoff(&self, now_ms: u64) -> (r: Option<u64>)
        ensures
            r == cutoff(now_ms, self.provenance_retention_ms),
    {
        cutoff_at(now_ms, self.provenance_retention_ms)
    }
}

/// Nothing younger than its lifetime is deleted.
pub proof fn law_young_entries_are_kept(created_ms: u64, now_ms: u64, ttl_ms: u64)
    requires
        created_ms <= now_ms,
        now_ms - created_ms <= ttl_ms,
    ensures
        match cutoff(now_ms, ttl_ms) {
            Some(before) => created_ms >= before,
            None => true,
        },
{
}

} // verus!
