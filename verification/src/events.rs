//! Swap-size histogram and the badge-event buffer kept alongside the
//! contract's event stream.
//!
//! Every swap bumps a global counter and one of four size buckets
//! (`[0, 100)`, `[100, 1 000)`, `[1 000, 10 000)`, `[10 000, ∞)`; amounts
//! below 100, negative ones included, land in the first). Every
//! `SWAP_DISTRIBUTION_CADENCE` swaps a `SwapDistribution` snapshot is due;
//! an admin-triggered snapshot also resets the buckets.
use vstd::prelude::*;
use crate::arith::clamp_u64;
use crate::types::Address;

verus! {

/// Number of swaps between automatic `SwapDistribution` snapshots.
pub const SWAP_DISTRIBUTION_CADENCE: u64 = 1_000;

/// A snapshot of the swap-size histogram.
#[derive(Clone, Copy, Debug, PartialEq, Eq, Structural)]
pub struct SwapDistribution {
    /// Swaps in `[0, 100)` (and below).
    pub size_0_100: u64,
    /// Swaps in `[100, 1 000)`.
    pub size_100_1k: u64,
    /// Swaps in `[1 000, 10 000)`.
    pub size_1k_10k: u64,
    /// Swaps of 10 000 and more.
    pub size_10k_plus: u64,
    /// Total swap count captured in this snapshot.
    pub total_swaps: u64,
    /// Time of the snapshot.
    pub timestamp: i64,
}

/// The bucket (0 to 3) that a swap of `amount` falls into.
pub open spec fn bucket_of(amount: i128) -> int {
    if amount < 100 {
        0
    } else if amount < 1_000 {
        1
    } else if amount < 10_000 {
        2
    } else {
        3
    }
}

/// `x + 1`, saturating at `u64::MAX`.
pub open spec fn inc_sat(x: u64) -> u64 {
    clamp_u64(x + 1) as u64
}

/// The swap counter and the size histogram.
#[derive(Clone, Copy, Debug)]
pub struct Events {
    swap_count: u64,
    buckets: (u64, u64, u64, u64),
}

impl Events {
    /// Swaps recorded so far.
    pub closed spec fn spec_swap_count(self) -> u64 {
        self.swap_count
    }

    /// The four bucket counters.
    pub closed spec fn spec_buckets(self) -> (u64, u64, u64, u64) {
        self.buckets
    }

    /// The sum of the four bucket counters.
    pub open spec fn bucket_total(self) -> int {
        self.spec_buckets().0 + self.spec_buckets().1 + self.spec_buckets().2
            + self.spec_buckets().3
    }

    /// The buckets never account for more swaps than were counted (until the
    /// counter saturates).
    pub open spec fn wf(self) -> bool {
        self.bucket_total() <= self.spec_swap_count() || self.spec_swap_count() == u64::MAX
    }

    /// The buckets after a swap of `amount`: one more in its bucket.
    pub open spec fn bumped(b: (u64, u64, u64, u64), amount: i128) -> (u64, u64, u64, u64) {
        let k = bucket_of(amount);
        (
            if k == 0 { inc_sat(b.0) } else { b.0 },
            if k == 1 { inc_sat(b.1) } else { b.1 },
            if k == 2 { inc_sat(b.2) } else { b.2 },
            if k == 3 { inc_sat(b.3) } else { b.3 },
        )
    }

    /// The snapshot of buckets `b` with `total` swaps at `timestamp`.
    pub open spec fn snapshot(b: (u64, u64, u64, u64), total: u64, timestamp: i64) -> SwapDistribution {
        SwapDistribution {
            size_0_100: b.0,
            size_100_1k: b.1,
            size_1k_10k: b.2,
            size_10k_plus: b.3,
            total_swaps: total,
            timestamp,
        }
    }

    /// No swap recorded yet.
    pub fn new() -> (e: Events)
        ensures
            e.wf(),
            e.spec_swap_count() == 0,
            e.spec_buckets() == (0u64, 0u64, 0u64, 0u64),
    {
        Events { swap_count: 0, buckets: (0, 0, 0, 0) }
    }

    /// The histogram as stored: the swap counter and the four buckets; `None`
    /// when the buckets account for more swaps than were counted.
    pub fn from_stored(swap_count: u64, buckets: (u64, u64, u64, u64)) -> (r: Option<Events>)
        ensures
            r matches Some(e) ==> e.wf() && e.spec_swap_count() == swap_count && e.spec_buckets() == buckets,
            r is Some <==> (buckets.0 + buckets.1 + buckets.2 + buckets.3 <= swap_count
                || swap_count == u64::MAX),
    {
        let total: u128 = buckets.0 as u128 + buckets.1 as u128 + buckets.2 as u128 + buckets.3 as u128;
        if total <= swap_count as u128 || swap_count == u64::MAX {
            Some(Events { swap_count, buckets })
        } else {
            None
        }
    }

    /// Counts one swap of `amount` in the counter and in its size bucket.
    /// Returns the snapshot that is due when the new count is a multiple of
    /// `SWAP_DISTRIBUTION_CADENCE`, and `None` otherwise; the buckets are not
    /// reset by this automatic snapshot.
    pub fn record_swap(&mut self, amount: i128, timestamp: i64) -> (r: Option<SwapDistribution>)
        requires
            old(self).wf(),
        ensures
            final(self).wf(),
            final(self).spec_swap_count() == inc_sat(old(self).spec_swap_count()),
            final(self).spec_buckets() == Self::bumped(old(self).spec_buckets(), amount),
            r == (if final(self).spec_swap_count() % SWAP_DISTRIBUTION_CADENCE == 0 {
                Some(Self::snapshot(final(self).spec_buckets(), final(self).spec_swap_count(), timestamp))
            } else {
                None
            }),
    {
        let new_count = self.swap_count.saturating_add(1);
        let (mut b0, mut b1, mut b2, mut b3) = self.buckets;
        if amount < 100 {
            b0 = b0.saturating_add(1);
        } else if amount < 1_000 {
            b1 = b1.saturating_add(1);
        } else if amount < 10_000 {
            b2 = b2.saturating_add(1);
        } else {
            b3 = b3.saturating_add(1);
        }
        self.swap_count = new_count;
        self.buckets = (b0, b1, b2, b3);
        if new_count % SWAP_DISTRIBUTION_CADENCE == 0 {
            Some(Self::distribution(b0, b1, b2, b3, new_count, timestamp))
        } else {
            None
        }
    }

    /// Admin-triggered snapshot of the current histogram (the caller has been
    /// authorized already). Resets the buckets so that the next window starts
    /// fresh; the swap counter keeps running.
    pub fn emit_swap_distribution(&mut self, _admin: &Address, timestamp: i64) -> (r: SwapDistribution)
        requires
            old(self).wf(),
        ensures
            final(self).wf(),
            r == Self::snapshot(old(self).spec_buckets(), old(self).spec_swap_count(), timestamp),
            final(self).spec_swap_count() == old(self).spec_swap_count(),
            final(self).spec_buckets() == (0u64, 0u64, 0u64, 0u64),
    {
        let (b0, b1, b2, b3) = self.buckets;
        let d = Self::distribution(b0, b1, b2, b3, self.swap_count, timestamp);
        self.buckets = (0, 0, 0, 0);
        d
    }

    /// The number of swaps recorded so far.
    pub fn swap_count(&self) -> (r: u64)
        ensures
            r == self.spec_swap_count(),
    {
        self.swap_count
    }

    /// The current bucket counters.
    pub fn buckets(&self) -> (r: (u64, u64, u64, u64))
        ensures
            r == self.spec_buckets(),
    {
        self.buckets
    }

    fn distribution(b0: u64, b1: u64, b2: u64, b3: u64, total_swaps: u64, timestamp: i64) -> (r:
        SwapDistribution)
        ensures
            r == Self::snapshot((b0, b1, b2, b3), total_swaps, timestamp),
    {
        SwapDistribution {
            size_0_100: b0,
            size_100_1k: b1,
            size_1k_10k: b2,
            size_10k_plus: b3,
            total_swaps,
            timestamp,
        }
    }
}

/// A badge award waiting to be published; `B` is the badge kind.
#[derive(Debug, PartialEq, Eq)]
pub struct BadgeEvent<B> {
    /// The user who earned the badge.
    pub user: Address,
    /// The badge earned.
    pub badge: B,
    /// Time of the award.
    pub timestamp: i64,
}

/// Badge awards batched until the next flush, oldest first.
pub struct BadgeEventBuffer<B> {
    pending: Vec<BadgeEvent<B>>,
}

impl<B> BadgeEventBuffer<B> {
    /// The awards waiting to be published, oldest first.
    pub closed spec fn spec_pending(&self) -> Seq<BadgeEvent<B>> {
        self.pending@
    }

    /// An empty buffer.
    pub fn new() -> (r: Self)
        ensures
            r.spec_pending().len() == 0,
    {
        BadgeEventBuffer { pending: Vec::new() }
    }

    /// Buffers a badge award.
    pub fn badge_awarded(&mut self, user: Address, badge: B, timestamp: i64)
        ensures
            final(self).spec_pending() == old(self).spec_pending().push(
                BadgeEvent { user, badge, timestamp },
            ),
    {
        self.pending.push(BadgeEvent { user, badge, timestamp });
    }

    /// Takes every buffered award for publication as one batch and empties the
    /// buffer; `None` (and nothing changes) when nothing is buffered.
    pub fn flush_badge_events(&mut self) -> (r: Option<Vec<BadgeEvent<B>>>)
        ensures
            final(self).spec_pending().len() == 0,
            old(self).spec_pending().len() == 0 ==> r is None,
            old(self).spec_pending().len() > 0 ==> (r matches Some(v) && v@ == old(self).spec_pending()),
    {
        if self.pending.len() == 0 {
            return None;
        }
        let mut taken: Vec<BadgeEvent<B>> = Vec::new();
        std::mem::swap(&mut taken, &mut self.pending);
        Some(taken)
    }
}

/// Recording a swap counts it exactly once: the counter and exactly one bucket
/// (the one its amount falls into) grow by one, the others stay, as long as
/// nothing saturates.
pub proof fn law_record_swap_counts_once(pre: Events, post: Events, amount: i128)
    requires
        pre.wf(),
        post.spec_swap_count() == inc_sat(pre.spec_swap_count()),
        post.spec_buckets() == Events::bumped(pre.spec_buckets(), amount),
        pre.spec_swap_count() + 1 < u64::MAX,
    ensures
        post.spec_swap_count() == pre.spec_swap_count() + 1,
        post.bucket_total() == pre.bucket_total() + 1,
        post.wf(),
{
}

} // verus!
