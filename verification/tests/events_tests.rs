use peerx::events::{BadgeEventBuffer, Events, SwapDistribution, SWAP_DISTRIBUTION_CADENCE};
use peerx::types::Address;

#[test]
fn swaps_land_in_their_size_buckets() {
    let mut e = Events::new();
    for amount in [50i128, 100, 999, 1_000, 10_000, -5] {
        assert_eq!(e.record_swap(amount, 7), None);
    }
    assert_eq!(e.swap_count(), 6);
    assert_eq!(e.buckets(), (2, 2, 1, 1));
}

#[test]
fn distribution_is_due_every_thousand_swaps() {
    let mut e = Events::new();
    for _ in 0..(SWAP_DISTRIBUTION_CADENCE - 1) {
        assert_eq!(e.record_swap(150, 1), None);
    }
    let d = e.record_swap(20_000, 42).unwrap();
    assert_eq!(
        d,
        SwapDistribution { size_0_100: 0, size_100_1k: 999, size_1k_10k: 0, size_10k_plus: 1, total_swaps: 1_000, timestamp: 42 }
    );
    // The automatic snapshot does not reset the buckets.
    assert_eq!(e.buckets(), (0, 999, 0, 1));
    assert_eq!(e.record_swap(1, 43), None);
}

#[test]
fn manual_distribution_resets_buckets_but_not_the_counter() {
    let mut e = Events::new();
    e.record_swap(5, 1);
    e.record_swap(5_000, 2);
    let admin = Address::new("GADMIN".to_string());
    let d = e.emit_swap_distribution(&admin, 99);
    assert_eq!(d, SwapDistribution { size_0_100: 1, size_100_1k: 0, size_1k_10k: 1, size_10k_plus: 0, total_swaps: 2, timestamp: 99 });
    assert_eq!(e.buckets(), (0, 0, 0, 0));
    assert_eq!(e.swap_count(), 2);
}

#[test]
fn badge_events_are_flushed_once_in_order() {
    let mut buf: BadgeEventBuffer<u32> = BadgeEventBuffer::new();
    assert!(buf.flush_badge_events().is_none());
    buf.badge_awarded(Address::new("GA".to_string()), 1, 10);
    buf.badge_awarded(Address::new("GB".to_string()), 2, 11);
    let batch = buf.flush_badge_events().unwrap();
    assert_eq!(batch.len(), 2);
    assert_eq!(batch[0].badge, 1);
    assert_eq!(batch[1].user, Address::new("GB".to_string()));
    assert!(buf.flush_badge_events().is_none());
}
