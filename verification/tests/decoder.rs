use uplift_desk::commands::begin_query;
use uplift_desk::height::{
    estimate_height, get_raw_height, HeightCache, UpliftDeskHeight, MAX_PHYSICAL_HEIGHT,
    MID_PHYSICAL_HEIGHT, MIN_PHYSICAL_HEIGHT, SENTINEL_HEIGHT,
};

#[test]
fn plain_low_byte_ignores_last_height() {
    assert_eq!(estimate_height((0x05, 0x00), SENTINEL_HEIGHT), 257);
    assert_eq!(estimate_height((0x05, 0x00), 200), 257);
    assert_eq!(estimate_height((0x05, 0x00), 400), 257);
    assert_eq!(estimate_height((0x05, 0x77), 500), 257);
}

#[test]
fn wraparound_marker_picks_by_midpoint() {
    assert!(200 < MID_PHYSICAL_HEIGHT);
    assert_eq!(estimate_height((0xfe, 0x10), 200), MIN_PHYSICAL_HEIGHT + 0x10);
    assert!(400 >= MID_PHYSICAL_HEIGHT);
    assert_eq!(estimate_height((0xfe, 0x10), 400), MIN_PHYSICAL_HEIGHT + 0xfe);
}

#[test]
fn estimate_is_deterministic_and_in_range() {
    let first = estimate_height((0xfd, 0xff), 378);
    let second = estimate_height((0xfd, 0xff), 378);
    assert_eq!(first, second);
    for low in [0x00u8, 0x7f, 0xfc, 0xfd, 0xfe, 0xff] {
        for last in [SENTINEL_HEIGHT, 0, 252, 378, 379, 507] {
            let h = estimate_height((low, 0x33), last);
            assert!(h >= MIN_PHYSICAL_HEIGHT);
            assert!(h <= MAX_PHYSICAL_HEIGHT);
            assert_ne!(h, SENTINEL_HEIGHT);
        }
    }
}

#[test]
fn raw_sample_offsets() {
    let payload = vec![0u8, 1, 2, 3, 4, 0xaa, 6, 0xbb, 8];
    assert_eq!(get_raw_height(&payload), (0xaa, 0xbb));

    let sample = UpliftDeskHeight::new(&payload);
    assert_eq!(sample.physical_height(), 252 + 0xaa as usize);
}

#[test]
fn sample_decode_handles_the_wraparound_marker() {
    let plain = vec![0u8, 1, 2, 3, 4, 0x05, 6, 0x77, 8];
    assert_eq!(UpliftDeskHeight::new(&plain).physical_height(), 257);

    // with no previous estimate the marker falls back to the high byte
    let marked = vec![0u8, 1, 2, 3, 4, 0xfe, 6, 0x10, 8];
    assert_eq!(
        UpliftDeskHeight::new(&marked).physical_height(),
        252 + 0x10 as usize
    );
}

#[test]
fn cache_starts_stale() {
    let cache = HeightCache::new();
    assert_eq!(cache.height(), SENTINEL_HEIGHT);
    assert_eq!(cache.raw_height(), (0, 0));
    assert_eq!(cache.poll_sample(), None);
}

#[test]
fn cache_records_raw_and_decoded_together() {
    let mut cache = HeightCache::new();
    cache.record(0x05, 0x00);
    assert_eq!(cache.height(), 257);
    assert_eq!(cache.raw_height(), (0x05, 0x00));
    assert_eq!(cache.poll_sample(), Some(257));

    cache.record(0xfe, 0x10);
    assert_eq!(cache.height(), 252 + 0x10);
    assert_eq!(cache.raw_height(), (0xfe, 0x10));
}

#[test]
fn reset_keeps_raw_pair() {
    let mut cache = HeightCache::new();
    cache.record(0x40, 0x41);
    cache.reset();
    assert_eq!(cache.height(), SENTINEL_HEIGHT);
    assert_eq!(cache.raw_height(), (0x40, 0x41));
    assert_eq!(cache.poll_sample(), None);
}

#[test]
fn query_resets_before_packet_and_observes_fresh_sample() {
    let mut cache = HeightCache::new();
    cache.record(0x50, 0x00);
    assert_eq!(cache.poll_sample(), Some(252 + 0x50));

    let packet = begin_query(&mut cache);
    assert_eq!(packet, vec![0xf1, 0xf1, 0x07, 0x00, 0x07, 0x7e]);
    assert_eq!(cache.poll_sample(), None);

    // a notification decoded after the reset is what the poll observes
    cache.record(0x60, 0x00);
    assert_eq!(cache.poll_sample(), Some(252 + 0x60));
}

#[test]
fn snapshot_is_consistent() {
    let mut cache = HeightCache::new();
    cache.record(0x21, 0x22);
    let (low, high, decoded) = cache.current_height();
    assert_eq!((low, high), cache.raw_height());
    assert_eq!(decoded, cache.height());
    assert_eq!(decoded, 252 + 0x21);
}
