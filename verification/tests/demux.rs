use uplift_desk::demux::{Demux, DemuxPoll, ThresholdFilter};

fn item(poll: DemuxPoll<usize>) -> usize {
    match poll {
        DemuxPoll::Item(v) => v,
        other => panic!("expected a buffered item, got {other:?}"),
    }
}

#[test]
fn basic_test() {
    let mut demux: Demux<usize, ThresholdFilter> = Demux::new();
    let first = demux.add_group(ThresholdFilter::Above(10));
    let second = demux.add_group(ThresholdFilter::Below(5));

    demux.dispatch(1);
    demux.dispatch(20);
    demux.dispatch(30);
    demux.dispatch(8);

    assert_eq!(item(demux.poll_next(first)).to_string(), "20".to_string());
    assert_eq!(item(demux.poll_next(first)).to_string(), "30".to_string());
    assert_eq!(item(demux.poll_next(second)) + 1, 2);
}

#[test]
fn dropping_receiver() {
    let mut demux: Demux<usize, ThresholdFilter> = Demux::new();
    let first = demux.add_group(ThresholdFilter::Above(10));
    let second = demux.add_group(ThresholdFilter::Below(5));

    demux.dispatch(1);
    demux.dispatch(20);
    demux.dispatch(1);
    demux.drop_group(first);

    assert_eq!(item(demux.poll_next(second)) + 1, 2);
    assert_eq!(item(demux.poll_next(second)) + 1, 2);
}

#[test]
fn sending_receiver() {
    let mut demux: Demux<usize, ThresholdFilter> = Demux::new();
    let first = demux.add_group(ThresholdFilter::Above(10));

    demux.dispatch(20);

    assert_eq!(item(demux.poll_next(first)).to_string(), "20".to_string());
}

#[test]
fn unmatched_events_are_dropped() {
    let mut demux: Demux<usize, ThresholdFilter> = Demux::new();
    let first = demux.add_group(ThresholdFilter::Above(10));
    let second = demux.add_group(ThresholdFilter::Below(5));

    assert_eq!(demux.dispatch(7), None);
    assert!(matches!(demux.poll_next(first), DemuxPoll::Pending));
    assert!(matches!(demux.poll_next(second), DemuxPoll::Pending));
}

#[test]
fn first_matching_group_wins() {
    let mut demux: Demux<usize, ThresholdFilter> = Demux::new();
    let first = demux.add_group(ThresholdFilter::Above(10));
    let second = demux.add_group(ThresholdFilter::Above(10));

    assert_eq!(demux.dispatch(42), Some(first));
    assert_eq!(item(demux.poll_next(first)), 42);
    assert!(matches!(demux.poll_next(second), DemuxPoll::Pending));
}

#[test]
fn dropped_group_no_longer_routes() {
    let mut demux: Demux<usize, ThresholdFilter> = Demux::new();
    let first = demux.add_group(ThresholdFilter::Above(10));
    let second = demux.add_group(ThresholdFilter::Above(10));

    demux.drop_group(first);
    assert_eq!(demux.dispatch(42), Some(second));
    assert_eq!(item(demux.poll_next(second)), 42);
}

#[test]
fn exhaustion_after_drain() {
    let mut demux: Demux<usize, ThresholdFilter> = Demux::new();
    let first = demux.add_group(ThresholdFilter::Above(10));

    demux.dispatch(20);
    demux.finish();

    assert_eq!(item(demux.poll_next(first)), 20);
    assert!(matches!(demux.poll_next(first), DemuxPoll::Ended));
}

#[test]
fn substreams_chain_recursively() {
    let mut outer: Demux<usize, ThresholdFilter> = Demux::new();
    let big = outer.add_group(ThresholdFilter::Above(10));
    let mut inner: Demux<usize, ThresholdFilter> = Demux::new();
    let huge = inner.add_group(ThresholdFilter::Above(100));
    let medium = inner.add_group(ThresholdFilter::Below(100));

    outer.dispatch_all(vec![5, 50, 500]);
    while let DemuxPoll::Item(v) = outer.poll_next(big) {
        inner.dispatch(v);
    }

    assert_eq!(item(inner.poll_next(huge)), 500);
    assert_eq!(item(inner.poll_next(medium)), 50);
}

#[test]
fn dispatch_all_keeps_upstream_order() {
    let mut demux: Demux<usize, ThresholdFilter> = Demux::new();
    let first = demux.add_group(ThresholdFilter::Above(10));
    let second = demux.add_group(ThresholdFilter::Below(5));

    demux.dispatch_all(vec![1, 20, 30, 8, 2]);

    assert_eq!(item(demux.poll_next(first)), 20);
    assert_eq!(item(demux.poll_next(first)), 30);
    assert_eq!(item(demux.poll_next(second)), 1);
    assert_eq!(item(demux.poll_next(second)), 2);
}
