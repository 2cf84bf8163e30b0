use rustroarch::audio::{AudioBridge, Offer};

#[test]
fn batch_goes_through_the_slot() {
    let mut bridge = AudioBridge::new(true);
    assert_eq!(bridge.take(true), None);
    assert_eq!(bridge.offer(vec![1, 2, 3, 4]), Offer::Accepted);
    assert_eq!(bridge.slot, Some(vec![1, 2, 3, 4]));
    assert_eq!(bridge.take(true), Some(vec![1, 2, 3, 4]));
    assert_eq!(bridge.slot, None);
    assert_eq!(bridge.take(true), None);
}

#[test]
fn full_slot_sends_the_batch_back() {
    let mut bridge = AudioBridge::new(true);
    assert_eq!(bridge.offer(vec![1, 2]), Offer::Accepted);
    assert_eq!(bridge.offer(vec![3, 4]), Offer::Busy(vec![3, 4]));
    assert_eq!(bridge.slot, Some(vec![1, 2]));
    assert_eq!(bridge.take(true), Some(vec![1, 2]));
    assert_eq!(bridge.offer(vec![3, 4]), Offer::Accepted);
    assert_eq!(bridge.take(true), Some(vec![3, 4]));
}

#[test]
fn busy_sink_takes_nothing() {
    let mut bridge = AudioBridge::new(true);
    assert_eq!(bridge.offer(vec![7, 8]), Offer::Accepted);
    assert_eq!(bridge.take(false), None);
    assert_eq!(bridge.slot, Some(vec![7, 8]));
    assert_eq!(bridge.take(true), Some(vec![7, 8]));
}

#[test]
fn without_a_consumer_batches_are_dropped() {
    let mut bridge = AudioBridge::new(false);
    assert_eq!(bridge.offer(vec![1, 2]), Offer::Discarded);
    assert_eq!(bridge.offer(vec![3, 4]), Offer::Discarded);
    assert_eq!(bridge.slot, None);
    assert_eq!(bridge.take(true), None);
    assert!(!bridge.enabled);
}
