use downloader::manager::UpdateConsumer;
use downloader::state::{DownloadState, DownloadUpdate};
use downloader::subscribers::Subscribers;

fn progress(id: u128, bytes: u64) -> DownloadUpdate {
    DownloadUpdate { id, state: DownloadState::Downloading(bytes, None) }
}

#[test]
fn tokens_count_up_from_zero() {
    let mut registry = Subscribers::new();
    assert_eq!(registry.len(), 0);
    assert_eq!(registry.subscribe(None, 4), Some(0));
    assert_eq!(registry.subscribe(Some(9), 4), Some(1));
    assert!(registry.unsubscribe(0));
    assert_eq!(registry.subscribe(None, 4), Some(2));
    assert_eq!(registry.len(), 2);
    assert_eq!(Subscribers::default().len(), 0);
}

#[test]
fn unfiltered_subscription_gets_every_update() {
    let mut registry = Subscribers::new();
    let token: u64 = registry.subscribe(None, 8).unwrap();
    registry.publish(&progress(1, 10));
    registry.publish(&progress(2, 20));
    registry.consume(progress(1, 30));
    assert_eq!(registry.pending(token), Some(3));
    assert_eq!(
        registry.poll(token),
        Some(vec![progress(1, 10), progress(2, 20), progress(1, 30)])
    );
}

#[test]
fn filtered_subscription_gets_its_download_only() {
    let mut registry = Subscribers::new();
    let token: u64 = registry.subscribe(Some(2), 8).unwrap();
    registry.publish(&progress(1, 10));
    registry.publish(&progress(2, 20));
    registry.publish(&progress(3, 30));
    registry.publish(&progress(2, 40));
    assert_eq!(registry.poll(token), Some(vec![progress(2, 20), progress(2, 40)]));
}

#[test]
fn full_queue_drops_the_oldest_update() {
    let mut registry = Subscribers::new();
    let token: u64 = registry.subscribe(None, 3).unwrap();
    for bytes in 1..=5u64 {
        registry.publish(&progress(1, bytes));
        assert!(registry.pending(token).unwrap() <= 3);
    }
    assert_eq!(
        registry.poll(token),
        Some(vec![progress(1, 3), progress(1, 4), progress(1, 5)])
    );
}

#[test]
fn subscription_without_room_gets_nothing() {
    let mut registry = Subscribers::new();
    let token: u64 = registry.subscribe(None, 0).unwrap();
    registry.publish(&progress(1, 1));
    assert_eq!(registry.pending(token), Some(0));
    assert_eq!(registry.poll(token), Some(vec![]));
}

#[test]
fn poll_empties_the_queue() {
    let mut registry = Subscribers::new();
    let token: u64 = registry.subscribe(None, 2).unwrap();
    registry.publish(&progress(1, 1));
    assert_eq!(registry.poll(token), Some(vec![progress(1, 1)]));
    assert_eq!(registry.poll(token), Some(vec![]));
    registry.publish(&progress(1, 2));
    registry.publish(&progress(1, 3));
    assert_eq!(registry.poll(token), Some(vec![progress(1, 2), progress(1, 3)]));
}

#[test]
fn unknown_token_is_answered_with_none() {
    let mut registry = Subscribers::new();
    registry.subscribe(None, 2);
    assert_eq!(registry.poll(5), None);
    assert_eq!(registry.pending(5), None);
    assert!(!registry.unsubscribe(5));
    assert_eq!(registry.len(), 1);
}

#[test]
fn stalled_subscriber_does_not_hold_up_the_others() {
    let mut registry = Subscribers::new();
    let stalled: u64 = registry.subscribe(None, 1).unwrap();
    let lively: u64 = registry.subscribe(None, 100).unwrap();
    let mut collected: Vec<DownloadUpdate> = Vec::new();
    for bytes in 0..50u64 {
        registry.publish(&progress(1, bytes));
        collected.extend(registry.poll(lively).unwrap());
    }
    let expected: Vec<DownloadUpdate> = (0..50u64).map(|bytes| progress(1, bytes)).collect();
    assert_eq!(collected, expected);
    assert_eq!(registry.poll(stalled), Some(vec![progress(1, 49)]));
}

#[test]
fn unsubscribe_keeps_the_other_queues() {
    let mut registry = Subscribers::new();
    let a: u64 = registry.subscribe(None, 4).unwrap();
    let b: u64 = registry.subscribe(Some(1), 4).unwrap();
    let c: u64 = registry.subscribe(None, 4).unwrap();
    registry.publish(&progress(1, 1));
    assert!(registry.unsubscribe(b));
    assert!(!registry.unsubscribe(b));
    registry.publish(&progress(2, 2));
    assert_eq!(registry.poll(a), Some(vec![progress(1, 1), progress(2, 2)]));
    assert_eq!(registry.poll(b), None);
    assert_eq!(registry.poll(c), Some(vec![progress(1, 1), progress(2, 2)]));
}
