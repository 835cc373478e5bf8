use downloader::manager::UpdateConsumer;
use downloader::observer::DownloadObserver;
use downloader::state::{DownloadState, DownloadUpdate};
use std::collections::HashMap;

#[test]
fn observer_starts_empty() {
    let observer = DownloadObserver::new();
    assert_eq!(observer.get_state(1), None);
    assert!(observer.get_state_all().is_empty());
    assert!(DownloadObserver::default().get_state_all().is_empty());
}

#[test]
fn track_records_and_replaces() {
    let mut observer = DownloadObserver::new();
    observer.track(7, DownloadState::Paused(0));
    assert_eq!(observer.get_state(7), Some(DownloadState::Paused(0)));
    observer.track(7, DownloadState::Paused(55));
    assert_eq!(observer.get_state(7), Some(DownloadState::Paused(55)));
    assert_eq!(observer.get_state(8), None);
}

#[test]
fn consume_applies_updates_in_order() {
    let mut observer = DownloadObserver::new();
    let states = [
        DownloadState::Downloading(0, Some(30)),
        DownloadState::Downloading(10, Some(30)),
        DownloadState::Downloading(20, Some(30)),
        DownloadState::Completed(30),
    ];
    for state in states.iter() {
        observer.consume(DownloadUpdate { id: 1, state: state.clone() });
        assert_eq!(observer.get_state(1).as_ref(), Some(state));
    }
}

#[test]
fn consume_changes_one_download_only() {
    let mut observer = DownloadObserver::new();
    observer.consume(DownloadUpdate { id: 1, state: DownloadState::Downloading(5, None) });
    observer.consume(DownloadUpdate { id: 2, state: DownloadState::Failed("broken".to_string()) });
    observer.consume(DownloadUpdate { id: 1, state: DownloadState::Paused(9) });
    let mut expected: HashMap<u128, DownloadState> = HashMap::new();
    expected.insert(1, DownloadState::Paused(9));
    expected.insert(2, DownloadState::Failed("broken".to_string()));
    assert_eq!(observer.get_state_all(), expected);
}

#[test]
fn untrack_forgets_one_download() {
    let mut observer = DownloadObserver::new();
    observer.track(1, DownloadState::Paused(1));
    observer.track(2, DownloadState::Paused(2));
    observer.untrack(1);
    observer.untrack(3);
    assert_eq!(observer.get_state(1), None);
    assert_eq!(observer.get_state(2), Some(DownloadState::Paused(2)));
    assert_eq!(observer.get_state_all().len(), 1);
}

#[test]
fn snapshot_is_independent_of_later_updates() {
    let mut observer = DownloadObserver::new();
    observer.track(1, DownloadState::Paused(1));
    let snapshot = observer.get_state_all();
    observer.track(1, DownloadState::Completed(2));
    assert_eq!(snapshot.get(&1), Some(&DownloadState::Paused(1)));
}
