use bt_autoconnect::address::Address;
use bt_autoconnect::device::Device;
use bt_autoconnect::watcher::{Event, Lookup, Notification, Outcome, Report, TrustedWatcher};
use tokio::sync::mpsc::error::TryRecvError;
use tokio::sync::mpsc::{unbounded_channel, UnboundedReceiver};

fn addr(last: u8) -> Address {
    Address::new([0xAA, 0xBB, 0xCC, 0xDD, 0xEE, last])
}

fn added(last: u8) -> Event {
    Event::DeviceAdded(Device::new(addr(last)))
}

fn removed(last: u8) -> Event {
    Event::DeviceRemoved(Device::new(addr(last)))
}

fn drain(rx: &mut UnboundedReceiver<Event>) -> Vec<Event> {
    let mut events = Vec::new();
    while let Ok(event) = rx.try_recv() {
        events.push(event);
    }
    events
}

#[test]
fn new_watcher_tracks_nothing() {
    let (tx, mut rx) = unbounded_channel();
    let watcher = TrustedWatcher::new(tx);
    assert!(!watcher.is_tracked(&addr(1)));
    assert_eq!(rx.try_recv(), Err(TryRecvError::Empty));
}

#[test]
fn two_added_notifications_yield_one_event() {
    let (tx, mut rx) = unbounded_channel();
    let mut watcher = TrustedWatcher::new(tx);
    assert_eq!(watcher.on_device_added(addr(1), Lookup::Trusted), Outcome::Sent(added(1)));
    assert_eq!(watcher.on_device_added(addr(1), Lookup::Trusted), Outcome::Ignored);
    assert!(watcher.is_tracked(&addr(1)));
    assert_eq!(drain(&mut rx), vec![added(1)]);
}

#[test]
fn rediscovery_is_ignored_whatever_the_adapter_says() {
    let (tx, mut rx) = unbounded_channel();
    let mut watcher = TrustedWatcher::new(tx);
    watcher.on_device_added(addr(1), Lookup::Trusted);
    assert_eq!(watcher.on_device_added(addr(1), Lookup::NotAsked), Outcome::Ignored);
    assert_eq!(watcher.on_device_added(addr(1), Lookup::Untrusted), Outcome::Ignored);
    assert_eq!(watcher.on_device_added(addr(1), Lookup::NotFound), Outcome::Ignored);
    assert!(watcher.is_tracked(&addr(1)));
    assert_eq!(drain(&mut rx), vec![added(1)]);
}

#[test]
fn a_device_that_was_not_asked_about_is_not_tracked() {
    let (tx, mut rx) = unbounded_channel();
    let mut watcher = TrustedWatcher::new(tx);
    assert_eq!(watcher.on_device_added(addr(1), Lookup::NotAsked), Outcome::Ignored);
    assert!(!watcher.is_tracked(&addr(1)));
    assert_eq!(drain(&mut rx), vec![]);
}

#[test]
fn untrusted_device_is_never_tracked() {
    let (tx, mut rx) = unbounded_channel();
    let mut watcher = TrustedWatcher::new(tx);
    assert_eq!(watcher.on_device_added(addr(1), Lookup::Untrusted), Outcome::Ignored);
    assert!(!watcher.is_tracked(&addr(1)));
    assert_eq!(drain(&mut rx), vec![]);
}

#[test]
fn failed_trust_query_counts_as_untrusted() {
    let (tx, mut rx) = unbounded_channel();
    let mut watcher = TrustedWatcher::new(tx);
    assert_eq!(watcher.on_device_added(addr(1), Lookup::TrustUnknown), Outcome::Ignored);
    assert!(!watcher.is_tracked(&addr(1)));
    assert_eq!(drain(&mut rx), vec![]);
}

#[test]
fn unresolvable_address_is_ignored() {
    let (tx, mut rx) = unbounded_channel();
    let mut watcher = TrustedWatcher::new(tx);
    assert_eq!(watcher.on_device_added(addr(1), Lookup::NotFound), Outcome::Ignored);
    assert!(!watcher.is_tracked(&addr(1)));
    assert_eq!(drain(&mut rx), vec![]);
}

#[test]
fn removal_of_an_untracked_device_is_silent() {
    let (tx, mut rx) = unbounded_channel();
    let mut watcher = TrustedWatcher::new(tx);
    assert_eq!(watcher.on_device_removed(addr(1)), Outcome::Ignored);
    watcher.on_device_added(addr(2), Lookup::Untrusted);
    assert_eq!(watcher.on_device_removed(addr(2)), Outcome::Ignored);
    assert_eq!(drain(&mut rx), vec![]);
}

#[test]
fn removal_of_a_tracked_device_is_announced_once() {
    let (tx, mut rx) = unbounded_channel();
    let mut watcher = TrustedWatcher::new(tx);
    watcher.on_device_added(addr(1), Lookup::Trusted);
    assert_eq!(watcher.on_device_removed(addr(1)), Outcome::Sent(removed(1)));
    assert!(!watcher.is_tracked(&addr(1)));
    assert_eq!(watcher.on_device_removed(addr(1)), Outcome::Ignored);
    assert_eq!(drain(&mut rx), vec![added(1), removed(1)]);
}

#[test]
fn added_removed_added_is_mirrored() {
    let (tx, mut rx) = unbounded_channel();
    let mut watcher = TrustedWatcher::new(tx);
    let raw = vec![
        Notification::DeviceAdded(addr(1), Lookup::Trusted),
        Notification::DeviceRemoved(addr(1)),
        Notification::DeviceAdded(addr(1), Lookup::Trusted),
    ];
    let report = watcher.start(&raw);
    let expected = vec![added(1), removed(1), added(1)];
    assert_eq!(report, Report { processed: 3, delivered: expected.clone(), refused: None });
    assert_eq!(drain(&mut rx), expected);
    assert!(watcher.is_tracked(&addr(1)));
}

#[test]
fn removed_alone_emits_nothing() {
    let (tx, mut rx) = unbounded_channel();
    let mut watcher = TrustedWatcher::new(tx);
    let report = watcher.start(&vec![Notification::DeviceRemoved(addr(1))]);
    assert_eq!(report, Report { processed: 1, delivered: vec![], refused: None });
    assert_eq!(drain(&mut rx), vec![]);
}

#[test]
fn flapping_device_alternates() {
    let (tx, mut rx) = unbounded_channel();
    let mut watcher = TrustedWatcher::new(tx);
    let raw = vec![
        Notification::DeviceRemoved(addr(1)),
        Notification::DeviceAdded(addr(1), Lookup::Trusted),
        Notification::DeviceAdded(addr(1), Lookup::Trusted),
        Notification::Other,
        Notification::DeviceRemoved(addr(1)),
        Notification::DeviceRemoved(addr(1)),
        Notification::DeviceAdded(addr(1), Lookup::Untrusted),
        Notification::DeviceAdded(addr(1), Lookup::Trusted),
        Notification::DeviceRemoved(addr(1)),
    ];
    let report = watcher.start(&raw);
    let expected = vec![added(1), removed(1), added(1), removed(1)];
    assert_eq!(report.processed, 9);
    assert_eq!(report.delivered, expected);
    assert_eq!(report.refused, None);
    assert_eq!(drain(&mut rx), expected);
    assert!(!watcher.is_tracked(&addr(1)));
}

#[test]
fn devices_are_tracked_independently() {
    let (tx, mut rx) = unbounded_channel();
    let mut watcher = TrustedWatcher::new(tx);
    let raw = vec![
        Notification::DeviceAdded(addr(1), Lookup::Trusted),
        Notification::DeviceAdded(addr(2), Lookup::Trusted),
        Notification::DeviceAdded(addr(3), Lookup::Untrusted),
        Notification::DeviceRemoved(addr(1)),
        Notification::DeviceRemoved(addr(3)),
        Notification::DeviceAdded(addr(2), Lookup::Trusted),
    ];
    let report = watcher.start(&raw);
    let expected = vec![added(1), added(2), removed(1)];
    assert_eq!(report.delivered, expected);
    assert_eq!(drain(&mut rx), expected);
    assert!(!watcher.is_tracked(&addr(1)));
    assert!(watcher.is_tracked(&addr(2)));
    assert!(!watcher.is_tracked(&addr(3)));
}

#[test]
fn handle_dispatches_by_kind() {
    let (tx, mut rx) = unbounded_channel();
    let mut watcher = TrustedWatcher::new(tx);
    assert_eq!(watcher.handle(Notification::Other), Outcome::Ignored);
    assert_eq!(
        watcher.handle(Notification::DeviceAdded(addr(7), Lookup::Trusted)),
        Outcome::Sent(added(7))
    );
    assert_eq!(watcher.handle(Notification::DeviceRemoved(addr(7))), Outcome::Sent(removed(7)));
    assert_eq!(drain(&mut rx), vec![added(7), removed(7)]);
}

#[test]
fn closed_channel_is_reported() {
    let (tx, rx) = unbounded_channel();
    let mut watcher = TrustedWatcher::new(tx);
    drop(rx);
    assert_eq!(watcher.on_device_added(addr(1), Lookup::Untrusted), Outcome::Ignored);
    assert_eq!(watcher.on_device_added(addr(1), Lookup::Trusted), Outcome::Closed(added(1)));
    assert_eq!(watcher.on_device_removed(addr(1)), Outcome::Closed(removed(1)));
    assert_eq!(watcher.on_device_removed(addr(1)), Outcome::Ignored);
}

#[test]
fn start_stops_at_the_first_refused_event() {
    let (tx, mut rx) = unbounded_channel();
    let mut watcher = TrustedWatcher::new(tx);
    let first = watcher.start(&vec![
        Notification::DeviceAdded(addr(1), Lookup::Trusted),
        Notification::Other,
    ]);
    assert_eq!(first, Report { processed: 2, delivered: vec![added(1)], refused: None });
    assert_eq!(drain(&mut rx), vec![added(1)]);
    drop(rx);
    let second = watcher.start(&vec![
        Notification::DeviceRemoved(addr(9)),
        Notification::DeviceAdded(addr(1), Lookup::Trusted),
        Notification::DeviceAdded(addr(2), Lookup::Trusted),
        Notification::DeviceAdded(addr(3), Lookup::Trusted),
    ]);
    assert_eq!(second, Report { processed: 3, delivered: vec![], refused: Some(added(2)) });
    assert!(watcher.is_tracked(&addr(2)));
    assert!(!watcher.is_tracked(&addr(3)));
}

#[test]
fn start_on_nothing_does_nothing() {
    let (tx, mut rx) = unbounded_channel();
    let mut watcher = TrustedWatcher::new(tx);
    let report = watcher.start(&Vec::new());
    assert_eq!(report, Report { processed: 0, delivered: vec![], refused: None });
    assert_eq!(drain(&mut rx), vec![]);
}

#[test]
fn only_a_refused_event_stops_the_watcher() {
    assert!(!Outcome::Ignored.must_stop());
    assert!(!Outcome::Sent(added(1)).must_stop());
    assert!(Outcome::Closed(added(1)).must_stop());
    let (tx, rx) = unbounded_channel();
    let mut watcher = TrustedWatcher::new(tx);
    assert!(!watcher.on_device_added(addr(1), Lookup::Trusted).must_stop());
    drop(rx);
    assert!(!watcher.on_device_added(addr(1), Lookup::Trusted).must_stop());
    assert!(watcher.on_device_removed(addr(1)).must_stop());
}
