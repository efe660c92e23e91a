//! The watcher of trusted devices: it turns the adapter's raw discovery
//! notifications into lifecycle events, one per transition of a device.

use std::collections::HashMap;
use vstd::prelude::*;
use tokio::sync::mpsc::UnboundedSender;
use crate::address::{lemma_key_is_injective, Address};
use crate::channel::{offer, taken};
use crate::device::Device;

verus! {

/// A lifecycle event of a trusted device.
#[derive(Clone, Copy, Debug, PartialEq, Eq)]
pub enum Event {
    /// The device came into view and is now watched.
    DeviceAdded(Device),
    /// The device, watched until now, went away.
    DeviceRemoved(Device),
}

/// What the adapter answered when asked about a discovered address.
#[derive(Clone, Copy, Debug, PartialEq, Eq)]
pub enum Lookup {
    /// The adapter was not asked, which is in order for a device that is
    /// tracked already.
    NotAsked,
    /// The address could not be resolved to a device.
    NotFound,
    /// The device was found, but the query for its trust flag failed.
    TrustUnknown,
    /// The device was found and is not trusted.
    Untrusted,
    /// The device was found and is trusted.
    Trusted,
}

/// A raw notification of the adapter's discovery stream.
#[derive(Clone, Copy, Debug, PartialEq, Eq)]
pub enum Notification {
    /// A device was discovered or changed; with it, what the adapter said of
    /// the address.
    DeviceAdded(Address, Lookup),
    /// A device disappeared.
    DeviceRemoved(Address),
    /// Anything else the adapter reports.
    Other,
}

/// What became of a notification.
#[derive(Clone, Copy, Debug, PartialEq, Eq)]
pub enum Outcome {
    /// Nothing was emitted.
    Ignored,
    /// The event was emitted and the channel took it.
    Sent(Event),
    /// The event was due, but the channel's receiver is gone: the watcher has
    /// no consumer left and must stop.
    Closed(Event),
}

/// The event that a notification causes, given the addresses watched so far.
/// Only a trusted device that is not yet watched is added, and only a watched
/// one is removed.
pub open spec fn emitted_by(watched: Set<Address>, notification: Notification) -> Option<Event> {
    match notification {
        Notification::DeviceAdded(address, lookup) => if !watched.contains(address)
            && lookup is Trusted {
            Some(Event::DeviceAdded(Device { address }))
        } else {
            None
        },
        Notification::DeviceRemoved(address) => if watched.contains(address) {
            Some(Event::DeviceRemoved(Device { address }))
        } else {
            None
        },
        Notification::Other => None,
    }
}

/// The watched addresses once an event has been applied.
pub open spec fn watched_with(watched: Set<Address>, event: Option<Event>) -> Set<Address> {
    match event {
        Some(Event::DeviceAdded(device)) => watched.insert(device.address),
        Some(Event::DeviceRemoved(device)) => watched.remove(device.address),
        None => watched,
    }
}

/// The watched addresses after a notification.
pub open spec fn watched_after(watched: Set<Address>, notification: Notification) -> Set<Address> {
    watched_with(watched, emitted_by(watched, notification))
}

/// The watched addresses after a run of notifications, handled in order.
pub open spec fn watched_after_all(watched: Set<Address>, notifications: Seq<Notification>) -> Set<
    Address,
>
    decreases notifications.len(),
{
    if notifications.len() == 0 {
        watched
    } else {
        watched_after(
            watched_after_all(watched, notifications.drop_last()),
            notifications.last(),
        )
    }
}

/// The events that a run of notifications causes, in order.
pub open spec fn emitted_by_all(watched: Set<Address>, notifications: Seq<Notification>) -> Seq<
    Event,
>
    decreases notifications.len(),
{
    if notifications.len() == 0 {
        Seq::empty()
    } else {
        let earlier = emitted_by_all(watched, notifications.drop_last());
        match emitted_by(
            watched_after_all(watched, notifications.drop_last()),
            notifications.last(),
        ) {
            Some(event) => earlier.push(event),
            None => earlier,
        }
    }
}

/// Whether `outcome` reports the sending of exactly the event that was due.
pub open spec fn outcome_matches(outcome: Outcome, due: Option<Event>) -> bool {
    match due {
        None => outcome == Outcome::Ignored,
        Some(event) => outcome == Outcome::Sent(event) || outcome == Outcome::Closed(event),
    }
}

/// The event that the channel refused, as a run of at most one event.
pub open spec fn refused_events(refused: Option<Event>) -> Seq<Event> {
    match refused {
        Some(event) => seq![event],
        None => Seq::empty(),
    }
}

/// How far a run of notifications got.
#[derive(Clone, Debug, PartialEq, Eq)]
pub struct Report {
    /// How many notifications were handled, counted from the first.
    pub processed: usize,
    /// The events that the channel took, in order.
    pub delivered: Vec<Event>,
    /// The event that the channel refused, on which the run stopped.
    pub refused: Option<Event>,
}

/// The events that the channel has taken once `outcome` has come about.
pub open spec fn sent_after(sent: Seq<Event>, outcome: Outcome) -> Seq<Event> {
    match outcome {
        Outcome::Sent(event) => sent.push(event),
        _ => sent,
    }
}

impl Outcome {
    /// Whether the watcher has to stop: it has, once the channel has refused
    /// an event, for then nobody is left to receive one.
    pub fn must_stop(&self) -> (stop: bool)
        ensures
            stop == (*self is Closed),
    {
        match self {
            Outcome::Closed(_) => true,
            _ => false,
        }
    }
}

/// The watched devices, each under the key of its address.
struct WatchList {
    devices: HashMap<u64, Device>,
}

impl View for WatchList {
    type V = Set<Address>;

    /// The addresses of the devices on the list.
    closed spec fn view(&self) -> Set<Address> {
        Set::new(|address: Address| self.devices@.contains_key(address.spec_key() as u64))
    }
}

impl WatchList {
    /// Every device is stored under the key of its own address.
    #[verifier::type_invariant]
    spec fn keyed_by_address(self) -> bool {
        forall|key: u64| #[trigger]
            self.devices@.contains_key(key) ==> self.devices@[key].address.spec_key() == key
    }

    /// A list without devices.
    fn new() -> (list: WatchList)
        ensures
            list@ == Set::<Address>::empty(),
    {
        let list = WatchList { devices: HashMap::new() };
        assert(list@ =~= Set::<Address>::empty());
        list
    }

    /// Whether the device at `addr` is on the list.
    fn contains(&self, addr: &Address) -> (listed: bool)
        ensures
            listed == self@.contains(*addr),
    {
        let key = addr.key();
        self.devices.contains_key(&key)
    }

    /// Puts `dev` on the list.
    fn insert(&mut self, dev: Device)
        ensures
            final(self)@ == old(self)@.insert(dev.address),
    {
        proof {
            use_type_invariant(&*self);
        }
        let key = dev.address.key();
        let mut devices: HashMap<u64, Device> = HashMap::new();
        std::mem::swap(&mut self.devices, &mut devices);
        devices.insert(key, dev);
        std::mem::swap(&mut self.devices, &mut devices);
        proof {
            assert forall|address: Address|
                self@.contains(address) == old(self)@.insert(dev.address).contains(address) by {
                if address.spec_key() == dev.address.spec_key() {
                    lemma_key_is_injective(address, dev.address);
                }
            }
            assert(self@ =~= old(self)@.insert(dev.address));
        }
    }

    /// Takes the device at `addr` off the list and hands it out, if it is on
    /// the list.
    fn remove(&mut self, addr: Address) -> (found: Option<Device>)
        ensures
            final(self)@ == old(self)@.remove(addr),
            found == if old(self)@.contains(addr) {
                Some(Device { address: addr })
            } else {
                None
            },
    {
        proof {
            use_type_invariant(&*self);
        }
        let key = addr.key();
        let mut devices: HashMap<u64, Device> = HashMap::new();
        std::mem::swap(&mut self.devices, &mut devices);
        let found = devices.remove(&key);
        std::mem::swap(&mut self.devices, &mut devices);
        proof {
            match found {
                Some(dev) => {
                    lemma_key_is_injective(dev.address, addr);
                },
                None => {},
            }
            assert forall|address: Address|
                self@.contains(address) == old(self)@.remove(addr).contains(address) by {
                if address.spec_key() == addr.spec_key() {
                    lemma_key_is_injective(address, addr);
                }
            }
            assert(self@ =~= old(self)@.remove(addr));
        }
        found
    }
}

/// Tracks the trusted devices in view and emits their lifecycle events.
pub struct TrustedWatcher {
    devices: WatchList,
    events: UnboundedSender<Event>,
}

impl View for TrustedWatcher {
    type V = Set<Address>;

    /// The addresses of the watched devices.
    closed spec fn view(&self) -> Set<Address> {
        self.devices@
    }
}

impl TrustedWatcher {
    /// The events that the channel has taken from the watcher's sender,
    /// oldest first.
    pub closed spec fn sent(&self) -> Seq<Event> {
        taken(self.events)
    }

    /// A watcher that tracks nothing yet and emits on `events_tx`.
    pub fn new(events_tx: UnboundedSender<Event>) -> (watcher: TrustedWatcher)
        ensures
            watcher@ == Set::<Address>::empty(),
            watcher.sent() == taken(events_tx),
    {
        TrustedWatcher { devices: WatchList::new(), events: events_tx }
    }

    /// Whether the device at `addr` is watched.
    pub fn is_tracked(&self, addr: &Address) -> (watched: bool)
        ensures
            watched == self@.contains(*addr),
    {
        self.devices.contains(addr)
    }

    /// Offers `event` to the channel and says what became of it.
    fn emit(&mut self, event: Event) -> (outcome: Outcome)
        ensures
            final(self)@ == old(self)@,
            outcome_matches(outcome, Some(event)),
            final(self).sent() == sent_after(old(self).sent(), outcome),
    {
        if offer(&mut self.events, event) {
            Outcome::Sent(event)
        } else {
            Outcome::Closed(event)
        }
    }

    /// Starts tracking `dev` and emits its `DeviceAdded` event.
    fn watch_device(&mut self, dev: Device) -> (outcome: Outcome)
        ensures
            final(self)@ == old(self)@.insert(dev.address),
            outcome_matches(outcome, Some(Event::DeviceAdded(dev))),
            final(self).sent() == sent_after(old(self).sent(), outcome),
    {
        self.devices.insert(dev);
        self.emit(Event::DeviceAdded(dev))
    }

    /// Handles the notification that a device at `addr` was discovered or
    /// changed, given what the adapter said of that address. A device that is
    /// watched already, cannot be resolved, or is not known to be trusted is
    /// ignored; any other is watched from now on and its addition is offered
    /// to the channel.
    pub fn on_device_added(&mut self, addr: Address, lookup: Lookup) -> (outcome: Outcome)
        ensures
            final(self)@ == watched_after(old(self)@, Notification::DeviceAdded(addr, lookup)),
            outcome_matches(
                outcome,
                emitted_by(old(self)@, Notification::DeviceAdded(addr, lookup)),
            ),
            final(self).sent() == sent_after(old(self).sent(), outcome),
    {
        if self.is_tracked(&addr) {
            return Outcome::Ignored;
        }
        match lookup {
            Lookup::Trusted => self.watch_device(Device::new(addr)),
            _ => Outcome::Ignored,
        }
    }

    /// Handles the notification that the device at `addr` disappeared. One
    /// that is not watched is ignored; a watched one is dropped and its
    /// removal is offered to the channel.
    pub fn on_device_removed(&mut self, addr: Address) -> (outcome: Outcome)
        ensures
            final(self)@ == watched_after(old(self)@, Notification::DeviceRemoved(addr)),
            outcome_matches(outcome, emitted_by(old(self)@, Notification::DeviceRemoved(addr))),
            final(self).sent() == sent_after(old(self).sent(), outcome),
    {
        match self.devices.remove(addr) {
            Some(dev) => self.emit(Event::DeviceRemoved(dev)),
            None => {
                assert(self@ =~= old(self)@);
                Outcome::Ignored
            },
        }
    }

    /// Handles one raw notification of the discovery stream.
    pub fn handle(&mut self, notification: Notification) -> (outcome: Outcome)
        ensures
            final(self)@ == watched_after(old(self)@, notification),
            outcome_matches(outcome, emitted_by(old(self)@, notification)),
            final(self).sent() == sent_after(old(self).sent(), outcome),
    {
        match notification {
            Notification::DeviceAdded(addr, lookup) => self.on_device_added(addr, lookup),
            Notification::DeviceRemoved(addr) => self.on_device_removed(addr),
            Notification::Other => Outcome::Ignored,
        }
    }

    /// Handles a run of raw notifications in order. The run ends when every
    /// notification has been handled, or with the first event that the
    /// channel refuses: without a consumer there is nothing left to watch for.
    pub fn start(&mut self, notifications: &Vec<Notification>) -> (report: Report)
        ensures
            final(self).sent() == old(self).sent() + report.delivered@,
            report.processed <= notifications.len(),
            report.refused is None ==> report.processed == notifications.len(),
            final(self)@ == watched_after_all(
                old(self)@,
                notifications@.take(report.processed as int),
            ),
            report.delivered@ + refused_events(report.refused) == emitted_by_all(
                old(self)@,
                notifications@.take(report.processed as int),
            ),
            report.refused is Some ==> report.processed > 0 && report.refused == emitted_by(
                watched_after_all(old(self)@, notifications@.take(report.processed - 1)),
                notifications@[report.processed - 1],
            ),
    {
        let mut delivered: Vec<Event> = Vec::new();
        let mut i: usize = 0;
        assert(notifications@.take(0) =~= Seq::empty());
        assert(self.sent() + delivered@ =~= self.sent());
        while i < notifications.len()
            invariant
                i <= notifications.len(),
                self.sent() == old(self).sent() + delivered@,
                self@ == watched_after_all(old(self)@, notifications@.take(i as int)),
                delivered@ == emitted_by_all(old(self)@, notifications@.take(i as int)),
            decreases notifications.len() - i,
        {
            let outcome = self.handle(notifications[i]);
            proof {
                let upto = notifications@.take(i + 1);
                assert(upto.drop_last() =~= notifications@.take(i as int));
                assert(upto.last() == notifications@[i as int]);
            }
            i = i + 1;
            match outcome {
                Outcome::Ignored => {},
                Outcome::Sent(event) => {
                    assert(old(self).sent() + delivered@.push(event) =~= (old(self).sent()
                        + delivered@).push(event));
                    delivered.push(event);
                },
                Outcome::Closed(event) => {
                    assert(delivered@ + seq![event] =~= delivered@.push(event));
                    return Report { processed: i, delivered, refused: Some(event) };
                },
            }
        }
        assert(notifications@.take(i as int) =~= notifications@);
        assert(delivered@ + Seq::<Event>::empty() =~= delivered@);
        Report { processed: i, delivered, refused: None }
    }
}

/// Whether a notification speaks of `address` or of no device at all.
pub open spec fn concerns(notification: Notification, address: Address) -> bool {
    match notification {
        Notification::DeviceAdded(about, _) => about == address,
        Notification::DeviceRemoved(about) => about == address,
        Notification::Other => true,
    }
}

/// Whether `events` are all about the device at `address` and take turns:
/// additions at the even places if `added_first`, at the odd ones otherwise,
/// and removals at the others.
pub open spec fn alternates(events: Seq<Event>, address: Address, added_first: bool) -> bool {
    forall|i: int|
        0 <= i < events.len() ==> #[trigger] events[i] == if (i % 2 == 0) == added_first {
            Event::DeviceAdded(Device { address })
        } else {
            Event::DeviceRemoved(Device { address })
        }
}

/// The addresses that a consumer of `events` holds, if it held `watched`
/// before and adds and removes as the events say.
pub open spec fn replayed(watched: Set<Address>, events: Seq<Event>) -> Set<Address>
    decreases events.len(),
{
    if events.len() == 0 {
        watched
    } else {
        watched_with(replayed(watched, events.drop_last()), Some(events.last()))
    }
}

/// Whether every addition in `events` is of a device that the consumer does
/// not hold at that moment, and every removal of one that it holds.
pub open spec fn well_paired(watched: Set<Address>, events: Seq<Event>) -> bool
    decreases events.len(),
{
    events.len() == 0 || {
        &&& well_paired(watched, events.drop_last())
        &&& match events.last() {
            Event::DeviceAdded(device) => !replayed(watched, events.drop_last()).contains(
                device.address,
            ),
            Event::DeviceRemoved(device) => replayed(watched, events.drop_last()).contains(
                device.address,
            ),
        }
    }
}

/// Discovering a trusted device twice in a row announces it at most once: the
/// second notification emits nothing, and the two together emit one addition
/// if the device was not watched before, and nothing if it was.
pub proof fn lemma_rediscovery_emits_once(watched: Set<Address>, address: Address)
    ensures
        emitted_by(
            watched_after(watched, Notification::DeviceAdded(address, Lookup::Trusted)),
            Notification::DeviceAdded(address, Lookup::Trusted),
        ) is None,
        emitted_by_all(
            watched,
            seq![
                Notification::DeviceAdded(address, Lookup::Trusted),
                Notification::DeviceAdded(address, Lookup::Trusted),
            ],
        ) == if watched.contains(address) {
            Seq::<Event>::empty()
        } else {
            seq![Event::DeviceAdded(Device { address })]
        },
{
    let added = Notification::DeviceAdded(address, Lookup::Trusted);
    let twice = seq![added, added];
    let once = seq![added];
    assert(twice.drop_last() =~= once);
    assert(once.drop_last() =~= Seq::<Notification>::empty());
    assert(emitted_by_all(watched, once.drop_last()) =~= Seq::<Event>::empty());
    assert(watched_after_all(watched, once.drop_last()) == watched);
    assert(watched_after_all(watched, once) == watched_after(watched, added));
    if watched.contains(address) {
        assert(emitted_by_all(watched, once) =~= Seq::<Event>::empty());
        assert(emitted_by_all(watched, twice) =~= Seq::<Event>::empty());
    } else {
        assert(emitted_by_all(watched, once) =~= seq![Event::DeviceAdded(Device { address })]);
        assert(emitted_by_all(watched, twice) =~= seq![Event::DeviceAdded(Device { address })]);
    }
}

/// A device that is not known to be trusted is never announced and never
/// watched: its discovery emits nothing and leaves the watched set as it was.
pub proof fn lemma_untrusted_is_ignored(watched: Set<Address>, address: Address, lookup: Lookup)
    requires
        !(lookup is Trusted),
    ensures
        emitted_by(watched, Notification::DeviceAdded(address, lookup)) is None,
        watched_after(watched, Notification::DeviceAdded(address, lookup)) == watched,
        !watched.contains(address) ==> !watched_after(
            watched,
            Notification::DeviceAdded(address, lookup),
        ).contains(address),
{
}

/// Removing a device that is not watched emits nothing and changes nothing.
pub proof fn lemma_unwatched_removal_is_ignored(watched: Set<Address>, address: Address)
    requires
        !watched.contains(address),
    ensures
        emitted_by(watched, Notification::DeviceRemoved(address)) is None,
        watched_after(watched, Notification::DeviceRemoved(address)) == watched,
{
}

/// Whatever notifications arrive about one device, its events take turns:
/// addition, removal, addition, and so on, beginning with an addition if the
/// device was not watched before and with a removal if it was. No event is
/// emitted without a notification, and the device is watched afterwards
/// exactly if the last event added it.
pub proof fn lemma_events_of_one_device_alternate(
    watched: Set<Address>,
    address: Address,
    notifications: Seq<Notification>,
)
    requires
        forall|i: int| 0 <= i < notifications.len() ==> concerns(#[trigger] notifications[i], address),
    ensures
        alternates(emitted_by_all(watched, notifications), address, !watched.contains(address)),
        emitted_by_all(watched, notifications).len() <= notifications.len(),
        watched_after_all(watched, notifications).contains(address) == (watched.contains(address)
            == (emitted_by_all(watched, notifications).len() % 2 == 0)),
    decreases notifications.len(),
{
    if notifications.len() > 0 {
        let earlier = notifications.drop_last();
        assert forall|i: int| 0 <= i < earlier.len() implies concerns(
            #[trigger] earlier[i],
            address,
        ) by {
            assert(earlier[i] == notifications[i]);
        }
        lemma_events_of_one_device_alternate(watched, address, earlier);
        assert(concerns(notifications[notifications.len() - 1], address));
    }
}

/// The events of any run of notifications are well paired, and a consumer
/// that replays them holds exactly the addresses that the watcher watches.
pub proof fn lemma_events_are_well_paired(watched: Set<Address>, notifications: Seq<Notification>)
    ensures
        well_paired(watched, emitted_by_all(watched, notifications)),
        replayed(watched, emitted_by_all(watched, notifications)) == watched_after_all(
            watched,
            notifications,
        ),
    decreases notifications.len(),
{
    if notifications.len() > 0 {
        let earlier = notifications.drop_last();
        lemma_events_are_well_paired(watched, earlier);
        let before = emitted_by_all(watched, earlier);
        match emitted_by(watched_after_all(watched, earlier), notifications.last()) {
            Some(event) => {
                assert(before.push(event).drop_last() =~= before);
                assert(before.push(event).last() == event);
            },
            None => {},
        }
    }
}

} // verus!
