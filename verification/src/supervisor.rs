//! The supervisor of reconnect tasks: one running task per watched device,
//! started when the device is added and cancelled when it is removed.

use std::collections::HashMap;
use vstd::prelude::*;
use vstd::string::StringExecFns;
use crate::address::{lemma_key_is_injective, Address};
use crate::auto_connect::line_text;
use crate::device::{head_of, label_head, Device};
use crate::watcher::Event;

verus! {

/// What the supervisor's caller has to do about a lifecycle event.
#[derive(Debug, PartialEq, Eq)]
pub enum Directive<T> {
    /// The device has no task: launch one and register it.
    Launch(Device),
    /// The device has a running task already: nothing is to be done.
    AlreadyRunning(Device),
    /// The device is gone: its task, taken out of the registry, is to be
    /// cancelled.
    Cancel(Device, T),
    /// A removal of a device that has no task. Nothing is to be done but to
    /// warn of it.
    Unknown(Device),
}

/// The warning about the removal of a device that has no task: it says what
/// happened and names the device by its address.
pub open spec fn unknown_removal_line(device: Device) -> Seq<char> {
    "Unknown device received in DeviceRemoved event: "@ + label_head(device.address)
}

/// The warning that a directive calls for: one line for `Unknown`, none for
/// any other.
pub open spec fn warning_for<T>(directive: Directive<T>) -> Option<Seq<char>> {
    match directive {
        Directive::Unknown(device) => Some(unknown_removal_line(device)),
        _ => None,
    }
}

impl<T> Directive<T> {
    /// The warning to print with this directive, if it calls for one.
    pub fn warning(&self) -> (line: Option<String>)
        ensures
            line_text(line) == warning_for(*self),
    {
        match self {
            Directive::Unknown(device) => {
                let mut line = String::from_str("Unknown device received in DeviceRemoved event: ");
                let head = head_of(device);
                line.append(head.as_str());
                Some(line)
            },
            _ => None,
        }
    }
}

/// What is to be done about `event`, given the tasks registered so far.
pub open spec fn directive_for<T>(registry: Map<Address, T>, event: Event) -> Directive<T> {
    match event {
        Event::DeviceAdded(device) => if registry.contains_key(device.address) {
            Directive::AlreadyRunning(device)
        } else {
            Directive::Launch(device)
        },
        Event::DeviceRemoved(device) => if registry.contains_key(device.address) {
            Directive::Cancel(device, registry[device.address])
        } else {
            Directive::Unknown(device)
        },
    }
}

/// The registry once `event` has been handled: a removal drops the device's
/// task, an addition changes nothing until the launched task is registered.
pub open spec fn registry_after<T>(registry: Map<Address, T>, event: Event) -> Map<Address, T> {
    match event {
        Event::DeviceAdded(_) => registry,
        Event::DeviceRemoved(device) => registry.remove(device.address),
    }
}

/// The registry once `task` has been offered for `device`: it is recorded
/// unless the device has a task already, which then stays.
pub open spec fn registry_with<T>(registry: Map<Address, T>, device: Device, task: T) -> Map<
    Address,
    T,
> {
    if registry.contains_key(device.address) {
        registry
    } else {
        registry.insert(device.address, task)
    }
}

/// The registry once an addition of `device` has been handled and acted on:
/// where a launch was directed, `spawned` is the task that was launched.
pub open spec fn registry_after_addition<T>(
    registry: Map<Address, T>,
    device: Device,
    spawned: T,
) -> Map<Address, T> {
    match directive_for(registry, Event::DeviceAdded(device)) {
        Directive::Launch(_) => registry_with(registry, device, spawned),
        _ => registry,
    }
}

/// The registry after one addition of `device` for each task of `spawned`,
/// the task being the one to launch if that addition directs a launch.
pub open spec fn registry_after_additions<T>(
    registry: Map<Address, T>,
    device: Device,
    spawned: Seq<T>,
) -> Map<Address, T>
    decreases spawned.len(),
{
    if spawned.len() == 0 {
        registry
    } else {
        registry_after_addition(
            registry_after_additions(registry, device, spawned.drop_last()),
            device,
            spawned.last(),
        )
    }
}

/// How many of the additions of `device`, one for each task of `spawned`,
/// direct a launch.
pub open spec fn launches<T>(registry: Map<Address, T>, device: Device, spawned: Seq<T>) -> nat
    decreases spawned.len(),
{
    if spawned.len() == 0 {
        0
    } else {
        let before = registry_after_additions(registry, device, spawned.drop_last());
        let earlier = launches(registry, device, spawned.drop_last());
        if directive_for(before, Event::DeviceAdded(device)) is Launch {
            earlier + 1
        } else {
            earlier
        }
    }
}

/// The registry of running reconnect tasks, by device. `T` is whatever
/// stands for a running task and lets it be cancelled.
pub struct Supervisor<T> {
    tasks: HashMap<u64, T>,
}

impl<T> View for Supervisor<T> {
    type V = Map<Address, T>;

    /// The registered tasks, each under the address of its device.
    closed spec fn view(&self) -> Map<Address, T> {
        Map::new(
            |address: Address| self.tasks@.contains_key(address.spec_key() as u64),
            |address: Address| self.tasks@[address.spec_key() as u64],
        )
    }
}

impl<T> Supervisor<T> {
    /// A supervisor without tasks.
    pub fn new() -> (supervisor: Supervisor<T>)
        ensures
            supervisor@ == Map::<Address, T>::empty(),
    {
        let supervisor = Supervisor { tasks: HashMap::new() };
        assert(supervisor@ =~= Map::<Address, T>::empty());
        supervisor
    }

    /// Whether the device at `addr` has a registered task.
    pub fn is_registered(&self, addr: &Address) -> (registered: bool)
        ensures
            registered == self@.contains_key(*addr),
    {
        let key = addr.key();
        self.tasks.contains_key(&key)
    }

    /// Decides what is to be done about a lifecycle event. An added device
    /// without a task is to get one; one that has a task already is left
    /// alone. A removed device loses its task, which is handed out to be
    /// cancelled; a removal of a device without a task changes nothing.
    pub fn on_event(&mut self, event: Event) -> (directive: Directive<T>)
        ensures
            directive == directive_for(old(self)@, event),
            final(self)@ == registry_after(old(self)@, event),
    {
        match event {
            Event::DeviceAdded(dev) => {
                if self.is_registered(&dev.address) {
                    Directive::AlreadyRunning(dev)
                } else {
                    Directive::Launch(dev)
                }
            },
            Event::DeviceRemoved(dev) => {
                let key = dev.address.key();
                match self.tasks.remove(&key) {
                    Some(task) => {
                        proof {
                            assert forall|address: Address|
                                (#[trigger] address.spec_key()) == dev.address.spec_key() implies address
                                == dev.address by {
                                lemma_key_is_injective(address, dev.address);
                            }
                            assert(self@ =~= old(self)@.remove(dev.address));
                        }
                        Directive::Cancel(dev, task)
                    },
                    None => {
                        assert(self@ =~= old(self)@);
                        Directive::Unknown(dev)
                    },
                }
            },
        }
    }

    /// Records `task` as the running task of `dev`. If the device has a task
    /// already, that one stays and `task` is handed back to be cancelled, so
    /// that no device ever has two.
    pub fn register(&mut self, dev: Device, task: T) -> (surplus: Option<T>)
        ensures
            final(self)@ == registry_with(old(self)@, dev, task),
            surplus == if old(self)@.contains_key(dev.address) {
                Some(task)
            } else {
                None
            },
    {
        let key = dev.address.key();
        if self.tasks.contains_key(&key) {
            Some(task)
        } else {
            self.tasks.insert(key, task);
            proof {
                assert forall|address: Address|
                    (#[trigger] address.spec_key()) == dev.address.spec_key() implies address
                    == dev.address by {
                    lemma_key_is_injective(address, dev.address);
                }
                assert(self@ =~= old(self)@.insert(dev.address, task));
            }
            None
        }
    }
}

/// However often a device is added in a row, it has exactly one task
/// afterwards: the one it had before, or else the first that was launched.
/// At most one launch is directed, and none if the device had a task.
pub proof fn lemma_one_task_per_device<T>(
    registry: Map<Address, T>,
    device: Device,
    spawned: Seq<T>,
)
    requires
        spawned.len() > 0,
    ensures
        registry_after_additions(registry, device, spawned) == registry_with(
            registry,
            device,
            spawned[0],
        ),
        registry_after_additions(registry, device, spawned).contains_key(device.address),
        launches(registry, device, spawned) == if registry.contains_key(device.address) {
            0nat
        } else {
            1nat
        },
    decreases spawned.len(),
{
    let earlier = spawned.drop_last();
    if earlier.len() == 0 {
        assert(registry_after_additions(registry, device, earlier) == registry);
        assert(launches(registry, device, earlier) == 0);
    } else {
        lemma_one_task_per_device(registry, device, earlier);
        assert(earlier[0] == spawned[0]);
    }
}

/// A device that is added, however often, to a registry without tasks is
/// afterwards the only device with a task, and that task is the first that
/// was launched.
pub proof fn lemma_one_task_from_nothing<T>(device: Device, spawned: Seq<T>)
    requires
        spawned.len() > 0,
    ensures
        registry_after_additions(Map::<Address, T>::empty(), device, spawned) == Map::<
            Address,
            T,
        >::empty().insert(device.address, spawned[0]),
        registry_after_additions(Map::<Address, T>::empty(), device, spawned).dom() == set![
            device.address,
        ],
        launches(Map::<Address, T>::empty(), device, spawned) == 1,
{
    lemma_one_task_per_device(Map::<Address, T>::empty(), device, spawned);
    assert(Map::<Address, T>::empty().insert(device.address, spawned[0]).dom() =~= set![
        device.address,
    ]);
}

/// The removal of a device that has no task is answered by `Unknown`, which
/// calls for exactly the warning that names the device, and leaves the
/// registry as it was. No other directive calls for a warning.
pub proof fn lemma_unknown_removal_changes_nothing<T>(registry: Map<Address, T>, device: Device)
    requires
        !registry.contains_key(device.address),
    ensures
        directive_for(registry, Event::DeviceRemoved(device)) == Directive::<T>::Unknown(device),
        registry_after(registry, Event::DeviceRemoved(device)) == registry,
        warning_for(directive_for(registry, Event::DeviceRemoved(device))) == Some(
            unknown_removal_line(device),
        ),
        forall|event: Event| #[trigger]
            warning_for(directive_for(registry, event)) is Some ==> event is DeviceRemoved
                && !registry.contains_key(event->DeviceRemoved_0.address),
{
    assert(registry.remove(device.address) =~= registry);
}

/// A device that is added, given its task, and removed again leaves the
/// registry without a task for it, and the task that is handed out to be
/// cancelled is the one that was registered.
pub proof fn lemma_removal_cancels_the_registered_task<T>(
    registry: Map<Address, T>,
    device: Device,
    task: T,
)
    requires
        !registry.contains_key(device.address),
    ensures
        directive_for(registry_with(registry, device, task), Event::DeviceRemoved(device))
            == Directive::Cancel(device, task),
        registry_after(registry_with(registry, device, task), Event::DeviceRemoved(device))
            == registry,
{
    assert(registry.insert(device.address, task).remove(device.address) =~= registry);
}

} // verus!
