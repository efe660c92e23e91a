//! The reconnect loop of one device, as the decisions it takes: what to do
//! next, and what to say about it, after each thing that happens.

use std::time::Duration;
use vstd::prelude::*;
use vstd::string::StringExecFns;
use crate::device::{alias_text, device_label, name_text, pretty_device_name, Device, DeviceError};

verus! {

/// The seconds between two attempts to connect a device.
pub const RETRY_INTERVAL_SECS: u64 = 10;

/// What happened since the loop last decided.
#[derive(Debug, PartialEq, Eq)]
pub enum Signal {
    /// A cycle begins: the loop has just started, or its sleep is over.
    Wake,
    /// The query whether the device is connected has returned.
    Connected(Result<bool, DeviceError>),
    /// The attempt to connect has returned.
    ConnectFinished(Result<(), DeviceError>),
}

/// What the loop does next.
#[derive(Clone, Copy, Debug, PartialEq, Eq)]
pub enum Action {
    /// Ask the device whether it is connected.
    QueryConnected,
    /// Try to connect the device.
    Connect,
    /// Sleep for the given time; then a new cycle begins.
    Sleep(Duration),
}

/// One decision of the loop: a line to print, if any, and what to do next.
#[derive(Clone, Debug, PartialEq, Eq)]
pub struct Step {
    pub log: Option<String>,
    pub action: Action,
}

/// Whether the device counts as connected. A failed query counts as not
/// connected, so that a connection is attempted rather than missed.
pub open spec fn is_connected(connected: Result<bool, DeviceError>) -> bool {
    connected == Ok::<bool, DeviceError>(true)
}

/// The line that announces an attempt to connect.
pub open spec fn attempt_line(label: Seq<char>) -> Seq<char> {
    label + ": attempting to connect..."@
}

/// The line that reports a successful attempt.
pub open spec fn success_line(label: Seq<char>) -> Seq<char> {
    label + ": device connected successfully"@
}

/// The line that reports a failed attempt and its reason.
pub open spec fn failure_line(label: Seq<char>, reason: Seq<char>) -> Seq<char> {
    label + ": connection failed (err="@ + reason + ")"@
}

/// The line to print after `signal`, if any.
pub open spec fn log_after(label: Seq<char>, signal: Signal) -> Option<Seq<char>> {
    match signal {
        Signal::Wake => None,
        Signal::Connected(connected) => if is_connected(connected) {
            None
        } else {
            Some(attempt_line(label))
        },
        Signal::ConnectFinished(Ok(_)) => Some(success_line(label)),
        Signal::ConnectFinished(Err(error)) => Some(failure_line(label, error.message@)),
    }
}

/// What to do after `signal`: a cycle begins with the query; a device that
/// is not connected gets an attempt; after that, whatever its result, and
/// for a device that is connected already, the loop sleeps.
pub open spec fn action_after(interval: Duration, signal: Signal) -> Action {
    match signal {
        Signal::Wake => Action::QueryConnected,
        Signal::Connected(connected) => if is_connected(connected) {
            Action::Sleep(interval)
        } else {
            Action::Connect
        },
        Signal::ConnectFinished(_) => Action::Sleep(interval),
    }
}

/// The view of an optional line.
pub open spec fn line_text(line: Option<String>) -> Option<Seq<char>> {
    match line {
        Some(text) => Some(text@),
        None => None,
    }
}

/// Keeps one device connected: it tries to connect whenever the device is
/// found unconnected, sleeps a fixed time, and begins again, for ever.
pub struct AutoConnect {
    device: Device,
    device_name: String,
    retry_interval: Duration,
}

impl AutoConnect {
    /// The device that is kept connected.
    pub closed spec fn spec_device(&self) -> Device {
        self.device
    }

    /// The label under which the loop speaks of its device.
    pub closed spec fn label(&self) -> Seq<char> {
        self.device_name@
    }

    /// The time between two cycles.
    pub closed spec fn interval(&self) -> Duration {
        self.retry_interval
    }

    /// The loop for `device`, which sleeps `retry_interval` between cycles
    /// and speaks of the device by the label that `alias` and `name`, the
    /// results of its alias and name queries, give it.
    pub fn new(
        device: Device,
        alias: &Result<String, DeviceError>,
        name: &Result<Option<String>, DeviceError>,
        retry_interval: Duration,
    ) -> (connector: AutoConnect)
        ensures
            connector.spec_device() == device,
            connector.label() == device_label(device.address, alias_text(*alias), name_text(*name)),
            connector.interval() == retry_interval,
    {
        let device_name = pretty_device_name(&device, alias, name);
        AutoConnect { device, device_name, retry_interval }
    }

    /// The device that is kept connected.
    pub fn device(&self) -> (device: Device)
        ensures
            device == self.spec_device(),
    {
        self.device
    }

    /// The label under which the loop speaks of its device.
    pub fn device_name(&self) -> (label: &str)
        ensures
            label@ == self.label(),
    {
        self.device_name.as_str()
    }

    /// The time between two cycles.
    pub fn retry_interval(&self) -> (interval: Duration)
        ensures
            interval == self.interval(),
    {
        self.retry_interval
    }

    /// The label followed by `rest`.
    fn line(&self, rest: &str) -> (line: String)
        ensures
            line@ == self.label() + rest@,
    {
        let mut line = self.device_name.clone();
        line.append(rest);
        line
    }

    /// Decides one cycle once the device has said whether it is connected:
    /// a connected device is left alone until the next cycle, any other, and
    /// one whose query failed, gets an attempt, which is announced.
    pub fn connect_device(&self, connected: Result<bool, DeviceError>) -> (step: Step)
        ensures
            step.action == action_after(self.interval(), Signal::Connected(connected)),
            line_text(step.log) == log_after(self.label(), Signal::Connected(connected)),
    {
        match connected {
            Ok(true) => Step { log: None, action: Action::Sleep(self.retry_interval) },
            _ => Step {
                log: Some(self.line(": attempting to connect...")),
                action: Action::Connect,
            },
        }
    }

    /// Reports how an attempt to connect ended and sends the loop to sleep:
    /// a failure is reported with its reason and tried again next cycle.
    pub fn connect_finished(&self, result: Result<(), DeviceError>) -> (step: Step)
        ensures
            step.action == action_after(self.interval(), Signal::ConnectFinished(result)),
            line_text(step.log) == log_after(self.label(), Signal::ConnectFinished(result)),
    {
        let log = match result {
            Ok(_) => self.line(": device connected successfully"),
            Err(error) => {
                let mut line = self.line(": connection failed (err=");
                line.append(error.message.as_str());
                line.append(")");
                line
            },
        };
        Step { log: Some(log), action: Action::Sleep(self.retry_interval) }
    }

    /// Decides what the loop does after `signal`, and what it prints. The
    /// loop never ends by itself: every answer is a further action.
    pub fn run(&self, signal: Signal) -> (step: Step)
        ensures
            step.action == action_after(self.interval(), signal),
            line_text(step.log) == log_after(self.label(), signal),
    {
        match signal {
            Signal::Wake => Step { log: None, action: Action::QueryConnected },
            Signal::Connected(connected) => self.connect_device(connected),
            Signal::ConnectFinished(result) => self.connect_finished(result),
        }
    }
}

/// A device that reports to be connected is never sent a connect: the cycle
/// goes to sleep at once and prints nothing.
pub proof fn lemma_connected_device_is_left_alone(label: Seq<char>, interval: Duration)
    ensures
        action_after(interval, Signal::Connected(Ok(true))) == Action::Sleep(interval),
        log_after(label, Signal::Connected(Ok(true))) is None,
{
}

/// Every attempt, failed or not, is followed by the same sleep, and every
/// sleep by a new query: the loop has no state in which it stops.
pub proof fn lemma_loop_keeps_trying(interval: Duration, result: Result<(), DeviceError>)
    ensures
        action_after(interval, Signal::ConnectFinished(result)) == Action::Sleep(interval),
        action_after(interval, Signal::Wake) == Action::QueryConnected,
{
}

} // verus!
