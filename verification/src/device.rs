//! Device handles, the errors their queries report, and the label that
//! diagnostics print for a device.

use vstd::prelude::*;
use vstd::string::StringExecFns;
use crate::address::{address_text, Address};

verus! {

/// A reference to a physical device, identified by its address.
#[derive(Clone, Copy, Debug, PartialEq, Eq, Hash)]
pub struct Device {
    pub address: Address,
}

/// Why a query or an operation on a device did not succeed.
#[derive(Clone, Debug, PartialEq, Eq)]
pub struct DeviceError {
    pub message: String,
}

impl Device {
    /// The handle of the device at `address`.
    pub fn new(address: Address) -> (device: Device)
        ensures
            device.address == address,
    {
        Device { address }
    }

    /// The address that identifies the device.
    pub fn address(&self) -> (address: Address)
        ensures
            address == self.address,
    {
        self.address
    }
}

impl DeviceError {
    /// An error with the given description.
    pub fn new(message: String) -> (error: DeviceError)
        ensures
            error.message == message,
    {
        DeviceError { message }
    }
}

/// The alias to print: the reported one, or none where the query failed.
pub open spec fn alias_text(alias: Result<String, DeviceError>) -> Seq<char> {
    match alias {
        Ok(text) => text@,
        Err(_) => Seq::empty(),
    }
}

/// The name to print, if the device reported one that is not empty. An empty
/// name, no name and a failed query all leave nothing to print.
pub open spec fn name_text(name: Result<Option<String>, DeviceError>) -> Option<Seq<char>> {
    match name {
        Ok(Some(text)) => if text@.len() > 0 {
            Some(text@)
        } else {
            None
        },
        _ => None,
    }
}

/// The bracketed address that every label begins with.
pub open spec fn label_head(address: Address) -> Seq<char> {
    seq!['['] + address_text(address.octets()) + seq![']']
}

/// The label of a device with a non-empty alias, or with a name.
pub open spec fn label_with(address: Address, what: Seq<char>) -> Seq<char> {
    label_head(address) + seq![' '] + what
}

/// The label of a device: its address in brackets, followed by the alias if
/// that is not empty, else by the name if there is one, else by nothing.
/// Where alias and name are both empty, the label is the bare address.
pub open spec fn device_label(address: Address, alias: Seq<char>, name: Option<Seq<char>>) -> Seq<
    char,
> {
    if alias.len() > 0 {
        label_with(address, alias)
    } else {
        match name {
            Some(text) => label_with(address, text),
            None => label_head(address),
        }
    }
}

/// The bracketed address of `dev`.
pub(crate) fn head_of(dev: &Device) -> (head: String)
    ensures
        head@ == label_head(dev.address),
{
    proof {
        reveal_strlit("[");
        reveal_strlit("]");
    }
    let mut head = String::from_str("[");
    let address = dev.address.to_text();
    head.append(address.as_str());
    head.append("]");
    assert(head@ =~= label_head(dev.address));
    head
}

/// The bracketed address of `dev`, a space, and `what`.
fn head_and(dev: &Device, what: &str) -> (label: String)
    ensures
        label@ == label_with(dev.address, what@),
{
    proof {
        reveal_strlit(" ");
    }
    let mut label = head_of(dev);
    label.append(" ");
    label.append(what);
    assert(label@ =~= label_with(dev.address, what@));
    label
}

/// The label that the alias alone decides: some label exactly when the alias
/// was reported and is not empty. Where it gives none, the name decides.
pub fn label_from_alias(dev: &Device, alias: &Result<String, DeviceError>) -> (label: Option<
    String,
>)
    ensures
        alias_text(*alias).len() > 0 <==> label is Some,
        label is Some ==> label->0@ == label_with(dev.address, alias_text(*alias)),
{
    match alias {
        Ok(text) => {
            if text.as_str().is_empty() {
                None
            } else {
                Some(head_and(dev, text.as_str()))
            }
        },
        Err(_) => None,
    }
}

/// The label of a device without a usable alias: with its name if one was
/// reported and is not empty, bare otherwise.
pub fn label_from_name(dev: &Device, name: &Result<Option<String>, DeviceError>) -> (label: String)
    ensures
        label@ == device_label(dev.address, Seq::empty(), name_text(*name)),
{
    match name {
        Ok(Some(text)) => {
            if text.as_str().is_empty() {
                head_of(dev)
            } else {
                head_and(dev, text.as_str())
            }
        },
        _ => head_of(dev),
    }
}

/// The label under which diagnostics speak of `dev`, from what its alias and
/// name queries returned.
pub fn pretty_device_name(
    dev: &Device,
    alias: &Result<String, DeviceError>,
    name: &Result<Option<String>, DeviceError>,
) -> (label: String)
    ensures
        label@ == device_label(dev.address, alias_text(*alias), name_text(*name)),
{
    match label_from_alias(dev, alias) {
        Some(label) => label,
        None => label_from_name(dev, name),
    }
}

} // verus!
