//! The event channel's sending half, as far as the watcher uses it.

use vstd::prelude::*;
use tokio::sync::mpsc::UnboundedSender;
use crate::watcher::Event;

verus! {

/// `tokio::sync::mpsc::UnboundedSender`, carried as an opaque value.
#[verifier::external_type_specification]
#[verifier::external_body]
#[verifier::reject_recursive_types(T)]
pub struct ExUnboundedSender<T>(tokio::sync::mpsc::UnboundedSender<T>);

/// The events that the channel has taken from this sender, oldest first.
pub uninterp spec fn taken(sender: UnboundedSender<Event>) -> Seq<Event>;

/// Calls `UnboundedSender::send`, which never blocks, and reports whether the
/// channel took the event. The channel either puts the event behind those it
/// has taken before, or, when its receiving half has been closed or dropped,
/// takes nothing. Which of the two happens is the receiver's doing, so
/// nothing is claimed about it. (Tokio ends the process should the count of
/// queued messages ever overflow.)
#[verifier::external_body]
pub(crate) fn offer(events: &mut UnboundedSender<Event>, event: Event) -> (delivered: bool)
    ensures
        taken(*final(events)) == if delivered {
            taken(*old(events)).push(event)
        } else {
            taken(*old(events))
        },
{
    events.send(event).is_ok()
}

} // verus!
