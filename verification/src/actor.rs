//! Actor runtime decisions: configuration marker, supervision actions and the
//! mailbox loop's rule for when an actor keeps running.
//!
//! The actors themselves run as tasks outside the verified library; each time a
//! task's mailbox yields, it asks [`mailbox_continues`] whether to handle the
//! delivery or to leave its loop.

use vstd::prelude::*;

verus! {

/// Trait for actor configuration types.
pub trait ActorConfig: Send + Sync + Default + 'static {}

impl ActorConfig for () {}

/// Actions a supervisor can take when a child fails.
#[derive(Clone, Copy, Debug, PartialEq, Eq, Structural)]
pub enum SupervisionAction {
    /// Restart the failed child.
    Restart,
    /// Stop the failed child permanently.
    Stop,
    /// Escalate to the parent supervisor.
    Escalate,
    /// Restart all children.
    RestartAll,
    /// Stop all children and self.
    StopAll,
}

/// What a supervisor does when it has no rule of its own: escalate to its parent.
pub fn default_supervision() -> (r: SupervisionAction)
    ensures
        r == SupervisionAction::Escalate,
{
    SupervisionAction::Escalate
}

/// What an actor's mailbox yielded.
#[derive(Clone, Copy, Debug, PartialEq, Eq, Structural)]
pub enum Delivery {
    /// A stop control message.
    StopRequested,
    /// Any other message.
    Message,
    /// The mailbox closed: every sender is gone.
    Closed,
}

/// Whether the actor handles the delivery and keeps running: only an ordinary
/// message is handled; a stop request or a closed mailbox ends the loop.
pub open spec fn continues(d: Delivery) -> bool {
    d == Delivery::Message
}

/// Whether the actor handles the delivery (`true`) or leaves its message loop (`false`).
pub fn mailbox_continues(d: Delivery) -> (r: bool)
    ensures
        r == continues(d),
{
    match d {
        Delivery::Message => true,
        Delivery::StopRequested => false,
        Delivery::Closed => false,
    }
}

} // verus!
