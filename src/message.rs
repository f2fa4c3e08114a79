use vstd::prelude::*;

verus! {

/// Commands that drive the node's own activity.
#[non_exhaustive]
#[derive(Copy, Clone, Debug, PartialEq, Eq, Structural)]
pub enum Command {
    /// Forward the held topology state up and down the tree now.
    PropagateNow,
    /// Scan the air and possibly elect a new parent.
    ScanNetwork,
}

/// Topology events about a single peer.
#[non_exhaustive]
#[derive(Copy, Clone, Debug, PartialEq, Eq, Structural)]
pub enum NetworkPackage {
    /// The peer announced new reachable state and attaches as a child.
    ReceivesNewPropagation(u32),
    /// The peer must be evicted, together with its subtree.
    DropYourConnection(u32),
}

/// An opaque payload relayed along the tree.
#[derive(Copy, Clone, Debug, PartialEq, Eq, Structural)]
pub struct Data(pub u32);

/// Everything that travels over the event bus.
#[non_exhaustive]
#[derive(Copy, Clone, Debug, PartialEq, Eq, Structural)]
pub enum EventLoopMessage {
    Command(Command),
    Network(NetworkPackage),
    Data(Data),
}

/// The message that every tick of the periodic scheduler posts.
pub fn tick_message() -> (r: EventLoopMessage)
    ensures
        r == EventLoopMessage::Command(Command::ScanNetwork),
{
    EventLoopMessage::Command(Command::ScanNetwork)
}

} // verus!
