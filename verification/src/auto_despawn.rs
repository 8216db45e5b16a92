use vstd::prelude::*;
use crate::channel::{ChannelReceiver, ChannelSender, new_channel};
use crate::ids::EntityId;

verus! {

/// The channel through which despawn signals report the entities to despawn.
#[derive(Clone, Debug)]
pub struct AutoDespawn {
    sender: ChannelSender<EntityId>,
    receiver: ChannelReceiver<EntityId>,
}

impl AutoDespawn {
    /// The sending handle of this channel.
    pub closed spec fn despawn_sender(&self) -> ChannelSender<EntityId> {
        self.sender
    }

    /// A fresh channel of despawn requests.
    pub fn new() -> (res: Self) {
        let (sender, receiver) = new_channel();
        AutoDespawn { sender, receiver }
    }

    /// A handle for a despawn signal: sending an entity through it asks for that entity to be despawned.
    pub fn sender(&self) -> (res: ChannelSender<EntityId>)
        ensures
            res == self.despawn_sender(),
    {
        self.sender.clone()
    }

    /// The next entity waiting to be despawned, if any.
    pub fn try_recv(&self) -> (res: Option<EntityId>) {
        self.receiver.try_recv()
    }
}

} // verus!
