//! The CADET service client's verified parts: its messages and channel
//! bookkeeping.

pub mod msg;

use msg::ChannelId;
use vstd::prelude::*;

verus! {

/// A channel to another peer, named by its local number.
pub struct Channel {
    id: ChannelId,
}

impl Channel {
    /// The local number of the channel.
    pub closed spec fn spec_id(self) -> u32 {
        self.id.0
    }

    /// A channel with the given local number.
    pub fn new(id: ChannelId) -> (r: Channel)
        ensures
            r.spec_id() == id.0,
    {
        Channel { id }
    }

    /// The local number of the channel.
    pub fn id(&self) -> (r: ChannelId)
        ensures
            r.0 == self.spec_id(),
    {
        self.id
    }
}

} // verus!
