//! The handle through which operations and the timing harness reach the device.

use vstd::prelude::*;

verus! {

/// Access to a compute server under some sharing strategy.
pub trait ComputeChannel: Clone {
    /// Blocks until all work enqueued so far has completed.
    fn sync(&self);
}

/// A cheap handle on a channel. Cloning it shares the channel.
pub struct ComputeClient<C: ComputeChannel> {
    channel: C,
}

impl<C: ComputeChannel> View for ComputeClient<C> {
    type V = C;

    /// The channel that the client dispatches through.
    closed spec fn view(&self) -> C {
        self.channel
    }
}

impl<C: ComputeChannel> ComputeClient<C> {
    /// A client that dispatches through `channel`.
    pub fn new(channel: C) -> (client: Self)
        ensures
            client@ == channel,
    {
        ComputeClient { channel }
    }

    /// Blocks until all work enqueued through this client's channel has completed.
    pub fn sync(&self) {
        self.channel.sync();
    }
}

impl<C: ComputeChannel> Clone for ComputeClient<C> {
    fn clone(&self) -> Self {
        ComputeClient { channel: self.channel.clone() }
    }
}

} // verus!
