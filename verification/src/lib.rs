//! Driver model for a multi-channel direct memory access (DMA) controller.
//!
//! The library models the controller's register state as plain data: one
//! [`channel::ChannelState`] per channel, a global error status word, and one
//! waker slot per channel. Every operation of the driver — descriptor
//! programming, the transfer life-cycle, interrupt dispatch, and the derived
//! memcpy / peripheral operations — is a verified function over that state.
//!
//! The waker slots hold an opaque handle type `W`, chosen by the integrating
//! platform layer: a suspension-capable runtime stores its task handle there,
//! and the interrupt dispatch routines hand the handle back for the platform
//! to invoke. The model itself never interprets the handle.
//!
//! The [`engine`] module models the hardware's own side of the register
//! interface: what the controller does when it services a channel. Against it
//! the library proves the end-to-end behaviour of a transfer, such as the
//! memcpy round trip.
//!
//! The platform layer owns everything the model cannot: the volatile register
//! block behind these values, interrupt masking around waker-slot access, and
//! the busy waits on in-flight hardware signaling. Exclusive access to the
//! [`Dma`] value stands in for the critical sections of a real system.

use vstd::prelude::*;

pub mod channel;
pub mod element;
pub mod engine;
pub mod error;
pub mod interrupt;
pub mod memcpy;
pub mod peripheral;

pub use channel::BandwidthControl;
pub use element::ElementSize;
pub use error::Error;
pub use interrupt::Transfer;

use channel::{channel_power_on, Channel, ChannelState};

verus! {

/// The largest channel count any supported controller provides.
pub const CHANNEL_COUNT: usize = 32;

/// The DMA controller and multiplexer register state, together with the
/// per-channel waker slots and the allocation map for channel handles.
///
/// A value of this type stands for the process-wide register blocks of a real
/// system; the platform layer holds exactly one and guards it with its
/// critical-section discipline. `W` is the opaque handle used to resume a
/// suspended caller.
pub struct Dma<W> {
    /// Per-channel register state.
    pub channels: Vec<ChannelState>,
    /// Per-channel waker slots.
    pub wakers: Vec<Option<W>>,
    /// Which channel indices have been handed out as `Channel` handles.
    pub taken: Vec<bool>,
    /// The global error status register.
    pub es: u32,
}

/// The parallel per-channel tables agree in length, and the channel count is
/// one the hardware supports.
pub open spec fn dma_wf<W>(d: Dma<W>) -> bool {
    &&& d.channels.len() == d.wakers.len()
    &&& d.channels.len() == d.taken.len()
    &&& d.channels.len() <= CHANNEL_COUNT
}

impl<W> Dma<W> {
    /// Create the DMA driver state for a controller with `channels` channels.
    ///
    /// The value models the power-on reset state: every descriptor zeroed,
    /// every flag clear, no waker registered, no channel handle allocated.
    pub fn new(channels: usize) -> (r: Dma<W>)
        requires
            channels <= CHANNEL_COUNT,
        ensures
            dma_wf(r),
            r.channels.len() == channels,
            forall|i: int| 0 <= i < channels ==> r.channels@[i] == channel_power_on(),
            forall|i: int| 0 <= i < channels ==> r.wakers@[i] is None,
            forall|i: int| 0 <= i < channels ==> r.taken@[i] == false,
            r.es == 0,
    {
        let mut chans: Vec<ChannelState> = Vec::new();
        let mut wakers: Vec<Option<W>> = Vec::new();
        let mut taken: Vec<bool> = Vec::new();
        let mut i: usize = 0;
        while i < channels
            invariant
                i <= channels,
                chans.len() == i,
                wakers.len() == i,
                taken.len() == i,
                forall|j: int| 0 <= j < i ==> chans@[j] == channel_power_on(),
                forall|j: int| 0 <= j < i ==> wakers@[j] is None,
                forall|j: int| 0 <= j < i ==> taken@[j] == false,
            decreases channels - i,
        {
            chans.push(ChannelState::power_on());
            wakers.push(None);
            taken.push(false);
            i = i + 1;
        }
        Dma { channels: chans, wakers, taken, es: 0 }
    }

    /// Allocate the channel handle for `index`.
    ///
    /// At most one handle per index is ever outstanding: a second request for
    /// the same index returns `None` until the first handle is released with
    /// [`Dma::release_channel`]. This enforces the exclusive-per-index
    /// ownership that register-level operations rely on.
    pub fn channel(&mut self, index: usize) -> (r: Option<Channel>)
        requires
            dma_wf(*old(self)),
        ensures
            dma_wf(*final(self)),
            final(self).channels@ == old(self).channels@,
            final(self).wakers@ == old(self).wakers@,
            final(self).es == old(self).es,
            match r {
                Some(c) => {
                    &&& index < old(self).channels.len()
                    &&& !old(self).taken@[index as int]
                    &&& c.index_spec() == index
                    &&& final(self).taken@ == old(self).taken@.update(index as int, true)
                },
                None => {
                    &&& !(index < old(self).channels.len() && !old(self).taken@[index as int])
                    &&& final(self).taken@ == old(self).taken@
                },
            },
    {
        if index < self.channels.len() && !self.taken[index] {
            self.taken[index] = true;
            Some(Channel::new(index))
        } else {
            None
        }
    }

    /// Release a channel handle, making its index allocatable again.
    pub fn release_channel(&mut self, channel: Channel)
        requires
            dma_wf(*old(self)),
            channel.index_spec() < old(self).channels.len(),
        ensures
            dma_wf(*final(self)),
            final(self).channels@ == old(self).channels@,
            final(self).wakers@ == old(self).wakers@,
            final(self).es == old(self).es,
            final(self).taken@ == old(self).taken@.update(channel.index_spec() as int, false),
    {
        let index = channel.channel();
        self.taken[index] = false;
    }
}

} // verus!
