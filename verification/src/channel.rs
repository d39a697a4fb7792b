//! DMA channel: register-level operations on one controller lane.

use vstd::prelude::*;

use vstd::arithmetic::power2::{
    lemma2_to64, lemma_pow2_adds, lemma_pow2_pos, lemma_pow2_strictly_increases, lemma_pow2_unfold,
    pow2,
};

use crate::element::{Buffer, ElementSize};
use crate::error::Error;
use crate::{Dma, CHANNEL_COUNT};

verus! {

/// Multiplexer configuration bit: the routing entry is enabled.
pub const MUX_ENBL: u32 = 0x8000_0000;
/// Multiplexer configuration bit: periodic triggering is requested.
pub const MUX_TRIG: u32 = 0x4000_0000;
/// Multiplexer configuration bit: the channel is always on, without arbitration.
pub const MUX_A_ON: u32 = 0x2000_0000;

/// Hardware throttle limiting DMA bus utilization.
#[derive(Clone, Copy, PartialEq, Eq, Structural, Debug)]
pub enum BandwidthControl {
    /// Stall for four cycles after each read.
    Stall4,
    /// Stall for eight cycles after each read.
    Stall8,
}

impl BandwidthControl {
    /// Raw descriptor field encoding; `None` disables bandwidth control.
    pub open spec fn raw_spec(bandwidth: Option<BandwidthControl>) -> u16 {
        match bandwidth {
            None => 0,
            Some(BandwidthControl::Stall4) => 2,
            Some(BandwidthControl::Stall8) => 3,
        }
    }

    /// Raw descriptor field encoding; `None` disables bandwidth control.
    pub fn raw(bandwidth: Option<BandwidthControl>) -> (r: u16)
        ensures
            r == BandwidthControl::raw_spec(bandwidth),
    {
        match bandwidth {
            None => 0,
            Some(BandwidthControl::Stall4) => 2,
            Some(BandwidthControl::Stall8) => 3,
        }
    }
}

/// One channel's transfer control descriptor, as the hardware holds it.
#[derive(Clone, Copy, PartialEq, Eq, Structural, Debug)]
pub struct Tcd {
    /// Source address.
    pub saddr: u32,
    /// Signed source stride in bytes, applied after each element read.
    pub soff: i16,
    /// Source circular-buffer modulo; zero disables wrapping.
    pub smod: u8,
    /// Source element width.
    pub ssize: ElementSize,
    /// Bytes moved per minor loop, that is per service request.
    pub nbytes: u32,
    /// Signed adjustment added to the source address when the major loop ends.
    pub slast: i32,
    /// Destination address.
    pub daddr: u32,
    /// Signed destination stride in bytes, applied after each element write.
    pub doff: i16,
    /// Destination circular-buffer modulo; zero disables wrapping.
    pub dmod: u8,
    /// Destination element width.
    pub dsize: ElementSize,
    /// Remaining major-loop iterations.
    pub citer: u16,
    /// Total major-loop iterations, reloaded into `citer` at major completion.
    pub biter: u16,
    /// Signed adjustment added to the destination address when the major loop ends.
    pub dlast: i32,
    /// Clear the request line automatically when the major loop completes.
    pub dreq: bool,
    /// Raise the interrupt flag when the major loop completes.
    pub intmajor: bool,
    /// Software service request: the next service is taken even without a
    /// hardware request. The hardware clears it when the service runs.
    pub start: bool,
    /// The major loop has completed.
    pub done: bool,
    /// The channel is executing a minor loop right now.
    pub active: bool,
    /// Bandwidth control field.
    pub bwc: u16,
}

/// The known-safe zero state `Channel::reset` writes into a descriptor.
pub open spec fn tcd_reset() -> Tcd {
    Tcd {
        saddr: 0,
        soff: 0,
        smod: 0,
        ssize: ElementSize::One,
        nbytes: 0,
        slast: 0,
        daddr: 0,
        doff: 0,
        dmod: 0,
        dsize: ElementSize::One,
        citer: 0,
        biter: 0,
        dlast: 0,
        dreq: false,
        intmajor: false,
        start: false,
        done: false,
        active: false,
        bwc: 0,
    }
}

/// Per-channel register state: the transfer descriptor, the channel's bits of
/// the global enable / interrupt / error / hardware-request registers, and
/// the channel's multiplexer configuration word.
#[derive(Clone, Copy, PartialEq, Eq, Structural, Debug)]
pub struct ChannelState {
    /// The transfer control descriptor.
    pub tcd: Tcd,
    /// The channel's request line is enabled.
    pub erq: bool,
    /// The channel's interrupt flag is raised.
    pub int: bool,
    /// The channel's error flag is raised.
    pub err: bool,
    /// A hardware peripheral is signaling a service request right now.
    pub hrs: bool,
    /// The channel's multiplexer configuration word.
    pub chcfg: u32,
}

/// The power-on reset state of one channel.
pub open spec fn channel_power_on() -> ChannelState {
    ChannelState { tcd: tcd_reset(), erq: false, int: false, err: false, hrs: false, chcfg: 0 }
}

impl ChannelState {
    /// The power-on reset state of one channel.
    pub fn power_on() -> (r: ChannelState)
        ensures
            r == channel_power_on(),
    {
        ChannelState {
            tcd: Tcd {
                saddr: 0,
                soff: 0,
                smod: 0,
                ssize: ElementSize::One,
                nbytes: 0,
                slast: 0,
                daddr: 0,
                doff: 0,
                dmod: 0,
                dsize: ElementSize::One,
                citer: 0,
                biter: 0,
                dlast: 0,
                dreq: false,
                intmajor: false,
                start: false,
                done: false,
                active: false,
                bwc: 0,
            },
            erq: false,
            int: false,
            err: false,
            hrs: false,
            chcfg: 0,
        }
    }
}

/// The register state of channel `ch`.
pub open spec fn chan<W>(d: Dma<W>, ch: int) -> ChannelState {
    d.channels@[ch]
}

/// Channel `ch`'s register state became `c`; every other channel, the waker
/// slots, the allocation map and the global error status are unchanged.
pub open spec fn only_channel_changed<W>(pre: Dma<W>, post: Dma<W>, ch: int, c: ChannelState) -> bool {
    &&& post.channels@ == pre.channels@.update(ch, c)
    &&& post.wakers@ == pre.wakers@
    &&& post.taken@ == pre.taken@
    &&& post.es == pre.es
}

/// The state `Channel::reset` leaves a channel in: descriptor zeroed, request
/// line disabled, interrupt and error flags clear. The hardware-request line
/// and the multiplexer routing are inputs the reset does not touch.
pub open spec fn channel_after_reset(c: ChannelState) -> ChannelState {
    ChannelState { tcd: tcd_reset(), erq: false, int: false, err: false, ..c }
}

/// Multiplexer channel configuration.
#[derive(Clone, Copy, PartialEq, Eq, Structural, Debug)]
pub enum ChannelConfiguration {
    /// The multiplexer routing entry is disabled.
    Off,
    /// The multiplexer is enabled, permitting hardware triggering.
    Enable {
        /// The hardware request signal routed to this channel.
        source: u32,
        /// Schedule transfers on the periodic trigger. Only the first four
        /// channels support periodic triggering.
        periodic: bool,
    },
    /// The multiplexer is always on; no software or hardware activation is
    /// needed. Use this for memory-to-memory transfers.
    AlwaysOn,
}

impl ChannelConfiguration {
    /// Enable the channel without periodic triggering.
    pub fn enable(source: u32) -> (r: Self)
        ensures
            r == (ChannelConfiguration::Enable { source, periodic: false }),
    {
        ChannelConfiguration::Enable { source, periodic: false }
    }
}

/// Whether a configuration requests periodic triggering.
pub open spec fn periodic_requested(configuration: ChannelConfiguration) -> bool {
    match configuration {
        ChannelConfiguration::Enable { periodic, .. } => periodic,
        _ => false,
    }
}

/// The multiplexer configuration word a configuration encodes to.
pub open spec fn chcfg_spec(configuration: ChannelConfiguration) -> u32 {
    match configuration {
        ChannelConfiguration::Off => 0,
        ChannelConfiguration::Enable { source, periodic } => if periodic {
            source | MUX_ENBL | MUX_TRIG
        } else {
            source | MUX_ENBL
        },
        ChannelConfiguration::AlwaysOn => MUX_ENBL | MUX_A_ON,
    }
}

/// A DMA channel handle.
///
/// A `Channel` names one controller lane and carries the right to program it.
/// Handles come from [`Dma::channel`](crate::Dma::channel), which hands out at
/// most one per index, so holding a `Channel` means holding exclusive access
/// to that lane's descriptor. The register state itself lives in the shared
/// [`Dma`] value, which every operation takes explicitly.
#[derive(Debug)]
pub struct Channel {
    /// The channel number, in `[0, CHANNEL_COUNT)`.
    index: usize,
}

impl Channel {
    /// The channel number this handle names.
    pub closed spec fn index_spec(&self) -> usize {
        self.index
    }

    /// Creates the channel handle for `index`.
    ///
    /// Callers must keep at most one handle per index alive; prefer
    /// [`Dma::channel`](crate::Dma::channel), which enforces that with its
    /// allocation map.
    pub fn new(index: usize) -> (r: Channel)
        requires
            index < CHANNEL_COUNT,
        ensures
            r.index_spec() == index,
    {
        Channel { index }
    }

    /// Returns the DMA channel number.
    pub fn channel(&self) -> (r: usize)
        ensures
            r == self.index_spec(),
    {
        self.index
    }

    /// Reset the channel: write the known-safe zero descriptor, disable the
    /// request line, and clear the interrupt and error flags.
    ///
    /// Call this during channel initialization to put the channel into a
    /// known, good state.
    pub fn reset<W>(&mut self, hw: &mut Dma<W>)
        requires
            old(self).index_spec() < old(hw).channels.len(),
        ensures
            *final(self) == *old(self),
            only_channel_changed(
                *old(hw),
                *final(hw),
                old(self).index_spec() as int,
                channel_after_reset(chan(*old(hw), old(self).index_spec() as int)),
            ),
    {
        let i = self.index;
        let mut c = hw.channels[i];
        c.tcd = Tcd {
            saddr: 0,
            soff: 0,
            smod: 0,
            ssize: ElementSize::One,
            nbytes: 0,
            slast: 0,
            daddr: 0,
            doff: 0,
            dmod: 0,
            dsize: ElementSize::One,
            citer: 0,
            biter: 0,
            dlast: 0,
            dreq: false,
            intmajor: false,
            start: false,
            done: false,
            active: false,
            bwc: 0,
        };
        c.erq = false;
        c.int = false;
        c.err = false;
        hw.channels[i] = c;
    }

    /// Set the channel's bandwidth control. `None` disables bandwidth
    /// control, which is the default setting.
    pub fn set_bandwidth_control<W>(&mut self, hw: &mut Dma<W>, bandwidth: Option<BandwidthControl>)
        requires
            old(self).index_spec() < old(hw).channels.len(),
        ensures
            *final(self) == *old(self),
            ({
                let c0 = chan(*old(hw), old(self).index_spec() as int);
                only_channel_changed(
                    *old(hw),
                    *final(hw),
                    old(self).index_spec() as int,
                    ChannelState {
                        tcd: Tcd { bwc: BandwidthControl::raw_spec(bandwidth), ..c0.tcd },
                        ..c0
                    },
                )
            }),
    {
        let i = self.index;
        let mut c = hw.channels[i];
        c.tcd.bwc = BandwidthControl::raw(bandwidth);
        hw.channels[i] = c;
    }

    /// Set the source address for a DMA transfer.
    ///
    /// `saddr` should be a memory location that can provide the controller
    /// with data; the referenced memory must stay valid for the lifetime of
    /// the transfer.
    pub fn set_source_address<W>(&self, hw: &mut Dma<W>, saddr: u32)
        requires
            self.index_spec() < old(hw).channels.len(),
        ensures
            ({
                let c0 = chan(*old(hw), self.index_spec() as int);
                only_channel_changed(
                    *old(hw),
                    *final(hw),
                    self.index_spec() as int,
                    ChannelState { tcd: Tcd { saddr, ..c0.tcd }, ..c0 },
                )
            }),
    {
        let i = self.index;
        let mut c = hw.channels[i];
        c.tcd.saddr = saddr;
        hw.channels[i] = c;
    }

    /// Set the source stride in bytes. `offset` may be negative, which
    /// decrements the address after each element read.
    pub fn set_source_offset<W>(&self, hw: &mut Dma<W>, offset: i16)
        requires
            self.index_spec() < old(hw).channels.len(),
        ensures
            ({
                let c0 = chan(*old(hw), self.index_spec() as int);
                only_channel_changed(
                    *old(hw),
                    *final(hw),
                    self.index_spec() as int,
                    ChannelState { tcd: Tcd { soff: offset, ..c0.tcd }, ..c0 },
                )
            }),
    {
        let i = self.index;
        let mut c = hw.channels[i];
        c.tcd.soff = offset;
        hw.channels[i] = c;
    }

    /// Set the destination address for a DMA transfer.
    ///
    /// `daddr` should be a memory location that can store data from the
    /// controller; the referenced memory must stay valid for the lifetime of
    /// the transfer.
    pub fn set_destination_address<W>(&self, hw: &mut Dma<W>, daddr: u32)
        requires
            self.index_spec() < old(hw).channels.len(),
        ensures
            ({
                let c0 = chan(*old(hw), self.index_spec() as int);
                only_channel_changed(
                    *old(hw),
                    *final(hw),
                    self.index_spec() as int,
                    ChannelState { tcd: Tcd { daddr, ..c0.tcd }, ..c0 },
                )
            }),
    {
        let i = self.index;
        let mut c = hw.channels[i];
        c.tcd.daddr = daddr;
        hw.channels[i] = c;
    }

    /// Set the destination stride in bytes. `offset` may be negative, which
    /// decrements the address after each element write.
    pub fn set_destination_offset<W>(&self, hw: &mut Dma<W>, offset: i16)
        requires
            self.index_spec() < old(hw).channels.len(),
        ensures
            ({
                let c0 = chan(*old(hw), self.index_spec() as int);
                only_channel_changed(
                    *old(hw),
                    *final(hw),
                    self.index_spec() as int,
                    ChannelState { tcd: Tcd { doff: offset, ..c0.tcd }, ..c0 },
                )
            }),
    {
        let i = self.index;
        let mut c = hw.channels[i];
        c.tcd.doff = offset;
        hw.channels[i] = c;
    }

    /// Set the transfer attributes for the source: element width and
    /// circular-buffer modulo.
    pub fn set_source_attributes<W>(&self, hw: &mut Dma<W>, size: ElementSize, modulo: u8)
        requires
            self.index_spec() < old(hw).channels.len(),
        ensures
            ({
                let c0 = chan(*old(hw), self.index_spec() as int);
                only_channel_changed(
                    *old(hw),
                    *final(hw),
                    self.index_spec() as int,
                    ChannelState { tcd: Tcd { ssize: size, smod: modulo, ..c0.tcd }, ..c0 },
                )
            }),
    {
        let i = self.index;
        let mut c = hw.channels[i];
        c.tcd.ssize = size;
        c.tcd.smod = modulo;
        hw.channels[i] = c;
    }

    /// Set the transfer attributes for the destination: element width and
    /// circular-buffer modulo.
    pub fn set_destination_attributes<W>(&self, hw: &mut Dma<W>, size: ElementSize, modulo: u8)
        requires
            self.index_spec() < old(hw).channels.len(),
        ensures
            ({
                let c0 = chan(*old(hw), self.index_spec() as int);
                only_channel_changed(
                    *old(hw),
                    *final(hw),
                    self.index_spec() as int,
                    ChannelState { tcd: Tcd { dsize: size, dmod: modulo, ..c0.tcd }, ..c0 },
                )
            }),
    {
        let i = self.index;
        let mut c = hw.channels[i];
        c.tcd.dsize = size;
        c.tcd.dmod = modulo;
        hw.channels[i] = c;
    }

    /// Set the source last address adjustment in bytes, added to the source
    /// address when the major loop completes.
    pub fn set_source_last_address_adjustment<W>(&self, hw: &mut Dma<W>, adjustment: i32)
        requires
            self.index_spec() < old(hw).channels.len(),
        ensures
            ({
                let c0 = chan(*old(hw), self.index_spec() as int);
                only_channel_changed(
                    *old(hw),
                    *final(hw),
                    self.index_spec() as int,
                    ChannelState { tcd: Tcd { slast: adjustment, ..c0.tcd }, ..c0 },
                )
            }),
    {
        let i = self.index;
        let mut c = hw.channels[i];
        c.tcd.slast = adjustment;
        hw.channels[i] = c;
    }

    /// Set the destination last address adjustment in bytes, added to the
    /// destination address when the major loop completes.
    pub fn set_destination_last_address_adjustment<W>(&self, hw: &mut Dma<W>, adjustment: i32)
        requires
            self.index_spec() < old(hw).channels.len(),
        ensures
            ({
                let c0 = chan(*old(hw), self.index_spec() as int);
                only_channel_changed(
                    *old(hw),
                    *final(hw),
                    self.index_spec() as int,
                    ChannelState { tcd: Tcd { dlast: adjustment, ..c0.tcd }, ..c0 },
                )
            }),
    {
        let i = self.index;
        let mut c = hw.channels[i];
        c.tcd.dlast = adjustment;
        hw.channels[i] = c;
    }

    /// Set the number of bytes to transfer per minor loop, that is per
    /// service request.
    ///
    /// Note that the hardware interprets `0` as the maximum representable
    /// transfer size; treat that as a footgun, not a convenience. The model
    /// controller flags a zero byte count as a configuration error.
    pub fn set_minor_loop_bytes<W>(&self, hw: &mut Dma<W>, nbytes: u32)
        requires
            self.index_spec() < old(hw).channels.len(),
        ensures
            ({
                let c0 = chan(*old(hw), self.index_spec() as int);
                only_channel_changed(
                    *old(hw),
                    *final(hw),
                    self.index_spec() as int,
                    ChannelState { tcd: Tcd { nbytes, ..c0.tcd }, ..c0 },
                )
            }),
    {
        let i = self.index;
        let mut c = hw.channels[i];
        c.tcd.nbytes = nbytes;
        hw.channels[i] = c;
    }

    /// Tell the channel how many transfer iterations to perform.
    ///
    /// One transfer iteration is one minor loop: a read from the source and a
    /// write to the destination. Both the current and the total iteration
    /// counters are written, which the hardware requires for restart
    /// behaviour.
    pub fn set_transfer_iterations<W>(&mut self, hw: &mut Dma<W>, iterations: u16)
        requires
            old(self).index_spec() < old(hw).channels.len(),
        ensures
            *final(self) == *old(self),
            ({
                let c0 = chan(*old(hw), old(self).index_spec() as int);
                only_channel_changed(
                    *old(hw),
                    *final(hw),
                    old(self).index_spec() as int,
                    ChannelState {
                        tcd: Tcd { citer: iterations, biter: iterations, ..c0.tcd },
                        ..c0
                    },
                )
            }),
    {
        let i = self.index;
        let mut c = hw.channels[i];
        c.tcd.citer = iterations;
        c.tcd.biter = iterations;
        hw.channels[i] = c;
    }

    /// Set the multiplexer configuration for this channel.
    ///
    /// Only the first four channels support periodic triggering; requesting
    /// `periodic` on a later channel is a caller contract violation, which
    /// this model rules out by precondition.
    pub fn set_channel_configuration<W>(&self, hw: &mut Dma<W>, configuration: ChannelConfiguration)
        requires
            self.index_spec() < old(hw).channels.len(),
            periodic_requested(configuration) ==> self.index_spec() < 4,
        ensures
            ({
                let c0 = chan(*old(hw), self.index_spec() as int);
                only_channel_changed(
                    *old(hw),
                    *final(hw),
                    self.index_spec() as int,
                    ChannelState { chcfg: chcfg_spec(configuration), ..c0 },
                )
            }),
    {
        let i = self.index;
        let mut c = hw.channels[i];
        c.chcfg = match configuration {
            ChannelConfiguration::Off => 0,
            ChannelConfiguration::Enable { source, periodic } => {
                if periodic {
                    source | MUX_ENBL | MUX_TRIG
                } else {
                    source | MUX_ENBL
                }
            },
            ChannelConfiguration::AlwaysOn => MUX_ENBL | MUX_A_ON,
        };
        hw.channels[i] = c;
    }

    /// Returns `true` if the channel is receiving a service signal from a
    /// hardware peripheral right now.
    pub fn is_hardware_signaling<W>(&self, hw: &Dma<W>) -> (r: bool)
        requires
            self.index_spec() < hw.channels.len(),
        ensures
            r == chan(*hw, self.index_spec() as int).hrs,
    {
        hw.channels[self.index].hrs
    }

    /// Enable the channel's request line, which lets service requests start
    /// the transfer.
    ///
    /// The caller must have fully configured the descriptor: enabling with an
    /// invalid descriptor makes the controller flag an error when it services
    /// the channel.
    pub fn enable<W>(&self, hw: &mut Dma<W>)
        requires
            self.index_spec() < old(hw).channels.len(),
        ensures
            ({
                let c0 = chan(*old(hw), self.index_spec() as int);
                only_channel_changed(
                    *old(hw),
                    *final(hw),
                    self.index_spec() as int,
                    ChannelState { erq: true, ..c0 },
                )
            }),
    {
        let i = self.index;
        let mut c = hw.channels[i];
        c.erq = true;
        hw.channels[i] = c;
    }

    /// Disable the channel's request line, preventing any further service.
    pub fn disable<W>(&self, hw: &mut Dma<W>)
        requires
            self.index_spec() < old(hw).channels.len(),
        ensures
            ({
                let c0 = chan(*old(hw), self.index_spec() as int);
                only_channel_changed(
                    *old(hw),
                    *final(hw),
                    self.index_spec() as int,
                    ChannelState { erq: false, ..c0 },
                )
            }),
    {
        let i = self.index;
        let mut c = hw.channels[i];
        c.erq = false;
        hw.channels[i] = c;
    }

    /// Returns `true` if this channel's interrupt flag is raised.
    pub fn is_interrupt<W>(&self, hw: &Dma<W>) -> (r: bool)
        requires
            self.index_spec() < hw.channels.len(),
        ensures
            r == chan(*hw, self.index_spec() as int).int,
    {
        hw.channels[self.index].int
    }

    /// Clear this channel's interrupt flag.
    pub fn clear_interrupt<W>(&self, hw: &mut Dma<W>)
        requires
            self.index_spec() < old(hw).channels.len(),
        ensures
            ({
                let c0 = chan(*old(hw), self.index_spec() as int);
                only_channel_changed(
                    *old(hw),
                    *final(hw),
                    self.index_spec() as int,
                    ChannelState { int: false, ..c0 },
                )
            }),
    {
        let i = self.index;
        let mut c = hw.channels[i];
        c.int = false;
        hw.channels[i] = c;
    }

    /// Enable or disable 'disable on completion', which clears the request
    /// line automatically when the major loop completes.
    pub fn set_disable_on_completion<W>(&mut self, hw: &mut Dma<W>, dreq: bool)
        requires
            old(self).index_spec() < old(hw).channels.len(),
        ensures
            *final(self) == *old(self),
            ({
                let c0 = chan(*old(hw), old(self).index_spec() as int);
                only_channel_changed(
                    *old(hw),
                    *final(hw),
                    old(self).index_spec() as int,
                    ChannelState { tcd: Tcd { dreq, ..c0.tcd }, ..c0 },
                )
            }),
    {
        let i = self.index;
        let mut c = hw.channels[i];
        c.tcd.dreq = dreq;
        hw.channels[i] = c;
    }

    /// Enable or disable interrupt generation when the major loop completes.
    /// You are responsible for routing the interrupt to
    /// [`Dma::on_interrupt`](crate::Dma::on_interrupt).
    pub fn set_interrupt_on_completion<W>(&mut self, hw: &mut Dma<W>, intr: bool)
        requires
            old(self).index_spec() < old(hw).channels.len(),
        ensures
            *final(self) == *old(self),
            ({
                let c0 = chan(*old(hw), old(self).index_spec() as int);
                only_channel_changed(
                    *old(hw),
                    *final(hw),
                    old(self).index_spec() as int,
                    ChannelState { tcd: Tcd { intmajor: intr, ..c0.tcd }, ..c0 },
                )
            }),
    {
        let i = self.index;
        let mut c = hw.channels[i];
        c.tcd.intmajor = intr;
        hw.channels[i] = c;
    }

    /// Indicates if the transfer has completed its major loop.
    pub fn is_complete<W>(&self, hw: &Dma<W>) -> (r: bool)
        requires
            self.index_spec() < hw.channels.len(),
        ensures
            r == chan(*hw, self.index_spec() as int).tcd.done,
    {
        hw.channels[self.index].tcd.done
    }

    /// Clear the completion flag.
    pub fn clear_complete<W>(&self, hw: &mut Dma<W>)
        requires
            self.index_spec() < old(hw).channels.len(),
        ensures
            ({
                let c0 = chan(*old(hw), self.index_spec() as int);
                only_channel_changed(
                    *old(hw),
                    *final(hw),
                    self.index_spec() as int,
                    ChannelState { tcd: Tcd { done: false, ..c0.tcd }, ..c0 },
                )
            }),
    {
        let i = self.index;
        let mut c = hw.channels[i];
        c.tcd.done = false;
        hw.channels[i] = c;
    }

    /// Indicates if the channel is in an error state.
    pub fn is_error<W>(&self, hw: &Dma<W>) -> (r: bool)
        requires
            self.index_spec() < hw.channels.len(),
        ensures
            r == chan(*hw, self.index_spec() as int).err,
    {
        hw.channels[self.index].err
    }

    /// Clear this channel's error flag. The global error status register
    /// keeps its snapshot.
    pub fn clear_error<W>(&self, hw: &mut Dma<W>)
        requires
            self.index_spec() < old(hw).channels.len(),
        ensures
            ({
                let c0 = chan(*old(hw), self.index_spec() as int);
                only_channel_changed(
                    *old(hw),
                    *final(hw),
                    self.index_spec() as int,
                    ChannelState { err: false, ..c0 },
                )
            }),
    {
        let i = self.index;
        let mut c = hw.channels[i];
        c.err = false;
        hw.channels[i] = c;
    }

    /// Indicates if the channel is actively transferring data right now.
    pub fn is_active<W>(&self, hw: &Dma<W>) -> (r: bool)
        requires
            self.index_spec() < hw.channels.len(),
        ensures
            r == chan(*hw, self.index_spec() as int).tcd.active,
    {
        hw.channels[self.index].tcd.active
    }

    /// Indicates if the channel's request line is enabled.
    pub fn is_enabled<W>(&self, hw: &Dma<W>) -> (r: bool)
        requires
            self.index_spec() < hw.channels.len(),
        ensures
            r == chan(*hw, self.index_spec() as int).erq,
    {
        hw.channels[self.index].erq
    }

    /// Returns the value of the global error status register.
    ///
    /// It reflects the last channel that produced an error, which may not be
    /// this channel.
    pub fn error_status<W>(&self, hw: &Dma<W>) -> (r: Error)
        ensures
            r.es == hw.es,
    {
        Error::new(hw.es)
    }

    /// Request one service from the controller by software.
    ///
    /// Use `start` for in-memory transfers, which no hardware peripheral
    /// drives. The controller clears the flag when it takes the service.
    pub fn start<W>(&self, hw: &mut Dma<W>)
        requires
            self.index_spec() < old(hw).channels.len(),
        ensures
            ({
                let c0 = chan(*old(hw), self.index_spec() as int);
                only_channel_changed(
                    *old(hw),
                    *final(hw),
                    self.index_spec() as int,
                    ChannelState { tcd: Tcd { start: true, ..c0.tcd }, ..c0 },
                )
            }),
    {
        let i = self.index;
        let mut c = hw.channels[i];
        c.tcd.start = true;
        hw.channels[i] = c;
    }
}

/// The source half of a descriptor pointed at a linear buffer: linear
/// stride of one element, no circular wrapping, and a restoring last-address
/// adjustment that winds the source address back when the major loop ends.
pub open spec fn tcd_source_linear(t: Tcd, buffer: Buffer) -> Tcd {
    Tcd {
        saddr: buffer.address,
        soff: buffer.size.bytes_spec() as i16,
        smod: 0,
        ssize: buffer.size,
        slast: (-(buffer.size_bytes_spec() as int)) as i32,
        ..t
    }
}

/// The destination half of a descriptor pointed at a linear buffer; the
/// mirror image of [`tcd_source_linear`].
pub open spec fn tcd_destination_linear(t: Tcd, buffer: Buffer) -> Tcd {
    Tcd {
        daddr: buffer.address,
        doff: buffer.size.bytes_spec() as i16,
        dmod: 0,
        dsize: buffer.size,
        dlast: (-(buffer.size_bytes_spec() as int)) as i32,
        ..t
    }
}

/// Point the channel's source at a linear buffer.
///
/// The stride is one element, wrapping is off, and the last-address
/// adjustment restores the source address at major-loop completion.
#[verifier::rlimit(50)]
pub fn set_source_linear_buffer<W>(channel: &Channel, hw: &mut Dma<W>, buffer: Buffer)
    requires
        channel.index_spec() < old(hw).channels.len(),
        buffer.size_bytes_spec() <= 0x7FFF_FFFF,
    ensures
        ({
            let c0 = chan(*old(hw), channel.index_spec() as int);
            only_channel_changed(
                *old(hw),
                *final(hw),
                channel.index_spec() as int,
                ChannelState { tcd: tcd_source_linear(c0.tcd, buffer), ..c0 },
            )
        }),
{
    let size = buffer.size.bytes();
    channel.set_source_address(hw, buffer.address);
    channel.set_source_offset(hw, size as i16);
    channel.set_source_attributes(hw, buffer.size, 0);
    let total: u64 = (buffer.len as u64) * (size as u64);
    channel.set_source_last_address_adjustment(hw, -((total as u32) as i32));
    proof {
        let i = channel.index_spec() as int;
        let c0 = chan(*old(hw), i);
        assert(hw.channels@ =~= old(hw).channels@.update(
            i,
            ChannelState { tcd: tcd_source_linear(c0.tcd, buffer), ..c0 },
        ));
    }
}

/// Point the channel's destination at a linear buffer; the mirror image of
/// [`set_source_linear_buffer`].
#[verifier::rlimit(50)]
pub fn set_destination_linear_buffer<W>(channel: &Channel, hw: &mut Dma<W>, buffer: Buffer)
    requires
        channel.index_spec() < old(hw).channels.len(),
        buffer.size_bytes_spec() <= 0x7FFF_FFFF,
    ensures
        ({
            let c0 = chan(*old(hw), channel.index_spec() as int);
            only_channel_changed(
                *old(hw),
                *final(hw),
                channel.index_spec() as int,
                ChannelState { tcd: tcd_destination_linear(c0.tcd, buffer), ..c0 },
            )
        }),
{
    let size = buffer.size.bytes();
    channel.set_destination_address(hw, buffer.address);
    channel.set_destination_offset(hw, size as i16);
    channel.set_destination_attributes(hw, buffer.size, 0);
    let total: u64 = (buffer.len as u64) * (size as u64);
    channel.set_destination_last_address_adjustment(hw, -((total as u32) as i32));
    proof {
        let i = channel.index_spec() as int;
        let c0 = chan(*old(hw), i);
        assert(hw.channels@ =~= old(hw).channels@.update(
            i,
            ChannelState { tcd: tcd_destination_linear(c0.tcd, buffer), ..c0 },
        ));
    }
}

/// The source half of a descriptor pointed at a hardware data register:
/// a fixed address with no stride and no adjustment.
pub open spec fn tcd_source_hardware(t: Tcd, address: u32, size: ElementSize) -> Tcd {
    Tcd { saddr: address, soff: 0, smod: 0, ssize: size, slast: 0, ..t }
}

/// The destination half of a descriptor pointed at a hardware data
/// register; the mirror image of [`tcd_source_hardware`].
pub open spec fn tcd_destination_hardware(t: Tcd, address: u32, size: ElementSize) -> Tcd {
    Tcd { daddr: address, doff: 0, dmod: 0, dsize: size, dlast: 0, ..t }
}

/// Point the channel's source at a peripheral data register: the address is
/// fixed, so every element is read from the same place.
#[verifier::rlimit(50)]
pub fn set_source_hardware<W>(channel: &Channel, hw: &mut Dma<W>, address: u32, size: ElementSize)
    requires
        channel.index_spec() < old(hw).channels.len(),
    ensures
        ({
            let c0 = chan(*old(hw), channel.index_spec() as int);
            only_channel_changed(
                *old(hw),
                *final(hw),
                channel.index_spec() as int,
                ChannelState { tcd: tcd_source_hardware(c0.tcd, address, size), ..c0 },
            )
        }),
{
    channel.set_source_address(hw, address);
    channel.set_source_offset(hw, 0);
    channel.set_source_attributes(hw, size, 0);
    channel.set_source_last_address_adjustment(hw, 0);
    proof {
        let i = channel.index_spec() as int;
        let c0 = chan(*old(hw), i);
        assert(hw.channels@ =~= old(hw).channels@.update(
            i,
            ChannelState { tcd: tcd_source_hardware(c0.tcd, address, size), ..c0 },
        ));
    }
}

/// Point the channel's destination at a peripheral data register: the
/// address is fixed, so every element is written to the same place.
#[verifier::rlimit(50)]
pub fn set_destination_hardware<W>(
    channel: &Channel,
    hw: &mut Dma<W>,
    address: u32,
    size: ElementSize,
)
    requires
        channel.index_spec() < old(hw).channels.len(),
    ensures
        ({
            let c0 = chan(*old(hw), channel.index_spec() as int);
            only_channel_changed(
                *old(hw),
                *final(hw),
                channel.index_spec() as int,
                ChannelState { tcd: tcd_destination_hardware(c0.tcd, address, size), ..c0 },
            )
        }),
{
    channel.set_destination_address(hw, address);
    channel.set_destination_offset(hw, 0);
    channel.set_destination_attributes(hw, size, 0);
    channel.set_destination_last_address_adjustment(hw, 0);
    proof {
        let i = channel.index_spec() as int;
        let c0 = chan(*old(hw), i);
        assert(hw.channels@ =~= old(hw).channels@.update(
            i,
            ChannelState { tcd: tcd_destination_hardware(c0.tcd, address, size), ..c0 },
        ));
    }
}

/// Whether `n` is a power of two.
pub open spec fn is_power_of_two(n: nat) -> bool
    decreases n,
{
    if n == 0 {
        false
    } else if n == 1 {
        true
    } else {
        n % 2 == 0 && is_power_of_two(n / 2)
    }
}

/// The base-two logarithm of `n`, rounded down.
pub open spec fn log2(n: nat) -> nat
    decreases n,
{
    if n <= 1 {
        0
    } else {
        1 + log2(n / 2)
    }
}

/// The logarithm inverts the power: `log2(pow2(e)) == e`.
pub proof fn lemma_log2_pow2(e: nat)
    ensures
        log2(pow2(e)) == e,
    decreases e,
{
    lemma2_to64();
    if e > 0 {
        lemma_log2_pow2((e - 1) as nat);
        lemma_pow2_pos((e - 1) as nat);
        lemma_pow2_unfold(e);
        assert(pow2(e) == 2 * pow2((e - 1) as nat));
        assert(pow2(e) / 2 == pow2((e - 1) as nat));
        assert(pow2(e) > 1);
        assert(log2(pow2(e)) == 1 + log2(pow2(e) / 2));
    }
}

/// What the hardware can treat as a circular buffer: a region whose byte
/// size is a power of two no larger than the largest modulo block, based at
/// an address aligned to that size.
pub open spec fn circular_supported_spec(buffer: Buffer) -> bool {
    &&& is_power_of_two(buffer.size_bytes_spec())
    &&& buffer.size_bytes_spec() <= 0x8000_0000
    &&& buffer.address as int % (buffer.size_bytes_spec() as int) == 0
}

/// Decide whether the hardware supports `buffer` as a circular buffer.
///
/// A circular configuration demands a power-of-two byte size and a base
/// address aligned to that size; everything else is rejected.
pub fn circular_buffer_supported(buffer: Buffer) -> (r: bool)
    ensures
        r == circular_supported_spec(buffer),
{
    let size = buffer.size.bytes();
    let total: u64 = (buffer.len as u64) * (size as u64);
    if total == 0 || total > 0x8000_0000 {
        proof {
            assert(total == 0 ==> !is_power_of_two(total as nat));
        }
        return false;
    }
    let mut x: u64 = total;
    while x > 1
        invariant
            x >= 1,
            total == buffer.size_bytes_spec(),
            0 < total <= 0x8000_0000,
            is_power_of_two(total as nat) == is_power_of_two(x as nat),
        decreases x,
    {
        if x % 2 == 1 {
            proof {
                assert(x > 1);
                assert(!is_power_of_two(x as nat));
            }
            return false;
        }
        x = x / 2;
    }
    (buffer.address as u64) % total == 0
}

/// The exact exponent of a power of two.
fn log2_exact(total: u64) -> (m: u8)
    requires
        is_power_of_two(total as nat),
        total <= 0x8000_0000,
    ensures
        pow2(m as nat) == total,
        m == log2(total as nat),
        m <= 31,
{
    proof {
        lemma2_to64();
    }
    let mut x: u64 = total;
    let mut m: u8 = 0;
    while x > 1
        invariant
            x >= 1,
            is_power_of_two(x as nat),
            pow2(m as nat) * x == total,
            total <= 0x8000_0000,
        decreases x,
    {
        proof {
            lemma_pow2_adds(m as nat, 1);
            lemma2_to64();
            lemma_pow2_pos(m as nat);
            assert(m < 32) by {
                if m >= 32 {
                    lemma_pow2_strictly_increases(31, m as nat);
                    vstd::arithmetic::mul::lemma_mul_inequality(
                        1,
                        x as int,
                        pow2(m as nat) as int,
                    );
                    assert(pow2(m as nat) * 1 <= pow2(m as nat) * x) by (nonlinear_arith)
                        requires
                            1 <= x,
                            pow2(m as nat) > 0,
                    ;
                }
            }
            assert(pow2((m + 1) as nat) * (x as int / 2) == total) by (nonlinear_arith)
                requires
                    pow2((m + 1) as nat) == pow2(m as nat) * 2,
                    pow2(m as nat) * x == total,
                    x as int % 2 == 0,
                    x >= 1,
            ;
        }
        x = x / 2;
        m = m + 1;
    }
    proof {
        assert(pow2(m as nat) == total);
        lemma_log2_pow2(m as nat);
        if m >= 32 {
            lemma_pow2_strictly_increases(31, m as nat);
        }
    }
    m
}

/// The source half of a descriptor pointed at a circular buffer: the
/// modulo field makes the address wrap inside the buffer, and no
/// last-address adjustment is applied.
pub open spec fn tcd_source_circular(t: Tcd, buffer: Buffer) -> Tcd {
    Tcd {
        saddr: buffer.address,
        soff: buffer.size.bytes_spec() as i16,
        smod: log2(buffer.size_bytes_spec()) as u8,
        ssize: buffer.size,
        slast: 0,
        ..t
    }
}

/// The destination half of a descriptor pointed at a circular buffer; the
/// mirror image of [`tcd_source_circular`].
pub open spec fn tcd_destination_circular(t: Tcd, buffer: Buffer) -> Tcd {
    Tcd {
        daddr: buffer.address,
        doff: buffer.size.bytes_spec() as i16,
        dmod: log2(buffer.size_bytes_spec()) as u8,
        dsize: buffer.size,
        dlast: 0,
        ..t
    }
}

/// Point the channel's source at a circular buffer: reads wrap around
/// inside the buffer.
///
/// Only a buffer [`circular_buffer_supported`] accepts may be configured;
/// anything else is a caller contract violation, which this model rules out
/// by precondition.
#[verifier::rlimit(100)]
pub fn set_source_circular_buffer<W>(channel: &Channel, hw: &mut Dma<W>, buffer: Buffer)
    requires
        channel.index_spec() < old(hw).channels.len(),
        circular_supported_spec(buffer),
    ensures
        ({
            let c0 = chan(*old(hw), channel.index_spec() as int);
            only_channel_changed(
                *old(hw),
                *final(hw),
                channel.index_spec() as int,
                ChannelState { tcd: tcd_source_circular(c0.tcd, buffer), ..c0 },
            )
        }),
{
    let size = buffer.size.bytes();
    let total: u64 = (buffer.len as u64) * (size as u64);
    let modulo = log2_exact(total);
    channel.set_source_address(hw, buffer.address);
    channel.set_source_offset(hw, size as i16);
    channel.set_source_attributes(hw, buffer.size, modulo);
    channel.set_source_last_address_adjustment(hw, 0);
    proof {
        let i = channel.index_spec() as int;
        let c0 = chan(*old(hw), i);
        assert(hw.channels@ =~= old(hw).channels@.update(
            i,
            ChannelState { tcd: tcd_source_circular(c0.tcd, buffer), ..c0 },
        ));
    }
}

/// Point the channel's destination at a circular buffer: writes wrap
/// around inside the buffer. The same support condition applies as for
/// [`set_source_circular_buffer`].
#[verifier::rlimit(100)]
pub fn set_destination_circular_buffer<W>(channel: &Channel, hw: &mut Dma<W>, buffer: Buffer)
    requires
        channel.index_spec() < old(hw).channels.len(),
        circular_supported_spec(buffer),
    ensures
        ({
            let c0 = chan(*old(hw), channel.index_spec() as int);
            only_channel_changed(
                *old(hw),
                *final(hw),
                channel.index_spec() as int,
                ChannelState { tcd: tcd_destination_circular(c0.tcd, buffer), ..c0 },
            )
        }),
{
    let size = buffer.size.bytes();
    let total: u64 = (buffer.len as u64) * (size as u64);
    let modulo = log2_exact(total);
    channel.set_destination_address(hw, buffer.address);
    channel.set_destination_offset(hw, size as i16);
    channel.set_destination_attributes(hw, buffer.size, modulo);
    channel.set_destination_last_address_adjustment(hw, 0);
    proof {
        let i = channel.index_spec() as int;
        let c0 = chan(*old(hw), i);
        assert(hw.channels@ =~= old(hw).channels@.update(
            i,
            ChannelState { tcd: tcd_destination_circular(c0.tcd, buffer), ..c0 },
        ));
    }
}

/// After a reset the channel reports idle through every status accessor: not
/// enabled, not active, not complete, and no error.
pub proof fn lemma_reset_reports_idle<W>(pre: Dma<W>, post: Dma<W>, ch: int)
    requires
        0 <= ch < pre.channels.len(),
        only_channel_changed(pre, post, ch, channel_after_reset(chan(pre, ch))),
    ensures
        !chan(post, ch).erq,
        !chan(post, ch).tcd.active,
        !chan(post, ch).tcd.done,
        !chan(post, ch).err,
        !chan(post, ch).int,
{
}

} // verus!
