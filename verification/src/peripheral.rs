//! DMA support for hardware peripherals.
//!
//! A peripheral driver that can feed or accept DMA data implements
//! [`Source`] or [`Destination`]: it names its request signal and its data
//! register address, and provides enable / disable hooks. The adapters here
//! build on [`Channel`] and [`Transfer`] to implement the common transfer
//! shapes: [`read`] moves a peripheral's data into a buffer, [`write`] moves
//! a buffer into a peripheral, and [`full_duplex`] does both at once through
//! a single buffer, as a SPI-style exchange needs.
//!
//! The enable and disable hooks must be internally atomic on a real system:
//! an adapter's teardown calls them from a context that can race continuing
//! hardware activity.

use vstd::prelude::*;

use crate::channel::{
    chan, chcfg_spec, Channel, ChannelConfiguration, ChannelState, Tcd,
};
use crate::element::{Buffer, ElementSize};
use crate::interrupt::{transfer_poll_result, transfer_polled, Transfer, TransferPoll};
use crate::{dma_wf, Dma};

verus! {

/// A peripheral that can be the source of DMA data, such as a receiver
/// whose data register fills from the wire.
///
/// Implementations must report a stable signal, address and element width:
/// the contracts of the enable and disable hooks say those observations do
/// not move while the peripheral is reconfigured.
pub trait Source: Sized {
    /// The peripheral's request signal number.
    spec fn source_signal_spec(&self) -> u32;

    /// The bus address of the register the controller reads data from.
    spec fn source_address_spec(&self) -> u32;

    /// The width of the reads the controller performs on the data register.
    spec fn source_element_spec(&self) -> ElementSize;

    /// Whether the peripheral is currently set up to supply DMA data.
    spec fn source_enabled_spec(&self) -> bool;

    /// The peripheral's request signal number.
    fn source_signal(&self) -> (r: u32)
        ensures
            r == self.source_signal_spec(),
    ;

    /// The bus address of the register the controller reads data from.
    fn source_address(&self) -> (r: u32)
        ensures
            r == self.source_address_spec(),
    ;

    /// The width of the reads the controller performs on the data register.
    fn source_element(&self) -> (r: ElementSize)
        ensures
            r == self.source_element_spec(),
    ;

    /// Put the peripheral in a state where it supplies the controller with
    /// data.
    fn enable_source(&mut self)
        ensures
            final(self).source_enabled_spec(),
            final(self).source_signal_spec() == old(self).source_signal_spec(),
            final(self).source_address_spec() == old(self).source_address_spec(),
            final(self).source_element_spec() == old(self).source_element_spec(),
    ;

    /// Undo [`Source::enable_source`]: stop the peripheral from requesting
    /// DMA service.
    fn disable_source(&mut self)
        ensures
            !final(self).source_enabled_spec(),
            final(self).source_signal_spec() == old(self).source_signal_spec(),
            final(self).source_address_spec() == old(self).source_address_spec(),
            final(self).source_element_spec() == old(self).source_element_spec(),
    ;
}

/// A peripheral that can be the destination of DMA data, such as a
/// transmitter whose data register drains onto the wire. The mirror image
/// of [`Source`].
pub trait Destination: Sized {
    /// The peripheral's request signal number.
    spec fn destination_signal_spec(&self) -> u32;

    /// The bus address of the register the controller writes data into.
    spec fn destination_address_spec(&self) -> u32;

    /// The width of the writes the controller performs on the data register.
    spec fn destination_element_spec(&self) -> ElementSize;

    /// Whether the peripheral is currently set up to accept DMA data.
    spec fn destination_enabled_spec(&self) -> bool;

    /// The peripheral's request signal number.
    fn destination_signal(&self) -> (r: u32)
        ensures
            r == self.destination_signal_spec(),
    ;

    /// The bus address of the register the controller writes data into.
    fn destination_address(&self) -> (r: u32)
        ensures
            r == self.destination_address_spec(),
    ;

    /// The width of the writes the controller performs on the data register.
    fn destination_element(&self) -> (r: ElementSize)
        ensures
            r == self.destination_element_spec(),
    ;

    /// Put the peripheral in a state where it accepts data from the
    /// controller.
    fn enable_destination(&mut self)
        ensures
            final(self).destination_enabled_spec(),
            final(self).destination_signal_spec() == old(self).destination_signal_spec(),
            final(self).destination_address_spec() == old(self).destination_address_spec(),
            final(self).destination_element_spec() == old(self).destination_element_spec(),
    ;

    /// Undo [`Destination::enable_destination`]: stop the peripheral from
    /// requesting DMA service.
    fn disable_destination(&mut self)
        ensures
            !final(self).destination_enabled_spec(),
            final(self).destination_signal_spec() == old(self).destination_signal_spec(),
            final(self).destination_address_spec() == old(self).destination_address_spec(),
            final(self).destination_element_spec() == old(self).destination_element_spec(),
    ;
}

/// A peripheral that can read and write through a single buffer with two
/// simultaneous transfers, as a SPI exchange does: the transmit side drives
/// the receive side.
pub trait Bidirectional: Source + Destination {

}

/// The descriptor a peripheral-to-memory read programs: a fixed source
/// address, a linear destination buffer, one element per service request,
/// and one major iteration per buffer element.
pub open spec fn read_tcd(t: Tcd, address: u32, buffer: Buffer) -> Tcd {
    let size = buffer.size.bytes_spec();
    Tcd {
        saddr: address,
        soff: 0,
        smod: 0,
        ssize: buffer.size,
        slast: 0,
        daddr: buffer.address,
        doff: size as i16,
        dmod: 0,
        dsize: buffer.size,
        dlast: (-(buffer.size_bytes_spec() as int)) as i32,
        nbytes: size as u32,
        citer: buffer.len as u16,
        biter: buffer.len as u16,
        dreq: true,
        ..t
    }
}

/// The descriptor a memory-to-peripheral write programs; the mirror image
/// of [`read_tcd`].
pub open spec fn write_tcd(t: Tcd, buffer: Buffer, address: u32) -> Tcd {
    let size = buffer.size.bytes_spec();
    Tcd {
        saddr: buffer.address,
        soff: size as i16,
        smod: 0,
        ssize: buffer.size,
        slast: (-(buffer.size_bytes_spec() as int)) as i32,
        daddr: address,
        doff: 0,
        dmod: 0,
        dsize: buffer.size,
        dlast: 0,
        nbytes: size as u32,
        citer: buffer.len as u16,
        biter: buffer.len as u16,
        dreq: true,
        ..t
    }
}

/// The channel state a read of `buffer` from the peripheral with request
/// signal `signal` and data register `address` leaves behind: request line
/// down until the transfer is armed, routing enabled for the signal.
pub open spec fn read_prepared(c0: ChannelState, signal: u32, address: u32, buffer: Buffer) -> ChannelState {
    ChannelState {
        tcd: read_tcd(c0.tcd, address, buffer),
        erq: false,
        chcfg: chcfg_spec(ChannelConfiguration::Enable { source: signal, periodic: false }),
        ..c0
    }
}

/// The channel state a write of `buffer` into the peripheral with request
/// signal `signal` and data register `address` leaves behind.
pub open spec fn write_prepared(c0: ChannelState, signal: u32, buffer: Buffer, address: u32) -> ChannelState {
    ChannelState {
        tcd: write_tcd(c0.tcd, buffer, address),
        erq: false,
        chcfg: chcfg_spec(ChannelConfiguration::Enable { source: signal, periodic: false }),
        ..c0
    }
}

/// Program `channel` to receive `buffer` from the peripheral with request
/// signal `signal` and data register `address`.
#[verifier::rlimit(100)]
fn prepare_read<W>(channel: &mut Channel, hw: &mut Dma<W>, signal: u32, address: u32, buffer: Buffer)
    requires
        old(channel).index_spec() < old(hw).channels.len(),
        buffer.len <= u16::MAX,
        buffer.size_bytes_spec() <= 0x7FFF_FFFF,
    ensures
        *final(channel) == *old(channel),
        crate::channel::only_channel_changed(
            *old(hw),
            *final(hw),
            old(channel).index_spec() as int,
            read_prepared(chan(*old(hw), old(channel).index_spec() as int), signal, address, buffer),
        ),
{
    channel.disable(hw);
    channel.set_disable_on_completion(hw, true);
    channel.set_channel_configuration(
        hw,
        ChannelConfiguration::Enable { source: signal, periodic: false },
    );
    crate::channel::set_source_hardware(channel, hw, address, buffer.size);
    crate::channel::set_destination_linear_buffer(channel, hw, buffer);
    channel.set_minor_loop_bytes(hw, buffer.size.bytes());
    channel.set_transfer_iterations(hw, buffer.len as u16);
    proof {
        let i = channel.index_spec() as int;
        let c0 = chan(*old(hw), i);
        assert(hw.channels@ =~= old(hw).channels@.update(
            i,
            read_prepared(c0, signal, address, buffer),
        ));
    }
}

/// Program `channel` to send `buffer` into the peripheral with request
/// signal `signal` and data register `address`.
#[verifier::rlimit(100)]
fn prepare_write<W>(channel: &mut Channel, hw: &mut Dma<W>, buffer: Buffer, signal: u32, address: u32)
    requires
        old(channel).index_spec() < old(hw).channels.len(),
        buffer.len <= u16::MAX,
        buffer.size_bytes_spec() <= 0x7FFF_FFFF,
    ensures
        *final(channel) == *old(channel),
        crate::channel::only_channel_changed(
            *old(hw),
            *final(hw),
            old(channel).index_spec() as int,
            write_prepared(chan(*old(hw), old(channel).index_spec() as int), signal, buffer, address),
        ),
{
    channel.disable(hw);
    channel.set_disable_on_completion(hw, true);
    channel.set_channel_configuration(
        hw,
        ChannelConfiguration::Enable { source: signal, periodic: false },
    );
    crate::channel::set_source_linear_buffer(channel, hw, buffer);
    crate::channel::set_destination_hardware(channel, hw, address, buffer.size);
    channel.set_minor_loop_bytes(hw, buffer.size.bytes());
    channel.set_transfer_iterations(hw, buffer.len as u16);
    proof {
        let i = channel.index_spec() as int;
        let c0 = chan(*old(hw), i);
        assert(hw.channels@ =~= old(hw).channels@.update(
            i,
            write_prepared(c0, signal, buffer, address),
        ));
    }
}

/// What tearing a peripheral transfer down does to its channel: the
/// cancellation of the underlying transfer, and the hardware request line
/// settled low — the peripheral was disabled first, and the teardown waits
/// out any in-flight signaling before it returns.
pub open spec fn teardown_rel<W>(pre: Dma<W>, post: Dma<W>, ch: int) -> bool {
    let c0 = chan(pre, ch);
    &&& post.channels@ == pre.channels@.update(
        ch,
        ChannelState {
            erq: false,
            err: false,
            hrs: false,
            tcd: Tcd { done: false, ..c0.tcd },
            ..c0
        },
    )
    &&& post.wakers@ == pre.wakers@.update(ch, None)
    &&& post.taken@ == pre.taken@
    &&& post.es == pre.es
}

/// A DMA transfer that receives data from hardware.
///
/// The transfer resolves when the peripheral has provided all expected
/// data. Use [`read`] to construct it; poll it to completion, or cancel it
/// with [`Read::cancel`], which tears both the peripheral and the channel
/// down.
pub struct Read<S: Source> {
    transfer: Transfer,
    source: S,
}

/// Use a DMA channel to receive a buffer of elements from the source
/// peripheral.
///
/// Consider routing the channel's interrupt to
/// [`Dma::on_interrupt`](crate::Dma::on_interrupt) to wake a suspended
/// caller when the transfer completes; otherwise poll the returned value.
pub fn read<W, S: Source>(channel: Channel, source: S, buffer: Buffer, hw: &mut Dma<W>) -> (r:
    Read<S>)
    requires
        channel.index_spec() < old(hw).channels.len(),
        buffer.size == source.source_element_spec(),
        buffer.len <= u16::MAX,
        buffer.size_bytes_spec() <= 0x7FFF_FFFF,
    ensures
        r.channel_index() == channel.index_spec(),
        crate::channel::only_channel_changed(
            *old(hw),
            *final(hw),
            channel.index_spec() as int,
            read_prepared(
                chan(*old(hw), channel.index_spec() as int),
                source.source_signal_spec(),
                source.source_address_spec(),
                buffer,
            ),
        ),
        r.source_spec().source_enabled_spec(),
        r.source_spec().source_signal_spec() == source.source_signal_spec(),
        r.source_spec().source_address_spec() == source.source_address_spec(),
        r.source_spec().source_element_spec() == source.source_element_spec(),
{
    let mut channel = channel;
    let mut source = source;
    let signal = source.source_signal();
    let address = source.source_address();
    prepare_read(&mut channel, hw, signal, address, buffer);
    source.enable_source();
    Read { transfer: Transfer::new(channel), source }
}

impl<S: Source> Read<S> {
    /// The index of the channel this read drives.
    pub closed spec fn channel_index(&self) -> usize {
        self.transfer.channel_index()
    }

    /// The peripheral this read receives from.
    pub closed spec fn source_spec(&self) -> S {
        self.source
    }

    /// Drive the read one step; see
    /// [`poll_rel`](crate::interrupt::poll_rel) for the exact effect. The
    /// peripheral's requests drive the channel, so no software start is
    /// needed.
    pub fn poll<W>(&self, hw: &mut Dma<W>, waker: W) -> (r: TransferPoll)
        requires
            dma_wf(*old(hw)),
            self.channel_index() < old(hw).channels.len(),
        ensures
            dma_wf(*final(hw)),
            crate::interrupt::poll_rel(
                *old(hw),
                *final(hw),
                self.channel_index() as int,
                waker,
                r,
            ),
    {
        self.transfer.poll(hw, waker)
    }

    /// Cancel the read: disable the peripheral, wait out any in-flight
    /// hardware signaling, and tear the transfer down. Gives back the
    /// channel handle and the peripheral; see [`teardown_rel`] for the
    /// exact effect on the channel.
    pub fn cancel<W>(self, hw: &mut Dma<W>) -> (r: (Channel, S))
        requires
            dma_wf(*old(hw)),
            self.channel_index() < old(hw).channels.len(),
        ensures
            dma_wf(*final(hw)),
            teardown_rel(*old(hw), *final(hw), self.channel_index() as int),
            r.0.index_spec() == self.channel_index(),
            !r.1.source_enabled_spec(),
    {
        let Read { transfer, mut source } = self;
        source.disable_source();
        // The disabled peripheral ceases signaling; this records the settled
        // state a real teardown busy-waits for.
        crate::engine::set_hardware_request(hw, transfer.channel().channel(), false);
        let channel = transfer.cancel(hw);
        proof {
            let i = channel.index_spec() as int;
            let c0 = chan(*old(hw), i);
            assert(hw.channels@ =~= old(hw).channels@.update(
                i,
                ChannelState {
                    erq: false,
                    err: false,
                    hrs: false,
                    tcd: Tcd { done: false, ..c0.tcd },
                    ..c0
                },
            ));
        }
        (channel, source)
    }
}

/// A DMA transfer that sends data to hardware.
///
/// The transfer resolves when the device has been handed all provided
/// data. Use [`write`] to construct it; the mirror image of [`Read`].
pub struct Write<D: Destination> {
    transfer: Transfer,
    destination: D,
}

/// Use a DMA channel to send a buffer of elements to the destination
/// peripheral.
///
/// Consider routing the channel's interrupt to
/// [`Dma::on_interrupt`](crate::Dma::on_interrupt) to wake a suspended
/// caller when the transfer completes; otherwise poll the returned value.
pub fn write<W, D: Destination>(channel: Channel, buffer: Buffer, destination: D, hw: &mut Dma<W>) -> (r: Write<D>)
    requires
        channel.index_spec() < old(hw).channels.len(),
        buffer.size == destination.destination_element_spec(),
        buffer.len <= u16::MAX,
        buffer.size_bytes_spec() <= 0x7FFF_FFFF,
    ensures
        r.channel_index() == channel.index_spec(),
        crate::channel::only_channel_changed(
            *old(hw),
            *final(hw),
            channel.index_spec() as int,
            write_prepared(
                chan(*old(hw), channel.index_spec() as int),
                destination.destination_signal_spec(),
                buffer,
                destination.destination_address_spec(),
            ),
        ),
        r.destination_spec().destination_enabled_spec(),
        r.destination_spec().destination_signal_spec() == destination.destination_signal_spec(),
        r.destination_spec().destination_address_spec() == destination.destination_address_spec(),
        r.destination_spec().destination_element_spec() == destination.destination_element_spec(),
{
    let mut channel = channel;
    let mut destination = destination;
    let signal = destination.destination_signal();
    let address = destination.destination_address();
    prepare_write(&mut channel, hw, buffer, signal, address);
    destination.enable_destination();
    Write { transfer: Transfer::new(channel), destination }
}

impl<D: Destination> Write<D> {
    /// The index of the channel this write drives.
    pub closed spec fn channel_index(&self) -> usize {
        self.transfer.channel_index()
    }

    /// The peripheral this write sends into.
    pub closed spec fn destination_spec(&self) -> D {
        self.destination
    }

    /// Drive the write one step; see
    /// [`poll_rel`](crate::interrupt::poll_rel) for the exact effect.
    pub fn poll<W>(&self, hw: &mut Dma<W>, waker: W) -> (r: TransferPoll)
        requires
            dma_wf(*old(hw)),
            self.channel_index() < old(hw).channels.len(),
        ensures
            dma_wf(*final(hw)),
            crate::interrupt::poll_rel(
                *old(hw),
                *final(hw),
                self.channel_index() as int,
                waker,
                r,
            ),
    {
        self.transfer.poll(hw, waker)
    }

    /// Cancel the write: disable the peripheral, wait out any in-flight
    /// hardware signaling, and tear the transfer down; see [`teardown_rel`].
    pub fn cancel<W>(self, hw: &mut Dma<W>) -> (r: (Channel, D))
        requires
            dma_wf(*old(hw)),
            self.channel_index() < old(hw).channels.len(),
        ensures
            dma_wf(*final(hw)),
            teardown_rel(*old(hw), *final(hw), self.channel_index() as int),
            r.0.index_spec() == self.channel_index(),
            !r.1.destination_enabled_spec(),
    {
        let Write { transfer, mut destination } = self;
        destination.disable_destination();
        crate::engine::set_hardware_request(hw, transfer.channel().channel(), false);
        let channel = transfer.cancel(hw);
        proof {
            let i = channel.index_spec() as int;
            let c0 = chan(*old(hw), i);
            assert(hw.channels@ =~= old(hw).channels@.update(
                i,
                ChannelState {
                    erq: false,
                    err: false,
                    hrs: false,
                    tcd: Tcd { done: false, ..c0.tcd },
                    ..c0
                },
            ));
        }
        (channel, destination)
    }
}

/// A full-duplex DMA exchange through a single buffer.
///
/// `FullDuplex` runs two transfers at once against one [`Bidirectional`]
/// peripheral: the transmit side sends the buffer out element by element,
/// and the receive side stores what comes back into the same buffer. It
/// resolves only when both sides have resolved.
pub struct FullDuplex<P: Bidirectional> {
    rx_transfer: Transfer,
    tx_transfer: Transfer,
    rx_done: bool,
    tx_done: bool,
    peripheral: P,
}

/// Perform a full-duplex exchange of `buffer` with `peripheral`, using one
/// channel for the receive side and one for the transmit side.
#[verifier::rlimit(100)]
pub fn full_duplex<W, P: Bidirectional>(
    rx_channel: Channel,
    tx_channel: Channel,
    peripheral: P,
    buffer: Buffer,
    hw: &mut Dma<W>,
) -> (r: FullDuplex<P>)
    requires
        rx_channel.index_spec() < old(hw).channels.len(),
        tx_channel.index_spec() < old(hw).channels.len(),
        rx_channel.index_spec() != tx_channel.index_spec(),
        buffer.size == peripheral.source_element_spec(),
        buffer.size == peripheral.destination_element_spec(),
        buffer.len <= u16::MAX,
        buffer.size_bytes_spec() <= 0x7FFF_FFFF,
    ensures
        r.rx_index() == rx_channel.index_spec(),
        r.tx_index() == tx_channel.index_spec(),
        !r.rx_done_spec(),
        !r.tx_done_spec(),
        final(hw).channels@ == old(hw).channels@.update(
            tx_channel.index_spec() as int,
            write_prepared(
                chan(*old(hw), tx_channel.index_spec() as int),
                peripheral.destination_signal_spec(),
                buffer,
                peripheral.destination_address_spec(),
            ),
        ).update(
            rx_channel.index_spec() as int,
            read_prepared(
                chan(*old(hw), rx_channel.index_spec() as int),
                peripheral.source_signal_spec(),
                peripheral.source_address_spec(),
                buffer,
            ),
        ),
        final(hw).wakers@ == old(hw).wakers@,
        final(hw).taken@ == old(hw).taken@,
        final(hw).es == old(hw).es,
        r.peripheral_spec().source_enabled_spec(),
{
    let mut rx_channel = rx_channel;
    let mut tx_channel = tx_channel;
    let mut peripheral = peripheral;
    let tx_signal = peripheral.destination_signal();
    let tx_address = peripheral.destination_address();
    let rx_signal = peripheral.source_signal();
    let rx_address = peripheral.source_address();
    prepare_write(&mut tx_channel, hw, buffer, tx_signal, tx_address);
    prepare_read(&mut rx_channel, hw, rx_signal, rx_address, buffer);
    peripheral.enable_destination();
    peripheral.enable_source();
    FullDuplex {
        rx_transfer: Transfer::new(rx_channel),
        tx_transfer: Transfer::new(tx_channel),
        rx_done: false,
        tx_done: false,
        peripheral,
    }
}

/// What one poll of a full-duplex exchange does: each side that has not yet
/// resolved is polled in turn, receive first. An error on either side
/// surfaces at once with the status snapshot; completion flags mark the
/// side done; the exchange reports Complete exactly when both sides are
/// done.
pub open spec fn full_duplex_poll_rel<W>(
    pre: Dma<W>,
    post: Dma<W>,
    rx: int,
    tx: int,
    rx_waker: W,
    tx_waker: W,
    rx_done0: bool,
    tx_done0: bool,
    rx_done1: bool,
    tx_done1: bool,
    r: TransferPoll,
) -> bool {
    let crx = chan(pre, rx);
    let ctx = chan(pre, tx);
    &&& post.taken@ == pre.taken@
    &&& post.es == pre.es
    &&& if !rx_done0 && crx.err {
        &&& post.channels@ == pre.channels@.update(rx, transfer_polled(crx))
        &&& post.wakers@ == pre.wakers@.update(rx, Some(rx_waker))
        &&& rx_done1 == rx_done0
        &&& tx_done1 == tx_done0
        &&& r == transfer_poll_result(crx, pre.es)
    } else {
        let channels1 = if !rx_done0 {
            pre.channels@.update(rx, transfer_polled(crx))
        } else {
            pre.channels@
        };
        let wakers1 = if !rx_done0 {
            pre.wakers@.update(rx, Some(rx_waker))
        } else {
            pre.wakers@
        };
        let rx_settled = rx_done0 || crx.tcd.done;
        &&& rx_done1 == rx_settled
        &&& if !tx_done0 && ctx.err {
            &&& post.channels@ == channels1.update(tx, transfer_polled(ctx))
            &&& post.wakers@ == wakers1.update(tx, Some(tx_waker))
            &&& tx_done1 == tx_done0
            &&& r == transfer_poll_result(ctx, pre.es)
        } else {
            let tx_settled = tx_done0 || ctx.tcd.done;
            &&& tx_done1 == tx_settled
            &&& post.channels@ == (if !tx_done0 {
                channels1.update(tx, transfer_polled(ctx))
            } else {
                channels1
            })
            &&& post.wakers@ == (if !tx_done0 {
                wakers1.update(tx, Some(tx_waker))
            } else {
                wakers1
            })
            &&& r == (if rx_settled && tx_settled {
                TransferPoll::Complete
            } else {
                TransferPoll::Pending
            })
        }
    }
}

impl<P: Bidirectional> FullDuplex<P> {
    /// The index of the channel receiving from the peripheral.
    pub closed spec fn rx_index(&self) -> usize {
        self.rx_transfer.channel_index()
    }

    /// The index of the channel transmitting into the peripheral.
    pub closed spec fn tx_index(&self) -> usize {
        self.tx_transfer.channel_index()
    }

    /// Whether the receive side has resolved.
    pub closed spec fn rx_done_spec(&self) -> bool {
        self.rx_done
    }

    /// Whether the transmit side has resolved.
    pub closed spec fn tx_done_spec(&self) -> bool {
        self.tx_done
    }

    /// The peripheral this exchange talks to.
    pub closed spec fn peripheral_spec(&self) -> P {
        self.peripheral
    }

    /// Drive the exchange one step; see [`full_duplex_poll_rel`] for the
    /// exact effect. Each side registers its own waker, so a completion
    /// interrupt for either channel can resume the caller.
    pub fn poll<W>(&mut self, hw: &mut Dma<W>, rx_waker: W, tx_waker: W) -> (r: TransferPoll)
        requires
            dma_wf(*old(hw)),
            old(self).rx_index() < old(hw).channels.len(),
            old(self).tx_index() < old(hw).channels.len(),
            old(self).rx_index() != old(self).tx_index(),
        ensures
            dma_wf(*final(hw)),
            final(self).rx_index() == old(self).rx_index(),
            final(self).tx_index() == old(self).tx_index(),
            final(self).peripheral_spec() == old(self).peripheral_spec(),
            full_duplex_poll_rel(
                *old(hw),
                *final(hw),
                old(self).rx_index() as int,
                old(self).tx_index() as int,
                rx_waker,
                tx_waker,
                old(self).rx_done_spec(),
                old(self).tx_done_spec(),
                final(self).rx_done_spec(),
                final(self).tx_done_spec(),
                r,
            ),
    {
        if !self.rx_done {
            match self.rx_transfer.poll(hw, rx_waker) {
                TransferPoll::Failed(e) => {
                    return TransferPoll::Failed(e);
                },
                TransferPoll::Complete => {
                    self.rx_done = true;
                },
                TransferPoll::Pending => {},
            }
        }
        if !self.tx_done {
            match self.tx_transfer.poll(hw, tx_waker) {
                TransferPoll::Failed(e) => {
                    return TransferPoll::Failed(e);
                },
                TransferPoll::Complete => {
                    self.tx_done = true;
                },
                TransferPoll::Pending => {},
            }
        }
        if self.rx_done && self.tx_done {
            TransferPoll::Complete
        } else {
            TransferPoll::Pending
        }
    }

    /// Cancel the exchange: disable both sides of the peripheral, wait out
    /// any in-flight hardware signaling on both channels, and tear both
    /// transfers down. Gives back both channel handles and the peripheral;
    /// see [`teardown_rel`] for the effect on each channel.
    pub fn cancel<W>(self, hw: &mut Dma<W>) -> (r: (Channel, Channel, P))
        requires
            dma_wf(*old(hw)),
            self.rx_index() < old(hw).channels.len(),
            self.tx_index() < old(hw).channels.len(),
            self.rx_index() != self.tx_index(),
        ensures
            dma_wf(*final(hw)),
            !chan(*final(hw), self.rx_index() as int).erq,
            !chan(*final(hw), self.rx_index() as int).tcd.done,
            !chan(*final(hw), self.rx_index() as int).err,
            !chan(*final(hw), self.rx_index() as int).hrs,
            !chan(*final(hw), self.tx_index() as int).erq,
            !chan(*final(hw), self.tx_index() as int).tcd.done,
            !chan(*final(hw), self.tx_index() as int).err,
            !chan(*final(hw), self.tx_index() as int).hrs,
            final(hw).wakers@ == old(hw).wakers@.update(
                self.tx_index() as int,
                None,
            ).update(self.rx_index() as int, None),
            final(hw).taken@ == old(hw).taken@,
            final(hw).es == old(hw).es,
            r.0.index_spec() == self.rx_index(),
            r.1.index_spec() == self.tx_index(),
            !r.2.source_enabled_spec(),
    {
        let FullDuplex { rx_transfer, tx_transfer, peripheral, .. } = self;
        let mut peripheral = peripheral;
        peripheral.disable_destination();
        peripheral.disable_source();
        crate::engine::set_hardware_request(hw, tx_transfer.channel().channel(), false);
        crate::engine::set_hardware_request(hw, rx_transfer.channel().channel(), false);
        let tx_channel = tx_transfer.cancel(hw);
        let rx_channel = rx_transfer.cancel(hw);
        (rx_channel, tx_channel, peripheral)
    }
}

/// An exchange reports completion exactly when both of its sides have
/// resolved: one side alone never completes the whole.
pub proof fn lemma_full_duplex_needs_both<W>(
    pre: Dma<W>,
    post: Dma<W>,
    rx: int,
    tx: int,
    rx_waker: W,
    tx_waker: W,
    rx_done0: bool,
    tx_done0: bool,
    rx_done1: bool,
    tx_done1: bool,
    r: TransferPoll,
)
    requires
        full_duplex_poll_rel(
            pre,
            post,
            rx,
            tx,
            rx_waker,
            tx_waker,
            rx_done0,
            tx_done0,
            rx_done1,
            tx_done1,
            r,
        ),
        !(rx_done0 && chan(pre, rx).err),
        !(tx_done0 && chan(pre, tx).err),
    ensures
        (r == TransferPoll::Complete) <==> (rx_done1 && tx_done1),
        (r is Failed) ==> (chan(pre, rx).err || chan(pre, tx).err),
{
}

/// A software stand-in for a bidirectional peripheral: its data register is
/// a plain model-memory word, so the adapters can be exercised against the
/// controller model without real hardware.
pub struct MemoryPeripheral {
    source_signal: u32,
    destination_signal: u32,
    address: u32,
    size: ElementSize,
    source_on: bool,
    destination_on: bool,
}

impl MemoryPeripheral {
    /// A peripheral with the given request signals, whose data register of
    /// width `size` lives at model-memory address `address`. Both sides
    /// start disabled.
    pub fn new(source_signal: u32, destination_signal: u32, address: u32, size: ElementSize) -> (r:
        MemoryPeripheral)
        ensures
            r.source_signal_spec() == source_signal,
            r.destination_signal_spec() == destination_signal,
            r.source_address_spec() == address,
            r.destination_address_spec() == address,
            r.source_element_spec() == size,
            r.destination_element_spec() == size,
            !r.source_enabled_spec(),
            !r.destination_enabled_spec(),
    {
        MemoryPeripheral {
            source_signal,
            destination_signal,
            address,
            size,
            source_on: false,
            destination_on: false,
        }
    }

    /// Whether the source side is enabled.
    pub fn is_source_enabled(&self) -> (r: bool)
        ensures
            r == self.source_enabled_spec(),
    {
        self.source_on
    }

    /// Whether the destination side is enabled.
    pub fn is_destination_enabled(&self) -> (r: bool)
        ensures
            r == self.destination_enabled_spec(),
    {
        self.destination_on
    }
}

impl Source for MemoryPeripheral {
    closed spec fn source_signal_spec(&self) -> u32 {
        self.source_signal
    }

    closed spec fn source_address_spec(&self) -> u32 {
        self.address
    }

    closed spec fn source_element_spec(&self) -> ElementSize {
        self.size
    }

    closed spec fn source_enabled_spec(&self) -> bool {
        self.source_on
    }

    fn source_signal(&self) -> (r: u32) {
        self.source_signal
    }

    fn source_address(&self) -> (r: u32) {
        self.address
    }

    fn source_element(&self) -> (r: ElementSize) {
        self.size
    }

    fn enable_source(&mut self) {
        self.source_on = true;
    }

    fn disable_source(&mut self) {
        self.source_on = false;
    }
}

impl Destination for MemoryPeripheral {
    closed spec fn destination_signal_spec(&self) -> u32 {
        self.destination_signal
    }

    closed spec fn destination_address_spec(&self) -> u32 {
        self.address
    }

    closed spec fn destination_element_spec(&self) -> ElementSize {
        self.size
    }

    closed spec fn destination_enabled_spec(&self) -> bool {
        self.destination_on
    }

    fn destination_signal(&self) -> (r: u32) {
        self.destination_signal
    }

    fn destination_address(&self) -> (r: u32) {
        self.address
    }

    fn destination_element(&self) -> (r: ElementSize) {
        self.size
    }

    fn enable_destination(&mut self) {
        self.destination_on = true;
    }

    fn disable_destination(&mut self) {
        self.destination_on = false;
    }
}

impl Bidirectional for MemoryPeripheral {

}

} // verus!
