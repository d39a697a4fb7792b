//! DMA-powered memcpy between two linear buffers.

use vstd::prelude::*;

use vstd::arithmetic::div_mod::{lemma_div_multiples_vanish, lemma_mod_multiples_basic};
use vstd::arithmetic::mul::lemma_mul_inequality;

use crate::channel::{
    chan, only_channel_changed, Channel, ChannelConfiguration, ChannelState, Tcd,
};
use crate::element::Buffer;
use crate::engine::{
    addr_at, elems_per_minor, lemma_addr_at_linear, lemma_minor_loop_linear_copy, service_fault,
    service_rel,
};
use crate::error::Error;
use crate::interrupt::{Transfer, TransferPoll};
use crate::{dma_wf, Dma};

verus! {

/// The number of elements a memcpy between `source` and `destination`
/// moves: the shorter buffer bounds the copy.
pub open spec fn memcpy_elems(source: Buffer, destination: Buffer) -> nat {
    if source.len <= destination.len {
        source.len as nat
    } else {
        destination.len as nat
    }
}

/// The descriptor `memcpy` programs: both sides pointed at their linear
/// buffers, one major iteration whose minor loop moves every element, and
/// the request line dropped automatically at completion.
pub open spec fn memcpy_tcd(t: Tcd, source: Buffer, destination: Buffer) -> Tcd {
    let size = source.size.bytes_spec();
    Tcd {
        saddr: source.address,
        soff: size as i16,
        smod: 0,
        ssize: source.size,
        slast: (-(source.size_bytes_spec() as int)) as i32,
        daddr: destination.address,
        doff: destination.size.bytes_spec() as i16,
        dmod: 0,
        dsize: destination.size,
        dlast: (-(destination.size_bytes_spec() as int)) as i32,
        nbytes: (memcpy_elems(source, destination) * size) as u32,
        citer: 1,
        biter: 1,
        dreq: true,
        ..t
    }
}

/// The channel's descriptor is the one `memcpy` programs for `source` and
/// `destination`, and its multiplexer routing is off. Arming state and
/// status flags are not constrained: polling changes them.
pub open spec fn memcpy_configured<W>(
    d: Dma<W>,
    ch: int,
    source: Buffer,
    destination: Buffer,
) -> bool {
    let c = chan(d, ch);
    &&& c.tcd == Tcd { start: c.tcd.start, done: c.tcd.done, ..memcpy_tcd(c.tcd, source, destination) }
    &&& c.chcfg == 0
}

/// A memcpy operation.
///
/// `Memcpy` wraps the core [`Transfer`] and adds the software service
/// request an in-memory transfer needs, since no peripheral drives the
/// channel. Poll it to completion, or cancel it to tear the channel down.
pub struct Memcpy {
    transfer: Transfer,
}

/// What building a memcpy does to the channel: request line disabled,
/// disable-on-completion set, both buffer halves programmed, multiplexer
/// routing off, and a single major iteration moving every element.
pub open spec fn memcpy_rel<W>(
    pre: Dma<W>,
    post: Dma<W>,
    ch: int,
    source: Buffer,
    destination: Buffer,
) -> bool {
    let c0 = chan(pre, ch);
    only_channel_changed(
        pre,
        post,
        ch,
        ChannelState { tcd: memcpy_tcd(c0.tcd, source, destination), erq: false, chcfg: 0, ..c0 },
    )
}

/// Program `channel` for a DMA-powered memcpy from `source` to
/// `destination` and wrap it in a pollable [`Memcpy`].
///
/// The copy moves the shorter buffer's element count. The channel's state
/// is rewritten for this transfer; reconfigure it for the next one. You are
/// responsible for enabling completion interrupts if you want
/// [`Dma::on_interrupt`](crate::Dma::on_interrupt) to wake a suspended
/// caller; otherwise poll until completion.
#[verifier::rlimit(100)]
pub fn memcpy<W>(source: Buffer, destination: Buffer, channel: Channel, hw: &mut Dma<W>) -> (r:
    Memcpy)
    requires
        channel.index_spec() < old(hw).channels.len(),
        source.size == destination.size,
        source.size_bytes_spec() <= 0x7FFF_FFFF,
        destination.size_bytes_spec() <= 0x7FFF_FFFF,
    ensures
        r.channel_index() == channel.index_spec(),
        memcpy_rel(*old(hw), *final(hw), channel.index_spec() as int, source, destination),
{
    let mut channel = channel;
    channel.disable(hw);
    channel.set_disable_on_completion(hw, true);
    crate::channel::set_source_linear_buffer(&channel, hw, source);
    crate::channel::set_destination_linear_buffer(&channel, hw, destination);
    channel.set_channel_configuration(hw, ChannelConfiguration::Off);
    let size = source.size.bytes();
    let n = if source.len <= destination.len {
        source.len
    } else {
        destination.len
    };
    proof {
        lemma_mul_inequality(n as int, source.len as int, size as int);
        lemma_mul_inequality(n as int, destination.len as int, size as int);
    }
    channel.set_minor_loop_bytes(hw, n * size);
    channel.set_transfer_iterations(hw, 1);
    proof {
        let i = channel.index_spec() as int;
        let c0 = chan(*old(hw), i);
        assert(hw.channels@ =~= old(hw).channels@.update(
            i,
            ChannelState {
                tcd: memcpy_tcd(c0.tcd, source, destination),
                erq: false,
                chcfg: 0,
                ..c0
            },
        ));
    }
    Memcpy { transfer: Transfer::new(channel) }
}

/// What one poll of a memcpy does: the poll of the underlying transfer,
/// followed, when the transfer suspends on an idle channel, by the software
/// service request that asks the controller for the copy.
pub open spec fn memcpy_poll_rel<W>(
    pre: Dma<W>,
    post: Dma<W>,
    ch: int,
    waker: W,
    r: TransferPoll,
) -> bool {
    let c0 = chan(pre, ch);
    &&& post.wakers@ == pre.wakers@.update(ch, Some(waker))
    &&& post.taken@ == pre.taken@
    &&& post.es == pre.es
    &&& if c0.err {
        &&& post.channels@ == pre.channels@.update(ch, ChannelState { err: false, ..c0 })
        &&& r == TransferPoll::Failed(Error { es: pre.es })
    } else if c0.tcd.done {
        &&& post.channels@ == pre.channels@.update(
            ch,
            ChannelState { tcd: Tcd { done: false, ..c0.tcd }, ..c0 },
        )
        &&& r == TransferPoll::Complete
    } else {
        let armed = if c0.erq {
            c0
        } else {
            ChannelState { erq: true, ..c0 }
        };
        let started = if !c0.tcd.active {
            ChannelState { tcd: Tcd { start: true, ..armed.tcd }, ..armed }
        } else {
            armed
        };
        &&& post.channels@ == pre.channels@.update(ch, started)
        &&& r == TransferPoll::Pending
    }
}

impl Memcpy {
    /// The index of the channel this memcpy drives.
    pub closed spec fn channel_index(&self) -> usize {
        self.transfer.channel_index()
    }

    /// Drive the memcpy one step; see [`memcpy_poll_rel`] for the exact
    /// effect. While the transfer is pending and the channel idle, a
    /// software service request is issued, since no hardware peripheral
    /// drives an in-memory copy.
    pub fn poll<W>(&self, hw: &mut Dma<W>, waker: W) -> (r: TransferPoll)
        requires
            dma_wf(*old(hw)),
            self.channel_index() < old(hw).channels.len(),
        ensures
            dma_wf(*final(hw)),
            memcpy_poll_rel(*old(hw), *final(hw), self.channel_index() as int, waker, r),
    {
        let r = self.transfer.poll(hw, waker);
        let pending = match r {
            TransferPoll::Pending => true,
            _ => false,
        };
        if pending && !self.transfer.channel().is_active(hw) {
            self.transfer.channel().start(hw);
        }
        proof {
            let i = self.channel_index() as int;
            assert(hw.channels@ =~= old(hw).channels@.update(i, hw.channels@[i]));
        }
        r
    }

    /// Cancel the memcpy and give the channel handle back; see
    /// [`cancel_rel`](crate::interrupt::cancel_rel) for the exact effect.
    pub fn cancel<W>(self, hw: &mut Dma<W>) -> (r: Channel)
        requires
            dma_wf(*old(hw)),
            self.channel_index() < old(hw).channels.len(),
        ensures
            dma_wf(*final(hw)),
            crate::interrupt::cancel_rel(*old(hw), *final(hw), self.channel_index() as int),
            r.index_spec() == self.channel_index(),
    {
        self.transfer.cancel(hw)
    }
}

/// Round trip: when the controller services a channel that `memcpy`
/// configured for two equal-length, aligned, disjoint buffers, the
/// destination buffer ends up holding a copy of the source buffer, every
/// byte outside the destination keeps its value, the channel reports
/// completion with no error, the request line has dropped again, and both
/// descriptor addresses are wound back to their configured buffer bases by
/// the restoring last-address adjustments.
#[verifier::rlimit(100)]
pub proof fn lemma_memcpy_round_trip<W>(
    cfg: Dma<W>,
    premem: Seq<u8>,
    post: Dma<W>,
    postmem: Seq<u8>,
    ch: int,
    source: Buffer,
    destination: Buffer,
)
    requires
        0 <= ch < cfg.channels.len(),
        memcpy_configured(cfg, ch, source, destination),
        chan(cfg, ch).erq || chan(cfg, ch).tcd.start,
        !chan(cfg, ch).err,
        source.len == destination.len,
        source.size == destination.size,
        source.len >= 1,
        source.address as int % (source.size.bytes_spec() as int) == 0,
        destination.address as int % (source.size.bytes_spec() as int) == 0,
        source.address + source.size_bytes_spec() <= premem.len(),
        destination.address + destination.size_bytes_spec() <= premem.len(),
        premem.len() <= 0xFFFF_FFFF,
        source.address + source.size_bytes_spec() <= destination.address || destination.address
            + destination.size_bytes_spec() <= source.address,
        service_rel(cfg, premem, post, postmem, ch),
    ensures
        postmem.len() == premem.len(),
        forall|j: int|
            0 <= j < source.size_bytes_spec() ==> #[trigger] postmem[destination.address + j]
                == premem[source.address + j],
        forall|a: int|
            0 <= a < premem.len() && !(destination.address <= a < destination.address
                + destination.size_bytes_spec()) ==> #[trigger] postmem[a] == premem[a],
        chan(post, ch).tcd.done,
        !chan(post, ch).err,
        !chan(post, ch).erq,
        chan(post, ch).tcd.saddr == source.address,
        chan(post, ch).tcd.daddr == destination.address,
        post.es == cfg.es,
{
    let c0 = chan(cfg, ch);
    let t = c0.tcd;
    let size = source.size.bytes_spec();
    let n = source.len as nat;
    assert(memcpy_elems(source, destination) == n);
    assert(t.nbytes == n * size);
    assert(n * size == source.size_bytes_spec());

    // The descriptor passes every validity check the controller makes.
    assert(n * size >= 1) by (nonlinear_arith)
        requires
            n >= 1,
            size >= 1,
    ;
    lemma_mod_multiples_basic(n as int, size as int);
    assert(t.nbytes as int % (size as int) == 0);
    lemma_div_multiples_vanish(n as int, size as int);
    assert(elems_per_minor(t) == n);
    assert((size as int) % (size as int) == 0);

    lemma_addr_at_linear(t.saddr, t.soff, n);
    lemma_addr_at_linear(t.daddr, t.doff, n);
    assert forall|i: nat| i < n implies #[trigger] addr_at(t.saddr, t.soff, t.smod, i) + size
        <= premem.len() by {
        assert(addr_at(t.saddr, t.soff, 0, i) == t.saddr + i * size);
        assert(i * size + size <= n * size) by (nonlinear_arith)
            requires
                i < n,
                size >= 1,
        ;
    }
    assert forall|i: nat| i < n implies #[trigger] addr_at(t.daddr, t.doff, t.dmod, i) + size
        <= premem.len() by {
        assert(addr_at(t.daddr, t.doff, 0, i) == t.daddr + i * size);
        assert(i * size + size <= n * size) by (nonlinear_arith)
            requires
                i < n,
                size >= 1,
        ;
    }
    assert(service_fault(t, premem.len()) is None);

    // The controller therefore took the copy path.
    assert(postmem == crate::engine::minor_loop_mem(premem, t, n));
    lemma_minor_loop_linear_copy(premem, t, n);

    // Address write-back: the restoring adjustments wind both back.
    assert(addr_at(t.saddr, t.soff, t.smod, n) == t.saddr + n * size);
    assert(addr_at(t.daddr, t.doff, t.dmod, n) == t.daddr + n * size);
    assert(chan(post, ch).tcd.saddr == source.address);
    assert(chan(post, ch).tcd.daddr == destination.address);
}

} // verus!
