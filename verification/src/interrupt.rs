//! The transfer life-cycle and its interrupt dispatch.
//!
//! [`Transfer`] is the suspension primitive: a single-poll state machine that
//! arms and monitors one channel. Its states are Unarmed (constructed, not
//! yet polled), Armed / Pending (request line enabled, outcome not yet
//! observed) and Ready, reported as [`TransferPoll::Complete`] or
//! [`TransferPoll::Failed`]. Cancellation is not a distinct state: it is the
//! effect of [`Transfer::cancel`], which the platform's drop glue runs.
//!
//! [`Dma::on_interrupt`] and [`Dma::on_error`] are the routines a platform
//! calls from its interrupt handlers. They hand back the waker to invoke
//! rather than invoking it, so the model stays free of the platform's task
//! system; the platform wakes the returned handle after leaving its critical
//! section.
//!
//! In a real system the poll path and the interrupt path race over the waker
//! slot and the status flags; both must run under the same mutual-exclusion
//! discipline. Here that discipline is the exclusive `&mut` access to the
//! [`Dma`] value.

use vstd::prelude::*;

use crate::channel::{chan, Channel, ChannelState, Tcd};
use crate::error::Error;
use crate::{dma_wf, Dma};

verus! {

/// The outcome of polling a [`Transfer`] once.
#[derive(Clone, Copy, PartialEq, Eq, Structural, Debug)]
pub enum TransferPoll {
    /// The transfer is armed and in flight; the registered waker will be
    /// handed out by the interrupt dispatch once the channel completes or
    /// errors.
    Pending,
    /// The transfer completed; the completion flag has been consumed.
    Complete,
    /// The channel reported an error; the error flag has been consumed and
    /// the global error status snapshot is attached.
    Failed(Error),
}

/// The channel state after one poll: a raised error flag is consumed, or a
/// raised completion flag is consumed, or an in-flight channel is left
/// alone, or an idle channel is armed by enabling its request line.
pub open spec fn transfer_polled(c0: ChannelState) -> ChannelState {
    if c0.err {
        ChannelState { err: false, ..c0 }
    } else if c0.tcd.done {
        ChannelState { tcd: Tcd { done: false, ..c0.tcd }, ..c0 }
    } else if c0.erq {
        c0
    } else {
        ChannelState { erq: true, ..c0 }
    }
}

/// The outcome one poll reports for a channel in state `c0`, with `es` the
/// global error status it would snapshot.
pub open spec fn transfer_poll_result(c0: ChannelState, es: u32) -> TransferPoll {
    if c0.err {
        TransferPoll::Failed(Error { es })
    } else if c0.tcd.done {
        TransferPoll::Complete
    } else {
        TransferPoll::Pending
    }
}

/// What one poll does to the controller state.
///
/// The caller's waker always lands in the channel's slot, last writer wins.
/// Then, in order of priority: a raised error flag is consumed and reported
/// with the status snapshot; a raised completion flag is consumed and
/// reported; an enabled request line means the transfer is in flight, so the
/// poll suspends; otherwise this is the first poll, which arms the channel by
/// enabling the request line and suspends.
pub open spec fn poll_rel<W>(pre: Dma<W>, post: Dma<W>, ch: int, waker: W, r: TransferPoll) -> bool {
    let c0 = chan(pre, ch);
    &&& post.wakers@ == pre.wakers@.update(ch, Some(waker))
    &&& post.taken@ == pre.taken@
    &&& post.es == pre.es
    &&& post.channels@ == pre.channels@.update(ch, transfer_polled(c0))
    &&& r == transfer_poll_result(c0, pre.es)
}

/// What cancelling a transfer does: the channel's request line is disabled,
/// the completion and error flags are cleared, and the waker slot is emptied.
pub open spec fn cancel_rel<W>(pre: Dma<W>, post: Dma<W>, ch: int) -> bool {
    let c0 = chan(pre, ch);
    &&& post.channels@ == pre.channels@.update(
        ch,
        ChannelState { erq: false, err: false, tcd: Tcd { done: false, ..c0.tcd }, ..c0 },
    )
    &&& post.wakers@ == pre.wakers@.update(ch, None)
    &&& post.taken@ == pre.taken@
    &&& post.es == pre.es
}

/// What one interrupt dispatch does: the channel's interrupt flag is
/// cleared; if the channel reports completion or error, the registered waker
/// is taken out of the slot and handed back for the platform to invoke, and
/// the slot is left empty; otherwise no wake happens and the slot is
/// untouched.
pub open spec fn on_interrupt_rel<W>(pre: Dma<W>, post: Dma<W>, ch: int, w: Option<W>) -> bool {
    let c0 = chan(pre, ch);
    &&& post.channels@ == pre.channels@.update(ch, ChannelState { int: false, ..c0 })
    &&& post.taken@ == pre.taken@
    &&& post.es == pre.es
    &&& if c0.tcd.done || c0.err {
        &&& post.wakers@ == pre.wakers@.update(ch, None)
        &&& w == pre.wakers@[ch]
    } else {
        &&& post.wakers@ == pre.wakers@
        &&& w is None
    }
}

/// The wakers [`Dma::on_error`] hands back when scanning channels
/// `0..n`: for each channel with a raised error flag, in channel order, the
/// waker registered in its slot, if any.
pub open spec fn error_wakers<W>(d: Dma<W>, n: int) -> Seq<W>
    decreases n,
{
    if n <= 0 {
        Seq::empty()
    } else {
        let rest = error_wakers(d, n - 1);
        if chan(d, n - 1).err && d.wakers@[n - 1] is Some {
            rest.push(d.wakers@[n - 1]->0)
        } else {
            rest
        }
    }
}

/// The core DMA transfer future.
///
/// A `Transfer` drives the transfer its channel describes: it arms the
/// channel on first poll, and reports completion or error on a later poll.
/// It holds the [`Channel`] handle for its whole life, so no other code can
/// reprogram the descriptor while the transfer is in flight; cancelling
/// through [`Transfer::cancel`] gives the handle back.
pub struct Transfer {
    channel: Channel,
}

impl Transfer {
    /// The index of the channel this transfer drives.
    pub closed spec fn channel_index(&self) -> usize {
        self.channel.index_spec()
    }

    /// Create a `Transfer` that performs the DMA transfer described by
    /// `channel`.
    ///
    /// The transfer assumes the descriptor is correctly defined; the channel
    /// arms on the first call to `poll`, and a descriptor the controller
    /// cannot execute surfaces as a [`TransferPoll::Failed`] outcome.
    pub fn new(channel: Channel) -> (r: Transfer)
        ensures
            r.channel_index() == channel.index_spec(),
    {
        Transfer { channel }
    }

    /// The channel this transfer drives.
    pub fn channel(&self) -> (r: &Channel)
        ensures
            r.index_spec() == self.channel_index(),
    {
        &self.channel
    }

    /// Drive the transfer one step; see [`poll_rel`] for the exact effect.
    ///
    /// `waker` is registered in the channel's slot before the flags are
    /// inspected, so a completion signal arriving right after the flag check
    /// still finds the waker to invoke. Registration always overwrites the
    /// slot — last writer wins — which is sound because the channel's owner
    /// polls one transfer at a time.
    pub fn poll<W>(&self, hw: &mut Dma<W>, waker: W) -> (r: TransferPoll)
        requires
            dma_wf(*old(hw)),
            self.channel_index() < old(hw).channels.len(),
        ensures
            dma_wf(*final(hw)),
            poll_rel(*old(hw), *final(hw), self.channel_index() as int, waker, r),
    {
        let i = self.channel.channel();
        hw.wakers[i] = Some(waker);

        let c0 = hw.channels[i];
        if c0.err {
            let status = self.channel.error_status(hw);
            self.channel.clear_error(hw);
            TransferPoll::Failed(status)
        } else if c0.tcd.done {
            self.channel.clear_complete(hw);
            TransferPoll::Complete
        } else if c0.erq {
            proof {
                assert(hw.channels@ =~= old(hw).channels@.update(
                    i as int,
                    chan(*old(hw), i as int),
                ));
            }
            TransferPoll::Pending
        } else {
            // First poll: publish the descriptor writes to the hardware,
            // then arm the channel.
            ordering_fence();
            self.channel.enable(hw);
            // Real hardware may complete synchronously fast, so a driver
            // re-checks the flags after the enable. In this model nothing
            // runs between the enable and that re-check, so it reduces to
            // suspending.
            TransferPoll::Pending
        }
    }

    /// Cancel the transfer and give the channel handle back; see
    /// [`cancel_rel`] for the exact effect.
    ///
    /// This is the teardown the platform's drop glue must run, and it is
    /// safe at every point of the life-cycle: disabling an idle channel and
    /// clearing clear flags are no-ops at the hardware level.
    pub fn cancel<W>(self, hw: &mut Dma<W>) -> (r: Channel)
        requires
            dma_wf(*old(hw)),
            self.channel_index() < old(hw).channels.len(),
        ensures
            dma_wf(*final(hw)),
            cancel_rel(*old(hw), *final(hw), self.channel_index() as int),
            r.index_spec() == self.channel_index(),
    {
        let i = self.channel.channel();
        self.channel.disable(hw);
        self.channel.clear_complete(hw);
        self.channel.clear_error(hw);
        hw.wakers[i] = None;
        proof {
            let c0 = chan(*old(hw), i as int);
            assert(hw.channels@ =~= old(hw).channels@.update(
                i as int,
                ChannelState { erq: false, err: false, tcd: Tcd { done: false, ..c0.tcd }, ..c0 },
            ));
        }
        self.channel
    }
}

/// Relies on core::sync::atomic::fence: a sequentially-consistent memory
/// fence, issued between the last descriptor write and the enable so the
/// hardware observes a fully-written descriptor.
#[verifier::external_body]
fn ordering_fence() {
    core::sync::atomic::fence(core::sync::atomic::Ordering::SeqCst);
}

impl<W> Dma<W> {
    /// Handle a DMA interrupt for `channel`; see [`on_interrupt_rel`] for
    /// the exact effect.
    ///
    /// Call this from the channel's interrupt handler, under the same
    /// critical-section discipline that guards the poll path, and invoke the
    /// returned waker, if any, after leaving the critical section. Taking
    /// the waker out of the slot guarantees a later call, or a later
    /// teardown, cannot wake the same handle twice.
    pub fn on_interrupt(&mut self, channel: usize) -> (w: Option<W>)
        requires
            dma_wf(*old(self)),
            channel < old(self).channels.len(),
        ensures
            dma_wf(*final(self)),
            on_interrupt_rel(*old(self), *final(self), channel as int, w),
    {
        let c0 = self.channels[channel];
        let mut c = c0;
        c.int = false;
        self.channels[channel] = c;

        if c0.tcd.done || c0.err {
            let mut w: Option<W> = None;
            self.wakers.set_and_swap(channel, &mut w);
            w
        } else {
            None
        }
    }

    /// Handle a shared global-error interrupt: scan channels
    /// `0..max_channel` and take the waker of every channel whose error flag
    /// is raised.
    ///
    /// The returned wakers are in channel order; the platform invokes each
    /// after leaving its critical section. Channels' flags are not touched:
    /// the woken transfers observe and consume their own error flags.
    pub fn on_error(&mut self, max_channel: usize) -> (woken: Vec<W>)
        requires
            dma_wf(*old(self)),
            max_channel <= old(self).channels.len(),
        ensures
            dma_wf(*final(self)),
            final(self).channels@ == old(self).channels@,
            final(self).taken@ == old(self).taken@,
            final(self).es == old(self).es,
            final(self).wakers@.len() == old(self).wakers@.len(),
            woken@ == error_wakers(*old(self), max_channel as int),
            forall|i: int|
                0 <= i < max_channel && chan(*old(self), i).err ==> final(self).wakers@[i] is None,
            forall|i: int|
                0 <= i < max_channel && !chan(*old(self), i).err ==> final(self).wakers@[i]
                    == old(self).wakers@[i],
            forall|i: int|
                max_channel <= i < old(self).wakers@.len() ==> final(self).wakers@[i] == old(
                    self,
                ).wakers@[i],
    {
        let mut woken: Vec<W> = Vec::new();
        let mut i: usize = 0;
        while i < max_channel
            invariant
                i <= max_channel,
                max_channel <= old(self).channels@.len(),
                dma_wf(*old(self)),
                self.channels@ == old(self).channels@,
                self.taken@ == old(self).taken@,
                self.es == old(self).es,
                self.wakers@.len() == old(self).wakers@.len(),
                woken@ == error_wakers(*old(self), i as int),
                forall|j: int| 0 <= j < i && chan(*old(self), j).err ==> self.wakers@[j] is None,
                forall|j: int|
                    0 <= j < i && !chan(*old(self), j).err ==> self.wakers@[j] == old(
                        self,
                    ).wakers@[j],
                forall|j: int|
                    i <= j < old(self).wakers@.len() ==> self.wakers@[j] == old(self).wakers@[j],
            decreases max_channel - i,
        {
            let c = self.channels[i];
            if c.err {
                let mut w: Option<W> = None;
                self.wakers.set_and_swap(i, &mut w);
                match w {
                    Some(wk) => woken.push(wk),
                    None => {},
                }
            }
            i = i + 1;
        }
        woken
    }
}

/// A transfer polled on a channel that is reset but not yet enabled arms the
/// channel and suspends: the poll enables the request line, registers the
/// waker, and returns Pending.
pub proof fn lemma_first_poll_arms<W>(
    pre: Dma<W>,
    post: Dma<W>,
    ch: int,
    waker: W,
    r: TransferPoll,
)
    requires
        0 <= ch < pre.channels.len(),
        pre.channels.len() == pre.wakers.len(),
        poll_rel(pre, post, ch, waker, r),
        !chan(pre, ch).erq,
        !chan(pre, ch).err,
        !chan(pre, ch).tcd.done,
    ensures
        r == TransferPoll::Pending,
        chan(post, ch).erq,
        post.wakers@[ch] == Some(waker),
{
}

/// Cancelling a transfer always leaves the channel disabled with both the
/// completion and the error flag clear and the waker slot empty, from any
/// point of the life-cycle.
pub proof fn lemma_cancel_quiesces<W>(pre: Dma<W>, post: Dma<W>, ch: int)
    requires
        0 <= ch < pre.channels.len(),
        pre.channels.len() == pre.wakers.len(),
        cancel_rel(pre, post, ch),
    ensures
        !chan(post, ch).erq,
        !chan(post, ch).tcd.done,
        !chan(post, ch).err,
        post.wakers@[ch] is None,
{
}

/// An interrupt dispatch on a channel with neither completion nor error
/// raised wakes nobody and leaves every waker slot as it was.
pub proof fn lemma_interrupt_without_event_wakes_nobody<W>(
    pre: Dma<W>,
    post: Dma<W>,
    ch: int,
    w: Option<W>,
)
    requires
        0 <= ch < pre.channels.len(),
        on_interrupt_rel(pre, post, ch, w),
        !chan(pre, ch).tcd.done,
        !chan(pre, ch).err,
    ensures
        w is None,
        post.wakers@ == pre.wakers@,
{
}

/// An interrupt dispatch on a completed channel wakes the registered waker
/// exactly once: the first dispatch hands the waker back and empties the
/// slot, and a second dispatch before re-registration hands back nothing.
pub proof fn lemma_interrupt_wakes_exactly_once<W>(
    d0: Dma<W>,
    d1: Dma<W>,
    d2: Dma<W>,
    ch: int,
    w1: Option<W>,
    w2: Option<W>,
)
    requires
        0 <= ch < d0.channels.len(),
        d0.channels.len() == d0.wakers.len(),
        on_interrupt_rel(d0, d1, ch, w1),
        on_interrupt_rel(d1, d2, ch, w2),
        chan(d0, ch).tcd.done,
        d0.wakers@[ch] is Some,
    ensures
        w1 == d0.wakers@[ch],
        d1.wakers@[ch] is None,
        w2 is None,
        d2.wakers@[ch] is None,
{
}

} // verus!
