//! The controller's side of the register interface.
//!
//! The driver modules program descriptors; this module models what the
//! hardware does with them. [`service`] performs one service request — one
//! minor loop — against a [`Memory`] value that stands for the bus-visible
//! address space: it either moves the described bytes and updates the
//! descriptor's addresses and counters, or flags the descriptor as
//! unexecutable in the channel's error flag and the global error status.
//!
//! Driving [`service`] in a test or a simulation is how a transfer reaches
//! completion; on real hardware the controller performs the same steps
//! autonomously.

use vstd::prelude::*;

use vstd::arithmetic::power2::{lemma2_to64, lemma_pow2_adds, lemma_pow2_pos, pow2};
use vstd::wrapping::u32_specs;

use crate::channel::{chan, only_channel_changed, ChannelState, Tcd};
use crate::element::ElementSize;
use crate::error::{ES_DAE, ES_DBE, ES_DOE, ES_NCE, ES_SAE, ES_SBE, ES_SOE, ES_VLD};
use crate::{dma_wf, Dma};

verus! {

/// Model memory: the flat byte-addressed space the controller reads and
/// writes. Byte `i` of `bytes` lives at bus address `i`.
pub struct Memory {
    /// The bytes of the address space.
    pub bytes: Vec<u8>,
}

impl Memory {
    /// A zero-filled address space of `len` bytes.
    pub fn new(len: usize) -> (r: Memory)
        ensures
            r.bytes@.len() == len,
            forall|i: int| 0 <= i < len ==> r.bytes@[i] == 0u8,
    {
        let bytes = vec![0u8; len];
        Memory { bytes }
    }

    /// The byte at `address`.
    pub fn read_byte(&self, address: u32) -> (r: u8)
        requires
            address < self.bytes@.len(),
        ensures
            r == self.bytes@[address as int],
    {
        self.bytes[address as usize]
    }

    /// Store `value` at `address`.
    pub fn write_byte(&mut self, address: u32, value: u8)
        requires
            address < old(self).bytes@.len(),
        ensures
            final(self).bytes@ == old(self).bytes@.update(address as int, value),
    {
        self.bytes[address as usize] = value;
    }

    /// Read one little-endian element of width `size` at `address`.
    pub fn read_element(&self, address: u32, size: ElementSize) -> (r: u32)
        requires
            address + size.bytes_spec() <= self.bytes@.len(),
            self.bytes@.len() <= usize::MAX,
        ensures
            r == load_le(self.bytes@, address as int, size),
    {
        let a = address as usize;
        match size {
            ElementSize::One => self.bytes[a] as u32,
            ElementSize::Two => self.bytes[a] as u32 + 256 * (self.bytes[a + 1] as u32),
            ElementSize::Four => {
                let b0 = self.bytes[a] as u32;
                let b1 = self.bytes[a + 1] as u32;
                let b2 = self.bytes[a + 2] as u32;
                let b3 = self.bytes[a + 3] as u32;
                b0 + 256 * b1 + 65536 * b2 + 16777216 * b3
            },
        }
    }

    /// Store `value` as one little-endian element of width `size` at
    /// `address`. Bits of `value` beyond the element width are dropped.
    pub fn write_element(&mut self, address: u32, size: ElementSize, value: u32)
        requires
            address + size.bytes_spec() <= old(self).bytes@.len(),
            old(self).bytes@.len() <= usize::MAX,
        ensures
            final(self).bytes@ == store_le(old(self).bytes@, address as int, size, value),
    {
        let a = address as usize;
        match size {
            ElementSize::One => {
                self.bytes[a] = (value % 256) as u8;
            },
            ElementSize::Two => {
                self.bytes[a] = (value % 256) as u8;
                self.bytes[a + 1] = ((value / 256) % 256) as u8;
            },
            ElementSize::Four => {
                self.bytes[a] = (value % 256) as u8;
                self.bytes[a + 1] = ((value / 256) % 256) as u8;
                self.bytes[a + 2] = ((value / 65536) % 256) as u8;
                self.bytes[a + 3] = (value / 16777216) as u8;
            },
        }
    }
}

/// The little-endian value of the element of width `size` at `address`.
pub open spec fn load_le(mem: Seq<u8>, address: int, size: ElementSize) -> u32 {
    match size {
        ElementSize::One => mem[address] as u32,
        ElementSize::Two => (mem[address] + 256 * mem[address + 1]) as u32,
        ElementSize::Four => (mem[address] + 256 * mem[address + 1] + 65536 * mem[address + 2]
            + 16777216 * mem[address + 3]) as u32,
    }
}

/// `mem` with `value` stored little-endian as one element of width `size` at
/// `address`.
pub open spec fn store_le(mem: Seq<u8>, address: int, size: ElementSize, value: u32) -> Seq<u8> {
    match size {
        ElementSize::One => mem.update(address, (value % 256) as u8),
        ElementSize::Two => mem.update(address, (value % 256) as u8).update(
            address + 1,
            ((value / 256) % 256) as u8,
        ),
        ElementSize::Four => mem.update(address, (value % 256) as u8).update(
            address + 1,
            ((value / 256) % 256) as u8,
        ).update(address + 2, ((value / 65536) % 256) as u8).update(
            address + 3,
            (value / 16777216) as u8,
        ),
    }
}

/// Drive a channel's hardware-request line, modeling a peripheral asserting
/// or deasserting its service request.
pub fn set_hardware_request<W>(hw: &mut Dma<W>, ch: usize, on: bool)
    requires
        ch < old(hw).channels.len(),
    ensures
        only_channel_changed(
            *old(hw),
            *final(hw),
            ch as int,
            ChannelState { hrs: on, ..chan(*old(hw), ch as int) },
        ),
{
    let mut c = hw.channels[ch];
    c.hrs = on;
    hw.channels[ch] = c;
}

/// `pow2(exponent)` as a machine word.
fn pow2_u64(exponent: u8) -> (r: u64)
    requires
        exponent <= 32,
    ensures
        r == pow2(exponent as nat),
{
    proof {
        lemma2_to64();
    }
    let mut r: u64 = 1;
    let mut i: u8 = 0;
    while i < exponent
        invariant
            i <= exponent <= 32,
            r == pow2(i as nat),
        decreases exponent - i,
    {
        proof {
            lemma_pow2_adds(i as nat, 1);
            lemma2_to64();
        }
        r = r * 2;
        i = i + 1;
    }
    r
}

/// The block containing `address` ends at or before the end of the address
/// space, because power-of-two blocks tile it exactly.
proof fn lemma_block_fits(address: u32, m: nat)
    requires
        1 <= m <= 32,
    ensures
        address as int - (address as int) % (pow2(m) as int) + pow2(m) <= 0x1_0000_0000,
{
    let b = pow2(m) as int;
    lemma_pow2_pos(m);
    lemma_pow2_adds(m, (32 - m) as nat);
    lemma2_to64();
    let rest = pow2((32 - m) as nat) as int;
    assert(b * rest == 0x1_0000_0000);
    let q = address as int / b;
    vstd::arithmetic::div_mod::lemma_fundamental_div_mod(address as int, b);
    assert(address as int == b * q + (address as int) % b);
    assert(0 <= (address as int) % b < b) by {
        vstd::arithmetic::div_mod::lemma_mod_bound(address as int, b);
    }
    assert(q < rest) by (nonlinear_arith)
        requires
            b * q + (address as int) % b < b * rest,
            0 <= (address as int) % b,
            b > 0,
    ;
    assert(b * q + b <= b * rest) by (nonlinear_arith)
        requires
            q < rest,
            b > 0,
    ;
}

/// The address after one stride: the signed offset is added with wrap-around,
/// and with a nonzero modulo the address stays inside its 2^modulo-byte
/// block, which models the hardware's circular addressing.
pub open spec fn advance_spec(address: u32, offset: i16, modulo: u8) -> u32 {
    let next = u32_specs::wrapping_add_signed(address, offset as i32);
    if modulo == 0 {
        next
    } else {
        let block = pow2(modulo as nat) as int;
        (address as int - (address as int) % block + (next as int) % block) as u32
    }
}

/// The address after one stride; see [`advance_spec`].
pub fn advance(address: u32, offset: i16, modulo: u8) -> (r: u32)
    requires
        modulo <= 32,
    ensures
        r == advance_spec(address, offset, modulo),
{
    let next = address.wrapping_add_signed(offset as i32);
    if modulo == 0 {
        next
    } else {
        let block = pow2_u64(modulo);
        proof {
            lemma_pow2_pos(modulo as nat);
            lemma_block_fits(address, modulo as nat);
            vstd::arithmetic::div_mod::lemma_mod_decreases(address as nat, pow2(modulo as nat));
        }
        let base = (address as u64) - ((address as u64) % block);
        let r64 = base + ((next as u64) % block);
        r64 as u32
    }
}

/// The address of element `i` of a minor loop that starts at `base`.
pub open spec fn addr_at(base: u32, offset: i16, modulo: u8, i: nat) -> u32
    decreases i,
{
    if i == 0 {
        base
    } else {
        advance_spec(addr_at(base, offset, modulo, (i - 1) as nat), offset, modulo)
    }
}

/// `mem` after one element is moved: `size` bytes read at `s` and written at
/// `d`. The element is read in full before it is written, so the bytes
/// written are the bytes `mem` held at `s`.
pub open spec fn copy_elem(mem: Seq<u8>, s: int, d: int, size: nat) -> Seq<u8>
    decreases size,
{
    if size == 0 {
        mem
    } else {
        copy_elem(mem, s, d, (size - 1) as nat).update(d + size - 1, mem[s + size - 1])
    }
}

/// Moving an element preserves the length of the memory.
pub proof fn lemma_copy_elem_len(mem: Seq<u8>, s: int, d: int, size: nat)
    requires
        0 <= d,
        d + size <= mem.len(),
    ensures
        copy_elem(mem, s, d, size).len() == mem.len(),
    decreases size,
{
    if size > 0 {
        lemma_copy_elem_len(mem, s, d, (size - 1) as nat);
    }
}

/// What moving one element does byte for byte: the destination bytes take
/// the source bytes' values, and every other byte keeps its value.
pub proof fn lemma_copy_elem_bytes(mem: Seq<u8>, s: int, d: int, size: nat)
    requires
        0 <= s,
        s + size <= mem.len(),
        0 <= d,
        d + size <= mem.len(),
    ensures
        copy_elem(mem, s, d, size).len() == mem.len(),
        forall|j: int| 0 <= j < size ==> copy_elem(mem, s, d, size)[d + j] == mem[#[trigger] (s + j)],
        forall|a: int|
            0 <= a < mem.len() && !(d <= a < d + size) ==> #[trigger] copy_elem(mem, s, d, size)[a]
                == mem[a],
    decreases size,
{
    lemma_copy_elem_len(mem, s, d, size);
    if size > 0 {
        lemma_copy_elem_bytes(mem, s, d, (size - 1) as nat);
    }
}

/// `mem` after the first `k` element moves of channel descriptor `t`'s minor
/// loop.
pub open spec fn minor_loop_mem(mem: Seq<u8>, t: Tcd, k: nat) -> Seq<u8>
    decreases k,
{
    if k == 0 {
        mem
    } else {
        copy_elem(
            minor_loop_mem(mem, t, (k - 1) as nat),
            addr_at(t.saddr, t.soff, t.smod, (k - 1) as nat) as int,
            addr_at(t.daddr, t.doff, t.dmod, (k - 1) as nat) as int,
            t.ssize.bytes_spec(),
        )
    }
}

/// A minor loop preserves the length of the memory.
pub proof fn lemma_minor_loop_mem_len(mem: Seq<u8>, t: Tcd, k: nat)
    requires
        span_ok(t.daddr, t.doff, t.dmod, t.ssize.bytes_spec(), k, mem.len()),
    ensures
        minor_loop_mem(mem, t, k).len() == mem.len(),
    decreases k,
{
    if k > 0 {
        lemma_minor_loop_mem_len(mem, t, (k - 1) as nat);
        lemma_copy_elem_len(
            minor_loop_mem(mem, t, (k - 1) as nat),
            addr_at(t.saddr, t.soff, t.smod, (k - 1) as nat) as int,
            addr_at(t.daddr, t.doff, t.dmod, (k - 1) as nat) as int,
            t.ssize.bytes_spec(),
        );
    }
}

/// The number of elements one minor loop moves.
pub open spec fn elems_per_minor(t: Tcd) -> nat {
    (t.nbytes as nat) / t.ssize.bytes_spec()
}

/// Every element of a minor loop of `count` elements of `size` bytes lies
/// inside an address space of `len` bytes.
pub open spec fn span_ok(
    base: u32,
    offset: i16,
    modulo: u8,
    size: nat,
    count: nat,
    len: nat,
) -> bool {
    forall|i: nat| i < count ==> #[trigger] addr_at(base, offset, modulo, i) + size <= len
}

/// Whether the signed stride is a multiple of the element width.
pub open spec fn offset_aligned(offset: i16, size: ElementSize) -> bool {
    offset as int % (size.bytes_spec() as int) == 0
}

/// The error-status cause bit the controller records for a descriptor it
/// cannot execute against an address space of `len` bytes, if any.
///
/// The checks run in a fixed order. A usable descriptor has equal source and
/// destination element widths, a nonzero minor-loop byte count that is a
/// multiple of the element width, a live iteration count, addresses and
/// strides aligned to the element width, block sizes a 32-bit address space
/// can hold, and every element of the minor loop inside the address space.
pub open spec fn service_fault(t: Tcd, len: nat) -> Option<u32> {
    let size = t.ssize.bytes_spec();
    if t.citer == 0 || t.ssize != t.dsize || t.nbytes == 0 || t.nbytes as int % (size as int) != 0
        || t.smod > 32 || t.dmod > 32 {
        Some(ES_NCE)
    } else if t.saddr as int % (size as int) != 0 {
        Some(ES_SAE)
    } else if !offset_aligned(t.soff, t.ssize) {
        Some(ES_SOE)
    } else if t.daddr as int % (size as int) != 0 {
        Some(ES_DAE)
    } else if !offset_aligned(t.doff, t.dsize) {
        Some(ES_DOE)
    } else if !span_ok(t.saddr, t.soff, t.smod, size, elems_per_minor(t), len) {
        Some(ES_SBE)
    } else if !span_ok(t.daddr, t.doff, t.dmod, size, elems_per_minor(t), len) {
        Some(ES_DBE)
    } else {
        None
    }
}

/// The global error status word recorded when channel `ch` faults with
/// `cause`: the valid bit, the faulting channel number, and the cause bit.
pub open spec fn fault_status(ch: int, cause: u32) -> u32 {
    ES_VLD | ((ch as u32) << 8) | cause
}

/// A recorded fault status decodes back into its parts: the valid bit is
/// set, the channel field names the faulting channel, and the cause bit is
/// set — so the [`Error`](crate::error::Error) accessors report the fault
/// faithfully.
pub proof fn lemma_fault_status_decodes(ch: int, cause: u32)
    requires
        0 <= ch < 32,
        cause <= 0xFF,
    ensures
        (fault_status(ch, cause) >> 31) & 1 == 1,
        (fault_status(ch, cause) >> 8) & 0x1F == ch,
        fault_status(ch, cause) & cause == cause,
{
    let c = ch as u32;
    assert(((0x8000_0000u32 | (c << 8) | cause) >> 31) & 1 == 1) by (bit_vector)
        requires
            c < 32,
            cause <= 0xFF,
    ;
    assert(((0x8000_0000u32 | (c << 8) | cause) >> 8) & 0x1F == c) by (bit_vector)
        requires
            c < 32,
            cause <= 0xFF,
    ;
    assert((0x8000_0000u32 | (c << 8) | cause) & cause == cause) by (bit_vector);
}

/// What one service request — one minor loop — does to the controller state
/// and the address space.
///
/// A channel with neither its request line enabled nor its start flag raised
/// is not serviced. A serviced channel with an unexecutable descriptor
/// raises its error flag and records the cause in the global error status,
/// and the address space is untouched. Otherwise the controller moves the
/// minor loop's bytes, advances the descriptor's addresses, counts the major
/// loop down, and at major-loop completion reloads the iteration count,
/// applies the last-address adjustments, raises the completion flag, and
/// honours the disable-on-completion and interrupt-on-completion requests.
pub open spec fn service_rel<W>(
    pre: Dma<W>,
    premem: Seq<u8>,
    post: Dma<W>,
    postmem: Seq<u8>,
    ch: int,
) -> bool {
    let c0 = chan(pre, ch);
    let t = c0.tcd;
    &&& post.wakers@ == pre.wakers@
    &&& post.taken@ == pre.taken@
    &&& if !c0.erq && !t.start {
        &&& post.channels@ == pre.channels@
        &&& post.es == pre.es
        &&& postmem == premem
    } else if service_fault(t, premem.len()) is Some {
        &&& post.channels@ == pre.channels@.update(
            ch,
            ChannelState { err: true, tcd: Tcd { start: false, ..t }, ..c0 },
        )
        &&& post.es == fault_status(ch, service_fault(t, premem.len())->0)
        &&& postmem == premem
    } else {
        let k = elems_per_minor(t);
        let s1 = addr_at(t.saddr, t.soff, t.smod, k);
        let d1 = addr_at(t.daddr, t.doff, t.dmod, k);
        let major_done = t.citer == 1;
        &&& postmem == minor_loop_mem(premem, t, k)
        &&& post.es == pre.es
        &&& post.channels@ == pre.channels@.update(
            ch,
            ChannelState {
                tcd: Tcd {
                    saddr: if major_done {
                        u32_specs::wrapping_add_signed(s1, t.slast)
                    } else {
                        s1
                    },
                    daddr: if major_done {
                        u32_specs::wrapping_add_signed(d1, t.dlast)
                    } else {
                        d1
                    },
                    citer: if major_done {
                        t.biter
                    } else {
                        (t.citer - 1) as u16
                    },
                    done: major_done || t.done,
                    start: false,
                    ..t
                },
                erq: if major_done && t.dreq {
                    false
                } else {
                    c0.erq
                },
                int: if major_done && t.intmajor {
                    true
                } else {
                    c0.int
                },
                ..c0
            },
        )
    }
}

/// Check that every element of a minor loop lies inside the address space.
fn span_check(base: u32, offset: i16, modulo: u8, size: u32, count: u32, len: usize) -> (r: bool)
    requires
        modulo <= 32,
    ensures
        r == span_ok(base, offset, modulo, size as nat, count as nat, len as nat),
{
    let mut a = base;
    let mut i: u32 = 0;
    while i < count
        invariant
            modulo <= 32,
            i <= count,
            a == addr_at(base, offset, modulo, i as nat),
            forall|j: nat| j < i ==> #[trigger] addr_at(base, offset, modulo, j) + size <= len,
        decreases count - i,
    {
        if (a as u64) + (size as u64) > (len as u64) {
            return false;
        }
        a = advance(a, offset, modulo);
        i = i + 1;
    }
    true
}

/// Move one element of `size` bytes from `s` to `d`.
fn copy_element(mem: &mut Memory, s: u32, d: u32, size: ElementSize)
    requires
        s + size.bytes_spec() <= old(mem).bytes@.len(),
        d + size.bytes_spec() <= old(mem).bytes@.len(),
        old(mem).bytes@.len() <= usize::MAX,
    ensures
        final(mem).bytes@ == copy_elem(old(mem).bytes@, s as int, d as int, size.bytes_spec()),
{
    proof {
        reveal_with_fuel(copy_elem, 5);
    }
    let si = s as usize;
    let di = d as usize;
    match size {
        ElementSize::One => {
            let b0 = byte_at(mem, si);
            set_byte(mem, di, b0);
        },
        ElementSize::Two => {
            let b0 = byte_at(mem, si);
            let b1 = byte_at(mem, si + 1);
            set_byte(mem, di, b0);
            set_byte(mem, di + 1, b1);
        },
        ElementSize::Four => {
            let b0 = byte_at(mem, si);
            let b1 = byte_at(mem, si + 1);
            let b2 = byte_at(mem, si + 2);
            let b3 = byte_at(mem, si + 3);
            set_byte(mem, di, b0);
            set_byte(mem, di + 1, b1);
            set_byte(mem, di + 2, b2);
            set_byte(mem, di + 3, b3);
        },
    }
}

/// The byte at index `i`.
fn byte_at(mem: &Memory, i: usize) -> (r: u8)
    requires
        i < mem.bytes@.len(),
    ensures
        r == mem.bytes@[i as int],
{
    mem.bytes[i]
}

/// Store `value` at index `i`.
fn set_byte(mem: &mut Memory, i: usize, value: u8)
    requires
        i < old(mem).bytes@.len(),
    ensures
        final(mem).bytes@ == old(mem).bytes@.update(i as int, value),
{
    mem.bytes[i] = value;
}

/// Run the whole minor loop of descriptor `t`: move every element and return
/// the advanced source and destination addresses.
fn execute_minor_loop(mem: &mut Memory, t: Tcd) -> (r: (u32, u32))
    requires
        t.smod <= 32,
        t.dmod <= 32,
        t.ssize == t.dsize,
        t.nbytes as int % (t.ssize.bytes_spec() as int) == 0,
        span_ok(
            t.saddr,
            t.soff,
            t.smod,
            t.ssize.bytes_spec(),
            elems_per_minor(t),
            old(mem).bytes@.len() as nat,
        ),
        span_ok(
            t.daddr,
            t.doff,
            t.dmod,
            t.ssize.bytes_spec(),
            elems_per_minor(t),
            old(mem).bytes@.len() as nat,
        ),
        old(mem).bytes@.len() <= usize::MAX,
    ensures
        final(mem).bytes@ == minor_loop_mem(old(mem).bytes@, t, elems_per_minor(t)),
        r.0 == addr_at(t.saddr, t.soff, t.smod, elems_per_minor(t)),
        r.1 == addr_at(t.daddr, t.doff, t.dmod, elems_per_minor(t)),
{
    let size = t.ssize.bytes();
    let count = t.nbytes / size;
    proof {
        assert(count as nat == elems_per_minor(t));
    }
    let mut s = t.saddr;
    let mut d = t.daddr;
    let mut i: u32 = 0;
    while i < count
        invariant
            i <= count,
            count as nat == elems_per_minor(t),
            size == t.ssize.bytes_spec(),
            t.smod <= 32,
            t.dmod <= 32,
            t.ssize == t.dsize,
            s == addr_at(t.saddr, t.soff, t.smod, i as nat),
            d == addr_at(t.daddr, t.doff, t.dmod, i as nat),
            mem.bytes@ == minor_loop_mem(old(mem).bytes@, t, i as nat),
            mem.bytes@.len() == old(mem).bytes@.len(),
            old(mem).bytes@.len() <= usize::MAX,
            span_ok(
                t.saddr,
                t.soff,
                t.smod,
                t.ssize.bytes_spec(),
                elems_per_minor(t),
                old(mem).bytes@.len() as nat,
            ),
            span_ok(
                t.daddr,
                t.doff,
                t.dmod,
                t.ssize.bytes_spec(),
                elems_per_minor(t),
                old(mem).bytes@.len() as nat,
            ),
        decreases count - i,
    {
        proof {
            assert(addr_at(t.saddr, t.soff, t.smod, i as nat) + size <= mem.bytes@.len());
            assert(addr_at(t.daddr, t.doff, t.dmod, i as nat) + size <= mem.bytes@.len());
        }
        copy_element(mem, s, d, t.ssize);
        proof {
            lemma_copy_elem_len(
                minor_loop_mem(old(mem).bytes@, t, i as nat),
                s as int,
                d as int,
                t.ssize.bytes_spec(),
            );
        }
        s = advance(s, t.soff, t.smod);
        d = advance(d, t.doff, t.dmod);
        i = i + 1;
    }
    (s, d)
}

/// Service channel `ch` once; see [`service_rel`] for the exact effect.
pub fn service<W>(hw: &mut Dma<W>, mem: &mut Memory, ch: usize)
    requires
        dma_wf(*old(hw)),
        ch < old(hw).channels.len(),
    ensures
        dma_wf(*final(hw)),
        service_rel(*old(hw), old(mem).bytes@, *final(hw), final(mem).bytes@, ch as int),
{
    let c0 = hw.channels[ch];
    let t = c0.tcd;
    if !c0.erq && !t.start {
        return ;
    }
    let size = t.ssize.bytes();
    let len = mem.bytes.len();

    let mut fault: Option<u32> = None;
    if t.citer == 0 || t.ssize != t.dsize || t.nbytes == 0 || t.nbytes % size != 0
        || t.smod > 32 || t.dmod > 32 {
        fault = Some(ES_NCE);
    } else if t.saddr % size != 0 {
        fault = Some(ES_SAE);
    } else if !offset_aligned_check(t.soff, t.ssize) {
        fault = Some(ES_SOE);
    } else if t.daddr % size != 0 {
        fault = Some(ES_DAE);
    } else if !offset_aligned_check(t.doff, t.dsize) {
        fault = Some(ES_DOE);
    } else if !span_check(t.saddr, t.soff, t.smod, size, t.nbytes / size, len) {
        fault = Some(ES_SBE);
    } else if !span_check(t.daddr, t.doff, t.dmod, size, t.nbytes / size, len) {
        fault = Some(ES_DBE);
    }
    proof {
        assert(fault == service_fault(t, old(mem).bytes@.len() as nat));
    }

    match fault {
        Some(cause) => {
            let mut c = c0;
            c.err = true;
            c.tcd.start = false;
            hw.channels[ch] = c;
            hw.es = ES_VLD | ((ch as u32) << 8) | cause;
        },
        None => {
            let (s1, d1) = execute_minor_loop(mem, t);
            let major_done = t.citer == 1;
            let mut c = c0;
            c.tcd.start = false;
            if major_done {
                c.tcd.saddr = s1.wrapping_add_signed(t.slast);
                c.tcd.daddr = d1.wrapping_add_signed(t.dlast);
                c.tcd.citer = t.biter;
                c.tcd.done = true;
                if t.dreq {
                    c.erq = false;
                }
                if t.intmajor {
                    c.int = true;
                }
            } else {
                c.tcd.saddr = s1;
                c.tcd.daddr = d1;
                c.tcd.citer = t.citer - 1;
            }
            hw.channels[ch] = c;
        },
    }
}

/// With no circular wrapping and a stride that stays below the top of the
/// address space, the element addresses of a minor loop are linear:
/// element `i` lives at `base + i * offset`.
pub proof fn lemma_addr_at_linear(base: u32, offset: i16, k: nat)
    requires
        offset >= 0,
        base + k * offset <= u32::MAX,
    ensures
        forall|i: nat| i <= k ==> #[trigger] addr_at(base, offset, 0, i) == base + i * offset,
    decreases k,
{
    if k > 0 {
        assert((k - 1) * offset <= k * offset && k * offset == (k - 1) * offset + offset)
            by (nonlinear_arith)
            requires
                offset >= 0,
                k >= 1,
        ;
        lemma_addr_at_linear(base, offset, (k - 1) as nat);
        assert(addr_at(base, offset, 0, k) == advance_spec(
            addr_at(base, offset, 0, (k - 1) as nat),
            offset,
            0,
        ));
        assert(addr_at(base, offset, 0, k) == base + k * offset);
    }
}

/// A minor loop with linear one-element strides over two disjoint regions is
/// a straight copy: the destination region takes the source region's bytes,
/// and every byte outside the destination region keeps its value.
pub proof fn lemma_minor_loop_linear_copy(mem: Seq<u8>, t: Tcd, k: nat)
    requires
        t.smod == 0,
        t.dmod == 0,
        t.soff == t.ssize.bytes_spec() as i16,
        t.doff == t.ssize.bytes_spec() as i16,
        t.saddr + k * t.ssize.bytes_spec() <= mem.len(),
        t.daddr + k * t.ssize.bytes_spec() <= mem.len(),
        mem.len() <= 0xFFFF_FFFF,
        t.saddr + k * t.ssize.bytes_spec() <= t.daddr || t.daddr + k * t.ssize.bytes_spec()
            <= t.saddr,
    ensures
        minor_loop_mem(mem, t, k).len() == mem.len(),
        forall|j: int|
            0 <= j < k * t.ssize.bytes_spec() ==> #[trigger] minor_loop_mem(mem, t, k)[t.daddr + j]
                == mem[t.saddr + j],
        forall|a: int|
            0 <= a < mem.len() && !(t.daddr <= a < t.daddr + k * t.ssize.bytes_spec())
                ==> #[trigger] minor_loop_mem(mem, t, k)[a] == mem[a],
    decreases k,
{
    let size = t.ssize.bytes_spec();
    if k > 0 {
        assert((k - 1) * size <= k * size && k * size == (k - 1) * size + size)
            by (nonlinear_arith)
            requires
                size >= 0,
                k >= 1,
        ;
        lemma_minor_loop_linear_copy(mem, t, (k - 1) as nat);
        let m1 = minor_loop_mem(mem, t, (k - 1) as nat);
        let res = minor_loop_mem(mem, t, k);
        lemma_addr_at_linear(t.saddr, t.soff, k);
        lemma_addr_at_linear(t.daddr, t.doff, k);
        let s0 = t.saddr + (k - 1) * size;
        let d0 = t.daddr + (k - 1) * size;
        assert(res == copy_elem(m1, s0, d0, size));
        lemma_copy_elem_bytes(m1, s0, d0, size);
        assert forall|j: int| 0 <= j < k * size implies #[trigger] res[t.daddr + j] == mem[t.saddr
            + j] by {
            if j < (k - 1) * size {
                assert(res[t.daddr + j] == m1[t.daddr + j]);
                assert(m1[t.daddr + j] == mem[t.saddr + j]);
            } else {
                let jj = j - (k - 1) * size;
                assert(res[d0 + jj] == m1[s0 + jj]);
                assert(m1[s0 + jj] == mem[s0 + jj]);
                assert(t.daddr + j == d0 + jj);
                assert(t.saddr + j == s0 + jj);
            }
        }
        assert forall|a: int|
            0 <= a < mem.len() && !(t.daddr <= a < t.daddr + k * size) implies res[a] == mem[a] by {
            assert(res[a] == m1[a]);
            assert(m1[a] == mem[a]);
        }
    }
}

/// Whether the signed stride is a multiple of the element width; see
/// [`offset_aligned`].
fn offset_aligned_check(offset: i16, size: ElementSize) -> (r: bool)
    ensures
        r == offset_aligned(offset, size),
{
    match size {
        ElementSize::One => true,
        ElementSize::Two => offset % 2 == 0,
        ElementSize::Four => offset % 4 == 0,
    }
}

} // verus!
