//! Functional model of the two data virtqueues of one queue pair.
//!
//! Guest memory is out of scope, so a descriptor chain is carried as the plain
//! bytes it makes readable (TX) or as the capacity it makes writable (RX).
//! The used ring is the sequence of completions the device has published,
//! together with a wrapping 16-bit counter and the driver's `used_event`
//! notification hint.

use vstd::prelude::*;

verus! {

/// Length of the virtio-net header that precedes every frame on the wire
/// between driver and device.
pub const VIRTIO_NET_HDR_LEN: usize = 12;

/// One completion published to the used ring: the head index of the consumed
/// descriptor chain and the number of bytes the device wrote into it.
pub struct UsedElem {
    pub head: u16,
    pub len: u32,
}

/// A guest-posted receive chain: writable space of `capacity` bytes under
/// head index `head`.
pub struct RxChain {
    pub head: u16,
    pub capacity: usize,
}

/// A guest-posted transmit chain: the readable bytes (virtio-net header
/// followed by the frame) under head index `head`.
pub struct TxChain {
    pub head: u16,
    pub bytes: Vec<u8>,
}

/// The receive virtqueue: available chains in ring order, the used ring, and
/// the notification state.
pub struct RxQueue {
    pub avail: Vec<RxChain>,
    pub used: Vec<UsedElem>,
    pub used_idx: u16,
    pub used_event: u16,
    pub event_idx: bool,
}

/// The transmit virtqueue.
pub struct TxQueue {
    pub avail: Vec<TxChain>,
    pub used: Vec<UsedElem>,
    pub used_idx: u16,
    pub used_event: u16,
    pub event_idx: bool,
}

/// `(a - b) mod 2^16` as a 16-bit value.
pub open spec fn wsub16(a: u16, b: u16) -> u16 {
    (((a as int) - (b as int)) % 0x10000) as u16
}

/// `(a + b) mod 2^16` as a 16-bit value.
pub open spec fn wadd16(a: u16, b: u16) -> u16 {
    (((a as int) + (b as int)) % 0x10000) as u16
}

/// Subtracts modulo 2^16.
pub fn wrapping_sub_u16(a: u16, b: u16) -> (r: u16)
    ensures
        r == wsub16(a, b),
{
    if a >= b {
        a - b
    } else {
        let r: u32 = 0x10000u32 + (a as u32) - (b as u32);
        r as u16
    }
}

/// Adds modulo 2^16.
pub fn wrapping_add_u16(a: u16, b: u16) -> (r: u16)
    ensures
        r == wadd16(a, b),
{
    let r: u32 = (a as u32) + (b as u32);
    if r >= 0x10000u32 {
        (r - 0x10000u32) as u16
    } else {
        r as u16
    }
}

/// `(a + b) mod 2^64` as a 64-bit value, for the wrap-aware traffic counters.
pub open spec fn wadd64(a: u64, b: u64) -> u64 {
    (((a as int) + (b as int)) % 0x1_0000_0000_0000_0000) as u64
}

/// Adds modulo 2^64.
pub fn wrapping_add_u64(a: u64, b: u64) -> (r: u64)
    ensures
        r == wadd64(a, b),
{
    if b <= u64::MAX - a {
        a + b
    } else {
        b - (u64::MAX - a) - 1
    }
}

/// The event-index rule of the virtio ring: with the used counter moving from
/// `old_idx` to `new_idx`, the driver asked to be notified iff its hint
/// `event` lies in the half-open wrap-around interval `[old_idx, new_idx)`.
pub open spec fn vring_need_event(event: u16, new_idx: u16, old_idx: u16) -> bool {
    wsub16(wsub16(new_idx, event), 1) < wsub16(new_idx, old_idx)
}

/// Evaluates the event-index rule.
pub fn need_event(event: u16, new_idx: u16, old_idx: u16) -> (r: bool)
    ensures
        r == vring_need_event(event, new_idx, old_idx),
{
    wrapping_sub_u16(wrapping_sub_u16(new_idx, event), 1) < wrapping_sub_u16(new_idx, old_idx)
}

/// Whether a batch that moved the used counter from `old_idx` to `new_idx`
/// and added at least one entry (`any_used`) warrants an interrupt: always
/// when the event index feature is off, by the driver's hint when it is on.
pub open spec fn batch_wants_interrupt(
    event_idx: bool,
    used_event: u16,
    new_idx: u16,
    old_idx: u16,
    any_used: bool,
) -> bool {
    if event_idx {
        any_used && vring_need_event(used_event, new_idx, old_idx)
    } else {
        any_used
    }
}

impl RxQueue {
    /// Reports whether the guest has posted any receive descriptor.
    pub fn has_available_descriptors(&self) -> (r: bool)
        ensures
            r == (self.avail@.len() > 0),
    {
        self.avail.len() > 0
    }
}

} // verus!
