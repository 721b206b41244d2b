//! One RX/TX queue pair: the worker-local state around a TAP device and the
//! two transfer rounds, `process_rx` and `process_tx`.
//!
//! A transfer round consumes a prefix of the work available to it and stops
//! for one of a fixed set of reasons: the ring is drained, the TAP reports
//! `EAGAIN`, the rate limiter runs out of tokens, or a malformed descriptor
//! chain is found. The contracts pin down the prefix, the used-ring entries,
//! the bytes moved, the counter arithmetic and the stop reason.

use vstd::prelude::*;

use crate::rate_limiter::{consumption_allowed, limiter_blocked, RateLimiter, TokenBucket};
use crate::tap::TapDevice;
use crate::virtqueue::{wadd16, wadd64, RxQueue, TxChain, TxQueue, UsedElem, VIRTIO_NET_HDR_LEN};

verus! {

/// Wrap-aware traffic counters of one queue pair.
pub struct NetCounters {
    pub rx_bytes: u64,
    pub rx_frames: u64,
    pub tx_bytes: u64,
    pub tx_frames: u64,
}

impl NetCounters {
    /// Counters of a freshly constructed device: all zero.
    pub fn zeroed() -> (r: NetCounters)
        ensures
            r == (NetCounters { rx_bytes: 0, rx_frames: 0, tx_bytes: 0, tx_frames: 0 }),
    {
        NetCounters { rx_bytes: 0, rx_frames: 0, tx_bytes: 0, tx_frames: 0 }
    }
}

/// A failure of a transfer round; the worker that sees one terminates while
/// the device stays alive.
pub enum NetQueuePairError {
    /// A guest descriptor chain is too short for the data it must carry.
    DescriptorChainTooShort,
}

/// Worker-local state of one queue pair.
pub struct NetQueuePair {
    pub tap: TapDevice,
    /// True iff the TAP descriptor is armed in the worker's epoll set.
    pub rx_tap_listening: bool,
    /// True iff the guest has kicked RX since the queue was last found empty.
    pub rx_desc_avail: bool,
    pub counters: NetCounters,
    pub rx_rate_limiter: Option<RateLimiter>,
    pub tx_rate_limiter: Option<RateLimiter>,
}

/// `x mod 2^64` as a 64-bit value.
pub open spec fn wrap64(x: int) -> u64 {
    (x % 0x1_0000_0000_0000_0000) as u64
}

/// `x mod 2^16` as a 16-bit value.
pub open spec fn wrap16(x: int) -> u16 {
    (x % 0x10000) as u16
}

/// Total payload bytes of the first `k` TX chains (header excluded).
pub open spec fn tx_payload_total(avail: Seq<TxChain>, k: int) -> int
    decreases k,
{
    if k <= 0 {
        0
    } else {
        tx_payload_total(avail, k - 1) + avail[k - 1].bytes@.len() - VIRTIO_NET_HDR_LEN
    }
}

/// The used-ring entries a TX round publishes for the first `k` chains: the
/// chain heads in order, each with a written length of zero.
pub open spec fn tx_used_entries(avail: Seq<TxChain>, k: int) -> Seq<UsedElem> {
    Seq::new(k as nat, |i: int| UsedElem { head: avail[i].head, len: 0 })
}

/// A bucket after yielding `amount` tokens (mathematical count).
pub open spec fn debit_int(b: Option<TokenBucket>, amount: int) -> Option<TokenBucket> {
    match b {
        Some(bucket) => Some(
            TokenBucket { tokens: (bucket.tokens - amount) as u64, capacity: bucket.capacity },
        ),
        None => None,
    }
}

/// What every TX round guarantees, whatever stopped it: a prefix of `k`
/// chains left the ring in order, their heads were published to the used
/// ring, their payloads were written to the TAP in order, the counters
/// advanced with wrap-around, the limiter was debited exactly for them, and
/// nothing else of the pair changed.
pub open spec fn process_tx_common(
    pre: NetQueuePair,
    post: NetQueuePair,
    qpre: TxQueue,
    qpost: TxQueue,
) -> bool {
    let k = qpre.avail@.len() - qpost.avail@.len();
    let total = tx_payload_total(qpre.avail@, k);
    &&& 0 <= k <= qpre.avail@.len()
    &&& qpost.avail@ == qpre.avail@.skip(k)
    &&& qpost.used@ == qpre.used@ + tx_used_entries(qpre.avail@, k)
    &&& qpost.used_idx == wrap16(qpre.used_idx + k)
    &&& qpost.used_event == qpre.used_event
    &&& qpost.event_idx == qpre.event_idx
    &&& (forall|i: int| 0 <= i < k ==> qpre.avail@[i].bytes@.len() >= VIRTIO_NET_HDR_LEN)
    &&& post.tap.fd == pre.tap.fd
    &&& post.tap.offload_flags == pre.tap.offload_flags
    &&& post.tap.readable == pre.tap.readable
    &&& post.tap.write_budget == pre.tap.write_budget - k
    &&& post.tap.written@.len() == pre.tap.written@.len() + k
    &&& (forall|j: int|
        pre.tap.written@.len() <= j < pre.tap.written@.len() + k
            ==> #[trigger] post.tap.written@[j]@ == qpre.avail@[j - pre.tap.written@.len()].bytes@
            .skip(VIRTIO_NET_HDR_LEN as int))
    &&& (forall|j: int|
        0 <= j < pre.tap.written@.len() ==> #[trigger] post.tap.written@[j]
            == pre.tap.written@[j])
    &&& post.rx_tap_listening == pre.rx_tap_listening
    &&& post.rx_desc_avail == pre.rx_desc_avail
    &&& post.rx_rate_limiter == pre.rx_rate_limiter
    &&& (pre.tx_rate_limiter is None ==> post.tx_rate_limiter is None)
    &&& (pre.tx_rate_limiter matches Some(l0) ==> (post.tx_rate_limiter matches Some(l1)
        && l1.bytes == debit_int(l0.bytes, total) && l1.ops == debit_int(l0.ops, k) && (l1.blocked
        ==> l0.blocked || (k < qpre.avail@.len() && !consumption_allowed(
        l1,
        (qpre.avail@[k].bytes@.len() - VIRTIO_NET_HDR_LEN) as u64,
        1,
    )))))
    &&& (pre.tx_rate_limiter matches Some(l0) ==> (l0.bytes matches Some(b0) ==> total
        <= b0.tokens))
    &&& (pre.tx_rate_limiter matches Some(l0) ==> (l0.ops matches Some(o0) ==> k <= o0.tokens))
    &&& post.counters.rx_bytes == pre.counters.rx_bytes
    &&& post.counters.rx_frames == pre.counters.rx_frames
    &&& post.counters.tx_bytes == wrap64(pre.counters.tx_bytes + total)
    &&& post.counters.tx_frames == wrap64(pre.counters.tx_frames + k)
}

/// The reasons a successful TX round may stop after `k` chains: the ring is
/// drained, the TAP write budget is exhausted (that chain is retained at the
/// front), or the limiter latched blocked on the next chain.
pub open spec fn tx_stopped(post: NetQueuePair, qpre: TxQueue, k: int) -> bool {
    ||| k == qpre.avail@.len()
    ||| (k < qpre.avail@.len() && post.tap.write_budget == 0)
    ||| (k < qpre.avail@.len() && (post.tx_rate_limiter matches Some(l) && l.blocked
        && !consumption_allowed(l, (qpre.avail@[k].bytes@.len() - VIRTIO_NET_HDR_LEN) as u64, 1)))
}

impl NetQueuePair {
    /// Transmit round: walks the available TX chains from the front, strips
    /// the virtio-net header from each, writes the payload to the TAP and
    /// publishes the chain to the used ring, stopping when the ring is
    /// drained, the TAP refuses a write (that chain is retained for the next
    /// kick), or the TX rate limiter runs dry. Returns whether at least one
    /// used entry was added.
    #[verifier::loop_isolation(false)]
    #[verifier::rlimit(60)]
    pub fn process_tx(&mut self, queue: &mut TxQueue) -> (r: Result<bool, NetQueuePairError>)
        ensures
            process_tx_common(*old(self), *final(self), *old(queue), *final(queue)),
            r matches Ok(any) ==> ({
                let k = old(queue).avail@.len() - final(queue).avail@.len();
                &&& any == (k > 0)
                &&& tx_stopped(*final(self), *old(queue), k)
            }),
            r is Err ==> final(queue).avail@.len() > 0 && final(queue).avail@[0].bytes@.len()
                < VIRTIO_NET_HDR_LEN,
    {
        let ghost self0 = *self;
        let ghost queue0 = *queue;
        let mut delivered: usize = 0;
        let ghost mut total: int = 0int;
        loop
            invariant
                delivered <= queue0.avail@.len(),
                queue.avail@ == queue0.avail@.skip(delivered as int),
                queue.used@ == queue0.used@ + tx_used_entries(queue0.avail@, delivered as int),
                queue.used_idx == wrap16(queue0.used_idx + delivered),
                queue.used_event == queue0.used_event,
                queue.event_idx == queue0.event_idx,
                total == tx_payload_total(queue0.avail@, delivered as int),
                0 <= total,
                forall|i: int|
                    0 <= i < delivered ==> queue0.avail@[i].bytes@.len() >= VIRTIO_NET_HDR_LEN,
                self.tap.fd == self0.tap.fd,
                self.tap.offload_flags == self0.tap.offload_flags,
                self.tap.readable == self0.tap.readable,
                self.tap.write_budget == self0.tap.write_budget - delivered,
                self.tap.written@.len() == self0.tap.written@.len() + delivered,
                forall|j: int|
                    self0.tap.written@.len() <= j < self0.tap.written@.len() + delivered
                        ==> #[trigger] self.tap.written@[j]@ == queue0.avail@[j
                        - self0.tap.written@.len()].bytes@.skip(VIRTIO_NET_HDR_LEN as int),
                forall|j: int|
                    0 <= j < self0.tap.written@.len() ==> #[trigger] self.tap.written@[j]
                        == self0.tap.written@[j],
                self.rx_tap_listening == self0.rx_tap_listening,
                self.rx_desc_avail == self0.rx_desc_avail,
                self.rx_rate_limiter == self0.rx_rate_limiter,
                self0.tx_rate_limiter is None ==> self.tx_rate_limiter is None,
                self0.tx_rate_limiter matches Some(l0) ==> self.tx_rate_limiter == Some(
                    RateLimiter {
                        bytes: debit_int(l0.bytes, total),
                        ops: debit_int(l0.ops, delivered as int),
                        blocked: l0.blocked,
                    },
                ),
                self0.tx_rate_limiter matches Some(l0) ==> (l0.bytes matches Some(b0) ==> total
                    <= b0.tokens),
                self0.tx_rate_limiter matches Some(l0) ==> (l0.ops matches Some(o0) ==> delivered
                    <= o0.tokens),
                self.counters.rx_bytes == self0.counters.rx_bytes,
                self.counters.rx_frames == self0.counters.rx_frames,
                self.counters.tx_bytes == wrap64(self0.counters.tx_bytes + total),
                self.counters.tx_frames == wrap64(self0.counters.tx_frames + delivered),
            decreases queue.avail@.len(),
        {
            if queue.avail.len() == 0 {
                return Ok(delivered > 0);
            }
            if queue.avail[0].bytes.len() < VIRTIO_NET_HDR_LEN {
                return Err(NetQueuePairError::DescriptorChainTooShort);
            }
            if self.tap.write_budget == 0 {
                return Ok(delivered > 0);
            }
            let payload_len = queue.avail[0].bytes.len() - VIRTIO_NET_HDR_LEN;
            let mut limited = false;
            match &mut self.tx_rate_limiter {
                Some(limiter) => {
                    if !limiter.consume(payload_len as u64, 1) {
                        limited = true;
                    }
                },
                None => {},
            }
            if limited {
                return Ok(delivered > 0);
            }
            let chain = queue.avail.remove(0);
            let mut payload: Vec<u8> = Vec::new();
            let mut i: usize = VIRTIO_NET_HDR_LEN;
            while i < chain.bytes.len()
                invariant
                    VIRTIO_NET_HDR_LEN <= i <= chain.bytes.len(),
                    payload@ == chain.bytes@.subrange(VIRTIO_NET_HDR_LEN as int, i as int),
                decreases chain.bytes@.len() - i,
            {
                let b = chain.bytes[i];
                payload.push(b);
                assert(payload@ =~= chain.bytes@.subrange(VIRTIO_NET_HDR_LEN as int, i + 1));
                i = i + 1;
            }
            assert(payload@ =~= chain.bytes@.skip(VIRTIO_NET_HDR_LEN as int));
            let accepted = self.tap.write_frame(payload);
            assert(accepted);
            queue.used.push(UsedElem { head: chain.head, len: 0 });
            queue.used_idx = crate::virtqueue::wrapping_add_u16(queue.used_idx, 1);
            self.counters.tx_bytes = crate::virtqueue::wrapping_add_u64(
                self.counters.tx_bytes,
                payload_len as u64,
            );
            self.counters.tx_frames = crate::virtqueue::wrapping_add_u64(self.counters.tx_frames, 1);
            proof {
                assert(chain == queue0.avail@[delivered as int]);
                assert(queue.used@ =~= queue0.used@ + tx_used_entries(
                    queue0.avail@,
                    delivered + 1,
                ));
                assert(queue.avail@ =~= queue0.avail@.skip(delivered + 1));
                lemma_wrap16_step(queue0.used_idx as int, delivered as int, 1);
                lemma_wrap64_step(self0.counters.tx_bytes as int, total, payload_len as int);
                lemma_wrap64_step(self0.counters.tx_frames as int, delivered as int, 1);
                total = total + payload_len;
            }
            delivered = delivered + 1;
        }
    }
}

/// Total frame bytes of the first `k` frames of a TAP read queue.
pub open spec fn rx_frame_total(frames: Seq<Vec<u8>>, k: int) -> int
    decreases k,
{
    if k <= 0 {
        0
    } else {
        rx_frame_total(frames, k - 1) + frames[k - 1]@.len()
    }
}

/// The used-ring entries an RX round publishes when it delivers the first
/// `k` TAP frames into the first `k` RX chains: each entry carries the chain
/// head and the bytes written, the frame plus the virtio-net header.
pub open spec fn rx_used_entries(
    avail: Seq<crate::virtqueue::RxChain>,
    frames: Seq<Vec<u8>>,
    k: int,
) -> Seq<UsedElem> {
    Seq::new(
        k as nat,
        |i: int|
            UsedElem { head: avail[i].head, len: (frames[i]@.len() + VIRTIO_NET_HDR_LEN) as u32 },
    )
}

/// Every frame the kernel has queued on the TAP fits, together with the
/// virtio-net header, in a 32-bit used-ring length.
pub open spec fn tap_frames_fit(tap: TapDevice) -> bool {
    forall|i: int|
        0 <= i < tap.readable@.len() ==> #[trigger] tap.readable@[i]@.len() + VIRTIO_NET_HDR_LEN
            <= u32::MAX
}

/// What every RX round guarantees, whatever stopped it: the first `k` TAP
/// frames were delivered in order into the first `k` RX chains, each
/// published to the used ring with the virtio-net header accounted for, the
/// counters advanced with wrap-around, the limiter was debited exactly for
/// the delivered bytes, and the TAP can only be disarmed, never armed.
pub open spec fn process_rx_common(
    pre: NetQueuePair,
    post: NetQueuePair,
    qpre: RxQueue,
    qpost: RxQueue,
) -> bool {
    let k = qpre.avail@.len() - qpost.avail@.len();
    let ftotal = rx_frame_total(pre.tap.readable@, k);
    &&& 0 <= k <= qpre.avail@.len()
    &&& k <= pre.tap.readable@.len()
    &&& qpost.avail@ == qpre.avail@.skip(k)
    &&& post.tap.readable@ == pre.tap.readable@.skip(k)
    &&& qpost.used@ == qpre.used@ + rx_used_entries(qpre.avail@, pre.tap.readable@, k)
    &&& qpost.used_idx == wrap16(qpre.used_idx + k)
    &&& qpost.used_event == qpre.used_event
    &&& qpost.event_idx == qpre.event_idx
    &&& (forall|i: int|
        0 <= i < k ==> #[trigger] pre.tap.readable@[i]@.len() + VIRTIO_NET_HDR_LEN
            <= qpre.avail@[i].capacity)
    &&& post.tap.fd == pre.tap.fd
    &&& post.tap.offload_flags == pre.tap.offload_flags
    &&& post.tap.written == pre.tap.written
    &&& post.tap.write_budget == pre.tap.write_budget
    &&& post.tx_rate_limiter == pre.tx_rate_limiter
    &&& (pre.rx_rate_limiter is None ==> post.rx_rate_limiter is None)
    &&& (pre.rx_rate_limiter matches Some(l0) ==> (post.rx_rate_limiter matches Some(l1)
        && l1.bytes == debit_int(l0.bytes, ftotal + k * (VIRTIO_NET_HDR_LEN as int)) && l1.ops
        == debit_int(l0.ops, k) && (l1.blocked ==> l0.blocked || (k < pre.tap.readable@.len()
        && !consumption_allowed(
        l1,
        (pre.tap.readable@[k]@.len() + VIRTIO_NET_HDR_LEN) as u64,
        1,
    )))))
    &&& (pre.rx_rate_limiter matches Some(l0) ==> (l0.bytes matches Some(b0) ==> ftotal + k * (
    VIRTIO_NET_HDR_LEN as int) <= b0.tokens))
    &&& (pre.rx_rate_limiter matches Some(l0) ==> (l0.ops matches Some(o0) ==> k <= o0.tokens))
    &&& post.counters.tx_bytes == pre.counters.tx_bytes
    &&& post.counters.tx_frames == pre.counters.tx_frames
    &&& post.counters.rx_bytes == wrap64(pre.counters.rx_bytes + ftotal)
    &&& post.counters.rx_frames == wrap64(pre.counters.rx_frames + k)
    &&& (post.rx_tap_listening ==> pre.rx_tap_listening)
    &&& (post.rx_desc_avail ==> pre.rx_desc_avail)
    &&& ((pre.rx_tap_listening && !post.rx_tap_listening) ==> (k == pre.tap.readable@.len() || (
    post.rx_rate_limiter matches Some(l) && l.blocked)))
    &&& (((post.rx_rate_limiter matches Some(l1) && l1.blocked) && !limiter_blocked(
        pre.rx_rate_limiter,
    )) ==> !post.rx_tap_listening)
}

/// The reasons a successful RX round may stop after `k` frames: no RX chain
/// is free (the TAP stays armed and the flags keep their values), the TAP
/// returned `EAGAIN` (the TAP is disarmed and `rx_desc_avail` clears), or
/// the limiter latched blocked on the next frame (the TAP is disarmed, the
/// frame stays queued).
pub open spec fn rx_stopped(pre: NetQueuePair, post: NetQueuePair, qpre: RxQueue, k: int) -> bool {
    ||| (k == qpre.avail@.len() && post.rx_tap_listening == pre.rx_tap_listening
        && post.rx_desc_avail == pre.rx_desc_avail)
    ||| (k == pre.tap.readable@.len() && !post.rx_tap_listening && !post.rx_desc_avail)
    ||| (k < pre.tap.readable@.len() && !post.rx_tap_listening && post.rx_desc_avail
        == pre.rx_desc_avail && (post.rx_rate_limiter matches Some(l) && l.blocked
        && !consumption_allowed(l, (pre.tap.readable@[k]@.len() + VIRTIO_NET_HDR_LEN) as u64, 1)))
}

impl NetQueuePair {
    /// Receive round: drains TAP frames into the available RX chains from
    /// the front, prepending the virtio-net header length to each published
    /// used entry, until the ring has no free chain (the TAP stays armed),
    /// the TAP reports `EAGAIN` (the TAP is disarmed and `rx_desc_avail`
    /// clears), or the RX rate limiter runs dry (the TAP is disarmed and the
    /// frame is left queued). Returns whether at least one used entry was
    /// added.
    #[verifier::loop_isolation(false)]
    #[verifier::rlimit(60)]
    pub fn process_rx(&mut self, queue: &mut RxQueue) -> (r: Result<bool, NetQueuePairError>)
        requires
            tap_frames_fit(old(self).tap),
        ensures
            process_rx_common(*old(self), *final(self), *old(queue), *final(queue)),
            r matches Ok(any) ==> ({
                let k = old(queue).avail@.len() - final(queue).avail@.len();
                &&& any == (k > 0)
                &&& rx_stopped(*old(self), *final(self), *old(queue), k)
            }),
            r is Err ==> final(queue).avail@.len() > 0 && final(self).tap.readable@.len() > 0
                && final(queue).avail@[0].capacity < final(self).tap.readable@[0]@.len()
                + VIRTIO_NET_HDR_LEN,
    {
        let ghost self0 = *self;
        let ghost queue0 = *queue;
        let chains_posted = queue.avail.len();
        let mut delivered: usize = 0;
        let ghost mut ftotal: int = 0int;
        loop
            invariant
                chains_posted == queue0.avail@.len(),
                delivered <= queue0.avail@.len(),
                delivered <= self0.tap.readable@.len(),
                queue.avail@ == queue0.avail@.skip(delivered as int),
                self.tap.readable@ == self0.tap.readable@.skip(delivered as int),
                queue.used@ == queue0.used@ + rx_used_entries(
                    queue0.avail@,
                    self0.tap.readable@,
                    delivered as int,
                ),
                queue.used_idx == wrap16(queue0.used_idx + delivered),
                queue.used_event == queue0.used_event,
                queue.event_idx == queue0.event_idx,
                ftotal == rx_frame_total(self0.tap.readable@, delivered as int),
                0 <= ftotal,
                forall|i: int|
                    0 <= i < delivered ==> #[trigger] self0.tap.readable@[i]@.len()
                        + VIRTIO_NET_HDR_LEN <= queue0.avail@[i].capacity,
                self.tap.fd == self0.tap.fd,
                self.tap.offload_flags == self0.tap.offload_flags,
                self.tap.written == self0.tap.written,
                self.tap.write_budget == self0.tap.write_budget,
                self.rx_tap_listening == self0.rx_tap_listening,
                self.rx_desc_avail == self0.rx_desc_avail,
                self.tx_rate_limiter == self0.tx_rate_limiter,
                self0.rx_rate_limiter is None ==> self.rx_rate_limiter is None,
                self0.rx_rate_limiter matches Some(l0) ==> self.rx_rate_limiter == Some(
                    RateLimiter {
                        bytes: debit_int(l0.bytes, ftotal + delivered * (VIRTIO_NET_HDR_LEN as int)),
                        ops: debit_int(l0.ops, delivered as int),
                        blocked: l0.blocked,
                    },
                ),
                self0.rx_rate_limiter matches Some(l0) ==> (l0.bytes matches Some(b0) ==> ftotal
                    + delivered * (VIRTIO_NET_HDR_LEN as int) <= b0.tokens),
                self0.rx_rate_limiter matches Some(l0) ==> (l0.ops matches Some(o0) ==> delivered
                    <= o0.tokens),
                self.counters.tx_bytes == self0.counters.tx_bytes,
                self.counters.tx_frames == self0.counters.tx_frames,
                self.counters.rx_bytes == wrap64(self0.counters.rx_bytes + ftotal),
                self.counters.rx_frames == wrap64(self0.counters.rx_frames + delivered),
            decreases queue.avail@.len(),
        {
            if queue.avail.len() == 0 {
                return Ok(delivered > 0);
            }
            let frame_opt = self.tap.read_frame();
            match frame_opt {
                None => {
                    // The kernel has no more frames: disarm the TAP until the
                    // next kick posts fresh descriptors.
                    self.rx_tap_listening = false;
                    self.rx_desc_avail = false;
                    return Ok(delivered > 0);
                },
                Some(frame) => {
                    let flen = frame.len();
                    let cost: u64 = flen as u64 + VIRTIO_NET_HDR_LEN as u64;
                    if (queue.avail[0].capacity as u64) < cost {
                        self.tap.unread_frame(frame);
                        assert(self.tap.readable@ =~= self0.tap.readable@.skip(delivered as int));
                        return Err(NetQueuePairError::DescriptorChainTooShort);
                    }
                    let mut limited = false;
                    match &mut self.rx_rate_limiter {
                        Some(limiter) => {
                            if !limiter.consume(cost, 1) {
                                limited = true;
                            }
                        },
                        None => {},
                    }
                    if limited {
                        self.tap.unread_frame(frame);
                        assert(self.tap.readable@ =~= self0.tap.readable@.skip(delivered as int));
                        self.rx_tap_listening = false;
                        return Ok(delivered > 0);
                    }
                    let chain = queue.avail.remove(0);
                    queue.used.push(UsedElem { head: chain.head, len: cost as u32 });
                    queue.used_idx = crate::virtqueue::wrapping_add_u16(queue.used_idx, 1);
                    self.counters.rx_bytes = crate::virtqueue::wrapping_add_u64(
                        self.counters.rx_bytes,
                        flen as u64,
                    );
                    self.counters.rx_frames = crate::virtqueue::wrapping_add_u64(
                        self.counters.rx_frames,
                        1,
                    );
                    proof {
                        assert(frame == self0.tap.readable@[delivered as int]);
                        assert(chain == queue0.avail@[delivered as int]);
                        assert(queue.used@ =~= queue0.used@ + rx_used_entries(
                            queue0.avail@,
                            self0.tap.readable@,
                            delivered + 1,
                        ));
                        assert(queue.avail@ =~= queue0.avail@.skip(delivered + 1));
                        assert(self.tap.readable@ =~= self0.tap.readable@.skip(delivered + 1));
                        lemma_wrap16_step(queue0.used_idx as int, delivered as int, 1);
                        lemma_wrap64_step(self0.counters.rx_bytes as int, ftotal, flen as int);
                        lemma_wrap64_step(self0.counters.rx_frames as int, delivered as int, 1);
                        ftotal = ftotal + flen;
                    }
                    delivered = delivered + 1;
                },
            }
        }
    }
}

/// Sending `k` frames from guest to host yields exactly `k` TAP writes
/// whose payload bytes match the chains with the virtio-net header
/// stripped, in order (the ring may hold more work when the round stopped
/// early on `EAGAIN` or a dry limiter).
pub proof fn lemma_tx_writes_match_frames(
    pre: NetQueuePair,
    post: NetQueuePair,
    qpre: TxQueue,
    qpost: TxQueue,
)
    requires
        process_tx_common(pre, post, qpre, qpost),
    ensures
        ({
            let k = qpre.avail@.len() - qpost.avail@.len();
            &&& post.tap.written@.len() == pre.tap.written@.len() + k
            &&& qpost.used@.len() == qpre.used@.len() + k
            &&& (forall|j: int|
                0 <= j < k ==> #[trigger] post.tap.written@[pre.tap.written@.len() + j]@
                    == qpre.avail@[j].bytes@.skip(VIRTIO_NET_HDR_LEN as int))
        }),
{
    let k = qpre.avail@.len() - qpost.avail@.len();
    assert forall|j: int| 0 <= j < k implies #[trigger] post.tap.written@[pre.tap.written@.len()
        + j]@ == qpre.avail@[j].bytes@.skip(VIRTIO_NET_HDR_LEN as int) by {
        assert(pre.tap.written@.len() <= pre.tap.written@.len() + j < pre.tap.written@.len() + k);
    }
}

/// Sending `k` frames from host to guest yields exactly `k` used-ring
/// entries, each carrying its chain's head and the frame's length plus the
/// virtio-net header the device prepends, in order.
pub proof fn lemma_rx_used_entries_match_frames(
    pre: NetQueuePair,
    post: NetQueuePair,
    qpre: RxQueue,
    qpost: RxQueue,
)
    requires
        process_rx_common(pre, post, qpre, qpost),
    ensures
        ({
            let k = qpre.avail@.len() - qpost.avail@.len();
            &&& qpost.used@.len() == qpre.used@.len() + k
            &&& (forall|j: int|
                0 <= j < k ==> #[trigger] qpost.used@[qpre.used@.len() + j] == (UsedElem {
                    head: qpre.avail@[j].head,
                    len: (pre.tap.readable@[j]@.len() + VIRTIO_NET_HDR_LEN) as u32,
                }))
        }),
{
    let k = qpre.avail@.len() - qpost.avail@.len();
    assert(qpost.used@ == qpre.used@ + rx_used_entries(qpre.avail@, pre.tap.readable@, k));
    assert forall|j: int| 0 <= j < k implies #[trigger] qpost.used@[qpre.used@.len() + j] == (
    UsedElem {
        head: qpre.avail@[j].head,
        len: (pre.tap.readable@[j]@.len() + VIRTIO_NET_HDR_LEN) as u32,
    }) by {
        assert(qpost.used@[qpre.used@.len() + j] == rx_used_entries(
            qpre.avail@,
            pre.tap.readable@,
            k,
        )[j]);
    }
}

/// Wrapping a 16-bit accumulator one step at a time agrees with wrapping the
/// whole sum.
pub proof fn lemma_wrap16_step(base: int, j: int, step: int)
    requires
        0 <= j,
        0 <= step < 0x10000,
        0 <= base,
    ensures
        wadd16(wrap16(base + j), step as u16) == wrap16(base + j + step),
{
    let m = 0x10000int;
    vstd::arithmetic::div_mod::lemma_small_mod(step as nat, m as nat);
    vstd::arithmetic::div_mod::lemma_add_mod_noop(base + j, step, m);
}

/// Wrapping a 64-bit accumulator one step at a time agrees with wrapping the
/// whole sum.
pub proof fn lemma_wrap64_step(base: int, j: int, step: int)
    requires
        0 <= j,
        0 <= step < 0x1_0000_0000_0000_0000,
        0 <= base,
    ensures
        wadd64(wrap64(base + j), step as u64) == wrap64(base + j + step),
{
    let m = 0x1_0000_0000_0000_0000int;
    vstd::arithmetic::div_mod::lemma_small_mod(step as nat, m as nat);
    vstd::arithmetic::div_mod::lemma_add_mod_noop(base + j, step, m);
}

} // verus!
