//! The control queue: parses VIRTIO_NET_CTRL commands one element at a time,
//! applies multi-queue and offload changes, and answers each chain with a
//! single status byte in its final writable descriptor.

use vstd::prelude::*;

use crate::features::tap_offload_of;
use crate::virtqueue::{wadd16, UsedElem};

verus! {

pub const VIRTIO_NET_CTRL_MQ: u8 = 4;

pub const VIRTIO_NET_CTRL_MQ_VQ_PAIRS_SET: u8 = 0;

pub const VIRTIO_NET_CTRL_GUEST_OFFLOADS: u8 = 5;

pub const VIRTIO_NET_CTRL_GUEST_OFFLOADS_SET: u8 = 0;

pub const VIRTIO_NET_OK: u8 = 0;

pub const VIRTIO_NET_ERR: u8 = 1;

/// One control chain as posted by the guest: the readable command bytes
/// (class, command, payload) under a head index.
pub struct CtrlChain {
    pub head: u16,
    pub data: Vec<u8>,
}

/// The control virtqueue: posted chains, the used ring, and the status
/// bytes written back, in chain order.
pub struct CtrlVring {
    pub avail: Vec<CtrlChain>,
    pub used: Vec<UsedElem>,
    pub used_idx: u16,
    /// The status byte answered to each processed chain, oldest first; it
    /// stands for the byte the device writes into the chain's final
    /// writable descriptor.
    pub acks: Vec<u8>,
}

/// A failure of control-queue processing; the control worker terminates.
pub enum CtrlQueueError {
    /// A chain is too short to carry the two-byte command header.
    InvalidHeader,
}

/// The control-queue handler state: the TAP descriptors it may reprogram,
/// the offload flags currently programmed into them, and how many queue
/// pairs are enabled.
pub struct CtrlQueue {
    pub tap_fds: Vec<i32>,
    /// Offload flags currently programmed into every TAP.
    pub tap_offload: u32,
    /// Queue pairs currently active; workers of the others are parked.
    pub enabled_pairs: usize,
}

/// A pair count clamped into `[1, n]`.
pub open spec fn clamp_pairs(k: int, n: int) -> int {
    if k < 1 {
        1
    } else if k > n {
        n
    } else {
        k
    }
}

/// The value of two little-endian bytes.
pub open spec fn le16_val(s: Seq<u8>) -> int {
    s[0] + s[1] * 0x100
}

/// The value of eight little-endian bytes.
pub open spec fn le64_val(s: Seq<u8>) -> int {
    s[0] + s[1] * 0x100 + s[2] * 0x10000 + s[3] * 0x1000000 + s[4] * 0x100000000 + s[5]
        * 0x10000000000 + s[6] * 0x1000000000000 + s[7] * 0x100000000000000
}

/// One command against the handler state: a multi-queue set clamps the pair
/// count into `[1, taps]`, an offload set reprograms every TAP from the
/// guest offload word, anything else is answered `VIRTIO_NET_ERR` and
/// changes nothing.
pub open spec fn ctrl_step(q: CtrlQueue, data: Seq<u8>) -> (CtrlQueue, u8) {
    let class = data[0];
    let cmd = data[1];
    let payload = data.skip(2);
    if class == VIRTIO_NET_CTRL_MQ && cmd == VIRTIO_NET_CTRL_MQ_VQ_PAIRS_SET && payload.len()
        >= 2 {
        (
            CtrlQueue {
                enabled_pairs: clamp_pairs(le16_val(payload), q.tap_fds@.len() as int) as usize,
                ..q
            },
            VIRTIO_NET_OK,
        )
    } else if class == VIRTIO_NET_CTRL_GUEST_OFFLOADS && cmd == VIRTIO_NET_CTRL_GUEST_OFFLOADS_SET
        && payload.len() >= 8 {
        (CtrlQueue { tap_offload: tap_offload_of(le64_val(payload) as u64), ..q }, VIRTIO_NET_OK)
    } else {
        (q, VIRTIO_NET_ERR)
    }
}

/// The handler state and status bytes after a run over `chains`, oldest
/// first.
pub open spec fn ctrl_run(q: CtrlQueue, chains: Seq<CtrlChain>) -> (CtrlQueue, Seq<u8>)
    decreases chains.len(),
{
    if chains.len() == 0 {
        (q, Seq::empty())
    } else {
        let prev = ctrl_run(q, chains.drop_last());
        let stepped = ctrl_step(prev.0, chains.last().data@);
        (stepped.0, prev.1.push(stepped.1))
    }
}

impl CtrlQueue {
    /// A handler over the given TAPs with every pair enabled and no offloads
    /// programmed yet.
    pub fn create(tap_fds: Vec<i32>) -> (r: CtrlQueue)
        ensures
            r.tap_fds == tap_fds,
            r.tap_offload == 0,
            r.enabled_pairs == tap_fds@.len(),
    {
        let enabled_pairs = tap_fds.len();
        CtrlQueue { tap_fds, tap_offload: 0, enabled_pairs }
    }

    /// Executes one parsed command; `data` carries class, command and
    /// payload. Returns the status byte.
    fn process_cmd(&mut self, data: &Vec<u8>) -> (ack: u8)
        requires
            data@.len() >= 2,
        ensures
            (*final(self), ack) == ctrl_step(*old(self), data@),
    {
        let class = data[0];
        let cmd = data[1];
        if class == VIRTIO_NET_CTRL_MQ && cmd == VIRTIO_NET_CTRL_MQ_VQ_PAIRS_SET && data.len()
            >= 4 {
            let k: usize = (data[2] as usize) + (data[3] as usize) * 0x100;
            let n = self.tap_fds.len();
            let clamped = if k < 1 {
                1
            } else if k > n {
                n
            } else {
                k
            };
            assert(data@.skip(2)[0] == data@[2] && data@.skip(2)[1] == data@[3]);
            self.enabled_pairs = clamped;
            VIRTIO_NET_OK
        } else if class == VIRTIO_NET_CTRL_GUEST_OFFLOADS && cmd
            == VIRTIO_NET_CTRL_GUEST_OFFLOADS_SET && data.len() >= 10 {
            let word: u64 = (data[2] as u64) + (data[3] as u64) * 0x100 + (data[4] as u64)
                * 0x10000 + (data[5] as u64) * 0x1000000 + (data[6] as u64) * 0x100000000 + (
            data[7] as u64) * 0x10000000000 + (data[8] as u64) * 0x1000000000000 + (data[9] as u64)
                * 0x100000000000000;
            assert(forall|i: int| 0 <= i < 8 ==> data@.skip(2)[i] == data@[i + 2]);
            self.tap_offload = crate::features::virtio_features_to_tap_offload(word);
            VIRTIO_NET_OK
        } else {
            assert(data@.skip(2).len() == data@.len() - 2);
            VIRTIO_NET_ERR
        }
    }

    /// Drains the control queue: processes every posted chain in order,
    /// publishing each to the used ring with its one-byte answer, until the
    /// queue is empty or a chain cannot carry a command header. Returns
    /// whether any used entry was added.
    #[verifier::loop_isolation(false)]
    pub fn process(&mut self, vring: &mut CtrlVring) -> (r: Result<bool, CtrlQueueError>)
        ensures
            ({
                let k = old(vring).avail@.len() - final(vring).avail@.len();
                let run = ctrl_run(*old(self), old(vring).avail@.take(k as int));
                &&& 0 <= k <= old(vring).avail@.len()
                &&& final(vring).avail@ == old(vring).avail@.skip(k as int)
                &&& *final(self) == run.0
                &&& final(vring).acks@ == old(vring).acks@ + run.1
                &&& final(vring).used@ == old(vring).used@ + Seq::new(
                    k as nat,
                    |i: int| UsedElem { head: old(vring).avail@[i].head, len: 1 },
                )
                &&& final(vring).used_idx == crate::queue_pair::wrap16(old(vring).used_idx + k)
                &&& (r matches Ok(any) ==> any == (k > 0) && k == old(vring).avail@.len())
                &&& (r is Err ==> k < old(vring).avail@.len() && old(vring).avail@[k].data@.len()
                    < 2)
            }),
    {
        let ghost self0 = *self;
        let ghost vring0 = *vring;
        let posted = vring.avail.len();
        let mut done: usize = 0;
        loop
            invariant
                posted == vring0.avail@.len(),
                done <= vring0.avail@.len(),
                vring.avail@ == vring0.avail@.skip(done as int),
                (*self, vring.acks@.skip(vring0.acks@.len() as int)) == ctrl_run(
                    self0,
                    vring0.avail@.take(done as int),
                ),
                vring.acks@.len() == vring0.acks@.len() + done,
                vring.acks@.take(vring0.acks@.len() as int) == vring0.acks@,
                vring.used@ == vring0.used@ + Seq::new(
                    done as nat,
                    |i: int| UsedElem { head: vring0.avail@[i].head, len: 1 },
                ),
                vring.used_idx == crate::queue_pair::wrap16(vring0.used_idx + done),
            decreases vring.avail@.len(),
        {
            if vring.avail.len() == 0 {
                proof {
                    assert(vring.acks@ =~= vring0.acks@ + vring.acks@.skip(
                        vring0.acks@.len() as int,
                    ));
                }
                return Ok(done > 0);
            }
            if vring.avail[0].data.len() < 2 {
                proof {
                    assert(vring.acks@ =~= vring0.acks@ + vring.acks@.skip(
                        vring0.acks@.len() as int,
                    ));
                }
                return Err(CtrlQueueError::InvalidHeader);
            }
            let chain = vring.avail.remove(0);
            let ack = self.process_cmd(&chain.data);
            vring.used.push(UsedElem { head: chain.head, len: 1 });
            vring.used_idx = crate::virtqueue::wrapping_add_u16(vring.used_idx, 1);
            vring.acks.push(ack);
            proof {
                assert(chain == vring0.avail@[done as int]);
                assert(vring.avail@ =~= vring0.avail@.skip(done + 1));
                assert(vring0.avail@.take(done + 1).drop_last() =~= vring0.avail@.take(
                    done as int,
                ));
                assert(vring0.avail@.take(done + 1).last() == vring0.avail@[done as int]);
                assert(vring.acks@.skip(vring0.acks@.len() as int) =~= ctrl_run(
                    self0,
                    vring0.avail@.take(done + 1),
                ).1);
                assert(vring.acks@.take(vring0.acks@.len() as int) =~= vring0.acks@);
                assert(vring.used@ =~= vring0.used@ + Seq::new(
                    (done + 1) as nat,
                    |i: int| UsedElem { head: vring0.avail@[i].head, len: 1 },
                ));
                crate::queue_pair::lemma_wrap16_step(vring0.used_idx as int, done as int, 1);
            }
            done = done + 1;
        }
    }
}

} // verus!
