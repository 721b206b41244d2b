//! The vhost-user-net backend: one thread per queue pair plus a control
//! thread, the ring-index masks the host uses to assign vrings to threads,
//! and the per-event dispatch.
//!
//! The vhost-user socket, the daemon and the vring workers live with the
//! caller; here each thread carries its queue pair and the vrings it
//! services as plain state, and the guest-memory handle is an opaque
//! generation token that `update_memory` replaces for every thread at once.

use vstd::prelude::*;

use crate::backend_config::Error;
use crate::ctrl_queue::{CtrlQueue, CtrlVring};
use crate::queue_pair::{
    process_rx_common,
    process_tx_common,
    rx_stopped,
    tap_frames_fit,
    tx_stopped,
    NetCounters,
    NetQueuePair,
};
use crate::tap::TapDevice;
use crate::virtqueue::{RxQueue, TxQueue};
use crate::worker::QueueSignal;

verus! {

/// The vhost-user feature bit that gates the protocol-feature handshake.
pub const VHOST_USER_F_PROTOCOL_FEATURES: u64 = 30;

/// Protocol feature bits.
pub const VHOST_USER_PROTOCOL_F_MQ: u64 = 0;

pub const VHOST_USER_PROTOCOL_F_REPLY_ACK: u64 = 3;

pub const VHOST_USER_PROTOCOL_F_CONFIGURE_MEM_SLOTS: u64 = 15;

/// The ring events a data thread dispatches on.
pub const BACKEND_RX_QUEUE_EVENT: u16 = 0;

pub const BACKEND_TX_QUEUE_EVENT: u16 = 1;

pub const BACKEND_RX_TAP_EVENT: u16 = 2;

/// One data-plane thread: its queue pair around a TAP, the two vrings it
/// services, its kill descriptor and the interrupts it asserted.
pub struct VhostUserNetThread {
    pub net: NetQueuePair,
    pub kill_fd: i32,
    pub rx_queue: RxQueue,
    pub tx_queue: TxQueue,
    pub signals: Vec<QueueSignal>,
}

/// The control-queue thread.
pub struct VhostUserNetCtrlThread {
    pub ctrl: CtrlQueue,
    pub vring: CtrlVring,
    pub kill_fd: i32,
    pub id: usize,
}

/// The backend: data threads, the control thread, the advertised queue
/// geometry, the per-thread ring masks, and the installed guest-memory
/// generation.
pub struct VhostUserNetBackend {
    pub threads: Vec<VhostUserNetThread>,
    pub ctrl_thread: VhostUserNetCtrlThread,
    /// Data queues plus the control queue.
    pub num_queues: usize,
    pub queue_size: u16,
    pub queues_per_thread: Vec<u64>,
    /// Generation token of the guest-memory handle every thread holds.
    pub mem: Option<u64>,
}

/// The control thread always follows the data threads.
pub open spec fn backend_wf(b: VhostUserNetBackend) -> bool {
    b.ctrl_thread.id == b.threads@.len()
}

/// A fresh queue pair around `tap`: nothing armed, nothing counted, no
/// limiter.
pub open spec fn fresh_pair(tap: TapDevice) -> NetQueuePair {
    NetQueuePair {
        tap,
        rx_tap_listening: false,
        rx_desc_avail: false,
        counters: NetCounters { rx_bytes: 0, rx_frames: 0, tx_bytes: 0, tx_frames: 0 },
        rx_rate_limiter: None,
        tx_rate_limiter: None,
    }
}

impl VhostUserNetBackend {
    /// Builds the backend around opened TAPs, one per queue pair after the
    /// requested queue count is rounded up to even, and one kill descriptor
    /// per thread (data threads first, control thread last). Thread `i`
    /// services rings `2i` and `2i + 1`, so its mask is `0b11 << 2i`; the
    /// control thread services the one ring past the rounded data queues.
    /// The stored queue count is the rounded one plus the control queue.
    pub fn new(taps: Vec<TapDevice>, kill_fds: Vec<i32>, num_queues: usize, queue_size: u16) -> (r:
        Result<VhostUserNetBackend, Error>)
        requires
            taps@.len() == (num_queues + 1) / 2,
            kill_fds@.len() == taps@.len() + 1,
            num_queues + num_queues % 2 < 64,
        ensures
            r matches Ok(b) ==> ({
                let rounded = num_queues + num_queues % 2;
                &&& backend_wf(b)
                &&& b.threads@.len() == taps@.len()
                &&& (forall|i: int|
                    0 <= i < taps@.len() ==> #[trigger] b.threads@[i].net == fresh_pair(taps@[i])
                        && b.threads@[i].kill_fd == kill_fds@[i]
                        && b.threads@[i].rx_queue.avail@.len() == 0
                        && b.threads@[i].tx_queue.avail@.len() == 0
                        && b.threads@[i].signals@.len() == 0)
                &&& b.ctrl_thread.id == taps@.len()
                &&& b.ctrl_thread.kill_fd == kill_fds@[taps@.len() as int]
                &&& b.ctrl_thread.ctrl.tap_fds@ == taps@.map_values(|t: TapDevice| t.fd)
                &&& b.ctrl_thread.ctrl.enabled_pairs == taps@.len()
                &&& b.num_queues == rounded + 1
                &&& b.queue_size == queue_size
                &&& b.queues_per_thread@.len() == taps@.len() + 1
                &&& (forall|i: int|
                    0 <= i < taps@.len() ==> #[trigger] b.queues_per_thread@[i] == (0b11u64 << (2
                        * i)))
                &&& b.queues_per_thread@[taps@.len() as int] == (1u64 << rounded)
                &&& b.mem is None
            }),
            r is Ok,
    {
        let rounded = num_queues + num_queues % 2;
        let thread_count = taps.len();
        let mut queues_per_thread: Vec<u64> = Vec::new();
        let mut threads: Vec<VhostUserNetThread> = Vec::new();
        let mut tap_fds: Vec<i32> = Vec::new();
        let mut taps = taps;
        let mut i: usize = 0;
        let ghost taps0 = taps@;
        while i < thread_count
            invariant
                0 <= i <= thread_count,
                thread_count == taps0.len(),
                taps0.len() == (num_queues + 1) / 2,
                rounded == num_queues + num_queues % 2,
                rounded < 64,
                kill_fds@.len() == taps0.len() + 1,
                taps@ == taps0.skip(i as int),
                threads@.len() == i,
                forall|j: int|
                    0 <= j < i ==> #[trigger] threads@[j].net == fresh_pair(taps0[j])
                        && threads@[j].kill_fd == kill_fds@[j] && threads@[j].rx_queue.avail@.len()
                        == 0 && threads@[j].tx_queue.avail@.len() == 0
                        && threads@[j].signals@.len() == 0,
                queues_per_thread@.len() == i,
                forall|j: int|
                    0 <= j < i ==> #[trigger] queues_per_thread@[j] == (0b11u64 << (2 * j)),
                tap_fds@ == taps0.take(i as int).map_values(|t: TapDevice| t.fd),
            decreases thread_count - i,
        {
            let tap = taps.remove(0);
            proof {
                assert(tap == taps0[i as int]);
                assert(taps@ =~= taps0.skip(i + 1));
            }
            tap_fds.push(tap.fd);
            proof {
                assert(tap_fds@ =~= taps0.take(i + 1).map_values(|t: TapDevice| t.fd));
            }
            let kill_fd = kill_fds[i];
            let thread = VhostUserNetThread {
                net: NetQueuePair {
                    tap,
                    rx_tap_listening: false,
                    rx_desc_avail: false,
                    counters: NetCounters::zeroed(),
                    rx_rate_limiter: None,
                    tx_rate_limiter: None,
                },
                kill_fd,
                rx_queue: RxQueue {
                    avail: Vec::new(),
                    used: Vec::new(),
                    used_idx: 0,
                    used_event: 0,
                    event_idx: false,
                },
                tx_queue: TxQueue {
                    avail: Vec::new(),
                    used: Vec::new(),
                    used_idx: 0,
                    used_event: 0,
                    event_idx: false,
                },
                signals: Vec::new(),
            };
            threads.push(thread);
            queues_per_thread.push(0b11u64 << (2 * i) as u64);
            i = i + 1;
        }
        proof {
            assert(taps0.take(thread_count as int) =~= taps0);
        }
        queues_per_thread.push(1u64 << rounded as u64);
        let ctrl_kill = kill_fds[thread_count];
        let ctrl_thread = VhostUserNetCtrlThread {
            ctrl: CtrlQueue::create(tap_fds),
            vring: CtrlVring { avail: Vec::new(), used: Vec::new(), used_idx: 0, acks: Vec::new() },
            kill_fd: ctrl_kill,
            id: thread_count,
        };
        Ok(
            VhostUserNetBackend {
                threads,
                ctrl_thread,
                num_queues: rounded + 1,
                queue_size,
                queues_per_thread,
                mem: None,
            },
        )
    }

    /// The number of queues the backend exposes, the control queue included.
    pub fn num_queues(&self) -> (r: usize)
        ensures
            r == self.num_queues,
    {
        self.num_queues
    }

    /// The maximum size of each queue.
    pub fn max_queue_size(&self) -> (r: usize)
        ensures
            r == self.queue_size as usize,
    {
        self.queue_size as usize
    }

    /// The virtio features the backend advertises: the modern transport,
    /// event-index suppression, the control queue, multi-queue, and the
    /// vhost-user protocol-features gate.
    pub fn features(&self) -> (r: u64)
        ensures
            r == (1u64 << crate::features::VIRTIO_F_VERSION_1) | (1u64
                << crate::features::VIRTIO_RING_F_EVENT_IDX) | (1u64
                << crate::features::VIRTIO_NET_F_CTRL_VQ) | (1u64
                << crate::features::VIRTIO_NET_F_MQ) | (1u64 << VHOST_USER_F_PROTOCOL_FEATURES),
    {
        (1u64 << crate::features::VIRTIO_F_VERSION_1) | (1u64
            << crate::features::VIRTIO_RING_F_EVENT_IDX) | (1u64
            << crate::features::VIRTIO_NET_F_CTRL_VQ) | (1u64 << crate::features::VIRTIO_NET_F_MQ)
            | (1u64 << VHOST_USER_F_PROTOCOL_FEATURES)
    }

    /// The vhost-user protocol features: multi-queue, reply-ack, and
    /// configurable memory slots.
    pub fn protocol_features(&self) -> (r: u64)
        ensures
            r == (1u64 << VHOST_USER_PROTOCOL_F_MQ) | (1u64 << VHOST_USER_PROTOCOL_F_REPLY_ACK) | (
            1u64 << VHOST_USER_PROTOCOL_F_CONFIGURE_MEM_SLOTS),
    {
        (1u64 << VHOST_USER_PROTOCOL_F_MQ) | (1u64 << VHOST_USER_PROTOCOL_F_REPLY_ACK) | (1u64
            << VHOST_USER_PROTOCOL_F_CONFIGURE_MEM_SLOTS)
    }

    /// The host toggles event-index suppression per ring; the rings carry
    /// their own flag here, so the backend-level call changes nothing.
    pub fn set_event_idx(&mut self, enabled: bool)
        ensures
            *final(self) == *old(self),
    {
    }

    /// Replaces the guest-memory handle every thread reads, atomically: the
    /// stored generation moves to the new one.
    pub fn update_memory(&mut self, mem_generation: u64) -> (r: Result<(), Error>)
        ensures
            r is Ok,
            *final(self) == (VhostUserNetBackend { mem: Some(mem_generation), ..*old(self) }),
    {
        self.mem = Some(mem_generation);
        Ok(())
    }

    /// The ring-index mask of every thread: thread `i` services rings `2i`
    /// and `2i + 1`; the control thread services the ring past the data
    /// queues.
    pub fn queues_per_thread(&self) -> (r: Vec<u64>)
        ensures
            r@ == self.queues_per_thread@,
    {
        let mut out: Vec<u64> = Vec::new();
        let mut i: usize = 0;
        while i < self.queues_per_thread.len()
            invariant
                0 <= i <= self.queues_per_thread@.len(),
                out@ == self.queues_per_thread@.take(i as int),
            decreases self.queues_per_thread@.len() - i,
        {
            let m = self.queues_per_thread[i];
            out.push(m);
            assert(out@ =~= self.queues_per_thread@.take(i + 1));
            i = i + 1;
        }
        assert(out@ =~= self.queues_per_thread@);
        out
    }

    /// Whether the host handed over one vring worker per backend thread:
    /// the data threads plus the control thread. A mismatch is fatal at
    /// startup.
    pub fn vring_workers_valid(&self, vring_worker_count: usize) -> (r: bool)
        ensures
            r == (vring_worker_count == self.threads@.len() + 1),
    {
        vring_worker_count >= 1 && vring_worker_count - 1 == self.threads.len()
    }

    /// The kill descriptor of a thread and the index its exit notification
    /// occupies in that thread's event table: 1 for the control thread
    /// (right after the control queue event), 3 for a data thread (after
    /// the RX, TX and TAP events).
    pub fn exit_event(&self, thread_index: usize) -> (r: Option<(i32, u16)>)
        requires
            backend_wf(*self),
            thread_index <= self.threads@.len(),
        ensures
            thread_index == self.ctrl_thread.id ==> r == Some((self.ctrl_thread.kill_fd, 1u16)),
            thread_index < self.threads@.len() ==> r == Some(
                (self.threads@[thread_index as int].kill_fd, 3u16),
            ),
    {
        if thread_index == self.ctrl_thread.id {
            Some((self.ctrl_thread.kill_fd, 1))
        } else {
            Some((self.threads[thread_index].kill_fd, 3))
        }
    }

    /// Dispatches one ring event on a data thread: a ring-0 kick arms the
    /// TAP listener, a ring-1 kick runs a TX round and signals the vring if
    /// it produced used entries, TAP readability runs an RX round likewise;
    /// any other event identifier is an error.
    fn handle_queue(&mut self, device_event: u16, thread_id: usize) -> (r: Result<bool, Error>)
        requires
            thread_id < old(self).threads@.len(),
            tap_frames_fit(old(self).threads@[thread_id as int].net.tap),
        ensures
            data_event_rel(*old(self), *final(self), device_event, thread_id as int, r),
    {
        let mut thread = self.threads.remove(thread_id);
        let ghost pre = thread;
        let mut outcome: Result<bool, Error> = Ok(false);
        if device_event == BACKEND_RX_QUEUE_EVENT {
            if !thread.net.rx_tap_listening {
                thread.net.rx_tap_listening = true;
            }
        } else if device_event == BACKEND_TX_QUEUE_EVENT {
            match thread.net.process_tx(&mut thread.tx_queue) {
                Ok(any) => {
                    if any {
                        thread.signals.push(QueueSignal::TxUsed);
                    }
                },
                Err(e) => {
                    outcome = Err(Error::NetQueuePair(e));
                },
            }
        } else if device_event == BACKEND_RX_TAP_EVENT {
            match thread.net.process_rx(&mut thread.rx_queue) {
                Ok(any) => {
                    if any {
                        thread.signals.push(QueueSignal::RxUsed);
                    }
                },
                Err(e) => {
                    outcome = Err(Error::NetQueuePair(e));
                },
            }
        } else {
            outcome = Err(Error::HandleEventUnknownEvent);
        }
        self.threads.insert(thread_id, thread);
        proof {
            assert(self.threads@ =~= old(self).threads@.update(thread_id as int, thread));
        }
        outcome
    }

    /// Dispatches one event: rejects anything but an input event, sends the
    /// control thread's events to the control queue, and a data thread's to
    /// `handle_queue`. Returning `Ok(false)` keeps the thread running.
    pub fn handle_event(
        &mut self,
        device_event: u16,
        evset_epollin: bool,
        thread_id: usize,
    ) -> (r: Result<bool, Error>)
        requires
            backend_wf(*old(self)),
            thread_id <= old(self).threads@.len(),
            thread_id < old(self).threads@.len() ==> tap_frames_fit(
                old(self).threads@[thread_id as int].net.tap,
            ),
        ensures
            !evset_epollin ==> (r matches Err(e) && e is HandleEventNotEpollIn && *final(self)
                == *old(self)),
            evset_epollin && thread_id == old(self).ctrl_thread.id ==> ctrl_event_rel(
                *old(self),
                *final(self),
                device_event,
                r,
            ),
            evset_epollin && thread_id < old(self).threads@.len() ==> data_event_rel(
                *old(self),
                *final(self),
                device_event,
                thread_id as int,
                r,
            ),
    {
        if !evset_epollin {
            return Err(Error::HandleEventNotEpollIn);
        }
        if thread_id == self.ctrl_thread.id {
            if device_event == 0 {
                match self.ctrl_thread.ctrl.process(&mut self.ctrl_thread.vring) {
                    Ok(any) => Ok(false),
                    Err(e) => Err(Error::ProcessCtrlQueue(e)),
                }
            } else {
                Err(Error::HandleEventUnknownEvent)
            }
        } else {
            self.handle_queue(device_event, thread_id)
        }
    }
}

/// What one data-thread event establishes: only the addressed thread moves,
/// and it moves by the event's rule — a ring-0 kick arms the TAP, a ring-1
/// kick is a TX round whose signal is recorded iff it produced used
/// entries, TAP readability is the mirrored RX round, and an unknown event
/// changes nothing and errs.
pub open spec fn data_event_rel(
    pre: VhostUserNetBackend,
    post: VhostUserNetBackend,
    device_event: u16,
    tid: int,
    r: Result<bool, Error>,
) -> bool {
    let tpre = pre.threads@[tid];
    let tpost = post.threads@[tid];
    &&& post.threads@ == pre.threads@.update(tid, tpost)
    &&& post.ctrl_thread == pre.ctrl_thread
    &&& post.num_queues == pre.num_queues
    &&& post.queue_size == pre.queue_size
    &&& post.queues_per_thread == pre.queues_per_thread
    &&& post.mem == pre.mem
    &&& (device_event == BACKEND_RX_QUEUE_EVENT ==> (r matches Ok(b) && b == false && tpost == (
    VhostUserNetThread {
        net: NetQueuePair { rx_tap_listening: true, ..tpre.net },
        ..tpre
    })))
    &&& (device_event == BACKEND_TX_QUEUE_EVENT ==> ({
        let k = tpre.tx_queue.avail@.len() - tpost.tx_queue.avail@.len();
        &&& process_tx_common(tpre.net, tpost.net, tpre.tx_queue, tpost.tx_queue)
        &&& tpost.rx_queue == tpre.rx_queue
        &&& tpost.kill_fd == tpre.kill_fd
        &&& (r matches Ok(b) ==> b == false && tx_stopped(tpost.net, tpre.tx_queue, k)
            && tpost.signals@ == (if k > 0 {
            tpre.signals@.push(QueueSignal::TxUsed)
        } else {
            tpre.signals@
        }))
        &&& (r matches Err(e) ==> (e is NetQueuePair && tpost.signals == tpre.signals
            && tpost.tx_queue.avail@.len() > 0 && tpost.tx_queue.avail@[0].bytes@.len()
            < crate::virtqueue::VIRTIO_NET_HDR_LEN))
    }))
    &&& (device_event == BACKEND_RX_TAP_EVENT ==> ({
        let k = tpre.rx_queue.avail@.len() - tpost.rx_queue.avail@.len();
        &&& process_rx_common(tpre.net, tpost.net, tpre.rx_queue, tpost.rx_queue)
        &&& tpost.tx_queue == tpre.tx_queue
        &&& tpost.kill_fd == tpre.kill_fd
        &&& (r matches Ok(b) ==> b == false && rx_stopped(tpre.net, tpost.net, tpre.rx_queue, k)
            && tpost.signals@ == (if k > 0 {
            tpre.signals@.push(QueueSignal::RxUsed)
        } else {
            tpre.signals@
        }))
        &&& (r matches Err(e) ==> (e is NetQueuePair && tpost.signals == tpre.signals
            && tpost.rx_queue.avail@.len() > 0 && tpost.net.tap.readable@.len() > 0
            && tpost.rx_queue.avail@[0].capacity < tpost.net.tap.readable@[0]@.len()
            + crate::virtqueue::VIRTIO_NET_HDR_LEN))
    }))
    &&& (!(device_event == BACKEND_RX_QUEUE_EVENT || device_event == BACKEND_TX_QUEUE_EVENT
        || device_event == BACKEND_RX_TAP_EVENT) ==> (tpost == tpre && (r matches Err(e) && e
        is HandleEventUnknownEvent)))
}

/// What one control-thread event establishes: event 0 drains the control
/// queue by `ctrl_run`, anything else errs and changes nothing.
pub open spec fn ctrl_event_rel(
    pre: VhostUserNetBackend,
    post: VhostUserNetBackend,
    device_event: u16,
    r: Result<bool, Error>,
) -> bool {
    &&& post.threads == pre.threads
    &&& post.num_queues == pre.num_queues
    &&& post.queue_size == pre.queue_size
    &&& post.queues_per_thread == pre.queues_per_thread
    &&& post.mem == pre.mem
    &&& post.ctrl_thread.kill_fd == pre.ctrl_thread.kill_fd
    &&& post.ctrl_thread.id == pre.ctrl_thread.id
    &&& (device_event == 0 ==> ({
        let k = pre.ctrl_thread.vring.avail@.len() - post.ctrl_thread.vring.avail@.len();
        let run = crate::ctrl_queue::ctrl_run(
            pre.ctrl_thread.ctrl,
            pre.ctrl_thread.vring.avail@.take(k as int),
        );
        &&& 0 <= k <= pre.ctrl_thread.vring.avail@.len()
        &&& post.ctrl_thread.vring.avail@ == pre.ctrl_thread.vring.avail@.skip(k as int)
        &&& post.ctrl_thread.ctrl == run.0
        &&& post.ctrl_thread.vring.acks@ == pre.ctrl_thread.vring.acks@ + run.1
        &&& post.ctrl_thread.vring.used@ == pre.ctrl_thread.vring.used@ + Seq::new(
            k as nat,
            |i: int|
                crate::virtqueue::UsedElem { head: pre.ctrl_thread.vring.avail@[i].head, len: 1 },
        )
        &&& post.ctrl_thread.vring.used_idx == crate::queue_pair::wrap16(
            pre.ctrl_thread.vring.used_idx + k,
        )
        &&& (r matches Ok(b) ==> b == false && k == pre.ctrl_thread.vring.avail@.len())
        &&& (r matches Err(e) ==> (e is ProcessCtrlQueue && k
            < pre.ctrl_thread.vring.avail@.len()
            && pre.ctrl_thread.vring.avail@[k as int].data@.len() < 2))
    }))
    &&& (device_event != 0 ==> (post.ctrl_thread == pre.ctrl_thread && (r matches Err(e) && e
        is HandleEventUnknownEvent)))
}

} // verus!
