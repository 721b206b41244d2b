//! The virtio-net device facade: feature negotiation, configuration space,
//! activation planning, pause and resume, snapshot and restore.
//!
//! Activation is a pure plan: the facade validates the queues it was handed,
//! splits them into RX/TX pairs, detaches the control queue when one is
//! present, assigns each pair a TAP descriptor and the offload flags the
//! acknowledged features dictate, and sizes the pause barrier. Spawning the
//! threads, cloning event fds and loading the syscall sandbox are the
//! caller's I/O.

use vstd::prelude::*;

use crate::config_space::{read_at, read_config_bytes, VirtioNetConfig};
use crate::features::{
    feature_set,
    has_feature,
    net_avail_features,
    net_avail_features_spec,
    tap_offload_of,
    virtio_features_to_tap_offload,
    VIRTIO_NET_F_CTRL_VQ,
    VIRTIO_NET_F_MAC,
    VIRTIO_NET_F_MQ,
    VIRTIO_RING_F_EVENT_IDX,
};
use crate::queue_pair::NetCounters;
use crate::rate_limiter::RateLimiterConfig;

verus! {

/// The virtio device type code of a network device.
pub const VIRTIO_DEVICE_TYPE_NET: u32 = 1;

/// A MAC address.
#[derive(Clone, Copy)]
pub struct MacAddr {
    pub bytes: [u8; 6],
}

/// Failures of device construction. The facade itself computes from plain
/// values; these variants are filled by the caller that opens or duplicates
/// the kernel TAP descriptors.
pub enum Error {
    /// Opening the kernel TAP failed.
    OpenTap(String),
    /// An existing TAP descriptor could not be used.
    TapError(String),
    /// Duplicating a TAP descriptor failed, with the OS error code.
    DuplicateTapFd(i32),
}

/// Failures of activation.
pub enum ActivateError {
    BadActivate,
}

/// One data queue as handed to `activate`: its configured size and the kick
/// event descriptor the guest signals on.
#[derive(Clone, Copy)]
pub struct QueueResources {
    pub size: u16,
    pub event_fd: i32,
}

/// What one spawned worker receives: its pair index, the TAP it owns, the
/// offload flags to program into it, its RX and TX queues, and whether the
/// event-index feature was negotiated.
#[derive(Clone, Copy)]
pub struct WorkerPlan {
    pub pair_index: usize,
    pub tap_fd: i32,
    pub tap_offload: u32,
    pub rx: QueueResources,
    pub tx: QueueResources,
    pub event_idx: bool,
}

/// What the control-queue worker receives: the detached queue and the TAP
/// descriptors it may reprogram.
pub struct CtrlPlan {
    pub queue: QueueResources,
    pub event_idx: bool,
    pub tap_fds: Vec<i32>,
}

/// The outcome of a successful activation.
pub struct ActivationPlan {
    pub workers: Vec<WorkerPlan>,
    pub ctrl: Option<CtrlPlan>,
    /// Participants of the pause barrier: every worker, the control worker
    /// when present, and the caller.
    pub barrier_size: usize,
}

/// The migratable state of the device: feature words, config space and
/// queue sizes. In-flight descriptor indices are not persisted; the driver
/// resynchronises after restore.
pub struct NetState {
    pub avail_features: u64,
    pub acked_features: u64,
    pub config: VirtioNetConfig,
    pub queue_size: Vec<u16>,
}

/// The virtio-net device facade.
pub struct Net {
    pub id: String,
    pub avail_features: u64,
    pub acked_features: u64,
    pub config: VirtioNetConfig,
    pub queue_sizes: Vec<u16>,
    /// TAP descriptors, one per queue pair, owned until activation hands
    /// them to the workers.
    pub taps: Vec<i32>,
    pub counters: NetCounters,
    pub rate_limiter_config: Option<RateLimiterConfig>,
    pub min_queues: u16,
    /// Participants of the pause barrier.
    pub paused_sync_size: usize,
    pub activated: bool,
    pub paused: bool,
    pub worker_count: usize,
    pub ctrl_worker: bool,
}

/// No two entries name the same descriptor.
pub open spec fn distinct_fds(fds: Seq<i32>) -> bool {
    forall|i: int, j: int| 0 <= i < j < fds.len() ==> fds[i] != fds[j]
}

/// Well-formedness of the facade: acknowledged features stay inside the
/// advertised set, and the TAPs are pairwise distinct descriptors.
pub open spec fn net_wf(d: Net) -> bool {
    &&& d.acked_features & !d.avail_features == 0
    &&& distinct_fds(d.taps@)
}

/// The advertised features of a freshly built device: the base set, the MAC
/// bit when a guest MAC is fixed, and the MQ bit when the pair count is in
/// the multi-queue range.
pub open spec fn built_avail_features(iommu: bool, has_mac: bool, num_queues: int) -> u64 {
    let base = net_avail_features_spec(iommu);
    let with_mac = if has_mac {
        base | (1u64 << VIRTIO_NET_F_MAC)
    } else {
        base
    };
    if 1 <= num_queues / 2 <= 0x8000 {
        with_mac | (1u64 << VIRTIO_NET_F_MQ)
    } else {
        with_mac
    }
}

impl Net {
    /// Builds the device around already-open TAP descriptors: advertises the
    /// feature set, fills the config space from the optional guest MAC and
    /// the queue-pair count, and sizes every queue alike, with one extra
    /// slot for the control queue.
    pub fn new_with_tap(
        id: String,
        taps: Vec<i32>,
        guest_mac: Option<MacAddr>,
        iommu: bool,
        num_queues: usize,
        queue_size: u16,
        rate_limiter_config: Option<RateLimiterConfig>,
    ) -> (r: Result<Net, Error>)
        requires
            num_queues < usize::MAX,
        ensures
            r matches Ok(d) ==> ({
                &&& d.id@ == id@
                &&& d.avail_features == built_avail_features(
                    iommu,
                    guest_mac is Some,
                    num_queues as int,
                )
                &&& d.acked_features == 0
                &&& (guest_mac matches Some(m) ==> d.config.mac@ == m.bytes@)
                &&& (guest_mac is None ==> d.config.mac@ == seq![0u8, 0u8, 0u8, 0u8, 0u8, 0u8])
                &&& d.config.max_virtqueue_pairs == (if 1 <= num_queues / 2 <= 0x8000 {
                    (num_queues / 2) as u16
                } else {
                    0u16
                })
                &&& d.config.status == 0
                &&& d.config.mtu == 0
                &&& d.queue_sizes@ == Seq::new((num_queues + 1) as nat, |i: int| queue_size)
                &&& d.taps == taps
                &&& d.counters == (NetCounters {
                    rx_bytes: 0,
                    rx_frames: 0,
                    tx_bytes: 0,
                    tx_frames: 0,
                })
                &&& d.rate_limiter_config == rate_limiter_config
                &&& d.min_queues == 2
                &&& d.paused_sync_size == num_queues / 2 + 1
                &&& !d.activated && !d.paused && d.worker_count == 0 && !d.ctrl_worker
            }),
            r is Ok,
    {
        let mut avail_features = net_avail_features(iommu);
        let mut config = VirtioNetConfig::zeroed();
        match &guest_mac {
            Some(mac) => {
                config.mac = mac.bytes;
                avail_features = avail_features | (1u64 << VIRTIO_NET_F_MAC);
            },
            None => {},
        }
        let num_queue_pairs = num_queues / 2;
        if 1 <= num_queue_pairs && num_queue_pairs <= 0x8000 {
            config.max_virtqueue_pairs = num_queue_pairs as u16;
            avail_features = avail_features | (1u64 << VIRTIO_NET_F_MQ);
        }
        let queue_num = num_queues + 1;
        let mut queue_sizes: Vec<u16> = Vec::new();
        let mut i: usize = 0;
        while i < queue_num
            invariant
                0 <= i <= queue_num,
                queue_sizes@ == Seq::new(i as nat, |j: int| queue_size),
            decreases queue_num - i,
        {
            queue_sizes.push(queue_size);
            assert(queue_sizes@ =~= Seq::new((i + 1) as nat, |j: int| queue_size));
            i = i + 1;
        }
        Ok(
            Net {
                id,
                avail_features,
                acked_features: 0,
                config,
                queue_sizes,
                taps,
                counters: NetCounters::zeroed(),
                rate_limiter_config,
                min_queues: 2,
                paused_sync_size: num_queues / 2 + 1,
                activated: false,
                paused: false,
                worker_count: 0,
                ctrl_worker: false,
            },
        )
    }

    /// The device type code.
    pub fn device_type(&self) -> (r: u32)
        ensures
            r == VIRTIO_DEVICE_TYPE_NET,
    {
        VIRTIO_DEVICE_TYPE_NET
    }

    /// The configured maximum size of every queue.
    pub fn queue_max_sizes(&self) -> (r: &Vec<u16>)
        ensures
            r@ == self.queue_sizes@,
    {
        &self.queue_sizes
    }

    /// The advertised feature set.
    pub fn features(&self) -> (r: u64)
        ensures
            r == self.avail_features,
    {
        self.avail_features
    }

    /// The device identifier.
    pub fn id(&self) -> (r: &String)
        ensures
            r@ == self.id@,
    {
        &self.id
    }

    /// Acknowledges the feature bits the guest wrote; bits the device never
    /// advertised are silently dropped, so the acknowledged set stays inside
    /// the advertised one.
    pub fn ack_features(&mut self, value: u64)
        ensures
            final(self).acked_features == (old(self).acked_features | (value & old(
                self,
            ).avail_features)),
            *final(self) == (Net { acked_features: final(self).acked_features, ..*old(self) }),
            net_wf(*old(self)) ==> net_wf(*final(self)),
    {
        proof {
            if self.acked_features & !self.avail_features == 0 {
                crate::features::lemma_ack_stays_advertised(
                    self.acked_features,
                    self.avail_features,
                    value,
                );
            }
        }
        self.acked_features = crate::features::apply_ack(
            self.acked_features,
            self.avail_features,
            value,
        );
    }

    /// Copies from the config space into `data`, clipping to its length;
    /// bytes beyond the space read as zero.
    pub fn read_config(&self, offset: u64, data: &mut Vec<u8>)
        ensures
            final(data)@.len() == old(data)@.len(),
            forall|i: int|
                0 <= i < final(data)@.len() ==> final(data)@[i] == read_at(
                    self.config.bytes(),
                    offset as int,
                    i,
                ),
    {
        let bytes = self.config.to_bytes();
        read_config_bytes(&bytes, offset, data);
    }

    /// The current traffic counters.
    pub fn counters(&self) -> (r: NetCounters)
        ensures
            r == self.counters,
    {
        NetCounters {
            rx_bytes: self.counters.rx_bytes,
            rx_frames: self.counters.rx_frames,
            tx_bytes: self.counters.tx_bytes,
            tx_frames: self.counters.tx_frames,
        }
    }

    /// Validates the handed queues and plans the workers. With `2N` queues,
    /// `N` workers are planned, each owning one TAP and one RX/TX queue
    /// pair, in order. With `2N + 1` queues the last is detached as the
    /// control queue, which is only legal when the guest acknowledged
    /// CTRL_VQ, and the pause barrier grows by the control worker. Fewer
    /// than two queues, an odd count without CTRL_VQ, or a TAP count other
    /// than `N` fail with `BadActivate` and leave the device inert.
    pub fn activate(&mut self, queues: Vec<QueueResources>) -> (r: Result<
        ActivationPlan,
        ActivateError,
    >)
        ensures
            r matches Ok(plan) ==> activation_rel(*old(self), queues@, plan, *final(self)),
            r is Err ==> *final(self) == *old(self) && (queues@.len() < old(self).min_queues
                || (queues@.len() % 2 == 1 && !feature_set(
                old(self).acked_features,
                VIRTIO_NET_F_CTRL_VQ,
            )) || old(self).taps@.len() != queue_pair_count(queues@.len() as int)),
            r is Err <==> (queues@.len() < old(self).min_queues || (queues@.len() % 2 == 1
                && !feature_set(old(self).acked_features, VIRTIO_NET_F_CTRL_VQ)) || old(
                self,
            ).taps@.len() != queue_pair_count(queues@.len() as int)),
    {
        if queues.len() < self.min_queues as usize {
            return Err(ActivateError::BadActivate);
        }
        let ctrl_acked = has_feature(self.acked_features, VIRTIO_NET_F_CTRL_VQ);
        let odd = queues.len() % 2 == 1;
        if odd && !ctrl_acked {
            return Err(ActivateError::BadActivate);
        }
        let pairs = queues.len() / 2;
        if self.taps.len() != pairs {
            return Err(ActivateError::BadActivate);
        }
        let event_idx = has_feature(self.acked_features, VIRTIO_RING_F_EVENT_IDX);
        let offload = virtio_features_to_tap_offload(self.acked_features);
        let mut workers: Vec<WorkerPlan> = Vec::new();
        let qn = queues.len();
        let mut i: usize = 0;
        while i < pairs
            invariant
                0 <= i <= pairs,
                qn == queues@.len(),
                pairs == queues@.len() / 2,
                2 * pairs <= queues@.len(),
                pairs == self.taps@.len(),
                offload == tap_offload_of(self.acked_features),
                event_idx == feature_set(self.acked_features, VIRTIO_RING_F_EVENT_IDX),
                workers@.len() == i,
                forall|j: int|
                    0 <= j < i ==> workers@[j] == planned_worker(
                        queues@,
                        self.taps@,
                        tap_offload_of(self.acked_features),
                        feature_set(self.acked_features, VIRTIO_RING_F_EVENT_IDX),
                        j,
                    ),
            decreases pairs - i,
        {
            let w = WorkerPlan {
                pair_index: i,
                tap_fd: self.taps[i],
                tap_offload: offload,
                rx: queues[2 * i],
                tx: queues[2 * i + 1],
                event_idx,
            };
            workers.push(w);
            i = i + 1;
        }
        let ctrl = if odd {
            let mut tap_fds: Vec<i32> = Vec::new();
            let mut t: usize = 0;
            while t < self.taps.len()
                invariant
                    0 <= t <= self.taps@.len(),
                    tap_fds@ == self.taps@.take(t as int),
                decreases self.taps@.len() - t,
            {
                let fd = self.taps[t];
                tap_fds.push(fd);
                assert(tap_fds@ =~= self.taps@.take(t + 1));
                t = t + 1;
            }
            assert(tap_fds@ =~= self.taps@);
            Some(
                CtrlPlan {
                    queue: queues[queues.len() - 1],
                    event_idx,
                    tap_fds,
                },
            )
        } else {
            None
        };
        let barrier_size = if odd {
            pairs + 2
        } else {
            pairs + 1
        };
        self.paused_sync_size = barrier_size;
        self.activated = true;
        self.worker_count = pairs;
        self.ctrl_worker = odd;
        Ok(ActivationPlan { workers, ctrl, barrier_size })
    }

    /// Parks the device: every worker and the control worker meet the caller
    /// at the pause barrier.
    pub fn pause(&mut self)
        ensures
            *final(self) == (Net { paused: true, ..*old(self) }),
    {
        self.paused = true;
    }

    /// Releases the pause barrier; the workers and their state are untouched.
    pub fn resume(&mut self)
        ensures
            *final(self) == (Net { paused: false, ..*old(self) }),
    {
        self.paused = false;
    }

    /// Stops the workers (the caller writes the kill event and joins the
    /// threads) and returns whether an interrupt object is handed back for
    /// reuse, which is the case iff the device was activated.
    pub fn reset(&mut self) -> (had_interrupt: bool)
        ensures
            had_interrupt == old(self).activated,
            *final(self) == (Net {
                activated: false,
                worker_count: 0,
                ctrl_worker: false,
                ..*old(self)
            }),
    {
        let had = self.activated;
        self.activated = false;
        self.worker_count = 0;
        self.ctrl_worker = false;
        had
    }

    /// Captures the migratable state.
    pub fn state(&self) -> (r: NetState)
        ensures
            snapshot_rel(*self, r),
    {
        let mut queue_size: Vec<u16> = Vec::new();
        let mut i: usize = 0;
        while i < self.queue_sizes.len()
            invariant
                0 <= i <= self.queue_sizes@.len(),
                queue_size@ == self.queue_sizes@.take(i as int),
            decreases self.queue_sizes@.len() - i,
        {
            let s = self.queue_sizes[i];
            queue_size.push(s);
            assert(queue_size@ =~= self.queue_sizes@.take(i + 1));
            i = i + 1;
        }
        assert(queue_size@ =~= self.queue_sizes@);
        NetState {
            avail_features: self.avail_features,
            acked_features: self.acked_features,
            config: self.config,
            queue_size,
        }
    }

    /// Reinstalls a captured state; everything else is untouched and a later
    /// activation rebinds the workers.
    pub fn set_state(&mut self, state: &NetState)
        ensures
            restore_rel(*old(self), *state, *final(self)),
    {
        self.avail_features = state.avail_features;
        self.acked_features = state.acked_features;
        self.config = state.config;
        let mut queue_sizes: Vec<u16> = Vec::new();
        let mut i: usize = 0;
        while i < state.queue_size.len()
            invariant
                0 <= i <= state.queue_size@.len(),
                queue_sizes@ == state.queue_size@.take(i as int),
            decreases state.queue_size@.len() - i,
        {
            let s = state.queue_size[i];
            queue_sizes.push(s);
            assert(queue_sizes@ =~= state.queue_size@.take(i + 1));
            i = i + 1;
        }
        assert(queue_sizes@ =~= state.queue_size@);
        self.queue_sizes = queue_sizes;
    }

    /// The snapshot of the device: its migratable state.
    pub fn snapshot(&self) -> (r: NetState)
        ensures
            snapshot_rel(*self, r),
    {
        self.state()
    }

    /// Restores a snapshot.
    pub fn restore(&mut self, state: &NetState)
        ensures
            restore_rel(*old(self), *state, *final(self)),
    {
        self.set_state(state);
    }
}

/// How many RX/TX pairs a queue count yields (a trailing odd queue is the
/// control queue).
pub open spec fn queue_pair_count(n: int) -> int {
    n / 2
}

/// The plan entry of pair `i`.
pub open spec fn planned_worker(
    queues: Seq<QueueResources>,
    taps: Seq<i32>,
    offload: u32,
    event_idx: bool,
    i: int,
) -> WorkerPlan {
    WorkerPlan {
        pair_index: i as usize,
        tap_fd: taps[i],
        tap_offload: offload,
        rx: queues[2 * i],
        tx: queues[2 * i + 1],
        event_idx,
    }
}

/// What a successful activation establishes: one worker per queue pair in
/// order, each owning the pair's TAP and carrying the negotiated event-index
/// flag and offload set; the control queue detached exactly when the count
/// is odd; the barrier sized to workers, control worker and caller; and the
/// facade marked active.
pub open spec fn activation_rel(
    pre: Net,
    queues: Seq<QueueResources>,
    plan: ActivationPlan,
    post: Net,
) -> bool {
    let pairs = queue_pair_count(queues.len() as int);
    let odd = queues.len() % 2 == 1;
    &&& queues.len() >= pre.min_queues
    &&& (odd ==> feature_set(pre.acked_features, VIRTIO_NET_F_CTRL_VQ))
    &&& pre.taps@.len() == pairs
    &&& plan.workers@.len() == pairs
    &&& (forall|j: int|
        0 <= j < pairs ==> plan.workers@[j] == planned_worker(
            queues,
            pre.taps@,
            tap_offload_of(pre.acked_features),
            feature_set(pre.acked_features, VIRTIO_RING_F_EVENT_IDX),
            j,
        ))
    &&& (odd ==> (plan.ctrl matches Some(c) && c.queue == queues[queues.len() - 1] && c.tap_fds@
        == pre.taps@ && c.event_idx == feature_set(pre.acked_features, VIRTIO_RING_F_EVENT_IDX)))
    &&& (!odd ==> plan.ctrl is None)
    &&& plan.barrier_size == pairs + (if odd {
        2int
    } else {
        1int
    })
    &&& post == (Net {
        paused_sync_size: plan.barrier_size,
        activated: true,
        worker_count: pairs as usize,
        ctrl_worker: odd,
        ..pre
    })
}

/// What a snapshot captures: the feature words, the config space and the
/// queue sizes of the device, verbatim.
pub open spec fn snapshot_rel(d: Net, r: NetState) -> bool {
    &&& r.avail_features == d.avail_features
    &&& r.acked_features == d.acked_features
    &&& r.config == d.config
    &&& r.queue_size@ == d.queue_sizes@
}

/// What a restore reinstalls: the captured feature words, config space and
/// queue sizes; everything else keeps its value.
pub open spec fn restore_rel(pre: Net, s: NetState, post: Net) -> bool {
    &&& post.avail_features == s.avail_features
    &&& post.acked_features == s.acked_features
    &&& post.config == s.config
    &&& post.queue_sizes@ == s.queue_size@
    &&& post.id == pre.id
    &&& post.taps == pre.taps
    &&& post.counters == pre.counters
    &&& post.rate_limiter_config == pre.rate_limiter_config
    &&& post.min_queues == pre.min_queues
    &&& post.paused_sync_size == pre.paused_sync_size
    &&& post.activated == pre.activated
    &&& post.paused == pre.paused
    &&& post.worker_count == pre.worker_count
    &&& post.ctrl_worker == pre.ctrl_worker
}

/// Two states agree as migratable data: same feature words, same config
/// bytes, same queue sizes.
pub open spec fn state_eq(a: NetState, b: NetState) -> bool {
    &&& a.avail_features == b.avail_features
    &&& a.acked_features == b.acked_features
    &&& a.config.bytes() == b.config.bytes()
    &&& a.queue_size@ == b.queue_size@
}

/// Every acknowledged feature bit of a well-formed device is a member of
/// the advertised set.
pub proof fn lemma_acked_bits_are_advertised(d: Net)
    requires
        net_wf(d),
    ensures
        forall|bit: u64|
            bit < 64 ==> ((d.acked_features >> bit) & 1 == 1 ==> (d.avail_features >> bit) & 1
                == 1),
{
    crate::features::lemma_subset_bits(d.acked_features, d.avail_features);
}

/// Restoring a state and snapshotting right away, without an activation in
/// between, yields the state back: feature bits, config bytes and queue
/// sizes round-trip.
pub proof fn lemma_snapshot_restore(pre: Net, s: NetState, mid: Net, out: NetState)
    requires
        restore_rel(pre, s, mid),
        snapshot_rel(mid, out),
    ensures
        state_eq(out, s),
{
}

/// A pause immediately followed by a resume leaves every field of the
/// facade as it was: in particular the worker count and the control worker.
/// The workers themselves, including their `driver_awake` flags, are not
/// touched by either operation.
pub proof fn lemma_pause_resume(pre: Net, mid: Net, post: Net)
    requires
        mid == (Net { paused: true, ..pre }),
        post == (Net { paused: false, ..mid }),
    ensures
        post.worker_count == pre.worker_count,
        post.ctrl_worker == pre.ctrl_worker,
        post == (Net { paused: false, ..pre }),
{
}

/// Every activation with `2N` queues plans exactly `N` workers, and on a
/// well-formed device each planned worker owns a TAP descriptor no other
/// worker has.
pub proof fn lemma_activation_workers_own_distinct_taps(
    pre: Net,
    queues: Seq<QueueResources>,
    plan: ActivationPlan,
    post: Net,
)
    requires
        net_wf(pre),
        activation_rel(pre, queues, plan, post),
    ensures
        plan.workers@.len() == queues.len() / 2,
        forall|i: int, j: int|
            0 <= i < j < plan.workers@.len() ==> plan.workers@[i].tap_fd
                != plan.workers@[j].tap_fd,
{
    assert forall|i: int, j: int| 0 <= i < j < plan.workers@.len() implies plan.workers@[i].tap_fd
        != plan.workers@[j].tap_fd by {
        assert(plan.workers@[i] == planned_worker(
            queues,
            pre.taps@,
            tap_offload_of(pre.acked_features),
            feature_set(pre.acked_features, VIRTIO_RING_F_EVENT_IDX),
            i,
        ));
        assert(plan.workers@[j] == planned_worker(
            queues,
            pre.taps@,
            tap_offload_of(pre.acked_features),
            feature_set(pre.acked_features, VIRTIO_RING_F_EVENT_IDX),
            j,
        ));
    }
}

} // verus!
