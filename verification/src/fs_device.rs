//! The vhost-user-fs device facade: feature and protocol-feature
//! negotiation against the backend's offer, the tag configuration space,
//! the shared cache window, and the activation decisions around the
//! slave-request handler. The vhost-user socket handshake itself is the
//! caller's I/O; its results come in as plain feature words.

use vstd::prelude::*;
use vstd::string::StringSliceAdditionalSpecFns;

use crate::backend::{
    VHOST_USER_F_PROTOCOL_FEATURES,
    VHOST_USER_PROTOCOL_F_CONFIGURE_MEM_SLOTS,
    VHOST_USER_PROTOCOL_F_MQ,
    VHOST_USER_PROTOCOL_F_REPLY_ACK,
};
use crate::config_space::{le32, push_le32, read_at, read_config_bytes};
use crate::device::{ActivateError, QueueResources};
use crate::features::{feature_set, VIRTIO_F_VERSION_1};
use crate::slave_req::SlaveReqHandler;

verus! {

/// The virtio device type code of a shared file system device.
pub const VIRTIO_DEVICE_TYPE_FS: u32 = 26;

/// Queues the device has besides the request queues.
pub const NUM_QUEUE_OFFSET: usize = 1;

/// Protocol feature bits used only when a cache window exists.
pub const VHOST_USER_PROTOCOL_F_SLAVE_REQ: u64 = 5;

pub const VHOST_USER_PROTOCOL_F_SLAVE_SEND_FD: u64 = 10;

/// The length of the tag field of the config space.
pub const FS_TAG_LEN: usize = 36;

/// The virtio-fs configuration space: the 36-byte tag and the number of
/// request queues.
pub struct VirtioFsConfig {
    /// The tag, zero-padded to its fixed length.
    pub tag: Vec<u8>,
    pub num_request_queues: u32,
}

impl VirtioFsConfig {
    /// The wire layout of the fs config space.
    pub open spec fn bytes(self) -> Seq<u8> {
        self.tag@ + le32(self.num_request_queues)
    }

    /// The tag field keeps its fixed length.
    pub open spec fn wf(self) -> bool {
        self.tag@.len() == FS_TAG_LEN
    }

    /// Serializes the config space to its guest-visible bytes.
    pub fn to_bytes(&self) -> (r: Vec<u8>)
        ensures
            r@ == self.bytes(),
    {
        let mut out: Vec<u8> = Vec::new();
        let mut i: usize = 0;
        let n = self.tag.len();
        while i < n
            invariant
                0 <= i <= n,
                n == self.tag@.len(),
                out@ == self.tag@.take(i as int),
            decreases n - i,
        {
            let b = self.tag[i];
            out.push(b);
            assert(out@ =~= self.tag@.take(i + 1));
            i = i + 1;
        }
        assert(out@ =~= self.tag@);
        push_le32(&mut out, self.num_request_queues);
        out
    }
}

impl core::default::Default for VirtioFsConfig {
    /// An all-zero tag and no request queues.
    fn default() -> (r: VirtioFsConfig)
        ensures
            r.wf(),
            r.num_request_queues == 0,
            forall|i: int| 0 <= i < FS_TAG_LEN ==> r.tag@[i] == 0u8,
    {
        let mut tag: Vec<u8> = Vec::new();
        let mut i: usize = 0;
        while i < FS_TAG_LEN
            invariant
                0 <= i <= FS_TAG_LEN,
                tag@.len() == i,
                forall|j: int| 0 <= j < i ==> tag@[j] == 0u8,
            decreases FS_TAG_LEN - i,
        {
            tag.push(0);
            i = i + 1;
        }
        VirtioFsConfig { tag, num_request_queues: 0 }
    }
}

/// The shared cache window the device may expose: guest-physical base and
/// length, host virtual base, and the memory slot it occupies.
#[derive(Clone, Copy)]
pub struct CacheInfo {
    pub addr: u64,
    pub len: u64,
    pub host_addr: u64,
    pub mem_slot: u32,
}

/// One region the process has mapped on the guest's behalf.
pub struct UserspaceMapping {
    pub host_addr: u64,
    pub mem_slot: u32,
    pub addr: u64,
    pub len: u64,
    pub mergeable: bool,
}

/// Failures of the device-level operations.
pub enum VirtioDeviceError {
    /// The device was built without a cache window.
    SetShmRegionsNotSupported,
}

/// Which call serves a new guest-memory region: a dedicated add when the
/// backend negotiated configurable memory slots, a full table update while
/// guest memory is bound, or nothing before activation.
pub enum MemoryRegionAction {
    AddRegion,
    UpdateTable,
    Nothing,
}

/// What activating the fs device decides: whether a slave-request handler
/// guards the cache window, and the pause barrier's size (the one worker
/// and the caller).
pub struct FsActivationPlan {
    pub slave_handler: Option<SlaveReqHandler>,
    pub barrier_size: usize,
}

/// The vhost-user-fs device facade.
pub struct Fs {
    pub id: String,
    pub avail_features: u64,
    pub acked_features: u64,
    pub acked_protocol_features: u64,
    pub config: VirtioFsConfig,
    pub queue_sizes: Vec<u16>,
    pub cache: Option<CacheInfo>,
    pub slave_req_support: bool,
    pub min_queues: u16,
    pub paused_sync_size: usize,
    pub activated: bool,
    pub paused: bool,
    /// Guest memory is bound from activation on.
    pub has_guest_memory: bool,
}

/// A cache window that fits the address space at both its addresses.
pub open spec fn cache_wf(c: CacheInfo) -> bool {
    &&& c.addr + c.len <= u64::MAX
    &&& c.host_addr + c.len <= u64::MAX
}

/// The protocol features the device offers the backend: multi-queue,
/// reply-ack and configurable slots, plus the slave channel when a cache
/// window exists.
pub open spec fn fs_supported_protocol_features(has_cache: bool) -> u64 {
    let base = (1u64 << VHOST_USER_PROTOCOL_F_MQ) | (1u64 << VHOST_USER_PROTOCOL_F_REPLY_ACK) | (
    1u64 << VHOST_USER_PROTOCOL_F_CONFIGURE_MEM_SLOTS);
    if has_cache {
        base | (1u64 << VHOST_USER_PROTOCOL_F_SLAVE_REQ) | (1u64
            << VHOST_USER_PROTOCOL_F_SLAVE_SEND_FD)
    } else {
        base
    }
}

impl Fs {
    /// Builds the device from the backend's negotiated words: the advertised
    /// features are the modern transport and the protocol-features gate,
    /// intersected with what the backend offers; when that bit survives, the
    /// protocol features are the intersection of the backend's offer with
    /// what the device supports (the slave channel only with a cache
    /// window), and slave requests are enabled. The tag fills the config
    /// space zero-padded.
    #[verifier::loop_isolation(false)]
    pub fn new(
        id: String,
        tag: &str,
        req_num_queues: usize,
        queue_size: u16,
        cache: Option<CacheInfo>,
        backend_features: u64,
        backend_protocol_features: u64,
    ) -> (r: Result<Fs, VirtioDeviceError>)
        requires
            tag.spec_bytes().len() <= FS_TAG_LEN,
            req_num_queues < usize::MAX,
            req_num_queues <= u32::MAX,
            cache matches Some(c) ==> cache_wf(c),
        ensures
            r matches Ok(d) ==> ({
                let gate = ((1u64 << VIRTIO_F_VERSION_1) | (1u64 << VHOST_USER_F_PROTOCOL_FEATURES))
                    & backend_features;
                &&& d.id@ == id@
                &&& d.avail_features == gate
                &&& (feature_set(gate, VHOST_USER_F_PROTOCOL_FEATURES) ==> d.acked_features == (1u64
                    << VHOST_USER_F_PROTOCOL_FEATURES) && d.acked_protocol_features == (
                backend_protocol_features & fs_supported_protocol_features(cache is Some))
                    && d.slave_req_support == true)
                &&& (!feature_set(gate, VHOST_USER_F_PROTOCOL_FEATURES) ==> d.acked_features == 0
                    && d.acked_protocol_features == 0 && d.slave_req_support == false)
                &&& d.config.wf()
                &&& d.config.tag@.take(tag.spec_bytes().len() as int) == tag.spec_bytes()
                &&& (forall|i: int|
                    tag.spec_bytes().len() <= i < FS_TAG_LEN ==> d.config.tag@[i] == 0u8)
                &&& d.config.num_request_queues == req_num_queues
                &&& d.queue_sizes@ == Seq::new(
                    (NUM_QUEUE_OFFSET + req_num_queues) as nat,
                    |i: int| queue_size,
                )
                &&& d.cache == cache
                &&& d.min_queues == NUM_QUEUE_OFFSET
                &&& d.paused_sync_size == 2
                &&& !d.activated && !d.paused && !d.has_guest_memory
            }),
            r is Ok,
    {
        let num_queues = NUM_QUEUE_OFFSET + req_num_queues;
        let avail_features = ((1u64 << VIRTIO_F_VERSION_1) | (1u64
            << VHOST_USER_F_PROTOCOL_FEATURES)) & backend_features;
        let mut acked_features: u64 = 0;
        let mut acked_protocol_features: u64 = 0;
        let mut slave_req_support = false;
        if avail_features & (1u64 << VHOST_USER_F_PROTOCOL_FEATURES) != 0 {
            acked_features = 1u64 << VHOST_USER_F_PROTOCOL_FEATURES;
            let supported = if cache.is_some() {
                (1u64 << VHOST_USER_PROTOCOL_F_MQ) | (1u64 << VHOST_USER_PROTOCOL_F_REPLY_ACK) | (
                1u64 << VHOST_USER_PROTOCOL_F_CONFIGURE_MEM_SLOTS) | (1u64
                    << VHOST_USER_PROTOCOL_F_SLAVE_REQ) | (1u64
                    << VHOST_USER_PROTOCOL_F_SLAVE_SEND_FD)
            } else {
                (1u64 << VHOST_USER_PROTOCOL_F_MQ) | (1u64 << VHOST_USER_PROTOCOL_F_REPLY_ACK) | (
                1u64 << VHOST_USER_PROTOCOL_F_CONFIGURE_MEM_SLOTS)
            };
            acked_protocol_features = backend_protocol_features & supported;
            slave_req_support = true;
        }
        let tag_bytes = tag.as_bytes();
        let mut config_tag: Vec<u8> = Vec::new();
        let mut i: usize = 0;
        let tag_len = tag_bytes.len();
        while i < tag_len
            invariant
                0 <= i <= tag_len,
                tag_len == tag.spec_bytes().len(),
                config_tag@ == tag.spec_bytes().take(i as int),
            decreases tag_len - i,
        {
            let b = tag_bytes[i];
            config_tag.push(b);
            assert(config_tag@ =~= tag.spec_bytes().take(i + 1));
            i = i + 1;
        }
        assert(config_tag@ =~= tag.spec_bytes());
        while i < FS_TAG_LEN
            invariant
                tag_len <= i <= FS_TAG_LEN,
                tag_len == tag.spec_bytes().len(),
                config_tag@.len() == i,
                config_tag@.take(tag_len as int) == tag.spec_bytes(),
                forall|j: int| tag_len <= j < i ==> config_tag@[j] == 0u8,
            decreases FS_TAG_LEN - i,
        {
            config_tag.push(0);
            assert(config_tag@.take(tag_len as int) =~= tag.spec_bytes());
            i = i + 1;
        }
        let config = VirtioFsConfig { tag: config_tag, num_request_queues: req_num_queues as u32 };
        let mut queue_sizes: Vec<u16> = Vec::new();
        let mut q: usize = 0;
        while q < num_queues
            invariant
                0 <= q <= num_queues,
                queue_sizes@ == Seq::new(q as nat, |j: int| queue_size),
            decreases num_queues - q,
        {
            queue_sizes.push(queue_size);
            assert(queue_sizes@ =~= Seq::new((q + 1) as nat, |j: int| queue_size));
            q = q + 1;
        }
        Ok(
            Fs {
                id,
                avail_features,
                acked_features,
                acked_protocol_features,
                config,
                queue_sizes,
                cache,
                slave_req_support,
                min_queues: NUM_QUEUE_OFFSET as u16,
                paused_sync_size: 2,
                activated: false,
                paused: false,
                has_guest_memory: false,
            },
        )
    }

    /// The device type code.
    pub fn device_type(&self) -> (r: u32)
        ensures
            r == VIRTIO_DEVICE_TYPE_FS,
    {
        VIRTIO_DEVICE_TYPE_FS
    }

    /// The configured maximum size of every queue.
    pub fn queue_max_sizes(&self) -> (r: &Vec<u16>)
        ensures
            r@ == self.queue_sizes@,
    {
        &self.queue_sizes
    }

    /// The advertised feature set.
    pub fn features(&self) -> (r: u64)
        ensures
            r == self.avail_features,
    {
        self.avail_features
    }

    /// The device identifier.
    pub fn id(&self) -> (r: &String)
        ensures
            r@ == self.id@,
    {
        &self.id
    }

    /// Acknowledges the feature bits the guest wrote; unadvertised bits are
    /// dropped.
    pub fn ack_features(&mut self, value: u64)
        ensures
            final(self).acked_features == (old(self).acked_features | (value & old(
                self,
            ).avail_features)),
            *final(self) == (Fs { acked_features: final(self).acked_features, ..*old(self) }),
    {
        self.acked_features = crate::features::apply_ack(
            self.acked_features,
            self.avail_features,
            value,
        );
    }

    /// Copies from the config space into `data`, clipping to its length;
    /// bytes beyond the space read as zero.
    pub fn read_config(&self, offset: u64, data: &mut Vec<u8>)
        ensures
            final(data)@.len() == old(data)@.len(),
            forall|i: int|
                0 <= i < final(data)@.len() ==> final(data)@[i] == read_at(
                    self.config.bytes(),
                    offset as int,
                    i,
                ),
    {
        let bytes = self.config.to_bytes();
        read_config_bytes(&bytes, offset, data);
    }

    /// Validates the handed queues, binds guest memory, and decides the
    /// slave-request handler: one guards the cache window exactly when the
    /// backend negotiated slave requests and a window exists. Fewer queues
    /// than the minimum fail with `BadActivate` and change nothing.
    pub fn activate(&mut self, queues: Vec<QueueResources>) -> (r: Result<
        FsActivationPlan,
        ActivateError,
    >)
        requires
            old(self).cache matches Some(c) ==> cache_wf(c),
        ensures
            queues@.len() < old(self).min_queues ==> (r is Err && *final(self) == *old(self)),
            queues@.len() >= old(self).min_queues ==> (r matches Ok(plan) && ({
                &&& *final(self) == (Fs {
                    activated: true,
                    has_guest_memory: true,
                    ..*old(self)
                })
                &&& plan.barrier_size == 2
                &&& (old(self).slave_req_support && old(self).cache is Some ==> (
                plan.slave_handler matches Some(h) && h == (SlaveReqHandler {
                    cache_offset: old(self).cache->Some_0.addr,
                    cache_size: old(self).cache->Some_0.len,
                    mmap_cache_addr: old(self).cache->Some_0.host_addr,
                })))
                &&& (!(old(self).slave_req_support && old(self).cache is Some)
                    ==> plan.slave_handler is None)
            })),
    {
        if queues.len() < self.min_queues as usize {
            return Err(ActivateError::BadActivate);
        }
        let slave_handler = if self.slave_req_support {
            match &self.cache {
                Some(c) => Some(SlaveReqHandler::create(c.addr, c.len, c.host_addr)),
                None => None,
            }
        } else {
            None
        };
        self.activated = true;
        self.has_guest_memory = true;
        Ok(FsActivationPlan { slave_handler, barrier_size: 2 })
    }

    /// Stops the worker (the caller resumes a paused thread, resets the
    /// vhost-user session and writes the kill event) and reports whether an
    /// interrupt object is handed back, which is the case iff the device
    /// was activated.
    pub fn reset(&mut self) -> (had_interrupt: bool)
        ensures
            had_interrupt == old(self).activated,
            *final(self) == (Fs { activated: false, paused: false, ..*old(self) }),
    {
        let had = self.activated;
        self.activated = false;
        self.paused = false;
        had
    }

    /// The exposed shared-memory window, if any.
    pub fn get_shm_regions(&self) -> (r: Option<CacheInfo>)
        ensures
            r == self.cache,
    {
        match &self.cache {
            Some(c) => Some(*c),
            None => None,
        }
    }

    /// Replaces the shared-memory window; a device built without one cannot
    /// accept one later.
    pub fn set_shm_regions(&mut self, shm_regions: CacheInfo) -> (r: Result<
        (),
        VirtioDeviceError,
    >)
        ensures
            old(self).cache is Some ==> (r is Ok && *final(self) == (Fs {
                cache: Some(shm_regions),
                ..*old(self)
            })),
            old(self).cache is None ==> ((r matches Err(e) && e is SetShmRegionsNotSupported)
                && *final(self) == *old(self)),
    {
        if self.cache.is_some() {
            self.cache = Some(shm_regions);
            Ok(())
        } else {
            Err(VirtioDeviceError::SetShmRegionsNotSupported)
        }
    }

    /// Which call serves a newly added guest-memory region: a dedicated add
    /// when configurable memory slots were negotiated, a full memory-table
    /// update while guest memory is bound, nothing otherwise.
    pub fn add_memory_region(&self) -> (r: MemoryRegionAction)
        ensures
            feature_set(self.acked_protocol_features, VHOST_USER_PROTOCOL_F_CONFIGURE_MEM_SLOTS)
                ==> r is AddRegion,
            !feature_set(self.acked_protocol_features, VHOST_USER_PROTOCOL_F_CONFIGURE_MEM_SLOTS)
                && self.has_guest_memory ==> r is UpdateTable,
            !feature_set(self.acked_protocol_features, VHOST_USER_PROTOCOL_F_CONFIGURE_MEM_SLOTS)
                && !self.has_guest_memory ==> r is Nothing,
    {
        if crate::features::has_feature(
            self.acked_protocol_features,
            VHOST_USER_PROTOCOL_F_CONFIGURE_MEM_SLOTS,
        ) {
            MemoryRegionAction::AddRegion
        } else if self.has_guest_memory {
            MemoryRegionAction::UpdateTable
        } else {
            MemoryRegionAction::Nothing
        }
    }

    /// The regions the process has mapped for the guest: the cache window
    /// when one exists, never mergeable.
    pub fn userspace_mappings(&self) -> (r: Vec<UserspaceMapping>)
        ensures
            self.cache matches Some(c) ==> r@ == seq![
                UserspaceMapping {
                    host_addr: c.host_addr,
                    mem_slot: c.mem_slot,
                    addr: c.addr,
                    len: c.len,
                    mergeable: false,
                },
            ],
            self.cache is None ==> r@.len() == 0,
    {
        let mut mappings: Vec<UserspaceMapping> = Vec::new();
        match &self.cache {
            Some(c) => {
                mappings.push(
                    UserspaceMapping {
                        host_addr: c.host_addr,
                        mem_slot: c.mem_slot,
                        addr: c.addr,
                        len: c.len,
                        mergeable: false,
                    },
                );
                assert(mappings@ =~= seq![
                    UserspaceMapping {
                        host_addr: c.host_addr,
                        mem_slot: c.mem_slot,
                        addr: c.addr,
                        len: c.len,
                        mergeable: false,
                    },
                ]);
            },
            None => {},
        }
        mappings
    }

    /// Parks the worker at the pause barrier.
    pub fn pause(&mut self)
        ensures
            *final(self) == (Fs { paused: true, ..*old(self) }),
    {
        self.paused = true;
    }

    /// Releases the pause barrier.
    pub fn resume(&mut self)
        ensures
            *final(self) == (Fs { paused: false, ..*old(self) }),
    {
        self.paused = false;
    }
}

} // verus!
