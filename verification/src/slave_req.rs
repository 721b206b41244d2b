//! The vhost-user-fs slave-request handler: validates cache-window requests
//! from an untrusted backend and plans the fixed-address mappings, syncs and
//! file transfers they call for. The syscalls themselves (mmap, msync,
//! pread, pwrite) are the caller's to perform, one planned operation at a
//! time; a request with any invalid range plans nothing and returns the
//! matching OS error code.

use vstd::prelude::*;

verus! {

/// Entries carried by one slave request.
pub const VHOST_USER_FS_SLAVE_ENTRIES: usize = 8;

/// OS error code for an invalid request range.
pub const EINVAL: i32 = 22;

/// OS error code for an address outside every known region.
pub const EFAULT: i32 = 14;

/// Flag bit marking an entry writable (for io requests: data flows from
/// guest memory to the file).
pub const FS_SLAVE_MAP_W: u64 = 2;

/// An all-ones length asks to unmap the whole cache window.
pub const UNMAP_WHOLE_WINDOW: u64 = 0xffff_ffff_ffff_ffff;

/// One slave request: up to eight independent entries, each a cache-window
/// range, a file range and flags.
pub struct VhostUserFSSlaveMsg {
    pub cache_offset: [u64; 8],
    pub fd_offset: [u64; 8],
    pub len: [u64; 8],
    pub flags: [u64; 8],
}

/// A planned shared file mapping at a fixed host address.
pub struct MapOp {
    pub addr: u64,
    pub len: u64,
    pub prot_flags: u64,
    pub fd_offset: u64,
}

/// A planned anonymous `PROT_NONE` mapping that tears a range down.
pub struct UnmapOp {
    pub addr: u64,
    pub len: u64,
}

/// A planned synchronous flush of a mapped range.
pub struct SyncOp {
    pub addr: u64,
    pub len: u64,
}

/// Where one io transfer touches memory: a resolved host address inside the
/// cache window, or a guest physical address the caller translates through
/// guest memory.
pub enum IoTarget {
    Cache { host_addr: u64 },
    Guest { gpa: u64 },
}

/// One planned file transfer: `len` bytes at `fd_offset`, written to the
/// file when `write` is set, read from it otherwise. Short transfers loop
/// and an early end of file is an error, both at the caller.
pub struct IoOp {
    pub target: IoTarget,
    pub fd_offset: u64,
    pub len: u64,
    pub write: bool,
}

/// The handler: the guest-physical base and size of the shared cache
/// window, and the host virtual address it is mapped at.
pub struct SlaveReqHandler {
    pub cache_offset: u64,
    pub cache_size: u64,
    pub mmap_cache_addr: u64,
}

/// The window fits the address space at both its addresses.
pub open spec fn handler_wf(h: SlaveReqHandler) -> bool {
    &&& h.cache_offset + h.cache_size <= u64::MAX
    &&& h.mmap_cache_addr + h.cache_size <= u64::MAX
}

/// A range is valid for the window iff its end does not overflow or pass
/// the window's size and it starts inside the window.
pub open spec fn req_valid(cache_size: u64, offset: u64, len: u64) -> bool {
    &&& offset + len <= cache_size
    &&& offset < cache_size
}

impl SlaveReqHandler {
    /// A handler over the given cache window.
    pub fn create(cache_offset: u64, cache_size: u64, mmap_cache_addr: u64) -> (r:
        SlaveReqHandler)
        requires
            cache_offset + cache_size <= u64::MAX,
            mmap_cache_addr + cache_size <= u64::MAX,
        ensures
            r == (SlaveReqHandler { cache_offset, cache_size, mmap_cache_addr }),
            handler_wf(r),
    {
        SlaveReqHandler { cache_offset, cache_size, mmap_cache_addr }
    }

    /// Whether a requested range lies within the cache window: false
    /// whenever `offset + len` overflows, starts at or past the window's
    /// size, or ends past it.
    pub fn is_req_valid(&self, offset: u64, len: u64) -> (r: bool)
        ensures
            r == req_valid(self.cache_size, offset, len),
    {
        if len > u64::MAX - offset {
            return false;
        }
        let end = offset + len;
        !(offset >= self.cache_size || end > self.cache_size)
    }

    /// A configuration-change notification carries nothing to validate.
    pub fn handle_config_change(&self) -> (r: Result<u64, i32>)
        ensures
            r == Ok::<u64, i32>(0u64),
    {
        Ok(0)
    }

    /// Plans the mappings of a map request: every entry with a non-zero
    /// length becomes a shared fixed mapping of the file range at the
    /// window address, in entry order; one invalid range fails the whole
    /// request with EINVAL and plans nothing for the caller to run.
    #[verifier::loop_isolation(false)]
    pub fn fs_slave_map(&self, fs: &VhostUserFSSlaveMsg) -> (r: Result<Vec<MapOp>, i32>)
        requires
            handler_wf(*self),
        ensures
            r matches Ok(ops) ==> map_entries_ok(*self, *fs, VHOST_USER_FS_SLAVE_ENTRIES as int)
                && ops@ == map_ops(*self, *fs, VHOST_USER_FS_SLAVE_ENTRIES as int),
            r matches Err(e) ==> e == EINVAL && !map_entries_ok(
                *self,
                *fs,
                VHOST_USER_FS_SLAVE_ENTRIES as int,
            ),
    {
        let mut ops: Vec<MapOp> = Vec::new();
        let mut i: usize = 0;
        while i < VHOST_USER_FS_SLAVE_ENTRIES
            invariant
                0 <= i <= VHOST_USER_FS_SLAVE_ENTRIES,
                map_entries_ok(*self, *fs, i as int),
                ops@ == map_ops(*self, *fs, i as int),
            decreases VHOST_USER_FS_SLAVE_ENTRIES - i,
        {
            let len = fs.len[i];
            if len != 0 {
                let offset = fs.cache_offset[i];
                if !self.is_req_valid(offset, len) {
                    return Err(EINVAL);
                }
                ops.push(
                    MapOp {
                        addr: self.mmap_cache_addr + offset,
                        len,
                        prot_flags: fs.flags[i],
                        fd_offset: fs.fd_offset[i],
                    },
                );
            }
            i = i + 1;
        }
        Ok(ops)
    }

    /// Plans the teardown of an unmap request: every entry with a non-zero
    /// length becomes one anonymous fixed mapping over its range, where an
    /// all-ones length means the whole window; an invalid range fails the
    /// request with EINVAL.
    #[verifier::loop_isolation(false)]
    pub fn fs_slave_unmap(&self, fs: &VhostUserFSSlaveMsg) -> (r: Result<Vec<UnmapOp>, i32>)
        requires
            handler_wf(*self),
        ensures
            r matches Ok(ops) ==> unmap_entries_ok(*self, *fs, VHOST_USER_FS_SLAVE_ENTRIES as int)
                && ops@ == unmap_ops(*self, *fs, VHOST_USER_FS_SLAVE_ENTRIES as int),
            r matches Err(e) ==> e == EINVAL && !unmap_entries_ok(
                *self,
                *fs,
                VHOST_USER_FS_SLAVE_ENTRIES as int,
            ),
    {
        let mut ops: Vec<UnmapOp> = Vec::new();
        let mut i: usize = 0;
        while i < VHOST_USER_FS_SLAVE_ENTRIES
            invariant
                0 <= i <= VHOST_USER_FS_SLAVE_ENTRIES,
                unmap_entries_ok(*self, *fs, i as int),
                ops@ == unmap_ops(*self, *fs, i as int),
            decreases VHOST_USER_FS_SLAVE_ENTRIES - i,
        {
            let mut len = fs.len[i];
            if len != 0 {
                if len == UNMAP_WHOLE_WINDOW {
                    len = self.cache_size;
                }
                let offset = fs.cache_offset[i];
                if !self.is_req_valid(offset, len) {
                    return Err(EINVAL);
                }
                ops.push(UnmapOp { addr: self.mmap_cache_addr + offset, len });
            }
            i = i + 1;
        }
        Ok(ops)
    }

    /// Plans the flushes of a sync request: every entry with a non-zero
    /// length becomes one synchronous flush of its mapped range; an invalid
    /// range fails the request with EINVAL.
    #[verifier::loop_isolation(false)]
    pub fn fs_slave_sync(&self, fs: &VhostUserFSSlaveMsg) -> (r: Result<Vec<SyncOp>, i32>)
        requires
            handler_wf(*self),
        ensures
            r matches Ok(ops) ==> map_entries_ok(*self, *fs, VHOST_USER_FS_SLAVE_ENTRIES as int)
                && ops@ == sync_ops(*self, *fs, VHOST_USER_FS_SLAVE_ENTRIES as int),
            r matches Err(e) ==> e == EINVAL && !map_entries_ok(
                *self,
                *fs,
                VHOST_USER_FS_SLAVE_ENTRIES as int,
            ),
    {
        let mut ops: Vec<SyncOp> = Vec::new();
        let mut i: usize = 0;
        while i < VHOST_USER_FS_SLAVE_ENTRIES
            invariant
                0 <= i <= VHOST_USER_FS_SLAVE_ENTRIES,
                map_entries_ok(*self, *fs, i as int),
                ops@ == sync_ops(*self, *fs, i as int),
            decreases VHOST_USER_FS_SLAVE_ENTRIES - i,
        {
            let len = fs.len[i];
            if len != 0 {
                let offset = fs.cache_offset[i];
                if !self.is_req_valid(offset, len) {
                    return Err(EINVAL);
                }
                ops.push(SyncOp { addr: self.mmap_cache_addr + offset, len });
            }
            i = i + 1;
        }
        Ok(ops)
    }

    /// Plans the transfers of an io request: every entry with a non-zero
    /// length resolves to the cache window when its guest address lies
    /// inside it — requiring the range's end to stay strictly inside the
    /// window, else EFAULT — and to a guest-memory translation otherwise.
    #[verifier::loop_isolation(false)]
    pub fn fs_slave_io(&self, fs: &VhostUserFSSlaveMsg) -> (r: Result<Vec<IoOp>, i32>)
        requires
            handler_wf(*self),
        ensures
            r matches Ok(ops) ==> io_entries_ok(*self, *fs, VHOST_USER_FS_SLAVE_ENTRIES as int)
                && ops@ == io_ops(*self, *fs, VHOST_USER_FS_SLAVE_ENTRIES as int),
            r matches Err(e) ==> e == EFAULT && !io_entries_ok(
                *self,
                *fs,
                VHOST_USER_FS_SLAVE_ENTRIES as int,
            ),
    {
        let mut ops: Vec<IoOp> = Vec::new();
        let mut i: usize = 0;
        while i < VHOST_USER_FS_SLAVE_ENTRIES
            invariant
                0 <= i <= VHOST_USER_FS_SLAVE_ENTRIES,
                io_entries_ok(*self, *fs, i as int),
                ops@ == io_ops(*self, *fs, i as int),
            decreases VHOST_USER_FS_SLAVE_ENTRIES - i,
        {
            let len = fs.len[i];
            if len != 0 {
                let gpa = fs.cache_offset[i];
                let cache_end = self.cache_offset + self.cache_size;
                let in_window = gpa >= self.cache_offset && gpa < cache_end;
                let target = if in_window {
                    if len > u64::MAX - gpa {
                        return Err(EFAULT);
                    }
                    let end = gpa + len;
                    if end >= cache_end {
                        return Err(EFAULT);
                    }
                    IoTarget::Cache { host_addr: self.mmap_cache_addr + (gpa - self.cache_offset) }
                } else {
                    IoTarget::Guest { gpa }
                };
                let write = fs.flags[i] & FS_SLAVE_MAP_W == FS_SLAVE_MAP_W;
                ops.push(IoOp { target, fd_offset: fs.fd_offset[i], len, write });
            }
            i = i + 1;
        }
        Ok(ops)
    }
}

/// Every non-empty entry among the first `k` lies within the window.
pub open spec fn map_entries_ok(h: SlaveReqHandler, fs: VhostUserFSSlaveMsg, k: int) -> bool {
    forall|i: int|
        0 <= i < k && #[trigger] fs.len@[i] != 0 ==> req_valid(
            h.cache_size,
            fs.cache_offset@[i],
            fs.len@[i],
        )
}

/// The planned mappings of the first `k` entries, zero-length entries
/// skipped.
pub open spec fn map_ops(h: SlaveReqHandler, fs: VhostUserFSSlaveMsg, k: int) -> Seq<MapOp>
    decreases k,
{
    if k <= 0 {
        Seq::empty()
    } else {
        let rest = map_ops(h, fs, k - 1);
        if fs.len@[k - 1] == 0 {
            rest
        } else {
            rest.push(
                MapOp {
                    addr: (h.mmap_cache_addr + fs.cache_offset@[k - 1]) as u64,
                    len: fs.len@[k - 1],
                    prot_flags: fs.flags@[k - 1],
                    fd_offset: fs.fd_offset@[k - 1],
                },
            )
        }
    }
}

/// The length an unmap entry asks for: all-ones means the whole window.
pub open spec fn unmap_len(h: SlaveReqHandler, len: u64) -> u64 {
    if len == UNMAP_WHOLE_WINDOW {
        h.cache_size
    } else {
        len
    }
}

/// Every non-empty unmap entry among the first `k`, its sentinel resolved,
/// lies within the window.
pub open spec fn unmap_entries_ok(h: SlaveReqHandler, fs: VhostUserFSSlaveMsg, k: int) -> bool {
    forall|i: int|
        0 <= i < k && #[trigger] fs.len@[i] != 0 ==> req_valid(
            h.cache_size,
            fs.cache_offset@[i],
            unmap_len(h, fs.len@[i]),
        )
}

/// The planned teardowns of the first `k` entries.
pub open spec fn unmap_ops(h: SlaveReqHandler, fs: VhostUserFSSlaveMsg, k: int) -> Seq<UnmapOp>
    decreases k,
{
    if k <= 0 {
        Seq::empty()
    } else {
        let rest = unmap_ops(h, fs, k - 1);
        if fs.len@[k - 1] == 0 {
            rest
        } else {
            rest.push(
                UnmapOp {
                    addr: (h.mmap_cache_addr + fs.cache_offset@[k - 1]) as u64,
                    len: unmap_len(h, fs.len@[k - 1]),
                },
            )
        }
    }
}

/// The planned flushes of the first `k` entries.
pub open spec fn sync_ops(h: SlaveReqHandler, fs: VhostUserFSSlaveMsg, k: int) -> Seq<SyncOp>
    decreases k,
{
    if k <= 0 {
        Seq::empty()
    } else {
        let rest = sync_ops(h, fs, k - 1);
        if fs.len@[k - 1] == 0 {
            rest
        } else {
            rest.push(
                SyncOp {
                    addr: (h.mmap_cache_addr + fs.cache_offset@[k - 1]) as u64,
                    len: fs.len@[k - 1],
                },
            )
        }
    }
}

/// Whether a guest address lies in the cache window.
pub open spec fn in_window(h: SlaveReqHandler, gpa: u64) -> bool {
    h.cache_offset <= gpa < h.cache_offset + h.cache_size
}

/// Every non-empty io entry among the first `k` that lies in the window
/// ends strictly inside it (entries outside the window are the caller's
/// guest-memory translation to refuse or serve).
pub open spec fn io_entries_ok(h: SlaveReqHandler, fs: VhostUserFSSlaveMsg, k: int) -> bool {
    forall|i: int|
        0 <= i < k && #[trigger] fs.len@[i] != 0 && in_window(h, fs.cache_offset@[i])
            ==> fs.cache_offset@[i] + fs.len@[i] < h.cache_offset + h.cache_size
}

/// The planned transfers of the first `k` entries.
pub open spec fn io_ops(h: SlaveReqHandler, fs: VhostUserFSSlaveMsg, k: int) -> Seq<IoOp>
    decreases k,
{
    if k <= 0 {
        Seq::empty()
    } else {
        let rest = io_ops(h, fs, k - 1);
        if fs.len@[k - 1] == 0 {
            rest
        } else {
            rest.push(
                IoOp {
                    target: if in_window(h, fs.cache_offset@[k - 1]) {
                        IoTarget::Cache {
                            host_addr: (h.mmap_cache_addr + (fs.cache_offset@[k - 1]
                                - h.cache_offset)) as u64,
                        }
                    } else {
                        IoTarget::Guest { gpa: fs.cache_offset@[k - 1] }
                    },
                    fd_offset: fs.fd_offset@[k - 1],
                    len: fs.len@[k - 1],
                    write: fs.flags@[k - 1] & FS_SLAVE_MAP_W == FS_SLAVE_MAP_W,
                },
            )
        }
    }
}

/// No mapping is attempted for an out-of-window range: a map request with
/// any invalid non-empty entry plans no operation at all.
pub proof fn lemma_invalid_request_plans_nothing(
    h: SlaveReqHandler,
    fs: VhostUserFSSlaveMsg,
    r: Result<Vec<MapOp>, i32>,
)
    requires
        !map_entries_ok(h, fs, VHOST_USER_FS_SLAVE_ENTRIES as int),
        r matches Ok(ops) ==> map_entries_ok(h, fs, VHOST_USER_FS_SLAVE_ENTRIES as int) && ops@
            == map_ops(h, fs, VHOST_USER_FS_SLAVE_ENTRIES as int),
        r matches Err(e) ==> e == EINVAL,
    ensures
        r matches Err(e) && e == EINVAL,
{
}

} // verus!
