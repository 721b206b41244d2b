//! The vhost-user-fs slave-request handler: range validation and the
//! planned map, unmap, sync and io operations.

use virtio_net_core::slave_req::{
    IoTarget, SlaveReqHandler, VhostUserFSSlaveMsg, EFAULT, EINVAL, FS_SLAVE_MAP_W,
    UNMAP_WHOLE_WINDOW,
};

fn empty_msg() -> VhostUserFSSlaveMsg {
    VhostUserFSSlaveMsg {
        cache_offset: [0; 8],
        fd_offset: [0; 8],
        len: [0; 8],
        flags: [0; 8],
    }
}

fn handler() -> SlaveReqHandler {
    // A 64 KiB window at guest physical 0x10000, mapped at 0x7f00_0000.
    SlaveReqHandler::create(0x10000, 0x10000, 0x7f00_0000)
}

#[test]
fn validity_needs_the_range_inside_the_window() {
    let h = handler();
    assert!(h.is_req_valid(0, 0x10000));
    assert!(h.is_req_valid(0xffff, 1));
    assert!(h.is_req_valid(0x100, 0));
    assert!(!h.is_req_valid(0x10000, 0));
    assert!(!h.is_req_valid(0, 0x10001));
    assert!(!h.is_req_valid(0xffff, 2));
    // An overflowing end is never valid.
    assert!(!h.is_req_valid(u64::MAX, 2));
    assert!(!h.is_req_valid(1, u64::MAX));
}

#[test]
fn map_plans_one_fixed_mapping_per_nonempty_entry() {
    let h = handler();
    let mut msg = empty_msg();
    msg.cache_offset[0] = 0x100;
    msg.fd_offset[0] = 0x9000;
    msg.len[0] = 0x200;
    msg.flags[0] = 3;
    msg.cache_offset[3] = 0x4000;
    msg.len[3] = 0x1000;
    let ops = h.fs_slave_map(&msg).ok().unwrap();
    assert_eq!(ops.len(), 2);
    assert_eq!(ops[0].addr, 0x7f00_0000 + 0x100);
    assert_eq!(ops[0].len, 0x200);
    assert_eq!(ops[0].prot_flags, 3);
    assert_eq!(ops[0].fd_offset, 0x9000);
    assert_eq!(ops[1].addr, 0x7f00_0000 + 0x4000);
}

#[test]
fn one_invalid_entry_fails_the_whole_map_request() {
    let h = handler();
    let mut msg = empty_msg();
    msg.cache_offset[0] = 0x100;
    msg.len[0] = 0x200;
    msg.cache_offset[1] = 0xffff;
    msg.len[1] = 2;
    assert!(matches!(h.fs_slave_map(&msg), Err(EINVAL)));
    // An overflowing range is caught the same way, not mapped.
    let mut msg = empty_msg();
    msg.cache_offset[0] = u64::MAX;
    msg.len[0] = 2;
    assert!(matches!(h.fs_slave_map(&msg), Err(EINVAL)));
}

#[test]
fn unmap_sentinel_covers_the_whole_window_in_one_operation() {
    let h = handler();
    let mut msg = empty_msg();
    msg.cache_offset[0] = 0;
    msg.len[0] = UNMAP_WHOLE_WINDOW;
    let ops = h.fs_slave_unmap(&msg).ok().unwrap();
    assert_eq!(ops.len(), 1);
    assert_eq!(ops[0].addr, 0x7f00_0000);
    assert_eq!(ops[0].len, 0x10000);
}

#[test]
fn unmap_validates_the_resolved_length() {
    let h = handler();
    let mut msg = empty_msg();
    msg.cache_offset[0] = 0x8000;
    msg.len[0] = UNMAP_WHOLE_WINDOW;
    // The sentinel resolves to the window size, which no longer fits at
    // that offset.
    assert!(matches!(h.fs_slave_unmap(&msg), Err(EINVAL)));
}

#[test]
fn sync_plans_a_flush_per_nonempty_entry() {
    let h = handler();
    let mut msg = empty_msg();
    msg.cache_offset[2] = 0x800;
    msg.len[2] = 0x100;
    let ops = h.fs_slave_sync(&msg).ok().unwrap();
    assert_eq!(ops.len(), 1);
    assert_eq!(ops[0].addr, 0x7f00_0000 + 0x800);
    assert_eq!(ops[0].len, 0x100);
}

#[test]
fn io_resolves_window_addresses_and_leaves_the_rest_to_guest_memory() {
    let h = handler();
    let mut msg = empty_msg();
    // Inside the window.
    msg.cache_offset[0] = 0x10100;
    msg.fd_offset[0] = 50;
    msg.len[0] = 0x80;
    msg.flags[0] = FS_SLAVE_MAP_W;
    // Outside the window: a plain guest physical address.
    msg.cache_offset[1] = 0x9_0000;
    msg.len[1] = 0x40;
    let ops = h.fs_slave_io(&msg).ok().unwrap();
    assert_eq!(ops.len(), 2);
    assert!(matches!(
        ops[0].target,
        IoTarget::Cache { host_addr: 0x7f00_0100 }
    ));
    assert!(ops[0].write);
    assert_eq!(ops[0].fd_offset, 50);
    assert!(matches!(ops[1].target, IoTarget::Guest { gpa: 0x9_0000 }));
    assert!(!ops[1].write);
}

#[test]
fn io_refuses_a_window_range_that_reaches_the_window_end() {
    let h = handler();
    let mut msg = empty_msg();
    msg.cache_offset[0] = 0x1ff80;
    msg.len[0] = 0x80;
    // The end equals the window end, which the handler treats as a fault.
    assert!(matches!(h.fs_slave_io(&msg), Err(EFAULT)));
}

#[test]
fn config_change_carries_nothing() {
    assert!(matches!(handler().handle_config_change(), Ok(0)));
}
