//! The vhost-user-fs device facade: negotiation against a backend's offer,
//! the tag config space, activation, and the shared-memory window.

use virtio_net_core::backend::VHOST_USER_F_PROTOCOL_FEATURES;
use virtio_net_core::device::QueueResources;
use virtio_net_core::features::VIRTIO_F_VERSION_1;
use virtio_net_core::fs_device::{
    CacheInfo, Fs, MemoryRegionAction, VirtioDeviceError, VHOST_USER_PROTOCOL_F_SLAVE_REQ,
    VHOST_USER_PROTOCOL_F_SLAVE_SEND_FD,
};

fn cache() -> CacheInfo {
    CacheInfo {
        addr: 0x4000_0000,
        len: 0x100_0000,
        host_addr: 0x7f80_0000,
        mem_slot: 3,
    }
}

fn fs_with(cache: Option<CacheInfo>, backend_protocol: u64) -> Fs {
    Fs::new(
        String::from("fs0"),
        "myfs",
        2,
        1024,
        cache,
        (1u64 << VIRTIO_F_VERSION_1) | (1u64 << VHOST_USER_F_PROTOCOL_FEATURES),
        backend_protocol,
    )
    .ok()
    .unwrap()
}

#[test]
fn negotiation_intersects_with_the_backend_offer() {
    let offered = (1u64 << 0) | (1u64 << 3) | (1u64 << 15) | (1u64 << 5) | (1u64 << 10) | (1u64
        << 9);
    let d = fs_with(Some(cache()), offered);
    assert_eq!(
        d.avail_features,
        (1u64 << VIRTIO_F_VERSION_1) | (1u64 << VHOST_USER_F_PROTOCOL_FEATURES)
    );
    assert_eq!(d.acked_features, 1u64 << VHOST_USER_F_PROTOCOL_FEATURES);
    // Bit 9 is not supported; the slave-channel bits survive with a cache.
    assert_eq!(
        d.acked_protocol_features,
        (1u64 << 0) | (1u64 << 3) | (1u64 << 15) | (1u64 << 5) | (1u64 << 10)
    );
    assert!(d.slave_req_support);
    assert_eq!(d.device_type(), 26);
    assert_eq!(d.queue_max_sizes().len(), 3);
}

#[test]
fn without_a_cache_the_slave_channel_is_masked_out() {
    let offered =
        (1u64 << VHOST_USER_PROTOCOL_F_SLAVE_REQ) | (1u64 << VHOST_USER_PROTOCOL_F_SLAVE_SEND_FD)
            | (1u64 << 0);
    let d = fs_with(None, offered);
    assert_eq!(d.acked_protocol_features, 1u64 << 0);
}

#[test]
fn a_backend_without_the_gate_negotiates_nothing() {
    let d = Fs::new(
        String::from("fs0"),
        "t",
        1,
        128,
        None,
        1u64 << VIRTIO_F_VERSION_1,
        u64::MAX,
    )
    .ok()
    .unwrap();
    assert_eq!(d.avail_features, 1u64 << VIRTIO_F_VERSION_1);
    assert_eq!(d.acked_features, 0);
    assert_eq!(d.acked_protocol_features, 0);
    assert!(!d.slave_req_support);
}

#[test]
fn the_config_space_carries_the_padded_tag_and_queue_count() {
    let d = fs_with(None, 0);
    let mut data = vec![0xffu8; 40];
    d.read_config(0, &mut data);
    let mut expected = b"myfs".to_vec();
    expected.extend_from_slice(&[0u8; 32]);
    expected.extend_from_slice(&[2, 0, 0, 0]);
    assert_eq!(data, expected);
    // Reads beyond the space return zero bytes.
    let mut tail = vec![0xffu8; 4];
    d.read_config(38, &mut tail);
    assert_eq!(tail, vec![0, 0, 0, 0]);
}

#[test]
fn activation_builds_the_slave_handler_exactly_with_cache_and_support() {
    let mut d = fs_with(Some(cache()), 1u64 << VHOST_USER_PROTOCOL_F_SLAVE_REQ);
    let plan = d
        .activate(vec![QueueResources { size: 1024, event_fd: 5 }])
        .ok()
        .unwrap();
    assert_eq!(plan.barrier_size, 2);
    let h = plan.slave_handler.unwrap();
    assert_eq!(h.cache_offset, 0x4000_0000);
    assert_eq!(h.cache_size, 0x100_0000);
    assert_eq!(h.mmap_cache_addr, 0x7f80_0000);
    assert!(d.activated);
    assert!(d.has_guest_memory);

    let mut plain = fs_with(None, 0);
    let plan = plain
        .activate(vec![QueueResources { size: 1024, event_fd: 5 }])
        .ok()
        .unwrap();
    assert!(plan.slave_handler.is_none());
}

#[test]
fn activation_needs_the_minimum_queue_count() {
    let mut d = fs_with(None, 0);
    assert!(d.activate(Vec::new()).is_err());
    assert!(!d.activated);
}

#[test]
fn reset_reports_the_interrupt_and_clears_the_pause() {
    let mut d = fs_with(None, 0);
    d.activate(vec![QueueResources { size: 1024, event_fd: 5 }])
        .ok()
        .unwrap();
    d.pause();
    assert!(d.reset());
    assert!(!d.activated);
    assert!(!d.paused);
    assert!(!d.reset());
}

#[test]
fn shared_memory_regions_follow_the_cache_window() {
    let mut d = fs_with(Some(cache()), 0);
    assert!(d.get_shm_regions().is_some());
    let replacement = CacheInfo {
        addr: 0x5000_0000,
        len: 0x10_0000,
        host_addr: 0x7fa0_0000,
        mem_slot: 4,
    };
    assert!(matches!(d.set_shm_regions(replacement), Ok(())));
    assert_eq!(d.get_shm_regions().unwrap().addr, 0x5000_0000);
    let maps = d.userspace_mappings();
    assert_eq!(maps.len(), 1);
    assert_eq!(maps[0].host_addr, 0x7fa0_0000);
    assert_eq!(maps[0].len, 0x10_0000);
    assert!(!maps[0].mergeable);

    let mut plain = fs_with(None, 0);
    assert!(matches!(
        plain.set_shm_regions(replacement),
        Err(VirtioDeviceError::SetShmRegionsNotSupported)
    ));
    assert!(plain.userspace_mappings().is_empty());
}

#[test]
fn memory_regions_go_through_the_negotiated_path() {
    let mut d = fs_with(None, 1u64 << 15);
    assert!(matches!(d.add_memory_region(), MemoryRegionAction::AddRegion));
    let mut plain = fs_with(None, 0);
    assert!(matches!(plain.add_memory_region(), MemoryRegionAction::Nothing));
    plain
        .activate(vec![QueueResources { size: 128, event_fd: 5 }])
        .ok()
        .unwrap();
    assert!(matches!(
        plain.add_memory_region(),
        MemoryRegionAction::UpdateTable
    ));
    let _ = d.activate(vec![QueueResources { size: 128, event_fd: 5 }]);
}

#[test]
fn acknowledged_fs_features_stay_advertised() {
    let mut d = fs_with(None, 0);
    d.ack_features(u64::MAX);
    assert_eq!(d.acked_features & !d.avail_features, 0);
}
