//! The virtio-net device facade: construction, feature negotiation,
//! activation planning, config-space reads, snapshot and restore.

use virtio_net_core::config_space::VirtioNetConfig;
use virtio_net_core::device::{ActivateError, MacAddr, Net, NetState, QueueResources};
use virtio_net_core::features;

fn queue_resources(n: usize) -> Vec<QueueResources> {
    let mut v = Vec::new();
    let mut i = 0;
    while i < n {
        v.push(QueueResources {
            size: 256,
            event_fd: 100 + i as i32,
        });
        i += 1;
    }
    v
}

fn two_pair_device() -> Net {
    Net::new_with_tap(
        String::from("net0"),
        vec![10, 11],
        None,
        false,
        4,
        256,
        None,
    )
    .ok()
    .unwrap()
}

#[test]
fn advertised_features_match_the_fixed_set() {
    let d = two_pair_device();
    let expected: u64 = (1u64 << features::VIRTIO_NET_F_CSUM)
        | (1u64 << features::VIRTIO_NET_F_CTRL_GUEST_OFFLOADS)
        | (1u64 << features::VIRTIO_NET_F_GUEST_CSUM)
        | (1u64 << features::VIRTIO_NET_F_GUEST_ECN)
        | (1u64 << features::VIRTIO_NET_F_GUEST_TSO4)
        | (1u64 << features::VIRTIO_NET_F_GUEST_TSO6)
        | (1u64 << features::VIRTIO_NET_F_GUEST_UFO)
        | (1u64 << features::VIRTIO_NET_F_HOST_ECN)
        | (1u64 << features::VIRTIO_NET_F_HOST_TSO4)
        | (1u64 << features::VIRTIO_NET_F_HOST_TSO6)
        | (1u64 << features::VIRTIO_NET_F_HOST_UFO)
        | (1u64 << features::VIRTIO_RING_F_EVENT_IDX)
        | (1u64 << features::VIRTIO_F_VERSION_1)
        | (1u64 << features::VIRTIO_NET_F_CTRL_VQ)
        | (1u64 << features::VIRTIO_NET_F_MQ);
    assert_eq!(d.features(), expected);
    assert_eq!(d.device_type(), 1);
    assert_eq!(d.queue_max_sizes().len(), 5);
    assert_eq!(d.config.max_virtqueue_pairs, 2);
}

#[test]
fn iommu_adds_its_platform_bit() {
    let with = Net::new_with_tap(String::from("n"), vec![3], None, true, 2, 128, None)
        .ok()
        .unwrap();
    let without = Net::new_with_tap(String::from("n"), vec![3], None, false, 2, 128, None)
        .ok()
        .unwrap();
    assert_eq!(
        with.features(),
        without.features() | (1u64 << features::VIRTIO_F_IOMMU_PLATFORM)
    );
}

#[test]
fn guest_mac_enters_config_space_and_feature_set() {
    let mac = MacAddr {
        bytes: [0x12, 0x34, 0x56, 0x78, 0x9a, 0xbc],
    };
    let d = Net::new_with_tap(String::from("n"), vec![3], Some(mac), false, 2, 128, None)
        .ok()
        .unwrap();
    assert_eq!(d.config.mac, [0x12, 0x34, 0x56, 0x78, 0x9a, 0xbc]);
    assert_ne!(d.features() & (1u64 << features::VIRTIO_NET_F_MAC), 0);
}

#[test]
fn acknowledged_bits_stay_inside_the_advertised_set() {
    let mut d = two_pair_device();
    // Bit 3 (MTU) is never advertised; bit 17 (CTRL_VQ) is.
    d.ack_features((1u64 << 3) | (1u64 << 17));
    assert_eq!(d.acked_features, 1u64 << 17);
    assert_eq!(d.acked_features & !d.avail_features, 0);
}

#[test]
fn activate_with_four_queues_and_ctrl_vq_plans_two_workers_and_a_barrier_of_four() {
    let mut d = two_pair_device();
    d.ack_features(
        (1u64 << features::VIRTIO_NET_F_CTRL_VQ) | (1u64 << features::VIRTIO_RING_F_EVENT_IDX),
    );
    let plan = d.activate(queue_resources(5)).ok().unwrap();
    assert_eq!(plan.workers.len(), 2);
    assert_eq!(plan.barrier_size, 4);
    assert!(plan.ctrl.is_some());
    let ctrl = plan.ctrl.unwrap();
    assert_eq!(ctrl.queue.event_fd, 104);
    assert_eq!(ctrl.tap_fds, vec![10, 11]);
    // Each worker owns a distinct TAP and its own RX/TX pair, in order.
    assert_eq!(plan.workers[0].tap_fd, 10);
    assert_eq!(plan.workers[1].tap_fd, 11);
    assert_ne!(plan.workers[0].tap_fd, plan.workers[1].tap_fd);
    assert_eq!(plan.workers[0].rx.event_fd, 100);
    assert_eq!(plan.workers[0].tx.event_fd, 101);
    assert_eq!(plan.workers[1].rx.event_fd, 102);
    assert_eq!(plan.workers[1].tx.event_fd, 103);
    assert!(plan.workers[0].event_idx);
    assert!(d.activated);
    assert_eq!(d.worker_count, 2);
    assert_eq!(d.paused_sync_size, 4);
}

#[test]
fn activate_without_ctrl_vq_keeps_an_even_split() {
    let mut d = two_pair_device();
    let plan = d.activate(queue_resources(4)).ok().unwrap();
    assert_eq!(plan.workers.len(), 2);
    assert!(plan.ctrl.is_none());
    assert_eq!(plan.barrier_size, 3);
}

#[test]
fn activate_rejects_too_few_odd_and_mismatched_queues() {
    let mut d = two_pair_device();
    assert!(matches!(
        d.activate(queue_resources(1)),
        Err(ActivateError::BadActivate)
    ));
    // Odd count without CTRL_VQ acknowledged.
    assert!(matches!(
        d.activate(queue_resources(5)),
        Err(ActivateError::BadActivate)
    ));
    // Six queues would need three TAPs; the device owns two.
    assert!(matches!(
        d.activate(queue_resources(6)),
        Err(ActivateError::BadActivate)
    ));
    assert!(!d.activated);
}

#[test]
fn tap_offload_follows_the_acknowledged_guest_bits() {
    let acked = (1u64 << features::VIRTIO_NET_F_GUEST_CSUM)
        | (1u64 << features::VIRTIO_NET_F_GUEST_TSO4)
        | (1u64 << features::VIRTIO_NET_F_GUEST_UFO);
    assert_eq!(
        features::virtio_features_to_tap_offload(acked),
        features::TAP_F_CSUM | features::TAP_F_TSO4 | features::TAP_F_UFO
    );
    assert_eq!(features::virtio_features_to_tap_offload(0), 0);
    // Host-side offload bits contribute nothing.
    assert_eq!(
        features::virtio_features_to_tap_offload(1u64 << features::VIRTIO_NET_F_HOST_TSO4),
        0
    );
}

#[test]
fn read_config_copies_in_range_and_zeroes_beyond() {
    let mac = MacAddr {
        bytes: [1, 2, 3, 4, 5, 6],
    };
    let d = Net::new_with_tap(String::from("n"), vec![3], Some(mac), false, 4, 128, None)
        .ok()
        .unwrap();
    let mut data = vec![0xffu8; 12];
    d.read_config(0, &mut data);
    // MAC, status, max pairs (2), MTU, little-endian.
    assert_eq!(data, vec![1, 2, 3, 4, 5, 6, 0, 0, 2, 0, 0, 0]);
    let mut tail = vec![0xffu8; 4];
    d.read_config(10, &mut tail);
    assert_eq!(tail, vec![0, 0, 0, 0]);
    let mut beyond = vec![0xffu8; 3];
    d.read_config(100, &mut beyond);
    assert_eq!(beyond, vec![0, 0, 0]);
}

#[test]
fn snapshot_after_restore_returns_the_state() {
    let mut d = two_pair_device();
    let state = NetState {
        avail_features: 0xdead,
        acked_features: 0x0ead,
        config: VirtioNetConfig {
            mac: [9, 8, 7, 6, 5, 4],
            status: 1,
            max_virtqueue_pairs: 3,
            mtu: 1500,
        },
        queue_size: vec![128, 128, 128],
    };
    d.restore(&state);
    let out = d.snapshot();
    assert_eq!(out.avail_features, 0xdead);
    assert_eq!(out.acked_features, 0x0ead);
    assert_eq!(out.config.mac, [9, 8, 7, 6, 5, 4]);
    assert_eq!(out.config.mtu, 1500);
    assert_eq!(out.queue_size, vec![128, 128, 128]);
}

#[test]
fn pause_then_resume_preserves_worker_count() {
    let mut d = two_pair_device();
    d.ack_features(1u64 << features::VIRTIO_NET_F_CTRL_VQ);
    d.activate(queue_resources(5)).ok().unwrap();
    let workers = d.worker_count;
    d.pause();
    assert!(d.paused);
    d.resume();
    assert!(!d.paused);
    assert_eq!(d.worker_count, workers);
    assert!(d.ctrl_worker);
}

#[test]
fn reset_returns_the_interrupt_exactly_when_activated() {
    let mut d = two_pair_device();
    assert!(!d.reset());
    d.activate(queue_resources(4)).ok().unwrap();
    assert!(d.reset());
    assert!(!d.activated);
    assert_eq!(d.worker_count, 0);
}

#[test]
fn counters_start_zeroed() {
    let d = two_pair_device();
    let c = d.counters();
    assert_eq!(c.rx_bytes, 0);
    assert_eq!(c.rx_frames, 0);
    assert_eq!(c.tx_bytes, 0);
    assert_eq!(c.tx_frames, 0);
}
