//! The vhost-user-net backend: geometry, masks, exit events, and event
//! dispatch.

use virtio_net_core::backend::{
    VhostUserNetBackend, BACKEND_RX_QUEUE_EVENT, BACKEND_RX_TAP_EVENT, BACKEND_TX_QUEUE_EVENT,
    VHOST_USER_F_PROTOCOL_FEATURES, VHOST_USER_PROTOCOL_F_CONFIGURE_MEM_SLOTS,
    VHOST_USER_PROTOCOL_F_MQ, VHOST_USER_PROTOCOL_F_REPLY_ACK,
};
use virtio_net_core::backend_config::Error;
use virtio_net_core::ctrl_queue::{CtrlChain, VIRTIO_NET_CTRL_MQ, VIRTIO_NET_OK};
use virtio_net_core::features::{
    VIRTIO_F_VERSION_1, VIRTIO_NET_F_CTRL_VQ, VIRTIO_NET_F_MQ, VIRTIO_RING_F_EVENT_IDX,
};
use virtio_net_core::tap::TapDevice;
use virtio_net_core::virtqueue::{RxChain, TxChain, VIRTIO_NET_HDR_LEN};
use virtio_net_core::worker::QueueSignal;

fn backend() -> VhostUserNetBackend {
    let taps = vec![TapDevice::create(20), TapDevice::create(21)];
    VhostUserNetBackend::new(taps, vec![30, 31, 32], 4, 256)
        .ok()
        .unwrap()
}

#[test]
fn construction_lays_out_threads_and_masks() {
    let b = backend();
    assert_eq!(b.threads.len(), 2);
    assert_eq!(b.num_queues(), 5);
    assert_eq!(b.max_queue_size(), 256);
    assert_eq!(b.queues_per_thread(), vec![0b11, 0b1100, 0b10000]);
    assert_eq!(b.ctrl_thread.id, 2);
    assert_eq!(b.ctrl_thread.ctrl.tap_fds, vec![20, 21]);
    assert_eq!(b.threads[0].net.tap.fd, 20);
    assert_eq!(b.threads[1].net.tap.fd, 21);
    assert_eq!(b.threads[0].kill_fd, 30);
    assert_eq!(b.ctrl_thread.kill_fd, 32);
}

#[test]
fn advertised_features_carry_the_protocol_gate() {
    let b = backend();
    assert_eq!(
        b.features(),
        (1u64 << VIRTIO_F_VERSION_1)
            | (1u64 << VIRTIO_RING_F_EVENT_IDX)
            | (1u64 << VIRTIO_NET_F_CTRL_VQ)
            | (1u64 << VIRTIO_NET_F_MQ)
            | (1u64 << VHOST_USER_F_PROTOCOL_FEATURES)
    );
    assert_eq!(
        b.protocol_features(),
        (1u64 << VHOST_USER_PROTOCOL_F_MQ)
            | (1u64 << VHOST_USER_PROTOCOL_F_REPLY_ACK)
            | (1u64 << VHOST_USER_PROTOCOL_F_CONFIGURE_MEM_SLOTS)
    );
}

#[test]
fn exit_events_sit_after_the_thread_event_tables() {
    let b = backend();
    assert_eq!(b.exit_event(0), Some((30, 3)));
    assert_eq!(b.exit_event(1), Some((31, 3)));
    assert_eq!(b.exit_event(2), Some((32, 1)));
}

#[test]
fn only_input_events_are_served() {
    let mut b = backend();
    assert!(matches!(
        b.handle_event(0, false, 0),
        Err(Error::HandleEventNotEpollIn)
    ));
}

#[test]
fn a_ring_zero_kick_arms_the_tap_listener() {
    let mut b = backend();
    assert!(!b.threads[0].net.rx_tap_listening);
    let r = b.handle_event(BACKEND_RX_QUEUE_EVENT, true, 0);
    assert!(matches!(r, Ok(false)));
    assert!(b.threads[0].net.rx_tap_listening);
    assert!(!b.threads[1].net.rx_tap_listening);
}

#[test]
fn a_ring_one_kick_sends_frames_and_signals_the_vring() {
    let mut b = backend();
    let mut bytes = vec![0u8; VIRTIO_NET_HDR_LEN];
    bytes.extend_from_slice(b"payload");
    b.threads[1].tx_queue.avail.push(TxChain { head: 0, bytes });
    let r = b.handle_event(BACKEND_TX_QUEUE_EVENT, true, 1);
    assert!(matches!(r, Ok(false)));
    assert_eq!(b.threads[1].net.tap.written, vec![b"payload".to_vec()]);
    assert_eq!(b.threads[1].tx_queue.used.len(), 1);
    assert_eq!(b.threads[1].signals.len(), 1);
    assert!(matches!(b.threads[1].signals[0], QueueSignal::TxUsed));
    // A kick with nothing to send signals nothing.
    let r = b.handle_event(BACKEND_TX_QUEUE_EVENT, true, 1);
    assert!(matches!(r, Ok(false)));
    assert_eq!(b.threads[1].signals.len(), 1);
}

#[test]
fn tap_readability_fills_the_rx_ring() {
    let mut b = backend();
    b.threads[0].net.tap.readable.push(b"frame".to_vec());
    b.threads[0].rx_queue.avail.push(RxChain { head: 9, capacity: 4096 });
    let r = b.handle_event(BACKEND_RX_TAP_EVENT, true, 0);
    assert!(matches!(r, Ok(false)));
    assert_eq!(b.threads[0].rx_queue.used.len(), 1);
    assert_eq!(b.threads[0].rx_queue.used[0].head, 9);
    assert_eq!(
        b.threads[0].rx_queue.used[0].len as usize,
        5 + VIRTIO_NET_HDR_LEN
    );
    assert!(matches!(b.threads[0].signals[0], QueueSignal::RxUsed));
}

#[test]
fn unknown_ring_events_err() {
    let mut b = backend();
    assert!(matches!(
        b.handle_event(7, true, 0),
        Err(Error::HandleEventUnknownEvent)
    ));
    assert!(matches!(
        b.handle_event(1, true, 2),
        Err(Error::HandleEventUnknownEvent)
    ));
}

#[test]
fn the_control_thread_serves_its_queue() {
    let mut b = backend();
    b.ctrl_thread.vring.avail.push(CtrlChain {
        head: 4,
        data: vec![VIRTIO_NET_CTRL_MQ, 0, 1, 0],
    });
    let r = b.handle_event(0, true, 2);
    assert!(matches!(r, Ok(false)));
    assert_eq!(b.ctrl_thread.ctrl.enabled_pairs, 1);
    assert_eq!(b.ctrl_thread.vring.acks, vec![VIRTIO_NET_OK]);
    // The served chain is published to the used ring.
    assert_eq!(b.ctrl_thread.vring.used.len(), 1);
    assert_eq!(b.ctrl_thread.vring.used[0].head, 4);
    assert_eq!(b.ctrl_thread.vring.used[0].len, 1);
    assert_eq!(b.ctrl_thread.vring.used_idx, 1);
    assert!(b.ctrl_thread.vring.avail.is_empty());
}

#[test]
fn startup_wants_one_vring_worker_per_thread() {
    let b = backend();
    assert!(b.vring_workers_valid(3));
    assert!(!b.vring_workers_valid(2));
    assert!(!b.vring_workers_valid(4));
}

#[test]
fn update_memory_swaps_the_generation_for_everyone() {
    let mut b = backend();
    assert!(b.mem.is_none());
    assert!(matches!(b.update_memory(7), Ok(())));
    assert_eq!(b.mem, Some(7));
    assert!(matches!(b.update_memory(8), Ok(())));
    assert_eq!(b.mem, Some(8));
}

#[test]
fn an_odd_queue_count_rounds_up_to_a_whole_pair() {
    let taps = vec![
        TapDevice::create(20),
        TapDevice::create(21),
        TapDevice::create(22),
    ];
    let b = VhostUserNetBackend::new(taps, vec![30, 31, 32, 33], 5, 256)
        .ok()
        .unwrap();
    // Five requested queues round up to six: three pairs, and the control
    // ring sits past them all.
    assert_eq!(b.threads.len(), 3);
    assert_eq!(b.num_queues(), 7);
    assert_eq!(b.queues_per_thread(), vec![0b11, 0b1100, 0b110000, 0b1000000]);
}
