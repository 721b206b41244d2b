//! The control queue: multi-queue pair activation, offload reprogramming,
//! and the one-byte acknowledgements.

use virtio_net_core::ctrl_queue::{
    CtrlChain, CtrlQueue, CtrlVring, VIRTIO_NET_CTRL_GUEST_OFFLOADS, VIRTIO_NET_CTRL_MQ,
    VIRTIO_NET_ERR, VIRTIO_NET_OK,
};
use virtio_net_core::features::{TAP_F_CSUM, TAP_F_TSO4};

fn vring_with(chains: Vec<CtrlChain>) -> CtrlVring {
    CtrlVring {
        avail: chains,
        used: Vec::new(),
        used_idx: 0,
        acks: Vec::new(),
    }
}

fn mq_set(pairs: u16) -> CtrlChain {
    CtrlChain {
        head: 1,
        data: vec![
            VIRTIO_NET_CTRL_MQ,
            0,
            (pairs % 256) as u8,
            (pairs / 256) as u8,
        ],
    }
}

#[test]
fn vq_pairs_set_parks_and_resumes_the_second_pair() {
    let mut ctrl = CtrlQueue::create(vec![10, 11]);
    assert_eq!(ctrl.enabled_pairs, 2);
    // The guest asks for one pair: the second pair's worker is parked.
    let mut vring = vring_with(vec![mq_set(1)]);
    let any = ctrl.process(&mut vring).ok().unwrap();
    assert!(any);
    assert_eq!(ctrl.enabled_pairs, 1);
    assert_eq!(vring.acks, vec![VIRTIO_NET_OK]);
    assert_eq!(vring.used.len(), 1);
    assert_eq!(vring.used[0].head, 1);
    assert_eq!(vring.used[0].len, 1);
    // A later request for two pairs resumes it.
    let mut vring = vring_with(vec![mq_set(2)]);
    ctrl.process(&mut vring).ok().unwrap();
    assert_eq!(ctrl.enabled_pairs, 2);
    assert_eq!(vring.acks, vec![VIRTIO_NET_OK]);
}

#[test]
fn vq_pairs_set_clamps_into_the_valid_range() {
    let mut ctrl = CtrlQueue::create(vec![10, 11]);
    let mut vring = vring_with(vec![mq_set(0), mq_set(9)]);
    ctrl.process(&mut vring).ok().unwrap();
    // 0 clamps up to 1, then 9 clamps down to the pair count.
    assert_eq!(ctrl.enabled_pairs, 2);
    assert_eq!(vring.acks, vec![VIRTIO_NET_OK, VIRTIO_NET_OK]);
}

#[test]
fn offloads_set_reprograms_every_tap() {
    let mut ctrl = CtrlQueue::create(vec![10, 11]);
    // Guest offload word with GUEST_CSUM (bit 1) and GUEST_TSO4 (bit 7).
    let word: u64 = (1 << 1) | (1 << 7);
    let mut data = vec![VIRTIO_NET_CTRL_GUEST_OFFLOADS, 0];
    let mut i = 0;
    while i < 8 {
        data.push(((word >> (8 * i)) % 256) as u8);
        i += 1;
    }
    let mut vring = vring_with(vec![CtrlChain { head: 3, data }]);
    ctrl.process(&mut vring).ok().unwrap();
    assert_eq!(ctrl.tap_offload, TAP_F_CSUM | TAP_F_TSO4);
    assert_eq!(vring.acks, vec![VIRTIO_NET_OK]);
}

#[test]
fn unknown_commands_answer_err_and_change_nothing() {
    let mut ctrl = CtrlQueue::create(vec![10]);
    let mut vring = vring_with(vec![
        CtrlChain {
            head: 0,
            data: vec![9, 9, 0, 0],
        },
        // A multi-queue command with a short payload is also refused.
        CtrlChain {
            head: 1,
            data: vec![VIRTIO_NET_CTRL_MQ, 0, 1],
        },
    ]);
    ctrl.process(&mut vring).ok().unwrap();
    assert_eq!(vring.acks, vec![VIRTIO_NET_ERR, VIRTIO_NET_ERR]);
    assert_eq!(ctrl.enabled_pairs, 1);
    assert_eq!(ctrl.tap_offload, 0);
}

#[test]
fn a_chain_without_a_header_stops_the_control_worker() {
    let mut ctrl = CtrlQueue::create(vec![10]);
    let mut vring = vring_with(vec![
        mq_set(1),
        CtrlChain {
            head: 7,
            data: vec![4],
        },
    ]);
    assert!(ctrl.process(&mut vring).is_err());
    // The well-formed chain before it was still served.
    assert_eq!(vring.acks, vec![VIRTIO_NET_OK]);
    assert_eq!(ctrl.enabled_pairs, 1);
}

#[test]
fn an_empty_queue_reports_no_work() {
    let mut ctrl = CtrlQueue::create(vec![10]);
    let mut vring = vring_with(Vec::new());
    let any = ctrl.process(&mut vring).ok().unwrap();
    assert!(!any);
}
