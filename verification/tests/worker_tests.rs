//! The per-queue-pair worker: transfer rounds, event dispatch, interrupt
//! suppression under the event-index feature, and the rate-limiter paths.

use virtio_net_core::queue_pair::{NetCounters, NetQueuePair};
use virtio_net_core::rate_limiter::{RateLimiter, RateLimiterConfig};
use virtio_net_core::tap::TapDevice;
use virtio_net_core::virtqueue::{need_event, RxChain, RxQueue, TxChain, TxQueue, VIRTIO_NET_HDR_LEN};
use virtio_net_core::worker::{
    NetEpollHandler, QueueSignal, RX_QUEUE_EVENT, RX_RATE_LIMITER_EVENT, RX_TAP_EVENT,
    TX_QUEUE_EVENT, TX_RATE_LIMITER_EVENT,
};

fn tx_chain(head: u16, payload: &[u8]) -> TxChain {
    let mut bytes = vec![0u8; VIRTIO_NET_HDR_LEN];
    bytes.extend_from_slice(payload);
    TxChain { head, bytes }
}

fn empty_rx_queue(event_idx: bool) -> RxQueue {
    RxQueue {
        avail: Vec::new(),
        used: Vec::new(),
        used_idx: 0,
        used_event: 0,
        event_idx,
    }
}

fn empty_tx_queue(event_idx: bool) -> TxQueue {
    TxQueue {
        avail: Vec::new(),
        used: Vec::new(),
        used_idx: 0,
        used_event: 0,
        event_idx,
    }
}

fn pair(tap: TapDevice) -> NetQueuePair {
    NetQueuePair {
        tap,
        rx_tap_listening: false,
        rx_desc_avail: false,
        counters: NetCounters::zeroed(),
        rx_rate_limiter: None,
        tx_rate_limiter: None,
    }
}

fn handler(event_idx: bool) -> NetEpollHandler {
    let h = NetEpollHandler::create(
        pair(TapDevice::create(7)),
        empty_rx_queue(event_idx),
        empty_tx_queue(event_idx),
    );
    // A fresh worker has not seen the driver yet.
    assert!(!h.driver_awake);
    assert!(h.signals.is_empty());
    h
}

#[test]
fn three_guest_frames_yield_three_tap_writes_with_matching_payloads() {
    let mut p = pair(TapDevice::create(7));
    let mut q = empty_tx_queue(false);
    q.avail.push(tx_chain(0, b"abc"));
    q.avail.push(tx_chain(1, b"defgh"));
    q.avail.push(tx_chain(2, b""));
    let any = p.process_tx(&mut q).ok().unwrap();
    assert!(any);
    assert_eq!(p.tap.written.len(), 3);
    assert_eq!(p.tap.written[0], b"abc".to_vec());
    assert_eq!(p.tap.written[1], b"defgh".to_vec());
    assert_eq!(p.tap.written[2], Vec::<u8>::new());
    assert_eq!(q.used.len(), 3);
    assert_eq!(q.used[0].head, 0);
    assert_eq!(q.used[2].head, 2);
    assert_eq!(q.used_idx, 3);
    assert_eq!(p.counters.tx_bytes, 8);
    assert_eq!(p.counters.tx_frames, 3);
}

#[test]
fn two_host_frames_yield_two_used_entries_with_header_lengths() {
    let mut tap = TapDevice::create(7);
    tap.readable.push(b"hello".to_vec());
    tap.readable.push(b"xy".to_vec());
    let mut p = pair(tap);
    p.rx_tap_listening = true;
    p.rx_desc_avail = true;
    let mut q = empty_rx_queue(false);
    q.avail.push(RxChain { head: 5, capacity: 2048 });
    q.avail.push(RxChain { head: 6, capacity: 2048 });
    q.avail.push(RxChain { head: 7, capacity: 2048 });
    let any = p.process_rx(&mut q).ok().unwrap();
    assert!(any);
    assert_eq!(q.used.len(), 2);
    assert_eq!(q.used[0].head, 5);
    assert_eq!(q.used[0].len as usize, 5 + VIRTIO_NET_HDR_LEN);
    assert_eq!(q.used[1].head, 6);
    assert_eq!(q.used[1].len as usize, 2 + VIRTIO_NET_HDR_LEN);
    assert_eq!(p.counters.rx_bytes, 7);
    assert_eq!(p.counters.rx_frames, 2);
    // The TAP drained to EAGAIN: the listener is disarmed and the posted
    // flag clears.
    assert!(!p.rx_tap_listening);
    assert!(!p.rx_desc_avail);
}

#[test]
fn rx_with_no_free_descriptor_keeps_the_tap_armed() {
    let mut tap = TapDevice::create(7);
    tap.readable.push(b"frame".to_vec());
    let mut p = pair(tap);
    p.rx_tap_listening = true;
    p.rx_desc_avail = true;
    let mut q = empty_rx_queue(false);
    let any = p.process_rx(&mut q).ok().unwrap();
    assert!(!any);
    assert!(p.rx_tap_listening);
    assert!(p.rx_desc_avail);
    assert_eq!(p.tap.readable.len(), 1);
}

#[test]
fn tx_eagain_retains_the_deep_descriptor_and_retries_it_first() {
    let mut tap = TapDevice::create(7);
    tap.write_budget = 1;
    let mut p = pair(tap);
    let mut q = empty_tx_queue(false);
    q.avail.push(tx_chain(3, b"first"));
    q.avail.push(tx_chain(9, b"second"));
    let any = p.process_tx(&mut q).ok().unwrap();
    assert!(any);
    assert_eq!(p.tap.written.len(), 1);
    assert_eq!(q.used.len(), 1);
    // The refused chain keeps its place at the front.
    assert_eq!(q.avail.len(), 1);
    assert_eq!(q.avail[0].head, 9);
    // The next kick retries exactly that chain before anything else.
    p.tap.write_budget = 16;
    q.avail.push(tx_chain(12, b"third"));
    p.process_tx(&mut q).ok().unwrap();
    assert_eq!(p.tap.written[1], b"second".to_vec());
    assert_eq!(p.tap.written[2], b"third".to_vec());
    assert_eq!(q.used[1].head, 9);
}

#[test]
fn rx_limiter_blocked_mid_batch_keeps_partial_used_and_disarms_the_tap() {
    let mut tap = TapDevice::create(7);
    tap.readable.push(vec![0u8; 100]);
    tap.readable.push(vec![1u8; 100]);
    let mut p = pair(tap);
    p.rx_tap_listening = true;
    p.rx_desc_avail = true;
    // Enough byte tokens for one frame plus its header, not for two.
    p.rx_rate_limiter = Some(RateLimiter::create(&RateLimiterConfig {
        bytes_size: Some(150),
        ops_size: None,
    }));
    let mut q = empty_rx_queue(false);
    q.avail.push(RxChain { head: 0, capacity: 2048 });
    q.avail.push(RxChain { head: 1, capacity: 2048 });
    let any = p.process_rx(&mut q).ok().unwrap();
    // The partial used-ring update is visible.
    assert!(any);
    assert_eq!(q.used.len(), 1);
    // The TAP is deregistered and the frame stays queued for the wake-up.
    assert!(!p.rx_tap_listening);
    assert_eq!(p.tap.readable.len(), 1);
    assert!(p.rx_rate_limiter.as_ref().unwrap().blocked);
    // On wake, processing resumes: the handler refills and re-arms.
    let mut h = NetEpollHandler {
        net: p,
        rx_queue: q,
        tx_queue: empty_tx_queue(false),
        driver_awake: true,
        signals: Vec::new(),
    };
    let exit = h.handle_event(RX_RATE_LIMITER_EVENT);
    assert!(!exit);
    assert!(h.net.rx_tap_listening);
    assert!(!h.net.rx_rate_limiter.as_ref().unwrap().blocked);
    let exit = h.handle_event(RX_TAP_EVENT);
    assert!(!exit);
    assert_eq!(h.rx_queue.used.len(), 2);
}

#[test]
fn event_idx_suppresses_until_the_used_event_hint_is_crossed() {
    let mut h = handler(true);
    h.driver_awake = true;
    h.tx_queue.used_event = 5;
    let mut i = 0u16;
    while i < 5 {
        h.tx_queue.avail.push(tx_chain(i, b"p"));
        i += 1;
    }
    // Entries 0..=4 leave the used counter at 5: no interrupt.
    let exit = h.handle_event(TX_QUEUE_EVENT);
    assert!(!exit);
    assert_eq!(h.tx_queue.used.len(), 5);
    assert_eq!(h.signals.len(), 0);
    // Entry 5 crosses the hint: exactly one interrupt.
    h.tx_queue.avail.push(tx_chain(5, b"p"));
    let exit = h.handle_event(TX_QUEUE_EVENT);
    assert!(!exit);
    assert_eq!(h.signals.len(), 1);
    assert!(matches!(h.signals[0], QueueSignal::TxUsed));
}

#[test]
fn first_tx_after_restore_signals_regardless_of_the_hint() {
    let mut h = handler(true);
    // After restore and activate the driver has not woken yet.
    h.driver_awake = false;
    h.tx_queue.used_event = 500;
    h.tx_queue.avail.push(tx_chain(0, b"p"));
    let exit = h.handle_event(TX_QUEUE_EVENT);
    assert!(!exit);
    assert_eq!(h.signals.len(), 1);
    // The kick woke the driver flag; suppression now follows the hint.
    assert!(h.driver_awake);
    h.tx_queue.avail.push(tx_chain(1, b"p"));
    let exit = h.handle_event(TX_QUEUE_EVENT);
    assert!(!exit);
    assert_eq!(h.signals.len(), 1);
}

#[test]
fn rx_kick_arms_the_tap_unless_the_limiter_is_blocked() {
    let mut h = handler(false);
    assert!(!h.net.rx_tap_listening);
    let exit = h.handle_event(RX_QUEUE_EVENT);
    assert!(!exit);
    assert!(h.net.rx_tap_listening);
    assert!(h.net.rx_desc_avail);
    assert!(h.driver_awake);

    let mut blocked = handler(false);
    blocked.net.rx_rate_limiter = Some(RateLimiter {
        bytes: None,
        ops: None,
        blocked: true,
    });
    let exit = blocked.handle_event(RX_QUEUE_EVENT);
    assert!(!exit);
    assert!(!blocked.net.rx_tap_listening);
    assert!(blocked.net.rx_desc_avail);
}

#[test]
fn tx_kick_with_blocked_limiter_defers_processing() {
    let mut h = handler(false);
    h.net.tx_rate_limiter = Some(RateLimiter {
        bytes: None,
        ops: None,
        blocked: true,
    });
    h.tx_queue.avail.push(tx_chain(0, b"p"));
    let exit = h.handle_event(TX_QUEUE_EVENT);
    assert!(!exit);
    assert_eq!(h.tx_queue.used.len(), 0);
    assert!(h.driver_awake);
    // The limiter wake runs the deferred round.
    let exit = h.handle_event(TX_RATE_LIMITER_EVENT);
    assert!(!exit);
    assert_eq!(h.tx_queue.used.len(), 1);
    assert_eq!(h.signals.len(), 1);
}

#[test]
fn unknown_events_and_spurious_limiter_events_terminate_the_worker() {
    let mut h = handler(false);
    assert!(h.handle_event(99));
    assert!(h.handle_event(RX_RATE_LIMITER_EVENT));
    assert!(h.handle_event(TX_RATE_LIMITER_EVENT));
}

#[test]
fn startup_registers_the_tap_only_with_posted_descriptors() {
    let mut h = handler(false);
    let regs = h.prepare_run();
    assert_eq!(regs, vec![RX_QUEUE_EVENT, TX_QUEUE_EVENT]);
    assert!(!h.net.rx_tap_listening);
    assert!(!h.net.rx_desc_avail);

    let mut ready = handler(false);
    ready.net.rx_rate_limiter = Some(RateLimiter::create(&RateLimiterConfig {
        bytes_size: Some(1000),
        ops_size: Some(10),
    }));
    ready.rx_queue.avail.push(RxChain { head: 0, capacity: 64 });
    let regs = ready.prepare_run();
    assert_eq!(
        regs,
        vec![RX_QUEUE_EVENT, TX_QUEUE_EVENT, RX_RATE_LIMITER_EVENT, RX_TAP_EVENT]
    );
    assert!(ready.net.rx_tap_listening);
}

#[test]
fn malformed_tx_chain_fails_the_round() {
    let mut p = pair(TapDevice::create(7));
    let mut q = empty_tx_queue(false);
    q.avail.push(TxChain {
        head: 0,
        bytes: vec![0u8; 4],
    });
    assert!(p.process_tx(&mut q).is_err());
}

#[test]
fn rx_chain_too_small_for_the_frame_fails_the_round() {
    let mut tap = TapDevice::create(7);
    tap.readable.push(vec![0u8; 64]);
    let mut p = pair(tap);
    let mut q = empty_rx_queue(false);
    q.avail.push(RxChain { head: 0, capacity: 16 });
    assert!(p.process_rx(&mut q).is_err());
    // The frame is not lost.
    assert_eq!(p.tap.readable.len(), 1);
}

#[test]
fn counters_wrap_around() {
    let mut p = pair(TapDevice::create(7));
    p.counters.tx_bytes = u64::MAX - 1;
    p.counters.tx_frames = u64::MAX;
    let mut q = empty_tx_queue(false);
    q.avail.push(tx_chain(0, b"abc"));
    p.process_tx(&mut q).ok().unwrap();
    assert_eq!(p.counters.tx_bytes, 1);
    assert_eq!(p.counters.tx_frames, 0);
}

#[test]
fn the_event_index_rule_handles_wrap_around() {
    // Hint inside [old, new) wants the interrupt.
    assert!(need_event(5, 6, 5));
    assert!(need_event(5, 6, 0));
    assert!(!need_event(5, 5, 0));
    assert!(!need_event(6, 6, 5));
    // Across the 16-bit boundary.
    assert!(need_event(65535, 1, 65530));
    assert!(!need_event(2, 1, 65530));
}
