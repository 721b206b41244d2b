//! The per-queue-pair worker: epoll event identifiers, the registration set
//! the worker arms at startup, and the event dispatch step.
//!
//! The epoll wait itself, the event fds and the interrupt callback are the
//! caller's I/O; the worker here is the decision core. Asserted interrupts
//! are recorded in `signals`, oldest first, which stands for the calls the
//! real worker makes into its interrupt trigger.

use vstd::prelude::*;

use crate::queue_pair::{
    process_rx_common,
    process_tx_common,
    rx_stopped,
    tap_frames_fit,
    tx_stopped,
    NetQueuePair,
    NetQueuePairError,
};
use crate::rate_limiter::{limiter_blocked, refill, RateLimiter};
use crate::virtqueue::{batch_wants_interrupt, need_event, RxQueue, TxQueue};

verus! {

// Event identifiers of one worker's epoll set. The epoll helper reserves the
// two lowest values for its own kill and pause notifications.
pub const EPOLL_HELPER_EVENT_KILL: u16 = 0;

pub const EPOLL_HELPER_EVENT_PAUSE: u16 = 1;

pub const EPOLL_HELPER_EVENT_LAST: u16 = 1;

/// The guest kicked: a buffer is available to receive a frame into.
pub const RX_QUEUE_EVENT: u16 = EPOLL_HELPER_EVENT_LAST + 1;

/// The guest kicked: the transmit queue has a frame ready to send.
pub const TX_QUEUE_EVENT: u16 = EPOLL_HELPER_EVENT_LAST + 2;

/// A frame is readable from the TAP device.
pub const RX_TAP_EVENT: u16 = EPOLL_HELPER_EVENT_LAST + 3;

/// Wake-up from the RX rate limiter's timer.
pub const RX_RATE_LIMITER_EVENT: u16 = EPOLL_HELPER_EVENT_LAST + 4;

/// Wake-up from the TX rate limiter's timer.
pub const TX_RATE_LIMITER_EVENT: u16 = EPOLL_HELPER_EVENT_LAST + 5;

/// An interrupt the worker asserted, by queue direction.
pub enum QueueSignal {
    RxUsed,
    TxUsed,
}

/// A structural failure that terminates the worker (the device stays alive).
pub enum DeviceError {
    /// A transfer round found a malformed descriptor chain.
    NetQueuePair(NetQueuePairError),
}

/// The event-loop state of one queue-pair worker.
pub struct NetEpollHandler {
    pub net: NetQueuePair,
    pub rx_queue: RxQueue,
    pub tx_queue: TxQueue,
    /// False from activation or restore until the driver first kicks; while
    /// false every completed batch signals, defeating the lost-interrupt
    /// hazard after a migration.
    pub driver_awake: bool,
    /// Interrupts asserted so far, oldest first.
    pub signals: Vec<QueueSignal>,
}

/// A limiter right after its wake-up timer fired: buckets refilled, latch
/// clear.
pub open spec fn limiter_woken(l: RateLimiter) -> RateLimiter {
    RateLimiter { bytes: refill(l.bytes), ops: refill(l.ops), blocked: false }
}

/// Effect of an RX kick: descriptors were posted, so remember it and arm the
/// TAP unless the RX limiter is blocked; nothing else moves.
pub open spec fn rx_kick_effect(pre: NetEpollHandler, post: NetEpollHandler) -> bool {
    &&& post.net.rx_desc_avail == true
    &&& post.net.rx_tap_listening == (pre.net.rx_tap_listening || !limiter_blocked(
        pre.net.rx_rate_limiter,
    ))
    &&& post.net.tap == pre.net.tap
    &&& post.net.counters == pre.net.counters
    &&& post.net.rx_rate_limiter == pre.net.rx_rate_limiter
    &&& post.net.tx_rate_limiter == pre.net.tx_rate_limiter
    &&& post.rx_queue == pre.rx_queue
    &&& post.tx_queue == pre.tx_queue
    &&& post.signals == pre.signals
    &&& post.driver_awake == true
}

/// Effect of one TX round together with its signal decision: the transfer
/// obeys `process_tx_common`, and the TX interrupt fires iff the batch
/// produced used entries the driver asked to hear about, or the driver has
/// not woken since activation or restore.
pub open spec fn tx_round_effect(pre: NetEpollHandler, post: NetEpollHandler, ok: bool) -> bool {
    let k = pre.tx_queue.avail@.len() - post.tx_queue.avail@.len();
    let any = k > 0;
    let fired = (any && batch_wants_interrupt(
        pre.tx_queue.event_idx,
        post.tx_queue.used_event,
        post.tx_queue.used_idx,
        pre.tx_queue.used_idx,
        any,
    )) || !pre.driver_awake;
    &&& process_tx_common(pre.net, post.net, pre.tx_queue, post.tx_queue)
    &&& (ok ==> tx_stopped(post.net, pre.tx_queue, k))
    &&& (!ok ==> post.tx_queue.avail@.len() > 0 && post.tx_queue.avail@[0].bytes@.len()
        < crate::virtqueue::VIRTIO_NET_HDR_LEN)
    &&& post.rx_queue == pre.rx_queue
    &&& post.driver_awake == pre.driver_awake
    &&& (ok ==> post.signals@ == if fired {
        pre.signals@.push(QueueSignal::TxUsed)
    } else {
        pre.signals@
    })
    &&& (!ok ==> post.signals == pre.signals)
}

/// Effect of one RX round together with its signal decision, the mirror of
/// `tx_round_effect` for TAP-driven receive processing.
pub open spec fn rx_round_effect(pre: NetEpollHandler, post: NetEpollHandler, ok: bool) -> bool {
    let k = pre.rx_queue.avail@.len() - post.rx_queue.avail@.len();
    let any = k > 0;
    let fired = (any && batch_wants_interrupt(
        pre.rx_queue.event_idx,
        post.rx_queue.used_event,
        post.rx_queue.used_idx,
        pre.rx_queue.used_idx,
        any,
    )) || !pre.driver_awake;
    &&& process_rx_common(pre.net, post.net, pre.rx_queue, post.rx_queue)
    &&& (ok ==> rx_stopped(pre.net, post.net, pre.rx_queue, k))
    &&& (!ok ==> post.rx_queue.avail@.len() > 0 && post.net.tap.readable@.len() > 0
        && post.rx_queue.avail@[0].capacity < post.net.tap.readable@[0]@.len()
        + crate::virtqueue::VIRTIO_NET_HDR_LEN)
    &&& post.tx_queue == pre.tx_queue
    &&& post.driver_awake == pre.driver_awake
    &&& (ok ==> post.signals@ == if fired {
        pre.signals@.push(QueueSignal::RxUsed)
    } else {
        pre.signals@
    })
    &&& (!ok ==> post.signals == pre.signals)
}

/// Effect of an RX limiter wake-up: the limiter refills and unlatches, and
/// the TAP is re-armed iff descriptors were posted while it slept.
pub open spec fn rx_wake_effect(pre: NetEpollHandler, post: NetEpollHandler) -> bool {
    &&& pre.net.rx_rate_limiter matches Some(l0) && post.net.rx_rate_limiter == Some(
        limiter_woken(l0),
    )
    &&& post.net.rx_tap_listening == (pre.net.rx_tap_listening || pre.net.rx_desc_avail)
    &&& post.net.rx_desc_avail == pre.net.rx_desc_avail
    &&& post.net.tap == pre.net.tap
    &&& post.net.counters == pre.net.counters
    &&& post.net.tx_rate_limiter == pre.net.tx_rate_limiter
    &&& post.rx_queue == pre.rx_queue
    &&& post.tx_queue == pre.tx_queue
    &&& post.signals == pre.signals
    &&& post.driver_awake == pre.driver_awake
}

impl NetEpollHandler {
    /// A worker fresh from activation or restore, around its queue pair and
    /// rings: the driver has not kicked yet, so `driver_awake` starts false
    /// and the first completed batch will signal whatever the event-index
    /// hint says; no interrupt has been asserted.
    pub fn create(net: NetQueuePair, rx_queue: RxQueue, tx_queue: TxQueue) -> (r: NetEpollHandler)
        ensures
            r.net == net,
            r.rx_queue == rx_queue,
            r.tx_queue == tx_queue,
            r.driver_awake == false,
            r.signals@.len() == 0,
    {
        NetEpollHandler { net, rx_queue, tx_queue, driver_awake: false, signals: Vec::new() }
    }

    /// Records an asserted interrupt; in the running device this is the call
    /// into the shared interrupt trigger (whose delivery failures are the
    /// caller's I/O concern and terminate the worker).
    pub fn signal_used_queue(&mut self, signal: QueueSignal)
        ensures
            final(self).signals@ == old(self).signals@.push(signal),
            final(self).net == old(self).net,
            final(self).rx_queue == old(self).rx_queue,
            final(self).tx_queue == old(self).tx_queue,
            final(self).driver_awake == old(self).driver_awake,
    {
        self.signals.push(signal);
    }

    /// Handles an RX queue kick: notes that descriptors are available and
    /// arms the TAP for input unless the RX rate limiter is blocked.
    pub fn handle_rx_event(&mut self)
        ensures
            final(self).net.rx_desc_avail == true,
            final(self).net.rx_tap_listening == (old(self).net.rx_tap_listening
                || !limiter_blocked(old(self).net.rx_rate_limiter)),
            final(self).net.tap == old(self).net.tap,
            final(self).net.counters == old(self).net.counters,
            final(self).net.rx_rate_limiter == old(self).net.rx_rate_limiter,
            final(self).net.tx_rate_limiter == old(self).net.tx_rate_limiter,
            final(self).rx_queue == old(self).rx_queue,
            final(self).tx_queue == old(self).tx_queue,
            final(self).signals == old(self).signals,
            final(self).driver_awake == old(self).driver_awake,
    {
        self.net.rx_desc_avail = true;
        let rate_limit_reached = match &self.net.rx_rate_limiter {
            Some(limiter) => limiter.is_blocked(),
            None => false,
        };
        if !self.net.rx_tap_listening && !rate_limit_reached {
            self.net.rx_tap_listening = true;
        }
    }

    /// Runs one TX round and decides the TX interrupt: it fires iff the
    /// round published entries the driver asked to hear about under the
    /// event-index rule, or the driver has not yet woken.
    pub fn process_tx(&mut self) -> (r: Result<(), DeviceError>)
        ensures
            tx_round_effect(*old(self), *final(self), r is Ok),
    {
        let old_idx = self.tx_queue.used_idx;
        match self.net.process_tx(&mut self.tx_queue) {
            Err(e) => Err(DeviceError::NetQueuePair(e)),
            Ok(any) => {
                let notify = if self.tx_queue.event_idx {
                    need_event(self.tx_queue.used_event, self.tx_queue.used_idx, old_idx)
                } else {
                    true
                };
                if (any && notify) || !self.driver_awake {
                    self.signal_used_queue(QueueSignal::TxUsed);
                }
                Ok(())
            },
        }
    }

    /// Handles a TX queue kick: unless the TX rate limiter is blocked, runs
    /// one TX round with its signal decision.
    pub fn handle_tx_event(&mut self) -> (r: Result<(), DeviceError>)
        ensures
            limiter_blocked(old(self).net.tx_rate_limiter) ==> *final(self) == *old(self) && r
                is Ok,
            !limiter_blocked(old(self).net.tx_rate_limiter) ==> tx_round_effect(
                *old(self),
                *final(self),
                r is Ok,
            ),
    {
        let rate_limit_reached = match &self.net.tx_rate_limiter {
            Some(limiter) => limiter.is_blocked(),
            None => false,
        };
        if !rate_limit_reached {
            self.process_tx()
        } else {
            Ok(())
        }
    }

    /// Handles TAP readability: runs one RX round with its signal decision.
    pub fn handle_rx_tap_event(&mut self) -> (r: Result<(), DeviceError>)
        requires
            tap_frames_fit(old(self).net.tap),
        ensures
            rx_round_effect(*old(self), *final(self), r is Ok),
    {
        let old_idx = self.rx_queue.used_idx;
        match self.net.process_rx(&mut self.rx_queue) {
            Err(e) => Err(DeviceError::NetQueuePair(e)),
            Ok(any) => {
                let notify = if self.rx_queue.event_idx {
                    need_event(self.rx_queue.used_event, self.rx_queue.used_idx, old_idx)
                } else {
                    true
                };
                if (any && notify) || !self.driver_awake {
                    self.signal_used_queue(QueueSignal::RxUsed);
                }
                Ok(())
            },
        }
    }

    /// One step of the worker loop: dispatches a dequeued epoll event.
    /// Returns true when the worker must terminate: on an unknown event
    /// identifier, a limiter event without a limiter, or a failed round.
    pub fn handle_event(&mut self, event_id: u16) -> (exit: bool)
        requires
            tap_frames_fit(old(self).net.tap),
        ensures
            worker_step_rel(*old(self), *final(self), event_id, exit),
    {
        if event_id == RX_QUEUE_EVENT {
            self.handle_rx_event();
            self.driver_awake = true;
            false
        } else if event_id == TX_QUEUE_EVENT {
            let r = self.handle_tx_event();
            self.driver_awake = true;
            r.is_err()
        } else if event_id == RX_TAP_EVENT {
            let r = self.handle_rx_tap_event();
            r.is_err()
        } else if event_id == RX_RATE_LIMITER_EVENT {
            let mut present = false;
            match &mut self.net.rx_rate_limiter {
                Some(limiter) => {
                    limiter.event_handler();
                    present = true;
                },
                None => {},
            }
            if !present {
                return true;
            }
            if !self.net.rx_tap_listening && self.net.rx_desc_avail {
                self.net.rx_tap_listening = true;
            }
            false
        } else if event_id == TX_RATE_LIMITER_EVENT {
            let mut present = false;
            match &mut self.net.tx_rate_limiter {
                Some(limiter) => {
                    limiter.event_handler();
                    present = true;
                },
                None => {},
            }
            if !present {
                return true;
            }
            let r = self.process_tx();
            self.driver_awake = true;
            r.is_err()
        } else {
            true
        }
    }

    /// The epoll registrations a worker arms before entering its loop: both
    /// kick events, each configured limiter's wake-up, and the TAP iff the
    /// guest has already posted RX descriptors (in which case the TAP is
    /// marked listening).
    pub fn prepare_run(&mut self) -> (registered: Vec<u16>)
        ensures
            registered@ == initial_registrations(
                old(self).net.rx_rate_limiter is Some,
                old(self).net.tx_rate_limiter is Some,
                old(self).rx_queue.avail@.len() > 0,
            ),
            final(self).net.rx_tap_listening == (old(self).rx_queue.avail@.len() > 0),
            final(self).net.rx_desc_avail == old(self).net.rx_desc_avail,
            final(self).net.tap == old(self).net.tap,
            final(self).net.counters == old(self).net.counters,
            final(self).net.rx_rate_limiter == old(self).net.rx_rate_limiter,
            final(self).net.tx_rate_limiter == old(self).net.tx_rate_limiter,
            final(self).rx_queue == old(self).rx_queue,
            final(self).tx_queue == old(self).tx_queue,
            final(self).signals == old(self).signals,
            final(self).driver_awake == old(self).driver_awake,
    {
        let mut registered: Vec<u16> = Vec::new();
        registered.push(RX_QUEUE_EVENT);
        registered.push(TX_QUEUE_EVENT);
        if self.net.rx_rate_limiter.is_some() {
            registered.push(RX_RATE_LIMITER_EVENT);
        }
        if self.net.tx_rate_limiter.is_some() {
            registered.push(TX_RATE_LIMITER_EVENT);
        }
        if self.rx_queue.has_available_descriptors() {
            registered.push(RX_TAP_EVENT);
            self.net.rx_tap_listening = true;
        } else {
            self.net.rx_tap_listening = false;
        }
        assert(registered@ =~= initial_registrations(
            old(self).net.rx_rate_limiter is Some,
            old(self).net.tx_rate_limiter is Some,
            old(self).rx_queue.avail@.len() > 0,
        ));
        registered
    }
}

/// What one dispatched event establishes, by its identifier: an RX kick
/// arms the TAP and wakes the driver flag, a TX kick runs a TX round before
/// waking it, TAP readability runs an RX round, a limiter wake refills its
/// limiter (re-arming the TAP or re-running TX), and anything else stops
/// the worker untouched.
pub open spec fn worker_step_rel(
    pre: NetEpollHandler,
    post: NetEpollHandler,
    event_id: u16,
    exit: bool,
) -> bool {
    &&& (event_id == RX_QUEUE_EVENT ==> !exit && rx_kick_effect(pre, post))
    &&& (event_id == TX_QUEUE_EVENT ==> ({
        &&& post.driver_awake == true
        &&& limiter_blocked(pre.net.tx_rate_limiter) ==> !exit && post == (NetEpollHandler {
            driver_awake: true,
            ..pre
        })
        &&& !limiter_blocked(pre.net.tx_rate_limiter) ==> tx_round_effect(
            pre,
            (NetEpollHandler { driver_awake: pre.driver_awake, ..post }),
            !exit,
        )
    }))
    &&& (event_id == RX_TAP_EVENT ==> rx_round_effect(pre, post, !exit))
    &&& (event_id == RX_RATE_LIMITER_EVENT ==> ({
        &&& pre.net.rx_rate_limiter is None ==> exit && post == pre
        &&& pre.net.rx_rate_limiter is Some ==> !exit && rx_wake_effect(pre, post)
    }))
    &&& (event_id == TX_RATE_LIMITER_EVENT ==> ({
        &&& pre.net.tx_rate_limiter is None ==> exit && post == pre
        &&& pre.net.tx_rate_limiter is Some ==> ({
            let mid = NetEpollHandler {
                net: NetQueuePair {
                    tx_rate_limiter: Some(limiter_woken(pre.net.tx_rate_limiter->Some_0)),
                    ..pre.net
                },
                ..pre
            };
            &&& post.driver_awake == true
            &&& tx_round_effect(
                mid,
                (NetEpollHandler { driver_awake: pre.driver_awake, ..post }),
                !exit,
            )
        })
    }))
    &&& (!(event_id == RX_QUEUE_EVENT || event_id == TX_QUEUE_EVENT || event_id == RX_TAP_EVENT
        || event_id == RX_RATE_LIMITER_EVENT || event_id == TX_RATE_LIMITER_EVENT) ==> exit && post
        == pre)
}

/// The TAP listener moves only for its reasons: it disarms only during a
/// TAP round that drained the kernel (`EAGAIN`) or saw the RX limiter latch
/// blocked, and it arms only on an RX kick with an unblocked limiter, on a
/// limiter wake with descriptors posted, or at a kick while already armed.
pub proof fn lemma_rx_tap_listening_transitions(
    pre: NetEpollHandler,
    post: NetEpollHandler,
    event_id: u16,
    exit: bool,
)
    requires
        worker_step_rel(pre, post, event_id, exit),
    ensures
        (pre.net.rx_tap_listening && !post.net.rx_tap_listening) ==> (event_id == RX_TAP_EVENT && (
        post.net.rx_desc_avail == false || limiter_blocked(post.net.rx_rate_limiter))),
        (!pre.net.rx_tap_listening && post.net.rx_tap_listening) ==> ((event_id == RX_QUEUE_EVENT
            && !limiter_blocked(pre.net.rx_rate_limiter)) || (event_id == RX_RATE_LIMITER_EVENT
            && pre.net.rx_desc_avail)),
{
    if event_id == RX_TAP_EVENT {
        if pre.net.rx_tap_listening && !post.net.rx_tap_listening {
            let k = pre.rx_queue.avail@.len() - post.rx_queue.avail@.len();
            if exit {
            } else {
                assert(rx_stopped(pre.net, post.net, pre.rx_queue, k));
            }
        }
    }
}

/// The blocked-limiter invariant of a worker: while the RX rate limiter is
/// blocked, the TAP is not armed in the epoll set.
pub open spec fn rx_blocked_tap_disarmed(h: NetEpollHandler) -> bool {
    limiter_blocked(h.net.rx_rate_limiter) ==> !h.net.rx_tap_listening
}

/// Every worker step preserves the blocked-limiter invariant: a blocked RX
/// limiter keeps the TAP disarmed until its wake-up arrives.
pub proof fn lemma_blocked_rx_limiter_keeps_tap_disarmed(
    pre: NetEpollHandler,
    post: NetEpollHandler,
    event_id: u16,
    exit: bool,
)
    requires
        rx_blocked_tap_disarmed(pre),
        worker_step_rel(pre, post, event_id, exit),
    ensures
        rx_blocked_tap_disarmed(post),
{
    if event_id == RX_TAP_EVENT {
        assert(process_rx_common(pre.net, post.net, pre.rx_queue, post.rx_queue));
        if limiter_blocked(post.net.rx_rate_limiter) && !limiter_blocked(pre.net.rx_rate_limiter) {
            assert(!post.net.rx_tap_listening);
        }
    }
}

/// The event-index law of a TX round: with the feature negotiated, the
/// interrupt is asserted iff the driver has not woken since activation or
/// restore, or the batch crossed the driver's `used_event` hint.
pub proof fn lemma_tx_interrupt_iff(pre: NetEpollHandler, post: NetEpollHandler)
    requires
        tx_round_effect(pre, post, true),
        pre.tx_queue.event_idx,
    ensures
        ({
            let k = pre.tx_queue.avail@.len() - post.tx_queue.avail@.len();
            (post.signals@ == pre.signals@.push(QueueSignal::TxUsed)) <==> (!pre.driver_awake || (k
                > 0 && crate::virtqueue::vring_need_event(
                post.tx_queue.used_event,
                post.tx_queue.used_idx,
                pre.tx_queue.used_idx,
            )))
        }),
        !(post.signals@ == pre.signals@.push(QueueSignal::TxUsed)) ==> post.signals@
            == pre.signals@,
{
    assert(pre.signals@.push(QueueSignal::TxUsed).len() == pre.signals@.len() + 1);
}

/// The exact registration list `prepare_run` arms, as a function of which
/// limiters exist and whether RX descriptors are already posted.
pub open spec fn initial_registrations(rx_lim: bool, tx_lim: bool, rx_posted: bool) -> Seq<u16> {
    let base = seq![RX_QUEUE_EVENT, TX_QUEUE_EVENT];
    let with_rx = if rx_lim {
        base.push(RX_RATE_LIMITER_EVENT)
    } else {
        base
    };
    let with_tx = if tx_lim {
        with_rx.push(TX_RATE_LIMITER_EVENT)
    } else {
        with_rx
    };
    if rx_posted {
        with_tx.push(RX_TAP_EVENT)
    } else {
        with_tx
    }
}

} // verus!
