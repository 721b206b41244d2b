//! Core of a paravirtualized network device: the state and decision logic that
//! bridges a guest's virtio-net driver to a host TAP interface.
//!
//! The crate models the device-side data plane — virtqueue transfer rounds,
//! TAP frame exchange, token-bucket rate limiting, interrupt suppression under
//! `VIRTIO_RING_F_EVENT_IDX` — together with the device facade (feature
//! negotiation, activation, snapshot and restore), the control queue, the
//! vhost-user backend dispatch, and the vhost-user-fs cache-window request
//! validator. Everything that performs syscalls (epoll, eventfds, the kernel
//! TAP, mmap) lives outside: callers hand in plain values and carry out the
//! planned actions the library returns.

pub mod backend;
pub mod backend_config;
pub mod config_space;
pub mod ctrl_queue;
pub mod device;
pub mod features;
pub mod fs_device;
pub mod hypervisor;
pub mod parse;
pub mod queue_pair;
pub mod rate_limiter;
pub mod slave_req;
pub mod tap;
pub mod virtqueue;
pub mod worker;

use vstd::prelude::*;

verus! {

} // verus!
