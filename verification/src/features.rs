//! Virtio feature bits, the acknowledgement mask, and the fixed mapping from
//! acknowledged guest offload features to kernel TAP offload flags.

use vstd::prelude::*;

verus! {

// Feature bit positions from the virtio specification (device-independent
// bits 24..=37, net device bits 0..=23).
pub const VIRTIO_NET_F_CSUM: u64 = 0;
pub const VIRTIO_NET_F_GUEST_CSUM: u64 = 1;
pub const VIRTIO_NET_F_CTRL_GUEST_OFFLOADS: u64 = 2;
pub const VIRTIO_NET_F_MAC: u64 = 5;
pub const VIRTIO_NET_F_GUEST_TSO4: u64 = 7;
pub const VIRTIO_NET_F_GUEST_TSO6: u64 = 8;
pub const VIRTIO_NET_F_GUEST_ECN: u64 = 9;
pub const VIRTIO_NET_F_GUEST_UFO: u64 = 10;
pub const VIRTIO_NET_F_HOST_TSO4: u64 = 11;
pub const VIRTIO_NET_F_HOST_TSO6: u64 = 12;
pub const VIRTIO_NET_F_HOST_ECN: u64 = 13;
pub const VIRTIO_NET_F_HOST_UFO: u64 = 14;
pub const VIRTIO_NET_F_CTRL_VQ: u64 = 17;
pub const VIRTIO_NET_F_MQ: u64 = 22;
pub const VIRTIO_RING_F_EVENT_IDX: u64 = 29;
pub const VIRTIO_F_VERSION_1: u64 = 32;
pub const VIRTIO_F_IOMMU_PLATFORM: u64 = 33;

// Kernel TAP offload flags (TUNSETOFFLOAD argument bits).
pub const TAP_F_CSUM: u32 = 1;
pub const TAP_F_TSO4: u32 = 2;
pub const TAP_F_TSO6: u32 = 4;
pub const TAP_F_TSO_ECN: u32 = 8;
pub const TAP_F_UFO: u32 = 16;

/// True when bit `bit` is set in `features`.
pub open spec fn feature_set(features: u64, bit: u64) -> bool {
    features & (1u64 << bit) != 0
}

/// Reports whether bit `bit` of `features` is set.
pub fn has_feature(features: u64, bit: u64) -> (r: bool)
    requires
        bit < 64,
    ensures
        r == feature_set(features, bit),
{
    features & (1u64 << bit) != 0
}

/// The feature set the in-VMM net device advertises: checksum and
/// segmentation offloads in both directions, offload control, the control
/// queue, event-index interrupt suppression and the modern transport, with
/// the IOMMU bit only on request.
pub fn net_avail_features(iommu: bool) -> (r: u64)
    ensures
        r == net_avail_features_spec(iommu),
{
    let base: u64 = (1u64 << VIRTIO_NET_F_CSUM) | (1u64 << VIRTIO_NET_F_CTRL_GUEST_OFFLOADS) | (
    1u64 << VIRTIO_NET_F_GUEST_CSUM) | (1u64 << VIRTIO_NET_F_GUEST_ECN) | (1u64
        << VIRTIO_NET_F_GUEST_TSO4) | (1u64 << VIRTIO_NET_F_GUEST_TSO6) | (1u64
        << VIRTIO_NET_F_GUEST_UFO) | (1u64 << VIRTIO_NET_F_HOST_ECN) | (1u64
        << VIRTIO_NET_F_HOST_TSO4) | (1u64 << VIRTIO_NET_F_HOST_TSO6) | (1u64
        << VIRTIO_NET_F_HOST_UFO) | (1u64 << VIRTIO_RING_F_EVENT_IDX) | (1u64
        << VIRTIO_F_VERSION_1) | (1u64 << VIRTIO_NET_F_CTRL_VQ);
    if iommu {
        base | (1u64 << VIRTIO_F_IOMMU_PLATFORM)
    } else {
        base
    }
}

/// The advertised feature set as a value.
pub open spec fn net_avail_features_spec(iommu: bool) -> u64 {
    let base = (1u64 << VIRTIO_NET_F_CSUM) | (1u64 << VIRTIO_NET_F_CTRL_GUEST_OFFLOADS) | (1u64
        << VIRTIO_NET_F_GUEST_CSUM) | (1u64 << VIRTIO_NET_F_GUEST_ECN) | (1u64
        << VIRTIO_NET_F_GUEST_TSO4) | (1u64 << VIRTIO_NET_F_GUEST_TSO6) | (1u64
        << VIRTIO_NET_F_GUEST_UFO) | (1u64 << VIRTIO_NET_F_HOST_ECN) | (1u64
        << VIRTIO_NET_F_HOST_TSO4) | (1u64 << VIRTIO_NET_F_HOST_TSO6) | (1u64
        << VIRTIO_NET_F_HOST_UFO) | (1u64 << VIRTIO_RING_F_EVENT_IDX) | (1u64
        << VIRTIO_F_VERSION_1) | (1u64 << VIRTIO_NET_F_CTRL_VQ);
    if iommu {
        base | (1u64 << VIRTIO_F_IOMMU_PLATFORM)
    } else {
        base
    }
}

/// What the acknowledged set becomes when the guest writes `value`: bits the
/// device never advertised are silently dropped.
pub open spec fn ack_mask(acked: u64, avail: u64, value: u64) -> u64 {
    acked | (value & avail)
}

/// Acknowledges `value` against the advertised set `avail`, keeping only
/// advertised bits.
pub fn apply_ack(acked: u64, avail: u64, value: u64) -> (r: u64)
    ensures
        r == ack_mask(acked, avail, value),
{
    acked | (value & avail)
}

/// Acknowledged bits never leave the advertised set: acknowledging any value
/// preserves `acked & !avail == 0`.
pub proof fn lemma_ack_stays_advertised(acked: u64, avail: u64, value: u64)
    by (bit_vector)
    requires
        acked & !avail == 0,
    ensures
        ack_mask(acked, avail, value) & !avail == 0,
{
}

/// Every bit of a feature word that is disjoint from the complement of
/// `avail` is a member of `avail`: the bitwise statement of "acknowledged
/// features are a subset of advertised features".
pub proof fn lemma_subset_bits(acked: u64, avail: u64)
    by (bit_vector)
    requires
        acked & !avail == 0,
    ensures
        forall|bit: u64| bit < 64 ==> ((acked >> bit) & 1 == 1 ==> (avail >> bit) & 1 == 1),
{
}

/// The TAP offload flags that a given acknowledged virtio feature set
/// programs into the kernel.
pub open spec fn tap_offload_of(acked: u64) -> u32 {
    let csum: u32 = if feature_set(acked, VIRTIO_NET_F_GUEST_CSUM) {
        TAP_F_CSUM
    } else {
        0
    };
    let tso4: u32 = if feature_set(acked, VIRTIO_NET_F_GUEST_TSO4) {
        TAP_F_TSO4
    } else {
        0
    };
    let tso6: u32 = if feature_set(acked, VIRTIO_NET_F_GUEST_TSO6) {
        TAP_F_TSO6
    } else {
        0
    };
    let ecn: u32 = if feature_set(acked, VIRTIO_NET_F_GUEST_ECN) {
        TAP_F_TSO_ECN
    } else {
        0
    };
    let ufo: u32 = if feature_set(acked, VIRTIO_NET_F_GUEST_UFO) {
        TAP_F_UFO
    } else {
        0
    };
    csum | tso4 | tso6 | ecn | ufo
}

/// Translates acknowledged guest offload feature bits into kernel TAP
/// offload flags: GUEST_CSUM, GUEST_TSO4/6, GUEST_ECN and GUEST_UFO map to
/// their TAP counterparts; nothing else contributes.
pub fn virtio_features_to_tap_offload(acked: u64) -> (r: u32)
    ensures
        r == tap_offload_of(acked),
{
    let csum: u32 = if has_feature(acked, VIRTIO_NET_F_GUEST_CSUM) {
        TAP_F_CSUM
    } else {
        0
    };
    let tso4: u32 = if has_feature(acked, VIRTIO_NET_F_GUEST_TSO4) {
        TAP_F_TSO4
    } else {
        0
    };
    let tso6: u32 = if has_feature(acked, VIRTIO_NET_F_GUEST_TSO6) {
        TAP_F_TSO6
    } else {
        0
    };
    let ecn: u32 = if has_feature(acked, VIRTIO_NET_F_GUEST_ECN) {
        TAP_F_TSO_ECN
    } else {
        0
    };
    let ufo: u32 = if has_feature(acked, VIRTIO_NET_F_GUEST_UFO) {
        TAP_F_UFO
    } else {
        0
    };
    csum | tso4 | tso6 | ecn | ufo
}

} // verus!
