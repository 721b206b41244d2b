//! Guest-visible configuration spaces, laid out little-endian, and the
//! clipped read every device offers: bytes inside the config space are
//! copied, bytes beyond it read as zero.

use vstd::prelude::*;

verus! {

/// The virtio-net configuration space: MAC address, link status, the
/// multi-queue pair limit and the MTU.
#[derive(Clone, Copy)]
pub struct VirtioNetConfig {
    pub mac: [u8; 6],
    pub status: u16,
    pub max_virtqueue_pairs: u16,
    pub mtu: u16,
}

/// The little-endian bytes of a 16-bit field.
pub open spec fn le16(x: u16) -> Seq<u8> {
    seq![(x % 256) as u8, (x / 256) as u8]
}

/// The little-endian bytes of a 32-bit field.
pub open spec fn le32(x: u32) -> Seq<u8> {
    seq![
        (x % 256) as u8,
        ((x / 256) % 256) as u8,
        ((x / 0x10000) % 256) as u8,
        (x / 0x1000000) as u8,
    ]
}

impl VirtioNetConfig {
    /// The wire layout of the net config space.
    pub open spec fn bytes(self) -> Seq<u8> {
        self.mac@ + le16(self.status) + le16(self.max_virtqueue_pairs) + le16(self.mtu)
    }

    /// A zeroed config space.
    pub fn zeroed() -> (r: VirtioNetConfig)
        ensures
            r.status == 0,
            r.max_virtqueue_pairs == 0,
            r.mtu == 0,
            r.mac@ =~= seq![0u8, 0u8, 0u8, 0u8, 0u8, 0u8],
    {
        let mac: [u8; 6] = [0, 0, 0, 0, 0, 0];
        assert(mac@ =~= seq![0u8, 0u8, 0u8, 0u8, 0u8, 0u8]);
        VirtioNetConfig { mac, status: 0, max_virtqueue_pairs: 0, mtu: 0 }
    }

    /// Serializes the config space to its guest-visible bytes.
    pub fn to_bytes(&self) -> (r: Vec<u8>)
        ensures
            r@ == self.bytes(),
    {
        let mut out: Vec<u8> = Vec::new();
        let mut i: usize = 0;
        while i < 6
            invariant
                0 <= i <= 6,
                out@ == self.mac@.take(i as int),
            decreases 6 - i,
        {
            let b = self.mac[i];
            out.push(b);
            assert(out@ =~= self.mac@.take(i + 1));
            i = i + 1;
        }
        assert(out@ =~= self.mac@);
        push_le16(&mut out, self.status);
        push_le16(&mut out, self.max_virtqueue_pairs);
        push_le16(&mut out, self.mtu);
        assert(out@ =~= self.bytes());
        out
    }
}

/// Appends a 16-bit field little-endian.
pub fn push_le16(out: &mut Vec<u8>, x: u16)
    ensures
        final(out)@ == old(out)@ + le16(x),
{
    out.push((x % 256) as u8);
    out.push((x / 256) as u8);
    assert(out@ =~= old(out)@ + le16(x));
}

/// Appends a 32-bit field little-endian.
pub fn push_le32(out: &mut Vec<u8>, x: u32)
    ensures
        final(out)@ == old(out)@ + le32(x),
{
    out.push((x % 256) as u8);
    out.push(((x / 256) % 256) as u8);
    out.push(((x / 0x10000) % 256) as u8);
    out.push((x / 0x1000000) as u8);
    assert(out@ =~= old(out)@ + le32(x));
}

/// What a clipped config read returns for each requested byte: the config
/// byte when the position is inside the space, zero beyond it.
pub open spec fn read_at(config: Seq<u8>, offset: int, i: int) -> u8 {
    if offset + i < config.len() {
        config[offset + i]
    } else {
        0
    }
}

/// Copies from the config space at `offset` into `data`, clipping to the
/// space's length: every byte of `data` receives the config byte at its
/// position, or zero where the position lies beyond the space.
pub fn read_config_bytes(config: &Vec<u8>, offset: u64, data: &mut Vec<u8>)
    ensures
        final(data)@.len() == old(data)@.len(),
        forall|i: int|
            0 <= i < final(data)@.len() ==> final(data)@[i] == read_at(
                config@,
                offset as int,
                i,
            ),
{
    let n = data.len();
    let mut i: usize = 0;
    while i < n
        invariant
            0 <= i <= n,
            n == data@.len(),
            forall|j: int| 0 <= j < i ==> data@[j] == read_at(config@, offset as int, j),
        decreases n - i,
    {
        let in_range = offset < config.len() as u64 && (i as u64) < config.len() as u64 - offset;
        let b = if in_range {
            config[(offset as usize) + i]
        } else {
            0
        };
        data[i] = b;
        i = i + 1;
    }
}

} // verus!
