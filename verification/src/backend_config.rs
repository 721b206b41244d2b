//! The vhost-user-net backend's error type and connection configuration:
//! a comma-separated `key=value` string with the recognised options `tap`,
//! `ip`, `host_mac`, `mask`, `queue_size`, `num_queues`, `socket` and
//! `client`. The `socket` option is required; everything else has a default.
//! A random default for `host_mac` is drawn by the caller, so a missing
//! `host_mac` stays `None` here.

use vstd::prelude::*;
use vstd::string::StringSliceAdditionalSpecFns;

use crate::ctrl_queue::CtrlQueueError;
use crate::device::MacAddr;
use crate::parse::{
    find_sep,
    ipv4_of,
    mac_of,
    mac_ok,
    parse_ipv4,
    parse_mac,
    parse_toggle,
    parse_u64_dec,
    split_bytes,
    split_exec,
    toggle_of,
    u64_of_dec,
    views_of,
    BYTE_COMMA,
    BYTE_EQUALS,
};
use crate::queue_pair::NetQueuePairError;

verus! {

/// An IPv4 address as four octets.
#[derive(Clone, Copy)]
pub struct Ipv4Address {
    pub octets: [u8; 4],
}

/// Why an option string was rejected.
pub enum ParseFault {
    /// An entry carries no `=`.
    MalformedField,
    /// An entry's key is not a recognised option.
    UnknownOption,
    /// An entry's value does not parse for its key.
    InvalidValue,
}

/// The backend's error type.
pub enum Error {
    /// Creating the kill event descriptor failed, with the OS error code.
    CreateKillEventFd(i32),
    /// The configuration string was rejected.
    FailedConfigParse(ParseFault),
    /// Signalling a used queue failed, with the OS error code.
    FailedSignalingUsedQueue(i32),
    /// An event other than an input event was handed in.
    HandleEventNotEpollIn,
    /// An unknown event identifier was handed in.
    HandleEventUnknownEvent,
    /// Opening the TAP device failed.
    OpenTap(String),
    /// The required `socket` option is missing.
    SocketParameterMissing,
    /// A transfer round failed.
    NetQueuePair(NetQueuePairError),
    /// Registering the TAP listener failed, with the OS error code.
    RegisterTapListener(i32),
    /// Control-queue processing failed.
    ProcessCtrlQueue(CtrlQueueError),
}

/// The parsed configuration. The socket path and interface name are carried
/// as their bytes.
pub struct VhostUserNetBackendConfig {
    pub ip: Ipv4Address,
    pub host_mac: Option<MacAddr>,
    pub mask: Ipv4Address,
    pub socket: Vec<u8>,
    pub num_queues: usize,
    pub queue_size: u16,
    pub tap: Option<Vec<u8>>,
    pub client: bool,
}

/// The options seen so far while folding over the entries.
pub struct SpecCfg {
    pub tap: Option<Seq<u8>>,
    pub ip: Option<Seq<u8>>,
    pub host_mac: Option<Seq<u8>>,
    pub mask: Option<Seq<u8>>,
    pub queue_size: Option<u16>,
    pub num_queues: Option<usize>,
    pub socket: Option<Seq<u8>>,
    pub client: Option<bool>,
}

/// No option seen yet.
pub open spec fn empty_cfg() -> SpecCfg {
    SpecCfg {
        tap: None,
        ip: None,
        host_mac: None,
        mask: None,
        queue_size: None,
        num_queues: None,
        socket: None,
        client: None,
    }
}

// The recognised option keys, as bytes.
/// `tap`
pub open spec fn key_tap() -> Seq<u8> {
    seq![116u8, 97u8, 112u8]
}

/// `ip`
pub open spec fn key_ip() -> Seq<u8> {
    seq![105u8, 112u8]
}

/// `host_mac`
pub open spec fn key_host_mac() -> Seq<u8> {
    seq![104u8, 111u8, 115u8, 116u8, 95u8, 109u8, 97u8, 99u8]
}

/// `mask`
pub open spec fn key_mask() -> Seq<u8> {
    seq![109u8, 97u8, 115u8, 107u8]
}

/// `queue_size`
pub open spec fn key_queue_size() -> Seq<u8> {
    seq![113u8, 117u8, 101u8, 117u8, 101u8, 95u8, 115u8, 105u8, 122u8, 101u8]
}

/// `num_queues`
pub open spec fn key_num_queues() -> Seq<u8> {
    seq![110u8, 117u8, 109u8, 95u8, 113u8, 117u8, 101u8, 117u8, 101u8, 115u8]
}

/// `socket`
pub open spec fn key_socket() -> Seq<u8> {
    seq![115u8, 111u8, 99u8, 107u8, 101u8, 116u8]
}

/// `client`
pub open spec fn key_client() -> Seq<u8> {
    seq![99u8, 108u8, 105u8, 101u8, 110u8, 116u8]
}

/// One entry against the options seen so far: an empty entry is skipped, an
/// entry without `=` is malformed, a recognised key stores its parsed value
/// (the last occurrence wins), an unparsable value or an unknown key fails.
pub open spec fn cfg_step(acc: SpecCfg, part: Seq<u8>) -> Result<SpecCfg, ParseFault> {
    if part.len() == 0 {
        Ok(acc)
    } else {
        let e = find_sep(part, BYTE_EQUALS) as int;
        if e >= part.len() {
            Err(ParseFault::MalformedField)
        } else {
            let key = part.take(e);
            let value = part.skip(e + 1);
            if key == key_tap() {
                Ok(SpecCfg { tap: Some(value), ..acc })
            } else if key == key_ip() {
                match ipv4_of(value) {
                    Some(o) => Ok(SpecCfg { ip: Some(o), ..acc }),
                    None => Err(ParseFault::InvalidValue),
                }
            } else if key == key_host_mac() {
                if mac_ok(value) {
                    Ok(SpecCfg { host_mac: Some(mac_of(value)), ..acc })
                } else {
                    Err(ParseFault::InvalidValue)
                }
            } else if key == key_mask() {
                match ipv4_of(value) {
                    Some(o) => Ok(SpecCfg { mask: Some(o), ..acc }),
                    None => Err(ParseFault::InvalidValue),
                }
            } else if key == key_queue_size() {
                match u64_of_dec(value) {
                    Some(v) => if v <= u16::MAX {
                        Ok(SpecCfg { queue_size: Some(v as u16), ..acc })
                    } else {
                        Err(ParseFault::InvalidValue)
                    },
                    None => Err(ParseFault::InvalidValue),
                }
            } else if key == key_num_queues() {
                match u64_of_dec(value) {
                    Some(v) => if v <= usize::MAX {
                        Ok(SpecCfg { num_queues: Some(v as usize), ..acc })
                    } else {
                        Err(ParseFault::InvalidValue)
                    },
                    None => Err(ParseFault::InvalidValue),
                }
            } else if key == key_socket() {
                Ok(SpecCfg { socket: Some(value), ..acc })
            } else if key == key_client() {
                match toggle_of(value) {
                    Some(b) => Ok(SpecCfg { client: Some(b), ..acc }),
                    None => Err(ParseFault::InvalidValue),
                }
            } else {
                Err(ParseFault::UnknownOption)
            }
        }
    }
}

/// The options after folding over all entries, oldest first; the first
/// faulty entry fails the whole string.
pub open spec fn cfg_fold(acc: SpecCfg, parts: Seq<Seq<u8>>) -> Result<SpecCfg, ParseFault>
    decreases parts.len(),
{
    if parts.len() == 0 {
        Ok(acc)
    } else {
        match cfg_fold(acc, parts.drop_last()) {
            Ok(a) => cfg_step(a, parts.last()),
            Err(f) => Err(f),
        }
    }
}

/// Once the fold has failed on a prefix, the whole string fails the same way.
pub proof fn lemma_cfg_fold_err(acc: SpecCfg, parts: Seq<Seq<u8>>, m: int, f: ParseFault)
    requires
        0 <= m <= parts.len(),
        cfg_fold(acc, parts.take(m)) == Err::<SpecCfg, ParseFault>(f),
    ensures
        cfg_fold(acc, parts) == Err::<SpecCfg, ParseFault>(f),
    decreases parts.len() - m,
{
    if m < parts.len() {
        assert(parts.take(m + 1).drop_last() =~= parts.take(m));
        assert(cfg_fold(acc, parts.take(m + 1)) == Err::<SpecCfg, ParseFault>(f));
        lemma_cfg_fold_err(acc, parts, m + 1, f);
    } else {
        assert(parts.take(m) =~= parts);
    }
}

/// How the finished configuration reflects the folded options: a stored
/// value verbatim, or the documented default — address `192.168.100.1`,
/// mask `255.255.255.0`, queue size 256, two queues, server mode, no TAP
/// name and no fixed host MAC.
pub open spec fn config_complete(cfg: VhostUserNetBackendConfig, a: SpecCfg) -> bool {
    &&& (a.ip matches Some(o) ==> cfg.ip.octets@ == o)
    &&& (a.ip is None ==> cfg.ip.octets@ == seq![192u8, 168u8, 100u8, 1u8])
    &&& (a.mask matches Some(o) ==> cfg.mask.octets@ == o)
    &&& (a.mask is None ==> cfg.mask.octets@ == seq![255u8, 255u8, 255u8, 0u8])
    &&& (a.host_mac matches Some(o) ==> (cfg.host_mac matches Some(m) && m.bytes@ == o))
    &&& (a.host_mac is None ==> cfg.host_mac is None)
    &&& (a.queue_size matches Some(v) ==> cfg.queue_size == v)
    &&& (a.queue_size is None ==> cfg.queue_size == 256)
    &&& (a.num_queues matches Some(v) ==> cfg.num_queues == v)
    &&& (a.num_queues is None ==> cfg.num_queues == 2)
    &&& (a.socket matches Some(o) ==> cfg.socket@ == o)
    &&& (a.tap matches Some(o) ==> (cfg.tap matches Some(t) && t@ == o))
    &&& (a.tap is None ==> cfg.tap is None)
    &&& (a.client matches Some(b) ==> cfg.client == b)
    &&& (a.client is None ==> cfg.client == false)
}

/// The options seen so far, during parsing.
struct PartialCfg {
    tap: Option<Vec<u8>>,
    ip: Option<[u8; 4]>,
    host_mac: Option<[u8; 6]>,
    mask: Option<[u8; 4]>,
    queue_size: Option<u16>,
    num_queues: Option<usize>,
    socket: Option<Vec<u8>>,
    client: Option<bool>,
}

/// The options a partial configuration has stored.
spec fn cfg_view(c: PartialCfg) -> SpecCfg {
    SpecCfg {
        tap: match c.tap {
            Some(v) => Some(v@),
            None => None,
        },
        ip: match c.ip {
            Some(o) => Some(o@),
            None => None,
        },
        host_mac: match c.host_mac {
            Some(o) => Some(o@),
            None => None,
        },
        mask: match c.mask {
            Some(o) => Some(o@),
            None => None,
        },
        queue_size: c.queue_size,
        num_queues: c.num_queues,
        socket: match c.socket {
            Some(v) => Some(v@),
            None => None,
        },
        client: c.client,
    }
}

/// Which recognised option a key names: 1 `tap`, 2 `ip`, 3 `host_mac`,
/// 4 `mask`, 5 `queue_size`, 6 `num_queues`, 7 `socket`, 8 `client`,
/// 0 none of them.
fn key_code(key: &Vec<u8>) -> (code: u8)
    ensures
        (code == 1) == (key@ == key_tap()),
        (code == 2) == (key@ == key_ip()),
        (code == 3) == (key@ == key_host_mac()),
        (code == 4) == (key@ == key_mask()),
        (code == 5) == (key@ == key_queue_size()),
        (code == 6) == (key@ == key_num_queues()),
        (code == 7) == (key@ == key_socket()),
        (code == 8) == (key@ == key_client()),
        code <= 8,
{
    let n = key.len();
    if n == 3 && key[0] == 116 && key[1] == 97 && key[2] == 112 {
        assert(key@ =~= key_tap());
        return 1;
    }
    if n == 2 && key[0] == 105 && key[1] == 112 {
        assert(key@ =~= key_ip());
        return 2;
    }
    if n == 8 && key[0] == 104 && key[1] == 111 && key[2] == 115 && key[3] == 116 && key[4] == 95
        && key[5] == 109 && key[6] == 97 && key[7] == 99 {
        assert(key@ =~= key_host_mac());
        return 3;
    }
    if n == 4 && key[0] == 109 && key[1] == 97 && key[2] == 115 && key[3] == 107 {
        assert(key@ =~= key_mask());
        return 4;
    }
    if n == 10 && key[0] == 113 && key[1] == 117 && key[2] == 101 && key[3] == 117 && key[4] == 101
        && key[5] == 95 && key[6] == 115 && key[7] == 105 && key[8] == 122 && key[9] == 101 {
        assert(key@ =~= key_queue_size());
        return 5;
    }
    if n == 10 && key[0] == 110 && key[1] == 117 && key[2] == 109 && key[3] == 95 && key[4] == 113
        && key[5] == 117 && key[6] == 101 && key[7] == 117 && key[8] == 101 && key[9] == 115 {
        assert(key@ =~= key_num_queues());
        return 6;
    }
    if n == 6 && key[0] == 115 && key[1] == 111 && key[2] == 99 && key[3] == 107 && key[4] == 101
        && key[5] == 116 {
        assert(key@ =~= key_socket());
        return 7;
    }
    if n == 6 && key[0] == 99 && key[1] == 108 && key[2] == 105 && key[3] == 101 && key[4] == 110
        && key[5] == 116 {
        assert(key@ =~= key_client());
        return 8;
    }
    proof {
        if key@ == key_tap() {
            assert(key@.len() == 3 && key@[0] == 116 && key@[1] == 97 && key@[2] == 112);
        }
        if key@ == key_ip() {
            assert(key@.len() == 2 && key@[0] == 105 && key@[1] == 112);
        }
        if key@ == key_host_mac() {
            assert(key@.len() == 8 && key@[0] == 104);
        }
        if key@ == key_mask() {
            assert(key@.len() == 4 && key@[0] == 109);
        }
        if key@ == key_queue_size() {
            assert(key@.len() == 10 && key@[0] == 113);
        }
        if key@ == key_num_queues() {
            assert(key@.len() == 10 && key@[0] == 110);
        }
        if key@ == key_socket() {
            assert(key@.len() == 6 && key@[0] == 115);
        }
        if key@ == key_client() {
            assert(key@.len() == 6 && key@[0] == 99);
        }
    }
    0
}

/// Copies `s[from..to]` into a fresh vector.
#[verifier::loop_isolation(false)]
fn copy_range(s: &Vec<u8>, from: usize, to: usize) -> (r: Vec<u8>)
    requires
        from <= to <= s@.len(),
    ensures
        r@ == s@.subrange(from as int, to as int),
{
    let mut out: Vec<u8> = Vec::new();
    let mut m = from;
    while m < to
        invariant
            from <= m <= to,
            out@ == s@.subrange(from as int, m as int),
        decreases to - m,
    {
        let b = s[m];
        out.push(b);
        assert(out@ =~= s@.subrange(from as int, m + 1));
        m = m + 1;
    }
    out
}

/// Applies one entry to the options seen so far.
#[verifier::loop_isolation(false)]
fn apply_entry(acc: &mut PartialCfg, part: &Vec<u8>) -> (r: Result<(), ParseFault>)
    ensures
        r matches Ok(u) ==> cfg_step(cfg_view(*old(acc)), part@) == Ok::<SpecCfg, ParseFault>(
            cfg_view(*final(acc)),
        ),
        r matches Err(f) ==> cfg_step(cfg_view(*old(acc)), part@) == Err::<SpecCfg, ParseFault>(f)
            && *final(acc) == *old(acc),
{
    let n = part.len();
    if n == 0 {
        return Ok(());
    }
    let mut e: usize = 0;
    while e < n && part[e] != BYTE_EQUALS
        invariant
            0 <= e <= n,
            forall|m: int| 0 <= m < e ==> part@[m] != BYTE_EQUALS,
        decreases n - e,
    {
        e = e + 1;
    }
    proof {
        crate::parse::lemma_find_sep_at(part@, BYTE_EQUALS, e as int);
    }
    if e == n {
        return Err(ParseFault::MalformedField);
    }
    let key = copy_range(part, 0, e);
    let value = copy_range(part, e + 1, n);
    assert(key@ =~= part@.take(e as int));
    assert(value@ =~= part@.skip(e + 1));
    let code = key_code(&key);
    if code == 1 {
        acc.tap = Some(value);
        Ok(())
    } else if code == 2 {
        match parse_ipv4(&value) {
            Some(o) => {
                acc.ip = Some(o);
                Ok(())
            },
            None => Err(ParseFault::InvalidValue),
        }
    } else if code == 3 {
        match parse_mac(&value) {
            Some(o) => {
                acc.host_mac = Some(o);
                Ok(())
            },
            None => Err(ParseFault::InvalidValue),
        }
    } else if code == 4 {
        match parse_ipv4(&value) {
            Some(o) => {
                acc.mask = Some(o);
                Ok(())
            },
            None => Err(ParseFault::InvalidValue),
        }
    } else if code == 5 {
        match parse_u64_dec(&value) {
            Some(v) => {
                if v <= u16::MAX as u64 {
                    acc.queue_size = Some(v as u16);
                    Ok(())
                } else {
                    Err(ParseFault::InvalidValue)
                }
            },
            None => Err(ParseFault::InvalidValue),
        }
    } else if code == 6 {
        match parse_u64_dec(&value) {
            Some(v) => {
                if v <= usize::MAX as u64 {
                    acc.num_queues = Some(v as usize);
                    Ok(())
                } else {
                    Err(ParseFault::InvalidValue)
                }
            },
            None => Err(ParseFault::InvalidValue),
        }
    } else if code == 7 {
        acc.socket = Some(value);
        Ok(())
    } else if code == 8 {
        match parse_toggle(&value) {
            Some(b) => {
                acc.client = Some(b);
                Ok(())
            },
            None => Err(ParseFault::InvalidValue),
        }
    } else {
        Err(ParseFault::UnknownOption)
    }
}

impl VhostUserNetBackendConfig {
    /// Parses a backend option string: comma-separated `key=value` entries
    /// with the recognised keys `tap`, `ip`, `host_mac`, `mask`,
    /// `queue_size`, `num_queues`, `socket` and `client`; the last
    /// occurrence of a key wins, empty entries are skipped. A malformed
    /// entry, an unknown key or an unparsable value fails the string; a
    /// string without `socket` is rejected as `SocketParameterMissing`;
    /// everything else takes its default.
    #[verifier::loop_isolation(false)]
    pub fn parse(backend: &str) -> (r: Result<VhostUserNetBackendConfig, Error>)
        ensures
            ({
                let folded = cfg_fold(
                    empty_cfg(),
                    split_bytes(backend.spec_bytes(), BYTE_COMMA),
                );
                &&& (r matches Ok(cfg) ==> (folded matches Ok(a) && a.socket is Some
                    && config_complete(cfg, a)))
                &&& (r matches Err(e) ==> match e {
                    Error::FailedConfigParse(f) => folded == Err::<SpecCfg, ParseFault>(f),
                    Error::SocketParameterMissing => (folded matches Ok(a) && a.socket is None),
                    _ => false,
                })
            }),
    {
        let bytes = backend.as_bytes();
        let parts = split_exec(bytes, BYTE_COMMA);
        let ghost all = views_of(parts@);
        let mut acc = PartialCfg {
            tap: None,
            ip: None,
            host_mac: None,
            mask: None,
            queue_size: None,
            num_queues: None,
            socket: None,
            client: None,
        };
        let count = parts.len();
        let mut j: usize = 0;
        proof {
            assert(all.take(0) =~= Seq::<Seq<u8>>::empty());
        }
        while j < count
            invariant
                0 <= j <= count,
                count == parts@.len(),
                all == views_of(parts@),
                cfg_fold(empty_cfg(), all.take(j as int)) == Ok::<SpecCfg, ParseFault>(
                    cfg_view(acc),
                ),
            decreases count - j,
        {
            let step = apply_entry(&mut acc, &parts[j]);
            proof {
                assert(all.take(j + 1).drop_last() =~= all.take(j as int));
                assert(all.take(j + 1).last() == parts@[j as int]@);
            }
            match step {
                Ok(u) => {},
                Err(f) => {
                    proof {
                        lemma_cfg_fold_err(empty_cfg(), all, j + 1, f);
                    }
                    return Err(Error::FailedConfigParse(f));
                },
            }
            j = j + 1;
        }
        proof {
            assert(all.take(count as int) =~= all);
        }
        let socket = match acc.socket {
            Some(v) => v,
            None => {
                return Err(Error::SocketParameterMissing);
            },
        };
        let ip = match acc.ip {
            Some(o) => Ipv4Address { octets: o },
            None => {
                let d: [u8; 4] = [192, 168, 100, 1];
                assert(d@ =~= seq![192u8, 168u8, 100u8, 1u8]);
                Ipv4Address { octets: d }
            },
        };
        let mask = match acc.mask {
            Some(o) => Ipv4Address { octets: o },
            None => {
                let d: [u8; 4] = [255, 255, 255, 0];
                assert(d@ =~= seq![255u8, 255u8, 255u8, 0u8]);
                Ipv4Address { octets: d }
            },
        };
        let host_mac = match acc.host_mac {
            Some(o) => Some(MacAddr { bytes: o }),
            None => None,
        };
        let queue_size = match acc.queue_size {
            Some(v) => v,
            None => 256,
        };
        let num_queues = match acc.num_queues {
            Some(v) => v,
            None => 2,
        };
        let client = match acc.client {
            Some(b) => b,
            None => false,
        };
        Ok(
            VhostUserNetBackendConfig {
                ip,
                host_mac,
                mask,
                socket,
                num_queues,
                queue_size,
                tap: acc.tap,
                client,
            },
        )
    }
}

} // verus!
