//! The backend option string and its value parsers.

use virtio_net_core::backend_config::{Error, ParseFault, VhostUserNetBackendConfig};
use virtio_net_core::parse::{parse_ipv4, parse_mac, parse_toggle, parse_u64_dec};

#[test]
fn socket_and_queue_options_parse_with_defaults_for_the_rest() {
    let cfg = VhostUserNetBackendConfig::parse("socket=/tmp/s,num_queues=4,queue_size=512")
        .ok()
        .unwrap();
    assert_eq!(cfg.socket, b"/tmp/s".to_vec());
    assert_eq!(cfg.num_queues, 4);
    assert_eq!(cfg.queue_size, 512);
    assert_eq!(cfg.ip.octets, [192, 168, 100, 1]);
    assert_eq!(cfg.mask.octets, [255, 255, 255, 0]);
    assert!(!cfg.client);
    assert!(cfg.tap.is_none());
    assert!(cfg.host_mac.is_none());
}

#[test]
fn a_string_without_socket_is_fatal() {
    assert!(matches!(
        VhostUserNetBackendConfig::parse("num_queues=4,queue_size=512"),
        Err(Error::SocketParameterMissing)
    ));
}

#[test]
fn every_recognised_option_lands_in_its_field() {
    let cfg = VhostUserNetBackendConfig::parse(
        "tap=vmtap0,ip=10.0.0.2,host_mac=12:34:56:ab:cd:ef,mask=255.255.0.0,\
         queue_size=1024,num_queues=6,socket=/run/vu.sock,client=on",
    )
    .ok()
    .unwrap();
    assert_eq!(cfg.tap, Some(b"vmtap0".to_vec()));
    assert_eq!(cfg.ip.octets, [10, 0, 0, 2]);
    assert_eq!(
        cfg.host_mac.unwrap().bytes,
        [0x12, 0x34, 0x56, 0xab, 0xcd, 0xef]
    );
    assert_eq!(cfg.mask.octets, [255, 255, 0, 0]);
    assert_eq!(cfg.queue_size, 1024);
    assert_eq!(cfg.num_queues, 6);
    assert_eq!(cfg.socket, b"/run/vu.sock".to_vec());
    assert!(cfg.client);
}

#[test]
fn the_last_occurrence_of_a_key_wins() {
    let cfg = VhostUserNetBackendConfig::parse("socket=/a,socket=/b,client=on,client=off")
        .ok()
        .unwrap();
    assert_eq!(cfg.socket, b"/b".to_vec());
    assert!(!cfg.client);
}

#[test]
fn faulty_strings_are_rejected_with_their_fault() {
    assert!(matches!(
        VhostUserNetBackendConfig::parse("socket=/s,bogus=1"),
        Err(Error::FailedConfigParse(ParseFault::UnknownOption))
    ));
    assert!(matches!(
        VhostUserNetBackendConfig::parse("socket=/s,queue_size"),
        Err(Error::FailedConfigParse(ParseFault::MalformedField))
    ));
    assert!(matches!(
        VhostUserNetBackendConfig::parse("socket=/s,queue_size=abc"),
        Err(Error::FailedConfigParse(ParseFault::InvalidValue))
    ));
    assert!(matches!(
        VhostUserNetBackendConfig::parse("socket=/s,queue_size=65536"),
        Err(Error::FailedConfigParse(ParseFault::InvalidValue))
    ));
    assert!(matches!(
        VhostUserNetBackendConfig::parse("socket=/s,ip=256.0.0.1"),
        Err(Error::FailedConfigParse(ParseFault::InvalidValue))
    ));
    assert!(matches!(
        VhostUserNetBackendConfig::parse("socket=/s,host_mac=12:34"),
        Err(Error::FailedConfigParse(ParseFault::InvalidValue))
    ));
    assert!(matches!(
        VhostUserNetBackendConfig::parse("socket=/s,client=maybe"),
        Err(Error::FailedConfigParse(ParseFault::InvalidValue))
    ));
}

#[test]
fn empty_entries_are_skipped() {
    let cfg = VhostUserNetBackendConfig::parse("socket=/s,,client=on,")
        .ok()
        .unwrap();
    assert!(cfg.client);
}

#[test]
fn decimal_parser_handles_bounds() {
    assert_eq!(parse_u64_dec(&b"0".to_vec()), Some(0));
    assert_eq!(parse_u64_dec(&b"42".to_vec()), Some(42));
    assert_eq!(
        parse_u64_dec(&b"18446744073709551615".to_vec()),
        Some(u64::MAX)
    );
    assert_eq!(parse_u64_dec(&b"18446744073709551616".to_vec()), None);
    assert_eq!(parse_u64_dec(&b"".to_vec()), None);
    assert_eq!(parse_u64_dec(&b"1x".to_vec()), None);
}

#[test]
fn ipv4_parser_accepts_dotted_quads_only() {
    assert_eq!(parse_ipv4(&b"0.0.0.0".to_vec()), Some([0, 0, 0, 0]));
    assert_eq!(
        parse_ipv4(&b"255.255.255.255".to_vec()),
        Some([255, 255, 255, 255])
    );
    assert_eq!(parse_ipv4(&b"1.2.3".to_vec()), None);
    assert_eq!(parse_ipv4(&b"1.2.3.4.5".to_vec()), None);
    assert_eq!(parse_ipv4(&b"01.2.3.4".to_vec()), None);
    assert_eq!(parse_ipv4(&b"1.2.3.".to_vec()), None);
    assert_eq!(parse_ipv4(&b"1.2.3.1000".to_vec()), None);
}

#[test]
fn mac_parser_wants_six_hex_pairs() {
    assert_eq!(
        parse_mac(&b"00:11:22:AA:bb:Cf".to_vec()),
        Some([0x00, 0x11, 0x22, 0xaa, 0xbb, 0xcf])
    );
    assert_eq!(parse_mac(&b"00:11:22:AA:bb".to_vec()), None);
    assert_eq!(parse_mac(&b"00:11:22:AA:bb:GG".to_vec()), None);
    assert_eq!(parse_mac(&b"00-11-22-AA-bb-Cf".to_vec()), None);
}

#[test]
fn toggle_parser_knows_its_four_words() {
    assert_eq!(parse_toggle(&b"on".to_vec()), Some(true));
    assert_eq!(parse_toggle(&b"true".to_vec()), Some(true));
    assert_eq!(parse_toggle(&b"off".to_vec()), Some(false));
    assert_eq!(parse_toggle(&b"false".to_vec()), Some(false));
    assert_eq!(parse_toggle(&b"yes".to_vec()), None);
    assert_eq!(parse_toggle(&b"".to_vec()), None);
}
