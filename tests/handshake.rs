use bitcoin_p2p_example::address::{bytes_to_socket, socket_to_bytes, to_ipv6, Endpoint};
use bitcoin_p2p_example::checksum::digest;
use bitcoin_p2p_example::config::{Config, LogLevel};
use bitcoin_p2p_example::error::Error;
use bitcoin_p2p_example::fanout::tally;
use bitcoin_p2p_example::handshake::{check_nonce, Action, Event, Handshake, Phase};
use bitcoin_p2p_example::header::{from_hex_string, to_hex_string, Header};
use bitcoin_p2p_example::message::Message;
use bitcoin_p2p_example::verack::Verack;
use bitcoin_p2p_example::version::Version;

fn v4(a: u8, b: u8, c: u8, d: u8, port: u16) -> Endpoint {
    Endpoint { ip: vec![a, b, c, d], port }
}

fn mapped(a: u8, b: u8, c: u8, d: u8) -> Vec<u8> {
    vec![0, 0, 0, 0, 0, 0, 0, 0, 0, 0, 0xff, 0xff, a, b, c, d]
}

fn sample_version(nonce: u64) -> Version {
    Version::new_at(
        String::from("f9beb4d9"),
        nonce,
        v4(10, 0, 0, 1, 8333),
        v4(192, 168, 1, 7, 18333),
        1_700_000_000,
    )
}

#[test]
fn test_serde() {
    let msg = Verack::new(String::from("f9beb4d9"));
    let serialized_msg = msg.to_bytes().unwrap();
    let msg1 = Verack::from_bytes(serialized_msg.as_slice()).unwrap();
    let str1 = format!("{:?}", msg);
    let str2 = format!("{:?}", msg1);
    assert_eq!(str1, str2);
}

#[test]
fn verack_concrete_vector() {
    let bytes = Verack::new(String::from("f9beb4d9")).to_bytes().unwrap();
    let expected: Vec<u8> = vec![
        0xd9, 0xb4, 0xbe, 0xf9, 0x76, 0x65, 0x72, 0x61, 0x63, 0x6b, 0, 0, 0, 0, 0, 0, 0, 0, 0, 0,
        0x5d, 0xf6, 0xe0, 0xe2,
    ];
    assert_eq!(bytes, expected);
}

#[test]
fn empty_payload_checksum() {
    assert_eq!(digest(&[]), vec![0x5d, 0xf6, 0xe0, 0xe2]);
    assert_ne!(digest(&[0]), vec![0x5d, 0xf6, 0xe0, 0xe2]);
}

#[test]
fn verack_rejects_short_and_corrupt_input() {
    let bytes = Verack::new(String::from("0b110907")).to_bytes().unwrap();
    assert_eq!(Verack::from_bytes(&bytes[..23]), Err(Error::IOError));
    let mut bad = bytes.clone();
    bad[21] ^= 0xff;
    assert_eq!(Verack::from_bytes(&bad), Err(Error::ChecksumError));
}

#[test]
fn magic_hex_errors() {
    assert_eq!(from_hex_string(&String::from("f9beb4zz")), Err(Error::HexDecodeError));
    assert_eq!(from_hex_string(&String::from("f9b")), Err(Error::HexDecodeError));
    assert_eq!(from_hex_string(&String::from("f9be")), Ok(vec![0xbe, 0xf9]));
    assert_eq!(from_hex_string(&String::from("")), Ok(vec![]));
    assert_eq!(from_hex_string(&String::from("0b110907")), Ok(vec![0x07, 0x09, 0x11, 0x0b]));
    assert_eq!(to_hex_string(&[0x07, 0x09, 0x11, 0x0b]), String::from("0b110907"));
    let mut v = Verack::new(String::from("xyz"));
    assert_eq!(v.to_bytes(), Err(Error::HexDecodeError));
    v = Verack::new(String::from("f9beb4d9aa"));
    assert_eq!(v.to_bytes(), Err(Error::BadMessageHeader));
}

#[test]
fn hex_string_round_trip() {
    for bytes in [vec![], vec![0x0a], vec![0xff, 0x00, 0x7e], vec![1, 2, 3, 4, 5, 6, 7, 8, 9]] {
        let s = to_hex_string(&bytes);
        assert_eq!(from_hex_string(&s), Ok(bytes));
    }
}

#[test]
fn header_from_bytes() {
    let bytes = Verack::new(String::from("f9beb4d9")).to_bytes().unwrap();
    let h = Header::from_bytes(&bytes).unwrap();
    assert_eq!(h.start_string, String::from("f9beb4d9"));
    assert_eq!(h.payload_size(), 0);
    assert_eq!(h.checksum, vec![0x5d, 0xf6, 0xe0, 0xe2]);
    assert_eq!(Header::from_bytes(&bytes[..10]).unwrap_err(), Error::IOError);
}

#[test]
fn version_round_trip() {
    let mut sent = sample_version(0x0102030405060708);
    sent.set_user_agent(b"/Satoshi:25.0.0/".to_vec());
    sent.set_relay(Some(1));
    let bytes = sent.to_bytes().unwrap();
    assert_eq!(bytes.len(), 24 + 85 + 16 + 1);
    assert_eq!(&bytes[16..20], &[102u8, 0, 0, 0]);
    let got = Version::from_bytes(&bytes).unwrap();
    let p = &got.payload;
    assert_eq!(p.version, 70016);
    assert_eq!(p.services, 1);
    assert_eq!(p.timestamp, 1_700_000_000);
    assert_eq!(p.addr_recv_services, 1);
    assert_eq!(p.recv, Endpoint { ip: mapped(192, 168, 1, 7), port: 18333 });
    assert_eq!(p.addr_trans_services, 1);
    assert_eq!(p.trans, Endpoint { ip: mapped(10, 0, 0, 1), port: 8333 });
    assert_eq!(p.nonce, 0x0102030405060708);
    assert_eq!(p.user_agent_bytes, 16);
    assert_eq!(p.user_agent, Some(b"/Satoshi:25.0.0/".to_vec()));
    assert_eq!(p.start_height, 0);
    assert_eq!(p.relay, Some(1));
    assert_eq!(got.header, sent.header);
    assert_eq!(got.get_nonce(), sent.get_nonce());
}

#[test]
fn version_negative_fields_round_trip() {
    let mut sent = sample_version(7);
    sent.payload.version = -5;
    sent.payload.timestamp = -1;
    sent.payload.start_height = i32::MIN;
    let bytes = sent.to_bytes().unwrap();
    let got = Version::from_bytes(&bytes).unwrap();
    assert_eq!(got.payload.version, -5);
    assert_eq!(got.payload.timestamp, -1);
    assert_eq!(got.payload.start_height, i32::MIN);
}

#[test]
fn version_layout_is_little_endian() {
    let mut sent = sample_version(0x1122334455667788);
    let bytes = sent.to_bytes().unwrap();
    assert_eq!(bytes.len(), 24 + 85);
    assert_eq!(&bytes[4..16], b"version\0\0\0\0\0");
    assert_eq!(&bytes[24..28], &70016i32.to_le_bytes());
    // receiver endpoint: mapped address, then the port big-endian
    assert_eq!(&bytes[24 + 28..24 + 44], mapped(192, 168, 1, 7).as_slice());
    assert_eq!(&bytes[24 + 44..24 + 46], &[0x47, 0x9d]);
    assert_eq!(&bytes[24 + 72..24 + 80], &0x1122334455667788u64.to_le_bytes());
    assert_eq!(bytes[24 + 80], 0);
    assert_eq!(&bytes[20..24], digest(&bytes[24..]).as_slice());
}

#[test]
fn every_flipped_payload_byte_is_rejected() {
    let mut sent = sample_version(99);
    sent.set_user_agent(b"/x/".to_vec());
    let bytes = sent.to_bytes().unwrap();
    for i in 24..bytes.len() {
        let mut bad = bytes.clone();
        bad[i] ^= 0x01;
        assert_eq!(Version::from_bytes(&bad).unwrap_err(), Error::ChecksumError);
    }
}

#[test]
fn version_short_input() {
    let mut sent = sample_version(1);
    let bytes = sent.to_bytes().unwrap();
    assert_eq!(Version::from_bytes(&bytes[..20]).unwrap_err(), Error::IOError);
    assert_eq!(Version::from_bytes(&bytes[..100]).unwrap_err(), Error::IOError);
}

#[test]
fn user_agent_without_relay() {
    let mut sent = sample_version(5);
    sent.set_user_agent(b"/agent:1/".to_vec());
    let bytes = sent.to_bytes().unwrap();
    assert_eq!(bytes.len(), 24 + 85 + 9);
    let got = Version::from_bytes(&bytes).unwrap();
    assert_eq!(got.payload.user_agent, Some(b"/agent:1/".to_vec()));
    assert_eq!(got.payload.relay, None);
}

#[test]
fn same_nonce_is_self_connection() {
    let a = sample_version(42);
    let b = sample_version(42);
    let c = sample_version(43);
    assert_eq!(check_nonce(a.get_nonce(), &b), Err(Error::NonceConflictError));
    assert_eq!(check_nonce(a.get_nonce(), &c), Ok(()));
}

#[test]
fn ipv4_is_mapped_and_stable() {
    let mut e = v4(127, 0, 0, 1, 8333);
    let wire = socket_to_bytes(&e);
    assert_eq!(wire.len(), 18);
    assert_eq!(&wire[..16], mapped(127, 0, 0, 1).as_slice());
    assert_eq!(&wire[16..], &[0x20, 0x8d]);
    let decoded = bytes_to_socket(&wire[..16], 8333);
    assert_eq!(decoded, Endpoint { ip: mapped(127, 0, 0, 1), port: 8333 });
    assert_eq!(socket_to_bytes(&decoded), wire);
    to_ipv6(&mut e);
    assert_eq!(e, decoded);
    let v6 = Endpoint { ip: vec![0x20, 0x01, 0x0d, 0xb8, 0, 0, 0, 0, 0, 0, 0, 0, 0, 0, 0, 1], port: 1 };
    let mut same = v6.clone();
    to_ipv6(&mut same);
    assert_eq!(same, v6);
}

#[test]
fn tally_counts_in_any_order() {
    let ok = || Ok(());
    let bad = || Err(Error::IOError);
    let orders = vec![
        vec![ok(), ok(), bad(), bad(), bad()],
        vec![bad(), ok(), bad(), ok(), bad()],
        vec![bad(), bad(), bad(), ok(), ok()],
    ];
    for outcomes in orders {
        let t = tally(&outcomes);
        assert_eq!(t.succeeded, 2);
        assert_eq!(t.failed, 3);
        assert_eq!(t.total(), 5);
    }
    let empty: Vec<Result<(), Error>> = Vec::new();
    assert_eq!(tally(&empty).total(), 0);
}

fn peer_reply(nonce: u64) -> Vec<u8> {
    let mut peer = Version::new_at(
        String::from("f9beb4d9"),
        nonce,
        v4(192, 168, 1, 7, 18333),
        v4(10, 0, 0, 1, 8333),
        1_700_000_100,
    );
    peer.to_bytes().unwrap()
}

#[test]
fn handshake_completes() {
    let mut hs = Handshake::new(v4(10, 0, 0, 1, 8333), String::from("f9beb4d9"), 77);
    assert_eq!(hs.phase, Phase::Connected);
    let first = hs.step(Event::Opened { local: v4(192, 168, 1, 7, 18333), timestamp: 1_700_000_000 });
    let mut expected = sample_version(77);
    assert_eq!(first, Action::Send(expected.to_bytes().unwrap()));
    assert_eq!(hs.phase, Phase::VersionSent);
    let second = hs.step(Event::Received(peer_reply(78)));
    assert_eq!(second, Action::Send(Verack::new(String::from("f9beb4d9")).to_bytes().unwrap()));
    assert_eq!(hs.phase, Phase::VerackSent);
    assert!(!hs.is_finished());
    let third = hs.step(Event::Received(Verack::new(String::from("f9beb4d9")).to_bytes().unwrap()));
    assert_eq!(third, Action::Finish);
    assert_eq!(hs.phase, Phase::Complete);
    assert!(hs.is_finished());
}

#[test]
fn handshake_detects_self_connection() {
    let mut hs = Handshake::new(v4(10, 0, 0, 1, 8333), String::from("f9beb4d9"), 77);
    hs.step(Event::Opened { local: v4(192, 168, 1, 7, 18333), timestamp: 5 });
    let r = hs.step(Event::Received(peer_reply(77)));
    assert_eq!(r, Action::Abort(Error::NonceConflictError));
    assert_eq!(hs.phase, Phase::Failed(Error::NonceConflictError));
}

#[test]
fn handshake_failures() {
    let mut hs = Handshake::with_random_nonce(v4(10, 0, 0, 1, 8333), String::from("f9beb4d9"));
    hs.step(Event::Opened { local: v4(192, 168, 1, 7, 18333), timestamp: 5 });
    let mut bad = peer_reply(hs.nonce.wrapping_add(1));
    bad[30] ^= 0x10;
    assert_eq!(hs.step(Event::Received(bad)), Action::Abort(Error::ChecksumError));

    let mut hs = Handshake::new(v4(10, 0, 0, 1, 8333), String::from("f9beb4d9"), 1);
    assert_eq!(hs.step(Event::TransportFailed), Action::Abort(Error::IOError));
    assert_eq!(hs.phase, Phase::Failed(Error::IOError));

    let mut hs = Handshake::new(v4(10, 0, 0, 1, 8333), String::from("f9beb4d9"), 1);
    assert_eq!(hs.step(Event::Received(vec![1, 2, 3])), Action::Abort(Error::IOError));

    let mut hs = Handshake::new(v4(10, 0, 0, 1, 8333), String::from("nothex"), 1);
    let r = hs.step(Event::Opened { local: v4(192, 168, 1, 7, 18333), timestamp: 5 });
    assert_eq!(r, Action::Abort(Error::HexDecodeError));
}

#[test]
fn handshake_remote_is_canonical() {
    let hs = Handshake::new(v4(1, 2, 3, 4, 8333), String::from("f9beb4d9"), 1);
    assert_eq!(hs.remote, Endpoint { ip: mapped(1, 2, 3, 4), port: 8333 });
}

#[test]
fn version_new_uses_current_time() {
    let v = Version::new(String::from("f9beb4d9"), 3, v4(1, 1, 1, 1, 1), v4(2, 2, 2, 2, 2)).unwrap();
    assert!(v.payload.timestamp > 1_600_000_000);
    assert_eq!(v.get_nonce(), 3);
}

fn config(level: &str, port: u32, magic: &str) -> Config {
    Config {
        dns_seed: String::from("seed.example.org"),
        network_port: port,
        start_string: String::from(magic),
        log_level: String::from(level),
    }
}

#[test]
fn config_validation() {
    assert_eq!(config("info", 8333, "f9beb4d9").validate(), Ok(()));
    assert_eq!(config("off", 18333, "0b110907").validate(), Ok(()));
    assert_eq!(
        config("loud", 8333, "f9beb4d9").validate(),
        Err(Error::ConfigDataEror(String::from("Invalid log level.")))
    );
    assert_eq!(
        config("debug", 8334, "f9beb4d9").validate(),
        Err(Error::ConfigDataEror(String::from("Invalid network port.")))
    );
    assert_eq!(
        config("warn", 8333, "deadbeef").validate(),
        Err(Error::ConfigDataEror(String::from("Invalid start string")))
    );
}

#[test]
fn config_log_levels() {
    assert_eq!(config("debug", 8333, "f9beb4d9").get_log_level(), LogLevel::Debug);
    assert_eq!(config("error", 8333, "f9beb4d9").get_log_level(), LogLevel::Error);
    assert_eq!(config("trace", 8333, "f9beb4d9").get_log_level(), LogLevel::Trace);
    assert_eq!(config("warn", 8333, "f9beb4d9").get_log_level(), LogLevel::Warn);
    assert_eq!(config("off", 8333, "f9beb4d9").get_log_level(), LogLevel::Off);
    assert_eq!(config("info", 8333, "f9beb4d9").get_log_level(), LogLevel::Info);
    assert_eq!(config("other", 8333, "f9beb4d9").get_log_level(), LogLevel::Info);
}

#[test]
fn message_kinds_write_as_their_kind() {
    let mut ack = Message::Verack(Verack::new(String::from("f9beb4d9")));
    assert_eq!(ack.to_bytes().unwrap(), Verack::new(String::from("f9beb4d9")).to_bytes().unwrap());
    let mut version = Message::Version(sample_version(9));
    let mut direct = sample_version(9);
    assert_eq!(version.to_bytes().unwrap(), direct.to_bytes().unwrap());
    assert_eq!(version, Message::Version(direct));
}

#[test]
fn echoed_version_is_self_connection() {
    let mut hs = Handshake::new(v4(10, 0, 0, 1, 8333), String::from("0b110907"), 5);
    let sent = match hs.step(Event::Opened { local: v4(192, 168, 1, 7, 18333), timestamp: 9 }) {
        Action::Send(bytes) => bytes,
        other => panic!("unexpected action {:?}", other),
    };
    assert_eq!(hs.step(Event::Received(sent)), Action::Abort(Error::NonceConflictError));
}

#[test]
fn readers_check_the_command() {
    let ack = Verack::new(String::from("f9beb4d9")).to_bytes().unwrap();
    let mut v = sample_version(4);
    let version = v.to_bytes().unwrap();
    assert_eq!(Version::from_bytes(&ack).unwrap_err(), Error::BadMessageHeader);
    assert_eq!(Verack::from_bytes(&version).unwrap_err(), Error::BadMessageHeader);
    let mut renamed = ack.clone();
    renamed[4] = b'x';
    assert_eq!(Verack::from_bytes(&renamed).unwrap_err(), Error::BadMessageHeader);
}

#[test]
fn message_reads_by_command() {
    let ack = Verack::new(String::from("f9beb4d9")).to_bytes().unwrap();
    let mut v = sample_version(4);
    let version = v.to_bytes().unwrap();
    assert_eq!(
        Message::from_bytes(&ack).unwrap(),
        Message::Verack(Verack::from_bytes(&ack).unwrap())
    );
    assert_eq!(
        Message::from_bytes(&version).unwrap(),
        Message::Version(Version::from_bytes(&version).unwrap())
    );
    let mut unknown = ack.clone();
    unknown[4..16].copy_from_slice(b"ping\0\0\0\0\0\0\0\0");
    assert_eq!(Message::from_bytes(&unknown).unwrap_err(), Error::BadMessageHeader);
    assert_eq!(Message::from_bytes(&ack[..12]).unwrap_err(), Error::IOError);
    let mut corrupt = version.clone();
    corrupt[40] ^= 1;
    assert_eq!(Message::from_bytes(&corrupt).unwrap_err(), Error::ChecksumError);
}

#[test]
fn handshake_rejects_wrong_kind() {
    let mut hs = Handshake::new(v4(10, 0, 0, 1, 8333), String::from("f9beb4d9"), 77);
    hs.step(Event::Opened { local: v4(192, 168, 1, 7, 18333), timestamp: 5 });
    let ack = Verack::new(String::from("f9beb4d9")).to_bytes().unwrap();
    assert_eq!(hs.step(Event::Received(ack)), Action::Abort(Error::BadMessageHeader));
}
