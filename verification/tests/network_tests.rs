use net_runner::game_interface::{push_log, LOG_LIMIT};
use net_runner::packet_reciever::{find_interface, handle_packet, PacketSummary};
use net_runner::sending::{
    packet_request, random_variant, variant_from_index, DnsRecord, PacketRequest, SendingVariant,
};

fn ethernet(ethertype: u16, payload: &[u8]) -> Vec<u8> {
    let mut f = vec![0xde, 0xf0, 0x12, 0x34, 0x45, 0x67, 0x12, 0x34, 0x56, 0x78, 0x9a, 0xbc];
    f.push((ethertype >> 8) as u8);
    f.push(ethertype as u8);
    f.extend_from_slice(payload);
    f
}

fn ipv4_header() -> Vec<u8> {
    vec![
        0x45, 0x11, 0x00, 0x73, 0x01, 0x01, 0x41, 0x01, 0x40, 0x11, 0xb6, 0x4e, 0xc0, 0xa8, 0x00,
        0x01, 0xc0, 0xa8, 0x00, 0xc7,
    ]
}

#[test]
fn ipv4_frame_is_summarised() {
    let frame = ethernet(0x0800, &ipv4_header());
    assert_eq!(
        handle_packet(&frame),
        Some(PacketSummary::Ipv4 {
            source: [192, 168, 0, 1],
            destination: [192, 168, 0, 199],
            protocol: 17,
            total_length: 115,
        })
    );
}

#[test]
fn arp_frame_is_named() {
    let frame = ethernet(0x0806, &[1, 2, 3]);
    assert_eq!(handle_packet(&frame), Some(PacketSummary::Arp));
}

#[test]
fn other_frames_are_ignored() {
    assert_eq!(handle_packet(&ethernet(0x86dd, &ipv4_header())), None);
    assert_eq!(handle_packet(&[0u8; 13]), None);
    assert_eq!(handle_packet(&ethernet(0x0800, &ipv4_header()[..19])), None);
}

#[test]
fn interface_found_by_name() {
    let names = vec!["lo".to_string(), "eth0".to_string(), "eth0".to_string()];
    assert_eq!(find_interface(&names, "eth0"), Some(1));
    assert_eq!(find_interface(&names, "lo"), Some(0));
    assert_eq!(find_interface(&names, "wlan0"), None);
    assert_eq!(find_interface(&Vec::new(), "lo"), None);
}

#[test]
fn variants_by_number() {
    assert_eq!(variant_from_index(0), SendingVariant::DnsA);
    assert_eq!(variant_from_index(1), SendingVariant::DnsTxt);
    assert_eq!(variant_from_index(2), SendingVariant::Https);
    assert_eq!(variant_from_index(3), SendingVariant::RawUdp);
    assert_eq!(variant_from_index(99), SendingVariant::RawUdp);
}

#[test]
fn random_variant_covers_all() {
    let mut seen = [false; 4];
    for _ in 0..400 {
        let i = match random_variant() {
            SendingVariant::DnsA => 0,
            SendingVariant::DnsTxt => 1,
            SendingVariant::Https => 2,
            SendingVariant::RawUdp => 3,
        };
        seen[i] = true;
    }
    assert_eq!(seen, [true; 4]);
}

#[test]
fn requests_per_variant() {
    match packet_request(SendingVariant::DnsA) {
        PacketRequest::DnsQuery { server, domain, record } => {
            assert_eq!((server, domain, record), ("8.8.8.8:53", "google.com", DnsRecord::A));
        }
        other => panic!("unexpected {:?}", other),
    }
    match packet_request(SendingVariant::DnsTxt) {
        PacketRequest::DnsQuery { server, domain, record } => {
            assert_eq!((server, domain, record), ("1.1.1.1:53", "cloudflare.com", DnsRecord::Txt));
        }
        other => panic!("unexpected {:?}", other),
    }
    match packet_request(SendingVariant::Https) {
        PacketRequest::HttpsGet { url } => assert_eq!(url, "https://httpbin.org/uuid"),
        other => panic!("unexpected {:?}", other),
    }
    match packet_request(SendingVariant::RawUdp) {
        PacketRequest::RawUdp { server, payload } => {
            assert_eq!(server, "1.1.1.1:53");
            assert_eq!(&payload, b"\x13\x37\xDE\xAD\xBE\xEF");
        }
        other => panic!("unexpected {:?}", other),
    }
}

#[test]
fn log_keeps_last_twenty() {
    let mut log = vec!["System initialized...".to_string()];
    for i in 0..30 {
        push_log(&mut log, format!("line {}", i));
        assert!(log.len() <= LOG_LIMIT);
        assert_eq!(log.last().unwrap(), &format!("line {}", i));
    }
    assert_eq!(log.len(), 20);
    assert_eq!(log[0], "line 10");
}

#[test]
fn log_grows_below_limit() {
    let mut log: Vec<String> = Vec::new();
    push_log(&mut log, "a".to_string());
    push_log(&mut log, "b".to_string());
    assert_eq!(log, vec!["a".to_string(), "b".to_string()]);
}
