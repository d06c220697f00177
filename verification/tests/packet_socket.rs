use afpacket::bpf::{buffer_size, promisc_value, BpfDeviceSearch, SearchStep, IMMEDIATE_MODE};
use afpacket::filter::{sock_filter, BpfProgram, Filter, FilterProgram};
use afpacket::interface::{bpf_interface_name, interface_index, interface_name_buffer, InterfaceLookup};
use afpacket::socket::{
    bind_address, drain_continues, network_order, promisc_request, MembershipChange,
    MembershipRequest, RawPacketStream,
};
use afpacket::{byte_count, check_status, PacketError};

#[test]
fn status_minus_one_is_failure() {
    assert_eq!(check_status(-1), Err(PacketError::Os));
    assert_eq!(check_status(0), Ok(()));
    assert_eq!(check_status(4), Ok(()));
    assert_eq!(check_status(-2), Ok(()));
}

#[test]
fn byte_count_of_read_and_write() {
    assert_eq!(byte_count(-1), Err(PacketError::Os));
    assert_eq!(byte_count(-7), Err(PacketError::Os));
    assert_eq!(byte_count(0), Ok(0));
    assert_eq!(byte_count(1500), Ok(1500));
}

#[test]
fn short_name_is_zero_padded() {
    let buf = interface_name_buffer("lo", libc::IFNAMSIZ).unwrap();
    let mut expected = vec![0u8; 16];
    expected[0] = b'l';
    expected[1] = b'o';
    assert_eq!(buf, expected);
    assert_eq!(buf.len(), libc::IFNAMSIZ);
}

#[test]
fn empty_name_is_all_zeros() {
    assert_eq!(interface_name_buffer("", 16).unwrap(), vec![0u8; 16]);
}

#[test]
fn name_of_sixteen_bytes_fills_the_buffer() {
    let name = "abcdefghijklmnop";
    let buf = interface_name_buffer(name, 16).unwrap();
    assert_eq!(buf, name.as_bytes().to_vec());
    assert!(!buf.contains(&0));
}

#[test]
fn name_longer_than_ifnamsiz_is_invalid_input() {
    assert_eq!(
        interface_name_buffer("abcdefghijklmnopq", 16),
        Err(PacketError::InvalidInput)
    );
}

#[test]
fn name_bytes_not_chars_are_counted() {
    // Eight two-byte characters fill the buffer; nine do not fit.
    assert!(interface_name_buffer("éééééééé", 16).is_ok());
    assert_eq!(
        interface_name_buffer("ééééééééé", 16),
        Err(PacketError::InvalidInput)
    );
}

#[test]
fn bpf_interface_name_is_zero_padded() {
    let buf = bpf_interface_name("en0", 16);
    let mut expected = vec![0u8; 16];
    expected[..3].copy_from_slice(b"en0");
    assert_eq!(buf, expected);
}

#[test]
fn interface_index_zero_is_failure() {
    assert_eq!(interface_index(0), Err(PacketError::Os));
    assert_eq!(interface_index(1), Ok(1));
    assert_eq!(interface_index(42), Ok(42));
    assert_eq!(interface_index(u32::MAX), Ok(-1));
}

#[test]
fn filter_converts_field_by_field() {
    let f: Filter = (0x28, 1, 2, 0x0c);
    let s = sock_filter::from(f);
    assert_eq!(s, sock_filter { code: 0x28, jt: 1, jf: 2, k: 0x0c });
    assert_eq!(s.to_filter(), f);
}

#[test]
fn compiled_program_keeps_order_and_length() {
    let program: FilterProgram = vec![(0x28, 0, 0, 12), (0x15, 0, 1, 0x0800), (0x6, 0, 0, 0xffff)];
    let p = BpfProgram::compile(program.clone());
    assert_eq!(p.len(), 3);
    let back: Vec<Filter> = p.filters().iter().map(|s| s.to_filter()).collect();
    assert_eq!(back, program);
}

#[test]
fn empty_program_has_length_zero() {
    let p = BpfProgram::compile(Vec::new());
    assert_eq!(p.len(), 0);
    assert!(p.filters().is_empty());
}

#[test]
fn program_length_wraps_at_65536() {
    let program: FilterProgram = vec![(6, 0, 0, 0); 70000];
    let p = BpfProgram::compile(program);
    assert_eq!(p.filters().len(), 70000);
    assert_eq!(p.len(), 4464);
}

#[test]
fn network_order_puts_high_byte_first() {
    assert_eq!(network_order(3), [0, 3]);
    assert_eq!(network_order(0x1234), [0x12, 0x34]);
    assert_eq!(network_order(0xffff), [0xff, 0xff]);
    for x in [0u16, 1, 0x0800, 0x86dd, 0xabcd] {
        assert_eq!(u16::from_ne_bytes(network_order(x)), x.to_be());
    }
}

#[test]
fn socket_protocol_is_htons_of_eth_p_all() {
    let protocol = network_order(libc::ETH_P_ALL as u16);
    assert_eq!(protocol, [0, 3]);
    assert_eq!(
        i32::from(u16::from_ne_bytes(protocol)),
        i32::from((libc::ETH_P_ALL as u16).to_be())
    );
}

#[test]
fn bind_address_names_interface_and_protocol() {
    let a = bind_address(3, 7);
    assert_eq!(a.protocol, [0, 3]);
    assert_eq!(a.ifindex, 7);
    let b = bind_address(0x0800, 2);
    assert_eq!(b.protocol, [0x08, 0x00]);
    assert_eq!(b.ifindex, 2);
}

#[test]
fn promisc_on_adds_and_off_drops_membership() {
    assert_eq!(
        promisc_request(5, true),
        MembershipRequest { change: MembershipChange::Add, ifindex: 5 }
    );
    assert_eq!(
        promisc_request(5, false),
        MembershipRequest { change: MembershipChange::Drop, ifindex: 5 }
    );
}

#[test]
fn interface_lookup_of_short_name() {
    let lookup = InterfaceLookup::new("eth0", 16).unwrap();
    let mut expected = vec![0u8; 16];
    expected[..4].copy_from_slice(b"eth0");
    assert_eq!(lookup.name_buffer(), &expected[..]);
    assert_eq!(lookup.finish(2), Ok(2));
}

#[test]
fn interface_lookup_of_unknown_name_fails() {
    let lookup = InterfaceLookup::new("nosuch0", 16).unwrap();
    assert_eq!(lookup.finish(0), Err(PacketError::Os));
}

#[test]
fn interface_lookup_of_long_name_stops_early() {
    assert!(matches!(
        InterfaceLookup::new("abcdefghijklmnopq", 16),
        Err(PacketError::InvalidInput)
    ));
}

#[test]
fn name_buffer_follows_the_capacity() {
    let buf = interface_name_buffer("lo", 4).unwrap();
    assert_eq!(buf, vec![b'l', b'o', 0, 0]);
    assert_eq!(interface_name_buffer("abcde", 4), Err(PacketError::InvalidInput));
}

#[test]
fn drain_stops_at_first_failure() {
    assert!(!drain_continues(-1));
    assert!(drain_continues(0));
    assert!(drain_continues(1));
    let results: [isize; 5] = [1, 1, 0, -1, 1];
    let rounds = results.iter().take_while(|r| drain_continues(**r)).count();
    assert_eq!(rounds, 3);
}

#[test]
fn socket_result_minus_one_is_failure() {
    assert!(matches!(RawPacketStream::from_socket_result(-1), Err(PacketError::Os)));
    let s = RawPacketStream::from_socket_result(5).unwrap();
    assert_eq!(s.as_raw_fd(), 5);
}

#[test]
fn descriptor_round_trip() {
    let s = RawPacketStream::from_fd(9);
    assert_eq!(s.as_raw_fd(), 9);
    assert_eq!(s.into_raw_fd(), 9);
}

#[test]
fn bpf_search_starts_at_bpf0() {
    let s = BpfDeviceSearch::new();
    assert_eq!(s.device_path(), b"/dev/bpf0\0".to_vec());
}

#[test]
fn bpf_search_stops_at_first_open_device() {
    let mut s = BpfDeviceSearch::new();
    for _ in 0..3 {
        s = match s.next(-1) {
            SearchStep::Retry(next) => next,
            other => panic!("unexpected {:?}", other),
        };
    }
    assert_eq!(s.device_path(), b"/dev/bpf3\0".to_vec());
    assert!(matches!(s.next(11), SearchStep::Opened(11)));
}

#[test]
fn bpf_search_tries_one_hundred_devices_in_order() {
    let mut s = BpfDeviceSearch::new();
    let mut tried = Vec::new();
    loop {
        tried.push(s.device_path());
        match s.next(-1) {
            SearchStep::Retry(next) => s = next,
            SearchStep::Exhausted => break,
            SearchStep::Opened(_) => panic!("no device opened"),
        }
    }
    assert_eq!(tried.len(), 100);
    for (i, path) in tried.iter().enumerate() {
        assert_eq!(path, &format!("/dev/bpf{}\0", i).into_bytes());
    }
}

#[test]
fn bpf_values() {
    assert_eq!(promisc_value(true), 1);
    assert_eq!(promisc_value(false), 0);
    assert_eq!(IMMEDIATE_MODE, 1);
    assert_eq!(buffer_size(-1, 4096), Err(PacketError::Os));
    assert_eq!(buffer_size(0, 4096), Ok(4096));
}
