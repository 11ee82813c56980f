use icmp::addr::{from_native, native_family, to_native};
use icmp::platform::{family_code, socket_request, SocketRequest};
use icmp::{AddressFamily, IpAddr, Os, Platform};

const LINUX: Platform = Platform { os: Os::Linux, little_endian: true };
const LINUX_BE: Platform = Platform { os: Os::Linux, little_endian: false };
const MAC: Platform = Platform { os: Os::MacOs, little_endian: true };
const FREEBSD: Platform = Platform { os: Os::FreeBsd, little_endian: true };

fn loopback6() -> IpAddr {
    let mut o = [0u8; 16];
    o[15] = 1;
    IpAddr::v6(o)
}

#[test]
fn loopback_families() {
    assert_eq!(IpAddr::v4(127, 0, 0, 1).family(), AddressFamily::Inet);
    assert_eq!(loopback6().family(), AddressFamily::Inet6);
}

#[test]
fn family_codes() {
    assert_eq!(family_code(AddressFamily::Inet, Os::Linux), 2);
    assert_eq!(family_code(AddressFamily::Inet6, Os::Linux), 10);
    assert_eq!(family_code(AddressFamily::Inet6, Os::MacOs), 30);
    assert_eq!(family_code(AddressFamily::Inet6, Os::FreeBsd), 28);
    assert_eq!(family_code(AddressFamily::Inet6, Os::DragonFly), 28);
    assert_eq!(family_code(AddressFamily::Inet6, Os::NetBsd), 24);
    assert_eq!(family_code(AddressFamily::Inet6, Os::OpenBsd), 24);
}

#[test]
fn socket_requests() {
    assert_eq!(socket_request(AddressFamily::Inet, Os::Linux), SocketRequest { domain: 2, kind: 3 | 0o2000000, protocol: 1 });
    assert_eq!(socket_request(AddressFamily::Inet6, Os::Linux), SocketRequest { domain: 10, kind: 3 | 0o2000000, protocol: 58 });
    assert_eq!(socket_request(AddressFamily::Inet6, Os::MacOs), SocketRequest { domain: 30, kind: 3, protocol: 58 });
    assert_eq!(socket_request(AddressFamily::Inet, Os::FreeBsd), SocketRequest { domain: 2, kind: 3 | 0x1000_0000, protocol: 1 });
    assert_eq!(socket_request(AddressFamily::Inet6, Os::OpenBsd), SocketRequest { domain: 24, kind: 3 | 0x8000, protocol: 58 });
    assert_eq!(socket_request(AddressFamily::Inet6, Os::NetBsd), SocketRequest { domain: 24, kind: 3 | 0x1000_0000, protocol: 58 });
}

#[test]
fn native_v4_linux() {
    let b = to_native(&IpAddr::v4(192, 168, 1, 20), LINUX);
    assert_eq!(b, vec![2, 0, 0, 0, 192, 168, 1, 20, 0, 0, 0, 0, 0, 0, 0, 0]);
    let be = to_native(&IpAddr::v4(127, 0, 0, 1), LINUX_BE);
    assert_eq!(&be[..8], &[0, 2, 0, 0, 127, 0, 0, 1]);
}

#[test]
fn native_v6_linux() {
    let b = to_native(&loopback6(), LINUX);
    assert_eq!(b.len(), 28);
    assert_eq!(&b[..2], &[10, 0]);
    assert!(b[2..8].iter().all(|x| *x == 0));
    assert_eq!(b[23], 1);
    assert!(b[8..23].iter().all(|x| *x == 0));
    assert!(b[24..].iter().all(|x| *x == 0));
}

#[test]
fn native_bsd_has_length_byte() {
    let b = to_native(&IpAddr::v4(10, 0, 0, 1), MAC);
    assert_eq!(&b[..8], &[16, 2, 0, 0, 10, 0, 0, 1]);
    let b6 = to_native(&loopback6(), FREEBSD);
    assert_eq!(&b6[..2], &[28, 28]);
    let m6 = to_native(&loopback6(), MAC);
    assert_eq!(&m6[..2], &[28, 30]);
}

#[test]
fn native_round_trips() {
    let mut o = [0u8; 16];
    for (i, x) in o.iter_mut().enumerate() {
        *x = (i as u8) * 7 + 1;
    }
    let openbsd = Platform { os: Os::OpenBsd, little_endian: true };
    for p in [LINUX, LINUX_BE, MAC, FREEBSD, openbsd] {
        for a in [IpAddr::v4(127, 0, 0, 1), IpAddr::v4(8, 8, 4, 4), loopback6(), IpAddr::v6(o)] {
            let b = to_native(&a, p);
            assert_eq!(native_family(&b, p), Some(a.family()));
            assert_eq!(from_native(&b, p), a);
        }
    }
}

#[test]
fn unknown_or_short_native_address_has_no_family() {
    assert_eq!(native_family(&[0u8; 16], LINUX), None);
    assert_eq!(native_family(&[2u8, 0, 0, 0], LINUX), None);
    let v6 = to_native(&loopback6(), LINUX);
    assert_eq!(native_family(&v6[..20], LINUX), None);
    let v4 = to_native(&IpAddr::v4(1, 2, 3, 4), LINUX);
    assert_eq!(native_family(&v4, LINUX_BE), None);
}
