use icmp::compat::{cvt, AsInner, IntoInner, IsMinusOne};
use icmp::socket::{IntOption, TimeOption};
use icmp::{Duration, Error, ErrorKind, IpAddr, LogicalOption, OptionCode, Os, Platform, Socket, TimeVal};

const LINUX: Platform = Platform { os: Os::Linux, little_endian: true };
const MAC: Platform = Platform { os: Os::MacOs, little_endian: true };

fn ipv4() -> IpAddr {
    IpAddr::v4(127, 0, 0, 1)
}

fn ipv6() -> IpAddr {
    let mut o = [0u8; 16];
    o[15] = 1;
    IpAddr::v6(o)
}

fn open(addr: IpAddr) -> Socket {
    Socket::connect(addr, LINUX, 3, 0).unwrap()
}

#[test]
fn connect_v4_and_v6_loopback() {
    let s4 = open(ipv4());
    let s6 = Socket::connect(ipv6(), LINUX, 4, 0).unwrap();
    assert_eq!(s4.family(), icmp::AddressFamily::Inet);
    assert_eq!(s6.family(), icmp::AddressFamily::Inet6);
    assert_eq!(s4.fd(), 3);
    assert_eq!(s6.fd(), 4);
    assert_eq!(s4.peer().len(), 16);
    assert_eq!(s6.peer().len(), 28);
    assert!(s4.is_open() && s6.is_open());
}

#[test]
fn connect_failure_is_os_error() {
    let e = Socket::connect(ipv4(), LINUX, -1, 1).err().unwrap();
    assert_eq!(e, Error { kind: ErrorKind::PermissionDenied, code: Some(1) });
    let e = Socket::connect(ipv6(), LINUX, -1, 13).err().unwrap();
    assert_eq!(e.kind(), ErrorKind::PermissionDenied);
    assert_eq!(e.raw_os_error(), Some(13));
}

#[test]
fn set_ttl_100_on_v4_and_v6() {
    let s4 = open(ipv4());
    assert_eq!(s4.set_ttl(100), IntOption { code: OptionCode { level: 0, name: 2 }, value: 100 });
    let s6 = open(ipv6());
    assert_eq!(s6.set_ttl(100), IntOption { code: OptionCode { level: 41, name: 16 }, value: 100 });
    assert_eq!(icmp::opts::decode_ttl(100), 100);
}

#[test]
fn set_qos_on_v4_and_v6() {
    let s4 = open(ipv4());
    assert_eq!(s4.set_qos(0x10), IntOption { code: OptionCode { level: 0, name: 1 }, value: 0x10 });
    let s6 = open(ipv6());
    assert_eq!(s6.set_qos(46), IntOption { code: OptionCode { level: 41, name: 67 }, value: 46 });
    assert_eq!(icmp::opts::decode_qos(46), 46);
}

#[test]
fn set_broadcast_toggles() {
    let s = open(ipv6());
    let code = OptionCode { level: 1, name: 6 };
    assert_eq!(s.set_broadcast(true), IntOption { code, value: 1 });
    assert_eq!(s.set_broadcast(false), IntOption { code, value: 0 });
    assert_eq!(s.set_broadcast(true), IntOption { code, value: 1 });
    assert_eq!(s.option(LogicalOption::Broadcast), code);
}

#[test]
fn set_read_and_write_timeouts() {
    let s = open(ipv4());
    let two = Duration::new(2, 0);
    assert_eq!(
        s.set_read_timeout(Some(two)).unwrap(),
        TimeOption { code: OptionCode { level: 1, name: 20 }, value: TimeVal { sec: 2, usec: 0 } }
    );
    assert_eq!(
        s.set_write_timeout(None).unwrap(),
        TimeOption { code: OptionCode { level: 1, name: 21 }, value: TimeVal { sec: 0, usec: 0 } }
    );
    assert_eq!(s.set_read_timeout(Some(Duration::new(0, 0))).unwrap_err().kind(), ErrorKind::InvalidInput);
    assert_eq!(s.set_write_timeout(Some(Duration::new(0, 0))).unwrap_err().kind(), ErrorKind::InvalidInput);
}

#[test]
fn recv_outcomes() {
    let s = open(ipv4());
    assert_eq!(s.recv(64, 0).unwrap(), 64);
    assert_eq!(s.recv(-1, 4).unwrap(), 0);
    assert_eq!(s.recv(-1, 11).unwrap_err().kind(), ErrorKind::WouldBlock);
    let m = Socket::connect(ipv4(), MAC, 5, 0).unwrap();
    assert_eq!(m.recv(-1, 35).unwrap_err().kind(), ErrorKind::WouldBlock);
    assert_eq!(m.recv(-1, 60).unwrap_err().kind(), ErrorKind::TimedOut);
    assert_eq!(s.recv(-1, 110).unwrap_err().kind(), ErrorKind::TimedOut);
    assert_eq!(s.recv(-1, 5).unwrap_err(), Error { kind: ErrorKind::Other, code: Some(5) });
}

#[test]
fn recv_from_decodes_sender() {
    let s = open(ipv4());
    let sender = icmp::addr::to_native(&IpAddr::v4(10, 1, 2, 3), LINUX);
    assert_eq!(s.recv_from(28, 0, &sender).unwrap(), (28, IpAddr::v4(10, 1, 2, 3)));
    assert_eq!(s.recv_from(-1, 4, &sender).unwrap(), (0, IpAddr::v4(10, 1, 2, 3)));
    assert_eq!(s.recv_from(-1, 22, &sender).unwrap_err().kind(), ErrorKind::InvalidInput);
}

#[test]
fn interrupted_recv_from_with_nothing_readable_gives_the_peer() {
    let s = open(ipv4());
    assert_eq!(s.recv_from(-1, 4, &[0u8; 128]).unwrap(), (0, ipv4()));
    let other = icmp::addr::to_native(&ipv6(), LINUX);
    assert_eq!(s.recv_from(-1, 4, &other).unwrap(), (0, ipv4()));
    let s6 = open(ipv6());
    assert_eq!(s6.recv_from(-1, 4, &[0u8; 128]).unwrap(), (0, ipv6()));
}

#[test]
fn read_side_options() {
    let s4 = open(ipv4());
    let s6 = open(ipv6());
    assert_eq!(s4.ttl_option(), OptionCode { level: 0, name: 2 });
    assert_eq!(s6.ttl_option(), OptionCode { level: 41, name: 16 });
    assert_eq!(s4.qos_option(), OptionCode { level: 0, name: 1 });
    assert_eq!(s6.qos_option(), OptionCode { level: 41, name: 67 });
    assert_eq!(s6.broadcast_option(), OptionCode { level: 1, name: 6 });
    assert_eq!(s4.read_timeout_option(), OptionCode { level: 1, name: 20 });
    assert_eq!(s4.write_timeout_option(), OptionCode { level: 1, name: 21 });
    let n = Socket::connect(ipv4(), Platform { os: Os::NetBsd, little_endian: true }, 3, 0).unwrap();
    assert_eq!(n.read_timeout_option(), OptionCode { level: 0xffff, name: 0x100c });
    assert_eq!(n.write_timeout_option(), OptionCode { level: 0xffff, name: 0x100b });
}

#[test]
fn send_reports_short_writes() {
    let s = open(ipv4());
    assert_eq!(s.send(3, 0).unwrap(), 3);
    assert_eq!(s.send(-1, 1).unwrap_err().kind(), ErrorKind::PermissionDenied);
}

#[test]
fn option_call_outcomes() {
    let s = open(ipv4());
    assert_eq!(s.setsockopt(0, 0), Ok(()));
    assert_eq!(s.setsockopt(-1, 22).unwrap_err().kind(), ErrorKind::InvalidInput);
    assert_eq!(s.getsockopt(0, 0, 4, 4), Ok(()));
    assert_eq!(s.getsockopt(0, 0, 16, 16), Ok(()));
    assert_eq!(s.getsockopt(-1, 9, 4, 4).unwrap_err(), Error { kind: ErrorKind::Other, code: Some(9) });
}

#[test]
fn release_twice_closes_once() {
    let mut s = open(ipv4());
    assert_eq!(s.release(), Some(3));
    assert!(!s.is_open());
    assert_eq!(s.release(), None);
}

#[test]
fn cvt_checks_the_sentinel() {
    assert!((-1i8).is_minus_one() && (-1i16).is_minus_one() && (-1i64).is_minus_one());
    assert!(!0isize.is_minus_one() && (-1isize).is_minus_one());
    assert_eq!(cvt(5i32, 0, Os::Linux), Ok(5));
    assert_eq!(cvt(-2i64, 0, Os::Linux), Ok(-2));
    assert_eq!(cvt(-1i32, 4, Os::Linux), Err(Error { kind: ErrorKind::Interrupted, code: Some(4) }));
    assert_eq!(cvt(-1isize, 13, Os::MacOs).unwrap_err().kind(), ErrorKind::PermissionDenied);
}

#[test]
fn inner_descriptor() {
    let s = Socket::connect(ipv4(), LINUX, 7, 0).unwrap();
    assert_eq!(*s.as_inner(), 7);
    assert_eq!(s.into_inner(), 7);
}
