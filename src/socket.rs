use vstd::prelude::*;
use crate::addr::{
    IpAddr, decodes_to, family_of_spec, from_native, native_family, native_family_spec,
    native_image, to_native,
};
use crate::compat::{AsInner, IntoInner, cvt};
use crate::error::{Error, ErrorKind, kind_of_code, os_error_spec};
use crate::opts::{Duration, TimeVal, encode_flag, encode_qos, encode_ttl, set_timeout, set_timeout_spec, signed_of};
use crate::platform::{
    AddressFamily, LogicalOption, OptionCode, Platform, SocketRequest, option_code, option_table,
    socket_request, socket_request_spec,
};

verus! {

/// What a handle is: its descriptor, the family it was opened with, the
/// native address of its peer, the platform, and whether it still owns the
/// descriptor.
pub ghost struct SocketView {
    pub fd: i32,
    pub family: AddressFamily,
    pub peer: Seq<u8>,
    pub platform: Platform,
    pub open: bool,
}

/// A raw ICMP socket bound to one peer. It owns its descriptor from `connect`
/// until `release` hands the descriptor out to be closed, which happens once.
pub struct Socket {
    fd: i32,
    family: AddressFamily,
    peer: Vec<u8>,
    platform: Platform,
    open: bool,
}

/// A native option to set: where, and the integer payload.
#[derive(Clone, Copy, Debug, PartialEq, Eq, Structural)]
pub struct IntOption {
    pub code: OptionCode,
    pub value: i32,
}

/// A native timeout option to set: where, and the `timeval` payload.
#[derive(Clone, Copy, Debug, PartialEq, Eq, Structural)]
pub struct TimeOption {
    pub code: OptionCode,
    pub value: TimeVal,
}

impl View for Socket {
    type V = SocketView;

    closed spec fn view(&self) -> SocketView {
        SocketView {
            fd: self.fd,
            family: self.family,
            peer: self.peer@,
            platform: self.platform,
            open: self.open,
        }
    }
}

/// Whether a failed call was interrupted by a signal.
pub open spec fn interrupted(errno: i32, p: Platform) -> bool {
    kind_of_code(errno, p.os) == ErrorKind::Interrupted
}

/// The state of a handle once it has given up its descriptor.
pub open spec fn released(v: SocketView) -> SocketView {
    SocketView { open: false, ..v }
}

/// The descriptor that releasing a handle in state `v` hands out for closing.
pub open spec fn to_close(v: SocketView) -> Option<i32> {
    if v.open {
        Some(v.fd)
    } else {
        None
    }
}

/// The handle that `connect` makes from descriptor `fd` for `addr`.
pub open spec fn connected(addr: IpAddr, platform: Platform, fd: i32) -> SocketView {
    SocketView {
        fd,
        family: family_of_spec(addr),
        peer: native_image(addr, platform),
        platform,
        open: true,
    }
}

pub open spec fn recv_spec(ret: isize, errno: i32, p: Platform) -> Result<usize, Error> {
    if ret >= 0 {
        Ok(ret as usize)
    } else if interrupted(errno, p) {
        Ok(0)
    } else {
        Err(os_error_spec(errno, p.os))
    }
}

impl Socket {
    /// The peer address is the native form of an address of the socket's
    /// family.
    pub open spec fn wf(&self) -> bool {
        native_family_spec(self@.peer, self@.platform) == Some(self@.family)
    }

    /// The arguments of the `socket` call that `connect` stands for.
    pub fn open_request(addr: &IpAddr, platform: Platform) -> (r: SocketRequest)
        ensures
            r == socket_request_spec(family_of_spec(*addr), platform.os),
    {
        socket_request(addr.family(), platform.os)
    }

    /// Builds the handle from the outcome of the `socket` call: `fd`, and
    /// `errno` as it stood right after the call. A negative descriptor is the
    /// error that `errno` describes; any other is the new handle, whose family
    /// is the address's and whose peer is the address's native form.
    pub fn connect(addr: IpAddr, platform: Platform, fd: i32, errno: i32) -> (r: Result<
        Socket,
        Error,
    >)
        ensures
            fd < 0 ==> r == Err::<Socket, Error>(os_error_spec(errno, platform.os)),
            fd >= 0 ==> (r matches Ok(s) && s.wf() && s@ == connected(addr, platform, fd)),
    {
        if fd < 0 {
            return Err(Error::from_os(errno, platform.os));
        }
        let peer = to_native(&addr, platform);
        let s = Socket { fd, family: addr.family(), peer, platform, open: true };
        proof {
            let img = native_image(addr, platform);
            assert(img.subrange(0, 2) =~= crate::addr::tag_image(family_of_spec(addr), platform));
        }
        Ok(s)
    }

    pub fn fd(&self) -> (r: i32)
        ensures
            r == self@.fd,
    {
        self.fd
    }

    pub fn family(&self) -> (r: AddressFamily)
        ensures
            r == self@.family,
    {
        self.family
    }

    /// The native address that every send goes to.
    pub fn peer(&self) -> (r: &[u8])
        ensures
            r@ == self@.peer,
    {
        self.peer.as_slice()
    }

    pub fn platform(&self) -> (r: Platform)
        ensures
            r == self@.platform,
    {
        self.platform
    }

    pub fn is_open(&self) -> (r: bool)
        ensures
            r == self@.open,
    {
        self.open
    }

    /// The outcome of a `recv`: the byte count; an interrupted call is a read
    /// of zero bytes; any other failure is the error `errno` describes.
    pub fn recv(&self, ret: isize, errno: i32) -> (r: Result<usize, Error>)
        ensures
            r == recv_spec(ret, errno, self@.platform),
    {
        if ret >= 0 {
            Ok(ret as usize)
        } else {
            let e = Error::from_os(errno, self.platform.os);
            match e.kind() {
                ErrorKind::Interrupted => Ok(0),
                _ => Err(e),
            }
        }
    }

    /// The outcome of a `recvfrom` that stored the sender's native address in
    /// `sender`: as for `recv`, with the decoded sender. After an interrupted
    /// call `sender` may hold nothing readable; the sender is then its address
    /// if it names one of the socket's family, else the socket's own peer. The
    /// count of zero is what tells that nothing arrived.
    pub fn recv_from(&self, ret: isize, errno: i32, sender: &[u8]) -> (r: Result<
        (usize, IpAddr),
        Error,
    >)
        requires
            self.wf(),
            ret >= 0 ==> native_family_spec(sender@, self@.platform) == Some(self@.family),
        ensures
            recv_spec(ret, errno, self@.platform) matches Err(e) ==> r == Err::<
                (usize, IpAddr),
                Error,
            >(e),
            recv_spec(ret, errno, self@.platform) matches Ok(n) ==> (r matches Ok((m, a)) && m
                == n && decodes_to(
                if native_family_spec(sender@, self@.platform) == Some(self@.family) {
                    sender@
                } else {
                    self@.peer
                },
                self@.platform,
                a,
            )),
    {
        match self.recv(ret, errno) {
            Ok(n) => {
                let readable = match native_family(sender, self.platform) {
                    Some(f) => f == self.family,
                    None => false,
                };
                if readable {
                    Ok((n, from_native(sender, self.platform)))
                } else {
                    Ok((n, from_native(self.peer.as_slice(), self.platform)))
                }
            },
            Err(e) => Err(e),
        }
    }

    /// The outcome of a `sendto` to the peer: the count of bytes the system
    /// took, which may be fewer than were offered; a failure is the error
    /// `errno` describes.
    pub fn send(&self, ret: isize, errno: i32) -> (r: Result<usize, Error>)
        ensures
            ret >= 0 ==> r == Ok::<usize, Error>(ret as usize),
            ret < 0 ==> r == Err::<usize, Error>(os_error_spec(errno, self@.platform.os)),
    {
        if ret >= 0 {
            Ok(ret as usize)
        } else {
            Err(Error::from_os(errno, self.platform.os))
        }
    }

    /// The native level and name of a logical option for this socket's family
    /// and platform.
    pub fn option(&self, opt: LogicalOption) -> (r: OptionCode)
        ensures
            r == option_table(opt, self@.family, self@.platform.os),
    {
        option_code(opt, self.family, self.platform.os)
    }

    /// Reading the time-to-live (IPv4) or unicast hop limit (IPv6); the
    /// payload read decodes with `decode_ttl`.
    pub fn ttl_option(&self) -> (r: OptionCode)
        ensures
            r == option_table(LogicalOption::TimeToLive, self@.family, self@.platform.os),
    {
        self.option(LogicalOption::TimeToLive)
    }

    /// Reading the QoS byte; the payload read decodes with `decode_qos`.
    pub fn qos_option(&self) -> (r: OptionCode)
        ensures
            r == option_table(LogicalOption::QosMarking, self@.family, self@.platform.os),
    {
        self.option(LogicalOption::QosMarking)
    }

    /// Reading broadcast permission; the payload read decodes with
    /// `decode_flag`.
    pub fn broadcast_option(&self) -> (r: OptionCode)
        ensures
            r == option_table(LogicalOption::Broadcast, self@.family, self@.platform.os),
    {
        self.option(LogicalOption::Broadcast)
    }

    /// Reading the receive timeout; the `timeval` read decodes with `timeout`.
    pub fn read_timeout_option(&self) -> (r: OptionCode)
        ensures
            r == option_table(LogicalOption::ReadTimeout, self@.family, self@.platform.os),
    {
        self.option(LogicalOption::ReadTimeout)
    }

    /// Reading the send timeout; the `timeval` read decodes with `timeout`.
    pub fn write_timeout_option(&self) -> (r: OptionCode)
        ensures
            r == option_table(LogicalOption::WriteTimeout, self@.family, self@.platform.os),
    {
        self.option(LogicalOption::WriteTimeout)
    }

    /// Setting the time-to-live (IPv4) or unicast hop limit (IPv6).
    pub fn set_ttl(&self, ttl: u32) -> (r: IntOption)
        ensures
            r.code == option_table(LogicalOption::TimeToLive, self@.family, self@.platform.os),
            r.value == signed_of(ttl),
    {
        IntOption { code: self.option(LogicalOption::TimeToLive), value: encode_ttl(ttl) }
    }

    /// Setting the type-of-service (IPv4) or traffic class (IPv6) byte.
    pub fn set_qos(&self, qos: u8) -> (r: IntOption)
        ensures
            r.code == option_table(LogicalOption::QosMarking, self@.family, self@.platform.os),
            r.value == qos,
    {
        IntOption { code: self.option(LogicalOption::QosMarking), value: encode_qos(qos) }
    }

    /// Setting permission to send to broadcast addresses.
    pub fn set_broadcast(&self, broadcast: bool) -> (r: IntOption)
        ensures
            r.code == option_table(LogicalOption::Broadcast, self@.family, self@.platform.os),
            r.value == (if broadcast { 1i32 } else { 0i32 }),
    {
        IntOption { code: self.option(LogicalOption::Broadcast), value: encode_flag(broadcast) }
    }

    /// Setting the receive timeout; a zero span is refused before any system
    /// call.
    pub fn set_read_timeout(&self, dur: Option<Duration>) -> (r: Result<TimeOption, Error>)
        requires
            dur matches Some(d) ==> d.wf(),
        ensures
            set_timeout_spec(dur) matches Err(e) ==> r == Err::<TimeOption, Error>(e),
            set_timeout_spec(dur) matches Ok(tv) ==> r == Ok::<TimeOption, Error>(
                TimeOption {
                    code: option_table(
                        LogicalOption::ReadTimeout,
                        self@.family,
                        self@.platform.os,
                    ),
                    value: tv,
                },
            ),
    {
        match set_timeout(dur) {
            Ok(tv) => Ok(TimeOption { code: self.option(LogicalOption::ReadTimeout), value: tv }),
            Err(e) => Err(e),
        }
    }

    /// Setting the send timeout; a zero span is refused before any system
    /// call.
    pub fn set_write_timeout(&self, dur: Option<Duration>) -> (r: Result<TimeOption, Error>)
        requires
            dur matches Some(d) ==> d.wf(),
        ensures
            set_timeout_spec(dur) matches Err(e) ==> r == Err::<TimeOption, Error>(e),
            set_timeout_spec(dur) matches Ok(tv) ==> r == Ok::<TimeOption, Error>(
                TimeOption {
                    code: option_table(
                        LogicalOption::WriteTimeout,
                        self@.family,
                        self@.platform.os,
                    ),
                    value: tv,
                },
            ),
    {
        match set_timeout(dur) {
            Ok(tv) => Ok(TimeOption { code: self.option(LogicalOption::WriteTimeout), value: tv }),
            Err(e) => Err(e),
        }
    }

    /// The outcome of a `setsockopt`.
    pub fn setsockopt(&self, ret: i32, errno: i32) -> (r: Result<(), Error>)
        ensures
            ret == -1 ==> r == Err::<(), Error>(os_error_spec(errno, self@.platform.os)),
            ret != -1 ==> r == Ok::<(), Error>(()),
    {
        match cvt(ret, errno, self.platform.os) {
            Ok(_) => Ok(()),
            Err(e) => Err(e),
        }
    }

    /// The outcome of a `getsockopt` into a payload of `expected` bytes, of
    /// which the system reported `len`. The system fills the whole payload of
    /// every option the library reads, so a shorter report is outside the
    /// contract.
    pub fn getsockopt(&self, ret: i32, errno: i32, len: u32, expected: u32) -> (r: Result<
        (),
        Error,
    >)
        requires
            len == expected,
        ensures
            ret == -1 ==> r == Err::<(), Error>(os_error_spec(errno, self@.platform.os)),
            ret != -1 ==> r == Ok::<(), Error>(()),
    {
        match cvt(ret, errno, self.platform.os) {
            Ok(_) => Ok(()),
            Err(e) => Err(e),
        }
    }

    /// Gives up the descriptor for closing: the first call hands it out,
    /// every later one hands out nothing, so it is closed at most once.
    pub fn release(&mut self) -> (r: Option<i32>)
        ensures
            r == to_close(old(self)@),
            final(self)@ == released(old(self)@),
    {
        if self.open {
            self.open = false;
            Some(self.fd)
        } else {
            None
        }
    }
}

impl AsInner<i32> for Socket {
    fn as_inner(&self) -> &i32 {
        &self.fd
    }
}

/// Hands the descriptor to the caller, who then owns it and must close it.
impl IntoInner<i32> for Socket {
    fn into_inner(self) -> i32 {
        self.fd
    }
}

/// Releasing a handle twice hands its descriptor out once: the first release
/// of an open handle yields the descriptor, and the second yields nothing.
pub proof fn release_once(v: SocketView)
    ensures
        to_close(released(v)) is None,
        v.open ==> to_close(v) == Some(v.fd),
        released(released(v)) == released(v),
{
}

/// Handles connected to an IPv4 and an IPv6 address on descriptors the
/// system handed out separately are independent: each has its own
/// descriptor, its own family and its own peer, and releasing one hands out
/// only its own descriptor and leaves the other open.
pub proof fn independent_handles(a4: IpAddr, a6: IpAddr, p: Platform, fd4: i32, fd6: i32)
    requires
        a4 is V4,
        a6 is V6,
        fd4 >= 0,
        fd6 >= 0,
        fd4 != fd6,
    ensures
        connected(a4, p, fd4).family == AddressFamily::Inet,
        connected(a6, p, fd6).family == AddressFamily::Inet6,
        connected(a4, p, fd4).fd != connected(a6, p, fd6).fd,
        connected(a4, p, fd4).peer != connected(a6, p, fd6).peer,
        to_close(connected(a4, p, fd4)) == Some(fd4),
        to_close(connected(a6, p, fd6)) == Some(fd6),
        connected(a6, p, fd6).open,
{
    assert(connected(a4, p, fd4).peer.len() != connected(a6, p, fd6).peer.len());
}

} // verus!
