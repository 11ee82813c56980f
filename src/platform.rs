use vstd::prelude::*;

verus! {

/// Operating systems whose socket constants the library knows. `Linux` holds
/// the values of the generic Linux architectures (x86, ARM, RISC-V, ...), which
/// Android shares; Linux on MIPS and SPARC numbers its socket-level options
/// otherwise and is not covered.
#[derive(Clone, Copy, Debug, PartialEq, Eq, Structural)]
pub enum Os {
    Linux,
    MacOs,
    FreeBsd,
    DragonFly,
    NetBsd,
    OpenBsd,
}

/// The target a native encoding is made for: the operating system, and the
/// byte order of native integers.
#[derive(Clone, Copy, Debug, PartialEq, Eq, Structural)]
pub struct Platform {
    pub os: Os,
    pub little_endian: bool,
}

/// The address family of a socket; fixed for the lifetime of a handle.
#[derive(Clone, Copy, Debug, PartialEq, Eq, Structural)]
pub enum AddressFamily {
    Inet,
    Inet6,
}

/// The portable names of the configurable socket options.
#[derive(Clone, Copy, Debug, PartialEq, Eq, Structural)]
pub enum LogicalOption {
    TimeToLive,
    QosMarking,
    Broadcast,
    ReadTimeout,
    WriteTimeout,
}

/// A native option: the level and the option name given to
/// `getsockopt`/`setsockopt`.
#[derive(Clone, Copy, Debug, PartialEq, Eq, Structural)]
pub struct OptionCode {
    pub level: i32,
    pub name: i32,
}

/// The arguments of the `socket` call that opens a raw ICMP socket.
#[derive(Clone, Copy, Debug, PartialEq, Eq, Structural)]
pub struct SocketRequest {
    pub domain: i32,
    pub kind: i32,
    pub protocol: i32,
}

pub const SOCK_RAW: i32 = 3;

pub const IPPROTO_IP: i32 = 0;

pub const IPPROTO_ICMP: i32 = 1;

pub const IPPROTO_IPV6: i32 = 41;

pub const IPPROTO_ICMPV6: i32 = 58;

/// The native `AF_INET` / `AF_INET6` value.
pub open spec fn family_code_spec(family: AddressFamily, os: Os) -> i32 {
    match family {
        AddressFamily::Inet => 2,
        AddressFamily::Inet6 => match os {
            Os::Linux => 10,
            Os::MacOs => 30,
            Os::FreeBsd | Os::DragonFly => 28,
            Os::NetBsd | Os::OpenBsd => 24,
        },
    }
}

pub fn family_code(family: AddressFamily, os: Os) -> (r: i32)
    ensures
        r == family_code_spec(family, os),
{
    match family {
        AddressFamily::Inet => 2,
        AddressFamily::Inet6 => match os {
            Os::Linux => 10,
            Os::MacOs => 30,
            Os::FreeBsd | Os::DragonFly => 28,
            Os::NetBsd | Os::OpenBsd => 24,
        },
    }
}

/// The `SOCK_CLOEXEC` flag, or 0 where the `socket` call takes none.
pub open spec fn cloexec_flag_spec(os: Os) -> i32 {
    match os {
        Os::Linux => 0o2000000,
        Os::MacOs => 0,
        Os::FreeBsd | Os::DragonFly | Os::NetBsd => 0x10000000,
        Os::OpenBsd => 0x8000,
    }
}

pub open spec fn socket_request_spec(family: AddressFamily, os: Os) -> SocketRequest {
    SocketRequest {
        domain: family_code_spec(family, os),
        kind: (SOCK_RAW | cloexec_flag_spec(os)) as i32,
        protocol: match family {
            AddressFamily::Inet => IPPROTO_ICMP,
            AddressFamily::Inet6 => IPPROTO_ICMPV6,
        },
    }
}

/// The `socket` arguments for a raw ICMP socket of the family: ICMP for IPv4,
/// ICMPv6 for IPv6, with close-on-exec asked for where the call supports it.
pub fn socket_request(family: AddressFamily, os: Os) -> (r: SocketRequest)
    ensures
        r == socket_request_spec(family, os),
{
    let flag: i32 = match os {
        Os::Linux => 0o2000000,
        Os::MacOs => 0,
        Os::FreeBsd | Os::DragonFly | Os::NetBsd => 0x10000000,
        Os::OpenBsd => 0x8000,
    };
    SocketRequest {
        domain: family_code(family, os),
        kind: SOCK_RAW | flag,
        protocol: match family {
            AddressFamily::Inet => IPPROTO_ICMP,
            AddressFamily::Inet6 => IPPROTO_ICMPV6,
        },
    }
}

/// The option table: for each logical option and address family, the native
/// level and name on each operating system.
pub open spec fn option_table(opt: LogicalOption, family: AddressFamily, os: Os) -> OptionCode {
    let linux = os == Os::Linux;
    match opt {
        LogicalOption::TimeToLive => match family {
            AddressFamily::Inet => OptionCode { level: IPPROTO_IP, name: if linux { 2 } else { 4 } },
            AddressFamily::Inet6 => OptionCode {
                level: IPPROTO_IPV6,
                name: if linux { 16 } else { 4 },
            },
        },
        LogicalOption::QosMarking => match family {
            AddressFamily::Inet => OptionCode { level: IPPROTO_IP, name: if linux { 1 } else { 3 } },
            AddressFamily::Inet6 => OptionCode {
                level: IPPROTO_IPV6,
                name: match os {
                    Os::Linux => 67,
                    Os::MacOs => 36,
                    _ => 61,
                },
            },
        },
        LogicalOption::Broadcast => OptionCode {
            level: if linux { 1 } else { 0xffff },
            name: if linux { 6 } else { 0x20 },
        },
        LogicalOption::ReadTimeout => OptionCode {
            level: if linux { 1 } else { 0xffff },
            name: match os {
                Os::Linux => 20,
                Os::NetBsd => 0x100c,
                _ => 0x1006,
            },
        },
        LogicalOption::WriteTimeout => OptionCode {
            level: if linux { 1 } else { 0xffff },
            name: match os {
                Os::Linux => 21,
                Os::NetBsd => 0x100b,
                _ => 0x1005,
            },
        },
    }
}

/// Looks up the native level and name of a logical option.
pub fn option_code(opt: LogicalOption, family: AddressFamily, os: Os) -> (r: OptionCode)
    ensures
        r == option_table(opt, family, os),
{
    let linux = match os {
        Os::Linux => true,
        _ => false,
    };
    let socket_level: i32 = if linux { 1 } else { 0xffff };
    match opt {
        LogicalOption::TimeToLive => match family {
            AddressFamily::Inet => OptionCode { level: IPPROTO_IP, name: if linux { 2 } else { 4 } },
            AddressFamily::Inet6 => OptionCode {
                level: IPPROTO_IPV6,
                name: if linux { 16 } else { 4 },
            },
        },
        LogicalOption::QosMarking => match family {
            AddressFamily::Inet => OptionCode { level: IPPROTO_IP, name: if linux { 1 } else { 3 } },
            AddressFamily::Inet6 => OptionCode {
                level: IPPROTO_IPV6,
                name: match os {
                    Os::Linux => 67,
                    Os::MacOs => 36,
                    _ => 61,
                },
            },
        },
        LogicalOption::Broadcast => OptionCode {
            level: socket_level,
            name: if linux { 6 } else { 0x20 },
        },
        LogicalOption::ReadTimeout => OptionCode {
            level: socket_level,
            name: match os {
                Os::Linux => 20,
                Os::NetBsd => 0x100c,
                _ => 0x1006,
            },
        },
        LogicalOption::WriteTimeout => OptionCode {
            level: socket_level,
            name: match os {
                Os::Linux => 21,
                Os::NetBsd => 0x100b,
                _ => 0x1005,
            },
        },
    }
}

/// The family-specific options (time-to-live, QoS marking) use a different
/// native option for IPv4 than for IPv6 on every operating system, while the
/// socket-level ones (broadcast, timeouts) do not depend on the family.
pub proof fn option_codes_by_family(opt: LogicalOption, os: Os)
    ensures
        (opt == LogicalOption::TimeToLive || opt == LogicalOption::QosMarking) ==> option_table(
            opt,
            AddressFamily::Inet,
            os,
        ) != option_table(opt, AddressFamily::Inet6, os),
        !(opt == LogicalOption::TimeToLive || opt == LogicalOption::QosMarking) ==> option_table(
            opt,
            AddressFamily::Inet,
            os,
        ) == option_table(opt, AddressFamily::Inet6, os),
{
}

} // verus!
