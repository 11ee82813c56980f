use vstd::prelude::*;
use crate::platform::{AddressFamily, Os, Platform, family_code, family_code_spec};

verus! {

/// A portable IP address: four octets for IPv4, sixteen for IPv6, in network
/// order.
#[derive(Clone, Copy, Debug, PartialEq, Eq)]
pub enum IpAddr {
    V4([u8; 4]),
    V6([u8; 16]),
}

pub open spec fn family_of_spec(a: IpAddr) -> AddressFamily {
    match a {
        IpAddr::V4(_) => AddressFamily::Inet,
        IpAddr::V6(_) => AddressFamily::Inet6,
    }
}

/// The octets of an address, in network order.
pub open spec fn octets_of(a: IpAddr) -> Seq<u8> {
    match a {
        IpAddr::V4(o) => o@,
        IpAddr::V6(o) => o@,
    }
}

impl IpAddr {
    /// The IPv4 address `a.b.c.d`.
    pub fn v4(a: u8, b: u8, c: u8, d: u8) -> (r: IpAddr)
        ensures
            r is V4,
            octets_of(r) == seq![a, b, c, d],
    {
        let r = IpAddr::V4([a, b, c, d]);
        assert(octets_of(r) =~= seq![a, b, c, d]);
        r
    }

    /// The IPv6 address with the given sixteen octets.
    pub fn v6(octets: [u8; 16]) -> (r: IpAddr)
        ensures
            r == IpAddr::V6(octets),
    {
        IpAddr::V6(octets)
    }

    /// The family that an address selects.
    pub fn family(&self) -> (r: AddressFamily)
        ensures
            r == family_of_spec(*self),
    {
        match self {
            IpAddr::V4(_) => AddressFamily::Inet,
            IpAddr::V6(_) => AddressFamily::Inet6,
        }
    }
}

/// Size in bytes of `sockaddr_in` / `sockaddr_in6`.
pub open spec fn sockaddr_len(family: AddressFamily) -> nat {
    match family {
        AddressFamily::Inet => 16,
        AddressFamily::Inet6 => 28,
    }
}

/// The first two bytes of a native socket address. Linux stores the family as
/// a 16-bit integer in native byte order; the BSDs store a length byte and
/// then a family byte.
pub open spec fn tag_image(family: AddressFamily, p: Platform) -> Seq<u8> {
    let code = family_code_spec(family, p.os) as u8;
    if p.os == Os::Linux {
        if p.little_endian {
            seq![code, 0u8]
        } else {
            seq![0u8, code]
        }
    } else {
        seq![sockaddr_len(family) as u8, code]
    }
}

pub open spec fn zeros(n: nat) -> Seq<u8> {
    Seq::new(n, |i: int| 0u8)
}

/// The native socket address of `a`: family tag, port 0, (for IPv6, flow
/// information 0,) the octets, and zeros for the remaining fields and padding.
pub open spec fn native_image(a: IpAddr, p: Platform) -> Seq<u8> {
    match a {
        IpAddr::V4(o) => tag_image(AddressFamily::Inet, p) + zeros(2) + o@ + zeros(8),
        IpAddr::V6(o) => tag_image(AddressFamily::Inet6, p) + zeros(6) + o@ + zeros(4),
    }
}

/// Whether the family tag at the start of `b` names `family`.
pub open spec fn tag_matches(b: Seq<u8>, family: AddressFamily, p: Platform) -> bool {
    &&& b.len() >= 2
    &&& if p.os == Os::Linux {
        b.subrange(0, 2) == tag_image(family, p)
    } else {
        b[1] == tag_image(family, p)[1]
    }
}

/// The family of a native socket address, when its tag names one that the
/// library opens sockets for and it is long enough to hold that family's
/// address.
pub open spec fn native_family_spec(b: Seq<u8>, p: Platform) -> Option<AddressFamily> {
    if b.len() >= sockaddr_len(AddressFamily::Inet) && tag_matches(b, AddressFamily::Inet, p) {
        Some(AddressFamily::Inet)
    } else if b.len() >= sockaddr_len(AddressFamily::Inet6) && tag_matches(
        b,
        AddressFamily::Inet6,
        p,
    ) {
        Some(AddressFamily::Inet6)
    } else {
        None
    }
}

/// Where the octets of an address of the family start in its native form.
pub open spec fn octets_offset(family: AddressFamily) -> int {
    match family {
        AddressFamily::Inet => 4,
        AddressFamily::Inet6 => 8,
    }
}

pub open spec fn octets_len(family: AddressFamily) -> int {
    match family {
        AddressFamily::Inet => 4,
        AddressFamily::Inet6 => 16,
    }
}

fn tag_bytes(family: AddressFamily, p: Platform) -> (r: (u8, u8))
    ensures
        seq![r.0, r.1] == tag_image(family, p),
{
    let code = family_code(family, p.os) as u8;
    let r = match p.os {
        Os::Linux => if p.little_endian {
            (code, 0u8)
        } else {
            (0u8, code)
        },
        _ => match family {
            AddressFamily::Inet => (16u8, code),
            AddressFamily::Inet6 => (28u8, code),
        },
    };
    assert(seq![r.0, r.1] =~= tag_image(family, p));
    r
}

fn push_zeros(v: &mut Vec<u8>, n: usize)
    ensures
        final(v)@ == old(v)@ + zeros(n as nat),
{
    let mut i: usize = 0;
    while i < n
        invariant
            i <= n,
            v@ == old(v)@ + zeros(i as nat),
        decreases n - i,
    {
        v.push(0u8);
        i = i + 1;
        assert(v@ =~= old(v)@ + zeros(i as nat));
    }
}

fn push_octets<const N: usize>(v: &mut Vec<u8>, o: &[u8; N])
    ensures
        final(v)@ == old(v)@ + o@,
{
    let mut i: usize = 0;
    while i < N
        invariant
            i <= N,
            o@.len() == N,
            v@ == old(v)@ + o@.subrange(0, i as int),
        decreases N - i,
    {
        v.push(o[i]);
        i = i + 1;
        assert(v@ =~= old(v)@ + o@.subrange(0, i as int));
    }
    assert(o@.subrange(0, N as int) =~= o@);
}

/// Encodes an address as the native socket address the platform's system
/// calls take, every byte but the family tag and the octets set to zero.
pub fn to_native(a: &IpAddr, p: Platform) -> (r: Vec<u8>)
    ensures
        r@ == native_image(*a, p),
        r@.len() == sockaddr_len(family_of_spec(*a)),
{
    let (t0, t1) = tag_bytes(a.family(), p);
    let mut v: Vec<u8> = Vec::new();
    v.push(t0);
    v.push(t1);
    assert(v@ =~= tag_image(family_of_spec(*a), p));
    match a {
        IpAddr::V4(o) => {
            push_zeros(&mut v, 2);
            push_octets(&mut v, o);
            push_zeros(&mut v, 8);
        },
        IpAddr::V6(o) => {
            push_zeros(&mut v, 6);
            push_octets(&mut v, o);
            push_zeros(&mut v, 4);
        },
    }
    v
}

/// Reads the family tag of a native socket address (see `native_family_spec`).
pub fn native_family(b: &[u8], p: Platform) -> (r: Option<AddressFamily>)
    ensures
        r == native_family_spec(b@, p),
{
    if b.len() < 16 {
        return None;
    }
    let (v4_0, v4_1) = tag_bytes(AddressFamily::Inet, p);
    let (v6_0, v6_1) = tag_bytes(AddressFamily::Inet6, p);
    let linux = match p.os {
        Os::Linux => true,
        _ => false,
    };
    let is_v4 = if linux {
        b[0] == v4_0 && b[1] == v4_1
    } else {
        b[1] == v4_1
    };
    let is_v6 = if linux {
        b[0] == v6_0 && b[1] == v6_1
    } else {
        b[1] == v6_1
    };
    proof {
        assert(is_v4 == tag_matches(b@, AddressFamily::Inet, p)) by {
            if linux {
                assert(seq![v4_0, v4_1] =~= seq![b@[0], b@[1]] <==> (b[0] == v4_0 && b[1]
                    == v4_1));
                assert(b@.subrange(0, 2) =~= seq![b@[0], b@[1]]);
            }
        }
        assert(is_v6 == tag_matches(b@, AddressFamily::Inet6, p)) by {
            if linux {
                assert(seq![v6_0, v6_1] =~= seq![b@[0], b@[1]] <==> (b[0] == v6_0 && b[1]
                    == v6_1));
                assert(b@.subrange(0, 2) =~= seq![b@[0], b@[1]]);
            }
        }
    }
    if is_v4 {
        Some(AddressFamily::Inet)
    } else if is_v6 && b.len() >= 28 {
        Some(AddressFamily::Inet6)
    } else {
        None
    }
}

/// `r` is what the native socket address `b` holds: the family its tag names
/// and the octets at that family's place.
pub open spec fn decodes_to(b: Seq<u8>, p: Platform, r: IpAddr) -> bool {
    &&& native_family_spec(b, p) == Some(family_of_spec(r))
    &&& octets_of(r) == b.subrange(
        octets_offset(family_of_spec(r)),
        octets_offset(family_of_spec(r)) + octets_len(family_of_spec(r)),
    )
}

/// Decodes a native socket address that names IPv4 or IPv6. Any other family
/// is outside the contract: the system only hands back addresses of the
/// family the socket was opened with.
pub fn from_native(b: &[u8], p: Platform) -> (r: IpAddr)
    requires
        native_family_spec(b@, p) is Some,
    ensures
        decodes_to(b@, p, r),
{
    match native_family(b, p) {
        Some(AddressFamily::Inet) => {
            let r = IpAddr::V4([b[4], b[5], b[6], b[7]]);
            assert(octets_of(r) =~= b@.subrange(4, 8));
            r
        },
        _ => {
            let r = IpAddr::V6(
                [
                    b[8],
                    b[9],
                    b[10],
                    b[11],
                    b[12],
                    b[13],
                    b[14],
                    b[15],
                    b[16],
                    b[17],
                    b[18],
                    b[19],
                    b[20],
                    b[21],
                    b[22],
                    b[23],
                ],
            );
            assert(octets_of(r) =~= b@.subrange(8, 24));
            r
        },
    }
}

/// An address is determined by its family and its octets.
pub proof fn same_octets_same_address(a: IpAddr, b: IpAddr)
    requires
        family_of_spec(a) == family_of_spec(b),
        octets_of(a) == octets_of(b),
    ensures
        a == b,
{
    broadcast use vstd::array::group_array_axioms;

    match (a, b) {
        (IpAddr::V4(x), IpAddr::V4(y)) => {
            assert forall|i: int| 0 <= i < 4 implies x[i] == y[i] by {
                assert(x@[i] == y@[i]);
            }
            assert(x =~= y);
        },
        (IpAddr::V6(x), IpAddr::V6(y)) => {
            assert forall|i: int| 0 <= i < 16 implies x[i] == y[i] by {
                assert(x@[i] == y@[i]);
            }
            assert(x =~= y);
        },
        _ => {},
    }
}

/// Decoding the native form of an address gives the address back, on every
/// platform: the decoder finds the family the encoder wrote, and reads the
/// octets from where the encoder put them.
pub proof fn native_round_trip(a: IpAddr, p: Platform, r: IpAddr)
    requires
        decodes_to(native_image(a, p), p, r),
    ensures
        r == a,
{
    let img = native_image(a, p);
    let f = family_of_spec(a);
    assert(img.subrange(0, 2) =~= tag_image(f, p));
    assert(img.subrange(octets_offset(f), octets_offset(f) + octets_len(f)) =~= octets_of(a));
    assert(native_family_spec(img, p) == Some(f));
    same_octets_same_address(a, r);
}

} // verus!
