use vstd::prelude::*;
use crate::error::{Error, ErrorKind};

verus! {

pub const NANOS_PER_SEC: u32 = 1_000_000_000;

pub const NANOS_PER_MICRO: u32 = 1_000;

pub const MICROS_PER_SEC: i64 = 1_000_000;

/// A span of time: whole seconds and the nanoseconds of the last second.
#[derive(Clone, Copy, Debug, PartialEq, Eq, Structural)]
pub struct Duration {
    pub secs: u64,
    pub nanos: u32,
}

impl Duration {
    /// The nanoseconds are below one second.
    pub open spec fn wf(self) -> bool {
        self.nanos < NANOS_PER_SEC
    }

    pub open spec fn is_zero_spec(self) -> bool {
        self.secs == 0 && self.nanos == 0
    }

    /// The span of `secs` seconds and `nanos` nanoseconds; nanoseconds beyond
    /// a second carry into the seconds.
    pub fn new(secs: u64, nanos: u32) -> (r: Duration)
        requires
            secs + nanos / NANOS_PER_SEC <= u64::MAX,
        ensures
            r.wf(),
            r.secs == secs + nanos / NANOS_PER_SEC,
            r.nanos == nanos % NANOS_PER_SEC,
    {
        Duration { secs: secs + (nanos / NANOS_PER_SEC) as u64, nanos: nanos % NANOS_PER_SEC }
    }

    pub fn from_secs(secs: u64) -> (r: Duration)
        ensures
            r == (Duration { secs, nanos: 0 }),
    {
        Duration { secs, nanos: 0 }
    }

    pub fn as_secs(&self) -> (r: u64)
        ensures
            r == self.secs,
    {
        self.secs
    }

    pub fn subsec_nanos(&self) -> (r: u32)
        ensures
            r == self.nanos,
    {
        self.nanos
    }

    pub fn is_zero(&self) -> (r: bool)
        ensures
            r == self.is_zero_spec(),
    {
        self.secs == 0 && self.nanos == 0
    }
}

/// The native `timeval`: seconds and microseconds.
#[derive(Clone, Copy, Debug, PartialEq, Eq, Structural)]
pub struct TimeVal {
    pub sec: i64,
    pub usec: i64,
}

/// A 32-bit native integer read as unsigned.
pub open spec fn unsigned_of(raw: i32) -> int {
    if raw >= 0 {
        raw as int
    } else {
        raw + 0x1_0000_0000
    }
}

/// A 32-bit unsigned value stored in a native integer of the same width.
pub open spec fn signed_of(v: u32) -> int {
    if v <= i32::MAX {
        v as int
    } else {
        v - 0x1_0000_0000
    }
}

/// The native payload of a time-to-live (or hop-limit) value: the same 32
/// bits.
pub fn encode_ttl(ttl: u32) -> (r: i32)
    ensures
        r == signed_of(ttl),
{
    if ttl <= 0x7fff_ffff {
        ttl as i32
    } else {
        (ttl as i64 - 0x1_0000_0000i64) as i32
    }
}

/// Reads a time-to-live (or hop-limit) payload as unsigned.
pub fn decode_ttl(raw: i32) -> (r: u32)
    ensures
        r == unsigned_of(raw),
{
    if raw >= 0 {
        raw as u32
    } else {
        (raw as i64 + 0x1_0000_0000i64) as u32
    }
}

/// The native payload of a QoS (type-of-service / traffic-class) byte.
pub fn encode_qos(qos: u8) -> (r: i32)
    ensures
        r == qos,
{
    qos as i32
}

/// Reads a QoS payload: its low byte.
pub fn decode_qos(raw: i32) -> (r: u8)
    ensures
        r == unsigned_of(raw) % 256,
{
    let u = decode_ttl(raw);
    (u % 256) as u8
}

/// The native payload of a Boolean option: 1 for true, 0 for false.
pub fn encode_flag(on: bool) -> (r: i32)
    ensures
        r == (if on { 1i32 } else { 0i32 }),
{
    if on {
        1
    } else {
        0
    }
}

/// Reads a Boolean option: any nonzero payload is true.
pub fn decode_flag(raw: i32) -> (r: bool)
    ensures
        r == (raw != 0),
{
    raw != 0
}

/// The native timeout for a nonzero span: seconds saturated at the largest
/// native value, nanoseconds truncated to microseconds, and a span that would
/// come out as zero (which the system reads as "no timeout") raised to one
/// microsecond.
pub open spec fn timeval_of(d: Duration) -> TimeVal {
    let sec: i64 = if d.secs > i64::MAX { i64::MAX } else { d.secs as i64 };
    let usec: i64 = (d.nanos / NANOS_PER_MICRO) as i64;
    if sec == 0 && usec == 0 {
        TimeVal { sec: 0, usec: 1 }
    } else {
        TimeVal { sec, usec }
    }
}

pub open spec fn set_timeout_spec(dur: Option<Duration>) -> Result<TimeVal, Error> {
    match dur {
        None => Ok(TimeVal { sec: 0, usec: 0 }),
        Some(d) => if d.is_zero_spec() {
            Err(Error { kind: ErrorKind::InvalidInput, code: None })
        } else {
            Ok(timeval_of(d))
        },
    }
}

/// Encodes a timeout for the receive/send timeout options: `None` (block
/// forever) is the all-zero `timeval`; a zero span is rejected.
pub fn set_timeout(dur: Option<Duration>) -> (r: Result<TimeVal, Error>)
    requires
        dur matches Some(d) ==> d.wf(),
    ensures
        r == set_timeout_spec(dur),
{
    match dur {
        None => Ok(TimeVal { sec: 0, usec: 0 }),
        Some(d) => {
            if d.is_zero() {
                return Err(Error::invalid_input());
            }
            let sec: i64 = if d.as_secs() > 0x7fff_ffff_ffff_ffffu64 {
                0x7fff_ffff_ffff_ffffi64
            } else {
                d.as_secs() as i64
            };
            let usec: i64 = (d.subsec_nanos() / NANOS_PER_MICRO) as i64;
            if sec == 0 && usec == 0 {
                Ok(TimeVal { sec: 0, usec: 1 })
            } else {
                Ok(TimeVal { sec, usec })
            }
        },
    }
}

pub open spec fn timeout_spec(tv: TimeVal) -> Result<Option<Duration>, Error> {
    if tv.sec == 0 && tv.usec == 0 {
        Ok(None)
    } else if tv.sec < 0 || tv.usec < 0 {
        Err(Error { kind: ErrorKind::InvalidData, code: None })
    } else {
        Ok(
            Some(
                Duration {
                    secs: (tv.sec + tv.usec / MICROS_PER_SEC) as u64,
                    nanos: ((tv.usec % MICROS_PER_SEC) * NANOS_PER_MICRO) as u32,
                },
            ),
        )
    }
}

/// Decodes a timeout option: the all-zero `timeval` is "no timeout", any
/// other the span it holds, whole seconds of microseconds carried into the
/// seconds. A negative field is no span at all.
pub fn timeout(tv: TimeVal) -> (r: Result<Option<Duration>, Error>)
    ensures
        r == timeout_spec(tv),
        r matches Ok(Some(d)) ==> d.wf() && !d.is_zero_spec(),
{
    if tv.sec == 0 && tv.usec == 0 {
        Ok(None)
    } else if tv.sec < 0 || tv.usec < 0 {
        Err(Error::invalid_data())
    } else {
        let usec = tv.usec as u64;
        let micros = MICROS_PER_SEC as u64;
        let secs = tv.sec as u64 + usec / micros;
        let nanos = (usec % micros) as u32 * NANOS_PER_MICRO;
        let d = Duration { secs, nanos };
        assert(d.nanos < NANOS_PER_SEC);
        assert(!d.is_zero_spec()) by {
            if usec / micros == 0 {
                assert(usec % micros == usec);
            }
        }
        Ok(Some(d))
    }
}

/// A time-to-live written and read back through the native payload is the
/// value written, for every value and either address family.
pub proof fn ttl_round_trip(ttl: u32)
    ensures
        unsigned_of(signed_of(ttl) as i32) == ttl,
{
}

/// A QoS byte written and read back through the native payload is the byte
/// written.
pub proof fn qos_round_trip(qos: u8)
    ensures
        unsigned_of(qos as i32) % 256 == qos,
{
}

/// A Boolean option written and read back is the value written; so each
/// toggle of a sequence reads back as set.
pub proof fn flag_round_trip(on: bool)
    ensures
        ((if on { 1i32 } else { 0i32 }) != 0) == on,
{
}

/// The span that a nonzero timeout reads back as: seconds saturated at the
/// largest native value, nanoseconds truncated to whole microseconds, and at
/// least one microsecond.
pub open spec fn native_rounded(d: Duration) -> Duration {
    let secs: u64 = if d.secs > i64::MAX { i64::MAX as u64 } else { d.secs };
    let nanos: u32 = (d.nanos / NANOS_PER_MICRO * NANOS_PER_MICRO) as u32;
    if secs == 0 && nanos == 0 {
        Duration { secs: 0, nanos: NANOS_PER_MICRO }
    } else {
        Duration { secs, nanos }
    }
}

/// Setting a timeout and reading it back: the value that the native
/// encoding of `dur` decodes to, or the error that setting it meets.
pub open spec fn read_back(dur: Option<Duration>) -> Result<Option<Duration>, Error> {
    match set_timeout_spec(dur) {
        Ok(tv) => timeout_spec(tv),
        Err(e) => Err(e),
    }
}

/// Timeouts round-trip: `None` reads back as `None`; a nonzero span reads
/// back as itself up to native rounding (and exactly, for whole microseconds
/// within the native range); a zero span is refused as invalid input.
pub proof fn timeout_round_trip(dur: Option<Duration>)
    requires
        dur matches Some(d) ==> d.wf(),
    ensures
        dur is None ==> read_back(dur) == Ok::<Option<Duration>, Error>(None),
        dur matches Some(d) ==> (d.is_zero_spec() ==> read_back(dur) == Err::<
            Option<Duration>,
            Error,
        >(Error { kind: ErrorKind::InvalidInput, code: None })),
        dur matches Some(d) ==> (!d.is_zero_spec() ==> read_back(dur) == Ok::<
            Option<Duration>,
            Error,
        >(Some(native_rounded(d)))),
        dur matches Some(d) ==> ((!d.is_zero_spec() && d.secs <= i64::MAX && d.nanos
            % NANOS_PER_MICRO == 0) ==> native_rounded(d) == d),
{
    if let Some(d) = dur {
        assert(d.nanos / NANOS_PER_MICRO * NANOS_PER_MICRO <= d.nanos) by (nonlinear_arith);
        if d.nanos % NANOS_PER_MICRO == 0 {
            assert(d.nanos / NANOS_PER_MICRO * NANOS_PER_MICRO == d.nanos) by (nonlinear_arith)
                requires
                    d.nanos % NANOS_PER_MICRO == 0,
            ;
        }
    }
}

} // verus!
