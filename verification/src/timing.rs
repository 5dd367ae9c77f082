//! Spans of time as the drivers measure and report them, and the clock that
//! the host offers to a guest.

use vstd::prelude::*;

verus! {

/// A reading of the monotonic clock, opaque to the library.
#[verifier::external_type_specification]
#[verifier::external_body]
pub struct ExInstant(std::time::Instant);

/// The text that the standard library writes for a span of `secs` seconds and
/// `subsec_nanos` nanoseconds when it is formatted for debugging, such as
/// `1.5µs` or `2.000000001s`.
pub uninterp spec fn duration_debug(secs: nat, subsec_nanos: nat) -> Seq<char>;

/// The number of nanoseconds in one second.
pub const NANOS_PER_SEC: u32 = 1_000_000_000;

/// A 64-bit count of nanoseconds wraps at this many.
pub const TWO_POW_64: u128 = 0x1_0000_0000_0000_0000;

/// The least count of nanoseconds that wraps to a negative 64-bit value.
pub const TWO_POW_63: u128 = 0x8000_0000_0000_0000;

/// What a count of `n` becomes when it is kept as a signed 64-bit integer:
/// its low 64 bits, read in two's complement.
pub open spec fn wrapped_i64(n: nat) -> int {
    let low = n % (TWO_POW_64 as nat);
    if low < TWO_POW_63 {
        low as int
    } else {
        low - TWO_POW_64
    }
}

/// A measured span of time: whole seconds and the nanoseconds beyond them,
/// always fewer than a second's worth.
#[derive(Clone, Copy, Debug)]
pub struct Elapsed {
    secs: u64,
    subsec_nanos: u32,
}

impl Elapsed {
    #[verifier::type_invariant]
    spec fn below_one_second(self) -> bool {
        self.subsec_nanos < NANOS_PER_SEC
    }

    /// The whole seconds of the span.
    pub closed spec fn seconds(self) -> nat {
        self.secs as nat
    }

    /// The nanoseconds of the span beyond its whole seconds.
    pub closed spec fn subsec(self) -> nat {
        self.subsec_nanos as nat
    }

    /// The whole span in nanoseconds.
    pub open spec fn total_nanos(self) -> nat {
        self.seconds() * (NANOS_PER_SEC as nat) + self.subsec()
    }

    /// The span of `secs` seconds and `subsec_nanos` nanoseconds, if the
    /// nanoseconds are fewer than a second's worth.
    pub fn new(secs: u64, subsec_nanos: u32) -> (r: Option<Elapsed>)
        ensures
            r is Some <==> subsec_nanos < NANOS_PER_SEC,
            r matches Some(e) ==> e.seconds() == secs && e.subsec() == subsec_nanos,
    {
        if subsec_nanos < NANOS_PER_SEC {
            Some(Elapsed { secs, subsec_nanos })
        } else {
            None
        }
    }

    /// The span of `nanos` nanoseconds.
    pub fn from_nanos(nanos: u64) -> (e: Elapsed)
        ensures
            e.total_nanos() == nanos,
            e.seconds() == nanos / (NANOS_PER_SEC as u64),
            e.subsec() == nanos % (NANOS_PER_SEC as u64),
    {
        let secs: u64 = nanos / (NANOS_PER_SEC as u64);
        let rest: u64 = nanos % (NANOS_PER_SEC as u64);
        proof {
            vstd::arithmetic::div_mod::lemma_fundamental_div_mod(
                nanos as int,
                NANOS_PER_SEC as int,
            );
            assert(secs * (NANOS_PER_SEC as nat) == (NANOS_PER_SEC as int) * (nanos as int / (
            NANOS_PER_SEC as int))) by (nonlinear_arith)
                requires
                    secs == nanos as int / (NANOS_PER_SEC as int),
            ;
        }
        Elapsed { secs, subsec_nanos: rest as u32 }
    }

    /// The whole seconds of the span.
    pub fn secs(&self) -> (s: u64)
        ensures
            s == self.seconds(),
    {
        self.secs
    }

    /// The nanoseconds of the span beyond its whole seconds.
    pub fn subsec_nanos(&self) -> (n: u32)
        ensures
            n == self.subsec(),
            n < NANOS_PER_SEC,
    {
        proof {
            use_type_invariant(self);
        }
        self.subsec_nanos
    }

    /// The whole span in nanoseconds.
    pub fn as_nanos(&self) -> (n: u128)
        ensures
            n == self.total_nanos(),
    {
        let secs: u128 = self.secs as u128;
        let rest: u128 = self.subsec_nanos as u128;
        assert(secs * (NANOS_PER_SEC as u128) <= 0xffff_ffff_ffff_ffff * 1_000_000_000)
            by (nonlinear_arith)
            requires
                secs <= 0xffff_ffff_ffff_ffff,
                NANOS_PER_SEC == 1_000_000_000,
        ;
        secs * (NANOS_PER_SEC as u128) + rest
    }

    /// The whole span in nanoseconds, kept as a signed 64-bit integer.
    pub fn as_nanos_i64(&self) -> (n: i64)
        ensures
            n == wrapped_i64(self.total_nanos()),
    {
        let total: u128 = self.as_nanos();
        let low: u128 = total % TWO_POW_64;
        if low < TWO_POW_63 {
            low as i64
        } else {
            let shifted: i128 = low as i128 - (TWO_POW_64 as i128);
            shifted as i64
        }
    }

    /// The span as the standard library writes it for debugging.
    pub fn debug_string(&self) -> (s: String)
        ensures
            s@ == duration_debug(self.seconds(), self.subsec()),
    {
        proof {
            use_type_invariant(self);
        }
        debug_duration(self.secs, self.subsec_nanos)
    }
}

/// A span shorter than 2^63 nanoseconds, some 292 years, keeps its count when
/// that count is held as a signed 64-bit integer, and the count is not
/// negative.
pub proof fn lemma_short_span_keeps_count(e: Elapsed)
    requires
        e.total_nanos() < TWO_POW_63,
    ensures
        wrapped_i64(e.total_nanos()) == e.total_nanos(),
        wrapped_i64(e.total_nanos()) >= 0,
{
}

/// Reads the monotonic clock: `Instant::now` of the standard library. The
/// reading depends on the moment of the call, so nothing is claimed of it.
#[verifier::external_body]
pub(crate) fn instant_now() -> (now: std::time::Instant) {
    std::time::Instant::now()
}

/// The time since `start` was read: `Instant::elapsed` of the standard
/// library, handed back as whole seconds and the nanoseconds beyond them,
/// which the library documents to be below one second's worth. How long the
/// span is depends on the moment of the call.
#[verifier::external_body]
pub(crate) fn instant_elapsed(start: &std::time::Instant) -> (parts: (u64, u32))
    ensures
        parts.1 < NANOS_PER_SEC,
{
    let span = start.elapsed();
    (span.as_secs(), span.subsec_nanos())
}

/// The debug text of a span: the standard library's `Debug` formatting of the
/// `Duration` made of `secs` and `subsec_nanos`. The text is a function of
/// the two numbers alone; it is named, not spelled out. With fewer than a
/// second's worth of nanoseconds, making the `Duration` cannot overflow.
#[verifier::external_body]
pub(crate) fn debug_duration(secs: u64, subsec_nanos: u32) -> (text: String)
    requires
        subsec_nanos < NANOS_PER_SEC,
    ensures
        text@ == duration_debug(secs as nat, subsec_nanos as nat),
{
    format!("{:?}", std::time::Duration::new(secs, subsec_nanos))
}

/// The time since `start` was read. How long that is depends on the moment
/// of the call; whatever it is, its nanoseconds beyond the whole seconds are
/// fewer than a second's worth.
pub(crate) fn elapsed_since(start: &std::time::Instant) -> (e: Elapsed)
    ensures
        e.subsec() < NANOS_PER_SEC,
{
    let parts = instant_elapsed(start);
    Elapsed { secs: parts.0, subsec_nanos: parts.1 }
}

/// What the host's clock counts from.
#[derive(Clone, Copy, Debug, PartialEq, Eq, Structural)]
pub enum ClockReference {
    /// The moment at which the driver started.
    DriverStart,
    /// The moment of each reading itself, so that every reading is close to
    /// zero.
    EachReading,
}

/// The clock that the host offers to a guest: nanoseconds since its
/// reference.
pub struct HostClock {
    started: Option<std::time::Instant>,
}

impl HostClock {
    /// Whether this clock counts from the moment it was made.
    pub closed spec fn counts_from_start(self) -> bool {
        self.started is Some
    }

    /// A clock that counts from `reference`; for
    /// [`ClockReference::DriverStart`] that is the moment of this call.
    pub fn start(reference: ClockReference) -> (clock: HostClock)
        ensures
            clock.counts_from_start() <==> reference == ClockReference::DriverStart,
    {
        match reference {
            ClockReference::DriverStart => HostClock { started: Some(instant_now()) },
            ClockReference::EachReading => HostClock { started: None },
        }
    }

    /// The time since this clock's reference. How long that is depends on
    /// the moment of the call; whatever it is, its nanoseconds beyond the
    /// whole seconds are fewer than a second's worth.
    pub fn elapsed(&self) -> (e: Elapsed)
        ensures
            e.subsec() < NANOS_PER_SEC,
    {
        match &self.started {
            Some(start) => elapsed_since(start),
            None => {
                let fresh = instant_now();
                elapsed_since(&fresh)
            },
        }
    }

    /// A reading of the clock: the nanoseconds since its reference, as a
    /// signed 64-bit integer.
    pub fn now(&self) -> (nanos: i64) {
        let e = self.elapsed();
        e.as_nanos_i64()
    }
}

} // verus!
