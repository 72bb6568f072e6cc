//! A span of time held as whole seconds and a sub-second nanosecond part.
use vstd::prelude::*;

verus! {

/// Nanoseconds in one second.
pub const NANOS_PER_SEC: u32 = 1_000_000_000;

/// Milliseconds in one second.
pub const MILLIS_PER_SEC: u64 = 1_000;

/// Nanoseconds in one millisecond.
pub const NANOS_PER_MILLI: u32 = 1_000_000;

/// A span of time: whole seconds plus nanoseconds below one second.
#[derive(Clone, Copy, Debug, PartialEq, Eq, Structural)]
pub struct Duration {
    secs: u64,
    nanos: u32,
}

impl Duration {
    /// The nanosecond part of every span stays below one second.
    #[verifier::type_invariant]
    closed spec fn inv(self) -> bool {
        self.nanos < NANOS_PER_SEC
    }

    /// The whole seconds of the span.
    pub closed spec fn secs_part(self) -> u64 {
        self.secs
    }

    /// The nanoseconds of the span beyond its whole seconds.
    pub closed spec fn nanos_part(self) -> u32 {
        self.nanos
    }

    /// The total length of the span in nanoseconds.
    pub open spec fn total_nanos(self) -> nat {
        (self.secs_part() as nat) * (NANOS_PER_SEC as nat) + (self.nanos_part() as nat)
    }

    /// Well-formed: the nanosecond part stays below one second.
    pub open spec fn wf(self) -> bool {
        self.nanos_part() < NANOS_PER_SEC
    }

    /// Two well-formed spans of the same total length are the same value.
    pub proof fn lemma_eq_by_total(a: Duration, b: Duration)
        requires
            a.wf(),
            b.wf(),
            a.total_nanos() == b.total_nanos(),
        ensures
            a == b,
    {
        let n = NANOS_PER_SEC as int;
        let (sa, na, sb, nb) = (a.secs as int, a.nanos as int, b.secs as int, b.nanos as int);
        assert(sa == sb && na == nb) by (nonlinear_arith)
            requires
                sa * n + na == sb * n + nb,
                0 <= na < n,
                0 <= nb < n,
                0 <= sa,
                0 <= sb,
                n == 1_000_000_000,
        {
            if sa < sb {
                assert(sa * n + n <= sb * n);
            } else if sb < sa {
                assert(sb * n + n <= sa * n);
            }
        }
    }

    /// The whole seconds of a well-formed span are its total length in
    /// whole seconds.
    pub proof fn lemma_secs_of_total(d: Duration)
        requires
            d.wf(),
        ensures
            d.secs_part() as nat == d.total_nanos() / (NANOS_PER_SEC as nat),
    {
        let n = NANOS_PER_SEC as int;
        let (s, r) = (d.secs as int, d.nanos as int);
        assert((s * n + r) / n == s) by (nonlinear_arith)
            requires
                0 <= r < n,
                n == 1_000_000_000,
                0 <= s,
        ;
    }

    /// A span of `secs` whole seconds.
    pub fn from_secs(secs: u64) -> (d: Duration)
        ensures
            d.wf(),
            d.secs_part() == secs,
            d.nanos_part() == 0,
            d.total_nanos() == secs * (NANOS_PER_SEC as nat),
    {
        Duration { secs, nanos: 0 }
    }

    /// A span of `millis` milliseconds.
    pub fn from_millis(millis: u64) -> (d: Duration)
        ensures
            d.wf(),
            d.secs_part() == millis / MILLIS_PER_SEC,
            d.nanos_part() == (millis % MILLIS_PER_SEC) * (NANOS_PER_MILLI as nat),
            d.total_nanos() == millis * (NANOS_PER_MILLI as nat),
    {
        let secs = millis / MILLIS_PER_SEC;
        let rem = millis % MILLIS_PER_SEC;
        assert(rem * 1_000_000 < 1_000_000_000) by (nonlinear_arith)
            requires
                rem < 1000,
        ;
        let nanos = (rem as u32) * NANOS_PER_MILLI;
        assert(millis * 1_000_000 == secs * 1_000_000_000 + rem * 1_000_000) by (nonlinear_arith)
            requires
                millis == secs * 1000 + rem,
        ;
        Duration { secs, nanos }
    }

    /// A span of `secs` seconds and `nanos` nanoseconds; nanoseconds of a
    /// whole second or more carry into the seconds.
    pub fn new(secs: u64, nanos: u32) -> (d: Duration)
        requires
            secs + nanos / NANOS_PER_SEC <= u64::MAX,
        ensures
            d.wf(),
            d.total_nanos() == secs * (NANOS_PER_SEC as nat) + nanos,
    {
        let extra = (nanos / NANOS_PER_SEC) as u64;
        let rest = nanos % NANOS_PER_SEC;
        let total_secs = secs + extra;
        assert(total_secs * 1_000_000_000 + rest == secs * 1_000_000_000 + nanos) by (nonlinear_arith)
            requires
                total_secs == secs + extra,
                nanos == extra * 1_000_000_000 + rest,
        ;
        Duration { secs: total_secs, nanos: rest }
    }

    /// The whole seconds of the span.
    pub fn as_secs(&self) -> (s: u64)
        ensures
            s == self.secs_part(),
    {
        self.secs
    }

    /// The nanoseconds of the span beyond its whole seconds.
    pub fn subsec_nanos(&self) -> (n: u32)
        ensures
            n == self.nanos_part(),
    {
        self.nanos
    }

    /// The span repeated `rhs` times, or `None` when its whole seconds would
    /// not fit in a `u64`.
    pub fn checked_mul(&self, rhs: u32) -> (r: Option<Duration>)
        ensures
            match r {
                Some(d) => d.wf() && d.total_nanos() == self.total_nanos() * (rhs as nat),
                None => self.total_nanos() * (rhs as nat) / (NANOS_PER_SEC as nat) > u64::MAX,
            },
    {
        proof {
            use_type_invariant(self);
        }
        let a = self.nanos as u64;
        let b = rhs as u64;
        assert(a * b < 1_000_000_000 * 0x1_0000_0000) by (nonlinear_arith)
            requires
                a < 1_000_000_000,
                b < 0x1_0000_0000,
        ;
        let total_nanos: u64 = a * b;
        let extra_secs = total_nanos / (NANOS_PER_SEC as u64);
        let rem = total_nanos % (NANOS_PER_SEC as u64);
        assert(total_nanos == extra_secs * 1_000_000_000 + rem && rem < 1_000_000_000)
            by (nonlinear_arith)
            requires
                extra_secs == total_nanos / 1_000_000_000,
                rem == total_nanos % 1_000_000_000,
        ;
        let nanos = rem as u32;
        let ghost n: int = NANOS_PER_SEC as int;
        let ghost whole: int = self.total_nanos() * (rhs as int);
        assert(whole == (self.secs * rhs + extra_secs) * n + nanos) by (nonlinear_arith)
            requires
                whole == (self.secs * n + self.nanos) * rhs,
                total_nanos == self.nanos * rhs,
                total_nanos == extra_secs * n + nanos,
        ;
        assert(whole / n == self.secs * rhs + extra_secs) by (nonlinear_arith)
            requires
                whole == (self.secs * rhs + extra_secs) * n + nanos,
                0 <= nanos < n,
                n > 0,
        ;
        match self.secs.checked_mul(rhs as u64) {
            Some(s) => match s.checked_add(extra_secs) {
                Some(secs) => Some(Duration { secs, nanos }),
                None => None,
            },
            None => {
                assert(self.secs * rhs + extra_secs >= self.secs * rhs);
                None
            },
        }
    }

    /// The span repeated `rhs` times.
    pub fn mul(&self, rhs: u32) -> (d: Duration)
        requires
            self.total_nanos() * (rhs as nat) / (NANOS_PER_SEC as nat) <= u64::MAX,
        ensures
            d.wf(),
            d.total_nanos() == self.total_nanos() * (rhs as nat),
    {
        match self.checked_mul(rhs) {
            Some(d) => d,
            None => {
                assert(false);
                *self
            },
        }
    }
}

} // verus!
