//! A span of time, held as whole seconds and the nanoseconds beyond them.
use vstd::prelude::*;

verus! {

/// Nanoseconds in one second.
pub const NANOS_PER_SEC: u32 = 1_000_000_000;

/// A span of time with nanosecond precision, as `std::time::Duration`.
///
/// Its view is the whole span in nanoseconds.
#[derive(Clone, Copy, Debug, PartialEq, Eq, Hash, Structural)]
pub struct Duration {
    secs: u64,
    nanos: u32,
}

impl View for Duration {
    type V = nat;

    closed spec fn view(&self) -> nat {
        (self.secs * 1_000_000_000 + self.nanos) as nat
    }
}

proof fn lemma_split(total: nat, secs: nat, nanos: nat)
    by (nonlinear_arith)
    requires
        nanos < 1_000_000_000,
        total == secs * 1_000_000_000 + nanos,
    ensures
        secs == total / 1_000_000_000,
        nanos == total % 1_000_000_000,
{
}

/// Splitting a span into whole seconds and the nanoseconds beyond them and
/// joining the two again gives back the span: `Duration::new(d.as_secs(),
/// d.subsec_nanos())` is as long as `d`.
pub proof fn lemma_parts_rejoin(nanos: nat)
    ensures
        (nanos / 1_000_000_000) * 1_000_000_000 + nanos % 1_000_000_000 == nanos,
        nanos % 1_000_000_000 < 1_000_000_000,
{
}

impl Duration {
    #[verifier::type_invariant]
    spec fn canonical(self) -> bool {
        self.nanos < NANOS_PER_SEC
    }

    /// The span of `secs` seconds and `nanos` nanoseconds; nanoseconds past
    /// a second carry into the seconds.
    pub fn new(secs: u64, nanos: u32) -> (d: Duration)
        requires
            secs + nanos / 1_000_000_000 <= u64::MAX,
        ensures
            d@ == secs * 1_000_000_000 + nanos,
    {
        let extra = (nanos / NANOS_PER_SEC) as u64;
        let rest = nanos % NANOS_PER_SEC;
        assert(extra * 1_000_000_000 + rest == nanos) by (nonlinear_arith)
            requires
                extra == nanos / 1_000_000_000,
                rest == nanos % 1_000_000_000,
        ;
        Duration { secs: secs + extra, nanos: rest }
    }

    /// The span of `secs` whole seconds.
    pub fn from_secs(secs: u64) -> (d: Duration)
        ensures
            d@ == secs * 1_000_000_000,
    {
        Duration { secs, nanos: 0 }
    }

    /// The span of `millis` milliseconds.
    pub fn from_millis(millis: u64) -> (d: Duration)
        ensures
            d@ == millis * 1_000_000,
    {
        let secs = millis / 1000;
        let rest = millis % 1000;
        assert(secs * 1_000_000_000 + rest * 1_000_000 == millis * 1_000_000
            && rest * 1_000_000 < 1_000_000_000) by (nonlinear_arith)
            requires
                secs == millis / 1000,
                rest == millis % 1000,
        ;
        Duration { secs, nanos: (rest * 1_000_000) as u32 }
    }

    /// The span of `micros` microseconds.
    pub fn from_micros(micros: u64) -> (d: Duration)
        ensures
            d@ == micros * 1_000,
    {
        let secs = micros / 1_000_000;
        let rest = micros % 1_000_000;
        assert(secs * 1_000_000_000 + rest * 1_000 == micros * 1_000 && rest * 1_000
            < 1_000_000_000) by (nonlinear_arith)
            requires
                secs == micros / 1_000_000,
                rest == micros % 1_000_000,
        ;
        Duration { secs, nanos: (rest * 1_000) as u32 }
    }

    /// The span of `nanos` nanoseconds.
    pub fn from_nanos(nanos: u64) -> (d: Duration)
        ensures
            d@ == nanos,
    {
        let secs = nanos / 1_000_000_000;
        let rest = nanos % 1_000_000_000;
        assert(secs * 1_000_000_000 + rest == nanos) by (nonlinear_arith)
            requires
                secs == nanos / 1_000_000_000,
                rest == nanos % 1_000_000_000,
        ;
        Duration { secs, nanos: rest as u32 }
    }

    /// The whole seconds of the span.
    pub fn as_secs(&self) -> (s: u64)
        ensures
            s == self@ / 1_000_000_000,
    {
        proof {
            use_type_invariant(self);
            lemma_split(self@, self.secs as nat, self.nanos as nat);
        }
        self.secs
    }

    /// The nanoseconds of the span beyond its whole seconds.
    pub fn subsec_nanos(&self) -> (n: u32)
        ensures
            n == self@ % 1_000_000_000,
    {
        proof {
            use_type_invariant(self);
            lemma_split(self@, self.secs as nat, self.nanos as nat);
        }
        self.nanos
    }

    /// The whole milliseconds of the span.
    pub fn as_millis(&self) -> (m: u128)
        ensures
            m == self@ / 1_000_000,
    {
        proof {
            use_type_invariant(self);
        }
        let s = self.secs;
        let n = self.nanos;
        assert((s * 1_000_000_000 + n) / 1_000_000 == s * 1000 + n / 1_000_000) by (nonlinear_arith)
            requires
                n < 1_000_000_000,
        ;
        (s as u128) * 1000 + (n / 1_000_000) as u128
    }

    /// Whether two spans are equally long.
    pub fn same_as(&self, other: &Duration) -> (r: bool)
        ensures
            r == (self@ == other@),
    {
        proof {
            use_type_invariant(self);
            use_type_invariant(other);
            lemma_split(self@, self.secs as nat, self.nanos as nat);
            lemma_split(other@, other.secs as nat, other.nanos as nat);
        }
        self.secs == other.secs && self.nanos == other.nanos
    }
}

} // verus!
