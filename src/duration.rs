use vstd::prelude::*;

verus! {

/// Nanoseconds in one second.
pub const NANOS_PER_SEC: u32 = 1_000_000_000;

/// Nanoseconds in one millisecond.
pub const NANOS_PER_MILLI: u32 = 1_000_000;

/// Nanoseconds in one microsecond.
pub const NANOS_PER_MICRO: u32 = 1_000;

/// Milliseconds in one second.
pub const MILLIS_PER_SEC: u64 = 1_000;

/// Microseconds in one second.
pub const MICROS_PER_SEC: u64 = 1_000_000;

/// A non-negative span of time measured from the Unix epoch, held as whole
/// seconds and the nanoseconds of the second under way.
#[derive(Clone, Copy, Debug, PartialEq, Eq, Structural)]
pub struct EpochDuration {
    secs: u64,
    nanos: u32,
}

impl View for EpochDuration {
    type V = nat;

    /// The span in nanoseconds.
    open spec fn view(&self) -> nat {
        (self.secs_spec() * NANOS_PER_SEC + self.nanos_spec()) as nat
    }
}

/// Whole seconds in a span of `n` nanoseconds.
pub open spec fn whole_secs(n: nat) -> nat {
    n / (NANOS_PER_SEC as nat)
}

/// Whole milliseconds in a span of `n` nanoseconds.
pub open spec fn whole_millis(n: nat) -> nat {
    n / (NANOS_PER_MILLI as nat)
}

/// Whole microseconds in a span of `n` nanoseconds.
pub open spec fn whole_micros(n: nat) -> nat {
    n / (NANOS_PER_MICRO as nat)
}

impl EpochDuration {
    /// The sub-second part is a fraction of a second.
    pub open spec fn wf(&self) -> bool {
        self.nanos_spec() < NANOS_PER_SEC
    }

    /// The whole seconds held.
    pub closed spec fn secs_spec(&self) -> u64 {
        self.secs
    }

    /// The nanoseconds of the second under way.
    pub closed spec fn nanos_spec(&self) -> u32 {
        self.nanos
    }

    /// The span of `secs` seconds and `nanos` nanoseconds, where `nanos` may
    /// exceed a second and carries into the seconds. `None` when the seconds
    /// do not fit in a `u64`.
    pub fn new(secs: u64, nanos: u32) -> (r: Option<EpochDuration>)
        ensures
            r is Some <==> secs + nanos / NANOS_PER_SEC <= u64::MAX,
            r matches Some(d) ==> d.wf() && d@ == secs * NANOS_PER_SEC + nanos,
    {
        let carry: u64 = (nanos / NANOS_PER_SEC) as u64;
        match secs.checked_add(carry) {
            Some(s) => {
                let d = EpochDuration { secs: s, nanos: nanos % NANOS_PER_SEC };
                assert(d@ == secs * NANOS_PER_SEC + nanos) by (nonlinear_arith)
                    requires
                        s == secs + nanos / NANOS_PER_SEC,
                        d.secs == s,
                        d.nanos == nanos % NANOS_PER_SEC,
                        NANOS_PER_SEC == 1_000_000_000,
                ;
                Some(d)
            },
            None => None,
        }
    }

    /// Whole seconds of the span; the fraction is dropped.
    pub fn as_secs(&self) -> (r: u64)
        requires
            self.wf(),
        ensures
            r == whole_secs(self@),
    {
        proof {
            lemma_whole_secs(self.secs as nat, self.nanos as nat);
        }
        self.secs
    }

    /// Nanoseconds of the second under way, below one billion.
    pub fn subsec_nanos(&self) -> (r: u32)
        requires
            self.wf(),
        ensures
            r == self@ % (NANOS_PER_SEC as nat),
            r < NANOS_PER_SEC,
    {
        proof {
            lemma_whole_secs(self.secs as nat, self.nanos as nat);
        }
        self.nanos
    }

    /// Whole milliseconds of the span.
    pub fn as_millis(&self) -> (r: u128)
        requires
            self.wf(),
        ensures
            r == whole_millis(self@),
    {
        proof {
            lemma_split_div(self.secs as nat, self.nanos as nat, 1000, 1_000_000);
        }
        self.secs as u128 * MILLIS_PER_SEC as u128 + (self.nanos / NANOS_PER_MILLI) as u128
    }

    /// Whole microseconds of the span.
    pub fn as_micros(&self) -> (r: u128)
        requires
            self.wf(),
        ensures
            r == whole_micros(self@),
    {
        proof {
            lemma_split_div(self.secs as nat, self.nanos as nat, 1_000_000, 1000);
        }
        self.secs as u128 * MICROS_PER_SEC as u128 + (self.nanos / NANOS_PER_MICRO) as u128
    }

    /// The span in nanoseconds.
    pub fn as_nanos(&self) -> (r: u128)
        requires
            self.wf(),
        ensures
            r == self@,
    {
        self.secs as u128 * NANOS_PER_SEC as u128 + self.nanos as u128
    }
}

proof fn lemma_whole_secs(s: nat, n: nat)
    requires
        n < 1_000_000_000,
    ensures
        (s * 1_000_000_000 + n) / 1_000_000_000 == s,
        (s * 1_000_000_000 + n) % 1_000_000_000 == n,
{
    vstd::arithmetic::div_mod::lemma_fundamental_div_mod_converse(
        (s * 1_000_000_000 + n) as int, 1_000_000_000, s as int, n as int);
}

/// With `u` units to the second, each of `k` nanoseconds, the whole units of
/// `s` seconds and `n` nanoseconds are `s * u` plus the whole units of `n`.
proof fn lemma_split_div(s: nat, n: nat, u: nat, k: nat)
    requires
        n < 1_000_000_000,
        u * k == 1_000_000_000,
    ensures
        (s * 1_000_000_000 + n) / k == s * u + n / k,
{
    assert(k > 0) by (nonlinear_arith)
        requires
            u * k == 1_000_000_000,
    ;
    assert(s * 1_000_000_000 == (s * u) * k) by (nonlinear_arith)
        requires
            u * k == 1_000_000_000,
    ;
    vstd::arithmetic::div_mod::lemma_fundamental_div_mod(n as int, k as int);
    assert((s * 1_000_000_000 + n) as int == (s * u + n / k) * k + n % k) by (nonlinear_arith)
        requires
            s * 1_000_000_000 == (s * u) * k,
            n == k * (n / k) + n % k,
    ;
    vstd::arithmetic::div_mod::lemma_fundamental_div_mod_converse(
        (s * 1_000_000_000 + n) as int, k as int, (s * u + n / k) as int, (n % k) as int);
}

} // verus!
