use vstd::prelude::*;
use vstd::arithmetic::div_mod::lemma_fundamental_div_mod_converse;

verus! {

/// Nanoseconds in one second.
pub const NANOS_PER_SEC: u32 = 1_000_000_000;

/// A bound on the seconds of any timestamp or span; every date that chrono
/// can represent lies well inside it.
pub const SECS_LIMIT: i64 = 10_000_000_000_000;

/// A point in time: whole seconds since the Unix epoch (UTC) and the
/// nanoseconds past that second.
#[derive(Clone, Copy, Debug, PartialEq, Eq, Structural)]
pub struct Timestamp {
    pub secs: i64,
    pub nanos: u32,
}

/// A signed length of time, as whole seconds plus a non-negative number of
/// nanoseconds (so minus one and a half seconds is `-2 s + 500_000_000 ns`).
#[derive(Clone, Copy, Debug, PartialEq, Eq, Structural)]
pub struct TimeSpan {
    pub secs: i64,
    pub nanos: u32,
}

/// The number of nanoseconds that a pair (seconds, nanoseconds) stands for.
pub open spec fn nanos_of(secs: i64, nanos: u32) -> int {
    secs * NANOS_PER_SEC + nanos
}

/// Whole seconds in a number of nanoseconds, rounded toward zero.
pub open spec fn whole_seconds(n: int) -> int {
    if n >= 0 {
        n / (NANOS_PER_SEC as int)
    } else {
        -((-n) / (NANOS_PER_SEC as int))
    }
}

impl Timestamp {
    pub open spec fn wf(&self) -> bool {
        self.nanos < NANOS_PER_SEC && -SECS_LIMIT <= self.secs <= SECS_LIMIT
    }

    pub open spec fn total_nanos(&self) -> int {
        nanos_of(self.secs, self.nanos)
    }

    /// Seconds since the epoch, rounded down.
    pub fn timestamp(&self) -> (r: i64)
        requires
            self.wf(),
        ensures
            r == self.secs,
            r == self.total_nanos() / (NANOS_PER_SEC as int),
    {
        proof {
            lemma_fundamental_div_mod_converse(
                self.total_nanos(),
                NANOS_PER_SEC as int,
                self.secs as int,
                self.nanos as int,
            );
        }
        self.secs
    }

    /// Whole seconds from `earlier` to `self`, rounded toward zero.
    pub fn seconds_since(&self, earlier: &Timestamp) -> (r: i64)
        requires
            self.wf(),
            earlier.wf(),
        ensures
            r == whole_seconds(self.total_nanos() - earlier.total_nanos()),
    {
        let ds: i64 = self.secs - earlier.secs;
        let dn: i64 = self.nanos as i64 - earlier.nanos as i64;
        let ghost n = NANOS_PER_SEC as int;
        let ghost total = self.total_nanos() - earlier.total_nanos();
        assert(total == ds * n + dn) by (nonlinear_arith)
            requires
                ds == self.secs - earlier.secs,
                dn == self.nanos - earlier.nanos,
                total == self.total_nanos() - earlier.total_nanos(),
                self.total_nanos() == self.secs * n + self.nanos,
                earlier.total_nanos() == earlier.secs * n + earlier.nanos,
        ;
        if ds > 0 && dn < 0 {
            proof {
                assert(total == (ds - 1) * n + (dn + n)) by (nonlinear_arith)
                    requires total == ds * n + dn;
                assert(total >= 0) by (nonlinear_arith)
                    requires total == (ds - 1) * n + (dn + n), ds >= 1, dn + n >= 0, n > 0;
                lemma_fundamental_div_mod_converse(total, n, ds - 1, dn + n);
            }
            ds - 1
        } else if ds < 0 && dn > 0 {
            proof {
                assert(-total == (-ds - 1) * n + (n - dn)) by (nonlinear_arith)
                    requires total == ds * n + dn;
                assert(total < 0) by (nonlinear_arith)
                    requires total == ds * n + dn, ds <= -1, dn < n, n > 0;
                lemma_fundamental_div_mod_converse(-total, n, -ds - 1, n - dn);
            }
            ds + 1
        } else if ds >= 0 && dn >= 0 {
            proof {
                assert(total >= 0) by (nonlinear_arith)
                    requires total == ds * n + dn, ds >= 0, dn >= 0, n > 0;
                lemma_fundamental_div_mod_converse(total, n, ds as int, dn as int);
            }
            ds
        } else {
            proof {
                assert(-total == (-ds) * n + (-dn)) by (nonlinear_arith)
                    requires total == ds * n + dn;
                assert(total <= 0) by (nonlinear_arith)
                    requires total == ds * n + dn, ds <= 0, dn <= 0, n > 0;
                lemma_fundamental_div_mod_converse(-total, n, -ds as int, -dn as int);
            }
            ds
        }
    }

    /// The whole seconds since the epoch of `self + span`, rounded down.
    pub fn timestamp_after(&self, span: &TimeSpan) -> (r: i64)
        requires
            self.wf(),
            span.wf(),
        ensures
            r == (self.total_nanos() + span.total_nanos()) / (NANOS_PER_SEC as int),
    {
        let ghost n = NANOS_PER_SEC as int;
        let ghost total = self.total_nanos() + span.total_nanos();
        let carry: i64 = if self.nanos as u64 + span.nanos as u64 >= NANOS_PER_SEC as u64 {
            1
        } else {
            0
        };
        let rest: u64 = self.nanos as u64 + span.nanos as u64 - carry as u64 * NANOS_PER_SEC as u64;
        let secs: i64 = self.secs + span.secs + carry;
        proof {
            assert(total == secs * n + rest) by (nonlinear_arith)
                requires
                    total == self.total_nanos() + span.total_nanos(),
                    self.total_nanos() == self.secs * n + self.nanos,
                    span.total_nanos() == span.secs * n + span.nanos,
                    secs == self.secs + span.secs + carry,
                    rest == self.nanos + span.nanos - carry * n,
            ;
            lemma_fundamental_div_mod_converse(total, n, secs as int, rest as int);
        }
        secs
    }
}

impl TimeSpan {
    pub open spec fn wf(&self) -> bool {
        self.nanos < NANOS_PER_SEC && -SECS_LIMIT <= self.secs <= SECS_LIMIT
    }

    pub open spec fn total_nanos(&self) -> int {
        nanos_of(self.secs, self.nanos)
    }

    /// Whole seconds in the span, rounded toward zero.
    pub fn num_seconds(&self) -> (r: i64)
        requires
            self.wf(),
        ensures
            r == whole_seconds(self.total_nanos()),
    {
        let zero = Timestamp { secs: 0, nanos: 0 };
        let end = Timestamp { secs: self.secs, nanos: self.nanos };
        end.seconds_since(&zero)
    }
}

/// Relies on `chrono::Utc::now`: the current UTC time, as whole seconds
/// since the epoch and the nanoseconds past them.
#[verifier::external_body]
fn utc_now_parts() -> (i64, u32) {
    let now = chrono::Utc::now();
    (now.timestamp(), now.timestamp_subsec_nanos())
}

/// The current time. A leap second reads as the last nanosecond of the
/// second before it.
pub fn now() -> (r: Timestamp)
    ensures
        r.wf(),
{
    let (secs, nanos) = utc_now_parts();
    let secs = if secs > SECS_LIMIT {
        SECS_LIMIT
    } else if secs < -SECS_LIMIT {
        -SECS_LIMIT
    } else {
        secs
    };
    let nanos = if nanos >= NANOS_PER_SEC {
        NANOS_PER_SEC - 1
    } else {
        nanos
    };
    Timestamp { secs, nanos }
}

} // verus!
