//! The cache client's decision logic.
//!
//! Opening the connection, sending commands and waiting on the wire are
//! done by the embedding binary; this module owns what can be decided
//! without I/O: the error taxonomy, the retry budget, and the
//! exponential backoff schedule between retries.

use vstd::prelude::*;

use crate::config::CacheConfig;

verus! {

/// Budget for one cache write on the aggregator's hot path, in
/// milliseconds.
pub const CACHE_WRITE_TIMEOUT_MILLIS: u64 = 500;

/// Why a cache operation failed.
#[derive(Debug, Clone)]
pub enum CacheError {
    /// No connection to the cache service could be opened.
    Connection(String),
    /// A command on an open connection failed or timed out.
    Command(String),
}

impl CacheError {
    /// The text `describe` returns: the kind's own message with the
    /// transport detail appended.
    pub open spec fn spec_describe(&self) -> Seq<char> {
        match self {
            CacheError::Connection(d) => "failed to open connection to cache service: "@ + d@,
            CacheError::Command(d) => "failed to execute cache service command: "@ + d@,
        }
    }

    /// A human-readable description, with the transport detail appended.
    pub fn describe(&self) -> (s: String)
        ensures
            s@ == self.spec_describe(),
    {
        match self {
            CacheError::Connection(detail) => {
                let mut s = String::from_str("failed to open connection to cache service: ");
                s.append(detail.as_str());
                s
            },
            CacheError::Command(detail) => {
                let mut s = String::from_str("failed to execute cache service command: ");
                s.append(detail.as_str());
                s
            },
        }
    }
}

/// The retry tuning the connection manager is built with.
#[derive(Debug, Clone, PartialEq, Eq, Structural)]
pub struct RetryPolicy {
    /// How many retries one command may spend before it fails.
    pub number_of_retries: usize,
    /// Upper bound on the delay between retries, in milliseconds.
    pub max_delay_millis: u64,
    /// Base of the exponential backoff, in milliseconds.
    pub exponent_base_millis: u64,
}

/// Extracts the retry policy the cache connection is managed with from
/// the configuration.
pub fn connection_policy(cfg: &CacheConfig) -> (p: RetryPolicy)
    ensures
        p.number_of_retries == cfg.number_of_retries,
        p.max_delay_millis == cfg.max_delay_between_retries_millis,
        p.exponent_base_millis == cfg.delay_exponent_base_millis,
{
    RetryPolicy {
        number_of_retries: cfg.number_of_retries,
        max_delay_millis: cfg.max_delay_between_retries_millis,
        exponent_base_millis: cfg.delay_exponent_base_millis,
    }
}

/// `b` to the power `e`.
pub open spec fn pow_nat(b: nat, e: nat) -> nat
    decreases e,
{
    if e == 0 {
        1
    } else {
        b * pow_nat(b, (e - 1) as nat)
    }
}

/// Whether a command that already spent `attempts_used` retries may
/// spend another one.  Once the budget is exhausted the command fails.
pub fn may_retry(p: &RetryPolicy, attempts_used: usize) -> (b: bool)
    ensures
        b == (attempts_used < p.number_of_retries),
{
    attempts_used < p.number_of_retries
}

/// The delay before retry number `attempt`: the backoff base raised to
/// `attempt`, capped at the configured maximum.
pub fn retry_delay(p: &RetryPolicy, attempt: usize) -> (d: u64)
    ensures
        pow_nat(p.exponent_base_millis as nat, attempt as nat) <= p.max_delay_millis ==> d
            == pow_nat(p.exponent_base_millis as nat, attempt as nat),
        pow_nat(p.exponent_base_millis as nat, attempt as nat) > p.max_delay_millis ==> d
            == p.max_delay_millis,
{
    let base = p.exponent_base_millis;
    let max = p.max_delay_millis;
    if base == 0 {
        if attempt == 0 {
            if max == 0 {
                0
            } else {
                1
            }
        } else {
            assert(pow_nat(0, attempt as nat) == 0);
            0
        }
    } else if base == 1 {
        proof {
            lemma_pow_one(attempt as nat);
        }
        if max == 0 {
            0
        } else {
            1
        }
    } else if max == 0 {
        proof {
            lemma_pow_at_least_one(base as nat, attempt as nat);
        }
        0
    } else {
        let mut d: u64 = 1;
        let mut capped: bool = false;
        let mut i: usize = 0;
        while i < attempt
            invariant
                0 <= i <= attempt,
                base == p.exponent_base_millis,
                max == p.max_delay_millis,
                base >= 2,
                !capped ==> d == pow_nat(base as nat, i as nat) && d <= max,
                capped ==> d == max && pow_nat(base as nat, i as nat) > max,
            decreases attempt - i,
        {
            if capped {
                proof {
                    assert(pow_nat(base as nat, (i + 1) as nat) == base * pow_nat(
                        base as nat,
                        i as nat,
                    ));
                    assert(base * pow_nat(base as nat, i as nat) > max) by (nonlinear_arith)
                        requires
                            base >= 2,
                            pow_nat(base as nat, i as nat) > max,
                    {}
                }
            } else if d > max / base {
                proof {
                    assert(pow_nat(base as nat, (i + 1) as nat) == base * pow_nat(
                        base as nat,
                        i as nat,
                    ));
                    assert(base * d > max) by (nonlinear_arith)
                        requires
                            base >= 2,
                            d > max / base,
                            max >= 0,
                    {}
                }
                d = max;
                capped = true;
            } else {
                proof {
                    assert(pow_nat(base as nat, (i + 1) as nat) == base * pow_nat(
                        base as nat,
                        i as nat,
                    ));
                    assert(d * base <= max) by (nonlinear_arith)
                        requires
                            base >= 1,
                            d <= max / base,
                            max >= 0,
                    {}
                }
                d = d * base;
            }
            i = i + 1;
        }
        d
    }
}

/// A positive base raised to any power stays positive.
proof fn lemma_pow_at_least_one(b: nat, e: nat)
    requires
        b >= 1,
    ensures
        pow_nat(b, e) >= 1,
    decreases e,
{
    if e > 0 {
        lemma_pow_at_least_one(b, (e - 1) as nat);
        assert(b * pow_nat(b, (e - 1) as nat) >= 1) by (nonlinear_arith)
            requires
                b >= 1,
                pow_nat(b, (e - 1) as nat) >= 1,
        {}
    }
}

/// One raised to any power is one.
proof fn lemma_pow_one(e: nat)
    ensures
        pow_nat(1, e) == 1,
    decreases e,
{
    if e > 0 {
        lemma_pow_one((e - 1) as nat);
    }
}

} // verus!
