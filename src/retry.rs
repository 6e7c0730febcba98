//! The retry policy for idempotent network operations: which failures are
//! retried, how long to wait, and when to stop.
use vstd::prelude::*;
use crate::error::{Error, RpcCode};

verus! {

/// First delay before a retry, in milliseconds.
pub const INITIAL_DELAY_MS: u64 = 1_000;

/// Longest delay before a retry, in milliseconds.
pub const MAX_DELAY_MS: u64 = 60_000;

/// How an attempt failed.
#[derive(Clone, Copy, Debug, PartialEq, Eq, Structural)]
pub enum Failure {
    /// The connection to the daemon failed.
    Transport,
    /// The daemon answered with this status code.
    Status(RpcCode),
    /// Anything else (malformed input, a local error).
    Other,
}

/// Transport errors and the codes Unavailable, DeadlineExceeded, Internal and
/// ResourceExhausted are transient; everything else is permanent.
pub open spec fn transient(f: Failure) -> bool {
    match f {
        Failure::Transport => true,
        Failure::Status(c) => c == RpcCode::Unavailable || c == RpcCode::DeadlineExceeded || c
            == RpcCode::Internal || c == RpcCode::ResourceExhausted,
        Failure::Other => false,
    }
}

pub fn is_transient(f: Failure) -> (r: bool)
    ensures
        r == transient(f),
{
    match f {
        Failure::Transport => true,
        Failure::Status(c) => match c {
            RpcCode::Unavailable | RpcCode::DeadlineExceeded | RpcCode::Internal
            | RpcCode::ResourceExhausted => true,
            _ => false,
        },
        Failure::Other => false,
    }
}

pub open spec fn pow2(n: nat) -> int
    decreases n,
{
    if n == 0 {
        1
    } else {
        2 * pow2((n - 1) as nat)
    }
}

/// The delay before retry number `failures` (counted from 1): one second doubled
/// after each failure, plus `jitter` milliseconds, at most one minute.
pub open spec fn backoff_ms(failures: nat, jitter: int) -> int {
    let base = INITIAL_DELAY_MS * pow2((failures - 1) as nat) + jitter;
    if base < MAX_DELAY_MS {
        base
    } else {
        MAX_DELAY_MS as int
    }
}

proof fn lemma_pow2_grows(n: nat)
    requires
        n >= 6,
    ensures
        pow2(n) >= 64,
    decreases n,
{
    if n > 6 {
        lemma_pow2_grows((n - 1) as nat);
    } else {
        reveal_with_fuel(pow2, 7);
    }
}

/// The delay before retry number `failures` (at least 1), with `jitter_ms` added.
pub fn backoff_delay_ms(failures: u32, jitter_ms: u64) -> (r: u64)
    requires
        failures >= 1,
    ensures
        r == backoff_ms(failures as nat, jitter_ms as int),
{
    if failures > 6 {
        proof {
            lemma_pow2_grows((failures - 1) as nat);
        }
        return MAX_DELAY_MS;
    }
    let d: u64 = if failures == 1 {
        INITIAL_DELAY_MS
    } else if failures == 2 {
        2 * INITIAL_DELAY_MS
    } else if failures == 3 {
        4 * INITIAL_DELAY_MS
    } else if failures == 4 {
        8 * INITIAL_DELAY_MS
    } else if failures == 5 {
        16 * INITIAL_DELAY_MS
    } else {
        32 * INITIAL_DELAY_MS
    };
    proof {
        reveal_with_fuel(pow2, 6);
    }
    if jitter_ms >= MAX_DELAY_MS || d + jitter_ms >= MAX_DELAY_MS {
        MAX_DELAY_MS
    } else {
        d + jitter_ms
    }
}

/// What the retry loop does after a failed attempt.
#[derive(Clone, Copy, Debug, PartialEq, Eq, Structural)]
pub enum RetryDecision {
    /// Wait this many milliseconds, then try again; this was failure number `failures`.
    Sleep { delay_ms: u64, failures: u32 },
    /// Give up and hand the failure to the caller.
    Surface,
    /// Stop: the operation was cancelled.
    Cancelled,
}

/// The failures counted so far by one retried operation.
#[derive(Clone, Copy, Debug, PartialEq, Eq, Structural)]
pub struct RetryState {
    pub failures: u32,
}

impl RetryState {
    pub fn new() -> (s: RetryState)
        ensures
            s.failures == 0,
    {
        RetryState { failures: 0 }
    }

    /// Whether to make the next attempt: never once cancellation was signalled.
    pub fn may_attempt(&self, cancelled: bool) -> (r: bool)
        ensures
            r == !cancelled,
    {
        !cancelled
    }

    /// Decides what follows a failed attempt. Cancellation wins without any sleep;
    /// a permanent failure surfaces; a transient one is counted and waited out.
    pub fn on_failure(&mut self, f: Failure, cancelled: bool, jitter_ms: u64) -> (d:
        RetryDecision)
        ensures
            cancelled ==> d == RetryDecision::Cancelled && final(self).failures == old(self).failures,
            !cancelled && !transient(f) ==> d == RetryDecision::Surface && final(self).failures
                == old(self).failures,
            !cancelled && transient(f) ==> {
                let n = if old(self).failures < u32::MAX {
                    old(self).failures + 1
                } else {
                    u32::MAX as int
                };
                &&& final(self).failures == n
                &&& d == RetryDecision::Sleep {
                    delay_ms: backoff_ms(n as nat, jitter_ms as int) as u64,
                    failures: n as u32,
                }
            },
    {
        if cancelled {
            return RetryDecision::Cancelled;
        }
        if !is_transient(f) {
            return RetryDecision::Surface;
        }
        self.failures = self.failures.saturating_add(1);
        RetryDecision::Sleep {
            delay_ms: backoff_delay_ms(self.failures, jitter_ms),
            failures: self.failures,
        }
    }
}

/// The error that a failed operation surfaces as.
pub fn failure_error(f: Failure, message: String) -> (e: Error)
    ensures
        f == Failure::Transport ==> e == Error::Transport(message),
        f is Status ==> (e == Error::RpcStatus { code: f->Status_0, message }),
        f == Failure::Other ==> (e == Error::Internal(message)),
{
    match f {
        Failure::Transport => Error::Transport(message),
        Failure::Status(code) => Error::RpcStatus { code, message },
        Failure::Other => Error::Internal(message),
    }
}

} // verus!
