//! The retry policy of one-shot request/response calls.
//!
//! The executor holds the decisions; the caller performs the network attempt
//! and the waits, and hands each attempt's outcome back.

use vstd::prelude::*;

use crate::network::protocol::{validation_result, Message};
use crate::network::wire::{is_message_encoding, message_bytes, message_fits};
use crate::network::NetworkError;

verus! {

/// Longest single wait between attempts, in seconds. Waits double from two
/// seconds up to this bound.
pub const MAX_BACKOFF_SECS: u64 = 1024;

/// The class of an HTTP-like status code.
#[derive(Clone, Copy, Debug, PartialEq, Eq, Structural)]
pub enum StatusClass {
    /// 200 to 299.
    Success,
    /// 400 to 499: refused, not retried.
    ClientError,
    /// 500 to 599: transient, retried.
    ServerError,
    /// Any other code: an unrecognised response, not retried.
    Unrecognized,
}

/// What one network attempt came to.
#[derive(Clone, Debug)]
pub enum AttemptOutcome {
    /// The server answered with `status` and `body`.
    Response { status: u16, body: Vec<u8> },
    /// The transport failed (connection refused, reset, ...).
    TransportFailure(String),
}

/// What the caller does next.
#[derive(Debug)]
pub enum ExecutorStep {
    /// Wait `wait_secs` seconds, then make another attempt.
    Retry { wait_secs: u64 },
    /// The call is over with this result.
    Done(Result<Vec<u8>, NetworkError>),
}

pub open spec fn status_class(status: u16) -> StatusClass {
    if 200 <= status && status <= 299 {
        StatusClass::Success
    } else if 400 <= status && status <= 499 {
        StatusClass::ClientError
    } else if 500 <= status && status <= 599 {
        StatusClass::ServerError
    } else {
        StatusClass::Unrecognized
    }
}

pub open spec fn pow2(n: nat) -> nat
    decreases n,
{
    if n == 0 {
        1
    } else {
        2 * pow2((n - 1) as nat)
    }
}

/// The wait before retry number `retry` (counted from one): `2^retry` seconds,
/// at most [`MAX_BACKOFF_SECS`].
pub open spec fn backoff(retry: nat) -> u64 {
    if pow2(retry) < MAX_BACKOFF_SECS {
        pow2(retry) as u64
    } else {
        MAX_BACKOFF_SECS
    }
}

/// The wait before the next attempt when `retries` retries were made so far, or
/// `None` when the retry budget is spent.
pub open spec fn retry_wait(retries: u32, max_retries: u32) -> Option<u64> {
    if retries < max_retries {
        Some(backoff((retries + 1) as nat))
    } else {
        None
    }
}

/// A successful response body is accepted when it is not a framed message, or
/// when it is one that validates at `now`.
pub open spec fn body_acceptable(body: Seq<u8>, now: u64) -> bool {
    is_message_encoding(body) ==> forall|m|
        message_fits(m) && message_bytes(m) == body ==> #[trigger] validation_result(m, now)
            is Ok
}

/// Classifies a status code.
pub fn classify_status(status: u16) -> (r: StatusClass)
    ensures
        r == status_class(status),
{
    if 200 <= status && status <= 299 {
        StatusClass::Success
    } else if 400 <= status && status <= 499 {
        StatusClass::ClientError
    } else if 500 <= status && status <= 599 {
        StatusClass::ServerError
    } else {
        StatusClass::Unrecognized
    }
}

/// The wait before retry number `retry` (counted from one).
pub fn backoff_secs(retry: u32) -> (r: u64)
    ensures
        r == backoff(retry as nat),
{
    let mut wait: u64 = 1;
    let mut i: u32 = 0;
    while i < retry && wait < MAX_BACKOFF_SECS
        invariant
            i <= retry,
            wait == pow2(i as nat),
            wait <= 2 * MAX_BACKOFF_SECS,
        decreases retry - i,
    {
        wait = wait * 2;
        i = i + 1;
    }
    proof {
        lemma_pow2_monotone(i as nat, retry as nat);
    }
    if wait < MAX_BACKOFF_SECS {
        wait
    } else {
        MAX_BACKOFF_SECS
    }
}

proof fn lemma_pow2_monotone(a: nat, b: nat)
    requires
        a <= b,
    ensures
        pow2(a) <= pow2(b),
    decreases b,
{
    if a < b {
        lemma_pow2_monotone(a, (b - 1) as nat);
    }
}

/// The state of one call: how many retries it has made, and how many it may make.
pub struct RequestExecutor {
    max_retries: u32,
    retries: u32,
}

impl RequestExecutor {
    /// The retry budget of the call.
    pub closed spec fn budget(&self) -> u32 {
        self.max_retries
    }

    /// Retries made so far.
    pub closed spec fn retries_made(&self) -> u32 {
        self.retries
    }

    /// A call that may retry `max_retries` times after its first attempt.
    pub fn new(max_retries: u32) -> (r: RequestExecutor)
        ensures
            r.budget() == max_retries,
            r.retries_made() == 0,
    {
        RequestExecutor { max_retries, retries: 0 }
    }

    /// Attempts made so far, counting the one in progress.
    pub fn attempts(&self) -> (r: u64)
        ensures
            r == self.retries_made() + 1,
    {
        self.retries as u64 + 1
    }

    /// Decides what follows an attempt, given its outcome and the current time
    /// (seconds since the Unix epoch) for validating a framed reply.
    ///
    /// A success returns the body, unless it is a framed message that fails
    /// validation. A client error is an authentication failure and an
    /// unrecognised status an invalid response, neither retried. A server error
    /// or a transport failure is retried after the backoff while the budget
    /// lasts, and is a connection failure once it is spent.
    pub fn on_attempt(&mut self, outcome: AttemptOutcome, now: u64) -> (r: ExecutorStep)
        requires
            old(self).retries_made() <= old(self).budget(),
        ensures
            final(self).budget() == old(self).budget(),
            final(self).retries_made() <= final(self).budget(),
            match outcome {
                AttemptOutcome::Response { status, body } => match status_class(status) {
                    StatusClass::Success => final(self).retries_made() == old(self).retries_made()
                        && if body_acceptable(body@, now) {
                        r == ExecutorStep::Done(Ok(body))
                    } else {
                        r matches ExecutorStep::Done(Err(NetworkError::ProtocolError(_)))
                    },
                    StatusClass::ClientError => final(self).retries_made()
                        == old(self).retries_made() && r matches ExecutorStep::Done(
                        Err(NetworkError::AuthenticationFailed(_)),
                    ),
                    StatusClass::Unrecognized => final(self).retries_made()
                        == old(self).retries_made() && r matches ExecutorStep::Done(
                        Err(NetworkError::InvalidResponse(_)),
                    ),
                    StatusClass::ServerError => transient_step(*old(self), *final(self), r),
                },
                AttemptOutcome::TransportFailure(_) => transient_step(*old(self), *final(self), r),
            },
    {
        match outcome {
            AttemptOutcome::Response { status, body } => {
                let class = classify_status(status);
                match class {
                    StatusClass::Success => match Message::deserialize(body.as_slice()) {
                        Ok(m) => match m.validate_at(now) {
                            Ok(()) => {
                                proof {
                                    crate::network::wire::lemma_round_trip(m@);
                                }
                                ExecutorStep::Done(Ok(body))
                            },
                            Err(e) => {
                                proof {
                                    assert(!body_acceptable(body@, now));
                                }
                                ExecutorStep::Done(Err(e))
                            },
                        },
                        Err(_) => ExecutorStep::Done(Ok(body)),
                    },
                    StatusClass::ClientError => ExecutorStep::Done(
                        Err(NetworkError::AuthenticationFailed("request refused by server".to_owned())),
                    ),
                    StatusClass::Unrecognized => ExecutorStep::Done(
                        Err(NetworkError::InvalidResponse("unknown response status".to_owned())),
                    ),
                    StatusClass::ServerError => self.transient("server error".to_owned()),
                }
            },
            AttemptOutcome::TransportFailure(reason) => self.transient(reason),
        }
    }

    fn transient(&mut self, reason: String) -> (r: ExecutorStep)
        requires
            old(self).retries_made() <= old(self).budget(),
        ensures
            transient_step(*old(self), *final(self), r),
            final(self).budget() == old(self).budget(),
            final(self).retries_made() <= final(self).budget(),
    {
        if self.retries < self.max_retries {
            self.retries = self.retries + 1;
            ExecutorStep::Retry { wait_secs: backoff_secs(self.retries) }
        } else {
            ExecutorStep::Done(Err(NetworkError::ConnectionFailed(reason)))
        }
    }
}

/// The step after a transient failure: a retry after the backoff while the
/// budget lasts, a connection failure once it is spent.
pub open spec fn transient_step(before: RequestExecutor, after: RequestExecutor, r: ExecutorStep) -> bool {
    match retry_wait(before.retries_made(), before.budget()) {
        Some(w) => r == (ExecutorStep::Retry { wait_secs: w }) && after.retries_made()
            == before.retries_made() + 1,
        None => after.retries_made() == before.retries_made() && r matches ExecutorStep::Done(
            Err(NetworkError::ConnectionFailed(_)),
        ),
    }
}

/// The backoff schedule: retry `k` waits `2^k` seconds up to the bound, at most
/// `max_retries` retries are made, and a call whose first two attempts fail
/// transiently waits two, then four seconds before its third attempt.
pub proof fn lemma_backoff_schedule(max_retries: u32, k: u32)
    ensures
        k < max_retries ==> retry_wait(k, max_retries) == Some(backoff((k + 1) as nat)),
        retry_wait(max_retries, max_retries) is None,
        max_retries >= 2 ==> retry_wait(0, max_retries) == Some(2u64) && retry_wait(
            1,
            max_retries,
        ) == Some(4u64),
        backoff((k + 1) as nat) as int == if 2 * pow2(k as nat) < MAX_BACKOFF_SECS {
            2 * pow2(k as nat) as int
        } else {
            MAX_BACKOFF_SECS as int
        },
{
    reveal_with_fuel(pow2, 3);
}

} // verus!
