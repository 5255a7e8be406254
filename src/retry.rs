use vstd::prelude::*;

verus! {

/// The most attempts made for one request.
pub const MAX_ATTEMPTS: u32 = 5;

/// The wait before the second attempt, in milliseconds; it doubles after
/// each further attempt.
pub const INITIAL_BACKOFF_MS: u64 = 1000;

/// What one attempt at a request came to.
#[derive(Debug, Clone, Copy, PartialEq, Eq, Structural)]
pub enum Outcome {
    /// A response arrived with this HTTP status code.
    Response(u16),
    /// No response: DNS, connection, TLS or timeout failure.
    TransportError,
}

/// What to do after an attempt.
#[derive(Debug, Clone, Copy, PartialEq, Eq, Structural)]
pub enum RetryStep {
    /// Hand the outcome of the last attempt to the caller.
    Stop,
    /// Wait this many milliseconds, then try again.
    Retry { delay_ms: u64 },
}

/// Outcomes worth another attempt: transport failures, `429 Too Many
/// Requests` and every `5xx` status.
pub open spec fn is_transient(o: Outcome) -> bool {
    match o {
        Outcome::Response(status) => status == 429 || (500 <= status && status <= 599),
        Outcome::TransportError => true,
    }
}

/// The wait after attempt number `attempt` (counted from zero).
pub open spec fn backoff_ms(attempt: nat) -> nat
    decreases attempt,
{
    if attempt == 0 {
        INITIAL_BACKOFF_MS as nat
    } else {
        2 * backoff_ms((attempt - 1) as nat)
    }
}

/// The step that follows attempt number `attempt` (counted from zero).
pub open spec fn step_after(attempt: nat, o: Outcome) -> RetryStep {
    if is_transient(o) && attempt + 1 < MAX_ATTEMPTS {
        RetryStep::Retry { delay_ms: backoff_ms(attempt) as u64 }
    } else {
        RetryStep::Stop
    }
}

fn transient(o: Outcome) -> (r: bool)
    ensures
        r == is_transient(o),
{
    match o {
        Outcome::Response(status) => status == 429 || (500 <= status && status <= 599),
        Outcome::TransportError => true,
    }
}

/// Decides, after attempt number `attempt` (counted from zero) ended in
/// `outcome`, whether to try again and after how long.
pub fn next_step(attempt: u32, outcome: Outcome) -> (r: RetryStep)
    ensures
        r == step_after(attempt as nat, outcome),
{
    if transient(outcome) && attempt < MAX_ATTEMPTS - 1 {
        let mut delay: u64 = INITIAL_BACKOFF_MS;
        let mut k: u32 = 0;
        while k < attempt
            invariant
                k <= attempt < MAX_ATTEMPTS - 1,
                delay as nat == backoff_ms(k as nat),
            decreases attempt - k,
        {
            proof {
                reveal_with_fuel(backoff_ms, 4);
            }
            delay = delay * 2;
            k = k + 1;
        }
        RetryStep::Retry { delay_ms: delay }
    } else {
        RetryStep::Stop
    }
}

} // verus!
