//! The retry policy for requests to `webtoons.com`: resend on failure or on `429`.
use vstd::prelude::*;

verus! {

/// The default `User-Agent` header value, `{crate_name}/{crate_version}`.
pub const DEFAULT_USER_AGENT: &'static str = "webtoon/0.9.0";

/// How many times a request is resent before the last outcome is returned.
pub const MAX_RETRIES: u32 = 10;

/// What one attempt at sending a request gave.
#[derive(Debug, Clone, Copy, PartialEq, Eq, Structural)]
pub enum Attempt {
    /// The request could not be sent or no response came back.
    Failed,
    /// A response came back with this HTTP status code.
    Responded(u16),
}

/// What to do after an attempt.
#[derive(Debug, Clone, Copy, PartialEq, Eq, Structural)]
pub enum Next {
    /// Hand the attempt's outcome to the caller.
    Finish,
    /// Wait this many seconds, then send the request again.
    RetryAfter(u64),
}

/// The state of a request being retried.
#[derive(Debug, Clone, Copy)]
pub struct Retry {
    /// Resends left.
    pub tries: u32,
    /// Seconds to wait before the next resend.
    pub wait: u64,
}

impl Retry {
    /// Bound on the wait that the policy keeps: it starts at most 5 seconds and grows by at
    /// most 8 seconds per resend.
    pub open spec fn wf(&self) -> bool {
        &&& self.tries <= MAX_RETRIES
        &&& 1 <= self.wait <= 5 + 8 * (MAX_RETRIES - self.tries)
    }

    /// `true` if this attempt is to be resent: it failed or was rate limited, and resends are left.
    pub open spec fn should_retry(&self, attempt: Attempt) -> bool {
        self.tries > 0 && match attempt {
            Attempt::Failed => true,
            Attempt::Responded(status) => status == 429,
        }
    }

    /// A fresh policy; `jitter` is a random number of seconds in `1..=5`.
    pub fn new(jitter: u64) -> (r: Self)
        requires
            1 <= jitter <= 5,
        ensures
            r.wf(),
            r.tries == MAX_RETRIES,
            r.wait == jitter,
    {
        Retry { tries: MAX_RETRIES, wait: jitter }
    }

    /// Decides what follows `attempt`; `jitter` is a random number of seconds in `1..=5`.
    ///
    /// A failed or rate-limited attempt is resent while resends are left, after the current
    /// wait; each resend uses one try and lengthens the wait by `3 + jitter` seconds. Any
    /// other outcome, or any outcome once the tries are used up, is handed back.
    pub fn next(&mut self, attempt: Attempt, jitter: u64) -> (n: Next)
        requires
            old(self).wf(),
            1 <= jitter <= 5,
        ensures
            final(self).wf(),
            old(self).should_retry(attempt) ==> n == Next::RetryAfter(old(self).wait)
                && final(self).tries == old(self).tries - 1 && final(self).wait == old(self).wait + 3
                + jitter,
            !old(self).should_retry(attempt) ==> n == Next::Finish && *final(self) == *old(self),
    {
        let retry = self.tries > 0 && match attempt {
            Attempt::Failed => true,
            Attempt::Responded(status) => status == 429,
        };
        if retry {
            let wait = self.wait;
            self.tries = self.tries - 1;
            self.wait = self.wait + 3 + jitter;
            Next::RetryAfter(wait)
        } else {
            Next::Finish
        }
    }
}

/// However the attempts go, a request is resent at most [`MAX_RETRIES`] times: every resend
/// uses up one try, and with no tries left every outcome is handed back.
pub proof fn lemma_retry_bounded(r: Retry, attempt: Attempt)
    requires
        r.wf(),
        r.tries == 0,
    ensures
        !r.should_retry(attempt),
{
}

} // verus!
