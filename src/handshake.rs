use vstd::prelude::*;

use crate::error::ConnectionError;

verus! {

/// The most handshake attempts made for one connection, the first included.
pub const SSL_HANDSHAKE_RETRIES: u8 = 3;

/// Detail carried by `ConnectionError::ExceededHandshakeRetries`.
pub const RETRIES_EXCEEDED: &'static str = "Exceeded number of handshake retries";

/// What one TLS handshake attempt reported.
#[derive(Debug)]
pub enum HandshakeOutcome {
    /// The handshake finished; the stream is encrypted.
    Completed,
    /// The transport would block; the same in-progress handshake may be resumed.
    Interrupted,
    /// A hard failure (protocol or certificate): never retried.
    Failed(openssl::ssl::Error),
}

/// What the connection should do after an attempt.
#[derive(Debug)]
pub enum HandshakeStep {
    /// Use the encrypted stream.
    Finish,
    /// Resume the in-progress handshake once more.
    Retry,
    /// Give up with this error.
    Abort(ConnectionError),
}

/// The decision after attempt number `made` reported `outcome`.
pub open spec fn step_after(made: nat, outcome: HandshakeOutcome) -> HandshakeStep {
    match outcome {
        HandshakeOutcome::Completed => HandshakeStep::Finish,
        HandshakeOutcome::Failed(e) => HandshakeStep::Abort(ConnectionError::Ssl(e)),
        HandshakeOutcome::Interrupted => if made < SSL_HANDSHAKE_RETRIES {
            HandshakeStep::Retry
        } else {
            HandshakeStep::Abort(ConnectionError::ExceededHandshakeRetries(RETRIES_EXCEEDED))
        },
    }
}

/// Runs the policy against attempts that report `outcomes` in turn, `made`
/// attempts having been made already. Gives the number of attempts made in all
/// and the last decision; `Retry` means that the outcomes ran out.
pub open spec fn run_handshake(made: nat, outcomes: Seq<HandshakeOutcome>) -> (nat, HandshakeStep)
    decreases outcomes.len(),
{
    if outcomes.len() == 0 {
        (made, HandshakeStep::Retry)
    } else {
        let step = step_after(made + 1, outcomes[0]);
        if step is Retry {
            run_handshake(made + 1, outcomes.drop_first())
        } else {
            (made + 1, step)
        }
    }
}

/// `k` interrupted attempts followed by one that completes.
pub open spec fn interrupted_then_completed(k: nat) -> Seq<HandshakeOutcome> {
    Seq::new(k, |i: int| HandshakeOutcome::Interrupted).push(HandshakeOutcome::Completed)
}

/// Bounded retry of an interrupted TLS handshake.
pub struct HandshakeRetry {
    attempts: u8,
}

impl HandshakeRetry {
    /// How many attempts have been recorded.
    pub closed spec fn attempts_made(&self) -> nat {
        self.attempts as nat
    }

    /// No attempt recorded yet.
    pub fn new() -> (r: HandshakeRetry)
        ensures
            r.attempts_made() == 0,
    {
        HandshakeRetry { attempts: 0 }
    }

    /// How many attempts have been recorded.
    pub fn attempts(&self) -> (r: u8)
        ensures
            r as nat == self.attempts_made(),
    {
        self.attempts
    }

    /// Records the outcome of one more attempt and decides what comes next.
    /// Only allowed while a further attempt is within the bound, which holds
    /// at the start and after every `Retry`.
    pub fn record(&mut self, outcome: HandshakeOutcome) -> (step: HandshakeStep)
        requires
            old(self).attempts_made() < SSL_HANDSHAKE_RETRIES,
        ensures
            final(self).attempts_made() == old(self).attempts_made() + 1,
            step == step_after(final(self).attempts_made(), outcome),
            step is Retry ==> final(self).attempts_made() < SSL_HANDSHAKE_RETRIES,
    {
        self.attempts = self.attempts + 1;
        match outcome {
            HandshakeOutcome::Completed => HandshakeStep::Finish,
            HandshakeOutcome::Failed(e) => HandshakeStep::Abort(ConnectionError::Ssl(e)),
            HandshakeOutcome::Interrupted => {
                if self.attempts < SSL_HANDSHAKE_RETRIES {
                    HandshakeStep::Retry
                } else {
                    HandshakeStep::Abort(ConnectionError::ExceededHandshakeRetries(RETRIES_EXCEEDED))
                }
            },
        }
    }
}

proof fn lemma_run_from(made: nat, k: nat)
    requires
        made < SSL_HANDSHAKE_RETRIES,
    ensures
        run_handshake(made, interrupted_then_completed(k)) == (if made + k < SSL_HANDSHAKE_RETRIES {
            (made + k + 1, HandshakeStep::Finish)
        } else {
            (
                SSL_HANDSHAKE_RETRIES as nat,
                HandshakeStep::Abort(ConnectionError::ExceededHandshakeRetries(RETRIES_EXCEEDED)),
            )
        }),
    decreases k,
{
    let s = interrupted_then_completed(k);
    if k > 0 {
        assert(s[0] == HandshakeOutcome::Interrupted);
        assert(s.drop_first() =~= interrupted_then_completed((k - 1) as nat));
        if made + 1 < SSL_HANDSHAKE_RETRIES {
            lemma_run_from(made + 1, (k - 1) as nat);
        }
    } else {
        assert(s[0] == HandshakeOutcome::Completed);
    }
}

/// Against a transport that is interrupted exactly `k` times before the
/// handshake completes, connecting succeeds exactly when `k` is below the bound,
/// after `min(k + 1, bound)` attempts; otherwise it fails for exceeded retries.
pub proof fn lemma_retry_count(k: nat)
    ensures
        run_handshake(0, interrupted_then_completed(k)).0 == if k + 1 < SSL_HANDSHAKE_RETRIES {
            k + 1
        } else {
            SSL_HANDSHAKE_RETRIES as nat
        },
        run_handshake(0, interrupted_then_completed(k)).1 is Finish <==> k < SSL_HANDSHAKE_RETRIES,
        k >= SSL_HANDSHAKE_RETRIES ==> run_handshake(0, interrupted_then_completed(k)).1
            matches HandshakeStep::Abort(ConnectionError::ExceededHandshakeRetries(_)),
{
    lemma_run_from(0, k);
}

proof fn lemma_always_interrupted_from(made: nat, n: nat)
    requires
        made < SSL_HANDSHAKE_RETRIES,
        made + n >= SSL_HANDSHAKE_RETRIES,
    ensures
        run_handshake(made, Seq::new(n, |i: int| HandshakeOutcome::Interrupted)) == (
            SSL_HANDSHAKE_RETRIES as nat,
            HandshakeStep::Abort(ConnectionError::ExceededHandshakeRetries(RETRIES_EXCEEDED)),
        ),
    decreases n,
{
    let s = Seq::new(n, |i: int| HandshakeOutcome::Interrupted);
    assert(s[0] == HandshakeOutcome::Interrupted);
    assert(s.drop_first() =~= Seq::new((n - 1) as nat, |i: int| HandshakeOutcome::Interrupted));
    if made + 1 < SSL_HANDSHAKE_RETRIES {
        lemma_always_interrupted_from(made + 1, (n - 1) as nat);
    }
}

/// Against a transport that is always interrupted, connecting fails for
/// exceeded retries after exactly the bound of attempts, however many more
/// interruptions the transport would report.
pub proof fn lemma_retries_exhausted(n: nat)
    requires
        n >= SSL_HANDSHAKE_RETRIES,
    ensures
        run_handshake(0, Seq::new(n, |i: int| HandshakeOutcome::Interrupted)) == (
            SSL_HANDSHAKE_RETRIES as nat,
            HandshakeStep::Abort(ConnectionError::ExceededHandshakeRetries(RETRIES_EXCEEDED)),
        ),
{
    lemma_always_interrupted_from(0, n);
}

} // verus!
