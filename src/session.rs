use vstd::prelude::*;

use crate::error::Error;

verus! {

/// Seconds the keep-alive loop sleeps before each ping.
pub const PING_INTERVAL_SECS: u64 = 5;

/// Where a startup (or a reconnect) stands.
#[derive(Clone, Copy, Debug, PartialEq, Eq, Structural)]
pub enum Stage {
    /// Waiting for the TLS connection to open.
    Connecting,
    /// Waiting for the version message to be sent.
    ExchangingVersion,
    /// Waiting for the authenticate message to be sent.
    Authenticating,
    /// The new connection is installed.
    Ready,
    /// The sequence stopped on an error.
    Failed,
}

/// What the owner of a startup does next.
#[derive(Debug)]
pub enum StartupAction {
    /// Send the version message over the new connection.
    SendVersion,
    /// Send the authenticate message over the new connection.
    SendAuthenticate,
    /// Make the new connection the session's one (and, for a new session,
    /// start the keep-alive loop).
    Install,
    /// Give up; the new connection is discarded and nothing is installed.
    Abort(Error),
}

/// One step of the startup sequence: the stage reached and the action to take,
/// given the result of the work that `stage` was waiting for.
pub open spec fn startup_step(stage: Stage, result: Result<(), Error>) -> (Stage, StartupAction) {
    match result {
        Err(e) => (Stage::Failed, StartupAction::Abort(e)),
        Ok(()) => match stage {
            Stage::Connecting => (Stage::ExchangingVersion, StartupAction::SendVersion),
            Stage::ExchangingVersion => (Stage::Authenticating, StartupAction::SendAuthenticate),
            _ => (Stage::Ready, StartupAction::Install),
        },
    }
}

/// Whether a startup at `stage` still waits for a result.
pub open spec fn in_progress(stage: Stage) -> bool {
    stage is Connecting || stage is ExchangingVersion || stage is Authenticating
}

/// The actions a startup issues when the work it waits for reports `results`
/// in turn, from `stage` on, until it is ready, fails or the results run out.
pub open spec fn run_startup(stage: Stage, results: Seq<Result<(), Error>>) -> Seq<StartupAction>
    decreases results.len(),
{
    if !in_progress(stage) || results.len() == 0 {
        Seq::empty()
    } else {
        let (next, action) = startup_step(stage, results[0]);
        seq![action] + run_startup(next, results.drop_first())
    }
}

/// The actions of a startup in which nothing fails.
pub open spec fn nominal_actions() -> Seq<StartupAction> {
    seq![StartupAction::SendVersion, StartupAction::SendAuthenticate, StartupAction::Install]
}

/// The connect, version exchange, authenticate sequence that starts or
/// re-establishes a session; it stops at the first failure.
pub struct Startup {
    stage: Stage,
}

impl Startup {
    pub closed spec fn current(&self) -> Stage {
        self.stage
    }

    /// A sequence waiting for its connection to open.
    pub fn new() -> (r: Startup)
        ensures
            r.current() == Stage::Connecting,
    {
        Startup { stage: Stage::Connecting }
    }

    pub fn stage(&self) -> (r: Stage)
        ensures
            r == self.current(),
    {
        self.stage
    }

    /// Takes the result of the work the sequence waited for and says what to do next.
    pub fn advance(&mut self, result: Result<(), Error>) -> (action: StartupAction)
        requires
            in_progress(old(self).current()),
        ensures
            (final(self).current(), action) == startup_step(old(self).current(), result),
    {
        match result {
            Err(e) => {
                self.stage = Stage::Failed;
                StartupAction::Abort(e)
            },
            Ok(()) => match self.stage {
                Stage::Connecting => {
                    self.stage = Stage::ExchangingVersion;
                    StartupAction::SendVersion
                },
                Stage::ExchangingVersion => {
                    self.stage = Stage::Authenticating;
                    StartupAction::SendAuthenticate
                },
                _ => {
                    self.stage = Stage::Ready;
                    StartupAction::Install
                },
            },
        }
    }
}

/// A startup issues the version exchange, then authentication, then installs
/// the connection, in that order, and stops at the first failure with one
/// abort: authentication is never asked for after a failed version exchange,
/// and the connection is installed (and the keep-alive started) only once
/// connect, version exchange and authentication have all succeeded.
pub proof fn lemma_startup_order(results: Seq<Result<(), Error>>)
    ensures
        ({
            let acts = run_startup(Stage::Connecting, results);
            &&& acts.len() <= 3
            &&& acts.len() <= results.len()
            &&& (acts.len() < 3 && acts.len() < results.len()) ==> (acts.len() > 0 && results[acts.len() - 1] is Err)
            &&& forall|i: int| 0 <= i < acts.len() ==> (#[trigger] acts[i] is Abort <==> results[i] is Err)
            &&& forall|i: int| 0 <= i < acts.len() && results[i] is Ok ==> #[trigger] acts[i] == nominal_actions()[i]
            &&& forall|i: int| 0 <= i < acts.len() - 1 ==> #[trigger] results[i] is Ok
            &&& (exists|i: int| 0 <= i < acts.len() && #[trigger] acts[i] is Install) <==> (results.len() >= 3
                && results[0] is Ok && results[1] is Ok && results[2] is Ok)
            &&& (results.len() >= 2 && results[1] is Err) ==> forall|i: int|
                0 <= i < acts.len() ==> !(#[trigger] acts[i] is SendAuthenticate)
        }),
{
    let acts = run_startup(Stage::Connecting, results);
    assert(nominal_actions()[0] == StartupAction::SendVersion);
    assert(nominal_actions()[1] == StartupAction::SendAuthenticate);
    assert(nominal_actions()[2] == StartupAction::Install);
    if results.len() > 0 {
        let r1 = results.drop_first();
        assert(run_startup(Stage::Failed, r1) =~= Seq::empty());
        if results[0] is Ok {
            if r1.len() > 0 {
                let r2 = r1.drop_first();
                assert(run_startup(Stage::Failed, r2) =~= Seq::empty());
                assert(acts == seq![StartupAction::SendVersion] + run_startup(Stage::ExchangingVersion, r1));
                if r1[0] is Ok {
                    assert(run_startup(Stage::ExchangingVersion, r1)
                        == seq![StartupAction::SendAuthenticate] + run_startup(Stage::Authenticating, r2));
                    if r2.len() > 0 {
                        let r3 = r2.drop_first();
                        assert(run_startup(Stage::Ready, r3) =~= Seq::empty());
                        assert(run_startup(Stage::Failed, r3) =~= Seq::empty());
                        assert(acts =~= seq![StartupAction::SendVersion, StartupAction::SendAuthenticate, startup_step(Stage::Authenticating, r2[0]).1]);
                    } else {
                        assert(acts =~= seq![StartupAction::SendVersion, StartupAction::SendAuthenticate]);
                    }
                } else {
                    assert(acts =~= seq![StartupAction::SendVersion, startup_step(Stage::ExchangingVersion, r1[0]).1]);
                }
            } else {
                assert(acts =~= seq![StartupAction::SendVersion]);
            }
        } else {
            assert(acts =~= seq![startup_step(Stage::Connecting, results[0]).1]);
        }
    } else {
        assert(acts =~= Seq::empty());
    }
}

/// What the keep-alive loop does when it wakes.
#[derive(Clone, Copy, Debug, PartialEq, Eq, Structural)]
pub enum KeepAliveAction {
    /// Send one ping, ignore its result and sleep again.
    Ping,
    /// The session is gone: leave the loop without sending anything.
    Stop,
}

/// The keep-alive decision on waking: ping only while the session can still be
/// reached, stop for good as soon as it cannot.
pub fn keepalive_step(session_alive: bool) -> (r: KeepAliveAction)
    ensures
        r == (if session_alive { KeepAliveAction::Ping } else { KeepAliveAction::Stop }),
{
    if session_alive {
        KeepAliveAction::Ping
    } else {
        KeepAliveAction::Stop
    }
}

} // verus!
