use mumble_client::error::{ConnectionError, Error, SendError};
use mumble_client::session::{keepalive_step, KeepAliveAction, Stage, Startup, StartupAction};

fn connect_failure() -> Error {
    Error::from(ConnectionError::ExceededHandshakeRetries("x"))
}

fn send_failure() -> Error {
    Error::from(SendError::MessageTooLarge("x"))
}

#[test]
fn startup_runs_version_then_authenticate_then_installs() {
    let mut s = Startup::new();
    assert_eq!(s.stage(), Stage::Connecting);
    assert!(matches!(s.advance(Ok(())), StartupAction::SendVersion));
    assert_eq!(s.stage(), Stage::ExchangingVersion);
    assert!(matches!(s.advance(Ok(())), StartupAction::SendAuthenticate));
    assert_eq!(s.stage(), Stage::Authenticating);
    assert!(matches!(s.advance(Ok(())), StartupAction::Install));
    assert_eq!(s.stage(), Stage::Ready);
}

#[test]
fn startup_connect_failure_aborts() {
    let mut s = Startup::new();
    let a = s.advance(Err(connect_failure()));
    assert!(matches!(a, StartupAction::Abort(Error::ConnectionError(ConnectionError::ExceededHandshakeRetries(_)))));
    assert_eq!(s.stage(), Stage::Failed);
}

#[test]
fn startup_version_failure_skips_authenticate() {
    let mut s = Startup::new();
    assert!(matches!(s.advance(Ok(())), StartupAction::SendVersion));
    let a = s.advance(Err(send_failure()));
    assert!(matches!(a, StartupAction::Abort(Error::SendError(SendError::MessageTooLarge(_)))));
    assert_eq!(s.stage(), Stage::Failed);
}

#[test]
fn reconnect_authenticate_failure_installs_nothing() {
    let mut s = Startup::new();
    s.advance(Ok(()));
    s.advance(Ok(()));
    let a = s.advance(Err(send_failure()));
    assert!(matches!(a, StartupAction::Abort(_)));
    assert_eq!(s.stage(), Stage::Failed);
}

#[test]
fn keepalive_pings_while_session_lives() {
    assert_eq!(keepalive_step(true), KeepAliveAction::Ping);
}

#[test]
fn keepalive_stops_once_session_released() {
    assert_eq!(keepalive_step(false), KeepAliveAction::Stop);
}

#[test]
fn errors_convert_into_top_level_error() {
    assert!(matches!(connect_failure(), Error::ConnectionError(_)));
    assert!(matches!(send_failure(), Error::SendError(_)));
}
