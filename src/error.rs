use vstd::prelude::*;

verus! {

/// Why a connection to the server could not be established.
#[derive(Debug)]
pub enum ConnectionError {
    /// Every allowed handshake attempt was interrupted.
    ExceededHandshakeRetries(&'static str),
    /// TLS setup or the handshake itself failed.
    Ssl(openssl::ssl::Error),
    /// The TCP stream could not be opened.
    TcpStream(std::io::Error),
}

/// Why a control message could not be sent.
#[derive(Debug)]
pub enum SendError {
    /// The payload does not fit the frame's 32-bit length field.
    MessageTooLarge(&'static str),
    /// The encrypted write failed.
    Ssl(openssl::ssl::Error),
}

/// Any failure of session startup or reconnection.
#[derive(Debug)]
pub enum Error {
    ConnectionError(ConnectionError),
    SendError(SendError),
}

impl From<ConnectionError> for Error {
    fn from(e: ConnectionError) -> (r: Error)
        ensures
            r == Error::ConnectionError(e),
    {
        Error::ConnectionError(e)
    }
}

impl vstd::std_specs::convert::FromSpecImpl<ConnectionError> for Error {
    open spec fn obeys_from_spec() -> bool {
        true
    }

    open spec fn from_spec(e: ConnectionError) -> Error {
        Error::ConnectionError(e)
    }
}

impl From<SendError> for Error {
    fn from(e: SendError) -> (r: Error)
        ensures
            r == Error::SendError(e),
    {
        Error::SendError(e)
    }
}

impl vstd::std_specs::convert::FromSpecImpl<SendError> for Error {
    open spec fn obeys_from_spec() -> bool {
        true
    }

    open spec fn from_spec(e: SendError) -> Error {
        Error::SendError(e)
    }
}

} // verus!
