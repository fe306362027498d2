use openssl::ssl::Error as SslError;
use vstd::prelude::*;

verus! {

#[verifier::external_type_specification]
#[verifier::external_body]
/// The error of a TLS setup, handshake or encrypted write, carried unread.
pub struct ExSslError(SslError);

#[verifier::external_type_specification]
#[verifier::external_body]
/// The error of opening a TCP stream, carried unread.
pub struct ExIoError(std::io::Error);

} // verus!
