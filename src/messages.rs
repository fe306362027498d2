use vstd::prelude::*;

use crate::error::SendError;
use crate::fields::{
    bool_field, fits_string_field, put_bool_field, put_string_field, put_uint32_field,
    string_field, string_fits, uint32_field,
};
use crate::wire::{encode_frame, fits_length_field, frame_of};

verus! {

/// The major part of the protocol version this client speaks.
pub const VERSION_MAJOR: u16 = 1;

/// The minor part of the protocol version this client speaks.
pub const VERSION_MINOR: u8 = 3;

/// The patch part of the protocol version this client speaks.
pub const VERSION_PATCH: u8 = 0;

/// Operating system name announced in the version message.
pub const OS_NAME: &'static str = "DenialAdams OS";

/// Operating system version announced in the version message.
pub const OS_VERSION: &'static str = "1.3.3.7";

/// Field numbers of the `Version` message.
pub const VERSION_FIELD_VERSION: u32 = 1;
pub const VERSION_FIELD_RELEASE: u32 = 2;
pub const VERSION_FIELD_OS: u32 = 3;
pub const VERSION_FIELD_OS_VERSION: u32 = 4;

/// Field numbers of the `Authenticate` message.
pub const AUTHENTICATE_FIELD_USERNAME: u32 = 1;
pub const AUTHENTICATE_FIELD_PASSWORD: u32 = 2;
pub const AUTHENTICATE_FIELD_OPUS: u32 = 5;

/// The control messages this client sends, each with its fixed type on the wire.
#[derive(Clone, Copy, Debug, PartialEq, Eq, Structural)]
pub enum MessageId {
    Version,
    Authenticate,
    Ping,
}

impl MessageId {
    pub open spec fn wire_id(self) -> u16 {
        match self {
            MessageId::Version => 0,
            MessageId::Authenticate => 2,
            MessageId::Ping => 3,
        }
    }

    /// The message type written in the frame header.
    pub fn id(&self) -> (r: u16)
        ensures
            r == self.wire_id(),
    {
        match self {
            MessageId::Version => 0,
            MessageId::Authenticate => 2,
            MessageId::Ping => 3,
        }
    }
}

/// `major.minor.patch` packed into one word: `(major << 16) | (minor << 8) | patch`.
pub open spec fn packed_version(major: u16, minor: u8, patch: u8) -> u32 {
    (major as nat * 0x1_0000 + minor as nat * 0x100 + patch as nat) as u32
}

/// Packs a version into the word that the `Version` message carries.
pub fn pack_version(major: u16, minor: u8, patch: u8) -> (r: u32)
    ensures
        r == packed_version(major, minor, patch),
{
    let a = major as u32;
    let b = minor as u32;
    let c = patch as u32;
    let r = (a << 16u32) | (b << 8u32) | c;
    assert(((a << 16u32) | (b << 8u32) | c) == a * 0x1_0000 + b * 0x100 + c) by (bit_vector)
        requires
            a < 0x1_0000,
            b < 0x100,
            c < 0x100,
    ;
    r
}

/// The serialized `Version` message: packed version, release, OS name and OS version.
pub open spec fn version_payload(release: Seq<char>) -> Seq<u8> {
    uint32_field(VERSION_FIELD_VERSION, packed_version(VERSION_MAJOR, VERSION_MINOR, VERSION_PATCH))
        + string_field(VERSION_FIELD_RELEASE, release)
        + string_field(VERSION_FIELD_OS, OS_NAME@)
        + string_field(VERSION_FIELD_OS_VERSION, OS_VERSION@)
}

/// Whether the `Version` message with this release string can be framed.
pub open spec fn version_sendable(release: Seq<char>) -> bool {
    &&& fits_string_field(release)
    &&& fits_string_field(OS_NAME@)
    &&& fits_string_field(OS_VERSION@)
    &&& fits_length_field(version_payload(release))
}

/// The serialized `Authenticate` message: user name, password and the Opus capability flag.
pub open spec fn authenticate_payload(username: Seq<char>, password: Seq<char>) -> Seq<u8> {
    string_field(AUTHENTICATE_FIELD_USERNAME, username)
        + string_field(AUTHENTICATE_FIELD_PASSWORD, password)
        + bool_field(AUTHENTICATE_FIELD_OPUS, true)
}

/// Whether the `Authenticate` message with these credentials can be framed.
pub open spec fn authenticate_sendable(username: Seq<char>, password: Seq<char>) -> bool {
    &&& fits_string_field(username)
    &&& fits_string_field(password)
    &&& fits_length_field(authenticate_payload(username, password))
}

/// The frame that announces this client's version, with `release` naming the client build.
pub fn version_exchange_frame(release: &str) -> (r: Result<Vec<u8>, SendError>)
    ensures
        r is Ok <==> version_sendable(release@),
        r is Ok ==> r->Ok_0@ == frame_of(MessageId::Version.wire_id(), version_payload(release@)),
        r is Err ==> r matches Err(SendError::MessageTooLarge(_)),
{
    if !string_fits(release) || !string_fits(OS_NAME) || !string_fits(OS_VERSION) {
        return Err(SendError::MessageTooLarge("a version string exceeds the 32-bit length field"));
    }
    let mut payload: Vec<u8> = Vec::new();
    let version = pack_version(VERSION_MAJOR, VERSION_MINOR, VERSION_PATCH);
    put_uint32_field(&mut payload, VERSION_FIELD_VERSION, version);
    put_string_field(&mut payload, VERSION_FIELD_RELEASE, release);
    put_string_field(&mut payload, VERSION_FIELD_OS, OS_NAME);
    put_string_field(&mut payload, VERSION_FIELD_OS_VERSION, OS_VERSION);
    assert(payload@ =~= version_payload(release@));
    encode_frame(MessageId::Version.id(), &payload)
}

/// The frame that authenticates `username` with `password`, declaring Opus support.
pub fn authenticate_frame(username: &str, password: &str) -> (r: Result<Vec<u8>, SendError>)
    ensures
        r is Ok <==> authenticate_sendable(username@, password@),
        r is Ok ==> r->Ok_0@ == frame_of(
            MessageId::Authenticate.wire_id(),
            authenticate_payload(username@, password@),
        ),
        r is Err ==> r matches Err(SendError::MessageTooLarge(_)),
{
    if !string_fits(username) || !string_fits(password) {
        return Err(SendError::MessageTooLarge("a credential exceeds the 32-bit length field"));
    }
    let mut payload: Vec<u8> = Vec::new();
    put_string_field(&mut payload, AUTHENTICATE_FIELD_USERNAME, username);
    put_string_field(&mut payload, AUTHENTICATE_FIELD_PASSWORD, password);
    put_bool_field(&mut payload, AUTHENTICATE_FIELD_OPUS, true);
    assert(payload@ =~= authenticate_payload(username@, password@));
    encode_frame(MessageId::Authenticate.id(), &payload)
}

/// The keep-alive frame: a `Ping` message with every field left at its default,
/// so an empty payload.
pub fn ping_frame() -> (r: Vec<u8>)
    ensures
        r@ == frame_of(MessageId::Ping.wire_id(), Seq::empty()),
        r@ == seq![0u8, 3u8, 0u8, 0u8, 0u8, 0u8],
{
    let payload: Vec<u8> = Vec::new();
    match encode_frame(MessageId::Ping.id(), &payload) {
        Ok(frame) => {
            assert(frame@ =~= seq![0u8, 3u8, 0u8, 0u8, 0u8, 0u8]);
            frame
        },
        Err(_) => {
            assert(false);
            Vec::new()
        },
    }
}

} // verus!
