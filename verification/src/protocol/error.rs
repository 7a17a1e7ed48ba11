use vstd::prelude::*;

verus! {

/// What went wrong on the transport, as far as the engine tells cases apart.
#[derive(Debug, Clone, Copy, PartialEq, Eq, Structural)]
pub enum IoErrorKind {
    /// Bytes were asked for that the source does not hold.
    UnexpectedEof,
    /// The peer closed the stream in the middle of a frame.
    ConnectionAborted,
    /// Any other failure of the transport.
    Other,
}

#[derive(Debug, Clone, PartialEq, Eq)]
pub enum Error {
    Io(IoErrorKind),
    InvalidVarInt,
    InvalidString,
    InvalidUuid,
    UnexpectedEof,
    PacketTooLarge,
    InvalidPacketId(i32),
    PacketSerialization(String),
    PacketDeserialization(String),
    IncompletePacket,
    Protocol(String),
    UnsupportedVersion(i32),
}

/// An error as contracts speak of it: the same cases, with each message as
/// the characters it holds.
pub enum Failure {
    Io(IoErrorKind),
    InvalidVarInt,
    InvalidString,
    InvalidUuid,
    UnexpectedEof,
    PacketTooLarge,
    InvalidPacketId(i32),
    PacketSerialization(Seq<char>),
    PacketDeserialization(Seq<char>),
    IncompletePacket,
    Protocol(Seq<char>),
    UnsupportedVersion(i32),
}

impl View for Error {
    type V = Failure;

    open spec fn view(&self) -> Failure {
        match self {
            Error::Io(kind) => Failure::Io(*kind),
            Error::InvalidVarInt => Failure::InvalidVarInt,
            Error::InvalidString => Failure::InvalidString,
            Error::InvalidUuid => Failure::InvalidUuid,
            Error::UnexpectedEof => Failure::UnexpectedEof,
            Error::PacketTooLarge => Failure::PacketTooLarge,
            Error::InvalidPacketId(id) => Failure::InvalidPacketId(*id),
            Error::PacketSerialization(text) => Failure::PacketSerialization(text@),
            Error::PacketDeserialization(text) => Failure::PacketDeserialization(text@),
            Error::IncompletePacket => Failure::IncompletePacket,
            Error::Protocol(text) => Failure::Protocol(text@),
            Error::UnsupportedVersion(version) => Failure::UnsupportedVersion(*version),
        }
    }
}

impl Error {
    /// A protocol error with the given message.
    pub fn protocol(text: &str) -> (r: Self)
        ensures
            r@ == Failure::Protocol(text@),
    {
        Error::Protocol(text.to_owned())
    }
}

#[derive(Debug, Clone, Copy, PartialEq, Eq, Structural)]
pub enum VersionError {
    UnsupportedVersion(i32),
}

/// The engine-wide error that stands for a version error.
pub open spec fn version_error_as_error(e: VersionError) -> Error {
    match e {
        VersionError::UnsupportedVersion(v) => Error::UnsupportedVersion(v),
    }
}

impl From<VersionError> for Error {
    fn from(e: VersionError) -> (r: Self)
        ensures
            r == version_error_as_error(e),
    {
        match e {
            VersionError::UnsupportedVersion(v) => Error::UnsupportedVersion(v),
        }
    }
}

impl vstd::std_specs::convert::FromSpecImpl<VersionError> for Error {
    open spec fn obeys_from_spec() -> bool {
        true
    }

    open spec fn from_spec(e: VersionError) -> Self {
        version_error_as_error(e)
    }
}

pub type Result<T> = std::result::Result<T, Error>;

} // verus!
