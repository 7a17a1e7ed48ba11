//! Packets: numbered messages, each with its fields in wire order. A packet
//! that the server receives can be read, one that it sends can be written,
//! and no packet offers a direction that it does not have.

pub mod compound;
pub mod data;
pub mod handshake;
pub mod raw_data;
pub mod status;
pub mod types;

use crate::protocol::error::{Error, IoErrorKind, Result};
use crate::protocol::packet::raw_data::{varint_encoded, Parsed};
use vstd::prelude::*;

verus! {

/// Why a packet could not be read.
#[derive(Debug, Clone, Copy, PartialEq, Eq, Structural)]
pub enum PacketReadError {
    IO(IoErrorKind),
    InvalidVarInt,
    InvalidString,
    InvalidUuid,
    UnexpectedEof,
}

/// Why a packet could not be written.
#[derive(Debug, Clone, Copy, PartialEq, Eq, Structural)]
pub enum PacketWriteError {
    IO(IoErrorKind),
}

/// The engine-wide error that stands for a read error.
pub open spec fn read_error_as_error(e: PacketReadError) -> Error {
    match e {
        PacketReadError::IO(kind) => Error::Io(kind),
        PacketReadError::InvalidVarInt => Error::InvalidVarInt,
        PacketReadError::InvalidString => Error::InvalidString,
        PacketReadError::InvalidUuid => Error::InvalidUuid,
        PacketReadError::UnexpectedEof => Error::UnexpectedEof,
    }
}

impl From<PacketReadError> for Error {
    fn from(e: PacketReadError) -> (r: Self)
        ensures
            r == read_error_as_error(e),
    {
        match e {
            PacketReadError::IO(kind) => Error::Io(kind),
            PacketReadError::InvalidVarInt => Error::InvalidVarInt,
            PacketReadError::InvalidString => Error::InvalidString,
            PacketReadError::InvalidUuid => Error::InvalidUuid,
            PacketReadError::UnexpectedEof => Error::UnexpectedEof,
        }
    }
}

impl vstd::std_specs::convert::FromSpecImpl<PacketReadError> for Error {
    open spec fn obeys_from_spec() -> bool {
        true
    }

    open spec fn from_spec(e: PacketReadError) -> Self {
        read_error_as_error(e)
    }
}

/// The engine-wide error that stands for a write error.
pub open spec fn write_error_as_error(e: PacketWriteError) -> Error {
    match e {
        PacketWriteError::IO(kind) => Error::Io(kind),
    }
}

impl From<PacketWriteError> for Error {
    fn from(e: PacketWriteError) -> (r: Self)
        ensures
            r == write_error_as_error(e),
    {
        match e {
            PacketWriteError::IO(kind) => Error::Io(kind),
        }
    }
}

impl vstd::std_specs::convert::FromSpecImpl<PacketWriteError> for Error {
    open spec fn obeys_from_spec() -> bool {
        true
    }

    open spec fn from_spec(e: PacketWriteError) -> Self {
        write_error_as_error(e)
    }
}

/// A numbered message. Contracts speak of a packet by its deep view: its
/// fields in wire order.
pub trait Packet: Sized + DeepView {
    /// The number that announces the packet within its stage and direction.
    spec fn id() -> i32;

    /// What a reader makes of the bytes that follow the packet's number.
    spec fn decoded(fields: Seq<u8>) -> Parsed<Self::V>;

    /// The bytes of the packet's fields, without its number.
    spec fn encoded(value: Self::V) -> Seq<u8>;

    /// Whether a packet that was written can be read back.
    spec fn portable(value: Self::V) -> bool;

    /// Reading the fields that were written gives the packet back and takes
    /// all of them.
    proof fn round_trip(value: Self::V)
        requires
            Self::portable(value),
        ensures
            Self::decoded(Self::encoded(value)) == Ok::<(Self::V, int), Error>(
                (value, Self::encoded(value).len() as int),
            ),
    ;

    fn packet_id() -> (r: i32)
        ensures
            r == Self::id(),
    ;
}

/// A packet that can be read: one that the peer sends.
pub trait Decodable: Packet {
    fn read(buffer: &mut &[u8]) -> (r: Result<Self>)
        ensures
            match Self::decoded(old(buffer)@) {
                Ok((value, n)) => (r matches Ok(got) && got.deep_view() == value) && final(buffer)@
                    == old(buffer)@.skip(n),
                Err(e) => r == Err::<Self, Error>(e) && final(buffer)@ == old(buffer)@,
            },
    ;
}

/// A packet that can be written: one that goes to the peer.
pub trait Encodable: Packet {
    /// Appends the packet's number and then its fields.
    fn write(&self, buffer: &mut Vec<u8>) -> (r: Result<()>)
        ensures
            r.is_ok(),
            final(buffer)@ == old(buffer)@ + (varint_encoded(Self::id()) + Self::encoded(
                self.deep_view(),
            )),
    ;
}

/// The payload of a frame that carries the packet: its number as a varint,
/// then its fields.
pub open spec fn payload<T: Packet>(value: T::V) -> Seq<u8> {
    varint_encoded(T::id()) + T::encoded(value)
}

} // verus!
