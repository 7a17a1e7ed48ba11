//! A connection without its transport: the accumulation buffer, the stage
//! and the negotiated version. Whoever owns the socket hands in the bytes
//! that it read and says when the peer has closed; the connection turns them
//! into frames and packets.

use crate::common::buffer::{
    buffer_advance, buffer_bytes, buffer_extend, buffer_len, buffer_split_to,
    buffer_with_capacity, buffered,
};
use crate::common::config::Config;
use crate::protocol::error::{Error, Failure, IoErrorKind, Result};
use crate::protocol::packet::raw_data::{
    read_varint, short_read, varint_decoded, varint_decoded_len, varint_encoded,
    varint_prefix_is_short, varint_round_trip, write_varint,
};
use crate::protocol::packet::{payload, Decodable, Encodable, Packet};
use bytes::BytesMut;
use std::sync::Arc;
use vstd::prelude::*;

verus! {

/// The stage of a connection.
#[derive(Debug, Clone, Copy, PartialEq, Eq, Structural)]
pub enum ConnectionState {
    Handshaking,
    Status,
    Login,
    Configuration,
    Play,
}

/// What an attempt to read yields when the transport may have to be asked
/// for more bytes first.
#[derive(Debug, PartialEq, Eq)]
pub enum Poll<T> {
    /// The read is done.
    Ready(T),
    /// More bytes are needed: read from the transport, hand them to
    /// `receive` (or report the close), and try again.
    Pending,
}

/// How far a connection has come within its stage.
#[derive(Debug, Clone, Copy, PartialEq, Eq, Structural)]
pub enum Phase {
    /// The stage was entered and the server has sent nothing in it.
    Entered,
    /// The server has sent its first answer of the stage: the status
    /// response, the login success, or the opening burst of configuration.
    Answered,
    /// The server has sent its last word of the stage: the pong, or the
    /// closing burst of configuration.
    Finishing,
}

/// What to make of a registry that names an entry twice.
#[derive(Debug, Clone, Copy, PartialEq, Eq, Structural)]
pub enum DuplicatePolicy {
    /// Send the registry as it is.
    Allow,
    /// Refuse to send it.
    Reject,
}

/// What the owner of the transport is to do next.
#[derive(Debug, PartialEq, Eq)]
pub enum Action {
    /// Read from the transport and hand the bytes to `receive`, or find the
    /// transport closed; then step again.
    Read,
    /// Nothing: step again.
    Continue,
    /// Write these frames, each in one piece and in this order; then step
    /// again.
    Write(Vec<Vec<u8>>),
    /// Load the registry and tag documents and step again with them.
    Load,
    /// Close the transport: the connection has run its course.
    Close,
}

/// An action as contracts speak of it.
pub enum ActionView {
    Read,
    Continue,
    Write(Seq<Seq<u8>>),
    Load,
    Close,
}

impl View for Action {
    type V = ActionView;

    open spec fn view(&self) -> ActionView {
        match self {
            Action::Read => ActionView::Read,
            Action::Continue => ActionView::Continue,
            Action::Write(frames) => ActionView::Write(frames.deep_view()),
            Action::Load => ActionView::Load,
            Action::Close => ActionView::Close,
        }
    }
}

/// What the front of a buffer holds.
pub enum FrameScan {
    /// Not all of the next frame is there yet.
    Incomplete,
    /// The length prefix is no varint, or announces a negative length or
    /// more than the limit allows.
    Invalid(Error),
    /// A whole frame: `header` bytes of length prefix, then `length` bytes of
    /// payload.
    Complete { header: int, length: int },
}

/// Looks for a frame at the front of `s`, where no payload may be longer
/// than `limit`. A length prefix that was cut short and a payload that is
/// not all there both leave the frame incomplete. A length over the limit
/// is refused as soon as it is known, before any of the payload is awaited,
/// and so is a negative length, which as a count of bytes is over every
/// limit.
pub open spec fn frame_scan(s: Seq<u8>, limit: i32) -> FrameScan {
    match varint_decoded(s) {
        Err(e) => if e == short_read() {
            FrameScan::Incomplete
        } else {
            FrameScan::Invalid(e)
        },
        Ok((length, header)) => if length < 0 || length > limit {
            FrameScan::Invalid(Error::PacketTooLarge)
        } else if s.len() - header < length {
            FrameScan::Incomplete
        } else {
            FrameScan::Complete { header, length: length as int }
        },
    }
}

/// The bytes of a frame that carries `payload`: the payload's length as a
/// varint, then the payload.
pub open spec fn frame_encoded(payload: Seq<u8>) -> Seq<u8> {
    varint_encoded(payload.len() as i32) + payload
}

/// What a payload decodes to as a packet of type `T`: its number is read
/// and has to be that of `T`, then the fields are read. Bytes after the
/// fields are ignored.
pub open spec fn payload_decoded<T: Packet>(payload: Seq<u8>) -> std::result::Result<T::V, Error> {
    match varint_decoded(payload) {
        Err(e) => Err(e),
        Ok((id, n)) => if id != T::id() {
            Err(Error::InvalidPacketId(id))
        } else {
            match T::decoded(payload.skip(n)) {
                Err(e) => Err(e),
                Ok((value, _)) => Ok(value),
            }
        },
    }
}

/// The number of the packet in a payload.
pub open spec fn payload_id(payload: Seq<u8>) -> std::result::Result<i32, Error> {
    match varint_decoded(payload) {
        Err(e) => Err(e),
        Ok((id, _)) => Ok(id),
    }
}

/// What the front of a buffer yields as a packet of type `T`: nothing while
/// the frame is incomplete, else the packet and the number of bytes that its
/// frame takes up, or the error that reading it meets.
pub open spec fn framed<T: Packet>(pending: Seq<u8>, limit: i32) -> std::result::Result<
    Option<(T::V, int)>,
    Error,
> {
    match frame_scan(pending, limit) {
        FrameScan::Incomplete => Ok(None),
        FrameScan::Invalid(e) => Err(e),
        FrameScan::Complete { header, length } => match payload_decoded::<T>(
            pending.subrange(header, header + length),
        ) {
            Err(e) => Err(e),
            Ok(value) => Ok(Some((value, header + length))),
        },
    }
}

/// Whether a whole frame stands at the front of `pending`: not yet while
/// more bytes are awaited from an open transport, and an error where the
/// length of the frame is refused or the transport has closed before the
/// frame was whole. A transport that closes with nothing buffered leaves
/// nothing to look at, which is a short read; one that closes in the middle
/// of a frame has aborted the connection.
pub open spec fn frame_ready(pending: Seq<u8>, closed: bool, limit: i32) -> std::result::Result<
    bool,
    Error,
> {
    match frame_scan(pending, limit) {
        FrameScan::Invalid(e) => Err(e),
        FrameScan::Incomplete => if !closed {
            Ok(false)
        } else if pending.len() == 0 {
            Err(short_read())
        } else {
            Err(aborted())
        },
        FrameScan::Complete { .. } => Ok(true),
    }
}

/// The number of the packet in the frame at the front of `pending`: nothing
/// while more bytes are awaited, and an error where the frame or its number
/// cannot be read or the stream has ended.
pub open spec fn peeked(pending: Seq<u8>, closed: bool, limit: i32) -> std::result::Result<
    Option<i32>,
    Error,
> {
    match frame_scan(pending, limit) {
        FrameScan::Invalid(e) => Err(e),
        FrameScan::Incomplete => if !closed {
            Ok(None)
        } else if pending.len() == 0 {
            Err(short_read())
        } else {
            Err(aborted())
        },
        FrameScan::Complete { header, length } => match payload_id(
            pending.subrange(header, header + length),
        ) {
            Err(e) => Err(e),
            Ok(id) => Ok(Some(id)),
        },
    }
}

/// The error of a stream that ended in the middle of a frame.
pub open spec fn aborted() -> Error {
    Error::Io(IoErrorKind::ConnectionAborted)
}

/// What waiting for a packet of one type comes to.
pub enum Awaited<V> {
    /// The bytes at hand cannot be read as such a packet, or the stream
    /// ended in the middle of a frame.
    Failed(Failure),
    /// The frame is incomplete and the transport still open.
    Wait,
    /// The peer has closed the transport between two frames.
    Ended,
    /// The packet, and the number of bytes that its frame takes up.
    Got(V, int),
}

/// Waits for a packet of type `T` at the front of `pending`.
pub open spec fn awaited<T: Packet>(pending: Seq<u8>, closed: bool, limit: i32) -> Awaited<
    T::V,
> {
    match framed::<T>(pending, limit) {
        Err(e) => Awaited::Failed(e@),
        Ok(Some((value, n))) => Awaited::Got(value, n),
        Ok(None) => if !closed {
            Awaited::Wait
        } else if pending.len() == 0 {
            Awaited::Ended
        } else {
            Awaited::Failed(aborted()@)
        },
    }
}

/// The frame that carries a packet, or the refusal of a payload that is too
/// long for its length to be written.
pub open spec fn frame_of<T: Packet>(value: T::V) -> std::result::Result<Seq<u8>, Failure> {
    if payload::<T>(value).len() <= i32::MAX {
        Ok(frame_encoded(payload::<T>(value)))
    } else {
        Err(Failure::PacketTooLarge)
    }
}

/// What one step makes of a connection: what it returns, where it leaves
/// the connection, and how many bytes it takes from the front of the buffer.
pub struct Step {
    pub outcome: std::result::Result<ActionView, Failure>,
    pub state: ConnectionState,
    pub phase: Phase,
    pub protocol_version: i32,
    pub consumed: int,
}

/// That `after` is where the step `step` leaves a connection that was at
/// `before`.
pub open spec fn follows(before: Connection, step: Step, after: Connection) -> bool {
    &&& after.state == step.state
    &&& after.phase == step.phase
    &&& after.protocol_version == step.protocol_version
    &&& after.config == before.config
    &&& after.max_frame_length == before.max_frame_length
    &&& after.duplicate_policy == before.duplicate_policy
    &&& after.pending() == before.pending().skip(step.consumed)
}

/// That a step which began at `before`, ended at `after` and returned `r` is
/// the step `step`.
pub open spec fn stepped(before: Connection, after: Connection, r: Result<Action>, step: Step) -> bool {
    &&& follows(before, step, after)
    &&& match step.outcome {
        Ok(action) => r matches Ok(taken) && taken@ == action,
        Err(e) => r matches Err(error) && error@ == e,
    }
}

pub struct Connection {
    pub buffer: BytesMut,
    pub state: ConnectionState,
    pub phase: Phase,
    pub config: Arc<Config>,
    pub protocol_version: i32,
    /// The longest payload that a frame from the peer may announce.
    pub max_frame_length: i32,
    /// What to make of a registry that names an entry twice.
    pub duplicate_policy: DuplicatePolicy,
}

/// The limit of a connection that sets none: the longest payload whose
/// length can be written at all.
pub const NO_FRAME_LIMIT: i32 = 0x7fff_ffff;

impl Connection {
    /// The bytes that have arrived and were not yet taken as frames.
    pub open spec fn pending(&self) -> Seq<u8> {
        buffered(self.buffer)
    }

    /// Everything but the buffer: the stage, the phase, the configuration
    /// and the version.
    pub open spec fn settings(&self) -> (
        ConnectionState,
        Phase,
        Arc<Config>,
        i32,
        i32,
        DuplicatePolicy,
    ) {
        (
            self.state,
            self.phase,
            self.config,
            self.protocol_version,
            self.max_frame_length,
            self.duplicate_policy,
        )
    }

    /// The step that changes nothing and returns `outcome`.
    pub open spec fn stays(&self, outcome: std::result::Result<ActionView, Failure>) -> Step {
        Step {
            outcome,
            state: self.state,
            phase: self.phase,
            protocol_version: self.protocol_version,
            consumed: 0,
        }
    }

    /// The step that takes `consumed` bytes, changes nothing else and
    /// returns `outcome`.
    pub open spec fn takes(
        &self,
        consumed: int,
        outcome: std::result::Result<ActionView, Failure>,
    ) -> Step {
        Step {
            outcome,
            state: self.state,
            phase: self.phase,
            protocol_version: self.protocol_version,
            consumed,
        }
    }

    /// A connection that has just been accepted, with no limit on the
    /// length of a frame and no objection to registries that name an entry
    /// twice.
    pub fn new(config: Arc<Config>) -> (r: Self)
        ensures
            r.pending() == Seq::<u8>::empty(),
            r.state == ConnectionState::Handshaking,
            r.phase == Phase::Entered,
            r.config == config,
            r.protocol_version == 0,
            r.max_frame_length == NO_FRAME_LIMIT,
            r.duplicate_policy == DuplicatePolicy::Allow,
    {
        Connection::with_max_frame_length(config, NO_FRAME_LIMIT)
    }

    /// A connection that has just been accepted and refuses frames whose
    /// payload is longer than `max_frame_length`.
    pub fn with_max_frame_length(config: Arc<Config>, max_frame_length: i32) -> (r: Self)
        ensures
            r.pending() == Seq::<u8>::empty(),
            r.state == ConnectionState::Handshaking,
            r.phase == Phase::Entered,
            r.config == config,
            r.protocol_version == 0,
            r.max_frame_length == max_frame_length,
            r.duplicate_policy == DuplicatePolicy::Allow,
    {
        Connection {
            buffer: buffer_with_capacity(4096),
            state: ConnectionState::Handshaking,
            phase: Phase::Entered,
            config,
            protocol_version: 0,
            max_frame_length,
            duplicate_policy: DuplicatePolicy::Allow,
        }
    }

    /// Takes in bytes that the transport has read.
    pub fn receive(&mut self, data: &[u8])
        ensures
            final(self).pending() == old(self).pending() + data@,
            final(self).settings() == old(self).settings(),
    {
        buffer_extend(&mut self.buffer, data);
    }

    /// Takes the next frame out of the buffer, if all of it is there, and
    /// hands back its payload: the packet's number and fields, without the
    /// length prefix.
    pub fn parse_packet_raw(&mut self) -> (r: Result<Option<Vec<u8>>>)
        ensures
            final(self).settings() == old(self).settings(),
            match frame_scan(old(self).pending(), old(self).max_frame_length) {
                FrameScan::Incomplete => {
                    &&& r == Ok::<Option<Vec<u8>>, Error>(None)
                    &&& final(self).pending() == old(self).pending()
                },
                FrameScan::Invalid(e) => {
                    &&& r == Err::<Option<Vec<u8>>, Error>(e)
                    &&& final(self).pending() == old(self).pending()
                },
                FrameScan::Complete { header, length } => {
                    &&& r matches Ok(Some(frame)) && frame@ == old(self).pending().subrange(
                        header,
                        header + length,
                    )
                    &&& final(self).pending() == old(self).pending().skip(header + length)
                },
            },
    {
        let (header, length) = match self.scan()? {
            Some(found) => found,
            None => {
                return Ok(None);
            },
        };
        buffer_advance(&mut self.buffer, header);
        let frame = buffer_split_to(&mut self.buffer, length);
        proof {
            let all = old(self).pending();
            assert(all.skip(header as int).take(length as int) =~= all.subrange(
                header as int,
                header + length,
            ));
            assert(all.skip(header as int).skip(length as int) =~= all.skip(header + length));
        }
        Ok(Some(frame))
    }

    /// Takes the next frame out of the buffer, if all of it is there, and
    /// reads it as a packet of type `T`. A frame that carries another
    /// packet, or cannot be read, stays in the buffer.
    pub fn parse_packet<T: Decodable>(&mut self) -> (r: Result<Option<T>>)
        ensures
            final(self).settings() == old(self).settings(),
            match framed::<T>(old(self).pending(), old(self).max_frame_length) {
                Err(e) => {
                    &&& r == Err::<Option<T>, Error>(e)
                    &&& final(self).pending() == old(self).pending()
                },
                Ok(None) => {
                    &&& r == Ok::<Option<T>, Error>(None)
                    &&& final(self).pending() == old(self).pending()
                },
                Ok(Some((value, n))) => {
                    &&& r matches Ok(Some(packet)) && packet.deep_view() == value
                    &&& final(self).pending() == old(self).pending().skip(n)
                },
            },
    {
        let (header, length) = match self.scan()? {
            Some(found) => found,
            None => {
                return Ok(None);
            },
        };
        let all = buffer_bytes(&self.buffer);
        let mut cur: &[u8] = vstd::slice::slice_subrange(all, header, header + length);
        let packet_id = read_varint(&mut cur)?;
        if packet_id != T::packet_id() {
            return Err(Error::InvalidPacketId(packet_id));
        }
        let packet = T::read(&mut cur)?;
        buffer_advance(&mut self.buffer, header + length);
        Ok(Some(packet))
    }

    /// Reads the next packet. While its frame is incomplete the answer
    /// depends on the transport: still open, more bytes are needed; closed
    /// with nothing buffered, the stream has ended; closed in the middle of
    /// a frame, the connection was aborted.
    pub fn read_packet<T: Decodable>(&mut self, closed: bool) -> (r: Result<Poll<Option<T>>>)
        ensures
            final(self).settings() == old(self).settings(),
            match awaited::<T>(old(self).pending(), closed, old(self).max_frame_length) {
                Awaited::Failed(e) => {
                    &&& r matches Err(error) && error@ == e
                    &&& final(self).pending() == old(self).pending()
                },
                Awaited::Wait => {
                    &&& r == Ok::<Poll<Option<T>>, Error>(Poll::Pending)
                    &&& final(self).pending() == old(self).pending()
                },
                Awaited::Ended => {
                    &&& r == Ok::<Poll<Option<T>>, Error>(Poll::Ready(None))
                    &&& final(self).pending() == old(self).pending()
                },
                Awaited::Got(value, n) => {
                    &&& r matches Ok(Poll::Ready(Some(packet))) && packet.deep_view() == value
                    &&& final(self).pending() == old(self).pending().skip(n)
                },
            },
    {
        match self.parse_packet::<T>()? {
            Some(packet) => Ok(Poll::Ready(Some(packet))),
            None => {
                if !closed {
                    Ok(Poll::Pending)
                } else if buffer_len(&self.buffer) == 0 {
                    Ok(Poll::Ready(None))
                } else {
                    Err(Error::Io(IoErrorKind::ConnectionAborted))
                }
            },
        }
    }

    /// As `read_packet`, for the payload of the next frame as it stands.
    pub fn read_packet_raw(&mut self, closed: bool) -> (r: Result<Poll<Option<Vec<u8>>>>)
        ensures
            final(self).settings() == old(self).settings(),
            match frame_scan(old(self).pending(), old(self).max_frame_length) {
                FrameScan::Invalid(e) => {
                    &&& r == Err::<Poll<Option<Vec<u8>>>, Error>(e)
                    &&& final(self).pending() == old(self).pending()
                },
                FrameScan::Complete { header, length } => {
                    &&& r matches Ok(Poll::Ready(Some(frame))) && frame@ == old(
                        self,
                    ).pending().subrange(header, header + length)
                    &&& final(self).pending() == old(self).pending().skip(header + length)
                },
                FrameScan::Incomplete => {
                    &&& final(self).pending() == old(self).pending()
                    &&& r == if !closed {
                        Ok::<Poll<Option<Vec<u8>>>, Error>(Poll::Pending)
                    } else if old(self).pending().len() == 0 {
                        Ok(Poll::Ready(None))
                    } else {
                        Err(aborted())
                    }
                },
            },
    {
        match self.parse_packet_raw()? {
            Some(frame) => Ok(Poll::Ready(Some(frame))),
            None => {
                if !closed {
                    Ok(Poll::Pending)
                } else if buffer_len(&self.buffer) == 0 {
                    Ok(Poll::Ready(None))
                } else {
                    Err(Error::Io(IoErrorKind::ConnectionAborted))
                }
            },
        }
    }

    /// Looks at what is buffered without taking anything. The bytes are
    /// shown once the frame at their front is all there, so that its length
    /// and the number of its packet can be read from them; the next read
    /// yields that frame. While the frame is incomplete the answer depends
    /// on the transport, as it does for `peek_packet_id`.
    pub fn peek_packet(&self, closed: bool) -> (r: Result<Poll<&[u8]>>)
        ensures
            match frame_ready(self.pending(), closed, self.max_frame_length) {
                Ok(true) => r matches Ok(Poll::Ready(bytes)) && bytes@ == self.pending(),
                Ok(false) => r matches Ok(Poll::Pending),
                Err(e) => r matches Err(error) && error == e,
            },
    {
        match self.scan()? {
            Some(_) => Ok(Poll::Ready(buffer_bytes(&self.buffer))),
            None => {
                if !closed {
                    Ok(Poll::Pending)
                } else if buffer_len(&self.buffer) == 0 {
                    Err(Error::Io(IoErrorKind::UnexpectedEof))
                } else {
                    Err(Error::Io(IoErrorKind::ConnectionAborted))
                }
            },
        }
    }

    /// The number of the packet in the next frame, which stays in the
    /// buffer. While the frame is incomplete the answer depends on the
    /// transport: still open, more bytes are needed; closed with nothing
    /// buffered, there is nothing to look at, which is a short read; closed
    /// in the middle of a frame, the connection was aborted.
    pub fn peek_packet_id(&self, closed: bool) -> (r: Result<Poll<i32>>)
        ensures
            match peeked(self.pending(), closed, self.max_frame_length) {
                Ok(Some(id)) => r == Ok::<Poll<i32>, Error>(Poll::Ready(id)),
                Ok(None) => r == Ok::<Poll<i32>, Error>(Poll::Pending),
                Err(e) => r == Err::<Poll<i32>, Error>(e),
            },
    {
        let (header, length) = match self.scan()? {
            Some(found) => found,
            None => {
                return if !closed {
                    Ok(Poll::Pending)
                } else if buffer_len(&self.buffer) == 0 {
                    Err(Error::Io(IoErrorKind::UnexpectedEof))
                } else {
                    Err(Error::Io(IoErrorKind::ConnectionAborted))
                };
            },
        };
        let all = buffer_bytes(&self.buffer);
        let mut cur: &[u8] = vstd::slice::slice_subrange(all, header, header + length);
        let id = read_varint(&mut cur)?;
        Ok(Poll::Ready(id))
    }

    /// The frame that carries a packet, for the transport to write in one
    /// piece. A payload too long for its length to be written is refused.
    pub fn write_packet<T: Encodable>(&self, packet: &T) -> (r: Result<Vec<u8>>)
        ensures
            match frame_of::<T>(packet.deep_view()) {
                Ok(bytes) => r matches Ok(frame) && frame@ == bytes,
                Err(e) => r matches Err(error) && error@ == e,
            },
    {
        let mut body: Vec<u8> = Vec::new();
        packet.write(&mut body)?;
        proof {
            assert(body@ =~= payload::<T>(packet.deep_view()));
        }
        if body.len() > 0x7fff_ffff {
            return Err(Error::PacketTooLarge);
        }
        let mut frame: Vec<u8> = Vec::new();
        write_varint(&mut frame, body.len() as i32)?;
        frame.extend_from_slice(body.as_slice());
        proof {
            assert(frame@ =~= frame_encoded(body@));
        }
        Ok(frame)
    }

    /// Measures the frame at the front of the buffer.
    fn scan(&self) -> (r: Result<Option<(usize, usize)>>)
        ensures
            match frame_scan(self.pending(), self.max_frame_length) {
                FrameScan::Incomplete => r == Ok::<Option<(usize, usize)>, Error>(None),
                FrameScan::Invalid(e) => r == Err::<Option<(usize, usize)>, Error>(e),
                FrameScan::Complete { header, length } => r == Ok::<Option<(usize, usize)>, Error>(
                    Some((header as usize, length as usize)),
                ) && 1 <= header <= 5 && 0 <= length && header + length
                    <= self.pending().len(),
            },
    {
        let all = buffer_bytes(&self.buffer);
        let mut cur: &[u8] = all;
        proof {
            varint_decoded_len(all@);
        }
        let length = match read_varint(&mut cur) {
            Ok(length) => length,
            Err(Error::Io(IoErrorKind::UnexpectedEof)) => {
                return Ok(None);
            },
            Err(e) => {
                return Err(e);
            },
        };
        if length < 0 || length > self.max_frame_length {
            return Err(Error::PacketTooLarge);
        }
        if cur.len() < length as usize {
            return Ok(None);
        }
        Ok(Some((all.len() - cur.len(), length as usize)))
    }
}

/// A frame of which a byte is still missing is incomplete: however a frame
/// is cut into pieces on its way, nothing is made of it before its last
/// byte has arrived.
pub proof fn frame_prefix_incomplete(payload: Seq<u8>, k: int, limit: i32)
    requires
        payload.len() <= limit,
        0 <= k < frame_encoded(payload).len(),
    ensures
        frame_scan(frame_encoded(payload).take(k), limit) == FrameScan::Incomplete,
{
    let length = payload.len() as i32;
    let head = varint_encoded(length);
    let frame = frame_encoded(payload);
    if k < head.len() {
        assert(frame.take(k) =~= head.take(k));
        varint_prefix_is_short(length, k);
    } else {
        let part = payload.take(k - head.len());
        assert(frame.take(k) =~= head + part);
        varint_round_trip(length, part);
    }
}

/// A frame that has arrived whole is found, whatever follows it, with its
/// payload as it was sent.
pub proof fn frame_complete(payload: Seq<u8>, rest: Seq<u8>, limit: i32)
    requires
        payload.len() <= limit,
    ensures
        frame_scan(frame_encoded(payload) + rest, limit) == (FrameScan::Complete {
            header: varint_encoded(payload.len() as i32).len() as int,
            length: payload.len() as int,
        }),
        (frame_encoded(payload) + rest).subrange(
            varint_encoded(payload.len() as i32).len() as int,
            frame_encoded(payload).len() as int,
        ) == payload,
{
    let length = payload.len() as i32;
    let head = varint_encoded(length);
    let s = frame_encoded(payload) + rest;
    assert(s =~= head + (payload + rest));
    varint_round_trip(length, payload + rest);
    assert(s.subrange(head.len() as int, frame_encoded(payload).len() as int) =~= payload);
}

/// Framing: of the bytes of one frame, fed in any number of pieces, no
/// proper prefix yields a packet or an error, and the whole yields what the
/// payload decodes to and uses the frame up.
pub proof fn framed_once_whole<T: Packet>(payload: Seq<u8>, k: int, limit: i32)
    requires
        payload.len() <= limit,
        0 <= k <= frame_encoded(payload).len(),
    ensures
        k < frame_encoded(payload).len() ==> framed::<T>(frame_encoded(payload).take(k), limit)
            == Ok::<Option<(T::V, int)>, Error>(None),
        k == frame_encoded(payload).len() ==> framed::<T>(frame_encoded(payload).take(k), limit)
            == match payload_decoded::<T>(payload) {
            Err(e) => Err::<Option<(T::V, int)>, Error>(e),
            Ok(value) => Ok(Some((value, frame_encoded(payload).len() as int))),
        },
{
    let frame = frame_encoded(payload);
    if k < frame.len() {
        frame_prefix_incomplete(payload, k, limit);
    } else {
        frame_complete(payload, Seq::empty(), limit);
        assert(frame + Seq::<u8>::empty() =~= frame);
        assert(frame.take(k) =~= frame);
    }
}

/// What is peeked is what is read next. The bytes are shown exactly when a
/// whole frame stands at their front, which is when a read yields that
/// frame; until then a peek waits or fails as the peek of the packet's
/// number does.
pub proof fn peek_shows_the_next_frame(pending: Seq<u8>, closed: bool, limit: i32)
    ensures
        frame_ready(pending, closed, limit) == Ok::<bool, Error>(true) <==> frame_scan(
            pending,
            limit,
        ) is Complete,
        frame_ready(pending, closed, limit) == Ok::<bool, Error>(false) ==> peeked(
            pending,
            closed,
            limit,
        ) == Ok::<Option<i32>, Error>(None),
        frame_ready(pending, closed, limit) matches Err(e) ==> peeked(pending, closed, limit)
            == Err::<Option<i32>, Error>(e),
{
}

/// Clean and aborted disconnects: when the peer closes the transport, a
/// buffer with nothing in it means that the stream has ended, and a buffer
/// that holds part of a frame means that the connection was aborted.
pub proof fn close_is_clean_or_aborted<T: Packet>(pending: Seq<u8>, limit: i32)
    ensures
        pending.len() == 0 ==> awaited::<T>(pending, true, limit) == Awaited::<T::V>::Ended,
        pending.len() > 0 && frame_scan(pending, limit) is Incomplete ==> awaited::<T>(
            pending,
            true,
            limit,
        ) == Awaited::<T::V>::Failed(aborted()@),
{
}

/// A packet that can be read back is read back from its frame: what is
/// written for one side to send is what the other side reads.
pub proof fn frame_round_trip<T: Packet>(value: T::V, limit: i32)
    requires
        T::portable(value),
        payload::<T>(value).len() <= limit,
    ensures
        framed::<T>(frame_encoded(payload::<T>(value)), limit) == Ok::<Option<(T::V, int)>, Error>(
            Some((value, frame_encoded(payload::<T>(value)).len() as int)),
        ),
{
    let body = payload::<T>(value);
    T::round_trip(value);
    framed_once_whole::<T>(body, frame_encoded(body).len() as int, limit);
    assert(frame_encoded(body).take(frame_encoded(body).len() as int) =~= frame_encoded(body));
    varint_round_trip(T::id(), T::encoded(value));
    assert(body.skip(varint_encoded(T::id()).len() as int) =~= T::encoded(value));
}

/// The deep view of a byte vector is the bytes it holds.
pub proof fn bytes_deep_view(bytes: Vec<u8>)
    ensures
        bytes.deep_view() == bytes@,
{
    assert(bytes.deep_view() =~= bytes@);
}

/// A list of frames that holds one frame.
pub fn one_frame(frame: Vec<u8>) -> (r: Vec<Vec<u8>>)
    ensures
        r.deep_view() == seq![frame@],
{
    let mut frames: Vec<Vec<u8>> = Vec::new();
    frames.push(frame);
    proof {
        bytes_deep_view(frame);
        assert(frames.deep_view() =~= seq![frame@]);
    }
    frames
}

/// Adds a frame at the end of a list of frames.
pub fn add_frame(frames: &mut Vec<Vec<u8>>, frame: Vec<u8>)
    ensures
        final(frames).deep_view() == old(frames).deep_view().push(frame@),
{
    frames.push(frame);
    proof {
        bytes_deep_view(frame);
        assert(frames.deep_view() =~= old(frames).deep_view().push(frame@));
    }
}

} // verus!
