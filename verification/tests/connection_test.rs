use std::sync::Arc;

use iron_oxide::common::config::{Config, Players, Server};
use iron_oxide::common::connection::{Connection, ConnectionState, Phase, Poll};
use iron_oxide::protocol::error::{Error, IoErrorKind};
use iron_oxide::protocol::packet::handshake::Handshake;
use iron_oxide::protocol::packet::raw_data::write_varint;
use iron_oxide::protocol::packet::status::{PingRequest, PongResponse, StatusRequest};

fn connection() -> Connection {
    Connection::new(Arc::new(Config {
        server: Server {
            address: "127.0.0.1:25565".to_string(),
            motd: "A Test Server".to_string(),
            view_distance: 10,
            simulation_distance: 10,
        },
        players: Players { max_players: 20 },
    }))
}

fn frame(payload: &[u8]) -> Vec<u8> {
    let mut out = Vec::new();
    write_varint(&mut out, payload.len() as i32).unwrap();
    out.extend_from_slice(payload);
    out
}

fn handshake_frame() -> Vec<u8> {
    let conn = connection();
    conn.write_packet(&Handshake {
        protocol_version: 770,
        server_address: "localhost".to_string(),
        server_port: 25565,
        next_state: 1,
    })
    .unwrap()
}

#[test]
fn new_connection_awaits_a_handshake() {
    let conn = connection();
    assert_eq!(conn.state, ConnectionState::Handshaking);
    assert_eq!(conn.phase, Phase::Entered);
    assert_eq!(conn.protocol_version, 0);
    assert!(conn.buffer.is_empty());
    assert_eq!(conn.config.players.max_players, 20);
}

#[test]
fn written_frame_is_length_then_number_then_fields() {
    let bytes = handshake_frame();
    let mut expected = vec![16u8, 0x00, 0x82, 0x06, 9];
    expected.extend_from_slice(b"localhost");
    expected.extend_from_slice(&[0x63, 0xdd, 0x01]);
    assert_eq!(bytes, expected);
    let conn = connection();
    assert_eq!(conn.write_packet(&PongResponse { payload: 1 }).unwrap(), vec![9, 1, 0, 0, 0, 0, 0, 0, 0, 1]);
}

#[test]
fn frame_fed_byte_by_byte_yields_one_packet_at_the_end() {
    let bytes = handshake_frame();
    let mut conn = connection();
    for (i, byte) in bytes.iter().enumerate() {
        conn.receive(&[*byte]);
        let read = conn.read_packet::<Handshake>(false).unwrap();
        if i + 1 < bytes.len() {
            assert!(matches!(read, Poll::Pending));
            assert_eq!(conn.buffer.len(), i + 1);
        } else {
            match read {
                Poll::Ready(Some(handshake)) => {
                    assert_eq!(handshake.protocol_version, 770);
                    assert_eq!(handshake.server_address, "localhost");
                    assert_eq!(handshake.server_port, 25565);
                    assert_eq!(handshake.next_state, 1);
                }
                _ => panic!("expected a handshake"),
            }
            assert!(conn.buffer.is_empty());
        }
    }
    assert!(matches!(conn.read_packet::<Handshake>(false), Ok(Poll::Pending)));
}

#[test]
fn two_frames_in_one_read_come_out_one_by_one() {
    let mut conn = connection();
    let mut bytes = frame(&[0x00]);
    bytes.extend_from_slice(&frame(&[0x01, 0, 0, 0, 0, 0x49, 0x96, 0x02, 0xd2]));
    conn.receive(&bytes);
    assert!(matches!(conn.read_packet::<StatusRequest>(false), Ok(Poll::Ready(Some(_)))));
    match conn.read_packet::<PingRequest>(false) {
        Ok(Poll::Ready(Some(ping))) => assert_eq!(ping.payload, 1234567890),
        _ => panic!("expected a ping"),
    }
    assert!(conn.buffer.is_empty());
}

#[test]
fn close_with_nothing_buffered_ends_the_stream() {
    let mut conn = connection();
    assert!(matches!(conn.read_packet::<Handshake>(true), Ok(Poll::Ready(None))));
    assert!(matches!(conn.read_packet_raw(true), Ok(Poll::Ready(None))));
}

#[test]
fn close_in_the_middle_of_a_frame_aborts() {
    let bytes = handshake_frame();
    let mut conn = connection();
    conn.receive(&bytes[..bytes.len() - 1]);
    match conn.read_packet::<Handshake>(true) {
        Err(e) => assert_eq!(e, Error::Io(IoErrorKind::ConnectionAborted)),
        _ => panic!("expected an aborted connection"),
    }
    assert_eq!(conn.buffer.len(), bytes.len() - 1);
    match conn.read_packet_raw(true) {
        Err(e) => assert_eq!(e, Error::Io(IoErrorKind::ConnectionAborted)),
        _ => panic!("expected an aborted connection"),
    }
    let mut partial = connection();
    partial.receive(&[0x80]);
    assert!(matches!(
        partial.read_packet::<Handshake>(true),
        Err(Error::Io(IoErrorKind::ConnectionAborted))
    ));
}

#[test]
fn whole_frame_is_read_even_after_the_close() {
    let mut conn = connection();
    conn.receive(&handshake_frame());
    assert!(matches!(conn.read_packet::<Handshake>(true), Ok(Poll::Ready(Some(_)))));
    assert!(matches!(conn.read_packet::<Handshake>(true), Ok(Poll::Ready(None))));
}

#[test]
fn raw_frame_is_the_payload_without_its_length() {
    let mut conn = connection();
    conn.receive(&frame(&[0x42, 1, 2, 3]));
    conn.receive(&[0x01]);
    assert_eq!(conn.parse_packet_raw(), Ok(Some(vec![0x42, 1, 2, 3])));
    assert_eq!(&conn.buffer[..], &[0x01]);
    assert_eq!(conn.parse_packet_raw(), Ok(None));
    assert_eq!(&conn.buffer[..], &[0x01]);
}

#[test]
fn empty_frame_is_a_frame() {
    let mut conn = connection();
    conn.receive(&[0x00, 0x07]);
    assert_eq!(conn.parse_packet_raw(), Ok(Some(vec![])));
    assert_eq!(&conn.buffer[..], &[0x07]);
    let mut typed = connection();
    typed.receive(&[0x00]);
    assert!(matches!(
        typed.parse_packet::<StatusRequest>(),
        Err(Error::Io(IoErrorKind::UnexpectedEof))
    ));
    assert_eq!(typed.buffer.len(), 1);
}

#[test]
fn length_that_is_no_varint_is_an_error() {
    let mut conn = connection();
    conn.receive(&[0xff, 0xff, 0xff, 0xff, 0xff, 0x01]);
    assert_eq!(conn.parse_packet_raw(), Err(Error::InvalidVarInt));
    assert!(matches!(conn.parse_packet::<StatusRequest>(), Err(Error::InvalidVarInt)));
    assert!(matches!(conn.read_packet::<StatusRequest>(false), Err(Error::InvalidVarInt)));
    assert_eq!(conn.peek_packet_id(false), Err(Error::InvalidVarInt));
    assert_eq!(conn.buffer.len(), 6);
}

#[test]
fn negative_length_is_refused() {
    let mut conn = connection();
    conn.receive(&[0xff, 0xff, 0xff, 0xff, 0x0f, 1, 2, 3]);
    assert_eq!(conn.parse_packet_raw(), Err(Error::PacketTooLarge));
    assert!(matches!(conn.read_packet_raw(false), Err(Error::PacketTooLarge)));
    assert!(matches!(conn.read_packet_raw(true), Err(Error::PacketTooLarge)));
    assert!(matches!(conn.read_packet::<StatusRequest>(false), Err(Error::PacketTooLarge)));
    assert_eq!(conn.peek_packet_id(false), Err(Error::PacketTooLarge));
    assert_eq!(conn.peek_packet(false), Err(Error::PacketTooLarge));
    assert_eq!(conn.buffer.len(), 8);
    let config = connection().config.clone();
    let mut limited = Connection::with_max_frame_length(config, 16);
    limited.receive(&[0xff, 0xff, 0xff, 0xff, 0x0f]);
    assert_eq!(limited.parse_packet_raw(), Err(Error::PacketTooLarge));
    assert!(matches!(limited.read_packet_raw(false), Err(Error::PacketTooLarge)));
    let mut least = connection();
    least.receive(&[0x80, 0x80, 0x80, 0x80, 0x08]);
    assert_eq!(least.parse_packet_raw(), Err(Error::PacketTooLarge));
}

#[test]
fn frame_that_does_not_decode_stays_buffered() {
    let mut conn = connection();
    let bytes = frame(&[0x01, 1, 2, 3]);
    conn.receive(&bytes);
    assert!(matches!(
        conn.parse_packet::<PingRequest>(),
        Err(Error::Io(IoErrorKind::UnexpectedEof))
    ));
    assert_eq!(conn.buffer.len(), bytes.len());
}

#[test]
fn bytes_after_the_fields_are_ignored() {
    let mut conn = connection();
    conn.receive(&frame(&[0x00, 0xaa, 0xbb]));
    assert!(matches!(conn.parse_packet::<StatusRequest>(), Ok(Some(_))));
    assert!(conn.buffer.is_empty());
}

#[test]
fn peek_shows_the_buffer_once_a_frame_is_whole_and_takes_nothing() {
    let mut conn = connection();
    assert_eq!(conn.peek_packet(false), Ok(Poll::Pending));
    assert_eq!(conn.peek_packet(true), Err(Error::Io(IoErrorKind::UnexpectedEof)));
    conn.receive(&[0x02, 0x07]);
    assert_eq!(conn.peek_packet(false), Ok(Poll::Pending));
    assert_eq!(conn.peek_packet(true), Err(Error::Io(IoErrorKind::ConnectionAborted)));
    assert_eq!(conn.buffer.len(), 2);
    conn.receive(&[0x00, 0x01]);
    let whole: &[u8] = &[0x02, 0x07, 0x00, 0x01];
    assert_eq!(conn.peek_packet(false), Ok(Poll::Ready(whole)));
    assert_eq!(conn.peek_packet(true), Ok(Poll::Ready(whole)));
    assert_eq!(conn.buffer.len(), 4);
    assert_eq!(conn.parse_packet_raw(), Ok(Some(vec![0x07, 0x00])));
    assert_eq!(conn.peek_packet(false), Ok(Poll::Pending));
    assert_eq!(conn.peek_packet(true), Err(Error::Io(IoErrorKind::ConnectionAborted)));
}

#[test]
fn peek_waits_for_every_byte_of_the_frame() {
    let bytes = handshake_frame();
    let mut conn = connection();
    for (i, byte) in bytes.iter().enumerate() {
        conn.receive(&[*byte]);
        if i + 1 < bytes.len() {
            assert_eq!(conn.peek_packet(false), Ok(Poll::Pending));
        } else {
            assert_eq!(conn.peek_packet(false), Ok(Poll::Ready(&bytes[..])));
        }
    }
    let mut cursor: &[u8] = match conn.peek_packet(false) {
        Ok(Poll::Ready(view)) => view,
        _ => panic!("a whole frame is buffered"),
    };
    assert_eq!(iron_oxide::protocol::packet::raw_data::read_varint(&mut cursor), Ok(16));
    assert_eq!(iron_oxide::protocol::packet::raw_data::read_varint(&mut cursor), Ok(0x00));
    assert!(matches!(conn.read_packet::<Handshake>(false), Ok(Poll::Ready(Some(_)))));
    assert!(conn.buffer.is_empty());
}

#[test]
fn peek_refuses_what_a_read_refuses() {
    let mut conn = connection();
    conn.receive(&[0xff, 0xff, 0xff, 0xff, 0xff, 0x01]);
    assert_eq!(conn.peek_packet(false), Err(Error::InvalidVarInt));
    let config = connection().config.clone();
    let mut limited = Connection::with_max_frame_length(config, 8);
    limited.receive(&[9]);
    assert_eq!(limited.peek_packet(false), Err(Error::PacketTooLarge));
}

#[test]
fn peek_packet_id_reads_the_number_of_the_next_frame() {
    let mut conn = connection();
    assert_eq!(conn.peek_packet_id(false), Ok(Poll::Pending));
    assert_eq!(conn.peek_packet_id(true), Err(Error::Io(IoErrorKind::UnexpectedEof)));
    conn.receive(&[0x02]);
    assert_eq!(conn.peek_packet_id(false), Ok(Poll::Pending));
    assert_eq!(conn.peek_packet_id(true), Err(Error::Io(IoErrorKind::ConnectionAborted)));
    conn.receive(&[0x07, 0x00]);
    assert_eq!(conn.peek_packet_id(false), Ok(Poll::Ready(7)));
    assert_eq!(conn.peek_packet_id(true), Ok(Poll::Ready(7)));
    assert_eq!(conn.buffer.len(), 3);
}

#[test]
fn frame_over_the_limit_is_refused_as_soon_as_its_length_is_known() {
    let config = connection().config.clone();
    let mut conn = Connection::with_max_frame_length(config, 8);
    assert_eq!(conn.max_frame_length, 8);
    conn.receive(&[9]);
    assert_eq!(conn.parse_packet_raw(), Err(Error::PacketTooLarge));
    assert!(matches!(conn.read_packet::<PingRequest>(false), Err(Error::PacketTooLarge)));
    assert!(matches!(conn.read_packet_raw(true), Err(Error::PacketTooLarge)));
    assert_eq!(conn.peek_packet_id(false), Err(Error::PacketTooLarge));
    assert_eq!(conn.buffer.len(), 1);
}

#[test]
fn frame_at_the_limit_is_accepted() {
    let config = connection().config.clone();
    let mut conn = Connection::with_max_frame_length(config, 9);
    conn.receive(&frame(&[0x01, 0, 0, 0, 0, 0, 0, 0, 5]));
    match conn.read_packet::<PingRequest>(false) {
        Ok(Poll::Ready(Some(ping))) => assert_eq!(ping.payload, 5),
        _ => panic!("expected a ping"),
    }
}

#[test]
fn connection_without_a_limit_accepts_any_length() {
    let mut conn = connection();
    assert_eq!(conn.max_frame_length, i32::MAX);
    conn.receive(&[0xff, 0xff, 0xff, 0xff, 0x07]);
    assert_eq!(conn.parse_packet_raw(), Ok(None));
    let payload = vec![0x42u8; 70000];
    conn = connection();
    conn.receive(&frame(&payload));
    assert_eq!(conn.parse_packet_raw(), Ok(Some(payload)));
}

#[test]
fn frame_of_another_packet_is_refused_and_stays_buffered() {
    let mut conn = connection();
    let bytes = frame(&[0x05]);
    conn.receive(&bytes);
    assert!(matches!(conn.parse_packet::<StatusRequest>(), Err(Error::InvalidPacketId(5))));
    assert!(matches!(
        conn.read_packet::<StatusRequest>(true),
        Err(Error::InvalidPacketId(5))
    ));
    assert_eq!(conn.buffer.len(), bytes.len());
    let mut ping = connection();
    ping.receive(&frame(&[0x00, 0, 0, 0, 0, 0, 0, 0, 1]));
    assert!(matches!(ping.parse_packet::<PingRequest>(), Err(Error::InvalidPacketId(0))));
    let mut negative = connection();
    negative.receive(&frame(&[0xff, 0xff, 0xff, 0xff, 0x0f]));
    assert!(matches!(negative.parse_packet::<StatusRequest>(), Err(Error::InvalidPacketId(-1))));
}
