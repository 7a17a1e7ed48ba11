use std::sync::Arc;

use iron_oxide::common::config::{Config, Players, Server};
use iron_oxide::common::connection::{Action, Connection, ConnectionState, Phase};
use iron_oxide::protocol::error::{Error, IoErrorKind, VersionError};
use iron_oxide::protocol::packet::handshake::Handshake;
use iron_oxide::protocol::packet::raw_data::write_varint;
use iron_oxide::server::connection_handler::handle_connection;
use iron_oxide::server::handlers::handshake::handle_handshake;
use iron_oxide::versions::{v1_20_6, v1_21_5, Version, VersionManager};

fn connection() -> Connection {
    Connection::new(Arc::new(Config {
        server: Server {
            address: "127.0.0.1:25565".to_string(),
            motd: "A Test Server".to_string(),
            view_distance: 10,
            simulation_distance: 10,
        },
        players: Players { max_players: 20 },
    }))
}

fn frame(payload: &[u8]) -> Vec<u8> {
    let mut out = Vec::new();
    write_varint(&mut out, payload.len() as i32).unwrap();
    out.extend_from_slice(payload);
    out
}

fn handshake(protocol_version: i32, next_state: i32) -> Vec<u8> {
    connection()
        .write_packet(&Handshake {
            protocol_version,
            server_address: "play.example.org".to_string(),
            server_port: 25565,
            next_state,
        })
        .unwrap()
}

#[test]
fn version_table_holds_770_only() {
    assert_eq!(VersionManager::get_version(770).unwrap().protocol_version(), 770);
    for version in [0, 1, 47, 766, 769, 771, -1, i32::MAX, i32::MIN] {
        match VersionManager::get_version(version) {
            Err(VersionError::UnsupportedVersion(v)) => assert_eq!(v, version),
            Ok(_) => panic!("version {} is not supported", version),
        }
    }
    assert_eq!(v1_21_5::VersionImpl.protocol_version(), 770);
    assert_eq!(v1_21_5::V1_21_5.protocol_version(), 770);
    assert_eq!(v1_20_6::VersionImpl.protocol_version(), 766);
    assert_eq!(v1_20_6::V1_20_6.protocol_version(), 766);
}

#[test]
fn version_error_becomes_the_same_error() {
    assert_eq!(Error::from(VersionError::UnsupportedVersion(5)), Error::UnsupportedVersion(5));
}

#[test]
fn handshake_for_status_enters_status() {
    let mut conn = connection();
    conn.receive(&handshake(770, 1));
    assert_eq!(handle_handshake(&mut conn, false), Ok(Action::Continue));
    assert_eq!(conn.state, ConnectionState::Status);
    assert_eq!(conn.phase, Phase::Entered);
    assert_eq!(conn.protocol_version, 770);
    assert!(conn.buffer.is_empty());
}

#[test]
fn handshake_for_login_enters_login() {
    let mut conn = connection();
    conn.receive(&handshake(770, 2));
    assert_eq!(handle_connection(&mut conn, false, "{}", None), Ok(Action::Continue));
    assert_eq!(conn.state, ConnectionState::Login);
    assert_eq!(conn.protocol_version, 770);
}

#[test]
fn handshake_waits_for_its_bytes() {
    let mut conn = connection();
    assert_eq!(handle_connection(&mut conn, false, "{}", None), Ok(Action::Read));
    let bytes = handshake(770, 1);
    conn.receive(&bytes[..5]);
    assert_eq!(handle_connection(&mut conn, false, "{}", None), Ok(Action::Read));
    assert_eq!(conn.state, ConnectionState::Handshaking);
    conn.receive(&bytes[5..]);
    assert_eq!(handle_connection(&mut conn, false, "{}", None), Ok(Action::Continue));
    assert_eq!(conn.state, ConnectionState::Status);
}

#[test]
fn next_state_other_than_status_or_login_is_rejected() {
    for (next_state, text) in [
        (0, "Invalid next state: 0"),
        (3, "Invalid next state: 3"),
        (-1, "Invalid next state: -1"),
        (i32::MAX, "Invalid next state: 2147483647"),
        (i32::MIN, "Invalid next state: -2147483648"),
    ] {
        let mut conn = connection();
        conn.receive(&handshake(770, next_state));
        assert_eq!(
            handle_connection(&mut conn, false, "{}", None),
            Err(Error::Protocol(text.to_string()))
        );
        assert_eq!(conn.state, ConnectionState::Handshaking);
        assert_eq!(conn.protocol_version, 770);
    }
}

#[test]
fn unregistered_version_is_rejected_before_any_stage() {
    for next_state in [1, 2, 3] {
        for version in [0, 766, 769, 771, -1] {
            let mut conn = connection();
            conn.receive(&handshake(version, next_state));
            assert_eq!(
                handle_connection(&mut conn, false, "{}", None),
                Err(Error::UnsupportedVersion(version))
            );
            assert_eq!(conn.state, ConnectionState::Handshaking);
            assert_eq!(conn.protocol_version, version);
        }
    }
}

#[test]
fn frame_that_is_no_handshake_is_rejected_while_handshaking() {
    let mut ping = connection();
    ping.receive(&frame(&[0x01, 0, 0, 0, 0, 0, 0, 0, 1]));
    assert_eq!(handle_connection(&mut ping, false, "{}", None), Err(Error::InvalidPacketId(1)));
    assert_eq!(ping.state, ConnectionState::Handshaking);
    let mut request = connection();
    request.receive(&frame(&[0x00]));
    assert_eq!(
        handle_connection(&mut request, false, "{}", None),
        Err(Error::Io(IoErrorKind::UnexpectedEof))
    );
    assert_eq!(request.state, ConnectionState::Handshaking);
    let mut junk = connection();
    junk.receive(&frame(&[0x00, 0x82, 0x06, 0x7f, b'x']));
    assert!(handle_connection(&mut junk, false, "{}", None).is_err());
    assert_eq!(junk.state, ConnectionState::Handshaking);
}

#[test]
fn handshake_under_another_number_is_rejected() {
    for number in [1u8, 2, 5, 0x7f] {
        let mut bytes = handshake(770, 1);
        assert_eq!(bytes[1], 0x00);
        bytes[1] = number;
        let mut conn = connection();
        conn.receive(&bytes);
        assert_eq!(
            handle_connection(&mut conn, false, "{}", None),
            Err(Error::InvalidPacketId(number as i32))
        );
        assert_eq!(conn.state, ConnectionState::Handshaking);
        assert_eq!(conn.protocol_version, 0);
        assert_eq!(conn.buffer.len(), bytes.len());
    }
}

#[test]
fn close_before_the_handshake_is_a_protocol_error() {
    let mut conn = connection();
    assert_eq!(
        handle_connection(&mut conn, true, "{}", None),
        Err(Error::Protocol("Handshake packet not received".to_string()))
    );
    let mut cut = connection();
    cut.receive(&handshake(770, 1)[..3]);
    assert_eq!(
        handle_connection(&mut cut, true, "{}", None),
        Err(Error::Io(IoErrorKind::ConnectionAborted))
    );
}

#[test]
fn play_closes_the_connection() {
    let mut conn = connection();
    conn.state = ConnectionState::Play;
    assert_eq!(handle_connection(&mut conn, false, "{}", None), Ok(Action::Close));
    assert_eq!(conn.state, ConnectionState::Play);
}

#[test]
fn stage_of_an_unsupported_version_is_refused() {
    for state in [ConnectionState::Status, ConnectionState::Login, ConnectionState::Configuration] {
        let mut conn = connection();
        conn.state = state;
        conn.protocol_version = 766;
        conn.receive(&frame(&[0x00]));
        assert_eq!(
            handle_connection(&mut conn, false, "{}", None),
            Err(Error::UnsupportedVersion(766))
        );
        assert_eq!(conn.buffer.len(), 2);
    }
}
