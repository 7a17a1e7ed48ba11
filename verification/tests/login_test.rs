use std::sync::Arc;

use iron_oxide::common::config::{Config, Players, Server};
use iron_oxide::common::connection::{Action, Connection, ConnectionState, Phase};
use iron_oxide::protocol::error::Error;
use iron_oxide::protocol::packet::handshake::Handshake;
use iron_oxide::protocol::packet::raw_data::{
    read_string, read_uuid, read_varint, write_string, write_varint,
};
use iron_oxide::protocol::packet::types::Uuid;
use iron_oxide::protocol::packet::Encodable;
use iron_oxide::server::connection_handler::handle_connection;
use iron_oxide::versions::v1_20_6;
use iron_oxide::versions::v1_21_5::handlers::login::{namespace_dns, offline_uuid};
use iron_oxide::versions::v1_21_5::packets::login::{LoginSuccess, Property};

fn connection() -> Connection {
    Connection::new(Arc::new(Config {
        server: Server {
            address: "127.0.0.1:25565".to_string(),
            motd: "A Test Server".to_string(),
            view_distance: 10,
            simulation_distance: 10,
        },
        players: Players { max_players: 20 },
    }))
}

fn frame(payload: &[u8]) -> Vec<u8> {
    let mut out = Vec::new();
    write_varint(&mut out, payload.len() as i32).unwrap();
    out.extend_from_slice(payload);
    out
}

fn in_login() -> Connection {
    let mut conn = connection();
    let hello = conn
        .write_packet(&Handshake {
            protocol_version: 770,
            server_address: "localhost".to_string(),
            server_port: 25565,
            next_state: 2,
        })
        .unwrap();
    conn.receive(&hello);
    assert_eq!(handle_connection(&mut conn, false, "", None), Ok(Action::Continue));
    assert_eq!(conn.state, ConnectionState::Login);
    conn
}

fn login_start(name: &str) -> Vec<u8> {
    let mut payload = vec![0x00];
    write_string(&mut payload, name).unwrap();
    payload.extend_from_slice(&[0u8; 16]);
    frame(&payload)
}

#[test]
fn namespace_is_that_of_domain_names() {
    assert_eq!(&namespace_dns(), uuid::Uuid::NAMESPACE_DNS.as_bytes());
}

#[test]
fn offline_identifier_is_the_same_for_the_same_name() {
    for name in ["Steve", "Alex", "", "Notch", "\u{e9}\u{1f600}"] {
        let first = offline_uuid(name);
        let second = offline_uuid(name);
        assert_eq!(first, second);
        let expected = uuid::Uuid::new_v3(
            &uuid::Uuid::NAMESPACE_DNS,
            format!("OfflinePlayer:{}", name).as_bytes(),
        );
        assert_eq!(first.as_bytes(), expected.as_bytes());
        assert_eq!(first.as_bytes()[6] >> 4, 3);
    }
    assert_ne!(offline_uuid("Steve"), offline_uuid("Alex"));
    assert_ne!(offline_uuid("Steve").as_bytes(), &[0u8; 16]);
    assert_ne!(offline_uuid("Steve").as_bytes(), &namespace_dns());
}

#[test]
fn login_admits_the_player_and_waits_for_the_acknowledgement() {
    let mut conn = in_login();
    assert_eq!(handle_connection(&mut conn, false, "", None), Ok(Action::Read));
    conn.receive(&login_start("Steve"));
    let frames = match handle_connection(&mut conn, false, "", None).unwrap() {
        Action::Write(frames) => frames,
        other => panic!("expected a login success, got {:?}", other),
    };
    assert_eq!(frames.len(), 1);
    assert_eq!(conn.state, ConnectionState::Login);
    assert_eq!(conn.phase, Phase::Answered);
    let mut cursor: &[u8] = &frames[0];
    let length = read_varint(&mut cursor).unwrap();
    assert_eq!(length as usize, cursor.len());
    assert_eq!(read_varint(&mut cursor), Ok(0x02));
    assert_eq!(read_uuid(&mut cursor), Ok(offline_uuid("Steve")));
    assert_eq!(read_string(&mut cursor), Ok("Steve".to_string()));
    assert_eq!(read_varint(&mut cursor), Ok(0));
    assert!(cursor.is_empty());

    assert_eq!(handle_connection(&mut conn, false, "", None), Ok(Action::Read));
    conn.receive(&frame(&[0x03]));
    assert_eq!(handle_connection(&mut conn, false, "", None), Ok(Action::Continue));
    assert_eq!(conn.state, ConnectionState::Configuration);
    assert_eq!(conn.phase, Phase::Entered);
    assert!(conn.buffer.is_empty());
}

#[test]
fn leaving_during_login_is_a_protocol_error() {
    let mut conn = in_login();
    assert_eq!(
        handle_connection(&mut conn, true, "", None),
        Err(Error::Protocol("LoginStart packet not received".to_string()))
    );
    let mut conn = in_login();
    conn.receive(&login_start("Steve"));
    handle_connection(&mut conn, false, "", None).unwrap();
    assert_eq!(
        handle_connection(&mut conn, true, "", None),
        Err(Error::Protocol("LoginAcknowledged packet not received".to_string()))
    );
    assert_eq!(conn.state, ConnectionState::Login);
}

#[test]
fn login_success_lays_out_its_properties() {
    let success = LoginSuccess {
        uuid: Uuid::from_bytes([7u8; 16]),
        username: "Al".to_string(),
        properties: vec![
            Property { name: "a".to_string(), value: "b".to_string(), signature: None },
            Property {
                name: "c".to_string(),
                value: "d".to_string(),
                signature: Some("e".to_string()),
            },
        ],
    };
    let mut out = Vec::new();
    success.write(&mut out).unwrap();
    let mut expected = vec![0x02];
    expected.extend_from_slice(&[7u8; 16]);
    expected.extend_from_slice(&[2, b'A', b'l', 2]);
    expected.extend_from_slice(&[1, b'a', 1, b'b', 0]);
    expected.extend_from_slice(&[1, b'c', 1, b'd', 1, 1, b'e']);
    assert_eq!(out, expected);

    let older = v1_20_6::packets::login::LoginSuccess {
        uuid: Uuid::from_bytes([7u8; 16]),
        username: "Al".to_string(),
        properties: Vec::new(),
        enforce_secure_chat: true,
    };
    let mut out = Vec::new();
    older.write(&mut out).unwrap();
    let mut expected = vec![0x02];
    expected.extend_from_slice(&[7u8; 16]);
    expected.extend_from_slice(&[2, b'A', b'l', 0, 1]);
    assert_eq!(out, expected);
}

#[test]
fn packet_of_another_number_fails_the_login_stage() {
    let mut conn = in_login();
    conn.receive(&frame(&[0x03]));
    assert_eq!(handle_connection(&mut conn, false, "", None), Err(Error::InvalidPacketId(3)));
    let mut conn = in_login();
    conn.receive(&login_start("Steve"));
    handle_connection(&mut conn, false, "", None).unwrap();
    conn.receive(&login_start("Steve"));
    assert_eq!(handle_connection(&mut conn, false, "", None), Err(Error::InvalidPacketId(0)));
    assert_eq!(conn.state, ConnectionState::Login);
}
