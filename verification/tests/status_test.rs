use std::sync::Arc;

use iron_oxide::common::config::{Config, Players, Server};
use iron_oxide::common::connection::{Action, Connection, ConnectionState, Phase};
use iron_oxide::protocol::error::{Error, IoErrorKind};
use iron_oxide::protocol::packet::handshake::Handshake;
use iron_oxide::protocol::packet::raw_data::{read_long, read_string, read_varint, write_varint};
use iron_oxide::server::connection_handler::handle_connection;
use iron_oxide::versions::v1_21_5::handlers::status::status_document;
use iron_oxide::versions::v1_21_5::packets::status::Status;

fn connection(max_players: i32, motd: &str) -> Connection {
    Connection::new(Arc::new(Config {
        server: Server {
            address: "127.0.0.1:25565".to_string(),
            motd: motd.to_string(),
            view_distance: 10,
            simulation_distance: 10,
        },
        players: Players { max_players },
    }))
}

fn frame(payload: &[u8]) -> Vec<u8> {
    let mut out = Vec::new();
    write_varint(&mut out, payload.len() as i32).unwrap();
    out.extend_from_slice(payload);
    out
}

fn to_json(status: &Status) -> String {
    let mut version = serde_json::Map::new();
    version.insert("name".to_string(), serde_json::Value::from(status.version.name.clone()));
    version.insert("protocol".to_string(), serde_json::Value::from(status.version.protocol));
    let mut players = serde_json::Map::new();
    players.insert("max".to_string(), serde_json::Value::from(status.players.max));
    players.insert("online".to_string(), serde_json::Value::from(status.players.online));
    players.insert("sample".to_string(), serde_json::Value::Array(Vec::new()));
    let mut description = serde_json::Map::new();
    description.insert("text".to_string(), serde_json::Value::from(status.description.text.clone()));
    let mut root = serde_json::Map::new();
    root.insert("version".to_string(), serde_json::Value::Object(version));
    root.insert("players".to_string(), serde_json::Value::Object(players));
    root.insert("description".to_string(), serde_json::Value::Object(description));
    if let Some(icon) = &status.favicon {
        root.insert("favicon".to_string(), serde_json::Value::from(icon.clone()));
    }
    serde_json::to_string(&serde_json::Value::Object(root)).unwrap()
}

fn in_status(max_players: i32, motd: &str) -> (Connection, String) {
    let mut conn = connection(max_players, motd);
    let hello = conn
        .write_packet(&Handshake {
            protocol_version: 770,
            server_address: "localhost".to_string(),
            server_port: 25565,
            next_state: 1,
        })
        .unwrap();
    conn.receive(&hello);
    assert_eq!(handle_connection(&mut conn, false, "", None), Ok(Action::Continue));
    assert_eq!(conn.state, ConnectionState::Status);
    let json = to_json(&status_document(
        conn.config.players.max_players,
        conn.config.server.motd.clone(),
    ));
    (conn, json)
}

fn only_frame(action: Action) -> Vec<u8> {
    match action {
        Action::Write(mut frames) => {
            assert_eq!(frames.len(), 1);
            frames.remove(0)
        }
        other => panic!("expected one frame, got {:?}", other),
    }
}

#[test]
fn status_document_describes_the_server() {
    let status = status_document(20, "A Test Server".to_string());
    assert_eq!(status.version.name, "1.21.5");
    assert_eq!(status.version.protocol, 770);
    assert_eq!(status.players.max, 20);
    assert_eq!(status.players.online, 0);
    assert!(status.players.sample.is_empty());
    assert_eq!(status.description.text, "A Test Server");
    assert!(status.favicon.is_none());
}

#[test]
fn status_request_and_ping_are_answered() {
    let (mut conn, json) = in_status(20, "A Test Server");
    conn.receive(&frame(&[0x00]));
    let response = only_frame(handle_connection(&mut conn, false, &json, None).unwrap());
    assert_eq!(conn.phase, Phase::Answered);
    let mut cursor: &[u8] = &response;
    let length = read_varint(&mut cursor).unwrap();
    assert_eq!(length as usize, cursor.len());
    assert_eq!(read_varint(&mut cursor), Ok(0x00));
    let text = read_string(&mut cursor).unwrap();
    assert!(cursor.is_empty());
    let document: serde_json::Value = serde_json::from_str(&text).unwrap();
    assert_eq!(document["players"]["max"], serde_json::Value::from(20));
    assert_eq!(document["players"]["online"], serde_json::Value::from(0));
    assert_eq!(document["description"]["text"], serde_json::Value::from("A Test Server"));
    assert_eq!(document["version"]["protocol"], serde_json::Value::from(770));
    assert_eq!(document["version"]["name"], serde_json::Value::from("1.21.5"));
    assert!(document.get("favicon").is_none());

    assert_eq!(handle_connection(&mut conn, false, &json, None), Ok(Action::Read));
    let mut ping = vec![0x01];
    ping.extend_from_slice(&1234567890i64.to_be_bytes());
    conn.receive(&frame(&ping));
    let pong = only_frame(handle_connection(&mut conn, false, &json, None).unwrap());
    let mut cursor: &[u8] = &pong;
    assert_eq!(read_varint(&mut cursor), Ok(9));
    assert_eq!(read_varint(&mut cursor), Ok(0x01));
    assert_eq!(read_long(&mut cursor), Ok(1234567890));
    assert!(cursor.is_empty());
    assert_eq!(conn.phase, Phase::Finishing);
    assert_eq!(handle_connection(&mut conn, false, &json, None), Ok(Action::Close));
    assert_eq!(conn.state, ConnectionState::Status);
}

#[test]
fn leaving_after_the_response_is_no_error() {
    let (mut conn, json) = in_status(20, "A Test Server");
    conn.receive(&frame(&[0x00]));
    only_frame(handle_connection(&mut conn, false, &json, None).unwrap());
    assert_eq!(handle_connection(&mut conn, true, &json, None), Ok(Action::Close));
}

#[test]
fn leaving_before_the_request_is_a_protocol_error() {
    let (mut conn, json) = in_status(20, "A Test Server");
    assert_eq!(handle_connection(&mut conn, false, &json, None), Ok(Action::Read));
    assert_eq!(
        handle_connection(&mut conn, true, &json, None),
        Err(Error::Protocol("StatusRequest packet not received".to_string()))
    );
}

#[test]
fn short_read_during_status_is_an_error() {
    let (mut conn, json) = in_status(20, "A Test Server");
    conn.receive(&frame(&[0x00]));
    only_frame(handle_connection(&mut conn, false, &json, None).unwrap());
    conn.receive(&frame(&[0x01, 1, 2, 3]));
    assert_eq!(
        handle_connection(&mut conn, false, &json, None),
        Err(Error::Io(IoErrorKind::UnexpectedEof))
    );
    assert_eq!(conn.phase, Phase::Answered);
    let (mut empty, json) = in_status(20, "A Test Server");
    empty.receive(&[0x00]);
    assert_eq!(
        handle_connection(&mut empty, false, &json, None),
        Err(Error::Io(IoErrorKind::UnexpectedEof))
    );
    assert_eq!(empty.phase, Phase::Entered);
    let (mut other, json) = in_status(20, "A Test Server");
    other.receive(&[0xff, 0xff, 0xff, 0xff, 0xff, 0xff]);
    assert_eq!(handle_connection(&mut other, false, &json, None), Err(Error::InvalidVarInt));
}

#[test]
fn pong_echoes_any_number() {
    for number in [0i64, -1, i64::MIN, i64::MAX, 1234567890] {
        let (mut conn, json) = in_status(1, "x");
        conn.receive(&frame(&[0x00]));
        only_frame(handle_connection(&mut conn, false, &json, None).unwrap());
        let mut ping = vec![0x01];
        ping.extend_from_slice(&number.to_be_bytes());
        conn.receive(&frame(&ping));
        let pong = only_frame(handle_connection(&mut conn, false, &json, None).unwrap());
        assert_eq!(&pong[2..], &number.to_be_bytes());
    }
}

#[test]
fn packet_of_another_number_fails_the_status_stage() {
    let (mut conn, json) = in_status(20, "A Test Server");
    conn.receive(&frame(&[0x01, 0, 0, 0, 0, 0, 0, 0, 1]));
    assert_eq!(handle_connection(&mut conn, false, &json, None), Err(Error::InvalidPacketId(1)));
    let (mut conn, json) = in_status(20, "A Test Server");
    conn.receive(&frame(&[0x00]));
    only_frame(handle_connection(&mut conn, false, &json, None).unwrap());
    conn.receive(&frame(&[0x00]));
    assert_eq!(handle_connection(&mut conn, false, &json, None), Err(Error::InvalidPacketId(0)));
    assert_eq!(conn.phase, Phase::Answered);
}
