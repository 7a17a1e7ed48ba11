use iron_oxide::protocol::error::{Error, IoErrorKind};
use iron_oxide::protocol::packet::data::PacketData;
use iron_oxide::protocol::packet::handshake::Handshake;
use iron_oxide::protocol::packet::status::{
    PingRequest, PongResponse, StatusRequest, StatusResponse,
};
use iron_oxide::protocol::packet::types::{PacketBytes, Uuid};
use iron_oxide::protocol::packet::{
    Decodable, Encodable, Packet, PacketReadError, PacketWriteError,
};
use iron_oxide::versions::v1_21_5::packets::configuration::{
    read_feature_flags, read_known_packs, read_tags, write_feature_flags, write_known_packs,
    write_tags, AcknowledgeFinishConfiguration, ClientInformation, ClientboundKnownPacks,
    ClientboundPluginMessage, FeatureFlags, FinishConfiguration, KnownPack, RegistryData,
    ServerboundKnownPacks, ServerboundPluginMessage, UpdateTags,
};
use iron_oxide::versions::v1_21_5::packets::login::{
    read_properties, write_properties, LoginAcknowledged, LoginStart, Property,
};

fn written<T: Encodable>(packet: &T) -> Vec<u8> {
    let mut out = Vec::new();
    packet.write(&mut out).unwrap();
    out
}

#[test]
fn packet_numbers() {
    assert_eq!(Handshake::packet_id(), 0x00);
    assert_eq!(StatusRequest::packet_id(), 0x00);
    assert_eq!(StatusResponse::packet_id(), 0x00);
    assert_eq!(PingRequest::packet_id(), 0x01);
    assert_eq!(PongResponse::packet_id(), 0x01);
    assert_eq!(LoginStart::packet_id(), 0x00);
    assert_eq!(LoginAcknowledged::packet_id(), 0x03);
    assert_eq!(ClientboundPluginMessage::packet_id(), 0x01);
    assert_eq!(FinishConfiguration::packet_id(), 0x03);
    assert_eq!(ClientboundKnownPacks::packet_id(), 0x0e);
    assert_eq!(RegistryData::packet_id(), 0x07);
    assert_eq!(ClientInformation::packet_id(), 0x00);
    assert_eq!(ServerboundPluginMessage::packet_id(), 0x02);
    assert_eq!(AcknowledgeFinishConfiguration::packet_id(), 0x03);
    assert_eq!(ServerboundKnownPacks::packet_id(), 0x07);
    assert_eq!(FeatureFlags::packet_id(), 0x0c);
    assert_eq!(UpdateTags::packet_id(), 0x0d);
}

#[test]
fn handshake_round_trips() {
    for (version, address, port, next) in [
        (770, "localhost".to_string(), 25565u16, 1),
        (0, String::new(), 0, 0),
        (-1, "a".repeat(32767), u16::MAX, i32::MIN),
        (i32::MAX, "\u{e9}".to_string(), 1, i32::MAX),
    ] {
        let bytes = written(&Handshake {
            protocol_version: version,
            server_address: address.clone(),
            server_port: port,
            next_state: next,
        });
        assert_eq!(bytes[0], 0x00);
        let mut cursor: &[u8] = &bytes[1..];
        let back = Handshake::read(&mut cursor).unwrap();
        assert!(cursor.is_empty());
        assert_eq!(back.protocol_version, version);
        assert_eq!(back.server_address, address);
        assert_eq!(back.server_port, port);
        assert_eq!(back.next_state, next);
    }
}

#[test]
fn status_packets_round_trip() {
    let bytes = written(&StatusResponse { response: "{\"a\":1}".to_string() });
    assert_eq!(bytes[0], 0x00);
    let mut cursor: &[u8] = &bytes[1..];
    assert_eq!(String::read(&mut cursor), Ok("{\"a\":1}".to_string()));
    for number in [0i64, -1, i64::MIN, i64::MAX] {
        let bytes = written(&PongResponse { payload: number });
        assert_eq!(bytes[0], 0x01);
        let mut cursor: &[u8] = &bytes[1..];
        assert_eq!(PingRequest::read(&mut cursor).unwrap().payload, number);
        assert!(cursor.is_empty());
    }
    let mut empty: &[u8] = &[];
    assert!(StatusRequest::read(&mut empty).is_ok());
    assert!(LoginAcknowledged::read(&mut empty).is_ok());
    assert!(AcknowledgeFinishConfiguration::read(&mut empty).is_ok());
    assert_eq!(written(&FinishConfiguration), vec![0x03]);
}

#[test]
fn login_start_round_trips() {
    let mut bytes = Vec::new();
    ("Steve".to_string(), Uuid::from_bytes([9u8; 16])).write(&mut bytes).unwrap();
    let mut cursor: &[u8] = &bytes;
    let start = LoginStart::read(&mut cursor).unwrap();
    assert!(cursor.is_empty());
    assert_eq!(start.name, "Steve");
    assert_eq!(start.uuid, Uuid::from_bytes([9u8; 16]));
    let mut cut: &[u8] = &bytes[..bytes.len() - 1];
    assert!(matches!(LoginStart::read(&mut cut), Err(Error::Io(IoErrorKind::UnexpectedEof))));
    assert_eq!(cut.len(), bytes.len() - 1);
}

#[test]
fn properties_round_trip() {
    let properties = vec![
        Property { name: "textures".to_string(), value: "abc".to_string(), signature: None },
        Property {
            name: "n".to_string(),
            value: String::new(),
            signature: Some("sig".to_string()),
        },
    ];
    let mut bytes = Vec::new();
    write_properties(&properties, &mut bytes).unwrap();
    let mut cursor: &[u8] = &bytes;
    let back = read_properties(&mut cursor).unwrap();
    assert!(cursor.is_empty());
    assert_eq!(back.len(), 2);
    assert_eq!(back[0].name, "textures");
    assert_eq!(back[0].value, "abc");
    assert_eq!(back[0].signature, None);
    assert_eq!(back[1].signature, Some("sig".to_string()));
    let mut one = Vec::new();
    properties[1].write(&mut one).unwrap();
    assert_eq!(one, vec![1, b'n', 0, 1, 3, b's', b'i', b'g']);
}

#[test]
fn known_packs_round_trip() {
    let packs = vec![
        KnownPack {
            namespace: "minecraft".to_string(),
            id: "core".to_string(),
            version: "1.21.5".to_string(),
        },
        KnownPack { namespace: String::new(), id: String::new(), version: String::new() },
    ];
    let mut bytes = Vec::new();
    write_known_packs(&packs, &mut bytes).unwrap();
    assert_eq!(written(&ClientboundKnownPacks { packs: packs.clone() })[1..], bytes[..]);
    let mut cursor: &[u8] = &bytes;
    let back = read_known_packs(&mut cursor).unwrap();
    assert_eq!(back.len(), 2);
    assert_eq!(back[0].namespace, "minecraft");
    assert_eq!(back[0].id, "core");
    assert_eq!(back[0].version, "1.21.5");
    let mut cursor: &[u8] = &bytes;
    assert_eq!(ServerboundKnownPacks::read(&mut cursor).unwrap().packs.len(), 2);
    assert!(cursor.is_empty());
}

#[test]
fn feature_flags_and_tags_round_trip() {
    let flags = vec!["minecraft:vanilla".to_string(), String::new()];
    let mut bytes = Vec::new();
    write_feature_flags(&flags, &mut bytes).unwrap();
    assert_eq!(written(&FeatureFlags { feature_flags: flags.clone() })[1..], bytes[..]);
    let mut cursor: &[u8] = &bytes;
    assert_eq!(read_feature_flags(&mut cursor), Ok(flags));
    let tags = vec![
        ("minecraft:block".to_string(), vec![("a".to_string(), vec![0, -1, i32::MAX, i32::MIN])]),
        ("minecraft:item".to_string(), vec![]),
    ];
    let mut bytes = Vec::new();
    write_tags(&tags, &mut bytes).unwrap();
    assert_eq!(written(&UpdateTags { tags: tags.clone() })[1..], bytes[..]);
    let mut cursor: &[u8] = &bytes;
    assert_eq!(read_tags(&mut cursor), Ok(tags));
    assert!(cursor.is_empty());
}

#[test]
fn client_information_is_read_in_wire_order() {
    let bytes = [5, b'e', b'n', b'_', b'u', b's', 12, 2, 1, 0x7f, 1, 0, 7];
    let mut cursor: &[u8] = &bytes;
    let info = ClientInformation::read(&mut cursor).unwrap();
    assert!(cursor.is_empty());
    assert_eq!(info.locale, "en_us");
    assert_eq!(info.view_distance, 12);
    assert_eq!(info.chat_mode, 2);
    assert!(info.chat_colors);
    assert_eq!(info.displayed_skin_parts, 0x7f);
    assert_eq!(info.main_hand, 1);
    assert!(!info.enable_text_filtering);
    assert!(info.allow_server_listings);
    let mut cut: &[u8] = &bytes[..12];
    assert!(matches!(
        ClientInformation::read(&mut cut),
        Err(Error::Io(IoErrorKind::UnexpectedEof))
    ));
}

#[test]
fn plugin_messages_carry_the_rest_of_the_packet() {
    let out = written(&ClientboundPluginMessage {
        channel: "a:b".to_string(),
        data: vec![1, 2, 3],
    });
    assert_eq!(out, vec![0x01, 3, b'a', b':', b'b', 1, 2, 3]);
    let mut cursor: &[u8] = &out[1..];
    let message = ServerboundPluginMessage::read(&mut cursor).unwrap();
    assert!(cursor.is_empty());
    assert_eq!(message.channel, "a:b");
    assert_eq!(message.data, vec![1, 2, 3]);
}

#[test]
fn registry_data_marks_the_entries_that_have_a_value() {
    let out = written(&RegistryData {
        registry_id: "r".to_string(),
        entries: vec![
            ("a".to_string(), Some(PacketBytes(vec![0x0a, 0x00]))),
            ("b".to_string(), None),
        ],
    });
    assert_eq!(out, vec![0x07, 1, b'r', 2, 1, b'a', 1, 0x0a, 0x00, 1, b'b', 0]);
}

#[test]
fn read_and_write_errors_become_errors() {
    assert_eq!(
        Error::from(PacketReadError::IO(IoErrorKind::UnexpectedEof)),
        Error::Io(IoErrorKind::UnexpectedEof)
    );
    assert_eq!(Error::from(PacketReadError::InvalidVarInt), Error::InvalidVarInt);
    assert_eq!(Error::from(PacketReadError::InvalidString), Error::InvalidString);
    assert_eq!(Error::from(PacketReadError::InvalidUuid), Error::InvalidUuid);
    assert_eq!(Error::from(PacketReadError::UnexpectedEof), Error::UnexpectedEof);
    assert_eq!(
        Error::from(PacketWriteError::IO(IoErrorKind::Other)),
        Error::Io(IoErrorKind::Other)
    );
    assert_eq!(Error::protocol("x"), Error::Protocol("x".to_string()));
}
