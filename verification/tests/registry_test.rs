use iron_oxide::protocol::error::Error;
use iron_oxide::versions::registry::{
    json_to_nbt, load_tags, registry_entries, JsonNumber, JsonValue, NbtValue,
};

fn text(s: &str) -> JsonValue {
    JsonValue::String(s.to_string())
}

fn whole(n: i64) -> JsonValue {
    JsonValue::Number(JsonNumber::Integer(n))
}

fn object(fields: Vec<(&str, JsonValue)>) -> JsonValue {
    JsonValue::Object(fields.into_iter().map(|(k, v)| (k.to_string(), v)).collect())
}

fn same(a: &NbtValue, b: &NbtValue) -> bool {
    match (a, b) {
        (NbtValue::Byte(x), NbtValue::Byte(y)) => x == y,
        (NbtValue::Long(x), NbtValue::Long(y)) => x == y,
        (NbtValue::Double(x), NbtValue::Double(y)) => x == y,
        (NbtValue::String(x), NbtValue::String(y)) => x == y,
        (NbtValue::List(x), NbtValue::List(y)) => {
            x.len() == y.len() && x.iter().zip(y).all(|(p, q)| same(p, q))
        }
        (NbtValue::Compound(x), NbtValue::Compound(y)) => {
            x.len() == y.len() && x.iter().zip(y).all(|(p, q)| p.0 == q.0 && same(&p.1, &q.1))
        }
        _ => false,
    }
}

#[test]
fn each_kind_of_value_keeps_its_kind() {
    assert!(same(&json_to_nbt(&JsonValue::Null).unwrap(), &NbtValue::Compound(vec![])));
    assert!(same(&json_to_nbt(&JsonValue::Bool(true)).unwrap(), &NbtValue::Byte(1)));
    assert!(same(&json_to_nbt(&JsonValue::Bool(false)).unwrap(), &NbtValue::Byte(0)));
    assert!(same(&json_to_nbt(&whole(-7)).unwrap(), &NbtValue::Long(-7)));
    assert!(same(&json_to_nbt(&whole(i64::MAX)).unwrap(), &NbtValue::Long(i64::MAX)));
    let half = 0.5f64.to_bits();
    assert!(same(
        &json_to_nbt(&JsonValue::Number(JsonNumber::Float(half))).unwrap(),
        &NbtValue::Double(half)
    ));
    assert!(same(&json_to_nbt(&text("plains")).unwrap(), &NbtValue::String("plains".to_string())));
}

#[test]
fn arrays_and_objects_are_converted_item_by_item() {
    let json = object(vec![
        ("has_skylight", JsonValue::Bool(true)),
        ("height", whole(384)),
        ("effects", text("minecraft:overworld")),
        ("levels", JsonValue::Array(vec![whole(1), JsonValue::Null, JsonValue::Array(vec![])])),
        ("nested", object(vec![("deep", JsonValue::Array(vec![text("x")]))])),
    ]);
    let expected = NbtValue::Compound(vec![
        ("has_skylight".to_string(), NbtValue::Byte(1)),
        ("height".to_string(), NbtValue::Long(384)),
        ("effects".to_string(), NbtValue::String("minecraft:overworld".to_string())),
        (
            "levels".to_string(),
            NbtValue::List(vec![
                NbtValue::Long(1),
                NbtValue::Compound(vec![]),
                NbtValue::List(vec![]),
            ]),
        ),
        (
            "nested".to_string(),
            NbtValue::Compound(vec![(
                "deep".to_string(),
                NbtValue::List(vec![NbtValue::String("x".to_string())]),
            )]),
        ),
    ]);
    assert!(same(&json_to_nbt(&json).unwrap(), &expected));
}

#[test]
fn number_too_large_for_a_long_is_refused() {
    let large = JsonValue::Number(JsonNumber::Large(u64::MAX));
    assert_eq!(json_to_nbt(&large).unwrap_err(), Error::Protocol("Invalid i64 in JSON".to_string()));
    let nested = object(vec![("a", JsonValue::Array(vec![whole(1), large]))]);
    assert_eq!(
        json_to_nbt(&nested).unwrap_err(),
        Error::Protocol("Invalid i64 in JSON".to_string())
    );
}

#[test]
fn registries_are_the_objects_of_the_document() {
    let document = object(vec![
        (
            "minecraft:dimension_type",
            object(vec![
                ("minecraft:overworld", object(vec![("height", whole(384))])),
                ("minecraft:the_end", JsonValue::Null),
            ]),
        ),
        ("comment", text("not a registry")),
        ("minecraft:empty", object(vec![])),
    ]);
    let registries = registry_entries(&document).unwrap();
    assert_eq!(registries.len(), 2);
    assert_eq!(registries[0].0, "minecraft:dimension_type");
    assert_eq!(registries[0].1.len(), 2);
    assert_eq!(registries[0].1[0].0, "minecraft:overworld");
    assert!(same(
        &registries[0].1[0].1,
        &NbtValue::Compound(vec![("height".to_string(), NbtValue::Long(384))])
    ));
    assert_eq!(registries[0].1[1].0, "minecraft:the_end");
    assert!(same(&registries[0].1[1].1, &NbtValue::Compound(vec![])));
    assert_eq!(registries[1].0, "minecraft:empty");
    assert!(registries[1].1.is_empty());
    assert!(registry_entries(&JsonValue::Array(vec![])).unwrap().is_empty());
    assert!(registry_entries(&JsonValue::Null).unwrap().is_empty());
}

#[test]
fn registry_with_a_number_too_large_is_refused() {
    let large = JsonValue::Number(JsonNumber::Large(1 << 63));
    let document = object(vec![("minecraft:a", object(vec![("minecraft:b", large)]))]);
    assert_eq!(
        registry_entries(&document).unwrap_err(),
        Error::Protocol("Invalid i64 in JSON".to_string())
    );
    let outside = object(vec![("comment", JsonValue::Number(JsonNumber::Large(1 << 63)))]);
    assert!(registry_entries(&outside).unwrap().is_empty());
}

#[test]
fn tags_are_read_registry_by_registry() {
    let document = object(vec![
        (
            "minecraft:block",
            object(vec![
                ("minecraft:logs", JsonValue::Array(vec![whole(1), text("skip"), whole(2), whole(300)])),
                ("minecraft:none", JsonValue::Array(vec![])),
                ("minecraft:odd", text("no array")),
            ]),
        ),
        ("minecraft:item", JsonValue::Array(vec![whole(5)])),
        ("minecraft:fluid", object(vec![])),
    ]);
    let tags = load_tags(&document).unwrap();
    assert_eq!(
        tags,
        vec![
            (
                "minecraft:block".to_string(),
                vec![
                    ("minecraft:logs".to_string(), vec![1, 2, 300]),
                    ("minecraft:none".to_string(), vec![]),
                    ("minecraft:odd".to_string(), vec![]),
                ]
            ),
            ("minecraft:item".to_string(), vec![]),
            ("minecraft:fluid".to_string(), vec![]),
        ]
    );
    assert!(load_tags(&JsonValue::Null).unwrap().is_empty());
}

#[test]
fn tag_members_are_cut_to_32_bits() {
    let document = object(vec![(
        "r",
        object(vec![("t", JsonValue::Array(vec![whole((1 << 32) + 5), whole(-1), whole(i64::MIN)]))]),
    )]);
    assert_eq!(
        load_tags(&document).unwrap(),
        vec![("r".to_string(), vec![("t".to_string(), vec![5, -1, 0])])]
    );
}

#[test]
fn tag_member_that_is_no_whole_number_is_refused() {
    for number in [JsonNumber::Float(1.5f64.to_bits()), JsonNumber::Large(u64::MAX)] {
        let document = object(vec![(
            "r",
            object(vec![("t", JsonValue::Array(vec![whole(1), JsonValue::Number(number)]))]),
        )]);
        assert_eq!(
            load_tags(&document).unwrap_err(),
            Error::Protocol("Invalid i64 in tags".to_string())
        );
    }
}
