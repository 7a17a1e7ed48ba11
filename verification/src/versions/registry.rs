//! The documents that the configuration stage draws on, as the values they
//! hold, and what is made of them for the wire.

use crate::protocol::error::{Error, Failure, Result};
use crate::versions::v1_20_6::packets::configuration::{Tag, TagRegistry};
use vstd::prelude::*;

verus! {

/// A number of a JSON document.
#[derive(Debug, Clone, Copy, PartialEq, Eq, Structural)]
pub enum JsonNumber {
    /// A whole number that fits in 64 bits with a sign.
    Integer(i64),
    /// A whole number too large for that.
    Large(u64),
    /// A number with a fraction or an exponent, as the bits of its double.
    Float(u64),
}

/// A JSON document.
#[derive(Debug)]
pub enum JsonValue {
    Null,
    Bool(bool),
    Number(JsonNumber),
    String(String),
    Array(Vec<JsonValue>),
    Object(Vec<(String, JsonValue)>),
}

/// A JSON document as contracts speak of it.
pub enum JsonModel {
    Null,
    Bool(bool),
    Number(JsonNumber),
    String(Seq<char>),
    Array(Seq<JsonModel>),
    Object(Seq<(Seq<char>, JsonModel)>),
}

/// The document that a value holds.
pub open spec fn json_model(json: JsonValue) -> JsonModel
    decreases json,
{
    match json {
        JsonValue::Null => JsonModel::Null,
        JsonValue::Bool(b) => JsonModel::Bool(b),
        JsonValue::Number(n) => JsonModel::Number(n),
        JsonValue::String(text) => JsonModel::String(text@),
        JsonValue::Array(items) => JsonModel::Array(
            Seq::new(
                items@.len(),
                |i: int|
                    if 0 <= i < items@.len() {
                        json_model(items@[i])
                    } else {
                        JsonModel::Null
                    },
            ),
        ),
        JsonValue::Object(fields) => JsonModel::Object(
            Seq::new(
                fields@.len(),
                |i: int|
                    if 0 <= i < fields@.len() {
                        (fields@[i].0@, json_model(fields@[i].1))
                    } else {
                        (Seq::empty(), JsonModel::Null)
                    },
            ),
        ),
    }
}

impl DeepView for JsonValue {
    type V = JsonModel;

    open spec fn deep_view(&self) -> JsonModel {
        json_model(*self)
    }
}

/// A value of the tag model, as far as JSON documents give rise to one. A
/// double is held as its bits.
#[derive(Debug)]
pub enum NbtValue {
    Byte(i8),
    Long(i64),
    Double(u64),
    String(String),
    List(Vec<NbtValue>),
    Compound(Vec<(String, NbtValue)>),
}

/// A value of the tag model as contracts speak of it.
pub enum NbtModel {
    Byte(i8),
    Long(i64),
    Double(u64),
    String(Seq<char>),
    List(Seq<NbtModel>),
    Compound(Seq<(Seq<char>, NbtModel)>),
}

/// The value of the tag model that a value holds.
pub open spec fn nbt_model(value: NbtValue) -> NbtModel
    decreases value,
{
    match value {
        NbtValue::Byte(b) => NbtModel::Byte(b),
        NbtValue::Long(n) => NbtModel::Long(n),
        NbtValue::Double(bits) => NbtModel::Double(bits),
        NbtValue::String(text) => NbtModel::String(text@),
        NbtValue::List(items) => NbtModel::List(
            Seq::new(
                items@.len(),
                |i: int|
                    if 0 <= i < items@.len() {
                        nbt_model(items@[i])
                    } else {
                        NbtModel::Byte(0)
                    },
            ),
        ),
        NbtValue::Compound(fields) => NbtModel::Compound(
            Seq::new(
                fields@.len(),
                |i: int|
                    if 0 <= i < fields@.len() {
                        (fields@[i].0@, nbt_model(fields@[i].1))
                    } else {
                        (Seq::empty(), NbtModel::Byte(0))
                    },
            ),
        ),
    }
}

impl DeepView for NbtValue {
    type V = NbtModel;

    open spec fn deep_view(&self) -> NbtModel {
        nbt_model(*self)
    }
}

/// Whether a document can be told in the tag model: it can unless a whole
/// number in it is too large for 64 bits with a sign.
pub open spec fn convertible(json: JsonModel) -> bool
    decreases json,
{
    match json {
        JsonModel::Number(JsonNumber::Large(_)) => false,
        JsonModel::Array(items) => forall|i: int|
            0 <= i < items.len() ==> convertible(#[trigger] items[i]),
        JsonModel::Object(fields) => forall|i: int|
            0 <= i < fields.len() ==> convertible((#[trigger] fields[i]).1),
        _ => true,
    }
}

/// A document in the tag model, each kind of value as the kind that holds
/// the same: nothing as an empty compound, a boolean as the byte 1 or 0, a
/// whole number as a long, any other number as a double, a string as a
/// string, an array as the list of its items, an object as the compound of
/// its fields.
pub open spec fn nbt_of(json: JsonModel) -> NbtModel
    decreases json,
{
    match json {
        JsonModel::Null => NbtModel::Compound(Seq::empty()),
        JsonModel::Bool(b) => NbtModel::Byte(
            if b {
                1
            } else {
                0
            },
        ),
        JsonModel::Number(JsonNumber::Integer(n)) => NbtModel::Long(n),
        JsonModel::Number(JsonNumber::Float(bits)) => NbtModel::Double(bits),
        JsonModel::Number(JsonNumber::Large(_)) => NbtModel::Long(0),
        JsonModel::String(text) => NbtModel::String(text),
        JsonModel::Array(items) => NbtModel::List(
            Seq::new(
                items.len(),
                |i: int|
                    if 0 <= i < items.len() {
                        nbt_of(items[i])
                    } else {
                        NbtModel::Byte(0)
                    },
            ),
        ),
        JsonModel::Object(fields) => NbtModel::Compound(
            Seq::new(
                fields.len(),
                |i: int|
                    if 0 <= i < fields.len() {
                        (fields[i].0, nbt_of(fields[i].1))
                    } else {
                        (Seq::empty(), NbtModel::Byte(0))
                    },
            ),
        ),
    }
}

/// The error of a document that cannot be told in the tag model.
pub open spec fn not_convertible() -> Failure {
    Failure::Protocol("Invalid i64 in JSON"@)
}

pub fn json_to_nbt(json: &JsonValue) -> (r: Result<NbtValue>)
    ensures
        match r {
            Ok(value) => convertible(json.deep_view()) && value.deep_view() == nbt_of(
                json.deep_view(),
            ),
            Err(e) => !convertible(json.deep_view()) && e@ == not_convertible(),
        },
    decreases json,
{
    match json {
        JsonValue::Null => {
            let value = NbtValue::Compound(Vec::new());
            proof {
                assert(value.deep_view()->Compound_0 =~= Seq::empty());
            }
            Ok(value)
        },
        JsonValue::Bool(b) => Ok(NbtValue::Byte(if *b { 1 } else { 0 })),
        JsonValue::Number(JsonNumber::Integer(n)) => Ok(NbtValue::Long(*n)),
        JsonValue::Number(JsonNumber::Float(bits)) => Ok(NbtValue::Double(*bits)),
        JsonValue::Number(JsonNumber::Large(_)) => Err(Error::protocol("Invalid i64 in JSON")),
        JsonValue::String(text) => Ok(NbtValue::String(text.clone())),
        JsonValue::Array(items) => {
            let ghost model = json.deep_view()->Array_0;
            let mut list: Vec<NbtValue> = Vec::new();
            let mut i: usize = 0;
            while i < items.len()
                invariant
                    i <= items@.len(),
                    json == JsonValue::Array(*items),
                    model == json.deep_view()->Array_0,
                    model.len() == items@.len(),
                    list@.len() == i,
                    forall|k: int| 0 <= k < i ==> convertible(#[trigger] model[k]),
                    forall|k: int|
                        0 <= k < i ==> (#[trigger] list@[k]).deep_view() == nbt_of(model[k]),
                decreases items@.len() - i,
            {
                let item = match json_to_nbt(&items[i]) {
                    Ok(item) => item,
                    Err(e) => {
                        proof {
                            assert(model[i as int] == items@[i as int].deep_view());
                        }
                        return Err(e);
                    },
                };
                proof {
                    assert(model[i as int] == items@[i as int].deep_view());
                }
                list.push(item);
                i += 1;
            }
            let value = NbtValue::List(list);
            proof {
                assert(value.deep_view()->List_0 =~= nbt_of(json.deep_view())->List_0);
            }
            Ok(value)
        },
        JsonValue::Object(fields) => {
            let ghost model = json.deep_view()->Object_0;
            let mut map: Vec<(String, NbtValue)> = Vec::new();
            let mut i: usize = 0;
            while i < fields.len()
                invariant
                    i <= fields@.len(),
                    json == JsonValue::Object(*fields),
                    model == json.deep_view()->Object_0,
                    model.len() == fields@.len(),
                    map@.len() == i,
                    forall|k: int| 0 <= k < i ==> convertible((#[trigger] model[k]).1),
                    forall|k: int|
                        0 <= k < i ==> (#[trigger] map@[k]).0@ == model[k].0 && map@[k].1.deep_view()
                            == nbt_of(model[k].1),
                decreases fields@.len() - i,
            {
                let value = match json_to_nbt(&fields[i].1) {
                    Ok(value) => value,
                    Err(e) => {
                        proof {
                            assert(model[i as int].1 == fields@[i as int].1.deep_view());
                        }
                        return Err(e);
                    },
                };
                proof {
                    assert(model[i as int] == (
                        fields@[i as int].0@,
                        fields@[i as int].1.deep_view(),
                    ));
                }
                map.push((fields[i].0.clone(), value));
                i += 1;
            }
            let value = NbtValue::Compound(map);
            proof {
                assert(value.deep_view()->Compound_0 =~= nbt_of(json.deep_view())->Compound_0);
            }
            Ok(value)
        },
    }
}

/// The registries of a registry document: each field of the document that
/// is itself an object, by its name, with its entries in the tag model. A
/// field that is no object is passed over, and a document that is no object
/// holds no registry.
pub open spec fn registries_of(document: JsonModel) -> Seq<(Seq<char>, Seq<(Seq<char>, NbtModel)>)> {
    match document {
        JsonModel::Object(fields) => registries_among(fields),
        _ => Seq::empty(),
    }
}

pub open spec fn registries_among(fields: Seq<(Seq<char>, JsonModel)>) -> Seq<
    (Seq<char>, Seq<(Seq<char>, NbtModel)>),
>
    decreases fields.len(),
{
    if fields.len() == 0 {
        Seq::empty()
    } else {
        let before = registries_among(fields.drop_last());
        match fields.last().1 {
            JsonModel::Object(_) => before.push(
                (fields.last().0, nbt_of(fields.last().1)->Compound_0),
            ),
            _ => before,
        }
    }
}

/// Whether every registry of a registry document can be told in the tag
/// model.
pub open spec fn registries_convertible(document: JsonModel) -> bool {
    match document {
        JsonModel::Object(fields) => forall|i: int|
            0 <= i < fields.len() && (#[trigger] fields[i]).1 is Object ==> convertible(
                fields[i].1,
            ),
        _ => true,
    }
}

/// The registries of a registry document, each with its entries in the tag
/// model, in the order of the document.
pub fn registry_entries(document: &JsonValue) -> (r: Result<Vec<(String, Vec<(String, NbtValue)>)>>)
    ensures
        match r {
            Ok(registries) => registries_convertible(document.deep_view())
                && registries.deep_view() == registries_of(document.deep_view()),
            Err(e) => !registries_convertible(document.deep_view()) && e@ == not_convertible(),
        },
{
    let mut out: Vec<(String, Vec<(String, NbtValue)>)> = Vec::new();
    proof {
        assert(out.deep_view() =~= Seq::empty());
    }
    let fields = match document {
        JsonValue::Object(fields) => fields,
        _ => {
            return Ok(out);
        },
    };
    let ghost model = document.deep_view()->Object_0;
    let mut i: usize = 0;
    proof {
        assert(model.take(0) =~= Seq::empty());
    }
    while i < fields.len()
        invariant
            i <= fields@.len(),
            document == JsonValue::Object(*fields),
            model == document.deep_view()->Object_0,
            model.len() == fields@.len(),
            forall|k: int| 0 <= k < i && (#[trigger] model[k]).1 is Object ==> convertible(model[k].1),
            out.deep_view() == registries_among(model.take(i as int)),
        decreases fields@.len() - i,
    {
        let ghost sofar = out.deep_view();
        proof {
            assert(model[i as int] == (fields@[i as int].0@, fields@[i as int].1.deep_view()));
            assert(model.take(i + 1).drop_last() =~= model.take(i as int));
            assert(model.take(i + 1).last() == model[i as int]);
        }
        match &fields[i].1 {
            JsonValue::Object(_) => {
                let entries = match json_to_nbt(&fields[i].1)? {
                    NbtValue::Compound(entries) => entries,
                    _ => Vec::new(),
                };
                let ghost told = nbt_of(model[i as int].1)->Compound_0;
                proof {
                    assert(entries.deep_view() =~= told);
                }
                out.push((fields[i].0.clone(), entries));
                proof {
                    assert(out.deep_view() =~= sofar.push((model[i as int].0, told)));
                }
            },
            _ => {},
        }
        i += 1;
    }
    proof {
        assert(model.take(i as int) =~= model);
    }
    Ok(out)
}

/// The members that the entries of a tag name: each whole number among
/// them, cut down to 32 bits. An entry that is no number is passed over.
pub open spec fn members_of(entries: Seq<JsonModel>) -> Seq<i32>
    decreases entries.len(),
{
    if entries.len() == 0 {
        Seq::empty()
    } else {
        let before = members_of(entries.drop_last());
        match entries.last() {
            JsonModel::Number(JsonNumber::Integer(n)) => before.push(n as i32),
            _ => before,
        }
    }
}

/// Whether a tag's entry can be read: it can unless it is a number that is
/// no whole number of 64 bits with a sign.
pub open spec fn member_readable(entry: JsonModel) -> bool {
    entry matches JsonModel::Number(n) ==> n is Integer
}

/// The tag that a field of a registry's tags describes: the field's name,
/// with the members that its array names, or none if it is no array.
pub open spec fn tag_of(field: (Seq<char>, JsonModel)) -> (Seq<char>, Seq<i32>) {
    (
        field.0,
        match field.1 {
            JsonModel::Array(entries) => members_of(entries),
            _ => Seq::empty(),
        },
    )
}

pub open spec fn tag_readable(field: (Seq<char>, JsonModel)) -> bool {
    match field.1 {
        JsonModel::Array(entries) => forall|i: int|
            0 <= i < entries.len() ==> member_readable(#[trigger] entries[i]),
        _ => true,
    }
}

/// The tags of one registry: one for each field of its object, or none if
/// it is no object.
pub open spec fn tags_in(registry: JsonModel) -> Seq<(Seq<char>, Seq<i32>)> {
    match registry {
        JsonModel::Object(fields) => Seq::new(
            fields.len(),
            |i: int|
                if 0 <= i < fields.len() {
                    tag_of(fields[i])
                } else {
                    (Seq::empty(), Seq::empty())
                },
        ),
        _ => Seq::empty(),
    }
}

pub open spec fn tags_in_readable(registry: JsonModel) -> bool {
    match registry {
        JsonModel::Object(fields) => forall|i: int|
            0 <= i < fields.len() ==> tag_readable(#[trigger] fields[i]),
        _ => true,
    }
}

/// The tags of a tag document: for each field of the document the tags of
/// that registry, or none if the document is no object.
pub open spec fn tags_of(document: JsonModel) -> Seq<(Seq<char>, Seq<(Seq<char>, Seq<i32>)>)> {
    match document {
        JsonModel::Object(fields) => Seq::new(
            fields.len(),
            |i: int|
                if 0 <= i < fields.len() {
                    (fields[i].0, tags_in(fields[i].1))
                } else {
                    (Seq::empty(), Seq::empty())
                },
        ),
        _ => Seq::empty(),
    }
}

pub open spec fn tags_readable(document: JsonModel) -> bool {
    match document {
        JsonModel::Object(fields) => forall|i: int|
            0 <= i < fields.len() ==> tags_in_readable((#[trigger] fields[i]).1),
        _ => true,
    }
}

/// The error of a tag document that names a member by a number that is no
/// whole number of 64 bits with a sign.
pub open spec fn not_readable() -> Failure {
    Failure::Protocol("Invalid i64 in tags"@)
}

/// The deep view of a vector of numbers is the numbers it holds.
proof fn numbers_deep_view(numbers: Vec<i32>)
    ensures
        numbers.deep_view() == numbers@,
{
    assert(numbers.deep_view() =~= numbers@);
}

fn load_members(field: &(String, JsonValue)) -> (r: Result<Tag>)
    ensures
        match r {
            Ok(tag) => tag_readable(field.deep_view()) && tag.deep_view() == tag_of(
                field.deep_view(),
            ),
            Err(e) => !tag_readable(field.deep_view()) && e@ == not_readable(),
        },
{
    let mut members: Vec<i32> = Vec::new();
    if let JsonValue::Array(entries) = &field.1 {
        let ghost model = field.1.deep_view()->Array_0;
        let mut i: usize = 0;
        proof {
            assert(model.take(0) =~= Seq::empty());
        }
        while i < entries.len()
            invariant
                i <= entries@.len(),
                field.1 == JsonValue::Array(*entries),
                model == field.1.deep_view()->Array_0,
                model.len() == entries@.len(),
                forall|k: int| 0 <= k < i ==> member_readable(#[trigger] model[k]),
                members@ == members_of(model.take(i as int)),
            decreases entries@.len() - i,
        {
            proof {
                assert(model[i as int] == entries@[i as int].deep_view());
                assert(model.take(i + 1).drop_last() =~= model.take(i as int));
                assert(model.take(i + 1).last() == model[i as int]);
            }
            if let JsonValue::Number(number) = &entries[i] {
                match number {
                    JsonNumber::Integer(n) => {
                        members.push(#[verifier::truncate] (*n as i32));
                    },
                    _ => {
                        return Err(Error::protocol("Invalid i64 in tags"));
                    },
                }
            }
            i += 1;
        }
        proof {
            assert(model.take(i as int) =~= model);
        }
    }
    proof {
        numbers_deep_view(members);
    }
    Ok((field.0.clone(), members))
}

fn load_tags_in(registry: &JsonValue) -> (r: Result<Vec<Tag>>)
    ensures
        match r {
            Ok(tags) => tags_in_readable(registry.deep_view()) && tags.deep_view() == tags_in(
                registry.deep_view(),
            ),
            Err(e) => !tags_in_readable(registry.deep_view()) && e@ == not_readable(),
        },
{
    let mut tags: Vec<Tag> = Vec::new();
    if let JsonValue::Object(fields) = registry {
        let ghost model = registry.deep_view()->Object_0;
        let mut i: usize = 0;
        while i < fields.len()
            invariant
                i <= fields@.len(),
                registry == JsonValue::Object(*fields),
                model == registry.deep_view()->Object_0,
                model.len() == fields@.len(),
                tags@.len() == i,
                forall|k: int| 0 <= k < i ==> tag_readable(#[trigger] model[k]),
                forall|k: int| 0 <= k < i ==> (#[trigger] tags@[k]).deep_view() == tag_of(model[k]),
            decreases fields@.len() - i,
        {
            proof {
                assert(model[i as int] == fields@[i as int].deep_view());
            }
            let tag = load_members(&fields[i])?;
            tags.push(tag);
            i += 1;
        }
    }
    proof {
        assert(tags.deep_view() =~= tags_in(registry.deep_view()));
    }
    Ok(tags)
}

/// The tags that a tag document describes, registry by registry.
pub fn load_tags(document: &JsonValue) -> (r: Result<Vec<TagRegistry>>)
    ensures
        match r {
            Ok(tags) => tags_readable(document.deep_view()) && tags.deep_view() == tags_of(
                document.deep_view(),
            ),
            Err(e) => !tags_readable(document.deep_view()) && e@ == not_readable(),
        },
{
    let mut registries: Vec<TagRegistry> = Vec::new();
    if let JsonValue::Object(fields) = document {
        let ghost model = document.deep_view()->Object_0;
        let mut i: usize = 0;
        while i < fields.len()
            invariant
                i <= fields@.len(),
                document == JsonValue::Object(*fields),
                model == document.deep_view()->Object_0,
                model.len() == fields@.len(),
                registries@.len() == i,
                forall|k: int| 0 <= k < i ==> tags_in_readable((#[trigger] model[k]).1),
                forall|k: int|
                    0 <= k < i ==> (#[trigger] registries@[k]).deep_view() == (
                        model[k].0,
                        tags_in(model[k].1),
                    ),
            decreases fields@.len() - i,
        {
            proof {
                assert(model[i as int] == (fields@[i as int].0@, fields@[i as int].1.deep_view()));
            }
            let tags = load_tags_in(&fields[i].1)?;
            registries.push((fields[i].0.clone(), tags));
            i += 1;
        }
    }
    proof {
        assert(registries.deep_view() =~= tags_of(document.deep_view()));
    }
    Ok(registries)
}

} // verus!
