use crate::protocol::error::{Error, Result};
use crate::protocol::packet::data::PacketData;
use crate::protocol::packet::raw_data::{varint_encoded, write_varint, Parsed};
use crate::protocol::packet::types::PacketBytes;
use crate::protocol::packet::{Decodable, Encodable, Packet};
use vstd::prelude::*;

verus! {

/// A message on a named channel, to the client. The data runs to the end of
/// the packet.
#[derive(Debug)]
pub struct ClientboundPluginMessage {
    pub channel: String,
    pub data: Vec<u8>,
}

impl DeepView for ClientboundPluginMessage {
    type V = (Seq<char>, Seq<u8>);

    open spec fn deep_view(&self) -> Self::V {
        (self.channel@, self.data@)
    }
}

impl Packet for ClientboundPluginMessage {
    open spec fn id() -> i32 {
        0x01
    }

    open spec fn decoded(fields: Seq<u8>) -> Parsed<Self::V> {
        <(String, PacketBytes)>::decoded(fields)
    }

    open spec fn encoded(value: Self::V) -> Seq<u8> {
        <(String, PacketBytes)>::encoded(value)
    }

    open spec fn portable(value: Self::V) -> bool {
        <(String, PacketBytes)>::portable(value, Seq::empty())
    }

    proof fn round_trip(value: Self::V) {
        let bytes = <(String, PacketBytes)>::encoded(value);
        <(String, PacketBytes)>::round_trip(value, Seq::empty());
        assert(bytes + Seq::<u8>::empty() =~= bytes);
    }

    fn packet_id() -> (r: i32) {
        0x01
    }
}

impl Encodable for ClientboundPluginMessage {
    fn write(&self, buffer: &mut Vec<u8>) -> (r: Result<()>) {
        write_varint(buffer, Self::packet_id())?;
        self.channel.write(buffer)?;
        buffer.extend_from_slice(self.data.as_slice());
        proof {
            assert(buffer@ =~= old(buffer)@ + (varint_encoded(Self::id()) + Self::encoded(
                self.deep_view(),
            )));
        }
        Ok(())
    }
}

/// The server has said all it had to say in this stage. It has no fields.
#[derive(Debug)]
pub struct FinishConfiguration;

impl DeepView for FinishConfiguration {
    type V = ();

    open spec fn deep_view(&self) -> () {
        ()
    }
}

impl Packet for FinishConfiguration {
    open spec fn id() -> i32 {
        0x03
    }

    open spec fn decoded(fields: Seq<u8>) -> Parsed<()> {
        <()>::decoded(fields)
    }

    open spec fn encoded(value: ()) -> Seq<u8> {
        <()>::encoded(value)
    }

    open spec fn portable(value: ()) -> bool {
        <()>::portable(value, Seq::empty())
    }

    proof fn round_trip(value: ()) {
        let bytes = <()>::encoded(value);
        <()>::round_trip(value, Seq::empty());
        assert(bytes + Seq::<u8>::empty() =~= bytes);
    }

    fn packet_id() -> (r: i32) {
        0x03
    }
}

impl Encodable for FinishConfiguration {
    fn write(&self, buffer: &mut Vec<u8>) -> (r: Result<()>) {
        write_varint(buffer, Self::packet_id())?;
        proof {
            assert(buffer@ =~= old(buffer)@ + (varint_encoded(Self::id()) + Self::encoded(
                self.deep_view(),
            )));
        }
        Ok(())
    }
}

/// A data pack that a peer says it knows.
#[derive(Debug, Clone)]
pub struct KnownPack {
    pub namespace: String,
    pub id: String,
    pub version: String,
}

impl DeepView for KnownPack {
    type V = (Seq<char>, (Seq<char>, Seq<char>));

    open spec fn deep_view(&self) -> Self::V {
        (self.namespace@, (self.id@, self.version@))
    }
}

impl PacketData for KnownPack {
    open spec fn decoded(s: Seq<u8>) -> Parsed<Self::V> {
        <(String, (String, String))>::decoded(s)
    }

    open spec fn encoded(value: Self::V) -> Seq<u8> {
        <(String, (String, String))>::encoded(value)
    }

    open spec fn portable(value: Self::V, rest: Seq<u8>) -> bool {
        <(String, (String, String))>::portable(value, rest)
    }

    proof fn decoded_len(s: Seq<u8>) {
        <(String, (String, String))>::decoded_len(s);
    }

    proof fn round_trip(value: Self::V, rest: Seq<u8>) {
        <(String, (String, String))>::round_trip(value, rest);
    }

    fn read(buffer: &mut &[u8]) -> (r: Result<Self>) {
        let (namespace, (id, version)) = <(String, (String, String))>::read(buffer)?;
        Ok(KnownPack { namespace, id, version })
    }

    fn write(&self, buffer: &mut Vec<u8>) -> (r: Result<()>) {
        self.namespace.write(buffer)?;
        self.id.write(buffer)?;
        self.version.write(buffer)?;
        proof {
            assert(buffer@ =~= old(buffer)@ + Self::encoded(self.deep_view()));
        }
        Ok(())
    }
}

pub fn read_known_packs(buffer: &mut &[u8]) -> (r: Result<Vec<KnownPack>>)
    ensures
        match <Vec<KnownPack>>::decoded(old(buffer)@) {
            Ok((value, n)) => (r matches Ok(got) && got.deep_view() == value) && final(buffer)@
                == old(buffer)@.skip(n),
            Err(e) => r == Err::<Vec<KnownPack>, Error>(e) && final(buffer)@ == old(buffer)@,
        },
{
    <Vec<KnownPack>>::read(buffer)
}

pub fn write_known_packs(packs: &Vec<KnownPack>, buffer: &mut Vec<u8>) -> (r: Result<()>)
    ensures
        r.is_ok(),
        final(buffer)@ == old(buffer)@ + <Vec<KnownPack>>::encoded(packs.deep_view()),
{
    packs.write(buffer)
}

/// The data packs that the server knows.
#[derive(Debug)]
pub struct ClientboundKnownPacks {
    pub packs: Vec<KnownPack>,
}

impl DeepView for ClientboundKnownPacks {
    type V = Seq<(Seq<char>, (Seq<char>, Seq<char>))>;

    open spec fn deep_view(&self) -> Seq<(Seq<char>, (Seq<char>, Seq<char>))> {
        self.packs.deep_view()
    }
}

impl Packet for ClientboundKnownPacks {
    open spec fn id() -> i32 {
        0x0E
    }

    open spec fn decoded(fields: Seq<u8>) -> Parsed<Seq<(Seq<char>, (Seq<char>, Seq<char>))>> {
        <Vec<KnownPack>>::decoded(fields)
    }

    open spec fn encoded(value: Seq<(Seq<char>, (Seq<char>, Seq<char>))>) -> Seq<u8> {
        <Vec<KnownPack>>::encoded(value)
    }

    open spec fn portable(value: Seq<(Seq<char>, (Seq<char>, Seq<char>))>) -> bool {
        <Vec<KnownPack>>::portable(value, Seq::empty())
    }

    proof fn round_trip(value: Seq<(Seq<char>, (Seq<char>, Seq<char>))>) {
        let bytes = <Vec<KnownPack>>::encoded(value);
        <Vec<KnownPack>>::round_trip(value, Seq::empty());
        assert(bytes + Seq::<u8>::empty() =~= bytes);
    }

    fn packet_id() -> (r: i32) {
        0x0E
    }
}

impl Encodable for ClientboundKnownPacks {
    fn write(&self, buffer: &mut Vec<u8>) -> (r: Result<()>) {
        write_varint(buffer, Self::packet_id())?;
        self.packs.write(buffer)?;
        proof {
            assert(buffer@ =~= old(buffer)@ + (varint_encoded(Self::id()) + Self::encoded(
                self.deep_view(),
            )));
        }
        Ok(())
    }
}

/// An entry of a registry: its identifier and, where it has one, its value
/// as NBT bytes. The value's bytes stand on the wire as they are, after a
/// boolean that says whether they are there.
pub type RegistryEntry = (String, Option<PacketBytes>);

/// The entries of one registry.
#[derive(Debug)]
pub struct RegistryData {
    pub registry_id: String,
    pub entries: Vec<RegistryEntry>,
}

impl DeepView for RegistryData {
    type V = (Seq<char>, Seq<(Seq<char>, Option<Seq<u8>>)>);

    open spec fn deep_view(&self) -> Self::V {
        (self.registry_id@, self.entries.deep_view())
    }
}

impl Packet for RegistryData {
    open spec fn id() -> i32 {
        0x07
    }

    open spec fn decoded(fields: Seq<u8>) -> Parsed<Self::V> {
        <(String, Vec<RegistryEntry>)>::decoded(fields)
    }

    open spec fn encoded(value: Self::V) -> Seq<u8> {
        <(String, Vec<RegistryEntry>)>::encoded(value)
    }

    open spec fn portable(value: Self::V) -> bool {
        <(String, Vec<RegistryEntry>)>::portable(value, Seq::empty())
    }

    proof fn round_trip(value: Self::V) {
        let bytes = <(String, Vec<RegistryEntry>)>::encoded(value);
        <(String, Vec<RegistryEntry>)>::round_trip(value, Seq::empty());
        assert(bytes + Seq::<u8>::empty() =~= bytes);
    }

    fn packet_id() -> (r: i32) {
        0x07
    }
}

impl Encodable for RegistryData {
    fn write(&self, buffer: &mut Vec<u8>) -> (r: Result<()>) {
        write_varint(buffer, Self::packet_id())?;
        self.registry_id.write(buffer)?;
        self.entries.write(buffer)?;
        proof {
            assert(buffer@ =~= old(buffer)@ + (varint_encoded(Self::id()) + Self::encoded(
                self.deep_view(),
            )));
        }
        Ok(())
    }
}

/// What the client says of its settings.
#[derive(Debug)]
pub struct ClientInformation {
    pub locale: String,
    pub view_distance: u8,
    pub chat_mode: i32,
    pub chat_colors: bool,
    pub displayed_skin_parts: u8,
    pub main_hand: i32,
    pub enable_text_filtering: bool,
    pub allow_server_listings: bool,
}

/// The fields of the client's settings, in wire order.
pub type ClientInformationFields = (String, (u8, (i32, (bool, (u8, (i32, (bool, bool)))))));

impl DeepView for ClientInformation {
    type V = (Seq<char>, (u8, (i32, (bool, (u8, (i32, (bool, bool)))))));

    open spec fn deep_view(&self) -> Self::V {
        let listings = (self.enable_text_filtering, self.allow_server_listings);
        let hand = (self.displayed_skin_parts, (self.main_hand, listings));
        (self.locale@, (self.view_distance, (self.chat_mode, (self.chat_colors, hand))))
    }
}

impl Packet for ClientInformation {
    open spec fn id() -> i32 {
        0x00
    }

    open spec fn decoded(fields: Seq<u8>) -> Parsed<Self::V> {
        ClientInformationFields::decoded(fields)
    }

    open spec fn encoded(value: Self::V) -> Seq<u8> {
        ClientInformationFields::encoded(value)
    }

    open spec fn portable(value: Self::V) -> bool {
        ClientInformationFields::portable(value, Seq::empty())
    }

    proof fn round_trip(value: Self::V) {
        let bytes = ClientInformationFields::encoded(value);
        ClientInformationFields::round_trip(value, Seq::empty());
        assert(bytes + Seq::<u8>::empty() =~= bytes);
    }

    fn packet_id() -> (r: i32) {
        0x00
    }
}

impl Decodable for ClientInformation {
    fn read(buffer: &mut &[u8]) -> (r: Result<Self>) {
        let (locale, (view_distance, (chat_mode, (chat_colors, hand)))) =
            ClientInformationFields::read(buffer)?;
        let (displayed_skin_parts, (main_hand, listings)) = hand;
        let (enable_text_filtering, allow_server_listings) = listings;
        Ok(
            ClientInformation {
                locale,
                view_distance,
                chat_mode,
                chat_colors,
                displayed_skin_parts,
                main_hand,
                enable_text_filtering,
                allow_server_listings,
            },
        )
    }
}

/// A message on a named channel, from the client. The data runs to the end
/// of the packet.
#[derive(Debug)]
pub struct ServerboundPluginMessage {
    pub channel: String,
    pub data: Vec<u8>,
}

impl DeepView for ServerboundPluginMessage {
    type V = (Seq<char>, Seq<u8>);

    open spec fn deep_view(&self) -> Self::V {
        (self.channel@, self.data@)
    }
}

impl Packet for ServerboundPluginMessage {
    open spec fn id() -> i32 {
        0x02
    }

    open spec fn decoded(fields: Seq<u8>) -> Parsed<Self::V> {
        <(String, PacketBytes)>::decoded(fields)
    }

    open spec fn encoded(value: Self::V) -> Seq<u8> {
        <(String, PacketBytes)>::encoded(value)
    }

    open spec fn portable(value: Self::V) -> bool {
        <(String, PacketBytes)>::portable(value, Seq::empty())
    }

    proof fn round_trip(value: Self::V) {
        let bytes = <(String, PacketBytes)>::encoded(value);
        <(String, PacketBytes)>::round_trip(value, Seq::empty());
        assert(bytes + Seq::<u8>::empty() =~= bytes);
    }

    fn packet_id() -> (r: i32) {
        0x02
    }
}

impl Decodable for ServerboundPluginMessage {
    fn read(buffer: &mut &[u8]) -> (r: Result<Self>) {
        let (channel, data) = <(String, PacketBytes)>::read(buffer)?;
        Ok(ServerboundPluginMessage { channel, data: data.0 })
    }
}

/// The client confirms the end of this stage. It has no fields.
#[derive(Debug)]
pub struct AcknowledgeFinishConfiguration;

impl DeepView for AcknowledgeFinishConfiguration {
    type V = ();

    open spec fn deep_view(&self) -> () {
        ()
    }
}

impl Packet for AcknowledgeFinishConfiguration {
    open spec fn id() -> i32 {
        0x03
    }

    open spec fn decoded(fields: Seq<u8>) -> Parsed<()> {
        <()>::decoded(fields)
    }

    open spec fn encoded(value: ()) -> Seq<u8> {
        <()>::encoded(value)
    }

    open spec fn portable(value: ()) -> bool {
        <()>::portable(value, Seq::empty())
    }

    proof fn round_trip(value: ()) {
        let bytes = <()>::encoded(value);
        <()>::round_trip(value, Seq::empty());
        assert(bytes + Seq::<u8>::empty() =~= bytes);
    }

    fn packet_id() -> (r: i32) {
        0x03
    }
}

impl Decodable for AcknowledgeFinishConfiguration {
    fn read(buffer: &mut &[u8]) -> (r: Result<Self>) {
        <()>::read(buffer)?;
        Ok(AcknowledgeFinishConfiguration)
    }
}

/// The data packs that the client knows.
#[derive(Debug)]
pub struct ServerboundKnownPacks {
    pub packs: Vec<KnownPack>,
}

impl DeepView for ServerboundKnownPacks {
    type V = Seq<(Seq<char>, (Seq<char>, Seq<char>))>;

    open spec fn deep_view(&self) -> Seq<(Seq<char>, (Seq<char>, Seq<char>))> {
        self.packs.deep_view()
    }
}

impl Packet for ServerboundKnownPacks {
    open spec fn id() -> i32 {
        0x07
    }

    open spec fn decoded(fields: Seq<u8>) -> Parsed<Seq<(Seq<char>, (Seq<char>, Seq<char>))>> {
        <Vec<KnownPack>>::decoded(fields)
    }

    open spec fn encoded(value: Seq<(Seq<char>, (Seq<char>, Seq<char>))>) -> Seq<u8> {
        <Vec<KnownPack>>::encoded(value)
    }

    open spec fn portable(value: Seq<(Seq<char>, (Seq<char>, Seq<char>))>) -> bool {
        <Vec<KnownPack>>::portable(value, Seq::empty())
    }

    proof fn round_trip(value: Seq<(Seq<char>, (Seq<char>, Seq<char>))>) {
        let bytes = <Vec<KnownPack>>::encoded(value);
        <Vec<KnownPack>>::round_trip(value, Seq::empty());
        assert(bytes + Seq::<u8>::empty() =~= bytes);
    }

    fn packet_id() -> (r: i32) {
        0x07
    }
}

impl Decodable for ServerboundKnownPacks {
    fn read(buffer: &mut &[u8]) -> (r: Result<Self>) {
        let packs = <Vec<KnownPack>>::read(buffer)?;
        Ok(ServerboundKnownPacks { packs })
    }
}

pub fn read_feature_flags(buffer: &mut &[u8]) -> (r: Result<Vec<String>>)
    ensures
        match <Vec<String>>::decoded(old(buffer)@) {
            Ok((value, n)) => (r matches Ok(got) && got.deep_view() == value) && final(buffer)@
                == old(buffer)@.skip(n),
            Err(e) => r == Err::<Vec<String>, Error>(e) && final(buffer)@ == old(buffer)@,
        },
{
    <Vec<String>>::read(buffer)
}

pub fn write_feature_flags(flags: &Vec<String>, buffer: &mut Vec<u8>) -> (r: Result<()>)
    ensures
        r.is_ok(),
        final(buffer)@ == old(buffer)@ + <Vec<String>>::encoded(flags.deep_view()),
{
    flags.write(buffer)
}

/// The feature flags that the server has switched on.
#[derive(Debug)]
pub struct FeatureFlags {
    pub feature_flags: Vec<String>,
}

impl DeepView for FeatureFlags {
    type V = Seq<Seq<char>>;

    open spec fn deep_view(&self) -> Seq<Seq<char>> {
        self.feature_flags.deep_view()
    }
}

impl Packet for FeatureFlags {
    open spec fn id() -> i32 {
        0x0C
    }

    open spec fn decoded(fields: Seq<u8>) -> Parsed<Seq<Seq<char>>> {
        <Vec<String>>::decoded(fields)
    }

    open spec fn encoded(value: Seq<Seq<char>>) -> Seq<u8> {
        <Vec<String>>::encoded(value)
    }

    open spec fn portable(value: Seq<Seq<char>>) -> bool {
        <Vec<String>>::portable(value, Seq::empty())
    }

    proof fn round_trip(value: Seq<Seq<char>>) {
        let bytes = <Vec<String>>::encoded(value);
        <Vec<String>>::round_trip(value, Seq::empty());
        assert(bytes + Seq::<u8>::empty() =~= bytes);
    }

    fn packet_id() -> (r: i32) {
        0x0C
    }
}

impl Encodable for FeatureFlags {
    fn write(&self, buffer: &mut Vec<u8>) -> (r: Result<()>) {
        write_varint(buffer, Self::packet_id())?;
        self.feature_flags.write(buffer)?;
        proof {
            assert(buffer@ =~= old(buffer)@ + (varint_encoded(Self::id()) + Self::encoded(
                self.deep_view(),
            )));
        }
        Ok(())
    }
}

/// A named group of entries of a registry, by their numbers.
pub type Tag = (String, Vec<i32>);

/// The tags of one registry.
pub type TagRegistry = (String, Vec<Tag>);

pub fn read_tags(buffer: &mut &[u8]) -> (r: Result<Vec<TagRegistry>>)
    ensures
        match <Vec<TagRegistry>>::decoded(old(buffer)@) {
            Ok((value, n)) => (r matches Ok(got) && got.deep_view() == value) && final(buffer)@
                == old(buffer)@.skip(n),
            Err(e) => r == Err::<Vec<TagRegistry>, Error>(e) && final(buffer)@ == old(buffer)@,
        },
{
    <Vec<TagRegistry>>::read(buffer)
}

pub fn write_tags(registries: &Vec<TagRegistry>, buffer: &mut Vec<u8>) -> (r: Result<()>)
    ensures
        r.is_ok(),
        final(buffer)@ == old(buffer)@ + <Vec<TagRegistry>>::encoded(registries.deep_view()),
{
    registries.write(buffer)
}

/// The tags of every registry.
#[derive(Debug)]
pub struct UpdateTags {
    pub tags: Vec<TagRegistry>,
}

impl DeepView for UpdateTags {
    type V = Seq<(Seq<char>, Seq<(Seq<char>, Seq<i32>)>)>;

    open spec fn deep_view(&self) -> Seq<(Seq<char>, Seq<(Seq<char>, Seq<i32>)>)> {
        self.tags.deep_view()
    }
}

impl Packet for UpdateTags {
    open spec fn id() -> i32 {
        0x0D
    }

    open spec fn decoded(fields: Seq<u8>) -> Parsed<Seq<(Seq<char>, Seq<(Seq<char>, Seq<i32>)>)>> {
        <Vec<TagRegistry>>::decoded(fields)
    }

    open spec fn encoded(value: Seq<(Seq<char>, Seq<(Seq<char>, Seq<i32>)>)>) -> Seq<u8> {
        <Vec<TagRegistry>>::encoded(value)
    }

    open spec fn portable(value: Seq<(Seq<char>, Seq<(Seq<char>, Seq<i32>)>)>) -> bool {
        <Vec<TagRegistry>>::portable(value, Seq::empty())
    }

    proof fn round_trip(value: Seq<(Seq<char>, Seq<(Seq<char>, Seq<i32>)>)>) {
        let bytes = <Vec<TagRegistry>>::encoded(value);
        <Vec<TagRegistry>>::round_trip(value, Seq::empty());
        assert(bytes + Seq::<u8>::empty() =~= bytes);
    }

    fn packet_id() -> (r: i32) {
        0x0D
    }
}

impl Encodable for UpdateTags {
    fn write(&self, buffer: &mut Vec<u8>) -> (r: Result<()>) {
        write_varint(buffer, Self::packet_id())?;
        self.tags.write(buffer)?;
        proof {
            assert(buffer@ =~= old(buffer)@ + (varint_encoded(Self::id()) + Self::encoded(
                self.deep_view(),
            )));
        }
        Ok(())
    }
}

} // verus!
