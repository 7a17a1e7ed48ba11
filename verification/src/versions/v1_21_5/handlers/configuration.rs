//! The configuration stage: the server opens with a burst of three packets,
//! then looks at the number of each packet that comes in and acts on it,
//! until the client acknowledges the end of the stage.

use crate::common::connection::{
    add_frame, follows, frame_complete, frame_encoded, frame_of, frame_scan, payload_decoded,
    peeked, stepped, Action, ActionView, Connection, ConnectionState, DuplicatePolicy, Phase,
    Poll, Step,
};
use crate::protocol::error::{Error, Failure, Result};
use crate::protocol::packet::data::PacketData;
use crate::protocol::packet::compound::items_encoded;
use crate::protocol::packet::raw_data::{
    string_encoded_len, varint_encoded, varint_encoded_len, varint_groups, varint_round_trip,
};
use crate::protocol::packet::{Decodable, Packet};
use crate::versions::v1_21_5::packets::configuration::{
    AcknowledgeFinishConfiguration, ClientInformation, ClientInformationFields,
    ClientboundKnownPacks, ClientboundPluginMessage, FeatureFlags, FinishConfiguration,
    KnownPack, RegistryData, ServerboundKnownPacks, ServerboundPluginMessage, TagRegistry,
    UpdateTags,
};
use vstd::prelude::*;
use vstd::string::StringExecFns;

verus! {

/// The number of the client's settings packet.
pub const CLIENT_INFORMATION: i32 = 0x00;

/// The number of the client's plugin message.
pub const PLUGIN_MESSAGE: i32 = 0x02;

/// The number of the client's acknowledgement of the end of the stage.
pub const ACKNOWLEDGE_FINISH: i32 = 0x03;

/// The number of the client's list of known packs.
pub const KNOWN_PACKS: i32 = 0x07;

/// The registries and tags that the closing burst sends, ready for the
/// wire.
pub struct LoadedRegistries {
    pub registries: Vec<RegistryData>,
    pub tags: Vec<TagRegistry>,
}

/// The registries and tags of a closing burst as contracts speak of them.
pub struct Loaded {
    pub registries: Seq<(Seq<char>, Seq<(Seq<char>, Option<Seq<u8>>)>)>,
    pub tags: Seq<(Seq<char>, Seq<(Seq<char>, Seq<i32>)>)>,
}

impl DeepView for LoadedRegistries {
    type V = Loaded;

    open spec fn deep_view(&self) -> Loaded {
        Loaded { registries: self.registries.deep_view(), tags: self.tags.deep_view() }
    }
}

/// Whether no two entries of a registry have the same identifier.
pub open spec fn unique_entries(registry: (Seq<char>, Seq<(Seq<char>, Option<Seq<u8>>)>)) -> bool {
    let entries = registry.1;
    forall|i: int, j: int|
        0 <= i < j < entries.len() ==> (#[trigger] entries[i]).0 != (#[trigger] entries[j]).0
}

/// Whether no registry names an entry twice.
pub open spec fn unique_registries(loaded: Loaded) -> bool {
    forall|k: int|
        0 <= k < loaded.registries.len() ==> unique_entries(#[trigger] loaded.registries[k])
}

/// The error of a registry that names an entry twice, under a policy that
/// refuses such registries.
pub open spec fn duplicate_entry() -> Failure {
    Failure::Protocol("Duplicate registry entry"@)
}

/// Whether no two entries of the registry have the same identifier.
pub fn has_unique_entries(registry: &RegistryData) -> (r: bool)
    ensures
        r == unique_entries(registry.deep_view()),
{
    let ghost entries = registry.deep_view().1;
    let mut j: usize = 0;
    while j < registry.entries.len()
        invariant
            j <= registry.entries@.len(),
            entries == registry.deep_view().1,
            entries.len() == registry.entries@.len(),
            forall|a: int, b: int|
                0 <= a < b < j ==> (#[trigger] entries[a]).0 != (#[trigger] entries[b]).0,
        decreases registry.entries@.len() - j,
    {
        let mut i: usize = 0;
        while i < j
            invariant
                i <= j,
                j < registry.entries@.len(),
                entries == registry.deep_view().1,
                entries.len() == registry.entries@.len(),
                forall|a: int| 0 <= a < i ==> (#[trigger] entries[a]).0 != entries[j as int].0,
            decreases j - i,
        {
            proof {
                assert(entries[i as int].0 == registry.entries@[i as int].0@);
                assert(entries[j as int].0 == registry.entries@[j as int].0@);
            }
            if registry.entries[i].0 == registry.entries[j].0 {
                return false;
            }
            i += 1;
        }
        j += 1;
    }
    true
}

/// Whether no registry names an entry twice.
pub fn has_unique_registries(loaded: &LoadedRegistries) -> (r: bool)
    ensures
        r == unique_registries(loaded.deep_view()),
{
    let mut k: usize = 0;
    while k < loaded.registries.len()
        invariant
            k <= loaded.registries@.len(),
            forall|a: int|
                0 <= a < k ==> unique_entries(#[trigger] loaded.deep_view().registries[a]),
        decreases loaded.registries@.len() - k,
    {
        proof {
            assert(loaded.deep_view().registries[k as int]
                == loaded.registries@[k as int].deep_view());
        }
        if !has_unique_entries(&loaded.registries[k]) {
            return false;
        }
        k += 1;
    }
    true
}

/// Frames in a row, if each of them could be made; else the first failure.
pub open spec fn gathered(frames: Seq<std::result::Result<Seq<u8>, Failure>>) -> std::result::Result<
    Seq<Seq<u8>>,
    Failure,
>
    decreases frames.len(),
{
    if frames.len() == 0 {
        Ok(Seq::empty())
    } else {
        match gathered(frames.drop_last()) {
            Err(e) => Err(e),
            Ok(before) => match frames.last() {
                Err(e) => Err(e),
                Ok(frame) => Ok(before.push(frame)),
            },
        }
    }
}

/// The brand that the server announces: the channel, and the name
/// "IronOxide" as a string on the wire.
pub open spec fn brand() -> (Seq<char>, Seq<u8>) {
    (
        "minecraft:brand"@,
        seq![0x09u8, 0x49u8, 0x72u8, 0x6fu8, 0x6eu8, 0x4fu8, 0x78u8, 0x69u8, 0x64u8, 0x65u8],
    )
}

/// The feature flags that the server switches on.
pub open spec fn vanilla_flags() -> Seq<Seq<char>> {
    seq!["minecraft:vanilla"@]
}

/// The data packs that the server knows: the core pack of its version.
pub open spec fn core_packs() -> Seq<(Seq<char>, (Seq<char>, Seq<char>))> {
    seq![("minecraft"@, ("core"@, "1.21.5"@))]
}

/// The opening burst: the brand, the feature flags and the known packs, one
/// frame each.
pub open spec fn initial_burst() -> std::result::Result<Seq<Seq<u8>>, Failure> {
    gathered(
        seq![
            frame_of::<ClientboundPluginMessage>(brand()),
            frame_of::<FeatureFlags>(vanilla_flags()),
            frame_of::<ClientboundKnownPacks>(core_packs()),
        ],
    )
}

/// The closing burst: a frame for each registry, in order, then the tags,
/// then the end of the stage.
pub open spec fn final_burst(loaded: Loaded) -> std::result::Result<Seq<Seq<u8>>, Failure> {
    gathered(
        Seq::new(
            loaded.registries.len(),
            |i: int| frame_of::<RegistryData>(loaded.registries[i]),
        ).push(frame_of::<UpdateTags>(loaded.tags)).push(frame_of::<FinishConfiguration>(())),
    )
}

/// Frames that were gathered are as many as were asked for.
pub proof fn gathered_len(frames: Seq<std::result::Result<Seq<u8>, Failure>>)
    ensures
        gathered(frames) matches Ok(all) ==> all.len() == frames.len(),
    decreases frames.len(),
{
    if frames.len() > 0 {
        gathered_len(frames.drop_last());
    }
}

/// The opening burst is three frames.
pub proof fn initial_burst_len()
    ensures
        initial_burst() matches Ok(frames) ==> frames.len() == 3,
{
    gathered_len(
        seq![
            frame_of::<ClientboundPluginMessage>(brand()),
            frame_of::<FeatureFlags>(vanilla_flags()),
            frame_of::<ClientboundKnownPacks>(core_packs()),
        ],
    );
}

/// The opening burst can always be made: none of its packets is too long
/// for a frame.
pub proof fn initial_burst_is_made()
    ensures
        initial_burst() is Ok,
{
    let results = seq![
        frame_of::<ClientboundPluginMessage>(brand()),
        frame_of::<FeatureFlags>(vanilla_flags()),
        frame_of::<ClientboundKnownPacks>(core_packs()),
    ];
    reveal_strlit("minecraft:brand");
    reveal_strlit("minecraft:vanilla");
    reveal_strlit("minecraft");
    reveal_strlit("core");
    reveal_strlit("1.21.5");
    string_encoded_len("minecraft:brand"@);
    string_encoded_len("minecraft:vanilla"@);
    string_encoded_len("minecraft"@);
    string_encoded_len("core"@);
    string_encoded_len("1.21.5"@);
    varint_encoded_len(1);
    varint_encoded_len(ClientboundPluginMessage::id());
    varint_encoded_len(FeatureFlags::id());
    varint_encoded_len(ClientboundKnownPacks::id());
    assert(items_encoded::<String>(vanilla_flags()).len() <= 100) by {
        reveal_with_fuel(items_encoded, 3);
        assert(vanilla_flags().skip(1) =~= Seq::empty());
    }
    assert(items_encoded::<KnownPack>(core_packs()).len() <= 100) by {
        reveal_with_fuel(items_encoded, 3);
        assert(core_packs().skip(1) =~= Seq::empty());
    }
    assert(results[0] is Ok);
    assert(results[1] is Ok);
    assert(results[2] is Ok);
    assert(results.take(0) =~= Seq::empty());
    assert(results.take(3) =~= results);
    gathered_step(results, 0);
    gathered_step(results, 1);
    gathered_step(results, 2);
}

/// The closing burst is a frame for each registry and two more.
pub proof fn final_burst_len(loaded: Loaded)
    ensures
        final_burst(loaded) matches Ok(frames) ==> frames.len() == loaded.registries.len() + 2,
{
    gathered_len(
        Seq::new(
            loaded.registries.len(),
            |i: int| frame_of::<RegistryData>(loaded.registries[i]),
        ).push(frame_of::<UpdateTags>(loaded.tags)).push(frame_of::<FinishConfiguration>(())),
    );
}

/// Once a frame has failed, what follows it changes nothing.
proof fn gathered_failure(frames: Seq<std::result::Result<Seq<u8>, Failure>>, i: int, j: int)
    requires
        0 <= i <= j <= frames.len(),
        gathered(frames.take(i)) is Err,
    ensures
        gathered(frames.take(j)) == gathered(frames.take(i)),
    decreases j - i,
{
    if i < j {
        gathered_failure(frames, i, j - 1);
        assert(frames.take(j).drop_last() =~= frames.take(j - 1));
    }
}

/// Carries the gathering of frames one frame on.
proof fn gathered_step(frames: Seq<std::result::Result<Seq<u8>, Failure>>, i: int)
    requires
        0 <= i < frames.len(),
    ensures
        gathered(frames.take(i + 1)) == match gathered(frames.take(i)) {
            Err(e) => Err::<Seq<Seq<u8>>, Failure>(e),
            Ok(before) => match frames[i] {
                Err(e) => Err(e),
                Ok(frame) => Ok(before.push(frame)),
            },
        },
{
    assert(frames.take(i + 1).drop_last() =~= frames.take(i));
}

pub fn send_initial_server_configuration(conn: &Connection) -> (r: Result<Vec<Vec<u8>>>)
    ensures
        r matches Ok(sent) && initial_burst() == Ok::<Seq<Seq<u8>>, Failure>(sent.deep_view()),
{
    proof {
        initial_burst_is_made();
    }
    let ghost results = seq![
        frame_of::<ClientboundPluginMessage>(brand()),
        frame_of::<FeatureFlags>(vanilla_flags()),
        frame_of::<ClientboundKnownPacks>(core_packs()),
    ];
    proof {
        assert(results.take(0) =~= Seq::empty());
        assert(results.take(3) =~= results);
        gathered_step(results, 0);
        gathered_step(results, 1);
        gathered_step(results, 2);
    }
    let mut frames: Vec<Vec<u8>> = Vec::new();
    proof {
        assert(frames.deep_view() =~= Seq::empty());
    }
    let brand_message = ClientboundPluginMessage {
        channel: String::from_str("minecraft:brand"),
        data: vec![0x09u8, 0x49u8, 0x72u8, 0x6fu8, 0x6eu8, 0x4fu8, 0x78u8, 0x69u8, 0x64u8, 0x65u8],
    };
    proof {
        assert(brand_message.deep_view().1 =~= brand().1);
    }
    match conn.write_packet(&brand_message) {
        Ok(frame) => add_frame(&mut frames, frame),
        Err(e) => {
            proof {
                gathered_failure(results, 1, 3);
            }
            return Err(e);
        },
    }
    let mut flags: Vec<String> = Vec::new();
    flags.push(String::from_str("minecraft:vanilla"));
    let feature_flags_packet = FeatureFlags { feature_flags: flags };
    proof {
        assert(feature_flags_packet.deep_view() =~= vanilla_flags());
    }
    match conn.write_packet(&feature_flags_packet) {
        Ok(frame) => add_frame(&mut frames, frame),
        Err(e) => {
            proof {
                gathered_failure(results, 2, 3);
            }
            return Err(e);
        },
    }
    let mut packs: Vec<KnownPack> = Vec::new();
    packs.push(
        KnownPack {
            namespace: String::from_str("minecraft"),
            id: String::from_str("core"),
            version: String::from_str("1.21.5"),
        },
    );
    let known_packs = ClientboundKnownPacks { packs };
    proof {
        assert(known_packs.deep_view() =~= core_packs());
    }
    match conn.write_packet(&known_packs) {
        Ok(frame) => add_frame(&mut frames, frame),
        Err(e) => {
            return Err(e);
        },
    }
    Ok(frames)
}

pub fn send_final_server_configuration(conn: &Connection, loaded: LoadedRegistries) -> (r: Result<
    Vec<Vec<u8>>,
>)
    ensures
        match final_burst(loaded.deep_view()) {
            Ok(frames) => r matches Ok(sent) && sent.deep_view() == frames,
            Err(e) => r matches Err(error) && error@ == e,
        },
{
    let ghost model = loaded.deep_view();
    let ghost results = Seq::new(
        model.registries.len(),
        |i: int| frame_of::<RegistryData>(model.registries[i]),
    ).push(frame_of::<UpdateTags>(model.tags)).push(frame_of::<FinishConfiguration>(()));
    let ghost count = model.registries.len() as int;
    let mut frames: Vec<Vec<u8>> = Vec::new();
    let mut i: usize = 0;
    proof {
        assert(frames.deep_view() =~= Seq::empty());
        assert(results.take(0) =~= Seq::empty());
        assert(results.take(count + 2) =~= results);
    }
    while i < loaded.registries.len()
        invariant
            i <= loaded.registries@.len(),
            model == loaded.deep_view(),
            count == loaded.registries@.len(),
            results.len() == count + 2,
            final_burst(model) == gathered(results),
            forall|k: int| 0 <= k < count ==> #[trigger] results[k] == frame_of::<RegistryData>(
                model.registries[k],
            ),
            gathered(results.take(i as int)) == Ok::<Seq<Seq<u8>>, Failure>(frames.deep_view()),
        decreases loaded.registries@.len() - i,
    {
        proof {
            gathered_step(results, i as int);
            assert(model.registries[i as int] == loaded.registries@[i as int].deep_view());
        }
        match conn.write_packet(&loaded.registries[i]) {
            Ok(frame) => add_frame(&mut frames, frame),
            Err(e) => {
                proof {
                    assert(results[i as int] == frame_of::<RegistryData>(
                        model.registries[i as int],
                    ));
                    gathered_failure(results, i + 1, count + 2);
                    assert(results.take(count + 2) =~= results);
                }
                return Err(e);
            },
        }
        i += 1;
    }
    proof {
        gathered_step(results, count);
        gathered_step(results, count + 1);
    }
    let update_tags_packet = UpdateTags { tags: loaded.tags };
    match conn.write_packet(&update_tags_packet) {
        Ok(frame) => add_frame(&mut frames, frame),
        Err(e) => {
            proof {
                gathered_failure(results, count + 1, count + 2);
            }
            return Err(e);
        },
    }
    match conn.write_packet(&FinishConfiguration) {
        Ok(frame) => add_frame(&mut frames, frame),
        Err(e) => {
            return Err(e);
        },
    }
    Ok(frames)
}

/// The step of a packet that is looked at and answered with nothing.
pub open spec fn observed<T: Packet>(conn: Connection, payload: Seq<u8>, n: int) -> Step {
    match payload_decoded::<T>(payload) {
        Err(e) => conn.stays(Err(e@)),
        Ok(_) => conn.takes(n, Ok(ActionView::Continue)),
    }
}

/// The step of the client's list of known packs. The first one sets off the
/// closing burst, for which the registries have to be at hand: while they
/// are not, the packet stays where it is and the step asks for them. Under
/// a policy that refuses them, registries that name an entry twice are not
/// sent. A list that comes after the closing burst is passed over.
pub open spec fn known_packs_step(
    conn: Connection,
    payload: Seq<u8>,
    n: int,
    loaded: Option<Loaded>,
) -> Step {
    if conn.phase == Phase::Finishing {
        observed::<ServerboundKnownPacks>(conn, payload, n)
    } else {
        match loaded {
            None => conn.stays(Ok(ActionView::Load)),
            Some(documents) => match payload_decoded::<ServerboundKnownPacks>(payload) {
                Err(e) => conn.stays(Err(e@)),
                Ok(_) => if conn.duplicate_policy == DuplicatePolicy::Reject && !unique_registries(
                    documents,
                ) {
                    conn.takes(n, Err(duplicate_entry()))
                } else {
                    match final_burst(documents) {
                        Err(e) => conn.takes(n, Err(e)),
                        Ok(frames) => Step {
                            outcome: Ok(ActionView::Write(frames)),
                            state: conn.state,
                            phase: Phase::Finishing,
                            protocol_version: conn.protocol_version,
                            consumed: n,
                        },
                    }
                },
            },
        }
    }
}

/// The step of a connection in the configuration stage.
#[verifier::opaque]
pub open spec fn configuration_step(conn: Connection, closed: bool, loaded: Option<Loaded>) -> Step {
    if conn.phase == Phase::Entered {
        match initial_burst() {
            Err(e) => conn.stays(Err(e)),
            Ok(frames) => Step {
                outcome: Ok(ActionView::Write(frames)),
                state: conn.state,
                phase: Phase::Answered,
                protocol_version: conn.protocol_version,
                consumed: 0,
            },
        }
    } else {
        match peeked(conn.pending(), closed, conn.max_frame_length) {
            Err(e) => conn.stays(Err(e@)),
            Ok(None) => conn.stays(Ok(ActionView::Read)),
            Ok(Some(id)) => {
                let payload = next_payload(conn);
                let n = next_frame_len(conn);
                if id == CLIENT_INFORMATION {
                    observed::<ClientInformation>(conn, payload, n)
                } else if id == PLUGIN_MESSAGE {
                    observed::<ServerboundPluginMessage>(conn, payload, n)
                } else if id == KNOWN_PACKS {
                    known_packs_step(conn, payload, n, loaded)
                } else if id == ACKNOWLEDGE_FINISH {
                    match payload_decoded::<AcknowledgeFinishConfiguration>(payload) {
                        Err(e) => conn.stays(Err(e@)),
                        Ok(_) => Step {
                            outcome: Ok(ActionView::Continue),
                            state: ConnectionState::Play,
                            phase: Phase::Entered,
                            protocol_version: conn.protocol_version,
                            consumed: n,
                        },
                    }
                } else {
                    conn.takes(n, Ok(ActionView::Continue))
                }
            },
        }
    }
}

/// The payload of the frame at the front of a connection's buffer, which
/// is complete.
pub open spec fn next_payload(conn: Connection) -> Seq<u8> {
    let scan = frame_scan(conn.pending(), conn.max_frame_length);
    conn.pending().subrange(scan->header, scan->header + scan->length)
}

/// The number of bytes that the frame at the front of a connection's buffer
/// takes up, which is complete.
pub open spec fn next_frame_len(conn: Connection) -> int {
    let scan = frame_scan(conn.pending(), conn.max_frame_length);
    scan->header + scan->length
}

/// Takes the next packet, which is there, as one of type `T` and drops it.
fn observe<T: Decodable>(conn: &mut Connection) -> (r: Result<()>)
    requires
        frame_scan(old(conn).pending(), old(conn).max_frame_length) is Complete,
    ensures
        final(conn).settings() == old(conn).settings(),
        match payload_decoded::<T>(next_payload(*old(conn))) {
            Err(e) => r == Err::<(), Error>(e) && final(conn).pending() == old(conn).pending(),
            Ok(_) => r.is_ok() && final(conn).pending() == old(conn).pending().skip(
                next_frame_len(*old(conn)),
            ),
        },
{
    let _packet = conn.parse_packet::<T>()?;
    Ok(())
}

pub fn handle_configuration(
    conn: &mut Connection,
    closed: bool,
    loaded: Option<LoadedRegistries>,
) -> (r: Result<Action>)
    ensures
        stepped(
            *old(conn),
            *final(conn),
            r,
            configuration_step(
                *old(conn),
                closed,
                match loaded {
                    Some(documents) => Some(documents.deep_view()),
                    None => None,
                },
            ),
        ),
{
    proof {
        reveal(configuration_step);
        assert(conn.pending().skip(0) =~= conn.pending());
    }
    if conn.phase == Phase::Entered {
        let frames = send_initial_server_configuration(conn)?;
        conn.phase = Phase::Answered;
        return Ok(Action::Write(frames));
    }
    let id = match conn.peek_packet_id(closed)? {
        Poll::Pending => {
            return Ok(Action::Read);
        },
        Poll::Ready(id) => id,
    };
    if id == CLIENT_INFORMATION {
        observe::<ClientInformation>(conn)?;
        Ok(Action::Continue)
    } else if id == PLUGIN_MESSAGE {
        observe::<ServerboundPluginMessage>(conn)?;
        Ok(Action::Continue)
    } else if id == KNOWN_PACKS {
        if conn.phase == Phase::Finishing {
            observe::<ServerboundKnownPacks>(conn)?;
            return Ok(Action::Continue);
        }
        let documents = match loaded {
            Some(documents) => documents,
            None => {
                return Ok(Action::Load);
            },
        };
        observe::<ServerboundKnownPacks>(conn)?;
        if conn.duplicate_policy == DuplicatePolicy::Reject && !has_unique_registries(&documents) {
            return Err(Error::protocol("Duplicate registry entry"));
        }
        let frames = send_final_server_configuration(conn, documents)?;
        conn.phase = Phase::Finishing;
        Ok(Action::Write(frames))
    } else if id == ACKNOWLEDGE_FINISH {
        observe::<AcknowledgeFinishConfiguration>(conn)?;
        conn.state = ConnectionState::Play;
        conn.phase = Phase::Entered;
        Ok(Action::Continue)
    } else {
        let _ignored = conn.parse_packet_raw()?;
        Ok(Action::Continue)
    }
}

/// The frame of a packet from the client: its number and fields, framed.
pub open spec fn client_frame(id: i32, fields: Seq<u8>) -> Seq<u8> {
    frame_encoded(varint_encoded(id) + fields)
}

/// Whether a connection's buffer begins with the frame of a client's
/// packet, which is within the connection's limit, and goes on with `rest`.
pub open spec fn begins_with(conn: Connection, id: i32, fields: Seq<u8>, rest: Seq<u8>) -> bool {
    &&& conn.pending() == client_frame(id, fields) + rest
    &&& (varint_encoded(id) + fields).len() <= conn.max_frame_length
}

/// What stands at the front of a buffer that begins with a client's frame.
proof fn front_frame(conn: Connection, closed: bool, id: i32, fields: Seq<u8>, rest: Seq<u8>)
    requires
        begins_with(conn, id, fields, rest),
    ensures
        peeked(conn.pending(), closed, conn.max_frame_length) == Ok::<Option<i32>, Error>(Some(id)),
        next_payload(conn) == varint_encoded(id) + fields,
        next_frame_len(conn) == client_frame(id, fields).len(),
        conn.pending().skip(next_frame_len(conn)) == rest,
{
    let payload = varint_encoded(id) + fields;
    frame_complete(payload, rest, conn.max_frame_length);
    varint_round_trip(id, fields);
    assert(conn.pending().skip(client_frame(id, fields).len() as int) =~= rest);
}

/// What a client's frame decodes to as the packet whose number it carries:
/// what its fields decode to.
proof fn front_packet<T: Packet>(fields: Seq<u8>)
    ensures
        payload_decoded::<T>(varint_encoded(T::id()) + fields) == match T::decoded(fields) {
            Err(e) => Err::<T::V, Error>(e),
            Ok((value, _)) => Ok(value),
        },
{
    varint_round_trip(T::id(), fields);
    assert((varint_encoded(T::id()) + fields).skip(varint_encoded(T::id()).len() as int)
        =~= fields);
}

/// The client's settings are taken and answered with nothing, whenever they
/// come after the opening burst.
pub proof fn settings_are_observed(
    conn: Connection,
    closed: bool,
    loaded: Option<Loaded>,
    information: (Seq<char>, (u8, (i32, (bool, (u8, (i32, (bool, bool))))))),
    rest: Seq<u8>,
)
    requires
        conn.phase != Phase::Entered,
        ClientInformationFields::portable(information, Seq::empty()),
        begins_with(conn, CLIENT_INFORMATION, ClientInformationFields::encoded(information), rest),
    ensures
        configuration_step(conn, closed, loaded) == conn.takes(
            client_frame(CLIENT_INFORMATION, ClientInformationFields::encoded(information)).len() as int,
            Ok(ActionView::Continue),
        ),
        conn.pending().skip(
            client_frame(CLIENT_INFORMATION, ClientInformationFields::encoded(information)).len() as int,
        ) == rest,
{
    reveal(configuration_step);
    let fields = ClientInformationFields::encoded(information);
    ClientInformationFields::round_trip(information, Seq::empty());
    assert(fields + Seq::<u8>::empty() =~= fields);
    front_packet::<ClientInformation>(fields);
    front_frame(conn, closed, CLIENT_INFORMATION, fields, rest);
}

/// The first list of known packs sets off the closing burst: without the
/// registries the step asks for them and takes nothing, with them it takes
/// the packet and sends the burst.
pub proof fn known_packs_set_off_the_closing_burst(
    conn: Connection,
    closed: bool,
    loaded: Loaded,
    packs: Seq<(Seq<char>, (Seq<char>, Seq<char>))>,
    rest: Seq<u8>,
)
    requires
        conn.phase == Phase::Answered,
        <Vec<KnownPack>>::portable(packs, Seq::empty()),
        begins_with(conn, KNOWN_PACKS, <Vec<KnownPack>>::encoded(packs), rest),
        conn.duplicate_policy == DuplicatePolicy::Allow || unique_registries(loaded),
        final_burst(loaded) is Ok,
    ensures
        configuration_step(conn, closed, None) == conn.stays(Ok(ActionView::Load)),
        configuration_step(conn, closed, Some(loaded)) == (Step {
            outcome: Ok(ActionView::Write(final_burst(loaded)->Ok_0)),
            state: conn.state,
            phase: Phase::Finishing,
            protocol_version: conn.protocol_version,
            consumed: client_frame(KNOWN_PACKS, <Vec<KnownPack>>::encoded(packs)).len() as int,
        }),
        conn.pending().skip(
            client_frame(KNOWN_PACKS, <Vec<KnownPack>>::encoded(packs)).len() as int,
        ) == rest,
{
    reveal(configuration_step);
    let fields = <Vec<KnownPack>>::encoded(packs);
    <Vec<KnownPack>>::round_trip(packs, Seq::empty());
    assert(fields + Seq::<u8>::empty() =~= fields);
    front_packet::<ServerboundKnownPacks>(fields);
    front_frame(conn, closed, KNOWN_PACKS, fields, rest);
}

/// The acknowledgement ends the stage, whenever it comes after the opening
/// burst.
pub proof fn acknowledgement_ends_the_stage(
    conn: Connection,
    closed: bool,
    loaded: Option<Loaded>,
    rest: Seq<u8>,
)
    requires
        conn.phase != Phase::Entered,
        begins_with(conn, ACKNOWLEDGE_FINISH, Seq::empty(), rest),
    ensures
        configuration_step(conn, closed, loaded) == (Step {
            outcome: Ok(ActionView::Continue),
            state: ConnectionState::Play,
            phase: Phase::Entered,
            protocol_version: conn.protocol_version,
            consumed: client_frame(ACKNOWLEDGE_FINISH, Seq::empty()).len() as int,
        }),
        conn.pending().skip(client_frame(ACKNOWLEDGE_FINISH, Seq::empty()).len() as int) == rest,
{
    reveal(configuration_step);
    front_packet::<AcknowledgeFinishConfiguration>(Seq::empty());
    front_frame(conn, closed, ACKNOWLEDGE_FINISH, Seq::empty(), rest);
}

/// What the client of the convergence law sends: its settings and its known
/// packs, in either order, and then its acknowledgement.
pub open spec fn client_script(
    packs_first: bool,
    information: (Seq<char>, (u8, (i32, (bool, (u8, (i32, (bool, bool))))))),
    packs: Seq<(Seq<char>, (Seq<char>, Seq<char>))>,
) -> Seq<u8> {
    let settings = client_frame(CLIENT_INFORMATION, ClientInformationFields::encoded(information));
    let known = client_frame(KNOWN_PACKS, <Vec<KnownPack>>::encoded(packs));
    let end = client_frame(ACKNOWLEDGE_FINISH, Seq::empty());
    if packs_first {
        known + settings + end
    } else {
        settings + known + end
    }
}

/// Convergence of the configuration stage. A client sends its settings, its
/// known packs and its acknowledgement, each of them a packet that reads
/// back and is within the limit, the settings and the known packs in either
/// order. Then the server sends the opening burst of three frames, asks for
/// the registries when it comes upon the known packs, sends the closing
/// burst of a frame for each registry and two more, answers the settings
/// with nothing, and on the acknowledgement moves on to the play stage with
/// nothing left in the buffer. Where the connection refuses registries that
/// name an entry twice, this is said of registries that do not.
pub proof fn configuration_converges(
    entered: Connection,
    opened: Connection,
    first_read: Connection,
    second_read: Connection,
    finished: Connection,
    packs_first: bool,
    information: (Seq<char>, (u8, (i32, (bool, (u8, (i32, (bool, bool))))))),
    packs: Seq<(Seq<char>, (Seq<char>, Seq<char>))>,
    loaded: Loaded,
)
    requires
        entered.phase == Phase::Entered,
        entered.pending() == client_script(packs_first, information, packs),
        ClientInformationFields::portable(information, Seq::empty()),
        <Vec<KnownPack>>::portable(packs, Seq::empty()),
        (varint_encoded(CLIENT_INFORMATION) + ClientInformationFields::encoded(information)).len()
            <= entered.max_frame_length,
        (varint_encoded(KNOWN_PACKS) + <Vec<KnownPack>>::encoded(packs)).len()
            <= entered.max_frame_length,
        entered.duplicate_policy == DuplicatePolicy::Allow || unique_registries(loaded),
        final_burst(loaded) is Ok,
        follows(entered, configuration_step(entered, false, None), opened),
        follows(
            opened,
            configuration_step(
                opened,
                false,
                if packs_first {
                    Some(loaded)
                } else {
                    None
                },
            ),
            first_read,
        ),
        follows(
            first_read,
            configuration_step(
                first_read,
                false,
                if packs_first {
                    None
                } else {
                    Some(loaded)
                },
            ),
            second_read,
        ),
        follows(second_read, configuration_step(second_read, false, None), finished),
    ensures
        configuration_step(entered, false, None).outcome == Ok::<ActionView, Failure>(
            ActionView::Write(initial_burst()->Ok_0),
        ),
        initial_burst()->Ok_0.len() == 3,
        configuration_step(
            if packs_first {
                opened
            } else {
                first_read
            },
            false,
            None,
        ).outcome == Ok::<ActionView, Failure>(ActionView::Load),
        configuration_step(
            if packs_first {
                opened
            } else {
                first_read
            },
            false,
            Some(loaded),
        ).outcome == Ok::<ActionView, Failure>(ActionView::Write(final_burst(loaded)->Ok_0)),
        final_burst(loaded)->Ok_0.len() == loaded.registries.len() + 2,
        configuration_step(
            if packs_first {
                first_read
            } else {
                opened
            },
            false,
            None,
        ).outcome == Ok::<ActionView, Failure>(ActionView::Continue),
        configuration_step(second_read, false, None).outcome == Ok::<ActionView, Failure>(
            ActionView::Continue,
        ),
        finished.state == ConnectionState::Play,
        finished.pending() == Seq::<u8>::empty(),
{
    let settings = client_frame(CLIENT_INFORMATION, ClientInformationFields::encoded(information));
    let known = client_frame(KNOWN_PACKS, <Vec<KnownPack>>::encoded(packs));
    let end = client_frame(ACKNOWLEDGE_FINISH, Seq::empty());
    initial_burst_is_made();
    initial_burst_len();
    final_burst_len(loaded);
    assert(configuration_step(entered, false, None) == (Step {
        outcome: Ok(ActionView::Write(initial_burst()->Ok_0)),
        state: entered.state,
        phase: Phase::Answered,
        protocol_version: entered.protocol_version,
        consumed: 0,
    })) by {
        reveal(configuration_step);
    }
    assert(entered.pending().skip(0) =~= entered.pending());
    assert((varint_encoded(ACKNOWLEDGE_FINISH) + Seq::<u8>::empty()).len() == 1) by {
        reveal_with_fuel(varint_groups, 2);
    }
    assert(0 <= varint_encoded(CLIENT_INFORMATION).len());
    assert((varint_encoded(CLIENT_INFORMATION) + ClientInformationFields::encoded(
        information,
    )).len() >= 1) by {
        reveal_with_fuel(varint_groups, 2);
    }
    if packs_first {
        assert(opened.pending() =~= known + (settings + end));
        known_packs_set_off_the_closing_burst(opened, false, loaded, packs, settings + end);
        settings_are_observed(first_read, false, None, information, end);
    } else {
        assert(opened.pending() =~= settings + (known + end));
        settings_are_observed(opened, false, None, information, known + end);
        known_packs_set_off_the_closing_burst(first_read, false, loaded, packs, end);
    }
    assert(second_read.pending() =~= end + Seq::<u8>::empty());
    acknowledgement_ends_the_stage(second_read, false, None, Seq::empty());
}

} // verus!
