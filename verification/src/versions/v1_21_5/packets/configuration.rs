//! The configuration packets of 1.21.5: those of 1.20.6.

pub use crate::versions::v1_20_6::packets::configuration::{
    read_feature_flags, read_known_packs, read_tags, write_feature_flags, write_known_packs,
    write_tags, AcknowledgeFinishConfiguration, ClientInformation, ClientInformationFields,
    ClientboundKnownPacks, ClientboundPluginMessage, FeatureFlags, FinishConfiguration,
    KnownPack, RegistryData, RegistryEntry, ServerboundKnownPacks, ServerboundPluginMessage,
    Tag, TagRegistry, UpdateTags,
};
