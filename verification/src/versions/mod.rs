//! The protocol versions that the server speaks, and the table that finds
//! one by its number.

pub mod registry;
pub mod v1_20_6;
pub mod v1_21_5;

use crate::protocol::error::VersionError;
use vstd::prelude::*;

verus! {

/// One protocol version.
pub trait Version {
    /// The number by which clients name the version.
    spec fn number(&self) -> i32;

    fn protocol_version(&self) -> (r: i32)
        ensures
            r == self.number(),
    ;
}

/// The table of supported versions.
pub struct VersionManager;

/// Whether the table holds a version with this number.
pub open spec fn supported(protocol_version: i32) -> bool {
    protocol_version == 770
}

impl VersionManager {
    pub fn get_version(protocol_version: i32) -> (r: Result<&'static dyn Version, VersionError>)
        ensures
            supported(protocol_version) ==> (r matches Ok(version) && version.number()
                == protocol_version),
            !supported(protocol_version) ==> r == Err::<&'static dyn Version, VersionError>(
                VersionError::UnsupportedVersion(protocol_version),
            ),
    {
        match protocol_version {
            770 => Ok(&v1_21_5::VersionImpl),
            _ => Err(VersionError::UnsupportedVersion(protocol_version)),
        }
    }
}

} // verus!
