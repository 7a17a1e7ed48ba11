use crate::versions::Version;
use vstd::prelude::*;

pub mod handlers;
pub mod packets;

verus! {

/// Protocol version 770, spoken by game version 1.21.5.
pub struct VersionImpl;

pub const V1_21_5: VersionImpl = VersionImpl;

impl Version for VersionImpl {
    open spec fn number(&self) -> i32 {
        770
    }

    fn protocol_version(&self) -> (r: i32) {
        770
    }
}

} // verus!
