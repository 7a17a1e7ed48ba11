use crate::versions::Version;
use vstd::prelude::*;

pub mod packets;

verus! {

/// Protocol version 766, spoken by game version 1.20.6.
pub struct VersionImpl;

pub const V1_20_6: VersionImpl = VersionImpl;

impl Version for VersionImpl {
    open spec fn number(&self) -> i32 {
        766
    }

    fn protocol_version(&self) -> (r: i32) {
        766
    }
}

} // verus!
