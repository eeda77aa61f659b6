//! The closed version-policy table: for each of the five supported Bolt
//! protocol versions, its authentication style and its result-retrieval
//! style. Both the connect path and the health-check path are driven from
//! this one table, so the per-version branching lives in a single place.

use vstd::prelude::*;

verus! {

/// Bolt protocol version 1.0 as negotiated on the wire.
pub const V1_0: u32 = 0x0001;

/// Bolt protocol version 2.0 as negotiated on the wire.
pub const V2_0: u32 = 0x0002;

/// Bolt protocol version 3.0 as negotiated on the wire.
pub const V3_0: u32 = 0x0003;

/// Bolt protocol version 4.0 as negotiated on the wire.
pub const V4_0: u32 = 0x0004;

/// Bolt protocol version 4.1 as negotiated on the wire.
pub const V4_1: u32 = 0x0104;

/// How a session authenticates once its version is negotiated.
#[derive(Clone, Copy, Debug, PartialEq, Eq, Structural)]
pub enum AuthStyle {
    /// Two-phase init: an explicit user-agent string plus the remaining
    /// credential fields.
    Legacy,
    /// One greeting message carrying the whole metadata map.
    Modern,
}

/// How pending result rows are retrieved after a query is run.
#[derive(Clone, Copy, Debug, PartialEq, Eq, Structural)]
pub enum RetrievalStyle {
    /// One request fetches every pending row.
    PullAll,
    /// The request carries a row count; a sentinel of -1 means "all
    /// remaining rows".
    BoundedPull,
}

/// One row of the version-policy table.
#[derive(Clone, Copy, Debug, PartialEq, Eq, Structural)]
pub struct VersionPolicy {
    pub auth: AuthStyle,
    pub retrieval: RetrievalStyle,
}

/// The policy table itself: a closed mapping from the five supported
/// versions to their styles. Every other version is unsupported, never
/// "treated like the nearest known version".
pub open spec fn spec_policy_for(version: u32) -> Option<VersionPolicy> {
    if version == V1_0 || version == V2_0 {
        Some(VersionPolicy { auth: AuthStyle::Legacy, retrieval: RetrievalStyle::PullAll })
    } else if version == V3_0 {
        Some(VersionPolicy { auth: AuthStyle::Modern, retrieval: RetrievalStyle::PullAll })
    } else if version == V4_0 || version == V4_1 {
        Some(VersionPolicy { auth: AuthStyle::Modern, retrieval: RetrievalStyle::BoundedPull })
    } else {
        None
    }
}

/// True exactly on the five versions the policy table covers.
pub open spec fn spec_version_supported(version: u32) -> bool {
    spec_policy_for(version) is Some
}

/// Looks a negotiated version up in the policy table.
pub fn policy_for(version: u32) -> (r: Option<VersionPolicy>)
    ensures
        r == spec_policy_for(version),
{
    if version == V1_0 || version == V2_0 {
        Some(VersionPolicy { auth: AuthStyle::Legacy, retrieval: RetrievalStyle::PullAll })
    } else if version == V3_0 {
        Some(VersionPolicy { auth: AuthStyle::Modern, retrieval: RetrievalStyle::PullAll })
    } else if version == V4_0 || version == V4_1 {
        Some(VersionPolicy { auth: AuthStyle::Modern, retrieval: RetrievalStyle::BoundedPull })
    } else {
        None
    }
}

/// Decides whether a negotiated version is one of the five supported ones.
pub fn version_supported(version: u32) -> (r: bool)
    ensures
        r == spec_version_supported(version),
{
    policy_for(version).is_some()
}

} // verus!
