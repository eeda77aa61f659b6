//! Version-aware session logic for a pooled Bolt connection manager.
//!
//! The manager knows how to establish an authenticated Bolt session and how
//! to verify that an existing session is still healthy, across five
//! backward-incompatible protocol versions. Transport I/O and the wire
//! codec are external collaborators: this crate decides which protocol
//! steps to take and with what data, and classifies the replies. An
//! unverified shell owns the byte stream and drives these decisions.

pub mod error;
pub mod laws;
pub mod manager;
pub mod message;
pub mod metadata;
pub mod policy;
pub mod session;

pub use error::Error;
pub use manager::{BoltConnectionManager, HostAddress, HostIp};
pub use message::ServerResponse;
pub use metadata::{MetadataMap, MetadataValue};
pub use policy::{AuthStyle, RetrievalStyle, VersionPolicy};
pub use session::{complete_connect, confirm_health_response, AuthPlan, Connection, PullPlan, RunPlan};
