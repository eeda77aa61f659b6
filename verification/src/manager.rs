//! The connection manager: the immutable configuration a pool collaborator
//! shares across all of its connect and health-check calls, and the
//! decisions both operations take from it.
//!
//! The manager is built once, from the already-resolved address candidates,
//! and never mutated: every method borrows it immutably and works on its
//! own copy of the metadata, so any number of concurrent calls can proceed
//! without interference.

use vstd::prelude::*;
use crate::error::Error;
use crate::metadata::{MetadataMap, MetadataValue};
use crate::policy::{policy_for, AuthStyle, RetrievalStyle};
use crate::session::{
    spec_auth_action, spec_pull_action, spec_run_action, auth_plan_matches, pull_plan_matches,
    run_plan_matches, AuthPlan, PullPlan, RunPlan,
};

verus! {

/// A resolved host address, as much of it as the session logic reads: the
/// raw IP bytes and the port. The I/O shell converts its own socket
/// address type to and from this one.
#[derive(Clone, Copy, Debug, PartialEq, Eq)]
pub enum HostIp {
    /// An IPv4 address, as its four octets.
    V4([u8; 4]),
    /// An IPv6 address, as its sixteen octets.
    V6([u8; 16]),
}

/// A concrete network endpoint.
#[derive(Clone, Copy, Debug, PartialEq, Eq)]
pub struct HostAddress {
    pub ip: HostIp,
    pub port: u16,
}

/// Which candidate a freshly resolved address list settles on: the first
/// result wins, and an empty list is a permanent configuration failure.
pub open spec fn spec_select_address(candidates: Seq<HostAddress>) -> Option<HostAddress> {
    if candidates.len() == 0 {
        None
    } else {
        Some(candidates[0])
    }
}

/// A Bolt connection manager: the immutable record of resolved address,
/// optional TLS server name, the ordered 4-slot version-preference list
/// offered in the handshake, and the authentication metadata.
#[derive(Debug)]
pub struct BoltConnectionManager {
    addr: HostAddress,
    domain: Option<String>,
    preferred_versions: [u32; 4],
    metadata: MetadataMap,
}

impl BoltConnectionManager {
    /// The resolved address connect opens its transport to.
    pub closed spec fn spec_addr(&self) -> HostAddress {
        self.addr
    }

    /// The optional TLS server name for certificate verification.
    pub closed spec fn spec_domain(&self) -> Option<String> {
        self.domain
    }

    /// The 4-slot version-preference list, most preferred first; unused
    /// slots hold zero.
    pub closed spec fn spec_preferred_versions(&self) -> [u32; 4] {
        self.preferred_versions
    }

    /// The stored metadata bag.
    pub closed spec fn spec_metadata(&self) -> MetadataMap {
        self.metadata
    }

    /// A manager is valid when its stored metadata bag is.
    pub open spec fn wf(&self) -> bool {
        self.spec_metadata().wf()
    }

    /// Creates a manager from the resolved address candidates, the optional
    /// TLS server name, the 4-slot version-preference list, and the
    /// metadata. Resolution yielding zero candidates is rejected here, at
    /// construction time, and never surfaces as a connect-time failure;
    /// otherwise the first candidate wins.
    pub fn new(
        candidates: Vec<HostAddress>,
        domain: Option<String>,
        preferred_versions: [u32; 4],
        metadata: MetadataMap,
    ) -> (r: Result<BoltConnectionManager, Error>)
        requires
            metadata.wf(),
        ensures
            match spec_select_address(candidates@) {
                None => r == Err::<BoltConnectionManager, Error>(Error::InvalidAddress),
                Some(a) => r matches Ok(m) && m.spec_addr() == a && m.spec_domain() == domain
                    && m.spec_preferred_versions() == preferred_versions
                    && m.spec_metadata() == metadata && m.wf(),
            },
    {
        if candidates.len() == 0 {
            Err(Error::InvalidAddress)
        } else {
            Ok(BoltConnectionManager { addr: candidates[0], domain, preferred_versions, metadata })
        }
    }

    /// The resolved address.
    pub fn addr(&self) -> (a: HostAddress)
        ensures
            a == self.spec_addr(),
    {
        self.addr
    }

    /// The optional TLS server name.
    pub fn domain(&self) -> (d: &Option<String>)
        ensures
            *d == self.spec_domain(),
    {
        &self.domain
    }

    /// The 4-slot version-preference list offered in the handshake.
    pub fn preferred_versions(&self) -> (v: [u32; 4])
        ensures
            v == self.spec_preferred_versions(),
    {
        self.preferred_versions
    }

    /// The stored metadata bag.
    pub fn metadata(&self) -> (m: &MetadataMap)
        ensures
            *m == self.spec_metadata(),
    {
        &self.metadata
    }

    /// Decides the authentication step for a freshly negotiated version:
    /// an unsupported version is rejected before any further I/O; the
    /// legacy style extracts "user_agent" from a private copy of the
    /// metadata, rejecting a missing or non-string value before anything is
    /// sent; the modern style sends the whole copy. The stored metadata is
    /// never touched.
    pub fn plan_auth(&self, version: u32) -> (r: Result<AuthPlan, Error>)
        requires
            self.wf(),
        ensures
            auth_plan_matches(r, spec_auth_action(self.spec_metadata()@, version)),
    {
        match policy_for(version) {
            None => Err(Error::InvalidClientVersion { version }),
            Some(p) => match p.auth {
                AuthStyle::Modern => Ok(AuthPlan::Modern { metadata: self.metadata.duplicate() }),
                AuthStyle::Legacy => {
                    let mut working = self.metadata.duplicate();
                    let key: String = "user_agent".to_owned();
                    match working.remove(&key) {
                        Some(MetadataValue::Str(user_agent)) => Ok(AuthPlan::Legacy {
                            user_agent,
                            metadata: working,
                        }),
                        Some(_) => Err(Error::InvalidMetadata {
                            metadata: "user_agent must be a string".to_owned(),
                        }),
                        None => Err(Error::InvalidMetadata {
                            metadata: "must contain a user_agent".to_owned(),
                        }),
                    }
                },
            },
        }
    }

    /// Decides the query step of a health check: the trivial statement,
    /// with request metadata exactly under the bounded-pull retrieval
    /// style, from a private copy; an unsupported version is rejected
    /// before anything is sent.
    pub fn plan_check_run(&self, version: u32) -> (r: Result<RunPlan, Error>)
        requires
            self.wf(),
        ensures
            run_plan_matches(r, spec_run_action(self.spec_metadata()@, version)),
    {
        match policy_for(version) {
            None => Err(Error::InvalidClientVersion { version }),
            Some(p) => match p.retrieval {
                RetrievalStyle::PullAll => Ok(RunPlan::Plain {
                    statement: "RETURN 1;".to_owned(),
                }),
                RetrievalStyle::BoundedPull => Ok(RunPlan::WithMetadata {
                    statement: "RETURN 1;".to_owned(),
                    metadata: self.metadata.duplicate(),
                }),
            },
        }
    }

    /// Decides the retrieval step of a health check: all pending rows in
    /// one request, or a bounded request whose -1 sentinel means "all
    /// remaining"; an unsupported version is rejected before anything is
    /// sent.
    pub fn plan_check_pull(&self, version: u32) -> (r: Result<PullPlan, Error>)
        ensures
            pull_plan_matches(r, spec_pull_action(version)),
    {
        match policy_for(version) {
            None => Err(Error::InvalidClientVersion { version }),
            Some(p) => match p.retrieval {
                RetrievalStyle::PullAll => Ok(PullPlan::All),
                RetrievalStyle::BoundedPull => Ok(PullPlan::Bounded { rows: -1 }),
            },
        }
    }
}

} // verus!
