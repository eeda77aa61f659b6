//! The session state machine: what a connect or health-check call does at
//! each protocol step, as a function of the negotiated version, the
//! configured metadata, and the peer's replies.
//!
//! The spec-level `*Action` and `*Outcome` types say what the right step
//! is; the exec-level plan types carry the data an unverified I/O shell
//! needs to perform it. The shell performs one step, hands the reply back,
//! and the next decision is again taken here.

use vstd::prelude::*;
use crate::error::{missing_user_agent_text, mistyped_user_agent_text, Error};
use crate::message::ServerResponse;
use crate::metadata::{MetadataMap, ValueModel};
use crate::policy::{spec_policy_for, spec_version_supported, AuthStyle, RetrievalStyle};

verus! {

/// The metadata key the legacy authentication style consumes.
pub open spec fn user_agent_key() -> Seq<char> {
    "user_agent"@
}

/// The trivial round-trip query a health check runs.
pub open spec fn health_statement() -> Seq<char> {
    "RETURN 1;"@
}

/// The bounded-pull row count meaning "all remaining rows".
pub open spec fn all_remaining_rows() -> i64 {
    -1i64
}

/// What connect does once the handshake has negotiated a version: reject,
/// or send one authentication message of the appropriate style.
pub enum ConnectAction {
    /// The version is absent from the policy table; nothing further is sent.
    RejectVersion(u32),
    /// The metadata is unusable for the negotiated style; the payload is
    /// the complaint text. Nothing is sent.
    RejectMetadata(Seq<char>),
    /// Send the legacy init message: the extracted user-agent string plus
    /// the remaining metadata fields.
    SendLegacy(Seq<char>, Map<Seq<char>, ValueModel>),
    /// Send the modern greeting message carrying the whole metadata map.
    SendModern(Map<Seq<char>, ValueModel>),
}

/// The authentication step prescribed for a negotiated version over the
/// configured metadata.
pub open spec fn spec_auth_action(md: Map<Seq<char>, ValueModel>, version: u32) -> ConnectAction {
    match spec_policy_for(version) {
        None => ConnectAction::RejectVersion(version),
        Some(p) => match p.auth {
            AuthStyle::Modern => ConnectAction::SendModern(md),
            AuthStyle::Legacy => if !md.contains_key(user_agent_key()) {
                ConnectAction::RejectMetadata(missing_user_agent_text())
            } else if !md[user_agent_key()].is_string() {
                ConnectAction::RejectMetadata(mistyped_user_agent_text())
            } else {
                ConnectAction::SendLegacy(
                    md[user_agent_key()].string_content(),
                    md.remove(user_agent_key()),
                )
            },
        },
    }
}

/// The authentication message a connect call asks the I/O shell to send.
#[derive(Debug, PartialEq)]
pub enum AuthPlan {
    /// The legacy init: an explicit user-agent plus the remaining fields.
    Legacy { user_agent: String, metadata: MetadataMap },
    /// The modern greeting carrying the whole metadata map.
    Modern { metadata: MetadataMap },
}

/// How an executable auth-planning result realizes a prescribed action.
pub open spec fn auth_plan_matches(r: Result<AuthPlan, Error>, action: ConnectAction) -> bool {
    match action {
        ConnectAction::RejectVersion(v) => r == Err::<AuthPlan, Error>(
            Error::InvalidClientVersion { version: v },
        ),
        ConnectAction::RejectMetadata(text) => r matches Err(Error::InvalidMetadata { metadata })
            && metadata@ == text,
        ConnectAction::SendLegacy(ua, rest) => r matches Ok(AuthPlan::Legacy { user_agent, metadata })
            && user_agent@ == ua && metadata@ == rest && metadata.wf(),
        ConnectAction::SendModern(all) => r matches Ok(AuthPlan::Modern { metadata })
            && metadata@ == all && metadata.wf(),
    }
}

/// An established session handle, carrying the version the handshake
/// negotiated. Only a successful connect produces one, so its version is
/// always in the policy table.
#[derive(Clone, Copy, Debug, PartialEq, Eq, Structural)]
pub struct Connection {
    version: u32,
}

impl Connection {
    /// The negotiated protocol version.
    pub closed spec fn spec_version(&self) -> u32 {
        self.version
    }

    /// A connection is valid exactly when its version is in the policy
    /// table; connect establishes this and check relies on it.
    pub open spec fn wf(&self) -> bool {
        spec_version_supported(self.spec_version())
    }

    /// Reports the negotiated protocol version.
    pub fn version(&self) -> (v: u32)
        ensures
            v == self.spec_version(),
    {
        self.version
    }
}

/// What connect yields once the authentication reply is in: a connection
/// on the negotiated version, or the offending reply.
pub enum ConnectOutcome {
    /// Authenticated; the payload is the negotiated version.
    Connected(u32),
    /// The reply was not a positive acknowledgement.
    Rejected(ServerResponse),
}

/// The outcome of a connect whose authentication reply was `response`.
pub open spec fn spec_connect_outcome(version: u32, response: ServerResponse) -> ConnectOutcome {
    if response == ServerResponse::Success {
        ConnectOutcome::Connected(version)
    } else {
        ConnectOutcome::Rejected(response)
    }
}

/// Classifies the single authentication reply: a positive acknowledgement
/// yields the session handle, anything else fails the connect with the
/// received shape kept for diagnostics.
pub fn complete_connect(version: u32, response: ServerResponse) -> (r: Result<Connection, Error>)
    requires
        spec_version_supported(version),
    ensures
        match spec_connect_outcome(version, response) {
            ConnectOutcome::Connected(v) => r matches Ok(c) && c.spec_version() == v && c.wf(),
            ConnectOutcome::Rejected(m) => r == Err::<Connection, Error>(
                Error::ClientInitFailed { message: m },
            ),
        },
{
    match response {
        ServerResponse::Success => Ok(Connection { version }),
        other => Err(Error::ClientInitFailed { message: other }),
    }
}

/// What a health check does at its query step: reject the version, or run
/// the trivial statement, with request metadata exactly under the
/// bounded-pull retrieval style.
pub enum RunAction {
    /// The version is absent from the policy table; nothing is sent.
    RejectVersion(u32),
    /// Run the statement with no request metadata.
    RunPlain(Seq<char>),
    /// Run the statement together with the configured metadata.
    RunWithMetadata(Seq<char>, Map<Seq<char>, ValueModel>),
}

/// The query step prescribed for a negotiated version.
pub open spec fn spec_run_action(md: Map<Seq<char>, ValueModel>, version: u32) -> RunAction {
    match spec_policy_for(version) {
        None => RunAction::RejectVersion(version),
        Some(p) => match p.retrieval {
            RetrievalStyle::PullAll => RunAction::RunPlain(health_statement()),
            RetrievalStyle::BoundedPull => RunAction::RunWithMetadata(health_statement(), md),
        },
    }
}

/// The query message a health check asks the I/O shell to send.
#[derive(Debug, PartialEq)]
pub enum RunPlan {
    /// The statement alone.
    Plain { statement: String },
    /// The statement together with request metadata.
    WithMetadata { statement: String, metadata: MetadataMap },
}

/// How an executable run-planning result realizes a prescribed action.
pub open spec fn run_plan_matches(r: Result<RunPlan, Error>, action: RunAction) -> bool {
    match action {
        RunAction::RejectVersion(v) => r == Err::<RunPlan, Error>(
            Error::InvalidClientVersion { version: v },
        ),
        RunAction::RunPlain(stmt) => r matches Ok(RunPlan::Plain { statement })
            && statement@ == stmt,
        RunAction::RunWithMetadata(stmt, md) => r matches Ok(RunPlan::WithMetadata {
            statement,
            metadata,
        }) && statement@ == stmt && metadata@ == md && metadata.wf(),
    }
}

/// What a health check does at its retrieval step.
pub enum PullAction {
    /// The version is absent from the policy table; nothing is sent.
    RejectVersion(u32),
    /// Request every pending row in one operation.
    PullAllRows,
    /// Request a bounded number of rows; the payload is the row count,
    /// with -1 meaning "all remaining".
    PullBounded(i64),
}

/// The retrieval step prescribed for a negotiated version.
pub open spec fn spec_pull_action(version: u32) -> PullAction {
    match spec_policy_for(version) {
        None => PullAction::RejectVersion(version),
        Some(p) => match p.retrieval {
            RetrievalStyle::PullAll => PullAction::PullAllRows,
            RetrievalStyle::BoundedPull => PullAction::PullBounded(all_remaining_rows()),
        },
    }
}

/// The retrieval request a health check asks the I/O shell to send.
#[derive(Clone, Copy, Debug, PartialEq, Eq, Structural)]
pub enum PullPlan {
    /// Retrieve all pending rows.
    All,
    /// Retrieve `rows` rows, -1 meaning "all remaining".
    Bounded { rows: i64 },
}

/// How an executable pull-planning result realizes a prescribed action.
pub open spec fn pull_plan_matches(r: Result<PullPlan, Error>, action: PullAction) -> bool {
    match action {
        PullAction::RejectVersion(v) => r == Err::<PullPlan, Error>(
            Error::InvalidClientVersion { version: v },
        ),
        PullAction::PullAllRows => r == Ok::<PullPlan, Error>(PullPlan::All),
        PullAction::PullBounded(n) => r == Ok::<PullPlan, Error>(PullPlan::Bounded { rows: n }),
    }
}

/// Classifies one health-check reply: only a positive acknowledgement lets
/// the check proceed; anything else fails the whole check, with the
/// received shape kept for diagnostics.
pub fn confirm_health_response(response: ServerResponse) -> (r: Result<(), Error>)
    ensures
        response.spec_is_positive() ==> r == Ok::<(), Error>(()),
        !response.spec_is_positive() ==> r == Err::<(), Error>(
            Error::UnexpectedResponse { message: response },
        ),
{
    match response {
        ServerResponse::Success => Ok(()),
        other => Err(Error::UnexpectedResponse { message: other }),
    }
}

/// What a whole health check yields, given the negotiated version and the
/// replies to the query and retrieval steps. A reply is only ever examined
/// if every earlier step succeeded.
pub enum CheckOutcome {
    /// The version is absent from the policy table.
    RejectVersion(u32),
    /// Some step's reply was not a positive acknowledgement; the payload is
    /// the first offending reply.
    Unhealthy(ServerResponse),
    /// Both round trips acknowledged positively: the connection is healthy.
    Healthy,
}

/// The outcome of a health check whose two replies were `run_response` and
/// `pull_response`.
pub open spec fn spec_check_outcome(
    version: u32,
    run_response: ServerResponse,
    pull_response: ServerResponse,
) -> CheckOutcome {
    if spec_policy_for(version) is None {
        CheckOutcome::RejectVersion(version)
    } else if run_response != ServerResponse::Success {
        CheckOutcome::Unhealthy(run_response)
    } else if pull_response != ServerResponse::Success {
        CheckOutcome::Unhealthy(pull_response)
    } else {
        CheckOutcome::Healthy
    }
}

} // verus!
