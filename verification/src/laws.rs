//! The guarantees the session logic gives its pool collaborator, stated
//! once, over the same spec functions the executable contracts use.

use vstd::prelude::*;
use crate::error::{missing_user_agent_text, mistyped_user_agent_text, Error};
use crate::manager::{spec_select_address, HostAddress};
use crate::message::ServerResponse;
use crate::metadata::ValueModel;
use crate::policy::{spec_policy_for, spec_version_supported, AuthStyle};
use crate::session::{
    auth_plan_matches, spec_auth_action, spec_check_outcome, spec_connect_outcome,
    spec_pull_action, spec_run_action, user_agent_key, AuthPlan, CheckOutcome, ConnectAction,
    ConnectOutcome, PullAction, RunAction,
};

verus! {

/// On every supported version, a connect whose authentication reply is a
/// positive acknowledgement yields a connection that reports exactly the
/// version the handshake negotiated.
pub proof fn connect_reports_negotiated_version(version: u32, response: ServerResponse)
    requires
        spec_version_supported(version),
        response == ServerResponse::Success,
    ensures
        spec_connect_outcome(version, response) == ConnectOutcome::Connected(version),
{
}

/// On every supported version, a connect whose authentication reply is
/// anything but a positive acknowledgement — as when the peer rejects the
/// credentials — fails, and with the authentication error carrying that
/// reply, never any other kind.
pub proof fn rejected_credentials_fail_connect(version: u32, response: ServerResponse)
    requires
        spec_version_supported(version),
        response != ServerResponse::Success,
    ensures
        spec_connect_outcome(version, response) == ConnectOutcome::Rejected(response),
{
}

/// A health check on a connection a successful connect just produced never
/// stumbles over the version: both of its steps are prescribed, and with
/// positive acknowledgements to both, the whole check succeeds.
pub proof fn fresh_connection_check_succeeds(md: Map<Seq<char>, ValueModel>, version: u32)
    requires
        spec_version_supported(version),
    ensures
        !(spec_run_action(md, version) is RejectVersion),
        !(spec_pull_action(version) is RejectVersion),
        spec_check_outcome(version, ServerResponse::Success, ServerResponse::Success)
            == CheckOutcome::Healthy,
{
}

/// Under a legacy-style version, metadata lacking a string-typed
/// "user_agent" entry is rejected outright: the prescribed step is a
/// metadata rejection with the exact complaint, and no authentication
/// message of either style is ever prescribed.
pub proof fn missing_user_agent_rejected_before_auth(
    md: Map<Seq<char>, ValueModel>,
    version: u32,
)
    requires
        spec_policy_for(version) matches Some(p) && p.auth == AuthStyle::Legacy,
        !md.contains_key(user_agent_key()) || !md[user_agent_key()].is_string(),
    ensures
        !md.contains_key(user_agent_key()) ==> spec_auth_action(md, version)
            == ConnectAction::RejectMetadata(missing_user_agent_text()),
        md.contains_key(user_agent_key()) ==> spec_auth_action(md, version)
            == ConnectAction::RejectMetadata(mistyped_user_agent_text()),
        !(spec_auth_action(md, version) is SendLegacy),
        !(spec_auth_action(md, version) is SendModern),
{
}

/// A negotiated version absent from the policy table is fatal everywhere:
/// connect and both health-check steps reject it with the version error,
/// before prescribing any further protocol step.
pub proof fn unsupported_version_rejected_everywhere(
    md: Map<Seq<char>, ValueModel>,
    version: u32,
)
    requires
        !spec_version_supported(version),
    ensures
        spec_auth_action(md, version) == ConnectAction::RejectVersion(version),
        spec_run_action(md, version) == RunAction::RejectVersion(version),
        spec_pull_action(version) == PullAction::RejectVersion(version),
        spec_check_outcome(version, ServerResponse::Success, ServerResponse::Success)
            == CheckOutcome::RejectVersion(version),
{
}

/// Address resolution is settled at construction time: zero candidates is
/// a construction failure and nothing else is, the first candidate wins
/// otherwise, and no later connect decision can produce the address error.
pub proof fn address_resolution_settled_at_construction(
    candidates: Seq<HostAddress>,
    r: Result<AuthPlan, Error>,
    md: Map<Seq<char>, ValueModel>,
    version: u32,
)
    requires
        auth_plan_matches(r, spec_auth_action(md, version)),
    ensures
        candidates.len() == 0 <==> spec_select_address(candidates) is None,
        candidates.len() > 0 ==> spec_select_address(candidates) == Some(candidates[0]),
        r != Err::<AuthPlan, Error>(Error::InvalidAddress),
{
}

} // verus!
