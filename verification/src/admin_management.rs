//! The admin's operations with their audit trail: settings with range checks, pausing that
//! refuses a repeated request, the address block list and the per-action rate limit records.
use vstd::prelude::*;
use crate::chain::{seconds, seconds_of, Env, MessageInfo, Response};
use crate::contract_helpers::{build_response_attributes, length_message, length_ok, standard_attrs};
use crate::error::{invalid_input, ContractError, ErrorView, StdError};
use crate::msg::{AuditLogsResponse, ConfigResponse, SecurityMetricsResponse};
use crate::security::RateLimitAction;
use crate::state::{AuditLog, Config, ContractState, RateLimitState, SecurityMetrics};
use crate::store::{chars_lt, str_lt};
use crate::text::{concat2, concat3, decimal_chars, u64_to_string};

verus! {

/// Why an admin operation by `sender` is refused before its own checks: only the admin may act.
pub open spec fn not_admin(pre: ContractState, sender: Seq<char>) -> bool {
    sender != pre.config.admin@
}

/// Why updating the settings is refused, if it is.
pub open spec fn settings_refusal(
    pre: ContractState,
    sender: Seq<char>,
    platform_fee_percent: Option<u64>,
    max_job_duration_days: Option<u64>,
    max_bounty_duration_days: Option<u64>,
    max_bounty_submissions: Option<u32>,
) -> Option<ErrorView> {
    if not_admin(pre, sender) {
        Some(ErrorView::Unauthorized)
    } else if platform_fee_percent matches Some(f) && f > 10 {
        Some(ErrorView::PlatformFeeTooHigh { max: 10 })
    } else if max_job_duration_days matches Some(d) && (d == 0 || d > 365) {
        Some(ErrorView::InvalidInput("Max job duration must be between 1 and 365 days"@))
    } else if max_bounty_duration_days matches Some(d) && (d == 0 || d > 365) {
        Some(ErrorView::InvalidInput("Max bounty duration must be between 1 and 365 days"@))
    } else if max_bounty_submissions matches Some(n) && (n == 0 || n > 1000) {
        Some(ErrorView::InvalidInput("Max bounty submissions must be between 1 and 1000"@))
    } else {
        None
    }
}

/// The admin updates the settings: a new (already validated) admin, a platform fee of at most
/// ten percent and a maximum job duration of 1 to 365 days. The bounty limits and budget bounds
/// are checked where a range applies but not kept.
pub fn execute_update_config(
    state: &mut ContractState,
    env: &Env,
    info: &MessageInfo,
    admin: Option<String>,
    platform_fee_percent: Option<u64>,
    max_job_duration_days: Option<u64>,
    max_bounty_duration_days: Option<u64>,
    max_bounty_submissions: Option<u32>,
    min_job_budget: Option<u128>,
    max_job_budget: Option<u128>,
    min_bounty_reward: Option<u128>,
    max_bounty_reward: Option<u128>,
) -> (r: Result<Response, ContractError>)
    requires
        old(state).wf(),
    ensures
        crate::state::room_used(*old(state), *final(state)),
        ({
            let refusal = settings_refusal(*old(state), info.sender@, platform_fee_percent, max_job_duration_days, max_bounty_duration_days, max_bounty_submissions);
            let c = old(state).config;
            &&& r is Err <==> refusal is Some
            &&& r matches Err(e) ==> refusal == Some(e@) && *final(state) == *old(state)
            &&& r matches Ok(resp) ==> {
                &&& *final(state) == (ContractState {
                    config: Config {
                        admin: match admin {
                            Some(a) => a,
                            None => c.admin,
                        },
                        platform_fee_percent: match platform_fee_percent {
                            Some(f) => f,
                            None => c.platform_fee_percent,
                        },
                        max_job_duration_days: match max_job_duration_days {
                            Some(d) => d,
                            None => c.max_job_duration_days,
                        },
                        ..c
                    },
                    ..*old(state)
                })
                &&& resp.msgs() == Seq::<(bool, Seq<char>, Seq<char>, u128)>::empty()
                &&& resp.attrs() == standard_attrs("update_config"@, 0, info.sender@)
            }
        }),
        final(state).wf(),
{
    if !crate::text::str_eq(info.sender.as_str(), state.config.admin.as_str()) {
        return Err(ContractError::Unauthorized {  });
    }
    if let Some(f) = platform_fee_percent {
        if f > 10 {
            return Err(ContractError::PlatformFeeTooHigh { max: 10 });
        }
    }
    if let Some(d) = max_job_duration_days {
        if d == 0 || d > 365 {
            return Err(invalid_input("Max job duration must be between 1 and 365 days"));
        }
    }
    if let Some(d) = max_bounty_duration_days {
        if d == 0 || d > 365 {
            return Err(invalid_input("Max bounty duration must be between 1 and 365 days"));
        }
    }
    if let Some(n) = max_bounty_submissions {
        if n == 0 || n > 1000 {
            return Err(invalid_input("Max bounty submissions must be between 1 and 1000"));
        }
    }
    if let Some(a) = admin {
        state.config.admin = a;
    }
    if let Some(f) = platform_fee_percent {
        state.config.platform_fee_percent = f;
    }
    if let Some(d) = max_job_duration_days {
        state.config.max_job_duration_days = d;
    }
    let attrs = build_response_attributes("update_config", 0, info.sender.as_str(), Vec::new());
    let resp = Response { messages: Vec::new(), attributes: attrs };
    proof {
        assert(resp.msgs() =~= Seq::<(bool, Seq<char>, Seq<char>, u128)>::empty());
        assert(resp.attrs() =~= standard_attrs("update_config"@, 0, info.sender@));
    }
    Ok(resp)
}

fn set_paused_once(state: &mut ContractState, info: &MessageInfo, paused: bool, method: &str, same_message: &str) -> (r: Result<Response, ContractError>)
    requires
        old(state).wf(),
    ensures
        r is Err <==> (not_admin(*old(state), info.sender@) || old(state).config.paused == paused),
        r matches Err(e) ==> *final(state) == *old(state) && e@ == (if not_admin(*old(state), info.sender@) {
            ErrorView::Unauthorized
        } else {
            ErrorView::InvalidInput(same_message@)
        }),
        r matches Ok(resp) ==> {
            &&& *final(state) == (ContractState { config: Config { paused, ..old(state).config }, ..*old(state) })
            &&& resp.msgs() == Seq::<(bool, Seq<char>, Seq<char>, u128)>::empty()
            &&& resp.attrs() == standard_attrs(method@, 0, info.sender@)
        },
        final(state).wf(),
{
    if !crate::text::str_eq(info.sender.as_str(), state.config.admin.as_str()) {
        return Err(ContractError::Unauthorized {  });
    }
    if state.config.paused == paused {
        return Err(invalid_input(same_message));
    }
    state.config.paused = paused;
    let attrs = build_response_attributes(method, 0, info.sender.as_str(), Vec::new());
    let resp = Response { messages: Vec::new(), attributes: attrs };
    proof {
        assert(resp.msgs() =~= Seq::<(bool, Seq<char>, Seq<char>, u128)>::empty());
        assert(resp.attrs() =~= standard_attrs(method@, 0, info.sender@));
    }
    Ok(resp)
}

/// The admin pauses a running contract; pausing a paused one is refused.
pub fn execute_pause_contract(state: &mut ContractState, env: &Env, info: &MessageInfo) -> (r: Result<Response, ContractError>)
    requires
        old(state).wf(),
    ensures
        crate::state::room_used(*old(state), *final(state)),
        r is Err <==> (not_admin(*old(state), info.sender@) || old(state).config.paused),
        r matches Err(e) ==> *final(state) == *old(state) && e@ == (if not_admin(*old(state), info.sender@) {
            ErrorView::Unauthorized
        } else {
            ErrorView::InvalidInput("Contract is already paused"@)
        }),
        r matches Ok(resp) ==> {
            &&& *final(state) == (ContractState { config: Config { paused: true, ..old(state).config }, ..*old(state) })
            &&& resp.msgs() == Seq::<(bool, Seq<char>, Seq<char>, u128)>::empty()
            &&& resp.attrs() == standard_attrs("pause_contract"@, 0, info.sender@)
        },
        final(state).wf(),
{
    set_paused_once(state, info, true, "pause_contract", "Contract is already paused")
}

/// The admin resumes a paused contract; resuming a running one is refused.
pub fn execute_unpause_contract(state: &mut ContractState, env: &Env, info: &MessageInfo) -> (r: Result<Response, ContractError>)
    requires
        old(state).wf(),
    ensures
        crate::state::room_used(*old(state), *final(state)),
        r is Err <==> (not_admin(*old(state), info.sender@) || !old(state).config.paused),
        r matches Err(e) ==> *final(state) == *old(state) && e@ == (if not_admin(*old(state), info.sender@) {
            ErrorView::Unauthorized
        } else {
            ErrorView::InvalidInput("Contract is not paused"@)
        }),
        r matches Ok(resp) ==> {
            &&& *final(state) == (ContractState { config: Config { paused: false, ..old(state).config }, ..*old(state) })
            &&& resp.msgs() == Seq::<(bool, Seq<char>, Seq<char>, u128)>::empty()
            &&& resp.attrs() == standard_attrs("unpause_contract"@, 0, info.sender@)
        },
        final(state).wf(),
{
    set_paused_once(state, info, false, "unpause_contract", "Contract is not paused")
}

/// The key an audit entry is stored under: the block's seconds and height.
pub open spec fn audit_key(env: Env) -> Seq<char> {
    decimal_chars(seconds_of(env.time)) + "_"@ + decimal_chars(env.height as nat)
}

/// The audit entry of an admin action on `address` at `env`.
pub open spec fn audit_entry(l: AuditLog, prefix: Seq<char>, action: Seq<char>, address: Seq<char>, admin: String, env: Env) -> bool {
    &&& l.id@ == prefix + "_"@ + address + "_"@ + decimal_chars(seconds_of(env.time))
    &&& l.action@ == action
    &&& l.user == admin
    &&& l.job_id is None
    &&& l.proposal_id is None
    &&& l.timestamp == env.time
    &&& l.success
    &&& l.error is None
}

fn record_audit(state: &mut ContractState, env: &Env, prefix: &str, action: &str, address: &str, admin: &String)
    requires
        old(state).wf(),
        crate::state::tables_have_room(old(state)),
    ensures
        crate::state::room_used(*old(state), *final(state)),
        final(state).wf(),
        final(state).audit_logs@ == old(state).audit_logs@.insert(audit_key(*env), final(state).audit_logs@[audit_key(*env)]),
        audit_entry(final(state).audit_logs@[audit_key(*env)], prefix@, action@, address@, *admin, *env),
        *final(state) == (ContractState { audit_logs: final(state).audit_logs, ..*old(state) }),
{
    let secs = u64_to_string(seconds(env.time));
    let head = concat3(prefix, "_", address);
    let id = concat3(head.as_str(), "_", secs.as_str());
    let key = concat3(secs.as_str(), "_", u64_to_string(env.height).as_str());
    let log = AuditLog {
        id,
        action: String::from_str(action),
        user: admin.clone(),
        job_id: None,
        proposal_id: None,
        timestamp: env.time,
        success: true,
        error: None,
    };
    state.audit_logs.insert(key, log);
}

/// Why blocking `address` is refused, if it is.
pub open spec fn block_refusal(pre: ContractState, sender: Seq<char>, address: Seq<char>, reason: Seq<char>) -> Option<ErrorView> {
    if not_admin(pre, sender) {
        Some(ErrorView::Unauthorized)
    } else if !length_ok(reason, 1, 500) {
        Some(ErrorView::InvalidInput(length_message("Reason"@, 1, 500)))
    } else if pre.blocked_addresses@.contains_key(address) {
        Some(ErrorView::InvalidInput("Address is already blocked"@))
    } else {
        None
    }
}

/// The admin blocks an (already validated) address for a reason of 1 to 500 bytes, recording
/// when; an address already blocked is refused. The request is recorded in the audit log.
pub fn execute_block_address(state: &mut ContractState, env: &Env, info: &MessageInfo, address: String, reason: String) -> (r: Result<Response, ContractError>)
    requires
        old(state).wf(),
        crate::state::tables_have_room(old(state)),
    ensures
        crate::state::room_used(*old(state), *final(state)),
        ({
            let refusal = block_refusal(*old(state), info.sender@, address@, reason@);
            &&& r is Err <==> refusal is Some
            &&& r matches Err(e) ==> refusal == Some(e@) && *final(state) == *old(state)
            &&& r matches Ok(resp) ==> {
                &&& final(state).audit_logs@ == old(state).audit_logs@.insert(audit_key(*env), final(state).audit_logs@[audit_key(*env)])
                &&& audit_entry(final(state).audit_logs@[audit_key(*env)], "block"@, "block_address"@, address@, info.sender, *env)
                &&& final(state).blocked_addresses@ == old(state).blocked_addresses@.insert(address@, env.time)
                &&& *final(state) == (ContractState {
                    audit_logs: final(state).audit_logs,
                    blocked_addresses: final(state).blocked_addresses,
                    ..*old(state)
                })
                &&& resp.msgs() == Seq::<(bool, Seq<char>, Seq<char>, u128)>::empty()
                &&& resp.attrs() == standard_attrs("block_address"@, 0, info.sender@) + seq![
                    ("blocked_address"@, address@),
                    ("reason"@, reason@),
                ]
            }
        }),
        final(state).wf(),
{
    if !crate::text::str_eq(info.sender.as_str(), state.config.admin.as_str()) {
        return Err(ContractError::Unauthorized {  });
    }
    match crate::contract_helpers::validate_string_field(reason.as_str(), "Reason", 1, 500) {
        Ok(()) => {},
        Err(e) => return Err(e),
    }
    if state.blocked_addresses.contains_key(address.as_str()) {
        return Err(invalid_input("Address is already blocked"));
    }
    record_audit(state, env, "block", "block_address", address.as_str(), &info.sender);
    state.blocked_addresses.insert(address.clone(), env.time);
    let ghost a = address@;
    let ghost why = reason@;
    let mut extra: Vec<(&str, String)> = Vec::new();
    extra.push(("blocked_address", address));
    extra.push(("reason", reason));
    let attrs = build_response_attributes("block_address", 0, info.sender.as_str(), extra);
    let resp = Response { messages: Vec::new(), attributes: attrs };
    proof {
        assert(resp.msgs() =~= Seq::<(bool, Seq<char>, Seq<char>, u128)>::empty());
        assert(resp.attrs() =~= standard_attrs("block_address"@, 0, info.sender@) + seq![("blocked_address"@, a), ("reason"@, why)]);
    }
    Ok(resp)
}

/// The admin unblocks an (already validated) blocked address; one not blocked is refused. The
/// request is recorded in the audit log.
pub fn execute_unblock_address(state: &mut ContractState, env: &Env, info: &MessageInfo, address: String) -> (r: Result<Response, ContractError>)
    requires
        old(state).wf(),
        crate::state::tables_have_room(old(state)),
    ensures
        crate::state::room_used(*old(state), *final(state)),
        r is Err <==> (not_admin(*old(state), info.sender@) || !old(state).blocked_addresses@.contains_key(address@)),
        r matches Err(e) ==> *final(state) == *old(state) && e@ == (if not_admin(*old(state), info.sender@) {
            ErrorView::Unauthorized
        } else {
            ErrorView::InvalidInput("Address is not blocked"@)
        }),
        r matches Ok(resp) ==> {
            &&& final(state).blocked_addresses@ == old(state).blocked_addresses@.remove(address@)
            &&& final(state).audit_logs@ == old(state).audit_logs@.insert(audit_key(*env), final(state).audit_logs@[audit_key(*env)])
            &&& audit_entry(final(state).audit_logs@[audit_key(*env)], "unblock"@, "unblock_address"@, address@, info.sender, *env)
            &&& *final(state) == (ContractState {
                blocked_addresses: final(state).blocked_addresses,
                audit_logs: final(state).audit_logs,
                ..*old(state)
            })
            &&& resp.msgs() == Seq::<(bool, Seq<char>, Seq<char>, u128)>::empty()
            &&& resp.attrs() == standard_attrs("unblock_address"@, 0, info.sender@) + seq![("unblocked_address"@, address@)]
        },
        final(state).wf(),
{
    if !crate::text::str_eq(info.sender.as_str(), state.config.admin.as_str()) {
        return Err(ContractError::Unauthorized {  });
    }
    if !state.blocked_addresses.contains_key(address.as_str()) {
        return Err(invalid_input("Address is not blocked"));
    }
    state.blocked_addresses.remove(address.as_str());
    record_audit(state, env, "unblock", "unblock_address", address.as_str(), &info.sender);
    let ghost a = address@;
    let mut extra: Vec<(&str, String)> = Vec::new();
    extra.push(("unblocked_address", address));
    let attrs = build_response_attributes("unblock_address", 0, info.sender.as_str(), extra);
    let resp = Response { messages: Vec::new(), attributes: attrs };
    proof {
        assert(resp.msgs() =~= Seq::<(bool, Seq<char>, Seq<char>, u128)>::empty());
        assert(resp.attrs() =~= standard_attrs("unblock_address"@, 0, info.sender@) + seq![("unblocked_address"@, a)]);
    }
    Ok(resp)
}

/// The name an action is recorded under: the variant's name.
pub open spec fn action_name(action: RateLimitAction) -> Seq<char> {
    match action {
        RateLimitAction::PostJob => "PostJob"@,
        RateLimitAction::SubmitProposal => "SubmitProposal"@,
        RateLimitAction::CreateBounty => "CreateBounty"@,
        RateLimitAction::RaiseDispute => "RaiseDispute"@,
        RateLimitAction::ResolveDispute => "ResolveDispute"@,
        RateLimitAction::EditJob => "EditJob"@,
        RateLimitAction::DeleteJob => "DeleteJob"@,
        RateLimitAction::EditProposal => "EditProposal"@,
        RateLimitAction::WithdrawProposal => "WithdrawProposal"@,
        RateLimitAction::EditBounty => "EditBounty"@,
        RateLimitAction::CancelBounty => "CancelBounty"@,
        RateLimitAction::SubmitToBounty => "SubmitToBounty"@,
        RateLimitAction::ReviewBountySubmission => "ReviewBountySubmission"@,
        RateLimitAction::SelectBountyWinners => "SelectBountyWinners"@,
        RateLimitAction::CreateEscrow => "CreateEscrow"@,
        RateLimitAction::ReleaseEscrow => "ReleaseEscrow"@,
        RateLimitAction::RefundEscrow => "RefundEscrow"@,
        RateLimitAction::UpdateProfile => "UpdateProfile"@,
        RateLimitAction::SubmitRating => "SubmitRating"@,
        RateLimitAction::EditBountySubmission => "EditBountySubmission"@,
        RateLimitAction::WithdrawBountySubmission => "WithdrawBountySubmission"@,
        RateLimitAction::CreateBountyEscrow => "CreateBountyEscrow"@,
        RateLimitAction::ReleaseBountyRewards => "ReleaseBountyRewards"@,
        RateLimitAction::CancelJob => "CancelJob"@,
        RateLimitAction::AcceptProposal => "AcceptProposal"@,
        RateLimitAction::CompleteJob => "CompleteJob"@,
        RateLimitAction::CompleteMilestone => "CompleteMilestone"@,
        RateLimitAction::ApproveMilestone => "ApproveMilestone"@,
    }
}

fn action_str(action: RateLimitAction) -> (r: &'static str)
    ensures
        r@ == action_name(action),
{
    match action {
        RateLimitAction::PostJob => "PostJob",
        RateLimitAction::SubmitProposal => "SubmitProposal",
        RateLimitAction::CreateBounty => "CreateBounty",
        RateLimitAction::RaiseDispute => "RaiseDispute",
        RateLimitAction::ResolveDispute => "ResolveDispute",
        RateLimitAction::EditJob => "EditJob",
        RateLimitAction::DeleteJob => "DeleteJob",
        RateLimitAction::EditProposal => "EditProposal",
        RateLimitAction::WithdrawProposal => "WithdrawProposal",
        RateLimitAction::EditBounty => "EditBounty",
        RateLimitAction::CancelBounty => "CancelBounty",
        RateLimitAction::SubmitToBounty => "SubmitToBounty",
        RateLimitAction::ReviewBountySubmission => "ReviewBountySubmission",
        RateLimitAction::SelectBountyWinners => "SelectBountyWinners",
        RateLimitAction::CreateEscrow => "CreateEscrow",
        RateLimitAction::ReleaseEscrow => "ReleaseEscrow",
        RateLimitAction::RefundEscrow => "RefundEscrow",
        RateLimitAction::UpdateProfile => "UpdateProfile",
        RateLimitAction::SubmitRating => "SubmitRating",
        RateLimitAction::EditBountySubmission => "EditBountySubmission",
        RateLimitAction::WithdrawBountySubmission => "WithdrawBountySubmission",
        RateLimitAction::CreateBountyEscrow => "CreateBountyEscrow",
        RateLimitAction::ReleaseBountyRewards => "ReleaseBountyRewards",
        RateLimitAction::CancelJob => "CancelJob",
        RateLimitAction::AcceptProposal => "AcceptProposal",
        RateLimitAction::CompleteJob => "CompleteJob",
        RateLimitAction::CompleteMilestone => "CompleteMilestone",
        RateLimitAction::ApproveMilestone => "ApproveMilestone",
    }
}

/// The test that a rate limit record is not the one of `user` for `action`.
pub open spec fn other_record(user: Seq<char>, action: Seq<char>) -> spec_fn(RateLimitState) -> bool {
    |s: RateLimitState| !(s.user@ == user && s.action_type@ == action)
}

/// The admin clears the rate limit record of an (already validated) address for one action. The
/// request is recorded in the audit log.
pub fn execute_reset_rate_limit(
    state: &mut ContractState,
    env: &Env,
    info: &MessageInfo,
    address: String,
    action: RateLimitAction,
) -> (r: Result<Response, ContractError>)
    requires
        old(state).wf(),
        crate::state::tables_have_room(old(state)),
    ensures
        crate::state::room_used(*old(state), *final(state)),
        r is Err <==> not_admin(*old(state), info.sender@),
        r matches Err(e) ==> *final(state) == *old(state) && e@ == ErrorView::Unauthorized,
        r matches Ok(resp) ==> {
            &&& final(state).rate_limit_states@ == old(state).rate_limit_states@.filter(other_record(address@, action_name(action)))
            &&& final(state).audit_logs@ == old(state).audit_logs@.insert(audit_key(*env), final(state).audit_logs@[audit_key(*env)])
            &&& audit_entry(final(state).audit_logs@[audit_key(*env)], "reset"@, "reset_rate_limit"@, address@, info.sender, *env)
            &&& *final(state) == (ContractState {
                rate_limit_states: final(state).rate_limit_states,
                audit_logs: final(state).audit_logs,
                ..*old(state)
            })
            &&& resp.msgs() == Seq::<(bool, Seq<char>, Seq<char>, u128)>::empty()
            &&& resp.attrs() == standard_attrs("reset_rate_limit"@, 0, info.sender@) + seq![
                ("address"@, address@),
                ("action"@, action_name(action)),
            ]
        },
        final(state).wf(),
{
    if !crate::text::str_eq(info.sender.as_str(), state.config.admin.as_str()) {
        return Err(ContractError::Unauthorized {  });
    }
    let name = action_str(action);
    let ghost pred = other_record(address@, action_name(action));
    let mut kept: Vec<RateLimitState> = Vec::new();
    let mut i: usize = 0;
    while i < state.rate_limit_states.len()
        invariant
            i <= state.rate_limit_states@.len(),
            name@ == action_name(action),
            pred == other_record(address@, action_name(action)),
            kept@ == state.rate_limit_states@.subrange(0, i as int).filter(pred),
        decreases state.rate_limit_states@.len() - i,
    {
        let s = &state.rate_limit_states[i];
        proof {
            assert(state.rate_limit_states@.subrange(0, i + 1) =~= state.rate_limit_states@.subrange(0, i as int).push(*s));
            state.rate_limit_states@.subrange(0, i as int).lemma_filter_push(*s, pred);
        }
        if !(crate::text::str_eq(s.user.as_str(), address.as_str()) && crate::text::str_eq(s.action_type.as_str(), name)) {
            kept.push(s.copy());
        }
        i = i + 1;
    }
    proof {
        assert(state.rate_limit_states@.subrange(0, state.rate_limit_states@.len() as int) =~= state.rate_limit_states@);
    }
    state.rate_limit_states = kept;
    record_audit(state, env, "reset", "reset_rate_limit", address.as_str(), &info.sender);
    let ghost a = address@;
    let mut extra: Vec<(&str, String)> = Vec::new();
    extra.push(("address", address));
    extra.push(("action", String::from_str(name)));
    let attrs = build_response_attributes("reset_rate_limit", 0, info.sender.as_str(), extra);
    let resp = Response { messages: Vec::new(), attributes: attrs };
    proof {
        assert(resp.msgs() =~= Seq::<(bool, Seq<char>, Seq<char>, u128)>::empty());
        assert(resp.attrs() =~= standard_attrs("reset_rate_limit"@, 0, info.sender@) + seq![("address"@, a), ("action"@, action_name(action))]);
    }
    Ok(resp)
}

/// The platform settings.
pub fn query_config(state: &ContractState) -> (r: Result<ConfigResponse, StdError>)
    ensures
        r matches Ok(resp) && resp.config == state.config,
{
    Ok(ConfigResponse { config: state.config.copy() })
}

/// The stored security dashboard, or one of zeros.
pub fn query_security_metrics(state: &ContractState) -> (r: Result<SecurityMetricsResponse, StdError>)
    ensures
        r matches Ok(resp) && match state.security_metrics {
            Some(m) => resp.metrics.total_jobs == m.total_jobs && resp.metrics.total_proposals == m.total_proposals
                && resp.metrics.total_disputes == m.total_disputes && resp.metrics.blocked_addresses@ == m.blocked_addresses@
                && resp.metrics.rate_limit_violations == m.rate_limit_violations && resp.metrics.last_updated == m.last_updated,
            None => resp.metrics.total_jobs == 0 && resp.metrics.total_proposals == 0 && resp.metrics.total_disputes == 0
                && resp.metrics.blocked_addresses@.len() == 0 && resp.metrics.rate_limit_violations == 0 && resp.metrics.last_updated == 0,
        },
{
    let metrics = match &state.security_metrics {
        Some(m) => SecurityMetrics {
            total_jobs: m.total_jobs,
            total_proposals: m.total_proposals,
            total_disputes: m.total_disputes,
            blocked_addresses: crate::text::copy_strings(&m.blocked_addresses),
            rate_limit_violations: m.rate_limit_violations,
            last_updated: m.last_updated,
        },
        None => SecurityMetrics {
            total_jobs: 0,
            total_proposals: 0,
            total_disputes: 0,
            blocked_addresses: Vec::new(),
            rate_limit_violations: 0,
            last_updated: 0,
        },
    };
    Ok(SecurityMetricsResponse { metrics })
}

/// The audit entries whose keys come after `start_after`, newest key first, of one action when
/// given; as many as the limit (50 by default, at most 100), and at least the first match.
pub open spec fn audit_logs_desc(entries: Seq<(String, AuditLog)>, start_after: Option<Seq<char>>, action: Option<Seq<char>>) -> Seq<AuditLog>
    decreases entries.len(),
{
    if entries.len() == 0 {
        Seq::empty()
    } else {
        let rest = audit_logs_desc(entries.drop_first(), start_after, action);
        let e = entries[0];
        if (start_after matches Some(s) ==> chars_lt(s, e.0@)) && (action matches Some(a) ==> e.1.action@ == a) {
            rest.push(e.1)
        } else {
            rest
        }
    }
}

/// Audit entries after `start_after` in descending key order, of one action when given; as many
/// as the limit asks (50 by default, at most 100), and at least one.
pub fn query_audit_logs(
    state: &ContractState,
    start_after: Option<String>,
    limit: Option<u32>,
    action: Option<String>,
) -> (r: Result<AuditLogsResponse, StdError>)
    requires
        state.wf(),
    ensures
        r matches Ok(resp) && resp.logs@ == crate::queries::first_n(
            audit_logs_desc(
                state.audit_logs.entry_seq(),
                crate::contract_helpers::opt_string_view(start_after),
                crate::contract_helpers::opt_string_view(action),
            ),
            crate::escrow_management::escrow_page_size(limit),
        ),
{
    let l = match limit {
        Some(l) => l,
        None => 50,
    };
    let capped: usize = if l < 100 { l as usize } else { 100 };
    let size: usize = if capped == 0 { 1 } else { capped };
    let ghost entries = state.audit_logs.entry_seq();
    let ghost sa = crate::contract_helpers::opt_string_view(start_after);
    let ghost act = crate::contract_helpers::opt_string_view(action);
    let n = state.audit_logs.len();
    let mut logs: Vec<AuditLog> = Vec::new();
    let mut i: usize = n;
    proof {
        assert(entries.subrange(n as int, n as int) =~= Seq::<(String, AuditLog)>::empty());
    }
    while i > 0 && logs.len() < size
        invariant
            n == entries.len(),
            entries == state.audit_logs.entry_seq(),
            i <= n,
            sa == crate::contract_helpers::opt_string_view(start_after),
            act == crate::contract_helpers::opt_string_view(action),
            size as nat == crate::escrow_management::escrow_page_size(limit),
            logs@ == audit_logs_desc(entries.subrange(i as int, n as int), sa, act),
            logs@.len() <= size,
        decreases i,
    {
        i = i - 1;
        proof {
            assert(entries.subrange(i as int, n as int).drop_first() =~= entries.subrange(i + 1, n as int));
        }
        let key = state.audit_logs.key_at(i);
        let log = state.audit_logs.value_at(i);
        let after = match &start_after {
            Some(s) => str_lt(s.as_str(), key.as_str()),
            None => true,
        };
        let of_action = match &action {
            Some(a) => crate::text::str_eq(log.action.as_str(), a.as_str()),
            None => true,
        };
        if after && of_action {
            logs.push(log.copy());
        }
    }
    proof {
        lemma_audit_prefix(entries, i as int, sa, act, size as nat);
    }
    Ok(AuditLogsResponse { logs })
}

proof fn lemma_audit_prefix(entries: Seq<(String, AuditLog)>, i: int, sa: Option<Seq<char>>, act: Option<Seq<char>>, size: nat)
    requires
        0 <= i <= entries.len(),
        i == 0 || audit_logs_desc(entries.subrange(i, entries.len() as int), sa, act).len() >= size,
        audit_logs_desc(entries.subrange(i, entries.len() as int), sa, act).len() <= size,
    ensures
        audit_logs_desc(entries.subrange(i, entries.len() as int), sa, act) == crate::queries::first_n(audit_logs_desc(entries, sa, act), size),
    decreases i,
{
    if i == 0 {
        assert(entries.subrange(0, entries.len() as int) =~= entries);
    } else {
        lemma_audit_extends(entries, i, sa, act);
        let tail = audit_logs_desc(entries.subrange(i, entries.len() as int), sa, act);
        let whole = audit_logs_desc(entries, sa, act);
        assert(tail.len() == size);
        assert(whole.take(size as int) =~= tail);
    }
}

proof fn lemma_audit_extends(entries: Seq<(String, AuditLog)>, i: int, sa: Option<Seq<char>>, act: Option<Seq<char>>)
    requires
        0 <= i <= entries.len(),
    ensures
        audit_logs_desc(entries.subrange(i, entries.len() as int), sa, act).len() <= audit_logs_desc(entries, sa, act).len(),
        audit_logs_desc(entries, sa, act).subrange(0, audit_logs_desc(entries.subrange(i, entries.len() as int), sa, act).len() as int)
            == audit_logs_desc(entries.subrange(i, entries.len() as int), sa, act),
    decreases i,
{
    if i == 0 {
        assert(entries.subrange(0, entries.len() as int) =~= entries);
    } else {
        lemma_audit_extends(entries, i - 1, sa, act);
        let s1 = entries.subrange(i - 1, entries.len() as int);
        let s0 = entries.subrange(i, entries.len() as int);
        assert(s1.drop_first() =~= s0);
        let a = audit_logs_desc(s0, sa, act);
        let b = audit_logs_desc(s1, sa, act);
        let w = audit_logs_desc(entries, sa, act);
        assert(b.subrange(0, a.len() as int) =~= a);
        assert(w.subrange(0, a.len() as int) =~= b.subrange(0, b.len() as int).subrange(0, a.len() as int));
    }
}

/// Whether an (already validated) address is on the block list.
pub fn query_is_address_blocked(state: &ContractState, address: &str) -> (r: Result<bool, StdError>)
    requires
        state.wf(),
    ensures
        r == Ok::<bool, StdError>(state.blocked_addresses@.contains_key(address@)),
{
    Ok(state.blocked_addresses.contains_key(address))
}

/// The first rate limit record of `user` for `action`, if any.
pub open spec fn record_of(records: Seq<RateLimitState>, user: Seq<char>, action: Seq<char>) -> Option<RateLimitState>
    decreases records.len(),
{
    if records.len() == 0 {
        None
    } else if records[0].user@ == user && records[0].action_type@ == action {
        Some(records[0])
    } else {
        record_of(records.drop_first(), user, action)
    }
}

/// The rate limit record of an (already validated) address for one action, if any.
pub fn query_rate_limit_status(state: &ContractState, address: &str, action: RateLimitAction) -> (r: Result<Option<RateLimitState>, StdError>)
    ensures
        r == Ok::<Option<RateLimitState>, StdError>(record_of(state.rate_limit_states@, address@, action_name(action))),
{
    let name = action_str(action);
    let n = state.rate_limit_states.len();
    let mut i: usize = 0;
    proof {
        assert(state.rate_limit_states@.subrange(0, n as int) =~= state.rate_limit_states@);
    }
    while i < n
        invariant
            n == state.rate_limit_states@.len(),
            i <= n,
            name@ == action_name(action),
            record_of(state.rate_limit_states@, address@, action_name(action))
                == record_of(state.rate_limit_states@.subrange(i as int, n as int), address@, action_name(action)),
        decreases n - i,
    {
        let s = &state.rate_limit_states[i];
        proof {
            assert(state.rate_limit_states@.subrange(i as int, n as int).drop_first() =~= state.rate_limit_states@.subrange(i + 1, n as int));
        }
        if crate::text::str_eq(s.user.as_str(), address) && crate::text::str_eq(s.action_type.as_str(), name) {
            return Ok(Some(s.copy()));
        }
        i = i + 1;
    }
    proof {
        assert(state.rate_limit_states@.subrange(n as int, n as int) =~= Seq::<RateLimitState>::empty());
    }
    Ok(None)
}

} // verus!
