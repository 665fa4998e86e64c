//! Setting up the contract and the admin's powers: settings, pausing, blocking
//! addresses, clearing rate limits, and the security queries.
use vstd::prelude::*;
use std::collections::HashMap;
use crate::chain::{Env, MessageInfo, Response};
use crate::error::{ContractError, ErrorView};
use crate::msg::{
    AddressBlockedResponse, AuditLogsResponse, ConfigResponse, InstantiateMsg, RateLimitStatusResponse,
    SecurityMetricsResponse,
};
use crate::security::{MAX_JOBS_PER_USER_PER_DAY, MAX_PLATFORM_FEE_PERCENT};
use crate::state::{Config, ContractState, RateLimitState, SecurityMetrics};
use crate::store::StrMap;
use crate::text::{bool_chars, decimal_chars, u64_to_string};

verus! {

broadcast use vstd::std_specs::hash::group_hash_axioms;

/// The name the contract is published under.
pub open spec fn contract_name() -> Seq<char> {
    "crates.io:xworks-freelance-contract"@
}

/// The view of an optional string.
pub open spec fn opt_view(s: Option<String>) -> Option<Seq<char>> {
    match s {
        Some(x) => Some(x@),
        None => None,
    }
}

/// The settings a contract starts with.
pub open spec fn initial_config(config: Config, sender: Seq<char>, msg: InstantiateMsg) -> bool {
    &&& config.admin@ == (match msg.admin {
        Some(a) => a@,
        None => sender,
    })
    &&& config.platform_fee_percent == (match msg.platform_fee_percent {
        Some(p) => p,
        None => 5,
    })
    &&& config.min_escrow_amount == (match msg.min_escrow_amount {
        Some(m) => m,
        None => 1000,
    })
    &&& config.dispute_period_days == (match msg.dispute_period_days {
        Some(d) => d,
        None => 7,
    })
    &&& config.max_job_duration_days == (match msg.max_job_duration_days {
        Some(d) => d,
        None => 365,
    })
    &&& !config.paused
}

/// A state that holds nothing yet but its settings.
pub open spec fn is_empty_state(s: ContractState) -> bool {
    &&& s.jobs@ == Map::<u64, crate::state::Job>::empty()
    &&& s.next_job_id == 0
    &&& s.proposals@ == Map::<u64, crate::state::Proposal>::empty()
    &&& s.next_proposal_id == 0
    &&& s.job_proposals@ == Map::<u64, Vec<u64>>::empty()
    &&& s.user_proposals@ == Map::<Seq<char>, Vec<u64>>::empty()
    &&& s.escrows@ == Map::<Seq<char>, crate::state::EscrowState>::empty()
    &&& s.disputes@ == Map::<Seq<char>, crate::state::Dispute>::empty()
    &&& s.ratings@ == Map::<Seq<char>, crate::state::Rating>::empty()
    &&& s.user_stats@ == Map::<Seq<char>, crate::state::UserStats>::empty()
    &&& s.user_profiles@ == Map::<Seq<char>, crate::state::UserProfile>::empty()
    &&& s.bounties@ == Map::<u64, crate::state::Bounty>::empty()
    &&& s.next_bounty_id == 0
    &&& s.bounty_submissions@ == Map::<u64, crate::state::BountySubmission>::empty()
    &&& s.next_bounty_submission_id == 0
    &&& s.bounty_submissions_by_bounty@ == Map::<u64, Vec<u64>>::empty()
    &&& s.user_bounty_submissions@ == Map::<Seq<char>, Vec<u64>>::empty()
    &&& s.content_hashes@ == Map::<Seq<char>, crate::hash_utils::ContentHash>::empty()
    &&& s.hash_to_entity@ == Map::<Seq<char>, String>::empty()
    &&& s.entity_to_hash@ == Map::<Seq<char>, String>::empty()
    &&& s.bounties_by_category@ == Map::<u8, Vec<u64>>::empty()
    &&& s.bounties_by_reward_range@ == Map::<u8, Vec<u64>>::empty()
    &&& s.bounties_by_skill@ == Map::<u8, Vec<u64>>::empty()
    &&& s.bounties_by_difficulty@ == Map::<u8, Vec<u64>>::empty()
    &&& s.active_bounties@ == Map::<u64, bool>::empty()
    &&& s.featured_bounties@ == Map::<u64, bool>::empty()
    &&& s.user_rate_limits@ == Map::<Seq<char>, crate::state::RateLimit>::empty()
    &&& s.rate_limit_states@ == Seq::<RateLimitState>::empty()
    &&& s.blocked_addresses@ == Map::<Seq<char>, u64>::empty()
    &&& s.audit_logs@ == Map::<Seq<char>, crate::state::AuditLog>::empty()
    &&& s.reentrancy_guards@ == Map::<Seq<char>, bool>::empty()
    &&& s.security_metrics is None
    &&& s.categories@ == Map::<u8, String>::empty()
    &&& s.category_counter is None
    &&& s.skills@ == Map::<u8, String>::empty()
    &&& s.skill_counter is None
}

/// Sets the contract up. The admin is the given (already validated) address, else the sender;
/// the platform fee is at most ten percent.
pub fn instantiate(env: &Env, info: &MessageInfo, msg: InstantiateMsg, contract_version: &str) -> (r: Result<(ContractState, Response), ContractError>)
    ensures
        r is Err <==> (msg.platform_fee_percent matches Some(p) && p > MAX_PLATFORM_FEE_PERCENT),
        r matches Err(e) ==> e@ == (ErrorView::PlatformFeeTooHigh { max: MAX_PLATFORM_FEE_PERCENT }),
        r matches Ok((s, resp)) ==> {
            &&& s.wf()
            &&& crate::state::tables_have_room(&s)
            &&& initial_config(s.config, info.sender@, msg)
            &&& is_empty_state(s)
            &&& resp.msgs() == Seq::<(bool, Seq<char>, Seq<char>, u128)>::empty()
            &&& resp.attrs() == seq![
                ("method"@, "instantiate"@),
                ("admin"@, s.config.admin@),
                ("platform_fee"@, decimal_chars(s.config.platform_fee_percent as nat)),
                ("contract_name"@, contract_name()),
                ("contract_version"@, contract_version@),
            ]
        },
{
    let admin = match &msg.admin {
        Some(a) => a.clone(),
        None => info.sender.clone(),
    };
    let platform_fee_percent = match msg.platform_fee_percent {
        Some(p) => p,
        None => 5,
    };
    if platform_fee_percent > MAX_PLATFORM_FEE_PERCENT {
        return Err(ContractError::PlatformFeeTooHigh { max: MAX_PLATFORM_FEE_PERCENT });
    }
    let config = Config {
        admin: admin.clone(),
        platform_fee_percent,
        min_escrow_amount: match msg.min_escrow_amount {
            Some(m) => m,
            None => 1000,
        },
        dispute_period_days: match msg.dispute_period_days {
            Some(d) => d,
            None => 7,
        },
        max_job_duration_days: match msg.max_job_duration_days {
            Some(d) => d,
            None => 365,
        },
        paused: false,
    };
    let state = ContractState {
        config,
        jobs: HashMap::new(),
        next_job_id: 0,
        proposals: HashMap::new(),
        next_proposal_id: 0,
        job_proposals: HashMap::new(),
        user_proposals: StrMap::new(),
        escrows: StrMap::new(),
        disputes: StrMap::new(),
        ratings: StrMap::new(),
        user_stats: StrMap::new(),
        user_profiles: StrMap::new(),
        bounties: HashMap::new(),
        next_bounty_id: 0,
        bounty_submissions: HashMap::new(),
        next_bounty_submission_id: 0,
        bounty_submissions_by_bounty: HashMap::new(),
        user_bounty_submissions: StrMap::new(),
        content_hashes: StrMap::new(),
        hash_to_entity: StrMap::new(),
        entity_to_hash: StrMap::new(),
        bounties_by_category: HashMap::new(),
        bounties_by_reward_range: HashMap::new(),
        bounties_by_skill: HashMap::new(),
        bounties_by_difficulty: HashMap::new(),
        active_bounties: HashMap::new(),
        featured_bounties: HashMap::new(),
        user_rate_limits: StrMap::new(),
        rate_limit_states: Vec::new(),
        blocked_addresses: StrMap::new(),
        audit_logs: StrMap::new(),
        reentrancy_guards: StrMap::new(),
        security_metrics: None,
        categories: HashMap::new(),
        category_counter: None,
        skills: HashMap::new(),
        skill_counter: None,
    };
    let resp = Response::new();
    let resp = resp.add_attribute("method", String::from_str("instantiate"));
    let resp = resp.add_attribute("admin", admin);
    let resp = resp.add_attribute("platform_fee", u64_to_string(platform_fee_percent));
    let resp = resp.add_attribute("contract_name", String::from_str("crates.io:xworks-freelance-contract"));
    let resp = resp.add_attribute("contract_version", String::from_str(contract_version));
    proof {
        assert(resp.attrs() =~= seq![
            ("method"@, "instantiate"@),
            ("admin"@, state.config.admin@),
            ("platform_fee"@, decimal_chars(state.config.platform_fee_percent as nat)),
            ("contract_name"@, contract_name()),
            ("contract_version"@, contract_version@),
        ]);
        assert(state.rate_limit_states@ =~= Seq::<RateLimitState>::empty());
    }
    Ok((state, resp))
}

/// Why changing the settings is refused, if it is.
pub open spec fn update_config_refusal(pre: ContractState, sender: Seq<char>, platform_fee_percent: Option<u64>) -> Option<ErrorView> {
    if sender != pre.config.admin@ {
        Some(ErrorView::Unauthorized)
    } else if platform_fee_percent matches Some(p) && p > MAX_PLATFORM_FEE_PERCENT {
        Some(ErrorView::PlatformFeeTooHigh { max: MAX_PLATFORM_FEE_PERCENT })
    } else {
        None
    }
}

/// What `execute_update_config` does: when it refuses and with which error, and the state and response when it succeeds.
pub open spec fn update_config_outcome(
    pre: ContractState,
    post: ContractState,
    env: Env,
    info: MessageInfo,
    admin: Option<String>,
    platform_fee_percent: Option<u64>,
    min_escrow_amount: Option<u128>,
    dispute_period_days: Option<u64>,
    max_job_duration_days: Option<u64>,
    r: Result<Response, ContractError>,
) -> bool {
    let refusal = update_config_refusal(pre, info.sender@, platform_fee_percent);
    let c = pre.config;
    let n = post.config;
    &&& r is Err <==> refusal is Some
    &&& r matches Err(e) ==> refusal == Some(e@) && post == pre
    &&& r matches Ok(resp) ==> {
        &&& post == (ContractState { config: n, ..pre })
        &&& n == (Config {
            admin: match admin { Some(a) => a, None => c.admin },
            platform_fee_percent: match platform_fee_percent { Some(p) => p, None => c.platform_fee_percent },
            min_escrow_amount: match min_escrow_amount { Some(m) => m, None => c.min_escrow_amount },
            dispute_period_days: match dispute_period_days { Some(d) => d, None => c.dispute_period_days },
            max_job_duration_days: match max_job_duration_days { Some(d) => d, None => c.max_job_duration_days },
            paused: c.paused,
        })
        &&& resp.msgs() == Seq::<(bool, Seq<char>, Seq<char>, u128)>::empty()
        &&& resp.attrs() == seq![
            ("method"@, "update_config"@),
            ("admin"@, n.admin@),
            ("platform_fee_percent"@, decimal_chars(n.platform_fee_percent as nat)),
        ]
    }
}

/// The admin changes the settings; each value given replaces the stored one. The new admin
/// address is already validated.
pub fn execute_update_config(
    state: &mut ContractState,
    env: &Env,
    info: &MessageInfo,
    admin: Option<String>,
    platform_fee_percent: Option<u64>,
    min_escrow_amount: Option<u128>,
    dispute_period_days: Option<u64>,
    max_job_duration_days: Option<u64>,
) -> (r: Result<Response, ContractError>)
    requires
        old(state).wf(),
    ensures
        crate::state::room_used(*old(state), *final(state)),
        update_config_outcome(*old(state), *final(state), *env, *info, admin, platform_fee_percent, min_escrow_amount, dispute_period_days, max_job_duration_days, r),
        final(state).wf(),
{
    let _ = crate::security::reentrancy_guard(state);
    if !crate::text::str_eq(state.config.admin.as_str(), info.sender.as_str()) {
        return Err(ContractError::Unauthorized {  });
    }
    if let Some(p) = platform_fee_percent {
        if p > MAX_PLATFORM_FEE_PERCENT {
            return Err(ContractError::PlatformFeeTooHigh { max: MAX_PLATFORM_FEE_PERCENT });
        }
    }
    if let Some(a) = admin {
        state.config.admin = a;
    }
    if let Some(p) = platform_fee_percent {
        state.config.platform_fee_percent = p;
    }
    if let Some(m) = min_escrow_amount {
        state.config.min_escrow_amount = m;
    }
    if let Some(d) = dispute_period_days {
        state.config.dispute_period_days = d;
    }
    if let Some(d) = max_job_duration_days {
        state.config.max_job_duration_days = d;
    }
    let resp = Response::new();
    let resp = resp.add_attribute("method", String::from_str("update_config"));
    let resp = resp.add_attribute("admin", state.config.admin.clone());
    let resp = resp.add_attribute("platform_fee_percent", u64_to_string(state.config.platform_fee_percent));
    proof {
        assert(resp.attrs() =~= seq![
            ("method"@, "update_config"@),
            ("admin"@, state.config.admin@),
            ("platform_fee_percent"@, decimal_chars(state.config.platform_fee_percent as nat)),
        ]);
    }
    Ok(resp)
}

/// The admin pauses (`paused`) or resumes the contract.
fn set_paused(state: &mut ContractState, info: &MessageInfo, paused: bool, method: &str) -> (r: Result<Response, ContractError>)
    requires
        old(state).wf(),
    ensures
        r is Err <==> info.sender@ != old(state).config.admin@,
        r matches Err(e) ==> e@ == ErrorView::Unauthorized && *final(state) == *old(state),
        r matches Ok(resp) ==> {
            &&& *final(state) == (ContractState { config: Config { paused, ..old(state).config }, ..*old(state) })
            &&& resp.msgs() == Seq::<(bool, Seq<char>, Seq<char>, u128)>::empty()
            &&& resp.attrs() == seq![("method"@, method@), ("admin"@, info.sender@)]
        },
        final(state).wf(),
{
    if !crate::text::str_eq(state.config.admin.as_str(), info.sender.as_str()) {
        return Err(ContractError::Unauthorized {  });
    }
    state.config.paused = paused;
    let resp = Response::new();
    let resp = resp.add_attribute("method", String::from_str(method));
    let resp = resp.add_attribute("admin", info.sender.clone());
    assert(resp.attrs() =~= seq![("method"@, method@), ("admin"@, info.sender@)]);
    Ok(resp)
}

/// What `execute_pause_contract` does: when it refuses and with which error, and the state and response when it succeeds.
pub open spec fn pause_contract_outcome(
    pre: ContractState,
    post: ContractState,
    env: Env,
    info: MessageInfo,
    r: Result<Response, ContractError>,
) -> bool {
    &&& r is Err <==> info.sender@ != pre.config.admin@
    &&& r matches Err(e) ==> e@ == ErrorView::Unauthorized && post == pre
    &&& r matches Ok(resp) ==> {
                &&& post == (ContractState { config: Config { paused: true, ..pre.config }, ..pre })
                &&& resp.msgs() == Seq::<(bool, Seq<char>, Seq<char>, u128)>::empty()
                &&& resp.attrs() == seq![("method"@, "pause_contract"@), ("admin"@, info.sender@)]
            }
}

/// The admin pauses the contract: most operations are refused until it is resumed.
pub fn execute_pause_contract(state: &mut ContractState, env: &Env, info: &MessageInfo) -> (r: Result<Response, ContractError>)
    requires
        old(state).wf(),
    ensures
        crate::state::room_used(*old(state), *final(state)),
        pause_contract_outcome(*old(state), *final(state), *env, *info, r),
        final(state).wf(),
{
    set_paused(state, info, true, "pause_contract")
}

/// What `execute_unpause_contract` does: when it refuses and with which error, and the state and response when it succeeds.
pub open spec fn unpause_contract_outcome(
    pre: ContractState,
    post: ContractState,
    env: Env,
    info: MessageInfo,
    r: Result<Response, ContractError>,
) -> bool {
    &&& r is Err <==> info.sender@ != pre.config.admin@
    &&& r matches Err(e) ==> e@ == ErrorView::Unauthorized && post == pre
    &&& r matches Ok(resp) ==> {
                &&& post == (ContractState { config: Config { paused: false, ..pre.config }, ..pre })
                &&& resp.msgs() == Seq::<(bool, Seq<char>, Seq<char>, u128)>::empty()
                &&& resp.attrs() == seq![("method"@, "unpause_contract"@), ("admin"@, info.sender@)]
            }
}

/// The admin resumes the contract.
pub fn execute_unpause_contract(state: &mut ContractState, env: &Env, info: &MessageInfo) -> (r: Result<Response, ContractError>)
    requires
        old(state).wf(),
    ensures
        crate::state::room_used(*old(state), *final(state)),
        unpause_contract_outcome(*old(state), *final(state), *env, *info, r),
        final(state).wf(),
{
    set_paused(state, info, false, "unpause_contract")
}

/// What `execute_block_address` does: when it refuses and with which error, and the state and response when it succeeds.
pub open spec fn block_address_outcome(
    pre: ContractState,
    post: ContractState,
    env: Env,
    info: MessageInfo,
    address: String,
    reason: String,
    r: Result<Response, ContractError>,
) -> bool {
    &&& r is Err <==> info.sender@ != pre.config.admin@
    &&& r matches Err(e) ==> e@ == ErrorView::Unauthorized && post == pre
    &&& r matches Ok(resp) ==> {
                &&& post == (ContractState { blocked_addresses: post.blocked_addresses, ..pre })
                &&& post.blocked_addresses@ == pre.blocked_addresses@.insert(address@, env.time)
                &&& resp.msgs() == Seq::<(bool, Seq<char>, Seq<char>, u128)>::empty()
                &&& resp.attrs() == seq![
                    ("method"@, "block_address"@),
                    ("blocked_address"@, address@),
                    ("reason"@, reason@),
                    ("admin"@, info.sender@),
                ]
            }
}

/// The admin blocks an (already validated) address, recording when.
pub fn execute_block_address(state: &mut ContractState, env: &Env, info: &MessageInfo, address: String, reason: String) -> (r: Result<Response, ContractError>)
    requires
        old(state).wf(),
        crate::state::tables_have_room(old(state)),
    ensures
        crate::state::room_used(*old(state), *final(state)),
        block_address_outcome(*old(state), *final(state), *env, *info, address, reason, r),
        final(state).wf(),
{
    if !crate::text::str_eq(state.config.admin.as_str(), info.sender.as_str()) {
        return Err(ContractError::Unauthorized {  });
    }
    state.blocked_addresses.insert(address.clone(), env.time);
    let resp = Response::new();
    let resp = resp.add_attribute("method", String::from_str("block_address"));
    let resp = resp.add_attribute("blocked_address", address);
    let resp = resp.add_attribute("reason", reason);
    let resp = resp.add_attribute("admin", info.sender.clone());
    proof {
        assert(resp.attrs() =~= seq![
            ("method"@, "block_address"@),
            ("blocked_address"@, address@),
            ("reason"@, reason@),
            ("admin"@, info.sender@),
        ]);
        assert(*state == (ContractState { blocked_addresses: state.blocked_addresses, ..*old(state) }));
    }
    Ok(resp)
}

/// What `execute_unblock_address` does: when it refuses and with which error, and the state and response when it succeeds.
pub open spec fn unblock_address_outcome(
    pre: ContractState,
    post: ContractState,
    env: Env,
    info: MessageInfo,
    address: String,
    r: Result<Response, ContractError>,
) -> bool {
    &&& r is Err <==> info.sender@ != pre.config.admin@
    &&& r matches Err(e) ==> e@ == ErrorView::Unauthorized && post == pre
    &&& r matches Ok(resp) ==> {
                &&& post == (ContractState { blocked_addresses: post.blocked_addresses, ..pre })
                &&& post.blocked_addresses@ == pre.blocked_addresses@.remove(address@)
                &&& resp.msgs() == Seq::<(bool, Seq<char>, Seq<char>, u128)>::empty()
                &&& resp.attrs() == seq![("method"@, "unblock_address"@), ("unblocked_address"@, address@), ("admin"@, info.sender@)]
            }
}

/// The admin unblocks an (already validated) address.
pub fn execute_unblock_address(state: &mut ContractState, env: &Env, info: &MessageInfo, address: String) -> (r: Result<Response, ContractError>)
    requires
        old(state).wf(),
    ensures
        crate::state::room_used(*old(state), *final(state)),
        unblock_address_outcome(*old(state), *final(state), *env, *info, address, r),
        final(state).wf(),
{
    if !crate::text::str_eq(state.config.admin.as_str(), info.sender.as_str()) {
        return Err(ContractError::Unauthorized {  });
    }
    state.blocked_addresses.remove(address.as_str());
    let resp = Response::new();
    let resp = resp.add_attribute("method", String::from_str("unblock_address"));
    let resp = resp.add_attribute("unblocked_address", address);
    let resp = resp.add_attribute("admin", info.sender.clone());
    proof {
        assert(resp.attrs() =~= seq![("method"@, "unblock_address"@), ("unblocked_address"@, address@), ("admin"@, info.sender@)]);
        assert(*state == (ContractState { blocked_addresses: state.blocked_addresses, ..*old(state) }));
    }
    Ok(resp)
}

/// The per-action rate limit records that do not belong to `user`.
pub open spec fn states_without_user(s: Seq<RateLimitState>, user: Seq<char>) -> Seq<RateLimitState> {
    s.filter(not_of_user(user))
}

/// The test that a rate limit record belongs to someone other than `user`.
pub open spec fn not_of_user(user: Seq<char>) -> spec_fn(RateLimitState) -> bool {
    |r: RateLimitState| r.user@ != user
}

/// What `execute_reset_rate_limit` does: when it refuses and with which error, and the state and response when it succeeds.
pub open spec fn reset_rate_limit_outcome(
    pre: ContractState,
    post: ContractState,
    env: Env,
    info: MessageInfo,
    address: String,
    r: Result<Response, ContractError>,
) -> bool {
    &&& r is Err <==> info.sender@ != pre.config.admin@
    &&& r matches Err(e) ==> e@ == ErrorView::Unauthorized && post == pre
    &&& r matches Ok(resp) ==> {
                &&& post == (ContractState { rate_limit_states: post.rate_limit_states, ..pre })
                &&& post.rate_limit_states@ == states_without_user(pre.rate_limit_states@, address@)
                &&& resp.msgs() == Seq::<(bool, Seq<char>, Seq<char>, u128)>::empty()
                &&& resp.attrs() == seq![("method"@, "reset_rate_limit"@), ("reset_address"@, address@), ("admin"@, info.sender@)]
            }
}

/// The admin clears every per-action rate limit record of an (already validated) address.
pub fn execute_reset_rate_limit(state: &mut ContractState, env: &Env, info: &MessageInfo, address: String) -> (r: Result<Response, ContractError>)
    requires
        old(state).wf(),
    ensures
        crate::state::room_used(*old(state), *final(state)),
        reset_rate_limit_outcome(*old(state), *final(state), *env, *info, address, r),
        final(state).wf(),
{
    if !crate::text::str_eq(state.config.admin.as_str(), info.sender.as_str()) {
        return Err(ContractError::Unauthorized {  });
    }
    let ghost keep = not_of_user(address@);
    let mut kept: Vec<RateLimitState> = Vec::new();
    let mut i: usize = 0;
    while i < state.rate_limit_states.len()
        invariant
            i <= state.rate_limit_states@.len(),
            kept@ == state.rate_limit_states@.subrange(0, i as int).filter(keep),
            keep == not_of_user(address@),
        decreases state.rate_limit_states@.len() - i,
    {
        let item = &state.rate_limit_states[i];
        proof {
            assert(state.rate_limit_states@.subrange(0, i + 1) =~= state.rate_limit_states@.subrange(0, i as int).push(*item));
            state.rate_limit_states@.subrange(0, i as int).lemma_filter_push(*item, keep);
        }
        if !crate::text::str_eq(item.user.as_str(), address.as_str()) {
            kept.push(item.copy());
        }
        i = i + 1;
    }
    proof {
        assert(state.rate_limit_states@.subrange(0, state.rate_limit_states@.len() as int) =~= state.rate_limit_states@);
    }
    state.rate_limit_states = kept;
    let resp = Response::new();
    let resp = resp.add_attribute("method", String::from_str("reset_rate_limit"));
    let resp = resp.add_attribute("reset_address", address);
    let resp = resp.add_attribute("admin", info.sender.clone());
    assert(resp.attrs() =~= seq![("method"@, "reset_rate_limit"@), ("reset_address"@, address@), ("admin"@, info.sender@)]);
    Ok(resp)
}

/// What `query_config` answers.
pub open spec fn query_config_answer(state: &ContractState, r: ConfigResponse) -> bool {
    r.config == state.config
}

/// The platform settings.
pub fn query_config(state: &ContractState) -> (r: ConfigResponse)
    ensures
        query_config_answer(state, r),
{
    ConfigResponse { config: state.config.copy() }
}

/// What `query_audit_logs` answers.
pub open spec fn query_audit_logs_answer(state: &ContractState, start_after: Option<String>, limit: Option<u32>, action_filter: Option<String>, r: AuditLogsResponse) -> bool {
    r.logs@.len() == 0
}

/// Audit log entries are not served: the answer is always empty.
pub fn query_audit_logs(state: &ContractState, start_after: Option<String>, limit: Option<u32>, action_filter: Option<String>) -> (r: AuditLogsResponse)
    ensures
        query_audit_logs_answer(state, start_after, limit, action_filter, r),
{
    AuditLogsResponse { logs: Vec::new() }
}

/// What `query_is_address_blocked` answers.
pub open spec fn query_is_address_blocked_answer(state: &ContractState, address: Seq<char>, r: AddressBlockedResponse) -> bool {
    &&& r.is_blocked == state.blocked_addresses@.contains_key(address)
    &&& r.reason is None
}

/// Whether an (already validated) address is blocked; no reason is kept.
pub fn query_is_address_blocked(state: &ContractState, address: &str) -> (r: AddressBlockedResponse)
    requires
        state.wf(),
    ensures
        query_is_address_blocked_answer(state, address@, r),
{
    AddressBlockedResponse { is_blocked: state.blocked_addresses.contains_key(address), reason: None }
}

/// What `query_rate_limit_status` answers.
pub open spec fn query_rate_limit_status_answer(state: &ContractState, address: Seq<char>, r: RateLimitStatusResponse) -> bool {
    ({
        let rl = crate::security::stored_rate_limit(state, address);
        let (count, start) = match rl {
            Some(x) => (x.daily_jobs, x.last_reset),
            None => (0u64, 0u64),
        };
        &&& r.current_count == count
        &&& r.limit == MAX_JOBS_PER_USER_PER_DAY
        &&& r.window_start == start
        &&& r.is_limited == (count >= MAX_JOBS_PER_USER_PER_DAY)
    })
}

/// A user's daily job counter against the daily job limit.
pub fn query_rate_limit_status(state: &ContractState, address: &str) -> (r: RateLimitStatusResponse)
    requires
        state.wf(),
    ensures
        query_rate_limit_status_answer(state, address@, r),
{
    let (count, start) = match state.user_rate_limits.get(address) {
        Some(x) => (x.daily_jobs, x.last_reset),
        None => (0, 0),
    };
    RateLimitStatusResponse {
        current_count: count,
        limit: MAX_JOBS_PER_USER_PER_DAY,
        window_start: start,
        is_limited: count >= MAX_JOBS_PER_USER_PER_DAY,
    }
}

/// What `query_security_metrics` answers.
pub open spec fn query_security_metrics_answer(state: &ContractState, r: SecurityMetricsResponse) -> bool {
    &&& r.metrics.total_jobs == state.jobs@.len()
    &&& r.metrics.total_proposals == state.proposals@.len()
    &&& r.metrics.total_disputes == state.disputes.entry_seq().len()
    &&& r.metrics.blocked_addresses@ == state.blocked_addresses.entry_seq().map_values(|e: (String, u64)| e.0)
    &&& r.metrics.rate_limit_violations == 0
    &&& r.metrics.last_updated == 0
}

/// The security dashboard: how many jobs, proposals and disputes are stored, and the blocked
/// addresses in ascending order. Violations and the time are not tracked and read zero.
pub fn query_security_metrics(state: &ContractState) -> (r: SecurityMetricsResponse)
    requires
        state.wf(),
    ensures
        query_security_metrics_answer(state, r),
{
    let n = state.blocked_addresses.len();
    let mut blocked: Vec<String> = Vec::new();
    let mut i: usize = 0;
    while i < n
        invariant
            n == state.blocked_addresses.entry_seq().len(),
            i <= n,
            blocked@ == state.blocked_addresses.entry_seq().subrange(0, i as int).map_values(|e: (String, u64)| e.0),
        decreases n - i,
    {
        blocked.push(state.blocked_addresses.key_at(i).clone());
        i = i + 1;
        assert(blocked@ =~= state.blocked_addresses.entry_seq().subrange(0, i as int).map_values(|e: (String, u64)| e.0));
    }
    assert(state.blocked_addresses.entry_seq().subrange(0, n as int) =~= state.blocked_addresses.entry_seq());
    SecurityMetricsResponse {
        metrics: SecurityMetrics {
            total_jobs: state.jobs.len() as u64,
            total_proposals: state.proposals.len() as u64,
            total_disputes: state.disputes.len() as u64,
            blocked_addresses: blocked,
            rate_limit_violations: 0,
            last_updated: 0,
        },
    }
}

} // verus!
