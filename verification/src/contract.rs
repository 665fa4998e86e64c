//! The entry point that hands each message to the operation that performs it.
use vstd::prelude::*;
use crate::admin::{
    block_address_outcome, execute_block_address, execute_pause_contract, execute_reset_rate_limit,
    execute_unblock_address, execute_unpause_contract, execute_update_config, pause_contract_outcome,
    reset_rate_limit_outcome, unblock_address_outcome, unpause_contract_outcome, update_config_outcome,
};
use crate::bounty::{
    cancel_bounty_outcome, create_bounty_escrow_outcome, create_bounty_outcome, create_bounty_refusal,
    edit_bounty_outcome, edit_bounty_refusal, edit_bounty_submission_outcome, edited_description, edited_title,
    execute_cancel_bounty, execute_create_bounty, execute_create_bounty_escrow, execute_edit_bounty,
    execute_edit_bounty_submission, execute_release_bounty_rewards, execute_review_bounty_submission,
    execute_select_bounty_winners, execute_submit_to_bounty, execute_withdraw_bounty_submission,
    release_bounty_rewards_outcome, review_bounty_submission_outcome, rewards_fit, select_bounty_winners_outcome,
    select_precheck, submit_to_bounty_outcome, tiers_fit, withdraw_bounty_submission_outcome,
};
use crate::chain::{days_after, Env, MessageInfo, Response};
use crate::contract_helpers::opt_string_view;
use crate::error::{invalid_input, not_found, ContractError, ErrorView, StdError, StdErrorView};
use crate::escrow::{
    create_escrow_cw20, create_escrow_native, create_escrow_native_outcome, create_escrow_refusal, escrow_created,
    job_kind, raise_dispute, raise_dispute_outcome, raise_dispute_refusal, refund_escrow, refund_escrow_outcome,
    release_escrow, release_escrow_outcome, resolve_dispute, resolve_dispute_outcome,
};
use crate::jobs::{
    accept_proposal_outcome, cancel_job_outcome, complete_job_outcome, delete_job_outcome, edit_job_outcome,
    edit_job_refusal, edit_proposal_outcome, complete_milestone_outcome, approve_milestone_outcome, execute_accept_proposal, execute_approve_milestone, execute_cancel_job,
    execute_complete_job, execute_complete_milestone, execute_delete_job, execute_edit_job, execute_edit_proposal,
    execute_post_job, execute_submit_proposal, execute_submit_rating, execute_withdraw_proposal, opt_str,
    post_job_outcome, post_job_refusal, submit_proposal_outcome, submit_rating_outcome, withdraw_proposal_outcome,
};
use crate::msg::{
    AddressBlockedResponse, AuditLogsResponse, BountiesResponse, BountyResponse, BountySubmissionResponse,
    BountySubmissionsResponse, ConfigResponse, DisputeResponse, DisputesResponse, EscrowResponse, ExecuteMsg,
    JobResponse, JobsResponse, PlatformStatsResponse, ProposalResponse, ProposalsResponse, QueryMsg,
    RateLimitStatusResponse, RatingsResponse, SecurityMetricsResponse, UserStatsResponse,
};
use crate::admin::{
    query_audit_logs, query_audit_logs_answer, query_config, query_config_answer, query_is_address_blocked,
    query_is_address_blocked_answer, query_rate_limit_status, query_rate_limit_status_answer, query_security_metrics,
    query_security_metrics_answer,
};
use crate::queries::{
    query_all_bounties, query_all_bounties_answer, query_all_jobs, query_all_jobs_answer, query_bounties, query_bounties_answer, query_bounty, query_bounty_answer, query_bounty_submission, query_bounty_submission_answer, query_bounty_submissions, query_bounty_submissions_answer, query_dispute, query_dispute_answer, query_escrow, query_escrow_answer, query_job, query_job_answer, query_job_disputes, query_job_disputes_answer, query_job_escrow, query_job_escrow_answer, query_job_proposals, query_job_proposals_answer, query_job_rating, query_job_rating_answer, query_jobs, query_jobs_answer, query_platform_stats, query_platform_stats_answer, query_proposal, query_proposal_answer, query_user_bounties, query_user_bounties_answer, query_user_bounty_submissions, query_user_bounty_submissions_answer, query_user_disputes, query_user_disputes_answer, query_user_jobs, query_user_jobs_answer, query_user_proposals, query_user_proposals_answer, query_user_ratings, query_user_ratings_answer, query_user_stats, query_user_stats_answer,
};
use crate::state::{tables_have_room, ContractState, Rating};
use crate::hash_utils::{
    bounty_bundle, create_bounty_content_bundle, create_bounty_submission_content_bundle, create_job_content_bundle,
    create_proposal_content_bundle, create_user_profile_bundle, job_bundle, profile_bundle, proposal_bundle,
    submission_bundle, texts, OffChainBundle,
};
use crate::users::{execute_update_user_profile, update_user_profile_outcome};

verus! {

/// The number of items in an optional list.
pub open spec fn opt_count<T>(v: Option<Vec<T>>) -> Option<nat> {
    match v {
        Some(x) => Some(x@.len()),
        None => None,
    }
}

/// The number of items in an optional list, in a `usize`.
pub open spec fn opt_count_usize<T>(v: Option<Vec<T>>) -> Option<usize> {
    match v {
        Some(x) => Some(x.len()),
        None => None,
    }
}

/// `Some(true)` when a list is given, else nothing: whether an edit sets milestones.
pub open spec fn milestones_given<T>(v: Option<Vec<T>>) -> Option<bool> {
    if v is Some { Some(true) } else { None }
}

/// The bundle when `changed`, else nothing.
pub open spec fn bundle_if(changed: bool, bundle_json: Seq<char>) -> Option<Seq<char>> {
    if changed { Some(bundle_json) } else { None }
}

/// The message of the refused deprecated funding operation.
pub open spec fn fund_escrow_message() -> Seq<char> {
    "FundEscrow is deprecated. Use CreateEscrowNative or CreateEscrowCw20 instead"@
}

/// What a message needs of the state beyond well-formedness: that the deadlines and
/// amounts it would compute fit in their integer types when it is not refused earlier.
pub open spec fn execute_requirements(pre: ContractState, env: Env, info: MessageInfo, msg: ExecuteMsg) -> bool {
    match msg {
        ExecuteMsg::PostJob { title, description, budget, category, skills_required, duration_days, milestones, .. } =>
            post_job_refusal(pre, env.time, info.sender@, title@, description@, budget, category@, skills_required@, duration_days, milestones) is None
                ==> days_after(env.time, duration_days) <= u64::MAX && crate::jobs::milestone_deadlines_fit(env.time, milestones),
        ExecuteMsg::EditJob { job_id, title, description, budget, category, skills_required, duration_days, .. } =>
            edit_job_refusal(pre, env.time, info.sender@, job_id, opt_string_view(title), opt_string_view(description), budget, opt_string_view(category), opt_count(skills_required), duration_days) is None
                ==> (duration_days matches Some(d) ==> days_after(pre.jobs@[job_id].created_at, d) <= u64::MAX),
        ExecuteMsg::RaiseDispute { job_id, reason, .. } =>
            raise_dispute_refusal(pre, info.sender@, job_id, reason@) is None
                ==> days_after(env.time, pre.config.dispute_period_days) <= u64::MAX,
        ExecuteMsg::CreateBounty { title, description, requirements, total_reward, category, skills_required, submission_deadline_days, max_winners, reward_distribution, .. } =>
            create_bounty_refusal(pre, env.time, info, title@, description@, requirements@.len(), total_reward, category@, skills_required@.len(), submission_deadline_days, max_winners, reward_distribution@) is None ==> {
                &&& days_after(env.time, submission_deadline_days) <= u64::MAX
                &&& tiers_fit(total_reward, reward_distribution@)
                &&& total_reward * pre.config.platform_fee_percent <= u128::MAX
            },
        ExecuteMsg::EditBounty { bounty_id, title, description, requirements, submission_deadline_days, documents, .. } =>
            edit_bounty_refusal(pre, env.time, info.sender@, bounty_id, bounty_content_changed(title, description, requirements, documents), edited_title(opt_string_view(title)), edited_description(opt_string_view(description))) is None
                ==> (submission_deadline_days matches Some(d) ==> days_after(env.time, d) <= u64::MAX),
        ExecuteMsg::SelectBountyWinners { bounty_id, winner_submissions } =>
            select_precheck(pre, env.time, info.sender@, bounty_id, winner_submissions@) is None
                ==> rewards_fit(pre, bounty_id, winner_submissions@),
        _ => true,
    }
}

/// Whether a job edit changes the job's published content.
pub open spec fn job_content_changed<M>(title: Option<String>, description: Option<String>, documents: Option<Vec<String>>, milestones: Option<Vec<M>>) -> bool {
    title is Some || description is Some || documents is Some || milestones is Some
}

/// Whether a bounty edit changes the bounty's published content.
pub open spec fn bounty_content_changed(title: Option<String>, description: Option<String>, requirements: Option<Vec<String>>, documents: Option<Vec<String>>) -> bool {
    title is Some || description is Some || requirements is Some || documents is Some
}

/// What `execute` does with a message: a sender on the block list (other than the admin) is
/// refused; otherwise the operation that the message names is performed.
/// `bundle_json` is the serialized content bundle of the operations that publish content,
/// `storage_key` the key of a profile's stored content, and `cw20_hook_job` the job that
/// a token transfer's hook message names, or why that message does not parse.
pub open spec fn execute_outcome(
    pre: ContractState,
    post: ContractState,
    env: Env,
    info: MessageInfo,
    msg: ExecuteMsg,
    bundle_json: Seq<char>,
    storage_key: Seq<char>,
    cw20_hook_job: Result<u64, StdError>,
    r: Result<Response, ContractError>,
) -> bool {
    if sender_blocked(pre, info.sender@) {
        r matches Err(e) && e@ == ErrorView::AccessDenied && post == pre
    } else {
        operation_outcome(pre, post, env, info, msg, bundle_json, storage_key, cw20_hook_job, r)
    }
}

/// Whether `sender` is on the block list; the admin is never refused as blocked.
pub open spec fn sender_blocked(pre: ContractState, sender: Seq<char>) -> bool {
    pre.blocked_addresses@.contains_key(sender) && sender != pre.config.admin@
}

/// What the operation that `msg` names does, for a sender who is not blocked.
pub open spec fn operation_outcome(
    pre: ContractState,
    post: ContractState,
    env: Env,
    info: MessageInfo,
    msg: ExecuteMsg,
    bundle_json: Seq<char>,
    storage_key: Seq<char>,
    cw20_hook_job: Result<u64, StdError>,
    r: Result<Response, ContractError>,
) -> bool {
    match msg {
        ExecuteMsg::PostJob { title, description, budget, category, skills_required, duration_days, milestones, .. } =>
            post_job_outcome(pre, post, env, info, title@, description@, budget, category@, skills_required@, duration_days, milestones, bundle_json, r),
        ExecuteMsg::EditJob { job_id, title, description, budget, category, skills_required, duration_days, documents, milestones } =>
            edit_job_outcome(pre, post, env, info, job_id, opt_string_view(title), opt_string_view(description), budget, opt_string_view(category), opt_count(skills_required), duration_days, milestones_given(milestones), bundle_if(job_content_changed(title, description, documents, milestones), bundle_json), r),
        ExecuteMsg::DeleteJob { job_id } => delete_job_outcome(pre, post, env, info, job_id, r),
        ExecuteMsg::CancelJob { job_id } => cancel_job_outcome(pre, post, env, info, job_id, r),
        ExecuteMsg::SubmitProposal { job_id, cover_letter, delivery_time_days, milestones } =>
            submit_proposal_outcome(pre, post, env, info, job_id, cover_letter@, delivery_time_days, match milestones { Some(m) => m.len(), None => 0 }, bundle_json, r),
        ExecuteMsg::EditProposal { proposal_id, cover_letter, delivery_time_days, milestones } =>
            edit_proposal_outcome(pre, post, env, info, proposal_id, delivery_time_days, opt_count_usize(milestones), bundle_if(cover_letter is Some || milestones is Some, bundle_json), r),
        ExecuteMsg::WithdrawProposal { proposal_id } => withdraw_proposal_outcome(pre, post, env, info, proposal_id, r),
        ExecuteMsg::AcceptProposal { job_id, proposal_id } => accept_proposal_outcome(pre, post, env, info, job_id, proposal_id, r),
        ExecuteMsg::CreateEscrow { job_id } =>
            if pre.jobs@.contains_key(job_id) {
                create_escrow_native_outcome(pre, post, env, info, job_id, r)
            } else {
                r matches Err(e) && e@ == ErrorView::Std(StdErrorView::NotFound { kind: job_kind() }) && post == pre
            },
        ExecuteMsg::CreateEscrowNative { job_id, .. } => create_escrow_native_outcome(pre, post, env, info, job_id, r),
        ExecuteMsg::CreateEscrowCw20 { amount, .. } =>
            match cw20_hook_job {
                Ok(job_id) => {
                    let refusal = create_escrow_refusal(pre, info.sender@, job_id, Ok(amount));
                    &&& r is Err <==> refusal is Some
                    &&& r matches Err(e) ==> refusal == Some(e@) && post == pre
                    &&& r matches Ok(resp) ==> escrow_created(pre, post, env.time, job_id, amount, Some(info.sender@), resp)
                },
                Err(e) => r matches Err(x) && x@ == ErrorView::Std(e@) && post == pre,
            },
        ExecuteMsg::FundEscrow { .. } =>
            r matches Err(e) && e@ == ErrorView::InvalidInput(fund_escrow_message()) && post == pre,
        ExecuteMsg::ReleaseEscrow { escrow_id } => release_escrow_outcome(pre, post, env, info, escrow_id, r),
        ExecuteMsg::RefundEscrow { escrow_id } => refund_escrow_outcome(pre, post, env, info, escrow_id, r),
        ExecuteMsg::CompleteJob { job_id } => complete_job_outcome(pre, post, env, info, job_id, r),
        ExecuteMsg::CompleteMilestone { job_id, milestone_id } => complete_milestone_outcome(pre, post, env, info, job_id, milestone_id, r),
        ExecuteMsg::ApproveMilestone { job_id, milestone_id } => approve_milestone_outcome(pre, post, env, info, job_id, milestone_id, r),
        ExecuteMsg::SubmitRating { job_id, rating, comment } => submit_rating_outcome(pre, post, env, info, job_id, rating, comment, r),
        ExecuteMsg::RaiseDispute { job_id, reason, evidence } => raise_dispute_outcome(pre, post, env, info, job_id, reason, evidence, r),
        ExecuteMsg::ResolveDispute { dispute_id, resolution, release_to_freelancer } =>
            resolve_dispute_outcome(pre, post, env, info, dispute_id, resolution, release_to_freelancer, r),
        ExecuteMsg::UpdateConfig { admin, platform_fee_percent, min_escrow_amount, dispute_period_days, max_job_duration_days } =>
            update_config_outcome(pre, post, env, info, admin, platform_fee_percent, min_escrow_amount, dispute_period_days, max_job_duration_days, r),
        ExecuteMsg::PauseContract {} => pause_contract_outcome(pre, post, env, info, r),
        ExecuteMsg::UnpauseContract {} => unpause_contract_outcome(pre, post, env, info, r),
        ExecuteMsg::UpdateUserProfile { name, bio, .. } =>
            update_user_profile_outcome(pre, post, env, info, opt_string_view(name), opt_string_view(bio), bundle_json, storage_key, r),
        ExecuteMsg::CreateBounty { title, description, requirements, total_reward, category, skills_required, submission_deadline_days, review_period_days, max_winners, reward_distribution, .. } =>
            create_bounty_outcome(pre, post, env, info, title@, description@, requirements@, total_reward, category@, skills_required@, submission_deadline_days, review_period_days, max_winners, reward_distribution@, bundle_json, r),
        ExecuteMsg::EditBounty { bounty_id, title, description, requirements, submission_deadline_days, review_period_days, documents } =>
            edit_bounty_outcome(pre, post, env, info, bounty_id, opt_string_view(title), opt_string_view(description), bounty_content_changed(title, description, requirements, documents), submission_deadline_days, review_period_days, bundle_json, r),
        ExecuteMsg::CancelBounty { bounty_id } => cancel_bounty_outcome(pre, post, env, info, bounty_id, r),
        ExecuteMsg::SubmitToBounty { bounty_id, title, description, deliverables } =>
            submit_to_bounty_outcome(pre, post, env, info, bounty_id, title@, description@, deliverables@, bundle_json, r),
        ExecuteMsg::EditBountySubmission { submission_id, .. } =>
            edit_bounty_submission_outcome(pre, post, env, info, submission_id, bundle_json, r),
        ExecuteMsg::WithdrawBountySubmission { submission_id } =>
            withdraw_bounty_submission_outcome(pre, post, env, info, submission_id, r),
        ExecuteMsg::ReviewBountySubmission { submission_id, status, review_notes, score } =>
            review_bounty_submission_outcome(pre, post, env, info, submission_id, status, opt_string_view(review_notes), score, bundle_json, r),
        ExecuteMsg::SelectBountyWinners { bounty_id, winner_submissions } =>
            select_bounty_winners_outcome(pre, post, env, info, bounty_id, winner_submissions, r),
        ExecuteMsg::CreateBountyEscrow { bounty_id } => create_bounty_escrow_outcome(pre, post, env, info, bounty_id, r),
        ExecuteMsg::ReleaseBountyRewards { bounty_id } => release_bounty_rewards_outcome(pre, post, env, info, bounty_id, r),
        ExecuteMsg::BlockAddress { address, reason } => block_address_outcome(pre, post, env, info, address, reason, r),
        ExecuteMsg::UnblockAddress { address } => unblock_address_outcome(pre, post, env, info, address, r),
        ExecuteMsg::ResetRateLimit { address } => reset_rate_limit_outcome(pre, post, env, info, address, r),
    }
}

fn opt_as_str(s: &Option<String>) -> (r: Option<&str>)
    ensures
        opt_str(r) == opt_string_view(*s),
{
    match s {
        Some(x) => Some(x.as_str()),
        None => None,
    }
}

fn opt_len<T>(v: &Option<Vec<T>>) -> (r: Option<usize>)
    ensures
        r == opt_count_usize(*v),
{
    match v {
        Some(x) => Some(x.len()),
        None => None,
    }
}

/// The text of an optional string, or `default` when there is none.
pub open spec fn text_or(s: Option<String>, default: Seq<char>) -> Seq<char> {
    match s {
        Some(x) => x@,
        None => default,
    }
}

/// The texts of an optional list, or none.
pub open spec fn texts_or_none(v: Option<Vec<String>>) -> Seq<Seq<char>> {
    match v {
        Some(x) => crate::hash_utils::texts(x@),
        None => Seq::empty(),
    }
}

/// The milestones of an optional list, or none.
pub open spec fn milestones_or_none(v: Option<Vec<crate::state::ProposalMilestone>>) -> Seq<crate::state::ProposalMilestone> {
    match v {
        Some(x) => x@,
        None => Seq::empty(),
    }
}

/// The content an operation publishes off-chain, as the bundle whose serialized form it
/// hashes: a job's, proposal's, profile's, bounty's or submission's texts, with the defaults
/// the operation fills in for texts it leaves out; `None` for operations that publish nothing.
pub open spec fn content_bundle_of(state: ContractState, env: Env, info: MessageInfo, msg: ExecuteMsg, r: Option<OffChainBundle>) -> bool {
    let now = crate::chain::seconds_of(env.time) as u64;
    match msg {
        ExecuteMsg::PostJob { title, description, category, skills_required, documents, .. } =>
            r matches Some(b) && job_bundle(b, state.next_job_id, title@, description@, category@, texts(skills_required@), texts_or_none(documents), now),
        ExecuteMsg::EditJob { job_id, title, description, category, skills_required, documents, .. } =>
            r matches Some(b) && job_bundle(b, job_id, text_or(title, ""@), text_or(description, ""@), text_or(category, ""@), texts_or_none(skills_required), texts_or_none(documents), now),
        ExecuteMsg::SubmitProposal { cover_letter, milestones, .. } =>
            r matches Some(b) && proposal_bundle(b, state.next_proposal_id, cover_letter@, milestones_or_none(milestones), now),
        ExecuteMsg::EditProposal { proposal_id, cover_letter, milestones, .. } =>
            r matches Some(b) && proposal_bundle(b, proposal_id, text_or(cover_letter, ""@), milestones_or_none(milestones), now),
        ExecuteMsg::UpdateUserProfile { name, bio, skills, portfolio_url, .. } =>
            r matches Some(b) && profile_bundle(b, info.sender@, opt_string_view(name), opt_string_view(bio), texts_or_none(skills), match portfolio_url {
                Some(u) => seq![u@],
                None => Seq::empty(),
            }, now),
        ExecuteMsg::CreateBounty { title, description, requirements, category, skills_required, documents, .. } =>
            r matches Some(b) && bounty_bundle(b, state.next_bounty_id, title@, description@, texts(requirements@), texts_or_none(documents), category@, texts(skills_required@), now),
        ExecuteMsg::EditBounty { bounty_id, title, description, requirements, documents, .. } =>
            r matches Some(b) && bounty_bundle(b, bounty_id, text_or(title, "Updated Bounty"@), text_or(description, "Updated description"@), texts_or_none(requirements), texts_or_none(documents), "Other"@, Seq::empty(), now),
        ExecuteMsg::SubmitToBounty { title, description, deliverables, .. } =>
            r matches Some(b) && submission_bundle(b, state.next_bounty_submission_id, title@, description@, texts(deliverables@), None, now),
        ExecuteMsg::EditBountySubmission { submission_id, title, description, deliverables } =>
            r matches Some(b) && submission_bundle(b, submission_id, text_or(title, "Submission "@ + crate::text::decimal_chars(submission_id as nat)), text_or(description, "Updated submission"@), texts_or_none(deliverables), None, now),
        ExecuteMsg::ReviewBountySubmission { submission_id, review_notes, .. } =>
            r matches Some(b) && submission_bundle(b, submission_id, "Reviewed Submission"@, "Updated with review notes"@, seq!["submission_url"@], opt_string_view(review_notes), now),
        _ => r is None,
    }
}

fn text_or_default<'a>(s: &'a Option<String>, default: &'a str) -> (r: &'a str)
    ensures
        r@ == text_or(*s, default@),
{
    match s {
        Some(x) => x.as_str(),
        None => default,
    }
}

fn strings_or_none(v: &Option<Vec<String>>) -> (r: Vec<String>)
    ensures
        texts(r@) == texts_or_none(*v),
{
    match v {
        Some(x) => crate::text::copy_strings(x),
        None => {
            let r: Vec<String> = Vec::new();
            assert(texts(r@) =~= Seq::<Seq<char>>::empty());
            r
        },
    }
}

fn proposal_milestones_or_none(v: &Option<Vec<crate::state::ProposalMilestone>>) -> (r: Vec<crate::state::ProposalMilestone>)
    ensures
        r@ == milestones_or_none(*v),
{
    let mut r: Vec<crate::state::ProposalMilestone> = Vec::new();
    if let Some(x) = v {
        let mut i: usize = 0;
        while i < x.len()
            invariant
                *v == Some(*x),
                i <= x@.len(),
                r@ == x@.subrange(0, i as int),
            decreases x@.len() - i,
        {
            let m = &x[i];
            r.push(crate::state::ProposalMilestone {
                title: m.title.clone(),
                description: m.description.clone(),
                amount: m.amount,
                deadline_days: m.deadline_days,
            });
            proof {
                assert(r@ =~= x@.subrange(0, i + 1));
            }
            i = i + 1;
        }
        proof {
            assert(r@ =~= x@);
        }
    } else {
        assert(r@ =~= milestones_or_none(*v));
    }
    r
}

/// The bundle an operation publishes off-chain, whose serialized form is handed back to
/// `execute` for hashing; `None` for the operations that publish no content.
pub fn content_bundle(state: &ContractState, env: &Env, info: &MessageInfo, msg: &ExecuteMsg) -> (r: Option<OffChainBundle>)
    ensures
        content_bundle_of(*state, *env, *info, *msg, r),
{
    let now = crate::chain::seconds(env.time);
    let made = match msg {
        ExecuteMsg::PostJob { title, description, category, skills_required, documents, .. } => {
            let docs = strings_or_none(documents);
            let skills = crate::text::copy_strings(skills_required);
            create_job_content_bundle(state.next_job_id, title.as_str(), description.as_str(), None, None, category.as_str(), &skills, &docs, now)
        },
        ExecuteMsg::EditJob { job_id, title, description, category, skills_required, documents, .. } => {
            let docs = strings_or_none(documents);
            let skills = strings_or_none(skills_required);
            create_job_content_bundle(*job_id, text_or_default(title, ""), text_or_default(description, ""), None, None, text_or_default(category, ""), &skills, &docs, now)
        },
        ExecuteMsg::SubmitProposal { cover_letter, milestones, .. } => {
            let ms = proposal_milestones_or_none(milestones);
            create_proposal_content_bundle(state.next_proposal_id, cover_letter.as_str(), ms, now)
        },
        ExecuteMsg::EditProposal { proposal_id, cover_letter, milestones, .. } => {
            let ms = proposal_milestones_or_none(milestones);
            create_proposal_content_bundle(*proposal_id, text_or_default(cover_letter, ""), ms, now)
        },
        ExecuteMsg::UpdateUserProfile { name, bio, skills, portfolio_url, .. } => {
            let sk = strings_or_none(skills);
            let mut links: Vec<String> = Vec::new();
            if let Some(u) = portfolio_url {
                links.push(u.clone());
            }
            let display_name: Option<&str> = match name {
                Some(n) => Some(n.as_str()),
                None => None,
            };
            let bio_text: Option<&str> = match bio {
                Some(x) => Some(x.as_str()),
                None => None,
            };
            assert(texts(links@) =~= match *portfolio_url { Some(u) => seq![u@], None => Seq::<Seq<char>>::empty() });
            create_user_profile_bundle(info.sender.as_str(), display_name, bio_text, &sk, &links, now)
        },
        ExecuteMsg::CreateBounty { title, description, requirements, category, skills_required, documents, .. } => {
            let docs = strings_or_none(documents);
            create_bounty_content_bundle(state.next_bounty_id, title.as_str(), description.as_str(), requirements, &docs, category.as_str(), skills_required, now)
        },
        ExecuteMsg::EditBounty { bounty_id, title, description, requirements, documents, .. } => {
            let reqs = strings_or_none(requirements);
            let docs = strings_or_none(documents);
            let no_skills: Vec<String> = Vec::new();
            assert(texts(no_skills@) =~= Seq::<Seq<char>>::empty());
            create_bounty_content_bundle(*bounty_id, text_or_default(title, "Updated Bounty"), text_or_default(description, "Updated description"), &reqs, &docs, "Other", &no_skills, now)
        },
        ExecuteMsg::SubmitToBounty { title, description, deliverables, .. } => {
            create_bounty_submission_content_bundle(state.next_bounty_submission_id, title.as_str(), description.as_str(), deliverables, None, now)
        },
        ExecuteMsg::EditBountySubmission { submission_id, title, description, deliverables } => {
            let id = crate::text::u64_to_string(*submission_id);
            let default_title = crate::text::concat2("Submission ", id.as_str());
            let dels = strings_or_none(deliverables);
            create_bounty_submission_content_bundle(*submission_id, text_or_default(title, default_title.as_str()), text_or_default(description, "Updated submission"), &dels, None, now)
        },
        ExecuteMsg::ReviewBountySubmission { submission_id, review_notes, .. } => {
            let mut dels: Vec<String> = Vec::new();
            dels.push(String::from_str("submission_url"));
            let notes: Option<&str> = match review_notes {
                Some(n) => Some(n.as_str()),
                None => None,
            };
            assert(texts(dels@) =~= seq!["submission_url"@]);
            create_bounty_submission_content_bundle(*submission_id, "Reviewed Submission", "Updated with review notes", &dels, notes, now)
        },
        _ => return None,
    };
    match made {
        Ok(b) => Some(b),
        Err(_) => None,
    }
}


/// Performs the operation that `msg` names. `bundle_json` is the serialized content bundle of
/// the operations that publish content, `storage_key` the key under which a profile's content
/// is stored, and `cw20_hook_job` the job that a token transfer's hook message names, or why
/// that message does not parse.
#[verifier::rlimit(60)]
pub fn execute(
    state: &mut ContractState,
    env: &Env,
    info: &MessageInfo,
    msg: ExecuteMsg,
    bundle_json: &str,
    storage_key: &str,
    cw20_hook_job: Result<u64, StdError>,
) -> (r: Result<Response, ContractError>)
    requires
        old(state).wf(),
        tables_have_room(old(state)),
        execute_requirements(*old(state), *env, *info, msg),
    ensures
        crate::state::room_used(*old(state), *final(state)),
        execute_outcome(*old(state), *final(state), *env, *info, msg, bundle_json@, storage_key@, cw20_hook_job, r),
        final(state).wf(),
{
    if state.blocked_addresses.contains_key(info.sender.as_str()) && !crate::text::str_eq(info.sender.as_str(), state.config.admin.as_str()) {
        return Err(ContractError::AccessDenied {  });
    }
    match msg {
        ExecuteMsg::PostJob { title, description, budget, category, skills_required, duration_days, documents: _, milestones } =>
            execute_post_job(state, env, info, title.as_str(), description.as_str(), budget, category.as_str(), &skills_required, duration_days, &milestones, bundle_json),
        ExecuteMsg::EditJob { job_id, title, description, budget, category, skills_required, duration_days, documents, milestones } => {
            let has_milestones = if milestones.is_some() { Some(true) } else { None };
            let changed = title.is_some() || description.is_some() || documents.is_some() || milestones.is_some();
            let bundle = if changed { Some(bundle_json) } else { None };
            execute_edit_job(state, env, info, job_id, opt_as_str(&title), opt_as_str(&description), budget, opt_as_str(&category), skills_required.as_ref(), duration_days, has_milestones, bundle)
        },
        ExecuteMsg::DeleteJob { job_id } => execute_delete_job(state, env, info, job_id),
        ExecuteMsg::CancelJob { job_id } => execute_cancel_job(state, env, info, job_id),
        ExecuteMsg::SubmitProposal { job_id, cover_letter, delivery_time_days, milestones } => {
            let count = match &milestones {
                Some(m) => m.len(),
                None => 0,
            };
            execute_submit_proposal(state, env, info, job_id, cover_letter.as_str(), delivery_time_days, count, bundle_json)
        },
        ExecuteMsg::EditProposal { proposal_id, cover_letter, delivery_time_days, milestones } => {
            let bundle = if cover_letter.is_some() || milestones.is_some() { Some(bundle_json) } else { None };
            execute_edit_proposal(state, env, info, proposal_id, delivery_time_days, opt_len(&milestones), bundle)
        },
        ExecuteMsg::WithdrawProposal { proposal_id } => execute_withdraw_proposal(state, env, info, proposal_id),
        ExecuteMsg::AcceptProposal { job_id, proposal_id } => execute_accept_proposal(state, env, info, job_id, proposal_id),
        ExecuteMsg::CreateEscrow { job_id } => {
            if !state.jobs.contains_key(&job_id) {
                return Err(not_found("Job"));
            }
            create_escrow_native(state, env, info, job_id)
        },
        ExecuteMsg::CreateEscrowNative { job_id, amount: _ } => create_escrow_native(state, env, info, job_id),
        ExecuteMsg::CreateEscrowCw20 { job_id: _, token_address: _, amount } => match cw20_hook_job {
            Ok(job_id) => create_escrow_cw20(state, env, info, amount, job_id),
            Err(e) => Err(ContractError::Std(e)),
        },
        ExecuteMsg::FundEscrow { escrow_id: _ } =>
            Err(invalid_input("FundEscrow is deprecated. Use CreateEscrowNative or CreateEscrowCw20 instead")),
        ExecuteMsg::ReleaseEscrow { escrow_id } => release_escrow(state, env, info, escrow_id),
        ExecuteMsg::RefundEscrow { escrow_id } => refund_escrow(state, env, info, escrow_id),
        ExecuteMsg::CompleteJob { job_id } => execute_complete_job(state, env, info, job_id),
        ExecuteMsg::CompleteMilestone { job_id, milestone_id } => execute_complete_milestone(state, env, info, job_id, milestone_id),
        ExecuteMsg::ApproveMilestone { job_id, milestone_id } => execute_approve_milestone(state, env, info, job_id, milestone_id),
        ExecuteMsg::SubmitRating { job_id, rating, comment } => execute_submit_rating(state, env, info, job_id, rating, comment),
        ExecuteMsg::RaiseDispute { job_id, reason, evidence } => raise_dispute(state, env, info, job_id, reason, evidence),
        ExecuteMsg::ResolveDispute { dispute_id, resolution, release_to_freelancer } =>
            resolve_dispute(state, env, info, dispute_id, resolution, release_to_freelancer),
        ExecuteMsg::UpdateConfig { admin, platform_fee_percent, min_escrow_amount, dispute_period_days, max_job_duration_days } =>
            execute_update_config(state, env, info, admin, platform_fee_percent, min_escrow_amount, dispute_period_days, max_job_duration_days),
        ExecuteMsg::PauseContract {} => execute_pause_contract(state, env, info),
        ExecuteMsg::UnpauseContract {} => execute_unpause_contract(state, env, info),
        ExecuteMsg::UpdateUserProfile { name, bio, .. } =>
            execute_update_user_profile(state, env, info, opt_as_str(&name), opt_as_str(&bio), bundle_json, storage_key),
        ExecuteMsg::CreateBounty { title, description, requirements, total_reward, category, skills_required, submission_deadline_days, review_period_days, max_winners, reward_distribution, documents: _ } =>
            execute_create_bounty(state, env, info, title.as_str(), description.as_str(), &requirements, total_reward, category.as_str(), &skills_required, submission_deadline_days, review_period_days, max_winners, &reward_distribution, bundle_json),
        ExecuteMsg::EditBounty { bounty_id, title, description, requirements, submission_deadline_days, review_period_days, documents } => {
            let changed = title.is_some() || description.is_some() || requirements.is_some() || documents.is_some();
            execute_edit_bounty(state, env, info, bounty_id, opt_as_str(&title), opt_as_str(&description), changed, submission_deadline_days, review_period_days, bundle_json)
        },
        ExecuteMsg::CancelBounty { bounty_id } => execute_cancel_bounty(state, env, info, bounty_id),
        ExecuteMsg::SubmitToBounty { bounty_id, title, description, deliverables } =>
            execute_submit_to_bounty(state, env, info, bounty_id, title.as_str(), description.as_str(), &deliverables, bundle_json),
        ExecuteMsg::EditBountySubmission { submission_id, .. } =>
            execute_edit_bounty_submission(state, env, info, submission_id, bundle_json),
        ExecuteMsg::WithdrawBountySubmission { submission_id } => execute_withdraw_bounty_submission(state, env, info, submission_id),
        ExecuteMsg::ReviewBountySubmission { submission_id, status, review_notes, score } =>
            execute_review_bounty_submission(state, env, info, submission_id, status, opt_as_str(&review_notes), score, bundle_json),
        ExecuteMsg::SelectBountyWinners { bounty_id, winner_submissions } =>
            execute_select_bounty_winners(state, env, info, bounty_id, winner_submissions),
        ExecuteMsg::CreateBountyEscrow { bounty_id } => execute_create_bounty_escrow(state, env, info, bounty_id),
        ExecuteMsg::ReleaseBountyRewards { bounty_id } => execute_release_bounty_rewards(state, env, info, bounty_id),
        ExecuteMsg::BlockAddress { address, reason } => execute_block_address(state, env, info, address, reason),
        ExecuteMsg::UnblockAddress { address } => execute_unblock_address(state, env, info, address),
        ExecuteMsg::ResetRateLimit { address } => execute_reset_rate_limit(state, env, info, address),
    }
}

/// The answer to a query, one variant per kind of answer.
pub enum QueryAnswer {
    Job(JobResponse),
    Jobs(JobsResponse),
    Proposal(ProposalResponse),
    Proposals(ProposalsResponse),
    Escrow(EscrowResponse),
    Ratings(RatingsResponse),
    Rating(Rating),
    UserStats(UserStatsResponse),
    PlatformStats(PlatformStatsResponse),
    Dispute(DisputeResponse),
    Disputes(DisputesResponse),
    Config(ConfigResponse),
    SecurityMetrics(SecurityMetricsResponse),
    AuditLogs(AuditLogsResponse),
    AddressBlocked(AddressBlockedResponse),
    RateLimitStatus(RateLimitStatusResponse),
    Bounty(BountyResponse),
    Bounties(BountiesResponse),
    BountySubmission(BountySubmissionResponse),
    BountySubmissions(BountySubmissionsResponse),
}

/// What `query` answers to a message: what the query that the message names answers.
/// Addresses in the message are already validated.
pub open spec fn query_outcome(state: &ContractState, msg: QueryMsg, r: Result<QueryAnswer, StdError>) -> bool {
    match msg {
        QueryMsg::GetJob { job_id } => match r {
            Ok(QueryAnswer::Job(a)) => query_job_answer(state, job_id, Ok(a)),
            Err(e) => query_job_answer(state, job_id, Err(e)),
            _ => false,
        },
        QueryMsg::GetJobs { start_after, limit, category, status, poster } =>
            r matches Ok(QueryAnswer::Jobs(a)) && query_jobs_answer(state, start_after, limit, opt_string_view(category), status, opt_string_view(poster), a),
        QueryMsg::GetAllJobs { limit, category } =>
            r matches Ok(QueryAnswer::Jobs(a)) && query_all_jobs_answer(state, limit, opt_string_view(category), a),
        QueryMsg::GetUserJobs { user, status } =>
            r matches Ok(QueryAnswer::Jobs(a)) && query_user_jobs_answer(state, user@, status, a),
        QueryMsg::GetProposal { proposal_id } => match r {
            Ok(QueryAnswer::Proposal(a)) => query_proposal_answer(state, proposal_id, Ok(a)),
            Err(e) => query_proposal_answer(state, proposal_id, Err(e)),
            _ => false,
        },
        QueryMsg::GetJobProposals { job_id } => match r {
            Ok(QueryAnswer::Proposals(a)) => query_job_proposals_answer(state, job_id, Ok(a)),
            Err(e) => query_job_proposals_answer(state, job_id, Err(e)),
            _ => false,
        },
        QueryMsg::GetUserProposals { user, start_after, limit } =>
            r matches Ok(QueryAnswer::Proposals(a)) && query_user_proposals_answer(state, user@, start_after, limit, a),
        QueryMsg::GetEscrow { escrow_id } => match r {
            Ok(QueryAnswer::Escrow(a)) => query_escrow_answer(state, escrow_id@, Ok(a)),
            Err(e) => query_escrow_answer(state, escrow_id@, Err(e)),
            _ => false,
        },
        QueryMsg::GetJobEscrow { job_id } => match r {
            Ok(QueryAnswer::Escrow(a)) => query_job_escrow_answer(state, job_id, Ok(a)),
            Err(e) => query_job_escrow_answer(state, job_id, Err(e)),
            _ => false,
        },
        QueryMsg::GetUserRatings { user } =>
            r matches Ok(QueryAnswer::Ratings(a)) && query_user_ratings_answer(state, user@, a),
        QueryMsg::GetJobRating { job_id, rater } => match r {
            Ok(QueryAnswer::Rating(a)) => query_job_rating_answer(state, job_id, rater@, Ok(a)),
            Err(e) => query_job_rating_answer(state, job_id, rater@, Err(e)),
            _ => false,
        },
        QueryMsg::GetUserStats { user } =>
            r matches Ok(QueryAnswer::UserStats(a)) && query_user_stats_answer(state, user@, a),
        QueryMsg::GetPlatformStats {} => match r {
            Ok(QueryAnswer::PlatformStats(a)) => query_platform_stats_answer(state, Ok(a)),
            Err(e) => query_platform_stats_answer(state, Err(e)),
            _ => false,
        },
        QueryMsg::GetDispute { dispute_id } => match r {
            Ok(QueryAnswer::Dispute(a)) => query_dispute_answer(state, dispute_id@, Ok(a)),
            Err(e) => query_dispute_answer(state, dispute_id@, Err(e)),
            _ => false,
        },
        QueryMsg::GetJobDisputes { job_id } =>
            r matches Ok(QueryAnswer::Disputes(a)) && query_job_disputes_answer(state, job_id, a),
        QueryMsg::GetUserDisputes { user } =>
            r matches Ok(QueryAnswer::Disputes(a)) && query_user_disputes_answer(state, user@, a),
        QueryMsg::GetBounty { bounty_id } => match r {
            Ok(QueryAnswer::Bounty(a)) => query_bounty_answer(state, bounty_id, Ok(a)),
            Err(e) => query_bounty_answer(state, bounty_id, Err(e)),
            _ => false,
        },
        QueryMsg::GetBounties { start_after, limit, category, status, poster } =>
            r matches Ok(QueryAnswer::Bounties(a)) && query_bounties_answer(state, start_after, limit, opt_string_view(category), status, opt_string_view(poster), a),
        QueryMsg::GetAllBounties { limit, category } =>
            r matches Ok(QueryAnswer::Bounties(a)) && query_all_bounties_answer(state, limit, opt_string_view(category), a),
        QueryMsg::GetUserBounties { user, status } =>
            r matches Ok(QueryAnswer::Bounties(a)) && query_user_bounties_answer(state, user@, status, a),
        QueryMsg::GetBountySubmission { submission_id } => match r {
            Ok(QueryAnswer::BountySubmission(a)) => query_bounty_submission_answer(state, submission_id, Ok(a)),
            Err(e) => query_bounty_submission_answer(state, submission_id, Err(e)),
            _ => false,
        },
        QueryMsg::GetBountySubmissions { bounty_id, status } => match r {
            Ok(QueryAnswer::BountySubmissions(a)) => query_bounty_submissions_answer(state, bounty_id, status, Ok(a)),
            Err(e) => query_bounty_submissions_answer(state, bounty_id, status, Err(e)),
            _ => false,
        },
        QueryMsg::GetUserBountySubmissions { user, start_after, limit } => match r {
            Ok(QueryAnswer::BountySubmissions(a)) => query_user_bounty_submissions_answer(state, user@, start_after, limit, Ok(a)),
            Err(e) => query_user_bounty_submissions_answer(state, user@, start_after, limit, Err(e)),
            _ => false,
        },
        QueryMsg::GetConfig {} => r matches Ok(QueryAnswer::Config(a)) && query_config_answer(state, a),
        QueryMsg::GetSecurityMetrics {} =>
            r matches Ok(QueryAnswer::SecurityMetrics(a)) && query_security_metrics_answer(state, a),
        QueryMsg::GetAuditLogs { start_after, limit, action_filter } =>
            r matches Ok(QueryAnswer::AuditLogs(a)) && query_audit_logs_answer(state, start_after, limit, action_filter, a),
        QueryMsg::IsAddressBlocked { address } =>
            r matches Ok(QueryAnswer::AddressBlocked(a)) && query_is_address_blocked_answer(state, address@, a),
        QueryMsg::GetRateLimitStatus { address } =>
            r matches Ok(QueryAnswer::RateLimitStatus(a)) && query_rate_limit_status_answer(state, address@, a),
    }
}

/// Answers the query that `msg` names; addresses in it are already validated.
#[verifier::rlimit(60)]
pub fn query(state: &ContractState, msg: QueryMsg) -> (r: Result<QueryAnswer, StdError>)
    requires
        state.wf(),
    ensures
        query_outcome(state, msg, r),
{
    match msg {
        QueryMsg::GetJob { job_id } => match query_job(state, job_id) {
            Ok(a) => Ok(QueryAnswer::Job(a)),
            Err(e) => Err(e),
        },
        QueryMsg::GetJobs { start_after, limit, category, status, poster } =>
            Ok(QueryAnswer::Jobs(query_jobs(state, start_after, limit, opt_as_str(&category), status, opt_as_str(&poster)))),
        QueryMsg::GetAllJobs { limit, category } => Ok(QueryAnswer::Jobs(query_all_jobs(state, limit, opt_as_str(&category)))),
        QueryMsg::GetUserJobs { user, status } => Ok(QueryAnswer::Jobs(query_user_jobs(state, user.as_str(), status))),
        QueryMsg::GetProposal { proposal_id } => match query_proposal(state, proposal_id) {
            Ok(a) => Ok(QueryAnswer::Proposal(a)),
            Err(e) => Err(e),
        },
        QueryMsg::GetJobProposals { job_id } => match query_job_proposals(state, job_id) {
            Ok(a) => Ok(QueryAnswer::Proposals(a)),
            Err(e) => Err(e),
        },
        QueryMsg::GetUserProposals { user, start_after, limit } =>
            Ok(QueryAnswer::Proposals(query_user_proposals(state, user.as_str(), start_after, limit))),
        QueryMsg::GetEscrow { escrow_id } => match query_escrow(state, escrow_id.as_str()) {
            Ok(a) => Ok(QueryAnswer::Escrow(a)),
            Err(e) => Err(e),
        },
        QueryMsg::GetJobEscrow { job_id } => match query_job_escrow(state, job_id) {
            Ok(a) => Ok(QueryAnswer::Escrow(a)),
            Err(e) => Err(e),
        },
        QueryMsg::GetUserRatings { user } => Ok(QueryAnswer::Ratings(query_user_ratings(state, user.as_str()))),
        QueryMsg::GetJobRating { job_id, rater } => match query_job_rating(state, job_id, rater.as_str()) {
            Ok(a) => Ok(QueryAnswer::Rating(a)),
            Err(e) => Err(e),
        },
        QueryMsg::GetUserStats { user } => Ok(QueryAnswer::UserStats(query_user_stats(state, user.as_str()))),
        QueryMsg::GetPlatformStats {} => match query_platform_stats(state) {
            Ok(a) => Ok(QueryAnswer::PlatformStats(a)),
            Err(e) => Err(e),
        },
        QueryMsg::GetDispute { dispute_id } => match query_dispute(state, dispute_id.as_str()) {
            Ok(a) => Ok(QueryAnswer::Dispute(a)),
            Err(e) => Err(e),
        },
        QueryMsg::GetJobDisputes { job_id } => Ok(QueryAnswer::Disputes(query_job_disputes(state, job_id))),
        QueryMsg::GetUserDisputes { user } => Ok(QueryAnswer::Disputes(query_user_disputes(state, user.as_str()))),
        QueryMsg::GetBounty { bounty_id } => match query_bounty(state, bounty_id) {
            Ok(a) => Ok(QueryAnswer::Bounty(a)),
            Err(e) => Err(e),
        },
        QueryMsg::GetBounties { start_after, limit, category, status, poster } =>
            Ok(QueryAnswer::Bounties(query_bounties(state, start_after, limit, opt_as_str(&category), status, opt_as_str(&poster)))),
        QueryMsg::GetAllBounties { limit, category } =>
            Ok(QueryAnswer::Bounties(query_all_bounties(state, limit, opt_as_str(&category)))),
        QueryMsg::GetUserBounties { user, status } => Ok(QueryAnswer::Bounties(query_user_bounties(state, user.as_str(), status))),
        QueryMsg::GetBountySubmission { submission_id } => match query_bounty_submission(state, submission_id) {
            Ok(a) => Ok(QueryAnswer::BountySubmission(a)),
            Err(e) => Err(e),
        },
        QueryMsg::GetBountySubmissions { bounty_id, status } => match query_bounty_submissions(state, bounty_id, status) {
            Ok(a) => Ok(QueryAnswer::BountySubmissions(a)),
            Err(e) => Err(e),
        },
        QueryMsg::GetUserBountySubmissions { user, start_after, limit } =>
            match query_user_bounty_submissions(state, user.as_str(), start_after, limit) {
                Ok(a) => Ok(QueryAnswer::BountySubmissions(a)),
                Err(e) => Err(e),
            },
        QueryMsg::GetConfig {} => Ok(QueryAnswer::Config(query_config(state))),
        QueryMsg::GetSecurityMetrics {} => Ok(QueryAnswer::SecurityMetrics(query_security_metrics(state))),
        QueryMsg::GetAuditLogs { start_after, limit, action_filter } =>
            Ok(QueryAnswer::AuditLogs(query_audit_logs(state, start_after, limit, action_filter))),
        QueryMsg::IsAddressBlocked { address } => Ok(QueryAnswer::AddressBlocked(query_is_address_blocked(state, address.as_str()))),
        QueryMsg::GetRateLimitStatus { address } =>
            Ok(QueryAnswer::RateLimitStatus(query_rate_limit_status(state, address.as_str()))),
    }
}

} // verus!
