//! Properties of the contract as a whole, stated over the outcomes of its operations.
use vstd::prelude::*;
use crate::admin::{
    block_address_outcome, pause_contract_outcome, query_is_address_blocked_answer, unblock_address_outcome,
    unpause_contract_outcome, update_config_outcome,
};
use crate::msg::AddressBlockedResponse;
use crate::chain::{bank_view, Env, MessageInfo, Response};
use crate::contract::execute_outcome;
use crate::error::{ContractError, ErrorView, StdError};
use crate::escrow::{escrow_created, escrow_id_for, platform_fee_of, refund_escrow_outcome, release_escrow_outcome};
use crate::jobs::{accept_proposal_outcome, auto_release, complete_job_outcome, post_job_outcome, submit_rating_outcome};
use crate::escrow::payout_msgs;
use crate::msg::ExecuteMsg;
use crate::queries::query_job_answer;
use crate::msg::JobResponse;
use crate::security::{counted, rate_limit_after, rate_limited, RateLimitAction, MAX_PLATFORM_FEE_PERCENT};
use crate::state::{ContractState, DisputeStatus, JobStatus, RateLimit, RewardTier};
use crate::bounty::{cancel_bounty_outcome, percent_total, tiers_of};
use crate::msg::{MilestoneInput, RewardTierInput};

verus! {

/// A message that is refused leaves the whole state as it was.
pub proof fn law_refused_message_changes_nothing(
    pre: ContractState,
    post: ContractState,
    env: Env,
    info: MessageInfo,
    msg: ExecuteMsg,
    bundle_json: Seq<char>,
    storage_key: Seq<char>,
    cw20_hook_job: Result<u64, StdError>,
    r: Result<Response, ContractError>,
)
    requires
        execute_outcome(pre, post, env, info, msg, bundle_json, storage_key, cw20_hook_job, r),
        r is Err,
    ensures
        post == pre,
{
}

/// An escrow splits the payment into the amount kept for the freelancer and the platform fee:
/// the two add up to the payment, and the fee is the configured percentage of it, at most a tenth.
pub proof fn law_escrow_splits_payment(
    pre: ContractState,
    post: ContractState,
    now: u64,
    job_id: u64,
    payment: u128,
    token: Option<Seq<char>>,
    resp: Response,
)
    requires
        pre.wf(),
        escrow_created(pre, post, now, job_id, payment, token, resp),
    ensures
        ({
            let e = post.escrows@[escrow_id_for(job_id, now)];
            &&& e.amount + e.platform_fee == payment
            &&& e.platform_fee == platform_fee_of(payment, pre.config.platform_fee_percent)
            &&& e.platform_fee * 10 <= payment
        }),
{
    let pct = pre.config.platform_fee_percent;
    assert(payment * pct <= payment * 10) by (nonlinear_arith)
        requires
            pct <= 10,
    ;
}

/// Refunding a freshly created escrow sends its client back exactly what was paid into it.
pub proof fn law_refund_returns_payment(
    s0: ContractState,
    s1: ContractState,
    s2: ContractState,
    now: u64,
    job_id: u64,
    payment: u128,
    token: Option<Seq<char>>,
    created: Response,
    env: Env,
    info: MessageInfo,
    escrow_id: String,
    refunded: Response,
)
    requires
        s0.wf(),
        escrow_created(s0, s1, now, job_id, payment, token, created),
        escrow_id@ == escrow_id_for(job_id, now),
        refund_escrow_outcome(s1, s2, env, info, escrow_id, Ok(refunded)),
    ensures
        refunded.msgs() == seq![bank_view(s0.jobs@[job_id].poster@, "uxion"@, payment)],
{
    law_escrow_splits_payment(s0, s1, now, job_id, payment, token, created);
}

/// Releasing a freshly created escrow pays the freelancer the amount and the admin the fee, and
/// the two payments add up to what was paid into it.
pub proof fn law_release_pays_out_payment(
    s0: ContractState,
    s1: ContractState,
    s2: ContractState,
    now: u64,
    job_id: u64,
    payment: u128,
    token: Option<Seq<char>>,
    created: Response,
    env: Env,
    info: MessageInfo,
    escrow_id: String,
    released: Response,
)
    requires
        s0.wf(),
        escrow_created(s0, s1, now, job_id, payment, token, created),
        escrow_id@ == escrow_id_for(job_id, now),
        release_escrow_outcome(s1, s2, env, info, escrow_id, Ok(released)),
    ensures
        ({
            let fee = platform_fee_of(payment, s0.config.platform_fee_percent);
            let freelancer = s0.jobs@[job_id].assigned_freelancer->Some_0;
            &&& released.msgs() == seq![bank_view(freelancer@, "uxion"@, (payment - fee) as u128), bank_view(s0.config.admin@, "uxion"@, fee as u128)]
            &&& (payment - fee) + fee == payment
        }),
{
    law_escrow_splits_payment(s0, s1, now, job_id, payment, token, created);
}

/// An escrow under dispute is not released.
pub proof fn law_no_release_while_disputed(
    pre: ContractState,
    post: ContractState,
    env: Env,
    info: MessageInfo,
    escrow_id: String,
    r: Result<Response, ContractError>,
)
    requires
        pre.escrows@.contains_key(escrow_id@),
        pre.escrows@[escrow_id@].dispute_status == DisputeStatus::Raised
            || pre.escrows@[escrow_id@].dispute_status == DisputeStatus::UnderReview,
        release_escrow_outcome(pre, post, env, info, escrow_id, r),
    ensures
        r is Err,
        post == pre,
{
}

/// An escrow that was paid out is neither released nor refunded again. This covers the release
/// and refund operations only: resolving a dispute does not look at `released`, so a dispute
/// raised over a completed job can pay its escrow out a second time.
pub proof fn law_paid_out_escrow_is_final(
    pre: ContractState,
    post_release: ContractState,
    post_refund: ContractState,
    env: Env,
    info: MessageInfo,
    escrow_id: String,
    released: Result<Response, ContractError>,
    refunded: Result<Response, ContractError>,
)
    requires
        pre.escrows@.contains_key(escrow_id@),
        pre.escrows@[escrow_id@].released,
        release_escrow_outcome(pre, post_release, env, info, escrow_id, released),
        refund_escrow_outcome(pre, post_refund, env, info, escrow_id, refunded),
    ensures
        released is Err,
        refunded is Err,
{
}

/// Only the admin refunds an escrow.
pub proof fn law_only_admin_refunds(
    pre: ContractState,
    post: ContractState,
    env: Env,
    info: MessageInfo,
    escrow_id: String,
    r: Result<Response, ContractError>,
)
    requires
        info.sender@ != pre.config.admin@,
        refund_escrow_outcome(pre, post, env, info, escrow_id, r),
    ensures
        r is Err,
{
}

/// The platform fee can never be set above ten percent.
pub proof fn law_fee_capped(
    pre: ContractState,
    post: ContractState,
    env: Env,
    info: MessageInfo,
    admin: Option<String>,
    fee: u64,
    min_escrow_amount: Option<u128>,
    dispute_period_days: Option<u64>,
    max_job_duration_days: Option<u64>,
    r: Result<Response, ContractError>,
)
    requires
        fee > MAX_PLATFORM_FEE_PERCENT,
        update_config_outcome(pre, post, env, info, admin, Some(fee), min_escrow_amount, dispute_period_days, max_job_duration_days, r),
    ensures
        r is Err,
        post == pre,
{
}

/// A paused contract refuses the operations of its users.
pub proof fn law_paused_contract_refuses(
    pre: ContractState,
    post: ContractState,
    env: Env,
    info: MessageInfo,
    msg: ExecuteMsg,
    bundle_json: Seq<char>,
    storage_key: Seq<char>,
    cw20_hook_job: Result<u64, StdError>,
    r: Result<Response, ContractError>,
)
    requires
        pre.config.paused,
        user_operation(msg),
        execute_outcome(pre, post, env, info, msg, bundle_json, storage_key, cw20_hook_job, r),
    ensures
        r is Err,
        post == pre,
{
}

/// The operations of users, as opposed to the admin's and the deprecated ones.
pub open spec fn user_operation(msg: ExecuteMsg) -> bool {
    match msg {
        ExecuteMsg::PostJob { .. } | ExecuteMsg::EditJob { .. } | ExecuteMsg::DeleteJob { .. } | ExecuteMsg::CancelJob { .. }
        | ExecuteMsg::SubmitProposal { .. } | ExecuteMsg::EditProposal { .. } | ExecuteMsg::WithdrawProposal { .. }
        | ExecuteMsg::AcceptProposal { .. } | ExecuteMsg::CreateEscrowNative { .. } | ExecuteMsg::ReleaseEscrow { .. }
        | ExecuteMsg::CompleteJob { .. } | ExecuteMsg::SubmitRating { .. } | ExecuteMsg::RaiseDispute { .. }
        | ExecuteMsg::UpdateUserProfile { .. } | ExecuteMsg::CreateBounty { .. } | ExecuteMsg::EditBounty { .. }
        | ExecuteMsg::CancelBounty { .. } | ExecuteMsg::SubmitToBounty { .. } | ExecuteMsg::EditBountySubmission { .. }
        | ExecuteMsg::WithdrawBountySubmission { .. } | ExecuteMsg::ReviewBountySubmission { .. }
        | ExecuteMsg::SelectBountyWinners { .. } | ExecuteMsg::CreateBountyEscrow { .. }
        | ExecuteMsg::ReleaseBountyRewards { .. } => true,
        _ => false,
    }
}

/// An action that the daily limit allows leaves its counter at or below the limit.
pub proof fn law_daily_limit_never_exceeded(current: Option<RateLimit>, now: u64, action: RateLimitAction)
    requires
        !rate_limited(current, now, action),
    ensures
        counted(rate_limit_after(current, now, action), action) matches Some((count, max)) ==> count <= max,
{
}

/// A job just posted is read back as posted: by the sender, with its budget, open, unassigned.
pub proof fn law_posted_job_reads_back(
    pre: ContractState,
    post: ContractState,
    env: Env,
    info: MessageInfo,
    title: Seq<char>,
    description: Seq<char>,
    budget: u128,
    category: Seq<char>,
    skills_required: Seq<String>,
    duration_days: u64,
    milestones: Option<Vec<MilestoneInput>>,
    bundle_json: Seq<char>,
    resp: Response,
    answer: Result<JobResponse, StdError>,
)
    requires
        post_job_outcome(pre, post, env, info, title, description, budget, category, skills_required, duration_days, milestones, bundle_json, Ok(resp)),
        query_job_answer(&post, pre.next_job_id, answer),
    ensures
        answer matches Ok(a) && {
            &&& a.job.id == pre.next_job_id
            &&& a.job.poster == info.sender
            &&& a.job.budget == budget
            &&& a.job.duration_days == duration_days
            &&& a.job.status == JobStatus::Open
            &&& a.job.assigned_freelancer is None
        },
{
}

/// Accepting a proposal puts its job in progress with the proposal's author assigned, who is
/// never the job's own poster.
pub proof fn law_accept_assigns_freelancer(
    pre: ContractState,
    post: ContractState,
    env: Env,
    info: MessageInfo,
    job_id: u64,
    proposal_id: u64,
    resp: Response,
)
    requires
        accept_proposal_outcome(pre, post, env, info, job_id, proposal_id, Ok(resp)),
    ensures
        post.jobs@[job_id].status == JobStatus::InProgress,
        post.jobs@[job_id].assigned_freelancer == Some(pre.proposals@[proposal_id].freelancer),
        pre.jobs@[job_id].poster@ == info.sender@,
        post.jobs@[job_id].assigned_freelancer->Some_0@ != post.jobs@[job_id].poster@,
{
}

/// A rating outside one to five is refused, and nobody rates the same job twice.
pub proof fn law_ratings_once_and_in_range(
    pre: ContractState,
    post: ContractState,
    env: Env,
    info: MessageInfo,
    job_id: u64,
    rating: u8,
    comment: String,
    r: Result<Response, ContractError>,
)
    requires
        rating < 1 || rating > 5 || pre.ratings@.contains_key(crate::jobs::rating_key(job_id, info.sender@)),
        submit_rating_outcome(pre, post, env, info, job_id, rating, comment, r),
    ensures
        r is Err,
        post == pre,
{
}

/// A blocked address reads back as blocked, and an unblocked one as not blocked.
pub proof fn law_block_reads_back(
    pre: ContractState,
    post: ContractState,
    env: Env,
    info: MessageInfo,
    address: String,
    reason: String,
    blocked: Response,
    answer: AddressBlockedResponse,
)
    requires
        block_address_outcome(pre, post, env, info, address, reason, Ok(blocked)),
        query_is_address_blocked_answer(&post, address@, answer),
    ensures
        answer.is_blocked,
{
}

/// An unblocked address reads back as not blocked.
pub proof fn law_unblock_reads_back(
    pre: ContractState,
    post: ContractState,
    env: Env,
    info: MessageInfo,
    address: String,
    unblocked: Response,
    answer: AddressBlockedResponse,
)
    requires
        unblock_address_outcome(pre, post, env, info, address, Ok(unblocked)),
        query_is_address_blocked_answer(&post, address@, answer),
    ensures
        !answer.is_blocked,
{
}

/// Pausing and then unpausing gives back the state from before the pause, with the contract running.
pub proof fn law_unpause_undoes_pause(
    s0: ContractState,
    s1: ContractState,
    s2: ContractState,
    env: Env,
    info: MessageInfo,
    paused: Response,
    unpaused: Response,
)
    requires
        !s0.config.paused,
        pause_contract_outcome(s0, s1, env, info, Ok(paused)),
        unpause_contract_outcome(s1, s2, env, info, Ok(unpaused)),
    ensures
        s1.config.paused,
        s2 == s0,
{
}

/// The sum of the amounts of a list of reward tiers.
pub open spec fn tier_amounts_total(tiers: Seq<RewardTier>) -> nat
    decreases tiers.len(),
{
    if tiers.len() == 0 {
        0
    } else {
        tier_amounts_total(tiers.drop_last()) + tiers.last().amount as nat
    }
}

proof fn lemma_tier_amounts_scaled(total: u128, inputs: Seq<RewardTierInput>)
    ensures
        tier_amounts_total(tiers_of(total, inputs)) * 100 <= total * percent_total(inputs),
    decreases inputs.len(),
{
    if inputs.len() > 0 {
        let init = inputs.drop_last();
        lemma_tier_amounts_scaled(total, init);
        assert(tiers_of(total, inputs).drop_last() =~= tiers_of(total, init));
        let p = inputs.last().percentage as nat;
        let t = total as nat;
        let a = (t * p) / 100;
        assert(a * 100 <= t * p) by (nonlinear_arith)
            requires
                a == (t * p) / 100,
        ;
        assert(t * percent_total(init) + t * p == t * (percent_total(init) + p)) by (nonlinear_arith);
    }
}

/// A bounty never promises more than its reward: the amounts of the reward tiers it is
/// created with add up to at most its total reward.
pub proof fn law_bounty_tiers_within_reward(
    pre: ContractState,
    post: ContractState,
    env: Env,
    info: MessageInfo,
    msg: ExecuteMsg,
    bundle_json: Seq<char>,
    storage_key: Seq<char>,
    cw20_hook_job: Result<u64, StdError>,
    r: Result<Response, ContractError>,
)
    requires
        msg is CreateBounty,
        execute_outcome(pre, post, env, info, msg, bundle_json, storage_key, cw20_hook_job, r),
        r is Ok,
    ensures
        tier_amounts_total(post.bounties@[pre.next_bounty_id].reward_distribution@) <= msg->CreateBounty_total_reward,
{
    let total = msg->CreateBounty_total_reward;
    let inputs = msg->CreateBounty_reward_distribution@;
    lemma_tier_amounts_scaled(total, inputs);
    assert(total * percent_total(inputs) <= total * 100) by (nonlinear_arith)
        requires
            percent_total(inputs) <= 100,
    ;
}

/// Once the admin blocks an address, every message from it is refused and changes
/// nothing, unless the address is the admin's own.
pub proof fn law_blocked_address_is_refused(
    pre: ContractState,
    mid: ContractState,
    post: ContractState,
    env: Env,
    admin_info: MessageInfo,
    address: String,
    reason: String,
    blocked: Response,
    later: Env,
    info: MessageInfo,
    msg: ExecuteMsg,
    bundle_json: Seq<char>,
    storage_key: Seq<char>,
    cw20_hook_job: Result<u64, StdError>,
    r: Result<Response, ContractError>,
)
    requires
        block_address_outcome(pre, mid, env, admin_info, address, reason, Ok(blocked)),
        info.sender@ == address@,
        address@ != mid.config.admin@,
        execute_outcome(mid, post, later, info, msg, bundle_json, storage_key, cw20_hook_job, r),
    ensures
        r matches Err(e) && e@ == ErrorView::AccessDenied,
        post == mid,
{
}

/// Completing a job releases its funded, undisputed escrow: the freelancer is paid the
/// escrow's amount and the admin its fee, and the escrow is marked released, so that it is
/// not paid out again.
pub proof fn law_completion_releases_escrow(
    pre: ContractState,
    post: ContractState,
    env: Env,
    info: MessageInfo,
    job_id: u64,
    resp: Response,
)
    requires
        complete_job_outcome(pre, post, env, info, job_id, Ok(resp)),
        auto_release(pre, pre.jobs@[job_id]),
    ensures
        ({
            let eid = pre.jobs@[job_id].escrow_id->Some_0@;
            let e = pre.escrows@[eid];
            &&& resp.msgs() == payout_msgs(e, pre.config.admin@)
            &&& post.escrows@[eid].released
            &&& post.escrows@[eid].amount == e.amount
            &&& post.jobs@[job_id].status == JobStatus::Completed
        }),
{
}

/// Cancelling a bounty pays its whole reward back to its poster, and the bounty stays cancelled.
pub proof fn law_cancelled_bounty_refunds_reward(
    pre: ContractState,
    post: ContractState,
    env: Env,
    info: MessageInfo,
    bounty_id: u64,
    resp: Response,
)
    requires
        cancel_bounty_outcome(pre, post, env, info, bounty_id, Ok(resp)),
    ensures
        ({
            let b = pre.bounties@[bounty_id];
            &&& info.sender@ == b.poster@
            &&& resp.msgs() == seq![bank_view(b.poster@, "uusdc"@, b.total_reward)]
            &&& post.bounties@[bounty_id].status == crate::state::BountyStatus::Cancelled
        }),
{
}

/// Sanitizing a text twice gives what sanitizing it once gives.
pub proof fn law_sanitize_idempotent(s: Seq<char>)
    ensures
        crate::security::sanitized_chars(crate::security::sanitized_chars(s)) == crate::security::sanitized_chars(s),
{
    crate::security::lemma_sanitize_idempotent(s);
}

/// A user who has not posted today may post five jobs at one time and is refused the sixth,
/// with the posting-jobs error and its limit of five; the fifth post leaves the count at five.
pub proof fn law_five_posts_a_day(now: u64)
    ensures
        ({
            let a = RateLimitAction::PostJob;
            let r1 = rate_limit_after(None, now, a);
            let r2 = rate_limit_after(Some(r1), now, a);
            let r3 = rate_limit_after(Some(r2), now, a);
            let r4 = rate_limit_after(Some(r3), now, a);
            let r5 = rate_limit_after(Some(r4), now, a);
            &&& !rate_limited(None, now, a)
            &&& !rate_limited(Some(r1), now, a)
            &&& !rate_limited(Some(r2), now, a)
            &&& !rate_limited(Some(r3), now, a)
            &&& !rate_limited(Some(r4), now, a)
            &&& rate_limited(Some(r5), now, a)
            &&& r5.daily_jobs == 5
            &&& crate::security::rate_limit_error(a) == ("posting jobs"@, 5u64)
        }),
{
}

/// Whether reward tiers are numbered 1, 2, ... in the order they are listed, as every bounty's
/// tiers are when it is created.
pub open spec fn tiers_numbered_in_order(tiers: Seq<RewardTier>) -> bool {
    forall|i: int| 0 <= i < tiers.len() ==> #[trigger] tiers[i].position == i + 1
}

/// A new bounty lists one reward tier per tier asked for, in the order asked: the tier at
/// place `i` has position `i + 1`, the asked percentage, and that percentage of the total
/// reward, rounded down.
pub proof fn law_created_bounty_tiers(
    pre: ContractState,
    post: ContractState,
    env: Env,
    info: MessageInfo,
    msg: ExecuteMsg,
    bundle_json: Seq<char>,
    storage_key: Seq<char>,
    cw20_hook_job: Result<u64, StdError>,
    r: Result<Response, ContractError>,
)
    requires
        msg is CreateBounty,
        execute_outcome(pre, post, env, info, msg, bundle_json, storage_key, cw20_hook_job, r),
        r is Ok,
        msg->CreateBounty_reward_distribution@.len() <= usize::MAX,
    ensures
        ({
            let total = msg->CreateBounty_total_reward;
            let inputs = msg->CreateBounty_reward_distribution@;
            let tiers = post.bounties@[pre.next_bounty_id].reward_distribution@;
            &&& tiers.len() == inputs.len()
            &&& tiers_numbered_in_order(tiers)
            &&& forall|i: int| 0 <= i < tiers.len() ==> {
                &&& (#[trigger] tiers[i]).percentage == inputs[i].percentage
                &&& tiers[i].amount == (total * inputs[i].percentage) / 100
            }
        }),
{
    let total = msg->CreateBounty_total_reward;
    let inputs = msg->CreateBounty_reward_distribution@;
    let tiers = post.bounties@[pre.next_bounty_id].reward_distribution@;
    assert(tiers == tiers_of(total, inputs));
    lemma_each_percentage_within_total(inputs);
    assert forall|i: int| 0 <= i < tiers.len() implies {
        &&& (#[trigger] tiers[i]).percentage == inputs[i].percentage
        &&& tiers[i].amount == (total * inputs[i].percentage) / 100
    } by {
        let p = inputs[i].percentage as nat;
        let t = total as nat;
        assert((t * p) / 100 <= t) by (nonlinear_arith)
            requires
                p <= 100,
        ;
    }
}

/// Each percentage of a distribution is at most their sum.
proof fn lemma_each_percentage_within_total(inputs: Seq<RewardTierInput>)
    ensures
        forall|i: int| 0 <= i < inputs.len() ==> (#[trigger] inputs[i]).percentage <= percent_total(inputs),
    decreases inputs.len(),
{
    if inputs.len() > 0 {
        let init = inputs.drop_last();
        lemma_each_percentage_within_total(init);
        assert forall|i: int| 0 <= i < inputs.len() implies (#[trigger] inputs[i]).percentage <= percent_total(inputs) by {
            if i < inputs.len() - 1 {
                assert(init[i] == inputs[i]);
            }
        }
    }
}

/// With tiers numbered in order, the reward of a position is the amount of the tier holding
/// that position.
proof fn lemma_position_reward_is_tier(b: crate::state::Bounty, k: int)
    requires
        tiers_numbered_in_order(b.reward_distribution@),
        0 <= k < b.reward_distribution@.len(),
    ensures
        crate::bounty::position_reward(b, b.reward_distribution@[k].position) == b.reward_distribution@[k].amount,
{
}

/// The payments made for the first `n` selections, when each of them names a tier's position
/// whose amount is not zero: one payment per selection, to its submitter, of that tier's amount.
proof fn lemma_winner_msgs(pre: ContractState, b: crate::state::Bounty, sels: Seq<crate::msg::WinnerSelection>)
    requires
        tiers_numbered_in_order(b.reward_distribution@),
        forall|j: int| 0 <= j < sels.len() ==> 1 <= (#[trigger] sels[j]).position <= b.reward_distribution@.len()
            && b.reward_distribution@[sels[j].position - 1].amount > 0,
    ensures
        crate::bounty::winner_msgs(pre, b, sels).len() == sels.len(),
        forall|j: int, k: int| 0 <= j < sels.len() && 0 <= k < b.reward_distribution@.len()
            && #[trigger] b.reward_distribution@[k].position == #[trigger] sels[j].position
            ==> crate::bounty::winner_msgs(pre, b, sels)[j] == bank_view(
                pre.bounty_submissions@[sels[j].submission_id].submitter@,
                "uusdc"@,
                b.reward_distribution@[k].amount,
            ),
    decreases sels.len(),
{
    if sels.len() > 0 {
        let init = sels.drop_last();
        assert forall|j: int| 0 <= j < init.len() implies 1 <= (#[trigger] init[j]).position <= b.reward_distribution@.len()
            && b.reward_distribution@[init[j].position - 1].amount > 0 by {
            assert(init[j] == sels[j]);
        }
        lemma_winner_msgs(pre, b, init);
        let last = sels.last();
        assert(b.reward_distribution@[last.position - 1].position == last.position);
        lemma_position_reward_is_tier(b, last.position - 1);
        assert forall|j: int, k: int| 0 <= j < sels.len() && 0 <= k < b.reward_distribution@.len()
            && #[trigger] b.reward_distribution@[k].position == #[trigger] sels[j].position
            implies crate::bounty::winner_msgs(pre, b, sels)[j] == bank_view(
                pre.bounty_submissions@[sels[j].submission_id].submitter@,
                "uusdc"@,
                b.reward_distribution@[k].amount,
            ) by {
            if j < sels.len() - 1 {
                assert(init[j] == sels[j]);
            } else {
                assert(k == last.position - 1);
            }
        }
    }
}

/// Selecting winners pays each winner the reward of the tier holding its position: when every
/// selection names the position of a tier with a non-zero amount, the payments go one per
/// selection, in order, to the selected submission's submitter, in `uusdc`, of exactly the
/// amount of the tier whose position is the one selected.
pub proof fn law_winner_paid_its_tier(
    pre: ContractState,
    post: ContractState,
    env: Env,
    info: MessageInfo,
    bounty_id: u64,
    winner_selections: Vec<crate::msg::WinnerSelection>,
    resp: Response,
)
    requires
        crate::bounty::select_bounty_winners_outcome(pre, post, env, info, bounty_id, winner_selections, Ok(resp)),
        tiers_numbered_in_order(pre.bounties@[bounty_id].reward_distribution@),
        forall|j: int| 0 <= j < winner_selections@.len() ==> {
            let tiers = pre.bounties@[bounty_id].reward_distribution@;
            &&& 1 <= (#[trigger] winner_selections@[j]).position <= tiers.len()
            &&& tiers[winner_selections@[j].position - 1].amount > 0
        },
    ensures
        resp.msgs().len() == winner_selections@.len(),
        forall|j: int, k: int|
            0 <= j < winner_selections@.len() && 0 <= k < pre.bounties@[bounty_id].reward_distribution@.len()
                && #[trigger] pre.bounties@[bounty_id].reward_distribution@[k].position == #[trigger] winner_selections@[j].position
                ==> resp.msgs()[j] == bank_view(
                    pre.bounty_submissions@[winner_selections@[j].submission_id].submitter@,
                    "uusdc"@,
                    pre.bounties@[bounty_id].reward_distribution@[k].amount,
                ),
{
    let b = pre.bounties@[bounty_id];
    lemma_winner_msgs(pre, b, winner_selections@);
}

/// The payments made when releasing the rewards of the first `n` winners, when each has a stored
/// submission and a tier: one payment per winner, the winner at place `j` getting the amount of
/// the tier at the same place.
proof fn lemma_reward_msgs(pre: ContractState, b: crate::state::Bounty, n: nat)
    requires
        n <= b.selected_winners@.len(),
        n <= b.reward_distribution@.len(),
        forall|j: int| 0 <= j < n ==> pre.bounty_submissions@.contains_key(#[trigger] b.selected_winners@[j]),
    ensures
        crate::bounty::reward_msgs(pre, b, n).len() == n,
        forall|j: int| 0 <= j < n ==> #[trigger] crate::bounty::reward_msgs(pre, b, n)[j] == bank_view(
            pre.bounty_submissions@[b.selected_winners@[j]].submitter@,
            "uusdc"@,
            b.reward_distribution@[j].amount,
        ),
    decreases n,
{
    if n > 0 {
        lemma_reward_msgs(pre, b, (n - 1) as nat);
        let sid = b.selected_winners@[n - 1];
        assert(pre.bounty_submissions@.contains_key(sid));
    }
}

/// Releasing a bounty's rewards pays the winners in the order they were selected, tier by
/// tier: when every winner's submission is stored and there are no more winners than tiers, the
/// winner selected `j`-th (from 0) is paid, in `uusdc`, the amount of the tier holding
/// position `j + 1`, and no one else is paid.
pub proof fn law_rewards_released_tier_by_tier(
    pre: ContractState,
    post: ContractState,
    env: Env,
    info: MessageInfo,
    bounty_id: u64,
    resp: Response,
)
    requires
        crate::bounty::release_bounty_rewards_outcome(pre, post, env, info, bounty_id, Ok(resp)),
        tiers_numbered_in_order(pre.bounties@[bounty_id].reward_distribution@),
        pre.bounties@[bounty_id].selected_winners@.len() <= pre.bounties@[bounty_id].reward_distribution@.len(),
        forall|j: int| 0 <= j < pre.bounties@[bounty_id].selected_winners@.len()
            ==> pre.bounty_submissions@.contains_key(#[trigger] pre.bounties@[bounty_id].selected_winners@[j]),
    ensures
        resp.msgs().len() == pre.bounties@[bounty_id].selected_winners@.len(),
        forall|j: int, k: int|
            0 <= j < pre.bounties@[bounty_id].selected_winners@.len() && 0 <= k < pre.bounties@[bounty_id].reward_distribution@.len()
                && #[trigger] pre.bounties@[bounty_id].reward_distribution@[k].position == j + 1
                ==> #[trigger] resp.msgs()[j] == bank_view(
                    pre.bounty_submissions@[pre.bounties@[bounty_id].selected_winners@[j]].submitter@,
                    "uusdc"@,
                    pre.bounties@[bounty_id].reward_distribution@[k].amount,
                ),
{
    let b = pre.bounties@[bounty_id];
    lemma_reward_msgs(pre, b, b.selected_winners@.len());
}

/// The job categories that have a number of their own, lowercased.
pub open spec fn named_job_categories() -> Seq<Seq<char>> {
    seq!["web development"@, "mobile development"@, "design"@, "writing"@, "marketing"@]
}

/// Each named job category has its own number, the place it has in the list plus one.
proof fn lemma_job_category_numbers()
    ensures
        forall|a: int| 0 <= a < 5 ==> #[trigger] crate::jobs::job_category_id(named_job_categories()[a]) == a + 1,
{
    reveal_strlit("web development");
    reveal_strlit("mobile development");
    reveal_strlit("design");
    reveal_strlit("writing");
    reveal_strlit("marketing");
    let n = named_job_categories();
    assert("web development"@.len() == 15);
    assert("mobile development"@.len() == 18);
    assert("design"@.len() == 6);
    assert("writing"@.len() == 7);
    assert("marketing"@.len() == 9);
    assert(crate::jobs::job_category_id(n[0]) == 1);
    assert(crate::jobs::job_category_id(n[1]) == 2);
    assert(crate::jobs::job_category_id(n[2]) == 3);
    assert(crate::jobs::job_category_id(n[3]) == 4);
    assert(crate::jobs::job_category_id(n[4]) == 5);
}

/// A category-filtered job listing keeps apart the named categories: a job posted under one
/// named category passes the filter for that category and fails the filter for any other.
pub proof fn law_job_listed_only_under_its_category(
    pre: ContractState,
    post: ContractState,
    env: Env,
    info: MessageInfo,
    msg: ExecuteMsg,
    bundle_json: Seq<char>,
    storage_key: Seq<char>,
    cw20_hook_job: Result<u64, StdError>,
    r: Result<Response, ContractError>,
    filter: Seq<char>,
    a: int,
    b: int,
)
    requires
        msg is PostJob,
        execute_outcome(pre, post, env, info, msg, bundle_json, storage_key, cw20_hook_job, r),
        r is Ok,
        0 <= a < 5,
        0 <= b < 5,
        crate::text::lowercase_chars(msg->PostJob_category@) == named_job_categories()[a],
        crate::text::lowercase_chars(filter) == named_job_categories()[b],
    ensures
        crate::queries::job_filter(post.jobs@[pre.next_job_id], Some(filter), None, None) <==> a == b,
{
    lemma_job_category_numbers();
    assert(crate::jobs::job_category_id(named_job_categories()[a]) == a + 1);
    assert(crate::jobs::job_category_id(named_job_categories()[b]) == b + 1);
}

/// The bounty categories that have a number of their own, lowercased, each with its alias.
pub open spec fn named_bounty_categories() -> Seq<Seq<Seq<char>>> {
    seq![
        seq!["web development"@, "web"@],
        seq!["mobile development"@, "mobile"@],
        seq!["design"@, "ui/ux"@],
        seq!["writing"@, "content writing"@],
        seq!["marketing"@, "digital marketing"@],
        seq!["blockchain"@, "smart contracts"@],
        seq!["data science"@, "machine learning"@],
        seq!["devops"@, "infrastructure"@],
        seq!["testing"@, "qa"@],
        seq!["video editing"@, "video production"@],
    ]
}

/// Each named bounty category and its alias share a number of their own, the place the
/// category has in the list plus one.
proof fn lemma_bounty_category_numbers()
    ensures
        forall|a: int, x: int| 0 <= a < 10 && 0 <= x < 2
            ==> #[trigger] crate::helpers::category_id_of(named_bounty_categories()[a][x]) == a + 1,
{
    reveal_strlit("web development");
    reveal_strlit("web");
    reveal_strlit("mobile development");
    reveal_strlit("mobile");
    reveal_strlit("design");
    reveal_strlit("ui/ux");
    reveal_strlit("writing");
    reveal_strlit("content writing");
    reveal_strlit("marketing");
    reveal_strlit("digital marketing");
    reveal_strlit("blockchain");
    reveal_strlit("smart contracts");
    reveal_strlit("data science");
    reveal_strlit("machine learning");
    reveal_strlit("devops");
    reveal_strlit("infrastructure");
    reveal_strlit("testing");
    reveal_strlit("qa");
    reveal_strlit("video editing");
    reveal_strlit("video production");
    let n = named_bounty_categories();
    assert("web development"@.len() == 15);
    assert("web"@.len() == 3);
    assert("mobile development"@.len() == 18);
    assert("mobile"@.len() == 6);
    assert("design"@.len() == 6);
    assert("ui/ux"@.len() == 5);
    assert("writing"@.len() == 7);
    assert("content writing"@.len() == 15);
    assert("marketing"@.len() == 9);
    assert("digital marketing"@.len() == 17);
    assert("blockchain"@.len() == 10);
    assert("smart contracts"@.len() == 15);
    assert("data science"@.len() == 12);
    assert("machine learning"@.len() == 16);
    assert("devops"@.len() == 6);
    assert("infrastructure"@.len() == 14);
    assert("testing"@.len() == 7);
    assert("qa"@.len() == 2);
    assert("video editing"@.len() == 13);
    assert("video production"@.len() == 16);
    assert("web development"@[0] == 'w');
    assert("content writing"@[0] == 'c');
    assert("smart contracts"@[0] == 's');
    assert("mobile"@[0] == 'm');
    assert("design"@[0] == 'd');
    assert("design"@[2] == 's');
    assert("devops"@[0] == 'd');
    assert("devops"@[2] == 'v');
    assert("writing"@[0] == 'w');
    assert("testing"@[0] == 't');
    assert("machine learning"@[0] == 'm');
    assert("video production"@[0] == 'v');
    assert forall|a: int, x: int| 0 <= a < 10 && 0 <= x < 2
        implies #[trigger] crate::helpers::category_id_of(n[a][x]) == a + 1 by {
        if a == 0 {
        } else if a == 1 {
        } else if a == 2 {
        } else if a == 3 {
        } else if a == 4 {
        } else if a == 5 {
        } else if a == 6 {
        } else if a == 7 {
        } else if a == 8 {
        } else {
        }
    }
}

/// A category-filtered bounty listing keeps apart the named categories: a bounty created under
/// a named category (or its alias) passes the filter for that category and its alias, and fails
/// the filter for any other named category.
pub proof fn law_bounty_listed_only_under_its_category(
    pre: ContractState,
    post: ContractState,
    env: Env,
    info: MessageInfo,
    msg: ExecuteMsg,
    bundle_json: Seq<char>,
    storage_key: Seq<char>,
    cw20_hook_job: Result<u64, StdError>,
    r: Result<Response, ContractError>,
    filter: Seq<char>,
    a: int,
    x: int,
    b: int,
    y: int,
)
    requires
        msg is CreateBounty,
        execute_outcome(pre, post, env, info, msg, bundle_json, storage_key, cw20_hook_job, r),
        r is Ok,
        0 <= a < 10,
        0 <= b < 10,
        0 <= x < 2,
        0 <= y < 2,
        crate::text::lowercase_chars(msg->CreateBounty_category@) == named_bounty_categories()[a][x],
        crate::text::lowercase_chars(filter) == named_bounty_categories()[b][y],
    ensures
        crate::queries::bounty_filter(post.bounties@[pre.next_bounty_id], Some(filter), None, None) <==> a == b,
{
    lemma_bounty_category_numbers();
    assert(crate::helpers::category_id_of(named_bounty_categories()[a][x]) == a + 1);
    assert(crate::helpers::category_id_of(named_bounty_categories()[b][y]) == b + 1);
}

} // verus!

