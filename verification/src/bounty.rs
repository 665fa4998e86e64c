//! Bounties: a reward pool that a poster shares among the best submissions.
use vstd::prelude::*;
use std::collections::HashMap;
use crate::chain::{days_after, seconds, seconds_of, Env, MessageInfo, Response};
use crate::contract_helpers::{count_message, length_message, length_ok, response_attrs};
use crate::error::{invalid_input, overflow, ContractError, ErrorView, OverflowError, OverflowOperation, StdErrorView};
use crate::hash_utils::{content_hash_chars, content_hash_of, content_hash_parts, ContentHash};
use crate::helpers::{
    category_id_of, difficulty_of, estimated_hours_of, reward_range_of, skill_id_of, valid_job_description,
    valid_job_title, MIN_PAID_BUDGET,
};
use crate::jobs::{limits_after, security_refusal};
use crate::msg::{RewardTierInput, WinnerSelection};
use crate::security::{next_rate_limit, text_inputs_refusal, RateLimitAction};
use crate::state::{Bounty, BountyStatus, BountySubmission, BountySubmissionStatus, ContractState, DisputeStatus, EscrowState, RewardTier};
use crate::text::{contains_chars, decimal_chars, ends_with_chars, lowercase_chars, u128_to_string, u64_to_string};

verus! {

broadcast use vstd::std_specs::hash::group_hash_axioms;

/// The kind of a deliverable, from its lowercased link: 2 code, 3 design, 4 video, 1 document, 5 other.
pub open spec fn submission_type_of(lower: Seq<char>) -> u8 {
    if contains_chars(lower, "github.com"@) || contains_chars(lower, "gitlab.com"@) || ends_with_chars(lower, ".git"@) {
        2
    } else if contains_chars(lower, "figma.com"@) || contains_chars(lower, "dribbble.com"@) || contains_chars(lower, "behance.net"@) {
        3
    } else if contains_chars(lower, "youtube.com"@) || contains_chars(lower, "vimeo.com"@) || ends_with_chars(lower, ".mp4"@)
        || ends_with_chars(lower, ".mov"@) {
        4
    } else if ends_with_chars(lower, ".pdf"@) || ends_with_chars(lower, ".doc"@) || ends_with_chars(lower, ".docx"@) {
        1
    } else {
        5
    }
}

/// Classifies a deliverable by its link: code, design, video, document or other.
pub fn determine_submission_type(url: &str) -> (r: u8)
    ensures
        r == submission_type_of(lowercase_chars(url@)),
{
    let lower = crate::text::to_lowercase(url);
    let l = lower.as_str();
    if crate::text::str_contains(l, "github.com") || crate::text::str_contains(l, "gitlab.com") || crate::text::str_ends_with(l, ".git") {
        2
    } else if crate::text::str_contains(l, "figma.com") || crate::text::str_contains(l, "dribbble.com") || crate::text::str_contains(
        l,
        "behance.net",
    ) {
        3
    } else if crate::text::str_contains(l, "youtube.com") || crate::text::str_contains(l, "vimeo.com") || crate::text::str_ends_with(l, ".mp4")
        || crate::text::str_ends_with(l, ".mov") {
        4
    } else if crate::text::str_ends_with(l, ".pdf") || crate::text::str_ends_with(l, ".doc") || crate::text::str_ends_with(l, ".docx") {
        1
    } else {
        5
    }
}

/// The ids listed under a small key, or none.
pub open spec fn ids_at(m: Map<u8, Vec<u64>>, key: u8) -> Seq<u64> {
    if m.contains_key(key) {
        m[key]@
    } else {
        Seq::empty()
    }
}

/// `n` copies of `id`.
pub open spec fn copies(id: u64, n: nat) -> Seq<u64> {
    Seq::new(n, |i: int| id)
}

/// The test that a key is `key`.
pub open spec fn is_key(key: u8) -> spec_fn(u8) -> bool {
    |k: u8| k == key
}

/// How often `key` occurs among `keys`.
pub open spec fn occurrences(keys: Seq<u8>, key: u8) -> nat {
    keys.filter(is_key(key)).len()
}

/// An index after `id` was listed once under `key`.
pub open spec fn listed_once(pre: Map<u8, Vec<u64>>, post: Map<u8, Vec<u64>>, key: u8, id: u64) -> bool {
    &&& post.dom() == pre.dom().insert(key)
    &&& forall|k: u8| #[trigger] post.contains_key(k) && k != key ==> post[k] == pre[k]
    &&& ids_at(post, key) == ids_at(pre, key).push(id)
}

/// An index after `id` was listed under each key of `keys`, once per occurrence.
pub open spec fn listed_under_each(pre: Map<u8, Vec<u64>>, post: Map<u8, Vec<u64>>, keys: Seq<u8>, id: u64) -> bool {
    &&& forall|k: u8| #[trigger] post.contains_key(k) <==> pre.contains_key(k) || keys.contains(k)
    &&& forall|k: u8| #[trigger] ids_at(post, k) == ids_at(pre, k) + copies(id, occurrences(keys, k))
}

/// Lists `id` once more under `key`.
fn push_index(index: &mut HashMap<u8, Vec<u64>>, key: u8, id: u64)
    ensures
        listed_once(old(index)@, final(index)@, key, id),
{
    let mut list = match index.get(&key) {
        Some(l) => crate::state::copy_vec(l),
        None => Vec::new(),
    };
    list.push(id);
    let ghost pre = index@;
    index.insert(key, list);
    assert(index@.dom() =~= pre.dom().insert(key));
}

/// The search indexes after `b` was listed in them.
pub open spec fn indexed(pre: ContractState, post: ContractState, b: Bounty) -> bool {
    &&& post == (ContractState {
        bounties_by_category: post.bounties_by_category,
        bounties_by_reward_range: post.bounties_by_reward_range,
        bounties_by_skill: post.bounties_by_skill,
        bounties_by_difficulty: post.bounties_by_difficulty,
        active_bounties: post.active_bounties,
        featured_bounties: post.featured_bounties,
        ..pre
    })
    &&& listed_once(pre.bounties_by_category@, post.bounties_by_category@, b.category_id, b.id)
    &&& listed_once(pre.bounties_by_reward_range@, post.bounties_by_reward_range@, b.reward_range, b.id)
    &&& listed_under_each(pre.bounties_by_skill@, post.bounties_by_skill@, b.skill_tags@, b.id)
    &&& listed_once(pre.bounties_by_difficulty@, post.bounties_by_difficulty@, b.difficulty_level, b.id)
    &&& post.active_bounties@ == (if b.status == BountyStatus::Open {
        pre.active_bounties@.insert(b.id, true)
    } else {
        pre.active_bounties@
    })
    &&& post.featured_bounties@ == (if b.is_featured {
        pre.featured_bounties@.insert(b.id, true)
    } else {
        pre.featured_bounties@
    })
}

proof fn lemma_occurrences_push(keys: Seq<u8>, x: u8, k: u8)
    ensures
        occurrences(keys.push(x), k) == occurrences(keys, k) + (if x == k { 1nat } else { 0nat }),
{
    keys.lemma_filter_push(x, is_key(k));
}

/// Lists a bounty in the search indexes: by category, reward range, each skill, difficulty,
/// and among the active and featured bounties when it is so.
pub fn update_bounty_search_indexes(state: &mut ContractState, bounty: &Bounty)
    requires
        old(state).wf(),
    ensures
        indexed(*old(state), *final(state), *bounty),
        final(state).wf(),
{
    push_index(&mut state.bounties_by_category, bounty.category_id, bounty.id);
    push_index(&mut state.bounties_by_reward_range, bounty.reward_range, bounty.id);
    let ghost pre_skill = state.bounties_by_skill@;
    let ghost mid = *state;
    let mut i: usize = 0;
    while i < bounty.skill_tags.len()
        invariant
            i <= bounty.skill_tags@.len(),
            *state == (ContractState { bounties_by_skill: state.bounties_by_skill, ..mid }),
            mid.bounties_by_skill@ == pre_skill,
            forall|k: u8| #[trigger] state.bounties_by_skill@.contains_key(k) <==> pre_skill.contains_key(k)
                || bounty.skill_tags@.subrange(0, i as int).contains(k),
            forall|k: u8| #[trigger] ids_at(state.bounties_by_skill@, k) == ids_at(pre_skill, k) + copies(
                bounty.id,
                occurrences(bounty.skill_tags@.subrange(0, i as int), k),
            ),
        decreases bounty.skill_tags@.len() - i,
    {
        let tag = bounty.skill_tags[i];
        let ghost before = state.bounties_by_skill@;
        push_index(&mut state.bounties_by_skill, tag, bounty.id);
        proof {
            let s0 = bounty.skill_tags@.subrange(0, i as int);
            let s1 = bounty.skill_tags@.subrange(0, i + 1);
            assert(s1 =~= s0.push(tag));
            assert(s1[i as int] == tag);
            assert forall|k: u8| #[trigger] state.bounties_by_skill@.contains_key(k) <==> pre_skill.contains_key(k) || s1.contains(k) by {
                if s1.contains(k) && !s0.contains(k) {
                    let j = choose|j: int| 0 <= j < s1.len() && s1[j] == k;
                    if j < s0.len() {
                        assert(s0[j] == k);
                    }
                }
                if s0.contains(k) {
                    let j = choose|j: int| 0 <= j < s0.len() && s0[j] == k;
                    assert(s1[j] == k);
                }
            }
            assert forall|k: u8| #[trigger] ids_at(state.bounties_by_skill@, k) == ids_at(pre_skill, k) + copies(
                bounty.id,
                occurrences(s1, k),
            ) by {
                lemma_occurrences_push(s0, tag, k);
                if k == tag {
                    assert(ids_at(pre_skill, k) + copies(bounty.id, occurrences(s1, k)) =~= (ids_at(pre_skill, k)
                        + copies(bounty.id, occurrences(s0, k))).push(bounty.id));
                } else {
                    assert(ids_at(state.bounties_by_skill@, k) == ids_at(before, k));
                    assert(copies(bounty.id, occurrences(s1, k)) =~= copies(bounty.id, occurrences(s0, k)));
                }
            }
        }
        i = i + 1;
    }
    proof {
        assert(bounty.skill_tags@.subrange(0, bounty.skill_tags@.len() as int) =~= bounty.skill_tags@);
    }
    push_index(&mut state.bounties_by_difficulty, bounty.difficulty_level, bounty.id);
    if bounty.status == BountyStatus::Open {
        state.active_bounties.insert(bounty.id, true);
    }
    if bounty.is_featured {
        state.featured_bounties.insert(bounty.id, true);
    }
}

/// The reward tiers of a new bounty: positions 1, 2, ... in the given order, each with its
/// percentage of the total, rounded down.
pub open spec fn tiers_of(total: u128, inputs: Seq<RewardTierInput>) -> Seq<RewardTier> {
    Seq::new(
        inputs.len(),
        |i: int| RewardTier { position: (i + 1) as u64, percentage: inputs[i].percentage, amount: ((total * inputs[i].percentage) / 100) as u128 },
    )
}

/// Whether each tier's share of the total fits in an amount.
pub open spec fn tiers_fit(total: u128, inputs: Seq<RewardTierInput>) -> bool {
    forall|i: int| 0 <= i < inputs.len() ==> (total * #[trigger] inputs[i].percentage) / 100 <= u128::MAX
}

/// The id of the escrow and of the content of bounty `id`: `bounty_<id>`.
pub open spec fn bounty_key(id: u64) -> Seq<char> {
    "bounty_"@ + decimal_chars(id as nat)
}

/// The sum of the percentages of a reward distribution.
pub open spec fn percent_total(tiers: Seq<RewardTierInput>) -> nat
    decreases tiers.len(),
{
    if tiers.len() == 0 {
        0
    } else {
        percent_total(tiers.drop_last()) + tiers.last().percentage as nat
    }
}

/// Whether the percentages of a reward distribution add up to at most 100.
fn percentages_within_total(tiers: &Vec<RewardTierInput>) -> (b: bool)
    ensures
        b == (percent_total(tiers@) <= 100),
{
    let mut sum: u64 = 0;
    let mut i: usize = 0;
    while i < tiers.len()
        invariant
            i <= tiers@.len(),
            sum == percent_total(tiers@.subrange(0, i as int)),
            sum <= 100,
        decreases tiers@.len() - i,
    {
        proof {
            assert(tiers@.subrange(0, i + 1).drop_last() =~= tiers@.subrange(0, i as int));
        }
        let p = tiers[i].percentage;
        if p > 100 - sum {
            proof {
                lemma_percent_total_prefix(tiers@, i + 1);
            }
            return false;
        }
        sum = sum + p;
        i = i + 1;
    }
    proof {
        assert(tiers@.subrange(0, i as int) =~= tiers@);
    }
    true
}

/// The sum over a list is at least the sum over any of its prefixes.
proof fn lemma_percent_total_prefix(tiers: Seq<RewardTierInput>, n: int)
    requires
        0 <= n <= tiers.len(),
    ensures
        percent_total(tiers.subrange(0, n)) <= percent_total(tiers),
    decreases tiers.len() - n,
{
    if n < tiers.len() {
        lemma_percent_total_prefix(tiers, n + 1);
        assert(tiers.subrange(0, n + 1).drop_last() =~= tiers.subrange(0, n));
    } else {
        assert(tiers.subrange(0, n) =~= tiers);
    }
}

/// Why creating a bounty is refused, if it is.
pub open spec fn create_bounty_refusal(
    pre: ContractState,
    now: u64,
    info: MessageInfo,
    title: Seq<char>,
    description: Seq<char>,
    requirements_count: nat,
    total_reward: u128,
    category: Seq<char>,
    skills_count: nat,
    deadline_days: u64,
    max_winners: u64,
    tiers: Seq<RewardTierInput>,
) -> Option<ErrorView> {
    let sec = security_refusal(pre, now, info.sender@, RateLimitAction::CreateBounty);
    let text = text_inputs_refusal(title, description, None, None);
    let max = pre.config.max_job_duration_days;
    if sec is Some {
        sec
    } else if text is Some {
        text
    } else if !valid_job_title(title) {
        Some(ErrorView::InvalidInput("Title must be between 5-100 characters"@))
    } else if !valid_job_description(description) {
        Some(ErrorView::InvalidInput("Description must be between 10-1000 characters"@))
    } else if total_reward != 0 && total_reward < MIN_PAID_BUDGET {
        Some(ErrorView::EscrowAmountTooLow { min: decimal_chars(MIN_PAID_BUDGET as nat) })
    } else if deadline_days == 0 || deadline_days > max {
        Some(ErrorView::InvalidInput("Duration must be between 1-"@ + decimal_chars(max as nat) + " days"@))
    } else if !length_ok(category, 1, 50) {
        Some(ErrorView::InvalidInput(length_message("Category"@, 1, 50)))
    } else if skills_count < 1 || skills_count > 20 {
        Some(ErrorView::InvalidInput(count_message("Skills required"@, 1, 20)))
    } else if requirements_count < 1 || requirements_count > 10 {
        Some(ErrorView::InvalidInput(count_message("Requirements"@, 1, 10)))
    } else if max_winners == 0 || max_winners > 100 {
        Some(ErrorView::InvalidInput("Max winners must be between 1 and 100"@))
    } else if percent_total(tiers) > 100 {
        Some(ErrorView::InvalidInput("Reward percentages must not total more than 100"@))
    } else if info.funds@.len() != 1 || info.funds@[0].amount != total_reward {
        Some(ErrorView::InvalidFunds)
    } else if pre.next_bounty_id == u64::MAX {
        Some(ErrorView::Overflow(OverflowError { operation: OverflowOperation::Add }))
    } else {
        None
    }
}

/// `s` with the search indexes of `t`.
pub open spec fn with_indexes_of(s: ContractState, t: ContractState) -> ContractState {
    ContractState {
        bounties_by_category: t.bounties_by_category,
        bounties_by_reward_range: t.bounties_by_reward_range,
        bounties_by_skill: t.bounties_by_skill,
        bounties_by_difficulty: t.bounties_by_difficulty,
        active_bounties: t.active_bounties,
        featured_bounties: t.featured_bounties,
        ..s
    }
}

/// The skill numbers of a list of skill names.
pub open spec fn skill_ids(skills: Seq<String>) -> Seq<u8> {
    Seq::new(skills.len(), |i: int| skill_id_of(lowercase_chars(skills[i]@)))
}

/// The state and response after `info.sender` created bounty number `pre.next_bounty_id`.
pub open spec fn bounty_created(
    pre: ContractState,
    post: ContractState,
    now: u64,
    sender: String,
    total_reward: u128,
    category: Seq<char>,
    skills: Seq<String>,
    deadline_days: u64,
    review_period_days: u64,
    max_winners: u64,
    tiers: Seq<RewardTierInput>,
    bundle_json: Seq<char>,
    resp: Response,
) -> bool {
    let id = pre.next_bounty_id;
    let b = post.bounties@[id];
    let key = bounty_key(id);
    let h = content_hash_chars(bundle_json);
    let e = post.escrows@[key];
    &&& post == (ContractState {
        bounties: post.bounties,
        next_bounty_id: post.next_bounty_id,
        content_hashes: post.content_hashes,
        hash_to_entity: post.hash_to_entity,
        entity_to_hash: post.entity_to_hash,
        escrows: post.escrows,
        user_rate_limits: post.user_rate_limits,
        bounties_by_category: post.bounties_by_category,
        bounties_by_reward_range: post.bounties_by_reward_range,
        bounties_by_skill: post.bounties_by_skill,
        bounties_by_difficulty: post.bounties_by_difficulty,
        active_bounties: post.active_bounties,
        featured_bounties: post.featured_bounties,
        ..pre
    })
    &&& post.next_bounty_id == id + 1
    &&& post.bounties@ == pre.bounties@.insert(id, b)
    &&& b.id == id
    &&& b.poster == sender
    &&& b.total_reward == total_reward
    &&& b.submission_deadline == days_after(now, deadline_days)
    &&& b.review_period_days == review_period_days
    &&& b.max_winners == max_winners
    &&& b.reward_distribution@ == tiers_of(total_reward, tiers)
    &&& b.status == BountyStatus::Open
    &&& b.created_at == now
    &&& b.updated_at == now
    &&& b.total_submissions == 0
    &&& b.selected_winners@ == Seq::<u64>::empty()
    &&& b.escrow_id is None
    &&& content_hash_parts(b.content_hash) == content_hash_of(bundle_json, "bounty_content"@, seconds_of(now) as u64)
    &&& b.category_id == category_id_of(lowercase_chars(category))
    &&& b.skill_tags@ == skill_ids(skills)
    &&& b.reward_range == reward_range_of(total_reward)
    &&& b.difficulty_level == difficulty_of(skills)
    &&& b.estimated_hours == estimated_hours_of(total_reward, difficulty_of(skills))
    &&& !b.is_featured
    &&& post.content_hashes@ == pre.content_hashes@.insert(h, b.content_hash)
    &&& post.hash_to_entity@.dom() == pre.hash_to_entity@.dom().insert(h)
    &&& post.hash_to_entity@ == pre.hash_to_entity@.insert(h, post.hash_to_entity@[h])
    &&& post.hash_to_entity@[h]@ == key
    &&& post.entity_to_hash@ == pre.entity_to_hash@.insert(key, post.entity_to_hash@[key])
    &&& post.entity_to_hash@[key]@ == h
    &&& indexed(with_indexes_of(post, pre), post, b)
    &&& post.escrows@ == pre.escrows@.insert(key, e)
    &&& e.id@ == key
    &&& e.job_id == 0
    &&& e.client == sender
    &&& e.freelancer == sender
    &&& e.amount == total_reward
    &&& e.platform_fee == (total_reward * pre.config.platform_fee_percent) / 100
    &&& e.funded_at == now
    &&& !e.released
    &&& e.dispute_status == DisputeStatus::NotRaised
    &&& e.dispute_raised_at is None
    &&& e.dispute_deadline is None
    &&& post.user_rate_limits@ == limits_after(pre, now, sender@, RateLimitAction::CreateBounty)
    &&& resp.msgs() == Seq::<(bool, Seq<char>, Seq<char>, u128)>::empty()
    &&& resp.attrs() == crate::contract_helpers::standard_attrs("create_bounty"@, id, sender@) + seq![
        ("total_reward"@, decimal_chars(total_reward as nat)),
        ("category"@, category),
        ("content_hash"@, h),
        ("escrow_id"@, key),
    ]
}

fn build_tiers(total: u128, inputs: &Vec<RewardTierInput>) -> (r: Vec<RewardTier>)
    requires
        tiers_fit(total, inputs@),
    ensures
        r@ == tiers_of(total, inputs@),
{
    let mut tiers: Vec<RewardTier> = Vec::new();
    let mut i: usize = 0;
    while i < inputs.len()
        invariant
            i <= inputs@.len(),
            tiers_fit(total, inputs@),
            tiers@ == tiers_of(total, inputs@).subrange(0, i as int),
        decreases inputs@.len() - i,
    {
        let pct = inputs[i].percentage;
        assert((total * inputs@[i as int].percentage) / 100 <= u128::MAX);
        let amount = crate::helpers::multiply_ratio(total, pct, 100);
        tiers.push(RewardTier { position: (i + 1) as u64, percentage: pct, amount });
        i = i + 1;
        assert(tiers@ =~= tiers_of(total, inputs@).subrange(0, i as int));
    }
    tiers
}

/// What `execute_create_bounty` does: when it refuses and with which error, and the state and response when it succeeds.
pub open spec fn create_bounty_outcome(
    pre: ContractState,
    post: ContractState,
    env: Env,
    info: MessageInfo,
    title: Seq<char>,
    description: Seq<char>,
    requirements: Seq<String>,
    total_reward: u128,
    category: Seq<char>,
    skills_required: Seq<String>,
    submission_deadline_days: u64,
    review_period_days: u64,
    max_winners: u64,
    reward_distribution: Seq<RewardTierInput>,
    bundle_json: Seq<char>,
    r: Result<Response, ContractError>,
) -> bool {
    let refusal = create_bounty_refusal(pre, env.time, info, title, description, requirements.len(), total_reward, category, skills_required.len(), submission_deadline_days, max_winners, reward_distribution);
    &&& r is Err <==> refusal is Some
    &&& r matches Err(e) ==> refusal == Some(e@) && post == pre
    &&& r matches Ok(resp) ==> bounty_created(pre, post, env.time, info.sender, total_reward, category, skills_required, submission_deadline_days, review_period_days, max_winners, reward_distribution, bundle_json, resp)
}

/// Creates a bounty funded with the coin attached, lists it in the search indexes, and opens
/// its escrow. Its texts are published off-chain; `bundle_json` is the serialized content bundle.
pub fn execute_create_bounty(
    state: &mut ContractState,
    env: &Env,
    info: &MessageInfo,
    title: &str,
    description: &str,
    requirements: &Vec<String>,
    total_reward: u128,
    category: &str,
    skills_required: &Vec<String>,
    submission_deadline_days: u64,
    review_period_days: u64,
    max_winners: u64,
    reward_distribution: &Vec<RewardTierInput>,
    bundle_json: &str,
) -> (r: Result<Response, ContractError>)
    requires
        old(state).wf(),
        crate::state::tables_have_room(old(state)),
        create_bounty_refusal(*old(state), env.time, *info, title@, description@, requirements@.len(), total_reward, category@, skills_required@.len(), submission_deadline_days, max_winners, reward_distribution@) is None ==> {
            &&& days_after(env.time, submission_deadline_days) <= u64::MAX
            &&& tiers_fit(total_reward, reward_distribution@)
            &&& total_reward * old(state).config.platform_fee_percent <= u128::MAX
        },
    ensures
        crate::state::room_used(*old(state), *final(state)),
        create_bounty_outcome(*old(state), *final(state), *env, *info, title@, description@, requirements@, total_reward, category@, skills_required@, submission_deadline_days, review_period_days, max_winners, reward_distribution@, bundle_json@, r),
        final(state).wf(),
{
    let rl = match crate::jobs::security_checks(state, env, info.sender.as_str(), RateLimitAction::CreateBounty) {
        Ok(rl) => rl,
        Err(e) => return Err(e),
    };
    match crate::security::validate_text_inputs(title, description, None, None) {
        Ok(()) => {},
        Err(e) => return Err(e),
    }
    match crate::helpers::validate_job_title(title) {
        Ok(()) => {},
        Err(e) => return Err(e),
    }
    match crate::helpers::validate_job_description(description) {
        Ok(()) => {},
        Err(e) => return Err(e),
    }
    match crate::helpers::validate_budget(total_reward) {
        Ok(()) => {},
        Err(e) => return Err(e),
    }
    match crate::helpers::validate_duration(submission_deadline_days, state.config.max_job_duration_days) {
        Ok(()) => {},
        Err(e) => return Err(e),
    }
    match crate::contract_helpers::validate_string_field(category, "Category", 1, 50) {
        Ok(()) => {},
        Err(e) => return Err(e),
    }
    match crate::contract_helpers::validate_collection_size(skills_required.as_slice(), "Skills required", 1, 20) {
        Ok(()) => {},
        Err(e) => return Err(e),
    }
    match crate::contract_helpers::validate_collection_size(requirements.as_slice(), "Requirements", 1, 10) {
        Ok(()) => {},
        Err(e) => return Err(e),
    }
    if max_winners == 0 || max_winners > 100 {
        return Err(invalid_input("Max winners must be between 1 and 100"));
    }
    if !percentages_within_total(reward_distribution) {
        return Err(invalid_input("Reward percentages must not total more than 100"));
    }
    if info.funds.len() != 1 || info.funds[0].amount != total_reward {
        return Err(ContractError::InvalidFunds {  });
    }
    if state.next_bounty_id == u64::MAX {
        return Err(overflow(OverflowOperation::Add));
    }
    let bounty_id = state.next_bounty_id;
    let timestamp = seconds(env.time);
    let (hash, content_hash) = match crate::hash_utils::bundle_content_hash(bundle_json, "bounty_content", timestamp) {
        Ok(x) => x,
        Err(e) => return Err(ContractError::Std(e)),
    };
    let n = u64_to_string(bounty_id);
    let key = crate::text::concat2("bounty_", n.as_str());
    let difficulty = crate::helpers::calculate_difficulty_from_skills(skills_required);
    let skill_tags = crate::helpers::convert_skills_to_ids(skills_required);
    proof {
        assert(skill_tags@ =~= skill_ids(skills_required@));
    }
    let bounty = Bounty {
        id: bounty_id,
        poster: info.sender.clone(),
        total_reward,
        submission_deadline: crate::helpers::get_future_timestamp(env.time, submission_deadline_days),
        review_period_days,
        max_winners,
        reward_distribution: build_tiers(total_reward, reward_distribution),
        status: BountyStatus::Open,
        created_at: env.time,
        updated_at: env.time,
        total_submissions: 0,
        selected_winners: Vec::new(),
        escrow_id: None,
        content_hash: content_hash.copy(),
        category_id: crate::helpers::convert_category_to_id(category),
        skill_tags,
        reward_range: crate::helpers::calculate_reward_range(total_reward),
        difficulty_level: difficulty,
        estimated_hours: crate::helpers::estimate_hours_from_reward_and_difficulty(total_reward, difficulty),
        is_featured: false,
    };
    let fee = total_reward * (state.config.platform_fee_percent as u128) / 100;
    let escrow = EscrowState {
        id: key.clone(),
        job_id: 0,
        client: info.sender.clone(),
        freelancer: info.sender.clone(),
        amount: total_reward,
        platform_fee: fee,
        funded_at: env.time,
        released: false,
        dispute_status: DisputeStatus::NotRaised,
        dispute_raised_at: None,
        dispute_deadline: None,
    };
    state.next_bounty_id = bounty_id + 1;
    state.content_hashes.insert(hash.clone(), content_hash);
    state.hash_to_entity.insert(hash.clone(), key.clone());
    state.entity_to_hash.insert(key.clone(), hash.clone());
    let ghost before_index = *state;
    update_bounty_search_indexes(state, &bounty);
    let ghost after_index = *state;
    state.bounties.insert(bounty_id, bounty);
    state.escrows.insert(key.clone(), escrow);
    state.user_rate_limits.insert(info.sender.clone(), rl);
    let mut extra: Vec<(&str, String)> = Vec::new();
    extra.push(("total_reward", u128_to_string(total_reward)));
    extra.push(("category", String::from_str(category)));
    extra.push(("content_hash", hash));
    extra.push(("escrow_id", key));
    let attrs = crate::contract_helpers::build_response_attributes("create_bounty", bounty_id, info.sender.as_str(), extra);
    let resp = Response { messages: Vec::new(), attributes: attrs };
    proof {
        let b = state.bounties@[bounty_id];
        assert(resp.msgs() =~= Seq::<(bool, Seq<char>, Seq<char>, u128)>::empty());
        assert(resp.attrs() =~= crate::contract_helpers::standard_attrs("create_bounty"@, bounty_id, info.sender@) + seq![
            ("total_reward"@, decimal_chars(total_reward as nat)),
            ("category"@, category@),
            ("content_hash"@, content_hash_chars(bundle_json@)),
            ("escrow_id"@, bounty_key(bounty_id)),
        ]);
        assert(with_indexes_of(*state, *old(state)) == (ContractState {
            bounties: state.bounties,
            escrows: state.escrows,
            user_rate_limits: state.user_rate_limits,
            ..before_index
        }));
        assert(indexed(before_index, after_index, b));
        assert(*state == (ContractState {
            bounties: state.bounties,
            escrows: state.escrows,
            user_rate_limits: state.user_rate_limits,
            ..after_index
        }));
        assert(indexed(with_indexes_of(*state, *old(state)), *state, b));
        assert(state.hash_to_entity@.dom() =~= old(state).hash_to_entity@.dom().insert(content_hash_chars(bundle_json@)));
    }
    Ok(resp)
}

/// The kind named when a bounty is not stored.
pub open spec fn bounty_kind() -> Seq<char> {
    "Bounty"@
}

/// The kind named when a bounty submission is not stored.
pub open spec fn submission_kind() -> Seq<char> {
    "BountySubmission"@
}

/// Whether `sender` already submitted to `bounty_id`.
pub open spec fn has_submission(pre: ContractState, bounty_id: u64, sender: Seq<char>) -> bool {
    exists|k: u64| #[trigger] pre.bounty_submissions@.contains_key(k) && pre.bounty_submissions@[k].bounty_id == bounty_id
        && pre.bounty_submissions@[k].submitter@ == sender
}

fn find_submission(state: &ContractState, bounty_id: u64, sender: &str) -> (r: bool)
    requires
        state.wf(),
    ensures
        r == has_submission(*state, bounty_id, sender@),
{
    let n = state.next_bounty_submission_id;
    let mut k: u64 = 0;
    while k < n
        invariant
            k <= n,
            n == state.next_bounty_submission_id,
            state.wf(),
            forall|j: u64| j < k ==> !(#[trigger] state.bounty_submissions@.contains_key(j)
                && state.bounty_submissions@[j].bounty_id == bounty_id && state.bounty_submissions@[j].submitter@ == sender@),
        decreases n - k,
    {
        match state.bounty_submissions.get(&k) {
            Some(sub) => {
                if sub.bounty_id == bounty_id && crate::text::str_eq(sub.submitter.as_str(), sender) {
                    return true;
                }
            },
            None => {},
        }
        k = k + 1;
    }
    false
}

/// Why submitting to `bounty_id` is refused, if it is.
pub open spec fn submit_refusal(
    pre: ContractState,
    now: u64,
    sender: Seq<char>,
    bounty_id: u64,
    title: Seq<char>,
    description: Seq<char>,
    deliverables_count: nat,
) -> Option<ErrorView> {
    let sec = security_refusal(pre, now, sender, RateLimitAction::SubmitToBounty);
    let b = pre.bounties@[bounty_id];
    let text = text_inputs_refusal(title, description, None, None);
    if sec is Some {
        sec
    } else if !pre.bounties@.contains_key(bounty_id) {
        Some(ErrorView::Std(StdErrorView::NotFound { kind: bounty_kind() }))
    } else if b.status != BountyStatus::Open {
        Some(ErrorView::InvalidInput(crate::contract_helpers::status_message("submit to"@, "bounty"@, crate::contract_helpers::bounty_status_name(b.status))))
    } else if now >= b.submission_deadline {
        Some(ErrorView::InvalidInput("Bounty has expired"@))
    } else if b.total_submissions >= 100 {
        Some(ErrorView::InvalidInput("Maximum submissions reached"@))
    } else if text is Some {
        text
    } else if !valid_job_title(title) {
        Some(ErrorView::InvalidInput("Title must be between 5-100 characters"@))
    } else if !valid_job_description(description) {
        Some(ErrorView::InvalidInput("Description must be between 10-1000 characters"@))
    } else if deliverables_count == 0 {
        Some(ErrorView::InvalidInput("At least one deliverable must be provided"@))
    } else if has_submission(pre, bounty_id, sender) {
        Some(ErrorView::InvalidInput("You already have a submission for this bounty"@))
    } else if pre.next_bounty_submission_id == u64::MAX {
        Some(ErrorView::Overflow(OverflowError { operation: OverflowOperation::Add }))
    } else {
        None
    }
}

/// The content key of bounty submission `id`.
pub open spec fn submission_key(id: u64) -> Seq<char> {
    "bounty_submission_"@ + decimal_chars(id as nat)
}

/// The state and response after `sender` submitted to `bounty_id`; the submission gets id
/// `pre.next_bounty_submission_id`.
pub open spec fn submitted_to_bounty(
    pre: ContractState,
    post: ContractState,
    now: u64,
    sender: String,
    bounty_id: u64,
    deliverables: Seq<String>,
    bundle_json: Seq<char>,
    resp: Response,
) -> bool {
    let id = pre.next_bounty_submission_id;
    let sub = post.bounty_submissions@[id];
    let b = pre.bounties@[bounty_id];
    let key = submission_key(id);
    let h = content_hash_chars(bundle_json);
    &&& post == (ContractState {
        bounty_submissions: post.bounty_submissions,
        next_bounty_submission_id: post.next_bounty_submission_id,
        bounties: post.bounties,
        content_hashes: post.content_hashes,
        hash_to_entity: post.hash_to_entity,
        entity_to_hash: post.entity_to_hash,
        user_rate_limits: post.user_rate_limits,
        ..pre
    })
    &&& post.next_bounty_submission_id == id + 1
    &&& post.bounty_submissions@ == pre.bounty_submissions@.insert(id, sub)
    &&& sub.id == id
    &&& sub.bounty_id == bounty_id
    &&& sub.submitter == sender
    &&& sub.submitted_at == now
    &&& sub.status == BountySubmissionStatus::Submitted
    &&& sub.score is None
    &&& sub.winner_position is None
    &&& content_hash_parts(sub.content_hash) == content_hash_of(bundle_json, "bounty_submission_content"@, seconds_of(now) as u64)
    &&& sub.deliverable_count == (deliverables.len() % 256) as u8
    &&& sub.submission_type == submission_type_of(lowercase_chars(deliverables[0]@))
    &&& sub.estimated_completion_hours == 0
    &&& post.bounties@ == pre.bounties@.insert(bounty_id, post.bounties@[bounty_id])
    &&& post.bounties@[bounty_id].same_as(Bounty { total_submissions: (b.total_submissions + 1) as u64, ..b })
    &&& post.content_hashes@ == pre.content_hashes@.insert(h, sub.content_hash)
    &&& post.hash_to_entity@ == pre.hash_to_entity@.insert(h, post.hash_to_entity@[h])
    &&& post.hash_to_entity@[h]@ == key
    &&& post.entity_to_hash@ == pre.entity_to_hash@.insert(key, post.entity_to_hash@[key])
    &&& post.entity_to_hash@[key]@ == h
    &&& post.user_rate_limits@ == limits_after(pre, now, sender@, RateLimitAction::SubmitToBounty)
    &&& resp.msgs() == Seq::<(bool, Seq<char>, Seq<char>, u128)>::empty()
    &&& resp.attrs() == crate::contract_helpers::standard_attrs("submit_to_bounty"@, id, sender@) + seq![
        ("bounty_id"@, decimal_chars(bounty_id as nat)),
    ]
}

/// What `execute_submit_to_bounty` does: when it refuses and with which error, and the state and response when it succeeds.
pub open spec fn submit_to_bounty_outcome(
    pre: ContractState,
    post: ContractState,
    env: Env,
    info: MessageInfo,
    bounty_id: u64,
    title: Seq<char>,
    description: Seq<char>,
    deliverables: Seq<String>,
    bundle_json: Seq<char>,
    r: Result<Response, ContractError>,
) -> bool {
    let refusal = submit_refusal(pre, env.time, info.sender@, bounty_id, title, description, deliverables.len());
    &&& r is Err <==> refusal is Some
    &&& r matches Err(e) ==> refusal == Some(e@) && post == pre
    &&& r matches Ok(resp) ==> submitted_to_bounty(pre, post, env.time, info.sender, bounty_id, deliverables, bundle_json, resp)
}

/// Submits work to an open bounty before its deadline, once per user. Its texts are published
/// off-chain; `bundle_json` is the serialized content bundle.
pub fn execute_submit_to_bounty(
    state: &mut ContractState,
    env: &Env,
    info: &MessageInfo,
    bounty_id: u64,
    title: &str,
    description: &str,
    deliverables: &Vec<String>,
    bundle_json: &str,
) -> (r: Result<Response, ContractError>)
    requires
        old(state).wf(),
        crate::state::tables_have_room(old(state)),
    ensures
        crate::state::room_used(*old(state), *final(state)),
        submit_to_bounty_outcome(*old(state), *final(state), *env, *info, bounty_id, title@, description@, deliverables@, bundle_json@, r),
        final(state).wf(),
{
    let rl = match crate::jobs::security_checks(state, env, info.sender.as_str(), RateLimitAction::SubmitToBounty) {
        Ok(rl) => rl,
        Err(e) => return Err(e),
    };
    let bounty = match state.bounties.get(&bounty_id) {
        Some(b) => b,
        None => return Err(crate::error::not_found("Bounty")),
    };
    let allowed = [BountyStatus::Open];
    match crate::contract_helpers::validate_bounty_status_for_operation(&bounty.status, &allowed, "submit to") {
        Ok(()) => {},
        Err(e) => return Err(e),
    }
    if env.time >= bounty.submission_deadline {
        return Err(invalid_input("Bounty has expired"));
    }
    if bounty.total_submissions >= 100 {
        return Err(invalid_input("Maximum submissions reached"));
    }
    match crate::security::validate_text_inputs(title, description, None, None) {
        Ok(()) => {},
        Err(e) => return Err(e),
    }
    match crate::helpers::validate_job_title(title) {
        Ok(()) => {},
        Err(e) => return Err(e),
    }
    match crate::helpers::validate_job_description(description) {
        Ok(()) => {},
        Err(e) => return Err(e),
    }
    if deliverables.len() == 0 {
        return Err(invalid_input("At least one deliverable must be provided"));
    }
    if find_submission(state, bounty_id, info.sender.as_str()) {
        return Err(invalid_input("You already have a submission for this bounty"));
    }
    if state.next_bounty_submission_id == u64::MAX {
        return Err(overflow(OverflowOperation::Add));
    }
    let submission_id = state.next_bounty_submission_id;
    let (hash, content_hash) = match crate::hash_utils::bundle_content_hash(bundle_json, "bounty_submission_content", seconds(env.time)) {
        Ok(x) => x,
        Err(e) => return Err(ContractError::Std(e)),
    };
    let n = u64_to_string(submission_id);
    let key = crate::text::concat2("bounty_submission_", n.as_str());
    let count = (deliverables.len() % 256) as u8;
    let submission = BountySubmission {
        id: submission_id,
        bounty_id,
        submitter: info.sender.clone(),
        submitted_at: env.time,
        status: BountySubmissionStatus::Submitted,
        score: None,
        winner_position: None,
        content_hash: content_hash.copy(),
        deliverable_count: count,
        submission_type: determine_submission_type(deliverables[0].as_str()),
        estimated_completion_hours: 0,
    };
    state.next_bounty_submission_id = submission_id + 1;
    state.content_hashes.insert(hash.clone(), content_hash);
    state.hash_to_entity.insert(hash.clone(), key.clone());
    state.entity_to_hash.insert(key, hash);
    state.bounty_submissions.insert(submission_id, submission);
    let mut updated = state.bounties.remove(&bounty_id).unwrap();
    updated.total_submissions = updated.total_submissions + 1;
    state.bounties.insert(bounty_id, updated);
    state.user_rate_limits.insert(info.sender.clone(), rl);
    let mut extra: Vec<(&str, String)> = Vec::new();
    extra.push(("bounty_id", u64_to_string(bounty_id)));
    let attrs = crate::contract_helpers::build_response_attributes("submit_to_bounty", submission_id, info.sender.as_str(), extra);
    let resp = Response { messages: Vec::new(), attributes: attrs };
    proof {
        assert(resp.msgs() =~= Seq::<(bool, Seq<char>, Seq<char>, u128)>::empty());
        assert(resp.attrs() =~= crate::contract_helpers::standard_attrs("submit_to_bounty"@, submission_id, info.sender@) + seq![
            ("bounty_id"@, decimal_chars(bounty_id as nat)),
        ]);
        assert(state.bounties@ =~= old(state).bounties@.insert(bounty_id, state.bounties@[bounty_id]));
        assert(*state == (ContractState {
            bounty_submissions: state.bounty_submissions,
            next_bounty_submission_id: state.next_bounty_submission_id,
            bounties: state.bounties,
            content_hashes: state.content_hashes,
            hash_to_entity: state.hash_to_entity,
            entity_to_hash: state.entity_to_hash,
            user_rate_limits: state.user_rate_limits,
            ..*old(state)
        }));
    }
    Ok(resp)
}

/// Why one winner selection is refused, if it is: its submission is missing or belongs to another bounty.
pub open spec fn selection_refusal(pre: ContractState, bounty_id: u64, sel: WinnerSelection) -> Option<ErrorView> {
    if !pre.bounty_submissions@.contains_key(sel.submission_id) {
        Some(ErrorView::Std(StdErrorView::NotFound { kind: submission_kind() }))
    } else if pre.bounty_submissions@[sel.submission_id].bounty_id != bounty_id {
        Some(ErrorView::InvalidInput("Submission "@ + decimal_chars(sel.submission_id as nat) + " does not belong to this bounty"@))
    } else {
        None
    }
}

/// The refusal of the first refused selection, if any.
pub open spec fn selections_refusal(pre: ContractState, bounty_id: u64, sels: Seq<WinnerSelection>) -> Option<ErrorView>
    decreases sels.len(),
{
    if sels.len() == 0 {
        None
    } else {
        let earlier = selections_refusal(pre, bounty_id, sels.drop_last());
        if earlier is Some {
            earlier
        } else {
            selection_refusal(pre, bounty_id, sels.last())
        }
    }
}

/// The reward of a winning position: its tier's amount, or nothing outside the tiers.
pub open spec fn position_reward(b: Bounty, position: u64) -> u128 {
    if 0 < position && position <= b.reward_distribution@.len() {
        b.reward_distribution@[position - 1].amount
    } else {
        0
    }
}

/// The sum of the rewards of the selections.
pub open spec fn total_rewards(b: Bounty, sels: Seq<WinnerSelection>) -> nat
    decreases sels.len(),
{
    if sels.len() == 0 {
        0
    } else {
        total_rewards(b, sels.drop_last()) + position_reward(b, sels.last().position) as nat
    }
}

/// The payments to the winners, in order of selection; a position without reward pays nothing.
pub open spec fn winner_msgs(pre: ContractState, b: Bounty, sels: Seq<WinnerSelection>) -> Seq<(bool, Seq<char>, Seq<char>, u128)>
    decreases sels.len(),
{
    if sels.len() == 0 {
        Seq::empty()
    } else {
        let sel = sels.last();
        let reward = position_reward(b, sel.position);
        winner_msgs(pre, b, sels.drop_last()) + if reward > 0 {
            seq![crate::chain::bank_view(pre.bounty_submissions@[sel.submission_id].submitter@, "uusdc"@, reward)]
        } else {
            Seq::empty()
        }
    }
}

/// The position given to submission `id` by the last selection of it, if any.
pub open spec fn last_position(sels: Seq<WinnerSelection>, id: u64) -> Option<u64>
    decreases sels.len(),
{
    if sels.len() == 0 {
        None
    } else if sels.last().submission_id == id {
        Some(sels.last().position)
    } else {
        last_position(sels.drop_last(), id)
    }
}

/// The submissions after the selected ones were marked winners with their positions.
pub open spec fn winners_marked(pre: Map<u64, BountySubmission>, post: Map<u64, BountySubmission>, sels: Seq<WinnerSelection>) -> bool {
    &&& post.dom() == pre.dom()
    &&& forall|k: u64| #[trigger] post.contains_key(k) ==> post[k] == match last_position(sels, k) {
        Some(p) => BountySubmission { status: BountySubmissionStatus::Winner, winner_position: Some(p), ..pre[k] },
        None => pre[k],
    }
}

/// Why selecting winners for `bounty_id` is refused before the selections are looked at, if it is.
pub open spec fn select_precheck(pre: ContractState, now: u64, sender: Seq<char>, bounty_id: u64, sels: Seq<WinnerSelection>) -> Option<ErrorView> {
    let sec = security_refusal(pre, now, sender, RateLimitAction::SelectBountyWinners);
    let b = pre.bounties@[bounty_id];
    if sec is Some {
        sec
    } else if !pre.bounties@.contains_key(bounty_id) {
        Some(ErrorView::Std(StdErrorView::NotFound { kind: bounty_kind() }))
    } else if b.poster@ != sender {
        Some(ErrorView::Unauthorized)
    } else if b.status != BountyStatus::Open {
        Some(ErrorView::InvalidInput(crate::contract_helpers::status_message("select winners for"@, "bounty"@, crate::contract_helpers::bounty_status_name(b.status))))
    } else if sels.len() == 0 {
        Some(ErrorView::InvalidInput("Must select at least one winner"@))
    } else if sels.len() > b.max_winners {
        Some(ErrorView::InvalidInput("Too many winners selected"@))
    } else {
        None
    }
}

/// Why selecting winners for `bounty_id` is refused, if it is.
pub open spec fn select_refusal(pre: ContractState, now: u64, sender: Seq<char>, bounty_id: u64, sels: Seq<WinnerSelection>) -> Option<ErrorView> {
    let first = select_precheck(pre, now, sender, bounty_id, sels);
    if first is Some {
        first
    } else {
        selections_refusal(pre, bounty_id, sels)
    }
}

/// Whether the running total of rewards stays within an amount while the selections are accepted.
pub open spec fn rewards_fit(pre: ContractState, bounty_id: u64, sels: Seq<WinnerSelection>) -> bool {
    forall|i: int| 0 <= i < sels.len() && #[trigger] selections_refusal(pre, bounty_id, sels.subrange(0, i + 1)) is None
        ==> total_rewards(pre.bounties@[bounty_id], sels.subrange(0, i + 1)) <= u128::MAX
}

/// The state and response after the poster selected the winners of `bounty_id` at `now`.
pub open spec fn winners_selected(pre: ContractState, post: ContractState, now: u64, sender: Seq<char>, bounty_id: u64, sels: Seq<WinnerSelection>, resp: Response) -> bool {
    let b = pre.bounties@[bounty_id];
    let nb = post.bounties@[bounty_id];
    &&& post == (ContractState {
        bounties: post.bounties,
        bounty_submissions: post.bounty_submissions,
        user_rate_limits: post.user_rate_limits,
        ..pre
    })
    &&& post.bounties@ == pre.bounties@.insert(bounty_id, nb)
    &&& nb.same_as(Bounty { status: BountyStatus::Completed, selected_winners: nb.selected_winners, updated_at: now, ..b })
    &&& nb.selected_winners@ == sels.map_values(|s: WinnerSelection| s.submission_id)
    &&& winners_marked(pre.bounty_submissions@, post.bounty_submissions@, sels)
    &&& post.user_rate_limits@ == limits_after(pre, now, sender, RateLimitAction::SelectBountyWinners)
    &&& resp.msgs() == winner_msgs(pre, b, sels)
    &&& resp.attrs() == seq![
        ("method"@, "select_bounty_winners"@),
        ("bounty_id"@, decimal_chars(bounty_id as nat)),
        ("winners_count"@, decimal_chars(sels.len())),
        ("total_distributed"@, decimal_chars(total_rewards(b, sels))),
    ]
}

proof fn lemma_prefix_step(sels: Seq<WinnerSelection>, i: int)
    requires
        0 <= i < sels.len(),
    ensures
        sels.subrange(0, i + 1).drop_last() == sels.subrange(0, i),
        sels.subrange(0, i + 1).last() == sels[i],
{
    assert(sels.subrange(0, i + 1).drop_last() =~= sels.subrange(0, i));
}

proof fn lemma_refusal_persists(pre: ContractState, bounty_id: u64, sels: Seq<WinnerSelection>, i: int)
    requires
        0 <= i <= sels.len(),
        selections_refusal(pre, bounty_id, sels.subrange(0, i)) is Some,
    ensures
        selections_refusal(pre, bounty_id, sels) == selections_refusal(pre, bounty_id, sels.subrange(0, i)),
    decreases sels.len() - i,
{
    if i < sels.len() {
        lemma_prefix_step(sels, i);
        lemma_refusal_persists(pre, bounty_id, sels, i + 1);
    } else {
        assert(sels.subrange(0, i) =~= sels);
    }
}

proof fn lemma_refusal_none_each(pre: ContractState, bounty_id: u64, sels: Seq<WinnerSelection>)
    requires
        selections_refusal(pre, bounty_id, sels) is None,
    ensures
        forall|j: int| 0 <= j < sels.len() ==> #[trigger] selection_refusal(pre, bounty_id, sels[j]) is None,
    decreases sels.len(),
{
    if sels.len() > 0 {
        lemma_refusal_none_each(pre, bounty_id, sels.drop_last());
        assert forall|j: int| 0 <= j < sels.len() implies #[trigger] selection_refusal(pre, bounty_id, sels[j]) is None by {
            if j < sels.len() - 1 {
                assert(sels.drop_last()[j] == sels[j]);
            }
        }
    }
}

fn reward_of(b: &Bounty, position: u64) -> (r: u128)
    ensures
        r == position_reward(*b, position),
{
    if position > 0 && position <= b.reward_distribution.len() as u64 {
        b.reward_distribution[(position - 1) as usize].amount
    } else {
        0
    }
}

/// What `execute_select_bounty_winners` does: when it refuses and with which error, and the state and response when it succeeds.
pub open spec fn select_bounty_winners_outcome(
    pre: ContractState,
    post: ContractState,
    env: Env,
    info: MessageInfo,
    bounty_id: u64,
    winner_selections: Vec<WinnerSelection>,
    r: Result<Response, ContractError>,
) -> bool {
    let refusal = select_refusal(pre, env.time, info.sender@, bounty_id, winner_selections@);
    &&& r is Err <==> refusal is Some
    &&& r matches Err(e) ==> refusal == Some(e@) && post == pre
    &&& r matches Ok(resp) ==> winners_selected(pre, post, env.time, info.sender@, bounty_id, winner_selections@, resp)
}

/// The poster picks the winners of an open bounty; each winner is paid its position's reward.
pub fn execute_select_bounty_winners(
    state: &mut ContractState,
    env: &Env,
    info: &MessageInfo,
    bounty_id: u64,
    winner_selections: Vec<WinnerSelection>,
) -> (r: Result<Response, ContractError>)
    requires
        old(state).wf(),
        crate::state::tables_have_room(old(state)),
        select_precheck(*old(state), env.time, info.sender@, bounty_id, winner_selections@) is None
            ==> rewards_fit(*old(state), bounty_id, winner_selections@),
    ensures
        crate::state::room_used(*old(state), *final(state)),
        select_bounty_winners_outcome(*old(state), *final(state), *env, *info, bounty_id, winner_selections, r),
        final(state).wf(),
{
    let rl = match crate::jobs::security_checks(state, env, info.sender.as_str(), RateLimitAction::SelectBountyWinners) {
        Ok(rl) => rl,
        Err(e) => return Err(e),
    };
    let bounty = match state.bounties.get(&bounty_id) {
        Some(b) => b,
        None => return Err(crate::error::not_found("Bounty")),
    };
    match crate::contract_helpers::validate_user_authorization(bounty.poster.as_str(), info.sender.as_str()) {
        Ok(()) => {},
        Err(e) => return Err(e),
    }
    let allowed = [BountyStatus::Open];
    match crate::contract_helpers::validate_bounty_status_for_operation(&bounty.status, &allowed, "select winners for") {
        Ok(()) => {},
        Err(e) => return Err(e),
    }
    if winner_selections.len() == 0 {
        return Err(invalid_input("Must select at least one winner"));
    }
    if winner_selections.len() as u64 > bounty.max_winners {
        return Err(invalid_input("Too many winners selected"));
    }
    let ghost b0 = *bounty;
    let ghost sels = winner_selections@;
    let ghost pre = *state;
    assert(sels.subrange(0, 0) =~= Seq::<WinnerSelection>::empty());
    let n = winner_selections.len();
    let mut resp = Response::new();
    let mut total: u128 = 0;
    let mut i: usize = 0;
    while i < n
        invariant
            n == sels.len(),
            sels == winner_selections@,
            i <= n,
            *bounty == b0,
            *state == pre,
            pre == *old(state),
            select_precheck(pre, env.time, info.sender@, bounty_id, sels) is None,
            pre.bounties@.contains_key(bounty_id),
            pre.bounties@[bounty_id] == b0,
            pre.wf(),
            rewards_fit(pre, bounty_id, sels),
            selections_refusal(pre, bounty_id, sels.subrange(0, i as int)) is None,
            total == total_rewards(b0, sels.subrange(0, i as int)),
            resp.msgs() == winner_msgs(pre, b0, sels.subrange(0, i as int)),
            resp.attrs() == Seq::<(Seq<char>, Seq<char>)>::empty(),
        decreases n - i,
    {
        let sel = winner_selections[i];
        proof {
            lemma_prefix_step(sels, i as int);
        }
        let sub = match state.bounty_submissions.get(&sel.submission_id) {
            Some(x) => x,
            None => {
                proof {
                    lemma_refusal_persists(pre, bounty_id, sels, i + 1);
                }
                return Err(crate::error::not_found("BountySubmission"));
            },
        };
        if sub.bounty_id != bounty_id {
            let a = u64_to_string(sel.submission_id);
            proof {
                lemma_refusal_persists(pre, bounty_id, sels, i + 1);
            }
            return Err(ContractError::InvalidInput { error: crate::text::concat3("Submission ", a.as_str(), " does not belong to this bounty") });
        }
        let reward = reward_of(bounty, sel.position);
        proof {
            assert(selections_refusal(pre, bounty_id, sels.subrange(0, i + 1)) is None);
        }
        total = total + reward;
        let ghost before = resp;
        if reward > 0 {
            resp = resp.add_message(crate::chain::bank_send(sub.submitter.clone(), "uusdc", reward));
        }
        proof {
            if reward > 0 {
                assert(resp.msgs() =~= winner_msgs(pre, b0, sels.subrange(0, i + 1)));
            } else {
                assert(resp.msgs() =~= winner_msgs(pre, b0, sels.subrange(0, i + 1)));
            }
        }
        i = i + 1;
    }
    proof {
        assert(sels.subrange(0, n as int) =~= sels);
        lemma_refusal_none_each(pre, bounty_id, sels);
    }
    let mut ids: Vec<u64> = Vec::new();
    let mut k: usize = 0;
    assert(winners_marked(pre.bounty_submissions@, state.bounty_submissions@, sels.subrange(0, 0)));
    while k < n
        invariant
            n == sels.len(),
            sels == winner_selections@,
            k <= n,
            *state == (ContractState { bounty_submissions: state.bounty_submissions, ..pre }),
            pre == *old(state),
            pre.wf(),
            forall|j: int| 0 <= j < sels.len() ==> #[trigger] selection_refusal(pre, bounty_id, sels[j]) is None,
            ids@ == sels.subrange(0, k as int).map_values(|s: WinnerSelection| s.submission_id),
            winners_marked(pre.bounty_submissions@, state.bounty_submissions@, sels.subrange(0, k as int)),
        decreases n - k,
    {
        let sel = winner_selections[k];
        proof {
            lemma_prefix_step(sels, k as int);
            assert(selection_refusal(pre, bounty_id, sels[k as int]) is None);
        }
        ids.push(sel.submission_id);
        let ghost cur = state.bounty_submissions@;
        let mut sub = state.bounty_submissions.remove(&sel.submission_id).unwrap();
        sub.status = BountySubmissionStatus::Winner;
        sub.winner_position = Some(sel.position);
        state.bounty_submissions.insert(sel.submission_id, sub);
        proof {
            let p1 = sels.subrange(0, k + 1);
            assert(ids@ =~= p1.map_values(|s: WinnerSelection| s.submission_id));
            assert(state.bounty_submissions@.dom() =~= pre.bounty_submissions@.dom());
            assert forall|key: u64| #[trigger] state.bounty_submissions@.contains_key(key) implies state.bounty_submissions@[key]
                == match last_position(p1, key) {
                Some(p) => BountySubmission { status: BountySubmissionStatus::Winner, winner_position: Some(p), ..pre.bounty_submissions@[key] },
                None => pre.bounty_submissions@[key],
            } by {
                if key != sel.submission_id {
                    assert(state.bounty_submissions@[key] == cur[key]);
                }
            }
        }
        k = k + 1;
    }
    proof {
        assert(sels.subrange(0, n as int) =~= sels);
    }
    let mut updated = state.bounties.remove(&bounty_id).unwrap();
    updated.status = BountyStatus::Completed;
    updated.selected_winners = ids;
    updated.updated_at = env.time;
    state.bounties.insert(bounty_id, updated);
    state.user_rate_limits.insert(info.sender.clone(), rl);
    let ghost msgs_resp = resp;
    let resp = resp.add_attribute("method", String::from_str("select_bounty_winners"));
    let resp = resp.add_attribute("bounty_id", u64_to_string(bounty_id));
    let resp = resp.add_attribute("winners_count", u64_to_string(n as u64));
    let resp = resp.add_attribute("total_distributed", u128_to_string(total));
    proof {
        assert(resp.attrs() =~= seq![
            ("method"@, "select_bounty_winners"@),
            ("bounty_id"@, decimal_chars(bounty_id as nat)),
            ("winners_count"@, decimal_chars(sels.len())),
            ("total_distributed"@, decimal_chars(total_rewards(b0, sels))),
        ]);
        assert(state.bounties@ =~= old(state).bounties@.insert(bounty_id, state.bounties@[bounty_id]));
        assert(*state == (ContractState {
            bounties: state.bounties,
            bounty_submissions: state.bounty_submissions,
            user_rate_limits: state.user_rate_limits,
            ..*old(state)
        }));
    }
    Ok(resp)
}
/// Why an operation by `sender` on bounty `bounty_id` is refused before its own checks: the
/// common checks, a missing bounty, or a sender who is not the poster.
pub open spec fn bounty_owner_refusal(pre: ContractState, now: u64, sender: Seq<char>, bounty_id: u64, action: RateLimitAction) -> Option<ErrorView> {
    let sec = security_refusal(pre, now, sender, action);
    if sec is Some {
        sec
    } else if !pre.bounties@.contains_key(bounty_id) {
        Some(ErrorView::Std(StdErrorView::NotFound { kind: bounty_kind() }))
    } else if pre.bounties@[bounty_id].poster@ != sender {
        Some(ErrorView::Unauthorized)
    } else {
        None
    }
}

/// Why an operation on an open bounty by its poster is refused, if it is.
pub open spec fn open_bounty_refusal(pre: ContractState, now: u64, sender: Seq<char>, bounty_id: u64, action: RateLimitAction, operation: Seq<char>) -> Option<ErrorView> {
    let owner = bounty_owner_refusal(pre, now, sender, bounty_id, action);
    let b = pre.bounties@[bounty_id];
    if owner is Some {
        owner
    } else if b.status != BountyStatus::Open {
        Some(ErrorView::InvalidInput(crate::contract_helpers::status_message(operation, "bounty"@, crate::contract_helpers::bounty_status_name(b.status))))
    } else {
        None
    }
}

fn bounty_for_owner<'a>(state: &'a ContractState, env: &Env, sender: &str, bounty_id: u64, action: RateLimitAction) -> (r: Result<(&'a Bounty, crate::state::RateLimit), ContractError>)
    requires
        state.wf(),
    ensures
        ({
            let refusal = bounty_owner_refusal(*state, env.time, sender@, bounty_id, action);
            &&& r is Err <==> refusal is Some
            &&& r matches Err(e) ==> refusal == Some(e@)
            &&& r matches Ok((b, rl)) ==> *b == state.bounties@[bounty_id] && rl == crate::security::rate_limit_after(
                crate::security::stored_rate_limit(state, sender@),
                env.time,
                action,
            )
        }),
{
    let rl = match crate::jobs::security_checks(state, env, sender, action) {
        Ok(rl) => rl,
        Err(e) => return Err(e),
    };
    let bounty = match state.bounties.get(&bounty_id) {
        Some(b) => b,
        None => return Err(crate::error::not_found("Bounty")),
    };
    match crate::contract_helpers::validate_user_authorization(bounty.poster.as_str(), sender) {
        Ok(()) => {},
        Err(e) => return Err(e),
    }
    Ok((bounty, rl))
}

fn open_bounty_for_owner<'a>(state: &'a ContractState, env: &Env, sender: &str, bounty_id: u64, action: RateLimitAction, operation: &str) -> (r: Result<(&'a Bounty, crate::state::RateLimit), ContractError>)
    requires
        state.wf(),
    ensures
        ({
            let refusal = open_bounty_refusal(*state, env.time, sender@, bounty_id, action, operation@);
            &&& r is Err <==> refusal is Some
            &&& r matches Err(e) ==> refusal == Some(e@)
            &&& r matches Ok((b, rl)) ==> *b == state.bounties@[bounty_id] && rl == crate::security::rate_limit_after(
                crate::security::stored_rate_limit(state, sender@),
                env.time,
                action,
            )
        }),
{
    let (bounty, rl) = match bounty_for_owner(state, env, sender, bounty_id, action) {
        Ok(x) => x,
        Err(e) => return Err(e),
    };
    let allowed = [BountyStatus::Open];
    match crate::contract_helpers::validate_bounty_status_for_operation(&bounty.status, &allowed, operation) {
        Ok(()) => {},
        Err(e) => return Err(e),
    }
    Ok((bounty, rl))
}

/// The escrow of bounty `id` after it was released, or the escrows unchanged when it has none.
pub open spec fn escrow_released_if_any(pre: Map<Seq<char>, EscrowState>, key: Seq<char>) -> Map<Seq<char>, EscrowState> {
    if pre.contains_key(key) {
        pre.insert(key, EscrowState { released: true, ..pre[key] })
    } else {
        pre
    }
}

fn release_if_any(state: &mut ContractState, key: &str)
    requires
        old(state).wf(),
        old(state).escrows.entry_seq().len() < usize::MAX,
    ensures
        *final(state) == (ContractState { escrows: final(state).escrows, ..*old(state) }),
        final(state).escrows@ == escrow_released_if_any(old(state).escrows@, key@),
        final(state).escrows.entry_seq().len() <= old(state).escrows.entry_seq().len() + 1,
        final(state).wf(),
{
    match state.escrows.remove(key) {
        Some(e) => {
            let mut e = e;
            e.released = true;
            state.escrows.insert(String::from_str(key), e);
            assert(state.escrows@ =~= escrow_released_if_any(old(state).escrows@, key@));
        },
        None => {
            assert(state.escrows@ =~= old(state).escrows@);
        },
    }
}

/// What `execute_cancel_bounty` does: when it refuses and with which error, and the state and response when it succeeds.
pub open spec fn cancel_bounty_outcome(
    pre: ContractState,
    post: ContractState,
    env: Env,
    info: MessageInfo,
    bounty_id: u64,
    r: Result<Response, ContractError>,
) -> bool {
    let refusal = open_bounty_refusal(pre, env.time, info.sender@, bounty_id, RateLimitAction::CancelBounty, "cancel"@);
    let b = pre.bounties@[bounty_id];
    &&& r is Err <==> refusal is Some
    &&& r matches Err(e) ==> refusal == Some(e@) && post == pre
    &&& r matches Ok(resp) ==> {
        &&& post == (ContractState {
            bounties: post.bounties,
            escrows: post.escrows,
            user_rate_limits: post.user_rate_limits,
            ..pre
        })
        &&& post.bounties@ == pre.bounties@.insert(bounty_id, post.bounties@[bounty_id])
        &&& post.bounties@[bounty_id].same_as(Bounty { status: BountyStatus::Cancelled, updated_at: env.time, ..b })
        &&& post.escrows@ == escrow_released_if_any(pre.escrows@, bounty_key(bounty_id))
        &&& post.user_rate_limits@ == limits_after(pre, env.time, info.sender@, RateLimitAction::CancelBounty)
        &&& resp.msgs() == seq![crate::chain::bank_view(info.sender@, "uusdc"@, b.total_reward)]
        &&& resp.attrs() == crate::contract_helpers::standard_attrs("cancel_bounty"@, bounty_id, info.sender@)
    }
}

/// The poster cancels an open bounty: its escrow is released and the reward paid back.
pub fn execute_cancel_bounty(state: &mut ContractState, env: &Env, info: &MessageInfo, bounty_id: u64) -> (r: Result<Response, ContractError>)
    requires
        old(state).wf(),
        crate::state::tables_have_room(old(state)),
    ensures
        crate::state::room_used(*old(state), *final(state)),
        cancel_bounty_outcome(*old(state), *final(state), *env, *info, bounty_id, r),
        final(state).wf(),
{
    let (bounty, rl) = match open_bounty_for_owner(state, env, info.sender.as_str(), bounty_id, RateLimitAction::CancelBounty, "cancel") {
        Ok(x) => x,
        Err(e) => return Err(e),
    };
    let reward = bounty.total_reward;
    let mut updated = state.bounties.remove(&bounty_id).unwrap();
    updated.status = BountyStatus::Cancelled;
    updated.updated_at = env.time;
    state.bounties.insert(bounty_id, updated);
    let n = u64_to_string(bounty_id);
    let key = crate::text::concat2("bounty_", n.as_str());
    release_if_any(state, key.as_str());
    state.user_rate_limits.insert(info.sender.clone(), rl);
    let attrs = crate::contract_helpers::build_response_attributes("cancel_bounty", bounty_id, info.sender.as_str(), Vec::new());
    let mut messages: Vec<crate::chain::CosmosMsg> = Vec::new();
    messages.push(crate::chain::bank_send(info.sender.clone(), "uusdc", reward));
    let resp = Response { messages, attributes: attrs };
    proof {
        assert(resp.msgs() =~= seq![crate::chain::bank_view(info.sender@, "uusdc"@, reward)]);
        assert(resp.attrs() =~= crate::contract_helpers::standard_attrs("cancel_bounty"@, bounty_id, info.sender@));
        assert(state.bounties@ =~= old(state).bounties@.insert(bounty_id, state.bounties@[bounty_id]));
        assert(*state == (ContractState {
            bounties: state.bounties,
            escrows: state.escrows,
            user_rate_limits: state.user_rate_limits,
            ..*old(state)
        }));
    }
    Ok(resp)
}

/// Why creating the escrow of `bounty_id` is refused, if it is.
pub open spec fn bounty_escrow_refusal(pre: ContractState, now: u64, sender: Seq<char>, bounty_id: u64) -> Option<ErrorView> {
    let owner = bounty_owner_refusal(pre, now, sender, bounty_id, RateLimitAction::CreateBountyEscrow);
    if owner is Some {
        owner
    } else if pre.escrows@.contains_key(bounty_key(bounty_id)) {
        Some(ErrorView::InvalidInput("Escrow already exists for this bounty"@))
    } else {
        None
    }
}

/// What `execute_create_bounty_escrow` does: when it refuses and with which error, and the state and response when it succeeds.
pub open spec fn create_bounty_escrow_outcome(
    pre: ContractState,
    post: ContractState,
    env: Env,
    info: MessageInfo,
    bounty_id: u64,
    r: Result<Response, ContractError>,
) -> bool {
    let refusal = bounty_escrow_refusal(pre, env.time, info.sender@, bounty_id);
    let b = pre.bounties@[bounty_id];
    let key = bounty_key(bounty_id);
    let e = post.escrows@[key];
    &&& r is Err <==> refusal is Some
    &&& r matches Err(x) ==> refusal == Some(x@) && post == pre
    &&& r matches Ok(resp) ==> {
        &&& post == (ContractState { escrows: post.escrows, user_rate_limits: post.user_rate_limits, ..pre })
        &&& post.escrows@ == pre.escrows@.insert(key, e)
        &&& e.id@ == key
        &&& e.job_id == bounty_id
        &&& e.client == b.poster
        &&& e.freelancer == b.poster
        &&& e.amount == b.total_reward
        &&& e.platform_fee == 0
        &&& e.funded_at == env.time
        &&& !e.released
        &&& e.dispute_status == DisputeStatus::NotRaised
        &&& e.dispute_raised_at is None
        &&& e.dispute_deadline is None
        &&& post.user_rate_limits@ == limits_after(pre, env.time, info.sender@, RateLimitAction::CreateBountyEscrow)
        &&& resp.msgs() == Seq::<(bool, Seq<char>, Seq<char>, u128)>::empty()
        &&& resp.attrs() == seq![
            ("method"@, "create_bounty_escrow"@),
            ("bounty_id"@, decimal_chars(bounty_id as nat)),
            ("escrow_id"@, key),
            ("amount"@, decimal_chars(b.total_reward as nat)),
        ]
    }
}

/// The poster opens the escrow of a bounty that has none, holding its whole reward without fee.
pub fn execute_create_bounty_escrow(state: &mut ContractState, env: &Env, info: &MessageInfo, bounty_id: u64) -> (r: Result<Response, ContractError>)
    requires
        old(state).wf(),
        crate::state::tables_have_room(old(state)),
    ensures
        crate::state::room_used(*old(state), *final(state)),
        create_bounty_escrow_outcome(*old(state), *final(state), *env, *info, bounty_id, r),
        final(state).wf(),
{
    let (bounty, rl) = match bounty_for_owner(state, env, info.sender.as_str(), bounty_id, RateLimitAction::CreateBountyEscrow) {
        Ok(x) => x,
        Err(e) => return Err(e),
    };
    let n = u64_to_string(bounty_id);
    let key = crate::text::concat2("bounty_", n.as_str());
    if state.escrows.contains_key(key.as_str()) {
        return Err(invalid_input("Escrow already exists for this bounty"));
    }
    let amount = bounty.total_reward;
    let escrow = EscrowState {
        id: key.clone(),
        job_id: bounty_id,
        client: bounty.poster.clone(),
        freelancer: bounty.poster.clone(),
        amount,
        platform_fee: 0,
        funded_at: env.time,
        released: false,
        dispute_status: DisputeStatus::NotRaised,
        dispute_raised_at: None,
        dispute_deadline: None,
    };
    state.escrows.insert(key.clone(), escrow);
    state.user_rate_limits.insert(info.sender.clone(), rl);
    let resp = Response::new();
    let resp = resp.add_attribute("method", String::from_str("create_bounty_escrow"));
    let resp = resp.add_attribute("bounty_id", u64_to_string(bounty_id));
    let resp = resp.add_attribute("escrow_id", key);
    let resp = resp.add_attribute("amount", u128_to_string(amount));
    proof {
        assert(resp.attrs() =~= seq![
            ("method"@, "create_bounty_escrow"@),
            ("bounty_id"@, decimal_chars(bounty_id as nat)),
            ("escrow_id"@, bounty_key(bounty_id)),
            ("amount"@, decimal_chars(amount as nat)),
        ]);
        assert(*state == (ContractState { escrows: state.escrows, user_rate_limits: state.user_rate_limits, ..*old(state) }));
    }
    Ok(resp)
}

/// Why releasing the rewards of `bounty_id` is refused, if it is.
pub open spec fn release_rewards_refusal(pre: ContractState, now: u64, sender: Seq<char>, bounty_id: u64) -> Option<ErrorView> {
    let owner = bounty_owner_refusal(pre, now, sender, bounty_id, RateLimitAction::ReleaseBountyRewards);
    let b = pre.bounties@[bounty_id];
    if owner is Some {
        owner
    } else if b.status != BountyStatus::Completed {
        Some(ErrorView::InvalidInput("Bounty must be completed to release rewards"@))
    } else if b.selected_winners@.len() == 0 {
        Some(ErrorView::InvalidInput("No winners selected for this bounty"@))
    } else {
        None
    }
}

/// The payments of the rewards of the first `n` winners, in order; a winner without stored
/// submission or without tier is skipped.
pub open spec fn reward_msgs(pre: ContractState, b: Bounty, n: nat) -> Seq<(bool, Seq<char>, Seq<char>, u128)>
    decreases n,
{
    if n == 0 {
        Seq::empty()
    } else {
        let i = n - 1;
        let sid = b.selected_winners@[i];
        reward_msgs(pre, b, i as nat) + if pre.bounty_submissions@.contains_key(sid) && i < b.reward_distribution@.len() {
            seq![crate::chain::bank_view(pre.bounty_submissions@[sid].submitter@, "uusdc"@, b.reward_distribution@[i].amount)]
        } else {
            Seq::empty()
        }
    }
}

/// What `execute_release_bounty_rewards` does: when it refuses and with which error, and the state and response when it succeeds.
pub open spec fn release_bounty_rewards_outcome(
    pre: ContractState,
    post: ContractState,
    env: Env,
    info: MessageInfo,
    bounty_id: u64,
    r: Result<Response, ContractError>,
) -> bool {
    let refusal = release_rewards_refusal(pre, env.time, info.sender@, bounty_id);
    let b = pre.bounties@[bounty_id];
    &&& r is Err <==> refusal is Some
    &&& r matches Err(e) ==> refusal == Some(e@) && post == pre
    &&& r matches Ok(resp) ==> {
        &&& post == (ContractState { escrows: post.escrows, user_rate_limits: post.user_rate_limits, ..pre })
        &&& post.escrows@ == escrow_released_if_any(pre.escrows@, bounty_key(bounty_id))
        &&& post.user_rate_limits@ == limits_after(pre, env.time, info.sender@, RateLimitAction::ReleaseBountyRewards)
        &&& resp.msgs() == reward_msgs(pre, b, b.selected_winners@.len())
        &&& resp.attrs() == seq![("method"@, "release_bounty_rewards"@), ("bounty_id"@, decimal_chars(bounty_id as nat))]
    }
}

/// The poster of a completed bounty releases its escrow and pays each selected winner its tier's amount.
pub fn execute_release_bounty_rewards(state: &mut ContractState, env: &Env, info: &MessageInfo, bounty_id: u64) -> (r: Result<Response, ContractError>)
    requires
        old(state).wf(),
        crate::state::tables_have_room(old(state)),
    ensures
        crate::state::room_used(*old(state), *final(state)),
        release_bounty_rewards_outcome(*old(state), *final(state), *env, *info, bounty_id, r),
        final(state).wf(),
{
    let (bounty, rl) = match bounty_for_owner(state, env, info.sender.as_str(), bounty_id, RateLimitAction::ReleaseBountyRewards) {
        Ok(x) => x,
        Err(e) => return Err(e),
    };
    if bounty.status != BountyStatus::Completed {
        return Err(invalid_input("Bounty must be completed to release rewards"));
    }
    if bounty.selected_winners.len() == 0 {
        return Err(invalid_input("No winners selected for this bounty"));
    }
    let ghost b0 = *bounty;
    let resp0 = Response::new().add_attribute("method", String::from_str("release_bounty_rewards"));
    let mut resp = resp0.add_attribute("bounty_id", u64_to_string(bounty_id));
    let n = bounty.selected_winners.len();
    let mut i: usize = 0;
    while i < n
        invariant
            n == b0.selected_winners@.len(),
            i <= n,
            *bounty == b0,
            *state == *old(state),
            resp.msgs() == reward_msgs(*old(state), b0, i as nat),
            resp.attrs() == seq![("method"@, "release_bounty_rewards"@), ("bounty_id"@, decimal_chars(bounty_id as nat))],
        decreases n - i,
    {
        let sid = bounty.selected_winners[i];
        match state.bounty_submissions.get(&sid) {
            Some(sub) => {
                if i < bounty.reward_distribution.len() {
                    let amount = bounty.reward_distribution[i].amount;
                    resp = resp.add_message(crate::chain::bank_send(sub.submitter.clone(), "uusdc", amount));
                }
            },
            None => {},
        }
        proof {
            assert(resp.msgs() =~= reward_msgs(*old(state), b0, (i + 1) as nat));
        }
        i = i + 1;
    }
    let n2 = u64_to_string(bounty_id);
    let key = crate::text::concat2("bounty_", n2.as_str());
    release_if_any(state, key.as_str());
    state.user_rate_limits.insert(info.sender.clone(), rl);
    proof {
        assert(*state == (ContractState { escrows: state.escrows, user_rate_limits: state.user_rate_limits, ..*old(state) }));
    }
    Ok(resp)
}

/// The kind named when a stored text is missing.
pub open spec fn string_kind() -> Seq<char> {
    "String"@
}

/// The kind named when a content hash record is missing.
pub open spec fn content_hash_kind() -> Seq<char> {
    "ContentHash"@
}

/// Why editing `bounty_id` is refused, if it is. When its content changes, the texts checked are
/// the new title and description, or placeholders for those not given.
pub open spec fn edit_bounty_refusal(
    pre: ContractState,
    now: u64,
    sender: Seq<char>,
    bounty_id: u64,
    content_update: bool,
    title: Seq<char>,
    description: Seq<char>,
) -> Option<ErrorView> {
    let open = open_bounty_refusal(pre, now, sender, bounty_id, RateLimitAction::EditBounty, "edit"@);
    let key = bounty_key(bounty_id);
    let text = text_inputs_refusal(title, description, None, None);
    if open is Some {
        open
    } else if content_update && !pre.entity_to_hash@.contains_key(key) {
        Some(ErrorView::Std(StdErrorView::NotFound { kind: string_kind() }))
    } else if content_update && !pre.content_hashes@.contains_key(pre.entity_to_hash@[key]@) {
        Some(ErrorView::Std(StdErrorView::NotFound { kind: content_hash_kind() }))
    } else if content_update && text is Some {
        text
    } else if content_update && !valid_job_title(title) {
        Some(ErrorView::InvalidInput("Title must be between 5-100 characters"@))
    } else if content_update && !valid_job_description(description) {
        Some(ErrorView::InvalidInput("Description must be between 10-1000 characters"@))
    } else {
        None
    }
}

/// The texts checked when a bounty's content changes: the given ones, or placeholders.
pub open spec fn edited_title(title: Option<Seq<char>>) -> Seq<char> {
    match title {
        Some(t) => t,
        None => "Updated Bounty"@,
    }
}

/// The description checked when a bounty's content changes: the given one, or a placeholder.
pub open spec fn edited_description(description: Option<Seq<char>>) -> Seq<char> {
    match description {
        Some(d) => d,
        None => "Updated description"@,
    }
}

/// What `execute_edit_bounty` does: when it refuses and with which error, and the state and response when it succeeds.
pub open spec fn edit_bounty_outcome(
    pre: ContractState,
    post: ContractState,
    env: Env,
    info: MessageInfo,
    bounty_id: u64,
    title: Option<Seq<char>>,
    description: Option<Seq<char>>,
    content_update: bool,
    submission_deadline_days: Option<u64>,
    review_period_days: Option<u64>,
    bundle_json: Seq<char>,
    r: Result<Response, ContractError>,
) -> bool {
    let refusal = edit_bounty_refusal(pre, env.time, info.sender@, bounty_id, content_update, edited_title(title), edited_description(description));
    let b = pre.bounties@[bounty_id];
    let nb = post.bounties@[bounty_id];
    let key = bounty_key(bounty_id);
    let h = content_hash_chars(bundle_json);
    &&& r is Err <==> refusal is Some
    &&& r matches Err(e) ==> refusal == Some(e@) && post == pre
    &&& r matches Ok(resp) ==> {
        &&& post.bounties@ == pre.bounties@.insert(bounty_id, nb)
        &&& nb.same_as(Bounty {
            submission_deadline: match submission_deadline_days {
                Some(d) => days_after(env.time, d) as u64,
                None => b.submission_deadline,
            },
            review_period_days: match review_period_days {
                Some(d) => d,
                None => b.review_period_days,
            },
            content_hash: nb.content_hash,
            updated_at: env.time,
            ..b
        })
        &&& post.user_rate_limits@ == limits_after(pre, env.time, info.sender@, RateLimitAction::EditBounty)
        &&& if content_update {
            &&& post == (ContractState {
                bounties: post.bounties,
                user_rate_limits: post.user_rate_limits,
                content_hashes: post.content_hashes,
                hash_to_entity: post.hash_to_entity,
                entity_to_hash: post.entity_to_hash,
                bounties_by_category: post.bounties_by_category,
                bounties_by_reward_range: post.bounties_by_reward_range,
                bounties_by_skill: post.bounties_by_skill,
                bounties_by_difficulty: post.bounties_by_difficulty,
                active_bounties: post.active_bounties,
                featured_bounties: post.featured_bounties,
                ..pre
            })
            &&& content_hash_parts(nb.content_hash) == content_hash_of(bundle_json, "bounty_content"@, seconds_of(env.time) as u64)
            &&& post.content_hashes@ == pre.content_hashes@.insert(h, nb.content_hash)
            &&& post.hash_to_entity@ == pre.hash_to_entity@.insert(h, post.hash_to_entity@[h])
            &&& post.hash_to_entity@[h]@ == key
            &&& post.entity_to_hash@ == pre.entity_to_hash@.insert(key, post.entity_to_hash@[key])
            &&& post.entity_to_hash@[key]@ == h
            &&& indexed(with_indexes_of(post, pre), post, nb)
        } else {
            &&& post == (ContractState { bounties: post.bounties, user_rate_limits: post.user_rate_limits, ..pre })
            &&& nb.content_hash == b.content_hash
        }
        &&& resp.msgs() == Seq::<(bool, Seq<char>, Seq<char>, u128)>::empty()
        &&& resp.attrs() == crate::contract_helpers::standard_attrs("edit_bounty"@, bounty_id, info.sender@)
    }
}

/// The poster edits an open bounty. When any text changes (`content_update`), `bundle_json` is the
/// new serialized content bundle: its hash replaces the bounty's and the bounty is listed again
/// in the search indexes.
pub fn execute_edit_bounty(
    state: &mut ContractState,
    env: &Env,
    info: &MessageInfo,
    bounty_id: u64,
    title: Option<&str>,
    description: Option<&str>,
    content_update: bool,
    submission_deadline_days: Option<u64>,
    review_period_days: Option<u64>,
    bundle_json: &str,
) -> (r: Result<Response, ContractError>)
    requires
        old(state).wf(),
        crate::state::tables_have_room(old(state)),
        edit_bounty_refusal(*old(state), env.time, info.sender@, bounty_id, content_update, edited_title(crate::jobs::opt_str(title)), edited_description(crate::jobs::opt_str(description))) is None
            ==> (submission_deadline_days matches Some(d) ==> days_after(env.time, d) <= u64::MAX),
    ensures
        crate::state::room_used(*old(state), *final(state)),
        edit_bounty_outcome(*old(state), *final(state), *env, *info, bounty_id, crate::jobs::opt_str(title), crate::jobs::opt_str(description), content_update, submission_deadline_days, review_period_days, bundle_json@, r),
        final(state).wf(),
{
    let (_bounty, rl) = match open_bounty_for_owner(state, env, info.sender.as_str(), bounty_id, RateLimitAction::EditBounty, "edit") {
        Ok(x) => x,
        Err(e) => return Err(e),
    };
    let n = u64_to_string(bounty_id);
    let key = crate::text::concat2("bounty_", n.as_str());
    let mut new_content: Option<(String, ContentHash)> = None;
    if content_update {
        let current = match state.entity_to_hash.get(key.as_str()) {
            Some(h) => h,
            None => return Err(crate::error::not_found("String")),
        };
        if !state.content_hashes.contains_key(current.as_str()) {
            return Err(crate::error::not_found("ContentHash"));
        }
        let t = match title {
            Some(t) => t,
            None => "Updated Bounty",
        };
        let d = match description {
            Some(d) => d,
            None => "Updated description",
        };
        match crate::security::validate_text_inputs(t, d, None, None) {
            Ok(()) => {},
            Err(e) => return Err(e),
        }
        match crate::helpers::validate_job_title(t) {
            Ok(()) => {},
            Err(e) => return Err(e),
        }
        match crate::helpers::validate_job_description(d) {
            Ok(()) => {},
            Err(e) => return Err(e),
        }
        new_content = match crate::hash_utils::bundle_content_hash(bundle_json, "bounty_content", seconds(env.time)) {
            Ok(x) => Some(x),
            Err(e) => return Err(ContractError::Std(e)),
        };
    }
    let deadline = match submission_deadline_days {
        Some(d) => Some(crate::helpers::get_future_timestamp(env.time, d)),
        None => None,
    };
    let mut updated = state.bounties.remove(&bounty_id).unwrap();
    if let Some((hash, content_hash)) = new_content {
        state.content_hashes.insert(hash.clone(), content_hash.copy());
        state.hash_to_entity.insert(hash.clone(), key.clone());
        state.entity_to_hash.insert(key.clone(), hash);
        updated.content_hash = content_hash;
    }
    if let Some(dl) = deadline {
        updated.submission_deadline = dl;
    }
    if let Some(rp) = review_period_days {
        updated.review_period_days = rp;
    }
    updated.updated_at = env.time;
    let ghost before_index = *state;
    if content_update {
        update_bounty_search_indexes(state, &updated);
    }
    let ghost after_index = *state;
    state.bounties.insert(bounty_id, updated);
    state.user_rate_limits.insert(info.sender.clone(), rl);
    let attrs = crate::contract_helpers::build_response_attributes("edit_bounty", bounty_id, info.sender.as_str(), Vec::new());
    let resp = Response { messages: Vec::new(), attributes: attrs };
    proof {
        let nb = state.bounties@[bounty_id];
        assert(resp.msgs() =~= Seq::<(bool, Seq<char>, Seq<char>, u128)>::empty());
        assert(resp.attrs() =~= crate::contract_helpers::standard_attrs("edit_bounty"@, bounty_id, info.sender@));
        assert(state.bounties@ =~= old(state).bounties@.insert(bounty_id, nb));
        if content_update {
            assert(indexed(before_index, after_index, nb));
            assert(with_indexes_of(*state, *old(state)) == (ContractState {
                bounties: state.bounties,
                user_rate_limits: state.user_rate_limits,
                ..before_index
            }));
            assert(*state == (ContractState {
                bounties: state.bounties,
                user_rate_limits: state.user_rate_limits,
                ..after_index
            }));
        }
    }
    Ok(resp)
}

/// The name a submission status is shown with.
pub open spec fn submission_status_name(s: BountySubmissionStatus) -> Seq<char> {
    match s {
        BountySubmissionStatus::Submitted => "Submitted"@,
        BountySubmissionStatus::UnderReview => "UnderReview"@,
        BountySubmissionStatus::Approved => "Approved"@,
        BountySubmissionStatus::Rejected => "Rejected"@,
        BountySubmissionStatus::Winner => "Winner"@,
        BountySubmissionStatus::Withdrawn => "Withdrawn"@,
    }
}

fn submission_status_string(s: BountySubmissionStatus) -> (r: String)
    ensures
        r@ == submission_status_name(s),
{
    match s {
        BountySubmissionStatus::Submitted => String::from_str("Submitted"),
        BountySubmissionStatus::UnderReview => String::from_str("UnderReview"),
        BountySubmissionStatus::Approved => String::from_str("Approved"),
        BountySubmissionStatus::Rejected => String::from_str("Rejected"),
        BountySubmissionStatus::Winner => String::from_str("Winner"),
        BountySubmissionStatus::Withdrawn => String::from_str("Withdrawn"),
    }
}

/// Why reviewing submission `submission_id` is refused, if it is.
pub open spec fn review_refusal(
    pre: ContractState,
    now: u64,
    sender: Seq<char>,
    submission_id: u64,
    notes: Option<Seq<char>>,
    score: Option<u8>,
) -> Option<ErrorView> {
    let sec = security_refusal(pre, now, sender, RateLimitAction::ReviewBountySubmission);
    let sub = pre.bounty_submissions@[submission_id];
    let key = submission_key(submission_id);
    if sec is Some {
        sec
    } else if !pre.bounty_submissions@.contains_key(submission_id) {
        Some(ErrorView::Std(StdErrorView::NotFound { kind: submission_kind() }))
    } else if !pre.bounties@.contains_key(sub.bounty_id) {
        Some(ErrorView::Std(StdErrorView::NotFound { kind: bounty_kind() }))
    } else if pre.bounties@[sub.bounty_id].poster@ != sender {
        Some(ErrorView::Unauthorized)
    } else if notes matches Some(n) && !length_ok(n, 1, 1000) {
        Some(ErrorView::InvalidInput(length_message("Review notes"@, 1, 1000)))
    } else if score matches Some(v) && v > 100 {
        Some(ErrorView::InvalidInput("Score must be between 0 and 100"@))
    } else if notes is Some && !pre.entity_to_hash@.contains_key(key) {
        Some(ErrorView::Std(StdErrorView::NotFound { kind: string_kind() }))
    } else {
        None
    }
}

/// What `execute_review_bounty_submission` does: when it refuses and with which error, and the state and response when it succeeds.
pub open spec fn review_bounty_submission_outcome(
    pre: ContractState,
    post: ContractState,
    env: Env,
    info: MessageInfo,
    submission_id: u64,
    status: BountySubmissionStatus,
    reviewer_notes: Option<Seq<char>>,
    score: Option<u8>,
    bundle_json: Seq<char>,
    r: Result<Response, ContractError>,
) -> bool {
    let refusal = review_refusal(pre, env.time, info.sender@, submission_id, reviewer_notes, score);
    let sub = pre.bounty_submissions@[submission_id];
    let ns = post.bounty_submissions@[submission_id];
    let key = submission_key(submission_id);
    let h = content_hash_chars(bundle_json);
    &&& r is Err <==> refusal is Some
    &&& r matches Err(e) ==> refusal == Some(e@) && post == pre
    &&& r matches Ok(resp) ==> {
        &&& post == (ContractState {
            bounty_submissions: post.bounty_submissions,
            content_hashes: post.content_hashes,
            hash_to_entity: post.hash_to_entity,
            entity_to_hash: post.entity_to_hash,
            user_rate_limits: post.user_rate_limits,
            ..pre
        })
        &&& post.bounty_submissions@ == pre.bounty_submissions@.insert(submission_id, ns)
        &&& ns == (BountySubmission { status, score, content_hash: ns.content_hash, ..sub })
        &&& if reviewer_notes is Some {
            &&& content_hash_parts(ns.content_hash) == content_hash_of(bundle_json, "bounty_submission_content"@, seconds_of(env.time) as u64)
            &&& post.content_hashes@ == pre.content_hashes@.insert(h, ns.content_hash)
            &&& post.hash_to_entity@ == pre.hash_to_entity@.insert(h, post.hash_to_entity@[h])
            &&& post.hash_to_entity@[h]@ == key
            &&& post.entity_to_hash@ == pre.entity_to_hash@.insert(key, post.entity_to_hash@[key])
            &&& post.entity_to_hash@[key]@ == h
        } else {
            &&& ns.content_hash == sub.content_hash
            &&& post.content_hashes == pre.content_hashes
            &&& post.hash_to_entity == pre.hash_to_entity
            &&& post.entity_to_hash == pre.entity_to_hash
        }
        &&& post.user_rate_limits@ == limits_after(pre, env.time, info.sender@, RateLimitAction::ReviewBountySubmission)
        &&& resp.msgs() == Seq::<(bool, Seq<char>, Seq<char>, u128)>::empty()
        &&& resp.attrs() == crate::contract_helpers::standard_attrs("review_bounty_submission"@, submission_id, info.sender@)
            + seq![("status"@, submission_status_name(status))]
    }
}

/// The bounty's poster reviews a submission: sets its status and score. With review notes,
/// `bundle_json` is the new serialized content bundle, whose hash replaces the submission's.
pub fn execute_review_bounty_submission(
    state: &mut ContractState,
    env: &Env,
    info: &MessageInfo,
    submission_id: u64,
    status: BountySubmissionStatus,
    reviewer_notes: Option<&str>,
    score: Option<u8>,
    bundle_json: &str,
) -> (r: Result<Response, ContractError>)
    requires
        old(state).wf(),
        crate::state::tables_have_room(old(state)),
    ensures
        crate::state::room_used(*old(state), *final(state)),
        review_bounty_submission_outcome(*old(state), *final(state), *env, *info, submission_id, status, crate::jobs::opt_str(reviewer_notes), score, bundle_json@, r),
        final(state).wf(),
{
    let rl = match crate::jobs::security_checks(state, env, info.sender.as_str(), RateLimitAction::ReviewBountySubmission) {
        Ok(rl) => rl,
        Err(e) => return Err(e),
    };
    let sub = match state.bounty_submissions.get(&submission_id) {
        Some(x) => x,
        None => return Err(crate::error::not_found("BountySubmission")),
    };
    let bounty = match state.bounties.get(&sub.bounty_id) {
        Some(b) => b,
        None => return Err(crate::error::not_found("Bounty")),
    };
    match crate::contract_helpers::validate_user_authorization(bounty.poster.as_str(), info.sender.as_str()) {
        Ok(()) => {},
        Err(e) => return Err(e),
    }
    if let Some(notes) = reviewer_notes {
        match crate::contract_helpers::validate_string_field(notes, "Review notes", 1, 1000) {
            Ok(()) => {},
            Err(e) => return Err(e),
        }
    }
    if let Some(v) = score {
        if v > 100 {
            return Err(invalid_input("Score must be between 0 and 100"));
        }
    }
    let n = u64_to_string(submission_id);
    let key = crate::text::concat2("bounty_submission_", n.as_str());
    let mut new_content: Option<(String, ContentHash)> = None;
    if reviewer_notes.is_some() {
        if !state.entity_to_hash.contains_key(key.as_str()) {
            return Err(crate::error::not_found("String"));
        }
        new_content = match crate::hash_utils::bundle_content_hash(bundle_json, "bounty_submission_content", seconds(env.time)) {
            Ok(x) => Some(x),
            Err(e) => return Err(ContractError::Std(e)),
        };
    }
    let mut updated = state.bounty_submissions.remove(&submission_id).unwrap();
    updated.status = status;
    updated.score = score;
    if let Some((hash, content_hash)) = new_content {
        state.content_hashes.insert(hash.clone(), content_hash.copy());
        state.hash_to_entity.insert(hash.clone(), key.clone());
        state.entity_to_hash.insert(key, hash);
        updated.content_hash = content_hash;
    }
    state.bounty_submissions.insert(submission_id, updated);
    state.user_rate_limits.insert(info.sender.clone(), rl);
    let mut extra: Vec<(&str, String)> = Vec::new();
    extra.push(("status", submission_status_string(status)));
    let attrs = crate::contract_helpers::build_response_attributes("review_bounty_submission", submission_id, info.sender.as_str(), extra);
    let resp = Response { messages: Vec::new(), attributes: attrs };
    proof {
        assert(resp.msgs() =~= Seq::<(bool, Seq<char>, Seq<char>, u128)>::empty());
        assert(resp.attrs() =~= crate::contract_helpers::standard_attrs("review_bounty_submission"@, submission_id, info.sender@)
            + seq![("status"@, submission_status_name(status))]);
        assert(state.bounty_submissions@ =~= old(state).bounty_submissions@.insert(submission_id, state.bounty_submissions@[submission_id]));
    }
    Ok(resp)
}

/// Why editing or withdrawing submission `submission_id` is refused before its own checks, if it is.
pub open spec fn submitter_refusal(pre: ContractState, now: u64, sender: Seq<char>, submission_id: u64, action: RateLimitAction) -> Option<ErrorView> {
    let sec = security_refusal(pre, now, sender, action);
    if sec is Some {
        sec
    } else if !pre.bounty_submissions@.contains_key(submission_id) {
        Some(ErrorView::Std(StdErrorView::NotFound { kind: submission_kind() }))
    } else if pre.bounty_submissions@[submission_id].submitter@ != sender {
        Some(ErrorView::Unauthorized)
    } else {
        None
    }
}

/// What `execute_edit_bounty_submission` does: when it refuses and with which error, and the state and response when it succeeds.
pub open spec fn edit_bounty_submission_outcome(
    pre: ContractState,
    post: ContractState,
    env: Env,
    info: MessageInfo,
    submission_id: u64,
    bundle_json: Seq<char>,
    r: Result<Response, ContractError>,
) -> bool {
    let first = submitter_refusal(pre, env.time, info.sender@, submission_id, RateLimitAction::EditBountySubmission);
    let sub = pre.bounty_submissions@[submission_id];
    let refusal = if first is Some {
        first
    } else if sub.status != BountySubmissionStatus::Submitted {
        Some(ErrorView::InvalidInput("Can only edit submissions that are still pending review"@))
    } else {
        None
    };
    let ns = post.bounty_submissions@[submission_id];
    let h = content_hash_chars(bundle_json);
    &&& r is Err <==> refusal is Some
    &&& r matches Err(e) ==> refusal == Some(e@) && post == pre
    &&& r matches Ok(resp) ==> {
        &&& post == (ContractState {
            bounty_submissions: post.bounty_submissions,
            user_rate_limits: post.user_rate_limits,
            ..pre
        })
        &&& post.bounty_submissions@ == pre.bounty_submissions@.insert(submission_id, ns)
        &&& ns == (BountySubmission { content_hash: ns.content_hash, ..sub })
        &&& content_hash_parts(ns.content_hash) == (h, "bounty_submission"@, crate::text::blen(h), seconds_of(env.time) as u64)
        &&& post.user_rate_limits@ == limits_after(pre, env.time, info.sender@, RateLimitAction::EditBountySubmission)
        &&& resp.msgs() == Seq::<(bool, Seq<char>, Seq<char>, u128)>::empty()
        &&& resp.attrs() == seq![
            ("method"@, "edit_bounty_submission"@),
            ("submission_id"@, decimal_chars(submission_id as nat)),
            ("content_hash"@, h),
            ("editor"@, info.sender@),
        ]
    }
}

/// The submitter edits a submission still awaiting review. `bundle_json` is the new serialized
/// content bundle; the submission records its hash.
pub fn execute_edit_bounty_submission(
    state: &mut ContractState,
    env: &Env,
    info: &MessageInfo,
    submission_id: u64,
    bundle_json: &str,
) -> (r: Result<Response, ContractError>)
    requires
        old(state).wf(),
        crate::state::tables_have_room(old(state)),
    ensures
        crate::state::room_used(*old(state), *final(state)),
        edit_bounty_submission_outcome(*old(state), *final(state), *env, *info, submission_id, bundle_json@, r),
        final(state).wf(),
{
    let rl = match crate::jobs::security_checks(state, env, info.sender.as_str(), RateLimitAction::EditBountySubmission) {
        Ok(rl) => rl,
        Err(e) => return Err(e),
    };
    let sub = match state.bounty_submissions.get(&submission_id) {
        Some(x) => x,
        None => return Err(crate::error::not_found("BountySubmission")),
    };
    if !crate::text::str_eq(sub.submitter.as_str(), info.sender.as_str()) {
        return Err(ContractError::Unauthorized {  });
    }
    if sub.status != BountySubmissionStatus::Submitted {
        return Err(invalid_input("Can only edit submissions that are still pending review"));
    }
    let hash = match crate::hash_utils::generate_content_hash(bundle_json) {
        Ok(h) => h,
        Err(e) => return Err(ContractError::Std(e)),
    };
    let size = hash.as_str().len() as u64;
    let content_hash = ContentHash {
        hash: hash.clone(),
        data_type: String::from_str("bounty_submission"),
        size_bytes: size,
        timestamp: seconds(env.time),
    };
    let mut updated = state.bounty_submissions.remove(&submission_id).unwrap();
    updated.content_hash = content_hash;
    state.bounty_submissions.insert(submission_id, updated);
    state.user_rate_limits.insert(info.sender.clone(), rl);
    let resp = Response::new();
    let resp = resp.add_attribute("method", String::from_str("edit_bounty_submission"));
    let resp = resp.add_attribute("submission_id", u64_to_string(submission_id));
    let resp = resp.add_attribute("content_hash", hash);
    let resp = resp.add_attribute("editor", info.sender.clone());
    proof {
        assert(resp.attrs() =~= seq![
            ("method"@, "edit_bounty_submission"@),
            ("submission_id"@, decimal_chars(submission_id as nat)),
            ("content_hash"@, content_hash_chars(bundle_json@)),
            ("editor"@, info.sender@),
        ]);
        assert(state.bounty_submissions@ =~= old(state).bounty_submissions@.insert(submission_id, state.bounty_submissions@[submission_id]));
        assert(*state == (ContractState {
            bounty_submissions: state.bounty_submissions,
            user_rate_limits: state.user_rate_limits,
            ..*old(state)
        }));
    }
    Ok(resp)
}

/// What `execute_withdraw_bounty_submission` does: when it refuses and with which error, and the state and response when it succeeds.
pub open spec fn withdraw_bounty_submission_outcome(
    pre: ContractState,
    post: ContractState,
    env: Env,
    info: MessageInfo,
    submission_id: u64,
    r: Result<Response, ContractError>,
) -> bool {
    let first = submitter_refusal(pre, env.time, info.sender@, submission_id, RateLimitAction::WithdrawBountySubmission);
    let sub = pre.bounty_submissions@[submission_id];
    let refusal = if first is Some {
        first
    } else if sub.status == BountySubmissionStatus::Winner {
        Some(ErrorView::InvalidInput("Cannot withdraw a winning submission"@))
    } else {
        None
    };
    let bid = sub.bounty_id;
    &&& r is Err <==> refusal is Some
    &&& r matches Err(e) ==> refusal == Some(e@) && post == pre
    &&& r matches Ok(resp) ==> {
        &&& post == (ContractState {
            bounty_submissions: post.bounty_submissions,
            bounty_submissions_by_bounty: post.bounty_submissions_by_bounty,
            user_rate_limits: post.user_rate_limits,
            ..pre
        })
        &&& post.bounty_submissions@ == pre.bounty_submissions@.insert(
            submission_id,
            BountySubmission { status: BountySubmissionStatus::Withdrawn, ..sub },
        )
        &&& post.bounty_submissions_by_bounty@ == pre.bounty_submissions_by_bounty@.insert(
            bid,
            post.bounty_submissions_by_bounty@[bid],
        )
        &&& post.bounty_submissions_by_bounty@[bid]@ == crate::jobs::without_id(
            crate::jobs::ids_in(pre.bounty_submissions_by_bounty@, bid),
            submission_id,
        )
        &&& post.user_rate_limits@ == limits_after(pre, env.time, info.sender@, RateLimitAction::WithdrawBountySubmission)
        &&& resp.msgs() == Seq::<(bool, Seq<char>, Seq<char>, u128)>::empty()
        &&& resp.attrs() == seq![
            ("method"@, "withdraw_bounty_submission"@),
            ("submission_id"@, decimal_chars(submission_id as nat)),
            ("bounty_id"@, decimal_chars(bid as nat)),
            ("submitter"@, info.sender@),
        ]
    }
}

/// The submitter withdraws a submission that has not won; it leaves the bounty's list.
pub fn execute_withdraw_bounty_submission(state: &mut ContractState, env: &Env, info: &MessageInfo, submission_id: u64) -> (r: Result<Response, ContractError>)
    requires
        old(state).wf(),
        crate::state::tables_have_room(old(state)),
    ensures
        crate::state::room_used(*old(state), *final(state)),
        withdraw_bounty_submission_outcome(*old(state), *final(state), *env, *info, submission_id, r),
        final(state).wf(),
{
    let rl = match crate::jobs::security_checks(state, env, info.sender.as_str(), RateLimitAction::WithdrawBountySubmission) {
        Ok(rl) => rl,
        Err(e) => return Err(e),
    };
    let sub = match state.bounty_submissions.get(&submission_id) {
        Some(x) => x,
        None => return Err(crate::error::not_found("BountySubmission")),
    };
    if !crate::text::str_eq(sub.submitter.as_str(), info.sender.as_str()) {
        return Err(ContractError::Unauthorized {  });
    }
    if sub.status == BountySubmissionStatus::Winner {
        return Err(invalid_input("Cannot withdraw a winning submission"));
    }
    let bounty_id = sub.bounty_id;
    let list = match state.bounty_submissions_by_bounty.get(&bounty_id) {
        Some(l) => crate::jobs::remove_id(l, submission_id),
        None => Vec::new(),
    };
    proof {
        if !old(state).bounty_submissions_by_bounty@.contains_key(bounty_id) {
            assert(crate::jobs::without_id(Seq::<u64>::empty(), submission_id) =~= Seq::<u64>::empty());
        }
    }
    let mut updated = state.bounty_submissions.remove(&submission_id).unwrap();
    updated.status = BountySubmissionStatus::Withdrawn;
    state.bounty_submissions.insert(submission_id, updated);
    state.bounty_submissions_by_bounty.insert(bounty_id, list);
    state.user_rate_limits.insert(info.sender.clone(), rl);
    let resp = Response::new();
    let resp = resp.add_attribute("method", String::from_str("withdraw_bounty_submission"));
    let resp = resp.add_attribute("submission_id", u64_to_string(submission_id));
    let resp = resp.add_attribute("bounty_id", u64_to_string(bounty_id));
    let resp = resp.add_attribute("submitter", info.sender.clone());
    proof {
        assert(resp.attrs() =~= seq![
            ("method"@, "withdraw_bounty_submission"@),
            ("submission_id"@, decimal_chars(submission_id as nat)),
            ("bounty_id"@, decimal_chars(bounty_id as nat)),
            ("submitter"@, info.sender@),
        ]);
        assert(state.bounty_submissions@ =~= old(state).bounty_submissions@.insert(submission_id, state.bounty_submissions@[submission_id]));
        assert(*state == (ContractState {
            bounty_submissions: state.bounty_submissions,
            bounty_submissions_by_bounty: state.bounty_submissions_by_bounty,
            user_rate_limits: state.user_rate_limits,
            ..*old(state)
        }));
    }
    Ok(resp)
}

} // verus!
