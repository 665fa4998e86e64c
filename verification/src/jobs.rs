//! Jobs and proposals: posting, editing, cancelling, proposing, hiring,
//! completing and rating.
use vstd::prelude::*;
use crate::chain::{days_after, seconds, seconds_of, Env, MessageInfo, Response};
use crate::error::{invalid_input, overflow, ContractError, ErrorView, OverflowError, OverflowOperation};
use crate::escrow::stats_in;
use crate::hash_utils::{content_hash_chars, content_hash_of, content_hash_parts, create_content_hash, generate_content_hash, ContentHash};
use crate::helpers::{valid_job_description, valid_job_title, MIN_PAID_BUDGET};
use crate::security::{
    next_rate_limit, rate_limit_after, rate_limit_error, rate_limited, stored_rate_limit, text_inputs_refusal,
    RateLimitAction, MAX_JOB_DURATION_DAYS,
};
use crate::state::{ContactPreference, ContractState, Proposal, Rating, DisputeStatus, EscrowState, Job, JobStatus, Milestone, RateLimit, UserStats};
use crate::decimal::{next_average_atomics, next_average_fits, ratio_atomics, Decimal, DECIMAL_FRACTIONAL};
use crate::msg::MilestoneInput;
use crate::text::{blen, decimal_chars, lowercase_chars, u128_to_string, u64_to_string};

verus! {

broadcast use vstd::std_specs::hash::group_hash_axioms;

/// Why the daily limit refuses `action` by `sender` at `now`, if it does.
pub open spec fn rate_refusal(pre: ContractState, now: u64, sender: Seq<char>, action: RateLimitAction) -> Option<ErrorView> {
    if rate_limited(stored_rate_limit(&pre, sender), now, action) {
        Some(ErrorView::RateLimitExceeded { action: rate_limit_error(action).0, limit: rate_limit_error(action).1 })
    } else {
        None
    }
}

/// The rate limits after `sender` took `action` at `now`.
pub open spec fn limits_after(pre: ContractState, now: u64, sender: Seq<char>, action: RateLimitAction) -> Map<Seq<char>, RateLimit> {
    pre.user_rate_limits@.insert(sender, rate_limit_after(stored_rate_limit(&pre, sender), now, action))
}

/// The category id a new job gets from its lowercased category name.
pub open spec fn job_category_id(lower: Seq<char>) -> u8 {
    if lower == "web development"@ {
        1
    } else if lower == "mobile development"@ {
        2
    } else if lower == "design"@ {
        3
    } else if lower == "writing"@ {
        4
    } else if lower == "marketing"@ {
        5
    } else {
        99
    }
}

/// The budget range of a job: 1 below 500, 2 below 5000, else 3.
pub open spec fn budget_range_of(budget: u128) -> u8 {
    if budget < 500 {
        1
    } else if budget < 5000 {
        2
    } else {
        3
    }
}

/// The skill tags of a new job with `n` skills.
pub open spec fn skill_tags_for(n: nat) -> Seq<u8> {
    Seq::new(n, |i: int| (i % 50) as u8)
}

/// The sum of the amounts of a list of milestones.
pub open spec fn milestone_total(ms: Seq<MilestoneInput>) -> nat
    decreases ms.len(),
{
    if ms.len() == 0 {
        0
    } else {
        milestone_total(ms.drop_last()) + ms.last().amount as nat
    }
}

/// Why the milestones given with a job are refused, if they are: each needs a title and a
/// positive amount, and together their amounts must make up the budget.
pub open spec fn milestones_refusal(milestones: Option<Vec<MilestoneInput>>, budget: u128) -> Option<ErrorView> {
    match milestones {
        None => None,
        Some(v) => {
            let ms = v@;
            if exists|i: int| 0 <= i < ms.len() && (#[trigger] ms[i]).title@.len() == 0 {
                Some(ErrorView::InvalidInput("Milestone titles must not be empty"@))
            } else if exists|i: int| 0 <= i < ms.len() && (#[trigger] ms[i]).amount == 0 {
                Some(ErrorView::InvalidInput("Milestone amounts must be greater than zero"@))
            } else if milestone_total(ms) != budget {
                Some(ErrorView::InvalidInput("Milestone amounts must add up to the budget"@))
            } else {
                None
            }
        },
    }
}

proof fn lemma_milestone_total_prefix(ms: Seq<MilestoneInput>, n: int)
    requires
        0 <= n <= ms.len(),
    ensures
        milestone_total(ms.subrange(0, n)) <= milestone_total(ms),
    decreases ms.len() - n,
{
    if n < ms.len() {
        lemma_milestone_total_prefix(ms, n + 1);
        assert(ms.subrange(0, n + 1).drop_last() =~= ms.subrange(0, n));
    } else {
        assert(ms.subrange(0, n) =~= ms);
    }
}

/// Checks the milestones given with a job against its budget.
fn check_milestones(milestones: &Option<Vec<MilestoneInput>>, budget: u128) -> (r: Result<(), ContractError>)
    ensures
        r is Err <==> milestones_refusal(*milestones, budget) is Some,
        r matches Err(e) ==> milestones_refusal(*milestones, budget) == Some(e@),
{
    let ms = match milestones {
        Some(v) => v,
        None => return Ok(()),
    };
    let n = ms.len();
    let mut i: usize = 0;
    while i < n
        invariant
            *milestones == Some(*ms),
            n == ms@.len(),
            i <= n,
            forall|k: int| 0 <= k < i ==> (#[trigger] ms@[k]).title@.len() != 0,
        decreases n - i,
    {
        if ms[i].title.as_str().is_empty() {
            assert(ms@[i as int].title@.len() == 0);
            return Err(invalid_input("Milestone titles must not be empty"));
        }
        i = i + 1;
    }
    i = 0;
    while i < n
        invariant
            *milestones == Some(*ms),
            n == ms@.len(),
            i <= n,
            forall|k: int| 0 <= k < n ==> (#[trigger] ms@[k]).title@.len() != 0,
            forall|k: int| 0 <= k < i ==> (#[trigger] ms@[k]).amount != 0,
        decreases n - i,
    {
        if ms[i].amount == 0 {
            assert(ms@[i as int].amount == 0);
            return Err(invalid_input("Milestone amounts must be greater than zero"));
        }
        i = i + 1;
    }
    let mut total: u128 = 0;
    i = 0;
    while i < n
        invariant
            *milestones == Some(*ms),
            n == ms@.len(),
            i <= n,
            total == milestone_total(ms@.subrange(0, i as int)),
            total <= budget,
            forall|k: int| 0 <= k < n ==> (#[trigger] ms@[k]).title@.len() != 0,
            forall|k: int| 0 <= k < n ==> (#[trigger] ms@[k]).amount != 0,
        decreases n - i,
    {
        proof {
            assert(ms@.subrange(0, i + 1).drop_last() =~= ms@.subrange(0, i as int));
        }
        let amount = ms[i].amount;
        if amount > budget - total {
            proof {
                lemma_milestone_total_prefix(ms@, i + 1);
            }
            return Err(invalid_input("Milestone amounts must add up to the budget"));
        }
        total = total + amount;
        i = i + 1;
    }
    proof {
        assert(ms@.subrange(0, n as int) =~= ms@);
    }
    if total != budget {
        return Err(invalid_input("Milestone amounts must add up to the budget"));
    }
    Ok(())
}

/// The milestones given with a job, or none.
pub open spec fn milestone_inputs(milestones: Option<Vec<MilestoneInput>>) -> Seq<MilestoneInput> {
    match milestones {
        Some(v) => v@,
        None => Seq::empty(),
    }
}

/// Whether every milestone deadline, counted from `now`, fits in a timestamp.
pub open spec fn milestone_deadlines_fit(now: u64, milestones: Option<Vec<MilestoneInput>>) -> bool {
    forall|i: int| 0 <= i < milestone_inputs(milestones).len()
        ==> days_after(now, (#[trigger] milestone_inputs(milestones)[i]).deadline_days) <= u64::MAX
}

/// The milestones a job posted at `now` records: numbered from zero in the order given, each
/// with its amount, due its number of days after posting, not completed, and pointing at the
/// job's own content, which holds the milestones' texts.
pub open spec fn milestones_for(ms: Seq<MilestoneInput>, now: u64, hash: ContentHash) -> Seq<Milestone> {
    Seq::new(ms.len(), |i: int| Milestone {
        id: i as u64,
        amount: ms[i].amount,
        deadline: days_after(now, ms[i].deadline_days) as u64,
        completed: false,
        completed_at: None,
        content_hash: hash,
    })
}

/// Builds the milestone records of a new job.
fn build_milestones(milestones: &Option<Vec<MilestoneInput>>, now: u64, hash: &ContentHash) -> (r: Vec<Milestone>)
    requires
        milestone_deadlines_fit(now, *milestones),
    ensures
        r@ == milestones_for(milestone_inputs(*milestones), now, *hash),
{
    let mut r: Vec<Milestone> = Vec::new();
    let ms = match milestones {
        Some(v) => v,
        None => {
            assert(r@ =~= milestones_for(milestone_inputs(*milestones), now, *hash));
            return r;
        },
    };
    let n = ms.len();
    let mut i: usize = 0;
    while i < n
        invariant
            *milestones == Some(*ms),
            n == ms@.len(),
            i <= n,
            milestone_deadlines_fit(now, *milestones),
            r@ == milestones_for(ms@, now, *hash).subrange(0, i as int),
        decreases n - i,
    {
        proof {
            assert(days_after(now, milestone_inputs(*milestones)[i as int].deadline_days) <= u64::MAX);
        }
        let deadline = crate::chain::plus_days(now, ms[i].deadline_days);
        r.push(Milestone {
            id: i as u64,
            amount: ms[i].amount,
            deadline,
            completed: false,
            completed_at: None,
            content_hash: hash.copy(),
        });
        proof {
            assert(r@ =~= milestones_for(ms@, now, *hash).subrange(0, i + 1));
        }
        i = i + 1;
    }
    proof {
        assert(r@ =~= milestones_for(ms@, now, *hash));
    }
    r
}

/// Whether some skill name is empty, computed.
fn has_empty_skill(skills: &Vec<String>) -> (b: bool)
    ensures
        b == exists|i: int| 0 <= i < skills@.len() && (#[trigger] skills@[i])@.len() == 0,
{
    let mut i: usize = 0;
    while i < skills.len()
        invariant
            i <= skills@.len(),
            forall|k: int| 0 <= k < i ==> (#[trigger] skills@[k])@.len() != 0,
        decreases skills@.len() - i,
    {
        if skills[i].as_str().is_empty() {
            return true;
        }
        i = i + 1;
    }
    false
}


/// Why posting a job is refused, if it is.
pub open spec fn post_job_refusal(
    pre: ContractState,
    now: u64,
    sender: Seq<char>,
    title: Seq<char>,
    description: Seq<char>,
    budget: u128,
    category: Seq<char>,
    skills: Seq<String>,
    duration_days: u64,
    milestones: Option<Vec<MilestoneInput>>,
) -> Option<ErrorView> {
    let rl = rate_refusal(pre, now, sender, RateLimitAction::PostJob);
    let skills_count = skills.len();
    let text = text_inputs_refusal(title, description, None, None);
    if rl is Some {
        rl
    } else if text is Some {
        text
    } else if duration_days == 0 || duration_days > MAX_JOB_DURATION_DAYS {
        Some(ErrorView::InvalidInput("Job duration must be between 1 and "@ + decimal_chars(MAX_JOB_DURATION_DAYS as nat) + " days"@))
    } else if pre.config.paused {
        Some(ErrorView::ContractPaused)
    } else if !valid_job_title(title) {
        Some(ErrorView::InvalidInput("Title must be between 5-100 characters"@))
    } else if !valid_job_description(description) {
        Some(ErrorView::InvalidInput("Description must be between 10-1000 characters"@))
    } else if budget != 0 && budget < MIN_PAID_BUDGET {
        Some(ErrorView::EscrowAmountTooLow { min: decimal_chars(MIN_PAID_BUDGET as nat) })
    } else if duration_days > pre.config.max_job_duration_days {
        Some(ErrorView::InvalidInput("Duration must be between 1-"@ + decimal_chars(pre.config.max_job_duration_days as nat) + " days"@))
    } else if category.len() == 0 || blen(category) > 50 {
        Some(ErrorView::InvalidInput("Category must be between 1-50 characters"@))
    } else if skills_count == 0 || skills_count > 20 {
        Some(ErrorView::InvalidInput("Must specify 1-20 skills"@))
    } else if exists|i: int| 0 <= i < skills.len() && (#[trigger] skills[i])@.len() == 0 {
        Some(ErrorView::InvalidInput("Skill names must not be empty"@))
    } else if milestones_refusal(milestones, budget) is Some {
        milestones_refusal(milestones, budget)
    } else if pre.next_job_id == u64::MAX || stats_in(pre.user_stats@, sender).total_jobs_posted == u64::MAX {
        Some(ErrorView::Overflow(OverflowError { operation: OverflowOperation::Add }))
    } else {
        None
    }
}

/// The state and response after `sender` posted job number `pre.next_job_id`.
pub open spec fn job_posted(
    pre: ContractState,
    post: ContractState,
    now: u64,
    sender: String,
    budget: u128,
    category: Seq<char>,
    skills_count: nat,
    duration_days: u64,
    has_milestones: bool,
    milestones: Seq<MilestoneInput>,
    bundle_json: Seq<char>,
    resp: Response,
) -> bool {
    let id = pre.next_job_id;
    let j = post.jobs@[id];
    let s = stats_in(pre.user_stats@, sender@);
    &&& post == (ContractState {
        jobs: post.jobs,
        next_job_id: post.next_job_id,
        job_proposals: post.job_proposals,
        user_stats: post.user_stats,
        user_rate_limits: post.user_rate_limits,
        ..pre
    })
    &&& post.next_job_id == id + 1
    &&& post.jobs@ == pre.jobs@.insert(id, j)
    &&& j.id == id
    &&& j.poster == sender
    &&& j.budget == budget
    &&& j.duration_days == duration_days
    &&& j.status == JobStatus::Open
    &&& j.assigned_freelancer is None
    &&& j.created_at == now
    &&& j.updated_at == now
    &&& j.deadline == days_after(now, duration_days)
    &&& j.escrow_id is None
    &&& j.total_proposals == 0
    &&& content_hash_parts(j.content_hash) == content_hash_of(content_hash_chars(bundle_json), "job_content"@, seconds_of(now) as u64)
    &&& j.category_id == job_category_id(lowercase_chars(category))
    &&& j.skill_tags@ == skill_tags_for(skills_count)
    &&& j.budget_range == budget_range_of(budget)
    &&& j.experience_level == 2
    &&& j.is_remote
    &&& j.has_milestones == has_milestones
    &&& j.milestones@ == milestones_for(milestones, now, j.content_hash)
    &&& j.urgency_level == 2
    &&& post.job_proposals@ == pre.job_proposals@.insert(id, post.job_proposals@[id])
    &&& post.job_proposals@[id]@ == Seq::<u64>::empty()
    &&& post.user_stats@ == pre.user_stats@.insert(sender@, UserStats { total_jobs_posted: (s.total_jobs_posted + 1) as u64, ..s })
    &&& post.user_rate_limits@ == limits_after(pre, now, sender@, RateLimitAction::PostJob)
    &&& resp.msgs() == Seq::<(bool, Seq<char>, Seq<char>, u128)>::empty()
    &&& resp.attrs() == seq![
        ("method"@, "post_job"@),
        ("job_id"@, decimal_chars(id as nat)),
        ("poster"@, sender@),
        ("budget"@, decimal_chars(budget as nat)),
        ("budget"@, decimal_chars(budget as nat)),
    ]
}

pub(crate) fn job_category(category: &str) -> (r: u8)
    ensures
        r == job_category_id(lowercase_chars(category@)),
{
    let lower = crate::text::to_lowercase(category);
    let l = lower.as_str();
    if crate::text::str_eq(l, "web development") {
        1
    } else if crate::text::str_eq(l, "mobile development") {
        2
    } else if crate::text::str_eq(l, "design") {
        3
    } else if crate::text::str_eq(l, "writing") {
        4
    } else if crate::text::str_eq(l, "marketing") {
        5
    } else {
        99
    }
}

fn budget_range(budget: u128) -> (r: u8)
    ensures
        r == budget_range_of(budget),
{
    if budget < 500 {
        1
    } else if budget < 5000 {
        2
    } else {
        3
    }
}

fn skill_tags(n: usize) -> (r: Vec<u8>)
    ensures
        r@ == skill_tags_for(n as nat),
{
    let mut tags: Vec<u8> = Vec::new();
    let mut i: usize = 0;
    while i < n
        invariant
            i <= n,
            tags@ == skill_tags_for(i as nat),
        decreases n - i,
    {
        tags.push((i % 50) as u8);
        i = i + 1;
        assert(tags@ =~= skill_tags_for(i as nat));
    }
    tags
}

/// What `execute_post_job` does: when it refuses and with which error, and the state and response when it succeeds.
pub open spec fn post_job_outcome(
    pre: ContractState,
    post: ContractState,
    env: Env,
    info: MessageInfo,
    title: Seq<char>,
    description: Seq<char>,
    budget: u128,
    category: Seq<char>,
    skills_required: Seq<String>,
    duration_days: u64,
    milestones: Option<Vec<MilestoneInput>>,
    bundle_json: Seq<char>,
    r: Result<Response, ContractError>,
) -> bool {
    let refusal = post_job_refusal(pre, env.time, info.sender@, title, description, budget, category, skills_required, duration_days, milestones);
    &&& r is Err <==> refusal is Some
    &&& r matches Err(e) ==> refusal == Some(e@) && post == pre
    &&& r matches Ok(resp) ==> job_posted(pre, post, env.time, info.sender, budget, category, skills_required.len(), duration_days, milestones is Some, milestone_inputs(milestones), bundle_json, resp)
}

/// Posts a job. Its texts are published off-chain; `bundle_json` is the serialized
/// content bundle, whose hash the job records.
pub fn execute_post_job(
    state: &mut ContractState,
    env: &Env,
    info: &MessageInfo,
    title: &str,
    description: &str,
    budget: u128,
    category: &str,
    skills_required: &Vec<String>,
    duration_days: u64,
    milestones: &Option<Vec<MilestoneInput>>,
    bundle_json: &str,
) -> (r: Result<Response, ContractError>)
    requires
        old(state).wf(),
        crate::state::tables_have_room(old(state)),
        post_job_refusal(*old(state), env.time, info.sender@, title@, description@, budget, category@, skills_required@, duration_days, *milestones) is None
            ==> days_after(env.time, duration_days) <= u64::MAX && milestone_deadlines_fit(env.time, *milestones),
    ensures
        crate::state::room_used(*old(state), *final(state)),
        post_job_outcome(*old(state), *final(state), *env, *info, title@, description@, budget, category@, skills_required@, duration_days, *milestones, bundle_json@, r),
        final(state).wf(),
{
    let _ = crate::security::reentrancy_guard(state);
    let rl = match next_rate_limit(state.user_rate_limits.get(info.sender.as_str()), env.time, RateLimitAction::PostJob) {
        Ok(rl) => rl,
        Err(e) => return Err(e),
    };
    match crate::security::validate_text_inputs(title, description, None, None) {
        Ok(()) => {},
        Err(e) => return Err(e),
    }
    match crate::security::validate_job_duration(duration_days) {
        Ok(()) => {},
        Err(e) => return Err(e),
    }
    match crate::helpers::ensure_not_paused(state) {
        Ok(()) => {},
        Err(e) => return Err(e),
    }
    match crate::helpers::validate_job_title(title) {
        Ok(()) => {},
        Err(e) => return Err(e),
    }
    match crate::helpers::validate_job_description(description) {
        Ok(()) => {},
        Err(e) => return Err(e),
    }
    match crate::helpers::validate_budget(budget) {
        Ok(()) => {},
        Err(e) => return Err(e),
    }
    match crate::helpers::validate_duration(duration_days, state.config.max_job_duration_days) {
        Ok(()) => {},
        Err(e) => return Err(e),
    }
    if category.is_empty() || category.len() > 50 {
        return Err(invalid_input("Category must be between 1-50 characters"));
    }
    if skills_required.len() == 0 || skills_required.len() > 20 {
        return Err(invalid_input("Must specify 1-20 skills"));
    }
    if has_empty_skill(skills_required) {
        return Err(invalid_input("Skill names must not be empty"));
    }
    match check_milestones(milestones, budget) {
        Ok(()) => {},
        Err(e) => return Err(e),
    }
    let has_milestones = milestones.is_some();
    let mut stats = crate::escrow::load_stats(state, info.sender.as_str());
    if state.next_job_id == u64::MAX || stats.total_jobs_posted == u64::MAX {
        return Err(overflow(OverflowOperation::Add));
    }
    let job_id = state.next_job_id;
    let deadline = crate::helpers::get_future_timestamp(env.time, duration_days);
    let timestamp = seconds(env.time);
    let hash = match generate_content_hash(bundle_json) {
        Ok(h) => h,
        Err(e) => return Err(ContractError::Std(e)),
    };
    let content_hash = match create_content_hash(hash.as_str(), "job_content", timestamp) {
        Ok(c) => c,
        Err(e) => return Err(ContractError::Std(e)),
    };
    let milestone_records = build_milestones(milestones, env.time, &content_hash);
    let job = Job {
        id: job_id,
        poster: info.sender.clone(),
        budget,
        duration_days,
        status: JobStatus::Open,
        assigned_freelancer: None,
        created_at: env.time,
        updated_at: env.time,
        deadline,
        escrow_id: None,
        total_proposals: 0,
        content_hash,
        category_id: job_category(category),
        skill_tags: skill_tags(skills_required.len()),
        budget_range: budget_range(budget),
        experience_level: 2,
        is_remote: true,
        has_milestones,
        milestones: milestone_records,
        urgency_level: 2,
    };
    state.next_job_id = job_id + 1;
    state.jobs.insert(job_id, job);
    state.job_proposals.insert(job_id, Vec::new());
    stats.total_jobs_posted = stats.total_jobs_posted + 1;
    state.user_stats.insert(info.sender.clone(), stats);
    state.user_rate_limits.insert(info.sender.clone(), rl);
    let resp = Response::new();
    let resp = resp.add_attribute("method", String::from_str("post_job"));
    let resp = resp.add_attribute("job_id", u64_to_string(job_id));
    let resp = resp.add_attribute("poster", info.sender.clone());
    let resp = resp.add_attribute("budget", u128_to_string(budget));
    let resp = resp.add_attribute("budget", u128_to_string(budget));
    proof {
        assert(resp.attrs() =~= seq![
            ("method"@, "post_job"@),
            ("job_id"@, decimal_chars(job_id as nat)),
            ("poster"@, info.sender@),
            ("budget"@, decimal_chars(budget as nat)),
            ("budget"@, decimal_chars(budget as nat)),
        ]);
        assert(*state == (ContractState {
            jobs: state.jobs,
            next_job_id: state.next_job_id,
            job_proposals: state.job_proposals,
            user_stats: state.user_stats,
            user_rate_limits: state.user_rate_limits,
            ..*old(state)
        }));
    }
    Ok(resp)
}

/// The kind named when a proposal is not stored.
pub open spec fn proposal_kind() -> Seq<char> {
    "Proposal"@
}

/// The kind named when a list of ids is not stored.
pub open spec fn id_list_kind() -> Seq<char> {
    "Vec<u64>"@
}

/// The test that an id differs from `id`.
pub open spec fn not_id(id: u64) -> spec_fn(u64) -> bool {
    |x: u64| x != id
}

/// A list of ids without `id`.
pub open spec fn without_id(s: Seq<u64>, id: u64) -> Seq<u64> {
    s.filter(not_id(id))
}

/// Copies a list of ids, leaving out `id`.
pub fn remove_id(v: &Vec<u64>, id: u64) -> (r: Vec<u64>)
    ensures
        r@ == without_id(v@, id),
{
    let ghost keep = not_id(id);
    let mut r: Vec<u64> = Vec::new();
    let mut i: usize = 0;
    while i < v.len()
        invariant
            i <= v.len(),
            r@ == v@.subrange(0, i as int).filter(keep),
            forall|x: u64| #[trigger] keep(x) == (x != id),
        decreases v.len() - i,
    {
        proof {
            assert(v@.subrange(0, i + 1) =~= v@.subrange(0, i as int).push(v@[i as int]));
            v@.subrange(0, i as int).lemma_filter_push(v@[i as int], keep);
        }
        if v[i] != id {
            r.push(v[i]);
        }
        i = i + 1;
    }
    assert(v@.subrange(0, v.len() as int) =~= v@);
    r
}

/// Why withdrawing proposal `proposal_id` is refused, if it is.
pub open spec fn withdraw_refusal(pre: ContractState, sender: Seq<char>, proposal_id: u64) -> Option<ErrorView> {
    let p = pre.proposals@[proposal_id];
    let job = pre.jobs@[p.job_id];
    if pre.config.paused {
        Some(ErrorView::ContractPaused)
    } else if !pre.proposals@.contains_key(proposal_id) {
        Some(ErrorView::Std(crate::error::StdErrorView::NotFound { kind: proposal_kind() }))
    } else if p.freelancer@ != sender {
        Some(ErrorView::Unauthorized)
    } else if !pre.jobs@.contains_key(p.job_id) {
        Some(ErrorView::Std(crate::error::StdErrorView::NotFound { kind: crate::escrow::job_kind() }))
    } else if job.status != JobStatus::Open {
        Some(ErrorView::InvalidInput("Cannot withdraw proposal for non-open job"@))
    } else if !pre.job_proposals@.contains_key(p.job_id) || !pre.user_proposals@.contains_key(sender) {
        Some(ErrorView::Std(crate::error::StdErrorView::NotFound { kind: id_list_kind() }))
    } else {
        None
    }
}

/// The state and response after the freelancer withdrew proposal `proposal_id` at `now`.
pub open spec fn proposal_withdrawn(pre: ContractState, post: ContractState, now: u64, sender: Seq<char>, proposal_id: u64, resp: Response) -> bool {
    let p = pre.proposals@[proposal_id];
    let job = pre.jobs@[p.job_id];
    &&& post == (ContractState {
        proposals: post.proposals,
        job_proposals: post.job_proposals,
        user_proposals: post.user_proposals,
        jobs: post.jobs,
        ..pre
    })
    &&& post.proposals@ == pre.proposals@.remove(proposal_id)
    &&& post.job_proposals@ == pre.job_proposals@.insert(p.job_id, post.job_proposals@[p.job_id])
    &&& post.job_proposals@[p.job_id]@ == without_id(pre.job_proposals@[p.job_id]@, proposal_id)
    &&& post.user_proposals@ == pre.user_proposals@.insert(sender, post.user_proposals@[sender])
    &&& post.user_proposals@[sender]@ == without_id(pre.user_proposals@[sender]@, proposal_id)
    &&& post.jobs@ == pre.jobs@.insert(p.job_id, Job {
        total_proposals: if job.total_proposals > 0 { (job.total_proposals - 1) as u64 } else { 0 },
        updated_at: now,
        ..job
    })
    &&& resp.msgs() == Seq::<(bool, Seq<char>, Seq<char>, u128)>::empty()
    &&& resp.attrs() == seq![
        ("method"@, "withdraw_proposal"@),
        ("proposal_id"@, decimal_chars(proposal_id as nat)),
        ("job_id"@, decimal_chars(p.job_id as nat)),
        ("freelancer"@, sender),
    ]
}

/// What `execute_withdraw_proposal` does: when it refuses and with which error, and the state and response when it succeeds.
pub open spec fn withdraw_proposal_outcome(
    pre: ContractState,
    post: ContractState,
    env: Env,
    info: MessageInfo,
    proposal_id: u64,
    r: Result<Response, ContractError>,
) -> bool {
    let refusal = withdraw_refusal(pre, info.sender@, proposal_id);
    &&& r is Err <==> refusal is Some
    &&& r matches Err(e) ==> refusal == Some(e@) && post == pre
    &&& r matches Ok(resp) ==> proposal_withdrawn(pre, post, env.time, info.sender@, proposal_id, resp)
}

/// Withdraws a proposal of the sender while its job is still open.
pub fn execute_withdraw_proposal(state: &mut ContractState, env: &Env, info: &MessageInfo, proposal_id: u64) -> (r: Result<Response, ContractError>)
    requires
        old(state).wf(),
        crate::state::tables_have_room(old(state)),
    ensures
        crate::state::room_used(*old(state), *final(state)),
        withdraw_proposal_outcome(*old(state), *final(state), *env, *info, proposal_id, r),
        final(state).wf(),
{
    let _ = crate::security::reentrancy_guard(state);
    if state.config.paused {
        return Err(ContractError::ContractPaused {  });
    }
    let proposal = match state.proposals.get(&proposal_id) {
        Some(p) => p,
        None => return Err(crate::error::not_found("Proposal")),
    };
    if !crate::text::str_eq(proposal.freelancer.as_str(), info.sender.as_str()) {
        return Err(ContractError::Unauthorized {  });
    }
    let job_id = proposal.job_id;
    let job = match state.jobs.get(&job_id) {
        Some(j) => j,
        None => return Err(crate::error::not_found("Job")),
    };
    if job.status != JobStatus::Open {
        return Err(invalid_input("Cannot withdraw proposal for non-open job"));
    }
    let job_list = match state.job_proposals.get(&job_id) {
        Some(l) => remove_id(l, proposal_id),
        None => return Err(crate::error::not_found("Vec<u64>")),
    };
    let user_list = match state.user_proposals.get(info.sender.as_str()) {
        Some(l) => remove_id(l, proposal_id),
        None => return Err(crate::error::not_found("Vec<u64>")),
    };
    state.proposals.remove(&proposal_id);
    state.job_proposals.insert(job_id, job_list);
    state.user_proposals.insert(info.sender.clone(), user_list);
    let mut updated = state.jobs.remove(&job_id).unwrap();
    updated.total_proposals = if updated.total_proposals > 0 {
        updated.total_proposals - 1
    } else {
        0
    };
    updated.updated_at = env.time;
    state.jobs.insert(job_id, updated);
    let resp = Response::new();
    let resp = resp.add_attribute("method", String::from_str("withdraw_proposal"));
    let resp = resp.add_attribute("proposal_id", u64_to_string(proposal_id));
    let resp = resp.add_attribute("job_id", u64_to_string(job_id));
    let resp = resp.add_attribute("freelancer", info.sender.clone());
    proof {
        assert(resp.attrs() =~= seq![
            ("method"@, "withdraw_proposal"@),
            ("proposal_id"@, decimal_chars(proposal_id as nat)),
            ("job_id"@, decimal_chars(job_id as nat)),
            ("freelancer"@, info.sender@),
        ]);
        assert(state.jobs@ =~= old(state).jobs@.insert(job_id, state.jobs@[job_id]));
        assert(*state == (ContractState {
            proposals: state.proposals,
            job_proposals: state.job_proposals,
            user_proposals: state.user_proposals,
            jobs: state.jobs,
            ..*old(state)
        }));
    }
    Ok(resp)
}

/// Why accepting proposal `proposal_id` for `job_id` is refused, if it is.
pub open spec fn accept_refusal(pre: ContractState, sender: Seq<char>, job_id: u64, proposal_id: u64) -> Option<ErrorView> {
    let job = pre.jobs@[job_id];
    let p = pre.proposals@[proposal_id];
    if pre.config.paused {
        Some(ErrorView::ContractPaused)
    } else if !pre.jobs@.contains_key(job_id) {
        Some(ErrorView::Std(crate::error::StdErrorView::NotFound { kind: crate::escrow::job_kind() }))
    } else if job.poster@ != sender {
        Some(ErrorView::Unauthorized)
    } else if job.status != JobStatus::Open {
        Some(ErrorView::InvalidInput("Job is not open for acceptance"@))
    } else if !pre.proposals@.contains_key(proposal_id) {
        Some(ErrorView::Std(crate::error::StdErrorView::NotFound { kind: proposal_kind() }))
    } else if p.job_id != job_id {
        Some(ErrorView::InvalidInput("Proposal does not belong to this job"@))
    } else if p.freelancer@ == sender {
        Some(ErrorView::InvalidInput("Cannot accept your own proposal"@))
    } else if stats_in(pre.user_stats@, p.freelancer@).total_jobs_completed == u64::MAX {
        Some(ErrorView::Overflow(OverflowError { operation: OverflowOperation::Add }))
    } else {
        None
    }
}

/// The state and response after the poster hired the author of proposal `proposal_id` at `now`.
pub open spec fn proposal_accepted(pre: ContractState, post: ContractState, now: u64, job_id: u64, proposal_id: u64, resp: Response) -> bool {
    let job = pre.jobs@[job_id];
    let p = pre.proposals@[proposal_id];
    let s = stats_in(pre.user_stats@, p.freelancer@);
    &&& post == (ContractState { jobs: post.jobs, user_stats: post.user_stats, ..pre })
    &&& post.jobs@ == pre.jobs@.insert(job_id, Job {
        status: JobStatus::InProgress,
        assigned_freelancer: Some(p.freelancer),
        updated_at: now,
        ..job
    })
    &&& post.user_stats@ == pre.user_stats@.insert(p.freelancer@, UserStats { total_jobs_completed: (s.total_jobs_completed + 1) as u64, ..s })
    &&& resp.msgs() == Seq::<(bool, Seq<char>, Seq<char>, u128)>::empty()
    &&& resp.attrs() == seq![
        ("method"@, "accept_proposal"@),
        ("job_id"@, decimal_chars(job_id as nat)),
        ("proposal_id"@, decimal_chars(proposal_id as nat)),
        ("freelancer"@, p.freelancer@),
        ("delivery_time_days"@, decimal_chars(p.delivery_time_days as nat)),
    ]
}

/// What `execute_accept_proposal` does: when it refuses and with which error, and the state and response when it succeeds.
pub open spec fn accept_proposal_outcome(
    pre: ContractState,
    post: ContractState,
    env: Env,
    info: MessageInfo,
    job_id: u64,
    proposal_id: u64,
    r: Result<Response, ContractError>,
) -> bool {
    let refusal = accept_refusal(pre, info.sender@, job_id, proposal_id);
    &&& r is Err <==> refusal is Some
    &&& r matches Err(e) ==> refusal == Some(e@) && post == pre
    &&& r matches Ok(resp) ==> proposal_accepted(pre, post, env.time, job_id, proposal_id, resp)
}

/// Hires the author of a proposal: the job goes in progress with them assigned.
pub fn execute_accept_proposal(state: &mut ContractState, env: &Env, info: &MessageInfo, job_id: u64, proposal_id: u64) -> (r: Result<Response, ContractError>)
    requires
        old(state).wf(),
        crate::state::tables_have_room(old(state)),
    ensures
        crate::state::room_used(*old(state), *final(state)),
        accept_proposal_outcome(*old(state), *final(state), *env, *info, job_id, proposal_id, r),
        final(state).wf(),
{
    let _ = crate::security::reentrancy_guard(state);
    if state.config.paused {
        return Err(ContractError::ContractPaused {  });
    }
    let job = match state.jobs.get(&job_id) {
        Some(j) => j,
        None => return Err(crate::error::not_found("Job")),
    };
    if !crate::text::str_eq(job.poster.as_str(), info.sender.as_str()) {
        return Err(ContractError::Unauthorized {  });
    }
    if job.status != JobStatus::Open {
        return Err(invalid_input("Job is not open for acceptance"));
    }
    let proposal = match state.proposals.get(&proposal_id) {
        Some(p) => p,
        None => return Err(crate::error::not_found("Proposal")),
    };
    if proposal.job_id != job_id {
        return Err(invalid_input("Proposal does not belong to this job"));
    }
    if crate::text::str_eq(proposal.freelancer.as_str(), info.sender.as_str()) {
        return Err(invalid_input("Cannot accept your own proposal"));
    }
    let freelancer = proposal.freelancer.clone();
    let delivery = proposal.delivery_time_days;
    let mut stats = crate::escrow::load_stats(state, freelancer.as_str());
    if stats.total_jobs_completed == u64::MAX {
        return Err(overflow(OverflowOperation::Add));
    }
    let mut updated = state.jobs.remove(&job_id).unwrap();
    updated.status = JobStatus::InProgress;
    updated.assigned_freelancer = Some(freelancer.clone());
    updated.updated_at = env.time;
    state.jobs.insert(job_id, updated);
    stats.total_jobs_completed = stats.total_jobs_completed + 1;
    state.user_stats.insert(freelancer.clone(), stats);
    let resp = Response::new();
    let resp = resp.add_attribute("method", String::from_str("accept_proposal"));
    let resp = resp.add_attribute("job_id", u64_to_string(job_id));
    let resp = resp.add_attribute("proposal_id", u64_to_string(proposal_id));
    let resp = resp.add_attribute("freelancer", freelancer);
    let resp = resp.add_attribute("delivery_time_days", u64_to_string(delivery));
    proof {
        let p = old(state).proposals@[proposal_id];
        assert(resp.attrs() =~= seq![
            ("method"@, "accept_proposal"@),
            ("job_id"@, decimal_chars(job_id as nat)),
            ("proposal_id"@, decimal_chars(proposal_id as nat)),
            ("freelancer"@, p.freelancer@),
            ("delivery_time_days"@, decimal_chars(p.delivery_time_days as nat)),
        ]);
        assert(state.jobs@ =~= old(state).jobs@.insert(job_id, state.jobs@[job_id]));
        assert(*state == (ContractState { jobs: state.jobs, user_stats: state.user_stats, ..*old(state) }));
    }
    Ok(resp)
}

/// The statistics after a job of `budget` was completed: the freelancer earned it and the
/// poster spent it (read after the freelancer's update, in case they are the same user).
pub open spec fn completed_stats(m: Map<Seq<char>, UserStats>, freelancer: Seq<char>, poster: Seq<char>, budget: u128) -> Map<Seq<char>, UserStats> {
    let f = stats_in(m, freelancer);
    let m1 = m.insert(freelancer, UserStats {
        total_earned: (f.total_earned + budget) as u128,
        completion_rate: Decimal {
            atomics: ratio_atomics(f.total_jobs_completed as nat, (f.total_jobs_completed + 1) as nat) as u128,
        },
        ..f
    });
    let p = stats_in(m1, poster);
    m1.insert(poster, UserStats { total_spent: (p.total_spent + budget) as u128, ..p })
}

/// Whether recording a completed job stays within the counters' ranges.
pub open spec fn completed_stats_fit(m: Map<Seq<char>, UserStats>, freelancer: Seq<char>, poster: Seq<char>, budget: u128) -> bool {
    let f = stats_in(m, freelancer);
    let m1 = m.insert(freelancer, UserStats { total_earned: (f.total_earned + budget) as u128, ..f });
    &&& f.total_earned + budget <= u128::MAX
    &&& f.total_jobs_completed < u64::MAX
    &&& stats_in(m1, poster).total_spent + budget <= u128::MAX
}

/// Why completing `job_id` is refused, if it is.
pub open spec fn complete_refusal(pre: ContractState, sender: Seq<char>, job_id: u64) -> Option<ErrorView> {
    let job = pre.jobs@[job_id];
    if pre.config.paused {
        Some(ErrorView::ContractPaused)
    } else if !pre.jobs@.contains_key(job_id) {
        Some(ErrorView::Std(crate::error::StdErrorView::NotFound { kind: crate::escrow::job_kind() }))
    } else if !crate::escrow::is_assigned(job.assigned_freelancer, sender) {
        Some(ErrorView::Unauthorized)
    } else if job.status != JobStatus::InProgress {
        Some(ErrorView::InvalidInput("Job is not in progress"@))
    } else if !completed_stats_fit(pre.user_stats@, sender, job.poster@, job.budget) {
        Some(ErrorView::Overflow(OverflowError { operation: OverflowOperation::Add }))
    } else {
        None
    }
}

/// Whether completing a job pays out its escrow: it has one, stored, not yet released and not disputed.
pub open spec fn auto_release(pre: ContractState, job: Job) -> bool {
    &&& job.escrow_id is Some
    &&& pre.escrows@.contains_key(job.escrow_id->Some_0@)
    &&& !pre.escrows@[job.escrow_id->Some_0@].released
    &&& pre.escrows@[job.escrow_id->Some_0@].dispute_status == DisputeStatus::NotRaised
}

/// The state and response after the freelancer completed `job_id` at `now`.
pub open spec fn job_completed(pre: ContractState, post: ContractState, now: u64, sender: Seq<char>, job_id: u64, resp: Response) -> bool {
    let job = pre.jobs@[job_id];
    let eid = job.escrow_id->Some_0@;
    let e = pre.escrows@[eid];
    let base = seq![
        ("method"@, "complete_job"@),
        ("job_id"@, decimal_chars(job_id as nat)),
        ("freelancer"@, sender),
        ("budget"@, decimal_chars(job.budget as nat)),
    ];
    &&& post == (ContractState { jobs: post.jobs, user_stats: post.user_stats, escrows: post.escrows, ..pre })
    &&& post.jobs@ == pre.jobs@.insert(job_id, Job { status: JobStatus::Completed, updated_at: now, ..job })
    &&& post.user_stats@ == completed_stats(pre.user_stats@, sender, job.poster@, job.budget)
    &&& if auto_release(pre, job) {
        &&& post.escrows@ == pre.escrows@.insert(eid, EscrowState { released: true, ..e })
        &&& resp.msgs() == crate::escrow::payout_msgs(e, pre.config.admin@)
        &&& resp.attrs() == base + seq![
            ("escrow_released"@, "true"@),
            ("escrow_id"@, eid),
            ("payment_amount"@, decimal_chars(e.amount as nat)),
            ("platform_fee"@, decimal_chars(e.platform_fee as nat)),
        ]
    } else {
        &&& post.escrows == pre.escrows
        &&& resp.msgs() == Seq::<(bool, Seq<char>, Seq<char>, u128)>::empty()
        &&& resp.attrs() == base
    }
}

/// What `execute_complete_job` does: when it refuses and with which error, and the state and response when it succeeds.
pub open spec fn complete_job_outcome(
    pre: ContractState,
    post: ContractState,
    env: Env,
    info: MessageInfo,
    job_id: u64,
    r: Result<Response, ContractError>,
) -> bool {
    let refusal = complete_refusal(pre, info.sender@, job_id);
    &&& r is Err <==> refusal is Some
    &&& r matches Err(e) ==> refusal == Some(e@) && post == pre
    &&& r matches Ok(resp) ==> job_completed(pre, post, env.time, info.sender@, job_id, resp)
}

/// The assigned freelancer marks a job in progress completed; its escrow, if funded and
/// not disputed, is paid out at once.
pub fn execute_complete_job(state: &mut ContractState, env: &Env, info: &MessageInfo, job_id: u64) -> (r: Result<Response, ContractError>)
    requires
        old(state).wf(),
        crate::state::tables_have_room(old(state)),
    ensures
        crate::state::room_used(*old(state), *final(state)),
        complete_job_outcome(*old(state), *final(state), *env, *info, job_id, r),
        final(state).wf(),
{
    let _ = crate::security::reentrancy_guard(state);
    if state.config.paused {
        return Err(ContractError::ContractPaused {  });
    }
    let job = match state.jobs.get(&job_id) {
        Some(j) => j,
        None => return Err(crate::error::not_found("Job")),
    };
    let is_freelancer = match &job.assigned_freelancer {
        Some(f) => crate::text::str_eq(f.as_str(), info.sender.as_str()),
        None => false,
    };
    if !is_freelancer {
        return Err(ContractError::Unauthorized {  });
    }
    if job.status != JobStatus::InProgress {
        return Err(invalid_input("Job is not in progress"));
    }
    let budget = job.budget;
    let poster = job.poster.clone();
    let escrow_id = match &job.escrow_id {
        Some(id) => Some(id.clone()),
        None => None,
    };
    let mut fs = crate::escrow::load_stats(state, info.sender.as_str());
    if fs.total_earned > u128::MAX - budget || fs.total_jobs_completed == u64::MAX {
        return Err(overflow(OverflowOperation::Add));
    }
    fs.total_earned = fs.total_earned + budget;
    fs.completion_rate = Decimal::from_ratio(fs.total_jobs_completed, fs.total_jobs_completed + 1);
    let ghost m0 = state.user_stats@;
    let mut ps = if crate::text::str_eq(poster.as_str(), info.sender.as_str()) {
        fs.copy()
    } else {
        crate::escrow::load_stats(state, poster.as_str())
    };
    assert(ps == stats_in(m0.insert(info.sender@, fs), poster@));
    if ps.total_spent > u128::MAX - budget {
        return Err(overflow(OverflowOperation::Add));
    }
    ps.total_spent = ps.total_spent + budget;
    let mut updated = state.jobs.remove(&job_id).unwrap();
    updated.status = JobStatus::Completed;
    updated.updated_at = env.time;
    state.jobs.insert(job_id, updated);
    state.user_stats.insert(info.sender.clone(), fs);
    state.user_stats.insert(poster, ps);
    let resp = Response::new();
    let resp = resp.add_attribute("method", String::from_str("complete_job"));
    let resp = resp.add_attribute("job_id", u64_to_string(job_id));
    let resp = resp.add_attribute("freelancer", info.sender.clone());
    let resp = resp.add_attribute("budget", u128_to_string(budget));
    let ghost base_resp = resp;
    let ghost mid = *state;
    assert(base_resp.attrs() =~= seq![
        ("method"@, "complete_job"@),
        ("job_id"@, decimal_chars(job_id as nat)),
        ("freelancer"@, info.sender@),
        ("budget"@, decimal_chars(budget as nat)),
    ]);
    assert(state.jobs@ =~= old(state).jobs@.insert(job_id, state.jobs@[job_id]));
    if let Some(eid) = escrow_id {
        let release = match state.escrows.get(eid.as_str()) {
            Some(e) => !e.released && e.dispute_status == DisputeStatus::NotRaised,
            None => false,
        };
        if release {
            let mut e = state.escrows.remove(eid.as_str()).unwrap();
            let ghost e0 = e;
            let amount = e.amount;
            let fee = e.platform_fee;
            let freelancer = e.freelancer.clone();
            e.released = true;
            state.escrows.insert(eid.clone(), e);
            let resp = resp.add_message(crate::chain::bank_send(freelancer, "uxion", amount));
            let resp = resp.add_message(crate::chain::bank_send(state.config.admin.clone(), "uxion", fee));
            let resp = resp.add_attribute("escrow_released", String::from_str("true"));
            let resp = resp.add_attribute("escrow_id", eid.clone());
            let resp = resp.add_attribute("payment_amount", u128_to_string(amount));
            let resp = resp.add_attribute("platform_fee", u128_to_string(fee));
            proof {
                assert(resp.msgs() =~= crate::escrow::payout_msgs(e0, old(state).config.admin@));
                assert(resp.attrs() =~= base_resp.attrs() + seq![
                    ("escrow_released"@, "true"@),
                    ("escrow_id"@, eid@),
                    ("payment_amount"@, decimal_chars(amount as nat)),
                    ("platform_fee"@, decimal_chars(fee as nat)),
                ]);
                assert(state.escrows@ =~= old(state).escrows@.insert(eid@, EscrowState { released: true, ..e0 }));
                assert(*state == (ContractState { jobs: state.jobs, user_stats: state.user_stats, escrows: state.escrows, ..*old(state) }));
            }
            return Ok(resp);
        }
    }
    assert(*state == (ContractState { jobs: state.jobs, user_stats: state.user_stats, escrows: state.escrows, ..*old(state) }));
    Ok(resp)
}

/// The position of the first milestone numbered `id`, or -1 when there is none.
pub open spec fn milestone_position(ms: Seq<Milestone>, id: u64) -> int
    decreases ms.len(),
{
    if ms.len() == 0 {
        -1
    } else {
        let p = milestone_position(ms.drop_last(), id);
        if p >= 0 {
            p
        } else if ms.last().id == id {
            ms.len() - 1
        } else {
            -1
        }
    }
}

proof fn lemma_milestone_position(ms: Seq<Milestone>, id: u64)
    ensures
        -1 <= milestone_position(ms, id) < ms.len(),
        milestone_position(ms, id) >= 0 ==> ms[milestone_position(ms, id)].id == id,
        milestone_position(ms, id) == -1 <==> forall|i: int| 0 <= i < ms.len() ==> (#[trigger] ms[i]).id != id,
    decreases ms.len(),
{
    if ms.len() > 0 {
        lemma_milestone_position(ms.drop_last(), id);
        assert forall|i: int| 0 <= i < ms.len() - 1 implies #[trigger] ms[i] == ms.drop_last()[i] by {}
    }
}

/// Whether every milestone is completed.
pub open spec fn all_completed(ms: Seq<Milestone>) -> bool {
    forall|i: int| 0 <= i < ms.len() ==> (#[trigger] ms[i]).completed
}

/// The message of a milestone that is not found.
pub open spec fn milestone_not_found(id: u64) -> Seq<char> {
    "Milestone "@ + decimal_chars(id as nat) + " not found"@
}

/// Finds the position of the first milestone numbered `id`.
fn find_milestone(ms: &Vec<Milestone>, id: u64) -> (r: Option<usize>)
    ensures
        match r {
            Some(p) => p as int == milestone_position(ms@, id) && p < ms@.len(),
            None => milestone_position(ms@, id) == -1,
        },
{
    proof {
        lemma_milestone_position(ms@, id);
    }
    let mut i: usize = 0;
    while i < ms.len()
        invariant
            i <= ms@.len(),
            forall|k: int| 0 <= k < i ==> (#[trigger] ms@[k]).id != id,
            -1 <= milestone_position(ms@, id) < ms@.len(),
            milestone_position(ms@, id) >= 0 ==> ms@[milestone_position(ms@, id)].id == id,
            milestone_position(ms@, id) == -1 <==> forall|k: int| 0 <= k < ms@.len() ==> (#[trigger] ms@[k]).id != id,
        decreases ms@.len() - i,
    {
        if ms[i].id == id {
            proof {
                lemma_first_position(ms@, id, i as int);
            }
            return Some(i);
        }
        i = i + 1;
    }
    None
}

proof fn lemma_first_position(ms: Seq<Milestone>, id: u64, i: int)
    requires
        0 <= i < ms.len(),
        ms[i].id == id,
        forall|k: int| 0 <= k < i ==> (#[trigger] ms[k]).id != id,
    ensures
        milestone_position(ms, id) == i,
    decreases ms.len(),
{
    if i < ms.len() - 1 {
        lemma_first_position(ms.drop_last(), id, i);
    } else {
        lemma_milestone_position(ms.drop_last(), id);
        assert forall|k: int| 0 <= k < ms.drop_last().len() implies (#[trigger] ms.drop_last()[k]).id != id by {
            assert(ms.drop_last()[k] == ms[k]);
        }
    }
}

/// Whether every milestone is completed, computed.
fn every_milestone_completed(ms: &Vec<Milestone>) -> (b: bool)
    ensures
        b == all_completed(ms@),
{
    let mut i: usize = 0;
    while i < ms.len()
        invariant
            i <= ms@.len(),
            forall|k: int| 0 <= k < i ==> (#[trigger] ms@[k]).completed,
        decreases ms@.len() - i,
    {
        if !ms[i].completed {
            return false;
        }
        i = i + 1;
    }
    true
}

/// Why the freelancer's completion of milestone `milestone_id` of `job_id` is refused, if it is.
pub open spec fn complete_milestone_refusal(pre: ContractState, now: u64, sender: Seq<char>, job_id: u64, milestone_id: u64) -> Option<ErrorView> {
    let sec = security_refusal(pre, now, sender, RateLimitAction::CompleteMilestone);
    let job = pre.jobs@[job_id];
    let p = milestone_position(job.milestones@, milestone_id);
    if sec is Some {
        sec
    } else if !pre.jobs@.contains_key(job_id) {
        Some(ErrorView::Std(crate::error::StdErrorView::NotFound { kind: crate::escrow::job_kind() }))
    } else if job.assigned_freelancer is None {
        Some(ErrorView::InvalidInput("No freelancer assigned to this job"@))
    } else if job.assigned_freelancer->Some_0@ != sender {
        Some(ErrorView::Unauthorized)
    } else if job.status != JobStatus::InProgress {
        Some(ErrorView::InvalidInput("Job must be in progress to complete milestones"@))
    } else if p < 0 {
        Some(ErrorView::InvalidInput(milestone_not_found(milestone_id)))
    } else if job.milestones@[p].completed {
        Some(ErrorView::InvalidInput("Milestone already completed"@))
    } else if now > job.milestones@[p].deadline {
        Some(ErrorView::InvalidInput("Milestone deadline has passed"@))
    } else {
        None
    }
}

/// What completing a milestone does: when it refuses and with which error; on success the
/// milestone is marked completed at `now`, and the job, updated at `now`, is completed once
/// every milestone is.
pub open spec fn complete_milestone_outcome(pre: ContractState, post: ContractState, env: Env, info: MessageInfo, job_id: u64, milestone_id: u64, r: Result<Response, ContractError>) -> bool {
    let refusal = complete_milestone_refusal(pre, env.time, info.sender@, job_id, milestone_id);
    let job = pre.jobs@[job_id];
    let p = milestone_position(job.milestones@, milestone_id);
    let m = job.milestones@[p];
    let ms = job.milestones@.update(p, Milestone { completed: true, completed_at: Some(env.time), ..m });
    let nj = post.jobs@[job_id];
    &&& r is Err <==> refusal is Some
    &&& r matches Err(e) ==> refusal == Some(e@) && post == pre
    &&& r matches Ok(resp) ==> {
        &&& post == (ContractState { jobs: post.jobs, user_rate_limits: post.user_rate_limits, ..pre })
        &&& nj.milestones@ == ms
        &&& post.jobs@ == pre.jobs@.insert(job_id, Job {
            status: if all_completed(ms) { JobStatus::Completed } else { job.status },
            updated_at: env.time,
            milestones: nj.milestones,
            ..job
        })
        &&& post.user_rate_limits@ == limits_after(pre, env.time, info.sender@, RateLimitAction::CompleteMilestone)
        &&& resp.msgs() == Seq::<(bool, Seq<char>, Seq<char>, u128)>::empty()
        &&& resp.attrs() == seq![
            ("action"@, "complete_milestone"@),
            ("job_id"@, decimal_chars(job_id as nat)),
            ("milestone_id"@, decimal_chars(milestone_id as nat)),
            ("freelancer"@, info.sender@),
            ("all_milestones_completed"@, crate::text::bool_chars(all_completed(ms))),
        ]
    }
}

/// The assigned freelancer marks a milestone of a job in progress completed, before its deadline.
pub fn execute_complete_milestone(state: &mut ContractState, env: &Env, info: &MessageInfo, job_id: u64, milestone_id: u64) -> (r: Result<Response, ContractError>)
    requires
        old(state).wf(),
        crate::state::tables_have_room(old(state)),
    ensures
        crate::state::room_used(*old(state), *final(state)),
        complete_milestone_outcome(*old(state), *final(state), *env, *info, job_id, milestone_id, r),
        final(state).wf(),
{
    let rl = match security_checks(state, env, info.sender.as_str(), RateLimitAction::CompleteMilestone) {
        Ok(rl) => rl,
        Err(e) => return Err(e),
    };
    let job = match state.jobs.get(&job_id) {
        Some(j) => j,
        None => return Err(crate::error::not_found("Job")),
    };
    match &job.assigned_freelancer {
        Some(f) => {
            if !crate::text::str_eq(f.as_str(), info.sender.as_str()) {
                return Err(ContractError::Unauthorized {  });
            }
        },
        None => return Err(invalid_input("No freelancer assigned to this job")),
    }
    if job.status != JobStatus::InProgress {
        return Err(invalid_input("Job must be in progress to complete milestones"));
    }
    let p = match find_milestone(&job.milestones, milestone_id) {
        Some(p) => p,
        None => {
            let id = u64_to_string(milestone_id);
            return Err(ContractError::InvalidInput { error: crate::text::concat3("Milestone ", id.as_str(), " not found") });
        },
    };
    if job.milestones[p].completed {
        return Err(invalid_input("Milestone already completed"));
    }
    if env.time > job.milestones[p].deadline {
        return Err(invalid_input("Milestone deadline has passed"));
    }
    let ghost job0 = *job;
    let mut updated = state.jobs.remove(&job_id).unwrap();
    assert(updated == job0);
    let mut m = updated.milestones[p].copy();
    m.completed = true;
    m.completed_at = Some(env.time);
    updated.milestones.set(p, m);
    assert(updated.milestones@ =~= job0.milestones@.update(p as int, Milestone { completed: true, completed_at: Some(env.time), ..job0.milestones@[p as int] }));
    let all = every_milestone_completed(&updated.milestones);
    if all {
        updated.status = JobStatus::Completed;
    }
    updated.updated_at = env.time;
    proof {
        assert(updated == (Job {
            status: if all { JobStatus::Completed } else { job0.status },
            updated_at: env.time,
            milestones: updated.milestones,
            ..job0
        }));
    }
    state.jobs.insert(job_id, updated);
    assert(state.jobs@ =~= old(state).jobs@.insert(job_id, state.jobs@[job_id]));
    state.user_rate_limits.insert(info.sender.clone(), rl);
    let resp = Response::new();
    let resp = resp.add_attribute("action", String::from_str("complete_milestone"));
    let resp = resp.add_attribute("job_id", u64_to_string(job_id));
    let resp = resp.add_attribute("milestone_id", u64_to_string(milestone_id));
    let resp = resp.add_attribute("freelancer", info.sender.clone());
    let resp = resp.add_attribute("all_milestones_completed", crate::text::bool_to_string(all));
    proof {
        assert(resp.attrs() =~= seq![
            ("action"@, "complete_milestone"@),
            ("job_id"@, decimal_chars(job_id as nat)),
            ("milestone_id"@, decimal_chars(milestone_id as nat)),
            ("freelancer"@, info.sender@),
            ("all_milestones_completed"@, crate::text::bool_chars(all)),
        ]);
        assert(*state == (ContractState { jobs: state.jobs, user_rate_limits: state.user_rate_limits, ..*old(state) }));
    }
    Ok(resp)
}

/// Why the poster's approval of milestone `milestone_id` of `job_id` is refused, if it is.
pub open spec fn approve_milestone_refusal(pre: ContractState, now: u64, sender: Seq<char>, job_id: u64, milestone_id: u64) -> Option<ErrorView> {
    let sec = security_refusal(pre, now, sender, RateLimitAction::ApproveMilestone);
    let job = pre.jobs@[job_id];
    let p = milestone_position(job.milestones@, milestone_id);
    if sec is Some {
        sec
    } else if !pre.jobs@.contains_key(job_id) {
        Some(ErrorView::Std(crate::error::StdErrorView::NotFound { kind: crate::escrow::job_kind() }))
    } else if job.poster@ != sender {
        Some(ErrorView::Unauthorized)
    } else if job.status != JobStatus::Completed && job.status != JobStatus::InProgress {
        Some(ErrorView::InvalidInput("Job must be completed or in progress to approve milestones"@))
    } else if p < 0 {
        Some(ErrorView::InvalidInput(milestone_not_found(milestone_id)))
    } else if !job.milestones@[p].completed {
        Some(ErrorView::InvalidInput("Cannot approve milestone that hasn't been completed yet"@))
    } else {
        None
    }
}

/// The stored escrow of a job, if it has one.
pub open spec fn job_escrow(pre: ContractState, job: Job) -> Option<EscrowState> {
    match job.escrow_id {
        Some(eid) => if pre.escrows@.contains_key(eid@) { Some(pre.escrows@[eid@]) } else { None },
        None => None,
    }
}

/// The payment for one approved milestone: the job's escrow amount shared evenly over its
/// milestones, rounded down, sent in `uxion` to the assigned freelancer when the job has a
/// stored escrow and a freelancer.
pub open spec fn milestone_payment_msgs(pre: ContractState, job: Job) -> Seq<(bool, Seq<char>, Seq<char>, u128)> {
    match (job_escrow(pre, job), job.assigned_freelancer) {
        (Some(e), Some(f)) => seq![(true, f@, "uxion"@, (e.amount / (job.milestones@.len() as u128)) as u128)],
        _ => Seq::empty(),
    }
}

/// What approving a milestone does: when it refuses and with which error; on success the
/// milestone's share of the escrow is paid to the freelancer, and once every milestone is
/// completed the job is completed and its escrow marked released; the job is updated at `now`.
pub open spec fn approve_milestone_outcome(pre: ContractState, post: ContractState, env: Env, info: MessageInfo, job_id: u64, milestone_id: u64, r: Result<Response, ContractError>) -> bool {
    let refusal = approve_milestone_refusal(pre, env.time, info.sender@, job_id, milestone_id);
    let job = pre.jobs@[job_id];
    let all = all_completed(job.milestones@);
    &&& r is Err <==> refusal is Some
    &&& r matches Err(e) ==> refusal == Some(e@) && post == pre
    &&& r matches Ok(resp) ==> {
        &&& post == (ContractState { jobs: post.jobs, escrows: post.escrows, user_rate_limits: post.user_rate_limits, ..pre })
        &&& post.jobs@ == pre.jobs@.insert(job_id, Job {
            status: if all { JobStatus::Completed } else { job.status },
            updated_at: env.time,
            ..job
        })
        &&& post.escrows@ == match (all, job_escrow(pre, job)) {
            (true, Some(e)) => pre.escrows@.insert(job.escrow_id->Some_0@, EscrowState { released: true, ..e }),
            _ => pre.escrows@,
        }
        &&& post.user_rate_limits@ == limits_after(pre, env.time, info.sender@, RateLimitAction::ApproveMilestone)
        &&& resp.msgs() == milestone_payment_msgs(pre, job)
        &&& resp.attrs() == seq![
            ("action"@, "approve_milestone"@),
            ("job_id"@, decimal_chars(job_id as nat)),
            ("milestone_id"@, decimal_chars(milestone_id as nat)),
            ("poster"@, info.sender@),
            ("all_milestones_approved"@, crate::text::bool_chars(all)),
        ]
    }
}

/// The poster approves a completed milestone, which pays its share of the escrow.
pub fn execute_approve_milestone(state: &mut ContractState, env: &Env, info: &MessageInfo, job_id: u64, milestone_id: u64) -> (r: Result<Response, ContractError>)
    requires
        old(state).wf(),
        crate::state::tables_have_room(old(state)),
    ensures
        crate::state::room_used(*old(state), *final(state)),
        approve_milestone_outcome(*old(state), *final(state), *env, *info, job_id, milestone_id, r),
        final(state).wf(),
{
    let rl = match security_checks(state, env, info.sender.as_str(), RateLimitAction::ApproveMilestone) {
        Ok(rl) => rl,
        Err(e) => return Err(e),
    };
    let job = match state.jobs.get(&job_id) {
        Some(j) => j,
        None => return Err(crate::error::not_found("Job")),
    };
    if !crate::text::str_eq(job.poster.as_str(), info.sender.as_str()) {
        return Err(ContractError::Unauthorized {  });
    }
    if job.status != JobStatus::Completed && job.status != JobStatus::InProgress {
        return Err(invalid_input("Job must be completed or in progress to approve milestones"));
    }
    let p = match find_milestone(&job.milestones, milestone_id) {
        Some(p) => p,
        None => {
            let id = u64_to_string(milestone_id);
            return Err(ContractError::InvalidInput { error: crate::text::concat3("Milestone ", id.as_str(), " not found") });
        },
    };
    if !job.milestones[p].completed {
        return Err(invalid_input("Cannot approve milestone that hasn't been completed yet"));
    }
    let ghost pre = *state;
    let ghost job0 = *job;
    let count = job.milestones.len() as u128;
    let all = every_milestone_completed(&job.milestones);
    let escrow_id = match &job.escrow_id {
        Some(id) => Some(id.clone()),
        None => None,
    };
    let freelancer = match &job.assigned_freelancer {
        Some(f) => Some(f.clone()),
        None => None,
    };
    let mut resp = Response::new();
    if let Some(eid) = &escrow_id {
        if let Some(e) = state.escrows.get(eid.as_str()) {
            if let Some(f) = &freelancer {
                resp = resp.add_message(crate::chain::bank_send(f.clone(), "uxion", e.amount / count));
            }
        }
    }
    assert(resp.msgs() =~= milestone_payment_msgs(pre, job0));
    if all {
        if let Some(eid) = &escrow_id {
            if state.escrows.contains_key(eid.as_str()) {
                let mut e = state.escrows.remove(eid.as_str()).unwrap();
                e.released = true;
                state.escrows.insert(eid.clone(), e);
            }
        }
    }
    assert(state.escrows@ == match (all, job_escrow(pre, job0)) {
        (true, Some(e)) => pre.escrows@.insert(job0.escrow_id->Some_0@, EscrowState { released: true, ..e }),
        _ => pre.escrows@,
    });
    let mut updated = state.jobs.remove(&job_id).unwrap();
    assert(updated == job0);
    if all {
        updated.status = JobStatus::Completed;
    }
    updated.updated_at = env.time;
    assert(updated == (Job { status: if all { JobStatus::Completed } else { job0.status }, updated_at: env.time, ..job0 }));
    state.jobs.insert(job_id, updated);
    assert(state.jobs@ =~= pre.jobs@.insert(job_id, state.jobs@[job_id]));
    state.user_rate_limits.insert(info.sender.clone(), rl);
    let resp = resp.add_attribute("action", String::from_str("approve_milestone"));
    let resp = resp.add_attribute("job_id", u64_to_string(job_id));
    let resp = resp.add_attribute("milestone_id", u64_to_string(milestone_id));
    let resp = resp.add_attribute("poster", info.sender.clone());
    let resp = resp.add_attribute("all_milestones_approved", crate::text::bool_to_string(all));
    proof {
        assert(resp.attrs() =~= seq![
            ("action"@, "approve_milestone"@),
            ("job_id"@, decimal_chars(job_id as nat)),
            ("milestone_id"@, decimal_chars(milestone_id as nat)),
            ("poster"@, info.sender@),
            ("all_milestones_approved"@, crate::text::bool_chars(all)),
        ]);
        assert(*state == (ContractState { jobs: state.jobs, escrows: state.escrows, user_rate_limits: state.user_rate_limits, ..*old(state) }));
    }
    Ok(resp)
}

/// The user a rating by `sender` on `job` is about: the freelancer when the poster rates,
/// the poster when the freelancer rates.
pub open spec fn rated_user(job: Job, sender: Seq<char>) -> String {
    if job.poster@ == sender {
        job.assigned_freelancer->Some_0
    } else {
        job.poster
    }
}

/// The key of the rating `sender` gives on `job_id`.
pub open spec fn rating_key(job_id: u64, sender: Seq<char>) -> Seq<char> {
    decimal_chars(job_id as nat) + "_"@ + sender
}

/// Why a rating is refused, if it is.
pub open spec fn rating_refusal(pre: ContractState, sender: Seq<char>, job_id: u64, rating: u8, comment: Seq<char>) -> Option<ErrorView> {
    let job = pre.jobs@[job_id];
    if pre.config.paused {
        Some(ErrorView::ContractPaused)
    } else if rating < 1 || rating > 5 {
        Some(ErrorView::InvalidInput("Rating must be between 1 and 5"@))
    } else if blen(comment) > 500 {
        Some(ErrorView::InvalidInput("Comment must be max 500 characters"@))
    } else if !pre.jobs@.contains_key(job_id) {
        Some(ErrorView::Std(crate::error::StdErrorView::NotFound { kind: crate::escrow::job_kind() }))
    } else if job.status != JobStatus::Completed {
        Some(ErrorView::InvalidInput("Job must be completed to submit rating"@))
    } else if job.poster@ == sender && job.assigned_freelancer is None {
        Some(ErrorView::InvalidInput("No freelancer assigned to rate"@))
    } else if job.poster@ != sender && !crate::escrow::is_assigned(job.assigned_freelancer, sender) {
        Some(ErrorView::Unauthorized)
    } else if pre.ratings@.contains_key(rating_key(job_id, sender)) {
        Some(ErrorView::InvalidInput("Rating already submitted for this job"@))
    } else if stats_in(pre.user_stats@, rated_user(job, sender)@).total_ratings == u64::MAX {
        Some(ErrorView::Overflow(OverflowError { operation: OverflowOperation::Add }))
    } else {
        None
    }
}

/// The state and response after `sender` rated the other party of `job_id`.
pub open spec fn rating_submitted(pre: ContractState, post: ContractState, now: u64, sender: String, job_id: u64, rating: u8, comment: String, resp: Response) -> bool {
    let job = pre.jobs@[job_id];
    let rated = rated_user(job, sender@);
    let key = rating_key(job_id, sender@);
    let s = stats_in(pre.user_stats@, rated@);
    &&& post == (ContractState { ratings: post.ratings, user_stats: post.user_stats, ..pre })
    &&& post.ratings@[key].id@ == key
    &&& post.ratings@ == pre.ratings@.insert(key, Rating {
        id: post.ratings@[key].id,
        job_id,
        rater: sender,
        rated,
        rating,
        comment,
        created_at: now,
    })
    &&& post.user_stats@ == pre.user_stats@.insert(rated@, UserStats {
        average_rating: Decimal {
            atomics: next_average_atomics(s.average_rating.atomics as nat, s.total_ratings as nat, rating as nat) as u128,
        },
        total_ratings: (s.total_ratings + 1) as u64,
        ..s
    })
    &&& resp.msgs() == Seq::<(bool, Seq<char>, Seq<char>, u128)>::empty()
    &&& resp.attrs() == seq![
        ("method"@, "submit_rating"@),
        ("job_id"@, decimal_chars(job_id as nat)),
        ("rater"@, sender@),
        ("rated"@, rated@),
        ("rating"@, decimal_chars(rating as nat)),
        ("rating_type"@, if job.poster@ == sender@ { "freelancer"@ } else { "poster"@ }),
    ]
}

/// An average of ratings from 1 to 5 stays within 0 to 5 after one more, and its
/// computation stays within the range of a decimal.
pub proof fn lemma_next_average_bounded(a: nat, c: nat, r: nat)
    requires
        a <= 5 * DECIMAL_FRACTIONAL,
        c < u64::MAX,
        1 <= r <= 5,
    ensures
        next_average_fits(a, c, r),
        next_average_atomics(a, c, r) <= 5 * DECIMAL_FRACTIONAL,
{
    let d = DECIMAL_FRACTIONAL as nat;
    assert(a * c <= 5 * d * c) by (nonlinear_arith)
        requires
            a <= 5 * d,
    ;
    assert(r * d <= 5 * d) by (nonlinear_arith)
        requires
            r <= 5,
    ;
    assert(5 * d * c + 5 * d == 5 * d * (c + 1)) by (nonlinear_arith);
    assert(5 * d * (c + 1) <= 5 * d * 18446744073709551615) by (nonlinear_arith)
        requires
            c + 1 <= 18446744073709551615,
    ;
    let n = a * c + r * d;
    assert(n <= 5 * d * (c + 1));
    assert(n / (c + 1) <= 5 * d) by (nonlinear_arith)
        requires
            n <= 5 * d * (c + 1),
            c + 1 > 0,
    ;
}

/// What `execute_submit_rating` does: when it refuses and with which error, and the state and response when it succeeds.
pub open spec fn submit_rating_outcome(
    pre: ContractState,
    post: ContractState,
    env: Env,
    info: MessageInfo,
    job_id: u64,
    rating: u8,
    comment: String,
    r: Result<Response, ContractError>,
) -> bool {
    let refusal = rating_refusal(pre, info.sender@, job_id, rating, comment@);
    &&& r is Err <==> refusal is Some
    &&& r matches Err(e) ==> refusal == Some(e@) && post == pre
    &&& r matches Ok(resp) ==> rating_submitted(pre, post, env.time, info.sender, job_id, rating, comment, resp)
}

/// Rates the other party of a completed job once: the poster rates the freelancer and the
/// freelancer the poster. The rated user's average is updated.
pub fn execute_submit_rating(
    state: &mut ContractState,
    env: &Env,
    info: &MessageInfo,
    job_id: u64,
    rating: u8,
    comment: String,
) -> (r: Result<Response, ContractError>)
    requires
        old(state).wf(),
        crate::state::tables_have_room(old(state)),
    ensures
        crate::state::room_used(*old(state), *final(state)),
        submit_rating_outcome(*old(state), *final(state), *env, *info, job_id, rating, comment, r),
        final(state).wf(),
{
    let _ = crate::security::reentrancy_guard(state);
    if state.config.paused {
        return Err(ContractError::ContractPaused {  });
    }
    if rating < 1 || rating > 5 {
        return Err(invalid_input("Rating must be between 1 and 5"));
    }
    if comment.as_str().len() > 500 {
        return Err(invalid_input("Comment must be max 500 characters"));
    }
    let job = match state.jobs.get(&job_id) {
        Some(j) => j,
        None => return Err(crate::error::not_found("Job")),
    };
    if job.status != JobStatus::Completed {
        return Err(invalid_input("Job must be completed to submit rating"));
    }
    let is_poster = crate::text::str_eq(job.poster.as_str(), info.sender.as_str());
    let rated = if is_poster {
        match &job.assigned_freelancer {
            Some(f) => f.clone(),
            None => return Err(invalid_input("No freelancer assigned to rate")),
        }
    } else {
        let is_freelancer = match &job.assigned_freelancer {
            Some(f) => crate::text::str_eq(f.as_str(), info.sender.as_str()),
            None => false,
        };
        if !is_freelancer {
            return Err(ContractError::Unauthorized {  });
        }
        job.poster.clone()
    };
    let id = u64_to_string(job_id);
    let key = crate::text::concat3(id.as_str(), "_", info.sender.as_str());
    if state.ratings.contains_key(key.as_str()) {
        return Err(invalid_input("Rating already submitted for this job"));
    }
    let mut stats = crate::escrow::load_stats(state, rated.as_str());
    if stats.total_ratings == u64::MAX {
        return Err(overflow(OverflowOperation::Add));
    }
    proof {
        if state.user_stats@.contains_key(rated@) {
            assert(state.user_stats@[rated@].average_rating.atomics <= 5 * DECIMAL_FRACTIONAL);
        }
        lemma_next_average_bounded(stats.average_rating.atomics as nat, stats.total_ratings as nat, rating as nat);
    }
    stats.average_rating = crate::decimal::next_average(stats.average_rating, stats.total_ratings, rating as u64);
    stats.total_ratings = stats.total_ratings + 1;
    let record = Rating {
        id: key.clone(),
        job_id,
        rater: info.sender.clone(),
        rated: rated.clone(),
        rating,
        comment,
        created_at: env.time,
    };
    state.ratings.insert(key, record);
    state.user_stats.insert(rated.clone(), stats);
    let resp = Response::new();
    let resp = resp.add_attribute("method", String::from_str("submit_rating"));
    let resp = resp.add_attribute("job_id", u64_to_string(job_id));
    let resp = resp.add_attribute("rater", info.sender.clone());
    let resp = resp.add_attribute("rated", rated);
    let resp = resp.add_attribute("rating", u64_to_string(rating as u64));
    let resp = resp.add_attribute("rating_type", if is_poster { String::from_str("freelancer") } else { String::from_str("poster") });
    proof {
        let job0 = old(state).jobs@[job_id];
        assert(resp.attrs() =~= seq![
            ("method"@, "submit_rating"@),
            ("job_id"@, decimal_chars(job_id as nat)),
            ("rater"@, info.sender@),
            ("rated"@, rated_user(job0, info.sender@)@),
            ("rating"@, decimal_chars(rating as nat)),
            ("rating_type"@, if job0.poster@ == info.sender@ { "freelancer"@ } else { "poster"@ }),
        ]);
        assert(*state == (ContractState { ratings: state.ratings, user_stats: state.user_stats, ..*old(state) }));
    }
    Ok(resp)
}

/// The name a job status is shown with.
pub open spec fn job_status_name(s: JobStatus) -> Seq<char> {
    match s {
        JobStatus::Open => "Open"@,
        JobStatus::InProgress => "InProgress"@,
        JobStatus::Completed => "Completed"@,
        JobStatus::Cancelled => "Cancelled"@,
        JobStatus::Disputed => "Disputed"@,
    }
}

/// The name a job status is shown with.
pub fn job_status_string(s: JobStatus) -> (r: String)
    ensures
        r@ == job_status_name(s),
{
    match s {
        JobStatus::Open => String::from_str("Open"),
        JobStatus::InProgress => String::from_str("InProgress"),
        JobStatus::Completed => String::from_str("Completed"),
        JobStatus::Cancelled => String::from_str("Cancelled"),
        JobStatus::Disputed => String::from_str("Disputed"),
    }
}

/// Whether `sender` already proposed for `job_id`.
pub open spec fn has_proposal(pre: ContractState, job_id: u64, sender: Seq<char>) -> bool {
    exists|k: u64| #[trigger] pre.proposals@.contains_key(k) && pre.proposals@[k].job_id == job_id && pre.proposals@[k].freelancer@ == sender
}

/// Whether `sender` already proposed for `job_id`.
fn find_proposal(state: &ContractState, job_id: u64, sender: &str) -> (r: bool)
    requires
        state.wf(),
    ensures
        r == has_proposal(*state, job_id, sender@),
{
    let n = state.next_proposal_id;
    let mut k: u64 = 0;
    while k < n
        invariant
            k <= n,
            n == state.next_proposal_id,
            state.wf(),
            forall|j: u64| j < k ==> !(#[trigger] state.proposals@.contains_key(j) && state.proposals@[j].job_id == job_id
                && state.proposals@[j].freelancer@ == sender@),
        decreases n - k,
    {
        match state.proposals.get(&k) {
            Some(p) => {
                if p.job_id == job_id && crate::text::str_eq(p.freelancer.as_str(), sender) {
                    return true;
                }
            },
            None => {},
        }
        k = k + 1;
    }
    false
}

/// Why submitting a proposal is refused, if it is.
pub open spec fn proposal_refusal(pre: ContractState, now: u64, sender: Seq<char>, job_id: u64, cover_letter: Seq<char>, delivery_time_days: u64) -> Option<ErrorView> {
    let job = pre.jobs@[job_id];
    let rl = rate_refusal(pre, now, sender, RateLimitAction::SubmitProposal);
    let text = text_inputs_refusal(cover_letter, cover_letter, None, None);
    if pre.config.paused {
        Some(ErrorView::ContractPaused)
    } else if rl is Some {
        rl
    } else if !pre.jobs@.contains_key(job_id) {
        Some(ErrorView::JobNotFound)
    } else if job.status != JobStatus::Open {
        Some(ErrorView::InvalidInput("Cannot submit proposal to job with status "@ + job_status_name(job.status)))
    } else if job.poster@ == sender {
        Some(ErrorView::Unauthorized)
    } else if text is Some {
        text
    } else if !valid_job_title(cover_letter) {
        Some(ErrorView::InvalidInput("Title must be between 5-100 characters"@))
    } else if !valid_job_description(cover_letter) {
        Some(ErrorView::InvalidInput("Description must be between 10-1000 characters"@))
    } else if delivery_time_days == 0 || delivery_time_days > pre.config.max_job_duration_days {
        Some(ErrorView::InvalidInput("Duration must be between 1-"@ + decimal_chars(pre.config.max_job_duration_days as nat) + " days"@))
    } else if has_proposal(pre, job_id, sender) {
        Some(ErrorView::InvalidInput("You already have a proposal for this job"@))
    } else if pre.next_proposal_id == u64::MAX || job.total_proposals == u64::MAX {
        Some(ErrorView::Overflow(OverflowError { operation: OverflowOperation::Add }))
    } else {
        None
    }
}

/// The ids listed under `key`, or none.
pub open spec fn ids_in(m: Map<u64, Vec<u64>>, key: u64) -> Seq<u64> {
    if m.contains_key(key) {
        m[key]@
    } else {
        Seq::empty()
    }
}

/// The ids listed under a user, or none.
pub open spec fn user_ids_in(m: Map<Seq<char>, Vec<u64>>, user: Seq<char>) -> Seq<u64> {
    if m.contains_key(user) {
        m[user]@
    } else {
        Seq::empty()
    }
}

/// The state and response after `sender` proposed for `job_id`; the proposal gets id `pre.next_proposal_id`.
pub open spec fn proposal_submitted(
    pre: ContractState,
    post: ContractState,
    now: u64,
    sender: String,
    job_id: u64,
    delivery_time_days: u64,
    milestone_count: nat,
    bundle_json: Seq<char>,
    resp: Response,
) -> bool {
    let id = pre.next_proposal_id;
    let job = pre.jobs@[job_id];
    let p = post.proposals@[id];
    &&& post == (ContractState {
        proposals: post.proposals,
        next_proposal_id: post.next_proposal_id,
        job_proposals: post.job_proposals,
        user_proposals: post.user_proposals,
        jobs: post.jobs,
        user_rate_limits: post.user_rate_limits,
        ..pre
    })
    &&& post.next_proposal_id == id + 1
    &&& post.proposals@ == pre.proposals@.insert(id, p)
    &&& p.id == id
    &&& p.freelancer == sender
    &&& p.job_id == job_id
    &&& p.delivery_time_days == delivery_time_days
    &&& p.contact_preference == ContactPreference::Platform
    &&& p.agreed_to_terms
    &&& p.agreed_to_escrow
    &&& p.submitted_at == now
    &&& content_hash_parts(p.content_hash) == content_hash_of(content_hash_chars(bundle_json), "proposal_content"@, seconds_of(now) as u64)
    &&& p.proposal_score == 0
    &&& p.has_milestones == (milestone_count > 0)
    &&& p.milestone_count == (if milestone_count > 255 { 255 } else { milestone_count }) as u8
    &&& p.estimated_hours == 0
    &&& post.job_proposals@ == pre.job_proposals@.insert(job_id, post.job_proposals@[job_id])
    &&& post.job_proposals@[job_id]@ == ids_in(pre.job_proposals@, job_id).push(id)
    &&& post.user_proposals@ == pre.user_proposals@.insert(sender@, post.user_proposals@[sender@])
    &&& post.user_proposals@[sender@]@ == user_ids_in(pre.user_proposals@, sender@).push(id)
    &&& post.jobs@ == pre.jobs@.insert(job_id, Job { total_proposals: (job.total_proposals + 1) as u64, ..job })
    &&& post.user_rate_limits@ == limits_after(pre, now, sender@, RateLimitAction::SubmitProposal)
    &&& resp.msgs() == Seq::<(bool, Seq<char>, Seq<char>, u128)>::empty()
    &&& resp.attrs() == seq![
        ("method"@, "submit_proposal"@),
        ("id"@, decimal_chars(id as nat)),
        ("user"@, sender@),
        ("job_id"@, decimal_chars(job_id as nat)),
    ]
}

/// What `execute_submit_proposal` does: when it refuses and with which error, and the state and response when it succeeds.
pub open spec fn submit_proposal_outcome(
    pre: ContractState,
    post: ContractState,
    env: Env,
    info: MessageInfo,
    job_id: u64,
    cover_letter: Seq<char>,
    delivery_time_days: u64,
    milestone_count: usize,
    bundle_json: Seq<char>,
    r: Result<Response, ContractError>,
) -> bool {
    let refusal = proposal_refusal(pre, env.time, info.sender@, job_id, cover_letter, delivery_time_days);
    &&& r is Err <==> refusal is Some
    &&& r matches Err(e) ==> refusal == Some(e@) && post == pre
    &&& r matches Ok(resp) ==> proposal_submitted(pre, post, env.time, info.sender, job_id, delivery_time_days, milestone_count as nat, bundle_json, resp)
}

/// Submits a proposal for an open job, once per freelancer and job. Its texts are published
/// off-chain; `bundle_json` is the serialized content bundle, whose hash the proposal records.
pub fn execute_submit_proposal(
    state: &mut ContractState,
    env: &Env,
    info: &MessageInfo,
    job_id: u64,
    cover_letter: &str,
    delivery_time_days: u64,
    milestone_count: usize,
    bundle_json: &str,
) -> (r: Result<Response, ContractError>)
    requires
        old(state).wf(),
        crate::state::tables_have_room(old(state)),
    ensures
        crate::state::room_used(*old(state), *final(state)),
        submit_proposal_outcome(*old(state), *final(state), *env, *info, job_id, cover_letter@, delivery_time_days, milestone_count, bundle_json@, r),
        final(state).wf(),
{
    if state.config.paused {
        return Err(ContractError::ContractPaused {  });
    }
    let _ = crate::security::reentrancy_guard(state);
    let rl = match next_rate_limit(state.user_rate_limits.get(info.sender.as_str()), env.time, RateLimitAction::SubmitProposal) {
        Ok(rl) => rl,
        Err(e) => return Err(e),
    };
    let job = match state.jobs.get(&job_id) {
        Some(j) => j,
        None => return Err(ContractError::JobNotFound {  }),
    };
    if job.status != JobStatus::Open {
        let name = job_status_string(job.status);
        return Err(ContractError::InvalidInput { error: crate::text::concat2("Cannot submit proposal to job with status ", name.as_str()) });
    }
    if crate::text::str_eq(job.poster.as_str(), info.sender.as_str()) {
        return Err(ContractError::Unauthorized {  });
    }
    match crate::security::validate_text_inputs(cover_letter, cover_letter, None, None) {
        Ok(()) => {},
        Err(e) => return Err(e),
    }
    match crate::helpers::validate_job_title(cover_letter) {
        Ok(()) => {},
        Err(e) => return Err(e),
    }
    match crate::helpers::validate_job_description(cover_letter) {
        Ok(()) => {},
        Err(e) => return Err(e),
    }
    match crate::helpers::validate_duration(delivery_time_days, state.config.max_job_duration_days) {
        Ok(()) => {},
        Err(e) => return Err(e),
    }
    if find_proposal(state, job_id, info.sender.as_str()) {
        return Err(invalid_input("You already have a proposal for this job"));
    }
    if state.next_proposal_id == u64::MAX || job.total_proposals == u64::MAX {
        return Err(overflow(OverflowOperation::Add));
    }
    let proposal_id = state.next_proposal_id;
    let hash = match generate_content_hash(bundle_json) {
        Ok(h) => h,
        Err(e) => return Err(ContractError::Std(e)),
    };
    let content_hash = match create_content_hash(hash.as_str(), "proposal_content", seconds(env.time)) {
        Ok(c) => c,
        Err(e) => return Err(ContractError::Std(e)),
    };
    let count: u8 = if milestone_count > 255 {
        255
    } else {
        milestone_count as u8
    };
    let proposal = Proposal {
        id: proposal_id,
        freelancer: info.sender.clone(),
        job_id,
        delivery_time_days,
        contact_preference: ContactPreference::Platform,
        agreed_to_terms: true,
        agreed_to_escrow: true,
        submitted_at: env.time,
        content_hash,
        proposal_score: 0,
        has_milestones: milestone_count > 0,
        milestone_count: count,
        estimated_hours: 0,
    };
    let mut job_list = match state.job_proposals.get(&job_id) {
        Some(l) => crate::state::copy_vec(l),
        None => Vec::new(),
    };
    job_list.push(proposal_id);
    let mut user_list = match state.user_proposals.get(info.sender.as_str()) {
        Some(l) => crate::state::copy_vec(l),
        None => Vec::new(),
    };
    user_list.push(proposal_id);
    state.next_proposal_id = proposal_id + 1;
    state.proposals.insert(proposal_id, proposal);
    state.job_proposals.insert(job_id, job_list);
    state.user_proposals.insert(info.sender.clone(), user_list);
    let mut updated = state.jobs.remove(&job_id).unwrap();
    updated.total_proposals = updated.total_proposals + 1;
    state.jobs.insert(job_id, updated);
    state.user_rate_limits.insert(info.sender.clone(), rl);
    let resp = Response::new();
    let resp = resp.add_attribute("method", String::from_str("submit_proposal"));
    let resp = resp.add_attribute("id", u64_to_string(proposal_id));
    let resp = resp.add_attribute("user", info.sender.clone());
    let resp = resp.add_attribute("job_id", u64_to_string(job_id));
    proof {
        assert(resp.attrs() =~= seq![
            ("method"@, "submit_proposal"@),
            ("id"@, decimal_chars(proposal_id as nat)),
            ("user"@, info.sender@),
            ("job_id"@, decimal_chars(job_id as nat)),
        ]);
        assert(state.jobs@ =~= old(state).jobs@.insert(job_id, state.jobs@[job_id]));
        assert(*state == (ContractState {
            proposals: state.proposals,
            next_proposal_id: state.next_proposal_id,
            job_proposals: state.job_proposals,
            user_proposals: state.user_proposals,
            jobs: state.jobs,
            user_rate_limits: state.user_rate_limits,
            ..*old(state)
        }));
    }
    Ok(resp)
}

/// Why the common checks refuse `action` by `sender`: a paused contract, then the daily limit.
pub open spec fn security_refusal(pre: ContractState, now: u64, sender: Seq<char>, action: RateLimitAction) -> Option<ErrorView> {
    if pre.config.paused {
        Some(ErrorView::ContractPaused)
    } else {
        rate_refusal(pre, now, sender, action)
    }
}

/// Why an operation by `sender` on job `job_id` is refused before its own checks: the common
/// checks, a missing job, a sender who is not the poster, or a status outside `allowed`.
pub open spec fn job_owner_refusal(
    pre: ContractState,
    now: u64,
    sender: Seq<char>,
    job_id: u64,
    action: RateLimitAction,
    operation: Seq<char>,
    allowed: Seq<JobStatus>,
) -> Option<ErrorView> {
    let job = pre.jobs@[job_id];
    let sec = security_refusal(pre, now, sender, action);
    if sec is Some {
        sec
    } else if !pre.jobs@.contains_key(job_id) {
        Some(ErrorView::JobNotFound)
    } else if job.poster@ != sender {
        Some(ErrorView::Unauthorized)
    } else if !allowed.contains(job.status) {
        Some(ErrorView::InvalidInput(crate::contract_helpers::status_message(operation, "job"@, job_status_name(job.status))))
    } else {
        None
    }
}

/// Runs the common checks for `action` by `sender`, returning the sender's rate limit after it.
pub(crate) fn security_checks(state: &ContractState, env: &Env, sender: &str, action: RateLimitAction) -> (r: Result<RateLimit, ContractError>)
    requires
        state.wf(),
    ensures
        ({
            let refusal = security_refusal(*state, env.time, sender@, action);
            &&& r is Err <==> refusal is Some
            &&& r matches Err(e) ==> refusal == Some(e@)
            &&& r matches Ok(rl) ==> rl == rate_limit_after(stored_rate_limit(state, sender@), env.time, action)
        }),
{
    match crate::helpers::ensure_not_paused(state) {
        Ok(()) => {},
        Err(e) => return Err(e),
    }
    let _ = crate::security::reentrancy_guard(state);
    next_rate_limit(state.user_rate_limits.get(sender), env.time, action)
}

/// Loads a job for an operation by its poster, checking the common checks, the poster and the status.
fn job_for_owner<'a>(
    state: &'a ContractState,
    env: &Env,
    sender: &str,
    job_id: u64,
    action: RateLimitAction,
    operation: &str,
    allowed: &[JobStatus],
) -> (r: Result<(&'a Job, RateLimit), ContractError>)
    requires
        state.wf(),
    ensures
        ({
            let refusal = job_owner_refusal(*state, env.time, sender@, job_id, action, operation@, allowed@);
            &&& r is Err <==> refusal is Some
            &&& r matches Err(e) ==> refusal == Some(e@)
            &&& r matches Ok((j, rl)) ==> *j == state.jobs@[job_id] && rl == rate_limit_after(stored_rate_limit(state, sender@), env.time, action)
        }),
{
    let rl = match security_checks(state, env, sender, action) {
        Ok(rl) => rl,
        Err(e) => return Err(e),
    };
    let job = match state.jobs.get(&job_id) {
        Some(j) => j,
        None => return Err(ContractError::JobNotFound {  }),
    };
    match crate::contract_helpers::validate_user_authorization(job.poster.as_str(), sender) {
        Ok(()) => {},
        Err(e) => return Err(e),
    }
    match crate::contract_helpers::validate_job_status_for_operation(&job.status, allowed, operation) {
        Ok(()) => {},
        Err(e) => return Err(e),
    }
    Ok((job, rl))
}

/// The statuses in which a job can be cancelled.
pub open spec fn cancellable() -> Seq<JobStatus> {
    seq![JobStatus::Open, JobStatus::InProgress]
}

/// The state and response after the poster cancelled `job_id` at `now`.
pub open spec fn job_cancelled(pre: ContractState, post: ContractState, now: u64, sender: Seq<char>, job_id: u64, resp: Response) -> bool {
    let job = pre.jobs@[job_id];
    &&& post == (ContractState { jobs: post.jobs, user_rate_limits: post.user_rate_limits, ..pre })
    &&& post.jobs@ == pre.jobs@.insert(job_id, Job { status: JobStatus::Cancelled, updated_at: now, ..job })
    &&& post.user_rate_limits@ == limits_after(pre, now, sender, RateLimitAction::CancelJob)
    &&& resp.msgs() == Seq::<(bool, Seq<char>, Seq<char>, u128)>::empty()
    &&& resp.attrs() == crate::contract_helpers::response_attrs("cancel_job"@, job_id, sender, Seq::empty())
}

/// What `execute_cancel_job` does: when it refuses and with which error, and the state and response when it succeeds.
pub open spec fn cancel_job_outcome(
    pre: ContractState,
    post: ContractState,
    env: Env,
    info: MessageInfo,
    job_id: u64,
    r: Result<Response, ContractError>,
) -> bool {
    let refusal = job_owner_refusal(pre, env.time, info.sender@, job_id, RateLimitAction::CancelJob, "cancel"@, cancellable());
    &&& r is Err <==> refusal is Some
    &&& r matches Err(e) ==> refusal == Some(e@) && post == pre
    &&& r matches Ok(resp) ==> job_cancelled(pre, post, env.time, info.sender@, job_id, resp)
}

/// The poster cancels an open job or one in progress.
pub fn execute_cancel_job(state: &mut ContractState, env: &Env, info: &MessageInfo, job_id: u64) -> (r: Result<Response, ContractError>)
    requires
        old(state).wf(),
        crate::state::tables_have_room(old(state)),
    ensures
        crate::state::room_used(*old(state), *final(state)),
        cancel_job_outcome(*old(state), *final(state), *env, *info, job_id, r),
        final(state).wf(),
{
    let allowed = [JobStatus::Open, JobStatus::InProgress];
    assert(allowed@ =~= cancellable());
    let rl = match job_for_owner(state, env, info.sender.as_str(), job_id, RateLimitAction::CancelJob, "cancel", &allowed) {
        Ok((_, rl)) => rl,
        Err(e) => return Err(e),
    };
    let mut updated = state.jobs.remove(&job_id).unwrap();
    updated.status = JobStatus::Cancelled;
    updated.updated_at = env.time;
    state.jobs.insert(job_id, updated);
    state.user_rate_limits.insert(info.sender.clone(), rl);
    let attrs = crate::contract_helpers::build_response_attributes("cancel_job", job_id, info.sender.as_str(), Vec::new());
    let resp = Response { messages: Vec::new(), attributes: attrs };
    proof {
        assert(resp.msgs() =~= Seq::<(bool, Seq<char>, Seq<char>, u128)>::empty());
        assert(state.jobs@ =~= old(state).jobs@.insert(job_id, state.jobs@[job_id]));
        assert(*state == (ContractState { jobs: state.jobs, user_rate_limits: state.user_rate_limits, ..*old(state) }));
    }
    Ok(resp)
}

/// The id of the escrow that a job was once posted with.
pub open spec fn legacy_escrow_id(job_id: u64) -> Seq<char> {
    "job_"@ + decimal_chars(job_id as nat)
}

/// Whether the escrow a job was posted with is stored and still holds its funds.
pub open spec fn holds_posting_escrow(pre: ContractState, job_id: u64) -> bool {
    pre.escrows@.contains_key(legacy_escrow_id(job_id)) && !pre.escrows@[legacy_escrow_id(job_id)].released
}

/// Why deleting `job_id` is refused, if it is.
pub open spec fn delete_refusal(pre: ContractState, now: u64, sender: Seq<char>, job_id: u64) -> Option<ErrorView> {
    let owner = job_owner_refusal(pre, now, sender, job_id, RateLimitAction::DeleteJob, "delete"@, seq![JobStatus::Open]);
    let e = pre.escrows@[legacy_escrow_id(job_id)];
    if owner is Some {
        owner
    } else if pre.jobs@[job_id].total_proposals > 0 {
        Some(ErrorView::InvalidInput("Cannot delete job with existing proposals"@))
    } else if holds_posting_escrow(pre, job_id) && e.amount + e.platform_fee > u128::MAX {
        Some(ErrorView::Overflow(OverflowError { operation: OverflowOperation::Add }))
    } else {
        None
    }
}

/// The state and response after the poster deleted `job_id`. Only what the job's own escrow
/// still holds is paid back, to the client who paid it in, and the escrow is then released;
/// a job without such an escrow is deleted with no payment.
pub open spec fn job_deleted(pre: ContractState, post: ContractState, now: u64, sender: Seq<char>, job_id: u64, resp: Response) -> bool {
    let eid = legacy_escrow_id(job_id);
    let e = pre.escrows@[eid];
    &&& post == (ContractState { jobs: post.jobs, escrows: post.escrows, user_rate_limits: post.user_rate_limits, ..pre })
    &&& post.jobs@ == pre.jobs@.remove(job_id)
    &&& post.escrows@ == if holds_posting_escrow(pre, job_id) {
        pre.escrows@.insert(eid, EscrowState { released: true, ..e })
    } else {
        pre.escrows@
    }
    &&& post.user_rate_limits@ == limits_after(pre, now, sender, RateLimitAction::DeleteJob)
    &&& resp.msgs() == if holds_posting_escrow(pre, job_id) {
        seq![crate::chain::bank_view(e.client@, "uusdc"@, (e.amount + e.platform_fee) as u128)]
    } else {
        Seq::empty()
    }
    &&& resp.attrs() == crate::contract_helpers::response_attrs("delete_job"@, job_id, sender, Seq::empty())
}

/// What `execute_delete_job` does: when it refuses and with which error, and the state and response when it succeeds.
pub open spec fn delete_job_outcome(
    pre: ContractState,
    post: ContractState,
    env: Env,
    info: MessageInfo,
    job_id: u64,
    r: Result<Response, ContractError>,
) -> bool {
    let refusal = delete_refusal(pre, env.time, info.sender@, job_id);
    &&& r is Err <==> refusal is Some
    &&& r matches Err(e) ==> refusal == Some(e@) && post == pre
    &&& r matches Ok(resp) ==> job_deleted(pre, post, env.time, info.sender@, job_id, resp)
}

/// The poster deletes an open job without proposals.
pub fn execute_delete_job(state: &mut ContractState, env: &Env, info: &MessageInfo, job_id: u64) -> (r: Result<Response, ContractError>)
    requires
        old(state).wf(),
        crate::state::tables_have_room(old(state)),
    ensures
        crate::state::room_used(*old(state), *final(state)),
        delete_job_outcome(*old(state), *final(state), *env, *info, job_id, r),
        final(state).wf(),
{
    let allowed = [JobStatus::Open];
    assert(allowed@ =~= seq![JobStatus::Open]);
    let (job, rl) = match job_for_owner(state, env, info.sender.as_str(), job_id, RateLimitAction::DeleteJob, "delete", &allowed) {
        Ok(x) => x,
        Err(e) => return Err(e),
    };
    if job.total_proposals > 0 {
        return Err(invalid_input("Cannot delete job with existing proposals"));
    }
    let n = u64_to_string(job_id);
    let eid = crate::text::concat2("job_", n.as_str());
    let ghost eidv = legacy_escrow_id(job_id);
    assert(eid@ == eidv);
    let refund: Option<(String, u128)> = match state.escrows.get(eid.as_str()) {
        Some(e) => {
            if e.released {
                None
            } else {
                match e.amount.checked_add(e.platform_fee) {
                    Some(total) => Some((e.client.clone(), total)),
                    None => return Err(overflow(OverflowOperation::Add)),
                }
            }
        },
        None => None,
    };
    let ghost e0 = old(state).escrows@[eidv];
    state.jobs.remove(&job_id);
    let mut messages: Vec<crate::chain::CosmosMsg> = Vec::new();
    match refund {
        Some((client, total)) => {
            let mut e = state.escrows.remove(eid.as_str()).unwrap();
            e.released = true;
            state.escrows.insert(eid, e);
            messages.push(crate::chain::bank_send(client, "uusdc", total));
        },
        None => {},
    }
    state.user_rate_limits.insert(info.sender.clone(), rl);
    let attrs = crate::contract_helpers::build_response_attributes("delete_job", job_id, info.sender.as_str(), Vec::new());
    let resp = Response { messages, attributes: attrs };
    proof {
        if holds_posting_escrow(*old(state), job_id) {
            assert(resp.msgs() =~= seq![crate::chain::bank_view(e0.client@, "uusdc"@, (e0.amount + e0.platform_fee) as u128)]);
            assert(state.escrows@ =~= old(state).escrows@.insert(eidv, EscrowState { released: true, ..e0 }));
        } else {
            assert(resp.msgs() =~= Seq::<(bool, Seq<char>, Seq<char>, u128)>::empty());
            assert(state.escrows@ =~= old(state).escrows@);
        }
        assert(*state == (ContractState { jobs: state.jobs, escrows: state.escrows, user_rate_limits: state.user_rate_limits, ..*old(state) }));
    }
    Ok(resp)
}

/// Why a new text of a job is refused, if it is: it is checked both as a title and as a description.
pub open spec fn edit_text_refusal(t: Seq<char>) -> Option<ErrorView> {
    let text = text_inputs_refusal(t, t, None, None);
    if text is Some {
        text
    } else if !valid_job_title(t) {
        Some(ErrorView::InvalidInput("Title must be between 5-100 characters"@))
    } else if !valid_job_description(t) {
        Some(ErrorView::InvalidInput("Description must be between 10-1000 characters"@))
    } else {
        None
    }
}

/// Why editing `job_id` is refused, if it is.
pub open spec fn edit_job_refusal(
    pre: ContractState,
    now: u64,
    sender: Seq<char>,
    job_id: u64,
    title: Option<Seq<char>>,
    description: Option<Seq<char>>,
    budget: Option<u128>,
    category: Option<Seq<char>>,
    skills_count: Option<nat>,
    duration_days: Option<u64>,
) -> Option<ErrorView> {
    let owner = job_owner_refusal(pre, now, sender, job_id, RateLimitAction::EditJob, "edit"@, seq![JobStatus::Open]);
    let max = pre.config.max_job_duration_days;
    if owner is Some {
        owner
    } else if title matches Some(t) && edit_text_refusal(t) is Some {
        edit_text_refusal(title->Some_0)
    } else if description matches Some(d) && edit_text_refusal(d) is Some {
        edit_text_refusal(description->Some_0)
    } else if budget matches Some(b) && b != 0 && b < MIN_PAID_BUDGET {
        Some(ErrorView::EscrowAmountTooLow { min: decimal_chars(MIN_PAID_BUDGET as nat) })
    } else if category matches Some(c) && !crate::contract_helpers::length_ok(c, 1, 50) {
        Some(ErrorView::InvalidInput(crate::contract_helpers::length_message("Category"@, 1, 50)))
    } else if skills_count matches Some(n) && (n < 1 || n > 20) {
        Some(ErrorView::InvalidInput(crate::contract_helpers::count_message("Skills required"@, 1, 20)))
    } else if duration_days matches Some(d) && (d == 0 || d > max) {
        Some(ErrorView::InvalidInput("Duration must be between 1-"@ + decimal_chars(max as nat) + " days"@))
    } else {
        None
    }
}

/// The job after an edit at `now`: the given values replace the old ones, the rest stays.
pub open spec fn job_edited(
    old_job: Job,
    new_job: Job,
    now: u64,
    budget: Option<u128>,
    category: Option<Seq<char>>,
    skills_count: Option<nat>,
    duration_days: Option<u64>,
    has_milestones: Option<bool>,
    bundle_json: Option<Seq<char>>,
) -> bool {
    &&& new_job.id == old_job.id
    &&& new_job.poster == old_job.poster
    &&& new_job.budget == (match budget { Some(b) => b, None => old_job.budget })
    &&& new_job.budget_range == (match budget { Some(b) => budget_range_of(b), None => old_job.budget_range })
    &&& new_job.duration_days == (match duration_days { Some(d) => d, None => old_job.duration_days })
    &&& new_job.deadline == (match duration_days { Some(d) => days_after(old_job.created_at, d) as u64, None => old_job.deadline })
    &&& new_job.status == old_job.status
    &&& new_job.assigned_freelancer == old_job.assigned_freelancer
    &&& new_job.created_at == old_job.created_at
    &&& new_job.updated_at == now
    &&& new_job.escrow_id == old_job.escrow_id
    &&& new_job.total_proposals == old_job.total_proposals
    &&& (match bundle_json {
        Some(b) => content_hash_parts(new_job.content_hash) == content_hash_of(content_hash_chars(b), "job_content"@, seconds_of(now) as u64),
        None => new_job.content_hash == old_job.content_hash,
    })
    &&& new_job.category_id == (match category { Some(c) => job_category_id(lowercase_chars(c)), None => old_job.category_id })
    &&& new_job.skill_tags@ == (match skills_count { Some(n) => skill_tags_for(n), None => old_job.skill_tags@ })
    &&& new_job.experience_level == old_job.experience_level
    &&& new_job.is_remote == old_job.is_remote
    &&& new_job.has_milestones == (match has_milestones { Some(m) => m, None => old_job.has_milestones })
    &&& new_job.urgency_level == old_job.urgency_level
}

/// The view of an optional string slice.
pub open spec fn opt_str(s: Option<&str>) -> Option<Seq<char>> {
    match s {
        Some(x) => Some(x@),
        None => None,
    }
}

/// The number of skills in an optional list.
pub open spec fn opt_len(s: Option<&Vec<String>>) -> Option<nat> {
    match s {
        Some(v) => Some(v@.len()),
        None => None,
    }
}

fn check_edit_text(t: Option<&str>) -> (r: Result<(), ContractError>)
    ensures
        r is Err <==> (t matches Some(x) && edit_text_refusal(x@) is Some),
        r matches Err(e) ==> Some(e@) == edit_text_refusal(t->Some_0@),
{
    if let Some(x) = t {
        match crate::security::validate_text_inputs(x, x, None, None) {
            Ok(()) => {},
            Err(e) => return Err(e),
        }
        match crate::helpers::validate_job_title(x) {
            Ok(()) => {},
            Err(e) => return Err(e),
        }
        match crate::helpers::validate_job_description(x) {
            Ok(()) => {},
            Err(e) => return Err(e),
        }
    }
    Ok(())
}

/// What `execute_edit_job` does: when it refuses and with which error, and the state and response when it succeeds.
pub open spec fn edit_job_outcome(
    pre: ContractState,
    post: ContractState,
    env: Env,
    info: MessageInfo,
    job_id: u64,
    title: Option<Seq<char>>,
    description: Option<Seq<char>>,
    budget: Option<u128>,
    category: Option<Seq<char>>,
    skills_required: Option<nat>,
    duration_days: Option<u64>,
    has_milestones: Option<bool>,
    bundle_json: Option<Seq<char>>,
    r: Result<Response, ContractError>,
) -> bool {
    let refusal = edit_job_refusal(pre, env.time, info.sender@, job_id, title, description, budget, category, skills_required, duration_days);
    &&& r is Err <==> refusal is Some
    &&& r matches Err(e) ==> refusal == Some(e@) && post == pre
    &&& r matches Ok(resp) ==> {
        &&& post == (ContractState { jobs: post.jobs, user_rate_limits: post.user_rate_limits, ..pre })
        &&& post.jobs@ == pre.jobs@.insert(job_id, post.jobs@[job_id])
        &&& job_edited(pre.jobs@[job_id], post.jobs@[job_id], env.time, budget, category, skills_required, duration_days, has_milestones, bundle_json)
        &&& post.user_rate_limits@ == limits_after(pre, env.time, info.sender@, RateLimitAction::EditJob)
        &&& resp.msgs() == Seq::<(bool, Seq<char>, Seq<char>, u128)>::empty()
        &&& resp.attrs() == crate::contract_helpers::response_attrs("edit_job"@, job_id, info.sender@, Seq::empty())
    }
}

/// The poster edits an open job: each value given replaces the stored one. New texts are
/// published off-chain; `bundle_json`, when given, is the new serialized content bundle.
pub fn execute_edit_job(
    state: &mut ContractState,
    env: &Env,
    info: &MessageInfo,
    job_id: u64,
    title: Option<&str>,
    description: Option<&str>,
    budget: Option<u128>,
    category: Option<&str>,
    skills_required: Option<&Vec<String>>,
    duration_days: Option<u64>,
    has_milestones: Option<bool>,
    bundle_json: Option<&str>,
) -> (r: Result<Response, ContractError>)
    requires
        old(state).wf(),
        crate::state::tables_have_room(old(state)),
        edit_job_refusal(*old(state), env.time, info.sender@, job_id, opt_str(title), opt_str(description), budget, opt_str(category), opt_len(skills_required), duration_days) is None
            ==> (duration_days matches Some(d) ==> days_after(old(state).jobs@[job_id].created_at, d) <= u64::MAX),
    ensures
        crate::state::room_used(*old(state), *final(state)),
        edit_job_outcome(*old(state), *final(state), *env, *info, job_id, crate::jobs::opt_str(title), crate::jobs::opt_str(description), budget, crate::jobs::opt_str(category), crate::jobs::opt_len(skills_required), duration_days, has_milestones, crate::jobs::opt_str(bundle_json), r),
        final(state).wf(),
{
    let allowed = [JobStatus::Open];
    assert(allowed@ =~= seq![JobStatus::Open]);
    let (job, rl) = match job_for_owner(state, env, info.sender.as_str(), job_id, RateLimitAction::EditJob, "edit", &allowed) {
        Ok(x) => x,
        Err(e) => return Err(e),
    };
    match check_edit_text(title) {
        Ok(()) => {},
        Err(e) => return Err(e),
    }
    match check_edit_text(description) {
        Ok(()) => {},
        Err(e) => return Err(e),
    }
    if let Some(b) = budget {
        match crate::helpers::validate_budget(b) {
            Ok(()) => {},
            Err(e) => return Err(e),
        }
    }
    if let Some(c) = category {
        match crate::contract_helpers::validate_string_field(c, "Category", 1, 50) {
            Ok(()) => {},
            Err(e) => return Err(e),
        }
    }
    if let Some(sk) = skills_required {
        match crate::contract_helpers::validate_collection_size(sk.as_slice(), "Skills required", 1, 20) {
            Ok(()) => {},
            Err(e) => return Err(e),
        }
    }
    if let Some(d) = duration_days {
        match crate::helpers::validate_duration(d, state.config.max_job_duration_days) {
            Ok(()) => {},
            Err(e) => return Err(e),
        }
    }
    let content = match bundle_json {
        Some(b) => {
            let hash = match generate_content_hash(b) {
                Ok(h) => h,
                Err(e) => return Err(ContractError::Std(e)),
            };
            match create_content_hash(hash.as_str(), "job_content", seconds(env.time)) {
                Ok(c) => Some(c),
                Err(e) => return Err(ContractError::Std(e)),
            }
        },
        None => None,
    };
    let mut updated = state.jobs.remove(&job_id).unwrap();
    let ghost old_job = updated;
    if let Some(b) = budget {
        updated.budget = b;
        updated.budget_range = budget_range(b);
    }
    if let Some(c) = category {
        updated.category_id = job_category(c);
    }
    if let Some(sk) = skills_required {
        updated.skill_tags = skill_tags(sk.len());
    }
    if let Some(d) = duration_days {
        updated.duration_days = d;
        updated.deadline = crate::helpers::get_future_timestamp(updated.created_at, d);
    }
    if let Some(m) = has_milestones {
        updated.has_milestones = m;
    }
    if let Some(c) = content {
        updated.content_hash = c;
    }
    updated.updated_at = env.time;
    state.jobs.insert(job_id, updated);
    state.user_rate_limits.insert(info.sender.clone(), rl);
    let attrs = crate::contract_helpers::build_response_attributes("edit_job", job_id, info.sender.as_str(), Vec::new());
    let resp = Response { messages: Vec::new(), attributes: attrs };
    proof {
        assert(resp.msgs() =~= Seq::<(bool, Seq<char>, Seq<char>, u128)>::empty());
        assert(state.jobs@ =~= old(state).jobs@.insert(job_id, state.jobs@[job_id]));
        assert(*state == (ContractState { jobs: state.jobs, user_rate_limits: state.user_rate_limits, ..*old(state) }));
    }
    Ok(resp)
}

/// Why editing proposal `proposal_id` is refused, if it is.
pub open spec fn edit_proposal_refusal(pre: ContractState, now: u64, sender: Seq<char>, proposal_id: u64) -> Option<ErrorView> {
    let sec = security_refusal(pre, now, sender, RateLimitAction::EditProposal);
    if sec is Some {
        sec
    } else if !pre.proposals@.contains_key(proposal_id) {
        Some(ErrorView::Std(crate::error::StdErrorView::NotFound { kind: proposal_kind() }))
    } else if pre.proposals@[proposal_id].freelancer@ != sender {
        Some(ErrorView::Unauthorized)
    } else {
        None
    }
}

/// What `execute_edit_proposal` does: when it refuses and with which error, and the state and response when it succeeds.
pub open spec fn edit_proposal_outcome(
    pre: ContractState,
    post: ContractState,
    env: Env,
    info: MessageInfo,
    proposal_id: u64,
    delivery_time_days: Option<u64>,
    milestone_count: Option<usize>,
    bundle_json: Option<Seq<char>>,
    r: Result<Response, ContractError>,
) -> bool {
    let refusal = edit_proposal_refusal(pre, env.time, info.sender@, proposal_id);
    let p = pre.proposals@[proposal_id];
    let q = post.proposals@[proposal_id];
    &&& r is Err <==> refusal is Some
    &&& r matches Err(e) ==> refusal == Some(e@) && post == pre
    &&& r matches Ok(resp) ==> {
        &&& post == (ContractState { proposals: post.proposals, user_rate_limits: post.user_rate_limits, ..pre })
        &&& post.proposals@ == pre.proposals@.insert(proposal_id, q)
        &&& q.delivery_time_days == (match delivery_time_days { Some(d) => d, None => p.delivery_time_days })
        &&& q.has_milestones == (match milestone_count { Some(n) => n > 0, None => p.has_milestones })
        &&& q.milestone_count == (match milestone_count { Some(n) => (if n > 255 { 255 } else { n }) as u8, None => p.milestone_count })
        &&& (match bundle_json {
            Some(b) => content_hash_parts(q.content_hash) == content_hash_of(content_hash_chars(b), "proposal_content"@, seconds_of(env.time) as u64),
            None => q.content_hash == p.content_hash,
        })
        &&& q == (Proposal {
            delivery_time_days: q.delivery_time_days,
            has_milestones: q.has_milestones,
            milestone_count: q.milestone_count,
            content_hash: q.content_hash,
            ..p
        })
        &&& post.user_rate_limits@ == limits_after(pre, env.time, info.sender@, RateLimitAction::EditProposal)
        &&& resp.msgs() == Seq::<(bool, Seq<char>, Seq<char>, u128)>::empty()
        &&& resp.attrs() == crate::contract_helpers::response_attrs("edit_proposal"@, proposal_id, info.sender@, Seq::empty())
    }
}

/// The freelancer edits a proposal: each value given replaces the stored one. A new cover letter
/// or milestones are published off-chain; `bundle_json`, when given, is the new serialized bundle.
pub fn execute_edit_proposal(
    state: &mut ContractState,
    env: &Env,
    info: &MessageInfo,
    proposal_id: u64,
    delivery_time_days: Option<u64>,
    milestone_count: Option<usize>,
    bundle_json: Option<&str>,
) -> (r: Result<Response, ContractError>)
    requires
        old(state).wf(),
        crate::state::tables_have_room(old(state)),
    ensures
        crate::state::room_used(*old(state), *final(state)),
        edit_proposal_outcome(*old(state), *final(state), *env, *info, proposal_id, delivery_time_days, milestone_count, crate::jobs::opt_str(bundle_json), r),
        final(state).wf(),
{
    let rl = match security_checks(state, env, info.sender.as_str(), RateLimitAction::EditProposal) {
        Ok(rl) => rl,
        Err(e) => return Err(e),
    };
    let proposal = match state.proposals.get(&proposal_id) {
        Some(p) => p,
        None => return Err(crate::error::not_found("Proposal")),
    };
    if !crate::text::str_eq(proposal.freelancer.as_str(), info.sender.as_str()) {
        return Err(ContractError::Unauthorized {  });
    }
    let content = match bundle_json {
        Some(b) => {
            let hash = match generate_content_hash(b) {
                Ok(h) => h,
                Err(e) => return Err(ContractError::Std(e)),
            };
            match create_content_hash(hash.as_str(), "proposal_content", seconds(env.time)) {
                Ok(c) => Some(c),
                Err(e) => return Err(ContractError::Std(e)),
            }
        },
        None => None,
    };
    let mut updated = state.proposals.remove(&proposal_id).unwrap();
    if let Some(d) = delivery_time_days {
        updated.delivery_time_days = d;
    }
    if let Some(n) = milestone_count {
        updated.has_milestones = n > 0;
        updated.milestone_count = if n > 255 {
            255
        } else {
            n as u8
        };
    }
    if let Some(c) = content {
        updated.content_hash = c;
    }
    state.proposals.insert(proposal_id, updated);
    state.user_rate_limits.insert(info.sender.clone(), rl);
    let attrs = crate::contract_helpers::build_response_attributes("edit_proposal", proposal_id, info.sender.as_str(), Vec::new());
    let resp = Response { messages: Vec::new(), attributes: attrs };
    proof {
        assert(resp.msgs() =~= Seq::<(bool, Seq<char>, Seq<char>, u128)>::empty());
        assert(state.proposals@ =~= old(state).proposals@.insert(proposal_id, state.proposals@[proposal_id]));
        assert(*state == (ContractState { proposals: state.proposals, user_rate_limits: state.user_rate_limits, ..*old(state) }));
    }
    Ok(resp)
}

/// The platform's share of an amount: `fee_percent` percent, rounded down.
pub fn calculate_platform_fee(amount: u128, fee_percent: u64) -> (r: u128)
    requires
        amount * fee_percent <= u128::MAX,
    ensures
        r == (amount * fee_percent) / 100,
{
    amount * (fee_percent as u128) / 100
}

/// Why raising a dispute over `job_id` through the job operations is refused, if it is.
pub open spec fn job_dispute_refusal(pre: ContractState, now: u64, sender: Seq<char>, job_id: u64, reason: Seq<char>) -> Option<ErrorView> {
    let sec = security_refusal(pre, now, sender, RateLimitAction::RaiseDispute);
    let job = pre.jobs@[job_id];
    if sec is Some {
        sec
    } else if !pre.jobs@.contains_key(job_id) {
        Some(ErrorView::Std(crate::error::StdErrorView::NotFound { kind: crate::escrow::job_kind() }))
    } else if sender != job.poster@ && !crate::escrow::is_assigned(job.assigned_freelancer, sender) {
        Some(ErrorView::Unauthorized)
    } else if job.status != JobStatus::InProgress && job.status != JobStatus::Completed {
        Some(ErrorView::InvalidInput("Can only dispute jobs that are in progress or completed"@))
    } else if blen(reason) < 10 || blen(reason) > 1000 {
        Some(ErrorView::InvalidInput("Dispute reason must be 10-1000 characters"@))
    } else {
        None
    }
}

/// What `execute_raise_dispute` does: when it refuses and with which error, and the state and
/// response when it succeeds. The job's escrow, when it has a stored one, is held for a week.
pub open spec fn job_dispute_outcome(
    pre: ContractState,
    post: ContractState,
    env: Env,
    info: MessageInfo,
    job_id: u64,
    reason: String,
    evidence: Vec<String>,
    r: Result<Response, ContractError>,
) -> bool {
    let refusal = job_dispute_refusal(pre, env.time, info.sender@, job_id, reason@);
    let job = pre.jobs@[job_id];
    let did = crate::escrow::dispute_id_for(job_id, env.time);
    let d = post.disputes@[did];
    let eid = job.escrow_id->Some_0@;
    &&& r is Err <==> refusal is Some
    &&& r matches Err(e) ==> refusal == Some(e@) && post == pre
    &&& r matches Ok(resp) ==> {
        &&& post == (ContractState {
            jobs: post.jobs,
            disputes: post.disputes,
            escrows: post.escrows,
            user_rate_limits: post.user_rate_limits,
            ..pre
        })
        &&& post.jobs@ == pre.jobs@.insert(job_id, Job { status: JobStatus::Disputed, updated_at: env.time, ..job })
        &&& d.id@ == did
        &&& post.disputes@ == pre.disputes@.insert(did, crate::state::Dispute {
            id: d.id,
            job_id,
            raised_by: info.sender,
            reason,
            evidence,
            status: DisputeStatus::Raised,
            created_at: env.time,
            resolved_at: None,
            resolution: None,
        })
        &&& if job.escrow_id is Some && pre.escrows@.contains_key(eid) {
            post.escrows@ == pre.escrows@.insert(eid, EscrowState {
                dispute_status: DisputeStatus::Raised,
                dispute_raised_at: Some(env.time),
                dispute_deadline: Some(days_after(env.time, 7) as u64),
                ..pre.escrows@[eid]
            })
        } else {
            post.escrows@ == pre.escrows@
        }
        &&& post.user_rate_limits@ == limits_after(pre, env.time, info.sender@, RateLimitAction::RaiseDispute)
        &&& resp.msgs() == Seq::<(bool, Seq<char>, Seq<char>, u128)>::empty()
        &&& resp.attrs() == crate::contract_helpers::standard_attrs("raise_dispute"@, job_id, info.sender@) + seq![
            ("dispute_id"@, did),
            ("job_id"@, decimal_chars(job_id as nat)),
            ("reason_length"@, decimal_chars(blen(reason@))),
            ("evidence_count"@, decimal_chars(evidence@.len())),
        ]
    }
}

/// The poster or the assigned freelancer disputes a job in progress or completed; the job is
/// marked disputed and its escrow, when stored, is held for a week.
pub fn execute_raise_dispute(
    state: &mut ContractState,
    env: &Env,
    info: &MessageInfo,
    job_id: u64,
    reason: String,
    evidence: Vec<String>,
) -> (r: Result<Response, ContractError>)
    requires
        old(state).wf(),
        crate::state::tables_have_room(old(state)),
        job_dispute_refusal(*old(state), env.time, info.sender@, job_id, reason@) is None ==> days_after(env.time, 7) <= u64::MAX,
    ensures
        crate::state::room_used(*old(state), *final(state)),
        job_dispute_outcome(*old(state), *final(state), *env, *info, job_id, reason, evidence, r),
        final(state).wf(),
{
    let rl = match security_checks(state, env, info.sender.as_str(), RateLimitAction::RaiseDispute) {
        Ok(rl) => rl,
        Err(e) => return Err(e),
    };
    let job = match state.jobs.get(&job_id) {
        Some(j) => j,
        None => return Err(crate::error::not_found("Job")),
    };
    let is_freelancer = match &job.assigned_freelancer {
        Some(f) => crate::text::str_eq(f.as_str(), info.sender.as_str()),
        None => false,
    };
    if !crate::text::str_eq(info.sender.as_str(), job.poster.as_str()) && !is_freelancer {
        return Err(ContractError::Unauthorized {  });
    }
    if job.status != JobStatus::InProgress && job.status != JobStatus::Completed {
        return Err(invalid_input("Can only dispute jobs that are in progress or completed"));
    }
    if reason.as_str().len() < 10 || reason.as_str().len() > 1000 {
        return Err(invalid_input("Dispute reason must be 10-1000 characters"));
    }
    let escrow_id = crate::query_helpers::copy_opt_string(&job.escrow_id);
    let reason_length = u64_to_string(reason.as_str().len() as u64);
    let evidence_count = u64_to_string(evidence.len() as u64);
    let secs = u64_to_string(seconds(env.time));
    let idnum = u64_to_string(job_id);
    let prefix = crate::text::concat3("dispute_", idnum.as_str(), "_");
    let dispute_id = crate::text::concat2(prefix.as_str(), secs.as_str());
    let mut updated_job = state.jobs.remove(&job_id).unwrap();
    updated_job.status = JobStatus::Disputed;
    updated_job.updated_at = env.time;
    state.jobs.insert(job_id, updated_job);
    let dispute = crate::state::Dispute {
        id: dispute_id.clone(),
        job_id,
        raised_by: info.sender.clone(),
        reason,
        evidence,
        status: DisputeStatus::Raised,
        created_at: env.time,
        resolved_at: None,
        resolution: None,
    };
    state.disputes.insert(dispute_id.clone(), dispute);
    if let Some(eid) = escrow_id {
        if state.escrows.contains_key(eid.as_str()) {
            let mut e = state.escrows.remove(eid.as_str()).unwrap();
            e.dispute_status = DisputeStatus::Raised;
            e.dispute_raised_at = Some(env.time);
            e.dispute_deadline = Some(crate::chain::plus_days(env.time, 7));
            state.escrows.insert(eid, e);
        }
    }
    state.user_rate_limits.insert(info.sender.clone(), rl);
    let ghost did = crate::escrow::dispute_id_for(job_id, env.time);
    let mut extra: Vec<(&str, String)> = Vec::new();
    extra.push(("dispute_id", dispute_id));
    extra.push(("job_id", u64_to_string(job_id)));
    extra.push(("reason_length", reason_length));
    extra.push(("evidence_count", evidence_count));
    let attrs = crate::contract_helpers::build_response_attributes("raise_dispute", job_id, info.sender.as_str(), extra);
    let resp = Response { messages: Vec::new(), attributes: attrs };
    proof {
        let job0 = old(state).jobs@[job_id];
        let eid = job0.escrow_id->Some_0@;
        assert(resp.msgs() =~= Seq::<(bool, Seq<char>, Seq<char>, u128)>::empty());
        assert(resp.attrs() =~= crate::contract_helpers::standard_attrs("raise_dispute"@, job_id, info.sender@) + seq![
            ("dispute_id"@, did),
            ("job_id"@, decimal_chars(job_id as nat)),
            ("reason_length"@, decimal_chars(blen(reason@))),
            ("evidence_count"@, decimal_chars(evidence@.len())),
        ]);
        assert(state.jobs@ =~= old(state).jobs@.insert(job_id, state.jobs@[job_id]));
        if job0.escrow_id is Some && old(state).escrows@.contains_key(eid) {
            assert(state.escrows@ =~= old(state).escrows@.insert(eid, state.escrows@[eid]));
        }
        assert(*state == (ContractState {
            jobs: state.jobs,
            disputes: state.disputes,
            escrows: state.escrows,
            user_rate_limits: state.user_rate_limits,
            ..*old(state)
        }));
    }
    Ok(resp)
}

/// Why resolving dispute `id` through the job operations is refused, if it is.
pub open spec fn job_resolution_refusal(pre: ContractState, now: u64, sender: Seq<char>, id: Seq<char>, resolution: Seq<char>) -> Option<ErrorView> {
    let sec = security_refusal(pre, now, sender, RateLimitAction::ResolveDispute);
    let d = pre.disputes@[id];
    let job = pre.jobs@[d.job_id];
    if sec is Some {
        sec
    } else if sender != pre.config.admin@ {
        Some(ErrorView::Unauthorized)
    } else if blen(resolution) < 10 || blen(resolution) > 2000 {
        Some(ErrorView::InvalidInput("Resolution must be 10-2000 characters"@))
    } else if !pre.disputes@.contains_key(id) {
        Some(ErrorView::Std(crate::error::StdErrorView::NotFound { kind: crate::escrow::dispute_kind() }))
    } else if d.status != DisputeStatus::Raised {
        Some(ErrorView::InvalidInput("Dispute is not in raised status"@))
    } else if !pre.jobs@.contains_key(d.job_id) {
        Some(ErrorView::Std(crate::error::StdErrorView::NotFound { kind: crate::escrow::job_kind() }))
    } else if job.status != JobStatus::Disputed {
        Some(ErrorView::InvalidInput("Job is not disputed"@))
    } else {
        None
    }
}

/// Who a resolution pays: the assigned freelancer (or else the poster) when it releases, the
/// poster when it does not.
pub open spec fn resolution_recipient(job: Job, release_to_freelancer: bool) -> Seq<char> {
    if release_to_freelancer && job.assigned_freelancer is Some {
        job.assigned_freelancer->Some_0@
    } else {
        job.poster@
    }
}

/// What `execute_resolve_dispute` does: when it refuses and with which error, and the state and
/// response when it succeeds.
pub open spec fn job_resolution_outcome(
    pre: ContractState,
    post: ContractState,
    env: Env,
    info: MessageInfo,
    dispute_id: String,
    resolution: String,
    release_to_freelancer: bool,
    r: Result<Response, ContractError>,
) -> bool {
    let refusal = job_resolution_refusal(pre, env.time, info.sender@, dispute_id@, resolution@);
    let d = pre.disputes@[dispute_id@];
    let job = pre.jobs@[d.job_id];
    let eid = job.escrow_id->Some_0@;
    let paid = job.escrow_id is Some && pre.escrows@.contains_key(eid);
    &&& r is Err <==> refusal is Some
    &&& r matches Err(e) ==> refusal == Some(e@) && post == pre
    &&& r matches Ok(resp) ==> {
        &&& post == (ContractState {
            jobs: post.jobs,
            disputes: post.disputes,
            escrows: post.escrows,
            user_rate_limits: post.user_rate_limits,
            ..pre
        })
        &&& post.disputes@ == pre.disputes@.insert(dispute_id@, post.disputes@[dispute_id@])
        &&& post.disputes@[dispute_id@].same_as(crate::state::Dispute {
            status: DisputeStatus::Resolved,
            resolved_at: Some(env.time),
            resolution: Some(resolution),
            ..d
        })
        &&& post.jobs@ == pre.jobs@.insert(d.job_id, Job { status: JobStatus::Completed, updated_at: env.time, ..job })
        &&& if paid {
            post.escrows@ == pre.escrows@.insert(eid, EscrowState {
                dispute_status: DisputeStatus::Resolved,
                released: true,
                ..pre.escrows@[eid]
            })
        } else {
            post.escrows@ == pre.escrows@
        }
        &&& post.user_rate_limits@ == limits_after(pre, env.time, info.sender@, RateLimitAction::ResolveDispute)
        &&& resp.msgs() == (if paid {
            seq![crate::chain::bank_view(resolution_recipient(job, release_to_freelancer), "uxion"@, pre.escrows@[eid].amount)]
        } else {
            Seq::<(bool, Seq<char>, Seq<char>, u128)>::empty()
        })
        &&& resp.attrs() == crate::contract_helpers::standard_attrs("resolve_dispute"@, d.job_id, info.sender@) + seq![
            ("dispute_id"@, dispute_id@),
            ("job_id"@, decimal_chars(d.job_id as nat)),
            ("release_to_freelancer"@, crate::text::bool_chars(release_to_freelancer)),
            ("resolution_length"@, decimal_chars(blen(resolution@))),
        ]
    }
}

/// The admin settles a dispute over a disputed job: the dispute is resolved, the job completed,
/// and the job's escrow, when stored, pays its amount to the freelancer or back to the poster.
pub fn execute_resolve_dispute(
    state: &mut ContractState,
    env: &Env,
    info: &MessageInfo,
    dispute_id: String,
    resolution: String,
    release_to_freelancer: bool,
) -> (r: Result<Response, ContractError>)
    requires
        old(state).wf(),
        crate::state::tables_have_room(old(state)),
    ensures
        crate::state::room_used(*old(state), *final(state)),
        job_resolution_outcome(*old(state), *final(state), *env, *info, dispute_id, resolution, release_to_freelancer, r),
        final(state).wf(),
{
    let rl = match security_checks(state, env, info.sender.as_str(), RateLimitAction::ResolveDispute) {
        Ok(rl) => rl,
        Err(e) => return Err(e),
    };
    if !crate::text::str_eq(info.sender.as_str(), state.config.admin.as_str()) {
        return Err(ContractError::Unauthorized {  });
    }
    if resolution.as_str().len() < 10 || resolution.as_str().len() > 2000 {
        return Err(invalid_input("Resolution must be 10-2000 characters"));
    }
    let dispute = match state.disputes.get(dispute_id.as_str()) {
        Some(d) => d,
        None => return Err(crate::error::not_found("Dispute")),
    };
    if dispute.status != DisputeStatus::Raised {
        return Err(invalid_input("Dispute is not in raised status"));
    }
    let job_id = dispute.job_id;
    let job = match state.jobs.get(&job_id) {
        Some(j) => j,
        None => return Err(crate::error::not_found("Job")),
    };
    if job.status != JobStatus::Disputed {
        return Err(invalid_input("Job is not disputed"));
    }
    let recipient = if release_to_freelancer {
        match &job.assigned_freelancer {
            Some(f) => f.clone(),
            None => job.poster.clone(),
        }
    } else {
        job.poster.clone()
    };
    let escrow_id = crate::query_helpers::copy_opt_string(&job.escrow_id);
    let resolution_length = u64_to_string(resolution.as_str().len() as u64);
    let mut updated = dispute.copy();
    updated.status = DisputeStatus::Resolved;
    updated.resolved_at = Some(env.time);
    updated.resolution = Some(resolution);
    state.disputes.insert(dispute_id.clone(), updated);
    let mut messages: Vec<crate::chain::CosmosMsg> = Vec::new();
    if let Some(eid) = escrow_id {
        if state.escrows.contains_key(eid.as_str()) {
            let mut e = state.escrows.remove(eid.as_str()).unwrap();
            e.dispute_status = DisputeStatus::Resolved;
            e.released = true;
            messages.push(crate::chain::bank_send(recipient, "uxion", e.amount));
            state.escrows.insert(eid, e);
        }
    }
    let mut updated_job = state.jobs.remove(&job_id).unwrap();
    updated_job.status = JobStatus::Completed;
    updated_job.updated_at = env.time;
    state.jobs.insert(job_id, updated_job);
    state.user_rate_limits.insert(info.sender.clone(), rl);
    let ghost id_view = dispute_id@;
    let mut extra: Vec<(&str, String)> = Vec::new();
    extra.push(("dispute_id", dispute_id));
    extra.push(("job_id", u64_to_string(job_id)));
    extra.push(("release_to_freelancer", crate::text::bool_to_string(release_to_freelancer)));
    extra.push(("resolution_length", resolution_length));
    let attrs = crate::contract_helpers::build_response_attributes("resolve_dispute", job_id, info.sender.as_str(), extra);
    let resp = Response { messages, attributes: attrs };
    proof {
        let d0 = old(state).disputes@[id_view];
        let job0 = old(state).jobs@[d0.job_id];
        let eid = job0.escrow_id->Some_0@;
        assert(resp.attrs() =~= crate::contract_helpers::standard_attrs("resolve_dispute"@, d0.job_id, info.sender@) + seq![
            ("dispute_id"@, id_view),
            ("job_id"@, decimal_chars(d0.job_id as nat)),
            ("release_to_freelancer"@, crate::text::bool_chars(release_to_freelancer)),
            ("resolution_length"@, decimal_chars(blen(resolution@))),
        ]);
        if job0.escrow_id is Some && old(state).escrows@.contains_key(eid) {
            assert(resp.msgs() =~= seq![crate::chain::bank_view(resolution_recipient(job0, release_to_freelancer), "uxion"@, old(state).escrows@[eid].amount)]);
            assert(state.escrows@ =~= old(state).escrows@.insert(eid, state.escrows@[eid]));
        } else {
            assert(resp.msgs() =~= Seq::<(bool, Seq<char>, Seq<char>, u128)>::empty());
        }
        assert(state.jobs@ =~= old(state).jobs@.insert(d0.job_id, state.jobs@[d0.job_id]));
        assert(state.disputes@ =~= old(state).disputes@.insert(id_view, state.disputes@[id_view]));
        assert(*state == (ContractState {
            jobs: state.jobs,
            disputes: state.disputes,
            escrows: state.escrows,
            user_rate_limits: state.user_rate_limits,
            ..*old(state)
        }));
    }
    Ok(resp)
}

} // verus!
