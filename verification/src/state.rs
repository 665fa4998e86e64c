//! The records the contract keeps and the state that holds them.
use vstd::prelude::*;
use std::collections::HashMap;
use crate::decimal::{Decimal, DECIMAL_FRACTIONAL};
use crate::hash_utils::ContentHash;
use crate::store::StrMap;

verus! {

broadcast use vstd::std_specs::hash::group_hash_axioms;

#[derive(Clone, Copy, Debug, PartialEq, Eq, Structural)]
pub enum JobStatus {
    Open,
    InProgress,
    Completed,
    Cancelled,
    Disputed,
}

#[derive(Clone, Copy, Debug, PartialEq, Eq, Structural)]
pub enum DisputeStatus {
    NotRaised,
    Raised,
    UnderReview,
    Resolved,
}

#[derive(Clone, Copy, Debug, PartialEq, Eq, Structural)]
pub enum ContactPreference {
    Email,
    Platform,
    Phone,
    VideoCall,
    Discord,
}

#[derive(Clone, Copy, Debug, PartialEq, Eq, Structural)]
pub enum ProposalStatus {
    Submitted,
    Accepted,
    Rejected,
    Withdrawn,
}

#[derive(Clone, Copy, Debug, PartialEq, Eq, Structural)]
pub enum EscrowStatus {
    Pending,
    Funded,
    Released,
    Refunded,
    Disputed,
}

#[derive(Clone, Copy, Debug, PartialEq, Eq, Structural)]
pub enum BountySubmissionStatus {
    Submitted,
    UnderReview,
    Approved,
    Rejected,
    Winner,
    Withdrawn,
}

#[derive(Clone, Copy, Debug, PartialEq, Eq, Structural)]
pub enum BountyStatus {
    Open,
    InReview,
    Completed,
    Cancelled,
    Expired,
}

/// A job posting. Titles, descriptions and the like live off-chain behind `content_hash`.
#[derive(Clone, Debug, PartialEq)]
pub struct Job {
    pub id: u64,
    pub poster: String,
    pub budget: u128,
    pub duration_days: u64,
    pub status: JobStatus,
    pub assigned_freelancer: Option<String>,
    pub created_at: u64,
    pub updated_at: u64,
    pub deadline: u64,
    pub escrow_id: Option<String>,
    pub total_proposals: u64,
    pub content_hash: ContentHash,
    pub category_id: u8,
    pub skill_tags: Vec<u8>,
    pub budget_range: u8,
    pub experience_level: u8,
    pub is_remote: bool,
    pub has_milestones: bool,
    pub milestones: Vec<Milestone>,
    pub urgency_level: u8,
}

/// A milestone of a job.
#[derive(Clone, Debug, PartialEq)]
pub struct Milestone {
    pub id: u64,
    pub amount: u128,
    pub deadline: u64,
    pub completed: bool,
    pub completed_at: Option<u64>,
    pub content_hash: ContentHash,
}

/// A freelancer's proposal for a job.
#[derive(Clone, Debug, PartialEq)]
pub struct Proposal {
    pub id: u64,
    pub freelancer: String,
    pub job_id: u64,
    pub delivery_time_days: u64,
    pub contact_preference: ContactPreference,
    pub agreed_to_terms: bool,
    pub agreed_to_escrow: bool,
    pub submitted_at: u64,
    pub content_hash: ContentHash,
    pub proposal_score: u8,
    pub has_milestones: bool,
    pub milestone_count: u8,
    pub estimated_hours: u16,
}

/// A milestone offered in a proposal.
#[derive(Clone, Debug, PartialEq)]
pub struct ProposalMilestone {
    pub title: String,
    pub description: String,
    pub amount: u128,
    pub deadline_days: u64,
}

/// Funds held for a job (or a bounty) until they are released or refunded.
#[derive(Clone, Debug, PartialEq)]
pub struct EscrowState {
    pub id: String,
    pub job_id: u64,
    pub client: String,
    pub freelancer: String,
    pub amount: u128,
    pub platform_fee: u128,
    pub funded_at: u64,
    pub released: bool,
    pub dispute_status: DisputeStatus,
    pub dispute_raised_at: Option<u64>,
    pub dispute_deadline: Option<u64>,
}

/// The platform settings.
#[derive(Clone, Debug, PartialEq)]
pub struct Config {
    pub admin: String,
    pub platform_fee_percent: u64,
    pub min_escrow_amount: u128,
    pub dispute_period_days: u64,
    pub max_job_duration_days: u64,
    pub paused: bool,
}

/// A rating that one party of a job gave the other.
#[derive(Clone, Debug, PartialEq)]
pub struct Rating {
    pub id: String,
    pub job_id: u64,
    pub rater: String,
    pub rated: String,
    pub rating: u8,
    pub comment: String,
    pub created_at: u64,
}

/// The running totals kept for a user.
#[derive(Clone, Debug, PartialEq)]
pub struct UserStats {
    pub total_jobs_posted: u64,
    pub total_jobs_completed: u64,
    pub total_earned: u128,
    pub total_spent: u128,
    pub average_rating: Decimal,
    pub total_ratings: u64,
    pub completion_rate: Decimal,
    pub display_name: Option<String>,
}

/// A dispute raised over a job.
#[derive(Clone, Debug, PartialEq)]
pub struct Dispute {
    pub id: String,
    pub job_id: u64,
    pub raised_by: String,
    pub reason: String,
    pub evidence: Vec<String>,
    pub status: DisputeStatus,
    pub created_at: u64,
    pub resolved_at: Option<u64>,
    pub resolution: Option<String>,
}

/// A user's profile; its texts live off-chain behind `content_hash`.
#[derive(Clone, Debug, PartialEq)]
pub struct UserProfile {
    pub created_at: u64,
    pub updated_at: u64,
    pub content_hash: ContentHash,
    pub total_jobs_completed: u64,
    pub average_rating: Decimal,
    pub total_earned: u128,
    pub is_verified: bool,
    pub response_time_hours: u8,
}

/// Counters kept for the security dashboard.
#[derive(Clone, Debug, PartialEq)]
pub struct SecurityMetrics {
    pub total_jobs: u64,
    pub total_proposals: u64,
    pub total_disputes: u64,
    pub blocked_addresses: Vec<String>,
    pub rate_limit_violations: u64,
    pub last_updated: u64,
}

/// A per-action rate limit record.
#[derive(Clone, Debug, PartialEq)]
pub struct RateLimitState {
    pub user: String,
    pub action_type: String,
    pub count: u64,
    pub window_start: u64,
    pub last_action: u64,
}

/// An entry of the audit log.
#[derive(Clone, Debug, PartialEq)]
pub struct AuditLog {
    pub id: String,
    pub action: String,
    pub user: String,
    pub job_id: Option<u64>,
    pub proposal_id: Option<u64>,
    pub timestamp: u64,
    pub success: bool,
    pub error: Option<String>,
}

/// A bounty: a reward pool shared among the best submissions.
#[derive(Clone, Debug, PartialEq)]
pub struct Bounty {
    pub id: u64,
    pub poster: String,
    pub total_reward: u128,
    pub submission_deadline: u64,
    pub review_period_days: u64,
    pub max_winners: u64,
    pub reward_distribution: Vec<RewardTier>,
    pub status: BountyStatus,
    pub created_at: u64,
    pub updated_at: u64,
    pub total_submissions: u64,
    pub selected_winners: Vec<u64>,
    pub escrow_id: Option<String>,
    pub content_hash: ContentHash,
    pub category_id: u8,
    pub skill_tags: Vec<u8>,
    pub reward_range: u8,
    pub difficulty_level: u8,
    pub estimated_hours: u16,
    pub is_featured: bool,
}

/// The share of a bounty's reward that a winning position receives.
#[derive(Clone, Debug, PartialEq)]
pub struct RewardTier {
    pub position: u64,
    pub percentage: u64,
    pub amount: u128,
}

/// A submission to a bounty.
#[derive(Clone, Debug, PartialEq)]
pub struct BountySubmission {
    pub id: u64,
    pub bounty_id: u64,
    pub submitter: String,
    pub submitted_at: u64,
    pub status: BountySubmissionStatus,
    pub score: Option<u8>,
    pub winner_position: Option<u64>,
    pub content_hash: ContentHash,
    pub deliverable_count: u8,
    pub submission_type: u8,
    pub estimated_completion_hours: u16,
}

/// A user's daily action counters.
#[derive(Clone, Debug, PartialEq)]
pub struct RateLimit {
    pub daily_jobs: u64,
    pub daily_proposals: u64,
    pub daily_bounties: u64,
    pub daily_disputes: u64,
    pub daily_escrows: u64,
    pub daily_admin_actions: u64,
    pub last_reset: u64,
}

/// Everything the contract stores.
pub struct ContractState {
    pub config: Config,
    pub jobs: HashMap<u64, Job>,
    pub next_job_id: u64,
    pub proposals: HashMap<u64, Proposal>,
    pub next_proposal_id: u64,
    pub job_proposals: HashMap<u64, Vec<u64>>,
    pub user_proposals: StrMap<Vec<u64>>,
    pub escrows: StrMap<EscrowState>,
    pub disputes: StrMap<Dispute>,
    pub ratings: StrMap<Rating>,
    pub user_stats: StrMap<UserStats>,
    pub user_profiles: StrMap<UserProfile>,
    pub bounties: HashMap<u64, Bounty>,
    pub next_bounty_id: u64,
    pub bounty_submissions: HashMap<u64, BountySubmission>,
    pub next_bounty_submission_id: u64,
    pub bounty_submissions_by_bounty: HashMap<u64, Vec<u64>>,
    pub user_bounty_submissions: StrMap<Vec<u64>>,
    pub content_hashes: StrMap<ContentHash>,
    pub hash_to_entity: StrMap<String>,
    pub entity_to_hash: StrMap<String>,
    pub bounties_by_category: HashMap<u8, Vec<u64>>,
    pub bounties_by_reward_range: HashMap<u8, Vec<u64>>,
    pub bounties_by_skill: HashMap<u8, Vec<u64>>,
    pub bounties_by_difficulty: HashMap<u8, Vec<u64>>,
    pub active_bounties: HashMap<u64, bool>,
    pub featured_bounties: HashMap<u64, bool>,
    pub user_rate_limits: StrMap<RateLimit>,
    pub rate_limit_states: Vec<RateLimitState>,
    pub blocked_addresses: StrMap<u64>,
    pub audit_logs: StrMap<AuditLog>,
    pub reentrancy_guards: StrMap<bool>,
    pub security_metrics: Option<SecurityMetrics>,
    pub categories: HashMap<u8, String>,
    pub category_counter: Option<u8>,
    pub skills: HashMap<u8, String>,
    pub skill_counter: Option<u8>,
}

/// Room for one more entry in each string-keyed table.
pub open spec fn tables_have_room(s: &ContractState) -> bool {
    &&& s.user_proposals.entry_seq().len() < usize::MAX
    &&& s.escrows.entry_seq().len() < usize::MAX
    &&& s.disputes.entry_seq().len() < usize::MAX
    &&& s.ratings.entry_seq().len() < usize::MAX
    &&& s.user_stats.entry_seq().len() < usize::MAX - 1
    &&& s.user_profiles.entry_seq().len() < usize::MAX
    &&& s.user_bounty_submissions.entry_seq().len() < usize::MAX
    &&& s.content_hashes.entry_seq().len() < usize::MAX
    &&& s.hash_to_entity.entry_seq().len() < usize::MAX
    &&& s.entity_to_hash.entry_seq().len() < usize::MAX
    &&& s.user_rate_limits.entry_seq().len() < usize::MAX
    &&& s.blocked_addresses.entry_seq().len() < usize::MAX
    &&& s.audit_logs.entry_seq().len() < usize::MAX
    &&& s.reentrancy_guards.entry_seq().len() < usize::MAX
}

/// No table of the state grew by more than two records.
pub open spec fn room_used(pre: ContractState, post: ContractState) -> bool {
    &&& post.user_proposals.entry_seq().len() <= pre.user_proposals.entry_seq().len() + 2
    &&& post.escrows.entry_seq().len() <= pre.escrows.entry_seq().len() + 2
    &&& post.disputes.entry_seq().len() <= pre.disputes.entry_seq().len() + 2
    &&& post.ratings.entry_seq().len() <= pre.ratings.entry_seq().len() + 2
    &&& post.user_stats.entry_seq().len() <= pre.user_stats.entry_seq().len() + 2
    &&& post.user_profiles.entry_seq().len() <= pre.user_profiles.entry_seq().len() + 2
    &&& post.user_bounty_submissions.entry_seq().len() <= pre.user_bounty_submissions.entry_seq().len() + 2
    &&& post.content_hashes.entry_seq().len() <= pre.content_hashes.entry_seq().len() + 2
    &&& post.hash_to_entity.entry_seq().len() <= pre.hash_to_entity.entry_seq().len() + 2
    &&& post.entity_to_hash.entry_seq().len() <= pre.entity_to_hash.entry_seq().len() + 2
    &&& post.user_rate_limits.entry_seq().len() <= pre.user_rate_limits.entry_seq().len() + 2
    &&& post.blocked_addresses.entry_seq().len() <= pre.blocked_addresses.entry_seq().len() + 2
    &&& post.audit_logs.entry_seq().len() <= pre.audit_logs.entry_seq().len() + 2
    &&& post.reentrancy_guards.entry_seq().len() <= pre.reentrancy_guards.entry_seq().len() + 2
}

impl ContractState {
    /// The stored records are consistent: every record sits under its own id,
    /// ids were handed out by the counters, a job in progress has a freelancer,
    /// average ratings lie between zero and five, and the platform fee is at most ten percent.
    pub open spec fn wf(&self) -> bool {
        &&& self.user_proposals.wf()
        &&& self.escrows.wf()
        &&& self.disputes.wf()
        &&& self.ratings.wf()
        &&& self.user_stats.wf()
        &&& self.user_profiles.wf()
        &&& self.user_bounty_submissions.wf()
        &&& self.content_hashes.wf()
        &&& self.hash_to_entity.wf()
        &&& self.entity_to_hash.wf()
        &&& self.user_rate_limits.wf()
        &&& self.blocked_addresses.wf()
        &&& self.audit_logs.wf()
        &&& self.reentrancy_guards.wf()
        &&& forall|k: u64| #[trigger] self.jobs@.contains_key(k) ==> k < self.next_job_id && self.jobs@[k].id == k
            && (self.jobs@[k].status == JobStatus::InProgress ==> self.jobs@[k].assigned_freelancer is Some)
        &&& forall|u: Seq<char>| #[trigger] self.user_stats@.contains_key(u)
            ==> self.user_stats@[u].average_rating.atomics <= 5 * DECIMAL_FRACTIONAL
        &&& forall|k: u64| #[trigger] self.proposals@.contains_key(k) ==> k < self.next_proposal_id
            && self.proposals@[k].id == k
        &&& forall|k: u64| #[trigger] self.bounties@.contains_key(k) ==> k < self.next_bounty_id
            && self.bounties@[k].id == k
        &&& forall|k: u64| #[trigger] self.bounty_submissions@.contains_key(k) ==> k
            < self.next_bounty_submission_id && self.bounty_submissions@[k].id == k
        &&& forall|k: Seq<char>| #[trigger] self.ratings@.contains_key(k) ==> 1 <= self.ratings@[k].rating <= 5
        &&& self.config.platform_fee_percent <= 10
    }
}

/// An empty user statistics record.
pub fn default_user_stats() -> (s: UserStats)
    ensures
        s == zero_stats(),
{
    UserStats {
        total_jobs_posted: 0,
        total_jobs_completed: 0,
        total_earned: 0,
        total_spent: 0,
        average_rating: Decimal { atomics: 0 },
        total_ratings: 0,
        completion_rate: Decimal { atomics: 0 },
        display_name: None,
    }
}

/// The statistics of a user the contract has not seen.
pub open spec fn zero_stats() -> UserStats {
    UserStats {
        total_jobs_posted: 0,
        total_jobs_completed: 0,
        total_earned: 0,
        total_spent: 0,
        average_rating: Decimal { atomics: 0 },
        total_ratings: 0,
        completion_rate: Decimal { atomics: 0 },
        display_name: None,
    }
}

/// The statistics stored for `user`, or empty ones.
pub open spec fn stats_of(s: &ContractState, user: Seq<char>) -> UserStats {
    if s.user_stats@.contains_key(user) {
        s.user_stats@[user]
    } else {
        zero_stats()
    }
}

/// Copies a list of integers.
pub fn copy_vec<T: Copy>(v: &Vec<T>) -> (r: Vec<T>)
    ensures
        r@ == v@,
{
    let mut r: Vec<T> = Vec::new();
    let mut i: usize = 0;
    while i < v.len()
        invariant
            i <= v.len(),
            r@ == v@.subrange(0, i as int),
        decreases v.len() - i,
    {
        r.push(v[i]);
        assert(r@ =~= v@.subrange(0, i + 1));
        i = i + 1;
    }
    assert(v@.subrange(0, v.len() as int) =~= v@);
    r
}

fn copy_opt_string(s: &Option<String>) -> (r: Option<String>)
    ensures
        r == *s,
{
    match s {
        Some(x) => Some(x.clone()),
        None => None,
    }
}

impl ContentHash {
    /// A field-by-field copy.
    pub fn copy(&self) -> (r: ContentHash)
        ensures
            r == *self,
    {
        ContentHash {
            hash: self.hash.clone(),
            data_type: self.data_type.clone(),
            size_bytes: self.size_bytes,
            timestamp: self.timestamp,
        }
    }
}

impl Job {
    /// Every field agrees, lists by their contents.
    pub open spec fn same_as(self, other: Job) -> bool {
        &&& self.id == other.id
        &&& self.poster == other.poster
        &&& self.budget == other.budget
        &&& self.duration_days == other.duration_days
        &&& self.status == other.status
        &&& self.assigned_freelancer == other.assigned_freelancer
        &&& self.created_at == other.created_at
        &&& self.updated_at == other.updated_at
        &&& self.deadline == other.deadline
        &&& self.escrow_id == other.escrow_id
        &&& self.total_proposals == other.total_proposals
        &&& self.content_hash == other.content_hash
        &&& self.category_id == other.category_id
        &&& self.skill_tags@ == other.skill_tags@
        &&& self.budget_range == other.budget_range
        &&& self.experience_level == other.experience_level
        &&& self.is_remote == other.is_remote
        &&& self.has_milestones == other.has_milestones
        &&& self.milestones@ == other.milestones@
        &&& self.urgency_level == other.urgency_level
    }

    /// A field-by-field copy.
    pub fn copy(&self) -> (r: Job)
        ensures
            r.same_as(*self),
    {
        Job {
            id: self.id,
            poster: self.poster.clone(),
            budget: self.budget,
            duration_days: self.duration_days,
            status: self.status,
            assigned_freelancer: copy_opt_string(&self.assigned_freelancer),
            created_at: self.created_at,
            updated_at: self.updated_at,
            deadline: self.deadline,
            escrow_id: copy_opt_string(&self.escrow_id),
            total_proposals: self.total_proposals,
            content_hash: self.content_hash.copy(),
            category_id: self.category_id,
            skill_tags: copy_vec(&self.skill_tags),
            budget_range: self.budget_range,
            experience_level: self.experience_level,
            is_remote: self.is_remote,
            has_milestones: self.has_milestones,
            milestones: copy_milestones(&self.milestones),
            urgency_level: self.urgency_level,
        }
    }
}

impl Milestone {
    /// A field-by-field copy.
    pub fn copy(&self) -> (r: Milestone)
        ensures
            r == *self,
    {
        Milestone {
            id: self.id,
            amount: self.amount,
            deadline: self.deadline,
            completed: self.completed,
            completed_at: self.completed_at,
            content_hash: self.content_hash.copy(),
        }
    }
}

/// A copy of a list of milestones.
pub fn copy_milestones(v: &Vec<Milestone>) -> (r: Vec<Milestone>)
    ensures
        r@ == v@,
{
    let mut r: Vec<Milestone> = Vec::new();
    let mut i: usize = 0;
    while i < v.len()
        invariant
            i <= v.len(),
            r@ == v@.subrange(0, i as int),
        decreases v.len() - i,
    {
        r.push(v[i].copy());
        proof {
            assert(r@ =~= v@.subrange(0, i + 1));
        }
        i = i + 1;
    }
    proof {
        assert(r@ =~= v@);
    }
    r
}

impl Proposal {
    /// A field-by-field copy.
    pub fn copy(&self) -> (r: Proposal)
        ensures
            r == *self,
    {
        Proposal {
            id: self.id,
            freelancer: self.freelancer.clone(),
            job_id: self.job_id,
            delivery_time_days: self.delivery_time_days,
            contact_preference: self.contact_preference,
            agreed_to_terms: self.agreed_to_terms,
            agreed_to_escrow: self.agreed_to_escrow,
            submitted_at: self.submitted_at,
            content_hash: self.content_hash.copy(),
            proposal_score: self.proposal_score,
            has_milestones: self.has_milestones,
            milestone_count: self.milestone_count,
            estimated_hours: self.estimated_hours,
        }
    }
}

impl EscrowState {
    /// A field-by-field copy.
    pub fn copy(&self) -> (r: EscrowState)
        ensures
            r == *self,
    {
        EscrowState {
            id: self.id.clone(),
            job_id: self.job_id,
            client: self.client.clone(),
            freelancer: self.freelancer.clone(),
            amount: self.amount,
            platform_fee: self.platform_fee,
            funded_at: self.funded_at,
            released: self.released,
            dispute_status: self.dispute_status,
            dispute_raised_at: self.dispute_raised_at,
            dispute_deadline: self.dispute_deadline,
        }
    }
}

impl Config {
    /// A field-by-field copy.
    pub fn copy(&self) -> (r: Config)
        ensures
            r == *self,
    {
        Config {
            admin: self.admin.clone(),
            platform_fee_percent: self.platform_fee_percent,
            min_escrow_amount: self.min_escrow_amount,
            dispute_period_days: self.dispute_period_days,
            max_job_duration_days: self.max_job_duration_days,
            paused: self.paused,
        }
    }
}

impl Rating {
    /// A field-by-field copy.
    pub fn copy(&self) -> (r: Rating)
        ensures
            r == *self,
    {
        Rating {
            id: self.id.clone(),
            job_id: self.job_id,
            rater: self.rater.clone(),
            rated: self.rated.clone(),
            rating: self.rating,
            comment: self.comment.clone(),
            created_at: self.created_at,
        }
    }
}

impl UserStats {
    /// A field-by-field copy.
    pub fn copy(&self) -> (r: UserStats)
        ensures
            r == *self,
    {
        UserStats {
            total_jobs_posted: self.total_jobs_posted,
            total_jobs_completed: self.total_jobs_completed,
            total_earned: self.total_earned,
            total_spent: self.total_spent,
            average_rating: self.average_rating,
            total_ratings: self.total_ratings,
            completion_rate: self.completion_rate,
            display_name: copy_opt_string(&self.display_name),
        }
    }
}

impl Dispute {
    /// Every field agrees, lists by their contents.
    pub open spec fn same_as(self, other: Dispute) -> bool {
        &&& self.id == other.id
        &&& self.job_id == other.job_id
        &&& self.raised_by == other.raised_by
        &&& self.reason == other.reason
        &&& self.evidence@ == other.evidence@
        &&& self.status == other.status
        &&& self.created_at == other.created_at
        &&& self.resolved_at == other.resolved_at
        &&& self.resolution == other.resolution
    }

    /// A field-by-field copy.
    pub fn copy(&self) -> (r: Dispute)
        ensures
            r.same_as(*self),
    {
        Dispute {
            id: self.id.clone(),
            job_id: self.job_id,
            raised_by: self.raised_by.clone(),
            reason: self.reason.clone(),
            evidence: crate::text::copy_strings(&self.evidence),
            status: self.status,
            created_at: self.created_at,
            resolved_at: self.resolved_at,
            resolution: copy_opt_string(&self.resolution),
        }
    }
}

impl UserProfile {
    /// A field-by-field copy.
    pub fn copy(&self) -> (r: UserProfile)
        ensures
            r == *self,
    {
        UserProfile {
            created_at: self.created_at,
            updated_at: self.updated_at,
            content_hash: self.content_hash.copy(),
            total_jobs_completed: self.total_jobs_completed,
            average_rating: self.average_rating,
            total_earned: self.total_earned,
            is_verified: self.is_verified,
            response_time_hours: self.response_time_hours,
        }
    }
}

impl RewardTier {
    /// A field-by-field copy.
    pub fn copy(&self) -> (r: RewardTier)
        ensures
            r == *self,
    {
        RewardTier { position: self.position, percentage: self.percentage, amount: self.amount }
    }
}

fn copy_tiers(v: &Vec<RewardTier>) -> (r: Vec<RewardTier>)
    ensures
        r@ == v@,
{
    let mut r: Vec<RewardTier> = Vec::new();
    let mut i: usize = 0;
    while i < v.len()
        invariant
            i <= v.len(),
            r@ == v@.subrange(0, i as int),
        decreases v.len() - i,
    {
        r.push(v[i].copy());
        assert(r@ =~= v@.subrange(0, i + 1));
        i = i + 1;
    }
    assert(v@.subrange(0, v.len() as int) =~= v@);
    r
}

impl Bounty {
    /// Every field agrees, lists by their contents.
    pub open spec fn same_as(self, other: Bounty) -> bool {
        &&& self.id == other.id
        &&& self.poster == other.poster
        &&& self.total_reward == other.total_reward
        &&& self.submission_deadline == other.submission_deadline
        &&& self.review_period_days == other.review_period_days
        &&& self.max_winners == other.max_winners
        &&& self.reward_distribution@ == other.reward_distribution@
        &&& self.status == other.status
        &&& self.created_at == other.created_at
        &&& self.updated_at == other.updated_at
        &&& self.total_submissions == other.total_submissions
        &&& self.selected_winners@ == other.selected_winners@
        &&& self.escrow_id == other.escrow_id
        &&& self.content_hash == other.content_hash
        &&& self.category_id == other.category_id
        &&& self.skill_tags@ == other.skill_tags@
        &&& self.reward_range == other.reward_range
        &&& self.difficulty_level == other.difficulty_level
        &&& self.estimated_hours == other.estimated_hours
        &&& self.is_featured == other.is_featured
    }

    /// A field-by-field copy.
    pub fn copy(&self) -> (r: Bounty)
        ensures
            r.same_as(*self),
    {
        Bounty {
            id: self.id,
            poster: self.poster.clone(),
            total_reward: self.total_reward,
            submission_deadline: self.submission_deadline,
            review_period_days: self.review_period_days,
            max_winners: self.max_winners,
            reward_distribution: copy_tiers(&self.reward_distribution),
            status: self.status,
            created_at: self.created_at,
            updated_at: self.updated_at,
            total_submissions: self.total_submissions,
            selected_winners: copy_vec(&self.selected_winners),
            escrow_id: copy_opt_string(&self.escrow_id),
            content_hash: self.content_hash.copy(),
            category_id: self.category_id,
            skill_tags: copy_vec(&self.skill_tags),
            reward_range: self.reward_range,
            difficulty_level: self.difficulty_level,
            estimated_hours: self.estimated_hours,
            is_featured: self.is_featured,
        }
    }
}

impl BountySubmission {
    /// A field-by-field copy.
    pub fn copy(&self) -> (r: BountySubmission)
        ensures
            r == *self,
    {
        BountySubmission {
            id: self.id,
            bounty_id: self.bounty_id,
            submitter: self.submitter.clone(),
            submitted_at: self.submitted_at,
            status: self.status,
            score: self.score,
            winner_position: self.winner_position,
            content_hash: self.content_hash.copy(),
            deliverable_count: self.deliverable_count,
            submission_type: self.submission_type,
            estimated_completion_hours: self.estimated_completion_hours,
        }
    }
}

impl RateLimit {
    /// A field-by-field copy.
    pub fn copy(&self) -> (r: RateLimit)
        ensures
            r == *self,
    {
        RateLimit {
            daily_jobs: self.daily_jobs,
            daily_proposals: self.daily_proposals,
            daily_bounties: self.daily_bounties,
            daily_disputes: self.daily_disputes,
            daily_escrows: self.daily_escrows,
            daily_admin_actions: self.daily_admin_actions,
            last_reset: self.last_reset,
        }
    }
}

impl AuditLog {
    /// A field-by-field copy.
    pub fn copy(&self) -> (r: AuditLog)
        ensures
            r == *self,
    {
        AuditLog {
            id: self.id.clone(),
            action: self.action.clone(),
            user: self.user.clone(),
            job_id: self.job_id,
            proposal_id: self.proposal_id,
            timestamp: self.timestamp,
            success: self.success,
            error: copy_opt_string(&self.error),
        }
    }
}

impl RateLimitState {
    /// A field-by-field copy.
    pub fn copy(&self) -> (r: RateLimitState)
        ensures
            r == *self,
    {
        RateLimitState {
            user: self.user.clone(),
            action_type: self.action_type.clone(),
            count: self.count,
            window_start: self.window_start,
            last_action: self.last_action,
        }
    }
}

} // verus!
