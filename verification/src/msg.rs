//! The messages the contract accepts and the answers its queries give.
use vstd::prelude::*;
use crate::state::{
    AuditLog, Bounty, BountyStatus, BountySubmission, BountySubmissionStatus, Config, Dispute, EscrowState, Job,
    JobStatus, Proposal, ProposalMilestone, Rating, SecurityMetrics, UserProfile, UserStats,
};

verus! {

/// The settings a contract starts with; missing values take their defaults.
#[derive(Clone, Debug, PartialEq)]
pub struct InstantiateMsg {
    pub admin: Option<String>,
    pub platform_fee_percent: Option<u64>,
    pub min_escrow_amount: Option<u128>,
    pub dispute_period_days: Option<u64>,
    pub max_job_duration_days: Option<u64>,
}

/// A milestone as a client describes it when posting or editing a job.
#[derive(Clone, Debug, PartialEq)]
pub struct MilestoneInput {
    pub title: String,
    pub description: String,
    pub amount: u128,
    pub deadline_days: u64,
}

/// The share of a bounty's reward that a winning position receives, in percent.
#[derive(Clone, Copy, Debug, PartialEq, Eq, Structural)]
pub struct RewardTierInput {
    pub position: u64,
    pub percentage: u64,
}

/// A submission chosen as a winner, with its position.
#[derive(Clone, Copy, Debug, PartialEq, Eq, Structural)]
pub struct WinnerSelection {
    pub submission_id: u64,
    pub position: u64,
}

/// The operations the contract performs.
#[derive(Clone, Debug, PartialEq)]
pub enum ExecuteMsg {
    PostJob {
        title: String,
        description: String,
        budget: u128,
        category: String,
        skills_required: Vec<String>,
        duration_days: u64,
        documents: Option<Vec<String>>,
        milestones: Option<Vec<MilestoneInput>>,
    },
    EditJob {
        job_id: u64,
        title: Option<String>,
        description: Option<String>,
        budget: Option<u128>,
        category: Option<String>,
        skills_required: Option<Vec<String>>,
        duration_days: Option<u64>,
        documents: Option<Vec<String>>,
        milestones: Option<Vec<MilestoneInput>>,
    },
    DeleteJob { job_id: u64 },
    CancelJob { job_id: u64 },
    SubmitProposal {
        job_id: u64,
        cover_letter: String,
        delivery_time_days: u64,
        milestones: Option<Vec<ProposalMilestone>>,
    },
    EditProposal {
        proposal_id: u64,
        cover_letter: Option<String>,
        delivery_time_days: Option<u64>,
        milestones: Option<Vec<ProposalMilestone>>,
    },
    WithdrawProposal { proposal_id: u64 },
    AcceptProposal { job_id: u64, proposal_id: u64 },
    CreateEscrow { job_id: u64 },
    CreateEscrowNative { job_id: u64, amount: u128 },
    CreateEscrowCw20 { job_id: u64, token_address: String, amount: u128 },
    FundEscrow { escrow_id: String },
    ReleaseEscrow { escrow_id: String },
    RefundEscrow { escrow_id: String },
    CompleteJob { job_id: u64 },
    CompleteMilestone { job_id: u64, milestone_id: u64 },
    ApproveMilestone { job_id: u64, milestone_id: u64 },
    SubmitRating { job_id: u64, rating: u8, comment: String },
    RaiseDispute { job_id: u64, reason: String, evidence: Vec<String> },
    ResolveDispute { dispute_id: String, resolution: String, release_to_freelancer: bool },
    UpdateConfig {
        admin: Option<String>,
        platform_fee_percent: Option<u64>,
        min_escrow_amount: Option<u128>,
        dispute_period_days: Option<u64>,
        max_job_duration_days: Option<u64>,
    },
    PauseContract {},
    UnpauseContract {},
    UpdateUserProfile {
        name: Option<String>,
        bio: Option<String>,
        skills: Option<Vec<String>>,
        location: Option<String>,
        website: Option<String>,
        portfolio_url: Option<String>,
        hourly_rate: Option<u128>,
        availability: Option<String>,
    },
    CreateBounty {
        title: String,
        description: String,
        requirements: Vec<String>,
        total_reward: u128,
        category: String,
        skills_required: Vec<String>,
        submission_deadline_days: u64,
        review_period_days: u64,
        max_winners: u64,
        reward_distribution: Vec<RewardTierInput>,
        documents: Option<Vec<String>>,
    },
    EditBounty {
        bounty_id: u64,
        title: Option<String>,
        description: Option<String>,
        requirements: Option<Vec<String>>,
        submission_deadline_days: Option<u64>,
        review_period_days: Option<u64>,
        documents: Option<Vec<String>>,
    },
    CancelBounty { bounty_id: u64 },
    SubmitToBounty { bounty_id: u64, title: String, description: String, deliverables: Vec<String> },
    EditBountySubmission {
        submission_id: u64,
        title: Option<String>,
        description: Option<String>,
        deliverables: Option<Vec<String>>,
    },
    WithdrawBountySubmission { submission_id: u64 },
    ReviewBountySubmission {
        submission_id: u64,
        status: BountySubmissionStatus,
        review_notes: Option<String>,
        score: Option<u8>,
    },
    SelectBountyWinners { bounty_id: u64, winner_submissions: Vec<WinnerSelection> },
    CreateBountyEscrow { bounty_id: u64 },
    ReleaseBountyRewards { bounty_id: u64 },
    BlockAddress { address: String, reason: String },
    UnblockAddress { address: String },
    ResetRateLimit { address: String },
}

/// The questions the contract answers.
#[derive(Clone, Debug, PartialEq)]
pub enum QueryMsg {
    GetJob { job_id: u64 },
    GetJobs {
        start_after: Option<u64>,
        limit: Option<u32>,
        category: Option<String>,
        status: Option<JobStatus>,
        poster: Option<String>,
    },
    GetAllJobs { limit: Option<u32>, category: Option<String> },
    GetUserJobs { user: String, status: Option<JobStatus> },
    GetProposal { proposal_id: u64 },
    GetJobProposals { job_id: u64 },
    GetUserProposals { user: String, start_after: Option<u64>, limit: Option<u32> },
    GetEscrow { escrow_id: String },
    GetJobEscrow { job_id: u64 },
    GetUserRatings { user: String },
    GetJobRating { job_id: u64, rater: String },
    GetUserStats { user: String },
    GetPlatformStats {},
    GetDispute { dispute_id: String },
    GetJobDisputes { job_id: u64 },
    GetUserDisputes { user: String },
    GetBounty { bounty_id: u64 },
    GetBounties {
        start_after: Option<u64>,
        limit: Option<u32>,
        category: Option<String>,
        status: Option<BountyStatus>,
        poster: Option<String>,
    },
    GetAllBounties { limit: Option<u32>, category: Option<String> },
    GetUserBounties { user: String, status: Option<BountyStatus> },
    GetBountySubmission { submission_id: u64 },
    GetBountySubmissions { bounty_id: u64, status: Option<BountySubmissionStatus> },
    GetUserBountySubmissions { user: String, start_after: Option<u64>, limit: Option<u32> },
    GetConfig {},
    GetSecurityMetrics {},
    GetAuditLogs { start_after: Option<String>, limit: Option<u32>, action_filter: Option<String> },
    IsAddressBlocked { address: String },
    GetRateLimitStatus { address: String },
}

/// One job.
pub struct JobResponse {
    pub job: Job,
}

/// A list of jobs.
pub struct JobsResponse {
    pub jobs: Vec<Job>,
}

/// One proposal.
pub struct ProposalResponse {
    pub proposal: Proposal,
}

/// A list of proposals.
pub struct ProposalsResponse {
    pub proposals: Vec<Proposal>,
}

/// One escrow.
pub struct EscrowResponse {
    pub escrow: EscrowState,
}

/// A list of ratings.
pub struct RatingsResponse {
    pub ratings: Vec<Rating>,
}

/// A user's statistics.
pub struct UserStatsResponse {
    pub stats: UserStats,
}

/// Totals over the whole platform.
pub struct PlatformStatsResponse {
    pub total_jobs: u64,
    pub open_jobs: u64,
    pub in_progress_jobs: u64,
    pub completed_jobs: u64,
    pub total_bounties: u64,
    pub open_bounties: u64,
    pub completed_bounties: u64,
    pub total_users: u64,
    pub total_value_locked: u128,
}

/// One dispute.
pub struct DisputeResponse {
    pub dispute: Dispute,
}

/// A list of disputes.
pub struct DisputesResponse {
    pub disputes: Vec<Dispute>,
}

/// The platform settings.
pub struct ConfigResponse {
    pub config: Config,
}

/// The security dashboard.
pub struct SecurityMetricsResponse {
    pub metrics: SecurityMetrics,
}

/// A list of audit log entries.
pub struct AuditLogsResponse {
    pub logs: Vec<AuditLog>,
}

/// Whether an address is blocked.
pub struct AddressBlockedResponse {
    pub is_blocked: bool,
    pub reason: Option<String>,
}

/// A user's daily job counter against its limit.
pub struct RateLimitStatusResponse {
    pub current_count: u64,
    pub limit: u64,
    pub window_start: u64,
    pub is_limited: bool,
}

/// One bounty.
pub struct BountyResponse {
    pub bounty: Bounty,
}

/// A list of bounties.
pub struct BountiesResponse {
    pub bounties: Vec<Bounty>,
}

/// One bounty submission.
pub struct BountySubmissionResponse {
    pub submission: BountySubmission,
}

/// A list of bounty submissions.
pub struct BountySubmissionsResponse {
    pub submissions: Vec<BountySubmission>,
}

/// A list of escrows.
pub struct EscrowsResponse {
    pub escrows: Vec<EscrowState>,
}

/// A user's profile.
pub struct UserProfileResponse {
    pub profile: UserProfile,
}

/// Open jobs and bounties found by a text search.
pub struct SearchResponse {
    pub jobs: Vec<Job>,
    pub bounties: Vec<Bounty>,
}

/// The jobs and bounties drawing the most proposals and submissions.
pub struct TrendingResponse {
    pub trending_jobs: Vec<Job>,
    pub trending_bounties: Vec<Bounty>,
}

/// Open jobs and bounties counted by category name.
pub struct CategoriesResponse {
    pub job_categories: Vec<(String, u64)>,
    pub bounty_categories: Vec<(String, u64)>,
}

} // verus!
