//! Job operations addressed by proposal or job alone: hiring through a proposal,
//! completing a job with its payment, and listing proposals newest first.
use vstd::prelude::*;
use crate::chain::{bank_send, bank_view, Env, MessageInfo, Response};
use crate::contract_helpers::{build_response_attributes, standard_attrs, status_message, validate_job_status_for_operation, validate_user_authorization};
use crate::error::{ContractError, ErrorView, StdError, StdErrorView};
use crate::escrow::job_kind;
use crate::jobs::{job_status_name, legacy_escrow_id, limits_after, proposal_kind, security_checks, security_refusal};
use crate::msg::ProposalsResponse;
use crate::security::RateLimitAction;
use crate::state::{ContractState, EscrowState, Job, JobStatus, Proposal, ProposalStatus};
use crate::text::{decimal_chars, u128_to_string, u64_to_string};

verus! {

broadcast use vstd::std_specs::hash::group_hash_axioms;

/// Why the poster's acceptance of `proposal_id` is refused, if it is.
pub open spec fn accept_by_proposal_refusal(pre: ContractState, now: u64, sender: Seq<char>, proposal_id: u64) -> Option<ErrorView> {
    let sec = security_refusal(pre, now, sender, RateLimitAction::AcceptProposal);
    let p = pre.proposals@[proposal_id];
    let job = pre.jobs@[p.job_id];
    if sec is Some {
        sec
    } else if !pre.proposals@.contains_key(proposal_id) {
        Some(ErrorView::Std(StdErrorView::NotFound { kind: proposal_kind() }))
    } else if !pre.jobs@.contains_key(p.job_id) {
        Some(ErrorView::Std(StdErrorView::NotFound { kind: job_kind() }))
    } else if sender != job.poster@ {
        Some(ErrorView::Unauthorized)
    } else if job.status != JobStatus::Open {
        Some(ErrorView::InvalidInput(status_message("accept proposal for"@, "job"@, job_status_name(job.status))))
    } else {
        None
    }
}

/// What accepting `proposal_id` does: when it refuses and with which error; on success the
/// proposal's job is in progress with the proposal's freelancer assigned.
pub open spec fn accept_by_proposal_outcome(
    pre: ContractState,
    post: ContractState,
    env: Env,
    info: MessageInfo,
    proposal_id: u64,
    r: Result<Response, ContractError>,
) -> bool {
    let refusal = accept_by_proposal_refusal(pre, env.time, info.sender@, proposal_id);
    let p = pre.proposals@[proposal_id];
    let job = pre.jobs@[p.job_id];
    &&& r is Err <==> refusal is Some
    &&& r matches Err(e) ==> refusal == Some(e@) && post == pre
    &&& r matches Ok(resp) ==> {
        &&& post == (ContractState { jobs: post.jobs, user_rate_limits: post.user_rate_limits, ..pre })
        &&& post.jobs@ == pre.jobs@.insert(p.job_id, Job {
            status: JobStatus::InProgress,
            assigned_freelancer: Some(p.freelancer),
            updated_at: env.time,
            ..job
        })
        &&& post.user_rate_limits@ == limits_after(pre, env.time, info.sender@, RateLimitAction::AcceptProposal)
        &&& resp.msgs() == Seq::<(bool, Seq<char>, Seq<char>, u128)>::empty()
        &&& resp.attrs() == standard_attrs("accept_proposal"@, proposal_id, info.sender@) + seq![
            ("job_id"@, decimal_chars(p.job_id as nat)),
            ("freelancer"@, p.freelancer@),
        ]
    }
}

/// The poster of an open job hires the freelancer of one of its proposals, named by the
/// proposal alone.
pub fn execute_accept_proposal(state: &mut ContractState, env: &Env, info: &MessageInfo, proposal_id: u64) -> (r: Result<Response, ContractError>)
    requires
        old(state).wf(),
        crate::state::tables_have_room(old(state)),
    ensures
        crate::state::room_used(*old(state), *final(state)),
        accept_by_proposal_outcome(*old(state), *final(state), *env, *info, proposal_id, r),
        final(state).wf(),
{
    let rl = match security_checks(state, env, info.sender.as_str(), RateLimitAction::AcceptProposal) {
        Ok(rl) => rl,
        Err(e) => return Err(e),
    };
    let proposal = match state.proposals.get(&proposal_id) {
        Some(p) => p,
        None => return Err(ContractError::Std(StdError::NotFound { kind: String::from_str("Proposal") })),
    };
    let job_id = proposal.job_id;
    let freelancer = proposal.freelancer.clone();
    let ghost fv = freelancer@;
    let job = match state.jobs.get(&job_id) {
        Some(j) => j,
        None => return Err(ContractError::Std(StdError::NotFound { kind: String::from_str("Job") })),
    };
    match validate_user_authorization(job.poster.as_str(), info.sender.as_str()) {
        Ok(()) => {},
        Err(e) => return Err(e),
    }
    let allowed = [JobStatus::Open];
    assert(allowed@ =~= seq![JobStatus::Open]);
    match validate_job_status_for_operation(&job.status, &allowed, "accept proposal for") {
        Ok(()) => {},
        Err(e) => return Err(e),
    }
    let mut updated = state.jobs.remove(&job_id).unwrap();
    updated.status = JobStatus::InProgress;
    updated.assigned_freelancer = Some(freelancer.clone());
    updated.updated_at = env.time;
    state.jobs.insert(job_id, updated);
    state.user_rate_limits.insert(info.sender.clone(), rl);
    let mut extra: Vec<(&str, String)> = Vec::new();
    extra.push(("job_id", u64_to_string(job_id)));
    extra.push(("freelancer", freelancer));
    let attrs = build_response_attributes("accept_proposal", proposal_id, info.sender.as_str(), extra);
    let resp = Response { messages: Vec::new(), attributes: attrs };
    proof {
        assert(resp.msgs() =~= Seq::<(bool, Seq<char>, Seq<char>, u128)>::empty());
        assert(resp.attrs() =~= standard_attrs("accept_proposal"@, proposal_id, info.sender@) + seq![
            ("job_id"@, decimal_chars(job_id as nat)),
            ("freelancer"@, fv),
        ]);
        assert(state.jobs@ =~= old(state).jobs@.insert(job_id, state.jobs@[job_id]));
        assert(*state == (ContractState { jobs: state.jobs, user_rate_limits: state.user_rate_limits, ..*old(state) }));
    }
    Ok(resp)
}

/// Why the freelancer's completion of `job_id` is refused, if it is.
pub open spec fn complete_and_pay_refusal(pre: ContractState, now: u64, sender: Seq<char>, job_id: u64) -> Option<ErrorView> {
    let sec = security_refusal(pre, now, sender, RateLimitAction::CompleteJob);
    let job = pre.jobs@[job_id];
    if sec is Some {
        sec
    } else if !pre.jobs@.contains_key(job_id) {
        Some(ErrorView::Std(StdErrorView::NotFound { kind: job_kind() }))
    } else if job.status != JobStatus::InProgress {
        Some(ErrorView::InvalidInput(status_message("complete"@, "job"@, job_status_name(job.status))))
    } else if job.assigned_freelancer is None {
        Some(ErrorView::InvalidInput("Job is not assigned to anyone"@))
    } else if job.assigned_freelancer->Some_0@ != sender {
        Some(ErrorView::Unauthorized)
    } else {
        None
    }
}

/// What completing `job_id` does: when it refuses and with which error; on success the job is
/// completed, the escrow stored under `job_<id>` (if any) is marked released, and the job's
/// whole budget is sent to the freelancer in `uusdc`.
pub open spec fn complete_and_pay_outcome(
    pre: ContractState,
    post: ContractState,
    env: Env,
    info: MessageInfo,
    job_id: u64,
    r: Result<Response, ContractError>,
) -> bool {
    let refusal = complete_and_pay_refusal(pre, env.time, info.sender@, job_id);
    let job = pre.jobs@[job_id];
    let eid = legacy_escrow_id(job_id);
    &&& r is Err <==> refusal is Some
    &&& r matches Err(e) ==> refusal == Some(e@) && post == pre
    &&& r matches Ok(resp) ==> {
        &&& post == (ContractState { jobs: post.jobs, escrows: post.escrows, user_rate_limits: post.user_rate_limits, ..pre })
        &&& post.jobs@ == pre.jobs@.insert(job_id, Job { status: JobStatus::Completed, updated_at: env.time, ..job })
        &&& post.escrows@ == if pre.escrows@.contains_key(eid) {
            pre.escrows@.insert(eid, EscrowState { released: true, ..pre.escrows@[eid] })
        } else {
            pre.escrows@
        }
        &&& post.user_rate_limits@ == limits_after(pre, env.time, info.sender@, RateLimitAction::CompleteJob)
        &&& resp.msgs() == seq![bank_view(info.sender@, "uusdc"@, job.budget)]
        &&& resp.attrs() == standard_attrs("complete_job"@, job_id, info.sender@) + seq![
            ("budget"@, decimal_chars(job.budget as nat)),
        ]
    }
}

/// The assigned freelancer completes a job in progress; its escrow under `job_<id>` is
/// marked released and the budget is sent to the freelancer. The notes are not kept.
pub fn execute_complete_job(
    state: &mut ContractState,
    env: &Env,
    info: &MessageInfo,
    job_id: u64,
    completion_notes: Option<String>,
) -> (r: Result<Response, ContractError>)
    requires
        old(state).wf(),
        crate::state::tables_have_room(old(state)),
    ensures
        crate::state::room_used(*old(state), *final(state)),
        complete_and_pay_outcome(*old(state), *final(state), *env, *info, job_id, r),
        final(state).wf(),
{
    let _ = completion_notes;
    let rl = match security_checks(state, env, info.sender.as_str(), RateLimitAction::CompleteJob) {
        Ok(rl) => rl,
        Err(e) => return Err(e),
    };
    let job = match state.jobs.get(&job_id) {
        Some(j) => j,
        None => return Err(ContractError::Std(StdError::NotFound { kind: String::from_str("Job") })),
    };
    let allowed = [JobStatus::InProgress];
    assert(allowed@ =~= seq![JobStatus::InProgress]);
    match validate_job_status_for_operation(&job.status, &allowed, "complete") {
        Ok(()) => {},
        Err(e) => return Err(e),
    }
    let freelancer = match &job.assigned_freelancer {
        Some(f) => f.clone(),
        None => return Err(crate::error::invalid_input("Job is not assigned to anyone")),
    };
    match validate_user_authorization(freelancer.as_str(), info.sender.as_str()) {
        Ok(()) => {},
        Err(e) => return Err(e),
    }
    let budget = job.budget;
    let mut updated = state.jobs.remove(&job_id).unwrap();
    updated.status = JobStatus::Completed;
    updated.updated_at = env.time;
    state.jobs.insert(job_id, updated);
    let n = u64_to_string(job_id);
    let eid = crate::text::concat2("job_", n.as_str());
    match state.escrows.remove(eid.as_str()) {
        Some(e) => {
            let mut e = e;
            e.released = true;
            state.escrows.insert(eid, e);
        },
        None => {},
    }
    state.user_rate_limits.insert(info.sender.clone(), rl);
    let mut extra: Vec<(&str, String)> = Vec::new();
    extra.push(("budget", u128_to_string(budget)));
    let attrs = build_response_attributes("complete_job", job_id, info.sender.as_str(), extra);
    let mut messages: Vec<crate::chain::CosmosMsg> = Vec::new();
    messages.push(bank_send(freelancer, "uusdc", budget));
    let resp = Response { messages, attributes: attrs };
    proof {
        let eidv = legacy_escrow_id(job_id);
        assert(resp.msgs() =~= seq![bank_view(info.sender@, "uusdc"@, budget)]);
        assert(resp.attrs() =~= standard_attrs("complete_job"@, job_id, info.sender@) + seq![
            ("budget"@, decimal_chars(budget as nat)),
        ]);
        assert(state.jobs@ =~= old(state).jobs@.insert(job_id, state.jobs@[job_id]));
        if old(state).escrows@.contains_key(eidv) {
            assert(state.escrows@ =~= old(state).escrows@.insert(eidv, EscrowState { released: true, ..old(state).escrows@[eidv] }));
        } else {
            assert(state.escrows@ =~= old(state).escrows@);
        }
        assert(*state == (ContractState { jobs: state.jobs, escrows: state.escrows, user_rate_limits: state.user_rate_limits, ..*old(state) }));
    }
    Ok(resp)
}

/// The stored proposals with ids in `[lo, hi)` that satisfy `pred`, highest id first.
pub open spec fn proposals_desc(m: Map<u64, Proposal>, hi: nat, lo: nat, pred: spec_fn(Proposal) -> bool) -> Seq<Proposal>
    decreases hi - lo,
{
    if lo >= hi {
        Seq::empty()
    } else {
        let rest = proposals_desc(m, hi, lo + 1, pred);
        if lo < 0x1_0000_0000_0000_0000 && m.contains_key(lo as u64) && pred(m[lo as u64]) {
            rest.push(m[lo as u64])
        } else {
            rest
        }
    }
}

/// The test that a proposal belongs to `job_id`.
pub open spec fn proposal_for_job(job_id: u64) -> spec_fn(Proposal) -> bool {
    |p: Proposal| p.job_id == job_id
}

/// The test that a proposal was made by `user`.
pub open spec fn proposal_by(user: Seq<char>) -> spec_fn(Proposal) -> bool {
    |p: Proposal| p.freelancer@ == user
}

/// The stored proposals that satisfy `pred`, highest id first.
pub open spec fn newest_proposals(state: &ContractState, pred: spec_fn(Proposal) -> bool) -> Seq<Proposal> {
    proposals_desc(state.proposals@, state.next_proposal_id as nat, 0, pred)
}

/// Whether `p` belongs to `job_id`, computed.
fn is_for_job(p: &Proposal, job_id: u64) -> (b: bool)
    ensures
        b == (proposal_for_job(job_id))(*p),
{
    p.job_id == job_id
}

/// Whether `p` was made by `user`, computed.
fn is_by(p: &Proposal, user: &str) -> (b: bool)
    ensures
        b == (proposal_by(user@))(*p),
{
    crate::text::str_eq(p.freelancer.as_str(), user)
}

/// The proposals of a job, highest id first.
pub fn query_job_proposals(state: &ContractState, job_id: u64) -> (r: ProposalsResponse)
    requires
        state.wf(),
    ensures
        r.proposals@ == newest_proposals(state, proposal_for_job(job_id)),
{
    let ghost pred = proposal_for_job(job_id);
    let hi = state.next_proposal_id;
    let mut proposals: Vec<Proposal> = Vec::new();
    let mut i: u64 = hi;
    while i > 0
        invariant
            i <= hi,
            hi == state.next_proposal_id,
            pred == proposal_for_job(job_id),
            proposals@ == proposals_desc(state.proposals@, hi as nat, i as nat, pred),
        decreases i,
    {
        i = i - 1;
        proof {
            assert(proposals_desc(state.proposals@, hi as nat, i as nat, pred) == {
                let rest = proposals_desc(state.proposals@, hi as nat, (i + 1) as nat, pred);
                if state.proposals@.contains_key(i) && pred(state.proposals@[i]) {
                    rest.push(state.proposals@[i])
                } else {
                    rest
                }
            });
        }
        match state.proposals.get(&i) {
            Some(p) => {
                if is_for_job(p, job_id) {
                    proposals.push(p.copy());
                }
            },
            None => {},
        }
    }
    ProposalsResponse { proposals }
}

/// The proposals an (already validated) user made, highest id first. Proposals carry no
/// status, so `status` selects nothing.
pub fn query_user_proposals(state: &ContractState, user: &str, status: Option<ProposalStatus>) -> (r: ProposalsResponse)
    requires
        state.wf(),
    ensures
        r.proposals@ == newest_proposals(state, proposal_by(user@)),
{
    let _ = status;
    let ghost pred = proposal_by(user@);
    let hi = state.next_proposal_id;
    let mut proposals: Vec<Proposal> = Vec::new();
    let mut i: u64 = hi;
    while i > 0
        invariant
            i <= hi,
            hi == state.next_proposal_id,
            pred == proposal_by(user@),
            proposals@ == proposals_desc(state.proposals@, hi as nat, i as nat, pred),
        decreases i,
    {
        i = i - 1;
        proof {
            assert(proposals_desc(state.proposals@, hi as nat, i as nat, pred) == {
                let rest = proposals_desc(state.proposals@, hi as nat, (i + 1) as nat, pred);
                if state.proposals@.contains_key(i) && pred(state.proposals@[i]) {
                    rest.push(state.proposals@[i])
                } else {
                    rest
                }
            });
        }
        match state.proposals.get(&i) {
            Some(p) => {
                if is_by(p, user) {
                    proposals.push(p.copy());
                }
            },
            None => {},
        }
    }
    ProposalsResponse { proposals }
}

} // verus!
