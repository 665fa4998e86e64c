//! Read-only answers over the stored records.
use vstd::prelude::*;
use std::collections::HashMap;
use crate::chain::MessageInfo;
use crate::error::{StdError, StdErrorView};
use crate::jobs::job_category_id;
use crate::msg::{
    DisputeResponse, DisputesResponse, EscrowResponse, JobResponse, JobsResponse, ProposalResponse, ProposalsResponse,
    BountiesResponse, BountyResponse, BountySubmissionResponse, BountySubmissionsResponse, PlatformStatsResponse,
    RatingsResponse, UserStatsResponse,
};
use crate::state::{Bounty, BountyStatus, BountySubmission, BountySubmissionStatus, ContractState, Dispute, Job, JobStatus, Proposal, Rating};
use crate::text::lowercase_chars;

verus! {

broadcast use vstd::std_specs::hash::group_hash_axioms;

/// The stored ids in `lo..hi`, ascending.
pub open spec fn ids_up<V>(m: Map<u64, V>, lo: int, hi: int) -> Seq<u64>
    decreases hi - lo,
{
    if hi <= lo {
        Seq::empty()
    } else {
        ids_up(m, lo, hi - 1) + if m.contains_key((hi - 1) as u64) {
            seq![(hi - 1) as u64]
        } else {
            Seq::empty()
        }
    }
}

/// The stored ids in `lo..hi`, descending.
pub open spec fn ids_down<V>(m: Map<u64, V>, lo: int, hi: int) -> Seq<u64>
    decreases hi - lo,
{
    if hi <= lo {
        Seq::empty()
    } else {
        ids_down(m, lo + 1, hi) + if m.contains_key(lo as u64) {
            seq![lo as u64]
        } else {
            Seq::empty()
        }
    }
}

/// The page size a query uses: the limit given or `default`, at most `max`.
pub open spec fn page_limit(limit: Option<u32>, default: u32, max: u32) -> nat {
    let l = match limit {
        Some(l) => l,
        None => default,
    };
    if l < max {
        l as nat
    } else {
        max as nat
    }
}

/// At most the first `n` items of `s`.
pub open spec fn first_n<T>(s: Seq<T>, n: nat) -> Seq<T> {
    if n < s.len() {
        s.take(n as int)
    } else {
        s
    }
}

/// Whether a list of jobs holds, in order, copies of the jobs stored under `ids`.
pub open spec fn jobs_are(jobs: Seq<Job>, m: Map<u64, Job>, ids: Seq<u64>) -> bool {
    &&& jobs.len() == ids.len()
    &&& forall|i: int| 0 <= i < ids.len() ==> #[trigger] jobs[i].same_as(m[ids[i]])
}

/// Whether a job passes the filters of a job listing.
pub open spec fn job_filter(j: Job, category: Option<Seq<char>>, status: Option<JobStatus>, poster: Option<Seq<char>>) -> bool {
    &&& (category matches Some(c) ==> j.category_id == job_category_id(lowercase_chars(c)))
    &&& (status matches Some(s) ==> j.status == s)
    &&& (poster matches Some(p) ==> j.poster@ == p)
}

/// The test of a job id against the filters of a job listing.
pub open spec fn job_id_filter(m: Map<u64, Job>, category: Option<Seq<char>>, status: Option<JobStatus>, poster: Option<Seq<char>>) -> spec_fn(u64) -> bool {
    |k: u64| job_filter(m[k], category, status, poster)
}

/// The ids of a page of jobs: the first `limit` stored after `start_after`, ascending, then filtered.
pub open spec fn job_page_ids(s: ContractState, start_after: Option<u64>, limit: Option<u32>, category: Option<Seq<char>>, status: Option<JobStatus>, poster: Option<Seq<char>>) -> Seq<u64> {
    let lo = match start_after {
        Some(a) => a + 1,
        None => 0,
    };
    first_n(ids_up(s.jobs@, lo, s.next_job_id as int), page_limit(limit, 10, 50)).filter(
        job_id_filter(s.jobs@, category, status, poster),
    )
}

fn job_matches(j: &Job, category: Option<u8>, status: Option<JobStatus>, poster: Option<&str>) -> (r: bool)
    ensures
        r == ((category matches Some(c) ==> j.category_id == c) && (status matches Some(s) ==> j.status == s) && (poster matches Some(
            p,
        ) ==> j.poster@ == p@)),
{
    if let Some(c) = category {
        if j.category_id != c {
            return false;
        }
    }
    if let Some(s) = status {
        if j.status != s {
            return false;
        }
    }
    if let Some(p) = poster {
        if !crate::text::str_eq(j.poster.as_str(), p) {
            return false;
        }
    }
    true
}

/// A page of jobs: the first `limit` (10 by default, at most 50) stored after `start_after`,
/// in ascending id order, keeping those that match the category, status and poster given.
pub fn query_jobs_paginated(
    state: &ContractState,
    start_after: Option<u64>,
    limit: Option<u32>,
    category: Option<&str>,
    status: Option<JobStatus>,
    poster: Option<&str>,
) -> (r: Vec<Job>)
    requires
        state.wf(),
    ensures
        jobs_are(r@, state.jobs@, job_page_ids(*state, start_after, limit, crate::jobs::opt_str(category), status, crate::jobs::opt_str(poster))),
{
    let l = match limit {
        Some(l) => l,
        None => 10,
    };
    let max: usize = if l < 50 {
        l as usize
    } else {
        50
    };
    let category_id = match category {
        Some(c) => Some(crate::jobs::job_category(c)),
        None => None,
    };
    let lo: u64 = match start_after {
        Some(a) => {
            if a >= state.next_job_id {
                state.next_job_id
            } else {
                a + 1
            }
        },
        None => 0,
    };
    let ghost lo_i: int = match start_after {
        Some(a) => a + 1,
        None => 0,
    };
    let ghost pred = job_id_filter(state.jobs@, crate::jobs::opt_str(category), status, crate::jobs::opt_str(poster));
    let mut jobs: Vec<Job> = Vec::new();
    let mut taken: usize = 0;
    let mut k: u64 = lo;
    let ghost mut ids: Seq<u64> = Seq::empty();
    while k < state.next_job_id && taken < max
        invariant
            state.wf(),
            lo <= k <= state.next_job_id,
            lo == lo_i || (lo == state.next_job_id && lo_i > state.next_job_id),
            taken <= max,
            ids == ids_up(state.jobs@, lo_i, k as int),
            taken == ids.len(),
            jobs_are(jobs@, state.jobs@, ids.filter(pred)),
            pred == job_id_filter(state.jobs@, crate::jobs::opt_str(category), status, crate::jobs::opt_str(poster)),
            category_id == (match category {
                Some(c) => Some(job_category_id(lowercase_chars(c@))),
                None => None::<u8>,
            }),
        decreases state.next_job_id - k,
    {
        match state.jobs.get(&k) {
            Some(j) => {
                proof {
                    ids.lemma_filter_push(k, pred);
                }
                let ghost before = jobs@;
                if job_matches(j, category_id, status, poster) {
                    jobs.push(j.copy());
                }
                proof {
                    ids = ids.push(k);
                }
                taken = taken + 1;
            },
            None => {},
        }
        proof {
            assert(ids_up(state.jobs@, lo_i, k + 1) =~= ids_up(state.jobs@, lo_i, k as int) + if state.jobs@.contains_key(k) {
                seq![k]
            } else {
                Seq::empty()
            });
        }
        k = k + 1;
    }
    proof {
        let all = ids_up(state.jobs@, lo_i, state.next_job_id as int);
        lemma_ids_up_split(state.jobs@, lo_i, k as int, state.next_job_id as int);
        if k == state.next_job_id {
            assert(all == ids);
            assert(first_n(all, max as nat) =~= ids);
        } else {
            assert(taken == max);
            let rest = ids_up(state.jobs@, if lo_i > k { lo_i } else { k as int }, state.next_job_id as int);
            assert(all == ids + rest);
            assert(first_n(all, max as nat) =~= ids);
        }
    }
    jobs
}

/// The ascending ids split at any point in between.
pub proof fn lemma_ids_up_split<V>(m: Map<u64, V>, lo: int, mid: int, hi: int)
    requires
        mid <= hi,
    ensures
        ids_up(m, lo, hi) == ids_up(m, lo, mid) + ids_up(m, if lo > mid { lo } else { mid }, hi),
        ids_up(m, lo, mid).len() <= ids_up(m, lo, hi).len(),
    decreases hi - mid,
{
    if mid < hi {
        lemma_ids_up_split(m, lo, mid, hi - 1);
        if lo >= hi {
            assert(ids_up(m, lo, hi) =~= Seq::<u64>::empty());
            assert(ids_up(m, lo, mid) =~= Seq::<u64>::empty());
        } else {
            assert(ids_up(m, lo, hi) =~= ids_up(m, lo, mid) + ids_up(m, if lo > mid { lo } else { mid }, hi));
        }
    } else {
        assert(ids_up(m, if lo > mid { lo } else { mid }, hi) =~= Seq::<u64>::empty());
        assert(ids_up(m, lo, hi) =~= ids_up(m, lo, mid) + Seq::<u64>::empty());
    }
}

/// What `query_job` answers.
pub open spec fn query_job_answer(state: &ContractState, job_id: u64, r: Result<JobResponse, StdError>) -> bool {
    match r {
        Ok(resp) => state.jobs@.contains_key(job_id) && resp.job.same_as(state.jobs@[job_id]),
        Err(e) => !state.jobs@.contains_key(job_id) && e@ == (StdErrorView::NotFound { kind: crate::escrow::job_kind() }),
    }
}

/// The job stored under `job_id`.
pub fn query_job(state: &ContractState, job_id: u64) -> (r: Result<JobResponse, StdError>)
    ensures
        query_job_answer(state, job_id, r),
{
    match state.jobs.get(&job_id) {
        Some(j) => Ok(JobResponse { job: j.copy() }),
        None => Err(StdError::NotFound { kind: String::from_str("Job") }),
    }
}

/// What `query_jobs` answers.
pub open spec fn query_jobs_answer(
    state: &ContractState,
    start_after: Option<u64>,
    limit: Option<u32>,
    category: Option<Seq<char>>,
    status: Option<JobStatus>,
    poster: Option<Seq<char>>,
    r: JobsResponse,
) -> bool {
    jobs_are(r.jobs@, state.jobs@, job_page_ids(*state, start_after, limit, category, status, poster))
}

/// A page of jobs filtered by category, status and (already validated) poster.
pub fn query_jobs(
    state: &ContractState,
    start_after: Option<u64>,
    limit: Option<u32>,
    category: Option<&str>,
    status: Option<JobStatus>,
    poster: Option<&str>,
) -> (r: JobsResponse)
    requires
        state.wf(),
    ensures
        query_jobs_answer(state, start_after, limit, crate::jobs::opt_str(category), status, crate::jobs::opt_str(poster), r),
{
    JobsResponse { jobs: query_jobs_paginated(state, start_after, limit, category, status, poster) }
}

/// What `query_user_jobs` answers.
pub open spec fn query_user_jobs_answer(state: &ContractState, user: Seq<char>, status: Option<JobStatus>, r: JobsResponse) -> bool {
    jobs_are(r.jobs@, state.jobs@, job_page_ids(*state, None, None, None, status, Some(user)))
}

/// The jobs of an (already validated) user: the first page of the listing, filtered by poster and status.
pub fn query_user_jobs(state: &ContractState, user: &str, status: Option<JobStatus>) -> (r: JobsResponse)
    requires
        state.wf(),
    ensures
        query_user_jobs_answer(state, user@, status, r),
{
    JobsResponse { jobs: query_jobs_paginated(state, None, None, None, status, Some(user)) }
}

/// The ids of the landing-page listing: open jobs of the category, newest first, at most
/// `limit` (50 by default, at most 100) and always at least the first match.
pub open spec fn all_jobs_ids(s: ContractState, limit: Option<u32>, category: Option<Seq<char>>) -> Seq<u64> {
    let l = page_limit(limit, 50, 100);
    first_n(
        ids_down(s.jobs@, 0, s.next_job_id as int).filter(job_id_filter(s.jobs@, category, Some(JobStatus::Open), None)),
        if l == 0 { 1 } else { l },
    )
}

/// What `query_all_jobs` answers.
pub open spec fn query_all_jobs_answer(state: &ContractState, limit: Option<u32>, category: Option<Seq<char>>, r: JobsResponse) -> bool {
    jobs_are(r.jobs@, state.jobs@, all_jobs_ids(*state, limit, category))
}

/// Open jobs for the landing page, newest first, optionally of one category.
pub fn query_all_jobs(state: &ContractState, limit: Option<u32>, category: Option<&str>) -> (r: JobsResponse)
    requires
        state.wf(),
    ensures
        query_all_jobs_answer(state, limit, crate::jobs::opt_str(category), r),
{
    let l = match limit {
        Some(l) => l,
        None => 50,
    };
    let max: usize = if l < 100 {
        l as usize
    } else {
        100
    };
    let category_id = match category {
        Some(c) => Some(crate::jobs::job_category(c)),
        None => None,
    };
    let ghost pred = job_id_filter(state.jobs@, crate::jobs::opt_str(category), Some(JobStatus::Open), None);
    let ghost cap: nat = if max == 0 { 1 } else { max as nat };
    let mut jobs: Vec<Job> = Vec::new();
    let mut k: u64 = state.next_job_id;
    let ghost mut ids: Seq<u64> = Seq::empty();
    while k > 0
        invariant
            state.wf(),
            k <= state.next_job_id,
            ids == ids_down(state.jobs@, k as int, state.next_job_id as int),
            jobs_are(jobs@, state.jobs@, ids.filter(pred)),
            jobs@.len() < cap,
            max as nat == page_limit(limit, 50, 100),
            pred == job_id_filter(state.jobs@, crate::jobs::opt_str(category), Some(JobStatus::Open), None),
            cap == (if max == 0 { 1 } else { max as nat }),
            category_id == (match category {
                Some(c) => Some(job_category_id(lowercase_chars(c@))),
                None => None::<u8>,
            }),
        decreases k,
    {
        let id = k - 1;
        proof {
            assert(ids_down(state.jobs@, id as int, state.next_job_id as int) =~= ids + if state.jobs@.contains_key(id) {
                seq![id]
            } else {
                Seq::empty()
            });
        }
        match state.jobs.get(&id) {
            Some(j) => {
                proof {
                    ids.lemma_filter_push(id, pred);
                    ids = ids.push(id);
                }
                if job_matches(j, category_id, Some(JobStatus::Open), None) {
                    jobs.push(j.copy());
                    if jobs.len() >= max {
                        proof {
                            lemma_ids_down_split(state.jobs@, 0, id as int, state.next_job_id as int);
                            let rest = ids_down(state.jobs@, 0, id as int);
                            Seq::filter_distributes_over_add(ids, rest, pred);
                            assert(jobs@.len() == cap);
                            assert(first_n((ids + rest).filter(pred), cap) =~= ids.filter(pred));
                            assert(ids_down(state.jobs@, 0, state.next_job_id as int) == ids + rest);
                            assert(all_jobs_ids(*state, limit, crate::jobs::opt_str(category)) == ids.filter(pred));
                        }
                        return JobsResponse { jobs };
                    }
                }
            },
            None => {},
        }
        k = id;
    }
    proof {
        assert(first_n(ids.filter(pred), cap) =~= ids.filter(pred));
    }
    JobsResponse { jobs }
}

/// The descending ids split at any point in between.
pub proof fn lemma_ids_down_split<V>(m: Map<u64, V>, lo: int, mid: int, hi: int)
    requires
        lo <= mid <= hi,
    ensures
        ids_down(m, lo, hi) == ids_down(m, mid, hi) + ids_down(m, lo, mid),
    decreases mid - lo,
{
    if lo < mid {
        lemma_ids_down_split(m, lo + 1, mid, hi);
        assert(ids_down(m, lo, hi) =~= ids_down(m, mid, hi) + ids_down(m, lo, mid));
    } else {
        assert(ids_down(m, lo, hi) =~= ids_down(m, mid, hi) + Seq::<u64>::empty());
    }
}

/// What `query_proposal` answers.
pub open spec fn query_proposal_answer(state: &ContractState, proposal_id: u64, r: Result<ProposalResponse, StdError>) -> bool {
    match r {
        Ok(resp) => state.proposals@.contains_key(proposal_id) && resp.proposal == state.proposals@[proposal_id],
        Err(e) => !state.proposals@.contains_key(proposal_id) && e@ == (StdErrorView::NotFound { kind: crate::jobs::proposal_kind() }),
    }
}

/// The proposal stored under `proposal_id`.
pub fn query_proposal(state: &ContractState, proposal_id: u64) -> (r: Result<ProposalResponse, StdError>)
    ensures
        query_proposal_answer(state, proposal_id, r),
{
    match state.proposals.get(&proposal_id) {
        Some(p) => Ok(ProposalResponse { proposal: p.copy() }),
        None => Err(StdError::NotFound { kind: String::from_str("Proposal") }),
    }
}

/// The test that an id is stored in `m`.
pub open spec fn stored_in<V>(m: Map<u64, V>) -> spec_fn(u64) -> bool {
    |k: u64| m.contains_key(k)
}

/// The records stored under `ids`, in order.
pub open spec fn records<V>(m: Map<u64, V>, ids: Seq<u64>) -> Seq<V> {
    ids.map_values(|k: u64| m[k])
}

/// What `query_job_proposals` answers.
pub open spec fn query_job_proposals_answer(state: &ContractState, job_id: u64, r: Result<ProposalsResponse, StdError>) -> bool {
    match r {
        Ok(resp) => state.job_proposals@.contains_key(job_id) && resp.proposals@ == records(
            state.proposals@,
            state.job_proposals@[job_id]@.filter(stored_in(state.proposals@)),
        ),
        Err(e) => !state.job_proposals@.contains_key(job_id) && e@ == (StdErrorView::NotFound { kind: crate::jobs::id_list_kind() }),
    }
}

/// The proposals listed for a job, in the order they were submitted; ids whose proposal is gone are skipped.
pub fn query_job_proposals(state: &ContractState, job_id: u64) -> (r: Result<ProposalsResponse, StdError>)
    requires
        state.wf(),
    ensures
        query_job_proposals_answer(state, job_id, r),
{
    let ids = match state.job_proposals.get(&job_id) {
        Some(l) => l,
        None => return Err(StdError::NotFound { kind: String::from_str("Vec<u64>") }),
    };
    let ghost pred = stored_in(state.proposals@);
    let mut proposals: Vec<Proposal> = Vec::new();
    let mut i: usize = 0;
    while i < ids.len()
        invariant
            i <= ids@.len(),
            pred == stored_in(state.proposals@),
            proposals@ == records(state.proposals@, ids@.subrange(0, i as int).filter(pred)),
        decreases ids@.len() - i,
    {
        let id = ids[i];
        proof {
            assert(ids@.subrange(0, i + 1) =~= ids@.subrange(0, i as int).push(id));
            ids@.subrange(0, i as int).lemma_filter_push(id, pred);
        }
        match state.proposals.get(&id) {
            Some(p) => {
                proposals.push(p.copy());
                proof {
                    assert(proposals@ =~= records(state.proposals@, ids@.subrange(0, i + 1).filter(pred)));
                }
            },
            None => {},
        }
        i = i + 1;
    }
    proof {
        assert(ids@.subrange(0, ids@.len() as int) =~= ids@);
    }
    Ok(ProposalsResponse { proposals })
}

/// The test that a proposal id belongs to `user`.
pub open spec fn proposed_by(m: Map<u64, Proposal>, user: Seq<char>) -> spec_fn(u64) -> bool {
    |k: u64| m[k].freelancer@ == user
}

/// The ids of a user's proposals after `start_after`, ascending, at most `limit` (10 by default, at most 50).
pub open spec fn user_proposal_ids(s: ContractState, user: Seq<char>, start_after: Option<u64>, limit: Option<u32>) -> Seq<u64> {
    let lo = match start_after {
        Some(a) => a + 1,
        None => 0,
    };
    first_n(ids_up(s.proposals@, lo, s.next_proposal_id as int).filter(proposed_by(s.proposals@, user)), page_limit(limit, 10, 50))
}

/// What `query_user_proposals` answers.
pub open spec fn query_user_proposals_answer(state: &ContractState, user: Seq<char>, start_after: Option<u64>, limit: Option<u32>, r: ProposalsResponse) -> bool {
    r.proposals@ == records(state.proposals@, user_proposal_ids(*state, user, start_after, limit))
}

/// The proposals of an (already validated) user after `start_after`, ascending by id.
pub fn query_user_proposals(state: &ContractState, user: &str, start_after: Option<u64>, limit: Option<u32>) -> (r: ProposalsResponse)
    requires
        state.wf(),
    ensures
        query_user_proposals_answer(state, user@, start_after, limit, r),
{
    let l = match limit {
        Some(l) => l,
        None => 10,
    };
    let max: usize = if l < 50 {
        l as usize
    } else {
        50
    };
    let lo: u64 = match start_after {
        Some(a) => {
            if a >= state.next_proposal_id {
                state.next_proposal_id
            } else {
                a + 1
            }
        },
        None => 0,
    };
    let ghost lo_i: int = match start_after {
        Some(a) => a + 1,
        None => 0,
    };
    let ghost pred = proposed_by(state.proposals@, user@);
    let mut proposals: Vec<Proposal> = Vec::new();
    let mut k: u64 = lo;
    let ghost mut ids: Seq<u64> = Seq::empty();
    while k < state.next_proposal_id && proposals.len() < max
        invariant
            state.wf(),
            lo <= k <= state.next_proposal_id,
            lo == lo_i || (lo == state.next_proposal_id && lo_i > state.next_proposal_id),
            ids == ids_up(state.proposals@, lo_i, k as int),
            proposals@ == records(state.proposals@, ids.filter(pred)),
            proposals@.len() <= max,
            pred == proposed_by(state.proposals@, user@),
        decreases state.next_proposal_id - k,
    {
        match state.proposals.get(&k) {
            Some(p) => {
                proof {
                    ids.lemma_filter_push(k, pred);
                }
                if crate::text::str_eq(p.freelancer.as_str(), user) {
                    proposals.push(p.copy());
                }
                proof {
                    ids = ids.push(k);
                    assert(proposals@ =~= records(state.proposals@, ids.filter(pred)));
                }
            },
            None => {},
        }
        proof {
            assert(ids_up(state.proposals@, lo_i, k + 1) =~= ids_up(state.proposals@, lo_i, k as int) + if state.proposals@.contains_key(k) {
                seq![k]
            } else {
                Seq::empty()
            });
        }
        k = k + 1;
    }
    proof {
        let all = ids_up(state.proposals@, lo_i, state.next_proposal_id as int);
        lemma_ids_up_split(state.proposals@, lo_i, k as int, state.next_proposal_id as int);
        let rest = ids_up(state.proposals@, if lo_i > k { lo_i } else { k as int }, state.next_proposal_id as int);
        assert(all == ids + rest);
        Seq::filter_distributes_over_add(ids, rest, pred);
        if k == state.next_proposal_id {
            assert(rest =~= Seq::<u64>::empty());
            assert(rest.filter(pred) =~= Seq::<u64>::empty());
            assert(all.filter(pred) =~= ids.filter(pred));
        }
        assert(first_n(all.filter(pred), max as nat) =~= ids.filter(pred));
    }
    ProposalsResponse { proposals }
}

/// What `query_escrow` answers.
pub open spec fn query_escrow_answer(state: &ContractState, escrow_id: Seq<char>, r: Result<EscrowResponse, StdError>) -> bool {
    match r {
        Ok(resp) => state.escrows@.contains_key(escrow_id) && resp.escrow == state.escrows@[escrow_id],
        Err(e) => !state.escrows@.contains_key(escrow_id) && e@ == (StdErrorView::NotFound { kind: crate::escrow::escrow_kind() }),
    }
}

/// The escrow stored under `escrow_id`.
pub fn query_escrow(state: &ContractState, escrow_id: &str) -> (r: Result<EscrowResponse, StdError>)
    requires
        state.wf(),
    ensures
        query_escrow_answer(state, escrow_id@, r),
{
    match state.escrows.get(escrow_id) {
        Some(e) => Ok(EscrowResponse { escrow: e.copy() }),
        None => Err(StdError::NotFound { kind: String::from_str("EscrowState") }),
    }
}

/// What `query_job_escrow` answers.
pub open spec fn query_job_escrow_answer(state: &ContractState, job_id: u64, r: Result<EscrowResponse, StdError>) -> bool {
    ({
        let job = state.jobs@[job_id];
        let eid = job.escrow_id->Some_0@;
        match r {
            Ok(resp) => state.jobs@.contains_key(job_id) && job.escrow_id is Some && state.escrows@.contains_key(eid)
                && resp.escrow == state.escrows@[eid],
            Err(e) => if !state.jobs@.contains_key(job_id) {
                e@ == (StdErrorView::NotFound { kind: crate::escrow::job_kind() })
            } else if job.escrow_id is None {
                e@ == (StdErrorView::NotFound { kind: "Escrow not found for job"@ })
            } else {
                !state.escrows@.contains_key(eid) && e@ == (StdErrorView::NotFound { kind: crate::escrow::escrow_kind() })
            },
        }
    })
}

/// The escrow of a job.
pub fn query_job_escrow(state: &ContractState, job_id: u64) -> (r: Result<EscrowResponse, StdError>)
    requires
        state.wf(),
    ensures
        query_job_escrow_answer(state, job_id, r),
{
    let job = match state.jobs.get(&job_id) {
        Some(j) => j,
        None => return Err(StdError::NotFound { kind: String::from_str("Job") }),
    };
    match &job.escrow_id {
        Some(id) => query_escrow(state, id.as_str()),
        None => Err(StdError::NotFound { kind: String::from_str("Escrow not found for job") }),
    }
}

/// The test that a rating was given or received by `user`.
pub open spec fn rating_of_user(user: Seq<char>) -> spec_fn((String, Rating)) -> bool {
    |e: (String, Rating)| e.1.rater@ == user || e.1.rated@ == user
}

/// The values of a list of stored entries.
pub open spec fn entry_values<V>(entries: Seq<(String, V)>) -> Seq<V> {
    entries.map_values(|e: (String, V)| e.1)
}

/// What `query_user_ratings` answers.
pub open spec fn query_user_ratings_answer(state: &ContractState, user: Seq<char>, r: RatingsResponse) -> bool {
    r.ratings@ == entry_values(state.ratings.entry_seq().filter(rating_of_user(user)))
}

/// The ratings an (already validated) user gave or received, in ascending order of their keys.
pub fn query_user_ratings(state: &ContractState, user: &str) -> (r: RatingsResponse)
    requires
        state.wf(),
    ensures
        query_user_ratings_answer(state, user@, r),
{
    let ghost entries = state.ratings.entry_seq();
    let ghost pred = rating_of_user(user@);
    let n = state.ratings.len();
    let mut ratings: Vec<Rating> = Vec::new();
    let mut i: usize = 0;
    while i < n
        invariant
            n == entries.len(),
            entries == state.ratings.entry_seq(),
            i <= n,
            pred == rating_of_user(user@),
            ratings@ == entry_values(entries.subrange(0, i as int).filter(pred)),
        decreases n - i,
    {
        let rating = state.ratings.value_at(i);
        proof {
            assert(entries.subrange(0, i + 1) =~= entries.subrange(0, i as int).push(entries[i as int]));
            entries.subrange(0, i as int).lemma_filter_push(entries[i as int], pred);
        }
        if crate::text::str_eq(rating.rater.as_str(), user) || crate::text::str_eq(rating.rated.as_str(), user) {
            ratings.push(rating.copy());
        }
        proof {
            assert(ratings@ =~= entry_values(entries.subrange(0, i + 1).filter(pred)));
        }
        i = i + 1;
    }
    proof {
        assert(entries.subrange(0, n as int) =~= entries);
    }
    RatingsResponse { ratings }
}

/// What `query_job_rating` answers.
pub open spec fn query_job_rating_answer(state: &ContractState, job_id: u64, rater: Seq<char>, r: Result<Rating, StdError>) -> bool {
    ({
        let key = crate::jobs::rating_key(job_id, rater);
        match r {
            Ok(x) => state.ratings@.contains_key(key) && x == state.ratings@[key],
            Err(e) => !state.ratings@.contains_key(key) && e@ == (StdErrorView::NotFound { kind: "Rating"@ }),
        }
    })
}

/// The rating that an (already validated) rater gave on a job.
pub fn query_job_rating(state: &ContractState, job_id: u64, rater: &str) -> (r: Result<Rating, StdError>)
    requires
        state.wf(),
    ensures
        query_job_rating_answer(state, job_id, rater@, r),
{
    let id = crate::text::u64_to_string(job_id);
    let key = crate::text::concat3(id.as_str(), "_", rater);
    match state.ratings.get(key.as_str()) {
        Some(x) => Ok(x.copy()),
        None => Err(StdError::NotFound { kind: String::from_str("Rating") }),
    }
}

/// What `query_user_stats` answers.
pub open spec fn query_user_stats_answer(state: &ContractState, user: Seq<char>, r: UserStatsResponse) -> bool {
    r.stats == crate::escrow::stats_in(state.user_stats@, user)
}

/// The statistics of an (already validated) user, empty for a user not seen yet.
pub fn query_user_stats(state: &ContractState, user: &str) -> (r: UserStatsResponse)
    requires
        state.wf(),
    ensures
        query_user_stats_answer(state, user@, r),
{
    UserStatsResponse { stats: crate::escrow::load_stats(state, user) }
}

/// What `query_dispute` answers.
pub open spec fn query_dispute_answer(state: &ContractState, dispute_id: Seq<char>, r: Result<DisputeResponse, StdError>) -> bool {
    match r {
        Ok(resp) => state.disputes@.contains_key(dispute_id) && resp.dispute.same_as(state.disputes@[dispute_id]),
        Err(e) => !state.disputes@.contains_key(dispute_id) && e@ == (StdErrorView::NotFound { kind: crate::escrow::dispute_kind() }),
    }
}

/// The dispute stored under `dispute_id`.
pub fn query_dispute(state: &ContractState, dispute_id: &str) -> (r: Result<DisputeResponse, StdError>)
    requires
        state.wf(),
    ensures
        query_dispute_answer(state, dispute_id@, r),
{
    match state.disputes.get(dispute_id) {
        Some(d) => Ok(DisputeResponse { dispute: d.copy() }),
        None => Err(StdError::NotFound { kind: String::from_str("Dispute") }),
    }
}

/// Whether a list of disputes holds, in order, copies of the given ones.
pub open spec fn disputes_are(disputes: Seq<Dispute>, expected: Seq<Dispute>) -> bool {
    &&& disputes.len() == expected.len()
    &&& forall|i: int| 0 <= i < expected.len() ==> #[trigger] disputes[i].same_as(expected[i])
}

/// The test that a dispute is about `job_id` (`by_job`) or was raised by `user`.
pub open spec fn dispute_filter(by_job: bool, job_id: u64, user: Seq<char>) -> spec_fn((String, Dispute)) -> bool {
    |e: (String, Dispute)| if by_job { e.1.job_id == job_id } else { e.1.raised_by@ == user }
}

fn disputes_where(state: &ContractState, by_job: bool, job_id: u64, user: &str) -> (r: Vec<Dispute>)
    requires
        state.wf(),
    ensures
        disputes_are(r@, entry_values(state.disputes.entry_seq().filter(dispute_filter(by_job, job_id, user@)))),
{
    let ghost entries = state.disputes.entry_seq();
    let ghost pred = dispute_filter(by_job, job_id, user@);
    let n = state.disputes.len();
    let mut out: Vec<Dispute> = Vec::new();
    let mut i: usize = 0;
    while i < n
        invariant
            n == entries.len(),
            entries == state.disputes.entry_seq(),
            i <= n,
            pred == dispute_filter(by_job, job_id, user@),
            disputes_are(out@, entry_values(entries.subrange(0, i as int).filter(pred))),
        decreases n - i,
    {
        let d = state.disputes.value_at(i);
        proof {
            assert(entries.subrange(0, i + 1) =~= entries.subrange(0, i as int).push(entries[i as int]));
            entries.subrange(0, i as int).lemma_filter_push(entries[i as int], pred);
        }
        let keep = if by_job {
            d.job_id == job_id
        } else {
            crate::text::str_eq(d.raised_by.as_str(), user)
        };
        if keep {
            out.push(d.copy());
        }
        proof {
            let before = entry_values(entries.subrange(0, i as int).filter(pred));
            let after = entry_values(entries.subrange(0, i + 1).filter(pred));
            if keep {
                assert(after =~= before.push(*d));
            } else {
                assert(after =~= before);
            }
        }
        i = i + 1;
    }
    proof {
        assert(entries.subrange(0, n as int) =~= entries);
    }
    out
}

/// What `query_job_disputes` answers.
pub open spec fn query_job_disputes_answer(state: &ContractState, job_id: u64, r: DisputesResponse) -> bool {
    disputes_are(r.disputes@, entry_values(state.disputes.entry_seq().filter(dispute_filter(true, job_id, Seq::empty()))))
}

/// The disputes about a job, in ascending order of their ids.
pub fn query_job_disputes(state: &ContractState, job_id: u64) -> (r: DisputesResponse)
    requires
        state.wf(),
    ensures
        query_job_disputes_answer(state, job_id, r),
{
    let disputes = disputes_where(state, true, job_id, "");
    assert(dispute_filter(true, job_id, ""@) =~= dispute_filter(true, job_id, Seq::empty()));
    DisputesResponse { disputes }
}

/// What `query_user_disputes` answers.
pub open spec fn query_user_disputes_answer(state: &ContractState, user: Seq<char>, r: DisputesResponse) -> bool {
    disputes_are(r.disputes@, entry_values(state.disputes.entry_seq().filter(dispute_filter(false, 0, user))))
}

/// The disputes an (already validated) user raised, in ascending order of their ids.
pub fn query_user_disputes(state: &ContractState, user: &str) -> (r: DisputesResponse)
    requires
        state.wf(),
    ensures
        query_user_disputes_answer(state, user@, r),
{
    DisputesResponse { disputes: disputes_where(state, false, 0, user) }
}

/// The test that a stored job has status `s`.
pub open spec fn job_status_is(m: Map<u64, Job>, s: JobStatus) -> spec_fn(u64) -> bool {
    |k: u64| m[k].status == s
}

/// The test that a stored bounty has status `s`.
pub open spec fn bounty_status_is(m: Map<u64, Bounty>, s: BountyStatus) -> spec_fn(u64) -> bool {
    |k: u64| m[k].status == s
}

/// The sum of the budgets of the jobs under `ids`.
pub open spec fn budget_sum(m: Map<u64, Job>, ids: Seq<u64>) -> nat
    decreases ids.len(),
{
    if ids.len() == 0 {
        0
    } else {
        budget_sum(m, ids.drop_last()) + m[ids.last()].budget as nat
    }
}

proof fn lemma_budget_sum_concat(m: Map<u64, Job>, a: Seq<u64>, b: Seq<u64>)
    ensures
        budget_sum(m, a + b) == budget_sum(m, a) + budget_sum(m, b),
    decreases b.len(),
{
    if b.len() == 0 {
        assert(a + b =~= a);
    } else {
        lemma_budget_sum_concat(m, a, b.drop_last());
        assert((a + b).drop_last() =~= a + b.drop_last());
    }
}

/// The platform totals: jobs by status, bounties by status, users with statistics, and the
/// sum of all job budgets as the value locked.
pub open spec fn platform_stats_ok(s: ContractState, r: PlatformStatsResponse) -> bool {
    let jobs = ids_up(s.jobs@, 0, s.next_job_id as int);
    let bounties = ids_up(s.bounties@, 0, s.next_bounty_id as int);
    &&& r.total_jobs == jobs.len()
    &&& r.open_jobs == jobs.filter(job_status_is(s.jobs@, JobStatus::Open)).len()
    &&& r.in_progress_jobs == jobs.filter(job_status_is(s.jobs@, JobStatus::InProgress)).len()
    &&& r.completed_jobs == jobs.filter(job_status_is(s.jobs@, JobStatus::Completed)).len()
    &&& r.total_bounties == bounties.len()
    &&& r.open_bounties == bounties.filter(bounty_status_is(s.bounties@, BountyStatus::Open)).len()
    &&& r.completed_bounties == bounties.filter(bounty_status_is(s.bounties@, BountyStatus::Completed)).len()
    &&& r.total_users == s.user_stats.entry_seq().len()
    &&& r.total_value_locked == budget_sum(s.jobs@, jobs)
}

proof fn lemma_ids_up_bounded<V>(m: Map<u64, V>, lo: int, hi: int)
    requires
        0 <= lo,
    ensures
        ids_up(m, lo, hi).len() <= if hi > lo { hi - lo } else { 0 },
    decreases hi - lo,
{
    if hi > lo {
        lemma_ids_up_bounded(m, lo, hi - 1);
    }
}

/// What `query_platform_stats` answers.
pub open spec fn query_platform_stats_answer(state: &ContractState, r: Result<PlatformStatsResponse, StdError>) -> bool {
    match r {
        Ok(resp) => platform_stats_ok(*state, resp),
        Err(e) => budget_sum(state.jobs@, ids_up(state.jobs@, 0, state.next_job_id as int)) > u128::MAX && e@
            == (StdErrorView::Overflow { source: crate::error::OverflowError { operation: crate::error::OverflowOperation::Add } }),
    }
}

/// Totals over the whole platform; refused when the job budgets sum past the range of an amount.
pub fn query_platform_stats(state: &ContractState) -> (r: Result<PlatformStatsResponse, StdError>)
    requires
        state.wf(),
    ensures
        query_platform_stats_answer(state, r),
{
    let ghost m = state.jobs@;
    let ghost p_open = job_status_is(m, JobStatus::Open);
    let ghost p_prog = job_status_is(m, JobStatus::InProgress);
    let ghost p_done = job_status_is(m, JobStatus::Completed);
    let mut total: u64 = 0;
    let mut open: u64 = 0;
    let mut progress: u64 = 0;
    let mut completed: u64 = 0;
    let mut volume: u128 = 0;
    let mut k: u64 = 0;
    while k < state.next_job_id
        invariant
            state.wf(),
            m == state.jobs@,
            k <= state.next_job_id,
            p_open == job_status_is(m, JobStatus::Open),
            p_prog == job_status_is(m, JobStatus::InProgress),
            p_done == job_status_is(m, JobStatus::Completed),
            total == ids_up(m, 0, k as int).len(),
            open == ids_up(m, 0, k as int).filter(p_open).len(),
            progress == ids_up(m, 0, k as int).filter(p_prog).len(),
            completed == ids_up(m, 0, k as int).filter(p_done).len(),
            volume == budget_sum(m, ids_up(m, 0, k as int)),
        decreases state.next_job_id - k,
    {
        let ghost ids = ids_up(m, 0, k as int);
        proof {
            lemma_ids_up_bounded(m, 0, k as int);
            ids.filter(p_open).lemma_filter_len(p_open);
        }
        match state.jobs.get(&k) {
            Some(j) => {
                proof {
                    assert(ids_up(m, 0, k + 1) =~= ids.push(k));
                    ids.lemma_filter_push(k, p_open);
                    ids.lemma_filter_push(k, p_prog);
                    ids.lemma_filter_push(k, p_done);
                    ids.lemma_filter_len(p_open);
                    ids.lemma_filter_len(p_prog);
                    ids.lemma_filter_len(p_done);
                    assert(ids.push(k).drop_last() =~= ids);
                }
                if volume > u128::MAX - j.budget {
                    proof {
                        lemma_ids_up_split(m, 0, k + 1, state.next_job_id as int);
                        lemma_budget_sum_concat(m, ids_up(m, 0, k + 1), ids_up(m, k + 1, state.next_job_id as int));
                    }
                    return Err(StdError::Overflow { source: crate::error::OverflowError { operation: crate::error::OverflowOperation::Add } });
                }
                volume = volume + j.budget;
                total = total + 1;
                if j.status == JobStatus::Open {
                    open = open + 1;
                } else if j.status == JobStatus::InProgress {
                    progress = progress + 1;
                } else if j.status == JobStatus::Completed {
                    completed = completed + 1;
                }
            },
            None => {
                proof {
                    assert(ids_up(m, 0, k + 1) =~= ids);
                }
            },
        }
        k = k + 1;
    }
    let ghost bm = state.bounties@;
    let ghost b_open = bounty_status_is(bm, BountyStatus::Open);
    let ghost b_done = bounty_status_is(bm, BountyStatus::Completed);
    let mut b_total: u64 = 0;
    let mut b_opened: u64 = 0;
    let mut b_completed: u64 = 0;
    let mut j: u64 = 0;
    while j < state.next_bounty_id
        invariant
            state.wf(),
            bm == state.bounties@,
            j <= state.next_bounty_id,
            b_open == bounty_status_is(bm, BountyStatus::Open),
            b_done == bounty_status_is(bm, BountyStatus::Completed),
            b_total == ids_up(bm, 0, j as int).len(),
            b_opened == ids_up(bm, 0, j as int).filter(b_open).len(),
            b_completed == ids_up(bm, 0, j as int).filter(b_done).len(),
        decreases state.next_bounty_id - j,
    {
        let ghost ids = ids_up(bm, 0, j as int);
        proof {
            lemma_ids_up_bounded(bm, 0, j as int);
            ids.lemma_filter_len(b_open);
            ids.lemma_filter_len(b_done);
        }
        match state.bounties.get(&j) {
            Some(b) => {
                proof {
                    assert(ids_up(bm, 0, j + 1) =~= ids.push(j));
                    ids.lemma_filter_push(j, b_open);
                    ids.lemma_filter_push(j, b_done);
                }
                b_total = b_total + 1;
                if b.status == BountyStatus::Open {
                    b_opened = b_opened + 1;
                } else if b.status == BountyStatus::Completed {
                    b_completed = b_completed + 1;
                }
            },
            None => {
                proof {
                    assert(ids_up(bm, 0, j + 1) =~= ids);
                }
            },
        }
        j = j + 1;
    }
    Ok(PlatformStatsResponse {
        total_jobs: total,
        open_jobs: open,
        in_progress_jobs: progress,
        completed_jobs: completed,
        total_bounties: b_total,
        open_bounties: b_opened,
        completed_bounties: b_completed,
        total_users: state.user_stats.len() as u64,
        total_value_locked: volume,
    })
}

/// Whether a list of bounties holds, in order, copies of the bounties stored under `ids`.
pub open spec fn bounties_are(bounties: Seq<Bounty>, m: Map<u64, Bounty>, ids: Seq<u64>) -> bool {
    &&& bounties.len() == ids.len()
    &&& forall|i: int| 0 <= i < ids.len() ==> #[trigger] bounties[i].same_as(m[ids[i]])
}

/// Whether a bounty passes the filters of a bounty listing.
pub open spec fn bounty_filter(b: Bounty, category: Option<Seq<char>>, status: Option<BountyStatus>, poster: Option<Seq<char>>) -> bool {
    &&& (category matches Some(c) ==> b.category_id == crate::helpers::category_id_of(lowercase_chars(c)))
    &&& (status matches Some(st) ==> b.status == st)
    &&& (poster matches Some(p) ==> b.poster@ == p)
}

/// The test of a bounty id against the filters of a bounty listing.
pub open spec fn bounty_id_filter(m: Map<u64, Bounty>, category: Option<Seq<char>>, status: Option<BountyStatus>, poster: Option<Seq<char>>) -> spec_fn(u64) -> bool {
    |k: u64| bounty_filter(m[k], category, status, poster)
}

fn bounty_matches(b: &Bounty, category: Option<u8>, status: Option<BountyStatus>, poster: Option<&str>) -> (r: bool)
    ensures
        r == ((category matches Some(c) ==> b.category_id == c) && (status matches Some(st) ==> b.status == st) && (poster matches Some(
            p,
        ) ==> b.poster@ == p@)),
{
    if let Some(c) = category {
        if b.category_id != c {
            return false;
        }
    }
    if let Some(st) = status {
        if b.status != st {
            return false;
        }
    }
    if let Some(p) = poster {
        if !crate::text::str_eq(b.poster.as_str(), p) {
            return false;
        }
    }
    true
}

/// Bounties stored with ids in `lo..next`, newest first: the first `limit` of them (all when
/// no limit is given), then those passing the filters.
fn bounties_down(
    state: &ContractState,
    lo: u64,
    limit: Option<usize>,
    category: Option<&str>,
    status: Option<BountyStatus>,
    poster: Option<&str>,
) -> (r: Vec<Bounty>)
    requires
        state.wf(),
    ensures
        ({
            let all = ids_down(state.bounties@, lo as int, state.next_bounty_id as int);
            let ids = match limit {
                Some(n) => first_n(all, n as nat),
                None => all,
            };
            bounties_are(r@, state.bounties@, ids.filter(bounty_id_filter(state.bounties@, crate::jobs::opt_str(category), status, crate::jobs::opt_str(poster))))
        }),
{
    let category_id = match category {
        Some(c) => Some(crate::helpers::convert_category_to_id(c)),
        None => None,
    };
    let ghost pred = bounty_id_filter(state.bounties@, crate::jobs::opt_str(category), status, crate::jobs::opt_str(poster));
    let ghost m = state.bounties@;
    let mut out: Vec<Bounty> = Vec::new();
    let mut taken: usize = 0;
    let mut k: u64 = state.next_bounty_id;
    let ghost mut ids: Seq<u64> = Seq::empty();
    let limited = limit.is_some();
    let cap: usize = match limit {
        Some(n) => n,
        None => 0,
    };
    while k > lo && (!limited || taken < cap)
        invariant
            limited == limit is Some,
            limit matches Some(n) ==> cap == n,
            state.wf(),
            m == state.bounties@,
            lo <= k <= state.next_bounty_id || (k == state.next_bounty_id && lo > state.next_bounty_id),
            ids == ids_down(m, k as int, state.next_bounty_id as int),
            limit is Some ==> taken == ids.len(),
            limit matches Some(n) ==> taken <= n,
            bounties_are(out@, m, ids.filter(pred)),
            pred == bounty_id_filter(m, crate::jobs::opt_str(category), status, crate::jobs::opt_str(poster)),
            category_id == (match category {
                Some(c) => Some(crate::helpers::category_id_of(lowercase_chars(c@))),
                None => None::<u8>,
            }),
        decreases k,
    {
        let id = k - 1;
        proof {
            assert(ids_down(m, id as int, state.next_bounty_id as int) =~= ids + if m.contains_key(id) {
                seq![id]
            } else {
                Seq::empty()
            });
        }
        match state.bounties.get(&id) {
            Some(b) => {
                proof {
                    ids.lemma_filter_push(id, pred);
                    ids = ids.push(id);
                }
                if bounty_matches(b, category_id, status, poster) {
                    out.push(b.copy());
                }
                if limited {
                    taken = taken + 1;
                }
            },
            None => {},
        }
        k = id;
    }
    proof {
        let all = ids_down(m, lo as int, state.next_bounty_id as int);
        if k > lo {
            lemma_ids_down_split(m, lo as int, k as int, state.next_bounty_id as int);
            let rest = ids_down(m, lo as int, k as int);
            assert(all == ids + rest);
            assert(first_n(all, limit->Some_0 as nat) =~= ids);
        } else if lo <= state.next_bounty_id {
            assert(k == lo);
            assert(all == ids);
            if limit is Some {
                assert(first_n(all, limit->Some_0 as nat) =~= ids);
            }
        } else {
            assert(all =~= Seq::<u64>::empty());
            assert(ids =~= Seq::<u64>::empty());
            if limit is Some {
                assert(first_n(all, limit->Some_0 as nat) =~= ids);
            }
        }
    }
    out
}

/// What `query_bounty` answers.
pub open spec fn query_bounty_answer(state: &ContractState, bounty_id: u64, r: Result<BountyResponse, StdError>) -> bool {
    match r {
        Ok(resp) => state.bounties@.contains_key(bounty_id) && resp.bounty.same_as(state.bounties@[bounty_id]),
        Err(e) => !state.bounties@.contains_key(bounty_id) && e@ == (StdErrorView::NotFound { kind: crate::bounty::bounty_kind() }),
    }
}

/// The bounty stored under `bounty_id`.
pub fn query_bounty(state: &ContractState, bounty_id: u64) -> (r: Result<BountyResponse, StdError>)
    ensures
        query_bounty_answer(state, bounty_id, r),
{
    match state.bounties.get(&bounty_id) {
        Some(b) => Ok(BountyResponse { bounty: b.copy() }),
        None => Err(StdError::NotFound { kind: String::from_str("Bounty") }),
    }
}

/// What `query_bounties` answers.
pub open spec fn query_bounties_answer(
    state: &ContractState,
    start_after: Option<u64>,
    limit: Option<u32>,
    category: Option<Seq<char>>,
    status: Option<BountyStatus>,
    poster: Option<Seq<char>>,
    r: BountiesResponse,
) -> bool {
    ({
        let lo = match start_after {
            Some(a) => a + 1,
            None => 0,
        };
        let ids = first_n(ids_down(state.bounties@, lo, state.next_bounty_id as int), page_limit(limit, 50, 100));
        bounties_are(r.bounties@, state.bounties@, ids.filter(bounty_id_filter(state.bounties@, category, status, poster)))
    })
}

/// Bounties with ids above `start_after`, newest first: the first `limit` (50 by default, at
/// most 100), then those of the category, status and poster given.
pub fn query_bounties(
    state: &ContractState,
    start_after: Option<u64>,
    limit: Option<u32>,
    category: Option<&str>,
    status: Option<BountyStatus>,
    poster: Option<&str>,
) -> (r: BountiesResponse)
    requires
        state.wf(),
    ensures
        query_bounties_answer(state, start_after, limit, crate::jobs::opt_str(category), status, crate::jobs::opt_str(poster), r),
{
    let l = match limit {
        Some(l) => l,
        None => 50,
    };
    let max: usize = if l < 100 {
        l as usize
    } else {
        100
    };
    match start_after {
        Some(a) => {
            if a == u64::MAX {
                proof {
                    assert(ids_down(state.bounties@, a + 1, state.next_bounty_id as int) =~= Seq::<u64>::empty());
                    assert(first_n(ids_down(state.bounties@, a + 1, state.next_bounty_id as int), max as nat) =~= Seq::<u64>::empty());
                }
                return BountiesResponse { bounties: Vec::new() };
            }
            BountiesResponse { bounties: bounties_down(state, a + 1, Some(max), category, status, poster) }
        },
        None => BountiesResponse { bounties: bounties_down(state, 0, Some(max), category, status, poster) },
    }
}

/// What `query_all_bounties` answers.
pub open spec fn query_all_bounties_answer(state: &ContractState, limit: Option<u32>, category: Option<Seq<char>>, r: BountiesResponse) -> bool {
    ({
        let ids = first_n(ids_down(state.bounties@, 0, state.next_bounty_id as int), page_limit(limit, 50, 100));
        bounties_are(r.bounties@, state.bounties@, ids.filter(bounty_id_filter(state.bounties@, category, Some(BountyStatus::Open), None)))
    })
}

/// Open bounties for the landing page, newest first: among the first `limit` (50 by default,
/// at most 100), those open and of the category given.
pub fn query_all_bounties(state: &ContractState, limit: Option<u32>, category: Option<&str>) -> (r: BountiesResponse)
    requires
        state.wf(),
    ensures
        query_all_bounties_answer(state, limit, crate::jobs::opt_str(category), r),
{
    let l = match limit {
        Some(l) => l,
        None => 50,
    };
    let max: usize = if l < 100 {
        l as usize
    } else {
        100
    };
    BountiesResponse { bounties: bounties_down(state, 0, Some(max), category, Some(BountyStatus::Open), None) }
}

/// What `query_user_bounties` answers.
pub open spec fn query_user_bounties_answer(state: &ContractState, user: Seq<char>, status: Option<BountyStatus>, r: BountiesResponse) -> bool {
    bounties_are(r.bounties@, state.bounties@, ids_down(state.bounties@, 0, state.next_bounty_id as int).filter(
        bounty_id_filter(state.bounties@, None, status, Some(user)),
    ))
}

/// The bounties an (already validated) user posted, newest first, optionally of one status.
pub fn query_user_bounties(state: &ContractState, user: &str, status: Option<BountyStatus>) -> (r: BountiesResponse)
    requires
        state.wf(),
    ensures
        query_user_bounties_answer(state, user@, status, r),
{
    BountiesResponse { bounties: bounties_down(state, 0, None, None, status, Some(user)) }
}

/// What `query_bounty_submission` answers.
pub open spec fn query_bounty_submission_answer(state: &ContractState, submission_id: u64, r: Result<BountySubmissionResponse, StdError>) -> bool {
    match r {
        Ok(resp) => state.bounty_submissions@.contains_key(submission_id) && resp.submission == state.bounty_submissions@[submission_id],
        Err(e) => !state.bounty_submissions@.contains_key(submission_id) && e@ == (StdErrorView::NotFound {
            kind: crate::bounty::submission_kind(),
        }),
    }
}

/// The bounty submission stored under `submission_id`.
pub fn query_bounty_submission(state: &ContractState, submission_id: u64) -> (r: Result<BountySubmissionResponse, StdError>)
    ensures
        query_bounty_submission_answer(state, submission_id, r),
{
    match state.bounty_submissions.get(&submission_id) {
        Some(x) => Ok(BountySubmissionResponse { submission: x.copy() }),
        None => Err(StdError::NotFound { kind: String::from_str("BountySubmission") }),
    }
}

/// The test that a stored submission has the status given, if any.
pub open spec fn submission_status_filter(m: Map<u64, BountySubmission>, status: Option<BountySubmissionStatus>) -> spec_fn(u64) -> bool {
    |k: u64| status matches Some(st) ==> m[k].status == st
}

/// The submissions under `ids`, in order, filtered by status; refused when one is not stored.
fn submissions_for(state: &ContractState, ids: &Vec<u64>, status: Option<BountySubmissionStatus>) -> (r: Result<Vec<BountySubmission>, StdError>)
    ensures
        match r {
            Ok(v) => (forall|i: int| 0 <= i < ids@.len() ==> #[trigger] state.bounty_submissions@.contains_key(ids@[i]))
                && v@ == records(state.bounty_submissions@, ids@.filter(submission_status_filter(state.bounty_submissions@, status))),
            Err(e) => (exists|i: int| 0 <= i < ids@.len() && !#[trigger] state.bounty_submissions@.contains_key(ids@[i]))
                && e@ == (StdErrorView::NotFound { kind: crate::bounty::submission_kind() }),
        },
{
    let ghost pred = submission_status_filter(state.bounty_submissions@, status);
    let mut out: Vec<BountySubmission> = Vec::new();
    let mut i: usize = 0;
    while i < ids.len()
        invariant
            i <= ids@.len(),
            pred == submission_status_filter(state.bounty_submissions@, status),
            forall|j: int| 0 <= j < i ==> #[trigger] state.bounty_submissions@.contains_key(ids@[j]),
            out@ == records(state.bounty_submissions@, ids@.subrange(0, i as int).filter(pred)),
        decreases ids@.len() - i,
    {
        let id = ids[i];
        let sub = match state.bounty_submissions.get(&id) {
            Some(x) => x,
            None => return Err(StdError::NotFound { kind: String::from_str("BountySubmission") }),
        };
        proof {
            assert(ids@.subrange(0, i + 1) =~= ids@.subrange(0, i as int).push(id));
            ids@.subrange(0, i as int).lemma_filter_push(id, pred);
        }
        let keep = match status {
            Some(st) => sub.status == st,
            None => true,
        };
        if keep {
            out.push(sub.copy());
        }
        proof {
            assert(out@ =~= records(state.bounty_submissions@, ids@.subrange(0, i + 1).filter(pred)));
        }
        i = i + 1;
    }
    proof {
        assert(ids@.subrange(0, ids@.len() as int) =~= ids@);
    }
    Ok(out)
}

/// What `query_bounty_submissions` answers.
pub open spec fn query_bounty_submissions_answer(state: &ContractState, bounty_id: u64, status: Option<BountySubmissionStatus>, r: Result<BountySubmissionsResponse, StdError>) -> bool {
    ({
        let ids = crate::jobs::ids_in(state.bounty_submissions_by_bounty@, bounty_id);
        match r {
            Ok(resp) => (forall|i: int| 0 <= i < ids.len() ==> #[trigger] state.bounty_submissions@.contains_key(ids[i]))
                && resp.submissions@ == records(state.bounty_submissions@, ids.filter(submission_status_filter(state.bounty_submissions@, status))),
            Err(e) => (exists|i: int| 0 <= i < ids.len() && !#[trigger] state.bounty_submissions@.contains_key(ids[i]))
                && e@ == (StdErrorView::NotFound { kind: crate::bounty::submission_kind() }),
        }
    })
}

/// The submissions listed for a bounty, in order, optionally of one status; refused when a
/// listed submission is not stored.
pub fn query_bounty_submissions(state: &ContractState, bounty_id: u64, status: Option<BountySubmissionStatus>) -> (r: Result<BountySubmissionsResponse, StdError>)
    requires
        state.wf(),
    ensures
        query_bounty_submissions_answer(state, bounty_id, status, r),
{
    let ids = match state.bounty_submissions_by_bounty.get(&bounty_id) {
        Some(l) => crate::state::copy_vec(l),
        None => Vec::new(),
    };
    assert(ids@ =~= crate::jobs::ids_in(state.bounty_submissions_by_bounty@, bounty_id));
    match submissions_for(state, &ids, status) {
        Ok(v) => Ok(BountySubmissionsResponse { submissions: v }),
        Err(e) => Err(e),
    }
}

/// Whether a list of ids is in descending order.
pub open spec fn sorted_desc(s: Seq<u64>) -> bool {
    forall|i: int, j: int| 0 <= i < j < s.len() ==> s[i] >= s[j]
}

/// Sorts ids from the highest to the lowest.
pub fn sort_desc(v: &Vec<u64>) -> (r: Vec<u64>)
    ensures
        sorted_desc(r@),
        r@.to_multiset() == v@.to_multiset(),
{
    broadcast use vstd::seq_lib::group_to_multiset_ensures;
    let mut out: Vec<u64> = Vec::new();
    let mut i: usize = 0;
    while i < v.len()
        invariant
            i <= v@.len(),
            sorted_desc(out@),
            out@.to_multiset() == v@.subrange(0, i as int).to_multiset(),
        decreases v@.len() - i,
    {
        let x = v[i];
        let mut p: usize = 0;
        while p < out.len() && out[p] >= x
            invariant
                p <= out@.len(),
                forall|j: int| 0 <= j < p ==> out@[j] >= x,
            decreases out@.len() - p,
        {
            p = p + 1;
        }
        let ghost before = out@;
        out.insert(p, x);
        proof {
            vstd::seq_lib::to_multiset_insert(before, p as int, x);
            vstd::seq_lib::to_multiset_build(v@.subrange(0, i as int), x);
            assert(v@.subrange(0, i + 1) =~= v@.subrange(0, i as int).push(x));
            assert forall|a: int, b: int| 0 <= a < b < out@.len() implies out@[a] >= out@[b] by {
                if b < p {
                } else if a < p && b == p {
                } else if a < p && b > p {
                    assert(out@[b] == before[b - 1]);
                    assert(before[a] >= before[b - 1]);
                } else if a == p {
                    assert(out@[b] == before[b - 1]);
                    if p < before.len() {
                        assert(before[p as int] < x);
                        assert(before[p as int] >= before[b - 1] || b - 1 == p);
                    }
                } else {
                    assert(out@[a] == before[a - 1]);
                    assert(out@[b] == before[b - 1]);
                }
            }
        }
        i = i + 1;
    }
    proof {
        assert(v@.subrange(0, v@.len() as int) =~= v@);
    }
    out
}

/// The test that an id is above `after`.
pub open spec fn above(after: u64) -> spec_fn(u64) -> bool {
    |k: u64| k > after
}

proof fn lemma_filter_all(s: Seq<u64>, f: spec_fn(u64) -> bool)
    requires
        forall|i: int| 0 <= i < s.len() ==> #[trigger] f(s[i]),
    ensures
        s.filter(f) == s,
    decreases s.len(),
{
    if s.len() > 0 {
        let init = s.drop_last();
        lemma_filter_all(init, f);
        assert(init.push(s.last()) =~= s);
        init.lemma_filter_push(s.last(), f);
        assert(f(s[s.len() - 1]));
    } else {
        assert(s.filter(f) =~= s) by {
            s.lemma_filter_len(f);
        }
    }
}

/// The ids above `after`, in order.
fn keep_above(v: &Vec<u64>, after: u64) -> (r: Vec<u64>)
    ensures
        r@ == v@.filter(above(after)),
{
    let ghost keep = above(after);
    let mut r: Vec<u64> = Vec::new();
    let mut i: usize = 0;
    while i < v.len()
        invariant
            i <= v@.len(),
            keep == above(after),
            r@ == v@.subrange(0, i as int).filter(keep),
        decreases v@.len() - i,
    {
        proof {
            assert(v@.subrange(0, i + 1) =~= v@.subrange(0, i as int).push(v@[i as int]));
            v@.subrange(0, i as int).lemma_filter_push(v@[i as int], keep);
        }
        if v[i] > after {
            r.push(v[i]);
        }
        i = i + 1;
    }
    assert(v@.subrange(0, v@.len() as int) =~= v@);
    r
}

/// The ids of a user's bounty submissions to show: those above `start_after`, highest first,
/// at most `limit` (50 by default, at most 100).
pub open spec fn user_submission_ids(s: ContractState, user: Seq<char>, start_after: Option<u64>, limit: Option<u32>, sorted: Seq<u64>) -> bool {
    let ids = crate::jobs::user_ids_in(s.user_bounty_submissions@, user);
    let kept = match start_after {
        Some(a) => ids.filter(above(a)),
        None => ids,
    };
    &&& sorted_desc(sorted)
    &&& sorted.to_multiset() == kept.to_multiset()
}

/// What `query_user_bounty_submissions` answers.
pub open spec fn query_user_bounty_submissions_answer(state: &ContractState, user: Seq<char>, start_after: Option<u64>, limit: Option<u32>, r: Result<BountySubmissionsResponse, StdError>) -> bool {
    exists|sorted: Seq<u64>| {
        &&& user_submission_ids(*state, user, start_after, limit, sorted)
        &&& {
            let ids = first_n(sorted, page_limit(limit, 50, 100));
            match r {
                Ok(resp) => (forall|i: int| 0 <= i < ids.len() ==> #[trigger] state.bounty_submissions@.contains_key(ids[i]))
                    && resp.submissions@ == records(state.bounty_submissions@, ids),
                Err(e) => (exists|i: int| 0 <= i < ids.len() && !#[trigger] state.bounty_submissions@.contains_key(ids[i]))
                    && e@ == (StdErrorView::NotFound { kind: crate::bounty::submission_kind() }),
            }
        }
    }
}

/// The bounty submissions of an (already validated) user, highest id first; refused when one of
/// them is not stored.
pub fn query_user_bounty_submissions(state: &ContractState, user: &str, start_after: Option<u64>, limit: Option<u32>) -> (r: Result<BountySubmissionsResponse, StdError>)
    requires
        state.wf(),
    ensures
        query_user_bounty_submissions_answer(state, user@, start_after, limit, r),
{
    let ids = match state.user_bounty_submissions.get(user) {
        Some(l) => crate::state::copy_vec(l),
        None => Vec::new(),
    };
    assert(ids@ =~= crate::jobs::user_ids_in(state.user_bounty_submissions@, user@));
    let kept = match start_after {
        Some(a) => keep_above(&ids, a),
        None => ids,
    };
    let sorted = sort_desc(&kept);
    let l = match limit {
        Some(l) => l,
        None => 50,
    };
    let max: usize = if l < 100 {
        l as usize
    } else {
        100
    };
    let mut page: Vec<u64> = Vec::new();
    let mut i: usize = 0;
    while i < sorted.len() && i < max
        invariant
            i <= sorted@.len(),
            i <= max,
            page@ == sorted@.subrange(0, i as int),
        decreases sorted@.len() - i,
    {
        page.push(sorted[i]);
        i = i + 1;
        assert(page@ =~= sorted@.subrange(0, i as int));
    }
    proof {
        assert(page@ =~= first_n(sorted@, max as nat));
        let f = submission_status_filter(state.bounty_submissions@, None);
        lemma_filter_all(page@, f);
    }
    let result = match submissions_for(state, &page, None) {
        Ok(v) => Ok(BountySubmissionsResponse { submissions: v }),
        Err(e) => Err(e),
    };
    proof {
        let f = submission_status_filter(state.bounty_submissions@, None);
        assert(max as nat == page_limit(limit, 50, 100));
        assert(user_submission_ids(*state, user@, start_after, limit, sorted@));
        assert(page@.filter(f) == first_n(sorted@, page_limit(limit, 50, 100)));
    }
    result
}

} // verus!
