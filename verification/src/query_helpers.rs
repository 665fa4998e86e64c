//! Pagination and search helpers over the stored jobs and bounties.
use vstd::prelude::*;
use crate::error::StdError;
use crate::msg::{BountiesResponse, CategoriesResponse, JobsResponse, PlatformStatsResponse, SearchResponse, TrendingResponse};
use crate::decimal::Decimal;
use crate::hash_utils::ContentHash;
use crate::state::{ContactPreference, EscrowState, Proposal, UserProfile};
use crate::queries::{bounties_are, first_n, ids_down, jobs_are, lemma_ids_down_split};
use crate::state::{Bounty, BountyStatus, ContractState, Job, JobStatus};

verus! {

broadcast use vstd::std_specs::hash::group_hash_axioms;

/// Where a page starts and how long it is.
pub struct PaginationParams {
    pub start_after: Option<String>,
    pub limit: Option<u32>,
}

/// The page length that a requested limit gives: 50 when none is given, never more than 100.
pub open spec fn capped_limit(limit: Option<u32>) -> u32 {
    let l = match limit {
        Some(l) => l,
        None => 50u32,
    };
    if l < 100 { l } else { 100u32 }
}

impl PaginationParams {
    /// Parameters that start after `start_after`, with the limit defaulted to 50 and capped at 100.
    pub fn new(start_after: Option<String>, limit: Option<u32>) -> (r: Self)
        ensures
            r.start_after == start_after,
            r.limit == Some(capped_limit(limit)),
    {
        let l = match limit {
            Some(l) => l,
            None => 50,
        };
        PaginationParams { start_after, limit: Some(if l < 100 { l } else { 100 }) }
    }
}

/// Whether every character is an ASCII digit.
pub open spec fn all_digits(s: Seq<char>) -> bool {
    forall|i: int| 0 <= i < s.len() ==> '0' <= #[trigger] s[i] <= '9'
}

/// The value of a run of decimal digits.
pub open spec fn digits_value(s: Seq<char>) -> int
    decreases s.len(),
{
    if s.len() == 0 {
        0
    } else {
        digits_value(s.drop_last()) * 10 + (s.last() as int - '0' as int)
    }
}

/// What parsing a text as a `u64` gives: an optional `+` followed by one or more decimal digits
/// whose value fits.
pub open spec fn parsed_u64(s: Seq<char>) -> Option<u64> {
    let d = if s.len() > 0 && s[0] == '+' { s.subrange(1, s.len() as int) } else { s };
    if d.len() > 0 && all_digits(d) && digits_value(d) <= u64::MAX {
        Some(digits_value(d) as u64)
    } else {
        None
    }
}

proof fn lemma_digits_value_nonneg(s: Seq<char>)
    requires
        all_digits(s),
    ensures
        digits_value(s) >= 0,
    decreases s.len(),
{
    if s.len() > 0 {
        lemma_digits_value_nonneg(s.drop_last());
    }
}

/// A prefix of a run of digits is worth no more than the whole run.
proof fn lemma_digits_prefix_le(s: Seq<char>, n: int)
    requires
        all_digits(s),
        0 <= n <= s.len(),
    ensures
        digits_value(s.subrange(0, n)) <= digits_value(s),
    decreases s.len() - n,
{
    if n < s.len() {
        lemma_digits_prefix_le(s, n + 1);
        let p = s.subrange(0, n + 1);
        assert(p.drop_last() =~= s.subrange(0, n));
        assert(all_digits(s.subrange(0, n)));
        lemma_digits_value_nonneg(s.subrange(0, n));
    } else {
        assert(s.subrange(0, n) =~= s);
    }
}

proof fn lemma_parse_refused(s: Seq<char>)
    requires
        ({
            let d = if s.len() > 0 && s[0] == '+' { s.subrange(1, s.len() as int) } else { s };
            !all_digits(d) || digits_value(d) > u64::MAX
        }),
    ensures
        parsed_u64(s) is None,
{
}

/// Parses a text as a `u64` as `str::parse::<u64>` does: an optional `+` followed by one or
/// more decimal digits whose value fits; anything else gives `None`.
fn parse_u64(s: &str) -> (r: Option<u64>)
    ensures
        r == parsed_u64(s@),
{
    let n = s.unicode_len();
    let start: usize = if n > 0 && s.get_char(0) == '+' { 1 } else { 0 };
    let ghost d = if s@.len() > 0 && s@[0] == '+' { s@.subrange(1, s@.len() as int) } else { s@ };
    assert(d =~= s@.subrange(start as int, n as int));
    if start == n {
        return None;
    }
    let mut acc: u64 = 0;
    let mut i: usize = start;
    while i < n
        invariant
            n == s@.len(),
            start <= i <= n,
            d =~= s@.subrange(start as int, n as int),
            d == (if s@.len() > 0 && s@[0] == '+' { s@.subrange(1, s@.len() as int) } else { s@ }),
            all_digits(s@.subrange(start as int, i as int)),
            acc as int == digits_value(s@.subrange(start as int, i as int)),
        decreases n - i,
    {
        let c = s.get_char(i);
        if c < '0' || c > '9' {
            proof {
                assert(d[i - start] == c);
                lemma_parse_refused(s@);
            }
            return None;
        }
        let digit = (c as u32 - '0' as u32) as u64;
        assert(digit as int == c as int - '0' as int);
        proof {
            assert(s@.subrange(start as int, i + 1).drop_last() =~= s@.subrange(start as int, i as int));
            assert(all_digits(s@.subrange(start as int, i + 1)));
        }
        let next = match acc.checked_mul(10) {
            Some(m) => m.checked_add(digit),
            None => None,
        };
        match next {
            Some(v) => {
                acc = v;
            },
            None => {
                proof {
                    if all_digits(d) {
                        lemma_digits_prefix_le(d, i + 1 - start);
                        assert(d.subrange(0, i + 1 - start) =~= s@.subrange(start as int, i + 1));
                        assert(digits_value(s@.subrange(start as int, i + 1)) == acc * 10 + digit);
                        assert(acc * 10 + digit > u64::MAX);
                    }
                    lemma_parse_refused(s@);
                }
                return None;
            },
        }
        i = i + 1;
    }
    Some(acc)
}

/// The id a page starts before: the parsed start text, when it parses.
pub open spec fn start_before(params: PaginationParams) -> Option<u64> {
    match params.start_after {
        Some(s) => parsed_u64(s@),
        None => None,
    }
}

/// How many records an advanced search returns: the limit (50 when none is given), and at least one.
pub open spec fn search_size(params: PaginationParams) -> nat {
    let l = match params.limit {
        Some(l) => l,
        None => 50u32,
    };
    if l == 0 { 1 } else { l as nat }
}

/// The test of a job id against the filters of an advanced search.
pub open spec fn advanced_job_filter(
    m: Map<u64, Job>,
    before: Option<u64>,
    status: Option<JobStatus>,
    poster: Option<Seq<char>>,
    min_budget: Option<u128>,
    max_budget: Option<u128>,
) -> spec_fn(u64) -> bool {
    |k: u64| {
        &&& before matches Some(b) ==> k < b
        &&& status matches Some(s) ==> m[k].status == s
        &&& poster matches Some(p) ==> m[k].poster@ == p
        &&& min_budget matches Some(x) ==> m[k].budget >= x
        &&& max_budget matches Some(x) ==> m[k].budget <= x
    }
}

fn job_passes(
    id: u64,
    j: &Job,
    before: Option<u64>,
    status: Option<JobStatus>,
    poster: Option<&str>,
    min_budget: Option<u128>,
    max_budget: Option<u128>,
) -> (r: bool)
    ensures
        r == ((before matches Some(b) ==> id < b) && (status matches Some(s) ==> j.status == s) && (poster matches Some(p) ==> j.poster@
            == p@) && (min_budget matches Some(x) ==> j.budget >= x) && (max_budget matches Some(x) ==> j.budget <= x)),
{
    if let Some(b) = before {
        if id >= b {
            return false;
        }
    }
    if let Some(s) = status {
        if j.status != s {
            return false;
        }
    }
    if let Some(p) = poster {
        if !crate::text::str_eq(j.poster.as_str(), p) {
            return false;
        }
    }
    if let Some(x) = min_budget {
        if j.budget < x {
            return false;
        }
    }
    if let Some(x) = max_budget {
        if j.budget > x {
            return false;
        }
    }
    true
}

/// Jobs newest first, before the page start, filtered by status, (already validated) poster and
/// budget bounds; as many as the limit asks (50 by default), and at least the first match.
pub fn query_jobs_advanced(
    state: &ContractState,
    params: PaginationParams,
    status: Option<JobStatus>,
    poster: Option<&str>,
    min_budget: Option<u128>,
    max_budget: Option<u128>,
) -> (r: Result<JobsResponse, StdError>)
    requires
        state.wf(),
    ensures
        r matches Ok(resp) && jobs_are(
            resp.jobs@,
            state.jobs@,
            first_n(
                ids_down(state.jobs@, 0, state.next_job_id as int).filter(
                    advanced_job_filter(state.jobs@, start_before(params), status, crate::jobs::opt_str(poster), min_budget, max_budget),
                ),
                search_size(params),
            ),
        ),
{
    let l: u32 = match params.limit {
        Some(l) => l,
        None => 50,
    };
    let max: usize = l as usize;
    let before = match &params.start_after {
        Some(s) => parse_u64(s.as_str()),
        None => None,
    };
    let ghost pred = advanced_job_filter(state.jobs@, start_before(params), status, crate::jobs::opt_str(poster), min_budget, max_budget);
    let ghost cap: nat = search_size(params);
    let mut jobs: Vec<Job> = Vec::new();
    let mut k: u64 = state.next_job_id;
    let ghost mut ids: Seq<u64> = Seq::empty();
    while k > 0
        invariant
            state.wf(),
            k <= state.next_job_id,
            ids == ids_down(state.jobs@, k as int, state.next_job_id as int),
            jobs_are(jobs@, state.jobs@, ids.filter(pred)),
            jobs@.len() < cap,
            before == start_before(params),
            pred == advanced_job_filter(state.jobs@, start_before(params), status, crate::jobs::opt_str(poster), min_budget, max_budget),
            cap == (if max == 0 { 1 } else { max as nat }),
            cap == search_size(params),
        decreases k,
    {
        let id = k - 1;
        proof {
            assert(ids_down(state.jobs@, id as int, state.next_job_id as int) =~= ids + if state.jobs@.contains_key(id) {
                seq![id]
            } else {
                Seq::empty()
            });
        }
        match state.jobs.get(&id) {
            Some(j) => {
                proof {
                    ids.lemma_filter_push(id, pred);
                    ids = ids.push(id);
                }
                if job_passes(id, j, before, status, poster, min_budget, max_budget) {
                    jobs.push(j.copy());
                    if jobs.len() >= max {
                        proof {
                            lemma_ids_down_split(state.jobs@, 0, id as int, state.next_job_id as int);
                            let rest = ids_down(state.jobs@, 0, id as int);
                            Seq::filter_distributes_over_add(ids, rest, pred);
                            assert(jobs@.len() == cap);
                            assert(first_n((ids + rest).filter(pred), cap) =~= ids.filter(pred));
                            assert(ids_down(state.jobs@, 0, state.next_job_id as int) == ids + rest);
                        }
                        return Ok(JobsResponse { jobs });
                    }
                }
            },
            None => {},
        }
        k = id;
    }
    proof {
        assert(first_n(ids.filter(pred), cap) =~= ids.filter(pred));
    }
    Ok(JobsResponse { jobs })
}

/// The test of a bounty id against the filters of an advanced search.
pub open spec fn advanced_bounty_filter(
    m: Map<u64, Bounty>,
    before: Option<u64>,
    status: Option<BountyStatus>,
    creator: Option<Seq<char>>,
    min_reward: Option<u128>,
    max_reward: Option<u128>,
) -> spec_fn(u64) -> bool {
    |k: u64| {
        &&& before matches Some(b) ==> k < b
        &&& status matches Some(s) ==> m[k].status == s
        &&& creator matches Some(p) ==> m[k].poster@ == p
        &&& min_reward matches Some(x) ==> m[k].total_reward >= x
        &&& max_reward matches Some(x) ==> m[k].total_reward <= x
    }
}

fn bounty_passes(
    id: u64,
    b: &Bounty,
    before: Option<u64>,
    status: Option<BountyStatus>,
    creator: Option<&str>,
    min_reward: Option<u128>,
    max_reward: Option<u128>,
) -> (r: bool)
    ensures
        r == ((before matches Some(x) ==> id < x) && (status matches Some(s) ==> b.status == s) && (creator matches Some(p) ==> b.poster@
            == p@) && (min_reward matches Some(x) ==> b.total_reward >= x) && (max_reward matches Some(x) ==> b.total_reward <= x)),
{
    if let Some(x) = before {
        if id >= x {
            return false;
        }
    }
    if let Some(s) = status {
        if b.status != s {
            return false;
        }
    }
    if let Some(p) = creator {
        if !crate::text::str_eq(b.poster.as_str(), p) {
            return false;
        }
    }
    if let Some(x) = min_reward {
        if b.total_reward < x {
            return false;
        }
    }
    if let Some(x) = max_reward {
        if b.total_reward > x {
            return false;
        }
    }
    true
}

/// Bounties newest first, before the page start, filtered by status, (already validated) creator
/// and reward bounds; as many as the limit asks (50 by default), and at least the first match.
pub fn query_bounties_advanced(
    state: &ContractState,
    params: PaginationParams,
    status: Option<BountyStatus>,
    creator: Option<&str>,
    min_reward: Option<u128>,
    max_reward: Option<u128>,
) -> (r: Result<BountiesResponse, StdError>)
    requires
        state.wf(),
    ensures
        r matches Ok(resp) && bounties_are(
            resp.bounties@,
            state.bounties@,
            first_n(
                ids_down(state.bounties@, 0, state.next_bounty_id as int).filter(
                    advanced_bounty_filter(state.bounties@, start_before(params), status, crate::jobs::opt_str(creator), min_reward, max_reward),
                ),
                search_size(params),
            ),
        ),
{
    let l: u32 = match params.limit {
        Some(l) => l,
        None => 50,
    };
    let max: usize = l as usize;
    let before = match &params.start_after {
        Some(s) => parse_u64(s.as_str()),
        None => None,
    };
    let ghost pred = advanced_bounty_filter(state.bounties@, start_before(params), status, crate::jobs::opt_str(creator), min_reward, max_reward);
    let ghost cap: nat = search_size(params);
    let mut bounties: Vec<Bounty> = Vec::new();
    let mut k: u64 = state.next_bounty_id;
    let ghost mut ids: Seq<u64> = Seq::empty();
    while k > 0
        invariant
            state.wf(),
            k <= state.next_bounty_id,
            ids == ids_down(state.bounties@, k as int, state.next_bounty_id as int),
            bounties_are(bounties@, state.bounties@, ids.filter(pred)),
            bounties@.len() < cap,
            before == start_before(params),
            pred == advanced_bounty_filter(state.bounties@, start_before(params), status, crate::jobs::opt_str(creator), min_reward, max_reward),
            cap == (if max == 0 { 1 } else { max as nat }),
            cap == search_size(params),
        decreases k,
    {
        let id = k - 1;
        proof {
            assert(ids_down(state.bounties@, id as int, state.next_bounty_id as int) =~= ids + if state.bounties@.contains_key(id) {
                seq![id]
            } else {
                Seq::empty()
            });
        }
        match state.bounties.get(&id) {
            Some(b) => {
                proof {
                    ids.lemma_filter_push(id, pred);
                    ids = ids.push(id);
                }
                if bounty_passes(id, b, before, status, creator, min_reward, max_reward) {
                    bounties.push(b.copy());
                    if bounties.len() >= max {
                        proof {
                            lemma_ids_down_split(state.bounties@, 0, id as int, state.next_bounty_id as int);
                            let rest = ids_down(state.bounties@, 0, id as int);
                            Seq::filter_distributes_over_add(ids, rest, pred);
                            assert(bounties@.len() == cap);
                            assert(first_n((ids + rest).filter(pred), cap) =~= ids.filter(pred));
                            assert(ids_down(state.bounties@, 0, state.next_bounty_id as int) == ids + rest);
                        }
                        return Ok(BountiesResponse { bounties });
                    }
                }
            },
            None => {},
        }
        k = id;
    }
    proof {
        assert(first_n(ids.filter(pred), cap) =~= ids.filter(pred));
    }
    Ok(BountiesResponse { bounties })
}

/// How many records each half of a search returns: half the limit (20 by default, at most 50),
/// and at least one.
pub open spec fn search_half(limit: Option<u32>) -> nat {
    let l = match limit {
        Some(l) => l,
        None => 20u32,
    };
    let capped = if l < 50 { l } else { 50u32 };
    if capped / 2 == 0 { 1 } else { (capped / 2) as nat }
}

/// The test that a stored job is open.
pub open spec fn open_job(m: Map<u64, Job>) -> spec_fn(u64) -> bool {
    |k: u64| m[k].status == JobStatus::Open
}

/// The test that a stored bounty is open and its id, written in decimal, contains `text`.
pub open spec fn open_bounty_matching(m: Map<u64, Bounty>, text: Seq<char>) -> spec_fn(u64) -> bool {
    |k: u64| m[k].status == BountyStatus::Open && crate::text::contains_chars(crate::text::decimal_chars(k as nat), text)
}

/// Whether a search covers jobs: unless it asks for bounties only.
pub open spec fn searches_jobs(content_type: Option<Seq<char>>) -> bool {
    !(content_type matches Some(c) && c == "bounties"@)
}

/// Whether a search covers bounties: unless it asks for jobs only.
pub open spec fn searches_bounties(content_type: Option<Seq<char>>) -> bool {
    !(content_type matches Some(c) && c == "jobs"@)
}

fn open_jobs_down(state: &ContractState, max: usize) -> (r: Vec<Job>)
    requires
        state.wf(),
        max > 0,
    ensures
        jobs_are(r@, state.jobs@, first_n(ids_down(state.jobs@, 0, state.next_job_id as int).filter(open_job(state.jobs@)), max as nat)),
{
    let ghost pred = open_job(state.jobs@);
    let mut jobs: Vec<Job> = Vec::new();
    let mut k: u64 = state.next_job_id;
    let ghost mut ids: Seq<u64> = Seq::empty();
    while k > 0
        invariant
            state.wf(),
            max > 0,
            k <= state.next_job_id,
            ids == ids_down(state.jobs@, k as int, state.next_job_id as int),
            jobs_are(jobs@, state.jobs@, ids.filter(pred)),
            jobs@.len() < max,
            pred == open_job(state.jobs@),
        decreases k,
    {
        let id = k - 1;
        proof {
            assert(ids_down(state.jobs@, id as int, state.next_job_id as int) =~= ids + if state.jobs@.contains_key(id) {
                seq![id]
            } else {
                Seq::empty()
            });
        }
        match state.jobs.get(&id) {
            Some(j) => {
                proof {
                    ids.lemma_filter_push(id, pred);
                    ids = ids.push(id);
                }
                if j.status == JobStatus::Open {
                    jobs.push(j.copy());
                    if jobs.len() >= max {
                        proof {
                            lemma_ids_down_split(state.jobs@, 0, id as int, state.next_job_id as int);
                            let rest = ids_down(state.jobs@, 0, id as int);
                            Seq::filter_distributes_over_add(ids, rest, pred);
                            assert(first_n((ids + rest).filter(pred), max as nat) =~= ids.filter(pred));
                            assert(ids_down(state.jobs@, 0, state.next_job_id as int) == ids + rest);
                        }
                        return jobs;
                    }
                }
            },
            None => {},
        }
        k = id;
    }
    proof {
        assert(first_n(ids.filter(pred), max as nat) =~= ids.filter(pred));
    }
    jobs
}

fn matching_bounties_down(state: &ContractState, text: &str, max: usize) -> (r: Vec<Bounty>)
    requires
        state.wf(),
        max > 0,
    ensures
        bounties_are(
            r@,
            state.bounties@,
            first_n(ids_down(state.bounties@, 0, state.next_bounty_id as int).filter(open_bounty_matching(state.bounties@, text@)), max as nat),
        ),
{
    let ghost pred = open_bounty_matching(state.bounties@, text@);
    let mut bounties: Vec<Bounty> = Vec::new();
    let mut k: u64 = state.next_bounty_id;
    let ghost mut ids: Seq<u64> = Seq::empty();
    while k > 0
        invariant
            state.wf(),
            max > 0,
            k <= state.next_bounty_id,
            ids == ids_down(state.bounties@, k as int, state.next_bounty_id as int),
            bounties_are(bounties@, state.bounties@, ids.filter(pred)),
            bounties@.len() < max,
            pred == open_bounty_matching(state.bounties@, text@),
        decreases k,
    {
        let id = k - 1;
        proof {
            assert(ids_down(state.bounties@, id as int, state.next_bounty_id as int) =~= ids + if state.bounties@.contains_key(id) {
                seq![id]
            } else {
                Seq::empty()
            });
        }
        match state.bounties.get(&id) {
            Some(b) => {
                proof {
                    ids.lemma_filter_push(id, pred);
                    ids = ids.push(id);
                }
                if b.status == BountyStatus::Open && crate::text::str_contains(crate::text::u64_to_string(id).as_str(), text) {
                    bounties.push(b.copy());
                    if bounties.len() >= max {
                        proof {
                            lemma_ids_down_split(state.bounties@, 0, id as int, state.next_bounty_id as int);
                            let rest = ids_down(state.bounties@, 0, id as int);
                            Seq::filter_distributes_over_add(ids, rest, pred);
                            assert(first_n((ids + rest).filter(pred), max as nat) =~= ids.filter(pred));
                            assert(ids_down(state.bounties@, 0, state.next_bounty_id as int) == ids + rest);
                        }
                        return bounties;
                    }
                }
            },
            None => {},
        }
        k = id;
    }
    proof {
        assert(first_n(ids.filter(pred), max as nat) =~= ids.filter(pred));
    }
    bounties
}

/// Searches open jobs and bounties, newest first, half the limit each (20 by default, at most 50;
/// at least one each). Job texts are kept off-chain, so every open job matches; a bounty matches
/// when its id, written in decimal, contains the lowercased query. `content_type` "jobs" or
/// "bounties" narrows the search to one kind.
pub fn search_content(state: &ContractState, query: &str, content_type: Option<&str>, limit: Option<u32>) -> (r: Result<SearchResponse, StdError>)
    requires
        state.wf(),
    ensures
        r matches Ok(resp) && {
            let half = search_half(limit);
            let kind = crate::jobs::opt_str(content_type);
            &&& if searches_jobs(kind) {
                jobs_are(resp.jobs@, state.jobs@, first_n(ids_down(state.jobs@, 0, state.next_job_id as int).filter(open_job(state.jobs@)), half))
            } else {
                resp.jobs@.len() == 0
            }
            &&& if searches_bounties(kind) {
                bounties_are(
                    resp.bounties@,
                    state.bounties@,
                    first_n(
                        ids_down(state.bounties@, 0, state.next_bounty_id as int).filter(
                            open_bounty_matching(state.bounties@, crate::text::lowercase_chars(query@)),
                        ),
                        half,
                    ),
                )
            } else {
                resp.bounties@.len() == 0
            }
        },
{
    let l = match limit {
        Some(l) => l,
        None => 20,
    };
    let capped: u32 = if l < 50 { l } else { 50 };
    let half: usize = if capped / 2 == 0 { 1 } else { (capped / 2) as usize };
    let query_lower = crate::text::to_lowercase(query);
    let search_jobs = match content_type {
        Some(c) => !crate::text::str_eq(c, "bounties"),
        None => true,
    };
    let search_bounties = match content_type {
        Some(c) => !crate::text::str_eq(c, "jobs"),
        None => true,
    };
    let jobs = if search_jobs { open_jobs_down(state, half) } else { Vec::new() };
    let bounties = if search_bounties { matching_bounties_down(state, query_lower.as_str(), half) } else { Vec::new() };
    Ok(SearchResponse { jobs, bounties })
}

/// The ids in `ids` that pass `f`, counted.
pub open spec fn count_of(ids: Seq<u64>, f: spec_fn(u64) -> bool) -> nat {
    ids.filter(f).len()
}

/// The test that a stored bounty is open.
pub open spec fn open_bounty(m: Map<u64, Bounty>) -> spec_fn(u64) -> bool {
    |k: u64| m[k].status == BountyStatus::Open
}

/// One category named `General` with `n` records, or none when `n` is zero.
pub open spec fn general_category(n: nat, r: Seq<(String, u64)>) -> bool {
    if n == 0 {
        r.len() == 0
    } else {
        r.len() == 1 && r[0].0@ == "General"@ && r[0].1 == n
    }
}

/// Open jobs and open bounties counted by category. Category names are kept off-chain, so every
/// record counts under `General`; a kind with no open record lists no category.
pub fn query_categories(state: &ContractState) -> (r: Result<CategoriesResponse, StdError>)
    requires
        state.wf(),
    ensures
        r matches Ok(resp) && {
            &&& general_category(count_of(crate::queries::ids_up(state.jobs@, 0, state.next_job_id as int), open_job(state.jobs@)), resp.job_categories@)
            &&& general_category(
                count_of(crate::queries::ids_up(state.bounties@, 0, state.next_bounty_id as int), open_bounty(state.bounties@)),
                resp.bounty_categories@,
            )
        },
{
    let ghost m = state.jobs@;
    let ghost pj = open_job(m);
    let mut open: u64 = 0;
    let mut k: u64 = 0;
    while k < state.next_job_id
        invariant
            state.wf(),
            m == state.jobs@,
            k <= state.next_job_id,
            pj == open_job(m),
            open == crate::queries::ids_up(m, 0, k as int).filter(pj).len(),
            open <= k,
        decreases state.next_job_id - k,
    {
        let ghost ids = crate::queries::ids_up(m, 0, k as int);
        match state.jobs.get(&k) {
            Some(j) => {
                proof {
                    assert(crate::queries::ids_up(m, 0, k + 1) =~= ids.push(k));
                    ids.lemma_filter_push(k, pj);
                }
                if j.status == JobStatus::Open {
                    open = open + 1;
                }
            },
            None => {
                proof {
                    assert(crate::queries::ids_up(m, 0, k + 1) =~= ids);
                }
            },
        }
        k = k + 1;
    }
    let ghost bm = state.bounties@;
    let ghost pb = open_bounty(bm);
    let mut b_open: u64 = 0;
    let mut j: u64 = 0;
    while j < state.next_bounty_id
        invariant
            state.wf(),
            bm == state.bounties@,
            j <= state.next_bounty_id,
            pb == open_bounty(bm),
            b_open == crate::queries::ids_up(bm, 0, j as int).filter(pb).len(),
            b_open <= j,
        decreases state.next_bounty_id - j,
    {
        let ghost ids = crate::queries::ids_up(bm, 0, j as int);
        match state.bounties.get(&j) {
            Some(b) => {
                proof {
                    assert(crate::queries::ids_up(bm, 0, j + 1) =~= ids.push(j));
                    ids.lemma_filter_push(j, pb);
                }
                if b.status == BountyStatus::Open {
                    b_open = b_open + 1;
                }
            },
            None => {
                proof {
                    assert(crate::queries::ids_up(bm, 0, j + 1) =~= ids);
                }
            },
        }
        j = j + 1;
    }
    let mut job_categories: Vec<(String, u64)> = Vec::new();
    if open > 0 {
        job_categories.push((String::from_str("General"), open));
    }
    let mut bounty_categories: Vec<(String, u64)> = Vec::new();
    if b_open > 0 {
        bounty_categories.push((String::from_str("General"), b_open));
    }
    Ok(CategoriesResponse { job_categories, bounty_categories })
}

/// The amount still held in escrows that were not paid out, in storage order.
pub open spec fn locked_total(entries: Seq<(String, EscrowState)>) -> nat
    decreases entries.len(),
{
    if entries.len() == 0 {
        0
    } else {
        locked_total(entries.drop_last()) + if entries.last().1.released { 0 } else { entries.last().1.amount as nat }
    }
}

proof fn lemma_locked_total_prefix(s: Seq<(String, EscrowState)>, i: int)
    requires
        0 <= i <= s.len(),
    ensures
        locked_total(s.subrange(0, i)) <= locked_total(s),
    decreases s.len() - i,
{
    if i < s.len() {
        lemma_locked_total_prefix(s, i + 1);
        assert(s.subrange(0, i + 1).drop_last() =~= s.subrange(0, i));
    } else {
        assert(s.subrange(0, i) =~= s);
    }
}

/// The platform totals: jobs by status, bounties by status, users with a profile, and the
/// amount held in escrows not yet paid out.
pub open spec fn platform_totals(s: &ContractState, r: PlatformStatsResponse) -> bool {
    let jobs = crate::queries::ids_up(s.jobs@, 0, s.next_job_id as int);
    let bounties = crate::queries::ids_up(s.bounties@, 0, s.next_bounty_id as int);
    &&& r.total_jobs == jobs.len()
    &&& r.open_jobs == jobs.filter(crate::queries::job_status_is(s.jobs@, JobStatus::Open)).len()
    &&& r.in_progress_jobs == jobs.filter(crate::queries::job_status_is(s.jobs@, JobStatus::InProgress)).len()
    &&& r.completed_jobs == jobs.filter(crate::queries::job_status_is(s.jobs@, JobStatus::Completed)).len()
    &&& r.total_bounties == bounties.len()
    &&& r.open_bounties == bounties.filter(crate::queries::bounty_status_is(s.bounties@, BountyStatus::Open)).len()
    &&& r.completed_bounties == bounties.filter(crate::queries::bounty_status_is(s.bounties@, BountyStatus::Completed)).len()
    &&& r.total_users == s.user_profiles.entry_seq().len()
    &&& r.total_value_locked == locked_total(s.escrows.entry_seq())
}

/// Totals over the whole platform, with the value locked counted from the escrows not yet paid out.
pub fn query_platform_stats(state: &ContractState) -> (r: Result<PlatformStatsResponse, StdError>)
    requires
        state.wf(),
        locked_total(state.escrows.entry_seq()) <= u128::MAX,
    ensures
        r matches Ok(resp) && platform_totals(state, resp),
{
    let ghost m = state.jobs@;
    let ghost p_open = crate::queries::job_status_is(m, JobStatus::Open);
    let ghost p_prog = crate::queries::job_status_is(m, JobStatus::InProgress);
    let ghost p_done = crate::queries::job_status_is(m, JobStatus::Completed);
    let mut total: u64 = 0;
    let mut open: u64 = 0;
    let mut progress: u64 = 0;
    let mut completed: u64 = 0;
    let mut k: u64 = 0;
    while k < state.next_job_id
        invariant
            state.wf(),
            m == state.jobs@,
            k <= state.next_job_id,
            p_open == crate::queries::job_status_is(m, JobStatus::Open),
            p_prog == crate::queries::job_status_is(m, JobStatus::InProgress),
            p_done == crate::queries::job_status_is(m, JobStatus::Completed),
            total == crate::queries::ids_up(m, 0, k as int).len(),
            open == crate::queries::ids_up(m, 0, k as int).filter(p_open).len(),
            progress == crate::queries::ids_up(m, 0, k as int).filter(p_prog).len(),
            completed == crate::queries::ids_up(m, 0, k as int).filter(p_done).len(),
            open <= total <= k,
            progress <= total,
            completed <= total,
        decreases state.next_job_id - k,
    {
        let ghost ids = crate::queries::ids_up(m, 0, k as int);
        match state.jobs.get(&k) {
            Some(j) => {
                proof {
                    assert(crate::queries::ids_up(m, 0, k + 1) =~= ids.push(k));
                    ids.lemma_filter_push(k, p_open);
                    ids.lemma_filter_push(k, p_prog);
                    ids.lemma_filter_push(k, p_done);
                }
                total = total + 1;
                if j.status == JobStatus::Open {
                    open = open + 1;
                } else if j.status == JobStatus::InProgress {
                    progress = progress + 1;
                } else if j.status == JobStatus::Completed {
                    completed = completed + 1;
                }
            },
            None => {
                proof {
                    assert(crate::queries::ids_up(m, 0, k + 1) =~= ids);
                }
            },
        }
        k = k + 1;
    }
    let ghost bm = state.bounties@;
    let ghost b_open = crate::queries::bounty_status_is(bm, BountyStatus::Open);
    let ghost b_done = crate::queries::bounty_status_is(bm, BountyStatus::Completed);
    let mut b_total: u64 = 0;
    let mut b_opened: u64 = 0;
    let mut b_completed: u64 = 0;
    let mut j: u64 = 0;
    while j < state.next_bounty_id
        invariant
            state.wf(),
            bm == state.bounties@,
            j <= state.next_bounty_id,
            b_open == crate::queries::bounty_status_is(bm, BountyStatus::Open),
            b_done == crate::queries::bounty_status_is(bm, BountyStatus::Completed),
            b_total == crate::queries::ids_up(bm, 0, j as int).len(),
            b_opened == crate::queries::ids_up(bm, 0, j as int).filter(b_open).len(),
            b_completed == crate::queries::ids_up(bm, 0, j as int).filter(b_done).len(),
            b_opened <= b_total <= j,
            b_completed <= b_total,
        decreases state.next_bounty_id - j,
    {
        let ghost ids = crate::queries::ids_up(bm, 0, j as int);
        match state.bounties.get(&j) {
            Some(b) => {
                proof {
                    assert(crate::queries::ids_up(bm, 0, j + 1) =~= ids.push(j));
                    ids.lemma_filter_push(j, b_open);
                    ids.lemma_filter_push(j, b_done);
                }
                b_total = b_total + 1;
                if b.status == BountyStatus::Open {
                    b_opened = b_opened + 1;
                } else if b.status == BountyStatus::Completed {
                    b_completed = b_completed + 1;
                }
            },
            None => {
                proof {
                    assert(crate::queries::ids_up(bm, 0, j + 1) =~= ids);
                }
            },
        }
        j = j + 1;
    }
    let ghost entries = state.escrows.entry_seq();
    let n = state.escrows.len();
    let mut locked: u128 = 0;
    let mut i: usize = 0;
    while i < n
        invariant
            n == entries.len(),
            entries == state.escrows.entry_seq(),
            locked_total(entries) <= u128::MAX,
            i <= n,
            locked == locked_total(entries.subrange(0, i as int)),
        decreases n - i,
    {
        let e = state.escrows.value_at(i);
        proof {
            assert(entries.subrange(0, i + 1).drop_last() =~= entries.subrange(0, i as int));
            lemma_locked_total_prefix(entries, i + 1);
        }
        if !e.released {
            locked = locked + e.amount;
        }
        i = i + 1;
    }
    proof {
        assert(entries.subrange(0, n as int) =~= entries);
    }
    let users = state.user_profiles.len();
    Ok(PlatformStatsResponse {
        total_jobs: total,
        open_jobs: open,
        in_progress_jobs: progress,
        completed_jobs: completed,
        total_bounties: b_total,
        open_bounties: b_opened,
        completed_bounties: b_completed,
        total_users: users as u64,
        total_value_locked: locked,
    })
}

/// A job as the web backend reads it: its on-chain record and the key of its off-chain content.
pub struct HashAwareJobResponse {
    pub id: u64,
    pub poster: String,
    pub budget: u128,
    pub duration_days: u64,
    pub status: JobStatus,
    pub assigned_freelancer: Option<String>,
    pub created_at: u64,
    pub updated_at: u64,
    pub deadline: u64,
    pub escrow_id: Option<String>,
    pub total_proposals: u64,
    pub content_hash: ContentHash,
    pub off_chain_data_key: String,
    pub category_id: u8,
    pub skill_tags: Vec<u8>,
    pub budget_range: u8,
    pub experience_level: u8,
    pub is_remote: bool,
    pub has_milestones: bool,
    pub urgency_level: u8,
}

/// A proposal as the web backend reads it.
pub struct HashAwareProposalResponse {
    pub id: u64,
    pub freelancer: String,
    pub job_id: u64,
    pub delivery_time_days: u64,
    pub contact_preference: ContactPreference,
    pub agreed_to_terms: bool,
    pub agreed_to_escrow: bool,
    pub submitted_at: u64,
    pub content_hash: ContentHash,
    pub off_chain_data_key: String,
    pub proposal_score: u8,
    pub has_milestones: bool,
    pub milestone_count: u8,
    pub estimated_hours: u16,
}

/// A user profile as the web backend reads it.
pub struct HashAwareUserProfileResponse {
    pub address: String,
    pub created_at: u64,
    pub updated_at: u64,
    pub content_hash: ContentHash,
    pub off_chain_data_key: String,
    pub total_jobs_completed: u64,
    pub average_rating: Decimal,
    pub total_earned: u128,
    pub is_verified: bool,
    pub response_time_hours: u8,
}

/// Whether `r` presents `job` with the content key `key`; the search metadata is left to the
/// backend and reads zero.
pub open spec fn presents_job(r: HashAwareJobResponse, job: Job, key: Seq<char>) -> bool {
    &&& r.id == job.id
    &&& r.poster == job.poster
    &&& r.budget == job.budget
    &&& r.duration_days == job.duration_days
    &&& r.status == job.status
    &&& r.assigned_freelancer == job.assigned_freelancer
    &&& r.created_at == job.created_at
    &&& r.updated_at == job.updated_at
    &&& r.deadline == job.deadline
    &&& r.escrow_id == job.escrow_id
    &&& r.total_proposals == job.total_proposals
    &&& r.content_hash == job.content_hash
    &&& r.off_chain_data_key@ == key
    &&& r.category_id == 0
    &&& r.skill_tags@.len() == 0
    &&& r.budget_range == 0
    &&& r.experience_level == 0
    &&& !r.is_remote
    &&& !r.has_milestones
    &&& r.urgency_level == 0
}

pub(crate) fn copy_opt_string(s: &Option<String>) -> (r: Option<String>)
    ensures
        r == *s,
{
    match s {
        Some(x) => Some(x.clone()),
        None => None,
    }
}

/// A job with the key of its off-chain content, for the web backend.
pub fn job_to_hash_aware_response(job: &Job, off_chain_key: String) -> (r: HashAwareJobResponse)
    ensures
        presents_job(r, *job, off_chain_key@),
{
    HashAwareJobResponse {
        id: job.id,
        poster: job.poster.clone(),
        budget: job.budget,
        duration_days: job.duration_days,
        status: job.status,
        assigned_freelancer: copy_opt_string(&job.assigned_freelancer),
        created_at: job.created_at,
        updated_at: job.updated_at,
        deadline: job.deadline,
        escrow_id: copy_opt_string(&job.escrow_id),
        total_proposals: job.total_proposals,
        content_hash: job.content_hash.copy(),
        off_chain_data_key: off_chain_key,
        category_id: 0,
        skill_tags: Vec::new(),
        budget_range: 0,
        experience_level: 0,
        is_remote: false,
        has_milestones: false,
        urgency_level: 0,
    }
}

/// A proposal with the key of its off-chain content, for the web backend; the scoring metadata
/// is left to the backend and reads zero.
pub fn proposal_to_hash_aware_response(proposal: &Proposal, off_chain_key: String) -> (r: HashAwareProposalResponse)
    ensures
        r.id == proposal.id,
        r.freelancer == proposal.freelancer,
        r.job_id == proposal.job_id,
        r.delivery_time_days == proposal.delivery_time_days,
        r.contact_preference == proposal.contact_preference,
        r.agreed_to_terms == proposal.agreed_to_terms,
        r.agreed_to_escrow == proposal.agreed_to_escrow,
        r.submitted_at == proposal.submitted_at,
        r.content_hash == proposal.content_hash,
        r.off_chain_data_key == off_chain_key,
        r.proposal_score == 0,
        !r.has_milestones,
        r.milestone_count == 0,
        r.estimated_hours == 0,
{
    HashAwareProposalResponse {
        id: proposal.id,
        freelancer: proposal.freelancer.clone(),
        job_id: proposal.job_id,
        delivery_time_days: proposal.delivery_time_days,
        contact_preference: proposal.contact_preference,
        agreed_to_terms: proposal.agreed_to_terms,
        agreed_to_escrow: proposal.agreed_to_escrow,
        submitted_at: proposal.submitted_at,
        content_hash: proposal.content_hash.copy(),
        off_chain_data_key: off_chain_key,
        proposal_score: 0,
        has_milestones: false,
        milestone_count: 0,
        estimated_hours: 0,
    }
}

/// A user profile with its address and the key of its off-chain content, for the web backend.
pub fn user_profile_to_hash_aware_response(profile: &UserProfile, address: String, off_chain_key: String) -> (r: HashAwareUserProfileResponse)
    ensures
        r.address == address,
        r.created_at == profile.created_at,
        r.updated_at == profile.updated_at,
        r.content_hash == profile.content_hash,
        r.off_chain_data_key == off_chain_key,
        r.total_jobs_completed == profile.total_jobs_completed,
        r.average_rating == profile.average_rating,
        r.total_earned == profile.total_earned,
        r.is_verified == profile.is_verified,
        r.response_time_hours == profile.response_time_hours,
{
    HashAwareUserProfileResponse {
        address,
        created_at: profile.created_at,
        updated_at: profile.updated_at,
        content_hash: profile.content_hash.copy(),
        off_chain_data_key: off_chain_key,
        total_jobs_completed: profile.total_jobs_completed,
        average_rating: profile.average_rating,
        total_earned: profile.total_earned,
        is_verified: profile.is_verified,
        response_time_hours: profile.response_time_hours,
    }
}

/// The content key recorded for job `id`, or nothing.
pub open spec fn job_content_key(s: &ContractState, id: u64) -> Seq<char> {
    let entity = "job_"@ + crate::text::decimal_chars(id as nat);
    if s.entity_to_hash@.contains_key(entity) {
        s.entity_to_hash@[entity]@
    } else {
        Seq::empty()
    }
}

/// Open jobs newest first with the content keys recorded under their ids, at most the limit (50 by default, at most
/// 100), and at least the first one.
pub fn query_hash_aware_jobs(state: &ContractState, limit: Option<u32>) -> (r: Result<Vec<HashAwareJobResponse>, StdError>)
    requires
        state.wf(),
    ensures
        r matches Ok(v) && {
            let l = capped_limit(limit);
            let ids = first_n(ids_down(state.jobs@, 0, state.next_job_id as int).filter(open_job(state.jobs@)), if l == 0 { 1 } else { l as nat });
            &&& v@.len() == ids.len()
            &&& forall|i: int| 0 <= i < ids.len() ==> presents_job(#[trigger] v@[i], state.jobs@[ids[i]], job_content_key(state, state.jobs@[ids[i]].id))
        },
{
    let l = match limit {
        Some(l) => l,
        None => 50,
    };
    let capped: usize = if l < 100 { l as usize } else { 100 };
    let max: usize = if capped == 0 { 1 } else { capped };
    let jobs = open_jobs_down(state, max);
    let ghost ids = first_n(ids_down(state.jobs@, 0, state.next_job_id as int).filter(open_job(state.jobs@)), max as nat);
    let mut out: Vec<HashAwareJobResponse> = Vec::new();
    let mut i: usize = 0;
    while i < jobs.len()
        invariant
            state.wf(),
            jobs_are(jobs@, state.jobs@, ids),
            i <= jobs@.len(),
            out@.len() == i,
            forall|a: int| 0 <= a < i ==> presents_job(#[trigger] out@[a], state.jobs@[ids[a]], job_content_key(state, state.jobs@[ids[a]].id)),
        decreases jobs@.len() - i,
    {
        let job = &jobs[i];
        let entity = concat_key("job_", job.id);
        let key = match state.entity_to_hash.get(entity.as_str()) {
            Some(h) => h.clone(),
            None => String::new(),
        };
        assert(job.same_as(state.jobs@[ids[i as int]]));
        let resp = job_to_hash_aware_response(job, key);
        out.push(resp);
        i = i + 1;
    }
    Ok(out)
}

fn concat_key(prefix: &str, id: u64) -> (r: String)
    ensures
        r@ == prefix@ + crate::text::decimal_chars(id as nat),
{
    crate::text::concat2(prefix, crate::text::u64_to_string(id).as_str())
}

/// The content hash recorded for entity `<entity_type>_<entity_id>`, if any.
pub fn get_content_hash_for_entity(state: &ContractState, entity_type: &str, entity_id: &str) -> (r: Result<Option<ContentHash>, StdError>)
    requires
        state.wf(),
    ensures
        ({
            let entity = entity_type@ + "_"@ + entity_id@;
            let hash = state.entity_to_hash@[entity]@;
            r matches Ok(found) && found == (if state.entity_to_hash@.contains_key(entity) && state.content_hashes@.contains_key(hash) {
                Some(state.content_hashes@[hash])
            } else {
                None
            })
        }),
{
    let entity = crate::text::concat3(entity_type, "_", entity_id);
    match state.entity_to_hash.get(entity.as_str()) {
        Some(hash) => match state.content_hashes.get(hash.as_str()) {
            Some(c) => Ok(Some(c.copy())),
            None => Ok(None),
        },
        None => Ok(None),
    }
}

/// The entity recorded for a content hash, if any.
pub fn resolve_hash_to_reference(state: &ContractState, hash: &str) -> (r: Result<Option<String>, StdError>)
    requires
        state.wf(),
    ensures
        r matches Ok(found) && found == (if state.hash_to_entity@.contains_key(hash@) {
            Some(state.hash_to_entity@[hash@])
        } else {
            None
        }),
{
    match state.hash_to_entity.get(hash) {
        Some(e) => Ok(Some(e.clone())),
        None => Ok(None),
    }
}

/// Whether a (count, id) pair ranks at or above another: a higher count, then a higher id.
pub open spec fn pair_ge(a: (u64, u64), b: (u64, u64)) -> bool {
    a.0 > b.0 || (a.0 == b.0 && a.1 >= b.1)
}

/// Whether (count, id) pairs are ranked from the highest to the lowest.
pub open spec fn pairs_sorted_desc(s: Seq<(u64, u64)>) -> bool {
    forall|i: int, j: int| 0 <= i < j < s.len() ==> pair_ge(s[i], s[j])
}

/// Ranks (count, id) pairs from the highest count down, higher ids first among equal counts.
fn sort_pairs_desc(v: &Vec<(u64, u64)>) -> (r: Vec<(u64, u64)>)
    ensures
        pairs_sorted_desc(r@),
        r@.to_multiset() == v@.to_multiset(),
{
    broadcast use vstd::seq_lib::group_to_multiset_ensures;
    let mut out: Vec<(u64, u64)> = Vec::new();
    let mut i: usize = 0;
    while i < v.len()
        invariant
            i <= v@.len(),
            pairs_sorted_desc(out@),
            out@.to_multiset() == v@.subrange(0, i as int).to_multiset(),
        decreases v@.len() - i,
    {
        let x = v[i];
        let mut p: usize = 0;
        while p < out.len() && (out[p].0 > x.0 || (out[p].0 == x.0 && out[p].1 >= x.1))
            invariant
                p <= out@.len(),
                forall|j: int| 0 <= j < p ==> pair_ge(out@[j], x),
            decreases out@.len() - p,
        {
            p = p + 1;
        }
        let ghost before = out@;
        out.insert(p, x);
        proof {
            vstd::seq_lib::to_multiset_insert(before, p as int, x);
            vstd::seq_lib::to_multiset_build(v@.subrange(0, i as int), x);
            assert(v@.subrange(0, i + 1) =~= v@.subrange(0, i as int).push(x));
            assert forall|a: int, b: int| 0 <= a < b < out@.len() implies pair_ge(out@[a], out@[b]) by {
                if b < p {
                } else if a < p && b == p {
                } else if a < p && b > p {
                    assert(out@[b] == before[b - 1]);
                    assert(pair_ge(before[a], before[b - 1]));
                } else if a == p {
                    assert(out@[b] == before[b - 1]);
                    if p < before.len() {
                        assert(!pair_ge(before[p as int], x));
                        assert(pair_ge(before[p as int], before[b - 1]) || b - 1 == p);
                    }
                } else {
                    assert(out@[a] == before[a - 1]);
                    assert(out@[b] == before[b - 1]);
                }
            }
        }
        i = i + 1;
    }
    proof {
        assert(v@.subrange(0, v@.len() as int) =~= v@);
    }
    out
}

/// The (proposal count, id) pairs of the stored jobs, newest first.
pub open spec fn job_pairs(m: Map<u64, Job>, ids: Seq<u64>) -> Seq<(u64, u64)> {
    ids.map_values(|k: u64| (m[k].total_proposals, k))
}

/// The (submission count, id) pairs of the stored bounties, newest first.
pub open spec fn bounty_pairs(m: Map<u64, Bounty>, ids: Seq<u64>) -> Seq<(u64, u64)> {
    ids.map_values(|k: u64| (m[k].total_submissions, k))
}

/// The test that a job is stored, open, and has proposals.
pub open spec fn trending_job(m: Map<u64, Job>) -> spec_fn(u64) -> bool {
    |k: u64| m.contains_key(k) && m[k].status == JobStatus::Open && m[k].total_proposals > 0
}

/// The test that a bounty is stored, open, and has submissions.
pub open spec fn trending_bounty(m: Map<u64, Bounty>) -> spec_fn(u64) -> bool {
    |k: u64| m.contains_key(k) && m[k].status == BountyStatus::Open && m[k].total_submissions > 0
}

/// The ids of the first ten ranked pairs.
pub open spec fn top_ten_ids(sorted: Seq<(u64, u64)>) -> Seq<u64> {
    first_n(sorted, 10).map_values(|p: (u64, u64)| p.1)
}

/// The most proposed open jobs and the most answered open bounties: all jobs (and bounties) are
/// ranked by their count, newer first among equal counts, and of the ten at the top those open
/// and with at least one proposal (submission) are kept.
pub fn query_trending_content(state: &ContractState) -> (r: Result<TrendingResponse, StdError>)
    requires
        state.wf(),
    ensures
        r matches Ok(resp) && {
            &&& exists|sorted: Seq<(u64, u64)>| {
                &&& pairs_sorted_desc(sorted)
                &&& sorted.to_multiset() == job_pairs(state.jobs@, ids_down(state.jobs@, 0, state.next_job_id as int)).to_multiset()
                &&& jobs_are(resp.trending_jobs@, state.jobs@, top_ten_ids(sorted).filter(trending_job(state.jobs@)))
            }
            &&& exists|sorted: Seq<(u64, u64)>| {
                &&& pairs_sorted_desc(sorted)
                &&& sorted.to_multiset() == bounty_pairs(state.bounties@, ids_down(state.bounties@, 0, state.next_bounty_id as int)).to_multiset()
                &&& bounties_are(resp.trending_bounties@, state.bounties@, top_ten_ids(sorted).filter(trending_bounty(state.bounties@)))
            }
        },
{
    let mut pairs: Vec<(u64, u64)> = Vec::new();
    let mut k: u64 = state.next_job_id;
    let ghost mut ids: Seq<u64> = Seq::empty();
    while k > 0
        invariant
            state.wf(),
            k <= state.next_job_id,
            ids == ids_down(state.jobs@, k as int, state.next_job_id as int),
            pairs@ == job_pairs(state.jobs@, ids),
        decreases k,
    {
        let id = k - 1;
        proof {
            assert(ids_down(state.jobs@, id as int, state.next_job_id as int) =~= ids + if state.jobs@.contains_key(id) {
                seq![id]
            } else {
                Seq::empty()
            });
        }
        match state.jobs.get(&id) {
            Some(j) => {
                pairs.push((j.total_proposals, id));
                proof {
                    ids = ids.push(id);
                    assert(pairs@ =~= job_pairs(state.jobs@, ids));
                }
            },
            None => {},
        }
        k = id;
    }
    let sorted = sort_pairs_desc(&pairs);
    let ghost top = top_ten_ids(sorted@);
    let ghost pred = trending_job(state.jobs@);
    let n: usize = if sorted.len() < 10 { sorted.len() } else { 10 };
    let mut trending_jobs: Vec<Job> = Vec::new();
    let mut i: usize = 0;
    proof {
        assert(top.len() == n);
    }
    while i < n
        invariant
            state.wf(),
            n == top.len(),
            n <= sorted@.len(),
            top == top_ten_ids(sorted@),
            pred == trending_job(state.jobs@),
            i <= n,
            jobs_are(trending_jobs@, state.jobs@, top.subrange(0, i as int).filter(pred)),
        decreases n - i,
    {
        let id = sorted[i].1;
        proof {
            assert(top[i as int] == id);
            assert(top.subrange(0, i + 1) =~= top.subrange(0, i as int).push(id));
            top.subrange(0, i as int).lemma_filter_push(id, pred);
        }
        match state.jobs.get(&id) {
            Some(j) => {
                if j.status == JobStatus::Open && j.total_proposals > 0 {
                    trending_jobs.push(j.copy());
                }
            },
            None => {},
        }
        i = i + 1;
    }
    proof {
        assert(top.subrange(0, n as int) =~= top);
    }
    let mut bpairs: Vec<(u64, u64)> = Vec::new();
    let mut kb: u64 = state.next_bounty_id;
    let ghost mut bids: Seq<u64> = Seq::empty();
    while kb > 0
        invariant
            state.wf(),
            kb <= state.next_bounty_id,
            bids == ids_down(state.bounties@, kb as int, state.next_bounty_id as int),
            bpairs@ == bounty_pairs(state.bounties@, bids),
        decreases kb,
    {
        let id = kb - 1;
        proof {
            assert(ids_down(state.bounties@, id as int, state.next_bounty_id as int) =~= bids + if state.bounties@.contains_key(id) {
                seq![id]
            } else {
                Seq::empty()
            });
        }
        match state.bounties.get(&id) {
            Some(b) => {
                bpairs.push((b.total_submissions, id));
                proof {
                    bids = bids.push(id);
                    assert(bpairs@ =~= bounty_pairs(state.bounties@, bids));
                }
            },
            None => {},
        }
        kb = id;
    }
    let bsorted = sort_pairs_desc(&bpairs);
    let ghost btop = top_ten_ids(bsorted@);
    let ghost bpred = trending_bounty(state.bounties@);
    let bn: usize = if bsorted.len() < 10 { bsorted.len() } else { 10 };
    let mut trending_bounties: Vec<Bounty> = Vec::new();
    let mut j: usize = 0;
    proof {
        assert(btop.len() == bn);
    }
    while j < bn
        invariant
            state.wf(),
            bn == btop.len(),
            bn <= bsorted@.len(),
            btop == top_ten_ids(bsorted@),
            bpred == trending_bounty(state.bounties@),
            j <= bn,
            bounties_are(trending_bounties@, state.bounties@, btop.subrange(0, j as int).filter(bpred)),
        decreases bn - j,
    {
        let id = bsorted[j].1;
        proof {
            assert(btop[j as int] == id);
            assert(btop.subrange(0, j + 1) =~= btop.subrange(0, j as int).push(id));
            btop.subrange(0, j as int).lemma_filter_push(id, bpred);
        }
        match state.bounties.get(&id) {
            Some(b) => {
                if b.status == BountyStatus::Open && b.total_submissions > 0 {
                    trending_bounties.push(b.copy());
                }
            },
            None => {},
        }
        j = j + 1;
    }
    proof {
        assert(btop.subrange(0, bn as int) =~= btop);
    }
    Ok(TrendingResponse { trending_jobs, trending_bounties })
}

} // verus!
