//! Escrows kept under a name chosen by the depositor, for a job or a bounty, and the
//! queries over all escrows.
use vstd::prelude::*;
use crate::bounty::{bounty_key, bounty_kind};
use crate::chain::{bank_send, bank_view, Env, MessageInfo, Response};
use crate::contract_helpers::{build_response_attributes, response_attrs};
use crate::error::{invalid_input, not_found, ContractError, ErrorView, StdError, StdErrorView};
use crate::escrow::{escrow_kind, job_kind};
use crate::jobs::{legacy_escrow_id, limits_after, security_checks, security_refusal};
use crate::msg::{EscrowResponse, EscrowsResponse};
use crate::queries::{entry_values, first_n, query_escrow_answer};
use crate::security::RateLimitAction;
use crate::state::{ContractState, DisputeStatus, EscrowState, EscrowStatus};
use crate::store::{chars_lt, str_lt};
use crate::text::{concat2, decimal_chars, u128_to_string, u64_to_string};

verus! {

broadcast use vstd::std_specs::hash::group_hash_axioms;

/// The platform fee that these escrows are charged: five percent, rounded down.
pub open spec fn default_fee(amount: u128) -> int {
    (amount * 5) / 100
}

/// Why creating the escrow `escrow_id` is refused, if it is.
pub open spec fn named_escrow_refusal(
    pre: ContractState,
    now: u64,
    info: MessageInfo,
    escrow_id: Seq<char>,
    job_id: Option<u64>,
    bounty_id: Option<u64>,
    amount: u128,
) -> Option<ErrorView> {
    let sec = security_refusal(pre, now, info.sender@, RateLimitAction::CreateEscrow);
    if sec is Some {
        sec
    } else if job_id is None && bounty_id is None {
        Some(ErrorView::InvalidInput("Either job_id or bounty_id must be provided"@))
    } else if job_id is Some && bounty_id is Some {
        Some(ErrorView::InvalidInput("Cannot provide both job_id and bounty_id"@))
    } else if info.funds@.len() != 1 || info.funds@[0].amount != amount {
        Some(ErrorView::InvalidFunds)
    } else if pre.escrows@.contains_key(escrow_id) {
        Some(ErrorView::InvalidInput("Escrow already exists"@))
    } else if job_id matches Some(j) && !pre.jobs@.contains_key(j) {
        Some(ErrorView::Std(StdErrorView::NotFound { kind: job_kind() }))
    } else if bounty_id matches Some(b) && !pre.bounties@.contains_key(b) {
        Some(ErrorView::Std(StdErrorView::NotFound { kind: bounty_kind() }))
    } else {
        None
    }
}

/// What `execute_create_escrow` does: when it refuses and with which error, and the state and
/// response when it succeeds.
pub open spec fn named_escrow_outcome(
    pre: ContractState,
    post: ContractState,
    env: Env,
    info: MessageInfo,
    escrow_id: Seq<char>,
    job_id: Option<u64>,
    bounty_id: Option<u64>,
    amount: u128,
    recipient: Option<Seq<char>>,
    r: Result<Response, ContractError>,
) -> bool {
    let refusal = named_escrow_refusal(pre, env.time, info, escrow_id, job_id, bounty_id, amount);
    let e = post.escrows@[escrow_id];
    &&& r is Err <==> refusal is Some
    &&& r matches Err(x) ==> refusal == Some(x@) && post == pre
    &&& r matches Ok(resp) ==> {
        &&& post == (ContractState { escrows: post.escrows, user_rate_limits: post.user_rate_limits, ..pre })
        &&& post.escrows@ == pre.escrows@.insert(escrow_id, e)
        &&& e.id@ == escrow_id
        &&& e.job_id == (match job_id {
            Some(j) => j,
            None => 0,
        })
        &&& e.client == info.sender
        &&& e.freelancer@ == (match recipient {
            Some(x) => x,
            None => info.sender@,
        })
        &&& e.amount == amount
        &&& e.platform_fee == default_fee(amount)
        &&& e.funded_at == env.time
        &&& !e.released
        &&& e.dispute_status == DisputeStatus::NotRaised
        &&& e.dispute_raised_at is None
        &&& e.dispute_deadline is None
        &&& post.user_rate_limits@ == limits_after(pre, env.time, info.sender@, RateLimitAction::CreateEscrow)
        &&& resp.msgs() == Seq::<(bool, Seq<char>, Seq<char>, u128)>::empty()
        &&& resp.attrs() == crate::contract_helpers::standard_attrs("create_escrow"@, 0, info.sender@) + seq![
            ("escrow_id"@, escrow_id),
            ("amount"@, decimal_chars(amount as nat)),
        ]
    }
}

/// The sender deposits the attached `amount` in a new escrow named `escrow_id`, for a job or a
/// bounty, payable to `recipient` (an already validated address) or else to the sender.
pub fn execute_create_escrow(
    state: &mut ContractState,
    env: &Env,
    info: &MessageInfo,
    escrow_id: String,
    job_id: Option<u64>,
    bounty_id: Option<u64>,
    amount: u128,
    recipient: Option<String>,
    conditions: Vec<String>,
) -> (r: Result<Response, ContractError>)
    requires
        old(state).wf(),
        crate::state::tables_have_room(old(state)),
        named_escrow_refusal(*old(state), env.time, *info, escrow_id@, job_id, bounty_id, amount) is None ==> amount * 5 <= u128::MAX,
    ensures
        crate::state::room_used(*old(state), *final(state)),
        named_escrow_outcome(*old(state), *final(state), *env, *info, escrow_id@, job_id, bounty_id, amount, crate::contract_helpers::opt_string_view(recipient), r),
        final(state).wf(),
{
    let rl = match security_checks(state, env, info.sender.as_str(), RateLimitAction::CreateEscrow) {
        Ok(rl) => rl,
        Err(e) => return Err(e),
    };
    if job_id.is_none() && bounty_id.is_none() {
        return Err(invalid_input("Either job_id or bounty_id must be provided"));
    }
    if job_id.is_some() && bounty_id.is_some() {
        return Err(invalid_input("Cannot provide both job_id and bounty_id"));
    }
    if info.funds.len() != 1 || info.funds[0].amount != amount {
        return Err(ContractError::InvalidFunds {  });
    }
    if state.escrows.contains_key(escrow_id.as_str()) {
        return Err(invalid_input("Escrow already exists"));
    }
    if let Some(j) = job_id {
        if !state.jobs.contains_key(&j) {
            return Err(not_found("Job"));
        }
    }
    if let Some(b) = bounty_id {
        if !state.bounties.contains_key(&b) {
            return Err(not_found("Bounty"));
        }
    }
    let freelancer = match recipient {
        Some(x) => x,
        None => info.sender.clone(),
    };
    let escrow = EscrowState {
        id: escrow_id.clone(),
        job_id: match job_id {
            Some(j) => j,
            None => 0,
        },
        client: info.sender.clone(),
        freelancer,
        amount,
        platform_fee: crate::jobs::calculate_platform_fee(amount, 5),
        funded_at: env.time,
        released: false,
        dispute_status: DisputeStatus::NotRaised,
        dispute_raised_at: None,
        dispute_deadline: None,
    };
    state.escrows.insert(escrow_id.clone(), escrow);
    state.user_rate_limits.insert(info.sender.clone(), rl);
    let ghost id_view = escrow_id@;
    let mut extra: Vec<(&str, String)> = Vec::new();
    extra.push(("escrow_id", escrow_id));
    extra.push(("amount", u128_to_string(amount)));
    let attrs = build_response_attributes("create_escrow", 0, info.sender.as_str(), extra);
    let resp = Response { messages: Vec::new(), attributes: attrs };
    proof {
        assert(resp.attrs() =~= crate::contract_helpers::standard_attrs("create_escrow"@, 0, info.sender@) + seq![
            ("escrow_id"@, id_view),
            ("amount"@, decimal_chars(amount as nat)),
        ]);
        assert(resp.msgs() =~= Seq::<(bool, Seq<char>, Seq<char>, u128)>::empty());
        assert(*state == (ContractState { escrows: state.escrows, user_rate_limits: state.user_rate_limits, ..*old(state) }));
    }
    Ok(resp)
}

/// Why the client's release or refund of escrow `id` is refused before the check of its state.
pub open spec fn named_escrow_access_refusal(pre: ContractState, now: u64, sender: Seq<char>, id: Seq<char>, action: RateLimitAction) -> Option<ErrorView> {
    let sec = security_refusal(pre, now, sender, action);
    if sec is Some {
        sec
    } else if !pre.escrows@.contains_key(id) {
        Some(ErrorView::Std(StdErrorView::NotFound { kind: escrow_kind() }))
    } else if pre.escrows@[id].client@ != sender {
        Some(ErrorView::Unauthorized)
    } else {
        None
    }
}

/// What `execute_release_escrow` does: when it refuses and with which error, and the state and
/// response when it succeeds.
pub open spec fn named_release_outcome(
    pre: ContractState,
    post: ContractState,
    env: Env,
    info: MessageInfo,
    escrow_id: Seq<char>,
    recipient: Seq<char>,
    r: Result<Response, ContractError>,
) -> bool {
    let access = named_escrow_access_refusal(pre, env.time, info.sender@, escrow_id, RateLimitAction::ReleaseEscrow);
    let e = pre.escrows@[escrow_id];
    let refusal = if access is Some {
        access
    } else if e.released {
        Some(ErrorView::InvalidInput("Escrow has already been released"@))
    } else {
        None
    };
    &&& r is Err <==> refusal is Some
    &&& r matches Err(x) ==> refusal == Some(x@) && post == pre
    &&& r matches Ok(resp) ==> {
        &&& post == (ContractState { escrows: post.escrows, user_rate_limits: post.user_rate_limits, ..pre })
        &&& post.escrows@ == pre.escrows@.insert(escrow_id, EscrowState { released: true, freelancer: post.escrows@[escrow_id].freelancer, ..e })
        &&& post.escrows@[escrow_id].freelancer@ == recipient
        &&& post.user_rate_limits@ == limits_after(pre, env.time, info.sender@, RateLimitAction::ReleaseEscrow)
        &&& resp.msgs() == seq![bank_view(recipient, "uusdc"@, e.amount)]
        &&& resp.attrs() == crate::contract_helpers::standard_attrs("release_escrow"@, 0, info.sender@) + seq![
            ("escrow_id"@, escrow_id),
            ("recipient"@, recipient),
            ("amount"@, decimal_chars(e.amount as nat)),
        ]
    }
}

/// The client pays an escrow out to `recipient` (an already validated address).
pub fn execute_release_escrow(state: &mut ContractState, env: &Env, info: &MessageInfo, escrow_id: String, recipient: String) -> (r: Result<Response, ContractError>)
    requires
        old(state).wf(),
        crate::state::tables_have_room(old(state)),
    ensures
        crate::state::room_used(*old(state), *final(state)),
        named_release_outcome(*old(state), *final(state), *env, *info, escrow_id@, recipient@, r),
        final(state).wf(),
{
    let rl = match security_checks(state, env, info.sender.as_str(), RateLimitAction::ReleaseEscrow) {
        Ok(rl) => rl,
        Err(e) => return Err(e),
    };
    let escrow = match state.escrows.get(escrow_id.as_str()) {
        Some(e) => e,
        None => return Err(not_found("EscrowState")),
    };
    if !crate::text::str_eq(escrow.client.as_str(), info.sender.as_str()) {
        return Err(ContractError::Unauthorized {  });
    }
    if escrow.released {
        return Err(invalid_input("Escrow has already been released"));
    }
    let mut updated = escrow.copy();
    let amount = updated.amount;
    updated.released = true;
    updated.freelancer = recipient.clone();
    state.escrows.insert(escrow_id.clone(), updated);
    state.user_rate_limits.insert(info.sender.clone(), rl);
    let ghost id_view = escrow_id@;
    let mut extra: Vec<(&str, String)> = Vec::new();
    extra.push(("escrow_id", escrow_id));
    extra.push(("recipient", recipient.clone()));
    extra.push(("amount", u128_to_string(amount)));
    let attrs = build_response_attributes("release_escrow", 0, info.sender.as_str(), extra);
    let mut messages: Vec<crate::chain::CosmosMsg> = Vec::new();
    messages.push(bank_send(recipient, "uusdc", amount));
    let resp = Response { messages, attributes: attrs };
    proof {
        assert(resp.attrs() =~= crate::contract_helpers::standard_attrs("release_escrow"@, 0, info.sender@) + seq![
            ("escrow_id"@, id_view),
            ("recipient"@, recipient@),
            ("amount"@, decimal_chars(amount as nat)),
        ]);
        assert(resp.msgs() =~= seq![bank_view(recipient@, "uusdc"@, amount)]);
        assert(*state == (ContractState { escrows: state.escrows, user_rate_limits: state.user_rate_limits, ..*old(state) }));
    }
    Ok(resp)
}

/// What `execute_refund_escrow` does: when it refuses and with which error, and the state and
/// response when it succeeds. Only an escrow already marked released passes the state check.
pub open spec fn named_refund_outcome(
    pre: ContractState,
    post: ContractState,
    env: Env,
    info: MessageInfo,
    escrow_id: Seq<char>,
    r: Result<Response, ContractError>,
) -> bool {
    let access = named_escrow_access_refusal(pre, env.time, info.sender@, escrow_id, RateLimitAction::RefundEscrow);
    let e = pre.escrows@[escrow_id];
    let refusal = if access is Some {
        access
    } else if !e.released {
        Some(ErrorView::InvalidInput("Escrow is not in pending status"@))
    } else {
        None
    };
    &&& r is Err <==> refusal is Some
    &&& r matches Err(x) ==> refusal == Some(x@) && post == pre
    &&& r matches Ok(resp) ==> {
        &&& post == (ContractState { user_rate_limits: post.user_rate_limits, ..pre })
        &&& post.user_rate_limits@ == limits_after(pre, env.time, info.sender@, RateLimitAction::RefundEscrow)
        &&& resp.msgs() == seq![bank_view(info.sender@, "uusdc"@, e.amount)]
        &&& resp.attrs() == crate::contract_helpers::standard_attrs("refund_escrow"@, 0, info.sender@) + seq![
            ("escrow_id"@, escrow_id),
            ("amount"@, decimal_chars(e.amount as nat)),
        ]
    }
}

/// The client takes an escrow's amount back; the escrow, already marked released, stays as it is.
pub fn execute_refund_escrow(state: &mut ContractState, env: &Env, info: &MessageInfo, escrow_id: String) -> (r: Result<Response, ContractError>)
    requires
        old(state).wf(),
        crate::state::tables_have_room(old(state)),
    ensures
        crate::state::room_used(*old(state), *final(state)),
        named_refund_outcome(*old(state), *final(state), *env, *info, escrow_id@, r),
        final(state).wf(),
{
    let rl = match security_checks(state, env, info.sender.as_str(), RateLimitAction::RefundEscrow) {
        Ok(rl) => rl,
        Err(e) => return Err(e),
    };
    let escrow = match state.escrows.get(escrow_id.as_str()) {
        Some(e) => e,
        None => return Err(not_found("EscrowState")),
    };
    if !crate::text::str_eq(escrow.client.as_str(), info.sender.as_str()) {
        return Err(ContractError::Unauthorized {  });
    }
    if !escrow.released {
        return Err(invalid_input("Escrow is not in pending status"));
    }
    let amount = escrow.amount;
    state.user_rate_limits.insert(info.sender.clone(), rl);
    let ghost id_view = escrow_id@;
    let mut extra: Vec<(&str, String)> = Vec::new();
    extra.push(("escrow_id", escrow_id));
    extra.push(("amount", u128_to_string(amount)));
    let attrs = build_response_attributes("refund_escrow", 0, info.sender.as_str(), extra);
    let mut messages: Vec<crate::chain::CosmosMsg> = Vec::new();
    messages.push(bank_send(info.sender.clone(), "uusdc", amount));
    let resp = Response { messages, attributes: attrs };
    proof {
        assert(resp.attrs() =~= crate::contract_helpers::standard_attrs("refund_escrow"@, 0, info.sender@) + seq![
            ("escrow_id"@, id_view),
            ("amount"@, decimal_chars(amount as nat)),
        ]);
        assert(resp.msgs() =~= seq![bank_view(info.sender@, "uusdc"@, amount)]);
    }
    Ok(resp)
}

/// The escrow stored under `escrow_id`.
pub fn query_escrow(state: &ContractState, escrow_id: &str) -> (r: Result<EscrowResponse, StdError>)
    requires
        state.wf(),
    ensures
        query_escrow_answer(state, escrow_id@, r),
{
    crate::queries::query_escrow(state, escrow_id)
}

/// The escrow stored under `job_<job_id>`.
pub fn query_job_escrow(state: &ContractState, job_id: u64) -> (r: Result<EscrowResponse, StdError>)
    requires
        state.wf(),
    ensures
        query_escrow_answer(state, legacy_escrow_id(job_id), r),
{
    let key = concat2("job_", u64_to_string(job_id).as_str());
    query_escrow(state, key.as_str())
}

/// The escrow stored under `bounty_<bounty_id>`.
pub fn query_bounty_escrow(state: &ContractState, bounty_id: u64) -> (r: Result<EscrowResponse, StdError>)
    requires
        state.wf(),
    ensures
        query_escrow_answer(state, bounty_key(bounty_id), r),
{
    let key = concat2("bounty_", u64_to_string(bounty_id).as_str());
    query_escrow(state, key.as_str())
}

/// The state an escrow is in, as far as it is kept: released or pending.
pub open spec fn escrow_status_of(e: EscrowState) -> EscrowStatus {
    if e.released { EscrowStatus::Released } else { EscrowStatus::Pending }
}

/// Whether an escrow matches the optional status and depositor filters.
pub open spec fn escrow_matches(e: EscrowState, status: Option<EscrowStatus>, depositor: Option<Seq<char>>) -> bool {
    &&& status matches Some(s) ==> escrow_status_of(e) == s
    &&& depositor matches Some(d) ==> e.client@ == d
}

/// The escrows, in descending key order, that were deposited by `user` and match `status`.
pub open spec fn user_escrows_desc(entries: Seq<(String, EscrowState)>, user: Seq<char>, status: Option<EscrowStatus>) -> Seq<EscrowState>
    decreases entries.len(),
{
    if entries.len() == 0 {
        Seq::empty()
    } else {
        let rest = user_escrows_desc(entries.drop_first(), user, status);
        if escrow_matches(entries[0].1, status, Some(user)) {
            rest.push(entries[0].1)
        } else {
            rest
        }
    }
}

fn escrow_status_matches(e: &EscrowState, status: &Option<EscrowStatus>) -> (r: bool)
    ensures
        r == (status matches Some(s) ==> escrow_status_of(*e) == s),
{
    match status {
        Some(s) => {
            let current = if e.released { EscrowStatus::Released } else { EscrowStatus::Pending };
            current == *s
        },
        None => true,
    }
}

/// The escrows an (already validated) user deposited, in descending key order, optionally only
/// those in one state.
pub fn query_user_escrows(state: &ContractState, user: &str, status: Option<EscrowStatus>) -> (r: Result<EscrowsResponse, StdError>)
    requires
        state.wf(),
    ensures
        r matches Ok(resp) && resp.escrows@ == user_escrows_desc(state.escrows.entry_seq(), user@, status),
{
    let ghost entries = state.escrows.entry_seq();
    let n = state.escrows.len();
    let mut escrows: Vec<EscrowState> = Vec::new();
    let mut i: usize = n;
    proof {
        assert(entries.subrange(n as int, n as int) =~= Seq::<(String, EscrowState)>::empty());
    }
    while i > 0
        invariant
            n == entries.len(),
            entries == state.escrows.entry_seq(),
            i <= n,
            escrows@ == user_escrows_desc(entries.subrange(i as int, n as int), user@, status),
        decreases i,
    {
        i = i - 1;
        proof {
            assert(entries.subrange(i as int, n as int).drop_first() =~= entries.subrange(i + 1, n as int));
        }
        let e = state.escrows.value_at(i);
        if crate::text::str_eq(e.client.as_str(), user) && escrow_status_matches(e, &status) {
            escrows.push(e.copy());
        }
    }
    proof {
        assert(entries.subrange(0, n as int) =~= entries);
    }
    Ok(EscrowsResponse { escrows })
}

/// Whether a stored escrow comes after the optional start key and matches the filters.
pub open spec fn escrow_entry_filter(start_after: Option<Seq<char>>, status: Option<EscrowStatus>, depositor: Option<Seq<char>>) -> spec_fn((String, EscrowState)) -> bool {
    |x: (String, EscrowState)| (start_after matches Some(s) ==> chars_lt(s, x.0@)) && escrow_matches(x.1, status, depositor)
}

/// How many escrows a page holds: the limit (50 when none is given, at most 100), and at least one.
pub open spec fn escrow_page_size(limit: Option<u32>) -> nat {
    let l = crate::query_helpers::capped_limit(limit);
    if l == 0 { 1 } else { l as nat }
}

/// A page of escrows in ascending key order after `start_after`, filtered by state and (already
/// validated) depositor.
pub fn query_escrows(
    state: &ContractState,
    start_after: Option<String>,
    limit: Option<u32>,
    status: Option<EscrowStatus>,
    depositor: Option<&str>,
) -> (r: Result<EscrowsResponse, StdError>)
    requires
        state.wf(),
    ensures
        r matches Ok(resp) && resp.escrows@ == first_n(
            entry_values(state.escrows.entry_seq().filter(escrow_entry_filter(
                crate::contract_helpers::opt_string_view(start_after),
                status,
                crate::jobs::opt_str(depositor),
            ))),
            escrow_page_size(limit),
        ),
{
    let l = match limit {
        Some(l) => l,
        None => 50,
    };
    let cap: usize = if l < 100 { l as usize } else { 100 };
    let ghost entries = state.escrows.entry_seq();
    let ghost pred = escrow_entry_filter(crate::contract_helpers::opt_string_view(start_after), status, crate::jobs::opt_str(depositor));
    let ghost size = escrow_page_size(limit);
    let size_exec: usize = if cap == 0 { 1 } else { cap };
    let n = state.escrows.len();
    let mut escrows: Vec<EscrowState> = Vec::new();
    let mut i: usize = 0;
    while i < n && escrows.len() < size_exec
        invariant
            n == entries.len(),
            entries == state.escrows.entry_seq(),
            i <= n,
            pred == escrow_entry_filter(crate::contract_helpers::opt_string_view(start_after), status, crate::jobs::opt_str(depositor)),
            size == escrow_page_size(limit),
            size == size_exec,
            escrows@ == entry_values(entries.subrange(0, i as int).filter(pred)),
            escrows@.len() <= size,
        decreases n - i,
    {
        let key = state.escrows.key_at(i);
        let e = state.escrows.value_at(i);
        proof {
            assert(entries.subrange(0, i + 1) =~= entries.subrange(0, i as int).push(entries[i as int]));
            entries.subrange(0, i as int).lemma_filter_push(entries[i as int], pred);
        }
        let after_start = match &start_after {
            Some(s) => str_lt(s.as_str(), key.as_str()),
            None => true,
        };
        let by_depositor = match depositor {
            Some(d) => crate::text::str_eq(e.client.as_str(), d),
            None => true,
        };
        if after_start && escrow_status_matches(e, &status) && by_depositor {
            escrows.push(e.copy());
        }
        proof {
            assert(escrows@ =~= entry_values(entries.subrange(0, i + 1).filter(pred)));
        }
        i = i + 1;
    }
    proof {
        if escrows@.len() >= size {
            lemma_prefix_filter_take(entries, i as int, pred, size);
        } else {
            assert(entries.subrange(0, n as int) =~= entries);
        }
    }
    Ok(EscrowsResponse { escrows })
}

proof fn lemma_prefix_filter_take<T>(s: Seq<(String, T)>, i: int, pred: spec_fn((String, T)) -> bool, size: nat)
    requires
        0 <= i <= s.len(),
        entry_values(s.subrange(0, i).filter(pred)).len() == size,
    ensures
        entry_values(s.subrange(0, i).filter(pred)) == first_n(entry_values(s.filter(pred)), size),
{
    let a = s.subrange(0, i).filter(pred);
    let b = s.subrange(i, s.len() as int).filter(pred);
    assert(s =~= s.subrange(0, i) + s.subrange(i, s.len() as int));
    Seq::filter_distributes_over_add(s.subrange(0, i), s.subrange(i, s.len() as int), pred);
    let va = entry_values(a);
    let vb = entry_values(b);
    assert(entry_values(a + b) =~= va + vb);
    if size < (va + vb).len() {
        assert((va + vb).take(size as int) =~= va);
    } else {
        assert(vb.len() == 0);
        assert(va + vb =~= va);
    }
}

} // verus!
