//! Escrows: the funds a client locks for a job, released to the freelancer or
//! refunded to the client, and the disputes that hold them back.
use vstd::prelude::*;
use crate::chain::{
    bank_send, bank_view, msg_view, seconds, seconds_of, CosmosMsg, Env, MessageInfo, Coin, Response,
    NANOS_PER_SECOND, SECONDS_PER_DAY,
};
use crate::decimal::{ratio_atomics, Decimal, DECIMAL_FRACTIONAL};
use crate::error::{
    invalid_input, not_found, overflow, std_overflow_add, ContractError, ErrorView, OverflowError,
    OverflowOperation, PaymentError, PaymentErrorView, StdErrorView,
};
use crate::state::{
    zero_stats, AuditLog, ContractState, DisputeStatus, EscrowState, Job, JobStatus, UserStats, Dispute,
};
use crate::security::{escrow_id_chars, generate_escrow_id};
use crate::text::{blen, concat2, concat3, decimal_chars, u128_to_string, u64_to_string};

verus! {

broadcast use vstd::std_specs::hash::group_hash_axioms;

/// How long after funding anyone may release the escrow of a completed job, in seconds.
pub const DISPUTE_PERIOD_SECONDS: u64 = 604_800u64;

/// The kind named when a job is not stored.
pub open spec fn job_kind() -> Seq<char> {
    "Job"@
}

/// The kind named when an escrow is not stored.
pub open spec fn escrow_kind() -> Seq<char> {
    "EscrowState"@
}

/// The kind named when a dispute is not stored.
pub open spec fn dispute_kind() -> Seq<char> {
    "Dispute"@
}

/// The amount of `denom` that a message pays, when it pays exactly one non-zero coin of it.
pub open spec fn must_pay_spec(funds: Seq<Coin>, denom: Seq<char>) -> Result<u128, PaymentErrorView> {
    if funds.len() == 0 {
        Err(PaymentErrorView::NoFunds)
    } else if funds.len() == 1 {
        if funds[0].amount == 0 {
            Err(PaymentErrorView::NoFunds)
        } else if funds[0].denom@ != denom {
            Err(PaymentErrorView::MissingDenom(denom))
        } else {
            Ok(funds[0].amount)
        }
    } else {
        Err(PaymentErrorView::MultipleDenoms)
    }
}

/// Requires exactly one coin, of `denom` and not zero, and returns its amount.
pub fn must_pay(info: &MessageInfo, denom: &str) -> (r: Result<u128, PaymentError>)
    ensures
        match r {
            Ok(a) => must_pay_spec(info.funds@, denom@) == Ok::<u128, PaymentErrorView>(a),
            Err(e) => must_pay_spec(info.funds@, denom@) == Err::<u128, PaymentErrorView>(e@),
        },
{
    if info.funds.len() == 0 {
        return Err(PaymentError::NoFunds {  });
    }
    if info.funds.len() > 1 {
        return Err(PaymentError::MultipleDenoms {  });
    }
    let coin = &info.funds[0];
    if coin.amount == 0 {
        return Err(PaymentError::NoFunds {  });
    }
    if !crate::text::str_eq(coin.denom.as_str(), denom) {
        return Err(PaymentError::MissingDenom(String::from_str(denom)));
    }
    Ok(coin.amount)
}

/// The statistics of `user` in a table of statistics.
pub open spec fn stats_in(m: Map<Seq<char>, UserStats>, user: Seq<char>) -> UserStats {
    if m.contains_key(user) {
        m[user]
    } else {
        zero_stats()
    }
}

/// A client's statistics after paying `amount` for a finished job.
pub open spec fn spent_stats(s: UserStats, amount: u128) -> UserStats {
    UserStats { total_spent: (s.total_spent + amount) as u128, ..s }
}

/// A freelancer's statistics after earning `amount` for a finished job.
pub open spec fn earned_stats(s: UserStats, amount: u128) -> UserStats {
    let completed = (s.total_jobs_completed + 1) as u64;
    UserStats {
        total_earned: (s.total_earned + amount) as u128,
        total_jobs_completed: completed,
        completion_rate: if s.total_jobs_posted > 0 {
            Decimal { atomics: ratio_atomics(completed as nat, s.total_jobs_posted as nat) as u128 }
        } else {
            s.completion_rate
        },
        ..s
    }
}

/// The table after the client's spending is recorded; the freelancer's earnings are read from it.
pub open spec fn client_updated(m: Map<Seq<char>, UserStats>, client: Seq<char>, amount: u128) -> Map<Seq<char>, UserStats> {
    m.insert(client, spent_stats(stats_in(m, client), amount))
}

/// Whether recording a finished job stays within the counters' ranges.
pub open spec fn completion_fits(m: Map<Seq<char>, UserStats>, client: Seq<char>, freelancer: Seq<char>, amount: u128) -> bool {
    let f = stats_in(client_updated(m, client, amount), freelancer);
    &&& stats_in(m, client).total_spent + amount <= u128::MAX
    &&& f.total_earned + amount <= u128::MAX
    &&& f.total_jobs_completed + 1 <= u64::MAX
}

/// The statistics after a finished job: the client spent and the freelancer earned `amount`.
pub open spec fn stats_after_completion(m: Map<Seq<char>, UserStats>, client: Seq<char>, freelancer: Seq<char>, amount: u128) -> Map<Seq<char>, UserStats> {
    let m1 = client_updated(m, client, amount);
    m1.insert(freelancer, earned_stats(stats_in(m1, freelancer), amount))
}

/// The statistics stored for `user`, or empty ones.
pub fn load_stats(state: &ContractState, user: &str) -> (r: UserStats)
    requires
        state.user_stats.wf(),
    ensures
        r == stats_in(state.user_stats@, user@),
{
    match state.user_stats.get(user) {
        Some(s) => s.copy(),
        None => crate::state::default_user_stats(),
    }
}

/// Records a finished job in the statistics of its client and its freelancer.
pub fn update_user_stats_on_completion(state: &mut ContractState, client: &str, freelancer: &str, amount: u128) -> (r: Result<(), ContractError>)
    requires
        old(state).wf(),
        crate::state::tables_have_room(old(state)),
    ensures
        crate::state::room_used(*old(state), *final(state)),
        r is Ok <==> completion_fits(old(state).user_stats@, client@, freelancer@, amount),
        r matches Err(e) ==> e@ == ErrorView::Std(StdErrorView::Overflow { source: OverflowError { operation: OverflowOperation::Add } }),
        r is Err ==> *final(state) == *old(state),
        r is Ok ==> final(state).user_stats@ == stats_after_completion(old(state).user_stats@, client@, freelancer@, amount),
        *final(state) == (ContractState { user_stats: final(state).user_stats, ..*old(state) }),
        final(state).wf(),
{
    let mut cs = load_stats(state, client);
    if cs.total_spent > u128::MAX - amount {
        return Err(std_overflow_add());
    }
    cs.total_spent = cs.total_spent + amount;
    let ghost m1 = client_updated(state.user_stats@, client@, amount);
    let mut fs = if crate::text::str_eq(client, freelancer) {
        cs.copy()
    } else {
        load_stats(state, freelancer)
    };
    assert(fs == stats_in(m1, freelancer@));
    if fs.total_earned > u128::MAX - amount || fs.total_jobs_completed == u64::MAX {
        return Err(std_overflow_add());
    }
    fs.total_earned = fs.total_earned + amount;
    fs.total_jobs_completed = fs.total_jobs_completed + 1;
    if fs.total_jobs_posted > 0 {
        fs.completion_rate = Decimal::from_ratio(fs.total_jobs_completed, fs.total_jobs_posted);
    }
    state.user_stats.insert(String::from_str(client), cs);
    state.user_stats.insert(String::from_str(freelancer), fs);
    Ok(())
}

/// The id of the escrow created for `job_id` at `now`.
pub open spec fn escrow_id_for(job_id: u64, now: u64) -> Seq<char> {
    "escrow_"@ + decimal_chars(job_id as nat) + "_"@ + decimal_chars(seconds_of(now))
}

/// What a new escrow is paid with: the token amount when one is given, else the native coins attached.
pub open spec fn escrow_payment(funds: Seq<Coin>, cw20_amount: Option<u128>) -> Result<u128, PaymentErrorView> {
    match cw20_amount {
        Some(a) => Ok(a),
        None => must_pay_spec(funds, "uxion"@),
    }
}

/// The platform's share of a payment, rounded down.
pub open spec fn platform_fee_of(payment: u128, percent: u64) -> int {
    (payment * percent) / 100
}

/// Why creating an escrow for `job_id` is refused, if it is.
pub open spec fn create_escrow_refusal(pre: ContractState, sender: Seq<char>, job_id: u64, payment: Result<u128, PaymentErrorView>) -> Option<ErrorView> {
    let job = pre.jobs@[job_id];
    if pre.config.paused {
        Some(ErrorView::ContractPaused)
    } else if !pre.jobs@.contains_key(job_id) {
        Some(ErrorView::Std(StdErrorView::NotFound { kind: job_kind() }))
    } else if job.budget == 0 {
        Some(ErrorView::InvalidInput("Cannot create escrow for free projects"@))
    } else if job.poster@ != sender {
        Some(ErrorView::Unauthorized)
    } else if job.status != JobStatus::InProgress {
        Some(ErrorView::InvalidInput("Job must be in progress to create escrow"@))
    } else if job.escrow_id is Some {
        Some(ErrorView::EscrowAlreadyExists { job_id })
    } else {
        match payment {
            Err(e) => Some(ErrorView::Payment(e)),
            Ok(p) => if p != job.budget {
                Some(ErrorView::InsufficientFunds { expected: decimal_chars(job.budget as nat), actual: decimal_chars(p as nat) })
            } else if p < pre.config.min_escrow_amount {
                Some(ErrorView::EscrowAmountTooLow { min: decimal_chars(pre.config.min_escrow_amount as nat) })
            } else if p * pre.config.platform_fee_percent > u128::MAX {
                Some(ErrorView::Overflow(OverflowError { operation: OverflowOperation::Mul }))
            } else {
                None
            },
        }
    }
}

/// The state and response after an escrow of `payment` was created for `job_id` at `now`;
/// `token` is the token contract when the payment came as tokens.
pub open spec fn escrow_created(pre: ContractState, post: ContractState, now: u64, job_id: u64, payment: u128, token: Option<Seq<char>>, resp: Response) -> bool {
    let job = pre.jobs@[job_id];
    let id = escrow_id_for(job_id, now);
    let fee = platform_fee_of(payment, pre.config.platform_fee_percent);
    let e = post.escrows@[id];
    &&& post == (ContractState { escrows: post.escrows, jobs: post.jobs, ..pre })
    &&& post.escrows@ == pre.escrows@.insert(id, e)
    &&& e.id@ == id
    &&& e.job_id == job_id
    &&& e.client == job.poster
    &&& Some(e.freelancer) == job.assigned_freelancer
    &&& e.amount == payment - fee
    &&& e.platform_fee == fee
    &&& e.funded_at == now
    &&& !e.released
    &&& e.dispute_status == DisputeStatus::NotRaised
    &&& e.dispute_raised_at is None
    &&& e.dispute_deadline is None
    &&& post.jobs@ == pre.jobs@.insert(job_id, Job { escrow_id: Some(e.id), updated_at: now, ..job })
    &&& resp.msgs() == match token {
        Some(t) => seq![(false, id, t, payment)],
        None => Seq::<(bool, Seq<char>, Seq<char>, u128)>::empty(),
    }
    &&& resp.attrs() == seq![
        ("method"@, "create_escrow"@),
        ("job_id"@, decimal_chars(job_id as nat)),
        ("escrow_id"@, id),
        ("amount"@, decimal_chars(payment as nat)),
        ("platform_fee"@, decimal_chars(fee as nat)),
    ]
}

/// Creates the escrow of a job in progress, paid with `cw20_amount` tokens of
/// `token_contract` when given, else with the native coins attached.
pub fn create_escrow_internal(
    state: &mut ContractState,
    env: &Env,
    info: &MessageInfo,
    job_id: u64,
    cw20_amount: Option<u128>,
    token_contract: Option<String>,
) -> (r: Result<Response, ContractError>)
    requires
        old(state).wf(),
        crate::state::tables_have_room(old(state)),
        cw20_amount is Some <==> token_contract is Some,
    ensures
        crate::state::room_used(*old(state), *final(state)),
        ({
            let payment = escrow_payment(info.funds@, cw20_amount);
            let refusal = create_escrow_refusal(*old(state), info.sender@, job_id, payment);
            &&& r is Err <==> refusal is Some
            &&& r matches Err(e) ==> refusal == Some(e@) && *final(state) == *old(state)
            &&& r matches Ok(resp) ==> escrow_created(
                *old(state),
                *final(state),
                env.time,
                job_id,
                payment->Ok_0,
                match token_contract { Some(t) => Some(t@), None => None },
                resp,
            )
        }),
        final(state).wf(),
{
    if state.config.paused {
        return Err(ContractError::ContractPaused {  });
    }
    let job = match state.jobs.get(&job_id) {
        Some(j) => j,
        None => return Err(not_found("Job")),
    };
    if job.budget == 0 {
        return Err(invalid_input("Cannot create escrow for free projects"));
    }
    if !crate::text::str_eq(job.poster.as_str(), info.sender.as_str()) {
        return Err(ContractError::Unauthorized {  });
    }
    if job.status != JobStatus::InProgress {
        return Err(invalid_input("Job must be in progress to create escrow"));
    }
    if job.escrow_id.is_some() {
        return Err(ContractError::EscrowAlreadyExists { job_id });
    }
    let payment = match cw20_amount {
        Some(a) => a,
        None => match must_pay(info, "uxion") {
            Ok(a) => a,
            Err(e) => return Err(ContractError::Payment(e)),
        },
    };
    if payment != job.budget {
        return Err(
            ContractError::InsufficientFunds { expected: u128_to_string(job.budget), actual: u128_to_string(payment) },
        );
    }
    if payment < state.config.min_escrow_amount {
        return Err(ContractError::EscrowAmountTooLow { min: u128_to_string(state.config.min_escrow_amount) });
    }
    let product = match payment.checked_mul(state.config.platform_fee_percent as u128) {
        Some(p) => p,
        None => return Err(overflow(OverflowOperation::Mul)),
    };
    let platform_fee = product / 100;
    assert(platform_fee <= payment) by (nonlinear_arith)
        requires
            platform_fee == (payment * state.config.platform_fee_percent) / 100,
            state.config.platform_fee_percent <= 10,
    ;
    let freelancer_amount = payment - platform_fee;
    let freelancer = match &job.assigned_freelancer {
        Some(f) => f.clone(),
        None => return Err(ContractError::Unauthorized {  }),
    };
    let client = job.poster.clone();
    let secs = u64_to_string(seconds(env.time));
    let idnum = u64_to_string(job_id);
    let prefix = concat3("escrow_", idnum.as_str(), "_");
    let escrow_id = concat2(prefix.as_str(), secs.as_str());
    let escrow = EscrowState {
        id: escrow_id.clone(),
        job_id,
        client,
        freelancer,
        amount: freelancer_amount,
        platform_fee,
        funded_at: env.time,
        released: false,
        dispute_status: DisputeStatus::NotRaised,
        dispute_raised_at: None,
        dispute_deadline: None,
    };
    state.escrows.insert(escrow_id.clone(), escrow);
    let mut updated = state.jobs.remove(&job_id).unwrap();
    updated.escrow_id = Some(escrow_id.clone());
    updated.updated_at = env.time;
    state.jobs.insert(job_id, updated);
    let mut resp = Response::new();
    if let Some(amount) = cw20_amount {
        let token = token_contract.unwrap();
        resp = resp.add_message(CosmosMsg::Cw20Transfer { contract_addr: token, recipient: escrow_id.clone(), amount });
    }
    let resp = resp.add_attribute("method", String::from_str("create_escrow"));
    let resp = resp.add_attribute("job_id", u64_to_string(job_id));
    let resp = resp.add_attribute("escrow_id", escrow_id);
    let resp = resp.add_attribute("amount", u128_to_string(payment));
    let resp = resp.add_attribute("platform_fee", u128_to_string(platform_fee));
    proof {
        let id = escrow_id_for(job_id, env.time);
        assert(escrow_id@ =~= id);
        assert(state.escrows@ == old(state).escrows@.insert(id, state.escrows@[id]));
        assert(*state == (ContractState { escrows: state.escrows, jobs: state.jobs, ..*old(state) }));
        assert(resp.attrs() =~= seq![
            ("method"@, "create_escrow"@),
            ("job_id"@, decimal_chars(job_id as nat)),
            ("escrow_id"@, id),
            ("amount"@, decimal_chars(payment as nat)),
            ("platform_fee"@, decimal_chars(platform_fee as nat)),
        ]);
        let payment_s = escrow_payment(info.funds@, cw20_amount);
        assert(payment_s == Ok::<u128, PaymentErrorView>(payment));
        assert(create_escrow_refusal(*old(state), info.sender@, job_id, payment_s) is None);
        let job0 = old(state).jobs@[job_id];
        assert(state.jobs@ == old(state).jobs@.insert(job_id, Job { escrow_id: Some(state.escrows@[id].id), updated_at: env.time, ..job0 }));
        assert(resp.msgs() == match token_contract { Some(t) => seq![(false, id, t@, payment)], None => Seq::<(bool, Seq<char>, Seq<char>, u128)>::empty() });
    }
    Ok(resp)
}

/// The audit record of an escrow created by `sender` for `job_id` at `now`.
pub open spec fn escrow_audit_ok(log_id: Seq<char>, log: AuditLog, sender: Seq<char>, job_id: u64, now: u64) -> bool {
    &&& log.id@ == log_id
    &&& log.action@ == "create_escrow"@
    &&& log.user@ == sender
    &&& log.job_id == Some(job_id)
    &&& log.proposal_id is None
    &&& log.timestamp == now
    &&& log.success
    &&& log.error is None
}

/// What `create_escrow_native` does: when it refuses and with which error, and the state and response when it succeeds.
pub open spec fn create_escrow_native_outcome(
    pre: ContractState,
    post: ContractState,
    env: Env,
    info: MessageInfo,
    job_id: u64,
    r: Result<Response, ContractError>,
) -> bool {
    let payment = escrow_payment(info.funds@, None);
    let refusal = create_escrow_refusal(pre, info.sender@, job_id, payment);
    let log_id = escrow_id_chars(job_id, info.sender@, info.sender@, seconds_of(env.time) as u64);
    &&& r is Err <==> refusal is Some
    &&& r matches Err(e) ==> refusal == Some(e@) && post == pre
    &&& r matches Ok(resp) ==> exists|mid: ContractState|
        {
            &&& escrow_created(pre, mid, env.time, job_id, payment->Ok_0, None, resp)
            &&& post == (ContractState { audit_logs: post.audit_logs, ..mid })
            &&& post.audit_logs@ == mid.audit_logs@.insert(log_id, post.audit_logs@[log_id])
            &&& escrow_audit_ok(log_id, post.audit_logs@[log_id], info.sender@, job_id, env.time)
        }
}

/// Creates the escrow of a job from the native funds sent with the message: the same
/// operation as `create_escrow_native`.
pub fn create_escrow(state: &mut ContractState, env: &Env, info: &MessageInfo, job_id: u64) -> (r: Result<Response, ContractError>)
    requires
        old(state).wf(),
        crate::state::tables_have_room(old(state)),
    ensures
        crate::state::room_used(*old(state), *final(state)),
        create_escrow_native_outcome(*old(state), *final(state), *env, *info, job_id, r),
        final(state).wf(),
{
    create_escrow_native(state, env, info, job_id)
}

/// Creates the escrow of a job in progress from the native coins attached, and records it in the audit log.
pub fn create_escrow_native(state: &mut ContractState, env: &Env, info: &MessageInfo, job_id: u64) -> (r: Result<Response, ContractError>)
    requires
        old(state).wf(),
        crate::state::tables_have_room(old(state)),
    ensures
        crate::state::room_used(*old(state), *final(state)),
        create_escrow_native_outcome(*old(state), *final(state), *env, *info, job_id, r),
        final(state).wf(),
{
    let _ = crate::security::reentrancy_guard(state);
    let result = create_escrow_internal(state, env, info, job_id, None, None);
    let ghost mid = *state;
    match result {
        Ok(resp) => {
            let log_id = generate_escrow_id(job_id, info.sender.as_str(), info.sender.as_str(), seconds(env.time));
            let log = AuditLog {
                id: log_id.clone(),
                action: String::from_str("create_escrow"),
                user: info.sender.clone(),
                job_id: Some(job_id),
                proposal_id: None,
                timestamp: env.time,
                success: true,
                error: None,
            };
            state.audit_logs.insert(log_id, log);
            assert(escrow_created(*old(state), mid, env.time, job_id, escrow_payment(info.funds@, None)->Ok_0, None, resp));
            Ok(resp)
        },
        Err(e) => Err(e),
    }
}

/// Creates the escrow of `job_id` from `amount` tokens sent by the token contract `info.sender`.
pub fn create_escrow_cw20(state: &mut ContractState, env: &Env, info: &MessageInfo, amount: u128, job_id: u64) -> (r: Result<Response, ContractError>)
    requires
        old(state).wf(),
        crate::state::tables_have_room(old(state)),
    ensures
        crate::state::room_used(*old(state), *final(state)),
        ({
            let refusal = create_escrow_refusal(*old(state), info.sender@, job_id, Ok(amount));
            &&& r is Err <==> refusal is Some
            &&& r matches Err(e) ==> refusal == Some(e@) && *final(state) == *old(state)
            &&& r matches Ok(resp) ==> escrow_created(*old(state), *final(state), env.time, job_id, amount, Some(info.sender@), resp)
        }),
        final(state).wf(),
{
    create_escrow_internal(state, env, info, job_id, Some(amount), Some(info.sender.clone()))
}

/// Why releasing escrow `id` is refused, if it is.
pub open spec fn release_refusal(pre: ContractState, now: u64, sender: Seq<char>, id: Seq<char>) -> Option<ErrorView> {
    let e = pre.escrows@[id];
    let job = pre.jobs@[e.job_id];
    if !pre.escrows@.contains_key(id) {
        Some(ErrorView::Std(StdErrorView::NotFound { kind: escrow_kind() }))
    } else if !pre.jobs@.contains_key(e.job_id) {
        Some(ErrorView::Std(StdErrorView::NotFound { kind: job_kind() }))
    } else if pre.config.paused {
        Some(ErrorView::ContractPaused)
    } else if !(sender == e.client@ || (job.status == JobStatus::Completed && seconds_of(now) > seconds_of(e.funded_at) + DISPUTE_PERIOD_SECONDS)) {
        Some(ErrorView::Unauthorized)
    } else if e.released {
        Some(ErrorView::InvalidInput("Escrow already released"@))
    } else if e.dispute_status == DisputeStatus::Raised || e.dispute_status == DisputeStatus::UnderReview {
        Some(ErrorView::DisputePeriodActive)
    } else if !completion_fits(pre.user_stats@, e.client@, e.freelancer@, e.amount) {
        Some(ErrorView::Std(StdErrorView::Overflow { source: OverflowError { operation: OverflowOperation::Add } }))
    } else {
        None
    }
}

/// The payments that hand an escrow to its freelancer: the amount to the freelancer, the fee to the admin.
pub open spec fn payout_msgs(e: EscrowState, admin: Seq<char>) -> Seq<(bool, Seq<char>, Seq<char>, u128)> {
    seq![bank_view(e.freelancer@, "uxion"@, e.amount), bank_view(admin, "uxion"@, e.platform_fee)]
}

/// The state and response after escrow `id` was released to its freelancer.
pub open spec fn release_done(pre: ContractState, post: ContractState, id: Seq<char>, resp: Response) -> bool {
    let e = pre.escrows@[id];
    &&& post == (ContractState { escrows: post.escrows, user_stats: post.user_stats, ..pre })
    &&& post.escrows@ == pre.escrows@.insert(id, EscrowState { released: true, ..e })
    &&& post.user_stats@ == stats_after_completion(pre.user_stats@, e.client@, e.freelancer@, e.amount)
    &&& resp.msgs() == payout_msgs(e, pre.config.admin@)
    &&& resp.attrs() == seq![("method"@, "release_escrow"@), ("escrow_id"@, id), ("amount"@, decimal_chars(e.amount as nat))]
}

/// What `release_escrow` does: when it refuses and with which error, and the state and response when it succeeds.
pub open spec fn release_escrow_outcome(
    pre: ContractState,
    post: ContractState,
    env: Env,
    info: MessageInfo,
    escrow_id: String,
    r: Result<Response, ContractError>,
) -> bool {
    let refusal = release_refusal(pre, env.time, info.sender@, escrow_id@);
    &&& r is Err <==> refusal is Some
    &&& r matches Err(e) ==> refusal == Some(e@) && post == pre
    &&& r matches Ok(resp) ==> release_done(pre, post, escrow_id@, resp)
}

/// Pays an escrow out to its freelancer. The client may do so at any time; anyone may once the
/// job is completed and the dispute period since funding has passed. Not while a dispute is open.
pub fn release_escrow(state: &mut ContractState, env: &Env, info: &MessageInfo, escrow_id: String) -> (r: Result<Response, ContractError>)
    requires
        old(state).wf(),
        crate::state::tables_have_room(old(state)),
    ensures
        crate::state::room_used(*old(state), *final(state)),
        release_escrow_outcome(*old(state), *final(state), *env, *info, escrow_id, r),
        final(state).wf(),
{
    let escrow = match state.escrows.get(escrow_id.as_str()) {
        Some(e) => e,
        None => return Err(not_found("EscrowState")),
    };
    let job = match state.jobs.get(&escrow.job_id) {
        Some(j) => j,
        None => return Err(not_found("Job")),
    };
    if state.config.paused {
        return Err(ContractError::ContractPaused {  });
    }
    let can_release = crate::text::str_eq(info.sender.as_str(), escrow.client.as_str()) || (job.status
        == JobStatus::Completed && seconds(env.time) > seconds(escrow.funded_at) + DISPUTE_PERIOD_SECONDS);
    if !can_release {
        return Err(ContractError::Unauthorized {  });
    }
    if escrow.released {
        return Err(invalid_input("Escrow already released"));
    }
    if escrow.dispute_status == DisputeStatus::Raised || escrow.dispute_status == DisputeStatus::UnderReview {
        return Err(ContractError::DisputePeriodActive {  });
    }
    let client = escrow.client.clone();
    let freelancer = escrow.freelancer.clone();
    let amount = escrow.amount;
    let fee = escrow.platform_fee;
    let ghost e0 = *escrow;
    match update_user_stats_on_completion(state, client.as_str(), freelancer.as_str(), amount) {
        Ok(()) => {},
        Err(e) => return Err(e),
    }
    let mut updated = state.escrows.remove(escrow_id.as_str()).unwrap();
    assert(updated == e0);
    updated.released = true;
    state.escrows.insert(escrow_id.clone(), updated);
    let resp = Response::new();
    let resp = resp.add_message(bank_send(freelancer, "uxion", amount));
    let resp = resp.add_message(bank_send(state.config.admin.clone(), "uxion", fee));
    let resp = resp.add_attribute("method", String::from_str("release_escrow"));
    let resp = resp.add_attribute("escrow_id", escrow_id);
    let resp = resp.add_attribute("amount", u128_to_string(amount));
    proof {
        assert(resp.msgs() =~= payout_msgs(e0, old(state).config.admin@));
        assert(resp.attrs() =~= seq![("method"@, "release_escrow"@), ("escrow_id"@, escrow_id@), ("amount"@, decimal_chars(e0.amount as nat))]);
        assert(*state == (ContractState { escrows: state.escrows, user_stats: state.user_stats, ..*old(state) }));
        assert(state.escrows@ =~= old(state).escrows@.insert(escrow_id@, EscrowState { released: true, ..e0 }));
    }
    Ok(resp)
}

/// Why refunding escrow `id` is refused, if it is.
pub open spec fn refund_refusal(pre: ContractState, sender: Seq<char>, id: Seq<char>) -> Option<ErrorView> {
    let e = pre.escrows@[id];
    if !pre.escrows@.contains_key(id) {
        Some(ErrorView::Std(StdErrorView::NotFound { kind: escrow_kind() }))
    } else if sender != pre.config.admin@ {
        Some(ErrorView::Unauthorized)
    } else if e.released {
        Some(ErrorView::InvalidInput("Escrow already released"@))
    } else if e.amount + e.platform_fee > u128::MAX {
        Some(ErrorView::Overflow(OverflowError { operation: OverflowOperation::Add }))
    } else {
        None
    }
}

/// The state and response after escrow `id` was refunded to its client.
pub open spec fn refund_done(pre: ContractState, post: ContractState, id: Seq<char>, resp: Response) -> bool {
    let e = pre.escrows@[id];
    let total = (e.amount + e.platform_fee) as u128;
    &&& post == (ContractState { escrows: post.escrows, ..pre })
    &&& post.escrows@ == pre.escrows@.insert(id, EscrowState { released: true, ..e })
    &&& resp.msgs() == seq![bank_view(e.client@, "uxion"@, total)]
    &&& resp.attrs() == seq![("method"@, "refund_escrow"@), ("escrow_id"@, id), ("amount"@, decimal_chars(total as nat))]
}

/// What `refund_escrow` does: when it refuses and with which error, and the state and response when it succeeds.
pub open spec fn refund_escrow_outcome(
    pre: ContractState,
    post: ContractState,
    env: Env,
    info: MessageInfo,
    escrow_id: String,
    r: Result<Response, ContractError>,
) -> bool {
    let refusal = refund_refusal(pre, info.sender@, escrow_id@);
    &&& r is Err <==> refusal is Some
    &&& r matches Err(e) ==> refusal == Some(e@) && post == pre
    &&& r matches Ok(resp) ==> refund_done(pre, post, escrow_id@, resp)
}

/// Returns an escrow, fee included, to its client. Only the admin may do so.
pub fn refund_escrow(state: &mut ContractState, env: &Env, info: &MessageInfo, escrow_id: String) -> (r: Result<Response, ContractError>)
    requires
        old(state).wf(),
        crate::state::tables_have_room(old(state)),
    ensures
        crate::state::room_used(*old(state), *final(state)),
        refund_escrow_outcome(*old(state), *final(state), *env, *info, escrow_id, r),
        final(state).wf(),
{
    let escrow = match state.escrows.get(escrow_id.as_str()) {
        Some(e) => e,
        None => return Err(not_found("EscrowState")),
    };
    if !crate::text::str_eq(info.sender.as_str(), state.config.admin.as_str()) {
        return Err(ContractError::Unauthorized {  });
    }
    if escrow.released {
        return Err(invalid_input("Escrow already released"));
    }
    let total = match escrow.amount.checked_add(escrow.platform_fee) {
        Some(t) => t,
        None => return Err(overflow(OverflowOperation::Add)),
    };
    let client = escrow.client.clone();
    let ghost e0 = *escrow;
    let mut updated = state.escrows.remove(escrow_id.as_str()).unwrap();
    updated.released = true;
    state.escrows.insert(escrow_id.clone(), updated);
    let resp = Response::new();
    let resp = resp.add_message(bank_send(client, "uxion", total));
    let resp = resp.add_attribute("method", String::from_str("refund_escrow"));
    let resp = resp.add_attribute("escrow_id", escrow_id);
    let resp = resp.add_attribute("amount", u128_to_string(total));
    proof {
        assert(resp.msgs() =~= seq![bank_view(e0.client@, "uxion"@, total)]);
        assert(resp.attrs() =~= seq![("method"@, "refund_escrow"@), ("escrow_id"@, escrow_id@), ("amount"@, decimal_chars(total as nat))]);
        assert(*state == (ContractState { escrows: state.escrows, ..*old(state) }));
        assert(state.escrows@ =~= old(state).escrows@.insert(escrow_id@, EscrowState { released: true, ..e0 }));
    }
    Ok(resp)
}

/// The id of the dispute raised over `job_id` at `now`.
pub open spec fn dispute_id_for(job_id: u64, now: u64) -> Seq<char> {
    "dispute_"@ + decimal_chars(job_id as nat) + "_"@ + decimal_chars(seconds_of(now))
}

/// Whether `sender` is the job's assigned freelancer.
pub open spec fn is_assigned(f: Option<String>, sender: Seq<char>) -> bool {
    f matches Some(x) && x@ == sender
}

/// Why raising a dispute over `job_id` is refused, if it is.
pub open spec fn raise_dispute_refusal(pre: ContractState, sender: Seq<char>, job_id: u64, reason: Seq<char>) -> Option<ErrorView> {
    let job = pre.jobs@[job_id];
    let eid = job.escrow_id->Some_0@;
    if !pre.jobs@.contains_key(job_id) {
        Some(ErrorView::Std(StdErrorView::NotFound { kind: job_kind() }))
    } else if pre.config.paused {
        Some(ErrorView::ContractPaused)
    } else if sender != job.poster@ && !is_assigned(job.assigned_freelancer, sender) {
        Some(ErrorView::Unauthorized)
    } else if job.status != JobStatus::InProgress && job.status != JobStatus::Completed {
        Some(ErrorView::InvalidInput("Can only dispute active or completed jobs"@))
    } else if job.escrow_id is None {
        Some(ErrorView::EscrowNotFound)
    } else if !pre.escrows@.contains_key(eid) {
        Some(ErrorView::Std(StdErrorView::NotFound { kind: escrow_kind() }))
    } else if pre.escrows@[eid].dispute_status != DisputeStatus::NotRaised {
        Some(ErrorView::InvalidInput("Dispute already exists for this job"@))
    } else if reason.len() == 0 || blen(reason) > 1000 {
        Some(ErrorView::InvalidInput("Dispute reason must be between 1-1000 characters"@))
    } else {
        None
    }
}

/// The state and response after `sender` raised a dispute over `job_id` at `now`.
pub open spec fn dispute_raised(pre: ContractState, post: ContractState, now: u64, sender: String, job_id: u64, reason: String, evidence: Vec<String>, resp: Response) -> bool {
    let job = pre.jobs@[job_id];
    let eid = job.escrow_id->Some_0@;
    let e = pre.escrows@[eid];
    let did = dispute_id_for(job_id, now);
    let d = post.disputes@[did];
    &&& post == (ContractState { disputes: post.disputes, escrows: post.escrows, jobs: post.jobs, ..pre })
    &&& d.id@ == did
    &&& post.disputes@ == pre.disputes@.insert(did, Dispute {
        id: d.id,
        job_id,
        raised_by: sender,
        reason,
        evidence,
        status: DisputeStatus::Raised,
        created_at: now,
        resolved_at: None,
        resolution: None,
    })
    &&& post.escrows@ == pre.escrows@.insert(eid, EscrowState {
        dispute_status: DisputeStatus::Raised,
        dispute_raised_at: Some(now),
        dispute_deadline: Some(crate::chain::days_after(now, pre.config.dispute_period_days) as u64),
        ..e
    })
    &&& post.jobs@ == pre.jobs@.insert(job_id, Job { status: JobStatus::Disputed, updated_at: now, ..job })
    &&& resp.msgs() == Seq::<(bool, Seq<char>, Seq<char>, u128)>::empty()
    &&& resp.attrs() == seq![
        ("method"@, "raise_dispute"@),
        ("job_id"@, decimal_chars(job_id as nat)),
        ("dispute_id"@, did),
        ("raised_by"@, sender@),
    ]
}

/// What `raise_dispute` does: when it refuses and with which error, and the state and response when it succeeds.
pub open spec fn raise_dispute_outcome(
    pre: ContractState,
    post: ContractState,
    env: Env,
    info: MessageInfo,
    job_id: u64,
    reason: String,
    evidence: Vec<String>,
    r: Result<Response, ContractError>,
) -> bool {
    let refusal = raise_dispute_refusal(pre, info.sender@, job_id, reason@);
    &&& r is Err <==> refusal is Some
    &&& r matches Err(e) ==> refusal == Some(e@) && post == pre
    &&& r matches Ok(resp) ==> dispute_raised(pre, post, env.time, info.sender, job_id, reason, evidence, resp)
}

/// Raises a dispute over a job in progress or completed; its party's escrow is held until the admin resolves it.
pub fn raise_dispute(
    state: &mut ContractState,
    env: &Env,
    info: &MessageInfo,
    job_id: u64,
    reason: String,
    evidence: Vec<String>,
) -> (r: Result<Response, ContractError>)
    requires
        old(state).wf(),
        crate::state::tables_have_room(old(state)),
        raise_dispute_refusal(*old(state), info.sender@, job_id, reason@) is None ==> crate::chain::days_after(
            env.time,
            old(state).config.dispute_period_days,
        ) <= u64::MAX,
    ensures
        crate::state::room_used(*old(state), *final(state)),
        raise_dispute_outcome(*old(state), *final(state), *env, *info, job_id, reason, evidence, r),
        final(state).wf(),
{
    let job = match state.jobs.get(&job_id) {
        Some(j) => j,
        None => return Err(not_found("Job")),
    };
    if state.config.paused {
        return Err(ContractError::ContractPaused {  });
    }
    let is_freelancer = match &job.assigned_freelancer {
        Some(f) => crate::text::str_eq(f.as_str(), info.sender.as_str()),
        None => false,
    };
    if !crate::text::str_eq(info.sender.as_str(), job.poster.as_str()) && !is_freelancer {
        return Err(ContractError::Unauthorized {  });
    }
    if job.status != JobStatus::InProgress && job.status != JobStatus::Completed {
        return Err(invalid_input("Can only dispute active or completed jobs"));
    }
    let escrow_id = match &job.escrow_id {
        Some(id) => id.clone(),
        None => return Err(ContractError::EscrowNotFound {  }),
    };
    let escrow = match state.escrows.get(escrow_id.as_str()) {
        Some(e) => e,
        None => return Err(not_found("EscrowState")),
    };
    if escrow.dispute_status != DisputeStatus::NotRaised {
        return Err(invalid_input("Dispute already exists for this job"));
    }
    if reason.as_str().is_empty() || reason.as_str().len() > 1000 {
        return Err(invalid_input("Dispute reason must be between 1-1000 characters"));
    }
    let secs = u64_to_string(seconds(env.time));
    let idnum = u64_to_string(job_id);
    let prefix = concat3("dispute_", idnum.as_str(), "_");
    let dispute_id = concat2(prefix.as_str(), secs.as_str());
    let deadline = crate::chain::plus_days(env.time, state.config.dispute_period_days);
    let dispute = Dispute {
        id: dispute_id.clone(),
        job_id,
        raised_by: info.sender.clone(),
        reason,
        evidence,
        status: DisputeStatus::Raised,
        created_at: env.time,
        resolved_at: None,
        resolution: None,
    };
    state.disputes.insert(dispute_id.clone(), dispute);
    let mut updated_escrow = state.escrows.remove(escrow_id.as_str()).unwrap();
    updated_escrow.dispute_status = DisputeStatus::Raised;
    updated_escrow.dispute_raised_at = Some(env.time);
    updated_escrow.dispute_deadline = Some(deadline);
    state.escrows.insert(escrow_id, updated_escrow);
    let mut updated_job = state.jobs.remove(&job_id).unwrap();
    updated_job.status = JobStatus::Disputed;
    updated_job.updated_at = env.time;
    state.jobs.insert(job_id, updated_job);
    let resp = Response::new();
    let resp = resp.add_attribute("method", String::from_str("raise_dispute"));
    let resp = resp.add_attribute("job_id", u64_to_string(job_id));
    let resp = resp.add_attribute("dispute_id", dispute_id);
    let resp = resp.add_attribute("raised_by", info.sender.clone());
    proof {
        let did = dispute_id_for(job_id, env.time);
        let eid = old(state).jobs@[job_id].escrow_id->Some_0@;
        assert(dispute_id@ =~= did);
        assert(resp.attrs() =~= seq![
            ("method"@, "raise_dispute"@),
            ("job_id"@, decimal_chars(job_id as nat)),
            ("dispute_id"@, did),
            ("raised_by"@, info.sender@),
        ]);
        assert(state.escrows@ =~= old(state).escrows@.insert(eid, state.escrows@[eid]));
        assert(state.jobs@ =~= old(state).jobs@.insert(job_id, state.jobs@[job_id]));
        assert(*state == (ContractState { disputes: state.disputes, escrows: state.escrows, jobs: state.jobs, ..*old(state) }));
    }
    Ok(resp)
}

/// Why resolving dispute `id` is refused, if it is.
pub open spec fn resolve_refusal(pre: ContractState, sender: Seq<char>, id: Seq<char>, resolution: Seq<char>, release: bool) -> Option<ErrorView> {
    let d = pre.disputes@[id];
    let job = pre.jobs@[d.job_id];
    let eid = job.escrow_id->Some_0@;
    let e = pre.escrows@[eid];
    if sender != pre.config.admin@ {
        Some(ErrorView::Unauthorized)
    } else if !pre.disputes@.contains_key(id) {
        Some(ErrorView::Std(StdErrorView::NotFound { kind: dispute_kind() }))
    } else if d.status != DisputeStatus::Raised && d.status != DisputeStatus::UnderReview {
        Some(ErrorView::InvalidInput("Dispute already resolved"@))
    } else if resolution.len() == 0 || blen(resolution) > 2000 {
        Some(ErrorView::InvalidInput("Resolution must be between 1-2000 characters"@))
    } else if !pre.jobs@.contains_key(d.job_id) {
        Some(ErrorView::Std(StdErrorView::NotFound { kind: job_kind() }))
    } else if job.escrow_id is None {
        Some(ErrorView::EscrowNotFound)
    } else if !pre.escrows@.contains_key(eid) {
        Some(ErrorView::Std(StdErrorView::NotFound { kind: escrow_kind() }))
    } else if release && !completion_fits(pre.user_stats@, e.client@, e.freelancer@, e.amount) {
        Some(ErrorView::Std(StdErrorView::Overflow { source: OverflowError { operation: OverflowOperation::Add } }))
    } else {
        None
    }
}

/// The payments of a resolved dispute: the escrow amount to the freelancer or back to the
/// client, and the fee to the admin either way.
pub open spec fn resolution_msgs(e: EscrowState, admin: Seq<char>, release: bool) -> Seq<(bool, Seq<char>, Seq<char>, u128)> {
    if release {
        payout_msgs(e, admin)
    } else {
        seq![bank_view(e.client@, "uxion"@, e.amount), bank_view(admin, "uxion"@, e.platform_fee)]
    }
}

/// The state and response after dispute `id` was resolved at `now`.
pub open spec fn dispute_resolved(pre: ContractState, post: ContractState, now: u64, id: Seq<char>, resolution: String, release: bool, resp: Response) -> bool {
    let d = pre.disputes@[id];
    let job = pre.jobs@[d.job_id];
    let eid = job.escrow_id->Some_0@;
    let e = pre.escrows@[eid];
    &&& post == (ContractState {
        disputes: post.disputes,
        escrows: post.escrows,
        jobs: post.jobs,
        user_stats: post.user_stats,
        ..pre
    })
    &&& post.disputes@ == pre.disputes@.insert(id, Dispute {
        status: DisputeStatus::Resolved,
        resolved_at: Some(now),
        resolution: Some(resolution),
        ..d
    })
    &&& post.escrows@ == pre.escrows@.insert(eid, EscrowState { dispute_status: DisputeStatus::Resolved, released: true, ..e })
    &&& post.jobs@ == pre.jobs@.insert(d.job_id, Job {
        status: if release { JobStatus::Completed } else { JobStatus::Cancelled },
        updated_at: now,
        ..job
    })
    &&& post.user_stats@ == if release {
        stats_after_completion(pre.user_stats@, e.client@, e.freelancer@, e.amount)
    } else {
        pre.user_stats@
    }
    &&& resp.msgs() == resolution_msgs(e, pre.config.admin@, release)
    &&& resp.attrs() == seq![
        ("method"@, "resolve_dispute"@),
        ("dispute_id"@, id),
        ("resolution"@, resolution@),
        ("release_to_freelancer"@, crate::text::bool_chars(release)),
    ]
}

/// What `resolve_dispute` does: when it refuses and with which error, and the state and response when it succeeds.
pub open spec fn resolve_dispute_outcome(
    pre: ContractState,
    post: ContractState,
    env: Env,
    info: MessageInfo,
    dispute_id: String,
    resolution: String,
    release_to_freelancer: bool,
    r: Result<Response, ContractError>,
) -> bool {
    let refusal = resolve_refusal(pre, info.sender@, dispute_id@, resolution@, release_to_freelancer);
    &&& r is Err <==> refusal is Some
    &&& r matches Err(e) ==> refusal == Some(e@) && post == pre
    &&& r matches Ok(resp) ==> dispute_resolved(pre, post, env.time, dispute_id@, resolution, release_to_freelancer, resp)
}

/// Settles a dispute: the admin sends the escrow to the freelancer (the job is completed) or
/// back to the client (the job is cancelled); the fee goes to the admin either way.
pub fn resolve_dispute(
    state: &mut ContractState,
    env: &Env,
    info: &MessageInfo,
    dispute_id: String,
    resolution: String,
    release_to_freelancer: bool,
) -> (r: Result<Response, ContractError>)
    requires
        old(state).wf(),
        crate::state::tables_have_room(old(state)),
    ensures
        crate::state::room_used(*old(state), *final(state)),
        resolve_dispute_outcome(*old(state), *final(state), *env, *info, dispute_id, resolution, release_to_freelancer, r),
        final(state).wf(),
{
    if !crate::text::str_eq(info.sender.as_str(), state.config.admin.as_str()) {
        return Err(ContractError::Unauthorized {  });
    }
    let dispute = match state.disputes.get(dispute_id.as_str()) {
        Some(d) => d,
        None => return Err(not_found("Dispute")),
    };
    if dispute.status != DisputeStatus::Raised && dispute.status != DisputeStatus::UnderReview {
        return Err(invalid_input("Dispute already resolved"));
    }
    if resolution.as_str().is_empty() || resolution.as_str().len() > 2000 {
        return Err(invalid_input("Resolution must be between 1-2000 characters"));
    }
    let job_id = dispute.job_id;
    let job = match state.jobs.get(&job_id) {
        Some(j) => j,
        None => return Err(not_found("Job")),
    };
    let escrow_id = match &job.escrow_id {
        Some(id) => id.clone(),
        None => return Err(ContractError::EscrowNotFound {  }),
    };
    let escrow = match state.escrows.get(escrow_id.as_str()) {
        Some(e) => e,
        None => return Err(not_found("EscrowState")),
    };
    let ghost e0 = *escrow;
    let client = escrow.client.clone();
    let freelancer = escrow.freelancer.clone();
    let amount = escrow.amount;
    let fee = escrow.platform_fee;
    if release_to_freelancer {
        match update_user_stats_on_completion(state, client.as_str(), freelancer.as_str(), amount) {
            Ok(()) => {},
            Err(e) => return Err(e),
        }
    }
    let ghost mid = *state;
    let mut updated_dispute = state.disputes.remove(dispute_id.as_str()).unwrap();
    updated_dispute.status = DisputeStatus::Resolved;
    updated_dispute.resolved_at = Some(env.time);
    updated_dispute.resolution = Some(resolution.clone());
    state.disputes.insert(dispute_id.clone(), updated_dispute);
    let mut updated_escrow = state.escrows.remove(escrow_id.as_str()).unwrap();
    updated_escrow.dispute_status = DisputeStatus::Resolved;
    updated_escrow.released = true;
    state.escrows.insert(escrow_id, updated_escrow);
    let mut updated_job = state.jobs.remove(&job_id).unwrap();
    updated_job.status = if release_to_freelancer {
        JobStatus::Completed
    } else {
        JobStatus::Cancelled
    };
    updated_job.updated_at = env.time;
    state.jobs.insert(job_id, updated_job);
    let resp = Response::new();
    let resp = resp.add_attribute("method", String::from_str("resolve_dispute"));
    let resp = resp.add_attribute("dispute_id", dispute_id.clone());
    let resp = resp.add_attribute("resolution", resolution);
    let resp = resp.add_attribute("release_to_freelancer", crate::text::bool_to_string(release_to_freelancer));
    let resp = if release_to_freelancer {
        let resp = resp.add_message(bank_send(freelancer, "uxion", amount));
        resp.add_message(bank_send(state.config.admin.clone(), "uxion", fee))
    } else {
        let resp = resp.add_message(bank_send(client, "uxion", amount));
        resp.add_message(bank_send(state.config.admin.clone(), "uxion", fee))
    };
    proof {
        let d0 = old(state).disputes@[dispute_id@];
        let eid = old(state).jobs@[job_id].escrow_id->Some_0@;
        assert(resp.msgs() =~= resolution_msgs(e0, old(state).config.admin@, release_to_freelancer));
        assert(resp.attrs() =~= seq![
            ("method"@, "resolve_dispute"@),
            ("dispute_id"@, dispute_id@),
            ("resolution"@, resolution@),
            ("release_to_freelancer"@, crate::text::bool_chars(release_to_freelancer)),
        ]);
        assert(state.disputes@ =~= old(state).disputes@.insert(dispute_id@, state.disputes@[dispute_id@]));
        assert(state.escrows@ =~= old(state).escrows@.insert(eid, state.escrows@[eid]));
        assert(state.jobs@ =~= old(state).jobs@.insert(job_id, state.jobs@[job_id]));
        assert(*state == (ContractState {
            disputes: state.disputes,
            escrows: state.escrows,
            jobs: state.jobs,
            user_stats: state.user_stats,
            ..*old(state)
        }));
    }
    Ok(resp)
}

} // verus!
