use xworks_freelance_contract::admin::instantiate;
use xworks_freelance_contract::chain::{Coin, CosmosMsg, Env, MessageInfo, Response};
use xworks_freelance_contract::contract::{execute, query, QueryAnswer};
use xworks_freelance_contract::error::{ContractError, StdError};
use xworks_freelance_contract::msg::{ExecuteMsg, InstantiateMsg, QueryMsg};
use xworks_freelance_contract::state::{ContractState, JobStatus};

const NANOS: u64 = 1_000_000_000;
const START: u64 = 1_571_797_419;

fn env_at(seconds: u64) -> Env {
    Env { time: seconds * NANOS, height: 12_345 }
}

fn sender(who: &str) -> MessageInfo {
    MessageInfo { sender: who.to_string(), funds: vec![] }
}

fn paying(who: &str, amount: u128) -> MessageInfo {
    MessageInfo { sender: who.to_string(), funds: vec![Coin { denom: "uxion".to_string(), amount }] }
}

fn setup() -> ContractState {
    let msg = InstantiateMsg {
        admin: Some("admin".to_string()),
        platform_fee_percent: Some(5),
        min_escrow_amount: Some(1000),
        dispute_period_days: Some(7),
        max_job_duration_days: Some(365),
    };
    instantiate(&env_at(START), &sender("admin"), msg, "0.1.0").unwrap().0
}

fn run(state: &mut ContractState, env: &Env, info: &MessageInfo, msg: ExecuteMsg) -> Result<Response, ContractError> {
    let hook = Err(StdError::ParseErr { target_type: "EscrowHookMsg".to_string(), msg: "EOF".to_string() });
    execute(state, env, info, msg, "{\"title\":\"t\"}", "", hook)
}

fn post_job(state: &mut ContractState, client: &str, budget: u128) -> Result<Response, ContractError> {
    let msg = ExecuteMsg::PostJob {
        title: "Test Job".to_string(),
        description: "A test job description".to_string(),
        budget,
        category: "Development".to_string(),
        skills_required: vec!["Rust".to_string()],
        duration_days: 30,
        documents: None,
        milestones: None,
    };
    run(state, &env_at(START), &sender(client), msg)
}

fn propose(state: &mut ContractState, freelancer: &str, job_id: u64) -> Result<Response, ContractError> {
    let msg = ExecuteMsg::SubmitProposal {
        job_id,
        cover_letter: "I am the best freelancer for this job".to_string(),
        delivery_time_days: 25,
        milestones: None,
    };
    run(state, &env_at(START), &sender(freelancer), msg)
}

/// A job in progress with an escrow funded by `payment`; returns the escrow id.
fn funded_job(state: &mut ContractState, payment: u128) -> String {
    post_job(state, "client", payment).unwrap();
    propose(state, "freelancer", 0).unwrap();
    run(state, &env_at(START), &sender("client"), ExecuteMsg::AcceptProposal { job_id: 0, proposal_id: 0 }).unwrap();
    run(state, &env_at(START), &paying("client", payment), ExecuteMsg::CreateEscrowNative { job_id: 0, amount: payment }).unwrap();
    state.jobs.get(&0).unwrap().escrow_id.clone().unwrap()
}

fn bank(msg: &CosmosMsg) -> (String, u128) {
    match msg {
        CosmosMsg::BankSend { to_address, amount, .. } => (to_address.clone(), *amount),
        CosmosMsg::Cw20Transfer { recipient, amount, .. } => (recipient.clone(), *amount),
    }
}

#[test]
fn refused_message_changes_nothing() {
    let mut state = setup();
    let before_jobs = state.jobs.len();
    let err = run(&mut state, &env_at(START), &sender("nobody"), ExecuteMsg::DeleteJob { job_id: 7 });
    assert_eq!(err, Err(ContractError::JobNotFound {}));
    assert_eq!(state.jobs.len(), before_jobs);
    assert_eq!(state.next_job_id, 0);
}

#[test]
fn escrow_splits_payment_into_amount_and_fee() {
    let mut state = setup();
    let id = funded_job(&mut state, 10_000);
    let e = state.escrows.get(&id).unwrap();
    assert_eq!(e.platform_fee, 500);
    assert_eq!(e.amount, 9_500);
    assert_eq!(e.amount + e.platform_fee, 10_000);
}

#[test]
fn refund_returns_whole_payment_to_client() {
    let mut state = setup();
    let id = funded_job(&mut state, 10_001);
    let resp = run(&mut state, &env_at(START), &sender("admin"), ExecuteMsg::RefundEscrow { escrow_id: id.clone() }).unwrap();
    assert_eq!(resp.messages.len(), 1);
    assert_eq!(bank(&resp.messages[0]), ("client".to_string(), 10_001));
}

#[test]
fn release_pays_freelancer_and_fee() {
    let mut state = setup();
    let id = funded_job(&mut state, 10_001);
    let resp = run(&mut state, &env_at(START), &sender("client"), ExecuteMsg::ReleaseEscrow { escrow_id: id.clone() }).unwrap();
    assert_eq!(bank(&resp.messages[0]), ("freelancer".to_string(), 9_501));
    assert_eq!(bank(&resp.messages[1]), ("admin".to_string(), 500));
}

#[test]
fn released_escrow_is_final() {
    let mut state = setup();
    let id = funded_job(&mut state, 10_000);
    run(&mut state, &env_at(START), &sender("client"), ExecuteMsg::ReleaseEscrow { escrow_id: id.clone() }).unwrap();
    let again = run(&mut state, &env_at(START), &sender("client"), ExecuteMsg::ReleaseEscrow { escrow_id: id.clone() });
    assert_eq!(again, Err(ContractError::InvalidInput { error: "Escrow already released".to_string() }));
    let refund = run(&mut state, &env_at(START), &sender("admin"), ExecuteMsg::RefundEscrow { escrow_id: id });
    assert!(refund.is_err());
}

#[test]
fn no_release_while_disputed() {
    let mut state = setup();
    let id = funded_job(&mut state, 10_000);
    let dispute = ExecuteMsg::RaiseDispute {
        job_id: 0,
        reason: "Work not satisfactory".to_string(),
        evidence: vec!["evidence.pdf".to_string()],
    };
    run(&mut state, &env_at(START), &sender("client"), dispute).unwrap();
    let release = run(&mut state, &env_at(START), &sender("client"), ExecuteMsg::ReleaseEscrow { escrow_id: id });
    assert_eq!(release, Err(ContractError::DisputePeriodActive {}));
}

#[test]
fn only_admin_refunds() {
    let mut state = setup();
    let id = funded_job(&mut state, 10_000);
    let refund = run(&mut state, &env_at(START), &sender("client"), ExecuteMsg::RefundEscrow { escrow_id: id });
    assert_eq!(refund, Err(ContractError::Unauthorized {}));
}

#[test]
fn fee_is_capped_at_ten_percent() {
    let mut state = setup();
    let msg = ExecuteMsg::UpdateConfig {
        admin: None,
        platform_fee_percent: Some(11),
        min_escrow_amount: None,
        dispute_period_days: None,
        max_job_duration_days: None,
    };
    assert_eq!(run(&mut state, &env_at(START), &sender("admin"), msg), Err(ContractError::PlatformFeeTooHigh { max: 10 }));
    assert_eq!(state.config.platform_fee_percent, 5);
}

#[test]
fn paused_contract_refuses_users() {
    let mut state = setup();
    run(&mut state, &env_at(START), &sender("admin"), ExecuteMsg::PauseContract {}).unwrap();
    assert_eq!(post_job(&mut state, "client", 5000), Err(ContractError::ContractPaused {}));
    run(&mut state, &env_at(START), &sender("admin"), ExecuteMsg::UnpauseContract {}).unwrap();
    assert!(post_job(&mut state, "client", 5000).is_ok());
}

#[test]
fn daily_job_limit_is_five() {
    let mut state = setup();
    for _ in 0..5 {
        post_job(&mut state, "client", 5000).unwrap();
    }
    assert_eq!(
        post_job(&mut state, "client", 5000),
        Err(ContractError::RateLimitExceeded { action: "posting jobs".to_string(), limit: 5 })
    );
    let next_day = ExecuteMsg::PostJob {
        title: "Test Job".to_string(),
        description: "A test job description".to_string(),
        budget: 5000,
        category: "Development".to_string(),
        skills_required: vec!["Rust".to_string()],
        duration_days: 30,
        documents: None,
        milestones: None,
    };
    assert!(run(&mut state, &env_at(START + 86_400), &sender("client"), next_day).is_ok());
}

#[test]
fn posted_job_reads_back() {
    let mut state = setup();
    post_job(&mut state, "client", 5000).unwrap();
    match query(&state, QueryMsg::GetJob { job_id: 0 }) {
        Ok(QueryAnswer::Job(r)) => {
            assert_eq!(r.job.id, 0);
            assert_eq!(r.job.poster, "client");
            assert_eq!(r.job.budget, 5000);
            assert_eq!(r.job.status, JobStatus::Open);
            assert!(r.job.assigned_freelancer.is_none());
        },
        _ => panic!("job not found"),
    }
}

#[test]
fn accept_assigns_the_freelancer() {
    let mut state = setup();
    post_job(&mut state, "client", 5000).unwrap();
    propose(&mut state, "freelancer", 0).unwrap();
    let stranger = run(&mut state, &env_at(START), &sender("freelancer"), ExecuteMsg::AcceptProposal { job_id: 0, proposal_id: 0 });
    assert_eq!(stranger, Err(ContractError::Unauthorized {}));
    run(&mut state, &env_at(START), &sender("client"), ExecuteMsg::AcceptProposal { job_id: 0, proposal_id: 0 }).unwrap();
    let job = state.jobs.get(&0).unwrap();
    assert_eq!(job.status, JobStatus::InProgress);
    assert_eq!(job.assigned_freelancer, Some("freelancer".to_string()));
}

#[test]
fn ratings_are_once_and_in_range() {
    let mut state = setup();
    post_job(&mut state, "client", 5000).unwrap();
    propose(&mut state, "freelancer", 0).unwrap();
    run(&mut state, &env_at(START), &sender("client"), ExecuteMsg::AcceptProposal { job_id: 0, proposal_id: 0 }).unwrap();
    run(&mut state, &env_at(START), &sender("freelancer"), ExecuteMsg::CompleteJob { job_id: 0 }).unwrap();
    let bad = ExecuteMsg::SubmitRating { job_id: 0, rating: 6, comment: "great".to_string() };
    assert!(run(&mut state, &env_at(START), &sender("client"), bad).is_err());
    let good = ExecuteMsg::SubmitRating { job_id: 0, rating: 5, comment: "great".to_string() };
    run(&mut state, &env_at(START), &sender("client"), good.clone()).unwrap();
    assert_eq!(
        run(&mut state, &env_at(START), &sender("client"), good),
        Err(ContractError::InvalidInput { error: "Rating already submitted for this job".to_string() })
    );
}

#[test]
fn block_and_unblock_read_back() {
    let mut state = setup();
    let block = ExecuteMsg::BlockAddress { address: "spammer".to_string(), reason: "Spam".to_string() };
    run(&mut state, &env_at(START), &sender("admin"), block).unwrap();
    match query(&state, QueryMsg::IsAddressBlocked { address: "spammer".to_string() }) {
        Ok(QueryAnswer::AddressBlocked(r)) => assert!(r.is_blocked),
        _ => panic!("unexpected answer"),
    }
    run(&mut state, &env_at(START), &sender("admin"), ExecuteMsg::UnblockAddress { address: "spammer".to_string() }).unwrap();
    match query(&state, QueryMsg::IsAddressBlocked { address: "spammer".to_string() }) {
        Ok(QueryAnswer::AddressBlocked(r)) => assert!(!r.is_blocked),
        _ => panic!("unexpected answer"),
    }
}

#[test]
fn deprecated_operations_are_refused() {
    let mut state = setup();
    let fund = run(&mut state, &env_at(START), &sender("client"), ExecuteMsg::FundEscrow { escrow_id: "x".to_string() });
    assert_eq!(
        fund,
        Err(ContractError::InvalidInput {
            error: "FundEscrow is deprecated. Use CreateEscrowNative or CreateEscrowCw20 instead".to_string()
        })
    );
    let cw20 = ExecuteMsg::CreateEscrowCw20 { job_id: 0, token_address: "token".to_string(), amount: 5000 };
    assert!(matches!(run(&mut state, &env_at(START), &sender("token"), cw20), Err(ContractError::Std(StdError::ParseErr { .. }))));
    let legacy = run(&mut state, &env_at(START), &sender("client"), ExecuteMsg::CreateEscrow { job_id: 3 });
    assert_eq!(legacy, Err(ContractError::Std(StdError::NotFound { kind: "Job".to_string() })));
}

#[test]
fn proposing_on_own_job_is_refused() {
    let mut state = setup();
    post_job(&mut state, "client", 5000).unwrap();
    let own = propose(&mut state, "client", 0);
    assert!(matches!(own, Err(ContractError::Unauthorized {})));
    assert_eq!(state.jobs.get(&0).unwrap().total_proposals, 0);
    assert_eq!(state.next_proposal_id, 0);
}

fn bounty_msg(total_reward: u128, percentages: &[u64]) -> ExecuteMsg {
    ExecuteMsg::CreateBounty {
        title: "Bounty".to_string(),
        description: "A bounty to solve".to_string(),
        requirements: vec!["Do it".to_string()],
        total_reward,
        category: "Development".to_string(),
        skills_required: vec!["Rust".to_string()],
        submission_deadline_days: 30,
        review_period_days: 7,
        max_winners: percentages.len() as u64,
        reward_distribution: percentages
            .iter()
            .enumerate()
            .map(|(i, p)| xworks_freelance_contract::msg::RewardTierInput { position: i as u64 + 1, percentage: *p })
            .collect(),
        documents: None,
    }
}

#[test]
fn bounty_tiers_stay_within_the_reward() {
    let mut state = setup();
    let over = run(&mut state, &env_at(START), &paying("poster", 10_001), bounty_msg(10_001, &[80, 80]));
    assert_eq!(over, Err(ContractError::InvalidInput { error: "Reward percentages must not total more than 100".to_string() }));
    run(&mut state, &env_at(START), &paying("poster", 10_001), bounty_msg(10_001, &[50, 30, 20])).unwrap();
    let tiers = &state.bounties.get(&0).unwrap().reward_distribution;
    let amounts: Vec<u128> = tiers.iter().map(|t| t.amount).collect();
    assert_eq!(amounts, vec![5_000, 3_000, 2_000]);
    assert!(amounts.iter().sum::<u128>() <= 10_001);
}

#[test]
fn blocked_sender_is_refused() {
    let mut state = setup();
    let block = ExecuteMsg::BlockAddress { address: "client".to_string(), reason: "Spam".to_string() };
    run(&mut state, &env_at(START), &sender("admin"), block).unwrap();
    assert_eq!(post_job(&mut state, "client", 5000), Err(ContractError::AccessDenied {}));
    assert_eq!(state.next_job_id, 0);
    let self_block = ExecuteMsg::BlockAddress { address: "admin".to_string(), reason: "Test".to_string() };
    run(&mut state, &env_at(START), &sender("admin"), self_block).unwrap();
    assert!(run(&mut state, &env_at(START), &sender("admin"), ExecuteMsg::PauseContract {}).is_ok());
}

#[test]
fn completion_releases_the_escrow_once() {
    let mut state = setup();
    let id = funded_job(&mut state, 10_000);
    let resp = run(&mut state, &env_at(START), &sender("freelancer"), ExecuteMsg::CompleteJob { job_id: 0 }).unwrap();
    assert_eq!(resp.messages.len(), 2);
    assert_eq!(bank(&resp.messages[0]), ("freelancer".to_string(), 9_500));
    assert_eq!(bank(&resp.messages[1]), ("admin".to_string(), 500));
    assert!(state.escrows.get(&id).unwrap().released);
    let again = run(&mut state, &env_at(START), &sender("client"), ExecuteMsg::ReleaseEscrow { escrow_id: id });
    assert!(again.is_err());
}

#[test]
fn cancelled_bounty_refunds_its_reward() {
    let mut state = setup();
    run(&mut state, &env_at(START), &paying("poster", 4_000), bounty_msg(4_000, &[100])).unwrap();
    let stranger = run(&mut state, &env_at(START), &sender("stranger"), ExecuteMsg::CancelBounty { bounty_id: 0 });
    assert!(stranger.is_err());
    let resp = run(&mut state, &env_at(START), &sender("poster"), ExecuteMsg::CancelBounty { bounty_id: 0 }).unwrap();
    assert_eq!(resp.messages, vec![CosmosMsg::BankSend { to_address: "poster".to_string(), denom: "uusdc".to_string(), amount: 4_000 }]);
    assert_eq!(state.bounties.get(&0).unwrap().status, xworks_freelance_contract::state::BountyStatus::Cancelled);
}

#[test]
fn deleting_an_unfunded_job_pays_nothing() {
    let mut state = setup();
    post_job(&mut state, "client", 1_000_000).unwrap();
    let resp = run(&mut state, &env_at(START), &sender("client"), ExecuteMsg::DeleteJob { job_id: 0 }).unwrap();
    assert!(resp.messages.is_empty());
    assert!(state.jobs.get(&0).is_none());
}

#[test]
fn management_block_records_the_address() {
    let mut state = setup();
    let env = env_at(START);
    let resp = xworks_freelance_contract::admin_management::execute_block_address(
        &mut state,
        &env,
        &sender("admin"),
        "mallory".to_string(),
        "Spam activity".to_string(),
    );
    assert!(resp.is_ok());
    assert!(state.blocked_addresses.contains_key("mallory"));
    let refused = run(&mut state, &env, &sender("mallory"), ExecuteMsg::PauseContract {});
    assert_eq!(refused, Err(ContractError::AccessDenied {}));
}
