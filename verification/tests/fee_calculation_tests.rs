#![allow(dead_code)]
use serde_json::Value;
use xworks_freelance_contract::admin::instantiate;
use xworks_freelance_contract::chain::{Coin, CosmosMsg, Env, MessageInfo, Response};
use xworks_freelance_contract::contract::{execute, query, QueryAnswer};
use xworks_freelance_contract::error::{ContractError, StdError};
use xworks_freelance_contract::hash_utils::{create_job_content_bundle, FieldValue, OffChainBundle};
use xworks_freelance_contract::msg::{ExecuteMsg, InstantiateMsg, QueryMsg};
use xworks_freelance_contract::state::ContractState;

/// The block time of the standard test environment, in nanoseconds.
const MOCK_TIME: u64 = 1_571_797_419_879_305_533;

fn mock_env() -> Env {
    Env { time: MOCK_TIME, height: 12_345 }
}

fn env_plus_seconds(env: &Env, seconds: u64) -> Env {
    Env { time: env.time + seconds * 1_000_000_000, height: env.height + 1 }
}

fn coins(amount: u128, denom: &str) -> Vec<Coin> {
    vec![Coin { denom: denom.to_string(), amount }]
}

fn mock_info(sender: &str, funds: &[Coin]) -> MessageInfo {
    MessageInfo { sender: sender.to_string(), funds: funds.to_vec() }
}

fn instantiate_msg(admin: &str) -> InstantiateMsg {
    InstantiateMsg {
        admin: Some(admin.to_string()),
        platform_fee_percent: Some(5),
        min_escrow_amount: Some(1000),
        dispute_period_days: Some(7),
        max_job_duration_days: Some(365),
    }
}

fn instantiate_state(env: &Env, info: &MessageInfo, msg: InstantiateMsg) -> Result<(ContractState, Response), ContractError> {
    instantiate(env, info, msg, "0.1.0")
}

/// The bundle as JSON text, in the field order the contract publishes it.
fn bundle_json(bundle: &OffChainBundle) -> String {
    let mut data = serde_json::Map::new();
    for (name, value) in &bundle.data.fields {
        let v = match value {
            FieldValue::Text(t) => Value::String(t.clone()),
            FieldValue::TextList(l) => Value::Array(l.iter().map(|s| Value::String(s.clone())).collect()),
            FieldValue::Milestones(m) => Value::Array(m.iter().map(|p| Value::String(p.title.clone())).collect()),
        };
        data.insert(name.clone(), v);
    }
    let mut top = serde_json::Map::new();
    top.insert("id".to_string(), Value::String(bundle.id.clone()));
    top.insert("content_type".to_string(), Value::String(bundle.content_type.clone()));
    top.insert("data".to_string(), Value::Object(data));
    top.insert("entity_type".to_string(), Value::String(bundle.metadata.entity_type.clone()));
    top.insert("created_at".to_string(), Value::from(bundle.metadata.created_at));
    serde_json::to_string(&Value::Object(top)).unwrap()
}

/// The content text that accompanies `msg`: the job bundle for a posting, an empty object otherwise.
fn content_for(state: &ContractState, env: &Env, msg: &ExecuteMsg) -> String {
    match msg {
        ExecuteMsg::PostJob { title, description, category, skills_required, documents, .. } => {
            let docs = documents.clone().unwrap_or_default();
            let bundle = create_job_content_bundle(
                state.next_job_id,
                title,
                description,
                None,
                None,
                category,
                skills_required,
                &docs,
                env.time / 1_000_000_000,
            )
            .unwrap();
            bundle_json(&bundle)
        }
        _ => "{}".to_string(),
    }
}

fn execute_msg(state: &mut ContractState, env: Env, info: MessageInfo, msg: ExecuteMsg) -> Result<Response, ContractError> {
    let content = content_for(state, &env, &msg);
    let hook = Err(StdError::ParseErr { target_type: "EscrowHookMsg".to_string(), msg: "EOF".to_string() });
    execute(state, &env, &info, msg, &content, "", hook)
}

fn query_msg(state: &ContractState, msg: QueryMsg) -> Result<QueryAnswer, StdError> {
    query(state, msg)
}

fn bank_payment(msg: &CosmosMsg) -> (String, u128) {
    match msg {
        CosmosMsg::BankSend { to_address, amount, .. } => (to_address.clone(), *amount),
        CosmosMsg::Cw20Transfer { recipient, amount, .. } => (recipient.clone(), *amount),
    }
}
use xworks_freelance_contract::msg::{MilestoneInput, RewardTierInput};
use xworks_freelance_contract::state::EscrowState;

const ADMIN: &str = "admin";
const CLIENT: &str = "client";
const FREELANCER: &str = "freelancer";

fn setup_contract(platform_fee: u64) -> (ContractState, Env, MessageInfo) {
    let env = mock_env();
    let info = mock_info(ADMIN, &[]);
    let msg = InstantiateMsg {
        admin: Some(ADMIN.to_string()),
        platform_fee_percent: Some(platform_fee),
        min_escrow_amount: Some(1000),
        dispute_period_days: Some(7),
        max_job_duration_days: Some(365),
    };
    let (state, _) = instantiate_state(&env, &info, msg).unwrap();
    (state, env, info)
}

fn create_job_and_proposal(state: &mut ContractState, env: &Env, budget: u128) -> Result<(), ContractError> {
    let client_info = mock_info(CLIENT, &coins(budget, "uxion"));
    let freelancer_info = mock_info(FREELANCER, &[]);

    let job_msg = ExecuteMsg::PostJob {
        title: "Fee Test Job".to_string(),
        description: "Testing fee calculations".to_string(),
        budget,
        category: "Testing".to_string(),
        skills_required: vec!["Math".to_string()],
        duration_days: 30,
        documents: None,
        milestones: None,
    };
    execute_msg(state, *env, client_info, job_msg)?;

    let proposal_msg = ExecuteMsg::SubmitProposal {
        job_id: 0,
        cover_letter: "Fee test proposal".to_string(),
        delivery_time_days: 25,
        milestones: None,
    };
    execute_msg(state, *env, freelancer_info, proposal_msg)?;

    let client_info = mock_info(CLIENT, &coins(budget, "uxion"));
    execute_msg(state, *env, client_info, ExecuteMsg::AcceptProposal { job_id: 0, proposal_id: 0 })?;
    Ok(())
}

/// The escrow of a job, found through the id the job records.
fn job_escrow(state: &ContractState, job_id: u64) -> EscrowState {
    let job = state.jobs.get(&job_id).unwrap();
    let escrow_id = job.escrow_id.clone().unwrap();
    state.escrows.get(&escrow_id).unwrap().clone()
}

fn fund(state: &mut ContractState, env: Env, job_id: u64, amount: u128) {
    let client_info = mock_info(CLIENT, &coins(amount, "uxion"));
    execute_msg(state, env, client_info, ExecuteMsg::CreateEscrowNative { job_id, amount }).unwrap();
}

#[test]
fn test_basic_platform_fee_calculation() {
    let (mut state, env, _) = setup_contract(5);
    let budget = 10000;
    create_job_and_proposal(&mut state, &env, budget).unwrap();
    fund(&mut state, env, 0, budget);

    let escrow = job_escrow(&state, 0);
    assert_eq!(escrow.platform_fee, 500);
    assert_eq!(escrow.amount, 9500);
}

#[test]
fn fee_calculation_tests_test_zero_platform_fee() {
    let (mut state, env, _) = setup_contract(0);
    let budget = 5000;
    create_job_and_proposal(&mut state, &env, budget).unwrap();
    fund(&mut state, env, 0, budget);

    let escrow = job_escrow(&state, 0);
    assert_eq!(escrow.platform_fee, 0);
    assert_eq!(escrow.amount, budget);
}

#[test]
fn fee_calculation_tests_test_maximum_platform_fee() {
    let (mut state, env, _) = setup_contract(10);
    let budget = 20000;
    create_job_and_proposal(&mut state, &env, budget).unwrap();
    fund(&mut state, env, 0, budget);

    let escrow = job_escrow(&state, 0);
    assert_eq!(escrow.platform_fee, 2000);
    assert_eq!(escrow.amount, 18000);
}

#[test]
fn test_platform_fee_exceeds_maximum() {
    let msg = InstantiateMsg {
        admin: Some(ADMIN.to_string()),
        platform_fee_percent: Some(15),
        min_escrow_amount: Some(1000),
        dispute_period_days: Some(7),
        max_job_duration_days: Some(365),
    };
    let result = instantiate_state(&mock_env(), &mock_info(ADMIN, &[]), msg);
    assert!(matches!(result, Err(ContractError::PlatformFeeTooHigh { max: 10 })));
}

#[test]
fn test_fee_calculation_with_small_amounts() {
    let (mut state, env, _) = setup_contract(5);
    let budget = 1000;
    create_job_and_proposal(&mut state, &env, budget).unwrap();
    fund(&mut state, env, 0, budget);

    let escrow = job_escrow(&state, 0);
    assert_eq!(escrow.platform_fee, 50);
    assert_eq!(escrow.amount, 950);
}

#[test]
fn test_fee_calculation_with_large_amounts() {
    let (mut state, env, _) = setup_contract(5);
    let budget = 1_000_000_000;
    create_job_and_proposal(&mut state, &env, budget).unwrap();
    fund(&mut state, env, 0, budget);

    let escrow = job_escrow(&state, 0);
    assert_eq!(escrow.platform_fee, 50_000_000);
    assert_eq!(escrow.amount, 950_000_000);
}

#[test]
fn test_fee_calculation_precision() {
    let (mut state, env, _) = setup_contract(3);
    let budget = 10001;
    create_job_and_proposal(&mut state, &env, budget).unwrap();
    fund(&mut state, env, 0, budget);

    let escrow = job_escrow(&state, 0);
    assert_eq!(escrow.platform_fee, 300);
    assert_eq!(escrow.amount, 9701);
    assert_eq!(escrow.platform_fee + escrow.amount, budget);
}

#[test]
fn test_fee_calculation_edge_cases() {
    let (mut state, env, _) = setup_contract(1);

    let budget = 10000;
    create_job_and_proposal(&mut state, &env, budget).unwrap();
    let client_info = mock_info(CLIENT, &coins(budget, "uxion"));
    execute_msg(&mut state, env, client_info.clone(), ExecuteMsg::CreateEscrowNative { job_id: 0, amount: budget }).unwrap();

    let escrow = job_escrow(&state, 0);
    assert_eq!(escrow.platform_fee, 100);
    assert_eq!(escrow.amount, 9900);

    let budget2 = 1001;
    let job_msg = ExecuteMsg::PostJob {
        title: "Edge Case Job".to_string(),
        description: "Testing edge cases".to_string(),
        budget: budget2,
        category: "Testing".to_string(),
        skills_required: vec!["Math".to_string()],
        duration_days: 30,
        documents: None,
        milestones: None,
    };
    execute_msg(&mut state, env, client_info.clone(), job_msg).unwrap();

    let proposal_msg = ExecuteMsg::SubmitProposal {
        job_id: 1,
        cover_letter: "Edge case proposal".to_string(),
        delivery_time_days: 25,
        milestones: None,
    };
    execute_msg(&mut state, env, mock_info(FREELANCER, &[]), proposal_msg).unwrap();

    execute_msg(&mut state, env, client_info, ExecuteMsg::AcceptProposal { job_id: 1, proposal_id: 1 }).unwrap();

    let client_info2 = mock_info(CLIENT, &coins(budget2, "uxion"));
    execute_msg(&mut state, env, client_info2, ExecuteMsg::CreateEscrowNative { job_id: 1, amount: budget2 }).unwrap();

    let escrow2 = job_escrow(&state, 1);
    assert_eq!(escrow2.platform_fee, 10);
    assert_eq!(escrow2.amount, 991);
    assert_eq!(escrow2.platform_fee + escrow2.amount, budget2);
}

#[test]
fn test_bounty_reward_distribution_calculation() {
    let (mut state, env, _) = setup_contract(5);
    let client_info = mock_info(CLIENT, &coins(10000, "uxion"));

    let reward_tiers = vec![
        RewardTierInput { position: 1, percentage: 50 },
        RewardTierInput { position: 2, percentage: 30 },
        RewardTierInput { position: 3, percentage: 20 },
    ];

    let bounty_msg = ExecuteMsg::CreateBounty {
        title: "Reward Distribution Test".to_string(),
        description: "Testing reward distribution calculations".to_string(),
        requirements: vec!["Complete the task".to_string()],
        total_reward: 10000,
        category: "Testing".to_string(),
        skills_required: vec!["Math".to_string()],
        submission_deadline_days: 30,
        review_period_days: 7,
        max_winners: 3,
        reward_distribution: reward_tiers,
        documents: None,
    };

    let result = execute_msg(&mut state, env, client_info, bounty_msg);
    assert!(result.is_ok());
}

#[test]
fn test_milestone_fee_calculation() {
    let (mut state, env, _) = setup_contract(5);
    let client_info = mock_info(CLIENT, &coins(6000, "uxion"));

    let milestones = vec![
        MilestoneInput {
            title: "Milestone 1".to_string(),
            description: "First milestone".to_string(),
            amount: 3000,
            deadline_days: 15,
        },
        MilestoneInput {
            title: "Milestone 2".to_string(),
            description: "Second milestone".to_string(),
            amount: 3000,
            deadline_days: 30,
        },
    ];

    let job_msg = ExecuteMsg::PostJob {
        title: "Milestone Fee Test".to_string(),
        description: "Testing milestone fee calculations".to_string(),
        budget: 6000,
        category: "Development".to_string(),
        skills_required: vec!["Development".to_string()],
        duration_days: 30,
        documents: None,
        milestones: Some(milestones),
    };
    execute_msg(&mut state, env, client_info.clone(), job_msg).unwrap();

    let proposal_msg = ExecuteMsg::SubmitProposal {
        job_id: 0,
        cover_letter: "Milestone proposal".to_string(),
        delivery_time_days: 25,
        milestones: None,
    };
    execute_msg(&mut state, env, mock_info(FREELANCER, &[]), proposal_msg).unwrap();

    execute_msg(&mut state, env, client_info.clone(), ExecuteMsg::AcceptProposal { job_id: 0, proposal_id: 0 }).unwrap();

    execute_msg(&mut state, env, client_info, ExecuteMsg::CreateEscrowNative { job_id: 0, amount: 6000 }).unwrap();

    let escrow = job_escrow(&state, 0);
    assert_eq!(escrow.platform_fee, 300);
    assert_eq!(escrow.amount, 5700);
}

#[test]
fn test_fee_update_doesnt_affect_existing_escrows() {
    let (mut state, env, _) = setup_contract(5);
    let budget = 4000;
    create_job_and_proposal(&mut state, &env, budget).unwrap();
    fund(&mut state, env, 0, budget);

    let escrow_before = job_escrow(&state, 0);
    assert_eq!(escrow_before.platform_fee, 200);

    let update_config_msg = ExecuteMsg::UpdateConfig {
        admin: None,
        platform_fee_percent: Some(8),
        min_escrow_amount: None,
        dispute_period_days: None,
        max_job_duration_days: None,
    };
    execute_msg(&mut state, env, mock_info(ADMIN, &[]), update_config_msg).unwrap();

    let escrow_after = job_escrow(&state, 0);
    assert_eq!(escrow_after.platform_fee, 200);

    assert_eq!(state.config.platform_fee_percent, 8);
}

#[test]
fn test_fee_calculation_overflow_protection() {
    let (mut state, env, _) = setup_contract(10);
    let budget = u128::MAX;
    let client_info = mock_info(CLIENT, &coins(budget, "uxion"));

    let job_msg = ExecuteMsg::PostJob {
        title: "Overflow Test Job".to_string(),
        description: "Testing overflow protection".to_string(),
        budget,
        category: "Testing".to_string(),
        skills_required: vec!["Math".to_string()],
        duration_days: 30,
        documents: None,
        milestones: None,
    };
    // Either outcome is acceptable; the call must return rather than panic.
    let _result = execute_msg(&mut state, env, client_info, job_msg);
}
