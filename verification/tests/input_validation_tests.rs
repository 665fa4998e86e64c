#![allow(dead_code, unused_variables)]
use serde_json::Value;
use xworks_freelance_contract::admin::instantiate;
use xworks_freelance_contract::chain::{Coin, CosmosMsg, Env, MessageInfo, Response};
use xworks_freelance_contract::contract::{execute, query, QueryAnswer};
use xworks_freelance_contract::error::{ContractError, StdError};
use xworks_freelance_contract::hash_utils::{create_job_content_bundle, FieldValue, OffChainBundle};
use xworks_freelance_contract::msg::{ExecuteMsg, InstantiateMsg, QueryMsg};
use xworks_freelance_contract::state::ContractState;
use xworks_freelance_contract::msg::{MilestoneInput, RewardTierInput};

/// The block time of the standard test environment, in nanoseconds.
const MOCK_TIME: u64 = 1_571_797_419_879_305_533;

fn mock_env() -> Env {
    Env { time: MOCK_TIME, height: 12_345 }
}

fn env_plus_seconds(env: &Env, seconds: u64) -> Env {
    Env { time: env.time + seconds * 1_000_000_000, height: env.height + 1 }
}

fn coins(amount: u128, denom: &str) -> Vec<Coin> {
    vec![Coin { denom: denom.to_string(), amount }]
}

fn mock_info(sender: &str, funds: &[Coin]) -> MessageInfo {
    MessageInfo { sender: sender.to_string(), funds: funds.to_vec() }
}

fn instantiate_msg(admin: &str) -> InstantiateMsg {
    InstantiateMsg {
        admin: Some(admin.to_string()),
        platform_fee_percent: Some(5),
        min_escrow_amount: Some(1000),
        dispute_period_days: Some(7),
        max_job_duration_days: Some(365),
    }
}

fn instantiate_state(env: &Env, info: &MessageInfo, msg: InstantiateMsg) -> Result<(ContractState, Response), ContractError> {
    instantiate(env, info, msg, "0.1.0")
}

/// The bundle as JSON text, in the field order the contract publishes it.
fn bundle_json(bundle: &OffChainBundle) -> String {
    let mut data = serde_json::Map::new();
    for (name, value) in &bundle.data.fields {
        let v = match value {
            FieldValue::Text(t) => Value::String(t.clone()),
            FieldValue::TextList(l) => Value::Array(l.iter().map(|s| Value::String(s.clone())).collect()),
            FieldValue::Milestones(m) => Value::Array(m.iter().map(|p| Value::String(p.title.clone())).collect()),
        };
        data.insert(name.clone(), v);
    }
    let mut top = serde_json::Map::new();
    top.insert("id".to_string(), Value::String(bundle.id.clone()));
    top.insert("content_type".to_string(), Value::String(bundle.content_type.clone()));
    top.insert("data".to_string(), Value::Object(data));
    top.insert("entity_type".to_string(), Value::String(bundle.metadata.entity_type.clone()));
    top.insert("created_at".to_string(), Value::from(bundle.metadata.created_at));
    serde_json::to_string(&Value::Object(top)).unwrap()
}

/// The content text that accompanies `msg`: the job bundle for a posting, an empty object otherwise.
fn content_for(state: &ContractState, env: &Env, msg: &ExecuteMsg) -> String {
    match msg {
        ExecuteMsg::PostJob { title, description, category, skills_required, documents, .. } => {
            let docs = documents.clone().unwrap_or_default();
            let bundle = create_job_content_bundle(
                state.next_job_id,
                title,
                description,
                None,
                None,
                category,
                skills_required,
                &docs,
                env.time / 1_000_000_000,
            )
            .unwrap();
            bundle_json(&bundle)
        }
        _ => "{}".to_string(),
    }
}

fn execute_msg(state: &mut ContractState, env: Env, info: MessageInfo, msg: ExecuteMsg) -> Result<Response, ContractError> {
    let content = content_for(state, &env, &msg);
    let hook = Err(StdError::ParseErr { target_type: "EscrowHookMsg".to_string(), msg: "EOF".to_string() });
    execute(state, &env, &info, msg, &content, "", hook)
}

fn query_msg(state: &ContractState, msg: QueryMsg) -> Result<QueryAnswer, StdError> {
    query(state, msg)
}

fn bank_payment(msg: &CosmosMsg) -> (String, u128) {
    match msg {
        CosmosMsg::BankSend { to_address, amount, .. } => (to_address.clone(), *amount),
        CosmosMsg::Cw20Transfer { recipient, amount, .. } => (recipient.clone(), *amount),
    }
}

const ADMIN: &str = "admin";
const CLIENT: &str = "client";

fn setup_contract() -> (ContractState, Env, MessageInfo) {
    let env = mock_env();
    let info = mock_info(ADMIN, &[]);
    let (state, _) = instantiate_state(&env, &info, instantiate_msg(ADMIN)).unwrap();
    (state, env, info)
}

fn job(title: &str, description: &str, category: &str) -> ExecuteMsg {
    ExecuteMsg::PostJob {
        title: title.to_string(),
        description: description.to_string(),
        budget: 5000,
        category: category.to_string(),
        skills_required: vec!["Rust".to_string()],
        duration_days: 30,
        documents: None,
        milestones: None,
    }
}

#[test]
fn test_string_length_validation() {
    let (mut state, env, _) = setup_contract();
    let client_info = mock_info(CLIENT, &coins(5000, "uxion"));

    // Empty title
    let result = execute_msg(&mut state, env, client_info.clone(), job("", "Valid description", "Development"));
    assert!(result.is_err());

    // Overly long title (>100 characters)
    let long_title = "a".repeat(101);
    let result = execute_msg(&mut state, env, client_info.clone(), job(&long_title, "Valid description", "Development"));
    assert!(result.is_err());

    // Empty description
    let result = execute_msg(&mut state, env, client_info.clone(), job("Valid Title", "", "Development"));
    assert!(result.is_err());

    // Overly long description (>1000 characters)
    let long_description = "a".repeat(1001);
    let result = execute_msg(&mut state, env, client_info, job("Valid Title", &long_description, "Development"));
    assert!(result.is_err());
}

#[test]
fn title_and_description_lengths_are_bounded() {
    let (mut state, env, _) = setup_contract();
    let client_info = mock_info(CLIENT, &coins(5000, "uxion"));

    let result = execute_msg(&mut state, env, client_info.clone(), job("Dev", "Valid description", "Development"));
    assert_eq!(result, Err(ContractError::InvalidInput { error: "Title must be between 5-100 characters".to_string() }));

    let longer = "a".repeat(1001);
    let result = execute_msg(&mut state, env, client_info.clone(), job("Valid Title", &longer, "Development"));
    assert_eq!(result, Err(ContractError::InvalidInput { error: "Description must be between 10-1000 characters".to_string() }));

    let result = execute_msg(&mut state, env, client_info.clone(), job("Valid Title", "Too short", "Development"));
    assert_eq!(result, Err(ContractError::InvalidInput { error: "Description must be between 10-1000 characters".to_string() }));

    let result = execute_msg(&mut state, env, client_info.clone(), job("Five5", "Ten chars!", "Development"));
    assert!(result.is_ok());

    let longest_description = "a".repeat(1000);
    let result = execute_msg(&mut state, env, client_info, job("Valid Title", &longest_description, "Development"));
    assert!(result.is_ok());
}

#[test]
fn test_special_characters_and_malformed_inputs() {
    let (mut state, env, _) = setup_contract();
    let client_info = mock_info(CLIENT, &coins(5000, "uxion"));

    // Each of these may be accepted or refused; none may panic.
    let result = execute_msg(&mut state, env, client_info.clone(), job("'; DROP TABLE jobs; --", "Valid description", "Development"));
    let result = execute_msg(&mut state, env, client_info.clone(), job("Valid Title", "<script>alert('xss')</script>", "Development"));
    let result = execute_msg(
        &mut state,
        env,
        client_info.clone(),
        job("Unicode Test 🚀 ñáéíóú", "Testing unicode characters: 中文 العربية русский", "Development"),
    );
    let result = execute_msg(&mut state, env, client_info, job("Title with\0null", "Description with\ttab and\nnewline", "Development"));
}

#[test]
fn test_category_validation() {
    let (mut state, env, _) = setup_contract();
    let client_info = mock_info(CLIENT, &coins(5000, "uxion"));

    let result = execute_msg(&mut state, env, client_info.clone(), job("Empty Category Job", "Testing empty category", ""));
    assert!(result.is_err());

    let long_category = "a".repeat(51);
    let result = execute_msg(&mut state, env, client_info, job("Long Category Job", "Testing long category", &long_category));
    assert!(result.is_err());
}

#[test]
fn test_config_validation_on_instantiate() {
    let env = mock_env();
    let info = mock_info(ADMIN, &[]);

    let msg = InstantiateMsg {
        admin: Some(ADMIN.to_string()),
        platform_fee_percent: Some(15),
        min_escrow_amount: Some(1000),
        dispute_period_days: Some(7),
        max_job_duration_days: Some(365),
    };
    let result = instantiate_state(&env, &info, msg);
    assert!(matches!(result, Err(ContractError::PlatformFeeTooHigh { max: 10 })));

    let result = instantiate_state(&env, &info, instantiate_msg(ADMIN));
    assert!(result.is_ok());
}

#[test]
fn zero_and_overlong_durations_are_refused() {
    let (mut state, env, _) = setup_contract();
    let client_info = mock_info(CLIENT, &coins(5000, "uxion"));
    for days in [0u64, 1000] {
        let msg = ExecuteMsg::PostJob {
            title: "Duration Job".to_string(),
            description: "Testing duration".to_string(),
            budget: 5000,
            category: "Development".to_string(),
            skills_required: vec!["Rust".to_string()],
            duration_days: days,
            documents: None,
            milestones: None,
        };
        assert!(execute_msg(&mut state, env, client_info.clone(), msg).is_err());
    }
}

#[test]
fn test_bounty_validation() {
    let (mut state, env, _) = setup_contract();
    let client_info = mock_info(CLIENT, &coins(10000, "uxion"));

    let invalid_rewards = vec![
        RewardTierInput { position: 1, percentage: 60 },
        RewardTierInput { position: 2, percentage: 60 },
    ];
    let bounty_msg = ExecuteMsg::CreateBounty {
        title: "Invalid Reward Bounty".to_string(),
        description: "Testing invalid reward distribution".to_string(),
        requirements: vec!["Complete task".to_string()],
        total_reward: 10000,
        category: "Development".to_string(),
        skills_required: vec!["Rust".to_string()],
        submission_deadline_days: 30,
        review_period_days: 7,
        max_winners: 2,
        reward_distribution: invalid_rewards,
        documents: None,
    };
    let result = execute_msg(&mut state, env, client_info.clone(), bounty_msg);
    assert!(result.is_err());

    let valid_rewards = vec![RewardTierInput { position: 1, percentage: 100 }];
    let bounty_msg = ExecuteMsg::CreateBounty {
        title: "Zero Winners Bounty".to_string(),
        description: "Testing zero max winners".to_string(),
        requirements: vec!["Complete task".to_string()],
        total_reward: 10000,
        category: "Development".to_string(),
        skills_required: vec!["Rust".to_string()],
        submission_deadline_days: 30,
        review_period_days: 7,
        max_winners: 0,
        reward_distribution: valid_rewards,
        documents: None,
    };
    let result = execute_msg(&mut state, env, client_info, bounty_msg);
    assert!(result.is_err());
}

fn skills_job(title: &str, description: &str, skills: Vec<String>) -> ExecuteMsg {
    ExecuteMsg::PostJob {
        title: title.to_string(),
        description: description.to_string(),
        budget: 5000,
        category: "Development".to_string(),
        skills_required: skills,
        duration_days: 30,
        documents: None,
        milestones: None,
    }
}

#[test]
fn test_array_validation() {
    let (mut state, env, _) = setup_contract();
    let client_info = mock_info(CLIENT, &coins(5000, "uxion"));

    let result = execute_msg(&mut state, env, client_info.clone(), skills_job("No Skills Job", "Testing empty skills", vec![]));
    assert!(result.is_err());

    let many_skills: Vec<String> = (0..25).map(|i| format!("Skill{}", i)).collect();
    let result = execute_msg(&mut state, env, client_info.clone(), skills_job("Many Skills Job", "Testing too many skills", many_skills));
    assert!(result.is_err());

    let result = execute_msg(
        &mut state,
        env,
        client_info,
        skills_job("Empty Skill Job", "Testing empty skill names", vec!["".to_string(), "Valid Skill".to_string()]),
    );
    assert!(result.is_err());
}

fn milestone_job(title: &str, description: &str, milestones: Vec<MilestoneInput>) -> ExecuteMsg {
    ExecuteMsg::PostJob {
        title: title.to_string(),
        description: description.to_string(),
        budget: 5000,
        category: "Development".to_string(),
        skills_required: vec!["Rust".to_string()],
        duration_days: 30,
        documents: None,
        milestones: Some(milestones),
    }
}

fn milestone(title: &str, description: &str, amount: u128, deadline_days: u64) -> MilestoneInput {
    MilestoneInput { title: title.to_string(), description: description.to_string(), amount, deadline_days }
}

#[test]
fn test_milestone_validation() {
    let (mut state, env, _) = setup_contract();
    let client_info = mock_info(CLIENT, &coins(5000, "uxion"));

    let milestones = vec![
        milestone("Milestone 1", "First milestone", 2000, 15),
        milestone("Milestone 2", "Second milestone", 2000, 30),
    ];
    let result = execute_msg(&mut state, env, client_info.clone(), milestone_job("Milestone Test Job", "Testing milestone validation", milestones));
    assert!(result.is_err());

    let milestones = vec![milestone("", "Empty title milestone", 5000, 30)];
    let result = execute_msg(
        &mut state,
        env,
        client_info.clone(),
        milestone_job("Empty Milestone Title Job", "Testing empty milestone title", milestones),
    );
    assert!(result.is_err());

    let milestones = vec![milestone("Zero Amount Milestone", "Testing zero amount", 0, 30)];
    let result = execute_msg(&mut state, env, client_info, milestone_job("Zero Milestone Job", "Testing zero milestone amount", milestones));
    assert!(result.is_err());
}

#[test]
fn milestone_errors_name_the_problem() {
    let (mut state, env, _) = setup_contract();
    let client_info = mock_info(CLIENT, &coins(5000, "uxion"));

    let short = vec![milestone("A", "a", 2000, 15), milestone("B", "b", 2000, 30)];
    assert_eq!(
        execute_msg(&mut state, env, client_info.clone(), milestone_job("Small Job", "Description", short)),
        Err(ContractError::InvalidInput { error: "Milestone amounts must add up to the budget".to_string() })
    );
    let untitled = vec![milestone("", "a", 5000, 15)];
    assert_eq!(
        execute_msg(&mut state, env, client_info.clone(), milestone_job("Small Job", "Description", untitled)),
        Err(ContractError::InvalidInput { error: "Milestone titles must not be empty".to_string() })
    );
    let empty = vec![milestone("A", "a", 0, 15), milestone("B", "b", 5000, 15)];
    assert_eq!(
        execute_msg(&mut state, env, client_info.clone(), milestone_job("Small Job", "Description", empty)),
        Err(ContractError::InvalidInput { error: "Milestone amounts must be greater than zero".to_string() })
    );
    let exact = vec![milestone("A", "a", 2500, 15), milestone("B", "b", 2500, 30)];
    assert!(execute_msg(&mut state, env, client_info, milestone_job("Small Job", "Description", exact)).is_ok());
}
