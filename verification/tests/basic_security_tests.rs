#![allow(dead_code, unused_variables)]
use serde_json::Value;
use xworks_freelance_contract::admin::instantiate;
use xworks_freelance_contract::chain::{Coin, CosmosMsg, Env, MessageInfo, Response};
use xworks_freelance_contract::contract::{execute, query, QueryAnswer};
use xworks_freelance_contract::error::{ContractError, StdError};
use xworks_freelance_contract::hash_utils::{create_job_content_bundle, FieldValue, OffChainBundle};
use xworks_freelance_contract::msg::{ExecuteMsg, InstantiateMsg, QueryMsg};
use xworks_freelance_contract::state::ContractState;

/// The block time of the standard test environment, in nanoseconds.
const MOCK_TIME: u64 = 1_571_797_419_879_305_533;

fn mock_env() -> Env {
    Env { time: MOCK_TIME, height: 12_345 }
}

fn env_plus_seconds(env: &Env, seconds: u64) -> Env {
    Env { time: env.time + seconds * 1_000_000_000, height: env.height + 1 }
}

fn coins(amount: u128, denom: &str) -> Vec<Coin> {
    vec![Coin { denom: denom.to_string(), amount }]
}

fn mock_info(sender: &str, funds: &[Coin]) -> MessageInfo {
    MessageInfo { sender: sender.to_string(), funds: funds.to_vec() }
}

fn instantiate_msg(admin: &str) -> InstantiateMsg {
    InstantiateMsg {
        admin: Some(admin.to_string()),
        platform_fee_percent: Some(5),
        min_escrow_amount: Some(1000),
        dispute_period_days: Some(7),
        max_job_duration_days: Some(365),
    }
}

fn instantiate_state(env: &Env, info: &MessageInfo, msg: InstantiateMsg) -> Result<(ContractState, Response), ContractError> {
    instantiate(env, info, msg, "0.1.0")
}

/// The bundle as JSON text, in the field order the contract publishes it.
fn bundle_json(bundle: &OffChainBundle) -> String {
    let mut data = serde_json::Map::new();
    for (name, value) in &bundle.data.fields {
        let v = match value {
            FieldValue::Text(t) => Value::String(t.clone()),
            FieldValue::TextList(l) => Value::Array(l.iter().map(|s| Value::String(s.clone())).collect()),
            FieldValue::Milestones(m) => Value::Array(m.iter().map(|p| Value::String(p.title.clone())).collect()),
        };
        data.insert(name.clone(), v);
    }
    let mut top = serde_json::Map::new();
    top.insert("id".to_string(), Value::String(bundle.id.clone()));
    top.insert("content_type".to_string(), Value::String(bundle.content_type.clone()));
    top.insert("data".to_string(), Value::Object(data));
    top.insert("entity_type".to_string(), Value::String(bundle.metadata.entity_type.clone()));
    top.insert("created_at".to_string(), Value::from(bundle.metadata.created_at));
    serde_json::to_string(&Value::Object(top)).unwrap()
}

/// The content text that accompanies `msg`: the job bundle for a posting, an empty object otherwise.
fn content_for(state: &ContractState, env: &Env, msg: &ExecuteMsg) -> String {
    match msg {
        ExecuteMsg::PostJob { title, description, category, skills_required, documents, .. } => {
            let docs = documents.clone().unwrap_or_default();
            let bundle = create_job_content_bundle(
                state.next_job_id,
                title,
                description,
                None,
                None,
                category,
                skills_required,
                &docs,
                env.time / 1_000_000_000,
            )
            .unwrap();
            bundle_json(&bundle)
        }
        _ => "{}".to_string(),
    }
}

fn execute_msg(state: &mut ContractState, env: Env, info: MessageInfo, msg: ExecuteMsg) -> Result<Response, ContractError> {
    let content = content_for(state, &env, &msg);
    let hook = Err(StdError::ParseErr { target_type: "EscrowHookMsg".to_string(), msg: "EOF".to_string() });
    execute(state, &env, &info, msg, &content, "", hook)
}

fn query_msg(state: &ContractState, msg: QueryMsg) -> Result<QueryAnswer, StdError> {
    query(state, msg)
}

fn bank_payment(msg: &CosmosMsg) -> (String, u128) {
    match msg {
        CosmosMsg::BankSend { to_address, amount, .. } => (to_address.clone(), *amount),
        CosmosMsg::Cw20Transfer { recipient, amount, .. } => (recipient.clone(), *amount),
    }
}

const ADMIN: &str = "admin";
const CLIENT: &str = "client";
const FREELANCER: &str = "freelancer";
const UNAUTHORIZED_USER: &str = "unauthorized_user";

fn setup() -> (ContractState, Env) {
    let env = mock_env();
    let (state, _) = instantiate_state(&env, &mock_info(ADMIN, &[]), instantiate_msg(ADMIN)).unwrap();
    (state, env)
}

fn job(title: &str, description: &str, budget: u128) -> ExecuteMsg {
    ExecuteMsg::PostJob {
        title: title.to_string(),
        description: description.to_string(),
        budget,
        category: "Development".to_string(),
        skills_required: vec!["Rust".to_string()],
        duration_days: 30,
        documents: None,
        milestones: None,
    }
}

#[test]
fn test_contract_instantiation() {
    let result = instantiate_state(&mock_env(), &mock_info(ADMIN, &[]), instantiate_msg(ADMIN));
    assert!(result.is_ok());
}

#[test]
fn test_unauthorized_admin_functions() {
    let (mut state, env) = setup();
    let unauthorized_info = mock_info(UNAUTHORIZED_USER, &[]);

    let update_config_msg = ExecuteMsg::UpdateConfig {
        admin: None,
        platform_fee_percent: Some(10),
        min_escrow_amount: None,
        dispute_period_days: None,
        max_job_duration_days: None,
    };
    let result = execute_msg(&mut state, env, unauthorized_info.clone(), update_config_msg);
    assert!(matches!(result, Err(ContractError::Unauthorized {})));

    let result = execute_msg(&mut state, env, unauthorized_info, ExecuteMsg::PauseContract {});
    assert!(matches!(result, Err(ContractError::Unauthorized {})));
}

#[test]
fn test_job_posting_basic_validation() {
    let (mut state, env) = setup();
    let client_info = mock_info(CLIENT, &coins(5000, "uxion"));

    let result = execute_msg(&mut state, env, client_info, job("Valid Job", "A valid job description", 5000));
    assert!(result.is_ok());

    let client_info_free = mock_info(CLIENT, &[]);
    let result = execute_msg(&mut state, env, client_info_free, job("Free Project", "A free project with zero budget", 0));
    assert!(result.is_ok());
}

#[test]
fn test_platform_fee_limits() {
    let msg = InstantiateMsg {
        admin: Some(ADMIN.to_string()),
        platform_fee_percent: Some(15),
        min_escrow_amount: Some(1000),
        dispute_period_days: Some(7),
        max_job_duration_days: Some(365),
    };
    let result = instantiate_state(&mock_env(), &mock_info(ADMIN, &[]), msg);
    assert!(matches!(result, Err(ContractError::PlatformFeeTooHigh { max: 10 })));
}

#[test]
fn test_input_sanitization() {
    let (mut state, env) = setup();
    let client_info = mock_info(CLIENT, &coins(5000, "uxion"));

    let long_title = "a".repeat(101);
    let result = execute_msg(&mut state, env, client_info.clone(), job(&long_title, "Valid description", 5000));
    assert!(result.is_err());

    let result = execute_msg(&mut state, env, client_info, job("", "Valid description", 5000));
    assert!(result.is_err());
}

#[test]
fn test_escrow_minimum_amount() {
    let (mut state, env) = setup();
    let client_info = mock_info(CLIENT, &coins(500, "uxion"));
    let result = execute_msg(&mut state, env, client_info, job("Small Budget Job", "Job with budget below minimum", 500));
    assert!(result.is_err());
}

#[test]
fn test_rate_limiting_basics() {
    let (mut state, env) = setup();
    let client_info = mock_info(CLIENT, &coins(50000, "uxion"));

    let mut successful_posts = 0;
    for i in 0..10 {
        let result = execute_msg(&mut state, env, client_info.clone(), job(&format!("Job {}", i), "Testing rate limiting", 5000));
        if result.is_ok() {
            successful_posts += 1;
        }
    }
    assert!(successful_posts < 10, "Rate limiting should prevent unlimited job posting");
}
