#![allow(dead_code, unused_variables)]
use serde_json::Value;
use xworks_freelance_contract::admin::instantiate;
use xworks_freelance_contract::chain::{Coin, CosmosMsg, Env, MessageInfo, Response};
use xworks_freelance_contract::contract::{execute, query, QueryAnswer};
use xworks_freelance_contract::error::{ContractError, StdError};
use xworks_freelance_contract::hash_utils::{create_job_content_bundle, FieldValue, OffChainBundle};
use xworks_freelance_contract::msg::{ExecuteMsg, InstantiateMsg, QueryMsg};
use xworks_freelance_contract::state::ContractState;

/// The block time of the standard test environment, in nanoseconds.
const MOCK_TIME: u64 = 1_571_797_419_879_305_533;

fn mock_env() -> Env {
    Env { time: MOCK_TIME, height: 12_345 }
}

fn env_plus_seconds(env: &Env, seconds: u64) -> Env {
    Env { time: env.time + seconds * 1_000_000_000, height: env.height + 1 }
}

fn coins(amount: u128, denom: &str) -> Vec<Coin> {
    vec![Coin { denom: denom.to_string(), amount }]
}

fn mock_info(sender: &str, funds: &[Coin]) -> MessageInfo {
    MessageInfo { sender: sender.to_string(), funds: funds.to_vec() }
}

fn instantiate_msg(admin: &str) -> InstantiateMsg {
    InstantiateMsg {
        admin: Some(admin.to_string()),
        platform_fee_percent: Some(5),
        min_escrow_amount: Some(1000),
        dispute_period_days: Some(7),
        max_job_duration_days: Some(365),
    }
}

fn instantiate_state(env: &Env, info: &MessageInfo, msg: InstantiateMsg) -> Result<(ContractState, Response), ContractError> {
    instantiate(env, info, msg, "0.1.0")
}

/// The bundle as JSON text, in the field order the contract publishes it.
fn bundle_json(bundle: &OffChainBundle) -> String {
    let mut data = serde_json::Map::new();
    for (name, value) in &bundle.data.fields {
        let v = match value {
            FieldValue::Text(t) => Value::String(t.clone()),
            FieldValue::TextList(l) => Value::Array(l.iter().map(|s| Value::String(s.clone())).collect()),
            FieldValue::Milestones(m) => Value::Array(m.iter().map(|p| Value::String(p.title.clone())).collect()),
        };
        data.insert(name.clone(), v);
    }
    let mut top = serde_json::Map::new();
    top.insert("id".to_string(), Value::String(bundle.id.clone()));
    top.insert("content_type".to_string(), Value::String(bundle.content_type.clone()));
    top.insert("data".to_string(), Value::Object(data));
    top.insert("entity_type".to_string(), Value::String(bundle.metadata.entity_type.clone()));
    top.insert("created_at".to_string(), Value::from(bundle.metadata.created_at));
    serde_json::to_string(&Value::Object(top)).unwrap()
}

/// The content text that accompanies `msg`: the job bundle for a posting, an empty object otherwise.
fn content_for(state: &ContractState, env: &Env, msg: &ExecuteMsg) -> String {
    match msg {
        ExecuteMsg::PostJob { title, description, category, skills_required, documents, .. } => {
            let docs = documents.clone().unwrap_or_default();
            let bundle = create_job_content_bundle(
                state.next_job_id,
                title,
                description,
                None,
                None,
                category,
                skills_required,
                &docs,
                env.time / 1_000_000_000,
            )
            .unwrap();
            bundle_json(&bundle)
        }
        _ => "{}".to_string(),
    }
}

fn execute_msg(state: &mut ContractState, env: Env, info: MessageInfo, msg: ExecuteMsg) -> Result<Response, ContractError> {
    let content = content_for(state, &env, &msg);
    let hook = Err(StdError::ParseErr { target_type: "EscrowHookMsg".to_string(), msg: "EOF".to_string() });
    execute(state, &env, &info, msg, &content, "", hook)
}

fn query_msg(state: &ContractState, msg: QueryMsg) -> Result<QueryAnswer, StdError> {
    query(state, msg)
}

fn bank_payment(msg: &CosmosMsg) -> (String, u128) {
    match msg {
        CosmosMsg::BankSend { to_address, amount, .. } => (to_address.clone(), *amount),
        CosmosMsg::Cw20Transfer { recipient, amount, .. } => (recipient.clone(), *amount),
    }
}
use xworks_freelance_contract::hash_utils::generate_content_hash;
use xworks_freelance_contract::state::JobStatus;

const ADMIN: &str = "admin";
const CLIENT: &str = "client";
const FREELANCER: &str = "freelancer";
const MALICIOUS_CONTRACT: &str = "malicious_contract";

fn setup_contract() -> (ContractState, Env, MessageInfo) {
    let env = mock_env();
    let info = mock_info(ADMIN, &[]);
    let (state, _) = instantiate_state(&env, &info, instantiate_msg(ADMIN)).unwrap();
    (state, env, info)
}

fn job(title: &str, description: &str, budget: u128, category: &str, skill: &str) -> ExecuteMsg {
    ExecuteMsg::PostJob {
        title: title.to_string(),
        description: description.to_string(),
        budget,
        category: category.to_string(),
        skills_required: vec![skill.to_string()],
        duration_days: 30,
        documents: None,
        milestones: None,
    }
}

fn proposal() -> ExecuteMsg {
    ExecuteMsg::SubmitProposal { job_id: 0, cover_letter: "Test proposal".to_string(), delivery_time_days: 25, milestones: None }
}

#[test]
fn test_reentrancy_guard_prevents_recursive_calls() {
    let (mut state, env, _) = setup_contract();
    let client_info = mock_info(CLIENT, &coins(5000, "uxion"));

    execute_msg(&mut state, env, client_info.clone(), job("Test Job", "Test Description", 5000, "Development", "Rust")).unwrap();
    execute_msg(&mut state, env, mock_info(FREELANCER, &[]), proposal()).unwrap();
    execute_msg(&mut state, env, client_info, ExecuteMsg::AcceptProposal { job_id: 0, proposal_id: 0 }).unwrap();

    let escrow_info = mock_info(CLIENT, &coins(5000, "uxion"));
    execute_msg(&mut state, env, escrow_info, ExecuteMsg::CreateEscrowNative { job_id: 0, amount: 5000 }).unwrap();

    let malicious_info = mock_info(MALICIOUS_CONTRACT, &[]);
    let release_msg = ExecuteMsg::ReleaseEscrow { escrow_id: "0".to_string() };
    let result = execute_msg(&mut state, env, malicious_info.clone(), release_msg.clone());
    let result2 = execute_msg(&mut state, env, malicious_info, release_msg);
    assert!(result.is_err() || result2.is_err());
}

#[test]
fn test_reentrancy_protection_on_escrow_operations() {
    let (mut state, env, _) = setup_contract();
    let client_info = mock_info(CLIENT, &coins(5000, "uxion"));

    execute_msg(&mut state, env, client_info.clone(), job("Reentrancy Test", "Testing reentrancy protection", 5000, "Security", "Security")).unwrap();
    execute_msg(&mut state, env, mock_info(FREELANCER, &[]), proposal()).unwrap();
    execute_msg(&mut state, env, client_info, ExecuteMsg::AcceptProposal { job_id: 0, proposal_id: 0 }).unwrap();

    let escrow_info1 = mock_info(CLIENT, &coins(5000, "uxion"));
    let escrow_info2 = mock_info(CLIENT, &coins(5000, "uxion"));
    let create_escrow_msg = ExecuteMsg::CreateEscrowNative { job_id: 0, amount: 5000 };

    let result1 = execute_msg(&mut state, env, escrow_info1, create_escrow_msg.clone());
    let result2 = execute_msg(&mut state, env, escrow_info2, create_escrow_msg);
    assert!(result1.is_ok());
    assert!(result2.is_err());
}

#[test]
fn test_state_consistency_during_reentrancy_attempt() {
    let (mut state, env, _) = setup_contract();
    let client_info = mock_info(CLIENT, &coins(5000, "uxion"));

    execute_msg(&mut state, env, client_info.clone(), job("State Consistency Test", "Testing state consistency", 5000, "Testing", "Testing")).unwrap();

    let job_before = state.jobs.get(&0).unwrap().clone();
    assert_eq!(job_before.status, JobStatus::Open);
    assert_eq!(job_before.escrow_id, None);

    execute_msg(&mut state, env, mock_info(FREELANCER, &[]), proposal()).unwrap();
    execute_msg(&mut state, env, client_info, ExecuteMsg::AcceptProposal { job_id: 0, proposal_id: 0 }).unwrap();

    let job_in_progress = state.jobs.get(&0).unwrap().clone();
    assert_eq!(job_in_progress.status, JobStatus::InProgress);

    let escrow_info = mock_info(CLIENT, &coins(5000, "uxion"));
    execute_msg(&mut state, env, escrow_info, ExecuteMsg::CreateEscrowNative { job_id: 0, amount: 5000 }).unwrap();

    let job_after = state.jobs.get(&0).unwrap().clone();
    assert!(job_after.escrow_id.is_some());

    let malicious_info = mock_info(MALICIOUS_CONTRACT, &coins(5000, "uxion"));
    let result = execute_msg(&mut state, env, malicious_info, ExecuteMsg::CreateEscrowNative { job_id: 0, amount: 5000 });
    assert!(result.is_err());

    let job_final = state.jobs.get(&0).unwrap().clone();
    assert_eq!(job_after.escrow_id, job_final.escrow_id);
}

#[test]
fn test_nested_function_call_protection() {
    let (mut state, env, _) = setup_contract();
    let client_info = mock_info(CLIENT, &coins(10000, "uxion"));

    let mut contents = Vec::new();
    for i in 0..5 {
        let msg = job(&format!("Nested Test Job {}", i), "Testing nested function calls", 1000, "Testing", "Testing");
        contents.push(content_for(&state, &env, &msg));
        let result = execute_msg(&mut state, env, client_info.clone(), msg);
        assert!(result.is_ok(), "Job creation {} should succeed", i);
    }

    // Each job names the bundle that holds its own title.
    for i in 0..5u64 {
        let job = state.jobs.get(&i).unwrap();
        let content = &contents[i as usize];
        assert!(content.contains(&format!("\"title\":\"Nested Test Job {}\"", i)));
        let bundle_hash = generate_content_hash(content).unwrap();
        assert_eq!(job.content_hash.hash, generate_content_hash(&bundle_hash).unwrap());
    }
}

#[test]
fn test_cross_function_reentrancy_protection() {
    let (mut state, env, _) = setup_contract();
    let client_info = mock_info(CLIENT, &coins(5000, "uxion"));

    execute_msg(&mut state, env, client_info.clone(), job("Cross Function Test", "Testing cross-function reentrancy", 5000, "Security", "Security")).unwrap();
    execute_msg(&mut state, env, mock_info(FREELANCER, &[]), proposal()).unwrap();

    let result = execute_msg(&mut state, env, client_info, ExecuteMsg::AcceptProposal { job_id: 0, proposal_id: 0 });
    assert!(result.is_ok());

    let job = state.jobs.get(&0).unwrap();
    assert_eq!(job.status, JobStatus::InProgress);
    assert!(job.assigned_freelancer.is_some());
}
