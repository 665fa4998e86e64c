#![allow(dead_code, unused_variables)]
use serde_json::Value;
use xworks_freelance_contract::admin::instantiate;
use xworks_freelance_contract::chain::{Coin, CosmosMsg, Env, MessageInfo, Response};
use xworks_freelance_contract::contract::{execute, query, QueryAnswer};
use xworks_freelance_contract::error::{ContractError, StdError};
use xworks_freelance_contract::hash_utils::{create_job_content_bundle, FieldValue, OffChainBundle};
use xworks_freelance_contract::msg::{ExecuteMsg, InstantiateMsg, QueryMsg};
use xworks_freelance_contract::state::ContractState;

/// The block time of the standard test environment, in nanoseconds.
const MOCK_TIME: u64 = 1_571_797_419_879_305_533;

fn mock_env() -> Env {
    Env { time: MOCK_TIME, height: 12_345 }
}

fn env_plus_seconds(env: &Env, seconds: u64) -> Env {
    Env { time: env.time + seconds * 1_000_000_000, height: env.height + 1 }
}

fn coins(amount: u128, denom: &str) -> Vec<Coin> {
    vec![Coin { denom: denom.to_string(), amount }]
}

fn mock_info(sender: &str, funds: &[Coin]) -> MessageInfo {
    MessageInfo { sender: sender.to_string(), funds: funds.to_vec() }
}

fn instantiate_msg(admin: &str) -> InstantiateMsg {
    InstantiateMsg {
        admin: Some(admin.to_string()),
        platform_fee_percent: Some(5),
        min_escrow_amount: Some(1000),
        dispute_period_days: Some(7),
        max_job_duration_days: Some(365),
    }
}

fn instantiate_state(env: &Env, info: &MessageInfo, msg: InstantiateMsg) -> Result<(ContractState, Response), ContractError> {
    instantiate(env, info, msg, "0.1.0")
}

/// The bundle as JSON text, in the field order the contract publishes it.
fn bundle_json(bundle: &OffChainBundle) -> String {
    let mut data = serde_json::Map::new();
    for (name, value) in &bundle.data.fields {
        let v = match value {
            FieldValue::Text(t) => Value::String(t.clone()),
            FieldValue::TextList(l) => Value::Array(l.iter().map(|s| Value::String(s.clone())).collect()),
            FieldValue::Milestones(m) => Value::Array(m.iter().map(|p| Value::String(p.title.clone())).collect()),
        };
        data.insert(name.clone(), v);
    }
    let mut top = serde_json::Map::new();
    top.insert("id".to_string(), Value::String(bundle.id.clone()));
    top.insert("content_type".to_string(), Value::String(bundle.content_type.clone()));
    top.insert("data".to_string(), Value::Object(data));
    top.insert("entity_type".to_string(), Value::String(bundle.metadata.entity_type.clone()));
    top.insert("created_at".to_string(), Value::from(bundle.metadata.created_at));
    serde_json::to_string(&Value::Object(top)).unwrap()
}

/// The content text that accompanies `msg`: the job bundle for a posting, an empty object otherwise.
fn content_for(state: &ContractState, env: &Env, msg: &ExecuteMsg) -> String {
    match msg {
        ExecuteMsg::PostJob { title, description, category, skills_required, documents, .. } => {
            let docs = documents.clone().unwrap_or_default();
            let bundle = create_job_content_bundle(
                state.next_job_id,
                title,
                description,
                None,
                None,
                category,
                skills_required,
                &docs,
                env.time / 1_000_000_000,
            )
            .unwrap();
            bundle_json(&bundle)
        }
        _ => "{}".to_string(),
    }
}

fn execute_msg(state: &mut ContractState, env: Env, info: MessageInfo, msg: ExecuteMsg) -> Result<Response, ContractError> {
    let content = content_for(state, &env, &msg);
    let hook = Err(StdError::ParseErr { target_type: "EscrowHookMsg".to_string(), msg: "EOF".to_string() });
    execute(state, &env, &info, msg, &content, "", hook)
}

fn query_msg(state: &ContractState, msg: QueryMsg) -> Result<QueryAnswer, StdError> {
    query(state, msg)
}

fn bank_payment(msg: &CosmosMsg) -> (String, u128) {
    match msg {
        CosmosMsg::BankSend { to_address, amount, .. } => (to_address.clone(), *amount),
        CosmosMsg::Cw20Transfer { recipient, amount, .. } => (recipient.clone(), *amount),
    }
}
use xworks_freelance_contract::state::JobStatus;

const ADMIN: &str = "admin";
const CLIENT: &str = "client";
const FREELANCER: &str = "freelancer";

fn setup() -> (ContractState, Env) {
    let env = mock_env();
    let (state, _) = instantiate_state(&env, &mock_info(ADMIN, &[]), instantiate_msg(ADMIN)).unwrap();
    (state, env)
}

#[test]
fn test_complete_job_workflow() {
    let (mut state, env) = setup();

    let client_info = mock_info(CLIENT, &coins(5000, "uxion"));
    let job_msg = ExecuteMsg::PostJob {
        title: "Build a DApp".to_string(),
        description: "Build a decentralized application".to_string(),
        budget: 5000,
        category: "Development".to_string(),
        skills_required: vec!["Rust".to_string(), "CosmWasm".to_string()],
        duration_days: 30,
        documents: None,
        milestones: None,
    };
    execute_msg(&mut state, env, client_info.clone(), job_msg).unwrap();

    let freelancer_info = mock_info(FREELANCER, &[]);
    let proposal_msg = ExecuteMsg::SubmitProposal {
        job_id: 0,
        cover_letter: "I can build this DApp for you".to_string(),
        delivery_time_days: 25,
        milestones: None,
    };
    execute_msg(&mut state, env, freelancer_info.clone(), proposal_msg).unwrap();

    execute_msg(&mut state, env, client_info.clone(), ExecuteMsg::AcceptProposal { job_id: 0, proposal_id: 0 }).unwrap();

    execute_msg(&mut state, env, client_info, ExecuteMsg::CreateEscrowNative { job_id: 0, amount: 5000 }).unwrap();

    execute_msg(&mut state, env, freelancer_info, ExecuteMsg::CompleteJob { job_id: 0 }).unwrap();

    let job = state.jobs.get(&0).unwrap();
    assert_eq!(job.status, JobStatus::Completed);
}

#[test]
fn test_free_project_workflow() {
    let (mut state, env) = setup();

    let client_info = mock_info(CLIENT, &[]);
    let job_msg = ExecuteMsg::PostJob {
        title: "Open Source Contribution".to_string(),
        description: "Help with documentation".to_string(),
        budget: 0,
        category: "Documentation".to_string(),
        skills_required: vec!["Writing".to_string()],
        duration_days: 7,
        documents: None,
        milestones: None,
    };
    execute_msg(&mut state, env, client_info.clone(), job_msg).unwrap();

    let freelancer_info = mock_info(FREELANCER, &[]);
    let proposal_msg = ExecuteMsg::SubmitProposal {
        job_id: 0,
        cover_letter: "I'd be happy to help with documentation".to_string(),
        delivery_time_days: 5,
        milestones: None,
    };
    execute_msg(&mut state, env, freelancer_info.clone(), proposal_msg).unwrap();

    execute_msg(&mut state, env, client_info.clone(), ExecuteMsg::AcceptProposal { job_id: 0, proposal_id: 0 }).unwrap();

    let result = execute_msg(&mut state, env, client_info, ExecuteMsg::CreateEscrowNative { job_id: 0, amount: 0 });
    assert!(result.is_err());

    execute_msg(&mut state, env, freelancer_info, ExecuteMsg::CompleteJob { job_id: 0 }).unwrap();

    let job = state.jobs.get(&0).unwrap();
    assert_eq!(job.status, JobStatus::Completed);
    assert!(job.escrow_id.is_none());
}
