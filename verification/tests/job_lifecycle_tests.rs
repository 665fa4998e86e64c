#![allow(dead_code, unused_variables)]
use serde_json::Value;
use xworks_freelance_contract::admin::instantiate;
use xworks_freelance_contract::chain::{Coin, CosmosMsg, Env, MessageInfo, Response};
use xworks_freelance_contract::contract::{execute, query, QueryAnswer};
use xworks_freelance_contract::error::{ContractError, StdError};
use xworks_freelance_contract::hash_utils::{create_job_content_bundle, FieldValue, OffChainBundle};
use xworks_freelance_contract::msg::{ExecuteMsg, InstantiateMsg, QueryMsg};
use xworks_freelance_contract::state::ContractState;

/// The block time of the standard test environment, in nanoseconds.
const MOCK_TIME: u64 = 1_571_797_419_879_305_533;

fn mock_env() -> Env {
    Env { time: MOCK_TIME, height: 12_345 }
}

fn env_plus_seconds(env: &Env, seconds: u64) -> Env {
    Env { time: env.time + seconds * 1_000_000_000, height: env.height + 1 }
}

fn coins(amount: u128, denom: &str) -> Vec<Coin> {
    vec![Coin { denom: denom.to_string(), amount }]
}

fn mock_info(sender: &str, funds: &[Coin]) -> MessageInfo {
    MessageInfo { sender: sender.to_string(), funds: funds.to_vec() }
}

fn instantiate_msg(admin: &str) -> InstantiateMsg {
    InstantiateMsg {
        admin: Some(admin.to_string()),
        platform_fee_percent: Some(5),
        min_escrow_amount: Some(1000),
        dispute_period_days: Some(7),
        max_job_duration_days: Some(365),
    }
}

fn instantiate_state(env: &Env, info: &MessageInfo, msg: InstantiateMsg) -> Result<(ContractState, Response), ContractError> {
    instantiate(env, info, msg, "0.1.0")
}

/// The bundle as JSON text, in the field order the contract publishes it.
fn bundle_json(bundle: &OffChainBundle) -> String {
    let mut data = serde_json::Map::new();
    for (name, value) in &bundle.data.fields {
        let v = match value {
            FieldValue::Text(t) => Value::String(t.clone()),
            FieldValue::TextList(l) => Value::Array(l.iter().map(|s| Value::String(s.clone())).collect()),
            FieldValue::Milestones(m) => Value::Array(m.iter().map(|p| Value::String(p.title.clone())).collect()),
        };
        data.insert(name.clone(), v);
    }
    let mut top = serde_json::Map::new();
    top.insert("id".to_string(), Value::String(bundle.id.clone()));
    top.insert("content_type".to_string(), Value::String(bundle.content_type.clone()));
    top.insert("data".to_string(), Value::Object(data));
    top.insert("entity_type".to_string(), Value::String(bundle.metadata.entity_type.clone()));
    top.insert("created_at".to_string(), Value::from(bundle.metadata.created_at));
    serde_json::to_string(&Value::Object(top)).unwrap()
}

/// The content text that accompanies `msg`: the job bundle for a posting, an empty object otherwise.
fn content_for(state: &ContractState, env: &Env, msg: &ExecuteMsg) -> String {
    match msg {
        ExecuteMsg::PostJob { title, description, category, skills_required, documents, .. } => {
            let docs = documents.clone().unwrap_or_default();
            let bundle = create_job_content_bundle(
                state.next_job_id,
                title,
                description,
                None,
                None,
                category,
                skills_required,
                &docs,
                env.time / 1_000_000_000,
            )
            .unwrap();
            bundle_json(&bundle)
        }
        _ => "{}".to_string(),
    }
}

fn execute_msg(state: &mut ContractState, env: Env, info: MessageInfo, msg: ExecuteMsg) -> Result<Response, ContractError> {
    let content = content_for(state, &env, &msg);
    let hook = Err(StdError::ParseErr { target_type: "EscrowHookMsg".to_string(), msg: "EOF".to_string() });
    execute(state, &env, &info, msg, &content, "", hook)
}

fn query_msg(state: &ContractState, msg: QueryMsg) -> Result<QueryAnswer, StdError> {
    query(state, msg)
}

fn bank_payment(msg: &CosmosMsg) -> (String, u128) {
    match msg {
        CosmosMsg::BankSend { to_address, amount, .. } => (to_address.clone(), *amount),
        CosmosMsg::Cw20Transfer { recipient, amount, .. } => (recipient.clone(), *amount),
    }
}
use xworks_freelance_contract::state::JobStatus;

const ADMIN: &str = "admin";
const CLIENT: &str = "client1";
const FREELANCER: &str = "freelancer1";

fn setup_contract() -> (ContractState, Env) {
    let env = mock_env();
    let (state, _) = instantiate_state(&env, &mock_info(ADMIN, &[]), instantiate_msg(ADMIN)).unwrap();
    (state, env)
}

fn job(title: &str, description: &str, budget: u128, category: &str, skills: Vec<String>, duration_days: u64) -> ExecuteMsg {
    ExecuteMsg::PostJob {
        title: title.to_string(),
        description: description.to_string(),
        budget,
        category: category.to_string(),
        skills_required: skills,
        duration_days,
        documents: None,
        milestones: None,
    }
}

fn proposal(cover_letter: &str, delivery_time_days: u64) -> ExecuteMsg {
    ExecuteMsg::SubmitProposal { job_id: 0, cover_letter: cover_letter.to_string(), delivery_time_days, milestones: None }
}

#[test]
fn test_complete_free_job_lifecycle() {
    let (mut state, env) = setup_contract();

    let client_info = mock_info(CLIENT, &[]);
    let post = job("Code Review", "Need a quick code review for my smart contract", 0, "Review", vec!["Rust".to_string()], 7);
    assert!(execute_msg(&mut state, env, client_info.clone(), post).is_ok());

    let job0 = state.jobs.get(&0).unwrap().clone();
    assert_eq!(job0.status, JobStatus::Open);
    assert_eq!(job0.budget, 0);

    let freelancer_info = mock_info(FREELANCER, &[]);
    let p = proposal("I can do a quick code review for you, happy to help!", 3);
    assert!(execute_msg(&mut state, env, freelancer_info.clone(), p).is_ok());

    let result = execute_msg(&mut state, env, client_info.clone(), ExecuteMsg::AcceptProposal { job_id: 0, proposal_id: 0 });
    assert!(result.is_ok());

    let job0 = state.jobs.get(&0).unwrap().clone();
    assert_eq!(job0.status, JobStatus::InProgress);
    assert_eq!(job0.assigned_freelancer, Some(FREELANCER.to_string()));

    let escrow_info = mock_info(CLIENT, &[]);
    let result = execute_msg(&mut state, env, escrow_info, ExecuteMsg::CreateEscrowNative { job_id: 0, amount: 0 });
    assert!(result.is_err());

    let result = execute_msg(&mut state, env, freelancer_info.clone(), ExecuteMsg::CompleteJob { job_id: 0 });
    assert!(result.is_ok());

    let job0 = state.jobs.get(&0).unwrap().clone();
    assert_eq!(job0.status, JobStatus::Completed);

    let client_rating_msg = ExecuteMsg::SubmitRating { job_id: 0, rating: 4, comment: "Good review, helpful suggestions!".to_string() };
    assert!(execute_msg(&mut state, env, client_info, client_rating_msg).is_ok());

    let freelancer_rating_msg = ExecuteMsg::SubmitRating { job_id: 0, rating: 5, comment: "Nice client, interesting project!".to_string() };
    assert!(execute_msg(&mut state, env, freelancer_info, freelancer_rating_msg).is_ok());
}

#[test]
fn test_job_cancellation_workflow() {
    let (mut state, env) = setup_contract();

    let client_info = mock_info(CLIENT, &coins(3000, "uxion"));
    let post = job("Website Design", "Need a modern website design", 3000, "Design", vec!["UI/UX".to_string()], 14);
    execute_msg(&mut state, env, client_info.clone(), post).unwrap();

    let result = execute_msg(&mut state, env, client_info, ExecuteMsg::CancelJob { job_id: 0 });
    assert!(result.is_ok());

    let job0 = state.jobs.get(&0).unwrap();
    assert_eq!(job0.status, JobStatus::Cancelled);
}

#[test]
fn test_multiple_proposals_workflow() {
    let (mut state, env) = setup_contract();
    let freelancer2 = "freelancer2";
    let freelancer3 = "freelancer3";

    let client_info = mock_info(CLIENT, &coins(4000, "uxion"));
    let post = job(
        "Mobile App Development",
        "Need a React Native mobile app",
        4000,
        "Mobile",
        vec!["React Native".to_string(), "JavaScript".to_string()],
        45,
    );
    execute_msg(&mut state, env, client_info.clone(), post).unwrap();

    execute_msg(&mut state, env, mock_info(FREELANCER, &[]), proposal("I have 3 years React Native experience", 40)).unwrap();
    execute_msg(&mut state, env, mock_info(freelancer2, &[]), proposal("Expert in React Native with 5 years experience", 35)).unwrap();
    execute_msg(&mut state, env, mock_info(freelancer3, &[]), proposal("Full-stack developer specializing in mobile apps", 42)).unwrap();

    let result = execute_msg(&mut state, env, client_info, ExecuteMsg::AcceptProposal { job_id: 0, proposal_id: 1 });
    assert!(result.is_ok());

    let job0 = state.jobs.get(&0).unwrap();
    assert_eq!(job0.status, JobStatus::InProgress);
    assert_eq!(job0.assigned_freelancer, Some(freelancer2.to_string()));
}
