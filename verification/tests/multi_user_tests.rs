#![allow(dead_code, unused_variables)]
use serde_json::Value;
use xworks_freelance_contract::admin::instantiate;
use xworks_freelance_contract::chain::{Coin, CosmosMsg, Env, MessageInfo, Response};
use xworks_freelance_contract::contract::{execute, query, QueryAnswer};
use xworks_freelance_contract::error::{ContractError, StdError};
use xworks_freelance_contract::hash_utils::{create_job_content_bundle, FieldValue, OffChainBundle};
use xworks_freelance_contract::msg::{ExecuteMsg, InstantiateMsg, QueryMsg};
use xworks_freelance_contract::state::ContractState;

/// The block time of the standard test environment, in nanoseconds.
const MOCK_TIME: u64 = 1_571_797_419_879_305_533;

fn mock_env() -> Env {
    Env { time: MOCK_TIME, height: 12_345 }
}

fn env_plus_seconds(env: &Env, seconds: u64) -> Env {
    Env { time: env.time + seconds * 1_000_000_000, height: env.height + 1 }
}

fn coins(amount: u128, denom: &str) -> Vec<Coin> {
    vec![Coin { denom: denom.to_string(), amount }]
}

fn mock_info(sender: &str, funds: &[Coin]) -> MessageInfo {
    MessageInfo { sender: sender.to_string(), funds: funds.to_vec() }
}

fn instantiate_msg(admin: &str) -> InstantiateMsg {
    InstantiateMsg {
        admin: Some(admin.to_string()),
        platform_fee_percent: Some(5),
        min_escrow_amount: Some(1000),
        dispute_period_days: Some(7),
        max_job_duration_days: Some(365),
    }
}

fn instantiate_state(env: &Env, info: &MessageInfo, msg: InstantiateMsg) -> Result<(ContractState, Response), ContractError> {
    instantiate(env, info, msg, "0.1.0")
}

/// The bundle as JSON text, in the field order the contract publishes it.
fn bundle_json(bundle: &OffChainBundle) -> String {
    let mut data = serde_json::Map::new();
    for (name, value) in &bundle.data.fields {
        let v = match value {
            FieldValue::Text(t) => Value::String(t.clone()),
            FieldValue::TextList(l) => Value::Array(l.iter().map(|s| Value::String(s.clone())).collect()),
            FieldValue::Milestones(m) => Value::Array(m.iter().map(|p| Value::String(p.title.clone())).collect()),
        };
        data.insert(name.clone(), v);
    }
    let mut top = serde_json::Map::new();
    top.insert("id".to_string(), Value::String(bundle.id.clone()));
    top.insert("content_type".to_string(), Value::String(bundle.content_type.clone()));
    top.insert("data".to_string(), Value::Object(data));
    top.insert("entity_type".to_string(), Value::String(bundle.metadata.entity_type.clone()));
    top.insert("created_at".to_string(), Value::from(bundle.metadata.created_at));
    serde_json::to_string(&Value::Object(top)).unwrap()
}

/// The content text that accompanies `msg`: the job bundle for a posting, an empty object otherwise.
fn content_for(state: &ContractState, env: &Env, msg: &ExecuteMsg) -> String {
    match msg {
        ExecuteMsg::PostJob { title, description, category, skills_required, documents, .. } => {
            let docs = documents.clone().unwrap_or_default();
            let bundle = create_job_content_bundle(
                state.next_job_id,
                title,
                description,
                None,
                None,
                category,
                skills_required,
                &docs,
                env.time / 1_000_000_000,
            )
            .unwrap();
            bundle_json(&bundle)
        }
        _ => "{}".to_string(),
    }
}

fn execute_msg(state: &mut ContractState, env: Env, info: MessageInfo, msg: ExecuteMsg) -> Result<Response, ContractError> {
    let content = content_for(state, &env, &msg);
    let hook = Err(StdError::ParseErr { target_type: "EscrowHookMsg".to_string(), msg: "EOF".to_string() });
    execute(state, &env, &info, msg, &content, "", hook)
}

fn query_msg(state: &ContractState, msg: QueryMsg) -> Result<QueryAnswer, StdError> {
    query(state, msg)
}

fn bank_payment(msg: &CosmosMsg) -> (String, u128) {
    match msg {
        CosmosMsg::BankSend { to_address, amount, .. } => (to_address.clone(), *amount),
        CosmosMsg::Cw20Transfer { recipient, amount, .. } => (recipient.clone(), *amount),
    }
}
use xworks_freelance_contract::state::JobStatus;

const ADMIN: &str = "admin";
const CLIENT1: &str = "client1";
const CLIENT2: &str = "client2";
const FREELANCER1: &str = "freelancer1";
const FREELANCER2: &str = "freelancer2";

fn setup_contract() -> (ContractState, Env) {
    let env = mock_env();
    let (state, _) = instantiate_state(&env, &mock_info(ADMIN, &[]), instantiate_msg(ADMIN)).unwrap();
    (state, env)
}

fn job(title: &str, description: &str, budget: u128, category: &str, skills: Vec<String>, duration_days: u64) -> ExecuteMsg {
    ExecuteMsg::PostJob {
        title: title.to_string(),
        description: description.to_string(),
        budget,
        category: category.to_string(),
        skills_required: skills,
        duration_days,
        documents: None,
        milestones: None,
    }
}

fn proposal(job_id: u64, cover_letter: &str, delivery_time_days: u64) -> ExecuteMsg {
    ExecuteMsg::SubmitProposal { job_id, cover_letter: cover_letter.to_string(), delivery_time_days, milestones: None }
}

#[test]
fn test_concurrent_multiple_jobs() {
    let (mut state, env) = setup_contract();

    let client1_info = mock_info(CLIENT1, &coins(5000, "uxion"));
    let job1 = job("E-commerce Platform", "Build a full e-commerce solution", 5000, "Web Development", vec!["React".to_string(), "Node.js".to_string()], 60);
    execute_msg(&mut state, env, client1_info.clone(), job1).unwrap();

    let client2_info = mock_info(CLIENT2, &coins(3000, "uxion"));
    let job2 = job("Mobile Game", "Develop a 2D mobile game", 3000, "Game Development", vec!["Unity".to_string(), "C#".to_string()], 45);
    execute_msg(&mut state, env, client2_info.clone(), job2).unwrap();

    let freelancer1_info = mock_info(FREELANCER1, &[]);
    execute_msg(&mut state, env, freelancer1_info.clone(), proposal(0, "Expert in React and Node.js with e-commerce experience", 55)).unwrap();

    let freelancer2_info = mock_info(FREELANCER2, &[]);
    execute_msg(&mut state, env, freelancer2_info.clone(), proposal(1, "Unity game developer with 4 years experience", 40)).unwrap();

    execute_msg(&mut state, env, client1_info.clone(), ExecuteMsg::AcceptProposal { job_id: 0, proposal_id: 0 }).unwrap();
    execute_msg(&mut state, env, client2_info.clone(), ExecuteMsg::AcceptProposal { job_id: 1, proposal_id: 1 }).unwrap();

    let j1 = state.jobs.get(&0).unwrap().clone();
    assert_eq!(j1.status, JobStatus::InProgress);
    assert_eq!(j1.assigned_freelancer, Some(FREELANCER1.to_string()));

    let j2 = state.jobs.get(&1).unwrap().clone();
    assert_eq!(j2.status, JobStatus::InProgress);
    assert_eq!(j2.assigned_freelancer, Some(FREELANCER2.to_string()));

    execute_msg(&mut state, env, mock_info(CLIENT1, &coins(5000, "uxion")), ExecuteMsg::CreateEscrowNative { job_id: 0, amount: 5000 }).unwrap();
    execute_msg(&mut state, env, mock_info(CLIENT2, &coins(3000, "uxion")), ExecuteMsg::CreateEscrowNative { job_id: 1, amount: 3000 }).unwrap();

    // Completion notes and deliverables are published off-chain; the message names the job.
    execute_msg(&mut state, env, freelancer1_info, ExecuteMsg::CompleteJob { job_id: 0 }).unwrap();
    execute_msg(&mut state, env, freelancer2_info, ExecuteMsg::CompleteJob { job_id: 1 }).unwrap();

    assert_eq!(state.jobs.get(&0).unwrap().status, JobStatus::Completed);
    assert_eq!(state.jobs.get(&1).unwrap().status, JobStatus::Completed);
}

#[test]
fn test_cross_user_interactions() {
    let (mut state, env) = setup_contract();

    let client1_info = mock_info(CLIENT1, &coins(2000, "uxion"));
    let post = job("Logo Design", "Need a professional logo design", 2000, "Design", vec!["Graphic Design".to_string()], 10);
    execute_msg(&mut state, env, client1_info.clone(), post).unwrap();

    let freelancer1_info = mock_info(FREELANCER1, &[]);
    execute_msg(&mut state, env, freelancer1_info, proposal(0, "Professional graphic designer with 6 years experience", 7)).unwrap();

    let client2_info = mock_info(CLIENT2, &[]);
    let result = execute_msg(&mut state, env, client2_info, ExecuteMsg::AcceptProposal { job_id: 0, proposal_id: 0 });
    assert!(result.is_err());

    let freelancer2_info = mock_info(FREELANCER2, &[]);
    execute_msg(&mut state, env, client1_info, ExecuteMsg::AcceptProposal { job_id: 0, proposal_id: 0 }).unwrap();

    let result = execute_msg(&mut state, env, freelancer2_info, ExecuteMsg::CompleteJob { job_id: 0 });
    assert!(result.is_err());
}

#[test]
fn test_rating_and_reputation_workflow() {
    let (mut state, env) = setup_contract();

    let client_info = mock_info(CLIENT1, &coins(2500, "uxion"));
    let post = job("Data Analysis", "Analyze sales data and create report", 2500, "Data Science", vec!["Python".to_string(), "Pandas".to_string()], 14);
    execute_msg(&mut state, env, client_info.clone(), post).unwrap();

    let freelancer_info = mock_info(FREELANCER1, &[]);
    execute_msg(&mut state, env, freelancer_info.clone(), proposal(0, "Data scientist with expertise in Python and data visualization", 12)).unwrap();

    execute_msg(&mut state, env, client_info.clone(), ExecuteMsg::AcceptProposal { job_id: 0, proposal_id: 0 }).unwrap();

    execute_msg(&mut state, env, mock_info(CLIENT1, &coins(2500, "uxion")), ExecuteMsg::CreateEscrowNative { job_id: 0, amount: 2500 }).unwrap();

    execute_msg(&mut state, env, freelancer_info.clone(), ExecuteMsg::CompleteJob { job_id: 0 }).unwrap();

    let client_rating_msg = ExecuteMsg::SubmitRating { job_id: 0, rating: 5, comment: "Outstanding work, very detailed analysis!".to_string() };
    execute_msg(&mut state, env, client_info, client_rating_msg).unwrap();

    let freelancer_rating_msg = ExecuteMsg::SubmitRating {
        job_id: 0,
        rating: 4,
        comment: "Good client, but requirements could have been clearer".to_string(),
    };
    execute_msg(&mut state, env, freelancer_info, freelancer_rating_msg).unwrap();

    assert_eq!(state.ratings.len(), 2);
}
