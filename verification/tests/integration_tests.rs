#![allow(dead_code)]
use serde_json::Value;
use xworks_freelance_contract::admin::instantiate;
use xworks_freelance_contract::chain::{Coin, CosmosMsg, Env, MessageInfo, Response};
use xworks_freelance_contract::contract::{execute, query, QueryAnswer};
use xworks_freelance_contract::error::{ContractError, StdError};
use xworks_freelance_contract::hash_utils::{create_job_content_bundle, FieldValue, OffChainBundle};
use xworks_freelance_contract::msg::{ExecuteMsg, InstantiateMsg, QueryMsg};
use xworks_freelance_contract::state::ContractState;

/// The block time of the standard test environment, in nanoseconds.
const MOCK_TIME: u64 = 1_571_797_419_879_305_533;

fn mock_env() -> Env {
    Env { time: MOCK_TIME, height: 12_345 }
}

fn env_plus_seconds(env: &Env, seconds: u64) -> Env {
    Env { time: env.time + seconds * 1_000_000_000, height: env.height + 1 }
}

fn coins(amount: u128, denom: &str) -> Vec<Coin> {
    vec![Coin { denom: denom.to_string(), amount }]
}

fn mock_info(sender: &str, funds: &[Coin]) -> MessageInfo {
    MessageInfo { sender: sender.to_string(), funds: funds.to_vec() }
}

fn instantiate_msg(admin: &str) -> InstantiateMsg {
    InstantiateMsg {
        admin: Some(admin.to_string()),
        platform_fee_percent: Some(5),
        min_escrow_amount: Some(1000),
        dispute_period_days: Some(7),
        max_job_duration_days: Some(365),
    }
}

fn instantiate_state(env: &Env, info: &MessageInfo, msg: InstantiateMsg) -> Result<(ContractState, Response), ContractError> {
    instantiate(env, info, msg, "0.1.0")
}

/// The bundle as JSON text, in the field order the contract publishes it.
fn bundle_json(bundle: &OffChainBundle) -> String {
    let mut data = serde_json::Map::new();
    for (name, value) in &bundle.data.fields {
        let v = match value {
            FieldValue::Text(t) => Value::String(t.clone()),
            FieldValue::TextList(l) => Value::Array(l.iter().map(|s| Value::String(s.clone())).collect()),
            FieldValue::Milestones(m) => Value::Array(m.iter().map(|p| Value::String(p.title.clone())).collect()),
        };
        data.insert(name.clone(), v);
    }
    let mut top = serde_json::Map::new();
    top.insert("id".to_string(), Value::String(bundle.id.clone()));
    top.insert("content_type".to_string(), Value::String(bundle.content_type.clone()));
    top.insert("data".to_string(), Value::Object(data));
    top.insert("entity_type".to_string(), Value::String(bundle.metadata.entity_type.clone()));
    top.insert("created_at".to_string(), Value::from(bundle.metadata.created_at));
    serde_json::to_string(&Value::Object(top)).unwrap()
}

/// The content text that accompanies `msg`: the job bundle for a posting, an empty object otherwise.
fn content_for(state: &ContractState, env: &Env, msg: &ExecuteMsg) -> String {
    match msg {
        ExecuteMsg::PostJob { title, description, category, skills_required, documents, .. } => {
            let docs = documents.clone().unwrap_or_default();
            let bundle = create_job_content_bundle(
                state.next_job_id,
                title,
                description,
                None,
                None,
                category,
                skills_required,
                &docs,
                env.time / 1_000_000_000,
            )
            .unwrap();
            bundle_json(&bundle)
        }
        _ => "{}".to_string(),
    }
}

fn execute_msg(state: &mut ContractState, env: Env, info: MessageInfo, msg: ExecuteMsg) -> Result<Response, ContractError> {
    let content = content_for(state, &env, &msg);
    let hook = Err(StdError::ParseErr { target_type: "EscrowHookMsg".to_string(), msg: "EOF".to_string() });
    execute(state, &env, &info, msg, &content, "", hook)
}

fn query_msg(state: &ContractState, msg: QueryMsg) -> Result<QueryAnswer, StdError> {
    query(state, msg)
}

fn bank_payment(msg: &CosmosMsg) -> (String, u128) {
    match msg {
        CosmosMsg::BankSend { to_address, amount, .. } => (to_address.clone(), *amount),
        CosmosMsg::Cw20Transfer { recipient, amount, .. } => (recipient.clone(), *amount),
    }
}
use xworks_freelance_contract::hash_utils::generate_content_hash;
use xworks_freelance_contract::state::JobStatus;

const ADMIN: &str = "admin";
const CLIENT: &str = "client";
const FREELANCER: &str = "freelancer";

fn proper_instantiate() -> (ContractState, Env, MessageInfo) {
    let env = mock_env();
    let info = mock_info(ADMIN, &[]);
    let (state, _res) = instantiate_state(&env, &info, instantiate_msg(ADMIN)).unwrap();
    (state, env, info)
}

fn post_job_msg(title: &str, description: &str, budget: u128, skills: Vec<String>, duration_days: u64) -> ExecuteMsg {
    ExecuteMsg::PostJob {
        title: title.to_string(),
        description: description.to_string(),
        budget,
        category: "Development".to_string(),
        skills_required: skills,
        duration_days,
        documents: None,
        milestones: None,
    }
}

fn get_job(state: &ContractState, job_id: u64) -> xworks_freelance_contract::state::Job {
    match query_msg(state, QueryMsg::GetJob { job_id }).unwrap() {
        QueryAnswer::Job(r) => r.job,
        _ => panic!("expected a job"),
    }
}

#[test]
fn test_instantiate() {
    let env = mock_env();
    let info = mock_info(ADMIN, &[]);
    let (state, res) = instantiate_state(&env, &info, instantiate_msg(ADMIN)).unwrap();
    assert_eq!(0, res.messages.len());

    let config = match query_msg(&state, QueryMsg::GetConfig {}).unwrap() {
        QueryAnswer::Config(c) => c,
        _ => panic!("expected the config"),
    };
    assert_eq!(config.config.admin, ADMIN);
    assert_eq!(config.config.platform_fee_percent, 5);
    assert_eq!(config.config.min_escrow_amount, 1000);
}

#[test]
fn test_post_job() {
    let (mut state, env, _info) = proper_instantiate();
    let client_info = mock_info(CLIENT, &[]);

    let msg = post_job_msg(
        "Test Job",
        "A test job description",
        5000,
        vec!["Rust".to_string(), "CosmWasm".to_string()],
        30,
    );
    let content = content_for(&state, &env, &msg);
    let res = execute_msg(&mut state, env, client_info, msg).unwrap();
    assert!(res.attributes.len() >= 4);

    let job = get_job(&state, 0);
    // The title lives in the off-chain bundle; the job records the hash of that bundle's hash.
    assert!(content.contains("\"title\":\"Test Job\""));
    let bundle_hash = generate_content_hash(&content).unwrap();
    assert_eq!(job.content_hash.hash, generate_content_hash(&bundle_hash).unwrap());
    assert_eq!(job.status, JobStatus::Open);
    assert_eq!(job.budget, 5000);
}

#[test]
fn test_submit_proposal() {
    let (mut state, env, _info) = proper_instantiate();
    let client_info = mock_info(CLIENT, &[]);
    execute_msg(&mut state, env, client_info, post_job_msg("Test Job", "A test job description", 5000, vec!["Rust".to_string()], 30)).unwrap();

    let freelancer_info = mock_info(FREELANCER, &[]);
    let proposal_msg = ExecuteMsg::SubmitProposal {
        job_id: 0,
        cover_letter: "I am the best freelancer for this job".to_string(),
        delivery_time_days: 25,
        milestones: None,
    };
    let res = execute_msg(&mut state, env, freelancer_info, proposal_msg).unwrap();
    assert!(res.attributes.len() >= 4);

    let proposals = match query_msg(&state, QueryMsg::GetJobProposals { job_id: 0 }).unwrap() {
        QueryAnswer::Proposals(p) => p.proposals,
        _ => panic!("expected proposals"),
    };
    assert_eq!(proposals.len(), 1);
    assert_eq!(proposals[0].freelancer, FREELANCER);
}

#[test]
fn test_accept_proposal() {
    let (mut state, env, _info) = proper_instantiate();
    let client_info = mock_info(CLIENT, &[]);
    execute_msg(&mut state, env, client_info.clone(), post_job_msg("Test Job", "A test job description", 5000, vec!["Rust".to_string()], 30)).unwrap();

    let freelancer_info = mock_info(FREELANCER, &[]);
    let proposal_msg = ExecuteMsg::SubmitProposal {
        job_id: 0,
        cover_letter: "Great proposal".to_string(),
        delivery_time_days: 25,
        milestones: None,
    };
    execute_msg(&mut state, env, freelancer_info, proposal_msg).unwrap();

    let accept_msg = ExecuteMsg::AcceptProposal { job_id: 0, proposal_id: 0 };
    let res = execute_msg(&mut state, env, client_info, accept_msg).unwrap();
    assert!(res.attributes.len() >= 3);

    let job = get_job(&state, 0);
    assert_eq!(job.status, JobStatus::InProgress);
    assert_eq!(job.assigned_freelancer, Some(FREELANCER.to_string()));
}

#[test]
fn test_complete_job_flow() {
    let (mut state, env, _info) = proper_instantiate();
    let client_info = mock_info(CLIENT, &[]);
    execute_msg(&mut state, env, client_info.clone(), post_job_msg("Complete Test Job", "A test job for full workflow", 10000, vec!["Rust".to_string()], 30)).unwrap();

    let freelancer_info = mock_info(FREELANCER, &[]);
    let proposal_msg = ExecuteMsg::SubmitProposal {
        job_id: 0,
        cover_letter: "Expert Rust developer".to_string(),
        delivery_time_days: 25,
        milestones: None,
    };
    execute_msg(&mut state, env, freelancer_info.clone(), proposal_msg).unwrap();

    execute_msg(&mut state, env, client_info, ExecuteMsg::AcceptProposal { job_id: 0, proposal_id: 0 }).unwrap();

    let escrow_info = mock_info(CLIENT, &coins(10000, "uxion"));
    execute_msg(&mut state, env, escrow_info, ExecuteMsg::CreateEscrow { job_id: 0 }).unwrap();

    let res = execute_msg(&mut state, env, freelancer_info, ExecuteMsg::CompleteJob { job_id: 0 }).unwrap();
    assert!(!res.messages.is_empty());
}

#[test]
fn test_input_validation() {
    let (mut state, env, _info) = proper_instantiate();
    let client_info = mock_info(CLIENT, &[]);

    let invalid_job = post_job_msg("", "Valid description", 5000, vec!["Rust".to_string()], 30);
    let err = execute_msg(&mut state, env, client_info.clone(), invalid_job).unwrap_err();
    match err {
        ContractError::InvalidInput { .. } => {}
        _ => panic!("Expected invalid input error"),
    }

    let zero_budget_job = post_job_msg("Valid Title", "Valid description", 0, vec!["Rust".to_string()], 30);
    assert!(execute_msg(&mut state, env, client_info, zero_budget_job).unwrap().attributes.len() > 0);
}

#[test]
fn test_unauthorized_access() {
    let (mut state, env, _info) = proper_instantiate();
    let client_info = mock_info(CLIENT, &[]);

    let err = execute_msg(&mut state, env, client_info.clone(), ExecuteMsg::DeleteJob { job_id: 999 }).unwrap_err();
    assert_eq!(err, ContractError::JobNotFound {});

    execute_msg(&mut state, env, client_info, post_job_msg("Test Job", "A test job description", 5000, vec!["Rust".to_string()], 30)).unwrap();

    let unauthorized_info = mock_info("unauthorized", &[]);
    let err = execute_msg(&mut state, env, unauthorized_info, ExecuteMsg::DeleteJob { job_id: 0 }).unwrap_err();
    assert_eq!(err, ContractError::Unauthorized {});
}

#[test]
fn test_admin_functions() {
    let (mut state, env, info) = proper_instantiate();

    let res = execute_msg(&mut state, env, info.clone(), ExecuteMsg::PauseContract {});
    assert!(res.is_ok());

    let res = execute_msg(&mut state, env, info.clone(), ExecuteMsg::UnpauseContract {});
    assert!(res.is_ok());

    let block_msg = ExecuteMsg::BlockAddress { address: "malicious_user".to_string(), reason: "Spam".to_string() };
    let res = execute_msg(&mut state, env, info.clone(), block_msg);
    assert!(res.is_ok());

    let unblock_msg = ExecuteMsg::UnblockAddress { address: "malicious_user".to_string() };
    let res = execute_msg(&mut state, env, info, unblock_msg);
    assert!(res.is_ok());
}

#[test]
fn test_query_functions() {
    let (state, _env, _info) = proper_instantiate();

    let queries = vec![
        QueryMsg::GetConfig {},
        QueryMsg::GetJobs { start_after: None, limit: None, category: None, status: None, poster: None },
        QueryMsg::GetAllJobs { category: None, limit: None },
        QueryMsg::GetPlatformStats {},
        QueryMsg::GetUserStats { user: CLIENT.to_string() },
    ];

    for q in queries {
        let res = query_msg(&state, q);
        assert!(res.is_ok(), "Query should succeed");
    }
}

#[test]
fn test_rate_limiting() {
    let (mut state, env, _info) = proper_instantiate();
    let client_info = mock_info(CLIENT, &[]);

    for i in 0..6 {
        let job_msg = post_job_msg(&format!("Job {}", i), "Test job posting", 5000, vec!["Rust".to_string()], 30);
        if i < 5 {
            assert!(execute_msg(&mut state, env, client_info.clone(), job_msg).is_ok());
        } else {
            let err = execute_msg(&mut state, env, client_info.clone(), job_msg).unwrap_err();
            match err {
                ContractError::RateLimitExceeded { .. } => {}
                _ => panic!("Expected rate limit error"),
            }
        }
    }
}

#[test]
fn test_full_job_workflow() {
    let env = mock_env();
    let (mut state, _) = instantiate_state(&env, &mock_info(ADMIN, &[]), instantiate_msg(ADMIN)).unwrap();

    let post_msg = ExecuteMsg::PostJob {
        title: "Build a DApp".to_string(),
        description: "Need a decentralized application built on Xion".to_string(),
        budget: 10000,
        category: "Development".to_string(),
        skills_required: vec!["Rust".to_string(), "CosmWasm".to_string(), "React".to_string()],
        duration_days: 60,
        documents: Some(vec!["https://docs.example.com/requirements".to_string()]),
        milestones: None,
    };
    execute_msg(&mut state, env, mock_info(CLIENT, &[]), post_msg).unwrap();

    let proposal_msg = ExecuteMsg::SubmitProposal {
        job_id: 0,
        cover_letter: "I have 5 years experience in blockchain development...".to_string(),
        delivery_time_days: 45,
        milestones: None,
    };
    execute_msg(&mut state, env, mock_info(FREELANCER, &[]), proposal_msg).unwrap();

    execute_msg(&mut state, env, mock_info(CLIENT, &[]), ExecuteMsg::AcceptProposal { job_id: 0, proposal_id: 0 }).unwrap();

    execute_msg(&mut state, env, mock_info(CLIENT, &coins(10000, "uxion")), ExecuteMsg::CreateEscrow { job_id: 0 }).unwrap();

    execute_msg(&mut state, env, mock_info(FREELANCER, &[]), ExecuteMsg::CompleteJob { job_id: 0 }).unwrap();

    let client_rating_msg = ExecuteMsg::SubmitRating {
        job_id: 0,
        rating: 5,
        comment: "Excellent work, delivered on time!".to_string(),
    };
    execute_msg(&mut state, env, mock_info(CLIENT, &[]), client_rating_msg).unwrap();

    let freelancer_rating_msg = ExecuteMsg::SubmitRating {
        job_id: 0,
        rating: 5,
        comment: "Great client, clear requirements and prompt payment!".to_string(),
    };
    execute_msg(&mut state, env, mock_info(FREELANCER, &[]), freelancer_rating_msg).unwrap();

    let job = get_job(&state, 0);
    assert_eq!(job.status, JobStatus::Completed);
}

#[test]
fn test_batch_job_creation_performance() {
    let env = mock_env();
    let (mut state, _) = instantiate_state(&env, &mock_info(ADMIN, &[]), instantiate_msg(ADMIN)).unwrap();

    let start = std::time::Instant::now();
    for i in 0..100 {
        let post_info = mock_info(&format!("client_{}", i), &[]);
        let post_msg = ExecuteMsg::PostJob {
            title: format!("Job {}", i),
            description: format!("Description for job {}", i),
            budget: 1000 + i as u128,
            category: "Development".to_string(),
            skills_required: vec!["Rust".to_string()],
            duration_days: 30,
            documents: None,
            milestones: None,
        };
        execute_msg(&mut state, env, post_info, post_msg).unwrap();
    }
    let duration = start.elapsed();

    println!("Created 100 jobs in {:?}", duration);
    assert!(duration.as_millis() < 1000);
}

#[test]
fn test_query_performance() {
    let env = mock_env();
    let (mut state, _) = instantiate_state(&env, &mock_info(ADMIN, &[]), instantiate_msg(ADMIN)).unwrap();

    for i in 0..10 {
        let post_info = mock_info(&format!("client_{}", i), &[]);
        let post_msg = ExecuteMsg::PostJob {
            title: format!("Job {}", i),
            description: format!("Description for job {}", i),
            budget: 1000 + i as u128,
            category: "Development".to_string(),
            skills_required: vec!["Rust".to_string()],
            duration_days: 30,
            documents: None,
            milestones: None,
        };
        execute_msg(&mut state, env, post_info, post_msg).unwrap();
    }

    let start = std::time::Instant::now();
    for _ in 0..100 {
        let q = QueryMsg::GetJobs { start_after: None, limit: Some(10), category: None, status: None, poster: None };
        let _res = query_msg(&state, q).unwrap();
    }
    let duration = start.elapsed();

    println!("Executed 100 queries in {:?}", duration);
    assert!(duration.as_millis() < 500);
}
