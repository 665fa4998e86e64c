#![allow(dead_code, unused_variables)]
use serde_json::Value;
use xworks_freelance_contract::admin::instantiate;
use xworks_freelance_contract::chain::{Coin, CosmosMsg, Env, MessageInfo, Response};
use xworks_freelance_contract::contract::{execute, query, QueryAnswer};
use xworks_freelance_contract::error::{ContractError, StdError};
use xworks_freelance_contract::hash_utils::{create_job_content_bundle, FieldValue, OffChainBundle};
use xworks_freelance_contract::msg::{ExecuteMsg, InstantiateMsg, QueryMsg};
use xworks_freelance_contract::state::ContractState;

/// The block time of the standard test environment, in nanoseconds.
const MOCK_TIME: u64 = 1_571_797_419_879_305_533;

fn mock_env() -> Env {
    Env { time: MOCK_TIME, height: 12_345 }
}

fn env_plus_seconds(env: &Env, seconds: u64) -> Env {
    Env { time: env.time + seconds * 1_000_000_000, height: env.height + 1 }
}

fn coins(amount: u128, denom: &str) -> Vec<Coin> {
    vec![Coin { denom: denom.to_string(), amount }]
}

fn mock_info(sender: &str, funds: &[Coin]) -> MessageInfo {
    MessageInfo { sender: sender.to_string(), funds: funds.to_vec() }
}

fn instantiate_msg(admin: &str) -> InstantiateMsg {
    InstantiateMsg {
        admin: Some(admin.to_string()),
        platform_fee_percent: Some(5),
        min_escrow_amount: Some(1000),
        dispute_period_days: Some(7),
        max_job_duration_days: Some(365),
    }
}

fn instantiate_state(env: &Env, info: &MessageInfo, msg: InstantiateMsg) -> Result<(ContractState, Response), ContractError> {
    instantiate(env, info, msg, "0.1.0")
}

/// The bundle as JSON text, in the field order the contract publishes it.
fn bundle_json(bundle: &OffChainBundle) -> String {
    let mut data = serde_json::Map::new();
    for (name, value) in &bundle.data.fields {
        let v = match value {
            FieldValue::Text(t) => Value::String(t.clone()),
            FieldValue::TextList(l) => Value::Array(l.iter().map(|s| Value::String(s.clone())).collect()),
            FieldValue::Milestones(m) => Value::Array(m.iter().map(|p| Value::String(p.title.clone())).collect()),
        };
        data.insert(name.clone(), v);
    }
    let mut top = serde_json::Map::new();
    top.insert("id".to_string(), Value::String(bundle.id.clone()));
    top.insert("content_type".to_string(), Value::String(bundle.content_type.clone()));
    top.insert("data".to_string(), Value::Object(data));
    top.insert("entity_type".to_string(), Value::String(bundle.metadata.entity_type.clone()));
    top.insert("created_at".to_string(), Value::from(bundle.metadata.created_at));
    serde_json::to_string(&Value::Object(top)).unwrap()
}

/// The content text that accompanies `msg`: the job bundle for a posting, an empty object otherwise.
fn content_for(state: &ContractState, env: &Env, msg: &ExecuteMsg) -> String {
    match msg {
        ExecuteMsg::PostJob { title, description, category, skills_required, documents, .. } => {
            let docs = documents.clone().unwrap_or_default();
            let bundle = create_job_content_bundle(
                state.next_job_id,
                title,
                description,
                None,
                None,
                category,
                skills_required,
                &docs,
                env.time / 1_000_000_000,
            )
            .unwrap();
            bundle_json(&bundle)
        }
        _ => "{}".to_string(),
    }
}

fn execute_msg(state: &mut ContractState, env: Env, info: MessageInfo, msg: ExecuteMsg) -> Result<Response, ContractError> {
    let content = content_for(state, &env, &msg);
    let hook = Err(StdError::ParseErr { target_type: "EscrowHookMsg".to_string(), msg: "EOF".to_string() });
    execute(state, &env, &info, msg, &content, "", hook)
}

fn query_msg(state: &ContractState, msg: QueryMsg) -> Result<QueryAnswer, StdError> {
    query(state, msg)
}

fn bank_payment(msg: &CosmosMsg) -> (String, u128) {
    match msg {
        CosmosMsg::BankSend { to_address, amount, .. } => (to_address.clone(), *amount),
        CosmosMsg::Cw20Transfer { recipient, amount, .. } => (recipient.clone(), *amount),
    }
}
use xworks_freelance_contract::job_management;
use xworks_freelance_contract::state::JobStatus;
use xworks_freelance_contract::user_management;

fn setup() -> (ContractState, Env) {
    let env = mock_env();
    let (state, _) = instantiate_state(&env, &mock_info("admin", &[]), instantiate_msg("admin")).unwrap();
    (state, env)
}

fn post(state: &mut ContractState, env: Env, client: &str) {
    let msg = ExecuteMsg::PostJob {
        title: "Test Job".to_string(),
        description: "A job to be done".to_string(),
        budget: 5000,
        category: "Development".to_string(),
        skills_required: vec!["Rust".to_string()],
        duration_days: 30,
        documents: None,
        milestones: None,
    };
    execute_msg(state, env, mock_info(client, &[]), msg).unwrap();
}

fn propose(state: &mut ContractState, env: Env, freelancer: &str, job_id: u64) {
    let msg = ExecuteMsg::SubmitProposal { job_id, cover_letter: "My proposal".to_string(), delivery_time_days: 10, milestones: None };
    execute_msg(state, env, mock_info(freelancer, &[]), msg).unwrap();
}

#[test]
fn accepting_by_proposal_assigns_its_freelancer() {
    let (mut state, env) = setup();
    post(&mut state, env, "client");
    propose(&mut state, env, "alice", 0);
    propose(&mut state, env, "bob", 0);

    let err = job_management::execute_accept_proposal(&mut state, &env, &mock_info("bob", &[]), 1);
    assert_eq!(err, Err(ContractError::Unauthorized {}));
    let missing = job_management::execute_accept_proposal(&mut state, &env, &mock_info("client", &[]), 9);
    assert_eq!(missing, Err(ContractError::Std(StdError::NotFound { kind: "Proposal".to_string() })));

    let resp = job_management::execute_accept_proposal(&mut state, &env, &mock_info("client", &[]), 1).unwrap();
    let job = state.jobs.get(&0).unwrap();
    assert_eq!(job.status, JobStatus::InProgress);
    assert_eq!(job.assigned_freelancer, Some("bob".to_string()));
    let pairs: Vec<(String, String)> = resp.attributes.iter().map(|a| (a.key.clone(), a.value.clone())).collect();
    assert_eq!(
        pairs,
        vec![
            ("method".to_string(), "accept_proposal".to_string()),
            ("id".to_string(), "1".to_string()),
            ("user".to_string(), "client".to_string()),
            ("job_id".to_string(), "0".to_string()),
            ("freelancer".to_string(), "bob".to_string()),
        ]
    );

    let again = job_management::execute_accept_proposal(&mut state, &env, &mock_info("client", &[]), 0);
    assert_eq!(again, Err(ContractError::InvalidInput { error: "Cannot accept proposal for job with status InProgress".to_string() }));
}

#[test]
fn completing_pays_the_whole_budget_in_uusdc() {
    let (mut state, env) = setup();
    post(&mut state, env, "client");
    propose(&mut state, env, "alice", 0);
    job_management::execute_accept_proposal(&mut state, &env, &mock_info("client", &[]), 0).unwrap();

    let wrong = job_management::execute_complete_job(&mut state, &env, &mock_info("client", &[]), 0, None);
    assert_eq!(wrong, Err(ContractError::Unauthorized {}));

    let resp = job_management::execute_complete_job(&mut state, &env, &mock_info("alice", &[]), 0, Some("done".to_string())).unwrap();
    assert_eq!(state.jobs.get(&0).unwrap().status, JobStatus::Completed);
    assert_eq!(
        resp.messages,
        vec![CosmosMsg::BankSend { to_address: "alice".to_string(), denom: "uusdc".to_string(), amount: 5000 }]
    );
    assert_eq!(resp.attributes.last().unwrap().value, "5000");

    let twice = job_management::execute_complete_job(&mut state, &env, &mock_info("alice", &[]), 0, None);
    assert_eq!(twice, Err(ContractError::InvalidInput { error: "Cannot complete job with status Completed".to_string() }));
}

#[test]
fn proposals_are_listed_newest_first() {
    let (mut state, env) = setup();
    post(&mut state, env, "client");
    post(&mut state, env, "client");
    propose(&mut state, env, "alice", 0);
    propose(&mut state, env, "bob", 1);
    propose(&mut state, env, "carol", 0);
    propose(&mut state, env, "alice", 1);

    let for_job: Vec<u64> = job_management::query_job_proposals(&state, 0).proposals.iter().map(|p| p.id).collect();
    assert_eq!(for_job, vec![2, 0]);
    let by_alice: Vec<u64> = job_management::query_user_proposals(&state, "alice", None).proposals.iter().map(|p| p.id).collect();
    assert_eq!(by_alice, vec![3, 0]);
    assert!(job_management::query_user_proposals(&state, "dave", None).proposals.is_empty());
}

#[test]
fn rating_a_named_party_updates_their_average() {
    let (mut state, env) = setup();
    post(&mut state, env, "client");
    propose(&mut state, env, "alice", 0);
    job_management::execute_accept_proposal(&mut state, &env, &mock_info("client", &[]), 0).unwrap();

    let early = user_management::execute_submit_rating(&mut state, &env, &mock_info("client", &[]), 0, "alice", 4, None);
    assert_eq!(early, Err(ContractError::InvalidInput { error: "Job must be completed to submit rating".to_string() }));
    assert!(state.ratings.get("0_client").is_none());
    job_management::execute_complete_job(&mut state, &env, &mock_info("alice", &[]), 0, None).unwrap();

    let outsider = user_management::execute_submit_rating(&mut state, &env, &mock_info("client", &[]), 0, "mallory", 5, None);
    assert_eq!(outsider, Err(ContractError::InvalidInput { error: "Rated user is not involved in this job".to_string() }));
    let own = user_management::execute_submit_rating(&mut state, &env, &mock_info("client", &[]), 0, "client", 5, None);
    assert_eq!(own, Err(ContractError::InvalidInput { error: "Cannot rate yourself".to_string() }));
    let zero = user_management::execute_submit_rating(&mut state, &env, &mock_info("client", &[]), 0, "alice", 0, None);
    assert_eq!(zero, Err(ContractError::InvalidInput { error: "Rating must be between 1 and 5".to_string() }));

    user_management::execute_submit_rating(&mut state, &env, &mock_info("client", &[]), 0, "alice", 4, Some("good".to_string())).unwrap();
    let stats = state.user_stats.get("alice").unwrap();
    assert_eq!(stats.total_ratings, 1);
    assert_eq!(stats.average_rating.atomics, 4_000_000_000_000_000_000);
    let stored = state.ratings.get("0_client").unwrap();
    assert_eq!(stored.rating, 4);
    assert_eq!(stored.comment, "good");

    let again = user_management::execute_submit_rating(&mut state, &env, &mock_info("client", &[]), 0, "alice", 5, None);
    assert_eq!(again, Err(ContractError::InvalidInput { error: "You have already rated this job".to_string() }));

    user_management::execute_submit_rating(&mut state, &env, &mock_info("alice", &[]), 0, "client", 3, None).unwrap();
    let received: Vec<String> = user_management::query_user_ratings(&state, "client").ratings.iter().map(|r| r.id.clone()).collect();
    assert_eq!(received, vec!["0_alice".to_string()]);
    assert!(user_management::query_user_ratings(&state, "mallory").ratings.is_empty());
}
