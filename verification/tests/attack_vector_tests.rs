#![allow(dead_code, unused_variables)]
use serde_json::Value;
use xworks_freelance_contract::admin::instantiate;
use xworks_freelance_contract::chain::{Coin, CosmosMsg, Env, MessageInfo, Response};
use xworks_freelance_contract::contract::{execute, query, QueryAnswer};
use xworks_freelance_contract::error::{ContractError, StdError};
use xworks_freelance_contract::hash_utils::{create_job_content_bundle, FieldValue, OffChainBundle};
use xworks_freelance_contract::msg::{ExecuteMsg, InstantiateMsg, QueryMsg};
use xworks_freelance_contract::state::ContractState;

/// The block time of the standard test environment, in nanoseconds.
const MOCK_TIME: u64 = 1_571_797_419_879_305_533;

fn mock_env() -> Env {
    Env { time: MOCK_TIME, height: 12_345 }
}

fn env_plus_seconds(env: &Env, seconds: u64) -> Env {
    Env { time: env.time + seconds * 1_000_000_000, height: env.height + 1 }
}

fn coins(amount: u128, denom: &str) -> Vec<Coin> {
    vec![Coin { denom: denom.to_string(), amount }]
}

fn mock_info(sender: &str, funds: &[Coin]) -> MessageInfo {
    MessageInfo { sender: sender.to_string(), funds: funds.to_vec() }
}

fn instantiate_msg(admin: &str) -> InstantiateMsg {
    InstantiateMsg {
        admin: Some(admin.to_string()),
        platform_fee_percent: Some(5),
        min_escrow_amount: Some(1000),
        dispute_period_days: Some(7),
        max_job_duration_days: Some(365),
    }
}

fn instantiate_state(env: &Env, info: &MessageInfo, msg: InstantiateMsg) -> Result<(ContractState, Response), ContractError> {
    instantiate(env, info, msg, "0.1.0")
}

/// The bundle as JSON text, in the field order the contract publishes it.
fn bundle_json(bundle: &OffChainBundle) -> String {
    let mut data = serde_json::Map::new();
    for (name, value) in &bundle.data.fields {
        let v = match value {
            FieldValue::Text(t) => Value::String(t.clone()),
            FieldValue::TextList(l) => Value::Array(l.iter().map(|s| Value::String(s.clone())).collect()),
            FieldValue::Milestones(m) => Value::Array(m.iter().map(|p| Value::String(p.title.clone())).collect()),
        };
        data.insert(name.clone(), v);
    }
    let mut top = serde_json::Map::new();
    top.insert("id".to_string(), Value::String(bundle.id.clone()));
    top.insert("content_type".to_string(), Value::String(bundle.content_type.clone()));
    top.insert("data".to_string(), Value::Object(data));
    top.insert("entity_type".to_string(), Value::String(bundle.metadata.entity_type.clone()));
    top.insert("created_at".to_string(), Value::from(bundle.metadata.created_at));
    serde_json::to_string(&Value::Object(top)).unwrap()
}

/// The content text that accompanies `msg`: the job bundle for a posting, an empty object otherwise.
fn content_for(state: &ContractState, env: &Env, msg: &ExecuteMsg) -> String {
    match msg {
        ExecuteMsg::PostJob { title, description, category, skills_required, documents, .. } => {
            let docs = documents.clone().unwrap_or_default();
            let bundle = create_job_content_bundle(
                state.next_job_id,
                title,
                description,
                None,
                None,
                category,
                skills_required,
                &docs,
                env.time / 1_000_000_000,
            )
            .unwrap();
            bundle_json(&bundle)
        }
        _ => "{}".to_string(),
    }
}

fn execute_msg(state: &mut ContractState, env: Env, info: MessageInfo, msg: ExecuteMsg) -> Result<Response, ContractError> {
    let content = content_for(state, &env, &msg);
    let hook = Err(StdError::ParseErr { target_type: "EscrowHookMsg".to_string(), msg: "EOF".to_string() });
    execute(state, &env, &info, msg, &content, "", hook)
}

fn query_msg(state: &ContractState, msg: QueryMsg) -> Result<QueryAnswer, StdError> {
    query(state, msg)
}

fn bank_payment(msg: &CosmosMsg) -> (String, u128) {
    match msg {
        CosmosMsg::BankSend { to_address, amount, .. } => (to_address.clone(), *amount),
        CosmosMsg::Cw20Transfer { recipient, amount, .. } => (recipient.clone(), *amount),
    }
}
use xworks_freelance_contract::hash_utils::generate_content_hash;

const ADMIN: &str = "admin";
const CLIENT: &str = "client";
const FREELANCER: &str = "freelancer";
const ATTACKER: &str = "attacker";
const SPAMMER: &str = "spammer";

fn setup_contract() -> (ContractState, Env, MessageInfo) {
    let env = mock_env();
    let info = mock_info(ADMIN, &[]);
    let (state, _) = instantiate_state(&env, &info, instantiate_msg(ADMIN)).unwrap();
    (state, env, info)
}

fn job(title: &str, description: &str, budget: u128, category: &str, skill: &str, duration_days: u64) -> ExecuteMsg {
    ExecuteMsg::PostJob {
        title: title.to_string(),
        description: description.to_string(),
        budget,
        category: category.to_string(),
        skills_required: vec![skill.to_string()],
        duration_days,
        documents: None,
        milestones: None,
    }
}

fn proposal(job_id: u64, cover_letter: &str, delivery_time_days: u64) -> ExecuteMsg {
    // Proposals carry no bid amount in this contract's messages.
    ExecuteMsg::SubmitProposal { job_id, cover_letter: cover_letter.to_string(), delivery_time_days, milestones: None }
}

#[test]
fn test_spam_attack_prevention() {
    let (mut state, env, _) = setup_contract();
    let spammer_info = mock_info(SPAMMER, &coins(50000, "uxion"));

    let mut successful_jobs = 0;
    let mut failed_jobs = 0;
    for i in 0..20 {
        let msg = job(&format!("Spam Job {}", i), "Spam job description", 1000, "Spam", "Spam", 30);
        if execute_msg(&mut state, env, spammer_info.clone(), msg).is_ok() {
            successful_jobs += 1;
        } else {
            failed_jobs += 1;
        }
    }
    assert!(failed_jobs > 0, "Rate limiting should prevent spam");
    assert!(successful_jobs < 20, "Should not allow unlimited job posting");
}

#[test]
fn test_front_running_attack_protection() {
    let (mut state, env, _) = setup_contract();
    let client_info = mock_info(CLIENT, &coins(5000, "uxion"));

    let msg = job("Front Running Test", "Testing front running protection", 5000, "Security", "Security", 30);
    execute_msg(&mut state, env, client_info.clone(), msg).unwrap();

    execute_msg(&mut state, env, mock_info("freelancer1", &[]), proposal(0, "First proposal", 25)).unwrap();
    execute_msg(&mut state, env, mock_info("freelancer2", &[]), proposal(0, "Better proposal", 20)).unwrap();

    let result = execute_msg(&mut state, env, client_info, ExecuteMsg::AcceptProposal { job_id: 0, proposal_id: 0 });
    assert!(result.is_ok());

    let job = state.jobs.get(&0).unwrap();
    assert_eq!(job.assigned_freelancer.clone().unwrap().as_str(), "freelancer1");
}

#[test]
fn test_economic_attack_via_fee_manipulation() {
    let (mut state, env, _) = setup_contract();
    let attacker_info = mock_info(ATTACKER, &coins(100000, "uxion"));

    for i in 0..10 {
        let msg = job(&format!("Fee Attack Job {}", i), "Minimal job for fee manipulation", 1, "Attack", "Attack", 1);
        let result = execute_msg(&mut state, env, attacker_info.clone(), msg);
        if i > 5 {
            assert!(result.is_err(), "Should prevent fee manipulation attacks");
        }
    }
}

#[test]
fn test_state_corruption_attack() {
    let (mut state, env, _) = setup_contract();
    let attacker_info = mock_info(ATTACKER, &coins(10000, "uxion"));

    let msg = job("State Corruption Test", "Testing state corruption resistance", 5000, "Security", "Security", 30);
    let content = content_for(&state, &env, &msg);
    execute_msg(&mut state, env, attacker_info.clone(), msg).unwrap();

    let invalid_edit_msg = ExecuteMsg::EditJob {
        job_id: 999,
        title: Some("Hacked Title".to_string()),
        description: None,
        budget: Some(1),
        category: None,
        skills_required: None,
        duration_days: None,
        documents: None,
        milestones: None,
    };
    let result = execute_msg(&mut state, env, attacker_info.clone(), invalid_edit_msg);
    assert!(result.is_err());

    let invalid_accept_msg = ExecuteMsg::AcceptProposal { job_id: 0, proposal_id: 999 };
    let result = execute_msg(&mut state, env, attacker_info, invalid_accept_msg);
    assert!(result.is_err());

    // The title lives off-chain: the job still names the bundle posted with it.
    let job = state.jobs.get(&0).unwrap();
    assert!(content.contains("\"title\":\"State Corruption Test\""));
    let bundle_hash = generate_content_hash(&content).unwrap();
    assert_eq!(job.content_hash.hash, generate_content_hash(&bundle_hash).unwrap());
    assert_eq!(job.budget, 5000);
}

#[test]
fn test_privilege_escalation_attack() {
    let (mut state, env, _) = setup_contract();
    let attacker_info = mock_info(ATTACKER, &[]);

    let escalation_msg = ExecuteMsg::UpdateConfig {
        admin: Some(ATTACKER.to_string()),
        platform_fee_percent: Some(0),
        min_escrow_amount: Some(1),
        dispute_period_days: Some(1),
        max_job_duration_days: Some(1),
    };
    let result = execute_msg(&mut state, env, attacker_info.clone(), escalation_msg);
    assert!(matches!(result, Err(ContractError::Unauthorized {})));

    let result = execute_msg(&mut state, env, attacker_info.clone(), ExecuteMsg::PauseContract {});
    assert!(matches!(result, Err(ContractError::Unauthorized {})));

    let block_msg = ExecuteMsg::BlockAddress {
        address: CLIENT.to_string(),
        reason: "Malicious blocking attempt".to_string(),
    };
    let result = execute_msg(&mut state, env, attacker_info.clone(), block_msg);
    assert!(matches!(result, Err(ContractError::Unauthorized {})));

    let resolve_msg = ExecuteMsg::ResolveDispute {
        dispute_id: "fake_dispute".to_string(),
        resolution: "Malicious resolution".to_string(),
        release_to_freelancer: true,
    };
    let result = execute_msg(&mut state, env, attacker_info, resolve_msg);
    assert!(result.is_err());
}

#[test]
fn test_double_spending_attack() {
    let (mut state, env, _) = setup_contract();
    let client_info = mock_info(CLIENT, &coins(5000, "uxion"));
    let freelancer_info = mock_info(FREELANCER, &[]);

    let msg = job("Double Spend Test", "Testing double spending protection", 5000, "Security", "Security", 30);
    execute_msg(&mut state, env, client_info.clone(), msg).unwrap();
    execute_msg(&mut state, env, freelancer_info, proposal(0, "Test proposal", 25)).unwrap();
    execute_msg(&mut state, env, client_info.clone(), ExecuteMsg::AcceptProposal { job_id: 0, proposal_id: 0 }).unwrap();

    let create_escrow_msg = ExecuteMsg::CreateEscrowNative { job_id: 0, amount: 5000 };
    execute_msg(&mut state, env, client_info.clone(), create_escrow_msg.clone()).unwrap();

    let result = execute_msg(&mut state, env, client_info, create_escrow_msg);
    assert!(result.is_err(), "Should prevent double spending");
}

#[test]
fn test_timestamp_manipulation_attack() {
    let (mut state, env, _) = setup_contract();
    let client_info = mock_info(CLIENT, &coins(5000, "uxion"));

    let msg = job("Timestamp Test", "Testing timestamp manipulation", 5000, "Security", "Security", 1);
    execute_msg(&mut state, env, client_info, msg).unwrap();

    let later = env_plus_seconds(&env, 86400 * 2);
    let attacker_info = mock_info(ATTACKER, &[]);
    // Either outcome is acceptable; the call must return rather than panic.
    let result = execute_msg(&mut state, later, attacker_info, proposal(0, "Exploiting expired job", 1));
}

#[test]
fn test_storage_exhaustion_attack() {
    let (mut state, env, _) = setup_contract();
    let attacker_info = mock_info(ATTACKER, &coins(1000000, "uxion"));

    let mut created_jobs = 0;
    for i in 0..100 {
        let msg = ExecuteMsg::PostJob {
            title: format!("Storage Attack {}", i),
            description: "a".repeat(1000),
            budget: 1000,
            category: "Attack".to_string(),
            skills_required: vec!["Attack".to_string()],
            duration_days: 30,
            documents: Some(vec!["doc1".to_string(), "doc2".to_string()]),
            milestones: None,
        };
        if execute_msg(&mut state, env, attacker_info.clone(), msg).is_ok() {
            created_jobs += 1;
        } else {
            break;
        }
        if created_jobs > 10 {
            break;
        }
    }
    assert!(created_jobs < 100, "Storage exhaustion should be prevented");
}

#[test]
fn test_integer_overflow_attack() {
    let (mut state, env, _) = setup_contract();
    let attacker_info = mock_info(ATTACKER, &coins(u64::MAX as u128, "uxion"));

    let msg = job("Overflow Attack", "Testing integer overflow", u128::MAX, "Attack", "Math", 30);
    let result = execute_msg(&mut state, env, attacker_info.clone(), msg);

    if result.is_ok() {
        // Either outcome is acceptable; the call must return rather than panic.
        let result = execute_msg(&mut state, env, attacker_info, proposal(0, "Overflow proposal", u64::MAX));
    }
}

#[test]
fn test_resource_exhaustion_via_complex_queries() {
    let (state, _env, _) = setup_contract();

    assert!(state.jobs.get(&u64::MAX).is_none());
    assert!(state.proposals.get(&u64::MAX).is_none());
    assert!(state.escrows.get("non_existent").is_none());
}

#[test]
fn test_circular_reference_attack() {
    let (mut state, env, _) = setup_contract();
    let attacker_info = mock_info(ATTACKER, &coins(10000, "uxion"));

    let msg = job("Circular Reference Test", "Testing circular reference protection", 5000, "Security", "Security", 30);
    execute_msg(&mut state, env, attacker_info.clone(), msg).unwrap();

    // A poster cannot propose on their own job.
    let own = execute_msg(&mut state, env, attacker_info.clone(), proposal(0, "Circular test", 25));
    assert!(matches!(own, Err(ContractError::Unauthorized {})));

    let result = execute_msg(&mut state, env, attacker_info, ExecuteMsg::AcceptProposal { job_id: 0, proposal_id: 0 });
    assert!(result.is_err());
}
