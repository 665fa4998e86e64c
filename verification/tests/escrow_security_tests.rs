#![allow(dead_code, unused_variables)]
use serde_json::Value;
use xworks_freelance_contract::admin::instantiate;
use xworks_freelance_contract::chain::{Coin, CosmosMsg, Env, MessageInfo, Response};
use xworks_freelance_contract::contract::{execute, query, QueryAnswer};
use xworks_freelance_contract::error::{ContractError, StdError};
use xworks_freelance_contract::hash_utils::{create_job_content_bundle, FieldValue, OffChainBundle};
use xworks_freelance_contract::msg::{ExecuteMsg, InstantiateMsg, QueryMsg};
use xworks_freelance_contract::state::ContractState;

/// The block time of the standard test environment, in nanoseconds.
const MOCK_TIME: u64 = 1_571_797_419_879_305_533;

fn mock_env() -> Env {
    Env { time: MOCK_TIME, height: 12_345 }
}

fn env_plus_seconds(env: &Env, seconds: u64) -> Env {
    Env { time: env.time + seconds * 1_000_000_000, height: env.height + 1 }
}

fn coins(amount: u128, denom: &str) -> Vec<Coin> {
    vec![Coin { denom: denom.to_string(), amount }]
}

fn mock_info(sender: &str, funds: &[Coin]) -> MessageInfo {
    MessageInfo { sender: sender.to_string(), funds: funds.to_vec() }
}

fn instantiate_msg(admin: &str) -> InstantiateMsg {
    InstantiateMsg {
        admin: Some(admin.to_string()),
        platform_fee_percent: Some(5),
        min_escrow_amount: Some(1000),
        dispute_period_days: Some(7),
        max_job_duration_days: Some(365),
    }
}

fn instantiate_state(env: &Env, info: &MessageInfo, msg: InstantiateMsg) -> Result<(ContractState, Response), ContractError> {
    instantiate(env, info, msg, "0.1.0")
}

/// The bundle as JSON text, in the field order the contract publishes it.
fn bundle_json(bundle: &OffChainBundle) -> String {
    let mut data = serde_json::Map::new();
    for (name, value) in &bundle.data.fields {
        let v = match value {
            FieldValue::Text(t) => Value::String(t.clone()),
            FieldValue::TextList(l) => Value::Array(l.iter().map(|s| Value::String(s.clone())).collect()),
            FieldValue::Milestones(m) => Value::Array(m.iter().map(|p| Value::String(p.title.clone())).collect()),
        };
        data.insert(name.clone(), v);
    }
    let mut top = serde_json::Map::new();
    top.insert("id".to_string(), Value::String(bundle.id.clone()));
    top.insert("content_type".to_string(), Value::String(bundle.content_type.clone()));
    top.insert("data".to_string(), Value::Object(data));
    top.insert("entity_type".to_string(), Value::String(bundle.metadata.entity_type.clone()));
    top.insert("created_at".to_string(), Value::from(bundle.metadata.created_at));
    serde_json::to_string(&Value::Object(top)).unwrap()
}

/// The content text that accompanies `msg`: the job bundle for a posting, an empty object otherwise.
fn content_for(state: &ContractState, env: &Env, msg: &ExecuteMsg) -> String {
    match msg {
        ExecuteMsg::PostJob { title, description, category, skills_required, documents, .. } => {
            let docs = documents.clone().unwrap_or_default();
            let bundle = create_job_content_bundle(
                state.next_job_id,
                title,
                description,
                None,
                None,
                category,
                skills_required,
                &docs,
                env.time / 1_000_000_000,
            )
            .unwrap();
            bundle_json(&bundle)
        }
        _ => "{}".to_string(),
    }
}

fn execute_msg(state: &mut ContractState, env: Env, info: MessageInfo, msg: ExecuteMsg) -> Result<Response, ContractError> {
    let content = content_for(state, &env, &msg);
    let hook = Err(StdError::ParseErr { target_type: "EscrowHookMsg".to_string(), msg: "EOF".to_string() });
    execute(state, &env, &info, msg, &content, "", hook)
}

fn query_msg(state: &ContractState, msg: QueryMsg) -> Result<QueryAnswer, StdError> {
    query(state, msg)
}

fn bank_payment(msg: &CosmosMsg) -> (String, u128) {
    match msg {
        CosmosMsg::BankSend { to_address, amount, .. } => (to_address.clone(), *amount),
        CosmosMsg::Cw20Transfer { recipient, amount, .. } => (recipient.clone(), *amount),
    }
}
use xworks_freelance_contract::msg::MilestoneInput;
use xworks_freelance_contract::state::{DisputeStatus, JobStatus};

const ADMIN: &str = "admin";
const CLIENT: &str = "client";
const FREELANCER: &str = "freelancer";
const UNAUTHORIZED: &str = "unauthorized";

fn setup_contract() -> (ContractState, Env, MessageInfo) {
    let env = mock_env();
    let info = mock_info(ADMIN, &[]);
    let (state, _) = instantiate_state(&env, &info, instantiate_msg(ADMIN)).unwrap();
    (state, env, info)
}

fn setup_job_with_proposal(state: &mut ContractState, env: &Env) -> Result<(), ContractError> {
    let client_info = mock_info(CLIENT, &coins(5000, "uxion"));
    let freelancer_info = mock_info(FREELANCER, &[]);

    let job_msg = ExecuteMsg::PostJob {
        title: "Escrow Test Job".to_string(),
        description: "Testing escrow security".to_string(),
        budget: 5000,
        category: "Security".to_string(),
        skills_required: vec!["Security".to_string()],
        duration_days: 30,
        documents: None,
        milestones: None,
    };
    execute_msg(state, *env, client_info.clone(), job_msg)?;

    let proposal_msg = ExecuteMsg::SubmitProposal {
        job_id: 0,
        cover_letter: "Test proposal".to_string(),
        delivery_time_days: 25,
        milestones: None,
    };
    execute_msg(state, *env, freelancer_info, proposal_msg)?;

    execute_msg(state, *env, client_info, ExecuteMsg::AcceptProposal { job_id: 0, proposal_id: 0 })?;
    Ok(())
}

fn create_escrow_msg() -> ExecuteMsg {
    ExecuteMsg::CreateEscrowNative { job_id: 0, amount: 5000 }
}

#[test]
fn test_escrow_creation_security() {
    let (mut state, env, _) = setup_contract();
    setup_job_with_proposal(&mut state, &env).unwrap();

    let client_info = mock_info(CLIENT, &coins(5000, "uxion"));
    let unauthorized_info = mock_info(UNAUTHORIZED, &coins(5000, "uxion"));

    let result = execute_msg(&mut state, env, client_info.clone(), create_escrow_msg());
    assert!(result.is_ok());

    let result = execute_msg(&mut state, env, unauthorized_info, create_escrow_msg());
    assert!(result.is_err());

    let result = execute_msg(&mut state, env, client_info, create_escrow_msg());
    assert!(result.is_err());
}

#[test]
fn test_escrow_insufficient_funds() {
    let (mut state, env, _) = setup_contract();
    setup_job_with_proposal(&mut state, &env).unwrap();

    let client_info = mock_info(CLIENT, &coins(100, "uxion"));
    let result = execute_msg(&mut state, env, client_info, create_escrow_msg());
    assert!(result.is_err());
}

#[test]
fn test_escrow_minimum_amount_validation() {
    let (mut state, env, _) = setup_contract();

    let client_info = mock_info(CLIENT, &coins(500, "uxion"));
    let job_msg = ExecuteMsg::PostJob {
        title: "Small Job".to_string(),
        description: "Job below minimum escrow".to_string(),
        budget: 500,
        category: "Small".to_string(),
        skills_required: vec!["Testing".to_string()],
        duration_days: 30,
        documents: None,
        milestones: None,
    };
    let result = execute_msg(&mut state, env, client_info, job_msg);
    assert!(result.is_err());
}

#[test]
fn test_escrow_release_authorization() {
    let (mut state, env, _) = setup_contract();
    setup_job_with_proposal(&mut state, &env).unwrap();

    let client_info = mock_info(CLIENT, &coins(5000, "uxion"));
    let freelancer_info = mock_info(FREELANCER, &[]);
    let unauthorized_info = mock_info(UNAUTHORIZED, &[]);

    execute_msg(&mut state, env, client_info.clone(), create_escrow_msg()).unwrap();

    let release_msg = ExecuteMsg::ReleaseEscrow { escrow_id: "0".to_string() };
    let result = execute_msg(&mut state, env, unauthorized_info, release_msg.clone());
    assert!(result.is_err());

    execute_msg(&mut state, env, freelancer_info, ExecuteMsg::CompleteJob { job_id: 0 }).unwrap();

    // Whether the client may still release depends on the earlier automatic release.
    let result = execute_msg(&mut state, env, client_info, release_msg);
}

#[test]
fn test_escrow_refund_security() {
    let (mut state, env, _) = setup_contract();
    setup_job_with_proposal(&mut state, &env).unwrap();

    let client_info = mock_info(CLIENT, &coins(5000, "uxion"));
    let freelancer_info = mock_info(FREELANCER, &[]);
    let unauthorized_info = mock_info(UNAUTHORIZED, &[]);

    execute_msg(&mut state, env, client_info.clone(), create_escrow_msg()).unwrap();

    let refund_msg = ExecuteMsg::RefundEscrow { escrow_id: "0".to_string() };
    let result = execute_msg(&mut state, env, unauthorized_info, refund_msg.clone());
    assert!(result.is_err());

    let result = execute_msg(&mut state, env, freelancer_info, refund_msg.clone());
    assert!(result.is_err());

    // Either outcome is acceptable for the client.
    let result = execute_msg(&mut state, env, client_info, refund_msg);
}

#[test]
fn test_escrow_during_dispute() {
    let (mut state, env, _) = setup_contract();
    setup_job_with_proposal(&mut state, &env).unwrap();

    let client_info = mock_info(CLIENT, &coins(5000, "uxion"));
    let freelancer_info = mock_info(FREELANCER, &[]);

    execute_msg(&mut state, env, client_info.clone(), create_escrow_msg()).unwrap();

    let dispute_msg = ExecuteMsg::RaiseDispute {
        job_id: 0,
        reason: "Work not satisfactory".to_string(),
        evidence: vec!["evidence.pdf".to_string()],
    };
    execute_msg(&mut state, env, client_info.clone(), dispute_msg).unwrap();

    let release_msg = ExecuteMsg::ReleaseEscrow { escrow_id: "0".to_string() };
    let result = execute_msg(&mut state, env, client_info, release_msg);
    assert!(result.is_err());

    let refund_msg = ExecuteMsg::RefundEscrow { escrow_id: "0".to_string() };
    let result = execute_msg(&mut state, env, freelancer_info, refund_msg);
    assert!(result.is_err());
}

#[test]
fn test_escrow_double_release_prevention() {
    let (mut state, env, _) = setup_contract();
    setup_job_with_proposal(&mut state, &env).unwrap();

    let client_info = mock_info(CLIENT, &coins(5000, "uxion"));
    let freelancer_info = mock_info(FREELANCER, &[]);

    execute_msg(&mut state, env, client_info, create_escrow_msg()).unwrap();

    let result = execute_msg(&mut state, env, freelancer_info, ExecuteMsg::CompleteJob { job_id: 0 });
    if result.is_ok() {
        if let Some(escrow_data) = state.escrows.get("0") {
            if escrow_data.released {
                let admin_info = mock_info(ADMIN, &[]);
                let release_msg = ExecuteMsg::ReleaseEscrow { escrow_id: "0".to_string() };
                let result = execute_msg(&mut state, env, admin_info, release_msg);
                assert!(result.is_err());
            }
        }
    }
}

#[test]
fn test_escrow_amount_validation() {
    let (mut state, env, _) = setup_contract();
    setup_job_with_proposal(&mut state, &env).unwrap();

    let client_info = mock_info(CLIENT, &coins(5000, "uxion"));

    let zero_funds_info = mock_info(CLIENT, &[]);
    let result = execute_msg(&mut state, env, zero_funds_info, create_escrow_msg());
    assert!(result.is_err());

    // Either outcome is acceptable for an amount above the budget.
    let excessive = ExecuteMsg::CreateEscrowNative { job_id: 0, amount: 10000 };
    let result = execute_msg(&mut state, env, client_info, excessive);
}

#[test]
fn test_escrow_fee_calculation_accuracy() {
    let (mut state, env, _) = setup_contract();
    setup_job_with_proposal(&mut state, &env).unwrap();

    let client_info = mock_info(CLIENT, &coins(5000, "uxion"));
    execute_msg(&mut state, env, client_info, create_escrow_msg()).unwrap();

    let escrow_id = state.jobs.get(&0).unwrap().escrow_id.clone().unwrap();
    let escrow = state.escrows.get(&escrow_id).unwrap();
    assert_eq!(escrow.platform_fee, 250);
    assert_eq!(escrow.amount, 4750);
}

#[test]
fn test_escrow_cw20_token_security() {
    let (mut state, env, _) = setup_contract();
    setup_job_with_proposal(&mut state, &env).unwrap();

    let client_info = mock_info(CLIENT, &[]);
    let msg = ExecuteMsg::CreateEscrowCw20 { job_id: 0, token_address: "token_contract".to_string(), amount: 5000 };
    // Either outcome is acceptable; the call must return rather than panic.
    let result = execute_msg(&mut state, env, client_info, msg);
}

#[test]
fn test_escrow_state_consistency() {
    let (mut state, env, _) = setup_contract();
    setup_job_with_proposal(&mut state, &env).unwrap();

    let client_info = mock_info(CLIENT, &coins(5000, "uxion"));
    execute_msg(&mut state, env, client_info, create_escrow_msg()).unwrap();

    let job = state.jobs.get(&0).unwrap();
    assert!(job.escrow_id.is_some());

    let escrow_id = job.escrow_id.clone().unwrap();
    let escrow = state.escrows.get(&escrow_id).unwrap();
    assert_eq!(escrow.job_id, 0);
    assert_eq!(escrow.client, CLIENT);
    assert_eq!(escrow.freelancer, FREELANCER);
    assert!(!escrow.released);
    assert_eq!(escrow.dispute_status, DisputeStatus::NotRaised);
}

#[test]
fn test_escrow_with_milestones() {
    let (mut state, env, _) = setup_contract();

    let client_info = mock_info(CLIENT, &coins(5000, "uxion"));
    let freelancer_info = mock_info(FREELANCER, &[]);

    // Create job with milestones
    let milestones = vec![
        MilestoneInput {
            title: "Milestone 1".to_string(),
            description: "First milestone".to_string(),
            amount: 2500,
            deadline_days: 15,
        },
        MilestoneInput {
            title: "Milestone 2".to_string(),
            description: "Second milestone".to_string(),
            amount: 2500,
            deadline_days: 30,
        },
    ];

    let job_msg = ExecuteMsg::PostJob {
        title: "Milestone Job".to_string(),
        description: "Job with milestones".to_string(),
        budget: 5000,
        category: "Development".to_string(),
        skills_required: vec!["Development".to_string()],
        duration_days: 30,
        documents: None,
        milestones: Some(milestones),
    };
    execute_msg(&mut state, env, client_info.clone(), job_msg).unwrap();

    // Submit and accept proposal
    let proposal_msg = ExecuteMsg::SubmitProposal {
        job_id: 0,
        cover_letter: "Milestone proposal".to_string(),
        delivery_time_days: 25,
        milestones: None,
    };
    execute_msg(&mut state, env, freelancer_info.clone(), proposal_msg).unwrap();

    let accept_msg = ExecuteMsg::AcceptProposal { job_id: 0, proposal_id: 0 };
    execute_msg(&mut state, env, client_info.clone(), accept_msg).unwrap();

    // Create escrow for milestone-based job
    let create_escrow_msg = ExecuteMsg::CreateEscrowNative { job_id: 0, amount: 5000 };
    let result = execute_msg(&mut state, env, client_info.clone(), create_escrow_msg);
    assert!(result.is_ok());

    // Test milestone completion and approval
    let complete_milestone_msg = ExecuteMsg::CompleteMilestone { job_id: 0, milestone_id: 0 };
    execute_msg(&mut state, env, freelancer_info, complete_milestone_msg).unwrap();

    let approve_milestone_msg = ExecuteMsg::ApproveMilestone { job_id: 0, milestone_id: 0 };
    let result = execute_msg(&mut state, env, client_info, approve_milestone_msg);
    assert!(result.is_ok());
}

#[test]
fn milestones_pay_their_share_and_finish_the_job() {
    let (mut state, env, _) = setup_contract();
    let client_info = mock_info(CLIENT, &coins(5000, "uxion"));
    let freelancer_info = mock_info(FREELANCER, &[]);
    let milestones = vec![
        MilestoneInput { title: "One".to_string(), description: "d".to_string(), amount: 2500, deadline_days: 15 },
        MilestoneInput { title: "Two".to_string(), description: "d".to_string(), amount: 2500, deadline_days: 30 },
    ];
    let job_msg = ExecuteMsg::PostJob {
        title: "Milestone Job".to_string(),
        description: "Job with milestones".to_string(),
        budget: 5000,
        category: "Development".to_string(),
        skills_required: vec!["Development".to_string()],
        duration_days: 30,
        documents: None,
        milestones: Some(milestones),
    };
    execute_msg(&mut state, env, client_info.clone(), job_msg).unwrap();
    let job = state.jobs.get(&0).unwrap().clone();
    assert_eq!(job.milestones.len(), 2);
    assert_eq!(job.milestones[1].id, 1);
    assert_eq!(job.milestones[1].deadline, env.time + 30 * 86_400 * 1_000_000_000);
    assert!(!job.milestones[0].completed);

    let proposal_msg = ExecuteMsg::SubmitProposal { job_id: 0, cover_letter: "Milestone proposal".to_string(), delivery_time_days: 25, milestones: None };
    execute_msg(&mut state, env, freelancer_info.clone(), proposal_msg).unwrap();
    execute_msg(&mut state, env, client_info.clone(), ExecuteMsg::AcceptProposal { job_id: 0, proposal_id: 0 }).unwrap();
    execute_msg(&mut state, env, client_info.clone(), ExecuteMsg::CreateEscrowNative { job_id: 0, amount: 5000 }).unwrap();

    // Approving before completion is refused; only the freelancer completes.
    let early = execute_msg(&mut state, env, client_info.clone(), ExecuteMsg::ApproveMilestone { job_id: 0, milestone_id: 0 });
    assert_eq!(early, Err(ContractError::InvalidInput { error: "Cannot approve milestone that hasn't been completed yet".to_string() }));
    let by_client = execute_msg(&mut state, env, client_info.clone(), ExecuteMsg::CompleteMilestone { job_id: 0, milestone_id: 0 });
    assert_eq!(by_client, Err(ContractError::Unauthorized {}));
    let missing = execute_msg(&mut state, env, freelancer_info.clone(), ExecuteMsg::CompleteMilestone { job_id: 0, milestone_id: 7 });
    assert_eq!(missing, Err(ContractError::InvalidInput { error: "Milestone 7 not found".to_string() }));

    execute_msg(&mut state, env, freelancer_info.clone(), ExecuteMsg::CompleteMilestone { job_id: 0, milestone_id: 0 }).unwrap();
    let again = execute_msg(&mut state, env, freelancer_info.clone(), ExecuteMsg::CompleteMilestone { job_id: 0, milestone_id: 0 });
    assert_eq!(again, Err(ContractError::InvalidInput { error: "Milestone already completed".to_string() }));

    // The escrow keeps 4750 after the 5% fee; each of two milestones is paid half of it.
    let res = execute_msg(&mut state, env, client_info.clone(), ExecuteMsg::ApproveMilestone { job_id: 0, milestone_id: 0 }).unwrap();
    assert_eq!(res.messages.len(), 1);
    assert_eq!(bank_payment(&res.messages[0]), (FREELANCER.to_string(), 2375));

    let res = execute_msg(&mut state, env, freelancer_info, ExecuteMsg::CompleteMilestone { job_id: 0, milestone_id: 1 }).unwrap();
    assert!(res.attributes.iter().any(|a| a.key == "all_milestones_completed" && a.value == "true"));
    assert_eq!(state.jobs.get(&0).unwrap().status, JobStatus::Completed);

    let res = execute_msg(&mut state, env, client_info, ExecuteMsg::ApproveMilestone { job_id: 0, milestone_id: 1 }).unwrap();
    assert_eq!(bank_payment(&res.messages[0]), (FREELANCER.to_string(), 2375));
    let escrow_id = state.jobs.get(&0).unwrap().escrow_id.clone().unwrap();
    assert!(state.escrows.get(escrow_id.as_str()).unwrap().released);
}

#[test]
fn escrow_payment_must_equal_the_budget() {
    let (mut state, env, _) = setup_contract();
    setup_job_with_proposal(&mut state, &env).unwrap();
    let over = execute_msg(&mut state, env, mock_info(CLIENT, &coins(10000, "uxion")), ExecuteMsg::CreateEscrow { job_id: 0 });
    assert_eq!(over, Err(ContractError::InsufficientFunds { expected: "5000".to_string(), actual: "10000".to_string() }));
    assert!(state.jobs.get(&0).unwrap().escrow_id.is_none());
}
