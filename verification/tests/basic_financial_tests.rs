#![allow(dead_code)]
use serde_json::Value;
use xworks_freelance_contract::admin::instantiate;
use xworks_freelance_contract::chain::{Coin, CosmosMsg, Env, MessageInfo, Response};
use xworks_freelance_contract::contract::{execute, query, QueryAnswer};
use xworks_freelance_contract::error::{ContractError, StdError};
use xworks_freelance_contract::hash_utils::{create_job_content_bundle, FieldValue, OffChainBundle};
use xworks_freelance_contract::msg::{ExecuteMsg, InstantiateMsg, QueryMsg};
use xworks_freelance_contract::state::ContractState;

/// The block time of the standard test environment, in nanoseconds.
const MOCK_TIME: u64 = 1_571_797_419_879_305_533;

fn mock_env() -> Env {
    Env { time: MOCK_TIME, height: 12_345 }
}

fn env_plus_seconds(env: &Env, seconds: u64) -> Env {
    Env { time: env.time + seconds * 1_000_000_000, height: env.height + 1 }
}

fn coins(amount: u128, denom: &str) -> Vec<Coin> {
    vec![Coin { denom: denom.to_string(), amount }]
}

fn mock_info(sender: &str, funds: &[Coin]) -> MessageInfo {
    MessageInfo { sender: sender.to_string(), funds: funds.to_vec() }
}

fn instantiate_msg(admin: &str) -> InstantiateMsg {
    InstantiateMsg {
        admin: Some(admin.to_string()),
        platform_fee_percent: Some(5),
        min_escrow_amount: Some(1000),
        dispute_period_days: Some(7),
        max_job_duration_days: Some(365),
    }
}

fn instantiate_state(env: &Env, info: &MessageInfo, msg: InstantiateMsg) -> Result<(ContractState, Response), ContractError> {
    instantiate(env, info, msg, "0.1.0")
}

/// The bundle as JSON text, in the field order the contract publishes it.
fn bundle_json(bundle: &OffChainBundle) -> String {
    let mut data = serde_json::Map::new();
    for (name, value) in &bundle.data.fields {
        let v = match value {
            FieldValue::Text(t) => Value::String(t.clone()),
            FieldValue::TextList(l) => Value::Array(l.iter().map(|s| Value::String(s.clone())).collect()),
            FieldValue::Milestones(m) => Value::Array(m.iter().map(|p| Value::String(p.title.clone())).collect()),
        };
        data.insert(name.clone(), v);
    }
    let mut top = serde_json::Map::new();
    top.insert("id".to_string(), Value::String(bundle.id.clone()));
    top.insert("content_type".to_string(), Value::String(bundle.content_type.clone()));
    top.insert("data".to_string(), Value::Object(data));
    top.insert("entity_type".to_string(), Value::String(bundle.metadata.entity_type.clone()));
    top.insert("created_at".to_string(), Value::from(bundle.metadata.created_at));
    serde_json::to_string(&Value::Object(top)).unwrap()
}

/// The content text that accompanies `msg`: the job bundle for a posting, an empty object otherwise.
fn content_for(state: &ContractState, env: &Env, msg: &ExecuteMsg) -> String {
    match msg {
        ExecuteMsg::PostJob { title, description, category, skills_required, documents, .. } => {
            let docs = documents.clone().unwrap_or_default();
            let bundle = create_job_content_bundle(
                state.next_job_id,
                title,
                description,
                None,
                None,
                category,
                skills_required,
                &docs,
                env.time / 1_000_000_000,
            )
            .unwrap();
            bundle_json(&bundle)
        }
        _ => "{}".to_string(),
    }
}

fn execute_msg(state: &mut ContractState, env: Env, info: MessageInfo, msg: ExecuteMsg) -> Result<Response, ContractError> {
    let content = content_for(state, &env, &msg);
    let hook = Err(StdError::ParseErr { target_type: "EscrowHookMsg".to_string(), msg: "EOF".to_string() });
    execute(state, &env, &info, msg, &content, "", hook)
}

fn query_msg(state: &ContractState, msg: QueryMsg) -> Result<QueryAnswer, StdError> {
    query(state, msg)
}

fn bank_payment(msg: &CosmosMsg) -> (String, u128) {
    match msg {
        CosmosMsg::BankSend { to_address, amount, .. } => (to_address.clone(), *amount),
        CosmosMsg::Cw20Transfer { recipient, amount, .. } => (recipient.clone(), *amount),
    }
}

const ADMIN: &str = "admin";
const CLIENT: &str = "client";
const FREELANCER: &str = "freelancer";

fn instantiate_with_fee(fee: u64) -> Result<(ContractState, Response), ContractError> {
    let msg = InstantiateMsg {
        admin: Some(ADMIN.to_string()),
        platform_fee_percent: Some(fee),
        min_escrow_amount: Some(1000),
        dispute_period_days: Some(7),
        max_job_duration_days: Some(365),
    };
    instantiate_state(&mock_env(), &mock_info(ADMIN, &[]), msg)
}

fn job_msg(title: &str, description: &str, budget: u128, category: &str, skill: &str) -> ExecuteMsg {
    ExecuteMsg::PostJob {
        title: title.to_string(),
        description: description.to_string(),
        budget,
        category: category.to_string(),
        skills_required: vec![skill.to_string()],
        duration_days: 30,
        documents: None,
        milestones: None,
    }
}

#[test]
fn test_platform_fee_calculation() {
    let env = mock_env();
    let (mut state, _) = instantiate_with_fee(5).unwrap();

    let client_info = mock_info(CLIENT, &coins(10000, "uxion"));
    let freelancer_info = mock_info(FREELANCER, &[]);

    let post = job_msg("Fee Test Job", "Testing platform fee calculation", 10000, "Testing", "Math");
    execute_msg(&mut state, env, client_info.clone(), post).unwrap();

    let proposal_msg = ExecuteMsg::SubmitProposal {
        job_id: 0,
        cover_letter: "Test proposal".to_string(),
        delivery_time_days: 25,
        milestones: None,
    };
    execute_msg(&mut state, env, freelancer_info, proposal_msg).unwrap();

    execute_msg(&mut state, env, client_info.clone(), ExecuteMsg::AcceptProposal { job_id: 0, proposal_id: 0 }).unwrap();

    let create_escrow_msg = ExecuteMsg::CreateEscrowNative { job_id: 0, amount: 10000 };
    let result = execute_msg(&mut state, env, client_info, create_escrow_msg);
    assert!(result.is_ok());

    if let Some(escrow) = state.escrows.get("0") {
        assert_eq!(escrow.platform_fee, 500);
        assert_eq!(escrow.amount, 9500);
    }
}

#[test]
fn basic_financial_tests_test_maximum_platform_fee() {
    let result = instantiate_with_fee(15);
    assert!(result.is_err());
}

#[test]
fn basic_financial_tests_test_zero_platform_fee() {
    let result = instantiate_with_fee(0);
    assert!(result.is_ok());
}

#[test]
fn test_minimum_escrow_amount_validation() {
    let env = mock_env();
    let (mut state, _) = instantiate_with_fee(5).unwrap();

    let client_info = mock_info(CLIENT, &coins(500, "uxion"));
    let post = job_msg("Small Job", "Job below minimum escrow", 500, "Small", "Testing");
    let result = execute_msg(&mut state, env, client_info, post);
    assert!(result.is_err());
}

#[test]
fn test_fee_precision_with_small_amounts() {
    let env = mock_env();
    let (mut state, _) = instantiate_with_fee(3).unwrap();

    let client_info = mock_info(CLIENT, &coins(1001, "uxion"));
    let freelancer_info = mock_info(FREELANCER, &[]);

    let post = job_msg("Precision Test", "Testing fee precision", 1001, "Testing", "Math");
    execute_msg(&mut state, env, client_info.clone(), post).unwrap();

    let proposal_msg = ExecuteMsg::SubmitProposal {
        job_id: 0,
        cover_letter: "Precision test proposal".to_string(),
        delivery_time_days: 25,
        milestones: None,
    };
    execute_msg(&mut state, env, freelancer_info, proposal_msg).unwrap();

    execute_msg(&mut state, env, client_info.clone(), ExecuteMsg::AcceptProposal { job_id: 0, proposal_id: 0 }).unwrap();

    let create_escrow_info = mock_info(CLIENT, &coins(1001, "uxion"));
    let create_escrow_msg = ExecuteMsg::CreateEscrowNative { job_id: 0, amount: 1001 };
    let result = execute_msg(&mut state, env, create_escrow_info, create_escrow_msg);
    assert!(result.is_ok());

    if let Some(escrow) = state.escrows.get("0") {
        assert_eq!(escrow.platform_fee, 30);
        assert_eq!(escrow.platform_fee + escrow.amount, 1001);
    }
}
