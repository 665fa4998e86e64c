#![allow(dead_code, unused_variables)]
use serde_json::Value;
use xworks_freelance_contract::admin::instantiate;
use xworks_freelance_contract::chain::{Coin, CosmosMsg, Env, MessageInfo, Response};
use xworks_freelance_contract::contract::{execute, query, QueryAnswer};
use xworks_freelance_contract::error::{ContractError, StdError};
use xworks_freelance_contract::hash_utils::{create_job_content_bundle, FieldValue, OffChainBundle};
use xworks_freelance_contract::msg::{ExecuteMsg, InstantiateMsg, QueryMsg};
use xworks_freelance_contract::state::ContractState;

/// The block time of the standard test environment, in nanoseconds.
const MOCK_TIME: u64 = 1_571_797_419_879_305_533;

fn mock_env() -> Env {
    Env { time: MOCK_TIME, height: 12_345 }
}

fn env_plus_seconds(env: &Env, seconds: u64) -> Env {
    Env { time: env.time + seconds * 1_000_000_000, height: env.height + 1 }
}

fn coins(amount: u128, denom: &str) -> Vec<Coin> {
    vec![Coin { denom: denom.to_string(), amount }]
}

fn mock_info(sender: &str, funds: &[Coin]) -> MessageInfo {
    MessageInfo { sender: sender.to_string(), funds: funds.to_vec() }
}

fn instantiate_msg(admin: &str) -> InstantiateMsg {
    InstantiateMsg {
        admin: Some(admin.to_string()),
        platform_fee_percent: Some(5),
        min_escrow_amount: Some(1000),
        dispute_period_days: Some(7),
        max_job_duration_days: Some(365),
    }
}

fn instantiate_state(env: &Env, info: &MessageInfo, msg: InstantiateMsg) -> Result<(ContractState, Response), ContractError> {
    instantiate(env, info, msg, "0.1.0")
}

/// The bundle as JSON text, in the field order the contract publishes it.
fn bundle_json(bundle: &OffChainBundle) -> String {
    let mut data = serde_json::Map::new();
    for (name, value) in &bundle.data.fields {
        let v = match value {
            FieldValue::Text(t) => Value::String(t.clone()),
            FieldValue::TextList(l) => Value::Array(l.iter().map(|s| Value::String(s.clone())).collect()),
            FieldValue::Milestones(m) => Value::Array(m.iter().map(|p| Value::String(p.title.clone())).collect()),
        };
        data.insert(name.clone(), v);
    }
    let mut top = serde_json::Map::new();
    top.insert("id".to_string(), Value::String(bundle.id.clone()));
    top.insert("content_type".to_string(), Value::String(bundle.content_type.clone()));
    top.insert("data".to_string(), Value::Object(data));
    top.insert("entity_type".to_string(), Value::String(bundle.metadata.entity_type.clone()));
    top.insert("created_at".to_string(), Value::from(bundle.metadata.created_at));
    serde_json::to_string(&Value::Object(top)).unwrap()
}

/// The content text that accompanies `msg`: the job bundle for a posting, an empty object otherwise.
fn content_for(state: &ContractState, env: &Env, msg: &ExecuteMsg) -> String {
    match msg {
        ExecuteMsg::PostJob { title, description, category, skills_required, documents, .. } => {
            let docs = documents.clone().unwrap_or_default();
            let bundle = create_job_content_bundle(
                state.next_job_id,
                title,
                description,
                None,
                None,
                category,
                skills_required,
                &docs,
                env.time / 1_000_000_000,
            )
            .unwrap();
            bundle_json(&bundle)
        }
        _ => "{}".to_string(),
    }
}

fn execute_msg(state: &mut ContractState, env: Env, info: MessageInfo, msg: ExecuteMsg) -> Result<Response, ContractError> {
    let content = content_for(state, &env, &msg);
    let hook = Err(StdError::ParseErr { target_type: "EscrowHookMsg".to_string(), msg: "EOF".to_string() });
    execute(state, &env, &info, msg, &content, "", hook)
}

fn query_msg(state: &ContractState, msg: QueryMsg) -> Result<QueryAnswer, StdError> {
    query(state, msg)
}

fn bank_payment(msg: &CosmosMsg) -> (String, u128) {
    match msg {
        CosmosMsg::BankSend { to_address, amount, .. } => (to_address.clone(), *amount),
        CosmosMsg::Cw20Transfer { recipient, amount, .. } => (recipient.clone(), *amount),
    }
}

const ADMIN: &str = "admin";
const CLIENT: &str = "client";
const FREELANCER: &str = "freelancer";
const UNAUTHORIZED_USER: &str = "unauthorized_user";
const MALICIOUS_USER: &str = "malicious_user";

fn setup_contract() -> (ContractState, Env, MessageInfo) {
    let env = mock_env();
    let info = mock_info(ADMIN, &[]);
    let (state, _) = instantiate_state(&env, &info, instantiate_msg(ADMIN)).unwrap();
    (state, env, info)
}

fn testing_job(title: &str, description: &str) -> ExecuteMsg {
    ExecuteMsg::PostJob {
        title: title.to_string(),
        description: description.to_string(),
        budget: 5000,
        category: "Testing".to_string(),
        skills_required: vec!["Testing".to_string()],
        duration_days: 30,
        documents: None,
        milestones: None,
    }
}

#[test]
fn test_admin_only_functions_unauthorized_access() {
    let (mut state, env, _) = setup_contract();
    let unauthorized_info = mock_info(UNAUTHORIZED_USER, &[]);

    let update_config_msg = ExecuteMsg::UpdateConfig {
        admin: None,
        platform_fee_percent: Some(10),
        min_escrow_amount: None,
        dispute_period_days: None,
        max_job_duration_days: None,
    };
    let result = execute_msg(&mut state, env, unauthorized_info.clone(), update_config_msg);
    assert!(matches!(result, Err(ContractError::Unauthorized {})));

    let result = execute_msg(&mut state, env, unauthorized_info.clone(), ExecuteMsg::PauseContract {});
    assert!(matches!(result, Err(ContractError::Unauthorized {})));

    let result = execute_msg(&mut state, env, unauthorized_info.clone(), ExecuteMsg::UnpauseContract {});
    assert!(matches!(result, Err(ContractError::Unauthorized {})));

    let block_msg = ExecuteMsg::BlockAddress { address: MALICIOUS_USER.to_string(), reason: "Spam".to_string() };
    let result = execute_msg(&mut state, env, unauthorized_info.clone(), block_msg);
    assert!(matches!(result, Err(ContractError::Unauthorized {})));

    let unblock_msg = ExecuteMsg::UnblockAddress { address: MALICIOUS_USER.to_string() };
    let result = execute_msg(&mut state, env, unauthorized_info.clone(), unblock_msg);
    assert!(matches!(result, Err(ContractError::Unauthorized {})));

    let reset_limit_msg = ExecuteMsg::ResetRateLimit { address: MALICIOUS_USER.to_string() };
    let result = execute_msg(&mut state, env, unauthorized_info, reset_limit_msg);
    assert!(matches!(result, Err(ContractError::Unauthorized {})));
}

#[test]
fn test_admin_functions_authorized_access() {
    let (mut state, env, _) = setup_contract();
    let admin_info = mock_info(ADMIN, &[]);

    let update_config_msg = ExecuteMsg::UpdateConfig {
        admin: None,
        platform_fee_percent: Some(8),
        min_escrow_amount: Some(2000),
        dispute_period_days: Some(10),
        max_job_duration_days: Some(300),
    };
    let result = execute_msg(&mut state, env, admin_info.clone(), update_config_msg);
    assert!(result.is_ok());

    let config = match query_msg(&state, QueryMsg::GetConfig {}).unwrap() {
        QueryAnswer::Config(c) => c.config,
        _ => panic!("expected the config"),
    };
    assert_eq!(config.platform_fee_percent, 8);
    assert_eq!(config.min_escrow_amount, 2000);

    let block_msg = ExecuteMsg::BlockAddress {
        address: MALICIOUS_USER.to_string(),
        reason: "Fraudulent activity".to_string(),
    };
    let result = execute_msg(&mut state, env, admin_info.clone(), block_msg);
    assert!(result.is_ok());
    assert!(state.blocked_addresses.get(MALICIOUS_USER).is_some());

    let unblock_msg = ExecuteMsg::UnblockAddress { address: MALICIOUS_USER.to_string() };
    let result = execute_msg(&mut state, env, admin_info, unblock_msg);
    assert!(result.is_ok());
    assert!(state.blocked_addresses.get(MALICIOUS_USER).is_none());
}

#[test]
fn test_job_owner_permissions() {
    let (mut state, env, _) = setup_contract();
    let client_info = mock_info(CLIENT, &coins(5000, "uxion"));
    let unauthorized_info = mock_info(UNAUTHORIZED_USER, &[]);

    execute_msg(&mut state, env, client_info.clone(), testing_job("Permission Test Job", "Testing job owner permissions")).unwrap();

    let edit_msg = ExecuteMsg::EditJob {
        job_id: 0,
        title: Some("Updated Title".to_string()),
        description: None,
        budget: None,
        category: None,
        skills_required: None,
        duration_days: None,
        documents: None,
        milestones: None,
    };
    let result = execute_msg(&mut state, env, client_info.clone(), edit_msg.clone());
    assert!(result.is_ok());

    let result = execute_msg(&mut state, env, unauthorized_info.clone(), edit_msg);
    assert!(matches!(result, Err(ContractError::Unauthorized {})));

    let delete_msg = ExecuteMsg::DeleteJob { job_id: 0 };
    let result = execute_msg(&mut state, env, client_info, delete_msg.clone());

    let result = execute_msg(&mut state, env, unauthorized_info, delete_msg);
    assert!(result.is_err());
}

#[test]
fn test_freelancer_permissions() {
    let (mut state, env, _) = setup_contract();
    let client_info = mock_info(CLIENT, &coins(5000, "uxion"));
    let freelancer_info = mock_info(FREELANCER, &[]);
    let unauthorized_info = mock_info(UNAUTHORIZED_USER, &[]);

    execute_msg(&mut state, env, client_info, testing_job("Freelancer Permission Test", "Testing freelancer permissions")).unwrap();

    // Proposals carry no bid amount in this contract's messages.
    let proposal_msg = ExecuteMsg::SubmitProposal {
        job_id: 0,
        cover_letter: "Test proposal".to_string(),
        delivery_time_days: 25,
        milestones: None,
    };
    execute_msg(&mut state, env, freelancer_info.clone(), proposal_msg).unwrap();

    let edit_proposal_msg = ExecuteMsg::EditProposal {
        proposal_id: 0,
        cover_letter: None,
        delivery_time_days: None,
        milestones: None,
    };
    let result = execute_msg(&mut state, env, freelancer_info.clone(), edit_proposal_msg.clone());
    assert!(result.is_ok());

    let result = execute_msg(&mut state, env, unauthorized_info.clone(), edit_proposal_msg);
    assert!(matches!(result, Err(ContractError::Unauthorized {})));

    let withdraw_msg = ExecuteMsg::WithdrawProposal { proposal_id: 0 };
    let result = execute_msg(&mut state, env, freelancer_info, withdraw_msg.clone());
    assert!(result.is_ok());

    let result = execute_msg(&mut state, env, unauthorized_info, withdraw_msg);
    assert!(result.is_err());
}

#[test]
fn test_contract_pause_enforcement() {
    let (mut state, env, _) = setup_contract();
    let admin_info = mock_info(ADMIN, &[]);
    let client_info = mock_info(CLIENT, &coins(5000, "uxion"));

    execute_msg(&mut state, env, admin_info.clone(), ExecuteMsg::PauseContract {}).unwrap();

    let job_msg = testing_job("Should Fail", "Contract is paused");
    let result = execute_msg(&mut state, env, client_info.clone(), job_msg.clone());
    assert!(result.is_err());

    execute_msg(&mut state, env, admin_info, ExecuteMsg::UnpauseContract {}).unwrap();

    let result = execute_msg(&mut state, env, client_info, job_msg);
    assert!(result.is_ok());
}

#[test]
fn test_blocked_address_restrictions() {
    let (mut state, env, _) = setup_contract();
    let admin_info = mock_info(ADMIN, &[]);
    let malicious_info = mock_info(MALICIOUS_USER, &coins(5000, "uxion"));

    let block_msg = ExecuteMsg::BlockAddress { address: MALICIOUS_USER.to_string(), reason: "Spam activity".to_string() };
    execute_msg(&mut state, env, admin_info, block_msg).unwrap();

    let job_msg = testing_job("Blocked User Job", "This should fail");
    let result = execute_msg(&mut state, env, malicious_info, job_msg);
    assert!(result.is_err());
}

#[test]
fn blocked_user_is_refused_until_unblocked() {
    let (mut state, env, _) = setup_contract();
    let admin_info = mock_info(ADMIN, &[]);
    let block_msg = ExecuteMsg::BlockAddress { address: MALICIOUS_USER.to_string(), reason: "Spam activity".to_string() };
    execute_msg(&mut state, env, admin_info.clone(), block_msg).unwrap();

    let user = mock_info(MALICIOUS_USER, &[]);
    let refused = execute_msg(&mut state, env, user.clone(), testing_job("Small Job", "Description"));
    assert_eq!(refused, Err(ContractError::AccessDenied {}));
    assert_eq!(state.next_job_id, 0);

    execute_msg(&mut state, env, admin_info, ExecuteMsg::UnblockAddress { address: MALICIOUS_USER.to_string() }).unwrap();
    assert!(execute_msg(&mut state, env, user, testing_job("Small Job", "Description")).is_ok());
}
