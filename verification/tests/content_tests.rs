use serde_json::Value;
use xworks_freelance_contract::admin::instantiate;
use xworks_freelance_contract::category_skill_manager::{
    calculate_budget_range, get_category_name, get_or_create_category_id, get_or_create_skill_ids, get_skill_names,
};
use xworks_freelance_contract::chain::{Env, MessageInfo};
use xworks_freelance_contract::hash_utils::{
    create_job_content_bundle, generate_content_hash, verify_content_hash, FieldValue, OffChainBundle,
};
use xworks_freelance_contract::contract::content_bundle;
use xworks_freelance_contract::msg::{ExecuteMsg, InstantiateMsg};
use xworks_freelance_contract::state::ContractState;

fn empty_state() -> ContractState {
    let env = Env { time: 1_571_797_419_000_000_000, height: 12_345 };
    let info = MessageInfo { sender: "creator".to_string(), funds: vec![] };
    let msg = InstantiateMsg {
        admin: None,
        platform_fee_percent: None,
        min_escrow_amount: None,
        dispute_period_days: None,
        max_job_duration_days: None,
    };
    instantiate(&env, &info, msg, "0.1.0").unwrap().0
}

/// The bundle as JSON text, in the field order the contract publishes it.
fn bundle_json(bundle: &OffChainBundle) -> String {
    let mut data = serde_json::Map::new();
    for (name, value) in &bundle.data.fields {
        let v = match value {
            FieldValue::Text(t) => Value::String(t.clone()),
            FieldValue::TextList(l) => Value::Array(l.iter().map(|s| Value::String(s.clone())).collect()),
            FieldValue::Milestones(m) => Value::Array(m.iter().map(|p| Value::String(p.title.clone())).collect()),
        };
        data.insert(name.clone(), v);
    }
    let mut meta = serde_json::Map::new();
    meta.insert("created_at".to_string(), Value::from(bundle.metadata.created_at));
    meta.insert("updated_at".to_string(), Value::from(bundle.metadata.updated_at));
    meta.insert("version".to_string(), Value::from(bundle.metadata.version));
    meta.insert("entity_id".to_string(), Value::String(bundle.metadata.entity_id.clone()));
    meta.insert("entity_type".to_string(), Value::String(bundle.metadata.entity_type.clone()));
    let mut top = serde_json::Map::new();
    top.insert("id".to_string(), Value::String(bundle.id.clone()));
    top.insert("content_type".to_string(), Value::String(bundle.content_type.clone()));
    top.insert("data".to_string(), Value::Object(data));
    top.insert("metadata".to_string(), Value::Object(meta));
    serde_json::to_string(&Value::Object(top)).unwrap()
}

#[test]
fn test_category_management() {
    let mut state = empty_state();

    let category_id = get_or_create_category_id(&mut state, "Test Category").unwrap();
    assert_eq!(category_id, 1);

    let same_id = get_or_create_category_id(&mut state, "Test Category").unwrap();
    assert_eq!(same_id, category_id);

    let name = get_category_name(&state, category_id).unwrap();
    assert_eq!(name, Some("Test Category".to_string()));
}

#[test]
fn test_skill_management() {
    let mut state = empty_state();

    let skills = vec!["JavaScript".to_string(), "Python".to_string()];
    let skill_ids = get_or_create_skill_ids(&mut state, &skills).unwrap();
    assert_eq!(skill_ids.len(), 2);

    let retrieved_skills = get_skill_names(&state, &skill_ids).unwrap();
    assert_eq!(retrieved_skills, skills);
}

#[test]
fn test_budget_range_calculation() {
    assert_eq!(calculate_budget_range(0), 0);
    assert_eq!(calculate_budget_range(100_000_000), 1);
    assert_eq!(calculate_budget_range(1_000_000_000), 2);
    assert_eq!(calculate_budget_range(10_000_000_000), 3);
}

#[test]
fn test_generate_content_hash() {
    let content = "Hello, World!";
    let hash = generate_content_hash(content).unwrap();
    assert!(!hash.is_empty());

    let hash2 = generate_content_hash(content).unwrap();
    assert_eq!(hash, hash2);
}

#[test]
fn test_verify_content_hash() {
    let content = "Test content";
    let hash = generate_content_hash(content).unwrap();
    assert!(verify_content_hash(content, &hash).unwrap());
    assert!(!verify_content_hash("Different content", &hash).unwrap());
}

#[test]
fn test_create_job_content_bundle() {
    let skills = vec!["Rust".to_string(), "Blockchain".to_string()];
    let documents = vec!["doc1.pdf".to_string()];

    let bundle = create_job_content_bundle(
        1,
        "Test Job",
        "This is a test job",
        Some("Test Company"),
        Some("Remote"),
        "Development",
        &skills,
        &documents,
        1640000000,
    )
    .unwrap();
    let hash = generate_content_hash(&bundle_json(&bundle)).unwrap();

    assert_eq!(bundle.metadata.entity_type, "job");
    assert_eq!(bundle.metadata.entity_id, "1");
    assert!(!hash.is_empty());
}

#[test]
fn content_hash_is_base64_of_sha256() {
    // SHA-256 of "abc", base64 with padding.
    assert_eq!(generate_content_hash("abc").unwrap(), "ungWv48Bz+pBQUDeXa4iI7ADYaOWF3qctBD/YfIAFa0=");
}

#[test]
fn job_bundle_lists_fields_in_order() {
    let skills = vec!["Rust".to_string()];
    let documents: Vec<String> = vec![];
    let bundle =
        create_job_content_bundle(42, "T", "D", None, Some("Remote"), "Dev", &skills, &documents, 7).unwrap();
    assert_eq!(bundle.id, "job_42");
    assert_eq!(bundle.content_type, "job_content");
    let names: Vec<&str> = bundle.data.fields.iter().map(|(n, _)| n.as_str()).collect();
    assert_eq!(names, vec!["title", "description", "category", "skills_required", "documents", "location"]);
    assert_eq!(bundle.metadata.version, 1);
    assert_eq!(bundle.metadata.created_at, 7);
}

#[test]
fn budget_bands_have_sharp_edges() {
    assert_eq!(calculate_budget_range(1), 1);
    assert_eq!(calculate_budget_range(499_999_999), 1);
    assert_eq!(calculate_budget_range(500_000_000), 2);
    assert_eq!(calculate_budget_range(4_999_999_999), 2);
    assert_eq!(calculate_budget_range(5_000_000_000), 3);
    assert_eq!(calculate_budget_range(u128::MAX), 3);
}

#[test]
fn category_lookup_ignores_case() {
    let mut state = empty_state();
    let a = get_or_create_category_id(&mut state, "Design").unwrap();
    let b = get_or_create_category_id(&mut state, "design").unwrap();
    let c = get_or_create_category_id(&mut state, "Writing").unwrap();
    assert_eq!(a, b);
    assert_eq!(c, a + 1);
    assert_eq!(get_category_name(&state, 9).unwrap(), None);
}

#[test]
fn edited_bounty_content_fills_in_defaults() {
    let state = empty_state();
    let env = Env { time: 1_640_000_000_000_000_000, height: 1 };
    let info = MessageInfo { sender: "poster".to_string(), funds: vec![] };
    let msg = ExecuteMsg::EditBounty {
        bounty_id: 3,
        title: None,
        description: Some("New text".to_string()),
        requirements: None,
        submission_deadline_days: None,
        review_period_days: None,
        documents: None,
    };
    let b = content_bundle(&state, &env, &info, &msg).unwrap();
    assert_eq!(b.id, "bounty_3");
    assert_eq!(b.metadata.created_at, 1_640_000_000);
    let text = |i: usize| match &b.data.fields[i].1 {
        FieldValue::Text(t) => t.clone(),
        _ => panic!("not a text field"),
    };
    assert_eq!(text(0), "Updated Bounty");
    assert_eq!(text(1), "New text");
    assert_eq!(text(2), "Other");

    let none = content_bundle(&state, &env, &info, &ExecuteMsg::PauseContract {});
    assert!(none.is_none());
}


#[test]
fn content_hashes_are_padded_base64_of_a_digest() {
    let h = generate_content_hash("Hello, World!").unwrap();
    assert_eq!(h.len(), 44);
    assert!(h.ends_with('='));
    assert_eq!(generate_content_hash("Hello, World!").unwrap(), h);
}
