use xworks_freelance_contract::error::ContractError;
use xworks_freelance_contract::security::{
    generate_escrow_id, sanitize_string, validate_collections, validate_escrow_amount, validate_job_duration,
    validate_platform_fee, validate_rating, validate_text_inputs,
};

#[test]
fn test_validate_platform_fee() {
    assert!(validate_platform_fee(5).is_ok());
    assert!(validate_platform_fee(10).is_ok());
    assert!(validate_platform_fee(11).is_err());
}

#[test]
fn test_validate_text_inputs() {
    assert!(validate_text_inputs("Valid Title", "Valid Description", None, None).is_ok());
    assert!(validate_text_inputs("", "Valid Description", None, None).is_err());
    assert!(validate_text_inputs("Valid Title", "", None, None).is_err());
}

#[test]
fn test_sanitize_string() {
    let input = "Hello<script>alert('xss')</script>World";
    let sanitized = sanitize_string(input);
    assert_eq!(sanitized, "Hello<script>alert('xss')</script>World");
}

#[test]
fn test_generate_escrow_id() {
    let seconds: u64 = 1_571_797_419;
    let id = generate_escrow_id(1, "client", "freelancer", seconds);
    assert_eq!(id.len(), 16);
}

#[test]
fn sanitize_string_drops_control_characters_and_trims() {
    assert_eq!(sanitize_string("  a\u{0}b\tc  "), "ab\tc");
    assert_eq!(sanitize_string("   "), "");
}

#[test]
fn platform_fee_error_names_the_maximum() {
    assert_eq!(validate_platform_fee(11), Err(ContractError::PlatformFeeTooHigh { max: 10 }));
}

#[test]
fn text_inputs_reject_overlong_fields() {
    let long_title = "t".repeat(101);
    assert!(validate_text_inputs(&long_title, "d", None, None).is_err());
    let long_comment = "c".repeat(1001);
    assert!(validate_text_inputs("t", "d", None, Some(&long_comment)).is_err());
    assert!(validate_text_inputs("t", "d", Some("cover"), Some("comment")).is_ok());
}

#[test]
fn escrow_amount_and_duration_bounds() {
    assert!(validate_escrow_amount(999).is_err());
    assert!(validate_escrow_amount(1000).is_ok());
    assert!(validate_job_duration(0).is_err());
    assert!(validate_job_duration(365).is_ok());
    assert!(validate_job_duration(366).is_err());
}

#[test]
fn rating_bounds() {
    assert!(validate_rating(0).is_err());
    assert!(validate_rating(1).is_ok());
    assert!(validate_rating(5).is_ok());
    assert!(validate_rating(6).is_err());
}

#[test]
fn collection_limits() {
    let skills: Vec<String> = (0..21).map(|i| format!("s{}", i)).collect();
    assert!(validate_collections(&skills, &vec![], 0).is_err());
    assert!(validate_collections(&vec!["rust".to_string()], &vec![], 10).is_ok());
    assert!(validate_collections(&vec!["rust".to_string()], &vec![], 11).is_err());
}

#[test]
fn sanitizing_twice_changes_nothing_more() {
    for input in ["  Hello <script>alert('x')</script> World!  ", "\t\n", "ok", "  a\u{0}b  "] {
        let once = sanitize_string(input);
        assert_eq!(sanitize_string(&once), once);
    }
}

#[test]
fn collection_errors_name_the_first_list_too_long() {
    let many = vec!["s".to_string(); 21];
    let docs = vec!["d".to_string(); 11];
    assert_eq!(
        validate_collections(&many, &docs, 11),
        Err(ContractError::InvalidInput { error: "Maximum 20 skills allowed".to_string() })
    );
    assert_eq!(
        validate_collections(&vec![], &docs, 11),
        Err(ContractError::InvalidInput { error: "Maximum 10 documents allowed".to_string() })
    );
    assert_eq!(
        validate_collections(&vec![], &vec![], 11),
        Err(ContractError::InvalidInput { error: "Maximum 10 milestones allowed".to_string() })
    );
}

#[test]
fn escrow_ids_are_lowercase_hex() {
    let id = generate_escrow_id(7, "client", "freelancer", 1_640_000_000);
    assert_eq!(id.len(), 16);
    assert!(id.chars().all(|c| c.is_ascii_digit() || ('a'..='f').contains(&c)));
}

#[test]
fn unicode_whitespace_is_trimmed() {
    assert_eq!(sanitize_string("\u{3000}\u{2003}word\u{85}\t"), "word");
    assert_eq!(sanitize_string("\u{200B}word"), "word");
}
