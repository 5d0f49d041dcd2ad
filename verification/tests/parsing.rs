use aurelis::item_instance::parse_item_attributes;
use aurelis::datetime::format_naive_datetime;
use aurelis::error::{AppError, DbFailure, RepositoryError};
use aurelis::hash::HashService;
use aurelis::mob::{create_mob_params, CreateMobInput};
use aurelis::models::JsonAttributes;
use aurelis::parsers::{parse_suspension_severity, parse_uuid, SuspensionSeverity};
use aurelis::password::{PasswordError, PasswordHasher};
use aurelis::snapshot::json_value_to_string;

#[test]
fn uuids_parse_or_are_bad_requests() {
    assert_eq!(
        parse_uuid("5f0c2b1e-8a4d-4c3b-9e21-7d6f5a4b3c2d").ok(),
        Some(0x5f0c2b1e_8a4d_4c3b_9e21_7d6f5a4b3c2d)
    );
    assert_eq!(parse_uuid("5F0C2B1E8A4D4C3B9E217D6F5A4B3C2D").ok(), Some(0x5f0c2b1e_8a4d_4c3b_9e21_7d6f5a4b3c2d));
    match parse_uuid("not-a-uuid") {
        Err(AppError::BadRequest(m)) => assert!(m.starts_with("Invalid UUID: "), "{m}"),
        other => panic!("unexpected: {other:?}"),
    }
    assert!(matches!(parse_uuid(""), Err(AppError::BadRequest(_))));
}

#[test]
fn suspension_severities() {
    assert_eq!(parse_suspension_severity("low").ok(), Some(SuspensionSeverity::Low));
    assert_eq!(parse_suspension_severity("medium").ok(), Some(SuspensionSeverity::Medium));
    assert_eq!(parse_suspension_severity("high").ok(), Some(SuspensionSeverity::High));
    match parse_suspension_severity("HIGH") {
        Err(AppError::BadRequest(m)) => assert_eq!(m, "Invalid suspension severity"),
        other => panic!("unexpected: {other:?}"),
    }
}

#[test]
fn passwords_verify_against_their_own_hash() {
    let hasher = PasswordHasher::new(4);
    let hash = hasher.hash("Secret1!").expect("hash");
    assert_eq!(hash.len(), 60);
    assert_eq!(hasher.verify("Secret1!", &hash), Ok(true));
    assert_eq!(hasher.verify("secret1!", &hash), Ok(false));
    assert_eq!(hasher.verify("Secret1!", "not a hash"), Err(PasswordError::VerifyFailed));
    assert_eq!(PasswordHasher::new(3).hash("x"), Err(PasswordError::HashFailed));
    assert_eq!(PasswordHasher::new(32).hash("x"), Err(PasswordError::HashFailed));
    assert_eq!(PasswordError::HashFailed.message(), "Failed to hash password");
    assert_eq!(PasswordError::VerifyFailed.message(), "Failed to verify password");
}

#[test]
fn hash_service_errors_are_internal() {
    let service = HashService::new(4);
    let hash = service.hash("pw").expect("hash");
    assert_eq!(service.verify("pw", &hash).ok(), Some(true));
    assert_eq!(service.verify("other", &hash).ok(), Some(false));
    assert!(matches!(service.verify("pw", "$2b$04$short"), Err(AppError::Internal(_))));
    assert!(matches!(HashService::new(40).hash("pw"), Err(AppError::Internal(_))));
}

#[test]
fn database_failures_become_repository_errors() {
    let conflict = |name: Option<&str>| match RepositoryError::from(DbFailure::UniqueViolation {
        constraint_name: name.map(String::from),
    }) {
        RepositoryError::Conflict(m) => m,
        other => panic!("unexpected: {other:?}"),
    };
    assert_eq!(conflict(Some("accounts_email_key")), "email already in use");
    assert_eq!(conflict(Some("characters_name")), "name already in use");
    assert_eq!(conflict(Some("nounderscore")), "field already in use");
    assert_eq!(conflict(Some("trailing_")), " already in use");
    assert_eq!(conflict(None), "field already in use");
    assert!(matches!(RepositoryError::from(DbFailure::NotFound), RepositoryError::NotFound));
    let db = RepositoryError::from(DbFailure::OtherDatabase { message: "deadlock".to_string() });
    assert_eq!(db.message(), "Database error: deadlock");
    match AppError::from_repository(db) {
        AppError::Internal(m) => assert_eq!(m, "Database error: deadlock"),
        other => panic!("unexpected: {other:?}"),
    }
    match AppError::from_repository(RepositoryError::NotFound) {
        AppError::NotFound(m) => assert_eq!(m, "Resource not found"),
        other => panic!("unexpected: {other:?}"),
    }
    match AppError::from_repository(RepositoryError::Conflict("email already in use".to_string())) {
        AppError::Conflict(m) => assert_eq!(m, "Conflict: email already in use"),
        other => panic!("unexpected: {other:?}"),
    }
    let other = RepositoryError::from(DbFailure::Other { description: "pool closed".to_string() });
    assert_eq!(other.message(), "Internal error: pool closed");
}

#[test]
fn stored_times_render_as_rfc3339() {
    assert_eq!(format_naive_datetime(0).as_deref(), Some("1970-01-01T00:00:00+00:00"));
    assert_eq!(
        format_naive_datetime(1_700_000_000_000_000).as_deref(),
        Some("2023-11-14T22:13:20+00:00")
    );
    assert_eq!(format_naive_datetime(i64::MIN), None);
}

#[test]
fn mobs_get_the_slug_of_their_name() {
    let params = create_mob_params(CreateMobInput {
        name: "Dire Wolf".to_string(),
        description: Some("howls".to_string()),
        mob_type: "beast".to_string(),
    });
    assert_eq!(params.slug, "dire_wolf");
    assert_eq!(params.name, "Dire Wolf");
    assert_eq!(params.description.as_deref(), Some("howls"));
    assert_eq!(params.mob_type, "beast");
}

#[test]
fn attribute_text_of_json_values() {
    assert_eq!(json_value_to_string(&JsonAttributes::Text("plain".to_string())), "plain");
    assert_eq!(json_value_to_string(&JsonAttributes::Encoded("{\"a\":1}".to_string())), "{\"a\":1}");
}

#[test]
fn hashes_carry_the_hashers_work_factor() {
    let hash = PasswordHasher::new(5).hash("pw").expect("hash");
    assert!(hash.starts_with("$2b$05$"), "{hash}");
    let hash = HashService::new(4).hash("pw").expect("hash");
    assert!(hash.starts_with("$2b$04$"), "{hash}");
    // Any hasher verifies a hash made at another work factor.
    assert_eq!(PasswordHasher::new(12).verify("pw", &hash), Ok(true));
    let malformed = "x".repeat(60);
    assert_eq!(PasswordHasher::new(4).verify("pw", &malformed), Err(PasswordError::VerifyFailed));
    let bad_cost = format!("$2b$99${}", &hash[7..]);
    assert_eq!(PasswordHasher::new(4).verify("pw", &bad_cost), Err(PasswordError::VerifyFailed));
}

#[test]
fn item_attributes_are_the_json_of_the_text() {
    let v = parse_item_attributes("[1, \"a\"]").expect("json");
    assert_eq!(
        v,
        serde_json::Value::Array(vec![serde_json::Value::from(1), serde_json::Value::from("a")])
    );
    match parse_item_attributes("{oops") {
        Err(AppError::BadRequest(m)) => assert_eq!(m, "Invalid item instance attributes"),
        other => panic!("unexpected: {other:?}"),
    }
}

#[test]
fn any_hasher_verifies_and_bad_salts_fail() {
    let hash = PasswordHasher::new(6).hash("Secret1!").expect("hash");
    for cost in [4, 12, 31, 0] {
        assert_eq!(PasswordHasher::new(cost).verify("Secret1!", &hash), Ok(true));
    }
    let bad_salt = format!("{}!{}", &hash[..7], &hash[8..]);
    assert_eq!(PasswordHasher::new(4).verify("Secret1!", &bad_salt), Err(PasswordError::VerifyFailed));
}
