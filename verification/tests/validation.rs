use aurelis::dto::admin::CreateMobRequest;
use aurelis::dto::auth::{LoginRequest, RegisterRequest};
use aurelis::dto::character::CreateCharacterRequest;
use aurelis::dto::checks::{add_field, char_count, length_error};
use aurelis::requests::{
    extract_access_token_from_metadata, format_validation_errors, AccessTokenError, FieldErrors,
};
use aurelis::validation::{
    validate_class, validate_inventory_type, validate_punishment_type, validate_strong_password,
    validate_suspension_severity, validate_uuid, FieldError,
};

fn code_of(r: Result<(), FieldError>) -> Option<(String, Option<String>)> {
    r.err().map(|e| (e.code, e.message))
}

#[test]
fn enumerated_fields_accept_their_values_only() {
    for c in ["kael", "rin", "sirena"] {
        assert!(validate_class(c).is_ok());
    }
    assert_eq!(code_of(validate_class("Kael")), Some(("invalid_class".to_string(), None)));
    for t in ["equipment", "accessory", "consumable", "material", "quest_item", "special"] {
        assert!(validate_inventory_type(t).is_ok());
    }
    assert_eq!(
        code_of(validate_inventory_type("weapons")).map(|c| c.0),
        Some("invalid_inventory_type".to_string())
    );
    for t in ["ban", "unban", "suspend", "unsuspend"] {
        assert!(validate_punishment_type(t).is_ok());
    }
    assert_eq!(
        code_of(validate_punishment_type("kick")).map(|c| c.0),
        Some("invalid_punishment_type".to_string())
    );
    for s in ["low", "medium", "high"] {
        assert!(validate_suspension_severity(s).is_ok());
    }
    assert_eq!(
        code_of(validate_suspension_severity("extreme")),
        Some(("invalid_suspension_severity".to_string(), None))
    );
    assert!(validate_uuid(0x1234).is_ok());
}

#[test]
fn strong_password_reports_first_missing_kind() {
    assert!(validate_strong_password("Abcdef1!").is_ok());
    let msg = |p: &str| validate_strong_password(p).err().and_then(|e| {
        assert_eq!(e.code, "strong_password");
        e.message
    });
    assert_eq!(msg("abcdef1!").as_deref(), Some("must contain at least one uppercase letter"));
    assert_eq!(msg("ABCDEF1!").as_deref(), Some("must contain at least one lowercase letter"));
    assert_eq!(msg("Abcdefg!").as_deref(), Some("must contain at least one digit"));
    assert_eq!(msg("Abcdefg1").as_deref(), Some("must contain at least one special character"));
    assert_eq!(msg("").as_deref(), Some("must contain at least one uppercase letter"));
}

#[test]
fn register_body_reports_each_field() {
    let ok = RegisterRequest { email: "player@aurelis.dev".to_string(), password: "Secret1!".to_string() };
    assert!(ok.validate().is_ok());

    let bad = RegisterRequest { email: "not-an-email".to_string(), password: "short".to_string() };
    let errors = bad.validate().expect_err("should fail");
    assert_eq!(errors.len(), 2);
    assert_eq!(errors[0].field, "email");
    assert_eq!(errors[0].errors.len(), 1);
    assert_eq!(errors[0].errors[0].code, "email");
    assert_eq!(errors[0].errors[0].message.as_deref(), Some("must be a valid email address"));
    assert_eq!(errors[1].field, "password");
    assert_eq!(errors[1].errors.len(), 2);
    assert_eq!(errors[1].errors[0].code, "length");
    assert_eq!(errors[1].errors[0].message.as_deref(), Some("must be at least 8 characters"));
    assert_eq!(errors[1].errors[1].code, "strong_password");
    assert_eq!(
        format_validation_errors(&errors),
        "email: must be a valid email address; password: must be at least 8 characters, must contain at least one uppercase letter"
    );

    let weak = RegisterRequest { email: "player@aurelis.dev".to_string(), password: "longenough".to_string() };
    let errors = weak.validate().expect_err("weak password");
    assert_eq!(errors.len(), 1);
    assert_eq!(errors[0].field, "password");
    assert_eq!(errors[0].errors.len(), 1);
}

#[test]
fn login_body_checks_the_email() {
    assert!(LoginRequest { email: "a@b.io".to_string(), password: String::new() }.validate().is_ok());
    let errors = LoginRequest { email: "nobody".to_string(), password: "x".to_string() }
        .validate()
        .expect_err("should fail");
    assert_eq!(format_validation_errors(&errors), "email: must be a valid email address");
}

#[test]
fn character_and_mob_names_have_length_bounds() {
    let named = |n: &str| CreateCharacterRequest { name: n.to_string(), class: "kael".to_string() };
    assert!(named("Kae").validate().is_ok());
    assert!(named(&"x".repeat(24)).validate().is_ok());
    let errors = named("Ka").validate().expect_err("too short");
    assert_eq!(format_validation_errors(&errors), "name: must be between 3 and 24 characters");
    assert!(named(&"x".repeat(25)).validate().is_err());
    assert!(named("Ærø").validate().is_ok());

    let mob = |n: &str| CreateMobRequest { name: n.to_string(), description: None, mob_type: "beast".to_string() };
    assert!(mob("W").validate().is_ok());
    let errors = mob("").validate().expect_err("empty");
    assert_eq!(format_validation_errors(&errors), "name: length");
    assert!(mob(&"m".repeat(65)).validate().is_err());
}

#[test]
fn field_error_helpers() {
    assert_eq!(char_count("añb"), 3);
    let e = length_error(None);
    assert_eq!((e.code.as_str(), e.message), ("length", None));
    let mut out: Vec<FieldErrors> = Vec::new();
    add_field(&mut out, "name", Vec::new());
    assert!(out.is_empty());
    add_field(&mut out, "name", vec![FieldError::new("required")]);
    add_field(&mut out, "email", vec![FieldError::new("email"), length_error(Some("too long"))]);
    assert_eq!(format_validation_errors(&out), "name: required; email: email, too long");
    assert_eq!(format_validation_errors(&Vec::new()), "");
}

#[test]
fn access_tokens_lose_their_bearer_prefix() {
    assert_eq!(extract_access_token_from_metadata(Some(Some("Bearer abc.def"))), Ok("abc.def".to_string()));
    assert_eq!(extract_access_token_from_metadata(Some(Some("Bearer Bearer t"))), Ok("t".to_string()));
    assert_eq!(extract_access_token_from_metadata(Some(Some("raw"))), Ok("raw".to_string()));
    assert_eq!(extract_access_token_from_metadata(Some(Some("Bearer"))), Ok("Bearer".to_string()));
    assert_eq!(extract_access_token_from_metadata(None), Err(AccessTokenError::Missing));
    assert_eq!(extract_access_token_from_metadata(Some(None)), Err(AccessTokenError::Invalid));
    assert_eq!(AccessTokenError::Missing.message(), "Missing Access Token");
    assert_eq!(AccessTokenError::Invalid.message(), "Invalid Access Token");
}
