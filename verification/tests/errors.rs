//! The error taxonomy: each rejection comes as the one documented error,
//! carrying the field, the shapes, or the offending token.

use atlas_config::decode::parse_auth_token;
use atlas_config::error::ConfigError;
use atlas_config::schema::{AuthType, Config};

#[test]
fn test_missing_version_reports_missing_field() {
    let err = Config::from_str("local_deployment_image = \"img\"\n")
        .expect_err("parse must fail without version");
    match err {
        ConfigError::MissingField { field } => assert_eq!(field, "version"),
        other => panic!("expected MissingField, got {:?}", other),
    }
}

#[test]
fn test_missing_version_wins_over_profile_errors() {
    let err = Config::from_str("profile_1 = { auth_type = \"admin\" }\n")
        .expect_err("parse must fail without version");
    match err {
        ConfigError::MissingField { field } => assert_eq!(field, "version"),
        other => panic!("expected MissingField, got {:?}", other),
    }
}

#[test]
fn test_text_version_reports_type_mismatch() {
    let err = Config::from_str("version = \"2\"\n").expect_err("parse must fail");
    match err {
        ConfigError::TypeMismatch {
            field,
            expected,
            actual,
        } => {
            assert_eq!(field, "version");
            assert_eq!(expected, "integer");
            assert_eq!(actual, "string");
        }
        other => panic!("expected TypeMismatch, got {:?}", other),
    }
}

#[test]
fn test_float_version_reports_type_mismatch() {
    let err = Config::from_str("version = 2.5\n").expect_err("parse must fail");
    match err {
        ConfigError::TypeMismatch {
            field,
            expected,
            actual,
        } => {
            assert_eq!(field, "version");
            assert_eq!(expected, "integer");
            assert_eq!(actual, "float");
        }
        other => panic!("expected TypeMismatch, got {:?}", other),
    }
}

#[test]
fn test_integer_boolean_field_reports_type_mismatch() {
    let err = Config::from_str("version = 2\ntelemetry_enabled = 5\n").expect_err("parse must fail");
    match err {
        ConfigError::TypeMismatch {
            field,
            expected,
            actual,
        } => {
            assert_eq!(field, "telemetry_enabled");
            assert_eq!(expected, "boolean");
            assert_eq!(actual, "integer");
        }
        other => panic!("expected TypeMismatch, got {:?}", other),
    }
}

#[test]
fn test_scalar_profile_reports_type_mismatch() {
    let err = Config::from_str("version = 2\nprofile_1 = \"cloud\"\n").expect_err("parse must fail");
    match err {
        ConfigError::TypeMismatch {
            field,
            expected,
            actual,
        } => {
            assert_eq!(field, "profile_1");
            assert_eq!(expected, "table");
            assert_eq!(actual, "string");
        }
        other => panic!("expected TypeMismatch, got {:?}", other),
    }
}

#[test]
fn test_integer_profile_field_reports_type_mismatch() {
    let err = Config::from_str("version = 2\nprofile_1 = { org_id = 5 }\n")
        .expect_err("parse must fail");
    match err {
        ConfigError::TypeMismatch {
            field,
            expected,
            actual,
        } => {
            assert_eq!(field, "org_id");
            assert_eq!(expected, "string");
            assert_eq!(actual, "integer");
        }
        other => panic!("expected TypeMismatch, got {:?}", other),
    }
}

#[test]
fn test_nested_table_profile_field_reports_type_mismatch() {
    let err = Config::from_str("version = 2\nprofile_1 = { org_id = { x = 1 } }\n")
        .expect_err("parse must fail");
    match err {
        ConfigError::TypeMismatch {
            field,
            expected,
            actual,
        } => {
            assert_eq!(field, "org_id");
            assert_eq!(expected, "string");
            assert_eq!(actual, "table");
        }
        other => panic!("expected TypeMismatch, got {:?}", other),
    }
}

#[test]
fn test_unknown_auth_type_reports_unknown_variant() {
    let err = Config::from_str("version = 2\nprofile_1 = { auth_type = \"admin\" }\n")
        .expect_err("parse must fail");
    match err {
        ConfigError::UnknownVariant {
            field,
            value,
            allowed,
        } => {
            assert_eq!(field, "auth_type");
            assert_eq!(value, "admin");
            assert_eq!(allowed, "user_account, api_keys, service_account");
        }
        other => panic!("expected UnknownVariant, got {:?}", other),
    }
}

#[test]
fn test_non_string_auth_type_reports_type_mismatch() {
    let err = Config::from_str("version = 2\nprofile_1 = { auth_type = 3 }\n")
        .expect_err("parse must fail");
    match err {
        ConfigError::TypeMismatch {
            field,
            expected,
            actual,
        } => {
            assert_eq!(field, "auth_type");
            assert_eq!(expected, "string");
            assert_eq!(actual, "integer");
        }
        other => panic!("expected TypeMismatch, got {:?}", other),
    }
}

#[test]
fn test_malformed_text_reports_syntax_error() {
    let err = Config::from_str("version = \n").expect_err("parse must fail");
    match err {
        ConfigError::Syntax { message } => assert!(!message.is_empty()),
        other => panic!("expected Syntax, got {:?}", other),
    }
}

#[test]
fn test_auth_tokens_map_to_their_variants() {
    assert_eq!(parse_auth_token("user_account"), Some(AuthType::UserAccount));
    assert_eq!(parse_auth_token("api_keys"), Some(AuthType::ApiKeys));
    assert_eq!(
        parse_auth_token("service_account"),
        Some(AuthType::ServiceAccount)
    );
    assert_eq!(parse_auth_token("UserAccount"), None);
    assert_eq!(parse_auth_token("admin"), None);
    assert_eq!(parse_auth_token(""), None);
}
