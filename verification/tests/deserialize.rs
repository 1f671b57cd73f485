//! The decoder on whole documents: the minimal document, the global
//! settings, and profiles in both shapes.

use atlas_config::schema::{AuthType, Config};

#[test]
fn test_deserialize_00_empty() {
    Config::from_str("version = 2\n").expect("Deserialize should succeed");
}

#[test]
fn test_deserialize_01_global_properties() {
    let config = Config::from_str(
        r#"
version = 2
local_deployment_image = "my-registry.internal:5000/atlas-cli-local:latest"
mongosh_path = "/home/user/mdb-tools/mongosh"
telemetry_enabled = true
skip_update_check = true
"#,
    )
    .expect("Deserialize should succeed");

    assert_eq!(config.version, 2);
    assert_eq!(
        config.local_deployment_image,
        Some("my-registry.internal:5000/atlas-cli-local:latest".to_string())
    );
    assert_eq!(
        config.mongosh_path,
        Some("/home/user/mdb-tools/mongosh".to_string())
    );
    assert_eq!(config.telemetry_enabled, Some(true));
    assert_eq!(config.skip_update_check, Some(true));
}

#[test]
fn test_deserialize_02_user_account() {
    let config = Config::from_str(
        r#"
version = 2

profile_1 = { auth_type = "user_account", org_id = "689eeba6559f4608e426b000", project_id = "689eebca5ebb720663a2d123", service = "cloud", output = "json" }
"#,
    )
    .expect("Deserialize should succeed");

    assert_eq!(config.version, 2);

    let profile_1 = config
        .profiles
        .get("profile_1")
        .expect("Profile should exist");
    assert_eq!(profile_1.auth_type, Some(AuthType::UserAccount));
    assert_eq!(
        profile_1.org_id,
        Some("689eeba6559f4608e426b000".to_string())
    );
    assert_eq!(
        profile_1.project_id,
        Some("689eebca5ebb720663a2d123".to_string())
    );
    assert_eq!(profile_1.service, Some("cloud".to_string()));
    assert_eq!(profile_1.output, Some("json".to_string()));
}

#[test]
fn test_deserialize_03_all_options() {
    let config = Config::from_str(
        r#"
version = 2

profile_with_user_account = { auth_type = "user_account", org_id = "689eeba6559f4608e426b000", project_id = "689eebca5ebb720663a2d123", service = "cloud", output = "json" }
profile_with_api_keys = { auth_type = "api_keys" }

[profile_with_service_account]
auth_type = "service_account"
service = "cloudgov"
output = "txt"
"#,
    )
    .expect("Deserialize should succeed");

    assert_eq!(config.version, 2);

    let profile_with_user_account = config
        .profiles
        .get("profile_with_user_account")
        .expect("Profile should exist");
    assert_eq!(
        profile_with_user_account.auth_type,
        Some(AuthType::UserAccount)
    );
    assert_eq!(
        profile_with_user_account.org_id,
        Some("689eeba6559f4608e426b000".to_string())
    );
    assert_eq!(
        profile_with_user_account.project_id,
        Some("689eebca5ebb720663a2d123".to_string())
    );
    assert_eq!(profile_with_user_account.service, Some("cloud".to_string()));
    assert_eq!(profile_with_user_account.output, Some("json".to_string()));

    let profile_with_api_keys = config
        .profiles
        .get("profile_with_api_keys")
        .expect("Profile should exist");
    assert_eq!(profile_with_api_keys.auth_type, Some(AuthType::ApiKeys));
    assert_eq!(profile_with_api_keys.org_id, None);
    assert_eq!(profile_with_api_keys.project_id, None);
    assert_eq!(profile_with_api_keys.service, None);
    assert_eq!(profile_with_api_keys.output, None);

    let profile_with_service_account = config
        .profiles
        .get("profile_with_service_account")
        .expect("Profile should exist");
    assert_eq!(
        profile_with_service_account.auth_type,
        Some(AuthType::ServiceAccount)
    );
    assert_eq!(profile_with_service_account.org_id, None);
    assert_eq!(profile_with_service_account.project_id, None);
    assert_eq!(
        profile_with_service_account.service,
        Some("cloudgov".to_string())
    );
    assert_eq!(profile_with_service_account.output, Some("txt".to_string()));
}

#[test]
fn test_version_only_document_leaves_everything_unset() {
    let config = Config::from_str("version = 2\n").expect("Deserialize should succeed");
    assert_eq!(config.version, 2);
    assert_eq!(config.local_deployment_image, None);
    assert_eq!(config.mongosh_path, None);
    assert_eq!(config.telemetry_enabled, None);
    assert_eq!(config.skip_update_check, None);
    assert!(config.profiles.is_empty());
}

#[test]
fn test_profile_section_and_inline_record_agree() {
    let inline = Config::from_str(
        "version = 2\nprofile_1 = { auth_type = \"api_keys\", output = \"json\" }\n",
    )
    .expect("Deserialize should succeed");
    let section = Config::from_str(
        "version = 2\n[profile_1]\nauth_type = \"api_keys\"\noutput = \"json\"\n",
    )
    .expect("Deserialize should succeed");
    let a = inline.profiles.get("profile_1").expect("Profile should exist");
    let b = section.profiles.get("profile_1").expect("Profile should exist");
    assert_eq!(a, b);
    assert_eq!(a.auth_type, Some(AuthType::ApiKeys));
    assert_eq!(a.output, Some("json".to_string()));
}

#[test]
fn test_fixed_names_never_become_profiles() {
    let config = Config::from_str(
        "version = 2\nmongosh_path = \"/usr/bin/mongosh\"\nextra = { service = \"cloud\" }\n",
    )
    .expect("Deserialize should succeed");
    assert!(config.profiles.get("mongosh_path").is_none());
    assert!(config.profiles.get("version").is_none());
    assert!(config.profiles.get("extra").is_some());
}
