//! The decoder: one pure pass from a parsed tree — or from raw text — to a
//! [`Config`] or a single [`ConfigError`]. Its contracts pin the outcome for
//! every input: which documents succeed, which configuration they yield, and
//! which error rejects each invalid one.

use vstd::prelude::*;
use crate::error::{ConfigError, ErrView};
use crate::kv::{assoc_find, str_eq};
use crate::model::{
    auth_err, auth_field_of, auth_ok, auth_of, bool_err, config_of, doc_err, doc_ok, entry_ok,
    fixed_key, lemma_entries_err_at, lemma_profiles_map_of, opt_bool_of, opt_bool_ok, opt_text_ok,
    opt_text_val, profile_entries_val, profile_err, profile_ok, profile_val, text_err, version_err,
    version_of, version_ok,
};
use crate::schema::{AuthType, Config, Profile, Profiles};
use crate::toml_doc::{parse_toml, shape, toml_tree, TomlValue};

verus! {

/// The shape name of a value, for an error message.
fn shape_name(v: &TomlValue) -> (r: String)
    ensures
        r@ == shape(*v),
{
    match v {
        TomlValue::Int(_) => "integer".to_owned(),
        TomlValue::Text(_) => "string".to_owned(),
        TomlValue::Bool(_) => "boolean".to_owned(),
        TomlValue::Table(_) => "table".to_owned(),
        TomlValue::Other(s) => s.clone(),
    }
}

/// A `TypeMismatch` for `field`, which was expected of shape `expected`.
fn type_mismatch(field: &str, expected: &str, actual: String) -> (r: ConfigError)
    ensures
        r@ == (ErrView::TypeMismatch { field: field@, expected: expected@, actual: actual@ }),
{
    ConfigError::TypeMismatch {
        field: field.to_owned(),
        expected: expected.to_owned(),
        actual,
    }
}

/// Reads an optional string field: absent is `Ok(None)`, any non-string
/// presence is the field's `TypeMismatch`.
fn opt_text_field(entries: &Vec<(String, TomlValue)>, key: &str) -> (r: Result<
    Option<String>,
    ConfigError,
>)
    ensures
        r is Ok <==> opt_text_ok(entries@, key@),
        r matches Ok(o) ==> o == opt_text_val(entries@, key@),
        r matches Err(e) ==> e@ == text_err(entries@, key@),
{
    match assoc_find(entries, key) {
        None => Ok(None),
        Some(TomlValue::Text(s)) => Ok(Some(s.clone())),
        Some(v) => Err(type_mismatch(key, "string", shape_name(v))),
    }
}

/// Reads an optional boolean field in the same way.
fn opt_bool_field(entries: &Vec<(String, TomlValue)>, key: &str) -> (r: Result<
    Option<bool>,
    ConfigError,
>)
    ensures
        r is Ok <==> opt_bool_ok(entries@, key@),
        r matches Ok(o) ==> o == opt_bool_of(entries@, key@),
        r matches Err(e) ==> e@ == bool_err(entries@, key@),
{
    match assoc_find(entries, key) {
        None => Ok(None),
        Some(TomlValue::Bool(b)) => Ok(Some(*b)),
        Some(v) => Err(type_mismatch(key, "boolean", shape_name(v))),
    }
}

/// Reads the required `version` field: absent is `MissingField`, a
/// non-integer presence is `TypeMismatch`.
fn version_field(entries: &Vec<(String, TomlValue)>) -> (r: Result<i64, ConfigError>)
    ensures
        r is Ok <==> version_ok(entries@),
        r matches Ok(v) ==> v == version_of(entries@),
        r matches Err(e) ==> e@ == version_err(entries@),
{
    match assoc_find(entries, "version") {
        None => Err(ConfigError::MissingField { field: "version".to_owned() }),
        Some(TomlValue::Int(i)) => Ok(*i),
        Some(v) => Err(type_mismatch("version", "integer", shape_name(v))),
    }
}

/// The authentication mechanism a token denotes, if it is one of the three
/// recognized tokens.
pub fn parse_auth_token(s: &str) -> (r: Option<AuthType>)
    ensures
        r == auth_of(s@),
{
    if str_eq(s, "user_account") {
        Some(AuthType::UserAccount)
    } else if str_eq(s, "api_keys") {
        Some(AuthType::ApiKeys)
    } else if str_eq(s, "service_account") {
        Some(AuthType::ServiceAccount)
    } else {
        None
    }
}

/// Reads a profile's optional `auth_type`: an unrecognized token is
/// `UnknownVariant`, a non-string presence `TypeMismatch`.
fn auth_field(entries: &Vec<(String, TomlValue)>) -> (r: Result<Option<AuthType>, ConfigError>)
    ensures
        r is Ok <==> auth_ok(entries@),
        r matches Ok(o) ==> o == auth_field_of(entries@),
        r matches Err(e) ==> e@ == auth_err(entries@),
{
    match assoc_find(entries, "auth_type") {
        None => Ok(None),
        Some(TomlValue::Text(s)) => match parse_auth_token(s.as_str()) {
            Some(a) => Ok(Some(a)),
            None => Err(ConfigError::UnknownVariant {
                field: "auth_type".to_owned(),
                value: s.clone(),
                allowed: "user_account, api_keys, service_account".to_owned(),
            }),
        },
        Some(v) => Err(type_mismatch("auth_type", "string", shape_name(v))),
    }
}

/// Decodes one profile record, its fields checked in declaration order.
fn decode_profile(entries: &Vec<(String, TomlValue)>) -> (r: Result<Profile, ConfigError>)
    ensures
        r is Ok <==> profile_ok(entries@),
        r matches Ok(p) ==> p == profile_val(entries@),
        r matches Err(e) ==> e@ == profile_err(entries@),
{
    let auth_type = match auth_field(entries) {
        Ok(a) => a,
        Err(e) => return Err(e),
    };
    let org_id = match opt_text_field(entries, "org_id") {
        Ok(o) => o,
        Err(e) => return Err(e),
    };
    let project_id = match opt_text_field(entries, "project_id") {
        Ok(o) => o,
        Err(e) => return Err(e),
    };
    let service = match opt_text_field(entries, "service") {
        Ok(o) => o,
        Err(e) => return Err(e),
    };
    let output = match opt_text_field(entries, "output") {
        Ok(o) => o,
        Err(e) => return Err(e),
    };
    Ok(Profile { auth_type, org_id, project_id, service, output })
}

/// Whether `k` is one of the five fixed top-level field names.
fn is_fixed_name(k: &str) -> (r: bool)
    ensures
        r == fixed_key(k@),
{
    str_eq(k, "version") || str_eq(k, "local_deployment_image") || str_eq(k, "mongosh_path")
        || str_eq(k, "telemetry_enabled") || str_eq(k, "skip_update_check")
}

/// Decodes a parsed tree into a configuration, or rejects it with the single
/// error that [`doc_err`] determines.
pub fn decode(entries: &Vec<(String, TomlValue)>) -> (r: Result<Config, ConfigError>)
    ensures
        r is Ok <==> doc_ok(entries@),
        r matches Ok(c) ==> c@ == config_of(entries@),
        r matches Err(e) ==> e@ == doc_err(entries@),
{
    let version = match version_field(entries) {
        Ok(v) => v,
        Err(e) => return Err(e),
    };
    let local_deployment_image = match opt_text_field(entries, "local_deployment_image") {
        Ok(o) => o,
        Err(e) => return Err(e),
    };
    let mongosh_path = match opt_text_field(entries, "mongosh_path") {
        Ok(o) => o,
        Err(e) => return Err(e),
    };
    let telemetry_enabled = match opt_bool_field(entries, "telemetry_enabled") {
        Ok(o) => o,
        Err(e) => return Err(e),
    };
    let skip_update_check = match opt_bool_field(entries, "skip_update_check") {
        Ok(o) => o,
        Err(e) => return Err(e),
    };
    let n = entries.len();
    let mut pentries: Vec<(String, Profile)> = Vec::new();
    let mut i: usize = 0;
    while i < n
        invariant
            n == entries@.len(),
            i <= n,
            version_ok(entries@),
            opt_text_ok(entries@, "local_deployment_image"@),
            opt_text_ok(entries@, "mongosh_path"@),
            opt_bool_ok(entries@, "telemetry_enabled"@),
            opt_bool_ok(entries@, "skip_update_check"@),
            forall|j: int| 0 <= j < i ==> entry_ok(#[trigger] entries@[j]),
            pentries@ == profile_entries_val(entries@.take(i as int)),
        decreases n - i,
    {
        proof {
            assert(entries@.take(i + 1).drop_last() =~= entries@.take(i as int));
            assert(entries@.take(i + 1).last() == entries@[i as int]);
        }
        if !is_fixed_name(entries[i].0.as_str()) {
            match &entries[i].1 {
                TomlValue::Table(t) => {
                    match decode_profile(t) {
                        Ok(p) => {
                            let name = entries[i].0.clone();
                            pentries.push((name, p));
                        },
                        Err(e) => {
                            proof {
                                lemma_entries_err_at(entries@, i as int);
                            }
                            return Err(e);
                        },
                    }
                },
                v => {
                    let e = type_mismatch(entries[i].0.as_str(), "table", shape_name(v));
                    proof {
                        lemma_entries_err_at(entries@, i as int);
                    }
                    return Err(e);
                },
            }
        }
        i += 1;
    }
    proof {
        assert(entries@.take(n as int) =~= entries@);
        lemma_profiles_map_of(entries@);
    }
    let profiles = Profiles::from_entries(pentries);
    Ok(Config {
        version,
        local_deployment_image,
        mongosh_path,
        telemetry_enabled,
        skip_update_check,
        profiles,
    })
}

impl Config {
    /// Parses one complete configuration document: TOML syntax first, then
    /// the schema. The one entry point of this crate.
    pub fn from_str(s: &str) -> (r: Result<Config, ConfigError>)
        ensures
            toml_tree(s@) is None ==> (r matches Err(e) && e@ is Syntax),
            toml_tree(s@) matches Some(d) ==> {
                &&& (r is Ok <==> doc_ok(d))
                &&& (r matches Ok(c) ==> c@ == config_of(d))
                &&& (r matches Err(e) ==> e@ == doc_err(d))
            },
    {
        match parse_toml(s) {
            Ok(entries) => decode(&entries),
            Err(message) => Err(ConfigError::Syntax { message }),
        }
    }
}

} // verus!
