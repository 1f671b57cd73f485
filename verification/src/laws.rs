//! The decoder's guarantees, stated on their own: what holds of every valid
//! document, proved from the specifications of [`crate::model`] that the
//! decoder's contracts are written over.

use vstd::prelude::*;
use crate::error::ErrView;
use crate::kv::assoc_lookup;
use crate::model::{
    auth_of, auth_tokens, config_of, doc_err, doc_ok, fixed_key, profile_err, profile_of,
    profile_ok,
};
use crate::schema::AuthType;
use crate::toml_doc::TomlValue;

verus! {

/// Round-trip identity of the fixed fields: a valid document that sets the
/// five fixed fields to concrete values decodes to a configuration carrying
/// exactly those values, each wrapped as present.
pub proof fn lemma_fixed_fields_round_trip(
    d: Seq<(String, TomlValue)>,
    v: i64,
    img: String,
    mp: String,
    te: bool,
    suc: bool,
)
    requires
        doc_ok(d),
        assoc_lookup(d, "version"@) == Some(TomlValue::Int(v)),
        assoc_lookup(d, "local_deployment_image"@) == Some(TomlValue::Text(img)),
        assoc_lookup(d, "mongosh_path"@) == Some(TomlValue::Text(mp)),
        assoc_lookup(d, "telemetry_enabled"@) == Some(TomlValue::Bool(te)),
        assoc_lookup(d, "skip_update_check"@) == Some(TomlValue::Bool(suc)),
    ensures
        config_of(d).version == v,
        config_of(d).local_deployment_image == Some(img@),
        config_of(d).mongosh_path == Some(mp@),
        config_of(d).telemetry_enabled == Some(te),
        config_of(d).skip_update_check == Some(suc),
{
}

/// Absence is not a default: a valid document that omits an optional fixed
/// field decodes to a configuration where that field is unset — never a zero
/// value standing in for it.
pub proof fn lemma_absence_is_unset(d: Seq<(String, TomlValue)>)
    requires
        doc_ok(d),
    ensures
        assoc_lookup(d, "local_deployment_image"@) is None ==> config_of(
            d,
        ).local_deployment_image is None,
        assoc_lookup(d, "mongosh_path"@) is None ==> config_of(d).mongosh_path is None,
        assoc_lookup(d, "telemetry_enabled"@) is None ==> config_of(d).telemetry_enabled is None,
        assoc_lookup(d, "skip_update_check"@) is None ==> config_of(d).skip_update_check is None,
{
}

/// The catch-all profile rule: the decoded profile names are exactly the
/// top-level keys of the document other than the five fixed names; no fixed
/// name ever appears among the profiles.
pub proof fn lemma_profile_collection(d: Seq<(String, TomlValue)>, k: Seq<char>)
    requires
        doc_ok(d),
    ensures
        config_of(d).profiles.contains_key(k) <==> (!fixed_key(k) && assoc_lookup(d, k) is Some),
{
}

/// Profile field independence: a profile is decoded from its own record
/// alone, and each of its absent fields is unset — whatever any other profile
/// of the same document sets or omits.
pub proof fn lemma_profile_independence(
    d: Seq<(String, TomlValue)>,
    name: String,
    t: Vec<(String, TomlValue)>,
)
    requires
        doc_ok(d),
        !fixed_key(name@),
        assoc_lookup(d, name@) == Some(TomlValue::Table(t)),
    ensures
        config_of(d).profiles[name@] == profile_of(t@),
        assoc_lookup(t@, "auth_type"@) is None ==> config_of(d).profiles[name@].auth_type is None,
        assoc_lookup(t@, "org_id"@) is None ==> config_of(d).profiles[name@].org_id is None,
        assoc_lookup(t@, "project_id"@) is None ==> config_of(d).profiles[name@].project_id is None,
        assoc_lookup(t@, "service"@) is None ==> config_of(d).profiles[name@].service is None,
        assoc_lookup(t@, "output"@) is None ==> config_of(d).profiles[name@].output is None,
{
}

/// Closure of the `auth_type` enumeration: exactly the three recognized
/// tokens denote a mechanism, each its own.
pub proof fn lemma_auth_closure(t: Seq<char>)
    ensures
        auth_of("user_account"@) == Some(AuthType::UserAccount),
        auth_of("api_keys"@) == Some(AuthType::ApiKeys),
        auth_of("service_account"@) == Some(AuthType::ServiceAccount),
        auth_of(t) is Some ==> t == "user_account"@ || t == "api_keys"@ || t == "service_account"@,
{
    reveal_strlit("user_account");
    reveal_strlit("api_keys");
    reveal_strlit("service_account");
    assert("user_account"@.len() == 12);
    assert("api_keys"@.len() == 8);
    assert("service_account"@.len() == 15);
}

/// Any other token is rejected as `UnknownVariant`, carrying the offending
/// value and the allowed set.
pub proof fn lemma_unknown_auth_rejected(t: Seq<(String, TomlValue)>, s: String)
    requires
        assoc_lookup(t, "auth_type"@) == Some(TomlValue::Text(s)),
        auth_of(s@) is None,
    ensures
        !profile_ok(t),
        profile_err(t) == (ErrView::UnknownVariant {
            field: "auth_type"@,
            value: s@,
            allowed: auth_tokens(),
        }),
{
}

/// Enforcement of the required field: a document lacking `version` is never
/// a configuration, and the error that rejects it is `MissingField` naming
/// `version`.
pub proof fn lemma_missing_version_rejected(d: Seq<(String, TomlValue)>)
    requires
        assoc_lookup(d, "version"@) is None,
    ensures
        !doc_ok(d),
        doc_err(d) == (ErrView::MissingField { field: "version"@ }),
{
}

} // verus!
