//! What decoding means: spec functions that say, for every parsed tree,
//! whether it is a valid configuration document, which configuration it
//! denotes, and which single error rejects it otherwise.
//!
//! Checks run in a fixed order — `version`, then the four optional fixed
//! fields, then the remaining entries in tree order, each profile's fields in
//! declaration order — so the rejecting error is fully determined.

use vstd::prelude::*;
use crate::error::ErrView;
use crate::kv::assoc_lookup;
use crate::schema::{AuthType, ConfigView, Profile, ProfileView};
use crate::toml_doc::{shape, table_entries, TomlValue};

verus! {

/// Whether `k` is one of the five fixed top-level field names. Every other
/// top-level key names a profile.
pub open spec fn fixed_key(k: Seq<char>) -> bool {
    ||| k == "version"@
    ||| k == "local_deployment_image"@
    ||| k == "mongosh_path"@
    ||| k == "telemetry_enabled"@
    ||| k == "skip_update_check"@
}

/// The authentication mechanism that an `auth_type` token denotes, if any:
/// the mapping is total on exactly three tokens, with no fuzzy matching.
pub open spec fn auth_of(t: Seq<char>) -> Option<AuthType> {
    if t == "user_account"@ {
        Some(AuthType::UserAccount)
    } else if t == "api_keys"@ {
        Some(AuthType::ApiKeys)
    } else if t == "service_account"@ {
        Some(AuthType::ServiceAccount)
    } else {
        None
    }
}

/// The allowed `auth_type` tokens, as an error message lists them.
pub open spec fn auth_tokens() -> Seq<char> {
    "user_account, api_keys, service_account"@
}

/// An optional string field is absent or holds a string.
pub open spec fn opt_text_ok(d: Seq<(String, TomlValue)>, k: Seq<char>) -> bool {
    match assoc_lookup(d, k) {
        None => true,
        Some(v) => v is Text,
    }
}

/// The value of an optional string field; `None` where it is absent.
pub open spec fn opt_text_of(d: Seq<(String, TomlValue)>, k: Seq<char>) -> Option<Seq<char>> {
    match assoc_lookup(d, k) {
        Some(TomlValue::Text(s)) => Some(s@),
        _ => None,
    }
}

/// The string field's value as it sits in the tree, for restating the decoded
/// configuration over the tree's own strings.
pub open spec fn opt_text_val(d: Seq<(String, TomlValue)>, k: Seq<char>) -> Option<String> {
    match assoc_lookup(d, k) {
        Some(TomlValue::Text(s)) => Some(s),
        _ => None,
    }
}

/// An optional boolean field is absent or holds a boolean.
pub open spec fn opt_bool_ok(d: Seq<(String, TomlValue)>, k: Seq<char>) -> bool {
    match assoc_lookup(d, k) {
        None => true,
        Some(v) => v is Bool,
    }
}

/// The value of an optional boolean field; `None` where it is absent.
pub open spec fn opt_bool_of(d: Seq<(String, TomlValue)>, k: Seq<char>) -> Option<bool> {
    match assoc_lookup(d, k) {
        Some(TomlValue::Bool(b)) => Some(b),
        _ => None,
    }
}

/// The error that rejects a present but non-string field.
pub open spec fn text_err(d: Seq<(String, TomlValue)>, k: Seq<char>) -> ErrView {
    match assoc_lookup(d, k) {
        Some(v) => ErrView::TypeMismatch { field: k, expected: "string"@, actual: shape(v) },
        None => arbitrary(),
    }
}

/// The error that rejects a present but non-boolean field.
pub open spec fn bool_err(d: Seq<(String, TomlValue)>, k: Seq<char>) -> ErrView {
    match assoc_lookup(d, k) {
        Some(v) => ErrView::TypeMismatch { field: k, expected: "boolean"@, actual: shape(v) },
        None => arbitrary(),
    }
}

/// `version` is present and holds an integer.
pub open spec fn version_ok(d: Seq<(String, TomlValue)>) -> bool {
    assoc_lookup(d, "version"@) matches Some(TomlValue::Int(_))
}

/// The value of `version`, on a document where it is present as an integer.
pub open spec fn version_of(d: Seq<(String, TomlValue)>) -> i64 {
    match assoc_lookup(d, "version"@) {
        Some(TomlValue::Int(i)) => i,
        _ => arbitrary(),
    }
}

/// The error that rejects a document whose `version` is absent or not an
/// integer.
pub open spec fn version_err(d: Seq<(String, TomlValue)>) -> ErrView {
    match assoc_lookup(d, "version"@) {
        None => ErrView::MissingField { field: "version"@ },
        Some(v) => ErrView::TypeMismatch {
            field: "version"@,
            expected: "integer"@,
            actual: shape(v),
        },
    }
}

/// A profile's `auth_type` is absent, or holds one of the recognized tokens.
pub open spec fn auth_ok(t: Seq<(String, TomlValue)>) -> bool {
    match assoc_lookup(t, "auth_type"@) {
        None => true,
        Some(TomlValue::Text(s)) => auth_of(s@) is Some,
        Some(_) => false,
    }
}

/// The decoded `auth_type` of a profile; `None` where it is absent.
pub open spec fn auth_field_of(t: Seq<(String, TomlValue)>) -> Option<AuthType> {
    match assoc_lookup(t, "auth_type"@) {
        Some(TomlValue::Text(s)) => auth_of(s@),
        _ => None,
    }
}

/// The error that rejects a profile's bad `auth_type`: an unrecognized token,
/// or a non-string value.
pub open spec fn auth_err(t: Seq<(String, TomlValue)>) -> ErrView {
    match assoc_lookup(t, "auth_type"@) {
        Some(TomlValue::Text(s)) => ErrView::UnknownVariant {
            field: "auth_type"@,
            value: s@,
            allowed: auth_tokens(),
        },
        Some(v) => ErrView::TypeMismatch {
            field: "auth_type"@,
            expected: "string"@,
            actual: shape(v),
        },
        None => arbitrary(),
    }
}

/// Every field of a profile record is well-shaped.
pub open spec fn profile_ok(t: Seq<(String, TomlValue)>) -> bool {
    &&& auth_ok(t)
    &&& opt_text_ok(t, "org_id"@)
    &&& opt_text_ok(t, "project_id"@)
    &&& opt_text_ok(t, "service"@)
    &&& opt_text_ok(t, "output"@)
}

/// The profile that a well-shaped record denotes. A field absent from the
/// record is unset; keys outside the five known names are ignored.
pub open spec fn profile_of(t: Seq<(String, TomlValue)>) -> ProfileView {
    ProfileView {
        auth_type: auth_field_of(t),
        org_id: opt_text_of(t, "org_id"@),
        project_id: opt_text_of(t, "project_id"@),
        service: opt_text_of(t, "service"@),
        output: opt_text_of(t, "output"@),
    }
}

/// The same profile built over the record's own strings.
pub open spec fn profile_val(t: Seq<(String, TomlValue)>) -> Profile {
    Profile {
        auth_type: auth_field_of(t),
        org_id: opt_text_val(t, "org_id"@),
        project_id: opt_text_val(t, "project_id"@),
        service: opt_text_val(t, "service"@),
        output: opt_text_val(t, "output"@),
    }
}

/// The first error in a profile record, its fields checked in declaration
/// order.
pub open spec fn profile_err(t: Seq<(String, TomlValue)>) -> ErrView {
    if !auth_ok(t) {
        auth_err(t)
    } else if !opt_text_ok(t, "org_id"@) {
        text_err(t, "org_id"@)
    } else if !opt_text_ok(t, "project_id"@) {
        text_err(t, "project_id"@)
    } else if !opt_text_ok(t, "service"@) {
        text_err(t, "service"@)
    } else {
        text_err(t, "output"@)
    }
}

/// A top-level entry is acceptable: a fixed field (checked elsewhere), or a
/// table holding a well-shaped profile record.
pub open spec fn entry_ok(e: (String, TomlValue)) -> bool {
    ||| fixed_key(e.0@)
    ||| (e.1 is Table && profile_ok(table_entries(e.1)))
}

/// Every top-level entry is acceptable.
pub open spec fn entries_ok(d: Seq<(String, TomlValue)>) -> bool {
    forall|i: int| 0 <= i < d.len() ==> entry_ok(#[trigger] d[i])
}

/// The error that rejects one unacceptable entry: a would-be profile that is
/// no table, or a bad field inside its record.
pub open spec fn entry_err(e: (String, TomlValue)) -> ErrView {
    if !(e.1 is Table) {
        ErrView::TypeMismatch { field: e.0@, expected: "table"@, actual: shape(e.1) }
    } else {
        profile_err(table_entries(e.1))
    }
}

/// The error of the first unacceptable entry, in tree order.
pub open spec fn entries_err(d: Seq<(String, TomlValue)>) -> ErrView
    decreases d.len(),
{
    if d.len() == 0 {
        arbitrary()
    } else if !entry_ok(d[0]) {
        entry_err(d[0])
    } else {
        entries_err(d.drop_first())
    }
}

/// A valid configuration document: `version` present as an integer, the four
/// optional fixed fields well-typed where present, and every other top-level
/// entry a well-shaped profile record.
pub open spec fn doc_ok(d: Seq<(String, TomlValue)>) -> bool {
    &&& version_ok(d)
    &&& opt_text_ok(d, "local_deployment_image"@)
    &&& opt_text_ok(d, "mongosh_path"@)
    &&& opt_bool_ok(d, "telemetry_enabled"@)
    &&& opt_bool_ok(d, "skip_update_check"@)
    &&& entries_ok(d)
}

/// The profile mapping of a document: exactly the non-fixed top-level keys,
/// each to the profile its table denotes.
pub open spec fn profiles_of(d: Seq<(String, TomlValue)>) -> Map<Seq<char>, ProfileView> {
    Map::new(
        |k: Seq<char>| !fixed_key(k) && assoc_lookup(d, k) is Some,
        |k: Seq<char>| profile_of(table_entries(assoc_lookup(d, k).unwrap())),
    )
}

/// The configuration that a valid document denotes.
pub open spec fn config_of(d: Seq<(String, TomlValue)>) -> ConfigView {
    ConfigView {
        version: version_of(d),
        local_deployment_image: opt_text_of(d, "local_deployment_image"@),
        mongosh_path: opt_text_of(d, "mongosh_path"@),
        telemetry_enabled: opt_bool_of(d, "telemetry_enabled"@),
        skip_update_check: opt_bool_of(d, "skip_update_check"@),
        profiles: profiles_of(d),
    }
}

/// The single error that rejects an invalid document, in check order.
pub open spec fn doc_err(d: Seq<(String, TomlValue)>) -> ErrView {
    if !version_ok(d) {
        version_err(d)
    } else if !opt_text_ok(d, "local_deployment_image"@) {
        text_err(d, "local_deployment_image"@)
    } else if !opt_text_ok(d, "mongosh_path"@) {
        text_err(d, "mongosh_path"@)
    } else if !opt_bool_ok(d, "telemetry_enabled"@) {
        bool_err(d, "telemetry_enabled"@)
    } else if !opt_bool_ok(d, "skip_update_check"@) {
        bool_err(d, "skip_update_check"@)
    } else {
        entries_err(d)
    }
}

/// The profile entries of a document, in tree order, over the tree's own
/// strings: what the decoder accumulates.
pub open spec fn profile_entries_val(d: Seq<(String, TomlValue)>) -> Seq<(String, Profile)>
    decreases d.len(),
{
    if d.len() == 0 {
        Seq::empty()
    } else {
        let rest = profile_entries_val(d.drop_last());
        let e = d.last();
        if fixed_key(e.0@) {
            rest
        } else {
            rest.push((e.0, profile_val(table_entries(e.1))))
        }
    }
}

/// With every entry before `i` acceptable and entry `i` not, the document's
/// entry error is entry `i`'s.
pub proof fn lemma_entries_err_at(d: Seq<(String, TomlValue)>, i: int)
    requires
        0 <= i < d.len(),
        forall|j: int| 0 <= j < i ==> entry_ok(#[trigger] d[j]),
        !entry_ok(d[i]),
    ensures
        entries_err(d) == entry_err(d[i]),
        !entries_ok(d),
    decreases i,
{
    if i > 0 {
        assert(entry_ok(d[0]));
        assert forall|j: int| 0 <= j < i - 1 implies entry_ok(#[trigger] d.drop_first()[j]) by {
            assert(d.drop_first()[j] == d[j + 1]);
        }
        assert(d.drop_first()[i - 1] == d[i]);
        lemma_entries_err_at(d.drop_first(), i - 1);
    }
}

/// A profile built over the record's own strings reads as the record's
/// profile.
pub proof fn lemma_profile_val_view(t: Seq<(String, TomlValue)>)
    ensures
        profile_val(t)@ == profile_of(t),
{
}

/// What a name finds among a document's accumulated profile entries: nothing
/// for a fixed name, and otherwise the profile of the first entry carrying
/// it, exactly as a lookup in the document itself finds that entry.
pub proof fn lemma_profile_entries_lookup(d: Seq<(String, TomlValue)>, k: Seq<char>)
    ensures
        fixed_key(k) ==> assoc_lookup(profile_entries_val(d), k) is None,
        !fixed_key(k) ==> assoc_lookup(profile_entries_val(d), k) == match assoc_lookup(d, k) {
            Some(v) => Some(profile_val(table_entries(v))),
            None => None::<Profile>,
        },
    decreases d.len(),
{
    if d.len() > 0 {
        let rest = d.drop_last();
        let e = d.last();
        lemma_profile_entries_lookup(rest, k);
        assert(rest.push(e) =~= d);
        crate::kv::lemma_assoc_lookup_push(rest, e, k);
        if !fixed_key(e.0@) {
            crate::kv::lemma_assoc_lookup_push(
                profile_entries_val(rest),
                (e.0, profile_val(table_entries(e.1))),
                k,
            );
        }
    }
}

/// The profile mapping that the accumulated entries denote is the document's.
pub proof fn lemma_profiles_map_of(d: Seq<(String, TomlValue)>)
    ensures
        crate::schema::profiles_map(profile_entries_val(d)) == profiles_of(d),
{
    let m1 = crate::schema::profiles_map(profile_entries_val(d));
    let m2 = profiles_of(d);
    assert forall|k: Seq<char>| m1.dom().contains(k) <==> m2.dom().contains(k) by {
        lemma_profile_entries_lookup(d, k);
    }
    assert forall|k: Seq<char>| m2.dom().contains(k) implies m1[k] == m2[k] by {
        lemma_profile_entries_lookup(d, k);
        lemma_profile_val_view(table_entries(assoc_lookup(d, k).unwrap()));
    }
    assert(m1 =~= m2);
}

} // verus!
