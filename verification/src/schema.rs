//! The typed shape of a configuration: five fixed top-level settings plus a
//! collection of named profiles. A value of these types is built once by the
//! decoder and never changed; "unset" is `None`, never a zero value.

use vstd::prelude::*;
use crate::kv::{assoc_find, assoc_lookup};

verus! {

/// The supported authentication mechanisms of a profile, a closed
/// enumeration: no other token is accepted.
#[derive(Debug, Clone, Copy, PartialEq, Eq)]
pub enum AuthType {
    UserAccount,
    ApiKeys,
    ServiceAccount,
}

/// A named sub-record of context-specific settings. Every field is optional,
/// independently per profile.
#[derive(Debug, Clone, PartialEq)]
pub struct Profile {
    pub auth_type: Option<AuthType>,
    pub org_id: Option<String>,
    pub project_id: Option<String>,
    pub service: Option<String>,
    pub output: Option<String>,
}

/// The mathematical image of a [`Profile`].
pub struct ProfileView {
    pub auth_type: Option<AuthType>,
    pub org_id: Option<Seq<char>>,
    pub project_id: Option<Seq<char>>,
    pub service: Option<Seq<char>>,
    pub output: Option<Seq<char>>,
}

/// An optional string as an optional character sequence.
pub open spec fn opt_str_view(o: Option<String>) -> Option<Seq<char>> {
    match o {
        Some(s) => Some(s@),
        None => None,
    }
}

impl View for Profile {
    type V = ProfileView;

    open spec fn view(&self) -> ProfileView {
        ProfileView {
            auth_type: self.auth_type,
            org_id: opt_str_view(self.org_id),
            project_id: opt_str_view(self.project_id),
            service: opt_str_view(self.service),
            output: opt_str_view(self.output),
        }
    }
}

/// The profile mapping that a list of named profiles denotes: each name maps
/// to the first profile carrying it.
pub open spec fn profiles_map(s: Seq<(String, Profile)>) -> Map<Seq<char>, ProfileView> {
    Map::new(
        |k: Seq<char>| assoc_lookup(s, k) is Some,
        |k: Seq<char>| assoc_lookup(s, k).unwrap()@,
    )
}

/// The named profiles of a configuration, looked up by name. Declaration
/// order carries no meaning, so the view is a map.
#[derive(Debug, Clone)]
pub struct Profiles {
    entries: Vec<(String, Profile)>,
}

impl View for Profiles {
    type V = Map<Seq<char>, ProfileView>;

    closed spec fn view(&self) -> Map<Seq<char>, ProfileView> {
        profiles_map(self.entries@)
    }
}

impl Profiles {
    /// Wraps a list of named profiles.
    pub fn from_entries(entries: Vec<(String, Profile)>) -> (r: Profiles)
        ensures
            r@ == profiles_map(entries@),
    {
        Profiles { entries }
    }

    /// The profile of the given name, if one exists.
    pub fn get(&self, name: &str) -> (r: Option<&Profile>)
        ensures
            match r {
                Some(p) => self@.contains_key(name@) && self@[name@] == p@,
                None => !self@.contains_key(name@),
            },
    {
        assoc_find(&self.entries, name)
    }

    /// Whether no profile exists.
    pub fn is_empty(&self) -> (r: bool)
        ensures
            r == (self@.dom() == Set::<Seq<char>>::empty()),
    {
        if self.entries.len() == 0 {
            proof {
                assert(self@.dom() =~= Set::<Seq<char>>::empty());
            }
            true
        } else {
            proof {
                let k = self.entries@[0].0@;
                assert(assoc_lookup(self.entries@, k) is Some);
                assert(self@.dom().contains(k));
            }
            false
        }
    }
}

/// The fully decoded form of one configuration document.
#[derive(Debug, Clone)]
pub struct Config {
    /// Schema version of the document; the one required field.
    pub version: i64,
    pub local_deployment_image: Option<String>,
    pub mongosh_path: Option<String>,
    pub telemetry_enabled: Option<bool>,
    pub skip_update_check: Option<bool>,
    /// Every top-level key that is not one of the five fixed names.
    pub profiles: Profiles,
}

/// The mathematical image of a [`Config`].
pub struct ConfigView {
    pub version: i64,
    pub local_deployment_image: Option<Seq<char>>,
    pub mongosh_path: Option<Seq<char>>,
    pub telemetry_enabled: Option<bool>,
    pub skip_update_check: Option<bool>,
    pub profiles: Map<Seq<char>, ProfileView>,
}

impl View for Config {
    type V = ConfigView;

    open spec fn view(&self) -> ConfigView {
        ConfigView {
            version: self.version,
            local_deployment_image: opt_str_view(self.local_deployment_image),
            mongosh_path: opt_str_view(self.mongosh_path),
            telemetry_enabled: self.telemetry_enabled,
            skip_update_check: self.skip_update_check,
            profiles: self.profiles@,
        }
    }
}

} // verus!
