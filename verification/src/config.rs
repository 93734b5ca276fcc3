//! Configuration: the values that the pipeline is started with, and the run
//! profile that selects the overlay they are read from.

use crate::text::{concatenate, str_equal};
use vstd::prelude::*;

verus! {

/// The configuration source that is always read.
pub const DEFAULT_SOURCE: &'static str = "config/default";

/// The directory of the configuration sources, with its separator.
pub const SOURCE_PREFIX: &'static str = "config/";

/// What the pipeline is configured with.
#[derive(Debug, PartialEq, Eq)]
pub struct AppConfig {
    /// Path of the CA certificate bundle for the database's TLS.
    pub ca_certs: String,
    /// The database connection string.
    pub postgres: String,
    /// The symmetric cookie key, base64-encoded.
    pub cookie_key: String,
}

impl Clone for AppConfig {
    fn clone(&self) -> (r: AppConfig)
        ensures
            r == *self,
    {
        AppConfig {
            ca_certs: self.ca_certs.clone(),
            postgres: self.postgres.clone(),
            cookie_key: self.cookie_key.clone(),
        }
    }
}

/// The run profile.
#[derive(Clone, Copy, Debug, PartialEq, Eq, Structural)]
pub enum RunProfile {
    Dev,
    Prod,
}

impl RunProfile {
    /// The name of the profile.
    pub open spec fn name(self) -> Seq<char> {
        match self {
            RunProfile::Dev => "dev"@,
            RunProfile::Prod => "prod"@,
        }
    }

    /// The profile that `text` names, if it names one.
    pub open spec fn named(text: Seq<char>) -> Option<RunProfile> {
        if text == "dev"@ {
            Some(RunProfile::Dev)
        } else if text == "prod"@ {
            Some(RunProfile::Prod)
        } else {
            None
        }
    }

    /// The profile that `text` names: `dev` or `prod`, exactly so written.
    pub fn from_str(text: &str) -> (r: Option<RunProfile>)
        ensures
            r == Self::named(text@),
    {
        if str_equal(text, "dev") {
            Some(RunProfile::Dev)
        } else if str_equal(text, "prod") {
            Some(RunProfile::Prod)
        } else {
            None
        }
    }

    /// The name of the profile.
    pub fn to_string(&self) -> (r: String)
        ensures
            r@ == self.name(),
    {
        match self {
            RunProfile::Dev => "dev".to_owned(),
            RunProfile::Prod => "prod".to_owned(),
        }
    }
}

/// The profile selected by the value of the profile variable, where the
/// environment has one: the profile it names, and the development profile
/// where the variable is absent or names none.
pub open spec fn selected_profile(variable: Option<Seq<char>>) -> RunProfile {
    match variable {
        Some(text) => match RunProfile::named(text) {
            Some(profile) => profile,
            None => RunProfile::Dev,
        },
        None => RunProfile::Dev,
    }
}

/// The run profile, given the value of the profile variable.
pub fn select_profile(variable: Option<&str>) -> (r: RunProfile)
    ensures
        r == selected_profile(
            match variable {
                Some(text) => Some(text@),
                None => None,
            },
        ),
{
    match variable {
        Some(text) => match RunProfile::from_str(text) {
            Some(profile) => profile,
            None => RunProfile::Dev,
        },
        None => RunProfile::Dev,
    }
}

/// The configuration source that overlays the default one under `profile`.
pub fn overlay_source(profile: RunProfile) -> (r: String)
    ensures
        r@ == SOURCE_PREFIX@ + profile.name(),
{
    let name = profile.to_string();
    concatenate(SOURCE_PREFIX, name.as_str())
}

/// A name always selects the profile that it is the name of.
pub proof fn lemma_profile_name_round_trip(profile: RunProfile)
    ensures
        RunProfile::named(profile.name()) == Some(profile),
{
    reveal_strlit("dev");
    reveal_strlit("prod");
    assert("dev"@.len() != "prod"@.len());
}

} // verus!
