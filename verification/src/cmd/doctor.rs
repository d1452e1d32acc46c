//! The diagnosis behind the `doctor` command.
//!
//! Almost every failure is a configuration failure: no key, a key the agent's
//! environment never received, a base URL pointing somewhere else. This
//! resolves exactly what a request would resolve and sends nothing.

use std::sync::Arc;
use vstd::prelude::*;

use crate::config::{builds, hint_of, read_settings, settings_of, settings_read, unset, Builder, Config, EnvSettings, DEFAULT_BASE_URL, DEFAULT_MODEL};
use crate::env::{var_name, Source, Var};
use crate::error::{error_message, Error};
use crate::log::Logger;
use crate::text::owned;

verus! {

/// One environment variable and whether it is set.
#[derive(Debug, Clone, PartialEq, Eq)]
pub struct EnvVar {
    /// The variable's name.
    pub name: String,
    /// Whether it holds a non-blank value.
    pub set: bool,
}

/// What the SDK resolved, and where each setting came from.
#[derive(Debug)]
pub struct Diagnosis {
    /// Whether a usable API key was found.
    pub authenticated: bool,
    /// The key, masked. Absent when no key is configured.
    pub api_key: Option<String>,
    /// The API root that will be used.
    pub base_url: String,
    /// The model used when a request does not name one.
    pub default_model: String,
    /// The per-attempt timeout, in milliseconds.
    pub timeout_ms: u64,
    /// Which environment variables are set.
    pub environment: Vec<EnvVar>,
    /// Anything that would stop a request working.
    pub problems: Vec<String>,
}

/// `d` reports the outcome `built` of resolving the configuration, with
/// `environment` as the variables found.
pub open spec fn reports<L: Logger + ?Sized>(d: Diagnosis, environment: Seq<EnvVar>, built: Result<Config<L>, Error>) -> bool {
    &&& d.environment@ == environment
    &&& match built {
        Ok(c) => {
            &&& d.authenticated
            &&& d.api_key matches Some(k) && k@ == hint_of(c.key())
            &&& d.base_url == c.base_url
            &&& d.default_model == c.default_model
            &&& d.timeout_ms == c.timeout_ms
            &&& d.problems@.len() == 0
        },
        Err(e) => {
            &&& !d.authenticated
            &&& d.api_key is None
            &&& d.base_url@ == DEFAULT_BASE_URL@
            &&& d.default_model@ == DEFAULT_MODEL@
            &&& d.timeout_ms == 0
            &&& d.problems@.len() == 1
            &&& d.problems@[0]@ == error_message(e)
        },
    }
}

impl Diagnosis {
    /// The diagnosis for a resolution that gave `built`.
    pub fn of<L: Logger + ?Sized>(environment: Vec<EnvVar>, built: Result<Config<L>, Error>) -> (r: Diagnosis)
        ensures
            reports(r, environment@, built),
    {
        match built {
            Ok(config) => Diagnosis {
                authenticated: true,
                api_key: Some(config.key_hint()),
                base_url: config.base_url,
                default_model: config.default_model,
                timeout_ms: config.timeout_ms,
                environment,
                problems: Vec::new(),
            },
            Err(error) => {
                let mut problems: Vec<String> = Vec::new();
                problems.push(error.message());
                Diagnosis {
                    authenticated: false,
                    api_key: None,
                    base_url: owned(DEFAULT_BASE_URL),
                    default_model: owned(DEFAULT_MODEL),
                    timeout_ms: 0,
                    environment,
                    problems,
                }
            },
        }
    }
}

/// `vars` names each of the SDK's variables in documented order, and says
/// whether `e` holds a value for it.
pub open spec fn lists_environment(vars: Seq<EnvVar>, e: EnvSettings) -> bool {
    &&& vars.len() == 4
    &&& vars[0].name@ == var_name(Var::ApiKey) && vars[0].set == e.api_key is Some
    &&& vars[1].name@ == var_name(Var::BaseUrl) && vars[1].set == e.base_url is Some
    &&& vars[2].name@ == var_name(Var::DefaultModel) && vars[2].set == e.default_model is Some
    &&& vars[3].name@ == var_name(Var::LogLevel) && vars[3].set == e.log_level is Some
}

/// Which of the SDK's variables the settings read from the environment hold,
/// in their documented order.
pub fn environment_of(settings: &EnvSettings) -> (r: Vec<EnvVar>)
    ensures
        lists_environment(r@, *settings),
{
    let mut out: Vec<EnvVar> = Vec::new();
    out.push(EnvVar { name: owned(Var::ApiKey.name()), set: settings.api_key.is_some() });
    out.push(EnvVar { name: owned(Var::BaseUrl.name()), set: settings.base_url.is_some() });
    out.push(EnvVar { name: owned(Var::DefaultModel.name()), set: settings.default_model.is_some() });
    out.push(EnvVar { name: owned(Var::LogLevel.name()), set: settings.log_level.is_some() });
    out
}

/// Resolves the configuration from `env` without sending anything, and
/// reports what a request would use and anything that would stop it.
///
/// The environment is read once: the variables reported as set and the
/// configuration reported on come from the same reading, resolved as
/// [`Builder::resolve`] resolves a builder with nothing set explicitly.
pub fn diagnose<S: Source, L: Logger + ?Sized>(env: &S, console: Arc<L>) -> (r: Diagnosis)
    ensures
        exists|b: Builder<L>, e: EnvSettings, built: Result<Config<L>, Error>| {
            &&& unset(b) && settings_read(e) && builds(b, e, built)
            &&& env.is_snapshot() ==> settings_of(e, env)
            &&& lists_environment(r.environment@, e)
            &&& reports(r, r.environment@, built)
        },
        r.authenticated == (r.problems@.len() == 0),
{
    let settings = read_settings(env);
    let environment = environment_of(&settings);
    let builder = Builder::<L>::new();
    let ghost b = builder;
    let ghost e = settings;
    let built = builder.resolve(settings, console);
    let r = Diagnosis::of(environment, built);
    assert(unset(b) && settings_read(e) && builds(b, e, built) && (env.is_snapshot() ==> settings_of(e, env)));
    r
}

} // verus!
