//! Client configuration: precedence, validation and the resolved settings.
//!
//! One rule decides every setting: an explicit argument wins, then the
//! environment, then the SDK default. Everything is resolved and validated once
//! at construction, so a request in flight cannot be changed underneath and a
//! misconfigured client fails before it opens a socket.

use std::sync::Arc;
use vstd::prelude::*;

use crate::env::{opt_view, read, read_of, var_name, Source, Var};
use crate::error::Error;
use crate::headers::{applied, well_keyed, Entry, Headers, Value};
use crate::log::{level_named, invalid_level_message, Filtered, Level, Logger, DEFAULT_LEVEL};
use crate::retry::{RetryPolicy, DEFAULT_TIMEOUT_MS};
use crate::text::{
    append, append_str, chars_of, decimal, decimal_chars, lit, owned, string_of, tail, trim, trim_end_char,
    trim_end_char_chars,
};

verus! {

/// Where the API lives when nothing says otherwise.
pub const DEFAULT_BASE_URL: &'static str = "https://api.typesafe.ai";

/// The model used when a request does not name one.
pub const DEFAULT_MODEL: &'static str = "jev-latest";

/// An API key, sealed: it has no accessor returning it, so it cannot be
/// logged or serialised by accident.
pub struct ApiKey {
    key: String,
}

impl ApiKey {
    /// The key itself.
    pub closed spec fn secret(&self) -> Seq<char> {
        self.key@
    }
}

/// Everything a client needs, resolved and checked.
///
/// The API key has no accessor returning it by value; it reaches the wire
/// through [`Config::authorization`] and nowhere else.
pub struct Config<L: Logger + ?Sized> {
    /// The key requests authenticate with, sealed.
    pub api_key: ApiKey,
    /// The API root, with trailing slashes stripped.
    pub base_url: String,
    /// The model used when a request does not name one.
    pub default_model: String,
    /// Per-attempt timeout, covering the full response body.
    pub timeout_ms: u64,
    /// When and how often to try again.
    pub retry: RetryPolicy,
    /// Headers applied to every request, beneath the SDK's own.
    pub default_headers: Headers,
    /// The filtered log sink.
    pub logger: Arc<Filtered<L>>,
}

/// Everything except the key.
pub struct Parts<L: Logger + ?Sized> {
    /// The API root, already stripped of trailing slashes.
    pub base_url: String,
    /// The model used when a request does not name one.
    pub default_model: String,
    /// Per-attempt timeout.
    pub timeout_ms: u64,
    /// The retry policy.
    pub retry: RetryPolicy,
    /// Headers applied beneath the SDK's own.
    pub default_headers: Headers,
    /// The filtered log sink.
    pub logger: Arc<Filtered<L>>,
}

/// What `{:?}` writes for a string: quoted, with `Debug` escapes.
pub uninterp spec fn debug_quoted(s: Seq<char>) -> Seq<char>;

/// Renders `s` as `format!("{:?}", s)` does.
#[verifier::external_body]
pub(crate) fn debug_str(s: &str) -> (r: String)
    ensures
        r@ == debug_quoted(s@),
{
    format!("{:?}", s)
}

/// The hint that identifies a key without revealing it: nothing for a key of
/// eight characters or fewer, the last four otherwise.
pub open spec fn hint_of(key: Seq<char>) -> Seq<char> {
    if key.len() <= 8 { "***"@ } else { "***"@ + tail(key, 4) }
}

impl<L: Logger + ?Sized> Config<L> {
    /// The API key this config authenticates with.
    pub open spec fn key(&self) -> Seq<char> {
        self.api_key.secret()
    }

    /// The `Authorization` header value.
    ///
    /// Building the whole header value here means the key itself never leaves
    /// this type.
    pub fn authorization(&self) -> (r: String)
        ensures
            r@ == "Bearer "@ + self.key(),
    {
        let mut v = lit("Bearer ");
        append_str(&mut v, self.api_key.key.as_str());
        string_of(&v)
    }

    /// The last four characters of the key, for diagnostics that must identify
    /// which credential is in use without revealing it.
    pub fn key_hint(&self) -> (r: String)
        ensures
            r@ == hint_of(self.key()),
    {
        let key = chars_of(self.api_key.key.as_str());
        let mut v = lit("***");
        if key.len() > 8 {
            let last = crate::text::slice_chars(&key, key.len() - 4, key.len());
            append(&mut v, &last);
        }
        string_of(&v)
    }

    /// The config as `Debug` renders it: the key appears only as its hint.
    pub fn debug_text(&self) -> (r: String)
        ensures
            r@ == "Config { base_url: "@ + debug_quoted(self.base_url@) + ", default_model: "@
                + debug_quoted(self.default_model@) + ", timeout_ms: "@ + decimal(self.timeout_ms as nat)
                + ", api_key: "@ + debug_quoted(hint_of(self.key())) + ", .. }"@,
    {
        let mut v = lit("Config { base_url: ");
        append_str(&mut v, debug_str(self.base_url.as_str()).as_str());
        append_str(&mut v, ", default_model: ");
        append_str(&mut v, debug_str(self.default_model.as_str()).as_str());
        append_str(&mut v, ", timeout_ms: ");
        append(&mut v, &decimal_chars(self.timeout_ms));
        append_str(&mut v, ", api_key: ");
        let hint = self.key_hint();
        append_str(&mut v, debug_str(hint.as_str()).as_str());
        append_str(&mut v, ", .. }");
        string_of(&v)
    }

    /// The level below which log lines are dropped.
    pub fn log_level(&self) -> (r: Level)
        ensures
            r == self.logger.floor(),
    {
        self.logger.threshold()
    }

    /// Assembles a config from a key and everything else.
    pub fn new(api_key: String, parts: Parts<L>) -> (r: Config<L>)
        ensures
            r.key() == api_key@,
            r.base_url == parts.base_url,
            r.default_model == parts.default_model,
            r.timeout_ms == parts.timeout_ms,
            r.retry == parts.retry,
            r.default_headers == parts.default_headers,
            r.logger == parts.logger,
    {
        Config {
            api_key: ApiKey { key: api_key },
            base_url: parts.base_url,
            default_model: parts.default_model,
            timeout_ms: parts.timeout_ms,
            retry: parts.retry,
            default_headers: parts.default_headers,
            logger: parts.logger,
        }
    }
}

/// What the environment held for each setting, already read: trimmed, and
/// absent when blank.
pub struct EnvSettings {
    /// `TYPESAFE_API_KEY`.
    pub api_key: Option<String>,
    /// `TYPESAFE_BASE_URL`.
    pub base_url: Option<String>,
    /// `TYPESAFE_DEFAULT_MODEL`.
    pub default_model: Option<String>,
    /// `TYPESAFE_LOG_LEVEL`.
    pub log_level: Option<String>,
}

/// An environment value as [`read`] leaves it: trimmed and not blank.
pub open spec fn well_read(v: Option<String>) -> bool {
    v matches Some(s) ==> s@ == trim(s@) && s@.len() > 0
}

/// Every setting of `e` is as [`read`] leaves it.
pub open spec fn settings_read(e: EnvSettings) -> bool {
    well_read(e.api_key) && well_read(e.base_url) && well_read(e.default_model) && well_read(e.log_level)
}

/// `e` holds what [`read`] gives from the snapshot `env` for each setting.
pub open spec fn settings_of<S: Source>(e: EnvSettings, env: &S) -> bool {
    &&& opt_view(e.api_key) == read_of(env, Var::ApiKey)
    &&& opt_view(e.base_url) == read_of(env, Var::BaseUrl)
    &&& opt_view(e.default_model) == read_of(env, Var::DefaultModel)
    &&& opt_view(e.log_level) == read_of(env, Var::LogLevel)
}

/// Reads every setting from `env`.
pub fn read_settings<S: Source>(env: &S) -> (r: EnvSettings)
    ensures
        env.is_snapshot() ==> settings_of(r, env),
        settings_read(r),
{
    EnvSettings {
        api_key: read(env, Var::ApiKey),
        base_url: read(env, Var::BaseUrl),
        default_model: read(env, Var::DefaultModel),
        log_level: read(env, Var::LogLevel),
    }
}

/// The explicit value if given, otherwise the environment's.
pub open spec fn chosen(from_code: Option<String>, from_env: Option<String>) -> Option<Seq<char>> {
    match from_code {
        Some(v) => Some(v@),
        None => match from_env {
            Some(v) => Some(v@),
            None => None,
        },
    }
}

/// The message a missing key is refused with.
pub open spec fn missing_key_message() -> Seq<char> {
    "No API key was provided. Pass `api_key` to the client builder or set the "@
        + var_name(Var::ApiKey) + " environment variable."@
}

/// The message a zero timeout is refused with.
pub open spec fn zero_timeout_message() -> Seq<char> {
    "`timeout` must be a positive number of milliseconds, got 0."@
}

/// Collects explicit settings before they are resolved against the environment.
pub struct Builder<L: Logger + ?Sized> {
    /// The API key, if set explicitly.
    pub api_key: Option<String>,
    /// The API root, if set explicitly.
    pub base_url: Option<String>,
    /// The default model, if set explicitly.
    pub default_model: Option<String>,
    /// The log level, if set explicitly.
    pub log_level: Option<Level>,
    /// The per-attempt timeout, if set explicitly.
    pub timeout_ms: Option<u64>,
    /// The retry policy, if set explicitly.
    pub retry: Option<RetryPolicy>,
    /// Headers sent with every request, beneath the SDK's own.
    pub default_headers: Headers,
    /// The log sink, if set explicitly.
    pub logger: Option<Arc<L>>,
}

/// Why a resolution fails, first reason first: no key, then a zero timeout,
/// then a log level from the environment that names no level.
pub open spec fn refusal<L: Logger + ?Sized>(b: Builder<L>, e: EnvSettings) -> Option<Seq<char>> {
    if chosen(b.api_key, e.api_key) is None {
        Some(missing_key_message())
    } else if b.timeout_ms == Some(0u64) {
        Some(zero_timeout_message())
    } else if b.log_level is None && e.log_level is Some && level_named(e.log_level.unwrap()@) is None {
        Some(invalid_level_message(e.log_level.unwrap()@, var_name(Var::LogLevel)))
    } else {
        None
    }
}

/// The config `b` resolves to against `e`, when nothing refuses it.
pub open spec fn resolves_to<L: Logger + ?Sized>(c: Config<L>, b: Builder<L>, e: EnvSettings) -> bool {
    &&& Some(c.key()) == chosen(b.api_key, e.api_key)
    &&& c.base_url@ == trim_end_char(
        match chosen(b.base_url, e.base_url) { Some(u) => u, None => DEFAULT_BASE_URL@ },
        '/',
    )
    &&& c.default_model@ == match chosen(b.default_model, e.default_model) {
        Some(m) => m,
        None => DEFAULT_MODEL@,
    }
    &&& c.timeout_ms == match b.timeout_ms { Some(ms) => ms, None => DEFAULT_TIMEOUT_MS }
    &&& c.retry == match b.retry { Some(p) => p, None => RetryPolicy::default_spec() }
    &&& c.default_headers@ == b.default_headers@
    &&& c.logger.floor() == match b.log_level {
        Some(l) => l,
        None => match e.log_level {
            Some(raw) => level_named(raw@).unwrap(),
            None => DEFAULT_LEVEL,
        },
    }
}

/// `r` is the outcome of resolving `b` against `e`: the refusal's message
/// when something refuses it, otherwise the config it resolves to.
pub open spec fn builds<L: Logger + ?Sized>(b: Builder<L>, e: EnvSettings, r: Result<Config<L>, Error>) -> bool {
    match refusal(b, e) {
        Some(m) => r matches Err(Error::Invalid(msg)) && msg@ == m,
        None => r matches Ok(c) && resolves_to(c, b, e),
    }
}

/// Nothing in `b` was set explicitly.
pub open spec fn unset<L: Logger + ?Sized>(b: Builder<L>) -> bool {
    &&& b.api_key is None && b.base_url is None && b.default_model is None
    &&& b.log_level is None && b.timeout_ms is None && b.retry is None
    &&& b.default_headers@.len() == 0 && b.logger is None
}

impl<L: Logger + ?Sized> Builder<L> {
    /// A builder with nothing set, so every setting comes from the environment.
    pub fn new() -> (r: Builder<L>)
        ensures
            unset(r),
    {
        Builder {
            api_key: None,
            base_url: None,
            default_model: None,
            log_level: None,
            timeout_ms: None,
            retry: None,
            default_headers: Headers::new(),
            logger: None,
        }
    }

    /// Sets the API key explicitly.
    pub fn api_key(self, key: &str) -> (r: Builder<L>)
        ensures
            r == (Builder { api_key: r.api_key, ..self }),
            r.api_key matches Some(k) && k@ == key@,
    {
        Builder { api_key: Some(owned(key)), ..self }
    }

    /// Overrides the API root.
    pub fn base_url(self, url: &str) -> (r: Builder<L>)
        ensures
            r == (Builder { base_url: r.base_url, ..self }),
            r.base_url matches Some(u) && u@ == url@,
    {
        Builder { base_url: Some(owned(url)), ..self }
    }

    /// Overrides the model used when a request does not name one.
    pub fn default_model(self, model: &str) -> (r: Builder<L>)
        ensures
            r == (Builder { default_model: r.default_model, ..self }),
            r.default_model matches Some(m) && m@ == model@,
    {
        Builder { default_model: Some(owned(model)), ..self }
    }

    /// Overrides the log level.
    pub fn log_level(self, level: Level) -> (r: Builder<L>)
        ensures
            r == (Builder { log_level: Some(level), ..self }),
    {
        Builder { log_level: Some(level), ..self }
    }

    /// Overrides the per-attempt timeout.
    pub fn timeout_ms(self, ms: u64) -> (r: Builder<L>)
        ensures
            r == (Builder { timeout_ms: Some(ms), ..self }),
    {
        Builder { timeout_ms: Some(ms), ..self }
    }

    /// Overrides the retry policy.
    pub fn retry(self, policy: RetryPolicy) -> (r: Builder<L>)
        ensures
            r == (Builder { retry: Some(policy), ..self }),
    {
        Builder { retry: Some(policy), ..self }
    }

    /// Adds a header sent with every request, beneath the SDK's own.
    pub fn header(self, name: &str, value: &str) -> (r: Builder<L>)
        ensures
            r == (Builder { default_headers: r.default_headers, ..self }),
            r.default_headers@ == applied(self.default_headers@, name@, Some(value@)),
    {
        let mut b = self;
        b.default_headers.apply(name, Value::of(value));
        b
    }

    /// Replaces the log sink.
    pub fn logger(self, logger: Arc<L>) -> (r: Builder<L>)
        ensures
            r == (Builder { logger: Some(logger), ..self }),
    {
        Builder { logger: Some(logger), ..self }
    }

    /// Resolves and validates every setting against values already read from
    /// the environment. `console` is the sink used when none was set.
    pub fn resolve(self, env: EnvSettings, console: Arc<L>) -> (r: Result<Config<L>, Error>)
        requires
            settings_read(env),
        ensures
            builds(self, env, r),
    {
        let api_key = match self.api_key {
            Some(k) => k,
            None => match env.api_key {
                Some(k) => k,
                None => return Err(missing_key()),
            },
        };
        let retry = match self.retry {
            Some(p) => p,
            None => RetryPolicy::default(),
        };
        let timeout_ms: u64 = match validated_timeout(self.timeout_ms) {
            Ok(ms) => ms,
            Err(err) => return Err(err),
        };
        let level = match resolve_level(self.log_level, env.log_level) {
            Ok(l) => l,
            Err(err) => return Err(err),
        };
        let base_url = resolve_base_url(self.base_url, env.base_url);
        let default_model = match self.default_model {
            Some(m) => m,
            None => match env.default_model {
                Some(m) => m,
                None => owned(DEFAULT_MODEL),
            },
        };
        let sink = match self.logger {
            Some(l) => l,
            None => console,
        };
        let logger = Arc::new(Filtered::new(sink, level));
        Ok(Config::new(
            api_key,
            Parts {
                base_url,
                default_model,
                timeout_ms,
                retry,
                default_headers: self.default_headers,
                logger,
            },
        ))
    }

    /// Resolves and validates every setting, reading the environment from
    /// `env`. `console` is the sink used when none was set.
    ///
    /// The outcome is [`Builder::resolve`] applied to what `env` held.
    pub fn build<S: Source>(self, env: &S, console: Arc<L>) -> (r: Result<Config<L>, Error>)
        ensures
            exists|e: EnvSettings| {
                &&& settings_read(e)
                &&& env.is_snapshot() ==> settings_of(e, env)
                &&& builds(self, e, r)
            },
    {
        let settings = read_settings(env);
        let ghost e = settings;
        let r = self.resolve(settings, console);
        assert(settings_read(e) && (env.is_snapshot() ==> settings_of(e, env)));
        r
    }
}

/// The error for a missing key, naming the variable to set.
fn missing_key() -> (r: Error)
    ensures
        r matches Error::Invalid(m) && m@ == missing_key_message(),
{
    let mut m = lit("No API key was provided. Pass `api_key` to the client builder or set the ");
    append_str(&mut m, Var::ApiKey.name());
    append_str(&mut m, " environment variable.");
    Error::Invalid(string_of(&m))
}

/// A timeout of zero would time out before the request began.
fn validated_timeout(requested: Option<u64>) -> (r: Result<u64, Error>)
    ensures
        match requested {
            None => r == Ok::<u64, Error>(DEFAULT_TIMEOUT_MS),
            Some(ms) => if ms == 0 {
                r matches Err(Error::Invalid(m)) && m@ == zero_timeout_message()
            } else {
                r == Ok::<u64, Error>(ms)
            },
        },
{
    match requested {
        None => Ok(DEFAULT_TIMEOUT_MS),
        Some(ms) => if ms == 0 {
            Err(Error::invalid("`timeout` must be a positive number of milliseconds, got 0."))
        } else {
            Ok(ms)
        },
    }
}

/// Trailing slashes are stripped so paths concatenate without doubling.
fn resolve_base_url(from_code: Option<String>, from_env: Option<String>) -> (r: String)
    ensures
        r@ == trim_end_char(
            match chosen(from_code, from_env) { Some(u) => u, None => DEFAULT_BASE_URL@ },
            '/',
        ),
{
    let url = match from_code {
        Some(u) => u,
        None => match from_env {
            Some(u) => u,
            None => owned(DEFAULT_BASE_URL),
        },
    };
    let cs = chars_of(url.as_str());
    string_of(&trim_end_char_chars(&cs, '/'))
}

/// The explicit level, else the environment's, else the default.
fn resolve_level(from_code: Option<Level>, from_env: Option<String>) -> (r: Result<Level, Error>)
    ensures
        match from_code {
            Some(l) => r == Ok::<Level, Error>(l),
            None => match from_env {
                None => r == Ok::<Level, Error>(DEFAULT_LEVEL),
                Some(raw) => match level_named(raw@) {
                    Some(l) => r == Ok::<Level, Error>(l),
                    None => r matches Err(Error::Invalid(m))
                        && m@ == invalid_level_message(raw@, var_name(Var::LogLevel)),
                },
            },
        },
{
    match from_code {
        Some(l) => Ok(l),
        None => match from_env {
            None => Ok(DEFAULT_LEVEL),
            Some(raw) => Level::parse(raw.as_str(), Var::LogLevel.name()),
        },
    }
}

} // verus!
