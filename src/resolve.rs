use vstd::prelude::*;

use crate::config::{
    default_endpoint, default_endpoint_text, default_model, default_model_text, Config,
    DEFAULT_TIMEOUT,
};
use crate::error::CoreError;

verus! {

/// A decimal with three fractional digits, held as thousandths
/// (`1.0` is `Milli { thousandths: 1000 }`).
#[derive(Debug, Clone, Copy, PartialEq, Eq)]
pub struct Milli {
    pub thousandths: u32,
}

pub const DEFAULT_MAX_TOKENS: u32 = 1000;

pub const DEFAULT_SAMPLE_COUNT: u8 = 1;

/// Sampling temperature and nucleus mass used when none is given: `1.0`.
pub const DEFAULT_MILLI: u32 = 1000;

/// Per-invocation settings; each one is optional.
#[derive(Debug, Clone)]
pub struct Overrides {
    pub token: Option<String>,
    pub model: Option<String>,
    pub endpoint: Option<String>,
    pub timeout: Option<u64>,
    pub max_tokens: Option<u32>,
    pub temperature: Option<Milli>,
    pub top_p: Option<Milli>,
    pub sample_count: Option<u8>,
    pub suffix: Option<String>,
    pub disable_spinner: Option<bool>,
}

/// What the settings store holds; a field it lacks is `None`.
#[derive(Debug, Clone)]
pub struct Persisted {
    pub token: Option<String>,
    pub model: Option<String>,
    pub endpoint: Option<String>,
    pub timeout: Option<u64>,
}

/// The settings one invocation runs with, every field decided.
#[derive(Debug, Clone)]
pub struct EffectiveConfig {
    pub token: String,
    pub model: String,
    pub endpoint: String,
    pub timeout: u64,
    pub max_tokens: u32,
    pub temperature: Milli,
    pub top_p: Milli,
    pub sample_count: u8,
    pub suffix: String,
    pub disable_spinner: bool,
}

/// The override if there is one, else the stored value, else the fallback.
pub open spec fn pick<T>(o: Option<T>, p: Option<T>, fallback: T) -> T {
    match o {
        Some(v) => v,
        None => match p {
            Some(v) => v,
            None => fallback,
        },
    }
}

/// `pick` over the text of optional strings.
pub open spec fn pick_text(o: Option<String>, p: Option<String>, fallback: Seq<char>) -> Seq<char> {
    match o {
        Some(v) => v@,
        None => match p {
            Some(v) => v@,
            None => fallback,
        },
    }
}

/// Some source supplies a token.
pub open spec fn has_credential(o: Overrides, p: Persisted) -> bool {
    o.token is Some || p.token is Some
}

/// `c` is what `o` and `p` resolve to, field by field.
pub open spec fn resolves_to(o: Overrides, p: Persisted, c: EffectiveConfig) -> bool {
    &&& c.token@ == pick_text(o.token, p.token, Seq::empty())
    &&& c.model@ == pick_text(o.model, p.model, default_model_text())
    &&& c.endpoint@ == pick_text(o.endpoint, p.endpoint, default_endpoint_text())
    &&& c.timeout == pick(o.timeout, p.timeout, DEFAULT_TIMEOUT)
    &&& c.max_tokens == pick(o.max_tokens, None, DEFAULT_MAX_TOKENS)
    &&& c.temperature == pick(o.temperature, None, Milli { thousandths: DEFAULT_MILLI })
    &&& c.top_p == pick(o.top_p, None, Milli { thousandths: DEFAULT_MILLI })
    &&& c.sample_count == pick(o.sample_count, None, DEFAULT_SAMPLE_COUNT)
    &&& c.suffix@ == pick_text(o.suffix, None, Seq::empty())
    &&& c.disable_spinner == pick(o.disable_spinner, None, false)
}

impl Config {
    /// The stored settings as defaults for resolution.
    pub fn persisted(&self) -> (r: Persisted)
        ensures
            r.token matches Some(t) && t@ == self.token@,
            r.model matches Some(m) && m@ == self.model@,
            r.endpoint matches Some(e) && e@ == self.endpoint@,
            r.timeout == Some(self.timeout),
    {
        Persisted {
            token: Some(self.token.clone()),
            model: Some(self.model.clone()),
            endpoint: Some(self.endpoint.clone()),
            timeout: Some(self.timeout),
        }
    }
}

fn pick_string(o: &Option<String>, p: &Option<String>, fallback: String) -> (r: String)
    ensures
        r@ == pick_text(*o, *p, fallback@),
{
    match o {
        Some(v) => v.clone(),
        None => match p {
            Some(v) => v.clone(),
            None => fallback,
        },
    }
}

fn pick_value<T: Copy>(o: Option<T>, p: Option<T>, fallback: T) -> (r: T)
    ensures
        r == pick(o, p, fallback),
{
    match o {
        Some(v) => v,
        None => match p {
            Some(v) => v,
            None => fallback,
        },
    }
}

/// Merges overrides over stored settings over built-in fallbacks. Fails with
/// `MissingCredential` exactly when neither source has a token.
pub fn resolve(o: &Overrides, p: &Persisted) -> (r: Result<EffectiveConfig, CoreError>)
    ensures
        r matches Ok(c) ==> has_credential(*o, *p) && resolves_to(*o, *p, c),
        r matches Err(e) ==> !has_credential(*o, *p) && e == CoreError::MissingCredential,
{
    if o.token.is_none() && p.token.is_none() {
        return Err(CoreError::MissingCredential);
    }
    let c = EffectiveConfig {
        token: pick_string(&o.token, &p.token, String::new()),
        model: pick_string(&o.model, &p.model, default_model()),
        endpoint: pick_string(&o.endpoint, &p.endpoint, default_endpoint()),
        timeout: pick_value(o.timeout, p.timeout, DEFAULT_TIMEOUT),
        max_tokens: pick_value(o.max_tokens, None, DEFAULT_MAX_TOKENS),
        temperature: pick_value(o.temperature, None, Milli { thousandths: DEFAULT_MILLI }),
        top_p: pick_value(o.top_p, None, Milli { thousandths: DEFAULT_MILLI }),
        sample_count: pick_value(o.sample_count, None, DEFAULT_SAMPLE_COUNT),
        suffix: pick_string(&o.suffix, &None, String::new()),
        disable_spinner: pick_value(o.disable_spinner, None, false),
    };
    Ok(c)
}

/// A supplied override decides its field, whatever is stored and whatever
/// the fallback is.
pub proof fn override_precedence(o: Overrides, p: Persisted, c: EffectiveConfig)
    requires
        resolves_to(o, p, c),
    ensures
        o.token matches Some(v) ==> c.token@ == v@,
        o.model matches Some(v) ==> c.model@ == v@,
        o.endpoint matches Some(v) ==> c.endpoint@ == v@,
        o.timeout matches Some(v) ==> c.timeout == v,
        o.max_tokens matches Some(v) ==> c.max_tokens == v,
        o.temperature matches Some(v) ==> c.temperature == v,
        o.top_p matches Some(v) ==> c.top_p == v,
        o.sample_count matches Some(v) ==> c.sample_count == v,
        o.suffix matches Some(v) ==> c.suffix@ == v@,
        o.disable_spinner matches Some(v) ==> c.disable_spinner == v,
{
}

/// With a stored token, resolution always succeeds: every field then comes
/// from an override, the store, or a fallback.
pub proof fn resolution_total(o: Overrides, p: Persisted)
    requires
        p.token is Some,
    ensures
        has_credential(o, p),
{
}

/// Without a token in either source, resolution fails.
pub proof fn missing_token(o: Overrides, p: Persisted)
    requires
        o.token is None,
        p.token is None,
    ensures
        !has_credential(o, p),
{
}

} // verus!
