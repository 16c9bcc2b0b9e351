//! The provider registry: which configured completion provider is active.

use vstd::prelude::*;
use crate::error::CommitError;

verus! {

/// A configured completion provider.
pub struct Provider {
    pub name: String,
    pub api_key: String,
    pub endpoint: String,
    pub model: String,
}

/// The configured providers and the name of the one to use.
pub struct Config {
    pub providers: Vec<Provider>,
    pub default_provider: String,
}

/// A character with ASCII upper-case letters taken to lower case.
pub open spec fn ascii_folded(c: char) -> u32 {
    let u = c as u32;
    if 65 <= u && u <= 90 {
        (u + 32) as u32
    } else {
        u
    }
}

/// Provider names match without regard to ASCII case.
pub open spec fn same_name(a: Seq<char>, b: Seq<char>) -> bool {
    a.len() == b.len() && forall|i: int| 0 <= i < a.len() ==> ascii_folded(a[i]) == ascii_folded(b[i])
}

/// Provider `i` is named by `default_provider`.
pub open spec fn is_named_default(c: &Config, i: int) -> bool {
    same_name(c.providers@[i].name@, c.default_provider@)
}

/// Some provider is named by `default_provider`.
pub open spec fn has_active(c: &Config) -> bool {
    exists|i: int| 0 <= i < c.providers@.len() && is_named_default(c, i)
}

/// `k` is the first provider named by `default_provider`: the active one.
pub open spec fn is_active_index(c: &Config, k: int) -> bool {
    &&& 0 <= k < c.providers@.len()
    &&& is_named_default(c, k)
    &&& forall|j: int| 0 <= j < k ==> !is_named_default(c, j)
}

/// The active provider exists and has a non-empty API key.
pub open spec fn has_usable_credential(c: &Config) -> bool {
    exists|k: int| is_active_index(c, k) && c.providers@[k].api_key@.len() > 0
}

/// Relies on `str::eq_ignore_ascii_case`: equal lengths, and equal characters
/// once ASCII upper-case letters are taken to lower case.
#[verifier::external_body]
fn names_match(a: &str, b: &str) -> (r: bool)
    ensures
        r == same_name(a@, b@),
{
    a.eq_ignore_ascii_case(b)
}

impl Provider {
    /// A copy of this provider.
    pub fn duplicate(&self) -> (r: Provider)
        ensures
            r == *self,
    {
        Provider {
            name: self.name.clone(),
            api_key: self.api_key.clone(),
            endpoint: self.endpoint.clone(),
            model: self.model.clone(),
        }
    }

    /// Whether this is the local provider, whose server is started before a
    /// request: its name is `LOCAL`, ASCII case ignored.
    pub fn is_local(&self) -> (r: bool)
        ensures
            r == same_name(self.name@, "LOCAL"@),
    {
        names_match(self.name.as_str(), "LOCAL")
    }
}

/// The position of the active provider, if any.
fn active_index(config: &Config) -> (r: Option<usize>)
    ensures
        r is Some <==> has_active(config),
        r is Some ==> is_active_index(config, r->Some_0 as int),
{
    let mut i: usize = 0;
    while i < config.providers.len()
        invariant
            i <= config.providers@.len(),
            forall|j: int| 0 <= j < i ==> !is_named_default(config, j),
        decreases config.providers@.len() - i,
    {
        if names_match(config.providers[i].name.as_str(), config.default_provider.as_str()) {
            assert(is_named_default(config, i as int));
            return Some(i);
        }
        i = i + 1;
    }
    None
}

/// The active provider: the first whose name matches `default_provider`
/// without regard to ASCII case.
pub fn get_provider(config: &Config) -> (r: Result<Provider, CommitError>)
    ensures
        r is Ok <==> has_active(config),
        r is Ok ==> exists|k: int| is_active_index(config, k) && r->Ok_0 == config.providers@[k],
        r is Err ==> r->Err_0 is ProviderNotFound && r->Err_0->ProviderNotFound_0@
            == config.default_provider@,
{
    match active_index(config) {
        Some(k) => Ok(config.providers[k].duplicate()),
        None => Err(CommitError::ProviderNotFound(config.default_provider.clone())),
    }
}

/// Whether the active provider has an API key: it must before any request is sent.
pub fn api_key_exist(config: &Config) -> (r: bool)
    ensures
        r == has_usable_credential(config),
{
    match active_index(config) {
        Some(k) => !config.providers[k].api_key.as_str().is_empty(),
        None => false,
    }
}

/// Whether the configuration names an existing provider as its default.
pub fn validate_config(config: &Config) -> (r: bool)
    ensures
        r == has_active(config),
{
    active_index(config).is_some()
}

/// The active provider of a run, from what was found of the configuration:
/// whether a source exists, and what reading it gave (or the reader's diagnostic).
pub fn resolve_active_provider(found: bool, parsed: Result<Config, String>) -> (r: Result<
    Provider,
    CommitError,
>)
    ensures
        !found ==> r == Err::<Provider, CommitError>(CommitError::ConfigMissing),
        found && parsed is Err ==> r is Err && r->Err_0 is ConfigMalformed
            && r->Err_0->ConfigMalformed_0 == parsed->Err_0,
        found && parsed is Ok ==> (r is Ok <==> has_active(&parsed->Ok_0)),
        found && parsed is Ok && r is Ok ==> exists|k: int|
            is_active_index(&parsed->Ok_0, k) && r->Ok_0 == parsed->Ok_0.providers@[k],
        found && parsed is Ok && r is Err ==> r->Err_0 is ProviderNotFound,
{
    if !found {
        return Err(CommitError::ConfigMissing);
    }
    match parsed {
        Err(d) => Err(CommitError::ConfigMalformed(d)),
        Ok(c) => get_provider(&c),
    }
}

} // verus!
