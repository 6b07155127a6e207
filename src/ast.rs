//! The data model of policy files: a default grant and named policies, each
//! with OR-triggers and AND-filters. Reading the YAML is left to callers;
//! these are plain values.
use vstd::prelude::*;

verus! {

/// A copy of a list of strings, element for element.
fn copy_strings(v: &Vec<String>) -> (r: Vec<String>)
    ensures
        r@ == v@,
{
    let mut r: Vec<String> = Vec::new();
    let mut i: usize = 0;
    while i < v.len()
        invariant
            i <= v@.len(),
            r@ == v@.take(i as int),
        decreases v@.len() - i,
    {
        r.push(v[i].clone());
        i = i + 1;
        assert(r@ =~= v@.take(i as int));
    }
    assert(v@.take(v@.len() as int) =~= v@);
    r
}

/// Root of a policy file.
#[derive(Debug, Clone)]
pub struct PolicyFile {
    pub default: DefaultPolicy,
    pub policies: Vec<Policy>,
}

/// Fallback when no policy matches.
#[derive(Debug, Clone)]
pub struct DefaultPolicy {
    pub principals: Vec<String>,
    pub max_duration: String,
}

/// A single policy entry.
#[derive(Debug, Clone)]
pub struct Policy {
    pub name: String,
    pub match_block: MatchBlock,
    pub principals: Vec<String>,
    pub max_duration: String,
}

impl Policy {
    /// The policy's match block (written `match` in a policy file).
    pub fn match_conditions(&self) -> (r: &MatchBlock)
        ensures
            *r == self.match_block,
    {
        &self.match_block
    }
}

/// Match conditions for a policy. The first three lists are OR triggers,
/// the last three AND filters.
#[derive(Debug, Clone, Default)]
pub struct MatchBlock {
    pub oidc_groups: Vec<String>,
    pub emails: Vec<String>,
    pub local_usernames: Vec<String>,
    pub source_ip: Vec<String>,
    pub hours: Vec<String>,
    pub webauthn_ids: Vec<String>,
}

impl MatchBlock {
    /// True if any OR trigger is specified.
    pub fn has_triggers(&self) -> (r: bool)
        ensures
            r == (self.oidc_groups@.len() > 0 || self.emails@.len() > 0
                || self.local_usernames@.len() > 0),
    {
        !self.oidc_groups.is_empty() || !self.emails.is_empty() || !self.local_usernames.is_empty()
    }

    /// True if any AND filter is specified.
    pub fn has_filters(&self) -> (r: bool)
        ensures
            r == (self.source_ip@.len() > 0 || self.hours@.len() > 0
                || self.webauthn_ids@.len() > 0),
    {
        !self.source_ip.is_empty() || !self.hours.is_empty() || !self.webauthn_ids.is_empty()
    }
}

/// A request to evaluate against a policy file.
#[derive(Debug, Clone)]
pub struct EvalRequest {
    pub oidc_groups: Vec<String>,
    pub email: Option<String>,
    pub local_username: Option<String>,
    pub source_ip: Option<String>,
    /// Time of day as `HH:MM`.
    pub current_time: Option<String>,
    pub webauthn_id: Option<String>,
}

impl Default for EvalRequest {
    /// A request with no identity and no context.
    fn default() -> (r: Self)
        ensures
            r.oidc_groups@.len() == 0,
            r.email is None,
            r.local_username is None,
            r.source_ip is None,
            r.current_time is None,
            r.webauthn_id is None,
    {
        EvalRequest {
            oidc_groups: Vec::new(),
            email: None,
            local_username: None,
            source_ip: None,
            current_time: None,
            webauthn_id: None,
        }
    }
}

/// Result of evaluating a policy file.
#[derive(Debug, Clone, PartialEq)]
pub struct EvalResult {
    pub matched: bool,
    pub policy_name: Option<String>,
    pub policy_index: Option<usize>,
    pub principals: Vec<String>,
    pub max_duration: String,
}

impl EvalResult {
    /// The result when no policy matched: the default's grant.
    pub fn default_policy(default: &DefaultPolicy) -> (r: Self)
        ensures
            !r.matched,
            r.policy_name is None,
            r.policy_index is None,
            r.principals@ == default.principals@,
            r.max_duration == default.max_duration,
    {
        EvalResult {
            matched: false,
            policy_name: None,
            policy_index: None,
            principals: copy_strings(&default.principals),
            max_duration: default.max_duration.clone(),
        }
    }

    /// The result when the policy at `index` matched: its name and grant.
    pub fn from_policy(policy: &Policy, index: usize) -> (r: Self)
        ensures
            r.matched,
            r.policy_name == Some(policy.name),
            r.policy_index == Some(index),
            r.principals@ == policy.principals@,
            r.max_duration == policy.max_duration,
    {
        EvalResult {
            matched: true,
            policy_name: Some(policy.name.clone()),
            policy_index: Some(index),
            principals: copy_strings(&policy.principals),
            max_duration: policy.max_duration.clone(),
        }
    }
}

/// Why a policy file could not be loaded.
#[derive(Debug, Clone)]
pub enum LoadError {
    /// The file could not be read.
    Io(String),
    /// The text is not a valid policy file.
    Parse(String),
}

impl LoadError {
    /// A one-line description for logs.
    pub fn message(&self) -> (r: String)
        ensures
            match self {
                LoadError::Io(e) => r@ == "IO error: "@ + e@,
                LoadError::Parse(e) => r@ == "Parse error: "@ + e@,
            },
    {
        match self {
            LoadError::Io(e) => String::from_str("IO error: ").concat(e.as_str()),
            LoadError::Parse(e) => String::from_str("Parse error: ").concat(e.as_str()),
        }
    }
}

} // verus!
