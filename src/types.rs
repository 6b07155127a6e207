//! Effects, reason codes, requests and decisions.
//!
//! Requests borrow every string from the caller; nothing is copied.
use vstd::prelude::*;

use crate::condition::{context_lookup, lookup_attr};
use crate::value::Value;

verus! {

/// The effect of a policy decision.
#[derive(Debug, Clone, Copy, PartialEq, Eq, Hash, Structural)]
pub enum Effect {
    /// Access is allowed.
    Allow,
    /// Access is denied.
    Deny,
}

impl Effect {
    /// Returns `true` if this effect is `Allow`.
    pub fn is_allow(&self) -> (r: bool)
        ensures
            r == (*self is Allow),
    {
        matches!(self, Effect::Allow)
    }

    /// Returns `true` if this effect is `Deny`.
    pub fn is_deny(&self) -> (r: bool)
        ensures
            r == (*self is Deny),
    {
        matches!(self, Effect::Deny)
    }
}

/// A stable numeric reason code for audit logs; the engine never
/// interprets it. Zero is reserved for `NO_MATCHING_RULE_CODE`.
#[derive(Debug, Clone, Copy, PartialEq, Eq, Hash, Structural)]
pub struct ReasonCode(pub u32);

impl ReasonCode {
    /// Create a new reason code.
    pub fn new(code: u32) -> (r: Self)
        ensures
            r.0 == code,
    {
        ReasonCode(code)
    }

    /// The reason code returned when no rule matches the request.
    pub fn no_matching_rule() -> (r: Self)
        ensures
            r.0 == NO_MATCHING_RULE_CODE,
    {
        ReasonCode(NO_MATCHING_RULE_CODE)
    }

    /// Get the numeric value of this reason code.
    pub fn value(&self) -> (r: u32)
        ensures
            r == self.0,
    {
        self.0
    }
}

/// The reserved reason code of a decision that no rule matched.
pub const NO_MATCHING_RULE_CODE: u32 = 0;

/// An authorization request. The caller owns the data; the engine borrows it.
#[derive(Debug, Clone, Copy)]
pub struct Request<'a> {
    /// The principal (user, service, role) making the request.
    pub principal: &'a str,
    /// The action being requested (read, write, delete, etc.).
    pub action: &'a str,
    /// The resource being accessed.
    pub resource: &'a str,
    /// Context attributes as name-value pairs; the first binding of a name
    /// is the one that counts.
    pub context: &'a [(&'a str, Value<'a>)],
}

impl<'a> Request<'a> {
    /// Create a new request with no context.
    pub fn new(principal: &'a str, action: &'a str, resource: &'a str) -> (r: Self)
        ensures
            r.principal == principal,
            r.action == action,
            r.resource == resource,
            r.context@.len() == 0,
    {
        Request { principal, action, resource, context: &[] }
    }

    /// Create a new request with context.
    pub fn with_context(
        principal: &'a str,
        action: &'a str,
        resource: &'a str,
        context: &'a [(&'a str, Value<'a>)],
    ) -> (r: Self)
        ensures
            r.principal == principal,
            r.action == action,
            r.resource == resource,
            r.context == context,
    {
        Request { principal, action, resource, context }
    }

    /// Look up a context attribute by name.
    pub fn get_attr(&self, name: &str) -> (r: Option<&Value<'a>>)
        ensures
            match r {
                Some(v) => context_lookup(self.context@, name@) == Some(*v),
                None => context_lookup(self.context@, name@) is None,
            },
    {
        lookup_attr(self.context, name)
    }
}

/// The result of evaluating a policy against a request.
#[derive(Debug, Clone, Copy, PartialEq, Eq, Structural)]
pub struct Decision {
    /// The final effect (Allow or Deny).
    pub effect: Effect,
    /// The reason code explaining the decision.
    pub reason: ReasonCode,
}

impl Decision {
    /// Create a new decision.
    pub fn new(effect: Effect, reason: ReasonCode) -> (d: Self)
        ensures
            d == (Decision { effect, reason }),
    {
        Decision { effect, reason }
    }

    /// Create an Allow decision with the given reason.
    pub fn allow(reason: ReasonCode) -> (d: Self)
        ensures
            d == (Decision { effect: Effect::Allow, reason }),
    {
        Decision::new(Effect::Allow, reason)
    }

    /// Create a Deny decision with the given reason.
    pub fn deny(reason: ReasonCode) -> (d: Self)
        ensures
            d == (Decision { effect: Effect::Deny, reason }),
    {
        Decision::new(Effect::Deny, reason)
    }

    /// Returns `true` if this decision allows access.
    pub fn is_allow(&self) -> (r: bool)
        ensures
            r == (self.effect is Allow),
    {
        self.effect.is_allow()
    }

    /// Returns `true` if this decision denies access.
    pub fn is_deny(&self) -> (r: bool)
        ensures
            r == (self.effect is Deny),
    {
        self.effect.is_deny()
    }
}

} // verus!
