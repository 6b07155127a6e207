//! Rules: an effect, a target, an optional condition and a reason code.
use vstd::prelude::*;

use crate::condition::Condition;
use crate::target::Target;
use crate::types::{Effect, ReasonCode, Request};

verus! {

/// A single policy rule. It has no behaviour of its own beyond being a record.
#[derive(Debug)]
pub struct Rule<'a> {
    /// Allow or Deny.
    pub effect: Effect,
    /// Which requests the rule considers.
    pub target: Target<'a>,
    /// An optional predicate over the request context.
    pub condition: Option<Condition<'a>>,
    /// The reason code reported when this rule decides.
    pub reason: ReasonCode,
}

impl<'a> Rule<'a> {
    /// The rule's target accepts the request and its condition, if any, holds.
    pub open spec fn fires(self, request: Request) -> bool {
        &&& self.target.accepts(request.principal@, request.action@, request.resource@)
        &&& match self.condition {
            Some(c) => c.holds(request.context@),
            None => true,
        }
    }

    /// An unconditional Allow rule.
    pub fn allow(target: Target<'a>, reason: ReasonCode) -> (r: Self)
        ensures
            r.effect == Effect::Allow,
            r.target == target,
            r.condition is None,
            r.reason == reason,
    {
        Rule { effect: Effect::Allow, target, condition: None, reason }
    }

    /// An unconditional Deny rule.
    pub fn deny(target: Target<'a>, reason: ReasonCode) -> (r: Self)
        ensures
            r.effect == Effect::Deny,
            r.target == target,
            r.condition is None,
            r.reason == reason,
    {
        Rule { effect: Effect::Deny, target, condition: None, reason }
    }

    /// A rule with every field given.
    pub fn new(
        effect: Effect,
        target: Target<'a>,
        condition: Option<Condition<'a>>,
        reason: ReasonCode,
    ) -> (r: Self)
        ensures
            r.effect == effect,
            r.target == target,
            r.condition == condition,
            r.reason == reason,
    {
        Rule { effect, target, condition, reason }
    }
}

} // verus!
