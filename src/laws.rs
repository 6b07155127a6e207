//! What holds of every policy and every request.
//!
//! `Policy::evaluate` returns `decide` of the policy's rules whenever the
//! request's context fits; these lemmas are stated over `decide`.
use vstd::prelude::*;

use crate::condition::{lemma_walk_bounds, Condition, EVAL_STACK_CAPACITY};
use crate::config::ABSOLUTE_MAX_CONDITION_DEPTH;
use crate::policy::{decide, first_firing};
use crate::rule::Rule;
use crate::types::{Decision, Effect, ReasonCode, Request};

verus! {

proof fn lemma_first_firing_some(rules: Seq<Rule>, request: Request, effect: Effect, i: int)
    requires
        0 <= i < rules.len(),
        rules[i].effect == effect,
        rules[i].fires(request),
    ensures
        first_firing(rules, request, effect) is Some,
    decreases rules.len(),
{
    if i > 0 && !(rules[0].effect == effect && rules[0].fires(request)) {
        lemma_first_firing_some(rules.drop_first(), request, effect, i - 1);
    }
}

proof fn lemma_first_firing_none(rules: Seq<Rule>, request: Request, effect: Effect)
    requires
        forall|k: int|
            0 <= k < rules.len() ==> !((#[trigger] rules[k]).effect == effect && rules[k].fires(
                request,
            )),
    ensures
        first_firing(rules, request, effect) is None,
    decreases rules.len(),
{
    if rules.len() > 0 {
        assert(!(rules[0].effect == effect && rules[0].fires(request)));
        assert forall|k: int| 0 <= k < rules.drop_first().len() implies !((#[trigger] rules.drop_first()[k]).effect
            == effect && rules.drop_first()[k].fires(request)) by {
            assert(rules.drop_first()[k] == rules[k + 1]);
        }
        lemma_first_firing_none(rules.drop_first(), request, effect);
    }
}

proof fn lemma_first_firing_at(rules: Seq<Rule>, request: Request, effect: Effect, i: int)
    requires
        0 <= i < rules.len(),
        rules[i].effect == effect,
        rules[i].fires(request),
        forall|k: int| 0 <= k < i ==> !((#[trigger] rules[k]).effect == effect && rules[k].fires(request)),
    ensures
        first_firing(rules, request, effect) == Some(rules[i].reason),
    decreases rules.len(),
{
    if i > 0 {
        assert(!(rules[0].effect == effect && rules[0].fires(request)));
        assert forall|k: int| 0 <= k < i - 1 implies !((#[trigger] rules.drop_first()[k]).effect
            == effect && rules.drop_first()[k].fires(request)) by {
            assert(rules.drop_first()[k] == rules[k + 1]);
        }
        lemma_first_firing_at(rules.drop_first(), request, effect, i - 1);
    }
}

/// Deny overrides: when any Deny rule fires on the request, the decision is
/// Deny, however many Allow rules fire as well.
pub proof fn lemma_deny_overrides(rules: Seq<Rule>, request: Request, i: int)
    requires
        0 <= i < rules.len(),
        rules[i].effect == Effect::Deny,
        rules[i].fires(request),
    ensures
        decide(rules, request).effect == Effect::Deny,
{
    lemma_first_firing_some(rules, request, Effect::Deny, i);
}

/// Default deny: when no rule fires, the decision is Deny with the reserved
/// reason code 0.
pub proof fn lemma_default_deny(rules: Seq<Rule>, request: Request)
    requires
        forall|k: int| 0 <= k < rules.len() ==> !(#[trigger] rules[k]).fires(request),
    ensures
        decide(rules, request) == (Decision { effect: Effect::Deny, reason: ReasonCode(0) }),
{
    lemma_first_firing_none(rules, request, Effect::Deny);
    lemma_first_firing_none(rules, request, Effect::Allow);
}

/// Order independence of Deny: moving a firing Deny rule from index `i` to
/// any index `j` leaves the effect of the decision unchanged (Deny).
pub proof fn lemma_deny_position_irrelevant(rules: Seq<Rule>, request: Request, i: int, j: int)
    requires
        0 <= i < rules.len(),
        0 <= j < rules.len(),
        rules[i].effect == Effect::Deny,
        rules[i].fires(request),
    ensures
        decide(rules.remove(i).insert(j, rules[i]), request).effect == decide(
            rules,
            request,
        ).effect,
{
    let moved = rules.remove(i).insert(j, rules[i]);
    assert(moved[j] == rules[i]);
    lemma_deny_overrides(rules, request, i);
    lemma_deny_overrides(moved, request, j);
}

/// Stable Allow reason: when no Deny rule fires and the Allow rule at index
/// `i` is the first Allow rule that fires, the decision is Allow with its
/// reason.
pub proof fn lemma_first_allow_reason(rules: Seq<Rule>, request: Request, i: int)
    requires
        forall|k: int|
            0 <= k < rules.len() ==> !((#[trigger] rules[k]).effect == Effect::Deny
                && rules[k].fires(request)),
        0 <= i < rules.len(),
        rules[i].effect == Effect::Allow,
        rules[i].fires(request),
        forall|k: int|
            0 <= k < i ==> !((#[trigger] rules[k]).effect == Effect::Allow && rules[k].fires(
                request,
            )),
    ensures
        decide(rules, request) == (Decision { effect: Effect::Allow, reason: rules[i].reason }),
{
    lemma_first_firing_none(rules, request, Effect::Deny);
    lemma_first_firing_at(rules, request, Effect::Allow, i);
}

/// Termination by construction: a condition that passed validation under a
/// depth limit within the ceiling is evaluated in fewer than `2 * size` work
/// items, and its walk fits the fixed evaluation stacks.
pub proof fn lemma_validated_condition_fits(c: Condition, max_depth: usize, max_string_len: usize)
    requires
        c.validation(max_depth, max_string_len) is Ok,
        max_depth <= ABSOLUTE_MAX_CONDITION_DEPTH,
    ensures
        c.work_count() < 2 * c.node_count(),
        c.stack_peak() <= EVAL_STACK_CAPACITY,
{
    lemma_walk_bounds(c);
}

} // verus!
