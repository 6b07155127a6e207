//! The compiled policy: construction-time limits and the deny-overrides
//! evaluator.
use vstd::prelude::*;

use crate::condition::lemma_walk_bounds;
use crate::config::{config_error, PolicyConfig, ABSOLUTE_MAX_CONDITION_DEPTH};
use crate::error::PolicyError;
use crate::rule::Rule;
use crate::stats::{saturate_u16, saturate_u8, EvaluationStats};
use crate::target::Matcher;
use crate::types::{Decision, Effect, ReasonCode, Request, NO_MATCHING_RULE_CODE};

verus! {

/// `a` if it holds an error, else `b`.
pub open spec fn first_error(a: Option<PolicyError>, b: Option<PolicyError>) -> Option<PolicyError> {
    match a {
        Some(e) => Some(e),
        None => b,
    }
}

/// The first option of a `OneOf` list with more than `max` bytes.
pub open spec fn long_option_error(options: Seq<&str>, max: usize) -> Option<PolicyError>
    decreases options.len(),
{
    if options.len() == 0 {
        None
    } else if options[0].len() > max {
        Some(PolicyError::StringTooLong { max, actual: options[0].len() })
    } else {
        long_option_error(options.drop_first(), max)
    }
}

/// What is wrong with a matcher under `cfg`: a list too long, else its first
/// string too long.
pub open spec fn matcher_error(m: Matcher, cfg: PolicyConfig) -> Option<PolicyError> {
    match m {
        Matcher::Any => None,
        Matcher::Exact(s) => if s.len() > cfg.max_string_len {
            Some(PolicyError::StringTooLong { max: cfg.max_string_len, actual: s.len() })
        } else {
            None
        },
        Matcher::OneOf(options) => if options@.len() > cfg.max_matcher_options {
            Some(
                PolicyError::MatcherListTooLong {
                    max: cfg.max_matcher_options,
                    actual: options@.len() as usize,
                },
            )
        } else {
            long_option_error(options@, cfg.max_string_len)
        },
    }
}

/// What is wrong with a rule under `cfg`: its principal, action and resource
/// matchers in turn, then its condition.
pub open spec fn rule_error(r: Rule, cfg: PolicyConfig) -> Option<PolicyError> {
    first_error(
        matcher_error(r.target.principal, cfg),
        first_error(
            matcher_error(r.target.action, cfg),
            first_error(
                matcher_error(r.target.resource, cfg),
                match r.condition {
                    Some(c) => match c.validation(cfg.max_condition_depth, cfg.max_string_len) {
                        Err(e) => Some(e),
                        Ok(_) => None,
                    },
                    None => None,
                },
            ),
        ),
    )
}

/// The first error of the first faulty rule, in declaration order.
pub open spec fn rules_error(rules: Seq<Rule>, cfg: PolicyConfig) -> Option<PolicyError>
    decreases rules.len(),
{
    if rules.len() == 0 {
        None
    } else {
        first_error(rule_error(rules[0], cfg), rules_error(rules.drop_first(), cfg))
    }
}

/// What `build` reports: a knob above its ceiling, then too many rules, then
/// the first faulty rule.
pub open spec fn build_error(cfg: PolicyConfig, rules: Seq<Rule>) -> Option<PolicyError> {
    first_error(
        config_error(cfg),
        if rules.len() > cfg.max_rules {
            Some(PolicyError::TooManyRules { max: cfg.max_rules, actual: rules.len() as usize })
        } else {
            rules_error(rules, cfg)
        },
    )
}

/// Check one matcher under `cfg`.
fn check_matcher(m: &Matcher, cfg: &PolicyConfig) -> (r: Result<(), PolicyError>)
    ensures
        r == (match matcher_error(*m, *cfg) {
            Some(e) => Err(e),
            None => Ok(()),
        }),
{
    match m {
        Matcher::Any => Ok(()),
        Matcher::Exact(s) => crate::condition::validate_str(s, cfg.max_string_len),
        Matcher::OneOf(options) => {
            if options.len() > cfg.max_matcher_options {
                return Err(
                    PolicyError::MatcherListTooLong {
                        max: cfg.max_matcher_options,
                        actual: options.len(),
                    },
                );
            }
            let mut i: usize = 0;
            assert(options@.skip(0) =~= options@);
            while i < options.len()
                invariant
                    *m is OneOf,
                    m->OneOf_0@ == options@,
                    options@.len() <= cfg.max_matcher_options,
                    i <= options@.len(),
                    long_option_error(options@, cfg.max_string_len) == long_option_error(
                        options@.skip(i as int),
                        cfg.max_string_len,
                    ),
                decreases options@.len() - i,
            {
                assert(options@.skip(i as int).drop_first() =~= options@.skip(i + 1));
                crate::condition::validate_str(options[i], cfg.max_string_len)?;
                i = i + 1;
            }
            Ok(())
        },
    }
}

/// Check one rule under `cfg`.
fn check_rule(rule: &Rule, cfg: &PolicyConfig) -> (r: Result<(), PolicyError>)
    ensures
        r == (match rule_error(*rule, *cfg) {
            Some(e) => Err(e),
            None => Ok(()),
        }),
{
    check_matcher(&rule.target.principal, cfg)?;
    check_matcher(&rule.target.action, cfg)?;
    check_matcher(&rule.target.resource, cfg)?;
    match &rule.condition {
        Some(c) => c.validate(cfg.max_condition_depth, cfg.max_string_len),
        None => Ok(()),
    }
}

/// The reason of the first rule, in declaration order, with this effect
/// that fires on the request.
pub open spec fn first_firing(rules: Seq<Rule>, request: Request, effect: Effect) -> Option<
    ReasonCode,
>
    decreases rules.len(),
{
    if rules.len() == 0 {
        None
    } else if rules[0].effect == effect && rules[0].fires(request) {
        Some(rules[0].reason)
    } else {
        first_firing(rules.drop_first(), request, effect)
    }
}

/// Deny-overrides: the first firing Deny decides; else the first firing
/// Allow; else Deny with `NO_MATCHING_RULE_CODE`.
pub open spec fn decide(rules: Seq<Rule>, request: Request) -> Decision {
    match first_firing(rules, request, Effect::Deny) {
        Some(reason) => Decision { effect: Effect::Deny, reason },
        None => match first_firing(rules, request, Effect::Allow) {
            Some(reason) => Decision { effect: Effect::Allow, reason },
            None => Decision { effect: Effect::Deny, reason: ReasonCode(NO_MATCHING_RULE_CODE) },
        },
    }
}

/// The counters after considering one rule: a matching target counts as a
/// checked rule, and its condition's nodes and work-stack peak are recorded.
pub open spec fn rule_stats(rule: Rule, request: Request, s: EvaluationStats) -> EvaluationStats {
    if !rule.target.accepts(request.principal@, request.action@, request.resource@) {
        s
    } else {
        let checked = saturate_u16(s.rules_checked + 1);
        match rule.condition {
            Some(c) => {
                let peak = saturate_u8(c.stack_peak() as int);
                EvaluationStats {
                    rules_checked: checked,
                    max_depth_reached: if peak > s.max_depth_reached {
                        peak
                    } else {
                        s.max_depth_reached
                    },
                    condition_evals: saturate_u16(s.condition_evals + c.node_count()),
                }
            },
            None => EvaluationStats { rules_checked: checked, ..s },
        }
    }
}

/// The counters after the single pass over `rules`, which stops at the first
/// firing Deny.
pub open spec fn stats_run(rules: Seq<Rule>, request: Request, s: EvaluationStats) -> EvaluationStats
    decreases rules.len(),
{
    if rules.len() == 0 {
        s
    } else {
        let next = rule_stats(rules[0], request, s);
        if rules[0].effect == Effect::Deny && rules[0].fires(request) {
            next
        } else {
            stats_run(rules.drop_first(), request, next)
        }
    }
}

/// One rule of the pass: how the first firing rules and the counters of the
/// rules from index `i` on relate to those from `i + 1` on.
proof fn lemma_pass_step(rules: Seq<Rule>, i: int, request: Request, s: EvaluationStats)
    requires
        0 <= i < rules.len(),
    ensures
        first_firing(rules.skip(i), request, Effect::Deny) == (if rules[i].effect == Effect::Deny
            && rules[i].fires(request) {
            Some(rules[i].reason)
        } else {
            first_firing(rules.skip(i + 1), request, Effect::Deny)
        }),
        first_firing(rules.skip(i), request, Effect::Allow) == (if rules[i].effect == Effect::Allow
            && rules[i].fires(request) {
            Some(rules[i].reason)
        } else {
            first_firing(rules.skip(i + 1), request, Effect::Allow)
        }),
        stats_run(rules.skip(i), request, s) == (if rules[i].effect == Effect::Deny
            && rules[i].fires(request) {
            rule_stats(rules[i], request, s)
        } else {
            stats_run(rules.skip(i + 1), request, rule_stats(rules[i], request, s))
        }),
{
    assert(rules.skip(i).drop_first() =~= rules.skip(i + 1));
    assert(rules.skip(i)[0] == rules[i]);
}

/// Whether one rule fires on the request, counting into `stats`.
fn consider(
    rule: &Rule,
    request: &Request,
    stats: &mut EvaluationStats,
    Ghost(cfg): Ghost<PolicyConfig>,
) -> (r: Result<bool, PolicyError>)
    requires
        rule_error(*rule, cfg) is None,
        cfg.max_condition_depth <= ABSOLUTE_MAX_CONDITION_DEPTH,
    ensures
        r == Ok::<bool, PolicyError>(rule.fires(*request)),
        *final(stats) == rule_stats(*rule, *request, *old(stats)),
{
    if !rule.target.matches(request.principal, request.action, request.resource) {
        return Ok(false);
    }
    stats.inc_rules();
    match &rule.condition {
        Some(c) => {
            proof {
                lemma_walk_bounds(*c);
            }
            let (outcome, _) = c.eval_core(request.context, stats);
            outcome
        },
        None => Ok(true),
    }
}

/// Rules and a configuration on their way to becoming a `Policy`.
#[derive(Debug)]
pub struct PolicyBuilder<'a> {
    config: PolicyConfig,
    rules: Vec<Rule<'a>>,
}

impl<'a> PolicyBuilder<'a> {
    /// The configuration the policy will be built under.
    pub closed spec fn pending_config(&self) -> PolicyConfig {
        self.config
    }

    /// The rules so far, in declaration order.
    pub closed spec fn pending_rules(&self) -> Seq<Rule<'a>> {
        self.rules@
    }

    /// A builder with the default configuration and no rule.
    pub fn new() -> (b: Self)
        ensures
            b.pending_config() == (PolicyConfig {
                max_rules: 256,
                max_condition_depth: 8,
                max_context_attrs: 32,
                max_matcher_options: 64,
                max_string_len: 256,
            }),
            b.pending_rules().len() == 0,
    {
        PolicyBuilder { config: PolicyConfig::default(), rules: Vec::new() }
    }

    /// Replace the configuration.
    pub fn config(self, config: PolicyConfig) -> (b: Self)
        ensures
            b.pending_config() == config,
            b.pending_rules() == self.pending_rules(),
    {
        PolicyBuilder { config, rules: self.rules }
    }

    /// Append a rule.
    pub fn rule(self, rule: Rule<'a>) -> (b: Self)
        ensures
            b.pending_config() == self.pending_config(),
            b.pending_rules() == self.pending_rules().push(rule),
    {
        let mut rules = self.rules;
        rules.push(rule);
        PolicyBuilder { config: self.config, rules }
    }

    /// Validate everything and produce the immutable policy, or the first
    /// construction error.
    pub fn build(self) -> (r: Result<Policy<'a>, PolicyError>)
        ensures
            match r {
                Ok(p) => build_error(self.pending_config(), self.pending_rules()) is None
                    && p.rule_seq() == self.pending_rules() && p.settings()
                    == self.pending_config(),
                Err(e) => build_error(self.pending_config(), self.pending_rules()) == Some(e),
            },
    {
        let cfg = self.config;
        cfg.check()?;
        if self.rules.len() > cfg.max_rules {
            return Err(PolicyError::TooManyRules { max: cfg.max_rules, actual: self.rules.len() });
        }
        let mut i: usize = 0;
        assert(self.rules@.skip(0) =~= self.rules@);
        while i < self.rules.len()
            invariant
                cfg == self.config,
                config_error(cfg) is None,
                self.rules@.len() <= cfg.max_rules,
                i <= self.rules@.len(),
                rules_error(self.rules@, cfg) == rules_error(self.rules@.skip(i as int), cfg),
                forall|j: int| 0 <= j < i ==> rule_error(#[trigger] self.rules@[j], cfg) is None,
            decreases self.rules@.len() - i,
        {
            assert(self.rules@.skip(i as int).drop_first() =~= self.rules@.skip(i + 1));
            check_rule(&self.rules[i], &cfg)?;
            i = i + 1;
        }
        Ok(Policy { rules: self.rules, config: cfg })
    }
}

/// An immutable, validated, ordered list of rules and the configuration it
/// was built under.
#[derive(Debug)]
pub struct Policy<'a> {
    rules: Vec<Rule<'a>>,
    config: PolicyConfig,
}

impl<'a> Policy<'a> {
    #[verifier::type_invariant]
    spec fn inv(&self) -> bool {
        &&& config_error(self.config) is None
        &&& self.rules@.len() <= self.config.max_rules
        &&& forall|i: int|
            0 <= i < self.rules@.len() ==> rule_error(#[trigger] self.rules@[i], self.config) is None
    }

    /// The rules, in declaration order.
    pub closed spec fn rule_seq(&self) -> Seq<Rule<'a>> {
        self.rules@
    }

    /// The configuration the policy was built under.
    pub closed spec fn settings(&self) -> PolicyConfig {
        self.config
    }

    /// Start building a policy.
    pub fn builder() -> (b: PolicyBuilder<'a>)
        ensures
            b.pending_config() == (PolicyConfig {
                max_rules: 256,
                max_condition_depth: 8,
                max_context_attrs: 32,
                max_matcher_options: 64,
                max_string_len: 256,
            }),
            b.pending_rules().len() == 0,
    {
        PolicyBuilder::new()
    }

    /// The single deny-overrides pass, counting into `stats`.
    fn decide_counting(&self, request: &Request, stats: &mut EvaluationStats) -> (r: Result<
        Decision,
        PolicyError,
    >)
        ensures
            request.context@.len() > self.settings().max_context_attrs ==> r == Err::<
                Decision,
                PolicyError,
            >(
                PolicyError::TooManyContextAttrs {
                    max: self.settings().max_context_attrs,
                    actual: request.context@.len() as usize,
                },
            ),
            request.context@.len() <= self.settings().max_context_attrs ==> r == Ok::<
                Decision,
                PolicyError,
            >(decide(self.rule_seq(), *request)) && *final(stats) == stats_run(
                self.rule_seq(),
                *request,
                *old(stats),
            ),
    {
        proof {
            use_type_invariant(self);
        }
        if request.context.len() > self.config.max_context_attrs {
            return Err(
                PolicyError::TooManyContextAttrs {
                    max: self.config.max_context_attrs,
                    actual: request.context.len(),
                },
            );
        }
        let ghost rules = self.rules@;
        let ghost req = *request;
        let mut first_allow: Option<ReasonCode> = None;
        let mut i: usize = 0;
        assert(rules.skip(0) =~= rules);
        while i < self.rules.len()
            invariant
                rules == self.rules@,
                req == *request,
                request.context@.len() <= self.config.max_context_attrs,
                i <= rules.len(),
                first_firing(rules, req, Effect::Deny) == first_firing(
                    rules.skip(i as int),
                    req,
                    Effect::Deny,
                ),
                first_allow is Some ==> first_firing(rules, req, Effect::Allow) == first_allow,
                first_allow is None ==> first_firing(rules, req, Effect::Allow) == first_firing(
                    rules.skip(i as int),
                    req,
                    Effect::Allow,
                ),
                stats_run(rules, req, *old(stats)) == stats_run(rules.skip(i as int), req, *stats),
            decreases rules.len() - i,
        {
            let rule = &self.rules[i];
            proof {
                use_type_invariant(self);
                lemma_pass_step(rules, i as int, req, *stats);
            }
            let holds = consider(rule, request, stats, Ghost(self.config))?;
            if holds {
                match rule.effect {
                    Effect::Deny => {
                        return Ok(Decision::deny(rule.reason));
                    },
                    Effect::Allow => {
                        if first_allow.is_none() {
                            first_allow = Some(rule.reason);
                        }
                    },
                }
            }
            i = i + 1;
        }
        proof {
            assert(rules.skip(i as int).len() == 0);
        }
        match first_allow {
            Some(reason) => Ok(Decision::allow(reason)),
            None => Ok(Decision::deny(ReasonCode::no_matching_rule())),
        }
    }

    /// Decide the request under deny-overrides, in a single pass over the
    /// rules in declaration order, without heap allocation.
    ///
    /// Fails only when the request carries more context attributes than the
    /// configuration allows; never falls back to Allow.
    pub fn evaluate(&self, request: &Request) -> (r: Result<Decision, PolicyError>)
        ensures
            r == (if request.context@.len() > self.settings().max_context_attrs {
                Err::<Decision, PolicyError>(
                    PolicyError::TooManyContextAttrs {
                        max: self.settings().max_context_attrs,
                        actual: request.context@.len() as usize,
                    },
                )
            } else {
                Ok(decide(self.rule_seq(), *request))
            }),
    {
        let mut stats = EvaluationStats::new();
        self.decide_counting(request, &mut stats)
    }

    /// As `evaluate`, also reporting how close the evaluation came to its
    /// limits.
    pub fn evaluate_with_stats(&self, request: &Request) -> (r: Result<
        (Decision, EvaluationStats),
        PolicyError,
    >)
        ensures
            r == (if request.context@.len() > self.settings().max_context_attrs {
                Err::<(Decision, EvaluationStats), PolicyError>(
                    PolicyError::TooManyContextAttrs {
                        max: self.settings().max_context_attrs,
                        actual: request.context@.len() as usize,
                    },
                )
            } else {
                Ok(
                    (
                        decide(self.rule_seq(), *request),
                        stats_run(
                            self.rule_seq(),
                            *request,
                            EvaluationStats {
                                rules_checked: 0,
                                max_depth_reached: 0,
                                condition_evals: 0,
                            },
                        ),
                    ),
                )
            }),
    {
        let mut stats = EvaluationStats::new();
        let decision = self.decide_counting(request, &mut stats)?;
        Ok((decision, stats))
    }

    /// The number of rules.
    pub fn len(&self) -> (r: usize)
        ensures
            r == self.rule_seq().len(),
    {
        self.rules.len()
    }

    /// True when the policy has no rule; it then denies every request.
    pub fn is_empty(&self) -> (r: bool)
        ensures
            r == (self.rule_seq().len() == 0),
    {
        self.rules.len() == 0
    }

    /// The configuration the policy was built under.
    pub fn config(&self) -> (r: &PolicyConfig)
        ensures
            *r == self.settings(),
    {
        &self.config
    }
}

} // verus!
