use gate0::{
    Condition, ConfigField, Decision, Effect, EvaluationStats, Matcher, Policy, PolicyConfig,
    PolicyError, ReasonCode, Request, Rule, Target, Value,
};

fn resource_target(resource: &'static str) -> Target<'static> {
    Target { principal: Matcher::Any, action: Matcher::Any, resource: Matcher::Exact(resource) }
}

fn chain(depth: usize) -> Condition<'static> {
    let mut c = Condition::True;
    let mut d = 1;
    while d < depth {
        c = Condition::And(Box::new(c), Box::new(Condition::True));
        d += 1;
    }
    c
}

fn salaries_policy() -> Policy<'static> {
    Policy::builder()
        .rule(Rule::allow(Target::any(), ReasonCode(1)))
        .rule(Rule::deny(resource_target("salaries.pdf"), ReasonCode(99)))
        .build()
        .unwrap()
}

#[test]
fn scenario_deny_wins() {
    let policy = salaries_policy();
    let ctx: &[(&str, Value)] = &[("team", Value::String("engineering"))];
    let req = Request::with_context("alice", "read", "salaries.pdf", ctx);
    assert_eq!(policy.evaluate(&req), Ok(Decision { effect: Effect::Deny, reason: ReasonCode(99) }));
}

#[test]
fn scenario_allow_path() {
    let policy = salaries_policy();
    let ctx: &[(&str, Value)] = &[("team", Value::String("engineering"))];
    let req = Request::with_context("alice", "read", "manual.pdf", ctx);
    assert_eq!(policy.evaluate(&req), Ok(Decision { effect: Effect::Allow, reason: ReasonCode(1) }));
}

#[test]
fn scenario_role_gated_allow() {
    let policy = Policy::builder()
        .rule(Rule::new(
            Effect::Allow,
            Target::any(),
            Some(Condition::Equals { attr: "role", value: Value::String("admin") }),
            ReasonCode(100),
        ))
        .build()
        .unwrap();
    let admin: &[(&str, Value)] = &[("role", Value::String("admin"))];
    let member: &[(&str, Value)] = &[("role", Value::String("member"))];
    assert_eq!(
        policy.evaluate(&Request::with_context("alice", "update", "doc", admin)),
        Ok(Decision::allow(ReasonCode(100)))
    );
    assert_eq!(
        policy.evaluate(&Request::with_context("alice", "update", "doc", member)),
        Ok(Decision::deny(ReasonCode(0)))
    );
}

#[test]
fn scenario_mfa_deny_and_allow() {
    let policy = Policy::builder()
        .rule(Rule::new(
            Effect::Deny,
            Target::any(),
            Some(Condition::Equals { attr: "mfa", value: Value::Bool(false) }),
            ReasonCode(401),
        ))
        .rule(Rule::allow(
            Target {
                principal: Matcher::Any,
                action: Matcher::Exact("ssh"),
                resource: Matcher::Exact("dev-server"),
            },
            ReasonCode(200),
        ))
        .build()
        .unwrap();
    let no_mfa: &[(&str, Value)] = &[("mfa", Value::Bool(false))];
    let mfa: &[(&str, Value)] = &[("mfa", Value::Bool(true))];
    assert_eq!(
        policy.evaluate(&Request::with_context("bob", "ssh", "dev-server", no_mfa)),
        Ok(Decision::deny(ReasonCode(401)))
    );
    assert_eq!(
        policy.evaluate(&Request::with_context("alice", "ssh", "dev-server", mfa)),
        Ok(Decision::allow(ReasonCode(200)))
    );
}

#[test]
fn scenario_one_of_match() {
    let principals: &[&str] = &["alice", "bob"];
    let policy = Policy::builder()
        .rule(Rule::allow(
            Target {
                principal: Matcher::OneOf(principals),
                action: Matcher::Exact("read"),
                resource: Matcher::Any,
            },
            ReasonCode(7),
        ))
        .build()
        .unwrap();
    assert_eq!(
        policy.evaluate(&Request::new("bob", "read", "anything")),
        Ok(Decision::allow(ReasonCode(7)))
    );
    assert_eq!(
        policy.evaluate(&Request::new("eve", "read", "anything")),
        Ok(Decision::deny(ReasonCode(0)))
    );
}

#[test]
fn scenario_construction_failure() {
    let result = Policy::builder()
        .config(PolicyConfig { max_condition_depth: 8, ..PolicyConfig::default() })
        .rule(Rule::new(Effect::Allow, Target::any(), Some(chain(9)), ReasonCode(1)))
        .build();
    assert_eq!(result.unwrap_err(), PolicyError::ConditionTooDeep { max: 8, actual: 9 });
}

#[test]
fn depth_at_limit_builds() {
    let result = Policy::builder()
        .rule(Rule::new(Effect::Allow, Target::any(), Some(chain(8)), ReasonCode(1)))
        .build();
    assert!(result.is_ok());
}

#[test]
fn empty_policy_denies_with_reserved_code() {
    let policy = Policy::builder().build().unwrap();
    assert!(policy.is_empty());
    assert_eq!(policy.len(), 0);
    assert_eq!(policy.evaluate(&Request::new("a", "b", "c")), Ok(Decision::deny(ReasonCode(0))));
}

#[test]
fn deny_position_does_not_change_effect() {
    let first = Policy::builder()
        .rule(Rule::deny(Target::any(), ReasonCode(5)))
        .rule(Rule::allow(Target::any(), ReasonCode(6)))
        .build()
        .unwrap();
    let last = Policy::builder()
        .rule(Rule::allow(Target::any(), ReasonCode(6)))
        .rule(Rule::deny(Target::any(), ReasonCode(5)))
        .build()
        .unwrap();
    let req = Request::new("u", "v", "w");
    assert_eq!(first.evaluate(&req).unwrap().effect, Effect::Deny);
    assert_eq!(last.evaluate(&req).unwrap().effect, Effect::Deny);
}

#[test]
fn first_matching_allow_gives_the_reason() {
    let policy = Policy::builder()
        .rule(Rule::allow(resource_target("other"), ReasonCode(1)))
        .rule(Rule::allow(Target::any(), ReasonCode(2)))
        .rule(Rule::allow(Target::any(), ReasonCode(3)))
        .build()
        .unwrap();
    assert_eq!(policy.evaluate(&Request::new("u", "v", "w")), Ok(Decision::allow(ReasonCode(2))));
}

#[test]
fn first_matching_deny_gives_the_reason() {
    let policy = Policy::builder()
        .rule(Rule::allow(Target::any(), ReasonCode(1)))
        .rule(Rule::deny(Target::any(), ReasonCode(8)))
        .rule(Rule::deny(Target::any(), ReasonCode(9)))
        .build()
        .unwrap();
    assert_eq!(policy.evaluate(&Request::new("u", "v", "w")), Ok(Decision::deny(ReasonCode(8))));
}

#[test]
fn too_many_context_attrs() {
    let policy = Policy::builder()
        .config(PolicyConfig { max_context_attrs: 1, ..PolicyConfig::default() })
        .rule(Rule::allow(Target::any(), ReasonCode(1)))
        .build()
        .unwrap();
    let ctx: &[(&str, Value)] = &[("a", Value::Int(1)), ("b", Value::Int(2))];
    let req = Request::with_context("u", "v", "w", ctx);
    assert_eq!(policy.evaluate(&req), Err(PolicyError::TooManyContextAttrs { max: 1, actual: 2 }));
    assert_eq!(
        policy.evaluate_with_stats(&req),
        Err(PolicyError::TooManyContextAttrs { max: 1, actual: 2 })
    );
}

#[test]
fn too_many_rules() {
    let result = Policy::builder()
        .config(PolicyConfig { max_rules: 1, ..PolicyConfig::default() })
        .rule(Rule::allow(Target::any(), ReasonCode(1)))
        .rule(Rule::allow(Target::any(), ReasonCode(2)))
        .build();
    assert_eq!(result.unwrap_err(), PolicyError::TooManyRules { max: 1, actual: 2 });
}

#[test]
fn matcher_list_too_long() {
    let options: &[&str] = &["a", "b", "c"];
    let result = Policy::builder()
        .config(PolicyConfig { max_matcher_options: 2, ..PolicyConfig::default() })
        .rule(Rule::allow(
            Target { principal: Matcher::Any, action: Matcher::OneOf(options), resource: Matcher::Any },
            ReasonCode(1),
        ))
        .build();
    assert_eq!(result.unwrap_err(), PolicyError::MatcherListTooLong { max: 2, actual: 3 });
}

#[test]
fn matcher_string_too_long() {
    let options: &[&str] = &["ok", "toolong"];
    let result = Policy::builder()
        .config(PolicyConfig { max_string_len: 4, ..PolicyConfig::default() })
        .rule(Rule::allow(
            Target { principal: Matcher::OneOf(options), action: Matcher::Any, resource: Matcher::Any },
            ReasonCode(1),
        ))
        .build();
    assert_eq!(result.unwrap_err(), PolicyError::StringTooLong { max: 4, actual: 7 });
    let result = Policy::builder()
        .config(PolicyConfig { max_string_len: 4, ..PolicyConfig::default() })
        .rule(Rule::allow(resource_target("abcde"), ReasonCode(1)))
        .build();
    assert_eq!(result.unwrap_err(), PolicyError::StringTooLong { max: 4, actual: 5 });
}

#[test]
fn condition_string_too_long_at_build() {
    let result = Policy::builder()
        .config(PolicyConfig { max_string_len: 3, ..PolicyConfig::default() })
        .rule(Rule::new(
            Effect::Deny,
            Target::any(),
            Some(Condition::Equals { attr: "team", value: Value::Bool(true) }),
            ReasonCode(1),
        ))
        .build();
    assert_eq!(result.unwrap_err(), PolicyError::StringTooLong { max: 3, actual: 4 });
}

#[test]
fn config_above_ceiling() {
    let result = Policy::builder()
        .config(PolicyConfig { max_condition_depth: 33, ..PolicyConfig::default() })
        .build();
    assert_eq!(
        result.unwrap_err(),
        PolicyError::ConfigExceedsCeiling { field: ConfigField::MaxConditionDepth, max: 32, actual: 33 }
    );
    let result = Policy::builder()
        .config(PolicyConfig { max_rules: 5000, max_string_len: 5000, ..PolicyConfig::default() })
        .build();
    assert_eq!(
        result.unwrap_err(),
        PolicyError::ConfigExceedsCeiling { field: ConfigField::MaxRules, max: 4096, actual: 5000 }
    );
    assert_eq!(ConfigField::MaxRules.name(), "max_rules");
}

#[test]
fn config_defaults() {
    let c = PolicyConfig::default();
    assert_eq!(c.max_rules, 256);
    assert_eq!(c.max_condition_depth, 8);
    assert_eq!(c.max_context_attrs, 32);
    assert_eq!(c.max_matcher_options, 64);
    assert_eq!(c.max_string_len, 256);
    assert_eq!(Policy::builder().build().unwrap().config(), &c);
}

#[test]
fn construction_errors_are_told_apart() {
    assert!(PolicyError::TooManyRules { max: 1, actual: 2 }.is_construction_error());
    assert!(!PolicyError::TooManyContextAttrs { max: 1, actual: 2 }.is_construction_error());
    assert!(!PolicyError::InternalError.is_construction_error());
}

#[test]
fn stats_count_matching_rules_and_nodes() {
    let policy = Policy::builder()
        .rule(Rule::allow(resource_target("elsewhere"), ReasonCode(1)))
        .rule(Rule::new(
            Effect::Allow,
            Target::any(),
            Some(Condition::And(
                Box::new(Condition::Equals { attr: "role", value: Value::String("admin") }),
                Box::new(Condition::True),
            )),
            ReasonCode(2),
        ))
        .rule(Rule::allow(Target::any(), ReasonCode(3)))
        .build()
        .unwrap();
    let ctx: &[(&str, Value)] = &[("role", Value::String("admin"))];
    let (decision, stats) =
        policy.evaluate_with_stats(&Request::with_context("u", "v", "w", ctx)).unwrap();
    assert_eq!(decision, Decision::allow(ReasonCode(2)));
    // Two targets matched; the condition has three nodes and its walk
    // peaked at three work items.
    assert_eq!(stats, EvaluationStats { rules_checked: 2, max_depth_reached: 3, condition_evals: 3 });
}

#[test]
fn stats_stop_at_first_deny() {
    let policy = Policy::builder()
        .rule(Rule::deny(Target::any(), ReasonCode(4)))
        .rule(Rule::new(Effect::Allow, Target::any(), Some(Condition::True), ReasonCode(5)))
        .build()
        .unwrap();
    let (decision, stats) = policy.evaluate_with_stats(&Request::new("u", "v", "w")).unwrap();
    assert_eq!(decision, Decision::deny(ReasonCode(4)));
    assert_eq!(stats, EvaluationStats { rules_checked: 1, max_depth_reached: 0, condition_evals: 0 });
}

#[test]
fn walk_stays_within_twice_the_tree() {
    // A left-leaning chain of depth 8 has 15 nodes; its walk peaks at
    // 2 * 8 - 1 = 15 work items.
    let policy = Policy::builder()
        .rule(Rule::new(Effect::Allow, Target::any(), Some(chain(8)), ReasonCode(1)))
        .build()
        .unwrap();
    let (decision, stats) = policy.evaluate_with_stats(&Request::new("u", "v", "w")).unwrap();
    assert_eq!(decision, Decision::allow(ReasonCode(1)));
    assert_eq!(stats, EvaluationStats { rules_checked: 1, max_depth_reached: 15, condition_evals: 15 });
}
