use gate0::{Condition, PolicyError, Value, EVAL_STACK_CAPACITY};

fn deep_and(depth: usize) -> Condition<'static> {
    let mut c = Condition::Equals { attr: "x", value: Value::Bool(true) };
    let mut d = 1;
    while d < depth {
        c = Condition::And(Box::new(c), Box::new(Condition::True));
        d += 1;
    }
    c
}

fn deep_not(depth: usize) -> Condition<'static> {
    let mut c = Condition::True;
    let mut d = 1;
    while d < depth {
        c = Condition::Not(Box::new(c));
        d += 1;
    }
    c
}

#[test]
fn test_condition_true() {
    let c = Condition::True;
    assert_eq!(c.depth(), 1);
    assert_eq!(c.evaluate(&[]), Ok(true));
}

#[test]
fn test_condition_false() {
    let c = Condition::False;
    assert_eq!(c.depth(), 1);
    assert_eq!(c.evaluate(&[]), Ok(false));
}

#[test]
fn test_condition_equals() {
    let c = Condition::Equals { attr: "role", value: Value::String("admin") };
    assert_eq!(c.depth(), 1);

    let ctx: &[(&str, Value)] = &[("role", Value::String("admin"))];
    assert_eq!(c.evaluate(ctx), Ok(true));

    let ctx: &[(&str, Value)] = &[("role", Value::String("user"))];
    assert_eq!(c.evaluate(ctx), Ok(false));

    // Missing attribute = false (fail-closed)
    assert_eq!(c.evaluate(&[]), Ok(false));
}

#[test]
fn test_condition_not_equals() {
    let c = Condition::NotEquals { attr: "status", value: Value::String("blocked") };

    let ctx: &[(&str, Value)] = &[("status", Value::String("active"))];
    assert_eq!(c.evaluate(ctx), Ok(true));

    let ctx: &[(&str, Value)] = &[("status", Value::String("blocked"))];
    assert_eq!(c.evaluate(ctx), Ok(false));

    // Missing attribute = true for NotEquals
    assert_eq!(c.evaluate(&[]), Ok(true));
}

#[test]
fn test_condition_not() {
    let c = Condition::Not(Box::new(Condition::True));
    assert_eq!(c.depth(), 2);
    assert_eq!(c.evaluate(&[]), Ok(false));

    let c = Condition::Not(Box::new(Condition::False));
    assert_eq!(c.evaluate(&[]), Ok(true));
}

#[test]
fn test_condition_and() {
    let c = Condition::And(Box::new(Condition::True), Box::new(Condition::True));
    assert_eq!(c.depth(), 2);
    assert_eq!(c.evaluate(&[]), Ok(true));

    let c = Condition::And(Box::new(Condition::True), Box::new(Condition::False));
    assert_eq!(c.evaluate(&[]), Ok(false));
}

#[test]
fn test_condition_or() {
    let c = Condition::Or(Box::new(Condition::False), Box::new(Condition::True));
    assert_eq!(c.depth(), 2);
    assert_eq!(c.evaluate(&[]), Ok(true));

    let c = Condition::Or(Box::new(Condition::False), Box::new(Condition::False));
    assert_eq!(c.evaluate(&[]), Ok(false));
}

#[test]
fn test_condition_depth_nested() {
    // (A AND (B OR (NOT C)))
    let c = Condition::And(
        Box::new(Condition::True),
        Box::new(Condition::Or(
            Box::new(Condition::False),
            Box::new(Condition::Not(Box::new(Condition::True))),
        )),
    );
    assert_eq!(c.depth(), 4);
}

#[test]
fn test_validate_depth_ok() {
    let c = Condition::And(Box::new(Condition::True), Box::new(Condition::False));
    assert!(c.validate(10, 256).is_ok());
    assert!(c.validate(2, 256).is_ok());
}

#[test]
fn test_validate_depth_exceeds() {
    let c = Condition::And(
        Box::new(Condition::True),
        Box::new(Condition::Not(Box::new(Condition::False))),
    );
    // Depth is 3
    assert!(c.validate(2, 256).is_err());
    let err = c.validate(2, 256).unwrap_err();
    assert_eq!(err, PolicyError::ConditionTooDeep { max: 2, actual: 3 });
}

#[test]
fn test_complex_condition() {
    // (role == "admin") OR (level >= 5 represented as level == 5)
    let c = Condition::Or(
        Box::new(Condition::Equals { attr: "role", value: Value::String("admin") }),
        Box::new(Condition::Equals { attr: "level", value: Value::Int(5) }),
    );

    let ctx: &[(&str, Value)] = &[("role", Value::String("admin"))];
    assert_eq!(c.evaluate(ctx), Ok(true));

    let ctx: &[(&str, Value)] = &[("level", Value::Int(5))];
    assert_eq!(c.evaluate(ctx), Ok(true));

    let ctx: &[(&str, Value)] = &[("role", Value::String("user")), ("level", Value::Int(3))];
    assert_eq!(c.evaluate(ctx), Ok(false));
}

#[test]
fn fail_closed_lookup() {
    let eq = Condition::Equals { attr: "mfa", value: Value::Bool(true) };
    let ne = Condition::NotEquals { attr: "mfa", value: Value::Bool(true) };
    let other: &[(&str, Value)] = &[("team", Value::String("eng"))];
    assert_eq!(eq.evaluate(other), Ok(false));
    assert_eq!(ne.evaluate(other), Ok(true));
}

#[test]
fn type_mismatch_is_unequal() {
    let eq = Condition::Equals { attr: "level", value: Value::String("5") };
    let ne = Condition::NotEquals { attr: "level", value: Value::String("5") };
    let ctx: &[(&str, Value)] = &[("level", Value::Int(5))];
    assert_eq!(eq.evaluate(ctx), Ok(false));
    assert_eq!(ne.evaluate(ctx), Ok(true));
}

#[test]
fn first_context_binding_wins_in_conditions() {
    let c = Condition::Equals { attr: "role", value: Value::String("admin") };
    let ctx: &[(&str, Value)] = &[("role", Value::String("guest")), ("role", Value::String("admin"))];
    assert_eq!(c.evaluate(ctx), Ok(false));
}

#[test]
fn deep_chain_at_ceiling_evaluates() {
    let c = deep_and(32);
    assert_eq!(c.depth(), 32);
    let ctx: &[(&str, Value)] = &[("x", Value::Bool(true))];
    assert_eq!(c.evaluate(ctx), Ok(true));
    let ctx: &[(&str, Value)] = &[("x", Value::Bool(false))];
    assert_eq!(c.evaluate(ctx), Ok(false));
}

#[test]
fn too_deep_for_the_stacks_is_an_error() {
    // A chain of Not nodes needs one more work slot per level.
    let c = deep_not(70);
    assert_eq!(c.depth(), 70);
    assert_eq!(c.evaluate(&[]), Err(PolicyError::EvalStackOverflow { max: EVAL_STACK_CAPACITY }));
    let c = deep_not(64);
    assert_eq!(c.evaluate(&[]), Ok(false));
}

#[test]
fn validate_reports_first_long_string_in_preorder() {
    let c = Condition::And(
        Box::new(Condition::Equals { attr: "abc", value: Value::String("abcdef") }),
        Box::new(Condition::Equals { attr: "abcdefgh", value: Value::Int(1) }),
    );
    assert_eq!(c.validate(8, 5), Err(PolicyError::StringTooLong { max: 5, actual: 6 }));
    assert_eq!(c.validate(8, 7), Err(PolicyError::StringTooLong { max: 7, actual: 8 }));
    assert_eq!(c.validate(8, 8), Ok(()));
    assert_eq!(c.validate(1, 2), Err(PolicyError::ConditionTooDeep { max: 1, actual: 2 }));
}

#[test]
fn validate_counts_bytes_not_characters() {
    let c = Condition::NotEquals { attr: "k", value: Value::String("é") };
    assert_eq!(c.validate(8, 1), Err(PolicyError::StringTooLong { max: 1, actual: 2 }));
    assert_eq!(c.validate(8, 2), Ok(()));
}

#[test]
fn dismantle_releases_a_very_deep_tree() {
    let c = deep_and(200_000);
    c.dismantle();
    let n = deep_not(200_000);
    n.dismantle();
}
