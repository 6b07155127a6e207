//! An embeddable authorization decision engine.
//!
//! A `Policy` is built once from rules under a `PolicyConfig` whose limits
//! are enforced at build time; it then answers requests with an Allow or Deny
//! `Decision` and a stable reason code, under deny-overrides, without heap
//! allocation and without recursion.

pub mod ast;
pub mod condition;
pub mod config;
pub mod error;
pub mod fixed_stack;
pub mod laws;
pub mod policy;
pub mod rule;
pub mod stats;
pub mod target;
pub mod text;
pub mod types;
pub mod value;
mod walk;

pub use condition::{Condition, EVAL_STACK_CAPACITY};
pub use config::{
    PolicyConfig, ABSOLUTE_MAX_CONDITION_DEPTH, ABSOLUTE_MAX_CONTEXT_ATTRS,
    ABSOLUTE_MAX_MATCHER_OPTIONS, ABSOLUTE_MAX_RULES, ABSOLUTE_MAX_STRING_LEN,
};
pub use error::{ConfigField, PolicyError};
pub use fixed_stack::FixedStack;
pub use policy::{Policy, PolicyBuilder};
pub use rule::Rule;
pub use stats::EvaluationStats;
pub use target::{Matcher, Target};
pub use types::{Decision, Effect, ReasonCode, Request, NO_MATCHING_RULE_CODE};
pub use value::Value;

