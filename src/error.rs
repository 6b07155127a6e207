//! Errors of policy construction and of evaluation.
use vstd::prelude::*;

verus! {

/// The `PolicyConfig` knob that a construction error refers to.
#[derive(Debug, Clone, Copy, PartialEq, Eq, Structural)]
pub enum ConfigField {
    MaxRules,
    MaxConditionDepth,
    MaxContextAttrs,
    MaxMatcherOptions,
    MaxStringLen,
}

impl ConfigField {
    /// The option's name as it is written in a configuration.
    pub fn name(&self) -> (r: &'static str)
        ensures
            *self == ConfigField::MaxRules ==> r@ == "max_rules"@,
            *self == ConfigField::MaxConditionDepth ==> r@ == "max_condition_depth"@,
            *self == ConfigField::MaxContextAttrs ==> r@ == "max_context_attrs"@,
            *self == ConfigField::MaxMatcherOptions ==> r@ == "max_matcher_options"@,
            *self == ConfigField::MaxStringLen ==> r@ == "max_string_len"@,
    {
        match self {
            ConfigField::MaxRules => "max_rules",
            ConfigField::MaxConditionDepth => "max_condition_depth",
            ConfigField::MaxContextAttrs => "max_context_attrs",
            ConfigField::MaxMatcherOptions => "max_matcher_options",
            ConfigField::MaxStringLen => "max_string_len",
        }
    }
}

/// Every error of the engine.
///
/// The first five come from `PolicyBuilder::build`; the last three from
/// evaluation. No variant carries a partial result.
#[derive(Debug, Clone, Copy, PartialEq, Eq, Structural)]
pub enum PolicyError {
    /// More rules than the configuration allows.
    TooManyRules { max: usize, actual: usize },
    /// A `OneOf` matcher lists more options than allowed.
    MatcherListTooLong { max: usize, actual: usize },
    /// A condition tree is deeper than allowed.
    ConditionTooDeep { max: usize, actual: usize },
    /// A string in a matcher or condition has too many bytes.
    StringTooLong { max: usize, actual: usize },
    /// A configuration value exceeds its compiled-in ceiling.
    ConfigExceedsCeiling { field: ConfigField, max: usize, actual: usize },
    /// A request carries more context attributes than allowed.
    TooManyContextAttrs { max: usize, actual: usize },
    /// An evaluation work stack ran out of room.
    EvalStackOverflow { max: usize },
    /// An internal invariant did not hold.
    InternalError,
}

impl PolicyError {
    /// True for the errors that `PolicyBuilder::build` returns.
    pub fn is_construction_error(&self) -> (r: bool)
        ensures
            r == (self is TooManyRules || self is MatcherListTooLong || self is ConditionTooDeep
                || self is StringTooLong || self is ConfigExceedsCeiling),
    {
        match self {
            PolicyError::TooManyRules { .. }
            | PolicyError::MatcherListTooLong { .. }
            | PolicyError::ConditionTooDeep { .. }
            | PolicyError::StringTooLong { .. }
            | PolicyError::ConfigExceedsCeiling { .. } => true,
            _ => false,
        }
    }
}

} // verus!
