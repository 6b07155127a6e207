//! Construction limits: the configurable knobs and their compiled-in ceilings.
use vstd::prelude::*;

use crate::error::{ConfigField, PolicyError};

verus! {

/// Ceiling on `max_rules`.
pub const ABSOLUTE_MAX_RULES: usize = 4096;

/// Ceiling on `max_condition_depth`.
pub const ABSOLUTE_MAX_CONDITION_DEPTH: usize = 32;

/// Ceiling on `max_context_attrs`.
pub const ABSOLUTE_MAX_CONTEXT_ATTRS: usize = 256;

/// Ceiling on `max_matcher_options`.
pub const ABSOLUTE_MAX_MATCHER_OPTIONS: usize = 256;

/// Ceiling on `max_string_len`.
pub const ABSOLUTE_MAX_STRING_LEN: usize = 4096;

/// Bounded knobs under which a policy is built.
#[derive(Debug, Clone, Copy, PartialEq, Eq, Structural)]
pub struct PolicyConfig {
    /// Cap on rules per policy.
    pub max_rules: usize,
    /// Cap on the height of a condition tree.
    pub max_condition_depth: usize,
    /// Cap on the number of context attributes of a request.
    pub max_context_attrs: usize,
    /// Cap on the length of a `OneOf` list.
    pub max_matcher_options: usize,
    /// Cap on the bytes of any string in a matcher or condition.
    pub max_string_len: usize,
}

/// The first knob of `c`, in declaration order, that exceeds its ceiling.
pub open spec fn config_error(c: PolicyConfig) -> Option<PolicyError> {
    if c.max_rules > ABSOLUTE_MAX_RULES {
        Some(
            PolicyError::ConfigExceedsCeiling {
                field: ConfigField::MaxRules,
                max: ABSOLUTE_MAX_RULES,
                actual: c.max_rules,
            },
        )
    } else if c.max_condition_depth > ABSOLUTE_MAX_CONDITION_DEPTH {
        Some(
            PolicyError::ConfigExceedsCeiling {
                field: ConfigField::MaxConditionDepth,
                max: ABSOLUTE_MAX_CONDITION_DEPTH,
                actual: c.max_condition_depth,
            },
        )
    } else if c.max_context_attrs > ABSOLUTE_MAX_CONTEXT_ATTRS {
        Some(
            PolicyError::ConfigExceedsCeiling {
                field: ConfigField::MaxContextAttrs,
                max: ABSOLUTE_MAX_CONTEXT_ATTRS,
                actual: c.max_context_attrs,
            },
        )
    } else if c.max_matcher_options > ABSOLUTE_MAX_MATCHER_OPTIONS {
        Some(
            PolicyError::ConfigExceedsCeiling {
                field: ConfigField::MaxMatcherOptions,
                max: ABSOLUTE_MAX_MATCHER_OPTIONS,
                actual: c.max_matcher_options,
            },
        )
    } else if c.max_string_len > ABSOLUTE_MAX_STRING_LEN {
        Some(
            PolicyError::ConfigExceedsCeiling {
                field: ConfigField::MaxStringLen,
                max: ABSOLUTE_MAX_STRING_LEN,
                actual: c.max_string_len,
            },
        )
    } else {
        None
    }
}

impl PolicyConfig {
    /// Fail with `ConfigExceedsCeiling` on the first knob above its ceiling.
    pub fn check(&self) -> (r: Result<(), PolicyError>)
        ensures
            r == (match config_error(*self) {
                Some(e) => Err(e),
                None => Ok(()),
            }),
    {
        if self.max_rules > ABSOLUTE_MAX_RULES {
            return Err(
                PolicyError::ConfigExceedsCeiling {
                    field: ConfigField::MaxRules,
                    max: ABSOLUTE_MAX_RULES,
                    actual: self.max_rules,
                },
            );
        }
        if self.max_condition_depth > ABSOLUTE_MAX_CONDITION_DEPTH {
            return Err(
                PolicyError::ConfigExceedsCeiling {
                    field: ConfigField::MaxConditionDepth,
                    max: ABSOLUTE_MAX_CONDITION_DEPTH,
                    actual: self.max_condition_depth,
                },
            );
        }
        if self.max_context_attrs > ABSOLUTE_MAX_CONTEXT_ATTRS {
            return Err(
                PolicyError::ConfigExceedsCeiling {
                    field: ConfigField::MaxContextAttrs,
                    max: ABSOLUTE_MAX_CONTEXT_ATTRS,
                    actual: self.max_context_attrs,
                },
            );
        }
        if self.max_matcher_options > ABSOLUTE_MAX_MATCHER_OPTIONS {
            return Err(
                PolicyError::ConfigExceedsCeiling {
                    field: ConfigField::MaxMatcherOptions,
                    max: ABSOLUTE_MAX_MATCHER_OPTIONS,
                    actual: self.max_matcher_options,
                },
            );
        }
        if self.max_string_len > ABSOLUTE_MAX_STRING_LEN {
            return Err(
                PolicyError::ConfigExceedsCeiling {
                    field: ConfigField::MaxStringLen,
                    max: ABSOLUTE_MAX_STRING_LEN,
                    actual: self.max_string_len,
                },
            );
        }
        Ok(())
    }
}

impl Default for PolicyConfig {
    /// The conservative defaults: 256 rules, depth 8, 32 context
    /// attributes, 64 options per list, 256-byte strings.
    fn default() -> (c: Self)
        ensures
            c == (PolicyConfig {
                max_rules: 256,
                max_condition_depth: 8,
                max_context_attrs: 32,
                max_matcher_options: 64,
                max_string_len: 256,
            }),
    {
        PolicyConfig {
            max_rules: 256,
            max_condition_depth: 8,
            max_context_attrs: 32,
            max_matcher_options: 64,
            max_string_len: 256,
        }
    }
}

} // verus!
