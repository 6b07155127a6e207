//! Counters that show how close an evaluation came to its limits.
use vstd::prelude::*;

verus! {

/// `n` clamped to the range of `u16`.
pub open spec fn saturate_u16(n: int) -> u16 {
    if n > u16::MAX {
        u16::MAX
    } else {
        n as u16
    }
}

/// `n` clamped to the range of `u8`.
pub open spec fn saturate_u8(n: int) -> u8 {
    if n > u8::MAX {
        u8::MAX
    } else {
        n as u8
    }
}

/// Observable bound usage of one `evaluate_with_stats` call.
///
/// All counters saturate instead of wrapping.
#[derive(Debug, Clone, Copy, PartialEq, Eq, Structural)]
pub struct EvaluationStats {
    /// Number of rules whose target matched the request.
    pub rules_checked: u16,
    /// Largest work-stack length seen while evaluating conditions.
    pub max_depth_reached: u8,
    /// Number of condition nodes visited.
    pub condition_evals: u16,
}

impl EvaluationStats {
    /// Create a new stats tracker initialized to zero.
    pub fn new() -> (s: Self)
        ensures
            s == (EvaluationStats { rules_checked: 0, max_depth_reached: 0, condition_evals: 0 }),
    {
        EvaluationStats { rules_checked: 0, max_depth_reached: 0, condition_evals: 0 }
    }

    /// Increment the rules checked counter.
    pub fn inc_rules(&mut self)
        ensures
            *final(self) == (EvaluationStats {
                rules_checked: saturate_u16(old(self).rules_checked + 1),
                ..*old(self)
            }),
    {
        self.rules_checked = self.rules_checked.saturating_add(1);
    }

    /// Update the max depth if `depth` is higher.
    pub fn update_depth(&mut self, depth: u8)
        ensures
            *final(self) == (EvaluationStats {
                max_depth_reached: if depth > old(self).max_depth_reached {
                    depth
                } else {
                    old(self).max_depth_reached
                },
                ..*old(self)
            }),
    {
        if depth > self.max_depth_reached {
            self.max_depth_reached = depth;
        }
    }

    /// Increment the condition evaluation counter.
    pub fn inc_condition_evals(&mut self)
        ensures
            *final(self) == (EvaluationStats {
                condition_evals: saturate_u16(old(self).condition_evals + 1),
                ..*old(self)
            }),
    {
        self.condition_evals = self.condition_evals.saturating_add(1);
    }
}

impl Default for EvaluationStats {
    fn default() -> (s: Self)
        ensures
            s == (EvaluationStats { rules_checked: 0, max_depth_reached: 0, condition_evals: 0 }),
    {
        EvaluationStats::new()
    }
}

} // verus!
