//! Which requests a rule applies to.
//!
//! Only three matchers exist: `Any`, `Exact` and `OneOf`. There is no prefix
//! or glob matcher; prefix logic belongs in a condition.
use vstd::prelude::*;

use crate::text::str_eq;

verus! {

/// A matcher for a single field (principal, action, or resource).
#[derive(Debug, Clone, Copy)]
pub enum Matcher<'a> {
    /// Matches any value.
    Any,
    /// Matches exactly the specified string (byte-exact, case-sensitive).
    Exact(&'a str),
    /// Matches any value in the list.
    OneOf(&'a [&'a str]),
}

impl<'a> Matcher<'a> {
    /// The values the matcher accepts.
    pub open spec fn accepts(self, value: Seq<char>) -> bool {
        match self {
            Matcher::Any => true,
            Matcher::Exact(expected) => expected@ == value,
            Matcher::OneOf(options) => exists|i: int|
                0 <= i < options@.len() && (#[trigger] options@[i])@ == value,
        }
    }

    /// Check if this matcher matches the given value.
    pub fn matches(&self, value: &str) -> (r: bool)
        ensures
            r == self.accepts(value@),
            *self is Any ==> r,
            *self is Exact ==> (r <==> value@ == self->Exact_0@),
            *self is OneOf ==> (r <==> exists|i: int|
                0 <= i < self->OneOf_0@.len() && (#[trigger] self->OneOf_0@[i])@ == value@),
    {
        match self {
            Matcher::Any => true,
            Matcher::Exact(expected) => str_eq(value, expected),
            Matcher::OneOf(options) => {
                let mut i: usize = 0;
                while i < options.len()
                    invariant
                        *self is OneOf,
                        self->OneOf_0@ == options@,
                        i <= options@.len(),
                        forall|j: int| 0 <= j < i ==> (#[trigger] options@[j])@ != value@,
                    decreases options@.len() - i,
                {
                    if str_eq(options[i], value) {
                        assert(options@[i as int]@ == value@);
                        return true;
                    }
                    i = i + 1;
                }
                false
            },
        }
    }
}

/// A target specifies which requests a rule applies to.
#[derive(Debug, Clone, Copy)]
pub struct Target<'a> {
    /// Matcher for the principal.
    pub principal: Matcher<'a>,
    /// Matcher for the action.
    pub action: Matcher<'a>,
    /// Matcher for the resource.
    pub resource: Matcher<'a>,
}

impl<'a> Target<'a> {
    /// The requests the target accepts: each field accepted by its matcher.
    pub open spec fn accepts(self, principal: Seq<char>, action: Seq<char>, resource: Seq<char>) -> bool {
        &&& self.principal.accepts(principal)
        &&& self.action.accepts(action)
        &&& self.resource.accepts(resource)
    }

    /// Create a target that matches everything.
    pub fn any() -> (t: Self)
        ensures
            t.principal is Any,
            t.action is Any,
            t.resource is Any,
    {
        Target { principal: Matcher::Any, action: Matcher::Any, resource: Matcher::Any }
    }

    /// Check if this target matches the given request fields.
    pub fn matches(&self, principal: &str, action: &str, resource: &str) -> (r: bool)
        ensures
            r == self.accepts(principal@, action@, resource@),
    {
        self.principal.matches(principal) && self.action.matches(action)
            && self.resource.matches(resource)
    }
}

} // verus!
