//! Boolean conditions over request context.
//!
//! The tree is recursive; every walk over it is not. Depth, validation and
//! evaluation each drive an explicit work stack of visit and combine markers,
//! so an unbalanced tree never grows the call stack.
use vstd::prelude::*;

use crate::config::ABSOLUTE_MAX_CONDITION_DEPTH;
use crate::error::PolicyError;
use crate::stats::EvaluationStats;
use crate::text::str_eq;
use crate::value::Value;

verus! {

/// Capacity of each of the two evaluation stacks. A tree of depth `d` needs
/// at most `2 * d - 1` slots on either stack.
pub const EVAL_STACK_CAPACITY: usize = 2 * ABSOLUTE_MAX_CONDITION_DEPTH;

/// The value bound to `name` by the first pair of `ctx` that names it.
pub open spec fn context_lookup<'v>(ctx: Seq<(&str, Value<'v>)>, name: Seq<char>) -> Option<
    Value<'v>,
>
    decreases ctx.len(),
{
    if ctx.len() == 0 {
        None
    } else if ctx[0].0@ == name {
        Some(ctx[0].1)
    } else {
        context_lookup(ctx.drop_first(), name)
    }
}

/// Look up an attribute in the context by name; the first binding wins.
pub fn lookup_attr<'c, 'v>(context: &'c [(&'c str, Value<'v>)], name: &str) -> (r: Option<
    &'c Value<'v>,
>)
    ensures
        match r {
            Some(v) => context_lookup(context@, name@) == Some(*v),
            None => context_lookup(context@, name@) is None,
        },
{
    let mut i: usize = 0;
    assert(context@.skip(0) =~= context@);
    while i < context.len()
        invariant
            i <= context@.len(),
            context_lookup(context@, name@) == context_lookup(context@.skip(i as int), name@),
        decreases context@.len() - i,
    {
        assert(context@.skip(i as int).drop_first() =~= context@.skip(i + 1));
        if str_eq(context[i].0, name) {
            return Some(&context[i].1);
        }
        i = i + 1;
    }
    None
}

/// A boolean condition that can be evaluated against request context.
#[derive(Debug)]
pub enum Condition<'a> {
    /// Always evaluates to true.
    True,
    /// Always evaluates to false.
    False,
    /// True if the attribute is present and equals the value.
    Equals {
        /// The attribute name to look up in context.
        attr: &'a str,
        /// The value to compare against.
        value: Value<'a>,
    },
    /// True if the attribute is absent or differs from the value.
    NotEquals {
        /// The attribute name to look up in context.
        attr: &'a str,
        /// The value to compare against.
        value: Value<'a>,
    },
    /// True if both conditions are true.
    And(Box<Condition<'a>>, Box<Condition<'a>>),
    /// True if either condition is true.
    Or(Box<Condition<'a>>, Box<Condition<'a>>),
    /// True if the inner condition is false.
    Not(Box<Condition<'a>>),
}

impl<'a> Condition<'a> {
    /// The meaning of the condition in a context. A missing attribute makes
    /// `Equals` false and `NotEquals` true; a value of another variant is
    /// simply unequal.
    pub open spec fn holds(self, ctx: Seq<(&str, Value<'_>)>) -> bool
        decreases self,
    {
        match self {
            Condition::True => true,
            Condition::False => false,
            Condition::Equals { attr, value } => match context_lookup(ctx, attr@) {
                Some(v) => v.same(value),
                None => false,
            },
            Condition::NotEquals { attr, value } => match context_lookup(ctx, attr@) {
                Some(v) => !v.same(value),
                None => true,
            },
            Condition::And(l, r) => l.holds(ctx) && r.holds(ctx),
            Condition::Or(l, r) => l.holds(ctx) || r.holds(ctx),
            Condition::Not(c) => !c.holds(ctx),
        }
    }

    /// Height of the tree; a leaf has height 1.
    pub open spec fn tree_depth(self) -> nat
        decreases self,
    {
        match self {
            Condition::And(l, r) | Condition::Or(l, r) => {
                let (dl, dr) = (l.tree_depth(), r.tree_depth());
                1 + if dl >= dr {
                    dl
                } else {
                    dr
                }
            },
            Condition::Not(c) => 1 + c.tree_depth(),
            _ => 1,
        }
    }

    /// Number of nodes in the tree.
    pub open spec fn node_count(self) -> nat
        decreases self,
    {
        match self {
            Condition::And(l, r) | Condition::Or(l, r) => 1 + l.node_count() + r.node_count(),
            Condition::Not(c) => 1 + c.node_count(),
            _ => 1,
        }
    }

    /// Number of work items a stack walk handles for this tree: one visit per
    /// node and one combine marker per inner node.
    pub open spec fn work_count(self) -> nat
        decreases self,
    {
        match self {
            Condition::And(l, r) | Condition::Or(l, r) => 2 + l.work_count() + r.work_count(),
            Condition::Not(c) => 2 + c.work_count(),
            _ => 1,
        }
    }

    /// Largest work-stack length reached while evaluating this tree alone.
    /// A binary node leaves its combine marker and right operand below the
    /// left operand's walk, and its combine marker below the right one's.
    pub open spec fn stack_peak(self) -> nat
        decreases self,
    {
        match self {
            Condition::And(l, r) | Condition::Or(l, r) => {
                let (pl, pr) = (2 + l.stack_peak(), 1 + r.stack_peak());
                if pl >= pr {
                    pl
                } else {
                    pr
                }
            },
            Condition::Not(c) => 1 + c.stack_peak(),
            _ => 1,
        }
    }
}

/// A walk over a condition tree visits `2 * size - 1` work items at most, and
/// its work stack never holds more than `2 * depth - 1` of them.
pub proof fn lemma_walk_bounds(c: Condition)
    ensures
        c.work_count() < 2 * c.node_count(),
        1 <= c.stack_peak() < 2 * c.tree_depth(),
        c.tree_depth() <= c.stack_peak(),
    decreases c,
{
    match c {
        Condition::And(l, r) | Condition::Or(l, r) => {
            lemma_walk_bounds(*l);
            lemma_walk_bounds(*r);
        },
        Condition::Not(i) => {
            lemma_walk_bounds(*i);
        },
        _ => {},
    }
}

/// Pushing onto a sequence and dropping the last item undo each other.
pub(crate) proof fn lemma_push_last<A>(s: Seq<A>, x: A)
    ensures
        s.push(x).drop_last() == s,
        s.push(x).last() == x,
        s.push(x).len() == s.len() + 1,
{
    assert(s.push(x).drop_last() =~= s);
}

/// `n` clamped to the range of `usize`.
pub open spec fn clamp_usize(n: nat) -> usize {
    if n > usize::MAX {
        usize::MAX
    } else {
        n as usize
    }
}

/// The byte length of the first string in `c`, in preorder (attribute name
/// before value, left operand before right), that is longer than `max`.
pub open spec fn first_long_string(c: Condition, max: usize) -> Option<usize>
    decreases c,
{
    match c {
        Condition::Equals { attr, value } | Condition::NotEquals { attr, value } => {
            if attr.len() > max {
                Some(attr.len())
            } else {
                match value {
                    Value::String(s) => if s.len() > max {
                        Some(s.len())
                    } else {
                        None
                    },
                    _ => None,
                }
            }
        },
        Condition::Not(i) => first_long_string(*i, max),
        Condition::And(l, r) | Condition::Or(l, r) => match first_long_string(*l, max) {
            Some(n) => Some(n),
            None => first_long_string(*r, max),
        },
        _ => None,
    }
}

/// Check that a string has at most `max_len` bytes.
pub fn validate_str(s: &str, max_len: usize) -> (r: Result<(), PolicyError>)
    ensures
        r == (if s.len() > max_len {
            Err(PolicyError::StringTooLong { max: max_len, actual: s.len() })
        } else {
            Ok(())
        }),
{
    if s.len() > max_len {
        Err(PolicyError::StringTooLong { max: max_len, actual: s.len() })
    } else {
        Ok(())
    }
}

/// An item on the work stack of `Condition::depth`.
enum Measure<'c, 'a> {
    Visit(&'c Condition<'a>),
    Unary,
    Binary,
}

spec fn succ_sat(d: usize) -> usize {
    if d == usize::MAX {
        usize::MAX
    } else {
        (d + 1) as usize
    }
}

spec fn measure_step(item: Measure, vals: Seq<usize>) -> Option<Seq<usize>> {
    match item {
        Measure::Visit(c) => Some(vals.push(clamp_usize(c.tree_depth()))),
        Measure::Unary => if vals.len() >= 1 {
            Some(vals.drop_last().push(succ_sat(vals.last())))
        } else {
            None
        },
        Measure::Binary => if vals.len() >= 2 {
            let rest = vals.drop_last();
            let (d1, d2) = (rest.last(), vals.last());
            Some(rest.drop_last().push(succ_sat(if d1 >= d2 { d1 } else { d2 })))
        } else {
            None
        },
    }
}

spec fn measure_run(items: Seq<Measure>, vals: Seq<usize>) -> Option<Seq<usize>>
    decreases items.len(),
{
    if items.len() == 0 {
        Some(vals)
    } else {
        match measure_step(items.last(), vals) {
            Some(next) => measure_run(items.drop_last(), next),
            None => None,
        }
    }
}

spec fn measure_weight(items: Seq<Measure>) -> nat
    decreases items.len(),
{
    if items.len() == 0 {
        0
    } else {
        measure_weight(items.drop_last()) + match items.last() {
            Measure::Visit(c) => c.work_count(),
            _ => 1,
        }
    }
}

proof fn lemma_measure_push(rest: Seq<Measure>, item: Measure, vals: Seq<usize>)
    ensures
        measure_run(rest.push(item), vals) == (match measure_step(item, vals) {
            Some(next) => measure_run(rest, next),
            None => None,
        }),
        measure_weight(rest.push(item)) == measure_weight(rest) + match item {
            Measure::Visit(c) => c.work_count(),
            _ => 1,
        },
{
    lemma_push_last(rest, item);
}

/// The items of the preorder string scan still to come, top (last) first.
spec fn scan_run(items: Seq<&Condition>, max: usize) -> Option<usize>
    decreases items.len(),
{
    if items.len() == 0 {
        None
    } else {
        match first_long_string(*items.last(), max) {
            Some(n) => Some(n),
            None => scan_run(items.drop_last(), max),
        }
    }
}

spec fn scan_weight(items: Seq<&Condition>) -> nat
    decreases items.len(),
{
    if items.len() == 0 {
        0
    } else {
        scan_weight(items.drop_last()) + items.last().node_count()
    }
}

proof fn lemma_scan_push(rest: Seq<&Condition>, c: &Condition, max: usize)
    ensures
        scan_run(rest.push(c), max) == (match first_long_string(*c, max) {
            Some(n) => Some(n),
            None => scan_run(rest, max),
        }),
        scan_weight(rest.push(c)) == scan_weight(rest) + c.node_count(),
{
    lemma_push_last(rest, c);
}

impl<'a> Condition<'a> {
    /// The outcome of `validate`: the depth error first, then the first
    /// string too long in preorder.
    pub open spec fn validation(self, max_depth: usize, max_string_len: usize) -> Result<
        (),
        PolicyError,
    > {
        if clamp_usize(self.tree_depth()) > max_depth {
            Err(
                PolicyError::ConditionTooDeep {
                    max: max_depth,
                    actual: clamp_usize(self.tree_depth()),
                },
            )
        } else {
            match first_long_string(self, max_string_len) {
                Some(n) => Err(PolicyError::StringTooLong { max: max_string_len, actual: n }),
                None => Ok(()),
            }
        }
    }

    /// Evaluate this condition against the given context, without recursion.
    ///
    /// Both operands of `And` and `Or` are always evaluated. A missing
    /// attribute makes `Equals` false and `NotEquals` true.
    pub fn evaluate(&self, context: &[(&str, Value<'_>)]) -> (r: Result<bool, PolicyError>)
        ensures
            r == (if self.stack_peak() <= EVAL_STACK_CAPACITY {
                Ok::<bool, PolicyError>(self.holds(context@))
            } else {
                Err(PolicyError::EvalStackOverflow { max: EVAL_STACK_CAPACITY })
            }),
            self.tree_depth() <= ABSOLUTE_MAX_CONDITION_DEPTH ==> r == Ok::<bool, PolicyError>(
                self.holds(context@),
            ),
            (match *self {
                Condition::Equals { attr, .. } => context_lookup(context@, attr@) is None,
                _ => false,
            }) ==> r == Ok::<bool, PolicyError>(false),
            (match *self {
                Condition::NotEquals { attr, .. } => context_lookup(context@, attr@) is None,
                _ => false,
            }) ==> r == Ok::<bool, PolicyError>(true),
    {
        proof {
            lemma_walk_bounds(*self);
        }
        let mut stats = EvaluationStats::new();
        let (r, _) = self.eval_core(context, &mut stats);
        r
    }

    /// Height of the tree (a leaf has height 1), computed with an explicit
    /// work stack; the count saturates at `usize::MAX`.
    pub fn depth(&self) -> (r: usize)
        ensures
            r == clamp_usize(self.tree_depth()),
    {
        let ghost root = *self;
        let mut stack: Vec<Measure<'_, 'a>> = Vec::new();
        let mut results: Vec<usize> = Vec::new();
        stack.push(Measure::Visit(self));
        proof {
            lemma_measure_push(Seq::empty(), Measure::Visit(self), Seq::empty());
            assert(stack@ == Seq::<Measure>::empty().push(Measure::Visit(self)));
            assert(Seq::<usize>::empty().push(clamp_usize(root.tree_depth())) =~= seq![
                clamp_usize(root.tree_depth()),
            ]);
        }
        while stack.len() > 0
            invariant
                root == *self,
                measure_run(stack@, results@) == Some(seq![clamp_usize(root.tree_depth())]),
            decreases measure_weight(stack@),
        {
            let ghost before = stack@;
            let ghost vals = results@;
            let item = stack.pop().unwrap();
            let ghost rest = stack@;
            proof {
                assert(before =~= rest.push(item));
                lemma_measure_push(rest, item, vals);
            }
            match item {
                Measure::Visit(cond) => match cond {
                    Condition::Not(inner) => {
                        stack.push(Measure::Unary);
                        stack.push(Measure::Visit(inner));
                        proof {
                            let d = clamp_usize((**inner).tree_depth());
                            assert(vals.push(d).drop_last() =~= vals);
                            lemma_measure_push(rest, Measure::Unary, vals.push(d));
                            lemma_measure_push(rest.push(Measure::Unary), Measure::Visit(inner), vals);
                        }
                    },
                    Condition::And(l, r) | Condition::Or(l, r) => {
                        stack.push(Measure::Binary);
                        stack.push(Measure::Visit(r));
                        stack.push(Measure::Visit(l));
                        proof {
                            let (dl, dr) = (
                                clamp_usize((**l).tree_depth()),
                                clamp_usize((**r).tree_depth()),
                            );
                            let two = vals.push(dl).push(dr);
                            assert(two.drop_last() =~= vals.push(dl));
                            assert(vals.push(dl).drop_last() =~= vals);
                            lemma_measure_push(rest, Measure::Binary, two);
                            lemma_measure_push(rest.push(Measure::Binary), Measure::Visit(r), vals.push(dl));
                            lemma_measure_push(
                                rest.push(Measure::Binary).push(Measure::Visit(r)),
                                Measure::Visit(l),
                                vals,
                            );
                        }
                    },
                    _ => {
                        results.push(1);
                    },
                },
                Measure::Unary => {
                    let d: usize = results.pop().unwrap_or(0);
                    results.push(d.saturating_add(1));
                    proof {
                        assert(results@ =~= measure_step(item, vals)->0);
                    }
                },
                Measure::Binary => {
                    let d2: usize = results.pop().unwrap_or(0);
                    let d1: usize = results.pop().unwrap_or(0);
                    let m = if d1 >= d2 {
                        d1
                    } else {
                        d2
                    };
                    results.push(m.saturating_add(1));
                    proof {
                        assert(results@ =~= measure_step(item, vals)->0);
                    }
                },
            }
        }
        results.pop().unwrap_or(0)
    }

    /// Check that the tree is at most `max_depth` deep (as `depth` counts),
    /// then that every
    /// attribute name and string value has at most `max_string_len` bytes.
    /// The first string found too long, in preorder, is reported.
    pub fn validate(&self, max_depth: usize, max_string_len: usize) -> (r: Result<(), PolicyError>)
        ensures
            r == self.validation(max_depth, max_string_len),
    {
        let actual_depth = self.depth();
        if actual_depth > max_depth {
            return Err(PolicyError::ConditionTooDeep { max: max_depth, actual: actual_depth });
        }
        let ghost root = *self;
        let mut stack: Vec<&Condition<'a>> = Vec::new();
        stack.push(self);
        proof {
            lemma_scan_push(Seq::empty(), self, max_string_len);
            assert(stack@ == Seq::<&Condition>::empty().push(self));
        }
        while stack.len() > 0
            invariant
                root == *self,
                clamp_usize(root.tree_depth()) <= max_depth,
                scan_run(stack@, max_string_len) == first_long_string(root, max_string_len),
            decreases scan_weight(stack@),
        {
            let ghost before = stack@;
            let cond = stack.pop().unwrap();
            let ghost rest = stack@;
            proof {
                assert(before =~= rest.push(cond));
                lemma_scan_push(rest, cond, max_string_len);
            }
            match cond {
                Condition::Equals { attr, value } | Condition::NotEquals { attr, value } => {
                    validate_str(attr, max_string_len)?;
                    if let Value::String(s) = value {
                        validate_str(s, max_string_len)?;
                    }
                },
                Condition::Not(inner) => {
                    stack.push(inner);
                    proof {
                        lemma_scan_push(rest, &**inner, max_string_len);
                    }
                },
                Condition::And(l, r) | Condition::Or(l, r) => {
                    stack.push(r);
                    stack.push(l);
                    proof {
                        lemma_scan_push(rest, &**r, max_string_len);
                        lemma_scan_push(rest.push(&**r), &**l, max_string_len);
                    }
                },
                _ => {},
            }
        }
        Ok(())
    }
}


/// Nodes of the trees still held by a teardown stack.
spec fn held_nodes(items: Seq<Condition>) -> nat
    decreases items.len(),
{
    if items.len() == 0 {
        0
    } else {
        held_nodes(items.drop_last()) + items.last().node_count()
    }
}

impl<'a> Condition<'a> {
    /// Release the tree one node at a time: children are moved out of their
    /// boxes onto a work stack before their parent goes, so no drop ever
    /// recurses, however unbalanced the tree.
    pub fn dismantle(self) {
        let mut stack: Vec<Condition<'a>> = Vec::new();
        stack.push(self);
        while stack.len() > 0
            decreases held_nodes(stack@),
        {
            let ghost before = stack@;
            let node = stack.pop().unwrap();
            let ghost rest = stack@;
            proof {
                assert(before =~= rest.push(node));
                lemma_push_last(rest, node);
                assert(held_nodes(before) == held_nodes(rest) + node.node_count());
            }
            match node {
                Condition::And(l, r) | Condition::Or(l, r) => {
                    stack.push(*l);
                    stack.push(*r);
                    proof {
                        lemma_push_last(rest, *l);
                        lemma_push_last(rest.push(*l), *r);
                        assert(held_nodes(rest.push(*l)) == held_nodes(rest) + (*l).node_count());
                        assert(stack@ == rest.push(*l).push(*r));
                    }
                },
                Condition::Not(inner) => {
                    stack.push(*inner);
                    proof {
                        lemma_push_last(rest, *inner);
                        assert(stack@ == rest.push(*inner));
                    }
                },
                _ => {},
            }
        }
    }
}

} // verus!
