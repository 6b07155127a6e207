//! The work-stack machine that evaluates a condition on two fixed stacks.
//!
//! Visiting a leaf pushes its value; visiting an inner node pushes a combine
//! marker and then its operands, right before left, so the left one is
//! evaluated first. Both operands of `And` and `Or` are always evaluated.
//! The proofs relate the stacks to the tree's meaning through `work_run`,
//! the value stack that the remaining items would leave.
use vstd::prelude::*;

use crate::condition::{lemma_push_last, lemma_walk_bounds, lookup_attr, Condition, EVAL_STACK_CAPACITY};
use crate::error::PolicyError;
use crate::fixed_stack::FixedStack;
use crate::stats::{saturate_u16, saturate_u8, EvaluationStats};
use crate::value::Value;

verus! {

/// An item on the evaluation work stack.
enum Work<'c, 'a> {
    Eval(&'c Condition<'a>),
    ApplyNot,
    ApplyAnd,
    ApplyOr,
}

/// The effect of one work item on the value stack, or `None` when the
/// values it needs are missing.
spec fn work_step(item: Work, vals: Seq<bool>, ctx: Seq<(&str, Value<'_>)>) -> Option<Seq<bool>> {
    match item {
        Work::Eval(c) => Some(vals.push(c.holds(ctx))),
        Work::ApplyNot => if vals.len() >= 1 {
            Some(vals.drop_last().push(!vals.last()))
        } else {
            None
        },
        Work::ApplyAnd => if vals.len() >= 2 {
            let rest = vals.drop_last();
            Some(rest.drop_last().push(rest.last() && vals.last()))
        } else {
            None
        },
        Work::ApplyOr => if vals.len() >= 2 {
            let rest = vals.drop_last();
            Some(rest.drop_last().push(rest.last() || vals.last()))
        } else {
            None
        },
    }
}

/// The value stack after handling every item of `items`, top (last) first.
spec fn work_run(items: Seq<Work>, vals: Seq<bool>, ctx: Seq<(&str, Value<'_>)>) -> Option<
    Seq<bool>,
>
    decreases items.len(),
{
    if items.len() == 0 {
        Some(vals)
    } else {
        match work_step(items.last(), vals, ctx) {
            Some(next) => work_run(items.drop_last(), next, ctx),
            None => None,
        }
    }
}

/// Change in value-stack length caused by one item.
spec fn work_net(item: Work) -> int {
    match item {
        Work::Eval(_) => 1,
        Work::ApplyNot => 0,
        _ => -1,
    }
}

spec fn net_total(items: Seq<Work>) -> int
    decreases items.len(),
{
    if items.len() == 0 {
        0
    } else {
        net_total(items.drop_last()) + work_net(items.last())
    }
}

/// Work items still to be handled for the items of `items`.
spec fn weight_total(items: Seq<Work>) -> nat
    decreases items.len(),
{
    if items.len() == 0 {
        0
    } else {
        weight_total(items.drop_last()) + match items.last() {
            Work::Eval(c) => c.work_count(),
            _ => 1,
        }
    }
}

/// Condition nodes still to be visited for the items of `items`.
spec fn nodes_total(items: Seq<Work>) -> nat
    decreases items.len(),
{
    if items.len() == 0 {
        0
    } else {
        nodes_total(items.drop_last()) + match items.last() {
            Work::Eval(c) => c.node_count(),
            _ => 0,
        }
    }
}

/// Largest work-stack length still to come: the item at index `k` is handled
/// when the stack holds `k + 1` items and grows it to `k + ` its own peak.
spec fn peak_ahead(items: Seq<Work>) -> nat
    decreases items.len(),
{
    if items.len() == 0 {
        0
    } else {
        let here: nat = (items.len() - 1) as nat + match items.last() {
            Work::Eval(c) => c.stack_peak(),
            _ => 1,
        };
        let below = peak_ahead(items.drop_last());
        if below >= here {
            below
        } else {
            here
        }
    }
}

proof fn lemma_run_len(items: Seq<Work>, vals: Seq<bool>, ctx: Seq<(&str, Value<'_>)>)
    requires
        work_run(items, vals, ctx) is Some,
    ensures
        work_run(items, vals, ctx)->0.len() == vals.len() + net_total(items),
    decreases items.len(),
{
    if items.len() > 0 {
        lemma_run_len(items.drop_last(), work_step(items.last(), vals, ctx)->0, ctx);
    }
}

proof fn lemma_net_lower(items: Seq<Work>)
    ensures
        net_total(items) >= -items.len(),
    decreases items.len(),
{
    if items.len() > 0 {
        lemma_net_lower(items.drop_last());
    }
}

proof fn lemma_peak_ahead_len(items: Seq<Work>)
    ensures
        peak_ahead(items) >= items.len(),
{
    if items.len() > 0 {
        match items.last() {
            Work::Eval(c) => lemma_walk_bounds(*c),
            _ => {},
        }
    }
}

/// What pushing one item adds to each measure of a work stack.
proof fn lemma_unfold_push(rest: Seq<Work>, item: Work, vals: Seq<bool>, ctx: Seq<(&str, Value<'_>)>)
    ensures
        work_run(rest.push(item), vals, ctx) == (match work_step(item, vals, ctx) {
            Some(next) => work_run(rest, next, ctx),
            None => None,
        }),
        net_total(rest.push(item)) == net_total(rest) + work_net(item),
        weight_total(rest.push(item)) == weight_total(rest) + match item {
            Work::Eval(c) => c.work_count(),
            _ => 1,
        },
        nodes_total(rest.push(item)) == nodes_total(rest) + match item {
            Work::Eval(c) => c.node_count(),
            _ => 0,
        },
        peak_ahead(rest.push(item)) == ({
            let here: nat = rest.len() + match item {
                Work::Eval(c) => c.stack_peak(),
                _ => 1,
            };
            if peak_ahead(rest) >= here {
                peak_ahead(rest)
            } else {
                here
            }
        }),
{
    lemma_push_last(rest, item);
}

/// One step of the walk, from the stacks `before`/`vals` to `after`/`vals2`,
/// keeps the final result, uses up one work item (visiting `visited` nodes)
/// and keeps the largest stack length still to come.
spec fn advanced(
    before: Seq<Work>,
    vals: Seq<bool>,
    after: Seq<Work>,
    vals2: Seq<bool>,
    ctx: Seq<(&str, Value<'_>)>,
    visited: nat,
) -> bool {
    &&& work_run(after, vals2, ctx) == work_run(before, vals, ctx)
    &&& weight_total(after) + 1 == weight_total(before)
    &&& nodes_total(after) + visited == nodes_total(before)
    &&& (after.len() <= before.len() || after.len() <= peak_ahead(after))
    &&& peak_ahead(after) <= peak_ahead(before)
    &&& (peak_ahead(before) <= before.len() || peak_ahead(before) <= peak_ahead(after))
    &&& after.len() <= EVAL_STACK_CAPACITY
    &&& vals2.len() <= EVAL_STACK_CAPACITY
}

/// The walk from these stacks ends with exactly one value.
spec fn ends_single(items: Seq<Work>, vals: Seq<bool>, ctx: Seq<(&str, Value<'_>)>) -> bool {
    &&& work_run(items, vals, ctx) is Some
    &&& work_run(items, vals, ctx)->0.len() == 1
}

/// The value of a leaf in the context.
fn leaf_value(cond: &Condition, context: &[(&str, Value<'_>)]) -> (r: bool)
    requires
        cond is True || cond is False || cond is Equals || cond is NotEquals,
    ensures
        r == cond.holds(context@),
{
    match cond {
        Condition::True => true,
        Condition::Equals { attr, value } => match lookup_attr(context, attr) {
            Some(v) => v.equals(value),
            None => false,
        },
        Condition::NotEquals { attr, value } => match lookup_attr(context, attr) {
            Some(v) => !v.equals(value),
            None => true,
        },
        _ => false,
    }
}

/// Handle a popped leaf: push its value.
fn expand_leaf<'c, 'a>(
    cond: &'c Condition<'a>,
    context: &[(&str, Value<'_>)],
    work: &mut FixedStack<Work<'c, 'a>, EVAL_STACK_CAPACITY>,
    results: &mut FixedStack<bool, EVAL_STACK_CAPACITY>,
) -> (r: Result<(), PolicyError>)
    requires
        ends_single(old(work)@.push(Work::Eval(cond)), old(results)@, context@),
        old(work)@.len() < EVAL_STACK_CAPACITY,
        old(results)@.len() <= EVAL_STACK_CAPACITY,
        cond is True || cond is False || cond is Equals || cond is NotEquals,
    ensures
        r is Ok ==> advanced(
            old(work)@.push(Work::Eval(cond)),
            old(results)@,
            final(work)@,
            final(results)@,
            context@,
            1,
        ),
        r is Err ==> r == Err::<(), PolicyError>(
            PolicyError::EvalStackOverflow { max: EVAL_STACK_CAPACITY },
        ) && peak_ahead(old(work)@.push(Work::Eval(cond))) > EVAL_STACK_CAPACITY,
{
    let ghost ctx = context@;
    let ghost rest = work@;
    let ghost vals = results@;
    proof {
        lemma_unfold_push(rest, Work::Eval(cond), vals, ctx);
        lemma_run_len(rest.push(Work::Eval(cond)), vals, ctx);
        lemma_net_lower(rest);
        lemma_walk_bounds(*cond);
        lemma_peak_ahead_len(rest);
    }
    let hit = leaf_value(cond, context);
    results.push(hit)
}

/// Handle a popped `Not`: push its combine marker, then its operand.
fn expand_not<'c, 'a>(
    cond: &'c Condition<'a>,
    context: &[(&str, Value<'_>)],
    work: &mut FixedStack<Work<'c, 'a>, EVAL_STACK_CAPACITY>,
    results: &mut FixedStack<bool, EVAL_STACK_CAPACITY>,
) -> (r: Result<(), PolicyError>)
    requires
        ends_single(old(work)@.push(Work::Eval(cond)), old(results)@, context@),
        old(work)@.len() < EVAL_STACK_CAPACITY,
        old(results)@.len() <= EVAL_STACK_CAPACITY,
        cond is Not,
    ensures
        r is Ok ==> advanced(
            old(work)@.push(Work::Eval(cond)),
            old(results)@,
            final(work)@,
            final(results)@,
            context@,
            1,
        ),
        r is Err ==> r == Err::<(), PolicyError>(
            PolicyError::EvalStackOverflow { max: EVAL_STACK_CAPACITY },
        ) && peak_ahead(old(work)@.push(Work::Eval(cond))) > EVAL_STACK_CAPACITY,
{
    let ghost ctx = context@;
    let ghost rest = work@;
    let ghost vals = results@;
    proof {
        lemma_unfold_push(rest, Work::Eval(cond), vals, ctx);
        lemma_run_len(rest.push(Work::Eval(cond)), vals, ctx);
        lemma_net_lower(rest);
        lemma_walk_bounds(*cond);
        lemma_peak_ahead_len(rest);
    }
    match cond {
        Condition::Not(inner) => {
            proof {
                lemma_walk_bounds(**inner);
            }
            work.push(Work::ApplyNot)?;
            work.push(Work::Eval(inner))?;
            proof {
                let h = (**inner).holds(ctx);
                assert(vals.push(h).drop_last() =~= vals);
                lemma_unfold_push(rest, Work::ApplyNot, vals.push(h), ctx);
                lemma_unfold_push(rest.push(Work::ApplyNot), Work::Eval(inner), vals, ctx);
            }
            Ok(())
        },
        _ => Ok(()),
    }
}

/// Handle a popped `And`: push its combine marker, then the right and the
/// left operand, so that the left one is evaluated first.
fn expand_and<'c, 'a>(
    cond: &'c Condition<'a>,
    context: &[(&str, Value<'_>)],
    work: &mut FixedStack<Work<'c, 'a>, EVAL_STACK_CAPACITY>,
    results: &mut FixedStack<bool, EVAL_STACK_CAPACITY>,
) -> (r: Result<(), PolicyError>)
    requires
        ends_single(old(work)@.push(Work::Eval(cond)), old(results)@, context@),
        old(work)@.len() < EVAL_STACK_CAPACITY,
        old(results)@.len() <= EVAL_STACK_CAPACITY,
        cond is And,
    ensures
        r is Ok ==> advanced(
            old(work)@.push(Work::Eval(cond)),
            old(results)@,
            final(work)@,
            final(results)@,
            context@,
            1,
        ),
        r is Err ==> r == Err::<(), PolicyError>(
            PolicyError::EvalStackOverflow { max: EVAL_STACK_CAPACITY },
        ) && peak_ahead(old(work)@.push(Work::Eval(cond))) > EVAL_STACK_CAPACITY,
{
    let ghost ctx = context@;
    let ghost rest = work@;
    let ghost vals = results@;
    proof {
        lemma_unfold_push(rest, Work::Eval(cond), vals, ctx);
        lemma_run_len(rest.push(Work::Eval(cond)), vals, ctx);
        lemma_net_lower(rest);
        lemma_walk_bounds(*cond);
        lemma_peak_ahead_len(rest);
    }
    match cond {
        Condition::And(l, r) => {
            proof {
                lemma_walk_bounds(**l);
                lemma_walk_bounds(**r);
            }
            work.push(Work::ApplyAnd)?;
            work.push(Work::Eval(r))?;
            work.push(Work::Eval(l))?;
            proof {
                let (hl, hr) = ((**l).holds(ctx), (**r).holds(ctx));
                let two = vals.push(hl).push(hr);
                assert(two.drop_last() =~= vals.push(hl));
                assert(vals.push(hl).drop_last() =~= vals);
                lemma_unfold_push(rest, Work::ApplyAnd, two, ctx);
                lemma_unfold_push(rest.push(Work::ApplyAnd), Work::Eval(r), vals.push(hl), ctx);
                lemma_unfold_push(
                    rest.push(Work::ApplyAnd).push(Work::Eval(r)),
                    Work::Eval(l),
                    vals,
                    ctx,
                );
            }
            Ok(())
        },
        _ => Ok(()),
    }
}

/// Handle a popped `Or`, as `expand_and` does an `And`.
fn expand_or<'c, 'a>(
    cond: &'c Condition<'a>,
    context: &[(&str, Value<'_>)],
    work: &mut FixedStack<Work<'c, 'a>, EVAL_STACK_CAPACITY>,
    results: &mut FixedStack<bool, EVAL_STACK_CAPACITY>,
) -> (r: Result<(), PolicyError>)
    requires
        ends_single(old(work)@.push(Work::Eval(cond)), old(results)@, context@),
        old(work)@.len() < EVAL_STACK_CAPACITY,
        old(results)@.len() <= EVAL_STACK_CAPACITY,
        cond is Or,
    ensures
        r is Ok ==> advanced(
            old(work)@.push(Work::Eval(cond)),
            old(results)@,
            final(work)@,
            final(results)@,
            context@,
            1,
        ),
        r is Err ==> r == Err::<(), PolicyError>(
            PolicyError::EvalStackOverflow { max: EVAL_STACK_CAPACITY },
        ) && peak_ahead(old(work)@.push(Work::Eval(cond))) > EVAL_STACK_CAPACITY,
{
    let ghost ctx = context@;
    let ghost rest = work@;
    let ghost vals = results@;
    proof {
        lemma_unfold_push(rest, Work::Eval(cond), vals, ctx);
        lemma_run_len(rest.push(Work::Eval(cond)), vals, ctx);
        lemma_net_lower(rest);
        lemma_walk_bounds(*cond);
        lemma_peak_ahead_len(rest);
    }
    match cond {
        Condition::Or(l, r) => {
            proof {
                lemma_walk_bounds(**l);
                lemma_walk_bounds(**r);
            }
            work.push(Work::ApplyOr)?;
            work.push(Work::Eval(r))?;
            work.push(Work::Eval(l))?;
            proof {
                let (hl, hr) = ((**l).holds(ctx), (**r).holds(ctx));
                let two = vals.push(hl).push(hr);
                assert(two.drop_last() =~= vals.push(hl));
                assert(vals.push(hl).drop_last() =~= vals);
                lemma_unfold_push(rest, Work::ApplyOr, two, ctx);
                lemma_unfold_push(rest.push(Work::ApplyOr), Work::Eval(r), vals.push(hl), ctx);
                lemma_unfold_push(
                    rest.push(Work::ApplyOr).push(Work::Eval(r)),
                    Work::Eval(l),
                    vals,
                    ctx,
                );
            }
            Ok(())
        },
        _ => Ok(()),
    }
}

/// Handle a popped `Eval(cond)`.
fn expand<'c, 'a>(
    cond: &'c Condition<'a>,
    context: &[(&str, Value<'_>)],
    work: &mut FixedStack<Work<'c, 'a>, EVAL_STACK_CAPACITY>,
    results: &mut FixedStack<bool, EVAL_STACK_CAPACITY>,
) -> (r: Result<(), PolicyError>)
    requires
        ends_single(old(work)@.push(Work::Eval(cond)), old(results)@, context@),
        old(work)@.len() < EVAL_STACK_CAPACITY,
        old(results)@.len() <= EVAL_STACK_CAPACITY,
    ensures
        r is Ok ==> advanced(
            old(work)@.push(Work::Eval(cond)),
            old(results)@,
            final(work)@,
            final(results)@,
            context@,
            1,
        ),
        r is Err ==> r == Err::<(), PolicyError>(
            PolicyError::EvalStackOverflow { max: EVAL_STACK_CAPACITY },
        ) && peak_ahead(old(work)@.push(Work::Eval(cond))) > EVAL_STACK_CAPACITY,
{
    match cond {
        Condition::Not(_) => expand_not(cond, context, work, results),
        Condition::And(_, _) => expand_and(cond, context, work, results),
        Condition::Or(_, _) => expand_or(cond, context, work, results),
        _ => expand_leaf(cond, context, work, results),
    }
}

/// Handle a popped combine marker: replace its operands' values by the
/// combined value.
fn combine(
    item: &Work,
    results: &mut FixedStack<bool, EVAL_STACK_CAPACITY>,
    Ghost(rest): Ghost<Seq<Work>>,
    Ghost(ctx): Ghost<Seq<(&str, Value<'_>)>>,
) -> (r: Result<(), PolicyError>)
    requires
        !(*item is Eval),
        ends_single(rest.push(*item), old(results)@, ctx),
        rest.len() < EVAL_STACK_CAPACITY,
        old(results)@.len() <= EVAL_STACK_CAPACITY,
    ensures
        r is Ok,
        advanced(rest.push(*item), old(results)@, rest, final(results)@, ctx, 0),
{
    let ghost vals = results@;
    proof {
        lemma_unfold_push(rest, *item, vals, ctx);
    }
    let b = match results.pop() {
        Some(v) => v,
        None => return Err(PolicyError::InternalError),
    };
    let value = match item {
        Work::ApplyNot => !b,
        Work::ApplyAnd => {
            let a = match results.pop() {
                Some(v) => v,
                None => return Err(PolicyError::InternalError),
            };
            a && b
        },
        _ => {
            let a = match results.pop() {
                Some(v) => v,
                None => return Err(PolicyError::InternalError),
            };
            a || b
        },
    };
    let r = results.push(value);
    proof {
        assert(results@ =~= work_step(*item, vals, ctx)->0);
    }
    r
}

impl<'a> Condition<'a> {
    /// Evaluate on two fixed stacks, counting visited nodes into `stats`.
    ///
    /// The result is the condition's meaning whenever the walk fits in the
    /// stacks, which every tree of depth up to `ABSOLUTE_MAX_CONDITION_DEPTH`
    /// does. The ghost result is the number of work items handled.
    pub(crate) fn eval_core(&self, context: &[(&str, Value<'_>)], stats: &mut EvaluationStats) -> (r: (
        Result<bool, PolicyError>,
        Ghost<nat>,
    ))
        ensures
            r.0 == (if self.stack_peak() <= EVAL_STACK_CAPACITY {
                Ok::<bool, PolicyError>(self.holds(context@))
            } else {
                Err(PolicyError::EvalStackOverflow { max: EVAL_STACK_CAPACITY })
            }),
            r.0 is Ok ==> r.1@ == self.work_count(),
            r.0 is Ok ==> final(stats).rules_checked == old(stats).rules_checked,
            r.0 is Ok ==> final(stats).condition_evals == saturate_u16(
                old(stats).condition_evals + self.node_count(),
            ),
            r.0 is Ok ==> final(stats).max_depth_reached == (if saturate_u8(self.stack_peak() as int)
                > old(stats).max_depth_reached {
                saturate_u8(self.stack_peak() as int)
            } else {
                old(stats).max_depth_reached
            }),
    {
        let ghost ctx = context@;
        let ghost root = *self;
        let mut work: FixedStack<Work<'_, 'a>, EVAL_STACK_CAPACITY> = FixedStack::new();
        let mut results: FixedStack<bool, EVAL_STACK_CAPACITY> = FixedStack::new();
        proof {
            lemma_walk_bounds(root);
        }
        if let Err(e) = work.push(Work::Eval(self)) {
            return (Err(e), Ghost(0));
        }
        let mut peak: usize = 1;
        let ghost mut steps: nat = 0;
        let ghost mut visited: nat = 0;
        proof {
            let empty = Seq::<Work>::empty();
            assert(work@ == empty.push(Work::Eval(self)));
            lemma_unfold_push(empty, Work::Eval(self), results@, ctx);
            assert(results@.push(root.holds(ctx)) =~= seq![root.holds(ctx)]);
        }
        loop
            invariant
                root == *self,
                ctx == context@,
                work_run(work@, results@, ctx) == Some(seq![root.holds(ctx)]),
                work@.len() <= EVAL_STACK_CAPACITY,
                results@.len() <= EVAL_STACK_CAPACITY,
                1 <= peak <= EVAL_STACK_CAPACITY,
                peak >= work@.len(),
                (if peak >= peak_ahead(work@) {
                    peak as nat
                } else {
                    peak_ahead(work@)
                }) == root.stack_peak(),
                steps + weight_total(work@) == root.work_count(),
                visited + nodes_total(work@) == root.node_count(),
                stats.rules_checked == old(stats).rules_checked,
                stats.max_depth_reached == old(stats).max_depth_reached,
                stats.condition_evals == saturate_u16(old(stats).condition_evals + visited),
            ensures
                work@.len() == 0,
            decreases weight_total(work@),
        {
            let ghost vals = results@;
            let ghost before = work@;
            let item = match work.pop() {
                Some(item) => item,
                None => break,
            };
            let ghost rest = work@;
            proof {
                assert(before =~= rest.push(item));
                lemma_run_len(rest.push(item), vals, ctx);
                lemma_peak_ahead_len(rest);
                steps = steps + 1;
            }
            let outcome = match item {
                Work::Eval(cond) => {
                    stats.inc_condition_evals();
                    proof {
                        visited = visited + 1;
                    }
                    expand(cond, context, &mut work, &mut results)
                },
                _ => combine(&item, &mut results, Ghost(rest), Ghost(ctx)),
            };
            if let Err(e) = outcome {
                return (Err(e), Ghost(steps));
            }
            let depth_now = work.len();
            if depth_now > peak {
                peak = depth_now;
            }
        }
        proof {
            assert(results@ == seq![root.holds(ctx)]);
        }
        let value = match results.pop() {
            Some(v) => v,
            None => return (Err(PolicyError::InternalError), Ghost(steps)),
        };
        stats.update_depth(peak as u8);
        (Ok(value), Ghost(steps))
    }
}


} // verus!
