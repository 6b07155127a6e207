//! A bounded stack that lives in its owner's frame and never touches the
//! allocator.
use vstd::prelude::*;

use crate::error::PolicyError;

verus! {

/// A stack of at most `N` items backed by a fixed array.
///
/// Slots at or above the length are empty; pushing onto a full stack fails
/// with `EvalStackOverflow { max: N }` and popping an empty one returns `None`.
pub struct FixedStack<T, const N: usize> {
    buf: [Option<T>; N],
    len: usize,
}

fn empty_slot<T>(_i: usize) -> (r: Option<T>)
    ensures
        r is None,
{
    None
}

/// Relies on core::array::from_fn: slot i of the array holds `empty_slot(i)`,
/// so every slot is empty.
#[verifier::external_body]
fn empty_slots<T, const N: usize>() -> (r: [Option<T>; N])
    ensures
        forall|i: int| 0 <= i < N ==> (#[trigger] r@[i]) is None,
{
    core::array::from_fn(empty_slot::<T>)
}

impl<T, const N: usize> View for FixedStack<T, N> {
    type V = Seq<T>;

    /// The items from the bottom of the stack to its top.
    closed spec fn view(&self) -> Seq<T> {
        self.buf@.take(self.len as int).map_values(|o: Option<T>| o->0)
    }
}

impl<T, const N: usize> FixedStack<T, N> {
    #[verifier::type_invariant]
    spec fn inv(&self) -> bool {
        &&& self.len <= N
        &&& forall|i: int| 0 <= i < self.len ==> (#[trigger] self.buf@[i]) is Some
    }

    /// Create a new empty fixed stack.
    pub fn new() -> (s: Self)
        ensures
            s@.len() == 0,
    {
        FixedStack { buf: empty_slots(), len: 0 }
    }

    /// Push an item onto the stack; fails when `N` items are already there.
    pub fn push(&mut self, value: T) -> (r: Result<(), PolicyError>)
        ensures
            old(self)@.len() < N ==> r is Ok && final(self)@ == old(self)@.push(value),
            old(self)@.len() >= N ==> r == Err::<(), PolicyError>(
                PolicyError::EvalStackOverflow { max: N },
            ) && final(self)@ == old(self)@,
            final(self)@.len() <= N,
    {
        proof {
            use_type_invariant(&*self);
        }
        if self.len >= N {
            return Err(PolicyError::EvalStackOverflow { max: N });
        }
        let i = self.len;
        self.buf[i] = Some(value);
        self.len = i + 1;
        assert(self@ =~= old(self)@.push(value));
        Ok(())
    }

    /// Pop the top item, or `None` when the stack is empty.
    pub fn pop(&mut self) -> (r: Option<T>)
        ensures
            old(self)@.len() == 0 ==> r is None && final(self)@ == old(self)@,
            old(self)@.len() > 0 ==> r == Some(old(self)@.last()) && final(self)@ == old(
                self,
            )@.drop_last(),
            final(self)@.len() <= N,
    {
        proof {
            use_type_invariant(&*self);
        }
        if self.len == 0 {
            return None;
        }
        let i = self.len - 1;
        self.len = i;
        let mut r: Option<T> = None;
        core::mem::swap(&mut r, &mut self.buf[i]);
        assert(self@ =~= old(self)@.drop_last());
        r
    }

    /// The current number of items.
    pub fn len(&self) -> (r: usize)
        ensures
            r == self@.len(),
            r <= N,
    {
        proof {
            use_type_invariant(self);
        }
        self.len
    }

    /// True when the stack holds no item.
    pub fn is_empty(&self) -> (r: bool)
        ensures
            r == (self@.len() == 0),
    {
        proof {
            use_type_invariant(self);
        }
        self.len == 0
    }

    /// The number of items the stack can hold.
    pub fn capacity(&self) -> (r: usize)
        ensures
            r == N,
    {
        N
    }
}

} // verus!
