use std::cell::Cell;
use std::rc::Rc;

use gate0::{FixedStack, PolicyError};

struct DropCounter(Rc<Cell<i32>>);

impl Drop for DropCounter {
    fn drop(&mut self) {
        self.0.set(self.0.get() + 1);
    }
}

#[test]
fn test_push_pop() {
    let mut stack: FixedStack<i32, 4> = FixedStack::new();
    assert!(stack.is_empty());

    stack.push(1).unwrap();
    stack.push(2).unwrap();
    stack.push(3).unwrap();

    assert_eq!(stack.len(), 3);
    assert_eq!(stack.pop(), Some(3));
    assert_eq!(stack.pop(), Some(2));
    assert_eq!(stack.pop(), Some(1));
    assert_eq!(stack.pop(), None);
    assert!(stack.is_empty());
}

#[test]
fn test_overflow() {
    let mut stack: FixedStack<i32, 2> = FixedStack::new();
    assert!(stack.push(1).is_ok());
    assert!(stack.push(2).is_ok());
    let err = stack.push(3).unwrap_err();
    assert!(matches!(err, PolicyError::EvalStackOverflow { max: 2 }));
}

#[test]
fn test_drop_partial() {
    let counter = Rc::new(Cell::new(0));
    {
        let mut stack: FixedStack<DropCounter, 4> = FixedStack::new();
        stack.push(DropCounter(Rc::clone(&counter))).unwrap();
        stack.push(DropCounter(Rc::clone(&counter))).unwrap();
        // Only 2 items pushed, capacity is 4
    }
    // Both items should have been dropped
    assert_eq!(counter.get(), 2);
}

#[test]
fn full_stack_is_unchanged_by_failed_push() {
    let mut stack: FixedStack<u8, 1> = FixedStack::new();
    assert_eq!(stack.capacity(), 1);
    stack.push(7).unwrap();
    assert_eq!(stack.push(8), Err(PolicyError::EvalStackOverflow { max: 1 }));
    assert_eq!(stack.len(), 1);
    assert_eq!(stack.pop(), Some(7));
    assert_eq!(stack.pop(), None);
}

#[test]
fn popped_item_is_released_at_once() {
    let counter = Rc::new(Cell::new(0));
    let mut stack: FixedStack<DropCounter, 2> = FixedStack::new();
    stack.push(DropCounter(Rc::clone(&counter))).unwrap();
    drop(stack.pop());
    assert_eq!(counter.get(), 1);
    drop(stack);
    assert_eq!(counter.get(), 1);
}
