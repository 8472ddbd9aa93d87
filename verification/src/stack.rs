//! The multi-slot container: unbounded, append on `put`, last-in-first-out
//! on `get`.

use vstd::prelude::*;

use crate::container::{contents_after_puts, drain_order, lemma_drain_order_is_reverse, Container};

verus! {

/// A stack of values, bottom first.
#[derive(Debug)]
pub struct Stack<T> {
    items: Vec<T>,
}

impl<T> Stack<T> {
    /// A stack pre-seeded with `items`, bottom first: the last element of
    /// `items` is the first a `get` removes.
    pub fn new(items: Vec<T>) -> (stack: Stack<T>)
        ensures
            stack.contents() == items@,
    {
        Stack { items }
    }
}

impl<T> Container<T> for Stack<T> {
    closed spec fn contents(&self) -> Seq<T> {
        self.items@
    }

    open spec fn put_policy(prior: Seq<T>, item: T) -> Seq<T> {
        prior.push(item)
    }

    fn put(&mut self, item: T) {
        self.items.push(item);
    }

    fn get(&mut self) -> (taken: Option<T>) {
        self.items.pop()
    }

    fn is_empty(&self) -> (empty: bool) {
        self.items.len() == 0
    }
}

/// A sequence of `put` calls appends the put values, oldest call first, to
/// whatever the stack held before.
pub proof fn lemma_stack_puts_append<T>(initial: Seq<T>, puts: Seq<T>)
    ensures
        contents_after_puts::<T, Stack<T>>(initial, puts) == initial + puts,
    decreases puts.len(),
{
    if puts.len() == 0 {
        assert(contents_after_puts::<T, Stack<T>>(initial, puts) =~= initial + puts);
    } else {
        lemma_stack_puts_append::<T>(initial, puts.drop_last());
        assert((initial + puts.drop_last()).push(puts.last()) =~= initial + puts);
    }
}

/// Last-in-first-out: after any sequence of `put` calls on a stack that held
/// `initial`, repeated `get` calls return the stored values newest first --
/// the put values in reverse order of their calls, then the prior values in
/// reverse -- and after as many `get` calls as stored values the stack is
/// empty.
pub proof fn lemma_stack_lifo<T>(initial: Seq<T>, puts: Seq<T>)
    ensures
        drain_order(contents_after_puts::<T, Stack<T>>(initial, puts)) == (initial
            + puts).reverse(),
        drain_order(contents_after_puts::<T, Stack<T>>(initial, puts)).len() == initial.len()
            + puts.len(),
{
    lemma_stack_puts_append::<T>(initial, puts);
    lemma_drain_order_is_reverse(initial + puts);
}

} // verus!
