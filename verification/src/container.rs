//! The container abstraction: `put`, `get`, `is_empty` over one element
//! type. Each implementation fixes its own capacity and ordering policy
//! through the `put_policy` spec function; `get` always removes the newest
//! occupant, and out of an empty container comes the empty signal.

use vstd::prelude::*;

verus! {

/// A capability interface over a single payload type. `contents` models the
/// stored values oldest-first, so the value `get` removes is always the last
/// of the model sequence.
pub trait Container<T>: Sized {
    /// The stored values, oldest first.
    spec fn contents(&self) -> Seq<T>;

    /// How a `put` transforms the stored values; fixed per implementation
    /// (replace for a single slot, append for a stack).
    spec fn put_policy(prior: Seq<T>, item: T) -> Seq<T>;

    /// Stores `item`; always succeeds, and `item` becomes the value a
    /// following `get` removes.
    fn put(&mut self, item: T)
        ensures
            final(self).contents() == Self::put_policy(old(self).contents(), item),
            final(self).contents().len() > 0,
            final(self).contents().last() == item,
    ;

    /// Removes and returns the newest occupant, or signals absence and
    /// leaves the container unchanged.
    fn get(&mut self) -> (taken: Option<T>)
        ensures
            old(self).contents().len() == 0 ==> taken is None && final(self).contents()
                == old(self).contents(),
            old(self).contents().len() > 0 ==> taken == Some(old(self).contents().last())
                && final(self).contents() == old(self).contents().drop_last(),
    ;

    /// Pure emptiness test, no side effect.
    fn is_empty(&self) -> (empty: bool)
        ensures
            empty == (self.contents().len() == 0),
    ;
}

/// Stores `s` in any container of strings.
pub fn add_string<C: Container<String>>(container: &mut C, s: String)
    ensures
        final(container).contents() == C::put_policy(old(container).contents(), s),
        final(container).contents().len() > 0,
        final(container).contents().last() == s,
{
    container.put(s);
}

/// The contents after a sequence of `put` calls, applied oldest call first,
/// starting from `initial`.
pub open spec fn contents_after_puts<T, C: Container<T>>(initial: Seq<T>, puts: Seq<T>) -> Seq<T>
    decreases puts.len(),
{
    if puts.len() == 0 {
        initial
    } else {
        C::put_policy(contents_after_puts::<T, C>(initial, puts.drop_last()), puts.last())
    }
}

/// The order in which repeated `get` calls drain stored values: by `get`'s
/// contract each call removes the last of the model sequence, so draining
/// `contents` returns exactly this sequence and ends on the empty container.
pub open spec fn drain_order<T>(contents: Seq<T>) -> Seq<T>
    decreases contents.len(),
{
    if contents.len() == 0 {
        Seq::empty()
    } else {
        seq![contents.last()] + drain_order(contents.drop_last())
    }
}

/// Draining returns as many values as were stored, in reverse storage
/// order: strict last-in-first-out.
pub proof fn lemma_drain_order_is_reverse<T>(contents: Seq<T>)
    ensures
        drain_order(contents).len() == contents.len(),
        drain_order(contents) == contents.reverse(),
    decreases contents.len(),
{
    if contents.len() > 0 {
        lemma_drain_order_is_reverse(contents.drop_last());
        assert(drain_order(contents) =~= contents.reverse());
    } else {
        assert(drain_order(contents) =~= contents.reverse());
    }
}

} // verus!
