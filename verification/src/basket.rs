//! The single-slot container: at most one occupant, and a `put` replaces
//! whatever was there.

use vstd::prelude::*;

use crate::container::{contents_after_puts, Container};

verus! {

/// A slot holding zero or one value.
#[derive(Debug)]
pub struct Basket<T> {
    item: Option<T>,
}

impl<T> Basket<T> {
    /// A basket pre-seeded with `item` as its single occupant.
    pub fn new(item: T) -> (basket: Basket<T>)
        ensures
            basket.contents() == seq![item],
    {
        Basket { item: Some(item) }
    }
}

impl<T> Container<T> for Basket<T> {
    closed spec fn contents(&self) -> Seq<T> {
        match self.item {
            Some(occupant) => seq![occupant],
            None => Seq::empty(),
        }
    }

    open spec fn put_policy(prior: Seq<T>, item: T) -> Seq<T> {
        seq![item]
    }

    fn put(&mut self, item: T) {
        self.item = Some(item);
    }

    fn get(&mut self) -> (taken: Option<T>) {
        let mut taken: Option<T> = None;
        core::mem::swap(&mut self.item, &mut taken);
        proof {
            if taken is Some {
                assert(old(self).contents().drop_last() =~= self.contents());
            }
        }
        taken
    }

    fn is_empty(&self) -> (empty: bool) {
        self.item.is_none()
    }
}

/// After any sequence of `put` calls with at least one call, the single slot
/// is not empty and holds exactly the value of the last call, whatever it
/// held before; by `get`'s contract the one value removed is that last-put
/// value, and removing it leaves the slot empty.
pub proof fn lemma_basket_last_put_wins<T>(initial: Seq<T>, puts: Seq<T>)
    requires
        puts.len() > 0,
    ensures
        contents_after_puts::<T, Basket<T>>(initial, puts) == seq![puts.last()],
        contents_after_puts::<T, Basket<T>>(initial, puts).len() == 1,
        contents_after_puts::<T, Basket<T>>(initial, puts).last() == puts.last(),
        contents_after_puts::<T, Basket<T>>(initial, puts).drop_last().len() == 0,
{
    assert(contents_after_puts::<T, Basket<T>>(initial, puts) == seq![puts.last()]);
    assert(seq![puts.last()].drop_last() =~= Seq::<T>::empty());
}

} // verus!
