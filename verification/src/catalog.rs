//! An append-only, insertion-ordered collection of media records with
//! bounds-checked lookup by position.

use vstd::prelude::*;

use crate::media::Media;

verus! {

/// The outcome of a bounds-checked lookup: either a borrowed record or an
/// explicit "nothing there" signal. Out-of-range is a normal outcome, not an
/// error.
pub enum MightHaveAValue<'a> {
    ThereIsAValue(&'a Media),
    NoValueAvailable,
}

/// An ordered catalog of media records. Records are only ever appended, so
/// an index stays valid once assigned.
#[derive(Debug)]
pub struct Catalog {
    pub items: Vec<Media>,
}

impl Catalog {
    /// An empty catalog.
    pub fn new() -> (catalog: Catalog)
        ensures
            catalog.items@.len() == 0,
    {
        Catalog { items: Vec::new() }
    }

    /// Appends `media` at the end, taking ownership; always succeeds and
    /// grows the catalog by one.
    pub fn add(&mut self, media: Media)
        ensures
            final(self).items@ == old(self).items@.push(media),
    {
        self.items.push(media);
    }

    /// A borrowed reference to the record at `index` if `index` is in range,
    /// and the empty signal otherwise. Never panics, never copies the record.
    pub fn get_by_index(&self, index: usize) -> (found: MightHaveAValue)
        ensures
            index < self.items@.len() ==> (found matches MightHaveAValue::ThereIsAValue(media)
                && *media == self.items@[index as int]),
            index >= self.items@.len() ==> (found matches MightHaveAValue::NoValueAvailable),
    {
        if self.items.len() > index {
            MightHaveAValue::ThereIsAValue(&self.items[index])
        } else {
            MightHaveAValue::NoValueAvailable
        }
    }

    /// The same bounds-checked lookup through the standard optional type.
    pub fn get_by_index_new(&self, index: usize) -> (found: Option<&Media>)
        ensures
            index < self.items@.len() ==> (found matches Some(media) && *media
                == self.items@[index as int]),
            index >= self.items@.len() ==> found is None,
    {
        if self.items.len() > index {
            Some(&self.items[index])
        } else {
            None
        }
    }
}

} // verus!
