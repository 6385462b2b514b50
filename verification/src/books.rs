//! Turning a book into an iterator over its fields.
//!
//! `Book::into_iter` consumes the book and yields a `BookIterator` holding
//! title, author and genre in that order; the iterator's `next` hands them
//! out front first. The standard iterator traits are closed to verified
//! types here, so both methods are inherent ones with the same behaviour.

use vstd::prelude::*;

verus! {

/// A book, described by three text fields.
pub struct Book {
    /// The book's title.
    pub title: String,
    /// Who wrote it.
    pub author: String,
    /// The genre it is filed under.
    pub genre: String,
}

/// An iterator over the textual properties of a book, front first.
pub struct BookIterator {
    /// The properties still to be handed out.
    pub properties: Vec<String>,
}

impl BookIterator {
    /// Hands out the first remaining property, or `None` once all have
    /// been handed out.
    pub fn next(&mut self) -> (r: Option<String>)
        ensures
            old(self).properties@.len() == 0 ==> r is None && final(self).properties@ == old(
                self,
            ).properties@,
            old(self).properties@.len() > 0 ==> (r matches Some(p) && p == old(
                self,
            ).properties@[0] && final(self).properties@ == old(self).properties@.drop_first()),
    {
        if !self.properties.is_empty() {
            let p = self.properties.remove(0);
            proof {
                assert(self.properties@ =~= old(self).properties@.drop_first());
            }
            Some(p)
        } else {
            None
        }
    }
}

impl Book {
    /// Consumes the book, returning an iterator over its title, author and
    /// genre, in that order.
    pub fn into_iter(self) -> (it: BookIterator)
        ensures
            it.properties@ == seq![self.title, self.author, self.genre],
    {
        let properties = vec![self.title, self.author, self.genre];
        proof {
            assert(properties@ =~= seq![self.title, self.author, self.genre]);
        }
        BookIterator { properties }
    }
}

} // verus!
