//! The catalogue's stored records and the defaults applied when writing them.
use vstd::prelude::*;

verus! {

/// Where a book is.
#[derive(Clone, Copy, Debug, PartialEq, Eq, Structural)]
pub enum BookStatus {
    Available,
    Borrowed,
    Lost,
}

/// The fields of a book to create or update; the status may be left out.
#[derive(Clone, Debug)]
pub struct BookCreateIn {
    pub title: String,
    pub author: String,
    pub status: Option<BookStatus>,
}

/// A stored book.
#[derive(Clone, Debug)]
pub struct Book {
    pub id: i32,
    pub title: String,
    pub author: String,
    pub status: BookStatus,
}

impl BookCreateIn {
    /// The status to store: the one given, else `Available`.
    pub fn status_or_default(&self) -> (r: BookStatus)
        ensures
            r == (match self.status {
                Some(s) => s,
                None => BookStatus::Available,
            }),
    {
        match self.status {
            Some(s) => s,
            None => BookStatus::Available,
        }
    }
}

impl Book {
    /// The record an update of book `id` writes: the new title and author, and the status
    /// reset to `Available`.
    pub fn from_update(id: i32, input: BookCreateIn) -> (r: Book)
        ensures
            r.id == id,
            r.title@ == input.title@,
            r.author@ == input.author@,
            r.status == BookStatus::Available,
    {
        Book { id, title: input.title, author: input.author, status: BookStatus::Available }
    }
}

} // verus!
