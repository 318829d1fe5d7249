//! Values exchanged with the catalogue's HTTP API.
use vstd::prelude::*;
use crate::type_builder;

verus! {

/// Why assembling a value from its parts failed.
#[derive(Clone, Debug)]
pub struct ConversionError {
    message: String,
}

impl ConversionError {
    pub closed spec fn spec_message(&self) -> Seq<char> {
        self.message@
    }

    /// The text of the error.
    pub fn message(&self) -> (r: &String)
        ensures
            r@ == self.spec_message(),
    {
        &self.message
    }
}

impl From<String> for ConversionError {
    fn from(value: String) -> (r: ConversionError)
        ensures
            r.spec_message() == value@,
    {
        ConversionError { message: value }
    }
}

impl vstd::std_specs::convert::FromSpecImpl<String> for ConversionError {
    open spec fn obeys_from_spec() -> bool {
        true
    }

    closed spec fn from_spec(v: String) -> ConversionError {
        ConversionError { message: v }
    }
}

/// A book as the API returns it; every field may be missing.
#[derive(Clone, Debug)]
pub struct Book {
    pub author: Option<String>,
    pub id: Option<i64>,
    pub title: Option<String>,
}

impl Default for Book {
    fn default() -> (r: Book)
        ensures
            r.author is None,
            r.id is None,
            r.title is None,
    {
        Book { author: None, id: None, title: None }
    }
}

impl Book {
    /// A builder with every field set to "missing".
    pub fn builder() -> (r: type_builder::Book)
        ensures
            r.spec_author() == Ok::<Option<String>, String>(None),
            r.spec_id() == Ok::<Option<i64>, String>(None),
            r.spec_title() == Ok::<Option<String>, String>(None),
    {
        type_builder::Book::new()
    }
}

/// The fields of a book to create or update; every field may be missing.
#[derive(Clone, Debug)]
pub struct BookCreateIn {
    pub author: Option<String>,
    pub title: Option<String>,
}

impl Default for BookCreateIn {
    fn default() -> (r: BookCreateIn)
        ensures
            r.author is None,
            r.title is None,
    {
        BookCreateIn { author: None, title: None }
    }
}

impl BookCreateIn {
    /// A builder with every field set to "missing".
    pub fn builder() -> (r: type_builder::BookCreateIn)
        ensures
            r.spec_author() == Ok::<Option<String>, String>(None),
            r.spec_title() == Ok::<Option<String>, String>(None),
    {
        type_builder::BookCreateIn::new()
    }
}

} // verus!
