//! Builders that assemble API values field by field; a field holds either its value or the
//! reason it could not be set.
use vstd::prelude::*;
use crate::types;

verus! {

/// Builds a [`types::Book`].
#[derive(Debug)]
pub struct Book {
    author: Result<Option<String>, String>,
    id: Result<Option<i64>, String>,
    title: Result<Option<String>, String>,
}

impl Book {
    pub closed spec fn spec_author(&self) -> Result<Option<String>, String> {
        self.author
    }

    pub closed spec fn spec_id(&self) -> Result<Option<i64>, String> {
        self.id
    }

    pub closed spec fn spec_title(&self) -> Result<Option<String>, String> {
        self.title
    }

    /// Every field set to "missing".
    pub fn new() -> (r: Book)
        ensures
            r.spec_author() == Ok::<Option<String>, String>(None),
            r.spec_id() == Ok::<Option<i64>, String>(None),
            r.spec_title() == Ok::<Option<String>, String>(None),
    {
        Book { author: Ok(None), id: Ok(None), title: Ok(None) }
    }

    pub fn author(self, value: Option<String>) -> (r: Book)
        ensures
            r.spec_author() == Ok::<Option<String>, String>(value),
            r.spec_id() == self.spec_id(),
            r.spec_title() == self.spec_title(),
    {
        Book { author: Ok(value), ..self }
    }

    pub fn id(self, value: Option<i64>) -> (r: Book)
        ensures
            r.spec_id() == Ok::<Option<i64>, String>(value),
            r.spec_author() == self.spec_author(),
            r.spec_title() == self.spec_title(),
    {
        Book { id: Ok(value), ..self }
    }

    pub fn title(self, value: Option<String>) -> (r: Book)
        ensures
            r.spec_title() == Ok::<Option<String>, String>(value),
            r.spec_author() == self.spec_author(),
            r.spec_id() == self.spec_id(),
    {
        Book { title: Ok(value), ..self }
    }
}

impl From<types::Book> for Book {
    fn from(value: types::Book) -> (r: Book)
        ensures
            r.spec_author() == Ok::<Option<String>, String>(value.author),
            r.spec_id() == Ok::<Option<i64>, String>(value.id),
            r.spec_title() == Ok::<Option<String>, String>(value.title),
    {
        Book { author: Ok(value.author), id: Ok(value.id), title: Ok(value.title) }
    }
}

impl vstd::std_specs::convert::FromSpecImpl<types::Book> for Book {
    open spec fn obeys_from_spec() -> bool {
        true
    }

    closed spec fn from_spec(v: types::Book) -> Book {
        Book { author: Ok(v.author), id: Ok(v.id), title: Ok(v.title) }
    }
}

/// The error for a field that could not be set.
pub open spec fn field_error(e: String) -> types::ConversionError {
    <types::ConversionError as vstd::std_specs::convert::FromSpec<String>>::from_spec(e)
}

/// The assembled book, or the error of the first field (author, id, title) that could not
/// be set.
pub open spec fn book_of(v: Book) -> Result<types::Book, types::ConversionError> {
    match (v.spec_author(), v.spec_id(), v.spec_title()) {
        (Err(e), _, _) => Err(field_error(e)),
        (Ok(_), Err(e), _) => Err(field_error(e)),
        (Ok(_), Ok(_), Err(e)) => Err(field_error(e)),
        (Ok(author), Ok(id), Ok(title)) => Ok(types::Book { author, id, title }),
    }
}

impl TryFrom<Book> for types::Book {
    type Error = types::ConversionError;

    fn try_from(value: Book) -> (r: Result<types::Book, types::ConversionError>)
        ensures
            r == book_of(value),
    {
        let author = match value.author {
            Ok(a) => a,
            Err(e) => return Err(types::ConversionError::from(e)),
        };
        let id = match value.id {
            Ok(i) => i,
            Err(e) => return Err(types::ConversionError::from(e)),
        };
        let title = match value.title {
            Ok(t) => t,
            Err(e) => return Err(types::ConversionError::from(e)),
        };
        Ok(types::Book { author, id, title })
    }
}

impl vstd::std_specs::convert::TryFromSpecImpl<Book> for types::Book {
    open spec fn obeys_try_from_spec() -> bool {
        true
    }

    open spec fn try_from_spec(v: Book) -> Result<types::Book, types::ConversionError> {
        book_of(v)
    }
}

/// Builds a [`types::BookCreateIn`].
#[derive(Debug)]
pub struct BookCreateIn {
    author: Result<Option<String>, String>,
    title: Result<Option<String>, String>,
}

impl BookCreateIn {
    pub closed spec fn spec_author(&self) -> Result<Option<String>, String> {
        self.author
    }

    pub closed spec fn spec_title(&self) -> Result<Option<String>, String> {
        self.title
    }

    /// Every field set to "missing".
    pub fn new() -> (r: BookCreateIn)
        ensures
            r.spec_author() == Ok::<Option<String>, String>(None),
            r.spec_title() == Ok::<Option<String>, String>(None),
    {
        BookCreateIn { author: Ok(None), title: Ok(None) }
    }

    pub fn author(self, value: Option<String>) -> (r: BookCreateIn)
        ensures
            r.spec_author() == Ok::<Option<String>, String>(value),
            r.spec_title() == self.spec_title(),
    {
        BookCreateIn { author: Ok(value), ..self }
    }

    pub fn title(self, value: Option<String>) -> (r: BookCreateIn)
        ensures
            r.spec_title() == Ok::<Option<String>, String>(value),
            r.spec_author() == self.spec_author(),
    {
        BookCreateIn { title: Ok(value), ..self }
    }
}

impl From<types::BookCreateIn> for BookCreateIn {
    fn from(value: types::BookCreateIn) -> (r: BookCreateIn)
        ensures
            r.spec_author() == Ok::<Option<String>, String>(value.author),
            r.spec_title() == Ok::<Option<String>, String>(value.title),
    {
        BookCreateIn { author: Ok(value.author), title: Ok(value.title) }
    }
}

impl vstd::std_specs::convert::FromSpecImpl<types::BookCreateIn> for BookCreateIn {
    open spec fn obeys_from_spec() -> bool {
        true
    }

    closed spec fn from_spec(v: types::BookCreateIn) -> BookCreateIn {
        BookCreateIn { author: Ok(v.author), title: Ok(v.title) }
    }
}

/// The assembled value, or the error of the first field (author, title) that could not be
/// set.
pub open spec fn book_create_in_of(v: BookCreateIn) -> Result<types::BookCreateIn, types::ConversionError> {
    match (v.spec_author(), v.spec_title()) {
        (Err(e), _) => Err(field_error(e)),
        (Ok(_), Err(e)) => Err(field_error(e)),
        (Ok(author), Ok(title)) => Ok(types::BookCreateIn { author, title }),
    }
}

impl TryFrom<BookCreateIn> for types::BookCreateIn {
    type Error = types::ConversionError;

    fn try_from(value: BookCreateIn) -> (r: Result<types::BookCreateIn, types::ConversionError>)
        ensures
            r == book_create_in_of(value),
    {
        let author = match value.author {
            Ok(a) => a,
            Err(e) => return Err(types::ConversionError::from(e)),
        };
        let title = match value.title {
            Ok(t) => t,
            Err(e) => return Err(types::ConversionError::from(e)),
        };
        Ok(types::BookCreateIn { author, title })
    }
}

impl vstd::std_specs::convert::TryFromSpecImpl<BookCreateIn> for types::BookCreateIn {
    open spec fn obeys_try_from_spec() -> bool {
        true
    }

    open spec fn try_from_spec(v: BookCreateIn) -> Result<types::BookCreateIn, types::ConversionError> {
        book_create_in_of(v)
    }
}

} // verus!
