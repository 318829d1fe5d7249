//! Providers that enrich listed books with details from the backend service.
use vstd::prelude::*;
use crate::db::Book;
use crate::hex::decimal_text;
use crate::operations::{books_path, ApiRequest, Client, ClientState, Method};

verus! {

/// Decides which detail lookups enrich a list of books; the caller performs them.
pub trait BookDetailsProvider {
    /// The ids of the books to look up, in order.
    spec fn spec_lookups(&self, books: Seq<Book>) -> Seq<i64>;

    /// The lookups that enrich `books`.
    fn enrich_book_details(&self, books: &Vec<Book>) -> (r: Vec<i64>)
        ensures
            r@ == self.spec_lookups(books@),
    ;
}

/// Looks up every listed book in the backend service.
#[derive(Clone, Copy, Debug)]
pub struct RemoteBookDetailsProvider;

/// The base URL of the backend service.
pub open spec fn backend_url() -> Seq<char> {
    seq!['h', 't', 't', 'p', ':', '/', '/', 'b', 'a', 'c', 'k', 'e', 'n', 'd', ':', '8', '0', '0', '0']
}

impl RemoteBookDetailsProvider {
    /// A client of the backend service.
    pub fn backend_client(&self) -> (r: Client)
        ensures
            r.spec_baseurl() == backend_url(),
    {
        proof {
            reveal_strlit("http://backend:8000");
        }
        let u = "http://backend:8000";
        assert(u@ =~= backend_url());
        Client::new(u, ClientState {})
    }

    /// The request for the details of book `book_id`: `GET {baseurl}/books/{id}`.
    pub fn get_book_details(&self, client: &Client, book_id: i32) -> (r: ApiRequest)
        ensures
            r.method == Method::Get,
            r.url@ == client.spec_baseurl() + books_path() + decimal_text(book_id as int),
            r.accept_json,
            r.body is None,
    {
        match client.get_book().id(book_id as i64).build_request() {
            Ok(req) => req,
            Err(_) => {
                assert(false);
                ApiRequest { method: Method::Get, url: String::new(), accept_json: true, body: None }
            },
        }
    }
}

impl BookDetailsProvider for RemoteBookDetailsProvider {
    open spec fn spec_lookups(&self, books: Seq<Book>) -> Seq<i64> {
        books.map_values(|b: Book| b.id as i64)
    }

    fn enrich_book_details(&self, books: &Vec<Book>) -> (r: Vec<i64>) {
        let mut ids: Vec<i64> = Vec::new();
        let mut i: usize = 0;
        while i < books.len()
            invariant
                i <= books@.len(),
                ids@ =~= books@.take(i as int).map_values(|b: Book| b.id as i64),
            decreases books@.len() - i,
        {
            ids.push(books[i].id as i64);
            i = i + 1;
        }
        assert(books@.take(books@.len() as int) =~= books@);
        ids
    }
}

/// The most books whose details a bulk fetch asks for.
pub const BULK_FETCH_LIMIT: usize = 5;

/// The ids a bulk fetch looks up: those of the first `BULK_FETCH_LIMIT` books, in order.
pub fn bulk_detail_lookups(books: &Vec<Book>) -> (r: Vec<i64>)
    ensures
        r@.len() == if books@.len() < BULK_FETCH_LIMIT { books@.len() } else { BULK_FETCH_LIMIT as nat },
        forall|i: int| 0 <= i < r@.len() ==> #[trigger] r@[i] == books@[i].id as i64,
{
    let mut ids: Vec<i64> = Vec::new();
    let mut i: usize = 0;
    while i < books.len() && i < BULK_FETCH_LIMIT
        invariant
            i <= books@.len(),
            i <= BULK_FETCH_LIMIT,
            ids@.len() == i,
            forall|j: int| 0 <= j < i ==> #[trigger] ids@[j] == books@[j].id as i64,
        decreases books@.len() - i,
    {
        ids.push(books[i].id as i64);
        i = i + 1;
    }
    ids
}

/// Looks nothing up; for running without the backend service.
#[derive(Clone, Copy, Debug)]
pub struct StubBookDetailsProvider;

impl BookDetailsProvider for StubBookDetailsProvider {
    open spec fn spec_lookups(&self, books: Seq<Book>) -> Seq<i64> {
        Seq::empty()
    }

    fn enrich_book_details(&self, books: &Vec<Book>) -> (r: Vec<i64>) {
        Vec::new()
    }
}

} // verus!
