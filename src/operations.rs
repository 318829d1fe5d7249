//! The catalogue API's client: operation builders that describe each request and classify
//! each response status. Sending is done by the caller's HTTP stack.
use vstd::prelude::*;
use vstd::string::*;
use crate::hex::{decimal_text, push_decimal};
use crate::type_builder;
use crate::types;

verus! {

/// State kept by a [`Client`]; currently empty.
#[derive(Clone, Copy, Debug, PartialEq, Eq, Structural)]
pub struct ClientState {}

impl Default for ClientState {
    fn default() -> (r: ClientState)
        ensures
            r == (ClientState {}),
    {
        ClientState {}
    }
}

/// The request methods the API uses.
#[derive(Clone, Copy, Debug, PartialEq, Eq, Structural)]
pub enum Method {
    Get,
    Post,
    Patch,
    Delete,
}

/// A request ready to send.
pub struct ApiRequest {
    pub method: Method,
    pub url: String,
    /// Whether the request asks for a JSON response.
    pub accept_json: bool,
    /// The JSON body, if any.
    pub body: Option<types::BookCreateIn>,
}

/// How a response status is handled.
#[derive(Clone, Copy, Debug, PartialEq, Eq, Structural)]
pub enum ResponseClass {
    /// The documented success status.
    Success,
    /// The documented error status.
    ErrorResponse,
    /// Any other status.
    Unexpected,
}

/// The class of `status` for an operation documented with `success` and `error` statuses.
pub open spec fn class_of(success: u16, error: u16, status: u16) -> ResponseClass {
    if status == success {
        ResponseClass::Success
    } else if status == error {
        ResponseClass::ErrorResponse
    } else {
        ResponseClass::Unexpected
    }
}

fn classify(success: u16, error: u16, status: u16) -> (r: ResponseClass)
    ensures
        r == class_of(success, error, status),
{
    if status == success {
        ResponseClass::Success
    } else if status == error {
        ResponseClass::ErrorResponse
    } else {
        ResponseClass::Unexpected
    }
}

pub open spec fn books_path() -> Seq<char> {
    seq!['/', 'b', 'o', 'o', 'k', 's', '/']
}

pub open spec fn add_path() -> Seq<char> {
    seq!['/', 'b', 'o', 'o', 'k', 's', '/', 'a', 'd', 'd']
}

/// The text of the error given when an id was never set.
pub open spec fn id_missing_text() -> Seq<char> {
    seq![
        'i', 'd', ' ', 'w', 'a', 's', ' ', 'n', 'o', 't', ' ', 'i', 'n', 'i', 't', 'i', 'a', 'l',
        'i', 'z', 'e', 'd',
    ]
}

fn id_missing() -> (r: String)
    ensures
        r@ == id_missing_text(),
{
    proof {
        reveal_strlit("id was not initialized");
    }
    let s = "id was not initialized";
    assert(s@ =~= id_missing_text());
    s.to_owned()
}

fn url_of(base: &String, tail: &str) -> (r: String)
    ensures
        r@ == base@ + tail@,
{
    let mut u = base.clone();
    u.append(tail);
    u
}

fn book_url(base: &String, id: i64) -> (r: String)
    ensures
        r@ == base@ + books_path() + decimal_text(id as int),
{
    proof {
        reveal_strlit("/books/");
    }
    let p = "/books/";
    assert(p@ =~= books_path());
    let mut u = url_of(base, p);
    push_decimal(&mut u, id);
    u
}

/// A client of the catalogue API at a base URL.
pub struct Client {
    baseurl: String,
    inner: ClientState,
}

impl Client {
    pub closed spec fn spec_baseurl(&self) -> Seq<char> {
        self.baseurl@
    }

    /// A client for the API at `baseurl` (scheme, host, port and any path stem).
    pub fn new(baseurl: &str, inner: ClientState) -> (r: Client)
        ensures
            r.spec_baseurl() == baseurl@,
    {
        Client { baseurl: baseurl.to_owned(), inner }
    }

    /// The base URL requests are made to.
    pub fn baseurl(&self) -> (r: &String)
        ensures
            r@ == self.spec_baseurl(),
    {
        &self.baseurl
    }

    /// The version of the API this client was written for.
    pub fn api_version(&self) -> (r: &'static str)
        ensures
            r@ == seq!['1', '.', '0', '.', '0'],
    {
        proof {
            reveal_strlit("1.0.0");
        }
        let v = "1.0.0";
        assert(v@ =~= seq!['1', '.', '0', '.', '0']);
        v
    }

    pub fn inner(&self) -> (r: &ClientState)
        ensures
            *r == (ClientState {}),
    {
        &self.inner
    }

    /// Lists all books: `GET /books/`.
    pub fn get_all_books(&self) -> (r: GetAllBooks<'_>)
        ensures
            r.spec_client() == self,
    {
        GetAllBooks::new(self)
    }

    /// Creates a book: `POST /books/add`.
    pub fn create_book(&self) -> (r: CreateBook<'_>)
        ensures
            r.spec_client() == self,
            r.spec_body() is Ok,
    {
        CreateBook::new(self)
    }

    /// Reads a book: `GET /books/{id}`.
    pub fn get_book(&self) -> (r: GetBook<'_>)
        ensures
            r.spec_client() == self,
            r.spec_id() is Err,
    {
        GetBook::new(self)
    }

    /// Deletes a book: `DELETE /books/{id}`.
    pub fn delete_book(&self) -> (r: DeleteBook<'_>)
        ensures
            r.spec_client() == self,
            r.spec_id() is Err,
    {
        DeleteBook::new(self)
    }

    /// Updates a book: `PATCH /books/{id}`.
    pub fn update_book(&self) -> (r: UpdateBook<'_>)
        ensures
            r.spec_client() == self,
            r.spec_id() is Err,
            r.spec_body() is Ok,
    {
        UpdateBook::new(self)
    }
}

/// Builder for [`Client::get_all_books`].
pub struct GetAllBooks<'a> {
    client: &'a Client,
}

impl<'a> GetAllBooks<'a> {
    pub closed spec fn spec_client(&self) -> &'a Client {
        self.client
    }

    pub fn new(client: &'a Client) -> (r: GetAllBooks<'a>)
        ensures
            r.spec_client() == client,
    {
        GetAllBooks { client }
    }

    /// `GET {baseurl}/books/`, asking for JSON.
    pub fn build_request(self) -> (r: ApiRequest)
        ensures
            r.method == Method::Get,
            r.url@ == self.spec_client().spec_baseurl() + books_path(),
            r.accept_json,
            r.body is None,
    {
        proof {
            reveal_strlit("/books/");
        }
        let p = "/books/";
        assert(p@ =~= books_path());
        let url = url_of(&self.client.baseurl, p);
        ApiRequest { method: Method::Get, url, accept_json: true, body: None }
    }

    /// 200 is success, 503 the documented error.
    pub fn classify(status: u16) -> (r: ResponseClass)
        ensures
            r == class_of(200, 503, status),
    {
        classify(200, 503, status)
    }
}

/// Builder for [`Client::create_book`].
pub struct CreateBook<'a> {
    client: &'a Client,
    body: Result<type_builder::BookCreateIn, String>,
}

impl<'a> CreateBook<'a> {
    pub closed spec fn spec_client(&self) -> &'a Client {
        self.client
    }

    pub closed spec fn spec_body(&self) -> Result<type_builder::BookCreateIn, String> {
        self.body
    }

    /// A request with an empty body.
    pub fn new(client: &'a Client) -> (r: CreateBook<'a>)
        ensures
            r.spec_client() == client,
            r.spec_body() is Ok,
            r.spec_body()->Ok_0.spec_author() == Ok::<Option<String>, String>(None),
            r.spec_body()->Ok_0.spec_title() == Ok::<Option<String>, String>(None),
    {
        CreateBook { client, body: Ok(type_builder::BookCreateIn::new()) }
    }

    /// Sets the whole body.
    pub fn body(self, value: types::BookCreateIn) -> (r: CreateBook<'a>)
        ensures
            r.spec_client() == self.spec_client(),
            r.spec_body() is Ok,
            r.spec_body()->Ok_0.spec_author() == Ok::<Option<String>, String>(value.author),
            r.spec_body()->Ok_0.spec_title() == Ok::<Option<String>, String>(value.title),
    {
        CreateBook { client: self.client, body: Ok(type_builder::BookCreateIn::from(value)) }
    }

    /// Changes the body with `f`; a body that already failed stays failed.
    pub fn body_map<F: FnOnce(type_builder::BookCreateIn) -> type_builder::BookCreateIn>(self, f: F) -> (r: CreateBook<'a>)
        requires
            self.spec_body() is Ok ==> f.requires((self.spec_body()->Ok_0,)),
        ensures
            r.spec_client() == self.spec_client(),
            self.spec_body() is Ok ==> r.spec_body() is Ok && f.ensures((self.spec_body()->Ok_0,), r.spec_body()->Ok_0),
            self.spec_body() is Err ==> r.spec_body() == self.spec_body(),
    {
        let body = match self.body {
            Ok(b) => Ok(f(b)),
            Err(e) => Err(e),
        };
        CreateBook { client: self.client, body }
    }

    /// `POST {baseurl}/books/add` with the assembled body, asking for JSON; the text of the
    /// failure when the body could not be assembled.
    pub fn build_request(self) -> (r: Result<ApiRequest, String>)
        ensures
            r is Ok <==> (self.spec_body() is Ok && self.spec_body()->Ok_0.spec_author() is Ok
                && self.spec_body()->Ok_0.spec_title() is Ok),
            r is Ok ==> r->Ok_0.method == Method::Post && r->Ok_0.url@ == self.spec_client().spec_baseurl()
                + add_path() && r->Ok_0.accept_json && r->Ok_0.body == Some(
                types::BookCreateIn {
                    author: self.spec_body()->Ok_0.spec_author()->Ok_0,
                    title: self.spec_body()->Ok_0.spec_title()->Ok_0,
                },
            ),
    {
        let body = match self.body {
            Ok(b) => match types::BookCreateIn::try_from(b) {
                Ok(v) => v,
                Err(e) => return Err(e.message().clone()),
            },
            Err(e) => return Err(e),
        };
        proof {
            reveal_strlit("/books/add");
        }
        let p = "/books/add";
        assert(p@ =~= add_path());
        let url = url_of(&self.client.baseurl, p);
        Ok(ApiRequest { method: Method::Post, url, accept_json: true, body: Some(body) })
    }

    /// 200 is success, 404 the documented error.
    pub fn classify(status: u16) -> (r: ResponseClass)
        ensures
            r == class_of(200, 404, status),
    {
        classify(200, 404, status)
    }
}

/// Builder for [`Client::get_book`].
pub struct GetBook<'a> {
    client: &'a Client,
    id: Result<i64, String>,
}

impl<'a> GetBook<'a> {
    pub closed spec fn spec_client(&self) -> &'a Client {
        self.client
    }

    pub closed spec fn spec_id(&self) -> Result<i64, String> {
        self.id
    }

    /// A request whose id is not set yet.
    pub fn new(client: &'a Client) -> (r: GetBook<'a>)
        ensures
            r.spec_client() == client,
            r.spec_id() is Err,
            r.spec_id()->Err_0@ == id_missing_text(),
    {
        GetBook { client, id: Err(id_missing()) }
    }

    pub fn id(self, value: i64) -> (r: GetBook<'a>)
        ensures
            r.spec_client() == self.spec_client(),
            r.spec_id() == Ok::<i64, String>(value),
    {
        GetBook { client: self.client, id: Ok(value) }
    }

    /// `GET {baseurl}/books/{id}`, asking for JSON; the text of the failure when the id is
    /// not set.
    pub fn build_request(self) -> (r: Result<ApiRequest, String>)
        ensures
            r is Ok <==> self.spec_id() is Ok,
            r is Err ==> r->Err_0 == self.spec_id()->Err_0,
            r is Ok ==> r->Ok_0.method == Method::Get && r->Ok_0.url@ == self.spec_client().spec_baseurl()
                + books_path() + decimal_text(self.spec_id()->Ok_0 as int) && r->Ok_0.accept_json
                && r->Ok_0.body is None,
    {
        match self.id {
            Ok(id) => {
                let url = book_url(&self.client.baseurl, id);
                Ok(ApiRequest { method: Method::Get, url, accept_json: true, body: None })
            },
            Err(e) => Err(e),
        }
    }

    /// 200 is success, 404 the documented error.
    pub fn classify(status: u16) -> (r: ResponseClass)
        ensures
            r == class_of(200, 404, status),
    {
        classify(200, 404, status)
    }
}

/// Builder for [`Client::delete_book`].
pub struct DeleteBook<'a> {
    client: &'a Client,
    id: Result<i64, String>,
}

impl<'a> DeleteBook<'a> {
    pub closed spec fn spec_client(&self) -> &'a Client {
        self.client
    }

    pub closed spec fn spec_id(&self) -> Result<i64, String> {
        self.id
    }

    /// A request whose id is not set yet.
    pub fn new(client: &'a Client) -> (r: DeleteBook<'a>)
        ensures
            r.spec_client() == client,
            r.spec_id() is Err,
            r.spec_id()->Err_0@ == id_missing_text(),
    {
        DeleteBook { client, id: Err(id_missing()) }
    }

    pub fn id(self, value: i64) -> (r: DeleteBook<'a>)
        ensures
            r.spec_client() == self.spec_client(),
            r.spec_id() == Ok::<i64, String>(value),
    {
        DeleteBook { client: self.client, id: Ok(value) }
    }

    /// `DELETE {baseurl}/books/{id}`, with no body; the text of the failure when the id is
    /// not set.
    pub fn build_request(self) -> (r: Result<ApiRequest, String>)
        ensures
            r is Ok <==> self.spec_id() is Ok,
            r is Err ==> r->Err_0 == self.spec_id()->Err_0,
            r is Ok ==> r->Ok_0.method == Method::Delete && r->Ok_0.url@ == self.spec_client().spec_baseurl()
                + books_path() + decimal_text(self.spec_id()->Ok_0 as int) && !r->Ok_0.accept_json
                && r->Ok_0.body is None,
    {
        match self.id {
            Ok(id) => {
                let url = book_url(&self.client.baseurl, id);
                Ok(ApiRequest { method: Method::Delete, url, accept_json: false, body: None })
            },
            Err(e) => Err(e),
        }
    }

    /// 200 is success, 404 the documented error.
    pub fn classify(status: u16) -> (r: ResponseClass)
        ensures
            r == class_of(200, 404, status),
    {
        classify(200, 404, status)
    }
}

/// Builder for [`Client::update_book`].
pub struct UpdateBook<'a> {
    client: &'a Client,
    id: Result<i64, String>,
    body: Result<type_builder::BookCreateIn, String>,
}

impl<'a> UpdateBook<'a> {
    pub closed spec fn spec_client(&self) -> &'a Client {
        self.client
    }

    pub closed spec fn spec_id(&self) -> Result<i64, String> {
        self.id
    }

    pub closed spec fn spec_body(&self) -> Result<type_builder::BookCreateIn, String> {
        self.body
    }

    /// A request whose id is not set yet, with an empty body.
    pub fn new(client: &'a Client) -> (r: UpdateBook<'a>)
        ensures
            r.spec_client() == client,
            r.spec_id() is Err,
            r.spec_id()->Err_0@ == id_missing_text(),
            r.spec_body() is Ok,
            r.spec_body()->Ok_0.spec_author() == Ok::<Option<String>, String>(None),
            r.spec_body()->Ok_0.spec_title() == Ok::<Option<String>, String>(None),
    {
        UpdateBook { client, id: Err(id_missing()), body: Ok(type_builder::BookCreateIn::new()) }
    }

    pub fn id(self, value: i64) -> (r: UpdateBook<'a>)
        ensures
            r.spec_client() == self.spec_client(),
            r.spec_id() == Ok::<i64, String>(value),
            r.spec_body() == self.spec_body(),
    {
        UpdateBook { client: self.client, id: Ok(value), body: self.body }
    }

    /// Sets the whole body.
    pub fn body(self, value: types::BookCreateIn) -> (r: UpdateBook<'a>)
        ensures
            r.spec_client() == self.spec_client(),
            r.spec_id() == self.spec_id(),
            r.spec_body() is Ok,
            r.spec_body()->Ok_0.spec_author() == Ok::<Option<String>, String>(value.author),
            r.spec_body()->Ok_0.spec_title() == Ok::<Option<String>, String>(value.title),
    {
        UpdateBook {
            client: self.client,
            id: self.id,
            body: Ok(type_builder::BookCreateIn::from(value)),
        }
    }

    /// Changes the body with `f`; a body that already failed stays failed.
    pub fn body_map<F: FnOnce(type_builder::BookCreateIn) -> type_builder::BookCreateIn>(self, f: F) -> (r: UpdateBook<'a>)
        requires
            self.spec_body() is Ok ==> f.requires((self.spec_body()->Ok_0,)),
        ensures
            r.spec_client() == self.spec_client(),
            r.spec_id() == self.spec_id(),
            self.spec_body() is Ok ==> r.spec_body() is Ok && f.ensures((self.spec_body()->Ok_0,), r.spec_body()->Ok_0),
            self.spec_body() is Err ==> r.spec_body() == self.spec_body(),
    {
        let body = match self.body {
            Ok(b) => Ok(f(b)),
            Err(e) => Err(e),
        };
        UpdateBook { client: self.client, id: self.id, body }
    }

    /// `PATCH {baseurl}/books/{id}` with the assembled body, asking for JSON; the text of the
    /// failure when the id is not set or the body could not be assembled (the id is checked
    /// first).
    pub fn build_request(self) -> (r: Result<ApiRequest, String>)
        ensures
            r is Ok <==> (self.spec_id() is Ok && self.spec_body() is Ok
                && self.spec_body()->Ok_0.spec_author() is Ok
                && self.spec_body()->Ok_0.spec_title() is Ok),
            self.spec_id() is Err ==> r == Err::<ApiRequest, String>(self.spec_id()->Err_0),
            r is Ok ==> r->Ok_0.method == Method::Patch && r->Ok_0.url@ == self.spec_client().spec_baseurl()
                + books_path() + decimal_text(self.spec_id()->Ok_0 as int) && r->Ok_0.accept_json
                && r->Ok_0.body == Some(
                types::BookCreateIn {
                    author: self.spec_body()->Ok_0.spec_author()->Ok_0,
                    title: self.spec_body()->Ok_0.spec_title()->Ok_0,
                },
            ),
    {
        let id = match self.id {
            Ok(i) => i,
            Err(e) => return Err(e),
        };
        let body = match self.body {
            Ok(b) => match types::BookCreateIn::try_from(b) {
                Ok(v) => v,
                Err(e) => return Err(e.message().clone()),
            },
            Err(e) => return Err(e),
        };
        let url = book_url(&self.client.baseurl, id);
        Ok(ApiRequest { method: Method::Patch, url, accept_json: true, body: Some(body) })
    }

    /// 200 is success, 404 the documented error.
    pub fn classify(status: u16) -> (r: ResponseClass)
        ensures
            r == class_of(200, 404, status),
    {
        classify(200, 404, status)
    }
}

} // verus!
