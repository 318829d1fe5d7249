use bookapp::db::{self, BookStatus};
use bookapp::details::{bulk_detail_lookups, BookDetailsProvider, RemoteBookDetailsProvider, StubBookDetailsProvider};
use bookapp::operations::{
    Client, ClientState, CreateBook, DeleteBook, GetAllBooks, GetBook, Method, ResponseClass, UpdateBook,
};
use bookapp::type_builder;
use bookapp::types::{Book, BookCreateIn, ConversionError};

fn client() -> Client {
    Client::new("http://backend:8000", ClientState::default())
}

#[test]
fn client_accessors() {
    let c = client();
    assert_eq!(c.baseurl(), "http://backend:8000");
    assert_eq!(c.api_version(), "1.0.0");
    assert_eq!(*c.inner(), ClientState {});
}

#[test]
fn get_all_books_request() {
    let c = client();
    let r = c.get_all_books().build_request();
    assert_eq!(r.method, Method::Get);
    assert_eq!(r.url, "http://backend:8000/books/");
    assert!(r.accept_json);
    assert!(r.body.is_none());
    assert_eq!(GetAllBooks::classify(200), ResponseClass::Success);
    assert_eq!(GetAllBooks::classify(503), ResponseClass::ErrorResponse);
    assert_eq!(GetAllBooks::classify(404), ResponseClass::Unexpected);
}

#[test]
fn get_book_request_needs_id() {
    let c = client();
    assert_eq!(c.get_book().build_request().err().as_deref(), Some("id was not initialized"));
    let r = c.get_book().id(17).build_request().ok().unwrap();
    assert_eq!(r.url, "http://backend:8000/books/17");
    assert_eq!(r.method, Method::Get);
    assert_eq!(GetBook::classify(404), ResponseClass::ErrorResponse);
    assert_eq!(GetBook::classify(500), ResponseClass::Unexpected);
}

#[test]
fn delete_book_request() {
    let c = client();
    assert!(c.delete_book().build_request().is_err());
    let r = c.delete_book().id(-3).build_request().ok().unwrap();
    assert_eq!(r.url, "http://backend:8000/books/-3");
    assert_eq!(r.method, Method::Delete);
    assert!(!r.accept_json);
    assert_eq!(DeleteBook::classify(200), ResponseClass::Success);
}

#[test]
fn create_book_request_carries_body() {
    let c = client();
    let body = BookCreateIn { author: Some("George Orwell".to_string()), title: Some("1984".to_string()) };
    let r = c.create_book().body(body).build_request().ok().unwrap();
    assert_eq!(r.method, Method::Post);
    assert_eq!(r.url, "http://backend:8000/books/add");
    let b = r.body.unwrap();
    assert_eq!(b.author.as_deref(), Some("George Orwell"));
    assert_eq!(b.title.as_deref(), Some("1984"));
    assert_eq!(CreateBook::classify(404), ResponseClass::ErrorResponse);
}

#[test]
fn body_map_edits_body() {
    let c = client();
    let r = c
        .update_book()
        .id(5)
        .body_map(|b| b.title(Some("Animal Farm".to_string())))
        .build_request()
        .ok()
        .unwrap();
    assert_eq!(r.method, Method::Patch);
    assert_eq!(r.url, "http://backend:8000/books/5");
    let b = r.body.unwrap();
    assert_eq!(b.title.as_deref(), Some("Animal Farm"));
    assert_eq!(b.author, None);
    assert_eq!(UpdateBook::classify(200), ResponseClass::Success);
    let c2 = c.create_book().body_map(|b| b.author(Some("A".to_string()))).build_request().ok().unwrap();
    assert_eq!(c2.body.unwrap().author.as_deref(), Some("A"));
}

#[test]
fn update_without_id_fails() {
    let c = client();
    assert_eq!(c.update_book().build_request().err().as_deref(), Some("id was not initialized"));
}

#[test]
fn builders_assemble_values() {
    let b = Book::try_from(Book::builder().author(Some("X".to_string())).id(Some(9)).title(None)).ok().unwrap();
    assert_eq!(b.author.as_deref(), Some("X"));
    assert_eq!(b.id, Some(9));
    assert_eq!(b.title, None);
    let d = Book::default();
    assert!(d.author.is_none() && d.id.is_none() && d.title.is_none());
    let ci = BookCreateIn::try_from(BookCreateIn::builder().title(Some("T".to_string()))).ok().unwrap();
    assert_eq!(ci.title.as_deref(), Some("T"));
    assert_eq!(ci.author, None);
    let back = Book::try_from(type_builder::Book::from(b.clone())).ok().unwrap();
    assert_eq!(back.id, Some(9));
    let e = ConversionError::from("bad field".to_string());
    assert_eq!(e.message(), "bad field");
}

#[test]
fn remote_provider_looks_up_every_book() {
    let books = vec![
        db::Book { id: 3, title: "A".to_string(), author: "a".to_string(), status: BookStatus::Available },
        db::Book { id: 8, title: "B".to_string(), author: "b".to_string(), status: BookStatus::Lost },
    ];
    assert_eq!(RemoteBookDetailsProvider.enrich_book_details(&books), vec![3, 8]);
    assert!(StubBookDetailsProvider.enrich_book_details(&books).is_empty());
    let p = RemoteBookDetailsProvider;
    let backend = p.backend_client();
    assert_eq!(p.get_book_details(&backend, 8).url, "http://backend:8000/books/8");
    let many: Vec<db::Book> = (1..=7)
        .map(|id| db::Book { id, title: String::new(), author: String::new(), status: BookStatus::Available })
        .collect();
    assert_eq!(bulk_detail_lookups(&many), vec![1, 2, 3, 4, 5]);
    assert_eq!(bulk_detail_lookups(&books), vec![3, 8]);
}

#[test]
fn storage_defaults() {
    let input = db::BookCreateIn { title: "T".to_string(), author: "A".to_string(), status: None };
    assert_eq!(input.status_or_default(), BookStatus::Available);
    let lost = db::BookCreateIn { status: Some(BookStatus::Borrowed), ..input.clone() };
    assert_eq!(lost.status_or_default(), BookStatus::Borrowed);
    let updated = db::Book::from_update(4, lost);
    assert_eq!(updated.id, 4);
    assert_eq!(updated.title, "T");
    assert_eq!(updated.author, "A");
    assert_eq!(updated.status, BookStatus::Available);
}
