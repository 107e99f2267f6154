use bookshelf::book::Book;
use bookshelf::catalog::{Catalog, CatalogError};

fn book(title: &str, author: &str) -> Book {
    Book { title: title.to_string(), author: author.to_string() }
}

fn keys(books: &[Book]) -> Vec<(String, String)> {
    books.iter().map(|b| (b.author.clone(), b.title.clone())).collect()
}

#[test]
fn empty_catalog_lists_nothing() {
    let c = Catalog::new();
    assert!(c.list().is_empty());
    assert_eq!(c.listing(), "");
    assert_eq!(c.len(), 0);
}

#[test]
fn insert_then_list_holds_book_once_in_order() {
    let mut c = Catalog::new();
    assert!(c.insert(book("Foundation", "Asimov")).is_ok());
    assert!(c.insert(book("Dune", "Herbert")).is_ok());
    assert!(c.insert(book("I, Robot", "Asimov")).is_ok());
    assert!(c.insert(book("Children of Dune", "Herbert")).is_ok());
    let listed = c.list();
    assert_eq!(listed.iter().filter(|b| b.title == "Dune" && b.author == "Herbert").count(), 1);
    let k = keys(&listed);
    for w in k.windows(2) {
        assert!(w[0] <= w[1]);
    }
    assert_eq!(
        k,
        vec![
            ("Asimov".to_string(), "Foundation".to_string()),
            ("Asimov".to_string(), "I, Robot".to_string()),
            ("Herbert".to_string(), "Children of Dune".to_string()),
            ("Herbert".to_string(), "Dune".to_string()),
        ]
    );
}

#[test]
fn inserting_twice_fails_with_already_exists() {
    let mut c = Catalog::new();
    assert!(c.insert(book("Dune", "Herbert")).is_ok());
    match c.insert(book("Dune", "Herbert")) {
        Err(CatalogError::AlreadyExists(b)) => assert!(b == book("Dune", "Herbert")),
        other => panic!("unexpected {:?}", other),
    }
    assert_eq!(c.len(), 1);
    assert_eq!(c.list().len(), 1);
}

#[test]
fn key_is_case_sensitive() {
    let mut c = Catalog::new();
    assert!(c.insert(book("Dune", "Herbert")).is_ok());
    assert!(c.insert(book("dune", "Herbert")).is_ok());
    assert_eq!(c.len(), 2);
}

#[test]
fn removing_absent_book_fails_with_not_found() {
    let mut c = Catalog::new();
    assert!(c.insert(book("Dune", "Herbert")).is_ok());
    match c.remove(&book("Emma", "Austen")) {
        Err(CatalogError::NotFound(b)) => assert!(b == book("Emma", "Austen")),
        other => panic!("unexpected {:?}", other),
    }
    assert_eq!(c.len(), 1);
}

#[test]
fn removing_present_book_makes_contains_false() {
    let mut c = Catalog::new();
    assert!(c.insert(book("Dune", "Herbert")).is_ok());
    assert!(c.insert(book("Emma", "Austen")).is_ok());
    assert!(c.contains(&book("Dune", "Herbert")));
    assert!(c.remove(&book("Dune", "Herbert")).is_ok());
    assert!(!c.contains(&book("Dune", "Herbert")));
    assert!(c.contains(&book("Emma", "Austen")));
    assert_eq!(c.len(), 1);
}

#[test]
fn from_books_drops_repeated_keys_and_sorts() {
    let c = Catalog::from_books(vec![
        book("B", "Y"),
        book("A", "Z"),
        book("B", "Y"),
        book("A", "Y"),
    ]);
    assert_eq!(
        keys(&c.list()),
        vec![
            ("Y".to_string(), "A".to_string()),
            ("Y".to_string(), "B".to_string()),
            ("Z".to_string(), "A".to_string()),
        ]
    );
}

#[test]
fn listing_joins_display_forms_by_line() {
    let mut c = Catalog::new();
    assert!(c.insert(book("Emma", "Austen")).is_ok());
    assert!(c.insert(book("Dune", "Herbert")).is_ok());
    assert_eq!(c.listing(), "Emma \u{2014} Austen\nDune \u{2014} Herbert");
}
