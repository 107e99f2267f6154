use bookshelf::book::Book;
use bookshelf::catalog::CatalogError;
use bookshelf::database::{
    add_book, book_params, books_from_rows, catalog_from_rows, contains_book, list_books,
    remove_book,
};

fn book(title: &str, author: &str) -> Book {
    Book { title: title.to_string(), author: author.to_string() }
}

fn clear(path: &str, books: &[Book]) {
    for b in books {
        let _ = remove_book(path, b);
    }
}

#[test]
fn stored_catalog_add_list_remove() {
    let path = "/tmp/bookshelf_stored_catalog_add_list_remove.db";
    let dune = book("Dune", "Herbert");
    let emma = book("Emma", "Austen");
    clear(path, &[dune.clone(), emma.clone()]);
    assert!(add_book(path, &dune).is_ok());
    assert!(add_book(path, &emma).is_ok());
    assert_eq!(list_books(path).unwrap(), "Emma \u{2014} Austen\nDune \u{2014} Herbert");
    match add_book(path, &dune) {
        Err(CatalogError::AlreadyExists(b)) => assert!(b == dune),
        other => panic!("unexpected {:?}", other),
    }
    assert_eq!(list_books(path).unwrap().lines().count(), 2);
    assert!(remove_book(path, &dune).is_ok());
    assert!(!contains_book(path, &dune).unwrap());
    match remove_book(path, &dune) {
        Err(CatalogError::NotFound(b)) => assert!(b == dune),
        other => panic!("unexpected {:?}", other),
    }
    assert!(remove_book(path, &emma).is_ok());
    assert_eq!(list_books(path).unwrap(), "");
}

#[test]
fn stored_catalog_cannot_open_missing_directory() {
    let r = list_books("/nonexistent-directory-for-bookshelf/books.db");
    assert!(matches!(r, Err(CatalogError::OpeningTable(_))));
}

fn row(title: &str, author: &str) -> (String, String) {
    (title.to_string(), author.to_string())
}

#[test]
fn rows_become_books_in_order() {
    let books = books_from_rows(&vec![row("Dune", "Herbert"), row("Emma", "Austen")]);
    assert_eq!(books.len(), 2);
    assert!(books[0] == book("Dune", "Herbert"));
    assert!(books[1] == book("Emma", "Austen"));
}

#[test]
fn rows_become_a_sorted_catalog_without_repeats() {
    let c = catalog_from_rows(&vec![
        row("Dune", "Herbert"),
        row("Emma", "Austen"),
        row("Dune", "Herbert"),
    ]);
    assert_eq!(c.len(), 2);
    assert_eq!(c.listing(), "Emma \u{2014} Austen\nDune \u{2014} Herbert");
}

#[test]
fn statement_params_are_title_then_author() {
    assert_eq!(book_params(&book("Dune", "Herbert")), vec!["Dune".to_string(), "Herbert".to_string()]);
}
