//! The catalog's durable store: one table of books in a database file,
//! opened afresh for every operation.
use vstd::prelude::*;
use crate::book::Book;
use crate::catalog::{Catalog, CatalogError, listing_text, strictly_sorted, views_of};
use crate::book::BookView;

verus! {

#[verifier::external_type_specification]
#[verifier::external_body]
pub struct ExConnection(rusqlite::Connection);

#[verifier::external_type_specification]
#[verifier::external_body]
pub struct ExSqlError(rusqlite::Error);

/// Where the catalog is kept, relative to the working directory.
pub const DATABASE_PATH: &'static str = "./books.db";

pub const CREATE_TABLE: &'static str = "create table if not exists books (id integer primary key, title text not null, author text not null)";

pub const ALL_BOOKS_QUERY: &'static str = "SELECT id, title, author FROM books";

pub const INSERT_BOOK: &'static str = "INSERT INTO books (title, author) VALUES (?1, ?2)";

pub const DELETE_BOOK: &'static str = "DELETE FROM books WHERE title = ?1 AND author = ?2";

/// Relies on `rusqlite::Connection::open`: opens the database file at
/// `path`, creating it where absent. What it returns depends on the disk.
#[verifier::external_body]
fn open_connection(path: &str) -> (r: Result<rusqlite::Connection, rusqlite::Error>) {
    rusqlite::Connection::open(path)
}

/// Relies on `rusqlite::Connection::execute`: runs one statement, binding
/// `args` to its parameters in order. What it returns depends on the disk.
#[verifier::external_body]
fn execute_statement(conn: &rusqlite::Connection, sql: &str, args: &Vec<String>) -> (r: Result<
    usize,
    rusqlite::Error,
>) {
    conn.execute(sql, rusqlite::params_from_iter(args.iter()))
}

/// Relies on `rusqlite::Connection::prepare` and `Statement::query_map`:
/// runs `sql` and reads the second and third column of every row as text.
/// What it returns depends on the disk.
#[verifier::external_body]
fn fetch_rows(conn: &rusqlite::Connection, sql: &str) -> (r: Result<
    Vec<(String, String)>,
    rusqlite::Error,
>) {
    let mut stmt = conn.prepare(sql)?;
    let rows = stmt.query_map([], |row| Ok((row.get(1)?, row.get(2)?)))?;
    rows.collect()
}

/// Opens the catalog file at `path` and creates the books table where it is
/// absent.
pub fn connect(path: &str) -> (r: Result<rusqlite::Connection, CatalogError>)
    ensures
        r matches Err(e) ==> (e is OpeningTable || e is CreatingTable),
{
    let conn = match open_connection(path) {
        Ok(c) => c,
        Err(e) => {
            return Err(CatalogError::OpeningTable(e));
        },
    };
    let no_args: Vec<String> = Vec::new();
    match execute_statement(&conn, CREATE_TABLE, &no_args) {
        Ok(_) => Ok(conn),
        Err(e) => Err(CatalogError::CreatingTable(e)),
    }
}

/// The natural keys of rows read as (title, author) pairs.
pub open spec fn row_views(rows: Seq<(String, String)>) -> Seq<BookView> {
    rows.map_values(|p: (String, String)| BookView { title: p.0@, author: p.1@ })
}

/// One book per row, in row order.
pub fn books_from_rows(rows: &Vec<(String, String)>) -> (r: Vec<Book>)
    ensures
        views_of(r@) == row_views(rows@),
{
    let mut books: Vec<Book> = Vec::new();
    let mut i: usize = 0;
    while i < rows.len()
        invariant
            i <= rows@.len(),
            books@.len() == i,
            forall|k: int|
                0 <= k < i ==> #[trigger] books@[k] == (Book {
                    title: rows@[k].0,
                    author: rows@[k].1,
                }),
        decreases rows.len() - i,
    {
        let (title, author) = &rows[i];
        books.push(Book { title: title.clone(), author: author.clone() });
        i = i + 1;
    }
    assert(views_of(books@) =~= row_views(rows@));
    books
}

/// The catalog of the natural keys among the rows, each once.
pub fn catalog_from_rows(rows: &Vec<(String, String)>) -> (r: Catalog)
    ensures
        r.wf(),
        r@.to_set() == row_views(rows@).to_set(),
{
    Catalog::from_books(books_from_rows(rows))
}

/// The values bound to the parameters of a statement on one book: its title,
/// then its author.
pub fn book_params(book: &Book) -> (r: Vec<String>)
    ensures
        r@.len() == 2,
        r@[0]@ == book.title@,
        r@[1]@ == book.author@,
{
    vec![book.title.clone(), book.author.clone()]
}

/// Every stored book, in the order the table gives them.
pub fn query_books(conn: &rusqlite::Connection) -> (r: Result<Vec<Book>, CatalogError>)
    ensures
        r matches Err(e) ==> e is GettingBooks,
{
    match fetch_rows(conn, ALL_BOOKS_QUERY) {
        Ok(rows) => Ok(books_from_rows(&rows)),
        Err(e) => Err(CatalogError::GettingBooks(e)),
    }
}

/// The stored books as a catalog.
pub fn load_catalog(conn: &rusqlite::Connection) -> (r: Result<Catalog, CatalogError>)
    ensures
        r matches Ok(c) ==> c.wf(),
        r matches Err(e) ==> e is GettingBooks,
{
    match fetch_rows(conn, ALL_BOOKS_QUERY) {
        Ok(rows) => Ok(catalog_from_rows(&rows)),
        Err(e) => Err(CatalogError::GettingBooks(e)),
    }
}

/// Writes one row for `book`.
pub fn insert_book(conn: &rusqlite::Connection, book: &Book) -> (r: Result<(), CatalogError>)
    ensures
        r matches Err(e) ==> e is AddingBook,
{
    match execute_statement(conn, INSERT_BOOK, &book_params(book)) {
        Ok(_) => Ok(()),
        Err(e) => Err(CatalogError::AddingBook(e)),
    }
}

/// Deletes the rows of `book`.
pub fn delete_book(conn: &rusqlite::Connection, book: &Book) -> (r: Result<(), CatalogError>)
    ensures
        r matches Err(e) ==> e is RemovingBook,
{
    match execute_statement(conn, DELETE_BOOK, &book_params(book)) {
        Ok(_) => Ok(()),
        Err(e) => Err(CatalogError::RemovingBook(e)),
    }
}

/// The stored books in catalog order, one display form per line.
pub fn list_books(path: &str) -> (r: Result<String, CatalogError>)
    ensures
        r matches Ok(s) ==> exists|c: Seq<BookView>| strictly_sorted(c) && s@ == listing_text(c),
        r matches Err(e) ==> (e is OpeningTable || e is CreatingTable || e is GettingBooks),
{
    let conn = connect(path)?;
    let catalog = load_catalog(&conn)?;
    Ok(catalog.listing())
}

/// Whether the catalog file at `path` holds `book`.
pub fn contains_book(path: &str, book: &Book) -> (r: Result<bool, CatalogError>)
    ensures
        r matches Err(e) ==> (e is OpeningTable || e is CreatingTable || e is GettingBooks),
{
    let conn = connect(path)?;
    let catalog = load_catalog(&conn)?;
    Ok(catalog.contains(book))
}

/// Stores `book` in the catalog file at `path`, unless its natural key is
/// already there.
pub fn add_book(path: &str, book: &Book) -> (r: Result<(), CatalogError>)
    ensures
        r matches Err(CatalogError::AlreadyExists(b)) ==> b == *book,
        r matches Err(e) ==> (e is OpeningTable || e is CreatingTable || e is GettingBooks
            || e is AlreadyExists || e is AddingBook),
{
    let conn = connect(path)?;
    let mut catalog = load_catalog(&conn)?;
    catalog.insert(book.cloned())?;
    insert_book(&conn, book)
}

/// Deletes `book` from the catalog file at `path`, failing with `NotFound`
/// where it is not there.
pub fn remove_book(path: &str, book: &Book) -> (r: Result<(), CatalogError>)
    ensures
        r matches Err(CatalogError::NotFound(b)) ==> b == *book,
        r matches Err(e) ==> (e is OpeningTable || e is CreatingTable || e is GettingBooks
            || e is NotFound || e is RemovingBook),
{
    let conn = connect(path)?;
    let mut catalog = load_catalog(&conn)?;
    catalog.remove(book)?;
    delete_book(&conn, book)
}

} // verus!
