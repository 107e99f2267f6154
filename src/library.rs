//! The managed library directory: where each book's file lives, and the
//! checks made before a file is copied into it.
use vstd::prelude::*;
use crate::book::{Book, BookView, file_stem};
use crate::catalog::Catalog;
use crate::config::{Configuration, ConfigurationError, get_library_path};

verus! {

/// `name` inside the directory `root`: one separator between them, none
/// added where `root` already ends with one.
pub open spec fn path_join(root: Seq<char>, name: Seq<char>) -> Seq<char> {
    if root.len() > 0 && root.last() == '/' {
        root + name
    } else {
        root + seq!['/'] + name
    }
}

/// A file copy to be made: the bytes of `source` written to `destination`.
#[derive(Debug, Clone)]
pub struct Transfer {
    pub source: String,
    pub destination: String,
}

/// Why a book could not be added to the library.
#[derive(Debug)]
pub enum AddError {
    /// No library path is configured.
    LibraryPathUnset,
    /// The file to add does not exist.
    SourceNotFound(String),
    /// The catalog already holds the book.
    AlreadyExists(Book),
}

/// The path of `name` inside the directory `root`.
pub fn join_path(root: &String, name: &String) -> (r: String)
    ensures
        r@ == path_join(root@, name@),
{
    let len: usize = root.as_str().unicode_len();
    let mut r: String = root.clone();
    if len == 0 || root.as_str().get_char(len - 1) != '/' {
        r.append("/");
        proof {
            reveal_strlit("/");
        }
    }
    r.append(name.as_str());
    r
}

/// Where `book` lives in the library: the library path joined with the
/// book's file stem. Fails with `NoLibraryPath` where no library path is
/// set.
pub fn get_book_path(config: &Configuration, book: &Book) -> (r: Result<
    String,
    ConfigurationError,
>)
    ensures
        config.library_path@.len() == 0 ==> r matches Err(ConfigurationError::NoLibraryPath),
        config.library_path@.len() > 0 ==> (r matches Ok(p) && p@ == path_join(
            config.library_path@,
            file_stem(book@),
        )),
{
    let root = get_library_path(config)?;
    let stem = book.file_name();
    Ok(join_path(&root, &stem))
}

/// The copy of `source` into the library as `book`'s file, where the library
/// path is set (else `LibraryPathUnset`) and `source_exists` (else
/// `SourceNotFound`).
pub fn materialize(config: &Configuration, book: &Book, source: &String, source_exists: bool) -> (r:
    Result<Transfer, AddError>)
    ensures
        config.library_path@.len() == 0 ==> r matches Err(AddError::LibraryPathUnset),
        config.library_path@.len() > 0 && !source_exists ==> (r matches Err(
            AddError::SourceNotFound(p),
        ) && p@ == source@),
        config.library_path@.len() > 0 && source_exists ==> (r matches Ok(t) && t.source@
            == source@ && t.destination@ == path_join(config.library_path@, file_stem(book@))),
{
    let destination = match get_book_path(config, book) {
        Ok(p) => p,
        Err(_) => {
            return Err(AddError::LibraryPathUnset);
        },
    };
    if !source_exists {
        return Err(AddError::SourceNotFound(source.clone()));
    }
    Ok(Transfer { source: source.clone(), destination })
}

/// What adding `book` from `source` gives, given whether the source exists
/// and what the catalog holds. The checks go in order: library path set,
/// source present, book not yet in the catalog; where all pass, the copy to
/// make before the catalog row is written.
pub open spec fn add_outcome(
    config: Configuration,
    catalog: Seq<BookView>,
    book: Book,
    source: Seq<char>,
    source_exists: bool,
    r: Result<Transfer, AddError>,
) -> bool {
    if config.library_path@.len() == 0 {
        r matches Err(AddError::LibraryPathUnset)
    } else if !source_exists {
        r matches Err(AddError::SourceNotFound(p)) && p@ == source
    } else if catalog.contains(book@) {
        r matches Err(AddError::AlreadyExists(b)) && b == book
    } else {
        r matches Ok(t) && t.source@ == source && t.destination@ == path_join(
            config.library_path@,
            file_stem(book@),
        )
    }
}

/// The checks of adding `book` from `source`, and the copy they allow.
pub fn plan_add(
    config: &Configuration,
    catalog: &Catalog,
    book: &Book,
    source: &String,
    source_exists: bool,
) -> (r: Result<Transfer, AddError>)
    requires
        catalog.wf(),
    ensures
        add_outcome(*config, catalog@, *book, source@, source_exists, r),
{
    let transfer = materialize(config, book, source, source_exists)?;
    if catalog.contains(book) {
        return Err(AddError::AlreadyExists(book.cloned()));
    }
    Ok(transfer)
}

/// Where no library path is set, adding fails with `LibraryPathUnset`
/// whatever the source and the catalog: no copy is planned, and the catalog,
/// which the planning only reads, gains no row.
pub proof fn law_add_needs_library_path(
    config: Configuration,
    catalog: Seq<BookView>,
    book: Book,
    source: Seq<char>,
    source_exists: bool,
    r: Result<Transfer, AddError>,
)
    requires
        config.library_path@.len() == 0,
        add_outcome(config, catalog, book, source, source_exists, r),
    ensures
        r matches Err(AddError::LibraryPathUnset),
        !(r is Ok),
{
}

/// The next step of an add once its copy was planned.
#[derive(Debug, PartialEq, Eq)]
pub enum AddStep {
    /// Write the catalog row.
    WriteRow,
    /// Delete the copied file at this path.
    DeleteCopy(String),
    /// Nothing more to do.
    Done,
}

/// The step that follows, given whether the copy succeeded and, where the
/// row was tried, whether it was written. A failed copy ends the add with no
/// row; a row that could not be written has its copied file deleted, so that
/// the library holds no file that the catalog does not know.
pub fn next_add_step(transfer: &Transfer, copied: bool, row_written: Option<bool>) -> (r: AddStep)
    ensures
        !copied ==> r is Done,
        copied && row_written is None ==> r is WriteRow,
        copied && row_written == Some(true) ==> r is Done,
        copied && row_written == Some(false) ==> (r matches AddStep::DeleteCopy(p) && p@
            == transfer.destination@),
{
    if !copied {
        return AddStep::Done;
    }
    match row_written {
        None => AddStep::WriteRow,
        Some(true) => AddStep::Done,
        Some(false) => AddStep::DeleteCopy(transfer.destination.clone()),
    }
}

/// Why a book could not be removed.
#[derive(Debug)]
pub enum RemoveError {
    /// No library path is configured.
    LibraryPathUnset,
    /// The catalog does not hold the book.
    NotFound(Book),
}

/// The checks of removing `book`, in order: library path set, book in the
/// catalog. Where both pass, the library file to delete once the catalog row
/// is gone.
pub fn plan_remove(config: &Configuration, catalog: &Catalog, book: &Book) -> (r: Result<
    String,
    RemoveError,
>)
    requires
        catalog.wf(),
    ensures
        config.library_path@.len() == 0 ==> r matches Err(RemoveError::LibraryPathUnset),
        config.library_path@.len() > 0 && !catalog@.contains(book@) ==> (r matches Err(
            RemoveError::NotFound(b),
        ) && b == *book),
        config.library_path@.len() > 0 && catalog@.contains(book@) ==> (r matches Ok(p) && p@
            == path_join(config.library_path@, file_stem(book@))),
{
    let path = match get_book_path(config, book) {
        Ok(p) => p,
        Err(_) => {
            return Err(RemoveError::LibraryPathUnset);
        },
    };
    if !catalog.contains(book) {
        return Err(RemoveError::NotFound(book.cloned()));
    }
    Ok(path)
}

} // verus!
