//! The catalog: the set of known books, kept in catalog order, at most one
//! entry per natural key.
use vstd::prelude::*;
use crate::book::{
    Book, BookView, book_lt, display_form, lemma_book_lt_asymmetric,
    lemma_book_lt_irreflexive, lemma_book_lt_total, lemma_book_lt_transitive, text_lt,
};

verus! {

/// Why a catalog operation failed.
#[derive(Debug)]
pub enum CatalogError {
    /// A book with the same natural key is already stored.
    AlreadyExists(Book),
    /// No book with this natural key is stored.
    NotFound(Book),
    /// The catalog file could not be opened.
    OpeningTable(rusqlite::Error),
    /// The books table could not be created.
    CreatingTable(rusqlite::Error),
    /// The stored books could not be read.
    GettingBooks(rusqlite::Error),
    /// A book could not be written.
    AddingBook(rusqlite::Error),
    /// A book could not be deleted.
    RemovingBook(rusqlite::Error),
}

/// Strictly increasing in catalog order; hence no key occurs twice.
pub open spec fn strictly_sorted(s: Seq<BookView>) -> bool {
    forall|i: int, j: int| 0 <= i < j < s.len() ==> book_lt(s[i], s[j])
}

/// `b` stands at exactly one position of `s`.
pub open spec fn occurs_once(s: Seq<BookView>, b: BookView) -> bool {
    exists|i: int|
        0 <= i < s.len() && s[i] == b && (forall|j: int| 0 <= j < s.len() && s[j] == b ==> j == i)
}

/// `a` may stand before `b`: a smaller author, or the same author and a
/// title that is not larger.
pub open spec fn ordered_pair(a: BookView, b: BookView) -> bool {
    text_lt(a.author, b.author) || (a.author == b.author && (text_lt(a.title, b.title)
        || a.title == b.title))
}

/// Adjacent entries are ordered by author, ties by title (title order
/// non-strict).
pub open spec fn listed_in_order(s: Seq<BookView>) -> bool {
    forall|i: int| 0 <= i < s.len() - 1 ==> #[trigger] ordered_pair(s[i], s[i + 1])
}

/// The display forms of `s`, one per line, joined by newlines.
pub open spec fn listing_text(s: Seq<BookView>) -> Seq<char>
    decreases s.len(),
{
    if s.len() == 0 {
        Seq::empty()
    } else if s.len() == 1 {
        display_form(s[0])
    } else {
        listing_text(s.drop_last()) + seq!['\n'] + display_form(s.last())
    }
}

/// The natural keys of `s`, position by position.
pub open spec fn views_of(s: Seq<Book>) -> Seq<BookView> {
    s.map_values(|b: Book| b@)
}

/// The in-memory catalog.
pub struct Catalog {
    books: Vec<Book>,
}

impl View for Catalog {
    type V = Seq<BookView>;

    closed spec fn view(&self) -> Seq<BookView> {
        views_of(self.books@)
    }
}

impl Catalog {
    pub open spec fn wf(&self) -> bool {
        strictly_sorted(self@)
    }

    /// An empty catalog.
    pub fn new() -> (r: Catalog)
        ensures
            r.wf(),
            r@ == Seq::<BookView>::empty(),
    {
        let r = Catalog { books: Vec::new() };
        assert(r@ =~= Seq::<BookView>::empty());
        r
    }

    /// The number of books stored.
    pub fn len(&self) -> (r: usize)
        ensures
            r == self@.len(),
    {
        self.books.len()
    }

    /// The first position whose book is not before `book` in catalog order.
    fn position_of(&self, book: &Book) -> (r: usize)
        requires
            self.wf(),
        ensures
            r <= self@.len(),
            forall|i: int| 0 <= i < r ==> book_lt(#[trigger] self@[i], book@),
            forall|i: int| r <= i < self@.len() ==> !book_lt(#[trigger] self@[i], book@),
    {
        let mut i: usize = 0;
        while i < self.books.len()
            invariant
                self.wf(),
                i <= self@.len(),
                forall|k: int| 0 <= k < i ==> book_lt(#[trigger] self@[k], book@),
            decreases self.books.len() - i,
        {
            let ord = self.books[i].partial_cmp(book);
            assert(self@[i as int] == self.books@[i as int]@);
            let before: bool = match ord {
                Some(core::cmp::Ordering::Less) => true,
                _ => false,
            };
            if !before {
                assert forall|k: int| i <= k < self@.len() implies !book_lt(
                    #[trigger] self@[k],
                    book@,
                ) by {
                    if k > i && book_lt(self@[k], book@) {
                        lemma_book_lt_transitive(self@[i as int], self@[k], book@);
                    }
                }
                return i;
            }
            i = i + 1;
        }
        i
    }

    /// Whether a book with the natural key of `book` is stored.
    pub fn contains(&self, book: &Book) -> (r: bool)
        requires
            self.wf(),
        ensures
            r == self@.contains(book@),
    {
        let i = self.position_of(book);
        if i < self.books.len() {
            assert(self@[i as int] == self.books@[i as int]@);
            if self.books[i] == *book {
                return true;
            }
            assert forall|k: int| 0 <= k < self@.len() implies self@[k] != book@ by {
                if k > i {
                    lemma_book_lt_total(self@[i as int], book@);
                    lemma_book_lt_asymmetric(self@[i as int], self@[k]);
                    if self@[k] == book@ {
                        lemma_book_lt_irreflexive(book@);
                    }
                } else if k < i {
                    lemma_book_lt_irreflexive(book@);
                }
            }
        } else {
            assert forall|k: int| 0 <= k < self@.len() implies self@[k] != book@ by {
                lemma_book_lt_irreflexive(book@);
            }
        }
        false
    }

    /// Stores `book`, failing with `AlreadyExists` where its natural key is
    /// already stored.
    pub fn insert(&mut self, book: Book) -> (r: Result<(), CatalogError>)
        requires
            old(self).wf(),
        ensures
            final(self).wf(),
            old(self)@.contains(book@) ==> r == Err::<(), CatalogError>(
                CatalogError::AlreadyExists(book),
            ) && final(self)@ == old(self)@,
            !old(self)@.contains(book@) ==> r is Ok && final(self)@.to_set() == old(
                self,
            )@.to_set().insert(book@) && final(self)@.len() == old(self)@.len() + 1,
    {
        if self.contains(&book) {
            return Err(CatalogError::AlreadyExists(book));
        }
        let i = self.position_of(&book);
        let ghost before = self@;
        let ghost bv = book@;
        self.books.insert(i, book);
        assert(self@ =~= before.insert(i as int, bv));
        assert forall|a: int, b: int| 0 <= a < b < self@.len() implies book_lt(
            self@[a],
            self@[b],
        ) by {
            if a < i && b == i {
                assert(book_lt(before[a], bv));
            } else if a == i && b > i {
                assert(!book_lt(before[b - 1], bv));
                lemma_book_lt_total(before[b - 1], bv);
            } else if a < i && b > i {
                assert(book_lt(before[a], before[b - 1]));
            } else if a > i {
                assert(book_lt(before[a - 1], before[b - 1]));
            }
        }
        assert(self@.to_set() =~= before.to_set().insert(bv)) by {
            assert forall|x: BookView| self@.to_set().contains(x) implies before.to_set().insert(
                bv,
            ).contains(x) by {
                let k = choose|k: int| 0 <= k < self@.len() && self@[k] == x;
                if k < i {
                    assert(before[k] == x);
                } else if k > i {
                    assert(before[k - 1] == x);
                }
            }
            assert forall|x: BookView| before.to_set().insert(bv).contains(x) implies self@.to_set().contains(
                x,
            ) by {
                if x == bv {
                    assert(self@[i as int] == x);
                } else {
                    let k = choose|k: int| 0 <= k < before.len() && before[k] == x;
                    if k < i {
                        assert(self@[k] == x);
                    } else {
                        assert(self@[k + 1] == x);
                    }
                }
            }
        }
        Ok(())
    }

    /// Removes the book with the natural key of `book`, failing with
    /// `NotFound` where none is stored.
    pub fn remove(&mut self, book: &Book) -> (r: Result<(), CatalogError>)
        requires
            old(self).wf(),
        ensures
            final(self).wf(),
            !old(self)@.contains(book@) ==> r == Err::<(), CatalogError>(
                CatalogError::NotFound(*book),
            ) && final(self)@ == old(self)@,
            old(self)@.contains(book@) ==> r is Ok && final(self)@.to_set() == old(
                self,
            )@.to_set().remove(book@) && final(self)@.len() + 1 == old(self)@.len(),
    {
        let i = self.position_of(book);
        if i < self.books.len() && self.books[i] == *book {
            let ghost before = self@;
            let ghost bv = book@;
            assert(before[i as int] == bv);
            self.books.remove(i);
            assert(self@ =~= before.remove(i as int));
            assert forall|a: int, b: int| 0 <= a < b < self@.len() implies book_lt(
                self@[a],
                self@[b],
            ) by {
                if a < i && b >= i {
                    assert(book_lt(before[a], before[b + 1]));
                } else if a >= i {
                    assert(book_lt(before[a + 1], before[b + 1]));
                }
            }
            assert(self@.to_set() =~= before.to_set().remove(bv)) by {
                assert forall|x: BookView| self@.to_set().contains(x) implies before.to_set().remove(
                    bv,
                ).contains(x) by {
                    let k = choose|k: int| 0 <= k < self@.len() && self@[k] == x;
                    if k < i {
                        assert(before[k] == x);
                        assert(book_lt(before[k], before[i as int]));
                        lemma_book_lt_irreflexive(x);
                    } else {
                        assert(before[k + 1] == x);
                        assert(book_lt(before[i as int], before[k + 1]));
                        lemma_book_lt_irreflexive(x);
                    }
                }
                assert forall|x: BookView| before.to_set().remove(bv).contains(x) implies self@.to_set().contains(
                    x,
                ) by {
                    let k = choose|k: int| 0 <= k < before.len() && before[k] == x;
                    if k < i {
                        assert(self@[k] == x);
                    } else {
                        assert(k != i);
                        assert(self@[k - 1] == x);
                    }
                }
            }
            Ok(())
        } else {
            proof {
                if i < self@.len() {
                    assert(self@[i as int] == self.books@[i as int]@);
                }
                if self@.contains(book@) {
                    let k = choose|k: int| 0 <= k < self@.len() && self@[k] == book@;
                    lemma_book_lt_irreflexive(book@);
                    if k > i {
                        lemma_book_lt_total(self@[i as int], book@);
                        lemma_book_lt_asymmetric(self@[i as int], self@[k]);
                    }
                }
            }
            Err(CatalogError::NotFound(book.cloned()))
        }
    }

    /// A catalog of the natural keys among `books`, each once.
    pub fn from_books(books: Vec<Book>) -> (r: Catalog)
        ensures
            r.wf(),
            r@.to_set() == views_of(books@).to_set(),
    {
        let mut r = Catalog::new();
        let mut i: usize = 0;
        let ghost src = views_of(books@);
        while i < books.len()
            invariant
                r.wf(),
                i <= books@.len(),
                src == views_of(books@),
                r@.to_set() == src.subrange(0, i as int).to_set(),
            decreases books.len() - i,
        {
            let ghost before = r@;
            let _ = r.insert(books[i].cloned());
            assert(src.subrange(0, i + 1) =~= src.subrange(0, i as int) + seq![src[i as int]]);
            proof {
                Seq::lemma_to_set_insert_commutes(src.subrange(0, i as int), src[i as int]);
                if before.contains(books@[i as int]@) {
                    assert(before.to_set().contains(src[i as int]));
                    assert(r@.to_set() =~= before.to_set().insert(src[i as int]));
                }
            }
            i = i + 1;
        }
        assert(src.subrange(0, i as int) =~= src);
        r
    }

    /// The display forms of the stored books in catalog order, one per
    /// line.
    pub fn listing(&self) -> (r: String)
        ensures
            r@ == listing_text(self@),
    {
        let mut r: String = String::new();
        let mut i: usize = 0;
        assert(self@.subrange(0, 0) =~= Seq::<BookView>::empty());
        while i < self.books.len()
            invariant
                i <= self.books@.len(),
                r@ == listing_text(self@.subrange(0, i as int)),
            decreases self.books.len() - i,
        {
            let line = self.books[i].to_string();
            let ghost prefix = self@.subrange(0, i + 1);
            assert(prefix.drop_last() =~= self@.subrange(0, i as int));
            assert(prefix.last() == self.books@[i as int]@);
            if i > 0 {
                r.append("\n");
                proof {
                    reveal_strlit("\n");
                }
            } else {
                assert(prefix.len() == 1);
            }
            r.append(line.as_str());
            i = i + 1;
        }
        assert(self@.subrange(0, i as int) =~= self@);
        r
    }

    /// Every stored book, in catalog order.
    pub fn list(&self) -> (r: Vec<Book>)
        requires
            self.wf(),
        ensures
            views_of(r@) == self@,
    {
        let mut r: Vec<Book> = Vec::new();
        let mut i: usize = 0;
        while i < self.books.len()
            invariant
                i <= self.books@.len(),
                r@.len() == i,
                views_of(r@) == self@.subrange(0, i as int),
            decreases self.books.len() - i,
        {
            let ghost prev = r@;
            let c = self.books[i].cloned();
            r.push(c);
            assert(self@[i as int] == self.books@[i as int]@);
            assert(r@ == prev.push(c));
            assert(views_of(r@)[i as int] == c@);
            assert forall|k: int| 0 <= k < i implies #[trigger] views_of(r@)[k]
                == views_of(prev)[k] by {
                assert(r@[k] == prev[k]);
            }
            assert(views_of(r@) =~= self@.subrange(0, i + 1));
            i = i + 1;
        }
        assert(self@ =~= self@.subrange(0, i as int));
        r
    }
}

proof fn lemma_sorted_contains_once(s: Seq<BookView>, b: BookView)
    requires
        strictly_sorted(s),
        s.contains(b),
    ensures
        occurs_once(s, b),
{
    let i = choose|i: int| 0 <= i < s.len() && s[i] == b;
    assert forall|j: int| 0 <= j < s.len() && s[j] == b implies j == i by {
        lemma_book_lt_irreflexive(b);
        if j < i {
            assert(book_lt(s[j], s[i]));
        } else if j > i {
            assert(book_lt(s[i], s[j]));
        }
    }
}

proof fn lemma_sorted_listed_in_order(s: Seq<BookView>)
    requires
        strictly_sorted(s),
    ensures
        listed_in_order(s),
{
    assert forall|i: int| 0 <= i < s.len() - 1 implies #[trigger] ordered_pair(s[i], s[i + 1]) by {
        assert(book_lt(s[i], s[i + 1]));
    }
}

/// After `book` is inserted into a catalog, listing it yields `book` exactly
/// once, and every adjacent pair of the listing is ordered by author, then
/// title.
pub proof fn law_insert_then_list(before: Catalog, after: Catalog, book: Book, listed: Seq<Book>)
    requires
        before.wf(),
        after.wf(),
        after@.to_set() == before@.to_set().insert(book@),
        views_of(listed) == after@,
    ensures
        occurs_once(views_of(listed), book@),
        listed_in_order(views_of(listed)),
{
    assert(after@.to_set().contains(book@));
    lemma_sorted_contains_once(after@, book@);
    lemma_sorted_listed_in_order(after@);
}

/// Once `book` has been inserted, inserting it again fails (the catalog
/// holds its key), and the catalog holds it exactly once.
pub proof fn law_insert_twice(first: Catalog, second: Catalog, book: Book)
    requires
        first.wf(),
        second.wf(),
        second@.to_set() == first@.to_set().insert(book@),
    ensures
        second@.contains(book@),
        occurs_once(second@, book@),
{
    assert(second@.to_set().contains(book@));
    lemma_sorted_contains_once(second@, book@);
}

/// After `book` is removed from a catalog, the catalog no longer contains
/// it.
pub proof fn law_remove_then_absent(before: Catalog, after: Catalog, book: Book)
    requires
        after.wf(),
        after@.to_set() == before@.to_set().remove(book@),
    ensures
        !after@.contains(book@),
{
    if after@.contains(book@) {
        assert(after@.to_set().contains(book@));
    }
}

} // verus!
