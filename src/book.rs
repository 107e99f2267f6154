//! Book identity: the natural key, its file stem, its display form and the
//! catalog order (author, then title).
use vstd::prelude::*;

verus! {

/// The mathematical value of a book: its natural key.
pub ghost struct BookView {
    pub title: Seq<char>,
    pub author: Seq<char>,
}

/// A book, identified by its (title, author) pair.
#[derive(Debug, Clone, Eq)]
pub struct Book {
    pub title: String,
    pub author: String,
}

impl View for Book {
    type V = BookView;

    open spec fn view(&self) -> BookView {
        BookView { title: self.title@, author: self.author@ }
    }
}

/// Every space replaced with an underscore, every other character kept.
pub open spec fn underscored(s: Seq<char>) -> Seq<char> {
    s.map_values(|c: char| if c == ' ' { '_' } else { c })
}

/// The name under which a book's file is stored: `{title}-{author}` with
/// spaces turned into underscores.
pub open spec fn file_stem(b: BookView) -> Seq<char> {
    underscored(b.title) + seq!['-'] + underscored(b.author)
}

/// The separator between title and author in the display form.
pub open spec fn display_separator() -> Seq<char> {
    seq![' ', '\u{2014}', ' ']
}

/// `{title} — {author}`.
pub open spec fn display_form(b: BookView) -> Seq<char> {
    b.title + display_separator() + b.author
}

/// Lexicographic order on texts, character by character (by code point),
/// a proper prefix coming first.
pub open spec fn text_lt(a: Seq<char>, b: Seq<char>) -> bool
    decreases a.len(),
{
    if a.len() == 0 {
        b.len() > 0
    } else if b.len() == 0 {
        false
    } else if a[0] != b[0] {
        (a[0] as int) < (b[0] as int)
    } else {
        text_lt(a.drop_first(), b.drop_first())
    }
}

/// The catalog order: by author, ties broken by title.
pub open spec fn book_lt(a: BookView, b: BookView) -> bool {
    text_lt(a.author, b.author) || (a.author == b.author && text_lt(a.title, b.title))
}

/// The three-way comparison that `book_lt` induces.
pub open spec fn book_ordering(a: BookView, b: BookView) -> core::cmp::Ordering {
    if book_lt(a, b) {
        core::cmp::Ordering::Less
    } else if a == b {
        core::cmp::Ordering::Equal
    } else {
        core::cmp::Ordering::Greater
    }
}

/// Relies on `str::replace`: every occurrence of the pattern is replaced,
/// and a one-character pattern matches exactly that character.
#[verifier::external_body]
fn replace_spaces(s: &str) -> (r: String)
    ensures
        r@ == underscored(s@),
{
    s.replace(' ', "_")
}

pub proof fn lemma_text_lt_irreflexive(a: Seq<char>)
    ensures
        !text_lt(a, a),
    decreases a.len(),
{
    if a.len() > 0 {
        lemma_text_lt_irreflexive(a.drop_first());
    }
}

pub proof fn lemma_text_lt_transitive(a: Seq<char>, b: Seq<char>, c: Seq<char>)
    requires
        text_lt(a, b),
        text_lt(b, c),
    ensures
        text_lt(a, c),
    decreases a.len(),
{
    if a.len() > 0 && b.len() > 0 && c.len() > 0 && a[0] == b[0] && b[0] == c[0] {
        lemma_text_lt_transitive(a.drop_first(), b.drop_first(), c.drop_first());
    }
}

pub proof fn lemma_text_lt_total(a: Seq<char>, b: Seq<char>)
    ensures
        text_lt(a, b) || a == b || text_lt(b, a),
    decreases a.len(),
{
    if a.len() > 0 && b.len() > 0 {
        if a[0] == b[0] {
            lemma_text_lt_total(a.drop_first(), b.drop_first());
            if a.drop_first() == b.drop_first() {
                assert(a =~= seq![a[0]] + a.drop_first());
                assert(b =~= seq![b[0]] + b.drop_first());
            }
        } else {
            assert((a[0] as int) != (b[0] as int));
        }
    } else if a.len() == 0 && b.len() == 0 {
        assert(a =~= b);
    }
}

pub proof fn lemma_text_lt_asymmetric(a: Seq<char>, b: Seq<char>)
    requires
        text_lt(a, b),
    ensures
        !text_lt(b, a),
{
    if text_lt(b, a) {
        lemma_text_lt_transitive(a, b, a);
        lemma_text_lt_irreflexive(a);
    }
}

/// Compares two texts in the order `text_lt`.
pub fn compare_text(a: &String, b: &String) -> (r: core::cmp::Ordering)
    ensures
        (r == core::cmp::Ordering::Less) == text_lt(a@, b@),
        (r == core::cmp::Ordering::Equal) == (a@ == b@),
        (r == core::cmp::Ordering::Greater) == text_lt(b@, a@),
{
    let sa: &str = a.as_str();
    let sb: &str = b.as_str();
    let la: usize = sa.unicode_len();
    let lb: usize = sb.unicode_len();
    let mut i: usize = 0;
    assert(a@.skip(0) =~= a@);
    assert(b@.skip(0) =~= b@);
    while i < la && i < lb
        invariant
            la == a@.len(),
            lb == b@.len(),
            sa@ == a@,
            sb@ == b@,
            i <= la,
            i <= lb,
            a@.subrange(0, i as int) == b@.subrange(0, i as int),
            text_lt(a@, b@) == text_lt(a@.skip(i as int), b@.skip(i as int)),
            text_lt(b@, a@) == text_lt(b@.skip(i as int), a@.skip(i as int)),
        decreases la - i,
    {
        let ca: char = sa.get_char(i);
        let cb: char = sb.get_char(i);
        assert(a@.skip(i as int)[0] == ca);
        assert(b@.skip(i as int)[0] == cb);
        if ca != cb {
            proof {
                lemma_text_lt_total(a@, b@);
            }
            if (ca as u32) < (cb as u32) {
                proof {
                    lemma_text_lt_asymmetric(a@, b@);
                }
                return core::cmp::Ordering::Less;
            } else {
                proof {
                    lemma_text_lt_asymmetric(b@, a@);
                }
                return core::cmp::Ordering::Greater;
            }
        }
        assert(a@.skip(i as int).drop_first() =~= a@.skip(i + 1));
        assert(b@.skip(i as int).drop_first() =~= b@.skip(i + 1));
        assert(a@.subrange(0, i + 1) =~= a@.subrange(0, i as int).push(ca));
        assert(b@.subrange(0, i + 1) =~= b@.subrange(0, i as int).push(cb));
        i = i + 1;
    }
    if la < lb {
        proof {
            lemma_text_lt_asymmetric(a@, b@);
        }
        core::cmp::Ordering::Less
    } else if lb < la {
        proof {
            lemma_text_lt_asymmetric(b@, a@);
        }
        core::cmp::Ordering::Greater
    } else {
        assert(a@ =~= a@.subrange(0, i as int));
        assert(b@ =~= b@.subrange(0, i as int));
        proof {
            lemma_text_lt_irreflexive(a@);
        }
        core::cmp::Ordering::Equal
    }
}

pub proof fn lemma_book_lt_irreflexive(a: BookView)
    ensures
        !book_lt(a, a),
{
    lemma_text_lt_irreflexive(a.author);
    lemma_text_lt_irreflexive(a.title);
}

pub proof fn lemma_book_lt_transitive(a: BookView, b: BookView, c: BookView)
    requires
        book_lt(a, b),
        book_lt(b, c),
    ensures
        book_lt(a, c),
{
    if text_lt(a.author, b.author) && text_lt(b.author, c.author) {
        lemma_text_lt_transitive(a.author, b.author, c.author);
    } else if a.author == b.author && b.author == c.author {
        lemma_text_lt_transitive(a.title, b.title, c.title);
    }
}

pub proof fn lemma_book_lt_total(a: BookView, b: BookView)
    ensures
        book_lt(a, b) || a == b || book_lt(b, a),
{
    lemma_text_lt_total(a.author, b.author);
    lemma_text_lt_total(a.title, b.title);
}

pub proof fn lemma_book_lt_asymmetric(a: BookView, b: BookView)
    requires
        book_lt(a, b),
    ensures
        !book_lt(b, a),
{
    if book_lt(b, a) {
        lemma_book_lt_transitive(a, b, a);
        lemma_book_lt_irreflexive(a);
    }
}

/// The file stem depends on the title and the author alone, and holds no
/// space.
pub proof fn law_file_stem_deterministic_without_spaces(a: BookView, b: BookView)
    ensures
        a == b ==> file_stem(a) == file_stem(b),
        forall|i: int| 0 <= i < file_stem(a).len() ==> file_stem(a)[i] != ' ',
{
    let s = file_stem(a);
    assert forall|i: int| 0 <= i < s.len() implies s[i] != ' ' by {
        let t = underscored(a.title);
        if i < t.len() {
            assert(s[i] == t[i]);
        } else if i > t.len() {
            assert(s[i] == underscored(a.author)[i - t.len() - 1]);
        }
    }
}

impl Book {
    /// A copy of this book.
    pub fn cloned(&self) -> (r: Book)
        ensures
            r == *self,
    {
        Book { title: self.title.clone(), author: self.author.clone() }
    }
}

impl PartialEq for Book {
    fn eq(&self, other: &Book) -> (r: bool)
        ensures
            r == (self@ == other@),
    {
        self.title == other.title && self.author == other.author
    }
}

impl vstd::std_specs::cmp::PartialEqSpecImpl for Book {
    open spec fn obeys_eq_spec() -> bool {
        true
    }

    open spec fn eq_spec(&self, other: &Book) -> bool {
        self@ == other@
    }
}

impl PartialOrd for Book {
    /// Orders by author, ties broken by title.
    fn partial_cmp(&self, other: &Book) -> (r: Option<core::cmp::Ordering>)
        ensures
            r == Some(book_ordering(self@, other@)),
    {
        let author_cmp = compare_text(&self.author, &other.author);
        match author_cmp {
            core::cmp::Ordering::Equal => {
                let title_cmp = compare_text(&self.title, &other.title);
                proof {
                    if title_cmp == core::cmp::Ordering::Greater {
                        lemma_text_lt_asymmetric(other.title@, self.title@);
                    }
                }
                Some(title_cmp)
            },
            _ => {
                proof {
                    if author_cmp == core::cmp::Ordering::Greater {
                        lemma_text_lt_asymmetric(other.author@, self.author@);
                    }
                }
                Some(author_cmp)
            },
        }
    }
}

impl vstd::std_specs::cmp::PartialOrdSpecImpl for Book {
    open spec fn obeys_partial_cmp_spec() -> bool {
        true
    }

    open spec fn partial_cmp_spec(&self, other: &Book) -> Option<core::cmp::Ordering> {
        Some(book_ordering(self@, other@))
    }
}

impl Book {
    /// The file stem of this book.
    pub fn file_name(&self) -> (r: String)
        ensures
            r@ == file_stem(self@),
    {
        let mut r: String = replace_spaces(self.title.as_str());
        r.append("-");
        let author: String = replace_spaces(self.author.as_str());
        r.append(author.as_str());
        proof {
            reveal_strlit("-");
        }
        r
    }

    /// The display form of this book, `{title} — {author}`.
    pub fn to_string(&self) -> (r: String)
        ensures
            r@ == display_form(self@),
    {
        let mut r: String = self.title.clone();
        r.append(" \u{2014} ");
        r.append(self.author.as_str());
        proof {
            reveal_strlit(" \u{2014} ");
        }
        r
    }
}

} // verus!
