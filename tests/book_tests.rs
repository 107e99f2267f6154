use bookshelf::book::{compare_text, Book};
use std::cmp::Ordering;

fn book(title: &str, author: &str) -> Book {
    Book { title: title.to_string(), author: author.to_string() }
}

#[test]
fn file_name_replaces_spaces() {
    let b = book("The Left Hand of Darkness", "Ursula K Le Guin");
    assert_eq!(b.file_name(), "The_Left_Hand_of_Darkness-Ursula_K_Le_Guin");
}

#[test]
fn file_name_is_deterministic_and_has_no_space() {
    let b = book("  A  B ", "C D");
    let first = b.file_name();
    let second = book("  A  B ", "C D").file_name();
    assert_eq!(first, second);
    assert!(!first.contains(' '));
    assert_eq!(first, "__A__B_-C_D");
}

#[test]
fn file_name_without_spaces_is_plain_join() {
    assert_eq!(book("Dune", "Herbert").file_name(), "Dune-Herbert");
}

#[test]
fn display_form_puts_title_first() {
    assert_eq!(book("Dune", "Herbert").to_string(), "Dune \u{2014} Herbert");
}

#[test]
fn compare_text_is_lexicographic() {
    let s = |x: &str| x.to_string();
    assert_eq!(compare_text(&s("abc"), &s("abd")), Ordering::Less);
    assert_eq!(compare_text(&s("abc"), &s("ab")), Ordering::Greater);
    assert_eq!(compare_text(&s(""), &s("a")), Ordering::Less);
    assert_eq!(compare_text(&s("same"), &s("same")), Ordering::Equal);
    assert_eq!(compare_text(&s("B"), &s("a")), Ordering::Less);
    assert_eq!(compare_text(&s("\u{e9}"), &s("z")), Ordering::Greater);
}

#[test]
fn books_order_by_author_then_title() {
    let a = book("Zebra", "Adams");
    let b = book("Apple", "Brown");
    let c = book("Beta", "Brown");
    assert_eq!(a.partial_cmp(&b), Some(Ordering::Less));
    assert_eq!(b.partial_cmp(&c), Some(Ordering::Less));
    assert_eq!(c.partial_cmp(&a), Some(Ordering::Greater));
    assert_eq!(c.partial_cmp(&book("Beta", "Brown")), Some(Ordering::Equal));
    assert!(a < b);
}

#[test]
fn book_equality_is_on_the_natural_key() {
    assert!(book("Dune", "Herbert") == book("Dune", "Herbert"));
    assert!(book("Dune", "Herbert") != book("dune", "Herbert"));
}
