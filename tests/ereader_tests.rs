use bookshelf::book::Book;
use bookshelf::config::{set_ereader_path, set_library_path, Configuration};
use bookshelf::ereader::{load, plan_load, plan_unload, unload, EreaderError};
use std::cell::RefCell;
use std::collections::HashSet;

fn book(title: &str, author: &str) -> Book {
    Book { title: title.to_string(), author: author.to_string() }
}

fn config(library: &str, device: &str) -> Configuration {
    let mut c = Configuration::new();
    set_library_path(&mut c, library.to_string());
    set_ereader_path(&mut c, device.to_string());
    c
}

#[test]
fn load_without_device_path() {
    let c = config("L", "");
    assert_eq!(plan_load(&c, &book("Dune", "Herbert"), true, true).unwrap_err(), EreaderError::NoDevicePath);
}

#[test]
fn load_with_absent_device_fails_before_any_probe_of_the_library() {
    let c = config("L", "/media/reader");
    let asked = RefCell::new(Vec::new());
    let r = load(&c, &book("Dune", "Herbert"), |p: &String| {
        asked.borrow_mut().push(p.clone());
        false
    });
    assert_eq!(r.unwrap_err(), EreaderError::DeviceNotConnected);
    assert_eq!(asked.into_inner(), vec!["/media/reader".to_string()]);
}

#[test]
fn load_needs_library_path() {
    let c = config("", "D");
    assert_eq!(plan_load(&c, &book("Dune", "Herbert"), true, true).unwrap_err(), EreaderError::LibraryPathUnset);
}

#[test]
fn load_needs_file_in_library() {
    let c = config("L", "D");
    assert_eq!(
        plan_load(&c, &book("Dune", "Herbert"), true, false).unwrap_err(),
        EreaderError::NotInLibrary("L/Dune-Herbert".to_string())
    );
}

#[test]
fn load_copies_library_file_to_device() {
    let c = config("L", "D/");
    let t = plan_load(&c, &book("Dune", "Herbert"), true, true).unwrap();
    assert_eq!(t.source, "L/Dune-Herbert");
    assert_eq!(t.destination, "D/Dune-Herbert");
}

#[test]
fn unload_errors() {
    let c = config("L", "D");
    let b = book("Dune", "Herbert");
    assert_eq!(plan_unload(&config("L", ""), &b, true, true).unwrap_err(), EreaderError::NoDevicePath);
    assert_eq!(plan_unload(&c, &b, false, true).unwrap_err(), EreaderError::DeviceNotConnected);
    assert_eq!(
        plan_unload(&c, &b, true, false).unwrap_err(),
        EreaderError::NotOnDevice("D/Dune-Herbert".to_string())
    );
    assert_eq!(plan_unload(&c, &b, true, true).unwrap(), "D/Dune-Herbert");
}

#[test]
fn load_then_unload_leaves_library_copy() {
    let c = config("L", "D");
    let b = book("Dune", "Herbert");
    let files: RefCell<HashSet<String>> =
        RefCell::new(["D".to_string(), "L/Dune-Herbert".to_string()].into_iter().collect());
    let t = load(&c, &b, |p: &String| files.borrow().contains(p)).unwrap();
    files.borrow_mut().insert(t.destination.clone());
    let target = unload(&c, &b, |p: &String| files.borrow().contains(p)).unwrap();
    files.borrow_mut().remove(&target);
    let files = files.into_inner();
    assert!(!files.contains("D/Dune-Herbert"));
    assert!(files.contains("L/Dune-Herbert"));
}

#[test]
fn unload_of_book_not_on_device() {
    let c = config("L", "D");
    let r = unload(&c, &book("Dune", "Herbert"), |p: &String| p == "D");
    assert_eq!(r.unwrap_err(), EreaderError::NotOnDevice("D/Dune-Herbert".to_string()));
}
