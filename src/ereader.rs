//! Synchronization with the reading device: the checks made before a book's
//! file is copied to the device or deleted from it.
use vstd::prelude::*;
use crate::book::{Book, file_stem};
use crate::config::{Configuration, get_ereader_path};
use crate::library::{Transfer, get_book_path, join_path, path_join};

verus! {

/// Why a book could not be loaded onto or unloaded from the device.
#[derive(Debug, PartialEq, Eq)]
pub enum EreaderError {
    /// No device path is configured.
    NoDevicePath,
    /// The device path does not exist: the device is not plugged in.
    DeviceNotConnected,
    /// No library path is configured.
    LibraryPathUnset,
    /// The book's file is missing from the library, at this path.
    NotInLibrary(String),
    /// The book's file is missing from the device, at this path.
    NotOnDevice(String),
}

/// Where `book`'s file lives in the library.
pub open spec fn library_file(config: Configuration, book: Book) -> Seq<char> {
    path_join(config.library_path@, file_stem(book@))
}

/// Where `book`'s file lives on the device.
pub open spec fn device_file(config: Configuration, book: Book) -> Seq<char> {
    path_join(config.ereader_path@, file_stem(book@))
}

/// What loading `book` gives, given whether the device path exists and
/// whether the book's library file exists. The checks go in order: device
/// path set, device connected, library path set, file in the library.
pub open spec fn load_outcome(
    config: Configuration,
    book: Book,
    device_connected: bool,
    in_library: bool,
    r: Result<Transfer, EreaderError>,
) -> bool {
    if config.ereader_path@.len() == 0 {
        r matches Err(EreaderError::NoDevicePath)
    } else if !device_connected {
        r matches Err(EreaderError::DeviceNotConnected)
    } else if config.library_path@.len() == 0 {
        r matches Err(EreaderError::LibraryPathUnset)
    } else if !in_library {
        r matches Err(EreaderError::NotInLibrary(p)) && p@ == library_file(config, book)
    } else {
        r matches Ok(t) && t.source@ == library_file(config, book) && t.destination@
            == device_file(config, book)
    }
}

/// What unloading `book` gives, given whether the device path exists and
/// whether the book's file is on the device: on success, the file to
/// delete.
pub open spec fn unload_outcome(
    config: Configuration,
    book: Book,
    device_connected: bool,
    on_device: bool,
    r: Result<String, EreaderError>,
) -> bool {
    if config.ereader_path@.len() == 0 {
        r matches Err(EreaderError::NoDevicePath)
    } else if !device_connected {
        r matches Err(EreaderError::DeviceNotConnected)
    } else if !on_device {
        r matches Err(EreaderError::NotOnDevice(p)) && p@ == device_file(config, book)
    } else {
        r matches Ok(p) && p@ == device_file(config, book)
    }
}

/// The copy that loads `book` onto the device, or why there is none.
pub fn plan_load(config: &Configuration, book: &Book, device_connected: bool, in_library: bool) -> (r:
    Result<Transfer, EreaderError>)
    ensures
        load_outcome(*config, *book, device_connected, in_library, r),
{
    let device_root = match get_ereader_path(config) {
        Ok(p) => p,
        Err(_) => {
            return Err(EreaderError::NoDevicePath);
        },
    };
    if !device_connected {
        return Err(EreaderError::DeviceNotConnected);
    }
    let source = match get_book_path(config, book) {
        Ok(p) => p,
        Err(_) => {
            return Err(EreaderError::LibraryPathUnset);
        },
    };
    if !in_library {
        return Err(EreaderError::NotInLibrary(source));
    }
    let stem = book.file_name();
    let destination = join_path(&device_root, &stem);
    Ok(Transfer { source, destination })
}

/// The device file that unloading `book` deletes, or why there is none.
pub fn plan_unload(config: &Configuration, book: &Book, device_connected: bool, on_device: bool) -> (r:
    Result<String, EreaderError>)
    ensures
        unload_outcome(*config, *book, device_connected, on_device, r),
{
    let device_root = match get_ereader_path(config) {
        Ok(p) => p,
        Err(_) => {
            return Err(EreaderError::NoDevicePath);
        },
    };
    if !device_connected {
        return Err(EreaderError::DeviceNotConnected);
    }
    let stem = book.file_name();
    let target = join_path(&device_root, &stem);
    if !on_device {
        return Err(EreaderError::NotOnDevice(target));
    }
    Ok(target)
}

/// `path_exists` answered `b` when asked about a path whose text is `p`.
pub open spec fn answered<F: Fn(&String) -> bool>(path_exists: F, p: Seq<char>, b: bool) -> bool {
    exists|s: String| s@ == p && path_exists.ensures((&s,), b)
}

/// Loads `book`: asks `path_exists` about the device path, then about the
/// book's library file, each only where the checks before it passed.
pub fn load<F: Fn(&String) -> bool>(config: &Configuration, book: &Book, path_exists: F) -> (r:
    Result<Transfer, EreaderError>)
    requires
        forall|p: &String| path_exists.requires((p,)),
    ensures
        exists|c: bool, l: bool|
            {
                &&& load_outcome(*config, *book, c, l, r)
                &&& config.ereader_path@.len() > 0 ==> answered(path_exists, config.ereader_path@, c)
                &&& config.ereader_path@.len() > 0 && c && config.library_path@.len() > 0
                    ==> answered(path_exists, library_file(*config, *book), l)
            },
{
    let device_root = match get_ereader_path(config) {
        Ok(p) => p,
        Err(_) => {
            return plan_load(config, book, false, false);
        },
    };
    let connected = path_exists(&device_root);
    assert(answered(path_exists, config.ereader_path@, connected));
    if !connected {
        return plan_load(config, book, false, false);
    }
    let in_library = match get_book_path(config, book) {
        Ok(p) => {
            let answer = path_exists(&p);
            assert(answered(path_exists, library_file(*config, *book), answer));
            answer
        },
        Err(_) => false,
    };
    plan_load(config, book, true, in_library)
}

/// Unloads `book`: asks `path_exists` about the device path, then about the
/// book's file on the device, the second only where the device is
/// connected.
pub fn unload<F: Fn(&String) -> bool>(config: &Configuration, book: &Book, path_exists: F) -> (r:
    Result<String, EreaderError>)
    requires
        forall|p: &String| path_exists.requires((p,)),
    ensures
        exists|c: bool, d: bool|
            {
                &&& unload_outcome(*config, *book, c, d, r)
                &&& config.ereader_path@.len() > 0 ==> answered(path_exists, config.ereader_path@, c)
                &&& config.ereader_path@.len() > 0 && c ==> answered(
                    path_exists,
                    device_file(*config, *book),
                    d,
                )
            },
{
    let device_root = match get_ereader_path(config) {
        Ok(p) => p,
        Err(_) => {
            return plan_unload(config, book, false, false);
        },
    };
    let connected = path_exists(&device_root);
    if !connected {
        return plan_unload(config, book, false, false);
    }
    let stem = book.file_name();
    let target = join_path(&device_root, &stem);
    let on_device = path_exists(&target);
    assert(answered(path_exists, config.ereader_path@, connected));
    assert(answered(path_exists, device_file(*config, *book), on_device));
    plan_unload(config, book, true, on_device)
}

/// Where the device path is set but does not exist, loading fails with
/// `DeviceNotConnected` whatever the library holds, and plans no copy.
pub proof fn law_load_needs_connected_device(
    config: Configuration,
    book: Book,
    in_library: bool,
    r: Result<Transfer, EreaderError>,
)
    requires
        config.ereader_path@.len() > 0,
        load_outcome(config, book, false, in_library, r),
    ensures
        r matches Err(EreaderError::DeviceNotConnected),
        !(r is Ok),
{
}

/// Loading a book and then unloading it, each on the files present at its
/// time, leaves the device without the book's file and the library copy in
/// place. `present` is the set of existing paths before the load; the load
/// copies to its destination, the unload deletes the file it names.
pub proof fn law_load_then_unload(
    config: Configuration,
    book: Book,
    present: Set<Seq<char>>,
    loaded: Result<Transfer, EreaderError>,
    unloaded: Result<String, EreaderError>,
)
    requires
        library_file(config, book) != device_file(config, book),
        load_outcome(
            config,
            book,
            present.contains(config.ereader_path@),
            present.contains(library_file(config, book)),
            loaded,
        ),
        loaded is Ok,
        unload_outcome(
            config,
            book,
            present.insert(loaded->Ok_0.destination@).contains(config.ereader_path@),
            present.insert(loaded->Ok_0.destination@).contains(device_file(config, book)),
            unloaded,
        ),
    ensures
        unloaded is Ok,
        !present.insert(loaded->Ok_0.destination@).remove(unloaded->Ok_0@).contains(
            device_file(config, book),
        ),
        present.insert(loaded->Ok_0.destination@).remove(unloaded->Ok_0@).contains(
            library_file(config, book),
        ),
{
}

} // verus!
