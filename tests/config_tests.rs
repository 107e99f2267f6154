use bookshelf::config::{
    configure, get_config_item, get_ereader_path, get_library_path, set_ereader_path,
    set_library_path, ConfigItem, Configuration, ConfigurationError,
};

#[test]
fn new_configuration_has_no_paths() {
    let c = Configuration::new();
    assert!(matches!(get_library_path(&c), Err(ConfigurationError::NoLibraryPath)));
    assert!(matches!(get_ereader_path(&c), Err(ConfigurationError::NoEreaderPath)));
    assert_eq!(get_config_item(&c, ConfigItem::LibraryPath), "");
}

#[test]
fn configure_sets_only_its_target() {
    let mut c = Configuration::new();
    configure(&mut c, ConfigItem::LibraryPath, "/books".to_string());
    assert_eq!(get_library_path(&c).unwrap(), "/books");
    assert!(matches!(get_ereader_path(&c), Err(ConfigurationError::NoEreaderPath)));
    configure(&mut c, ConfigItem::EreaderPath, "/media/reader".to_string());
    assert_eq!(get_ereader_path(&c).unwrap(), "/media/reader");
    assert_eq!(get_config_item(&c, ConfigItem::LibraryPath), "/books");
}

#[test]
fn setters_replace_values() {
    let mut c = Configuration::new();
    set_library_path(&mut c, "a".to_string());
    set_library_path(&mut c, "b".to_string());
    set_ereader_path(&mut c, "d".to_string());
    assert_eq!(c.library_path, "b");
    assert_eq!(c.ereader_path, "d");
    set_library_path(&mut c, String::new());
    assert!(matches!(get_library_path(&c), Err(ConfigurationError::NoLibraryPath)));
}

#[test]
fn item_labels() {
    assert_eq!(ConfigItem::EreaderPath.label(), "Ereader Path");
    assert_eq!(ConfigItem::LibraryPath.label(), "Library Path");
}
