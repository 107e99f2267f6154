//! The two configured paths (the library directory and the device
//! directory), each unset while empty.
use vstd::prelude::*;

verus! {

/// Which configured path an operation reads or writes.
#[derive(Debug, Clone, Copy, PartialEq, Eq, Structural)]
pub enum ConfigItem {
    EreaderPath,
    LibraryPath,
}

/// The stored configuration; an empty path means that it was never set.
#[derive(Debug, Clone)]
pub struct Configuration {
    pub ereader_path: String,
    pub library_path: String,
}

/// Why a configured path could not be had.
#[derive(Debug)]
pub enum ConfigurationError {
    /// The device path is not set.
    NoEreaderPath,
    /// The library path is not set.
    NoLibraryPath,
    /// The stored configuration could not be read or written; the message
    /// says why.
    Unreadable(String),
}

impl ConfigItem {
    /// The name of this item for messages.
    pub fn label(&self) -> (r: &'static str)
        ensures
            *self == ConfigItem::EreaderPath ==> r@ == "Ereader Path"@,
            *self == ConfigItem::LibraryPath ==> r@ == "Library Path"@,
    {
        match self {
            ConfigItem::EreaderPath => "Ereader Path",
            ConfigItem::LibraryPath => "Library Path",
        }
    }
}

/// The stored value of one item.
pub open spec fn item_value(config: Configuration, item: ConfigItem) -> Seq<char> {
    match item {
        ConfigItem::EreaderPath => config.ereader_path@,
        ConfigItem::LibraryPath => config.library_path@,
    }
}

impl Configuration {
    /// A configuration with neither path set.
    pub fn new() -> (r: Configuration)
        ensures
            r.ereader_path@.len() == 0,
            r.library_path@.len() == 0,
    {
        Configuration { ereader_path: String::new(), library_path: String::new() }
    }
}

/// The stored value of `item`, empty where it is not set.
pub fn get_config_item(config: &Configuration, item: ConfigItem) -> (r: String)
    ensures
        r@ == item_value(*config, item),
{
    match item {
        ConfigItem::EreaderPath => config.ereader_path.clone(),
        ConfigItem::LibraryPath => config.library_path.clone(),
    }
}

/// Stores `value` as `target`, leaving the other item as it was.
pub fn configure(config: &mut Configuration, target: ConfigItem, value: String)
    ensures
        item_value(*final(config), target) == value@,
        forall|other: ConfigItem|
            other != target ==> item_value(*final(config), other) == item_value(
                *old(config),
                other,
            ),
{
    match target {
        ConfigItem::EreaderPath => set_ereader_path(config, value),
        ConfigItem::LibraryPath => set_library_path(config, value),
    }
}

/// Stores `value` as the device path.
pub fn set_ereader_path(config: &mut Configuration, value: String)
    ensures
        final(config).ereader_path@ == value@,
        final(config).library_path@ == old(config).library_path@,
{
    config.ereader_path = value;
}

/// Stores `value` as the library path.
pub fn set_library_path(config: &mut Configuration, value: String)
    ensures
        final(config).library_path@ == value@,
        final(config).ereader_path@ == old(config).ereader_path@,
{
    config.library_path = value;
}

/// The device path, failing with `NoEreaderPath` where it is not set.
pub fn get_ereader_path(config: &Configuration) -> (r: Result<String, ConfigurationError>)
    ensures
        config.ereader_path@.len() == 0 ==> r matches Err(ConfigurationError::NoEreaderPath),
        config.ereader_path@.len() > 0 ==> (r matches Ok(p) && p@ == config.ereader_path@),
{
    let path = get_config_item(config, ConfigItem::EreaderPath);
    if path.as_str().unicode_len() == 0 {
        return Err(ConfigurationError::NoEreaderPath);
    }
    Ok(path)
}

/// The library path, failing with `NoLibraryPath` where it is not set.
pub fn get_library_path(config: &Configuration) -> (r: Result<String, ConfigurationError>)
    ensures
        config.library_path@.len() == 0 ==> r matches Err(ConfigurationError::NoLibraryPath),
        config.library_path@.len() > 0 ==> (r matches Ok(p) && p@ == config.library_path@),
{
    let path = get_config_item(config, ConfigItem::LibraryPath);
    if path.as_str().unicode_len() == 0 {
        return Err(ConfigurationError::NoLibraryPath);
    }
    Ok(path)
}

} // verus!
