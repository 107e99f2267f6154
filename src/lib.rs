//! A personal e-book collection: book identity and naming, the catalog and
//! its durable store, the managed library directory, and synchronization
//! with a reading device.
pub mod book;
pub mod catalog;
pub mod config;
pub mod database;
pub mod ereader;
pub mod library;
